use int_enum::ast::{Attribute, EnumInput, RawVariant};
use int_enum::expr::Expr;
use int_enum::convert::Table;
use int_enum::input::Input;
use int_enum::policy::ReprPolicy;
use int_enum::value::Value;

fn advanced() -> Table {
    let input = EnumInput::new(
        "Advanced",
        vec![Attribute::repr("i8")],
        vec![
            RawVariant::unit("Zero", Some(Expr::lit("0"))),
            RawVariant::unit("Twenty", Some(Expr::lit("20"))),
            RawVariant::unit("NegativeFive", Some(Expr::neg_lit("5"))),
        ],
    );
    Input::from_enum(&input, ReprPolicy::FirstMatch).unwrap().table().unwrap()
}

fn variant(e: &Table, name: &str) -> usize {
    e.variant_named(name).unwrap()
}

#[test]
fn advanced_test_as_int() {
    let e = advanced();
    assert_eq!(Value::of(0i8), e.int_value(variant(&e, "Zero")));
    assert_eq!(Value::of(20i8), e.int_value(variant(&e, "Twenty")));
    assert_eq!(Value::of(-5i8), e.int_value(variant(&e, "NegativeFive")));
}

#[test]
fn advanced_test_from_int() {
    let e = advanced();
    assert_eq!(variant(&e, "Zero"), e.from_int(Value::of(0i8)).unwrap());
    assert_eq!(variant(&e, "Twenty"), e.from_int(Value::of(20i8)).unwrap());
    assert_eq!(variant(&e, "NegativeFive"), e.from_int(Value::of(-5i8)).unwrap());

    assert!(e.from_int(Value::of(-127i8)).is_err());
}
