use int_enum::ast::{Attribute, EnumInput, RawVariant};
use int_enum::expr::Expr;
use int_enum::convert::Table;
use int_enum::input::Input;
use int_enum::policy::ReprPolicy;
use int_enum::value::Value;

fn single(name: &str, int: &str, variant: RawVariant) -> Table {
    let input = EnumInput::new(name, vec![Attribute::repr(int)], vec![variant]);
    Input::from_enum(&input, ReprPolicy::FirstMatch).unwrap().table().unwrap()
}

fn u128_enum() -> Table {
    single("U128", "u128", RawVariant::unit("One", Some(Expr::lit("1"))))
}

fn i128_enum() -> Table {
    single("I128", "i128", RawVariant::unit("Negative", Some(Expr::neg_lit("31231223124151"))))
}

#[test]
fn int128_test_as_int() {
    assert_eq!(u128_enum().int_value(0), Value::of(1u128));
    assert_eq!(i128_enum().int_value(0), Value::of(-31231223124151i128));
}

#[test]
fn int128_test_from_int() {
    assert_eq!(0, u128_enum().from_int(Value::of(1u128)).unwrap());
    assert_eq!(0, i128_enum().from_int(Value::of(-31231223124151i128)).unwrap());
}
