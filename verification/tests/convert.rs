use int_enum::ast::{Attribute, EnumInput, RawVariant};
use int_enum::expr::Expr;
use int_enum::convert::Table;
use int_enum::input::Input;
use int_enum::policy::ReprPolicy;
use int_enum::value::Value;

fn enum_u8() -> Table {
    let input = EnumInput::new(
        "Enum",
        vec![Attribute::repr("u8")],
        vec![
            RawVariant::unit("One", Some(Expr::lit("1"))),
            RawVariant::unit("Two", Some(Expr::lit("2"))),
            RawVariant::unit("Three", Some(Expr::lit("3"))),
        ],
    );
    Input::from_enum(&input, ReprPolicy::FirstMatch).unwrap().table().unwrap()
}

fn named(e: &Table, name: &str) -> usize {
    e.variant_named(name).unwrap()
}

#[test]
fn from_enum() {
    let e = enum_u8();
    assert_eq!(e.int_value(named(&e, "One")), Value::of(1u8));
    assert_eq!(e.int_value(named(&e, "Two")), Value::of(2u8));
    assert_eq!(e.int_value(named(&e, "Three")), Value::of(3u8));
}

#[test]
fn try_from_int() {
    let e = enum_u8();
    assert_eq!(e.from_int(Value::of(1u8)).ok(), Some(named(&e, "One")));
    assert_eq!(e.from_int(Value::of(2u8)).ok(), Some(named(&e, "Two")));
    assert_eq!(e.from_int(Value::of(3u8)).ok(), Some(named(&e, "Three")));

    assert_eq!(e.from_int(Value::of(4u8)).map_err(|err| err.value()), Err(Value::of(4u8)));
}

#[test]
fn unknown_value_error_names_its_target() {
    let e = enum_u8();
    let err = e.from_int(Value::of(4u8)).unwrap_err();
    assert_eq!(err.value().to_u128(), Some(4));
    assert_eq!(err.target(), "Enum");
    assert_eq!(err.to_string(), "unknown variant: 4");
}

#[test]
fn every_variant_comes_back() {
    let e = enum_u8();
    assert!(e.is_injective());
    for v in 0..e.len() {
        assert_eq!(e.from_int(e.int_value(v)).ok(), Some(v));
    }
}

#[test]
fn every_other_integer_is_unknown() {
    let e = enum_u8();
    for n in 0..=u8::MAX {
        let r = e.from_int(Value::of(n));
        if (1..=3).contains(&n) {
            assert_eq!(r.ok(), Some(usize::from(n) - 1));
        } else {
            assert_eq!(r.unwrap_err().value(), Value::of(n));
        }
    }
}

#[test]
fn repeated_discriminant_goes_to_the_first_variant() {
    let input = EnumInput::new(
        "Twice",
        vec![Attribute::repr("u8")],
        vec![
            RawVariant::unit("A", Some(Expr::lit("1"))),
            RawVariant::unit("B", Some(Expr::lit("1"))),
        ],
    );
    let e = Input::from_enum(&input, ReprPolicy::FirstMatch).unwrap().table().unwrap();
    assert!(!e.is_injective());
    assert_eq!(e.from_int(e.int_value(1)).ok(), Some(0));
}

#[test]
fn variants_are_found_by_name() {
    let e = enum_u8();
    assert_eq!(e.len(), 3);
    assert_eq!(e.variant_named("Two"), Some(1));
    assert_eq!(e.variant_named("Four"), None);
    assert_eq!(e.variant_name(2), "Three");
}
