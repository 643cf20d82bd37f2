use int_enum::ast::{Attribute, EnumInput, RawVariant};
use int_enum::expr::Expr;
use int_enum::convert::Table;
use int_enum::input::Input;
use int_enum::prim::PrimInt;
use int_enum::policy::ReprPolicy;
use int_enum::value::Value;

fn literal(text: &str) -> Expr {
    match text.strip_prefix('-') {
        Some(digits) => Expr::neg_lit(digits),
        None => Expr::lit(text),
    }
}

fn bounds(int: &str, min: &str, max: &str) -> Table {
    let input = EnumInput::new(
        "Bounds",
        vec![Attribute::repr(int)],
        vec![
            RawVariant::unit("Min", Some(literal(min))),
            RawVariant::unit("Max", Some(literal(max))),
        ],
    );
    Input::from_enum(&input, ReprPolicy::FirstMatch).unwrap().table().unwrap()
}

fn check<T: PrimInt>(int: &str, min_text: &str, max_text: &str, min: T, max: T) {
    let e = bounds(int, min_text, max_text);
    assert_eq!(T::int_type().name(), int);

    assert_eq!(Value::of(min), e.int_value(0));
    assert_eq!(Value::of(max), e.int_value(1));
    assert_eq!(T::int_type().min(), e.int_value(0));
    assert_eq!(T::int_type().max(), e.int_value(1));

    assert_eq!(0, e.from_int(Value::of(min)).unwrap());
    assert_eq!(1, e.from_int(Value::of(max)).unwrap());
}

#[test]
fn bounds_u8() {
    check("u8", "0", "255", u8::MIN, u8::MAX);
}

#[test]
fn bounds_u16() {
    check("u16", "0", "65535", u16::MIN, u16::MAX);
}

#[test]
fn bounds_u32() {
    check("u32", "0", "4294967295", u32::MIN, u32::MAX);
}

#[test]
fn bounds_u64() {
    check("u64", "0", "18446744073709551615", u64::MIN, u64::MAX);
}

#[test]
fn bounds_u128() {
    check("u128", "0", "340282366920938463463374607431768211455", u128::MIN, u128::MAX);
}

#[test]
fn bounds_i8() {
    check("i8", "-128", "127", i8::MIN, i8::MAX);
}

#[test]
fn bounds_i16() {
    check("i16", "-32768", "32767", i16::MIN, i16::MAX);
}

#[test]
fn bounds_i32() {
    check("i32", "-2147483648", "2147483647", i32::MIN, i32::MAX);
}

#[test]
fn bounds_i64() {
    check("i64", "-9223372036854775808", "9223372036854775807", i64::MIN, i64::MAX);
}

#[test]
fn bounds_i128() {
    check(
        "i128",
        "-170141183460469231731687303715884105728",
        "170141183460469231731687303715884105727",
        i128::MIN,
        i128::MAX,
    );
}

#[test]
fn bounds_usize() {
    check("usize", "0", &usize::MAX.to_string(), usize::MIN, usize::MAX);
}

#[test]
fn bounds_isize() {
    check("isize", &isize::MIN.to_string(), &isize::MAX.to_string(), isize::MIN, isize::MAX);
}

#[test]
fn one_past_the_bounds_is_refused() {
    for (int, below, above) in [
        ("u8", "-1", "256"),
        ("u16", "-1", "65536"),
        ("u32", "-1", "4294967296"),
        ("u64", "-1", "18446744073709551616"),
        ("u128", "-1", "340282366920938463463374607431768211456"),
        ("i8", "-129", "128"),
        ("i16", "-32769", "32768"),
        ("i32", "-2147483649", "2147483648"),
        ("i64", "-9223372036854775809", "9223372036854775808"),
        (
            "i128",
            "-170141183460469231731687303715884105729",
            "170141183460469231731687303715884105728",
        ),
    ] {
        for text in [below, above] {
            let input = EnumInput::new(
                "Bounds",
                vec![Attribute::repr(int)],
                vec![RawVariant::unit("Out", Some(literal(text)))],
            );
            assert!(Input::from_enum(&input, ReprPolicy::FirstMatch).is_err(), "{int} {text}");
        }
    }
}

#[test]
fn basic_in_every_representation() {
    for int in
        ["u8", "u16", "u32", "u64", "u128", "usize", "i8", "i16", "i32", "i64", "i128", "isize"]
    {
        let input = EnumInput::new(
            "Basic",
            vec![Attribute::repr(int)],
            vec![
                RawVariant::unit("One", Some(Expr::lit("1"))),
                RawVariant::unit("Two", Some(Expr::lit("2"))),
                RawVariant::unit("Three", Some(Expr::lit("3"))),
            ],
        );
        let e = Input::from_enum(&input, ReprPolicy::FirstMatch).unwrap().table().unwrap();
        assert_eq!(e.int_type().name(), int);
        assert_eq!(e.repr_name(), int);
        assert_eq!(e.name(), "Basic");

        assert_eq!(Value::of(1u8), e.int_value(0));
        assert_eq!(Value::of(2u8), e.int_value(1));
        assert_eq!(Value::of(3u8), e.int_value(2));

        assert_eq!(0, e.from_int(Value::of(1u8)).unwrap());
        assert_eq!(1, e.from_int(Value::of(2u8)).unwrap());
        assert_eq!(2, e.from_int(Value::of(3u8)).unwrap());

        assert!(e.from_int(Value::of(4u8)).is_err());
    }
}
