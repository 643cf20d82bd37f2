use int_enum::ast::{Attribute, EnumInput, RawVariant};
use int_enum::expr::Expr;
use int_enum::convert::Table;
use int_enum::input::Input;
use int_enum::repr::{IntSize, IntStyle, IntType};
use int_enum::serde::{
    actual, pointer_size, visit_fn, visit_fns, visit_fns_ptr_size, DeError, VisitBody,
};
use int_enum::policy::ReprPolicy;
use int_enum::value::Value;
use int_enum::wire::Wire;

fn literal(text: &str) -> Expr {
    match text.strip_prefix('-') {
        Some(digits) => Expr::neg_lit(digits),
        None => Expr::lit(text),
    }
}

fn resolved(int: &str, min: &str, max: &str) -> Input {
    let input = EnumInput::new(
        "Bounds",
        vec![Attribute::repr(int)],
        vec![
            RawVariant::unit("Min", Some(literal(min))),
            RawVariant::unit("Max", Some(literal(max))),
        ],
    );
    Input::from_enum(&input, ReprPolicy::FirstMatch).unwrap()
}

fn bounds(int: &str, min: &str, max: &str) -> Table {
    resolved(int, min, max).table().unwrap()
}

fn ty(style: IntStyle, size: IntSize) -> IntType {
    IntType { style, size }
}

fn out_of_range(value: i128, min: i128, max: i128) -> Result<usize, DeError> {
    Err(DeError::OutOfRange {
        value: Value::from_i128(value),
        min: Value::from_i128(min),
        max: Value::from_i128(max),
    })
}

#[test]
fn test_serialize() {
    assert_eq!(bounds("u8", "0", "255").serialize(0), Wire::U8(0));
    assert_eq!(bounds("u8", "0", "255").serialize(1), Wire::U8(255));
    assert_eq!(bounds("u16", "0", "65535").serialize(1), Wire::U16(65535));
    assert_eq!(bounds("u32", "0", "4294967295").serialize(1), Wire::U32(4294967295));
    assert_eq!(
        bounds("u64", "0", "18446744073709551615").serialize(1),
        Wire::U64(18446744073709551615)
    );
    assert_eq!(
        bounds("u128", "0", "340282366920938463463374607431768211455").serialize(1),
        Wire::U128(u128::MAX)
    );
    assert_eq!(bounds("i8", "-128", "127").serialize(0), Wire::I8(-128));
    assert_eq!(bounds("i8", "-128", "127").serialize(1), Wire::I8(127));
    assert_eq!(bounds("i16", "-32768", "32767").serialize(0), Wire::I16(-32768));
    assert_eq!(bounds("i32", "-2147483648", "2147483647").serialize(0), Wire::I32(i32::MIN));
    assert_eq!(
        bounds("i64", "-9223372036854775808", "9223372036854775807").serialize(0),
        Wire::I64(-9223372036854775808)
    );
    assert_eq!(
        bounds(
            "i128",
            "-170141183460469231731687303715884105728",
            "170141183460469231731687303715884105727"
        )
        .serialize(0),
        Wire::I128(i128::MIN)
    );
}

#[test]
fn pointer_sized_goes_onto_the_wire_in_its_fixed_width() {
    let e = bounds("usize", "0", &usize::MAX.to_string());
    let max = e.serialize(1);
    assert_eq!(max.ty().name(), format!("u{}", usize::BITS));
    assert_eq!(max.value(), Value::of(usize::MAX));
    assert_eq!(e.deserialize(max), Ok(1));
    assert_eq!(e.deserialize(Wire::U8(0)), Ok(0));
    assert_eq!(
        e.deserialize(Wire::U128(u128::MAX)),
        Err(DeError::OutOfRange {
            value: Value::of(u128::MAX),
            min: Value::of(0u8),
            max: Value::of(usize::MAX),
        })
    );
    assert_eq!(
        e.deserialize(Wire::I8(0)),
        Err(DeError::InvalidType { value: Value::of(0i8), expected: "usize integer".to_string() })
    );

    let e = bounds("isize", &isize::MIN.to_string(), &isize::MAX.to_string());
    let min = e.serialize(0);
    assert_eq!(min.ty().name(), format!("i{}", isize::BITS));
    assert_eq!(min.value(), Value::of(isize::MIN));
    assert_eq!(e.deserialize(min), Ok(0));
    assert_eq!(e.deserialize(Wire::I128(isize::MAX as i128)), Ok(1));
    assert_eq!(e.deserialize(Wire::U128(isize::MAX as u128)), Ok(1));
    assert_eq!(
        e.deserialize(Wire::U128(isize::MAX as u128 + 1)),
        Err(DeError::OutOfRange {
            value: Value::of(isize::MAX as u128 + 1),
            min: Value::of(isize::MIN),
            max: Value::of(isize::MAX),
        })
    );
    assert_eq!(
        e.deserialize(Wire::I128(isize::MIN as i128 - 1)),
        Err(DeError::OutOfRange {
            value: Value::of(isize::MIN as i128 - 1),
            min: Value::of(isize::MIN),
            max: Value::of(isize::MAX),
        })
    );
}

#[test]
fn test_deserialize() {
    let e = bounds("u8", "0", "255");
    assert_eq!(e.deserialize(Wire::U64(0)), Ok(0));
    assert_eq!(e.deserialize(Wire::U64(255)), Ok(1));
    let e = bounds("i64", "-9223372036854775808", "9223372036854775807");
    assert_eq!(e.deserialize(Wire::I64(i64::MIN)), Ok(0));
    assert_eq!(e.deserialize(Wire::U64(9223372036854775807)), Ok(1));
    assert_eq!(
        e.deserialize(Wire::U64(9223372036854775808)),
        Err(DeError::OutOfRange {
            value: Value::of(9223372036854775808u64),
            min: Value::of(i64::MIN),
            max: Value::of(i64::MAX),
        })
    );
}

#[test]
fn what_is_written_is_read_back() {
    for (int, min, max) in [
        ("u8", "0", "255"),
        ("u16", "0", "65535"),
        ("u32", "0", "4294967295"),
        ("u64", "0", "18446744073709551615"),
        ("u128", "0", "340282366920938463463374607431768211455"),
        ("i8", "-128", "127"),
        ("i16", "-32768", "32767"),
        ("i32", "-2147483648", "2147483647"),
        ("i64", "-9223372036854775808", "9223372036854775807"),
        (
            "i128",
            "-170141183460469231731687303715884105728",
            "170141183460469231731687303715884105727",
        ),
    ] {
        let e = bounds(int, min, max);
        for v in 0..e.len() {
            let wire = e.serialize(v);
            assert_eq!(wire.ty(), e.int_type());
            assert_eq!(e.deserialize(wire), Ok(v));
        }
    }
}

#[test]
fn signed_eight_bits_takes_unsigned_wire_integers() {
    let e = bounds("i8", "-128", "127");
    assert_eq!(e.deserialize(Wire::U8(127)), Ok(1));
    assert_eq!(e.deserialize(Wire::U16(127)), Ok(1));
    assert_eq!(e.deserialize(Wire::U32(127)), Ok(1));
    assert_eq!(e.deserialize(Wire::U64(127)), Ok(1));
    assert_eq!(e.deserialize(Wire::U128(127)), Ok(1));
    for n in 0..127u8 {
        for wire in [
            Wire::U8(n),
            Wire::U16(n.into()),
            Wire::U32(n.into()),
            Wire::U64(n.into()),
            Wire::U128(n.into()),
        ] {
            match e.deserialize(wire) {
                Err(DeError::Unknown(err)) => assert_eq!(err.value(), Value::of(n)),
                other => panic!("{:?}", other),
            }
        }
    }
}

#[test]
fn signed_eight_bits_refuses_what_lies_outside() {
    let e = bounds("i8", "-128", "127");
    assert_eq!(e.deserialize(Wire::U8(128)), out_of_range(128, -128, 127));
    assert_eq!(e.deserialize(Wire::U8(255)), out_of_range(255, -128, 127));
    assert_eq!(e.deserialize(Wire::U16(128)), out_of_range(128, -128, 127));
    assert_eq!(e.deserialize(Wire::U32(128)), out_of_range(128, -128, 127));
    assert_eq!(e.deserialize(Wire::U64(128)), out_of_range(128, -128, 127));
    assert_eq!(
        e.deserialize(Wire::U64(u64::MAX)),
        out_of_range(18446744073709551615, -128, 127)
    );
    assert_eq!(e.deserialize(Wire::I16(128)), out_of_range(128, -128, 127));
    assert_eq!(e.deserialize(Wire::I16(-129)), out_of_range(-129, -128, 127));
    assert_eq!(e.deserialize(Wire::I32(-129)), out_of_range(-129, -128, 127));
    assert_eq!(e.deserialize(Wire::I64(-129)), out_of_range(-129, -128, 127));
    assert_eq!(e.deserialize(Wire::I64(i64::MIN)), out_of_range(i64::MIN.into(), -128, 127));
    assert_eq!(e.deserialize(Wire::I128(128)), out_of_range(128, -128, 127));
    assert_eq!(e.deserialize(Wire::I128(i128::MIN)), out_of_range(i128::MIN, -128, 127));

    assert_eq!(e.deserialize(Wire::I16(-128)), Ok(0));
    assert_eq!(e.deserialize(Wire::I64(-128)), Ok(0));
    assert_eq!(e.deserialize(Wire::I128(127)), Ok(1));
    assert_eq!(e.deserialize(Wire::I8(-128)), Ok(0));
}

#[test]
fn wide_signed_takes_narrow_unsigned_whole() {
    let e = bounds("i64", "0", "255");
    assert_eq!(e.deserialize(Wire::U8(255)), Ok(1));
    assert_eq!(e.deserialize(Wire::U8(0)), Ok(0));
    match e.deserialize(Wire::U8(7)) {
        Err(DeError::Unknown(err)) => assert_eq!(err.value(), Value::of(7u8)),
        other => panic!("{:?}", other),
    }
}

#[test]
fn unsigned_takes_no_signed_wire_integers() {
    let e = bounds("u8", "0", "255");
    assert_eq!(
        e.deserialize(Wire::I16(-1)),
        Err(DeError::InvalidType { value: Value::of(-1i16), expected: "u8 integer".to_string() })
    );
    assert_eq!(
        e.deserialize(Wire::I8(0)),
        Err(DeError::InvalidType { value: Value::of(0i8), expected: "u8 integer".to_string() })
    );
    assert_eq!(e.deserialize(Wire::U16(256)), out_of_range(256, 0, 255));
    assert_eq!(e.deserialize(Wire::U128(u128::MAX)).unwrap_err().to_string(),
        "unknown variant `340282366920938463463374607431768211455`, out of range [0, 255]");
}

#[test]
fn errors_say_what_went_wrong() {
    let e = bounds("i8", "-128", "127");
    assert_eq!(
        e.deserialize(Wire::I16(-129)).unwrap_err().to_string(),
        "unknown variant `-129`, out of range [-128, 127]"
    );
    assert_eq!(e.deserialize(Wire::I16(5)).unwrap_err().to_string(), "unknown variant: 5");
    let e = bounds("u8", "0", "255");
    assert_eq!(
        e.deserialize(Wire::I16(-1)).unwrap_err().to_string(),
        "invalid type: integer `-1`, expected u8 integer"
    );
}

#[test]
fn visitor_functions_come_in_order() {
    let signed = visit_fns(ty(IntStyle::Signed, IntSize::_16));
    let types: Vec<String> = signed.iter().map(|f| f.visit_ty().name()).collect();
    assert_eq!(types, ["i8", "u8", "i16", "u16", "i32", "u32", "i64", "u64", "i128", "u128"]);
    assert!(signed.iter().all(|f| f.actual() == ty(IntStyle::Signed, IntSize::_16)));
    assert!(signed.iter().all(|f| f.slot().guard.is_none()));

    let unsigned = visit_fns(ty(IntStyle::Unsigned, IntSize::_16));
    let types: Vec<String> = unsigned.iter().map(|f| f.visit_ty().name()).collect();
    assert_eq!(types, ["u8", "u16", "u32", "u64", "u128"]);
}

#[test]
fn pointer_sized_has_functions_for_every_width_of_a_pointer() {
    let unsigned = visit_fns(ty(IntStyle::Unsigned, IntSize::Size));
    assert_eq!(unsigned, visit_fns_ptr_size(ty(IntStyle::Unsigned, IntSize::Size)));
    let places: Vec<(String, String, String)> = unsigned
        .iter()
        .map(|f| (f.slot().guard.unwrap().suffix().to_string(), f.actual().name(), f.visit_ty().name()))
        .collect();
    let mut expected = Vec::new();
    for pointer in ["16", "32", "64"] {
        for width in ["8", "16", "32", "64", "128"] {
            expected.push((pointer.to_string(), format!("u{pointer}"), format!("u{width}")));
        }
    }
    assert_eq!(places, expected);

    let signed = visit_fns(ty(IntStyle::Signed, IntSize::Size));
    let places: Vec<(String, String, String)> = signed
        .iter()
        .map(|f| (f.slot().guard.unwrap().suffix().to_string(), f.actual().name(), f.visit_ty().name()))
        .collect();
    let mut expected = Vec::new();
    for pointer in ["16", "32", "64"] {
        for width in ["8", "16", "32", "64", "128"] {
            expected.push((pointer.to_string(), format!("i{pointer}"), format!("i{width}")));
            expected.push((pointer.to_string(), format!("i{pointer}"), format!("u{width}")));
        }
    }
    assert_eq!(places, expected);
    assert_eq!(signed[12].body(), visit_fn(ty(IntStyle::Signed, IntSize::_32), IntSize::_32, IntStyle::Signed, IntSize::_16).unwrap().body());
    assert_eq!(pointer_size().suffix(), usize::BITS.to_string());
    assert_eq!(actual(ty(IntStyle::Signed, IntSize::Size), IntSize::_32), ty(IntStyle::Signed, IntSize::_32));
    assert_eq!(actual(ty(IntStyle::Signed, IntSize::_8), IntSize::_32), ty(IntStyle::Signed, IntSize::_8));
}

#[test]
fn visitor_functions_check_what_may_not_fit() {
    let i16_ty = ty(IntStyle::Signed, IntSize::_16);
    assert_eq!(visit_fn(i16_ty, IntSize::_16, IntStyle::Signed, IntSize::_8).unwrap().body(), VisitBody::Direct);
    assert_eq!(visit_fn(i16_ty, IntSize::_16, IntStyle::Signed, IntSize::_16).unwrap().body(), VisitBody::Direct);
    assert_eq!(
        visit_fn(i16_ty, IntSize::_16, IntStyle::Signed, IntSize::_32).unwrap().body(),
        VisitBody::Bounded {
            min: Value::of(-32768i16),
            max: Value::of(32767i16),
            checks_min: true
        }
    );
    assert_eq!(
        visit_fn(i16_ty, IntSize::_16, IntStyle::Unsigned, IntSize::_8).unwrap().body(),
        VisitBody::Bounded { min: Value::of(-32768i16), max: Value::of(255u8), checks_min: false }
    );
    assert_eq!(
        visit_fn(i16_ty, IntSize::_16, IntStyle::Unsigned, IntSize::_64).unwrap().body(),
        VisitBody::Bounded {
            min: Value::of(-32768i16),
            max: Value::of(32767i16),
            checks_min: false
        }
    );
    let u8_ty = ty(IntStyle::Unsigned, IntSize::_8);
    assert_eq!(visit_fn(u8_ty, IntSize::_8, IntStyle::Unsigned, IntSize::_8).unwrap().body(), VisitBody::Direct);
    assert_eq!(
        visit_fn(u8_ty, IntSize::_8, IntStyle::Unsigned, IntSize::_128).unwrap().body(),
        VisitBody::Bounded { min: Value::of(0u8), max: Value::of(255u8), checks_min: true }
    );
    assert_eq!(visit_fn(u8_ty, IntSize::_8, IntStyle::Unsigned, IntSize::Size), None);
    assert_eq!(visit_fn(u8_ty, IntSize::Size, IntStyle::Unsigned, IntSize::_8), None);
    let isize_ty = ty(IntStyle::Signed, IntSize::Size);
    assert_eq!(visit_fn(isize_ty, IntSize::Size, IntStyle::Signed, IntSize::_8), None);
    let guarded = visit_fn(isize_ty, IntSize::_32, IntStyle::Signed, IntSize::_64).unwrap();
    assert_eq!(guarded.slot().guard, Some(IntSize::_32));
    assert_eq!(guarded.slot().int_ty, isize_ty);
    assert_eq!(guarded.actual(), ty(IntStyle::Signed, IntSize::_32));
    assert_eq!(
        guarded.body(),
        VisitBody::Bounded { min: Value::of(i32::MIN), max: Value::of(i32::MAX), checks_min: true }
    );
}

#[test]
fn a_function_is_written_for_every_pair_of_fixed_widths() {
    let sizes = [IntSize::_8, IntSize::_16, IntSize::_32, IntSize::_64, IntSize::_128];
    let styles = [IntStyle::Signed, IntStyle::Unsigned];
    for int_style in styles {
        for int_size in sizes.into_iter().chain([IntSize::Size]) {
            for actual_size in sizes {
                for visit_style in styles {
                    for visit_size in sizes {
                        let f = visit_fn(ty(int_style, int_size), actual_size, visit_style, visit_size)
                            .unwrap();
                        assert_eq!(f.visit_ty(), ty(visit_style, visit_size));
                        assert_eq!(f.actual(), ty(int_style, actual_size));
                        let direct = int_style == visit_style && visit_size.le(actual_size);
                        assert_eq!(f.body() == VisitBody::Direct, direct);
                        let text = f.text("::int_enum", "T");
                        let name = ty(visit_style, visit_size).name();
                        assert_eq!(text.matches(&format!("fn visit_{name}<E>(self, v: {name})")).count(), 1);
                        let forward = format!(
                            "self.visit_{0}(v as {0})",
                            ty(int_style, actual_size).name()
                        );
                        assert_eq!(text.contains(&forward), !direct);
                    }
                }
            }
        }
    }
}

#[test]
fn bounds_are_cast_to_the_type_of_the_function() {
    let u8_ty = ty(IntStyle::Unsigned, IntSize::_8);
    let bounded = |min: i16, max: i16| VisitBody::Bounded {
        min: Value::of(min),
        max: Value::of(max),
        checks_min: true,
    };
    let f = visit_fn(u8_ty, IntSize::_8, IntStyle::Signed, IntSize::_16).unwrap();
    assert_eq!(f.body(), bounded(u8::MIN as i16, u8::MAX as i16));
    assert!(f.lets_through(Value::of(255i16)));
    assert!(!f.lets_through(Value::of(256i16)));
    assert!(!f.lets_through(Value::of(-1i16)));
    let f = visit_fn(u8_ty, IntSize::_8, IntStyle::Signed, IntSize::_8).unwrap();
    assert_eq!(f.body(), bounded((u8::MIN as i8).into(), (u8::MAX as i8).into()));
    assert_eq!(f.body(), bounded(0, -1));
    assert!(!f.lets_through(Value::of(0i8)));
    assert!(f.text("::int_enum", "u8").contains(
        "                const MIN: i8 = u8::MIN as i8;\n                const MAX: i8 = u8::MAX as i8;\n\n                if MIN <= v && v <= MAX {\n                    self.visit_u8(v as u8)\n"
    ));
    let u64_ty = ty(IntStyle::Unsigned, IntSize::_64);
    let f = visit_fn(u64_ty, IntSize::_64, IntStyle::Signed, IntSize::_32).unwrap();
    assert_eq!(f.body(), bounded((u64::MIN as i32) as i16, (u64::MAX as i32) as i16));
    let i64_ty = ty(IntStyle::Signed, IntSize::_64);
    let f = visit_fn(i64_ty, IntSize::_8, IntStyle::Signed, IntSize::_16).unwrap();
    assert_eq!(f.body(), bounded((i64::MIN as i16).into(), (i64::MAX as i16).into()));
    assert_eq!(f.body(), bounded(0, -1));
    let f = visit_fn(i64_ty, IntSize::_8, IntStyle::Unsigned, IntSize::_8).unwrap();
    assert_eq!(
        f.body(),
        VisitBody::Bounded {
            min: Value::of(i64::MIN),
            max: Value::of(i64::MAX as u8),
            checks_min: false
        }
    );
    let f = visit_fn(i64_ty, IntSize::_8, IntStyle::Signed, IntSize::_128).unwrap();
    assert_eq!(
        f.body(),
        VisitBody::Bounded {
            min: Value::of(i64::MIN as i128),
            max: Value::of(i64::MAX as i128),
            checks_min: true
        }
    );
}

#[test]
fn a_function_lets_through_what_is_in_range() {
    let f = visit_fn(ty(IntStyle::Signed, IntSize::_8), IntSize::_8, IntStyle::Unsigned, IntSize::_16)
        .unwrap();
    assert!(f.lets_through(Value::of(0u16)));
    assert!(f.lets_through(Value::of(127u16)));
    assert!(!f.lets_through(Value::of(128u16)));
    let e = bounds("i8", "-128", "127");
    assert_eq!(e.visit(&f, Value::of(127u16)), Ok(1));
    assert_eq!(e.visit(&f, Value::of(128u16)), out_of_range(128, -128, 127));
}
