use int_enum::decimal::{parse_nat, render_nat};
use int_enum::prim::PrimInt;
use int_enum::repr::{IntSize, IntStyle, IntType};
use int_enum::value::Value;

fn lowest() -> Value {
    Value::of(i128::MIN).checked_add(Value::of(i128::MIN)).unwrap()
}

#[test]
fn values_are_written_in_base_ten() {
    assert_eq!(Value::of(0u8).to_string(), "0");
    assert_eq!(Value::of(7u8).to_string(), "7");
    assert_eq!(Value::of(10u8).to_string(), "10");
    assert_eq!(Value::of(-1i8).to_string(), "-1");
    assert_eq!(Value::of(-9i8).to_string(), "-9");
    assert_eq!(Value::of(-10i8).to_string(), "-10");
    assert_eq!(Value::of(-100i8).to_string(), "-100");
    assert_eq!(Value::of(-128i8).to_string(), "-128");
    assert_eq!(Value::of(u128::MAX).to_string(), "340282366920938463463374607431768211455");
    assert_eq!(Value::of(i128::MIN).to_string(), "-170141183460469231731687303715884105728");
    assert_eq!(Value::of(i128::MAX).to_string(), "170141183460469231731687303715884105727");
    assert_eq!(lowest().to_string(), "-340282366920938463463374607431768211456");
    for n in -1000i32..=1000 {
        assert_eq!(Value::of(n).to_string(), n.to_string());
    }
    assert_eq!(render_nat(1234567890), "1234567890");
}

#[test]
fn values_are_read_in_base_ten() {
    assert_eq!(Value::parse("0"), Some(Value::of(0u8)));
    assert_eq!(Value::parse("-0"), Some(Value::of(0u8)));
    assert_eq!(Value::parse("007"), Some(Value::of(7u8)));
    assert_eq!(Value::parse("-128"), Some(Value::of(-128i8)));
    assert_eq!(
        Value::parse("340282366920938463463374607431768211455"),
        Some(Value::of(u128::MAX))
    );
    assert_eq!(
        Value::parse("-340282366920938463463374607431768211455"),
        Value::of(u128::MAX).checked_neg()
    );
    for text in [
        "",
        "-",
        "+1",
        "1 ",
        " 1",
        "1_000",
        "0x10",
        "--1",
        "1-",
        "١",
        "340282366920938463463374607431768211456",
        "-340282366920938463463374607431768211456",
        "9999999999999999999999999999999999999999",
    ] {
        assert_eq!(Value::parse(text), None, "{text:?}");
    }
    assert_eq!(parse_nat("18446744073709551616"), Some(18446744073709551616));
    assert_eq!(parse_nat("-1"), None);
    assert_eq!(parse_nat(""), None);
    for n in -1000i32..=1000 {
        assert_eq!(Value::parse(&n.to_string()), Some(Value::of(n)));
        assert_eq!(Value::parse(&Value::of(n).to_string()), Some(Value::of(n)));
    }
}

#[test]
fn values_convert_to_and_from_primitives() {
    assert_eq!(Value::from_u128(5).to_u128(), Some(5));
    assert_eq!(Value::from_u128(5).to_i128(), Some(5));
    assert_eq!(Value::from_i128(-5).to_i128(), Some(-5));
    assert_eq!(Value::from_i128(-5).to_u128(), None);
    assert_eq!(Value::from_i128(i128::MIN).to_i128(), Some(i128::MIN));
    assert_eq!(Value::from_i128(i128::MAX).to_u128(), Some(170141183460469231731687303715884105727));
    assert_eq!(Value::from_u128(u128::MAX).to_i128(), None);
    assert_eq!(Value::from_u128(170141183460469231731687303715884105728).to_i128(), None);
    assert_eq!(lowest().to_i128(), None);
    assert_eq!(Value::from_i128(7), Value::from_u128(7));
    assert_ne!(Value::from_i128(-7), Value::from_u128(7));
    assert!(Value::from_i128(-1).is_negative());
    assert!(!Value::from_i128(0).is_negative());
    assert_eq!(Value::from_i128(-7).magnitude(), Some(7));
    assert_eq!(Value::from_i128(7).magnitude(), Some(7));
    assert_eq!(Value::from_i128(i128::MIN).magnitude(), Some(170141183460469231731687303715884105728));
    assert_eq!(lowest().magnitude(), None);
}

#[test]
fn every_primitive_is_a_value() {
    assert_eq!(Value::of(-1i8), Value::from_i128(-1));
    assert_eq!(Value::of(-1i16), Value::from_i128(-1));
    assert_eq!(Value::of(-1i32), Value::from_i128(-1));
    assert_eq!(Value::of(-1i64), Value::from_i128(-1));
    assert_eq!(Value::of(-1i128), Value::from_i128(-1));
    assert_eq!(Value::of(-1isize), Value::from_i128(-1));
    assert_eq!(Value::of(200u8), Value::from_i128(200));
    assert_eq!(Value::of(200u16), Value::from_i128(200));
    assert_eq!(Value::of(200u32), Value::from_i128(200));
    assert_eq!(Value::of(200u64), Value::from_i128(200));
    assert_eq!(Value::of(200u128), Value::from_i128(200));
    assert_eq!(Value::of(200usize), Value::from_i128(200));
    assert_eq!(200u8.to_value(), Value::from_u128(200));

    assert_eq!(<i8 as PrimInt>::int_type().name(), "i8");
    assert_eq!(<i16 as PrimInt>::int_type().name(), "i16");
    assert_eq!(<i32 as PrimInt>::int_type().name(), "i32");
    assert_eq!(<i64 as PrimInt>::int_type().name(), "i64");
    assert_eq!(<i128 as PrimInt>::int_type().name(), "i128");
    assert_eq!(<isize as PrimInt>::int_type().name(), "isize");
    assert_eq!(<u8 as PrimInt>::int_type().name(), "u8");
    assert_eq!(<u16 as PrimInt>::int_type().name(), "u16");
    assert_eq!(<u32 as PrimInt>::int_type().name(), "u32");
    assert_eq!(<u64 as PrimInt>::int_type().name(), "u64");
    assert_eq!(<u128 as PrimInt>::int_type().name(), "u128");
    assert_eq!(<usize as PrimInt>::int_type().name(), "usize");
    assert_eq!(u64::int_type(), IntType { style: IntStyle::Unsigned, size: IntSize::_64 });
}

#[test]
fn values_are_ordered_as_integers() {
    let ordered = [
        lowest(),
        Value::of(i128::MIN),
        Value::of(-2i8),
        Value::of(-1i8),
        Value::of(0i8),
        Value::of(1i8),
        Value::of(i128::MAX),
        Value::of(u128::MAX),
    ];
    for (i, a) in ordered.iter().enumerate() {
        for (j, b) in ordered.iter().enumerate() {
            assert_eq!(a.le(*b), i <= j);
            assert_eq!(a == b, i == j);
        }
    }
    assert!(Value::of(3u8).within(Value::of(3u8), Value::of(3u8)));
    assert!(Value::of(3u8).within(Value::of(-3i8), Value::of(4u8)));
    assert!(!Value::of(3u8).within(Value::of(4u8), Value::of(5u8)));
    assert!(!Value::of(3u8).within(Value::of(1u8), Value::of(2u8)));
}

#[test]
fn values_are_negated() {
    assert_eq!(Value::of(5u8).checked_neg(), Some(Value::of(-5i8)));
    assert_eq!(Value::of(-5i8).checked_neg(), Some(Value::of(5u8)));
    assert_eq!(Value::of(0u8).checked_neg(), Some(Value::of(0u8)));
    assert_eq!(Value::of(i128::MIN).checked_neg(), Some(Value::of(170141183460469231731687303715884105728u128)));
    assert_eq!(
        Value::of(u128::MAX).checked_neg().map(|v| v.to_string()),
        Some("-340282366920938463463374607431768211455".to_string())
    );
    assert_eq!(lowest().checked_neg(), None);
}

#[test]
fn values_are_counted_up() {
    assert_eq!(Value::of(5u8).checked_succ(), Some(Value::of(6u8)));
    assert_eq!(Value::of(-5i8).checked_succ(), Some(Value::of(-4i8)));
    assert_eq!(Value::of(-1i8).checked_succ(), Some(Value::of(0u8)));
    assert_eq!(Value::of(i128::MAX).checked_succ(), Some(Value::of(170141183460469231731687303715884105728u128)));
    assert_eq!(lowest().checked_succ().map(|v| v.to_string()), Some("-340282366920938463463374607431768211455".to_string()));
    assert_eq!(Value::of(u128::MAX).checked_succ(), None);
}

#[test]
fn values_are_added_and_subtracted() {
    let near = [i128::MIN, i128::MIN + 1, -3, -2, -1, 0, 1, 2, 3, i128::MAX - 1, i128::MAX];
    for a in near {
        for b in near {
            assert_eq!(
                Value::of(a).checked_add(Value::of(b)).and_then(|v| v.to_i128()),
                a.checked_add(b)
            );
            assert_eq!(
                Value::of(a).checked_sub(Value::of(b)).and_then(|v| v.to_i128()),
                a.checked_sub(b)
            );
        }
    }
    let max = Value::of(u128::MAX);
    assert_eq!(max.checked_add(Value::of(1u8)), None);
    assert_eq!(max.checked_add(Value::of(-1i8)), Some(Value::of(u128::MAX - 1)));
    assert_eq!(max.checked_sub(max), Some(Value::of(0u8)));
    assert_eq!(max.checked_sub(Value::of(-1i8)), None);
    assert_eq!(lowest().checked_add(max), Some(Value::of(-1i8)));
    assert_eq!(lowest().checked_add(Value::of(-1i8)), None);
    assert_eq!(lowest().checked_sub(Value::of(1u8)), None);
    assert_eq!(lowest().checked_sub(lowest()), Some(Value::of(0u8)));
    assert_eq!(Value::of(-1i8).checked_sub(lowest()), Some(max));
    assert_eq!(Value::of(0i8).checked_sub(lowest()), None);
    assert_eq!(Value::of(0i8).checked_sub(max).map(|v| v.to_string()), Some("-340282366920938463463374607431768211455".to_string()));
}

#[test]
fn values_are_multiplied_and_divided() {
    let near = [i64::MIN, -7, -3, -2, -1, 0, 1, 2, 3, 7, i64::MAX];
    for a in near {
        for b in near {
            let (x, y) = (i128::from(a), i128::from(b));
            assert_eq!(Value::of(a).checked_mul(Value::of(b)), Some(Value::of(x * y)));
            assert_eq!(Value::of(a).checked_div(Value::of(b)), x.checked_div(y).map(Value::of));
            assert_eq!(Value::of(a).checked_rem(Value::of(b)), x.checked_rem(y).map(Value::of));
        }
    }
    assert_eq!(Value::of(u128::MAX).checked_mul(Value::of(1u8)), Some(Value::of(u128::MAX)));
    assert_eq!(Value::of(u128::MAX).checked_mul(Value::of(2u8)), None);
    assert_eq!(Value::of(i128::MIN).checked_mul(Value::of(-1i8)), Some(Value::of(1u128 << 127)));
    assert_eq!(Value::of(i128::MIN).checked_div(Value::of(-1i8)), Some(Value::of(1u128 << 127)));
    assert_eq!(Value::of(i128::MIN).checked_rem(Value::of(-1i8)), Some(Value::of(0u8)));
    assert_eq!(Value::of(u128::MAX).checked_div(Value::of(u128::MAX)), Some(Value::of(1u8)));
    assert_eq!(Value::of(u128::MAX).checked_div(Value::of(0u8)), None);
    assert_eq!(Value::of(u128::MAX).checked_rem(Value::of(0u8)), None);
    assert_eq!(lowest().checked_mul(Value::of(0u8)), Some(Value::of(0u8)));
    assert_eq!(Value::of(0u8).checked_mul(lowest()), Some(Value::of(0u8)));
}

#[test]
fn values_have_bits() {
    let near = [i128::MIN, -256, -255, -8, -3, -2, -1, 0, 1, 2, 3, 8, 255, 256, i128::MAX];
    for a in near {
        assert_eq!(Value::of(a).complement(), Value::of(!a));
        for k in [0, 1, 2, 7, 8, 64, 126, 127] {
            assert_eq!(Value::of(a).shr(k), Value::of(a >> k));
        }
        for b in near {
            assert_eq!(Value::of(a).bit_and(Value::of(b)), Value::of(a & b));
            assert_eq!(Value::of(a).bit_or(Value::of(b)), Value::of(a | b));
            assert_eq!(Value::of(a).bit_xor(Value::of(b)), Value::of(a ^ b));
        }
    }
    assert_eq!(Value::of(u128::MAX).shr(127), Value::of(1u8));
    assert_eq!(Value::of(u128::MAX).bit_and(Value::of(-1i8)), Value::of(u128::MAX));
    assert_eq!(Value::of(u128::MAX).bit_xor(Value::of(u128::MAX)), Value::of(0u8));
}
