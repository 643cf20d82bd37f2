use int_enum::expr::{evaluate_byte, evaluate_literal, suffix_literal, BinOp, Expr, Int};
use int_enum::repr::IntType;
use int_enum::value::Value;

fn ty(name: &str) -> IntType {
    IntType::parse(name).unwrap()
}

fn eval(e: &Expr, int: &str) -> Option<i128> {
    e.evaluate(ty(int)).map(|v| v.to_i128().unwrap())
}

#[test]
fn literals_are_read_in_every_base() {
    assert_eq!(eval(&Expr::lit("65"), "u8"), Some(65));
    assert_eq!(eval(&Expr::lit("0x41"), "u8"), Some(65));
    assert_eq!(eval(&Expr::lit("0o101"), "u8"), Some(65));
    assert_eq!(eval(&Expr::lit("0b100_0001"), "u8"), Some(65));
    assert_eq!(eval(&Expr::lit("1_000"), "u16"), Some(1000));
    assert_eq!(eval(&Expr::lit("0xFFFF"), "u16"), Some(65535));
    assert_eq!(eval(&Expr::lit("0xffff"), "i32"), Some(65535));
    assert_eq!(eval(&Expr::neg_lit("0x80"), "i8"), Some(-128));
    assert_eq!(eval(&Expr::lit("-5"), "i8"), Some(-5));
    assert_eq!(eval(&Expr::neg_lit("-5"), "i8"), Some(5));
}

#[test]
fn literals_have_to_be_integers_of_the_representation() {
    assert_eq!(eval(&Expr::lit("255"), "u8"), Some(255));
    assert_eq!(eval(&Expr::lit("256"), "u8"), None);
    assert_eq!(eval(&Expr::lit("0x100"), "u8"), None);
    assert_eq!(eval(&Expr::neg_lit("1"), "u8"), None);
    assert_eq!(eval(&Expr::neg_lit("0"), "u8"), Some(0));
    assert_eq!(eval(&Expr::lit("128"), "i8"), None);
    assert_eq!(eval(&Expr::neg_lit("128"), "i8"), Some(-128));
    assert_eq!(eval(&Expr::neg_lit("129"), "i8"), None);
    assert_eq!(
        Expr::lit("340282366920938463463374607431768211455").evaluate(ty("u128")),
        Some(Value::of(u128::MAX))
    );
    assert_eq!(Expr::lit("340282366920938463463374607431768211456").evaluate(ty("u128")), None);
    assert_eq!(
        Expr::lit("99999999999999999999999999999999999999999999").evaluate(ty("u128")),
        None
    );
}

#[test]
fn a_suffix_has_to_name_the_representation() {
    assert_eq!(eval(&Expr::lit("1u8"), "u8"), Some(1));
    assert_eq!(eval(&Expr::lit("1_u8"), "u8"), Some(1));
    assert_eq!(eval(&Expr::lit("1u16"), "u8"), None);
    assert_eq!(eval(&Expr::lit("1i8"), "u8"), None);
    assert_eq!(eval(&Expr::lit("1usize"), "usize"), Some(1));
    assert_eq!(eval(&Expr::lit("1isize"), "usize"), None);
    assert_eq!(eval(&Expr::neg_lit("1i64"), "i64"), Some(-1));
    assert_eq!(eval(&Expr::lit("1foo"), "u8"), None);
}

#[test]
fn what_is_no_integer_literal_has_no_value() {
    for text in ["", "x", "1.0", "1e3", "'a'", "\"1\"", "1 2", "1 +", "true", "0x", "1.", "b'A'"] {
        assert_eq!(eval(&Expr::lit(text), "i64"), None, "{text:?}");
    }
}

#[test]
fn byte_literals_are_bytes() {
    assert_eq!(eval(&Expr::byte("b'A'"), "u8"), Some(65));
    assert_eq!(eval(&Expr::byte("b'B'"), "u8"), Some(66));
    assert_eq!(eval(&Expr::byte("b'\\n'"), "u8"), Some(10));
    assert_eq!(eval(&Expr::byte("b'\\xff'"), "u8"), Some(255));
    assert_eq!(eval(&Expr::byte("b'A'"), "u16"), None);
    assert_eq!(eval(&Expr::byte("b'A'"), "i8"), None);
    assert_eq!(eval(&Expr::byte("'A'"), "u8"), None);
    assert_eq!(eval(&Expr::byte("65"), "u8"), None);
    assert_eq!(Expr::byte("b'A'").text(), "b'A'");
    assert_eq!(Expr::byte("b'A'").duplicate(), Expr::byte("b'A'"));
    assert_eq!(evaluate_byte(Some(7), ty("u8")), Some(Value::of(7u8)));
    assert_eq!(evaluate_byte(Some(7), ty("u16")), None);
    assert_eq!(evaluate_byte(None, ty("u8")), None);
}

#[test]
fn shifts_to_the_left_cut_off_what_they_push_out() {
    assert_eq!(eval(&Expr::shl(Expr::lit("1"), 0), "u8"), Some(1));
    assert_eq!(eval(&Expr::shl(Expr::lit("1"), 7), "u8"), Some(128));
    assert_eq!(eval(&Expr::shl(Expr::lit("1"), 8), "u8"), None);
    assert_eq!(eval(&Expr::shl(Expr::lit("3"), 6), "u8"), Some(192));
    assert_eq!(eval(&Expr::shl(Expr::lit("3"), 7), "u8"), Some(128));
    assert_eq!(eval(&Expr::shl(Expr::lit("255"), 1), "u8"), Some(254));
    assert_eq!(eval(&Expr::shl(Expr::lit("1"), 6), "i8"), Some(64));
    assert_eq!(eval(&Expr::shl(Expr::lit("1"), 7), "i8"), Some(-128));
    assert_eq!(eval(&Expr::shl(Expr::neg_lit("1"), 7), "i8"), Some(-128));
    assert_eq!(eval(&Expr::shl(Expr::lit("0"), 7), "i8"), Some(0));
    assert_eq!(eval(&Expr::shl(Expr::lit("0"), 8), "i8"), None);
    assert_eq!(eval(&Expr::shl(Expr::lit("1"), 31), "i32"), Some(i32::MIN.into()));
    assert_eq!(eval(&Expr::shl(Expr::lit("1"), 32), "i32"), None);
    assert_eq!(eval(&Expr::shl(Expr::lit("1"), 63), "i64"), Some(i64::MIN.into()));
    assert_eq!(eval(&Expr::shl(Expr::lit("1"), 126), "i128"), Some(1 << 126));
    assert_eq!(eval(&Expr::shl(Expr::lit("1"), 127), "i128"), Some(i128::MIN));
    assert_eq!(
        Expr::shl(Expr::lit("1"), 127).evaluate(ty("u128")),
        Some(Value::of(1u128 << 127))
    );
    assert_eq!(
        Expr::shl(Expr::lit("3"), 127).evaluate(ty("u128")),
        Some(Value::of(3u128 << 127))
    );
    assert_eq!(Expr::shl(Expr::lit("1"), 128).evaluate(ty("u128")), None);
    assert_eq!(eval(&Expr::shl(Expr::shl(Expr::lit("1"), 2), 3), "u8"), Some(32));
    assert_eq!(eval(&Expr::shl(Expr::lit("256"), 0), "u8"), None);
    assert_eq!(
        Expr::shl(Expr::lit("1"), usize::BITS - 1).evaluate(ty("isize")),
        Some(Value::of(isize::MIN))
    );
    assert_eq!(
        Expr::shl(Expr::lit("3"), usize::BITS - 1).evaluate(ty("usize")),
        Some(Value::of(3usize << (usize::BITS - 1)))
    );
    assert_eq!(Expr::shl(Expr::lit("1"), usize::BITS).evaluate(ty("usize")), None);
    for a in i8::MIN..=i8::MAX {
        for k in 0..8 {
            assert_eq!(eval(&Expr::shl(number(a.into()), k), "i8"), Some(i128::from(a << k)));
            assert_eq!(
                ty("i8").wrapping_shl(Value::of(a), k),
                Value::of(a << k)
            );
        }
        assert_eq!(ty("i8").wrapping_double(Value::of(a)), Value::of(a.wrapping_mul(2)));
        assert_eq!(
            ty("i128").wrapping_double(Value::of(i128::from(a) << 120)),
            Value::of((i128::from(a) << 120).wrapping_mul(2))
        );
    }
    for a in u8::MIN..=u8::MAX {
        for k in 0..8 {
            assert_eq!(eval(&Expr::shl(number(a.into()), k), "u8"), Some(i128::from(a << k)));
        }
        assert_eq!(ty("u8").wrapping_double(Value::of(a)), Value::of(a.wrapping_mul(2)));
        assert_eq!(
            ty("u128").wrapping_double(Value::of(u128::from(a) << 120)),
            Value::of((u128::from(a) << 120).wrapping_mul(2))
        );
    }
}

#[test]
fn negation_and_grouping() {
    assert_eq!(eval(&Expr::neg(Expr::lit("5")), "i8"), Some(-5));
    assert_eq!(eval(&Expr::neg(Expr::neg(Expr::lit("5"))), "i8"), Some(5));
    assert_eq!(eval(&Expr::neg(Expr::lit("128")), "i8"), None);
    assert_eq!(eval(&Expr::neg(Expr::neg_lit("128")), "i8"), None);
    assert_eq!(eval(&Expr::neg(Expr::lit("5")), "u8"), None);
    assert_eq!(eval(&Expr::neg(Expr::lit("0")), "u8"), Some(0));
    assert_eq!(eval(&Expr::paren(Expr::lit("5")), "u8"), Some(5));
    assert_eq!(eval(&Expr::neg(Expr::paren(Expr::shl(Expr::lit("1"), 3))), "i8"), Some(-8));
    assert_eq!(eval(&Expr::shl(Expr::paren(Expr::neg_lit("2")), 3), "i8"), Some(-16));
    assert_eq!(eval(&Expr::paren(Expr::lit("256")), "u8"), None);
}

#[test]
fn other_expressions_are_kept_and_not_evaluated() {
    let e = Expr::other("BASE + 1");
    assert_eq!(eval(&e, "u8"), None);
    assert_eq!(e.text(), "BASE + 1");
    assert_eq!(eval(&Expr::neg(Expr::other("X")), "i8"), None);
    assert_eq!(eval(&Expr::shl(Expr::other("X"), 1), "i8"), None);
}

#[test]
fn expressions_are_written_as_they_stand() {
    assert_eq!(Expr::lit("0x41").text(), "0x41");
    assert_eq!(Expr::neg_lit("1_000i16").text(), "-1_000i16");
    assert_eq!(Expr::neg(Expr::lit("5")).text(), "-5");
    assert_eq!(Expr::paren(Expr::lit("5")).text(), "(5)");
    assert_eq!(Expr::shl(Expr::lit("1"), 3).text(), "1 << 3");
    assert_eq!(Expr::shl(Expr::lit("1"), 0).text(), "1 << 0");
    assert_eq!(Expr::shl(Expr::lit("1"), 127).text(), "1 << 127");
    assert_eq!(
        Expr::neg(Expr::paren(Expr::shl(Expr::paren(Expr::neg_lit("0b10")), 12))).text(),
        "-((-0b10) << 12)"
    );
}

#[test]
fn expressions_are_copied() {
    let e = Expr::neg(Expr::paren(Expr::shl(Expr::lit("1"), 3)));
    assert_eq!(e.duplicate(), e);
    assert_eq!(Expr::other("A | B").duplicate(), Expr::other("A | B"));
    let lit = Int::new(true, "7");
    assert_eq!(lit.duplicate(), lit);
    assert_eq!(Expr::Int(lit.duplicate()), Expr::neg_lit("7"));
}

#[test]
fn literals_are_given_the_representation_as_suffix() {
    assert_eq!(Int::new(false, "0x41").suffixed(ty("u8")), Some(Int::new(false, "65u8")));
    assert_eq!(Int::new(true, "1_000u16").suffixed(ty("i32")), Some(Int::new(true, "1000i32")));
    assert_eq!(Int::new(false, "0b11").suffixed(ty("usize")), Some(Int::new(false, "3usize")));
    assert_eq!(Int::new(false, "x").suffixed(ty("u8")), None);
    assert_eq!(suffix_literal("12", ty("i128")), "12i128");
    assert_eq!(Int::new(false, "0x41").evaluate(ty("u8")), Some(Value::of(65u8)));
    assert_eq!(Int::new(true, "7").text(), "-7");
}

#[test]
fn digits_and_suffix_give_the_value() {
    assert_eq!(evaluate_literal("65", "", false, ty("u8")), Some(Value::of(65u8)));
    assert_eq!(evaluate_literal("65", "u8", false, ty("u8")), Some(Value::of(65u8)));
    assert_eq!(evaluate_literal("65", "u16", false, ty("u8")), None);
    assert_eq!(evaluate_literal("65", "", true, ty("u8")), None);
    assert_eq!(evaluate_literal("65", "", true, ty("i8")), Some(Value::of(-65i8)));
    assert_eq!(evaluate_literal("-65", "", false, ty("i8")), Some(Value::of(-65i8)));
    assert_eq!(evaluate_literal("-65", "", true, ty("i8")), Some(Value::of(65i8)));
    assert_eq!(evaluate_literal("0x41", "", false, ty("u8")), None);
    assert_eq!(evaluate_literal("", "", false, ty("u8")), None);
    assert_eq!(evaluate_literal("256", "", false, ty("u8")), None);
    assert_eq!(
        evaluate_literal("340282366920938463463374607431768211456", "", false, ty("u128")),
        None
    );
    assert_eq!(
        evaluate_literal("340282366920938463463374607431768211456", "", true, ty("i128")),
        None
    );
}

fn number(n: i128) -> Expr {
    if n < 0 {
        Expr::neg_lit(&n.unsigned_abs().to_string())
    } else {
        Expr::lit(&n.to_string())
    }
}

fn binary(op: BinOp, a: i128, b: i128) -> Expr {
    Expr::binary(op, number(a), number(b))
}

#[test]
fn operators_compute_as_the_primitive_types_do() {
    for a in i8::MIN..=i8::MAX {
        for b in i8::MIN..=i8::MAX {
            let (x, y) = (i128::from(a), i128::from(b));
            assert_eq!(eval(&binary(BinOp::Add, x, y), "i8"), a.checked_add(b).map(i128::from));
            assert_eq!(eval(&binary(BinOp::Sub, x, y), "i8"), a.checked_sub(b).map(i128::from));
            assert_eq!(eval(&binary(BinOp::Mul, x, y), "i8"), a.checked_mul(b).map(i128::from));
            assert_eq!(eval(&binary(BinOp::Div, x, y), "i8"), a.checked_div(b).map(i128::from));
            assert_eq!(eval(&binary(BinOp::Rem, x, y), "i8"), a.checked_rem(b).map(i128::from));
            assert_eq!(eval(&binary(BinOp::BitAnd, x, y), "i8"), Some(i128::from(a & b)));
            assert_eq!(eval(&binary(BinOp::BitOr, x, y), "i8"), Some(i128::from(a | b)));
            assert_eq!(eval(&binary(BinOp::BitXor, x, y), "i8"), Some(i128::from(a ^ b)));
        }
    }
    for a in (u8::MIN..=u8::MAX).step_by(3) {
        for b in (u8::MIN..=u8::MAX).step_by(5) {
            let (x, y) = (i128::from(a), i128::from(b));
            assert_eq!(eval(&binary(BinOp::Add, x, y), "u8"), a.checked_add(b).map(i128::from));
            assert_eq!(eval(&binary(BinOp::Sub, x, y), "u8"), a.checked_sub(b).map(i128::from));
            assert_eq!(eval(&binary(BinOp::Mul, x, y), "u8"), a.checked_mul(b).map(i128::from));
            assert_eq!(eval(&binary(BinOp::Div, x, y), "u8"), a.checked_div(b).map(i128::from));
            assert_eq!(eval(&binary(BinOp::Rem, x, y), "u8"), a.checked_rem(b).map(i128::from));
            assert_eq!(eval(&binary(BinOp::BitAnd, x, y), "u8"), Some(i128::from(a & b)));
            assert_eq!(eval(&binary(BinOp::BitOr, x, y), "u8"), Some(i128::from(a | b)));
            assert_eq!(eval(&binary(BinOp::BitXor, x, y), "u8"), Some(i128::from(a ^ b)));
        }
    }
}

#[test]
fn complements_and_right_shifts_compute_as_the_primitive_types_do() {
    for a in i8::MIN..=i8::MAX {
        assert_eq!(eval(&Expr::not(number(a.into())), "i8"), Some(i128::from(!a)));
        assert_eq!(eval(&Expr::not(number(a.into())), "i64"), Some(i128::from(!i64::from(a))));
        for k in 0..8 {
            assert_eq!(eval(&Expr::shr(number(a.into()), k), "i8"), Some(i128::from(a >> k)));
        }
        assert_eq!(eval(&Expr::shr(number(a.into()), 8), "i8"), None);
        assert_eq!(eval(&Expr::shr(number(a.into()), 8), "i16"), Some(i128::from(i16::from(a) >> 8)));
    }
    for a in u8::MIN..=u8::MAX {
        assert_eq!(eval(&Expr::not(number(a.into())), "u8"), Some(i128::from(!a)));
        assert_eq!(eval(&Expr::not(number(a.into())), "u16"), Some(i128::from(!u16::from(a))));
        for k in 0..8 {
            assert_eq!(eval(&Expr::shr(number(a.into()), k), "u8"), Some(i128::from(a >> k)));
        }
    }
    assert_eq!(Expr::not(Expr::lit("0")).evaluate(ty("u128")), Some(Value::of(u128::MAX)));
    assert_eq!(Expr::not(Expr::lit("0")).evaluate(ty("i128")), Some(Value::of(-1i128)));
    assert_eq!(
        Expr::shr(Expr::neg_lit("170141183460469231731687303715884105728"), 127)
            .evaluate(ty("i128")),
        Some(Value::of(-1i128))
    );
}

#[test]
fn operators_work_at_the_widest_types() {
    let max = "340282366920938463463374607431768211455";
    assert_eq!(
        Expr::binary(BinOp::Sub, Expr::lit(max), Expr::lit("1")).evaluate(ty("u128")),
        Some(Value::of(u128::MAX - 1))
    );
    assert_eq!(Expr::binary(BinOp::Add, Expr::lit(max), Expr::lit("1")).evaluate(ty("u128")), None);
    assert_eq!(Expr::binary(BinOp::Mul, Expr::lit(max), Expr::lit("2")).evaluate(ty("u128")), None);
    assert_eq!(
        Expr::binary(BinOp::Mul, Expr::lit("18446744073709551616"), Expr::lit("18446744073709551615"))
            .evaluate(ty("u128")),
        Some(Value::of(18446744073709551616u128 * 18446744073709551615u128))
    );
    let min = "170141183460469231731687303715884105728";
    assert_eq!(
        Expr::binary(BinOp::Div, Expr::neg_lit(min), Expr::neg_lit("1")).evaluate(ty("i128")),
        None
    );
    assert_eq!(
        Expr::binary(BinOp::Rem, Expr::neg_lit(min), Expr::neg_lit("1")).evaluate(ty("i128")),
        None
    );
    assert_eq!(
        Expr::binary(BinOp::Div, Expr::neg_lit(min), Expr::lit("2")).evaluate(ty("i128")),
        Some(Value::of(i128::MIN / 2))
    );
    assert_eq!(
        Expr::binary(BinOp::Sub, Expr::neg_lit(min), Expr::lit("1")).evaluate(ty("i128")),
        None
    );
    assert_eq!(
        Expr::binary(BinOp::BitXor, Expr::neg_lit(min), Expr::neg_lit("1")).evaluate(ty("i128")),
        Some(Value::of(i128::MAX))
    );
}

#[test]
fn operands_are_kept_apart_by_parentheses() {
    let sum = || Expr::binary(BinOp::Add, Expr::lit("1"), Expr::lit("2"));
    assert_eq!(sum().text(), "1 + 2");
    assert_eq!(sum().operand(), "(1 + 2)");
    assert_eq!(Expr::binary(BinOp::Mul, sum(), Expr::lit("3")).text(), "(1 + 2) * 3");
    assert_eq!(Expr::binary(BinOp::Mul, Expr::lit("3"), sum()).text(), "3 * (1 + 2)");
    assert_eq!(Expr::binary(BinOp::Sub, Expr::paren(sum()), Expr::neg_lit("3")).text(), "(1 + 2) - -3");
    assert_eq!(Expr::neg(sum()).text(), "-(1 + 2)");
    assert_eq!(Expr::not(sum()).text(), "!(1 + 2)");
    assert_eq!(Expr::not(Expr::neg(Expr::lit("1"))).text(), "!-1");
    assert_eq!(Expr::neg(Expr::shl(Expr::lit("1"), 3)).text(), "-(1 << 3)");
    assert_eq!(Expr::shl(sum(), 3).text(), "(1 + 2) << 3");
    assert_eq!(Expr::shr(Expr::shl(Expr::lit("1"), 3), 2).text(), "(1 << 3) >> 2");
    assert_eq!(Expr::binary(BinOp::BitOr, Expr::other("A"), Expr::byte("b'x'")).text(), "(A) | b'x'");
    assert_eq!(Expr::binary(BinOp::Div, Expr::lit("6"), Expr::lit("3")).text(), "6 / 3");
    assert_eq!(Expr::binary(BinOp::Rem, Expr::lit("6"), Expr::lit("3")).text(), "6 % 3");
    assert_eq!(Expr::binary(BinOp::BitAnd, Expr::lit("6"), Expr::lit("3")).text(), "6 & 3");
    assert_eq!(Expr::binary(BinOp::BitXor, Expr::lit("6"), Expr::lit("3")).text(), "6 ^ 3");
    assert_eq!(Expr::lit("1").operand(), "1");
    assert_eq!(Expr::neg_lit("1").operand(), "-1");
    assert_eq!(Expr::paren(sum()).operand(), "(1 + 2)");
    assert!(sum().needs_parens());
    assert!(Expr::other("A").needs_parens());
    assert!(!Expr::neg(sum()).needs_parens());

    for e in [
        Expr::binary(BinOp::Mul, sum(), Expr::neg(sum())),
        Expr::neg(Expr::shl(Expr::not(sum()), 2)),
        Expr::shr(Expr::binary(BinOp::Sub, Expr::lit("100"), Expr::shl(Expr::lit("1"), 3)), 1),
    ] {
        let parsed: syn::Expr = syn::parse_str(&e.text()).unwrap();
        assert_eq!(e.duplicate(), e);
        assert!(matches!(parsed, syn::Expr::Binary(_) | syn::Expr::Unary(_)));
    }
    assert_eq!(eval(&Expr::binary(BinOp::Mul, sum(), Expr::neg(sum())), "i8"), Some(-9));
    assert_eq!(eval(&Expr::neg(Expr::shl(Expr::not(sum()), 2)), "i8"), Some(16));
    assert_eq!(eval(&Expr::neg(Expr::paren(Expr::shl(Expr::lit("1"), 7))), "i8"), None);
}
