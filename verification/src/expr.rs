//! Discriminant expressions and what they evaluate to.
//!
//! A discriminant is kept as it was written, so that it can be emitted
//! unchanged, and is evaluated beside that to learn which integer the
//! variant stands for. Evaluation follows the typing of constant
//! expressions: every literal and every intermediate result has to be an
//! integer of the representation, and an operation that leaves the
//! representation has no value. Only a shift to the left may push bits out
//! of the representation; they are cut off, as the primitive types do.
//!
//! What a literal spells is read out of its text once, by `syn`, when the
//! literal is made, and kept beside the text. The engine evaluates literals
//! and the operators of the primitive integer types. Anything else in an expression, a named constant or a call, is
//! carried along as text. Such an expression is left for the compiler of
//! the generated code to evaluate, and the engine neither knows its value
//! nor holds anything against it.

use vstd::prelude::*;
use vstd::arithmetic::power2::*;
use vstd::string::*;
use crate::decimal::{decimal_nat, render_nat, signed_value};
use crate::repr::{lemma_wrapped_in_range, IntSize, IntStyle, IntType};
use crate::text::str_eq;
use crate::value::{bit_and, bit_not, bit_or, bit_xor, trunc_div, trunc_rem, Value};

verus! {

/// Has `syn::parse_str` read `text` as a `syn::LitInt` and returns what
/// `LitInt::base10_digits` gives for it, or `None` where `syn` refuses the
/// text. Nothing is claimed of what comes back.
#[verifier::external_body]
fn digits_of(text: &str) -> (r: Option<String>) {
    match syn::parse_str::<syn::LitInt>(text) {
        Ok(lit) => Some(lit.base10_digits().to_owned()),
        Err(_) => None,
    }
}

/// Has `syn::parse_str` read `text` as a `syn::LitInt` and returns what
/// `LitInt::suffix` gives for it, or `None` where `syn` refuses the text.
/// Nothing is claimed of what comes back.
#[verifier::external_body]
fn suffix_of(text: &str) -> (r: Option<String>) {
    match syn::parse_str::<syn::LitInt>(text) {
        Ok(lit) => Some(lit.suffix().to_owned()),
        Err(_) => None,
    }
}

/// Has `syn::parse_str` read `text` as a `syn::LitByte` and returns what
/// `LitByte::value` gives for it, or `None` where `syn` refuses the text.
/// Nothing is claimed of what comes back.
#[verifier::external_body]
fn byte_of(text: &str) -> (r: Option<u8>) {
    match syn::parse_str::<syn::LitByte>(text) {
        Ok(lit) => Some(lit.value()),
        Err(_) => None,
    }
}

/// The integer that a byte literal stands for in the type `ty`, given the
/// byte that it holds: a byte literal is a `u8` and stands for nothing in
/// another type.
pub open spec fn byte_value(byte: Option<u8>, ty: IntType) -> Option<int> {
    match byte {
        Some(b) => if ty.style == IntStyle::Unsigned && ty.size == IntSize::_8 {
            Some(b as int)
        } else {
            None
        },
        None => None,
    }
}

/// Computes [`byte_value`].
pub fn evaluate_byte(byte: Option<u8>, ty: IntType) -> (r: Option<Value>)
    ensures
        r is Some <==> byte_value(byte, ty) is Some,
        r matches Some(v) ==> byte_value(byte, ty) == Some(v@),
{
    match byte {
        Some(b) => match (ty.style, ty.size) {
            (IntStyle::Unsigned, IntSize::_8) => Some(Value::from_u128(b as u128)),
            _ => None,
        },
        None => None,
    }
}

/// The integer that a literal stands for in the type `ty`, given its base-ten
/// digits and its suffix.
///
/// The suffix has to be empty or name `ty`; the digits have to spell an
/// integer; and that integer, negated where a minus sign stands before the
/// literal, has to be an integer of `ty`.
pub open spec fn literal_value(digits: Seq<char>, suffix: Seq<char>, neg: bool, ty: IntType)
    -> Option<int> {
    if suffix.len() != 0 && suffix != ty.spec_name() {
        None
    } else {
        match signed_value(digits) {
            Some(n) => {
                let v: int = if neg {
                    -n
                } else {
                    n
                };
                if ty.holds(v) {
                    Some(v)
                } else {
                    None
                }
            },
            None => None,
        }
    }
}

/// Computes [`literal_value`].
pub fn evaluate_literal(digits: &str, suffix: &str, neg: bool, ty: IntType) -> (r: Option<Value>)
    ensures
        r is Some <==> literal_value(digits@, suffix@, neg, ty) is Some,
        r matches Some(v) ==> literal_value(digits@, suffix@, neg, ty) == Some(v@),
{
    if suffix.unicode_len() != 0 {
        let name: String = ty.name();
        if !str_eq(suffix, name.as_str()) {
            return None;
        }
    }
    match Value::parse(digits) {
        Some(n) => {
            let v: Value = if neg {
                match n.checked_neg() {
                    Some(m) => m,
                    None => {
                        return None;
                    },
                }
            } else {
                n
            };
            if ty.contains(v) {
                Some(v)
            } else {
                None
            }
        },
        None => None,
    }
}

/// The literal made of `digits` and the name of `ty` as its suffix.
pub open spec fn suffixed_literal(digits: Seq<char>, ty: IntType) -> Seq<char> {
    digits + ty.spec_name()
}

/// Writes the literal made of `digits` and the name of `ty` as its suffix.
pub fn suffix_literal(digits: &str, ty: IntType) -> (s: String)
    ensures
        s@ == suffixed_literal(digits@, ty),
{
    let mut s: String = digits.to_owned();
    let name: String = ty.name();
    s.append(name.as_str());
    s
}

/// A copy of `text`.
fn copy_text(text: &Option<String>) -> (r: Option<String>)
    ensures
        r == *text,
{
    match text {
        Some(t) => Some(t.clone()),
        None => None,
    }
}

/// An integer literal, with or without a minus sign before it.
///
/// Beside the literal as it was written stands what was read out of it:
/// its digits in base ten and its suffix. The value of the literal goes by
/// these two and not by the text.
#[derive(Debug, PartialEq, Eq)]
pub struct Int {
    /// Whether a minus sign stands before the literal.
    pub neg: bool,
    /// The literal as it was written, such as `20`, `0x41` or `1_000u16`.
    pub lit: String,
    /// The digits of the literal in base ten, whatever base it was written
    /// in, or `None` where the text is no integer literal.
    pub digits: Option<String>,
    /// The suffix of the literal, empty where it has none, or `None` where
    /// the text is no integer literal.
    pub suffix: Option<String>,
}

impl Int {
    /// The integer that the literal stands for in `ty`, if any.
    pub open spec fn eval(&self, ty: IntType) -> Option<int> {
        match (self.digits, self.suffix) {
            (Some(digits), Some(suffix)) => literal_value(digits@, suffix@, self.neg, ty),
            _ => None,
        }
    }

    /// The literal as it is written out.
    pub open spec fn spec_text(&self) -> Seq<char> {
        if self.neg {
            "-"@ + self.lit@
        } else {
            self.lit@
        }
    }

    /// The literal with the given text. Its digits and its suffix are read
    /// out of the text by `syn`, and are whatever `syn` makes of it.
    pub fn new(neg: bool, lit: &str) -> (r: Int)
        ensures
            r.neg == neg,
            r.lit@ == lit@,
    {
        Int { neg, lit: lit.to_owned(), digits: digits_of(lit), suffix: suffix_of(lit) }
    }

    /// A copy of the literal.
    pub fn duplicate(&self) -> (r: Int)
        ensures
            r == *self,
    {
        Int {
            neg: self.neg,
            lit: self.lit.clone(),
            digits: copy_text(&self.digits),
            suffix: copy_text(&self.suffix),
        }
    }

    /// Computes [`Int::eval`].
    pub fn evaluate(&self, ty: IntType) -> (r: Option<Value>)
        ensures
            r is Some <==> self.eval(ty) is Some,
            r matches Some(v) ==> self.eval(ty) == Some(v@),
    {
        match &self.digits {
            Some(digits) => match &self.suffix {
                Some(suffix) => evaluate_literal(digits.as_str(), suffix.as_str(), self.neg, ty),
                None => None,
            },
            None => None,
        }
    }

    /// The literal with its digits in base ten and the name of `ty` as its
    /// suffix, where it is an integer literal at all.
    pub open spec fn spec_suffixed(&self, ty: IntType) -> Option<Seq<char>> {
        match self.digits {
            Some(digits) => Some(suffixed_literal(digits@, ty)),
            None => None,
        }
    }

    /// The literal with its digits in base ten and the name of `ty` as its
    /// suffix, in place of the base and the suffix that it was written
    /// with. `None` where the text is no integer literal.
    pub fn suffixed(&self, ty: IntType) -> (r: Option<Int>)
        ensures
            match r {
                Some(lit) => lit.neg == self.neg && self.spec_suffixed(ty) == Some(lit.lit@),
                None => self.spec_suffixed(ty) is None,
            },
    {
        match &self.digits {
            Some(digits) => {
                let text: String = suffix_literal(digits.as_str(), ty);
                Some(Int::new(self.neg, text.as_str()))
            },
            None => None,
        }
    }

    /// Writes the literal out.
    pub fn text(&self) -> (s: String)
        ensures
            s@ == self.spec_text(),
    {
        if self.neg {
            let mut s: String = "-".to_owned();
            s.append(self.lit.as_str());
            s
        } else {
            self.lit.clone()
        }
    }
}

/// An operator between two integers of the representation.
#[derive(Clone, Copy, Debug, PartialEq, Eq, Structural)]
pub enum BinOp {
    /// `+`
    Add,
    /// `-`
    Sub,
    /// `*`
    Mul,
    /// `/`
    Div,
    /// `%`
    Rem,
    /// `&`
    BitAnd,
    /// `|`
    BitOr,
    /// `^`
    BitXor,
}

impl BinOp {
    /// The operator as it is written.
    pub open spec fn spec_symbol(self) -> Seq<char> {
        match self {
            BinOp::Add => " + "@,
            BinOp::Sub => " - "@,
            BinOp::Mul => " * "@,
            BinOp::Div => " / "@,
            BinOp::Rem => " % "@,
            BinOp::BitAnd => " & "@,
            BinOp::BitOr => " | "@,
            BinOp::BitXor => " ^ "@,
        }
    }

    /// What the operator makes of `a` and `b` in the type `ty`, before the
    /// result is held against the bounds of `ty`.
    ///
    /// Division rounds towards zero. Neither it nor the remainder has a
    /// value for a divisor of zero, and the remainder has none where the
    /// quotient is no integer of `ty`.
    pub open spec fn apply(self, a: int, b: int, ty: IntType) -> Option<int> {
        match self {
            BinOp::Add => Some(a + b),
            BinOp::Sub => Some(a - b),
            BinOp::Mul => Some(a * b),
            BinOp::Div => if b == 0 {
                None
            } else {
                Some(trunc_div(a, b))
            },
            BinOp::Rem => if b == 0 || !ty.holds(trunc_div(a, b)) {
                None
            } else {
                Some(trunc_rem(a, b))
            },
            BinOp::BitAnd => Some(bit_and(a, b)),
            BinOp::BitOr => Some(bit_or(a, b)),
            BinOp::BitXor => Some(bit_xor(a, b)),
        }
    }

    /// The operator as it is written, with a space on either side.
    pub fn symbol(self) -> (s: &'static str)
        ensures
            s@ == self.spec_symbol(),
    {
        match self {
            BinOp::Add => " + ",
            BinOp::Sub => " - ",
            BinOp::Mul => " * ",
            BinOp::Div => " / ",
            BinOp::Rem => " % ",
            BinOp::BitAnd => " & ",
            BinOp::BitOr => " | ",
            BinOp::BitXor => " ^ ",
        }
    }

    /// Computes [`BinOp::apply`] and holds the result against the bounds of
    /// `ty`, for two integers of `ty`.
    pub fn compute(self, a: Value, b: Value, ty: IntType) -> (r: Option<Value>)
        requires
            ty.holds(a@),
            ty.holds(b@),
        ensures
            r is Some <==> (self.apply(a@, b@, ty) matches Some(v) && ty.holds(v)),
            r matches Some(v) ==> self.apply(a@, b@, ty) == Some(v@),
    {
        let found: Option<Value> = match self {
            BinOp::Add => a.checked_add(b),
            BinOp::Sub => a.checked_sub(b),
            BinOp::Mul => a.checked_mul(b),
            BinOp::Div => a.checked_div(b),
            BinOp::Rem => match a.checked_div(b) {
                Some(q) => if ty.contains(q) {
                    a.checked_rem(b)
                } else {
                    None
                },
                None => None,
            },
            BinOp::BitAnd => Some(a.bit_and(b)),
            BinOp::BitOr => Some(a.bit_or(b)),
            BinOp::BitXor => Some(a.bit_xor(b)),
        };
        match found {
            Some(v) => if ty.contains(v) {
                Some(v)
            } else {
                None
            },
            None => None,
        }
    }
}

/// The complement of `v` in the type `ty`: every bit of the type flipped.
pub open spec fn complement_in(v: int, ty: IntType) -> int {
    match ty.style {
        IntStyle::Signed => bit_not(v),
        IntStyle::Unsigned => ty.spec_max() - v,
    }
}

/// `text` between parentheses where `needed`, and as it is otherwise.
pub open spec fn wrapped(needed: bool, text: Seq<char>) -> Seq<char> {
    if needed {
        "("@ + text + ")"@
    } else {
        text
    }
}

/// A byte literal such as `b'A'`.
///
/// Beside the literal as it was written stands the byte that was read out
/// of it. The value of the literal goes by that byte and not by the text.
#[derive(Debug, PartialEq, Eq)]
pub struct Byte {
    /// The literal as it was written.
    pub lit: String,
    /// The byte that the literal holds, or `None` where the text is no byte
    /// literal.
    pub value: Option<u8>,
}

impl Byte {
    /// The literal with the given text. Its byte is read out of the text by
    /// `syn`, and is whatever `syn` makes of it.
    pub fn new(lit: &str) -> (r: Byte)
        ensures
            r.lit@ == lit@,
    {
        Byte { lit: lit.to_owned(), value: byte_of(lit) }
    }

    /// A copy of the literal.
    pub fn duplicate(&self) -> (r: Byte)
        ensures
            r == *self,
    {
        Byte { lit: self.lit.clone(), value: self.value }
    }
}

/// What the engine knows of the value of an expression.
pub enum Status {
    /// The expression evaluates to this integer of the representation.
    Known(int),
    /// The expression holds something that the engine does not evaluate.
    Undecided,
    /// The expression is made of what the engine evaluates, and has no
    /// value in the representation.
    Invalid,
}

/// A discriminant expression.
#[derive(Debug, PartialEq, Eq)]
pub enum Expr {
    /// An integer literal, possibly negated.
    Int(Int),
    /// A byte literal.
    Byte(Byte),
    /// `-e`
    Neg(Box<Expr>),
    /// `!e`
    Not(Box<Expr>),
    /// `(e)`
    Paren(Box<Expr>),
    /// `l op r`
    Binary(BinOp, Box<Expr>, Box<Expr>),
    /// `e << k`, for a literal `k`
    Shl(Box<Expr>, u32),
    /// `e >> k`, for a literal `k`
    Shr(Box<Expr>, u32),
    /// Any other expression, as it was written. It is emitted like the
    /// others, but the engine does not evaluate it.
    Other(String),
}

impl Expr {
    /// The integer that the expression evaluates to in `ty`, or `None` where
    /// it has no value there.
    pub open spec fn eval(&self, ty: IntType) -> Option<int>
        decreases self,
    {
        match self {
            Expr::Int(i) => i.eval(ty),
            Expr::Byte(b) => byte_value(b.value, ty),
            Expr::Neg(e) => match e.eval(ty) {
                Some(v) => if ty.holds(-v) {
                    Some(-v)
                } else {
                    None
                },
                None => None,
            },
            Expr::Not(e) => match e.eval(ty) {
                Some(v) => if ty.holds(complement_in(v, ty)) {
                    Some(complement_in(v, ty))
                } else {
                    None
                },
                None => None,
            },
            Expr::Paren(e) => e.eval(ty),
            Expr::Binary(op, l, r) => match (l.eval(ty), r.eval(ty)) {
                (Some(a), Some(b)) => match op.apply(a, b, ty) {
                    Some(v) => if ty.holds(v) {
                        Some(v)
                    } else {
                        None
                    },
                    None => None,
                },
                _ => None,
            },
            Expr::Shl(e, k) => match e.eval(ty) {
                Some(v) => if *k < ty.spec_bits() {
                    Some(ty.wrapped(v * pow2(*k as nat)))
                } else {
                    None
                },
                None => None,
            },
            Expr::Shr(e, k) => match e.eval(ty) {
                Some(v) => if *k < ty.spec_bits() && ty.holds(v / (pow2(*k as nat) as int)) {
                    Some(v / (pow2(*k as nat) as int))
                } else {
                    None
                },
                None => None,
            },
            Expr::Other(_) => None,
        }
    }

    /// Whether the expression holds, anywhere in it, something that the
    /// engine does not evaluate.
    pub open spec fn opaque(&self) -> bool
        decreases self,
    {
        match self {
            Expr::Int(_) => false,
            Expr::Byte(_) => false,
            Expr::Neg(e) => e.opaque(),
            Expr::Not(e) => e.opaque(),
            Expr::Paren(e) => e.opaque(),
            Expr::Binary(_, l, r) => l.opaque() || r.opaque(),
            Expr::Shl(e, _) => e.opaque(),
            Expr::Shr(e, _) => e.opaque(),
            Expr::Other(_) => true,
        }
    }

    /// What the engine knows of the value of the expression in `ty`.
    pub open spec fn status(&self, ty: IntType) -> Status {
        match self.eval(ty) {
            Some(v) => Status::Known(v),
            None => if self.opaque() {
                Status::Undecided
            } else {
                Status::Invalid
            },
        }
    }

    /// Whether the expression has to stand between parentheses where it is
    /// the operand of an operator, so that it is read as one: it does where
    /// it is made with an operator between two operands itself, and where
    /// the engine does not know what it is made of.
    pub open spec fn spec_needs_parens(&self) -> bool {
        self is Binary || self is Shl || self is Shr || self is Other
    }

    /// The expression as it is written out where it is an operand.
    pub open spec fn spec_operand(&self) -> Seq<char> {
        wrapped(self.spec_needs_parens(), self.spec_text())
    }

    /// The expression as it is written out.
    pub open spec fn spec_text(&self) -> Seq<char>
        decreases self,
    {
        match self {
            Expr::Int(i) => i.spec_text(),
            Expr::Byte(b) => b.lit@,
            Expr::Neg(e) => "-"@ + wrapped(e.spec_needs_parens(), e.spec_text()),
            Expr::Not(e) => "!"@ + wrapped(e.spec_needs_parens(), e.spec_text()),
            Expr::Paren(e) => "("@ + e.spec_text() + ")"@,
            Expr::Binary(op, l, r) => wrapped(l.spec_needs_parens(), l.spec_text())
                + op.spec_symbol() + wrapped(r.spec_needs_parens(), r.spec_text()),
            Expr::Shl(e, k) => wrapped(e.spec_needs_parens(), e.spec_text()) + " << "@
                + decimal_nat(*k as nat),
            Expr::Shr(e, k) => wrapped(e.spec_needs_parens(), e.spec_text()) + " >> "@
                + decimal_nat(*k as nat),
            Expr::Other(t) => t@,
        }
    }

    /// The literal `lit`, as an expression.
    pub fn lit(lit: &str) -> (r: Expr)
        ensures
            r matches Expr::Int(i) && !i.neg && i.lit@ == lit@,
    {
        Expr::Int(Int::new(false, lit))
    }

    /// The literal `lit` with a minus sign before it, as an expression.
    pub fn neg_lit(lit: &str) -> (r: Expr)
        ensures
            r matches Expr::Int(i) && i.neg && i.lit@ == lit@,
    {
        Expr::Int(Int::new(true, lit))
    }

    /// The byte literal `lit`, as an expression.
    pub fn byte(lit: &str) -> (r: Expr)
        ensures
            r matches Expr::Byte(b) && b.lit@ == lit@,
    {
        Expr::Byte(Byte::new(lit))
    }

    /// `-e`
    pub fn neg(e: Expr) -> (r: Expr)
        ensures
            r == Expr::Neg(Box::new(e)),
    {
        Expr::Neg(Box::new(e))
    }

    /// `(e)`
    pub fn paren(e: Expr) -> (r: Expr)
        ensures
            r == Expr::Paren(Box::new(e)),
    {
        Expr::Paren(Box::new(e))
    }

    /// The expression `text`, kept as it is written and not evaluated.
    pub fn other(text: &str) -> (r: Expr)
        ensures
            r matches Expr::Other(t) && t@ == text@,
    {
        Expr::Other(text.to_owned())
    }

    /// `e << k`
    pub fn shl(e: Expr, k: u32) -> (r: Expr)
        ensures
            r == Expr::Shl(Box::new(e), k),
    {
        Expr::Shl(Box::new(e), k)
    }

    /// `e >> k`
    pub fn shr(e: Expr, k: u32) -> (r: Expr)
        ensures
            r == Expr::Shr(Box::new(e), k),
    {
        Expr::Shr(Box::new(e), k)
    }

    /// `!e`
    pub fn not(e: Expr) -> (r: Expr)
        ensures
            r == Expr::Not(Box::new(e)),
    {
        Expr::Not(Box::new(e))
    }

    /// `l op r`
    pub fn binary(op: BinOp, l: Expr, r: Expr) -> (e: Expr)
        ensures
            e == Expr::Binary(op, Box::new(l), Box::new(r)),
    {
        Expr::Binary(op, Box::new(l), Box::new(r))
    }

    /// Whether the expression is a literal and nothing else.
    pub open spec fn spec_is_literal(&self) -> bool {
        self is Int || self is Byte
    }

    /// Whether the expression is a literal and nothing else.
    pub fn is_literal(&self) -> (r: bool)
        ensures
            r == self.spec_is_literal(),
    {
        match self {
            Expr::Int(_) => true,
            Expr::Byte(_) => true,
            _ => false,
        }
    }

    /// Whether the expression has to stand between parentheses where it is
    /// the operand of an operator.
    pub fn needs_parens(&self) -> (r: bool)
        ensures
            r == self.spec_needs_parens(),
    {
        match self {
            Expr::Binary(_, _, _) => true,
            Expr::Shl(_, _) => true,
            Expr::Shr(_, _) => true,
            Expr::Other(_) => true,
            _ => false,
        }
    }

    /// Writes the expression out as an operand.
    pub fn operand(&self) -> (s: String)
        ensures
            s@ == self.spec_operand(),
        decreases self, 1nat,
    {
        let inner: String = self.text();
        if self.needs_parens() {
            let mut s: String = "(".to_owned();
            s.append(inner.as_str());
            s.append(")");
            s
        } else {
            inner
        }
    }

    /// A copy of the expression.
    pub fn duplicate(&self) -> (r: Expr)
        ensures
            r == *self,
        decreases self,
    {
        match self {
            Expr::Int(i) => Expr::Int(i.duplicate()),
            Expr::Byte(b) => Expr::Byte(b.duplicate()),
            Expr::Neg(e) => Expr::Neg(Box::new(e.duplicate())),
            Expr::Not(e) => Expr::Not(Box::new(e.duplicate())),
            Expr::Paren(e) => Expr::Paren(Box::new(e.duplicate())),
            Expr::Binary(op, l, r) => Expr::Binary(
                *op,
                Box::new(l.duplicate()),
                Box::new(r.duplicate()),
            ),
            Expr::Shl(e, k) => Expr::Shl(Box::new(e.duplicate()), *k),
            Expr::Shr(e, k) => Expr::Shr(Box::new(e.duplicate()), *k),
            Expr::Other(t) => Expr::Other(t.clone()),
        }
    }

    /// Whether the expression holds, anywhere in it, something that the
    /// engine does not evaluate.
    pub fn is_opaque(&self) -> (r: bool)
        ensures
            r == self.opaque(),
        decreases self,
    {
        match self {
            Expr::Int(_) => false,
            Expr::Byte(_) => false,
            Expr::Neg(e) => e.is_opaque(),
            Expr::Not(e) => e.is_opaque(),
            Expr::Paren(e) => e.is_opaque(),
            Expr::Binary(_, l, r) => l.is_opaque() || r.is_opaque(),
            Expr::Shl(e, _) => e.is_opaque(),
            Expr::Shr(e, _) => e.is_opaque(),
            Expr::Other(_) => true,
        }
    }

    /// Computes [`Expr::eval`].
    pub fn evaluate(&self, ty: IntType) -> (r: Option<Value>)
        ensures
            r is Some <==> self.eval(ty) is Some,
            r matches Some(v) ==> self.eval(ty) == Some(v@),
        decreases self,
    {
        match self {
            Expr::Int(i) => i.evaluate(ty),
            Expr::Byte(b) => evaluate_byte(b.value, ty),
            Expr::Neg(e) => match e.evaluate(ty) {
                Some(v) => match v.checked_neg() {
                    Some(n) => if ty.contains(n) {
                        Some(n)
                    } else {
                        None
                    },
                    None => None,
                },
                None => None,
            },
            Expr::Not(e) => match e.evaluate(ty) {
                Some(v) => {
                    let flipped: Option<Value> = match ty.style {
                        IntStyle::Signed => Some(v.complement()),
                        IntStyle::Unsigned => ty.max().checked_sub(v),
                    };
                    match flipped {
                        Some(n) => if ty.contains(n) {
                            Some(n)
                        } else {
                            None
                        },
                        None => None,
                    }
                },
                None => None,
            },
            Expr::Paren(e) => e.evaluate(ty),
            Expr::Binary(op, l, r) => match l.evaluate(ty) {
                Some(a) => match r.evaluate(ty) {
                    Some(b) => {
                        proof {
                            lemma_eval_in_range(**l, ty);
                            lemma_eval_in_range(**r, ty);
                        }
                        op.compute(a, b, ty)
                    },
                    None => None,
                },
                None => None,
            },
            Expr::Shr(e, k) => match e.evaluate(ty) {
                Some(v) => if *k < ty.bits() {
                    let n: Value = v.shr(*k);
                    if ty.contains(n) {
                        Some(n)
                    } else {
                        None
                    }
                } else {
                    None
                },
                None => None,
            },
            Expr::Shl(e, k) => match e.evaluate(ty) {
                Some(v) => if *k < ty.bits() {
                    proof {
                        lemma_eval_in_range(**e, ty);
                    }
                    Some(ty.wrapping_shl(v, *k))
                } else {
                    None
                },
                None => None,
            },
            Expr::Other(_) => None,
        }
    }

    /// Writes the expression out.
    pub fn text(&self) -> (s: String)
        ensures
            s@ == self.spec_text(),
        decreases self, 0nat,
    {
        match self {
            Expr::Int(i) => i.text(),
            Expr::Byte(b) => b.lit.clone(),
            Expr::Neg(e) => {
                let mut s: String = "-".to_owned();
                let inner: String = e.operand();
                s.append(inner.as_str());
                s
            },
            Expr::Not(e) => {
                let mut s: String = "!".to_owned();
                let inner: String = e.operand();
                s.append(inner.as_str());
                s
            },
            Expr::Paren(e) => {
                let mut s: String = "(".to_owned();
                let inner: String = e.text();
                s.append(inner.as_str());
                s.append(")");
                s
            },
            Expr::Binary(op, l, r) => {
                let mut s: String = l.operand();
                s.append(op.symbol());
                let right: String = r.operand();
                s.append(right.as_str());
                s
            },
            Expr::Shl(e, k) => {
                let mut s: String = e.operand();
                s.append(" << ");
                let places: String = render_nat(*k as u128);
                s.append(places.as_str());
                s
            },
            Expr::Shr(e, k) => {
                let mut s: String = e.operand();
                s.append(" >> ");
                let places: String = render_nat(*k as u128);
                s.append(places.as_str());
                s
            },
            Expr::Other(t) => t.clone(),
        }
    }
}

/// What an expression evaluates to in a type is an integer of that type.
pub proof fn lemma_eval_in_range(e: Expr, ty: IntType)
    requires
        e.eval(ty) is Some,
    ensures
        ty.holds(e.eval(ty)->0),
    decreases e,
{
    match e {
        Expr::Paren(inner) => {
            lemma_eval_in_range(*inner, ty);
        },
        Expr::Shl(inner, k) => {
            lemma_wrapped_in_range(ty, inner.eval(ty)->0 * pow2(k as nat));
        },
        _ => {},
    }
}

} // verus!
