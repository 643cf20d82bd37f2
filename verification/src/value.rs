//! Integers wide enough for every representation.
//!
//! A discriminant may belong to any primitive integer type, signed or
//! unsigned, up to 128 bits. [`Value`] holds every integer of that combined
//! range exactly, as a sign and a distance, so that each integer has one
//! encoding and structural equality is numeric equality.

use vstd::prelude::*;
use vstd::arithmetic::div_mod::{
    lemma_fundamental_div_mod, lemma_fundamental_div_mod_converse, lemma_mod_bound,
};
use vstd::arithmetic::power2::*;

verus! {

/// An integer in `[-2^128, 2^128 - 1]`.
#[derive(Clone, Copy, Debug, PartialEq, Eq, Structural)]
pub struct Value {
    /// Whether the integer lies below zero.
    below_zero: bool,
    /// The integer itself when it is not below zero, else its distance from -1.
    distance: u128,
}

impl View for Value {
    type V = int;

    closed spec fn view(&self) -> int {
        if self.below_zero {
            -1 - self.distance as int
        } else {
            self.distance as int
        }
    }
}

/// The least integer that a [`Value`] holds.
pub open spec fn lowest() -> int {
    -0x1_0000_0000_0000_0000_0000_0000_0000_0000
}

/// Whether `n` is an integer of some primitive type.
pub open spec fn primitive(n: int) -> bool {
    i128::MIN <= n <= u128::MAX
}

/// `n` without its sign.
pub open spec fn abs(n: int) -> int {
    if n < 0 {
        -n
    } else {
        n
    }
}

/// The quotient of `a` by `b`, rounded towards zero.
pub open spec fn trunc_div(a: int, b: int) -> int
    recommends
        b != 0,
{
    if (a < 0) == (b < 0) {
        abs(a) / abs(b)
    } else {
        -(abs(a) / abs(b))
    }
}

/// What is left of `a` when it is divided by `b` with the quotient rounded
/// towards zero. It has the sign of `a`.
pub open spec fn trunc_rem(a: int, b: int) -> int
    recommends
        b != 0,
{
    if a < 0 {
        -(abs(a) % abs(b))
    } else {
        abs(a) % abs(b)
    }
}

/// The bits of `n` in two's complement, with as many leading sign bits as
/// it takes: whether `n` is below zero, and its bits where it is not, or
/// else the bits of its complement.
pub open spec fn bits_of(n: int) -> (bool, u128)
    recommends
        lowest() <= n <= u128::MAX,
{
    if n < 0 {
        (true, (-1 - n) as u128)
    } else {
        (false, n as u128)
    }
}

/// The integer whose bits in two's complement are `bits`, complemented
/// where `below` says so.
pub open spec fn from_bits(below: bool, bits: u128) -> int {
    if below {
        -1 - bits
    } else {
        bits as int
    }
}

/// The complement of `n`: every bit flipped.
pub open spec fn bit_not(n: int) -> int {
    -1 - n
}

/// The bits that `a` and `b` both have.
pub open spec fn bit_and(a: int, b: int) -> int {
    let (na, x) = bits_of(a);
    let (nb, y) = bits_of(b);
    if na && nb {
        from_bits(true, x | y)
    } else if na {
        from_bits(false, y & !x)
    } else if nb {
        from_bits(false, x & !y)
    } else {
        from_bits(false, x & y)
    }
}

/// The bits that `a` or `b` has.
pub open spec fn bit_or(a: int, b: int) -> int {
    let (na, x) = bits_of(a);
    let (nb, y) = bits_of(b);
    if na && nb {
        from_bits(true, x & y)
    } else if na {
        from_bits(true, x & !y)
    } else if nb {
        from_bits(true, y & !x)
    } else {
        from_bits(false, x | y)
    }
}

/// The bits that exactly one of `a` and `b` has.
pub open spec fn bit_xor(a: int, b: int) -> int {
    let (na, x) = bits_of(a);
    let (nb, y) = bits_of(b);
    from_bits(na != nb, x ^ y)
}

/// Two values are the same value exactly when they stand for the same integer.
pub proof fn lemma_value_injective(a: Value, b: Value)
    ensures
        (a@ == b@) <==> (a == b),
{
}

/// Every value lies in `[-2^128, 2^128 - 1]`.
pub proof fn law_value_bounds(a: Value)
    ensures
        lowest() <= a@ <= u128::MAX,
{
}

impl Value {
    /// The value of an unsigned integer.
    pub fn from_u128(n: u128) -> (r: Value)
        ensures
            r@ == n,
    {
        Value { below_zero: false, distance: n }
    }

    /// The value of a signed integer.
    pub fn from_i128(n: i128) -> (r: Value)
        ensures
            r@ == n,
    {
        if n < 0 {
            Value { below_zero: true, distance: (-(n + 1)) as u128 }
        } else {
            Value { below_zero: false, distance: n as u128 }
        }
    }

    /// The value as an unsigned integer, where it is one.
    pub fn to_u128(self) -> (r: Option<u128>)
        ensures
            r is Some <==> 0 <= self@,
            r matches Some(n) ==> n == self@,
    {
        if self.below_zero {
            None
        } else {
            Some(self.distance)
        }
    }

    /// The value as a signed integer, where it fits into one.
    pub fn to_i128(self) -> (r: Option<i128>)
        ensures
            r is Some <==> i128::MIN <= self@ <= i128::MAX,
            r matches Some(n) ==> n == self@,
    {
        if self.distance > i128::MAX as u128 {
            None
        } else if self.below_zero {
            Some(-1 - self.distance as i128)
        } else {
            Some(self.distance as i128)
        }
    }

    /// Whether the value lies below zero.
    pub fn is_negative(self) -> (r: bool)
        ensures
            r == (self@ < 0),
    {
        self.below_zero
    }

    /// The size of the value without its sign, where it fits 128 bits.
    pub fn magnitude(self) -> (r: Option<u128>)
        ensures
            r is Some <==> -(u128::MAX as int) <= self@,
            r matches Some(n) ==> n == abs(self@),
    {
        if !self.below_zero {
            Some(self.distance)
        } else if self.distance == u128::MAX {
            None
        } else {
            Some(self.distance + 1)
        }
    }

    /// Numeric order.
    pub fn le(self, other: Value) -> (r: bool)
        ensures
            r == (self@ <= other@),
    {
        if self.below_zero {
            if other.below_zero {
                self.distance >= other.distance
            } else {
                true
            }
        } else {
            if other.below_zero {
                false
            } else {
                self.distance <= other.distance
            }
        }
    }

    /// Whether the value lies in `[low, high]`.
    pub fn within(self, low: Value, high: Value) -> (r: bool)
        ensures
            r == (low@ <= self@ <= high@),
    {
        low.le(self) && self.le(high)
    }

    /// The negated value, where it can be held.
    pub fn checked_neg(self) -> (r: Option<Value>)
        ensures
            r is Some <==> -(u128::MAX as int) <= self@,
            r matches Some(v) ==> v@ == -self@,
    {
        if self.below_zero {
            if self.distance == u128::MAX {
                None
            } else {
                Some(Value { below_zero: false, distance: self.distance + 1 })
            }
        } else {
            if self.distance == 0 {
                Some(self)
            } else {
                Some(Value { below_zero: true, distance: self.distance - 1 })
            }
        }
    }

    /// The next integer, where it can be held.
    pub fn checked_succ(self) -> (r: Option<Value>)
        ensures
            r is Some <==> self@ < u128::MAX,
            r matches Some(v) ==> v@ == self@ + 1,
    {
        if self.below_zero {
            if self.distance == 0 {
                Some(Value { below_zero: false, distance: 0 })
            } else {
                Some(Value { below_zero: true, distance: self.distance - 1 })
            }
        } else {
            if self.distance == u128::MAX {
                None
            } else {
                Some(Value { below_zero: false, distance: self.distance + 1 })
            }
        }
    }

    /// The complement: every bit flipped.
    pub fn complement(self) -> (r: Value)
        ensures
            r@ == bit_not(self@),
    {
        Value { below_zero: !self.below_zero, distance: self.distance }
    }

    /// The bits that both values have.
    pub fn bit_and(self, other: Value) -> (r: Value)
        ensures
            r@ == bit_and(self@, other@),
    {
        let x: u128 = self.distance;
        let y: u128 = other.distance;
        if self.below_zero && other.below_zero {
            Value { below_zero: true, distance: x | y }
        } else if self.below_zero {
            Value { below_zero: false, distance: y & !x }
        } else if other.below_zero {
            Value { below_zero: false, distance: x & !y }
        } else {
            Value { below_zero: false, distance: x & y }
        }
    }

    /// The bits that either value has.
    pub fn bit_or(self, other: Value) -> (r: Value)
        ensures
            r@ == bit_or(self@, other@),
    {
        let x: u128 = self.distance;
        let y: u128 = other.distance;
        if self.below_zero && other.below_zero {
            Value { below_zero: true, distance: x & y }
        } else if self.below_zero {
            Value { below_zero: true, distance: x & !y }
        } else if other.below_zero {
            Value { below_zero: true, distance: y & !x }
        } else {
            Value { below_zero: false, distance: x | y }
        }
    }

    /// The bits that exactly one of the values has.
    pub fn bit_xor(self, other: Value) -> (r: Value)
        ensures
            r@ == bit_xor(self@, other@),
    {
        Value {
            below_zero: self.below_zero != other.below_zero,
            distance: self.distance ^ other.distance,
        }
    }

    /// The value shifted right by `k` binary places: halved `k` times, each
    /// time rounded down.
    pub fn shr(self, k: u32) -> (r: Value)
        requires
            k < 128,
        ensures
            r@ == self@ / (pow2(k as nat) as int),
    {
        let mut cur: Value = self;
        let mut i: u32 = 0;
        proof {
            lemma2_to64();
        }
        while i < k
            invariant
                i <= k,
                cur@ == self@ / (pow2(i as nat) as int),
            decreases k - i,
        {
            proof {
                lemma_pow2_unfold((i + 1) as nat);
                lemma_pow2_pos(i as nat);
                lemma_halving(self@, pow2(i as nat) as int);
            }
            cur = Value { below_zero: cur.below_zero, distance: cur.distance / 2 };
            i = i + 1;
        }
        cur
    }

    /// The sum, where it can be held.
    pub fn checked_add(self, other: Value) -> (r: Option<Value>)
        ensures
            r is Some <==> lowest() <= self@ + other@ <= u128::MAX,
            r matches Some(v) ==> v@ == self@ + other@,
    {
        let a: u128 = self.distance;
        let b: u128 = other.distance;
        if self.below_zero && other.below_zero {
            if a >= u128::MAX - b {
                None
            } else {
                Some(Value { below_zero: true, distance: a + b + 1 })
            }
        } else if self.below_zero {
            Some(Value::apart(b, a).complement_of_difference(b, a))
        } else if other.below_zero {
            Some(Value::apart(a, b).complement_of_difference(a, b))
        } else {
            if a > u128::MAX - b {
                None
            } else {
                Some(Value { below_zero: false, distance: a + b })
            }
        }
    }

    /// The difference, where it can be held.
    pub fn checked_sub(self, other: Value) -> (r: Option<Value>)
        ensures
            r is Some <==> lowest() <= self@ - other@ <= u128::MAX,
            r matches Some(v) ==> v@ == self@ - other@,
    {
        let a: u128 = self.distance;
        let b: u128 = other.distance;
        if self.below_zero && other.below_zero {
            Some(Value::apart(b, a))
        } else if self.below_zero {
            if a > u128::MAX - b {
                None
            } else {
                Some(Value { below_zero: true, distance: a + b })
            }
        } else if other.below_zero {
            if a >= u128::MAX - b {
                None
            } else {
                Some(Value { below_zero: false, distance: a + b + 1 })
            }
        } else {
            Some(Value::apart(a, b))
        }
    }

    /// `a - b`
    fn apart(a: u128, b: u128) -> (r: Value)
        ensures
            r@ == a - b,
    {
        if a >= b {
            Value { below_zero: false, distance: a - b }
        } else {
            Value { below_zero: true, distance: b - a - 1 }
        }
    }

    /// `a - b - 1`, given `a - b`
    fn complement_of_difference(self, a: u128, b: u128) -> (r: Value)
        requires
            self@ == a - b,
        ensures
            r@ == a - b - 1,
    {
        if a > b {
            Value { below_zero: false, distance: a - b - 1 }
        } else {
            Value { below_zero: true, distance: b - a }
        }
    }

    /// The product, where it is an integer of some primitive type.
    pub fn checked_mul(self, other: Value) -> (r: Option<Value>)
        ensures
            primitive(self@ * other@) ==> r is Some,
            r matches Some(v) ==> v@ == self@ * other@,
    {
        let a: u128 = match self.magnitude() {
            Some(a) => a,
            None => {
                proof {
                    lemma_product_of_large(self@, other@);
                }
                return if other.distance == 0 && !other.below_zero {
                    Some(other)
                } else {
                    None
                };
            },
        };
        let b: u128 = match other.magnitude() {
            Some(b) => b,
            None => {
                proof {
                    lemma_product_of_large(other@, self@);
                }
                return if self.distance == 0 && !self.below_zero {
                    Some(self)
                } else {
                    None
                };
            },
        };
        proof {
            lemma_product_of_signs(self@, other@);
        }
        match a.checked_mul(b) {
            Some(size) => {
                let unsigned: Value = Value { below_zero: false, distance: size };
                if self.below_zero != other.below_zero {
                    unsigned.checked_neg()
                } else {
                    Some(unsigned)
                }
            },
            None => None,
        }
    }

    /// The quotient rounded towards zero, where the divisor is not zero and
    /// both values have a size that fits 128 bits.
    pub fn checked_div(self, other: Value) -> (r: Option<Value>)
        ensures
            other@ != 0 && lowest() < self@ && lowest() < other@ ==> r is Some,
            r matches Some(v) ==> other@ != 0 && v@ == trunc_div(self@, other@),
    {
        let a: u128 = match self.magnitude() {
            Some(a) => a,
            None => {
                return None;
            },
        };
        let b: u128 = match other.magnitude() {
            Some(b) => b,
            None => {
                return None;
            },
        };
        if b == 0 {
            return None;
        }
        let unsigned: Value = Value { below_zero: false, distance: a / b };
        if self.below_zero != other.below_zero {
            unsigned.checked_neg()
        } else {
            Some(unsigned)
        }
    }

    /// What is left of the division rounded towards zero, where the divisor
    /// is not zero and both values have a size that fits 128 bits.
    pub fn checked_rem(self, other: Value) -> (r: Option<Value>)
        ensures
            other@ != 0 && lowest() < self@ && lowest() < other@ ==> r is Some,
            r matches Some(v) ==> other@ != 0 && v@ == trunc_rem(self@, other@),
    {
        let a: u128 = match self.magnitude() {
            Some(a) => a,
            None => {
                return None;
            },
        };
        let b: u128 = match other.magnitude() {
            Some(b) => b,
            None => {
                return None;
            },
        };
        if b == 0 {
            return None;
        }
        let unsigned: Value = Value { below_zero: false, distance: a % b };
        if self.below_zero {
            unsigned.checked_neg()
        } else {
            Some(unsigned)
        }
    }
}

/// Halving once more divides by twice as much, with the quotient rounded
/// down each time.
proof fn lemma_halving(x: int, d: int)
    requires
        d > 0,
    ensures
        (x / d) / 2 == x / (2 * d),
{
    let q: int = x / (2 * d);
    let r: int = x % (2 * d);
    lemma_fundamental_div_mod(x, 2 * d);
    lemma_mod_bound(x, 2 * d);
    let upper: int = if r >= d {
        1
    } else {
        0
    };
    let rest: int = r - upper * d;
    assert(x == (2 * q + upper) * d + rest) by (nonlinear_arith)
        requires
            x == (2 * d) * q + r,
            rest == r - upper * d,
    ;
    lemma_fundamental_div_mod_converse(x, d, 2 * q + upper, rest);
    lemma_fundamental_div_mod_converse(2 * q + upper, 2, q, upper);
}

/// The product of an integer too large for any primitive type with one
/// that is not zero is no integer of a primitive type either.
proof fn lemma_product_of_large(big: int, other: int)
    requires
        big <= lowest(),
    ensures
        other != 0 ==> !primitive(big * other),
        other == 0 ==> big * other == 0,
{
    assert(other >= 1 ==> big * other <= big) by (nonlinear_arith)
        requires
            big <= 0,
    ;
    assert(other <= -1 ==> big * other >= -big) by (nonlinear_arith)
        requires
            big <= 0,
    ;
}

/// The sign of a product is the product of the signs.
proof fn lemma_product_of_signs(a: int, b: int)
    ensures
        (a < 0) == (b < 0) ==> a * b == abs(a) * abs(b),
        (a < 0) != (b < 0) ==> a * b == -(abs(a) * abs(b)),
{
    assert((-a) * (-b) == a * b) by (nonlinear_arith);
    assert((-a) * b == -(a * b)) by (nonlinear_arith);
    assert(a * (-b) == -(a * b)) by (nonlinear_arith);
}

} // verus!
