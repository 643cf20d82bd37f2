//! Integers written in base ten.

use vstd::prelude::*;
use vstd::string::*;
use crate::value::Value;

verus! {

/// Whether `c` is one of the ten digits.
pub open spec fn is_digit(c: char) -> bool {
    '0' <= c <= '9'
}

/// The number that the digit `c` stands for.
pub open spec fn digit_value(c: char) -> nat {
    (c as int - '0' as int) as nat
}

/// The digit that stands for `d`, for `d` below ten.
pub open spec fn digit_char(d: nat) -> char {
    (d + '0' as nat) as char
}

/// Whether `s` is made of digits only, and of at least one.
pub open spec fn is_digits(s: Seq<char>) -> bool {
    s.len() > 0 && forall|i: int| 0 <= i < s.len() ==> is_digit(#[trigger] s[i])
}

/// The number that the digits `s` spell in base ten.
pub open spec fn digits_value(s: Seq<char>) -> nat
    decreases s.len(),
{
    if s.len() == 0 {
        0
    } else {
        digits_value(s.drop_last()) * 10 + digit_value(s.last())
    }
}

/// The integer that `s` spells: digits, with or without a minus sign in
/// front. Anything else spells no integer.
pub open spec fn signed_value(s: Seq<char>) -> Option<int> {
    if s.len() > 0 && s[0] == '-' {
        if is_digits(s.drop_first()) {
            Some(-(digits_value(s.drop_first()) as int))
        } else {
            None
        }
    } else if is_digits(s) {
        Some(digits_value(s) as int)
    } else {
        None
    }
}

/// The digits of `n` in base ten, without leading zeros.
pub open spec fn decimal_nat(n: nat) -> Seq<char>
    decreases n,
{
    if n < 10 {
        seq![digit_char(n)]
    } else {
        decimal_nat(n / 10).push(digit_char(n % 10))
    }
}

/// The integer `n` in base ten, with a minus sign where it is below zero.
pub open spec fn decimal(n: int) -> Seq<char> {
    if n < 0 {
        seq!['-'] + decimal_nat((-n) as nat)
    } else {
        decimal_nat(n as nat)
    }
}

/// A longer run of digits spells no smaller a number than its beginning.
pub proof fn lemma_digits_value_grows(s: Seq<char>, k: int)
    requires
        0 <= k <= s.len(),
    ensures
        digits_value(s.take(k)) <= digits_value(s),
    decreases s.len(),
{
    if k == s.len() {
        assert(s.take(k) =~= s);
    } else {
        lemma_digits_value_grows(s.drop_last(), k);
        assert(s.drop_last().take(k) =~= s.take(k));
    }
}

/// What `decimal_nat` writes are digits, and they spell the number back.
pub proof fn lemma_decimal_nat_round_trip(n: nat)
    ensures
        is_digits(decimal_nat(n)),
        digits_value(decimal_nat(n)) == n,
    decreases n,
{
    if n < 10 {
        let s: Seq<char> = seq![digit_char(n)];
        assert(digits_value(s.drop_last()) == 0);
    } else {
        lemma_decimal_nat_round_trip(n / 10);
        let s: Seq<char> = decimal_nat(n);
        assert(s.drop_last() =~= decimal_nat(n / 10));
    }
}

/// The one-character string of the digit `d`.
fn digit_str(d: u8) -> (s: &'static str)
    requires
        d < 10,
    ensures
        s@ == seq![digit_char(d as nat)],
{
    proof {
        reveal_strlit("0");
        reveal_strlit("1");
        reveal_strlit("2");
        reveal_strlit("3");
        reveal_strlit("4");
        reveal_strlit("5");
        reveal_strlit("6");
        reveal_strlit("7");
        reveal_strlit("8");
        reveal_strlit("9");
    }
    let s: &'static str = match d {
        0 => "0",
        1 => "1",
        2 => "2",
        3 => "3",
        4 => "4",
        5 => "5",
        6 => "6",
        7 => "7",
        8 => "8",
        _ => "9",
    };
    s
}

/// Writes `n` in base ten.
pub fn render_nat(n: u128) -> (s: String)
    ensures
        s@ == decimal_nat(n as nat),
    decreases n,
{
    if n < 10 {
        digit_str(n as u8).to_owned()
    } else {
        let mut s: String = render_nat(n / 10);
        s.append(digit_str((n % 10) as u8));
        s
    }
}

/// Writes `n + 1` in base ten.
fn render_nat_succ(n: u128) -> (s: String)
    ensures
        s@ == decimal_nat(n as nat + 1),
{
    let q: u128 = n / 10;
    let r: u8 = (n % 10) as u8;
    if r < 9 {
        if q == 0 {
            digit_str(r + 1).to_owned()
        } else {
            let mut s: String = render_nat(q);
            s.append(digit_str(r + 1));
            s
        }
    } else {
        let mut s: String = render_nat(q + 1);
        s.append(digit_str(0));
        s
    }
}

/// Reads a run of digits as a number, where the number fits 128 bits.
pub fn parse_nat(s: &str) -> (r: Option<u128>)
    ensures
        r is Some <==> is_digits(s@) && digits_value(s@) <= u128::MAX,
        r matches Some(n) ==> n == digits_value(s@),
{
    let len: usize = s.unicode_len();
    if len == 0 {
        return None;
    }
    let mut acc: u128 = 0;
    let mut i: usize = 0;
    while i < len
        invariant
            0 <= i <= len,
            len == s@.len(),
            acc == digits_value(s@.take(i as int)),
            forall|j: int| 0 <= j < i ==> is_digit(#[trigger] s@[j]),
        decreases len - i,
    {
        let c: char = s.get_char(i);
        if c < '0' || c > '9' {
            return None;
        }
        let d: u128 = (c as u32 - '0' as u32) as u128;
        proof {
            assert(s@.take(i + 1).drop_last() =~= s@.take(i as int));
            lemma_digits_value_grows(s@, i + 1);
        }
        if acc > (u128::MAX - d) / 10 {
            return None;
        }
        acc = acc * 10 + d;
        i = i + 1;
    }
    assert(s@.take(len as int) =~= s@);
    Some(acc)
}

impl Value {
    /// Writes the value in base ten.
    pub fn to_string(self) -> (s: String)
        ensures
            s@ == decimal(self@),
    {
        match self.to_u128() {
            Some(n) => render_nat(n),
            None => {
                let below: u128 = self.complement().to_u128().unwrap();
                let digits: String = render_nat_succ(below);
                let mut s: String = "-".to_owned();
                s.append(digits.as_str());
                proof {
                    reveal_strlit("-");
                }
                s
            },
        }
    }

    /// Reads an integer written in base ten, with or without a minus sign,
    /// where it can be held.
    pub fn parse(s: &str) -> (r: Option<Value>)
        ensures
            r is Some <==> (signed_value(s@) matches Some(n) && -(u128::MAX as int) <= n
                <= u128::MAX),
            r matches Some(v) ==> signed_value(s@) == Some(v@),
    {
        let len: usize = s.unicode_len();
        if len > 0 && s.get_char(0) == '-' {
            let rest: &str = s.substring_char(1, len);
            match parse_nat(rest) {
                Some(n) => Value::from_u128(n).checked_neg(),
                None => None,
            }
        } else {
            match parse_nat(s) {
                Some(n) => Some(Value::from_u128(n)),
                None => None,
            }
        }
    }
}

} // verus!
