//! The primitive integer types an enumeration can be represented by.

use vstd::prelude::*;
use vstd::arithmetic::div_mod::{
    lemma_fundamental_div_mod, lemma_fundamental_div_mod_converse, lemma_mod_bound,
    lemma_mod_multiples_vanish,
};
use vstd::arithmetic::power2::{lemma2_to64, lemma_pow2_unfold, pow2};
use vstd::string::*;
use crate::ast::{Attribute, Ident, IdentView, Meta, Nested};
use crate::diagnostic::{error_report, Diagnostic};
use crate::span::Span;
use crate::text::{str_eq, strip_prefix, without_prefix};
use crate::value::Value;

verus! {

/// Whether an integer type has a sign.
#[derive(Clone, Copy, Debug, PartialEq, Eq, Structural)]
pub enum IntStyle {
    Signed,
    Unsigned,
}

/// The width of an integer type.
#[allow(non_camel_case_types)]
#[derive(Clone, Copy, Debug, PartialEq, Eq, Structural)]
pub enum IntSize {
    _8,
    _16,
    _32,
    _64,
    _128,
    /// As wide as a pointer.
    Size,
}

impl IntStyle {
    /// The letter an integer type of this style begins with.
    pub open spec fn spec_prefix(self) -> Seq<char> {
        match self {
            IntStyle::Signed => "i"@,
            IntStyle::Unsigned => "u"@,
        }
    }

    /// The letter an integer type of this style begins with.
    pub fn prefix(self) -> (s: &'static str)
        ensures
            s@ == self.spec_prefix(),
    {
        match self {
            IntStyle::Signed => "i",
            IntStyle::Unsigned => "u",
        }
    }
}

impl IntSize {
    /// What follows the first letter in the name of an integer type of this
    /// width.
    pub open spec fn spec_suffix(self) -> Seq<char> {
        match self {
            IntSize::_8 => "8"@,
            IntSize::_16 => "16"@,
            IntSize::_32 => "32"@,
            IntSize::_64 => "64"@,
            IntSize::_128 => "128"@,
            IntSize::Size => "size"@,
        }
    }

    /// What follows the first letter in the name of an integer type of this
    /// width.
    pub fn suffix(self) -> (s: &'static str)
        ensures
            s@ == self.spec_suffix(),
    {
        match self {
            IntSize::_8 => "8",
            IntSize::_16 => "16",
            IntSize::_32 => "32",
            IntSize::_64 => "64",
            IntSize::_128 => "128",
            IntSize::Size => "size",
        }
    }

    /// The place of this width among the widths, narrowest first, with the
    /// pointer width last.
    pub open spec fn rank(self) -> int {
        match self {
            IntSize::_8 => 0,
            IntSize::_16 => 1,
            IntSize::_32 => 2,
            IntSize::_64 => 3,
            IntSize::_128 => 4,
            IntSize::Size => 5,
        }
    }

    /// Whether this width comes no later than `other` among the widths.
    pub fn le(self, other: IntSize) -> (r: bool)
        ensures
            r == (self.rank() <= other.rank()),
    {
        self.index() <= other.index()
    }

    fn index(self) -> (r: u8)
        ensures
            r == self.rank(),
    {
        match self {
            IntSize::_8 => 0,
            IntSize::_16 => 1,
            IntSize::_32 => 2,
            IntSize::_64 => 3,
            IntSize::_128 => 4,
            IntSize::Size => 5,
        }
    }
}

/// One of the twelve primitive integer types.
#[derive(Clone, Copy, Debug, PartialEq, Eq, Structural)]
pub struct IntType {
    pub style: IntStyle,
    pub size: IntSize,
}

impl IntType {
    /// The name of the type, such as `i8` or `usize`.
    pub open spec fn spec_name(self) -> Seq<char> {
        self.style.spec_prefix() + self.size.spec_suffix()
    }

    /// The least integer of the type.
    pub open spec fn spec_min(self) -> int {
        match self.style {
            IntStyle::Unsigned => 0,
            IntStyle::Signed => match self.size {
                IntSize::_8 => i8::MIN as int,
                IntSize::_16 => i16::MIN as int,
                IntSize::_32 => i32::MIN as int,
                IntSize::_64 => i64::MIN as int,
                IntSize::_128 => i128::MIN as int,
                IntSize::Size => isize::MIN as int,
            },
        }
    }

    /// The greatest integer of the type.
    pub open spec fn spec_max(self) -> int {
        match self.style {
            IntStyle::Unsigned => match self.size {
                IntSize::_8 => u8::MAX as int,
                IntSize::_16 => u16::MAX as int,
                IntSize::_32 => u32::MAX as int,
                IntSize::_64 => u64::MAX as int,
                IntSize::_128 => u128::MAX as int,
                IntSize::Size => usize::MAX as int,
            },
            IntStyle::Signed => match self.size {
                IntSize::_8 => i8::MAX as int,
                IntSize::_16 => i16::MAX as int,
                IntSize::_32 => i32::MAX as int,
                IntSize::_64 => i64::MAX as int,
                IntSize::_128 => i128::MAX as int,
                IntSize::Size => isize::MAX as int,
            },
        }
    }

    /// How many binary places the type has.
    pub open spec fn spec_bits(self) -> nat {
        match self.size {
            IntSize::_8 => 8,
            IntSize::_16 => 16,
            IntSize::_32 => 32,
            IntSize::_64 => 64,
            IntSize::_128 => 128,
            IntSize::Size => usize::BITS as nat,
        }
    }

    /// Whether `n` is an integer of the type.
    pub open spec fn holds(self, n: int) -> bool {
        self.spec_min() <= n <= self.spec_max()
    }

    /// How many integers the type has.
    pub open spec fn spec_count(self) -> int {
        self.spec_max() - self.spec_min() + 1
    }

    /// The integer of the type that `n` turns into when the bits beyond the
    /// width of the type are cut off: the one that differs from `n` by a
    /// multiple of the number of integers of the type.
    pub open spec fn wrapped(self, n: int) -> int {
        self.spec_min() + (n - self.spec_min()) % self.spec_count()
    }

    /// The name of the type, such as `i8` or `usize`.
    pub fn name(self) -> (s: String)
        ensures
            s@ == self.spec_name(),
    {
        let mut s: String = self.style.prefix().to_owned();
        s.append(self.size.suffix());
        s
    }

    /// The least integer of the type.
    pub fn min(self) -> (v: Value)
        ensures
            v@ == self.spec_min(),
    {
        match self.style {
            IntStyle::Unsigned => Value::from_u128(0),
            IntStyle::Signed => match self.size {
                IntSize::_8 => Value::from_i128(i8::MIN as i128),
                IntSize::_16 => Value::from_i128(i16::MIN as i128),
                IntSize::_32 => Value::from_i128(i32::MIN as i128),
                IntSize::_64 => Value::from_i128(i64::MIN as i128),
                IntSize::_128 => Value::from_i128(i128::MIN),
                IntSize::Size => Value::from_i128(isize::MIN as i128),
            },
        }
    }

    /// The greatest integer of the type.
    pub fn max(self) -> (v: Value)
        ensures
            v@ == self.spec_max(),
    {
        match self.style {
            IntStyle::Unsigned => match self.size {
                IntSize::_8 => Value::from_u128(u8::MAX as u128),
                IntSize::_16 => Value::from_u128(u16::MAX as u128),
                IntSize::_32 => Value::from_u128(u32::MAX as u128),
                IntSize::_64 => Value::from_u128(u64::MAX as u128),
                IntSize::_128 => Value::from_u128(u128::MAX),
                IntSize::Size => Value::from_u128(usize::MAX as u128),
            },
            IntStyle::Signed => match self.size {
                IntSize::_8 => Value::from_i128(i8::MAX as i128),
                IntSize::_16 => Value::from_i128(i16::MAX as i128),
                IntSize::_32 => Value::from_i128(i32::MAX as i128),
                IntSize::_64 => Value::from_i128(i64::MAX as i128),
                IntSize::_128 => Value::from_i128(i128::MAX),
                IntSize::Size => Value::from_i128(isize::MAX as i128),
            },
        }
    }

    /// How many binary places the type has.
    pub fn bits(self) -> (r: u32)
        ensures
            r == self.spec_bits(),
    {
        match self.size {
            IntSize::_8 => 8,
            IntSize::_16 => 16,
            IntSize::_32 => 32,
            IntSize::_64 => 64,
            IntSize::_128 => 128,
            IntSize::Size => usize::BITS,
        }
    }

    /// Whether `v` is an integer of the type.
    pub fn contains(self, v: Value) -> (r: bool)
        ensures
            r == self.holds(v@),
    {
        v.within(self.min(), self.max())
    }

    /// Twice `v`, an integer of the type, with the bits beyond the width of
    /// the type cut off.
    pub fn wrapping_double(self, v: Value) -> (r: Value)
        requires
            self.holds(v@),
        ensures
            r@ == self.wrapped(2 * v@),
            self.holds(r@),
    {
        let ghost count: int = self.spec_count();
        let ghost low: int = self.spec_min();
        match self.style {
            IntStyle::Unsigned => {
                let top: u128 = self.max().to_u128().unwrap();
                let x: u128 = v.to_u128().unwrap();
                if x > top / 2 {
                    let n: u128 = 2 * (x - top / 2 - 1);
                    proof {
                        lemma_fundamental_div_mod_converse(2 * x, count, 1, n as int);
                    }
                    Value::from_u128(n)
                } else {
                    proof {
                        lemma_fundamental_div_mod_converse(2 * x, count, 0, 2 * x);
                    }
                    Value::from_u128(2 * x)
                }
            },
            IntStyle::Signed => {
                let top: i128 = self.max().to_i128().unwrap();
                let bottom: i128 = self.min().to_i128().unwrap();
                let x: i128 = v.to_i128().unwrap();
                if x > top / 2 {
                    let n: i128 = 2 * (x - top - 1);
                    proof {
                        lemma_fundamental_div_mod_converse(2 * x - low, count, 1, n - low);
                    }
                    Value::from_i128(n)
                } else if x < bottom / 2 {
                    let n: i128 = 2 * (x - bottom);
                    proof {
                        lemma_fundamental_div_mod_converse(2 * x - low, count, -1, n - low);
                    }
                    Value::from_i128(n)
                } else {
                    proof {
                        lemma_fundamental_div_mod_converse(2 * x - low, count, 0, 2 * x - low);
                    }
                    Value::from_i128(2 * x)
                }
            },
        }
    }

    /// `v`, an integer of the type, shifted left by `k` binary places, with
    /// the bits beyond the width of the type cut off.
    pub fn wrapping_shl(self, v: Value, k: u32) -> (r: Value)
        requires
            self.holds(v@),
            k < self.spec_bits(),
        ensures
            r@ == self.wrapped(v@ * pow2(k as nat)),
            self.holds(r@),
    {
        let mut cur: Value = v;
        let mut i: u32 = 0;
        proof {
            lemma2_to64();
            lemma_fundamental_div_mod_converse(v@ - self.spec_min(), self.spec_count(), 0, v@
                - self.spec_min());
        }
        while i < k
            invariant
                i <= k,
                self.holds(cur@),
                cur@ == self.wrapped(v@ * pow2(i as nat)),
            decreases k - i,
        {
            proof {
                lemma_pow2_unfold((i + 1) as nat);
                assert(v@ * (2 * pow2(i as nat)) == 2 * (v@ * pow2(i as nat))) by (nonlinear_arith);
                lemma_wrapped_double(self, v@ * pow2(i as nat));
            }
            cur = self.wrapping_double(cur);
            i = i + 1;
        }
        cur
    }

    /// The type that `name` names.
    ///
    /// The name is read as one letter for the style, `i` or `u`, and the
    /// width after it.
    pub fn parse(name: &str) -> (r: Option<IntType>)
        ensures
            r == type_named(name@),
            r matches Some(t) ==> name@ == t.spec_name(),
            r is None ==> forall|t: IntType| name@ != #[trigger] t.spec_name(),
    {
        proof {
            assert forall|t: IntType| true implies #[trigger] t.spec_name().len() >= 2
                && (t.spec_name()[0] == 'i' <==> t.style == IntStyle::Signed)
                && (t.spec_name()[0] == 'u' <==> t.style == IntStyle::Unsigned)
                && t.spec_name().subrange(1, t.spec_name().len() as int)
                == t.size.spec_suffix() by {
                lemma_name_parts(t);
            }
        }
        let n: usize = name.unicode_len();
        if n < 2 {
            return None;
        }
        let first: char = name.get_char(0);
        let style: IntStyle = if first == 'i' {
            IntStyle::Signed
        } else if first == 'u' {
            IntStyle::Unsigned
        } else {
            return None;
        };
        let rest: &str = name.substring_char(1, n);
        let size: IntSize = if str_eq(rest, "8") {
            IntSize::_8
        } else if str_eq(rest, "16") {
            IntSize::_16
        } else if str_eq(rest, "32") {
            IntSize::_32
        } else if str_eq(rest, "64") {
            IntSize::_64
        } else if str_eq(rest, "128") {
            IntSize::_128
        } else if str_eq(rest, "size") {
            IntSize::Size
        } else {
            return None;
        };
        let t: IntType = IntType { style, size };
        proof {
            let whole: Seq<char> = t.spec_name();
            assert(name@ =~= whole) by {
                assert(name@.len() == whole.len());
                assert forall|i: int| 0 <= i < whole.len() implies name@[i] == whole[i] by {
                    if i > 0 {
                        assert(name@[i] == rest@[i - 1]);
                        assert(whole[i] == whole.subrange(1, whole.len() as int)[i - 1]);
                    }
                }
            }
            let other: IntType = choose|o: IntType| o.spec_name() == name@;
            lemma_name_injective(other, t);
        }
        Some(t)
    }
}

/// What is left of an integer after its upper bits are cut off is an
/// integer of the type.
pub proof fn lemma_wrapped_in_range(ty: IntType, n: int)
    ensures
        ty.holds(ty.wrapped(n)),
{
    lemma_mod_bound(n - ty.spec_min(), ty.spec_count());
}

/// Doubling what is left of an integer after its upper bits are cut off
/// leaves, cut off again, what doubling the integer itself leaves.
pub proof fn lemma_wrapped_double(ty: IntType, n: int)
    ensures
        ty.wrapped(2 * ty.wrapped(n)) == ty.wrapped(2 * n),
{
    let count: int = ty.spec_count();
    let low: int = ty.spec_min();
    let q: int = (n - low) / count;
    lemma_fundamental_div_mod(n - low, count);
    assert(2 * (n - count * q) - low == (2 * n - low) + count * (-2 * q)) by (nonlinear_arith);
    lemma_mod_multiples_vanish(-2 * q, 2 * n - low, count);
}

/// The integer type called `name`, if there is one.
pub open spec fn type_named(name: Seq<char>) -> Option<IntType> {
    if exists|t: IntType| t.spec_name() == name {
        Some(choose|t: IntType| t.spec_name() == name)
    } else {
        None
    }
}

/// How the name of an integer type is made up: one letter that tells the
/// style, then the width.
pub proof fn lemma_name_parts(t: IntType)
    ensures
        t.spec_name().len() >= 2,
        t.spec_name()[0] == 'i' <==> t.style == IntStyle::Signed,
        t.spec_name()[0] == 'u' <==> t.style == IntStyle::Unsigned,
        t.spec_name().subrange(1, t.spec_name().len() as int) == t.size.spec_suffix(),
{
    reveal_strlit("i");
    reveal_strlit("u");
    reveal_strlit("8");
    reveal_strlit("16");
    reveal_strlit("32");
    reveal_strlit("64");
    reveal_strlit("128");
    reveal_strlit("size");
}

/// No two integer types share a name.
pub proof fn lemma_name_injective(a: IntType, b: IntType)
    requires
        a.spec_name() == b.spec_name(),
    ensures
        a == b,
{
    lemma_name_parts(a);
    lemma_name_parts(b);
    reveal_strlit("8");
    reveal_strlit("16");
    reveal_strlit("32");
    reveal_strlit("64");
    reveal_strlit("128");
    reveal_strlit("size");
    let sa: Seq<char> = a.size.spec_suffix();
    let sb: Seq<char> = b.size.spec_suffix();
    assert(sa == sb);
    if a.size != b.size {
        assert(sa.len() == sb.len());
        assert(sa[0] == sb[0]);
    }
}

/// The message for a representation that is no integer type.
pub const INVALID_REPR: &'static str =
    "invalid repr, expected one of:\n    i8, i16, i32, i64, i128, isize,\n    u8, u16, u32, u64, u128, usize";

/// The integer representation of an enumeration: the identifier that names
/// it in the declaration, and the integer type that the identifier names.
#[derive(Debug, PartialEq, Eq)]
pub struct Repr {
    pub ident: Ident,
    pub style: IntStyle,
    pub size: IntSize,
}

/// What a [`Repr`] says.
pub struct ReprView {
    pub ident: IdentView,
    pub ty: IntType,
}

impl View for Repr {
    type V = ReprView;

    open spec fn view(&self) -> ReprView {
        ReprView { ident: self.ident@, ty: IntType { style: self.style, size: self.size } }
    }
}

/// The representation that a meta item names, with the identifier that
/// names it: the item has to be a bare identifier that, without a leading
/// `r#`, is the name of an integer type.
pub open spec fn meta_repr(meta: Meta) -> Option<(Ident, IntType)> {
    match meta {
        Meta::Path(path) => match path.spec_get_ident() {
            Some(ident) => match type_named(without_prefix(ident.name@, "r#"@)) {
                Some(ty) => Some((ident, ty)),
                None => None,
            },
            None => None,
        },
        _ => None,
    }
}

/// The first of the items from position `from` on that names a
/// representation.
pub open spec fn first_repr(metas: Seq<Meta>, from: int) -> Option<(Ident, IntType)>
    decreases metas.len() - from,
{
    if from < 0 || from >= metas.len() {
        None
    } else {
        match meta_repr(metas[from]) {
            Some(hit) => Some(hit),
            None => first_repr(metas, from + 1),
        }
    }
}

/// What a scan of the attributes of a declaration finds.
pub enum Resolution {
    /// The identifier that names the representation, and the type it names.
    Found(Ident, IntType),
    /// No attribute names a representation.
    Absent,
    /// A `repr` attribute whose arguments cannot be read stands before any
    /// that names a representation.
    Malformed(Span, Seq<char>),
}

/// Scans the attributes from position `from` on. Only `repr` attributes
/// count, and among their items the first that names an integer type wins.
pub open spec fn resolve_repr(attrs: Seq<Attribute>, from: int) -> Resolution
    decreases attrs.len() - from,
{
    if from < 0 || from >= attrs.len() {
        Resolution::Absent
    } else if !attrs[from].path.spec_is_ident("repr"@) {
        resolve_repr(attrs, from + 1)
    } else {
        match attrs[from].nested {
            Nested::Invalid(span, message) => Resolution::Malformed(span, message@),
            Nested::Metas(metas) => match first_repr(metas@, 0) {
                Some((ident, ty)) => Resolution::Found(ident, ty),
                None => resolve_repr(attrs, from + 1),
            },
        }
    }
}

/// The representation taken where the declaration names none: `isize`.
pub open spec fn default_repr() -> ReprView {
    ReprView {
        ident: IdentView { name: "isize"@, span: Span::call_site() },
        ty: IntType { style: IntStyle::Signed, size: IntSize::Size },
    }
}

impl Repr {
    /// The integer type of the representation.
    pub fn int_type(&self) -> (t: IntType)
        ensures
            t == self@.ty,
    {
        IntType { style: self.style, size: self.size }
    }

    /// A copy of the representation.
    pub fn duplicate(&self) -> (r: Repr)
        ensures
            r@ == self@,
    {
        Repr { ident: self.ident.duplicate(), style: self.style, size: self.size }
    }

    /// The representation that `ident` names.
    ///
    /// The identifier has to be the name of an integer type as it stands;
    /// any other is an error at the identifier.
    pub fn from_ident(ident: &Ident) -> (r: Result<Repr, Diagnostic>)
        ensures
            match type_named(ident.name@) {
                Some(ty) => r matches Ok(repr) && repr@ == (ReprView { ident: ident@, ty }),
                None => r matches Err(d) && d@ == error_report(ident.span, INVALID_REPR@),
            },
    {
        match IntType::parse(ident.name.as_str()) {
            Some(ty) => Ok(Repr { ident: ident.duplicate(), style: ty.style, size: ty.size }),
            None => Err(Diagnostic::error(ident.span, INVALID_REPR)),
        }
    }

    /// The representation that the attributes of a declaration name.
    ///
    /// The first item of a `repr` attribute that names an integer type
    /// decides; other items, such as `C` or `align(4)`, and later integer
    /// types are passed over. A declaration that names no representation has
    /// `isize`. A `repr` attribute whose arguments cannot be read, met
    /// before a representation is found, is an error.
    pub fn from_attributes(attrs: &[Attribute]) -> (r: Result<Repr, Diagnostic>)
        ensures
            match resolve_repr(attrs@, 0) {
                Resolution::Found(ident, ty) => r matches Ok(repr) && repr@ == (ReprView {
                    ident: ident@,
                    ty,
                }),
                Resolution::Absent => r matches Ok(repr) && repr@ == default_repr(),
                Resolution::Malformed(span, message) => r matches Err(d) && d@ == error_report(
                    span,
                    message,
                ),
            },
    {
        let mut i: usize = 0;
        while i < attrs.len()
            invariant
                0 <= i <= attrs@.len(),
                resolve_repr(attrs@, 0) == resolve_repr(attrs@, i as int),
            decreases attrs@.len() - i,
        {
            let attr: &Attribute = &attrs[i];
            if attr.path.is_ident("repr") {
                match &attr.nested {
                    Nested::Invalid(span, message) => {
                        return Err(Diagnostic::error(*span, message.as_str()));
                    },
                    Nested::Metas(metas) => {
                        let mut j: usize = 0;
                        while j < metas.len()
                            invariant
                                0 <= j <= metas@.len(),
                                0 <= i < attrs@.len(),
                                resolve_repr(attrs@, 0) == resolve_repr(attrs@, i as int),
                                attrs@[i as int].path.spec_is_ident("repr"@),
                                attrs@[i as int].nested == Nested::Metas(*metas),
                                first_repr(metas@, 0) == first_repr(metas@, j as int),
                            decreases metas@.len() - j,
                        {
                            if let Meta::Path(path) = &metas[j] {
                                if let Some(ident) = path.get_ident() {
                                    let sym: &str = strip_prefix(ident.name.as_str(), "r#");
                                    if let Some(ty) = IntType::parse(sym) {
                                        return Ok(
                                            Repr {
                                                ident: ident.duplicate(),
                                                style: ty.style,
                                                size: ty.size,
                                            },
                                        );
                                    }
                                }
                            }
                            j = j + 1;
                        }
                    },
                }
            }
            i = i + 1;
        }
        Ok(
            Repr {
                ident: Ident::new("isize", Span::call_site()),
                style: IntStyle::Signed,
                size: IntSize::Size,
            },
        )
    }
}

} // verus!
