//! Taking an enumeration from and to a wire format.
//!
//! A decoder hands an integer over in a width of its own choosing, so the
//! generated visitor has one function for each width it may meet. A
//! function for a type that fits into the representation converts
//! directly. Any other checks the integer against the bounds of the
//! representation first. A signed representation also takes integers that
//! arrive unsigned, and checks those against its upper bound only.
//!
//! A wire format knows no integers as wide as a pointer. An enumeration
//! with such a representation goes onto the wire in the type of fixed width
//! that a pointer has where the generated code is compiled, and its visitor
//! has a set of functions for each width that a pointer can have there,
//! each set behind a guard on that width.

use vstd::prelude::*;
use vstd::arithmetic::div_mod::lemma_fundamental_div_mod_converse;
use vstd::arithmetic::power2::{
    lemma2_to64, lemma_pow2_adds, lemma_pow2_pos, lemma_pow2_strictly_increases,
    lemma_pow2_unfold, pow2,
};
use vstd::string::*;
use crate::convert::Table;
use crate::decimal::decimal;
use crate::error::IntEnumError;
use crate::expand::{
    impl_head, spec_impl_head, spec_target, spec_wrap_in_const, target, wrap_in_const,
};
use crate::input::Input;
use crate::repr::{IntSize, IntStyle, IntType};
use crate::value::Value;
use crate::wire::Wire;

verus! {

/// The widths that a pointer can have, narrowest first.
pub open spec fn pointer_sizes() -> Seq<IntSize> {
    seq![IntSize::_16, IntSize::_32, IntSize::_64]
}

/// The width that a pointer has where the engine runs.
pub open spec fn spec_pointer_size() -> IntSize {
    if usize::BITS == 16 {
        IntSize::_16
    } else if usize::BITS == 32 {
        IntSize::_32
    } else {
        IntSize::_64
    }
}

/// The type of fixed width that holds what `int_ty` holds where a pointer
/// is `pointer` wide: `int_ty` itself, unless it is as wide as a pointer.
pub open spec fn spec_actual(int_ty: IntType, pointer: IntSize) -> IntType {
    if int_ty.size == IntSize::Size {
        IntType { style: int_ty.style, size: pointer }
    } else {
        int_ty
    }
}

/// The width that a pointer has where the engine runs.
pub fn pointer_size() -> (s: IntSize)
    ensures
        s == spec_pointer_size(),
        pointer_sizes().contains(s),
{
    if usize::BITS == 16 {
        IntSize::_16
    } else if usize::BITS == 32 {
        IntSize::_32
    } else {
        IntSize::_64
    }
}

/// The type of fixed width that holds what `int_ty` holds where a pointer
/// is `pointer` wide.
pub fn actual(int_ty: IntType, pointer: IntSize) -> (t: IntType)
    ensures
        t == spec_actual(int_ty, pointer),
{
    match int_ty.size {
        IntSize::Size => IntType { style: int_ty.style, size: pointer },
        _ => int_ty,
    }
}

/// Where the engine runs, a type as wide as a pointer holds what the type
/// of that fixed width holds.
pub proof fn lemma_actual_holds_the_same(int_ty: IntType, n: int)
    ensures
        spec_actual(int_ty, spec_pointer_size()).holds(n) <==> int_ty.holds(n),
        spec_actual(int_ty, spec_pointer_size()).spec_min() == int_ty.spec_min(),
        spec_actual(int_ty, spec_pointer_size()).spec_max() == int_ty.spec_max(),
        spec_actual(int_ty, spec_pointer_size()).size != IntSize::Size,
{
}

/// Whether the visitor for a representation that is `int_ty` in its fixed
/// width has a function for integers that arrive as `visit_ty`.
///
/// Neither type may be as wide as a pointer, and an unsigned representation
/// takes no integers that arrive signed.
pub open spec fn visits(int_ty: IntType, visit_ty: IntType) -> bool {
    int_ty.size != IntSize::Size && visit_ty.size != IntSize::Size && (int_ty.style
        == IntStyle::Signed || visit_ty.style == IntStyle::Unsigned)
}

/// Whether every integer of `visit_ty` is one of `int_ty` by the look of the
/// two types: the same style, and no wider.
pub open spec fn fits(int_ty: IntType, visit_ty: IntType) -> bool {
    int_ty.style == visit_ty.style && visit_ty.size.rank() <= int_ty.size.rank()
}

/// The upper bound that a checking function compares with: the greatest
/// integer of the representation, cut down to what `visit_ty` can hold.
pub open spec fn shown_max(int_ty: IntType, visit_ty: IntType) -> int {
    if int_ty.spec_max() <= visit_ty.spec_max() {
        int_ty.spec_max()
    } else {
        visit_ty.spec_max()
    }
}

/// Whether a function that checks compares with the lower bound too, going
/// by the styles alone. It does unless the integer arrives unsigned for a
/// signed representation.
pub open spec fn compares_min(int_ty: IntType, visit_ty: IntType) -> bool {
    !(int_ty.style == IntStyle::Signed && visit_ty.style == IntStyle::Unsigned)
}

/// Whether the function for `visit_ty` lets `n` through to the conversion.
pub open spec fn accepts(int_ty: IntType, visit_ty: IntType, n: int) -> bool {
    fits(int_ty, visit_ty) || ((compares_min(int_ty, visit_ty) ==> int_ty.spec_min() <= n) && n
        <= shown_max(int_ty, visit_ty))
}

/// The upper bound as a checking function writes it: the greatest integer
/// of `bound`, cast to `visit_ty`, which cuts off the bits that `visit_ty`
/// has no room for.
pub open spec fn cast_max(bound: IntType, visit_ty: IntType) -> int {
    visit_ty.wrapped(bound.spec_max())
}

/// The lower bound as a checking function writes it: the least integer of
/// `bound`, cast to `visit_ty` where the function compares with it, and as
/// it is where the function only shows it.
pub open spec fn cast_min(bound: IntType, visit_ty: IntType) -> int {
    if compares_min(bound, visit_ty) {
        visit_ty.wrapped(bound.spec_min())
    } else {
        bound.spec_min()
    }
}

/// How many binary places a type of fixed width has for the size of an
/// integer: all of them, less one for the sign where it has one.
spec fn places(ty: IntType) -> nat {
    let bits: nat = match ty.size {
        IntSize::_8 => 8,
        IntSize::_16 => 16,
        IntSize::_32 => 32,
        IntSize::_64 => 64,
        _ => 128,
    };
    match ty.style {
        IntStyle::Signed => (bits - 1) as nat,
        IntStyle::Unsigned => bits,
    }
}

/// The bounds of a type of fixed width, and the number of its integers, as
/// powers of two.
proof fn lemma_shape(ty: IntType)
    requires
        ty.size != IntSize::Size,
    ensures
        ty.spec_max() == pow2(places(ty)) - 1,
        ty.style == IntStyle::Signed ==> ty.spec_min() == -pow2(places(ty)) && ty.spec_count()
            == pow2(places(ty) + 1) && pow2(places(ty) + 1) == 2 * pow2(places(ty)),
        ty.style == IntStyle::Unsigned ==> ty.spec_min() == 0 && ty.spec_count() == pow2(
            places(ty),
        ),
{
    lemma2_to64();
    lemma_pow2_adds(64, 63);
    lemma_pow2_adds(64, 64);
    lemma_pow2_unfold(8);
    lemma_pow2_unfold(16);
    lemma_pow2_unfold(32);
    lemma_pow2_unfold(64);
    lemma_pow2_unfold(128);
}

/// A type with a greater power of two has more places.
proof fn lemma_more_places(a: nat, b: nat)
    requires
        pow2(a) > pow2(b),
    ensures
        a > b,
{
    if a < b {
        lemma_pow2_strictly_increases(a, b);
    }
}

/// What the two bounds come to once they are cast: a bound that `visit_ty`
/// holds stays as it is; of a greater one only ones are left, which is the
/// greatest integer of an unsigned type and -1 in a signed one; of a lesser
/// one only zeros are left.
pub proof fn lemma_cast_bounds(bound: IntType, visit_ty: IntType)
    requires
        bound.size != IntSize::Size,
        visit_ty.size != IntSize::Size,
    ensures
        cast_max(bound, visit_ty) == (if bound.spec_max() <= visit_ty.spec_max() {
            bound.spec_max()
        } else if visit_ty.style == IntStyle::Unsigned {
            visit_ty.spec_max()
        } else {
            -1
        }),
        cast_min(bound, visit_ty) == (if !compares_min(bound, visit_ty) || visit_ty.spec_min()
            <= bound.spec_min() {
            bound.spec_min()
        } else {
            0
        }),
{
    lemma_shape(bound);
    lemma_shape(visit_ty);
    let a: nat = places(bound);
    let w: nat = places(visit_ty);
    let count: int = visit_ty.spec_count();
    let low: int = visit_ty.spec_min();
    let top: int = bound.spec_max();
    let bottom: int = bound.spec_min();
    lemma_pow2_pos(a);
    lemma_pow2_pos(w);
    if top <= visit_ty.spec_max() {
        lemma_fundamental_div_mod_converse(top - low, count, 0, top - low);
    } else {
        lemma_more_places(a, w);
        let rest: nat = (a - w) as nat;
        lemma_pow2_adds(w, rest);
        lemma_pow2_pos(rest);
        let p: int = pow2(w) as int;
        let q: int = pow2(rest) as int;
        if visit_ty.style == IntStyle::Unsigned {
            assert(p * q - 1 == (q - 1) * p + (p - 1)) by (nonlinear_arith);
            lemma_fundamental_div_mod_converse(top - low, count, q - 1, p - 1);
        } else {
            let less: nat = (rest - 1) as nat;
            lemma_pow2_unfold(rest);
            lemma_pow2_pos(less);
            let h: int = pow2(less) as int;
            assert(p * (2 * h) - 1 + p == h * (2 * p) + (p - 1)) by (nonlinear_arith);
            lemma_fundamental_div_mod_converse(top - low, count, h, p - 1);
        }
    }
    if compares_min(bound, visit_ty) {
        if low <= bottom {
            lemma_fundamental_div_mod_converse(bottom - low, count, 0, bottom - low);
        } else {
            lemma_more_places(a, w);
            let rest: nat = (a - w) as nat;
            lemma_pow2_adds(w, rest);
            let p: int = pow2(w) as int;
            let q: int = pow2(rest) as int;
            let less: nat = (rest - 1) as nat;
            lemma_pow2_unfold(rest);
            lemma_pow2_pos(less);
            let h: int = pow2(less) as int;
            assert(-(p * (2 * h)) + p == (-h) * (2 * p) + p) by (nonlinear_arith);
            lemma_fundamental_div_mod_converse(bottom - low, count, -h, p);
        }
    }
}

/// For a function of a visitor, the bounds as they are written are the
/// bounds of the representation, the upper one cut down to what the type of
/// the function can hold.
pub proof fn lemma_cast_bounds_of_visitor(int_ty: IntType, visit_ty: IntType)
    requires
        visits(int_ty, visit_ty),
        !fits(int_ty, visit_ty),
    ensures
        cast_max(int_ty, visit_ty) == shown_max(int_ty, visit_ty),
        cast_min(int_ty, visit_ty) == int_ty.spec_min(),
{
    lemma_cast_bounds(int_ty, visit_ty);
}

/// What the body of a visitor function does.
#[derive(Clone, Copy, Debug, PartialEq, Eq, Structural)]
pub enum VisitBody {
    /// Converts the integer directly.
    Direct,
    /// Compares the integer with the bounds, and converts it where it lies
    /// within them.
    Bounded { min: Value, max: Value, checks_min: bool },
}

/// The place of a function in a visitor.
#[derive(Clone, Copy, Debug, PartialEq, Eq, Structural)]
pub struct Slot {
    /// The width of a pointer that the function is written for, where it
    /// is written for one only.
    pub guard: Option<IntSize>,
    /// The representation as it is declared.
    pub int_ty: IntType,
    /// The representation in the fixed width that it has there.
    pub actual: IntType,
    /// The type of the integers that the function takes.
    pub visit_ty: IntType,
}

/// One function of the generated visitor.
#[derive(Clone, Copy, Debug, PartialEq, Eq, Structural)]
pub struct VisitFn {
    slot: Slot,
    body: VisitBody,
}

impl VisitFn {
    #[verifier::type_invariant]
    spec fn inv(self) -> bool {
        self.written()
    }

    /// The place of the function in its visitor.
    pub closed spec fn spec_slot(self) -> Slot {
        self.slot
    }

    /// The representation that the function converts to, in its fixed
    /// width.
    pub open spec fn spec_actual(self) -> IntType {
        self.spec_slot().actual
    }

    /// The type of the integers that the function takes.
    pub open spec fn spec_visit_ty(self) -> IntType {
        self.spec_slot().visit_ty
    }

    /// What the body of the function does.
    pub closed spec fn spec_body(self) -> VisitBody {
        self.body
    }

    /// The type whose bounds the function writes: the representation, in
    /// the fixed width of the function where it is as wide as a pointer.
    pub open spec fn spec_bound(self) -> IntType {
        spec_actual(self.spec_slot().int_ty, self.spec_actual().size)
    }

    /// Whether the body is the one that is written for the place of the
    /// function, whatever the place.
    ///
    /// The function converts directly where its type has the style of the
    /// representation and is no wider than the width it is written for.
    /// Otherwise it compares with the bounds of the representation, cast
    /// to its own type.
    pub open spec fn written(self) -> bool {
        &&& self.spec_actual().size != IntSize::Size
        &&& self.spec_visit_ty().size != IntSize::Size
        &&& self.spec_actual().style == self.spec_slot().int_ty.style
        &&& match self.spec_body() {
            VisitBody::Direct => fits(self.spec_actual(), self.spec_visit_ty()),
            VisitBody::Bounded { min, max, checks_min: lower } => {
                &&& !fits(self.spec_actual(), self.spec_visit_ty())
                &&& min@ == cast_min(self.spec_bound(), self.spec_visit_ty())
                &&& max@ == cast_max(self.spec_bound(), self.spec_visit_ty())
                &&& lower == compares_min(self.spec_bound(), self.spec_visit_ty())
            },
        }
    }

    /// Whether the function lets `n` through to the conversion.
    pub open spec fn spec_lets_through(self, n: int) -> bool {
        match self.spec_body() {
            VisitBody::Direct => true,
            VisitBody::Bounded { min, max, checks_min: lower } => (lower ==> min@ <= n) && n
                <= max@,
        }
    }

    /// Whether the function is the one that the visitor for its
    /// representation has for its type.
    pub open spec fn planned(self) -> bool {
        &&& is_actual_size(self.spec_slot().int_ty, self.spec_actual().size)
        &&& self.spec_actual().style == self.spec_slot().int_ty.style
        &&& visits(self.spec_actual(), self.spec_visit_ty())
        &&& self.spec_slot().guard matches Some(pointer) ==> pointer == self.spec_actual().size
        &&& match self.spec_body() {
            VisitBody::Direct => fits(self.spec_actual(), self.spec_visit_ty()),
            VisitBody::Bounded { min, max, checks_min: lower } => {
                &&& !fits(self.spec_actual(), self.spec_visit_ty())
                &&& min@ == self.spec_actual().spec_min()
                &&& max@ == shown_max(self.spec_actual(), self.spec_visit_ty())
                &&& lower == compares_min(self.spec_actual(), self.spec_visit_ty())
            },
        }
    }

    /// The place of the function in its visitor.
    pub fn slot(&self) -> (s: Slot)
        ensures
            s == self.spec_slot(),
    {
        self.slot
    }

    /// The representation that the function converts to, in its fixed
    /// width.
    pub fn actual(&self) -> (t: IntType)
        ensures
            t == self.spec_actual(),
    {
        self.slot.actual
    }

    /// The type of the integers that the function takes.
    pub fn visit_ty(&self) -> (t: IntType)
        ensures
            t == self.spec_visit_ty(),
    {
        self.slot.visit_ty
    }

    /// What the body of the function does.
    pub fn body(&self) -> (b: VisitBody)
        ensures
            b == self.spec_body(),
            self.written(),
    {
        proof {
            use_type_invariant(self);
        }
        self.body
    }

    /// Whether the function lets `v` through to the conversion.
    pub fn lets_through(&self, v: Value) -> (r: bool)
        ensures
            r == self.spec_lets_through(v@),
            self.planned() ==> r == accepts(self.spec_actual(), self.spec_visit_ty(), v@),
    {
        match self.body {
            VisitBody::Direct => true,
            VisitBody::Bounded { min, max, checks_min: lower } => {
                if lower {
                    min.le(v) && v.le(max)
                } else {
                    v.le(max)
                }
            },
        }
    }
}

/// Whether `actual_int_size` is a width that the representation `int_ty`
/// can have: its own, or for one as wide as a pointer, one of the widths of
/// a pointer.
pub open spec fn is_actual_size(int_ty: IntType, actual_int_size: IntSize) -> bool {
    if int_ty.size == IntSize::Size {
        pointer_sizes().contains(actual_int_size)
    } else {
        actual_int_size == int_ty.size
    }
}

/// The place of the function that the visitor for the representation
/// `int_ty`, in the width `actual_int_size`, has for integers that arrive
/// as `visit_ty`.
pub open spec fn slot_of(int_ty: IntType, actual_int_size: IntSize, visit_ty: IntType) -> Slot {
    Slot {
        guard: if int_ty.size == IntSize::Size {
            Some(actual_int_size)
        } else {
            None
        },
        int_ty,
        actual: IntType { style: int_ty.style, size: actual_int_size },
        visit_ty,
    }
}

/// The function that is written for the representation `int_ty`, in the
/// width `actual_int_size`, and for integers that arrive in the type of
/// style `visit_ty_style` and width `visit_ty_size`.
///
/// There is one for every representation and every pair of fixed widths,
/// whether the visitor for the representation has it or not. There is none
/// for a width that is that of a pointer, of which a wire format knows
/// nothing.
pub fn visit_fn(
    int_ty: IntType,
    actual_int_size: IntSize,
    visit_ty_style: IntStyle,
    visit_ty_size: IntSize,
) -> (r: Option<VisitFn>)
    ensures
        r is Some <==> actual_int_size != IntSize::Size && visit_ty_size != IntSize::Size,
        r matches Some(f) ==> f.written() && f.spec_slot() == slot_of(
            int_ty,
            actual_int_size,
            IntType { style: visit_ty_style, size: visit_ty_size },
        ),
        r matches Some(f) ==> (f.planned() <==> is_actual_size(int_ty, actual_int_size) && visits(
            IntType { style: int_ty.style, size: actual_int_size },
            IntType { style: visit_ty_style, size: visit_ty_size },
        )),
{
    let visit_ty: IntType = IntType { style: visit_ty_style, size: visit_ty_size };
    let fixed: IntType = IntType { style: int_ty.style, size: actual_int_size };
    match actual_int_size {
        IntSize::Size => {
            return None;
        },
        _ => {},
    }
    match visit_ty_size {
        IntSize::Size => {
            return None;
        },
        _ => {},
    }
    let guard: Option<IntSize> = match int_ty.size {
        IntSize::Size => Some(actual_int_size),
        _ => None,
    };
    let bound: IntType = actual(int_ty, actual_int_size);
    let same_style: bool = match (int_ty.style, visit_ty_style) {
        (IntStyle::Signed, IntStyle::Signed) => true,
        (IntStyle::Unsigned, IntStyle::Unsigned) => true,
        _ => false,
    };
    let lower: bool = match (int_ty.style, visit_ty_style) {
        (IntStyle::Signed, IntStyle::Unsigned) => false,
        _ => true,
    };
    proof {
        lemma_cast_bounds(bound, visit_ty);
        if is_actual_size(int_ty, actual_int_size) {
            assert(bound == fixed);
            if visits(fixed, visit_ty) && !fits(fixed, visit_ty) {
                lemma_cast_bounds_of_visitor(fixed, visit_ty);
            }
        }
    }
    let body: VisitBody = if same_style && visit_ty_size.le(actual_int_size) {
        VisitBody::Direct
    } else {
        let top: Value = bound.max();
        let reach: Value = visit_ty.max();
        let max: Value = if top.le(reach) {
            top
        } else {
            match visit_ty_style {
                IntStyle::Unsigned => reach,
                IntStyle::Signed => Value::from_i128(-1),
            }
        };
        let bottom: Value = bound.min();
        let min: Value = if !lower || visit_ty.min().le(bottom) {
            bottom
        } else {
            Value::from_u128(0)
        };
        VisitBody::Bounded { min, max, checks_min: lower }
    };
    Some(VisitFn { slot: Slot { guard, int_ty, actual: fixed, visit_ty }, body })
}

/// The fixed widths, narrowest first.
pub open spec fn sizes() -> Seq<IntSize> {
    seq![IntSize::_8, IntSize::_16, IntSize::_32, IntSize::_64, IntSize::_128]
}

/// The types for which the visitor for a representation of the given
/// style has a function, in the order of the functions: the widths from the
/// narrowest to the widest, and for a signed representation each width
/// signed first and unsigned after it.
pub open spec fn visit_types(style: IntStyle) -> Seq<IntType> {
    match style {
        IntStyle::Signed => Seq::new(
            10,
            |k: int|
                IntType {
                    style: if k % 2 == 0 {
                        IntStyle::Signed
                    } else {
                        IntStyle::Unsigned
                    },
                    size: sizes()[k / 2],
                },
        ),
        IntStyle::Unsigned => Seq::new(
            5,
            |k: int| IntType { style: IntStyle::Unsigned, size: sizes()[k] },
        ),
    }
}

/// The places of the functions that the visitor for the representation
/// `int_ty` has in the width `actual_int_size`, in their order.
pub open spec fn slots_for(int_ty: IntType, actual_int_size: IntSize) -> Seq<Slot> {
    Seq::new(
        visit_types(int_ty.style).len(),
        |k: int| slot_of(int_ty, actual_int_size, visit_types(int_ty.style)[k]),
    )
}

/// The places of all the functions of the visitor for the representation
/// `int_ty`, in their order. For a representation as wide as a pointer
/// these are the places for each width of a pointer, the narrowest first.
pub open spec fn slots(int_ty: IntType) -> Seq<Slot> {
    if int_ty.size == IntSize::Size {
        slots_for(int_ty, IntSize::_16) + slots_for(int_ty, IntSize::_32) + slots_for(
            int_ty,
            IntSize::_64,
        )
    } else {
        slots_for(int_ty, int_ty.size)
    }
}

/// Whether `fns` are the functions for the places `places`, in their order.
pub open spec fn fills(fns: Seq<VisitFn>, places: Seq<Slot>) -> bool {
    &&& fns.len() == places.len()
    &&& forall|k: int|
        0 <= k < fns.len() ==> (#[trigger] fns[k]).planned() && fns[k].spec_slot() == places[k]
}

/// Whether `fns` are the functions of the visitor for the representation
/// `int_ty`, in their order.
pub open spec fn is_visitor_of(fns: Seq<VisitFn>, int_ty: IntType) -> bool {
    fills(fns, slots(int_ty))
}

fn size_at(k: usize) -> (s: IntSize)
    requires
        k < 5,
    ensures
        s == sizes()[k as int],
{
    if k == 0 {
        IntSize::_8
    } else if k == 1 {
        IntSize::_16
    } else if k == 2 {
        IntSize::_32
    } else if k == 3 {
        IntSize::_64
    } else {
        IntSize::_128
    }
}

/// The functions that the visitor for the representation `int_ty` has in
/// the width `actual_int_size`, in their order.
fn visit_fns_for(int_ty: IntType, actual_int_size: IntSize) -> (fns: Vec<VisitFn>)
    requires
        is_actual_size(int_ty, actual_int_size),
    ensures
        fills(fns@, slots_for(int_ty, actual_int_size)),
{
    let mut fns: Vec<VisitFn> = Vec::new();
    let signed: bool = match int_ty.style {
        IntStyle::Signed => true,
        IntStyle::Unsigned => false,
    };
    let mut k: usize = 0;
    while k < 5
        invariant
            0 <= k <= 5,
            is_actual_size(int_ty, actual_int_size),
            actual_int_size != IntSize::Size,
            signed == (int_ty.style == IntStyle::Signed),
            fns@.len() == (if signed {
                2 * k
            } else {
                k as int
            }),
            forall|j: int|
                0 <= j < fns@.len() ==> (#[trigger] fns@[j]).planned() && fns@[j].spec_slot()
                    == slots_for(int_ty, actual_int_size)[j],
        decreases 5 - k,
    {
        let visit_size: IntSize = size_at(k);
        match visit_fn(int_ty, actual_int_size, int_ty.style, visit_size) {
            Some(f) => {
                fns.push(f);
            },
            None => {},
        }
        if signed {
            match visit_fn(int_ty, actual_int_size, IntStyle::Unsigned, visit_size) {
                Some(f) => {
                    fns.push(f);
                },
                None => {},
            }
        }
        k = k + 1;
    }
    fns
}

/// The functions of the visitor for a representation as wide as a pointer:
/// those for each width that a pointer can have, the narrowest first.
pub fn visit_fns_ptr_size(int_ty: IntType) -> (fns: Vec<VisitFn>)
    requires
        int_ty.size == IntSize::Size,
    ensures
        is_visitor_of(fns@, int_ty),
{
    let mut all_fns: Vec<VisitFn> = visit_fns_for(int_ty, IntSize::_16);
    let mut fns: Vec<VisitFn> = visit_fns_for(int_ty, IntSize::_32);
    all_fns.append(&mut fns);
    let mut fns: Vec<VisitFn> = visit_fns_for(int_ty, IntSize::_64);
    all_fns.append(&mut fns);
    all_fns
}

/// The functions of the visitor for the representation `int_ty`, in their
/// order.
pub fn visit_fns(int_ty: IntType) -> (fns: Vec<VisitFn>)
    ensures
        is_visitor_of(fns@, int_ty),
{
    match int_ty.size {
        IntSize::Size => visit_fns_ptr_size(int_ty),
        _ => visit_fns_for(int_ty, int_ty.size),
    }
}

/// Why an integer from the wire did not become a variant.
#[derive(Debug, PartialEq, Eq)]
pub enum DeError {
    /// The integer is one of the representation, but no variant stands for
    /// it.
    Unknown(IntEnumError),
    /// The integer lies outside the bounds that it was compared with.
    OutOfRange { value: Value, min: Value, max: Value },
    /// The integer arrived in a type that the visitor has no function for.
    /// `expected` says what the visitor does take.
    InvalidType { value: Value, expected: String },
}

/// What the error for an integer outside the bounds says.
pub open spec fn spec_out_of_range(value: int, min: int, max: int) -> Seq<char> {
    "unknown variant `"@ + decimal(value) + "`, out of range ["@ + decimal(min) + ", "@ + decimal(
        max,
    ) + "]"@
}

/// What the error for an integer that arrived in a type without a function
/// says.
pub open spec fn spec_invalid_type(value: int, expected: Seq<char>) -> Seq<char> {
    "invalid type: integer `"@ + decimal(value) + "`, expected "@ + expected
}

/// What the visitor for the representation written `int_ty` says it takes.
pub open spec fn spec_expecting(int_ty: Seq<char>) -> Seq<char> {
    int_ty + " integer"@
}

impl DeError {
    /// What the error says.
    pub open spec fn spec_message(&self) -> Seq<char> {
        match self {
            DeError::Unknown(e) => e.spec_message(),
            DeError::OutOfRange { value, min, max } => spec_out_of_range(value@, min@, max@),
            DeError::InvalidType { value, expected } => spec_invalid_type(value@, expected@),
        }
    }

    /// What the error says.
    pub fn to_string(&self) -> (s: String)
        ensures
            s@ == self.spec_message(),
    {
        match self {
            DeError::Unknown(e) => e.to_string(),
            DeError::OutOfRange { value, min, max } => {
                let mut s: String = "unknown variant `".to_owned();
                let shown: String = value.to_string();
                s.append(shown.as_str());
                s.append("`, out of range [");
                let low: String = min.to_string();
                s.append(low.as_str());
                s.append(", ");
                let high: String = max.to_string();
                s.append(high.as_str());
                s.append("]");
                s
            },
            DeError::InvalidType { value, expected } => {
                let mut s: String = "invalid type: integer `".to_owned();
                let shown: String = value.to_string();
                s.append(shown.as_str());
                s.append("`, expected ");
                s.append(expected.as_str());
                s
            },
        }
    }
}

/// How taking an integer from the wire ends.
pub enum Decoded {
    /// With the variant at this position.
    Variant(int),
    /// With the error that no variant stands for the integer.
    Unknown(int),
    /// With the error that the integer lies outside the bounds.
    OutOfRange { value: int, min: int, max: int },
    /// With the error that the visitor has no function for the type.
    InvalidType(int),
}

/// The ending that `r` stands for.
pub open spec fn outcome(r: Result<usize, DeError>) -> Decoded {
    match r {
        Ok(i) => Decoded::Variant(i as int),
        Err(DeError::Unknown(e)) => Decoded::Unknown(e.spec_value()@),
        Err(DeError::OutOfRange { value, min, max }) => Decoded::OutOfRange {
            value: value@,
            min: min@,
            max: max@,
        },
        Err(DeError::InvalidType { value, .. }) => Decoded::InvalidType(value@),
    }
}

/// Where every integer of `visit_ty` is one of `int_ty` by the look of the
/// types, it is so.
pub proof fn lemma_fits_is_inclusion(int_ty: IntType, visit_ty: IntType, n: int)
    requires
        int_ty.size != IntSize::Size,
        fits(int_ty, visit_ty),
        visit_ty.holds(n),
    ensures
        int_ty.holds(n),
{
}

/// The check that a visitor function makes is the check for the bounds of
/// the representation: an integer that arrives in a type is let through
/// exactly when it is an integer of the representation.
pub proof fn lemma_accepts_is_range_check(int_ty: IntType, visit_ty: IntType, n: int)
    requires
        visits(int_ty, visit_ty),
        visit_ty.holds(n),
    ensures
        accepts(int_ty, visit_ty, n) <==> int_ty.holds(n),
{
    if fits(int_ty, visit_ty) {
        lemma_fits_is_inclusion(int_ty, visit_ty, n);
    }
}

impl Table {
    /// The representation in the fixed width that it has where the engine
    /// runs.
    pub open spec fn actual(&self) -> IntType {
        spec_actual(self.ty(), spec_pointer_size())
    }

    /// How the visitor ends on an integer that arrives as `wire`.
    ///
    /// An integer outside the representation ends in the error that names
    /// the bounds, whatever width it arrived in. An integer of the
    /// representation ends as its conversion does.
    pub open spec fn spec_deserialize(&self, wire: Wire) -> Decoded {
        let n: int = wire.spec_value();
        if !visits(self.actual(), wire.spec_ty()) {
            Decoded::InvalidType(n)
        } else if !self.ty().holds(n) {
            Decoded::OutOfRange {
                value: n,
                min: self.ty().spec_min(),
                max: shown_max(self.actual(), wire.spec_ty()),
            }
        } else {
            match self.spec_from_int(n) {
                Some(i) => Decoded::Variant(i),
                None => Decoded::Unknown(n),
            }
        }
    }

    /// How the visitor function `f` ends on the integer `n`.
    pub open spec fn spec_visit(&self, f: VisitFn, n: int) -> Decoded {
        if accepts(f.spec_actual(), f.spec_visit_ty(), n) {
            match self.spec_from_int(n) {
                Some(i) => Decoded::Variant(i),
                None => Decoded::Unknown(n),
            }
        } else {
            Decoded::OutOfRange {
                value: n,
                min: f.spec_actual().spec_min(),
                max: shown_max(f.spec_actual(), f.spec_visit_ty()),
            }
        }
    }

    /// Runs the visitor function `f`, which has to be one that a visitor
    /// has, on the integer `v`.
    pub fn visit(&self, f: &VisitFn, v: Value) -> (r: Result<usize, DeError>)
        requires
            f.planned(),
        ensures
            outcome(r) == self.spec_visit(*f, v@),
            r matches Err(DeError::Unknown(e)) ==> e.spec_value() == v && e.spec_target()
                == self.target(),
            r matches Err(DeError::OutOfRange { value, .. }) ==> value == v,
    {
        match f.body() {
            VisitBody::Direct => match self.from_int(v) {
                Ok(i) => Ok(i),
                Err(e) => Err(DeError::Unknown(e)),
            },
            VisitBody::Bounded { min, max, checks_min: _ } => {
                if f.lets_through(v) {
                    match self.from_int(v) {
                        Ok(i) => Ok(i),
                        Err(e) => Err(DeError::Unknown(e)),
                    }
                } else {
                    Err(DeError::OutOfRange { value: v, min, max })
                }
            },
        }
    }

    /// Takes the integer that arrives as `wire` to the variant that stands
    /// for it.
    pub fn deserialize(&self, wire: Wire) -> (r: Result<usize, DeError>)
        ensures
            outcome(r) == self.spec_deserialize(wire),
            r matches Err(DeError::Unknown(e)) ==> e.spec_value()@ == wire.spec_value()
                && e.spec_target() == self.target(),
            r matches Err(DeError::InvalidType { expected, .. }) ==> expected@ == spec_expecting(
                self.repr(),
            ),
    {
        let visit_ty: IntType = wire.ty();
        let v: Value = wire.value();
        let int_ty: IntType = self.int_type();
        let fixed: IntType = actual(int_ty, pointer_size());
        let taken: bool = match (fixed.style, visit_ty.style) {
            (IntStyle::Unsigned, IntStyle::Signed) => false,
            _ => true,
        };
        if taken {
            match visit_fn(int_ty, fixed.size, visit_ty.style, visit_ty.size) {
                Some(f) => {
                    return self.visit(&f, v);
                },
                None => {},
            }
        }
        let mut expected: String = self.repr_name().to_owned();
        expected.append(" integer");
        Err(DeError::InvalidType { value: v, expected })
    }

    /// The integer that the variant at position `variant` goes onto the
    /// wire as: its discriminant, in the representation in the fixed width
    /// that it has where the engine runs.
    pub fn serialize(&self, variant: usize) -> (w: Wire)
        requires
            variant < self.values().len(),
        ensures
            w.spec_ty() == self.actual(),
            w.spec_value() == self.spec_int_value(variant as int),
    {
        let v: Value = self.int_value(variant);
        Wire::new(actual(self.int_type(), pointer_size()), v).unwrap()
    }
}

/// Which of the two directions a call into the wire format goes.
#[derive(Clone, Copy, Debug, PartialEq, Eq, Structural)]
pub enum Direction {
    Serialize,
    Deserialize,
}

/// The guard that lets what follows it through where a pointer is `pointer`
/// wide.
pub open spec fn spec_guard(pointer: IntSize) -> Seq<char> {
    "#[cfg(target_pointer_width = \""@ + pointer.spec_suffix() + "\")]\n"@
}

/// The call that hands the integer `n`, as the type written `cast`, to the
/// serializer, or the visitor to the deserializer, for the type called
/// `name`.
pub open spec fn spec_call(direction: Direction, cast: Seq<char>, name: Seq<char>) -> Seq<char> {
    match direction {
        Direction::Serialize => "serializer.serialize_"@ + name + "(n as "@ + cast + ")"@,
        Direction::Deserialize => "deserializer.deserialize_"@ + name + "(Visitor)"@,
    }
}

/// The call into the wire format for a representation of the given style,
/// in a block behind the guard for pointers that are `pointer` wide.
pub open spec fn spec_guarded_call(direction: Direction, style: IntStyle, pointer: IntSize) -> Seq<
    char,
> {
    spec_guard(pointer) + "        {\n            "@ + spec_call(
        direction,
        (IntType { style, size: pointer }).spec_name(),
        (IntType { style, size: pointer }).spec_name(),
    ) + "\n        }"@
}

/// The call into the wire format for the representation `ty`, written
/// `int_ty`. For a representation as wide as a pointer there is one call
/// for each width of a pointer, each behind its guard.
pub open spec fn spec_serde_fn(direction: Direction, int_ty: Seq<char>, ty: IntType) -> Seq<char> {
    if ty.size == IntSize::Size {
        spec_guarded_call(direction, ty.style, IntSize::_16) + "\n        "@ + spec_guarded_call(
            direction,
            ty.style,
            IntSize::_32,
        ) + "\n        "@ + spec_guarded_call(direction, ty.style, IntSize::_64)
    } else {
        spec_call(direction, int_ty, ty.spec_name())
    }
}

/// The body of a visitor function that converts directly.
pub open spec fn spec_direct_body(int_enum: Seq<char>, int_ty: Seq<char>) -> Seq<char> {
    "                match "@ + int_enum + "::IntEnum::from_int(v as "@ + int_ty
        + ") {\n                    "@ + int_enum + "::__private::Result::Ok(ret) => "@ + int_enum
        + "::__private::Result::Ok(ret),\n                    "@ + int_enum
        + "::__private::Result::Err(err) => "@ + int_enum
        + "::__private::Result::Err(E::custom(err)),\n                }\n"@
}

/// The opening of the body of a visitor function that compares with the
/// bounds first: the two bounds and the comparison. The bounds are written
/// as constants of the representation, so that the compiler of the
/// generated code fills them in.
pub open spec fn spec_bounds(int_ty: Seq<char>, visit_ty: Seq<char>, lower: bool) -> Seq<char> {
    if lower {
        "                const MIN: "@ + visit_ty + " = "@ + int_ty + "::MIN as "@ + visit_ty
            + ";\n                const MAX: "@ + visit_ty + " = "@ + int_ty + "::MAX as "@
            + visit_ty + ";\n\n                if MIN <= v && v <= MAX {\n"@
    } else {
        "                const MIN: "@ + int_ty + " = "@ + int_ty
            + "::MIN;\n                const MAX: "@ + visit_ty + " = "@ + int_ty + "::MAX as "@
            + visit_ty + ";\n\n                if v <= MAX {\n"@
    }
}

/// The body of a visitor function that compares with the bounds first and
/// hands an integer within them on to the function for the type `actual`.
pub open spec fn spec_bounded_body(
    int_enum: Seq<char>,
    int_ty: Seq<char>,
    actual: Seq<char>,
    visit_ty: Seq<char>,
    lower: bool,
) -> Seq<char> {
    spec_bounds(int_ty, visit_ty, lower) + "                    self.visit_"@ + actual
        + "(v as "@ + actual + ")\n                } else {\n                    "@ + int_enum
        + "::__private::Result::Err(E::custom("@ + int_enum
        + "::__private::format_args!(\n                        \"unknown variant `{}`, out of range [{}, {}]\",\n                        v, MIN, MAX,\n                    )))\n                }\n"@
}

/// The body of the visitor function that the representation `actual`,
/// written `int_ty`, has for integers that arrive as `visit_ty`.
pub open spec fn spec_visit_body_text(
    int_enum: Seq<char>,
    int_ty: Seq<char>,
    actual: IntType,
    visit_ty: IntType,
) -> Seq<char> {
    if fits(actual, visit_ty) {
        spec_direct_body(int_enum, int_ty)
    } else {
        spec_bounded_body(
            int_enum,
            int_ty,
            actual.spec_name(),
            visit_ty.spec_name(),
            compares_min(actual, visit_ty),
        )
    }
}

/// The visitor function that the representation `actual`, written `int_ty`,
/// has for integers that arrive as `visit_ty`, as source text.
pub open spec fn spec_visit_fn_text(
    int_enum: Seq<char>,
    int_ty: Seq<char>,
    actual: IntType,
    visit_ty: IntType,
) -> Seq<char> {
    "            fn visit_"@ + visit_ty.spec_name() + "<E>(self, v: "@ + visit_ty.spec_name()
        + ") -> Result<Self::Value, E>\n            where\n                E: "@ + int_enum
        + "::__private::serde::de::Error,\n            {\n"@ + spec_visit_body_text(
        int_enum,
        int_ty,
        actual,
        visit_ty,
    ) + "            }\n\n"@
}

/// The visitor function at the place `slot`, for the representation
/// written `int_ty`, as source text, behind its guard where it has one.
pub open spec fn spec_slot_text(int_enum: Seq<char>, int_ty: Seq<char>, slot: Slot) -> Seq<char> {
    match slot.guard {
        Some(pointer) => "            "@ + spec_guard(pointer) + spec_visit_fn_text(
            int_enum,
            int_ty,
            slot.actual,
            slot.visit_ty,
        ),
        None => spec_visit_fn_text(int_enum, int_ty, slot.actual, slot.visit_ty),
    }
}

/// The visitor functions at the first `n` of the places `places`, as
/// source text.
pub open spec fn spec_slots_text(
    int_enum: Seq<char>,
    int_ty: Seq<char>,
    places: Seq<Slot>,
    n: int,
) -> Seq<char>
    decreases n,
{
    if n <= 0 {
        Seq::empty()
    } else {
        spec_slots_text(int_enum, int_ty, places, n - 1) + spec_slot_text(
            int_enum,
            int_ty,
            places[n - 1],
        )
    }
}

/// The impl block that writes the enumeration onto the wire.
pub open spec fn spec_ser_impl(int_enum: Seq<char>, input: &Input) -> Seq<char> {
    spec_impl_head(
        input.generics.spec_impl_generics(),
        int_enum + "::__private::serde::Serialize"@,
        spec_target(input),
        input.generics.spec_where_clause(),
    ) + "    fn serialize<S>(&self, serializer: S) -> "@ + int_enum
        + "::__private::Result<S::Ok, S::Error>\n    where\n        S: "@ + int_enum
        + "::__private::serde::Serializer,\n    {\n        let n: "@ + input.repr.ident.name@
        + " = "@ + int_enum + "::IntEnum::int_value(*self);\n\n        "@ + spec_serde_fn(
        Direction::Serialize,
        input.repr.ident.name@,
        input.ty(),
    ) + "\n    }\n}\n"@
}

/// The declaration of the visitor. For an enumeration without generic
/// parameters it is a struct without fields, called `Visitor`. One with
/// generic parameters has a visitor that carries them, over a phantom of the
/// enumeration.
pub open spec fn spec_visitor_struct(input: &Input) -> Seq<char> {
    if input.generics.params@.len() == 0 {
        "struct Visitor;"@
    } else {
        "struct PhantomVisitor"@ + input.generics.spec_impl_generics()
            + "(::core::marker::PhantomData<fn() -> "@ + spec_target(input) + ">)"@
            + input.generics.spec_where_clause() + ";"@
    }
}

/// The opening of the impl block that makes the visitor one, up to its
/// brace.
pub open spec fn spec_visitor_impl_head(int_enum: Seq<char>, input: &Input) -> Seq<char> {
    if input.generics.params@.len() == 0 {
        "impl<'de> "@ + int_enum + "::__private::serde::de::Visitor<'de> for Visitor"@
    } else {
        "impl"@ + input.generics.spec_impl_generics_with("'de"@) + " "@ + int_enum
            + "::__private::serde::de::Visitor<'de> for PhantomVisitor"@
            + input.generics.spec_type_generics() + input.generics.spec_where_clause()
    }
}

/// What stands before the call that hands the visitor to the deserializer.
/// The call names `Visitor`; for an enumeration with generic parameters
/// that is a value of the visitor, made here.
pub open spec fn spec_visitor_value(input: &Input) -> Seq<char> {
    if input.generics.params@.len() == 0 {
        Seq::empty()
    } else {
        "#[allow(non_snake_case)]\n        let Visitor = PhantomVisitor(::core::marker::PhantomData);\n\n        "@
    }
}

/// The impl block that reads the enumeration from the wire.
pub open spec fn spec_de_impl(int_enum: Seq<char>, input: &Input) -> Seq<char> {
    spec_impl_head(
        input.generics.spec_impl_generics_with("'de"@),
        int_enum + "::__private::serde::Deserialize<'de>"@,
        spec_target(input),
        input.generics.spec_where_clause(),
    ) + "    fn deserialize<D>(deserializer: D) -> "@ + int_enum
        + "::__private::Result<Self, D::Error>\n    where\n        D: "@ + int_enum
        + "::__private::serde::Deserializer<'de>,\n    {\n        "@ + spec_visitor_struct(input)
        + "\n\n        "@ + spec_visitor_impl_head(int_enum, input)
        + " {\n            type Value = "@ + spec_target(input)
        + ";\n\n            fn expecting(&self, f: &mut "@ + int_enum
        + "::__private::fmt::Formatter) -> "@ + int_enum
        + "::__private::fmt::Result {\n                f.write_str(\""@ + spec_expecting(
        input.repr.ident.name@,
    ) + "\")\n            }\n\n"@ + spec_slots_text(
        int_enum,
        input.repr.ident.name@,
        slots(input.ty()),
        slots(input.ty()).len() as int,
    ) + "        }\n\n        "@ + spec_visitor_value(input) + spec_serde_fn(
        Direction::Deserialize,
        input.repr.ident.name@,
        input.ty(),
    ) + "\n    }\n}\n"@
}

fn guard(pointer: IntSize) -> (s: String)
    ensures
        s@ == spec_guard(pointer),
{
    let mut s: String = "#[cfg(target_pointer_width = \"".to_owned();
    s.append(pointer.suffix());
    s.append("\")]\n");
    s
}

fn call(direction: Direction, cast: &str, name: &str) -> (s: String)
    ensures
        s@ == spec_call(direction, cast@, name@),
{
    match direction {
        Direction::Serialize => {
            let mut s: String = "serializer.serialize_".to_owned();
            s.append(name);
            s.append("(n as ");
            s.append(cast);
            s.append(")");
            s
        },
        Direction::Deserialize => {
            let mut s: String = "deserializer.deserialize_".to_owned();
            s.append(name);
            s.append("(Visitor)");
            s
        },
    }
}

fn guarded_call(direction: Direction, style: IntStyle, pointer: IntSize) -> (s: String)
    ensures
        s@ == spec_guarded_call(direction, style, pointer),
{
    let name: String = (IntType { style, size: pointer }).name();
    let mut s: String = guard(pointer);
    s.append("        {\n            ");
    let inner: String = call(direction, name.as_str(), name.as_str());
    s.append(inner.as_str());
    s.append("\n        }");
    s
}

/// Writes the call into the wire format for the given direction, for the
/// representation `ty`, written `int_ty`.
pub fn serde_fn(direction: Direction, int_ty: &str, ty: IntType) -> (s: String)
    ensures
        s@ == spec_serde_fn(direction, int_ty@, ty),
{
    match ty.size {
        IntSize::Size => {
            let mut s: String = guarded_call(direction, ty.style, IntSize::_16);
            s.append("\n        ");
            let second: String = guarded_call(direction, ty.style, IntSize::_32);
            s.append(second.as_str());
            s.append("\n        ");
            let third: String = guarded_call(direction, ty.style, IntSize::_64);
            s.append(third.as_str());
            s
        },
        _ => {
            let name: String = ty.name();
            call(direction, int_ty, name.as_str())
        },
    }
}

fn direct_body(int_enum: &str, int_ty: &str) -> (s: String)
    ensures
        s@ == spec_direct_body(int_enum@, int_ty@),
{
    let mut s: String = "                match ".to_owned();
    s.append(int_enum);
    s.append("::IntEnum::from_int(v as ");
    s.append(int_ty);
    s.append(") {\n                    ");
    s.append(int_enum);
    s.append("::__private::Result::Ok(ret) => ");
    s.append(int_enum);
    s.append("::__private::Result::Ok(ret),\n                    ");
    s.append(int_enum);
    s.append("::__private::Result::Err(err) => ");
    s.append(int_enum);
    s.append("::__private::Result::Err(E::custom(err)),\n                }\n");
    s
}

fn bounds(int_ty: &str, visit_ty: &str, lower: bool) -> (s: String)
    ensures
        s@ == spec_bounds(int_ty@, visit_ty@, lower),
{
    let mut s: String = "                const MIN: ".to_owned();
    if lower {
        s.append(visit_ty);
        s.append(" = ");
        s.append(int_ty);
        s.append("::MIN as ");
        s.append(visit_ty);
        s.append(";\n                const MAX: ");
        s.append(visit_ty);
        s.append(" = ");
        s.append(int_ty);
        s.append("::MAX as ");
        s.append(visit_ty);
        s.append(";\n\n                if MIN <= v && v <= MAX {\n");
    } else {
        s.append(int_ty);
        s.append(" = ");
        s.append(int_ty);
        s.append("::MIN;\n                const MAX: ");
        s.append(visit_ty);
        s.append(" = ");
        s.append(int_ty);
        s.append("::MAX as ");
        s.append(visit_ty);
        s.append(";\n\n                if v <= MAX {\n");
    }
    s
}

fn bounded_body(int_enum: &str, int_ty: &str, actual: &str, visit_ty: &str, lower: bool) -> (s:
    String)
    ensures
        s@ == spec_bounded_body(int_enum@, int_ty@, actual@, visit_ty@, lower),
{
    let mut s: String = bounds(int_ty, visit_ty, lower);
    s.append("                    self.visit_");
    s.append(actual);
    s.append("(v as ");
    s.append(actual);
    s.append(")\n                } else {\n                    ");
    s.append(int_enum);
    s.append("::__private::Result::Err(E::custom(");
    s.append(int_enum);
    s.append(
        "::__private::format_args!(\n                        \"unknown variant `{}`, out of range [{}, {}]\",\n                        v, MIN, MAX,\n                    )))\n                }\n",
    );
    s
}

fn visit_fn_text(int_enum: &str, int_ty: &str, actual: IntType, visit_ty: IntType) -> (s: String)
    ensures
        s@ == spec_visit_fn_text(int_enum@, int_ty@, actual, visit_ty),
{
    let visit_name: String = visit_ty.name();
    let mut s: String = "            fn visit_".to_owned();
    s.append(visit_name.as_str());
    s.append("<E>(self, v: ");
    s.append(visit_name.as_str());
    s.append(") -> Result<Self::Value, E>\n            where\n                E: ");
    s.append(int_enum);
    s.append("::__private::serde::de::Error,\n            {\n");
    let same_style: bool = match (actual.style, visit_ty.style) {
        (IntStyle::Signed, IntStyle::Signed) => true,
        (IntStyle::Unsigned, IntStyle::Unsigned) => true,
        _ => false,
    };
    let lower: bool = match (actual.style, visit_ty.style) {
        (IntStyle::Signed, IntStyle::Unsigned) => false,
        _ => true,
    };
    let body: String = if same_style && visit_ty.size.le(actual.size) {
        direct_body(int_enum, int_ty)
    } else {
        let actual_name: String = actual.name();
        bounded_body(int_enum, int_ty, actual_name.as_str(), visit_name.as_str(), lower)
    };
    s.append(body.as_str());
    s.append("            }\n\n");
    s
}

impl VisitFn {
    /// Writes the function as source text, for the representation written
    /// `int_ty`, with the library reachable at the path `int_enum`.
    pub fn text(&self, int_enum: &str, int_ty: &str) -> (s: String)
        ensures
            s@ == spec_slot_text(int_enum@, int_ty@, self.spec_slot()),
    {
        let body: String = visit_fn_text(int_enum, int_ty, self.slot.actual, self.slot.visit_ty);
        match self.slot.guard {
            Some(pointer) => {
                let mut s: String = "            ".to_owned();
                let behind: String = guard(pointer);
                s.append(behind.as_str());
                s.append(body.as_str());
                s
            },
            None => body,
        }
    }
}

fn visit_fns_text(int_enum: &str, int_ty: &str, fns: &Vec<VisitFn>, Ghost(places): Ghost<
    Seq<Slot>,
>) -> (s: String)
    requires
        fills(fns@, places),
    ensures
        s@ == spec_slots_text(int_enum@, int_ty@, places, places.len() as int),
{
    let mut s: String = String::new();
    let mut i: usize = 0;
    while i < fns.len()
        invariant
            0 <= i <= fns@.len(),
            fills(fns@, places),
            s@ == spec_slots_text(int_enum@, int_ty@, places, i as int),
        decreases fns@.len() - i,
    {
        let one: String = fns[i].text(int_enum, int_ty);
        s.append(one.as_str());
        i = i + 1;
    }
    s
}

/// Writes the impl block that writes `input` onto the wire.
pub fn ser_impl(int_enum: &str, input: &Input) -> (s: String)
    ensures
        s@ == spec_ser_impl(int_enum@, input),
{
    let mut trait_path: String = int_enum.to_owned();
    trait_path.append("::__private::serde::Serialize");
    let impl_generics: String = input.generics.impl_generics();
    let enum_ty: String = target(input);
    let where_clause: String = input.generics.spaced_where_clause();
    let int_ty: &str = input.repr.ident.name.as_str();
    let mut s: String = impl_head(
        impl_generics.as_str(),
        trait_path.as_str(),
        enum_ty.as_str(),
        where_clause.as_str(),
    );
    s.append("    fn serialize<S>(&self, serializer: S) -> ");
    s.append(int_enum);
    s.append("::__private::Result<S::Ok, S::Error>\n    where\n        S: ");
    s.append(int_enum);
    s.append("::__private::serde::Serializer,\n    {\n        let n: ");
    s.append(int_ty);
    s.append(" = ");
    s.append(int_enum);
    s.append("::IntEnum::int_value(*self);\n\n        ");
    let call: String = serde_fn(Direction::Serialize, int_ty, input.repr.int_type());
    s.append(call.as_str());
    s.append("\n    }\n}\n");
    s
}

fn visitor_struct(input: &Input) -> (s: String)
    ensures
        s@ == spec_visitor_struct(input),
{
    if input.generics.params.as_str().unicode_len() == 0 {
        "struct Visitor;".to_owned()
    } else {
        let mut s: String = "struct PhantomVisitor".to_owned();
        let own_generics: String = input.generics.impl_generics();
        s.append(own_generics.as_str());
        s.append("(::core::marker::PhantomData<fn() -> ");
        let enum_ty: String = target(input);
        s.append(enum_ty.as_str());
        s.append(">)");
        let where_clause: String = input.generics.spaced_where_clause();
        s.append(where_clause.as_str());
        s.append(";");
        s
    }
}

fn visitor_impl_head(int_enum: &str, input: &Input) -> (s: String)
    ensures
        s@ == spec_visitor_impl_head(int_enum@, input),
{
    if input.generics.params.as_str().unicode_len() == 0 {
        let mut s: String = "impl<'de> ".to_owned();
        s.append(int_enum);
        s.append("::__private::serde::de::Visitor<'de> for Visitor");
        s
    } else {
        let mut s: String = "impl".to_owned();
        let impl_generics: String = input.generics.impl_generics_with("'de");
        s.append(impl_generics.as_str());
        s.append(" ");
        s.append(int_enum);
        s.append("::__private::serde::de::Visitor<'de> for PhantomVisitor");
        let type_generics: String = input.generics.type_generics();
        s.append(type_generics.as_str());
        let where_clause: String = input.generics.spaced_where_clause();
        s.append(where_clause.as_str());
        s
    }
}

/// Writes the impl block that reads `input` from the wire.
pub fn de_impl(int_enum: &str, input: &Input) -> (s: String)
    ensures
        s@ == spec_de_impl(int_enum@, input),
{
    let mut trait_path: String = int_enum.to_owned();
    trait_path.append("::__private::serde::Deserialize<'de>");
    let impl_generics: String = input.generics.impl_generics_with("'de");
    let enum_ty: String = target(input);
    let where_clause: String = input.generics.spaced_where_clause();
    let int_ty: &str = input.repr.ident.name.as_str();
    let fns: Vec<VisitFn> = visit_fns(input.repr.int_type());
    let mut s: String = impl_head(
        impl_generics.as_str(),
        trait_path.as_str(),
        enum_ty.as_str(),
        where_clause.as_str(),
    );
    s.append("    fn deserialize<D>(deserializer: D) -> ");
    s.append(int_enum);
    s.append("::__private::Result<Self, D::Error>\n    where\n        D: ");
    s.append(int_enum);
    s.append("::__private::serde::Deserializer<'de>,\n    {\n        ");
    let visitor: String = visitor_struct(input);
    s.append(visitor.as_str());
    s.append("\n\n        ");
    let visitor_impl: String = visitor_impl_head(int_enum, input);
    s.append(visitor_impl.as_str());
    s.append(" {\n            type Value = ");
    s.append(enum_ty.as_str());
    s.append(";\n\n            fn expecting(&self, f: &mut ");
    s.append(int_enum);
    s.append("::__private::fmt::Formatter) -> ");
    s.append(int_enum);
    s.append("::__private::fmt::Result {\n                f.write_str(\"");
    let mut expecting: String = int_ty.to_owned();
    expecting.append(" integer");
    s.append(expecting.as_str());
    s.append("\")\n            }\n\n");
    let visitors: String = visit_fns_text(int_enum, int_ty, &fns, Ghost(slots(input.ty())));
    s.append(visitors.as_str());
    s.append("        }\n\n        ");
    if input.generics.params.as_str().unicode_len() != 0 {
        s.append(
            "#[allow(non_snake_case)]\n        let Visitor = PhantomVisitor(::core::marker::PhantomData);\n\n        ",
        );
    } else {
        assert(s@ + spec_visitor_value(input) =~= s@);
    }
    let call: String = serde_fn(Direction::Deserialize, int_ty, input.repr.int_type());
    s.append(call.as_str());
    s.append("\n    }\n}\n");
    s
}

/// The code that takes `input` to and from the wire.
pub open spec fn spec_serde_impl(int_enum: Seq<char>, input: &Input) -> Seq<char> {
    spec_ser_impl(int_enum, input) + "\n"@ + spec_de_impl(int_enum, input)
}

/// Writes the code that takes `input` to and from the wire, with the
/// library reachable at the path `int_enum`.
pub fn serde_impl(int_enum: &str, input: &Input) -> (s: String)
    ensures
        s@ == spec_serde_impl(int_enum@, input),
{
    let mut s: String = ser_impl(int_enum, input);
    s.append("\n");
    let de: String = de_impl(int_enum, input);
    s.append(de.as_str());
    s
}

/// Writes the code that takes `input` to and from the wire, each of the two
/// impl blocks inside a constant of its own.
pub fn inner_impl(crate_name: &str, input: &Input) -> (s: String)
    ensures
        s@ == spec_wrap_in_const(
            crate_name@,
            "Serialize"@,
            input.ident.name@,
            spec_ser_impl("_int_enum"@, input),
        ) + spec_wrap_in_const(
            crate_name@,
            "Deserialize"@,
            input.ident.name@,
            spec_de_impl("_int_enum"@, input),
        ),
{
    let ser: String = ser_impl("_int_enum", input);
    let de: String = de_impl("_int_enum", input);
    let mut s: String = wrap_in_const(crate_name, "Serialize", &input.ident, ser.as_str());
    let de_block: String = wrap_in_const(crate_name, "Deserialize", &input.ident, de.as_str());
    s.append(de_block.as_str());
    s
}

} // verus!
