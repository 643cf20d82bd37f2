//! What holds of the conversions and of the diagnostics, for every
//! enumeration.

use vstd::prelude::*;
use crate::ast::{Generics, Ident, RawVariant};
use crate::convert::{distinct, first_match, lemma_first_match, Table};
use crate::decimal::{decimal, decimal_nat, lemma_decimal_nat_round_trip, signed_value};
use crate::diagnostic::{warning_at, AnnotationView, DiagnosticView};
use crate::expand::{converts_faithfully, written_from_int, written_int_value};
use crate::input::{
    discriminant_at, field_warnings, has_bad_discriminant, has_fields, has_no_discriminant,
    is_resolution, lemma_discriminant_in_range, offends, resolves, violations, Input,
    BAD_DISCRIMINANT, NOT_UNIT, NO_DISCRIMINANT,
};
use crate::expr::{Expr, Status};
use crate::repr::{IntSize, IntStyle, IntType, ReprView};
use crate::serde::{
    accepts, lemma_accepts_is_range_check, lemma_actual_holds_the_same, pointer_sizes, shown_max,
    slot_of, slots, visit_types, visits, Decoded, VisitFn,
};
use crate::wire::Wire;

verus! {

/// Converting a variant to its integer and that integer back gives the
/// variant again, in an enumeration in which no two variants stand for the
/// same integer.
pub proof fn law_round_trip(table: Table, variant: int)
    requires
        0 <= variant < table.values().len(),
        distinct(table.values()),
    ensures
        table.spec_from_int(table.spec_int_value(variant)) == Some(variant),
{
    lemma_first_match(table.values(), table.values()[variant], 0);
}

/// Converting a variant to its integer and that integer back gives the
/// first variant that stands for the same integer.
pub proof fn law_round_trip_to_first(table: Table, variant: int)
    requires
        0 <= variant < table.values().len(),
    ensures
        table.spec_from_int(table.spec_int_value(variant)) matches Some(first) && 0 <= first
            <= variant && table.values()[first] == table.values()[variant] && forall|j: int|
            0 <= j < first ==> table.values()[j] != table.values()[variant],
{
    lemma_first_match(table.values(), table.values()[variant], 0);
}

/// An integer converts to a variant exactly when some variant stands for
/// it, and then to a variant that stands for it.
pub proof fn law_unknown_value(table: Table, n: int)
    ensures
        table.spec_from_int(n) is None <==> forall|i: int|
            0 <= i < table.values().len() ==> table.values()[i] != n,
        table.spec_from_int(n) matches Some(i) ==> 0 <= i < table.values().len()
            && table.spec_int_value(i) == n,
{
    lemma_first_match(table.values(), n, 0);
}

/// A variant declared without a discriminant has zero where it is the first
/// variant, and otherwise one more than the variant before it, as long as
/// that is an integer of the representation. Where the engine does not
/// know the discriminant of the variant before it, it does not know this
/// one either.
pub proof fn law_implicit_discriminant(raws: Seq<RawVariant>, ty: IntType, i: int)
    requires
        0 <= i < raws.len(),
        raws[i].discriminant is None,
    ensures
        i == 0 ==> discriminant_at(raws, ty, i) == Status::Known(0),
        i > 0 ==> match discriminant_at(raws, ty, i - 1) {
            Status::Known(p) => discriminant_at(raws, ty, i) == (if p + 1 <= ty.spec_max() {
                Status::Known(p + 1)
            } else {
                Status::Invalid
            }),
            Status::Undecided => discriminant_at(raws, ty, i) is Undecided,
            Status::Invalid => discriminant_at(raws, ty, i) is Invalid,
        },
{
    if i > 0 && discriminant_at(raws, ty, i - 1) is Known {
        lemma_discriminant_in_range(raws, ty, i - 1);
    }
}

/// Everything that is wrong with a variant is reported, whatever is wrong
/// with the variants around it.
pub proof fn law_every_offence_reported(raws: Seq<RawVariant>, ty: IntType, n: int, i: int)
    requires
        0 <= i < n <= raws.len(),
    ensures
        has_fields(raws, i) ==> violations(raws, ty, n).contains(
            warning_at(raws[i].fields_span, NOT_UNIT@),
        ),
        has_bad_discriminant(raws, ty, i) ==> violations(raws, ty, n).contains(
            warning_at(raws[i].ident.span, BAD_DISCRIMINANT@),
        ),
        has_no_discriminant(raws, ty, i) ==> violations(raws, ty, n).contains(
            warning_at(raws[i].ident.span, NO_DISCRIMINANT@),
        ),
    decreases n,
{
    let before: Seq<AnnotationView> = violations(raws, ty, n - 1);
    let after_fields: Seq<AnnotationView> = if has_fields(raws, n - 1) {
        before.push(warning_at(raws[n - 1].fields_span, NOT_UNIT@))
    } else {
        before
    };
    let all: Seq<AnnotationView> = violations(raws, ty, n);
    if i < n - 1 {
        law_every_offence_reported(raws, ty, n - 1, i);
        assert forall|a: AnnotationView| before.contains(a) implies all.contains(
            a,
        ) by {
            let k: int = choose|k: int| 0 <= k < before.len() && before[k] == a;
            assert(after_fields[k] == a);
            assert(all[k] == a);
        }
    } else {
        if has_fields(raws, i) {
            assert(all[before.len() as int] == warning_at(raws[i].fields_span, NOT_UNIT@));
        }
        if has_bad_discriminant(raws, ty, i) {
            assert(all[after_fields.len() as int] == warning_at(
                raws[i].ident.span,
                BAD_DISCRIMINANT@,
            ));
        }
    }
}

/// Every variant that has fields has a warning of its own, whatever the
/// other variants are like.
pub proof fn law_every_field_reported(raws: Seq<RawVariant>, n: int, i: int)
    requires
        0 <= i < n <= raws.len(),
        has_fields(raws, i),
    ensures
        field_warnings(raws, n).contains(warning_at(raws[i].fields_span, NOT_UNIT@)),
    decreases n,
{
    let before: Seq<AnnotationView> = field_warnings(raws, n - 1);
    let all: Seq<AnnotationView> = field_warnings(raws, n);
    if i < n - 1 {
        law_every_field_reported(raws, n - 1, i);
        let a: AnnotationView = warning_at(raws[i].fields_span, NOT_UNIT@);
        let k: int = choose|k: int| 0 <= k < before.len() && before[k] == a;
        assert(all[k] == a);
    } else {
        assert(all[before.len() as int] == warning_at(raws[i].fields_span, NOT_UNIT@));
    }
}

/// The least and the greatest integer of a representation are integers of
/// it: a variant may stand for either.
pub proof fn law_bounds_are_values(ty: IntType)
    ensures
        ty.holds(ty.spec_min()),
        ty.holds(ty.spec_max()),
        ty.holds(0),
{
}

/// A visitor function ends in the error that names the bounds exactly on
/// the integers of its type that are no integers of the representation. It
/// neither cuts such an integer down to the width of the representation
/// nor lets it through.
pub proof fn law_visit_checks_bounds(table: Table, f: VisitFn, n: int)
    requires
        f.planned(),
        f.spec_actual() == table.actual(),
        f.spec_visit_ty().holds(n),
    ensures
        !table.ty().holds(n) ==> table.spec_visit(f, n) == (Decoded::OutOfRange {
            value: n,
            min: table.ty().spec_min(),
            max: shown_max(table.actual(), f.spec_visit_ty()),
        }),
        table.ty().holds(n) ==> table.spec_visit(f, n) == (match table.spec_from_int(n) {
            Some(i) => Decoded::Variant(i),
            None => Decoded::Unknown(n),
        }),
{
    lemma_accepts_is_range_check(table.actual(), f.spec_visit_ty(), n);
    lemma_actual_holds_the_same(table.ty(), n);
}

/// An integer that arrives in any width the visitor has a function for and
/// that is no integer of the representation ends in the error that names
/// the bounds.
pub proof fn law_out_of_range_is_refused(table: Table, wire: Wire)
    requires
        visits(table.actual(), wire.spec_ty()),
        !table.ty().holds(wire.spec_value()),
    ensures
        table.spec_deserialize(wire) is OutOfRange,
        table.spec_deserialize(wire)->value == wire.spec_value(),
        table.spec_deserialize(wire)->min == table.ty().spec_min(),
{
}

/// A signed representation takes the integers that arrive unsigned: such
/// an integer is let through exactly when it does not exceed the greatest
/// integer of the representation. The lower bound plays no part.
pub proof fn law_signed_takes_unsigned(int_ty: IntType, visit_ty: IntType, n: int)
    requires
        int_ty.style == IntStyle::Signed,
        int_ty.size != IntSize::Size,
        visit_ty.style == IntStyle::Unsigned,
        visit_ty.size != IntSize::Size,
        visit_ty.holds(n),
    ensures
        visits(int_ty, visit_ty),
        accepts(int_ty, visit_ty, n) <==> n <= int_ty.spec_max(),
{
    lemma_accepts_is_range_check(int_ty, visit_ty, n);
}

/// The visitor for a representation has, in each width that the
/// representation can have, a function for every type it takes integers
/// in, and for no other.
pub proof fn law_visitor_is_complete(int_ty: IntType, visit_ty: IntType)
    requires
        int_ty.size != IntSize::Size,
    ensures
        visits(int_ty, visit_ty) <==> visit_types(int_ty.style).contains(visit_ty),
{
    let all: Seq<IntType> = visit_types(int_ty.style);
    if visits(int_ty, visit_ty) {
        let at: int = visit_ty.size.rank();
        match int_ty.style {
            IntStyle::Signed => {
                let k: int = if visit_ty.style == IntStyle::Signed {
                    2 * at
                } else {
                    2 * at + 1
                };
                assert(all[k] == visit_ty);
            },
            IntStyle::Unsigned => {
                assert(all[at] == visit_ty);
            },
        }
    }
    if all.contains(visit_ty) {
        let k: int = choose|k: int| 0 <= k < all.len() && all[k] == visit_ty;
    }
}

/// The visitor for a representation as wide as a pointer has, for each
/// width that a pointer can have, the functions of the visitor for the
/// representation of that width, each behind the guard for that width.
pub proof fn law_every_width_has_its_functions(
    int_ty: IntType,
    pointer: IntSize,
    visit_ty: IntType,
)
    requires
        int_ty.size == IntSize::Size,
        pointer_sizes().contains(pointer),
        visits(IntType { style: int_ty.style, size: pointer }, visit_ty),
    ensures
        slots(int_ty).contains(slot_of(int_ty, pointer, visit_ty)),
        slot_of(int_ty, pointer, visit_ty).guard == Some(pointer),
{
    let fixed: IntType = IntType { style: int_ty.style, size: pointer };
    law_visitor_is_complete(fixed, visit_ty);
    let types: Seq<IntType> = visit_types(int_ty.style);
    let k: int = choose|k: int| 0 <= k < types.len() && types[k] == visit_ty;
    let n: int = types.len() as int;
    let which: int = choose|w: int| 0 <= w < 3 && pointer_sizes()[w] == pointer;
    assert(slots(int_ty)[which * n + k] == slot_of(int_ty, pointer, visit_ty));
}

/// What goes onto the wire for a variant comes back as that variant, in an
/// enumeration in which no two variants stand for the same integer.
pub proof fn law_wire_round_trip(table: Table, variant: int, wire: Wire)
    requires
        table.wf(),
        0 <= variant < table.values().len(),
        distinct(table.values()),
        wire.spec_ty() == table.actual(),
        wire.spec_value() == table.spec_int_value(variant),
    ensures
        table.spec_deserialize(wire) == Decoded::Variant(variant),
{
    lemma_first_match(table.values(), table.values()[variant], 0);
}

/// Where no variant offends, no variant is without a discriminant.
pub proof fn law_sound_variants_resolve(raws: Seq<RawVariant>, ty: IntType, n: int)
    requires
        0 <= n <= raws.len(),
        forall|i: int| 0 <= i < n ==> !offends(raws, ty, i),
    ensures
        forall|i: int| 0 <= i < n ==> !((#[trigger] discriminant_at(raws, ty, i)) is Invalid),
    decreases n,
{
    if n > 0 {
        law_sound_variants_resolve(raws, ty, n - 1);
        assert(!offends(raws, ty, n - 1));
    }
}

/// Reading back what `decimal` writes gives the integer that was written.
pub proof fn law_decimal_round_trip(n: int)
    ensures
        signed_value(decimal(n)) == Some(n),
{
    if n < 0 {
        lemma_decimal_nat_round_trip((-n) as nat);
        let s: Seq<char> = decimal(n);
        assert(s.drop_first() =~= decimal_nat((-n) as nat));
    } else {
        lemma_decimal_nat_round_trip(n as nat);
    }
}

/// An expression that holds something the engine does not evaluate has no
/// value for the engine.
pub proof fn law_opaque_has_no_value(e: Expr, ty: IntType)
    requires
        e.opaque(),
    ensures
        e.eval(ty) is None,
    decreases e,
{
    match e {
        Expr::Neg(inner) => law_opaque_has_no_value(*inner, ty),
        Expr::Not(inner) => law_opaque_has_no_value(*inner, ty),
        Expr::Paren(inner) => law_opaque_has_no_value(*inner, ty),
        Expr::Binary(_, l, r) => {
            if l.opaque() {
                law_opaque_has_no_value(*l, ty);
            } else {
                law_opaque_has_no_value(*r, ty);
            }
        },
        Expr::Shl(inner, _) => law_opaque_has_no_value(*inner, ty),
        Expr::Shr(inner, _) => law_opaque_has_no_value(*inner, ty),
        _ => {},
    }
}

/// What the written arms compute is what the table of the enumeration
/// computes, for an enumeration whose discriminants the engine all
/// evaluates.
pub proof fn law_written_arms_are_the_table(input: Input, n: int, from: int)
    requires
        input.wf(),
        input.evaluated(),
        0 <= from,
    ensures
        forall|i: int|
            0 <= i < input.variants@.len() ==> written_int_value(&input, i) == Some(
                #[trigger] input.known_values()[i],
            ),
        written_from_int(&input, n, from) == first_match(input.known_values(), n, from),
    decreases input.variants@.len() - from,
{
    assert forall|i: int| 0 <= i < input.variants@.len() implies written_int_value(&input, i)
        == Some(#[trigger] input.known_values()[i]) by {
        assert(input.variants@[i].value is Some);
    }
    if from < input.variants@.len() {
        assert(input.variants@[from].value is Some);
        law_written_arms_are_the_table(input, n, from + 1);
    }
}

/// In the code that is written for an enumeration, converting a variant to
/// its integer and that integer back gives the variant again, where the
/// engine evaluates every discriminant and no two variants stand for the
/// same integer.
pub proof fn law_written_round_trip(input: Input, variant: int)
    requires
        input.wf(),
        input.evaluated(),
        distinct(input.known_values()),
        0 <= variant < input.variants@.len(),
    ensures
        written_int_value(&input, variant) matches Some(n) && written_from_int(&input, n, 0)
            == Some(variant),
{
    let n: int = input.known_values()[variant];
    law_written_arms_are_the_table(input, n, 0);
    lemma_first_match(input.known_values(), n, 0);
}

/// In the code that is written for an enumeration, an integer that no
/// variant stands for is taken to no variant, so that the arm of the error,
/// which hands the integer on as it came, is the one that is reached.
pub proof fn law_written_unknown_value(input: Input, n: int)
    requires
        input.wf(),
        input.evaluated(),
    ensures
        written_from_int(&input, n, 0) is None <==> forall|i: int|
            0 <= i < input.variants@.len() ==> written_int_value(&input, i) != Some(n),
{
    law_written_arms_are_the_table(input, n, 0);
    lemma_first_match(input.known_values(), n, 0);
    assert forall|i: int| 0 <= i < input.variants@.len() implies (written_int_value(&input, i)
        != Some(n) <==> input.known_values()[i] != n) by {
        assert(written_int_value(&input, i) == Some(input.known_values()[i]));
    }
}

/// The two properties hold of every enumeration that resolves: what it
/// resolves to is what the code is written from, and it meets what the
/// properties ask of it as soon as the engine evaluates every discriminant.
pub proof fn law_resolved_is_sound(
    scan: Result<ReprView, DiagnosticView>,
    ident: Ident,
    generics: Generics,
    raws: Seq<RawVariant>,
    input: Input,
)
    requires
        is_resolution(scan, ident, generics, raws, Ok(input)),
    ensures
        input.wf(),
        input.evaluated() <==> forall|i: int|
            0 <= i < raws.len() ==> (#[trigger] discriminant_at(raws, input.ty(), i)) is Known,
{
    let ty: IntType = input.ty();
    assert forall|i: int| 0 <= i < input.variants@.len() implies ((
    #[trigger] input.variants@[i]).value matches Some(v) ==> ty.holds(v@)
        && input.variants@[i].discriminant.eval(ty) == Some(v@)) by {
        assert(resolves(raws, ty, i, input.variants@[i]));
        if discriminant_at(raws, ty, i) is Known {
            lemma_discriminant_in_range(raws, ty, i);
        }
    }
    if input.evaluated() {
        assert forall|i: int| 0 <= i < raws.len() implies (#[trigger] discriminant_at(
            raws,
            ty,
            i,
        )) is Known by {
            assert(resolves(raws, ty, i, input.variants@[i]));
        }
    }
    if forall|i: int| 0 <= i < raws.len() ==> (#[trigger] discriminant_at(raws, ty, i)) is Known {
        assert forall|i: int| 0 <= i < input.variants@.len() implies ((
        #[trigger] input.variants@[i]).value matches Some(v) && ty.holds(v@)) by {
            assert(resolves(raws, ty, i, input.variants@[i]));
            assert(discriminant_at(raws, ty, i) is Known);
            lemma_discriminant_in_range(raws, ty, i);
        }
    }
}

/// The code written for an enumeration converts faithfully.
pub proof fn law_written_conversions(input: Input)
    requires
        input.wf(),
    ensures
        converts_faithfully(&input),
{
    if input.evaluated() {
        assert forall|n: int|
            (forall|i: int|
                0 <= i < input.variants@.len() ==> written_int_value(&input, i) != Some(
                    n,
                )) implies (#[trigger] written_from_int(&input, n, 0)) is None by {
            law_written_unknown_value(input, n);
        }
        if distinct(input.known_values()) {
            assert forall|i: int| 0 <= i < input.variants@.len() implies (
            #[trigger] written_int_value(&input, i) matches Some(n) && written_from_int(
                &input,
                n,
                0,
            ) == Some(i)) by {
                law_written_round_trip(input, i);
            }
        }
    }
}

} // verus!
