//! From a declaration to a resolved enumeration.
//!
//! Resolving a declaration means finding its representation, checking
//! that every variant is a plain case without fields, and giving every
//! variant its discriminant: the one written, or one more than that of the
//! variant before, starting from zero. Everything found wrong with the
//! variants is gathered into one diagnostic.
//!
//! A written discriminant is kept as it stands. Where the engine can
//! evaluate it, the value has to be an integer of the representation, and
//! the variants after it are counted on from that value. Where it holds
//! something that the engine does not evaluate, it is left for the compiler
//! of the generated code, and the variants after it are written as that
//! expression plus their distance from it.

use vstd::prelude::*;
use vstd::string::*;
use crate::ast::{
    Attribute, Data, DeriveInput, EnumInput, Fields, Generics, Ident, RawVariant,
};
use crate::decimal::{decimal_nat, lemma_decimal_nat_round_trip, render_nat};
use crate::diagnostic::{error_report, warning_at, AnnotationView, Diagnostic, DiagnosticView, Level};
use crate::expr::{lemma_eval_in_range, BinOp, Expr, Int, Status};
use crate::repr::{IntType, Repr, ReprView};
use crate::span::Span;
use crate::policy::{scan, ReprPolicy};
use crate::value::{abs, Value};

verus! {

/// The primary message of the diagnostic that gathers what is wrong with the
/// variants of an enumeration.
pub const UNSUPPORTED_VARIANTS: &'static str =
    "enum has variants that are not supported by this trait";

/// The message for a variant that has fields.
pub const NOT_UNIT: &'static str = "only unit variants are supported";

/// The message for a discriminant that is written out and has no value in
/// the representation.
pub const BAD_DISCRIMINANT: &'static str = "discriminant has no value in the enum's repr";

/// The message for a variant without a written discriminant for which the
/// representation has no integer left.
pub const NO_DISCRIMINANT: &'static str = "missing discriminator";

/// The message for a declaration that is no enumeration.
pub const ONLY_ENUMS: &'static str = "only enums are supported";

/// The position of the last variant at or before position `i` that has a
/// written discriminant, or -1 where there is none.
pub open spec fn anchor(raws: Seq<RawVariant>, i: int) -> int
    decreases i + 1,
{
    if i < 0 || i >= raws.len() {
        -1
    } else if raws[i].discriminant is Some {
        i
    } else {
        anchor(raws, i - 1)
    }
}

/// What the engine knows of the discriminant of the variant at position
/// `i`.
///
/// A written discriminant is evaluated in the representation. A variant
/// without one has one more than the variant before it, and the first
/// variant has zero. Where that is no integer of the representation the
/// variant has no discriminant, and neither have the variants that count on
/// from it.
pub open spec fn discriminant_at(raws: Seq<RawVariant>, ty: IntType, i: int) -> Status
    decreases i,
{
    if i < 0 || i >= raws.len() {
        Status::Invalid
    } else {
        match raws[i].discriminant {
            Some(e) => e.status(ty),
            None => if i == 0 {
                Status::Known(0)
            } else {
                match discriminant_at(raws, ty, i - 1) {
                    Status::Known(p) => if ty.holds(p + 1) {
                        Status::Known(p + 1)
                    } else {
                        Status::Invalid
                    },
                    Status::Undecided => Status::Undecided,
                    Status::Invalid => Status::Invalid,
                }
            },
        }
    }
}

/// Whether the variant at position `i` has fields.
pub open spec fn has_fields(raws: Seq<RawVariant>, i: int) -> bool {
    raws[i].fields != Fields::Unit
}

/// Whether the discriminant written for the variant at position `i` is one
/// that the engine evaluates and that has no value in the representation.
pub open spec fn has_bad_discriminant(raws: Seq<RawVariant>, ty: IntType, i: int) -> bool {
    raws[i].discriminant matches Some(e) && e.status(ty) is Invalid
}

/// Whether the variant at position `i`, which has no written discriminant,
/// follows a variant whose discriminant is the last integer of the
/// representation.
pub open spec fn has_no_discriminant(raws: Seq<RawVariant>, ty: IntType, i: int) -> bool {
    raws[i].discriminant is None && i > 0 && (discriminant_at(raws, ty, i - 1) matches Status::Known(
        p,
    ) && !ty.holds(p + 1))
}

/// Whether anything is wrong with the variant at position `i` itself. A
/// variant that only follows a faulty one is not at fault.
pub open spec fn offends(raws: Seq<RawVariant>, ty: IntType, i: int) -> bool {
    has_fields(raws, i) || has_bad_discriminant(raws, ty, i) || has_no_discriminant(raws, ty, i)
}

/// `acc`, and after it the annotations for what is wrong with the variant at
/// position `i`: first for its fields, then for its discriminant.
pub open spec fn with_violations_of(
    acc: Seq<AnnotationView>,
    raws: Seq<RawVariant>,
    ty: IntType,
    i: int,
) -> Seq<AnnotationView> {
    let after_fields: Seq<AnnotationView> = if has_fields(raws, i) {
        acc.push(warning_at(raws[i].fields_span, NOT_UNIT@))
    } else {
        acc
    };
    if has_bad_discriminant(raws, ty, i) {
        after_fields.push(warning_at(raws[i].ident.span, BAD_DISCRIMINANT@))
    } else if has_no_discriminant(raws, ty, i) {
        after_fields.push(warning_at(raws[i].ident.span, NO_DISCRIMINANT@))
    } else {
        after_fields
    }
}

/// The annotations for everything that is wrong with the first `n`
/// variants, in the order of the variants.
pub open spec fn violations(raws: Seq<RawVariant>, ty: IntType, n: int) -> Seq<AnnotationView>
    decreases n,
{
    if n <= 0 {
        Seq::empty()
    } else {
        with_violations_of(violations(raws, ty, n - 1), raws, ty, n - 1)
    }
}

/// `acc`, and after it the annotation for the fields of the variant at
/// position `i`, where it has any.
pub open spec fn with_field_warning_of(acc: Seq<AnnotationView>, raws: Seq<RawVariant>, i: int)
    -> Seq<AnnotationView> {
    if has_fields(raws, i) {
        acc.push(warning_at(raws[i].fields_span, NOT_UNIT@))
    } else {
        acc
    }
}

/// One annotation for each of the first `n` variants that has fields, in
/// the order of the variants.
pub open spec fn field_warnings(raws: Seq<RawVariant>, n: int) -> Seq<AnnotationView>
    decreases n,
{
    if n <= 0 {
        Seq::empty()
    } else {
        with_field_warning_of(field_warnings(raws, n - 1), raws, n - 1)
    }
}

/// The diagnostic that reports `children` against the enumeration named at
/// `span`.
pub open spec fn variants_report(span: Span, children: Seq<AnnotationView>) -> DiagnosticView {
    DiagnosticView { level: Level::Error, span, message: UNSUPPORTED_VARIANTS@, children }
}

/// There is something to report exactly when some variant offends.
pub proof fn lemma_violations_empty(raws: Seq<RawVariant>, ty: IntType, n: int)
    requires
        0 <= n <= raws.len(),
    ensures
        violations(raws, ty, n).len() == 0 <==> forall|i: int|
            0 <= i < n ==> !offends(raws, ty, i),
    decreases n,
{
    if n > 0 {
        lemma_violations_empty(raws, ty, n - 1);
        if violations(raws, ty, n).len() != 0 && violations(raws, ty, n - 1).len() == 0 {
            assert(offends(raws, ty, n - 1));
        }
    }
}

/// Some variant has fields exactly when there is a field warning.
pub proof fn lemma_field_warnings_empty(raws: Seq<RawVariant>, n: int)
    requires
        0 <= n <= raws.len(),
    ensures
        field_warnings(raws, n).len() == 0 <==> forall|i: int|
            0 <= i < n ==> !has_fields(raws, i),
    decreases n,
{
    if n > 0 {
        lemma_field_warnings_empty(raws, n - 1);
    }
}

/// `diag` with one more warning; the primary error is made when the first
/// warning arrives.
fn report(diag: Option<Diagnostic>, primary: Span, span: Span, message: &str) -> (d: Diagnostic)
    requires
        diag matches Some(old_d) ==> old_d@ == variants_report(primary, old_d@.children),
    ensures
        d@ == variants_report(
            primary,
            (match diag {
                Some(old_d) => old_d@.children,
                None => Seq::empty(),
            }).push(warning_at(span, message@)),
        ),
{
    match diag {
        Some(old_d) => old_d.span_warning(span, message),
        None => Diagnostic::error(primary, UNSUPPORTED_VARIANTS).span_warning(span, message),
    }
}

/// Checks that no variant of the enumeration has fields.
///
/// The error names the enumeration and carries one warning for each variant
/// that has fields, in the order of the variants.
pub fn verify_unit_variants(input: &EnumInput) -> (r: Result<(), Diagnostic>)
    ensures
        r is Ok <==> forall|i: int|
            0 <= i < input.data.variants@.len() ==> !has_fields(input.data.variants@, i),
        r matches Err(d) ==> d@ == variants_report(
            input.ident.span,
            field_warnings(input.data.variants@, input.data.variants@.len() as int),
        ),
{
    let raws: &Vec<RawVariant> = &input.data.variants;
    let primary: Span = input.ident.span;
    let mut diag: Option<Diagnostic> = None;
    let mut i: usize = 0;
    while i < raws.len()
        invariant
            0 <= i <= raws@.len(),
            match diag {
                Some(d) => d@ == variants_report(primary, field_warnings(raws@, i as int))
                    && field_warnings(raws@, i as int).len() > 0,
                None => field_warnings(raws@, i as int).len() == 0,
            },
        decreases raws@.len() - i,
    {
        match raws[i].fields {
            Fields::Unit => {},
            _ => {
                assert(diag is None ==> field_warnings(raws@, i as int) =~= Seq::empty());
                diag = Some(report(diag, primary, raws[i].fields_span, NOT_UNIT));
            },
        }
        i = i + 1;
    }
    proof {
        lemma_field_warnings_empty(raws@, raws@.len() as int);
    }
    match diag {
        Some(d) => Err(d),
        None => Ok(()),
    }
}

/// A variant of a resolved enumeration.
#[derive(Debug, PartialEq, Eq)]
pub struct Variant {
    pub ident: Ident,
    /// The discriminant as an expression: the one written in the
    /// declaration, or one made up for a variant declared without one.
    pub discriminant: Expr,
    /// The integer that the variant stands for, where the engine knows it.
    pub value: Option<Value>,
}

/// The literal that stands for `v` in a variant declared without a
/// discriminant: the digits of `v` without its sign, then the name of the
/// type.
pub open spec fn filled_literal(v: int, ty: IntType) -> Seq<char> {
    decimal_nat(abs(v) as nat) + ty.spec_name()
}

/// Whether `lit` is the literal that the engine writes for the digits
/// `digits` with the suffix `suffix`: the two written one after the other,
/// and kept as what the literal spells.
pub open spec fn is_written(lit: Int, digits: Seq<char>, suffix: Seq<char>) -> bool {
    &&& lit.lit@ == digits + suffix
    &&& lit.digits matches Some(d) && d@ == digits
    &&& lit.suffix matches Some(s) && s@ == suffix
}

/// Whether `e` is the literal written for the integer `v` of `ty`.
pub open spec fn is_filled(e: Expr, v: int, ty: IntType) -> bool {
    e matches Expr::Int(lit) && lit.neg == (v < 0) && lit.lit@ == filled_literal(v, ty)
        && is_written(lit, decimal_nat(abs(v) as nat), ty.spec_name())
}

/// Whether `e` is the expression `base` plus the distance `k`.
pub open spec fn is_counted_on(e: Expr, base: Expr, k: nat) -> bool {
    e matches Expr::Binary(op, l, r) && op == BinOp::Add && *l == base && (*r matches Expr::Int(
        lit,
    ) && !lit.neg && lit.lit@ == decimal_nat(k) && is_written(lit, decimal_nat(k), Seq::empty()))
}

/// The literal that the engine writes for an integer of the representation
/// stands for that integer.
pub proof fn lemma_filled_evaluates(e: Expr, v: int, ty: IntType)
    requires
        is_filled(e, v, ty),
        ty.holds(v),
    ensures
        e.eval(ty) == Some(v),
{
    let digits: Seq<char> = decimal_nat(abs(v) as nat);
    lemma_decimal_nat_round_trip(abs(v) as nat);
    assert(digits[0] != '-');
}

/// Whether `variant` is what the variant at position `i` of a declaration
/// resolves to.
///
/// Its value is what the engine knows of the discriminant, and where it is
/// known, its expression evaluates to it. Its expression is the one
/// written; for a variant without one, it is a literal where the value is
/// known, and else the last written expression before it plus the distance
/// from there.
pub open spec fn resolves(raws: Seq<RawVariant>, ty: IntType, i: int, variant: Variant) -> bool {
    &&& variant.ident@ == raws[i].ident@
    &&& match discriminant_at(raws, ty, i) {
        Status::Known(v) => variant.value matches Some(x) && x@ == v
            && variant.discriminant.eval(ty) == Some(v),
        Status::Undecided => variant.value is None,
        Status::Invalid => false,
    }
    &&& match raws[i].discriminant {
        Some(e) => variant.discriminant == e,
        None => match discriminant_at(raws, ty, i) {
            Status::Known(v) => is_filled(variant.discriminant, v, ty),
            _ => anchor(raws, i) >= 0 && is_counted_on(
                variant.discriminant,
                raws[anchor(raws, i)].discriminant->0,
                (i - anchor(raws, i)) as nat,
            ),
        },
    }
}

/// The literal expression for `v`, an integer of `ty`.
fn fill(v: Value, ty: IntType) -> (e: Expr)
    requires
        ty.holds(v@),
    ensures
        is_filled(e, v@, ty),
{
    let size: u128 = v.magnitude().unwrap();
    let digits: String = render_nat(size);
    let name: String = ty.name();
    let mut lit: String = digits.clone();
    lit.append(name.as_str());
    Expr::Int(Int { neg: v.is_negative(), lit, digits: Some(digits), suffix: Some(name) })
}

/// The expression `base` plus the distance `k`.
fn count_on(base: &Expr, k: usize) -> (e: Expr)
    ensures
        is_counted_on(e, *base, k as nat),
{
    Expr::Binary(
        BinOp::Add,
        Box::new(base.duplicate()),
        Box::new(
            Expr::Int(
                Int {
                    neg: false,
                    lit: render_nat(k as u128),
                    digits: Some(render_nat(k as u128)),
                    suffix: Some(String::new()),
                },
            ),
        ),
    )
}

/// What the engine knows of a discriminant, as the scan of the variants
/// carries it from one variant to the next.
enum Found {
    Known(Value),
    Undecided,
    Invalid,
}

impl Found {
    spec fn status(self) -> Status {
        match self {
            Found::Known(v) => Status::Known(v@),
            Found::Undecided => Status::Undecided,
            Found::Invalid => Status::Invalid,
        }
    }
}

/// Gives every variant its discriminant and checks every variant, all in
/// one pass.
///
/// Where nothing is wrong the variants come back resolved, in their order.
/// Otherwise the error names the enumeration at `primary` and carries one
/// warning for each thing that is wrong, in the order of the variants.
pub fn extract_variants(ty: IntType, primary: Span, raws: &[RawVariant]) -> (r: Result<
    Vec<Variant>,
    Diagnostic,
>)
    ensures
        r is Ok <==> forall|i: int| 0 <= i < raws@.len() ==> !offends(raws@, ty, i),
        r matches Ok(variants) ==> variants@.len() == raws@.len() && forall|i: int|
            0 <= i < raws@.len() ==> resolves(raws@, ty, i, #[trigger] variants@[i]),
        r matches Err(d) ==> d@ == variants_report(
            primary,
            violations(raws@, ty, raws@.len() as int),
        ),
{
    let mut out: Vec<Variant> = Vec::new();
    let mut diag: Option<Diagnostic> = None;
    let mut prev: Found = Found::Invalid;
    let mut last_written: Option<usize> = None;
    let mut i: usize = 0;
    while i < raws.len()
        invariant
            0 <= i <= raws@.len(),
            i > 0 ==> prev.status() == discriminant_at(raws@, ty, i - 1),
            match last_written {
                Some(a) => a < i && anchor(raws@, i - 1) == a && raws@[a as int].discriminant
                    is Some,
                None => anchor(raws@, i - 1) == -1,
            },
            i > 0 && prev is Undecided ==> last_written is Some,
            match diag {
                Some(d) => d@ == variants_report(primary, violations(raws@, ty, i as int))
                    && violations(raws@, ty, i as int).len() > 0,
                None => violations(raws@, ty, i as int).len() == 0 && out@.len() == i
                    && forall|k: int| 0 <= k < i ==> resolves(raws@, ty, k, #[trigger] out@[k]),
            },
        decreases raws@.len() - i,
    {
        let raw: &RawVariant = &raws[i];
        let ghost before: Seq<AnnotationView> = violations(raws@, ty, i as int);
        assert(diag is None ==> before =~= Seq::empty());
        assert(diag is None && i > 0 ==> resolves(raws@, ty, i - 1, out@[i - 1]));
        match raw.fields {
            Fields::Unit => {},
            _ => {
                diag = Some(report(diag, primary, raw.fields_span, NOT_UNIT));
            },
        }
        let cur: Found = match &raw.discriminant {
            Some(e) => {
                last_written = Some(i);
                match e.evaluate(ty) {
                    Some(v) => Found::Known(v),
                    None => if e.is_opaque() {
                        Found::Undecided
                    } else {
                        diag = Some(report(diag, primary, raw.ident.span, BAD_DISCRIMINANT));
                        Found::Invalid
                    },
                }
            },
            None => {
                if i == 0 {
                    Found::Known(Value::from_u128(0))
                } else {
                    match prev {
                        Found::Known(p) => {
                            let next: Option<Value> = match p.checked_succ() {
                                Some(n) => if ty.contains(n) {
                                    Some(n)
                                } else {
                                    None
                                },
                                None => None,
                            };
                            match next {
                                Some(n) => Found::Known(n),
                                None => {
                                    diag = Some(
                                        report(diag, primary, raw.ident.span, NO_DISCRIMINANT),
                                    );
                                    Found::Invalid
                                },
                            }
                        },
                        Found::Undecided => Found::Undecided,
                        Found::Invalid => Found::Invalid,
                    }
                }
            },
        };
        if diag.is_none() {
            let value: Option<Value> = match cur {
                Found::Known(v) => Some(v),
                _ => None,
            };
            let discriminant: Expr = match &raw.discriminant {
                Some(e) => e.duplicate(),
                None => match cur {
                    Found::Known(v) => {
                        proof {
                            lemma_discriminant_in_range(raws@, ty, i as int);
                        }
                        let filled: Expr = fill(v, ty);
                        proof {
                            lemma_filled_evaluates(filled, v@, ty);
                        }
                        filled
                    },
                    _ => {
                        let a: usize = last_written.unwrap();
                        count_on(raws[a].discriminant.as_ref().unwrap(), i - a)
                    },
                },
            };
            out.push(Variant { ident: raw.ident.duplicate(), discriminant, value });
        }
        prev = cur;
        i = i + 1;
    }
    proof {
        lemma_violations_empty(raws@, ty, raws@.len() as int);
    }
    match diag {
        Some(d) => Err(d),
        None => Ok(out),
    }
}

/// An enumeration with its representation found and every variant's
/// discriminant worked out: what the conversions are generated from.
#[derive(Debug, PartialEq, Eq)]
pub struct Input {
    pub ident: Ident,
    pub generics: Generics,
    pub repr: Repr,
    pub variants: Vec<Variant>,
}

/// Whether an enumeration with the given variants resolves, after the scan
/// for its representation has ended in `scan`: the scan has to have found a
/// representation, and no variant may offend against it.
pub open spec fn resolvable(scan: Result<ReprView, DiagnosticView>, raws: Seq<RawVariant>) -> bool {
    scan matches Ok(repr) && forall|i: int| 0 <= i < raws.len() ==> !offends(raws, repr.ty, i)
}

/// Whether `r` is the outcome of resolving the enumeration named `ident`
/// with the given generics and variants, after the scan for its
/// representation has ended in `scan`.
///
/// An error from the scan comes first. After it, the variants are resolved,
/// or everything wrong with them is reported.
pub open spec fn is_resolution(
    scan: Result<ReprView, DiagnosticView>,
    ident: Ident,
    generics: Generics,
    raws: Seq<RawVariant>,
    r: Result<Input, Diagnostic>,
) -> bool {
    match scan {
        Err(report) => r matches Err(d) && d@ == report,
        Ok(repr) => {
            if forall|i: int| 0 <= i < raws.len() ==> !offends(raws, repr.ty, i) {
                &&& r matches Ok(input)
                &&& input.ident@ == ident@
                &&& input.generics.params@ == generics.params@
                &&& input.generics.args@ == generics.args@
                &&& input.generics.where_clause@ == generics.where_clause@
                &&& input.repr@ == repr
                &&& input.variants@.len() == raws.len()
                &&& forall|i: int|
                    0 <= i < raws.len() ==> resolves(raws, repr.ty, i, #[trigger] input.variants@[i])
            } else {
                r matches Err(d) && d@ == variants_report(
                    ident.span,
                    violations(raws, repr.ty, raws.len() as int),
                )
            }
        },
    }
}

/// A discriminant, where the engine knows it, is an integer of the
/// representation.
pub proof fn lemma_discriminant_in_range(raws: Seq<RawVariant>, ty: IntType, i: int)
    requires
        discriminant_at(raws, ty, i) is Known,
    ensures
        ty.holds(discriminant_at(raws, ty, i)->Known_0),
{
    match raws[i].discriminant {
        Some(e) => {
            lemma_eval_in_range(e, ty);
        },
        None => {},
    }
}

impl Input {
    /// The integer type that represents the enumeration.
    pub open spec fn ty(&self) -> IntType {
        self.repr@.ty
    }

    /// Whether every variant whose integer the engine knows stands for an
    /// integer of the representation, and for the one that its discriminant
    /// evaluates to.
    pub open spec fn wf(&self) -> bool {
        forall|i: int|
            0 <= i < self.variants@.len() ==> ((#[trigger] self.variants@[i]).value matches Some(
                v,
            ) ==> self.ty().holds(v@) && self.variants@[i].discriminant.eval(self.ty()) == Some(
                v@,
            ))
    }

    fn from_parts(
        policy: ReprPolicy,
        whole: Span,
        attrs: &[Attribute],
        ident: &Ident,
        generics: &Generics,
        raws: &[RawVariant],
    ) -> (r: Result<Input, Diagnostic>)
        ensures
            is_resolution(scan(policy, attrs@, whole), *ident, *generics, raws@, r),
            r is Ok <==> resolvable(scan(policy, attrs@, whole), raws@),
            r matches Ok(input) ==> input.wf(),
    {
        let repr: Repr = match Repr::resolve(policy, attrs, whole) {
            Ok(repr) => repr,
            Err(d) => {
                return Err(d);
            },
        };
        let ty: IntType = repr.int_type();
        match extract_variants(ty, ident.span, raws) {
            Ok(variants) => {
                let input: Input = Input {
                    ident: ident.duplicate(),
                    generics: generics.duplicate(),
                    repr,
                    variants,
                };
                proof {
                    assert forall|i: int| 0 <= i < input.variants@.len() implies ((
                    #[trigger] input.variants@[i]).value matches Some(v) ==> input.ty().holds(
                        v@,
                    ) && input.variants@[i].discriminant.eval(input.ty()) == Some(v@)) by {
                        assert(resolves(raws@, ty, i, input.variants@[i]));
                        if discriminant_at(raws@, ty, i) is Known {
                            lemma_discriminant_in_range(raws@, ty, i);
                        }
                    }
                }
                Ok(input)
            },
            Err(d) => Err(d),
        }
    }

    /// Resolves the declaration of an enumeration, looking for its
    /// representation under `policy`.
    pub fn from_enum(input: &EnumInput, policy: ReprPolicy) -> (r: Result<Input, Diagnostic>)
        ensures
            is_resolution(
                scan(policy, input.attrs@, input.span),
                input.ident,
                input.generics,
                input.data.variants@,
                r,
            ),
            r is Ok <==> resolvable(
                scan(policy, input.attrs@, input.span),
                input.data.variants@,
            ),
            r matches Ok(out) ==> out.wf(),
    {
        Input::from_parts(
            policy,
            input.span,
            input.attrs.as_slice(),
            &input.ident,
            &input.generics,
            input.data.variants.as_slice(),
        )
    }

    /// Resolves a declaration, which has to be that of an enumeration,
    /// looking for its representation under `policy`.
    pub fn from_syn(node: &DeriveInput, policy: ReprPolicy) -> (r: Result<Input, Diagnostic>)
        ensures
            match node.data {
                Data::Enum(data) => is_resolution(
                    scan(policy, node.attrs@, node.span),
                    node.ident,
                    node.generics,
                    data.variants@,
                    r,
                ),
                _ => r matches Err(d) && d@ == error_report(node.span, ONLY_ENUMS@),
            },
            r is Ok <==> (node.data matches Data::Enum(data) && resolvable(
                scan(policy, node.attrs@, node.span),
                data.variants@,
            )),
            r matches Ok(out) ==> out.wf(),
    {
        match &node.data {
            Data::Enum(data) => Input::from_parts(
                policy,
                node.span,
                node.attrs.as_slice(),
                &node.ident,
                &node.generics,
                data.variants.as_slice(),
            ),
            _ => Err(Diagnostic::error(node.span, ONLY_ENUMS)),
        }
    }
}

} // verus!
