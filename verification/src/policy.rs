//! How the representation of a declaration is looked for.
//!
//! Beside the scan that takes the first integer type it meets and falls
//! back on `isize`, there are two that insist on a declared representation:
//! one that stops at the first thing wrong, and one that gathers every
//! surplus item of a `repr` attribute into one diagnostic. Which of the
//! three is used is the caller's choice.

use vstd::prelude::*;
use crate::ast::{Attribute, Meta, Nested, Path};
use crate::diagnostic::{error_at, error_report, AnnotationView, Diagnostic, DiagnosticView, Level};
use crate::repr::{
    default_repr, resolve_repr, type_named, IntType, Repr, ReprView, Resolution, INVALID_REPR,
};
use crate::span::Span;

verus! {

/// The message for a `repr` attribute with more than one item.
pub const CONFLICTING_REPRS: &'static str = "conflicting reprs";

/// The message for a declaration without a `repr` attribute.
pub const MISSING_REPR: &'static str = "missing `repr` attribute";

/// The message for a `repr` attribute without an item.
pub const REPR_MISSING_INT: &'static str = "repr missing int type";

/// The message for each surplus item of a `repr` attribute.
pub const ONLY_ONE_REPR: &'static str = "only one repr expected";

/// The message for an item of a `repr` attribute that names no integer
/// type.
pub const INVALID_INT: &'static str = "invalid int type";

/// The message for a declaration without a `repr` attribute, where every
/// surplus item is reported.
pub const NO_REPR_FOUND: &'static str = "no #[repr(...)] found";

/// The representation that the only item of a `repr` attribute names, or
/// the error for an item that names none.
pub open spec fn only_item(meta: Meta, message: Seq<char>) -> Result<ReprView, DiagnosticView> {
    match meta {
        Meta::Path(path) => match path.spec_get_ident() {
            Some(ident) => match type_named(ident.name@) {
                Some(ty) => Ok(ReprView { ident: ident@, ty }),
                None => Err(error_report(ident.span, message)),
            },
            None => Err(error_report(meta.spec_span(), message)),
        },
        _ => Err(error_report(meta.spec_span(), message)),
    }
}

/// What the scan that stops at the first thing wrong finds from position
/// `from` on, for a declaration that stands at `whole`.
///
/// Only `repr` attributes count, and one without items is passed over. The
/// first that has items decides: it has to have exactly one, and that one
/// has to be the name of an integer type.
pub open spec fn resolve_strict(attrs: Seq<Attribute>, from: int, whole: Span) -> Result<
    ReprView,
    DiagnosticView,
>
    decreases attrs.len() - from,
{
    if from < 0 || from >= attrs.len() {
        Err(error_report(whole, MISSING_REPR@))
    } else if !attrs[from].path.spec_is_ident("repr"@) {
        resolve_strict(attrs, from + 1, whole)
    } else {
        match attrs[from].nested {
            Nested::Invalid(span, message) => Err(error_report(span, message@)),
            Nested::Metas(metas) => if metas@.len() == 0 {
                resolve_strict(attrs, from + 1, whole)
            } else if metas@.len() > 1 {
                Err(error_report(attrs[from].span, CONFLICTING_REPRS@))
            } else {
                only_item(metas@[0], INVALID_REPR@)
            },
        }
    }
}

/// One error for each of the items of `metas` from the third to the one
/// before position `n`.
pub open spec fn surplus_errors(metas: Seq<Meta>, n: int) -> Seq<AnnotationView>
    decreases n,
{
    if n <= 2 {
        Seq::empty()
    } else {
        surplus_errors(metas, n - 1).push(error_at(metas[n - 1].spec_span(), ONLY_ONE_REPR@))
    }
}

/// The diagnostic for a `repr` attribute with more than one item: one error
/// for each item after the first, the first of them as the primary message.
pub open spec fn surplus_report(metas: Seq<Meta>) -> DiagnosticView {
    DiagnosticView {
        level: Level::Error,
        span: metas[1].spec_span(),
        message: ONLY_ONE_REPR@,
        children: surplus_errors(metas, metas.len() as int),
    }
}

/// What the scan finds from position `from` on that reports every surplus
/// item.
///
/// The first `repr` attribute decides: it has to have exactly one item, and
/// that one has to be the name of an integer type.
pub open spec fn resolve_gathering(attrs: Seq<Attribute>, from: int) -> Result<
    ReprView,
    DiagnosticView,
>
    decreases attrs.len() - from,
{
    if from < 0 || from >= attrs.len() {
        Err(error_report(Span::call_site(), NO_REPR_FOUND@))
    } else if !attrs[from].path.spec_is_ident("repr"@) {
        resolve_gathering(attrs, from + 1)
    } else {
        match attrs[from].nested {
            Nested::Invalid(span, message) => Err(error_report(span, message@)),
            Nested::Metas(metas) => if metas@.len() == 0 {
                Err(error_report(attrs[from].span, REPR_MISSING_INT@))
            } else if metas@.len() > 1 {
                Err(surplus_report(metas@))
            } else {
                only_item(metas@[0], INVALID_INT@)
            },
        }
    }
}

/// Whether `r` gives what the scan `expected`.
pub open spec fn gives(r: Result<Repr, Diagnostic>, expected: Result<ReprView, DiagnosticView>)
    -> bool {
    match expected {
        Ok(repr) => r matches Ok(found) && found@ == repr,
        Err(report) => r matches Err(d) && d@ == report,
    }
}

/// The representation that the only item `meta` of a `repr` attribute
/// names; an item that names none is an error with the given message.
fn read_only_item(meta: &Meta, message: &str) -> (r: Result<Repr, Diagnostic>)
    ensures
        gives(r, only_item(*meta, message@)),
{
    match meta {
        Meta::Path(path) => validate(path, meta.span(), message),
        _ => Err(Diagnostic::error(meta.span(), message)),
    }
}

fn validate(path: &Path, span: Span, message: &str) -> (r: Result<Repr, Diagnostic>)
    ensures
        gives(
            r,
            match path.spec_get_ident() {
                Some(ident) => match type_named(ident.name@) {
                    Some(ty) => Ok(ReprView { ident: ident@, ty }),
                    None => Err(error_report(ident.span, message@)),
                },
                None => Err(error_report(span, message@)),
            },
        ),
{
    match path.get_ident() {
        Some(ident) => match IntType::parse(ident.name.as_str()) {
            Some(ty) => Ok(Repr { ident: ident.duplicate(), style: ty.style, size: ty.size }),
            None => Err(Diagnostic::error(ident.span, message)),
        },
        None => Err(Diagnostic::error(span, message)),
    }
}

/// The representation that the path names: the path has to be one
/// identifier, and that the name of an integer type.
pub fn validate_repr(path: &Path) -> (r: Result<Repr, Diagnostic>)
    ensures
        gives(r, only_item(Meta::Path(*path), INVALID_INT@)),
{
    let span: Span = if path.segments.len() > 0 {
        path.segments[0].span
    } else {
        Span::call_site()
    };
    validate(path, span, INVALID_INT)
}

impl Repr {
    /// The representation that the attributes of the declaration at `whole`
    /// name, for a declaration that has to name one.
    ///
    /// The first `repr` attribute that has any item decides. It has to have
    /// one item only, the name of an integer type. A declaration without
    /// such an attribute is an error.
    pub fn from_attrs(attrs: &[Attribute], whole: Span) -> (r: Result<Repr, Diagnostic>)
        ensures
            gives(r, resolve_strict(attrs@, 0, whole)),
    {
        let mut i: usize = 0;
        while i < attrs.len()
            invariant
                0 <= i <= attrs@.len(),
                resolve_strict(attrs@, 0, whole) == resolve_strict(attrs@, i as int, whole),
            decreases attrs@.len() - i,
        {
            let attr: &Attribute = &attrs[i];
            if attr.path.is_ident("repr") {
                match &attr.nested {
                    Nested::Invalid(span, message) => {
                        return Err(Diagnostic::error(*span, message.as_str()));
                    },
                    Nested::Metas(metas) => {
                        if metas.len() > 1 {
                            return Err(Diagnostic::error(attr.span, CONFLICTING_REPRS));
                        }
                        if metas.len() == 1 {
                            return read_only_item(&metas[0], INVALID_REPR);
                        }
                    },
                }
            }
            i = i + 1;
        }
        Err(Diagnostic::error(whole, MISSING_REPR))
    }
}

/// The representation that the attributes of a declaration name, for a
/// declaration that has to name one.
///
/// The first `repr` attribute decides. It has to have one item only, the
/// name of an integer type; each item beyond the first is reported with an
/// error of its own, all in one diagnostic.
pub fn repr_from_attrs(attrs: &[Attribute]) -> (r: Result<Repr, Diagnostic>)
    ensures
        gives(r, resolve_gathering(attrs@, 0)),
{
    let mut i: usize = 0;
    while i < attrs.len()
        invariant
            0 <= i <= attrs@.len(),
            resolve_gathering(attrs@, 0) == resolve_gathering(attrs@, i as int),
        decreases attrs@.len() - i,
    {
        let attr: &Attribute = &attrs[i];
        if attr.path.is_ident("repr") {
            match &attr.nested {
                Nested::Invalid(span, message) => {
                    return Err(Diagnostic::error(*span, message.as_str()));
                },
                Nested::Metas(metas) => {
                    if metas.len() == 0 {
                        return Err(Diagnostic::error(attr.span, REPR_MISSING_INT));
                    }
                    if metas.len() > 1 {
                        let mut errs: Diagnostic = Diagnostic::error(
                            metas[1].span(),
                            ONLY_ONE_REPR,
                        );
                        let mut k: usize = 2;
                        while k < metas.len()
                            invariant
                                2 <= k <= metas@.len(),
                                errs@ == (DiagnosticView {
                                    children: surplus_errors(metas@, k as int),
                                    ..surplus_report(metas@)
                                }),
                            decreases metas@.len() - k,
                        {
                            errs = errs.span_error(metas[k].span(), ONLY_ONE_REPR);
                            k = k + 1;
                        }
                        return Err(errs);
                    }
                    return read_only_item(&metas[0], INVALID_INT);
                },
            }
        }
        i = i + 1;
    }
    Err(Diagnostic::error(Span::call_site(), NO_REPR_FOUND))
}

/// How the representation of a declaration is looked for.
#[derive(Clone, Copy, Debug, PartialEq, Eq, Structural)]
pub enum ReprPolicy {
    /// The first integer type named in a `repr` attribute is taken, other
    /// items are passed over, and a declaration that names none has `isize`.
    FirstMatch,
    /// The declaration has to name its representation, alone in its `repr`
    /// attribute; the scan stops at the first thing wrong.
    Strict,
    /// The declaration has to name its representation, alone in its first
    /// `repr` attribute; every surplus item is reported.
    Gathering,
}

/// What the scan that takes the first integer type finds.
pub open spec fn resolve_first_match(attrs: Seq<Attribute>) -> Result<ReprView, DiagnosticView> {
    match resolve_repr(attrs, 0) {
        Resolution::Found(ident, ty) => Ok(ReprView { ident: ident@, ty }),
        Resolution::Absent => Ok(default_repr()),
        Resolution::Malformed(span, message) => Err(error_report(span, message)),
    }
}

/// What the scan for the representation finds under `policy`, for a
/// declaration that stands at `whole`.
pub open spec fn scan(policy: ReprPolicy, attrs: Seq<Attribute>, whole: Span) -> Result<
    ReprView,
    DiagnosticView,
> {
    match policy {
        ReprPolicy::FirstMatch => resolve_first_match(attrs),
        ReprPolicy::Strict => resolve_strict(attrs, 0, whole),
        ReprPolicy::Gathering => resolve_gathering(attrs, 0),
    }
}

impl Repr {
    /// Looks for the representation among the attributes of the declaration
    /// at `whole`, under `policy`.
    pub fn resolve(policy: ReprPolicy, attrs: &[Attribute], whole: Span) -> (r: Result<
        Repr,
        Diagnostic,
    >)
        ensures
            gives(r, scan(policy, attrs@, whole)),
    {
        match policy {
            ReprPolicy::FirstMatch => Repr::from_attributes(attrs),
            ReprPolicy::Strict => Repr::from_attrs(attrs, whole),
            ReprPolicy::Gathering => repr_from_attrs(attrs),
        }
    }
}

} // verus!
