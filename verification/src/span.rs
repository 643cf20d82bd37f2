//! Source locations.
//!
//! The engine reads nothing into a span: it takes spans in with the
//! declaration and hands them back in its diagnostics.

use vstd::prelude::*;

verus! {

/// A region of a declaration, told apart from others by where it begins and
/// where it ends.
#[derive(Clone, Copy, Debug, PartialEq, Eq, Structural)]
pub struct Span {
    pub lo: usize,
    pub hi: usize,
}

impl Span {
    /// The span that stands for the whole invocation rather than for a part
    /// of the declaration.
    pub open spec fn spec_call_site() -> Span {
        Span { lo: 0, hi: 0 }
    }

    #[verifier::when_used_as_spec(spec_call_site)]
    pub fn call_site() -> (r: Span)
        ensures
            r == Span::spec_call_site(),
    {
        Span { lo: 0, hi: 0 }
    }

    /// The span from `lo` to `hi`.
    pub fn new(lo: usize, hi: usize) -> (r: Span)
        ensures
            r == (Span { lo, hi }),
    {
        Span { lo, hi }
    }
}

/// The two ends of a span, each as an empty span of its own.
pub trait SpanExt {
    spec fn spec_start(&self) -> Span;

    spec fn spec_end(&self) -> Span;

    fn start(&self) -> (r: Span)
        ensures
            r == self.spec_start(),
    ;

    fn end(&self) -> (r: Span)
        ensures
            r == self.spec_end(),
    ;
}

impl SpanExt for Span {
    open spec fn spec_start(&self) -> Span {
        Span { lo: self.lo, hi: self.lo }
    }

    open spec fn spec_end(&self) -> Span {
        Span { lo: self.hi, hi: self.hi }
    }

    fn start(&self) -> (r: Span) {
        Span { lo: self.lo, hi: self.lo }
    }

    fn end(&self) -> (r: Span) {
        Span { lo: self.hi, hi: self.hi }
    }
}

/// The empty span at the end of `span`.
pub fn end(span: Span) -> (r: Span)
    ensures
        r == span.spec_end(),
        r.lo == span.hi && r.hi == span.hi,
{
    span.end()
}

} // verus!
