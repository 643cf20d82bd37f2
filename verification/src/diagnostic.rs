//! Structured error reports.
//!
//! A [`Diagnostic`] carries one primary message with its span and any number
//! of secondary annotations, so that everything wrong with one declaration
//! is reported at once.

use vstd::prelude::*;
use crate::span::Span;

verus! {

/// How severe a message is.
#[derive(Clone, Copy, Debug, PartialEq, Eq, Structural)]
pub enum Level {
    Error,
    Warning,
    Note,
    Help,
}

/// A secondary message attached to a diagnostic.
#[derive(Clone, Debug, PartialEq, Eq)]
pub struct Annotation {
    pub level: Level,
    pub span: Span,
    pub message: String,
}

/// What an [`Annotation`] says.
pub struct AnnotationView {
    pub level: Level,
    pub span: Span,
    pub message: Seq<char>,
}

impl View for Annotation {
    type V = AnnotationView;

    open spec fn view(&self) -> AnnotationView {
        AnnotationView { level: self.level, span: self.span, message: self.message@ }
    }
}

/// One error report: a primary message and the annotations collected with it.
#[derive(Clone, Debug, PartialEq, Eq)]
pub struct Diagnostic {
    pub level: Level,
    pub span: Span,
    pub message: String,
    pub children: Vec<Annotation>,
}

/// What a [`Diagnostic`] says.
pub struct DiagnosticView {
    pub level: Level,
    pub span: Span,
    pub message: Seq<char>,
    pub children: Seq<AnnotationView>,
}

impl View for Diagnostic {
    type V = DiagnosticView;

    open spec fn view(&self) -> DiagnosticView {
        DiagnosticView {
            level: self.level,
            span: self.span,
            message: self.message@,
            children: self.children@.map_values(|a: Annotation| a@),
        }
    }
}

/// The annotation that [`Diagnostic::span_warning`] adds.
pub open spec fn warning_at(span: Span, message: Seq<char>) -> AnnotationView {
    AnnotationView { level: Level::Warning, span, message }
}

/// The annotation that [`Diagnostic::span_error`] adds.
pub open spec fn error_at(span: Span, message: Seq<char>) -> AnnotationView {
    AnnotationView { level: Level::Error, span, message }
}

/// The diagnostic that [`Diagnostic::error`] makes.
pub open spec fn error_report(span: Span, message: Seq<char>) -> DiagnosticView {
    DiagnosticView { level: Level::Error, span, message, children: Seq::empty() }
}

impl Diagnostic {
    /// An error at `span`, with no annotations yet.
    pub fn error(span: Span, message: &str) -> (d: Diagnostic)
        ensures
            d@ == error_report(span, message@),
    {
        let d = Diagnostic {
            level: Level::Error,
            span,
            message: message.to_owned(),
            children: Vec::new(),
        };
        assert(d@.children =~= Seq::empty());
        d
    }

    /// The same diagnostic with one more annotation of the given level.
    pub fn spanned_child(self, span: Span, level: Level, message: &str) -> (d: Diagnostic)
        ensures
            d@ == (DiagnosticView {
                children: self@.children.push(AnnotationView { level, span, message: message@ }),
                ..self@
            }),
    {
        let mut d = self;
        d.children.push(Annotation { level, span, message: message.to_owned() });
        assert(d@.children =~= self@.children.push(
            AnnotationView { level, span, message: message@ },
        ));
        d
    }

    /// The same diagnostic with one more warning.
    pub fn span_warning(self, span: Span, message: &str) -> (d: Diagnostic)
        ensures
            d@ == (DiagnosticView {
                children: self@.children.push(warning_at(span, message@)),
                ..self@
            }),
    {
        self.spanned_child(span, Level::Warning, message)
    }

    /// The same diagnostic with one more error.
    pub fn span_error(self, span: Span, message: &str) -> (d: Diagnostic)
        ensures
            d@ == (DiagnosticView {
                children: self@.children.push(error_at(span, message@)),
                ..self@
            }),
    {
        self.spanned_child(span, Level::Error, message)
    }
}

} // verus!
