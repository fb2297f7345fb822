//! Enumeration errors, as reported without a code.
use vstd::prelude::*;
use vstd::string::*;
use crate::diag::{Diagnostic, DiagnosticView, Severity, Span};
use crate::text::{cat2, cat3, cat4, cat5, cat6, cat7};

use crate::diag::RelatedView;

use crate::diag::Tag;
use crate::diag::FixView;

verus! {

/// An enumeration error.
pub enum EnumError {
    /// An ENUM of a type that is not an integer type (named `typ`).
    InvalidEnumType { value: Span, typ: String },
}

impl EnumError {
    /// An error diagnostic of this error at `span`, with no code.
    pub open spec fn err(&self, message: Seq<char>, span: Span) -> DiagnosticView {
        DiagnosticView::plain(message, Some(Severity::Error), span)
    }

    fn error_at(&self, message: String, span: Span) -> (d: Diagnostic)
        ensures
            d@ == self.err(message@, span),
    {
        Diagnostic::plain(message, Some(Severity::Error), span)
    }

    /// The diagnostic this error renders to.
    pub open spec fn spec_to_diagnostic(&self) -> DiagnosticView {
        match self {
            EnumError::InvalidEnumType { value, typ } =>
                self.err("invalid enum type '"@ + typ@ + "'"@, *value)
                .note("only numeric integer types are allowed for ENUM"@),
        }
    }

    /// Renders the error as a diagnostic.
    #[verifier::rlimit(60)]
    pub fn to_diagnostic(&self) -> (d: Diagnostic)
        ensures
            d@ == self.spec_to_diagnostic(),
    {
        match self {
            EnumError::InvalidEnumType { value, typ } => {
                let mut d = self.error_at(cat3("invalid enum type '", typ.as_str(), "'"), *value);
                d.with_note(String::from_str("only numeric integer types are allowed for ENUM"));
                d
            },
        }
    }

}

/// Each kind of `EnumError` is reported at the span of what it concerns, with
/// its message and severity, whatever names, spans and texts it holds; a
/// kind whose diagnostic is built directly also carries exactly the
/// related locations, notes, tags, source and quick fixes listed.
pub proof fn law_enum_error_rendering(this: EnumError)
    ensures
        match this {
            EnumError::InvalidEnumType { value, typ } => {
                let d = this.spec_to_diagnostic();
                &&& d.message == "invalid enum type '"@ + typ@ + "'"@
                &&& d.span == value
                &&& d.severity == Some(Severity::Error)
                &&& d.related == Seq::<RelatedView>::empty()
                &&& d.notes == Seq::<Seq<char>>::empty().push("only numeric integer types are allowed for ENUM"@)
                &&& d.tags == Seq::<Tag>::empty()
                &&& d.source == None::<Seq<char>>
                &&& d.fixes == Seq::<FixView>::empty()
            },
        },
{
}

} // verus!
