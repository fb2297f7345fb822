//! Subrange errors, as reported without a code.
use vstd::prelude::*;
use vstd::string::*;
use crate::diag::{Diagnostic, DiagnosticView, Severity, Span};
use crate::text::{cat2, cat3, cat4, cat5, cat6, cat7};

use crate::diag::RelatedView;

use crate::diag::Tag;
use crate::diag::FixView;

verus! {

/// A subrange error.
pub enum SubRangeError {
    /// A SUBRANGE of a type that is not an integer type (named `typ`).
    InvalidSubrangeType { spec_span: Span, typ: String },
}

impl SubRangeError {
    /// An error diagnostic of this error at `span`, with no code.
    pub open spec fn err(&self, message: Seq<char>, span: Span) -> DiagnosticView {
        DiagnosticView::plain(message, Some(Severity::Error), span)
    }

    fn error_at(&self, message: String, span: Span) -> (d: Diagnostic)
        ensures
            d@ == self.err(message@, span),
    {
        Diagnostic::plain(message, Some(Severity::Error), span)
    }

    /// The diagnostic this error renders to.
    pub open spec fn spec_to_diagnostic(&self) -> DiagnosticView {
        match self {
            SubRangeError::InvalidSubrangeType { spec_span, typ } =>
                self.err("invalid subrange type '"@ + typ@ + "'"@, *spec_span)
                .note("only numeric integer types are allowed for SUBRANGE"@),
        }
    }

    /// Renders the error as a diagnostic.
    #[verifier::rlimit(60)]
    pub fn to_diagnostic(&self) -> (d: Diagnostic)
        ensures
            d@ == self.spec_to_diagnostic(),
    {
        match self {
            SubRangeError::InvalidSubrangeType { spec_span, typ } => {
                let mut d = self.error_at(cat3("invalid subrange type '", typ.as_str(), "'"), *spec_span);
                d.with_note(String::from_str("only numeric integer types are allowed for SUBRANGE"));
                d
            },
        }
    }

}

/// Each kind of `SubRangeError` is reported at the span of what it concerns, with
/// its message and severity, whatever names, spans and texts it holds; a
/// kind whose diagnostic is built directly also carries exactly the
/// related locations, notes, tags, source and quick fixes listed.
pub proof fn law_sub_range_error_rendering(this: SubRangeError)
    ensures
        match this {
            SubRangeError::InvalidSubrangeType { spec_span, typ } => {
                let d = this.spec_to_diagnostic();
                &&& d.message == "invalid subrange type '"@ + typ@ + "'"@
                &&& d.span == spec_span
                &&& d.severity == Some(Severity::Error)
                &&& d.related == Seq::<RelatedView>::empty()
                &&& d.notes == Seq::<Seq<char>>::empty().push("only numeric integer types are allowed for SUBRANGE"@)
                &&& d.tags == Seq::<Tag>::empty()
                &&& d.source == None::<Seq<char>>
                &&& d.fixes == Seq::<FixView>::empty()
            },
        },
{
}

} // verus!
