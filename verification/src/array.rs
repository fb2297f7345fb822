//! Array bound errors, as reported without a code.
use vstd::prelude::*;
use vstd::string::*;
use crate::diag::{Diagnostic, DiagnosticView, Severity, Span};
use crate::coerce::ResolvedExpr;
use crate::text::{cat2, cat3, cat4, cat5, cat6, cat7};

use crate::diag::RelatedView;

use crate::diag::Tag;
use crate::diag::FixView;

verus! {

/// An array bound error.
pub enum ArrayError {
    /// A lower bound that is not a valid value.
    InvalidArrayLowerValue { value: ResolvedExpr },
    /// An upper bound that is not a valid value.
    InvalidArrayUpperValue { value: ResolvedExpr },
    /// An upper bound below the lower bound.
    InferiorUpperBound { lower: u64, upper: u64, upper_expr: ResolvedExpr },
}

impl ArrayError {
    /// An error diagnostic of this error at `span`, with no code.
    pub open spec fn err(&self, message: Seq<char>, span: Span) -> DiagnosticView {
        DiagnosticView::plain(message, Some(Severity::Error), span)
    }

    fn error_at(&self, message: String, span: Span) -> (d: Diagnostic)
        ensures
            d@ == self.err(message@, span),
    {
        Diagnostic::plain(message, Some(Severity::Error), span)
    }

    /// The diagnostic this error renders to.
    pub open spec fn spec_to_diagnostic(&self) -> DiagnosticView {
        match self {
            ArrayError::InvalidArrayLowerValue { value } =>
                self.err("Invalid lower bound value for ARRAY"@, value.span),
            ArrayError::InvalidArrayUpperValue { value } =>
                self.err("Invalid upper bound value for ARRAY"@, value.span),
            ArrayError::InferiorUpperBound { lower, upper, upper_expr } =>
                self.err("Upper bound value must be greater than lower bound value"@, upper_expr.span),
        }
    }

    /// Renders the error as a diagnostic.
    #[verifier::rlimit(60)]
    pub fn to_diagnostic(&self) -> (d: Diagnostic)
        ensures
            d@ == self.spec_to_diagnostic(),
    {
        match self {
            ArrayError::InvalidArrayLowerValue { value } => {
                self.error_at(String::from_str("Invalid lower bound value for ARRAY"), value.span)
            },
            ArrayError::InvalidArrayUpperValue { value } => {
                self.error_at(String::from_str("Invalid upper bound value for ARRAY"), value.span)
            },
            ArrayError::InferiorUpperBound { lower, upper, upper_expr } => {
                self.error_at(String::from_str("Upper bound value must be greater than lower bound value"), upper_expr.span)
            },
        }
    }

}

/// Each kind of `ArrayError` is reported at the span of what it concerns, with
/// its message and severity, whatever names, spans and texts it holds; a
/// kind whose diagnostic is built directly also carries exactly the
/// related locations, notes, tags, source and quick fixes listed.
pub proof fn law_array_error_rendering(this: ArrayError)
    ensures
        match this {
            ArrayError::InvalidArrayLowerValue { value } => {
                let d = this.spec_to_diagnostic();
                &&& d.message == "Invalid lower bound value for ARRAY"@
                &&& d.span == value.span
                &&& d.severity == Some(Severity::Error)
                &&& d.related == Seq::<RelatedView>::empty()
                &&& d.notes == Seq::<Seq<char>>::empty()
                &&& d.tags == Seq::<Tag>::empty()
                &&& d.source == None::<Seq<char>>
                &&& d.fixes == Seq::<FixView>::empty()
            },
            ArrayError::InvalidArrayUpperValue { value } => {
                let d = this.spec_to_diagnostic();
                &&& d.message == "Invalid upper bound value for ARRAY"@
                &&& d.span == value.span
                &&& d.severity == Some(Severity::Error)
                &&& d.related == Seq::<RelatedView>::empty()
                &&& d.notes == Seq::<Seq<char>>::empty()
                &&& d.tags == Seq::<Tag>::empty()
                &&& d.source == None::<Seq<char>>
                &&& d.fixes == Seq::<FixView>::empty()
            },
            ArrayError::InferiorUpperBound { lower, upper, upper_expr } => {
                let d = this.spec_to_diagnostic();
                &&& d.message == "Upper bound value must be greater than lower bound value"@
                &&& d.span == upper_expr.span
                &&& d.severity == Some(Severity::Error)
                &&& d.related == Seq::<RelatedView>::empty()
                &&& d.notes == Seq::<Seq<char>>::empty()
                &&& d.tags == Seq::<Tag>::empty()
                &&& d.source == None::<Seq<char>>
                &&& d.fixes == Seq::<FixView>::empty()
            },
        },
{
}

} // verus!
