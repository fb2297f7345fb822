//! E06xx (earlier numbering): array errors.
use vstd::prelude::*;
use vstd::string::*;
use crate::diag::{Diagnostic, DiagnosticView, Span};
use crate::hir::SpanIdent;
use crate::text::{cat2, cat3, cat4, cat5, cat6, cat7, decimal, u64_to_string, usize_to_string};

use crate::diag::RelatedView;
use crate::diag::Severity;

use crate::diag::Tag;
use crate::diag::FixView;

verus! {

/// An array error.
pub enum ArrayError {
    /// A lower bound that is not a valid value.
    InvalidArrayLowerValue { value: Span },
    /// An upper bound that is not a valid value.
    InvalidArrayUpperValue { value: Span },
    /// An upper bound below the lower bound.
    InferiorUpperBound { lower: i64, upper: i64, upper_expr: Span },
    /// An initializer with more elements than the dimension (counted from zero) holds.
    TooManyElements { expr: Span, dimension: usize, max_size: usize },
    /// An index value that does not parse, with why.
    InvalidIndex { size: SpanIdent, err: String },
    /// A constant index outside its dimension (counted from zero).
    IndexOutOfBounds { size: SpanIdent, dimension: usize, index: u64, min: u64, max: u64 },
}

impl ArrayError {
    pub open spec fn spec_code(&self) -> Seq<char> {
        match self {
            ArrayError::InvalidArrayLowerValue { .. } => "E0601"@,
            ArrayError::InvalidArrayUpperValue { .. } => "E0602"@,
            ArrayError::InferiorUpperBound { .. } => "E0603"@,
            ArrayError::TooManyElements { .. } => "E0605"@,
            ArrayError::InvalidIndex { .. } => "E0607"@,
            ArrayError::IndexOutOfBounds { .. } => "E0608"@,
        }
    }

    /// The stable code of the error.
    pub fn code(&self) -> (r: &'static str)
        ensures
            r@ == self.spec_code(),
    {
        match self {
            ArrayError::InvalidArrayLowerValue { .. } => "E0601",
            ArrayError::InvalidArrayUpperValue { .. } => "E0602",
            ArrayError::InferiorUpperBound { .. } => "E0603",
            ArrayError::TooManyElements { .. } => "E0605",
            ArrayError::InvalidIndex { .. } => "E0607",
            ArrayError::IndexOutOfBounds { .. } => "E0608",
        }
    }

    pub open spec fn spec_description(&self) -> Seq<char> {
        match self {
            ArrayError::InvalidArrayLowerValue { .. } => "invalid array bounds"@,
            ArrayError::InvalidArrayUpperValue { .. } => "invalid array bounds"@,
            ArrayError::InferiorUpperBound { .. } => "invalid array bounds"@,
            ArrayError::TooManyElements { .. } => "invalid array access"@,
            ArrayError::InvalidIndex { .. } => "invalid array access"@,
            ArrayError::IndexOutOfBounds { .. } => "invalid array access"@,
        }
    }

    /// The short description of the error's kind.
    pub fn description(&self) -> (r: &'static str)
        ensures
            r@ == self.spec_description(),
    {
        match self {
            ArrayError::InvalidArrayLowerValue { .. } => "invalid array bounds",
            ArrayError::InvalidArrayUpperValue { .. } => "invalid array bounds",
            ArrayError::InferiorUpperBound { .. } => "invalid array bounds",
            ArrayError::TooManyElements { .. } => "invalid array access",
            ArrayError::InvalidIndex { .. } => "invalid array access",
            ArrayError::IndexOutOfBounds { .. } => "invalid array access",
        }
    }

    /// An error diagnostic of this error at `span`.
    pub open spec fn err(&self, message: Seq<char>, span: Span) -> DiagnosticView {
        DiagnosticView::error(message, self.spec_code(), self.spec_description(), span)
    }

    fn error_at(&self, message: String, span: Span) -> (d: Diagnostic)
        ensures
            d@ == self.err(message@, span),
    {
        Diagnostic::error(message, self.code(), self.description(), span)
    }

    /// The diagnostic this error renders to.
    pub open spec fn spec_to_diagnostic(&self) -> DiagnosticView {
        match self {
            ArrayError::InvalidArrayLowerValue { value } =>
                self.err("invalid lower bound value for ARRAY"@, *value),
            ArrayError::InvalidArrayUpperValue { value } =>
                self.err("invalid upper bound value for ARRAY"@, *value),
            ArrayError::InferiorUpperBound { lower, upper, upper_expr } =>
                self.err("upper bound value must be greater than lower bound value"@, *upper_expr),
            ArrayError::TooManyElements { expr, dimension, max_size } =>
                {
                    let d = self.err("too many elements in array initializer (expected at most "@ + decimal(*max_size as nat) + ")"@, *expr);
                    if *dimension > 0 {
                        d.note("this error occurred in array dimension "@ + decimal(*dimension as nat + 1))
                    } else {
                        d
                    }
                },
            ArrayError::InvalidIndex { size, err } =>
                self.err("invalid index value '"@ + size.text@ + "': "@ + err@, size.span),
            ArrayError::IndexOutOfBounds { size, dimension, index, min, max } =>
                {
                    let d = self.err(
                        "index '"@ + decimal(*index as nat) + "' is out of bounds (expected between "@ + decimal(*min as nat) + " and "@
                            + decimal(*max as nat) + ")"@,
                        size.span,
                    );
                    if *dimension > 0 {
                        d.note("this error occurred in array dimension "@ + decimal(*dimension as nat + 1))
                    } else {
                        d
                    }
                },
        }
    }

    /// Renders the error as a diagnostic.
    #[verifier::rlimit(60)]
    pub fn to_diagnostic(&self) -> (d: Diagnostic)
        requires
            self.dimension_fits(),
        ensures
            d@ == self.spec_to_diagnostic(),
    {
        match self {
            ArrayError::InvalidArrayLowerValue { value } => {
                self.error_at(String::from_str("invalid lower bound value for ARRAY"), *value)
            },
            ArrayError::InvalidArrayUpperValue { value } => {
                self.error_at(String::from_str("invalid upper bound value for ARRAY"), *value)
            },
            ArrayError::InferiorUpperBound { lower, upper, upper_expr } => {
                self.error_at(String::from_str("upper bound value must be greater than lower bound value"), *upper_expr)
            },
            ArrayError::TooManyElements { expr, dimension, max_size } => {
                let m = usize_to_string(*max_size);
                let mut d = self.error_at(cat3("too many elements in array initializer (expected at most ", m.as_str(), ")"), *expr);
                if *dimension > 0 {
                    let n = usize_to_string(*dimension + 1);
                    d.with_note(cat2("this error occurred in array dimension ", n.as_str()));
                }
                d
            },
            ArrayError::InvalidIndex { size, err } => {
                self.error_at(cat4("invalid index value '", size.text.as_str(), "': ", err.as_str()), size.span)
            },
            ArrayError::IndexOutOfBounds { size, dimension, index, min, max } => {
                let i = u64_to_string(*index);
                let lo = u64_to_string(*min);
                let hi = u64_to_string(*max);
                let mut d = self.error_at(
                    cat7("index '", i.as_str(), "' is out of bounds (expected between ", lo.as_str(), " and ", hi.as_str(), ")"),
                    size.span,
                );
                if *dimension > 0 {
                    let n = usize_to_string(*dimension + 1);
                    d.with_note(cat2("this error occurred in array dimension ", n.as_str()));
                }
                d
            },
        }
    }
    /// Whether the dimension the error names can be numbered from one.
    pub open spec fn dimension_fits(&self) -> bool {
        match self {
            ArrayError::TooManyElements { dimension, .. } => *dimension < usize::MAX,
            ArrayError::IndexOutOfBounds { dimension, .. } => *dimension < usize::MAX,
            _ => true,
        }
    }

}

/// Each kind of `ArrayError` is reported at the span of what it concerns, with
/// its message and severity, whatever names, spans and texts it holds; a
/// kind whose diagnostic is built directly also carries exactly the
/// related locations, notes, tags, source and quick fixes listed.
pub proof fn law_array_error_rendering(this: ArrayError)
    ensures
        match this {
            ArrayError::InvalidArrayLowerValue { value } => {
                let d = this.spec_to_diagnostic();
                &&& d.message == "invalid lower bound value for ARRAY"@
                &&& d.span == value
                &&& d.severity == Some(Severity::Error)
                &&& d.related == Seq::<RelatedView>::empty()
                &&& d.notes == Seq::<Seq<char>>::empty()
                &&& d.tags == Seq::<Tag>::empty()
                &&& d.source == None::<Seq<char>>
                &&& d.fixes == Seq::<FixView>::empty()
            },
            ArrayError::InvalidArrayUpperValue { value } => {
                let d = this.spec_to_diagnostic();
                &&& d.message == "invalid upper bound value for ARRAY"@
                &&& d.span == value
                &&& d.severity == Some(Severity::Error)
                &&& d.related == Seq::<RelatedView>::empty()
                &&& d.notes == Seq::<Seq<char>>::empty()
                &&& d.tags == Seq::<Tag>::empty()
                &&& d.source == None::<Seq<char>>
                &&& d.fixes == Seq::<FixView>::empty()
            },
            ArrayError::InferiorUpperBound { lower, upper, upper_expr } => {
                let d = this.spec_to_diagnostic();
                &&& d.message == "upper bound value must be greater than lower bound value"@
                &&& d.span == upper_expr
                &&& d.severity == Some(Severity::Error)
                &&& d.related == Seq::<RelatedView>::empty()
                &&& d.notes == Seq::<Seq<char>>::empty()
                &&& d.tags == Seq::<Tag>::empty()
                &&& d.source == None::<Seq<char>>
                &&& d.fixes == Seq::<FixView>::empty()
            },
            ArrayError::TooManyElements { expr, dimension, max_size } => {
                let d = this.spec_to_diagnostic();
                &&& d.message == "too many elements in array initializer (expected at most "@ + decimal(max_size as nat) + ")"@
                &&& d.span == expr
                &&& d.severity == Some(Severity::Error)
            },
            ArrayError::InvalidIndex { size, err } => {
                let d = this.spec_to_diagnostic();
                &&& d.message == "invalid index value '"@ + size.text@ + "': "@ + err@
                &&& d.span == size.span
                &&& d.severity == Some(Severity::Error)
                &&& d.related == Seq::<RelatedView>::empty()
                &&& d.notes == Seq::<Seq<char>>::empty()
                &&& d.tags == Seq::<Tag>::empty()
                &&& d.source == None::<Seq<char>>
                &&& d.fixes == Seq::<FixView>::empty()
            },
            ArrayError::IndexOutOfBounds { size, dimension, index, min, max } => {
                let d = this.spec_to_diagnostic();
                &&& d.message == "index '"@ + decimal(index as nat) + "' is out of bounds (expected between "@ + decimal(min as nat) + " and "@ + decimal(max as nat) + ")"@
                &&& d.span == size.span
                &&& d.severity == Some(Severity::Error)
            },
        },
{
}

} // verus!
