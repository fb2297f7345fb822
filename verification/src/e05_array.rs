//! E05xx: array errors.
use vstd::prelude::*;
use vstd::string::*;
use crate::diag::{Diagnostic, DiagnosticView, Span};
use crate::hir::SpanIdent;
use crate::text::{cat2, cat3, cat4, cat5, cat6, cat7, decimal, i128_to_string, signed_decimal, usize_to_string};

use crate::diag::RelatedView;
use crate::diag::Severity;

use crate::diag::Tag;
use crate::diag::FixView;

verus! {

/// An array error.
pub enum ArrayError {
    /// A lower bound that is not a valid value.
    InvalidArrayLowerValue { value: Span },
    /// An upper bound that is not a valid value.
    InvalidArrayUpperValue { value: Span },
    /// An upper bound below the lower bound.
    InferiorUpperBound { lower: i64, upper: i64, upper_expr: Span },
    /// An index that is not an integer (of the type named `ty`).
    NonIntegerIndex { expr: Span, ty: String },
    /// An index value that does not parse, with why.
    InvalidIndex { size: SpanIdent, err: String },
    /// A constant index outside its dimension (counted from zero).
    IndexOutOfBounds { expr: Span, dimension: usize, index: i64, min: i64, max: i64 },
    /// An initializer with more elements than the dimension (counted from zero) holds.
    TooManyElements { expr: Span, dimension: usize, max_size: usize },
    /// An initializer indexes a type that is not an array.
    IndexNonArrayTypeInitExpr { expr: Span, ty: String },
    /// A path indexes a type that is not an array.
    IndexNonArrayTypePathExpr { expr: Span, ty: String },
    /// An `ARRAY[*]` conformand.
    ArrayConformandNotSupported(Span),
}

impl ArrayError {
    pub open spec fn spec_code(&self) -> Seq<char> {
        match self {
            ArrayError::InvalidArrayLowerValue { .. } => "E0501"@,
            ArrayError::InvalidArrayUpperValue { .. } => "E0502"@,
            ArrayError::InferiorUpperBound { .. } => "E0503"@,
            ArrayError::NonIntegerIndex { .. } => "E0504"@,
            ArrayError::InvalidIndex { .. } => "E0505"@,
            ArrayError::IndexOutOfBounds { .. } => "E0506"@,
            ArrayError::TooManyElements { .. } => "E0507"@,
            ArrayError::IndexNonArrayTypeInitExpr { .. } => "E0508"@,
            ArrayError::IndexNonArrayTypePathExpr { .. } => "E0508"@,
            ArrayError::ArrayConformandNotSupported(..) => "E0509"@,
        }
    }

    /// The stable code of the error.
    pub fn code(&self) -> (r: &'static str)
        ensures
            r@ == self.spec_code(),
    {
        match self {
            ArrayError::InvalidArrayLowerValue { .. } => "E0501",
            ArrayError::InvalidArrayUpperValue { .. } => "E0502",
            ArrayError::InferiorUpperBound { .. } => "E0503",
            ArrayError::NonIntegerIndex { .. } => "E0504",
            ArrayError::InvalidIndex { .. } => "E0505",
            ArrayError::IndexOutOfBounds { .. } => "E0506",
            ArrayError::TooManyElements { .. } => "E0507",
            ArrayError::IndexNonArrayTypeInitExpr { .. } => "E0508",
            ArrayError::IndexNonArrayTypePathExpr { .. } => "E0508",
            ArrayError::ArrayConformandNotSupported(..) => "E0509",
        }
    }

    pub open spec fn spec_description(&self) -> Seq<char> {
        match self {
            ArrayError::InvalidArrayLowerValue { .. } => "invalid array bounds"@,
            ArrayError::InvalidArrayUpperValue { .. } => "invalid array bounds"@,
            ArrayError::InferiorUpperBound { .. } => "invalid array bounds"@,
            ArrayError::NonIntegerIndex { .. } => "invalid array access"@,
            ArrayError::InvalidIndex { .. } => "invalid array access"@,
            ArrayError::IndexOutOfBounds { .. } => "invalid array access"@,
            ArrayError::TooManyElements { .. } => "invalid array access"@,
            ArrayError::IndexNonArrayTypeInitExpr { .. } => "invalid operation"@,
            ArrayError::IndexNonArrayTypePathExpr { .. } => "invalid operation"@,
            ArrayError::ArrayConformandNotSupported(..) => "syntax"@,
        }
    }

    /// The short description of the error's kind.
    pub fn description(&self) -> (r: &'static str)
        ensures
            r@ == self.spec_description(),
    {
        match self {
            ArrayError::InvalidArrayLowerValue { .. } => "invalid array bounds",
            ArrayError::InvalidArrayUpperValue { .. } => "invalid array bounds",
            ArrayError::InferiorUpperBound { .. } => "invalid array bounds",
            ArrayError::NonIntegerIndex { .. } => "invalid array access",
            ArrayError::InvalidIndex { .. } => "invalid array access",
            ArrayError::IndexOutOfBounds { .. } => "invalid array access",
            ArrayError::TooManyElements { .. } => "invalid array access",
            ArrayError::IndexNonArrayTypeInitExpr { .. } => "invalid operation",
            ArrayError::IndexNonArrayTypePathExpr { .. } => "invalid operation",
            ArrayError::ArrayConformandNotSupported(..) => "syntax",
        }
    }

    /// An error diagnostic of this error at `span`.
    pub open spec fn err(&self, message: Seq<char>, span: Span) -> DiagnosticView {
        DiagnosticView::error(message, self.spec_code(), self.spec_description(), span)
    }

    fn error_at(&self, message: String, span: Span) -> (d: Diagnostic)
        ensures
            d@ == self.err(message@, span),
    {
        Diagnostic::error(message, self.code(), self.description(), span)
    }

    /// The diagnostic this error renders to.
    pub open spec fn spec_to_diagnostic(&self) -> DiagnosticView {
        match self {
            ArrayError::InvalidArrayLowerValue { value } =>
                self.err("invalid lower bound value for ARRAY"@, *value),
            ArrayError::InvalidArrayUpperValue { value } =>
                self.err("invalid upper bound value for ARRAY"@, *value),
            ArrayError::InferiorUpperBound { lower, upper, upper_expr } =>
                self.err("upper bound value must be greater than lower bound value"@, *upper_expr),
            ArrayError::NonIntegerIndex { expr, ty } =>
                self.err("array index must be an integer, found "@ + ty@, *expr),
            ArrayError::InvalidIndex { size, err } =>
                self.err("invalid index value '"@ + size.text@ + "': "@ + err@, size.span),
            ArrayError::IndexOutOfBounds { expr, dimension, index, min, max } =>
                {
                    let d = self.err(
                        "index "@ + signed_decimal(*index as int) + " is out of bounds (the dimension is declared "@ + signed_decimal(*min as int) + ".."@
                            + signed_decimal(*max as int) + ")"@,
                        *expr,
                    );
                    if *dimension > 0 {
                        d.note("this error occurred in array dimension "@ + decimal(*dimension as nat + 1))
                    } else {
                        d
                    }
                },
            ArrayError::TooManyElements { expr, dimension, max_size } =>
                {
                    let d = self.err("too many elements in array initializer (expected at most "@ + decimal(*max_size as nat) + ")"@, *expr);
                    if *dimension > 0 {
                        d.note("this error occurred in array dimension "@ + decimal(*dimension as nat + 1))
                    } else {
                        d
                    }
                },
            ArrayError::IndexNonArrayTypeInitExpr { expr, ty } =>
                self.err("cannot index into type '"@ + ty@ + "'"@, *expr),
            ArrayError::IndexNonArrayTypePathExpr { expr, ty } =>
                self.err("cannot index into type '"@ + ty@ + "'"@, *expr),
            ArrayError::ArrayConformandNotSupported(span) =>
                self.err("array conformands (ARRAY[*]) are not supported"@, *span),
        }
    }

    /// Renders the error as a diagnostic.
    #[verifier::rlimit(60)]
    pub fn to_diagnostic(&self) -> (d: Diagnostic)
        requires
            self.dimension_fits(),
        ensures
            d@ == self.spec_to_diagnostic(),
    {
        match self {
            ArrayError::InvalidArrayLowerValue { value } => {
                self.error_at(String::from_str("invalid lower bound value for ARRAY"), *value)
            },
            ArrayError::InvalidArrayUpperValue { value } => {
                self.error_at(String::from_str("invalid upper bound value for ARRAY"), *value)
            },
            ArrayError::InferiorUpperBound { lower, upper, upper_expr } => {
                self.error_at(String::from_str("upper bound value must be greater than lower bound value"), *upper_expr)
            },
            ArrayError::NonIntegerIndex { expr, ty } => {
                self.error_at(cat2("array index must be an integer, found ", ty.as_str()), *expr)
            },
            ArrayError::InvalidIndex { size, err } => {
                self.error_at(cat4("invalid index value '", size.text.as_str(), "': ", err.as_str()), size.span)
            },
            ArrayError::IndexOutOfBounds { expr, dimension, index, min, max } => {
                let i = i128_to_string(*index as i128);
                let lo = i128_to_string(*min as i128);
                let hi = i128_to_string(*max as i128);
                let mut d = self.error_at(
                    cat7("index ", i.as_str(), " is out of bounds (the dimension is declared ", lo.as_str(), "..", hi.as_str(), ")"),
                    *expr,
                );
                if *dimension > 0 {
                    let n = usize_to_string(*dimension + 1);
                    d.with_note(cat2("this error occurred in array dimension ", n.as_str()));
                }
                d
            },
            ArrayError::TooManyElements { expr, dimension, max_size } => {
                let m = usize_to_string(*max_size);
                let mut d = self.error_at(cat3("too many elements in array initializer (expected at most ", m.as_str(), ")"), *expr);
                if *dimension > 0 {
                    let n = usize_to_string(*dimension + 1);
                    d.with_note(cat2("this error occurred in array dimension ", n.as_str()));
                }
                d
            },
            ArrayError::IndexNonArrayTypeInitExpr { expr, ty } => {
                self.error_at(cat3("cannot index into type '", ty.as_str(), "'"), *expr)
            },
            ArrayError::IndexNonArrayTypePathExpr { expr, ty } => {
                self.error_at(cat3("cannot index into type '", ty.as_str(), "'"), *expr)
            },
            ArrayError::ArrayConformandNotSupported(span) => {
                self.error_at(String::from_str("array conformands (ARRAY[*]) are not supported"), *span)
            },
        }
    }
    /// Whether the dimension the error names can be numbered from one.
    pub open spec fn dimension_fits(&self) -> bool {
        match self {
            ArrayError::TooManyElements { dimension, .. } => *dimension < usize::MAX,
            ArrayError::IndexOutOfBounds { dimension, .. } => *dimension < usize::MAX,
            _ => true,
        }
    }

}

/// Each kind of `ArrayError` is reported at the span of what it concerns, with
/// its message and severity, whatever names, spans and texts it holds; a
/// kind whose diagnostic is built directly also carries exactly the
/// related locations, notes, tags, source and quick fixes listed.
pub proof fn law_array_error_rendering(this: ArrayError)
    ensures
        match this {
            ArrayError::InvalidArrayLowerValue { value } => {
                let d = this.spec_to_diagnostic();
                &&& d.message == "invalid lower bound value for ARRAY"@
                &&& d.span == value
                &&& d.severity == Some(Severity::Error)
                &&& d.related == Seq::<RelatedView>::empty()
                &&& d.notes == Seq::<Seq<char>>::empty()
                &&& d.tags == Seq::<Tag>::empty()
                &&& d.source == None::<Seq<char>>
                &&& d.fixes == Seq::<FixView>::empty()
            },
            ArrayError::InvalidArrayUpperValue { value } => {
                let d = this.spec_to_diagnostic();
                &&& d.message == "invalid upper bound value for ARRAY"@
                &&& d.span == value
                &&& d.severity == Some(Severity::Error)
                &&& d.related == Seq::<RelatedView>::empty()
                &&& d.notes == Seq::<Seq<char>>::empty()
                &&& d.tags == Seq::<Tag>::empty()
                &&& d.source == None::<Seq<char>>
                &&& d.fixes == Seq::<FixView>::empty()
            },
            ArrayError::InferiorUpperBound { lower, upper, upper_expr } => {
                let d = this.spec_to_diagnostic();
                &&& d.message == "upper bound value must be greater than lower bound value"@
                &&& d.span == upper_expr
                &&& d.severity == Some(Severity::Error)
                &&& d.related == Seq::<RelatedView>::empty()
                &&& d.notes == Seq::<Seq<char>>::empty()
                &&& d.tags == Seq::<Tag>::empty()
                &&& d.source == None::<Seq<char>>
                &&& d.fixes == Seq::<FixView>::empty()
            },
            ArrayError::NonIntegerIndex { expr, ty } => {
                let d = this.spec_to_diagnostic();
                &&& d.message == "array index must be an integer, found "@ + ty@
                &&& d.span == expr
                &&& d.severity == Some(Severity::Error)
                &&& d.related == Seq::<RelatedView>::empty()
                &&& d.notes == Seq::<Seq<char>>::empty()
                &&& d.tags == Seq::<Tag>::empty()
                &&& d.source == None::<Seq<char>>
                &&& d.fixes == Seq::<FixView>::empty()
            },
            ArrayError::InvalidIndex { size, err } => {
                let d = this.spec_to_diagnostic();
                &&& d.message == "invalid index value '"@ + size.text@ + "': "@ + err@
                &&& d.span == size.span
                &&& d.severity == Some(Severity::Error)
                &&& d.related == Seq::<RelatedView>::empty()
                &&& d.notes == Seq::<Seq<char>>::empty()
                &&& d.tags == Seq::<Tag>::empty()
                &&& d.source == None::<Seq<char>>
                &&& d.fixes == Seq::<FixView>::empty()
            },
            ArrayError::IndexOutOfBounds { expr, dimension, index, min, max } => {
                let d = this.spec_to_diagnostic();
                &&& d.message == "index "@ + signed_decimal(index as int) + " is out of bounds (the dimension is declared "@ + signed_decimal(min as int) + ".."@ + signed_decimal(max as int) + ")"@
                &&& d.span == expr
                &&& d.severity == Some(Severity::Error)
            },
            ArrayError::TooManyElements { expr, dimension, max_size } => {
                let d = this.spec_to_diagnostic();
                &&& d.message == "too many elements in array initializer (expected at most "@ + decimal(max_size as nat) + ")"@
                &&& d.span == expr
                &&& d.severity == Some(Severity::Error)
            },
            ArrayError::IndexNonArrayTypeInitExpr { expr, ty } => {
                let d = this.spec_to_diagnostic();
                &&& d.message == "cannot index into type '"@ + ty@ + "'"@
                &&& d.span == expr
                &&& d.severity == Some(Severity::Error)
                &&& d.related == Seq::<RelatedView>::empty()
                &&& d.notes == Seq::<Seq<char>>::empty()
                &&& d.tags == Seq::<Tag>::empty()
                &&& d.source == None::<Seq<char>>
                &&& d.fixes == Seq::<FixView>::empty()
            },
            ArrayError::IndexNonArrayTypePathExpr { expr, ty } => {
                let d = this.spec_to_diagnostic();
                &&& d.message == "cannot index into type '"@ + ty@ + "'"@
                &&& d.span == expr
                &&& d.severity == Some(Severity::Error)
                &&& d.related == Seq::<RelatedView>::empty()
                &&& d.notes == Seq::<Seq<char>>::empty()
                &&& d.tags == Seq::<Tag>::empty()
                &&& d.source == None::<Seq<char>>
                &&& d.fixes == Seq::<FixView>::empty()
            },
            ArrayError::ArrayConformandNotSupported(span) => {
                let d = this.spec_to_diagnostic();
                &&& d.message == "array conformands (ARRAY[*]) are not supported"@
                &&& d.span == span
                &&& d.severity == Some(Severity::Error)
                &&& d.related == Seq::<RelatedView>::empty()
                &&& d.notes == Seq::<Seq<char>>::empty()
                &&& d.tags == Seq::<Tag>::empty()
                &&& d.source == None::<Seq<char>>
                &&& d.fixes == Seq::<FixView>::empty()
            },
        },
{
}

} // verus!
