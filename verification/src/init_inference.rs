//! Errors found while inferring initializer expressions.
use vstd::prelude::*;
use vstd::string::*;
use crate::body_inference::TypeError;
use crate::diag::{Diagnostic, DiagnosticView, Severity, Span};
use crate::e2_resolve::copy_texts;
use crate::hir::SpanIdent;
use crate::text::{cat2, cat3, cat4, cat5, cat6, cat7, decimal, texts, u64_to_string, usize_to_string};

use crate::diag::RelatedView;

use crate::diag::Tag;
use crate::diag::FixView;

verus! {

/// An error in an initializer expression.
pub enum InitInferenceError {
    /// An initializer names a field the type does not have; `hints` suggest similar fields of a STRUCT.
    NoSuchField { expr: Span, ident: String, ty: String, hints: Vec<String> },
    /// A structured initializer of an elementary type.
    IsElementaryType { expr: Span, ty: String },
    /// An initializer indexes a type that is not an array.
    IndexNonArrayType { expr: Span, ty: String },
    /// An index value that does not parse, with why.
    InvalidIndex { size: SpanIdent, err: String },
    /// A constant index outside its dimension (counted from zero).
    IndexOutOfBounds { size: SpanIdent, dimension: usize, index: u64, min: u64, max: u64 },
    /// A type mismatch.
    TypeMismatch(TypeError),
    /// An initializer with more elements than the dimension (counted from zero) holds.
    TooManyElements { expr: Span, dimension: usize, max_size: usize },
}

impl InitInferenceError {
    /// An error diagnostic of this error at `span`, with no code.
    pub open spec fn err(&self, message: Seq<char>, span: Span) -> DiagnosticView {
        DiagnosticView::plain(message, Some(Severity::Error), span)
    }

    fn error_at(&self, message: String, span: Span) -> (d: Diagnostic)
        ensures
            d@ == self.err(message@, span),
    {
        Diagnostic::plain(message, Some(Severity::Error), span)
    }

    /// The diagnostic this error renders to.
    pub open spec fn spec_to_diagnostic(&self) -> DiagnosticView {
        match self {
            InitInferenceError::NoSuchField { expr, ident, ty, hints } =>
                self.err("no field '"@ + ident@ + "' in type '"@ + ty@ + "'"@, *expr)
                .notes_all(texts(hints@)),
            InitInferenceError::IsElementaryType { expr, ty } =>
                self.err("type '"@ + ty@ + "' is an elementary type and cannot be initiliazed with '()'"@, *expr),
            InitInferenceError::IndexNonArrayType { expr, ty } =>
                self.err("cannot index into type '"@ + ty@ + "'"@, *expr),
            InitInferenceError::InvalidIndex { size, err } =>
                self.err("invalid index value '"@ + size.text@ + "': "@ + err@, size.span),
            InitInferenceError::IndexOutOfBounds { size, dimension, index, min, max } =>
                {
                    let d = self.err(
                        "index '"@ + decimal(*index as nat) + "' is out of bounds (expected between "@ + decimal(*min as nat) + " and "@
                            + decimal(*max as nat) + ")"@,
                        size.span,
                    );
                    if *dimension > 0 {
                        d.note("this error occurred in array dimension "@ + decimal(*dimension as nat + 1))
                    } else {
                        d
                    }
                },
            InitInferenceError::TypeMismatch(mismatch) =>
                mismatch.spec_to_diagnostic(),
            InitInferenceError::TooManyElements { expr, dimension, max_size } =>
                {
                    let d = self.err("too many elements in array initializer (expected at most "@ + decimal(*max_size as nat) + ")"@, *expr);
                    if *dimension > 0 {
                        d.note("this error occurred in array dimension "@ + decimal(*dimension as nat + 1))
                    } else {
                        d
                    }
                },
        }
    }

    /// Renders the error as a diagnostic.
    #[verifier::rlimit(60)]
    pub fn to_diagnostic(&self) -> (d: Diagnostic)
        requires
            self.dimension_fits(),
        ensures
            d@ == self.spec_to_diagnostic(),
    {
        match self {
            InitInferenceError::NoSuchField { expr, ident, ty, hints } => {
                let mut d = self.error_at(cat5("no field '", ident.as_str(), "' in type '", ty.as_str(), "'"), *expr);
                d.with_notes(copy_texts(hints));
                d
            },
            InitInferenceError::IsElementaryType { expr, ty } => {
                self.error_at(cat3("type '", ty.as_str(), "' is an elementary type and cannot be initiliazed with '()'"), *expr)
            },
            InitInferenceError::IndexNonArrayType { expr, ty } => {
                self.error_at(cat3("cannot index into type '", ty.as_str(), "'"), *expr)
            },
            InitInferenceError::InvalidIndex { size, err } => {
                self.error_at(cat4("invalid index value '", size.text.as_str(), "': ", err.as_str()), size.span)
            },
            InitInferenceError::IndexOutOfBounds { size, dimension, index, min, max } => {
                let i = u64_to_string(*index);
                let lo = u64_to_string(*min);
                let hi = u64_to_string(*max);
                let mut d = self.error_at(
                    cat7("index '", i.as_str(), "' is out of bounds (expected between ", lo.as_str(), " and ", hi.as_str(), ")"),
                    size.span,
                );
                if *dimension > 0 {
                    let n = usize_to_string(*dimension + 1);
                    d.with_note(cat2("this error occurred in array dimension ", n.as_str()));
                }
                d
            },
            InitInferenceError::TypeMismatch(mismatch) => {
                mismatch.to_diagnostic()
            },
            InitInferenceError::TooManyElements { expr, dimension, max_size } => {
                let m = usize_to_string(*max_size);
                let mut d = self.error_at(cat3("too many elements in array initializer (expected at most ", m.as_str(), ")"), *expr);
                if *dimension > 0 {
                    let n = usize_to_string(*dimension + 1);
                    d.with_note(cat2("this error occurred in array dimension ", n.as_str()));
                }
                d
            },
        }
    }
    /// Whether the dimension the error names can be numbered from one.
    pub open spec fn dimension_fits(&self) -> bool {
        match self {
            InitInferenceError::TooManyElements { dimension, .. } => *dimension < usize::MAX,
            InitInferenceError::IndexOutOfBounds { dimension, .. } => *dimension < usize::MAX,
            _ => true,
        }
    }

}

/// Each kind of `InitInferenceError` is reported at the span of what it concerns, with
/// its message and severity, whatever names, spans and texts it holds; a
/// kind whose diagnostic is built directly also carries exactly the
/// related locations, notes, tags, source and quick fixes listed.
/// Kinds not listed are stated by the contract of `to_diagnostic` alone.
pub proof fn law_init_inference_error_rendering(this: InitInferenceError)
    ensures
        match this {
            InitInferenceError::NoSuchField { expr, ident, ty, hints } => {
                let d = this.spec_to_diagnostic();
                &&& d.message == "no field '"@ + ident@ + "' in type '"@ + ty@ + "'"@
                &&& d.span == expr
                &&& d.severity == Some(Severity::Error)
                &&& d.related == Seq::<RelatedView>::empty()
                &&& d.notes == (Seq::<Seq<char>>::empty() + texts(hints@))
                &&& d.tags == Seq::<Tag>::empty()
                &&& d.source == None::<Seq<char>>
                &&& d.fixes == Seq::<FixView>::empty()
            },
            InitInferenceError::IsElementaryType { expr, ty } => {
                let d = this.spec_to_diagnostic();
                &&& d.message == "type '"@ + ty@ + "' is an elementary type and cannot be initiliazed with '()'"@
                &&& d.span == expr
                &&& d.severity == Some(Severity::Error)
                &&& d.related == Seq::<RelatedView>::empty()
                &&& d.notes == Seq::<Seq<char>>::empty()
                &&& d.tags == Seq::<Tag>::empty()
                &&& d.source == None::<Seq<char>>
                &&& d.fixes == Seq::<FixView>::empty()
            },
            InitInferenceError::IndexNonArrayType { expr, ty } => {
                let d = this.spec_to_diagnostic();
                &&& d.message == "cannot index into type '"@ + ty@ + "'"@
                &&& d.span == expr
                &&& d.severity == Some(Severity::Error)
                &&& d.related == Seq::<RelatedView>::empty()
                &&& d.notes == Seq::<Seq<char>>::empty()
                &&& d.tags == Seq::<Tag>::empty()
                &&& d.source == None::<Seq<char>>
                &&& d.fixes == Seq::<FixView>::empty()
            },
            InitInferenceError::InvalidIndex { size, err } => {
                let d = this.spec_to_diagnostic();
                &&& d.message == "invalid index value '"@ + size.text@ + "': "@ + err@
                &&& d.span == size.span
                &&& d.severity == Some(Severity::Error)
                &&& d.related == Seq::<RelatedView>::empty()
                &&& d.notes == Seq::<Seq<char>>::empty()
                &&& d.tags == Seq::<Tag>::empty()
                &&& d.source == None::<Seq<char>>
                &&& d.fixes == Seq::<FixView>::empty()
            },
            InitInferenceError::IndexOutOfBounds { size, dimension, index, min, max } => {
                let d = this.spec_to_diagnostic();
                &&& d.message == "index '"@ + decimal(index as nat) + "' is out of bounds (expected between "@ + decimal(min as nat) + " and "@ + decimal(max as nat) + ")"@
                &&& d.span == size.span
                &&& d.severity == Some(Severity::Error)
            },
            InitInferenceError::TooManyElements { expr, dimension, max_size } => {
                let d = this.spec_to_diagnostic();
                &&& d.message == "too many elements in array initializer (expected at most "@ + decimal(max_size as nat) + ")"@
                &&& d.span == expr
                &&& d.severity == Some(Severity::Error)
            },
            _ => true,
        },
{
}

} // verus!
