//! Errors in initializer expressions.
use vstd::prelude::*;
use vstd::string::*;
use crate::coerce::{ExprMismatch, ResolvedExpr};
use crate::diag::{Diagnostic, DiagnosticView, Severity, Span};
use crate::hir::{Named, SpanIdent};
use crate::text::{cat2, cat3, cat4, cat5, cat6, cat7, decimal, u64_to_string};
use crate::utils::{candidates_text, get_candidates, get_def_for_ty, FuzzyResult};

use crate::diag::RelatedView;

use crate::diag::Tag;
use crate::diag::FixView;

verus! {

/// An error in an initializer expression.
pub enum InitExprError {
    /// An initializer names a field the STRUCT does not have; `candidates` are the similarly named items.
    UnknownStructField { ztruct: Named, field_name: SpanIdent, unknown_field: Span, candidates: FuzzyResult },
    /// An array initializer with more elements than the array holds.
    ArrayTooManyElements { array: Named, provided_count: u64, max_capacity: u64, init_expr: Span },
    /// An initializer value that does not fit.
    InitExprTypeExprMismatch { err: ExprMismatch, init_expr: ResolvedExpr },
}

impl InitExprError {
    /// An error diagnostic of this error at `span`, with no code.
    pub open spec fn err(&self, message: Seq<char>, span: Span) -> DiagnosticView {
        DiagnosticView::plain(message, Some(Severity::Error), span)
    }

    fn error_at(&self, message: String, span: Span) -> (d: Diagnostic)
        ensures
            d@ == self.err(message@, span),
    {
        Diagnostic::plain(message, Some(Severity::Error), span)
    }

    /// The diagnostic this error renders to.
    pub open spec fn spec_to_diagnostic(&self) -> DiagnosticView {
        match self {
            InitExprError::UnknownStructField { ztruct, field_name, unknown_field, candidates } =>
                self.err("no field '"@ + field_name.text@ + "' in STRUCT"@, field_name.span).note(candidates_text(*candidates)),
            InitExprError::ArrayTooManyElements { array, provided_count, max_capacity, init_expr } =>
                self.err("too many array elements: provided "@ + decimal(*provided_count as nat) + ", but array capacity is "@ + decimal(*max_capacity as nat), *init_expr),
            InitExprError::InitExprTypeExprMismatch { err, init_expr } =>
                err.spec_related(self.err("invalid value initializer: "@ + err.spec_description(), init_expr.span)),
        }
    }

    /// Renders the error as a diagnostic.
    #[verifier::rlimit(60)]
    pub fn to_diagnostic(&self) -> (d: Diagnostic)
        ensures
            d@ == self.spec_to_diagnostic(),
    {
        match self {
            InitExprError::UnknownStructField { ztruct, field_name, unknown_field, candidates } => {
                let mut d = self.error_at(cat3("no field '", field_name.text.as_str(), "' in STRUCT"), field_name.span);
                get_def_for_ty(ztruct, &mut d);
                d.with_note(get_candidates(candidates));
                d
            },
            InitExprError::ArrayTooManyElements { array, provided_count, max_capacity, init_expr } => {
                let t1 = u64_to_string(*provided_count);
                let t2 = u64_to_string(*max_capacity);
                let mut d = self.error_at(cat4("too many array elements: provided ", t1.as_str(), ", but array capacity is ", t2.as_str()), *init_expr);
                get_def_for_ty(array, &mut d);
                d
            },
            InitExprError::InitExprTypeExprMismatch { err, init_expr } => {
                let t = err.description();
                let mut d = self.error_at(cat2("invalid value initializer: ", t.as_str()), init_expr.span);
                err.related(&mut d);
                d
            },
        }
    }

}

/// Each kind of `InitExprError` is reported at the span of what it concerns, with
/// its message and severity, whatever names, spans and texts it holds; a
/// kind whose diagnostic is built directly also carries exactly the
/// related locations, notes, tags, source and quick fixes listed.
pub proof fn law_init_expr_error_rendering(this: InitExprError)
    ensures
        match this {
            InitExprError::UnknownStructField { ztruct, field_name, unknown_field, candidates } => {
                let d = this.spec_to_diagnostic();
                &&& d.message == "no field '"@ + field_name.text@ + "' in STRUCT"@
                &&& d.span == field_name.span
                &&& d.severity == Some(Severity::Error)
                &&& d.related == Seq::<RelatedView>::empty()
                &&& d.notes == Seq::<Seq<char>>::empty().push(candidates_text(candidates))
                &&& d.tags == Seq::<Tag>::empty()
                &&& d.source == None::<Seq<char>>
                &&& d.fixes == Seq::<FixView>::empty()
            },
            InitExprError::ArrayTooManyElements { array, provided_count, max_capacity, init_expr } => {
                let d = this.spec_to_diagnostic();
                &&& d.message == "too many array elements: provided "@ + decimal(provided_count as nat) + ", but array capacity is "@ + decimal(max_capacity as nat)
                &&& d.span == init_expr
                &&& d.severity == Some(Severity::Error)
                &&& d.related == Seq::<RelatedView>::empty()
                &&& d.notes == Seq::<Seq<char>>::empty()
                &&& d.tags == Seq::<Tag>::empty()
                &&& d.source == None::<Seq<char>>
                &&& d.fixes == Seq::<FixView>::empty()
            },
            InitExprError::InitExprTypeExprMismatch { err, init_expr } => {
                let d = this.spec_to_diagnostic();
                &&& d.message == "invalid value initializer: "@ + err.spec_description()
                &&& d.span == init_expr.span
                &&& d.severity == Some(Severity::Error)
            },
        },
{
}

} // verus!
