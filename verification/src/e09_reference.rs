//! E09xx: reference errors.
use vstd::prelude::*;
use vstd::string::*;
use crate::diag::{Diagnostic, DiagnosticView, Span};
use crate::e10_control_flow::NullState;
use crate::hir::Var;
use crate::text::{cat2, cat3, cat4, cat5, cat6, cat7};

use crate::diag::RelatedView;
use crate::diag::Severity;

use crate::diag::Tag;
use crate::diag::FixView;

verus! {

/// A reference error.
pub enum ReferenceError {
    /// A dereference of a type that is not a reference.
    DerefNonRefType { expr: Span, ty: String },
    /// A dereference of a reference that may be null, and where it became so.
    DerefPossiblyNull { var: Var, expr: Span, state: NullState },
    /// A reference to the POU's own per-call storage, handed back to the caller.
    ReturnsReferenceToLocal { var: Var, site: Span },
}

impl ReferenceError {
    pub open spec fn spec_code(&self) -> Seq<char> {
        match self {
            ReferenceError::DerefNonRefType { .. } => "E0901"@,
            ReferenceError::DerefPossiblyNull { .. } => "E0902"@,
            ReferenceError::ReturnsReferenceToLocal { .. } => "E0903"@,
        }
    }

    /// The stable code of the error.
    pub fn code(&self) -> (r: &'static str)
        ensures
            r@ == self.spec_code(),
    {
        match self {
            ReferenceError::DerefNonRefType { .. } => "E0901",
            ReferenceError::DerefPossiblyNull { .. } => "E0902",
            ReferenceError::ReturnsReferenceToLocal { .. } => "E0903",
        }
    }

    pub open spec fn spec_description(&self) -> Seq<char> {
        match self {
            ReferenceError::DerefNonRefType { .. } => "invalid operation"@,
            ReferenceError::DerefPossiblyNull { .. } => "possibly null dereference"@,
            ReferenceError::ReturnsReferenceToLocal { .. } => "reference outlives its storage"@,
        }
    }

    /// The short description of the error's kind.
    pub fn description(&self) -> (r: &'static str)
        ensures
            r@ == self.spec_description(),
    {
        match self {
            ReferenceError::DerefNonRefType { .. } => "invalid operation",
            ReferenceError::DerefPossiblyNull { .. } => "possibly null dereference",
            ReferenceError::ReturnsReferenceToLocal { .. } => "reference outlives its storage",
        }
    }

    /// An error diagnostic of this error at `span`.
    pub open spec fn err(&self, message: Seq<char>, span: Span) -> DiagnosticView {
        DiagnosticView::error(message, self.spec_code(), self.spec_description(), span)
    }

    fn error_at(&self, message: String, span: Span) -> (d: Diagnostic)
        ensures
            d@ == self.err(message@, span),
    {
        Diagnostic::error(message, self.code(), self.description(), span)
    }

    /// The diagnostic this error renders to.
    pub open spec fn spec_to_diagnostic(&self) -> DiagnosticView {
        match self {
            ReferenceError::DerefNonRefType { expr, ty } =>
                self.err("cannot dereference non-reference type '"@ + ty@ + "'"@, *expr),
            ReferenceError::DerefPossiblyNull { var, expr, state } =>
                match state {
                    NullState::Uninitialized(o) =>
                        self.err("dereference of reference '"@ + var.decl.name@ + "' which is never initialized"@, *expr)
                            .rel("'"@ + o.var_name@ + "' declared without initializer here"@, o.file, o.site),
                    NullState::Null(o) =>
                        self.err("dereference of reference '"@ + var.decl.name@ + "' which is null"@, *expr)
                            .rel("'"@ + o.var_name@ + "' set to NULL here"@, o.file, o.site),
                },
            ReferenceError::ReturnsReferenceToLocal { var, site } =>
                self.err("reference to '"@ + var.decl.name@ + "' outlives the call that owns it"@, *site)
                .rel("'"@ + var.decl.name@ + "' is per-call storage, declared here"@, var.decl.file, var.decl.span)
                .note("return a reference to instance state, or to storage the caller owns (a VAR_IN_OUT)"@),
        }
    }

    /// Renders the error as a diagnostic.
    #[verifier::rlimit(60)]
    pub fn to_diagnostic(&self) -> (d: Diagnostic)
        ensures
            d@ == self.spec_to_diagnostic(),
    {
        match self {
            ReferenceError::DerefNonRefType { expr, ty } => {
                self.error_at(cat3("cannot dereference non-reference type '", ty.as_str(), "'"), *expr)
            },
            ReferenceError::DerefPossiblyNull { var, expr, state } => {
                let name = var.decl.name.as_str();
                match state {
                    NullState::Uninitialized(o) => {
                        let mut d = self.error_at(cat3("dereference of reference '", name, "' which is never initialized"), *expr);
                        d.with_related_at(cat3("'", o.var_name.as_str(), "' declared without initializer here"), o.file, o.site);
                        d
                    },
                    NullState::Null(o) => {
                        let mut d = self.error_at(cat3("dereference of reference '", name, "' which is null"), *expr);
                        d.with_related_at(cat3("'", o.var_name.as_str(), "' set to NULL here"), o.file, o.site);
                        d
                    },
                }
            },
            ReferenceError::ReturnsReferenceToLocal { var, site } => {
                let mut d = self.error_at(cat3("reference to '", var.decl.name.as_str(), "' outlives the call that owns it"), *site);
                d.with_related_at(cat3("'", var.decl.name.as_str(), "' is per-call storage, declared here"), var.decl.file, var.decl.span);
                d.with_note(String::from_str("return a reference to instance state, or to storage the caller owns (a VAR_IN_OUT)"));
                d
            },
        }
    }

}

/// Each kind of `ReferenceError` is reported at the span of what it concerns, with
/// its message and severity, whatever names, spans and texts it holds; a
/// kind whose diagnostic is built directly also carries exactly the
/// related locations, notes, tags, source and quick fixes listed.
pub proof fn law_reference_error_rendering(this: ReferenceError)
    ensures
        match this {
            ReferenceError::DerefNonRefType { expr, ty } => {
                let d = this.spec_to_diagnostic();
                &&& d.message == "cannot dereference non-reference type '"@ + ty@ + "'"@
                &&& d.span == expr
                &&& d.severity == Some(Severity::Error)
                &&& d.related == Seq::<RelatedView>::empty()
                &&& d.notes == Seq::<Seq<char>>::empty()
                &&& d.tags == Seq::<Tag>::empty()
                &&& d.source == None::<Seq<char>>
                &&& d.fixes == Seq::<FixView>::empty()
            },
            ReferenceError::DerefPossiblyNull { var, expr, state } => {
                let d = this.spec_to_diagnostic();
                match state {
                    NullState::Uninitialized(o) => {
                        &&& d.message == "dereference of reference '"@ + var.decl.name@ + "' which is never initialized"@
                        &&& d.span == expr
                        &&& d.severity == Some(Severity::Error)
                        &&& d.related == Seq::<RelatedView>::empty().push(RelatedView { message: "'"@ + o.var_name@ + "' declared without initializer here"@, file: o.file, span: o.site })
                        &&& d.notes == Seq::<Seq<char>>::empty()
                        &&& d.tags == Seq::<Tag>::empty()
                        &&& d.source == None::<Seq<char>>
                        &&& d.fixes == Seq::<FixView>::empty()
                    },
                    NullState::Null(o) => {
                        &&& d.message == "dereference of reference '"@ + var.decl.name@ + "' which is null"@
                        &&& d.span == expr
                        &&& d.severity == Some(Severity::Error)
                        &&& d.related == Seq::<RelatedView>::empty().push(RelatedView { message: "'"@ + o.var_name@ + "' set to NULL here"@, file: o.file, span: o.site })
                        &&& d.notes == Seq::<Seq<char>>::empty()
                        &&& d.tags == Seq::<Tag>::empty()
                        &&& d.source == None::<Seq<char>>
                        &&& d.fixes == Seq::<FixView>::empty()
                    },
                }
            },
            ReferenceError::ReturnsReferenceToLocal { var, site } => {
                let d = this.spec_to_diagnostic();
                &&& d.message == "reference to '"@ + var.decl.name@ + "' outlives the call that owns it"@
                &&& d.span == site
                &&& d.severity == Some(Severity::Error)
                &&& d.related == Seq::<RelatedView>::empty().push(RelatedView { message: "'"@ + var.decl.name@ + "' is per-call storage, declared here"@, file: var.decl.file, span: var.decl.span })
                &&& d.notes == Seq::<Seq<char>>::empty().push("return a reference to instance state, or to storage the caller owns (a VAR_IN_OUT)"@)
                &&& d.tags == Seq::<Tag>::empty()
                &&& d.source == None::<Seq<char>>
                &&& d.fixes == Seq::<FixView>::empty()
            },
        },
{
}

} // verus!
