//! E10xx: control-flow errors.
use vstd::prelude::*;
use vstd::string::*;
use crate::diag::{Diagnostic, DiagnosticView, FileId, Span};
use crate::hir::{Named, Var};
use crate::text::{cat2, cat3, cat4, cat5, cat6, cat7};

use crate::diag::RelatedView;
use crate::diag::Severity;

use crate::diag::Tag;
use crate::diag::FixView;

verus! {

/// Where a reference got the state that makes a dereference unsafe: the
/// variable declared or assigned there, and the site, in its file.
pub struct NullOrigin {
    pub var_name: String,
    pub file: FileId,
    pub site: Span,
}

/// The state a dereferenced reference may be in.
pub enum NullState {
    /// Declared without an initializer.
    Uninitialized(NullOrigin),
    /// Set to NULL.
    Null(NullOrigin),
}

/// A control-flow error.
pub enum ControlFlowError {
    /// An assignment to a callable.
    AssignCallableType { typ: Named, access: Span },
    /// A type used as a value (named `typ`).
    DirectType { typ: String, expr: Span },
    /// A call of something that is not callable (which may be a FUNCTION_BLOCK).
    CallNonCallableType { typ: String, is_function_block: bool, call_span: Span },
    /// CONTINUE outside a loop.
    ContinueOutsideLoop { stmt: Span },
    /// EXIT outside a loop.
    ExitOutsideLoop { stmt: Span },
    /// A FOR control variable that is not a bare identifier.
    ForControlNotAVariable { access: Span },
    /// A CASE label (or a range bound, `as_range_bound`) that is not a constant.
    CaseLabelNotConstant { label: Span, as_range_bound: bool },
    /// A FOR step that is not a constant, or is zero; `decl` is the variable it names, when exactly one.
    ForStepInvalid { step: Span, zero: bool, decl: Option<Var> },
    /// A dereference of a reference that may be null, and where it became so.
    DerefPossiblyNull { var: Var, expr: Span, state: NullState },
    /// An assignment to a constant.
    AssignToConstant { access: Span },
}

impl ControlFlowError {
    pub open spec fn spec_code(&self) -> Seq<char> {
        match self {
            ControlFlowError::AssignCallableType { .. } => "E0226"@,
            ControlFlowError::DirectType { .. } => "E0228"@,
            ControlFlowError::CallNonCallableType { .. } => "E0229"@,
            ControlFlowError::ContinueOutsideLoop { .. } => "E1001"@,
            ControlFlowError::ExitOutsideLoop { .. } => "E1002"@,
            ControlFlowError::ForControlNotAVariable { .. } => "E1005"@,
            ControlFlowError::CaseLabelNotConstant { .. } => "E1006"@,
            ControlFlowError::ForStepInvalid { .. } => "E1007"@,
            ControlFlowError::DerefPossiblyNull { .. } => "E1003"@,
            ControlFlowError::AssignToConstant { .. } => "E1004"@,
        }
    }

    /// The stable code of the error.
    pub fn code(&self) -> (r: &'static str)
        ensures
            r@ == self.spec_code(),
    {
        match self {
            ControlFlowError::AssignCallableType { .. } => "E0226",
            ControlFlowError::DirectType { .. } => "E0228",
            ControlFlowError::CallNonCallableType { .. } => "E0229",
            ControlFlowError::ContinueOutsideLoop { .. } => "E1001",
            ControlFlowError::ExitOutsideLoop { .. } => "E1002",
            ControlFlowError::ForControlNotAVariable { .. } => "E1005",
            ControlFlowError::CaseLabelNotConstant { .. } => "E1006",
            ControlFlowError::ForStepInvalid { .. } => "E1007",
            ControlFlowError::DerefPossiblyNull { .. } => "E1003",
            ControlFlowError::AssignToConstant { .. } => "E1004",
        }
    }

    pub open spec fn spec_description(&self) -> Seq<char> {
        match self {
            ControlFlowError::AssignCallableType { .. } => "semantic violation"@,
            ControlFlowError::DirectType { .. } => "semantic violation"@,
            ControlFlowError::CallNonCallableType { .. } => "semantic violation"@,
            ControlFlowError::ContinueOutsideLoop { .. } => "control flow violation"@,
            ControlFlowError::ExitOutsideLoop { .. } => "control flow violation"@,
            ControlFlowError::ForControlNotAVariable { .. } => "control flow violation"@,
            ControlFlowError::CaseLabelNotConstant { .. } => "control flow violation"@,
            ControlFlowError::ForStepInvalid { .. } => "control flow violation"@,
            ControlFlowError::DerefPossiblyNull { .. } => "possibly null dereference"@,
            ControlFlowError::AssignToConstant { .. } => "semantic violation"@,
        }
    }

    /// The short description of the error's kind.
    pub fn description(&self) -> (r: &'static str)
        ensures
            r@ == self.spec_description(),
    {
        match self {
            ControlFlowError::AssignCallableType { .. } => "semantic violation",
            ControlFlowError::DirectType { .. } => "semantic violation",
            ControlFlowError::CallNonCallableType { .. } => "semantic violation",
            ControlFlowError::ContinueOutsideLoop { .. } => "control flow violation",
            ControlFlowError::ExitOutsideLoop { .. } => "control flow violation",
            ControlFlowError::ForControlNotAVariable { .. } => "control flow violation",
            ControlFlowError::CaseLabelNotConstant { .. } => "control flow violation",
            ControlFlowError::ForStepInvalid { .. } => "control flow violation",
            ControlFlowError::DerefPossiblyNull { .. } => "possibly null dereference",
            ControlFlowError::AssignToConstant { .. } => "semantic violation",
        }
    }

    /// An error diagnostic of this error at `span`.
    pub open spec fn err(&self, message: Seq<char>, span: Span) -> DiagnosticView {
        DiagnosticView::error(message, self.spec_code(), self.spec_description(), span)
    }

    fn error_at(&self, message: String, span: Span) -> (d: Diagnostic)
        ensures
            d@ == self.err(message@, span),
    {
        Diagnostic::error(message, self.code(), self.description(), span)
    }

    /// The diagnostic this error renders to.
    pub open spec fn spec_to_diagnostic(&self) -> DiagnosticView {
        match self {
            ControlFlowError::AssignCallableType { typ, access } =>
                self.err("'"@ + typ.name@ + "' is a callable type and can not be assigned"@, *access),
            ControlFlowError::DirectType { typ, expr } =>
                self.err("cannot use direct type '"@ + typ@ + "' here"@, *expr),
            ControlFlowError::CallNonCallableType { typ, is_function_block, call_span } =>
                {
                    let d = self.err("'"@ + typ@ + "' is not a callable type"@, *call_span);
                    if *is_function_block {
                        d.note("to call a FUNCTION_BLOCK, you need to instantiate it first."@)
                    } else {
                        d
                    }
                },
            ControlFlowError::ContinueOutsideLoop { stmt } =>
                self.err("'CONTINUE' can only be used inside loops"@, *stmt),
            ControlFlowError::ExitOutsideLoop { stmt } =>
                self.err("'EXIT' can only be used inside loops"@, *stmt),
            ControlFlowError::ForControlNotAVariable { access } =>
                self.err("a FOR control variable must be a plain variable"@, *access)
                .note("count in a plain variable and assign it where it is needed inside the loop"@),
            ControlFlowError::CaseLabelNotConstant { label, as_range_bound } =>
                self.err(
                    if *as_range_bound {
                        "a CASE range bound must be an integer constant"@
                    } else {
                        "a CASE label must evaluate to a constant at compile time"@
                    },
                    *label,
                ),
            ControlFlowError::ForStepInvalid { step, zero, decl } =>
                {
                    let d = self.err(
                        if *zero {
                            "a FOR step of zero never advances the loop"@
                        } else {
                            "a FOR step must evaluate to a constant at compile time"@
                        },
                        *step,
                    );
                    match decl {
                        Some(v) => d.rel("declaring '"@ + v.decl.name@ + "' CONSTANT would let the step fold"@, v.decl.file, v.decl.span),
                        None => d,
                    }
                },
            ControlFlowError::DerefPossiblyNull { var, expr, state } =>
                match state {
                    NullState::Uninitialized(o) =>
                        self.err("dereference of reference '"@ + var.decl.name@ + "' which is never initialized"@, *expr)
                            .rel("'"@ + o.var_name@ + "' declared without initializer here"@, o.file, o.site),
                    NullState::Null(o) =>
                        self.err("dereference of reference '"@ + var.decl.name@ + "' which is null"@, *expr)
                            .rel("'"@ + o.var_name@ + "' set to NULL here"@, o.file, o.site),
                },
            ControlFlowError::AssignToConstant { access } =>
                self.err("cannot assign to constant type"@, *access),
        }
    }

    /// Renders the error as a diagnostic.
    #[verifier::rlimit(60)]
    pub fn to_diagnostic(&self) -> (d: Diagnostic)
        ensures
            d@ == self.spec_to_diagnostic(),
    {
        match self {
            ControlFlowError::AssignCallableType { typ, access } => {
                self.error_at(cat3("'", typ.name.as_str(), "' is a callable type and can not be assigned"), *access)
            },
            ControlFlowError::DirectType { typ, expr } => {
                self.error_at(cat3("cannot use direct type '", typ.as_str(), "' here"), *expr)
            },
            ControlFlowError::CallNonCallableType { typ, is_function_block, call_span } => {
                let mut d = self.error_at(cat3("'", typ.as_str(), "' is not a callable type"), *call_span);
                if *is_function_block {
                    d.with_note(String::from_str("to call a FUNCTION_BLOCK, you need to instantiate it first."));
                }
                d
            },
            ControlFlowError::ContinueOutsideLoop { stmt } => {
                self.error_at(String::from_str("'CONTINUE' can only be used inside loops"), *stmt)
            },
            ControlFlowError::ExitOutsideLoop { stmt } => {
                self.error_at(String::from_str("'EXIT' can only be used inside loops"), *stmt)
            },
            ControlFlowError::ForControlNotAVariable { access } => {
                let mut d = self.error_at(String::from_str("a FOR control variable must be a plain variable"), *access);
                d.with_note(String::from_str("count in a plain variable and assign it where it is needed inside the loop"));
                d
            },
            ControlFlowError::CaseLabelNotConstant { label, as_range_bound } => {
                self.error_at(
                    String::from_str(if *as_range_bound {
                        "a CASE range bound must be an integer constant"
                    } else {
                        "a CASE label must evaluate to a constant at compile time"
                    }),
                    *label,
                )
            },
            ControlFlowError::ForStepInvalid { step, zero, decl } => {
                let mut d = self.error_at(
                    String::from_str(if *zero {
                        "a FOR step of zero never advances the loop"
                    } else {
                        "a FOR step must evaluate to a constant at compile time"
                    }),
                    *step,
                );
                match decl {
                    Some(v) => d.with_related_at(cat3("declaring '", v.decl.name.as_str(), "' CONSTANT would let the step fold"), v.decl.file, v.decl.span),
                    None => {},
                }
                d
            },
            ControlFlowError::DerefPossiblyNull { var, expr, state } => {
                let name = var.decl.name.as_str();
                match state {
                    NullState::Uninitialized(o) => {
                        let mut d = self.error_at(cat3("dereference of reference '", name, "' which is never initialized"), *expr);
                        d.with_related_at(cat3("'", o.var_name.as_str(), "' declared without initializer here"), o.file, o.site);
                        d
                    },
                    NullState::Null(o) => {
                        let mut d = self.error_at(cat3("dereference of reference '", name, "' which is null"), *expr);
                        d.with_related_at(cat3("'", o.var_name.as_str(), "' set to NULL here"), o.file, o.site);
                        d
                    },
                }
            },
            ControlFlowError::AssignToConstant { access } => {
                self.error_at(String::from_str("cannot assign to constant type"), *access)
            },
        }
    }

}

/// Each kind of `ControlFlowError` is reported at the span of what it concerns, with
/// its message and severity, whatever names, spans and texts it holds; a
/// kind whose diagnostic is built directly also carries exactly the
/// related locations, notes, tags, source and quick fixes listed.
pub proof fn law_control_flow_error_rendering(this: ControlFlowError)
    ensures
        match this {
            ControlFlowError::AssignCallableType { typ, access } => {
                let d = this.spec_to_diagnostic();
                &&& d.message == "'"@ + typ.name@ + "' is a callable type and can not be assigned"@
                &&& d.span == access
                &&& d.severity == Some(Severity::Error)
                &&& d.related == Seq::<RelatedView>::empty()
                &&& d.notes == Seq::<Seq<char>>::empty()
                &&& d.tags == Seq::<Tag>::empty()
                &&& d.source == None::<Seq<char>>
                &&& d.fixes == Seq::<FixView>::empty()
            },
            ControlFlowError::DirectType { typ, expr } => {
                let d = this.spec_to_diagnostic();
                &&& d.message == "cannot use direct type '"@ + typ@ + "' here"@
                &&& d.span == expr
                &&& d.severity == Some(Severity::Error)
                &&& d.related == Seq::<RelatedView>::empty()
                &&& d.notes == Seq::<Seq<char>>::empty()
                &&& d.tags == Seq::<Tag>::empty()
                &&& d.source == None::<Seq<char>>
                &&& d.fixes == Seq::<FixView>::empty()
            },
            ControlFlowError::CallNonCallableType { typ, is_function_block, call_span } => {
                let d = this.spec_to_diagnostic();
                &&& d.message == "'"@ + typ@ + "' is not a callable type"@
                &&& d.span == call_span
                &&& d.severity == Some(Severity::Error)
            },
            ControlFlowError::ContinueOutsideLoop { stmt } => {
                let d = this.spec_to_diagnostic();
                &&& d.message == "'CONTINUE' can only be used inside loops"@
                &&& d.span == stmt
                &&& d.severity == Some(Severity::Error)
                &&& d.related == Seq::<RelatedView>::empty()
                &&& d.notes == Seq::<Seq<char>>::empty()
                &&& d.tags == Seq::<Tag>::empty()
                &&& d.source == None::<Seq<char>>
                &&& d.fixes == Seq::<FixView>::empty()
            },
            ControlFlowError::ExitOutsideLoop { stmt } => {
                let d = this.spec_to_diagnostic();
                &&& d.message == "'EXIT' can only be used inside loops"@
                &&& d.span == stmt
                &&& d.severity == Some(Severity::Error)
                &&& d.related == Seq::<RelatedView>::empty()
                &&& d.notes == Seq::<Seq<char>>::empty()
                &&& d.tags == Seq::<Tag>::empty()
                &&& d.source == None::<Seq<char>>
                &&& d.fixes == Seq::<FixView>::empty()
            },
            ControlFlowError::ForControlNotAVariable { access } => {
                let d = this.spec_to_diagnostic();
                &&& d.message == "a FOR control variable must be a plain variable"@
                &&& d.span == access
                &&& d.severity == Some(Severity::Error)
                &&& d.related == Seq::<RelatedView>::empty()
                &&& d.notes == Seq::<Seq<char>>::empty().push("count in a plain variable and assign it where it is needed inside the loop"@)
                &&& d.tags == Seq::<Tag>::empty()
                &&& d.source == None::<Seq<char>>
                &&& d.fixes == Seq::<FixView>::empty()
            },
            ControlFlowError::CaseLabelNotConstant { label, as_range_bound } => {
                let d = this.spec_to_diagnostic();
                &&& d.message == if as_range_bound { "a CASE range bound must be an integer constant"@ } else { "a CASE label must evaluate to a constant at compile time"@ }
                &&& d.span == label
                &&& d.severity == Some(Severity::Error)
                &&& d.related == Seq::<RelatedView>::empty()
                &&& d.notes == Seq::<Seq<char>>::empty()
                &&& d.tags == Seq::<Tag>::empty()
                &&& d.source == None::<Seq<char>>
                &&& d.fixes == Seq::<FixView>::empty()
            },
            ControlFlowError::ForStepInvalid { step, zero, decl } => {
                let d = this.spec_to_diagnostic();
                &&& d.message == if zero { "a FOR step of zero never advances the loop"@ } else { "a FOR step must evaluate to a constant at compile time"@ }
                &&& d.span == step
                &&& d.severity == Some(Severity::Error)
            },
            ControlFlowError::DerefPossiblyNull { var, expr, state } => {
                let d = this.spec_to_diagnostic();
                match state {
                    NullState::Uninitialized(o) => {
                        &&& d.message == "dereference of reference '"@ + var.decl.name@ + "' which is never initialized"@
                        &&& d.span == expr
                        &&& d.severity == Some(Severity::Error)
                        &&& d.related == Seq::<RelatedView>::empty().push(RelatedView { message: "'"@ + o.var_name@ + "' declared without initializer here"@, file: o.file, span: o.site })
                        &&& d.notes == Seq::<Seq<char>>::empty()
                        &&& d.tags == Seq::<Tag>::empty()
                        &&& d.source == None::<Seq<char>>
                        &&& d.fixes == Seq::<FixView>::empty()
                    },
                    NullState::Null(o) => {
                        &&& d.message == "dereference of reference '"@ + var.decl.name@ + "' which is null"@
                        &&& d.span == expr
                        &&& d.severity == Some(Severity::Error)
                        &&& d.related == Seq::<RelatedView>::empty().push(RelatedView { message: "'"@ + o.var_name@ + "' set to NULL here"@, file: o.file, span: o.site })
                        &&& d.notes == Seq::<Seq<char>>::empty()
                        &&& d.tags == Seq::<Tag>::empty()
                        &&& d.source == None::<Seq<char>>
                        &&& d.fixes == Seq::<FixView>::empty()
                    },
                }
            },
            ControlFlowError::AssignToConstant { access } => {
                let d = this.spec_to_diagnostic();
                &&& d.message == "cannot assign to constant type"@
                &&& d.span == access
                &&& d.severity == Some(Severity::Error)
                &&& d.related == Seq::<RelatedView>::empty()
                &&& d.notes == Seq::<Seq<char>>::empty()
                &&& d.tags == Seq::<Tag>::empty()
                &&& d.source == None::<Seq<char>>
                &&& d.fixes == Seq::<FixView>::empty()
            },
        },
{
}

} // verus!
