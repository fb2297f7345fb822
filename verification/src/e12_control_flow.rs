//! E12xx: control-flow errors.
use vstd::prelude::*;
use vstd::string::*;
use crate::diag::{Diagnostic, DiagnosticView, Span};
use crate::hir::Var;
use crate::text::{cat2, cat3, cat4, cat5, cat6, cat7};

use crate::diag::RelatedView;
use crate::diag::Severity;

use crate::diag::Tag;
use crate::diag::FixView;

verus! {

/// A control-flow error.
pub enum ControlFlowError {
    /// EXIT outside a loop.
    ExitOutsideLoop { stmt: Span },
    /// CONTINUE outside a loop.
    ContinueOutsideLoop { stmt: Span },
    /// A FOR control variable that is not a bare identifier.
    ForControlNotAVariable { access: Span },
    /// A FOR step that is not a constant, or is zero; `decl` is the variable it names, when exactly one.
    ForStepInvalid { step: Span, zero: bool, decl: Option<Var> },
    /// A CASE label (or a range bound, `as_range_bound`) that is not a constant.
    CaseLabelNotConstant { label: Span, as_range_bound: bool },
}

impl ControlFlowError {
    pub open spec fn spec_code(&self) -> Seq<char> {
        match self {
            ControlFlowError::ExitOutsideLoop { .. } => "E1201"@,
            ControlFlowError::ContinueOutsideLoop { .. } => "E1202"@,
            ControlFlowError::ForControlNotAVariable { .. } => "E1203"@,
            ControlFlowError::ForStepInvalid { .. } => "E1204"@,
            ControlFlowError::CaseLabelNotConstant { .. } => "E1205"@,
        }
    }

    /// The stable code of the error.
    pub fn code(&self) -> (r: &'static str)
        ensures
            r@ == self.spec_code(),
    {
        match self {
            ControlFlowError::ExitOutsideLoop { .. } => "E1201",
            ControlFlowError::ContinueOutsideLoop { .. } => "E1202",
            ControlFlowError::ForControlNotAVariable { .. } => "E1203",
            ControlFlowError::ForStepInvalid { .. } => "E1204",
            ControlFlowError::CaseLabelNotConstant { .. } => "E1205",
        }
    }

    pub open spec fn spec_description(&self) -> Seq<char> {
        match self {
            ControlFlowError::ExitOutsideLoop { .. } => "control flow violation"@,
            ControlFlowError::ContinueOutsideLoop { .. } => "control flow violation"@,
            ControlFlowError::ForControlNotAVariable { .. } => "control flow violation"@,
            ControlFlowError::ForStepInvalid { .. } => "control flow violation"@,
            ControlFlowError::CaseLabelNotConstant { .. } => "control flow violation"@,
        }
    }

    /// The short description of the error's kind.
    pub fn description(&self) -> (r: &'static str)
        ensures
            r@ == self.spec_description(),
    {
        match self {
            ControlFlowError::ExitOutsideLoop { .. } => "control flow violation",
            ControlFlowError::ContinueOutsideLoop { .. } => "control flow violation",
            ControlFlowError::ForControlNotAVariable { .. } => "control flow violation",
            ControlFlowError::ForStepInvalid { .. } => "control flow violation",
            ControlFlowError::CaseLabelNotConstant { .. } => "control flow violation",
        }
    }

    /// An error diagnostic of this error at `span`.
    pub open spec fn err(&self, message: Seq<char>, span: Span) -> DiagnosticView {
        DiagnosticView::error(message, self.spec_code(), self.spec_description(), span)
    }

    fn error_at(&self, message: String, span: Span) -> (d: Diagnostic)
        ensures
            d@ == self.err(message@, span),
    {
        Diagnostic::error(message, self.code(), self.description(), span)
    }

    /// The diagnostic this error renders to.
    pub open spec fn spec_to_diagnostic(&self) -> DiagnosticView {
        match self {
            ControlFlowError::ExitOutsideLoop { stmt } =>
                self.err("'EXIT' can only be used inside loops"@, *stmt),
            ControlFlowError::ContinueOutsideLoop { stmt } =>
                self.err("'CONTINUE' can only be used inside loops"@, *stmt),
            ControlFlowError::ForControlNotAVariable { access } =>
                self.err("a FOR control variable must be a plain variable"@, *access)
                .note("count in a plain variable and assign it where it is needed inside the loop"@),
            ControlFlowError::ForStepInvalid { step, zero, decl } =>
                {
                    let d = self.err(
                        if *zero {
                            "a FOR step of zero never advances the loop"@
                        } else {
                            "a FOR step must evaluate to a constant at compile time"@
                        },
                        *step,
                    );
                    match decl {
                        Some(v) => d.rel("declaring '"@ + v.decl.name@ + "' CONSTANT would let the step fold"@, v.decl.file, v.decl.span),
                        None => d,
                    }
                },
            ControlFlowError::CaseLabelNotConstant { label, as_range_bound } =>
                self.err(
                    if *as_range_bound {
                        "a CASE range bound must be an integer constant"@
                    } else {
                        "a CASE label must evaluate to a constant at compile time"@
                    },
                    *label,
                ),
        }
    }

    /// Renders the error as a diagnostic.
    #[verifier::rlimit(60)]
    pub fn to_diagnostic(&self) -> (d: Diagnostic)
        ensures
            d@ == self.spec_to_diagnostic(),
    {
        match self {
            ControlFlowError::ExitOutsideLoop { stmt } => {
                self.error_at(String::from_str("'EXIT' can only be used inside loops"), *stmt)
            },
            ControlFlowError::ContinueOutsideLoop { stmt } => {
                self.error_at(String::from_str("'CONTINUE' can only be used inside loops"), *stmt)
            },
            ControlFlowError::ForControlNotAVariable { access } => {
                let mut d = self.error_at(String::from_str("a FOR control variable must be a plain variable"), *access);
                d.with_note(String::from_str("count in a plain variable and assign it where it is needed inside the loop"));
                d
            },
            ControlFlowError::ForStepInvalid { step, zero, decl } => {
                let mut d = self.error_at(
                    String::from_str(if *zero {
                        "a FOR step of zero never advances the loop"
                    } else {
                        "a FOR step must evaluate to a constant at compile time"
                    }),
                    *step,
                );
                match decl {
                    Some(v) => d.with_related_at(cat3("declaring '", v.decl.name.as_str(), "' CONSTANT would let the step fold"), v.decl.file, v.decl.span),
                    None => {},
                }
                d
            },
            ControlFlowError::CaseLabelNotConstant { label, as_range_bound } => {
                self.error_at(
                    String::from_str(if *as_range_bound {
                        "a CASE range bound must be an integer constant"
                    } else {
                        "a CASE label must evaluate to a constant at compile time"
                    }),
                    *label,
                )
            },
        }
    }

}

/// Each kind of `ControlFlowError` is reported at the span of what it concerns, with
/// its message and severity, whatever names, spans and texts it holds; a
/// kind whose diagnostic is built directly also carries exactly the
/// related locations, notes, tags, source and quick fixes listed.
pub proof fn law_control_flow_error_rendering(this: ControlFlowError)
    ensures
        match this {
            ControlFlowError::ExitOutsideLoop { stmt } => {
                let d = this.spec_to_diagnostic();
                &&& d.message == "'EXIT' can only be used inside loops"@
                &&& d.span == stmt
                &&& d.severity == Some(Severity::Error)
                &&& d.related == Seq::<RelatedView>::empty()
                &&& d.notes == Seq::<Seq<char>>::empty()
                &&& d.tags == Seq::<Tag>::empty()
                &&& d.source == None::<Seq<char>>
                &&& d.fixes == Seq::<FixView>::empty()
            },
            ControlFlowError::ContinueOutsideLoop { stmt } => {
                let d = this.spec_to_diagnostic();
                &&& d.message == "'CONTINUE' can only be used inside loops"@
                &&& d.span == stmt
                &&& d.severity == Some(Severity::Error)
                &&& d.related == Seq::<RelatedView>::empty()
                &&& d.notes == Seq::<Seq<char>>::empty()
                &&& d.tags == Seq::<Tag>::empty()
                &&& d.source == None::<Seq<char>>
                &&& d.fixes == Seq::<FixView>::empty()
            },
            ControlFlowError::ForControlNotAVariable { access } => {
                let d = this.spec_to_diagnostic();
                &&& d.message == "a FOR control variable must be a plain variable"@
                &&& d.span == access
                &&& d.severity == Some(Severity::Error)
                &&& d.related == Seq::<RelatedView>::empty()
                &&& d.notes == Seq::<Seq<char>>::empty().push("count in a plain variable and assign it where it is needed inside the loop"@)
                &&& d.tags == Seq::<Tag>::empty()
                &&& d.source == None::<Seq<char>>
                &&& d.fixes == Seq::<FixView>::empty()
            },
            ControlFlowError::ForStepInvalid { step, zero, decl } => {
                let d = this.spec_to_diagnostic();
                &&& d.message == if zero { "a FOR step of zero never advances the loop"@ } else { "a FOR step must evaluate to a constant at compile time"@ }
                &&& d.span == step
                &&& d.severity == Some(Severity::Error)
            },
            ControlFlowError::CaseLabelNotConstant { label, as_range_bound } => {
                let d = this.spec_to_diagnostic();
                &&& d.message == if as_range_bound { "a CASE range bound must be an integer constant"@ } else { "a CASE label must evaluate to a constant at compile time"@ }
                &&& d.span == label
                &&& d.severity == Some(Severity::Error)
                &&& d.related == Seq::<RelatedView>::empty()
                &&& d.notes == Seq::<Seq<char>>::empty()
                &&& d.tags == Seq::<Tag>::empty()
                &&& d.source == None::<Seq<char>>
                &&& d.fixes == Seq::<FixView>::empty()
            },
        },
{
}

} // verus!
