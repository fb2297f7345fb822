//! Statement errors: assignments, calls and loops that do not check.
use vstd::prelude::*;
use vstd::string::*;
use crate::coerce::{ExprMismatch, ResolvedExpr, TypeMismatch};
use crate::diag::{Diagnostic, DiagnosticView, Related, RelatedView, Severity, Span};
use crate::e2_resolve::copy_texts;
use crate::hir::{located, Named, SpanIdent};
use crate::path_error::AccessError;
use crate::text::{cat2, cat3, cat4, cat5, cat6, cat7, decimal, texts, usize_to_string};

use crate::diag::Tag;
use crate::diag::FixView;

verus! {

/// An access as resolved: the name of what it resolved to, its span, and
/// the location of that declaration when it resolved to one.
pub struct ResolvedAccess {
    pub decl_name: String,
    pub span: Span,
    pub location: Option<Related>,
}

/// The location a resolved access contributes, if any.
pub open spec fn access_location(a: ResolvedAccess) -> Seq<RelatedView> {
    match a.location {
        Some(r) => seq![r@],
        None => seq![],
    }
}

fn with_access_location(d: &mut Diagnostic, a: &ResolvedAccess)
    ensures
        final(d)@ == old(d)@.rels(access_location(*a)),
{
    match &a.location {
        Some(r) => {
            d.with_related(r.copy());
            assert(old(d)@.related.push(r@) =~= old(d)@.related + seq![r@]);
        },
        None => {
            assert(old(d)@.related + seq![] =~= old(d)@.related);
        },
    }
}

/// A statement error.
pub enum StmtError {
    /// A path used as a statement.
    EmptyPathExpression { var: ResolvedAccess },
    /// An assignment target that does not resolve.
    UnresolvedAssignmentTarget { var: ResolvedAccess, err: AccessError },
    /// An assignment to something that cannot be mutated.
    InvalidAssignmentTarget { var: ResolvedAccess },
    /// An assignment to a type.
    AssignmentToDirectType { var: ResolvedAccess },
    /// An assignment to a callable.
    AssignmentToCallableType { var: ResolvedAccess },
    /// An assignment to an input variable.
    AssignmentToInputVar { var: ResolvedAccess },
    /// An assignment whose value does not fit its target.
    AssignmentTypeMismatch { err: ExprMismatch },
    /// A call that does not resolve.
    UnresolvedFuncCall { call: ResolvedAccess },
    /// A call of something that is not callable.
    CallANonCallableType { call: ResolvedAccess },
    /// A call of a type.
    CallADirectType { call: ResolvedAccess },
    /// A call whose result is dropped.
    UnusedReturnType { call: ResolvedAccess },
    /// A call with more arguments than parameters.
    TooManyParameters { call: ResolvedAccess, expected: usize, found: usize },
    /// A call mixing formal and positional arguments.
    MixedFormalNonFormalParams { call: ResolvedAccess },
    /// A parameter bound twice in a call.
    DuplicateParameter { param1: SpanIdent, param2: Named },
    /// A positional argument with no parameter.
    UnknownNonFormalParam { call: ResolvedAccess },
    /// A positional argument that does not resolve.
    UnresolvedNonFormalParam { var: ResolvedAccess, err: AccessError },
    /// A named input the callee does not have; `hints` suggest similar items of the callee.
    UnknownFormalInputParam { call: ResolvedAccess, param: SpanIdent, hints: Vec<String> },
    /// An input argument that does not resolve.
    UnresolvedInputParam { var: ResolvedAccess, err: AccessError },
    /// A named output the callee does not have; `hints` suggest similar items of the callee.
    UnknownFormalOutputParam { call: ResolvedAccess, param: SpanIdent, hints: Vec<String> },
    /// An output argument that does not resolve.
    UnresolvedOutputParam { var: ResolvedAccess, err: AccessError },
    /// An output target that does not resolve.
    UnresolvedOutputParamTarget { var: ResolvedAccess, err: AccessError },
    /// An output bound to a target of another type.
    ParameterTypeMismatch { param: SpanIdent, var: ResolvedAccess, err: TypeMismatch },
    /// An argument that does not fit its parameter.
    ParameterExprMismatch { var: ResolvedAccess, expr: ResolvedExpr, err: ExprMismatch },
    /// A FOR start value that does not fit.
    ForLoopStartTypeMismatch { start: ResolvedExpr, err: ExprMismatch },
    /// A FOR end value that does not fit.
    ForLoopEndTypeMismatch { end: ResolvedExpr, err: ExprMismatch },
    /// A FOR step value that does not fit.
    ForLoopStepTypeMismatch { step: ResolvedExpr, err: ExprMismatch },
    /// A WHILE condition that is not a boolean.
    WhileConditionIsNotABool { condition: ResolvedExpr },
    /// A REPEAT condition that is not a boolean.
    RepeatConditionIsNotABool { condition: ResolvedExpr },
}

impl StmtError {
    /// An error diagnostic of this error at `span`, with no code.
    pub open spec fn err(&self, message: Seq<char>, span: Span) -> DiagnosticView {
        DiagnosticView::plain(message, Some(Severity::Error), span)
    }

    fn error_at(&self, message: String, span: Span) -> (d: Diagnostic)
        ensures
            d@ == self.err(message@, span),
    {
        Diagnostic::plain(message, Some(Severity::Error), span)
    }

    /// The diagnostic this error renders to.
    pub open spec fn spec_to_diagnostic(&self) -> DiagnosticView {
        match self {
            StmtError::EmptyPathExpression { var } =>
                DiagnosticView::plain("unused path, you might want to do something with it"@, Some(Severity::Warning), var.span),
            StmtError::UnresolvedAssignmentTarget { var, err } =>
                err.spec_related(self.err("invalid assignment: "@ + err.spec_description(), var.span)),
            StmtError::InvalidAssignmentTarget { var } =>
                self.err("'"@ + var.decl_name@ + "' can not be mutated"@, var.span),
            StmtError::AssignmentToDirectType { var } =>
                self.err("'"@ + var.decl_name@ + "' is a type and can not be assigned"@, var.span)
                .note("types can only be assigned if they are declared in a VAR_* section"@),
            StmtError::AssignmentToCallableType { var } =>
                self.err("'"@ + var.decl_name@ + "' is a callable type and can not be assigned"@, var.span)
                .note("only functions with return types can be assigned"@),
            StmtError::AssignmentToInputVar { var } =>
                self.err("'"@ + var.decl_name@ + "' is an input variable and can not be assigned"@, var.span)
                .rels(access_location(*var)),
            StmtError::AssignmentTypeMismatch { err } =>
                err.spec_related(self.err("invalid assignment: "@ + err.spec_description(), err.expr.span)),
            StmtError::UnresolvedFuncCall { call } =>
                self.err("unresolved function call"@, call.span),
            StmtError::CallANonCallableType { call } =>
                self.err("cannot call non-callable type '"@ + call.decl_name@ + "'"@, call.span)
                .note("only functions, function blocks or methods can be called"@),
            StmtError::CallADirectType { call } =>
                self.err("'"@ + call.decl_name@ + "' is a direct type and can not be called"@, call.span)
                .note("only FUNCTIONS and METHODS or body from declared CLASS/FUNCTIOn_BLOCKS can called"@),
            StmtError::UnusedReturnType { call } =>
                DiagnosticView::plain("unused return type of '"@ + call.decl_name@ + "'"@, Some(Severity::Warning), call.span),
            StmtError::TooManyParameters { call, expected, found } =>
                self.err("'"@ + call.decl_name@ + "' expected "@ + decimal(*expected as nat) + " parameters, but got "@ + decimal(*found as nat), call.span)
                .rels(access_location(*call)),
            StmtError::MixedFormalNonFormalParams { call } =>
                self.err("mixed formal and non-formal parameters in call to '"@ + call.decl_name@ + "'"@, call.span)
                .note("parameters must be either all formal or all non-formal"@)
                .rels(access_location(*call)),
            StmtError::DuplicateParameter { param1, param2 } =>
                self.err("duplicate parameter '"@ + param1.text@ + "'"@, param1.span)
                .rel("parameter '"@ + param2.name@ + "' is already defined here"@, param2.file, param2.span),
            StmtError::UnknownNonFormalParam { call } =>
                self.err("unknown non-formal parameter in call to '"@ + call.decl_name@ + "'"@, call.span),
            StmtError::UnresolvedNonFormalParam { var, err } =>
                self.err("unresolved non-formal parameter: "@ + err.spec_description(), var.span),
            StmtError::UnknownFormalInputParam { call, param, hints } =>
                self.err("unknown input parameter '"@ + param.text@ + "'"@, param.span)
                .notes_all(texts(hints@)),
            StmtError::UnresolvedInputParam { var, err } =>
                err.spec_related(self.err("unresolved input parameter: "@ + err.spec_description(), var.span)),
            StmtError::UnknownFormalOutputParam { call, param, hints } =>
                self.err("unknown output parameter '"@ + param.text@ + "'"@, param.span)
                .notes_all(texts(hints@)),
            StmtError::UnresolvedOutputParam { var, err } =>
                self.err("unresolved output parameter: "@ + err.spec_description(), var.span),
            StmtError::UnresolvedOutputParamTarget { var, err } =>
                self.err("unresolved output parameter target: "@ + err.spec_description(), var.span),
            StmtError::ParameterTypeMismatch { param, var, err } =>
                located(located(self.err("invalid output assignment: "@ + err.spec_description(), var.span), err.ty1@), err.ty2@),
            StmtError::ParameterExprMismatch { var, expr, err } =>
                err.spec_related(self.err("parameter expression mismatch: "@ + err.spec_description(), expr.span)),
            StmtError::ForLoopStartTypeMismatch { start, err } =>
                err.spec_related(self.err("invalid FOR loop start: "@ + err.spec_description(), start.span)),
            StmtError::ForLoopEndTypeMismatch { end, err } =>
                err.spec_related(self.err("invalid FOR loop end: "@ + err.spec_description(), end.span)),
            StmtError::ForLoopStepTypeMismatch { step, err } =>
                err.spec_related(self.err("invalid FOR loop step: "@ + err.spec_description(), step.span)),
            StmtError::WhileConditionIsNotABool { condition } =>
                self.err("WHILE condition is not returning a boolean"@, condition.span),
            StmtError::RepeatConditionIsNotABool { condition } =>
                self.err("REPEAT condition is not returning a boolean"@, condition.span),
        }
    }

    /// Renders the error as a diagnostic.
    #[verifier::rlimit(60)]
    pub fn to_diagnostic(&self) -> (d: Diagnostic)
        ensures
            d@ == self.spec_to_diagnostic(),
    {
        match self {
            StmtError::EmptyPathExpression { var } => {
                Diagnostic::plain(
                    String::from_str("unused path, you might want to do something with it"),
                    Some(Severity::Warning),
                    var.span,
                )
            },
            StmtError::UnresolvedAssignmentTarget { var, err } => {
                let t = err.description();
                let mut d = self.error_at(cat2("invalid assignment: ", t.as_str()), var.span);
                err.related(&mut d);
                d
            },
            StmtError::InvalidAssignmentTarget { var } => {
                self.error_at(cat3("'", var.decl_name.as_str(), "' can not be mutated"), var.span)
            },
            StmtError::AssignmentToDirectType { var } => {
                let mut d = self.error_at(cat3("'", var.decl_name.as_str(), "' is a type and can not be assigned"), var.span);
                d.with_note(String::from_str("types can only be assigned if they are declared in a VAR_* section"));
                d
            },
            StmtError::AssignmentToCallableType { var } => {
                let mut d = self.error_at(cat3("'", var.decl_name.as_str(), "' is a callable type and can not be assigned"), var.span);
                d.with_note(String::from_str("only functions with return types can be assigned"));
                d
            },
            StmtError::AssignmentToInputVar { var } => {
                let mut d = self.error_at(cat3("'", var.decl_name.as_str(), "' is an input variable and can not be assigned"), var.span);
                with_access_location(&mut d, var);
                d
            },
            StmtError::AssignmentTypeMismatch { err } => {
                let t = err.description();
                let mut d = self.error_at(cat2("invalid assignment: ", t.as_str()), err.expr.span);
                err.related(&mut d);
                d
            },
            StmtError::UnresolvedFuncCall { call } => {
                self.error_at(String::from_str("unresolved function call"), call.span)
            },
            StmtError::CallANonCallableType { call } => {
                let mut d = self.error_at(cat3("cannot call non-callable type '", call.decl_name.as_str(), "'"), call.span);
                d.with_note(String::from_str("only functions, function blocks or methods can be called"));
                d
            },
            StmtError::CallADirectType { call } => {
                let mut d = self.error_at(cat3("'", call.decl_name.as_str(), "' is a direct type and can not be called"), call.span);
                d.with_note(String::from_str("only FUNCTIONS and METHODS or body from declared CLASS/FUNCTIOn_BLOCKS can called"));
                d
            },
            StmtError::UnusedReturnType { call } => {
                Diagnostic::plain(cat3("unused return type of '", call.decl_name.as_str(), "'"), Some(Severity::Warning), call.span)
            },
            StmtError::TooManyParameters { call, expected, found } => {
                let t1 = usize_to_string(*expected);
                let t2 = usize_to_string(*found);
                let mut d = self.error_at(cat6("'", call.decl_name.as_str(), "' expected ", t1.as_str(), " parameters, but got ", t2.as_str()), call.span);
                with_access_location(&mut d, call);
                d
            },
            StmtError::MixedFormalNonFormalParams { call } => {
                let mut d = self.error_at(cat3("mixed formal and non-formal parameters in call to '", call.decl_name.as_str(), "'"), call.span);
                d.with_note(String::from_str("parameters must be either all formal or all non-formal"));
                with_access_location(&mut d, call);
                d
            },
            StmtError::DuplicateParameter { param1, param2 } => {
                let mut d = self.error_at(cat3("duplicate parameter '", param1.text.as_str(), "'"), param1.span);
                d.with_related_at(cat3("parameter '", param2.name.as_str(), "' is already defined here"), param2.file, param2.span);
                d
            },
            StmtError::UnknownNonFormalParam { call } => {
                self.error_at(cat3("unknown non-formal parameter in call to '", call.decl_name.as_str(), "'"), call.span)
            },
            StmtError::UnresolvedNonFormalParam { var, err } => {
                let t = err.description();
                self.error_at(cat2("unresolved non-formal parameter: ", t.as_str()), var.span)
            },
            StmtError::UnknownFormalInputParam { call, param, hints } => {
                let mut d = self.error_at(cat3("unknown input parameter '", param.text.as_str(), "'"), param.span);
                d.with_notes(copy_texts(hints));
                d
            },
            StmtError::UnresolvedInputParam { var, err } => {
                let t = err.description();
                let mut d = self.error_at(cat2("unresolved input parameter: ", t.as_str()), var.span);
                err.related(&mut d);
                d
            },
            StmtError::UnknownFormalOutputParam { call, param, hints } => {
                let mut d = self.error_at(cat3("unknown output parameter '", param.text.as_str(), "'"), param.span);
                d.with_notes(copy_texts(hints));
                d
            },
            StmtError::UnresolvedOutputParam { var, err } => {
                let t = err.description();
                self.error_at(cat2("unresolved output parameter: ", t.as_str()), var.span)
            },
            StmtError::UnresolvedOutputParamTarget { var, err } => {
                let t = err.description();
                self.error_at(cat2("unresolved output parameter target: ", t.as_str()), var.span)
            },
            StmtError::ParameterTypeMismatch { param, var, err } => {
                let t = err.description();
                let mut d = self.error_at(cat2("invalid output assignment: ", t.as_str()), var.span);
                err.related(&mut d);
                d
            },
            StmtError::ParameterExprMismatch { var, expr, err } => {
                let t = err.description();
                let mut d = self.error_at(cat2("parameter expression mismatch: ", t.as_str()), expr.span);
                err.related(&mut d);
                d
            },
            StmtError::ForLoopStartTypeMismatch { start, err } => {
                let t = err.description();
                let mut d = self.error_at(cat2("invalid FOR loop start: ", t.as_str()), start.span);
                err.related(&mut d);
                d
            },
            StmtError::ForLoopEndTypeMismatch { end, err } => {
                let t = err.description();
                let mut d = self.error_at(cat2("invalid FOR loop end: ", t.as_str()), end.span);
                err.related(&mut d);
                d
            },
            StmtError::ForLoopStepTypeMismatch { step, err } => {
                let t = err.description();
                let mut d = self.error_at(cat2("invalid FOR loop step: ", t.as_str()), step.span);
                err.related(&mut d);
                d
            },
            StmtError::WhileConditionIsNotABool { condition } => {
                self.error_at(String::from_str("WHILE condition is not returning a boolean"), condition.span)
            },
            StmtError::RepeatConditionIsNotABool { condition } => {
                self.error_at(String::from_str("REPEAT condition is not returning a boolean"), condition.span)
            },
        }
    }

}

/// Each kind of `StmtError` is reported at the span of what it concerns, with
/// its message and severity, whatever names, spans and texts it holds; a
/// kind whose diagnostic is built directly also carries exactly the
/// related locations, notes, tags, source and quick fixes listed.
pub proof fn law_stmt_error_rendering(this: StmtError)
    ensures
        match this {
            StmtError::EmptyPathExpression { var } => {
                let d = this.spec_to_diagnostic();
                &&& d.message == "unused path, you might want to do something with it"@
                &&& d.span == var.span
                &&& d.severity == Some(Severity::Warning)
                &&& d.related == Seq::<RelatedView>::empty()
                &&& d.notes == Seq::<Seq<char>>::empty()
                &&& d.tags == Seq::<Tag>::empty()
                &&& d.source == None::<Seq<char>>
                &&& d.fixes == Seq::<FixView>::empty()
            },
            StmtError::UnresolvedAssignmentTarget { var, err } => {
                let d = this.spec_to_diagnostic();
                &&& d.message == "invalid assignment: "@ + err.spec_description()
                &&& d.span == var.span
                &&& d.severity == Some(Severity::Error)
            },
            StmtError::InvalidAssignmentTarget { var } => {
                let d = this.spec_to_diagnostic();
                &&& d.message == "'"@ + var.decl_name@ + "' can not be mutated"@
                &&& d.span == var.span
                &&& d.severity == Some(Severity::Error)
                &&& d.related == Seq::<RelatedView>::empty()
                &&& d.notes == Seq::<Seq<char>>::empty()
                &&& d.tags == Seq::<Tag>::empty()
                &&& d.source == None::<Seq<char>>
                &&& d.fixes == Seq::<FixView>::empty()
            },
            StmtError::AssignmentToDirectType { var } => {
                let d = this.spec_to_diagnostic();
                &&& d.message == "'"@ + var.decl_name@ + "' is a type and can not be assigned"@
                &&& d.span == var.span
                &&& d.severity == Some(Severity::Error)
                &&& d.related == Seq::<RelatedView>::empty()
                &&& d.notes == Seq::<Seq<char>>::empty().push("types can only be assigned if they are declared in a VAR_* section"@)
                &&& d.tags == Seq::<Tag>::empty()
                &&& d.source == None::<Seq<char>>
                &&& d.fixes == Seq::<FixView>::empty()
            },
            StmtError::AssignmentToCallableType { var } => {
                let d = this.spec_to_diagnostic();
                &&& d.message == "'"@ + var.decl_name@ + "' is a callable type and can not be assigned"@
                &&& d.span == var.span
                &&& d.severity == Some(Severity::Error)
                &&& d.related == Seq::<RelatedView>::empty()
                &&& d.notes == Seq::<Seq<char>>::empty().push("only functions with return types can be assigned"@)
                &&& d.tags == Seq::<Tag>::empty()
                &&& d.source == None::<Seq<char>>
                &&& d.fixes == Seq::<FixView>::empty()
            },
            StmtError::AssignmentToInputVar { var } => {
                let d = this.spec_to_diagnostic();
                &&& d.message == "'"@ + var.decl_name@ + "' is an input variable and can not be assigned"@
                &&& d.span == var.span
                &&& d.severity == Some(Severity::Error)
                &&& d.related == (Seq::<RelatedView>::empty() + access_location(var))
                &&& d.notes == Seq::<Seq<char>>::empty()
                &&& d.tags == Seq::<Tag>::empty()
                &&& d.source == None::<Seq<char>>
                &&& d.fixes == Seq::<FixView>::empty()
            },
            StmtError::AssignmentTypeMismatch { err } => {
                let d = this.spec_to_diagnostic();
                &&& d.message == "invalid assignment: "@ + err.spec_description()
                &&& d.span == err.expr.span
                &&& d.severity == Some(Severity::Error)
            },
            StmtError::UnresolvedFuncCall { call } => {
                let d = this.spec_to_diagnostic();
                &&& d.message == "unresolved function call"@
                &&& d.span == call.span
                &&& d.severity == Some(Severity::Error)
                &&& d.related == Seq::<RelatedView>::empty()
                &&& d.notes == Seq::<Seq<char>>::empty()
                &&& d.tags == Seq::<Tag>::empty()
                &&& d.source == None::<Seq<char>>
                &&& d.fixes == Seq::<FixView>::empty()
            },
            StmtError::CallANonCallableType { call } => {
                let d = this.spec_to_diagnostic();
                &&& d.message == "cannot call non-callable type '"@ + call.decl_name@ + "'"@
                &&& d.span == call.span
                &&& d.severity == Some(Severity::Error)
                &&& d.related == Seq::<RelatedView>::empty()
                &&& d.notes == Seq::<Seq<char>>::empty().push("only functions, function blocks or methods can be called"@)
                &&& d.tags == Seq::<Tag>::empty()
                &&& d.source == None::<Seq<char>>
                &&& d.fixes == Seq::<FixView>::empty()
            },
            StmtError::CallADirectType { call } => {
                let d = this.spec_to_diagnostic();
                &&& d.message == "'"@ + call.decl_name@ + "' is a direct type and can not be called"@
                &&& d.span == call.span
                &&& d.severity == Some(Severity::Error)
                &&& d.related == Seq::<RelatedView>::empty()
                &&& d.notes == Seq::<Seq<char>>::empty().push("only FUNCTIONS and METHODS or body from declared CLASS/FUNCTIOn_BLOCKS can called"@)
                &&& d.tags == Seq::<Tag>::empty()
                &&& d.source == None::<Seq<char>>
                &&& d.fixes == Seq::<FixView>::empty()
            },
            StmtError::UnusedReturnType { call } => {
                let d = this.spec_to_diagnostic();
                &&& d.message == "unused return type of '"@ + call.decl_name@ + "'"@
                &&& d.span == call.span
                &&& d.severity == Some(Severity::Warning)
                &&& d.related == Seq::<RelatedView>::empty()
                &&& d.notes == Seq::<Seq<char>>::empty()
                &&& d.tags == Seq::<Tag>::empty()
                &&& d.source == None::<Seq<char>>
                &&& d.fixes == Seq::<FixView>::empty()
            },
            StmtError::TooManyParameters { call, expected, found } => {
                let d = this.spec_to_diagnostic();
                &&& d.message == "'"@ + call.decl_name@ + "' expected "@ + decimal(expected as nat) + " parameters, but got "@ + decimal(found as nat)
                &&& d.span == call.span
                &&& d.severity == Some(Severity::Error)
                &&& d.related == (Seq::<RelatedView>::empty() + access_location(call))
                &&& d.notes == Seq::<Seq<char>>::empty()
                &&& d.tags == Seq::<Tag>::empty()
                &&& d.source == None::<Seq<char>>
                &&& d.fixes == Seq::<FixView>::empty()
            },
            StmtError::MixedFormalNonFormalParams { call } => {
                let d = this.spec_to_diagnostic();
                &&& d.message == "mixed formal and non-formal parameters in call to '"@ + call.decl_name@ + "'"@
                &&& d.span == call.span
                &&& d.severity == Some(Severity::Error)
                &&& d.related == (Seq::<RelatedView>::empty() + access_location(call))
                &&& d.notes == Seq::<Seq<char>>::empty().push("parameters must be either all formal or all non-formal"@)
                &&& d.tags == Seq::<Tag>::empty()
                &&& d.source == None::<Seq<char>>
                &&& d.fixes == Seq::<FixView>::empty()
            },
            StmtError::DuplicateParameter { param1, param2 } => {
                let d = this.spec_to_diagnostic();
                &&& d.message == "duplicate parameter '"@ + param1.text@ + "'"@
                &&& d.span == param1.span
                &&& d.severity == Some(Severity::Error)
                &&& d.related == Seq::<RelatedView>::empty().push(RelatedView { message: "parameter '"@ + param2.name@ + "' is already defined here"@, file: param2.file, span: param2.span })
                &&& d.notes == Seq::<Seq<char>>::empty()
                &&& d.tags == Seq::<Tag>::empty()
                &&& d.source == None::<Seq<char>>
                &&& d.fixes == Seq::<FixView>::empty()
            },
            StmtError::UnknownNonFormalParam { call } => {
                let d = this.spec_to_diagnostic();
                &&& d.message == "unknown non-formal parameter in call to '"@ + call.decl_name@ + "'"@
                &&& d.span == call.span
                &&& d.severity == Some(Severity::Error)
                &&& d.related == Seq::<RelatedView>::empty()
                &&& d.notes == Seq::<Seq<char>>::empty()
                &&& d.tags == Seq::<Tag>::empty()
                &&& d.source == None::<Seq<char>>
                &&& d.fixes == Seq::<FixView>::empty()
            },
            StmtError::UnresolvedNonFormalParam { var, err } => {
                let d = this.spec_to_diagnostic();
                &&& d.message == "unresolved non-formal parameter: "@ + err.spec_description()
                &&& d.span == var.span
                &&& d.severity == Some(Severity::Error)
                &&& d.related == Seq::<RelatedView>::empty()
                &&& d.notes == Seq::<Seq<char>>::empty()
                &&& d.tags == Seq::<Tag>::empty()
                &&& d.source == None::<Seq<char>>
                &&& d.fixes == Seq::<FixView>::empty()
            },
            StmtError::UnknownFormalInputParam { call, param, hints } => {
                let d = this.spec_to_diagnostic();
                &&& d.message == "unknown input parameter '"@ + param.text@ + "'"@
                &&& d.span == param.span
                &&& d.severity == Some(Severity::Error)
                &&& d.related == Seq::<RelatedView>::empty()
                &&& d.notes == (Seq::<Seq<char>>::empty() + texts(hints@))
                &&& d.tags == Seq::<Tag>::empty()
                &&& d.source == None::<Seq<char>>
                &&& d.fixes == Seq::<FixView>::empty()
            },
            StmtError::UnresolvedInputParam { var, err } => {
                let d = this.spec_to_diagnostic();
                &&& d.message == "unresolved input parameter: "@ + err.spec_description()
                &&& d.span == var.span
                &&& d.severity == Some(Severity::Error)
            },
            StmtError::UnknownFormalOutputParam { call, param, hints } => {
                let d = this.spec_to_diagnostic();
                &&& d.message == "unknown output parameter '"@ + param.text@ + "'"@
                &&& d.span == param.span
                &&& d.severity == Some(Severity::Error)
                &&& d.related == Seq::<RelatedView>::empty()
                &&& d.notes == (Seq::<Seq<char>>::empty() + texts(hints@))
                &&& d.tags == Seq::<Tag>::empty()
                &&& d.source == None::<Seq<char>>
                &&& d.fixes == Seq::<FixView>::empty()
            },
            StmtError::UnresolvedOutputParam { var, err } => {
                let d = this.spec_to_diagnostic();
                &&& d.message == "unresolved output parameter: "@ + err.spec_description()
                &&& d.span == var.span
                &&& d.severity == Some(Severity::Error)
                &&& d.related == Seq::<RelatedView>::empty()
                &&& d.notes == Seq::<Seq<char>>::empty()
                &&& d.tags == Seq::<Tag>::empty()
                &&& d.source == None::<Seq<char>>
                &&& d.fixes == Seq::<FixView>::empty()
            },
            StmtError::UnresolvedOutputParamTarget { var, err } => {
                let d = this.spec_to_diagnostic();
                &&& d.message == "unresolved output parameter target: "@ + err.spec_description()
                &&& d.span == var.span
                &&& d.severity == Some(Severity::Error)
                &&& d.related == Seq::<RelatedView>::empty()
                &&& d.notes == Seq::<Seq<char>>::empty()
                &&& d.tags == Seq::<Tag>::empty()
                &&& d.source == None::<Seq<char>>
                &&& d.fixes == Seq::<FixView>::empty()
            },
            StmtError::ParameterTypeMismatch { param, var, err } => {
                let d = this.spec_to_diagnostic();
                &&& d.message == "invalid output assignment: "@ + err.spec_description()
                &&& d.span == var.span
                &&& d.severity == Some(Severity::Error)
                &&& d.related == ((Seq::<RelatedView>::empty() + match err.ty1@.location { Some(r) => seq![r], None => Seq::<RelatedView>::empty() }) + match err.ty2@.location { Some(r) => seq![r], None => Seq::<RelatedView>::empty() })
                &&& d.notes == Seq::<Seq<char>>::empty()
                &&& d.tags == Seq::<Tag>::empty()
                &&& d.source == None::<Seq<char>>
                &&& d.fixes == Seq::<FixView>::empty()
            },
            StmtError::ParameterExprMismatch { var, expr, err } => {
                let d = this.spec_to_diagnostic();
                &&& d.message == "parameter expression mismatch: "@ + err.spec_description()
                &&& d.span == expr.span
                &&& d.severity == Some(Severity::Error)
            },
            StmtError::ForLoopStartTypeMismatch { start, err } => {
                let d = this.spec_to_diagnostic();
                &&& d.message == "invalid FOR loop start: "@ + err.spec_description()
                &&& d.span == start.span
                &&& d.severity == Some(Severity::Error)
            },
            StmtError::ForLoopEndTypeMismatch { end, err } => {
                let d = this.spec_to_diagnostic();
                &&& d.message == "invalid FOR loop end: "@ + err.spec_description()
                &&& d.span == end.span
                &&& d.severity == Some(Severity::Error)
            },
            StmtError::ForLoopStepTypeMismatch { step, err } => {
                let d = this.spec_to_diagnostic();
                &&& d.message == "invalid FOR loop step: "@ + err.spec_description()
                &&& d.span == step.span
                &&& d.severity == Some(Severity::Error)
            },
            StmtError::WhileConditionIsNotABool { condition } => {
                let d = this.spec_to_diagnostic();
                &&& d.message == "WHILE condition is not returning a boolean"@
                &&& d.span == condition.span
                &&& d.severity == Some(Severity::Error)
                &&& d.related == Seq::<RelatedView>::empty()
                &&& d.notes == Seq::<Seq<char>>::empty()
                &&& d.tags == Seq::<Tag>::empty()
                &&& d.source == None::<Seq<char>>
                &&& d.fixes == Seq::<FixView>::empty()
            },
            StmtError::RepeatConditionIsNotABool { condition } => {
                let d = this.spec_to_diagnostic();
                &&& d.message == "REPEAT condition is not returning a boolean"@
                &&& d.span == condition.span
                &&& d.severity == Some(Severity::Error)
                &&& d.related == Seq::<RelatedView>::empty()
                &&& d.notes == Seq::<Seq<char>>::empty()
                &&& d.tags == Seq::<Tag>::empty()
                &&& d.source == None::<Seq<char>>
                &&& d.fixes == Seq::<FixView>::empty()
            },
        },
{
}

} // verus!
