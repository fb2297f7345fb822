//! E08xx: call errors: arguments that do not fit the parameters of what is
//! called.
use vstd::prelude::*;
use vstd::string::*;
use crate::diag::{Diagnostic, DiagnosticView, Span};
use crate::e2_resolve::{
    any_in_section, candidate_locations, candidate_locations_of, copy_texts, overload_locations, overload_locations_of,
    parameter_locations, parameters_of, plural, quoted_names, Overload,
};
use crate::hir::{Named, SpanIdent, Var, VariableKind};
use crate::text::{cat2, cat3, cat4, cat5, cat6, cat7, decimal, join, join_strings, texts, usize_to_string};

use crate::diag::RelatedView;
use crate::diag::Severity;

use crate::diag::Tag;
use crate::diag::FixView;

verus! {

/// A call error.
pub enum CallError {
    /// A call with a number of arguments that no overload (`overloads` of them) takes.
    IncorrectNumberOfParameters { overloads: usize, expected: usize, actual: usize, call_span: Span, callable: Named },
    /// A call that leaves required parameters (`vars`) unbound.
    MissingRequiredParameter { func: Named, vars: Vec<Var>, call_span: Span },
    /// A named input the callable does not have; `hints` are the notes suggesting similar parameters.
    UnknownInputParameter { func: Named, param: SpanIdent, hints: Vec<String> },
    /// A named output the callable does not have; `hints` are the notes suggesting similar parameters.
    UnknownOutputParameter { func: Named, param: SpanIdent, hints: Vec<String> },
    /// An output parameter passed positionally.
    OutputParameterUsedAsInput { func: Named, var: Var, expr: Span, param: usize },
    /// A VAR_IN_OUT argument that is not an l-value.
    InOutParameterRequiresLValue { func: Named, var: Var, expr: Span },
    /// A VAR_IN_OUT bound with `=>`.
    InOutParameterBoundWithArrow { func: Named, var: Var, param: SpanIdent },
    /// A partial access whose offset the base type does not have; `max_offset` is none when no slice fits at all.
    MultibitsOutOfRange { span: Span, var: Option<Var>, offset: usize, access_bits: usize, max_offset: Option<usize>, base_type: String },
    /// A call of something that is not callable (a type named `typ`, which may be a FUNCTION_BLOCK).
    CallNonCallableType { typ: String, is_function_block: bool, call_span: Span },
    /// Several overloads equally viable for the arguments.
    AmbiguousOverload { call_span: Span, name: String, candidates: Vec<Named> },
    /// No overload accepts the argument types (named in `arg_types`).
    NoMatchingOverload { call_span: Span, name: String, arg_types: Vec<String>, candidates: Vec<Overload> },
    /// A variadic variable of a type that is not elementary.
    NonVariadicTypeForVariable { var: Var, typ: String },
    /// A second variadic variable.
    MultipleVariadicVariables { first: Var, second: Var },
    /// A call that binds nothing to a variadic parameter.
    EmptyVariadicCall { func: Named, var: Var, call_span: Span },
    /// `...` on a variable that is not variadic.
    NonVariadicFoldParameter { var: Var, call_site: Span },
    /// A VAR_INPUT beside a variadic parameter.
    VariadicMixedWithOtherInputs { variadic_var: Var, other_var: Var },
}

impl CallError {
    pub open spec fn spec_code(&self) -> Seq<char> {
        match self {
            CallError::IncorrectNumberOfParameters { .. } => "E0801"@,
            CallError::MissingRequiredParameter { .. } => "E0802"@,
            CallError::UnknownInputParameter { .. } => "E0803"@,
            CallError::UnknownOutputParameter { .. } => "E0804"@,
            CallError::OutputParameterUsedAsInput { .. } => "E0805"@,
            CallError::InOutParameterRequiresLValue { .. } => "E0806"@,
            CallError::InOutParameterBoundWithArrow { .. } => "E0807"@,
            CallError::MultibitsOutOfRange { .. } => "E0808"@,
            CallError::CallNonCallableType { .. } => "E0808"@,
            CallError::AmbiguousOverload { .. } => "E0809"@,
            CallError::NoMatchingOverload { .. } => "E0810"@,
            CallError::NonVariadicTypeForVariable { .. } => "E0811"@,
            CallError::MultipleVariadicVariables { .. } => "E0812"@,
            CallError::EmptyVariadicCall { .. } => "E0813"@,
            CallError::NonVariadicFoldParameter { .. } => "E0814"@,
            CallError::VariadicMixedWithOtherInputs { .. } => "E0815"@,
        }
    }

    /// The stable code of the error.
    pub fn code(&self) -> (r: &'static str)
        ensures
            r@ == self.spec_code(),
    {
        match self {
            CallError::IncorrectNumberOfParameters { .. } => "E0801",
            CallError::MissingRequiredParameter { .. } => "E0802",
            CallError::UnknownInputParameter { .. } => "E0803",
            CallError::UnknownOutputParameter { .. } => "E0804",
            CallError::OutputParameterUsedAsInput { .. } => "E0805",
            CallError::InOutParameterRequiresLValue { .. } => "E0806",
            CallError::InOutParameterBoundWithArrow { .. } => "E0807",
            CallError::MultibitsOutOfRange { .. } => "E0808",
            CallError::CallNonCallableType { .. } => "E0808",
            CallError::AmbiguousOverload { .. } => "E0809",
            CallError::NoMatchingOverload { .. } => "E0810",
            CallError::NonVariadicTypeForVariable { .. } => "E0811",
            CallError::MultipleVariadicVariables { .. } => "E0812",
            CallError::EmptyVariadicCall { .. } => "E0813",
            CallError::NonVariadicFoldParameter { .. } => "E0814",
            CallError::VariadicMixedWithOtherInputs { .. } => "E0815",
        }
    }

    pub open spec fn spec_description(&self) -> Seq<char> {
        match self {
            CallError::IncorrectNumberOfParameters { .. } => "function call parameter mismatch"@,
            CallError::MissingRequiredParameter { .. } => "missing required parameter"@,
            CallError::UnknownInputParameter { .. } => "function call parameter mismatch"@,
            CallError::UnknownOutputParameter { .. } => "function call parameter mismatch"@,
            CallError::OutputParameterUsedAsInput { .. } => "function call parameter mismatch"@,
            CallError::InOutParameterRequiresLValue { .. } => "VAR_IN_OUT argument must be a variable"@,
            CallError::InOutParameterBoundWithArrow { .. } => "VAR_IN_OUT parameter bound with output syntax"@,
            CallError::MultibitsOutOfRange { .. } => "multibit access out of range"@,
            CallError::CallNonCallableType { .. } => "semantic violation"@,
            CallError::AmbiguousOverload { .. } => "ambiguous overloaded call"@,
            CallError::NoMatchingOverload { .. } => "no matching overload"@,
            CallError::NonVariadicTypeForVariable { .. } => "invalid type"@,
            CallError::MultipleVariadicVariables { .. } => "invalid variadic declaration"@,
            CallError::EmptyVariadicCall { .. } => "variadic call without arguments"@,
            CallError::NonVariadicFoldParameter { .. } => "type mismatch"@,
            CallError::VariadicMixedWithOtherInputs { .. } => "invalid variadic declaration"@,
        }
    }

    /// The short description of the error's kind.
    pub fn description(&self) -> (r: &'static str)
        ensures
            r@ == self.spec_description(),
    {
        match self {
            CallError::IncorrectNumberOfParameters { .. } => "function call parameter mismatch",
            CallError::MissingRequiredParameter { .. } => "missing required parameter",
            CallError::UnknownInputParameter { .. } => "function call parameter mismatch",
            CallError::UnknownOutputParameter { .. } => "function call parameter mismatch",
            CallError::OutputParameterUsedAsInput { .. } => "function call parameter mismatch",
            CallError::InOutParameterRequiresLValue { .. } => "VAR_IN_OUT argument must be a variable",
            CallError::InOutParameterBoundWithArrow { .. } => "VAR_IN_OUT parameter bound with output syntax",
            CallError::MultibitsOutOfRange { .. } => "multibit access out of range",
            CallError::CallNonCallableType { .. } => "semantic violation",
            CallError::AmbiguousOverload { .. } => "ambiguous overloaded call",
            CallError::NoMatchingOverload { .. } => "no matching overload",
            CallError::NonVariadicTypeForVariable { .. } => "invalid type",
            CallError::MultipleVariadicVariables { .. } => "invalid variadic declaration",
            CallError::EmptyVariadicCall { .. } => "variadic call without arguments",
            CallError::NonVariadicFoldParameter { .. } => "type mismatch",
            CallError::VariadicMixedWithOtherInputs { .. } => "invalid variadic declaration",
        }
    }

    /// An error diagnostic of this error at `span`.
    pub open spec fn err(&self, message: Seq<char>, span: Span) -> DiagnosticView {
        DiagnosticView::error(message, self.spec_code(), self.spec_description(), span)
    }

    fn error_at(&self, message: String, span: Span) -> (d: Diagnostic)
        ensures
            d@ == self.err(message@, span),
    {
        Diagnostic::error(message, self.code(), self.description(), span)
    }

    /// The diagnostic this error renders to.
    pub open spec fn spec_to_diagnostic(&self) -> DiagnosticView {
        match self {
            CallError::IncorrectNumberOfParameters { overloads, expected, actual, call_span, callable } =>
                self.err(
                    if *overloads > 1 {
                        "no overload of '"@ + callable.name@ + "' takes "@ + decimal(*actual as nat) + " parameter"@
                            + plural(*actual as nat)
                    } else {
                        "'"@ + callable.name@ + "' expects "@ + decimal(*expected as nat) + " parameter"@ + plural(
                            *expected as nat,
                        ) + ", but got "@ + decimal(*actual as nat)
                    },
                    *call_span,
                ),
            CallError::MissingRequiredParameter { func, vars, call_span } =>
                {
                    let d = self.err(
                        "call to '"@ + func.name@ + "' is missing "@ + decimal(vars@.len()) + " required parameter"@
                            + (if vars@.len() > 1 { "s"@ } else { ""@ }) + ": "@ + join(quoted_names(vars@), ", "@),
                        *call_span,
                    );
                    let d = if any_in_section(vars@, VariableKind::Input) {
                        d.note("VAR_INPUT on FUNCTION/METHOD parameters must be supplied unless the declaration provides a scalar default value"@)
                    } else {
                        d
                    };
                    let d = if any_in_section(vars@, VariableKind::InOut) {
                        d.note("VAR_IN_OUT parameters bind to caller-side l-values and must always be supplied"@)
                    } else {
                        d
                    };
                    d.rels(parameter_locations(vars@))
                },
            CallError::UnknownInputParameter { func, param, hints } =>
                self.err("unknown input parameter '"@ + param.text@ + "'"@, param.span)
                .notes_all(texts(hints@)),
            CallError::UnknownOutputParameter { func, param, hints } =>
                self.err("unknown output parameter '"@ + param.text@ + "'"@, param.span)
                .notes_all(texts(hints@)),
            CallError::OutputParameterUsedAsInput { func, var, expr, param } =>
                self.err("output parameter at index '"@ + decimal(*param as nat) + "' cannot be used as input"@, *expr)
                .note("use formal syntax instead: "@ + var.decl.name@ + " => <variable>"@),
            CallError::InOutParameterRequiresLValue { func, var, expr } =>
                self.err("VAR_IN_OUT parameter '"@ + var.decl.name@ + "' of '"@ + func.name@ + "' requires a variable, not a value"@, *expr)
                .rel("parameter '"@ + var.decl.name@ + "' declared here"@, var.decl.file, var.decl.span)
                .note("VAR_IN_OUT binds the callee to the caller's storage by reference; a literal, expression, or call result has no address to bind"@),
            CallError::InOutParameterBoundWithArrow { func, var, param } =>
                self.err("VAR_IN_OUT parameter '"@ + var.decl.name@ + "' of '"@ + func.name@ + "' cannot be bound with '=>'"@, param.span)
                .rel("parameter '"@ + var.decl.name@ + "' declared here"@, var.decl.file, var.decl.span)
                .note("VAR_IN_OUT is bound by reference at call entry: use "@ + var.decl.name@ + " := <variable>"@),
            CallError::MultibitsOutOfRange { span, var, offset, access_bits, max_offset, base_type } =>
                {
                    let d = self.err(
                        match *max_offset {
                            Some(max) => "offset "@ + decimal(*offset as nat) + " is out of range for type '"@ + base_type@
                                + "' (valid range: 0.."@ + decimal(max as nat) + ")"@,
                            None => "a "@ + decimal(*access_bits as nat) + "-bit access does not fit in type '"@ + base_type@ + "'"@,
                        },
                        *span,
                    );
                    match var {
                        Some(v) => d.rel("'"@ + v.decl.name@ + "' is declared here"@, v.decl.file, v.decl.span),
                        None => d,
                    }
                },
            CallError::CallNonCallableType { typ, is_function_block, call_span } =>
                {
                    let d = self.err("'"@ + typ@ + "' is not a callable type"@, *call_span);
                    if *is_function_block {
                        d.note("to call a FUNCTION_BLOCK, you need to instantiate it first."@)
                    } else {
                        d
                    }
                },
            CallError::AmbiguousOverload { call_span, name, candidates } =>
                self.err(
                    "call to '"@ + name@ + "' is ambiguous: "@ + decimal(candidates@.len())
                        + " overloads accept these arguments: disambiguate with an explicit cast"@,
                    *call_span,
                ).rels(candidate_locations(candidates@)),
            CallError::NoMatchingOverload { call_span, name, arg_types, candidates } =>
                self.err("no overload of '"@ + name@ + "' accepts ("@ + join(texts(arg_types@), ", "@) + ")"@, *call_span)
                    .rels(overload_locations(candidates@)),
            CallError::NonVariadicTypeForVariable { var, typ } =>
                self.err("variable '"@ + var.decl.name@ + "' is declared as variadic but has non-variadic type '"@ + typ@ + "'"@, var.decl.span)
                .note("only elementary types can be variadic"@),
            CallError::MultipleVariadicVariables { first, second } =>
                self.err("only one variadic variable is allowed per POU"@, second.decl.span)
                .rel("first variadic variable '"@ + first.decl.name@ + "' declared here"@, first.decl.file, first.decl.span),
            CallError::EmptyVariadicCall { func, var, call_span } =>
                self.err("call to '"@ + func.name@ + "' must pass at least one argument to variadic parameter '"@ + var.decl.name@ + "'"@, *call_span)
                .rel("variadic parameter '"@ + var.decl.name@ + "' declared here"@, var.decl.file, var.decl.span),
            CallError::NonVariadicFoldParameter { var, call_site } =>
                self.err("variable '"@ + var.decl.name@ + "' is not variadic"@, *call_site)
                .note("... can only be used on VAR_INPUT variables that are declared variadic with the same operator (e.g: INT...)"@),
            CallError::VariadicMixedWithOtherInputs { variadic_var, other_var } =>
                self.err("variadic parameter '"@ + variadic_var.decl.name@ + "' must be the only VAR_INPUT parameter"@, other_var.decl.span)
                .rel("variadic parameter '"@ + variadic_var.decl.name@ + "' declared here"@, variadic_var.decl.file, variadic_var.decl.span)
                .note("a variadic parameter must be the only parameter in VAR_INPUT"@),
        }
    }

    /// Renders the error as a diagnostic.
    #[verifier::rlimit(80)]
    pub fn to_diagnostic(&self) -> (d: Diagnostic)
        ensures
            d@ == self.spec_to_diagnostic(),
    {
        match self {
            CallError::IncorrectNumberOfParameters { overloads, expected, actual, call_span, callable } => {
                let a = usize_to_string(*actual);
                let message = if *overloads > 1 {
                    cat6("no overload of '", callable.name.as_str(), "' takes ", a.as_str(), " parameter", if *actual == 1 { "" } else { "s" })
                } else {
                    let e = usize_to_string(*expected);
                    let head = cat6("'", callable.name.as_str(), "' expects ", e.as_str(), " parameter", if *expected == 1 { "" } else { "s" });
                    cat3(head.as_str(), ", but got ", a.as_str())
                };
                self.error_at(message, *call_span)
            },
            CallError::MissingRequiredParameter { func, vars, call_span } => {
                let (names, rels, any_input, any_in_out) = parameters_of(vars);
                let joined = join_strings(&names, ", ");
                let count = usize_to_string(vars.len());
                let head = cat7("call to '", func.name.as_str(), "' is missing ", count.as_str(), " required parameter", if vars.len() > 1 { "s" } else { "" }, ": ");
                let mut d = self.error_at(cat2(head.as_str(), joined.as_str()), *call_span);
                if any_input {
                    d.with_note(String::from_str("VAR_INPUT on FUNCTION/METHOD parameters must be supplied unless the declaration provides a scalar default value"));
                }
                if any_in_out {
                    d.with_note(String::from_str("VAR_IN_OUT parameters bind to caller-side l-values and must always be supplied"));
                }
                d.with_related_all(rels);
                d
            },
            CallError::UnknownInputParameter { func, param, hints } => {
                let mut d = self.error_at(cat3("unknown input parameter '", param.text.as_str(), "'"), param.span);
                d.with_notes(copy_texts(hints));
                d
            },
            CallError::UnknownOutputParameter { func, param, hints } => {
                let mut d = self.error_at(cat3("unknown output parameter '", param.text.as_str(), "'"), param.span);
                d.with_notes(copy_texts(hints));
                d
            },
            CallError::OutputParameterUsedAsInput { func, var, expr, param } => {
                let t1 = usize_to_string(*param);
                let mut d = self.error_at(cat3("output parameter at index '", t1.as_str(), "' cannot be used as input"), *expr);
                d.with_note(cat3("use formal syntax instead: ", var.decl.name.as_str(), " => <variable>"));
                d
            },
            CallError::InOutParameterRequiresLValue { func, var, expr } => {
                let mut d = self.error_at(cat5("VAR_IN_OUT parameter '", var.decl.name.as_str(), "' of '", func.name.as_str(), "' requires a variable, not a value"), *expr);
                d.with_related_at(cat3("parameter '", var.decl.name.as_str(), "' declared here"), var.decl.file, var.decl.span);
                d.with_note(String::from_str("VAR_IN_OUT binds the callee to the caller's storage by reference; a literal, expression, or call result has no address to bind"));
                d
            },
            CallError::InOutParameterBoundWithArrow { func, var, param } => {
                let mut d = self.error_at(cat5("VAR_IN_OUT parameter '", var.decl.name.as_str(), "' of '", func.name.as_str(), "' cannot be bound with '=>'"), param.span);
                d.with_related_at(cat3("parameter '", var.decl.name.as_str(), "' declared here"), var.decl.file, var.decl.span);
                d.with_note(cat3("VAR_IN_OUT is bound by reference at call entry: use ", var.decl.name.as_str(), " := <variable>"));
                d
            },
            CallError::MultibitsOutOfRange { span, var, offset, access_bits, max_offset, base_type } => {
                let message = match max_offset {
                    Some(max) => {
                        let o = usize_to_string(*offset);
                        let m = usize_to_string(*max);
                        cat7("offset ", o.as_str(), " is out of range for type '", base_type.as_str(), "' (valid range: 0..", m.as_str(), ")")
                    },
                    None => {
                        let b = usize_to_string(*access_bits);
                        cat5("a ", b.as_str(), "-bit access does not fit in type '", base_type.as_str(), "'")
                    },
                };
                let mut d = self.error_at(message, *span);
                match var {
                    Some(v) => d.with_related_at(cat3("'", v.decl.name.as_str(), "' is declared here"), v.decl.file, v.decl.span),
                    None => {},
                }
                d
            },
            CallError::CallNonCallableType { typ, is_function_block, call_span } => {
                let mut d = self.error_at(cat3("'", typ.as_str(), "' is not a callable type"), *call_span);
                if *is_function_block {
                    d.with_note(String::from_str("to call a FUNCTION_BLOCK, you need to instantiate it first."));
                }
                d
            },
            CallError::AmbiguousOverload { call_span, name, candidates } => {
                let count = usize_to_string(candidates.len());
                let mut d = self.error_at(
                    cat5("call to '", name.as_str(), "' is ambiguous: ", count.as_str(), " overloads accept these arguments: disambiguate with an explicit cast"),
                    *call_span,
                );
                d.with_related_all(candidate_locations_of(candidates));
                d
            },
            CallError::NoMatchingOverload { call_span, name, arg_types, candidates } => {
                let list = join_strings(arg_types, ", ");
                let mut d = self.error_at(cat5("no overload of '", name.as_str(), "' accepts (", list.as_str(), ")"), *call_span);
                d.with_related_all(overload_locations_of(candidates));
                d
            },
            CallError::NonVariadicTypeForVariable { var, typ } => {
                let mut d = self.error_at(cat5("variable '", var.decl.name.as_str(), "' is declared as variadic but has non-variadic type '", typ.as_str(), "'"), var.decl.span);
                d.with_note(String::from_str("only elementary types can be variadic"));
                d
            },
            CallError::MultipleVariadicVariables { first, second } => {
                let mut d = self.error_at(String::from_str("only one variadic variable is allowed per POU"), second.decl.span);
                d.with_related_at(cat3("first variadic variable '", first.decl.name.as_str(), "' declared here"), first.decl.file, first.decl.span);
                d
            },
            CallError::EmptyVariadicCall { func, var, call_span } => {
                let mut d = self.error_at(cat5("call to '", func.name.as_str(), "' must pass at least one argument to variadic parameter '", var.decl.name.as_str(), "'"), *call_span);
                d.with_related_at(cat3("variadic parameter '", var.decl.name.as_str(), "' declared here"), var.decl.file, var.decl.span);
                d
            },
            CallError::NonVariadicFoldParameter { var, call_site } => {
                let mut d = self.error_at(cat3("variable '", var.decl.name.as_str(), "' is not variadic"), *call_site);
                d.with_note(String::from_str("... can only be used on VAR_INPUT variables that are declared variadic with the same operator (e.g: INT...)"));
                d
            },
            CallError::VariadicMixedWithOtherInputs { variadic_var, other_var } => {
                let mut d = self.error_at(cat3("variadic parameter '", variadic_var.decl.name.as_str(), "' must be the only VAR_INPUT parameter"), other_var.decl.span);
                d.with_related_at(cat3("variadic parameter '", variadic_var.decl.name.as_str(), "' declared here"), variadic_var.decl.file, variadic_var.decl.span);
                d.with_note(String::from_str("a variadic parameter must be the only parameter in VAR_INPUT"));
                d
            },
        }
    }

}

/// A call with the wrong number of arguments is reported at the call. For a
/// callable of one overload the message gives the declared count after
/// "expects", pluralised on it, and the supplied count after "but got"; for
/// an overloaded callable it says that no overload takes the supplied count.
pub proof fn law_parameter_count_message(
    overloads: usize,
    expected: usize,
    actual: usize,
    call_span: Span,
    callable: Named,
)
    ensures
        ({
            let d = (CallError::IncorrectNumberOfParameters {
                overloads: overloads,
                expected: expected,
                actual: actual,
                call_span: call_span,
                callable: callable,
            }).spec_to_diagnostic();
            &&& d.span == call_span
            &&& overloads <= 1 ==> d.message == "'"@ + callable.name@ + "' expects "@ + decimal(expected as nat)
                + " parameter"@ + (if expected == 1 { ""@ } else { "s"@ }) + ", but got "@ + decimal(actual as nat)
            &&& overloads > 1 ==> d.message == "no overload of '"@ + callable.name@ + "' takes "@ + decimal(actual as nat)
                + " parameter"@ + (if actual == 1 { ""@ } else { "s"@ })
        }),
{
    reveal_strlit("");
    reveal_strlit("s");
}

/// Each kind of `CallError` is reported at the span of what it concerns, with
/// its message and severity, whatever names, spans and texts it holds; a
/// kind whose diagnostic is built directly also carries exactly the
/// related locations, notes, tags, source and quick fixes listed.
pub proof fn law_call_error_rendering(this: CallError)
    ensures
        match this {
            CallError::IncorrectNumberOfParameters { overloads, expected, actual, call_span, callable } => {
                let d = this.spec_to_diagnostic();
                &&& d.message == if overloads > 1 { "no overload of '"@ + callable.name@ + "' takes "@ + decimal(actual as nat) + " parameter"@ + plural(actual as nat) } else { "'"@ + callable.name@ + "' expects "@ + decimal(expected as nat) + " parameter"@ + plural( expected as nat, ) + ", but got "@ + decimal(actual as nat) }
                &&& d.span == call_span
                &&& d.severity == Some(Severity::Error)
                &&& d.related == Seq::<RelatedView>::empty()
                &&& d.notes == Seq::<Seq<char>>::empty()
                &&& d.tags == Seq::<Tag>::empty()
                &&& d.source == None::<Seq<char>>
                &&& d.fixes == Seq::<FixView>::empty()
            },
            CallError::MissingRequiredParameter { func, vars, call_span } => {
                let d = this.spec_to_diagnostic();
                &&& d.message == "call to '"@ + func.name@ + "' is missing "@ + decimal(vars@.len()) + " required parameter"@ + (if vars@.len() > 1 { "s"@ } else { ""@ }) + ": "@ + join(quoted_names(vars@), ", "@)
                &&& d.span == call_span
                &&& d.severity == Some(Severity::Error)
            },
            CallError::UnknownInputParameter { func, param, hints } => {
                let d = this.spec_to_diagnostic();
                &&& d.message == "unknown input parameter '"@ + param.text@ + "'"@
                &&& d.span == param.span
                &&& d.severity == Some(Severity::Error)
                &&& d.related == Seq::<RelatedView>::empty()
                &&& d.notes == (Seq::<Seq<char>>::empty() + texts(hints@))
                &&& d.tags == Seq::<Tag>::empty()
                &&& d.source == None::<Seq<char>>
                &&& d.fixes == Seq::<FixView>::empty()
            },
            CallError::UnknownOutputParameter { func, param, hints } => {
                let d = this.spec_to_diagnostic();
                &&& d.message == "unknown output parameter '"@ + param.text@ + "'"@
                &&& d.span == param.span
                &&& d.severity == Some(Severity::Error)
                &&& d.related == Seq::<RelatedView>::empty()
                &&& d.notes == (Seq::<Seq<char>>::empty() + texts(hints@))
                &&& d.tags == Seq::<Tag>::empty()
                &&& d.source == None::<Seq<char>>
                &&& d.fixes == Seq::<FixView>::empty()
            },
            CallError::OutputParameterUsedAsInput { func, var, expr, param } => {
                let d = this.spec_to_diagnostic();
                &&& d.message == "output parameter at index '"@ + decimal(param as nat) + "' cannot be used as input"@
                &&& d.span == expr
                &&& d.severity == Some(Severity::Error)
                &&& d.related == Seq::<RelatedView>::empty()
                &&& d.notes == Seq::<Seq<char>>::empty().push("use formal syntax instead: "@ + var.decl.name@ + " => <variable>"@)
                &&& d.tags == Seq::<Tag>::empty()
                &&& d.source == None::<Seq<char>>
                &&& d.fixes == Seq::<FixView>::empty()
            },
            CallError::InOutParameterRequiresLValue { func, var, expr } => {
                let d = this.spec_to_diagnostic();
                &&& d.message == "VAR_IN_OUT parameter '"@ + var.decl.name@ + "' of '"@ + func.name@ + "' requires a variable, not a value"@
                &&& d.span == expr
                &&& d.severity == Some(Severity::Error)
                &&& d.related == Seq::<RelatedView>::empty().push(RelatedView { message: "parameter '"@ + var.decl.name@ + "' declared here"@, file: var.decl.file, span: var.decl.span })
                &&& d.notes == Seq::<Seq<char>>::empty().push("VAR_IN_OUT binds the callee to the caller's storage by reference; a literal, expression, or call result has no address to bind"@)
                &&& d.tags == Seq::<Tag>::empty()
                &&& d.source == None::<Seq<char>>
                &&& d.fixes == Seq::<FixView>::empty()
            },
            CallError::InOutParameterBoundWithArrow { func, var, param } => {
                let d = this.spec_to_diagnostic();
                &&& d.message == "VAR_IN_OUT parameter '"@ + var.decl.name@ + "' of '"@ + func.name@ + "' cannot be bound with '=>'"@
                &&& d.span == param.span
                &&& d.severity == Some(Severity::Error)
                &&& d.related == Seq::<RelatedView>::empty().push(RelatedView { message: "parameter '"@ + var.decl.name@ + "' declared here"@, file: var.decl.file, span: var.decl.span })
                &&& d.notes == Seq::<Seq<char>>::empty().push("VAR_IN_OUT is bound by reference at call entry: use "@ + var.decl.name@ + " := <variable>"@)
                &&& d.tags == Seq::<Tag>::empty()
                &&& d.source == None::<Seq<char>>
                &&& d.fixes == Seq::<FixView>::empty()
            },
            CallError::MultibitsOutOfRange { span, var, offset, access_bits, max_offset, base_type } => {
                let d = this.spec_to_diagnostic();
                &&& d.message == match max_offset { Some(max) => "offset "@ + decimal(offset as nat) + " is out of range for type '"@ + base_type@ + "' (valid range: 0.."@ + decimal(max as nat) + ")"@, None => "a "@ + decimal(access_bits as nat) + "-bit access does not fit in type '"@ + base_type@ + "'"@, }
                &&& d.span == span
                &&& d.severity == Some(Severity::Error)
            },
            CallError::CallNonCallableType { typ, is_function_block, call_span } => {
                let d = this.spec_to_diagnostic();
                &&& d.message == "'"@ + typ@ + "' is not a callable type"@
                &&& d.span == call_span
                &&& d.severity == Some(Severity::Error)
            },
            CallError::AmbiguousOverload { call_span, name, candidates } => {
                let d = this.spec_to_diagnostic();
                &&& d.message == "call to '"@ + name@ + "' is ambiguous: "@ + decimal(candidates@.len()) + " overloads accept these arguments: disambiguate with an explicit cast"@
                &&& d.span == call_span
                &&& d.severity == Some(Severity::Error)
                &&& d.related == (Seq::<RelatedView>::empty() + candidate_locations(candidates@))
                &&& d.notes == Seq::<Seq<char>>::empty()
                &&& d.tags == Seq::<Tag>::empty()
                &&& d.source == None::<Seq<char>>
                &&& d.fixes == Seq::<FixView>::empty()
            },
            CallError::NoMatchingOverload { call_span, name, arg_types, candidates } => {
                let d = this.spec_to_diagnostic();
                &&& d.message == "no overload of '"@ + name@ + "' accepts ("@ + join(texts(arg_types@), ", "@) + ")"@
                &&& d.span == call_span
                &&& d.severity == Some(Severity::Error)
                &&& d.related == (Seq::<RelatedView>::empty() + overload_locations(candidates@))
                &&& d.notes == Seq::<Seq<char>>::empty()
                &&& d.tags == Seq::<Tag>::empty()
                &&& d.source == None::<Seq<char>>
                &&& d.fixes == Seq::<FixView>::empty()
            },
            CallError::NonVariadicTypeForVariable { var, typ } => {
                let d = this.spec_to_diagnostic();
                &&& d.message == "variable '"@ + var.decl.name@ + "' is declared as variadic but has non-variadic type '"@ + typ@ + "'"@
                &&& d.span == var.decl.span
                &&& d.severity == Some(Severity::Error)
                &&& d.related == Seq::<RelatedView>::empty()
                &&& d.notes == Seq::<Seq<char>>::empty().push("only elementary types can be variadic"@)
                &&& d.tags == Seq::<Tag>::empty()
                &&& d.source == None::<Seq<char>>
                &&& d.fixes == Seq::<FixView>::empty()
            },
            CallError::MultipleVariadicVariables { first, second } => {
                let d = this.spec_to_diagnostic();
                &&& d.message == "only one variadic variable is allowed per POU"@
                &&& d.span == second.decl.span
                &&& d.severity == Some(Severity::Error)
                &&& d.related == Seq::<RelatedView>::empty().push(RelatedView { message: "first variadic variable '"@ + first.decl.name@ + "' declared here"@, file: first.decl.file, span: first.decl.span })
                &&& d.notes == Seq::<Seq<char>>::empty()
                &&& d.tags == Seq::<Tag>::empty()
                &&& d.source == None::<Seq<char>>
                &&& d.fixes == Seq::<FixView>::empty()
            },
            CallError::EmptyVariadicCall { func, var, call_span } => {
                let d = this.spec_to_diagnostic();
                &&& d.message == "call to '"@ + func.name@ + "' must pass at least one argument to variadic parameter '"@ + var.decl.name@ + "'"@
                &&& d.span == call_span
                &&& d.severity == Some(Severity::Error)
                &&& d.related == Seq::<RelatedView>::empty().push(RelatedView { message: "variadic parameter '"@ + var.decl.name@ + "' declared here"@, file: var.decl.file, span: var.decl.span })
                &&& d.notes == Seq::<Seq<char>>::empty()
                &&& d.tags == Seq::<Tag>::empty()
                &&& d.source == None::<Seq<char>>
                &&& d.fixes == Seq::<FixView>::empty()
            },
            CallError::NonVariadicFoldParameter { var, call_site } => {
                let d = this.spec_to_diagnostic();
                &&& d.message == "variable '"@ + var.decl.name@ + "' is not variadic"@
                &&& d.span == call_site
                &&& d.severity == Some(Severity::Error)
                &&& d.related == Seq::<RelatedView>::empty()
                &&& d.notes == Seq::<Seq<char>>::empty().push("... can only be used on VAR_INPUT variables that are declared variadic with the same operator (e.g: INT...)"@)
                &&& d.tags == Seq::<Tag>::empty()
                &&& d.source == None::<Seq<char>>
                &&& d.fixes == Seq::<FixView>::empty()
            },
            CallError::VariadicMixedWithOtherInputs { variadic_var, other_var } => {
                let d = this.spec_to_diagnostic();
                &&& d.message == "variadic parameter '"@ + variadic_var.decl.name@ + "' must be the only VAR_INPUT parameter"@
                &&& d.span == other_var.decl.span
                &&& d.severity == Some(Severity::Error)
                &&& d.related == Seq::<RelatedView>::empty().push(RelatedView { message: "variadic parameter '"@ + variadic_var.decl.name@ + "' declared here"@, file: variadic_var.decl.file, span: variadic_var.decl.span })
                &&& d.notes == Seq::<Seq<char>>::empty().push("a variadic parameter must be the only parameter in VAR_INPUT"@)
                &&& d.tags == Seq::<Tag>::empty()
                &&& d.source == None::<Seq<char>>
                &&& d.fixes == Seq::<FixView>::empty()
            },
        },
{
}

} // verus!
