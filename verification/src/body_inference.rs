//! Errors found while inferring the types of a body: its accesses, calls,
//! literals and operators.
use vstd::prelude::*;
use vstd::string::*;
use crate::diag::{Diagnostic, DiagnosticView, Severity, Span};
use crate::e03_type::{AddOperatorKind, MultOperatorKind};
use crate::e2_resolve::{debug_str, debug_text, plural};
use crate::hir::{located, with_location, Named, SpanIdent, TypeRef, Var};
use crate::literals::InferLiteralError;
use crate::text::{cat2, cat3, cat4, cat5, cat6, cat7, decimal, usize_to_string};

use crate::diag::RelatedView;

use crate::diag::Tag;
use crate::diag::FixView;

verus! {

/// The verb an additive operator is named by in messages.
pub open spec fn add_verb(op: AddOperatorKind) -> Seq<char> {
    match op {
        AddOperatorKind::Plus => "add"@,
        AddOperatorKind::Minus => "subtract"@,
    }
}

fn add_verb_str(op: AddOperatorKind) -> (r: &'static str)
    ensures
        r@ == add_verb(op),
{
    match op {
        AddOperatorKind::Plus => "add",
        AddOperatorKind::Minus => "subtract",
    }
}

/// The verb a multiplicative operator is named by in messages.
pub open spec fn mult_verb(op: MultOperatorKind) -> Seq<char> {
    match op {
        MultOperatorKind::Mul => "multiply"@,
        MultOperatorKind::Div => "divide"@,
        MultOperatorKind::Mod => "modulus"@,
    }
}

fn mult_verb_str(op: MultOperatorKind) -> (r: &'static str)
    ensures
        r@ == mult_verb(op),
{
    match op {
        MultOperatorKind::Mul => "multiply",
        MultOperatorKind::Div => "divide",
        MultOperatorKind::Mod => "modulus",
    }
}

/// An expression or an initializer expression, by its span.
#[derive(Clone, Copy, Debug, PartialEq, Eq, Structural)]
pub enum InitOrExpr {
    Expr(Span),
    InitExpr(Span),
}

impl InitOrExpr {
    /// The span of the node.
    pub fn span(self) -> (r: Span)
        ensures
            r == (match self {
                InitOrExpr::Expr(s) => s,
                InitOrExpr::InitExpr(s) => s,
            }),
    {
        match self {
            InitOrExpr::Expr(s) => s,
            InitOrExpr::InitExpr(s) => s,
        }
    }
}

/// A type mismatch found in a body.
pub enum TypeError {
    /// A value of a type the target does not take.
    NotAssignable { base_target: TypeRef, target: TypeRef, value: TypeRef, expr: Span },
    /// Two operands that cannot be compared.
    NotComparable { lhs: TypeRef, rhs: TypeRef, expr: Span },
    /// Two operands that cannot be multiplied, divided or taken modulo (named right operand first).
    NotMultiplicable { operator: MultOperatorKind, lhs: TypeRef, rhs: TypeRef, expr: Span },
    /// Two operands that cannot be added or subtracted.
    NotAddable { operator: AddOperatorKind, lhs: TypeRef, rhs: TypeRef, expr: Span },
    /// A value that is not a boolean where one is needed.
    NotABoolean { typ: TypeRef, expr: Span },
    /// A statement whose value is dropped.
    UnusedReturnType { typ: TypeRef, expr: Span },
    /// Any other mismatch, with its message.
    Other { message: String, expr: Span },
}

impl TypeError {
    /// A diagnostic of this error at `span`, with no severity and no code.
    pub open spec fn err(&self, message: Seq<char>, span: Span) -> DiagnosticView {
        DiagnosticView::plain(message, None, span)
    }

    fn error_at(&self, message: String, span: Span) -> (d: Diagnostic)
        ensures
            d@ == self.err(message@, span),
    {
        Diagnostic::plain(message, None, span)
    }

    /// The diagnostic this error renders to.
    pub open spec fn spec_to_diagnostic(&self) -> DiagnosticView {
        match self {
            TypeError::NotAssignable { base_target, target, value, expr } =>
                located(self.err("expected '"@ + target.name@ + "', got '"@ + value.name@ + "'"@, *expr), base_target@),
            TypeError::NotComparable { lhs, rhs, expr } =>
                self.err("can't compare '"@ + lhs.name@ + "' with '"@ + rhs.name@ + "'"@, *expr),
            TypeError::NotMultiplicable { operator, lhs, rhs, expr } =>
                self.err("can not "@ + mult_verb(*operator) + " '"@ + rhs.name@ + "' with '"@ + lhs.name@ + "'"@, *expr),
            TypeError::NotAddable { operator, lhs, rhs, expr } =>
                self.err("can not "@ + add_verb(*operator) + " '"@ + lhs.name@ + "' with '"@ + rhs.name@ + "'"@, *expr),
            TypeError::NotABoolean { typ, expr } =>
                self.err("expected a boolean, got "@ + typ.name@, *expr),
            TypeError::UnusedReturnType { typ, expr } =>
                DiagnosticView::plain("unused return value of '"@ + typ.name@ + "'"@, Some(Severity::Information), *expr),
            TypeError::Other { message, expr } =>
                self.err(message@, *expr),
        }
    }

    /// Renders the error as a diagnostic.
    #[verifier::rlimit(60)]
    pub fn to_diagnostic(&self) -> (d: Diagnostic)
        ensures
            d@ == self.spec_to_diagnostic(),
    {
        match self {
            TypeError::NotAssignable { base_target, target, value, expr } => {
                let mut d = self.error_at(cat5("expected '", target.name.as_str(), "', got '", value.name.as_str(), "'"), *expr);
                with_location(&mut d, base_target);
                d
            },
            TypeError::NotComparable { lhs, rhs, expr } => {
                self.error_at(cat5("can't compare '", lhs.name.as_str(), "' with '", rhs.name.as_str(), "'"), *expr)
            },
            TypeError::NotMultiplicable { operator, lhs, rhs, expr } => {
                self.error_at(cat7("can not ", mult_verb_str(*operator), " '", rhs.name.as_str(), "' with '", lhs.name.as_str(), "'"), *expr)
            },
            TypeError::NotAddable { operator, lhs, rhs, expr } => {
                self.error_at(cat7("can not ", add_verb_str(*operator), " '", lhs.name.as_str(), "' with '", rhs.name.as_str(), "'"), *expr)
            },
            TypeError::NotABoolean { typ, expr } => {
                self.error_at(cat2("expected a boolean, got ", typ.name.as_str()), *expr)
            },
            TypeError::UnusedReturnType { typ, expr } => {
                Diagnostic::plain(cat3("unused return value of '", typ.name.as_str(), "'"), Some(Severity::Information), *expr)
            },
            TypeError::Other { message, expr } => {
                self.error_at(String::from_str(message.as_str()), *expr)
            },
        }
    }

}

/// An error found while inferring a body.
pub enum BodyInferenceError {
    /// An assignment to an input variable.
    IsVarInput { var: Var, access: Span },
    /// An assignment to a callable.
    AssignCallableType { typ: Named, access: Span },
    /// A type used as a value.
    DirectType { typ: TypeRef, expr: Span },
    /// A call of something that is not callable (which may be a FUNCTION_BLOCK).
    CallNonCallableType { typ: TypeRef, is_function_block: bool, call_span: Span },
    /// A call with another number of arguments than parameters.
    IncorrectNumberOfParameters { expected: usize, actual: usize, call_span: Span, callable: Named },
    /// A positional argument with no parameter.
    UnknownNonFormalParameter { func: Named, expr: Span, param: usize },
    /// An output parameter passed positionally.
    OutputParameterUsedAsInput { func: Named, var: Var, expr: Span, param: usize },
    /// A named input the callable does not have.
    UnknownInputParameter { func: Named, param: SpanIdent },
    /// A named output the callable does not have.
    UnknownOutputParameter { func: Named, param: SpanIdent },
    /// A parameter bound twice.
    DuplicateParameter { param_1: Named, param_2: Named, name: String },
    /// A name found nowhere in scope.
    NoItemInScope { ident: String, span: Span },
    /// A type specification naming nothing in scope.
    NoSpecItemInScope { spec_span: Span },
    /// A field the type does not have.
    NoSuchField { span: Span, ident: String, ty: TypeRef },
    /// A dereference of a type that is not a reference.
    DerefNonRefType { span: Span, ty: TypeRef },
    /// An index into a type that is not an array.
    IndexNonArrayType { span: Span, ty: TypeRef },
    /// `SUPER()` where there is no base body.
    SuperBodyOnIncompatiblePou { call_site: Span },
    /// SUPER where there is no instance.
    SuperOnIncompatiblePou { call_site: Span },
    /// THIS where there is no instance.
    ThisOnIncompatiblePou { call_site: Span },
    /// CONTINUE outside a loop.
    ContinueOutsideLoop { stmt: Span },
    /// EXIT outside a loop.
    ExitOutsideLoop { stmt: Span },
    /// A variant access on a type that is not an ENUM.
    NotAnEnum { expr: Span, item: TypeRef },
    /// A variant the ENUM does not have.
    EnumVariantNotFound { enum_name: String, variant_name: SpanIdent },
    /// A literal that cannot be inferred to its target type; `source` is where the type comes from.
    InferLiteralError { expr: Span, source: Named, target: TypeRef, err: InferLiteralError },
    /// A type mismatch.
    TypeMismatch(TypeError),
}

impl BodyInferenceError {
    /// A diagnostic of this error at `span`, with no severity and no code.
    pub open spec fn err(&self, message: Seq<char>, span: Span) -> DiagnosticView {
        DiagnosticView::plain(message, None, span)
    }

    fn error_at(&self, message: String, span: Span) -> (d: Diagnostic)
        ensures
            d@ == self.err(message@, span),
    {
        Diagnostic::plain(message, None, span)
    }

    /// The diagnostic this error renders to.
    pub open spec fn spec_to_diagnostic(&self) -> DiagnosticView {
        match self {
            BodyInferenceError::IsVarInput { var, access } =>
                self.err(var.decl.name@ + " is an input variable and can not be assigned"@, *access),
            BodyInferenceError::AssignCallableType { typ, access } =>
                self.err("'"@ + typ.name@ + "' is a callable type and can not be assigned"@, *access),
            BodyInferenceError::DirectType { typ, expr } =>
                self.err("cannot use direct type '"@ + typ.name@ + "' here"@, *expr),
            BodyInferenceError::CallNonCallableType { typ, is_function_block, call_span } =>
                {
                    let d = self.err("'"@ + typ.name@ + "' is not a callable type"@, *call_span);
                    if *is_function_block {
                        d.note("to call a FUNCTION_BLOCK, you need to instantiate it first."@)
                    } else {
                        d
                    }
                },
            BodyInferenceError::IncorrectNumberOfParameters { expected, actual, call_span, callable } =>
                self.err("'"@ + callable.name@ + "' expects "@ + decimal(*expected as nat) + " parameter"@ + plural(*expected as nat) + ", but got "@ + decimal(*actual as nat), *call_span),
            BodyInferenceError::UnknownNonFormalParameter { func, expr, param } =>
                self.err("no parameter at index '"@ + decimal(*param as nat) + "'"@, *expr),
            BodyInferenceError::OutputParameterUsedAsInput { func, var, expr, param } =>
                self.err("output parameter at index '"@ + decimal(*param as nat) + "' cannot be used as input"@, *expr)
                .note("use formal syntax instead: "@ + var.decl.name@ + " => <variable>"@),
            BodyInferenceError::UnknownInputParameter { func, param } =>
                self.err("unknown input parameter '"@ + param.text@ + "'"@, param.span),
            BodyInferenceError::UnknownOutputParameter { func, param } =>
                self.err("unknown output parameter '"@ + param.text@ + "'"@, param.span),
            BodyInferenceError::DuplicateParameter { param_1, param_2, name } =>
                self.err("duplicate parameter '"@ + name@ + "' found"@, param_2.span)
                .rel("previously defined here"@, param_1.file, param_1.span),
            BodyInferenceError::NoItemInScope { ident, span } =>
                self.err("no item "@ + debug_text(ident@) + " found in scope"@, *span),
            BodyInferenceError::NoSpecItemInScope { spec_span } =>
                self.err("no item found in scope"@, *spec_span),
            BodyInferenceError::NoSuchField { span, ident, ty } =>
                self.err("'"@ + ty.name@ + "' has no field named '"@ + ident@ + "'"@, *span),
            BodyInferenceError::DerefNonRefType { span, ty } =>
                self.err("cannot dereference non-reference type '"@ + ty.name@ + "'"@, *span),
            BodyInferenceError::IndexNonArrayType { span, ty } =>
                self.err("cannot index non-array type '"@ + ty.name@ + "'"@, *span),
            BodyInferenceError::SuperBodyOnIncompatiblePou { call_site } =>
                self.err("'SUPER()' is not valid in this context"@, *call_site),
            BodyInferenceError::SuperOnIncompatiblePou { call_site } =>
                self.err("'SUPER' is not valid in this context"@, *call_site),
            BodyInferenceError::ThisOnIncompatiblePou { call_site } =>
                self.err("'THIS' is not valid in this context"@, *call_site),
            BodyInferenceError::ContinueOutsideLoop { stmt } =>
                self.err("'CONTINUE' can only be used inside loops"@, *stmt),
            BodyInferenceError::ExitOutsideLoop { stmt } =>
                self.err("'EXIT' can only be used inside loops"@, *stmt),
            BodyInferenceError::NotAnEnum { expr, item } =>
                self.err("'"@ + item.name@ + "' is not an ENUM type"@, *expr),
            BodyInferenceError::EnumVariantNotFound { enum_name, variant_name } =>
                self.err("ENUM has no variant named '"@ + variant_name.text@ + "'"@, variant_name.span),
            BodyInferenceError::InferLiteralError { expr, source, target, err } =>
                located(
                    self.err("cannot infer to '"@ + target.name@ + "': "@ + err.spec_to_string(), *expr)
                        .rel("type is inferred from here"@, source.file, source.span),
                    target@,
                ),
            BodyInferenceError::TypeMismatch(mismatch) =>
                mismatch.spec_to_diagnostic(),
        }
    }

    /// Renders the error as a diagnostic.
    #[verifier::rlimit(60)]
    pub fn to_diagnostic(&self) -> (d: Diagnostic)
        ensures
            d@ == self.spec_to_diagnostic(),
    {
        match self {
            BodyInferenceError::IsVarInput { var, access } => {
                self.error_at(cat2(var.decl.name.as_str(), " is an input variable and can not be assigned"), *access)
            },
            BodyInferenceError::AssignCallableType { typ, access } => {
                self.error_at(cat3("'", typ.name.as_str(), "' is a callable type and can not be assigned"), *access)
            },
            BodyInferenceError::DirectType { typ, expr } => {
                self.error_at(cat3("cannot use direct type '", typ.name.as_str(), "' here"), *expr)
            },
            BodyInferenceError::CallNonCallableType { typ, is_function_block, call_span } => {
                let mut d = self.error_at(cat3("'", typ.name.as_str(), "' is not a callable type"), *call_span);
                if *is_function_block {
                    d.with_note(String::from_str("to call a FUNCTION_BLOCK, you need to instantiate it first."));
                }
                d
            },
            BodyInferenceError::IncorrectNumberOfParameters { expected, actual, call_span, callable } => {
                let t1 = usize_to_string(*expected);
                let t2 = usize_to_string(*actual);
                let t3 = cat7("'", callable.name.as_str(), "' expects ", t1.as_str(), " parameter", if *expected == 1 { "" } else { "s" }, ", but got ");
                self.error_at(cat2(t3.as_str(), t2.as_str()), *call_span)
            },
            BodyInferenceError::UnknownNonFormalParameter { func, expr, param } => {
                let t1 = usize_to_string(*param);
                self.error_at(cat3("no parameter at index '", t1.as_str(), "'"), *expr)
            },
            BodyInferenceError::OutputParameterUsedAsInput { func, var, expr, param } => {
                let t1 = usize_to_string(*param);
                let mut d = self.error_at(cat3("output parameter at index '", t1.as_str(), "' cannot be used as input"), *expr);
                d.with_note(cat3("use formal syntax instead: ", var.decl.name.as_str(), " => <variable>"));
                d
            },
            BodyInferenceError::UnknownInputParameter { func, param } => {
                self.error_at(cat3("unknown input parameter '", param.text.as_str(), "'"), param.span)
            },
            BodyInferenceError::UnknownOutputParameter { func, param } => {
                self.error_at(cat3("unknown output parameter '", param.text.as_str(), "'"), param.span)
            },
            BodyInferenceError::DuplicateParameter { param_1, param_2, name } => {
                let mut d = self.error_at(cat3("duplicate parameter '", name.as_str(), "' found"), param_2.span);
                d.with_related_at(String::from_str("previously defined here"), param_1.file, param_1.span);
                d
            },
            BodyInferenceError::NoItemInScope { ident, span } => {
                let quoted = debug_str(ident.as_str());
                self.error_at(cat3("no item ", quoted.as_str(), " found in scope"), *span)
            },
            BodyInferenceError::NoSpecItemInScope { spec_span } => {
                self.error_at(String::from_str("no item found in scope"), *spec_span)
            },
            BodyInferenceError::NoSuchField { span, ident, ty } => {
                self.error_at(cat5("'", ty.name.as_str(), "' has no field named '", ident.as_str(), "'"), *span)
            },
            BodyInferenceError::DerefNonRefType { span, ty } => {
                self.error_at(cat3("cannot dereference non-reference type '", ty.name.as_str(), "'"), *span)
            },
            BodyInferenceError::IndexNonArrayType { span, ty } => {
                self.error_at(cat3("cannot index non-array type '", ty.name.as_str(), "'"), *span)
            },
            BodyInferenceError::SuperBodyOnIncompatiblePou { call_site } => {
                self.error_at(String::from_str("'SUPER()' is not valid in this context"), *call_site)
            },
            BodyInferenceError::SuperOnIncompatiblePou { call_site } => {
                self.error_at(String::from_str("'SUPER' is not valid in this context"), *call_site)
            },
            BodyInferenceError::ThisOnIncompatiblePou { call_site } => {
                self.error_at(String::from_str("'THIS' is not valid in this context"), *call_site)
            },
            BodyInferenceError::ContinueOutsideLoop { stmt } => {
                self.error_at(String::from_str("'CONTINUE' can only be used inside loops"), *stmt)
            },
            BodyInferenceError::ExitOutsideLoop { stmt } => {
                self.error_at(String::from_str("'EXIT' can only be used inside loops"), *stmt)
            },
            BodyInferenceError::NotAnEnum { expr, item } => {
                self.error_at(cat3("'", item.name.as_str(), "' is not an ENUM type"), *expr)
            },
            BodyInferenceError::EnumVariantNotFound { enum_name, variant_name } => {
                self.error_at(cat3("ENUM has no variant named '", variant_name.text.as_str(), "'"), variant_name.span)
            },
            BodyInferenceError::InferLiteralError { expr, source, target, err } => {
                let e = err.to_string();
                let mut d = self.error_at(cat4("cannot infer to '", target.name.as_str(), "': ", e.as_str()), *expr);
                d.with_related_at(String::from_str("type is inferred from here"), source.file, source.span);
                with_location(&mut d, target);
                d
            },
            BodyInferenceError::TypeMismatch(mismatch) => {
                mismatch.to_diagnostic()
            },
        }
    }

}

/// Each kind of `TypeError` is reported at the span of what it concerns, with
/// its message and severity, whatever names, spans and texts it holds; a
/// kind whose diagnostic is built directly also carries exactly the
/// related locations, notes, tags, source and quick fixes listed.
pub proof fn law_type_error_rendering(this: TypeError)
    ensures
        match this {
            TypeError::NotAssignable { base_target, target, value, expr } => {
                let d = this.spec_to_diagnostic();
                &&& d.message == "expected '"@ + target.name@ + "', got '"@ + value.name@ + "'"@
                &&& d.span == expr
                &&& d.severity == None::<Severity>
                &&& d.related == (Seq::<RelatedView>::empty() + match base_target@.location { Some(r) => seq![r], None => Seq::<RelatedView>::empty() })
                &&& d.notes == Seq::<Seq<char>>::empty()
                &&& d.tags == Seq::<Tag>::empty()
                &&& d.source == None::<Seq<char>>
                &&& d.fixes == Seq::<FixView>::empty()
            },
            TypeError::NotComparable { lhs, rhs, expr } => {
                let d = this.spec_to_diagnostic();
                &&& d.message == "can't compare '"@ + lhs.name@ + "' with '"@ + rhs.name@ + "'"@
                &&& d.span == expr
                &&& d.severity == None::<Severity>
                &&& d.related == Seq::<RelatedView>::empty()
                &&& d.notes == Seq::<Seq<char>>::empty()
                &&& d.tags == Seq::<Tag>::empty()
                &&& d.source == None::<Seq<char>>
                &&& d.fixes == Seq::<FixView>::empty()
            },
            TypeError::NotMultiplicable { operator, lhs, rhs, expr } => {
                let d = this.spec_to_diagnostic();
                &&& d.message == "can not "@ + mult_verb(operator) + " '"@ + rhs.name@ + "' with '"@ + lhs.name@ + "'"@
                &&& d.span == expr
                &&& d.severity == None::<Severity>
                &&& d.related == Seq::<RelatedView>::empty()
                &&& d.notes == Seq::<Seq<char>>::empty()
                &&& d.tags == Seq::<Tag>::empty()
                &&& d.source == None::<Seq<char>>
                &&& d.fixes == Seq::<FixView>::empty()
            },
            TypeError::NotAddable { operator, lhs, rhs, expr } => {
                let d = this.spec_to_diagnostic();
                &&& d.message == "can not "@ + add_verb(operator) + " '"@ + lhs.name@ + "' with '"@ + rhs.name@ + "'"@
                &&& d.span == expr
                &&& d.severity == None::<Severity>
                &&& d.related == Seq::<RelatedView>::empty()
                &&& d.notes == Seq::<Seq<char>>::empty()
                &&& d.tags == Seq::<Tag>::empty()
                &&& d.source == None::<Seq<char>>
                &&& d.fixes == Seq::<FixView>::empty()
            },
            TypeError::NotABoolean { typ, expr } => {
                let d = this.spec_to_diagnostic();
                &&& d.message == "expected a boolean, got "@ + typ.name@
                &&& d.span == expr
                &&& d.severity == None::<Severity>
                &&& d.related == Seq::<RelatedView>::empty()
                &&& d.notes == Seq::<Seq<char>>::empty()
                &&& d.tags == Seq::<Tag>::empty()
                &&& d.source == None::<Seq<char>>
                &&& d.fixes == Seq::<FixView>::empty()
            },
            TypeError::UnusedReturnType { typ, expr } => {
                let d = this.spec_to_diagnostic();
                &&& d.message == "unused return value of '"@ + typ.name@ + "'"@
                &&& d.span == expr
                &&& d.severity == Some(Severity::Information)
                &&& d.related == Seq::<RelatedView>::empty()
                &&& d.notes == Seq::<Seq<char>>::empty()
                &&& d.tags == Seq::<Tag>::empty()
                &&& d.source == None::<Seq<char>>
                &&& d.fixes == Seq::<FixView>::empty()
            },
            TypeError::Other { message, expr } => {
                let d = this.spec_to_diagnostic();
                &&& d.message == message@
                &&& d.span == expr
                &&& d.severity == None::<Severity>
                &&& d.related == Seq::<RelatedView>::empty()
                &&& d.notes == Seq::<Seq<char>>::empty()
                &&& d.tags == Seq::<Tag>::empty()
                &&& d.source == None::<Seq<char>>
                &&& d.fixes == Seq::<FixView>::empty()
            },
        },
{
}

/// Each kind of `BodyInferenceError` is reported at the span of what it concerns, with
/// its message and severity, whatever names, spans and texts it holds; a
/// kind whose diagnostic is built directly also carries exactly the
/// related locations, notes, tags, source and quick fixes listed.
/// Kinds not listed are stated by the contract of `to_diagnostic` alone.
pub proof fn law_body_inference_error_rendering(this: BodyInferenceError)
    ensures
        match this {
            BodyInferenceError::IsVarInput { var, access } => {
                let d = this.spec_to_diagnostic();
                &&& d.message == var.decl.name@ + " is an input variable and can not be assigned"@
                &&& d.span == access
                &&& d.severity == None::<Severity>
                &&& d.related == Seq::<RelatedView>::empty()
                &&& d.notes == Seq::<Seq<char>>::empty()
                &&& d.tags == Seq::<Tag>::empty()
                &&& d.source == None::<Seq<char>>
                &&& d.fixes == Seq::<FixView>::empty()
            },
            BodyInferenceError::AssignCallableType { typ, access } => {
                let d = this.spec_to_diagnostic();
                &&& d.message == "'"@ + typ.name@ + "' is a callable type and can not be assigned"@
                &&& d.span == access
                &&& d.severity == None::<Severity>
                &&& d.related == Seq::<RelatedView>::empty()
                &&& d.notes == Seq::<Seq<char>>::empty()
                &&& d.tags == Seq::<Tag>::empty()
                &&& d.source == None::<Seq<char>>
                &&& d.fixes == Seq::<FixView>::empty()
            },
            BodyInferenceError::DirectType { typ, expr } => {
                let d = this.spec_to_diagnostic();
                &&& d.message == "cannot use direct type '"@ + typ.name@ + "' here"@
                &&& d.span == expr
                &&& d.severity == None::<Severity>
                &&& d.related == Seq::<RelatedView>::empty()
                &&& d.notes == Seq::<Seq<char>>::empty()
                &&& d.tags == Seq::<Tag>::empty()
                &&& d.source == None::<Seq<char>>
                &&& d.fixes == Seq::<FixView>::empty()
            },
            BodyInferenceError::CallNonCallableType { typ, is_function_block, call_span } => {
                let d = this.spec_to_diagnostic();
                &&& d.message == "'"@ + typ.name@ + "' is not a callable type"@
                &&& d.span == call_span
                &&& d.severity == None::<Severity>
            },
            BodyInferenceError::IncorrectNumberOfParameters { expected, actual, call_span, callable } => {
                let d = this.spec_to_diagnostic();
                &&& d.message == "'"@ + callable.name@ + "' expects "@ + decimal(expected as nat) + " parameter"@ + plural(expected as nat) + ", but got "@ + decimal(actual as nat)
                &&& d.span == call_span
                &&& d.severity == None::<Severity>
                &&& d.related == Seq::<RelatedView>::empty()
                &&& d.notes == Seq::<Seq<char>>::empty()
                &&& d.tags == Seq::<Tag>::empty()
                &&& d.source == None::<Seq<char>>
                &&& d.fixes == Seq::<FixView>::empty()
            },
            BodyInferenceError::UnknownNonFormalParameter { func, expr, param } => {
                let d = this.spec_to_diagnostic();
                &&& d.message == "no parameter at index '"@ + decimal(param as nat) + "'"@
                &&& d.span == expr
                &&& d.severity == None::<Severity>
                &&& d.related == Seq::<RelatedView>::empty()
                &&& d.notes == Seq::<Seq<char>>::empty()
                &&& d.tags == Seq::<Tag>::empty()
                &&& d.source == None::<Seq<char>>
                &&& d.fixes == Seq::<FixView>::empty()
            },
            BodyInferenceError::OutputParameterUsedAsInput { func, var, expr, param } => {
                let d = this.spec_to_diagnostic();
                &&& d.message == "output parameter at index '"@ + decimal(param as nat) + "' cannot be used as input"@
                &&& d.span == expr
                &&& d.severity == None::<Severity>
                &&& d.related == Seq::<RelatedView>::empty()
                &&& d.notes == Seq::<Seq<char>>::empty().push("use formal syntax instead: "@ + var.decl.name@ + " => <variable>"@)
                &&& d.tags == Seq::<Tag>::empty()
                &&& d.source == None::<Seq<char>>
                &&& d.fixes == Seq::<FixView>::empty()
            },
            BodyInferenceError::UnknownInputParameter { func, param } => {
                let d = this.spec_to_diagnostic();
                &&& d.message == "unknown input parameter '"@ + param.text@ + "'"@
                &&& d.span == param.span
                &&& d.severity == None::<Severity>
                &&& d.related == Seq::<RelatedView>::empty()
                &&& d.notes == Seq::<Seq<char>>::empty()
                &&& d.tags == Seq::<Tag>::empty()
                &&& d.source == None::<Seq<char>>
                &&& d.fixes == Seq::<FixView>::empty()
            },
            BodyInferenceError::UnknownOutputParameter { func, param } => {
                let d = this.spec_to_diagnostic();
                &&& d.message == "unknown output parameter '"@ + param.text@ + "'"@
                &&& d.span == param.span
                &&& d.severity == None::<Severity>
                &&& d.related == Seq::<RelatedView>::empty()
                &&& d.notes == Seq::<Seq<char>>::empty()
                &&& d.tags == Seq::<Tag>::empty()
                &&& d.source == None::<Seq<char>>
                &&& d.fixes == Seq::<FixView>::empty()
            },
            BodyInferenceError::DuplicateParameter { param_1, param_2, name } => {
                let d = this.spec_to_diagnostic();
                &&& d.message == "duplicate parameter '"@ + name@ + "' found"@
                &&& d.span == param_2.span
                &&& d.severity == None::<Severity>
                &&& d.related == Seq::<RelatedView>::empty().push(RelatedView { message: "previously defined here"@, file: param_1.file, span: param_1.span })
                &&& d.notes == Seq::<Seq<char>>::empty()
                &&& d.tags == Seq::<Tag>::empty()
                &&& d.source == None::<Seq<char>>
                &&& d.fixes == Seq::<FixView>::empty()
            },
            BodyInferenceError::NoItemInScope { ident, span } => {
                let d = this.spec_to_diagnostic();
                &&& d.message == "no item "@ + debug_text(ident@) + " found in scope"@
                &&& d.span == span
                &&& d.severity == None::<Severity>
                &&& d.related == Seq::<RelatedView>::empty()
                &&& d.notes == Seq::<Seq<char>>::empty()
                &&& d.tags == Seq::<Tag>::empty()
                &&& d.source == None::<Seq<char>>
                &&& d.fixes == Seq::<FixView>::empty()
            },
            BodyInferenceError::NoSpecItemInScope { spec_span } => {
                let d = this.spec_to_diagnostic();
                &&& d.message == "no item found in scope"@
                &&& d.span == spec_span
                &&& d.severity == None::<Severity>
                &&& d.related == Seq::<RelatedView>::empty()
                &&& d.notes == Seq::<Seq<char>>::empty()
                &&& d.tags == Seq::<Tag>::empty()
                &&& d.source == None::<Seq<char>>
                &&& d.fixes == Seq::<FixView>::empty()
            },
            BodyInferenceError::NoSuchField { span, ident, ty } => {
                let d = this.spec_to_diagnostic();
                &&& d.message == "'"@ + ty.name@ + "' has no field named '"@ + ident@ + "'"@
                &&& d.span == span
                &&& d.severity == None::<Severity>
                &&& d.related == Seq::<RelatedView>::empty()
                &&& d.notes == Seq::<Seq<char>>::empty()
                &&& d.tags == Seq::<Tag>::empty()
                &&& d.source == None::<Seq<char>>
                &&& d.fixes == Seq::<FixView>::empty()
            },
            BodyInferenceError::DerefNonRefType { span, ty } => {
                let d = this.spec_to_diagnostic();
                &&& d.message == "cannot dereference non-reference type '"@ + ty.name@ + "'"@
                &&& d.span == span
                &&& d.severity == None::<Severity>
                &&& d.related == Seq::<RelatedView>::empty()
                &&& d.notes == Seq::<Seq<char>>::empty()
                &&& d.tags == Seq::<Tag>::empty()
                &&& d.source == None::<Seq<char>>
                &&& d.fixes == Seq::<FixView>::empty()
            },
            BodyInferenceError::IndexNonArrayType { span, ty } => {
                let d = this.spec_to_diagnostic();
                &&& d.message == "cannot index non-array type '"@ + ty.name@ + "'"@
                &&& d.span == span
                &&& d.severity == None::<Severity>
                &&& d.related == Seq::<RelatedView>::empty()
                &&& d.notes == Seq::<Seq<char>>::empty()
                &&& d.tags == Seq::<Tag>::empty()
                &&& d.source == None::<Seq<char>>
                &&& d.fixes == Seq::<FixView>::empty()
            },
            BodyInferenceError::SuperBodyOnIncompatiblePou { call_site } => {
                let d = this.spec_to_diagnostic();
                &&& d.message == "'SUPER()' is not valid in this context"@
                &&& d.span == call_site
                &&& d.severity == None::<Severity>
                &&& d.related == Seq::<RelatedView>::empty()
                &&& d.notes == Seq::<Seq<char>>::empty()
                &&& d.tags == Seq::<Tag>::empty()
                &&& d.source == None::<Seq<char>>
                &&& d.fixes == Seq::<FixView>::empty()
            },
            BodyInferenceError::SuperOnIncompatiblePou { call_site } => {
                let d = this.spec_to_diagnostic();
                &&& d.message == "'SUPER' is not valid in this context"@
                &&& d.span == call_site
                &&& d.severity == None::<Severity>
                &&& d.related == Seq::<RelatedView>::empty()
                &&& d.notes == Seq::<Seq<char>>::empty()
                &&& d.tags == Seq::<Tag>::empty()
                &&& d.source == None::<Seq<char>>
                &&& d.fixes == Seq::<FixView>::empty()
            },
            BodyInferenceError::ThisOnIncompatiblePou { call_site } => {
                let d = this.spec_to_diagnostic();
                &&& d.message == "'THIS' is not valid in this context"@
                &&& d.span == call_site
                &&& d.severity == None::<Severity>
                &&& d.related == Seq::<RelatedView>::empty()
                &&& d.notes == Seq::<Seq<char>>::empty()
                &&& d.tags == Seq::<Tag>::empty()
                &&& d.source == None::<Seq<char>>
                &&& d.fixes == Seq::<FixView>::empty()
            },
            BodyInferenceError::ContinueOutsideLoop { stmt } => {
                let d = this.spec_to_diagnostic();
                &&& d.message == "'CONTINUE' can only be used inside loops"@
                &&& d.span == stmt
                &&& d.severity == None::<Severity>
                &&& d.related == Seq::<RelatedView>::empty()
                &&& d.notes == Seq::<Seq<char>>::empty()
                &&& d.tags == Seq::<Tag>::empty()
                &&& d.source == None::<Seq<char>>
                &&& d.fixes == Seq::<FixView>::empty()
            },
            BodyInferenceError::ExitOutsideLoop { stmt } => {
                let d = this.spec_to_diagnostic();
                &&& d.message == "'EXIT' can only be used inside loops"@
                &&& d.span == stmt
                &&& d.severity == None::<Severity>
                &&& d.related == Seq::<RelatedView>::empty()
                &&& d.notes == Seq::<Seq<char>>::empty()
                &&& d.tags == Seq::<Tag>::empty()
                &&& d.source == None::<Seq<char>>
                &&& d.fixes == Seq::<FixView>::empty()
            },
            BodyInferenceError::NotAnEnum { expr, item } => {
                let d = this.spec_to_diagnostic();
                &&& d.message == "'"@ + item.name@ + "' is not an ENUM type"@
                &&& d.span == expr
                &&& d.severity == None::<Severity>
                &&& d.related == Seq::<RelatedView>::empty()
                &&& d.notes == Seq::<Seq<char>>::empty()
                &&& d.tags == Seq::<Tag>::empty()
                &&& d.source == None::<Seq<char>>
                &&& d.fixes == Seq::<FixView>::empty()
            },
            BodyInferenceError::EnumVariantNotFound { enum_name, variant_name } => {
                let d = this.spec_to_diagnostic();
                &&& d.message == "ENUM has no variant named '"@ + variant_name.text@ + "'"@
                &&& d.span == variant_name.span
                &&& d.severity == None::<Severity>
                &&& d.related == Seq::<RelatedView>::empty()
                &&& d.notes == Seq::<Seq<char>>::empty()
                &&& d.tags == Seq::<Tag>::empty()
                &&& d.source == None::<Seq<char>>
                &&& d.fixes == Seq::<FixView>::empty()
            },
            BodyInferenceError::InferLiteralError { expr, source, target, err } => {
                let d = this.spec_to_diagnostic();
                &&& d.message == "cannot infer to '"@ + target.name@ + "': "@ + err.spec_to_string()
                &&& d.span == expr
                &&& d.severity == None::<Severity>
                &&& d.related == (Seq::<RelatedView>::empty().push(RelatedView { message: "type is inferred from here"@, file: source.file, span: source.span }) + match target@.location { Some(r) => seq![r], None => Seq::<RelatedView>::empty() })
                &&& d.notes == Seq::<Seq<char>>::empty()
                &&& d.tags == Seq::<Tag>::empty()
                &&& d.source == None::<Seq<char>>
                &&& d.fixes == Seq::<FixView>::empty()
            },
            _ => true,
        },
{
}

} // verus!
