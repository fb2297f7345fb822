//! E04xx: initialization errors.
use vstd::prelude::*;
use vstd::string::*;
use crate::diag::{Diagnostic, DiagnosticView, Span};
use crate::hir::Var;
use crate::text::{cat2, cat3, cat4, cat5, cat6, cat7};

use crate::diag::RelatedView;
use crate::diag::Severity;

use crate::diag::Tag;
use crate::diag::FixView;

verus! {

/// What the name an initializer refers to is bound to, as far as the advice
/// on a non-constant initial value depends on it.
pub enum InitBinding {
    /// The value is not a bare name, or nothing that says more binds it.
    Other,
    /// A declaration in scope, CONSTANT or not, with or without an initial value.
    Declared { name: String, constant: bool, has_init: bool },
    /// No declaration in scope, but a VAR_GLOBAL of that name, CONSTANT or
    /// not; `in_type` when the initializer is a TYPE declaration's.
    Global { name: String, constant: bool, in_type: bool },
}

impl InitBinding {
    /// The note explaining why the name does not fold, if there is one.
    pub open spec fn spec_note(&self) -> Option<Seq<char>> {
        match self {
            InitBinding::Other => None,
            InitBinding::Declared { name, constant, has_init } => Some(
                if !*constant {
                    "'"@ + name@ + "' is an ordinary variable; declare it CONSTANT if its value never changes"@
                } else if !*has_init {
                    "'"@ + name@ + "' is CONSTANT but declares no initial value, so there is nothing to fold"@
                } else {
                    "'"@ + name@ + "' is CONSTANT, but its own value does not fold (a reference cycle, or a non-constant initializer)"@
                },
            ),
            InitBinding::Global { name, constant, in_type } => Some(
                if !*constant {
                    "'"@ + name@ + "' is an ordinary variable; declare it CONSTANT if its value never changes"@
                } else if *in_type {
                    "'"@ + name@ + "' IS a CONSTANT, but a TYPE declaration cannot see it: a TYPE default folds only literals, arithmetic, and constants in its own scope"@
                } else {
                    "'"@ + name@ + "' IS a CONSTANT: declare it in this POU as `VAR_EXTERNAL CONSTANT` and the reference folds"@
                },
            ),
        }
    }

    /// The note explaining why the name does not fold, as [`Self::spec_note`] states.
    pub fn note(&self) -> (r: Option<String>)
        ensures
            match r {
                Some(n) => self.spec_note() == Some(n@),
                None => self.spec_note() is None,
            },
    {
        match self {
            InitBinding::Other => None,
            InitBinding::Declared { name, constant, has_init } => Some(
                if !*constant {
                    cat3("'", name.as_str(), "' is an ordinary variable; declare it CONSTANT if its value never changes")
                } else if !*has_init {
                    cat3("'", name.as_str(), "' is CONSTANT but declares no initial value, so there is nothing to fold")
                } else {
                    cat3("'", name.as_str(), "' is CONSTANT, but its own value does not fold (a reference cycle, or a non-constant initializer)")
                },
            ),
            InitBinding::Global { name, constant, in_type } => Some(
                if !*constant {
                    cat3("'", name.as_str(), "' is an ordinary variable; declare it CONSTANT if its value never changes")
                } else if *in_type {
                    cat3("'", name.as_str(), "' IS a CONSTANT, but a TYPE declaration cannot see it: a TYPE default folds only literals, arithmetic, and constants in its own scope")
                } else {
                    cat3("'", name.as_str(), "' IS a CONSTANT: declare it in this POU as `VAR_EXTERNAL CONSTANT` and the reference folds")
                },
            ),
        }
    }
}

/// A member an instance's initializer names but cannot set.
#[derive(Clone, Copy, Debug, PartialEq, Eq, Structural)]
pub enum UninitializableMember {
    /// Each call binds it to its argument.
    InOut,
    /// Each call makes it afresh.
    Temp,
    /// It names a VAR_GLOBAL.
    External,
    /// Its reads fold to its declared value.
    Constant,
}

impl UninitializableMember {
    pub open spec fn spec_what(self) -> Seq<char> {
        match self {
            UninitializableMember::InOut => "a VAR_IN_OUT, which each call binds to its argument"@,
            UninitializableMember::Temp => "a VAR_TEMP, which each call makes afresh"@,
            UninitializableMember::External => "a VAR_EXTERNAL, which names a VAR_GLOBAL"@,
            UninitializableMember::Constant => "CONSTANT, whose value is its declaration's"@,
        }
    }

    /// What the member is, for the message.
    pub fn what(self) -> (r: &'static str)
        ensures
            r@ == self.spec_what(),
    {
        match self {
            UninitializableMember::InOut => "a VAR_IN_OUT, which each call binds to its argument",
            UninitializableMember::Temp => "a VAR_TEMP, which each call makes afresh",
            UninitializableMember::External => "a VAR_EXTERNAL, which names a VAR_GLOBAL",
            UninitializableMember::Constant => "CONSTANT, whose value is its declaration's",
        }
    }

    pub open spec fn spec_note(self, name: Seq<char>) -> Seq<char> {
        match self {
            UninitializableMember::InOut => "pass the variable in the call instead, as '"@ + name + " := x'"@,
            UninitializableMember::Temp => "give the value in its declaration, which applies at every call"@,
            UninitializableMember::External => "give the value in the VAR_GLOBAL's declaration"@,
            UninitializableMember::Constant => "declare it without CONSTANT to let each instance start at its own value"@,
        }
    }

    /// What to do instead, for the member named `name`.
    pub fn note(self, name: &str) -> (r: String)
        ensures
            r@ == self.spec_note(name@),
    {
        match self {
            UninitializableMember::InOut => cat3("pass the variable in the call instead, as '", name, " := x'"),
            UninitializableMember::Temp => String::from_str("give the value in its declaration, which applies at every call"),
            UninitializableMember::External => String::from_str("give the value in the VAR_GLOBAL's declaration"),
            UninitializableMember::Constant => String::from_str("declare it without CONSTANT to let each instance start at its own value"),
        }
    }
}

/// An initialization error.
pub enum InitError {
    /// A once-per-type initializer that names something with no compile-time value; `binding` is what the name is bound to.
    InitNotConstant { value: Span, binding: InitBinding },
    /// A call in an initializer.
    FunctionCallInInitExpression(Span),
    /// A structured initializer of an elementary type.
    NoFieldOnElementaryType { expr: Span, ty: String },
    /// An assignment to a constant.
    AssignToConstant { access: Span },
    /// An instance's initializer names a member with no value of its own to give.
    UninitializableMember { expr: Span, var: Var, kind: UninitializableMember },
}

impl InitError {
    pub open spec fn spec_code(&self) -> Seq<char> {
        match self {
            InitError::InitNotConstant { .. } => "E0401"@,
            InitError::FunctionCallInInitExpression(..) => "E0402"@,
            InitError::NoFieldOnElementaryType { .. } => "E0403"@,
            InitError::AssignToConstant { .. } => "E0404"@,
            InitError::UninitializableMember { .. } => "E0405"@,
        }
    }

    /// The stable code of the error.
    pub fn code(&self) -> (r: &'static str)
        ensures
            r@ == self.spec_code(),
    {
        match self {
            InitError::InitNotConstant { .. } => "E0401",
            InitError::FunctionCallInInitExpression(..) => "E0402",
            InitError::NoFieldOnElementaryType { .. } => "E0403",
            InitError::AssignToConstant { .. } => "E0404",
            InitError::UninitializableMember { .. } => "E0405",
        }
    }

    pub open spec fn spec_description(&self) -> Seq<char> {
        match self {
            InitError::InitNotConstant { .. } => "initial value is not constant"@,
            InitError::FunctionCallInInitExpression(..) => "syntax"@,
            InitError::NoFieldOnElementaryType { .. } => "invalid operation"@,
            InitError::AssignToConstant { .. } => "semantic violation"@,
            InitError::UninitializableMember { .. } => "member cannot be initialized"@,
        }
    }

    /// The short description of the error's kind.
    pub fn description(&self) -> (r: &'static str)
        ensures
            r@ == self.spec_description(),
    {
        match self {
            InitError::InitNotConstant { .. } => "initial value is not constant",
            InitError::FunctionCallInInitExpression(..) => "syntax",
            InitError::NoFieldOnElementaryType { .. } => "invalid operation",
            InitError::AssignToConstant { .. } => "semantic violation",
            InitError::UninitializableMember { .. } => "member cannot be initialized",
        }
    }

    /// An error diagnostic of this error at `span`.
    pub open spec fn err(&self, message: Seq<char>, span: Span) -> DiagnosticView {
        DiagnosticView::error(message, self.spec_code(), self.spec_description(), span)
    }

    fn error_at(&self, message: String, span: Span) -> (d: Diagnostic)
        ensures
            d@ == self.err(message@, span),
    {
        Diagnostic::error(message, self.code(), self.description(), span)
    }

    /// The diagnostic this error renders to.
    pub open spec fn spec_to_diagnostic(&self) -> DiagnosticView {
        match self {
            InitError::InitNotConstant { value, binding } =>
                {
                    let d = self.err("this initial value must be a constant: it is fixed before the program runs"@, *value);
                    match binding.spec_note() {
                        Some(n) => d.note(n),
                        None => d,
                    }
                },
            InitError::FunctionCallInInitExpression(span) =>
                self.err("function call in initialization expression is not allowed"@, *span),
            InitError::NoFieldOnElementaryType { expr, ty } =>
                self.err("type '"@ + ty@ + "' is an elementary type and cannot be initiliazed with '()'"@, *expr),
            InitError::AssignToConstant { access } =>
                self.err("cannot assign to constant type"@, *access),
            InitError::UninitializableMember { expr, var, kind } =>
                self.err("'"@ + var.decl.name@ + "' is "@ + kind.spec_what() + ", so an initializer cannot give it a value"@, *expr)
                .rel("'"@ + var.decl.name@ + "' is declared here"@, var.decl.file, var.decl.name_span)
                .note(kind.spec_note(var.decl.name@)),
        }
    }

    /// Renders the error as a diagnostic.
    #[verifier::rlimit(60)]
    pub fn to_diagnostic(&self) -> (d: Diagnostic)
        ensures
            d@ == self.spec_to_diagnostic(),
    {
        match self {
            InitError::InitNotConstant { value, binding } => {
                let mut d = self.error_at(String::from_str("this initial value must be a constant: it is fixed before the program runs"), *value);
                match binding.note() {
                    Some(n) => d.with_note(n),
                    None => {},
                }
                d
            },
            InitError::FunctionCallInInitExpression(span) => {
                self.error_at(String::from_str("function call in initialization expression is not allowed"), *span)
            },
            InitError::NoFieldOnElementaryType { expr, ty } => {
                self.error_at(cat3("type '", ty.as_str(), "' is an elementary type and cannot be initiliazed with '()'"), *expr)
            },
            InitError::AssignToConstant { access } => {
                self.error_at(String::from_str("cannot assign to constant type"), *access)
            },
            InitError::UninitializableMember { expr, var, kind } => {
                let mut d = self.error_at(cat5("'", var.decl.name.as_str(), "' is ", kind.what(), ", so an initializer cannot give it a value"), *expr);
                d.with_related_at(cat3("'", var.decl.name.as_str(), "' is declared here"), var.decl.file, var.decl.name_span);
                d.with_note(String::from_str(kind.note(var.decl.name.as_str()).as_str()));
                d
            },
        }
    }

}

/// Each kind of `InitError` is reported at the span of what it concerns, with
/// its message and severity, whatever names, spans and texts it holds; a
/// kind whose diagnostic is built directly also carries exactly the
/// related locations, notes, tags, source and quick fixes listed.
pub proof fn law_init_error_rendering(this: InitError)
    ensures
        match this {
            InitError::InitNotConstant { value, binding } => {
                let d = this.spec_to_diagnostic();
                &&& d.message == "this initial value must be a constant: it is fixed before the program runs"@
                &&& d.span == value
                &&& d.severity == Some(Severity::Error)
            },
            InitError::FunctionCallInInitExpression(span) => {
                let d = this.spec_to_diagnostic();
                &&& d.message == "function call in initialization expression is not allowed"@
                &&& d.span == span
                &&& d.severity == Some(Severity::Error)
                &&& d.related == Seq::<RelatedView>::empty()
                &&& d.notes == Seq::<Seq<char>>::empty()
                &&& d.tags == Seq::<Tag>::empty()
                &&& d.source == None::<Seq<char>>
                &&& d.fixes == Seq::<FixView>::empty()
            },
            InitError::NoFieldOnElementaryType { expr, ty } => {
                let d = this.spec_to_diagnostic();
                &&& d.message == "type '"@ + ty@ + "' is an elementary type and cannot be initiliazed with '()'"@
                &&& d.span == expr
                &&& d.severity == Some(Severity::Error)
                &&& d.related == Seq::<RelatedView>::empty()
                &&& d.notes == Seq::<Seq<char>>::empty()
                &&& d.tags == Seq::<Tag>::empty()
                &&& d.source == None::<Seq<char>>
                &&& d.fixes == Seq::<FixView>::empty()
            },
            InitError::AssignToConstant { access } => {
                let d = this.spec_to_diagnostic();
                &&& d.message == "cannot assign to constant type"@
                &&& d.span == access
                &&& d.severity == Some(Severity::Error)
                &&& d.related == Seq::<RelatedView>::empty()
                &&& d.notes == Seq::<Seq<char>>::empty()
                &&& d.tags == Seq::<Tag>::empty()
                &&& d.source == None::<Seq<char>>
                &&& d.fixes == Seq::<FixView>::empty()
            },
            InitError::UninitializableMember { expr, var, kind } => {
                let d = this.spec_to_diagnostic();
                &&& d.message == "'"@ + var.decl.name@ + "' is "@ + kind.spec_what() + ", so an initializer cannot give it a value"@
                &&& d.span == expr
                &&& d.severity == Some(Severity::Error)
                &&& d.related == Seq::<RelatedView>::empty().push(RelatedView { message: "'"@ + var.decl.name@ + "' is declared here"@, file: var.decl.file, span: var.decl.name_span })
                &&& d.notes == Seq::<Seq<char>>::empty().push(kind.spec_note(var.decl.name@))
                &&& d.tags == Seq::<Tag>::empty()
                &&& d.source == None::<Seq<char>>
                &&& d.fixes == Seq::<FixView>::empty()
            },
        },
{
}

} // verus!
