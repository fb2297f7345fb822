//! E01xx (earlier numbering): duplicate definitions.
use vstd::prelude::*;
use vstd::string::*;
use crate::diag::{Diagnostic, DiagnosticView, Span};
use crate::e01_duplicates::InheritedMethod;
use crate::hir::{MethodRef, Named, Var};
use crate::text::{cat2, cat3, cat4, cat5, cat6, cat7};

use crate::diag::RelatedView;
use crate::diag::Severity;

use crate::diag::Tag;
use crate::diag::FixView;

verus! {

/// A duplicate definition.
pub enum DuplicateError {
    /// A POU declared twice; `pou2` is the earlier one.
    Pou { pou1: Named, pou2: Named },
    /// A variable declared twice; `var2` is the earlier one.
    Variable { var1: Var, var2: Var },
    /// A STRUCT field declared twice.
    StructField { field1: Named, field2: Named },
    /// An enum variant declared twice.
    EnumVariant { variant1: Named, variant2: Named },
    /// A method declared twice.
    MethodDecl { method1: MethodRef, method2: MethodRef },
    /// A method prototype declared twice.
    MethodProt { method1: MethodRef, method2: MethodRef },
    /// Two interfaces a POU implements declare a method of one name.
    InheritedMethod { method1: InheritedMethod, method2: InheritedMethod },
    /// A parameter bound twice in a call; `param_1` is the first binding.
    Parameter { param_1: Named, param_2: Named, name: String },
    /// A namespace imported twice; each USING named by its path.
    Using { using: Named, other: Named },
    /// A field initialized twice in one initializer.
    InitExprField { name: String, field1: Named, field2: Named },
    /// A PROGRAM declared twice.
    Program { prog1: Named, prog2: Named },
    /// A CONFIGURATION declared twice.
    Config { config1: Named, config2: Named },
    /// A generic parameter declared twice.
    Generic { param1: Named, param2: Named },
    /// A TASK name used twice in one scope.
    Task { task1: Named, task2: Named },
    /// A PROGRAM instance name used twice in one scope.
    ProgInstance { prog1: Named, prog2: Named },
    /// A RESOURCE name used twice in one configuration.
    Resource { res1: Named, res2: Named },
}

impl DuplicateError {
    pub open spec fn spec_code(&self) -> Seq<char> {
        match self {
            DuplicateError::Pou { .. } => "E0101"@,
            DuplicateError::Variable { .. } => "E0102"@,
            DuplicateError::StructField { .. } => "E0103"@,
            DuplicateError::EnumVariant { .. } => "E0104"@,
            DuplicateError::MethodDecl { .. } => "E0105"@,
            DuplicateError::MethodProt { .. } => "E0106"@,
            DuplicateError::InheritedMethod { .. } => "E0107"@,
            DuplicateError::Parameter { .. } => "E0108"@,
            DuplicateError::Using { .. } => "E0109"@,
            DuplicateError::InitExprField { .. } => "E0110"@,
            DuplicateError::Program { .. } => "E0111"@,
            DuplicateError::Config { .. } => "E0113"@,
            DuplicateError::Generic { .. } => "E0112"@,
            DuplicateError::Task { .. } => "E0114"@,
            DuplicateError::ProgInstance { .. } => "E0115"@,
            DuplicateError::Resource { .. } => "E0116"@,
        }
    }

    /// The stable code of the error.
    pub fn code(&self) -> (r: &'static str)
        ensures
            r@ == self.spec_code(),
    {
        match self {
            DuplicateError::Pou { .. } => "E0101",
            DuplicateError::Variable { .. } => "E0102",
            DuplicateError::StructField { .. } => "E0103",
            DuplicateError::EnumVariant { .. } => "E0104",
            DuplicateError::MethodDecl { .. } => "E0105",
            DuplicateError::MethodProt { .. } => "E0106",
            DuplicateError::InheritedMethod { .. } => "E0107",
            DuplicateError::Parameter { .. } => "E0108",
            DuplicateError::Using { .. } => "E0109",
            DuplicateError::InitExprField { .. } => "E0110",
            DuplicateError::Program { .. } => "E0111",
            DuplicateError::Config { .. } => "E0113",
            DuplicateError::Generic { .. } => "E0112",
            DuplicateError::Task { .. } => "E0114",
            DuplicateError::ProgInstance { .. } => "E0115",
            DuplicateError::Resource { .. } => "E0116",
        }
    }

    pub open spec fn spec_description(&self) -> Seq<char> {
        match self {
            DuplicateError::Pou { .. } => "duplicate definitions"@,
            DuplicateError::Variable { .. } => "duplicate definitions"@,
            DuplicateError::StructField { .. } => "duplicate definitions"@,
            DuplicateError::EnumVariant { .. } => "duplicate definitions"@,
            DuplicateError::MethodDecl { .. } => "duplicate definitions"@,
            DuplicateError::MethodProt { .. } => "duplicate definitions"@,
            DuplicateError::InheritedMethod { .. } => "duplicate definitions"@,
            DuplicateError::Parameter { .. } => "duplicate definitions"@,
            DuplicateError::Using { .. } => "duplicate definitions"@,
            DuplicateError::InitExprField { .. } => "duplicate definitions"@,
            DuplicateError::Program { .. } => "duplicate definitions"@,
            DuplicateError::Config { .. } => "duplicate definitions"@,
            DuplicateError::Generic { .. } => "duplicate definitions"@,
            DuplicateError::Task { .. } => "duplicate definitions"@,
            DuplicateError::ProgInstance { .. } => "duplicate definitions"@,
            DuplicateError::Resource { .. } => "duplicate definitions"@,
        }
    }

    /// The short description of the error's kind.
    pub fn description(&self) -> (r: &'static str)
        ensures
            r@ == self.spec_description(),
    {
        match self {
            DuplicateError::Pou { .. } => "duplicate definitions",
            DuplicateError::Variable { .. } => "duplicate definitions",
            DuplicateError::StructField { .. } => "duplicate definitions",
            DuplicateError::EnumVariant { .. } => "duplicate definitions",
            DuplicateError::MethodDecl { .. } => "duplicate definitions",
            DuplicateError::MethodProt { .. } => "duplicate definitions",
            DuplicateError::InheritedMethod { .. } => "duplicate definitions",
            DuplicateError::Parameter { .. } => "duplicate definitions",
            DuplicateError::Using { .. } => "duplicate definitions",
            DuplicateError::InitExprField { .. } => "duplicate definitions",
            DuplicateError::Program { .. } => "duplicate definitions",
            DuplicateError::Config { .. } => "duplicate definitions",
            DuplicateError::Generic { .. } => "duplicate definitions",
            DuplicateError::Task { .. } => "duplicate definitions",
            DuplicateError::ProgInstance { .. } => "duplicate definitions",
            DuplicateError::Resource { .. } => "duplicate definitions",
        }
    }

    /// An error diagnostic of this error at `span`.
    pub open spec fn err(&self, message: Seq<char>, span: Span) -> DiagnosticView {
        DiagnosticView::error(message, self.spec_code(), self.spec_description(), span)
    }

    fn error_at(&self, message: String, span: Span) -> (d: Diagnostic)
        ensures
            d@ == self.err(message@, span),
    {
        Diagnostic::error(message, self.code(), self.description(), span)
    }

    /// The diagnostic this error renders to.
    pub open spec fn spec_to_diagnostic(&self) -> DiagnosticView {
        match self {
            DuplicateError::Pou { pou1, pou2 } =>
                self.err("duplicate POU '"@ + pou1.name@ + "'"@, pou1.name_span)
                .rel("POU '"@ + pou2.name@ + "' is already defined here"@, pou2.file, pou2.name_span),
            DuplicateError::Variable { var1, var2 } =>
                self.err("duplicate variable '"@ + var1.decl.name@ + "'"@, var1.decl.name_span)
                .rel("variable '"@ + var2.decl.name@ + "' is already defined here"@, var2.decl.file, var2.decl.name_span),
            DuplicateError::StructField { field1, field2 } =>
                self.err("duplicate field '"@ + field1.name@ + "'"@, field1.name_span)
                .rel("field '"@ + field2.name@ + "' is already defined here"@, field2.file, field2.name_span),
            DuplicateError::EnumVariant { variant1, variant2 } =>
                self.err("duplicate enum variant '"@ + variant1.name@ + "'"@, variant1.span)
                .rel("enum variant '"@ + variant2.name@ + "' is already defined here"@, variant2.file, variant2.span),
            DuplicateError::MethodDecl { method1, method2 } =>
                self.err("duplicate method '"@ + method1.decl.name@ + "'"@, method1.decl.name_span)
                .rel("method '"@ + method2.decl.name@ + "' is already defined here"@, method2.decl.file, method2.decl.name_span),
            DuplicateError::MethodProt { method1, method2 } =>
                self.err("duplicate method '"@ + method1.decl.name@ + "'"@, method1.decl.name_span)
                .rel("method '"@ + method2.decl.name@ + "' is already defined here"@, method2.decl.file, method2.decl.name_span),
            DuplicateError::InheritedMethod { method1, method2 } =>
                self.err("duplicate method '"@ + method1.method.decl.name@ + "'"@, method1.method.decl.name_span)
                .rel("method '"@ + method2.method.decl.name@ + "' is already defined here"@, method2.method.decl.file, method2.method.decl.name_span)
                .note("this error happens because both interfaces '"@ + method1.source.name@ + "' and '"@ + method2.source.name@ + "' define a method '"@ + method1.method.decl.name@ + "'"@),
            DuplicateError::Parameter { param_1, param_2, name } =>
                self.err("duplicate parameter '"@ + name@ + "' found"@, param_2.span)
                .rel("previously defined here"@, param_1.file, param_1.span),
            DuplicateError::Using { using, other } =>
                self.err("duplicate `USING` for namespace '"@ + using.name@ + "'"@, using.span)
                .rel("namespace '"@ + other.name@ + "' is already imported here"@, other.file, other.span),
            DuplicateError::InitExprField { name, field1, field2 } =>
                self.err("duplicate field '"@ + name@ + "' in initializer expression"@, field1.span)
                .rel("field '"@ + name@ + "' is already initialized here"@, field2.file, field2.span),
            DuplicateError::Program { prog1, prog2 } =>
                self.err("duplicate program '"@ + prog1.name@ + "'"@, prog1.name_span)
                .rel("program '"@ + prog2.name@ + "' is already defined here"@, prog2.file, prog2.name_span),
            DuplicateError::Config { config1, config2 } =>
                self.err("duplicate configuration '"@ + config1.name@ + "'"@, config1.name_span)
                .rel("configuration '"@ + config2.name@ + "' is already defined here"@, config2.file, config2.name_span),
            DuplicateError::Generic { param1, param2 } =>
                self.err("duplicate generic parameter '"@ + param1.name@ + "'"@, param1.name_span)
                .rel("generic parameter '"@ + param2.name@ + "' is already defined here"@, param2.file, param2.name_span),
            DuplicateError::Task { task1, task2 } =>
                self.err("duplicate task '"@ + task1.name@ + "'"@, task1.span)
                .rel("task '"@ + task2.name@ + "' is already defined here"@, task2.file, task2.span),
            DuplicateError::ProgInstance { prog1, prog2 } =>
                self.err("duplicate program instance '"@ + prog1.name@ + "'"@, prog1.span)
                .rel("program instance '"@ + prog2.name@ + "' is already defined here"@, prog2.file, prog2.span),
            DuplicateError::Resource { res1, res2 } =>
                self.err("duplicate resource '"@ + res1.name@ + "'"@, res1.span)
                .rel("resource '"@ + res2.name@ + "' is already defined here"@, res2.file, res2.span),
        }
    }

    /// Renders the error as a diagnostic.
    #[verifier::rlimit(60)]
    pub fn to_diagnostic(&self) -> (d: Diagnostic)
        ensures
            d@ == self.spec_to_diagnostic(),
    {
        match self {
            DuplicateError::Pou { pou1, pou2 } => {
                let mut d = self.error_at(cat3("duplicate POU '", pou1.name.as_str(), "'"), pou1.name_span);
                d.with_related_at(cat3("POU '", pou2.name.as_str(), "' is already defined here"), pou2.file, pou2.name_span);
                d
            },
            DuplicateError::Variable { var1, var2 } => {
                let mut d = self.error_at(cat3("duplicate variable '", var1.decl.name.as_str(), "'"), var1.decl.name_span);
                d.with_related_at(cat3("variable '", var2.decl.name.as_str(), "' is already defined here"), var2.decl.file, var2.decl.name_span);
                d
            },
            DuplicateError::StructField { field1, field2 } => {
                let mut d = self.error_at(cat3("duplicate field '", field1.name.as_str(), "'"), field1.name_span);
                d.with_related_at(cat3("field '", field2.name.as_str(), "' is already defined here"), field2.file, field2.name_span);
                d
            },
            DuplicateError::EnumVariant { variant1, variant2 } => {
                let mut d = self.error_at(cat3("duplicate enum variant '", variant1.name.as_str(), "'"), variant1.span);
                d.with_related_at(cat3("enum variant '", variant2.name.as_str(), "' is already defined here"), variant2.file, variant2.span);
                d
            },
            DuplicateError::MethodDecl { method1, method2 } => {
                let mut d = self.error_at(cat3("duplicate method '", method1.decl.name.as_str(), "'"), method1.decl.name_span);
                d.with_related_at(cat3("method '", method2.decl.name.as_str(), "' is already defined here"), method2.decl.file, method2.decl.name_span);
                d
            },
            DuplicateError::MethodProt { method1, method2 } => {
                let mut d = self.error_at(cat3("duplicate method '", method1.decl.name.as_str(), "'"), method1.decl.name_span);
                d.with_related_at(cat3("method '", method2.decl.name.as_str(), "' is already defined here"), method2.decl.file, method2.decl.name_span);
                d
            },
            DuplicateError::InheritedMethod { method1, method2 } => {
                let mut d = self.error_at(cat3("duplicate method '", method1.method.decl.name.as_str(), "'"), method1.method.decl.name_span);
                d.with_related_at(cat3("method '", method2.method.decl.name.as_str(), "' is already defined here"), method2.method.decl.file, method2.method.decl.name_span);
                d.with_note(cat7("this error happens because both interfaces '", method1.source.name.as_str(), "' and '", method2.source.name.as_str(), "' define a method '", method1.method.decl.name.as_str(), "'"));
                d
            },
            DuplicateError::Parameter { param_1, param_2, name } => {
                let mut d = self.error_at(cat3("duplicate parameter '", name.as_str(), "' found"), param_2.span);
                d.with_related_at(String::from_str("previously defined here"), param_1.file, param_1.span);
                d
            },
            DuplicateError::Using { using, other } => {
                let mut d = self.error_at(cat3("duplicate `USING` for namespace '", using.name.as_str(), "'"), using.span);
                d.with_related_at(cat3("namespace '", other.name.as_str(), "' is already imported here"), other.file, other.span);
                d
            },
            DuplicateError::InitExprField { name, field1, field2 } => {
                let mut d = self.error_at(cat3("duplicate field '", name.as_str(), "' in initializer expression"), field1.span);
                d.with_related_at(cat3("field '", name.as_str(), "' is already initialized here"), field2.file, field2.span);
                d
            },
            DuplicateError::Program { prog1, prog2 } => {
                let mut d = self.error_at(cat3("duplicate program '", prog1.name.as_str(), "'"), prog1.name_span);
                d.with_related_at(cat3("program '", prog2.name.as_str(), "' is already defined here"), prog2.file, prog2.name_span);
                d
            },
            DuplicateError::Config { config1, config2 } => {
                let mut d = self.error_at(cat3("duplicate configuration '", config1.name.as_str(), "'"), config1.name_span);
                d.with_related_at(cat3("configuration '", config2.name.as_str(), "' is already defined here"), config2.file, config2.name_span);
                d
            },
            DuplicateError::Generic { param1, param2 } => {
                let mut d = self.error_at(cat3("duplicate generic parameter '", param1.name.as_str(), "'"), param1.name_span);
                d.with_related_at(cat3("generic parameter '", param2.name.as_str(), "' is already defined here"), param2.file, param2.name_span);
                d
            },
            DuplicateError::Task { task1, task2 } => {
                let mut d = self.error_at(cat3("duplicate task '", task1.name.as_str(), "'"), task1.span);
                d.with_related_at(cat3("task '", task2.name.as_str(), "' is already defined here"), task2.file, task2.span);
                d
            },
            DuplicateError::ProgInstance { prog1, prog2 } => {
                let mut d = self.error_at(cat3("duplicate program instance '", prog1.name.as_str(), "'"), prog1.span);
                d.with_related_at(cat3("program instance '", prog2.name.as_str(), "' is already defined here"), prog2.file, prog2.span);
                d
            },
            DuplicateError::Resource { res1, res2 } => {
                let mut d = self.error_at(cat3("duplicate resource '", res1.name.as_str(), "'"), res1.span);
                d.with_related_at(cat3("resource '", res2.name.as_str(), "' is already defined here"), res2.file, res2.span);
                d
            },
        }
    }

}

/// Each kind of `DuplicateError` is reported at the span of what it concerns, with
/// its message and severity, whatever names, spans and texts it holds; a
/// kind whose diagnostic is built directly also carries exactly the
/// related locations, notes, tags, source and quick fixes listed.
pub proof fn law_duplicate_error_rendering(this: DuplicateError)
    ensures
        match this {
            DuplicateError::Pou { pou1, pou2 } => {
                let d = this.spec_to_diagnostic();
                &&& d.message == "duplicate POU '"@ + pou1.name@ + "'"@
                &&& d.span == pou1.name_span
                &&& d.severity == Some(Severity::Error)
                &&& d.related == Seq::<RelatedView>::empty().push(RelatedView { message: "POU '"@ + pou2.name@ + "' is already defined here"@, file: pou2.file, span: pou2.name_span })
                &&& d.notes == Seq::<Seq<char>>::empty()
                &&& d.tags == Seq::<Tag>::empty()
                &&& d.source == None::<Seq<char>>
                &&& d.fixes == Seq::<FixView>::empty()
            },
            DuplicateError::Variable { var1, var2 } => {
                let d = this.spec_to_diagnostic();
                &&& d.message == "duplicate variable '"@ + var1.decl.name@ + "'"@
                &&& d.span == var1.decl.name_span
                &&& d.severity == Some(Severity::Error)
                &&& d.related == Seq::<RelatedView>::empty().push(RelatedView { message: "variable '"@ + var2.decl.name@ + "' is already defined here"@, file: var2.decl.file, span: var2.decl.name_span })
                &&& d.notes == Seq::<Seq<char>>::empty()
                &&& d.tags == Seq::<Tag>::empty()
                &&& d.source == None::<Seq<char>>
                &&& d.fixes == Seq::<FixView>::empty()
            },
            DuplicateError::StructField { field1, field2 } => {
                let d = this.spec_to_diagnostic();
                &&& d.message == "duplicate field '"@ + field1.name@ + "'"@
                &&& d.span == field1.name_span
                &&& d.severity == Some(Severity::Error)
                &&& d.related == Seq::<RelatedView>::empty().push(RelatedView { message: "field '"@ + field2.name@ + "' is already defined here"@, file: field2.file, span: field2.name_span })
                &&& d.notes == Seq::<Seq<char>>::empty()
                &&& d.tags == Seq::<Tag>::empty()
                &&& d.source == None::<Seq<char>>
                &&& d.fixes == Seq::<FixView>::empty()
            },
            DuplicateError::EnumVariant { variant1, variant2 } => {
                let d = this.spec_to_diagnostic();
                &&& d.message == "duplicate enum variant '"@ + variant1.name@ + "'"@
                &&& d.span == variant1.span
                &&& d.severity == Some(Severity::Error)
                &&& d.related == Seq::<RelatedView>::empty().push(RelatedView { message: "enum variant '"@ + variant2.name@ + "' is already defined here"@, file: variant2.file, span: variant2.span })
                &&& d.notes == Seq::<Seq<char>>::empty()
                &&& d.tags == Seq::<Tag>::empty()
                &&& d.source == None::<Seq<char>>
                &&& d.fixes == Seq::<FixView>::empty()
            },
            DuplicateError::MethodDecl { method1, method2 } => {
                let d = this.spec_to_diagnostic();
                &&& d.message == "duplicate method '"@ + method1.decl.name@ + "'"@
                &&& d.span == method1.decl.name_span
                &&& d.severity == Some(Severity::Error)
                &&& d.related == Seq::<RelatedView>::empty().push(RelatedView { message: "method '"@ + method2.decl.name@ + "' is already defined here"@, file: method2.decl.file, span: method2.decl.name_span })
                &&& d.notes == Seq::<Seq<char>>::empty()
                &&& d.tags == Seq::<Tag>::empty()
                &&& d.source == None::<Seq<char>>
                &&& d.fixes == Seq::<FixView>::empty()
            },
            DuplicateError::MethodProt { method1, method2 } => {
                let d = this.spec_to_diagnostic();
                &&& d.message == "duplicate method '"@ + method1.decl.name@ + "'"@
                &&& d.span == method1.decl.name_span
                &&& d.severity == Some(Severity::Error)
                &&& d.related == Seq::<RelatedView>::empty().push(RelatedView { message: "method '"@ + method2.decl.name@ + "' is already defined here"@, file: method2.decl.file, span: method2.decl.name_span })
                &&& d.notes == Seq::<Seq<char>>::empty()
                &&& d.tags == Seq::<Tag>::empty()
                &&& d.source == None::<Seq<char>>
                &&& d.fixes == Seq::<FixView>::empty()
            },
            DuplicateError::InheritedMethod { method1, method2 } => {
                let d = this.spec_to_diagnostic();
                &&& d.message == "duplicate method '"@ + method1.method.decl.name@ + "'"@
                &&& d.span == method1.method.decl.name_span
                &&& d.severity == Some(Severity::Error)
                &&& d.related == Seq::<RelatedView>::empty().push(RelatedView { message: "method '"@ + method2.method.decl.name@ + "' is already defined here"@, file: method2.method.decl.file, span: method2.method.decl.name_span })
                &&& d.notes == Seq::<Seq<char>>::empty().push("this error happens because both interfaces '"@ + method1.source.name@ + "' and '"@ + method2.source.name@ + "' define a method '"@ + method1.method.decl.name@ + "'"@)
                &&& d.tags == Seq::<Tag>::empty()
                &&& d.source == None::<Seq<char>>
                &&& d.fixes == Seq::<FixView>::empty()
            },
            DuplicateError::Parameter { param_1, param_2, name } => {
                let d = this.spec_to_diagnostic();
                &&& d.message == "duplicate parameter '"@ + name@ + "' found"@
                &&& d.span == param_2.span
                &&& d.severity == Some(Severity::Error)
                &&& d.related == Seq::<RelatedView>::empty().push(RelatedView { message: "previously defined here"@, file: param_1.file, span: param_1.span })
                &&& d.notes == Seq::<Seq<char>>::empty()
                &&& d.tags == Seq::<Tag>::empty()
                &&& d.source == None::<Seq<char>>
                &&& d.fixes == Seq::<FixView>::empty()
            },
            DuplicateError::Using { using, other } => {
                let d = this.spec_to_diagnostic();
                &&& d.message == "duplicate `USING` for namespace '"@ + using.name@ + "'"@
                &&& d.span == using.span
                &&& d.severity == Some(Severity::Error)
                &&& d.related == Seq::<RelatedView>::empty().push(RelatedView { message: "namespace '"@ + other.name@ + "' is already imported here"@, file: other.file, span: other.span })
                &&& d.notes == Seq::<Seq<char>>::empty()
                &&& d.tags == Seq::<Tag>::empty()
                &&& d.source == None::<Seq<char>>
                &&& d.fixes == Seq::<FixView>::empty()
            },
            DuplicateError::InitExprField { name, field1, field2 } => {
                let d = this.spec_to_diagnostic();
                &&& d.message == "duplicate field '"@ + name@ + "' in initializer expression"@
                &&& d.span == field1.span
                &&& d.severity == Some(Severity::Error)
                &&& d.related == Seq::<RelatedView>::empty().push(RelatedView { message: "field '"@ + name@ + "' is already initialized here"@, file: field2.file, span: field2.span })
                &&& d.notes == Seq::<Seq<char>>::empty()
                &&& d.tags == Seq::<Tag>::empty()
                &&& d.source == None::<Seq<char>>
                &&& d.fixes == Seq::<FixView>::empty()
            },
            DuplicateError::Program { prog1, prog2 } => {
                let d = this.spec_to_diagnostic();
                &&& d.message == "duplicate program '"@ + prog1.name@ + "'"@
                &&& d.span == prog1.name_span
                &&& d.severity == Some(Severity::Error)
                &&& d.related == Seq::<RelatedView>::empty().push(RelatedView { message: "program '"@ + prog2.name@ + "' is already defined here"@, file: prog2.file, span: prog2.name_span })
                &&& d.notes == Seq::<Seq<char>>::empty()
                &&& d.tags == Seq::<Tag>::empty()
                &&& d.source == None::<Seq<char>>
                &&& d.fixes == Seq::<FixView>::empty()
            },
            DuplicateError::Config { config1, config2 } => {
                let d = this.spec_to_diagnostic();
                &&& d.message == "duplicate configuration '"@ + config1.name@ + "'"@
                &&& d.span == config1.name_span
                &&& d.severity == Some(Severity::Error)
                &&& d.related == Seq::<RelatedView>::empty().push(RelatedView { message: "configuration '"@ + config2.name@ + "' is already defined here"@, file: config2.file, span: config2.name_span })
                &&& d.notes == Seq::<Seq<char>>::empty()
                &&& d.tags == Seq::<Tag>::empty()
                &&& d.source == None::<Seq<char>>
                &&& d.fixes == Seq::<FixView>::empty()
            },
            DuplicateError::Generic { param1, param2 } => {
                let d = this.spec_to_diagnostic();
                &&& d.message == "duplicate generic parameter '"@ + param1.name@ + "'"@
                &&& d.span == param1.name_span
                &&& d.severity == Some(Severity::Error)
                &&& d.related == Seq::<RelatedView>::empty().push(RelatedView { message: "generic parameter '"@ + param2.name@ + "' is already defined here"@, file: param2.file, span: param2.name_span })
                &&& d.notes == Seq::<Seq<char>>::empty()
                &&& d.tags == Seq::<Tag>::empty()
                &&& d.source == None::<Seq<char>>
                &&& d.fixes == Seq::<FixView>::empty()
            },
            DuplicateError::Task { task1, task2 } => {
                let d = this.spec_to_diagnostic();
                &&& d.message == "duplicate task '"@ + task1.name@ + "'"@
                &&& d.span == task1.span
                &&& d.severity == Some(Severity::Error)
                &&& d.related == Seq::<RelatedView>::empty().push(RelatedView { message: "task '"@ + task2.name@ + "' is already defined here"@, file: task2.file, span: task2.span })
                &&& d.notes == Seq::<Seq<char>>::empty()
                &&& d.tags == Seq::<Tag>::empty()
                &&& d.source == None::<Seq<char>>
                &&& d.fixes == Seq::<FixView>::empty()
            },
            DuplicateError::ProgInstance { prog1, prog2 } => {
                let d = this.spec_to_diagnostic();
                &&& d.message == "duplicate program instance '"@ + prog1.name@ + "'"@
                &&& d.span == prog1.span
                &&& d.severity == Some(Severity::Error)
                &&& d.related == Seq::<RelatedView>::empty().push(RelatedView { message: "program instance '"@ + prog2.name@ + "' is already defined here"@, file: prog2.file, span: prog2.span })
                &&& d.notes == Seq::<Seq<char>>::empty()
                &&& d.tags == Seq::<Tag>::empty()
                &&& d.source == None::<Seq<char>>
                &&& d.fixes == Seq::<FixView>::empty()
            },
            DuplicateError::Resource { res1, res2 } => {
                let d = this.spec_to_diagnostic();
                &&& d.message == "duplicate resource '"@ + res1.name@ + "'"@
                &&& d.span == res1.span
                &&& d.severity == Some(Severity::Error)
                &&& d.related == Seq::<RelatedView>::empty().push(RelatedView { message: "resource '"@ + res2.name@ + "' is already defined here"@, file: res2.file, span: res2.span })
                &&& d.notes == Seq::<Seq<char>>::empty()
                &&& d.tags == Seq::<Tag>::empty()
                &&& d.source == None::<Seq<char>>
                &&& d.fixes == Seq::<FixView>::empty()
            },
        },
{
}

} // verus!
