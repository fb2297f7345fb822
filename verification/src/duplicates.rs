//! Duplicate definitions, as reported without a code.
use vstd::prelude::*;
use vstd::string::*;
use crate::diag::{Diagnostic, DiagnosticView, Severity, Span};
use crate::e01_duplicates::InheritedMethod;
use crate::hir::{MethodRef, Named, Var};
use crate::text::{cat2, cat3, cat4, cat5, cat6, cat7};

use crate::diag::RelatedView;

use crate::diag::Tag;
use crate::diag::FixView;

verus! {

/// A duplicate definition.
pub enum DuplicateError {
    /// A POU declared twice; `pou2` is the earlier one.
    Pou { pou1: Named, pou2: Named },
    /// A variable declared twice; `var2` is the earlier one.
    Variable { var1: Var, var2: Var },
    /// An enum variant declared twice.
    EnumVariant { variant1: Named, variant2: Named },
    /// A STRUCT field declared twice.
    StructField { field1: Named, field2: Named },
    /// A method declared twice.
    MethodDecl { method1: MethodRef, method2: MethodRef },
    /// A method prototype declared twice.
    MethodProt { method1: MethodRef, method2: MethodRef },
    /// Two interfaces a POU implements declare a method of one name.
    InheritedMethod { method1: InheritedMethod, method2: InheritedMethod },
}

impl DuplicateError {
    /// An error diagnostic of this error at `span`, with no code.
    pub open spec fn err(&self, message: Seq<char>, span: Span) -> DiagnosticView {
        DiagnosticView::plain(message, Some(Severity::Error), span)
    }

    fn error_at(&self, message: String, span: Span) -> (d: Diagnostic)
        ensures
            d@ == self.err(message@, span),
    {
        Diagnostic::plain(message, Some(Severity::Error), span)
    }

    /// The diagnostic this error renders to.
    pub open spec fn spec_to_diagnostic(&self) -> DiagnosticView {
        match self {
            DuplicateError::Pou { pou1, pou2 } =>
                self.err("duplicate POU '"@ + pou1.name@ + "'"@, pou1.name_span)
                .rel("POU '"@ + pou2.name@ + "' is already defined here"@, pou2.file, pou2.name_span),
            DuplicateError::Variable { var1, var2 } =>
                self.err("duplicate variable '"@ + var1.decl.name@ + "'"@, var1.decl.name_span)
                .rel("variable '"@ + var2.decl.name@ + "' is already defined here"@, var2.decl.file, var2.decl.name_span),
            DuplicateError::EnumVariant { variant1, variant2 } =>
                self.err("duplicate enum variant '"@ + variant1.name@ + "'"@, variant1.span)
                .rel("enum variant '"@ + variant2.name@ + "' is already defined here"@, variant2.file, variant2.span),
            DuplicateError::StructField { field1, field2 } =>
                self.err("duplicate field '"@ + field1.name@ + "'"@, field1.name_span)
                .rel("field '"@ + field2.name@ + "' is already defined here"@, field2.file, field2.name_span),
            DuplicateError::MethodDecl { method1, method2 } =>
                self.err("duplicate method '"@ + method1.decl.name@ + "'"@, method1.decl.name_span)
                .rel("method '"@ + method2.decl.name@ + "' is already defined here"@, method2.decl.file, method2.decl.name_span),
            DuplicateError::MethodProt { method1, method2 } =>
                self.err("duplicate method '"@ + method1.decl.name@ + "'"@, method1.decl.name_span)
                .rel("method '"@ + method2.decl.name@ + "' is already defined here"@, method2.decl.file, method2.decl.name_span),
            DuplicateError::InheritedMethod { method1, method2 } =>
                self.err("duplicate method '"@ + method1.method.decl.name@ + "'"@, method1.method.decl.name_span)
                .rel("method '"@ + method2.method.decl.name@ + "' is already defined here"@, method2.method.decl.file, method2.method.decl.name_span)
                .note("this error happens because both interfaces '"@ + method1.source.name@ + "' and '"@ + method2.source.name@ + "' define a method '"@ + method1.method.decl.name@ + "'"@),
        }
    }

    /// Renders the error as a diagnostic.
    #[verifier::rlimit(60)]
    pub fn to_diagnostic(&self) -> (d: Diagnostic)
        ensures
            d@ == self.spec_to_diagnostic(),
    {
        match self {
            DuplicateError::Pou { pou1, pou2 } => {
                let mut d = self.error_at(cat3("duplicate POU '", pou1.name.as_str(), "'"), pou1.name_span);
                d.with_related_at(cat3("POU '", pou2.name.as_str(), "' is already defined here"), pou2.file, pou2.name_span);
                d
            },
            DuplicateError::Variable { var1, var2 } => {
                let mut d = self.error_at(cat3("duplicate variable '", var1.decl.name.as_str(), "'"), var1.decl.name_span);
                d.with_related_at(cat3("variable '", var2.decl.name.as_str(), "' is already defined here"), var2.decl.file, var2.decl.name_span);
                d
            },
            DuplicateError::EnumVariant { variant1, variant2 } => {
                let mut d = self.error_at(cat3("duplicate enum variant '", variant1.name.as_str(), "'"), variant1.span);
                d.with_related_at(cat3("enum variant '", variant2.name.as_str(), "' is already defined here"), variant2.file, variant2.span);
                d
            },
            DuplicateError::StructField { field1, field2 } => {
                let mut d = self.error_at(cat3("duplicate field '", field1.name.as_str(), "'"), field1.name_span);
                d.with_related_at(cat3("field '", field2.name.as_str(), "' is already defined here"), field2.file, field2.name_span);
                d
            },
            DuplicateError::MethodDecl { method1, method2 } => {
                let mut d = self.error_at(cat3("duplicate method '", method1.decl.name.as_str(), "'"), method1.decl.name_span);
                d.with_related_at(cat3("method '", method2.decl.name.as_str(), "' is already defined here"), method2.decl.file, method2.decl.name_span);
                d
            },
            DuplicateError::MethodProt { method1, method2 } => {
                let mut d = self.error_at(cat3("duplicate method '", method1.decl.name.as_str(), "'"), method1.decl.name_span);
                d.with_related_at(cat3("method '", method2.decl.name.as_str(), "' is already defined here"), method2.decl.file, method2.decl.name_span);
                d
            },
            DuplicateError::InheritedMethod { method1, method2 } => {
                let mut d = self.error_at(cat3("duplicate method '", method1.method.decl.name.as_str(), "'"), method1.method.decl.name_span);
                d.with_related_at(cat3("method '", method2.method.decl.name.as_str(), "' is already defined here"), method2.method.decl.file, method2.method.decl.name_span);
                d.with_note(cat7("this error happens because both interfaces '", method1.source.name.as_str(), "' and '", method2.source.name.as_str(), "' define a method '", method1.method.decl.name.as_str(), "'"));
                d
            },
        }
    }

}

/// Each kind of `DuplicateError` is reported at the span of what it concerns, with
/// its message and severity, whatever names, spans and texts it holds; a
/// kind whose diagnostic is built directly also carries exactly the
/// related locations, notes, tags, source and quick fixes listed.
pub proof fn law_duplicate_error_rendering(this: DuplicateError)
    ensures
        match this {
            DuplicateError::Pou { pou1, pou2 } => {
                let d = this.spec_to_diagnostic();
                &&& d.message == "duplicate POU '"@ + pou1.name@ + "'"@
                &&& d.span == pou1.name_span
                &&& d.severity == Some(Severity::Error)
                &&& d.related == Seq::<RelatedView>::empty().push(RelatedView { message: "POU '"@ + pou2.name@ + "' is already defined here"@, file: pou2.file, span: pou2.name_span })
                &&& d.notes == Seq::<Seq<char>>::empty()
                &&& d.tags == Seq::<Tag>::empty()
                &&& d.source == None::<Seq<char>>
                &&& d.fixes == Seq::<FixView>::empty()
            },
            DuplicateError::Variable { var1, var2 } => {
                let d = this.spec_to_diagnostic();
                &&& d.message == "duplicate variable '"@ + var1.decl.name@ + "'"@
                &&& d.span == var1.decl.name_span
                &&& d.severity == Some(Severity::Error)
                &&& d.related == Seq::<RelatedView>::empty().push(RelatedView { message: "variable '"@ + var2.decl.name@ + "' is already defined here"@, file: var2.decl.file, span: var2.decl.name_span })
                &&& d.notes == Seq::<Seq<char>>::empty()
                &&& d.tags == Seq::<Tag>::empty()
                &&& d.source == None::<Seq<char>>
                &&& d.fixes == Seq::<FixView>::empty()
            },
            DuplicateError::EnumVariant { variant1, variant2 } => {
                let d = this.spec_to_diagnostic();
                &&& d.message == "duplicate enum variant '"@ + variant1.name@ + "'"@
                &&& d.span == variant1.span
                &&& d.severity == Some(Severity::Error)
                &&& d.related == Seq::<RelatedView>::empty().push(RelatedView { message: "enum variant '"@ + variant2.name@ + "' is already defined here"@, file: variant2.file, span: variant2.span })
                &&& d.notes == Seq::<Seq<char>>::empty()
                &&& d.tags == Seq::<Tag>::empty()
                &&& d.source == None::<Seq<char>>
                &&& d.fixes == Seq::<FixView>::empty()
            },
            DuplicateError::StructField { field1, field2 } => {
                let d = this.spec_to_diagnostic();
                &&& d.message == "duplicate field '"@ + field1.name@ + "'"@
                &&& d.span == field1.name_span
                &&& d.severity == Some(Severity::Error)
                &&& d.related == Seq::<RelatedView>::empty().push(RelatedView { message: "field '"@ + field2.name@ + "' is already defined here"@, file: field2.file, span: field2.name_span })
                &&& d.notes == Seq::<Seq<char>>::empty()
                &&& d.tags == Seq::<Tag>::empty()
                &&& d.source == None::<Seq<char>>
                &&& d.fixes == Seq::<FixView>::empty()
            },
            DuplicateError::MethodDecl { method1, method2 } => {
                let d = this.spec_to_diagnostic();
                &&& d.message == "duplicate method '"@ + method1.decl.name@ + "'"@
                &&& d.span == method1.decl.name_span
                &&& d.severity == Some(Severity::Error)
                &&& d.related == Seq::<RelatedView>::empty().push(RelatedView { message: "method '"@ + method2.decl.name@ + "' is already defined here"@, file: method2.decl.file, span: method2.decl.name_span })
                &&& d.notes == Seq::<Seq<char>>::empty()
                &&& d.tags == Seq::<Tag>::empty()
                &&& d.source == None::<Seq<char>>
                &&& d.fixes == Seq::<FixView>::empty()
            },
            DuplicateError::MethodProt { method1, method2 } => {
                let d = this.spec_to_diagnostic();
                &&& d.message == "duplicate method '"@ + method1.decl.name@ + "'"@
                &&& d.span == method1.decl.name_span
                &&& d.severity == Some(Severity::Error)
                &&& d.related == Seq::<RelatedView>::empty().push(RelatedView { message: "method '"@ + method2.decl.name@ + "' is already defined here"@, file: method2.decl.file, span: method2.decl.name_span })
                &&& d.notes == Seq::<Seq<char>>::empty()
                &&& d.tags == Seq::<Tag>::empty()
                &&& d.source == None::<Seq<char>>
                &&& d.fixes == Seq::<FixView>::empty()
            },
            DuplicateError::InheritedMethod { method1, method2 } => {
                let d = this.spec_to_diagnostic();
                &&& d.message == "duplicate method '"@ + method1.method.decl.name@ + "'"@
                &&& d.span == method1.method.decl.name_span
                &&& d.severity == Some(Severity::Error)
                &&& d.related == Seq::<RelatedView>::empty().push(RelatedView { message: "method '"@ + method2.method.decl.name@ + "' is already defined here"@, file: method2.method.decl.file, span: method2.method.decl.name_span })
                &&& d.notes == Seq::<Seq<char>>::empty().push("this error happens because both interfaces '"@ + method1.source.name@ + "' and '"@ + method2.source.name@ + "' define a method '"@ + method1.method.decl.name@ + "'"@)
                &&& d.tags == Seq::<Tag>::empty()
                &&& d.source == None::<Seq<char>>
                &&& d.fixes == Seq::<FixView>::empty()
            },
        },
{
}

} // verus!
