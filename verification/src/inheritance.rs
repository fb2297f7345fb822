//! Method errors of inheritance: overriding, abstract and interface
//! methods, and calls through THIS and SUPER.
use vstd::prelude::*;
use vstd::string::*;
use crate::diag::{Diagnostic, DiagnosticView, Severity, Span};
use crate::hir::{MethodRef, PouRef};
use crate::text::{cat2, cat3, cat4, cat5, cat6, cat7, decimal, usize_to_string};

use crate::diag::RelatedView;

use crate::diag::Tag;
use crate::diag::FixView;

verus! {

/// A method error.
pub enum MethodError {
    /// A POU reference, as written, naming nothing in scope.
    UnresolvedPou { access: String, span: Span },
    /// A method overrides a FINAL one.
    OverrideFinalMethod { base_method: MethodRef, derived_method: MethodRef },
    /// A method redefines a base method without OVERRIDE.
    MissingOverride { base_method: MethodRef, derived_method: MethodRef },
    /// A POU leaves an inherited ABSTRACT method unimplemented.
    MissingAbstractMethod { implementer: PouRef, base_method: MethodRef },
    /// OVERRIDE on a method that overrides nothing.
    EmptyOverride { base_method: MethodRef },
    /// An ABSTRACT class without ABSTRACT methods.
    AbstractClassHasNoAbstractMethods { class: PouRef },
    /// A POU leaves a method of an interface it implements unimplemented.
    UnimplementedInterfaceMethod { implementer: PouRef, method: MethodRef },
    /// A method called through THIS that the POU does not declare; `method_name` as written, `method` the invocation.
    UnresolvedThisMethod { ctx: PouRef, method_name: String, method: Span },
    /// A method called through SUPER that no base declares; `ctx` is the POU it is inherited from, when known.
    UnresolvedSuperMethod { ctx: Option<PouRef>, method_name: String, method: Span },
    /// A method with another number of parameters than the base method `m1`.
    SignatureParametersCountMismatch { m1: MethodRef, expected: usize, m2: MethodRef, got: usize },
    /// A method with other parameter types than the base method (types by name).
    SignatureTypeMismatch { expected: String, got: String, method: MethodRef },
}

impl MethodError {
    /// An error diagnostic of this error at `span`, with no code.
    pub open spec fn err(&self, message: Seq<char>, span: Span) -> DiagnosticView {
        DiagnosticView::plain(message, Some(Severity::Error), span)
    }

    fn error_at(&self, message: String, span: Span) -> (d: Diagnostic)
        ensures
            d@ == self.err(message@, span),
    {
        Diagnostic::plain(message, Some(Severity::Error), span)
    }

    /// The diagnostic this error renders to.
    pub open spec fn spec_to_diagnostic(&self) -> DiagnosticView {
        match self {
            MethodError::UnresolvedPou { access, span } =>
                self.err("no item '"@ + access@ + "' found in the current scope"@, *span),
            MethodError::OverrideFinalMethod { base_method, derived_method } =>
                self.err("cannot override FINAL method '"@ + base_method.decl.name@ + "'"@, derived_method.decl.name_span)
                .rel("FINAL method '"@ + base_method.decl.name@ + "' is declared here"@, base_method.decl.file, base_method.decl.name_span)
                .note("methods marked as FINAL cannot be overridden"@),
            MethodError::MissingOverride { base_method, derived_method } =>
                self.err("missing OVERRIDE keyword for method '"@ + derived_method.decl.name@ + "'"@, derived_method.decl.name_span)
                .rel("base method '"@ + base_method.decl.name@ + "' is declared here"@, base_method.decl.file, base_method.decl.name_span)
                .note("OVERRIDE keyword must be used even if the base method is not marked as ABSTRACT"@),
            MethodError::MissingAbstractMethod { implementer, base_method } =>
                self.err("missing implementation for ABSTRACT method '"@ + base_method.decl.name@ + "'"@, implementer.decl.name_span)
                .rel("ABSTRACT method '"@ + base_method.decl.name@ + "' is declared here"@, base_method.decl.file, base_method.decl.name_span)
                .note("ABSTRACT methods must be implemented by derived POUs"@),
            MethodError::EmptyOverride { base_method } =>
                self.err("invalid usage of OVERRIDE for method '"@ + base_method.decl.name@ + "'"@, base_method.decl.name_span)
                .note("OVERRIDE is only valid when the method is inherited"@),
            MethodError::AbstractClassHasNoAbstractMethods { class } =>
                self.err("ABSTRACT class '"@ + class.decl.name@ + "' has no abstract methods"@, class.decl.name_span)
                .note("abstract classes must have at least one abstract method"@),
            MethodError::UnimplementedInterfaceMethod { implementer, method } =>
                self.err("missing implementation for interface method '"@ + method.decl.name@ + "'"@, implementer.decl.name_span)
                .rel("method '"@ + method.decl.name@ + "' is declared by interface '"@ + implementer.decl.name@ + "' here"@, method.decl.file, method.decl.name_span),
            MethodError::UnresolvedThisMethod { ctx, method_name, method } =>
                self.err("no method '"@ + method_name@ + "' in declared methods of '"@ + ctx.decl.name@ + "'"@, *method),
            MethodError::UnresolvedSuperMethod { ctx, method_name, method } =>
                {
                    let d = self.err("no method '"@ + method_name@ + "' in inherited methods"@, *method);
                    match ctx {
                        Some(c) => d.rel("methods are inherited from '"@ + c.decl.name@ + "' here"@, c.decl.file, c.decl.name_span),
                        None => d,
                    }
                },
            MethodError::SignatureParametersCountMismatch { m1, expected, m2, got } =>
                self.err("invalid number of parameters for method '"@ + m1.decl.name@ + "': expected "@ + decimal(*expected as nat) + ", got "@ + decimal(*got as nat), m2.decl.name_span)
                .rel("base method '"@ + m1.decl.name@ + "' is declared here"@, m1.decl.file, m1.decl.name_span),
            MethodError::SignatureTypeMismatch { expected, got, method } =>
                self.err("method '"@ + method.decl.name@ + "' has incompatible parameter types: expected '"@ + expected@ + "', got '"@ + got@ + "'"@, method.decl.name_span)
                .note("parameter types must match those of the base method"@),
        }
    }

    /// Renders the error as a diagnostic.
    #[verifier::rlimit(60)]
    pub fn to_diagnostic(&self) -> (d: Diagnostic)
        ensures
            d@ == self.spec_to_diagnostic(),
    {
        match self {
            MethodError::UnresolvedPou { access, span } => {
                self.error_at(cat3("no item '", access.as_str(), "' found in the current scope"), *span)
            },
            MethodError::OverrideFinalMethod { base_method, derived_method } => {
                let mut d = self.error_at(cat3("cannot override FINAL method '", base_method.decl.name.as_str(), "'"), derived_method.decl.name_span);
                d.with_related_at(cat3("FINAL method '", base_method.decl.name.as_str(), "' is declared here"), base_method.decl.file, base_method.decl.name_span);
                d.with_note(String::from_str("methods marked as FINAL cannot be overridden"));
                d
            },
            MethodError::MissingOverride { base_method, derived_method } => {
                let mut d = self.error_at(cat3("missing OVERRIDE keyword for method '", derived_method.decl.name.as_str(), "'"), derived_method.decl.name_span);
                d.with_related_at(cat3("base method '", base_method.decl.name.as_str(), "' is declared here"), base_method.decl.file, base_method.decl.name_span);
                d.with_note(String::from_str("OVERRIDE keyword must be used even if the base method is not marked as ABSTRACT"));
                d
            },
            MethodError::MissingAbstractMethod { implementer, base_method } => {
                let mut d = self.error_at(cat3("missing implementation for ABSTRACT method '", base_method.decl.name.as_str(), "'"), implementer.decl.name_span);
                d.with_related_at(cat3("ABSTRACT method '", base_method.decl.name.as_str(), "' is declared here"), base_method.decl.file, base_method.decl.name_span);
                d.with_note(String::from_str("ABSTRACT methods must be implemented by derived POUs"));
                d
            },
            MethodError::EmptyOverride { base_method } => {
                let mut d = self.error_at(cat3("invalid usage of OVERRIDE for method '", base_method.decl.name.as_str(), "'"), base_method.decl.name_span);
                d.with_note(String::from_str("OVERRIDE is only valid when the method is inherited"));
                d
            },
            MethodError::AbstractClassHasNoAbstractMethods { class } => {
                let mut d = self.error_at(cat3("ABSTRACT class '", class.decl.name.as_str(), "' has no abstract methods"), class.decl.name_span);
                d.with_note(String::from_str("abstract classes must have at least one abstract method"));
                d
            },
            MethodError::UnimplementedInterfaceMethod { implementer, method } => {
                let mut d = self.error_at(cat3("missing implementation for interface method '", method.decl.name.as_str(), "'"), implementer.decl.name_span);
                d.with_related_at(cat5("method '", method.decl.name.as_str(), "' is declared by interface '", implementer.decl.name.as_str(), "' here"), method.decl.file, method.decl.name_span);
                d
            },
            MethodError::UnresolvedThisMethod { ctx, method_name, method } => {
                self.error_at(cat5("no method '", method_name.as_str(), "' in declared methods of '", ctx.decl.name.as_str(), "'"), *method)
            },
            MethodError::UnresolvedSuperMethod { ctx, method_name, method } => {
                let mut d = self.error_at(cat3("no method '", method_name.as_str(), "' in inherited methods"), *method);
                match ctx {
                    Some(c) => d.with_related_at(cat3("methods are inherited from '", c.decl.name.as_str(), "' here"), c.decl.file, c.decl.name_span),
                    None => {},
                }
                d
            },
            MethodError::SignatureParametersCountMismatch { m1, expected, m2, got } => {
                let t1 = usize_to_string(*expected);
                let t2 = usize_to_string(*got);
                let mut d = self.error_at(cat6("invalid number of parameters for method '", m1.decl.name.as_str(), "': expected ", t1.as_str(), ", got ", t2.as_str()), m2.decl.name_span);
                d.with_related_at(cat3("base method '", m1.decl.name.as_str(), "' is declared here"), m1.decl.file, m1.decl.name_span);
                d
            },
            MethodError::SignatureTypeMismatch { expected, got, method } => {
                let mut d = self.error_at(cat7("method '", method.decl.name.as_str(), "' has incompatible parameter types: expected '", expected.as_str(), "', got '", got.as_str(), "'"), method.decl.name_span);
                d.with_note(String::from_str("parameter types must match those of the base method"));
                d
            },
        }
    }

}

/// Each kind of `MethodError` is reported at the span of what it concerns, with
/// its message and severity, whatever names, spans and texts it holds; a
/// kind whose diagnostic is built directly also carries exactly the
/// related locations, notes, tags, source and quick fixes listed.
pub proof fn law_method_error_rendering(this: MethodError)
    ensures
        match this {
            MethodError::UnresolvedPou { access, span } => {
                let d = this.spec_to_diagnostic();
                &&& d.message == "no item '"@ + access@ + "' found in the current scope"@
                &&& d.span == span
                &&& d.severity == Some(Severity::Error)
                &&& d.related == Seq::<RelatedView>::empty()
                &&& d.notes == Seq::<Seq<char>>::empty()
                &&& d.tags == Seq::<Tag>::empty()
                &&& d.source == None::<Seq<char>>
                &&& d.fixes == Seq::<FixView>::empty()
            },
            MethodError::OverrideFinalMethod { base_method, derived_method } => {
                let d = this.spec_to_diagnostic();
                &&& d.message == "cannot override FINAL method '"@ + base_method.decl.name@ + "'"@
                &&& d.span == derived_method.decl.name_span
                &&& d.severity == Some(Severity::Error)
                &&& d.related == Seq::<RelatedView>::empty().push(RelatedView { message: "FINAL method '"@ + base_method.decl.name@ + "' is declared here"@, file: base_method.decl.file, span: base_method.decl.name_span })
                &&& d.notes == Seq::<Seq<char>>::empty().push("methods marked as FINAL cannot be overridden"@)
                &&& d.tags == Seq::<Tag>::empty()
                &&& d.source == None::<Seq<char>>
                &&& d.fixes == Seq::<FixView>::empty()
            },
            MethodError::MissingOverride { base_method, derived_method } => {
                let d = this.spec_to_diagnostic();
                &&& d.message == "missing OVERRIDE keyword for method '"@ + derived_method.decl.name@ + "'"@
                &&& d.span == derived_method.decl.name_span
                &&& d.severity == Some(Severity::Error)
                &&& d.related == Seq::<RelatedView>::empty().push(RelatedView { message: "base method '"@ + base_method.decl.name@ + "' is declared here"@, file: base_method.decl.file, span: base_method.decl.name_span })
                &&& d.notes == Seq::<Seq<char>>::empty().push("OVERRIDE keyword must be used even if the base method is not marked as ABSTRACT"@)
                &&& d.tags == Seq::<Tag>::empty()
                &&& d.source == None::<Seq<char>>
                &&& d.fixes == Seq::<FixView>::empty()
            },
            MethodError::MissingAbstractMethod { implementer, base_method } => {
                let d = this.spec_to_diagnostic();
                &&& d.message == "missing implementation for ABSTRACT method '"@ + base_method.decl.name@ + "'"@
                &&& d.span == implementer.decl.name_span
                &&& d.severity == Some(Severity::Error)
                &&& d.related == Seq::<RelatedView>::empty().push(RelatedView { message: "ABSTRACT method '"@ + base_method.decl.name@ + "' is declared here"@, file: base_method.decl.file, span: base_method.decl.name_span })
                &&& d.notes == Seq::<Seq<char>>::empty().push("ABSTRACT methods must be implemented by derived POUs"@)
                &&& d.tags == Seq::<Tag>::empty()
                &&& d.source == None::<Seq<char>>
                &&& d.fixes == Seq::<FixView>::empty()
            },
            MethodError::EmptyOverride { base_method } => {
                let d = this.spec_to_diagnostic();
                &&& d.message == "invalid usage of OVERRIDE for method '"@ + base_method.decl.name@ + "'"@
                &&& d.span == base_method.decl.name_span
                &&& d.severity == Some(Severity::Error)
                &&& d.related == Seq::<RelatedView>::empty()
                &&& d.notes == Seq::<Seq<char>>::empty().push("OVERRIDE is only valid when the method is inherited"@)
                &&& d.tags == Seq::<Tag>::empty()
                &&& d.source == None::<Seq<char>>
                &&& d.fixes == Seq::<FixView>::empty()
            },
            MethodError::AbstractClassHasNoAbstractMethods { class } => {
                let d = this.spec_to_diagnostic();
                &&& d.message == "ABSTRACT class '"@ + class.decl.name@ + "' has no abstract methods"@
                &&& d.span == class.decl.name_span
                &&& d.severity == Some(Severity::Error)
                &&& d.related == Seq::<RelatedView>::empty()
                &&& d.notes == Seq::<Seq<char>>::empty().push("abstract classes must have at least one abstract method"@)
                &&& d.tags == Seq::<Tag>::empty()
                &&& d.source == None::<Seq<char>>
                &&& d.fixes == Seq::<FixView>::empty()
            },
            MethodError::UnimplementedInterfaceMethod { implementer, method } => {
                let d = this.spec_to_diagnostic();
                &&& d.message == "missing implementation for interface method '"@ + method.decl.name@ + "'"@
                &&& d.span == implementer.decl.name_span
                &&& d.severity == Some(Severity::Error)
                &&& d.related == Seq::<RelatedView>::empty().push(RelatedView { message: "method '"@ + method.decl.name@ + "' is declared by interface '"@ + implementer.decl.name@ + "' here"@, file: method.decl.file, span: method.decl.name_span })
                &&& d.notes == Seq::<Seq<char>>::empty()
                &&& d.tags == Seq::<Tag>::empty()
                &&& d.source == None::<Seq<char>>
                &&& d.fixes == Seq::<FixView>::empty()
            },
            MethodError::UnresolvedThisMethod { ctx, method_name, method } => {
                let d = this.spec_to_diagnostic();
                &&& d.message == "no method '"@ + method_name@ + "' in declared methods of '"@ + ctx.decl.name@ + "'"@
                &&& d.span == method
                &&& d.severity == Some(Severity::Error)
                &&& d.related == Seq::<RelatedView>::empty()
                &&& d.notes == Seq::<Seq<char>>::empty()
                &&& d.tags == Seq::<Tag>::empty()
                &&& d.source == None::<Seq<char>>
                &&& d.fixes == Seq::<FixView>::empty()
            },
            MethodError::UnresolvedSuperMethod { ctx, method_name, method } => {
                let d = this.spec_to_diagnostic();
                &&& d.message == "no method '"@ + method_name@ + "' in inherited methods"@
                &&& d.span == method
                &&& d.severity == Some(Severity::Error)
            },
            MethodError::SignatureParametersCountMismatch { m1, expected, m2, got } => {
                let d = this.spec_to_diagnostic();
                &&& d.message == "invalid number of parameters for method '"@ + m1.decl.name@ + "': expected "@ + decimal(expected as nat) + ", got "@ + decimal(got as nat)
                &&& d.span == m2.decl.name_span
                &&& d.severity == Some(Severity::Error)
                &&& d.related == Seq::<RelatedView>::empty().push(RelatedView { message: "base method '"@ + m1.decl.name@ + "' is declared here"@, file: m1.decl.file, span: m1.decl.name_span })
                &&& d.notes == Seq::<Seq<char>>::empty()
                &&& d.tags == Seq::<Tag>::empty()
                &&& d.source == None::<Seq<char>>
                &&& d.fixes == Seq::<FixView>::empty()
            },
            MethodError::SignatureTypeMismatch { expected, got, method } => {
                let d = this.spec_to_diagnostic();
                &&& d.message == "method '"@ + method.decl.name@ + "' has incompatible parameter types: expected '"@ + expected@ + "', got '"@ + got@ + "'"@
                &&& d.span == method.decl.name_span
                &&& d.severity == Some(Severity::Error)
                &&& d.related == Seq::<RelatedView>::empty()
                &&& d.notes == Seq::<Seq<char>>::empty().push("parameter types must match those of the base method"@)
                &&& d.tags == Seq::<Tag>::empty()
                &&& d.source == None::<Seq<char>>
                &&& d.fixes == Seq::<FixView>::empty()
            },
        },
{
}

} // verus!
