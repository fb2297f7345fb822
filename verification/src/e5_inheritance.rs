//! E05xx (earlier numbering): inheritance errors.
use vstd::prelude::*;
use vstd::string::*;
use crate::diag::{Diagnostic, DiagnosticView, FileId, Span};
use crate::e11_oop::{section_keyword, spec_section_keyword};
use crate::hir::{MethodRef, Named, PouRef, Var};
use crate::text::{cat2, cat3, cat4, cat5, cat6, cat7, decimal, usize_to_string};

use crate::diag::RelatedView;
use crate::diag::Severity;

use crate::diag::Tag;
use crate::diag::FixView;

verus! {

/// An inheritance error.
pub enum InheritanceError {
    /// `SUPER()` where there is no base body.
    SuperBodyOnIncompatiblePou { call_site: Span },
    /// SUPER where there is no instance.
    SuperOnIncompatiblePou { call_site: Span },
    /// THIS where there is no instance.
    ThisOnIncompatiblePou { call_site: Span },
    /// A method overrides a FINAL one.
    OverrideFinalMethod { base_method: MethodRef, derived_method: MethodRef },
    /// A method redefines a base method without OVERRIDE.
    MissingOverride { base_method: MethodRef, derived_method: MethodRef },
    /// A POU leaves an inherited ABSTRACT method unimplemented.
    MissingAbstractMethod { implementer: PouRef, base_method: MethodRef },
    /// OVERRIDE on a method that overrides nothing.
    EmptyOverride { base_method: MethodRef },
    /// An ABSTRACT class without ABSTRACT methods.
    AbstractClassHasNoAbstractMethods { class: PouRef },
    /// A POU leaves a method of an interface it implements unimplemented.
    UnimplementedInterfaceMethod { implementer: PouRef, method: MethodRef },
    /// A method called through THIS that the POU does not declare; `method_name` as written, `method` the invocation.
    UnresolvedThisMethod { ctx: PouRef, method_name: String, method: Span },
    /// A method called through SUPER that no base declares; `ctx` is the POU it is inherited from, when known.
    UnresolvedSuperMethod { ctx: Option<PouRef>, method_name: String, method: Span },
    /// A method with another number of parameters than the base method `m1`.
    SignatureParametersCountMismatch { m1: MethodRef, expected: usize, m2: MethodRef, got: usize },
    /// A method with other parameter types than the base method (types by name).
    SignatureTypeMismatch { expected: String, got: String, method: MethodRef },
    /// SUPER in a POU that extends nothing.
    SuperButNoExtends { pou: PouRef, call_site: Span },
    /// An interface type in a section other than VAR_INPUT or VAR_IN_OUT.
    InterfaceOnlyAllowedAsParam { var: Var, interface: Named },
    /// An interface as a return type.
    InterfaceNotAllowedInReturn { interface: Named, spec_span: Span },
    /// An interface inside an array, reference or struct type.
    InterfaceNotAllowedNested { interface: Named, spec_span: Span },
    /// An assignment to an interface parameter.
    InterfaceParamNotAssignable { var: Var, access: Span },
    /// `SUPER()` inside a METHOD.
    SuperBodyInMethod { call_site: Span },
    /// A second `SUPER()` in a function block body; `first` is the first one.
    SuperBodyMultiple { call_site: Span, first: Span },
    /// `SUPER()` inside a loop.
    SuperBodyInLoop { call_site: Span },
    /// A derived POU redeclares a variable it inherits.
    InheritedMemberShadowed { derived: Var, base: Var },
}

impl InheritanceError {
    pub open spec fn spec_code(&self) -> Seq<char> {
        match self {
            InheritanceError::SuperBodyOnIncompatiblePou { .. } => "E0501"@,
            InheritanceError::SuperOnIncompatiblePou { .. } => "E0502"@,
            InheritanceError::ThisOnIncompatiblePou { .. } => "E0503"@,
            InheritanceError::OverrideFinalMethod { .. } => "E0504"@,
            InheritanceError::MissingOverride { .. } => "E0505"@,
            InheritanceError::MissingAbstractMethod { .. } => "E0506"@,
            InheritanceError::EmptyOverride { .. } => "E0507"@,
            InheritanceError::AbstractClassHasNoAbstractMethods { .. } => "E0508"@,
            InheritanceError::UnimplementedInterfaceMethod { .. } => "E0509"@,
            InheritanceError::UnresolvedThisMethod { .. } => "E0510"@,
            InheritanceError::UnresolvedSuperMethod { .. } => "E0511"@,
            InheritanceError::SignatureParametersCountMismatch { .. } => "E0512"@,
            InheritanceError::SignatureTypeMismatch { .. } => "E0512"@,
            InheritanceError::SuperButNoExtends { .. } => "E0513"@,
            InheritanceError::InterfaceOnlyAllowedAsParam { .. } => "E0514"@,
            InheritanceError::InterfaceNotAllowedInReturn { .. } => "E0515"@,
            InheritanceError::InterfaceNotAllowedNested { .. } => "E0516"@,
            InheritanceError::InterfaceParamNotAssignable { .. } => "E0517"@,
            InheritanceError::SuperBodyInMethod { .. } => "E0518"@,
            InheritanceError::SuperBodyMultiple { .. } => "E0519"@,
            InheritanceError::SuperBodyInLoop { .. } => "E0520"@,
            InheritanceError::InheritedMemberShadowed { .. } => "E0521"@,
        }
    }

    /// The stable code of the error.
    pub fn code(&self) -> (r: &'static str)
        ensures
            r@ == self.spec_code(),
    {
        match self {
            InheritanceError::SuperBodyOnIncompatiblePou { .. } => "E0501",
            InheritanceError::SuperOnIncompatiblePou { .. } => "E0502",
            InheritanceError::ThisOnIncompatiblePou { .. } => "E0503",
            InheritanceError::OverrideFinalMethod { .. } => "E0504",
            InheritanceError::MissingOverride { .. } => "E0505",
            InheritanceError::MissingAbstractMethod { .. } => "E0506",
            InheritanceError::EmptyOverride { .. } => "E0507",
            InheritanceError::AbstractClassHasNoAbstractMethods { .. } => "E0508",
            InheritanceError::UnimplementedInterfaceMethod { .. } => "E0509",
            InheritanceError::UnresolvedThisMethod { .. } => "E0510",
            InheritanceError::UnresolvedSuperMethod { .. } => "E0511",
            InheritanceError::SignatureParametersCountMismatch { .. } => "E0512",
            InheritanceError::SignatureTypeMismatch { .. } => "E0512",
            InheritanceError::SuperButNoExtends { .. } => "E0513",
            InheritanceError::InterfaceOnlyAllowedAsParam { .. } => "E0514",
            InheritanceError::InterfaceNotAllowedInReturn { .. } => "E0515",
            InheritanceError::InterfaceNotAllowedNested { .. } => "E0516",
            InheritanceError::InterfaceParamNotAssignable { .. } => "E0517",
            InheritanceError::SuperBodyInMethod { .. } => "E0518",
            InheritanceError::SuperBodyMultiple { .. } => "E0519",
            InheritanceError::SuperBodyInLoop { .. } => "E0520",
            InheritanceError::InheritedMemberShadowed { .. } => "E0521",
        }
    }

    pub open spec fn spec_description(&self) -> Seq<char> {
        match self {
            InheritanceError::SuperBodyOnIncompatiblePou { .. } => "invalid use of SUPER or THIS"@,
            InheritanceError::SuperOnIncompatiblePou { .. } => "invalid use of SUPER or THIS"@,
            InheritanceError::ThisOnIncompatiblePou { .. } => "invalid use of SUPER or THIS"@,
            InheritanceError::OverrideFinalMethod { .. } => "override violation"@,
            InheritanceError::MissingOverride { .. } => "override violation"@,
            InheritanceError::MissingAbstractMethod { .. } => "inheritance violation"@,
            InheritanceError::EmptyOverride { .. } => "inheritance violation"@,
            InheritanceError::AbstractClassHasNoAbstractMethods { .. } => "inheritance violation"@,
            InheritanceError::UnimplementedInterfaceMethod { .. } => "inheritance violation"@,
            InheritanceError::UnresolvedThisMethod { .. } => "unresolved method in inheritance context"@,
            InheritanceError::UnresolvedSuperMethod { .. } => "unresolved method in inheritance context"@,
            InheritanceError::SignatureParametersCountMismatch { .. } => "method signature mismatch"@,
            InheritanceError::SignatureTypeMismatch { .. } => "method signature mismatch"@,
            InheritanceError::SuperButNoExtends { .. } => "invalid use of SUPER or THIS"@,
            InheritanceError::InterfaceOnlyAllowedAsParam { .. } => "interface type not allowed here"@,
            InheritanceError::InterfaceNotAllowedInReturn { .. } => "interface type not allowed here"@,
            InheritanceError::InterfaceNotAllowedNested { .. } => "interface type not allowed here"@,
            InheritanceError::InterfaceParamNotAssignable { .. } => "interface parameter is not assignable"@,
            InheritanceError::SuperBodyInMethod { .. } => "invalid use of SUPER or THIS"@,
            InheritanceError::SuperBodyMultiple { .. } => "invalid use of SUPER or THIS"@,
            InheritanceError::SuperBodyInLoop { .. } => "invalid use of SUPER or THIS"@,
            InheritanceError::InheritedMemberShadowed { .. } => "inheritance violation"@,
        }
    }

    /// The short description of the error's kind.
    pub fn description(&self) -> (r: &'static str)
        ensures
            r@ == self.spec_description(),
    {
        match self {
            InheritanceError::SuperBodyOnIncompatiblePou { .. } => "invalid use of SUPER or THIS",
            InheritanceError::SuperOnIncompatiblePou { .. } => "invalid use of SUPER or THIS",
            InheritanceError::ThisOnIncompatiblePou { .. } => "invalid use of SUPER or THIS",
            InheritanceError::OverrideFinalMethod { .. } => "override violation",
            InheritanceError::MissingOverride { .. } => "override violation",
            InheritanceError::MissingAbstractMethod { .. } => "inheritance violation",
            InheritanceError::EmptyOverride { .. } => "inheritance violation",
            InheritanceError::AbstractClassHasNoAbstractMethods { .. } => "inheritance violation",
            InheritanceError::UnimplementedInterfaceMethod { .. } => "inheritance violation",
            InheritanceError::UnresolvedThisMethod { .. } => "unresolved method in inheritance context",
            InheritanceError::UnresolvedSuperMethod { .. } => "unresolved method in inheritance context",
            InheritanceError::SignatureParametersCountMismatch { .. } => "method signature mismatch",
            InheritanceError::SignatureTypeMismatch { .. } => "method signature mismatch",
            InheritanceError::SuperButNoExtends { .. } => "invalid use of SUPER or THIS",
            InheritanceError::InterfaceOnlyAllowedAsParam { .. } => "interface type not allowed here",
            InheritanceError::InterfaceNotAllowedInReturn { .. } => "interface type not allowed here",
            InheritanceError::InterfaceNotAllowedNested { .. } => "interface type not allowed here",
            InheritanceError::InterfaceParamNotAssignable { .. } => "interface parameter is not assignable",
            InheritanceError::SuperBodyInMethod { .. } => "invalid use of SUPER or THIS",
            InheritanceError::SuperBodyMultiple { .. } => "invalid use of SUPER or THIS",
            InheritanceError::SuperBodyInLoop { .. } => "invalid use of SUPER or THIS",
            InheritanceError::InheritedMemberShadowed { .. } => "inheritance violation",
        }
    }

    /// An error diagnostic of this error at `span`.
    pub open spec fn err(&self, message: Seq<char>, span: Span) -> DiagnosticView {
        DiagnosticView::error(message, self.spec_code(), self.spec_description(), span)
    }

    fn error_at(&self, message: String, span: Span) -> (d: Diagnostic)
        ensures
            d@ == self.err(message@, span),
    {
        Diagnostic::error(message, self.code(), self.description(), span)
    }

    /// The diagnostic this error renders to.
    pub open spec fn spec_to_diagnostic(&self, file: FileId) -> DiagnosticView {
        match self {
            InheritanceError::SuperBodyOnIncompatiblePou { call_site } =>
                self.err("'SUPER()' is not valid in this context"@, *call_site),
            InheritanceError::SuperOnIncompatiblePou { call_site } =>
                self.err("'SUPER' is not valid in this context"@, *call_site),
            InheritanceError::ThisOnIncompatiblePou { call_site } =>
                self.err("'THIS' is not valid in this context"@, *call_site),
            InheritanceError::OverrideFinalMethod { base_method, derived_method } =>
                self.err("cannot override FINAL method '"@ + base_method.decl.name@ + "'"@, derived_method.decl.name_span)
                .rel("FINAL method '"@ + base_method.decl.name@ + "' is declared here"@, base_method.decl.file, base_method.decl.name_span)
                .note("methods marked as FINAL cannot be overridden"@),
            InheritanceError::MissingOverride { base_method, derived_method } =>
                self.err("missing OVERRIDE keyword for method '"@ + derived_method.decl.name@ + "'"@, derived_method.decl.name_span)
                .rel("base method '"@ + base_method.decl.name@ + "' is declared here"@, base_method.decl.file, base_method.decl.name_span)
                .note("OVERRIDE is required when redefining a method with the same signature from a base class or function block"@),
            InheritanceError::MissingAbstractMethod { implementer, base_method } =>
                self.err("missing implementation for ABSTRACT method '"@ + base_method.decl.name@ + "'"@, implementer.decl.name_span)
                .rel("ABSTRACT method '"@ + base_method.decl.name@ + "' is declared here"@, base_method.decl.file, base_method.decl.name_span)
                .note("ABSTRACT methods must be implemented by derived POUs"@),
            InheritanceError::EmptyOverride { base_method } =>
                self.err("invalid usage of OVERRIDE for method '"@ + base_method.decl.name@ + "'"@, base_method.decl.name_span)
                .note("OVERRIDE is only valid when the method is inherited"@),
            InheritanceError::AbstractClassHasNoAbstractMethods { class } =>
                self.err("ABSTRACT class '"@ + class.decl.name@ + "' has no abstract methods"@, class.decl.name_span)
                .note("abstract classes must have at least one abstract method"@),
            InheritanceError::UnimplementedInterfaceMethod { implementer, method } =>
                self.err("missing implementation for interface method '"@ + method.decl.name@ + "'"@, implementer.decl.name_span)
                .rel("method '"@ + method.decl.name@ + "' is declared by interface '"@ + implementer.decl.name@ + "' here"@, method.decl.file, method.decl.name_span),
            InheritanceError::UnresolvedThisMethod { ctx, method_name, method } =>
                self.err("no method '"@ + method_name@ + "' in declared methods of '"@ + ctx.decl.name@ + "'"@, *method),
            InheritanceError::UnresolvedSuperMethod { ctx, method_name, method } =>
                {
                    let d = self.err("no method '"@ + method_name@ + "' in inherited methods"@, *method);
                    match ctx {
                        Some(c) => d.rel("methods are inherited from '"@ + c.decl.name@ + "' here"@, c.decl.file, c.decl.name_span),
                        None => d,
                    }
                },
            InheritanceError::SignatureParametersCountMismatch { m1, expected, m2, got } =>
                self.err("invalid number of parameters for method '"@ + m1.decl.name@ + "': expected "@ + decimal(*expected as nat) + ", got "@ + decimal(*got as nat), m2.decl.name_span)
                .rel("base method '"@ + m1.decl.name@ + "' is declared here"@, m1.decl.file, m1.decl.name_span),
            InheritanceError::SignatureTypeMismatch { expected, got, method } =>
                self.err("method '"@ + method.decl.name@ + "' has incompatible parameter types: expected '"@ + expected@ + "', got '"@ + got@ + "'"@, method.decl.name_span)
                .note("parameter types must match those of the base method"@),
            InheritanceError::SuperButNoExtends { pou, call_site } =>
                self.err("'SUPER' used but no EXTENDS clause found on '"@ + pou.decl.name@ + "'"@, *call_site),
            InheritanceError::InterfaceOnlyAllowedAsParam { var, interface } =>
                self.err("interface type '"@ + interface.name@ + "' is not allowed in "@ + spec_section_keyword(var.kind), var.decl.name_span)
                .rel("interface '"@ + interface.name@ + "' is defined here"@, interface.file, interface.name_span)
                .note("interfaces are supported only as VAR_INPUT or VAR_IN_OUT parameters"@),
            InheritanceError::InterfaceNotAllowedInReturn { interface, spec_span } =>
                self.err("interface type '"@ + interface.name@ + "' is not allowed as a return type"@, *spec_span)
                .rel("interface '"@ + interface.name@ + "' is defined here"@, interface.file, interface.name_span)
                .note("interfaces are supported only as VAR_INPUT or VAR_IN_OUT parameters"@),
            InheritanceError::InterfaceNotAllowedNested { interface, spec_span } =>
                self.err("interface type '"@ + interface.name@ + "' cannot be nested inside another type (array, reference, or struct)"@, *spec_span)
                .rel("interface '"@ + interface.name@ + "' is defined here"@, interface.file, interface.name_span)
                .note("an interface may only appear directly as a VAR_INPUT or VAR_IN_OUT parameter"@),
            InheritanceError::InterfaceParamNotAssignable { var, access } =>
                self.err("cannot assign to interface parameter '"@ + var.decl.name@ + "'"@, *access)
                .rel("interface parameter '"@ + var.decl.name@ + "' is declared here"@, var.decl.file, var.decl.name_span)
                .note("an interface parameter is a fixed binding to the concrete type passed by the caller; it can be used (methods called, passed on) but not reassigned"@),
            InheritanceError::SuperBodyInMethod { call_site } =>
                self.err("'SUPER()' cannot be called in a method of a function block"@, *call_site)
                .note("SUPER() is only valid in the function block body, not in a method"@),
            InheritanceError::SuperBodyMultiple { call_site, first } =>
                self.err("'SUPER()' may only be called once in a function block body"@, *call_site)
                .rel("'SUPER()' is already called here"@, file, *first),
            InheritanceError::SuperBodyInLoop { call_site } =>
                self.err("'SUPER()' cannot be called inside a loop"@, *call_site),
            InheritanceError::InheritedMemberShadowed { derived, base } =>
                self.err("variable '"@ + derived.decl.name@ + "' is already declared in a base function block"@, derived.decl.name_span)
                .rel("inherited variable '"@ + derived.decl.name@ + "' is declared here"@, base.decl.file, base.decl.name_span)
                .note("variable names in a base and derived function block must be unique"@),
        }
    }

    /// Renders the error as a diagnostic.
    #[verifier::rlimit(60)]
    pub fn to_diagnostic(&self, file: FileId) -> (d: Diagnostic)
        ensures
            d@ == self.spec_to_diagnostic(file),
    {
        match self {
            InheritanceError::SuperBodyOnIncompatiblePou { call_site } => {
                self.error_at(String::from_str("'SUPER()' is not valid in this context"), *call_site)
            },
            InheritanceError::SuperOnIncompatiblePou { call_site } => {
                self.error_at(String::from_str("'SUPER' is not valid in this context"), *call_site)
            },
            InheritanceError::ThisOnIncompatiblePou { call_site } => {
                self.error_at(String::from_str("'THIS' is not valid in this context"), *call_site)
            },
            InheritanceError::OverrideFinalMethod { base_method, derived_method } => {
                let mut d = self.error_at(cat3("cannot override FINAL method '", base_method.decl.name.as_str(), "'"), derived_method.decl.name_span);
                d.with_related_at(cat3("FINAL method '", base_method.decl.name.as_str(), "' is declared here"), base_method.decl.file, base_method.decl.name_span);
                d.with_note(String::from_str("methods marked as FINAL cannot be overridden"));
                d
            },
            InheritanceError::MissingOverride { base_method, derived_method } => {
                let mut d = self.error_at(cat3("missing OVERRIDE keyword for method '", derived_method.decl.name.as_str(), "'"), derived_method.decl.name_span);
                d.with_related_at(cat3("base method '", base_method.decl.name.as_str(), "' is declared here"), base_method.decl.file, base_method.decl.name_span);
                d.with_note(String::from_str("OVERRIDE is required when redefining a method with the same signature from a base class or function block"));
                d
            },
            InheritanceError::MissingAbstractMethod { implementer, base_method } => {
                let mut d = self.error_at(cat3("missing implementation for ABSTRACT method '", base_method.decl.name.as_str(), "'"), implementer.decl.name_span);
                d.with_related_at(cat3("ABSTRACT method '", base_method.decl.name.as_str(), "' is declared here"), base_method.decl.file, base_method.decl.name_span);
                d.with_note(String::from_str("ABSTRACT methods must be implemented by derived POUs"));
                d
            },
            InheritanceError::EmptyOverride { base_method } => {
                let mut d = self.error_at(cat3("invalid usage of OVERRIDE for method '", base_method.decl.name.as_str(), "'"), base_method.decl.name_span);
                d.with_note(String::from_str("OVERRIDE is only valid when the method is inherited"));
                d
            },
            InheritanceError::AbstractClassHasNoAbstractMethods { class } => {
                let mut d = self.error_at(cat3("ABSTRACT class '", class.decl.name.as_str(), "' has no abstract methods"), class.decl.name_span);
                d.with_note(String::from_str("abstract classes must have at least one abstract method"));
                d
            },
            InheritanceError::UnimplementedInterfaceMethod { implementer, method } => {
                let mut d = self.error_at(cat3("missing implementation for interface method '", method.decl.name.as_str(), "'"), implementer.decl.name_span);
                d.with_related_at(cat5("method '", method.decl.name.as_str(), "' is declared by interface '", implementer.decl.name.as_str(), "' here"), method.decl.file, method.decl.name_span);
                d
            },
            InheritanceError::UnresolvedThisMethod { ctx, method_name, method } => {
                self.error_at(cat5("no method '", method_name.as_str(), "' in declared methods of '", ctx.decl.name.as_str(), "'"), *method)
            },
            InheritanceError::UnresolvedSuperMethod { ctx, method_name, method } => {
                let mut d = self.error_at(cat3("no method '", method_name.as_str(), "' in inherited methods"), *method);
                match ctx {
                    Some(c) => d.with_related_at(cat3("methods are inherited from '", c.decl.name.as_str(), "' here"), c.decl.file, c.decl.name_span),
                    None => {},
                }
                d
            },
            InheritanceError::SignatureParametersCountMismatch { m1, expected, m2, got } => {
                let t1 = usize_to_string(*expected);
                let t2 = usize_to_string(*got);
                let mut d = self.error_at(cat6("invalid number of parameters for method '", m1.decl.name.as_str(), "': expected ", t1.as_str(), ", got ", t2.as_str()), m2.decl.name_span);
                d.with_related_at(cat3("base method '", m1.decl.name.as_str(), "' is declared here"), m1.decl.file, m1.decl.name_span);
                d
            },
            InheritanceError::SignatureTypeMismatch { expected, got, method } => {
                let mut d = self.error_at(cat7("method '", method.decl.name.as_str(), "' has incompatible parameter types: expected '", expected.as_str(), "', got '", got.as_str(), "'"), method.decl.name_span);
                d.with_note(String::from_str("parameter types must match those of the base method"));
                d
            },
            InheritanceError::SuperButNoExtends { pou, call_site } => {
                self.error_at(cat3("'SUPER' used but no EXTENDS clause found on '", pou.decl.name.as_str(), "'"), *call_site)
            },
            InheritanceError::InterfaceOnlyAllowedAsParam { var, interface } => {
                let mut d = self.error_at(cat4("interface type '", interface.name.as_str(), "' is not allowed in ", section_keyword(var.kind)), var.decl.name_span);
                d.with_related_at(cat3("interface '", interface.name.as_str(), "' is defined here"), interface.file, interface.name_span);
                d.with_note(String::from_str("interfaces are supported only as VAR_INPUT or VAR_IN_OUT parameters"));
                d
            },
            InheritanceError::InterfaceNotAllowedInReturn { interface, spec_span } => {
                let mut d = self.error_at(cat3("interface type '", interface.name.as_str(), "' is not allowed as a return type"), *spec_span);
                d.with_related_at(cat3("interface '", interface.name.as_str(), "' is defined here"), interface.file, interface.name_span);
                d.with_note(String::from_str("interfaces are supported only as VAR_INPUT or VAR_IN_OUT parameters"));
                d
            },
            InheritanceError::InterfaceNotAllowedNested { interface, spec_span } => {
                let mut d = self.error_at(cat3("interface type '", interface.name.as_str(), "' cannot be nested inside another type (array, reference, or struct)"), *spec_span);
                d.with_related_at(cat3("interface '", interface.name.as_str(), "' is defined here"), interface.file, interface.name_span);
                d.with_note(String::from_str("an interface may only appear directly as a VAR_INPUT or VAR_IN_OUT parameter"));
                d
            },
            InheritanceError::InterfaceParamNotAssignable { var, access } => {
                let mut d = self.error_at(cat3("cannot assign to interface parameter '", var.decl.name.as_str(), "'"), *access);
                d.with_related_at(cat3("interface parameter '", var.decl.name.as_str(), "' is declared here"), var.decl.file, var.decl.name_span);
                d.with_note(String::from_str("an interface parameter is a fixed binding to the concrete type passed by the caller; it can be used (methods called, passed on) but not reassigned"));
                d
            },
            InheritanceError::SuperBodyInMethod { call_site } => {
                let mut d = self.error_at(String::from_str("'SUPER()' cannot be called in a method of a function block"), *call_site);
                d.with_note(String::from_str("SUPER() is only valid in the function block body, not in a method"));
                d
            },
            InheritanceError::SuperBodyMultiple { call_site, first } => {
                let mut d = self.error_at(String::from_str("'SUPER()' may only be called once in a function block body"), *call_site);
                d.with_related_at(String::from_str("'SUPER()' is already called here"), file, *first);
                d
            },
            InheritanceError::SuperBodyInLoop { call_site } => {
                self.error_at(String::from_str("'SUPER()' cannot be called inside a loop"), *call_site)
            },
            InheritanceError::InheritedMemberShadowed { derived, base } => {
                let mut d = self.error_at(cat3("variable '", derived.decl.name.as_str(), "' is already declared in a base function block"), derived.decl.name_span);
                d.with_related_at(cat3("inherited variable '", derived.decl.name.as_str(), "' is declared here"), base.decl.file, base.decl.name_span);
                d.with_note(String::from_str("variable names in a base and derived function block must be unique"));
                d
            },
        }
    }

}

/// Each kind of `InheritanceError` is reported at the span of what it concerns, with
/// its message and severity, whatever names, spans and texts it holds; a
/// kind whose diagnostic is built directly also carries exactly the
/// related locations, notes, tags, source and quick fixes listed.
pub proof fn law_inheritance_error_rendering(this: InheritanceError, file: FileId)
    ensures
        match this {
            InheritanceError::SuperBodyOnIncompatiblePou { call_site } => {
                let d = this.spec_to_diagnostic(file);
                &&& d.message == "'SUPER()' is not valid in this context"@
                &&& d.span == call_site
                &&& d.severity == Some(Severity::Error)
                &&& d.related == Seq::<RelatedView>::empty()
                &&& d.notes == Seq::<Seq<char>>::empty()
                &&& d.tags == Seq::<Tag>::empty()
                &&& d.source == None::<Seq<char>>
                &&& d.fixes == Seq::<FixView>::empty()
            },
            InheritanceError::SuperOnIncompatiblePou { call_site } => {
                let d = this.spec_to_diagnostic(file);
                &&& d.message == "'SUPER' is not valid in this context"@
                &&& d.span == call_site
                &&& d.severity == Some(Severity::Error)
                &&& d.related == Seq::<RelatedView>::empty()
                &&& d.notes == Seq::<Seq<char>>::empty()
                &&& d.tags == Seq::<Tag>::empty()
                &&& d.source == None::<Seq<char>>
                &&& d.fixes == Seq::<FixView>::empty()
            },
            InheritanceError::ThisOnIncompatiblePou { call_site } => {
                let d = this.spec_to_diagnostic(file);
                &&& d.message == "'THIS' is not valid in this context"@
                &&& d.span == call_site
                &&& d.severity == Some(Severity::Error)
                &&& d.related == Seq::<RelatedView>::empty()
                &&& d.notes == Seq::<Seq<char>>::empty()
                &&& d.tags == Seq::<Tag>::empty()
                &&& d.source == None::<Seq<char>>
                &&& d.fixes == Seq::<FixView>::empty()
            },
            InheritanceError::OverrideFinalMethod { base_method, derived_method } => {
                let d = this.spec_to_diagnostic(file);
                &&& d.message == "cannot override FINAL method '"@ + base_method.decl.name@ + "'"@
                &&& d.span == derived_method.decl.name_span
                &&& d.severity == Some(Severity::Error)
                &&& d.related == Seq::<RelatedView>::empty().push(RelatedView { message: "FINAL method '"@ + base_method.decl.name@ + "' is declared here"@, file: base_method.decl.file, span: base_method.decl.name_span })
                &&& d.notes == Seq::<Seq<char>>::empty().push("methods marked as FINAL cannot be overridden"@)
                &&& d.tags == Seq::<Tag>::empty()
                &&& d.source == None::<Seq<char>>
                &&& d.fixes == Seq::<FixView>::empty()
            },
            InheritanceError::MissingOverride { base_method, derived_method } => {
                let d = this.spec_to_diagnostic(file);
                &&& d.message == "missing OVERRIDE keyword for method '"@ + derived_method.decl.name@ + "'"@
                &&& d.span == derived_method.decl.name_span
                &&& d.severity == Some(Severity::Error)
                &&& d.related == Seq::<RelatedView>::empty().push(RelatedView { message: "base method '"@ + base_method.decl.name@ + "' is declared here"@, file: base_method.decl.file, span: base_method.decl.name_span })
                &&& d.notes == Seq::<Seq<char>>::empty().push("OVERRIDE is required when redefining a method with the same signature from a base class or function block"@)
                &&& d.tags == Seq::<Tag>::empty()
                &&& d.source == None::<Seq<char>>
                &&& d.fixes == Seq::<FixView>::empty()
            },
            InheritanceError::MissingAbstractMethod { implementer, base_method } => {
                let d = this.spec_to_diagnostic(file);
                &&& d.message == "missing implementation for ABSTRACT method '"@ + base_method.decl.name@ + "'"@
                &&& d.span == implementer.decl.name_span
                &&& d.severity == Some(Severity::Error)
                &&& d.related == Seq::<RelatedView>::empty().push(RelatedView { message: "ABSTRACT method '"@ + base_method.decl.name@ + "' is declared here"@, file: base_method.decl.file, span: base_method.decl.name_span })
                &&& d.notes == Seq::<Seq<char>>::empty().push("ABSTRACT methods must be implemented by derived POUs"@)
                &&& d.tags == Seq::<Tag>::empty()
                &&& d.source == None::<Seq<char>>
                &&& d.fixes == Seq::<FixView>::empty()
            },
            InheritanceError::EmptyOverride { base_method } => {
                let d = this.spec_to_diagnostic(file);
                &&& d.message == "invalid usage of OVERRIDE for method '"@ + base_method.decl.name@ + "'"@
                &&& d.span == base_method.decl.name_span
                &&& d.severity == Some(Severity::Error)
                &&& d.related == Seq::<RelatedView>::empty()
                &&& d.notes == Seq::<Seq<char>>::empty().push("OVERRIDE is only valid when the method is inherited"@)
                &&& d.tags == Seq::<Tag>::empty()
                &&& d.source == None::<Seq<char>>
                &&& d.fixes == Seq::<FixView>::empty()
            },
            InheritanceError::AbstractClassHasNoAbstractMethods { class } => {
                let d = this.spec_to_diagnostic(file);
                &&& d.message == "ABSTRACT class '"@ + class.decl.name@ + "' has no abstract methods"@
                &&& d.span == class.decl.name_span
                &&& d.severity == Some(Severity::Error)
                &&& d.related == Seq::<RelatedView>::empty()
                &&& d.notes == Seq::<Seq<char>>::empty().push("abstract classes must have at least one abstract method"@)
                &&& d.tags == Seq::<Tag>::empty()
                &&& d.source == None::<Seq<char>>
                &&& d.fixes == Seq::<FixView>::empty()
            },
            InheritanceError::UnimplementedInterfaceMethod { implementer, method } => {
                let d = this.spec_to_diagnostic(file);
                &&& d.message == "missing implementation for interface method '"@ + method.decl.name@ + "'"@
                &&& d.span == implementer.decl.name_span
                &&& d.severity == Some(Severity::Error)
                &&& d.related == Seq::<RelatedView>::empty().push(RelatedView { message: "method '"@ + method.decl.name@ + "' is declared by interface '"@ + implementer.decl.name@ + "' here"@, file: method.decl.file, span: method.decl.name_span })
                &&& d.notes == Seq::<Seq<char>>::empty()
                &&& d.tags == Seq::<Tag>::empty()
                &&& d.source == None::<Seq<char>>
                &&& d.fixes == Seq::<FixView>::empty()
            },
            InheritanceError::UnresolvedThisMethod { ctx, method_name, method } => {
                let d = this.spec_to_diagnostic(file);
                &&& d.message == "no method '"@ + method_name@ + "' in declared methods of '"@ + ctx.decl.name@ + "'"@
                &&& d.span == method
                &&& d.severity == Some(Severity::Error)
                &&& d.related == Seq::<RelatedView>::empty()
                &&& d.notes == Seq::<Seq<char>>::empty()
                &&& d.tags == Seq::<Tag>::empty()
                &&& d.source == None::<Seq<char>>
                &&& d.fixes == Seq::<FixView>::empty()
            },
            InheritanceError::UnresolvedSuperMethod { ctx, method_name, method } => {
                let d = this.spec_to_diagnostic(file);
                &&& d.message == "no method '"@ + method_name@ + "' in inherited methods"@
                &&& d.span == method
                &&& d.severity == Some(Severity::Error)
            },
            InheritanceError::SignatureParametersCountMismatch { m1, expected, m2, got } => {
                let d = this.spec_to_diagnostic(file);
                &&& d.message == "invalid number of parameters for method '"@ + m1.decl.name@ + "': expected "@ + decimal(expected as nat) + ", got "@ + decimal(got as nat)
                &&& d.span == m2.decl.name_span
                &&& d.severity == Some(Severity::Error)
                &&& d.related == Seq::<RelatedView>::empty().push(RelatedView { message: "base method '"@ + m1.decl.name@ + "' is declared here"@, file: m1.decl.file, span: m1.decl.name_span })
                &&& d.notes == Seq::<Seq<char>>::empty()
                &&& d.tags == Seq::<Tag>::empty()
                &&& d.source == None::<Seq<char>>
                &&& d.fixes == Seq::<FixView>::empty()
            },
            InheritanceError::SignatureTypeMismatch { expected, got, method } => {
                let d = this.spec_to_diagnostic(file);
                &&& d.message == "method '"@ + method.decl.name@ + "' has incompatible parameter types: expected '"@ + expected@ + "', got '"@ + got@ + "'"@
                &&& d.span == method.decl.name_span
                &&& d.severity == Some(Severity::Error)
                &&& d.related == Seq::<RelatedView>::empty()
                &&& d.notes == Seq::<Seq<char>>::empty().push("parameter types must match those of the base method"@)
                &&& d.tags == Seq::<Tag>::empty()
                &&& d.source == None::<Seq<char>>
                &&& d.fixes == Seq::<FixView>::empty()
            },
            InheritanceError::SuperButNoExtends { pou, call_site } => {
                let d = this.spec_to_diagnostic(file);
                &&& d.message == "'SUPER' used but no EXTENDS clause found on '"@ + pou.decl.name@ + "'"@
                &&& d.span == call_site
                &&& d.severity == Some(Severity::Error)
                &&& d.related == Seq::<RelatedView>::empty()
                &&& d.notes == Seq::<Seq<char>>::empty()
                &&& d.tags == Seq::<Tag>::empty()
                &&& d.source == None::<Seq<char>>
                &&& d.fixes == Seq::<FixView>::empty()
            },
            InheritanceError::InterfaceOnlyAllowedAsParam { var, interface } => {
                let d = this.spec_to_diagnostic(file);
                &&& d.message == "interface type '"@ + interface.name@ + "' is not allowed in "@ + spec_section_keyword(var.kind)
                &&& d.span == var.decl.name_span
                &&& d.severity == Some(Severity::Error)
                &&& d.related == Seq::<RelatedView>::empty().push(RelatedView { message: "interface '"@ + interface.name@ + "' is defined here"@, file: interface.file, span: interface.name_span })
                &&& d.notes == Seq::<Seq<char>>::empty().push("interfaces are supported only as VAR_INPUT or VAR_IN_OUT parameters"@)
                &&& d.tags == Seq::<Tag>::empty()
                &&& d.source == None::<Seq<char>>
                &&& d.fixes == Seq::<FixView>::empty()
            },
            InheritanceError::InterfaceNotAllowedInReturn { interface, spec_span } => {
                let d = this.spec_to_diagnostic(file);
                &&& d.message == "interface type '"@ + interface.name@ + "' is not allowed as a return type"@
                &&& d.span == spec_span
                &&& d.severity == Some(Severity::Error)
                &&& d.related == Seq::<RelatedView>::empty().push(RelatedView { message: "interface '"@ + interface.name@ + "' is defined here"@, file: interface.file, span: interface.name_span })
                &&& d.notes == Seq::<Seq<char>>::empty().push("interfaces are supported only as VAR_INPUT or VAR_IN_OUT parameters"@)
                &&& d.tags == Seq::<Tag>::empty()
                &&& d.source == None::<Seq<char>>
                &&& d.fixes == Seq::<FixView>::empty()
            },
            InheritanceError::InterfaceNotAllowedNested { interface, spec_span } => {
                let d = this.spec_to_diagnostic(file);
                &&& d.message == "interface type '"@ + interface.name@ + "' cannot be nested inside another type (array, reference, or struct)"@
                &&& d.span == spec_span
                &&& d.severity == Some(Severity::Error)
                &&& d.related == Seq::<RelatedView>::empty().push(RelatedView { message: "interface '"@ + interface.name@ + "' is defined here"@, file: interface.file, span: interface.name_span })
                &&& d.notes == Seq::<Seq<char>>::empty().push("an interface may only appear directly as a VAR_INPUT or VAR_IN_OUT parameter"@)
                &&& d.tags == Seq::<Tag>::empty()
                &&& d.source == None::<Seq<char>>
                &&& d.fixes == Seq::<FixView>::empty()
            },
            InheritanceError::InterfaceParamNotAssignable { var, access } => {
                let d = this.spec_to_diagnostic(file);
                &&& d.message == "cannot assign to interface parameter '"@ + var.decl.name@ + "'"@
                &&& d.span == access
                &&& d.severity == Some(Severity::Error)
                &&& d.related == Seq::<RelatedView>::empty().push(RelatedView { message: "interface parameter '"@ + var.decl.name@ + "' is declared here"@, file: var.decl.file, span: var.decl.name_span })
                &&& d.notes == Seq::<Seq<char>>::empty().push("an interface parameter is a fixed binding to the concrete type passed by the caller; it can be used (methods called, passed on) but not reassigned"@)
                &&& d.tags == Seq::<Tag>::empty()
                &&& d.source == None::<Seq<char>>
                &&& d.fixes == Seq::<FixView>::empty()
            },
            InheritanceError::SuperBodyInMethod { call_site } => {
                let d = this.spec_to_diagnostic(file);
                &&& d.message == "'SUPER()' cannot be called in a method of a function block"@
                &&& d.span == call_site
                &&& d.severity == Some(Severity::Error)
                &&& d.related == Seq::<RelatedView>::empty()
                &&& d.notes == Seq::<Seq<char>>::empty().push("SUPER() is only valid in the function block body, not in a method"@)
                &&& d.tags == Seq::<Tag>::empty()
                &&& d.source == None::<Seq<char>>
                &&& d.fixes == Seq::<FixView>::empty()
            },
            InheritanceError::SuperBodyMultiple { call_site, first } => {
                let d = this.spec_to_diagnostic(file);
                &&& d.message == "'SUPER()' may only be called once in a function block body"@
                &&& d.span == call_site
                &&& d.severity == Some(Severity::Error)
                &&& d.related == Seq::<RelatedView>::empty().push(RelatedView { message: "'SUPER()' is already called here"@, file: file, span: first })
                &&& d.notes == Seq::<Seq<char>>::empty()
                &&& d.tags == Seq::<Tag>::empty()
                &&& d.source == None::<Seq<char>>
                &&& d.fixes == Seq::<FixView>::empty()
            },
            InheritanceError::SuperBodyInLoop { call_site } => {
                let d = this.spec_to_diagnostic(file);
                &&& d.message == "'SUPER()' cannot be called inside a loop"@
                &&& d.span == call_site
                &&& d.severity == Some(Severity::Error)
                &&& d.related == Seq::<RelatedView>::empty()
                &&& d.notes == Seq::<Seq<char>>::empty()
                &&& d.tags == Seq::<Tag>::empty()
                &&& d.source == None::<Seq<char>>
                &&& d.fixes == Seq::<FixView>::empty()
            },
            InheritanceError::InheritedMemberShadowed { derived, base } => {
                let d = this.spec_to_diagnostic(file);
                &&& d.message == "variable '"@ + derived.decl.name@ + "' is already declared in a base function block"@
                &&& d.span == derived.decl.name_span
                &&& d.severity == Some(Severity::Error)
                &&& d.related == Seq::<RelatedView>::empty().push(RelatedView { message: "inherited variable '"@ + derived.decl.name@ + "' is declared here"@, file: base.decl.file, span: base.decl.name_span })
                &&& d.notes == Seq::<Seq<char>>::empty().push("variable names in a base and derived function block must be unique"@)
                &&& d.tags == Seq::<Tag>::empty()
                &&& d.source == None::<Seq<char>>
                &&& d.fixes == Seq::<FixView>::empty()
            },
        },
{
}

} // verus!
