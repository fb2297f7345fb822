//! E11xx: object-oriented errors: inheritance, overriding, interfaces, and
//! the use of SUPER and THIS.
use vstd::prelude::*;
use vstd::string::*;
use crate::diag::{Diagnostic, DiagnosticView, FileId, Span};
use crate::hir::{MethodRef, Named, PouRef, Var, VariableKind};
use crate::source::{clause_items, clause_items_of, span_text, span_text_of};
use crate::std_text::{str_trim, trimmed};
use crate::text::{cat2, cat3, cat4, cat5, cat6, cat7, decimal, usize_to_string};

use crate::diag::RelatedView;
use crate::diag::Severity;

use crate::diag::Tag;
use crate::diag::FixView;

verus! {

/// The declaring keyword of a variable section.
pub open spec fn spec_section_keyword(kind: VariableKind) -> Seq<char> {
    match kind {
        VariableKind::Var => "VAR"@,
        VariableKind::Input => "VAR_INPUT"@,
        VariableKind::Output => "VAR_OUTPUT"@,
        VariableKind::InOut => "VAR_IN_OUT"@,
        VariableKind::External => "VAR_EXTERNAL"@,
        VariableKind::Global => "VAR_GLOBAL"@,
        VariableKind::Access => "VAR_ACCESS"@,
        VariableKind::Temp => "VAR_TEMP"@,
        VariableKind::Config => "VAR_CONFIG"@,
    }
}

/// The declaring keyword of a variable section, for messages.
pub fn section_keyword(kind: VariableKind) -> (r: &'static str)
    ensures
        r@ == spec_section_keyword(kind),
{
    match kind {
        VariableKind::Var => "VAR",
        VariableKind::Input => "VAR_INPUT",
        VariableKind::Output => "VAR_OUTPUT",
        VariableKind::InOut => "VAR_IN_OUT",
        VariableKind::External => "VAR_EXTERNAL",
        VariableKind::Global => "VAR_GLOBAL",
        VariableKind::Access => "VAR_ACCESS",
        VariableKind::Temp => "VAR_TEMP",
        VariableKind::Config => "VAR_CONFIG",
    }
}

/// The keyword of a POU that can be extended: CLASS or FUNCTION_BLOCK.
pub open spec fn spec_pou_keyword(p: PouRef) -> Seq<char> {
    if p.is_class {
        "CLASS"@
    } else {
        "FUNCTION_BLOCK"@
    }
}

fn pou_keyword(p: &PouRef) -> (r: &'static str)
    ensures
        r@ == spec_pou_keyword(*p),
{
    if p.is_class {
        "CLASS"
    } else {
        "FUNCTION_BLOCK"
    }
}

/// The section keyword an interface parameter of a stateful POU is reported
/// with: VAR_IN_OUT, or VAR_INPUT for any other section.
pub open spec fn spec_param_section(kind: VariableKind) -> Seq<char> {
    match kind {
        VariableKind::InOut => "VAR_IN_OUT"@,
        _ => "VAR_INPUT"@,
    }
}

fn param_section(kind: VariableKind) -> (r: &'static str)
    ensures
        r@ == spec_param_section(kind),
{
    match kind {
        VariableKind::InOut => "VAR_IN_OUT",
        _ => "VAR_INPUT",
    }
}

/// The name a return type is reported by: the type's name, or `none`.
pub open spec fn spec_return_name(t: Option<String>) -> Seq<char> {
    match t {
        Some(n) => n@,
        None => "none"@,
    }
}

fn return_name(t: &Option<String>) -> (r: &str)
    ensures
        r@ == spec_return_name(*t),
{
    match t {
        Some(n) => n.as_str(),
        None => "none",
    }
}

/// Where a method declares its return type: the return type's span, or the
/// method's name when it declares none.
pub open spec fn spec_return_span(m: MethodRef) -> Span {
    match m.return_span {
        Some(s) => s,
        None => m.decl.name_span,
    }
}

fn return_span(m: &MethodRef) -> (r: Span)
    ensures
        r == spec_return_span(*m),
{
    match m.return_span {
        Some(s) => s,
        None => m.decl.name_span,
    }
}

/// An object-oriented error.
pub enum OopError {
    /// A second EXTENDS clause; `source` is the text of `file`.
    MultipleExtends { location: Span, first_extend_span: Span, file: FileId, source: String },
    /// A second IMPLEMENTS clause; `source` is the text of `file`.
    MultipleImplements { location: Span, first_implements_span: Span, file: FileId, source: String },
    /// An IMPLEMENTS clause before the EXTENDS clause; `source` is the text of `file`.
    ImplementsBeforeExtends { implements_span: Span, extends_span: Span, file: FileId, source: String },
    /// A POU extends a FINAL one; `extends` is the EXTENDS clause.
    ExtendsFinalPou { derived: PouRef, base: PouRef, extends: Span },
    /// THIS where there is no instance.
    ThisOnIncompatiblePou { call_site: Span },
    /// SUPER where there is no instance.
    SuperOnIncompatiblePou { call_site: Span },
    /// SUPER in a POU that extends nothing.
    SuperButNoExtends { pou: PouRef, call_site: Span },
    /// `SUPER()` where there is no base body.
    SuperBodyOnIncompatiblePou { call_site: Span },
    /// `SUPER()` inside a METHOD: it may only appear in the function block body.
    SuperBodyInMethod { call_site: Span },
    /// A second `SUPER()` in a function block body; `first` is the first one.
    SuperBodyMultiple { call_site: Span, first: Span },
    /// `SUPER()` inside a loop.
    SuperBodyInLoop { call_site: Span },
    /// A method redefines a base method without OVERRIDE.
    MissingOverride { base_method: MethodRef, derived_method: MethodRef },
    /// OVERRIDE on a method that overrides nothing.
    EmptyOverride { base_method: MethodRef },
    /// A method overrides a FINAL one.
    OverrideFinalMethod { base_method: MethodRef, derived_method: MethodRef },
    /// A derived POU redeclares a variable it inherits.
    InheritedMemberShadowed { derived: Var, base: Var },
    /// A POU leaves an ABSTRACT method it inherits unimplemented.
    MissingAbstractMethod { implementer: PouRef, base_method: MethodRef },
    /// A POU that is not ABSTRACT declares an ABSTRACT method.
    AbstractMethodInConcretePou { pou: PouRef, method: MethodRef },
    /// A variable of an ABSTRACT type.
    InstantiatedAbstractPou { var: Var, pou: PouRef },
    /// A POU leaves a method of an interface it implements unimplemented.
    UnimplementedInterfaceMethod { implementer: PouRef, method: MethodRef, declared_by: PouRef },
    /// An access specifier on an interface method prototype.
    AccessSpecNotAllowedInMethodPrototype(Span),
    /// An interface type in a section other than VAR_INPUT or VAR_IN_OUT.
    InterfaceOnlyAllowedAsParam { var: Var, interface: Named },
    /// An interface parameter of a POU with instance state (`pou_kind` names it).
    InterfaceParamOnStatefulPou { var: Var, interface: Named, pou_kind: String },
    /// An interface as a return type; `spec_span` is the type specification.
    InterfaceNotAllowedInReturn { interface: Named, spec_span: Span },
    /// An interface inside an array, reference or struct type.
    InterfaceNotAllowedNested { interface: Named, spec_span: Span },
    /// An assignment to an interface parameter; `access` is the assigned access.
    InterfaceParamNotAssignable { var: Var, access: Span },
    /// A method with another number of parameters than the base method `m1`.
    SignatureParametersCountMismatch { m1: MethodRef, expected: usize, m2: MethodRef, got: usize },
    /// A parameter of another type than in the base method (types by name).
    SignatureTypeMismatch { expected: String, got: String, method: MethodRef, base_param: Var, param: Var },
    /// A method with another return type than the base method (types by name).
    SignatureReturnMismatch { expected: Option<String>, got: Option<String>, method: MethodRef, base: MethodRef },
    /// A parameter named otherwise than at its position in the base method.
    SignatureNameMismatch { method: MethodRef, base_param: Var, param: Var },
    /// A parameter in another section than in the base method.
    SignatureSectionMismatch { method: MethodRef, base_param: Var, param: Var },
}

impl OopError {
    pub open spec fn spec_code(&self) -> Seq<char> {
        match self {
            OopError::MultipleExtends { .. } => "E1101"@,
            OopError::MultipleImplements { .. } => "E1102"@,
            OopError::ImplementsBeforeExtends { .. } => "E1103"@,
            OopError::ExtendsFinalPou { .. } => "E1104"@,
            OopError::ThisOnIncompatiblePou { .. } => "E1105"@,
            OopError::SuperOnIncompatiblePou { .. } => "E1106"@,
            OopError::SuperButNoExtends { .. } => "E1107"@,
            OopError::SuperBodyOnIncompatiblePou { .. } => "E1108"@,
            OopError::SuperBodyInMethod { .. } => "E1109"@,
            OopError::SuperBodyMultiple { .. } => "E1110"@,
            OopError::SuperBodyInLoop { .. } => "E1111"@,
            OopError::MissingOverride { .. } => "E1112"@,
            OopError::EmptyOverride { .. } => "E1113"@,
            OopError::OverrideFinalMethod { .. } => "E1114"@,
            OopError::InheritedMemberShadowed { .. } => "E1115"@,
            OopError::MissingAbstractMethod { .. } => "E1116"@,
            OopError::AbstractMethodInConcretePou { .. } => "E1117"@,
            OopError::InstantiatedAbstractPou { .. } => "E1118"@,
            OopError::UnimplementedInterfaceMethod { .. } => "E1119"@,
            OopError::AccessSpecNotAllowedInMethodPrototype(_) => "E1120"@,
            OopError::InterfaceOnlyAllowedAsParam { .. } => "E1121"@,
            OopError::InterfaceParamOnStatefulPou { .. } => "E1121"@,
            OopError::InterfaceNotAllowedInReturn { .. } => "E1122"@,
            OopError::InterfaceNotAllowedNested { .. } => "E1123"@,
            OopError::InterfaceParamNotAssignable { .. } => "E1124"@,
            OopError::SignatureParametersCountMismatch { .. } => "E1125"@,
            OopError::SignatureTypeMismatch { .. } => "E1126"@,
            OopError::SignatureReturnMismatch { .. } => "E1127"@,
            OopError::SignatureNameMismatch { .. } => "E1128"@,
            OopError::SignatureSectionMismatch { .. } => "E1129"@,
        }
    }

    /// The stable code of the error.
    pub fn code(&self) -> (r: &'static str)
        ensures
            r@ == self.spec_code(),
    {
        match self {
            OopError::MultipleExtends { .. } => "E1101",
            OopError::MultipleImplements { .. } => "E1102",
            OopError::ImplementsBeforeExtends { .. } => "E1103",
            OopError::ExtendsFinalPou { .. } => "E1104",
            OopError::ThisOnIncompatiblePou { .. } => "E1105",
            OopError::SuperOnIncompatiblePou { .. } => "E1106",
            OopError::SuperButNoExtends { .. } => "E1107",
            OopError::SuperBodyOnIncompatiblePou { .. } => "E1108",
            OopError::SuperBodyInMethod { .. } => "E1109",
            OopError::SuperBodyMultiple { .. } => "E1110",
            OopError::SuperBodyInLoop { .. } => "E1111",
            OopError::MissingOverride { .. } => "E1112",
            OopError::EmptyOverride { .. } => "E1113",
            OopError::OverrideFinalMethod { .. } => "E1114",
            OopError::InheritedMemberShadowed { .. } => "E1115",
            OopError::MissingAbstractMethod { .. } => "E1116",
            OopError::AbstractMethodInConcretePou { .. } => "E1117",
            OopError::InstantiatedAbstractPou { .. } => "E1118",
            OopError::UnimplementedInterfaceMethod { .. } => "E1119",
            OopError::AccessSpecNotAllowedInMethodPrototype(_) => "E1120",
            OopError::InterfaceOnlyAllowedAsParam { .. } => "E1121",
            OopError::InterfaceParamOnStatefulPou { .. } => "E1121",
            OopError::InterfaceNotAllowedInReturn { .. } => "E1122",
            OopError::InterfaceNotAllowedNested { .. } => "E1123",
            OopError::InterfaceParamNotAssignable { .. } => "E1124",
            OopError::SignatureParametersCountMismatch { .. } => "E1125",
            OopError::SignatureTypeMismatch { .. } => "E1126",
            OopError::SignatureReturnMismatch { .. } => "E1127",
            OopError::SignatureNameMismatch { .. } => "E1128",
            OopError::SignatureSectionMismatch { .. } => "E1129",
        }
    }

    pub open spec fn spec_description(&self) -> Seq<char> {
        match self {
            OopError::MultipleExtends { .. } => "syntax"@,
            OopError::MultipleImplements { .. } => "syntax"@,
            OopError::ImplementsBeforeExtends { .. } => "syntax"@,
            OopError::ExtendsFinalPou { .. } => "inheritance violation"@,
            OopError::ThisOnIncompatiblePou { .. } => "invalid use of SUPER or THIS"@,
            OopError::SuperOnIncompatiblePou { .. } => "invalid use of SUPER or THIS"@,
            OopError::SuperButNoExtends { .. } => "invalid use of SUPER or THIS"@,
            OopError::SuperBodyOnIncompatiblePou { .. } => "invalid use of SUPER or THIS"@,
            OopError::SuperBodyInMethod { .. } => "invalid use of SUPER or THIS"@,
            OopError::SuperBodyMultiple { .. } => "invalid use of SUPER or THIS"@,
            OopError::SuperBodyInLoop { .. } => "invalid use of SUPER or THIS"@,
            OopError::MissingOverride { .. } => "override violation"@,
            OopError::EmptyOverride { .. } => "inheritance violation"@,
            OopError::OverrideFinalMethod { .. } => "override violation"@,
            OopError::InheritedMemberShadowed { .. } => "inheritance violation"@,
            OopError::MissingAbstractMethod { .. } => "inheritance violation"@,
            OopError::AbstractMethodInConcretePou { .. } => "inheritance violation"@,
            OopError::InstantiatedAbstractPou { .. } => "inheritance violation"@,
            OopError::UnimplementedInterfaceMethod { .. } => "inheritance violation"@,
            OopError::AccessSpecNotAllowedInMethodPrototype(_) => "syntax"@,
            OopError::InterfaceOnlyAllowedAsParam { .. } => "interface type not allowed here"@,
            OopError::InterfaceParamOnStatefulPou { .. } => "interface type not allowed here"@,
            OopError::InterfaceNotAllowedInReturn { .. } => "interface type not allowed here"@,
            OopError::InterfaceNotAllowedNested { .. } => "interface type not allowed here"@,
            OopError::InterfaceParamNotAssignable { .. } => "interface parameter is not assignable"@,
            OopError::SignatureParametersCountMismatch { .. } => "method parameter count mismatch"@,
            OopError::SignatureTypeMismatch { .. } => "method parameter type mismatch"@,
            OopError::SignatureReturnMismatch { .. } => "method return type mismatch"@,
            OopError::SignatureNameMismatch { .. } => "method parameter name mismatch"@,
            OopError::SignatureSectionMismatch { .. } => "method parameter section mismatch"@,
        }
    }

    /// The short description of the error's kind.
    pub fn description(&self) -> (r: &'static str)
        ensures
            r@ == self.spec_description(),
    {
        match self {
            OopError::MultipleExtends { .. } => "syntax",
            OopError::MultipleImplements { .. } => "syntax",
            OopError::ImplementsBeforeExtends { .. } => "syntax",
            OopError::ExtendsFinalPou { .. } => "inheritance violation",
            OopError::ThisOnIncompatiblePou { .. } => "invalid use of SUPER or THIS",
            OopError::SuperOnIncompatiblePou { .. } => "invalid use of SUPER or THIS",
            OopError::SuperButNoExtends { .. } => "invalid use of SUPER or THIS",
            OopError::SuperBodyOnIncompatiblePou { .. } => "invalid use of SUPER or THIS",
            OopError::SuperBodyInMethod { .. } => "invalid use of SUPER or THIS",
            OopError::SuperBodyMultiple { .. } => "invalid use of SUPER or THIS",
            OopError::SuperBodyInLoop { .. } => "invalid use of SUPER or THIS",
            OopError::MissingOverride { .. } => "override violation",
            OopError::EmptyOverride { .. } => "inheritance violation",
            OopError::OverrideFinalMethod { .. } => "override violation",
            OopError::InheritedMemberShadowed { .. } => "inheritance violation",
            OopError::MissingAbstractMethod { .. } => "inheritance violation",
            OopError::AbstractMethodInConcretePou { .. } => "inheritance violation",
            OopError::InstantiatedAbstractPou { .. } => "inheritance violation",
            OopError::UnimplementedInterfaceMethod { .. } => "inheritance violation",
            OopError::AccessSpecNotAllowedInMethodPrototype(_) => "syntax",
            OopError::InterfaceOnlyAllowedAsParam { .. } => "interface type not allowed here",
            OopError::InterfaceParamOnStatefulPou { .. } => "interface type not allowed here",
            OopError::InterfaceNotAllowedInReturn { .. } => "interface type not allowed here",
            OopError::InterfaceNotAllowedNested { .. } => "interface type not allowed here",
            OopError::InterfaceParamNotAssignable { .. } => "interface parameter is not assignable",
            OopError::SignatureParametersCountMismatch { .. } => "method parameter count mismatch",
            OopError::SignatureTypeMismatch { .. } => "method parameter type mismatch",
            OopError::SignatureReturnMismatch { .. } => "method return type mismatch",
            OopError::SignatureNameMismatch { .. } => "method parameter name mismatch",
            OopError::SignatureSectionMismatch { .. } => "method parameter section mismatch",
        }
    }

    /// An error diagnostic of this error at `span`.
    pub open spec fn err(&self, message: Seq<char>, span: Span) -> DiagnosticView {
        DiagnosticView::error(message, self.spec_code(), self.spec_description(), span)
    }

    fn error_at(&self, message: String, span: Span) -> (d: Diagnostic)
        ensures
            d@ == self.err(message@, span),
    {
        Diagnostic::error(message, self.code(), self.description(), span)
    }


    /// The diagnostic this error renders to, found in `file`.
    pub open spec fn spec_to_diagnostic(&self, file: FileId) -> DiagnosticView {
        match self {
            OopError::MultipleExtends { location, first_extend_span, file: f, source } =>
                self.err("multiple EXTENDS declarations are not allowed"@, *location).rel(
                    "merge into single clause: 'EXTENDS "@ + clause_items(source@, *first_extend_span, "EXTENDS "@)
                        + ", "@ + clause_items(source@, *location, "EXTENDS "@) + "'"@,
                    *f,
                    *first_extend_span,
                ),
            OopError::MultipleImplements { location, first_implements_span, file: f, source } =>
                self.err("multiple IMPLEMENTS declarations are not allowed"@, *location).rel(
                    "merge into single clause: 'IMPLEMENTS "@ + clause_items(source@, *first_implements_span, "IMPLEMENTS "@)
                        + ", "@ + clause_items(source@, *location, "IMPLEMENTS "@) + "'"@,
                    *f,
                    *first_implements_span,
                ),
            OopError::ImplementsBeforeExtends { implements_span, extends_span, file: f, source } =>
                self.err("IMPLEMENTS must be declared after EXTENDS"@, *implements_span).rel(
                    "move '"@ + trimmed(span_text(source@, *implements_span)) + "' here"@,
                    *f,
                    *extends_span,
                ),
            OopError::ExtendsFinalPou { derived, base, extends } =>
                self.err(
                    "'"@ + derived.decl.name@ + "' cannot extend FINAL "@ + spec_pou_keyword(*base) + " '"@
                        + base.decl.name@ + "'"@,
                    *extends,
                ).rel(
                    spec_pou_keyword(*base) + " '"@ + base.decl.name@ + "' is declared FINAL here"@,
                    base.decl.file,
                    base.decl.name_span,
                ).note("FINAL declares a type complete: it may be used, but not extended"@),
            OopError::ThisOnIncompatiblePou { call_site } =>
                self.err("'THIS' is not valid in this context"@, *call_site),
            OopError::SuperOnIncompatiblePou { call_site } =>
                self.err("'SUPER' is not valid in this context"@, *call_site),
            OopError::SuperButNoExtends { pou, call_site } =>
                self.err("'SUPER' used but no EXTENDS clause found on '"@ + pou.decl.name@ + "'"@, *call_site),
            OopError::SuperBodyOnIncompatiblePou { call_site } =>
                self.err("'SUPER()' is not valid in this context"@, *call_site),
            OopError::SuperBodyInMethod { call_site } =>
                self.err("'SUPER()' cannot be called in a method of a function block"@, *call_site)
                    .note("SUPER() is only valid in the function block body, not in a method"@),
            OopError::SuperBodyMultiple { call_site, first } =>
                self.err("'SUPER()' may only be called once in a function block body"@, *call_site)
                    .rel("the first 'SUPER()' is here"@, file, *first),
            OopError::SuperBodyInLoop { call_site } =>
                self.err("'SUPER()' cannot be called inside a loop"@, *call_site),
            OopError::MissingOverride { base_method, derived_method } =>
                self.err("missing OVERRIDE keyword for method '"@ + derived_method.decl.name@ + "'"@, derived_method.decl.name_span)
                    .rel("base method '"@ + base_method.decl.name@ + "' is declared here"@, base_method.decl.file, base_method.decl.name_span)
                    .note("OVERRIDE is required when redefining a method with the same signature from a base class or function block"@),
            OopError::EmptyOverride { base_method } =>
                self.err("invalid usage of OVERRIDE for method '"@ + base_method.decl.name@ + "'"@, base_method.decl.name_span)
                    .note("OVERRIDE is only valid when the method is inherited"@),
            OopError::OverrideFinalMethod { base_method, derived_method } =>
                self.err("cannot override FINAL method '"@ + base_method.decl.name@ + "'"@, derived_method.decl.name_span)
                    .rel("FINAL method '"@ + base_method.decl.name@ + "' is declared here"@, base_method.decl.file, base_method.decl.name_span)
                    .note("methods marked as FINAL cannot be overridden"@),
            OopError::InheritedMemberShadowed { derived, base } =>
                self.err("variable '"@ + derived.decl.name@ + "' is already declared in a base POU"@, derived.decl.name_span)
                    .rel("inherited variable '"@ + derived.decl.name@ + "' is declared here"@, base.decl.file, base.decl.name_span)
                    .note("variable names in a base and derived POU must be unique"@),
            OopError::MissingAbstractMethod { implementer, base_method } =>
                self.err("missing implementation for ABSTRACT method '"@ + base_method.decl.name@ + "'"@, implementer.decl.name_span)
                    .rel("ABSTRACT method '"@ + base_method.decl.name@ + "' is declared here"@, base_method.decl.file, base_method.decl.name_span)
                    .note("ABSTRACT methods must be implemented by derived POUs"@),
            OopError::AbstractMethodInConcretePou { pou, method } =>
                self.err(
                    spec_pou_keyword(*pou) + " '"@ + pou.decl.name@ + "' declares an ABSTRACT method, so it must be ABSTRACT itself"@,
                    pou.decl.name_span,
                ).rel("ABSTRACT method '"@ + method.decl.name@ + "' is declared here"@, method.decl.file, method.decl.name_span)
                    .note("an ABSTRACT method has no body, so every POU declaring one is incomplete"@),
            OopError::InstantiatedAbstractPou { var, pou } =>
                self.err("cannot instantiate ABSTRACT "@ + spec_pou_keyword(*pou) + " '"@ + pou.decl.name@ + "'"@, var.spec_span)
                    .rel(spec_pou_keyword(*pou) + " '"@ + pou.decl.name@ + "' is declared ABSTRACT here"@, pou.decl.file, pou.decl.name_span)
                    .note("declare a variable of a derived type that implements it"@),
            OopError::UnimplementedInterfaceMethod { implementer, method, declared_by } =>
                self.err("missing implementation for interface method '"@ + method.decl.name@ + "'"@, implementer.decl.name_span)
                    .rel(
                        "method '"@ + method.decl.name@ + "' is declared by interface '"@ + declared_by.decl.name@ + "' here"@,
                        method.decl.file,
                        method.decl.name_span,
                    ),
            OopError::AccessSpecNotAllowedInMethodPrototype(span) =>
                self.err("access specifiers are not allowed on interface method prototypes"@, *span)
                    .note("interface methods are implicitly PUBLIC"@),
            OopError::InterfaceOnlyAllowedAsParam { var, interface } =>
                self.err(
                    "interface type '"@ + interface.name@ + "' is not allowed in "@ + spec_section_keyword(var.kind),
                    var.decl.name_span,
                ).rel("interface '"@ + interface.name@ + "' is defined here"@, interface.file, interface.name_span)
                    .note("interfaces are supported only as VAR_INPUT or VAR_IN_OUT parameters"@),
            OopError::InterfaceParamOnStatefulPou { var, interface, pou_kind } =>
                self.err(
                    "interface '"@ + interface.name@ + "' cannot be a "@ + pou_kind@ + " "@ + spec_param_section(var.kind)
                        + ": the instance would store it across calls; interface parameters exist on FUNCTION and METHOD only"@,
                    var.decl.span,
                ),
            OopError::InterfaceNotAllowedInReturn { interface, spec_span } =>
                self.err("interface type '"@ + interface.name@ + "' is not allowed as a return type"@, *spec_span)
                    .rel("interface '"@ + interface.name@ + "' is defined here"@, interface.file, interface.name_span)
                    .note("interfaces are supported only as VAR_INPUT or VAR_IN_OUT parameters"@),
            OopError::InterfaceNotAllowedNested { interface, spec_span } =>
                self.err(
                    "interface type '"@ + interface.name@
                        + "' cannot be nested inside another type (array, reference, or struct)"@,
                    *spec_span,
                ).rel("interface '"@ + interface.name@ + "' is defined here"@, interface.file, interface.name_span)
                    .note("an interface may only appear directly as a VAR_INPUT or VAR_IN_OUT parameter"@),
            OopError::InterfaceParamNotAssignable { var, access } =>
                self.err("cannot assign to interface parameter '"@ + var.decl.name@ + "'"@, *access)
                    .rel("interface parameter '"@ + var.decl.name@ + "' is declared here"@, var.decl.file, var.decl.name_span)
                    .note("an interface parameter is a fixed binding to the concrete type passed by the caller; it can be used (methods called, passed on) but not reassigned"@),
            OopError::SignatureParametersCountMismatch { m1, expected, m2, got } =>
                self.err(
                    "invalid number of parameters for method '"@ + m1.decl.name@ + "': expected "@
                        + decimal(*expected as nat) + ", got "@ + decimal(*got as nat),
                    m2.decl.name_span,
                ).rel("base method '"@ + m1.decl.name@ + "' is declared here"@, m1.decl.file, m1.decl.name_span),
            OopError::SignatureTypeMismatch { expected, got, method, base_param, param } =>
                self.err(
                    "parameter '"@ + param.decl.name@ + "' of method '"@ + method.decl.name@
                        + "' has an incompatible type: expected '"@ + expected@ + "', got '"@ + got@ + "'"@,
                    param.spec_span,
                ).rel(
                    "the base method declares '"@ + base_param.decl.name@ + "' as '"@ + expected@ + "' here"@,
                    base_param.decl.file,
                    base_param.spec_span,
                ).note("parameter types must match those of the base method"@),
            OopError::SignatureReturnMismatch { expected, got, method, base } =>
                self.err(
                    "method '"@ + method.decl.name@ + "' has an incompatible return type: expected '"@
                        + spec_return_name(*expected) + "', got '"@ + spec_return_name(*got) + "'"@,
                    spec_return_span(*method),
                ).rel(
                    "base method '"@ + base.decl.name@ + "' declares its return type here"@,
                    base.decl.file,
                    spec_return_span(*base),
                ).note("the return type must match the base method's"@),
            OopError::SignatureNameMismatch { method, base_param, param } =>
                self.err(
                    "parameter '"@ + param.decl.name@ + "' of method '"@ + method.decl.name@
                        + "' is named '"@ + base_param.decl.name@ + "' in the base method"@,
                    param.decl.name_span,
                ).rel(
                    "the base method declares '"@ + base_param.decl.name@ + "' at this position"@,
                    base_param.decl.file,
                    base_param.decl.name_span,
                ),
            OopError::SignatureSectionMismatch { method, base_param, param } =>
                self.err(
                    "parameter '"@ + param.decl.name@ + "' of method '"@ + method.decl.name@ + "' is "@
                        + spec_section_keyword(param.kind) + " here but "@ + spec_section_keyword(base_param.kind)
                        + " in the base method"@,
                    param.decl.name_span,
                ).rel(
                    "the base method declares '"@ + base_param.decl.name@ + "' as "@
                        + spec_section_keyword(base_param.kind) + " here"@,
                    base_param.decl.file,
                    base_param.decl.name_span,
                ),
        }
    }

    /// Renders the error as a diagnostic; `file` is the file it was found in.
    #[verifier::rlimit(60)]
    pub fn to_diagnostic(&self, file: FileId) -> (d: Diagnostic)
        ensures
            d@ == self.spec_to_diagnostic(file),
    {
        proof {
            reveal_strlit("EXTENDS ");
            reveal_strlit("IMPLEMENTS ");
        }
        match self {
            OopError::MultipleExtends { location, first_extend_span, file: f, source } => {
                let second = clause_items_of(source.as_str(), *location, "EXTENDS ");
                let first = clause_items_of(source.as_str(), *first_extend_span, "EXTENDS ");
                let mut d = self.error_at(String::from_str("multiple EXTENDS declarations are not allowed"), *location);
                d.with_related_at(
                    cat5("merge into single clause: 'EXTENDS ", first.as_str(), ", ", second.as_str(), "'"),
                    *f,
                    *first_extend_span,
                );
                d
            },
            OopError::MultipleImplements { location, first_implements_span, file: f, source } => {
                let second = clause_items_of(source.as_str(), *location, "IMPLEMENTS ");
                let first = clause_items_of(source.as_str(), *first_implements_span, "IMPLEMENTS ");
                let mut d = self.error_at(String::from_str("multiple IMPLEMENTS declarations are not allowed"), *location);
                d.with_related_at(
                    cat5("merge into single clause: 'IMPLEMENTS ", first.as_str(), ", ", second.as_str(), "'"),
                    *f,
                    *first_implements_span,
                );
                d
            },
            OopError::ImplementsBeforeExtends { implements_span, extends_span, file: f, source } => {
                let implements_text = str_trim(span_text_of(source.as_str(), *implements_span));
                let mut d = self.error_at(String::from_str("IMPLEMENTS must be declared after EXTENDS"), *implements_span);
                d.with_related_at(cat3("move '", implements_text.as_str(), "' here"), *f, *extends_span);
                d
            },
            OopError::ExtendsFinalPou { derived, base, extends } => {
                let kind = pou_keyword(base);
                let mut d = self.error_at(
                    cat7("'", derived.decl.name.as_str(), "' cannot extend FINAL ", kind, " '", base.decl.name.as_str(), "'"),
                    *extends,
                );
                d.with_related_at(
                    cat4(kind, " '", base.decl.name.as_str(), "' is declared FINAL here"),
                    base.decl.file,
                    base.decl.name_span,
                );
                d.with_note(String::from_str("FINAL declares a type complete: it may be used, but not extended"));
                d
            },
            OopError::ThisOnIncompatiblePou { call_site } =>
                self.error_at(String::from_str("'THIS' is not valid in this context"), *call_site),
            OopError::SuperOnIncompatiblePou { call_site } =>
                self.error_at(String::from_str("'SUPER' is not valid in this context"), *call_site),
            OopError::SuperButNoExtends { pou, call_site } => self.error_at(
                cat3("'SUPER' used but no EXTENDS clause found on '", pou.decl.name.as_str(), "'"),
                *call_site,
            ),
            OopError::SuperBodyOnIncompatiblePou { call_site } =>
                self.error_at(String::from_str("'SUPER()' is not valid in this context"), *call_site),
            OopError::SuperBodyInMethod { call_site } => {
                let mut d = self.error_at(
                    String::from_str("'SUPER()' cannot be called in a method of a function block"),
                    *call_site,
                );
                d.with_note(String::from_str("SUPER() is only valid in the function block body, not in a method"));
                d
            },
            OopError::SuperBodyMultiple { call_site, first } => {
                let mut d = self.error_at(
                    String::from_str("'SUPER()' may only be called once in a function block body"),
                    *call_site,
                );
                d.with_related_at(String::from_str("the first 'SUPER()' is here"), file, *first);
                d
            },
            OopError::SuperBodyInLoop { call_site } =>
                self.error_at(String::from_str("'SUPER()' cannot be called inside a loop"), *call_site),
            OopError::MissingOverride { base_method, derived_method } => {
                let mut d = self.error_at(
                    cat3("missing OVERRIDE keyword for method '", derived_method.decl.name.as_str(), "'"),
                    derived_method.decl.name_span,
                );
                d.with_related_at(
                    cat3("base method '", base_method.decl.name.as_str(), "' is declared here"),
                    base_method.decl.file,
                    base_method.decl.name_span,
                );
                d.with_note(String::from_str(
                    "OVERRIDE is required when redefining a method with the same signature from a base class or function block",
                ));
                d
            },
            OopError::EmptyOverride { base_method } => {
                let mut d = self.error_at(
                    cat3("invalid usage of OVERRIDE for method '", base_method.decl.name.as_str(), "'"),
                    base_method.decl.name_span,
                );
                d.with_note(String::from_str("OVERRIDE is only valid when the method is inherited"));
                d
            },
            OopError::OverrideFinalMethod { base_method, derived_method } => {
                let mut d = self.error_at(
                    cat3("cannot override FINAL method '", base_method.decl.name.as_str(), "'"),
                    derived_method.decl.name_span,
                );
                d.with_related_at(
                    cat3("FINAL method '", base_method.decl.name.as_str(), "' is declared here"),
                    base_method.decl.file,
                    base_method.decl.name_span,
                );
                d.with_note(String::from_str("methods marked as FINAL cannot be overridden"));
                d
            },
            OopError::InheritedMemberShadowed { derived, base } => {
                let name = derived.decl.name.as_str();
                let mut d = self.error_at(
                    cat3("variable '", name, "' is already declared in a base POU"),
                    derived.decl.name_span,
                );
                d.with_related_at(
                    cat3("inherited variable '", name, "' is declared here"),
                    base.decl.file,
                    base.decl.name_span,
                );
                d.with_note(String::from_str("variable names in a base and derived POU must be unique"));
                d
            },
            OopError::MissingAbstractMethod { implementer, base_method } => {
                let mut d = self.error_at(
                    cat3("missing implementation for ABSTRACT method '", base_method.decl.name.as_str(), "'"),
                    implementer.decl.name_span,
                );
                d.with_related_at(
                    cat3("ABSTRACT method '", base_method.decl.name.as_str(), "' is declared here"),
                    base_method.decl.file,
                    base_method.decl.name_span,
                );
                d.with_note(String::from_str("ABSTRACT methods must be implemented by derived POUs"));
                d
            },
            OopError::AbstractMethodInConcretePou { pou, method } => {
                let mut d = self.error_at(
                    cat4(
                        pou_keyword(pou),
                        " '",
                        pou.decl.name.as_str(),
                        "' declares an ABSTRACT method, so it must be ABSTRACT itself",
                    ),
                    pou.decl.name_span,
                );
                d.with_related_at(
                    cat3("ABSTRACT method '", method.decl.name.as_str(), "' is declared here"),
                    method.decl.file,
                    method.decl.name_span,
                );
                d.with_note(String::from_str("an ABSTRACT method has no body, so every POU declaring one is incomplete"));
                d
            },
            OopError::InstantiatedAbstractPou { var, pou } => {
                let kind = pou_keyword(pou);
                let mut d = self.error_at(
                    cat5("cannot instantiate ABSTRACT ", kind, " '", pou.decl.name.as_str(), "'"),
                    var.spec_span,
                );
                d.with_related_at(
                    cat4(kind, " '", pou.decl.name.as_str(), "' is declared ABSTRACT here"),
                    pou.decl.file,
                    pou.decl.name_span,
                );
                d.with_note(String::from_str("declare a variable of a derived type that implements it"));
                d
            },
            OopError::UnimplementedInterfaceMethod { implementer, method, declared_by } => {
                let mut d = self.error_at(
                    cat3("missing implementation for interface method '", method.decl.name.as_str(), "'"),
                    implementer.decl.name_span,
                );
                d.with_related_at(
                    cat5(
                        "method '",
                        method.decl.name.as_str(),
                        "' is declared by interface '",
                        declared_by.decl.name.as_str(),
                        "' here",
                    ),
                    method.decl.file,
                    method.decl.name_span,
                );
                d
            },
            OopError::AccessSpecNotAllowedInMethodPrototype(span) => {
                let mut d = self.error_at(
                    String::from_str("access specifiers are not allowed on interface method prototypes"),
                    *span,
                );
                d.with_note(String::from_str("interface methods are implicitly PUBLIC"));
                d
            },
            OopError::InterfaceOnlyAllowedAsParam { var, interface } => {
                let mut d = self.error_at(
                    cat4("interface type '", interface.name.as_str(), "' is not allowed in ", section_keyword(var.kind)),
                    var.decl.name_span,
                );
                d.with_related_at(
                    cat3("interface '", interface.name.as_str(), "' is defined here"),
                    interface.file,
                    interface.name_span,
                );
                d.with_note(String::from_str("interfaces are supported only as VAR_INPUT or VAR_IN_OUT parameters"));
                d
            },
            OopError::InterfaceParamOnStatefulPou { var, interface, pou_kind } => {
                let head = cat5("interface '", interface.name.as_str(), "' cannot be a ", pou_kind.as_str(), " ");
                self.error_at(
                    cat3(
                        head.as_str(),
                        param_section(var.kind),
                        ": the instance would store it across calls; interface parameters exist on FUNCTION and METHOD only",
                    ),
                    var.decl.span,
                )
            },
            OopError::InterfaceNotAllowedInReturn { interface, spec_span } => {
                let mut d = self.error_at(
                    cat3("interface type '", interface.name.as_str(), "' is not allowed as a return type"),
                    *spec_span,
                );
                d.with_related_at(
                    cat3("interface '", interface.name.as_str(), "' is defined here"),
                    interface.file,
                    interface.name_span,
                );
                d.with_note(String::from_str("interfaces are supported only as VAR_INPUT or VAR_IN_OUT parameters"));
                d
            },
            OopError::InterfaceNotAllowedNested { interface, spec_span } => {
                let mut d = self.error_at(
                    cat3(
                        "interface type '",
                        interface.name.as_str(),
                        "' cannot be nested inside another type (array, reference, or struct)",
                    ),
                    *spec_span,
                );
                d.with_related_at(
                    cat3("interface '", interface.name.as_str(), "' is defined here"),
                    interface.file,
                    interface.name_span,
                );
                d.with_note(String::from_str("an interface may only appear directly as a VAR_INPUT or VAR_IN_OUT parameter"));
                d
            },
            OopError::InterfaceParamNotAssignable { var, access } => {
                let name = var.decl.name.as_str();
                let mut d = self.error_at(cat3("cannot assign to interface parameter '", name, "'"), *access);
                d.with_related_at(
                    cat3("interface parameter '", name, "' is declared here"),
                    var.decl.file,
                    var.decl.name_span,
                );
                d.with_note(String::from_str(
                    "an interface parameter is a fixed binding to the concrete type passed by the caller; it can be used (methods called, passed on) but not reassigned",
                ));
                d
            },
            OopError::SignatureParametersCountMismatch { m1, expected, m2, got } => {
                let e = usize_to_string(*expected);
                let g = usize_to_string(*got);
                let mut d = self.error_at(
                    cat6(
                        "invalid number of parameters for method '",
                        m1.decl.name.as_str(),
                        "': expected ",
                        e.as_str(),
                        ", got ",
                        g.as_str(),
                    ),
                    m2.decl.name_span,
                );
                d.with_related_at(
                    cat3("base method '", m1.decl.name.as_str(), "' is declared here"),
                    m1.decl.file,
                    m1.decl.name_span,
                );
                d
            },
            OopError::SignatureTypeMismatch { expected, got, method, base_param, param } => {
                let head = cat5(
                    "parameter '",
                    param.decl.name.as_str(),
                    "' of method '",
                    method.decl.name.as_str(),
                    "' has an incompatible type: expected '",
                );
                let mut d = self.error_at(
                    cat5(head.as_str(), expected.as_str(), "', got '", got.as_str(), "'"),
                    param.spec_span,
                );
                d.with_related_at(
                    cat5("the base method declares '", base_param.decl.name.as_str(), "' as '", expected.as_str(), "' here"),
                    base_param.decl.file,
                    base_param.spec_span,
                );
                d.with_note(String::from_str("parameter types must match those of the base method"));
                d
            },
            OopError::SignatureReturnMismatch { expected, got, method, base } => {
                let mut d = self.error_at(
                    cat7(
                        "method '",
                        method.decl.name.as_str(),
                        "' has an incompatible return type: expected '",
                        return_name(expected),
                        "', got '",
                        return_name(got),
                        "'",
                    ),
                    return_span(method),
                );
                d.with_related_at(
                    cat3("base method '", base.decl.name.as_str(), "' declares its return type here"),
                    base.decl.file,
                    return_span(base),
                );
                d.with_note(String::from_str("the return type must match the base method's"));
                d
            },
            OopError::SignatureNameMismatch { method, base_param, param } => {
                let mut d = self.error_at(
                    cat7(
                        "parameter '",
                        param.decl.name.as_str(),
                        "' of method '",
                        method.decl.name.as_str(),
                        "' is named '",
                        base_param.decl.name.as_str(),
                        "' in the base method",
                    ),
                    param.decl.name_span,
                );
                d.with_related_at(
                    cat3("the base method declares '", base_param.decl.name.as_str(), "' at this position"),
                    base_param.decl.file,
                    base_param.decl.name_span,
                );
                d
            },
            OopError::SignatureSectionMismatch { method, base_param, param } => {
                let head = cat5(
                    "parameter '",
                    param.decl.name.as_str(),
                    "' of method '",
                    method.decl.name.as_str(),
                    "' is ",
                );
                let mut d = self.error_at(
                    cat5(
                        head.as_str(),
                        section_keyword(param.kind),
                        " here but ",
                        section_keyword(base_param.kind),
                        " in the base method",
                    ),
                    param.decl.name_span,
                );
                d.with_related_at(
                    cat5("the base method declares '", base_param.decl.name.as_str(), "' as ", section_keyword(base_param.kind), " here"),
                    base_param.decl.file,
                    base_param.decl.name_span,
                );
                d
            },
        }
    }
}

/// Overriding a FINAL method is reported on the overriding method's name,
/// in the file being checked, and points at the FINAL method in its own
/// file.
pub proof fn law_final_override_marks_the_overriding_method(
    base_method: MethodRef,
    derived_method: MethodRef,
    file: FileId,
)
    ensures
        ({
            let d = (OopError::OverrideFinalMethod { base_method: base_method, derived_method: derived_method })
                .spec_to_diagnostic(file);
            &&& d.span == derived_method.decl.name_span
            &&& d.message == "cannot override FINAL method '"@ + base_method.decl.name@ + "'"@
            &&& d.related.len() == 1
            &&& d.related[0].file == base_method.decl.file
            &&& d.related[0].span == base_method.decl.name_span
        }),
{
}

/// Each kind of `OopError` is reported at the span of what it concerns, with
/// its message and severity, whatever names, spans and texts it holds; a
/// kind whose diagnostic is built directly also carries exactly the
/// related locations, notes, tags, source and quick fixes listed.
pub proof fn law_oop_error_rendering(this: OopError, file: FileId)
    ensures
        match this {
            OopError::MultipleExtends { location, first_extend_span, file: f, source } => {
                let d = this.spec_to_diagnostic(file);
                &&& d.message == "multiple EXTENDS declarations are not allowed"@
                &&& d.span == location
                &&& d.severity == Some(Severity::Error)
                &&& d.related == Seq::<RelatedView>::empty().push(RelatedView { message: "merge into single clause: 'EXTENDS "@ + clause_items(source@, first_extend_span, "EXTENDS "@) + ", "@ + clause_items(source@, location, "EXTENDS "@) + "'"@, file: f, span: first_extend_span })
                &&& d.notes == Seq::<Seq<char>>::empty()
                &&& d.tags == Seq::<Tag>::empty()
                &&& d.source == None::<Seq<char>>
                &&& d.fixes == Seq::<FixView>::empty()
            },
            OopError::MultipleImplements { location, first_implements_span, file: f, source } => {
                let d = this.spec_to_diagnostic(file);
                &&& d.message == "multiple IMPLEMENTS declarations are not allowed"@
                &&& d.span == location
                &&& d.severity == Some(Severity::Error)
                &&& d.related == Seq::<RelatedView>::empty().push(RelatedView { message: "merge into single clause: 'IMPLEMENTS "@ + clause_items(source@, first_implements_span, "IMPLEMENTS "@) + ", "@ + clause_items(source@, location, "IMPLEMENTS "@) + "'"@, file: f, span: first_implements_span })
                &&& d.notes == Seq::<Seq<char>>::empty()
                &&& d.tags == Seq::<Tag>::empty()
                &&& d.source == None::<Seq<char>>
                &&& d.fixes == Seq::<FixView>::empty()
            },
            OopError::ImplementsBeforeExtends { implements_span, extends_span, file: f, source } => {
                let d = this.spec_to_diagnostic(file);
                &&& d.message == "IMPLEMENTS must be declared after EXTENDS"@
                &&& d.span == implements_span
                &&& d.severity == Some(Severity::Error)
                &&& d.related == Seq::<RelatedView>::empty().push(RelatedView { message: "move '"@ + trimmed(span_text(source@, implements_span)) + "' here"@, file: f, span: extends_span })
                &&& d.notes == Seq::<Seq<char>>::empty()
                &&& d.tags == Seq::<Tag>::empty()
                &&& d.source == None::<Seq<char>>
                &&& d.fixes == Seq::<FixView>::empty()
            },
            OopError::ExtendsFinalPou { derived, base, extends } => {
                let d = this.spec_to_diagnostic(file);
                &&& d.message == "'"@ + derived.decl.name@ + "' cannot extend FINAL "@ + spec_pou_keyword(base) + " '"@ + base.decl.name@ + "'"@
                &&& d.span == extends
                &&& d.severity == Some(Severity::Error)
                &&& d.related == Seq::<RelatedView>::empty().push(RelatedView { message: spec_pou_keyword(base) + " '"@ + base.decl.name@ + "' is declared FINAL here"@, file: base.decl.file, span: base.decl.name_span })
                &&& d.notes == Seq::<Seq<char>>::empty().push("FINAL declares a type complete: it may be used, but not extended"@)
                &&& d.tags == Seq::<Tag>::empty()
                &&& d.source == None::<Seq<char>>
                &&& d.fixes == Seq::<FixView>::empty()
            },
            OopError::ThisOnIncompatiblePou { call_site } => {
                let d = this.spec_to_diagnostic(file);
                &&& d.message == "'THIS' is not valid in this context"@
                &&& d.span == call_site
                &&& d.severity == Some(Severity::Error)
                &&& d.related == Seq::<RelatedView>::empty()
                &&& d.notes == Seq::<Seq<char>>::empty()
                &&& d.tags == Seq::<Tag>::empty()
                &&& d.source == None::<Seq<char>>
                &&& d.fixes == Seq::<FixView>::empty()
            },
            OopError::SuperOnIncompatiblePou { call_site } => {
                let d = this.spec_to_diagnostic(file);
                &&& d.message == "'SUPER' is not valid in this context"@
                &&& d.span == call_site
                &&& d.severity == Some(Severity::Error)
                &&& d.related == Seq::<RelatedView>::empty()
                &&& d.notes == Seq::<Seq<char>>::empty()
                &&& d.tags == Seq::<Tag>::empty()
                &&& d.source == None::<Seq<char>>
                &&& d.fixes == Seq::<FixView>::empty()
            },
            OopError::SuperButNoExtends { pou, call_site } => {
                let d = this.spec_to_diagnostic(file);
                &&& d.message == "'SUPER' used but no EXTENDS clause found on '"@ + pou.decl.name@ + "'"@
                &&& d.span == call_site
                &&& d.severity == Some(Severity::Error)
                &&& d.related == Seq::<RelatedView>::empty()
                &&& d.notes == Seq::<Seq<char>>::empty()
                &&& d.tags == Seq::<Tag>::empty()
                &&& d.source == None::<Seq<char>>
                &&& d.fixes == Seq::<FixView>::empty()
            },
            OopError::SuperBodyOnIncompatiblePou { call_site } => {
                let d = this.spec_to_diagnostic(file);
                &&& d.message == "'SUPER()' is not valid in this context"@
                &&& d.span == call_site
                &&& d.severity == Some(Severity::Error)
                &&& d.related == Seq::<RelatedView>::empty()
                &&& d.notes == Seq::<Seq<char>>::empty()
                &&& d.tags == Seq::<Tag>::empty()
                &&& d.source == None::<Seq<char>>
                &&& d.fixes == Seq::<FixView>::empty()
            },
            OopError::SuperBodyInMethod { call_site } => {
                let d = this.spec_to_diagnostic(file);
                &&& d.message == "'SUPER()' cannot be called in a method of a function block"@
                &&& d.span == call_site
                &&& d.severity == Some(Severity::Error)
                &&& d.related == Seq::<RelatedView>::empty()
                &&& d.notes == Seq::<Seq<char>>::empty().push("SUPER() is only valid in the function block body, not in a method"@)
                &&& d.tags == Seq::<Tag>::empty()
                &&& d.source == None::<Seq<char>>
                &&& d.fixes == Seq::<FixView>::empty()
            },
            OopError::SuperBodyMultiple { call_site, first } => {
                let d = this.spec_to_diagnostic(file);
                &&& d.message == "'SUPER()' may only be called once in a function block body"@
                &&& d.span == call_site
                &&& d.severity == Some(Severity::Error)
                &&& d.related == Seq::<RelatedView>::empty().push(RelatedView { message: "the first 'SUPER()' is here"@, file: file, span: first })
                &&& d.notes == Seq::<Seq<char>>::empty()
                &&& d.tags == Seq::<Tag>::empty()
                &&& d.source == None::<Seq<char>>
                &&& d.fixes == Seq::<FixView>::empty()
            },
            OopError::SuperBodyInLoop { call_site } => {
                let d = this.spec_to_diagnostic(file);
                &&& d.message == "'SUPER()' cannot be called inside a loop"@
                &&& d.span == call_site
                &&& d.severity == Some(Severity::Error)
                &&& d.related == Seq::<RelatedView>::empty()
                &&& d.notes == Seq::<Seq<char>>::empty()
                &&& d.tags == Seq::<Tag>::empty()
                &&& d.source == None::<Seq<char>>
                &&& d.fixes == Seq::<FixView>::empty()
            },
            OopError::MissingOverride { base_method, derived_method } => {
                let d = this.spec_to_diagnostic(file);
                &&& d.message == "missing OVERRIDE keyword for method '"@ + derived_method.decl.name@ + "'"@
                &&& d.span == derived_method.decl.name_span
                &&& d.severity == Some(Severity::Error)
                &&& d.related == Seq::<RelatedView>::empty().push(RelatedView { message: "base method '"@ + base_method.decl.name@ + "' is declared here"@, file: base_method.decl.file, span: base_method.decl.name_span })
                &&& d.notes == Seq::<Seq<char>>::empty().push("OVERRIDE is required when redefining a method with the same signature from a base class or function block"@)
                &&& d.tags == Seq::<Tag>::empty()
                &&& d.source == None::<Seq<char>>
                &&& d.fixes == Seq::<FixView>::empty()
            },
            OopError::EmptyOverride { base_method } => {
                let d = this.spec_to_diagnostic(file);
                &&& d.message == "invalid usage of OVERRIDE for method '"@ + base_method.decl.name@ + "'"@
                &&& d.span == base_method.decl.name_span
                &&& d.severity == Some(Severity::Error)
                &&& d.related == Seq::<RelatedView>::empty()
                &&& d.notes == Seq::<Seq<char>>::empty().push("OVERRIDE is only valid when the method is inherited"@)
                &&& d.tags == Seq::<Tag>::empty()
                &&& d.source == None::<Seq<char>>
                &&& d.fixes == Seq::<FixView>::empty()
            },
            OopError::OverrideFinalMethod { base_method, derived_method } => {
                let d = this.spec_to_diagnostic(file);
                &&& d.message == "cannot override FINAL method '"@ + base_method.decl.name@ + "'"@
                &&& d.span == derived_method.decl.name_span
                &&& d.severity == Some(Severity::Error)
                &&& d.related == Seq::<RelatedView>::empty().push(RelatedView { message: "FINAL method '"@ + base_method.decl.name@ + "' is declared here"@, file: base_method.decl.file, span: base_method.decl.name_span })
                &&& d.notes == Seq::<Seq<char>>::empty().push("methods marked as FINAL cannot be overridden"@)
                &&& d.tags == Seq::<Tag>::empty()
                &&& d.source == None::<Seq<char>>
                &&& d.fixes == Seq::<FixView>::empty()
            },
            OopError::InheritedMemberShadowed { derived, base } => {
                let d = this.spec_to_diagnostic(file);
                &&& d.message == "variable '"@ + derived.decl.name@ + "' is already declared in a base POU"@
                &&& d.span == derived.decl.name_span
                &&& d.severity == Some(Severity::Error)
                &&& d.related == Seq::<RelatedView>::empty().push(RelatedView { message: "inherited variable '"@ + derived.decl.name@ + "' is declared here"@, file: base.decl.file, span: base.decl.name_span })
                &&& d.notes == Seq::<Seq<char>>::empty().push("variable names in a base and derived POU must be unique"@)
                &&& d.tags == Seq::<Tag>::empty()
                &&& d.source == None::<Seq<char>>
                &&& d.fixes == Seq::<FixView>::empty()
            },
            OopError::MissingAbstractMethod { implementer, base_method } => {
                let d = this.spec_to_diagnostic(file);
                &&& d.message == "missing implementation for ABSTRACT method '"@ + base_method.decl.name@ + "'"@
                &&& d.span == implementer.decl.name_span
                &&& d.severity == Some(Severity::Error)
                &&& d.related == Seq::<RelatedView>::empty().push(RelatedView { message: "ABSTRACT method '"@ + base_method.decl.name@ + "' is declared here"@, file: base_method.decl.file, span: base_method.decl.name_span })
                &&& d.notes == Seq::<Seq<char>>::empty().push("ABSTRACT methods must be implemented by derived POUs"@)
                &&& d.tags == Seq::<Tag>::empty()
                &&& d.source == None::<Seq<char>>
                &&& d.fixes == Seq::<FixView>::empty()
            },
            OopError::AbstractMethodInConcretePou { pou, method } => {
                let d = this.spec_to_diagnostic(file);
                &&& d.message == spec_pou_keyword(pou) + " '"@ + pou.decl.name@ + "' declares an ABSTRACT method, so it must be ABSTRACT itself"@
                &&& d.span == pou.decl.name_span
                &&& d.severity == Some(Severity::Error)
                &&& d.related == Seq::<RelatedView>::empty().push(RelatedView { message: "ABSTRACT method '"@ + method.decl.name@ + "' is declared here"@, file: method.decl.file, span: method.decl.name_span })
                &&& d.notes == Seq::<Seq<char>>::empty().push("an ABSTRACT method has no body, so every POU declaring one is incomplete"@)
                &&& d.tags == Seq::<Tag>::empty()
                &&& d.source == None::<Seq<char>>
                &&& d.fixes == Seq::<FixView>::empty()
            },
            OopError::InstantiatedAbstractPou { var, pou } => {
                let d = this.spec_to_diagnostic(file);
                &&& d.message == "cannot instantiate ABSTRACT "@ + spec_pou_keyword(pou) + " '"@ + pou.decl.name@ + "'"@
                &&& d.span == var.spec_span
                &&& d.severity == Some(Severity::Error)
                &&& d.related == Seq::<RelatedView>::empty().push(RelatedView { message: spec_pou_keyword(pou) + " '"@ + pou.decl.name@ + "' is declared ABSTRACT here"@, file: pou.decl.file, span: pou.decl.name_span })
                &&& d.notes == Seq::<Seq<char>>::empty().push("declare a variable of a derived type that implements it"@)
                &&& d.tags == Seq::<Tag>::empty()
                &&& d.source == None::<Seq<char>>
                &&& d.fixes == Seq::<FixView>::empty()
            },
            OopError::UnimplementedInterfaceMethod { implementer, method, declared_by } => {
                let d = this.spec_to_diagnostic(file);
                &&& d.message == "missing implementation for interface method '"@ + method.decl.name@ + "'"@
                &&& d.span == implementer.decl.name_span
                &&& d.severity == Some(Severity::Error)
                &&& d.related == Seq::<RelatedView>::empty().push(RelatedView { message: "method '"@ + method.decl.name@ + "' is declared by interface '"@ + declared_by.decl.name@ + "' here"@, file: method.decl.file, span: method.decl.name_span })
                &&& d.notes == Seq::<Seq<char>>::empty()
                &&& d.tags == Seq::<Tag>::empty()
                &&& d.source == None::<Seq<char>>
                &&& d.fixes == Seq::<FixView>::empty()
            },
            OopError::AccessSpecNotAllowedInMethodPrototype(span) => {
                let d = this.spec_to_diagnostic(file);
                &&& d.message == "access specifiers are not allowed on interface method prototypes"@
                &&& d.span == span
                &&& d.severity == Some(Severity::Error)
                &&& d.related == Seq::<RelatedView>::empty()
                &&& d.notes == Seq::<Seq<char>>::empty().push("interface methods are implicitly PUBLIC"@)
                &&& d.tags == Seq::<Tag>::empty()
                &&& d.source == None::<Seq<char>>
                &&& d.fixes == Seq::<FixView>::empty()
            },
            OopError::InterfaceOnlyAllowedAsParam { var, interface } => {
                let d = this.spec_to_diagnostic(file);
                &&& d.message == "interface type '"@ + interface.name@ + "' is not allowed in "@ + spec_section_keyword(var.kind)
                &&& d.span == var.decl.name_span
                &&& d.severity == Some(Severity::Error)
                &&& d.related == Seq::<RelatedView>::empty().push(RelatedView { message: "interface '"@ + interface.name@ + "' is defined here"@, file: interface.file, span: interface.name_span })
                &&& d.notes == Seq::<Seq<char>>::empty().push("interfaces are supported only as VAR_INPUT or VAR_IN_OUT parameters"@)
                &&& d.tags == Seq::<Tag>::empty()
                &&& d.source == None::<Seq<char>>
                &&& d.fixes == Seq::<FixView>::empty()
            },
            OopError::InterfaceParamOnStatefulPou { var, interface, pou_kind } => {
                let d = this.spec_to_diagnostic(file);
                &&& d.message == "interface '"@ + interface.name@ + "' cannot be a "@ + pou_kind@ + " "@ + spec_param_section(var.kind) + ": the instance would store it across calls; interface parameters exist on FUNCTION and METHOD only"@
                &&& d.span == var.decl.span
                &&& d.severity == Some(Severity::Error)
                &&& d.related == Seq::<RelatedView>::empty()
                &&& d.notes == Seq::<Seq<char>>::empty()
                &&& d.tags == Seq::<Tag>::empty()
                &&& d.source == None::<Seq<char>>
                &&& d.fixes == Seq::<FixView>::empty()
            },
            OopError::InterfaceNotAllowedInReturn { interface, spec_span } => {
                let d = this.spec_to_diagnostic(file);
                &&& d.message == "interface type '"@ + interface.name@ + "' is not allowed as a return type"@
                &&& d.span == spec_span
                &&& d.severity == Some(Severity::Error)
                &&& d.related == Seq::<RelatedView>::empty().push(RelatedView { message: "interface '"@ + interface.name@ + "' is defined here"@, file: interface.file, span: interface.name_span })
                &&& d.notes == Seq::<Seq<char>>::empty().push("interfaces are supported only as VAR_INPUT or VAR_IN_OUT parameters"@)
                &&& d.tags == Seq::<Tag>::empty()
                &&& d.source == None::<Seq<char>>
                &&& d.fixes == Seq::<FixView>::empty()
            },
            OopError::InterfaceNotAllowedNested { interface, spec_span } => {
                let d = this.spec_to_diagnostic(file);
                &&& d.message == "interface type '"@ + interface.name@ + "' cannot be nested inside another type (array, reference, or struct)"@
                &&& d.span == spec_span
                &&& d.severity == Some(Severity::Error)
                &&& d.related == Seq::<RelatedView>::empty().push(RelatedView { message: "interface '"@ + interface.name@ + "' is defined here"@, file: interface.file, span: interface.name_span })
                &&& d.notes == Seq::<Seq<char>>::empty().push("an interface may only appear directly as a VAR_INPUT or VAR_IN_OUT parameter"@)
                &&& d.tags == Seq::<Tag>::empty()
                &&& d.source == None::<Seq<char>>
                &&& d.fixes == Seq::<FixView>::empty()
            },
            OopError::InterfaceParamNotAssignable { var, access } => {
                let d = this.spec_to_diagnostic(file);
                &&& d.message == "cannot assign to interface parameter '"@ + var.decl.name@ + "'"@
                &&& d.span == access
                &&& d.severity == Some(Severity::Error)
                &&& d.related == Seq::<RelatedView>::empty().push(RelatedView { message: "interface parameter '"@ + var.decl.name@ + "' is declared here"@, file: var.decl.file, span: var.decl.name_span })
                &&& d.notes == Seq::<Seq<char>>::empty().push("an interface parameter is a fixed binding to the concrete type passed by the caller; it can be used (methods called, passed on) but not reassigned"@)
                &&& d.tags == Seq::<Tag>::empty()
                &&& d.source == None::<Seq<char>>
                &&& d.fixes == Seq::<FixView>::empty()
            },
            OopError::SignatureParametersCountMismatch { m1, expected, m2, got } => {
                let d = this.spec_to_diagnostic(file);
                &&& d.message == "invalid number of parameters for method '"@ + m1.decl.name@ + "': expected "@ + decimal(expected as nat) + ", got "@ + decimal(got as nat)
                &&& d.span == m2.decl.name_span
                &&& d.severity == Some(Severity::Error)
                &&& d.related == Seq::<RelatedView>::empty().push(RelatedView { message: "base method '"@ + m1.decl.name@ + "' is declared here"@, file: m1.decl.file, span: m1.decl.name_span })
                &&& d.notes == Seq::<Seq<char>>::empty()
                &&& d.tags == Seq::<Tag>::empty()
                &&& d.source == None::<Seq<char>>
                &&& d.fixes == Seq::<FixView>::empty()
            },
            OopError::SignatureTypeMismatch { expected, got, method, base_param, param } => {
                let d = this.spec_to_diagnostic(file);
                &&& d.message == "parameter '"@ + param.decl.name@ + "' of method '"@ + method.decl.name@ + "' has an incompatible type: expected '"@ + expected@ + "', got '"@ + got@ + "'"@
                &&& d.span == param.spec_span
                &&& d.severity == Some(Severity::Error)
                &&& d.related == Seq::<RelatedView>::empty().push(RelatedView { message: "the base method declares '"@ + base_param.decl.name@ + "' as '"@ + expected@ + "' here"@, file: base_param.decl.file, span: base_param.spec_span })
                &&& d.notes == Seq::<Seq<char>>::empty().push("parameter types must match those of the base method"@)
                &&& d.tags == Seq::<Tag>::empty()
                &&& d.source == None::<Seq<char>>
                &&& d.fixes == Seq::<FixView>::empty()
            },
            OopError::SignatureReturnMismatch { expected, got, method, base } => {
                let d = this.spec_to_diagnostic(file);
                &&& d.message == "method '"@ + method.decl.name@ + "' has an incompatible return type: expected '"@ + spec_return_name(expected) + "', got '"@ + spec_return_name(got) + "'"@
                &&& d.span == spec_return_span(method)
                &&& d.severity == Some(Severity::Error)
                &&& d.related == Seq::<RelatedView>::empty().push(RelatedView { message: "base method '"@ + base.decl.name@ + "' declares its return type here"@, file: base.decl.file, span: spec_return_span(base) })
                &&& d.notes == Seq::<Seq<char>>::empty().push("the return type must match the base method's"@)
                &&& d.tags == Seq::<Tag>::empty()
                &&& d.source == None::<Seq<char>>
                &&& d.fixes == Seq::<FixView>::empty()
            },
            OopError::SignatureNameMismatch { method, base_param, param } => {
                let d = this.spec_to_diagnostic(file);
                &&& d.message == "parameter '"@ + param.decl.name@ + "' of method '"@ + method.decl.name@ + "' is named '"@ + base_param.decl.name@ + "' in the base method"@
                &&& d.span == param.decl.name_span
                &&& d.severity == Some(Severity::Error)
                &&& d.related == Seq::<RelatedView>::empty().push(RelatedView { message: "the base method declares '"@ + base_param.decl.name@ + "' at this position"@, file: base_param.decl.file, span: base_param.decl.name_span })
                &&& d.notes == Seq::<Seq<char>>::empty()
                &&& d.tags == Seq::<Tag>::empty()
                &&& d.source == None::<Seq<char>>
                &&& d.fixes == Seq::<FixView>::empty()
            },
            OopError::SignatureSectionMismatch { method, base_param, param } => {
                let d = this.spec_to_diagnostic(file);
                &&& d.message == "parameter '"@ + param.decl.name@ + "' of method '"@ + method.decl.name@ + "' is "@ + spec_section_keyword(param.kind) + " here but "@ + spec_section_keyword(base_param.kind) + " in the base method"@
                &&& d.span == param.decl.name_span
                &&& d.severity == Some(Severity::Error)
                &&& d.related == Seq::<RelatedView>::empty().push(RelatedView { message: "the base method declares '"@ + base_param.decl.name@ + "' as "@ + spec_section_keyword(base_param.kind) + " here"@, file: base_param.decl.file, span: base_param.decl.name_span })
                &&& d.notes == Seq::<Seq<char>>::empty()
                &&& d.tags == Seq::<Tag>::empty()
                &&& d.source == None::<Seq<char>>
                &&& d.fixes == Seq::<FixView>::empty()
            },
        },
{
}

} // verus!
