//! The numbered catalogue of errors: each family of errors owns a range of
//! codes (`E00xx` syntax, `E01xx` duplicates, `E02xx` resolution, `E03xx`
//! types, `E04xx` initializers, `E05xx` arrays, `E06xx` enumerations,
//! `E08xx` calls, `E09xx` references, `E10xx` visibility, `E11xx` classes
//! and methods, `E12xx` control flow, `E14xx` configuration, `E15xx`
//! pragmas), and the diagnostic of every error carries its code and its
//! description.
use vstd::prelude::*;
use crate::e00_syntax;
use crate::e01_duplicates;
use crate::e02_resolve;
use crate::e03_type;
use crate::e04_init;
use crate::e05_array;
use crate::e06_enum;
use crate::e08_call;
use crate::e09_reference;
use crate::e10_visibility;
use crate::e11_oop;
use crate::e12_control_flow;
use crate::e14_config;
use crate::e15_pragma;

verus! {

/// Whether `code` is a code of the catalogue in the range whose two leading
/// digits are `d1` and `d2`: an `E` followed by four digits, the first two
/// of which are `d1` and `d2`.
pub open spec fn in_range(code: Seq<char>, d1: char, d2: char) -> bool {
    &&& code.len() == 5
    &&& code[0] == 'E'
    &&& code[1] == d1
    &&& code[2] == d2
    &&& forall|i: int| 3 <= i < 5 ==> '0' <= #[trigger] code[i] && code[i] <= '9'
}

/// Adding "declared here" locations changes no code or description.
proof fn lemma_declared_here_keeps(d: crate::diag::DiagnosticView, others: Seq<crate::hir::NamedView>)
    ensures
        crate::e14_config::declared_here(d, others).code == d.code,
        crate::e14_config::declared_here(d, others).description == d.description,
    decreases others.len(),
{
    if others.len() > 0 {
        lemma_declared_here_keeps(d, others.drop_last());
    }
}

/// Every one of the syntax errors carries its own code and description in its
/// diagnostic, and its code lies in the `E00xx` range.
pub proof fn lemma_syntax_codes(e: e00_syntax::SyntaxError)
    ensures
        e.spec_to_diagnostic().code == Some(e.spec_code()),
        e.spec_to_diagnostic().description == Some(e.spec_description()),
        in_range(e.spec_code(), '0', '0'),
{
    match e {
        e00_syntax::SyntaxError::SyntaxError { .. } => {
            reveal_strlit("E0001");
        },
        e00_syntax::SyntaxError::MissingNode { .. } => {
            reveal_strlit("E0002");
        },
        e00_syntax::SyntaxError::MissingVarType(..) => {
            reveal_strlit("E0003");
        },
        e00_syntax::SyntaxError::UnexpectedVarInit(..) => {
            reveal_strlit("E0004");
        },
        e00_syntax::SyntaxError::EmptyRightHandSide(..) => {
            reveal_strlit("E0005");
        },
        e00_syntax::SyntaxError::MissingDotInAssignment { .. } => {
            reveal_strlit("E0006");
        },
        e00_syntax::SyntaxError::MissingEqualInAssignment { .. } => {
            reveal_strlit("E0007");
        },
        e00_syntax::SyntaxError::OutputAssignInAssignment { .. } => {
            reveal_strlit("E0008");
        },
        e00_syntax::SyntaxError::MissingDotInForList { .. } => {
            reveal_strlit("E0009");
        },
        e00_syntax::SyntaxError::MissingEqualInForList { .. } => {
            reveal_strlit("E0010");
        },
        e00_syntax::SyntaxError::OutputAssignInForList { .. } => {
            reveal_strlit("E0011");
        },
        e00_syntax::SyntaxError::AssignInCondition { .. } => {
            reveal_strlit("E0012");
        },
        e00_syntax::SyntaxError::AssignToFunctionCall(..) => {
            reveal_strlit("E0013");
        },
        e00_syntax::SyntaxError::IncompleteEdgeQualifier(..) => {
            reveal_strlit("E0014");
        },
        e00_syntax::SyntaxError::UnexpectedThis(..) => {
            reveal_strlit("E0015");
        },
        e00_syntax::SyntaxError::UnexpectedSuper(..) => {
            reveal_strlit("E0016");
        },
        e00_syntax::SyntaxError::VarNotAllowed(..) => {
            reveal_strlit("E0017");
        },
        e00_syntax::SyntaxError::VarInOutNotAllowed(..) => {
            reveal_strlit("E0018");
        },
        e00_syntax::SyntaxError::VarTempNotAllowed(..) => {
            reveal_strlit("E0019");
        },
        e00_syntax::SyntaxError::VarExternalNotAllowed(..) => {
            reveal_strlit("E0020");
        },
        e00_syntax::SyntaxError::VarGlobalNotAllowed(..) => {
            reveal_strlit("E0021");
        },
        e00_syntax::SyntaxError::VarAccessNotAllowed(..) => {
            reveal_strlit("E0022");
        },
        e00_syntax::SyntaxError::VarConfigNotAllowed(..) => {
            reveal_strlit("E0023");
        },
        e00_syntax::SyntaxError::ProgramNotAllowedInNamespace(..) => {
            reveal_strlit("E0024");
        },
        e00_syntax::SyntaxError::ConfigNotAllowedInNamespace(..) => {
            reveal_strlit("E0025");
        },
        e00_syntax::SyntaxError::FbVariablesAfterMethod { .. } => {
            reveal_strlit("E0026");
        },
        e00_syntax::SyntaxError::ClassVariablesAfterMethod { .. } => {
            reveal_strlit("E0027");
        },
        e00_syntax::SyntaxError::MethodDeclInBody(..) => {
            reveal_strlit("E0028");
        },
    }
}

/// Every one of the duplicate declarations carries its own code and description in its
/// diagnostic, and its code lies in the `E01xx` range.
pub proof fn lemma_duplicates_codes(e: e01_duplicates::DuplicateError)
    ensures
        e.spec_to_diagnostic().code == Some(e.spec_code()),
        e.spec_to_diagnostic().description == Some(e.spec_description()),
        in_range(e.spec_code(), '0', '1'),
{
    match e {
        e01_duplicates::DuplicateError::Variable { .. } => {
            reveal_strlit("E0101");
        },
        e01_duplicates::DuplicateError::Pou { .. } => {
            reveal_strlit("E0102");
        },
        e01_duplicates::DuplicateError::Parameter { .. } => {
            reveal_strlit("E0103");
        },
        e01_duplicates::DuplicateError::StructField { .. } => {
            reveal_strlit("E0104");
        },
        e01_duplicates::DuplicateError::EnumVariant { .. } => {
            reveal_strlit("E0105");
        },
        e01_duplicates::DuplicateError::InitExprField { .. } => {
            reveal_strlit("E0106");
        },
        e01_duplicates::DuplicateError::VariableIsReturnValue { .. } => {
            reveal_strlit("E0107");
        },
        e01_duplicates::DuplicateError::MethodDecl { .. } => {
            reveal_strlit("E0108");
        },
        e01_duplicates::DuplicateError::MethodProt { .. } => {
            reveal_strlit("E0109");
        },
        e01_duplicates::DuplicateError::InheritedMethod { .. } => {
            reveal_strlit("E0110");
        },
        e01_duplicates::DuplicateError::Using { .. } => {
            reveal_strlit("E0111");
        },
        e01_duplicates::DuplicateError::Program { .. } => {
            reveal_strlit("E0112");
        },
        e01_duplicates::DuplicateError::ProgInstance { .. } => {
            reveal_strlit("E0113");
        },
        e01_duplicates::DuplicateError::Task { .. } => {
            reveal_strlit("E0114");
        },
        e01_duplicates::DuplicateError::Resource { .. } => {
            reveal_strlit("E0115");
        },
    }
}

/// Every one of the resolution errors carries its own code and description in its
/// diagnostic, and its code lies in the `E02xx` range.
pub proof fn lemma_resolve_codes(e: e02_resolve::ResolveError)
    ensures
        e.spec_to_diagnostic().code == Some(e.spec_code()),
        e.spec_to_diagnostic().description == Some(e.spec_description()),
        in_range(e.spec_code(), '0', '2'),
{
    match e {
        e02_resolve::ResolveError::NoItemInScope { .. } => {
            reveal_strlit("E0201");
        },
        e02_resolve::ResolveError::NoSuchFieldInitExpr { .. } => {
            reveal_strlit("E0202");
        },
        e02_resolve::ResolveError::NoSuchFieldPathExpr { .. } => {
            reveal_strlit("E0202");
        },
        e02_resolve::ResolveError::NoNamespaceItemFound { .. } => {
            reveal_strlit("E0203");
        },
        e02_resolve::ResolveError::UsingNamespaceNotFound { .. } => {
            reveal_strlit("E0204");
        },
        e02_resolve::ResolveError::MultipleItemsInScope { .. } => {
            reveal_strlit("E0205");
        },
        e02_resolve::ResolveError::ExternalVarNotFound { .. } => {
            reveal_strlit("E0206");
        },
        e02_resolve::ResolveError::ExternalVarTypeMismatch { .. } => {
            reveal_strlit("E0207");
        },
        e02_resolve::ResolveError::RetainInStatelessPou { .. } => {
            reveal_strlit("E0208");
        },
    }
}

/// Every one of the type errors carries its own code and description in its
/// diagnostic, and its code lies in the `E03xx` range.
pub proof fn lemma_type_codes(e: e03_type::TypeError)
    ensures
        e.spec_to_diagnostic().code == Some(e.spec_code()),
        e.spec_to_diagnostic().description == Some(e.spec_description()),
        in_range(e.spec_code(), '0', '3'),
{
    match e {
        e03_type::TypeError::NotAssignable { .. } => {
            reveal_strlit("E0301");
        },
        e03_type::TypeError::NotComparable { .. } => {
            reveal_strlit("E0302");
        },
        e03_type::TypeError::NotAddable { .. } => {
            reveal_strlit("E0303");
        },
        e03_type::TypeError::NotMultiplicable { .. } => {
            reveal_strlit("E0304");
        },
        e03_type::TypeError::UnsupportedOperator { .. } => {
            reveal_strlit("E0305");
        },
        e03_type::TypeError::InferLiteralError { .. } => {
            reveal_strlit("E0306");
        },
        e03_type::TypeError::StringLengthNotConstant { .. } => {
            reveal_strlit("E0307");
        },
        e03_type::TypeError::FunctionAsType { .. } => {
            reveal_strlit("E0308");
        },
        e03_type::TypeError::VariadicMixedWithOtherInputs { .. } => {
            reveal_strlit("E0309");
        },
        e03_type::TypeError::DirectType { .. } => {
            reveal_strlit("E0309");
        },
        e03_type::TypeError::VariadicNotInInput { .. } => {
            reveal_strlit("E0310");
        },
        e03_type::TypeError::AssignCallableType { .. } => {
            reveal_strlit("E0310");
        },
    }
}

/// Every one of the initializer errors carries its own code and description in its
/// diagnostic, and its code lies in the `E04xx` range.
pub proof fn lemma_init_codes(e: e04_init::InitError)
    ensures
        e.spec_to_diagnostic().code == Some(e.spec_code()),
        e.spec_to_diagnostic().description == Some(e.spec_description()),
        in_range(e.spec_code(), '0', '4'),
{
    match e {
        e04_init::InitError::InitNotConstant { .. } => {
            reveal_strlit("E0401");
        },
        e04_init::InitError::FunctionCallInInitExpression(..) => {
            reveal_strlit("E0402");
        },
        e04_init::InitError::NoFieldOnElementaryType { .. } => {
            reveal_strlit("E0403");
        },
        e04_init::InitError::AssignToConstant { .. } => {
            reveal_strlit("E0404");
        },
        e04_init::InitError::UninitializableMember { .. } => {
            reveal_strlit("E0405");
        },
    }
}

/// Every one of the array errors carries its own code and description in its
/// diagnostic, and its code lies in the `E05xx` range.
pub proof fn lemma_array_codes(e: e05_array::ArrayError)
    ensures
        e.spec_to_diagnostic().code == Some(e.spec_code()),
        e.spec_to_diagnostic().description == Some(e.spec_description()),
        in_range(e.spec_code(), '0', '5'),
{
    match e {
        e05_array::ArrayError::InvalidArrayLowerValue { .. } => {
            reveal_strlit("E0501");
        },
        e05_array::ArrayError::InvalidArrayUpperValue { .. } => {
            reveal_strlit("E0502");
        },
        e05_array::ArrayError::InferiorUpperBound { .. } => {
            reveal_strlit("E0503");
        },
        e05_array::ArrayError::NonIntegerIndex { .. } => {
            reveal_strlit("E0504");
        },
        e05_array::ArrayError::InvalidIndex { .. } => {
            reveal_strlit("E0505");
        },
        e05_array::ArrayError::IndexOutOfBounds { .. } => {
            reveal_strlit("E0506");
        },
        e05_array::ArrayError::TooManyElements { .. } => {
            reveal_strlit("E0507");
        },
        e05_array::ArrayError::IndexNonArrayTypeInitExpr { .. } => {
            reveal_strlit("E0508");
        },
        e05_array::ArrayError::IndexNonArrayTypePathExpr { .. } => {
            reveal_strlit("E0508");
        },
        e05_array::ArrayError::ArrayConformandNotSupported(..) => {
            reveal_strlit("E0509");
        },
    }
}

/// Every one of the enumeration errors carries its own code and description in its
/// diagnostic, and its code lies in the `E06xx` range.
pub proof fn lemma_enum_codes(e: e06_enum::EnumError)
    ensures
        e.spec_to_diagnostic().code == Some(e.spec_code()),
        e.spec_to_diagnostic().description == Some(e.spec_description()),
        in_range(e.spec_code(), '0', '6'),
{
    match e {
        e06_enum::EnumError::InvalidEnumType { .. } => {
            reveal_strlit("E0601");
        },
        e06_enum::EnumError::NotAnEnum { .. } => {
            reveal_strlit("E0602");
        },
        e06_enum::EnumError::EnumVariantNotFound { .. } => {
            reveal_strlit("E0603");
        },
        e06_enum::EnumError::EnumValueNotConstant { .. } => {
            reveal_strlit("E0604");
        },
    }
}

/// Every one of the call errors carries its own code and description in its
/// diagnostic, and its code lies in the `E08xx` range.
pub proof fn lemma_call_codes(e: e08_call::CallError)
    ensures
        e.spec_to_diagnostic().code == Some(e.spec_code()),
        e.spec_to_diagnostic().description == Some(e.spec_description()),
        in_range(e.spec_code(), '0', '8'),
{
    match e {
        e08_call::CallError::IncorrectNumberOfParameters { .. } => {
            reveal_strlit("E0801");
        },
        e08_call::CallError::MissingRequiredParameter { .. } => {
            reveal_strlit("E0802");
        },
        e08_call::CallError::UnknownInputParameter { .. } => {
            reveal_strlit("E0803");
        },
        e08_call::CallError::UnknownOutputParameter { .. } => {
            reveal_strlit("E0804");
        },
        e08_call::CallError::OutputParameterUsedAsInput { .. } => {
            reveal_strlit("E0805");
        },
        e08_call::CallError::InOutParameterRequiresLValue { .. } => {
            reveal_strlit("E0806");
        },
        e08_call::CallError::InOutParameterBoundWithArrow { .. } => {
            reveal_strlit("E0807");
        },
        e08_call::CallError::MultibitsOutOfRange { .. } => {
            reveal_strlit("E0808");
        },
        e08_call::CallError::CallNonCallableType { .. } => {
            reveal_strlit("E0808");
        },
        e08_call::CallError::AmbiguousOverload { .. } => {
            reveal_strlit("E0809");
        },
        e08_call::CallError::NoMatchingOverload { .. } => {
            reveal_strlit("E0810");
        },
        e08_call::CallError::NonVariadicTypeForVariable { .. } => {
            reveal_strlit("E0811");
        },
        e08_call::CallError::MultipleVariadicVariables { .. } => {
            reveal_strlit("E0812");
        },
        e08_call::CallError::EmptyVariadicCall { .. } => {
            reveal_strlit("E0813");
        },
        e08_call::CallError::NonVariadicFoldParameter { .. } => {
            reveal_strlit("E0814");
        },
        e08_call::CallError::VariadicMixedWithOtherInputs { .. } => {
            reveal_strlit("E0815");
        },
    }
}

/// Every one of the reference errors carries its own code and description in its
/// diagnostic, and its code lies in the `E09xx` range.
pub proof fn lemma_reference_codes(e: e09_reference::ReferenceError)
    ensures
        e.spec_to_diagnostic().code == Some(e.spec_code()),
        e.spec_to_diagnostic().description == Some(e.spec_description()),
        in_range(e.spec_code(), '0', '9'),
{
    match e {
        e09_reference::ReferenceError::DerefNonRefType { .. } => {
            reveal_strlit("E0901");
        },
        e09_reference::ReferenceError::DerefPossiblyNull { .. } => {
            reveal_strlit("E0902");
        },
        e09_reference::ReferenceError::ReturnsReferenceToLocal { .. } => {
            reveal_strlit("E0903");
        },
    }
}

/// Every one of the visibility errors carries its own code and description in its
/// diagnostic, and its code lies in the `E10xx` range.
pub proof fn lemma_visibility_codes(e: e10_visibility::VisibilityError)
    ensures
        e.spec_to_diagnostic().code == Some(e.spec_code()),
        e.spec_to_diagnostic().description == Some(e.spec_description()),
        in_range(e.spec_code(), '1', '0'),
{
    match e {
        e10_visibility::VisibilityError::Private { .. } => {
            reveal_strlit("E1001");
        },
        e10_visibility::VisibilityError::Protected { .. } => {
            reveal_strlit("E1002");
        },
        e10_visibility::VisibilityError::Internal { .. } => {
            reveal_strlit("E1003");
        },
        e10_visibility::VisibilityError::InternalNamespace { .. } => {
            reveal_strlit("E1004");
        },
        e10_visibility::VisibilityError::PrivateFunction { .. } => {
            reveal_strlit("E1005");
        },
        e10_visibility::VisibilityError::SpecifierNotOnFunction { .. } => {
            reveal_strlit("E1006");
        },
        e10_visibility::VisibilityError::TestOnly { .. } => {
            reveal_strlit("E1007");
        },
    }
}

/// Every one of the object-oriented errors carries its own code and description in its
/// diagnostic, and its code lies in the `E11xx` range.
pub proof fn lemma_oop_codes(e: e11_oop::OopError, file: crate::diag::FileId)
    ensures
        e.spec_to_diagnostic(file).code == Some(e.spec_code()),
        e.spec_to_diagnostic(file).description == Some(e.spec_description()),
        in_range(e.spec_code(), '1', '1'),
{
    match e {
        e11_oop::OopError::MultipleExtends { .. } => {
            reveal_strlit("E1101");
        },
        e11_oop::OopError::MultipleImplements { .. } => {
            reveal_strlit("E1102");
        },
        e11_oop::OopError::ImplementsBeforeExtends { .. } => {
            reveal_strlit("E1103");
        },
        e11_oop::OopError::ExtendsFinalPou { .. } => {
            reveal_strlit("E1104");
        },
        e11_oop::OopError::ThisOnIncompatiblePou { .. } => {
            reveal_strlit("E1105");
        },
        e11_oop::OopError::SuperOnIncompatiblePou { .. } => {
            reveal_strlit("E1106");
        },
        e11_oop::OopError::SuperButNoExtends { .. } => {
            reveal_strlit("E1107");
        },
        e11_oop::OopError::SuperBodyOnIncompatiblePou { .. } => {
            reveal_strlit("E1108");
        },
        e11_oop::OopError::SuperBodyInMethod { .. } => {
            reveal_strlit("E1109");
        },
        e11_oop::OopError::SuperBodyMultiple { .. } => {
            reveal_strlit("E1110");
        },
        e11_oop::OopError::SuperBodyInLoop { .. } => {
            reveal_strlit("E1111");
        },
        e11_oop::OopError::MissingOverride { .. } => {
            reveal_strlit("E1112");
        },
        e11_oop::OopError::EmptyOverride { .. } => {
            reveal_strlit("E1113");
        },
        e11_oop::OopError::OverrideFinalMethod { .. } => {
            reveal_strlit("E1114");
        },
        e11_oop::OopError::InheritedMemberShadowed { .. } => {
            reveal_strlit("E1115");
        },
        e11_oop::OopError::MissingAbstractMethod { .. } => {
            reveal_strlit("E1116");
        },
        e11_oop::OopError::AbstractMethodInConcretePou { .. } => {
            reveal_strlit("E1117");
        },
        e11_oop::OopError::InstantiatedAbstractPou { .. } => {
            reveal_strlit("E1118");
        },
        e11_oop::OopError::UnimplementedInterfaceMethod { .. } => {
            reveal_strlit("E1119");
        },
        e11_oop::OopError::AccessSpecNotAllowedInMethodPrototype(_) => {
            reveal_strlit("E1120");
        },
        e11_oop::OopError::InterfaceOnlyAllowedAsParam { .. } => {
            reveal_strlit("E1121");
        },
        e11_oop::OopError::InterfaceParamOnStatefulPou { .. } => {
            reveal_strlit("E1121");
        },
        e11_oop::OopError::InterfaceNotAllowedInReturn { .. } => {
            reveal_strlit("E1122");
        },
        e11_oop::OopError::InterfaceNotAllowedNested { .. } => {
            reveal_strlit("E1123");
        },
        e11_oop::OopError::InterfaceParamNotAssignable { .. } => {
            reveal_strlit("E1124");
        },
        e11_oop::OopError::SignatureParametersCountMismatch { .. } => {
            reveal_strlit("E1125");
        },
        e11_oop::OopError::SignatureTypeMismatch { .. } => {
            reveal_strlit("E1126");
        },
        e11_oop::OopError::SignatureReturnMismatch { .. } => {
            reveal_strlit("E1127");
        },
        e11_oop::OopError::SignatureNameMismatch { .. } => {
            reveal_strlit("E1128");
        },
        e11_oop::OopError::SignatureSectionMismatch { .. } => {
            reveal_strlit("E1129");
        },
    }
}

/// Every one of the control-flow errors carries its own code and description in its
/// diagnostic, and its code lies in the `E12xx` range.
pub proof fn lemma_control_flow_codes(e: e12_control_flow::ControlFlowError)
    ensures
        e.spec_to_diagnostic().code == Some(e.spec_code()),
        e.spec_to_diagnostic().description == Some(e.spec_description()),
        in_range(e.spec_code(), '1', '2'),
{
    match e {
        e12_control_flow::ControlFlowError::ExitOutsideLoop { .. } => {
            reveal_strlit("E1201");
        },
        e12_control_flow::ControlFlowError::ContinueOutsideLoop { .. } => {
            reveal_strlit("E1202");
        },
        e12_control_flow::ControlFlowError::ForControlNotAVariable { .. } => {
            reveal_strlit("E1203");
        },
        e12_control_flow::ControlFlowError::ForStepInvalid { .. } => {
            reveal_strlit("E1204");
        },
        e12_control_flow::ControlFlowError::CaseLabelNotConstant { .. } => {
            reveal_strlit("E1205");
        },
    }
}

/// Every one of the configuration errors carries its own code and description in its
/// diagnostic, and its code lies in the `E14xx` range.
#[verifier::rlimit(100)]
pub proof fn lemma_config_codes(e: e14_config::ConfigError)
    ensures
        e.spec_to_diagnostic().code == Some(e.spec_code()),
        e.spec_to_diagnostic().description == Some(e.spec_description()),
        in_range(e.spec_code(), '1', '4'),
{
    match e {
        e14_config::ConfigError::NoConfigFileFound { .. } => {
            reveal_strlit("E1401");
        },
        e14_config::ConfigError::MultipleConfigurations { config, others } => {
            reveal_strlit("E1402");
            lemma_declared_here_keeps(e.err("a workspace can only have one CONFIGURATION; this one declares "@ + crate::text::decimal(others@.len() + 1), config.name_span), crate::e14_config::named_views(others@));
        },
        e14_config::ConfigError::MultipleResources { .. } => {
            reveal_strlit("E1403");
        },
        e14_config::ConfigError::TaskOrProgramOutsideResource(_) => {
            reveal_strlit("E1404");
        },
        e14_config::ConfigError::MissingPriority(_) => {
            reveal_strlit("E1405");
        },
        e14_config::ConfigError::InvalidPriority { .. } => {
            reveal_strlit("E1406");
        },
        e14_config::ConfigError::IntervalAfterPriority(_) => {
            reveal_strlit("E1407");
        },
        e14_config::ConfigError::SingleAfterInterval(_) => {
            reveal_strlit("E1408");
        },
        e14_config::ConfigError::SingleAfterPriority(_) => {
            reveal_strlit("E1409");
        },
        e14_config::ConfigError::UnschedulableTask { .. } => {
            reveal_strlit("E1410");
        },
        e14_config::ConfigError::UnknownTaskRef { .. } => {
            reveal_strlit("E1411");
        },
        e14_config::ConfigError::ProgramWithoutTask { .. } => {
            reveal_strlit("E1412");
        },
        e14_config::ConfigError::ConfigInstInitUnknownInstance { .. } => {
            reveal_strlit("E1413");
        },
        e14_config::ConfigError::ConfigInstInitFieldNotFound { .. } => {
            reveal_strlit("E1414");
        },
        e14_config::ConfigError::AccessDeclTypeMismatch { .. } => {
            reveal_strlit("E1415");
        },
        e14_config::ConfigError::UnsupportedConfigElement { .. } => {
            reveal_strlit("E1416");
        },
        e14_config::ConfigError::DirectVariableUnsupported { .. } => {
            reveal_strlit("E1417");
        },
        e14_config::ConfigError::UnknownMultibitsAccess { .. } => {
            reveal_strlit("E1418");
        },
        e14_config::ConfigError::WriteToInputLocation { .. } => {
            reveal_strlit("E1419");
        },
        e14_config::ConfigError::RetainOnIoLocation { .. } => {
            reveal_strlit("E1420");
        },
        e14_config::ConfigError::DuplicateLocation { .. } => {
            reveal_strlit("E1421");
        },
        e14_config::ConfigError::LocationWidthMismatch { .. } => {
            reveal_strlit("E1422");
        },
        e14_config::ConfigError::PartOfWiderAddress { .. } => {
            reveal_strlit("E1423");
        },
        e14_config::ConfigError::ConfigLocationRefused { .. } => {
            reveal_strlit("E1424");
        },
        e14_config::ConfigError::PartlyLocatedUnlocated(_) => {
            reveal_strlit("E1425");
        },
        e14_config::ConfigError::ConfigEntryRefused { .. } => {
            reveal_strlit("E1426");
        },
    }
}

/// Every one of the pragma errors carries its own code and description in its
/// diagnostic, and its code lies in the `E15xx` range.
pub proof fn lemma_pragma_codes(e: e15_pragma::PragmaError)
    ensures
        e.spec_to_diagnostic().code == Some(e.spec_code()),
        e.spec_to_diagnostic().description == Some(e.spec_description()),
        in_range(e.spec_code(), '1', '5'),
{
    match e {
        e15_pragma::PragmaError::ExternOutsideFunction { .. } => {
            reveal_strlit("E1501");
        },
        e15_pragma::PragmaError::ExternForbiddenSection { .. } => {
            reveal_strlit("E1502");
        },
        e15_pragma::PragmaError::ExternNonScalarReturn { .. } => {
            reveal_strlit("E1502");
        },
        e15_pragma::PragmaError::ExternWithBody { .. } => {
            reveal_strlit("E1502");
        },
        e15_pragma::PragmaError::TestOutsideFunction { .. } => {
            reveal_strlit("E1503");
        },
        e15_pragma::PragmaError::WasmPragmaOutsideFunction { .. } => {
            reveal_strlit("E1504");
        },
        e15_pragma::PragmaError::UnknownWasmInstruction { .. } => {
            reveal_strlit("E1505");
        },
        e15_pragma::PragmaError::UnknownWasmOperand { .. } => {
            reveal_strlit("E1506");
        },
        e15_pragma::PragmaError::WasmSignatureMismatch { .. } => {
            reveal_strlit("E1507");
        },
        e15_pragma::PragmaError::ExportOutsideFunction { .. } => {
            reveal_strlit("E1508");
        },
        e15_pragma::PragmaError::ExportForbidden { .. } => {
            reveal_strlit("E1509");
        },
    }
}

} // verus!
