use hir::analysis_error::AnalysisError;
use hir::body_inference::{BodyInferenceError, TypeError as InferredTypeError};
use hir::diag::{FileId, Point, Severity, Span};
use hir::e09_reference::ReferenceError;
use hir::e0_syntax::SyntaxError;
use hir::e10_control_flow::ControlFlowError;
use hir::e1_duplicates::DuplicateError;
use hir::e6_array::ArrayError;
use hir::e9_recursion::RecursionError;
use hir::e8_subrange::{BoundedType, SubRangeError};
use hir::e00_syntax::SyntaxError as NumberedSyntaxError;
use hir::hir::{Named, TypeRef, Var, VariableKind};
use hir::stmt::{ResolvedAccess, StmtError};

fn span(start: usize, end: usize) -> Span {
    Span {
        start_byte: start,
        end_byte: end,
        start_point: Point { row: 0, column: start },
        end_point: Point { row: 0, column: end },
    }
}

fn named(name: &str, file: u64, start: usize) -> Named {
    Named {
        name: name.to_string(),
        span: span(start, start + 10),
        name_span: span(start + 2, start + 2 + name.len()),
        file: FileId { id: file },
    }
}

fn ty(name: &str) -> TypeRef {
    TypeRef { name: name.to_string(), is_void: false, location: None }
}

#[test]
fn two_extends_clauses_suggest_merging_them() {
    let source = "FUNCTION_BLOCK fb EXTENDS A EXTENDS B".to_string();
    let e = SyntaxError::MultipleExtends {
        location: span(28, 37),
        first_extend_span: span(18, 27),
        file: FileId { id: 5 },
        source,
    };
    assert_eq!(e.code(), "E0001");
    assert_eq!(e.description(), "syntax");
    let d = e.to_diagnostic();
    assert_eq!(d.message, "multiple EXTENDS declarations are not allowed");
    assert_eq!(d.span, span(28, 37));
    assert_eq!(d.related.len(), 1);
    assert_eq!(d.related[0].message, "merge into single clause: 'EXTENDS A, B'");
    assert_eq!(d.related[0].file, FileId { id: 5 });
    assert_eq!(d.related[0].span, span(18, 27));
}

#[test]
fn duplicate_pou_in_the_second_catalogue() {
    let e = DuplicateError::Pou { pou1: named("Main", 1, 50), pou2: named("Main", 2, 0) };
    assert_eq!(e.code(), "E0101");
    let d = e.to_diagnostic();
    assert_eq!(d.message, "duplicate POU 'Main'");
    assert_eq!(d.span, span(52, 56));
    assert_eq!(d.related[0].message, "POU 'Main' is already defined here");
    assert_eq!(d.related[0].file, FileId { id: 2 });
}

#[test]
fn array_bounds_share_a_description() {
    let e = ArrayError::InvalidArrayLowerValue { value: span(4, 6) };
    assert_eq!(e.code(), "E0601");
    assert_eq!(e.description(), "invalid array bounds");
    assert_eq!(e.to_diagnostic().message, "invalid lower bound value for ARRAY");
}

#[test]
fn recursion_is_described_alike() {
    let e = RecursionError::DirectRecursion { pou: named("Node", 1, 0), callsite: None };
    assert_eq!(e.code(), "E0901");
    assert_eq!(e.description(), "recursion detected");
    assert_eq!(e.to_diagnostic().message, "type 'Node' is recursive (contains itself)");
}

#[test]
fn assigning_a_callable() {
    let e = ControlFlowError::AssignCallableType { typ: named("Fn", 1, 0), access: span(3, 5) };
    assert_eq!(e.code(), "E0226");
    assert_eq!(e.description(), "semantic violation");
    assert_eq!(e.to_diagnostic().message, "'Fn' is a callable type and can not be assigned");
}

#[test]
fn dereferencing_a_value() {
    let e = ReferenceError::DerefNonRefType { expr: span(0, 3), ty: "INT".to_string() };
    assert_eq!(e.code(), "E0901");
    assert_eq!(e.description(), "invalid operation");
    assert_eq!(e.to_diagnostic().message, "cannot dereference non-reference type 'INT'");
}

#[test]
fn inference_errors_set_no_severity() {
    let v = Var { decl: named("inp", 1, 0), kind: VariableKind::Input, spec_span: span(0, 1) };
    let e = BodyInferenceError::IsVarInput { var: v, access: span(20, 23) };
    let d = e.to_diagnostic();
    assert_eq!(d.message, "inp is an input variable and can not be assigned");
    assert_eq!(d.severity, None);
    assert_eq!(d.code, None);
}

#[test]
fn an_unused_return_value_is_information() {
    let e = InferredTypeError::UnusedReturnType { typ: ty("INT"), expr: span(0, 5) };
    let d = e.to_diagnostic();
    assert_eq!(d.message, "unused return value of 'INT'");
    assert_eq!(d.severity, Some(Severity::Information));
}

#[test]
fn an_unused_path_is_a_warning() {
    let e = StmtError::EmptyPathExpression {
        var: ResolvedAccess { decl_name: "x".to_string(), span: span(1, 2), location: None },
    };
    let d = e.to_diagnostic();
    assert_eq!(d.message, "unused path, you might want to do something with it");
    assert_eq!(d.severity, Some(Severity::Warning));
}

#[test]
fn analysis_errors_render_through_their_family() {
    let inner = RecursionError::DirectRecursion { pou: named("Node", 1, 0), callsite: None };
    let expected = inner.to_diagnostic();
    let d = AnalysisError::Recursion(inner).to_diagnostic(FileId { id: 1 });
    assert_eq!(d.message, expected.message);
    assert_eq!(d.code, expected.code);
    assert_eq!(d.span, expected.span);
}

#[test]
fn values_outside_a_subrange() {
    let e = SubRangeError::ValueOutOfRange { expr: span(2, 4), value: -12, lower: -10, upper: 10 };
    assert_eq!(e.code(), "E0802");
    assert_eq!(e.description(), "value outside subrange");
    let d = e.to_diagnostic();
    assert_eq!(d.message, "value -12 is outside the subrange -10..10");
    assert_eq!(d.notes, vec!["the declared range only admits values from -10 to 10".to_string()]);
}

#[test]
fn a_by_reference_subrange_mismatch_names_both_bounds() {
    let e = SubRangeError::ByRefSubrangeMismatch {
        span: span(0, 1),
        param: BoundedType { name: "Small".to_string(), bounds: Some((0, 10)) },
        arg: BoundedType { name: "Smaller".to_string(), bounds: Some((0, 20)) },
    };
    assert_eq!(e.code(), "E0804");
    assert_eq!(
        e.to_diagnostic().message,
        "'Smaller (0..20)' binds by reference to 'Small (0..10)': the subrange must match exactly"
    );
}

#[test]
fn an_equals_sign_is_replaced_by_the_assignment() {
    let at = Span {
        start_byte: 7,
        end_byte: 9,
        start_point: Point { row: 4, column: 3 },
        end_point: Point { row: 4, column: 5 },
    };
    let e = NumberedSyntaxError::MissingDotInAssignment { file: FileId { id: 9 }, span: at };
    assert_eq!(e.code(), "E0006");
    assert_eq!(e.description(), "syntax");
    let d = e.to_diagnostic();
    assert_eq!(d.message, "'=' is not a valid assignment sign");
    assert_eq!(d.span, at);
    assert_eq!(d.fixes.len(), 1);
    assert_eq!(d.fixes[0].title, "replace '=' with ':='");
    assert!(d.fixes[0].is_preferred);
    let edit = d.fixes[0].edit.as_ref().unwrap();
    assert_eq!(edit.file, FileId { id: 9 });
    assert_eq!(edit.new_text, ":=");
    assert_eq!(
        edit.span,
        Span {
            start_byte: 7,
            end_byte: 8,
            start_point: Point { row: 4, column: 3 },
            end_point: Point { row: 4, column: 4 },
        }
    );
}

#[test]
fn a_position_error_is_kept_apart() {
    let e = AnalysisError::from(auto_lsp::core::errors::PositionError::WrongPosition { offset: 3 });
    assert!(matches!(e, AnalysisError::AutoLspError(_)));
}
