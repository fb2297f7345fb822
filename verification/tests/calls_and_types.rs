use hir::diag::{FileId, Point, Span};
use hir::e03_type::{AddOperatorKind, CastSuggestion, TypeError};
use hir::e08_call::CallError;
use hir::e11_oop::OopError;
use hir::e2_resolve::Overload;
use hir::hir::{MethodRef, Named, TypeRef, Var, VariableKind};

fn span(start: usize, end: usize) -> Span {
    Span {
        start_byte: start,
        end_byte: end,
        start_point: Point { row: 3, column: start },
        end_point: Point { row: 3, column: end },
    }
}

fn named(name: &str, file: u64, start: usize) -> Named {
    Named {
        name: name.to_string(),
        span: span(start, start + 12),
        name_span: span(start + 1, start + 1 + name.len()),
        file: FileId { id: file },
    }
}

fn param(name: &str, kind: VariableKind, start: usize) -> Var {
    Var { decl: named(name, 7, start), kind, spec_span: span(start + 5, start + 8) }
}

fn ty(name: &str) -> TypeRef {
    TypeRef { name: name.to_string(), is_void: false, location: None }
}

#[test]
fn missing_parameters_are_listed_and_pointed_at() {
    let e = CallError::MissingRequiredParameter {
        func: named("Scale", 7, 0),
        vars: vec![param("a", VariableKind::Input, 20), param("b", VariableKind::InOut, 40)],
        call_span: span(90, 95),
    };
    assert_eq!(e.code(), "E0802");
    assert_eq!(e.description(), "missing required parameter");
    let d = e.to_diagnostic();
    assert_eq!(d.message, "call to 'Scale' is missing 2 required parameters: 'a', 'b'");
    assert_eq!(d.span, span(90, 95));
    assert_eq!(
        d.notes,
        vec![
            "VAR_INPUT on FUNCTION/METHOD parameters must be supplied unless the declaration provides a scalar default value"
                .to_string(),
            "VAR_IN_OUT parameters bind to caller-side l-values and must always be supplied".to_string(),
        ]
    );
    let related: Vec<&str> = d.related.iter().map(|r| r.message.as_str()).collect();
    assert_eq!(related, vec!["parameter 'a' declared here", "parameter 'b' declared here"]);
    assert_eq!(d.related[1].span, span(40, 52));
}

#[test]
fn one_missing_parameter_is_singular() {
    let e = CallError::MissingRequiredParameter {
        func: named("Scale", 7, 0),
        vars: vec![param("a", VariableKind::Input, 20)],
        call_span: span(90, 95),
    };
    let d = e.to_diagnostic();
    assert_eq!(d.message, "call to 'Scale' is missing 1 required parameter: 'a'");
    assert_eq!(d.notes.len(), 1);
}

#[test]
fn no_overload_lists_what_each_accepts() {
    let e = CallError::NoMatchingOverload {
        call_span: span(0, 3),
        name: "ADD".to_string(),
        arg_types: vec!["STRING".to_string(), "INT".to_string()],
        candidates: vec![
            Overload { decl: named("ADD", 1, 10), params: vec!["INT".to_string(), "INT".to_string()] },
            Overload { decl: named("ADD", 1, 30), params: vec![] },
        ],
    };
    assert_eq!(e.code(), "E0810");
    assert_eq!(e.description(), "no matching overload");
    let d = e.to_diagnostic();
    assert_eq!(d.message, "no overload of 'ADD' accepts (STRING, INT)");
    let related: Vec<&str> = d.related.iter().map(|r| r.message.as_str()).collect();
    assert_eq!(related, vec!["overload accepting (INT, INT)", "overload accepting ()"]);
}

#[test]
fn adding_mismatched_types_offers_a_cast() {
    let cast = CastSuggestion {
        expected: "INT".to_string(),
        actual: "REAL".to_string(),
        value: "x".to_string(),
        file: FileId { id: 2 },
        span: span(8, 9),
    };
    let e = TypeError::NotAddable {
        base_target: ty("INT"),
        operator: AddOperatorKind::Minus,
        lhs: ty("INT"),
        rhs: ty("REAL"),
        adjustment: None,
        expr: span(4, 9),
        cast: Some(cast),
    };
    assert_eq!(e.code(), "E0303");
    assert_eq!(e.description(), "type mismatch");
    let d = e.to_diagnostic();
    assert_eq!(d.message, "can not subtract 'INT' with 'REAL'");
    assert_eq!(d.severity, None);
    assert_eq!(d.related.len(), 1);
    assert_eq!(d.related[0].message, "consider explicitly casting with 'REAL_TO_INT(x)'");
    assert_eq!(d.fixes.len(), 1);
    assert_eq!(d.fixes[0].title, "insert explicit cast 'REAL_TO_INT(x)'");
    let edit = d.fixes[0].edit.as_ref().unwrap();
    assert_eq!(edit.new_text, "REAL_TO_INT(x)");
    assert_eq!(edit.span, span(8, 9));
    assert!(d.fixes[0].is_preferred);
}

#[test]
fn overriding_with_another_parameter_count() {
    let base = MethodRef { decl: named("Run", 1, 0), return_span: None };
    let derived = MethodRef { decl: named("Run", 2, 40), return_span: None };
    let e = OopError::SignatureParametersCountMismatch { m1: base, expected: 2, m2: derived, got: 3 };
    assert_eq!(e.code(), "E1125");
    assert_eq!(e.description(), "method parameter count mismatch");
    let d = e.to_diagnostic(FileId { id: 2 });
    assert_eq!(d.message, "invalid number of parameters for method 'Run': expected 2, got 3");
    assert_eq!(d.span, span(41, 44));
    assert_eq!(d.related[0].message, "base method 'Run' is declared here");
    assert_eq!(d.related[0].file, FileId { id: 1 });
    assert_eq!(d.related[0].span, span(1, 4));
}

#[test]
fn implements_clauses_are_read_from_the_source() {
    let source = "CLASS c IMPLEMENTS IA IMPLEMENTS IB".to_string();
    let e = OopError::MultipleImplements {
        location: span(22, 35),
        first_implements_span: span(8, 21),
        file: FileId { id: 4 },
        source,
    };
    assert_eq!(e.code(), "E1102");
    assert_eq!(e.description(), "syntax");
    let d = e.to_diagnostic(FileId { id: 4 });
    assert_eq!(d.message, "multiple IMPLEMENTS declarations are not allowed");
    assert_eq!(d.related[0].message, "merge into single clause: 'IMPLEMENTS IA, IB'");
    assert_eq!(d.related[0].span, span(8, 21));

    // A span that does not fall on character boundaries reads as nothing.
    let cut = OopError::MultipleImplements {
        location: span(23, 36),
        first_implements_span: span(7, 22),
        file: FileId { id: 4 },
        source: "CLASS é IMPLEMENTS IA IMPLEMENTS IB".to_string(),
    };
    assert_eq!(cut.to_diagnostic(FileId { id: 4 }).related[0].message, "merge into single clause: 'IMPLEMENTS , IB'");
}

#[test]
fn implements_before_extends_says_where_to_move_it() {
    let e = OopError::ImplementsBeforeExtends {
        implements_span: span(8, 24),
        extends_span: span(24, 33),
        file: FileId { id: 4 },
        source: "CLASS c IMPLEMENTS  IA  EXTENDS B".to_string(),
    };
    assert_eq!(e.code(), "E1103");
    let d = e.to_diagnostic(FileId { id: 4 });
    assert_eq!(d.message, "IMPLEMENTS must be declared after EXTENDS");
    assert_eq!(d.span, span(8, 24));
    assert_eq!(d.related[0].message, "move 'IMPLEMENTS  IA' here");
    assert_eq!(d.related[0].span, span(24, 33));
}
