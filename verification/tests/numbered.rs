use hir::diag::{FileId, Point, Severity, Span};
use hir::e01_duplicates::DuplicateError;
use hir::e04_init::{InitBinding, InitError};
use hir::e05_array::ArrayError;
use hir::e06_enum::EnumError;
use hir::e10_visibility::VisibilityError;
use hir::e12_control_flow::ControlFlowError;
use hir::e14_config::ConfigError;
use hir::e15_pragma::PragmaError;
use hir::hir::{Named, SpanIdent, Var, VariableKind};

fn span(start: usize, end: usize) -> Span {
    Span {
        start_byte: start,
        end_byte: end,
        start_point: Point { row: 1, column: start },
        end_point: Point { row: 1, column: end },
    }
}

fn named(name: &str, file: u64, start: usize) -> Named {
    Named {
        name: name.to_string(),
        span: span(start, start + 20),
        name_span: span(start + 4, start + 4 + name.len()),
        file: FileId { id: file },
    }
}

fn var(name: &str, file: u64, start: usize) -> Var {
    Var { decl: named(name, file, start), kind: VariableKind::Var, spec_span: span(start + 10, start + 14) }
}

#[test]
fn duplicate_variable_points_at_the_first_definition() {
    let e = DuplicateError::Variable { var1: var("x", 1, 40), var2: var("x", 2, 10) };
    assert_eq!(e.code(), "E0101");
    assert_eq!(e.description(), "duplicate definitions");
    let d = e.to_diagnostic();
    assert_eq!(d.message, "duplicate variable 'x'");
    assert_eq!(d.severity, Some(Severity::Error));
    assert_eq!(d.span, span(44, 45));
    assert_eq!(d.related.len(), 1);
    assert_eq!(d.related[0].message, "variable 'x' is already defined here");
    assert_eq!(d.related[0].file, FileId { id: 2 });
    assert_eq!(d.related[0].span, span(14, 15));
    assert!(d.notes.is_empty());
}

#[test]
fn assigning_to_a_constant() {
    let e = InitError::AssignToConstant { access: span(3, 8) };
    assert_eq!(e.code(), "E0404");
    assert_eq!(e.description(), "semantic violation");
    let d = e.to_diagnostic();
    assert_eq!(d.message, "cannot assign to constant type");
    assert_eq!(d.code.as_deref(), Some("E0404"));
    assert_eq!(d.span, span(3, 8));
}

#[test]
fn index_out_of_bounds_names_the_dimension_after_the_first() {
    let first = ArrayError::IndexOutOfBounds { expr: span(0, 2), dimension: 0, index: 11, min: -10, max: 10 };
    assert_eq!(first.code(), "E0506");
    assert_eq!(first.description(), "invalid array access");
    let d = first.to_diagnostic();
    assert_eq!(d.message, "index 11 is out of bounds (the dimension is declared -10..10)");
    assert!(d.notes.is_empty());

    let second = ArrayError::IndexOutOfBounds { expr: span(0, 2), dimension: 1, index: -3, min: 0, max: 4 };
    let d = second.to_diagnostic();
    assert_eq!(d.message, "index -3 is out of bounds (the dimension is declared 0..4)");
    assert_eq!(d.notes, vec!["this error occurred in array dimension 2".to_string()]);
}

#[test]
fn missing_enum_variant_has_no_severity() {
    let e = EnumError::EnumVariantNotFound {
        enum_name: "Color".to_string(),
        variant_name: SpanIdent { text: "Purple".to_string(), span: span(5, 11) },
    };
    assert_eq!(e.code(), "E0603");
    assert_eq!(e.description(), "invalid enum access");
    let d = e.to_diagnostic();
    assert_eq!(d.message, "ENUM has no variant named 'Purple'");
    assert_eq!(d.severity, None);
    assert_eq!(d.span, span(5, 11));
}

#[test]
fn private_access_explains_the_rule() {
    let e = VisibilityError::Private {
        call_site: SpanIdent { text: "secret".to_string(), span: span(7, 13) },
        target: span(100, 110),
    };
    assert_eq!(e.code(), "E1001");
    assert_eq!(e.description(), "access control violation");
    let d = e.to_diagnostic();
    assert_eq!(d.message, "can not access PRIVATE item 'secret'");
    assert_eq!(
        d.notes,
        vec!["variables and methods marked PRIVATE can only be accessed from within the same POU".to_string()]
    );
}

#[test]
fn exit_outside_a_loop() {
    let e = ControlFlowError::ExitOutsideLoop { stmt: span(1, 5) };
    assert_eq!(e.code(), "E1201");
    assert_eq!(e.description(), "control flow violation");
    assert_eq!(e.to_diagnostic().message, "'EXIT' can only be used inside loops");
}

#[test]
fn for_step_of_zero_suggests_the_constant() {
    let with_decl = ControlFlowError::ForStepInvalid { step: span(9, 10), zero: true, decl: Some(var("step", 4, 0)) };
    assert_eq!(with_decl.code(), "E1204");
    let d = with_decl.to_diagnostic();
    assert_eq!(d.message, "a FOR step of zero never advances the loop");
    assert_eq!(d.related.len(), 1);
    assert_eq!(d.related[0].message, "declaring 'step' CONSTANT would let the step fold");
    assert_eq!(d.related[0].file, FileId { id: 4 });

    let without = ControlFlowError::ForStepInvalid { step: span(9, 10), zero: false, decl: None };
    let d = without.to_diagnostic();
    assert_eq!(d.message, "a FOR step must evaluate to a constant at compile time");
    assert!(d.related.is_empty());
}

#[test]
fn unusable_priority() {
    let e = ConfigError::InvalidPriority { task: named("Fast", 1, 0), value: "99999999999".to_string() };
    assert_eq!(e.code(), "E1406");
    assert_eq!(e.description(), "configuration error");
    let d = e.to_diagnostic();
    assert_eq!(d.message, "task 'Fast' has an unusable PRIORITY '99999999999'");
    assert_eq!(d.notes, vec!["PRIORITY must fit in a 32-bit unsigned integer; 0 is the most urgent".to_string()]);
}

#[test]
fn extern_function_with_statements() {
    let e = PragmaError::ExternWithBody { site: span(2, 30) };
    assert_eq!(e.code(), "E1502");
    assert_eq!(e.description(), "not representable on an extern FUNCTION");
    let d = e.to_diagnostic();
    assert_eq!(d.message, "an extern FUNCTION has no statements");
    assert_eq!(
        d.notes,
        vec!["FUNCTIONs marked with {extern} act as external calls, they can not have a body".to_string()]
    );
}

#[test]
fn a_located_variable_of_another_width() {
    let e = ConfigError::LocationWidthMismatch {
        var: named("level", 1, 0),
        address: "%IW2".to_string(),
        address_bits: 16,
        declared_bits: Some(1),
        declared: "BOOL".to_string(),
    };
    assert_eq!(e.code(), "E1422");
    assert_eq!(e.description(), "location type mismatch");
    let d = e.to_diagnostic();
    assert_eq!(d.message, "'%IW2' is 16 bits, but 'level' is declared 'BOOL', which is 1");
    assert_eq!(
        d.notes,
        vec!["a located variable holds one value as wide as its address; declare it as an elementary type of 16 bits, such as WORD, INT or UINT".to_string()]
    );

    let bit = ConfigError::LocationWidthMismatch {
        var: named("flag", 1, 0),
        address: "%IX0.0".to_string(),
        address_bits: 1,
        declared_bits: None,
        declared: "Motor".to_string(),
    };
    let d = bit.to_diagnostic();
    assert_eq!(d.message, "'%IX0.0' is 1 bit, but 'flag' is declared 'Motor', which is not an elementary type of any width");
    assert_eq!(
        d.notes,
        vec!["a located variable holds one value as wide as its address; declare it as an elementary type of 1 bit, such as BOOL".to_string()]
    );

    let wide = ConfigError::LocationWidthMismatch {
        var: named("big", 1, 0),
        address: "%QL1".to_string(),
        address_bits: 64,
        declared_bits: Some(32),
        declared: "DINT".to_string(),
    };
    assert!(wide.to_diagnostic().notes[0].ends_with("of 64 bits, such as LWORD, LINT or LREAL"));
}

#[test]
fn retain_on_a_channel_depends_on_the_address() {
    let full = ConfigError::RetainOnIoLocation { var: named("x", 1, 0), address: "%IX1.0".to_string() };
    let d = full.to_diagnostic();
    assert_eq!(d.message, "'x' is located at '%IX1.0' and cannot be RETAIN");
    assert!(d.notes[0].starts_with("the retain band is restored at startup"));
    let star = ConfigError::RetainOnIoLocation { var: named("x", 1, 0), address: "%I*".to_string() };
    assert!(star.to_diagnostic().notes[0].starts_with("a variable VAR_CONFIG locates points at its channel"));
}

#[test]
fn several_configurations_point_at_the_others() {
    let e = ConfigError::MultipleConfigurations {
        config: named("Cfg1", 1, 0),
        others: vec![named("Cfg2", 2, 0), named("Cfg3", 3, 0)],
    };
    assert_eq!(e.code(), "E1402");
    let d = e.to_diagnostic();
    assert_eq!(d.message, "a workspace can only have one CONFIGURATION; this one declares 3");
    let related: Vec<(&str, u64)> = d.related.iter().map(|r| (r.message.as_str(), r.file.id)).collect();
    assert_eq!(related, vec![("'Cfg2' is declared here", 2), ("'Cfg3' is declared here", 3)]);
}

#[test]
fn an_overloaded_function_cannot_be_exported() {
    let e = PragmaError::ExportForbidden {
        anchor: named("export", 1, 0),
        func: named("Area", 1, 10),
        kind: hir::e15_pragma::ExportForbiddenKind::Overloaded,
    };
    assert_eq!(e.code(), "E1509");
    assert_eq!(e.description(), "this FUNCTION cannot be exported");
    let d = e.to_diagnostic();
    assert_eq!(d.message, "'Area' cannot be exported: it is overloaded");
    assert_eq!(d.span, span(0, 20));
    assert_eq!(d.notes, vec!["an export is found by its name, and this name belongs to several FUNCTIONs".to_string()]);

    let ext = PragmaError::ExternOutsideFunction { anchor: named("extern", 1, 0), pou_kind: "PROGRAM".to_string() };
    let d = ext.to_diagnostic();
    assert_eq!(d.message, "an {extern} pragma cannot be placed on a PROGRAM");
    assert_eq!(d.notes, vec!["{extern} pragmas can ony be used with FUNCTION".to_string()]);
}

#[test]
fn a_non_constant_initial_value_explains_the_name() {
    let notes = |binding: InitBinding| InitError::InitNotConstant { value: span(4, 9), binding }.to_diagnostic().notes;
    let e = InitError::InitNotConstant { value: span(4, 9), binding: InitBinding::Other };
    assert_eq!(e.code(), "E0401");
    assert_eq!(e.description(), "initial value is not constant");
    let d = e.to_diagnostic();
    assert_eq!(d.message, "this initial value must be a constant: it is fixed before the program runs");
    assert!(d.notes.is_empty());
    assert_eq!(
        notes(InitBinding::Declared { name: "k".to_string(), constant: true, has_init: false }),
        vec!["'k' is CONSTANT but declares no initial value, so there is nothing to fold".to_string()]
    );
    assert_eq!(
        notes(InitBinding::Declared { name: "k".to_string(), constant: true, has_init: true }),
        vec!["'k' is CONSTANT, but its own value does not fold (a reference cycle, or a non-constant initializer)".to_string()]
    );
    assert_eq!(
        notes(InitBinding::Declared { name: "v".to_string(), constant: false, has_init: true }),
        vec!["'v' is an ordinary variable; declare it CONSTANT if its value never changes".to_string()]
    );
    assert_eq!(
        notes(InitBinding::Global { name: "g".to_string(), constant: false, in_type: true }),
        vec!["'g' is an ordinary variable; declare it CONSTANT if its value never changes".to_string()]
    );
    assert_eq!(
        notes(InitBinding::Global { name: "g".to_string(), constant: true, in_type: true }),
        vec!["'g' IS a CONSTANT, but a TYPE declaration cannot see it: a TYPE default folds only literals, arithmetic, and constants in its own scope".to_string()]
    );
    assert_eq!(
        notes(InitBinding::Global { name: "g".to_string(), constant: true, in_type: false }),
        vec!["'g' IS a CONSTANT: declare it in this POU as `VAR_EXTERNAL CONSTANT` and the reference folds".to_string()]
    );
}
