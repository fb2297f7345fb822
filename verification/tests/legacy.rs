use hir::diag::{FileId, Point, Severity, Span, Tag};
use hir::hir::Named;
use hir::literals::InferLiteralError;
use hir::recursion::RecursionError;
use hir::scope::NamespaceError;
use hir::var_error::VarResolveError;

fn span(start: usize, end: usize) -> Span {
    Span {
        start_byte: start,
        end_byte: end,
        start_point: Point { row: 2, column: start },
        end_point: Point { row: 2, column: end },
    }
}

fn named(name: &str, file: u64, start: usize) -> Named {
    Named {
        name: name.to_string(),
        span: span(start, start + 10),
        name_span: span(start + 1, start + 1 + name.len()),
        file: FileId { id: file },
    }
}

#[test]
fn literal_errors_read_as_their_kind() {
    assert_eq!(InferLiteralError::Invalid_BOOL_Literal.to_string(), "invalid boolean literal");
    assert_eq!(InferLiteralError::Invalid_UNSIGNED_16_BITS_Literal.to_string(), "invalid UINT literal");
    assert_eq!(InferLiteralError::Invalid_SIGNED_64_BITS_Literal.to_string(), "invalid LINT literal");
    assert_eq!(InferLiteralError::DurationOverflow.to_string(), "duration overflow");
    assert_eq!(
        InferLiteralError::Incomplete_WSTRING_XXXX_Escape.to_string(),
        "incomplete WSTRING XXXX escape sequence"
    );
    assert_eq!(InferLiteralError::InvalidNumber("12x is not a number".to_string()).to_string(), "12x is not a number");
    assert_eq!(InferLiteralError::TypeMismatch("expected INT".to_string()).to_string(), "expected INT");
}

#[test]
fn unknown_variable_description() {
    let e = VarResolveError::Unknown { call_site: "a.b".to_string() };
    assert_eq!(e.description(), "no item 'a.b' in scope");
    let p = VarResolveError::PathResolveError { description: "no field 'c'".to_string() };
    assert_eq!(p.description(), "no field 'c'");
}

#[test]
fn direct_recursion_points_at_the_reference() {
    let e = RecursionError::DirectRecursion { pou: named("Node", 1, 0), callsite: Some(named("next", 1, 40)) };
    let d = e.to_diagnostic();
    assert_eq!(d.message, "type 'Node' is recursive (contains itself)");
    assert_eq!(d.severity, Some(Severity::Error));
    assert_eq!(d.code, None);
    assert_eq!(d.span, span(1, 5));
    assert_eq!(d.related.len(), 1);
    assert_eq!(d.related[0].message, "'Node' references itself here");
    assert_eq!(d.related[0].span, span(40, 50));

    let bare = RecursionError::DirectRecursion { pou: named("Node", 1, 0), callsite: None };
    assert!(bare.to_diagnostic().related.is_empty());
}

#[test]
fn mutual_recursion_lists_the_cycle() {
    let e = RecursionError::MutualRecursion {
        pou: named("A", 1, 0),
        pous: vec![named("B", 1, 20), named("C", 2, 0)],
        callsite: vec![named("b", 1, 5), named("c", 1, 25)],
    };
    let d = e.to_diagnostic();
    assert_eq!(d.message, "type 'A' is recursive");
    assert_eq!(d.related.len(), 2);
    assert!(d.related.iter().all(|r| r.message == "recurse at this location"));
    assert_eq!(d.notes, vec!["cycles goes\n-> B\n-> C\n... and back to A".to_string()]);

    let no_stack = RecursionError::MutualRecursion { pou: named("A", 1, 0), pous: vec![], callsite: vec![] };
    assert!(no_stack.to_diagnostic().notes.is_empty());
}

#[test]
fn namespace_already_in_scope_is_an_unnecessary_warning() {
    let e = NamespaceError::NamespaceAlreadyInScope { using: named("Std", 1, 0), namespace: named("Std", 2, 0) };
    let d = e.to_diagnostic();
    assert_eq!(d.message, "'Std' is already in scope");
    assert_eq!(d.severity, Some(Severity::Warning));
    assert_eq!(d.tags, vec![Tag::Unnecessary]);
}

#[test]
fn duplicate_using() {
    let e = NamespaceError::DuplicateUsing { using: named("Std", 1, 30), other: named("Std", 1, 0) };
    let d = e.to_diagnostic();
    assert_eq!(d.message, "duplicate `USING` for namespace 'Std'");
    assert_eq!(d.span, span(30, 40));
    assert_eq!(d.related[0].message, "namespace 'Std' is already imported here");
    assert_eq!(d.related[0].span, span(0, 10));
}
