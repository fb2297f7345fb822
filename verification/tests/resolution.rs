use hir::diag::{FileId, Point, Span};
use hir::e02_resolve::ResolveError;
use hir::e2_resolve::{list_candidates, ImportCandidate, ScopedPou, SearchResults};
use hir::e8_subrange::{with_bounds, BoundedType};
use hir::hir::{Named, Var, VariableKind};

fn span(start: usize, end: usize) -> Span {
    Span {
        start_byte: start,
        end_byte: end,
        start_point: Point { row: 0, column: start },
        end_point: Point { row: 0, column: end },
    }
}

fn var(name: &str) -> Var {
    Var {
        decl: Named { name: name.to_string(), span: span(0, 9), name_span: span(0, 1), file: FileId { id: 1 } },
        kind: VariableKind::External,
        spec_span: span(4, 7),
    }
}

fn empty_results() -> SearchResults {
    SearchResults {
        similar_variables_note: None,
        this_variables: vec![],
        local_pous: vec![],
        imported_pous: vec![],
        namespaces: vec![],
    }
}

fn import(ns: &str, pou: &str) -> ImportCandidate {
    ImportCandidate { namespace: ns.to_string(), pou: pou.to_string() }
}

fn pou(ns: &str, url: &str, file: u64, start: usize) -> ScopedPou {
    ScopedPou { namespace: ns.to_string(), url: url.to_string(), file: FileId { id: file }, span: span(start, start + 5) }
}

#[test]
fn unknown_name_is_quoted_as_debug_writes_it() {
    let e = ResolveError::NoItemInScope { ident: "foo".to_string(), span: span(1, 4), results: empty_results() };
    assert_eq!(e.code(), "E0201");
    assert_eq!(e.description(), "no item found in scope");
    let d = e.to_diagnostic();
    assert_eq!(d.message, "no item \"foo\" found in scope");
    assert!(d.notes.is_empty());

    let odd = ResolveError::NoItemInScope { ident: "a\"b".to_string(), span: span(1, 4), results: empty_results() };
    assert_eq!(odd.to_diagnostic().message, "no item \"a\\\"b\" found in scope");
}

#[test]
fn an_import_found_twice_is_suggested_once() {
    let mut r = empty_results();
    r.imported_pous = vec![import("Std", "TON"), import("Std", "TON"), import("Lib", "TON")];
    let notes = list_candidates("TON", &r);
    assert_eq!(
        notes,
        vec!["items with similar names are available, but need to be imported:\n- 'TON' via USING Std\n- 'TON' via USING Lib"
            .to_string()]
    );
    r.imported_pous = vec![import("Std", "TON"), import("Std", "TON")];
    assert_eq!(
        list_candidates("TON", &r),
        vec!["an item with a similar name is available, but needs to be imported:\n- 'TON' via USING Std".to_string()]
    );
}

#[test]
fn suggestions_come_in_a_fixed_order() {
    let r = SearchResults {
        similar_variables_note: Some("similar".to_string()),
        this_variables: vec!["count".to_string()],
        local_pous: vec!["Cnt".to_string(), "Counter".to_string()],
        imported_pous: vec![],
        namespaces: vec!["A.B".to_string()],
    };
    assert_eq!(
        list_candidates("A.X", &r),
        vec![
            "similar".to_string(),
            "an item available via THIS:\n- THIS.count".to_string(),
            "items with similar name available in scope:\n- Cnt\n- Counter".to_string(),
            "no namespace named 'A.X' found, but the following namespace has similar path:\n- A.B".to_string(),
        ]
    );
}

#[test]
fn seven_namespaces_show_five_and_an_ellipsis() {
    let mut r = empty_results();
    r.namespaces = (1..=7).map(|i| format!("N{}", i)).collect();
    assert_eq!(
        list_candidates("X", &r),
        vec!["no namespace named 'X' found, but the following namespaces have similar path:\n- N1\n- N2\n- N3\n- N4\n- N5\n  ..."
            .to_string()]
    );
}

#[test]
fn ambiguous_names_report_in_sorted_order() {
    let cands = vec![
        pou("Zeta", "file:///b.st", 2, 50),
        pou("Alpha", "file:///a.st", 1, 10),
        pou("Zeta", "file:///a.st", 1, 90),
        pou("Beta", "file:///c.st", 3, 0),
        pou("Zeta", "file:///a.st", 1, 30),
    ];
    let e = ResolveError::MultipleItemsInScope { name: "Motor".to_string(), span: span(0, 5), candidates: cands };
    assert_eq!(e.code(), "E0205");
    let d = e.to_diagnostic();
    assert_eq!(d.message, "multiple items named 'Motor' available in scope");
    assert_eq!(
        d.notes,
        vec![
            "'Motor' is declared multiple times in namespace 'Zeta'".to_string(),
            "qualify the name to resolve the ambiguity: Alpha.Motor or Beta.Motor".to_string(),
        ]
    );
    let starts: Vec<(u64, usize)> = d.related.iter().map(|r| (r.file.id, r.span.start_byte)).collect();
    assert_eq!(starts, vec![(1, 30), (1, 90), (2, 50)]);
    assert!(d.related.iter().all(|r| r.message == "'Motor' declared here"));
}

#[test]
fn the_same_candidates_found_in_another_order_give_the_same_notes() {
    let a = vec![pou("B", "u", 1, 0), pou("A", "u", 1, 10), pou("C", "u", 1, 20), pou("A", "u", 1, 30)];
    let b = vec![pou("A", "u", 1, 30), pou("C", "u", 1, 20), pou("A", "u", 1, 10), pou("B", "u", 1, 0)];
    let da = ResolveError::MultipleItemsInScope { name: "x".to_string(), span: span(0, 1), candidates: a }.to_diagnostic();
    let db = ResolveError::MultipleItemsInScope { name: "x".to_string(), span: span(0, 1), candidates: b }.to_diagnostic();
    assert_eq!(da.notes, db.notes);
    let places = |d: &hir::diag::Diagnostic| -> Vec<(u64, usize)> {
        d.related.iter().map(|r| (r.file.id, r.span.start_byte)).collect()
    };
    assert_eq!(places(&da), places(&db));
    assert_eq!(places(&da), vec![(1, 10), (1, 30)]);
    assert_eq!(
        da.notes,
        vec![
            "'x' is declared multiple times in namespace 'A'".to_string(),
            "qualify the name to resolve the ambiguity: B.x or C.x".to_string(),
        ]
    );
}

#[test]
fn one_namespace_each_needs_no_qualification_hint_when_alone() {
    let e = ResolveError::MultipleItemsInScope {
        name: "x".to_string(),
        span: span(0, 1),
        candidates: vec![pou("A", "u", 1, 0), pou("A", "u", 1, 9)],
    };
    let d = e.to_diagnostic();
    assert_eq!(d.notes, vec!["'x' is declared multiple times in namespace 'A'".to_string()]);
    assert_eq!(d.related.len(), 2);
}

#[test]
fn subrange_types_name_their_bounds() {
    assert_eq!(with_bounds(&BoundedType { name: "Small".to_string(), bounds: Some((0, 10)) }), "Small (0..10)");
    assert_eq!(with_bounds(&BoundedType { name: "INT (0..10)".to_string(), bounds: Some((0, 10)) }), "INT (0..10)");
    assert_eq!(with_bounds(&BoundedType { name: "Neg".to_string(), bounds: Some((-5, -1)) }), "Neg (-5..-1)");
    assert_eq!(with_bounds(&BoundedType { name: "INT".to_string(), bounds: None }), "INT");
}

#[test]
fn external_of_another_type() {
    let e = ResolveError::ExternalVarTypeMismatch {
        var: var("speed"),
        external: BoundedType { name: "INT".to_string(), bounds: None },
        global: BoundedType { name: "Speed".to_string(), bounds: Some((0, 100)) },
    };
    assert_eq!(e.code(), "E0207");
    assert_eq!(e.description(), "external variable type mismatch");
    assert_eq!(
        e.to_diagnostic().message,
        "'speed' is declared 'INT' here but its VAR_GLOBAL is 'Speed (0..100)': an external must repeat the global's type exactly"
    );
}

#[test]
fn retain_in_a_function() {
    let e = ResolveError::RetainInStatelessPou { var: var("keep"), retain: false, pou_kind: "FUNCTION".to_string() };
    assert_eq!(e.code(), "E0208");
    let d = e.to_diagnostic();
    assert_eq!(d.message, "'keep' cannot be NON_RETAIN: a FUNCTION is stateless");
    assert_eq!(d.notes.len(), 1);
}

#[test]
fn namespace_used_as_an_item() {
    let e = ResolveError::NoNamespaceItemFound {
        path: "Std.Timers".to_string(),
        span: span(0, 10),
        path_str: "Std.Timers".to_string(),
        target: "Timers".to_string(),
        in_namespace: true,
        namespace_exists: true,
        results: empty_results(),
    };
    assert_eq!(e.code(), "E0203");
    let d = e.to_diagnostic();
    assert_eq!(d.message, "no item found for path 'Std.Timers'");
    assert_eq!(
        d.notes,
        vec!["namespace named 'Std.Timers' exists but it cannot be used as an item, you can either:\n- Import the namespace via an USING directive: 'USING Std.Timers'\n- Import an item from this namespace: 'Std.Timers.<POU>'".to_string()]
    );
}

#[test]
fn parameter_counts_are_pluralised() {
    let callable = Named { name: "F".to_string(), span: span(0, 1), name_span: span(0, 1), file: FileId { id: 1 } };
    let single = hir::e2_resolve::ResolveError::IncorrectNumberOfParameters {
        overloads: 1,
        expected: 1,
        actual: 0,
        call_span: span(5, 8),
        callable,
    };
    assert_eq!(single.code(), "E0205");
    assert_eq!(single.description(), "function call parameter mismatch");
    assert_eq!(single.to_diagnostic().message, "'F' expects 1 parameter, but got 0");

    let callable = Named { name: "F".to_string(), span: span(0, 1), name_span: span(0, 1), file: FileId { id: 1 } };
    let many = hir::e2_resolve::ResolveError::IncorrectNumberOfParameters {
        overloads: 1,
        expected: 3,
        actual: 1,
        call_span: span(5, 8),
        callable,
    };
    assert_eq!(many.to_diagnostic().message, "'F' expects 3 parameters, but got 1");

    let callable = Named { name: "F".to_string(), span: span(0, 1), name_span: span(0, 1), file: FileId { id: 1 } };
    let overloaded = hir::e2_resolve::ResolveError::IncorrectNumberOfParameters {
        overloads: 2,
        expected: 3,
        actual: 1,
        call_span: span(5, 8),
        callable,
    };
    assert_eq!(overloaded.to_diagnostic().message, "no overload of 'F' takes 1 parameter");
}

#[test]
fn multibit_access_out_of_range() {
    let e = hir::e2_resolve::ResolveError::MultibitsOutOfRange {
        span: span(0, 5),
        var: Some(var("w")),
        offset: 16,
        access_bits: 1,
        max_offset: Some(15),
        base_type: "WORD".to_string(),
    };
    assert_eq!(e.code(), "E0229");
    assert_eq!(e.description(), "multibit access out of range");
    let d = e.to_diagnostic();
    assert_eq!(d.message, "offset 16 is out of range for type 'WORD' (valid range: 0..15)");
    assert_eq!(d.related[0].message, "'w' is declared here");

    let too_wide = hir::e2_resolve::ResolveError::MultibitsOutOfRange {
        span: span(0, 5),
        var: None,
        offset: 0,
        access_bits: 32,
        max_offset: None,
        base_type: "BYTE".to_string(),
    };
    let d = too_wide.to_diagnostic();
    assert_eq!(d.message, "a 32-bit access does not fit in type 'BYTE'");
    assert!(d.related.is_empty());
}

#[test]
fn candidates_of_different_namespaces_may_share_a_place() {
    let a = vec![pou("A", "u", 1, 0), pou("B", "u", 2, 0), pou("A", "u", 1, 7), pou("B", "u", 2, 7)];
    let b = vec![pou("B", "u", 2, 7), pou("A", "u", 1, 7), pou("B", "u", 2, 0), pou("A", "u", 1, 0)];
    let da = ResolveError::MultipleItemsInScope { name: "x".to_string(), span: span(0, 1), candidates: a }.to_diagnostic();
    let db = ResolveError::MultipleItemsInScope { name: "x".to_string(), span: span(0, 1), candidates: b }.to_diagnostic();
    assert_eq!(da.notes, db.notes);
    let places = |d: &hir::diag::Diagnostic| -> Vec<(u64, usize)> {
        d.related.iter().map(|r| (r.file.id, r.span.start_byte)).collect()
    };
    assert_eq!(places(&da), places(&db));
    assert_eq!(places(&da), vec![(1, 0), (1, 7), (2, 0), (2, 7)]);
}
