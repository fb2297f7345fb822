use hir::diag::{Diagnostic, FileId, Fix, Point, Related, Severity, Span, Tag};
use hir::e00_syntax::{ParseProblem, SyntaxError};
use hir::order::text_less;
use hir::source::{clause_items_of, span_text_of};
use hir::text::{cat3, i128_to_string, join_strings, u64_to_string, usize_to_string};
use hir::utils::{get_candidates, write_candidate_list, FuzzyResult};

fn span(start: usize, end: usize) -> Span {
    Span {
        start_byte: start,
        end_byte: end,
        start_point: Point { row: 0, column: start },
        end_point: Point { row: 0, column: end },
    }
}

fn names(list: &[&str]) -> Vec<String> {
    list.iter().map(|s| s.to_string()).collect()
}

#[test]
fn decimal_numbers_are_written_like_display() {
    assert_eq!(usize_to_string(0), "0");
    assert_eq!(usize_to_string(7), "7");
    assert_eq!(usize_to_string(1234), "1234");
    assert_eq!(u64_to_string(u64::MAX), u64::MAX.to_string());
    assert_eq!(i128_to_string(-42), "-42");
    assert_eq!(i128_to_string(0), "0");
    assert_eq!(i128_to_string(i128::MIN), i128::MIN.to_string());
    assert_eq!(i128_to_string(i128::MAX), i128::MAX.to_string());
}

#[test]
fn join_puts_the_separator_between_items() {
    assert_eq!(join_strings(&names(&[]), ", "), "");
    assert_eq!(join_strings(&names(&["a"]), ", "), "a");
    assert_eq!(join_strings(&names(&["a", "b", "c"]), " or "), "a or b or c");
    assert_eq!(cat3("x", "", "z"), "xz");
}

#[test]
fn text_order_is_byte_order() {
    assert!(text_less("Alpha", "Beta"));
    assert!(!text_less("Beta", "Alpha"));
    assert!(text_less("ab", "abc"));
    assert!(!text_less("abc", "abc"));
    assert!(text_less("Z", "a"));
    assert!(text_less("z", "é"));
}

#[test]
fn candidates_list_at_most_five_of_each_kind() {
    let none = FuzzyResult { variables: vec![], struct_fields: vec![], pou: vec![] };
    assert_eq!(get_candidates(&none), "");

    let one = FuzzyResult { variables: names(&["counter"]), struct_fields: vec![], pou: vec![] };
    assert_eq!(get_candidates(&one), "local variable(s) with similar(s) name exist:\n- counter");

    let many = FuzzyResult {
        variables: vec![],
        struct_fields: names(&["a", "b", "c", "d", "e", "f"]),
        pou: names(&["Motor"]),
    };
    assert_eq!(
        get_candidates(&many),
        "STRUCT field(s) with similar name(s) exist:\n- a\n- b\n- c\n- d\n- e\n  ...POU(s) with similar name exist:\n- Motor"
    );
}

#[test]
fn five_candidates_show_no_ellipsis() {
    let five = names(&["a", "b", "c", "d", "e"]);
    assert_eq!(write_candidate_list("h:\n", "- ", &five), "h:\n- a\n- b\n- c\n- d\n- e");
    let six = names(&["a", "b", "c", "d", "e", "f"]);
    assert_eq!(write_candidate_list("h:\n", "- ", &six), "h:\n- a\n- b\n- c\n- d\n- e\n  ...");
}

#[test]
fn span_text_reads_between_byte_offsets() {
    let source = "PROGRAM main IMPLEMENTS IA, IB END_PROGRAM";
    assert_eq!(span_text_of(source, span(8, 12)), "main");
    assert_eq!(span_text_of(source, span(8, 400)), "");
    assert_eq!(span_text_of(source, span(12, 8)), "");
    assert_eq!(span_text_of("é", span(0, 1)), "");
    assert_eq!(clause_items_of(source, span(13, 30), "IMPLEMENTS"), "IA, IB");
}

#[test]
fn diagnostic_builders_append_in_order() {
    let mut d = Diagnostic::error("boom".to_string(), "E0001", "syntax", span(0, 1));
    d.with_note("first".to_string());
    d.with_notes(names(&["second", "third"]));
    d.with_related_at("here".to_string(), FileId { id: 3 }, span(2, 3));
    d.with_related_all(vec![Related::new("there".to_string(), FileId { id: 4 }, span(4, 5))]);
    d.with_fix(Fix::replace("fix it".to_string(), FileId { id: 3 }, span(0, 1), "ok".to_string()));
    d.with_tags(vec![Tag::Unnecessary]);
    assert_eq!(d.message, "boom");
    assert_eq!(d.severity, Some(Severity::Error));
    assert_eq!(d.code.as_deref(), Some("E0001"));
    assert_eq!(d.description.as_deref(), Some("syntax"));
    assert_eq!(d.notes, names(&["first", "second", "third"]));
    assert_eq!(d.related.len(), 2);
    assert_eq!(d.related[0].message, "here");
    assert_eq!(d.related[1].file, FileId { id: 4 });
    assert_eq!(d.fixes.len(), 1);
    assert_eq!(d.fixes[0].edit.as_ref().unwrap().new_text, "ok");
    assert!(d.fixes[0].is_preferred);
    assert_eq!(d.tags, vec![Tag::Unnecessary]);
    let plain = Diagnostic::plain("plain".to_string(), Some(Severity::Warning), span(0, 0));
    assert_eq!(plain.code, None);
    assert_eq!(plain.description, None);
}

#[test]
fn missing_nodes_keep_the_parser_message() {
    let p = ParseProblem::Missing {
        range: span(3, 3),
        error: "missing ';'".to_string(),
        grammar_name: ";".to_string(),
    };
    match SyntaxError::from_parse_error(&p, FileId { id: 1 }, "x := 1") {
        SyntaxError::MissingNode { file, span: s, err, grammar_name } => {
            assert_eq!(file, FileId { id: 1 });
            assert_eq!(s, span(3, 3));
            assert_eq!(err, "missing ';'");
            assert_eq!(grammar_name, ";");
        },
        _ => panic!("expected a missing node"),
    }
}

#[test]
fn unnamed_syntax_errors_quote_the_source_trimmed() {
    let p = ParseProblem::Syntax { range: span(2, 9), error: "syntax error".to_string(), affected: String::new() };
    match SyntaxError::from_parse_error(&p, FileId { id: 1 }, "x   123   ;") {
        SyntaxError::SyntaxError { err, .. } => assert_eq!(err, "Unexpected token(s): '123'"),
        _ => panic!("expected a syntax error"),
    }
    let named = ParseProblem::Syntax { range: span(2, 9), error: "syntax error".to_string(), affected: "x".to_string() };
    match SyntaxError::from_parse_error(&named, FileId { id: 1 }, "x   123   ;") {
        SyntaxError::SyntaxError { err, .. } => assert_eq!(err, "syntax error"),
        _ => panic!("expected a syntax error"),
    }
    let past_end = ParseProblem::Syntax { range: span(2, 90), error: "syntax error".to_string(), affected: String::new() };
    match SyntaxError::from_parse_error(&past_end, FileId { id: 1 }, "x") {
        SyntaxError::SyntaxError { err, .. } => assert_eq!(err, "syntax error"),
        _ => panic!("expected a syntax error"),
    }
}

#[test]
fn invalid_utf8_in_the_range_is_replaced() {
    // A span that cuts a two-byte character in half reads the replacement character.
    let p = ParseProblem::Syntax { range: span(0, 1), error: "e".to_string(), affected: String::new() };
    match SyntaxError::from_parse_error(&p, FileId { id: 1 }, "é") {
        SyntaxError::SyntaxError { err, .. } => assert_eq!(err, "Unexpected token(s): '\u{FFFD}'"),
        _ => panic!("expected a syntax error"),
    }
}

#[test]
fn each_kind_of_candidate_gets_its_own_section() {
    let all = FuzzyResult {
        variables: names(&["v1", "v2"]),
        struct_fields: names(&["f"]),
        pou: names(&["P1", "P2", "P3", "P4", "P5", "P6", "P7"]),
    };
    assert_eq!(
        get_candidates(&all),
        "local variable(s) with similar(s) name exist:\n- v1\n- v2STRUCT field(s) with similar name(s) exist:\n- fPOU(s) with similar name exist:\n- P1\n- P2\n- P3\n- P4\n- P5\n  ..."
    );
}
