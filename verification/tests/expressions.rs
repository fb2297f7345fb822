use hir::coerce::{ExprMismatch, ResolvedExpr, TypeMismatch};
use hir::diag::{FileId, Point, Severity, Span};
use hir::hir::{Named, SpanIdent, TypeRef};
use hir::init_expr::InitExprError;
use hir::literals::InferLiteralError;
use hir::utils::FuzzyResult;
use hir::var_error::VarResolveError;

fn span(start: usize, end: usize) -> Span {
    Span {
        start_byte: start,
        end_byte: end,
        start_point: Point { row: 0, column: start },
        end_point: Point { row: 0, column: end },
    }
}

fn expr(text: &str) -> ResolvedExpr {
    ResolvedExpr { text: text.to_string(), span: span(10, 10 + text.len()) }
}

fn ty(name: &str) -> TypeRef {
    TypeRef { name: name.to_string(), is_void: false, location: None }
}

fn named(name: &str) -> Named {
    Named { name: name.to_string(), span: span(0, 9), name_span: span(0, name.len()), file: FileId { id: 1 } }
}

#[test]
fn mismatch_descriptions() {
    let m = ExprMismatch::type_mismatch(expr("x"), TypeMismatch { ty1: ty("INT"), ty2: ty("BOOL") });
    assert_eq!(m.description(), "type mismatch: expected INT, found BOOL");

    let m = ExprMismatch::expr_mismatch(expr("a + b"), ty("STRING"));
    assert_eq!(m.description(), "type mismatch: expected STRING, got a + b");

    let m = ExprMismatch::expr_void(expr("f()"), ty("VOID"));
    assert_eq!(m.description(), "right-hand side is void");

    let m = ExprMismatch::lhs_is_not_abool(expr("1"), ty("INT"));
    assert_eq!(m.description(), "left-hand side is not a boolean");

    let m = ExprMismatch::invalid_enum_variant(expr("Color#Pink"), ty("Color"), "Color".to_string(), "Pink".to_string());
    assert_eq!(m.description(), "ENUM 'Color' has no variant named 'Pink'");

    let m = ExprMismatch::subrange_value_out_of_bounds(expr("200"), ty("Small"), "Small".to_string(), 0, 100, 200);
    assert_eq!(m.description(), "value 200 is out of bounds for SUBRANGE Small (expected between 0 and 100)");

    let m = ExprMismatch::unresolved_var(expr("q"), VarResolveError::Unknown { call_site: "q".to_string() });
    assert_eq!(m.description(), "no item 'q' in scope");

    let m = ExprMismatch::unresolved_path(expr("a.b"), "no field 'b'".to_string());
    assert_eq!(m.description(), "no field 'b'");
}

#[test]
fn literal_mismatch_descriptions() {
    let m = ExprMismatch::literal(expr("'x"), ty("STRING"), InferLiteralError::Invalid_STRING_Literal);
    assert_eq!(m.description(), "invalid DSTRINGT literal");
    let m = ExprMismatch::literal(expr("12x"), ty("INT"), InferLiteralError::InvalidNumber("12x".to_string()));
    assert_eq!(m.description(), "invalid number: 12x");
    let m = ExprMismatch::literal(expr("T#1q"), ty("TIME"), InferLiteralError::Invalid_TIME_Unit("q".to_string()));
    assert_eq!(m.description(), "invalid TIME unit: q");
    let m = ExprMismatch::literal(expr("1"), ty("BOOL"), InferLiteralError::Invalid_BOOL_Literal);
    assert_eq!(m.description(), "invalid BOOL literal");
    let m = ExprMismatch::literal(expr("''"), ty("WSTRING"), InferLiteralError::Incomplete_WSTRING_XXXX_Escape);
    assert_eq!(m.description(), "invalid escape sequence in STRING literal");
}

#[test]
fn unknown_struct_field_lists_candidates() {
    let e = InitExprError::UnknownStructField {
        ztruct: named("Point"),
        field_name: SpanIdent { text: "z".to_string(), span: span(20, 21) },
        unknown_field: span(20, 25),
        candidates: FuzzyResult { variables: vec![], struct_fields: vec!["x".to_string(), "y".to_string()], pou: vec![] },
    };
    let d = e.to_diagnostic();
    assert_eq!(d.message, "no field 'z' in STRUCT");
    assert_eq!(d.severity, Some(Severity::Error));
    assert_eq!(d.span, span(20, 21));
    assert_eq!(d.notes, vec!["STRUCT field(s) with similar name(s) exist:\n- x\n- y".to_string()]);
}

#[test]
fn too_many_array_elements() {
    let e = InitExprError::ArrayTooManyElements {
        array: named("buf"),
        provided_count: 5,
        max_capacity: 4,
        init_expr: span(3, 30),
    };
    let d = e.to_diagnostic();
    assert_eq!(d.message, "too many array elements: provided 5, but array capacity is 4");
    assert_eq!(d.span, span(3, 30));
}

#[test]
fn an_initializer_of_the_wrong_type() {
    let err = ExprMismatch::type_mismatch(expr("TRUE"), TypeMismatch { ty1: ty("INT"), ty2: ty("BOOL") });
    let e = InitExprError::InitExprTypeExprMismatch { err, init_expr: expr("TRUE") };
    let d = e.to_diagnostic();
    assert_eq!(d.message, "invalid value initializer: type mismatch: expected INT, found BOOL");
    assert_eq!(d.span, span(10, 14));
}
