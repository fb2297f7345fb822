use hir::array::ArrayError as EarlyArrayError;
use hir::coerce::ResolvedExpr;
use hir::diag::{FileId, Point, Severity, Span};
use hir::duplicates::DuplicateError as EarlyDuplicateError;
use hir::e10_visibility::SameNamespaceResult;
use hir::hir::{MethodRef, Named, SpanIdent};
use hir::inheritance::MethodError;
use hir::syntax::SyntaxError as EarlySyntaxError;
use hir::ty::TyError;
use hir::visibility::VisibilityError as EarlyVisibilityError;

fn span(start: usize, end: usize) -> Span {
    Span {
        start_byte: start,
        end_byte: end,
        start_point: Point { row: 1, column: start },
        end_point: Point { row: 1, column: end },
    }
}

fn named(name: &str, file: u64, start: usize) -> Named {
    Named {
        name: name.to_string(),
        span: span(start, start + 15),
        name_span: span(start + 3, start + 3 + name.len()),
        file: FileId { id: file },
    }
}

#[test]
fn missing_override_points_at_the_base_method() {
    let e = MethodError::MissingOverride {
        base_method: MethodRef { decl: named("Start", 1, 0), return_span: None },
        derived_method: MethodRef { decl: named("Start", 2, 30), return_span: None },
    };
    let d = e.to_diagnostic();
    assert_eq!(d.message, "missing OVERRIDE keyword for method 'Start'");
    assert_eq!(d.code, None);
    assert_eq!(d.span, span(33, 38));
    assert_eq!(d.related[0].message, "base method 'Start' is declared here");
    assert_eq!(d.related[0].file, FileId { id: 1 });
    assert_eq!(
        d.notes,
        vec!["OVERRIDE keyword must be used even if the base method is not marked as ABSTRACT".to_string()]
    );
}

#[test]
fn unresolved_pou() {
    let e = MethodError::UnresolvedPou { access: "Base".to_string(), span: span(4, 8) };
    assert_eq!(e.to_diagnostic().message, "no item 'Base' found in the current scope");
}

#[test]
fn recursion_through_a_reference_points_both_ways() {
    let e = TyError::ReferenceRecursive { origin: named("A", 1, 0), target: named("B", 2, 40) };
    let d = e.to_diagnostic();
    assert_eq!(d.message, "'A' creates a recursion with 'B'");
    let related: Vec<(&str, u64)> = d.related.iter().map(|r| (r.message.as_str(), r.file.id)).collect();
    assert_eq!(related, vec![("'B' is originally declared here", 2), ("... and recurse at this location", 1)]);
}

#[test]
fn lower_bound_of_an_early_array() {
    let value = ResolvedExpr { text: "x".to_string(), span: span(6, 7) };
    let e = TyError::InvalidArrayLowerValue { value };
    let d = e.to_diagnostic();
    assert_eq!(d.message, "Invalid lower bound value for ARRAY");
    assert_eq!(d.span, span(6, 7));
    let upper = EarlyArrayError::InferiorUpperBound {
        lower: 5,
        upper: 1,
        upper_expr: ResolvedExpr { text: "1".to_string(), span: span(9, 10) },
    };
    assert_eq!(upper.to_diagnostic().message, "Upper bound value must be greater than lower bound value");
}

#[test]
fn early_syntax_errors_have_no_code() {
    let d = EarlySyntaxError::MultipleExtends(span(0, 7)).to_diagnostic();
    assert_eq!(d.message, "multiple extends declarations");
    assert_eq!(d.severity, Some(Severity::Error));
    assert_eq!(d.code, None);
    assert_eq!(
        EarlySyntaxError::ImplementsBeforeExtends(span(0, 7)).to_diagnostic().message,
        "implements must be declared after extends"
    );
}

#[test]
fn internal_items_say_where_they_are_visible() {
    let site = || SpanIdent { text: "helper".to_string(), span: span(2, 8) };
    let e = EarlyVisibilityError::Internal {
        call_site: site(),
        target: span(50, 56),
        result: SameNamespaceResult::DifferentNamespaces("App".to_string(), "Lib".to_string()),
    };
    let d = e.to_diagnostic();
    assert_eq!(d.message, "can not access INTERNAL item 'helper'");
    assert_eq!(
        d.notes,
        vec!["calling scope is in NAMESPACE 'App', item is only available in NAMESPACE 'Lib'".to_string()]
    );
    let global = EarlyVisibilityError::Internal {
        call_site: site(),
        target: span(50, 56),
        result: SameNamespaceResult::NamespaceAndGlobal("App".to_string()),
    };
    assert_eq!(
        global.to_diagnostic().notes,
        vec!["calling scope is in NAMESPACE 'App', item scope is only available the GLOBAL scope".to_string()]
    );
    let same = EarlyVisibilityError::Internal { call_site: site(), target: span(50, 56), result: SameNamespaceResult::Same };
    assert!(same.to_diagnostic().notes.is_empty());
}

#[test]
fn early_duplicate_pou() {
    let e = EarlyDuplicateError::Pou { pou1: named("P", 1, 20), pou2: named("P", 3, 0) };
    let d = e.to_diagnostic();
    assert_eq!(d.message, "duplicate POU 'P'");
    assert_eq!(d.span, span(23, 24));
    assert_eq!(d.related[0].message, "POU 'P' is already defined here");
    assert_eq!(d.related[0].file, FileId { id: 3 });
}

#[test]
fn access_errors_describe_the_path() {
    let e = hir::path_error::AccessError::InvalidUsingDirective { path: "Std.Io".to_string(), span: span(0, 6) };
    assert_eq!(e.description(), "could not find namespace 'Std.Io'");
    let d = e.to_diagnostic();
    assert_eq!(d.message, "could not find namespace 'Std.Io'");
    assert_eq!(d.severity, Some(Severity::Error));
    let e = hir::path_error::AccessError::NoItemInScope { access: "a.b.c".to_string(), span: span(0, 5) };
    assert_eq!(e.description(), "no path or item 'a.b.c' in scope");
    let e = hir::path_error::AccessError::SuperBodyOnIncompatiblePou { call_site: span(1, 8) };
    assert_eq!(e.to_diagnostic().message, "'SUPER()' is not valid in this context");
}

#[test]
fn an_initializer_index_out_of_bounds() {
    let e = hir::init_inference::InitInferenceError::IndexOutOfBounds {
        size: SpanIdent { text: "12".to_string(), span: span(3, 5) },
        dimension: 2,
        index: 12,
        min: 0,
        max: 9,
    };
    let d = e.to_diagnostic();
    assert_eq!(d.message, "index '12' is out of bounds (expected between 0 and 9)");
    assert_eq!(d.notes, vec!["this error occurred in array dimension 3".to_string()]);
}

#[test]
fn an_abstract_class_without_abstract_methods() {
    let class = hir::hir::PouRef { decl: named("Shape", 1, 0), is_class: true };
    let e = hir::e5_inheritance::InheritanceError::AbstractClassHasNoAbstractMethods { class };
    assert_eq!(e.code(), "E0508");
    assert_eq!(e.description(), "inheritance violation");
    let d = e.to_diagnostic(FileId { id: 1 });
    assert_eq!(d.message, "ABSTRACT class 'Shape' has no abstract methods");
    assert_eq!(d.span, span(3, 8));
    assert_eq!(d.notes, vec!["abstract classes must have at least one abstract method".to_string()]);
}
