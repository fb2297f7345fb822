//! E02xx in the numbered catalogue: names, fields and namespaces that do not
//! resolve, ambiguous names, and VAR_EXTERNAL or RETAIN declarations that do
//! not fit.
use vstd::prelude::*;
use vstd::string::*;
use crate::diag::{Diagnostic, DiagnosticView, Span};
use crate::e2_resolve::{
    ambiguity_notes, ambiguity_of, candidate_notes, copy_texts, debug_str, debug_text, distinct_places,
    duplicate_locations, duplicated_namespaces, lemma_ambiguity_order_free, list_candidates, ScopedPou, SearchResults,
};
use crate::e8_subrange::{spec_with_bounds, with_bounds, BoundedType};
use crate::hir::{located, with_location, TypeRef, Var};
use crate::text::{cat3, cat5, cat7, texts};

use crate::diag::RelatedView;
use crate::diag::Severity;

use crate::diag::Tag;
use crate::diag::FixView;

verus! {

/// A resolution error.
pub enum ResolveError {
    /// A name found nowhere in scope; `results` is what the search for
    /// similar functions and enumerations found.
    NoItemInScope { ident: String, span: Span, results: SearchResults },
    /// An initializer names a field the type (named `ty`) does not have;
    /// `hints` are the notes suggesting similar fields.
    NoSuchFieldInitExpr { span: Span, ident: String, ty: String, hints: Vec<String> },
    /// A path names a field the type does not have; `hints` suggest similar fields.
    NoSuchFieldPathExpr { span: Span, ident: String, ty: TypeRef, hints: Vec<String> },
    /// A path that names nothing: `path` as written, `path_str` its path part
    /// and `target` its last identifier; `in_namespace` when the path has a
    /// namespace part, `namespace_exists` when the path names a namespace,
    /// and `results` what the search for similar items found.
    NoNamespaceItemFound {
        path: String,
        span: Span,
        path_str: String,
        target: String,
        in_namespace: bool,
        namespace_exists: bool,
        results: SearchResults,
    },
    /// A USING directive names no namespace; `results` is what the search for
    /// similar namespaces found.
    UsingNamespaceNotFound { span: Span, path: String, results: SearchResults },
    /// Several items of one name in scope; `candidates` are the POUs it could name.
    MultipleItemsInScope { name: String, span: Span, candidates: Vec<ScopedPou> },
    /// A VAR_EXTERNAL naming no accessible VAR_GLOBAL.
    ExternalVarNotFound { var: Var },
    /// A VAR_EXTERNAL whose type differs from its VAR_GLOBAL's, subrange included.
    ExternalVarTypeMismatch { var: Var, external: BoundedType, global: BoundedType },
    /// A RETAIN or NON_RETAIN (`retain` tells which) variable of a stateless
    /// POU of kind `pou_kind`.
    RetainInStatelessPou { var: Var, retain: bool, pou_kind: String },
}

impl ResolveError {
    pub open spec fn spec_code(&self) -> Seq<char> {
        match self {
            ResolveError::NoItemInScope { .. } => "E0201"@,
            ResolveError::NoSuchFieldInitExpr { .. } => "E0202"@,
            ResolveError::NoSuchFieldPathExpr { .. } => "E0202"@,
            ResolveError::NoNamespaceItemFound { .. } => "E0203"@,
            ResolveError::UsingNamespaceNotFound { .. } => "E0204"@,
            ResolveError::MultipleItemsInScope { .. } => "E0205"@,
            ResolveError::ExternalVarNotFound { .. } => "E0206"@,
            ResolveError::ExternalVarTypeMismatch { .. } => "E0207"@,
            ResolveError::RetainInStatelessPou { .. } => "E0208"@,
        }
    }

    /// The stable code of the error.
    pub fn code(&self) -> (r: &'static str)
        ensures
            r@ == self.spec_code(),
    {
        match self {
            ResolveError::NoItemInScope { .. } => "E0201",
            ResolveError::NoSuchFieldInitExpr { .. } => "E0202",
            ResolveError::NoSuchFieldPathExpr { .. } => "E0202",
            ResolveError::NoNamespaceItemFound { .. } => "E0203",
            ResolveError::UsingNamespaceNotFound { .. } => "E0204",
            ResolveError::MultipleItemsInScope { .. } => "E0205",
            ResolveError::ExternalVarNotFound { .. } => "E0206",
            ResolveError::ExternalVarTypeMismatch { .. } => "E0207",
            ResolveError::RetainInStatelessPou { .. } => "E0208",
        }
    }

    pub open spec fn spec_description(&self) -> Seq<char> {
        match self {
            ResolveError::NoItemInScope { .. } => "no item found in scope"@,
            ResolveError::NoSuchFieldInitExpr { .. } => "no such field"@,
            ResolveError::NoSuchFieldPathExpr { .. } => "no such field"@,
            ResolveError::NoNamespaceItemFound { .. } => "no namespace item found"@,
            ResolveError::UsingNamespaceNotFound { .. } => "namespace not found"@,
            ResolveError::MultipleItemsInScope { .. } => "multiple items in scope"@,
            ResolveError::ExternalVarNotFound { .. } => "external variable not found"@,
            ResolveError::ExternalVarTypeMismatch { .. } => "external variable type mismatch"@,
            ResolveError::RetainInStatelessPou { .. } => "invalid retentive qualifier"@,
        }
    }

    /// The short description of the error's kind.
    pub fn description(&self) -> (r: &'static str)
        ensures
            r@ == self.spec_description(),
    {
        match self {
            ResolveError::NoItemInScope { .. } => "no item found in scope",
            ResolveError::NoSuchFieldInitExpr { .. } => "no such field",
            ResolveError::NoSuchFieldPathExpr { .. } => "no such field",
            ResolveError::NoNamespaceItemFound { .. } => "no namespace item found",
            ResolveError::UsingNamespaceNotFound { .. } => "namespace not found",
            ResolveError::MultipleItemsInScope { .. } => "multiple items in scope",
            ResolveError::ExternalVarNotFound { .. } => "external variable not found",
            ResolveError::ExternalVarTypeMismatch { .. } => "external variable type mismatch",
            ResolveError::RetainInStatelessPou { .. } => "invalid retentive qualifier",
        }
    }

    /// An error diagnostic of this error at `span`.
    pub open spec fn err(&self, message: Seq<char>, span: Span) -> DiagnosticView {
        DiagnosticView::error(message, self.spec_code(), self.spec_description(), span)
    }

    fn error_at(&self, message: String, span: Span) -> (d: Diagnostic)
        ensures
            d@ == self.err(message@, span),
    {
        Diagnostic::error(message, self.code(), self.description(), span)
    }

    /// The diagnostic this error renders to.
    pub open spec fn spec_to_diagnostic(&self) -> DiagnosticView {
        match self {
            ResolveError::NoItemInScope { ident, span, results } =>
                self.err("no item "@ + debug_text(ident@) + " found in scope"@, *span)
                    .notes_all(candidate_notes(ident@, *results)),
            ResolveError::NoSuchFieldInitExpr { span, ident, ty, hints } =>
                self.err("'"@ + ty@ + "' has no field named '"@ + ident@ + "'"@, *span).notes_all(texts(hints@)),
            ResolveError::NoSuchFieldPathExpr { span, ident, ty, hints } =>
                located(self.err("'"@ + ty.name@ + "' has no field named '"@ + ident@ + "'"@, *span), ty@)
                    .notes_all(texts(hints@)),
            ResolveError::NoNamespaceItemFound { path, span, path_str, target, in_namespace, namespace_exists, results } => {
                let d = self.err("no item found for path '"@ + path@ + "'"@, *span);
                let ns_note = "namespace named '"@ + path_str@
                    + "' exists but it cannot be used as an item, you can either:\n- Import the namespace via an USING directive: 'USING "@
                    + path_str@ + "'\n- Import an item from this namespace: '"@ + path_str@ + ".<POU>'"@;
                if !*in_namespace {
                    let d = d.notes_all(candidate_notes(target@, *results));
                    if *namespace_exists {
                        d.note(ns_note)
                    } else {
                        d
                    }
                } else if *namespace_exists {
                    d.note(ns_note)
                } else {
                    d.notes_all(candidate_notes(path@, *results))
                }
            },
            ResolveError::UsingNamespaceNotFound { span, path, results } =>
                self.err("namespace '"@ + path@ + "' not found"@, *span).notes_all(candidate_notes(path@, *results)),
            ResolveError::MultipleItemsInScope { name, span, candidates } =>
                self.err("multiple items named '"@ + name@ + "' available in scope"@, *span)
                    .notes_all(ambiguity_notes(name@, candidates@))
                    .rels(duplicate_locations(name@, candidates@, duplicated_namespaces(candidates@))),
            ResolveError::ExternalVarNotFound { var } =>
                self.err("external variable '"@ + var.decl.name@ + "' not found in any accessible VAR_GLOBAL"@, var.decl.span),
            ResolveError::ExternalVarTypeMismatch { var, external, global } =>
                self.err(
                    "'"@ + var.decl.name@ + "' is declared '"@ + spec_with_bounds(*external) + "' here but its VAR_GLOBAL is '"@
                        + spec_with_bounds(*global) + "': an external must repeat the global's type exactly"@,
                    var.decl.span,
                ),
            ResolveError::RetainInStatelessPou { var, retain, pou_kind } =>
                self.err(
                    "'"@ + var.decl.name@ + "' cannot be "@ + (if *retain { "RETAIN"@ } else { "NON_RETAIN"@ }) + ": a "@
                        + pou_kind@ + " is stateless"@,
                    var.decl.span,
                ).note(
                    "retentive behavior requires instance storage; only FUNCTION_BLOCK, CLASS, and PROGRAM variables (and VAR_GLOBAL) can be RETAIN/NON_RETAIN"@,
                ),
        }
    }

    /// Renders the error as a diagnostic.
    #[verifier::rlimit(40)]
    pub fn to_diagnostic(&self) -> (d: Diagnostic)
        ensures
            d@ == self.spec_to_diagnostic(),
    {
        match self {
            ResolveError::NoItemInScope { ident, span, results } => {
                let quoted = debug_str(ident.as_str());
                let mut d = self.error_at(cat3("no item ", quoted.as_str(), " found in scope"), *span);
                d.with_notes(list_candidates(ident.as_str(), results));
                d
            },
            ResolveError::NoSuchFieldInitExpr { span, ident, ty, hints } => {
                let mut d = self.error_at(cat5("'", ty.as_str(), "' has no field named '", ident.as_str(), "'"), *span);
                d.with_notes(copy_texts(hints));
                d
            },
            ResolveError::NoSuchFieldPathExpr { span, ident, ty, hints } => {
                let mut d = self.error_at(cat5("'", ty.name.as_str(), "' has no field named '", ident.as_str(), "'"), *span);
                with_location(&mut d, ty);
                d.with_notes(copy_texts(hints));
                d
            },
            ResolveError::NoNamespaceItemFound { path, span, path_str, target, in_namespace, namespace_exists, results } => {
                let mut d = self.error_at(cat3("no item found for path '", path.as_str(), "'"), *span);
                let p = path_str.as_str();
                let ns_note = cat7(
                    "namespace named '",
                    p,
                    "' exists but it cannot be used as an item, you can either:\n- Import the namespace via an USING directive: 'USING ",
                    p,
                    "'\n- Import an item from this namespace: '",
                    p,
                    ".<POU>'",
                );
                if !*in_namespace {
                    d.with_notes(list_candidates(target.as_str(), results));
                    if *namespace_exists {
                        d.with_note(ns_note);
                    }
                } else if *namespace_exists {
                    d.with_note(ns_note);
                } else {
                    d.with_notes(list_candidates(path.as_str(), results));
                }
                d
            },
            ResolveError::UsingNamespaceNotFound { span, path, results } => {
                let mut d = self.error_at(cat3("namespace '", path.as_str(), "' not found"), *span);
                d.with_notes(list_candidates(path.as_str(), results));
                d
            },
            ResolveError::MultipleItemsInScope { name, span, candidates } => {
                let mut d = self.error_at(cat3("multiple items named '", name.as_str(), "' available in scope"), *span);
                let (notes, rels) = ambiguity_of(name.as_str(), candidates);
                d.with_notes(notes);
                d.with_related_all(rels);
                d
            },
            ResolveError::ExternalVarNotFound { var } => {
                self.error_at(
                    cat3("external variable '", var.decl.name.as_str(), "' not found in any accessible VAR_GLOBAL"),
                    var.decl.span,
                )
            },
            ResolveError::ExternalVarTypeMismatch { var, external, global } => {
                let e = with_bounds(external);
                let g = with_bounds(global);
                let head = cat5("'", var.decl.name.as_str(), "' is declared '", e.as_str(), "' here but its VAR_GLOBAL is '");
                self.error_at(
                    cat3(head.as_str(), g.as_str(), "': an external must repeat the global's type exactly"),
                    var.decl.span,
                )
            },
            ResolveError::RetainInStatelessPou { var, retain, pou_kind } => {
                let mut d = self.error_at(
                    cat7(
                        "'",
                        var.decl.name.as_str(),
                        "' cannot be ",
                        if *retain { "RETAIN" } else { "NON_RETAIN" },
                        ": a ",
                        pou_kind.as_str(),
                        " is stateless",
                    ),
                    var.decl.span,
                );
                d.with_note(String::from_str(
                    "retentive behavior requires instance storage; only FUNCTION_BLOCK, CLASS, and PROGRAM variables (and VAR_GLOBAL) can be RETAIN/NON_RETAIN",
                ));
                d
            },
        }
    }
}

/// An ambiguous name renders the same diagnostic whatever the order in which
/// its candidates were found, as long as no two different candidates of one
/// namespace start at the same place of the same file.
pub proof fn lemma_ambiguous_name_order_free(name: String, span: Span, cs1: Vec<ScopedPou>, cs2: Vec<ScopedPou>)
    requires
        cs1@.to_multiset() == cs2@.to_multiset(),
        distinct_places(cs1@),
    ensures
        (ResolveError::MultipleItemsInScope { name: name, span: span, candidates: cs1 }).spec_to_diagnostic()
            == (ResolveError::MultipleItemsInScope { name: name, span: span, candidates: cs2 }).spec_to_diagnostic(),
{
    lemma_ambiguity_order_free(name@, cs1@, cs2@);
}

/// A USING of a namespace that does not exist is reported at the directive,
/// names the path, and carries exactly the notes of the candidate listing
/// for that path and the search's results: the same notes a name not found
/// in scope gets from the same results.
pub proof fn law_namespace_not_found_lists_candidates(path: String, span: Span, results: SearchResults)
    ensures
        ({
            let d = (ResolveError::UsingNamespaceNotFound { path: path, span: span, results: results }).spec_to_diagnostic();
            &&& d.message == "namespace '"@ + path@ + "' not found"@
            &&& d.span == span
            &&& d.notes == candidate_notes(path@, results)
            &&& d.notes == (ResolveError::NoItemInScope { ident: path, span: span, results: results }).spec_to_diagnostic().notes
        }),
{
}

/// When the only thing the search found is one namespace with a similar
/// path, the diagnostic of the namespace not found has exactly one note,
/// naming that namespace.
pub proof fn law_namespace_not_found_names_the_similar_namespace(path: String, span: Span, results: SearchResults)
    requires
        results.similar_variables_note is None,
        results.this_variables@.len() == 0,
        results.local_pous@.len() == 0,
        results.imported_pous@.len() == 0,
        results.namespaces@.len() == 1,
    ensures
        (ResolveError::UsingNamespaceNotFound { path: path, span: span, results: results }).spec_to_diagnostic().notes
            == seq![
            "no namespace named '"@ + path@ + "' found, but the following namespace has similar path:\n- "@
                + results.namespaces@[0]@,
        ],
{
    let n = results.namespaces@[0]@;
    let ns = texts(results.namespaces@);
    assert(ns =~= seq![n]);
    assert(crate::e2_resolve::capped(ns) == ns);
    assert(crate::e2_resolve::first_occurrences(crate::e2_resolve::import_pairs(results.imported_pous@)) =~= Seq::<
        (Seq<char>, Seq<char>),
    >::empty());
    assert(texts(results.this_variables@) =~= Seq::<Seq<char>>::empty());
    assert(texts(results.local_pous@) =~= Seq::<Seq<char>>::empty());
    assert(crate::utils::shown(ns) == ns);
    assert(crate::utils::bullets("- "@, ns) == "- "@ + n);
    reveal_strlit("");
    reveal_strlit("s");
    reveal_strlit(" ");
    reveal_strlit("have");
    reveal_strlit("has");
    reveal_strlit(" similar path:\n");
    reveal_strlit("' found, but the following namespace");
    reveal_strlit("' found, but the following namespace has similar path:\n- ");
    reveal_strlit("- ");
    let header = "no namespace named '"@ + path@ + "' found, but the following namespace"@ + ""@ + " "@ + "has"@
        + " similar path:\n"@;
    assert(header + ("- "@ + n) + ""@ =~= "no namespace named '"@ + path@
        + "' found, but the following namespace has similar path:\n- "@ + n);
    assert(crate::e2_resolve::candidate_notes(path@, results) =~= seq![header + ("- "@ + n) + ""@]);
}

/// Each kind of `ResolveError` is reported at the span of what it concerns, with
/// its message and severity, whatever names, spans and texts it holds; a
/// kind whose diagnostic is built directly also carries exactly the
/// related locations, notes, tags, source and quick fixes listed.
pub proof fn law_resolve_error_rendering(this: ResolveError)
    ensures
        match this {
            ResolveError::NoItemInScope { ident, span, results } => {
                let d = this.spec_to_diagnostic();
                &&& d.message == "no item "@ + debug_text(ident@) + " found in scope"@
                &&& d.span == span
                &&& d.severity == Some(Severity::Error)
                &&& d.related == Seq::<RelatedView>::empty()
                &&& d.notes == (Seq::<Seq<char>>::empty() + candidate_notes(ident@, results))
                &&& d.tags == Seq::<Tag>::empty()
                &&& d.source == None::<Seq<char>>
                &&& d.fixes == Seq::<FixView>::empty()
            },
            ResolveError::NoSuchFieldInitExpr { span, ident, ty, hints } => {
                let d = this.spec_to_diagnostic();
                &&& d.message == "'"@ + ty@ + "' has no field named '"@ + ident@ + "'"@
                &&& d.span == span
                &&& d.severity == Some(Severity::Error)
                &&& d.related == Seq::<RelatedView>::empty()
                &&& d.notes == (Seq::<Seq<char>>::empty() + texts(hints@))
                &&& d.tags == Seq::<Tag>::empty()
                &&& d.source == None::<Seq<char>>
                &&& d.fixes == Seq::<FixView>::empty()
            },
            ResolveError::NoSuchFieldPathExpr { span, ident, ty, hints } => {
                let d = this.spec_to_diagnostic();
                &&& d.message == "'"@ + ty.name@ + "' has no field named '"@ + ident@ + "'"@
                &&& d.span == span
                &&& d.severity == Some(Severity::Error)
                &&& d.related == (Seq::<RelatedView>::empty() + match ty@.location { Some(r) => seq![r], None => Seq::<RelatedView>::empty() })
                &&& d.notes == (Seq::<Seq<char>>::empty() + texts(hints@))
                &&& d.tags == Seq::<Tag>::empty()
                &&& d.source == None::<Seq<char>>
                &&& d.fixes == Seq::<FixView>::empty()
            },
            ResolveError::NoNamespaceItemFound { path, span, path_str, target, in_namespace, namespace_exists, results } => {
                let d = this.spec_to_diagnostic();
                &&& d.message == "no item found for path '"@ + path@ + "'"@
                &&& d.span == span
                &&& d.severity == Some(Severity::Error)
            },
            ResolveError::UsingNamespaceNotFound { span, path, results } => {
                let d = this.spec_to_diagnostic();
                &&& d.message == "namespace '"@ + path@ + "' not found"@
                &&& d.span == span
                &&& d.severity == Some(Severity::Error)
                &&& d.related == Seq::<RelatedView>::empty()
                &&& d.notes == (Seq::<Seq<char>>::empty() + candidate_notes(path@, results))
                &&& d.tags == Seq::<Tag>::empty()
                &&& d.source == None::<Seq<char>>
                &&& d.fixes == Seq::<FixView>::empty()
            },
            ResolveError::MultipleItemsInScope { name, span, candidates } => {
                let d = this.spec_to_diagnostic();
                &&& d.message == "multiple items named '"@ + name@ + "' available in scope"@
                &&& d.span == span
                &&& d.severity == Some(Severity::Error)
                &&& d.related == (Seq::<RelatedView>::empty() + duplicate_locations(name@, candidates@, duplicated_namespaces(candidates@)))
                &&& d.notes == (Seq::<Seq<char>>::empty() + ambiguity_notes(name@, candidates@))
                &&& d.tags == Seq::<Tag>::empty()
                &&& d.source == None::<Seq<char>>
                &&& d.fixes == Seq::<FixView>::empty()
            },
            ResolveError::ExternalVarNotFound { var } => {
                let d = this.spec_to_diagnostic();
                &&& d.message == "external variable '"@ + var.decl.name@ + "' not found in any accessible VAR_GLOBAL"@
                &&& d.span == var.decl.span
                &&& d.severity == Some(Severity::Error)
                &&& d.related == Seq::<RelatedView>::empty()
                &&& d.notes == Seq::<Seq<char>>::empty()
                &&& d.tags == Seq::<Tag>::empty()
                &&& d.source == None::<Seq<char>>
                &&& d.fixes == Seq::<FixView>::empty()
            },
            ResolveError::ExternalVarTypeMismatch { var, external, global } => {
                let d = this.spec_to_diagnostic();
                &&& d.message == "'"@ + var.decl.name@ + "' is declared '"@ + spec_with_bounds(external) + "' here but its VAR_GLOBAL is '"@ + spec_with_bounds(global) + "': an external must repeat the global's type exactly"@
                &&& d.span == var.decl.span
                &&& d.severity == Some(Severity::Error)
                &&& d.related == Seq::<RelatedView>::empty()
                &&& d.notes == Seq::<Seq<char>>::empty()
                &&& d.tags == Seq::<Tag>::empty()
                &&& d.source == None::<Seq<char>>
                &&& d.fixes == Seq::<FixView>::empty()
            },
            ResolveError::RetainInStatelessPou { var, retain, pou_kind } => {
                let d = this.spec_to_diagnostic();
                &&& d.message == "'"@ + var.decl.name@ + "' cannot be "@ + (if retain { "RETAIN"@ } else { "NON_RETAIN"@ }) + ": a "@ + pou_kind@ + " is stateless"@
                &&& d.span == var.decl.span
                &&& d.severity == Some(Severity::Error)
                &&& d.related == Seq::<RelatedView>::empty()
                &&& d.notes == Seq::<Seq<char>>::empty().push("retentive behavior requires instance storage; only FUNCTION_BLOCK, CLASS, and PROGRAM variables (and VAR_GLOBAL) can be RETAIN/NON_RETAIN"@)
                &&& d.tags == Seq::<Tag>::empty()
                &&& d.source == None::<Seq<char>>
                &&& d.fixes == Seq::<FixView>::empty()
            },
        },
{
}

} // verus!
