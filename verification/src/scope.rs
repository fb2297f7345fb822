//! Namespace errors of scopes, as reported without a code.
use vstd::prelude::*;
use vstd::string::*;
use crate::diag::{Diagnostic, DiagnosticView, Severity, Span};
use crate::diag::Tag;
use crate::hir::Named;
use crate::text::{cat2, cat3, cat4, cat5, cat6, cat7};

use crate::diag::RelatedView;

use crate::diag::FixView;

verus! {

/// A namespace error.
pub enum NamespaceError {
    /// A namespace, by its path, that does not exist.
    NamespaceNotFound { namespace_path: String, span: Span },
    /// A USING, by its path, of a namespace already in scope.
    NamespaceAlreadyInScope { using: Named, namespace: Named },
    /// A namespace imported twice; each USING named by its path.
    DuplicateUsing { using: Named, other: Named },
}

impl NamespaceError {
    /// An error diagnostic of this error at `span`, with no code.
    pub open spec fn err(&self, message: Seq<char>, span: Span) -> DiagnosticView {
        DiagnosticView::plain(message, Some(Severity::Error), span)
    }

    fn error_at(&self, message: String, span: Span) -> (d: Diagnostic)
        ensures
            d@ == self.err(message@, span),
    {
        Diagnostic::plain(message, Some(Severity::Error), span)
    }

    /// The diagnostic this error renders to.
    pub open spec fn spec_to_diagnostic(&self) -> DiagnosticView {
        match self {
            NamespaceError::NamespaceNotFound { namespace_path, span } =>
                self.err("namespace '"@ + namespace_path@ + "' not found"@, *span),
            NamespaceError::NamespaceAlreadyInScope { using, namespace } =>
                DiagnosticView::plain("'"@ + using.name@ + "' is already in scope"@, Some(Severity::Warning), using.span)
                    .tagged(seq![Tag::Unnecessary]).rel(
                    "namespace '"@ + using.name@ + "' is defined here"@,
                    namespace.file,
                    namespace.span,
                ),
            NamespaceError::DuplicateUsing { using, other } =>
                self.err("duplicate `USING` for namespace '"@ + using.name@ + "'"@, using.span)
                .rel("namespace '"@ + other.name@ + "' is already imported here"@, other.file, other.span),
        }
    }

    /// Renders the error as a diagnostic.
    #[verifier::rlimit(60)]
    pub fn to_diagnostic(&self) -> (d: Diagnostic)
        ensures
            d@ == self.spec_to_diagnostic(),
    {
        match self {
            NamespaceError::NamespaceNotFound { namespace_path, span } => {
                self.error_at(cat3("namespace '", namespace_path.as_str(), "' not found"), *span)
            },
            NamespaceError::NamespaceAlreadyInScope { using, namespace } => {
                let mut d = Diagnostic::plain(
                    cat3("'", using.name.as_str(), "' is already in scope"),
                    Some(Severity::Warning),
                    using.span,
                );
                let tags = vec![Tag::Unnecessary];
                assert(tags@ =~= seq![Tag::Unnecessary]);
                d.with_tags(tags);
                d.with_related_at(cat3("namespace '", using.name.as_str(), "' is defined here"), namespace.file, namespace.span);
                d
            },
            NamespaceError::DuplicateUsing { using, other } => {
                let mut d = self.error_at(cat3("duplicate `USING` for namespace '", using.name.as_str(), "'"), using.span);
                d.with_related_at(cat3("namespace '", other.name.as_str(), "' is already imported here"), other.file, other.span);
                d
            },
        }
    }

}

/// Each kind of `NamespaceError` is reported at the span of what it concerns, with
/// its message and severity, whatever names, spans and texts it holds; a
/// kind whose diagnostic is built directly also carries exactly the
/// related locations, notes, tags, source and quick fixes listed.
pub proof fn law_namespace_error_rendering(this: NamespaceError)
    ensures
        match this {
            NamespaceError::NamespaceNotFound { namespace_path, span } => {
                let d = this.spec_to_diagnostic();
                &&& d.message == "namespace '"@ + namespace_path@ + "' not found"@
                &&& d.span == span
                &&& d.severity == Some(Severity::Error)
                &&& d.related == Seq::<RelatedView>::empty()
                &&& d.notes == Seq::<Seq<char>>::empty()
                &&& d.tags == Seq::<Tag>::empty()
                &&& d.source == None::<Seq<char>>
                &&& d.fixes == Seq::<FixView>::empty()
            },
            NamespaceError::NamespaceAlreadyInScope { using, namespace } => {
                let d = this.spec_to_diagnostic();
                &&& d.message == "'"@ + using.name@ + "' is already in scope"@
                &&& d.span == using.span
                &&& d.severity == Some(Severity::Warning)
                &&& d.related == Seq::<RelatedView>::empty().push(RelatedView { message: "namespace '"@ + using.name@ + "' is defined here"@, file: namespace.file, span: namespace.span })
                &&& d.notes == Seq::<Seq<char>>::empty()
                &&& d.tags == seq![Tag::Unnecessary]
                &&& d.source == None::<Seq<char>>
                &&& d.fixes == Seq::<FixView>::empty()
            },
            NamespaceError::DuplicateUsing { using, other } => {
                let d = this.spec_to_diagnostic();
                &&& d.message == "duplicate `USING` for namespace '"@ + using.name@ + "'"@
                &&& d.span == using.span
                &&& d.severity == Some(Severity::Error)
                &&& d.related == Seq::<RelatedView>::empty().push(RelatedView { message: "namespace '"@ + other.name@ + "' is already imported here"@, file: other.file, span: other.span })
                &&& d.notes == Seq::<Seq<char>>::empty()
                &&& d.tags == Seq::<Tag>::empty()
                &&& d.source == None::<Seq<char>>
                &&& d.fixes == Seq::<FixView>::empty()
            },
        },
{
}

} // verus!
