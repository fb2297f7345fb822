//! E04xx (earlier numbering): visibility errors.
use vstd::prelude::*;
use vstd::string::*;
use crate::diag::{Diagnostic, DiagnosticView, Span};
use crate::e10_visibility::SameNamespaceResult;
use crate::hir::SpanIdent;
use crate::text::{cat2, cat3, cat4, cat5, cat6, cat7};

use crate::diag::RelatedView;
use crate::diag::Severity;

use crate::diag::Tag;
use crate::diag::FixView;

verus! {

/// A visibility error.
pub enum VisibilityError {
    /// A PRIVATE item accessed from outside its POU (`call_site` as written).
    Private { call_site: SpanIdent, target: Span },
    /// An INTERNAL item accessed from another namespace; `result` says which.
    Internal { call_site: SpanIdent, target: Span, result: SameNamespaceResult },
    /// A PROTECTED item accessed from outside its POU and derived POUs.
    Protected { call_site: SpanIdent, target: Span },
    /// A reference to a {test} POU.
    TestOnly { call_site: SpanIdent },
}

impl VisibilityError {
    pub open spec fn spec_code(&self) -> Seq<char> {
        match self {
            VisibilityError::Private { .. } => "E0401"@,
            VisibilityError::Internal { .. } => "E0402"@,
            VisibilityError::Protected { .. } => "E0403"@,
            VisibilityError::TestOnly { .. } => "E0404"@,
        }
    }

    /// The stable code of the error.
    pub fn code(&self) -> (r: &'static str)
        ensures
            r@ == self.spec_code(),
    {
        match self {
            VisibilityError::Private { .. } => "E0401",
            VisibilityError::Internal { .. } => "E0402",
            VisibilityError::Protected { .. } => "E0403",
            VisibilityError::TestOnly { .. } => "E0404",
        }
    }

    pub open spec fn spec_description(&self) -> Seq<char> {
        match self {
            VisibilityError::Private { .. } => "access control violation"@,
            VisibilityError::Internal { .. } => "access control violation"@,
            VisibilityError::Protected { .. } => "access control violation"@,
            VisibilityError::TestOnly { .. } => "access control violation"@,
        }
    }

    /// The short description of the error's kind.
    pub fn description(&self) -> (r: &'static str)
        ensures
            r@ == self.spec_description(),
    {
        match self {
            VisibilityError::Private { .. } => "access control violation",
            VisibilityError::Internal { .. } => "access control violation",
            VisibilityError::Protected { .. } => "access control violation",
            VisibilityError::TestOnly { .. } => "access control violation",
        }
    }

    /// An error diagnostic of this error at `span`.
    pub open spec fn err(&self, message: Seq<char>, span: Span) -> DiagnosticView {
        DiagnosticView::error(message, self.spec_code(), self.spec_description(), span)
    }

    fn error_at(&self, message: String, span: Span) -> (d: Diagnostic)
        ensures
            d@ == self.err(message@, span),
    {
        Diagnostic::error(message, self.code(), self.description(), span)
    }

    /// The diagnostic this error renders to.
    pub open spec fn spec_to_diagnostic(&self) -> DiagnosticView {
        match self {
            VisibilityError::Private { call_site, target } =>
                self.err("can not access PRIVATE item '"@ + call_site.text@ + "'"@, call_site.span)
                .note("variables and methods marked PRIVATE can only be accessed from within the same POU"@),
            VisibilityError::Internal { call_site, target, result } =>
                {
                    let d = self.err("can not access INTERNAL item '"@ + call_site.text@ + "'"@, call_site.span);
                    match result {
                        SameNamespaceResult::DifferentNamespaces(ns1, ns2) => d.note(
                            "calling scope is in NAMESPACE '"@ + ns1@ + "', item is only available in NAMESPACE '"@ + ns2@ + "'"@,
                        ),
                        SameNamespaceResult::GlobalAndNamespace(ns) => d.note(
                            "calling scope is in the GLOBAL scope, item is only available in NAMESPACE '"@ + ns@ + "'"@,
                        ),
                        SameNamespaceResult::NamespaceAndGlobal(ns) => d.note(
                            "calling scope is in NAMESPACE '"@ + ns@ + "', item scope is only available the GLOBAL scope"@,
                        ),
                        SameNamespaceResult::Same => d,
                    }
                },
            VisibilityError::Protected { call_site, target } =>
                self.err("can not access PROTECTED item '"@ + call_site.text@ + "'"@, call_site.span)
                .note("Variables and methods marked PROTECTED are only available within the same POU or derived POUs"@),
            VisibilityError::TestOnly { call_site } =>
                self.err("can not access test item '"@ + call_site.text@ + "'"@, call_site.span)
                .note("items marked with {test} can only be referenced from other {test} items"@),
        }
    }

    /// Renders the error as a diagnostic.
    #[verifier::rlimit(60)]
    pub fn to_diagnostic(&self) -> (d: Diagnostic)
        ensures
            d@ == self.spec_to_diagnostic(),
    {
        match self {
            VisibilityError::Private { call_site, target } => {
                let mut d = self.error_at(cat3("can not access PRIVATE item '", call_site.text.as_str(), "'"), call_site.span);
                d.with_note(String::from_str("variables and methods marked PRIVATE can only be accessed from within the same POU"));
                d
            },
            VisibilityError::Internal { call_site, target, result } => {
                let mut d = self.error_at(cat3("can not access INTERNAL item '", call_site.text.as_str(), "'"), call_site.span);
                match result {
                    SameNamespaceResult::DifferentNamespaces(ns1, ns2) => d.with_note(cat5(
                        "calling scope is in NAMESPACE '",
                        ns1.as_str(),
                        "', item is only available in NAMESPACE '",
                        ns2.as_str(),
                        "'",
                    )),
                    SameNamespaceResult::GlobalAndNamespace(ns) => d.with_note(cat3(
                        "calling scope is in the GLOBAL scope, item is only available in NAMESPACE '",
                        ns.as_str(),
                        "'",
                    )),
                    SameNamespaceResult::NamespaceAndGlobal(ns) => d.with_note(cat3(
                        "calling scope is in NAMESPACE '",
                        ns.as_str(),
                        "', item scope is only available the GLOBAL scope",
                    )),
                    SameNamespaceResult::Same => {},
                }
                d
            },
            VisibilityError::Protected { call_site, target } => {
                let mut d = self.error_at(cat3("can not access PROTECTED item '", call_site.text.as_str(), "'"), call_site.span);
                d.with_note(String::from_str("Variables and methods marked PROTECTED are only available within the same POU or derived POUs"));
                d
            },
            VisibilityError::TestOnly { call_site } => {
                let mut d = self.error_at(cat3("can not access test item '", call_site.text.as_str(), "'"), call_site.span);
                d.with_note(String::from_str("items marked with {test} can only be referenced from other {test} items"));
                d
            },
        }
    }

}

/// Each kind of `VisibilityError` is reported at the span of what it concerns, with
/// its message and severity, whatever names, spans and texts it holds; a
/// kind whose diagnostic is built directly also carries exactly the
/// related locations, notes, tags, source and quick fixes listed.
pub proof fn law_visibility_error_rendering(this: VisibilityError)
    ensures
        match this {
            VisibilityError::Private { call_site, target } => {
                let d = this.spec_to_diagnostic();
                &&& d.message == "can not access PRIVATE item '"@ + call_site.text@ + "'"@
                &&& d.span == call_site.span
                &&& d.severity == Some(Severity::Error)
                &&& d.related == Seq::<RelatedView>::empty()
                &&& d.notes == Seq::<Seq<char>>::empty().push("variables and methods marked PRIVATE can only be accessed from within the same POU"@)
                &&& d.tags == Seq::<Tag>::empty()
                &&& d.source == None::<Seq<char>>
                &&& d.fixes == Seq::<FixView>::empty()
            },
            VisibilityError::Internal { call_site, target, result } => {
                let d = this.spec_to_diagnostic();
                &&& d.message == "can not access INTERNAL item '"@ + call_site.text@ + "'"@
                &&& d.span == call_site.span
                &&& d.severity == Some(Severity::Error)
            },
            VisibilityError::Protected { call_site, target } => {
                let d = this.spec_to_diagnostic();
                &&& d.message == "can not access PROTECTED item '"@ + call_site.text@ + "'"@
                &&& d.span == call_site.span
                &&& d.severity == Some(Severity::Error)
                &&& d.related == Seq::<RelatedView>::empty()
                &&& d.notes == Seq::<Seq<char>>::empty().push("Variables and methods marked PROTECTED are only available within the same POU or derived POUs"@)
                &&& d.tags == Seq::<Tag>::empty()
                &&& d.source == None::<Seq<char>>
                &&& d.fixes == Seq::<FixView>::empty()
            },
            VisibilityError::TestOnly { call_site } => {
                let d = this.spec_to_diagnostic();
                &&& d.message == "can not access test item '"@ + call_site.text@ + "'"@
                &&& d.span == call_site.span
                &&& d.severity == Some(Severity::Error)
                &&& d.related == Seq::<RelatedView>::empty()
                &&& d.notes == Seq::<Seq<char>>::empty().push("items marked with {test} can only be referenced from other {test} items"@)
                &&& d.tags == Seq::<Tag>::empty()
                &&& d.source == None::<Seq<char>>
                &&& d.fixes == Seq::<FixView>::empty()
            },
        },
{
}

} // verus!
