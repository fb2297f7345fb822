//! Accesses that do not resolve.
use vstd::prelude::*;
use vstd::string::*;
use crate::diag::{Diagnostic, DiagnosticView, Severity, Span};
use crate::e2_resolve::copy_texts;
use crate::text::{cat3, texts};

verus! {

/// An access that does not resolve.
pub enum AccessError {
    /// A USING directive naming no namespace (by its path).
    InvalidUsingDirective { path: String, span: Span },
    /// The first item of a path, as written, names nothing in scope.
    NoBeginLocalItemInScope { expr: String, span: Span },
    /// An item names nothing in scope; `hints` are the notes suggesting similar variables.
    NoLocalItemInScope { ident: String, span: Span, hints: Vec<String> },
    /// A path, as written, names nothing in scope.
    NoItemInScope { access: String, span: Span },
    /// THIS where there is no instance.
    ThisOnIncompatiblePou { call_site: Span },
    /// SUPER where there is no instance.
    SuperOnIncompatiblePou { call_site: Span },
    /// `SUPER()` where there is no base body.
    SuperBodyOnIncompatiblePou { call_site: Span },
}

impl AccessError {
    pub open spec fn spec_description(&self) -> Seq<char> {
        match self {
            AccessError::InvalidUsingDirective { path, span } => "could not find namespace '"@ + path@ + "'"@,
            AccessError::NoBeginLocalItemInScope { expr, span } => "no begin item '"@ + expr@ + "' in scope"@,
            AccessError::NoLocalItemInScope { ident, span, hints } => "no item '"@ + ident@ + "' in scope"@,
            AccessError::NoItemInScope { access, span } => "no path or item '"@ + access@ + "' in scope"@,
            AccessError::ThisOnIncompatiblePou { call_site } => "'THIS' is not valid in this context"@,
            AccessError::SuperOnIncompatiblePou { call_site } => "'SUPER' is not valid in this context"@,
            AccessError::SuperBodyOnIncompatiblePou { call_site } => "'SUPER()' is not valid in this context"@,
        }
    }

    /// What does not resolve.
    pub fn description(&self) -> (r: String)
        ensures
            r@ == self.spec_description(),
    {
        match self {
            AccessError::InvalidUsingDirective { path, span } => cat3("could not find namespace '", path.as_str(), "'"),
            AccessError::NoBeginLocalItemInScope { expr, span } => cat3("no begin item '", expr.as_str(), "' in scope"),
            AccessError::NoLocalItemInScope { ident, span, hints } => cat3("no item '", ident.as_str(), "' in scope"),
            AccessError::NoItemInScope { access, span } => cat3("no path or item '", access.as_str(), "' in scope"),
            AccessError::ThisOnIncompatiblePou { call_site } => String::from_str("'THIS' is not valid in this context"),
            AccessError::SuperOnIncompatiblePou { call_site } => String::from_str("'SUPER' is not valid in this context"),
            AccessError::SuperBodyOnIncompatiblePou { call_site } => String::from_str("'SUPER()' is not valid in this context"),
        }
    }

    /// The span the access is reported at.
    pub open spec fn spec_span(&self) -> Span {
        match self {
            AccessError::InvalidUsingDirective { span, .. } => *span,
            AccessError::NoBeginLocalItemInScope { span, .. } => *span,
            AccessError::NoLocalItemInScope { span, .. } => *span,
            AccessError::NoItemInScope { span, .. } => *span,
            AccessError::ThisOnIncompatiblePou { call_site } => *call_site,
            AccessError::SuperOnIncompatiblePou { call_site } => *call_site,
            AccessError::SuperBodyOnIncompatiblePou { call_site } => *call_site,
        }
    }

    fn span(&self) -> (r: Span)
        ensures
            r == self.spec_span(),
    {
        match self {
            AccessError::InvalidUsingDirective { span, .. } => *span,
            AccessError::NoBeginLocalItemInScope { span, .. } => *span,
            AccessError::NoLocalItemInScope { span, .. } => *span,
            AccessError::NoItemInScope { span, .. } => *span,
            AccessError::ThisOnIncompatiblePou { call_site } => *call_site,
            AccessError::SuperOnIncompatiblePou { call_site } => *call_site,
            AccessError::SuperBodyOnIncompatiblePou { call_site } => *call_site,
        }
    }

    /// `d` with what the access adds: the suggestions of similar variables
    /// for a local item.
    pub open spec fn spec_related(&self, d: DiagnosticView) -> DiagnosticView {
        match self {
            AccessError::NoLocalItemInScope { hints, .. } => d.notes_all(texts(hints@)),
            _ => d,
        }
    }

    /// Adds what the access contributes to a diagnostic.
    pub fn related(&self, d: &mut Diagnostic)
        ensures
            final(d)@ == self.spec_related(old(d)@),
    {
        match self {
            AccessError::NoLocalItemInScope { hints, .. } => d.with_notes(copy_texts(hints)),
            _ => {},
        }
    }

    /// The diagnostic this error renders to.
    pub open spec fn spec_to_diagnostic(&self) -> DiagnosticView {
        self.spec_related(DiagnosticView::plain(self.spec_description(), Some(Severity::Error), self.spec_span()))
    }

    /// Renders the error as a diagnostic.
    pub fn to_diagnostic(&self) -> (d: Diagnostic)
        ensures
            d@ == self.spec_to_diagnostic(),
    {
        let mut d = Diagnostic::plain(self.description(), Some(Severity::Error), self.span());
        self.related(&mut d);
        d
    }
}

} // verus!
