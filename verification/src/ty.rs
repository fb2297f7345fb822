//! Errors in type declarations, as reported without a code.
use vstd::prelude::*;
use vstd::string::*;
use crate::coerce::{ExprMismatch, ResolvedExpr};
use crate::diag::{Diagnostic, DiagnosticView, Severity, Span};
use crate::hir::{Named, SpanIdent};
use crate::text::{cat2, cat3, cat4, cat5, cat6, cat7};

use crate::diag::RelatedView;

use crate::diag::Tag;
use crate::diag::FixView;

verus! {

/// An error in a type declaration.
pub enum TyError {
    /// A type that contains itself.
    Recursive { origin: Named },
    /// A type that recurses through another.
    ReferenceRecursive { origin: Named, target: Named },
    /// A type naming an item, by its path, that does not resolve.
    UnresolvedNamespace { ty: Named, path: String, span: Span },
    /// A lower bound that is not a valid value.
    InvalidArrayLowerValue { value: ResolvedExpr },
    /// An upper bound that is not a valid value.
    InvalidArrayUpperValue { value: ResolvedExpr },
    /// An upper bound below the lower bound.
    InferiorUpperBound { lower: u64, upper: u64, upper_expr: ResolvedExpr },
    /// An ENUM of a type that is not an integer type.
    InvalidEnumType { value: Named, ty_name: String },
    /// An enum variant value that does not fit.
    InvalidEnumVariantValue { variant: SpanIdent, err: ExprMismatch },
    /// A SUBRANGE of a type that is not an integer type.
    InvalidSubrangeType { value: Named, ty_name: String },
    /// A subrange start that does not fit.
    InvalidSubrangeStart { expr: ResolvedExpr, err: ExprMismatch },
    /// A subrange end that does not fit.
    InvalidSubrangeEnd { expr: ResolvedExpr, err: ExprMismatch },
}

impl TyError {
    /// An error diagnostic of this error at `span`, with no code.
    pub open spec fn err(&self, message: Seq<char>, span: Span) -> DiagnosticView {
        DiagnosticView::plain(message, Some(Severity::Error), span)
    }

    fn error_at(&self, message: String, span: Span) -> (d: Diagnostic)
        ensures
            d@ == self.err(message@, span),
    {
        Diagnostic::plain(message, Some(Severity::Error), span)
    }

    /// The diagnostic this error renders to.
    pub open spec fn spec_to_diagnostic(&self) -> DiagnosticView {
        match self {
            TyError::Recursive { origin } =>
                self.err("'"@ + origin.name@ + "' is recursive"@, origin.name_span),
            TyError::ReferenceRecursive { origin, target } =>
                self.err("'"@ + origin.name@ + "' creates a recursion with '"@ + target.name@ + "'"@, origin.span)
                .rel("'"@ + target.name@ + "' is originally declared here"@, target.file, target.name_span)
                .rel("... and recurse at this location"@, origin.file, origin.name_span),
            TyError::UnresolvedNamespace { ty, path, span } =>
                self.err("unknown item '"@ + path@ + "'"@, *span),
            TyError::InvalidArrayLowerValue { value } =>
                self.err("Invalid lower bound value for ARRAY"@, value.span),
            TyError::InvalidArrayUpperValue { value } =>
                self.err("Invalid upper bound value for ARRAY"@, value.span),
            TyError::InferiorUpperBound { lower, upper, upper_expr } =>
                self.err("Upper bound value must be greater than lower bound value"@, upper_expr.span),
            TyError::InvalidEnumType { value, ty_name } =>
                self.err("invalid enum type '"@ + ty_name@ + "'"@, value.name_span)
                .note("only numeric integer types are allowed for ENUM"@),
            TyError::InvalidEnumVariantValue { variant, err } =>
                err.spec_related(self.err("invalid value for enum variant '"@ + variant.text@ + "': "@ + err.spec_description(), variant.span)),
            TyError::InvalidSubrangeType { value, ty_name } =>
                self.err("invalid subrange type '"@ + ty_name@ + "'"@, value.name_span)
                .note("only numeric integer types are allowed for SUBRANGE"@),
            TyError::InvalidSubrangeStart { expr, err } =>
                err.spec_related(self.err("invalid start value for subrange: "@ + err.spec_description(), expr.span)),
            TyError::InvalidSubrangeEnd { expr, err } =>
                err.spec_related(self.err("invalid end value for subrange: "@ + err.spec_description(), expr.span)),
        }
    }

    /// Renders the error as a diagnostic.
    #[verifier::rlimit(60)]
    pub fn to_diagnostic(&self) -> (d: Diagnostic)
        ensures
            d@ == self.spec_to_diagnostic(),
    {
        match self {
            TyError::Recursive { origin } => {
                self.error_at(cat3("'", origin.name.as_str(), "' is recursive"), origin.name_span)
            },
            TyError::ReferenceRecursive { origin, target } => {
                let mut d = self.error_at(cat5("'", origin.name.as_str(), "' creates a recursion with '", target.name.as_str(), "'"), origin.span);
                d.with_related_at(cat3("'", target.name.as_str(), "' is originally declared here"), target.file, target.name_span);
                d.with_related_at(String::from_str("... and recurse at this location"), origin.file, origin.name_span);
                d
            },
            TyError::UnresolvedNamespace { ty, path, span } => {
                self.error_at(cat3("unknown item '", path.as_str(), "'"), *span)
            },
            TyError::InvalidArrayLowerValue { value } => {
                self.error_at(String::from_str("Invalid lower bound value for ARRAY"), value.span)
            },
            TyError::InvalidArrayUpperValue { value } => {
                self.error_at(String::from_str("Invalid upper bound value for ARRAY"), value.span)
            },
            TyError::InferiorUpperBound { lower, upper, upper_expr } => {
                self.error_at(String::from_str("Upper bound value must be greater than lower bound value"), upper_expr.span)
            },
            TyError::InvalidEnumType { value, ty_name } => {
                let mut d = self.error_at(cat3("invalid enum type '", ty_name.as_str(), "'"), value.name_span);
                d.with_note(String::from_str("only numeric integer types are allowed for ENUM"));
                d
            },
            TyError::InvalidEnumVariantValue { variant, err } => {
                let head = cat3("invalid value for enum variant '", variant.text.as_str(), "': ");
                let t = err.description();
                let mut d = self.error_at(cat2(head.as_str(), t.as_str()), variant.span);
                err.related(&mut d);
                d
            },
            TyError::InvalidSubrangeType { value, ty_name } => {
                let mut d = self.error_at(cat3("invalid subrange type '", ty_name.as_str(), "'"), value.name_span);
                d.with_note(String::from_str("only numeric integer types are allowed for SUBRANGE"));
                d
            },
            TyError::InvalidSubrangeStart { expr, err } => {
                let head = String::from_str("invalid start value for subrange: ");
                let t = err.description();
                let mut d = self.error_at(cat2(head.as_str(), t.as_str()), expr.span);
                err.related(&mut d);
                d
            },
            TyError::InvalidSubrangeEnd { expr, err } => {
                let head = String::from_str("invalid end value for subrange: ");
                let t = err.description();
                let mut d = self.error_at(cat2(head.as_str(), t.as_str()), expr.span);
                err.related(&mut d);
                d
            },
        }
    }

}

/// Each kind of `TyError` is reported at the span of what it concerns, with
/// its message and severity, whatever names, spans and texts it holds; a
/// kind whose diagnostic is built directly also carries exactly the
/// related locations, notes, tags, source and quick fixes listed.
pub proof fn law_ty_error_rendering(this: TyError)
    ensures
        match this {
            TyError::Recursive { origin } => {
                let d = this.spec_to_diagnostic();
                &&& d.message == "'"@ + origin.name@ + "' is recursive"@
                &&& d.span == origin.name_span
                &&& d.severity == Some(Severity::Error)
                &&& d.related == Seq::<RelatedView>::empty()
                &&& d.notes == Seq::<Seq<char>>::empty()
                &&& d.tags == Seq::<Tag>::empty()
                &&& d.source == None::<Seq<char>>
                &&& d.fixes == Seq::<FixView>::empty()
            },
            TyError::ReferenceRecursive { origin, target } => {
                let d = this.spec_to_diagnostic();
                &&& d.message == "'"@ + origin.name@ + "' creates a recursion with '"@ + target.name@ + "'"@
                &&& d.span == origin.span
                &&& d.severity == Some(Severity::Error)
                &&& d.related == Seq::<RelatedView>::empty().push(RelatedView { message: "'"@ + target.name@ + "' is originally declared here"@, file: target.file, span: target.name_span }).push(RelatedView { message: "... and recurse at this location"@, file: origin.file, span: origin.name_span })
                &&& d.notes == Seq::<Seq<char>>::empty()
                &&& d.tags == Seq::<Tag>::empty()
                &&& d.source == None::<Seq<char>>
                &&& d.fixes == Seq::<FixView>::empty()
            },
            TyError::UnresolvedNamespace { ty, path, span } => {
                let d = this.spec_to_diagnostic();
                &&& d.message == "unknown item '"@ + path@ + "'"@
                &&& d.span == span
                &&& d.severity == Some(Severity::Error)
                &&& d.related == Seq::<RelatedView>::empty()
                &&& d.notes == Seq::<Seq<char>>::empty()
                &&& d.tags == Seq::<Tag>::empty()
                &&& d.source == None::<Seq<char>>
                &&& d.fixes == Seq::<FixView>::empty()
            },
            TyError::InvalidArrayLowerValue { value } => {
                let d = this.spec_to_diagnostic();
                &&& d.message == "Invalid lower bound value for ARRAY"@
                &&& d.span == value.span
                &&& d.severity == Some(Severity::Error)
                &&& d.related == Seq::<RelatedView>::empty()
                &&& d.notes == Seq::<Seq<char>>::empty()
                &&& d.tags == Seq::<Tag>::empty()
                &&& d.source == None::<Seq<char>>
                &&& d.fixes == Seq::<FixView>::empty()
            },
            TyError::InvalidArrayUpperValue { value } => {
                let d = this.spec_to_diagnostic();
                &&& d.message == "Invalid upper bound value for ARRAY"@
                &&& d.span == value.span
                &&& d.severity == Some(Severity::Error)
                &&& d.related == Seq::<RelatedView>::empty()
                &&& d.notes == Seq::<Seq<char>>::empty()
                &&& d.tags == Seq::<Tag>::empty()
                &&& d.source == None::<Seq<char>>
                &&& d.fixes == Seq::<FixView>::empty()
            },
            TyError::InferiorUpperBound { lower, upper, upper_expr } => {
                let d = this.spec_to_diagnostic();
                &&& d.message == "Upper bound value must be greater than lower bound value"@
                &&& d.span == upper_expr.span
                &&& d.severity == Some(Severity::Error)
                &&& d.related == Seq::<RelatedView>::empty()
                &&& d.notes == Seq::<Seq<char>>::empty()
                &&& d.tags == Seq::<Tag>::empty()
                &&& d.source == None::<Seq<char>>
                &&& d.fixes == Seq::<FixView>::empty()
            },
            TyError::InvalidEnumType { value, ty_name } => {
                let d = this.spec_to_diagnostic();
                &&& d.message == "invalid enum type '"@ + ty_name@ + "'"@
                &&& d.span == value.name_span
                &&& d.severity == Some(Severity::Error)
                &&& d.related == Seq::<RelatedView>::empty()
                &&& d.notes == Seq::<Seq<char>>::empty().push("only numeric integer types are allowed for ENUM"@)
                &&& d.tags == Seq::<Tag>::empty()
                &&& d.source == None::<Seq<char>>
                &&& d.fixes == Seq::<FixView>::empty()
            },
            TyError::InvalidEnumVariantValue { variant, err } => {
                let d = this.spec_to_diagnostic();
                &&& d.message == "invalid value for enum variant '"@ + variant.text@ + "': "@ + err.spec_description()
                &&& d.span == variant.span
                &&& d.severity == Some(Severity::Error)
            },
            TyError::InvalidSubrangeType { value, ty_name } => {
                let d = this.spec_to_diagnostic();
                &&& d.message == "invalid subrange type '"@ + ty_name@ + "'"@
                &&& d.span == value.name_span
                &&& d.severity == Some(Severity::Error)
                &&& d.related == Seq::<RelatedView>::empty()
                &&& d.notes == Seq::<Seq<char>>::empty().push("only numeric integer types are allowed for SUBRANGE"@)
                &&& d.tags == Seq::<Tag>::empty()
                &&& d.source == None::<Seq<char>>
                &&& d.fixes == Seq::<FixView>::empty()
            },
            TyError::InvalidSubrangeStart { expr, err } => {
                let d = this.spec_to_diagnostic();
                &&& d.message == "invalid start value for subrange: "@ + err.spec_description()
                &&& d.span == expr.span
                &&& d.severity == Some(Severity::Error)
            },
            TyError::InvalidSubrangeEnd { expr, err } => {
                let d = this.spec_to_diagnostic();
                &&& d.message == "invalid end value for subrange: "@ + err.spec_description()
                &&& d.span == expr.span
                &&& d.severity == Some(Severity::Error)
            },
        },
{
}

} // verus!
