//! E07xx: enumeration errors.
use vstd::prelude::*;
use vstd::string::*;
use crate::diag::{Diagnostic, DiagnosticView, Span};
use crate::hir::SpanIdent;
use crate::text::{cat2, cat3, cat4, cat5, cat6, cat7};

use crate::diag::RelatedView;
use crate::diag::Severity;

use crate::diag::Tag;
use crate::diag::FixView;

verus! {

/// An enumeration error.
pub enum EnumError {
    /// An ENUM of a type that is not an integer type (named `typ`).
    InvalidEnumType { value: Span, typ: String },
    /// A variant access on a type that is not an ENUM.
    NotAnEnum { expr: Span, item: String },
    /// A variant the ENUM does not have.
    EnumVariantNotFound { enum_name: String, variant_name: SpanIdent },
}

impl EnumError {
    pub open spec fn spec_code(&self) -> Seq<char> {
        match self {
            EnumError::InvalidEnumType { .. } => "E0701"@,
            EnumError::NotAnEnum { .. } => "E0702"@,
            EnumError::EnumVariantNotFound { .. } => "E0703"@,
        }
    }

    /// The stable code of the error.
    pub fn code(&self) -> (r: &'static str)
        ensures
            r@ == self.spec_code(),
    {
        match self {
            EnumError::InvalidEnumType { .. } => "E0701",
            EnumError::NotAnEnum { .. } => "E0702",
            EnumError::EnumVariantNotFound { .. } => "E0703",
        }
    }

    pub open spec fn spec_description(&self) -> Seq<char> {
        match self {
            EnumError::InvalidEnumType { .. } => "invalid enum type"@,
            EnumError::NotAnEnum { .. } => "invalid enum access"@,
            EnumError::EnumVariantNotFound { .. } => "invalid enum access"@,
        }
    }

    /// The short description of the error's kind.
    pub fn description(&self) -> (r: &'static str)
        ensures
            r@ == self.spec_description(),
    {
        match self {
            EnumError::InvalidEnumType { .. } => "invalid enum type",
            EnumError::NotAnEnum { .. } => "invalid enum access",
            EnumError::EnumVariantNotFound { .. } => "invalid enum access",
        }
    }

    /// An error diagnostic of this error at `span`.
    pub open spec fn err(&self, message: Seq<char>, span: Span) -> DiagnosticView {
        DiagnosticView::error(message, self.spec_code(), self.spec_description(), span)
    }

    fn error_at(&self, message: String, span: Span) -> (d: Diagnostic)
        ensures
            d@ == self.err(message@, span),
    {
        Diagnostic::error(message, self.code(), self.description(), span)
    }

    /// A diagnostic of this error at `span` that sets no severity.
    pub open spec fn unrated(&self, message: Seq<char>, span: Span) -> DiagnosticView {
        DiagnosticView::base(message, None, self.spec_code(), self.spec_description(), span)
    }

    fn unrated_at(&self, message: String, span: Span) -> (d: Diagnostic)
        ensures
            d@ == self.unrated(message@, span),
    {
        Diagnostic::new(message, None, self.code(), self.description(), span)
    }

    /// The diagnostic this error renders to.
    pub open spec fn spec_to_diagnostic(&self) -> DiagnosticView {
        match self {
            EnumError::InvalidEnumType { value, typ } =>
                self.err("I=invalid enum type '"@ + typ@ + "'"@, *value)
                .note("only numeric integer types are allowed for ENUM"@),
            EnumError::NotAnEnum { expr, item } =>
                self.unrated("'"@ + item@ + "' is not an ENUM type"@, *expr),
            EnumError::EnumVariantNotFound { enum_name, variant_name } =>
                self.unrated("ENUM has no variant named '"@ + variant_name.text@ + "'"@, variant_name.span),
        }
    }

    /// Renders the error as a diagnostic.
    #[verifier::rlimit(60)]
    pub fn to_diagnostic(&self) -> (d: Diagnostic)
        ensures
            d@ == self.spec_to_diagnostic(),
    {
        match self {
            EnumError::InvalidEnumType { value, typ } => {
                let mut d = self.error_at(cat3("I=invalid enum type '", typ.as_str(), "'"), *value);
                d.with_note(String::from_str("only numeric integer types are allowed for ENUM"));
                d
            },
            EnumError::NotAnEnum { expr, item } => {
                self.unrated_at(cat3("'", item.as_str(), "' is not an ENUM type"), *expr)
            },
            EnumError::EnumVariantNotFound { enum_name, variant_name } => {
                self.unrated_at(cat3("ENUM has no variant named '", variant_name.text.as_str(), "'"), variant_name.span)
            },
        }
    }

}

/// Each kind of `EnumError` is reported at the span of what it concerns, with
/// its message and severity, whatever names, spans and texts it holds; a
/// kind whose diagnostic is built directly also carries exactly the
/// related locations, notes, tags, source and quick fixes listed.
pub proof fn law_enum_error_rendering(this: EnumError)
    ensures
        match this {
            EnumError::InvalidEnumType { value, typ } => {
                let d = this.spec_to_diagnostic();
                &&& d.message == "I=invalid enum type '"@ + typ@ + "'"@
                &&& d.span == value
                &&& d.severity == Some(Severity::Error)
                &&& d.related == Seq::<RelatedView>::empty()
                &&& d.notes == Seq::<Seq<char>>::empty().push("only numeric integer types are allowed for ENUM"@)
                &&& d.tags == Seq::<Tag>::empty()
                &&& d.source == None::<Seq<char>>
                &&& d.fixes == Seq::<FixView>::empty()
            },
            EnumError::NotAnEnum { expr, item } => {
                let d = this.spec_to_diagnostic();
                &&& d.message == "'"@ + item@ + "' is not an ENUM type"@
                &&& d.span == expr
                &&& d.severity == None::<Severity>
                &&& d.related == Seq::<RelatedView>::empty()
                &&& d.notes == Seq::<Seq<char>>::empty()
                &&& d.tags == Seq::<Tag>::empty()
                &&& d.source == None::<Seq<char>>
                &&& d.fixes == Seq::<FixView>::empty()
            },
            EnumError::EnumVariantNotFound { enum_name, variant_name } => {
                let d = this.spec_to_diagnostic();
                &&& d.message == "ENUM has no variant named '"@ + variant_name.text@ + "'"@
                &&& d.span == variant_name.span
                &&& d.severity == None::<Severity>
                &&& d.related == Seq::<RelatedView>::empty()
                &&& d.notes == Seq::<Seq<char>>::empty()
                &&& d.tags == Seq::<Tag>::empty()
                &&& d.source == None::<Seq<char>>
                &&& d.fixes == Seq::<FixView>::empty()
            },
        },
{
}

} // verus!
