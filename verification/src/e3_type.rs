//! Type errors, as the earlier E03xx numbering reported them.
use vstd::prelude::*;
use vstd::string::*;
use crate::diag::{Diagnostic, DiagnosticView, FileId, Fix, FixView, Span};
use crate::e03_type::{AddOperatorKind, Adjust, Adjustment, CastSuggestion, InferSource, MultOperatorKind, adj_view};
use crate::hir::{located, with_location, Named, TypeRef, TypeRefView};
use crate::text::{cat2, cat3, cat4, cat5, cat6, decimal, usize_to_string, u64_to_string};

use crate::diag::RelatedView;
use crate::diag::Severity;

use crate::diag::Tag;

verus! {

/// A type error.
pub enum TypeError {
    NotAssignable {
        base_target: TypeRef,
        lhs: TypeRef,
        rhs: TypeRef,
        adjustment: Option<Adjustment>,
        expr: Span,
        cast: Option<CastSuggestion>,
    },
    NotComparable {
        base_target: TypeRef,
        lhs: TypeRef,
        rhs: TypeRef,
        adjustment: Option<Adjustment>,
        expr: Span,
        cast: Option<CastSuggestion>,
    },
    NotMultiplicable {
        base_target: TypeRef,
        operator: MultOperatorKind,
        lhs: TypeRef,
        rhs: TypeRef,
        adjustment: Option<Adjustment>,
        expr: Span,
        cast: Option<CastSuggestion>,
    },
    NotAddable {
        base_target: TypeRef,
        operator: AddOperatorKind,
        lhs: TypeRef,
        rhs: TypeRef,
        adjustment: Option<Adjustment>,
        expr: Span,
        cast: Option<CastSuggestion>,
    },
    NotPowerable {
        base_target: TypeRef,
        lhs: TypeRef,
        rhs: TypeRef,
        adjustment: Option<Adjustment>,
        expr: Span,
        cast: Option<CastSuggestion>,
    },
    NotABoolean { typ: TypeRef, expr: Span },
    Other { message: String, expr: Span },
    InferLiteralError {
        expr: Span,
        expr_text: String,
        source: Option<InferSource>,
        target: TypeRef,
        err: InferLiteralError,
    },
    NonVariadicFoldParameter { var: Named, call_site: Span },
    UnsupportedOperator { typ: TypeRef, operator: String, call_site: Span },
}

/// Why a literal cannot be given the type it is expected at.
#[allow(non_camel_case_types)]
pub enum InferLiteralError {
    TypeMismatch(String),
    Invalid_BOOL_Literal,
    Invalid_UNSIGNED_8_BITS_Literal,
    Invalid_UNSIGNED_16_BITS_Literal,
    Invalid_UNSIGNED_32_BITS_Literal,
    Invalid_UNSIGNED_64_BITS_Literal,
    Invalid_SIGNED_8_BITS_Literal,
    Invalid_SIGNED_16_BITS_Literal,
    Invalid_SIGNED_32_BITS_Literal,
    Invalid_SIGNED_64_BITS_Literal,
    Invalid_REAL_Literal,
    Invalid_LREAL_Literal,
    Invalid_TIME_Literal,
    Invalid_LTIME_Literal,
    Invalid_DATE_Literal,
    Invalid_LDATE_Literal,
    Invalid_TOD_Literal,
    Invalid_LTOD_Literal,
    Invalid_DT_Literal,
    Invalid_LDT_Literal,
    Invalid_STRING_Literal,
    Invalid_CHAR_Length(usize),
    Invalid_STRING_Length { max: u64, got: usize },
    ExpectedNumber,
    InvalidNumber(String),
    /// Internal overflow when accumulating duration components.
    DurationOverflow,
    /// The literal's encoding is outside the type's representable range;
    /// the bounds are IEC literals, shown verbatim.
    DurationOutOfRange { ty_name: String, min: String, max: String, above_max: bool },
    Invalid_TIME_Unit(String),
    Invalid_TIME_Components,
    Invalid_TOD_Format(String),
    Invalid_LTOD_Format(String),
    Invalid_DATE_Format(String),
    Invalid_LDATE_Format(String),
    Invalid_DT_Format(String),
    Invalid_LDT_Format(String),
    Incomplete_STRING_XX_Escape,
    Invalid_STRING_Hex_Escape,
    Invalid_STRING_CHAR(String),
}

impl InferLiteralError {
    pub open spec fn spec_to_string(&self) -> Seq<char> {
        match self {
            InferLiteralError::TypeMismatch(st) => st@,
            InferLiteralError::Invalid_BOOL_Literal => "invalid boolean literal"@,
            InferLiteralError::Invalid_UNSIGNED_8_BITS_Literal => "invalid USINT literal"@,
            InferLiteralError::Invalid_UNSIGNED_16_BITS_Literal => "invalid UINT literal"@,
            InferLiteralError::Invalid_UNSIGNED_32_BITS_Literal => "invalid UDINT literal"@,
            InferLiteralError::Invalid_UNSIGNED_64_BITS_Literal => "invalid ULINT literal"@,
            InferLiteralError::Invalid_SIGNED_8_BITS_Literal => "invalid SINT literal"@,
            InferLiteralError::Invalid_SIGNED_16_BITS_Literal => "invalid INT literal"@,
            InferLiteralError::Invalid_SIGNED_32_BITS_Literal => "invalid DINT literal"@,
            InferLiteralError::Invalid_SIGNED_64_BITS_Literal => "invalid LINT literal"@,
            InferLiteralError::Invalid_REAL_Literal => "invalid REAL literal"@,
            InferLiteralError::Invalid_LREAL_Literal => "invalid LREAL literal"@,
            InferLiteralError::Invalid_TIME_Literal => "invalid TIME literal"@,
            InferLiteralError::Invalid_LTIME_Literal => "invalid LTIME literal"@,
            InferLiteralError::Invalid_DATE_Literal => "invalid DATE literal"@,
            InferLiteralError::Invalid_LDATE_Literal => "invalid LDATE literal"@,
            InferLiteralError::Invalid_TOD_Literal => "invalid TOD literal"@,
            InferLiteralError::Invalid_LTOD_Literal => "invalid LTOD literal"@,
            InferLiteralError::Invalid_DT_Literal => "invalid DT literal"@,
            InferLiteralError::Invalid_LDT_Literal => "invalid LDT literal"@,
            InferLiteralError::Invalid_STRING_Literal => "invalid STRING literal"@,
            InferLiteralError::Invalid_CHAR_Length(len) =>
                "CHAR literal must be exactly 1 character, got "@ + decimal(*len as nat),
            InferLiteralError::Invalid_STRING_Length { max, got } =>
                "STRING literal exceeds maximum length of "@ + decimal(*max as nat) + ", got "@ + decimal(*got as nat),
            InferLiteralError::ExpectedNumber => "expected number"@,
            InferLiteralError::InvalidNumber(st) => st@,
            InferLiteralError::DurationOverflow => "duration overflow"@,
            InferLiteralError::DurationOutOfRange { ty_name, above_max, .. } =>
                if *above_max {
                    ty_name@ + " value exceeds the supported maximum"@
                } else {
                    ty_name@ + " value is below the supported minimum"@
                },
            InferLiteralError::Invalid_TIME_Unit(st) => st@,
            InferLiteralError::Invalid_TIME_Components => "invalid TIME components"@,
            InferLiteralError::Invalid_TOD_Format(st) => st@,
            InferLiteralError::Invalid_LTOD_Format(st) => st@,
            InferLiteralError::Invalid_DATE_Format(st) => st@,
            InferLiteralError::Invalid_LDATE_Format(st) => st@,
            InferLiteralError::Invalid_DT_Format(st) => st@,
            InferLiteralError::Invalid_LDT_Format(st) => st@,
            InferLiteralError::Incomplete_STRING_XX_Escape => "incomplete STRING XX escape sequence"@,
            InferLiteralError::Invalid_STRING_Hex_Escape => "invalid STRING hex escape sequence"@,
            InferLiteralError::Invalid_STRING_CHAR(st) => st@,
        }
    }

    /// The text the error displays as.
    pub fn to_string(&self) -> (r: String)
        ensures
            r@ == self.spec_to_string(),
    {
        let msg = match self {
            InferLiteralError::TypeMismatch(st) => return st.clone(),
            InferLiteralError::Invalid_BOOL_Literal => "invalid boolean literal",
            InferLiteralError::Invalid_UNSIGNED_8_BITS_Literal => "invalid USINT literal",
            InferLiteralError::Invalid_UNSIGNED_16_BITS_Literal => "invalid UINT literal",
            InferLiteralError::Invalid_UNSIGNED_32_BITS_Literal => "invalid UDINT literal",
            InferLiteralError::Invalid_UNSIGNED_64_BITS_Literal => "invalid ULINT literal",
            InferLiteralError::Invalid_SIGNED_8_BITS_Literal => "invalid SINT literal",
            InferLiteralError::Invalid_SIGNED_16_BITS_Literal => "invalid INT literal",
            InferLiteralError::Invalid_SIGNED_32_BITS_Literal => "invalid DINT literal",
            InferLiteralError::Invalid_SIGNED_64_BITS_Literal => "invalid LINT literal",
            InferLiteralError::Invalid_REAL_Literal => "invalid REAL literal",
            InferLiteralError::Invalid_LREAL_Literal => "invalid LREAL literal",
            InferLiteralError::Invalid_TIME_Literal => "invalid TIME literal",
            InferLiteralError::Invalid_LTIME_Literal => "invalid LTIME literal",
            InferLiteralError::Invalid_DATE_Literal => "invalid DATE literal",
            InferLiteralError::Invalid_LDATE_Literal => "invalid LDATE literal",
            InferLiteralError::Invalid_TOD_Literal => "invalid TOD literal",
            InferLiteralError::Invalid_LTOD_Literal => "invalid LTOD literal",
            InferLiteralError::Invalid_DT_Literal => "invalid DT literal",
            InferLiteralError::Invalid_LDT_Literal => "invalid LDT literal",
            InferLiteralError::Invalid_STRING_Literal => "invalid STRING literal",
            InferLiteralError::Invalid_CHAR_Length(len) => {
                let n = usize_to_string(*len);
                return cat2("CHAR literal must be exactly 1 character, got ", n.as_str());
            },
            InferLiteralError::Invalid_STRING_Length { max, got } => {
                let m = u64_to_string(*max);
                let g = usize_to_string(*got);
                return cat4("STRING literal exceeds maximum length of ", m.as_str(), ", got ", g.as_str());
            },
            InferLiteralError::ExpectedNumber => "expected number",
            InferLiteralError::InvalidNumber(st) => return st.clone(),
            InferLiteralError::DurationOverflow => "duration overflow",
            InferLiteralError::DurationOutOfRange { ty_name, above_max, .. } => {
                return if *above_max {
                    cat2(ty_name.as_str(), " value exceeds the supported maximum")
                } else {
                    cat2(ty_name.as_str(), " value is below the supported minimum")
                };
            },
            InferLiteralError::Invalid_TIME_Unit(st) => return st.clone(),
            InferLiteralError::Invalid_TIME_Components => "invalid TIME components",
            InferLiteralError::Invalid_TOD_Format(st) => return st.clone(),
            InferLiteralError::Invalid_LTOD_Format(st) => return st.clone(),
            InferLiteralError::Invalid_DATE_Format(st) => return st.clone(),
            InferLiteralError::Invalid_LDATE_Format(st) => return st.clone(),
            InferLiteralError::Invalid_DT_Format(st) => return st.clone(),
            InferLiteralError::Invalid_LDT_Format(st) => return st.clone(),
            InferLiteralError::Incomplete_STRING_XX_Escape => "incomplete STRING XX escape sequence",
            InferLiteralError::Invalid_STRING_Hex_Escape => "invalid STRING hex escape sequence",
            InferLiteralError::Invalid_STRING_CHAR(st) => return st.clone(),
        };
        String::from_str(msg)
    }
}

/// The type a value was found at, written with the adjustment made to it.
pub open spec fn adjustment_text(value: TypeRefView, adj: Option<(Adjust, Seq<char>)>) -> Seq<char> {
    match adj {
        Some((Adjust::Ref, t)) => "REF TO "@ + t,
        Some((Adjust::Deref, t)) => "DEREF "@ + t,
        Some((Adjust::Index, t)) => "INDEX "@ + t,
        None => value.name,
    }
}

fn adjustment_to_string(value: &TypeRef, adj: &Option<Adjustment>) -> (r: String)
    ensures
        r@ == adjustment_text(value@, adj_view(*adj)),
{
    match adj {
        Some(a) => match a.kind {
            Adjust::Ref => cat2("REF TO ", a.target.name.as_str()),
            Adjust::Deref => cat2("DEREF ", a.target.name.as_str()),
            Adjust::Index => cat2("INDEX ", a.target.name.as_str()),
        },
        None => value.name.clone(),
    }
}

/// The cast `actual_TO_expected(value)`.
pub open spec fn cast_text(c: CastSuggestion) -> Seq<char> {
    c.actual@ + "_TO_"@ + c.expected@ + "("@ + c.value@ + ")"@
}

/// `d` with the explicit cast offered, when there is one: a related location
/// naming it and a preferred fix titled with it that changes no text.
pub open spec fn cast_suggested(d: DiagnosticView, cast: Option<CastSuggestion>) -> DiagnosticView {
    match cast {
        Some(c) => d.rel("consider explicitly casting with '"@ + cast_text(c) + "'"@, c.file, c.span).fix(FixView {
            title: "insert explicit cast '"@ + cast_text(c) + "'"@,
            edit: None,
            is_preferred: true,
        }),
        None => d,
    }
}

fn explicit_cast_suggestion(d: &mut Diagnostic, cast: &Option<CastSuggestion>)
    ensures
        final(d)@ == cast_suggested(old(d)@, *cast),
{
    match cast {
        Some(c) => {
            let text = cat5(c.actual.as_str(), "_TO_", c.expected.as_str(), "(", c.value.as_str()).concat(")");
            d.with_related_at(cat3("consider explicitly casting with '", text.as_str(), "'"), c.file, c.span);
            let title = cat3("insert explicit cast '", text.as_str(), "'");
            d.with_fix(Fix { title, edit: None, is_preferred: true });
        },
        None => {},
    }
}

impl TypeError {
    pub open spec fn spec_code(&self) -> Seq<char> {
        match self {
            TypeError::NotAssignable { .. } => "E0301"@,
            TypeError::NotComparable { .. } => "E0302"@,
            TypeError::NotAddable { .. } => "E0303"@,
            TypeError::NotMultiplicable { .. } => "E0304"@,
            TypeError::NotPowerable { .. } => "E0305"@,
            TypeError::NotABoolean { .. } => "E0306"@,
            TypeError::InferLiteralError { .. } => "E0309"@,
            TypeError::NonVariadicFoldParameter { .. } => "E0317"@,
            TypeError::UnsupportedOperator { .. } => "E0318"@,
            TypeError::Other { .. } => "E0350"@,
        }
    }

    /// The stable code of the error.
    pub fn code(&self) -> (r: &'static str)
        ensures
            r@ == self.spec_code(),
    {
        match self {
            TypeError::NotAssignable { .. } => "E0301",
            TypeError::NotComparable { .. } => "E0302",
            TypeError::NotAddable { .. } => "E0303",
            TypeError::NotMultiplicable { .. } => "E0304",
            TypeError::NotPowerable { .. } => "E0305",
            TypeError::NotABoolean { .. } => "E0306",
            TypeError::InferLiteralError { .. } => "E0309",
            TypeError::NonVariadicFoldParameter { .. } => "E0317",
            TypeError::UnsupportedOperator { .. } => "E0318",
            TypeError::Other { .. } => "E0350",
        }
    }

    pub open spec fn spec_description(&self) -> Seq<char> {
        match self {
            TypeError::NotAssignable { .. } => "type mismatch"@,
            TypeError::NotComparable { .. } => "type mismatch"@,
            TypeError::NotAddable { .. } => "type mismatch"@,
            TypeError::NotMultiplicable { .. } => "type mismatch"@,
            TypeError::NotPowerable { .. } => "type mismatch"@,
            TypeError::NotABoolean { .. } => "type mismatch"@,
            TypeError::InferLiteralError { .. } => "invalid literal"@,
            TypeError::NonVariadicFoldParameter { .. } => "type mismatch"@,
            TypeError::UnsupportedOperator { .. } => "type mismatch"@,
            TypeError::Other { .. } => "type mismatch"@,
        }
    }

    /// The short description of the error's kind.
    pub fn description(&self) -> (r: &'static str)
        ensures
            r@ == self.spec_description(),
    {
        match self {
            TypeError::NotAssignable { .. } => "type mismatch",
            TypeError::NotComparable { .. } => "type mismatch",
            TypeError::NotAddable { .. } => "type mismatch",
            TypeError::NotMultiplicable { .. } => "type mismatch",
            TypeError::NotPowerable { .. } => "type mismatch",
            TypeError::NotABoolean { .. } => "type mismatch",
            TypeError::InferLiteralError { .. } => "invalid literal",
            TypeError::NonVariadicFoldParameter { .. } => "type mismatch",
            TypeError::UnsupportedOperator { .. } => "type mismatch",
            TypeError::Other { .. } => "type mismatch",
        }
    }

    /// An error diagnostic of this error at `span`.
    pub open spec fn err(&self, message: Seq<char>, span: Span) -> DiagnosticView {
        DiagnosticView::error(message, self.spec_code(), self.spec_description(), span)
    }

    /// The message of an operation that cannot combine `lhs` with the adjusted `rhs`.
    pub open spec fn binary(verb: Seq<char>, lhs: TypeRef, rhs: TypeRef, adjustment: Option<Adjustment>) -> Seq<char> {
        "can not "@ + verb + " '"@ + lhs.name@ + "' with '"@ + adjustment_text(rhs@, adj_view(adjustment)) + "'"@
    }

    /// The diagnostic this error renders to.
    pub open spec fn spec_to_diagnostic(&self) -> DiagnosticView {
        match self {
            TypeError::NotAssignable { base_target, lhs, rhs, adjustment, expr, cast } => {
                let message = if lhs.is_void {
                    "'"@ + base_target.name@ + "' is void and can not be assigned"@
                } else {
                    "expected '"@ + lhs.name@ + "', got '"@ + adjustment_text(rhs@, adj_view(*adjustment)) + "'"@
                };
                cast_suggested(located(self.err(message, *expr), base_target@), *cast)
            },
            TypeError::NotComparable { base_target, lhs, rhs, adjustment, expr, cast } => cast_suggested(
                located(
                    self.err(
                        "can't compare '"@ + lhs.name@ + "' with '"@ + adjustment_text(rhs@, adj_view(*adjustment)) + "'"@,
                        *expr,
                    ),
                    base_target@,
                ),
                *cast,
            ),
            TypeError::NotAddable { base_target, operator, lhs, rhs, adjustment, expr, cast } => cast_suggested(
                located(
                    DiagnosticView::base(
                        Self::binary(match operator {
                            AddOperatorKind::Plus => "add"@,
                            AddOperatorKind::Minus => "subtract"@,
                        }, *lhs, *rhs, *adjustment),
                        None,
                        self.spec_code(),
                        self.spec_description(),
                        *expr,
                    ),
                    base_target@,
                ),
                *cast,
            ),
            TypeError::NotMultiplicable { base_target, operator, lhs, rhs, adjustment, expr, cast } => cast_suggested(
                located(
                    self.err(Self::binary(match operator {
                        MultOperatorKind::Mul => "multiply"@,
                        MultOperatorKind::Div => "divide"@,
                        MultOperatorKind::Mod => "modulus"@,
                    }, *lhs, *rhs, *adjustment), *expr),
                    base_target@,
                ),
                *cast,
            ),
            TypeError::NotPowerable { base_target, lhs, rhs, adjustment, expr, cast } => cast_suggested(
                located(self.err(Self::binary("power"@, *lhs, *rhs, *adjustment), *expr), base_target@),
                *cast,
            ),
            TypeError::NotABoolean { typ, expr } => self.err("expected a boolean, got "@ + typ.name@, *expr),
            TypeError::NonVariadicFoldParameter { var, call_site } =>
                self.err("variable '"@ + var.name@ + "' is not variadic"@, *call_site)
                    .note("... can only be used on VAR_INPUT variables that are declared variadic with the same operator (e.g: INT...)"@),
            TypeError::UnsupportedOperator { typ, operator, call_site } => located(
                self.err("operator '"@ + operator@ + "' cannot be applied to type '"@ + typ.name@ + "'"@, *call_site),
                typ@,
            ),
            TypeError::Other { message, expr } => self.err(message@, *expr),
            TypeError::InferLiteralError { expr, expr_text, source, target, err } => {
                let d = self.err(
                    "cannot infer '"@ + expr_text@ + "' to '"@ + target.name@ + "': "@ + err.spec_to_string(),
                    *expr,
                );
                let d = match source {
                    Some(InferSource::Type(t)) => located(d, t@),
                    Some(InferSource::CallSite { file, span }) =>
                        d.rel("'"@ + target.name@ + "' is expected due to this"@, *file, *span),
                    None => d,
                };
                let d = match err {
                    InferLiteralError::DurationOutOfRange { ty_name, min, max, .. } =>
                        d.note("valid range for "@ + ty_name@ + ": "@ + min@ + " to "@ + max@),
                    _ => d,
                };
                located(d, target@)
            },
        }
    }

    fn error_at(&self, message: String, span: Span) -> (d: Diagnostic)
        ensures
            d@ == self.err(message@, span),
    {
        Diagnostic::error(message, self.code(), self.description(), span)
    }

    fn binary_message(verb: &str, lhs: &TypeRef, rhs: &TypeRef, adjustment: &Option<Adjustment>) -> (r: String)
        ensures
            r@ == Self::binary(verb@, *lhs, *rhs, *adjustment),
    {
        let got = adjustment_to_string(rhs, adjustment);
        cat6("can not ", verb, " '", lhs.name.as_str(), "' with '", got.as_str()).concat("'")
    }

    /// Renders the error as a diagnostic.
    #[verifier::rlimit(40)]
    pub fn to_diagnostic(&self) -> (d: Diagnostic)
        ensures
            d@ == self.spec_to_diagnostic(),
    {
        match self {
            TypeError::NotAssignable { base_target, lhs, rhs, adjustment, expr, cast } => {
                let message = if lhs.is_void {
                    cat3("'", base_target.name.as_str(), "' is void and can not be assigned")
                } else {
                    let got = adjustment_to_string(rhs, adjustment);
                    cat5("expected '", lhs.name.as_str(), "', got '", got.as_str(), "'")
                };
                let mut d = self.error_at(message, *expr);
                with_location(&mut d, base_target);
                explicit_cast_suggestion(&mut d, cast);
                d
            },
            TypeError::NotComparable { base_target, lhs, rhs, adjustment, expr, cast } => {
                let got = adjustment_to_string(rhs, adjustment);
                let mut d = self.error_at(cat5("can't compare '", lhs.name.as_str(), "' with '", got.as_str(), "'"), *expr);
                with_location(&mut d, base_target);
                explicit_cast_suggestion(&mut d, cast);
                d
            },
            TypeError::NotAddable { base_target, operator, lhs, rhs, adjustment, expr, cast } => {
                let op = match operator {
                    AddOperatorKind::Plus => "add",
                    AddOperatorKind::Minus => "subtract",
                };
                let mut d = Diagnostic::new(
                    Self::binary_message(op, lhs, rhs, adjustment),
                    None,
                    self.code(),
                    self.description(),
                    *expr,
                );
                with_location(&mut d, base_target);
                explicit_cast_suggestion(&mut d, cast);
                d
            },
            TypeError::NotMultiplicable { base_target, operator, lhs, rhs, adjustment, expr, cast } => {
                let op = match operator {
                    MultOperatorKind::Mul => "multiply",
                    MultOperatorKind::Div => "divide",
                    MultOperatorKind::Mod => "modulus",
                };
                let mut d = self.error_at(Self::binary_message(op, lhs, rhs, adjustment), *expr);
                with_location(&mut d, base_target);
                explicit_cast_suggestion(&mut d, cast);
                d
            },
            TypeError::NotPowerable { base_target, lhs, rhs, adjustment, expr, cast } => {
                let mut d = self.error_at(Self::binary_message("power", lhs, rhs, adjustment), *expr);
                with_location(&mut d, base_target);
                explicit_cast_suggestion(&mut d, cast);
                d
            },
            TypeError::NotABoolean { typ, expr } =>
                self.error_at(cat2("expected a boolean, got ", typ.name.as_str()), *expr),
            TypeError::NonVariadicFoldParameter { var, call_site } => {
                let mut d = self.error_at(cat3("variable '", var.name.as_str(), "' is not variadic"), *call_site);
                d.with_note(String::from_str("... can only be used on VAR_INPUT variables that are declared variadic with the same operator (e.g: INT...)"));
                d
            },
            TypeError::UnsupportedOperator { typ, operator, call_site } => {
                let mut d = self.error_at(
                    cat5("operator '", operator.as_str(), "' cannot be applied to type '", typ.name.as_str(), "'"),
                    *call_site,
                );
                with_location(&mut d, typ);
                d
            },
            TypeError::Other { message, expr } => self.error_at(message.clone(), *expr),
            TypeError::InferLiteralError { expr, expr_text, source, target, err } => {
                let e = err.to_string();
                let mut d = self.error_at(
                    cat6("cannot infer '", expr_text.as_str(), "' to '", target.name.as_str(), "': ", e.as_str()),
                    *expr,
                );
                match source {
                    Some(InferSource::Type(t)) => with_location(&mut d, t),
                    Some(InferSource::CallSite { file, span }) => d.with_related_at(
                        cat3("'", target.name.as_str(), "' is expected due to this"),
                        *file,
                        *span,
                    ),
                    None => {},
                }
                match err {
                    InferLiteralError::DurationOutOfRange { ty_name, min, max, .. } => d.with_note(
                        cat6("valid range for ", ty_name.as_str(), ": ", min.as_str(), " to ", max.as_str()),
                    ),
                    _ => {},
                }
                with_location(&mut d, target);
                d
            },
        }
    }
}

/// Each kind of `TypeError` is reported at the span of what it concerns, with
/// its message and severity, whatever names, spans and texts it holds; a
/// kind whose diagnostic is built directly also carries exactly the
/// related locations, notes, tags, source and quick fixes listed.
/// Kinds not listed are stated by the contract of `to_diagnostic` alone.
pub proof fn law_type_error_rendering(this: TypeError)
    ensures
        match this {
            TypeError::NotComparable { base_target, lhs, rhs, adjustment, expr, cast } => {
                let d = this.spec_to_diagnostic();
                &&& d.message == "can't compare '"@ + lhs.name@ + "' with '"@ + adjustment_text(rhs@, adj_view(adjustment)) + "'"@
                &&& d.span == expr
                &&& d.severity == Some(Severity::Error)
            },
            TypeError::NotAddable { base_target, operator, lhs, rhs, adjustment, expr, cast } => {
                let d = this.spec_to_diagnostic();
                &&& d.message == TypeError::binary(match operator { AddOperatorKind::Plus => "add"@, AddOperatorKind::Minus => "subtract"@, }, lhs, rhs, adjustment)
                &&& d.span == expr
                &&& d.severity == None::<Severity>
            },
            TypeError::NotMultiplicable { base_target, operator, lhs, rhs, adjustment, expr, cast } => {
                let d = this.spec_to_diagnostic();
                &&& d.message == TypeError::binary(match operator { MultOperatorKind::Mul => "multiply"@, MultOperatorKind::Div => "divide"@, MultOperatorKind::Mod => "modulus"@, }, lhs, rhs, adjustment)
                &&& d.span == expr
                &&& d.severity == Some(Severity::Error)
            },
            TypeError::NotPowerable { base_target, lhs, rhs, adjustment, expr, cast } => {
                let d = this.spec_to_diagnostic();
                &&& d.message == TypeError::binary("power"@, lhs, rhs, adjustment)
                &&& d.span == expr
                &&& d.severity == Some(Severity::Error)
            },
            TypeError::NotABoolean { typ, expr } => {
                let d = this.spec_to_diagnostic();
                &&& d.message == "expected a boolean, got "@ + typ.name@
                &&& d.span == expr
                &&& d.severity == Some(Severity::Error)
                &&& d.related == Seq::<RelatedView>::empty()
                &&& d.notes == Seq::<Seq<char>>::empty()
                &&& d.tags == Seq::<Tag>::empty()
                &&& d.source == None::<Seq<char>>
                &&& d.fixes == Seq::<FixView>::empty()
            },
            TypeError::NonVariadicFoldParameter { var, call_site } => {
                let d = this.spec_to_diagnostic();
                &&& d.message == "variable '"@ + var.name@ + "' is not variadic"@
                &&& d.span == call_site
                &&& d.severity == Some(Severity::Error)
                &&& d.related == Seq::<RelatedView>::empty()
                &&& d.notes == Seq::<Seq<char>>::empty().push("... can only be used on VAR_INPUT variables that are declared variadic with the same operator (e.g: INT...)"@)
                &&& d.tags == Seq::<Tag>::empty()
                &&& d.source == None::<Seq<char>>
                &&& d.fixes == Seq::<FixView>::empty()
            },
            TypeError::UnsupportedOperator { typ, operator, call_site } => {
                let d = this.spec_to_diagnostic();
                &&& d.message == "operator '"@ + operator@ + "' cannot be applied to type '"@ + typ.name@ + "'"@
                &&& d.span == call_site
                &&& d.severity == Some(Severity::Error)
                &&& d.related == (Seq::<RelatedView>::empty() + match typ@.location { Some(r) => seq![r], None => Seq::<RelatedView>::empty() })
                &&& d.notes == Seq::<Seq<char>>::empty()
                &&& d.tags == Seq::<Tag>::empty()
                &&& d.source == None::<Seq<char>>
                &&& d.fixes == Seq::<FixView>::empty()
            },
            TypeError::Other { message, expr } => {
                let d = this.spec_to_diagnostic();
                &&& d.message == message@
                &&& d.span == expr
                &&& d.severity == Some(Severity::Error)
                &&& d.related == Seq::<RelatedView>::empty()
                &&& d.notes == Seq::<Seq<char>>::empty()
                &&& d.tags == Seq::<Tag>::empty()
                &&& d.source == None::<Seq<char>>
                &&& d.fixes == Seq::<FixView>::empty()
            },
            TypeError::InferLiteralError { expr, expr_text, source, target, err } => {
                let d = this.spec_to_diagnostic();
                &&& d.message == "cannot infer '"@ + expr_text@ + "' to '"@ + target.name@ + "': "@ + err.spec_to_string()
                &&& d.span == expr
                &&& d.severity == Some(Severity::Error)
            },
            _ => true,
        },
{
}

} // verus!
