//! Mismatches found while checking expressions against the types they are
//! used at.
use vstd::prelude::*;
use vstd::string::*;
use crate::diag::{Diagnostic, DiagnosticView, Related, Span};
use crate::hir::{located, with_location, TypeRef};
use crate::literals::InferLiteralError;
use crate::text::{cat2, cat3, cat4, cat5, decimal, u64_to_string};
use crate::var_error::VarResolveError;

verus! {

/// An expression as resolved, held by the text it displays as and its span.
pub struct ResolvedExpr {
    pub text: String,
    pub span: Span,
}

impl View for ResolvedExpr {
    type V = Seq<char>;

    open spec fn view(&self) -> Seq<char> {
        self.text@
    }
}

impl ResolvedExpr {
    /// A copy of this expression.
    pub fn copy(&self) -> (r: ResolvedExpr)
        ensures
            r@ == self@,
            r.span == self.span,
    {
        ResolvedExpr { text: self.text.clone(), span: self.span }
    }
}

/// Two types that were expected to agree.
pub struct TypeMismatch {
    pub ty1: TypeRef,
    pub ty2: TypeRef,
}

/// An expression that does not fit where it is used, and why.
pub struct ExprMismatch {
    pub expr: ResolvedExpr,
    pub kind: ExprMismatchKind,
}

/// What kind of mismatch an expression has. Types are held with the name of
/// their declaration (`decl_name`, for an ENUM or a SUBRANGE).
pub enum ExprMismatchKind {
    Literal { ty: TypeRef, literal: InferLiteralError },
    TypeMismatch { err: TypeMismatch },
    ExprTypeMismatch { ty: TypeRef },
    VoidRhs { ty: TypeRef },
    /// An unresolved path, with the description the path layer gives it.
    UnresolvedPathError { description: String },
    UnresolvedVarError { err: VarResolveError },
    LhsIsNotABool { ty: TypeRef },
    InvalidEnumVariant { enum_ty: TypeRef, enum_name: String, variant: String },
    SubRangeValueOutOfBounds {
        expr: ResolvedExpr,
        subrange_ty: TypeRef,
        subrange_name: String,
        min: u64,
        max: u64,
        value: u64,
    },
}

pub open spec fn literal_description(l: InferLiteralError) -> Seq<char> {
    match l {
        InferLiteralError::Invalid_BOOL_Literal => "invalid BOOL literal"@,
        InferLiteralError::Invalid_UNSIGNED_8_BITS_Literal => "invalid USINT literal"@,
        InferLiteralError::Invalid_UNSIGNED_16_BITS_Literal => "invalid UINT literal"@,
        InferLiteralError::Invalid_UNSIGNED_32_BITS_Literal => "invalid UDINT literal"@,
        InferLiteralError::Invalid_UNSIGNED_64_BITS_Literal => "invalid ULINT literal"@,
        InferLiteralError::Invalid_SIGNED_8_BITS_Literal => "invalid SINT literal"@,
        InferLiteralError::Invalid_SIGNED_16_BITS_Literal => "invalid INT literal"@,
        InferLiteralError::Invalid_SIGNED_32_BITS_Literal => "invalid DINT literal"@,
        InferLiteralError::Invalid_SIGNED_64_BITS_Literal => "invalid LINT literal"@,
        InferLiteralError::Invalid_REAL_Literal => "invalid REAL literal"@,
        InferLiteralError::Invalid_LREAL_Literal => "invalid LREAL literal"@,
        InferLiteralError::Invalid_TIME_Literal => "invalid TIME literal"@,
        InferLiteralError::Invalid_LTIME_Literal => "invalid LTIME literal"@,
        InferLiteralError::Invalid_TOD_Literal => "invalid TOD literal"@,
        InferLiteralError::Invalid_LTOD_Literal => "invalid LTOD literal"@,
        InferLiteralError::Invalid_DATE_Literal => "invalid DATE literal"@,
        InferLiteralError::Invalid_LDATE_Literal => "invalid LDATE literal"@,
        InferLiteralError::Invalid_DT_Literal => "invalid DT literal"@,
        InferLiteralError::Invalid_LDT_Literal => "invalid LDT literal"@,
        InferLiteralError::Invalid_STRING_Literal => "invalid DSTRINGT literal"@,
        InferLiteralError::Invalid_WSTRING_Literal => "invalid WSTRING literal"@,
        InferLiteralError::TypeMismatch(e) => e@,
        InferLiteralError::DurationOverflow => "duration overflow"@,
        InferLiteralError::ExpectedNumber => "expected a number"@,
        InferLiteralError::InvalidNumber(e) => "invalid number: "@ + e@,
        InferLiteralError::Invalid_TIME_Components => "invalid TIME components"@,
        InferLiteralError::Invalid_TIME_Unit(e) => "invalid TIME unit: "@ + e@,
        InferLiteralError::Invalid_DATE_Format(e) => "invalid DATE format: "@ + e@,
        InferLiteralError::Invalid_LDATE_Format(e) => "invalid DATE format: "@ + e@,
        InferLiteralError::Invalid_TOD_Format(e) => "invalid TOD format: "@ + e@,
        InferLiteralError::Invalid_LTOD_Format(e) => "invalid LTOD format: "@ + e@,
        InferLiteralError::Invalid_DT_Format(e) => "invalid DT format: "@ + e@,
        InferLiteralError::Invalid_LDT_Format(e) => "invalid LDT format: "@ + e@,
        InferLiteralError::Incomplete_STRING_XX_Escape => "incomplete escape sequence in STRING literal"@,
        InferLiteralError::Invalid_STRING_Hex_Escape => "invalid hex escape sequence in STRING literal"@,
        InferLiteralError::Invalid_STRING_CHAR(e) => "invalid escape sequence in STRING literal: "@ + e@,
        InferLiteralError::Invalid_WSTRING_Hex_Escape(e) => "invalid escape sequence in STRING literal: "@ + e@,
        InferLiteralError::Invalid_WSTRING_Unicode_Scalar(e) => "invalid escape sequence in STRING literal: "@ + e@,
        InferLiteralError::Incomplete_WSTRING_XXXX_Escape => "invalid escape sequence in STRING literal"@,
    }
}

/// How an invalid literal is described in a mismatch.
pub fn literal_description_string(l: &InferLiteralError) -> (r: String)
    ensures
        r@ == literal_description(*l),
{
    match l {
        InferLiteralError::Invalid_BOOL_Literal => String::from_str("invalid BOOL literal"),
        InferLiteralError::Invalid_UNSIGNED_8_BITS_Literal => String::from_str("invalid USINT literal"),
        InferLiteralError::Invalid_UNSIGNED_16_BITS_Literal => String::from_str("invalid UINT literal"),
        InferLiteralError::Invalid_UNSIGNED_32_BITS_Literal => String::from_str("invalid UDINT literal"),
        InferLiteralError::Invalid_UNSIGNED_64_BITS_Literal => String::from_str("invalid ULINT literal"),
        InferLiteralError::Invalid_SIGNED_8_BITS_Literal => String::from_str("invalid SINT literal"),
        InferLiteralError::Invalid_SIGNED_16_BITS_Literal => String::from_str("invalid INT literal"),
        InferLiteralError::Invalid_SIGNED_32_BITS_Literal => String::from_str("invalid DINT literal"),
        InferLiteralError::Invalid_SIGNED_64_BITS_Literal => String::from_str("invalid LINT literal"),
        InferLiteralError::Invalid_REAL_Literal => String::from_str("invalid REAL literal"),
        InferLiteralError::Invalid_LREAL_Literal => String::from_str("invalid LREAL literal"),
        InferLiteralError::Invalid_TIME_Literal => String::from_str("invalid TIME literal"),
        InferLiteralError::Invalid_LTIME_Literal => String::from_str("invalid LTIME literal"),
        InferLiteralError::Invalid_TOD_Literal => String::from_str("invalid TOD literal"),
        InferLiteralError::Invalid_LTOD_Literal => String::from_str("invalid LTOD literal"),
        InferLiteralError::Invalid_DATE_Literal => String::from_str("invalid DATE literal"),
        InferLiteralError::Invalid_LDATE_Literal => String::from_str("invalid LDATE literal"),
        InferLiteralError::Invalid_DT_Literal => String::from_str("invalid DT literal"),
        InferLiteralError::Invalid_LDT_Literal => String::from_str("invalid LDT literal"),
        InferLiteralError::Invalid_STRING_Literal => String::from_str("invalid DSTRINGT literal"),
        InferLiteralError::Invalid_WSTRING_Literal => String::from_str("invalid WSTRING literal"),
        InferLiteralError::TypeMismatch(e) => e.clone(),
        InferLiteralError::DurationOverflow => String::from_str("duration overflow"),
        InferLiteralError::ExpectedNumber => String::from_str("expected a number"),
        InferLiteralError::InvalidNumber(e) => cat2("invalid number: ", e.as_str()),
        InferLiteralError::Invalid_TIME_Components => String::from_str("invalid TIME components"),
        InferLiteralError::Invalid_TIME_Unit(e) => cat2("invalid TIME unit: ", e.as_str()),
        InferLiteralError::Invalid_DATE_Format(e) => cat2("invalid DATE format: ", e.as_str()),
        InferLiteralError::Invalid_LDATE_Format(e) => cat2("invalid DATE format: ", e.as_str()),
        InferLiteralError::Invalid_TOD_Format(e) => cat2("invalid TOD format: ", e.as_str()),
        InferLiteralError::Invalid_LTOD_Format(e) => cat2("invalid LTOD format: ", e.as_str()),
        InferLiteralError::Invalid_DT_Format(e) => cat2("invalid DT format: ", e.as_str()),
        InferLiteralError::Invalid_LDT_Format(e) => cat2("invalid LDT format: ", e.as_str()),
        InferLiteralError::Incomplete_STRING_XX_Escape => String::from_str("incomplete escape sequence in STRING literal"),
        InferLiteralError::Invalid_STRING_Hex_Escape => String::from_str("invalid hex escape sequence in STRING literal"),
        InferLiteralError::Invalid_STRING_CHAR(e) => cat2("invalid escape sequence in STRING literal: ", e.as_str()),
        InferLiteralError::Invalid_WSTRING_Hex_Escape(e) => cat2("invalid escape sequence in STRING literal: ", e.as_str()),
        InferLiteralError::Invalid_WSTRING_Unicode_Scalar(e) => cat2("invalid escape sequence in STRING literal: ", e.as_str()),
        InferLiteralError::Incomplete_WSTRING_XXXX_Escape => String::from_str("invalid escape sequence in STRING literal"),
    }
}

impl ExprMismatch {
    /// A mismatch between two types.
    pub fn type_mismatch(expr: ResolvedExpr, type_error: TypeMismatch) -> (r: Self)
        ensures
            r == (ExprMismatch { expr, kind: ExprMismatchKind::TypeMismatch { err: type_error } }),
    {
        Self { expr, kind: ExprMismatchKind::TypeMismatch { err: type_error } }
    }

    /// A literal that is not valid at its type.
    pub fn literal(expr: ResolvedExpr, ty: TypeRef, literal: InferLiteralError) -> (r: Self)
        ensures
            r == (ExprMismatch { expr, kind: ExprMismatchKind::Literal { ty, literal } }),
    {
        Self { expr, kind: ExprMismatchKind::Literal { literal, ty } }
    }

    /// An expression that is not of the expected type.
    pub fn expr_mismatch(expr: ResolvedExpr, ty: TypeRef) -> (r: Self)
        ensures
            r == (ExprMismatch { expr, kind: ExprMismatchKind::ExprTypeMismatch { ty } }),
    {
        Self { expr, kind: ExprMismatchKind::ExprTypeMismatch { ty } }
    }

    /// A right-hand side that has no value.
    pub fn expr_void(expr: ResolvedExpr, ty: TypeRef) -> (r: Self)
        ensures
            r == (ExprMismatch { expr, kind: ExprMismatchKind::VoidRhs { ty } }),
    {
        Self { expr, kind: ExprMismatchKind::VoidRhs { ty } }
    }

    /// A path that does not resolve.
    pub fn unresolved_path(expr: ResolvedExpr, description: String) -> (r: Self)
        ensures
            r == (ExprMismatch { expr, kind: ExprMismatchKind::UnresolvedPathError { description } }),
    {
        Self { expr, kind: ExprMismatchKind::UnresolvedPathError { description } }
    }

    /// A variable that does not resolve.
    pub fn unresolved_var(expr: ResolvedExpr, err: VarResolveError) -> (r: Self)
        ensures
            r == (ExprMismatch { expr, kind: ExprMismatchKind::UnresolvedVarError { err } }),
    {
        Self { expr, kind: ExprMismatchKind::UnresolvedVarError { err } }
    }

    /// A left-hand side that is not a boolean.
    pub fn lhs_is_not_abool(expr: ResolvedExpr, ty: TypeRef) -> (r: Self)
        ensures
            r == (ExprMismatch { expr, kind: ExprMismatchKind::LhsIsNotABool { ty } }),
    {
        Self { expr, kind: ExprMismatchKind::LhsIsNotABool { ty } }
    }

    /// A variant the ENUM does not have.
    pub fn invalid_enum_variant(expr: ResolvedExpr, enum_ty: TypeRef, enum_name: String, variant: String) -> (r: Self)
        ensures
            r == (ExprMismatch { expr, kind: ExprMismatchKind::InvalidEnumVariant { enum_ty, enum_name, variant } }),
    {
        Self { expr, kind: ExprMismatchKind::InvalidEnumVariant { enum_ty, enum_name, variant } }
    }

    /// A value outside the bounds of a SUBRANGE; the mismatch and its kind
    /// both name the expression.
    pub fn subrange_value_out_of_bounds(
        expr: ResolvedExpr,
        subrange_ty: TypeRef,
        subrange_name: String,
        min: u64,
        max: u64,
        value: u64,
    ) -> (r: Self)
        ensures
            r.expr == expr,
            r.kind matches ExprMismatchKind::SubRangeValueOutOfBounds { expr: e, subrange_ty: t, subrange_name: n, min: lo, max: hi, value: v }
                && e@ == expr@ && e.span == expr.span && t == subrange_ty && n == subrange_name && lo == min && hi == max && v == value,
    {
        let inner = expr.copy();
        Self {
            expr,
            kind: ExprMismatchKind::SubRangeValueOutOfBounds { expr: inner, subrange_ty, subrange_name, min, max, value },
        }
    }

    pub open spec fn spec_description(&self) -> Seq<char> {
        match &self.kind {
            ExprMismatchKind::Literal { literal, .. } => literal_description(*literal),
            ExprMismatchKind::TypeMismatch { err } =>
                "type mismatch: expected "@ + err.ty1.name@ + ", found "@ + err.ty2.name@,
            ExprMismatchKind::ExprTypeMismatch { ty } =>
                "type mismatch: expected "@ + ty.name@ + ", got "@ + self.expr@,
            ExprMismatchKind::VoidRhs { .. } => "right-hand side is void"@,
            ExprMismatchKind::UnresolvedPathError { description } => description@,
            ExprMismatchKind::UnresolvedVarError { err } => err.spec_description(),
            ExprMismatchKind::LhsIsNotABool { .. } => "left-hand side is not a boolean"@,
            ExprMismatchKind::InvalidEnumVariant { enum_name, variant, .. } =>
                "ENUM '"@ + enum_name@ + "' has no variant named '"@ + variant@ + "'"@,
            ExprMismatchKind::SubRangeValueOutOfBounds { subrange_name, min, max, value, .. } =>
                "value "@ + decimal(*value as nat) + " is out of bounds for SUBRANGE "@ + subrange_name@
                    + " (expected between "@ + decimal(*min as nat) + " and "@ + decimal(*max as nat) + ")"@,
        }
    }

    /// What is wrong with the expression.
    pub fn description(&self) -> (r: String)
        ensures
            r@ == self.spec_description(),
    {
        match &self.kind {
            ExprMismatchKind::Literal { literal, .. } => literal_description_string(literal),
            ExprMismatchKind::TypeMismatch { err } =>
                cat4("type mismatch: expected ", err.ty1.name.as_str(), ", found ", err.ty2.name.as_str()),
            ExprMismatchKind::ExprTypeMismatch { ty } =>
                cat4("type mismatch: expected ", ty.name.as_str(), ", got ", self.expr.text.as_str()),
            ExprMismatchKind::VoidRhs { .. } => String::from_str("right-hand side is void"),
            ExprMismatchKind::UnresolvedPathError { description } => description.clone(),
            ExprMismatchKind::UnresolvedVarError { err } => err.description(),
            ExprMismatchKind::LhsIsNotABool { .. } => String::from_str("left-hand side is not a boolean"),
            ExprMismatchKind::InvalidEnumVariant { enum_name, variant, .. } =>
                cat5("ENUM '", enum_name.as_str(), "' has no variant named '", variant.as_str(), "'"),
            ExprMismatchKind::SubRangeValueOutOfBounds { subrange_name, min, max, value, .. } => {
                let v = u64_to_string(*value);
                let lo = u64_to_string(*min);
                let hi = u64_to_string(*max);
                cat5("value ", v.as_str(), " is out of bounds for SUBRANGE ", subrange_name.as_str(), " (expected between ")
                    .concat(lo.as_str()).concat(" and ").concat(hi.as_str()).concat(")")
            },
        }
    }

    /// `d` with the declarations of the types involved pointed at.
    pub open spec fn spec_related(&self, d: DiagnosticView) -> DiagnosticView {
        match &self.kind {
            ExprMismatchKind::TypeMismatch { err } => located(located(d, err.ty1@), err.ty2@),
            ExprMismatchKind::ExprTypeMismatch { ty } => located(d, ty@),
            ExprMismatchKind::Literal { ty, .. } => located(d, ty@),
            ExprMismatchKind::VoidRhs { ty } => located(d, ty@),
            ExprMismatchKind::LhsIsNotABool { ty } => located(d, ty@),
            ExprMismatchKind::InvalidEnumVariant { enum_ty, .. } => located(d, enum_ty@),
            ExprMismatchKind::SubRangeValueOutOfBounds { subrange_ty, .. } => located(d, subrange_ty@),
            _ => d,
        }
    }

    /// Points at the declarations of the types involved.
    pub fn related(&self, d: &mut Diagnostic)
        ensures
            final(d)@ == self.spec_related(old(d)@),
    {
        match &self.kind {
            ExprMismatchKind::TypeMismatch { err } => {
                with_location(d, &err.ty1);
                with_location(d, &err.ty2);
            },
            ExprMismatchKind::ExprTypeMismatch { ty } => with_location(d, ty),
            ExprMismatchKind::Literal { ty, .. } => with_location(d, ty),
            ExprMismatchKind::VoidRhs { ty } => with_location(d, ty),
            ExprMismatchKind::LhsIsNotABool { ty } => with_location(d, ty),
            ExprMismatchKind::InvalidEnumVariant { enum_ty, .. } => with_location(d, enum_ty),
            ExprMismatchKind::SubRangeValueOutOfBounds { subrange_ty, .. } => with_location(d, subrange_ty),
            _ => {},
        }
    }
}

impl TypeMismatch {
    pub open spec fn spec_description(&self) -> Seq<char> {
        "type mismatch: expected "@ + self.ty1.name@ + ", found "@ + self.ty2.name@
    }

    /// The two types that disagree.
    pub fn description(&self) -> (r: String)
        ensures
            r@ == self.spec_description(),
    {
        cat4("type mismatch: expected ", self.ty1.name.as_str(), ", found ", self.ty2.name.as_str())
    }

    /// Points at the declarations of both types.
    pub fn related(&self, d: &mut Diagnostic)
        ensures
            final(d)@ == located(located(old(d)@, self.ty1@), self.ty2@),
    {
        with_location(d, &self.ty1);
        with_location(d, &self.ty2);
    }
}

} // verus!
