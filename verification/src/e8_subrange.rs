//! E08xx: subrange errors.
use vstd::prelude::*;
use vstd::string::*;
use vstd::utf8::encode_utf8;
use crate::diag::{Diagnostic, DiagnosticView, Span};
use crate::text::{cat2, cat3, cat4, cat5, cat6, i128_to_string, signed_decimal};

use crate::diag::RelatedView;
use crate::diag::Severity;

use crate::diag::Tag;
use crate::diag::FixView;

verus! {

/// A type as a subrange mismatch names it: its name, and the bounds of its
/// subrange when it is one whose bounds are both known.
pub struct BoundedType {
    pub name: String,
    pub bounds: Option<(i64, i64)>,
}

/// The bounds of a subrange as written after its name: `(l..u)`.
pub open spec fn bounds_text(lower: i64, upper: i64) -> Seq<char> {
    "("@ + signed_decimal(lower as int) + ".."@ + signed_decimal(upper as int) + ")"@
}

/// Whether the UTF-8 encoding of `s` ends with that of `suffix`, as
/// `str::ends_with` decides.
pub open spec fn ends_with(s: Seq<char>, suffix: Seq<char>) -> bool {
    encode_utf8(suffix).is_suffix_of(encode_utf8(s))
}

fn text_ends_with(s: &str, suffix: &str) -> (r: bool)
    ensures
        r == ends_with(s@, suffix@),
{
    let x = s.as_bytes();
    let y = suffix.as_bytes();
    if y.len() > x.len() {
        return false;
    }
    let xl = x.len();
    let off = xl - y.len();
    let mut i: usize = 0;
    while i < y.len()
        invariant
            x@ == encode_utf8(s@),
            y@ == encode_utf8(suffix@),
            off + y@.len() == x@.len(),
            xl == x@.len(),
            i <= y@.len(),
            forall|k: int| 0 <= k < i ==> #[trigger] y@[k] == x@[off + k],
        decreases y@.len() - i,
    {
        if x[off + i] != y[i] {
            assert(x@.subrange(x@.len() - y@.len(), x@.len() as int)[i as int] != y@[i as int]);
            return false;
        }
        i = i + 1;
    }
    assert(x@.subrange(x@.len() - y@.len(), x@.len() as int) =~= y@);
    true
}

/// A type with its subrange spelled out, so that a mismatch between two
/// similarly named subranges says which constraint differs; a name that
/// already ends with its bounds is left as it is.
pub open spec fn spec_with_bounds(t: BoundedType) -> Seq<char> {
    match t.bounds {
        Some((l, u)) => if !ends_with(t.name@, bounds_text(l, u)) {
            t.name@ + " "@ + bounds_text(l, u)
        } else {
            t.name@
        },
        None => t.name@,
    }
}

/// The type's name with its subrange spelled out, as [`spec_with_bounds`] states.
pub fn with_bounds(t: &BoundedType) -> (r: String)
    ensures
        r@ == spec_with_bounds(*t),
{
    match t.bounds {
        Some((l, u)) => {
            let ls = i128_to_string(l as i128);
            let us = i128_to_string(u as i128);
            let b = cat5("(", ls.as_str(), "..", us.as_str(), ")");
            if !text_ends_with(t.name.as_str(), b.as_str()) {
                let mut r = cat2(t.name.as_str(), " ");
                r.append(b.as_str());
                r
            } else {
                t.name.clone()
            }
        },
        None => t.name.clone(),
    }
}

/// A subrange error.
pub enum SubRangeError {
    /// A subrange of a type that is not an integer type (named `typ`).
    InvalidSubrangeType { spec_span: Span, typ: String },
    /// A constant assigned to a subrange variable lies outside its bounds.
    ValueOutOfRange { expr: Span, value: i64, lower: i64, upper: i64 },
    /// A subrange bound that is not a constant.
    BoundNotConstant { value: Span },
    /// A by-reference binding whose two ends disagree about the subrange.
    ByRefSubrangeMismatch { span: Span, param: BoundedType, arg: BoundedType },
}

impl SubRangeError {
    pub open spec fn spec_code(&self) -> Seq<char> {
        match self {
            SubRangeError::InvalidSubrangeType { .. } => "E0801"@,
            SubRangeError::ValueOutOfRange { .. } => "E0802"@,
            SubRangeError::BoundNotConstant { .. } => "E0803"@,
            SubRangeError::ByRefSubrangeMismatch { .. } => "E0804"@,
        }
    }

    /// The stable code of the error.
    pub fn code(&self) -> (r: &'static str)
        ensures
            r@ == self.spec_code(),
    {
        match self {
            SubRangeError::InvalidSubrangeType { .. } => "E0801",
            SubRangeError::ValueOutOfRange { .. } => "E0802",
            SubRangeError::BoundNotConstant { .. } => "E0803",
            SubRangeError::ByRefSubrangeMismatch { .. } => "E0804",
        }
    }

    pub open spec fn spec_description(&self) -> Seq<char> {
        match self {
            SubRangeError::InvalidSubrangeType { .. } => "invalid subrange type"@,
            SubRangeError::ValueOutOfRange { .. } => "value outside subrange"@,
            SubRangeError::BoundNotConstant { .. } => "invalid subrange bound"@,
            SubRangeError::ByRefSubrangeMismatch { .. } => "subrange mismatch across a reference"@,
        }
    }

    /// The short description of the error's kind.
    pub fn description(&self) -> (r: &'static str)
        ensures
            r@ == self.spec_description(),
    {
        match self {
            SubRangeError::InvalidSubrangeType { .. } => "invalid subrange type",
            SubRangeError::ValueOutOfRange { .. } => "value outside subrange",
            SubRangeError::BoundNotConstant { .. } => "invalid subrange bound",
            SubRangeError::ByRefSubrangeMismatch { .. } => "subrange mismatch across a reference",
        }
    }

    /// An error diagnostic of this error at `span`.
    pub open spec fn err(&self, message: Seq<char>, span: Span) -> DiagnosticView {
        DiagnosticView::error(message, self.spec_code(), self.spec_description(), span)
    }

    fn error_at(&self, message: String, span: Span) -> (d: Diagnostic)
        ensures
            d@ == self.err(message@, span),
    {
        Diagnostic::error(message, self.code(), self.description(), span)
    }

    /// The diagnostic this error renders to.
    pub open spec fn spec_to_diagnostic(&self) -> DiagnosticView {
        match self {
            SubRangeError::InvalidSubrangeType { spec_span, typ } =>
                self.err("Invalid subrange type '"@ + typ@ + "'"@, *spec_span)
                .note("only numeric integer types are allowed for SUBRANGE"@),
            SubRangeError::ValueOutOfRange { expr, value, lower, upper } =>
                self.err(
                    "value "@ + signed_decimal(*value as int) + " is outside the subrange "@ + signed_decimal(*lower as int) + ".."@
                        + signed_decimal(*upper as int),
                    *expr,
                ).note(
                    "the declared range only admits values from "@ + signed_decimal(*lower as int) + " to "@ + signed_decimal(
                        *upper as int,
                    ),
                ),
            SubRangeError::BoundNotConstant { value } =>
                self.err("a subrange bound must evaluate to a constant at compile time"@, *value),
            SubRangeError::ByRefSubrangeMismatch { span, param, arg } =>
                self.err(
                    "'"@ + spec_with_bounds(*arg) + "' binds by reference to '"@ + spec_with_bounds(*param)
                        + "': the subrange must match exactly"@,
                    *span,
                ),
        }
    }

    /// Renders the error as a diagnostic.
    #[verifier::rlimit(60)]
    pub fn to_diagnostic(&self) -> (d: Diagnostic)
        ensures
            d@ == self.spec_to_diagnostic(),
    {
        match self {
            SubRangeError::InvalidSubrangeType { spec_span, typ } => {
                let mut d = self.error_at(cat3("Invalid subrange type '", typ.as_str(), "'"), *spec_span);
                d.with_note(String::from_str("only numeric integer types are allowed for SUBRANGE"));
                d
            },
            SubRangeError::ValueOutOfRange { expr, value, lower, upper } => {
                let v = i128_to_string(*value as i128);
                let l = i128_to_string(*lower as i128);
                let u = i128_to_string(*upper as i128);
                let mut d = self.error_at(
                    cat6("value ", v.as_str(), " is outside the subrange ", l.as_str(), "..", u.as_str()),
                    *expr,
                );
                d.with_note(cat4("the declared range only admits values from ", l.as_str(), " to ", u.as_str()));
                d
            },
            SubRangeError::BoundNotConstant { value } => {
                self.error_at(String::from_str("a subrange bound must evaluate to a constant at compile time"), *value)
            },
            SubRangeError::ByRefSubrangeMismatch { span, param, arg } => {
                let a = with_bounds(arg);
                let p = with_bounds(param);
                self.error_at(cat5("'", a.as_str(), "' binds by reference to '", p.as_str(), "': the subrange must match exactly"), *span)
            },
        }
    }

}

/// Each kind of `SubRangeError` is reported at the span of what it concerns, with
/// its message and severity, whatever names, spans and texts it holds; a
/// kind whose diagnostic is built directly also carries exactly the
/// related locations, notes, tags, source and quick fixes listed.
pub proof fn law_sub_range_error_rendering(this: SubRangeError)
    ensures
        match this {
            SubRangeError::InvalidSubrangeType { spec_span, typ } => {
                let d = this.spec_to_diagnostic();
                &&& d.message == "Invalid subrange type '"@ + typ@ + "'"@
                &&& d.span == spec_span
                &&& d.severity == Some(Severity::Error)
                &&& d.related == Seq::<RelatedView>::empty()
                &&& d.notes == Seq::<Seq<char>>::empty().push("only numeric integer types are allowed for SUBRANGE"@)
                &&& d.tags == Seq::<Tag>::empty()
                &&& d.source == None::<Seq<char>>
                &&& d.fixes == Seq::<FixView>::empty()
            },
            SubRangeError::ValueOutOfRange { expr, value, lower, upper } => {
                let d = this.spec_to_diagnostic();
                &&& d.message == "value "@ + signed_decimal(value as int) + " is outside the subrange "@ + signed_decimal(lower as int) + ".."@ + signed_decimal(upper as int)
                &&& d.span == expr
                &&& d.severity == Some(Severity::Error)
                &&& d.related == Seq::<RelatedView>::empty()
                &&& d.notes == Seq::<Seq<char>>::empty().push("the declared range only admits values from "@ + signed_decimal(lower as int) + " to "@ + signed_decimal( upper as int, ))
                &&& d.tags == Seq::<Tag>::empty()
                &&& d.source == None::<Seq<char>>
                &&& d.fixes == Seq::<FixView>::empty()
            },
            SubRangeError::BoundNotConstant { value } => {
                let d = this.spec_to_diagnostic();
                &&& d.message == "a subrange bound must evaluate to a constant at compile time"@
                &&& d.span == value
                &&& d.severity == Some(Severity::Error)
                &&& d.related == Seq::<RelatedView>::empty()
                &&& d.notes == Seq::<Seq<char>>::empty()
                &&& d.tags == Seq::<Tag>::empty()
                &&& d.source == None::<Seq<char>>
                &&& d.fixes == Seq::<FixView>::empty()
            },
            SubRangeError::ByRefSubrangeMismatch { span, param, arg } => {
                let d = this.spec_to_diagnostic();
                &&& d.message == "'"@ + spec_with_bounds(arg) + "' binds by reference to '"@ + spec_with_bounds(param) + "': the subrange must match exactly"@
                &&& d.span == span
                &&& d.severity == Some(Severity::Error)
                &&& d.related == Seq::<RelatedView>::empty()
                &&& d.notes == Seq::<Seq<char>>::empty()
                &&& d.tags == Seq::<Tag>::empty()
                &&& d.source == None::<Seq<char>>
                &&& d.fixes == Seq::<FixView>::empty()
            },
        },
{
}

} // verus!
