//! The source text that a span of a file covers, and the items a clause of
//! it lists.
use vstd::prelude::*;
use vstd::string::*;
use crate::diag::Span;
use crate::std_text::{byte_range_text, replaced, str_get, str_replace, str_trim, trimmed};

verus! {

/// The source text a span covers: the text between its byte offsets, or
/// nothing when they do not delimit a slice of the source.
pub open spec fn span_text(source: Seq<char>, span: Span) -> Seq<char> {
    match byte_range_text(source, span.start_byte as nat, span.end_byte as nat) {
        Some(t) => t,
        None => seq![],
    }
}

/// The source text `span` covers in `source`.
pub fn span_text_of(source: &str, span: Span) -> (r: &str)
    ensures
        r@ == span_text(source@, span),
{
    proof {
        reveal_strlit("");
    }
    match str_get(source, span.start_byte, span.end_byte) {
        Some(t) => t,
        None => "",
    }
}

/// What a clause lists: the text its span covers with every `keyword`
/// removed, trimmed.
pub open spec fn clause_items(source: Seq<char>, span: Span, keyword: Seq<char>) -> Seq<char> {
    trimmed(replaced(span_text(source, span), keyword, seq![]))
}

/// What the clause at `span` of `source` lists, without `keyword`.
pub fn clause_items_of(source: &str, span: Span, keyword: &str) -> (r: String)
    requires
        keyword@.len() > 0,
    ensures
        r@ == clause_items(source@, span, keyword@),
{
    proof {
        reveal_strlit("");
        assert(""@ =~= Seq::<char>::empty());
    }
    let t = span_text_of(source, span);
    let removed = str_replace(t, keyword, "");
    str_trim(removed.as_str())
}

} // verus!
