//! Recursion errors, as reported without a code.
use vstd::prelude::*;
use vstd::string::*;
use crate::diag::{Diagnostic, DiagnosticView, Related, RelatedView, Severity, Span};
use crate::hir::Named;
use crate::seqs::lemma_take_push;
use crate::text::{cat2, cat3, cat4, cat5, cat6, cat7};

use crate::diag::Tag;
use crate::diag::FixView;

verus! {

/// One "recurse at this location" per site.
pub open spec fn recursion_sites(cs: Seq<Named>) -> Seq<RelatedView> {
    cs.map_values(|c: Named| RelatedView { message: "recurse at this location"@, file: c.file, span: c.span })
}

fn recursion_sites_of(cs: &Vec<Named>) -> (r: Vec<Related>)
    ensures
        r@.map_values(|x: Related| x@) == recursion_sites(cs@),
{
    let mut r: Vec<Related> = Vec::new();
    let mut i: usize = 0;
    while i < cs.len()
        invariant
            i <= cs@.len(),
            r@.map_values(|x: Related| x@) == recursion_sites(cs@.take(i as int)),
        decreases cs@.len() - i,
    {
        let ghost prev = r@;
        let rel = Related::new(String::from_str("recurse at this location"), cs[i].file, cs[i].span);
        r.push(rel);
        proof {
            lemma_take_push(cs@, i as int);
            assert(r@.map_values(|x: Related| x@) =~= prev.map_values(|x: Related| x@).push(rel@));
            assert(recursion_sites(cs@.take(i + 1)) =~= recursion_sites(cs@.take(i as int)).push(rel@));
        }
        i = i + 1;
    }
    proof {
        assert(cs@.take(cs@.len() as int) =~= cs@);
    }
    r
}

/// The cycle, one `-> name` line per type.
pub open spec fn cycle_stack(pous: Seq<Named>) -> Seq<char>
    decreases pous.len(),
{
    if pous.len() == 0 {
        seq![]
    } else {
        cycle_stack(pous.drop_last()) + "-> "@ + pous.last().name@ + "\n"@
    }
}

fn cycle_stack_of(pous: &Vec<Named>) -> (r: String)
    ensures
        r@ == cycle_stack(pous@),
{
    let mut r = String::new();
    let mut i: usize = 0;
    while i < pous.len()
        invariant
            i <= pous@.len(),
            r@ == cycle_stack(pous@.take(i as int)),
        decreases pous@.len() - i,
    {
        proof {
            lemma_take_push(pous@, i as int);
            assert(pous@.take(i + 1).drop_last() =~= pous@.take(i as int));
        }
        r.append("-> ");
        r.append(pous[i].name.as_str());
        r.append("\n");
        i = i + 1;
    }
    proof {
        assert(pous@.take(pous@.len() as int) =~= pous@);
    }
    r
}

/// A recursion error.
pub enum RecursionError {
    /// A type that contains itself; `callsite` is where, when known.
    DirectRecursion { pou: Named, callsite: Option<Named> },
    /// Types that contain each other: `pous` is the cycle and `callsite` where each recurses.
    MutualRecursion { pou: Named, pous: Vec<Named>, callsite: Vec<Named> },
}

impl RecursionError {
    /// An error diagnostic of this error at `span`, with no code.
    pub open spec fn err(&self, message: Seq<char>, span: Span) -> DiagnosticView {
        DiagnosticView::plain(message, Some(Severity::Error), span)
    }

    fn error_at(&self, message: String, span: Span) -> (d: Diagnostic)
        ensures
            d@ == self.err(message@, span),
    {
        Diagnostic::plain(message, Some(Severity::Error), span)
    }

    /// The diagnostic this error renders to.
    pub open spec fn spec_to_diagnostic(&self) -> DiagnosticView {
        match self {
            RecursionError::DirectRecursion { pou, callsite } =>
                {
                    let d = self.err("type '"@ + pou.name@ + "' is recursive (contains itself)"@, pou.name_span);
                    match callsite {
                        Some(cs) => d.rel("'"@ + pou.name@ + "' references itself here"@, cs.file, cs.span),
                        None => d,
                    }
                },
            RecursionError::MutualRecursion { pou, pous, callsite } =>
                {
                    let d = self.err("type '"@ + pou.name@ + "' is recursive"@, pou.name_span).rels(recursion_sites(callsite@));
                    if pous@.len() > 0 {
                        d.note("cycles goes\n"@ + cycle_stack(pous@) + "... and back to "@ + pou.name@)
                    } else {
                        d
                    }
                },
        }
    }

    /// Renders the error as a diagnostic.
    #[verifier::rlimit(60)]
    pub fn to_diagnostic(&self) -> (d: Diagnostic)
        ensures
            d@ == self.spec_to_diagnostic(),
    {
        match self {
            RecursionError::DirectRecursion { pou, callsite } => {
                let mut d = self.error_at(cat3("type '", pou.name.as_str(), "' is recursive (contains itself)"), pou.name_span);
                match callsite {
                    Some(cs) => d.with_related_at(cat3("'", pou.name.as_str(), "' references itself here"), cs.file, cs.span),
                    None => {},
                }
                d
            },
            RecursionError::MutualRecursion { pou, pous, callsite } => {
                let mut d = self.error_at(cat3("type '", pou.name.as_str(), "' is recursive"), pou.name_span);
                d.with_related_all(recursion_sites_of(callsite));
                if pous.len() > 0 {
                    let stack = cycle_stack_of(pous);
                    d.with_note(cat4("cycles goes\n", stack.as_str(), "... and back to ", pou.name.as_str()));
                }
                d
            },
        }
    }

}

/// Each kind of `RecursionError` is reported at the span of what it concerns, with
/// its message and severity, whatever names, spans and texts it holds; a
/// kind whose diagnostic is built directly also carries exactly the
/// related locations, notes, tags, source and quick fixes listed.
pub proof fn law_recursion_error_rendering(this: RecursionError)
    ensures
        match this {
            RecursionError::DirectRecursion { pou, callsite } => {
                let d = this.spec_to_diagnostic();
                &&& d.message == "type '"@ + pou.name@ + "' is recursive (contains itself)"@
                &&& d.span == pou.name_span
                &&& d.severity == Some(Severity::Error)
            },
            RecursionError::MutualRecursion { pou, pous, callsite } => {
                let d = this.spec_to_diagnostic();
                &&& d.message == "type '"@ + pou.name@ + "' is recursive"@
                &&& d.span == pou.name_span
                &&& d.severity == Some(Severity::Error)
            },
        },
{
}

} // verus!
