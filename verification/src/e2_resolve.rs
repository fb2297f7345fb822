//! E02xx: resolution errors: names, calls, fields, configurations, pragmas
//! and variadic parameters that do not resolve or do not fit.
use vstd::prelude::*;
use vstd::string::*;
use crate::diag::{Diagnostic, DiagnosticView, FileId, Related, RelatedView, Severity, Span, Tag};
use crate::e8_subrange::{spec_with_bounds, with_bounds, BoundedType};
use crate::hir::{located, with_location, Named, SpanIdent, TypeRef, Var, VariableKind};
use crate::seqs::{lemma_filter_members, lemma_filter_multiset, lemma_filter_take, lemma_take_push, lemma_texts_push};
use crate::order::{
    insert_position, insert_sorted, lemma_insert_sorted, lemma_sort_by_members, lemma_sort_by_order, lemma_sorted_set_unique,
    lemma_sorted_unique,
    lemma_text_lt_order, sort_by, sorted_by, strict_order, text_less, text_lt, total_on,
};
use crate::text::{cat2, cat3, cat4, cat5, cat6, cat7, decimal, join, join_strings, texts, u128_to_string, usize_to_string};
use crate::utils::{candidate_list, write_candidate_list};

use crate::diag::FixView;

verus! {

/// Which parsed but inert CONFIGURATION construct was found.
#[derive(Clone, Copy, Debug, PartialEq, Eq, Structural)]
pub enum UnsupportedConfigKind {
    /// `PROGRAM P WITH T : Type (in := src)`: the connection list is read, then discarded.
    ProgramConnection,
    /// `PROGRAM P WITH T : Type (fb WITH other_task)`: a nested FB with its own task.
    FbTaskAssociation,
    /// `VAR_CONFIG PA.x : INT := 42;`: checked against the field, then not applied.
    InstanceInit,
}

impl UnsupportedConfigKind {
    pub open spec fn spec_message(self) -> Seq<char> {
        match self {
            UnsupportedConfigKind::ProgramConnection => "program connection lists are parsed but not wired up yet, so this has no effect"@,
            UnsupportedConfigKind::FbTaskAssociation => "associating a function block with its own task is not supported yet"@,
            UnsupportedConfigKind::InstanceInit => "VAR_CONFIG is checked but not applied yet, so this value never reaches the instance"@,
        }
    }

    /// Why the construct has no effect.
    pub fn message(self) -> (r: &'static str)
        ensures
            r@ == self.spec_message(),
    {
        match self {
            UnsupportedConfigKind::ProgramConnection => "program connection lists are parsed but not wired up yet, so this has no effect",
            UnsupportedConfigKind::FbTaskAssociation => "associating a function block with its own task is not supported yet",
            UnsupportedConfigKind::InstanceInit => "VAR_CONFIG is checked but not applied yet, so this value never reaches the instance",
        }
    }

    pub open spec fn spec_note(self) -> Seq<char> {
        match self {
            UnsupportedConfigKind::ProgramConnection => "assign it in the program body instead"@,
            UnsupportedConfigKind::FbTaskAssociation => "run the function block from its enclosing program's task"@,
            UnsupportedConfigKind::InstanceInit => "set the value in the program's own VAR declaration instead"@,
        }
    }

    /// What to write instead.
    pub fn note(self) -> (r: &'static str)
        ensures
            r@ == self.spec_note(),
    {
        match self {
            UnsupportedConfigKind::ProgramConnection => "assign it in the program body instead",
            UnsupportedConfigKind::FbTaskAssociation => "run the function block from its enclosing program's task",
            UnsupportedConfigKind::InstanceInit => "set the value in the program's own VAR declaration instead",
        }
    }

}

/// Why a TASK cannot be scheduled: only cyclic tasks with a literal, non-zero INTERVAL are.
#[derive(Clone, Copy, Debug, PartialEq, Eq, Structural)]
pub enum UnschedulableReason {
    /// `SINGLE := <event>`: event-driven tasks are not implemented.
    EventDriven,
    /// Neither SINGLE nor INTERVAL: nothing triggers the task.
    NoTrigger,
    /// INTERVAL names something whose value is not fixed at compile time.
    NonLiteralInterval,
    /// INTERVAL is zero, which describes no cadence at all.
    ZeroInterval,
}

impl UnschedulableReason {
    pub open spec fn spec_message(self) -> Seq<char> {
        match self {
            UnschedulableReason::EventDriven => "event-driven tasks (SINGLE) are not supported yet; only cyclic tasks run"@,
            UnschedulableReason::NoTrigger => "a TASK needs an INTERVAL to run its programs"@,
            UnschedulableReason::NonLiteralInterval => "INTERVAL must be a TIME literal or a CONSTANT global holding one"@,
            UnschedulableReason::ZeroInterval => "INTERVAL must be greater than zero"@,
        }
    }

    /// What is wrong with the task.
    pub fn message(self) -> (r: &'static str)
        ensures
            r@ == self.spec_message(),
    {
        match self {
            UnschedulableReason::EventDriven => "event-driven tasks (SINGLE) are not supported yet; only cyclic tasks run",
            UnschedulableReason::NoTrigger => "a TASK needs an INTERVAL to run its programs",
            UnschedulableReason::NonLiteralInterval => "INTERVAL must be a TIME literal or a CONSTANT global holding one",
            UnschedulableReason::ZeroInterval => "INTERVAL must be greater than zero",
        }
    }

    pub open spec fn spec_note(self) -> Option<Seq<char>> {
        match self {
            UnschedulableReason::EventDriven => Some("use a cyclic period, e.g. `INTERVAL := T#10ms`"@),
            UnschedulableReason::NoTrigger => Some("add `INTERVAL := T#10ms`"@),
            UnschedulableReason::NonLiteralInterval => Some("declare the global `VAR_GLOBAL CONSTANT`"@),
            UnschedulableReason::ZeroInterval => None,
        }
    }

    /// What to write instead, when there is something to suggest.
    pub fn note(self) -> (r: Option<&'static str>)
        ensures
            match r {
                Some(s) => self.spec_note() == Some(s@),
                None => self.spec_note() is None,
            },
    {
        match self {
            UnschedulableReason::EventDriven => Some("use a cyclic period, e.g. `INTERVAL := T#10ms`"),
            UnschedulableReason::NoTrigger => Some("add `INTERVAL := T#10ms`"),
            UnschedulableReason::NonLiteralInterval => Some("declare the global `VAR_GLOBAL CONSTANT`"),
            UnschedulableReason::ZeroInterval => None,
        }
    }

}

/// Which declaration section an `{extern}` FUNCTION cannot carry, and why.
#[derive(Clone, Copy, Debug, PartialEq, Eq, Structural)]
pub enum ExternForbiddenKind {
    /// `VAR_IN_OUT` hands the host a pointer into caller storage.
    InOut,
    /// A struct/array/STRING `VAR_OUTPUT` has no WASM result type to ride.
    AggregateOutput,
}

impl ExternForbiddenKind {
    pub open spec fn spec_section(self) -> Seq<char> {
        match self {
            ExternForbiddenKind::InOut => "VAR_IN_OUT"@,
            ExternForbiddenKind::AggregateOutput => "VAR_OUTPUT"@,
        }
    }

    /// The keyword of the section.
    pub fn section(self) -> (r: &'static str)
        ensures
            r@ == self.spec_section(),
    {
        match self {
            ExternForbiddenKind::InOut => "VAR_IN_OUT",
            ExternForbiddenKind::AggregateOutput => "VAR_OUTPUT",
        }
    }

    pub open spec fn spec_message(self) -> Seq<char> {
        match self {
            ExternForbiddenKind::InOut => "cannot cross a WASM import: an extern takes copies, not references"@,
            ExternForbiddenKind::AggregateOutput => "cannot be a WASM result: only scalar outputs cross an import"@,
        }
    }

    /// Why the section cannot cross the import.
    pub fn message(self) -> (r: &'static str)
        ensures
            r@ == self.spec_message(),
    {
        match self {
            ExternForbiddenKind::InOut => "cannot cross a WASM import: an extern takes copies, not references",
            ExternForbiddenKind::AggregateOutput => "cannot be a WASM result: only scalar outputs cross an import",
        }
    }

    pub open spec fn spec_note(self) -> Seq<char> {
        match self {
            ExternForbiddenKind::InOut => "an extern FUNCTION receives VAR_INPUT copies and returns scalar VAR_OUTPUT results (the return value last)"@,
            ExternForbiddenKind::AggregateOutput => "return scalars, or split the aggregate into scalar outputs"@,
        }
    }

    /// What an extern FUNCTION may declare instead.
    pub fn note(self) -> (r: &'static str)
        ensures
            r@ == self.spec_note(),
    {
        match self {
            ExternForbiddenKind::InOut => "an extern FUNCTION receives VAR_INPUT copies and returns scalar VAR_OUTPUT results (the return value last)",
            ExternForbiddenKind::AggregateOutput => "return scalars, or split the aggregate into scalar outputs",
        }
    }

}
/// What `{:?}` writes for a string: the string quoted, with the characters
/// that need it escaped.
pub uninterp spec fn debug_text(s: Seq<char>) -> Seq<char>;

/// Whether every character of `s` is an ASCII letter, digit or underscore,
/// as in an identifier; `{:?}` escapes none of them.
pub open spec fn plain_identifier(s: Seq<char>) -> bool {
    forall|i: int|
        0 <= i < s.len() ==> {
            let c = #[trigger] s[i];
            ('a' <= c && c <= 'z') || ('A' <= c && c <= 'Z') || ('0' <= c && c <= '9') || c == '_'
        }
}

/// `format!("{:?}", s)` on a string. Its result is named by [`debug_text`];
/// on a plain identifier it is the identifier between double quotes.
#[verifier::external_body]
pub(crate) fn debug_str(s: &str) -> (r: String)
    ensures
        r@ == debug_text(s@),
        plain_identifier(s@) ==> r@ == "\""@ + s@ + "\""@,
{
    format!("{:?}", s)
}

/// A POU that could be imported: its namespace and its name.
pub struct ImportCandidate {
    pub namespace: String,
    pub pou: String,
}

impl ImportCandidate {
    /// A copy of this candidate.
    pub fn copy(&self) -> (r: ImportCandidate)
        ensures
            r.namespace@ == self.namespace@,
            r.pou@ == self.pou@,
    {
        ImportCandidate { namespace: self.namespace.clone(), pou: self.pou.clone() }
    }
}

/// What a search for a name that was not found turned up: the note on
/// similarly named variables of the scope (when there are some), variables
/// reachable through THIS, POUs of the scope with a similar name, POUs that
/// would need a USING directive (namespace and name), and namespaces with a
/// similar path.
pub struct SearchResults {
    pub similar_variables_note: Option<String>,
    pub this_variables: Vec<String>,
    pub local_pous: Vec<String>,
    pub imported_pous: Vec<ImportCandidate>,
    pub namespaces: Vec<String>,
}

/// The (namespace, name) pairs of import candidates.
pub open spec fn import_pairs(v: Seq<ImportCandidate>) -> Seq<(Seq<char>, Seq<char>)> {
    v.map_values(|c: ImportCandidate| (c.namespace@, c.pou@))
}

/// The elements of `s` at their first occurrence, in order.
pub open spec fn first_occurrences<A>(s: Seq<A>) -> Seq<A>
    decreases s.len(),
{
    if s.len() == 0 {
        seq![]
    } else {
        let d = first_occurrences(s.drop_last());
        if d.contains(s.last()) {
            d
        } else {
            d.push(s.last())
        }
    }
}

/// The first six elements of `s` at most: one more than a suggestion lists,
/// so that it can tell that there are more.
pub open spec fn capped<A>(s: Seq<A>) -> Seq<A> {
    if s.len() <= 6 {
        s
    } else {
        s.take(6)
    }
}

/// The line suggesting to import a POU.
pub open spec fn import_line(p: (Seq<char>, Seq<char>)) -> Seq<char> {
    "'"@ + p.1 + "' via USING "@ + p.0
}

/// The import lines of the candidates.
pub open spec fn import_lines_of(s: Seq<(Seq<char>, Seq<char>)>) -> Seq<Seq<char>> {
    s.map_values(|p: (Seq<char>, Seq<char>)| import_line(p))
}

/// A one-note sequence when `names` is not empty, else none.
pub open spec fn section(names_len: nat, note: Seq<char>) -> Seq<Seq<char>> {
    if names_len == 0 {
        seq![]
    } else {
        seq![note]
    }
}

/// The notes a search result adds to the diagnostic of `name`.
pub open spec fn candidate_notes(name: Seq<char>, r: SearchResults) -> Seq<Seq<char>> {
    let similar = match r.similar_variables_note {
        Some(n) => seq![n@],
        None => seq![],
    };
    let this = texts(r.this_variables@);
    let local = texts(r.local_pous@);
    let imports = capped(first_occurrences(import_pairs(r.imported_pous@)));
    let ns = capped(texts(r.namespaces@));
    similar + section(
        this.len(),
        candidate_list(
            (if this.len() > 1 { "items"@ } else { "an item"@ }) + " available via THIS:\n"@,
            "- THIS."@,
            this,
        ),
    ) + section(
        local.len(),
        candidate_list(
            (if local.len() > 1 { "items"@ } else { "an item"@ }) + " with similar name available in scope:\n"@,
            "- "@,
            local,
        ),
    ) + section(
        imports.len(),
        candidate_list(
            if imports.len() == 1 {
                "an item with a similar name is available, but needs to be imported:\n"@
            } else {
                "items with similar names are available, but need to be imported:\n"@
            },
            "- "@,
            import_lines_of(imports),
        ),
    ) + section(
        ns.len(),
        candidate_list(
            "no namespace named '"@ + name + "' found, but the following namespace"@ + (if ns.len() > 1 {
                "s"@
            } else {
                ""@
            }) + " "@ + (if ns.len() > 1 { "have"@ } else { "has"@ }) + " similar path:\n"@,
            "- "@,
            ns,
        ),
    )
}

fn cap_texts(v: &Vec<String>) -> (r: Vec<String>)
    ensures
        texts(r@) == capped(texts(v@)),
{
    let n = if v.len() < 6 { v.len() } else { 6 };
    let mut r: Vec<String> = Vec::new();
    let mut i: usize = 0;
    while i < n
        invariant
            n <= v@.len(),
            n == (if v@.len() < 6 { v@.len() } else { 6 }),
            i <= n,
            texts(r@) == texts(v@).take(i as int),
        decreases n - i,
    {
        let ghost prev = r@;
        r.push(v[i].clone());
        proof {
            lemma_texts_push(prev, v@[i as int]);
            lemma_take_push(texts(v@), i as int);
        }
        i = i + 1;
    }
    assert(texts(v@).take(v@.len() as int) =~= texts(v@));
    r
}

fn unique_imports(v: &Vec<ImportCandidate>) -> (r: Vec<ImportCandidate>)
    ensures
        import_pairs(r@) == first_occurrences(import_pairs(v@)),
{
    let mut r: Vec<ImportCandidate> = Vec::new();
    let mut i: usize = 0;
    while i < v.len()
        invariant
            i <= v@.len(),
            import_pairs(r@) == first_occurrences(import_pairs(v@).take(i as int)),
        decreases v@.len() - i,
    {
        let c = &v[i];
        let mut found = false;
        let mut j: usize = 0;
        while j < r.len()
            invariant
                j <= r@.len(),
                found == exists|k: int| 0 <= k < j && import_pairs(r@)[k] == (c.namespace@, c.pou@),
            decreases r@.len() - j,
        {
            assert(import_pairs(r@)[j as int] == (r@[j as int].namespace@, r@[j as int].pou@));
            if r[j].namespace == c.namespace && r[j].pou == c.pou {
                found = true;
            }
            j = j + 1;
        }
        let ghost before = import_pairs(v@).take(i as int);
        assert(import_pairs(v@).take(i + 1).drop_last() =~= before);
        assert(import_pairs(v@).take(i + 1).last() == (c.namespace@, c.pou@));
        proof {
            if found {
                let k = choose|k: int| 0 <= k < r@.len() && import_pairs(r@)[k] == (c.namespace@, c.pou@);
                assert(import_pairs(r@).contains((c.namespace@, c.pou@)));
            } else {
                assert(!import_pairs(r@).contains((c.namespace@, c.pou@)));
            }
        }
        let ghost prev = r@;
        if !found {
            let k = c.copy();
            r.push(k);
            assert(import_pairs(r@) =~= import_pairs(prev).push((c.namespace@, c.pou@)));
        }
        i = i + 1;
    }
    assert(import_pairs(v@).take(v@.len() as int) =~= import_pairs(v@));
    r
}

fn import_lines(v: &Vec<ImportCandidate>) -> (r: Vec<String>)
    ensures
        texts(r@) == import_lines_of(capped(import_pairs(v@))),
{
    let n = if v.len() < 6 { v.len() } else { 6 };
    let ghost target = import_lines_of(capped(import_pairs(v@)));
    assert(target.len() == n);
    let mut r: Vec<String> = Vec::new();
    let mut i: usize = 0;
    while i < n
        invariant
            n <= v@.len(),
            n == (if v@.len() < 6 { v@.len() } else { 6 }),
            target == import_lines_of(capped(import_pairs(v@))),
            target.len() == n,
            i <= n,
            texts(r@) == target.take(i as int),
        decreases n - i,
    {
        let ghost prev = r@;
        let line = cat4("'", v[i].pou.as_str(), "' via USING ", v[i].namespace.as_str());
        r.push(line);
        assert(capped(import_pairs(v@))[i as int] == import_pairs(v@)[i as int]);
        assert(target[i as int] == import_line((v@[i as int].namespace@, v@[i as int].pou@)));
        proof {
            lemma_texts_push(prev, line);
            lemma_take_push(target, i as int);
        }
        i = i + 1;
    }
    assert(target.take(n as int) =~= target);
    r
}

/// The notes a search result adds to the diagnostic of `name`, as
/// [`candidate_notes`] states.
#[verifier::spinoff_prover]
pub fn list_candidates(name: &str, results: &SearchResults) -> (r: Vec<String>)
    ensures
        texts(r@) == candidate_notes(name@, *results),
{
    let mut r: Vec<String> = Vec::new();
    match &results.similar_variables_note {
        Some(n) => r.push(n.clone()),
        None => {},
    }
    let ghost r0 = texts(r@);
    let this_len = results.this_variables.len();
    if this_len > 0 {
        let header = cat2(if this_len > 1 { "items" } else { "an item" }, " available via THIS:\n");
        r.push(write_candidate_list(header.as_str(), "- THIS.", &results.this_variables));
    }
    let ghost r1 = texts(r@);
    let local_len = results.local_pous.len();
    if local_len > 0 {
        let header = cat2(if local_len > 1 { "items" } else { "an item" }, " with similar name available in scope:\n");
        r.push(write_candidate_list(header.as_str(), "- ", &results.local_pous));
    }
    let ghost r2 = texts(r@);
    let unique = unique_imports(&results.imported_pous);
    let lines = import_lines(&unique);
    if lines.len() > 0 {
        let header = if lines.len() == 1 {
            "an item with a similar name is available, but needs to be imported:\n"
        } else {
            "items with similar names are available, but need to be imported:\n"
        };
        r.push(write_candidate_list(header, "- ", &lines));
    }
    let ghost r3 = texts(r@);
    let ns = cap_texts(&results.namespaces);
    if ns.len() > 0 {
        let header = cat7(
            "no namespace named '",
            name,
            "' found, but the following namespace",
            if ns.len() > 1 { "s" } else { "" },
            " ",
            if ns.len() > 1 { "have" } else { "has" },
            " similar path:\n",
        );
        r.push(write_candidate_list(header.as_str(), "- ", &ns));
    }
    proof {
        reveal_strlit("");
        reveal_strlit("s");
        let imports = capped(first_occurrences(import_pairs(results.imported_pous@)));
        assert(imports.len() == lines@.len());
    }
    assert(texts(r@) =~= candidate_notes(name@, *results));
    r
}

/// A POU that a name could refer to: the namespace it is declared in, the
/// URL and id of its file, and its span.
pub struct ScopedPou {
    pub namespace: String,
    pub url: String,
    pub file: FileId,
    pub span: Span,
}

impl ScopedPou {
    /// A copy of this POU.
    pub fn copy(&self) -> (r: ScopedPou)
        ensures
            r.namespace@ == self.namespace@,
            r.url@ == self.url@,
            r.file == self.file,
            r.span == self.span,
    {
        ScopedPou { namespace: self.namespace.clone(), url: self.url.clone(), file: self.file, span: self.span }
    }
}

/// The namespaces of the candidates, in order.
pub open spec fn namespaces_of(cs: Seq<ScopedPou>) -> Seq<Seq<char>> {
    cs.map_values(|c: ScopedPou| c.namespace@)
}

/// Whether a text is `x`.
pub open spec fn equals(x: Seq<char>) -> spec_fn(Seq<char>) -> bool {
    |y: Seq<char>| y == x
}

/// How many times `x` occurs in `s`.
pub open spec fn count_of(s: Seq<Seq<char>>, x: Seq<char>) -> nat {
    s.filter(equals(x)).len()
}

/// Whether a namespace occurs more than once in `nss`.
pub open spec fn repeated_in(nss: Seq<Seq<char>>) -> spec_fn(Seq<char>) -> bool {
    |ns: Seq<char>| count_of(nss, ns) > 1
}

/// Whether a namespace occurs exactly once in `nss`.
pub open spec fn single_in(nss: Seq<Seq<char>>) -> spec_fn(Seq<char>) -> bool {
    |ns: Seq<char>| count_of(nss, ns) == 1
}

/// Whether a candidate is declared in `ns`.
pub open spec fn declared_in(ns: Seq<char>) -> spec_fn(ScopedPou) -> bool {
    |c: ScopedPou| c.namespace@ == ns
}

/// Names sort by their text.
pub open spec fn name_after() -> spec_fn(Seq<char>, Seq<char>) -> bool {
    |e: Seq<char>, x: Seq<char>| text_lt(x, e)
}

/// Declarations sort by file URL, then by where they start.
pub open spec fn decl_after() -> spec_fn(ScopedPou, ScopedPou) -> bool {
    |e: ScopedPou, x: ScopedPou| text_lt(x.url@, e.url@) || (x.url@ == e.url@ && x.span.start_byte < e.span.start_byte)
}

/// The namespaces that declare the name more than once, sorted.
pub open spec fn duplicated_namespaces(cs: Seq<ScopedPou>) -> Seq<Seq<char>> {
    let nss = namespaces_of(cs);
    sort_by(first_occurrences(nss).filter(repeated_in(nss)), name_after())
}

/// The namespaces that declare the name once, sorted.
pub open spec fn distinct_namespaces(cs: Seq<ScopedPou>) -> Seq<Seq<char>> {
    let nss = namespaces_of(cs);
    sort_by(first_occurrences(nss).filter(single_in(nss)), name_after())
}

/// The candidates declared in `ns`, in source order.
pub open spec fn in_namespace(cs: Seq<ScopedPou>, ns: Seq<char>) -> Seq<ScopedPou> {
    sort_by(cs.filter(declared_in(ns)), decl_after())
}

/// One "declared here" location per declaration.
pub open spec fn declared_here(name: Seq<char>, ds: Seq<ScopedPou>) -> Seq<RelatedView> {
    ds.map_values(|c: ScopedPou| RelatedView { message: "'"@ + name + "' declared here"@, file: c.file, span: c.span })
}

/// The declarations in each of `dups`, namespace after namespace.
pub open spec fn duplicate_locations(name: Seq<char>, cs: Seq<ScopedPou>, dups: Seq<Seq<char>>) -> Seq<RelatedView>
    decreases dups.len(),
{
    if dups.len() == 0 {
        seq![]
    } else {
        duplicate_locations(name, cs, dups.drop_last()) + declared_here(name, in_namespace(cs, dups.last()))
    }
}

/// The notes on an ambiguous name: one per namespace that declares it more
/// than once, then, when several namespaces declare it once each, how to
/// qualify it.
pub open spec fn ambiguity_notes(name: Seq<char>, cs: Seq<ScopedPou>) -> Seq<Seq<char>> {
    let distinct = distinct_namespaces(cs);
    repeated_notes(name, duplicated_namespaces(cs)) + (if distinct.len() > 1 {
        seq!["qualify the name to resolve the ambiguity: "@ + join(qualified(name, distinct), " or "@)]
    } else {
        seq![]
    })
}

/// One note per namespace that declares `name` more than once.
pub open spec fn repeated_notes(name: Seq<char>, dups: Seq<Seq<char>>) -> Seq<Seq<char>> {
    dups.map_values(|ns: Seq<char>| "'"@ + name + "' is declared multiple times in namespace '"@ + ns + "'"@)
}

/// `name` qualified by each namespace.
pub open spec fn qualified(name: Seq<char>, nss: Seq<Seq<char>>) -> Seq<Seq<char>> {
    nss.map_values(|ns: Seq<char>| ns + "."@ + name)
}

fn sort_texts(v: Vec<String>) -> (r: Vec<String>)
    ensures
        texts(r@) == sort_by(texts(v@), name_after()),
{
    let mut r: Vec<String> = Vec::new();
    let mut i: usize = 0;
    while i < v.len()
        invariant
            i <= v@.len(),
            texts(r@) == sort_by(texts(v@).take(i as int), name_after()),
        decreases v@.len() - i,
    {
        let x = &v[i];
        let mut p: usize = 0;
        while p < r.len() && !text_less(x.as_str(), r[p].as_str())
            invariant
                p <= r@.len(),
                forall|k: int| 0 <= k < p ==> !(name_after())(#[trigger] texts(r@)[k], x@),
            decreases r@.len() - p,
        {
            p = p + 1;
        }
        let ghost sorted = texts(r@);
        proof {
            lemma_insert_sorted(sorted, x@, name_after());
            let q = insert_position(sorted, x@, name_after());
            if q < p {
                assert(!(name_after())(sorted[q], x@));
            }
            if p < q {
                assert((name_after())(sorted[p as int], x@));
            }
        }
        r.insert(p, x.clone());
        assert(texts(v@).take(i + 1).drop_last() =~= texts(v@).take(i as int));
        assert(texts(r@) =~= sorted.take(p as int).push(x@) + sorted.skip(p as int));
        i = i + 1;
    }
    assert(texts(v@).take(v@.len() as int) =~= texts(v@));
    r
}

/// The views of declarations, for comparison.
pub open spec fn decl_views(v: Seq<ScopedPou>) -> Seq<(Seq<char>, Seq<char>, FileId, Span)> {
    v.map_values(|c: ScopedPou| (c.namespace@, c.url@, c.file, c.span))
}

fn sort_decls(v: Vec<ScopedPou>) -> (r: Vec<ScopedPou>)
    ensures
        decl_views(r@) == decl_views(sort_by(v@, decl_after())),
{
    let mut r: Vec<ScopedPou> = Vec::new();
    let mut i: usize = 0;
    while i < v.len()
        invariant
            i <= v@.len(),
            decl_views(r@) == decl_views(sort_by(v@.take(i as int), decl_after())),
        decreases v@.len() - i,
    {
        let x = &v[i];
        let mut p: usize = 0;
        while p < r.len() && !(text_less(x.url.as_str(), r[p].url.as_str()) || (x.url == r[p].url
            && x.span.start_byte < r[p].span.start_byte))
            invariant
                p <= r@.len(),
                forall|k: int| 0 <= k < p ==> !(decl_after())(#[trigger] r@[k], *x),
            decreases r@.len() - p,
        {
            p = p + 1;
        }
        let ghost sorted = sort_by(v@.take(i as int), decl_after());
        let ghost old_r = r@;
        proof {
            lemma_insert_sorted(sorted, *x, decl_after());
            let q = insert_position(sorted, *x, decl_after());
            assert(decl_views(r@) == decl_views(sorted));
            assert(decl_views(r@).len() == r@.len());
            assert(decl_views(sorted).len() == sorted.len());
            assert(r@.len() == sorted.len());
            if q < p {
                assert(!(decl_after())(r@[q], *x));
                assert(decl_views(r@)[q] == decl_views(sorted)[q]);
                assert(!(decl_after())(sorted[q], *x));
            }
            if p < q {
                assert(decl_views(r@)[p as int] == decl_views(sorted)[p as int]);
                assert((decl_after())(sorted[p as int], *x));
            }
            assert(q == p);
        }
        let xc = x.copy();
        r.insert(p, xc);
        proof {
            assert(r@ == old_r.insert(p as int, xc));
            assert(v@.take(i + 1).drop_last() =~= v@.take(i as int));
            assert(decl_views(old_r) == decl_views(sorted));
            assert(decl_views(r@) =~= decl_views(sorted.take(p as int).push(*x) + sorted.skip(p as int))) by {
                assert forall|k: int| 0 <= k < r@.len() implies #[trigger] decl_views(r@)[k] == decl_views(
                    sorted.take(p as int).push(*x) + sorted.skip(p as int),
                )[k] by {
                    if k < p {
                        assert(decl_views(old_r)[k] == decl_views(sorted)[k]);
                    } else if k > p {
                        assert(decl_views(old_r)[k - 1] == decl_views(sorted)[k - 1]);
                    }
                }
            }
        }
        i = i + 1;
    }
    assert(v@.take(v@.len() as int) =~= v@);
    r
}

fn unique_namespaces(cs: &Vec<ScopedPou>) -> (r: Vec<String>)
    ensures
        texts(r@) == first_occurrences(namespaces_of(cs@)),
{
    let mut r: Vec<String> = Vec::new();
    let mut i: usize = 0;
    while i < cs.len()
        invariant
            i <= cs@.len(),
            texts(r@) == first_occurrences(namespaces_of(cs@).take(i as int)),
        decreases cs@.len() - i,
    {
        let ns = &cs[i].namespace;
        let mut found = false;
        let mut j: usize = 0;
        while j < r.len()
            invariant
                j <= r@.len(),
                found == exists|k: int| 0 <= k < j && texts(r@)[k] == ns@,
            decreases r@.len() - j,
        {
            assert(texts(r@)[j as int] == r@[j as int]@);
            if r[j] == *ns {
                found = true;
            }
            j = j + 1;
        }
        assert(namespaces_of(cs@).take(i + 1).drop_last() =~= namespaces_of(cs@).take(i as int));
        assert(namespaces_of(cs@).take(i + 1).last() == ns@);
        proof {
            if found {
                let k = choose|k: int| 0 <= k < r@.len() && texts(r@)[k] == ns@;
                assert(texts(r@).contains(ns@));
            } else {
                assert(!texts(r@).contains(ns@));
            }
        }
        let ghost prev = r@;
        if !found {
            r.push(ns.clone());
            proof {
                lemma_texts_push(prev, cs@[i as int].namespace);
            }
        }
        i = i + 1;
    }
    assert(namespaces_of(cs@).take(cs@.len() as int) =~= namespaces_of(cs@));
    r
}

fn count_namespace(cs: &Vec<ScopedPou>, ns: &String) -> (r: usize)
    ensures
        r == count_of(namespaces_of(cs@), ns@),
{
    let mut n: usize = 0;
    let mut i: usize = 0;
    while i < cs.len()
        invariant
            i <= cs@.len(),
            n == count_of(namespaces_of(cs@).take(i as int), ns@),
            n <= i,
        decreases cs@.len() - i,
    {
        proof {
            lemma_filter_take(namespaces_of(cs@), i as int, equals(ns@));
        }
        assert(namespaces_of(cs@)[i as int] == cs@[i as int].namespace@);
        if cs[i].namespace == *ns {
            n = n + 1;
        }
        i = i + 1;
    }
    assert(namespaces_of(cs@).take(cs@.len() as int) =~= namespaces_of(cs@));
    n
}

fn in_namespace_of(cs: &Vec<ScopedPou>, ns: &String) -> (r: Vec<ScopedPou>)
    ensures
        decl_views(r@) == decl_views(in_namespace(cs@, ns@)),
{
    let mut picked: Vec<ScopedPou> = Vec::new();
    let mut i: usize = 0;
    while i < cs.len()
        invariant
            i <= cs@.len(),
            decl_views(picked@) == decl_views(cs@.take(i as int).filter(declared_in(ns@))),
        decreases cs@.len() - i,
    {
        proof {
            lemma_filter_take(cs@, i as int, declared_in(ns@));
        }
        let ghost prev = picked@;
        if cs[i].namespace == *ns {
            picked.push(cs[i].copy());
            assert(decl_views(picked@) =~= decl_views(prev).push(decl_views(seq![cs@[i as int]])[0]));
            assert(decl_views(cs@.take(i as int).filter(declared_in(ns@)).push(cs@[i as int])) =~= decl_views(
                cs@.take(i as int).filter(declared_in(ns@)),
            ).push(decl_views(seq![cs@[i as int]])[0]));
        }
        i = i + 1;
    }
    assert(cs@.take(cs@.len() as int) =~= cs@);
    let ghost f = cs@.filter(declared_in(ns@));
    let r = sort_decls(picked);
    proof {
        lemma_sort_by_views(picked@, f);
    }
    r
}

proof fn lemma_insert_views(sa: Seq<ScopedPou>, sb: Seq<ScopedPou>, x: ScopedPou, y: ScopedPou)
    requires
        decl_views(sa) == decl_views(sb),
        decl_views(seq![x]) == decl_views(seq![y]),
    ensures
        decl_views(insert_sorted(sa, x, decl_after())) == decl_views(insert_sorted(sb, y, decl_after())),
    decreases sa.len(),
{
    assert(decl_views(seq![x])[0] == decl_views(seq![y])[0]);
    assert(sa.len() == decl_views(sa).len());
    assert(sb.len() == decl_views(sb).len());
    if sa.len() == 0 {
        assert(decl_views(insert_sorted(sa, x, decl_after())) =~= decl_views(seq![x]));
        assert(decl_views(insert_sorted(sb, y, decl_after())) =~= decl_views(seq![y]));
    } else {
        assert(decl_views(sa)[0] == decl_views(sb)[0]);
        assert((decl_after())(sa[0], x) == (decl_after())(sb[0], y));
        if (decl_after())(sa[0], x) {
            assert(decl_views(seq![x] + sa) =~= decl_views(seq![x]) + decl_views(sa));
            assert(decl_views(seq![y] + sb) =~= decl_views(seq![y]) + decl_views(sb));
        } else {
            assert(decl_views(sa.drop_first()) =~= decl_views(sa).drop_first());
            assert(decl_views(sb.drop_first()) =~= decl_views(sb).drop_first());
            lemma_insert_views(sa.drop_first(), sb.drop_first(), x, y);
            let ra = insert_sorted(sa.drop_first(), x, decl_after());
            let rb = insert_sorted(sb.drop_first(), y, decl_after());
            assert(decl_views(seq![sa[0]] + ra) =~= decl_views(seq![sa[0]]) + decl_views(ra));
            assert(decl_views(seq![sb[0]] + rb) =~= decl_views(seq![sb[0]]) + decl_views(rb));
            assert(decl_views(seq![sa[0]]) =~= decl_views(seq![sb[0]]));
        }
    }
}

proof fn lemma_sort_by_views(a: Seq<ScopedPou>, b: Seq<ScopedPou>)
    requires
        decl_views(a) == decl_views(b),
    ensures
        decl_views(sort_by(a, decl_after())) == decl_views(sort_by(b, decl_after())),
    decreases a.len(),
{
    assert(a.len() == decl_views(a).len());
    assert(b.len() == decl_views(b).len());
    if a.len() > 0 {
        assert(decl_views(a.drop_last()) =~= decl_views(a).drop_last());
        assert(decl_views(b.drop_last()) =~= decl_views(b).drop_last());
        lemma_sort_by_views(a.drop_last(), b.drop_last());
        assert(decl_views(seq![a.last()]) =~= decl_views(seq![b.last()])) by {
            assert(decl_views(a)[a.len() - 1] == decl_views(b)[b.len() - 1]);
        }
        lemma_insert_views(sort_by(a.drop_last(), decl_after()), sort_by(b.drop_last(), decl_after()), a.last(), b.last());
    }
}

proof fn lemma_declared_here_views(name: Seq<char>, a: Seq<ScopedPou>, b: Seq<ScopedPou>)
    requires
        decl_views(a) == decl_views(b),
    ensures
        declared_here(name, a) == declared_here(name, b),
{
    assert(a.len() == decl_views(a).len());
    assert(b.len() == decl_views(b).len());
    assert forall|k: int| 0 <= k < a.len() implies #[trigger] declared_here(name, a)[k] == declared_here(name, b)[k] by {
        assert(decl_views(a)[k] == decl_views(b)[k]);
    }
    assert(declared_here(name, a) =~= declared_here(name, b));
}

/// The notes and the related locations of an ambiguous name, as
/// [`ambiguity_notes`] and [`duplicate_locations`] state.
pub(crate) fn ambiguity_of(name: &str, cs: &Vec<ScopedPou>) -> (r: (Vec<String>, Vec<Related>))
    ensures
        texts(r.0@) == ambiguity_notes(name@, cs@),
        r.1@.map_values(|x: Related| x@) == duplicate_locations(name@, cs@, duplicated_namespaces(cs@)),
{
    let ghost nss = namespaces_of(cs@);
    let groups = unique_namespaces(cs);
    let mut dups: Vec<String> = Vec::new();
    let mut singles: Vec<String> = Vec::new();
    let mut k: usize = 0;
    while k < groups.len()
        invariant
            nss == namespaces_of(cs@),
            k <= groups@.len(),
            texts(dups@) == texts(groups@).take(k as int).filter(repeated_in(nss)),
            texts(singles@) == texts(groups@).take(k as int).filter(single_in(nss)),
        decreases groups@.len() - k,
    {
        let c = count_namespace(cs, &groups[k]);
        proof {
            lemma_filter_take(texts(groups@), k as int, repeated_in(nss));
            lemma_filter_take(texts(groups@), k as int, single_in(nss));
        }
        assert(texts(groups@)[k as int] == groups@[k as int]@);
        let ghost pd = dups@;
        let ghost ps = singles@;
        if c > 1 {
            dups.push(groups[k].clone());
            proof {
                lemma_texts_push(pd, groups@[k as int]);
            }
        } else if c == 1 {
            singles.push(groups[k].clone());
            proof {
                lemma_texts_push(ps, groups@[k as int]);
            }
        }
        k = k + 1;
    }
    assert(texts(groups@).take(groups@.len() as int) =~= texts(groups@));
    let dups = sort_texts(dups);
    let singles = sort_texts(singles);
    let ghost dup_names = texts(dups@);
    assert(dup_names == duplicated_namespaces(cs@));
    let mut notes: Vec<String> = Vec::new();
    let mut rels: Vec<Related> = Vec::new();
    let mut k: usize = 0;
    while k < dups.len()
        invariant
            dup_names == texts(dups@),
            k <= dups@.len(),
            texts(notes@) == repeated_notes(name@, dup_names.take(k as int)),
            rels@.map_values(|x: Related| x@) == duplicate_locations(name@, cs@, dup_names.take(k as int)),
        decreases dups@.len() - k,
    {
        let ns = &dups[k];
        let ghost pn = notes@;
        let note = cat5("'", name, "' is declared multiple times in namespace '", ns.as_str(), "'");
        notes.push(note);
        proof {
            lemma_texts_push(pn, note);
            lemma_take_push(dup_names, k as int);
            assert(repeated_notes(name@, dup_names.take(k + 1)) =~= repeated_notes(name@, dup_names.take(k as int)).push(
                note@,
            ));
        }
        let ds = in_namespace_of(cs, ns);
        let ghost before = rels@.map_values(|x: Related| x@);
        let mut j: usize = 0;
        while j < ds.len()
            invariant
                j <= ds@.len(),
                rels@.map_values(|x: Related| x@) == before + declared_here(name@, ds@.take(j as int)),
            decreases ds@.len() - j,
        {
            let ghost pr = rels@;
            let rel = Related::new(cat3("'", name, "' declared here"), ds[j].file, ds[j].span);
            rels.push(rel);
            assert(rels@.map_values(|x: Related| x@) =~= pr.map_values(|x: Related| x@).push(rel@));
            proof {
                lemma_take_push(ds@, j as int);
            }
            assert(declared_here(name@, ds@.take(j + 1)) =~= declared_here(name@, ds@.take(j as int)).push(
                RelatedView { message: "'"@ + name@ + "' declared here"@, file: ds@[j as int].file, span: ds@[j as int].span },
            ));
            assert(rels@.map_values(|x: Related| x@) =~= before + declared_here(name@, ds@.take(j + 1)));
            j = j + 1;
        }
        assert(ds@.take(ds@.len() as int) =~= ds@);
        proof {
            lemma_declared_here_views(name@, ds@, in_namespace(cs@, ns@));
            assert(dup_names.take(k + 1).drop_last() =~= dup_names.take(k as int));
        }
        k = k + 1;
    }
    assert(dup_names.take(dups@.len() as int) =~= dup_names);
    if singles.len() > 1 {
        let mut quals: Vec<String> = Vec::new();
        let mut j: usize = 0;
        while j < singles.len()
            invariant
                j <= singles@.len(),
                texts(quals@) == qualified(name@, texts(singles@).take(j as int)),
            decreases singles@.len() - j,
        {
            let ghost pq = quals@;
            let q = cat3(singles[j].as_str(), ".", name);
            quals.push(q);
            proof {
                lemma_texts_push(pq, q);
                lemma_take_push(texts(singles@), j as int);
            }
            assert(qualified(name@, texts(singles@).take(j + 1)) =~= qualified(name@, texts(singles@).take(j as int)).push(
                q@,
            ));
            j = j + 1;
        }
        assert(texts(singles@).take(singles@.len() as int) =~= texts(singles@));
        let list = join_strings(&quals, " or ");
        notes.push(cat2("qualify the name to resolve the ambiguity: ", list.as_str()));
    }
    assert(texts(notes@) =~= ambiguity_notes(name@, cs@));
    (notes, rels)
}

/// An overload of a FUNCTION, with the names of its parameter types.
pub struct Overload {
    pub decl: Named,
    pub params: Vec<String>,
}

/// The views of related locations.
pub open spec fn related_views(rs: Seq<Related>) -> Seq<RelatedView> {
    rs.map_values(|r: Related| r@)
}

/// One "candidate overload" location per candidate.
pub open spec fn candidate_locations(cs: Seq<Named>) -> Seq<RelatedView> {
    cs.map_values(|c: Named| RelatedView { message: "candidate overload declared here"@, file: c.file, span: c.span })
}

/// One location per overload, with the parameter types it accepts.
pub open spec fn overload_locations(cs: Seq<Overload>) -> Seq<RelatedView> {
    cs.map_values(
        |c: Overload|
            RelatedView {
                message: "overload accepting ("@ + join(texts(c.params@), ", "@) + ")"@,
                file: c.decl.file,
                span: c.decl.span,
            },
    )
}

/// One "is declared here" location per other configuration.
pub open spec fn configuration_locations(os: Seq<Named>) -> Seq<RelatedView> {
    os.map_values(
        |o: Named| RelatedView { message: "'"@ + o.name@ + "' is declared here"@, file: o.file, span: o.name_span },
    )
}

/// The names of parameters, quoted.
pub open spec fn quoted_names(vs: Seq<Var>) -> Seq<Seq<char>> {
    vs.map_values(|v: Var| "'"@ + v.decl.name@ + "'"@)
}

/// One "declared here" location per parameter.
pub open spec fn parameter_locations(vs: Seq<Var>) -> Seq<RelatedView> {
    vs.map_values(
        |v: Var| RelatedView { message: "parameter '"@ + v.decl.name@ + "' declared here"@, file: v.decl.file, span: v.decl.span },
    )
}

/// Whether one of the parameters is declared in the section `kind`.
pub open spec fn any_in_section(vs: Seq<Var>, kind: VariableKind) -> bool {
    exists|i: int| 0 <= i < vs.len() && #[trigger] vs[i].kind == kind
}

pub(crate) fn candidate_locations_of(cs: &Vec<Named>) -> (r: Vec<Related>)
    ensures
        related_views(r@) == candidate_locations(cs@),
{
    let mut r: Vec<Related> = Vec::new();
    let mut i: usize = 0;
    while i < cs.len()
        invariant
            i <= cs@.len(),
            related_views(r@) == candidate_locations(cs@.take(i as int)),
        decreases cs@.len() - i,
    {
        let ghost prev = r@;
        let rel = Related::new(String::from_str("candidate overload declared here"), cs[i].file, cs[i].span);
        r.push(rel);
        proof {
            lemma_take_push(cs@, i as int);
            assert(related_views(r@) =~= related_views(prev).push(rel@));
            assert(candidate_locations(cs@.take(i + 1)) =~= candidate_locations(cs@.take(i as int)).push(rel@));
        }
        i = i + 1;
    }
    proof {
        assert(cs@.take(cs@.len() as int) =~= cs@);
    }
    r
}

pub(crate) fn overload_locations_of(cs: &Vec<Overload>) -> (r: Vec<Related>)
    ensures
        related_views(r@) == overload_locations(cs@),
{
    let mut r: Vec<Related> = Vec::new();
    let mut i: usize = 0;
    while i < cs.len()
        invariant
            i <= cs@.len(),
            related_views(r@) == overload_locations(cs@.take(i as int)),
        decreases cs@.len() - i,
    {
        let ghost prev = r@;
        let list = join_strings(&cs[i].params, ", ");
        let rel = Related::new(cat3("overload accepting (", list.as_str(), ")"), cs[i].decl.file, cs[i].decl.span);
        r.push(rel);
        proof {
            lemma_take_push(cs@, i as int);
            assert(related_views(r@) =~= related_views(prev).push(rel@));
            assert(overload_locations(cs@.take(i + 1)) =~= overload_locations(cs@.take(i as int)).push(rel@));
        }
        i = i + 1;
    }
    proof {
        assert(cs@.take(cs@.len() as int) =~= cs@);
    }
    r
}

fn configuration_locations_of(os: &Vec<Named>) -> (r: Vec<Related>)
    ensures
        related_views(r@) == configuration_locations(os@),
{
    let mut r: Vec<Related> = Vec::new();
    let mut i: usize = 0;
    while i < os.len()
        invariant
            i <= os@.len(),
            related_views(r@) == configuration_locations(os@.take(i as int)),
        decreases os@.len() - i,
    {
        let ghost prev = r@;
        let rel = Related::new(cat3("'", os[i].name.as_str(), "' is declared here"), os[i].file, os[i].name_span);
        r.push(rel);
        proof {
            lemma_take_push(os@, i as int);
            assert(related_views(r@) =~= related_views(prev).push(rel@));
            assert(configuration_locations(os@.take(i + 1)) =~= configuration_locations(os@.take(i as int)).push(rel@));
        }
        i = i + 1;
    }
    proof {
        assert(os@.take(os@.len() as int) =~= os@);
    }
    r
}

/// The quoted names, the declaration locations, and whether some parameter
/// is a VAR_INPUT and some a VAR_IN_OUT.
pub(crate) fn parameters_of(vs: &Vec<Var>) -> (r: (Vec<String>, Vec<Related>, bool, bool))
    ensures
        texts(r.0@) == quoted_names(vs@),
        related_views(r.1@) == parameter_locations(vs@),
        r.2 == any_in_section(vs@, VariableKind::Input),
        r.3 == any_in_section(vs@, VariableKind::InOut),
{
    let mut names: Vec<String> = Vec::new();
    let mut rels: Vec<Related> = Vec::new();
    let mut any_input = false;
    let mut any_in_out = false;
    let mut i: usize = 0;
    while i < vs.len()
        invariant
            i <= vs@.len(),
            texts(names@) == quoted_names(vs@.take(i as int)),
            related_views(rels@) == parameter_locations(vs@.take(i as int)),
            any_input == any_in_section(vs@.take(i as int), VariableKind::Input),
            any_in_out == any_in_section(vs@.take(i as int), VariableKind::InOut),
        decreases vs@.len() - i,
    {
        let v = &vs[i];
        let ghost pn = names@;
        let ghost pr = rels@;
        let name = cat3("'", v.decl.name.as_str(), "'");
        names.push(name);
        let rel = Related::new(cat3("parameter '", v.decl.name.as_str(), "' declared here"), v.decl.file, v.decl.span);
        rels.push(rel);
        if v.kind == VariableKind::Input {
            any_input = true;
        }
        if v.kind == VariableKind::InOut {
            any_in_out = true;
        }
        proof {
            lemma_take_push(vs@, i as int);
            lemma_texts_push(pn, name);
            assert(related_views(rels@) =~= related_views(pr).push(rel@));
            assert(quoted_names(vs@.take(i + 1)) =~= quoted_names(vs@.take(i as int)).push(name@));
            assert(parameter_locations(vs@.take(i + 1)) =~= parameter_locations(vs@.take(i as int)).push(rel@));
            let t = vs@.take(i + 1);
            assert(t[i as int] == vs@[i as int]);
            if any_in_section(vs@.take(i as int), VariableKind::Input) {
                let k = choose|k: int| 0 <= k < i && #[trigger] vs@.take(i as int)[k].kind == VariableKind::Input;
                assert(t[k] == vs@.take(i as int)[k]);
            }
            if any_in_section(vs@.take(i as int), VariableKind::InOut) {
                let k = choose|k: int| 0 <= k < i && #[trigger] vs@.take(i as int)[k].kind == VariableKind::InOut;
                assert(t[k] == vs@.take(i as int)[k]);
            }
            if any_in_section(t, VariableKind::Input) {
                let k = choose|k: int| 0 <= k < i + 1 && #[trigger] t[k].kind == VariableKind::Input;
                if k < i {
                    assert(vs@.take(i as int)[k] == t[k]);
                }
            }
            if any_in_section(t, VariableKind::InOut) {
                let k = choose|k: int| 0 <= k < i + 1 && #[trigger] t[k].kind == VariableKind::InOut;
                if k < i {
                    assert(vs@.take(i as int)[k] == t[k]);
                }
            }
        }
        i = i + 1;
    }
    proof {
        assert(vs@.take(vs@.len() as int) =~= vs@);
    }
    (names, rels, any_input, any_in_out)
}

/// `"s"` unless there is exactly one.
pub open spec fn plural(n: nat) -> Seq<char> {
    if n == 1 {
        ""@
    } else {
        "s"@
    }
}

pub(crate) fn copy_texts(v: &Vec<String>) -> (r: Vec<String>)
    ensures
        texts(r@) == texts(v@),
{
    let mut r: Vec<String> = Vec::new();
    let mut i: usize = 0;
    while i < v.len()
        invariant
            i <= v@.len(),
            texts(r@) == texts(v@).take(i as int),
        decreases v@.len() - i,
    {
        let ghost prev = r@;
        r.push(v[i].clone());
        proof {
            lemma_texts_push(prev, v@[i as int]);
            lemma_take_push(texts(v@), i as int);
        }
        i = i + 1;
    }
    proof {
        assert(texts(v@).take(v@.len() as int) =~= texts(v@));
    }
    r
}

/// Each element of `s` once, in the order it first appears: the result
/// holds exactly the elements of `s` and repeats none.
pub proof fn lemma_first_occurrences<A>(s: Seq<A>)
    ensures
        forall|x: A| #[trigger] first_occurrences(s).contains(x) <==> s.contains(x),
        first_occurrences(s).no_duplicates(),
    decreases s.len(),
{
    broadcast use vstd::seq_lib::group_seq_properties;

    if s.len() > 0 {
        let init = s.drop_last();
        lemma_first_occurrences(init);
        let d = first_occurrences(init);
        assert forall|x: A| #[trigger] s.contains(x) <==> init.contains(x) || x == s.last() by {
            if s.contains(x) {
                let i = choose|i: int| 0 <= i < s.len() && s[i] == x;
                if i < s.len() - 1 {
                    assert(init[i] == x);
                }
            }
            if init.contains(x) {
                let i = choose|i: int| 0 <= i < init.len() && init[i] == x;
                assert(s[i] == x);
            }
        }
        if !d.contains(s.last()) {
            let g = d.push(s.last());
            assert forall|i: int, j: int| 0 <= i < g.len() && 0 <= j < g.len() && i != j implies g[i] != g[j] by {
                if i < d.len() && j < d.len() {
                    assert(g[i] == d[i] && g[j] == d[j]);
                } else if i < d.len() {
                    assert(g[i] == d[i]);
                    assert(d.contains(d[i]));
                } else {
                    assert(g[j] == d[j]);
                    assert(d.contains(d[j]));
                }
            }
        }
    } else {
        assert(first_occurrences(s) =~= Seq::<A>::empty());
    }
}

/// An import is suggested once however many times the search found it: the
/// (namespace, name) pairs listed are distinct, at most six, each one found,
/// and when the search found at most six distinct pairs, all of them.
pub proof fn lemma_imports_listed_once(r: SearchResults)
    ensures
        capped(first_occurrences(import_pairs(r.imported_pous@))).no_duplicates(),
        capped(first_occurrences(import_pairs(r.imported_pous@))).len() <= 6,
        forall|p: (Seq<char>, Seq<char>)|
            #[trigger] capped(first_occurrences(import_pairs(r.imported_pous@))).contains(p) ==> import_pairs(
                r.imported_pous@,
            ).contains(p),
        first_occurrences(import_pairs(r.imported_pous@)).len() <= 6 ==> forall|p: (Seq<char>, Seq<char>)|
            #[trigger] import_pairs(r.imported_pous@).contains(p) ==> capped(
                first_occurrences(import_pairs(r.imported_pous@)),
            ).contains(p),
{
    let found = import_pairs(r.imported_pous@);
    let d = first_occurrences(found);
    lemma_first_occurrences(found);
    let listed = capped(d);
    assert forall|i: int, j: int| 0 <= i < listed.len() && 0 <= j < listed.len() && i != j implies listed[i]
        != listed[j] by {
        assert(listed[i] == d[i] && listed[j] == d[j]);
    }
    assert forall|p: (Seq<char>, Seq<char>)| #[trigger] listed.contains(p) implies found.contains(p) by {
        let i = choose|i: int| 0 <= i < listed.len() && listed[i] == p;
        assert(d[i] == p);
        assert(d.contains(p));
    }
}

/// A namespace occurs in `s` exactly when it is counted there.
pub proof fn lemma_count_of_contains(s: Seq<Seq<char>>, x: Seq<char>)
    ensures
        count_of(s, x) > 0 <==> s.contains(x),
{
    let f = s.filter(equals(x));
    lemma_filter_members(s, equals(x));
    assert(f.contains(x) <==> s.contains(x));
    if f.len() > 0 {
        assert(f.contains(f[0]));
    }
}

/// Declarations are ordered by a strict order.
proof fn lemma_decl_after_strict()
    ensures
        strict_order(decl_after()),
{
    lemma_text_lt_order();
    let t = |e: Seq<char>, x: Seq<char>| text_lt(x, e);
    assert forall|a: ScopedPou| !#[trigger] decl_after()(a, a) by {
        assert(!t(a.url@, a.url@));
    }
    assert forall|a: ScopedPou, b: ScopedPou, c: ScopedPou|
        #[trigger] decl_after()(a, b) && #[trigger] decl_after()(b, c) implies decl_after()(a, c) by {
        if text_lt(b.url@, a.url@) && text_lt(c.url@, b.url@) {
            assert(t(a.url@, b.url@) && t(b.url@, c.url@));
        }
    }
}

/// Of an ambiguous name, the namespaces that declare it more than once, and
/// those that declare it once, each come out once, sorted by name; the
/// declarations in a namespace come out by file URL, then by where they
/// start, each of them once.
pub proof fn lemma_ambiguity_sorted(cs: Seq<ScopedPou>, ns: Seq<char>)
    ensures
        sorted_by(duplicated_namespaces(cs), name_after()),
        duplicated_namespaces(cs).no_duplicates(),
        forall|x: Seq<char>| #[trigger] duplicated_namespaces(cs).contains(x) <==> count_of(namespaces_of(cs), x) > 1,
        sorted_by(distinct_namespaces(cs), name_after()),
        distinct_namespaces(cs).no_duplicates(),
        forall|x: Seq<char>| #[trigger] distinct_namespaces(cs).contains(x) <==> count_of(namespaces_of(cs), x) == 1,
        sorted_by(in_namespace(cs, ns), decl_after()),
        forall|c: ScopedPou| #[trigger] in_namespace(cs, ns).contains(c) <==> cs.contains(c) && c.namespace@ == ns,
{
    lemma_text_lt_order();
    assert(name_after() =~= |e: Seq<char>, x: Seq<char>| text_lt(x, e));
    lemma_decl_after_strict();
    let nss = namespaces_of(cs);
    let firsts = first_occurrences(nss);
    lemma_first_occurrences(nss);
    assert forall|x: Seq<char>| #[trigger] nss.contains(x) <==> count_of(nss, x) > 0 by {
        lemma_count_of_contains(nss, x);
    }
    lemma_filter_members(firsts, repeated_in(nss));
    lemma_filter_members(firsts, single_in(nss));
    lemma_sort_by_order(firsts.filter(repeated_in(nss)), name_after());
    lemma_sort_by_members(firsts.filter(repeated_in(nss)), name_after());
    lemma_sort_by_order(firsts.filter(single_in(nss)), name_after());
    lemma_sort_by_members(firsts.filter(single_in(nss)), name_after());
    assert forall|x: Seq<char>| #[trigger] duplicated_namespaces(cs).contains(x) <==> count_of(nss, x) > 1 by {
        assert(firsts.filter(repeated_in(nss)).contains(x) <==> firsts.contains(x) && repeated_in(nss)(x));
    }
    assert forall|x: Seq<char>| #[trigger] distinct_namespaces(cs).contains(x) <==> count_of(nss, x) == 1 by {
        assert(firsts.filter(single_in(nss)).contains(x) <==> firsts.contains(x) && single_in(nss)(x));
    }
    lemma_filter_members(cs, declared_in(ns));
    lemma_sort_by_order(cs.filter(declared_in(ns)), decl_after());
    lemma_sort_by_members(cs.filter(declared_in(ns)), decl_after());
}

/// Two lists of candidates in which every namespace occurs as many times
/// name the same namespaces as repeated, and the same as single.
proof fn lemma_namespace_groups_order_free(cs1: Seq<ScopedPou>, cs2: Seq<ScopedPou>)
    requires
        forall|ns: Seq<char>| #[trigger] count_of(namespaces_of(cs1), ns) == count_of(namespaces_of(cs2), ns),
    ensures
        duplicated_namespaces(cs1) == duplicated_namespaces(cs2),
        distinct_namespaces(cs1) == distinct_namespaces(cs2),
{
    lemma_text_lt_order();
    assert(name_after() =~= |e: Seq<char>, x: Seq<char>| text_lt(x, e));
    lemma_ambiguity_sorted(cs1, seq![]);
    lemma_ambiguity_sorted(cs2, seq![]);
    let d1 = duplicated_namespaces(cs1);
    let d2 = duplicated_namespaces(cs2);
    let s1 = distinct_namespaces(cs1);
    let s2 = distinct_namespaces(cs2);
    assert forall|x: Seq<char>| d1.contains(x) <==> d2.contains(x) by {
        assert(count_of(namespaces_of(cs1), x) == count_of(namespaces_of(cs2), x));
    }
    assert forall|x: Seq<char>| s1.contains(x) <==> s2.contains(x) by {
        assert(count_of(namespaces_of(cs1), x) == count_of(namespaces_of(cs2), x));
    }
    assert(total_on(d1, name_after()));
    assert(total_on(s1, name_after()));
    lemma_sorted_set_unique(d1, d2, name_after());
    lemma_sorted_set_unique(s1, s2, name_after());
}

/// The notes on an ambiguous name do not depend on the order in which the
/// candidates were found: two lists of candidates in which every namespace
/// occurs as many times give the same notes.
pub proof fn lemma_ambiguity_notes_order_free(name: Seq<char>, cs1: Seq<ScopedPou>, cs2: Seq<ScopedPou>)
    requires
        forall|ns: Seq<char>| #[trigger] count_of(namespaces_of(cs1), ns) == count_of(namespaces_of(cs2), ns),
    ensures
        ambiguity_notes(name, cs1) == ambiguity_notes(name, cs2),
{
    lemma_namespace_groups_order_free(cs1, cs2);
}

/// A namespace is counted among the candidates' namespaces as often as
/// candidates are declared in it.
proof fn lemma_count_of_declared(cs: Seq<ScopedPou>, ns: Seq<char>)
    ensures
        count_of(namespaces_of(cs), ns) == cs.filter(declared_in(ns)).len(),
    decreases cs.len(),
{
    if cs.len() == 0 {
        assert(namespaces_of(cs).filter(equals(ns)) =~= Seq::<Seq<char>>::empty());
        assert(cs.filter(declared_in(ns)) =~= Seq::<ScopedPou>::empty());
    } else {
        let init = cs.drop_last();
        lemma_count_of_declared(init, ns);
        assert(namespaces_of(cs) =~= namespaces_of(init).push(cs.last().namespace@));
        namespaces_of(init).lemma_filter_push(cs.last().namespace@, equals(ns));
        init.lemma_filter_push(cs.last(), declared_in(ns));
        assert(init.push(cs.last()) =~= cs);
    }
}

/// Whether no two different candidates of one namespace start at the same
/// place of the same file.
pub open spec fn distinct_places(cs: Seq<ScopedPou>) -> bool {
    forall|a: ScopedPou, b: ScopedPou|
        cs.contains(a) && cs.contains(b) && a != b && a.namespace@ == b.namespace@ ==> !(#[trigger] a.url@
            == #[trigger] b.url@ && a.span.start_byte == b.span.start_byte)
}

/// The declarations pointed at in a namespace do not depend on the order
/// in which the candidates were found.
proof fn lemma_in_namespace_order_free(cs1: Seq<ScopedPou>, cs2: Seq<ScopedPou>, ns: Seq<char>)
    requires
        cs1.to_multiset() == cs2.to_multiset(),
        distinct_places(cs1),
    ensures
        in_namespace(cs1, ns) == in_namespace(cs2, ns),
{
    broadcast use vstd::seq_lib::group_to_multiset_ensures;

    lemma_decl_after_strict();
    lemma_text_lt_order();
    let f1 = cs1.filter(declared_in(ns));
    let f2 = cs2.filter(declared_in(ns));
    lemma_filter_multiset(cs1, cs2, declared_in(ns));
    lemma_filter_members(cs1, declared_in(ns));
    lemma_sort_by_order(f1, decl_after());
    lemma_sort_by_order(f2, decl_after());
    lemma_sort_by_members(f1, decl_after());
    let a = sort_by(f1, decl_after());
    let b = sort_by(f2, decl_after());
    assert forall|x: ScopedPou, y: ScopedPou| a.contains(x) && a.contains(y) && x != y implies #[trigger] decl_after()(
        x,
        y,
    ) || #[trigger] decl_after()(y, x) by {
        assert(f1.contains(x) && f1.contains(y));
        assert(cs1.contains(x) && cs1.contains(y));
        assert(x.namespace@ == ns && y.namespace@ == ns);
        if x.url@ != y.url@ {
            assert(text_lt(x.url@, y.url@) || text_lt(y.url@, x.url@));
        }
    }
    lemma_sorted_unique(a, b, decl_after());
}

/// The declarations pointed at in each of `dups` do not depend on the order
/// in which the candidates were found.
proof fn lemma_duplicate_locations_order_free(
    name: Seq<char>,
    cs1: Seq<ScopedPou>,
    cs2: Seq<ScopedPou>,
    dups: Seq<Seq<char>>,
)
    requires
        cs1.to_multiset() == cs2.to_multiset(),
        distinct_places(cs1),
    ensures
        duplicate_locations(name, cs1, dups) == duplicate_locations(name, cs2, dups),
    decreases dups.len(),
{
    if dups.len() > 0 {
        lemma_duplicate_locations_order_free(name, cs1, cs2, dups.drop_last());
        lemma_in_namespace_order_free(cs1, cs2, dups.last());
    }
}

/// What an ambiguous name reports does not depend on the order in which
/// its candidates were found: the same candidates, each as many times, give
/// the same notes and point at the same places in the same order, as long
/// as no two different candidates of one namespace start at the same place
/// of the same file.
pub proof fn lemma_ambiguity_order_free(name: Seq<char>, cs1: Seq<ScopedPou>, cs2: Seq<ScopedPou>)
    requires
        cs1.to_multiset() == cs2.to_multiset(),
        distinct_places(cs1),
    ensures
        ambiguity_notes(name, cs1) == ambiguity_notes(name, cs2),
        duplicate_locations(name, cs1, duplicated_namespaces(cs1)) == duplicate_locations(
            name,
            cs2,
            duplicated_namespaces(cs2),
        ),
{
    broadcast use vstd::seq_lib::group_to_multiset_ensures;

    assert forall|ns: Seq<char>| #[trigger] count_of(namespaces_of(cs1), ns) == count_of(namespaces_of(cs2), ns) by {
        lemma_count_of_declared(cs1, ns);
        lemma_count_of_declared(cs2, ns);
        lemma_filter_multiset(cs1, cs2, declared_in(ns));
        assert(cs1.filter(declared_in(ns)).to_multiset().len() == cs2.filter(declared_in(ns)).to_multiset().len());
    }
    lemma_namespace_groups_order_free(cs1, cs2);
    lemma_duplicate_locations_order_free(name, cs1, cs2, duplicated_namespaces(cs1));
}

/// A resolution error.
pub enum ResolveError {
    /// A reference to the POU's own per-call storage, handed back to the caller.
    ReturnsReferenceToLocal { var: Var, site: Span },
    /// A call with a number of arguments that no overload (`overloads` of them) takes.
    IncorrectNumberOfParameters { overloads: usize, expected: usize, actual: usize, call_span: Span, callable: Named },
    /// An output parameter passed positionally.
    OutputParameterUsedAsInput { func: Named, var: Var, expr: Span, param: usize },
    /// A named input the callable does not have; `hints` are the notes suggesting similar parameters.
    UnknownInputParameter { func: Named, param: SpanIdent, hints: Vec<String> },
    /// A named output the callable does not have; `hints` are the notes suggesting similar parameters.
    UnknownOutputParameter { func: Named, param: SpanIdent, hints: Vec<String> },
    /// A path that names nothing: `path` as written, `path_str` its path part and `target` its last identifier; `in_namespace` when the path has a namespace part, `namespace_exists` when the path names a namespace, and `results` what the search for similar items found.
    NoNamespaceItemFound { path: String, span: Span, path_str: String, target: String, in_namespace: bool, namespace_exists: bool, results: SearchResults },
    /// A name found nowhere in scope; `results` is what the search for similar items found.
    NoItemInScope { ident: String, span: Span, results: SearchResults },
    /// An initializer names a field the type (named `ty`) does not have; `hints` suggest similar fields.
    NoSuchFieldInitExpr { span: Span, ident: String, ty: String, hints: Vec<String> },
    /// A path names a field the type does not have; `hints` suggest similar fields.
    NoSuchFieldPathExpr { span: Span, ident: String, ty: TypeRef, hints: Vec<String> },
    /// An initializer indexes a type that is not an array.
    IndexNonArrayTypeInitExpr { span: Span, ty: String },
    /// A path indexes a type that is not an array.
    IndexNonArrayTypePathExpr { span: Span, ty: String },
    /// A dereference of a type that is not a reference.
    DerefNonRefType { span: Span, ty: String },
    /// A structured initializer of an elementary type.
    NoFieldOnElementaryType { span: Span, ty: String },
    /// A FUNCTION used as a type.
    FunctionAsType { span: Span, ty: String },
    /// A USING directive names no namespace; `results` is what the search for similar namespaces found.
    UsingNamespaceNotFound { span: Span, path: String, results: SearchResults },
    /// The workspace has no configuration file; `root` spans the file reported on, `workspace_folder` names the folder (empty when there is none).
    NoConfigFileFound { root: Span, workspace_folder: String },
    /// A `WITH <task>` naming no task of the configuration.
    UnknownTaskRef { task: SpanIdent },
    /// A second CONFIGURATION; `others` are all the other ones.
    MultipleConfigurations { config: Named, others: Vec<Named> },
    /// A configuration with more than one RESOURCE; `names` are the resources, sorted.
    MultipleResources { config: Named, names: Vec<String>, span: Span },
    /// A `{wasm}` pragma names an instruction the emitter has no arm for.
    UnknownWasmInstruction { name: String, span: Span },
    /// A `{wasm}` pragma outside a FUNCTION body.
    WasmPragmaOutsideFunction { span: Span },
    /// A `{wasm}` operand that names nothing of the FUNCTION.
    UnknownWasmOperand { name: String, span: Span },
    /// A `{wasm}` pragma whose operands do not fit its instruction.
    WasmSignatureMismatch { instruction: String, expected: String, actual: String, span: Span },
    /// A PRIORITY this compiler cannot represent.
    InvalidPriority { task: SpanIdent, value: String },
    /// A PROGRAM instance with no task.
    ProgramWithoutTask { instance: SpanIdent },
    /// A configuration construct that is parsed but does nothing.
    UnsupportedConfigElement { span: Span, kind: UnsupportedConfigKind },
    /// A TASK the scheduler cannot honour, and why.
    UnschedulableTask { task: SpanIdent, reason: UnschedulableReason },
    /// A VAR_EXTERNAL naming no accessible VAR_GLOBAL.
    ExternalVarNotFound { var: Var },
    /// A VAR_EXTERNAL whose type differs from its VAR_GLOBAL's, subrange included.
    ExternalVarTypeMismatch { var: Var, external: BoundedType, global: BoundedType },
    /// A VAR_ACCESS declaration whose type differs from the variable's.
    AccessDeclTypeMismatch { var_origin: Var, spec_span: Span, expected: String, actual: String },
    /// A VAR_CONFIG path naming no program instance.
    ConfigInstInitUnknownInstance { instance_name: SpanIdent },
    /// A VAR_CONFIG path naming no field of the type.
    ConfigInstInitFieldNotFound { field: SpanIdent, parent_type: String },
    /// A variadic variable of a type that is not elementary.
    NonVariadicTypeForVariable { var: Var, typ: String },
    /// A variadic variable outside VAR_INPUT.
    VariadicNotInInput { var: Var },
    /// A second variadic variable.
    MultipleVariadicVariables { first: Var, second: Var },
    /// A VAR_INPUT beside a variadic parameter.
    VariadicMixedWithOtherInputs { variadic_var: Var, other_var: Var },
    /// A call that binds nothing to a variadic parameter.
    EmptyVariadicCall { func: Named, var: Var, call_span: Span },
    /// Several items of one name in scope; `candidates` are the POUs it could name.
    MultipleItemsInScope { name: String, span: Span, candidates: Vec<ScopedPou> },
    /// A partial access whose offset the base type does not have; `max_offset` is none when no slice fits at all.
    MultibitsOutOfRange { span: Span, var: Option<Var>, offset: usize, access_bits: usize, max_offset: Option<usize>, base_type: String },
    /// A partial access whose size character names no slice.
    UnknownMultibitsAccess { span: Span, access: String },
    /// What an `{extern}` FUNCTION declared that a WASM import cannot carry.
    ExternForbiddenSection { var: Var, kind: ExternForbiddenKind },
    /// An `{extern}` FUNCTION returning something no WASM result can carry.
    ExternNonScalarReturn { func: Named, ret: Span },
    /// An `{extern}` FUNCTION with statements.
    ExternWithBody { site: Span },
    /// `{extern}` on something other than a FUNCTION.
    ExternOutsideFunction { anchor: SpanIdent, pou_kind: String },
    /// `{test}` on something other than a FUNCTION.
    TestOutsideFunction { anchor: SpanIdent, pou_kind: String },
    /// A direct variable used anywhere; `address` as written.
    DirectVariableUnsupported { site: Span, address: String },
    /// A call that leaves required parameters (`vars`) unbound.
    MissingRequiredParameter { func: Named, vars: Vec<Var>, call_span: Span },
    /// A VAR_IN_OUT argument that is not an l-value.
    InOutParameterRequiresLValue { func: Named, var: Var, expr: Span },
    /// A RETAIN or NON_RETAIN (`retain` tells which) variable of a stateless POU.
    RetainInStatelessPou { var: Var, retain: bool, pou_kind: String },
    /// A VAR_IN_OUT bound with `=>`.
    InOutParameterBoundWithArrow { func: Named, var: Var, param: SpanIdent },
    /// Several overloads equally viable for the arguments.
    AmbiguousOverload { call_span: Span, name: String, candidates: Vec<Named> },
    /// No overload accepts the argument types (named in `arg_types`).
    NoMatchingOverload { call_span: Span, name: String, arg_types: Vec<String>, candidates: Vec<Overload> },
}

impl ResolveError {
    pub open spec fn spec_code(&self) -> Seq<char> {
        match self {
            ResolveError::ReturnsReferenceToLocal { .. } => "E0251"@,
            ResolveError::IncorrectNumberOfParameters { .. } => "E0205"@,
            ResolveError::OutputParameterUsedAsInput { .. } => "E0207"@,
            ResolveError::UnknownInputParameter { .. } => "E0208"@,
            ResolveError::UnknownOutputParameter { .. } => "E0209"@,
            ResolveError::NoNamespaceItemFound { .. } => "E0210"@,
            ResolveError::NoItemInScope { .. } => "E0204"@,
            ResolveError::NoSuchFieldInitExpr { .. } => "E0211"@,
            ResolveError::NoSuchFieldPathExpr { .. } => "E0211"@,
            ResolveError::IndexNonArrayTypeInitExpr { .. } => "E0213"@,
            ResolveError::IndexNonArrayTypePathExpr { .. } => "E0213"@,
            ResolveError::DerefNonRefType { .. } => "E0212"@,
            ResolveError::NoFieldOnElementaryType { .. } => "E0214"@,
            ResolveError::FunctionAsType { .. } => "E0215"@,
            ResolveError::UsingNamespaceNotFound { .. } => "E0216"@,
            ResolveError::NoConfigFileFound { .. } => "E0217"@,
            ResolveError::UnknownTaskRef { .. } => "E0219"@,
            ResolveError::MultipleConfigurations { .. } => "E0242"@,
            ResolveError::MultipleResources { .. } => "E0247"@,
            ResolveError::UnknownWasmInstruction { .. } => "E0248"@,
            ResolveError::WasmPragmaOutsideFunction { .. } => "E0249"@,
            ResolveError::UnknownWasmOperand { .. } => "E0253"@,
            ResolveError::WasmSignatureMismatch { .. } => "E0255"@,
            ResolveError::InvalidPriority { .. } => "E0241"@,
            ResolveError::ProgramWithoutTask { .. } => "E0238"@,
            ResolveError::UnsupportedConfigElement { .. } => "E0240"@,
            ResolveError::UnschedulableTask { .. } => "E0239"@,
            ResolveError::ExternalVarNotFound { .. } => "E0220"@,
            ResolveError::ExternalVarTypeMismatch { .. } => "E0246"@,
            ResolveError::AccessDeclTypeMismatch { .. } => "E0221"@,
            ResolveError::ConfigInstInitUnknownInstance { .. } => "E0222"@,
            ResolveError::ConfigInstInitFieldNotFound { .. } => "E0223"@,
            ResolveError::NonVariadicTypeForVariable { .. } => "E0224"@,
            ResolveError::VariadicNotInInput { .. } => "E0226"@,
            ResolveError::MultipleVariadicVariables { .. } => "E0227"@,
            ResolveError::VariadicMixedWithOtherInputs { .. } => "E0228"@,
            ResolveError::EmptyVariadicCall { .. } => "E0230"@,
            ResolveError::MultipleItemsInScope { .. } => "E0225"@,
            ResolveError::MultibitsOutOfRange { .. } => "E0229"@,
            ResolveError::UnknownMultibitsAccess { .. } => "E0250"@,
            ResolveError::ExternForbiddenSection { .. } => "E0243"@,
            ResolveError::ExternNonScalarReturn { .. } => "E0243"@,
            ResolveError::ExternWithBody { .. } => "E0243"@,
            ResolveError::ExternOutsideFunction { .. } => "E0244"@,
            ResolveError::TestOutsideFunction { .. } => "E0252"@,
            ResolveError::DirectVariableUnsupported { .. } => "E0245"@,
            ResolveError::MissingRequiredParameter { .. } => "E0233"@,
            ResolveError::InOutParameterRequiresLValue { .. } => "E0234"@,
            ResolveError::RetainInStatelessPou { .. } => "E0235"@,
            ResolveError::InOutParameterBoundWithArrow { .. } => "E0236"@,
            ResolveError::AmbiguousOverload { .. } => "E0237"@,
            ResolveError::NoMatchingOverload { .. } => "E0254"@,
        }
    }

    /// The stable code of the error.
    pub fn code(&self) -> (r: &'static str)
        ensures
            r@ == self.spec_code(),
    {
        match self {
            ResolveError::ReturnsReferenceToLocal { .. } => "E0251",
            ResolveError::IncorrectNumberOfParameters { .. } => "E0205",
            ResolveError::OutputParameterUsedAsInput { .. } => "E0207",
            ResolveError::UnknownInputParameter { .. } => "E0208",
            ResolveError::UnknownOutputParameter { .. } => "E0209",
            ResolveError::NoNamespaceItemFound { .. } => "E0210",
            ResolveError::NoItemInScope { .. } => "E0204",
            ResolveError::NoSuchFieldInitExpr { .. } => "E0211",
            ResolveError::NoSuchFieldPathExpr { .. } => "E0211",
            ResolveError::IndexNonArrayTypeInitExpr { .. } => "E0213",
            ResolveError::IndexNonArrayTypePathExpr { .. } => "E0213",
            ResolveError::DerefNonRefType { .. } => "E0212",
            ResolveError::NoFieldOnElementaryType { .. } => "E0214",
            ResolveError::FunctionAsType { .. } => "E0215",
            ResolveError::UsingNamespaceNotFound { .. } => "E0216",
            ResolveError::NoConfigFileFound { .. } => "E0217",
            ResolveError::UnknownTaskRef { .. } => "E0219",
            ResolveError::MultipleConfigurations { .. } => "E0242",
            ResolveError::MultipleResources { .. } => "E0247",
            ResolveError::UnknownWasmInstruction { .. } => "E0248",
            ResolveError::WasmPragmaOutsideFunction { .. } => "E0249",
            ResolveError::UnknownWasmOperand { .. } => "E0253",
            ResolveError::WasmSignatureMismatch { .. } => "E0255",
            ResolveError::InvalidPriority { .. } => "E0241",
            ResolveError::ProgramWithoutTask { .. } => "E0238",
            ResolveError::UnsupportedConfigElement { .. } => "E0240",
            ResolveError::UnschedulableTask { .. } => "E0239",
            ResolveError::ExternalVarNotFound { .. } => "E0220",
            ResolveError::ExternalVarTypeMismatch { .. } => "E0246",
            ResolveError::AccessDeclTypeMismatch { .. } => "E0221",
            ResolveError::ConfigInstInitUnknownInstance { .. } => "E0222",
            ResolveError::ConfigInstInitFieldNotFound { .. } => "E0223",
            ResolveError::NonVariadicTypeForVariable { .. } => "E0224",
            ResolveError::VariadicNotInInput { .. } => "E0226",
            ResolveError::MultipleVariadicVariables { .. } => "E0227",
            ResolveError::VariadicMixedWithOtherInputs { .. } => "E0228",
            ResolveError::EmptyVariadicCall { .. } => "E0230",
            ResolveError::MultipleItemsInScope { .. } => "E0225",
            ResolveError::MultibitsOutOfRange { .. } => "E0229",
            ResolveError::UnknownMultibitsAccess { .. } => "E0250",
            ResolveError::ExternForbiddenSection { .. } => "E0243",
            ResolveError::ExternNonScalarReturn { .. } => "E0243",
            ResolveError::ExternWithBody { .. } => "E0243",
            ResolveError::ExternOutsideFunction { .. } => "E0244",
            ResolveError::TestOutsideFunction { .. } => "E0252",
            ResolveError::DirectVariableUnsupported { .. } => "E0245",
            ResolveError::MissingRequiredParameter { .. } => "E0233",
            ResolveError::InOutParameterRequiresLValue { .. } => "E0234",
            ResolveError::RetainInStatelessPou { .. } => "E0235",
            ResolveError::InOutParameterBoundWithArrow { .. } => "E0236",
            ResolveError::AmbiguousOverload { .. } => "E0237",
            ResolveError::NoMatchingOverload { .. } => "E0254",
        }
    }

    pub open spec fn spec_description(&self) -> Seq<char> {
        match self {
            ResolveError::ReturnsReferenceToLocal { .. } => "reference outlives its storage"@,
            ResolveError::IncorrectNumberOfParameters { .. } => "function call parameter mismatch"@,
            ResolveError::OutputParameterUsedAsInput { .. } => "function call parameter mismatch"@,
            ResolveError::UnknownInputParameter { .. } => "function call parameter mismatch"@,
            ResolveError::UnknownOutputParameter { .. } => "function call parameter mismatch"@,
            ResolveError::NoNamespaceItemFound { .. } => "no namespace item found"@,
            ResolveError::NoItemInScope { .. } => "no item found in scope"@,
            ResolveError::NoSuchFieldInitExpr { .. } => "no such field"@,
            ResolveError::NoSuchFieldPathExpr { .. } => "no such field"@,
            ResolveError::IndexNonArrayTypeInitExpr { .. } => "invalid operation"@,
            ResolveError::IndexNonArrayTypePathExpr { .. } => "invalid operation"@,
            ResolveError::DerefNonRefType { .. } => "invalid operation"@,
            ResolveError::NoFieldOnElementaryType { .. } => "invalid operation"@,
            ResolveError::FunctionAsType { .. } => "invalid type"@,
            ResolveError::UsingNamespaceNotFound { .. } => "namespace not found"@,
            ResolveError::NoConfigFileFound { .. } => "configuration error"@,
            ResolveError::UnknownTaskRef { .. } => "configuration error"@,
            ResolveError::MultipleConfigurations { .. } => "configuration error"@,
            ResolveError::MultipleResources { .. } => "configuration error"@,
            ResolveError::UnknownWasmInstruction { .. } => "invalid wasm pragma"@,
            ResolveError::WasmPragmaOutsideFunction { .. } => "invalid wasm pragma"@,
            ResolveError::UnknownWasmOperand { .. } => "invalid wasm pragma"@,
            ResolveError::WasmSignatureMismatch { .. } => "invalid wasm pragma"@,
            ResolveError::InvalidPriority { .. } => "configuration error"@,
            ResolveError::ProgramWithoutTask { .. } => "program instance never runs"@,
            ResolveError::UnsupportedConfigElement { .. } => "unsupported configuration element"@,
            ResolveError::UnschedulableTask { .. } => "task cannot be scheduled"@,
            ResolveError::ExternalVarNotFound { .. } => "external variable not found"@,
            ResolveError::ExternalVarTypeMismatch { .. } => "external variable type mismatch"@,
            ResolveError::AccessDeclTypeMismatch { .. } => "access declaration type mismatch"@,
            ResolveError::ConfigInstInitUnknownInstance { .. } => "configuration error"@,
            ResolveError::ConfigInstInitFieldNotFound { .. } => "configuration error"@,
            ResolveError::NonVariadicTypeForVariable { .. } => "invalid type"@,
            ResolveError::VariadicNotInInput { .. } => "invalid variadic declaration"@,
            ResolveError::MultipleVariadicVariables { .. } => "invalid variadic declaration"@,
            ResolveError::VariadicMixedWithOtherInputs { .. } => "invalid variadic declaration"@,
            ResolveError::EmptyVariadicCall { .. } => "variadic call without arguments"@,
            ResolveError::MultipleItemsInScope { .. } => "multiple items in scope"@,
            ResolveError::MultibitsOutOfRange { .. } => "multibit access out of range"@,
            ResolveError::UnknownMultibitsAccess { .. } => "unknown multibit access size"@,
            ResolveError::ExternForbiddenSection { .. } => "not representable on an extern FUNCTION"@,
            ResolveError::ExternNonScalarReturn { .. } => "not representable on an extern FUNCTION"@,
            ResolveError::ExternWithBody { .. } => "not representable on an extern FUNCTION"@,
            ResolveError::ExternOutsideFunction { .. } => "extern pragma outside a FUNCTION"@,
            ResolveError::TestOutsideFunction { .. } => "test pragma outside a FUNCTION"@,
            ResolveError::DirectVariableUnsupported { .. } => "direct variable access is not supported"@,
            ResolveError::MissingRequiredParameter { .. } => "missing required parameter"@,
            ResolveError::InOutParameterRequiresLValue { .. } => "VAR_IN_OUT argument must be a variable"@,
            ResolveError::RetainInStatelessPou { .. } => "invalid retentive qualifier"@,
            ResolveError::InOutParameterBoundWithArrow { .. } => "VAR_IN_OUT parameter bound with output syntax"@,
            ResolveError::AmbiguousOverload { .. } => "ambiguous overloaded call"@,
            ResolveError::NoMatchingOverload { .. } => "no matching overload"@,
        }
    }

    /// The short description of the error's kind.
    pub fn description(&self) -> (r: &'static str)
        ensures
            r@ == self.spec_description(),
    {
        match self {
            ResolveError::ReturnsReferenceToLocal { .. } => "reference outlives its storage",
            ResolveError::IncorrectNumberOfParameters { .. } => "function call parameter mismatch",
            ResolveError::OutputParameterUsedAsInput { .. } => "function call parameter mismatch",
            ResolveError::UnknownInputParameter { .. } => "function call parameter mismatch",
            ResolveError::UnknownOutputParameter { .. } => "function call parameter mismatch",
            ResolveError::NoNamespaceItemFound { .. } => "no namespace item found",
            ResolveError::NoItemInScope { .. } => "no item found in scope",
            ResolveError::NoSuchFieldInitExpr { .. } => "no such field",
            ResolveError::NoSuchFieldPathExpr { .. } => "no such field",
            ResolveError::IndexNonArrayTypeInitExpr { .. } => "invalid operation",
            ResolveError::IndexNonArrayTypePathExpr { .. } => "invalid operation",
            ResolveError::DerefNonRefType { .. } => "invalid operation",
            ResolveError::NoFieldOnElementaryType { .. } => "invalid operation",
            ResolveError::FunctionAsType { .. } => "invalid type",
            ResolveError::UsingNamespaceNotFound { .. } => "namespace not found",
            ResolveError::NoConfigFileFound { .. } => "configuration error",
            ResolveError::UnknownTaskRef { .. } => "configuration error",
            ResolveError::MultipleConfigurations { .. } => "configuration error",
            ResolveError::MultipleResources { .. } => "configuration error",
            ResolveError::UnknownWasmInstruction { .. } => "invalid wasm pragma",
            ResolveError::WasmPragmaOutsideFunction { .. } => "invalid wasm pragma",
            ResolveError::UnknownWasmOperand { .. } => "invalid wasm pragma",
            ResolveError::WasmSignatureMismatch { .. } => "invalid wasm pragma",
            ResolveError::InvalidPriority { .. } => "configuration error",
            ResolveError::ProgramWithoutTask { .. } => "program instance never runs",
            ResolveError::UnsupportedConfigElement { .. } => "unsupported configuration element",
            ResolveError::UnschedulableTask { .. } => "task cannot be scheduled",
            ResolveError::ExternalVarNotFound { .. } => "external variable not found",
            ResolveError::ExternalVarTypeMismatch { .. } => "external variable type mismatch",
            ResolveError::AccessDeclTypeMismatch { .. } => "access declaration type mismatch",
            ResolveError::ConfigInstInitUnknownInstance { .. } => "configuration error",
            ResolveError::ConfigInstInitFieldNotFound { .. } => "configuration error",
            ResolveError::NonVariadicTypeForVariable { .. } => "invalid type",
            ResolveError::VariadicNotInInput { .. } => "invalid variadic declaration",
            ResolveError::MultipleVariadicVariables { .. } => "invalid variadic declaration",
            ResolveError::VariadicMixedWithOtherInputs { .. } => "invalid variadic declaration",
            ResolveError::EmptyVariadicCall { .. } => "variadic call without arguments",
            ResolveError::MultipleItemsInScope { .. } => "multiple items in scope",
            ResolveError::MultibitsOutOfRange { .. } => "multibit access out of range",
            ResolveError::UnknownMultibitsAccess { .. } => "unknown multibit access size",
            ResolveError::ExternForbiddenSection { .. } => "not representable on an extern FUNCTION",
            ResolveError::ExternNonScalarReturn { .. } => "not representable on an extern FUNCTION",
            ResolveError::ExternWithBody { .. } => "not representable on an extern FUNCTION",
            ResolveError::ExternOutsideFunction { .. } => "extern pragma outside a FUNCTION",
            ResolveError::TestOutsideFunction { .. } => "test pragma outside a FUNCTION",
            ResolveError::DirectVariableUnsupported { .. } => "direct variable access is not supported",
            ResolveError::MissingRequiredParameter { .. } => "missing required parameter",
            ResolveError::InOutParameterRequiresLValue { .. } => "VAR_IN_OUT argument must be a variable",
            ResolveError::RetainInStatelessPou { .. } => "invalid retentive qualifier",
            ResolveError::InOutParameterBoundWithArrow { .. } => "VAR_IN_OUT parameter bound with output syntax",
            ResolveError::AmbiguousOverload { .. } => "ambiguous overloaded call",
            ResolveError::NoMatchingOverload { .. } => "no matching overload",
        }
    }

    /// An error diagnostic of this error at `span`.
    pub open spec fn err(&self, message: Seq<char>, span: Span) -> DiagnosticView {
        DiagnosticView::error(message, self.spec_code(), self.spec_description(), span)
    }

    fn error_at(&self, message: String, span: Span) -> (d: Diagnostic)
        ensures
            d@ == self.err(message@, span),
    {
        Diagnostic::error(message, self.code(), self.description(), span)
    }

    /// The diagnostic this error renders to.
    pub open spec fn spec_to_diagnostic(&self) -> DiagnosticView {
        match self {
            ResolveError::ReturnsReferenceToLocal { var, site } =>
                self.err("reference to '"@ + var.decl.name@ + "' outlives the call that owns it"@, *site)
                .rel("'"@ + var.decl.name@ + "' is per-call storage, declared here"@, var.decl.file, var.decl.span)
                .note("return a reference to instance state, or to storage the caller owns (a VAR_IN_OUT)"@),
            ResolveError::IncorrectNumberOfParameters { overloads, expected, actual, call_span, callable } =>
                self.err(
                    if *overloads > 1 {
                        "no overload of '"@ + callable.name@ + "' takes "@ + decimal(*actual as nat) + " parameter"@
                            + plural(*actual as nat)
                    } else {
                        "'"@ + callable.name@ + "' expects "@ + decimal(*expected as nat) + " parameter"@ + plural(
                            *expected as nat,
                        ) + ", but got "@ + decimal(*actual as nat)
                    },
                    *call_span,
                ),
            ResolveError::OutputParameterUsedAsInput { func, var, expr, param } =>
                self.err("output parameter at index '"@ + decimal(*param as nat) + "' cannot be used as input"@, *expr)
                .note("use formal syntax instead: "@ + var.decl.name@ + " => <variable>"@),
            ResolveError::UnknownInputParameter { func, param, hints } =>
                self.err("unknown input parameter '"@ + param.text@ + "'"@, param.span)
                .notes_all(texts(hints@)),
            ResolveError::UnknownOutputParameter { func, param, hints } =>
                self.err("unknown output parameter '"@ + param.text@ + "'"@, param.span)
                .notes_all(texts(hints@)),
            ResolveError::NoNamespaceItemFound { path, span, path_str, target, in_namespace, namespace_exists, results } =>
                {
                    let d = self.err("no item found for path '"@ + path@ + "'"@, *span);
                    let ns_note = "namespace named '"@ + path_str@ + "' exists but it cannot be used as an item, you can either:\n- Import the namespace via an USING directive: 'USING "@ + path_str@ + "'\n- Import an item from this namespace: '"@ + path_str@ + ".<POU>'"@;
                    if !*in_namespace {
                        let d = d.notes_all(candidate_notes(target@, *results));
                        if *namespace_exists {
                            d.note(ns_note)
                        } else {
                            d
                        }
                    } else if *namespace_exists {
                        d.note(ns_note)
                    } else {
                        d.notes_all(candidate_notes(path@, *results))
                    }
                },
            ResolveError::NoItemInScope { ident, span, results } =>
                self.err("no item "@ + debug_text(ident@) + " found in scope"@, *span).notes_all(candidate_notes(ident@, *results)),
            ResolveError::NoSuchFieldInitExpr { span, ident, ty, hints } =>
                self.err("'"@ + ty@ + "' has no field named '"@ + ident@ + "'"@, *span)
                .notes_all(texts(hints@)),
            ResolveError::NoSuchFieldPathExpr { span, ident, ty, hints } =>
                located(self.err("'"@ + ty.name@ + "' has no field named '"@ + ident@ + "'"@, *span), ty@).notes_all(texts(hints@)),
            ResolveError::IndexNonArrayTypeInitExpr { span, ty } =>
                self.err("cannot index into type '"@ + ty@ + "'"@, *span),
            ResolveError::IndexNonArrayTypePathExpr { span, ty } =>
                self.err("cannot index into type '"@ + ty@ + "'"@, *span),
            ResolveError::DerefNonRefType { span, ty } =>
                self.err("cannot dereference non-reference type '"@ + ty@ + "'"@, *span),
            ResolveError::NoFieldOnElementaryType { span, ty } =>
                self.err("type '"@ + ty@ + "' is an elementary type and cannot be initiliazed with '()'"@, *span),
            ResolveError::FunctionAsType { span, ty } =>
                self.err("'"@ + ty@ + "' is a function and cannot be used as a variable or data type"@, *span),
            ResolveError::UsingNamespaceNotFound { span, path, results } =>
                self.err("namespace '"@ + path@ + "' not found"@, *span).notes_all(candidate_notes(path@, *results)),
            ResolveError::NoConfigFileFound { root, workspace_folder } =>
                DiagnosticView::base("no configuration file found"@, Some(Severity::Hint), self.spec_code(), self.spec_description(), *root)
                    .tagged(seq![Tag::Unnecessary])
                    .note("a configuration file is required at the root of your workspace (inside '"@ + workspace_folder@ + "')"@),
            ResolveError::UnknownTaskRef { task } =>
                self.err("task '"@ + task.text@ + "' not found in this configuration"@, task.span),
            ResolveError::MultipleConfigurations { config, others } =>
                self.err("a workspace can only have one CONFIGURATION; this one declares "@ + decimal(others@.len() + 1), config.name_span)
                    .rels(configuration_locations(others@)),
            ResolveError::MultipleResources { config, names, span } =>
                self.err(
                    "a deployment drives one RESOURCE; this configuration declares "@ + decimal(names@.len()) + " ("@
                        + join(texts(names@), ", "@) + "); deploy one RESOURCE per runtime"@,
                    *span,
                ),
            ResolveError::UnknownWasmInstruction { name, span } =>
                self.err("'"@ + name@ + "' is not a wasm instruction this compiler emits"@, *span),
            ResolveError::WasmPragmaOutsideFunction { span } =>
                self.err("a {wasm} body is only available on a FUNCTION; here the pragma would be silently dropped"@, *span),
            ResolveError::UnknownWasmOperand { name, span } =>
                self.err("'"@ + name@ + "' is not a parameter, a local or the return of this FUNCTION"@, *span),
            ResolveError::WasmSignatureMismatch { instruction, expected, actual, span } =>
                self.err("'"@ + instruction@ + "' takes "@ + expected@ + "; this pragma gives it "@ + actual@, *span),
            ResolveError::InvalidPriority { task, value } =>
                self.err("task '"@ + task.text@ + "' has an unusable PRIORITY '"@ + value@ + "'"@, task.span)
                .note("PRIORITY must fit in a 32-bit unsigned integer; 0 is the most urgent"@),
            ResolveError::ProgramWithoutTask { instance } =>
                self.err("program instance '"@ + instance.text@ + "' has no WITH <task>, so it will never run"@, instance.span),
            ResolveError::UnsupportedConfigElement { span, kind } =>
                self.err(kind.spec_message(), *span).note(kind.spec_note()),
            ResolveError::UnschedulableTask { task, reason } =>
                {
                    let d = self.err("task '"@ + task.text@ + "' cannot be scheduled: "@ + reason.spec_message(), task.span);
                    match reason.spec_note() {
                        Some(n) => d.note(n),
                        None => d,
                    }
                },
            ResolveError::ExternalVarNotFound { var } =>
                self.err("external variable '"@ + var.decl.name@ + "' not found in any accessible VAR_GLOBAL"@, var.decl.span),
            ResolveError::ExternalVarTypeMismatch { var, external, global } =>
                self.err(
                    "'"@ + var.decl.name@ + "' is declared '"@ + spec_with_bounds(*external) + "' here but its VAR_GLOBAL is '"@
                        + spec_with_bounds(*global) + "': an external must repeat the global's type exactly"@,
                    var.decl.span,
                ),
            ResolveError::AccessDeclTypeMismatch { var_origin, spec_span, expected, actual } =>
                self.err("access declaration expects '"@ + expected@ + "', but variable has type '"@ + actual@ + "'"@, *spec_span)
                .rel("variable '"@ + var_origin.decl.name@ + "' is declared here"@, var_origin.decl.file, var_origin.decl.name_span),
            ResolveError::ConfigInstInitUnknownInstance { instance_name } =>
                self.err("no program instance '"@ + instance_name.text@ + "' found in this configuration"@, instance_name.span),
            ResolveError::ConfigInstInitFieldNotFound { field, parent_type } =>
                self.err("'"@ + parent_type@ + "' has no field named '"@ + field.text@ + "'"@, field.span),
            ResolveError::NonVariadicTypeForVariable { var, typ } =>
                self.err("variable '"@ + var.decl.name@ + "' is declared as variadic but has non-variadic type '"@ + typ@ + "'"@, var.decl.span)
                .note("only elementary types can be variadic"@),
            ResolveError::VariadicNotInInput { var } =>
                self.err("variadic variable '"@ + var.decl.name@ + "' must be declared in VAR_INPUT"@, var.decl.span)
                .note("variadic parameters are only allowed in VAR_INPUT sections"@),
            ResolveError::MultipleVariadicVariables { first, second } =>
                self.err("only one variadic variable is allowed per POU"@, second.decl.span)
                .rel("first variadic variable '"@ + first.decl.name@ + "' declared here"@, first.decl.file, first.decl.span),
            ResolveError::VariadicMixedWithOtherInputs { variadic_var, other_var } =>
                self.err("variadic parameter '"@ + variadic_var.decl.name@ + "' must be the only VAR_INPUT parameter"@, other_var.decl.span)
                .rel("variadic parameter '"@ + variadic_var.decl.name@ + "' declared here"@, variadic_var.decl.file, variadic_var.decl.span)
                .note("a variadic parameter must be the only parameter in VAR_INPUT"@),
            ResolveError::EmptyVariadicCall { func, var, call_span } =>
                self.err("call to '"@ + func.name@ + "' must pass at least one argument to variadic parameter '"@ + var.decl.name@ + "'"@, *call_span)
                .rel("variadic parameter '"@ + var.decl.name@ + "' declared here"@, var.decl.file, var.decl.span),
            ResolveError::MultipleItemsInScope { name, span, candidates } =>
                self.err("multiple items named '"@ + name@ + "' available in scope"@, *span)
                    .notes_all(ambiguity_notes(name@, candidates@))
                    .rels(duplicate_locations(name@, candidates@, duplicated_namespaces(candidates@))),
            ResolveError::MultibitsOutOfRange { span, var, offset, access_bits, max_offset, base_type } =>
                {
                    let d = self.err(
                        match *max_offset {
                            Some(max) => "offset "@ + decimal(*offset as nat) + " is out of range for type '"@ + base_type@
                                + "' (valid range: 0.."@ + decimal(max as nat) + ")"@,
                            None => "a "@ + decimal(*access_bits as nat) + "-bit access does not fit in type '"@ + base_type@ + "'"@,
                        },
                        *span,
                    );
                    match var {
                        Some(v) => d.rel("'"@ + v.decl.name@ + "' is declared here"@, v.decl.file, v.decl.span),
                        None => d,
                    }
                },
            ResolveError::UnknownMultibitsAccess { span, access } =>
                self.err("'%"@ + access@ + "' names no access size (expected X, B, W, D or L)"@, *span),
            ResolveError::ExternForbiddenSection { var, kind } =>
                self.err(kind.spec_section() + " '"@ + var.decl.name@ + "' "@ + kind.spec_message(), var.decl.span).note(kind.spec_note()),
            ResolveError::ExternNonScalarReturn { func, ret } =>
                self.err("the return type of '"@ + func.name@ + "' can only be a scalar"@, *ret),
            ResolveError::ExternWithBody { site } =>
                self.err("an extern FUNCTION has no statements"@, *site)
                .note("FUNCTIONs marked with {extern} act as external calls, they can not have a body"@),
            ResolveError::ExternOutsideFunction { anchor, pou_kind } =>
                self.err("an {extern} pragma cannot be placed on a "@ + pou_kind@, anchor.span)
                .note("{extern} pragmas can ony be used with FUNCTION"@),
            ResolveError::TestOutsideFunction { anchor, pou_kind } =>
                self.err("a {test} pragma cannot be placed on a "@ + pou_kind@, anchor.span),
            ResolveError::DirectVariableUnsupported { site, address } =>
                self.err("'"@ + address@ + "' cannot be read or written: there is no I/O mapping"@, *site)
                .note("the address is understood and X/B/W/D/L names the width, but nothing connects it to a process image yet"@),
            ResolveError::MissingRequiredParameter { func, vars, call_span } =>
                {
                    let d = self.err(
                        "call to '"@ + func.name@ + "' is missing "@ + decimal(vars@.len()) + " required parameter"@
                            + (if vars@.len() > 1 { "s"@ } else { ""@ }) + ": "@ + join(quoted_names(vars@), ", "@),
                        *call_span,
                    );
                    let d = if any_in_section(vars@, VariableKind::Input) {
                        d.note("VAR_INPUT on FUNCTION/METHOD parameters must be supplied unless the declaration provides a scalar default value"@)
                    } else {
                        d
                    };
                    let d = if any_in_section(vars@, VariableKind::InOut) {
                        d.note("VAR_IN_OUT parameters bind to caller-side l-values and must always be supplied"@)
                    } else {
                        d
                    };
                    d.rels(parameter_locations(vars@))
                },
            ResolveError::InOutParameterRequiresLValue { func, var, expr } =>
                self.err("VAR_IN_OUT parameter '"@ + var.decl.name@ + "' of '"@ + func.name@ + "' requires a variable, not a value"@, *expr)
                .rel("parameter '"@ + var.decl.name@ + "' declared here"@, var.decl.file, var.decl.span)
                .note("VAR_IN_OUT binds the callee to the caller's storage by reference; a literal, expression, or call result has no address to bind"@),
            ResolveError::RetainInStatelessPou { var, retain, pou_kind } =>
                self.err(
                    "'"@ + var.decl.name@ + "' cannot be "@ + (if *retain { "RETAIN"@ } else { "NON_RETAIN"@ }) + ": a "@ + pou_kind@
                        + " is stateless"@,
                    var.decl.span,
                ).note("retentive behavior requires instance storage; only FUNCTION_BLOCK, CLASS, and PROGRAM variables (and VAR_GLOBAL) can be RETAIN/NON_RETAIN"@),
            ResolveError::InOutParameterBoundWithArrow { func, var, param } =>
                self.err("VAR_IN_OUT parameter '"@ + var.decl.name@ + "' of '"@ + func.name@ + "' cannot be bound with '=>'"@, param.span)
                .rel("parameter '"@ + var.decl.name@ + "' declared here"@, var.decl.file, var.decl.span)
                .note("VAR_IN_OUT is bound by reference at call entry: use "@ + var.decl.name@ + " := <variable>"@),
            ResolveError::AmbiguousOverload { call_span, name, candidates } =>
                self.err(
                    "call to '"@ + name@ + "' is ambiguous: "@ + decimal(candidates@.len())
                        + " overloads accept these arguments: disambiguate with an explicit cast"@,
                    *call_span,
                ).rels(candidate_locations(candidates@)),
            ResolveError::NoMatchingOverload { call_span, name, arg_types, candidates } =>
                self.err("no overload of '"@ + name@ + "' accepts ("@ + join(texts(arg_types@), ", "@) + ")"@, *call_span)
                    .rels(overload_locations(candidates@)),
        }
    }

    /// Renders the error as a diagnostic.
    #[verifier::rlimit(80)]
    pub fn to_diagnostic(&self) -> (d: Diagnostic)
        ensures
            d@ == self.spec_to_diagnostic(),
    {
        match self {
            ResolveError::ReturnsReferenceToLocal { var, site } => {
                let mut d = self.error_at(cat3("reference to '", var.decl.name.as_str(), "' outlives the call that owns it"), *site);
                d.with_related_at(cat3("'", var.decl.name.as_str(), "' is per-call storage, declared here"), var.decl.file, var.decl.span);
                d.with_note(String::from_str("return a reference to instance state, or to storage the caller owns (a VAR_IN_OUT)"));
                d
            },
            ResolveError::IncorrectNumberOfParameters { overloads, expected, actual, call_span, callable } => {
                let a = usize_to_string(*actual);
                let message = if *overloads > 1 {
                    cat6("no overload of '", callable.name.as_str(), "' takes ", a.as_str(), " parameter", if *actual == 1 { "" } else { "s" })
                } else {
                    let e = usize_to_string(*expected);
                    let head = cat6("'", callable.name.as_str(), "' expects ", e.as_str(), " parameter", if *expected == 1 { "" } else { "s" });
                    cat3(head.as_str(), ", but got ", a.as_str())
                };
                self.error_at(message, *call_span)
            },
            ResolveError::OutputParameterUsedAsInput { func, var, expr, param } => {
                let t1 = usize_to_string(*param);
                let mut d = self.error_at(cat3("output parameter at index '", t1.as_str(), "' cannot be used as input"), *expr);
                d.with_note(cat3("use formal syntax instead: ", var.decl.name.as_str(), " => <variable>"));
                d
            },
            ResolveError::UnknownInputParameter { func, param, hints } => {
                let mut d = self.error_at(cat3("unknown input parameter '", param.text.as_str(), "'"), param.span);
                d.with_notes(copy_texts(hints));
                d
            },
            ResolveError::UnknownOutputParameter { func, param, hints } => {
                let mut d = self.error_at(cat3("unknown output parameter '", param.text.as_str(), "'"), param.span);
                d.with_notes(copy_texts(hints));
                d
            },
            ResolveError::NoNamespaceItemFound { path, span, path_str, target, in_namespace, namespace_exists, results } => {
                let mut d = self.error_at(cat3("no item found for path '", path.as_str(), "'"), *span);
                let p = path_str.as_str();
                let t1 = cat7("namespace named '", p, "' exists but it cannot be used as an item, you can either:\n- Import the namespace via an USING directive: 'USING ", p, "'\n- Import an item from this namespace: '", p, ".<POU>'");
                if !*in_namespace {
                    d.with_notes(list_candidates(target.as_str(), results));
                    if *namespace_exists {
                        d.with_note(t1);
                    }
                } else if *namespace_exists {
                    d.with_note(t1);
                } else {
                    d.with_notes(list_candidates(path.as_str(), results));
                }
                d
            },
            ResolveError::NoItemInScope { ident, span, results } => {
                let quoted = debug_str(ident.as_str());
                let mut d = self.error_at(cat3("no item ", quoted.as_str(), " found in scope"), *span);
                d.with_notes(list_candidates(ident.as_str(), results));
                d
            },
            ResolveError::NoSuchFieldInitExpr { span, ident, ty, hints } => {
                let mut d = self.error_at(cat5("'", ty.as_str(), "' has no field named '", ident.as_str(), "'"), *span);
                d.with_notes(copy_texts(hints));
                d
            },
            ResolveError::NoSuchFieldPathExpr { span, ident, ty, hints } => {
                let mut d = self.error_at(cat5("'", ty.name.as_str(), "' has no field named '", ident.as_str(), "'"), *span);
                with_location(&mut d, ty);
                d.with_notes(copy_texts(hints));
                d
            },
            ResolveError::IndexNonArrayTypeInitExpr { span, ty } => {
                self.error_at(cat3("cannot index into type '", ty.as_str(), "'"), *span)
            },
            ResolveError::IndexNonArrayTypePathExpr { span, ty } => {
                self.error_at(cat3("cannot index into type '", ty.as_str(), "'"), *span)
            },
            ResolveError::DerefNonRefType { span, ty } => {
                self.error_at(cat3("cannot dereference non-reference type '", ty.as_str(), "'"), *span)
            },
            ResolveError::NoFieldOnElementaryType { span, ty } => {
                self.error_at(cat3("type '", ty.as_str(), "' is an elementary type and cannot be initiliazed with '()'"), *span)
            },
            ResolveError::FunctionAsType { span, ty } => {
                self.error_at(cat3("'", ty.as_str(), "' is a function and cannot be used as a variable or data type"), *span)
            },
            ResolveError::UsingNamespaceNotFound { span, path, results } => {
                let mut d = self.error_at(cat3("namespace '", path.as_str(), "' not found"), *span);
                d.with_notes(list_candidates(path.as_str(), results));
                d
            },
            ResolveError::NoConfigFileFound { root, workspace_folder } => {
                let mut d = Diagnostic::new(
                    String::from_str("no configuration file found"),
                    Some(Severity::Hint),
                    self.code(),
                    self.description(),
                    *root,
                );
                let tags = vec![Tag::Unnecessary];
                assert(tags@ =~= seq![Tag::Unnecessary]);
                d.with_tags(tags);
                d.with_note(cat3(
                    "a configuration file is required at the root of your workspace (inside '",
                    workspace_folder.as_str(),
                    "')",
                ));
                d
            },
            ResolveError::UnknownTaskRef { task } => {
                self.error_at(cat3("task '", task.text.as_str(), "' not found in this configuration"), task.span)
            },
            ResolveError::MultipleConfigurations { config, others } => {
                let count = u128_to_string(others.len() as u128 + 1);
                let mut d = self.error_at(cat2("a workspace can only have one CONFIGURATION; this one declares ", count.as_str()), config.name_span);
                d.with_related_all(configuration_locations_of(others));
                d
            },
            ResolveError::MultipleResources { config, names, span } => {
                let count = usize_to_string(names.len());
                let list = join_strings(names, ", ");
                self.error_at(cat5("a deployment drives one RESOURCE; this configuration declares ", count.as_str(), " (", list.as_str(), "); deploy one RESOURCE per runtime"), *span)
            },
            ResolveError::UnknownWasmInstruction { name, span } => {
                self.error_at(cat3("'", name.as_str(), "' is not a wasm instruction this compiler emits"), *span)
            },
            ResolveError::WasmPragmaOutsideFunction { span } => {
                self.error_at(String::from_str("a {wasm} body is only available on a FUNCTION; here the pragma would be silently dropped"), *span)
            },
            ResolveError::UnknownWasmOperand { name, span } => {
                self.error_at(cat3("'", name.as_str(), "' is not a parameter, a local or the return of this FUNCTION"), *span)
            },
            ResolveError::WasmSignatureMismatch { instruction, expected, actual, span } => {
                self.error_at(cat6("'", instruction.as_str(), "' takes ", expected.as_str(), "; this pragma gives it ", actual.as_str()), *span)
            },
            ResolveError::InvalidPriority { task, value } => {
                let mut d = self.error_at(cat5("task '", task.text.as_str(), "' has an unusable PRIORITY '", value.as_str(), "'"), task.span);
                d.with_note(String::from_str("PRIORITY must fit in a 32-bit unsigned integer; 0 is the most urgent"));
                d
            },
            ResolveError::ProgramWithoutTask { instance } => {
                self.error_at(cat3("program instance '", instance.text.as_str(), "' has no WITH <task>, so it will never run"), instance.span)
            },
            ResolveError::UnsupportedConfigElement { span, kind } => {
                let mut d = self.error_at(String::from_str(kind.message()), *span);
                d.with_note(String::from_str(kind.note()));
                d
            },
            ResolveError::UnschedulableTask { task, reason } => {
                let mut d = self.error_at(cat4("task '", task.text.as_str(), "' cannot be scheduled: ", reason.message()), task.span);
                match reason.note() {
                    Some(n) => d.with_note(String::from_str(n)),
                    None => {},
                }
                d
            },
            ResolveError::ExternalVarNotFound { var } => {
                self.error_at(cat3("external variable '", var.decl.name.as_str(), "' not found in any accessible VAR_GLOBAL"), var.decl.span)
            },
            ResolveError::ExternalVarTypeMismatch { var, external, global } => {
                let e = with_bounds(external);
                let g = with_bounds(global);
                self.error_at(
                    cat7("'", var.decl.name.as_str(), "' is declared '", e.as_str(), "' here but its VAR_GLOBAL is '", g.as_str(), "': an external must repeat the global's type exactly"),
                    var.decl.span,
                )
            },
            ResolveError::AccessDeclTypeMismatch { var_origin, spec_span, expected, actual } => {
                let mut d = self.error_at(cat5("access declaration expects '", expected.as_str(), "', but variable has type '", actual.as_str(), "'"), *spec_span);
                d.with_related_at(cat3("variable '", var_origin.decl.name.as_str(), "' is declared here"), var_origin.decl.file, var_origin.decl.name_span);
                d
            },
            ResolveError::ConfigInstInitUnknownInstance { instance_name } => {
                self.error_at(cat3("no program instance '", instance_name.text.as_str(), "' found in this configuration"), instance_name.span)
            },
            ResolveError::ConfigInstInitFieldNotFound { field, parent_type } => {
                self.error_at(cat5("'", parent_type.as_str(), "' has no field named '", field.text.as_str(), "'"), field.span)
            },
            ResolveError::NonVariadicTypeForVariable { var, typ } => {
                let mut d = self.error_at(cat5("variable '", var.decl.name.as_str(), "' is declared as variadic but has non-variadic type '", typ.as_str(), "'"), var.decl.span);
                d.with_note(String::from_str("only elementary types can be variadic"));
                d
            },
            ResolveError::VariadicNotInInput { var } => {
                let mut d = self.error_at(cat3("variadic variable '", var.decl.name.as_str(), "' must be declared in VAR_INPUT"), var.decl.span);
                d.with_note(String::from_str("variadic parameters are only allowed in VAR_INPUT sections"));
                d
            },
            ResolveError::MultipleVariadicVariables { first, second } => {
                let mut d = self.error_at(String::from_str("only one variadic variable is allowed per POU"), second.decl.span);
                d.with_related_at(cat3("first variadic variable '", first.decl.name.as_str(), "' declared here"), first.decl.file, first.decl.span);
                d
            },
            ResolveError::VariadicMixedWithOtherInputs { variadic_var, other_var } => {
                let mut d = self.error_at(cat3("variadic parameter '", variadic_var.decl.name.as_str(), "' must be the only VAR_INPUT parameter"), other_var.decl.span);
                d.with_related_at(cat3("variadic parameter '", variadic_var.decl.name.as_str(), "' declared here"), variadic_var.decl.file, variadic_var.decl.span);
                d.with_note(String::from_str("a variadic parameter must be the only parameter in VAR_INPUT"));
                d
            },
            ResolveError::EmptyVariadicCall { func, var, call_span } => {
                let mut d = self.error_at(cat5("call to '", func.name.as_str(), "' must pass at least one argument to variadic parameter '", var.decl.name.as_str(), "'"), *call_span);
                d.with_related_at(cat3("variadic parameter '", var.decl.name.as_str(), "' declared here"), var.decl.file, var.decl.span);
                d
            },
            ResolveError::MultipleItemsInScope { name, span, candidates } => {
                let mut d = self.error_at(cat3("multiple items named '", name.as_str(), "' available in scope"), *span);
                let (notes, rels) = ambiguity_of(name.as_str(), candidates);
                d.with_notes(notes);
                d.with_related_all(rels);
                d
            },
            ResolveError::MultibitsOutOfRange { span, var, offset, access_bits, max_offset, base_type } => {
                let message = match max_offset {
                    Some(max) => {
                        let o = usize_to_string(*offset);
                        let m = usize_to_string(*max);
                        cat7("offset ", o.as_str(), " is out of range for type '", base_type.as_str(), "' (valid range: 0..", m.as_str(), ")")
                    },
                    None => {
                        let b = usize_to_string(*access_bits);
                        cat5("a ", b.as_str(), "-bit access does not fit in type '", base_type.as_str(), "'")
                    },
                };
                let mut d = self.error_at(message, *span);
                match var {
                    Some(v) => d.with_related_at(cat3("'", v.decl.name.as_str(), "' is declared here"), v.decl.file, v.decl.span),
                    None => {},
                }
                d
            },
            ResolveError::UnknownMultibitsAccess { span, access } => {
                self.error_at(cat3("'%", access.as_str(), "' names no access size (expected X, B, W, D or L)"), *span)
            },
            ResolveError::ExternForbiddenSection { var, kind } => {
                let mut d = self.error_at(cat5(kind.section(), " '", var.decl.name.as_str(), "' ", kind.message()), var.decl.span);
                d.with_note(String::from_str(kind.note()));
                d
            },
            ResolveError::ExternNonScalarReturn { func, ret } => {
                self.error_at(cat3("the return type of '", func.name.as_str(), "' can only be a scalar"), *ret)
            },
            ResolveError::ExternWithBody { site } => {
                let mut d = self.error_at(String::from_str("an extern FUNCTION has no statements"), *site);
                d.with_note(String::from_str("FUNCTIONs marked with {extern} act as external calls, they can not have a body"));
                d
            },
            ResolveError::ExternOutsideFunction { anchor, pou_kind } => {
                let mut d = self.error_at(cat2("an {extern} pragma cannot be placed on a ", pou_kind.as_str()), anchor.span);
                d.with_note(String::from_str("{extern} pragmas can ony be used with FUNCTION"));
                d
            },
            ResolveError::TestOutsideFunction { anchor, pou_kind } => {
                self.error_at(cat2("a {test} pragma cannot be placed on a ", pou_kind.as_str()), anchor.span)
            },
            ResolveError::DirectVariableUnsupported { site, address } => {
                let mut d = self.error_at(cat3("'", address.as_str(), "' cannot be read or written: there is no I/O mapping"), *site);
                d.with_note(String::from_str("the address is understood and X/B/W/D/L names the width, but nothing connects it to a process image yet"));
                d
            },
            ResolveError::MissingRequiredParameter { func, vars, call_span } => {
                let (names, rels, any_input, any_in_out) = parameters_of(vars);
                let joined = join_strings(&names, ", ");
                let count = usize_to_string(vars.len());
                let head = cat7("call to '", func.name.as_str(), "' is missing ", count.as_str(), " required parameter", if vars.len() > 1 { "s" } else { "" }, ": ");
                let mut d = self.error_at(cat2(head.as_str(), joined.as_str()), *call_span);
                if any_input {
                    d.with_note(String::from_str("VAR_INPUT on FUNCTION/METHOD parameters must be supplied unless the declaration provides a scalar default value"));
                }
                if any_in_out {
                    d.with_note(String::from_str("VAR_IN_OUT parameters bind to caller-side l-values and must always be supplied"));
                }
                d.with_related_all(rels);
                d
            },
            ResolveError::InOutParameterRequiresLValue { func, var, expr } => {
                let mut d = self.error_at(cat5("VAR_IN_OUT parameter '", var.decl.name.as_str(), "' of '", func.name.as_str(), "' requires a variable, not a value"), *expr);
                d.with_related_at(cat3("parameter '", var.decl.name.as_str(), "' declared here"), var.decl.file, var.decl.span);
                d.with_note(String::from_str("VAR_IN_OUT binds the callee to the caller's storage by reference; a literal, expression, or call result has no address to bind"));
                d
            },
            ResolveError::RetainInStatelessPou { var, retain, pou_kind } => {
                let mut d = self.error_at(
                    cat7("'", var.decl.name.as_str(), "' cannot be ", if *retain { "RETAIN" } else { "NON_RETAIN" }, ": a ", pou_kind.as_str(), " is stateless"),
                    var.decl.span,
                );
                d.with_note(String::from_str("retentive behavior requires instance storage; only FUNCTION_BLOCK, CLASS, and PROGRAM variables (and VAR_GLOBAL) can be RETAIN/NON_RETAIN"));
                d
            },
            ResolveError::InOutParameterBoundWithArrow { func, var, param } => {
                let mut d = self.error_at(cat5("VAR_IN_OUT parameter '", var.decl.name.as_str(), "' of '", func.name.as_str(), "' cannot be bound with '=>'"), param.span);
                d.with_related_at(cat3("parameter '", var.decl.name.as_str(), "' declared here"), var.decl.file, var.decl.span);
                d.with_note(cat3("VAR_IN_OUT is bound by reference at call entry: use ", var.decl.name.as_str(), " := <variable>"));
                d
            },
            ResolveError::AmbiguousOverload { call_span, name, candidates } => {
                let count = usize_to_string(candidates.len());
                let mut d = self.error_at(
                    cat5("call to '", name.as_str(), "' is ambiguous: ", count.as_str(), " overloads accept these arguments: disambiguate with an explicit cast"),
                    *call_span,
                );
                d.with_related_all(candidate_locations_of(candidates));
                d
            },
            ResolveError::NoMatchingOverload { call_span, name, arg_types, candidates } => {
                let list = join_strings(arg_types, ", ");
                let mut d = self.error_at(cat5("no overload of '", name.as_str(), "' accepts (", list.as_str(), ")"), *call_span);
                d.with_related_all(overload_locations_of(candidates));
                d
            },
        }
    }

}
/// An ambiguous name renders the same diagnostic whatever the order in which
/// its candidates were found, as long as no two different candidates of one
/// namespace start at the same place of the same file.
pub proof fn lemma_ambiguous_name_order_free(name: String, span: Span, cs1: Vec<ScopedPou>, cs2: Vec<ScopedPou>)
    requires
        cs1@.to_multiset() == cs2@.to_multiset(),
        distinct_places(cs1@),
    ensures
        (ResolveError::MultipleItemsInScope { name: name, span: span, candidates: cs1 }).spec_to_diagnostic()
            == (ResolveError::MultipleItemsInScope { name: name, span: span, candidates: cs2 }).spec_to_diagnostic(),
{
    lemma_ambiguity_order_free(name@, cs1@, cs2@);
}

/// Each kind of `ResolveError` is reported at the span of what it concerns, with
/// its message and severity, whatever names, spans and texts it holds; a
/// kind whose diagnostic is built directly also carries exactly the
/// related locations, notes, tags, source and quick fixes listed.
pub proof fn law_resolve_error_rendering(this: ResolveError)
    ensures
        match this {
            ResolveError::ReturnsReferenceToLocal { var, site } => {
                let d = this.spec_to_diagnostic();
                &&& d.message == "reference to '"@ + var.decl.name@ + "' outlives the call that owns it"@
                &&& d.span == site
                &&& d.severity == Some(Severity::Error)
                &&& d.related == Seq::<RelatedView>::empty().push(RelatedView { message: "'"@ + var.decl.name@ + "' is per-call storage, declared here"@, file: var.decl.file, span: var.decl.span })
                &&& d.notes == Seq::<Seq<char>>::empty().push("return a reference to instance state, or to storage the caller owns (a VAR_IN_OUT)"@)
                &&& d.tags == Seq::<Tag>::empty()
                &&& d.source == None::<Seq<char>>
                &&& d.fixes == Seq::<FixView>::empty()
            },
            ResolveError::IncorrectNumberOfParameters { overloads, expected, actual, call_span, callable } => {
                let d = this.spec_to_diagnostic();
                &&& d.message == if overloads > 1 { "no overload of '"@ + callable.name@ + "' takes "@ + decimal(actual as nat) + " parameter"@ + plural(actual as nat) } else { "'"@ + callable.name@ + "' expects "@ + decimal(expected as nat) + " parameter"@ + plural( expected as nat, ) + ", but got "@ + decimal(actual as nat) }
                &&& d.span == call_span
                &&& d.severity == Some(Severity::Error)
                &&& d.related == Seq::<RelatedView>::empty()
                &&& d.notes == Seq::<Seq<char>>::empty()
                &&& d.tags == Seq::<Tag>::empty()
                &&& d.source == None::<Seq<char>>
                &&& d.fixes == Seq::<FixView>::empty()
            },
            ResolveError::OutputParameterUsedAsInput { func, var, expr, param } => {
                let d = this.spec_to_diagnostic();
                &&& d.message == "output parameter at index '"@ + decimal(param as nat) + "' cannot be used as input"@
                &&& d.span == expr
                &&& d.severity == Some(Severity::Error)
                &&& d.related == Seq::<RelatedView>::empty()
                &&& d.notes == Seq::<Seq<char>>::empty().push("use formal syntax instead: "@ + var.decl.name@ + " => <variable>"@)
                &&& d.tags == Seq::<Tag>::empty()
                &&& d.source == None::<Seq<char>>
                &&& d.fixes == Seq::<FixView>::empty()
            },
            ResolveError::UnknownInputParameter { func, param, hints } => {
                let d = this.spec_to_diagnostic();
                &&& d.message == "unknown input parameter '"@ + param.text@ + "'"@
                &&& d.span == param.span
                &&& d.severity == Some(Severity::Error)
                &&& d.related == Seq::<RelatedView>::empty()
                &&& d.notes == (Seq::<Seq<char>>::empty() + texts(hints@))
                &&& d.tags == Seq::<Tag>::empty()
                &&& d.source == None::<Seq<char>>
                &&& d.fixes == Seq::<FixView>::empty()
            },
            ResolveError::UnknownOutputParameter { func, param, hints } => {
                let d = this.spec_to_diagnostic();
                &&& d.message == "unknown output parameter '"@ + param.text@ + "'"@
                &&& d.span == param.span
                &&& d.severity == Some(Severity::Error)
                &&& d.related == Seq::<RelatedView>::empty()
                &&& d.notes == (Seq::<Seq<char>>::empty() + texts(hints@))
                &&& d.tags == Seq::<Tag>::empty()
                &&& d.source == None::<Seq<char>>
                &&& d.fixes == Seq::<FixView>::empty()
            },
            ResolveError::NoNamespaceItemFound { path, span, path_str, target, in_namespace, namespace_exists, results } => {
                let d = this.spec_to_diagnostic();
                &&& d.message == "no item found for path '"@ + path@ + "'"@
                &&& d.span == span
                &&& d.severity == Some(Severity::Error)
            },
            ResolveError::NoItemInScope { ident, span, results } => {
                let d = this.spec_to_diagnostic();
                &&& d.message == "no item "@ + debug_text(ident@) + " found in scope"@
                &&& d.span == span
                &&& d.severity == Some(Severity::Error)
                &&& d.related == Seq::<RelatedView>::empty()
                &&& d.notes == (Seq::<Seq<char>>::empty() + candidate_notes(ident@, results))
                &&& d.tags == Seq::<Tag>::empty()
                &&& d.source == None::<Seq<char>>
                &&& d.fixes == Seq::<FixView>::empty()
            },
            ResolveError::NoSuchFieldInitExpr { span, ident, ty, hints } => {
                let d = this.spec_to_diagnostic();
                &&& d.message == "'"@ + ty@ + "' has no field named '"@ + ident@ + "'"@
                &&& d.span == span
                &&& d.severity == Some(Severity::Error)
                &&& d.related == Seq::<RelatedView>::empty()
                &&& d.notes == (Seq::<Seq<char>>::empty() + texts(hints@))
                &&& d.tags == Seq::<Tag>::empty()
                &&& d.source == None::<Seq<char>>
                &&& d.fixes == Seq::<FixView>::empty()
            },
            ResolveError::NoSuchFieldPathExpr { span, ident, ty, hints } => {
                let d = this.spec_to_diagnostic();
                &&& d.message == "'"@ + ty.name@ + "' has no field named '"@ + ident@ + "'"@
                &&& d.span == span
                &&& d.severity == Some(Severity::Error)
                &&& d.related == (Seq::<RelatedView>::empty() + match ty@.location { Some(r) => seq![r], None => Seq::<RelatedView>::empty() })
                &&& d.notes == (Seq::<Seq<char>>::empty() + texts(hints@))
                &&& d.tags == Seq::<Tag>::empty()
                &&& d.source == None::<Seq<char>>
                &&& d.fixes == Seq::<FixView>::empty()
            },
            ResolveError::IndexNonArrayTypeInitExpr { span, ty } => {
                let d = this.spec_to_diagnostic();
                &&& d.message == "cannot index into type '"@ + ty@ + "'"@
                &&& d.span == span
                &&& d.severity == Some(Severity::Error)
                &&& d.related == Seq::<RelatedView>::empty()
                &&& d.notes == Seq::<Seq<char>>::empty()
                &&& d.tags == Seq::<Tag>::empty()
                &&& d.source == None::<Seq<char>>
                &&& d.fixes == Seq::<FixView>::empty()
            },
            ResolveError::IndexNonArrayTypePathExpr { span, ty } => {
                let d = this.spec_to_diagnostic();
                &&& d.message == "cannot index into type '"@ + ty@ + "'"@
                &&& d.span == span
                &&& d.severity == Some(Severity::Error)
                &&& d.related == Seq::<RelatedView>::empty()
                &&& d.notes == Seq::<Seq<char>>::empty()
                &&& d.tags == Seq::<Tag>::empty()
                &&& d.source == None::<Seq<char>>
                &&& d.fixes == Seq::<FixView>::empty()
            },
            ResolveError::DerefNonRefType { span, ty } => {
                let d = this.spec_to_diagnostic();
                &&& d.message == "cannot dereference non-reference type '"@ + ty@ + "'"@
                &&& d.span == span
                &&& d.severity == Some(Severity::Error)
                &&& d.related == Seq::<RelatedView>::empty()
                &&& d.notes == Seq::<Seq<char>>::empty()
                &&& d.tags == Seq::<Tag>::empty()
                &&& d.source == None::<Seq<char>>
                &&& d.fixes == Seq::<FixView>::empty()
            },
            ResolveError::NoFieldOnElementaryType { span, ty } => {
                let d = this.spec_to_diagnostic();
                &&& d.message == "type '"@ + ty@ + "' is an elementary type and cannot be initiliazed with '()'"@
                &&& d.span == span
                &&& d.severity == Some(Severity::Error)
                &&& d.related == Seq::<RelatedView>::empty()
                &&& d.notes == Seq::<Seq<char>>::empty()
                &&& d.tags == Seq::<Tag>::empty()
                &&& d.source == None::<Seq<char>>
                &&& d.fixes == Seq::<FixView>::empty()
            },
            ResolveError::FunctionAsType { span, ty } => {
                let d = this.spec_to_diagnostic();
                &&& d.message == "'"@ + ty@ + "' is a function and cannot be used as a variable or data type"@
                &&& d.span == span
                &&& d.severity == Some(Severity::Error)
                &&& d.related == Seq::<RelatedView>::empty()
                &&& d.notes == Seq::<Seq<char>>::empty()
                &&& d.tags == Seq::<Tag>::empty()
                &&& d.source == None::<Seq<char>>
                &&& d.fixes == Seq::<FixView>::empty()
            },
            ResolveError::UsingNamespaceNotFound { span, path, results } => {
                let d = this.spec_to_diagnostic();
                &&& d.message == "namespace '"@ + path@ + "' not found"@
                &&& d.span == span
                &&& d.severity == Some(Severity::Error)
                &&& d.related == Seq::<RelatedView>::empty()
                &&& d.notes == (Seq::<Seq<char>>::empty() + candidate_notes(path@, results))
                &&& d.tags == Seq::<Tag>::empty()
                &&& d.source == None::<Seq<char>>
                &&& d.fixes == Seq::<FixView>::empty()
            },
            ResolveError::NoConfigFileFound { root, workspace_folder } => {
                let d = this.spec_to_diagnostic();
                &&& d.message == "no configuration file found"@
                &&& d.span == root
                &&& d.severity == Some(Severity::Hint)
                &&& d.related == Seq::<RelatedView>::empty()
                &&& d.notes == Seq::<Seq<char>>::empty().push("a configuration file is required at the root of your workspace (inside '"@ + workspace_folder@ + "')"@)
                &&& d.tags == seq![Tag::Unnecessary]
                &&& d.source == None::<Seq<char>>
                &&& d.fixes == Seq::<FixView>::empty()
            },
            ResolveError::UnknownTaskRef { task } => {
                let d = this.spec_to_diagnostic();
                &&& d.message == "task '"@ + task.text@ + "' not found in this configuration"@
                &&& d.span == task.span
                &&& d.severity == Some(Severity::Error)
                &&& d.related == Seq::<RelatedView>::empty()
                &&& d.notes == Seq::<Seq<char>>::empty()
                &&& d.tags == Seq::<Tag>::empty()
                &&& d.source == None::<Seq<char>>
                &&& d.fixes == Seq::<FixView>::empty()
            },
            ResolveError::MultipleConfigurations { config, others } => {
                let d = this.spec_to_diagnostic();
                &&& d.message == "a workspace can only have one CONFIGURATION; this one declares "@ + decimal(others@.len() + 1)
                &&& d.span == config.name_span
                &&& d.severity == Some(Severity::Error)
                &&& d.related == (Seq::<RelatedView>::empty() + configuration_locations(others@))
                &&& d.notes == Seq::<Seq<char>>::empty()
                &&& d.tags == Seq::<Tag>::empty()
                &&& d.source == None::<Seq<char>>
                &&& d.fixes == Seq::<FixView>::empty()
            },
            ResolveError::MultipleResources { config, names, span } => {
                let d = this.spec_to_diagnostic();
                &&& d.message == "a deployment drives one RESOURCE; this configuration declares "@ + decimal(names@.len()) + " ("@ + join(texts(names@), ", "@) + "); deploy one RESOURCE per runtime"@
                &&& d.span == span
                &&& d.severity == Some(Severity::Error)
                &&& d.related == Seq::<RelatedView>::empty()
                &&& d.notes == Seq::<Seq<char>>::empty()
                &&& d.tags == Seq::<Tag>::empty()
                &&& d.source == None::<Seq<char>>
                &&& d.fixes == Seq::<FixView>::empty()
            },
            ResolveError::UnknownWasmInstruction { name, span } => {
                let d = this.spec_to_diagnostic();
                &&& d.message == "'"@ + name@ + "' is not a wasm instruction this compiler emits"@
                &&& d.span == span
                &&& d.severity == Some(Severity::Error)
                &&& d.related == Seq::<RelatedView>::empty()
                &&& d.notes == Seq::<Seq<char>>::empty()
                &&& d.tags == Seq::<Tag>::empty()
                &&& d.source == None::<Seq<char>>
                &&& d.fixes == Seq::<FixView>::empty()
            },
            ResolveError::WasmPragmaOutsideFunction { span } => {
                let d = this.spec_to_diagnostic();
                &&& d.message == "a {wasm} body is only available on a FUNCTION; here the pragma would be silently dropped"@
                &&& d.span == span
                &&& d.severity == Some(Severity::Error)
                &&& d.related == Seq::<RelatedView>::empty()
                &&& d.notes == Seq::<Seq<char>>::empty()
                &&& d.tags == Seq::<Tag>::empty()
                &&& d.source == None::<Seq<char>>
                &&& d.fixes == Seq::<FixView>::empty()
            },
            ResolveError::UnknownWasmOperand { name, span } => {
                let d = this.spec_to_diagnostic();
                &&& d.message == "'"@ + name@ + "' is not a parameter, a local or the return of this FUNCTION"@
                &&& d.span == span
                &&& d.severity == Some(Severity::Error)
                &&& d.related == Seq::<RelatedView>::empty()
                &&& d.notes == Seq::<Seq<char>>::empty()
                &&& d.tags == Seq::<Tag>::empty()
                &&& d.source == None::<Seq<char>>
                &&& d.fixes == Seq::<FixView>::empty()
            },
            ResolveError::WasmSignatureMismatch { instruction, expected, actual, span } => {
                let d = this.spec_to_diagnostic();
                &&& d.message == "'"@ + instruction@ + "' takes "@ + expected@ + "; this pragma gives it "@ + actual@
                &&& d.span == span
                &&& d.severity == Some(Severity::Error)
                &&& d.related == Seq::<RelatedView>::empty()
                &&& d.notes == Seq::<Seq<char>>::empty()
                &&& d.tags == Seq::<Tag>::empty()
                &&& d.source == None::<Seq<char>>
                &&& d.fixes == Seq::<FixView>::empty()
            },
            ResolveError::InvalidPriority { task, value } => {
                let d = this.spec_to_diagnostic();
                &&& d.message == "task '"@ + task.text@ + "' has an unusable PRIORITY '"@ + value@ + "'"@
                &&& d.span == task.span
                &&& d.severity == Some(Severity::Error)
                &&& d.related == Seq::<RelatedView>::empty()
                &&& d.notes == Seq::<Seq<char>>::empty().push("PRIORITY must fit in a 32-bit unsigned integer; 0 is the most urgent"@)
                &&& d.tags == Seq::<Tag>::empty()
                &&& d.source == None::<Seq<char>>
                &&& d.fixes == Seq::<FixView>::empty()
            },
            ResolveError::ProgramWithoutTask { instance } => {
                let d = this.spec_to_diagnostic();
                &&& d.message == "program instance '"@ + instance.text@ + "' has no WITH <task>, so it will never run"@
                &&& d.span == instance.span
                &&& d.severity == Some(Severity::Error)
                &&& d.related == Seq::<RelatedView>::empty()
                &&& d.notes == Seq::<Seq<char>>::empty()
                &&& d.tags == Seq::<Tag>::empty()
                &&& d.source == None::<Seq<char>>
                &&& d.fixes == Seq::<FixView>::empty()
            },
            ResolveError::UnsupportedConfigElement { span, kind } => {
                let d = this.spec_to_diagnostic();
                &&& d.message == kind.spec_message()
                &&& d.span == span
                &&& d.severity == Some(Severity::Error)
                &&& d.related == Seq::<RelatedView>::empty()
                &&& d.notes == Seq::<Seq<char>>::empty().push(kind.spec_note())
                &&& d.tags == Seq::<Tag>::empty()
                &&& d.source == None::<Seq<char>>
                &&& d.fixes == Seq::<FixView>::empty()
            },
            ResolveError::UnschedulableTask { task, reason } => {
                let d = this.spec_to_diagnostic();
                &&& d.message == "task '"@ + task.text@ + "' cannot be scheduled: "@ + reason.spec_message()
                &&& d.span == task.span
                &&& d.severity == Some(Severity::Error)
            },
            ResolveError::ExternalVarNotFound { var } => {
                let d = this.spec_to_diagnostic();
                &&& d.message == "external variable '"@ + var.decl.name@ + "' not found in any accessible VAR_GLOBAL"@
                &&& d.span == var.decl.span
                &&& d.severity == Some(Severity::Error)
                &&& d.related == Seq::<RelatedView>::empty()
                &&& d.notes == Seq::<Seq<char>>::empty()
                &&& d.tags == Seq::<Tag>::empty()
                &&& d.source == None::<Seq<char>>
                &&& d.fixes == Seq::<FixView>::empty()
            },
            ResolveError::ExternalVarTypeMismatch { var, external, global } => {
                let d = this.spec_to_diagnostic();
                &&& d.message == "'"@ + var.decl.name@ + "' is declared '"@ + spec_with_bounds(external) + "' here but its VAR_GLOBAL is '"@ + spec_with_bounds(global) + "': an external must repeat the global's type exactly"@
                &&& d.span == var.decl.span
                &&& d.severity == Some(Severity::Error)
                &&& d.related == Seq::<RelatedView>::empty()
                &&& d.notes == Seq::<Seq<char>>::empty()
                &&& d.tags == Seq::<Tag>::empty()
                &&& d.source == None::<Seq<char>>
                &&& d.fixes == Seq::<FixView>::empty()
            },
            ResolveError::AccessDeclTypeMismatch { var_origin, spec_span, expected, actual } => {
                let d = this.spec_to_diagnostic();
                &&& d.message == "access declaration expects '"@ + expected@ + "', but variable has type '"@ + actual@ + "'"@
                &&& d.span == spec_span
                &&& d.severity == Some(Severity::Error)
                &&& d.related == Seq::<RelatedView>::empty().push(RelatedView { message: "variable '"@ + var_origin.decl.name@ + "' is declared here"@, file: var_origin.decl.file, span: var_origin.decl.name_span })
                &&& d.notes == Seq::<Seq<char>>::empty()
                &&& d.tags == Seq::<Tag>::empty()
                &&& d.source == None::<Seq<char>>
                &&& d.fixes == Seq::<FixView>::empty()
            },
            ResolveError::ConfigInstInitUnknownInstance { instance_name } => {
                let d = this.spec_to_diagnostic();
                &&& d.message == "no program instance '"@ + instance_name.text@ + "' found in this configuration"@
                &&& d.span == instance_name.span
                &&& d.severity == Some(Severity::Error)
                &&& d.related == Seq::<RelatedView>::empty()
                &&& d.notes == Seq::<Seq<char>>::empty()
                &&& d.tags == Seq::<Tag>::empty()
                &&& d.source == None::<Seq<char>>
                &&& d.fixes == Seq::<FixView>::empty()
            },
            ResolveError::ConfigInstInitFieldNotFound { field, parent_type } => {
                let d = this.spec_to_diagnostic();
                &&& d.message == "'"@ + parent_type@ + "' has no field named '"@ + field.text@ + "'"@
                &&& d.span == field.span
                &&& d.severity == Some(Severity::Error)
                &&& d.related == Seq::<RelatedView>::empty()
                &&& d.notes == Seq::<Seq<char>>::empty()
                &&& d.tags == Seq::<Tag>::empty()
                &&& d.source == None::<Seq<char>>
                &&& d.fixes == Seq::<FixView>::empty()
            },
            ResolveError::NonVariadicTypeForVariable { var, typ } => {
                let d = this.spec_to_diagnostic();
                &&& d.message == "variable '"@ + var.decl.name@ + "' is declared as variadic but has non-variadic type '"@ + typ@ + "'"@
                &&& d.span == var.decl.span
                &&& d.severity == Some(Severity::Error)
                &&& d.related == Seq::<RelatedView>::empty()
                &&& d.notes == Seq::<Seq<char>>::empty().push("only elementary types can be variadic"@)
                &&& d.tags == Seq::<Tag>::empty()
                &&& d.source == None::<Seq<char>>
                &&& d.fixes == Seq::<FixView>::empty()
            },
            ResolveError::VariadicNotInInput { var } => {
                let d = this.spec_to_diagnostic();
                &&& d.message == "variadic variable '"@ + var.decl.name@ + "' must be declared in VAR_INPUT"@
                &&& d.span == var.decl.span
                &&& d.severity == Some(Severity::Error)
                &&& d.related == Seq::<RelatedView>::empty()
                &&& d.notes == Seq::<Seq<char>>::empty().push("variadic parameters are only allowed in VAR_INPUT sections"@)
                &&& d.tags == Seq::<Tag>::empty()
                &&& d.source == None::<Seq<char>>
                &&& d.fixes == Seq::<FixView>::empty()
            },
            ResolveError::MultipleVariadicVariables { first, second } => {
                let d = this.spec_to_diagnostic();
                &&& d.message == "only one variadic variable is allowed per POU"@
                &&& d.span == second.decl.span
                &&& d.severity == Some(Severity::Error)
                &&& d.related == Seq::<RelatedView>::empty().push(RelatedView { message: "first variadic variable '"@ + first.decl.name@ + "' declared here"@, file: first.decl.file, span: first.decl.span })
                &&& d.notes == Seq::<Seq<char>>::empty()
                &&& d.tags == Seq::<Tag>::empty()
                &&& d.source == None::<Seq<char>>
                &&& d.fixes == Seq::<FixView>::empty()
            },
            ResolveError::VariadicMixedWithOtherInputs { variadic_var, other_var } => {
                let d = this.spec_to_diagnostic();
                &&& d.message == "variadic parameter '"@ + variadic_var.decl.name@ + "' must be the only VAR_INPUT parameter"@
                &&& d.span == other_var.decl.span
                &&& d.severity == Some(Severity::Error)
                &&& d.related == Seq::<RelatedView>::empty().push(RelatedView { message: "variadic parameter '"@ + variadic_var.decl.name@ + "' declared here"@, file: variadic_var.decl.file, span: variadic_var.decl.span })
                &&& d.notes == Seq::<Seq<char>>::empty().push("a variadic parameter must be the only parameter in VAR_INPUT"@)
                &&& d.tags == Seq::<Tag>::empty()
                &&& d.source == None::<Seq<char>>
                &&& d.fixes == Seq::<FixView>::empty()
            },
            ResolveError::EmptyVariadicCall { func, var, call_span } => {
                let d = this.spec_to_diagnostic();
                &&& d.message == "call to '"@ + func.name@ + "' must pass at least one argument to variadic parameter '"@ + var.decl.name@ + "'"@
                &&& d.span == call_span
                &&& d.severity == Some(Severity::Error)
                &&& d.related == Seq::<RelatedView>::empty().push(RelatedView { message: "variadic parameter '"@ + var.decl.name@ + "' declared here"@, file: var.decl.file, span: var.decl.span })
                &&& d.notes == Seq::<Seq<char>>::empty()
                &&& d.tags == Seq::<Tag>::empty()
                &&& d.source == None::<Seq<char>>
                &&& d.fixes == Seq::<FixView>::empty()
            },
            ResolveError::MultipleItemsInScope { name, span, candidates } => {
                let d = this.spec_to_diagnostic();
                &&& d.message == "multiple items named '"@ + name@ + "' available in scope"@
                &&& d.span == span
                &&& d.severity == Some(Severity::Error)
                &&& d.related == (Seq::<RelatedView>::empty() + duplicate_locations(name@, candidates@, duplicated_namespaces(candidates@)))
                &&& d.notes == (Seq::<Seq<char>>::empty() + ambiguity_notes(name@, candidates@))
                &&& d.tags == Seq::<Tag>::empty()
                &&& d.source == None::<Seq<char>>
                &&& d.fixes == Seq::<FixView>::empty()
            },
            ResolveError::MultibitsOutOfRange { span, var, offset, access_bits, max_offset, base_type } => {
                let d = this.spec_to_diagnostic();
                &&& d.message == match max_offset { Some(max) => "offset "@ + decimal(offset as nat) + " is out of range for type '"@ + base_type@ + "' (valid range: 0.."@ + decimal(max as nat) + ")"@, None => "a "@ + decimal(access_bits as nat) + "-bit access does not fit in type '"@ + base_type@ + "'"@, }
                &&& d.span == span
                &&& d.severity == Some(Severity::Error)
            },
            ResolveError::UnknownMultibitsAccess { span, access } => {
                let d = this.spec_to_diagnostic();
                &&& d.message == "'%"@ + access@ + "' names no access size (expected X, B, W, D or L)"@
                &&& d.span == span
                &&& d.severity == Some(Severity::Error)
                &&& d.related == Seq::<RelatedView>::empty()
                &&& d.notes == Seq::<Seq<char>>::empty()
                &&& d.tags == Seq::<Tag>::empty()
                &&& d.source == None::<Seq<char>>
                &&& d.fixes == Seq::<FixView>::empty()
            },
            ResolveError::ExternForbiddenSection { var, kind } => {
                let d = this.spec_to_diagnostic();
                &&& d.message == kind.spec_section() + " '"@ + var.decl.name@ + "' "@ + kind.spec_message()
                &&& d.span == var.decl.span
                &&& d.severity == Some(Severity::Error)
                &&& d.related == Seq::<RelatedView>::empty()
                &&& d.notes == Seq::<Seq<char>>::empty().push(kind.spec_note())
                &&& d.tags == Seq::<Tag>::empty()
                &&& d.source == None::<Seq<char>>
                &&& d.fixes == Seq::<FixView>::empty()
            },
            ResolveError::ExternNonScalarReturn { func, ret } => {
                let d = this.spec_to_diagnostic();
                &&& d.message == "the return type of '"@ + func.name@ + "' can only be a scalar"@
                &&& d.span == ret
                &&& d.severity == Some(Severity::Error)
                &&& d.related == Seq::<RelatedView>::empty()
                &&& d.notes == Seq::<Seq<char>>::empty()
                &&& d.tags == Seq::<Tag>::empty()
                &&& d.source == None::<Seq<char>>
                &&& d.fixes == Seq::<FixView>::empty()
            },
            ResolveError::ExternWithBody { site } => {
                let d = this.spec_to_diagnostic();
                &&& d.message == "an extern FUNCTION has no statements"@
                &&& d.span == site
                &&& d.severity == Some(Severity::Error)
                &&& d.related == Seq::<RelatedView>::empty()
                &&& d.notes == Seq::<Seq<char>>::empty().push("FUNCTIONs marked with {extern} act as external calls, they can not have a body"@)
                &&& d.tags == Seq::<Tag>::empty()
                &&& d.source == None::<Seq<char>>
                &&& d.fixes == Seq::<FixView>::empty()
            },
            ResolveError::ExternOutsideFunction { anchor, pou_kind } => {
                let d = this.spec_to_diagnostic();
                &&& d.message == "an {extern} pragma cannot be placed on a "@ + pou_kind@
                &&& d.span == anchor.span
                &&& d.severity == Some(Severity::Error)
                &&& d.related == Seq::<RelatedView>::empty()
                &&& d.notes == Seq::<Seq<char>>::empty().push("{extern} pragmas can ony be used with FUNCTION"@)
                &&& d.tags == Seq::<Tag>::empty()
                &&& d.source == None::<Seq<char>>
                &&& d.fixes == Seq::<FixView>::empty()
            },
            ResolveError::TestOutsideFunction { anchor, pou_kind } => {
                let d = this.spec_to_diagnostic();
                &&& d.message == "a {test} pragma cannot be placed on a "@ + pou_kind@
                &&& d.span == anchor.span
                &&& d.severity == Some(Severity::Error)
                &&& d.related == Seq::<RelatedView>::empty()
                &&& d.notes == Seq::<Seq<char>>::empty()
                &&& d.tags == Seq::<Tag>::empty()
                &&& d.source == None::<Seq<char>>
                &&& d.fixes == Seq::<FixView>::empty()
            },
            ResolveError::DirectVariableUnsupported { site, address } => {
                let d = this.spec_to_diagnostic();
                &&& d.message == "'"@ + address@ + "' cannot be read or written: there is no I/O mapping"@
                &&& d.span == site
                &&& d.severity == Some(Severity::Error)
                &&& d.related == Seq::<RelatedView>::empty()
                &&& d.notes == Seq::<Seq<char>>::empty().push("the address is understood and X/B/W/D/L names the width, but nothing connects it to a process image yet"@)
                &&& d.tags == Seq::<Tag>::empty()
                &&& d.source == None::<Seq<char>>
                &&& d.fixes == Seq::<FixView>::empty()
            },
            ResolveError::MissingRequiredParameter { func, vars, call_span } => {
                let d = this.spec_to_diagnostic();
                &&& d.message == "call to '"@ + func.name@ + "' is missing "@ + decimal(vars@.len()) + " required parameter"@ + (if vars@.len() > 1 { "s"@ } else { ""@ }) + ": "@ + join(quoted_names(vars@), ", "@)
                &&& d.span == call_span
                &&& d.severity == Some(Severity::Error)
            },
            ResolveError::InOutParameterRequiresLValue { func, var, expr } => {
                let d = this.spec_to_diagnostic();
                &&& d.message == "VAR_IN_OUT parameter '"@ + var.decl.name@ + "' of '"@ + func.name@ + "' requires a variable, not a value"@
                &&& d.span == expr
                &&& d.severity == Some(Severity::Error)
                &&& d.related == Seq::<RelatedView>::empty().push(RelatedView { message: "parameter '"@ + var.decl.name@ + "' declared here"@, file: var.decl.file, span: var.decl.span })
                &&& d.notes == Seq::<Seq<char>>::empty().push("VAR_IN_OUT binds the callee to the caller's storage by reference; a literal, expression, or call result has no address to bind"@)
                &&& d.tags == Seq::<Tag>::empty()
                &&& d.source == None::<Seq<char>>
                &&& d.fixes == Seq::<FixView>::empty()
            },
            ResolveError::RetainInStatelessPou { var, retain, pou_kind } => {
                let d = this.spec_to_diagnostic();
                &&& d.message == "'"@ + var.decl.name@ + "' cannot be "@ + (if retain { "RETAIN"@ } else { "NON_RETAIN"@ }) + ": a "@ + pou_kind@ + " is stateless"@
                &&& d.span == var.decl.span
                &&& d.severity == Some(Severity::Error)
                &&& d.related == Seq::<RelatedView>::empty()
                &&& d.notes == Seq::<Seq<char>>::empty().push("retentive behavior requires instance storage; only FUNCTION_BLOCK, CLASS, and PROGRAM variables (and VAR_GLOBAL) can be RETAIN/NON_RETAIN"@)
                &&& d.tags == Seq::<Tag>::empty()
                &&& d.source == None::<Seq<char>>
                &&& d.fixes == Seq::<FixView>::empty()
            },
            ResolveError::InOutParameterBoundWithArrow { func, var, param } => {
                let d = this.spec_to_diagnostic();
                &&& d.message == "VAR_IN_OUT parameter '"@ + var.decl.name@ + "' of '"@ + func.name@ + "' cannot be bound with '=>'"@
                &&& d.span == param.span
                &&& d.severity == Some(Severity::Error)
                &&& d.related == Seq::<RelatedView>::empty().push(RelatedView { message: "parameter '"@ + var.decl.name@ + "' declared here"@, file: var.decl.file, span: var.decl.span })
                &&& d.notes == Seq::<Seq<char>>::empty().push("VAR_IN_OUT is bound by reference at call entry: use "@ + var.decl.name@ + " := <variable>"@)
                &&& d.tags == Seq::<Tag>::empty()
                &&& d.source == None::<Seq<char>>
                &&& d.fixes == Seq::<FixView>::empty()
            },
            ResolveError::AmbiguousOverload { call_span, name, candidates } => {
                let d = this.spec_to_diagnostic();
                &&& d.message == "call to '"@ + name@ + "' is ambiguous: "@ + decimal(candidates@.len()) + " overloads accept these arguments: disambiguate with an explicit cast"@
                &&& d.span == call_span
                &&& d.severity == Some(Severity::Error)
                &&& d.related == (Seq::<RelatedView>::empty() + candidate_locations(candidates@))
                &&& d.notes == Seq::<Seq<char>>::empty()
                &&& d.tags == Seq::<Tag>::empty()
                &&& d.source == None::<Seq<char>>
                &&& d.fixes == Seq::<FixView>::empty()
            },
            ResolveError::NoMatchingOverload { call_span, name, arg_types, candidates } => {
                let d = this.spec_to_diagnostic();
                &&& d.message == "no overload of '"@ + name@ + "' accepts ("@ + join(texts(arg_types@), ", "@) + ")"@
                &&& d.span == call_span
                &&& d.severity == Some(Severity::Error)
                &&& d.related == (Seq::<RelatedView>::empty() + overload_locations(candidates@))
                &&& d.notes == Seq::<Seq<char>>::empty()
                &&& d.tags == Seq::<Tag>::empty()
                &&& d.source == None::<Seq<char>>
                &&& d.fixes == Seq::<FixView>::empty()
            },
        },
{
}

} // verus!
