//! Suggestions of similarly named items.
use vstd::prelude::*;
use vstd::string::*;
use crate::diag::Diagnostic;
use crate::hir::Named;
use crate::text::{join, texts};

verus! {

/// The most candidates a suggestion lists.
pub const MAX_SHOWN: usize = 5;

/// One line per name, `prefix` before each name, lines separated by `\n`.
pub open spec fn bullets(prefix: Seq<char>, names: Seq<Seq<char>>) -> Seq<char>
    decreases names.len(),
{
    if names.len() == 0 {
        seq![]
    } else if names.len() == 1 {
        prefix + names[0]
    } else {
        bullets(prefix, names.drop_last()) + "\n"@ + prefix + names.last()
    }
}

/// At most the first `MAX_SHOWN` names.
pub open spec fn shown(names: Seq<Seq<char>>) -> Seq<Seq<char>> {
    if names.len() <= MAX_SHOWN { names } else { names.take(MAX_SHOWN as int) }
}

/// A list of candidates: the header, a line per shown candidate, and
/// `"\n  ..."` when some were left out.
pub open spec fn candidate_list(header: Seq<char>, prefix: Seq<char>, names: Seq<Seq<char>>) -> Seq<char> {
    header + bullets(prefix, shown(names)) + (if names.len() > MAX_SHOWN { "\n  ..."@ } else { ""@ })
}

/// The section of a suggestion for one kind of candidate: empty when there
/// is none.
pub open spec fn candidate_section(header: Seq<char>, prefix: Seq<char>, names: Seq<Seq<char>>) -> Seq<char> {
    if names.len() == 0 { ""@ } else { candidate_list(header, prefix, names) }
}

/// A list of candidates shows at most five of them, the first ones, in
/// their order, and ends in an ellipsis exactly when some were left out.
pub proof fn lemma_candidate_list_shape(header: Seq<char>, prefix: Seq<char>, names: Seq<Seq<char>>)
    ensures
        shown(names).len() == (if names.len() <= MAX_SHOWN { names.len() } else { MAX_SHOWN as nat }),
        shown(names) == names.take(shown(names).len() as int),
        names.len() > MAX_SHOWN ==> candidate_list(header, prefix, names) == header + bullets(prefix, shown(names))
            + "\n  ..."@,
        names.len() <= MAX_SHOWN ==> candidate_list(header, prefix, names) == header + bullets(prefix, names),
{
    reveal_strlit("");
    if names.len() <= MAX_SHOWN {
        assert(names.take(names.len() as int) =~= names);
        assert(header + bullets(prefix, names) + ""@ =~= header + bullets(prefix, names));
    }
}

/// Writes the list of candidates after `header`.
pub fn write_candidate_list(header: &str, prefix: &str, names: &Vec<String>) -> (r: String)
    ensures
        r@ == candidate_list(header@, prefix@, texts(names@)),
{
    let mut r = String::from_str(header);
    let n = names.len();
    let count = if n < MAX_SHOWN { n } else { MAX_SHOWN };
    let ghost all = texts(names@);
    let ghost s = shown(all);
    assert(s.len() == count);
    assert(forall|j: int| 0 <= j < count ==> #[trigger] s[j] == all[j]);
    let mut i: usize = 0;
    while i < count
        invariant
            count <= n,
            n == names@.len(),
            all == texts(names@),
            s.len() == count,
            forall|j: int| 0 <= j < count ==> #[trigger] s[j] == all[j],
            i <= count,
            r@ == header@ + bullets(prefix@, s.take(i as int)),
        decreases count - i,
    {
        assert(s.take(i + 1).drop_last() =~= s.take(i as int));
        assert(s.take(i + 1).last() == names@[i as int]@);
        if i > 0 {
            r.append("\n");
        } else {
            assert(s.take(0) =~= Seq::<Seq<char>>::empty());
        }
        r.append(prefix);
        r.append(names[i].as_str());
        proof {
            if i == 0 {
                assert(r@ == header@ + (prefix@ + names@[0]@));
            }
        }
        i = i + 1;
    }
    assert(s.take(count as int) =~= s);
    if n > MAX_SHOWN {
        r.append("\n  ...");
    } else {
        r.append("");
    }
    r
}

/// Writes the section for one kind of candidate.
pub fn write_candidate_section(header: &str, prefix: &str, names: &Vec<String>) -> (r: String)
    ensures
        r@ == candidate_section(header@, prefix@, texts(names@)),
{
    if names.len() == 0 {
        String::from_str("")
    } else {
        write_candidate_list(header, prefix, names)
    }
}

/// Points at the declaration of a type: nothing is pointed at, the
/// diagnostic is left as it is.
pub fn get_def_for_ty(ty: &Named, d: &mut Diagnostic)
    ensures
        final(d)@ == old(d)@,
{
}

/// Items with a name close to one that was not found, by kind.
pub struct FuzzyResult {
    pub variables: Vec<String>,
    pub struct_fields: Vec<String>,
    pub pou: Vec<String>,
}

/// The suggestion for a name that was not found: a section per kind of
/// candidate that has some.
pub open spec fn candidates_text(c: FuzzyResult) -> Seq<char> {
    candidate_section("local variable(s) with similar(s) name exist:\n"@, "- "@, texts(c.variables@))
        + candidate_section("STRUCT field(s) with similar name(s) exist:\n"@, "- "@, texts(c.struct_fields@))
        + candidate_section("POU(s) with similar name exist:\n"@, "- "@, texts(c.pou@))
}

/// Lists the candidates, at most five of each kind.
pub fn get_candidates(candidates: &FuzzyResult) -> (r: String)
    ensures
        r@ == candidates_text(*candidates),
{
    let mut result = write_candidate_section(
        "local variable(s) with similar(s) name exist:\n",
        "- ",
        &candidates.variables,
    );
    let fields = write_candidate_section(
        "STRUCT field(s) with similar name(s) exist:\n",
        "- ",
        &candidates.struct_fields,
    );
    result.append(fields.as_str());
    let pous = write_candidate_section("POU(s) with similar name exist:\n", "- ", &candidates.pou);
    result.append(pous.as_str());
    result
}

/// The lines of a list: each name after `prefix`.
pub open spec fn prefixed(prefix: Seq<char>, names: Seq<Seq<char>>) -> Seq<Seq<char>> {
    names.map_values(|x: Seq<char>| prefix + x)
}

/// One line per name is the names, each after `prefix`, joined by `\n`.
pub proof fn lemma_bullets_join(prefix: Seq<char>, names: Seq<Seq<char>>)
    ensures
        bullets(prefix, names) == join(prefixed(prefix, names), "\n"@),
    decreases names.len(),
{
    if names.len() > 1 {
        lemma_bullets_join(prefix, names.drop_last());
        assert(prefixed(prefix, names).drop_last() =~= prefixed(prefix, names.drop_last()));
    } else if names.len() == 0 {
        assert(prefixed(prefix, names) =~= Seq::<Seq<char>>::empty());
    }
}

/// The section a suggestion writes for one kind of candidate: nothing when
/// there is none; else the header, then the first five names at most, each
/// after `- `, one per line, then `\n  ...` when some were left out.
pub open spec fn listed_section(header: Seq<char>, names: Seq<Seq<char>>) -> Seq<char> {
    if names.len() == 0 {
        seq![]
    } else {
        header + join(prefixed("- "@, names.take(if names.len() < 5 { names.len() as int } else { 5 })), "\n"@) + (
        if names.len() > 5 {
            "\n  ..."@
        } else {
            seq![]
        })
    }
}

/// What a suggestion of similar names says: the section of local
/// variables, then that of STRUCT fields, then that of POUs, each listing at
/// most five names and an ellipsis when there are more.
pub proof fn lemma_get_candidates_text(c: FuzzyResult)
    ensures
        candidates_text(c) == listed_section("local variable(s) with similar(s) name exist:\n"@, texts(c.variables@))
            + listed_section("STRUCT field(s) with similar name(s) exist:\n"@, texts(c.struct_fields@))
            + listed_section("POU(s) with similar name exist:\n"@, texts(c.pou@)),
{
    reveal_strlit("");
    assert forall|h: Seq<char>, names: Seq<Seq<char>>| #[trigger] candidate_section(h, "- "@, names) == listed_section(
        h,
        names,
    ) by {
        if names.len() > 0 {
            lemma_bullets_join("- "@, shown(names));
            if names.len() <= 5 {
                assert(names.take(names.len() as int) =~= names);
                assert(h + bullets("- "@, names) + ""@ =~= h + bullets("- "@, names) + seq![]);
            }
        } else {
            assert(""@ =~= Seq::<char>::empty());
        }
    }
}

} // verus!
