use vstd::prelude::*;

verus! {

broadcast use {vstd::seq_lib::to_multiset_build, vstd::seq_lib::to_multiset_insert};

/// Lexicographic order on character sequences, by code point; a proper
/// prefix comes first.
pub open spec fn lex_le(a: Seq<char>, b: Seq<char>) -> bool
    decreases a.len(),
{
    if a.len() == 0 {
        true
    } else if b.len() == 0 {
        false
    } else if (a[0] as u32) != (b[0] as u32) {
        (a[0] as u32) < (b[0] as u32)
    } else {
        lex_le(a.drop_first(), b.drop_first())
    }
}

/// The names are in lexicographic order.
pub open spec fn sorted_names(s: Seq<Seq<char>>) -> bool {
    forall|i: int, j: int| 0 <= i < j < s.len() ==> lex_le(#[trigger] s[i], #[trigger] s[j])
}

/// The views of a sequence of strings.
pub open spec fn names_view(v: Seq<String>) -> Seq<Seq<char>> {
    v.map_values(|s: String| s@)
}

/// Any two sequences are ordered one way or the other.
pub proof fn lemma_lex_total(a: Seq<char>, b: Seq<char>)
    ensures
        lex_le(a, b) || lex_le(b, a),
    decreases a.len(),
{
    if a.len() > 0 && b.len() > 0 && (a[0] as u32) == (b[0] as u32) {
        lemma_lex_total(a.drop_first(), b.drop_first());
    }
}

/// The order is transitive.
pub proof fn lemma_lex_trans(a: Seq<char>, b: Seq<char>, c: Seq<char>)
    requires
        lex_le(a, b),
        lex_le(b, c),
    ensures
        lex_le(a, c),
    decreases a.len(),
{
    if a.len() > 0 && b.len() > 0 && c.len() > 0 && (a[0] as u32) == (b[0] as u32)
        && (b[0] as u32) == (c[0] as u32) {
        lemma_lex_trans(a.drop_first(), b.drop_first(), c.drop_first());
    }
}

/// Whether `a` comes no later than `b` in lexicographic order.
pub fn name_le(a: &str, b: &str) -> (r: bool)
    ensures
        r == lex_le(a@, b@),
{
    let la = a.unicode_len();
    let lb = b.unicode_len();
    let mut i: usize = 0;
    assert(a@.skip(0) =~= a@);
    assert(b@.skip(0) =~= b@);
    while i < la && i < lb
        invariant
            la == a@.len(),
            lb == b@.len(),
            i <= la,
            i <= lb,
            lex_le(a@, b@) == lex_le(a@.skip(i as int), b@.skip(i as int)),
        decreases la - i,
    {
        let ca = a.get_char(i);
        let cb = b.get_char(i);
        if (ca as u32) != (cb as u32) {
            return (ca as u32) < (cb as u32);
        }
        assert(a@.skip(i as int).drop_first() =~= a@.skip(i + 1));
        assert(b@.skip(i as int).drop_first() =~= b@.skip(i + 1));
        i = i + 1;
    }
    i == la
}

/// Sorts file names lexicographically.
pub fn sort_names(names: &Vec<String>) -> (r: Vec<String>)
    ensures
        sorted_names(names_view(r@)),
        names_view(r@).to_multiset() == names_view(names@).to_multiset(),
{
    let mut out: Vec<String> = Vec::new();
    let mut i: usize = 0;
    assert(names_view(out@) =~= names_view(names@).subrange(0, 0));
    while i < names.len()
        invariant
            i <= names@.len(),
            sorted_names(names_view(out@)),
            names_view(out@).to_multiset() == names_view(names@).subrange(0, i as int).to_multiset(),
        decreases names@.len() - i,
    {
        let x = names[i].clone();
        let mut pos: usize = 0;
        while pos < out.len() && name_le(out[pos].as_str(), x.as_str())
            invariant
                pos <= out@.len(),
                forall|j: int| 0 <= j < pos ==> lex_le(#[trigger] names_view(out@)[j], x@),
            decreases out@.len() - pos,
        {
            pos = pos + 1;
        }
        let ghost before = names_view(out@);
        proof {
            if pos < out@.len() {
                lemma_lex_total(x@, before[pos as int]);
                assert forall|j: int| pos <= j < before.len() implies lex_le(x@, #[trigger] before[j]) by {
                    if j > pos {
                        lemma_lex_trans(x@, before[pos as int], before[j]);
                    }
                }
            }
        }
        out.insert(pos, x);
        proof {
            assert(names_view(out@) =~= before.insert(pos as int, x@));
            assert(names_view(names@).subrange(0, i + 1) =~= names_view(names@).subrange(0, i as int).push(x@));
            let after = names_view(out@);
            assert forall|a: int, b: int| 0 <= a < b < after.len() implies lex_le(#[trigger] after[a], #[trigger] after[b]) by {
                if b < pos {
                } else if b == pos {
                } else if a < pos {
                    assert(after[b] == before[b - 1]);
                    if pos < before.len() {
                        lemma_lex_trans(after[a], x@, before[b - 1]);
                    }
                } else if a == pos {
                } else {
                }
            }
        }
        i = i + 1;
    }
    assert(names_view(names@).subrange(0, names@.len() as int) =~= names_view(names@));
    out
}

/// The log files to list: none when the logs directory does not exist, else
/// the names found there in lexicographic order.
pub fn log_listing(dir_exists: bool, names: &Vec<String>) -> (r: Vec<String>)
    ensures
        !dir_exists ==> r@.len() == 0,
        dir_exists ==> sorted_names(names_view(r@)),
        dir_exists ==> names_view(r@).to_multiset() == names_view(names@).to_multiset(),
{
    if dir_exists {
        sort_names(names)
    } else {
        Vec::new()
    }
}

} // verus!
