//! Lexicographic order on texts (by character code, as `str`'s `Ord`) and
//! sorting a list of texts by it.

use vstd::prelude::*;
use crate::text::{char_at, char_count};

verus! {

/// `a` sorts no later than `b`: at the first differing character `a`'s is
/// smaller, or `a` is a prefix of `b`.
pub open spec fn lex_le(a: Seq<char>, b: Seq<char>) -> bool
    decreases a.len(),
{
    if a.len() == 0 {
        true
    } else if b.len() == 0 {
        false
    } else if a[0] != b[0] {
        a[0] < b[0]
    } else {
        lex_le(a.skip(1), b.skip(1))
    }
}

pub proof fn lemma_lex_total(a: Seq<char>, b: Seq<char>)
    ensures
        lex_le(a, b) || lex_le(b, a),
    decreases a.len(),
{
    if a.len() > 0 && b.len() > 0 && a[0] == b[0] {
        lemma_lex_total(a.skip(1), b.skip(1));
    }
}

pub proof fn lemma_lex_trans(a: Seq<char>, b: Seq<char>, c: Seq<char>)
    requires
        lex_le(a, b),
        lex_le(b, c),
    ensures
        lex_le(a, c),
    decreases a.len(),
{
    if a.len() > 0 && b.len() > 0 && c.len() > 0 && a[0] == b[0] && b[0] == c[0] {
        lemma_lex_trans(a.skip(1), b.skip(1), c.skip(1));
    }
}

/// Whether `a` sorts no later than `b`.
pub fn lex_le_exec(a: &str, b: &str) -> (r: bool)
    ensures
        r == lex_le(a@, b@),
{
    let n = char_count(a);
    let m = char_count(b);
    let mut i: usize = 0;
    assert(a@.skip(0) =~= a@);
    assert(b@.skip(0) =~= b@);
    while i < n && i < m
        invariant
            i <= n,
            i <= m,
            n == a@.len(),
            m == b@.len(),
            lex_le(a@, b@) == lex_le(a@.skip(i as int), b@.skip(i as int)),
        decreases n - i,
    {
        let x = char_at(a, i);
        let y = char_at(b, i);
        assert(a@.skip(i as int)[0] == x);
        assert(b@.skip(i as int)[0] == y);
        if x != y {
            return x < y;
        }
        assert(a@.skip(i as int).skip(1) =~= a@.skip(i + 1));
        assert(b@.skip(i as int).skip(1) =~= b@.skip(i + 1));
        i = i + 1;
    }
    i == n
}

/// Sorted, earliest first.
pub open spec fn lex_sorted(s: Seq<Seq<char>>) -> bool {
    forall|i: int, j: int| 0 <= i < j < s.len() ==> lex_le(s[i], s[j])
}

/// `out` holds the same texts as `input`, each as often (as positions
/// paired one to one).
pub open spec fn same_texts(input: Seq<Seq<char>>, out: Seq<Seq<char>>) -> bool {
    out.to_multiset() == input.to_multiset()
}

/// The texts of `v`.
pub open spec fn texts(v: Seq<String>) -> Seq<Seq<char>> {
    v.map_values(|s: String| s@)
}

/// Sorts texts by `lex_le`, keeping equal texts in their order.
pub fn sort_texts(v: Vec<String>) -> (r: Vec<String>)
    ensures
        lex_sorted(texts(r@)),
        same_texts(texts(v@), texts(r@)),
        r@.len() == v@.len(),
{
    broadcast use vstd::seq_lib::group_to_multiset_ensures;

    let ghost input = texts(v@);
    let mut rest = v;
    let mut out: Vec<String> = Vec::new();
    let ghost taken: Seq<Seq<char>> = Seq::empty();
    while rest.len() > 0
        invariant
            input == taken + texts(rest@),
            lex_sorted(texts(out@)),
            texts(out@).to_multiset() == taken.to_multiset(),
            out@.len() == taken.len(),
        decreases rest@.len(),
    {
        let x = rest.remove(0);
        let ghost rest_before = texts(rest@);
        proof {
            assert(texts(rest@.insert(0, x)) =~= seq![x@] + rest_before) by {
                assert(rest@.insert(0, x) =~= seq![x] + rest@);
            }
        }
        let mut pos: usize = 0;
        while pos < out.len() && lex_le_exec(out[pos].as_str(), x.as_str())
            invariant
                pos <= out@.len(),
                forall|p: int| 0 <= p < pos ==> lex_le(#[trigger] texts(out@)[p], x@),
            decreases out@.len() - pos,
        {
            pos = pos + 1;
        }
        let ghost before = texts(out@);
        proof {
            assert forall|p: int| pos <= p < before.len() implies lex_le(x@, #[trigger] before[p]) by {
                lemma_lex_total(before[pos as int], x@);
                assert(lex_le(x@, before[pos as int]));
                if p > pos {
                    lemma_lex_trans(x@, before[pos as int], before[p]);
                }
            }
        }
        out.insert(pos, x);
        proof {
            let now = texts(out@);
            assert(now =~= before.insert(pos as int, x@));
            assert forall|i: int, j: int| 0 <= i < j < now.len() implies lex_le(now[i], now[j]) by {
                if j < pos {
                } else if j == pos {
                    assert(now[i] == before[i]);
                } else if i < pos {
                    assert(now[j] == before[j - 1]);
                    assert(lex_le(before[i], x@));
                    lemma_lex_trans(before[i], x@, before[j - 1]);
                } else if i == pos {
                    assert(now[j] == before[j - 1]);
                } else {
                    assert(now[i] == before[i - 1]);
                    assert(now[j] == before[j - 1]);
                }
            }
            vstd::seq_lib::to_multiset_insert(before, pos as int, x@);
            vstd::seq_lib::to_multiset_build(taken, x@);
            assert((taken.push(x@)) + rest_before =~= input);
            taken = taken.push(x@);
        }
    }
    proof {
        assert(taken =~= input);
    }
    out
}

/// Appends a line.
pub fn push_line(lines: &mut Vec<String>, line: String)
    ensures
        texts(final(lines)@) == texts(old(lines)@).push(line@),
{
    let ghost before = lines@;
    lines.push(line);
    assert(texts(lines@) =~= texts(before).push(line@));
}

} // verus!
