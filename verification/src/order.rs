//! The order of texts, and sorting by it.

use vstd::prelude::*;
use vstd::relations::{sorted_by, total_ordering};
use vstd::seq_lib::{lemma_sorted_unique, to_multiset_build, to_multiset_insert};

use crate::text::views;

verus! {

/// `a` comes before `b`, or is the same text: the first characters in which they differ decide,
/// by their code points.
pub open spec fn text_le(a: Seq<char>, b: Seq<char>) -> bool
    decreases a.len(),
{
    if a.len() == 0 {
        true
    } else if b.len() == 0 {
        false
    } else if a[0] == b[0] {
        text_le(a.skip(1), b.skip(1))
    } else {
        (a[0] as u32) < (b[0] as u32)
    }
}

/// The texts in order.
pub open spec fn sorted_texts(texts: Seq<Seq<char>>) -> Seq<Seq<char>> {
    texts.sort_by(|a: Seq<char>, b: Seq<char>| text_le(a, b))
}

proof fn lemma_char_code(a: char, b: char)
    ensures
        a as u32 == b as u32 ==> a == b,
{
}

proof fn lemma_text_le_reflexive(a: Seq<char>)
    ensures
        text_le(a, a),
    decreases a.len(),
{
    if a.len() > 0 {
        lemma_text_le_reflexive(a.skip(1));
    }
}

proof fn lemma_text_le_antisymmetric(a: Seq<char>, b: Seq<char>)
    requires
        text_le(a, b),
        text_le(b, a),
    ensures
        a == b,
    decreases a.len(),
{
    if a.len() > 0 && b.len() > 0 {
        lemma_char_code(a[0], b[0]);
        lemma_text_le_antisymmetric(a.skip(1), b.skip(1));
        assert(a =~= seq![a[0]] + a.skip(1));
        assert(b =~= seq![b[0]] + b.skip(1));
    } else {
        assert(a =~= b);
    }
}

proof fn lemma_text_le_transitive(a: Seq<char>, b: Seq<char>, c: Seq<char>)
    requires
        text_le(a, b),
        text_le(b, c),
    ensures
        text_le(a, c),
    decreases a.len(),
{
    if a.len() > 0 && b.len() > 0 && c.len() > 0 {
        if a[0] == b[0] && b[0] == c[0] {
            lemma_text_le_transitive(a.skip(1), b.skip(1), c.skip(1));
        }
    }
}

proof fn lemma_text_le_total(a: Seq<char>, b: Seq<char>)
    ensures
        text_le(a, b) || text_le(b, a),
    decreases a.len(),
{
    if a.len() > 0 && b.len() > 0 {
        lemma_char_code(a[0], b[0]);
        if a[0] == b[0] {
            lemma_text_le_total(a.skip(1), b.skip(1));
        }
    }
}

/// Any two texts are in order one way or the other, and in both ways only where they are the
/// same.
pub proof fn law_texts_are_totally_ordered()
    ensures
        total_ordering(|a: Seq<char>, b: Seq<char>| text_le(a, b)),
{
    let leq = |a: Seq<char>, b: Seq<char>| text_le(a, b);
    assert forall|a: Seq<char>| #[trigger] leq(a, a) by {
        lemma_text_le_reflexive(a);
    }
    assert forall|a: Seq<char>, b: Seq<char>| #[trigger] leq(a, b) && #[trigger] leq(b, a) implies a
        == b by {
        lemma_text_le_antisymmetric(a, b);
    }
    assert forall|a: Seq<char>, b: Seq<char>, c: Seq<char>| #[trigger]
        leq(a, b) && #[trigger] leq(b, c) implies leq(a, c) by {
        lemma_text_le_transitive(a, b, c);
    }
    assert forall|a: Seq<char>, b: Seq<char>| #[trigger] leq(a, b) || #[trigger] leq(b, a) by {
        lemma_text_le_total(a, b);
    }
}

/// The order of a list of texts depends on which texts it holds and how often, not on where
/// they stood.
pub proof fn law_sorting_forgets_order(one: Seq<Seq<char>>, other: Seq<Seq<char>>)
    requires
        one.to_multiset() == other.to_multiset(),
    ensures
        sorted_texts(one) == sorted_texts(other),
{
    let leq = |a: Seq<char>, b: Seq<char>| text_le(a, b);
    law_texts_are_totally_ordered();
    one.lemma_sort_by_ensures(leq);
    other.lemma_sort_by_ensures(leq);
    lemma_sorted_unique(one.sort_by(leq), other.sort_by(leq), leq);
}

/// Sorting loses no text, adds none and leaves each as often as it was there; what comes out is
/// in order.
pub proof fn law_sorting_keeps_texts(texts: Seq<Seq<char>>)
    ensures
        sorted_texts(texts).to_multiset() == texts.to_multiset(),
        sorted_by(sorted_texts(texts), |a: Seq<char>, b: Seq<char>| text_le(a, b)),
{
    law_texts_are_totally_ordered();
    texts.lemma_sort_by_ensures(|a: Seq<char>, b: Seq<char>| text_le(a, b));
}

/// Whether `a` comes before `b` or is the same text.
pub fn check_text_le(a: &str, b: &str) -> (r: bool)
    ensures
        r == text_le(a@, b@),
{
    let n: usize = a.unicode_len();
    let m: usize = b.unicode_len();
    let mut i: usize = 0;
    proof {
        assert(a@.skip(0) =~= a@);
        assert(b@.skip(0) =~= b@);
    }
    while i < n && i < m
        invariant
            n == a@.len(),
            m == b@.len(),
            i <= n,
            i <= m,
            text_le(a@, b@) == text_le(a@.skip(i as int), b@.skip(i as int)),
        decreases n - i,
    {
        let x = a.get_char(i);
        let y = b.get_char(i);
        if x != y {
            return (x as u32) < (y as u32);
        }
        proof {
            assert(a@.skip(i as int).skip(1) =~= a@.skip(i + 1));
            assert(b@.skip(i as int).skip(1) =~= b@.skip(i + 1));
        }
        i = i + 1;
    }
    i == n
}

/// Sorts texts.
pub fn sort_texts(texts: Vec<String>) -> (r: Vec<String>)
    ensures
        views(r@) == sorted_texts(views(texts@)),
{
    let ghost leq = |a: Seq<char>, b: Seq<char>| text_le(a, b);
    proof {
        law_texts_are_totally_ordered();
    }
    let mut out: Vec<String> = Vec::new();
    let mut i: usize = 0;
    proof {
        assert(views(texts@).take(0) =~= views(out@));
    }
    while i < texts.len()
        invariant
            i <= texts@.len(),
            leq == (|a: Seq<char>, b: Seq<char>| text_le(a, b)),
            total_ordering(leq),
            sorted_by(views(out@), leq),
            views(out@).to_multiset() == views(texts@).take(i as int).to_multiset(),
        decreases texts@.len() - i,
    {
        let text = texts[i].clone();
        let ghost before = views(out@);
        let mut at: usize = out.len();
        while at > 0 && !check_text_le(out[at - 1].as_str(), text.as_str())
            invariant
                at <= out@.len(),
                before == views(out@),
                leq == (|a: Seq<char>, b: Seq<char>| text_le(a, b)),
                total_ordering(leq),
                sorted_by(before, leq),
                forall|j: int| at <= j < out@.len() ==> leq(text@, #[trigger] before[j]),
            decreases at,
        {
            proof {
                assert(leq(text@, before[at - 1]) || leq(before[at - 1], text@));
            }
            at = at - 1;
        }
        out.insert(at, text);
        proof {
            assert(views(out@) =~= before.insert(at as int, text@));
            to_multiset_insert(before, at as int, text@);
            let taken = views(texts@).take(i as int);
            assert(views(texts@).take(i + 1) =~= taken.push(text@));
            to_multiset_build(taken, text@);
            assert forall|a: int, b: int| 0 <= a < b < views(out@).len() implies #[trigger] leq(
                views(out@)[a],
                views(out@)[b],
            ) by {
                if b < at {
                    assert(leq(before[a], before[b]));
                } else if b == at {
                    assert(leq(before[at - 1], text@));
                    if a < at - 1 {
                        assert(leq(before[a], before[at - 1]));
                    }
                } else if a == at {
                    assert(leq(text@, before[b - 1]));
                } else if a > at {
                    assert(leq(before[a - 1], before[b - 1]));
                } else {
                    assert(leq(before[a], before[b - 1]));
                }
            }
        }
        i = i + 1;
    }
    proof {
        assert(views(texts@).take(i as int) =~= views(texts@));
        views(texts@).lemma_sort_by_ensures(leq);
        lemma_sorted_unique(views(out@), views(texts@).sort_by(leq), leq);
    }
    out
}

/// A text comes before all that begin with it; where two texts begin alike, what follows
/// decides, and where they begin with different characters, those decide.
pub proof fn law_texts_are_ordered_by_what_differs(
    common: Seq<char>,
    a: Seq<char>,
    b: Seq<char>,
)
    ensures
        text_le(common, common + a),
        a.len() > 0 ==> !text_le(common + a, common),
        text_le(common + a, common + b) == text_le(a, b),
        a.len() > 0 && b.len() > 0 && (a[0] as u32) < (b[0] as u32) ==> text_le(a, b) && !text_le(
            b,
            a,
        ),
    decreases common.len(),
{
    if common.len() == 0 {
        assert(common + a =~= a);
        assert(common + b =~= b);
    } else {
        law_texts_are_ordered_by_what_differs(common.skip(1), a, b);
        assert((common + a).skip(1) =~= common.skip(1) + a);
        assert((common + b).skip(1) =~= common.skip(1) + b);
    }
}

}
