//! The order of strings: character by character, by code point, a proper
//! beginning before what it begins. Sorting a list of strings in that order.

use vstd::prelude::*;
use vstd::seq_lib::{to_multiset_build, to_multiset_insert};
use crate::layout::texts;
use crate::text::chars_of;

verus! {

/// True when `a` stands strictly before `b`: at the first position where
/// they differ `a` has the smaller character, or `a` ends there and `b` does
/// not.
pub open spec fn lex_before(a: Seq<char>, b: Seq<char>) -> bool
    decreases a.len(),
{
    if b.len() == 0 {
        false
    } else if a.len() == 0 {
        true
    } else if a[0] != b[0] {
        (a[0] as int) < (b[0] as int)
    } else {
        lex_before(a.drop_first(), b.drop_first())
    }
}

/// True when no string of the list stands before an earlier one.
pub open spec fn texts_sorted(list: Seq<Seq<char>>) -> bool {
    forall|i: int, j: int| 0 <= i < j < list.len() ==> !lex_before(list[j], list[i])
}

/// Of two strings at most one stands before the other, and exactly one does
/// where they differ.
pub proof fn lemma_lex_total(a: Seq<char>, b: Seq<char>)
    ensures
        !lex_before(a, a),
        lex_before(a, b) ==> !lex_before(b, a),
        a != b ==> lex_before(a, b) || lex_before(b, a),
    decreases a.len(),
{
    if a.len() > 0 {
        lemma_lex_total(a.drop_first(), a.drop_first());
        if b.len() > 0 && a[0] == b[0] {
            lemma_lex_total(a.drop_first(), b.drop_first());
            if a.drop_first() == b.drop_first() {
                assert(a =~= seq![a[0]] + a.drop_first());
                assert(b =~= seq![b[0]] + b.drop_first());
            }
        }
    } else if b.len() == 0 {
        assert(a =~= b);
    }
}

/// What stands before a string stands before all that the string stands
/// before.
pub proof fn lemma_lex_transitive(a: Seq<char>, b: Seq<char>, c: Seq<char>)
    requires
        lex_before(a, b),
        lex_before(b, c),
    ensures
        lex_before(a, c),
    decreases a.len(),
{
    if a.len() > 0 && a[0] == b[0] && b[0] == c[0] {
        lemma_lex_transitive(a.drop_first(), b.drop_first(), c.drop_first());
    }
}

/// Putting a string into a sorted list, behind all that it does not stand
/// before and in front of all that it stands before, keeps the list sorted.
proof fn lemma_insert_sorted(list: Seq<Seq<char>>, p: int, x: Seq<char>)
    requires
        0 <= p <= list.len(),
        texts_sorted(list),
        forall|j: int| p <= j < list.len() ==> lex_before(x, #[trigger] list[j]),
        p > 0 ==> !lex_before(x, list[p - 1]),
    ensures
        texts_sorted(list.insert(p, x)),
{
    let after = list.insert(p, x);
    assert forall|i: int, j: int| 0 <= i < j < after.len() implies !lex_before(
        after[j],
        after[i],
    ) by {
        if j < p {
        } else if j == p {
            lemma_lex_total(x, list[p - 1]);
            if i < p - 1 && lex_before(x, list[i]) {
                if x != list[p - 1] {
                    lemma_lex_transitive(list[p - 1], x, list[i]);
                }
            }
        } else if i < p {
        } else if i == p {
            lemma_lex_total(x, list[j - 1]);
        } else {
        }
    }
}

/// Strings that begin alike stand as what follows the common beginning
/// stands.
proof fn lemma_lex_skip(a: Seq<char>, b: Seq<char>, i: int)
    requires
        0 <= i <= a.len(),
        i <= b.len(),
        forall|k: int| 0 <= k < i ==> a[k] == b[k],
    ensures
        lex_before(a, b) == lex_before(a.skip(i), b.skip(i)),
    decreases i,
{
    if i == 0 {
        assert(a.skip(0) =~= a);
        assert(b.skip(0) =~= b);
    } else {
        let x = a.drop_first();
        let y = b.drop_first();
        assert(a[0] == b[0]);
        assert forall|k: int| 0 <= k < i - 1 implies x[k] == y[k] by {
            assert(x[k] == a[k + 1]);
            assert(y[k] == b[k + 1]);
        }
        lemma_lex_skip(x, y, i - 1);
        assert(x.skip(i - 1) =~= a.skip(i));
        assert(y.skip(i - 1) =~= b.skip(i));
    }
}

/// Tells whether `a` stands strictly before `b`, as `<` on strings does:
/// character by character, by code point, a proper beginning before what it
/// begins.
pub fn text_before(a: &str, b: &str) -> (before: bool)
    ensures
        before == lex_before(a@, b@),
{
    let x = chars_of(a);
    let y = chars_of(b);
    let mut i: usize = 0;
    while i < x.len() && i < y.len() && x[i] == y[i]
        invariant
            i <= x.len(),
            i <= y.len(),
            forall|k: int| 0 <= k < i ==> x@[k] == y@[k],
        decreases x.len() - i,
    {
        i += 1;
    }
    proof {
        lemma_lex_skip(x@, y@, i as int);
        if i < x.len() && i < y.len() {
            assert(x@.skip(i as int)[0] == x@[i as int]);
            assert(y@.skip(i as int)[0] == y@[i as int]);
        }
    }
    if i == y.len() {
        false
    } else if i == x.len() {
        true
    } else {
        x[i] < y[i]
    }
}

/// Sorts strings in ascending order: the result holds the same strings, each
/// as often as the list held it, and none of them stands before an earlier
/// one.
pub fn sort_texts(list: &Vec<String>) -> (sorted: Vec<String>)
    ensures
        texts_sorted(texts(sorted@)),
        texts(sorted@).to_multiset() == texts(list@).to_multiset(),
{
    let mut sorted: Vec<String> = Vec::new();
    let mut i: usize = 0;
    assert(texts(sorted@) =~= texts(list@).take(0));
    while i < list.len()
        invariant
            i <= list.len(),
            texts_sorted(texts(sorted@)),
            texts(sorted@).to_multiset() == texts(list@).take(i as int).to_multiset(),
        decreases list.len() - i,
    {
        let mut p: usize = sorted.len();
        while p > 0 && text_before(list[i].as_str(), sorted[p - 1].as_str())
            invariant
                p <= sorted.len(),
                i < list.len(),
                forall|j: int|
                    p <= j < sorted.len() ==> lex_before(list@[i as int]@, #[trigger] sorted@[j]@),
            decreases p,
        {
            p -= 1;
        }
        let ghost before = texts(sorted@);
        proof {
            assert forall|j: int| p <= j < before.len() implies lex_before(
                list@[i as int]@,
                #[trigger] before[j],
            ) by {
                assert(before[j] == sorted@[j]@);
            }
            lemma_insert_sorted(before, p as int, list@[i as int]@);
            to_multiset_insert(before, p as int, list@[i as int]@);
            to_multiset_build(texts(list@).take(i as int), list@[i as int]@);
            assert(texts(list@).take(i + 1) =~= texts(list@).take(i as int).push(
                list@[i as int]@,
            ));
        }
        sorted.insert(p, list[i].clone());
        proof {
            assert(texts(sorted@) =~= before.insert(p as int, list@[i as int]@));
        }
        i += 1;
    }
    assert(texts(list@).take(list.len() as int) =~= texts(list@));
    sorted
}

} // verus!
