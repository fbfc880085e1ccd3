//! The mathematical side of version strings: what a key stands for, how a
//! loosely written version is brought to three numbers, and what that does to
//! strings made of numbers and dots.

use vstd::prelude::*;
use crate::text::{
    count_of, decimal, first_index, is_digit, lemma_absent, lemma_count_concat,
    lemma_decimal_digits,
};

verus! {

/// What a version key stands for: three numbers, a pre-release tag and a
/// build tag (either tag may be empty).
#[verifier::ext_equal]
pub struct KeyModel {
    pub major: u64,
    pub minor: u64,
    pub patch: u64,
    pub pre: Seq<char>,
    pub build: Seq<char>,
}

/// The key of a plain release `major.minor.patch`.
pub open spec fn plain_key(major: u64, minor: u64, patch: u64) -> KeyModel {
    KeyModel { major, minor, patch, pre: Seq::empty(), build: Seq::empty() }
}

/// `a.b.c` in decimal.
pub open spec fn numbers_text(a: nat, b: nat, c: nat) -> Seq<char> {
    decimal(a) + seq!['.'] + decimal(b) + seq!['.'] + decimal(c)
}

/// The strict writing of a key: the three numbers, then `-` and the
/// pre-release tag if there is one, then `+` and the build tag if there is
/// one.
pub open spec fn render(m: KeyModel) -> Seq<char> {
    numbers_text(m.major as nat, m.minor as nat, m.patch as nat) + (if m.pre.len() > 0 {
        seq!['-'] + m.pre
    } else {
        Seq::empty()
    }) + (if m.build.len() > 0 {
        seq!['+'] + m.build
    } else {
        Seq::empty()
    })
}

/// What is appended to a core that holds `dots` dots so that it has at least
/// three components.
pub open spec fn padding(dots: nat) -> Seq<char> {
    if dots == 0 {
        seq!['.', '0', '.', '0']
    } else if dots == 1 {
        seq!['.', '0']
    } else {
        Seq::empty()
    }
}

/// The part of `raw` before its first `-` (all of it where there is none).
pub open spec fn core_of(raw: Seq<char>) -> Seq<char> {
    raw.take(first_index(raw, '-'))
}

/// The part of `raw` from its first `-` on (empty where there is none).
pub open spec fn suffix_of(raw: Seq<char>) -> Seq<char> {
    raw.skip(first_index(raw, '-'))
}

/// The core of `raw`, padded with `.0` until it has three components.
pub open spec fn padded_core(raw: Seq<char>) -> Seq<char> {
    core_of(raw) + padding(count_of(core_of(raw), '.'))
}

/// The text that is handed to the strict parser: the padded core, followed
/// by whatever came after it.
pub open spec fn normalize(raw: Seq<char>) -> Seq<char> {
    padded_core(raw) + suffix_of(raw)
}

/// One to three numbers written in decimal with dots between them.
pub open spec fn dotted(parts: Seq<u64>) -> Seq<char>
    decreases parts.len(),
{
    if parts.len() == 0 {
        Seq::empty()
    } else if parts.len() == 1 {
        decimal(parts[0] as nat)
    } else {
        dotted(parts.drop_last()) + seq!['.'] + decimal(parts.last() as nat)
    }
}

/// The `i`-th of `parts`, or zero where there is no such part.
pub open spec fn part_or_zero(parts: Seq<u64>, i: int) -> u64 {
    if 0 <= i < parts.len() {
        parts[i]
    } else {
        0
    }
}

/// The key that one to three numbers stand for: missing ones count as zero.
pub open spec fn key_of_parts(parts: Seq<u64>) -> KeyModel {
    plain_key(part_or_zero(parts, 0), part_or_zero(parts, 1), part_or_zero(parts, 2))
}

/// True when `s` begins with `a.b.c` and goes on, if at all, with `+`.
pub open spec fn starts_with_numbers(s: Seq<char>, a: u64, b: u64, c: u64) -> bool {
    let t = numbers_text(a as nat, b as nat, c as nat);
    &&& t.len() <= s.len()
    &&& s.take(t.len() as int) == t
    &&& s.len() > t.len() ==> s[t.len() as int] == '+'
}

/// True when the padded core of `raw` is three decimal numbers that fit 64
/// bits, written without leading zeros, with dots between them; a build tag
/// behind `+` may follow.
pub open spec fn is_numeric_core(raw: Seq<char>) -> bool {
    exists|a: u64, b: u64, c: u64| starts_with_numbers(padded_core(raw), a, b, c)
}

/// Before `first_index` the character does not occur; at it, if that is not
/// the end, it does.
pub proof fn lemma_first_index_bounds(s: Seq<char>, c: char)
    ensures
        0 <= first_index(s, c) <= s.len(),
        forall|j: int| 0 <= j < first_index(s, c) ==> s[j] != c,
        first_index(s, c) < s.len() ==> s[first_index(s, c)] == c,
    decreases s.len(),
{
    if s.len() > 0 && s[0] != c {
        let t = s.drop_first();
        lemma_first_index_bounds(t, c);
        assert forall|j: int| 0 <= j < first_index(s, c) implies s[j] != c by {
            if j > 0 {
                assert(t[j - 1] == s[j]);
            }
        }
    }
}

/// A text of numbers and dots holds nothing but digits and dots, and as many
/// dots as there are numbers after the first.
pub proof fn lemma_dotted_shape(parts: Seq<u64>)
    requires
        parts.len() >= 1,
    ensures
        forall|i: int|
            0 <= i < dotted(parts).len() ==> is_digit(#[trigger] dotted(parts)[i]) || dotted(
                parts,
            )[i] == '.',
        count_of(dotted(parts), '.') == parts.len() - 1,
    decreases parts.len(),
{
    if parts.len() == 1 {
        lemma_decimal_digits(parts[0] as nat);
        lemma_absent(decimal(parts[0] as nat), '.');
    } else {
        let head = dotted(parts.drop_last());
        let tail = decimal(parts.last() as nat);
        lemma_dotted_shape(parts.drop_last());
        lemma_decimal_digits(parts.last() as nat);
        lemma_absent(tail, '.');
        lemma_count_concat(head + seq!['.'], tail, '.');
        lemma_count_concat(head, seq!['.'], '.');
        assert(count_of(seq!['.'], '.') == 1) by {
            reveal_with_fuel(count_of, 2);
            assert(seq!['.'].drop_last() =~= Seq::<char>::empty());
        }
    }
}

/// A version written as one, two or three numbers with dots between them is
/// brought to exactly three numbers: the ones that are missing become zero,
/// and nothing else changes. So `1.21` and `1.21.0` are handed to the strict
/// parser as the same text.
pub proof fn lemma_dotted_normalizes(parts: Seq<u64>)
    requires
        1 <= parts.len() <= 3,
    ensures
        normalize(dotted(parts)) == render(key_of_parts(parts)),
{
    let s = dotted(parts);
    lemma_dotted_shape(parts);
    lemma_absent_dash(s);
    assert(core_of(s) =~= s);
    assert(suffix_of(s) =~= Seq::<char>::empty());
    let k = key_of_parts(parts);
    assert(render(k) =~= numbers_text(k.major as nat, k.minor as nat, k.patch as nat));
    reveal_with_fuel(dotted, 4);
    reveal_with_fuel(decimal, 2);
    if parts.len() == 1 {
        assert(normalize(s) =~= render(k));
    } else if parts.len() == 2 {
        assert(parts.drop_last().len() == 1);
        assert(parts.drop_last()[0] == parts[0]);
        assert(normalize(s) =~= render(k));
    } else {
        let q = parts.drop_last();
        assert(q.len() == 2);
        assert(q.drop_last().len() == 1);
        assert(q.drop_last()[0] == parts[0]);
        assert(q.last() == parts[1]);
        assert(normalize(s) =~= render(k));
    }
}

/// A text of digits and dots holds no `-`.
proof fn lemma_absent_dash(s: Seq<char>)
    requires
        forall|i: int| 0 <= i < s.len() ==> is_digit(#[trigger] s[i]) || s[i] == '.',
    ensures
        first_index(s, '-') == s.len(),
{
    assert forall|j: int| 0 <= j < s.len() implies s[j] != '-' by {
        assert(is_digit(s[j]) || s[j] == '.');
    }
    lemma_absent(s, '-');
}

/// Three numbers with dots between them hold nothing but digits and dots.
proof fn lemma_numbers_text_shape(a: nat, b: nat, c: nat)
    ensures
        numbers_text(a, b, c).len() >= 5,
        forall|i: int|
            0 <= i < numbers_text(a, b, c).len() ==> is_digit(#[trigger] numbers_text(a, b, c)[i])
                || numbers_text(a, b, c)[i] == '.',
{
    lemma_decimal_digits(a);
    lemma_decimal_digits(b);
    lemma_decimal_digits(c);
}

/// Where the normalized text of `raw` is the strict writing of some key, the
/// core of `raw` is numeric.
pub proof fn lemma_rendered_core_is_numeric(raw: Seq<char>, m: KeyModel)
    requires
        normalize(raw) == render(m),
    ensures
        is_numeric_core(raw),
{
    let d = first_index(raw, '-');
    lemma_first_index_bounds(raw, '-');
    let core = core_of(raw);
    let padded = padded_core(raw);
    let suffix = suffix_of(raw);
    let fix = normalize(raw);
    let t = numbers_text(m.major as nat, m.minor as nat, m.patch as nat);
    lemma_numbers_text_shape(m.major as nat, m.minor as nat, m.patch as nat);
    assert forall|j: int| 0 <= j < padded.len() implies padded[j] != '-' by {
        if j < core.len() {
            assert(padded[j] == raw[j]);
        }
    }
    assert(suffix.len() > 0 ==> suffix[0] == '-');
    if padded.len() < t.len() {
        let p = padded.len() as int;
        assert(fix[p] == t[p]);
        assert(fix[p] == suffix[0]);
        assert(is_digit(t[p]) || t[p] == '.');
        assert(false);
    }
    assert(padded.take(t.len() as int) =~= t) by {
        assert forall|j: int| 0 <= j < t.len() implies padded[j] == t[j] by {
            assert(fix[j] == padded[j]);
            assert(render(m)[j] == t[j]);
        }
    }
    if padded.len() > t.len() {
        let p = t.len() as int;
        assert(fix[p] == padded[p]);
        if m.pre.len() > 0 {
            assert(render(m)[p] == '-');
            assert(false);
        } else if m.build.len() > 0 {
            assert(render(m)[p] == '+');
        } else {
            assert(render(m).len() == t.len());
            assert(false);
        }
    }
    assert(starts_with_numbers(padded, m.major, m.minor, m.patch));
}

} // verus!
