//! Comparable keys for version strings. A key is what the strict
//! semantic-version parser makes of a version once its core has been padded
//! to three numbers; keys are ordered as that parser's versions are.

use vstd::prelude::*;
use core::cmp::Ordering;
use crate::text::{chars_of, count_of, lemma_first_index, push_range};
use crate::version_model::{
    dotted, is_numeric_core, key_of_parts, lemma_dotted_normalizes,
    lemma_rendered_core_is_numeric, normalize, plain_key, render, KeyModel,
};

verus! {

/// `semver::Prerelease`, carried through without a look inside.
#[verifier::external_type_specification]
#[verifier::external_body]
pub struct ExPrerelease(semver::Prerelease);

/// `semver::BuildMetadata`, carried through without a look inside.
#[verifier::external_type_specification]
#[verifier::external_body]
pub struct ExBuildMetadata(semver::BuildMetadata);

/// `semver::Version` with its five public fields: the three numbers and the
/// two tags.
#[verifier::external_type_specification]
pub struct ExVersion(semver::Version);

/// The characters of a pre-release tag, as `Prerelease::as_str` gives them.
pub uninterp spec fn prerelease_text(p: semver::Prerelease) -> Seq<char>;

/// The characters of a build tag, as `BuildMetadata::as_str` gives them.
pub uninterp spec fn build_text(b: semver::BuildMetadata) -> Seq<char>;

/// What `semver::Version::parse` makes of a text: nothing, or a version.
pub uninterp spec fn semver_parse(text: Seq<char>) -> Option<KeyModel>;

/// How `semver` orders two versions: -1 where the first comes first, 0 where
/// neither does, 1 where the second comes first.
pub uninterp spec fn version_order(a: KeyModel, b: KeyModel) -> int;

/// What a parsed version stands for.
pub open spec fn model_of(v: semver::Version) -> KeyModel {
    KeyModel {
        major: v.major,
        minor: v.minor,
        patch: v.patch,
        pre: prerelease_text(v.pre),
        build: build_text(v.build),
    }
}

/// How the three numbers alone order two keys, as a triple of integers is
/// ordered: -1, 0 or 1.
pub open spec fn numbers_order(a: KeyModel, b: KeyModel) -> int {
    if a.major != b.major {
        if a.major < b.major {
            -1
        } else {
            1
        }
    } else if a.minor != b.minor {
        if a.minor < b.minor {
            -1
        } else {
            1
        }
    } else if a.patch != b.patch {
        if a.patch < b.patch {
            -1
        } else {
            1
        }
    } else {
        0
    }
}

/// What is taken for granted of `version_order`: it is a total order, the
/// three numbers decide wherever they differ, and with equal numbers a
/// pre-release comes before the release.
#[verifier::opaque]
pub open spec fn order_laws() -> bool {
    &&& forall|a: KeyModel, b: KeyModel| -1 <= #[trigger] version_order(a, b) <= 1
    &&& forall|a: KeyModel| #[trigger] version_order(a, a) == 0
    &&& forall|a: KeyModel, b: KeyModel| #[trigger] version_order(a, b) == -version_order(b, a)
    &&& forall|a: KeyModel, b: KeyModel, c: KeyModel|
        #![trigger version_order(a, b), version_order(b, c)]
        version_order(a, b) <= 0 && version_order(b, c) <= 0 ==> version_order(a, c) <= 0
    &&& forall|a: KeyModel, b: KeyModel|
        numbers_order(a, b) != 0 ==> #[trigger] version_order(a, b) == numbers_order(a, b)
    &&& forall|a: KeyModel, b: KeyModel|
        numbers_order(a, b) == 0 && a.pre.len() > 0 && b.pre.len() == 0
            ==> #[trigger] version_order(a, b) == -1
}

/// The key of a version string.
pub struct VersionKey {
    version: semver::Version,
}

impl View for VersionKey {
    type V = KeyModel;

    closed spec fn view(&self) -> KeyModel {
        model_of(self.version)
    }
}

/// What an optional key stands for.
pub open spec fn option_model(k: Option<VersionKey>) -> Option<KeyModel> {
    match k {
        Some(k) => Some(k@),
        None => None,
    }
}

/// Calls `semver::Version::parse` and drops the reason of a failure.
///
/// Claimed of it without proof: the result depends on the text alone; three
/// decimal numbers with dots between them parse to the plain release they
/// name; and a text that parses is the strict writing of the version it
/// parses to (numbers without leading zeros, then `-tag`, then `+build`).
#[verifier::external_body]
fn strict_parse(text: &str) -> (r: Option<semver::Version>)
    ensures
        match r {
            Some(v) => semver_parse(text@) == Some(model_of(v)),
            None => semver_parse(text@) is None,
        },
        forall|a: u64, b: u64, c: u64|
            text@ == render(#[trigger] plain_key(a, b, c)) ==> r.is_some() && model_of(r.unwrap())
                == plain_key(a, b, c),
        r matches Some(v) ==> text@ == render(model_of(v)),
{
    semver::Version::parse(text).ok()
}

/// Calls `Prerelease::as_str` and copies what it returns.
#[verifier::external_body]
fn tag_string(p: &semver::Prerelease) -> (s: String)
    ensures
        s@ == prerelease_text(*p),
{
    p.as_str().to_string()
}

/// Calls `BuildMetadata::as_str` and copies what it returns.
#[verifier::external_body]
fn build_string(b: &semver::BuildMetadata) -> (s: String)
    ensures
        s@ == build_text(*b),
{
    b.as_str().to_string()
}

/// The three-valued result that stands for a number: less for the negative
/// ones, equal for zero, greater for the positive ones.
pub open spec fn order_of(n: int) -> Ordering {
    if n < 0 {
        Ordering::Less
    } else if n == 0 {
        Ordering::Equal
    } else {
        Ordering::Greater
    }
}

/// How `semver` and std together order two optional versions: an absent one
/// comes before every present one.
pub open spec fn outside_order(a: Option<KeyModel>, b: Option<KeyModel>) -> int {
    match (a, b) {
        (None, None) => 0,
        (None, Some(_)) => -1,
        (Some(_), None) => 1,
        (Some(x), Some(y)) => version_order(x, y),
    }
}

/// True when `o` is the place of `a` relative to `b` in the order of
/// versions, and that order obeys `order_laws`.
pub open spec fn placed_in_total_order(o: Ordering, a: Option<KeyModel>, b: Option<KeyModel>)
    -> bool {
    order_laws() && o == order_of(outside_order(a, b))
}

/// Calls `Ord::cmp` on two optional `semver` versions.
///
/// Claimed of it without proof: an absent version comes before any present
/// one, as std orders `Option`; two present ones are ordered by what they
/// stand for alone; and that order obeys `order_laws`, which is what the
/// documentation of `semver::Version` says under "Total ordering".
#[verifier::external_body]
fn natural_order(a: &Option<VersionKey>, b: &Option<VersionKey>) -> (o: Ordering)
    ensures
        match (*a, *b) {
            (Some(x), Some(y)) => o == order_of(version_order(x@, y@)),
            (None, Some(_)) => o == Ordering::Less,
            (Some(_), None) => o == Ordering::Greater,
            (None, None) => o == Ordering::Equal,
        },
        placed_in_total_order(o, option_model(*a), option_model(*b)),
{
    let x = a.as_ref().map(|k| &k.version);
    let y = b.as_ref().map(|k| &k.version);
    x.cmp(&y)
}

/// How two keys are ordered: equal keys are level, others stand as `semver`
/// orders them.
pub open spec fn precedence(a: KeyModel, b: KeyModel) -> int {
    if a == b {
        0
    } else {
        version_order(a, b)
    }
}

/// The natural order of optional keys: a missing key comes before every key.
pub open spec fn option_order(a: Option<KeyModel>, b: Option<KeyModel>) -> int {
    match (a, b) {
        (None, None) => 0,
        (None, Some(_)) => -1,
        (Some(_), None) => 1,
        (Some(x), Some(y)) => precedence(x, y),
    }
}

/// The natural order, or its reverse where `ascending` is false.
pub open spec fn directed_order(a: Option<KeyModel>, b: Option<KeyModel>, ascending: bool) -> int {
    if ascending {
        option_order(a, b)
    } else {
        -option_order(a, b)
    }
}

/// What `compare` returns.
pub open spec fn compare_spec(a: Option<KeyModel>, b: Option<KeyModel>, ascending: bool)
    -> Ordering {
    order_of(directed_order(a, b, ascending))
}

/// What `parse_semver` returns: the strict parse of the normalized text.
pub open spec fn parse_spec(raw: Seq<char>) -> Option<KeyModel> {
    semver_parse(normalize(raw))
}

impl VersionKey {
    /// The first number.
    pub fn major(&self) -> (n: u64)
        ensures
            n == self@.major,
    {
        self.version.major
    }

    /// The second number.
    pub fn minor(&self) -> (n: u64)
        ensures
            n == self@.minor,
    {
        self.version.minor
    }

    /// The third number.
    pub fn patch(&self) -> (n: u64)
        ensures
            n == self@.patch,
    {
        self.version.patch
    }

    /// The pre-release tag, empty for a release.
    pub fn pre(&self) -> (s: String)
        ensures
            s@ == self@.pre,
    {
        tag_string(&self.version.pre)
    }

    /// The build tag, empty where there is none.
    pub fn build(&self) -> (s: String)
        ensures
            s@ == self@.build,
    {
        build_string(&self.version.build)
    }
}

/// Brings a version string to the form the strict parser asks for: the part
/// before the first `-` is padded with `.0` to three components, the rest is
/// kept as it is.
pub fn normalized(raw: &str) -> (fix: String)
    ensures
        fix@ == normalize(raw@),
{
    let chars = chars_of(raw);
    let mut d: usize = 0;
    while d < chars.len() && chars[d] != '-'
        invariant
            d <= chars.len(),
            forall|j: int| 0 <= j < d ==> chars@[j] != '-',
        decreases chars.len() - d,
    {
        d += 1;
    }
    proof {
        lemma_first_index(chars@, '-', d as int);
    }
    let mut dots: usize = 0;
    let mut i: usize = 0;
    while i < d
        invariant
            i <= d <= chars.len(),
            dots <= i,
            dots == count_of(chars@.take(i as int), '.'),
        decreases d - i,
    {
        proof {
            assert(chars@.take(i + 1).drop_last() =~= chars@.take(i as int));
        }
        if chars[i] == '.' {
            dots += 1;
        }
        i += 1;
    }
    let mut fix = String::new();
    push_range(&mut fix, &chars, 0, d);
    if dots < 2 {
        fix.push('.');
        fix.push('0');
    }
    if dots < 1 {
        fix.push('.');
        fix.push('0');
    }
    push_range(&mut fix, &chars, d, chars.len());
    proof {
        assert(chars@.subrange(0, d as int) =~= chars@.take(d as int));
        assert(chars@.subrange(d as int, chars.len() as int) =~= chars@.skip(d as int));
        assert(fix@ =~= normalize(raw@));
    }
    fix
}

/// Parses a loosely written version into its key.
///
/// The result is what the strict parser makes of the normalized text. A
/// version written as one to three decimal numbers with dots between them
/// always has a key, which holds these numbers and zero for the missing
/// ones. A version has a key only if its core is numeric, and the key then
/// writes back to the normalized text.
pub fn parse_semver(raw: &str) -> (r: Option<VersionKey>)
    ensures
        option_model(r) == parse_spec(raw@),
        forall|parts: Seq<u64>|
            1 <= parts.len() <= 3 && raw@ == #[trigger] dotted(parts) ==> option_model(r) == Some(
                key_of_parts(parts),
            ),
        !is_numeric_core(raw@) ==> r.is_none(),
        r matches Some(k) ==> render(k@) == normalize(raw@),
{
    let fix = normalized(raw);
    let parsed = strict_parse(fix.as_str());
    proof {
        assert forall|parts: Seq<u64>|
            1 <= parts.len() <= 3 && raw@ == #[trigger] dotted(parts) implies parsed.is_some()
            && model_of(parsed.unwrap()) == key_of_parts(parts) by {
            lemma_dotted_normalizes(parts);
            let k = key_of_parts(parts);
            assert(k == plain_key(k.major, k.minor, k.patch));
        }
        if parsed.is_some() {
            lemma_rendered_core_is_numeric(raw@, model_of(parsed.unwrap()));
        }
    }
    match parsed {
        Some(version) => Some(VersionKey { version }),
        None => None,
    }
}

/// Orders two optional keys: a missing key comes before every key, two keys
/// stand in their natural order, and the whole is reversed where `ascending`
/// is false.
pub fn compare(a: &Option<VersionKey>, b: &Option<VersionKey>, ascending: bool) -> (o: Ordering)
    ensures
        o == compare_spec(option_model(*a), option_model(*b), ascending),
        order_laws(),
{
    let natural = natural_order(a, b);
    proof {
        reveal(order_laws);
    }
    if ascending {
        natural
    } else {
        match natural {
            Ordering::Less => Ordering::Greater,
            Ordering::Equal => Ordering::Equal,
            Ordering::Greater => Ordering::Less,
        }
    }
}

/// True when `a` has to stand before `b` in the given direction.
pub fn comes_before(a: &Option<VersionKey>, b: &Option<VersionKey>, ascending: bool) -> (r: bool)
    ensures
        r == (directed_order(option_model(*a), option_model(*b), ascending) < 0),
        order_laws(),
{
    match compare(a, b, ascending) {
        Ordering::Less => true,
        _ => false,
    }
}

/// Two versions written as numbers and dots that differ only in missing
/// trailing zeros have the same key, and so compare as equal in either
/// direction: `1.21` and `1.21.0` are one version.
pub proof fn lemma_padding_is_invisible(parts: Seq<u64>, longer: Seq<u64>, ascending: bool)
    requires
        1 <= parts.len() <= longer.len() <= 3,
        forall|i: int| 0 <= i < parts.len() ==> longer[i] == parts[i],
        forall|i: int| parts.len() <= i < longer.len() ==> longer[i] == 0,
    ensures
        parse_spec(dotted(parts)) == parse_spec(dotted(longer)),
        compare_spec(parse_spec(dotted(parts)), parse_spec(dotted(longer)), ascending)
            == Ordering::Equal,
{
    lemma_dotted_normalizes(parts);
    lemma_dotted_normalizes(longer);
    assert(key_of_parts(parts) == key_of_parts(longer));
}

/// A version without a key is placed after every version that has one when
/// the order is descending, and before every such version when it is
/// ascending.
pub proof fn lemma_missing_key_order(k: KeyModel, ascending: bool)
    ensures
        compare_spec(Some(k), None, false) == Ordering::Less,
        compare_spec(None, Some(k), false) == Ordering::Greater,
        compare_spec(Some(k), None, true) == Ordering::Greater,
        compare_spec(None, Some(k), true) == Ordering::Less,
        compare_spec(None, None, ascending) == Ordering::Equal,
{
}

} // verus!
