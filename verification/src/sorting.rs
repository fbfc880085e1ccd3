//! Stable sorting by version key. The sort works on positions: it returns
//! the order in which the positions of a list of keys have to be read so that
//! the keys come out sorted, equal keys in the order they came in.

use vstd::prelude::*;
use crate::catalog::{info_models, VersionInfo, VersionInfoModel};
use crate::version_key::{
    comes_before, directed_order, option_model, order_laws, parse_semver, parse_spec, VersionKey,
};
use crate::version_model::KeyModel;

verus! {

/// What a list of optional keys stands for.
pub open spec fn key_models(keys: Seq<Option<VersionKey>>) -> Seq<Option<KeyModel>> {
    Seq::new(keys.len(), |i: int| option_model(keys[i]))
}

/// True when position `x` has to be read before position `y`: its key comes
/// first in the given direction, or the keys are level and `x` is the
/// earlier position.
pub open spec fn reads_before(keys: Seq<Option<KeyModel>>, ascending: bool, x: int, y: int)
    -> bool {
    let d = directed_order(keys[x], keys[y], ascending);
    d < 0 || (d == 0 && x < y)
}

/// True when `order` holds positions of `keys` only, each at most once, and
/// lists them so that each is read before all that follow it.
pub open spec fn reads_in_order(keys: Seq<Option<KeyModel>>, ascending: bool, order: Seq<usize>)
    -> bool {
    &&& forall|a: int| 0 <= a < order.len() ==> #[trigger] order[a] < keys.len()
    &&& forall|a: int, b: int|
        0 <= a < b < order.len() ==> reads_before(
            keys,
            ascending,
            #[trigger] order[a] as int,
            #[trigger] order[b] as int,
        )
}

/// True when position `x` is listed in `order`.
pub open spec fn lists(order: Seq<usize>, x: int) -> bool {
    exists|a: int| 0 <= a < order.len() && #[trigger] order[a] == x
}

/// True when `order` is the stable sorting order of `keys`: every position
/// of `keys` occurs in it, and it reads them in order.
pub open spec fn is_stable_order(keys: Seq<Option<KeyModel>>, ascending: bool, order: Seq<usize>)
    -> bool {
    &&& order.len() == keys.len()
    &&& reads_in_order(keys, ascending, order)
    &&& forall|x: int| 0 <= x < keys.len() ==> #[trigger] lists(order, x)
}

/// True when the keys are sorted as they stand: none has to come before an
/// earlier one.
pub open spec fn keys_sorted(keys: Seq<Option<KeyModel>>, ascending: bool) -> bool {
    forall|x: int, y: int|
        0 <= x < y < keys.len() ==> directed_order(#[trigger] keys[x], #[trigger] keys[y], ascending)
            <= 0
}

/// True when no two keys that are present are level with each other.
pub open spec fn present_keys_differ(keys: Seq<Option<KeyModel>>) -> bool {
    forall|x: int, y: int|
        0 <= x < keys.len() && 0 <= y < keys.len() && x != y && keys[x].is_some()
            && keys[y].is_some() ==> directed_order(#[trigger] keys[x], #[trigger] keys[y], true)
            != 0
}

/// True when the present keys are read from right to left: of two of them,
/// the one read first stood further right.
pub open spec fn reads_present_backwards(keys: Seq<Option<KeyModel>>, order: Seq<usize>) -> bool {
    forall|a: int, b: int|
        0 <= a < b < order.len() && keys[order[a] as int].is_some()
            && keys[order[b] as int].is_some() ==> #[trigger] order[a] > #[trigger] order[b]
}

/// Read from left to right, `order` counts up from zero.
pub open spec fn is_identity(order: Seq<usize>) -> bool {
    forall|a: int| 0 <= a < order.len() ==> #[trigger] order[a] == a
}

/// In either direction the order of optional keys is a total preorder,
/// provided the order of versions is one.
pub proof fn lemma_directed_order(
    a: Option<KeyModel>,
    b: Option<KeyModel>,
    c: Option<KeyModel>,
    ascending: bool,
)
    requires
        order_laws(),
    ensures
        directed_order(a, a, ascending) == 0,
        directed_order(a, b, ascending) == -directed_order(b, a, ascending),
        directed_order(a, b, ascending) <= 0 && directed_order(b, c, ascending) <= 0
            ==> directed_order(a, c, ascending) <= 0,
        directed_order(a, b, !ascending) == -directed_order(a, b, ascending),
{
    reveal(order_laws);
}

/// Putting position `i` into an order of earlier positions, behind all that
/// it does not have to come before and in front of all that it has to come
/// before, gives an order again.
proof fn lemma_insert_reads_in_order(
    keys: Seq<Option<KeyModel>>,
    ascending: bool,
    before: Seq<usize>,
    p: int,
    i: usize,
)
    requires
        0 <= p <= before.len(),
        i < keys.len(),
        reads_in_order(keys, ascending, before),
        forall|a: int| 0 <= a < before.len() ==> #[trigger] before[a] < i,
        forall|b: int|
            p <= b < before.len() ==> directed_order(
                keys[i as int],
                keys[#[trigger] before[b] as int],
                ascending,
            ) < 0,
        p > 0 ==> order_laws() && directed_order(
            keys[i as int],
            keys[before[p - 1] as int],
            ascending,
        ) >= 0,
    ensures
        reads_in_order(keys, ascending, before.insert(p, i)),
{
    let after = before.insert(p, i);
    assert forall|a: int| 0 <= a < p implies directed_order(
        keys[#[trigger] before[a] as int],
        keys[i as int],
        ascending,
    ) <= 0 by {
        let y = before[a] as int;
        let last = before[p - 1] as int;
        lemma_directed_order(keys[i as int], keys[last], keys[y], ascending);
        lemma_directed_order(keys[y], keys[last], keys[i as int], ascending);
        if a < p - 1 {
            assert(reads_before(keys, ascending, y, last));
        }
    }
    assert forall|a: int, b: int| 0 <= a < b < after.len() implies reads_before(
        keys,
        ascending,
        #[trigger] after[a] as int,
        #[trigger] after[b] as int,
    ) by {
        if b < p {
            assert(after[a] == before[a] && after[b] == before[b]);
        } else if b == p {
            assert(after[a] == before[a]);
        } else if a < p {
            assert(after[a] == before[a] && after[b] == before[b - 1]);
        } else if a == p {
            assert(after[b] == before[b - 1]);
        } else {
            assert(after[a] == before[a - 1] && after[b] == before[b - 1]);
        }
    }
    assert forall|a: int| 0 <= a < after.len() implies #[trigger] after[a] < keys.len() by {
        if a < p {
            assert(after[a] == before[a]);
        } else if a > p {
            assert(after[a] == before[a - 1]);
        }
    }
}

/// Putting position `i` into a list of all earlier positions gives a list of
/// all positions up to `i`.
proof fn lemma_insert_lists(before: Seq<usize>, p: int, i: usize)
    requires
        0 <= p <= before.len(),
        forall|a: int| 0 <= a < before.len() ==> #[trigger] before[a] < i,
        forall|x: int| 0 <= x < i ==> #[trigger] lists(before, x),
    ensures
        forall|a: int|
            0 <= a < before.insert(p, i).len() ==> #[trigger] before.insert(p, i)[a] < i + 1,
        forall|x: int| 0 <= x < i + 1 ==> #[trigger] lists(before.insert(p, i), x),
{
    let after = before.insert(p, i);
    assert forall|x: int| 0 <= x < i + 1 implies #[trigger] lists(after, x) by {
        if x < i {
            assert(lists(before, x));
            let a0 = choose|a: int| 0 <= a < before.len() && #[trigger] before[a] == x;
            if a0 < p {
                assert(after[a0] == x);
            } else {
                assert(after[a0 + 1] == x);
            }
        } else {
            assert(after[p] == x);
        }
    }
    assert forall|a: int| 0 <= a < after.len() implies #[trigger] after[a] < i + 1 by {
        if a < p {
            assert(after[a] == before[a]);
        } else if a > p {
            assert(after[a] == before[a - 1]);
        }
    }
}

/// In an order of keys that were sorted the other way round, present keys
/// that are not level with each other are read from right to left.
proof fn lemma_reversed(keys: Seq<Option<KeyModel>>, ascending: bool, order: Seq<usize>, a: int, b: int)
    requires
        order_laws(),
        reads_in_order(keys, ascending, order),
        keys_sorted(keys, !ascending),
        present_keys_differ(keys),
        0 <= a < b < order.len(),
        keys[order[a] as int].is_some(),
        keys[order[b] as int].is_some(),
    ensures
        order[a] > order[b],
{
    let x = order[a] as int;
    let y = order[b] as int;
    assert(reads_before(keys, ascending, x, y));
    lemma_directed_order(keys[x], keys[y], keys[x], ascending);
    lemma_directed_order(keys[x], keys[y], keys[x], true);
    if x < y {
        assert(directed_order(keys[x], keys[y], !ascending) <= 0);
        assert(directed_order(keys[x], keys[y], true) != 0);
    }
}

/// The stable sorting order of `keys` in the given direction.
///
/// The result lists every position of `keys` once; read in that order, the
/// keys are sorted, and level keys keep the order they came in. Keys that
/// are sorted already are read from left to right. Keys that are sorted in
/// the other direction have their present keys read from right to left,
/// provided no two of these are level.
pub fn sorting_order(keys: &Vec<Option<VersionKey>>, ascending: bool) -> (order: Vec<usize>)
    ensures
        is_stable_order(key_models(keys@), ascending, order@),
        keys_sorted(key_models(keys@), ascending) ==> is_identity(order@),
        keys_sorted(key_models(keys@), !ascending) && present_keys_differ(key_models(keys@))
            ==> reads_present_backwards(key_models(keys@), order@),
{
    let ghost models = key_models(keys@);
    let mut order: Vec<usize> = Vec::new();
    let mut i: usize = 0;
    while i < keys.len()
        invariant
            i <= keys.len(),
            models == key_models(keys@),
            order.len() == i,
            reads_in_order(models, ascending, order@),
            forall|a: int| 0 <= a < order.len() ==> #[trigger] order[a] < i,
            forall|x: int| 0 <= x < i ==> #[trigger] lists(order@, x),
            keys_sorted(models, ascending) ==> is_identity(order@),
            i >= 2 ==> order_laws(),
        decreases keys.len() - i,
    {
        let mut p: usize = order.len();
        while p > 0 && comes_before(&keys[i], &keys[order[p - 1]], ascending)
            invariant
                p <= order.len(),
                i < keys.len(),
                order.len() == i,
                models == key_models(keys@),
                forall|a: int| 0 <= a < order.len() ==> #[trigger] order[a] < i,
                forall|b: int|
                    p <= b < order.len() ==> directed_order(
                        models[i as int],
                        models[#[trigger] order[b] as int],
                        ascending,
                    ) < 0,
                p < order.len() ==> order_laws(),
            decreases p,
        {
            p -= 1;
        }
        let ghost before = order@;
        proof {
            lemma_insert_reads_in_order(models, ascending, before, p as int, i);
            lemma_insert_lists(before, p as int, i);
            if keys_sorted(models, ascending) && p < i {
                assert(before[i - 1] == i - 1);
                lemma_directed_order(models[i as int], models[i - 1], models[i as int], ascending);
                assert(directed_order(models[i as int], models[before[i - 1] as int], ascending)
                    < 0);
                assert(false);
            }
        }
        order.insert(p, i);
        proof {
            if keys_sorted(models, ascending) {
                assert forall|a: int| 0 <= a < order.len() implies #[trigger] order[a] == a by {
                    if a < p {
                        assert(order[a] == before[a]);
                    }
                }
            }
        }
        i += 1;
    }
    proof {
        if keys_sorted(models, !ascending) && present_keys_differ(models) {
            assert forall|a: int, b: int|
                0 <= a < b < order.len() && models[order[a] as int].is_some()
                    && models[order[b] as int].is_some() implies #[trigger] order[a]
                > #[trigger] order[b] by {
                lemma_reversed(models, ascending, order@, a, b);
            }
        }
    }
    order
}

/// The keys of a list of version records: for each record what its name
/// parses to.
pub open spec fn keys_of(list: Seq<VersionInfoModel>) -> Seq<Option<KeyModel>> {
    Seq::new(list.len(), |i: int| parse_spec(list[i].ver))
}

/// True when `after` holds the records of `before`, read in `order`.
pub open spec fn rearranged(
    before: Seq<VersionInfoModel>,
    after: Seq<VersionInfoModel>,
    order: Seq<usize>,
) -> bool {
    &&& after.len() == before.len()
    &&& order.len() == before.len()
    &&& forall|k: int|
        0 <= k < order.len() ==> #[trigger] order[k] < before.len() && after[k]
            == before[order[k] as int]
}

/// True when `order` sorts `before` into `after` in the given direction:
/// it is the stable sorting order of the keys, and `after` holds the records
/// in that order. Where the records stood sorted in the other direction and
/// no two present keys are level, those with a key change places exactly:
/// of two of them, the one that stood first now stands last.
pub open spec fn sorts_into(
    before: Seq<VersionInfoModel>,
    after: Seq<VersionInfoModel>,
    ascending: bool,
    order: Seq<usize>,
) -> bool {
    &&& rearranged(before, after, order)
    &&& is_stable_order(keys_of(before), ascending, order)
    &&& keys_sorted(keys_of(before), !ascending) && present_keys_differ(keys_of(before))
        ==> reads_present_backwards(keys_of(before), order)
}

/// True when `after` is `before`, stably sorted by key in the given
/// direction.
pub open spec fn sorted_from(
    before: Seq<VersionInfoModel>,
    after: Seq<VersionInfoModel>,
    ascending: bool,
) -> bool {
    exists|order: Seq<usize>| sorts_into(before, after, ascending, order)
}

/// In a sorted list the records without a key stand together at one end:
/// behind all records with a key where the order is descending, in front of
/// them where it is ascending.
pub proof fn lemma_keyless_at_one_end(list: Seq<VersionInfoModel>, ascending: bool, x: int, y: int)
    requires
        keys_sorted(keys_of(list), ascending),
        0 <= x < y < list.len(),
    ensures
        !ascending && keys_of(list)[x].is_none() ==> keys_of(list)[y].is_none(),
        ascending && keys_of(list)[y].is_none() ==> keys_of(list)[x].is_none(),
{
    let keys = keys_of(list);
    assert(directed_order(keys[x], keys[y], ascending) <= 0);
}

/// Sorts version records by their keys, in ascending or descending order.
///
/// The sort is stable: records whose keys are level, and so all records
/// without a key, keep the order in which they stood. Afterwards the list is
/// sorted. A list that was sorted already is left as it was, so sorting twice
/// is sorting once. Sorting a list that stood sorted in the other direction
/// exactly reverses the order of the records that have a key, provided no two
/// of their keys are level.
pub fn sort_versions(list: &mut Vec<VersionInfo>, ascending: bool)
    ensures
        sorted_from(info_models(old(list)@), info_models(final(list)@), ascending),
        keys_sorted(keys_of(info_models(final(list)@)), ascending),
        keys_sorted(keys_of(info_models(old(list)@)), ascending) ==> info_models(final(list)@)
            == info_models(old(list)@),
{
    let ghost before = info_models(list@);
    let mut keys: Vec<Option<VersionKey>> = Vec::new();
    let mut i: usize = 0;
    while i < list.len()
        invariant
            i <= list.len(),
            keys.len() == i,
            before == info_models(list@),
            forall|j: int| 0 <= j < i ==> option_model(keys@[j]) == parse_spec(list@[j].ver@),
        decreases list.len() - i,
    {
        keys.push(parse_semver(list[i].ver.as_str()));
        i += 1;
    }
    assert(key_models(keys@) =~= keys_of(before));
    let order = sorting_order(&keys, ascending);
    let mut sorted: Vec<VersionInfo> = Vec::new();
    let mut k: usize = 0;
    while k < order.len()
        invariant
            k <= order.len(),
            order.len() == list.len(),
            sorted.len() == k,
            before == info_models(list@),
            is_stable_order(keys_of(before), ascending, order@),
            forall|j: int| 0 <= j < k ==> sorted@[j]@ == before[order@[j] as int],
        decreases order.len() - k,
    {
        sorted.push(list[order[k]].duplicate());
        k += 1;
    }
    *list = sorted;
    proof {
        let after = info_models(list@);
        assert(sorts_into(before, after, ascending, order@));
        assert forall|x: int, y: int| 0 <= x < y < after.len() implies directed_order(
            #[trigger] keys_of(after)[x],
            #[trigger] keys_of(after)[y],
            ascending,
        ) <= 0 by {
            assert(reads_before(keys_of(before), ascending, order@[x] as int, order@[y] as int));
        }
        if keys_sorted(keys_of(before), ascending) {
            assert(after =~= before);
        }
    }
}

} // verus!
