//! Merging of lists, maps and optional values.

use std::collections::{BTreeMap, HashMap};
use std::hash::Hash;
use vstd::prelude::*;
use vstd::std_specs::cmp::PartialEqSpec;

verus! {

/// Says that some item of `items` equals `item` under the type's `==`.
pub open spec fn holds<T: PartialEq>(items: Seq<T>, item: T) -> bool {
    exists|i: int| 0 <= i < items.len() && #[trigger] items[i].eq_spec(&item)
}

/// `first`, followed by the items of `second` that are not yet held when
/// their turn comes, in the order of `second`.
pub open spec fn merge_seqs<T: PartialEq>(first: Seq<T>, second: Seq<T>) -> Seq<T>
    decreases second.len(),
{
    if second.len() == 0 {
        first
    } else {
        let merged = merge_seqs(first, second.drop_last());
        if holds(merged, second.last()) {
            merged
        } else {
            merged.push(second.last())
        }
    }
}

/// Where `==` of the type tells whether two values are the same, merging
/// keeps `first` in front, holds exactly what one of the two holds, and
/// repeats nothing that `first` does not repeat.
pub proof fn lemma_merge_seqs<T: PartialEq>(first: Seq<T>, second: Seq<T>)
    requires
        forall|x: T, y: T| #[trigger] x.eq_spec(&y) <==> x == y,
    ensures
        first.is_prefix_of(merge_seqs(first, second)),
        forall|x: T|
            #[trigger] merge_seqs(first, second).contains(x) <==> first.contains(x)
                || second.contains(x),
        first.no_duplicates() ==> merge_seqs(first, second).no_duplicates(),
    decreases second.len(),
{
    let merged = merge_seqs(first, second);
    if second.len() > 0 {
        let front = second.drop_last();
        let item = second.last();
        let before = merge_seqs(first, front);
        lemma_merge_seqs(first, front);
        assert(holds(before, item) <==> before.contains(item)) by {
            if holds(before, item) {
                let i = choose|i: int| 0 <= i < before.len() && #[trigger] before[i].eq_spec(&item);
                assert(before[i] == item);
            }
            if before.contains(item) {
                let i = choose|i: int| 0 <= i < before.len() && before[i] == item;
                assert(before[i].eq_spec(&item));
            }
        }
        assert forall|x: T| #[trigger] merged.contains(x) <==> first.contains(x) || second.contains(
            x,
        ) by {
            if merged.contains(x) {
                let i = choose|i: int| 0 <= i < merged.len() && merged[i] == x;
                if i < before.len() {
                    assert(before[i] == x);
                    assert(before.contains(x));
                    if front.contains(x) {
                        let j = choose|j: int| 0 <= j < front.len() && front[j] == x;
                        assert(second[j] == x);
                    }
                } else {
                    assert(second[second.len() - 1] == x);
                }
            }
            if first.contains(x) {
                assert(before.contains(x));
                let i = choose|i: int| 0 <= i < before.len() && before[i] == x;
                assert(merged[i] == x);
            }
            if second.contains(x) {
                let j = choose|j: int| 0 <= j < second.len() && second[j] == x;
                if j < front.len() {
                    assert(front[j] == x);
                    assert(front.contains(x));
                    assert(before.contains(x));
                    let i = choose|i: int| 0 <= i < before.len() && before[i] == x;
                    assert(merged[i] == x);
                } else if before.contains(x) {
                    let i = choose|i: int| 0 <= i < before.len() && before[i] == x;
                    assert(merged[i] == x);
                } else {
                    assert(merged[merged.len() - 1] == x);
                }
            }
        }
        if first.no_duplicates() && !before.contains(item) {
            assert forall|i: int, j: int|
                0 <= i < merged.len() && 0 <= j < merged.len() && i != j implies merged[i]
                != merged[j] by {
                if i < before.len() && j < before.len() {
                    assert(before[i] != before[j]);
                } else if i < before.len() {
                    assert(before.contains(before[i]));
                } else {
                    assert(before.contains(before[j]));
                }
            }
        }
    }
}

/// Tells whether `items` holds an item equal to `item`.
fn contains<T: Eq>(items: &Vec<T>, item: &T) -> (found: bool)
    ensures
        T::obeys_eq_spec() ==> found == holds(items@, *item),
{
    let mut i: usize = 0;
    while i < items.len()
        invariant
            i <= items.len(),
            T::obeys_eq_spec() ==> forall|j: int| 0 <= j < i ==> !(#[trigger] items@[j]).eq_spec(item),
        decreases items.len() - i,
    {
        if items[i] == *item {
            return true;
        }
        i += 1;
    }
    false
}

/// Appends to `vec1` the items of `vec2` that it does not hold yet, each
/// once. The items of `vec1` stay as they are, repeats included.
pub fn merge_vecs<T: Eq + Clone>(vec1: Vec<T>, vec2: Vec<T>) -> (merged: Vec<T>)
    ensures
        vec1@.is_prefix_of(merged@),
        T::obeys_eq_spec() ==> merged@ == merge_seqs(vec1@, vec2@),
{
    let mut result = vec1;
    for item in iter: vec2
        invariant
            iter.seq() == vec2@,
            vec1@.is_prefix_of(result@),
            T::obeys_eq_spec() ==> result@ == merge_seqs(vec1@, vec2@.take(iter.index() as int)),
    {
        assert(vec2@.take(iter.index() + 1).drop_last() =~= vec2@.take(iter.index() as int));
        if !contains(&result, &item) {
            result.push(item);
        }
    }
    assert(vec2@.take(vec2@.len() as int) =~= vec2@);
    result
}

/// Adds every entry of `other` to `map`, replacing the value of a key that
/// `map` already has.
///
/// Calls `Extend::extend` of the standard library's `BTreeMap`, which inserts
/// the entries one by one.
#[verifier::external_body]
fn extend_btree_map<K: Ord, V>(map: &mut BTreeMap<K, V>, other: BTreeMap<K, V>)
    ensures
        vstd::laws_cmp::obeys_cmp::<K>() ==> final(map)@ == old(map)@.union_prefer_right(other@),
{
    map.extend(other);
}

/// Adds every entry of `other` to `map`, replacing the value of a key that
/// `map` already has.
///
/// Calls `Extend::extend` of the standard library's `HashMap`, which inserts
/// the entries one by one.
#[verifier::external_body]
fn extend_hash_map<K: Eq + Hash, V>(map: &mut HashMap<K, V>, other: HashMap<K, V>)
    ensures
        vstd::std_specs::hash::obeys_key_model::<K>() ==> final(map)@ == old(
            map,
        )@.union_prefer_right(other@),
{
    map.extend(other);
}

/// The entries of both maps; where both have a key, the value of `map2`.
pub fn merge_btreemaps<K, V>(map1: BTreeMap<K, V>, map2: BTreeMap<K, V>) -> (merged: BTreeMap<
    K,
    V,
>) where K: Ord
    ensures
        vstd::laws_cmp::obeys_cmp::<K>() ==> merged@ == map1@.union_prefer_right(map2@),
{
    let mut merged_map = map1;
    extend_btree_map(&mut merged_map, map2);
    merged_map
}

/// The entries of both maps; where both have a key, the value of `map2`.
pub fn merge_hashmaps<K, V>(map1: HashMap<K, V>, map2: HashMap<K, V>) -> (merged: HashMap<
    K,
    V,
>) where K: Eq + Hash
    ensures
        vstd::std_specs::hash::obeys_key_model::<K>() ==> merged@ == map1@.union_prefer_right(
            map2@,
        ),
{
    let mut merged_map = map1;
    extend_hash_map(&mut merged_map, map2);
    merged_map
}

/// Says that `joined` is what `f` gives for `c1` and `c2`, with a default of
/// the type in place of an absent one.
pub open spec fn joined_with_default<F, T>(f: F, c1: Option<T>, c2: Option<T>, joined: T) -> bool where
    F: Fn(T, T) -> T,
    T: Default,
{
    exists|d1: T, d2: T|
        {
            &&& c1 is Some ==> d1 == c1.unwrap()
            &&& c1 is None ==> call_ensures(T::default, (), d1)
            &&& c2 is Some ==> d2 == c2.unwrap()
            &&& c2 is None ==> call_ensures(T::default, (), d2)
            &&& #[trigger] call_ensures(f, (d1, d2), joined)
        }
}

/// Says how `kind_option_lift` joins two optional values with `f`: an absent
/// one is replaced by the type's default, and only two absent ones give none.
pub open spec fn kindly_joined<F, T>(
    f: F,
    opt1: Option<T>,
    opt2: Option<T>,
    joined: Option<T>,
) -> bool where F: Fn(T, T) -> T, T: Default {
    if opt1 is None && opt2 is None {
        joined is None
    } else {
        joined is Some && joined_with_default(f, opt1, opt2, joined.unwrap())
    }
}

/// Says on which optional values the function that `kind_option_lift` gives
/// may be called: on those for which `f` may be called on what it is handed.
pub open spec fn kindly_joinable<F, T>(f: F, opt1: Option<T>, opt2: Option<T>) -> bool where
    F: Fn(T, T) -> T,
    T: Default,
{
    opt1 is Some || opt2 is Some ==> forall|d1: T, d2: T|
        {
            &&& opt1 is Some ==> d1 == opt1.unwrap()
            &&& opt1 is None ==> call_ensures(T::default, (), d1)
            &&& opt2 is Some ==> d2 == opt2.unwrap()
            &&& opt2 is None ==> call_ensures(T::default, (), d2)
        } ==> #[trigger] call_requires(f, (d1, d2))
}

/// Lifts a function that joins two values to one that joins two optional
/// values, with the type's default in place of an absent one. Two absent
/// values give none.
pub fn kind_option_lift<F, T>(f: F) -> (lifted: impl Fn(Option<T>, Option<T>) -> Option<T>) where
    F: Fn(T, T) -> T,
    T: Default,

    ensures
        forall|opt1: Option<T>, opt2: Option<T>|
            kindly_joinable(f, opt1, opt2) ==> #[trigger] call_requires(lifted, (opt1, opt2)),
        forall|opt1: Option<T>, opt2: Option<T>, joined: Option<T>|
            #[trigger] call_ensures(lifted, (opt1, opt2), joined) ==> kindly_joined(
                f,
                opt1,
                opt2,
                joined,
            ),
{
    move |opt1: Option<T>, opt2: Option<T>| -> (joined: Option<T>)
        requires
            kindly_joinable(f, opt1, opt2),
        ensures
            kindly_joined(f, opt1, opt2, joined),
        {
            match (opt1, opt2) {
                (Some(c1), Some(c2)) => {
                    let c = f(c1, c2);
                    assert(call_ensures(f, (c1, c2), c));
                    Some(c)
                },
                (Some(c1), None) => {
                    let d = T::default();
                    let c = f(c1, d);
                    assert(call_ensures(f, (c1, d), c));
                    Some(c)
                },
                (None, Some(c2)) => {
                    let d = T::default();
                    let c = f(d, c2);
                    assert(call_ensures(f, (d, c2), c));
                    Some(c)
                },
                (None, None) => None,
            }
        }
}

/// Says how `strict_option_lift` joins two optional values with `f`: only
/// two present ones give a value.
pub open spec fn strictly_joined<F, T>(
    f: F,
    opt1: Option<T>,
    opt2: Option<T>,
    joined: Option<T>,
) -> bool where F: Fn(T, T) -> T {
    match (opt1, opt2) {
        (Some(c1), Some(c2)) => joined matches Some(c) && call_ensures(f, (c1, c2), c),
        _ => joined is None,
    }
}

/// Lifts a function that joins two values to one that joins two optional
/// values and gives a value only where both are present.
pub fn strict_option_lift<F, T>(f: F) -> (lifted: impl Fn(Option<T>, Option<T>) -> Option<T>) where
    F: Fn(T, T) -> T,

    ensures
        forall|opt1: Option<T>, opt2: Option<T>|
            (opt1 is Some && opt2 is Some ==> call_requires(f, (opt1.unwrap(), opt2.unwrap())))
                ==> #[trigger] call_requires(lifted, (opt1, opt2)),
        forall|opt1: Option<T>, opt2: Option<T>, joined: Option<T>|
            #[trigger] call_ensures(lifted, (opt1, opt2), joined) ==> strictly_joined(
                f,
                opt1,
                opt2,
                joined,
            ),
{
    move |opt1: Option<T>, opt2: Option<T>| -> (joined: Option<T>)
        requires
            opt1 is Some && opt2 is Some ==> call_requires(f, (opt1.unwrap(), opt2.unwrap())),
        ensures
            strictly_joined(f, opt1, opt2, joined),
        {
            match (opt1, opt2) {
                (Some(c1), Some(c2)) => Some(f(c1, c2)),
                _ => None,
            }
        }
}

/// The entries of both maps, with the value of `map2` where both have a
/// key; the one map that is present where the other is absent; none where
/// both are absent.
pub fn merge_opbtreemaps<K, V>(map1: Option<BTreeMap<K, V>>, map2: Option<BTreeMap<K, V>>) -> (merged:
    Option<BTreeMap<K, V>>) where K: Ord
    ensures
        match (map1, map2) {
            (Some(m1), Some(m2)) => merged matches Some(m) && (vstd::laws_cmp::obeys_cmp::<K>()
                ==> m@ == m1@.union_prefer_right(m2@)),
            (Some(m1), None) => merged == Some(m1),
            (None, Some(m2)) => merged == Some(m2),
            (None, None) => merged is None,
        },
{
    match (map1, map2) {
        (Some(m1), Some(m2)) => {
            let mut m1 = m1;
            extend_btree_map(&mut m1, m2);
            Some(m1)
        },
        (Some(m), None) => Some(m),
        (None, Some(m)) => Some(m),
        (None, None) => None,
    }
}

/// The items of the first list followed by those of the second that are not
/// yet held, an absent list counting as empty; none where that leaves
/// nothing.
pub fn merge_opvecs<T: Eq + Clone>(opt1: Option<Vec<T>>, opt2: Option<Vec<T>>) -> (merged: Option<
    Vec<T>,
>)
    ensures
        T::obeys_eq_spec() ==> list_or_empty(merged) == merge_seqs(
            list_or_empty(opt1),
            list_or_empty(opt2),
        ),
        merged matches Some(items) ==> items@.len() > 0,
        merged is None ==> list_or_empty(opt1).len() == 0,
{
    let result: Vec<T> = match opt1 {
        Some(vec1) => vec1,
        None => Vec::new(),
    };
    let result = match opt2 {
        Some(vec2) => merge_vecs(result, vec2),
        None => result,
    };
    if result.is_empty() {
        None
    } else {
        Some(result)
    }
}

/// The items of an optional list; none for an absent one.
pub open spec fn list_or_empty<T>(list: Option<Vec<T>>) -> Seq<T> {
    match list {
        Some(items) => items@,
        None => Seq::empty(),
    }
}

} // verus!
