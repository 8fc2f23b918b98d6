use std::collections::{BTreeMap, HashMap};
use weapon_catalog::jp2::general::{
    kind_option_lift, merge_btreemaps, merge_hashmaps, merge_opbtreemaps, merge_opvecs, merge_vecs,
    strict_option_lift,
};

#[test]
fn merge_vecs_appends_what_is_new() {
    assert_eq!(merge_vecs(vec![1, 2, 3], vec![3, 4, 1, 5]), vec![1, 2, 3, 4, 5]);
}

#[test]
fn merge_vecs_keeps_repeats_of_the_first_and_drops_those_of_the_second() {
    assert_eq!(merge_vecs(vec![1, 1, 2], vec![3, 3, 2, 4, 3]), vec![1, 1, 2, 3, 4]);
}

#[test]
fn merge_vecs_with_an_empty_side() {
    assert_eq!(merge_vecs(Vec::<i32>::new(), vec![2, 2, 1]), vec![2, 1]);
    assert_eq!(merge_vecs(vec![2, 2, 1], Vec::new()), vec![2, 2, 1]);
    assert_eq!(merge_vecs(Vec::<i32>::new(), Vec::new()), Vec::<i32>::new());
}

#[test]
fn merge_vecs_of_strings() {
    let first = vec!["quotes".to_string(), "images".to_string()];
    let second = vec!["images".to_string(), "cats".to_string()];
    assert_eq!(merge_vecs(first, second), vec!["quotes", "images", "cats"]);
}

#[test]
fn merge_btreemaps_prefers_the_second() {
    let first = BTreeMap::from([(1, "a"), (2, "b")]);
    let second = BTreeMap::from([(2, "B"), (3, "C")]);
    assert_eq!(merge_btreemaps(first, second), BTreeMap::from([(1, "a"), (2, "B"), (3, "C")]));
}

#[test]
fn merge_btreemaps_with_an_empty_side() {
    let map = BTreeMap::from([("x".to_string(), 1)]);
    assert_eq!(merge_btreemaps(map.clone(), BTreeMap::new()), map);
    assert_eq!(merge_btreemaps(BTreeMap::new(), map.clone()), map);
}

#[test]
fn merge_hashmaps_prefers_the_second() {
    let first = HashMap::from([(1u64, 10), (2, 20)]);
    let second = HashMap::from([(2u64, 200), (3, 300)]);
    assert_eq!(merge_hashmaps(first, second), HashMap::from([(1, 10), (2, 200), (3, 300)]));
}

#[test]
fn merge_hashmaps_with_an_empty_side() {
    let map = HashMap::from([("x".to_string(), 1)]);
    assert_eq!(merge_hashmaps(map.clone(), HashMap::new()), map);
    assert_eq!(merge_hashmaps(HashMap::new(), map.clone()), map);
}

#[test]
fn kind_option_lift_puts_the_default_for_what_is_absent() {
    let join = kind_option_lift(|a: i32, b: i32| a * 10 + b);
    assert_eq!(join(Some(1), Some(2)), Some(12));
    assert_eq!(join(Some(1), None), Some(10));
    assert_eq!(join(None, Some(2)), Some(2));
    assert_eq!(join(None, None), None);
}

#[test]
fn kind_option_lift_of_merge_vecs() {
    let join = kind_option_lift(merge_vecs::<i32>);
    assert_eq!(join(Some(vec![1, 2]), Some(vec![2, 3])), Some(vec![1, 2, 3]));
    assert_eq!(join(Some(vec![1, 1]), None), Some(vec![1, 1]));
    assert_eq!(join(None, Some(vec![2, 2])), Some(vec![2]));
    assert_eq!(join(None, None), None);
}

#[test]
fn kind_option_lift_of_merge_hashmaps() {
    let join = kind_option_lift(merge_hashmaps::<u8, u8>);
    let one = HashMap::from([(1u8, 1u8)]);
    let two = HashMap::from([(1u8, 2u8), (2, 2)]);
    assert_eq!(join(Some(one.clone()), Some(two.clone())), Some(two.clone()));
    assert_eq!(join(Some(one.clone()), None), Some(one));
    assert_eq!(join(None, Some(two.clone())), Some(two));
    assert_eq!(join(None, None), None);
}

#[test]
fn strict_option_lift_needs_both() {
    let join = strict_option_lift(|a: i32, b: i32| a * 10 + b);
    assert_eq!(join(Some(1), Some(2)), Some(12));
    assert_eq!(join(Some(1), None), None);
    assert_eq!(join(None, Some(2)), None);
    assert_eq!(join(None, None), None);
}

#[test]
fn merge_opbtreemaps_merges_what_is_there() {
    let first = BTreeMap::from([(1, "a"), (2, "b")]);
    let second = BTreeMap::from([(2, "B"), (3, "C")]);
    assert_eq!(
        merge_opbtreemaps(Some(first.clone()), Some(second.clone())),
        Some(BTreeMap::from([(1, "a"), (2, "B"), (3, "C")]))
    );
    assert_eq!(merge_opbtreemaps(Some(first.clone()), None), Some(first));
    assert_eq!(merge_opbtreemaps(None, Some(second.clone())), Some(second));
    assert_eq!(merge_opbtreemaps::<i32, &str>(None, None), None);
}

#[test]
fn merge_opbtreemaps_keeps_an_empty_map() {
    let empty: BTreeMap<i32, i32> = BTreeMap::new();
    assert_eq!(merge_opbtreemaps(Some(empty.clone()), None), Some(empty.clone()));
    assert_eq!(merge_opbtreemaps(Some(empty.clone()), Some(empty.clone())), Some(empty));
}

#[test]
fn merge_opvecs_merges_what_is_there() {
    assert_eq!(merge_opvecs(Some(vec![1, 2]), Some(vec![2, 3, 3])), Some(vec![1, 2, 3]));
    assert_eq!(merge_opvecs(Some(vec![1, 1]), None), Some(vec![1, 1]));
    assert_eq!(merge_opvecs(None, Some(vec![2, 2, 1])), Some(vec![2, 1]));
    assert_eq!(merge_opvecs::<i32>(None, None), None);
}

#[test]
fn merge_opvecs_gives_none_for_nothing() {
    assert_eq!(merge_opvecs::<i32>(Some(vec![]), None), None);
    assert_eq!(merge_opvecs::<i32>(None, Some(vec![])), None);
    assert_eq!(merge_opvecs::<i32>(Some(vec![]), Some(vec![])), None);
    assert_eq!(merge_opvecs(Some(vec![]), Some(vec![4])), Some(vec![4]));
}
