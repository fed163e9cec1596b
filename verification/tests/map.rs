use std::collections::{BTreeMap, HashMap};
use std::convert::Infallible;

use exhaustive_map::{ExhaustiveMap, Finite};

#[test]
fn test_uninit() {
    let mut m = ExhaustiveMap::<bool, u8>::new_uninit();
    m[true] = Some(123);
    m[false] = Some(45);
    let m = m.assume_init();
    println!("{m:?}");
    assert_eq!(m[false], 45);
    assert_eq!(m[true], 123);
}

#[test]
fn test_conversion() {
    let m: ExhaustiveMap<bool, u8> = [2, 3].try_into().unwrap();
    assert_eq!(m[false], 2);
    assert_eq!(m[true], 3);
}

#[test]
fn test_try_unrwap_values() {
    let m: ExhaustiveMap<bool, Option<u8>> = ExhaustiveMap::from_fn(|_| None);
    let mut m = m.try_unwrap_values().unwrap_err();
    m[false] = Some(2);
    let mut m = m.try_unwrap_values().unwrap_err();
    m[true] = Some(3);
    let m = m.try_unwrap_values().unwrap();
    let expected: ExhaustiveMap<bool, u8> = [2, 3].try_into().unwrap();
    assert_eq!(m, expected);
}

#[test]
fn map_over_bool_from_key_function() {
    let mut map = ExhaustiveMap::<bool, u8>::from_fn(|k| if k { 3 } else { 2 });
    assert_eq!(map.len(), 2);
    assert!(!map.is_empty());
    assert_eq!(map[false], 2);
    assert_eq!(map[true], 3);
    map.swap(false, true);
    assert_eq!(map[false], 3);
    assert_eq!(map[true], 2);
}

#[test]
fn map_over_u8_is_indexed_by_key() {
    let mut map = ExhaustiveMap::<u8, u16>::from_fn(|i| i as u16 + 100);
    assert_eq!(map.len(), 256);
    assert_eq!(map[3], 103);
    map[7] = 9999;
    assert_eq!(map[7], 9999);
    map.swap(7, 3);
    assert_eq!(map[3], 9999);
    assert_eq!(map[7], 103);
    assert_eq!(map[&3], 9999);
    map[&3] = 1;
    assert_eq!(*map.get(&3), 1);
    *map.get_mut(&4) = 2;
    assert_eq!(map[4], 2);
}

#[test]
fn from_fn_calls_the_function_once_per_key_in_order() {
    let mut seen = Vec::new();
    let map = ExhaustiveMap::<(bool, bool), usize>::from_fn(|k| {
        seen.push(k);
        seen.len()
    });
    assert_eq!(
        seen,
        vec![(false, false), (false, true), (true, false), (true, true)]
    );
    assert_eq!(map.into_vec(), vec![1, 2, 3, 4]);
}

#[test]
fn from_usize_fn_fills_by_position() {
    let map = ExhaustiveMap::<Option<bool>, usize>::from_usize_fn(|i| i * 10);
    assert_eq!(map.len(), 3);
    assert_eq!(map[None], 0);
    assert_eq!(map[Some(false)], 10);
    assert_eq!(map[Some(true)], 20);
}

#[test]
fn from_usize_fn_agrees_with_from_fn() {
    let a = ExhaustiveMap::<(u8, bool), usize>::from_usize_fn(|i| i * 3);
    let b = ExhaustiveMap::<(u8, bool), usize>::from_fn(|k| k.to_usize() * 3);
    assert_eq!(a, b);
}

#[test]
fn try_from_fn_returns_the_first_error() {
    let mut calls = 0;
    let r = ExhaustiveMap::<u8, u8>::try_from_fn(|k| {
        calls += 1;
        if k == 5 || k == 9 {
            Err(k)
        } else {
            Ok(k)
        }
    });
    assert_eq!(r, Err(5));
    assert_eq!(calls, 6);
}

#[test]
fn try_from_fn_succeeds_when_the_function_does() {
    let r: Result<ExhaustiveMap<bool, u8>, ()> =
        ExhaustiveMap::try_from_fn(|k| Ok(if k { 1 } else { 0 }));
    let map = r.unwrap();
    assert_eq!(map[false], 0);
    assert_eq!(map[true], 1);
}

#[test]
fn replace_returns_the_old_value() {
    let mut map = ExhaustiveMap::<bool, String>::from_fn(|k| k.to_string());
    let old = map.replace(true, "yes".to_string());
    assert_eq!(old, "true");
    assert_eq!(map[true], "yes");
    assert_eq!(map[false], "false");
}

#[test]
fn swap_of_a_key_with_itself_changes_nothing() {
    let mut map = ExhaustiveMap::<bool, u8>::from_fn(|k| k as u8);
    map.swap(true, true);
    assert_eq!(map[false], 0);
    assert_eq!(map[true], 1);
}

#[test]
fn take_leaves_the_default() {
    let mut map = ExhaustiveMap::<bool, String>::from_fn(|k| k.to_string());
    let old = map.take(false);
    assert_eq!(old, "false");
    assert_eq!(map[false], "");
    assert_eq!(map[true], "true");
}

#[test]
fn map_values_keeps_the_keys() {
    let bool_to_int = ExhaustiveMap::from_fn(|k| if k { 1 } else { 0 });
    let bool_to_int_string = bool_to_int.map_values(|v: i32| v.to_string());
    assert_eq!(bool_to_int_string[false], "0");
    assert_eq!(bool_to_int_string[true], "1");
    assert_eq!(bool_to_int_string.len(), 2);
}

#[test]
fn map_values_calls_the_function_in_order() {
    let map = ExhaustiveMap::<u8, u8>::from_fn(|k| k);
    let mut seen = Vec::new();
    let doubled = map.map_values(|v| {
        seen.push(v);
        v as u16 * 2
    });
    assert_eq!(seen, (0..=255).collect::<Vec<u8>>());
    assert_eq!(doubled[200], 400);
}

#[test]
fn keys_are_all_inhabitants_in_order() {
    let mut keys = ExhaustiveMap::<Option<bool>, ()>::keys();
    assert_eq!(keys.len(), 3);
    assert_eq!(keys.next(), Some(None));
    assert_eq!(keys.next(), Some(Some(false)));
    assert_eq!(keys.next(), Some(Some(true)));
    assert_eq!(keys.next(), None);
}

#[test]
fn values_are_visited_in_key_order() {
    let map = ExhaustiveMap::<bool, u8>::from_fn(|k| if k { 3 } else { 2 });
    let mut values = map.values();
    assert_eq!(values.len(), 2);
    assert_eq!(values.next(), Some(&2));
    assert_eq!(values.len(), 1);
    assert_eq!(values.next(), Some(&3));
    assert_eq!(values.next(), None);
    assert_eq!(values.next(), None);

    let mut values = map.into_values();
    assert_eq!(values.len(), 2);
    assert_eq!(values.next(), Some(2));
    assert_eq!(values.next(), Some(3));
    assert_eq!(values.next(), None);
    assert_eq!(values.next(), None);
}

#[test]
fn entries_are_visited_in_key_order() {
    let map = ExhaustiveMap::<bool, u8>::from_fn(|k| if k { 3 } else { 2 });
    let mut entries = map.iter();
    assert_eq!(entries.next(), Some((false, &2)));
    assert_eq!(entries.next(), Some((true, &3)));
    assert_eq!(entries.next(), None);

    let mut entries = map.into_iter();
    assert_eq!(entries.next(), Some((false, 2)));
    assert_eq!(entries.next(), Some((true, 3)));
    assert_eq!(entries.next(), None);
    assert_eq!(entries.next(), None);
}

#[test]
fn new_uninit_holds_no_value() {
    let map = ExhaustiveMap::<u8, u8>::new_uninit();
    assert_eq!(map.len(), 256);
    assert_eq!(map[0], None);
    assert_eq!(map[255], None);
    let map = map.try_unwrap_values().unwrap_err();
    assert_eq!(map.len(), 256);
}

#[test]
fn try_unwrap_values_returns_the_map_unchanged_on_failure() {
    let map: ExhaustiveMap<bool, Option<u8>> = [Some(1), None].try_into().unwrap();
    let back = map.clone().try_unwrap_values().unwrap_err();
    assert_eq!(back, map);
}

#[test]
fn vec_of_wrong_length_is_handed_back() {
    let r: Result<ExhaustiveMap<bool, u8>, Vec<u8>> = vec![1, 2, 3].try_into();
    assert_eq!(r, Err(vec![1, 2, 3]));
    let r: Result<ExhaustiveMap<bool, u8>, Vec<u8>> = vec![1].try_into();
    assert_eq!(r, Err(vec![1]));
    let r: Result<ExhaustiveMap<bool, u8>, Vec<u8>> = Vec::new().try_into();
    assert_eq!(r, Err(vec![]));
    let r: Result<ExhaustiveMap<bool, u8>, Vec<u8>> = vec![1, 2].try_into();
    assert_eq!(r.unwrap().into_vec(), vec![1, 2]);
}

#[test]
fn array_of_wrong_length_is_handed_back() {
    let r: Result<ExhaustiveMap<bool, u8>, [u8; 3]> = [1, 2, 3].try_into();
    assert_eq!(r, Err([1, 2, 3]));
    let r: Result<ExhaustiveMap<bool, u8>, [u8; 0]> = [].try_into();
    assert_eq!(r, Err([]));
}

#[test]
fn boxed_slice_round_trip() {
    let boxed: Box<[u8]> = vec![4, 5].into_boxed_slice();
    let map: ExhaustiveMap<bool, u8> = boxed.try_into().unwrap();
    assert_eq!(map[false], 4);
    assert_eq!(map[true], 5);
    let boxed: Box<[u8]> = map.into();
    assert_eq!(&*boxed, &[4, 5]);

    let boxed: Box<[u8]> = vec![4, 5, 6].into_boxed_slice();
    let r: Result<ExhaustiveMap<bool, u8>, Box<[u8]>> = boxed.try_into();
    assert_eq!(&*r.unwrap_err(), &[4, 5, 6]);
}

#[test]
fn vec_for_a_key_type_that_does_not_fit_is_handed_back() {
    let r: Result<ExhaustiveMap<(u32, u32), u8>, Vec<u8>> = vec![1, 2].try_into();
    assert_eq!(r, Err(vec![1, 2]));
}

#[test]
fn map_over_an_empty_type_is_empty() {
    let map = ExhaustiveMap::<Infallible, u8>::from_fn(|_| 0);
    assert_eq!(map.len(), 0);
    assert!(map.is_empty());
    let r: Result<ExhaustiveMap<Infallible, u8>, Vec<u8>> = Vec::new().try_into();
    assert!(r.is_ok());
}

#[test]
fn default_map_holds_default_values() {
    let map = ExhaustiveMap::<u8, u32>::default();
    assert_eq!(map.len(), 256);
    assert_eq!(map[0], 0);
    assert_eq!(map[255], 0);
}

#[test]
fn clone_is_equal() {
    let map = ExhaustiveMap::<u8, String>::from_fn(|k| k.to_string());
    let copy = map.clone();
    assert_eq!(copy, map);
    assert_eq!(copy[17], "17");
}

#[test]
fn hash_map_round_trip() {
    let map = ExhaustiveMap::<Option<bool>, u8>::from_usize_fn(|i| i as u8 + 1);
    let hash_map: HashMap<Option<bool>, u8> = map.clone().into();
    assert_eq!(hash_map.len(), 3);
    assert_eq!(hash_map[&None], 1);
    assert_eq!(hash_map[&Some(false)], 2);
    assert_eq!(hash_map[&Some(true)], 3);
    let back = ExhaustiveMap::try_from_hash_map(hash_map).unwrap();
    assert_eq!(back, map);
}

#[test]
fn hash_map_without_a_key_gives_the_first_missing_key() {
    let mut hash_map: HashMap<u8, u8> = (0..=255).map(|k| (k, k)).collect();
    hash_map.remove(&200);
    hash_map.remove(&100);
    let r = ExhaustiveMap::<u8, u8>::try_from_hash_map(hash_map);
    assert_eq!(r, Err(100));
    let r = ExhaustiveMap::<bool, u8>::try_from_hash_map(HashMap::new());
    assert_eq!(r, Err(false));
}

#[test]
fn btree_map_holds_every_entry() {
    let map = ExhaustiveMap::<u8, u16>::from_fn(|k| k as u16 * 2);
    let btree_map: BTreeMap<u8, u16> = map.into();
    assert_eq!(btree_map.len(), 256);
    for k in 0..=255u8 {
        assert_eq!(btree_map[&k], k as u16 * 2);
    }
}

#[test]
fn default_trait_for_a_key_type_that_always_fits() {
    let map: ExhaustiveMap<bool, String> = Default::default();
    assert_eq!(map.len(), 2);
    assert_eq!(map[false], "");
    assert_eq!(map[true], "");
}

#[test]
fn hash_map_try_into() {
    let hash_map: HashMap<bool, u8> = [(true, 1), (false, 0)].into_iter().collect();
    let map: ExhaustiveMap<bool, u8> = hash_map.try_into().unwrap();
    assert_eq!(map[false], 0);
    assert_eq!(map[true], 1);

    let hash_map: HashMap<bool, u8> = [(false, 0)].into_iter().collect();
    let r: Result<ExhaustiveMap<bool, u8>, bool> = hash_map.try_into();
    assert_eq!(r, Err(true));
}
