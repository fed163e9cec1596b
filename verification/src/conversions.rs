//! Conversions between [`ExhaustiveMap`] and the maps of the standard
//! library.
//!
//! What a `HashMap` or a `BTreeMap` does is known only for keys that hash
//! and compare lawfully, so each contract here speaks under that condition.

use std::collections::{BTreeMap, HashMap};
use std::hash::{BuildHasher, Hash};
use vstd::prelude::*;
use vstd::std_specs::hash::{builds_valid_hashers, obeys_key_model};
use crate::finite::{all_inhabitants, lemma_position_injective, Finite, FitsInUsize};
use crate::map::ExhaustiveMap;

verus! {

broadcast use vstd::std_specs::hash::group_hash_axioms;

/// The keys of `K` with their values in `values`: the key at position `i`
/// has the value `values[i]`.
pub open spec fn entries<K: Finite, V>(values: Seq<V>) -> Map<K, V> {
    entries_below(values, values.len())
}

/// The keys of `K` at the positions below `n`, with their values in `values`.
pub open spec fn entries_below<K: Finite, V>(values: Seq<V>, n: nat) -> Map<K, V> {
    Map::new(
        |k: K| k.inhabitant() && k.position() < n,
        |k: K| values[k.position() as int],
    )
}

/// The first `n` keys of `K` are keys of `map`.
pub open spec fn has_keys_below<K: Finite, V>(map: Map<K, V>, n: nat) -> bool {
    forall|k: K| k.inhabitant() && k.position() < n ==> #[trigger] map.contains_key(k)
}

/// `map` without the keys of `K` at the positions below `n`.
pub open spec fn without_keys_below<K: Finite, V>(map: Map<K, V>, n: nat) -> Map<K, V> {
    Map::new(
        |k: K| map.contains_key(k) && !(k.inhabitant() && k.position() < n),
        |k: K| map[k],
    )
}

/// Whether the keys `K` hash and compare as a `HashMap` with hashers of `S`
/// relies on.
pub open spec fn lawful_hash<K, S>() -> bool {
    obeys_key_model::<K>() && builds_valid_hashers::<S>()
}

/// Whether the order of `K` is one that a `BTreeMap` can rely on.
pub open spec fn lawful_order<K: Ord>() -> bool {
    vstd::laws_cmp::obeys_cmp::<K>()
}

/// Taking one key more adds the entry of the key at position `i`.
proof fn lemma_entries_step<K: Finite, V>(values: Seq<V>, i: nat)
    requires
        i < values.len(),
        i < K::cardinality(),
    ensures
        entries_below::<K, V>(values, i + 1) == entries_below::<K, V>(values, i).insert(
            all_inhabitants::<K>()[i as int],
            values[i as int],
        ),
{
    let key = all_inhabitants::<K>()[i as int];
    K::lemma_at(i);
    let next = entries_below::<K, V>(values, i + 1);
    let grown = entries_below::<K, V>(values, i).insert(key, values[i as int]);
    assert forall|k: K| next.contains_key(k) <==> grown.contains_key(k) by {
        if k.inhabitant() && k.position() == i {
            lemma_position_injective(k, key);
        }
    }
    assert(next =~= grown);
}

/// Leaving out one key more removes the key at position `i`, which until
/// then is a key exactly if it is one of `map`, with the same value.
proof fn lemma_without_step<K: Finite, V>(map: Map<K, V>, i: nat)
    requires
        i < K::cardinality(),
    ensures
        without_keys_below::<K, V>(map, i + 1) == without_keys_below::<K, V>(map, i).remove(
            all_inhabitants::<K>()[i as int],
        ),
        without_keys_below::<K, V>(map, i).contains_key(all_inhabitants::<K>()[i as int])
            <==> map.contains_key(all_inhabitants::<K>()[i as int]),
        without_keys_below::<K, V>(map, i).contains_key(all_inhabitants::<K>()[i as int])
            ==> without_keys_below::<K, V>(map, i)[all_inhabitants::<K>()[i as int]]
            == map[all_inhabitants::<K>()[i as int]],
{
    let key = all_inhabitants::<K>()[i as int];
    K::lemma_at(i);
    let next = without_keys_below::<K, V>(map, i + 1);
    let shrunk = without_keys_below::<K, V>(map, i).remove(key);
    assert forall|k: K| next.contains_key(k) <==> shrunk.contains_key(k) by {
        if k.inhabitant() && k.position() == i {
            lemma_position_injective(k, key);
        }
    }
    assert(next =~= shrunk);
}

impl<K: Finite, V> ExhaustiveMap<K, V> {
    /// Tries to make a map of the entries of `map`: the value of each key of
    /// `K` is its value in `map`.
    ///
    /// If `map` lacks a key of `K`, this returns the first such key, in the
    /// order of the positions.
    pub fn try_from_hash_map<S: BuildHasher>(map: HashMap<K, V, S>) -> (r: Result<Self, K>) where
        K: Eq + Hash,

        requires
            K::fits_in_usize(),
        ensures
            r matches Ok(m) ==> m@.len() == K::cardinality(),
            r matches Err(k) ==> k.inhabitant(),
            lawful_hash::<K, S>() ==> (r is Ok <==> has_keys_below(map@, K::cardinality())),
            lawful_hash::<K, S>() ==> match r {
                Ok(m) => forall|k: K| k.inhabitant() ==> #[trigger] m.spec_index(k) == map@[k],
                Err(k) => !map@.contains_key(k) && has_keys_below(map@, k.position()),
            },
    {
        let mut rest = map;
        let n: usize = K::inhabitants();
        let mut values: Vec<V> = Vec::new();
        let mut i: usize = 0;
        while i < n
            invariant
                K::fits_in_usize(),
                n == K::cardinality(),
                i <= n,
                values@.len() == i,
                lawful_hash::<K, S>() ==> {
                    &&& rest@ == without_keys_below(map@, i as nat)
                    &&& has_keys_below(map@, i as nat)
                    &&& forall|k: K|
                        k.inhabitant() && k.position() < i ==> values@[k.position() as int]
                            == #[trigger] map@[k]
                },
            decreases n - i,
        {
            let k = K::from_usize(i).unwrap();
            proof {
                lemma_without_step(map@, i as nat);
            }
            let ghost before = rest@;
            match rest.remove(&k) {
                Some(v) => {
                    values.push(v);
                    proof {
                        if lawful_hash::<K, S>() {
                            assert(k == all_inhabitants::<K>()[i as int]);
                            assert(before.contains_key(k) && before[k] == v);
                            assert(rest@ == before.remove(k));
                            assert forall|other: K|
                                other.inhabitant() && other.position() < i + 1 implies (
                            #[trigger] map@.contains_key(other)) by {
                                if other.position() == i {
                                    lemma_position_injective(other, k);
                                }
                            }
                            assert forall|other: K|
                                other.inhabitant() && other.position() < i + 1 implies values@[(
                            other.position()) as int] == #[trigger] map@[other] by {
                                if other.position() == i {
                                    lemma_position_injective(other, k);
                                }
                            }
                        }
                    }
                },
                None => {
                    proof {
                        k.lemma_position();
                    }
                    return Err(k);
                },
            }
            i += 1;
        }
        let m = ExhaustiveMap::with_values(values);
        proof {
            if lawful_hash::<K, S>() {
                assert forall|k: K| k.inhabitant() implies #[trigger] m.spec_index(k)
                    == map@[k] by {
                    k.lemma_position();
                }
            }
        }
        Ok(m)
    }

    /// The entries of the map as a `HashMap`.
    pub fn into_hash_map<S: BuildHasher + Default>(self) -> (map: HashMap<K, V, S>) where
        K: Eq + Hash,

        ensures
            lawful_hash::<K, S>() ==> map@ == entries::<K, V>(
                self@,
            ),
    {
        let n: usize = self.len();
        let mut values = self.into_values();
        let mut map: HashMap<K, V, S> = HashMap::default();
        let mut i: usize = 0;
        proof {
            assert(map@ =~= entries_below::<K, V>(self@, 0));
        }
        while i < n
            invariant
                K::fits_in_usize(),
                n == K::cardinality(),
                n == self@.len(),
                i <= n,
                values@ == self@.subrange(i as int, n as int),
                lawful_hash::<K, S>() ==> map@ == entries_below::<
                    K,
                    V,
                >(self@, i as nat),
            decreases n - i,
        {
            let k = K::from_usize(i).unwrap();
            let v = values.next().unwrap();
            proof {
                lemma_entries_step::<K, V>(self@, i as nat);
            }
            map.insert(k, v);
            i += 1;
            proof {
                assert(values@ =~= self@.subrange(i as int, n as int));
            }
        }
        map
    }
}

impl<K: Finite, V> ExhaustiveMap<K, V> {
    /// The entries of the map as a `BTreeMap`.
    pub fn into_btree_map(self) -> (map: BTreeMap<K, V>) where K: Ord
        ensures
            lawful_order::<K>() ==> map@ == entries::<K, V>(self@),
    {
        let n: usize = self.len();
        let mut values = self.into_values();
        let mut map: BTreeMap<K, V> = BTreeMap::new();
        let mut i: usize = 0;
        proof {
            assert(map@ =~= entries_below::<K, V>(self@, 0));
        }
        while i < n
            invariant
                K::fits_in_usize(),
                n == K::cardinality(),
                n == self@.len(),
                i <= n,
                values@ == self@.skip(i as int),
                lawful_order::<K>() ==> map@ == entries_below::<K, V>(self@, i as nat),
            decreases n - i,
        {
            let k = K::from_usize(i).unwrap();
            let v = values.next().unwrap();
            proof {
                lemma_entries_step::<K, V>(self@, i as nat);
            }
            map.insert(k, v);
            i += 1;
            proof {
                assert(values@ =~= self@.skip(i as int));
            }
        }
        map
    }
}

/// The entries of a map as a `BTreeMap`.
impl<K: Finite + Ord, V> From<ExhaustiveMap<K, V>> for BTreeMap<K, V> {
    fn from(value: ExhaustiveMap<K, V>) -> (map: Self)
        ensures
            lawful_order::<K>() ==> map@ == entries::<K, V>(value@),
    {
        value.into_btree_map()
    }
}

impl<K: Finite + Ord, V> vstd::std_specs::convert::FromSpecImpl<ExhaustiveMap<K, V>>
    for BTreeMap<K, V> {
    open spec fn obeys_from_spec() -> bool {
        false
    }

    open spec fn from_spec(value: ExhaustiveMap<K, V>) -> Self {
        arbitrary()
    }
}

/// A `HashMap` becomes a map if it has an entry for each key of `K`. If it
/// lacks one, the first key that it lacks is returned, in the order of the
/// positions.
impl<K: FitsInUsize + Eq + Hash, V> TryFrom<HashMap<K, V>> for ExhaustiveMap<K, V> {
    type Error = K;

    fn try_from(value: HashMap<K, V>) -> (r: Result<Self, K>)
        ensures
            r matches Ok(m) ==> m@.len() == K::cardinality(),
            r matches Err(k) ==> k.inhabitant(),
            obeys_key_model::<K>() ==> (r is Ok <==> has_keys_below(value@, K::cardinality())),
            obeys_key_model::<K>() ==> match r {
                Ok(m) => forall|k: K| k.inhabitant() ==> #[trigger] m.spec_index(k) == value@[k],
                Err(k) => !value@.contains_key(k) && has_keys_below(value@, k.position()),
            },
    {
        proof {
            K::lemma_fits_in_usize();
        }
        ExhaustiveMap::try_from_hash_map(value)
    }
}

impl<K: FitsInUsize + Eq + Hash, V> vstd::std_specs::convert::TryFromSpecImpl<HashMap<K, V>>
    for ExhaustiveMap<K, V> {
    open spec fn obeys_try_from_spec() -> bool {
        false
    }

    open spec fn try_from_spec(value: HashMap<K, V>) -> Result<Self, K> {
        arbitrary()
    }
}

/// The entries of a map as a `HashMap`.
impl<K: Finite + Eq + Hash, V, S: BuildHasher + Default> From<ExhaustiveMap<K, V>>
    for HashMap<K, V, S> {
    fn from(value: ExhaustiveMap<K, V>) -> (map: Self)
        ensures
            lawful_hash::<K, S>() ==> map@ == entries::<K, V>(
                value@,
            ),
    {
        value.into_hash_map()
    }
}

impl<K: Finite + Eq + Hash, V, S: BuildHasher + Default>
    vstd::std_specs::convert::FromSpecImpl<ExhaustiveMap<K, V>> for HashMap<K, V, S> {
    open spec fn obeys_from_spec() -> bool {
        false
    }

    open spec fn from_spec(value: ExhaustiveMap<K, V>) -> Self {
        arbitrary()
    }
}

} // verus!
