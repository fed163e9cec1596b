//! A map with a value for every inhabitant of its key type.

use std::marker::PhantomData;
use std::ops::{Index, IndexMut};
use vstd::prelude::*;
use vstd::std_specs::cmp::PartialEqSpec;
use crate::finite::{all_inhabitants, Finite, FitsInUsize, IterAll};

verus! {

broadcast use vstd::function::group_function_axioms;

/// Whether `f` can return `Ok` for the key at position `i`.
pub open spec fn succeeds_at<K: Finite, V, E, F: FnMut(K) -> Result<V, E>>(f: F, i: int) -> bool {
    exists|v: V| f.ensures((all_inhabitants::<K>()[i],), Ok(v))
}

/// Whether `f` can return the error `e` for the key at position `i`.
pub open spec fn fails_at<K: Finite, V, E, F: FnMut(K) -> Result<V, E>>(
    f: F,
    i: int,
    e: E,
) -> bool {
    f.ensures((all_inhabitants::<K>()[i],), Err(e))
}

/// `<[T]>::swap` on the elements of a vector: exchanges the elements at
/// `i` and `j` and leaves the others. Both indices are within the vector, so
/// the call does not panic.
#[verifier::external_body]
fn swap_elements<V>(items: &mut Vec<V>, i: usize, j: usize)
    requires
        i < old(items)@.len(),
        j < old(items)@.len(),
    ensures
        final(items)@ == old(items)@.update(i as int, old(items)@[j as int]).update(
            j as int,
            old(items)@[i as int],
        ),
    no_unwind
{
    items.swap(i, j)
}

/// A map which is guaranteed to always contain a value for each possible key
/// of type `K`.
///
/// The values are stored in the order of the keys' positions: the view of
/// the map is the sequence of its values, and the value of the key `k` is at
/// `k.position()`.
#[derive(Debug, PartialOrd, Ord, Hash)]
pub struct ExhaustiveMap<K: Finite, V> {
    array: Vec<V>,
    _phantom: PhantomData<K>,
}

impl<K: Finite, V> View for ExhaustiveMap<K, V> {
    type V = Seq<V>;

    closed spec fn view(&self) -> Seq<V> {
        self.array@
    }
}

impl<K: Finite, V> ExhaustiveMap<K, V> {
    #[verifier::type_invariant]
    spec fn well_formed(self) -> bool {
        &&& K::fits_in_usize()
        &&& self.array@.len() == K::cardinality()
    }

    /// The value stored for the key `k`.
    pub open spec fn spec_index(&self, k: K) -> V {
        self@[k.position() as int]
    }

    /// Creates a map by providing a mapping function from `K` to `V`. The
    /// function is called once for each key, in the order of the keys'
    /// positions.
    pub fn from_fn(f: impl FnMut(K) -> V) -> (m: Self)
        requires
            K::fits_in_usize(),
            forall|k: K| k.inhabitant() ==> f.requires((k,)),
        ensures
            m@.len() == K::cardinality(),
            forall|i: int|
                0 <= i < K::cardinality() ==> f.ensures(
                    (all_inhabitants::<K>()[i],),
                    #[trigger] m@[i],
                ),
    {
        let n: usize = K::inhabitants();
        let mut call = f;
        let mut array: Vec<V> = Vec::new();
        let mut i: usize = 0;
        while i < n
            invariant
                call == f,
                K::fits_in_usize(),
                n == K::cardinality(),
                i <= n,
                array@.len() == i,
                forall|k: K| k.inhabitant() ==> f.requires((k,)),
                forall|j: int|
                    0 <= j < i ==> f.ensures((all_inhabitants::<K>()[j],), #[trigger] array@[j]),
            decreases n - i,
        {
            let k = K::from_usize(i).unwrap();
            let v = call(k);
            array.push(v);
            i += 1;
        }
        ExhaustiveMap { array, _phantom: PhantomData }
    }

    /// Tries to create a map by providing a mapping function from `K` to
    /// `Result<V, E>`. The function is called for the keys in the order of
    /// their positions, up to the first key for which it fails: that error
    /// is returned, and no map.
    pub fn try_from_fn<E>(f: impl FnMut(K) -> Result<V, E>) -> (r: Result<Self, E>)
        requires
            K::fits_in_usize(),
            forall|k: K| k.inhabitant() ==> f.requires((k,)),
        ensures
            r matches Ok(m) ==> m@.len() == K::cardinality() && forall|i: int|
                0 <= i < K::cardinality() ==> f.ensures(
                    (all_inhabitants::<K>()[i],),
                    Ok(#[trigger] m@[i]),
                ),
            r matches Err(e) ==> exists|i: int|
                {
                    &&& 0 <= i < K::cardinality()
                    &&& #[trigger] fails_at(f, i, e)
                    &&& forall|j: int| 0 <= j < i ==> #[trigger] succeeds_at(f, j)
                },
    {
        let n: usize = K::inhabitants();
        let mut call = f;
        let mut array: Vec<V> = Vec::new();
        let mut i: usize = 0;
        while i < n
            invariant
                call == f,
                K::fits_in_usize(),
                n == K::cardinality(),
                i <= n,
                array@.len() == i,
                forall|k: K| k.inhabitant() ==> f.requires((k,)),
                forall|j: int|
                    0 <= j < i ==> f.ensures(
                        (all_inhabitants::<K>()[j],),
                        Ok(#[trigger] array@[j]),
                    ),
            decreases n - i,
        {
            let k = K::from_usize(i).unwrap();
            let ghost key = k;
            match call(k) {
                Ok(v) => {
                    array.push(v);
                },
                Err(e) => {
                    proof {
                        assert(all_inhabitants::<K>()[i as int] == key);
                        assert(fails_at(f, i as int, e));
                        assert forall|j: int| 0 <= j < i implies #[trigger] succeeds_at(
                            f,
                            j,
                        ) by {
                            assert(f.ensures((all_inhabitants::<K>()[j],), Ok(array@[j])));
                        }
                    }
                    let ghost error = e;
                    let r: Result<Self, E> = Err(e);
                    assert(r->Err_0 == error);
                    return r;
                },
            }
            i += 1;
        }
        Ok(ExhaustiveMap { array, _phantom: PhantomData })
    }

    /// Creates a map by providing a mapping function from `usize` to `V`.
    /// The function is called for `0`, `1`, and so on up to the number of
    /// keys, and its result for `i` becomes the value of the key at position
    /// `i`.
    pub fn from_usize_fn(f: impl FnMut(usize) -> V) -> (m: Self)
        requires
            K::fits_in_usize(),
            forall|i: usize| i < K::cardinality() ==> f.requires((i,)),
        ensures
            m@.len() == K::cardinality(),
            forall|i: int|
                0 <= i < K::cardinality() ==> f.ensures((i as usize,), #[trigger] m@[i]),
    {
        let n: usize = K::inhabitants();
        let mut call = f;
        let mut array: Vec<V> = Vec::new();
        let mut i: usize = 0;
        while i < n
            invariant
                call == f,
                n == K::cardinality(),
                i <= n,
                array@.len() == i,
                forall|i: usize| i < K::cardinality() ==> f.requires((i,)),
                forall|j: int| 0 <= j < i ==> f.ensures((j as usize,), #[trigger] array@[j]),
            decreases n - i,
        {
            let v = call(i);
            array.push(v);
            i += 1;
        }
        ExhaustiveMap { array, _phantom: PhantomData }
    }

    /// Returns the number of elements in the map.
    ///
    /// Always equal to the number of inhabitants of `K`.
    pub fn len(&self) -> (n: usize)
        ensures
            n == K::cardinality(),
            n == self@.len(),
            K::fits_in_usize(),
    {
        proof {
            use_type_invariant(self);
        }
        self.array.len()
    }

    /// Returns `true` if the map contains no elements.
    ///
    /// The map can only be empty if `K` has no inhabitant.
    pub fn is_empty(&self) -> (b: bool)
        ensures
            b <==> K::cardinality() == 0,
            b <==> self@.len() == 0,
    {
        self.len() == 0
    }

    /// The value stored for `k`.
    pub fn get(&self, k: &K) -> (v: &V)
        ensures
            k.inhabitant(),
            *v == self.spec_index(*k),
            self@.len() == K::cardinality(),
    {
        proof {
            use_type_invariant(self);
        }
        let i: usize = k.to_usize();
        &self.array[i]
    }

    /// The place of the value stored for `k`. What is written there is the
    /// new value of `k`, and no other value changes.
    pub fn get_mut(&mut self, k: &K) -> (v: &mut V)
        ensures
            k.inhabitant(),
            *v == old(self).spec_index(*k),
            final(self)@ == old(self)@.update(k.position() as int, *final(v)),
            old(self)@.len() == K::cardinality(),
    {
        proof {
            use_type_invariant(&*self);
        }
        let i: usize = k.to_usize();
        &mut self.array[i]
    }

    /// Replace the value stored for `k` with `v`, returning the previous
    /// stored value.
    pub fn replace(&mut self, k: K, v: V) -> (previous: V)
        ensures
            k.inhabitant(),
            previous == old(self).spec_index(k),
            final(self)@ == old(self)@.update(k.position() as int, v),
            old(self)@.len() == K::cardinality(),
    {
        let mut value = v;
        let slot = self.get_mut(&k);
        core::mem::swap(slot, &mut value);
        value
    }

    /// Swaps the values stored at `k1` and `k2`.
    pub fn swap(&mut self, k1: K, k2: K)
        ensures
            k1.inhabitant(),
            k2.inhabitant(),
            final(self)@ == old(self)@.update(
                k1.position() as int,
                old(self).spec_index(k2),
            ).update(k2.position() as int, old(self).spec_index(k1)),
            old(self)@.len() == K::cardinality(),
    {
        proof {
            use_type_invariant(&*self);
        }
        let i: usize = k1.to_usize();
        let j: usize = k2.to_usize();
        swap_elements(&mut self.array, i, j);
    }

    /// Replace the value stored for `k` with the default value of `V`,
    /// returning the previous stored value.
    pub fn take(&mut self, k: K) -> (previous: V) where V: Default
        ensures
            k.inhabitant(),
            previous == old(self).spec_index(k),
            call_ensures(V::default, (), final(self).spec_index(k)),
            final(self)@ == old(self)@.update(k.position() as int, final(self).spec_index(k)),
            old(self)@.len() == K::cardinality(),
    {
        let ghost key = k;
        let previous = self.replace(k, V::default());
        proof {
            key.lemma_position();
        }
        previous
    }

    /// Change the values of the stored values via a mapping function. The
    /// function is called once for each value, in the order of the keys'
    /// positions.
    pub fn map_values<U>(self, f: impl FnMut(V) -> U) -> (m: ExhaustiveMap<K, U>)
        requires
            forall|i: int| 0 <= i < self@.len() ==> f.requires((#[trigger] self@[i],)),
        ensures
            m@.len() == self@.len(),
            forall|i: int| 0 <= i < self@.len() ==> f.ensures((self@[i],), #[trigger] m@[i]),
    {
        proof {
            use_type_invariant(&self);
        }
        let mut call = f;
        let mut values = self.into_values();
        let mut array: Vec<U> = Vec::new();
        while values.len() > 0
            invariant
                call == f,
                K::fits_in_usize(),
                self@.len() == K::cardinality(),
                array@.len() + values@.len() == self@.len(),
                values@ == self@.subrange(array@.len() as int, self@.len() as int),
                forall|i: int| 0 <= i < self@.len() ==> f.requires((#[trigger] self@[i],)),
                forall|i: int|
                    0 <= i < array@.len() ==> f.ensures((self@[i],), #[trigger] array@[i]),
            decreases values@.len(),
        {
            let v = values.next().unwrap();
            assert(v == self@[array@.len() as int]);
            let u = call(v);
            array.push(u);
            assert(values@ =~= self@.subrange(array@.len() as int, self@.len() as int));
        }
        ExhaustiveMap { array, _phantom: PhantomData }
    }

    /// An iterator visiting all keys in the order of their positions.
    pub fn keys() -> (it: IterAll<K>)
        requires
            K::fits_in_usize(),
        ensures
            it@ == all_inhabitants::<K>(),
            it.front() == 0,
            it.back() == K::cardinality(),
    {
        IterAll::new()
    }

    /// An iterator visiting all values stored in the map, ordered by the
    /// positions of their keys.
    pub fn values(&self) -> (it: Values<'_, V>)
        ensures
            it@ == self@,
            self@.len() == K::cardinality(),
    {
        proof {
            use_type_invariant(self);
        }
        Values::new(self.array.as_slice())
    }

    /// Creates a consuming iterator visiting all the values, ordered by the
    /// positions of their keys.
    pub fn into_values(self) -> (it: IntoValues<V>)
        ensures
            it@ == self@,
            self@.len() == K::cardinality(),
    {
        proof {
            use_type_invariant(&self);
        }
        IntoValues::new(self.array)
    }

    /// An iterator visiting all entries stored in the map, ordered by the
    /// positions of the keys.
    pub fn iter(&self) -> (it: Iter<'_, K, V>)
        ensures
            it.keys() == all_inhabitants::<K>(),
            it.values() == self@,
            self@.len() == K::cardinality(),
    {
        proof {
            use_type_invariant(self);
        }
        Iter::new(IterAll::new(), self.values())
    }

    /// Creates a consuming iterator visiting all entries, ordered by the
    /// positions of the keys.
    pub fn into_iter(self) -> (it: IntoIter<K, V>)
        ensures
            it.keys() == all_inhabitants::<K>(),
            it.values() == self@,
            self@.len() == K::cardinality(),
    {
        proof {
            use_type_invariant(&self);
        }
        IntoIter::new(IterAll::new(), self.into_values())
    }

    /// Creates a map in which no key has a value yet.
    ///
    /// After every key has been given a value,
    /// [`assume_init`](ExhaustiveMap::assume_init) can be called to obtain a
    /// map with values of type `V`.
    pub fn new_uninit() -> (m: ExhaustiveMap<K, Option<V>>)
        requires
            K::fits_in_usize(),
        ensures
            m@.len() == K::cardinality(),
            forall|i: int| 0 <= i < m@.len() ==> #[trigger] m@[i] is None,
    {
        let fill = |_i: usize| -> (v: Option<V>)
            ensures
                v is None,
            { None };
        ExhaustiveMap::from_usize_fn(fill)
    }
}

impl<K: Finite, V: Default> ExhaustiveMap<K, V> {
    /// The map in which every key has the default value of `V`.
    pub fn default() -> (m: Self)
        requires
            K::fits_in_usize(),
        ensures
            m@.len() == K::cardinality(),
            forall|i: int| 0 <= i < m@.len() ==> call_ensures(V::default, (), #[trigger] m@[i]),
    {
        let fill = |_i: usize| -> (v: V)
            ensures
                call_ensures(V::default, (), v),
            { V::default() };
        Self::from_usize_fn(fill)
    }
}

impl<K: Finite, V> ExhaustiveMap<K, Option<V>> {
    /// The map of the values that the keys have been given. The caller shows
    /// that every key has been given one.
    pub fn assume_init(self) -> (m: ExhaustiveMap<K, V>)
        requires
            forall|i: int| 0 <= i < self@.len() ==> #[trigger] self@[i] is Some,
        ensures
            m@.len() == self@.len(),
            forall|i: int| 0 <= i < self@.len() ==> self@[i] == Some(#[trigger] m@[i]),
    {
        let unwrap = |v: Option<V>| -> (u: V)
            requires
                v is Some,
            ensures
                v == Some(u),
            { v.unwrap() };
        self.map_values(unwrap)
    }

    /// Tries to convert an `ExhaustiveMap<K, Option<V>>` to an
    /// `ExhaustiveMap<K, V>`.
    ///
    /// If any of the values are `None`, this returns `Err` containing the
    /// input map.
    pub fn try_unwrap_values(self) -> (r: Result<ExhaustiveMap<K, V>, ExhaustiveMap<K, Option<V>>>)
        ensures
            r is Ok <==> forall|i: int| 0 <= i < self@.len() ==> #[trigger] self@[i] is Some,
            r matches Ok(m) ==> m@.len() == self@.len() && forall|i: int|
                0 <= i < self@.len() ==> self@[i] == Some(#[trigger] m@[i]),
            r matches Err(m) ==> m == self,
    {
        let n: usize = self.len();
        let mut i: usize = 0;
        while i < n
            invariant
                i <= n,
                n == self@.len(),
                n == self.array@.len(),
                forall|j: int| 0 <= j < i ==> #[trigger] self@[j] is Some,
            decreases n - i,
        {
            if self.array[i].is_none() {
                return Err(self);
            }
            i += 1;
        }
        Ok(self.assume_init())
    }
}

/// `Vec::into_boxed_slice`: the boxed slice holds the elements of the
/// vector, in order.
#[verifier::external_body]
fn vec_into_boxed_slice<V>(items: Vec<V>) -> (boxed: Box<[V]>)
    ensures
        boxed@ == items@,
{
    items.into_boxed_slice()
}

/// `Vec::from` on an array: the vector holds the elements of the array, in
/// order.
#[verifier::external_body]
fn array_into_vec<V, const N: usize>(items: [V; N]) -> (v: Vec<V>)
    ensures
        v@ == items@,
{
    Vec::from(items)
}

impl<K: Finite, V> ExhaustiveMap<K, V> {
    /// The map whose values are `values`.
    pub closed spec fn from_values(values: Vec<V>) -> Self {
        ExhaustiveMap { array: values, _phantom: PhantomData }
    }

    /// Whether `n` values are one for each key of a type that fits.
    pub open spec fn one_per_key(n: nat) -> bool {
        K::fits_in_usize() && n == K::cardinality()
    }

    /// The map whose values are `values`, which holds one for each key.
    pub(crate) fn with_values(values: Vec<V>) -> (m: Self)
        requires
            Self::one_per_key(values@.len()),
        ensures
            m@ == values@,
    {
        ExhaustiveMap { array: values, _phantom: PhantomData }
    }

    /// The values of the map, in the order of the positions of their keys.
    pub fn into_vec(self) -> (values: Vec<V>)
        ensures
            values@ == self@,
            values@.len() == K::cardinality(),
    {
        proof {
            use_type_invariant(&self);
        }
        self.array
    }
}

/// A vector becomes a map if it holds one value for each key, in the order
/// of the keys' positions. A vector of another length is handed back.
impl<K: Finite, V> TryFrom<Vec<V>> for ExhaustiveMap<K, V> {
    type Error = Vec<V>;

    fn try_from(value: Vec<V>) -> (r: Result<Self, Vec<V>>)
        ensures
            r is Ok <==> Self::one_per_key(value@.len()),
            r matches Ok(m) ==> m@ == value@,
            r matches Err(v) ==> v == value,
    {
        match K::checked_inhabitants() {
            Some(n) => {
                if value.len() == n {
                    Ok(ExhaustiveMap { array: value, _phantom: PhantomData })
                } else {
                    Err(value)
                }
            },
            None => Err(value),
        }
    }
}

impl<K: Finite, V> vstd::std_specs::convert::TryFromSpecImpl<Vec<V>> for ExhaustiveMap<K, V> {
    open spec fn obeys_try_from_spec() -> bool {
        true
    }

    open spec fn try_from_spec(value: Vec<V>) -> Result<Self, Vec<V>> {
        if Self::one_per_key(value@.len()) {
            Ok(Self::from_values(value))
        } else {
            Err(value)
        }
    }
}

/// A boxed slice becomes a map if it holds one value for each key, in the
/// order of the keys' positions. A slice of another length is handed back.
impl<K: Finite, V> TryFrom<Box<[V]>> for ExhaustiveMap<K, V> {
    type Error = Box<[V]>;

    fn try_from(value: Box<[V]>) -> (r: Result<Self, Box<[V]>>)
        ensures
            r is Ok <==> Self::one_per_key(value@.len()),
            r matches Ok(m) ==> m@ == value@,
            r matches Err(v) ==> v == value,
    {
        match K::checked_inhabitants() {
            Some(n) => {
                if value.len() == n {
                    Ok(ExhaustiveMap { array: value.into_vec(), _phantom: PhantomData })
                } else {
                    Err(value)
                }
            },
            None => Err(value),
        }
    }
}

impl<K: Finite, V> vstd::std_specs::convert::TryFromSpecImpl<Box<[V]>> for ExhaustiveMap<K, V> {
    open spec fn obeys_try_from_spec() -> bool {
        false
    }

    open spec fn try_from_spec(value: Box<[V]>) -> Result<Self, Box<[V]>> {
        Err(value)
    }
}

/// An array becomes a map if it holds one value for each key, in the order
/// of the keys' positions. An array of another length is handed back.
impl<const N: usize, K: Finite, V> TryFrom<[V; N]> for ExhaustiveMap<K, V> {
    type Error = [V; N];

    fn try_from(value: [V; N]) -> (r: Result<Self, [V; N]>)
        ensures
            r is Ok <==> Self::one_per_key(N as nat),
            r matches Ok(m) ==> m@ == value@,
            r matches Err(v) ==> v == value,
    {
        match K::checked_inhabitants() {
            Some(n) => {
                if N == n {
                    Ok(ExhaustiveMap { array: array_into_vec(value), _phantom: PhantomData })
                } else {
                    Err(value)
                }
            },
            None => Err(value),
        }
    }
}

impl<const N: usize, K: Finite, V> vstd::std_specs::convert::TryFromSpecImpl<[V; N]>
    for ExhaustiveMap<K, V> {
    open spec fn obeys_try_from_spec() -> bool {
        false
    }

    open spec fn try_from_spec(value: [V; N]) -> Result<Self, [V; N]> {
        Err(value)
    }
}

/// The values of a map as a boxed slice, in the order of the positions of
/// their keys.
impl<K: Finite, V> From<ExhaustiveMap<K, V>> for Box<[V]> {
    fn from(value: ExhaustiveMap<K, V>) -> (boxed: Self)
        ensures
            boxed@ == value@,
    {
        vec_into_boxed_slice(value.into_vec())
    }
}

impl<K: Finite, V> vstd::std_specs::convert::FromSpecImpl<ExhaustiveMap<K, V>> for Box<[V]> {
    open spec fn obeys_from_spec() -> bool {
        false
    }

    open spec fn from_spec(value: ExhaustiveMap<K, V>) -> Self {
        arbitrary()
    }
}

/// `map[k]` is the value stored for `k`.
impl<K: Finite, V> Index<K> for ExhaustiveMap<K, V> {
    type Output = V;

    fn index(&self, index: K) -> (v: &V)
        ensures
            index.inhabitant(),
            *v == self.spec_index(index),
            self@.len() == K::cardinality(),
    {
        self.get(&index)
    }
}

impl<K: Finite, V> vstd::std_specs::core::IndexSpecImpl<K> for ExhaustiveMap<K, V> {
    open spec fn index_req(&self, index: &K) -> bool {
        true
    }
}

/// `map[k] = v` stores `v` for `k` and changes no other value.
impl<K: Finite, V> IndexMut<K> for ExhaustiveMap<K, V> {
    fn index_mut(&mut self, index: K) -> (v: &mut V)
        ensures
            index.inhabitant(),
            *v == old(self).spec_index(index),
            final(self)@ == old(self)@.update(index.position() as int, *final(v)),
            old(self)@.len() == K::cardinality(),
    {
        self.get_mut(&index)
    }
}

/// The map in which every key has the default value of `V`.
impl<K: FitsInUsize, V: Default> Default for ExhaustiveMap<K, V> {
    fn default() -> (m: Self)
        ensures
            m@.len() == K::cardinality(),
            forall|i: int| 0 <= i < m@.len() ==> call_ensures(V::default, (), #[trigger] m@[i]),
    {
        proof {
            K::lemma_fits_in_usize();
        }
        ExhaustiveMap::<K, V>::default()
    }
}

/// Two maps are equal when each key has equal values in them.
impl<K: Finite, V: PartialEq> PartialEq for ExhaustiveMap<K, V> {
    fn eq(&self, other: &Self) -> (r: bool) {
        self.array == other.array
    }
}

impl<K: Finite, V: PartialEq> vstd::std_specs::cmp::PartialEqSpecImpl for ExhaustiveMap<K, V> {
    open spec fn obeys_eq_spec() -> bool {
        <V as PartialEqSpec>::obeys_eq_spec()
    }

    open spec fn eq_spec(&self, other: &Self) -> bool {
        &&& self@.len() == other@.len()
        &&& forall|i: int| 0 <= i < self@.len() ==> (#[trigger] self@[i]).eq_spec(&other@[i])
    }
}

impl<K: Finite, V: Eq> Eq for ExhaustiveMap<K, V> {

}

/// A clone of a map holds a clone of each value, at the same key.
impl<K: Finite, V: Clone> Clone for ExhaustiveMap<K, V> {
    fn clone(&self) -> (m: Self)
        ensures
            m@.len() == self@.len(),
            forall|i: int| 0 <= i < self@.len() ==> cloned(#[trigger] self@[i], m@[i]),
    {
        proof {
            use_type_invariant(self);
        }
        ExhaustiveMap { array: self.array.clone(), _phantom: PhantomData }
    }
}

/// `map[&k]` is the value stored for `k`.
impl<K: Finite, V> Index<&K> for ExhaustiveMap<K, V> {
    type Output = V;

    fn index(&self, index: &K) -> (v: &V)
        ensures
            index.inhabitant(),
            *v == self.spec_index(*index),
            self@.len() == K::cardinality(),
    {
        self.get(index)
    }
}

impl<K: Finite, V> vstd::std_specs::core::IndexSpecImpl<&K> for ExhaustiveMap<K, V> {
    open spec fn index_req(&self, index: &&K) -> bool {
        true
    }
}

/// `map[&k] = v` stores `v` for `k` and changes no other value.
impl<K: Finite, V> IndexMut<&K> for ExhaustiveMap<K, V> {
    fn index_mut(&mut self, index: &K) -> (v: &mut V)
        ensures
            index.inhabitant(),
            *v == old(self).spec_index(*index),
            final(self)@ == old(self)@.update(index.position() as int, *final(v)),
            old(self)@.len() == K::cardinality(),
    {
        self.get_mut(index)
    }
}

/// An iterator over the values of an [`ExhaustiveMap`].
///
/// This `struct` is created by the [`ExhaustiveMap::values`] method.
pub struct Values<'a, V> {
    items: &'a [V],
    position: usize,
}

impl<'a, V> Values<'a, V> {
    #[verifier::type_invariant]
    spec fn well_formed(self) -> bool {
        self.position <= self.items@.len()
    }

    /// The values still to come, in order.
    pub closed spec fn view(&self) -> Seq<V> {
        self.items@.subrange(self.position as int, self.items@.len() as int)
    }

    /// An iterator over all of `items`.
    fn new(items: &'a [V]) -> (it: Self)
        ensures
            it@ == items@,
    {
        let it = Values { items, position: 0 };
        assert(it@ =~= items@);
        it
    }

    /// Takes the first of the remaining values.
    pub fn next(&mut self) -> (r: Option<&'a V>)
        ensures
            old(self)@.len() == 0 ==> r is None && final(self)@ == old(self)@,
            old(self)@.len() > 0 ==> r is Some && *r.unwrap() == old(self)@.first() && final(self)@
                == old(self)@.drop_first(),
    {
        proof {
            use_type_invariant(&*self);
        }
        if self.position < self.items.len() {
            let r = &self.items[self.position];
            self.position = self.position + 1;
            assert(self@ =~= old(self)@.drop_first());
            Some(r)
        } else {
            None
        }
    }

    /// The number of values still to come.
    pub fn len(&self) -> (n: usize)
        ensures
            n == self@.len(),
    {
        proof {
            use_type_invariant(self);
        }
        self.items.len() - self.position
    }
}

/// An owning iterator over the values of an [`ExhaustiveMap`].
///
/// This `struct` is created by the [`ExhaustiveMap::into_values`] method.
pub struct IntoValues<V> {
    reversed: Vec<V>,
}

impl<V> IntoValues<V> {
    /// The values still to come, in order.
    pub closed spec fn view(&self) -> Seq<V> {
        self.reversed@.reverse()
    }

    /// An iterator over all of `items`.
    fn new(items: Vec<V>) -> (it: Self)
        ensures
            it@ == items@,
    {
        let mut rest = items;
        let mut reversed: Vec<V> = Vec::new();
        while rest.len() > 0
            invariant
                rest@.len() + reversed@.len() == items@.len(),
                rest@ == items@.subrange(0, rest@.len() as int),
                forall|j: int|
                    0 <= j < reversed@.len() ==> #[trigger] reversed@[j] == items@[items@.len() - 1
                        - j],
            decreases rest@.len(),
        {
            let v = rest.pop().unwrap();
            reversed.push(v);
            assert(rest@ =~= items@.subrange(0, rest@.len() as int));
        }
        let it = IntoValues { reversed };
        assert(it@ =~= items@);
        it
    }

    /// Takes the first of the remaining values.
    pub fn next(&mut self) -> (r: Option<V>)
        ensures
            old(self)@.len() == 0 ==> r is None && final(self)@ == old(self)@,
            old(self)@.len() > 0 ==> r == Some(old(self)@.first()) && final(self)@ == old(
                self,
            )@.drop_first(),
    {
        let r = self.reversed.pop();
        assert(self@ =~= if old(self)@.len() > 0 {
            old(self)@.drop_first()
        } else {
            old(self)@
        });
        r
    }

    /// The number of values still to come.
    pub fn len(&self) -> (n: usize)
        ensures
            n == self@.len(),
    {
        self.reversed.len()
    }
}

/// An iterator over the entries of an [`ExhaustiveMap`].
///
/// This `struct` is created by the [`ExhaustiveMap::iter`] method.
pub struct Iter<'a, K: Finite, V> {
    keys: IterAll<K>,
    values: Values<'a, V>,
}

impl<'a, K: Finite, V> Iter<'a, K, V> {
    /// The keys still to come, in order.
    pub closed spec fn keys(&self) -> Seq<K> {
        self.keys@
    }

    /// The values still to come, in order.
    pub closed spec fn values(&self) -> Seq<V> {
        self.values@
    }

    /// An iterator over the pairs of `keys` and `values`.
    fn new(keys: IterAll<K>, values: Values<'a, V>) -> (it: Self)
        ensures
            it.keys() == keys@,
            it.values() == values@,
    {
        Iter { keys, values }
    }

    /// Takes the first of the remaining entries: a key and its value. There
    /// is none when the keys or the values have run out.
    pub fn next(&mut self) -> (r: Option<(K, &'a V)>)
        ensures
            r is Some <==> old(self).keys().len() > 0 && old(self).values().len() > 0,
            r is Some ==> r.unwrap().0 == old(self).keys().first() && *r.unwrap().1 == old(
                self,
            ).values().first(),
            final(self).keys() == if old(self).keys().len() > 0 {
                old(self).keys().drop_first()
            } else {
                old(self).keys()
            },
            final(self).values() == if r is Some {
                old(self).values().drop_first()
            } else {
                old(self).values()
            },
    {
        match self.keys.next() {
            Some(k) => {
                match self.values.next() {
                    Some(v) => Some((k, v)),
                    None => None,
                }
            },
            None => None,
        }
    }
}

/// An owning iterator over the entries of an [`ExhaustiveMap`].
///
/// This `struct` is created by the [`ExhaustiveMap::into_iter`] method.
pub struct IntoIter<K: Finite, V> {
    keys: IterAll<K>,
    values: IntoValues<V>,
}

impl<K: Finite, V> IntoIter<K, V> {
    /// The keys still to come, in order.
    pub closed spec fn keys(&self) -> Seq<K> {
        self.keys@
    }

    /// The values still to come, in order.
    pub closed spec fn values(&self) -> Seq<V> {
        self.values@
    }

    /// An iterator over the pairs of `keys` and `values`.
    fn new(keys: IterAll<K>, values: IntoValues<V>) -> (it: Self)
        ensures
            it.keys() == keys@,
            it.values() == values@,
    {
        IntoIter { keys, values }
    }

    /// Takes the first of the remaining entries: a key and its value. There
    /// is none when the keys or the values have run out.
    pub fn next(&mut self) -> (r: Option<(K, V)>)
        ensures
            r is Some <==> old(self).keys().len() > 0 && old(self).values().len() > 0,
            r is Some ==> r == Some((old(self).keys().first(), old(self).values().first())),
            final(self).keys() == if old(self).keys().len() > 0 {
                old(self).keys().drop_first()
            } else {
                old(self).keys()
            },
            final(self).values() == if r is Some {
                old(self).values().drop_first()
            } else {
                old(self).values()
            },
    {
        match self.keys.next() {
            Some(k) => {
                match self.values.next() {
                    Some(v) => Some((k, v)),
                    None => None,
                }
            },
            None => None,
        }
    }
}

} // verus!
