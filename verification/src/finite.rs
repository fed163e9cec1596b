//! The bijection between a finite type and the positions `0..cardinality`.

use std::marker::PhantomData;
use vstd::prelude::*;

verus! {

/// A type with finitely many inhabitants, numbered from zero.
///
/// `position` and `at` are inverse to each other between the inhabitants and
/// the positions below `cardinality`. Every implementation proves so, in
/// `lemma_position` and `lemma_at`.
///
/// The executable methods work on `usize`, so they ask that the type
/// `fits_in_usize`. A type whose cardinality is too large has the mathematical
/// part of the trait, and of the methods only `checked_inhabitants`, which
/// says that it does not fit.
pub trait Finite: Sized {
    /// The number of inhabitants.
    spec fn cardinality() -> nat;

    /// Whether the cardinality of the type, and of each type it is built
    /// from, is at most `usize::MAX`.
    spec fn fits_in_usize() -> bool;

    /// Whether the value is an inhabitant. Every value that a program holds
    /// is one; a value that exists only in a specification may not be.
    spec fn inhabitant(&self) -> bool;

    /// The position of the value.
    spec fn position(&self) -> nat;

    /// The inhabitant at position `i`, if `i` is below the cardinality.
    spec fn at(i: nat) -> Option<Self>;

    /// A type that fits has a cardinality that a `usize` can hold.
    proof fn lemma_fits()
        requires
            Self::fits_in_usize(),
        ensures
            Self::cardinality() <= usize::MAX,
    ;

    /// An inhabitant's position is below the cardinality, and `at` leads
    /// back from the position to the inhabitant.
    proof fn lemma_position(&self)
        requires
            self.inhabitant(),
        ensures
            self.position() < Self::cardinality(),
            Self::at(self.position()) == Some(*self),
    ;

    /// Below the cardinality `at` gives an inhabitant with that position;
    /// from the cardinality on it gives nothing.
    proof fn lemma_at(i: nat)
        ensures
            i < Self::cardinality() ==> Self::at(i) is Some && Self::at(i).unwrap().inhabitant()
                && Self::at(i).unwrap().position() == i,
            i >= Self::cardinality() ==> Self::at(i) is None,
    ;

    /// The number of inhabitants, or `None` for a type that does not fit:
    /// the test to make before any other method is called on a type that is
    /// not known to fit.
    fn checked_inhabitants() -> (n: Option<usize>)
        ensures
            n is Some <==> Self::fits_in_usize(),
            n is Some ==> n.unwrap() == Self::cardinality(),
    ;

    /// The number of inhabitants.
    fn inhabitants() -> (n: usize)
        requires
            Self::fits_in_usize(),
        ensures
            n == Self::cardinality(),
    {
        Self::checked_inhabitants().unwrap()
    }

    /// The position of the value, a number below `inhabitants()`.
    fn to_usize(&self) -> (i: usize)
        requires
            Self::fits_in_usize(),
        ensures
            self.inhabitant(),
            i == self.position(),
            i < Self::cardinality(),
    ;

    /// The inverse of `to_usize`: `Some` exactly when `i < inhabitants()`.
    fn from_usize(i: usize) -> (r: Option<Self>)
        requires
            Self::fits_in_usize(),
        ensures
            r == Self::at(i as nat),
            r is Some <==> i < Self::cardinality(),
            r is Some ==> r.unwrap().inhabitant() && r.unwrap().position() == i,
    ;
}

/// A finite type that fits in a `usize` on every target.
///
/// Where a function cannot ask its caller that the key type fits, as in an
/// implementation of a trait of the standard library, it asks for this
/// trait instead.
pub trait FitsInUsize: Finite {
    /// The type fits.
    proof fn lemma_fits_in_usize()
        ensures
            Self::fits_in_usize(),
    ;
}

/// All inhabitants of `T`, by position.
pub open spec fn all_inhabitants<T: Finite>() -> Seq<T> {
    Seq::new(T::cardinality(), |i: int| T::at(i as nat).unwrap())
}

/// Two inhabitants with the same position are the same value.
pub proof fn lemma_position_injective<T: Finite>(a: T, b: T)
    requires
        a.inhabitant(),
        b.inhabitant(),
        a.position() == b.position(),
    ensures
        a == b,
{
    a.lemma_position();
    b.lemma_position();
}

/// The enumeration has one entry per position, the entry at `i` has position
/// `i`, no value occurs twice, and every inhabitant occurs.
pub proof fn lemma_all_inhabitants<T: Finite>()
    ensures
        all_inhabitants::<T>().len() == T::cardinality(),
        forall|i: int|
            0 <= i < T::cardinality() ==> (#[trigger] all_inhabitants::<T>()[i]).inhabitant()
                && all_inhabitants::<T>()[i].position() == i,
        forall|i: int, j: int|
            0 <= i < T::cardinality() && 0 <= j < T::cardinality() && i != j
                ==> all_inhabitants::<T>()[i] != all_inhabitants::<T>()[j],
        forall|k: T|
            k.inhabitant() ==> 0 <= k.position() < T::cardinality()
                && all_inhabitants::<T>()[#[trigger] k.position() as int] == k,
{
    assert forall|i: int| 0 <= i < T::cardinality() implies (#[trigger] all_inhabitants::<
        T,
    >()[i]).inhabitant() && all_inhabitants::<T>()[i].position() == i by {
        T::lemma_at(i as nat);
    }
    assert forall|k: T| k.inhabitant() implies 0 <= k.position() < T::cardinality()
        && all_inhabitants::<T>()[#[trigger] k.position() as int] == k by {
        k.lemma_position();
    }
}

/// An iterator over all inhabitants of a [`Finite`] type, in the order of
/// their positions. It can be read from both ends.
pub struct IterAll<T: Finite> {
    front: usize,
    back: usize,
    _phantom: PhantomData<T>,
}

impl<T: Finite> IterAll<T> {
    #[verifier::type_invariant]
    spec fn well_formed(self) -> bool {
        &&& T::fits_in_usize()
        &&& self.front <= self.back <= T::cardinality()
    }

    /// The position of the next inhabitant from the front.
    pub closed spec fn front(&self) -> nat {
        self.front as nat
    }

    /// One more than the position of the next inhabitant from the back.
    pub closed spec fn back(&self) -> nat {
        self.back as nat
    }

    /// The inhabitants still to come, front to back.
    pub open spec fn view(&self) -> Seq<T> {
        all_inhabitants::<T>().subrange(self.front() as int, self.back() as int)
    }

    /// An iterator over every inhabitant.
    pub fn new() -> (it: Self)
        requires
            T::fits_in_usize(),
        ensures
            it.front() == 0,
            it.back() == T::cardinality(),
            it@ == all_inhabitants::<T>(),
    {
        let n: usize = T::inhabitants();
        let it = IterAll { front: 0, back: n, _phantom: PhantomData };
        assert(it@ =~= all_inhabitants::<T>());
        it
    }

    /// Takes the first of the remaining inhabitants.
    pub fn next(&mut self) -> (r: Option<T>)
        ensures
            old(self)@.len() == 0 ==> r is None && *final(self) == *old(self),
            old(self)@.len() > 0 ==> r == Some(old(self)@.first()) && final(self)@ == old(
                self,
            )@.drop_first() && final(self).front() == old(self).front() + 1 && final(self).back()
                == old(self).back(),
            r is Some ==> r.unwrap().inhabitant() && r.unwrap().position() == old(self).front(),
    {
        proof {
            use_type_invariant(&*self);
        }
        if self.front < self.back {
            let r = T::from_usize(self.front);
            proof {
                assert(old(self)@.first() == T::at(self.front as nat).unwrap());
            }
            self.front = self.front + 1;
            assert(self@ =~= old(self)@.drop_first());
            r
        } else {
            None
        }
    }

    /// Takes the last of the remaining inhabitants.
    pub fn next_back(&mut self) -> (r: Option<T>)
        ensures
            old(self)@.len() == 0 ==> r is None && *final(self) == *old(self),
            old(self)@.len() > 0 ==> r == Some(old(self)@.last()) && final(self)@ == old(
                self,
            )@.drop_last() && final(self).back() == old(self).back() - 1 && final(self).front()
                == old(self).front(),
            r is Some ==> r.unwrap().inhabitant() && r.unwrap().position() == old(self).back() - 1,
    {
        proof {
            use_type_invariant(&*self);
        }
        if self.front < self.back {
            self.back = self.back - 1;
            let r = T::from_usize(self.back);
            proof {
                assert(old(self)@.last() == T::at(self.back as nat).unwrap());
                assert(self@ =~= old(self)@.drop_last());
            }
            r
        } else {
            None
        }
    }

    /// The number of inhabitants still to come.
    pub fn len(&self) -> (n: usize)
        ensures
            n == self@.len(),
            n == self.back() - self.front(),
            self.back() <= T::cardinality(),
    {
        proof {
            use_type_invariant(self);
        }
        self.back - self.front
    }

    /// The bounds on the number of inhabitants still to come: both are `len()`.
    pub fn size_hint(&self) -> (r: (usize, Option<usize>))
        ensures
            r.0 == self@.len(),
            r.1 == Some(r.0),
    {
        let n: usize = self.len();
        (n, Some(n))
    }
}

/// Adds [`iter_all`](FiniteExt::iter_all) to every [`Finite`] type.
pub trait FiniteExt: Finite {
    /// An iterator over all inhabitants of the type, in the order of their
    /// positions.
    fn iter_all() -> (it: IterAll<Self>)
        requires
            Self::fits_in_usize(),
        ensures
            it@ == all_inhabitants::<Self>(),
            it.front() == 0,
            it.back() == Self::cardinality(),
    {
        IterAll::new()
    }
}

impl<T: Finite> FiniteExt for T {

}

} // verus!
