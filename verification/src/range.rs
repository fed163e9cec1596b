//! Integers confined to a range that the type fixes.

use vstd::prelude::*;
use crate::finite::{Finite, FitsInUsize};

verus! {

/// A `usize` value that is guaranteed to be in the range `A..B`.
///
/// Common methods are in the [`InRangeBounds`] trait implementation.
#[derive(Debug, Clone, Copy, PartialEq, Eq, PartialOrd, Ord, Hash)]
pub struct InRange<const A: usize, const B: usize> {
    value: usize,
}

/// A `usize` value that is guaranteed to be in the range `A..=B`.
///
/// Common methods are in the [`InRangeBounds`] trait implementation.
#[derive(Debug, Clone, Copy, PartialEq, Eq, PartialOrd, Ord, Hash)]
pub struct InRangeInclusive<const A: usize, const B: usize> {
    value: usize,
}

/// A type of integers that lie in a range `min .. min + count`.
///
/// The range is a property of the type. The methods that need `count` as a
/// `usize` ask that it fits.
pub trait InRangeBounds: Copy + Sized {
    /// The smallest value of the range (if the range is not empty).
    spec fn min_value() -> nat;

    /// The number of values in the range.
    spec fn count() -> nat;

    /// The integer that the value holds.
    spec fn value(self) -> usize;

    /// Two values that hold the same integer are the same value.
    proof fn lemma_value_injective(self, other: Self)
        requires
            self.value() == other.value(),
        ensures
            self == other,
    ;

    /// Every value of the range is a `usize`.
    proof fn lemma_range_in_usize()
        ensures
            Self::count() > 0 ==> Self::min_value() + Self::count() - 1 <= usize::MAX,
    ;

    /// The smallest value of the range (if the range is not empty).
    fn start() -> (m: usize)
        ensures
            m == Self::min_value(),
    ;

    /// The number of values in the range, or `None` if it is more than
    /// `usize::MAX`.
    fn checked_inhabitants() -> (n: Option<usize>)
        ensures
            n is Some <==> Self::count() <= usize::MAX,
            n is Some ==> n.unwrap() == Self::count(),
    ;

    /// The number of values in the range.
    fn inhabitants() -> (n: usize)
        requires
            Self::count() <= usize::MAX,
        ensures
            n == Self::count(),
    {
        Self::checked_inhabitants().unwrap()
    }

    /// Creates a value without checking whether the value is in range. The
    /// caller shows that it is.
    fn new_unchecked(i: usize) -> (r: Self)
        requires
            Self::min_value() <= i < Self::min_value() + Self::count(),
        ensures
            r.value() == i,
    ;

    /// Returns the value as a `usize`.
    fn get(self) -> (i: usize)
        ensures
            i == self.value(),
            Self::min_value() <= i < Self::min_value() + Self::count(),
    ;

    /// Same as `new(start() + offset)`, for every offset: an offset that is
    /// not below the count gives `None`.
    fn new_from_start_offset(offset: usize) -> (r: Option<Self>)
        requires
            Self::count() <= usize::MAX,
        ensures
            r is Some <==> offset < Self::count(),
            r is Some ==> r.unwrap().value() == Self::min_value() + offset,
    {
        proof {
            Self::lemma_range_in_usize();
        }
        if offset < Self::inhabitants() {
            match Self::start().checked_add(offset) {
                Some(i) => Self::new(i),
                None => None,
            }
        } else {
            None
        }
    }

    /// Returns the offset from the smallest value if `i` is in range.
    fn offset_from_start(i: usize) -> (r: Option<usize>)
        requires
            Self::count() <= usize::MAX,
        ensures
            r is Some <==> Self::min_value() <= i < Self::min_value() + Self::count(),
            r is Some ==> r.unwrap() == i - Self::min_value(),
    {
        match i.checked_sub(Self::start()) {
            Some(offset) => {
                if offset < Self::inhabitants() {
                    Some(offset)
                } else {
                    None
                }
            },
            None => None,
        }
    }

    /// Returns whether `i` is in range.
    fn in_bounds(i: usize) -> (b: bool)
        requires
            Self::count() <= usize::MAX,
        ensures
            b <==> Self::min_value() <= i < Self::min_value() + Self::count(),
    {
        Self::offset_from_start(i).is_some()
    }

    /// Creates a value if the given value is in range.
    fn new(i: usize) -> (r: Option<Self>)
        requires
            Self::count() <= usize::MAX,
        ensures
            r is Some <==> Self::min_value() <= i < Self::min_value() + Self::count(),
            r is Some ==> r.unwrap().value() == i,
    {
        if Self::in_bounds(i) {
            Some(Self::new_unchecked(i))
        } else {
            None
        }
    }
}

/// Whether `i` lies in the range of `T`.
pub open spec fn in_range<T: InRangeBounds>(i: nat) -> bool {
    T::min_value() <= i < T::min_value() + T::count()
}

impl<const A: usize, const B: usize> InRange<A, B> {
    #[verifier::type_invariant]
    spec fn well_formed(self) -> bool {
        A <= self.value < B
    }
}

impl<const A: usize, const B: usize> InRangeInclusive<A, B> {
    #[verifier::type_invariant]
    spec fn well_formed(self) -> bool {
        A <= self.value <= B
    }
}

impl<const A: usize, const B: usize> InRangeBounds for InRange<A, B> {
    open spec fn min_value() -> nat {
        A as nat
    }

    open spec fn count() -> nat {
        if A <= B {
            (B - A) as nat
        } else {
            0
        }
    }

    closed spec fn value(self) -> usize {
        self.value
    }

    proof fn lemma_value_injective(self, other: Self) {
    }

    proof fn lemma_range_in_usize() {
    }

    fn start() -> (m: usize) {
        A
    }

    fn checked_inhabitants() -> (n: Option<usize>) {
        if A <= B {
            Some(B - A)
        } else {
            Some(0)
        }
    }

    fn new_unchecked(i: usize) -> (r: Self) {
        Self { value: i }
    }

    fn get(self) -> (i: usize) {
        proof {
            use_type_invariant(&self);
        }
        self.value
    }
}

impl<const A: usize, const B: usize> InRangeBounds for InRangeInclusive<A, B> {
    open spec fn min_value() -> nat {
        A as nat
    }

    open spec fn count() -> nat {
        if A <= B {
            (B - A + 1) as nat
        } else {
            0
        }
    }

    closed spec fn value(self) -> usize {
        self.value
    }

    proof fn lemma_value_injective(self, other: Self) {
    }

    proof fn lemma_range_in_usize() {
    }

    fn start() -> (m: usize) {
        A
    }

    fn checked_inhabitants() -> (n: Option<usize>) {
        if A <= B {
            (B - A).checked_add(1)
        } else {
            Some(0)
        }
    }

    fn new_unchecked(i: usize) -> (r: Self) {
        Self { value: i }
    }

    fn get(self) -> (i: usize) {
        proof {
            use_type_invariant(&self);
        }
        self.value
    }
}

/// The value of `T` that holds `i`.
pub open spec fn with_value<T: InRangeBounds>(i: int) -> T {
    choose|r: T| r.value() == i
}

/// `InRange<A, B>`: the position of a value is its offset from `A`.
impl<const A: usize, const B: usize> Finite for InRange<A, B> {
    open spec fn cardinality() -> nat {
        <Self as InRangeBounds>::count()
    }

    open spec fn fits_in_usize() -> bool {
        true
    }

    open spec fn inhabitant(&self) -> bool {
        in_range::<Self>(self.value() as nat)
    }

    open spec fn position(&self) -> nat {
        (self.value() - A) as nat
    }

    open spec fn at(i: nat) -> Option<Self> {
        if i < Self::cardinality() {
            Some(with_value::<Self>(A + i))
        } else {
            None
        }
    }

    proof fn lemma_fits() {
    }

    proof fn lemma_position(&self) {
        self.lemma_value_injective(with_value::<Self>(A + self.position()));
    }

    proof fn lemma_at(i: nat) {
        if i < Self::cardinality() {
            let witness = InRange::<A, B> { value: (A + i) as usize };
            assert(witness.value() == A + i);
        }
    }

    fn checked_inhabitants() -> (n: Option<usize>) {
        <Self as InRangeBounds>::checked_inhabitants()
    }

    fn to_usize(&self) -> (i: usize) {
        self.get() - <Self as InRangeBounds>::start()
    }

    fn from_usize(i: usize) -> (r: Option<Self>) {
        let r = Self::new_from_start_offset(i);
        proof {
            if r is Some {
                r.unwrap().lemma_value_injective(with_value::<Self>(A + i));
            }
        }
        r
    }
}

/// `InRangeInclusive<A, B>`: the position of a value is its offset from `A`.
impl<const A: usize, const B: usize> Finite for InRangeInclusive<A, B> {
    open spec fn cardinality() -> nat {
        <Self as InRangeBounds>::count()
    }

    open spec fn fits_in_usize() -> bool {
        <Self as InRangeBounds>::count() <= usize::MAX
    }

    open spec fn inhabitant(&self) -> bool {
        in_range::<Self>(self.value() as nat)
    }

    open spec fn position(&self) -> nat {
        (self.value() - A) as nat
    }

    open spec fn at(i: nat) -> Option<Self> {
        if i < Self::cardinality() {
            Some(with_value::<Self>(A + i))
        } else {
            None
        }
    }

    proof fn lemma_fits() {
    }

    proof fn lemma_position(&self) {
        self.lemma_value_injective(with_value::<Self>(A + self.position()));
    }

    proof fn lemma_at(i: nat) {
        if i < Self::cardinality() {
            let witness = InRangeInclusive::<A, B> { value: (A + i) as usize };
            assert(witness.value() == A + i);
        }
    }

    fn checked_inhabitants() -> (n: Option<usize>) {
        <Self as InRangeBounds>::checked_inhabitants()
    }

    fn to_usize(&self) -> (i: usize) {
        self.get() - <Self as InRangeBounds>::start()
    }

    fn from_usize(i: usize) -> (r: Option<Self>) {
        let r = Self::new_from_start_offset(i);
        proof {
            if r is Some {
                r.unwrap().lemma_value_injective(with_value::<Self>(A + i));
            }
        }
        r
    }
}

impl<const A: usize, const B: usize> FitsInUsize for InRange<A, B> {
    proof fn lemma_fits_in_usize() {
    }
}

} // verus!
