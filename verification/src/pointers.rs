//! The positions of owning pointers.

use std::rc::Rc;
use std::sync::Arc;
use vstd::prelude::*;
use crate::finite::{Finite, FitsInUsize};

verus! {

/// `Box<T>`: the position of a pointer is that of the value it points to.
impl<T: Finite> Finite for Box<T> {
    open spec fn cardinality() -> nat {
        T::cardinality()
    }

    open spec fn fits_in_usize() -> bool {
        T::fits_in_usize()
    }

    open spec fn inhabitant(&self) -> bool {
        (**self).inhabitant()
    }

    open spec fn position(&self) -> nat {
        (**self).position()
    }

    open spec fn at(i: nat) -> Option<Self> {
        match T::at(i) {
            Some(v) => Some(Box::new(v)),
            None => None,
        }
    }

    proof fn lemma_fits() {
        T::lemma_fits();
    }

    proof fn lemma_position(&self) {
        (**self).lemma_position();
    }

    proof fn lemma_at(i: nat) {
        T::lemma_at(i);
    }

    fn checked_inhabitants() -> (n: Option<usize>) {
        T::checked_inhabitants()
    }

    fn to_usize(&self) -> (i: usize) {
        (**self).to_usize()
    }

    fn from_usize(i: usize) -> (r: Option<Self>) {
        match T::from_usize(i) {
            Some(v) => Some(Box::new(v)),
            None => None,
        }
    }
}

/// `Rc<T>`: the position of a pointer is that of the value it points to.
impl<T: Finite> Finite for Rc<T> {
    open spec fn cardinality() -> nat {
        T::cardinality()
    }

    open spec fn fits_in_usize() -> bool {
        T::fits_in_usize()
    }

    open spec fn inhabitant(&self) -> bool {
        (**self).inhabitant()
    }

    open spec fn position(&self) -> nat {
        (**self).position()
    }

    open spec fn at(i: nat) -> Option<Self> {
        match T::at(i) {
            Some(v) => Some(Rc::new(v)),
            None => None,
        }
    }

    proof fn lemma_fits() {
        T::lemma_fits();
    }

    proof fn lemma_position(&self) {
        (**self).lemma_position();
    }

    proof fn lemma_at(i: nat) {
        T::lemma_at(i);
    }

    fn checked_inhabitants() -> (n: Option<usize>) {
        T::checked_inhabitants()
    }

    fn to_usize(&self) -> (i: usize) {
        (**self).to_usize()
    }

    fn from_usize(i: usize) -> (r: Option<Self>) {
        match T::from_usize(i) {
            Some(v) => Some(Rc::new(v)),
            None => None,
        }
    }
}

/// `Arc<T>`: the position of a pointer is that of the value it points to.
impl<T: Finite> Finite for Arc<T> {
    open spec fn cardinality() -> nat {
        T::cardinality()
    }

    open spec fn fits_in_usize() -> bool {
        T::fits_in_usize()
    }

    open spec fn inhabitant(&self) -> bool {
        (**self).inhabitant()
    }

    open spec fn position(&self) -> nat {
        (**self).position()
    }

    open spec fn at(i: nat) -> Option<Self> {
        match T::at(i) {
            Some(v) => Some(Arc::new(v)),
            None => None,
        }
    }

    proof fn lemma_fits() {
        T::lemma_fits();
    }

    proof fn lemma_position(&self) {
        (**self).lemma_position();
    }

    proof fn lemma_at(i: nat) {
        T::lemma_at(i);
    }

    fn checked_inhabitants() -> (n: Option<usize>) {
        T::checked_inhabitants()
    }

    fn to_usize(&self) -> (i: usize) {
        (**self).to_usize()
    }

    fn from_usize(i: usize) -> (r: Option<Self>) {
        match T::from_usize(i) {
            Some(v) => Some(Arc::new(v)),
            None => None,
        }
    }
}

impl<T: FitsInUsize> FitsInUsize for Box<T> {
    proof fn lemma_fits_in_usize() {
        T::lemma_fits_in_usize();
    }
}

impl<T: FitsInUsize> FitsInUsize for Rc<T> {
    proof fn lemma_fits_in_usize() {
        T::lemma_fits_in_usize();
    }
}

impl<T: FitsInUsize> FitsInUsize for Arc<T> {
    proof fn lemma_fits_in_usize() {
        T::lemma_fits_in_usize();
    }
}

} // verus!
