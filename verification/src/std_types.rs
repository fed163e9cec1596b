//! The positions of the sum and product types of the standard library.
//!
//! A sum type gives each variant a block of positions, in the order of the
//! variants; inside its block a variant is numbered as the product of its
//! fields.

use std::convert::Infallible;
use std::ops::{ControlFlow, Range};
use vstd::prelude::*;
use crate::composite::{
    lemma_digit_split, lemma_digit_step, lemma_product_step, lemma_sum_offset_step, product,
    product_position, sum, sum_position,
};
use crate::finite::{Finite, FitsInUsize};

verus! {

/// The position of a value of `Infallible`. No such value exists, so nothing
/// can call this function, and the match in it has no arm to take: whatever
/// is claimed of its result is claimed of no result at all.
#[verifier::external_body]
fn infallible_position(value: &Infallible) -> (i: usize)
    ensures
        i < Infallible::cardinality(),
{
    match *value {
    }
}

/// `Infallible`: a sum of no variant, without inhabitants.
impl Finite for Infallible {
    open spec fn cardinality() -> nat {
        0
    }

    open spec fn fits_in_usize() -> bool {
        true
    }

    open spec fn inhabitant(&self) -> bool {
        false
    }

    open spec fn position(&self) -> nat {
        0
    }

    open spec fn at(i: nat) -> Option<Self> {
        None
    }

    proof fn lemma_fits() {
    }

    proof fn lemma_position(&self) {
    }

    proof fn lemma_at(i: nat) {
    }

    fn checked_inhabitants() -> (n: Option<usize>) {
        Some(0)
    }

    fn to_usize(&self) -> (i: usize) {
        infallible_position(self)
    }

    fn from_usize(i: usize) -> (r: Option<Self>) {
        None
    }
}

/// `Option<T>`: `None` first, then the values of `Some`.
impl<T: Finite> Finite for Option<T> {
    open spec fn cardinality() -> nat {
        1 + T::cardinality()
    }

    open spec fn fits_in_usize() -> bool {
        &&& T::fits_in_usize()
        &&& Self::cardinality() <= usize::MAX
    }

    open spec fn inhabitant(&self) -> bool {
        match self {
            None => true,
            Some(v) => v.inhabitant(),
        }
    }

    open spec fn position(&self) -> nat {
        match self {
            None => 0,
            Some(v) => 1 + v.position(),
        }
    }

    open spec fn at(i: nat) -> Option<Self> {
        if i == 0 {
            Some(None)
        } else if i < Self::cardinality() {
            Some(Some(T::at((i - 1) as nat).unwrap()))
        } else {
            None
        }
    }

    proof fn lemma_fits() {
    }

    proof fn lemma_position(&self) {
        match self {
            None => {},
            Some(v) => {
                v.lemma_position();
            },
        }
    }

    proof fn lemma_at(i: nat) {
        if 0 < i < Self::cardinality() {
            T::lemma_at((i - 1) as nat);
        }
    }

    fn checked_inhabitants() -> (n: Option<usize>) {
        match T::checked_inhabitants() {
            Some(n) => n.checked_add(1),
            None => None,
        }
    }

    fn to_usize(&self) -> (i: usize) {
        match self {
            None => 0,
            Some(v) => 1 + v.to_usize(),
        }
    }

    fn from_usize(i: usize) -> (r: Option<Self>) {
        if i == 0 {
            Some(None)
        } else {
            match T::from_usize(i - 1) {
                Some(v) => Some(Some(v)),
                None => None,
            }
        }
    }
}

/// `Result<T, E>`: the values of `Ok` first, then those of `Err`.
impl<T: Finite, E: Finite> Finite for Result<T, E> {
    open spec fn cardinality() -> nat {
        T::cardinality() + E::cardinality()
    }

    open spec fn fits_in_usize() -> bool {
        &&& T::fits_in_usize()
        &&& E::fits_in_usize()
        &&& Self::cardinality() <= usize::MAX
    }

    open spec fn inhabitant(&self) -> bool {
        match self {
            Ok(v) => v.inhabitant(),
            Err(e) => e.inhabitant(),
        }
    }

    open spec fn position(&self) -> nat {
        match self {
            Ok(v) => v.position(),
            Err(e) => T::cardinality() + e.position(),
        }
    }

    open spec fn at(i: nat) -> Option<Self> {
        if i < T::cardinality() {
            Some(Ok(T::at(i).unwrap()))
        } else if i < Self::cardinality() {
            Some(Err(E::at((i - T::cardinality()) as nat).unwrap()))
        } else {
            None
        }
    }

    proof fn lemma_fits() {
    }

    proof fn lemma_position(&self) {
        match self {
            Ok(v) => {
                v.lemma_position();
            },
            Err(e) => {
                e.lemma_position();
            },
        }
    }

    proof fn lemma_at(i: nat) {
        if i < T::cardinality() {
            T::lemma_at(i);
        } else if i < Self::cardinality() {
            E::lemma_at((i - T::cardinality()) as nat);
        }
    }

    fn checked_inhabitants() -> (n: Option<usize>) {
        match T::checked_inhabitants() {
            Some(a) => match E::checked_inhabitants() {
                Some(b) => a.checked_add(b),
                None => None,
            },
            None => None,
        }
    }

    fn to_usize(&self) -> (i: usize) {
        match self {
            Ok(v) => {
                let i: usize = v.to_usize();
                proof {
                    v.lemma_position();
                }
                i
            },
            Err(e) => T::inhabitants() + e.to_usize(),
        }
    }

    fn from_usize(i: usize) -> (r: Option<Self>) {
        let first: usize = T::inhabitants();
        if i < first {
            match T::from_usize(i) {
                Some(v) => Some(Ok(v)),
                None => None,
            }
        } else {
            match E::from_usize(i - first) {
                Some(e) => Some(Err(e)),
                None => None,
            }
        }
    }
}

/// `ControlFlow<B, C>`: the values of `Continue` first, then those of `Break`.
impl<B: Finite, C: Finite> Finite for ControlFlow<B, C> {
    open spec fn cardinality() -> nat {
        C::cardinality() + B::cardinality()
    }

    open spec fn fits_in_usize() -> bool {
        &&& C::fits_in_usize()
        &&& B::fits_in_usize()
        &&& Self::cardinality() <= usize::MAX
    }

    open spec fn inhabitant(&self) -> bool {
        match self {
            ControlFlow::Continue(c) => c.inhabitant(),
            ControlFlow::Break(b) => b.inhabitant(),
        }
    }

    open spec fn position(&self) -> nat {
        match self {
            ControlFlow::Continue(c) => c.position(),
            ControlFlow::Break(b) => C::cardinality() + b.position(),
        }
    }

    open spec fn at(i: nat) -> Option<Self> {
        if i < C::cardinality() {
            Some(ControlFlow::Continue(C::at(i).unwrap()))
        } else if i < Self::cardinality() {
            Some(ControlFlow::Break(B::at((i - C::cardinality()) as nat).unwrap()))
        } else {
            None
        }
    }

    proof fn lemma_fits() {
    }

    proof fn lemma_position(&self) {
        match self {
            ControlFlow::Continue(c) => {
                c.lemma_position();
            },
            ControlFlow::Break(b) => {
                b.lemma_position();
            },
        }
    }

    proof fn lemma_at(i: nat) {
        if i < C::cardinality() {
            C::lemma_at(i);
        } else if i < Self::cardinality() {
            B::lemma_at((i - C::cardinality()) as nat);
        }
    }

    fn checked_inhabitants() -> (n: Option<usize>) {
        match C::checked_inhabitants() {
            Some(a) => match B::checked_inhabitants() {
                Some(b) => a.checked_add(b),
                None => None,
            },
            None => None,
        }
    }

    fn to_usize(&self) -> (i: usize) {
        match self {
            ControlFlow::Continue(c) => {
                let i: usize = c.to_usize();
                proof {
                    c.lemma_position();
                }
                i
            },
            ControlFlow::Break(b) => C::inhabitants() + b.to_usize(),
        }
    }

    fn from_usize(i: usize) -> (r: Option<Self>) {
        let first: usize = C::inhabitants();
        if i < first {
            match C::from_usize(i) {
                Some(c) => Some(ControlFlow::Continue(c)),
                None => None,
            }
        } else {
            match B::from_usize(i - first) {
                Some(b) => Some(ControlFlow::Break(b)),
                None => None,
            }
        }
    }
}

/// `Range<Idx>`: the product of its fields `start` and `end`.
impl<Idx: Finite> Finite for Range<Idx> {
    open spec fn cardinality() -> nat {
        Idx::cardinality() * Idx::cardinality()
    }

    open spec fn fits_in_usize() -> bool {
        &&& Idx::fits_in_usize()
        &&& Self::cardinality() <= usize::MAX
    }

    open spec fn inhabitant(&self) -> bool {
        &&& self.start.inhabitant()
        &&& self.end.inhabitant()
    }

    open spec fn position(&self) -> nat {
        self.start.position() * Idx::cardinality() + self.end.position()
    }

    open spec fn at(i: nat) -> Option<Self> {
        if i < Self::cardinality() {
            Some(
                Range {
                    start: Idx::at(i / Idx::cardinality()).unwrap(),
                    end: Idx::at(i % Idx::cardinality()).unwrap(),
                },
            )
        } else {
            None
        }
    }

    proof fn lemma_fits() {
    }

    proof fn lemma_position(&self) {
        self.start.lemma_position();
        self.end.lemma_position();
        lemma_digit_step(
            self.start.position(),
            Idx::cardinality(),
            self.end.position(),
            Idx::cardinality(),
        );
    }

    proof fn lemma_at(i: nat) {
        if i < Self::cardinality() {
            lemma_digit_split(i, Idx::cardinality(), Idx::cardinality());
            Idx::lemma_at(i / Idx::cardinality());
            Idx::lemma_at(i % Idx::cardinality());
        }
    }

    fn checked_inhabitants() -> (n: Option<usize>) {
        match Idx::checked_inhabitants() {
            Some(n) => n.checked_mul(n),
            None => None,
        }
    }

    fn to_usize(&self) -> (i: usize) {
        let start: usize = self.start.to_usize();
        let end: usize = self.end.to_usize();
        proof {
            lemma_digit_step(
                self.start.position(),
                Idx::cardinality(),
                self.end.position(),
                Idx::cardinality(),
            );
        }
        start * Idx::inhabitants() + end
    }

    fn from_usize(i: usize) -> (r: Option<Self>) {
        if i >= Self::inhabitants() {
            return None;
        }
        proof {
            lemma_digit_split(i as nat, Idx::cardinality(), Idx::cardinality());
        }
        let n: usize = Idx::inhabitants();
        let end = Idx::from_usize(i % n).unwrap();
        let start = Idx::from_usize(i / n).unwrap();
        Some(Range { start, end })
    }
}

/// `Option<T>` is the sum of a variant of one value and a variant of the
/// values of `T`.
pub proof fn lemma_option_as_sum<T: Finite>(value: Option<T>)
    ensures
        <Option<T>>::cardinality() == sum(seq![1, T::cardinality()]),
        value.position() == match value {
            None => sum_position(seq![1, T::cardinality()], 0, 0),
            Some(v) => sum_position(seq![1, T::cardinality()], 1, v.position()),
        },
{
    let cards = seq![1, T::cardinality()];
    lemma_sum_offset_step(cards, 0);
    lemma_sum_offset_step(cards, 1);
}

/// `Result<T, E>` is the sum of a variant of the values of `T` and a variant
/// of the values of `E`.
pub proof fn lemma_result_as_sum<T: Finite, E: Finite>(value: Result<T, E>)
    ensures
        <Result<T, E>>::cardinality() == sum(seq![T::cardinality(), E::cardinality()]),
        value.position() == match value {
            Ok(v) => sum_position(seq![T::cardinality(), E::cardinality()], 0, v.position()),
            Err(e) => sum_position(seq![T::cardinality(), E::cardinality()], 1, e.position()),
        },
{
    let cards = seq![T::cardinality(), E::cardinality()];
    lemma_sum_offset_step(cards, 0);
    lemma_sum_offset_step(cards, 1);
}

/// `ControlFlow<B, C>` is the sum of a variant of the values of `C` and a
/// variant of the values of `B`.
pub proof fn lemma_control_flow_as_sum<B: Finite, C: Finite>(value: ControlFlow<B, C>)
    ensures
        <ControlFlow<B, C>>::cardinality() == sum(seq![C::cardinality(), B::cardinality()]),
        value.position() == match value {
            ControlFlow::Continue(c) => sum_position(
                seq![C::cardinality(), B::cardinality()],
                0,
                c.position(),
            ),
            ControlFlow::Break(b) => sum_position(
                seq![C::cardinality(), B::cardinality()],
                1,
                b.position(),
            ),
        },
{
    let cards = seq![C::cardinality(), B::cardinality()];
    lemma_sum_offset_step(cards, 0);
    lemma_sum_offset_step(cards, 1);
}

/// `Range<Idx>` is the product of its two fields.
pub proof fn lemma_range_as_product<Idx: Finite>(value: Range<Idx>)
    ensures
        <Range<Idx>>::cardinality() == product(seq![Idx::cardinality(), Idx::cardinality()]),
        value.position() == product_position(
            seq![value.start.position(), value.end.position()],
            seq![Idx::cardinality(), Idx::cardinality()],
        ),
{
    let digits = seq![value.start.position(), value.end.position()];
    let radices = seq![Idx::cardinality(), Idx::cardinality()];
    lemma_product_step(digits, radices, 1);
    lemma_product_step(digits, radices, 2);
}

impl FitsInUsize for Infallible {
    proof fn lemma_fits_in_usize() {
    }
}

} // verus!
