//! The positions of tuples.
//!
//! A tuple is a product of its fields: its position is the mixed-radix number
//! whose digits are the positions of the fields, the first field being the
//! most significant. An array and the tuple of the same elements therefore
//! have the same position.

use vstd::prelude::*;
use crate::arrays::{lemma_array_position_step, lemma_uniform_product};
use crate::composite::{
    lemma_digit_split, lemma_digit_step, lemma_factor, lemma_product_step, product,
    product_position,
};
use crate::finite::Finite;

verus! {

/// A tuple of one field.
impl<T0: Finite> Finite for (T0,) {
    open spec fn cardinality() -> nat {
        T0::cardinality()
    }

    open spec fn fits_in_usize() -> bool {
        &&& T0::fits_in_usize()
        &&& Self::cardinality() <= usize::MAX
    }

    open spec fn inhabitant(&self) -> bool {
        &&& self.0.inhabitant()
    }

    open spec fn position(&self) -> nat {
        let h0 = self.0.position();
        h0
    }

    open spec fn at(i: nat) -> Option<Self> {
        if i < Self::cardinality() {
            let d0 = i % T0::cardinality();
            Some((T0::at(d0).unwrap(),))
        } else {
            None
        }
    }

    proof fn lemma_fits() {
    }

    proof fn lemma_position(&self) {
        self.0.lemma_position();
        let h0 = self.0.position();
        let b0 = T0::cardinality();
        lemma_digit_step(0, 1, h0, b0);
    }

    proof fn lemma_at(i: nat) {
        if i < Self::cardinality() {
            let b0 = T0::cardinality();
            lemma_digit_step(0, 1, i, b0);
            let d0 = i % T0::cardinality();
            T0::lemma_at(d0);
        }
    }

    fn checked_inhabitants() -> (n: Option<usize>) {
        let n0: usize = match T0::checked_inhabitants() {
            Some(n) => n,
            None => {
                return None;
            },
        };
        Some(n0)
    }

    fn to_usize(&self) -> (i: usize) {
        let i0: usize = self.0.to_usize();
        i0
    }

    fn from_usize(i: usize) -> (r: Option<Self>) {
        if i >= Self::inhabitants() {
            return None;
        }
        proof {
            let b0 = T0::cardinality();
            lemma_digit_step(0, 1, i as nat, b0);
        }
        let n0: usize = T0::inhabitants();
        let d0: usize = i % n0;
        let v0 = T0::from_usize(d0).unwrap();
        Some((v0,))
    }
}

/// A tuple of 2 fields.
impl<T0: Finite, T1: Finite> Finite for (T0, T1) {
    open spec fn cardinality() -> nat {
        T0::cardinality() * T1::cardinality()
    }

    open spec fn fits_in_usize() -> bool {
        &&& T0::fits_in_usize()
        &&& T1::fits_in_usize()
        &&& Self::cardinality() <= usize::MAX
    }

    open spec fn inhabitant(&self) -> bool {
        &&& self.0.inhabitant()
        &&& self.1.inhabitant()
    }

    open spec fn position(&self) -> nat {
        let h0 = self.0.position();
        let h1 = h0 * T1::cardinality() + self.1.position();
        h1
    }

    open spec fn at(i: nat) -> Option<Self> {
        if i < Self::cardinality() {
            let d1 = i % T1::cardinality();
            let q1 = i / T1::cardinality();
            let d0 = q1 % T0::cardinality();
            Some((T0::at(d0).unwrap(), T1::at(d1).unwrap()))
        } else {
            None
        }
    }

    proof fn lemma_fits() {
    }

    proof fn lemma_position(&self) {
        self.0.lemma_position();
        self.1.lemma_position();
        let h0 = self.0.position();
        let b0 = T0::cardinality();
        lemma_digit_step(0, 1, h0, b0);
        lemma_digit_step(h0, b0, self.1.position(), T1::cardinality());
        let h1 = h0 * T1::cardinality() + self.1.position();
        let b1 = b0 * T1::cardinality();
    }

    proof fn lemma_at(i: nat) {
        if i < Self::cardinality() {
            let b0 = T0::cardinality();
            let b1 = b0 * T1::cardinality();
            lemma_digit_split(i, b0, T1::cardinality());
            let d1 = i % T1::cardinality();
            let q1 = i / T1::cardinality();
            lemma_digit_step(0, 1, q1, b0);
            let d0 = q1 % T0::cardinality();
            T0::lemma_at(d0);
            T1::lemma_at(d1);
        }
    }

    fn checked_inhabitants() -> (n: Option<usize>) {
        let n0: usize = match T0::checked_inhabitants() {
            Some(n) => n,
            None => {
                return None;
            },
        };
        let n1: usize = match T1::checked_inhabitants() {
            Some(n) => n,
            None => {
                return None;
            },
        };
        proof {
            let b0 = T0::cardinality();
            lemma_factor(b0, T1::cardinality());
            let b1 = b0 * T1::cardinality();
        }
        if n0 == 0 || n1 == 0 {
            return Some(0);
        }
        let p1: usize = match n0.checked_mul(n1) {
            Some(p) => p,
            None => {
                return None;
            },
        };
        Some(p1)
    }

    fn to_usize(&self) -> (i: usize) {
        let i0: usize = self.0.to_usize();
        let i1: usize = self.1.to_usize();
        proof {
            let h0 = self.0.position();
            let b0 = T0::cardinality();
            lemma_digit_step(h0, b0, self.1.position(), T1::cardinality());
            let h1 = h0 * T1::cardinality() + self.1.position();
            let b1 = b0 * T1::cardinality();
            lemma_factor(b0, T1::cardinality());
        }
        let h1: usize = i0 * T1::inhabitants() + i1;
        h1
    }

    fn from_usize(i: usize) -> (r: Option<Self>) {
        if i >= Self::inhabitants() {
            return None;
        }
        proof {
            let b0 = T0::cardinality();
            let b1 = b0 * T1::cardinality();
            lemma_digit_split(i as nat, b0, T1::cardinality());
            let q1 = (i as nat) / T1::cardinality();
            lemma_digit_step(0, 1, q1, b0);
        }
        let n1: usize = T1::inhabitants();
        let d1: usize = i % n1;
        let q1: usize = i / n1;
        let n0: usize = T0::inhabitants();
        let d0: usize = q1 % n0;
        let v0 = T0::from_usize(d0).unwrap();
        let v1 = T1::from_usize(d1).unwrap();
        Some((v0, v1))
    }
}

/// A tuple of 3 fields.
impl<T0: Finite, T1: Finite, T2: Finite> Finite for (T0, T1, T2) {
    open spec fn cardinality() -> nat {
        T0::cardinality() * T1::cardinality() * T2::cardinality()
    }

    open spec fn fits_in_usize() -> bool {
        &&& T0::fits_in_usize()
        &&& T1::fits_in_usize()
        &&& T2::fits_in_usize()
        &&& Self::cardinality() <= usize::MAX
    }

    open spec fn inhabitant(&self) -> bool {
        &&& self.0.inhabitant()
        &&& self.1.inhabitant()
        &&& self.2.inhabitant()
    }

    open spec fn position(&self) -> nat {
        let h0 = self.0.position();
        let h1 = h0 * T1::cardinality() + self.1.position();
        let h2 = h1 * T2::cardinality() + self.2.position();
        h2
    }

    open spec fn at(i: nat) -> Option<Self> {
        if i < Self::cardinality() {
            let d2 = i % T2::cardinality();
            let q2 = i / T2::cardinality();
            let d1 = q2 % T1::cardinality();
            let q1 = q2 / T1::cardinality();
            let d0 = q1 % T0::cardinality();
            Some((T0::at(d0).unwrap(), T1::at(d1).unwrap(), T2::at(d2).unwrap()))
        } else {
            None
        }
    }

    proof fn lemma_fits() {
    }

    proof fn lemma_position(&self) {
        self.0.lemma_position();
        self.1.lemma_position();
        self.2.lemma_position();
        let h0 = self.0.position();
        let b0 = T0::cardinality();
        lemma_digit_step(0, 1, h0, b0);
        lemma_digit_step(h0, b0, self.1.position(), T1::cardinality());
        let h1 = h0 * T1::cardinality() + self.1.position();
        let b1 = b0 * T1::cardinality();
        lemma_digit_step(h1, b1, self.2.position(), T2::cardinality());
        let h2 = h1 * T2::cardinality() + self.2.position();
        let b2 = b1 * T2::cardinality();
    }

    proof fn lemma_at(i: nat) {
        if i < Self::cardinality() {
            let b0 = T0::cardinality();
            let b1 = b0 * T1::cardinality();
            let b2 = b1 * T2::cardinality();
            lemma_digit_split(i, b1, T2::cardinality());
            let d2 = i % T2::cardinality();
            let q2 = i / T2::cardinality();
            lemma_digit_split(q2, b0, T1::cardinality());
            let d1 = q2 % T1::cardinality();
            let q1 = q2 / T1::cardinality();
            lemma_digit_step(0, 1, q1, b0);
            let d0 = q1 % T0::cardinality();
            T0::lemma_at(d0);
            T1::lemma_at(d1);
            T2::lemma_at(d2);
        }
    }

    fn checked_inhabitants() -> (n: Option<usize>) {
        let n0: usize = match T0::checked_inhabitants() {
            Some(n) => n,
            None => {
                return None;
            },
        };
        let n1: usize = match T1::checked_inhabitants() {
            Some(n) => n,
            None => {
                return None;
            },
        };
        let n2: usize = match T2::checked_inhabitants() {
            Some(n) => n,
            None => {
                return None;
            },
        };
        proof {
            let b0 = T0::cardinality();
            lemma_factor(b0, T1::cardinality());
            let b1 = b0 * T1::cardinality();
            lemma_factor(b1, T2::cardinality());
            let b2 = b1 * T2::cardinality();
        }
        if n0 == 0 || n1 == 0 || n2 == 0 {
            return Some(0);
        }
        let p1: usize = match n0.checked_mul(n1) {
            Some(p) => p,
            None => {
                return None;
            },
        };
        let p2: usize = match p1.checked_mul(n2) {
            Some(p) => p,
            None => {
                return None;
            },
        };
        Some(p2)
    }

    fn to_usize(&self) -> (i: usize) {
        let i0: usize = self.0.to_usize();
        let i1: usize = self.1.to_usize();
        let i2: usize = self.2.to_usize();
        proof {
            let h0 = self.0.position();
            let b0 = T0::cardinality();
            lemma_digit_step(h0, b0, self.1.position(), T1::cardinality());
            let h1 = h0 * T1::cardinality() + self.1.position();
            let b1 = b0 * T1::cardinality();
            lemma_digit_step(h1, b1, self.2.position(), T2::cardinality());
            let h2 = h1 * T2::cardinality() + self.2.position();
            let b2 = b1 * T2::cardinality();
            lemma_factor(b1, T2::cardinality());
            lemma_factor(b0, T1::cardinality());
        }
        let h1: usize = i0 * T1::inhabitants() + i1;
        let h2: usize = h1 * T2::inhabitants() + i2;
        h2
    }

    fn from_usize(i: usize) -> (r: Option<Self>) {
        if i >= Self::inhabitants() {
            return None;
        }
        proof {
            let b0 = T0::cardinality();
            let b1 = b0 * T1::cardinality();
            let b2 = b1 * T2::cardinality();
            lemma_digit_split(i as nat, b1, T2::cardinality());
            let q2 = (i as nat) / T2::cardinality();
            lemma_digit_split(q2, b0, T1::cardinality());
            let q1 = q2 / T1::cardinality();
            lemma_digit_step(0, 1, q1, b0);
        }
        let n2: usize = T2::inhabitants();
        let d2: usize = i % n2;
        let q2: usize = i / n2;
        let n1: usize = T1::inhabitants();
        let d1: usize = q2 % n1;
        let q1: usize = q2 / n1;
        let n0: usize = T0::inhabitants();
        let d0: usize = q1 % n0;
        let v0 = T0::from_usize(d0).unwrap();
        let v1 = T1::from_usize(d1).unwrap();
        let v2 = T2::from_usize(d2).unwrap();
        Some((v0, v1, v2))
    }
}

/// A tuple of 4 fields.
impl<T0: Finite, T1: Finite, T2: Finite, T3: Finite> Finite for (T0, T1, T2, T3) {
    open spec fn cardinality() -> nat {
        T0::cardinality() * T1::cardinality() * T2::cardinality() * T3::cardinality()
    }

    open spec fn fits_in_usize() -> bool {
        &&& T0::fits_in_usize()
        &&& T1::fits_in_usize()
        &&& T2::fits_in_usize()
        &&& T3::fits_in_usize()
        &&& Self::cardinality() <= usize::MAX
    }

    open spec fn inhabitant(&self) -> bool {
        &&& self.0.inhabitant()
        &&& self.1.inhabitant()
        &&& self.2.inhabitant()
        &&& self.3.inhabitant()
    }

    open spec fn position(&self) -> nat {
        let h0 = self.0.position();
        let h1 = h0 * T1::cardinality() + self.1.position();
        let h2 = h1 * T2::cardinality() + self.2.position();
        let h3 = h2 * T3::cardinality() + self.3.position();
        h3
    }

    open spec fn at(i: nat) -> Option<Self> {
        if i < Self::cardinality() {
            let d3 = i % T3::cardinality();
            let q3 = i / T3::cardinality();
            let d2 = q3 % T2::cardinality();
            let q2 = q3 / T2::cardinality();
            let d1 = q2 % T1::cardinality();
            let q1 = q2 / T1::cardinality();
            let d0 = q1 % T0::cardinality();
            Some(
                (
                    T0::at(d0).unwrap(),
                    T1::at(d1).unwrap(),
                    T2::at(d2).unwrap(),
                    T3::at(d3).unwrap(),
                ),
            )
        } else {
            None
        }
    }

    proof fn lemma_fits() {
    }

    proof fn lemma_position(&self) {
        self.0.lemma_position();
        self.1.lemma_position();
        self.2.lemma_position();
        self.3.lemma_position();
        let h0 = self.0.position();
        let b0 = T0::cardinality();
        lemma_digit_step(0, 1, h0, b0);
        lemma_digit_step(h0, b0, self.1.position(), T1::cardinality());
        let h1 = h0 * T1::cardinality() + self.1.position();
        let b1 = b0 * T1::cardinality();
        lemma_digit_step(h1, b1, self.2.position(), T2::cardinality());
        let h2 = h1 * T2::cardinality() + self.2.position();
        let b2 = b1 * T2::cardinality();
        lemma_digit_step(h2, b2, self.3.position(), T3::cardinality());
        let h3 = h2 * T3::cardinality() + self.3.position();
        let b3 = b2 * T3::cardinality();
    }

    proof fn lemma_at(i: nat) {
        if i < Self::cardinality() {
            let b0 = T0::cardinality();
            let b1 = b0 * T1::cardinality();
            let b2 = b1 * T2::cardinality();
            let b3 = b2 * T3::cardinality();
            lemma_digit_split(i, b2, T3::cardinality());
            let d3 = i % T3::cardinality();
            let q3 = i / T3::cardinality();
            lemma_digit_split(q3, b1, T2::cardinality());
            let d2 = q3 % T2::cardinality();
            let q2 = q3 / T2::cardinality();
            lemma_digit_split(q2, b0, T1::cardinality());
            let d1 = q2 % T1::cardinality();
            let q1 = q2 / T1::cardinality();
            lemma_digit_step(0, 1, q1, b0);
            let d0 = q1 % T0::cardinality();
            T0::lemma_at(d0);
            T1::lemma_at(d1);
            T2::lemma_at(d2);
            T3::lemma_at(d3);
        }
    }

    fn checked_inhabitants() -> (n: Option<usize>) {
        let n0: usize = match T0::checked_inhabitants() {
            Some(n) => n,
            None => {
                return None;
            },
        };
        let n1: usize = match T1::checked_inhabitants() {
            Some(n) => n,
            None => {
                return None;
            },
        };
        let n2: usize = match T2::checked_inhabitants() {
            Some(n) => n,
            None => {
                return None;
            },
        };
        let n3: usize = match T3::checked_inhabitants() {
            Some(n) => n,
            None => {
                return None;
            },
        };
        proof {
            let b0 = T0::cardinality();
            lemma_factor(b0, T1::cardinality());
            let b1 = b0 * T1::cardinality();
            lemma_factor(b1, T2::cardinality());
            let b2 = b1 * T2::cardinality();
            lemma_factor(b2, T3::cardinality());
            let b3 = b2 * T3::cardinality();
        }
        if n0 == 0 || n1 == 0 || n2 == 0 || n3 == 0 {
            return Some(0);
        }
        let p1: usize = match n0.checked_mul(n1) {
            Some(p) => p,
            None => {
                return None;
            },
        };
        let p2: usize = match p1.checked_mul(n2) {
            Some(p) => p,
            None => {
                return None;
            },
        };
        let p3: usize = match p2.checked_mul(n3) {
            Some(p) => p,
            None => {
                return None;
            },
        };
        Some(p3)
    }

    fn to_usize(&self) -> (i: usize) {
        let i0: usize = self.0.to_usize();
        let i1: usize = self.1.to_usize();
        let i2: usize = self.2.to_usize();
        let i3: usize = self.3.to_usize();
        proof {
            let h0 = self.0.position();
            let b0 = T0::cardinality();
            lemma_digit_step(h0, b0, self.1.position(), T1::cardinality());
            let h1 = h0 * T1::cardinality() + self.1.position();
            let b1 = b0 * T1::cardinality();
            lemma_digit_step(h1, b1, self.2.position(), T2::cardinality());
            let h2 = h1 * T2::cardinality() + self.2.position();
            let b2 = b1 * T2::cardinality();
            lemma_digit_step(h2, b2, self.3.position(), T3::cardinality());
            let h3 = h2 * T3::cardinality() + self.3.position();
            let b3 = b2 * T3::cardinality();
            lemma_factor(b2, T3::cardinality());
            lemma_factor(b1, T2::cardinality());
            lemma_factor(b0, T1::cardinality());
        }
        let h1: usize = i0 * T1::inhabitants() + i1;
        let h2: usize = h1 * T2::inhabitants() + i2;
        let h3: usize = h2 * T3::inhabitants() + i3;
        h3
    }

    fn from_usize(i: usize) -> (r: Option<Self>) {
        if i >= Self::inhabitants() {
            return None;
        }
        proof {
            let b0 = T0::cardinality();
            let b1 = b0 * T1::cardinality();
            let b2 = b1 * T2::cardinality();
            let b3 = b2 * T3::cardinality();
            lemma_digit_split(i as nat, b2, T3::cardinality());
            let q3 = (i as nat) / T3::cardinality();
            lemma_digit_split(q3, b1, T2::cardinality());
            let q2 = q3 / T2::cardinality();
            lemma_digit_split(q2, b0, T1::cardinality());
            let q1 = q2 / T1::cardinality();
            lemma_digit_step(0, 1, q1, b0);
        }
        let n3: usize = T3::inhabitants();
        let d3: usize = i % n3;
        let q3: usize = i / n3;
        let n2: usize = T2::inhabitants();
        let d2: usize = q3 % n2;
        let q2: usize = q3 / n2;
        let n1: usize = T1::inhabitants();
        let d1: usize = q2 % n1;
        let q1: usize = q2 / n1;
        let n0: usize = T0::inhabitants();
        let d0: usize = q1 % n0;
        let v0 = T0::from_usize(d0).unwrap();
        let v1 = T1::from_usize(d1).unwrap();
        let v2 = T2::from_usize(d2).unwrap();
        let v3 = T3::from_usize(d3).unwrap();
        Some((v0, v1, v2, v3))
    }
}

/// A tuple of 5 fields.
impl<T0: Finite, T1: Finite, T2: Finite, T3: Finite, T4: Finite> Finite for (T0, T1, T2, T3, T4) {
    open spec fn cardinality() -> nat {
        T0::cardinality() * T1::cardinality() * T2::cardinality() * T3::cardinality()
            * T4::cardinality()
    }

    open spec fn fits_in_usize() -> bool {
        &&& T0::fits_in_usize()
        &&& T1::fits_in_usize()
        &&& T2::fits_in_usize()
        &&& T3::fits_in_usize()
        &&& T4::fits_in_usize()
        &&& Self::cardinality() <= usize::MAX
    }

    open spec fn inhabitant(&self) -> bool {
        &&& self.0.inhabitant()
        &&& self.1.inhabitant()
        &&& self.2.inhabitant()
        &&& self.3.inhabitant()
        &&& self.4.inhabitant()
    }

    open spec fn position(&self) -> nat {
        let h0 = self.0.position();
        let h1 = h0 * T1::cardinality() + self.1.position();
        let h2 = h1 * T2::cardinality() + self.2.position();
        let h3 = h2 * T3::cardinality() + self.3.position();
        let h4 = h3 * T4::cardinality() + self.4.position();
        h4
    }

    open spec fn at(i: nat) -> Option<Self> {
        if i < Self::cardinality() {
            let d4 = i % T4::cardinality();
            let q4 = i / T4::cardinality();
            let d3 = q4 % T3::cardinality();
            let q3 = q4 / T3::cardinality();
            let d2 = q3 % T2::cardinality();
            let q2 = q3 / T2::cardinality();
            let d1 = q2 % T1::cardinality();
            let q1 = q2 / T1::cardinality();
            let d0 = q1 % T0::cardinality();
            Some(
                (
                    T0::at(d0).unwrap(),
                    T1::at(d1).unwrap(),
                    T2::at(d2).unwrap(),
                    T3::at(d3).unwrap(),
                    T4::at(d4).unwrap(),
                ),
            )
        } else {
            None
        }
    }

    proof fn lemma_fits() {
    }

    proof fn lemma_position(&self) {
        self.0.lemma_position();
        self.1.lemma_position();
        self.2.lemma_position();
        self.3.lemma_position();
        self.4.lemma_position();
        let h0 = self.0.position();
        let b0 = T0::cardinality();
        lemma_digit_step(0, 1, h0, b0);
        lemma_digit_step(h0, b0, self.1.position(), T1::cardinality());
        let h1 = h0 * T1::cardinality() + self.1.position();
        let b1 = b0 * T1::cardinality();
        lemma_digit_step(h1, b1, self.2.position(), T2::cardinality());
        let h2 = h1 * T2::cardinality() + self.2.position();
        let b2 = b1 * T2::cardinality();
        lemma_digit_step(h2, b2, self.3.position(), T3::cardinality());
        let h3 = h2 * T3::cardinality() + self.3.position();
        let b3 = b2 * T3::cardinality();
        lemma_digit_step(h3, b3, self.4.position(), T4::cardinality());
        let h4 = h3 * T4::cardinality() + self.4.position();
        let b4 = b3 * T4::cardinality();
    }

    proof fn lemma_at(i: nat) {
        if i < Self::cardinality() {
            let b0 = T0::cardinality();
            let b1 = b0 * T1::cardinality();
            let b2 = b1 * T2::cardinality();
            let b3 = b2 * T3::cardinality();
            let b4 = b3 * T4::cardinality();
            lemma_digit_split(i, b3, T4::cardinality());
            let d4 = i % T4::cardinality();
            let q4 = i / T4::cardinality();
            lemma_digit_split(q4, b2, T3::cardinality());
            let d3 = q4 % T3::cardinality();
            let q3 = q4 / T3::cardinality();
            lemma_digit_split(q3, b1, T2::cardinality());
            let d2 = q3 % T2::cardinality();
            let q2 = q3 / T2::cardinality();
            lemma_digit_split(q2, b0, T1::cardinality());
            let d1 = q2 % T1::cardinality();
            let q1 = q2 / T1::cardinality();
            lemma_digit_step(0, 1, q1, b0);
            let d0 = q1 % T0::cardinality();
            T0::lemma_at(d0);
            T1::lemma_at(d1);
            T2::lemma_at(d2);
            T3::lemma_at(d3);
            T4::lemma_at(d4);
        }
    }

    fn checked_inhabitants() -> (n: Option<usize>) {
        let n0: usize = match T0::checked_inhabitants() {
            Some(n) => n,
            None => {
                return None;
            },
        };
        let n1: usize = match T1::checked_inhabitants() {
            Some(n) => n,
            None => {
                return None;
            },
        };
        let n2: usize = match T2::checked_inhabitants() {
            Some(n) => n,
            None => {
                return None;
            },
        };
        let n3: usize = match T3::checked_inhabitants() {
            Some(n) => n,
            None => {
                return None;
            },
        };
        let n4: usize = match T4::checked_inhabitants() {
            Some(n) => n,
            None => {
                return None;
            },
        };
        proof {
            let b0 = T0::cardinality();
            lemma_factor(b0, T1::cardinality());
            let b1 = b0 * T1::cardinality();
            lemma_factor(b1, T2::cardinality());
            let b2 = b1 * T2::cardinality();
            lemma_factor(b2, T3::cardinality());
            let b3 = b2 * T3::cardinality();
            lemma_factor(b3, T4::cardinality());
            let b4 = b3 * T4::cardinality();
        }
        if n0 == 0 || n1 == 0 || n2 == 0 || n3 == 0 || n4 == 0 {
            return Some(0);
        }
        let p1: usize = match n0.checked_mul(n1) {
            Some(p) => p,
            None => {
                return None;
            },
        };
        let p2: usize = match p1.checked_mul(n2) {
            Some(p) => p,
            None => {
                return None;
            },
        };
        let p3: usize = match p2.checked_mul(n3) {
            Some(p) => p,
            None => {
                return None;
            },
        };
        let p4: usize = match p3.checked_mul(n4) {
            Some(p) => p,
            None => {
                return None;
            },
        };
        Some(p4)
    }

    fn to_usize(&self) -> (i: usize) {
        let i0: usize = self.0.to_usize();
        let i1: usize = self.1.to_usize();
        let i2: usize = self.2.to_usize();
        let i3: usize = self.3.to_usize();
        let i4: usize = self.4.to_usize();
        proof {
            let h0 = self.0.position();
            let b0 = T0::cardinality();
            lemma_digit_step(h0, b0, self.1.position(), T1::cardinality());
            let h1 = h0 * T1::cardinality() + self.1.position();
            let b1 = b0 * T1::cardinality();
            lemma_digit_step(h1, b1, self.2.position(), T2::cardinality());
            let h2 = h1 * T2::cardinality() + self.2.position();
            let b2 = b1 * T2::cardinality();
            lemma_digit_step(h2, b2, self.3.position(), T3::cardinality());
            let h3 = h2 * T3::cardinality() + self.3.position();
            let b3 = b2 * T3::cardinality();
            lemma_digit_step(h3, b3, self.4.position(), T4::cardinality());
            let h4 = h3 * T4::cardinality() + self.4.position();
            let b4 = b3 * T4::cardinality();
            lemma_factor(b3, T4::cardinality());
            lemma_factor(b2, T3::cardinality());
            lemma_factor(b1, T2::cardinality());
            lemma_factor(b0, T1::cardinality());
        }
        let h1: usize = i0 * T1::inhabitants() + i1;
        let h2: usize = h1 * T2::inhabitants() + i2;
        let h3: usize = h2 * T3::inhabitants() + i3;
        let h4: usize = h3 * T4::inhabitants() + i4;
        h4
    }

    fn from_usize(i: usize) -> (r: Option<Self>) {
        if i >= Self::inhabitants() {
            return None;
        }
        proof {
            let b0 = T0::cardinality();
            let b1 = b0 * T1::cardinality();
            let b2 = b1 * T2::cardinality();
            let b3 = b2 * T3::cardinality();
            let b4 = b3 * T4::cardinality();
            lemma_digit_split(i as nat, b3, T4::cardinality());
            let q4 = (i as nat) / T4::cardinality();
            lemma_digit_split(q4, b2, T3::cardinality());
            let q3 = q4 / T3::cardinality();
            lemma_digit_split(q3, b1, T2::cardinality());
            let q2 = q3 / T2::cardinality();
            lemma_digit_split(q2, b0, T1::cardinality());
            let q1 = q2 / T1::cardinality();
            lemma_digit_step(0, 1, q1, b0);
        }
        let n4: usize = T4::inhabitants();
        let d4: usize = i % n4;
        let q4: usize = i / n4;
        let n3: usize = T3::inhabitants();
        let d3: usize = q4 % n3;
        let q3: usize = q4 / n3;
        let n2: usize = T2::inhabitants();
        let d2: usize = q3 % n2;
        let q2: usize = q3 / n2;
        let n1: usize = T1::inhabitants();
        let d1: usize = q2 % n1;
        let q1: usize = q2 / n1;
        let n0: usize = T0::inhabitants();
        let d0: usize = q1 % n0;
        let v0 = T0::from_usize(d0).unwrap();
        let v1 = T1::from_usize(d1).unwrap();
        let v2 = T2::from_usize(d2).unwrap();
        let v3 = T3::from_usize(d3).unwrap();
        let v4 = T4::from_usize(d4).unwrap();
        Some((v0, v1, v2, v3, v4))
    }
}

/// A tuple of 6 fields.
impl<
    T0: Finite,
    T1: Finite,
    T2: Finite,
    T3: Finite,
    T4: Finite,
    T5: Finite,
> Finite for (T0, T1, T2, T3, T4, T5) {
    open spec fn cardinality() -> nat {
        T0::cardinality() * T1::cardinality() * T2::cardinality() * T3::cardinality()
            * T4::cardinality() * T5::cardinality()
    }

    open spec fn fits_in_usize() -> bool {
        &&& T0::fits_in_usize()
        &&& T1::fits_in_usize()
        &&& T2::fits_in_usize()
        &&& T3::fits_in_usize()
        &&& T4::fits_in_usize()
        &&& T5::fits_in_usize()
        &&& Self::cardinality() <= usize::MAX
    }

    open spec fn inhabitant(&self) -> bool {
        &&& self.0.inhabitant()
        &&& self.1.inhabitant()
        &&& self.2.inhabitant()
        &&& self.3.inhabitant()
        &&& self.4.inhabitant()
        &&& self.5.inhabitant()
    }

    open spec fn position(&self) -> nat {
        let h0 = self.0.position();
        let h1 = h0 * T1::cardinality() + self.1.position();
        let h2 = h1 * T2::cardinality() + self.2.position();
        let h3 = h2 * T3::cardinality() + self.3.position();
        let h4 = h3 * T4::cardinality() + self.4.position();
        let h5 = h4 * T5::cardinality() + self.5.position();
        h5
    }

    open spec fn at(i: nat) -> Option<Self> {
        if i < Self::cardinality() {
            let d5 = i % T5::cardinality();
            let q5 = i / T5::cardinality();
            let d4 = q5 % T4::cardinality();
            let q4 = q5 / T4::cardinality();
            let d3 = q4 % T3::cardinality();
            let q3 = q4 / T3::cardinality();
            let d2 = q3 % T2::cardinality();
            let q2 = q3 / T2::cardinality();
            let d1 = q2 % T1::cardinality();
            let q1 = q2 / T1::cardinality();
            let d0 = q1 % T0::cardinality();
            Some(
                (
                    T0::at(d0).unwrap(),
                    T1::at(d1).unwrap(),
                    T2::at(d2).unwrap(),
                    T3::at(d3).unwrap(),
                    T4::at(d4).unwrap(),
                    T5::at(d5).unwrap(),
                ),
            )
        } else {
            None
        }
    }

    proof fn lemma_fits() {
    }

    proof fn lemma_position(&self) {
        self.0.lemma_position();
        self.1.lemma_position();
        self.2.lemma_position();
        self.3.lemma_position();
        self.4.lemma_position();
        self.5.lemma_position();
        let h0 = self.0.position();
        let b0 = T0::cardinality();
        lemma_digit_step(0, 1, h0, b0);
        lemma_digit_step(h0, b0, self.1.position(), T1::cardinality());
        let h1 = h0 * T1::cardinality() + self.1.position();
        let b1 = b0 * T1::cardinality();
        lemma_digit_step(h1, b1, self.2.position(), T2::cardinality());
        let h2 = h1 * T2::cardinality() + self.2.position();
        let b2 = b1 * T2::cardinality();
        lemma_digit_step(h2, b2, self.3.position(), T3::cardinality());
        let h3 = h2 * T3::cardinality() + self.3.position();
        let b3 = b2 * T3::cardinality();
        lemma_digit_step(h3, b3, self.4.position(), T4::cardinality());
        let h4 = h3 * T4::cardinality() + self.4.position();
        let b4 = b3 * T4::cardinality();
        lemma_digit_step(h4, b4, self.5.position(), T5::cardinality());
        let h5 = h4 * T5::cardinality() + self.5.position();
        let b5 = b4 * T5::cardinality();
    }

    proof fn lemma_at(i: nat) {
        if i < Self::cardinality() {
            let b0 = T0::cardinality();
            let b1 = b0 * T1::cardinality();
            let b2 = b1 * T2::cardinality();
            let b3 = b2 * T3::cardinality();
            let b4 = b3 * T4::cardinality();
            let b5 = b4 * T5::cardinality();
            lemma_digit_split(i, b4, T5::cardinality());
            let d5 = i % T5::cardinality();
            let q5 = i / T5::cardinality();
            lemma_digit_split(q5, b3, T4::cardinality());
            let d4 = q5 % T4::cardinality();
            let q4 = q5 / T4::cardinality();
            lemma_digit_split(q4, b2, T3::cardinality());
            let d3 = q4 % T3::cardinality();
            let q3 = q4 / T3::cardinality();
            lemma_digit_split(q3, b1, T2::cardinality());
            let d2 = q3 % T2::cardinality();
            let q2 = q3 / T2::cardinality();
            lemma_digit_split(q2, b0, T1::cardinality());
            let d1 = q2 % T1::cardinality();
            let q1 = q2 / T1::cardinality();
            lemma_digit_step(0, 1, q1, b0);
            let d0 = q1 % T0::cardinality();
            T0::lemma_at(d0);
            T1::lemma_at(d1);
            T2::lemma_at(d2);
            T3::lemma_at(d3);
            T4::lemma_at(d4);
            T5::lemma_at(d5);
        }
    }

    fn checked_inhabitants() -> (n: Option<usize>) {
        let n0: usize = match T0::checked_inhabitants() {
            Some(n) => n,
            None => {
                return None;
            },
        };
        let n1: usize = match T1::checked_inhabitants() {
            Some(n) => n,
            None => {
                return None;
            },
        };
        let n2: usize = match T2::checked_inhabitants() {
            Some(n) => n,
            None => {
                return None;
            },
        };
        let n3: usize = match T3::checked_inhabitants() {
            Some(n) => n,
            None => {
                return None;
            },
        };
        let n4: usize = match T4::checked_inhabitants() {
            Some(n) => n,
            None => {
                return None;
            },
        };
        let n5: usize = match T5::checked_inhabitants() {
            Some(n) => n,
            None => {
                return None;
            },
        };
        proof {
            let b0 = T0::cardinality();
            lemma_factor(b0, T1::cardinality());
            let b1 = b0 * T1::cardinality();
            lemma_factor(b1, T2::cardinality());
            let b2 = b1 * T2::cardinality();
            lemma_factor(b2, T3::cardinality());
            let b3 = b2 * T3::cardinality();
            lemma_factor(b3, T4::cardinality());
            let b4 = b3 * T4::cardinality();
            lemma_factor(b4, T5::cardinality());
            let b5 = b4 * T5::cardinality();
        }
        if n0 == 0 || n1 == 0 || n2 == 0 || n3 == 0 || n4 == 0 || n5 == 0 {
            return Some(0);
        }
        let p1: usize = match n0.checked_mul(n1) {
            Some(p) => p,
            None => {
                return None;
            },
        };
        let p2: usize = match p1.checked_mul(n2) {
            Some(p) => p,
            None => {
                return None;
            },
        };
        let p3: usize = match p2.checked_mul(n3) {
            Some(p) => p,
            None => {
                return None;
            },
        };
        let p4: usize = match p3.checked_mul(n4) {
            Some(p) => p,
            None => {
                return None;
            },
        };
        let p5: usize = match p4.checked_mul(n5) {
            Some(p) => p,
            None => {
                return None;
            },
        };
        Some(p5)
    }

    fn to_usize(&self) -> (i: usize) {
        let i0: usize = self.0.to_usize();
        let i1: usize = self.1.to_usize();
        let i2: usize = self.2.to_usize();
        let i3: usize = self.3.to_usize();
        let i4: usize = self.4.to_usize();
        let i5: usize = self.5.to_usize();
        proof {
            let h0 = self.0.position();
            let b0 = T0::cardinality();
            lemma_digit_step(h0, b0, self.1.position(), T1::cardinality());
            let h1 = h0 * T1::cardinality() + self.1.position();
            let b1 = b0 * T1::cardinality();
            lemma_digit_step(h1, b1, self.2.position(), T2::cardinality());
            let h2 = h1 * T2::cardinality() + self.2.position();
            let b2 = b1 * T2::cardinality();
            lemma_digit_step(h2, b2, self.3.position(), T3::cardinality());
            let h3 = h2 * T3::cardinality() + self.3.position();
            let b3 = b2 * T3::cardinality();
            lemma_digit_step(h3, b3, self.4.position(), T4::cardinality());
            let h4 = h3 * T4::cardinality() + self.4.position();
            let b4 = b3 * T4::cardinality();
            lemma_digit_step(h4, b4, self.5.position(), T5::cardinality());
            let h5 = h4 * T5::cardinality() + self.5.position();
            let b5 = b4 * T5::cardinality();
            lemma_factor(b4, T5::cardinality());
            lemma_factor(b3, T4::cardinality());
            lemma_factor(b2, T3::cardinality());
            lemma_factor(b1, T2::cardinality());
            lemma_factor(b0, T1::cardinality());
        }
        let h1: usize = i0 * T1::inhabitants() + i1;
        let h2: usize = h1 * T2::inhabitants() + i2;
        let h3: usize = h2 * T3::inhabitants() + i3;
        let h4: usize = h3 * T4::inhabitants() + i4;
        let h5: usize = h4 * T5::inhabitants() + i5;
        h5
    }

    fn from_usize(i: usize) -> (r: Option<Self>) {
        if i >= Self::inhabitants() {
            return None;
        }
        proof {
            let b0 = T0::cardinality();
            let b1 = b0 * T1::cardinality();
            let b2 = b1 * T2::cardinality();
            let b3 = b2 * T3::cardinality();
            let b4 = b3 * T4::cardinality();
            let b5 = b4 * T5::cardinality();
            lemma_digit_split(i as nat, b4, T5::cardinality());
            let q5 = (i as nat) / T5::cardinality();
            lemma_digit_split(q5, b3, T4::cardinality());
            let q4 = q5 / T4::cardinality();
            lemma_digit_split(q4, b2, T3::cardinality());
            let q3 = q4 / T3::cardinality();
            lemma_digit_split(q3, b1, T2::cardinality());
            let q2 = q3 / T2::cardinality();
            lemma_digit_split(q2, b0, T1::cardinality());
            let q1 = q2 / T1::cardinality();
            lemma_digit_step(0, 1, q1, b0);
        }
        let n5: usize = T5::inhabitants();
        let d5: usize = i % n5;
        let q5: usize = i / n5;
        let n4: usize = T4::inhabitants();
        let d4: usize = q5 % n4;
        let q4: usize = q5 / n4;
        let n3: usize = T3::inhabitants();
        let d3: usize = q4 % n3;
        let q3: usize = q4 / n3;
        let n2: usize = T2::inhabitants();
        let d2: usize = q3 % n2;
        let q2: usize = q3 / n2;
        let n1: usize = T1::inhabitants();
        let d1: usize = q2 % n1;
        let q1: usize = q2 / n1;
        let n0: usize = T0::inhabitants();
        let d0: usize = q1 % n0;
        let v0 = T0::from_usize(d0).unwrap();
        let v1 = T1::from_usize(d1).unwrap();
        let v2 = T2::from_usize(d2).unwrap();
        let v3 = T3::from_usize(d3).unwrap();
        let v4 = T4::from_usize(d4).unwrap();
        let v5 = T5::from_usize(d5).unwrap();
        Some((v0, v1, v2, v3, v4, v5))
    }
}

/// A tuple of 7 fields.
impl<
    T0: Finite,
    T1: Finite,
    T2: Finite,
    T3: Finite,
    T4: Finite,
    T5: Finite,
    T6: Finite,
> Finite for (T0, T1, T2, T3, T4, T5, T6) {
    open spec fn cardinality() -> nat {
        T0::cardinality() * T1::cardinality() * T2::cardinality() * T3::cardinality()
            * T4::cardinality() * T5::cardinality() * T6::cardinality()
    }

    open spec fn fits_in_usize() -> bool {
        &&& T0::fits_in_usize()
        &&& T1::fits_in_usize()
        &&& T2::fits_in_usize()
        &&& T3::fits_in_usize()
        &&& T4::fits_in_usize()
        &&& T5::fits_in_usize()
        &&& T6::fits_in_usize()
        &&& Self::cardinality() <= usize::MAX
    }

    open spec fn inhabitant(&self) -> bool {
        &&& self.0.inhabitant()
        &&& self.1.inhabitant()
        &&& self.2.inhabitant()
        &&& self.3.inhabitant()
        &&& self.4.inhabitant()
        &&& self.5.inhabitant()
        &&& self.6.inhabitant()
    }

    open spec fn position(&self) -> nat {
        let h0 = self.0.position();
        let h1 = h0 * T1::cardinality() + self.1.position();
        let h2 = h1 * T2::cardinality() + self.2.position();
        let h3 = h2 * T3::cardinality() + self.3.position();
        let h4 = h3 * T4::cardinality() + self.4.position();
        let h5 = h4 * T5::cardinality() + self.5.position();
        let h6 = h5 * T6::cardinality() + self.6.position();
        h6
    }

    open spec fn at(i: nat) -> Option<Self> {
        if i < Self::cardinality() {
            let d6 = i % T6::cardinality();
            let q6 = i / T6::cardinality();
            let d5 = q6 % T5::cardinality();
            let q5 = q6 / T5::cardinality();
            let d4 = q5 % T4::cardinality();
            let q4 = q5 / T4::cardinality();
            let d3 = q4 % T3::cardinality();
            let q3 = q4 / T3::cardinality();
            let d2 = q3 % T2::cardinality();
            let q2 = q3 / T2::cardinality();
            let d1 = q2 % T1::cardinality();
            let q1 = q2 / T1::cardinality();
            let d0 = q1 % T0::cardinality();
            Some(
                (
                    T0::at(d0).unwrap(),
                    T1::at(d1).unwrap(),
                    T2::at(d2).unwrap(),
                    T3::at(d3).unwrap(),
                    T4::at(d4).unwrap(),
                    T5::at(d5).unwrap(),
                    T6::at(d6).unwrap(),
                ),
            )
        } else {
            None
        }
    }

    proof fn lemma_fits() {
    }

    proof fn lemma_position(&self) {
        self.0.lemma_position();
        self.1.lemma_position();
        self.2.lemma_position();
        self.3.lemma_position();
        self.4.lemma_position();
        self.5.lemma_position();
        self.6.lemma_position();
        let h0 = self.0.position();
        let b0 = T0::cardinality();
        lemma_digit_step(0, 1, h0, b0);
        lemma_digit_step(h0, b0, self.1.position(), T1::cardinality());
        let h1 = h0 * T1::cardinality() + self.1.position();
        let b1 = b0 * T1::cardinality();
        lemma_digit_step(h1, b1, self.2.position(), T2::cardinality());
        let h2 = h1 * T2::cardinality() + self.2.position();
        let b2 = b1 * T2::cardinality();
        lemma_digit_step(h2, b2, self.3.position(), T3::cardinality());
        let h3 = h2 * T3::cardinality() + self.3.position();
        let b3 = b2 * T3::cardinality();
        lemma_digit_step(h3, b3, self.4.position(), T4::cardinality());
        let h4 = h3 * T4::cardinality() + self.4.position();
        let b4 = b3 * T4::cardinality();
        lemma_digit_step(h4, b4, self.5.position(), T5::cardinality());
        let h5 = h4 * T5::cardinality() + self.5.position();
        let b5 = b4 * T5::cardinality();
        lemma_digit_step(h5, b5, self.6.position(), T6::cardinality());
        let h6 = h5 * T6::cardinality() + self.6.position();
        let b6 = b5 * T6::cardinality();
    }

    proof fn lemma_at(i: nat) {
        if i < Self::cardinality() {
            let b0 = T0::cardinality();
            let b1 = b0 * T1::cardinality();
            let b2 = b1 * T2::cardinality();
            let b3 = b2 * T3::cardinality();
            let b4 = b3 * T4::cardinality();
            let b5 = b4 * T5::cardinality();
            let b6 = b5 * T6::cardinality();
            lemma_digit_split(i, b5, T6::cardinality());
            let d6 = i % T6::cardinality();
            let q6 = i / T6::cardinality();
            lemma_digit_split(q6, b4, T5::cardinality());
            let d5 = q6 % T5::cardinality();
            let q5 = q6 / T5::cardinality();
            lemma_digit_split(q5, b3, T4::cardinality());
            let d4 = q5 % T4::cardinality();
            let q4 = q5 / T4::cardinality();
            lemma_digit_split(q4, b2, T3::cardinality());
            let d3 = q4 % T3::cardinality();
            let q3 = q4 / T3::cardinality();
            lemma_digit_split(q3, b1, T2::cardinality());
            let d2 = q3 % T2::cardinality();
            let q2 = q3 / T2::cardinality();
            lemma_digit_split(q2, b0, T1::cardinality());
            let d1 = q2 % T1::cardinality();
            let q1 = q2 / T1::cardinality();
            lemma_digit_step(0, 1, q1, b0);
            let d0 = q1 % T0::cardinality();
            T0::lemma_at(d0);
            T1::lemma_at(d1);
            T2::lemma_at(d2);
            T3::lemma_at(d3);
            T4::lemma_at(d4);
            T5::lemma_at(d5);
            T6::lemma_at(d6);
        }
    }

    fn checked_inhabitants() -> (n: Option<usize>) {
        let n0: usize = match T0::checked_inhabitants() {
            Some(n) => n,
            None => {
                return None;
            },
        };
        let n1: usize = match T1::checked_inhabitants() {
            Some(n) => n,
            None => {
                return None;
            },
        };
        let n2: usize = match T2::checked_inhabitants() {
            Some(n) => n,
            None => {
                return None;
            },
        };
        let n3: usize = match T3::checked_inhabitants() {
            Some(n) => n,
            None => {
                return None;
            },
        };
        let n4: usize = match T4::checked_inhabitants() {
            Some(n) => n,
            None => {
                return None;
            },
        };
        let n5: usize = match T5::checked_inhabitants() {
            Some(n) => n,
            None => {
                return None;
            },
        };
        let n6: usize = match T6::checked_inhabitants() {
            Some(n) => n,
            None => {
                return None;
            },
        };
        proof {
            let b0 = T0::cardinality();
            lemma_factor(b0, T1::cardinality());
            let b1 = b0 * T1::cardinality();
            lemma_factor(b1, T2::cardinality());
            let b2 = b1 * T2::cardinality();
            lemma_factor(b2, T3::cardinality());
            let b3 = b2 * T3::cardinality();
            lemma_factor(b3, T4::cardinality());
            let b4 = b3 * T4::cardinality();
            lemma_factor(b4, T5::cardinality());
            let b5 = b4 * T5::cardinality();
            lemma_factor(b5, T6::cardinality());
            let b6 = b5 * T6::cardinality();
        }
        if n0 == 0 || n1 == 0 || n2 == 0 || n3 == 0 || n4 == 0 || n5 == 0 || n6 == 0 {
            return Some(0);
        }
        let p1: usize = match n0.checked_mul(n1) {
            Some(p) => p,
            None => {
                return None;
            },
        };
        let p2: usize = match p1.checked_mul(n2) {
            Some(p) => p,
            None => {
                return None;
            },
        };
        let p3: usize = match p2.checked_mul(n3) {
            Some(p) => p,
            None => {
                return None;
            },
        };
        let p4: usize = match p3.checked_mul(n4) {
            Some(p) => p,
            None => {
                return None;
            },
        };
        let p5: usize = match p4.checked_mul(n5) {
            Some(p) => p,
            None => {
                return None;
            },
        };
        let p6: usize = match p5.checked_mul(n6) {
            Some(p) => p,
            None => {
                return None;
            },
        };
        Some(p6)
    }

    fn to_usize(&self) -> (i: usize) {
        let i0: usize = self.0.to_usize();
        let i1: usize = self.1.to_usize();
        let i2: usize = self.2.to_usize();
        let i3: usize = self.3.to_usize();
        let i4: usize = self.4.to_usize();
        let i5: usize = self.5.to_usize();
        let i6: usize = self.6.to_usize();
        proof {
            let h0 = self.0.position();
            let b0 = T0::cardinality();
            lemma_digit_step(h0, b0, self.1.position(), T1::cardinality());
            let h1 = h0 * T1::cardinality() + self.1.position();
            let b1 = b0 * T1::cardinality();
            lemma_digit_step(h1, b1, self.2.position(), T2::cardinality());
            let h2 = h1 * T2::cardinality() + self.2.position();
            let b2 = b1 * T2::cardinality();
            lemma_digit_step(h2, b2, self.3.position(), T3::cardinality());
            let h3 = h2 * T3::cardinality() + self.3.position();
            let b3 = b2 * T3::cardinality();
            lemma_digit_step(h3, b3, self.4.position(), T4::cardinality());
            let h4 = h3 * T4::cardinality() + self.4.position();
            let b4 = b3 * T4::cardinality();
            lemma_digit_step(h4, b4, self.5.position(), T5::cardinality());
            let h5 = h4 * T5::cardinality() + self.5.position();
            let b5 = b4 * T5::cardinality();
            lemma_digit_step(h5, b5, self.6.position(), T6::cardinality());
            let h6 = h5 * T6::cardinality() + self.6.position();
            let b6 = b5 * T6::cardinality();
            lemma_factor(b5, T6::cardinality());
            lemma_factor(b4, T5::cardinality());
            lemma_factor(b3, T4::cardinality());
            lemma_factor(b2, T3::cardinality());
            lemma_factor(b1, T2::cardinality());
            lemma_factor(b0, T1::cardinality());
        }
        let h1: usize = i0 * T1::inhabitants() + i1;
        let h2: usize = h1 * T2::inhabitants() + i2;
        let h3: usize = h2 * T3::inhabitants() + i3;
        let h4: usize = h3 * T4::inhabitants() + i4;
        let h5: usize = h4 * T5::inhabitants() + i5;
        let h6: usize = h5 * T6::inhabitants() + i6;
        h6
    }

    fn from_usize(i: usize) -> (r: Option<Self>) {
        if i >= Self::inhabitants() {
            return None;
        }
        proof {
            let b0 = T0::cardinality();
            let b1 = b0 * T1::cardinality();
            let b2 = b1 * T2::cardinality();
            let b3 = b2 * T3::cardinality();
            let b4 = b3 * T4::cardinality();
            let b5 = b4 * T5::cardinality();
            let b6 = b5 * T6::cardinality();
            lemma_digit_split(i as nat, b5, T6::cardinality());
            let q6 = (i as nat) / T6::cardinality();
            lemma_digit_split(q6, b4, T5::cardinality());
            let q5 = q6 / T5::cardinality();
            lemma_digit_split(q5, b3, T4::cardinality());
            let q4 = q5 / T4::cardinality();
            lemma_digit_split(q4, b2, T3::cardinality());
            let q3 = q4 / T3::cardinality();
            lemma_digit_split(q3, b1, T2::cardinality());
            let q2 = q3 / T2::cardinality();
            lemma_digit_split(q2, b0, T1::cardinality());
            let q1 = q2 / T1::cardinality();
            lemma_digit_step(0, 1, q1, b0);
        }
        let n6: usize = T6::inhabitants();
        let d6: usize = i % n6;
        let q6: usize = i / n6;
        let n5: usize = T5::inhabitants();
        let d5: usize = q6 % n5;
        let q5: usize = q6 / n5;
        let n4: usize = T4::inhabitants();
        let d4: usize = q5 % n4;
        let q4: usize = q5 / n4;
        let n3: usize = T3::inhabitants();
        let d3: usize = q4 % n3;
        let q3: usize = q4 / n3;
        let n2: usize = T2::inhabitants();
        let d2: usize = q3 % n2;
        let q2: usize = q3 / n2;
        let n1: usize = T1::inhabitants();
        let d1: usize = q2 % n1;
        let q1: usize = q2 / n1;
        let n0: usize = T0::inhabitants();
        let d0: usize = q1 % n0;
        let v0 = T0::from_usize(d0).unwrap();
        let v1 = T1::from_usize(d1).unwrap();
        let v2 = T2::from_usize(d2).unwrap();
        let v3 = T3::from_usize(d3).unwrap();
        let v4 = T4::from_usize(d4).unwrap();
        let v5 = T5::from_usize(d5).unwrap();
        let v6 = T6::from_usize(d6).unwrap();
        Some((v0, v1, v2, v3, v4, v5, v6))
    }
}

/// A tuple of 8 fields.
impl<
    T0: Finite,
    T1: Finite,
    T2: Finite,
    T3: Finite,
    T4: Finite,
    T5: Finite,
    T6: Finite,
    T7: Finite,
> Finite for (T0, T1, T2, T3, T4, T5, T6, T7) {
    open spec fn cardinality() -> nat {
        T0::cardinality() * T1::cardinality() * T2::cardinality() * T3::cardinality()
            * T4::cardinality() * T5::cardinality() * T6::cardinality() * T7::cardinality()
    }

    open spec fn fits_in_usize() -> bool {
        &&& T0::fits_in_usize()
        &&& T1::fits_in_usize()
        &&& T2::fits_in_usize()
        &&& T3::fits_in_usize()
        &&& T4::fits_in_usize()
        &&& T5::fits_in_usize()
        &&& T6::fits_in_usize()
        &&& T7::fits_in_usize()
        &&& Self::cardinality() <= usize::MAX
    }

    open spec fn inhabitant(&self) -> bool {
        &&& self.0.inhabitant()
        &&& self.1.inhabitant()
        &&& self.2.inhabitant()
        &&& self.3.inhabitant()
        &&& self.4.inhabitant()
        &&& self.5.inhabitant()
        &&& self.6.inhabitant()
        &&& self.7.inhabitant()
    }

    open spec fn position(&self) -> nat {
        let h0 = self.0.position();
        let h1 = h0 * T1::cardinality() + self.1.position();
        let h2 = h1 * T2::cardinality() + self.2.position();
        let h3 = h2 * T3::cardinality() + self.3.position();
        let h4 = h3 * T4::cardinality() + self.4.position();
        let h5 = h4 * T5::cardinality() + self.5.position();
        let h6 = h5 * T6::cardinality() + self.6.position();
        let h7 = h6 * T7::cardinality() + self.7.position();
        h7
    }

    open spec fn at(i: nat) -> Option<Self> {
        if i < Self::cardinality() {
            let d7 = i % T7::cardinality();
            let q7 = i / T7::cardinality();
            let d6 = q7 % T6::cardinality();
            let q6 = q7 / T6::cardinality();
            let d5 = q6 % T5::cardinality();
            let q5 = q6 / T5::cardinality();
            let d4 = q5 % T4::cardinality();
            let q4 = q5 / T4::cardinality();
            let d3 = q4 % T3::cardinality();
            let q3 = q4 / T3::cardinality();
            let d2 = q3 % T2::cardinality();
            let q2 = q3 / T2::cardinality();
            let d1 = q2 % T1::cardinality();
            let q1 = q2 / T1::cardinality();
            let d0 = q1 % T0::cardinality();
            Some(
                (
                    T0::at(d0).unwrap(),
                    T1::at(d1).unwrap(),
                    T2::at(d2).unwrap(),
                    T3::at(d3).unwrap(),
                    T4::at(d4).unwrap(),
                    T5::at(d5).unwrap(),
                    T6::at(d6).unwrap(),
                    T7::at(d7).unwrap(),
                ),
            )
        } else {
            None
        }
    }

    proof fn lemma_fits() {
    }

    proof fn lemma_position(&self) {
        self.0.lemma_position();
        self.1.lemma_position();
        self.2.lemma_position();
        self.3.lemma_position();
        self.4.lemma_position();
        self.5.lemma_position();
        self.6.lemma_position();
        self.7.lemma_position();
        let h0 = self.0.position();
        let b0 = T0::cardinality();
        lemma_digit_step(0, 1, h0, b0);
        lemma_digit_step(h0, b0, self.1.position(), T1::cardinality());
        let h1 = h0 * T1::cardinality() + self.1.position();
        let b1 = b0 * T1::cardinality();
        lemma_digit_step(h1, b1, self.2.position(), T2::cardinality());
        let h2 = h1 * T2::cardinality() + self.2.position();
        let b2 = b1 * T2::cardinality();
        lemma_digit_step(h2, b2, self.3.position(), T3::cardinality());
        let h3 = h2 * T3::cardinality() + self.3.position();
        let b3 = b2 * T3::cardinality();
        lemma_digit_step(h3, b3, self.4.position(), T4::cardinality());
        let h4 = h3 * T4::cardinality() + self.4.position();
        let b4 = b3 * T4::cardinality();
        lemma_digit_step(h4, b4, self.5.position(), T5::cardinality());
        let h5 = h4 * T5::cardinality() + self.5.position();
        let b5 = b4 * T5::cardinality();
        lemma_digit_step(h5, b5, self.6.position(), T6::cardinality());
        let h6 = h5 * T6::cardinality() + self.6.position();
        let b6 = b5 * T6::cardinality();
        lemma_digit_step(h6, b6, self.7.position(), T7::cardinality());
        let h7 = h6 * T7::cardinality() + self.7.position();
        let b7 = b6 * T7::cardinality();
    }

    proof fn lemma_at(i: nat) {
        if i < Self::cardinality() {
            let b0 = T0::cardinality();
            let b1 = b0 * T1::cardinality();
            let b2 = b1 * T2::cardinality();
            let b3 = b2 * T3::cardinality();
            let b4 = b3 * T4::cardinality();
            let b5 = b4 * T5::cardinality();
            let b6 = b5 * T6::cardinality();
            let b7 = b6 * T7::cardinality();
            lemma_digit_split(i, b6, T7::cardinality());
            let d7 = i % T7::cardinality();
            let q7 = i / T7::cardinality();
            lemma_digit_split(q7, b5, T6::cardinality());
            let d6 = q7 % T6::cardinality();
            let q6 = q7 / T6::cardinality();
            lemma_digit_split(q6, b4, T5::cardinality());
            let d5 = q6 % T5::cardinality();
            let q5 = q6 / T5::cardinality();
            lemma_digit_split(q5, b3, T4::cardinality());
            let d4 = q5 % T4::cardinality();
            let q4 = q5 / T4::cardinality();
            lemma_digit_split(q4, b2, T3::cardinality());
            let d3 = q4 % T3::cardinality();
            let q3 = q4 / T3::cardinality();
            lemma_digit_split(q3, b1, T2::cardinality());
            let d2 = q3 % T2::cardinality();
            let q2 = q3 / T2::cardinality();
            lemma_digit_split(q2, b0, T1::cardinality());
            let d1 = q2 % T1::cardinality();
            let q1 = q2 / T1::cardinality();
            lemma_digit_step(0, 1, q1, b0);
            let d0 = q1 % T0::cardinality();
            T0::lemma_at(d0);
            T1::lemma_at(d1);
            T2::lemma_at(d2);
            T3::lemma_at(d3);
            T4::lemma_at(d4);
            T5::lemma_at(d5);
            T6::lemma_at(d6);
            T7::lemma_at(d7);
        }
    }

    fn checked_inhabitants() -> (n: Option<usize>) {
        let n0: usize = match T0::checked_inhabitants() {
            Some(n) => n,
            None => {
                return None;
            },
        };
        let n1: usize = match T1::checked_inhabitants() {
            Some(n) => n,
            None => {
                return None;
            },
        };
        let n2: usize = match T2::checked_inhabitants() {
            Some(n) => n,
            None => {
                return None;
            },
        };
        let n3: usize = match T3::checked_inhabitants() {
            Some(n) => n,
            None => {
                return None;
            },
        };
        let n4: usize = match T4::checked_inhabitants() {
            Some(n) => n,
            None => {
                return None;
            },
        };
        let n5: usize = match T5::checked_inhabitants() {
            Some(n) => n,
            None => {
                return None;
            },
        };
        let n6: usize = match T6::checked_inhabitants() {
            Some(n) => n,
            None => {
                return None;
            },
        };
        let n7: usize = match T7::checked_inhabitants() {
            Some(n) => n,
            None => {
                return None;
            },
        };
        proof {
            let b0 = T0::cardinality();
            lemma_factor(b0, T1::cardinality());
            let b1 = b0 * T1::cardinality();
            lemma_factor(b1, T2::cardinality());
            let b2 = b1 * T2::cardinality();
            lemma_factor(b2, T3::cardinality());
            let b3 = b2 * T3::cardinality();
            lemma_factor(b3, T4::cardinality());
            let b4 = b3 * T4::cardinality();
            lemma_factor(b4, T5::cardinality());
            let b5 = b4 * T5::cardinality();
            lemma_factor(b5, T6::cardinality());
            let b6 = b5 * T6::cardinality();
            lemma_factor(b6, T7::cardinality());
            let b7 = b6 * T7::cardinality();
        }
        if n0 == 0 || n1 == 0 || n2 == 0 || n3 == 0 || n4 == 0 || n5 == 0 || n6 == 0 || n7 == 0 {
            return Some(0);
        }
        let p1: usize = match n0.checked_mul(n1) {
            Some(p) => p,
            None => {
                return None;
            },
        };
        let p2: usize = match p1.checked_mul(n2) {
            Some(p) => p,
            None => {
                return None;
            },
        };
        let p3: usize = match p2.checked_mul(n3) {
            Some(p) => p,
            None => {
                return None;
            },
        };
        let p4: usize = match p3.checked_mul(n4) {
            Some(p) => p,
            None => {
                return None;
            },
        };
        let p5: usize = match p4.checked_mul(n5) {
            Some(p) => p,
            None => {
                return None;
            },
        };
        let p6: usize = match p5.checked_mul(n6) {
            Some(p) => p,
            None => {
                return None;
            },
        };
        let p7: usize = match p6.checked_mul(n7) {
            Some(p) => p,
            None => {
                return None;
            },
        };
        Some(p7)
    }

    fn to_usize(&self) -> (i: usize) {
        let i0: usize = self.0.to_usize();
        let i1: usize = self.1.to_usize();
        let i2: usize = self.2.to_usize();
        let i3: usize = self.3.to_usize();
        let i4: usize = self.4.to_usize();
        let i5: usize = self.5.to_usize();
        let i6: usize = self.6.to_usize();
        let i7: usize = self.7.to_usize();
        proof {
            let h0 = self.0.position();
            let b0 = T0::cardinality();
            lemma_digit_step(h0, b0, self.1.position(), T1::cardinality());
            let h1 = h0 * T1::cardinality() + self.1.position();
            let b1 = b0 * T1::cardinality();
            lemma_digit_step(h1, b1, self.2.position(), T2::cardinality());
            let h2 = h1 * T2::cardinality() + self.2.position();
            let b2 = b1 * T2::cardinality();
            lemma_digit_step(h2, b2, self.3.position(), T3::cardinality());
            let h3 = h2 * T3::cardinality() + self.3.position();
            let b3 = b2 * T3::cardinality();
            lemma_digit_step(h3, b3, self.4.position(), T4::cardinality());
            let h4 = h3 * T4::cardinality() + self.4.position();
            let b4 = b3 * T4::cardinality();
            lemma_digit_step(h4, b4, self.5.position(), T5::cardinality());
            let h5 = h4 * T5::cardinality() + self.5.position();
            let b5 = b4 * T5::cardinality();
            lemma_digit_step(h5, b5, self.6.position(), T6::cardinality());
            let h6 = h5 * T6::cardinality() + self.6.position();
            let b6 = b5 * T6::cardinality();
            lemma_digit_step(h6, b6, self.7.position(), T7::cardinality());
            let h7 = h6 * T7::cardinality() + self.7.position();
            let b7 = b6 * T7::cardinality();
            lemma_factor(b6, T7::cardinality());
            lemma_factor(b5, T6::cardinality());
            lemma_factor(b4, T5::cardinality());
            lemma_factor(b3, T4::cardinality());
            lemma_factor(b2, T3::cardinality());
            lemma_factor(b1, T2::cardinality());
            lemma_factor(b0, T1::cardinality());
        }
        let h1: usize = i0 * T1::inhabitants() + i1;
        let h2: usize = h1 * T2::inhabitants() + i2;
        let h3: usize = h2 * T3::inhabitants() + i3;
        let h4: usize = h3 * T4::inhabitants() + i4;
        let h5: usize = h4 * T5::inhabitants() + i5;
        let h6: usize = h5 * T6::inhabitants() + i6;
        let h7: usize = h6 * T7::inhabitants() + i7;
        h7
    }

    fn from_usize(i: usize) -> (r: Option<Self>) {
        if i >= Self::inhabitants() {
            return None;
        }
        proof {
            let b0 = T0::cardinality();
            let b1 = b0 * T1::cardinality();
            let b2 = b1 * T2::cardinality();
            let b3 = b2 * T3::cardinality();
            let b4 = b3 * T4::cardinality();
            let b5 = b4 * T5::cardinality();
            let b6 = b5 * T6::cardinality();
            let b7 = b6 * T7::cardinality();
            lemma_digit_split(i as nat, b6, T7::cardinality());
            let q7 = (i as nat) / T7::cardinality();
            lemma_digit_split(q7, b5, T6::cardinality());
            let q6 = q7 / T6::cardinality();
            lemma_digit_split(q6, b4, T5::cardinality());
            let q5 = q6 / T5::cardinality();
            lemma_digit_split(q5, b3, T4::cardinality());
            let q4 = q5 / T4::cardinality();
            lemma_digit_split(q4, b2, T3::cardinality());
            let q3 = q4 / T3::cardinality();
            lemma_digit_split(q3, b1, T2::cardinality());
            let q2 = q3 / T2::cardinality();
            lemma_digit_split(q2, b0, T1::cardinality());
            let q1 = q2 / T1::cardinality();
            lemma_digit_step(0, 1, q1, b0);
        }
        let n7: usize = T7::inhabitants();
        let d7: usize = i % n7;
        let q7: usize = i / n7;
        let n6: usize = T6::inhabitants();
        let d6: usize = q7 % n6;
        let q6: usize = q7 / n6;
        let n5: usize = T5::inhabitants();
        let d5: usize = q6 % n5;
        let q5: usize = q6 / n5;
        let n4: usize = T4::inhabitants();
        let d4: usize = q5 % n4;
        let q4: usize = q5 / n4;
        let n3: usize = T3::inhabitants();
        let d3: usize = q4 % n3;
        let q3: usize = q4 / n3;
        let n2: usize = T2::inhabitants();
        let d2: usize = q3 % n2;
        let q2: usize = q3 / n2;
        let n1: usize = T1::inhabitants();
        let d1: usize = q2 % n1;
        let q1: usize = q2 / n1;
        let n0: usize = T0::inhabitants();
        let d0: usize = q1 % n0;
        let v0 = T0::from_usize(d0).unwrap();
        let v1 = T1::from_usize(d1).unwrap();
        let v2 = T2::from_usize(d2).unwrap();
        let v3 = T3::from_usize(d3).unwrap();
        let v4 = T4::from_usize(d4).unwrap();
        let v5 = T5::from_usize(d5).unwrap();
        let v6 = T6::from_usize(d6).unwrap();
        let v7 = T7::from_usize(d7).unwrap();
        Some((v0, v1, v2, v3, v4, v5, v6, v7))
    }
}

/// A tuple of 9 fields.
impl<
    T0: Finite,
    T1: Finite,
    T2: Finite,
    T3: Finite,
    T4: Finite,
    T5: Finite,
    T6: Finite,
    T7: Finite,
    T8: Finite,
> Finite for (T0, T1, T2, T3, T4, T5, T6, T7, T8) {
    open spec fn cardinality() -> nat {
        T0::cardinality() * T1::cardinality() * T2::cardinality() * T3::cardinality()
            * T4::cardinality() * T5::cardinality() * T6::cardinality() * T7::cardinality()
            * T8::cardinality()
    }

    open spec fn fits_in_usize() -> bool {
        &&& T0::fits_in_usize()
        &&& T1::fits_in_usize()
        &&& T2::fits_in_usize()
        &&& T3::fits_in_usize()
        &&& T4::fits_in_usize()
        &&& T5::fits_in_usize()
        &&& T6::fits_in_usize()
        &&& T7::fits_in_usize()
        &&& T8::fits_in_usize()
        &&& Self::cardinality() <= usize::MAX
    }

    open spec fn inhabitant(&self) -> bool {
        &&& self.0.inhabitant()
        &&& self.1.inhabitant()
        &&& self.2.inhabitant()
        &&& self.3.inhabitant()
        &&& self.4.inhabitant()
        &&& self.5.inhabitant()
        &&& self.6.inhabitant()
        &&& self.7.inhabitant()
        &&& self.8.inhabitant()
    }

    open spec fn position(&self) -> nat {
        let h0 = self.0.position();
        let h1 = h0 * T1::cardinality() + self.1.position();
        let h2 = h1 * T2::cardinality() + self.2.position();
        let h3 = h2 * T3::cardinality() + self.3.position();
        let h4 = h3 * T4::cardinality() + self.4.position();
        let h5 = h4 * T5::cardinality() + self.5.position();
        let h6 = h5 * T6::cardinality() + self.6.position();
        let h7 = h6 * T7::cardinality() + self.7.position();
        let h8 = h7 * T8::cardinality() + self.8.position();
        h8
    }

    open spec fn at(i: nat) -> Option<Self> {
        if i < Self::cardinality() {
            let d8 = i % T8::cardinality();
            let q8 = i / T8::cardinality();
            let d7 = q8 % T7::cardinality();
            let q7 = q8 / T7::cardinality();
            let d6 = q7 % T6::cardinality();
            let q6 = q7 / T6::cardinality();
            let d5 = q6 % T5::cardinality();
            let q5 = q6 / T5::cardinality();
            let d4 = q5 % T4::cardinality();
            let q4 = q5 / T4::cardinality();
            let d3 = q4 % T3::cardinality();
            let q3 = q4 / T3::cardinality();
            let d2 = q3 % T2::cardinality();
            let q2 = q3 / T2::cardinality();
            let d1 = q2 % T1::cardinality();
            let q1 = q2 / T1::cardinality();
            let d0 = q1 % T0::cardinality();
            Some(
                (
                    T0::at(d0).unwrap(),
                    T1::at(d1).unwrap(),
                    T2::at(d2).unwrap(),
                    T3::at(d3).unwrap(),
                    T4::at(d4).unwrap(),
                    T5::at(d5).unwrap(),
                    T6::at(d6).unwrap(),
                    T7::at(d7).unwrap(),
                    T8::at(d8).unwrap(),
                ),
            )
        } else {
            None
        }
    }

    proof fn lemma_fits() {
    }

    proof fn lemma_position(&self) {
        self.0.lemma_position();
        self.1.lemma_position();
        self.2.lemma_position();
        self.3.lemma_position();
        self.4.lemma_position();
        self.5.lemma_position();
        self.6.lemma_position();
        self.7.lemma_position();
        self.8.lemma_position();
        let h0 = self.0.position();
        let b0 = T0::cardinality();
        lemma_digit_step(0, 1, h0, b0);
        lemma_digit_step(h0, b0, self.1.position(), T1::cardinality());
        let h1 = h0 * T1::cardinality() + self.1.position();
        let b1 = b0 * T1::cardinality();
        lemma_digit_step(h1, b1, self.2.position(), T2::cardinality());
        let h2 = h1 * T2::cardinality() + self.2.position();
        let b2 = b1 * T2::cardinality();
        lemma_digit_step(h2, b2, self.3.position(), T3::cardinality());
        let h3 = h2 * T3::cardinality() + self.3.position();
        let b3 = b2 * T3::cardinality();
        lemma_digit_step(h3, b3, self.4.position(), T4::cardinality());
        let h4 = h3 * T4::cardinality() + self.4.position();
        let b4 = b3 * T4::cardinality();
        lemma_digit_step(h4, b4, self.5.position(), T5::cardinality());
        let h5 = h4 * T5::cardinality() + self.5.position();
        let b5 = b4 * T5::cardinality();
        lemma_digit_step(h5, b5, self.6.position(), T6::cardinality());
        let h6 = h5 * T6::cardinality() + self.6.position();
        let b6 = b5 * T6::cardinality();
        lemma_digit_step(h6, b6, self.7.position(), T7::cardinality());
        let h7 = h6 * T7::cardinality() + self.7.position();
        let b7 = b6 * T7::cardinality();
        lemma_digit_step(h7, b7, self.8.position(), T8::cardinality());
        let h8 = h7 * T8::cardinality() + self.8.position();
        let b8 = b7 * T8::cardinality();
    }

    proof fn lemma_at(i: nat) {
        if i < Self::cardinality() {
            let b0 = T0::cardinality();
            let b1 = b0 * T1::cardinality();
            let b2 = b1 * T2::cardinality();
            let b3 = b2 * T3::cardinality();
            let b4 = b3 * T4::cardinality();
            let b5 = b4 * T5::cardinality();
            let b6 = b5 * T6::cardinality();
            let b7 = b6 * T7::cardinality();
            let b8 = b7 * T8::cardinality();
            lemma_digit_split(i, b7, T8::cardinality());
            let d8 = i % T8::cardinality();
            let q8 = i / T8::cardinality();
            lemma_digit_split(q8, b6, T7::cardinality());
            let d7 = q8 % T7::cardinality();
            let q7 = q8 / T7::cardinality();
            lemma_digit_split(q7, b5, T6::cardinality());
            let d6 = q7 % T6::cardinality();
            let q6 = q7 / T6::cardinality();
            lemma_digit_split(q6, b4, T5::cardinality());
            let d5 = q6 % T5::cardinality();
            let q5 = q6 / T5::cardinality();
            lemma_digit_split(q5, b3, T4::cardinality());
            let d4 = q5 % T4::cardinality();
            let q4 = q5 / T4::cardinality();
            lemma_digit_split(q4, b2, T3::cardinality());
            let d3 = q4 % T3::cardinality();
            let q3 = q4 / T3::cardinality();
            lemma_digit_split(q3, b1, T2::cardinality());
            let d2 = q3 % T2::cardinality();
            let q2 = q3 / T2::cardinality();
            lemma_digit_split(q2, b0, T1::cardinality());
            let d1 = q2 % T1::cardinality();
            let q1 = q2 / T1::cardinality();
            lemma_digit_step(0, 1, q1, b0);
            let d0 = q1 % T0::cardinality();
            T0::lemma_at(d0);
            T1::lemma_at(d1);
            T2::lemma_at(d2);
            T3::lemma_at(d3);
            T4::lemma_at(d4);
            T5::lemma_at(d5);
            T6::lemma_at(d6);
            T7::lemma_at(d7);
            T8::lemma_at(d8);
        }
    }

    fn checked_inhabitants() -> (n: Option<usize>) {
        let n0: usize = match T0::checked_inhabitants() {
            Some(n) => n,
            None => {
                return None;
            },
        };
        let n1: usize = match T1::checked_inhabitants() {
            Some(n) => n,
            None => {
                return None;
            },
        };
        let n2: usize = match T2::checked_inhabitants() {
            Some(n) => n,
            None => {
                return None;
            },
        };
        let n3: usize = match T3::checked_inhabitants() {
            Some(n) => n,
            None => {
                return None;
            },
        };
        let n4: usize = match T4::checked_inhabitants() {
            Some(n) => n,
            None => {
                return None;
            },
        };
        let n5: usize = match T5::checked_inhabitants() {
            Some(n) => n,
            None => {
                return None;
            },
        };
        let n6: usize = match T6::checked_inhabitants() {
            Some(n) => n,
            None => {
                return None;
            },
        };
        let n7: usize = match T7::checked_inhabitants() {
            Some(n) => n,
            None => {
                return None;
            },
        };
        let n8: usize = match T8::checked_inhabitants() {
            Some(n) => n,
            None => {
                return None;
            },
        };
        proof {
            let b0 = T0::cardinality();
            lemma_factor(b0, T1::cardinality());
            let b1 = b0 * T1::cardinality();
            lemma_factor(b1, T2::cardinality());
            let b2 = b1 * T2::cardinality();
            lemma_factor(b2, T3::cardinality());
            let b3 = b2 * T3::cardinality();
            lemma_factor(b3, T4::cardinality());
            let b4 = b3 * T4::cardinality();
            lemma_factor(b4, T5::cardinality());
            let b5 = b4 * T5::cardinality();
            lemma_factor(b5, T6::cardinality());
            let b6 = b5 * T6::cardinality();
            lemma_factor(b6, T7::cardinality());
            let b7 = b6 * T7::cardinality();
            lemma_factor(b7, T8::cardinality());
            let b8 = b7 * T8::cardinality();
        }
        if n0 == 0 || n1 == 0 || n2 == 0 || n3 == 0 || n4 == 0 || n5 == 0 || n6 == 0 || n7 == 0
            || n8 == 0 {
            return Some(0);
        }
        let p1: usize = match n0.checked_mul(n1) {
            Some(p) => p,
            None => {
                return None;
            },
        };
        let p2: usize = match p1.checked_mul(n2) {
            Some(p) => p,
            None => {
                return None;
            },
        };
        let p3: usize = match p2.checked_mul(n3) {
            Some(p) => p,
            None => {
                return None;
            },
        };
        let p4: usize = match p3.checked_mul(n4) {
            Some(p) => p,
            None => {
                return None;
            },
        };
        let p5: usize = match p4.checked_mul(n5) {
            Some(p) => p,
            None => {
                return None;
            },
        };
        let p6: usize = match p5.checked_mul(n6) {
            Some(p) => p,
            None => {
                return None;
            },
        };
        let p7: usize = match p6.checked_mul(n7) {
            Some(p) => p,
            None => {
                return None;
            },
        };
        let p8: usize = match p7.checked_mul(n8) {
            Some(p) => p,
            None => {
                return None;
            },
        };
        Some(p8)
    }

    fn to_usize(&self) -> (i: usize) {
        let i0: usize = self.0.to_usize();
        let i1: usize = self.1.to_usize();
        let i2: usize = self.2.to_usize();
        let i3: usize = self.3.to_usize();
        let i4: usize = self.4.to_usize();
        let i5: usize = self.5.to_usize();
        let i6: usize = self.6.to_usize();
        let i7: usize = self.7.to_usize();
        let i8: usize = self.8.to_usize();
        proof {
            let h0 = self.0.position();
            let b0 = T0::cardinality();
            lemma_digit_step(h0, b0, self.1.position(), T1::cardinality());
            let h1 = h0 * T1::cardinality() + self.1.position();
            let b1 = b0 * T1::cardinality();
            lemma_digit_step(h1, b1, self.2.position(), T2::cardinality());
            let h2 = h1 * T2::cardinality() + self.2.position();
            let b2 = b1 * T2::cardinality();
            lemma_digit_step(h2, b2, self.3.position(), T3::cardinality());
            let h3 = h2 * T3::cardinality() + self.3.position();
            let b3 = b2 * T3::cardinality();
            lemma_digit_step(h3, b3, self.4.position(), T4::cardinality());
            let h4 = h3 * T4::cardinality() + self.4.position();
            let b4 = b3 * T4::cardinality();
            lemma_digit_step(h4, b4, self.5.position(), T5::cardinality());
            let h5 = h4 * T5::cardinality() + self.5.position();
            let b5 = b4 * T5::cardinality();
            lemma_digit_step(h5, b5, self.6.position(), T6::cardinality());
            let h6 = h5 * T6::cardinality() + self.6.position();
            let b6 = b5 * T6::cardinality();
            lemma_digit_step(h6, b6, self.7.position(), T7::cardinality());
            let h7 = h6 * T7::cardinality() + self.7.position();
            let b7 = b6 * T7::cardinality();
            lemma_digit_step(h7, b7, self.8.position(), T8::cardinality());
            let h8 = h7 * T8::cardinality() + self.8.position();
            let b8 = b7 * T8::cardinality();
            lemma_factor(b7, T8::cardinality());
            lemma_factor(b6, T7::cardinality());
            lemma_factor(b5, T6::cardinality());
            lemma_factor(b4, T5::cardinality());
            lemma_factor(b3, T4::cardinality());
            lemma_factor(b2, T3::cardinality());
            lemma_factor(b1, T2::cardinality());
            lemma_factor(b0, T1::cardinality());
        }
        let h1: usize = i0 * T1::inhabitants() + i1;
        let h2: usize = h1 * T2::inhabitants() + i2;
        let h3: usize = h2 * T3::inhabitants() + i3;
        let h4: usize = h3 * T4::inhabitants() + i4;
        let h5: usize = h4 * T5::inhabitants() + i5;
        let h6: usize = h5 * T6::inhabitants() + i6;
        let h7: usize = h6 * T7::inhabitants() + i7;
        let h8: usize = h7 * T8::inhabitants() + i8;
        h8
    }

    fn from_usize(i: usize) -> (r: Option<Self>) {
        if i >= Self::inhabitants() {
            return None;
        }
        proof {
            let b0 = T0::cardinality();
            let b1 = b0 * T1::cardinality();
            let b2 = b1 * T2::cardinality();
            let b3 = b2 * T3::cardinality();
            let b4 = b3 * T4::cardinality();
            let b5 = b4 * T5::cardinality();
            let b6 = b5 * T6::cardinality();
            let b7 = b6 * T7::cardinality();
            let b8 = b7 * T8::cardinality();
            lemma_digit_split(i as nat, b7, T8::cardinality());
            let q8 = (i as nat) / T8::cardinality();
            lemma_digit_split(q8, b6, T7::cardinality());
            let q7 = q8 / T7::cardinality();
            lemma_digit_split(q7, b5, T6::cardinality());
            let q6 = q7 / T6::cardinality();
            lemma_digit_split(q6, b4, T5::cardinality());
            let q5 = q6 / T5::cardinality();
            lemma_digit_split(q5, b3, T4::cardinality());
            let q4 = q5 / T4::cardinality();
            lemma_digit_split(q4, b2, T3::cardinality());
            let q3 = q4 / T3::cardinality();
            lemma_digit_split(q3, b1, T2::cardinality());
            let q2 = q3 / T2::cardinality();
            lemma_digit_split(q2, b0, T1::cardinality());
            let q1 = q2 / T1::cardinality();
            lemma_digit_step(0, 1, q1, b0);
        }
        let n8: usize = T8::inhabitants();
        let d8: usize = i % n8;
        let q8: usize = i / n8;
        let n7: usize = T7::inhabitants();
        let d7: usize = q8 % n7;
        let q7: usize = q8 / n7;
        let n6: usize = T6::inhabitants();
        let d6: usize = q7 % n6;
        let q6: usize = q7 / n6;
        let n5: usize = T5::inhabitants();
        let d5: usize = q6 % n5;
        let q5: usize = q6 / n5;
        let n4: usize = T4::inhabitants();
        let d4: usize = q5 % n4;
        let q4: usize = q5 / n4;
        let n3: usize = T3::inhabitants();
        let d3: usize = q4 % n3;
        let q3: usize = q4 / n3;
        let n2: usize = T2::inhabitants();
        let d2: usize = q3 % n2;
        let q2: usize = q3 / n2;
        let n1: usize = T1::inhabitants();
        let d1: usize = q2 % n1;
        let q1: usize = q2 / n1;
        let n0: usize = T0::inhabitants();
        let d0: usize = q1 % n0;
        let v0 = T0::from_usize(d0).unwrap();
        let v1 = T1::from_usize(d1).unwrap();
        let v2 = T2::from_usize(d2).unwrap();
        let v3 = T3::from_usize(d3).unwrap();
        let v4 = T4::from_usize(d4).unwrap();
        let v5 = T5::from_usize(d5).unwrap();
        let v6 = T6::from_usize(d6).unwrap();
        let v7 = T7::from_usize(d7).unwrap();
        let v8 = T8::from_usize(d8).unwrap();
        Some((v0, v1, v2, v3, v4, v5, v6, v7, v8))
    }
}

/// A tuple of 10 fields.
impl<
    T0: Finite,
    T1: Finite,
    T2: Finite,
    T3: Finite,
    T4: Finite,
    T5: Finite,
    T6: Finite,
    T7: Finite,
    T8: Finite,
    T9: Finite,
> Finite for (T0, T1, T2, T3, T4, T5, T6, T7, T8, T9) {
    open spec fn cardinality() -> nat {
        T0::cardinality() * T1::cardinality() * T2::cardinality() * T3::cardinality()
            * T4::cardinality() * T5::cardinality() * T6::cardinality() * T7::cardinality()
            * T8::cardinality() * T9::cardinality()
    }

    open spec fn fits_in_usize() -> bool {
        &&& T0::fits_in_usize()
        &&& T1::fits_in_usize()
        &&& T2::fits_in_usize()
        &&& T3::fits_in_usize()
        &&& T4::fits_in_usize()
        &&& T5::fits_in_usize()
        &&& T6::fits_in_usize()
        &&& T7::fits_in_usize()
        &&& T8::fits_in_usize()
        &&& T9::fits_in_usize()
        &&& Self::cardinality() <= usize::MAX
    }

    open spec fn inhabitant(&self) -> bool {
        &&& self.0.inhabitant()
        &&& self.1.inhabitant()
        &&& self.2.inhabitant()
        &&& self.3.inhabitant()
        &&& self.4.inhabitant()
        &&& self.5.inhabitant()
        &&& self.6.inhabitant()
        &&& self.7.inhabitant()
        &&& self.8.inhabitant()
        &&& self.9.inhabitant()
    }

    open spec fn position(&self) -> nat {
        let h0 = self.0.position();
        let h1 = h0 * T1::cardinality() + self.1.position();
        let h2 = h1 * T2::cardinality() + self.2.position();
        let h3 = h2 * T3::cardinality() + self.3.position();
        let h4 = h3 * T4::cardinality() + self.4.position();
        let h5 = h4 * T5::cardinality() + self.5.position();
        let h6 = h5 * T6::cardinality() + self.6.position();
        let h7 = h6 * T7::cardinality() + self.7.position();
        let h8 = h7 * T8::cardinality() + self.8.position();
        let h9 = h8 * T9::cardinality() + self.9.position();
        h9
    }

    open spec fn at(i: nat) -> Option<Self> {
        if i < Self::cardinality() {
            let d9 = i % T9::cardinality();
            let q9 = i / T9::cardinality();
            let d8 = q9 % T8::cardinality();
            let q8 = q9 / T8::cardinality();
            let d7 = q8 % T7::cardinality();
            let q7 = q8 / T7::cardinality();
            let d6 = q7 % T6::cardinality();
            let q6 = q7 / T6::cardinality();
            let d5 = q6 % T5::cardinality();
            let q5 = q6 / T5::cardinality();
            let d4 = q5 % T4::cardinality();
            let q4 = q5 / T4::cardinality();
            let d3 = q4 % T3::cardinality();
            let q3 = q4 / T3::cardinality();
            let d2 = q3 % T2::cardinality();
            let q2 = q3 / T2::cardinality();
            let d1 = q2 % T1::cardinality();
            let q1 = q2 / T1::cardinality();
            let d0 = q1 % T0::cardinality();
            Some(
                (
                    T0::at(d0).unwrap(),
                    T1::at(d1).unwrap(),
                    T2::at(d2).unwrap(),
                    T3::at(d3).unwrap(),
                    T4::at(d4).unwrap(),
                    T5::at(d5).unwrap(),
                    T6::at(d6).unwrap(),
                    T7::at(d7).unwrap(),
                    T8::at(d8).unwrap(),
                    T9::at(d9).unwrap(),
                ),
            )
        } else {
            None
        }
    }

    proof fn lemma_fits() {
    }

    proof fn lemma_position(&self) {
        self.0.lemma_position();
        self.1.lemma_position();
        self.2.lemma_position();
        self.3.lemma_position();
        self.4.lemma_position();
        self.5.lemma_position();
        self.6.lemma_position();
        self.7.lemma_position();
        self.8.lemma_position();
        self.9.lemma_position();
        let h0 = self.0.position();
        let b0 = T0::cardinality();
        lemma_digit_step(0, 1, h0, b0);
        lemma_digit_step(h0, b0, self.1.position(), T1::cardinality());
        let h1 = h0 * T1::cardinality() + self.1.position();
        let b1 = b0 * T1::cardinality();
        lemma_digit_step(h1, b1, self.2.position(), T2::cardinality());
        let h2 = h1 * T2::cardinality() + self.2.position();
        let b2 = b1 * T2::cardinality();
        lemma_digit_step(h2, b2, self.3.position(), T3::cardinality());
        let h3 = h2 * T3::cardinality() + self.3.position();
        let b3 = b2 * T3::cardinality();
        lemma_digit_step(h3, b3, self.4.position(), T4::cardinality());
        let h4 = h3 * T4::cardinality() + self.4.position();
        let b4 = b3 * T4::cardinality();
        lemma_digit_step(h4, b4, self.5.position(), T5::cardinality());
        let h5 = h4 * T5::cardinality() + self.5.position();
        let b5 = b4 * T5::cardinality();
        lemma_digit_step(h5, b5, self.6.position(), T6::cardinality());
        let h6 = h5 * T6::cardinality() + self.6.position();
        let b6 = b5 * T6::cardinality();
        lemma_digit_step(h6, b6, self.7.position(), T7::cardinality());
        let h7 = h6 * T7::cardinality() + self.7.position();
        let b7 = b6 * T7::cardinality();
        lemma_digit_step(h7, b7, self.8.position(), T8::cardinality());
        let h8 = h7 * T8::cardinality() + self.8.position();
        let b8 = b7 * T8::cardinality();
        lemma_digit_step(h8, b8, self.9.position(), T9::cardinality());
        let h9 = h8 * T9::cardinality() + self.9.position();
        let b9 = b8 * T9::cardinality();
    }

    proof fn lemma_at(i: nat) {
        if i < Self::cardinality() {
            let b0 = T0::cardinality();
            let b1 = b0 * T1::cardinality();
            let b2 = b1 * T2::cardinality();
            let b3 = b2 * T3::cardinality();
            let b4 = b3 * T4::cardinality();
            let b5 = b4 * T5::cardinality();
            let b6 = b5 * T6::cardinality();
            let b7 = b6 * T7::cardinality();
            let b8 = b7 * T8::cardinality();
            let b9 = b8 * T9::cardinality();
            lemma_digit_split(i, b8, T9::cardinality());
            let d9 = i % T9::cardinality();
            let q9 = i / T9::cardinality();
            lemma_digit_split(q9, b7, T8::cardinality());
            let d8 = q9 % T8::cardinality();
            let q8 = q9 / T8::cardinality();
            lemma_digit_split(q8, b6, T7::cardinality());
            let d7 = q8 % T7::cardinality();
            let q7 = q8 / T7::cardinality();
            lemma_digit_split(q7, b5, T6::cardinality());
            let d6 = q7 % T6::cardinality();
            let q6 = q7 / T6::cardinality();
            lemma_digit_split(q6, b4, T5::cardinality());
            let d5 = q6 % T5::cardinality();
            let q5 = q6 / T5::cardinality();
            lemma_digit_split(q5, b3, T4::cardinality());
            let d4 = q5 % T4::cardinality();
            let q4 = q5 / T4::cardinality();
            lemma_digit_split(q4, b2, T3::cardinality());
            let d3 = q4 % T3::cardinality();
            let q3 = q4 / T3::cardinality();
            lemma_digit_split(q3, b1, T2::cardinality());
            let d2 = q3 % T2::cardinality();
            let q2 = q3 / T2::cardinality();
            lemma_digit_split(q2, b0, T1::cardinality());
            let d1 = q2 % T1::cardinality();
            let q1 = q2 / T1::cardinality();
            lemma_digit_step(0, 1, q1, b0);
            let d0 = q1 % T0::cardinality();
            T0::lemma_at(d0);
            T1::lemma_at(d1);
            T2::lemma_at(d2);
            T3::lemma_at(d3);
            T4::lemma_at(d4);
            T5::lemma_at(d5);
            T6::lemma_at(d6);
            T7::lemma_at(d7);
            T8::lemma_at(d8);
            T9::lemma_at(d9);
        }
    }

    fn checked_inhabitants() -> (n: Option<usize>) {
        let n0: usize = match T0::checked_inhabitants() {
            Some(n) => n,
            None => {
                return None;
            },
        };
        let n1: usize = match T1::checked_inhabitants() {
            Some(n) => n,
            None => {
                return None;
            },
        };
        let n2: usize = match T2::checked_inhabitants() {
            Some(n) => n,
            None => {
                return None;
            },
        };
        let n3: usize = match T3::checked_inhabitants() {
            Some(n) => n,
            None => {
                return None;
            },
        };
        let n4: usize = match T4::checked_inhabitants() {
            Some(n) => n,
            None => {
                return None;
            },
        };
        let n5: usize = match T5::checked_inhabitants() {
            Some(n) => n,
            None => {
                return None;
            },
        };
        let n6: usize = match T6::checked_inhabitants() {
            Some(n) => n,
            None => {
                return None;
            },
        };
        let n7: usize = match T7::checked_inhabitants() {
            Some(n) => n,
            None => {
                return None;
            },
        };
        let n8: usize = match T8::checked_inhabitants() {
            Some(n) => n,
            None => {
                return None;
            },
        };
        let n9: usize = match T9::checked_inhabitants() {
            Some(n) => n,
            None => {
                return None;
            },
        };
        proof {
            let b0 = T0::cardinality();
            lemma_factor(b0, T1::cardinality());
            let b1 = b0 * T1::cardinality();
            lemma_factor(b1, T2::cardinality());
            let b2 = b1 * T2::cardinality();
            lemma_factor(b2, T3::cardinality());
            let b3 = b2 * T3::cardinality();
            lemma_factor(b3, T4::cardinality());
            let b4 = b3 * T4::cardinality();
            lemma_factor(b4, T5::cardinality());
            let b5 = b4 * T5::cardinality();
            lemma_factor(b5, T6::cardinality());
            let b6 = b5 * T6::cardinality();
            lemma_factor(b6, T7::cardinality());
            let b7 = b6 * T7::cardinality();
            lemma_factor(b7, T8::cardinality());
            let b8 = b7 * T8::cardinality();
            lemma_factor(b8, T9::cardinality());
            let b9 = b8 * T9::cardinality();
        }
        if n0 == 0 || n1 == 0 || n2 == 0 || n3 == 0 || n4 == 0 || n5 == 0 || n6 == 0 || n7 == 0
            || n8 == 0 || n9 == 0 {
            return Some(0);
        }
        let p1: usize = match n0.checked_mul(n1) {
            Some(p) => p,
            None => {
                return None;
            },
        };
        let p2: usize = match p1.checked_mul(n2) {
            Some(p) => p,
            None => {
                return None;
            },
        };
        let p3: usize = match p2.checked_mul(n3) {
            Some(p) => p,
            None => {
                return None;
            },
        };
        let p4: usize = match p3.checked_mul(n4) {
            Some(p) => p,
            None => {
                return None;
            },
        };
        let p5: usize = match p4.checked_mul(n5) {
            Some(p) => p,
            None => {
                return None;
            },
        };
        let p6: usize = match p5.checked_mul(n6) {
            Some(p) => p,
            None => {
                return None;
            },
        };
        let p7: usize = match p6.checked_mul(n7) {
            Some(p) => p,
            None => {
                return None;
            },
        };
        let p8: usize = match p7.checked_mul(n8) {
            Some(p) => p,
            None => {
                return None;
            },
        };
        let p9: usize = match p8.checked_mul(n9) {
            Some(p) => p,
            None => {
                return None;
            },
        };
        Some(p9)
    }

    fn to_usize(&self) -> (i: usize) {
        let i0: usize = self.0.to_usize();
        let i1: usize = self.1.to_usize();
        let i2: usize = self.2.to_usize();
        let i3: usize = self.3.to_usize();
        let i4: usize = self.4.to_usize();
        let i5: usize = self.5.to_usize();
        let i6: usize = self.6.to_usize();
        let i7: usize = self.7.to_usize();
        let i8: usize = self.8.to_usize();
        let i9: usize = self.9.to_usize();
        proof {
            let h0 = self.0.position();
            let b0 = T0::cardinality();
            lemma_digit_step(h0, b0, self.1.position(), T1::cardinality());
            let h1 = h0 * T1::cardinality() + self.1.position();
            let b1 = b0 * T1::cardinality();
            lemma_digit_step(h1, b1, self.2.position(), T2::cardinality());
            let h2 = h1 * T2::cardinality() + self.2.position();
            let b2 = b1 * T2::cardinality();
            lemma_digit_step(h2, b2, self.3.position(), T3::cardinality());
            let h3 = h2 * T3::cardinality() + self.3.position();
            let b3 = b2 * T3::cardinality();
            lemma_digit_step(h3, b3, self.4.position(), T4::cardinality());
            let h4 = h3 * T4::cardinality() + self.4.position();
            let b4 = b3 * T4::cardinality();
            lemma_digit_step(h4, b4, self.5.position(), T5::cardinality());
            let h5 = h4 * T5::cardinality() + self.5.position();
            let b5 = b4 * T5::cardinality();
            lemma_digit_step(h5, b5, self.6.position(), T6::cardinality());
            let h6 = h5 * T6::cardinality() + self.6.position();
            let b6 = b5 * T6::cardinality();
            lemma_digit_step(h6, b6, self.7.position(), T7::cardinality());
            let h7 = h6 * T7::cardinality() + self.7.position();
            let b7 = b6 * T7::cardinality();
            lemma_digit_step(h7, b7, self.8.position(), T8::cardinality());
            let h8 = h7 * T8::cardinality() + self.8.position();
            let b8 = b7 * T8::cardinality();
            lemma_digit_step(h8, b8, self.9.position(), T9::cardinality());
            let h9 = h8 * T9::cardinality() + self.9.position();
            let b9 = b8 * T9::cardinality();
            lemma_factor(b8, T9::cardinality());
            lemma_factor(b7, T8::cardinality());
            lemma_factor(b6, T7::cardinality());
            lemma_factor(b5, T6::cardinality());
            lemma_factor(b4, T5::cardinality());
            lemma_factor(b3, T4::cardinality());
            lemma_factor(b2, T3::cardinality());
            lemma_factor(b1, T2::cardinality());
            lemma_factor(b0, T1::cardinality());
        }
        let h1: usize = i0 * T1::inhabitants() + i1;
        let h2: usize = h1 * T2::inhabitants() + i2;
        let h3: usize = h2 * T3::inhabitants() + i3;
        let h4: usize = h3 * T4::inhabitants() + i4;
        let h5: usize = h4 * T5::inhabitants() + i5;
        let h6: usize = h5 * T6::inhabitants() + i6;
        let h7: usize = h6 * T7::inhabitants() + i7;
        let h8: usize = h7 * T8::inhabitants() + i8;
        let h9: usize = h8 * T9::inhabitants() + i9;
        h9
    }

    fn from_usize(i: usize) -> (r: Option<Self>) {
        if i >= Self::inhabitants() {
            return None;
        }
        proof {
            let b0 = T0::cardinality();
            let b1 = b0 * T1::cardinality();
            let b2 = b1 * T2::cardinality();
            let b3 = b2 * T3::cardinality();
            let b4 = b3 * T4::cardinality();
            let b5 = b4 * T5::cardinality();
            let b6 = b5 * T6::cardinality();
            let b7 = b6 * T7::cardinality();
            let b8 = b7 * T8::cardinality();
            let b9 = b8 * T9::cardinality();
            lemma_digit_split(i as nat, b8, T9::cardinality());
            let q9 = (i as nat) / T9::cardinality();
            lemma_digit_split(q9, b7, T8::cardinality());
            let q8 = q9 / T8::cardinality();
            lemma_digit_split(q8, b6, T7::cardinality());
            let q7 = q8 / T7::cardinality();
            lemma_digit_split(q7, b5, T6::cardinality());
            let q6 = q7 / T6::cardinality();
            lemma_digit_split(q6, b4, T5::cardinality());
            let q5 = q6 / T5::cardinality();
            lemma_digit_split(q5, b3, T4::cardinality());
            let q4 = q5 / T4::cardinality();
            lemma_digit_split(q4, b2, T3::cardinality());
            let q3 = q4 / T3::cardinality();
            lemma_digit_split(q3, b1, T2::cardinality());
            let q2 = q3 / T2::cardinality();
            lemma_digit_split(q2, b0, T1::cardinality());
            let q1 = q2 / T1::cardinality();
            lemma_digit_step(0, 1, q1, b0);
        }
        let n9: usize = T9::inhabitants();
        let d9: usize = i % n9;
        let q9: usize = i / n9;
        let n8: usize = T8::inhabitants();
        let d8: usize = q9 % n8;
        let q8: usize = q9 / n8;
        let n7: usize = T7::inhabitants();
        let d7: usize = q8 % n7;
        let q7: usize = q8 / n7;
        let n6: usize = T6::inhabitants();
        let d6: usize = q7 % n6;
        let q6: usize = q7 / n6;
        let n5: usize = T5::inhabitants();
        let d5: usize = q6 % n5;
        let q5: usize = q6 / n5;
        let n4: usize = T4::inhabitants();
        let d4: usize = q5 % n4;
        let q4: usize = q5 / n4;
        let n3: usize = T3::inhabitants();
        let d3: usize = q4 % n3;
        let q3: usize = q4 / n3;
        let n2: usize = T2::inhabitants();
        let d2: usize = q3 % n2;
        let q2: usize = q3 / n2;
        let n1: usize = T1::inhabitants();
        let d1: usize = q2 % n1;
        let q1: usize = q2 / n1;
        let n0: usize = T0::inhabitants();
        let d0: usize = q1 % n0;
        let v0 = T0::from_usize(d0).unwrap();
        let v1 = T1::from_usize(d1).unwrap();
        let v2 = T2::from_usize(d2).unwrap();
        let v3 = T3::from_usize(d3).unwrap();
        let v4 = T4::from_usize(d4).unwrap();
        let v5 = T5::from_usize(d5).unwrap();
        let v6 = T6::from_usize(d6).unwrap();
        let v7 = T7::from_usize(d7).unwrap();
        let v8 = T8::from_usize(d8).unwrap();
        let v9 = T9::from_usize(d9).unwrap();
        Some((v0, v1, v2, v3, v4, v5, v6, v7, v8, v9))
    }
}

/// A tuple of 11 fields.
impl<
    T0: Finite,
    T1: Finite,
    T2: Finite,
    T3: Finite,
    T4: Finite,
    T5: Finite,
    T6: Finite,
    T7: Finite,
    T8: Finite,
    T9: Finite,
    T10: Finite,
> Finite for (T0, T1, T2, T3, T4, T5, T6, T7, T8, T9, T10) {
    open spec fn cardinality() -> nat {
        T0::cardinality() * T1::cardinality() * T2::cardinality() * T3::cardinality()
            * T4::cardinality() * T5::cardinality() * T6::cardinality() * T7::cardinality()
            * T8::cardinality() * T9::cardinality() * T10::cardinality()
    }

    open spec fn fits_in_usize() -> bool {
        &&& T0::fits_in_usize()
        &&& T1::fits_in_usize()
        &&& T2::fits_in_usize()
        &&& T3::fits_in_usize()
        &&& T4::fits_in_usize()
        &&& T5::fits_in_usize()
        &&& T6::fits_in_usize()
        &&& T7::fits_in_usize()
        &&& T8::fits_in_usize()
        &&& T9::fits_in_usize()
        &&& T10::fits_in_usize()
        &&& Self::cardinality() <= usize::MAX
    }

    open spec fn inhabitant(&self) -> bool {
        &&& self.0.inhabitant()
        &&& self.1.inhabitant()
        &&& self.2.inhabitant()
        &&& self.3.inhabitant()
        &&& self.4.inhabitant()
        &&& self.5.inhabitant()
        &&& self.6.inhabitant()
        &&& self.7.inhabitant()
        &&& self.8.inhabitant()
        &&& self.9.inhabitant()
        &&& self.10.inhabitant()
    }

    open spec fn position(&self) -> nat {
        let h0 = self.0.position();
        let h1 = h0 * T1::cardinality() + self.1.position();
        let h2 = h1 * T2::cardinality() + self.2.position();
        let h3 = h2 * T3::cardinality() + self.3.position();
        let h4 = h3 * T4::cardinality() + self.4.position();
        let h5 = h4 * T5::cardinality() + self.5.position();
        let h6 = h5 * T6::cardinality() + self.6.position();
        let h7 = h6 * T7::cardinality() + self.7.position();
        let h8 = h7 * T8::cardinality() + self.8.position();
        let h9 = h8 * T9::cardinality() + self.9.position();
        let h10 = h9 * T10::cardinality() + self.10.position();
        h10
    }

    open spec fn at(i: nat) -> Option<Self> {
        if i < Self::cardinality() {
            let d10 = i % T10::cardinality();
            let q10 = i / T10::cardinality();
            let d9 = q10 % T9::cardinality();
            let q9 = q10 / T9::cardinality();
            let d8 = q9 % T8::cardinality();
            let q8 = q9 / T8::cardinality();
            let d7 = q8 % T7::cardinality();
            let q7 = q8 / T7::cardinality();
            let d6 = q7 % T6::cardinality();
            let q6 = q7 / T6::cardinality();
            let d5 = q6 % T5::cardinality();
            let q5 = q6 / T5::cardinality();
            let d4 = q5 % T4::cardinality();
            let q4 = q5 / T4::cardinality();
            let d3 = q4 % T3::cardinality();
            let q3 = q4 / T3::cardinality();
            let d2 = q3 % T2::cardinality();
            let q2 = q3 / T2::cardinality();
            let d1 = q2 % T1::cardinality();
            let q1 = q2 / T1::cardinality();
            let d0 = q1 % T0::cardinality();
            Some(
                (
                    T0::at(d0).unwrap(),
                    T1::at(d1).unwrap(),
                    T2::at(d2).unwrap(),
                    T3::at(d3).unwrap(),
                    T4::at(d4).unwrap(),
                    T5::at(d5).unwrap(),
                    T6::at(d6).unwrap(),
                    T7::at(d7).unwrap(),
                    T8::at(d8).unwrap(),
                    T9::at(d9).unwrap(),
                    T10::at(d10).unwrap(),
                ),
            )
        } else {
            None
        }
    }

    proof fn lemma_fits() {
    }

    proof fn lemma_position(&self) {
        self.0.lemma_position();
        self.1.lemma_position();
        self.2.lemma_position();
        self.3.lemma_position();
        self.4.lemma_position();
        self.5.lemma_position();
        self.6.lemma_position();
        self.7.lemma_position();
        self.8.lemma_position();
        self.9.lemma_position();
        self.10.lemma_position();
        let h0 = self.0.position();
        let b0 = T0::cardinality();
        lemma_digit_step(0, 1, h0, b0);
        lemma_digit_step(h0, b0, self.1.position(), T1::cardinality());
        let h1 = h0 * T1::cardinality() + self.1.position();
        let b1 = b0 * T1::cardinality();
        lemma_digit_step(h1, b1, self.2.position(), T2::cardinality());
        let h2 = h1 * T2::cardinality() + self.2.position();
        let b2 = b1 * T2::cardinality();
        lemma_digit_step(h2, b2, self.3.position(), T3::cardinality());
        let h3 = h2 * T3::cardinality() + self.3.position();
        let b3 = b2 * T3::cardinality();
        lemma_digit_step(h3, b3, self.4.position(), T4::cardinality());
        let h4 = h3 * T4::cardinality() + self.4.position();
        let b4 = b3 * T4::cardinality();
        lemma_digit_step(h4, b4, self.5.position(), T5::cardinality());
        let h5 = h4 * T5::cardinality() + self.5.position();
        let b5 = b4 * T5::cardinality();
        lemma_digit_step(h5, b5, self.6.position(), T6::cardinality());
        let h6 = h5 * T6::cardinality() + self.6.position();
        let b6 = b5 * T6::cardinality();
        lemma_digit_step(h6, b6, self.7.position(), T7::cardinality());
        let h7 = h6 * T7::cardinality() + self.7.position();
        let b7 = b6 * T7::cardinality();
        lemma_digit_step(h7, b7, self.8.position(), T8::cardinality());
        let h8 = h7 * T8::cardinality() + self.8.position();
        let b8 = b7 * T8::cardinality();
        lemma_digit_step(h8, b8, self.9.position(), T9::cardinality());
        let h9 = h8 * T9::cardinality() + self.9.position();
        let b9 = b8 * T9::cardinality();
        lemma_digit_step(h9, b9, self.10.position(), T10::cardinality());
        let h10 = h9 * T10::cardinality() + self.10.position();
        let b10 = b9 * T10::cardinality();
    }

    proof fn lemma_at(i: nat) {
        if i < Self::cardinality() {
            let b0 = T0::cardinality();
            let b1 = b0 * T1::cardinality();
            let b2 = b1 * T2::cardinality();
            let b3 = b2 * T3::cardinality();
            let b4 = b3 * T4::cardinality();
            let b5 = b4 * T5::cardinality();
            let b6 = b5 * T6::cardinality();
            let b7 = b6 * T7::cardinality();
            let b8 = b7 * T8::cardinality();
            let b9 = b8 * T9::cardinality();
            let b10 = b9 * T10::cardinality();
            lemma_digit_split(i, b9, T10::cardinality());
            let d10 = i % T10::cardinality();
            let q10 = i / T10::cardinality();
            lemma_digit_split(q10, b8, T9::cardinality());
            let d9 = q10 % T9::cardinality();
            let q9 = q10 / T9::cardinality();
            lemma_digit_split(q9, b7, T8::cardinality());
            let d8 = q9 % T8::cardinality();
            let q8 = q9 / T8::cardinality();
            lemma_digit_split(q8, b6, T7::cardinality());
            let d7 = q8 % T7::cardinality();
            let q7 = q8 / T7::cardinality();
            lemma_digit_split(q7, b5, T6::cardinality());
            let d6 = q7 % T6::cardinality();
            let q6 = q7 / T6::cardinality();
            lemma_digit_split(q6, b4, T5::cardinality());
            let d5 = q6 % T5::cardinality();
            let q5 = q6 / T5::cardinality();
            lemma_digit_split(q5, b3, T4::cardinality());
            let d4 = q5 % T4::cardinality();
            let q4 = q5 / T4::cardinality();
            lemma_digit_split(q4, b2, T3::cardinality());
            let d3 = q4 % T3::cardinality();
            let q3 = q4 / T3::cardinality();
            lemma_digit_split(q3, b1, T2::cardinality());
            let d2 = q3 % T2::cardinality();
            let q2 = q3 / T2::cardinality();
            lemma_digit_split(q2, b0, T1::cardinality());
            let d1 = q2 % T1::cardinality();
            let q1 = q2 / T1::cardinality();
            lemma_digit_step(0, 1, q1, b0);
            let d0 = q1 % T0::cardinality();
            T0::lemma_at(d0);
            T1::lemma_at(d1);
            T2::lemma_at(d2);
            T3::lemma_at(d3);
            T4::lemma_at(d4);
            T5::lemma_at(d5);
            T6::lemma_at(d6);
            T7::lemma_at(d7);
            T8::lemma_at(d8);
            T9::lemma_at(d9);
            T10::lemma_at(d10);
        }
    }

    fn checked_inhabitants() -> (n: Option<usize>) {
        let n0: usize = match T0::checked_inhabitants() {
            Some(n) => n,
            None => {
                return None;
            },
        };
        let n1: usize = match T1::checked_inhabitants() {
            Some(n) => n,
            None => {
                return None;
            },
        };
        let n2: usize = match T2::checked_inhabitants() {
            Some(n) => n,
            None => {
                return None;
            },
        };
        let n3: usize = match T3::checked_inhabitants() {
            Some(n) => n,
            None => {
                return None;
            },
        };
        let n4: usize = match T4::checked_inhabitants() {
            Some(n) => n,
            None => {
                return None;
            },
        };
        let n5: usize = match T5::checked_inhabitants() {
            Some(n) => n,
            None => {
                return None;
            },
        };
        let n6: usize = match T6::checked_inhabitants() {
            Some(n) => n,
            None => {
                return None;
            },
        };
        let n7: usize = match T7::checked_inhabitants() {
            Some(n) => n,
            None => {
                return None;
            },
        };
        let n8: usize = match T8::checked_inhabitants() {
            Some(n) => n,
            None => {
                return None;
            },
        };
        let n9: usize = match T9::checked_inhabitants() {
            Some(n) => n,
            None => {
                return None;
            },
        };
        let n10: usize = match T10::checked_inhabitants() {
            Some(n) => n,
            None => {
                return None;
            },
        };
        proof {
            let b0 = T0::cardinality();
            lemma_factor(b0, T1::cardinality());
            let b1 = b0 * T1::cardinality();
            lemma_factor(b1, T2::cardinality());
            let b2 = b1 * T2::cardinality();
            lemma_factor(b2, T3::cardinality());
            let b3 = b2 * T3::cardinality();
            lemma_factor(b3, T4::cardinality());
            let b4 = b3 * T4::cardinality();
            lemma_factor(b4, T5::cardinality());
            let b5 = b4 * T5::cardinality();
            lemma_factor(b5, T6::cardinality());
            let b6 = b5 * T6::cardinality();
            lemma_factor(b6, T7::cardinality());
            let b7 = b6 * T7::cardinality();
            lemma_factor(b7, T8::cardinality());
            let b8 = b7 * T8::cardinality();
            lemma_factor(b8, T9::cardinality());
            let b9 = b8 * T9::cardinality();
            lemma_factor(b9, T10::cardinality());
            let b10 = b9 * T10::cardinality();
        }
        if n0 == 0 || n1 == 0 || n2 == 0 || n3 == 0 || n4 == 0 || n5 == 0 || n6 == 0 || n7 == 0
            || n8 == 0 || n9 == 0 || n10 == 0 {
            return Some(0);
        }
        let p1: usize = match n0.checked_mul(n1) {
            Some(p) => p,
            None => {
                return None;
            },
        };
        let p2: usize = match p1.checked_mul(n2) {
            Some(p) => p,
            None => {
                return None;
            },
        };
        let p3: usize = match p2.checked_mul(n3) {
            Some(p) => p,
            None => {
                return None;
            },
        };
        let p4: usize = match p3.checked_mul(n4) {
            Some(p) => p,
            None => {
                return None;
            },
        };
        let p5: usize = match p4.checked_mul(n5) {
            Some(p) => p,
            None => {
                return None;
            },
        };
        let p6: usize = match p5.checked_mul(n6) {
            Some(p) => p,
            None => {
                return None;
            },
        };
        let p7: usize = match p6.checked_mul(n7) {
            Some(p) => p,
            None => {
                return None;
            },
        };
        let p8: usize = match p7.checked_mul(n8) {
            Some(p) => p,
            None => {
                return None;
            },
        };
        let p9: usize = match p8.checked_mul(n9) {
            Some(p) => p,
            None => {
                return None;
            },
        };
        let p10: usize = match p9.checked_mul(n10) {
            Some(p) => p,
            None => {
                return None;
            },
        };
        Some(p10)
    }

    fn to_usize(&self) -> (i: usize) {
        let i0: usize = self.0.to_usize();
        let i1: usize = self.1.to_usize();
        let i2: usize = self.2.to_usize();
        let i3: usize = self.3.to_usize();
        let i4: usize = self.4.to_usize();
        let i5: usize = self.5.to_usize();
        let i6: usize = self.6.to_usize();
        let i7: usize = self.7.to_usize();
        let i8: usize = self.8.to_usize();
        let i9: usize = self.9.to_usize();
        let i10: usize = self.10.to_usize();
        proof {
            let h0 = self.0.position();
            let b0 = T0::cardinality();
            lemma_digit_step(h0, b0, self.1.position(), T1::cardinality());
            let h1 = h0 * T1::cardinality() + self.1.position();
            let b1 = b0 * T1::cardinality();
            lemma_digit_step(h1, b1, self.2.position(), T2::cardinality());
            let h2 = h1 * T2::cardinality() + self.2.position();
            let b2 = b1 * T2::cardinality();
            lemma_digit_step(h2, b2, self.3.position(), T3::cardinality());
            let h3 = h2 * T3::cardinality() + self.3.position();
            let b3 = b2 * T3::cardinality();
            lemma_digit_step(h3, b3, self.4.position(), T4::cardinality());
            let h4 = h3 * T4::cardinality() + self.4.position();
            let b4 = b3 * T4::cardinality();
            lemma_digit_step(h4, b4, self.5.position(), T5::cardinality());
            let h5 = h4 * T5::cardinality() + self.5.position();
            let b5 = b4 * T5::cardinality();
            lemma_digit_step(h5, b5, self.6.position(), T6::cardinality());
            let h6 = h5 * T6::cardinality() + self.6.position();
            let b6 = b5 * T6::cardinality();
            lemma_digit_step(h6, b6, self.7.position(), T7::cardinality());
            let h7 = h6 * T7::cardinality() + self.7.position();
            let b7 = b6 * T7::cardinality();
            lemma_digit_step(h7, b7, self.8.position(), T8::cardinality());
            let h8 = h7 * T8::cardinality() + self.8.position();
            let b8 = b7 * T8::cardinality();
            lemma_digit_step(h8, b8, self.9.position(), T9::cardinality());
            let h9 = h8 * T9::cardinality() + self.9.position();
            let b9 = b8 * T9::cardinality();
            lemma_digit_step(h9, b9, self.10.position(), T10::cardinality());
            let h10 = h9 * T10::cardinality() + self.10.position();
            let b10 = b9 * T10::cardinality();
            lemma_factor(b9, T10::cardinality());
            lemma_factor(b8, T9::cardinality());
            lemma_factor(b7, T8::cardinality());
            lemma_factor(b6, T7::cardinality());
            lemma_factor(b5, T6::cardinality());
            lemma_factor(b4, T5::cardinality());
            lemma_factor(b3, T4::cardinality());
            lemma_factor(b2, T3::cardinality());
            lemma_factor(b1, T2::cardinality());
            lemma_factor(b0, T1::cardinality());
        }
        let h1: usize = i0 * T1::inhabitants() + i1;
        let h2: usize = h1 * T2::inhabitants() + i2;
        let h3: usize = h2 * T3::inhabitants() + i3;
        let h4: usize = h3 * T4::inhabitants() + i4;
        let h5: usize = h4 * T5::inhabitants() + i5;
        let h6: usize = h5 * T6::inhabitants() + i6;
        let h7: usize = h6 * T7::inhabitants() + i7;
        let h8: usize = h7 * T8::inhabitants() + i8;
        let h9: usize = h8 * T9::inhabitants() + i9;
        let h10: usize = h9 * T10::inhabitants() + i10;
        h10
    }

    fn from_usize(i: usize) -> (r: Option<Self>) {
        if i >= Self::inhabitants() {
            return None;
        }
        proof {
            let b0 = T0::cardinality();
            let b1 = b0 * T1::cardinality();
            let b2 = b1 * T2::cardinality();
            let b3 = b2 * T3::cardinality();
            let b4 = b3 * T4::cardinality();
            let b5 = b4 * T5::cardinality();
            let b6 = b5 * T6::cardinality();
            let b7 = b6 * T7::cardinality();
            let b8 = b7 * T8::cardinality();
            let b9 = b8 * T9::cardinality();
            let b10 = b9 * T10::cardinality();
            lemma_digit_split(i as nat, b9, T10::cardinality());
            let q10 = (i as nat) / T10::cardinality();
            lemma_digit_split(q10, b8, T9::cardinality());
            let q9 = q10 / T9::cardinality();
            lemma_digit_split(q9, b7, T8::cardinality());
            let q8 = q9 / T8::cardinality();
            lemma_digit_split(q8, b6, T7::cardinality());
            let q7 = q8 / T7::cardinality();
            lemma_digit_split(q7, b5, T6::cardinality());
            let q6 = q7 / T6::cardinality();
            lemma_digit_split(q6, b4, T5::cardinality());
            let q5 = q6 / T5::cardinality();
            lemma_digit_split(q5, b3, T4::cardinality());
            let q4 = q5 / T4::cardinality();
            lemma_digit_split(q4, b2, T3::cardinality());
            let q3 = q4 / T3::cardinality();
            lemma_digit_split(q3, b1, T2::cardinality());
            let q2 = q3 / T2::cardinality();
            lemma_digit_split(q2, b0, T1::cardinality());
            let q1 = q2 / T1::cardinality();
            lemma_digit_step(0, 1, q1, b0);
        }
        let n10: usize = T10::inhabitants();
        let d10: usize = i % n10;
        let q10: usize = i / n10;
        let n9: usize = T9::inhabitants();
        let d9: usize = q10 % n9;
        let q9: usize = q10 / n9;
        let n8: usize = T8::inhabitants();
        let d8: usize = q9 % n8;
        let q8: usize = q9 / n8;
        let n7: usize = T7::inhabitants();
        let d7: usize = q8 % n7;
        let q7: usize = q8 / n7;
        let n6: usize = T6::inhabitants();
        let d6: usize = q7 % n6;
        let q6: usize = q7 / n6;
        let n5: usize = T5::inhabitants();
        let d5: usize = q6 % n5;
        let q5: usize = q6 / n5;
        let n4: usize = T4::inhabitants();
        let d4: usize = q5 % n4;
        let q4: usize = q5 / n4;
        let n3: usize = T3::inhabitants();
        let d3: usize = q4 % n3;
        let q3: usize = q4 / n3;
        let n2: usize = T2::inhabitants();
        let d2: usize = q3 % n2;
        let q2: usize = q3 / n2;
        let n1: usize = T1::inhabitants();
        let d1: usize = q2 % n1;
        let q1: usize = q2 / n1;
        let n0: usize = T0::inhabitants();
        let d0: usize = q1 % n0;
        let v0 = T0::from_usize(d0).unwrap();
        let v1 = T1::from_usize(d1).unwrap();
        let v2 = T2::from_usize(d2).unwrap();
        let v3 = T3::from_usize(d3).unwrap();
        let v4 = T4::from_usize(d4).unwrap();
        let v5 = T5::from_usize(d5).unwrap();
        let v6 = T6::from_usize(d6).unwrap();
        let v7 = T7::from_usize(d7).unwrap();
        let v8 = T8::from_usize(d8).unwrap();
        let v9 = T9::from_usize(d9).unwrap();
        let v10 = T10::from_usize(d10).unwrap();
        Some((v0, v1, v2, v3, v4, v5, v6, v7, v8, v9, v10))
    }
}

/// A tuple of 12 fields.
impl<
    T0: Finite,
    T1: Finite,
    T2: Finite,
    T3: Finite,
    T4: Finite,
    T5: Finite,
    T6: Finite,
    T7: Finite,
    T8: Finite,
    T9: Finite,
    T10: Finite,
    T11: Finite,
> Finite for (T0, T1, T2, T3, T4, T5, T6, T7, T8, T9, T10, T11) {
    open spec fn cardinality() -> nat {
        T0::cardinality() * T1::cardinality() * T2::cardinality() * T3::cardinality()
            * T4::cardinality() * T5::cardinality() * T6::cardinality() * T7::cardinality()
            * T8::cardinality() * T9::cardinality() * T10::cardinality() * T11::cardinality()
    }

    open spec fn fits_in_usize() -> bool {
        &&& T0::fits_in_usize()
        &&& T1::fits_in_usize()
        &&& T2::fits_in_usize()
        &&& T3::fits_in_usize()
        &&& T4::fits_in_usize()
        &&& T5::fits_in_usize()
        &&& T6::fits_in_usize()
        &&& T7::fits_in_usize()
        &&& T8::fits_in_usize()
        &&& T9::fits_in_usize()
        &&& T10::fits_in_usize()
        &&& T11::fits_in_usize()
        &&& Self::cardinality() <= usize::MAX
    }

    open spec fn inhabitant(&self) -> bool {
        &&& self.0.inhabitant()
        &&& self.1.inhabitant()
        &&& self.2.inhabitant()
        &&& self.3.inhabitant()
        &&& self.4.inhabitant()
        &&& self.5.inhabitant()
        &&& self.6.inhabitant()
        &&& self.7.inhabitant()
        &&& self.8.inhabitant()
        &&& self.9.inhabitant()
        &&& self.10.inhabitant()
        &&& self.11.inhabitant()
    }

    open spec fn position(&self) -> nat {
        let h0 = self.0.position();
        let h1 = h0 * T1::cardinality() + self.1.position();
        let h2 = h1 * T2::cardinality() + self.2.position();
        let h3 = h2 * T3::cardinality() + self.3.position();
        let h4 = h3 * T4::cardinality() + self.4.position();
        let h5 = h4 * T5::cardinality() + self.5.position();
        let h6 = h5 * T6::cardinality() + self.6.position();
        let h7 = h6 * T7::cardinality() + self.7.position();
        let h8 = h7 * T8::cardinality() + self.8.position();
        let h9 = h8 * T9::cardinality() + self.9.position();
        let h10 = h9 * T10::cardinality() + self.10.position();
        let h11 = h10 * T11::cardinality() + self.11.position();
        h11
    }

    open spec fn at(i: nat) -> Option<Self> {
        if i < Self::cardinality() {
            let d11 = i % T11::cardinality();
            let q11 = i / T11::cardinality();
            let d10 = q11 % T10::cardinality();
            let q10 = q11 / T10::cardinality();
            let d9 = q10 % T9::cardinality();
            let q9 = q10 / T9::cardinality();
            let d8 = q9 % T8::cardinality();
            let q8 = q9 / T8::cardinality();
            let d7 = q8 % T7::cardinality();
            let q7 = q8 / T7::cardinality();
            let d6 = q7 % T6::cardinality();
            let q6 = q7 / T6::cardinality();
            let d5 = q6 % T5::cardinality();
            let q5 = q6 / T5::cardinality();
            let d4 = q5 % T4::cardinality();
            let q4 = q5 / T4::cardinality();
            let d3 = q4 % T3::cardinality();
            let q3 = q4 / T3::cardinality();
            let d2 = q3 % T2::cardinality();
            let q2 = q3 / T2::cardinality();
            let d1 = q2 % T1::cardinality();
            let q1 = q2 / T1::cardinality();
            let d0 = q1 % T0::cardinality();
            Some(
                (
                    T0::at(d0).unwrap(),
                    T1::at(d1).unwrap(),
                    T2::at(d2).unwrap(),
                    T3::at(d3).unwrap(),
                    T4::at(d4).unwrap(),
                    T5::at(d5).unwrap(),
                    T6::at(d6).unwrap(),
                    T7::at(d7).unwrap(),
                    T8::at(d8).unwrap(),
                    T9::at(d9).unwrap(),
                    T10::at(d10).unwrap(),
                    T11::at(d11).unwrap(),
                ),
            )
        } else {
            None
        }
    }

    proof fn lemma_fits() {
    }

    proof fn lemma_position(&self) {
        self.0.lemma_position();
        self.1.lemma_position();
        self.2.lemma_position();
        self.3.lemma_position();
        self.4.lemma_position();
        self.5.lemma_position();
        self.6.lemma_position();
        self.7.lemma_position();
        self.8.lemma_position();
        self.9.lemma_position();
        self.10.lemma_position();
        self.11.lemma_position();
        let h0 = self.0.position();
        let b0 = T0::cardinality();
        lemma_digit_step(0, 1, h0, b0);
        lemma_digit_step(h0, b0, self.1.position(), T1::cardinality());
        let h1 = h0 * T1::cardinality() + self.1.position();
        let b1 = b0 * T1::cardinality();
        lemma_digit_step(h1, b1, self.2.position(), T2::cardinality());
        let h2 = h1 * T2::cardinality() + self.2.position();
        let b2 = b1 * T2::cardinality();
        lemma_digit_step(h2, b2, self.3.position(), T3::cardinality());
        let h3 = h2 * T3::cardinality() + self.3.position();
        let b3 = b2 * T3::cardinality();
        lemma_digit_step(h3, b3, self.4.position(), T4::cardinality());
        let h4 = h3 * T4::cardinality() + self.4.position();
        let b4 = b3 * T4::cardinality();
        lemma_digit_step(h4, b4, self.5.position(), T5::cardinality());
        let h5 = h4 * T5::cardinality() + self.5.position();
        let b5 = b4 * T5::cardinality();
        lemma_digit_step(h5, b5, self.6.position(), T6::cardinality());
        let h6 = h5 * T6::cardinality() + self.6.position();
        let b6 = b5 * T6::cardinality();
        lemma_digit_step(h6, b6, self.7.position(), T7::cardinality());
        let h7 = h6 * T7::cardinality() + self.7.position();
        let b7 = b6 * T7::cardinality();
        lemma_digit_step(h7, b7, self.8.position(), T8::cardinality());
        let h8 = h7 * T8::cardinality() + self.8.position();
        let b8 = b7 * T8::cardinality();
        lemma_digit_step(h8, b8, self.9.position(), T9::cardinality());
        let h9 = h8 * T9::cardinality() + self.9.position();
        let b9 = b8 * T9::cardinality();
        lemma_digit_step(h9, b9, self.10.position(), T10::cardinality());
        let h10 = h9 * T10::cardinality() + self.10.position();
        let b10 = b9 * T10::cardinality();
        lemma_digit_step(h10, b10, self.11.position(), T11::cardinality());
        let h11 = h10 * T11::cardinality() + self.11.position();
        let b11 = b10 * T11::cardinality();
    }

    proof fn lemma_at(i: nat) {
        if i < Self::cardinality() {
            let b0 = T0::cardinality();
            let b1 = b0 * T1::cardinality();
            let b2 = b1 * T2::cardinality();
            let b3 = b2 * T3::cardinality();
            let b4 = b3 * T4::cardinality();
            let b5 = b4 * T5::cardinality();
            let b6 = b5 * T6::cardinality();
            let b7 = b6 * T7::cardinality();
            let b8 = b7 * T8::cardinality();
            let b9 = b8 * T9::cardinality();
            let b10 = b9 * T10::cardinality();
            let b11 = b10 * T11::cardinality();
            lemma_digit_split(i, b10, T11::cardinality());
            let d11 = i % T11::cardinality();
            let q11 = i / T11::cardinality();
            lemma_digit_split(q11, b9, T10::cardinality());
            let d10 = q11 % T10::cardinality();
            let q10 = q11 / T10::cardinality();
            lemma_digit_split(q10, b8, T9::cardinality());
            let d9 = q10 % T9::cardinality();
            let q9 = q10 / T9::cardinality();
            lemma_digit_split(q9, b7, T8::cardinality());
            let d8 = q9 % T8::cardinality();
            let q8 = q9 / T8::cardinality();
            lemma_digit_split(q8, b6, T7::cardinality());
            let d7 = q8 % T7::cardinality();
            let q7 = q8 / T7::cardinality();
            lemma_digit_split(q7, b5, T6::cardinality());
            let d6 = q7 % T6::cardinality();
            let q6 = q7 / T6::cardinality();
            lemma_digit_split(q6, b4, T5::cardinality());
            let d5 = q6 % T5::cardinality();
            let q5 = q6 / T5::cardinality();
            lemma_digit_split(q5, b3, T4::cardinality());
            let d4 = q5 % T4::cardinality();
            let q4 = q5 / T4::cardinality();
            lemma_digit_split(q4, b2, T3::cardinality());
            let d3 = q4 % T3::cardinality();
            let q3 = q4 / T3::cardinality();
            lemma_digit_split(q3, b1, T2::cardinality());
            let d2 = q3 % T2::cardinality();
            let q2 = q3 / T2::cardinality();
            lemma_digit_split(q2, b0, T1::cardinality());
            let d1 = q2 % T1::cardinality();
            let q1 = q2 / T1::cardinality();
            lemma_digit_step(0, 1, q1, b0);
            let d0 = q1 % T0::cardinality();
            T0::lemma_at(d0);
            T1::lemma_at(d1);
            T2::lemma_at(d2);
            T3::lemma_at(d3);
            T4::lemma_at(d4);
            T5::lemma_at(d5);
            T6::lemma_at(d6);
            T7::lemma_at(d7);
            T8::lemma_at(d8);
            T9::lemma_at(d9);
            T10::lemma_at(d10);
            T11::lemma_at(d11);
        }
    }

    fn checked_inhabitants() -> (n: Option<usize>) {
        let n0: usize = match T0::checked_inhabitants() {
            Some(n) => n,
            None => {
                return None;
            },
        };
        let n1: usize = match T1::checked_inhabitants() {
            Some(n) => n,
            None => {
                return None;
            },
        };
        let n2: usize = match T2::checked_inhabitants() {
            Some(n) => n,
            None => {
                return None;
            },
        };
        let n3: usize = match T3::checked_inhabitants() {
            Some(n) => n,
            None => {
                return None;
            },
        };
        let n4: usize = match T4::checked_inhabitants() {
            Some(n) => n,
            None => {
                return None;
            },
        };
        let n5: usize = match T5::checked_inhabitants() {
            Some(n) => n,
            None => {
                return None;
            },
        };
        let n6: usize = match T6::checked_inhabitants() {
            Some(n) => n,
            None => {
                return None;
            },
        };
        let n7: usize = match T7::checked_inhabitants() {
            Some(n) => n,
            None => {
                return None;
            },
        };
        let n8: usize = match T8::checked_inhabitants() {
            Some(n) => n,
            None => {
                return None;
            },
        };
        let n9: usize = match T9::checked_inhabitants() {
            Some(n) => n,
            None => {
                return None;
            },
        };
        let n10: usize = match T10::checked_inhabitants() {
            Some(n) => n,
            None => {
                return None;
            },
        };
        let n11: usize = match T11::checked_inhabitants() {
            Some(n) => n,
            None => {
                return None;
            },
        };
        proof {
            let b0 = T0::cardinality();
            lemma_factor(b0, T1::cardinality());
            let b1 = b0 * T1::cardinality();
            lemma_factor(b1, T2::cardinality());
            let b2 = b1 * T2::cardinality();
            lemma_factor(b2, T3::cardinality());
            let b3 = b2 * T3::cardinality();
            lemma_factor(b3, T4::cardinality());
            let b4 = b3 * T4::cardinality();
            lemma_factor(b4, T5::cardinality());
            let b5 = b4 * T5::cardinality();
            lemma_factor(b5, T6::cardinality());
            let b6 = b5 * T6::cardinality();
            lemma_factor(b6, T7::cardinality());
            let b7 = b6 * T7::cardinality();
            lemma_factor(b7, T8::cardinality());
            let b8 = b7 * T8::cardinality();
            lemma_factor(b8, T9::cardinality());
            let b9 = b8 * T9::cardinality();
            lemma_factor(b9, T10::cardinality());
            let b10 = b9 * T10::cardinality();
            lemma_factor(b10, T11::cardinality());
            let b11 = b10 * T11::cardinality();
        }
        if n0 == 0 || n1 == 0 || n2 == 0 || n3 == 0 || n4 == 0 || n5 == 0 || n6 == 0 || n7 == 0
            || n8 == 0 || n9 == 0 || n10 == 0 || n11 == 0 {
            return Some(0);
        }
        let p1: usize = match n0.checked_mul(n1) {
            Some(p) => p,
            None => {
                return None;
            },
        };
        let p2: usize = match p1.checked_mul(n2) {
            Some(p) => p,
            None => {
                return None;
            },
        };
        let p3: usize = match p2.checked_mul(n3) {
            Some(p) => p,
            None => {
                return None;
            },
        };
        let p4: usize = match p3.checked_mul(n4) {
            Some(p) => p,
            None => {
                return None;
            },
        };
        let p5: usize = match p4.checked_mul(n5) {
            Some(p) => p,
            None => {
                return None;
            },
        };
        let p6: usize = match p5.checked_mul(n6) {
            Some(p) => p,
            None => {
                return None;
            },
        };
        let p7: usize = match p6.checked_mul(n7) {
            Some(p) => p,
            None => {
                return None;
            },
        };
        let p8: usize = match p7.checked_mul(n8) {
            Some(p) => p,
            None => {
                return None;
            },
        };
        let p9: usize = match p8.checked_mul(n9) {
            Some(p) => p,
            None => {
                return None;
            },
        };
        let p10: usize = match p9.checked_mul(n10) {
            Some(p) => p,
            None => {
                return None;
            },
        };
        let p11: usize = match p10.checked_mul(n11) {
            Some(p) => p,
            None => {
                return None;
            },
        };
        Some(p11)
    }

    fn to_usize(&self) -> (i: usize) {
        let i0: usize = self.0.to_usize();
        let i1: usize = self.1.to_usize();
        let i2: usize = self.2.to_usize();
        let i3: usize = self.3.to_usize();
        let i4: usize = self.4.to_usize();
        let i5: usize = self.5.to_usize();
        let i6: usize = self.6.to_usize();
        let i7: usize = self.7.to_usize();
        let i8: usize = self.8.to_usize();
        let i9: usize = self.9.to_usize();
        let i10: usize = self.10.to_usize();
        let i11: usize = self.11.to_usize();
        proof {
            let h0 = self.0.position();
            let b0 = T0::cardinality();
            lemma_digit_step(h0, b0, self.1.position(), T1::cardinality());
            let h1 = h0 * T1::cardinality() + self.1.position();
            let b1 = b0 * T1::cardinality();
            lemma_digit_step(h1, b1, self.2.position(), T2::cardinality());
            let h2 = h1 * T2::cardinality() + self.2.position();
            let b2 = b1 * T2::cardinality();
            lemma_digit_step(h2, b2, self.3.position(), T3::cardinality());
            let h3 = h2 * T3::cardinality() + self.3.position();
            let b3 = b2 * T3::cardinality();
            lemma_digit_step(h3, b3, self.4.position(), T4::cardinality());
            let h4 = h3 * T4::cardinality() + self.4.position();
            let b4 = b3 * T4::cardinality();
            lemma_digit_step(h4, b4, self.5.position(), T5::cardinality());
            let h5 = h4 * T5::cardinality() + self.5.position();
            let b5 = b4 * T5::cardinality();
            lemma_digit_step(h5, b5, self.6.position(), T6::cardinality());
            let h6 = h5 * T6::cardinality() + self.6.position();
            let b6 = b5 * T6::cardinality();
            lemma_digit_step(h6, b6, self.7.position(), T7::cardinality());
            let h7 = h6 * T7::cardinality() + self.7.position();
            let b7 = b6 * T7::cardinality();
            lemma_digit_step(h7, b7, self.8.position(), T8::cardinality());
            let h8 = h7 * T8::cardinality() + self.8.position();
            let b8 = b7 * T8::cardinality();
            lemma_digit_step(h8, b8, self.9.position(), T9::cardinality());
            let h9 = h8 * T9::cardinality() + self.9.position();
            let b9 = b8 * T9::cardinality();
            lemma_digit_step(h9, b9, self.10.position(), T10::cardinality());
            let h10 = h9 * T10::cardinality() + self.10.position();
            let b10 = b9 * T10::cardinality();
            lemma_digit_step(h10, b10, self.11.position(), T11::cardinality());
            let h11 = h10 * T11::cardinality() + self.11.position();
            let b11 = b10 * T11::cardinality();
            lemma_factor(b10, T11::cardinality());
            lemma_factor(b9, T10::cardinality());
            lemma_factor(b8, T9::cardinality());
            lemma_factor(b7, T8::cardinality());
            lemma_factor(b6, T7::cardinality());
            lemma_factor(b5, T6::cardinality());
            lemma_factor(b4, T5::cardinality());
            lemma_factor(b3, T4::cardinality());
            lemma_factor(b2, T3::cardinality());
            lemma_factor(b1, T2::cardinality());
            lemma_factor(b0, T1::cardinality());
        }
        let h1: usize = i0 * T1::inhabitants() + i1;
        let h2: usize = h1 * T2::inhabitants() + i2;
        let h3: usize = h2 * T3::inhabitants() + i3;
        let h4: usize = h3 * T4::inhabitants() + i4;
        let h5: usize = h4 * T5::inhabitants() + i5;
        let h6: usize = h5 * T6::inhabitants() + i6;
        let h7: usize = h6 * T7::inhabitants() + i7;
        let h8: usize = h7 * T8::inhabitants() + i8;
        let h9: usize = h8 * T9::inhabitants() + i9;
        let h10: usize = h9 * T10::inhabitants() + i10;
        let h11: usize = h10 * T11::inhabitants() + i11;
        h11
    }

    fn from_usize(i: usize) -> (r: Option<Self>) {
        if i >= Self::inhabitants() {
            return None;
        }
        proof {
            let b0 = T0::cardinality();
            let b1 = b0 * T1::cardinality();
            let b2 = b1 * T2::cardinality();
            let b3 = b2 * T3::cardinality();
            let b4 = b3 * T4::cardinality();
            let b5 = b4 * T5::cardinality();
            let b6 = b5 * T6::cardinality();
            let b7 = b6 * T7::cardinality();
            let b8 = b7 * T8::cardinality();
            let b9 = b8 * T9::cardinality();
            let b10 = b9 * T10::cardinality();
            let b11 = b10 * T11::cardinality();
            lemma_digit_split(i as nat, b10, T11::cardinality());
            let q11 = (i as nat) / T11::cardinality();
            lemma_digit_split(q11, b9, T10::cardinality());
            let q10 = q11 / T10::cardinality();
            lemma_digit_split(q10, b8, T9::cardinality());
            let q9 = q10 / T9::cardinality();
            lemma_digit_split(q9, b7, T8::cardinality());
            let q8 = q9 / T8::cardinality();
            lemma_digit_split(q8, b6, T7::cardinality());
            let q7 = q8 / T7::cardinality();
            lemma_digit_split(q7, b5, T6::cardinality());
            let q6 = q7 / T6::cardinality();
            lemma_digit_split(q6, b4, T5::cardinality());
            let q5 = q6 / T5::cardinality();
            lemma_digit_split(q5, b3, T4::cardinality());
            let q4 = q5 / T4::cardinality();
            lemma_digit_split(q4, b2, T3::cardinality());
            let q3 = q4 / T3::cardinality();
            lemma_digit_split(q3, b1, T2::cardinality());
            let q2 = q3 / T2::cardinality();
            lemma_digit_split(q2, b0, T1::cardinality());
            let q1 = q2 / T1::cardinality();
            lemma_digit_step(0, 1, q1, b0);
        }
        let n11: usize = T11::inhabitants();
        let d11: usize = i % n11;
        let q11: usize = i / n11;
        let n10: usize = T10::inhabitants();
        let d10: usize = q11 % n10;
        let q10: usize = q11 / n10;
        let n9: usize = T9::inhabitants();
        let d9: usize = q10 % n9;
        let q9: usize = q10 / n9;
        let n8: usize = T8::inhabitants();
        let d8: usize = q9 % n8;
        let q8: usize = q9 / n8;
        let n7: usize = T7::inhabitants();
        let d7: usize = q8 % n7;
        let q7: usize = q8 / n7;
        let n6: usize = T6::inhabitants();
        let d6: usize = q7 % n6;
        let q6: usize = q7 / n6;
        let n5: usize = T5::inhabitants();
        let d5: usize = q6 % n5;
        let q5: usize = q6 / n5;
        let n4: usize = T4::inhabitants();
        let d4: usize = q5 % n4;
        let q4: usize = q5 / n4;
        let n3: usize = T3::inhabitants();
        let d3: usize = q4 % n3;
        let q3: usize = q4 / n3;
        let n2: usize = T2::inhabitants();
        let d2: usize = q3 % n2;
        let q2: usize = q3 / n2;
        let n1: usize = T1::inhabitants();
        let d1: usize = q2 % n1;
        let q1: usize = q2 / n1;
        let n0: usize = T0::inhabitants();
        let d0: usize = q1 % n0;
        let v0 = T0::from_usize(d0).unwrap();
        let v1 = T1::from_usize(d1).unwrap();
        let v2 = T2::from_usize(d2).unwrap();
        let v3 = T3::from_usize(d3).unwrap();
        let v4 = T4::from_usize(d4).unwrap();
        let v5 = T5::from_usize(d5).unwrap();
        let v6 = T6::from_usize(d6).unwrap();
        let v7 = T7::from_usize(d7).unwrap();
        let v8 = T8::from_usize(d8).unwrap();
        let v9 = T9::from_usize(d9).unwrap();
        let v10 = T10::from_usize(d10).unwrap();
        let v11 = T11::from_usize(d11).unwrap();
        Some((v0, v1, v2, v3, v4, v5, v6, v7, v8, v9, v10, v11))
    }
}

/// A tuple of 13 fields.
impl<
    T0: Finite,
    T1: Finite,
    T2: Finite,
    T3: Finite,
    T4: Finite,
    T5: Finite,
    T6: Finite,
    T7: Finite,
    T8: Finite,
    T9: Finite,
    T10: Finite,
    T11: Finite,
    T12: Finite,
> Finite for (T0, T1, T2, T3, T4, T5, T6, T7, T8, T9, T10, T11, T12) {
    open spec fn cardinality() -> nat {
        T0::cardinality() * T1::cardinality() * T2::cardinality() * T3::cardinality()
            * T4::cardinality() * T5::cardinality() * T6::cardinality() * T7::cardinality()
            * T8::cardinality() * T9::cardinality() * T10::cardinality() * T11::cardinality()
            * T12::cardinality()
    }

    open spec fn fits_in_usize() -> bool {
        &&& T0::fits_in_usize()
        &&& T1::fits_in_usize()
        &&& T2::fits_in_usize()
        &&& T3::fits_in_usize()
        &&& T4::fits_in_usize()
        &&& T5::fits_in_usize()
        &&& T6::fits_in_usize()
        &&& T7::fits_in_usize()
        &&& T8::fits_in_usize()
        &&& T9::fits_in_usize()
        &&& T10::fits_in_usize()
        &&& T11::fits_in_usize()
        &&& T12::fits_in_usize()
        &&& Self::cardinality() <= usize::MAX
    }

    open spec fn inhabitant(&self) -> bool {
        &&& self.0.inhabitant()
        &&& self.1.inhabitant()
        &&& self.2.inhabitant()
        &&& self.3.inhabitant()
        &&& self.4.inhabitant()
        &&& self.5.inhabitant()
        &&& self.6.inhabitant()
        &&& self.7.inhabitant()
        &&& self.8.inhabitant()
        &&& self.9.inhabitant()
        &&& self.10.inhabitant()
        &&& self.11.inhabitant()
        &&& self.12.inhabitant()
    }

    open spec fn position(&self) -> nat {
        let h0 = self.0.position();
        let h1 = h0 * T1::cardinality() + self.1.position();
        let h2 = h1 * T2::cardinality() + self.2.position();
        let h3 = h2 * T3::cardinality() + self.3.position();
        let h4 = h3 * T4::cardinality() + self.4.position();
        let h5 = h4 * T5::cardinality() + self.5.position();
        let h6 = h5 * T6::cardinality() + self.6.position();
        let h7 = h6 * T7::cardinality() + self.7.position();
        let h8 = h7 * T8::cardinality() + self.8.position();
        let h9 = h8 * T9::cardinality() + self.9.position();
        let h10 = h9 * T10::cardinality() + self.10.position();
        let h11 = h10 * T11::cardinality() + self.11.position();
        let h12 = h11 * T12::cardinality() + self.12.position();
        h12
    }

    open spec fn at(i: nat) -> Option<Self> {
        if i < Self::cardinality() {
            let d12 = i % T12::cardinality();
            let q12 = i / T12::cardinality();
            let d11 = q12 % T11::cardinality();
            let q11 = q12 / T11::cardinality();
            let d10 = q11 % T10::cardinality();
            let q10 = q11 / T10::cardinality();
            let d9 = q10 % T9::cardinality();
            let q9 = q10 / T9::cardinality();
            let d8 = q9 % T8::cardinality();
            let q8 = q9 / T8::cardinality();
            let d7 = q8 % T7::cardinality();
            let q7 = q8 / T7::cardinality();
            let d6 = q7 % T6::cardinality();
            let q6 = q7 / T6::cardinality();
            let d5 = q6 % T5::cardinality();
            let q5 = q6 / T5::cardinality();
            let d4 = q5 % T4::cardinality();
            let q4 = q5 / T4::cardinality();
            let d3 = q4 % T3::cardinality();
            let q3 = q4 / T3::cardinality();
            let d2 = q3 % T2::cardinality();
            let q2 = q3 / T2::cardinality();
            let d1 = q2 % T1::cardinality();
            let q1 = q2 / T1::cardinality();
            let d0 = q1 % T0::cardinality();
            Some(
                (
                    T0::at(d0).unwrap(),
                    T1::at(d1).unwrap(),
                    T2::at(d2).unwrap(),
                    T3::at(d3).unwrap(),
                    T4::at(d4).unwrap(),
                    T5::at(d5).unwrap(),
                    T6::at(d6).unwrap(),
                    T7::at(d7).unwrap(),
                    T8::at(d8).unwrap(),
                    T9::at(d9).unwrap(),
                    T10::at(d10).unwrap(),
                    T11::at(d11).unwrap(),
                    T12::at(d12).unwrap(),
                ),
            )
        } else {
            None
        }
    }

    proof fn lemma_fits() {
    }

    proof fn lemma_position(&self) {
        self.0.lemma_position();
        self.1.lemma_position();
        self.2.lemma_position();
        self.3.lemma_position();
        self.4.lemma_position();
        self.5.lemma_position();
        self.6.lemma_position();
        self.7.lemma_position();
        self.8.lemma_position();
        self.9.lemma_position();
        self.10.lemma_position();
        self.11.lemma_position();
        self.12.lemma_position();
        let h0 = self.0.position();
        let b0 = T0::cardinality();
        lemma_digit_step(0, 1, h0, b0);
        lemma_digit_step(h0, b0, self.1.position(), T1::cardinality());
        let h1 = h0 * T1::cardinality() + self.1.position();
        let b1 = b0 * T1::cardinality();
        lemma_digit_step(h1, b1, self.2.position(), T2::cardinality());
        let h2 = h1 * T2::cardinality() + self.2.position();
        let b2 = b1 * T2::cardinality();
        lemma_digit_step(h2, b2, self.3.position(), T3::cardinality());
        let h3 = h2 * T3::cardinality() + self.3.position();
        let b3 = b2 * T3::cardinality();
        lemma_digit_step(h3, b3, self.4.position(), T4::cardinality());
        let h4 = h3 * T4::cardinality() + self.4.position();
        let b4 = b3 * T4::cardinality();
        lemma_digit_step(h4, b4, self.5.position(), T5::cardinality());
        let h5 = h4 * T5::cardinality() + self.5.position();
        let b5 = b4 * T5::cardinality();
        lemma_digit_step(h5, b5, self.6.position(), T6::cardinality());
        let h6 = h5 * T6::cardinality() + self.6.position();
        let b6 = b5 * T6::cardinality();
        lemma_digit_step(h6, b6, self.7.position(), T7::cardinality());
        let h7 = h6 * T7::cardinality() + self.7.position();
        let b7 = b6 * T7::cardinality();
        lemma_digit_step(h7, b7, self.8.position(), T8::cardinality());
        let h8 = h7 * T8::cardinality() + self.8.position();
        let b8 = b7 * T8::cardinality();
        lemma_digit_step(h8, b8, self.9.position(), T9::cardinality());
        let h9 = h8 * T9::cardinality() + self.9.position();
        let b9 = b8 * T9::cardinality();
        lemma_digit_step(h9, b9, self.10.position(), T10::cardinality());
        let h10 = h9 * T10::cardinality() + self.10.position();
        let b10 = b9 * T10::cardinality();
        lemma_digit_step(h10, b10, self.11.position(), T11::cardinality());
        let h11 = h10 * T11::cardinality() + self.11.position();
        let b11 = b10 * T11::cardinality();
        lemma_digit_step(h11, b11, self.12.position(), T12::cardinality());
        let h12 = h11 * T12::cardinality() + self.12.position();
        let b12 = b11 * T12::cardinality();
    }

    proof fn lemma_at(i: nat) {
        if i < Self::cardinality() {
            let b0 = T0::cardinality();
            let b1 = b0 * T1::cardinality();
            let b2 = b1 * T2::cardinality();
            let b3 = b2 * T3::cardinality();
            let b4 = b3 * T4::cardinality();
            let b5 = b4 * T5::cardinality();
            let b6 = b5 * T6::cardinality();
            let b7 = b6 * T7::cardinality();
            let b8 = b7 * T8::cardinality();
            let b9 = b8 * T9::cardinality();
            let b10 = b9 * T10::cardinality();
            let b11 = b10 * T11::cardinality();
            let b12 = b11 * T12::cardinality();
            lemma_digit_split(i, b11, T12::cardinality());
            let d12 = i % T12::cardinality();
            let q12 = i / T12::cardinality();
            lemma_digit_split(q12, b10, T11::cardinality());
            let d11 = q12 % T11::cardinality();
            let q11 = q12 / T11::cardinality();
            lemma_digit_split(q11, b9, T10::cardinality());
            let d10 = q11 % T10::cardinality();
            let q10 = q11 / T10::cardinality();
            lemma_digit_split(q10, b8, T9::cardinality());
            let d9 = q10 % T9::cardinality();
            let q9 = q10 / T9::cardinality();
            lemma_digit_split(q9, b7, T8::cardinality());
            let d8 = q9 % T8::cardinality();
            let q8 = q9 / T8::cardinality();
            lemma_digit_split(q8, b6, T7::cardinality());
            let d7 = q8 % T7::cardinality();
            let q7 = q8 / T7::cardinality();
            lemma_digit_split(q7, b5, T6::cardinality());
            let d6 = q7 % T6::cardinality();
            let q6 = q7 / T6::cardinality();
            lemma_digit_split(q6, b4, T5::cardinality());
            let d5 = q6 % T5::cardinality();
            let q5 = q6 / T5::cardinality();
            lemma_digit_split(q5, b3, T4::cardinality());
            let d4 = q5 % T4::cardinality();
            let q4 = q5 / T4::cardinality();
            lemma_digit_split(q4, b2, T3::cardinality());
            let d3 = q4 % T3::cardinality();
            let q3 = q4 / T3::cardinality();
            lemma_digit_split(q3, b1, T2::cardinality());
            let d2 = q3 % T2::cardinality();
            let q2 = q3 / T2::cardinality();
            lemma_digit_split(q2, b0, T1::cardinality());
            let d1 = q2 % T1::cardinality();
            let q1 = q2 / T1::cardinality();
            lemma_digit_step(0, 1, q1, b0);
            let d0 = q1 % T0::cardinality();
            T0::lemma_at(d0);
            T1::lemma_at(d1);
            T2::lemma_at(d2);
            T3::lemma_at(d3);
            T4::lemma_at(d4);
            T5::lemma_at(d5);
            T6::lemma_at(d6);
            T7::lemma_at(d7);
            T8::lemma_at(d8);
            T9::lemma_at(d9);
            T10::lemma_at(d10);
            T11::lemma_at(d11);
            T12::lemma_at(d12);
        }
    }

    fn checked_inhabitants() -> (n: Option<usize>) {
        let n0: usize = match T0::checked_inhabitants() {
            Some(n) => n,
            None => {
                return None;
            },
        };
        let n1: usize = match T1::checked_inhabitants() {
            Some(n) => n,
            None => {
                return None;
            },
        };
        let n2: usize = match T2::checked_inhabitants() {
            Some(n) => n,
            None => {
                return None;
            },
        };
        let n3: usize = match T3::checked_inhabitants() {
            Some(n) => n,
            None => {
                return None;
            },
        };
        let n4: usize = match T4::checked_inhabitants() {
            Some(n) => n,
            None => {
                return None;
            },
        };
        let n5: usize = match T5::checked_inhabitants() {
            Some(n) => n,
            None => {
                return None;
            },
        };
        let n6: usize = match T6::checked_inhabitants() {
            Some(n) => n,
            None => {
                return None;
            },
        };
        let n7: usize = match T7::checked_inhabitants() {
            Some(n) => n,
            None => {
                return None;
            },
        };
        let n8: usize = match T8::checked_inhabitants() {
            Some(n) => n,
            None => {
                return None;
            },
        };
        let n9: usize = match T9::checked_inhabitants() {
            Some(n) => n,
            None => {
                return None;
            },
        };
        let n10: usize = match T10::checked_inhabitants() {
            Some(n) => n,
            None => {
                return None;
            },
        };
        let n11: usize = match T11::checked_inhabitants() {
            Some(n) => n,
            None => {
                return None;
            },
        };
        let n12: usize = match T12::checked_inhabitants() {
            Some(n) => n,
            None => {
                return None;
            },
        };
        proof {
            let b0 = T0::cardinality();
            lemma_factor(b0, T1::cardinality());
            let b1 = b0 * T1::cardinality();
            lemma_factor(b1, T2::cardinality());
            let b2 = b1 * T2::cardinality();
            lemma_factor(b2, T3::cardinality());
            let b3 = b2 * T3::cardinality();
            lemma_factor(b3, T4::cardinality());
            let b4 = b3 * T4::cardinality();
            lemma_factor(b4, T5::cardinality());
            let b5 = b4 * T5::cardinality();
            lemma_factor(b5, T6::cardinality());
            let b6 = b5 * T6::cardinality();
            lemma_factor(b6, T7::cardinality());
            let b7 = b6 * T7::cardinality();
            lemma_factor(b7, T8::cardinality());
            let b8 = b7 * T8::cardinality();
            lemma_factor(b8, T9::cardinality());
            let b9 = b8 * T9::cardinality();
            lemma_factor(b9, T10::cardinality());
            let b10 = b9 * T10::cardinality();
            lemma_factor(b10, T11::cardinality());
            let b11 = b10 * T11::cardinality();
            lemma_factor(b11, T12::cardinality());
            let b12 = b11 * T12::cardinality();
        }
        if n0 == 0 || n1 == 0 || n2 == 0 || n3 == 0 || n4 == 0 || n5 == 0 || n6 == 0 || n7 == 0
            || n8 == 0 || n9 == 0 || n10 == 0 || n11 == 0 || n12 == 0 {
            return Some(0);
        }
        let p1: usize = match n0.checked_mul(n1) {
            Some(p) => p,
            None => {
                return None;
            },
        };
        let p2: usize = match p1.checked_mul(n2) {
            Some(p) => p,
            None => {
                return None;
            },
        };
        let p3: usize = match p2.checked_mul(n3) {
            Some(p) => p,
            None => {
                return None;
            },
        };
        let p4: usize = match p3.checked_mul(n4) {
            Some(p) => p,
            None => {
                return None;
            },
        };
        let p5: usize = match p4.checked_mul(n5) {
            Some(p) => p,
            None => {
                return None;
            },
        };
        let p6: usize = match p5.checked_mul(n6) {
            Some(p) => p,
            None => {
                return None;
            },
        };
        let p7: usize = match p6.checked_mul(n7) {
            Some(p) => p,
            None => {
                return None;
            },
        };
        let p8: usize = match p7.checked_mul(n8) {
            Some(p) => p,
            None => {
                return None;
            },
        };
        let p9: usize = match p8.checked_mul(n9) {
            Some(p) => p,
            None => {
                return None;
            },
        };
        let p10: usize = match p9.checked_mul(n10) {
            Some(p) => p,
            None => {
                return None;
            },
        };
        let p11: usize = match p10.checked_mul(n11) {
            Some(p) => p,
            None => {
                return None;
            },
        };
        let p12: usize = match p11.checked_mul(n12) {
            Some(p) => p,
            None => {
                return None;
            },
        };
        Some(p12)
    }

    fn to_usize(&self) -> (i: usize) {
        let i0: usize = self.0.to_usize();
        let i1: usize = self.1.to_usize();
        let i2: usize = self.2.to_usize();
        let i3: usize = self.3.to_usize();
        let i4: usize = self.4.to_usize();
        let i5: usize = self.5.to_usize();
        let i6: usize = self.6.to_usize();
        let i7: usize = self.7.to_usize();
        let i8: usize = self.8.to_usize();
        let i9: usize = self.9.to_usize();
        let i10: usize = self.10.to_usize();
        let i11: usize = self.11.to_usize();
        let i12: usize = self.12.to_usize();
        proof {
            let h0 = self.0.position();
            let b0 = T0::cardinality();
            lemma_digit_step(h0, b0, self.1.position(), T1::cardinality());
            let h1 = h0 * T1::cardinality() + self.1.position();
            let b1 = b0 * T1::cardinality();
            lemma_digit_step(h1, b1, self.2.position(), T2::cardinality());
            let h2 = h1 * T2::cardinality() + self.2.position();
            let b2 = b1 * T2::cardinality();
            lemma_digit_step(h2, b2, self.3.position(), T3::cardinality());
            let h3 = h2 * T3::cardinality() + self.3.position();
            let b3 = b2 * T3::cardinality();
            lemma_digit_step(h3, b3, self.4.position(), T4::cardinality());
            let h4 = h3 * T4::cardinality() + self.4.position();
            let b4 = b3 * T4::cardinality();
            lemma_digit_step(h4, b4, self.5.position(), T5::cardinality());
            let h5 = h4 * T5::cardinality() + self.5.position();
            let b5 = b4 * T5::cardinality();
            lemma_digit_step(h5, b5, self.6.position(), T6::cardinality());
            let h6 = h5 * T6::cardinality() + self.6.position();
            let b6 = b5 * T6::cardinality();
            lemma_digit_step(h6, b6, self.7.position(), T7::cardinality());
            let h7 = h6 * T7::cardinality() + self.7.position();
            let b7 = b6 * T7::cardinality();
            lemma_digit_step(h7, b7, self.8.position(), T8::cardinality());
            let h8 = h7 * T8::cardinality() + self.8.position();
            let b8 = b7 * T8::cardinality();
            lemma_digit_step(h8, b8, self.9.position(), T9::cardinality());
            let h9 = h8 * T9::cardinality() + self.9.position();
            let b9 = b8 * T9::cardinality();
            lemma_digit_step(h9, b9, self.10.position(), T10::cardinality());
            let h10 = h9 * T10::cardinality() + self.10.position();
            let b10 = b9 * T10::cardinality();
            lemma_digit_step(h10, b10, self.11.position(), T11::cardinality());
            let h11 = h10 * T11::cardinality() + self.11.position();
            let b11 = b10 * T11::cardinality();
            lemma_digit_step(h11, b11, self.12.position(), T12::cardinality());
            let h12 = h11 * T12::cardinality() + self.12.position();
            let b12 = b11 * T12::cardinality();
            lemma_factor(b11, T12::cardinality());
            lemma_factor(b10, T11::cardinality());
            lemma_factor(b9, T10::cardinality());
            lemma_factor(b8, T9::cardinality());
            lemma_factor(b7, T8::cardinality());
            lemma_factor(b6, T7::cardinality());
            lemma_factor(b5, T6::cardinality());
            lemma_factor(b4, T5::cardinality());
            lemma_factor(b3, T4::cardinality());
            lemma_factor(b2, T3::cardinality());
            lemma_factor(b1, T2::cardinality());
            lemma_factor(b0, T1::cardinality());
        }
        let h1: usize = i0 * T1::inhabitants() + i1;
        let h2: usize = h1 * T2::inhabitants() + i2;
        let h3: usize = h2 * T3::inhabitants() + i3;
        let h4: usize = h3 * T4::inhabitants() + i4;
        let h5: usize = h4 * T5::inhabitants() + i5;
        let h6: usize = h5 * T6::inhabitants() + i6;
        let h7: usize = h6 * T7::inhabitants() + i7;
        let h8: usize = h7 * T8::inhabitants() + i8;
        let h9: usize = h8 * T9::inhabitants() + i9;
        let h10: usize = h9 * T10::inhabitants() + i10;
        let h11: usize = h10 * T11::inhabitants() + i11;
        let h12: usize = h11 * T12::inhabitants() + i12;
        h12
    }

    fn from_usize(i: usize) -> (r: Option<Self>) {
        if i >= Self::inhabitants() {
            return None;
        }
        proof {
            let b0 = T0::cardinality();
            let b1 = b0 * T1::cardinality();
            let b2 = b1 * T2::cardinality();
            let b3 = b2 * T3::cardinality();
            let b4 = b3 * T4::cardinality();
            let b5 = b4 * T5::cardinality();
            let b6 = b5 * T6::cardinality();
            let b7 = b6 * T7::cardinality();
            let b8 = b7 * T8::cardinality();
            let b9 = b8 * T9::cardinality();
            let b10 = b9 * T10::cardinality();
            let b11 = b10 * T11::cardinality();
            let b12 = b11 * T12::cardinality();
            lemma_digit_split(i as nat, b11, T12::cardinality());
            let q12 = (i as nat) / T12::cardinality();
            lemma_digit_split(q12, b10, T11::cardinality());
            let q11 = q12 / T11::cardinality();
            lemma_digit_split(q11, b9, T10::cardinality());
            let q10 = q11 / T10::cardinality();
            lemma_digit_split(q10, b8, T9::cardinality());
            let q9 = q10 / T9::cardinality();
            lemma_digit_split(q9, b7, T8::cardinality());
            let q8 = q9 / T8::cardinality();
            lemma_digit_split(q8, b6, T7::cardinality());
            let q7 = q8 / T7::cardinality();
            lemma_digit_split(q7, b5, T6::cardinality());
            let q6 = q7 / T6::cardinality();
            lemma_digit_split(q6, b4, T5::cardinality());
            let q5 = q6 / T5::cardinality();
            lemma_digit_split(q5, b3, T4::cardinality());
            let q4 = q5 / T4::cardinality();
            lemma_digit_split(q4, b2, T3::cardinality());
            let q3 = q4 / T3::cardinality();
            lemma_digit_split(q3, b1, T2::cardinality());
            let q2 = q3 / T2::cardinality();
            lemma_digit_split(q2, b0, T1::cardinality());
            let q1 = q2 / T1::cardinality();
            lemma_digit_step(0, 1, q1, b0);
        }
        let n12: usize = T12::inhabitants();
        let d12: usize = i % n12;
        let q12: usize = i / n12;
        let n11: usize = T11::inhabitants();
        let d11: usize = q12 % n11;
        let q11: usize = q12 / n11;
        let n10: usize = T10::inhabitants();
        let d10: usize = q11 % n10;
        let q10: usize = q11 / n10;
        let n9: usize = T9::inhabitants();
        let d9: usize = q10 % n9;
        let q9: usize = q10 / n9;
        let n8: usize = T8::inhabitants();
        let d8: usize = q9 % n8;
        let q8: usize = q9 / n8;
        let n7: usize = T7::inhabitants();
        let d7: usize = q8 % n7;
        let q7: usize = q8 / n7;
        let n6: usize = T6::inhabitants();
        let d6: usize = q7 % n6;
        let q6: usize = q7 / n6;
        let n5: usize = T5::inhabitants();
        let d5: usize = q6 % n5;
        let q5: usize = q6 / n5;
        let n4: usize = T4::inhabitants();
        let d4: usize = q5 % n4;
        let q4: usize = q5 / n4;
        let n3: usize = T3::inhabitants();
        let d3: usize = q4 % n3;
        let q3: usize = q4 / n3;
        let n2: usize = T2::inhabitants();
        let d2: usize = q3 % n2;
        let q2: usize = q3 / n2;
        let n1: usize = T1::inhabitants();
        let d1: usize = q2 % n1;
        let q1: usize = q2 / n1;
        let n0: usize = T0::inhabitants();
        let d0: usize = q1 % n0;
        let v0 = T0::from_usize(d0).unwrap();
        let v1 = T1::from_usize(d1).unwrap();
        let v2 = T2::from_usize(d2).unwrap();
        let v3 = T3::from_usize(d3).unwrap();
        let v4 = T4::from_usize(d4).unwrap();
        let v5 = T5::from_usize(d5).unwrap();
        let v6 = T6::from_usize(d6).unwrap();
        let v7 = T7::from_usize(d7).unwrap();
        let v8 = T8::from_usize(d8).unwrap();
        let v9 = T9::from_usize(d9).unwrap();
        let v10 = T10::from_usize(d10).unwrap();
        let v11 = T11::from_usize(d11).unwrap();
        let v12 = T12::from_usize(d12).unwrap();
        Some((v0, v1, v2, v3, v4, v5, v6, v7, v8, v9, v10, v11, v12))
    }
}

/// A tuple of 14 fields.
impl<
    T0: Finite,
    T1: Finite,
    T2: Finite,
    T3: Finite,
    T4: Finite,
    T5: Finite,
    T6: Finite,
    T7: Finite,
    T8: Finite,
    T9: Finite,
    T10: Finite,
    T11: Finite,
    T12: Finite,
    T13: Finite,
> Finite for (T0, T1, T2, T3, T4, T5, T6, T7, T8, T9, T10, T11, T12, T13) {
    open spec fn cardinality() -> nat {
        T0::cardinality() * T1::cardinality() * T2::cardinality() * T3::cardinality()
            * T4::cardinality() * T5::cardinality() * T6::cardinality() * T7::cardinality()
            * T8::cardinality() * T9::cardinality() * T10::cardinality() * T11::cardinality()
            * T12::cardinality() * T13::cardinality()
    }

    open spec fn fits_in_usize() -> bool {
        &&& T0::fits_in_usize()
        &&& T1::fits_in_usize()
        &&& T2::fits_in_usize()
        &&& T3::fits_in_usize()
        &&& T4::fits_in_usize()
        &&& T5::fits_in_usize()
        &&& T6::fits_in_usize()
        &&& T7::fits_in_usize()
        &&& T8::fits_in_usize()
        &&& T9::fits_in_usize()
        &&& T10::fits_in_usize()
        &&& T11::fits_in_usize()
        &&& T12::fits_in_usize()
        &&& T13::fits_in_usize()
        &&& Self::cardinality() <= usize::MAX
    }

    open spec fn inhabitant(&self) -> bool {
        &&& self.0.inhabitant()
        &&& self.1.inhabitant()
        &&& self.2.inhabitant()
        &&& self.3.inhabitant()
        &&& self.4.inhabitant()
        &&& self.5.inhabitant()
        &&& self.6.inhabitant()
        &&& self.7.inhabitant()
        &&& self.8.inhabitant()
        &&& self.9.inhabitant()
        &&& self.10.inhabitant()
        &&& self.11.inhabitant()
        &&& self.12.inhabitant()
        &&& self.13.inhabitant()
    }

    open spec fn position(&self) -> nat {
        let h0 = self.0.position();
        let h1 = h0 * T1::cardinality() + self.1.position();
        let h2 = h1 * T2::cardinality() + self.2.position();
        let h3 = h2 * T3::cardinality() + self.3.position();
        let h4 = h3 * T4::cardinality() + self.4.position();
        let h5 = h4 * T5::cardinality() + self.5.position();
        let h6 = h5 * T6::cardinality() + self.6.position();
        let h7 = h6 * T7::cardinality() + self.7.position();
        let h8 = h7 * T8::cardinality() + self.8.position();
        let h9 = h8 * T9::cardinality() + self.9.position();
        let h10 = h9 * T10::cardinality() + self.10.position();
        let h11 = h10 * T11::cardinality() + self.11.position();
        let h12 = h11 * T12::cardinality() + self.12.position();
        let h13 = h12 * T13::cardinality() + self.13.position();
        h13
    }

    open spec fn at(i: nat) -> Option<Self> {
        if i < Self::cardinality() {
            let d13 = i % T13::cardinality();
            let q13 = i / T13::cardinality();
            let d12 = q13 % T12::cardinality();
            let q12 = q13 / T12::cardinality();
            let d11 = q12 % T11::cardinality();
            let q11 = q12 / T11::cardinality();
            let d10 = q11 % T10::cardinality();
            let q10 = q11 / T10::cardinality();
            let d9 = q10 % T9::cardinality();
            let q9 = q10 / T9::cardinality();
            let d8 = q9 % T8::cardinality();
            let q8 = q9 / T8::cardinality();
            let d7 = q8 % T7::cardinality();
            let q7 = q8 / T7::cardinality();
            let d6 = q7 % T6::cardinality();
            let q6 = q7 / T6::cardinality();
            let d5 = q6 % T5::cardinality();
            let q5 = q6 / T5::cardinality();
            let d4 = q5 % T4::cardinality();
            let q4 = q5 / T4::cardinality();
            let d3 = q4 % T3::cardinality();
            let q3 = q4 / T3::cardinality();
            let d2 = q3 % T2::cardinality();
            let q2 = q3 / T2::cardinality();
            let d1 = q2 % T1::cardinality();
            let q1 = q2 / T1::cardinality();
            let d0 = q1 % T0::cardinality();
            Some(
                (
                    T0::at(d0).unwrap(),
                    T1::at(d1).unwrap(),
                    T2::at(d2).unwrap(),
                    T3::at(d3).unwrap(),
                    T4::at(d4).unwrap(),
                    T5::at(d5).unwrap(),
                    T6::at(d6).unwrap(),
                    T7::at(d7).unwrap(),
                    T8::at(d8).unwrap(),
                    T9::at(d9).unwrap(),
                    T10::at(d10).unwrap(),
                    T11::at(d11).unwrap(),
                    T12::at(d12).unwrap(),
                    T13::at(d13).unwrap(),
                ),
            )
        } else {
            None
        }
    }

    proof fn lemma_fits() {
    }

    proof fn lemma_position(&self) {
        self.0.lemma_position();
        self.1.lemma_position();
        self.2.lemma_position();
        self.3.lemma_position();
        self.4.lemma_position();
        self.5.lemma_position();
        self.6.lemma_position();
        self.7.lemma_position();
        self.8.lemma_position();
        self.9.lemma_position();
        self.10.lemma_position();
        self.11.lemma_position();
        self.12.lemma_position();
        self.13.lemma_position();
        let h0 = self.0.position();
        let b0 = T0::cardinality();
        lemma_digit_step(0, 1, h0, b0);
        lemma_digit_step(h0, b0, self.1.position(), T1::cardinality());
        let h1 = h0 * T1::cardinality() + self.1.position();
        let b1 = b0 * T1::cardinality();
        lemma_digit_step(h1, b1, self.2.position(), T2::cardinality());
        let h2 = h1 * T2::cardinality() + self.2.position();
        let b2 = b1 * T2::cardinality();
        lemma_digit_step(h2, b2, self.3.position(), T3::cardinality());
        let h3 = h2 * T3::cardinality() + self.3.position();
        let b3 = b2 * T3::cardinality();
        lemma_digit_step(h3, b3, self.4.position(), T4::cardinality());
        let h4 = h3 * T4::cardinality() + self.4.position();
        let b4 = b3 * T4::cardinality();
        lemma_digit_step(h4, b4, self.5.position(), T5::cardinality());
        let h5 = h4 * T5::cardinality() + self.5.position();
        let b5 = b4 * T5::cardinality();
        lemma_digit_step(h5, b5, self.6.position(), T6::cardinality());
        let h6 = h5 * T6::cardinality() + self.6.position();
        let b6 = b5 * T6::cardinality();
        lemma_digit_step(h6, b6, self.7.position(), T7::cardinality());
        let h7 = h6 * T7::cardinality() + self.7.position();
        let b7 = b6 * T7::cardinality();
        lemma_digit_step(h7, b7, self.8.position(), T8::cardinality());
        let h8 = h7 * T8::cardinality() + self.8.position();
        let b8 = b7 * T8::cardinality();
        lemma_digit_step(h8, b8, self.9.position(), T9::cardinality());
        let h9 = h8 * T9::cardinality() + self.9.position();
        let b9 = b8 * T9::cardinality();
        lemma_digit_step(h9, b9, self.10.position(), T10::cardinality());
        let h10 = h9 * T10::cardinality() + self.10.position();
        let b10 = b9 * T10::cardinality();
        lemma_digit_step(h10, b10, self.11.position(), T11::cardinality());
        let h11 = h10 * T11::cardinality() + self.11.position();
        let b11 = b10 * T11::cardinality();
        lemma_digit_step(h11, b11, self.12.position(), T12::cardinality());
        let h12 = h11 * T12::cardinality() + self.12.position();
        let b12 = b11 * T12::cardinality();
        lemma_digit_step(h12, b12, self.13.position(), T13::cardinality());
        let h13 = h12 * T13::cardinality() + self.13.position();
        let b13 = b12 * T13::cardinality();
    }

    proof fn lemma_at(i: nat) {
        if i < Self::cardinality() {
            let b0 = T0::cardinality();
            let b1 = b0 * T1::cardinality();
            let b2 = b1 * T2::cardinality();
            let b3 = b2 * T3::cardinality();
            let b4 = b3 * T4::cardinality();
            let b5 = b4 * T5::cardinality();
            let b6 = b5 * T6::cardinality();
            let b7 = b6 * T7::cardinality();
            let b8 = b7 * T8::cardinality();
            let b9 = b8 * T9::cardinality();
            let b10 = b9 * T10::cardinality();
            let b11 = b10 * T11::cardinality();
            let b12 = b11 * T12::cardinality();
            let b13 = b12 * T13::cardinality();
            lemma_digit_split(i, b12, T13::cardinality());
            let d13 = i % T13::cardinality();
            let q13 = i / T13::cardinality();
            lemma_digit_split(q13, b11, T12::cardinality());
            let d12 = q13 % T12::cardinality();
            let q12 = q13 / T12::cardinality();
            lemma_digit_split(q12, b10, T11::cardinality());
            let d11 = q12 % T11::cardinality();
            let q11 = q12 / T11::cardinality();
            lemma_digit_split(q11, b9, T10::cardinality());
            let d10 = q11 % T10::cardinality();
            let q10 = q11 / T10::cardinality();
            lemma_digit_split(q10, b8, T9::cardinality());
            let d9 = q10 % T9::cardinality();
            let q9 = q10 / T9::cardinality();
            lemma_digit_split(q9, b7, T8::cardinality());
            let d8 = q9 % T8::cardinality();
            let q8 = q9 / T8::cardinality();
            lemma_digit_split(q8, b6, T7::cardinality());
            let d7 = q8 % T7::cardinality();
            let q7 = q8 / T7::cardinality();
            lemma_digit_split(q7, b5, T6::cardinality());
            let d6 = q7 % T6::cardinality();
            let q6 = q7 / T6::cardinality();
            lemma_digit_split(q6, b4, T5::cardinality());
            let d5 = q6 % T5::cardinality();
            let q5 = q6 / T5::cardinality();
            lemma_digit_split(q5, b3, T4::cardinality());
            let d4 = q5 % T4::cardinality();
            let q4 = q5 / T4::cardinality();
            lemma_digit_split(q4, b2, T3::cardinality());
            let d3 = q4 % T3::cardinality();
            let q3 = q4 / T3::cardinality();
            lemma_digit_split(q3, b1, T2::cardinality());
            let d2 = q3 % T2::cardinality();
            let q2 = q3 / T2::cardinality();
            lemma_digit_split(q2, b0, T1::cardinality());
            let d1 = q2 % T1::cardinality();
            let q1 = q2 / T1::cardinality();
            lemma_digit_step(0, 1, q1, b0);
            let d0 = q1 % T0::cardinality();
            T0::lemma_at(d0);
            T1::lemma_at(d1);
            T2::lemma_at(d2);
            T3::lemma_at(d3);
            T4::lemma_at(d4);
            T5::lemma_at(d5);
            T6::lemma_at(d6);
            T7::lemma_at(d7);
            T8::lemma_at(d8);
            T9::lemma_at(d9);
            T10::lemma_at(d10);
            T11::lemma_at(d11);
            T12::lemma_at(d12);
            T13::lemma_at(d13);
        }
    }

    fn checked_inhabitants() -> (n: Option<usize>) {
        let n0: usize = match T0::checked_inhabitants() {
            Some(n) => n,
            None => {
                return None;
            },
        };
        let n1: usize = match T1::checked_inhabitants() {
            Some(n) => n,
            None => {
                return None;
            },
        };
        let n2: usize = match T2::checked_inhabitants() {
            Some(n) => n,
            None => {
                return None;
            },
        };
        let n3: usize = match T3::checked_inhabitants() {
            Some(n) => n,
            None => {
                return None;
            },
        };
        let n4: usize = match T4::checked_inhabitants() {
            Some(n) => n,
            None => {
                return None;
            },
        };
        let n5: usize = match T5::checked_inhabitants() {
            Some(n) => n,
            None => {
                return None;
            },
        };
        let n6: usize = match T6::checked_inhabitants() {
            Some(n) => n,
            None => {
                return None;
            },
        };
        let n7: usize = match T7::checked_inhabitants() {
            Some(n) => n,
            None => {
                return None;
            },
        };
        let n8: usize = match T8::checked_inhabitants() {
            Some(n) => n,
            None => {
                return None;
            },
        };
        let n9: usize = match T9::checked_inhabitants() {
            Some(n) => n,
            None => {
                return None;
            },
        };
        let n10: usize = match T10::checked_inhabitants() {
            Some(n) => n,
            None => {
                return None;
            },
        };
        let n11: usize = match T11::checked_inhabitants() {
            Some(n) => n,
            None => {
                return None;
            },
        };
        let n12: usize = match T12::checked_inhabitants() {
            Some(n) => n,
            None => {
                return None;
            },
        };
        let n13: usize = match T13::checked_inhabitants() {
            Some(n) => n,
            None => {
                return None;
            },
        };
        proof {
            let b0 = T0::cardinality();
            lemma_factor(b0, T1::cardinality());
            let b1 = b0 * T1::cardinality();
            lemma_factor(b1, T2::cardinality());
            let b2 = b1 * T2::cardinality();
            lemma_factor(b2, T3::cardinality());
            let b3 = b2 * T3::cardinality();
            lemma_factor(b3, T4::cardinality());
            let b4 = b3 * T4::cardinality();
            lemma_factor(b4, T5::cardinality());
            let b5 = b4 * T5::cardinality();
            lemma_factor(b5, T6::cardinality());
            let b6 = b5 * T6::cardinality();
            lemma_factor(b6, T7::cardinality());
            let b7 = b6 * T7::cardinality();
            lemma_factor(b7, T8::cardinality());
            let b8 = b7 * T8::cardinality();
            lemma_factor(b8, T9::cardinality());
            let b9 = b8 * T9::cardinality();
            lemma_factor(b9, T10::cardinality());
            let b10 = b9 * T10::cardinality();
            lemma_factor(b10, T11::cardinality());
            let b11 = b10 * T11::cardinality();
            lemma_factor(b11, T12::cardinality());
            let b12 = b11 * T12::cardinality();
            lemma_factor(b12, T13::cardinality());
            let b13 = b12 * T13::cardinality();
        }
        if n0 == 0 || n1 == 0 || n2 == 0 || n3 == 0 || n4 == 0 || n5 == 0 || n6 == 0 || n7 == 0
            || n8 == 0 || n9 == 0 || n10 == 0 || n11 == 0 || n12 == 0 || n13 == 0 {
            return Some(0);
        }
        let p1: usize = match n0.checked_mul(n1) {
            Some(p) => p,
            None => {
                return None;
            },
        };
        let p2: usize = match p1.checked_mul(n2) {
            Some(p) => p,
            None => {
                return None;
            },
        };
        let p3: usize = match p2.checked_mul(n3) {
            Some(p) => p,
            None => {
                return None;
            },
        };
        let p4: usize = match p3.checked_mul(n4) {
            Some(p) => p,
            None => {
                return None;
            },
        };
        let p5: usize = match p4.checked_mul(n5) {
            Some(p) => p,
            None => {
                return None;
            },
        };
        let p6: usize = match p5.checked_mul(n6) {
            Some(p) => p,
            None => {
                return None;
            },
        };
        let p7: usize = match p6.checked_mul(n7) {
            Some(p) => p,
            None => {
                return None;
            },
        };
        let p8: usize = match p7.checked_mul(n8) {
            Some(p) => p,
            None => {
                return None;
            },
        };
        let p9: usize = match p8.checked_mul(n9) {
            Some(p) => p,
            None => {
                return None;
            },
        };
        let p10: usize = match p9.checked_mul(n10) {
            Some(p) => p,
            None => {
                return None;
            },
        };
        let p11: usize = match p10.checked_mul(n11) {
            Some(p) => p,
            None => {
                return None;
            },
        };
        let p12: usize = match p11.checked_mul(n12) {
            Some(p) => p,
            None => {
                return None;
            },
        };
        let p13: usize = match p12.checked_mul(n13) {
            Some(p) => p,
            None => {
                return None;
            },
        };
        Some(p13)
    }

    fn to_usize(&self) -> (i: usize) {
        let i0: usize = self.0.to_usize();
        let i1: usize = self.1.to_usize();
        let i2: usize = self.2.to_usize();
        let i3: usize = self.3.to_usize();
        let i4: usize = self.4.to_usize();
        let i5: usize = self.5.to_usize();
        let i6: usize = self.6.to_usize();
        let i7: usize = self.7.to_usize();
        let i8: usize = self.8.to_usize();
        let i9: usize = self.9.to_usize();
        let i10: usize = self.10.to_usize();
        let i11: usize = self.11.to_usize();
        let i12: usize = self.12.to_usize();
        let i13: usize = self.13.to_usize();
        proof {
            let h0 = self.0.position();
            let b0 = T0::cardinality();
            lemma_digit_step(h0, b0, self.1.position(), T1::cardinality());
            let h1 = h0 * T1::cardinality() + self.1.position();
            let b1 = b0 * T1::cardinality();
            lemma_digit_step(h1, b1, self.2.position(), T2::cardinality());
            let h2 = h1 * T2::cardinality() + self.2.position();
            let b2 = b1 * T2::cardinality();
            lemma_digit_step(h2, b2, self.3.position(), T3::cardinality());
            let h3 = h2 * T3::cardinality() + self.3.position();
            let b3 = b2 * T3::cardinality();
            lemma_digit_step(h3, b3, self.4.position(), T4::cardinality());
            let h4 = h3 * T4::cardinality() + self.4.position();
            let b4 = b3 * T4::cardinality();
            lemma_digit_step(h4, b4, self.5.position(), T5::cardinality());
            let h5 = h4 * T5::cardinality() + self.5.position();
            let b5 = b4 * T5::cardinality();
            lemma_digit_step(h5, b5, self.6.position(), T6::cardinality());
            let h6 = h5 * T6::cardinality() + self.6.position();
            let b6 = b5 * T6::cardinality();
            lemma_digit_step(h6, b6, self.7.position(), T7::cardinality());
            let h7 = h6 * T7::cardinality() + self.7.position();
            let b7 = b6 * T7::cardinality();
            lemma_digit_step(h7, b7, self.8.position(), T8::cardinality());
            let h8 = h7 * T8::cardinality() + self.8.position();
            let b8 = b7 * T8::cardinality();
            lemma_digit_step(h8, b8, self.9.position(), T9::cardinality());
            let h9 = h8 * T9::cardinality() + self.9.position();
            let b9 = b8 * T9::cardinality();
            lemma_digit_step(h9, b9, self.10.position(), T10::cardinality());
            let h10 = h9 * T10::cardinality() + self.10.position();
            let b10 = b9 * T10::cardinality();
            lemma_digit_step(h10, b10, self.11.position(), T11::cardinality());
            let h11 = h10 * T11::cardinality() + self.11.position();
            let b11 = b10 * T11::cardinality();
            lemma_digit_step(h11, b11, self.12.position(), T12::cardinality());
            let h12 = h11 * T12::cardinality() + self.12.position();
            let b12 = b11 * T12::cardinality();
            lemma_digit_step(h12, b12, self.13.position(), T13::cardinality());
            let h13 = h12 * T13::cardinality() + self.13.position();
            let b13 = b12 * T13::cardinality();
            lemma_factor(b12, T13::cardinality());
            lemma_factor(b11, T12::cardinality());
            lemma_factor(b10, T11::cardinality());
            lemma_factor(b9, T10::cardinality());
            lemma_factor(b8, T9::cardinality());
            lemma_factor(b7, T8::cardinality());
            lemma_factor(b6, T7::cardinality());
            lemma_factor(b5, T6::cardinality());
            lemma_factor(b4, T5::cardinality());
            lemma_factor(b3, T4::cardinality());
            lemma_factor(b2, T3::cardinality());
            lemma_factor(b1, T2::cardinality());
            lemma_factor(b0, T1::cardinality());
        }
        let h1: usize = i0 * T1::inhabitants() + i1;
        let h2: usize = h1 * T2::inhabitants() + i2;
        let h3: usize = h2 * T3::inhabitants() + i3;
        let h4: usize = h3 * T4::inhabitants() + i4;
        let h5: usize = h4 * T5::inhabitants() + i5;
        let h6: usize = h5 * T6::inhabitants() + i6;
        let h7: usize = h6 * T7::inhabitants() + i7;
        let h8: usize = h7 * T8::inhabitants() + i8;
        let h9: usize = h8 * T9::inhabitants() + i9;
        let h10: usize = h9 * T10::inhabitants() + i10;
        let h11: usize = h10 * T11::inhabitants() + i11;
        let h12: usize = h11 * T12::inhabitants() + i12;
        let h13: usize = h12 * T13::inhabitants() + i13;
        h13
    }

    fn from_usize(i: usize) -> (r: Option<Self>) {
        if i >= Self::inhabitants() {
            return None;
        }
        proof {
            let b0 = T0::cardinality();
            let b1 = b0 * T1::cardinality();
            let b2 = b1 * T2::cardinality();
            let b3 = b2 * T3::cardinality();
            let b4 = b3 * T4::cardinality();
            let b5 = b4 * T5::cardinality();
            let b6 = b5 * T6::cardinality();
            let b7 = b6 * T7::cardinality();
            let b8 = b7 * T8::cardinality();
            let b9 = b8 * T9::cardinality();
            let b10 = b9 * T10::cardinality();
            let b11 = b10 * T11::cardinality();
            let b12 = b11 * T12::cardinality();
            let b13 = b12 * T13::cardinality();
            lemma_digit_split(i as nat, b12, T13::cardinality());
            let q13 = (i as nat) / T13::cardinality();
            lemma_digit_split(q13, b11, T12::cardinality());
            let q12 = q13 / T12::cardinality();
            lemma_digit_split(q12, b10, T11::cardinality());
            let q11 = q12 / T11::cardinality();
            lemma_digit_split(q11, b9, T10::cardinality());
            let q10 = q11 / T10::cardinality();
            lemma_digit_split(q10, b8, T9::cardinality());
            let q9 = q10 / T9::cardinality();
            lemma_digit_split(q9, b7, T8::cardinality());
            let q8 = q9 / T8::cardinality();
            lemma_digit_split(q8, b6, T7::cardinality());
            let q7 = q8 / T7::cardinality();
            lemma_digit_split(q7, b5, T6::cardinality());
            let q6 = q7 / T6::cardinality();
            lemma_digit_split(q6, b4, T5::cardinality());
            let q5 = q6 / T5::cardinality();
            lemma_digit_split(q5, b3, T4::cardinality());
            let q4 = q5 / T4::cardinality();
            lemma_digit_split(q4, b2, T3::cardinality());
            let q3 = q4 / T3::cardinality();
            lemma_digit_split(q3, b1, T2::cardinality());
            let q2 = q3 / T2::cardinality();
            lemma_digit_split(q2, b0, T1::cardinality());
            let q1 = q2 / T1::cardinality();
            lemma_digit_step(0, 1, q1, b0);
        }
        let n13: usize = T13::inhabitants();
        let d13: usize = i % n13;
        let q13: usize = i / n13;
        let n12: usize = T12::inhabitants();
        let d12: usize = q13 % n12;
        let q12: usize = q13 / n12;
        let n11: usize = T11::inhabitants();
        let d11: usize = q12 % n11;
        let q11: usize = q12 / n11;
        let n10: usize = T10::inhabitants();
        let d10: usize = q11 % n10;
        let q10: usize = q11 / n10;
        let n9: usize = T9::inhabitants();
        let d9: usize = q10 % n9;
        let q9: usize = q10 / n9;
        let n8: usize = T8::inhabitants();
        let d8: usize = q9 % n8;
        let q8: usize = q9 / n8;
        let n7: usize = T7::inhabitants();
        let d7: usize = q8 % n7;
        let q7: usize = q8 / n7;
        let n6: usize = T6::inhabitants();
        let d6: usize = q7 % n6;
        let q6: usize = q7 / n6;
        let n5: usize = T5::inhabitants();
        let d5: usize = q6 % n5;
        let q5: usize = q6 / n5;
        let n4: usize = T4::inhabitants();
        let d4: usize = q5 % n4;
        let q4: usize = q5 / n4;
        let n3: usize = T3::inhabitants();
        let d3: usize = q4 % n3;
        let q3: usize = q4 / n3;
        let n2: usize = T2::inhabitants();
        let d2: usize = q3 % n2;
        let q2: usize = q3 / n2;
        let n1: usize = T1::inhabitants();
        let d1: usize = q2 % n1;
        let q1: usize = q2 / n1;
        let n0: usize = T0::inhabitants();
        let d0: usize = q1 % n0;
        let v0 = T0::from_usize(d0).unwrap();
        let v1 = T1::from_usize(d1).unwrap();
        let v2 = T2::from_usize(d2).unwrap();
        let v3 = T3::from_usize(d3).unwrap();
        let v4 = T4::from_usize(d4).unwrap();
        let v5 = T5::from_usize(d5).unwrap();
        let v6 = T6::from_usize(d6).unwrap();
        let v7 = T7::from_usize(d7).unwrap();
        let v8 = T8::from_usize(d8).unwrap();
        let v9 = T9::from_usize(d9).unwrap();
        let v10 = T10::from_usize(d10).unwrap();
        let v11 = T11::from_usize(d11).unwrap();
        let v12 = T12::from_usize(d12).unwrap();
        let v13 = T13::from_usize(d13).unwrap();
        Some((v0, v1, v2, v3, v4, v5, v6, v7, v8, v9, v10, v11, v12, v13))
    }
}

/// A tuple of 15 fields.
impl<
    T0: Finite,
    T1: Finite,
    T2: Finite,
    T3: Finite,
    T4: Finite,
    T5: Finite,
    T6: Finite,
    T7: Finite,
    T8: Finite,
    T9: Finite,
    T10: Finite,
    T11: Finite,
    T12: Finite,
    T13: Finite,
    T14: Finite,
> Finite for (T0, T1, T2, T3, T4, T5, T6, T7, T8, T9, T10, T11, T12, T13, T14) {
    open spec fn cardinality() -> nat {
        T0::cardinality() * T1::cardinality() * T2::cardinality() * T3::cardinality()
            * T4::cardinality() * T5::cardinality() * T6::cardinality() * T7::cardinality()
            * T8::cardinality() * T9::cardinality() * T10::cardinality() * T11::cardinality()
            * T12::cardinality() * T13::cardinality() * T14::cardinality()
    }

    open spec fn fits_in_usize() -> bool {
        &&& T0::fits_in_usize()
        &&& T1::fits_in_usize()
        &&& T2::fits_in_usize()
        &&& T3::fits_in_usize()
        &&& T4::fits_in_usize()
        &&& T5::fits_in_usize()
        &&& T6::fits_in_usize()
        &&& T7::fits_in_usize()
        &&& T8::fits_in_usize()
        &&& T9::fits_in_usize()
        &&& T10::fits_in_usize()
        &&& T11::fits_in_usize()
        &&& T12::fits_in_usize()
        &&& T13::fits_in_usize()
        &&& T14::fits_in_usize()
        &&& Self::cardinality() <= usize::MAX
    }

    open spec fn inhabitant(&self) -> bool {
        &&& self.0.inhabitant()
        &&& self.1.inhabitant()
        &&& self.2.inhabitant()
        &&& self.3.inhabitant()
        &&& self.4.inhabitant()
        &&& self.5.inhabitant()
        &&& self.6.inhabitant()
        &&& self.7.inhabitant()
        &&& self.8.inhabitant()
        &&& self.9.inhabitant()
        &&& self.10.inhabitant()
        &&& self.11.inhabitant()
        &&& self.12.inhabitant()
        &&& self.13.inhabitant()
        &&& self.14.inhabitant()
    }

    open spec fn position(&self) -> nat {
        let h0 = self.0.position();
        let h1 = h0 * T1::cardinality() + self.1.position();
        let h2 = h1 * T2::cardinality() + self.2.position();
        let h3 = h2 * T3::cardinality() + self.3.position();
        let h4 = h3 * T4::cardinality() + self.4.position();
        let h5 = h4 * T5::cardinality() + self.5.position();
        let h6 = h5 * T6::cardinality() + self.6.position();
        let h7 = h6 * T7::cardinality() + self.7.position();
        let h8 = h7 * T8::cardinality() + self.8.position();
        let h9 = h8 * T9::cardinality() + self.9.position();
        let h10 = h9 * T10::cardinality() + self.10.position();
        let h11 = h10 * T11::cardinality() + self.11.position();
        let h12 = h11 * T12::cardinality() + self.12.position();
        let h13 = h12 * T13::cardinality() + self.13.position();
        let h14 = h13 * T14::cardinality() + self.14.position();
        h14
    }

    open spec fn at(i: nat) -> Option<Self> {
        if i < Self::cardinality() {
            let d14 = i % T14::cardinality();
            let q14 = i / T14::cardinality();
            let d13 = q14 % T13::cardinality();
            let q13 = q14 / T13::cardinality();
            let d12 = q13 % T12::cardinality();
            let q12 = q13 / T12::cardinality();
            let d11 = q12 % T11::cardinality();
            let q11 = q12 / T11::cardinality();
            let d10 = q11 % T10::cardinality();
            let q10 = q11 / T10::cardinality();
            let d9 = q10 % T9::cardinality();
            let q9 = q10 / T9::cardinality();
            let d8 = q9 % T8::cardinality();
            let q8 = q9 / T8::cardinality();
            let d7 = q8 % T7::cardinality();
            let q7 = q8 / T7::cardinality();
            let d6 = q7 % T6::cardinality();
            let q6 = q7 / T6::cardinality();
            let d5 = q6 % T5::cardinality();
            let q5 = q6 / T5::cardinality();
            let d4 = q5 % T4::cardinality();
            let q4 = q5 / T4::cardinality();
            let d3 = q4 % T3::cardinality();
            let q3 = q4 / T3::cardinality();
            let d2 = q3 % T2::cardinality();
            let q2 = q3 / T2::cardinality();
            let d1 = q2 % T1::cardinality();
            let q1 = q2 / T1::cardinality();
            let d0 = q1 % T0::cardinality();
            Some(
                (
                    T0::at(d0).unwrap(),
                    T1::at(d1).unwrap(),
                    T2::at(d2).unwrap(),
                    T3::at(d3).unwrap(),
                    T4::at(d4).unwrap(),
                    T5::at(d5).unwrap(),
                    T6::at(d6).unwrap(),
                    T7::at(d7).unwrap(),
                    T8::at(d8).unwrap(),
                    T9::at(d9).unwrap(),
                    T10::at(d10).unwrap(),
                    T11::at(d11).unwrap(),
                    T12::at(d12).unwrap(),
                    T13::at(d13).unwrap(),
                    T14::at(d14).unwrap(),
                ),
            )
        } else {
            None
        }
    }

    proof fn lemma_fits() {
    }

    proof fn lemma_position(&self) {
        self.0.lemma_position();
        self.1.lemma_position();
        self.2.lemma_position();
        self.3.lemma_position();
        self.4.lemma_position();
        self.5.lemma_position();
        self.6.lemma_position();
        self.7.lemma_position();
        self.8.lemma_position();
        self.9.lemma_position();
        self.10.lemma_position();
        self.11.lemma_position();
        self.12.lemma_position();
        self.13.lemma_position();
        self.14.lemma_position();
        let h0 = self.0.position();
        let b0 = T0::cardinality();
        lemma_digit_step(0, 1, h0, b0);
        lemma_digit_step(h0, b0, self.1.position(), T1::cardinality());
        let h1 = h0 * T1::cardinality() + self.1.position();
        let b1 = b0 * T1::cardinality();
        lemma_digit_step(h1, b1, self.2.position(), T2::cardinality());
        let h2 = h1 * T2::cardinality() + self.2.position();
        let b2 = b1 * T2::cardinality();
        lemma_digit_step(h2, b2, self.3.position(), T3::cardinality());
        let h3 = h2 * T3::cardinality() + self.3.position();
        let b3 = b2 * T3::cardinality();
        lemma_digit_step(h3, b3, self.4.position(), T4::cardinality());
        let h4 = h3 * T4::cardinality() + self.4.position();
        let b4 = b3 * T4::cardinality();
        lemma_digit_step(h4, b4, self.5.position(), T5::cardinality());
        let h5 = h4 * T5::cardinality() + self.5.position();
        let b5 = b4 * T5::cardinality();
        lemma_digit_step(h5, b5, self.6.position(), T6::cardinality());
        let h6 = h5 * T6::cardinality() + self.6.position();
        let b6 = b5 * T6::cardinality();
        lemma_digit_step(h6, b6, self.7.position(), T7::cardinality());
        let h7 = h6 * T7::cardinality() + self.7.position();
        let b7 = b6 * T7::cardinality();
        lemma_digit_step(h7, b7, self.8.position(), T8::cardinality());
        let h8 = h7 * T8::cardinality() + self.8.position();
        let b8 = b7 * T8::cardinality();
        lemma_digit_step(h8, b8, self.9.position(), T9::cardinality());
        let h9 = h8 * T9::cardinality() + self.9.position();
        let b9 = b8 * T9::cardinality();
        lemma_digit_step(h9, b9, self.10.position(), T10::cardinality());
        let h10 = h9 * T10::cardinality() + self.10.position();
        let b10 = b9 * T10::cardinality();
        lemma_digit_step(h10, b10, self.11.position(), T11::cardinality());
        let h11 = h10 * T11::cardinality() + self.11.position();
        let b11 = b10 * T11::cardinality();
        lemma_digit_step(h11, b11, self.12.position(), T12::cardinality());
        let h12 = h11 * T12::cardinality() + self.12.position();
        let b12 = b11 * T12::cardinality();
        lemma_digit_step(h12, b12, self.13.position(), T13::cardinality());
        let h13 = h12 * T13::cardinality() + self.13.position();
        let b13 = b12 * T13::cardinality();
        lemma_digit_step(h13, b13, self.14.position(), T14::cardinality());
        let h14 = h13 * T14::cardinality() + self.14.position();
        let b14 = b13 * T14::cardinality();
    }

    proof fn lemma_at(i: nat) {
        if i < Self::cardinality() {
            let b0 = T0::cardinality();
            let b1 = b0 * T1::cardinality();
            let b2 = b1 * T2::cardinality();
            let b3 = b2 * T3::cardinality();
            let b4 = b3 * T4::cardinality();
            let b5 = b4 * T5::cardinality();
            let b6 = b5 * T6::cardinality();
            let b7 = b6 * T7::cardinality();
            let b8 = b7 * T8::cardinality();
            let b9 = b8 * T9::cardinality();
            let b10 = b9 * T10::cardinality();
            let b11 = b10 * T11::cardinality();
            let b12 = b11 * T12::cardinality();
            let b13 = b12 * T13::cardinality();
            let b14 = b13 * T14::cardinality();
            lemma_digit_split(i, b13, T14::cardinality());
            let d14 = i % T14::cardinality();
            let q14 = i / T14::cardinality();
            lemma_digit_split(q14, b12, T13::cardinality());
            let d13 = q14 % T13::cardinality();
            let q13 = q14 / T13::cardinality();
            lemma_digit_split(q13, b11, T12::cardinality());
            let d12 = q13 % T12::cardinality();
            let q12 = q13 / T12::cardinality();
            lemma_digit_split(q12, b10, T11::cardinality());
            let d11 = q12 % T11::cardinality();
            let q11 = q12 / T11::cardinality();
            lemma_digit_split(q11, b9, T10::cardinality());
            let d10 = q11 % T10::cardinality();
            let q10 = q11 / T10::cardinality();
            lemma_digit_split(q10, b8, T9::cardinality());
            let d9 = q10 % T9::cardinality();
            let q9 = q10 / T9::cardinality();
            lemma_digit_split(q9, b7, T8::cardinality());
            let d8 = q9 % T8::cardinality();
            let q8 = q9 / T8::cardinality();
            lemma_digit_split(q8, b6, T7::cardinality());
            let d7 = q8 % T7::cardinality();
            let q7 = q8 / T7::cardinality();
            lemma_digit_split(q7, b5, T6::cardinality());
            let d6 = q7 % T6::cardinality();
            let q6 = q7 / T6::cardinality();
            lemma_digit_split(q6, b4, T5::cardinality());
            let d5 = q6 % T5::cardinality();
            let q5 = q6 / T5::cardinality();
            lemma_digit_split(q5, b3, T4::cardinality());
            let d4 = q5 % T4::cardinality();
            let q4 = q5 / T4::cardinality();
            lemma_digit_split(q4, b2, T3::cardinality());
            let d3 = q4 % T3::cardinality();
            let q3 = q4 / T3::cardinality();
            lemma_digit_split(q3, b1, T2::cardinality());
            let d2 = q3 % T2::cardinality();
            let q2 = q3 / T2::cardinality();
            lemma_digit_split(q2, b0, T1::cardinality());
            let d1 = q2 % T1::cardinality();
            let q1 = q2 / T1::cardinality();
            lemma_digit_step(0, 1, q1, b0);
            let d0 = q1 % T0::cardinality();
            T0::lemma_at(d0);
            T1::lemma_at(d1);
            T2::lemma_at(d2);
            T3::lemma_at(d3);
            T4::lemma_at(d4);
            T5::lemma_at(d5);
            T6::lemma_at(d6);
            T7::lemma_at(d7);
            T8::lemma_at(d8);
            T9::lemma_at(d9);
            T10::lemma_at(d10);
            T11::lemma_at(d11);
            T12::lemma_at(d12);
            T13::lemma_at(d13);
            T14::lemma_at(d14);
        }
    }

    fn checked_inhabitants() -> (n: Option<usize>) {
        let n0: usize = match T0::checked_inhabitants() {
            Some(n) => n,
            None => {
                return None;
            },
        };
        let n1: usize = match T1::checked_inhabitants() {
            Some(n) => n,
            None => {
                return None;
            },
        };
        let n2: usize = match T2::checked_inhabitants() {
            Some(n) => n,
            None => {
                return None;
            },
        };
        let n3: usize = match T3::checked_inhabitants() {
            Some(n) => n,
            None => {
                return None;
            },
        };
        let n4: usize = match T4::checked_inhabitants() {
            Some(n) => n,
            None => {
                return None;
            },
        };
        let n5: usize = match T5::checked_inhabitants() {
            Some(n) => n,
            None => {
                return None;
            },
        };
        let n6: usize = match T6::checked_inhabitants() {
            Some(n) => n,
            None => {
                return None;
            },
        };
        let n7: usize = match T7::checked_inhabitants() {
            Some(n) => n,
            None => {
                return None;
            },
        };
        let n8: usize = match T8::checked_inhabitants() {
            Some(n) => n,
            None => {
                return None;
            },
        };
        let n9: usize = match T9::checked_inhabitants() {
            Some(n) => n,
            None => {
                return None;
            },
        };
        let n10: usize = match T10::checked_inhabitants() {
            Some(n) => n,
            None => {
                return None;
            },
        };
        let n11: usize = match T11::checked_inhabitants() {
            Some(n) => n,
            None => {
                return None;
            },
        };
        let n12: usize = match T12::checked_inhabitants() {
            Some(n) => n,
            None => {
                return None;
            },
        };
        let n13: usize = match T13::checked_inhabitants() {
            Some(n) => n,
            None => {
                return None;
            },
        };
        let n14: usize = match T14::checked_inhabitants() {
            Some(n) => n,
            None => {
                return None;
            },
        };
        proof {
            let b0 = T0::cardinality();
            lemma_factor(b0, T1::cardinality());
            let b1 = b0 * T1::cardinality();
            lemma_factor(b1, T2::cardinality());
            let b2 = b1 * T2::cardinality();
            lemma_factor(b2, T3::cardinality());
            let b3 = b2 * T3::cardinality();
            lemma_factor(b3, T4::cardinality());
            let b4 = b3 * T4::cardinality();
            lemma_factor(b4, T5::cardinality());
            let b5 = b4 * T5::cardinality();
            lemma_factor(b5, T6::cardinality());
            let b6 = b5 * T6::cardinality();
            lemma_factor(b6, T7::cardinality());
            let b7 = b6 * T7::cardinality();
            lemma_factor(b7, T8::cardinality());
            let b8 = b7 * T8::cardinality();
            lemma_factor(b8, T9::cardinality());
            let b9 = b8 * T9::cardinality();
            lemma_factor(b9, T10::cardinality());
            let b10 = b9 * T10::cardinality();
            lemma_factor(b10, T11::cardinality());
            let b11 = b10 * T11::cardinality();
            lemma_factor(b11, T12::cardinality());
            let b12 = b11 * T12::cardinality();
            lemma_factor(b12, T13::cardinality());
            let b13 = b12 * T13::cardinality();
            lemma_factor(b13, T14::cardinality());
            let b14 = b13 * T14::cardinality();
        }
        if n0 == 0 || n1 == 0 || n2 == 0 || n3 == 0 || n4 == 0 || n5 == 0 || n6 == 0 || n7 == 0
            || n8 == 0 || n9 == 0 || n10 == 0 || n11 == 0 || n12 == 0 || n13 == 0 || n14 == 0 {
            return Some(0);
        }
        let p1: usize = match n0.checked_mul(n1) {
            Some(p) => p,
            None => {
                return None;
            },
        };
        let p2: usize = match p1.checked_mul(n2) {
            Some(p) => p,
            None => {
                return None;
            },
        };
        let p3: usize = match p2.checked_mul(n3) {
            Some(p) => p,
            None => {
                return None;
            },
        };
        let p4: usize = match p3.checked_mul(n4) {
            Some(p) => p,
            None => {
                return None;
            },
        };
        let p5: usize = match p4.checked_mul(n5) {
            Some(p) => p,
            None => {
                return None;
            },
        };
        let p6: usize = match p5.checked_mul(n6) {
            Some(p) => p,
            None => {
                return None;
            },
        };
        let p7: usize = match p6.checked_mul(n7) {
            Some(p) => p,
            None => {
                return None;
            },
        };
        let p8: usize = match p7.checked_mul(n8) {
            Some(p) => p,
            None => {
                return None;
            },
        };
        let p9: usize = match p8.checked_mul(n9) {
            Some(p) => p,
            None => {
                return None;
            },
        };
        let p10: usize = match p9.checked_mul(n10) {
            Some(p) => p,
            None => {
                return None;
            },
        };
        let p11: usize = match p10.checked_mul(n11) {
            Some(p) => p,
            None => {
                return None;
            },
        };
        let p12: usize = match p11.checked_mul(n12) {
            Some(p) => p,
            None => {
                return None;
            },
        };
        let p13: usize = match p12.checked_mul(n13) {
            Some(p) => p,
            None => {
                return None;
            },
        };
        let p14: usize = match p13.checked_mul(n14) {
            Some(p) => p,
            None => {
                return None;
            },
        };
        Some(p14)
    }

    fn to_usize(&self) -> (i: usize) {
        let i0: usize = self.0.to_usize();
        let i1: usize = self.1.to_usize();
        let i2: usize = self.2.to_usize();
        let i3: usize = self.3.to_usize();
        let i4: usize = self.4.to_usize();
        let i5: usize = self.5.to_usize();
        let i6: usize = self.6.to_usize();
        let i7: usize = self.7.to_usize();
        let i8: usize = self.8.to_usize();
        let i9: usize = self.9.to_usize();
        let i10: usize = self.10.to_usize();
        let i11: usize = self.11.to_usize();
        let i12: usize = self.12.to_usize();
        let i13: usize = self.13.to_usize();
        let i14: usize = self.14.to_usize();
        proof {
            let h0 = self.0.position();
            let b0 = T0::cardinality();
            lemma_digit_step(h0, b0, self.1.position(), T1::cardinality());
            let h1 = h0 * T1::cardinality() + self.1.position();
            let b1 = b0 * T1::cardinality();
            lemma_digit_step(h1, b1, self.2.position(), T2::cardinality());
            let h2 = h1 * T2::cardinality() + self.2.position();
            let b2 = b1 * T2::cardinality();
            lemma_digit_step(h2, b2, self.3.position(), T3::cardinality());
            let h3 = h2 * T3::cardinality() + self.3.position();
            let b3 = b2 * T3::cardinality();
            lemma_digit_step(h3, b3, self.4.position(), T4::cardinality());
            let h4 = h3 * T4::cardinality() + self.4.position();
            let b4 = b3 * T4::cardinality();
            lemma_digit_step(h4, b4, self.5.position(), T5::cardinality());
            let h5 = h4 * T5::cardinality() + self.5.position();
            let b5 = b4 * T5::cardinality();
            lemma_digit_step(h5, b5, self.6.position(), T6::cardinality());
            let h6 = h5 * T6::cardinality() + self.6.position();
            let b6 = b5 * T6::cardinality();
            lemma_digit_step(h6, b6, self.7.position(), T7::cardinality());
            let h7 = h6 * T7::cardinality() + self.7.position();
            let b7 = b6 * T7::cardinality();
            lemma_digit_step(h7, b7, self.8.position(), T8::cardinality());
            let h8 = h7 * T8::cardinality() + self.8.position();
            let b8 = b7 * T8::cardinality();
            lemma_digit_step(h8, b8, self.9.position(), T9::cardinality());
            let h9 = h8 * T9::cardinality() + self.9.position();
            let b9 = b8 * T9::cardinality();
            lemma_digit_step(h9, b9, self.10.position(), T10::cardinality());
            let h10 = h9 * T10::cardinality() + self.10.position();
            let b10 = b9 * T10::cardinality();
            lemma_digit_step(h10, b10, self.11.position(), T11::cardinality());
            let h11 = h10 * T11::cardinality() + self.11.position();
            let b11 = b10 * T11::cardinality();
            lemma_digit_step(h11, b11, self.12.position(), T12::cardinality());
            let h12 = h11 * T12::cardinality() + self.12.position();
            let b12 = b11 * T12::cardinality();
            lemma_digit_step(h12, b12, self.13.position(), T13::cardinality());
            let h13 = h12 * T13::cardinality() + self.13.position();
            let b13 = b12 * T13::cardinality();
            lemma_digit_step(h13, b13, self.14.position(), T14::cardinality());
            let h14 = h13 * T14::cardinality() + self.14.position();
            let b14 = b13 * T14::cardinality();
            lemma_factor(b13, T14::cardinality());
            lemma_factor(b12, T13::cardinality());
            lemma_factor(b11, T12::cardinality());
            lemma_factor(b10, T11::cardinality());
            lemma_factor(b9, T10::cardinality());
            lemma_factor(b8, T9::cardinality());
            lemma_factor(b7, T8::cardinality());
            lemma_factor(b6, T7::cardinality());
            lemma_factor(b5, T6::cardinality());
            lemma_factor(b4, T5::cardinality());
            lemma_factor(b3, T4::cardinality());
            lemma_factor(b2, T3::cardinality());
            lemma_factor(b1, T2::cardinality());
            lemma_factor(b0, T1::cardinality());
        }
        let h1: usize = i0 * T1::inhabitants() + i1;
        let h2: usize = h1 * T2::inhabitants() + i2;
        let h3: usize = h2 * T3::inhabitants() + i3;
        let h4: usize = h3 * T4::inhabitants() + i4;
        let h5: usize = h4 * T5::inhabitants() + i5;
        let h6: usize = h5 * T6::inhabitants() + i6;
        let h7: usize = h6 * T7::inhabitants() + i7;
        let h8: usize = h7 * T8::inhabitants() + i8;
        let h9: usize = h8 * T9::inhabitants() + i9;
        let h10: usize = h9 * T10::inhabitants() + i10;
        let h11: usize = h10 * T11::inhabitants() + i11;
        let h12: usize = h11 * T12::inhabitants() + i12;
        let h13: usize = h12 * T13::inhabitants() + i13;
        let h14: usize = h13 * T14::inhabitants() + i14;
        h14
    }

    fn from_usize(i: usize) -> (r: Option<Self>) {
        if i >= Self::inhabitants() {
            return None;
        }
        proof {
            let b0 = T0::cardinality();
            let b1 = b0 * T1::cardinality();
            let b2 = b1 * T2::cardinality();
            let b3 = b2 * T3::cardinality();
            let b4 = b3 * T4::cardinality();
            let b5 = b4 * T5::cardinality();
            let b6 = b5 * T6::cardinality();
            let b7 = b6 * T7::cardinality();
            let b8 = b7 * T8::cardinality();
            let b9 = b8 * T9::cardinality();
            let b10 = b9 * T10::cardinality();
            let b11 = b10 * T11::cardinality();
            let b12 = b11 * T12::cardinality();
            let b13 = b12 * T13::cardinality();
            let b14 = b13 * T14::cardinality();
            lemma_digit_split(i as nat, b13, T14::cardinality());
            let q14 = (i as nat) / T14::cardinality();
            lemma_digit_split(q14, b12, T13::cardinality());
            let q13 = q14 / T13::cardinality();
            lemma_digit_split(q13, b11, T12::cardinality());
            let q12 = q13 / T12::cardinality();
            lemma_digit_split(q12, b10, T11::cardinality());
            let q11 = q12 / T11::cardinality();
            lemma_digit_split(q11, b9, T10::cardinality());
            let q10 = q11 / T10::cardinality();
            lemma_digit_split(q10, b8, T9::cardinality());
            let q9 = q10 / T9::cardinality();
            lemma_digit_split(q9, b7, T8::cardinality());
            let q8 = q9 / T8::cardinality();
            lemma_digit_split(q8, b6, T7::cardinality());
            let q7 = q8 / T7::cardinality();
            lemma_digit_split(q7, b5, T6::cardinality());
            let q6 = q7 / T6::cardinality();
            lemma_digit_split(q6, b4, T5::cardinality());
            let q5 = q6 / T5::cardinality();
            lemma_digit_split(q5, b3, T4::cardinality());
            let q4 = q5 / T4::cardinality();
            lemma_digit_split(q4, b2, T3::cardinality());
            let q3 = q4 / T3::cardinality();
            lemma_digit_split(q3, b1, T2::cardinality());
            let q2 = q3 / T2::cardinality();
            lemma_digit_split(q2, b0, T1::cardinality());
            let q1 = q2 / T1::cardinality();
            lemma_digit_step(0, 1, q1, b0);
        }
        let n14: usize = T14::inhabitants();
        let d14: usize = i % n14;
        let q14: usize = i / n14;
        let n13: usize = T13::inhabitants();
        let d13: usize = q14 % n13;
        let q13: usize = q14 / n13;
        let n12: usize = T12::inhabitants();
        let d12: usize = q13 % n12;
        let q12: usize = q13 / n12;
        let n11: usize = T11::inhabitants();
        let d11: usize = q12 % n11;
        let q11: usize = q12 / n11;
        let n10: usize = T10::inhabitants();
        let d10: usize = q11 % n10;
        let q10: usize = q11 / n10;
        let n9: usize = T9::inhabitants();
        let d9: usize = q10 % n9;
        let q9: usize = q10 / n9;
        let n8: usize = T8::inhabitants();
        let d8: usize = q9 % n8;
        let q8: usize = q9 / n8;
        let n7: usize = T7::inhabitants();
        let d7: usize = q8 % n7;
        let q7: usize = q8 / n7;
        let n6: usize = T6::inhabitants();
        let d6: usize = q7 % n6;
        let q6: usize = q7 / n6;
        let n5: usize = T5::inhabitants();
        let d5: usize = q6 % n5;
        let q5: usize = q6 / n5;
        let n4: usize = T4::inhabitants();
        let d4: usize = q5 % n4;
        let q4: usize = q5 / n4;
        let n3: usize = T3::inhabitants();
        let d3: usize = q4 % n3;
        let q3: usize = q4 / n3;
        let n2: usize = T2::inhabitants();
        let d2: usize = q3 % n2;
        let q2: usize = q3 / n2;
        let n1: usize = T1::inhabitants();
        let d1: usize = q2 % n1;
        let q1: usize = q2 / n1;
        let n0: usize = T0::inhabitants();
        let d0: usize = q1 % n0;
        let v0 = T0::from_usize(d0).unwrap();
        let v1 = T1::from_usize(d1).unwrap();
        let v2 = T2::from_usize(d2).unwrap();
        let v3 = T3::from_usize(d3).unwrap();
        let v4 = T4::from_usize(d4).unwrap();
        let v5 = T5::from_usize(d5).unwrap();
        let v6 = T6::from_usize(d6).unwrap();
        let v7 = T7::from_usize(d7).unwrap();
        let v8 = T8::from_usize(d8).unwrap();
        let v9 = T9::from_usize(d9).unwrap();
        let v10 = T10::from_usize(d10).unwrap();
        let v11 = T11::from_usize(d11).unwrap();
        let v12 = T12::from_usize(d12).unwrap();
        let v13 = T13::from_usize(d13).unwrap();
        let v14 = T14::from_usize(d14).unwrap();
        Some((v0, v1, v2, v3, v4, v5, v6, v7, v8, v9, v10, v11, v12, v13, v14))
    }
}

/// A tuple of 16 fields.
impl<
    T0: Finite,
    T1: Finite,
    T2: Finite,
    T3: Finite,
    T4: Finite,
    T5: Finite,
    T6: Finite,
    T7: Finite,
    T8: Finite,
    T9: Finite,
    T10: Finite,
    T11: Finite,
    T12: Finite,
    T13: Finite,
    T14: Finite,
    T15: Finite,
> Finite for (T0, T1, T2, T3, T4, T5, T6, T7, T8, T9, T10, T11, T12, T13, T14, T15) {
    open spec fn cardinality() -> nat {
        T0::cardinality() * T1::cardinality() * T2::cardinality() * T3::cardinality()
            * T4::cardinality() * T5::cardinality() * T6::cardinality() * T7::cardinality()
            * T8::cardinality() * T9::cardinality() * T10::cardinality() * T11::cardinality()
            * T12::cardinality() * T13::cardinality() * T14::cardinality() * T15::cardinality()
    }

    open spec fn fits_in_usize() -> bool {
        &&& T0::fits_in_usize()
        &&& T1::fits_in_usize()
        &&& T2::fits_in_usize()
        &&& T3::fits_in_usize()
        &&& T4::fits_in_usize()
        &&& T5::fits_in_usize()
        &&& T6::fits_in_usize()
        &&& T7::fits_in_usize()
        &&& T8::fits_in_usize()
        &&& T9::fits_in_usize()
        &&& T10::fits_in_usize()
        &&& T11::fits_in_usize()
        &&& T12::fits_in_usize()
        &&& T13::fits_in_usize()
        &&& T14::fits_in_usize()
        &&& T15::fits_in_usize()
        &&& Self::cardinality() <= usize::MAX
    }

    open spec fn inhabitant(&self) -> bool {
        &&& self.0.inhabitant()
        &&& self.1.inhabitant()
        &&& self.2.inhabitant()
        &&& self.3.inhabitant()
        &&& self.4.inhabitant()
        &&& self.5.inhabitant()
        &&& self.6.inhabitant()
        &&& self.7.inhabitant()
        &&& self.8.inhabitant()
        &&& self.9.inhabitant()
        &&& self.10.inhabitant()
        &&& self.11.inhabitant()
        &&& self.12.inhabitant()
        &&& self.13.inhabitant()
        &&& self.14.inhabitant()
        &&& self.15.inhabitant()
    }

    open spec fn position(&self) -> nat {
        let h0 = self.0.position();
        let h1 = h0 * T1::cardinality() + self.1.position();
        let h2 = h1 * T2::cardinality() + self.2.position();
        let h3 = h2 * T3::cardinality() + self.3.position();
        let h4 = h3 * T4::cardinality() + self.4.position();
        let h5 = h4 * T5::cardinality() + self.5.position();
        let h6 = h5 * T6::cardinality() + self.6.position();
        let h7 = h6 * T7::cardinality() + self.7.position();
        let h8 = h7 * T8::cardinality() + self.8.position();
        let h9 = h8 * T9::cardinality() + self.9.position();
        let h10 = h9 * T10::cardinality() + self.10.position();
        let h11 = h10 * T11::cardinality() + self.11.position();
        let h12 = h11 * T12::cardinality() + self.12.position();
        let h13 = h12 * T13::cardinality() + self.13.position();
        let h14 = h13 * T14::cardinality() + self.14.position();
        let h15 = h14 * T15::cardinality() + self.15.position();
        h15
    }

    open spec fn at(i: nat) -> Option<Self> {
        if i < Self::cardinality() {
            let d15 = i % T15::cardinality();
            let q15 = i / T15::cardinality();
            let d14 = q15 % T14::cardinality();
            let q14 = q15 / T14::cardinality();
            let d13 = q14 % T13::cardinality();
            let q13 = q14 / T13::cardinality();
            let d12 = q13 % T12::cardinality();
            let q12 = q13 / T12::cardinality();
            let d11 = q12 % T11::cardinality();
            let q11 = q12 / T11::cardinality();
            let d10 = q11 % T10::cardinality();
            let q10 = q11 / T10::cardinality();
            let d9 = q10 % T9::cardinality();
            let q9 = q10 / T9::cardinality();
            let d8 = q9 % T8::cardinality();
            let q8 = q9 / T8::cardinality();
            let d7 = q8 % T7::cardinality();
            let q7 = q8 / T7::cardinality();
            let d6 = q7 % T6::cardinality();
            let q6 = q7 / T6::cardinality();
            let d5 = q6 % T5::cardinality();
            let q5 = q6 / T5::cardinality();
            let d4 = q5 % T4::cardinality();
            let q4 = q5 / T4::cardinality();
            let d3 = q4 % T3::cardinality();
            let q3 = q4 / T3::cardinality();
            let d2 = q3 % T2::cardinality();
            let q2 = q3 / T2::cardinality();
            let d1 = q2 % T1::cardinality();
            let q1 = q2 / T1::cardinality();
            let d0 = q1 % T0::cardinality();
            Some(
                (
                    T0::at(d0).unwrap(),
                    T1::at(d1).unwrap(),
                    T2::at(d2).unwrap(),
                    T3::at(d3).unwrap(),
                    T4::at(d4).unwrap(),
                    T5::at(d5).unwrap(),
                    T6::at(d6).unwrap(),
                    T7::at(d7).unwrap(),
                    T8::at(d8).unwrap(),
                    T9::at(d9).unwrap(),
                    T10::at(d10).unwrap(),
                    T11::at(d11).unwrap(),
                    T12::at(d12).unwrap(),
                    T13::at(d13).unwrap(),
                    T14::at(d14).unwrap(),
                    T15::at(d15).unwrap(),
                ),
            )
        } else {
            None
        }
    }

    proof fn lemma_fits() {
    }

    proof fn lemma_position(&self) {
        self.0.lemma_position();
        self.1.lemma_position();
        self.2.lemma_position();
        self.3.lemma_position();
        self.4.lemma_position();
        self.5.lemma_position();
        self.6.lemma_position();
        self.7.lemma_position();
        self.8.lemma_position();
        self.9.lemma_position();
        self.10.lemma_position();
        self.11.lemma_position();
        self.12.lemma_position();
        self.13.lemma_position();
        self.14.lemma_position();
        self.15.lemma_position();
        let h0 = self.0.position();
        let b0 = T0::cardinality();
        lemma_digit_step(0, 1, h0, b0);
        lemma_digit_step(h0, b0, self.1.position(), T1::cardinality());
        let h1 = h0 * T1::cardinality() + self.1.position();
        let b1 = b0 * T1::cardinality();
        lemma_digit_step(h1, b1, self.2.position(), T2::cardinality());
        let h2 = h1 * T2::cardinality() + self.2.position();
        let b2 = b1 * T2::cardinality();
        lemma_digit_step(h2, b2, self.3.position(), T3::cardinality());
        let h3 = h2 * T3::cardinality() + self.3.position();
        let b3 = b2 * T3::cardinality();
        lemma_digit_step(h3, b3, self.4.position(), T4::cardinality());
        let h4 = h3 * T4::cardinality() + self.4.position();
        let b4 = b3 * T4::cardinality();
        lemma_digit_step(h4, b4, self.5.position(), T5::cardinality());
        let h5 = h4 * T5::cardinality() + self.5.position();
        let b5 = b4 * T5::cardinality();
        lemma_digit_step(h5, b5, self.6.position(), T6::cardinality());
        let h6 = h5 * T6::cardinality() + self.6.position();
        let b6 = b5 * T6::cardinality();
        lemma_digit_step(h6, b6, self.7.position(), T7::cardinality());
        let h7 = h6 * T7::cardinality() + self.7.position();
        let b7 = b6 * T7::cardinality();
        lemma_digit_step(h7, b7, self.8.position(), T8::cardinality());
        let h8 = h7 * T8::cardinality() + self.8.position();
        let b8 = b7 * T8::cardinality();
        lemma_digit_step(h8, b8, self.9.position(), T9::cardinality());
        let h9 = h8 * T9::cardinality() + self.9.position();
        let b9 = b8 * T9::cardinality();
        lemma_digit_step(h9, b9, self.10.position(), T10::cardinality());
        let h10 = h9 * T10::cardinality() + self.10.position();
        let b10 = b9 * T10::cardinality();
        lemma_digit_step(h10, b10, self.11.position(), T11::cardinality());
        let h11 = h10 * T11::cardinality() + self.11.position();
        let b11 = b10 * T11::cardinality();
        lemma_digit_step(h11, b11, self.12.position(), T12::cardinality());
        let h12 = h11 * T12::cardinality() + self.12.position();
        let b12 = b11 * T12::cardinality();
        lemma_digit_step(h12, b12, self.13.position(), T13::cardinality());
        let h13 = h12 * T13::cardinality() + self.13.position();
        let b13 = b12 * T13::cardinality();
        lemma_digit_step(h13, b13, self.14.position(), T14::cardinality());
        let h14 = h13 * T14::cardinality() + self.14.position();
        let b14 = b13 * T14::cardinality();
        lemma_digit_step(h14, b14, self.15.position(), T15::cardinality());
        let h15 = h14 * T15::cardinality() + self.15.position();
        let b15 = b14 * T15::cardinality();
    }

    proof fn lemma_at(i: nat) {
        if i < Self::cardinality() {
            let b0 = T0::cardinality();
            let b1 = b0 * T1::cardinality();
            let b2 = b1 * T2::cardinality();
            let b3 = b2 * T3::cardinality();
            let b4 = b3 * T4::cardinality();
            let b5 = b4 * T5::cardinality();
            let b6 = b5 * T6::cardinality();
            let b7 = b6 * T7::cardinality();
            let b8 = b7 * T8::cardinality();
            let b9 = b8 * T9::cardinality();
            let b10 = b9 * T10::cardinality();
            let b11 = b10 * T11::cardinality();
            let b12 = b11 * T12::cardinality();
            let b13 = b12 * T13::cardinality();
            let b14 = b13 * T14::cardinality();
            let b15 = b14 * T15::cardinality();
            lemma_digit_split(i, b14, T15::cardinality());
            let d15 = i % T15::cardinality();
            let q15 = i / T15::cardinality();
            lemma_digit_split(q15, b13, T14::cardinality());
            let d14 = q15 % T14::cardinality();
            let q14 = q15 / T14::cardinality();
            lemma_digit_split(q14, b12, T13::cardinality());
            let d13 = q14 % T13::cardinality();
            let q13 = q14 / T13::cardinality();
            lemma_digit_split(q13, b11, T12::cardinality());
            let d12 = q13 % T12::cardinality();
            let q12 = q13 / T12::cardinality();
            lemma_digit_split(q12, b10, T11::cardinality());
            let d11 = q12 % T11::cardinality();
            let q11 = q12 / T11::cardinality();
            lemma_digit_split(q11, b9, T10::cardinality());
            let d10 = q11 % T10::cardinality();
            let q10 = q11 / T10::cardinality();
            lemma_digit_split(q10, b8, T9::cardinality());
            let d9 = q10 % T9::cardinality();
            let q9 = q10 / T9::cardinality();
            lemma_digit_split(q9, b7, T8::cardinality());
            let d8 = q9 % T8::cardinality();
            let q8 = q9 / T8::cardinality();
            lemma_digit_split(q8, b6, T7::cardinality());
            let d7 = q8 % T7::cardinality();
            let q7 = q8 / T7::cardinality();
            lemma_digit_split(q7, b5, T6::cardinality());
            let d6 = q7 % T6::cardinality();
            let q6 = q7 / T6::cardinality();
            lemma_digit_split(q6, b4, T5::cardinality());
            let d5 = q6 % T5::cardinality();
            let q5 = q6 / T5::cardinality();
            lemma_digit_split(q5, b3, T4::cardinality());
            let d4 = q5 % T4::cardinality();
            let q4 = q5 / T4::cardinality();
            lemma_digit_split(q4, b2, T3::cardinality());
            let d3 = q4 % T3::cardinality();
            let q3 = q4 / T3::cardinality();
            lemma_digit_split(q3, b1, T2::cardinality());
            let d2 = q3 % T2::cardinality();
            let q2 = q3 / T2::cardinality();
            lemma_digit_split(q2, b0, T1::cardinality());
            let d1 = q2 % T1::cardinality();
            let q1 = q2 / T1::cardinality();
            lemma_digit_step(0, 1, q1, b0);
            let d0 = q1 % T0::cardinality();
            T0::lemma_at(d0);
            T1::lemma_at(d1);
            T2::lemma_at(d2);
            T3::lemma_at(d3);
            T4::lemma_at(d4);
            T5::lemma_at(d5);
            T6::lemma_at(d6);
            T7::lemma_at(d7);
            T8::lemma_at(d8);
            T9::lemma_at(d9);
            T10::lemma_at(d10);
            T11::lemma_at(d11);
            T12::lemma_at(d12);
            T13::lemma_at(d13);
            T14::lemma_at(d14);
            T15::lemma_at(d15);
        }
    }

    fn checked_inhabitants() -> (n: Option<usize>) {
        let n0: usize = match T0::checked_inhabitants() {
            Some(n) => n,
            None => {
                return None;
            },
        };
        let n1: usize = match T1::checked_inhabitants() {
            Some(n) => n,
            None => {
                return None;
            },
        };
        let n2: usize = match T2::checked_inhabitants() {
            Some(n) => n,
            None => {
                return None;
            },
        };
        let n3: usize = match T3::checked_inhabitants() {
            Some(n) => n,
            None => {
                return None;
            },
        };
        let n4: usize = match T4::checked_inhabitants() {
            Some(n) => n,
            None => {
                return None;
            },
        };
        let n5: usize = match T5::checked_inhabitants() {
            Some(n) => n,
            None => {
                return None;
            },
        };
        let n6: usize = match T6::checked_inhabitants() {
            Some(n) => n,
            None => {
                return None;
            },
        };
        let n7: usize = match T7::checked_inhabitants() {
            Some(n) => n,
            None => {
                return None;
            },
        };
        let n8: usize = match T8::checked_inhabitants() {
            Some(n) => n,
            None => {
                return None;
            },
        };
        let n9: usize = match T9::checked_inhabitants() {
            Some(n) => n,
            None => {
                return None;
            },
        };
        let n10: usize = match T10::checked_inhabitants() {
            Some(n) => n,
            None => {
                return None;
            },
        };
        let n11: usize = match T11::checked_inhabitants() {
            Some(n) => n,
            None => {
                return None;
            },
        };
        let n12: usize = match T12::checked_inhabitants() {
            Some(n) => n,
            None => {
                return None;
            },
        };
        let n13: usize = match T13::checked_inhabitants() {
            Some(n) => n,
            None => {
                return None;
            },
        };
        let n14: usize = match T14::checked_inhabitants() {
            Some(n) => n,
            None => {
                return None;
            },
        };
        let n15: usize = match T15::checked_inhabitants() {
            Some(n) => n,
            None => {
                return None;
            },
        };
        proof {
            let b0 = T0::cardinality();
            lemma_factor(b0, T1::cardinality());
            let b1 = b0 * T1::cardinality();
            lemma_factor(b1, T2::cardinality());
            let b2 = b1 * T2::cardinality();
            lemma_factor(b2, T3::cardinality());
            let b3 = b2 * T3::cardinality();
            lemma_factor(b3, T4::cardinality());
            let b4 = b3 * T4::cardinality();
            lemma_factor(b4, T5::cardinality());
            let b5 = b4 * T5::cardinality();
            lemma_factor(b5, T6::cardinality());
            let b6 = b5 * T6::cardinality();
            lemma_factor(b6, T7::cardinality());
            let b7 = b6 * T7::cardinality();
            lemma_factor(b7, T8::cardinality());
            let b8 = b7 * T8::cardinality();
            lemma_factor(b8, T9::cardinality());
            let b9 = b8 * T9::cardinality();
            lemma_factor(b9, T10::cardinality());
            let b10 = b9 * T10::cardinality();
            lemma_factor(b10, T11::cardinality());
            let b11 = b10 * T11::cardinality();
            lemma_factor(b11, T12::cardinality());
            let b12 = b11 * T12::cardinality();
            lemma_factor(b12, T13::cardinality());
            let b13 = b12 * T13::cardinality();
            lemma_factor(b13, T14::cardinality());
            let b14 = b13 * T14::cardinality();
            lemma_factor(b14, T15::cardinality());
            let b15 = b14 * T15::cardinality();
        }
        if n0 == 0 || n1 == 0 || n2 == 0 || n3 == 0 || n4 == 0 || n5 == 0 || n6 == 0 || n7 == 0
            || n8 == 0 || n9 == 0 || n10 == 0 || n11 == 0 || n12 == 0 || n13 == 0 || n14 == 0
            || n15 == 0 {
            return Some(0);
        }
        let p1: usize = match n0.checked_mul(n1) {
            Some(p) => p,
            None => {
                return None;
            },
        };
        let p2: usize = match p1.checked_mul(n2) {
            Some(p) => p,
            None => {
                return None;
            },
        };
        let p3: usize = match p2.checked_mul(n3) {
            Some(p) => p,
            None => {
                return None;
            },
        };
        let p4: usize = match p3.checked_mul(n4) {
            Some(p) => p,
            None => {
                return None;
            },
        };
        let p5: usize = match p4.checked_mul(n5) {
            Some(p) => p,
            None => {
                return None;
            },
        };
        let p6: usize = match p5.checked_mul(n6) {
            Some(p) => p,
            None => {
                return None;
            },
        };
        let p7: usize = match p6.checked_mul(n7) {
            Some(p) => p,
            None => {
                return None;
            },
        };
        let p8: usize = match p7.checked_mul(n8) {
            Some(p) => p,
            None => {
                return None;
            },
        };
        let p9: usize = match p8.checked_mul(n9) {
            Some(p) => p,
            None => {
                return None;
            },
        };
        let p10: usize = match p9.checked_mul(n10) {
            Some(p) => p,
            None => {
                return None;
            },
        };
        let p11: usize = match p10.checked_mul(n11) {
            Some(p) => p,
            None => {
                return None;
            },
        };
        let p12: usize = match p11.checked_mul(n12) {
            Some(p) => p,
            None => {
                return None;
            },
        };
        let p13: usize = match p12.checked_mul(n13) {
            Some(p) => p,
            None => {
                return None;
            },
        };
        let p14: usize = match p13.checked_mul(n14) {
            Some(p) => p,
            None => {
                return None;
            },
        };
        let p15: usize = match p14.checked_mul(n15) {
            Some(p) => p,
            None => {
                return None;
            },
        };
        Some(p15)
    }

    fn to_usize(&self) -> (i: usize) {
        let i0: usize = self.0.to_usize();
        let i1: usize = self.1.to_usize();
        let i2: usize = self.2.to_usize();
        let i3: usize = self.3.to_usize();
        let i4: usize = self.4.to_usize();
        let i5: usize = self.5.to_usize();
        let i6: usize = self.6.to_usize();
        let i7: usize = self.7.to_usize();
        let i8: usize = self.8.to_usize();
        let i9: usize = self.9.to_usize();
        let i10: usize = self.10.to_usize();
        let i11: usize = self.11.to_usize();
        let i12: usize = self.12.to_usize();
        let i13: usize = self.13.to_usize();
        let i14: usize = self.14.to_usize();
        let i15: usize = self.15.to_usize();
        proof {
            let h0 = self.0.position();
            let b0 = T0::cardinality();
            lemma_digit_step(h0, b0, self.1.position(), T1::cardinality());
            let h1 = h0 * T1::cardinality() + self.1.position();
            let b1 = b0 * T1::cardinality();
            lemma_digit_step(h1, b1, self.2.position(), T2::cardinality());
            let h2 = h1 * T2::cardinality() + self.2.position();
            let b2 = b1 * T2::cardinality();
            lemma_digit_step(h2, b2, self.3.position(), T3::cardinality());
            let h3 = h2 * T3::cardinality() + self.3.position();
            let b3 = b2 * T3::cardinality();
            lemma_digit_step(h3, b3, self.4.position(), T4::cardinality());
            let h4 = h3 * T4::cardinality() + self.4.position();
            let b4 = b3 * T4::cardinality();
            lemma_digit_step(h4, b4, self.5.position(), T5::cardinality());
            let h5 = h4 * T5::cardinality() + self.5.position();
            let b5 = b4 * T5::cardinality();
            lemma_digit_step(h5, b5, self.6.position(), T6::cardinality());
            let h6 = h5 * T6::cardinality() + self.6.position();
            let b6 = b5 * T6::cardinality();
            lemma_digit_step(h6, b6, self.7.position(), T7::cardinality());
            let h7 = h6 * T7::cardinality() + self.7.position();
            let b7 = b6 * T7::cardinality();
            lemma_digit_step(h7, b7, self.8.position(), T8::cardinality());
            let h8 = h7 * T8::cardinality() + self.8.position();
            let b8 = b7 * T8::cardinality();
            lemma_digit_step(h8, b8, self.9.position(), T9::cardinality());
            let h9 = h8 * T9::cardinality() + self.9.position();
            let b9 = b8 * T9::cardinality();
            lemma_digit_step(h9, b9, self.10.position(), T10::cardinality());
            let h10 = h9 * T10::cardinality() + self.10.position();
            let b10 = b9 * T10::cardinality();
            lemma_digit_step(h10, b10, self.11.position(), T11::cardinality());
            let h11 = h10 * T11::cardinality() + self.11.position();
            let b11 = b10 * T11::cardinality();
            lemma_digit_step(h11, b11, self.12.position(), T12::cardinality());
            let h12 = h11 * T12::cardinality() + self.12.position();
            let b12 = b11 * T12::cardinality();
            lemma_digit_step(h12, b12, self.13.position(), T13::cardinality());
            let h13 = h12 * T13::cardinality() + self.13.position();
            let b13 = b12 * T13::cardinality();
            lemma_digit_step(h13, b13, self.14.position(), T14::cardinality());
            let h14 = h13 * T14::cardinality() + self.14.position();
            let b14 = b13 * T14::cardinality();
            lemma_digit_step(h14, b14, self.15.position(), T15::cardinality());
            let h15 = h14 * T15::cardinality() + self.15.position();
            let b15 = b14 * T15::cardinality();
            lemma_factor(b14, T15::cardinality());
            lemma_factor(b13, T14::cardinality());
            lemma_factor(b12, T13::cardinality());
            lemma_factor(b11, T12::cardinality());
            lemma_factor(b10, T11::cardinality());
            lemma_factor(b9, T10::cardinality());
            lemma_factor(b8, T9::cardinality());
            lemma_factor(b7, T8::cardinality());
            lemma_factor(b6, T7::cardinality());
            lemma_factor(b5, T6::cardinality());
            lemma_factor(b4, T5::cardinality());
            lemma_factor(b3, T4::cardinality());
            lemma_factor(b2, T3::cardinality());
            lemma_factor(b1, T2::cardinality());
            lemma_factor(b0, T1::cardinality());
        }
        let h1: usize = i0 * T1::inhabitants() + i1;
        let h2: usize = h1 * T2::inhabitants() + i2;
        let h3: usize = h2 * T3::inhabitants() + i3;
        let h4: usize = h3 * T4::inhabitants() + i4;
        let h5: usize = h4 * T5::inhabitants() + i5;
        let h6: usize = h5 * T6::inhabitants() + i6;
        let h7: usize = h6 * T7::inhabitants() + i7;
        let h8: usize = h7 * T8::inhabitants() + i8;
        let h9: usize = h8 * T9::inhabitants() + i9;
        let h10: usize = h9 * T10::inhabitants() + i10;
        let h11: usize = h10 * T11::inhabitants() + i11;
        let h12: usize = h11 * T12::inhabitants() + i12;
        let h13: usize = h12 * T13::inhabitants() + i13;
        let h14: usize = h13 * T14::inhabitants() + i14;
        let h15: usize = h14 * T15::inhabitants() + i15;
        h15
    }

    fn from_usize(i: usize) -> (r: Option<Self>) {
        if i >= Self::inhabitants() {
            return None;
        }
        proof {
            let b0 = T0::cardinality();
            let b1 = b0 * T1::cardinality();
            let b2 = b1 * T2::cardinality();
            let b3 = b2 * T3::cardinality();
            let b4 = b3 * T4::cardinality();
            let b5 = b4 * T5::cardinality();
            let b6 = b5 * T6::cardinality();
            let b7 = b6 * T7::cardinality();
            let b8 = b7 * T8::cardinality();
            let b9 = b8 * T9::cardinality();
            let b10 = b9 * T10::cardinality();
            let b11 = b10 * T11::cardinality();
            let b12 = b11 * T12::cardinality();
            let b13 = b12 * T13::cardinality();
            let b14 = b13 * T14::cardinality();
            let b15 = b14 * T15::cardinality();
            lemma_digit_split(i as nat, b14, T15::cardinality());
            let q15 = (i as nat) / T15::cardinality();
            lemma_digit_split(q15, b13, T14::cardinality());
            let q14 = q15 / T14::cardinality();
            lemma_digit_split(q14, b12, T13::cardinality());
            let q13 = q14 / T13::cardinality();
            lemma_digit_split(q13, b11, T12::cardinality());
            let q12 = q13 / T12::cardinality();
            lemma_digit_split(q12, b10, T11::cardinality());
            let q11 = q12 / T11::cardinality();
            lemma_digit_split(q11, b9, T10::cardinality());
            let q10 = q11 / T10::cardinality();
            lemma_digit_split(q10, b8, T9::cardinality());
            let q9 = q10 / T9::cardinality();
            lemma_digit_split(q9, b7, T8::cardinality());
            let q8 = q9 / T8::cardinality();
            lemma_digit_split(q8, b6, T7::cardinality());
            let q7 = q8 / T7::cardinality();
            lemma_digit_split(q7, b5, T6::cardinality());
            let q6 = q7 / T6::cardinality();
            lemma_digit_split(q6, b4, T5::cardinality());
            let q5 = q6 / T5::cardinality();
            lemma_digit_split(q5, b3, T4::cardinality());
            let q4 = q5 / T4::cardinality();
            lemma_digit_split(q4, b2, T3::cardinality());
            let q3 = q4 / T3::cardinality();
            lemma_digit_split(q3, b1, T2::cardinality());
            let q2 = q3 / T2::cardinality();
            lemma_digit_split(q2, b0, T1::cardinality());
            let q1 = q2 / T1::cardinality();
            lemma_digit_step(0, 1, q1, b0);
        }
        let n15: usize = T15::inhabitants();
        let d15: usize = i % n15;
        let q15: usize = i / n15;
        let n14: usize = T14::inhabitants();
        let d14: usize = q15 % n14;
        let q14: usize = q15 / n14;
        let n13: usize = T13::inhabitants();
        let d13: usize = q14 % n13;
        let q13: usize = q14 / n13;
        let n12: usize = T12::inhabitants();
        let d12: usize = q13 % n12;
        let q12: usize = q13 / n12;
        let n11: usize = T11::inhabitants();
        let d11: usize = q12 % n11;
        let q11: usize = q12 / n11;
        let n10: usize = T10::inhabitants();
        let d10: usize = q11 % n10;
        let q10: usize = q11 / n10;
        let n9: usize = T9::inhabitants();
        let d9: usize = q10 % n9;
        let q9: usize = q10 / n9;
        let n8: usize = T8::inhabitants();
        let d8: usize = q9 % n8;
        let q8: usize = q9 / n8;
        let n7: usize = T7::inhabitants();
        let d7: usize = q8 % n7;
        let q7: usize = q8 / n7;
        let n6: usize = T6::inhabitants();
        let d6: usize = q7 % n6;
        let q6: usize = q7 / n6;
        let n5: usize = T5::inhabitants();
        let d5: usize = q6 % n5;
        let q5: usize = q6 / n5;
        let n4: usize = T4::inhabitants();
        let d4: usize = q5 % n4;
        let q4: usize = q5 / n4;
        let n3: usize = T3::inhabitants();
        let d3: usize = q4 % n3;
        let q3: usize = q4 / n3;
        let n2: usize = T2::inhabitants();
        let d2: usize = q3 % n2;
        let q2: usize = q3 / n2;
        let n1: usize = T1::inhabitants();
        let d1: usize = q2 % n1;
        let q1: usize = q2 / n1;
        let n0: usize = T0::inhabitants();
        let d0: usize = q1 % n0;
        let v0 = T0::from_usize(d0).unwrap();
        let v1 = T1::from_usize(d1).unwrap();
        let v2 = T2::from_usize(d2).unwrap();
        let v3 = T3::from_usize(d3).unwrap();
        let v4 = T4::from_usize(d4).unwrap();
        let v5 = T5::from_usize(d5).unwrap();
        let v6 = T6::from_usize(d6).unwrap();
        let v7 = T7::from_usize(d7).unwrap();
        let v8 = T8::from_usize(d8).unwrap();
        let v9 = T9::from_usize(d9).unwrap();
        let v10 = T10::from_usize(d10).unwrap();
        let v11 = T11::from_usize(d11).unwrap();
        let v12 = T12::from_usize(d12).unwrap();
        let v13 = T13::from_usize(d13).unwrap();
        let v14 = T14::from_usize(d14).unwrap();
        let v15 = T15::from_usize(d15).unwrap();
        Some((v0, v1, v2, v3, v4, v5, v6, v7, v8, v9, v10, v11, v12, v13, v14, v15))
    }
}

/// The positions of the fields of a tuple of one field.
pub open spec fn tuple_digits_1<T0: Finite>(tuple: (T0,)) -> Seq<nat> {
    seq![tuple.0.position()]
}

/// The cardinalities of the fields of a tuple of one field.
pub open spec fn tuple_radices_1<T0: Finite>(tuple: (T0,)) -> Seq<nat> {
    seq![T0::cardinality()]
}

/// The position of a tuple of one field is the number that the positions of its
/// fields write in the radices of their cardinalities, and its cardinality is
/// the product of theirs.
pub proof fn lemma_tuple_as_product_1<T0: Finite>(tuple: (T0,))
    ensures
        tuple.position() == product_position(tuple_digits_1(tuple), tuple_radices_1(tuple)),
        <(T0,)>::cardinality() == product(tuple_radices_1(tuple)),
{
    let digits = seq![tuple.0.position()];
    let radices = seq![T0::cardinality()];
    lemma_product_step(digits, radices, 1);
    assert(digits == tuple_digits_1(tuple));
    assert(radices == tuple_radices_1(tuple));
}

/// The positions of the fields of a tuple of 2 fields.
pub open spec fn tuple_digits_2<T0: Finite, T1: Finite>(tuple: (T0, T1)) -> Seq<nat> {
    seq![tuple.0.position(), tuple.1.position()]
}

/// The cardinalities of the fields of a tuple of 2 fields.
pub open spec fn tuple_radices_2<T0: Finite, T1: Finite>(tuple: (T0, T1)) -> Seq<nat> {
    seq![T0::cardinality(), T1::cardinality()]
}

/// The position of a tuple of 2 fields is the number that the positions of its
/// fields write in the radices of their cardinalities, and its cardinality is
/// the product of theirs.
pub proof fn lemma_tuple_as_product_2<T0: Finite, T1: Finite>(tuple: (T0, T1))
    ensures
        tuple.position() == product_position(tuple_digits_2(tuple), tuple_radices_2(tuple)),
        <(T0, T1)>::cardinality() == product(tuple_radices_2(tuple)),
{
    let digits = seq![tuple.0.position(), tuple.1.position()];
    let radices = seq![T0::cardinality(), T1::cardinality()];
    lemma_product_step(digits, radices, 1);
    lemma_product_step(digits, radices, 2);
    assert(digits == tuple_digits_2(tuple));
    assert(radices == tuple_radices_2(tuple));
}

/// The positions of the fields of a tuple of 3 fields.
pub open spec fn tuple_digits_3<
    T0: Finite,
    T1: Finite,
    T2: Finite,
>(tuple: (T0, T1, T2)) -> Seq<nat> {
    seq![tuple.0.position(), tuple.1.position(), tuple.2.position()]
}

/// The cardinalities of the fields of a tuple of 3 fields.
pub open spec fn tuple_radices_3<
    T0: Finite,
    T1: Finite,
    T2: Finite,
>(tuple: (T0, T1, T2)) -> Seq<nat> {
    seq![T0::cardinality(), T1::cardinality(), T2::cardinality()]
}

/// The position of a tuple of 3 fields is the number that the positions of its
/// fields write in the radices of their cardinalities, and its cardinality is
/// the product of theirs.
pub proof fn lemma_tuple_as_product_3<T0: Finite, T1: Finite, T2: Finite>(tuple: (T0, T1, T2))
    ensures
        tuple.position() == product_position(tuple_digits_3(tuple), tuple_radices_3(tuple)),
        <(T0, T1, T2)>::cardinality() == product(tuple_radices_3(tuple)),
{
    let digits = seq![tuple.0.position(), tuple.1.position(), tuple.2.position()];
    let radices = seq![T0::cardinality(), T1::cardinality(), T2::cardinality()];
    lemma_product_step(digits, radices, 1);
    lemma_product_step(digits, radices, 2);
    lemma_product_step(digits, radices, 3);
    assert(digits == tuple_digits_3(tuple));
    assert(radices == tuple_radices_3(tuple));
}

/// The positions of the fields of a tuple of 4 fields.
pub open spec fn tuple_digits_4<
    T0: Finite,
    T1: Finite,
    T2: Finite,
    T3: Finite,
>(tuple: (T0, T1, T2, T3)) -> Seq<nat> {
    seq![tuple.0.position(), tuple.1.position(), tuple.2.position(), tuple.3.position()]
}

/// The cardinalities of the fields of a tuple of 4 fields.
pub open spec fn tuple_radices_4<
    T0: Finite,
    T1: Finite,
    T2: Finite,
    T3: Finite,
>(tuple: (T0, T1, T2, T3)) -> Seq<nat> {
    seq![T0::cardinality(), T1::cardinality(), T2::cardinality(), T3::cardinality()]
}

/// The position of a tuple of 4 fields is the number that the positions of its
/// fields write in the radices of their cardinalities, and its cardinality is
/// the product of theirs.
pub proof fn lemma_tuple_as_product_4<
    T0: Finite,
    T1: Finite,
    T2: Finite,
    T3: Finite,
>(tuple: (T0, T1, T2, T3))
    ensures
        tuple.position() == product_position(tuple_digits_4(tuple), tuple_radices_4(tuple)),
        <(T0, T1, T2, T3)>::cardinality() == product(tuple_radices_4(tuple)),
{
    let digits = seq![
        tuple.0.position(),
        tuple.1.position(),
        tuple.2.position(),
        tuple.3.position(),
    ];
    let radices = seq![
        T0::cardinality(),
        T1::cardinality(),
        T2::cardinality(),
        T3::cardinality(),
    ];
    lemma_product_step(digits, radices, 1);
    lemma_product_step(digits, radices, 2);
    lemma_product_step(digits, radices, 3);
    lemma_product_step(digits, radices, 4);
    assert(digits == tuple_digits_4(tuple));
    assert(radices == tuple_radices_4(tuple));
}

/// The positions of the fields of a tuple of 5 fields.
pub open spec fn tuple_digits_5<
    T0: Finite,
    T1: Finite,
    T2: Finite,
    T3: Finite,
    T4: Finite,
>(tuple: (T0, T1, T2, T3, T4)) -> Seq<nat> {
    seq![
        tuple.0.position(),
        tuple.1.position(),
        tuple.2.position(),
        tuple.3.position(),
        tuple.4.position(),
    ]
}

/// The cardinalities of the fields of a tuple of 5 fields.
pub open spec fn tuple_radices_5<
    T0: Finite,
    T1: Finite,
    T2: Finite,
    T3: Finite,
    T4: Finite,
>(tuple: (T0, T1, T2, T3, T4)) -> Seq<nat> {
    seq![
        T0::cardinality(),
        T1::cardinality(),
        T2::cardinality(),
        T3::cardinality(),
        T4::cardinality(),
    ]
}

/// The position of a tuple of 5 fields is the number that the positions of its
/// fields write in the radices of their cardinalities, and its cardinality is
/// the product of theirs.
pub proof fn lemma_tuple_as_product_5<
    T0: Finite,
    T1: Finite,
    T2: Finite,
    T3: Finite,
    T4: Finite,
>(tuple: (T0, T1, T2, T3, T4))
    ensures
        tuple.position() == product_position(tuple_digits_5(tuple), tuple_radices_5(tuple)),
        <(T0, T1, T2, T3, T4)>::cardinality() == product(tuple_radices_5(tuple)),
{
    let digits = seq![
        tuple.0.position(),
        tuple.1.position(),
        tuple.2.position(),
        tuple.3.position(),
        tuple.4.position(),
    ];
    let radices = seq![
        T0::cardinality(),
        T1::cardinality(),
        T2::cardinality(),
        T3::cardinality(),
        T4::cardinality(),
    ];
    lemma_product_step(digits, radices, 1);
    lemma_product_step(digits, radices, 2);
    lemma_product_step(digits, radices, 3);
    lemma_product_step(digits, radices, 4);
    lemma_product_step(digits, radices, 5);
    assert(digits == tuple_digits_5(tuple));
    assert(radices == tuple_radices_5(tuple));
}

/// The positions of the fields of a tuple of 6 fields.
pub open spec fn tuple_digits_6<
    T0: Finite,
    T1: Finite,
    T2: Finite,
    T3: Finite,
    T4: Finite,
    T5: Finite,
>(tuple: (T0, T1, T2, T3, T4, T5)) -> Seq<nat> {
    seq![
        tuple.0.position(),
        tuple.1.position(),
        tuple.2.position(),
        tuple.3.position(),
        tuple.4.position(),
        tuple.5.position(),
    ]
}

/// The cardinalities of the fields of a tuple of 6 fields.
pub open spec fn tuple_radices_6<
    T0: Finite,
    T1: Finite,
    T2: Finite,
    T3: Finite,
    T4: Finite,
    T5: Finite,
>(tuple: (T0, T1, T2, T3, T4, T5)) -> Seq<nat> {
    seq![
        T0::cardinality(),
        T1::cardinality(),
        T2::cardinality(),
        T3::cardinality(),
        T4::cardinality(),
        T5::cardinality(),
    ]
}

/// The position of a tuple of 6 fields is the number that the positions of its
/// fields write in the radices of their cardinalities, and its cardinality is
/// the product of theirs.
pub proof fn lemma_tuple_as_product_6<
    T0: Finite,
    T1: Finite,
    T2: Finite,
    T3: Finite,
    T4: Finite,
    T5: Finite,
>(tuple: (T0, T1, T2, T3, T4, T5))
    ensures
        tuple.position() == product_position(tuple_digits_6(tuple), tuple_radices_6(tuple)),
        <(T0, T1, T2, T3, T4, T5)>::cardinality() == product(tuple_radices_6(tuple)),
{
    let digits = seq![
        tuple.0.position(),
        tuple.1.position(),
        tuple.2.position(),
        tuple.3.position(),
        tuple.4.position(),
        tuple.5.position(),
    ];
    let radices = seq![
        T0::cardinality(),
        T1::cardinality(),
        T2::cardinality(),
        T3::cardinality(),
        T4::cardinality(),
        T5::cardinality(),
    ];
    lemma_product_step(digits, radices, 1);
    lemma_product_step(digits, radices, 2);
    lemma_product_step(digits, radices, 3);
    lemma_product_step(digits, radices, 4);
    lemma_product_step(digits, radices, 5);
    lemma_product_step(digits, radices, 6);
    assert(digits == tuple_digits_6(tuple));
    assert(radices == tuple_radices_6(tuple));
}

/// The positions of the fields of a tuple of 7 fields.
pub open spec fn tuple_digits_7<
    T0: Finite,
    T1: Finite,
    T2: Finite,
    T3: Finite,
    T4: Finite,
    T5: Finite,
    T6: Finite,
>(tuple: (T0, T1, T2, T3, T4, T5, T6)) -> Seq<nat> {
    seq![
        tuple.0.position(),
        tuple.1.position(),
        tuple.2.position(),
        tuple.3.position(),
        tuple.4.position(),
        tuple.5.position(),
        tuple.6.position(),
    ]
}

/// The cardinalities of the fields of a tuple of 7 fields.
pub open spec fn tuple_radices_7<
    T0: Finite,
    T1: Finite,
    T2: Finite,
    T3: Finite,
    T4: Finite,
    T5: Finite,
    T6: Finite,
>(tuple: (T0, T1, T2, T3, T4, T5, T6)) -> Seq<nat> {
    seq![
        T0::cardinality(),
        T1::cardinality(),
        T2::cardinality(),
        T3::cardinality(),
        T4::cardinality(),
        T5::cardinality(),
        T6::cardinality(),
    ]
}

/// The position of a tuple of 7 fields is the number that the positions of its
/// fields write in the radices of their cardinalities, and its cardinality is
/// the product of theirs.
pub proof fn lemma_tuple_as_product_7<
    T0: Finite,
    T1: Finite,
    T2: Finite,
    T3: Finite,
    T4: Finite,
    T5: Finite,
    T6: Finite,
>(tuple: (T0, T1, T2, T3, T4, T5, T6))
    ensures
        tuple.position() == product_position(tuple_digits_7(tuple), tuple_radices_7(tuple)),
        <(T0, T1, T2, T3, T4, T5, T6)>::cardinality() == product(tuple_radices_7(tuple)),
{
    let digits = seq![
        tuple.0.position(),
        tuple.1.position(),
        tuple.2.position(),
        tuple.3.position(),
        tuple.4.position(),
        tuple.5.position(),
        tuple.6.position(),
    ];
    let radices = seq![
        T0::cardinality(),
        T1::cardinality(),
        T2::cardinality(),
        T3::cardinality(),
        T4::cardinality(),
        T5::cardinality(),
        T6::cardinality(),
    ];
    lemma_product_step(digits, radices, 1);
    lemma_product_step(digits, radices, 2);
    lemma_product_step(digits, radices, 3);
    lemma_product_step(digits, radices, 4);
    lemma_product_step(digits, radices, 5);
    lemma_product_step(digits, radices, 6);
    lemma_product_step(digits, radices, 7);
    assert(digits == tuple_digits_7(tuple));
    assert(radices == tuple_radices_7(tuple));
}

/// The positions of the fields of a tuple of 8 fields.
pub open spec fn tuple_digits_8<
    T0: Finite,
    T1: Finite,
    T2: Finite,
    T3: Finite,
    T4: Finite,
    T5: Finite,
    T6: Finite,
    T7: Finite,
>(tuple: (T0, T1, T2, T3, T4, T5, T6, T7)) -> Seq<nat> {
    seq![
        tuple.0.position(),
        tuple.1.position(),
        tuple.2.position(),
        tuple.3.position(),
        tuple.4.position(),
        tuple.5.position(),
        tuple.6.position(),
        tuple.7.position(),
    ]
}

/// The cardinalities of the fields of a tuple of 8 fields.
pub open spec fn tuple_radices_8<
    T0: Finite,
    T1: Finite,
    T2: Finite,
    T3: Finite,
    T4: Finite,
    T5: Finite,
    T6: Finite,
    T7: Finite,
>(tuple: (T0, T1, T2, T3, T4, T5, T6, T7)) -> Seq<nat> {
    seq![
        T0::cardinality(),
        T1::cardinality(),
        T2::cardinality(),
        T3::cardinality(),
        T4::cardinality(),
        T5::cardinality(),
        T6::cardinality(),
        T7::cardinality(),
    ]
}

/// The position of a tuple of 8 fields is the number that the positions of its
/// fields write in the radices of their cardinalities, and its cardinality is
/// the product of theirs.
pub proof fn lemma_tuple_as_product_8<
    T0: Finite,
    T1: Finite,
    T2: Finite,
    T3: Finite,
    T4: Finite,
    T5: Finite,
    T6: Finite,
    T7: Finite,
>(tuple: (T0, T1, T2, T3, T4, T5, T6, T7))
    ensures
        tuple.position() == product_position(tuple_digits_8(tuple), tuple_radices_8(tuple)),
        <(T0, T1, T2, T3, T4, T5, T6, T7)>::cardinality() == product(tuple_radices_8(tuple)),
{
    let digits = seq![
        tuple.0.position(),
        tuple.1.position(),
        tuple.2.position(),
        tuple.3.position(),
        tuple.4.position(),
        tuple.5.position(),
        tuple.6.position(),
        tuple.7.position(),
    ];
    let radices = seq![
        T0::cardinality(),
        T1::cardinality(),
        T2::cardinality(),
        T3::cardinality(),
        T4::cardinality(),
        T5::cardinality(),
        T6::cardinality(),
        T7::cardinality(),
    ];
    lemma_product_step(digits, radices, 1);
    lemma_product_step(digits, radices, 2);
    lemma_product_step(digits, radices, 3);
    lemma_product_step(digits, radices, 4);
    lemma_product_step(digits, radices, 5);
    lemma_product_step(digits, radices, 6);
    lemma_product_step(digits, radices, 7);
    lemma_product_step(digits, radices, 8);
    assert(digits == tuple_digits_8(tuple));
    assert(radices == tuple_radices_8(tuple));
}

/// The positions of the fields of a tuple of 9 fields.
pub open spec fn tuple_digits_9<
    T0: Finite,
    T1: Finite,
    T2: Finite,
    T3: Finite,
    T4: Finite,
    T5: Finite,
    T6: Finite,
    T7: Finite,
    T8: Finite,
>(tuple: (T0, T1, T2, T3, T4, T5, T6, T7, T8)) -> Seq<nat> {
    seq![
        tuple.0.position(),
        tuple.1.position(),
        tuple.2.position(),
        tuple.3.position(),
        tuple.4.position(),
        tuple.5.position(),
        tuple.6.position(),
        tuple.7.position(),
        tuple.8.position(),
    ]
}

/// The cardinalities of the fields of a tuple of 9 fields.
pub open spec fn tuple_radices_9<
    T0: Finite,
    T1: Finite,
    T2: Finite,
    T3: Finite,
    T4: Finite,
    T5: Finite,
    T6: Finite,
    T7: Finite,
    T8: Finite,
>(tuple: (T0, T1, T2, T3, T4, T5, T6, T7, T8)) -> Seq<nat> {
    seq![
        T0::cardinality(),
        T1::cardinality(),
        T2::cardinality(),
        T3::cardinality(),
        T4::cardinality(),
        T5::cardinality(),
        T6::cardinality(),
        T7::cardinality(),
        T8::cardinality(),
    ]
}

/// The position of a tuple of 9 fields is the number that the positions of its
/// fields write in the radices of their cardinalities, and its cardinality is
/// the product of theirs.
pub proof fn lemma_tuple_as_product_9<
    T0: Finite,
    T1: Finite,
    T2: Finite,
    T3: Finite,
    T4: Finite,
    T5: Finite,
    T6: Finite,
    T7: Finite,
    T8: Finite,
>(tuple: (T0, T1, T2, T3, T4, T5, T6, T7, T8))
    ensures
        tuple.position() == product_position(tuple_digits_9(tuple), tuple_radices_9(tuple)),
        <(T0, T1, T2, T3, T4, T5, T6, T7, T8)>::cardinality() == product(tuple_radices_9(tuple)),
{
    let digits = seq![
        tuple.0.position(),
        tuple.1.position(),
        tuple.2.position(),
        tuple.3.position(),
        tuple.4.position(),
        tuple.5.position(),
        tuple.6.position(),
        tuple.7.position(),
        tuple.8.position(),
    ];
    let radices = seq![
        T0::cardinality(),
        T1::cardinality(),
        T2::cardinality(),
        T3::cardinality(),
        T4::cardinality(),
        T5::cardinality(),
        T6::cardinality(),
        T7::cardinality(),
        T8::cardinality(),
    ];
    lemma_product_step(digits, radices, 1);
    lemma_product_step(digits, radices, 2);
    lemma_product_step(digits, radices, 3);
    lemma_product_step(digits, radices, 4);
    lemma_product_step(digits, radices, 5);
    lemma_product_step(digits, radices, 6);
    lemma_product_step(digits, radices, 7);
    lemma_product_step(digits, radices, 8);
    lemma_product_step(digits, radices, 9);
    assert(digits == tuple_digits_9(tuple));
    assert(radices == tuple_radices_9(tuple));
}

/// The positions of the fields of a tuple of 10 fields.
pub open spec fn tuple_digits_10<
    T0: Finite,
    T1: Finite,
    T2: Finite,
    T3: Finite,
    T4: Finite,
    T5: Finite,
    T6: Finite,
    T7: Finite,
    T8: Finite,
    T9: Finite,
>(tuple: (T0, T1, T2, T3, T4, T5, T6, T7, T8, T9)) -> Seq<nat> {
    seq![
        tuple.0.position(),
        tuple.1.position(),
        tuple.2.position(),
        tuple.3.position(),
        tuple.4.position(),
        tuple.5.position(),
        tuple.6.position(),
        tuple.7.position(),
        tuple.8.position(),
        tuple.9.position(),
    ]
}

/// The cardinalities of the fields of a tuple of 10 fields.
pub open spec fn tuple_radices_10<
    T0: Finite,
    T1: Finite,
    T2: Finite,
    T3: Finite,
    T4: Finite,
    T5: Finite,
    T6: Finite,
    T7: Finite,
    T8: Finite,
    T9: Finite,
>(tuple: (T0, T1, T2, T3, T4, T5, T6, T7, T8, T9)) -> Seq<nat> {
    seq![
        T0::cardinality(),
        T1::cardinality(),
        T2::cardinality(),
        T3::cardinality(),
        T4::cardinality(),
        T5::cardinality(),
        T6::cardinality(),
        T7::cardinality(),
        T8::cardinality(),
        T9::cardinality(),
    ]
}

/// The position of a tuple of 10 fields is the number that the positions of its
/// fields write in the radices of their cardinalities, and its cardinality is
/// the product of theirs.
pub proof fn lemma_tuple_as_product_10<
    T0: Finite,
    T1: Finite,
    T2: Finite,
    T3: Finite,
    T4: Finite,
    T5: Finite,
    T6: Finite,
    T7: Finite,
    T8: Finite,
    T9: Finite,
>(tuple: (T0, T1, T2, T3, T4, T5, T6, T7, T8, T9))
    ensures
        tuple.position() == product_position(tuple_digits_10(tuple), tuple_radices_10(tuple)),
        <(T0, T1, T2, T3, T4, T5, T6, T7, T8, T9)>::cardinality()
            == product(tuple_radices_10(tuple)),
{
    let digits = seq![
        tuple.0.position(),
        tuple.1.position(),
        tuple.2.position(),
        tuple.3.position(),
        tuple.4.position(),
        tuple.5.position(),
        tuple.6.position(),
        tuple.7.position(),
        tuple.8.position(),
        tuple.9.position(),
    ];
    let radices = seq![
        T0::cardinality(),
        T1::cardinality(),
        T2::cardinality(),
        T3::cardinality(),
        T4::cardinality(),
        T5::cardinality(),
        T6::cardinality(),
        T7::cardinality(),
        T8::cardinality(),
        T9::cardinality(),
    ];
    lemma_product_step(digits, radices, 1);
    lemma_product_step(digits, radices, 2);
    lemma_product_step(digits, radices, 3);
    lemma_product_step(digits, radices, 4);
    lemma_product_step(digits, radices, 5);
    lemma_product_step(digits, radices, 6);
    lemma_product_step(digits, radices, 7);
    lemma_product_step(digits, radices, 8);
    lemma_product_step(digits, radices, 9);
    lemma_product_step(digits, radices, 10);
    assert(digits == tuple_digits_10(tuple));
    assert(radices == tuple_radices_10(tuple));
}

/// The positions of the fields of a tuple of 11 fields.
pub open spec fn tuple_digits_11<
    T0: Finite,
    T1: Finite,
    T2: Finite,
    T3: Finite,
    T4: Finite,
    T5: Finite,
    T6: Finite,
    T7: Finite,
    T8: Finite,
    T9: Finite,
    T10: Finite,
>(tuple: (T0, T1, T2, T3, T4, T5, T6, T7, T8, T9, T10)) -> Seq<nat> {
    seq![
        tuple.0.position(),
        tuple.1.position(),
        tuple.2.position(),
        tuple.3.position(),
        tuple.4.position(),
        tuple.5.position(),
        tuple.6.position(),
        tuple.7.position(),
        tuple.8.position(),
        tuple.9.position(),
        tuple.10.position(),
    ]
}

/// The cardinalities of the fields of a tuple of 11 fields.
pub open spec fn tuple_radices_11<
    T0: Finite,
    T1: Finite,
    T2: Finite,
    T3: Finite,
    T4: Finite,
    T5: Finite,
    T6: Finite,
    T7: Finite,
    T8: Finite,
    T9: Finite,
    T10: Finite,
>(tuple: (T0, T1, T2, T3, T4, T5, T6, T7, T8, T9, T10)) -> Seq<nat> {
    seq![
        T0::cardinality(),
        T1::cardinality(),
        T2::cardinality(),
        T3::cardinality(),
        T4::cardinality(),
        T5::cardinality(),
        T6::cardinality(),
        T7::cardinality(),
        T8::cardinality(),
        T9::cardinality(),
        T10::cardinality(),
    ]
}

/// The position of a tuple of 11 fields is the number that the positions of its
/// fields write in the radices of their cardinalities, and its cardinality is
/// the product of theirs.
pub proof fn lemma_tuple_as_product_11<
    T0: Finite,
    T1: Finite,
    T2: Finite,
    T3: Finite,
    T4: Finite,
    T5: Finite,
    T6: Finite,
    T7: Finite,
    T8: Finite,
    T9: Finite,
    T10: Finite,
>(tuple: (T0, T1, T2, T3, T4, T5, T6, T7, T8, T9, T10))
    ensures
        tuple.position() == product_position(tuple_digits_11(tuple), tuple_radices_11(tuple)),
        <(T0, T1, T2, T3, T4, T5, T6, T7, T8, T9, T10)>::cardinality()
            == product(tuple_radices_11(tuple)),
{
    let digits = seq![
        tuple.0.position(),
        tuple.1.position(),
        tuple.2.position(),
        tuple.3.position(),
        tuple.4.position(),
        tuple.5.position(),
        tuple.6.position(),
        tuple.7.position(),
        tuple.8.position(),
        tuple.9.position(),
        tuple.10.position(),
    ];
    let radices = seq![
        T0::cardinality(),
        T1::cardinality(),
        T2::cardinality(),
        T3::cardinality(),
        T4::cardinality(),
        T5::cardinality(),
        T6::cardinality(),
        T7::cardinality(),
        T8::cardinality(),
        T9::cardinality(),
        T10::cardinality(),
    ];
    lemma_product_step(digits, radices, 1);
    lemma_product_step(digits, radices, 2);
    lemma_product_step(digits, radices, 3);
    lemma_product_step(digits, radices, 4);
    lemma_product_step(digits, radices, 5);
    lemma_product_step(digits, radices, 6);
    lemma_product_step(digits, radices, 7);
    lemma_product_step(digits, radices, 8);
    lemma_product_step(digits, radices, 9);
    lemma_product_step(digits, radices, 10);
    lemma_product_step(digits, radices, 11);
    assert(digits == tuple_digits_11(tuple));
    assert(radices == tuple_radices_11(tuple));
}

/// The positions of the fields of a tuple of 12 fields.
pub open spec fn tuple_digits_12<
    T0: Finite,
    T1: Finite,
    T2: Finite,
    T3: Finite,
    T4: Finite,
    T5: Finite,
    T6: Finite,
    T7: Finite,
    T8: Finite,
    T9: Finite,
    T10: Finite,
    T11: Finite,
>(tuple: (T0, T1, T2, T3, T4, T5, T6, T7, T8, T9, T10, T11)) -> Seq<nat> {
    seq![
        tuple.0.position(),
        tuple.1.position(),
        tuple.2.position(),
        tuple.3.position(),
        tuple.4.position(),
        tuple.5.position(),
        tuple.6.position(),
        tuple.7.position(),
        tuple.8.position(),
        tuple.9.position(),
        tuple.10.position(),
        tuple.11.position(),
    ]
}

/// The cardinalities of the fields of a tuple of 12 fields.
pub open spec fn tuple_radices_12<
    T0: Finite,
    T1: Finite,
    T2: Finite,
    T3: Finite,
    T4: Finite,
    T5: Finite,
    T6: Finite,
    T7: Finite,
    T8: Finite,
    T9: Finite,
    T10: Finite,
    T11: Finite,
>(tuple: (T0, T1, T2, T3, T4, T5, T6, T7, T8, T9, T10, T11)) -> Seq<nat> {
    seq![
        T0::cardinality(),
        T1::cardinality(),
        T2::cardinality(),
        T3::cardinality(),
        T4::cardinality(),
        T5::cardinality(),
        T6::cardinality(),
        T7::cardinality(),
        T8::cardinality(),
        T9::cardinality(),
        T10::cardinality(),
        T11::cardinality(),
    ]
}

/// The position of a tuple of 12 fields is the number that the positions of its
/// fields write in the radices of their cardinalities, and its cardinality is
/// the product of theirs.
pub proof fn lemma_tuple_as_product_12<
    T0: Finite,
    T1: Finite,
    T2: Finite,
    T3: Finite,
    T4: Finite,
    T5: Finite,
    T6: Finite,
    T7: Finite,
    T8: Finite,
    T9: Finite,
    T10: Finite,
    T11: Finite,
>(tuple: (T0, T1, T2, T3, T4, T5, T6, T7, T8, T9, T10, T11))
    ensures
        tuple.position() == product_position(tuple_digits_12(tuple), tuple_radices_12(tuple)),
        <(T0, T1, T2, T3, T4, T5, T6, T7, T8, T9, T10, T11)>::cardinality()
            == product(tuple_radices_12(tuple)),
{
    let digits = seq![
        tuple.0.position(),
        tuple.1.position(),
        tuple.2.position(),
        tuple.3.position(),
        tuple.4.position(),
        tuple.5.position(),
        tuple.6.position(),
        tuple.7.position(),
        tuple.8.position(),
        tuple.9.position(),
        tuple.10.position(),
        tuple.11.position(),
    ];
    let radices = seq![
        T0::cardinality(),
        T1::cardinality(),
        T2::cardinality(),
        T3::cardinality(),
        T4::cardinality(),
        T5::cardinality(),
        T6::cardinality(),
        T7::cardinality(),
        T8::cardinality(),
        T9::cardinality(),
        T10::cardinality(),
        T11::cardinality(),
    ];
    lemma_product_step(digits, radices, 1);
    lemma_product_step(digits, radices, 2);
    lemma_product_step(digits, radices, 3);
    lemma_product_step(digits, radices, 4);
    lemma_product_step(digits, radices, 5);
    lemma_product_step(digits, radices, 6);
    lemma_product_step(digits, radices, 7);
    lemma_product_step(digits, radices, 8);
    lemma_product_step(digits, radices, 9);
    lemma_product_step(digits, radices, 10);
    lemma_product_step(digits, radices, 11);
    lemma_product_step(digits, radices, 12);
    assert(digits == tuple_digits_12(tuple));
    assert(radices == tuple_radices_12(tuple));
}

/// The positions of the fields of a tuple of 13 fields.
pub open spec fn tuple_digits_13<
    T0: Finite,
    T1: Finite,
    T2: Finite,
    T3: Finite,
    T4: Finite,
    T5: Finite,
    T6: Finite,
    T7: Finite,
    T8: Finite,
    T9: Finite,
    T10: Finite,
    T11: Finite,
    T12: Finite,
>(tuple: (T0, T1, T2, T3, T4, T5, T6, T7, T8, T9, T10, T11, T12)) -> Seq<nat> {
    seq![
        tuple.0.position(),
        tuple.1.position(),
        tuple.2.position(),
        tuple.3.position(),
        tuple.4.position(),
        tuple.5.position(),
        tuple.6.position(),
        tuple.7.position(),
        tuple.8.position(),
        tuple.9.position(),
        tuple.10.position(),
        tuple.11.position(),
        tuple.12.position(),
    ]
}

/// The cardinalities of the fields of a tuple of 13 fields.
pub open spec fn tuple_radices_13<
    T0: Finite,
    T1: Finite,
    T2: Finite,
    T3: Finite,
    T4: Finite,
    T5: Finite,
    T6: Finite,
    T7: Finite,
    T8: Finite,
    T9: Finite,
    T10: Finite,
    T11: Finite,
    T12: Finite,
>(tuple: (T0, T1, T2, T3, T4, T5, T6, T7, T8, T9, T10, T11, T12)) -> Seq<nat> {
    seq![
        T0::cardinality(),
        T1::cardinality(),
        T2::cardinality(),
        T3::cardinality(),
        T4::cardinality(),
        T5::cardinality(),
        T6::cardinality(),
        T7::cardinality(),
        T8::cardinality(),
        T9::cardinality(),
        T10::cardinality(),
        T11::cardinality(),
        T12::cardinality(),
    ]
}

/// The position of a tuple of 13 fields is the number that the positions of its
/// fields write in the radices of their cardinalities, and its cardinality is
/// the product of theirs.
pub proof fn lemma_tuple_as_product_13<
    T0: Finite,
    T1: Finite,
    T2: Finite,
    T3: Finite,
    T4: Finite,
    T5: Finite,
    T6: Finite,
    T7: Finite,
    T8: Finite,
    T9: Finite,
    T10: Finite,
    T11: Finite,
    T12: Finite,
>(tuple: (T0, T1, T2, T3, T4, T5, T6, T7, T8, T9, T10, T11, T12))
    ensures
        tuple.position() == product_position(tuple_digits_13(tuple), tuple_radices_13(tuple)),
        <(T0, T1, T2, T3, T4, T5, T6, T7, T8, T9, T10, T11, T12)>::cardinality()
            == product(tuple_radices_13(tuple)),
{
    let digits = seq![
        tuple.0.position(),
        tuple.1.position(),
        tuple.2.position(),
        tuple.3.position(),
        tuple.4.position(),
        tuple.5.position(),
        tuple.6.position(),
        tuple.7.position(),
        tuple.8.position(),
        tuple.9.position(),
        tuple.10.position(),
        tuple.11.position(),
        tuple.12.position(),
    ];
    let radices = seq![
        T0::cardinality(),
        T1::cardinality(),
        T2::cardinality(),
        T3::cardinality(),
        T4::cardinality(),
        T5::cardinality(),
        T6::cardinality(),
        T7::cardinality(),
        T8::cardinality(),
        T9::cardinality(),
        T10::cardinality(),
        T11::cardinality(),
        T12::cardinality(),
    ];
    lemma_product_step(digits, radices, 1);
    lemma_product_step(digits, radices, 2);
    lemma_product_step(digits, radices, 3);
    lemma_product_step(digits, radices, 4);
    lemma_product_step(digits, radices, 5);
    lemma_product_step(digits, radices, 6);
    lemma_product_step(digits, radices, 7);
    lemma_product_step(digits, radices, 8);
    lemma_product_step(digits, radices, 9);
    lemma_product_step(digits, radices, 10);
    lemma_product_step(digits, radices, 11);
    lemma_product_step(digits, radices, 12);
    lemma_product_step(digits, radices, 13);
    assert(digits == tuple_digits_13(tuple));
    assert(radices == tuple_radices_13(tuple));
}

/// The positions of the fields of a tuple of 14 fields.
pub open spec fn tuple_digits_14<
    T0: Finite,
    T1: Finite,
    T2: Finite,
    T3: Finite,
    T4: Finite,
    T5: Finite,
    T6: Finite,
    T7: Finite,
    T8: Finite,
    T9: Finite,
    T10: Finite,
    T11: Finite,
    T12: Finite,
    T13: Finite,
>(tuple: (T0, T1, T2, T3, T4, T5, T6, T7, T8, T9, T10, T11, T12, T13)) -> Seq<nat> {
    seq![
        tuple.0.position(),
        tuple.1.position(),
        tuple.2.position(),
        tuple.3.position(),
        tuple.4.position(),
        tuple.5.position(),
        tuple.6.position(),
        tuple.7.position(),
        tuple.8.position(),
        tuple.9.position(),
        tuple.10.position(),
        tuple.11.position(),
        tuple.12.position(),
        tuple.13.position(),
    ]
}

/// The cardinalities of the fields of a tuple of 14 fields.
pub open spec fn tuple_radices_14<
    T0: Finite,
    T1: Finite,
    T2: Finite,
    T3: Finite,
    T4: Finite,
    T5: Finite,
    T6: Finite,
    T7: Finite,
    T8: Finite,
    T9: Finite,
    T10: Finite,
    T11: Finite,
    T12: Finite,
    T13: Finite,
>(tuple: (T0, T1, T2, T3, T4, T5, T6, T7, T8, T9, T10, T11, T12, T13)) -> Seq<nat> {
    seq![
        T0::cardinality(),
        T1::cardinality(),
        T2::cardinality(),
        T3::cardinality(),
        T4::cardinality(),
        T5::cardinality(),
        T6::cardinality(),
        T7::cardinality(),
        T8::cardinality(),
        T9::cardinality(),
        T10::cardinality(),
        T11::cardinality(),
        T12::cardinality(),
        T13::cardinality(),
    ]
}

/// The position of a tuple of 14 fields is the number that the positions of its
/// fields write in the radices of their cardinalities, and its cardinality is
/// the product of theirs.
pub proof fn lemma_tuple_as_product_14<
    T0: Finite,
    T1: Finite,
    T2: Finite,
    T3: Finite,
    T4: Finite,
    T5: Finite,
    T6: Finite,
    T7: Finite,
    T8: Finite,
    T9: Finite,
    T10: Finite,
    T11: Finite,
    T12: Finite,
    T13: Finite,
>(tuple: (T0, T1, T2, T3, T4, T5, T6, T7, T8, T9, T10, T11, T12, T13))
    ensures
        tuple.position() == product_position(tuple_digits_14(tuple), tuple_radices_14(tuple)),
        <(T0, T1, T2, T3, T4, T5, T6, T7, T8, T9, T10, T11, T12, T13)>::cardinality()
            == product(tuple_radices_14(tuple)),
{
    let digits = seq![
        tuple.0.position(),
        tuple.1.position(),
        tuple.2.position(),
        tuple.3.position(),
        tuple.4.position(),
        tuple.5.position(),
        tuple.6.position(),
        tuple.7.position(),
        tuple.8.position(),
        tuple.9.position(),
        tuple.10.position(),
        tuple.11.position(),
        tuple.12.position(),
        tuple.13.position(),
    ];
    let radices = seq![
        T0::cardinality(),
        T1::cardinality(),
        T2::cardinality(),
        T3::cardinality(),
        T4::cardinality(),
        T5::cardinality(),
        T6::cardinality(),
        T7::cardinality(),
        T8::cardinality(),
        T9::cardinality(),
        T10::cardinality(),
        T11::cardinality(),
        T12::cardinality(),
        T13::cardinality(),
    ];
    lemma_product_step(digits, radices, 1);
    lemma_product_step(digits, radices, 2);
    lemma_product_step(digits, radices, 3);
    lemma_product_step(digits, radices, 4);
    lemma_product_step(digits, radices, 5);
    lemma_product_step(digits, radices, 6);
    lemma_product_step(digits, radices, 7);
    lemma_product_step(digits, radices, 8);
    lemma_product_step(digits, radices, 9);
    lemma_product_step(digits, radices, 10);
    lemma_product_step(digits, radices, 11);
    lemma_product_step(digits, radices, 12);
    lemma_product_step(digits, radices, 13);
    lemma_product_step(digits, radices, 14);
    assert(digits == tuple_digits_14(tuple));
    assert(radices == tuple_radices_14(tuple));
}

/// The positions of the fields of a tuple of 15 fields.
pub open spec fn tuple_digits_15<
    T0: Finite,
    T1: Finite,
    T2: Finite,
    T3: Finite,
    T4: Finite,
    T5: Finite,
    T6: Finite,
    T7: Finite,
    T8: Finite,
    T9: Finite,
    T10: Finite,
    T11: Finite,
    T12: Finite,
    T13: Finite,
    T14: Finite,
>(tuple: (T0, T1, T2, T3, T4, T5, T6, T7, T8, T9, T10, T11, T12, T13, T14)) -> Seq<nat> {
    seq![
        tuple.0.position(),
        tuple.1.position(),
        tuple.2.position(),
        tuple.3.position(),
        tuple.4.position(),
        tuple.5.position(),
        tuple.6.position(),
        tuple.7.position(),
        tuple.8.position(),
        tuple.9.position(),
        tuple.10.position(),
        tuple.11.position(),
        tuple.12.position(),
        tuple.13.position(),
        tuple.14.position(),
    ]
}

/// The cardinalities of the fields of a tuple of 15 fields.
pub open spec fn tuple_radices_15<
    T0: Finite,
    T1: Finite,
    T2: Finite,
    T3: Finite,
    T4: Finite,
    T5: Finite,
    T6: Finite,
    T7: Finite,
    T8: Finite,
    T9: Finite,
    T10: Finite,
    T11: Finite,
    T12: Finite,
    T13: Finite,
    T14: Finite,
>(tuple: (T0, T1, T2, T3, T4, T5, T6, T7, T8, T9, T10, T11, T12, T13, T14)) -> Seq<nat> {
    seq![
        T0::cardinality(),
        T1::cardinality(),
        T2::cardinality(),
        T3::cardinality(),
        T4::cardinality(),
        T5::cardinality(),
        T6::cardinality(),
        T7::cardinality(),
        T8::cardinality(),
        T9::cardinality(),
        T10::cardinality(),
        T11::cardinality(),
        T12::cardinality(),
        T13::cardinality(),
        T14::cardinality(),
    ]
}

/// The position of a tuple of 15 fields is the number that the positions of its
/// fields write in the radices of their cardinalities, and its cardinality is
/// the product of theirs.
pub proof fn lemma_tuple_as_product_15<
    T0: Finite,
    T1: Finite,
    T2: Finite,
    T3: Finite,
    T4: Finite,
    T5: Finite,
    T6: Finite,
    T7: Finite,
    T8: Finite,
    T9: Finite,
    T10: Finite,
    T11: Finite,
    T12: Finite,
    T13: Finite,
    T14: Finite,
>(tuple: (T0, T1, T2, T3, T4, T5, T6, T7, T8, T9, T10, T11, T12, T13, T14))
    ensures
        tuple.position() == product_position(tuple_digits_15(tuple), tuple_radices_15(tuple)),
        <(T0, T1, T2, T3, T4, T5, T6, T7, T8, T9, T10, T11, T12, T13, T14)>::cardinality()
            == product(tuple_radices_15(tuple)),
{
    let digits = seq![
        tuple.0.position(),
        tuple.1.position(),
        tuple.2.position(),
        tuple.3.position(),
        tuple.4.position(),
        tuple.5.position(),
        tuple.6.position(),
        tuple.7.position(),
        tuple.8.position(),
        tuple.9.position(),
        tuple.10.position(),
        tuple.11.position(),
        tuple.12.position(),
        tuple.13.position(),
        tuple.14.position(),
    ];
    let radices = seq![
        T0::cardinality(),
        T1::cardinality(),
        T2::cardinality(),
        T3::cardinality(),
        T4::cardinality(),
        T5::cardinality(),
        T6::cardinality(),
        T7::cardinality(),
        T8::cardinality(),
        T9::cardinality(),
        T10::cardinality(),
        T11::cardinality(),
        T12::cardinality(),
        T13::cardinality(),
        T14::cardinality(),
    ];
    lemma_product_step(digits, radices, 1);
    lemma_product_step(digits, radices, 2);
    lemma_product_step(digits, radices, 3);
    lemma_product_step(digits, radices, 4);
    lemma_product_step(digits, radices, 5);
    lemma_product_step(digits, radices, 6);
    lemma_product_step(digits, radices, 7);
    lemma_product_step(digits, radices, 8);
    lemma_product_step(digits, radices, 9);
    lemma_product_step(digits, radices, 10);
    lemma_product_step(digits, radices, 11);
    lemma_product_step(digits, radices, 12);
    lemma_product_step(digits, radices, 13);
    lemma_product_step(digits, radices, 14);
    lemma_product_step(digits, radices, 15);
    assert(digits == tuple_digits_15(tuple));
    assert(radices == tuple_radices_15(tuple));
}

/// The positions of the fields of a tuple of 16 fields.
pub open spec fn tuple_digits_16<
    T0: Finite,
    T1: Finite,
    T2: Finite,
    T3: Finite,
    T4: Finite,
    T5: Finite,
    T6: Finite,
    T7: Finite,
    T8: Finite,
    T9: Finite,
    T10: Finite,
    T11: Finite,
    T12: Finite,
    T13: Finite,
    T14: Finite,
    T15: Finite,
>(tuple: (T0, T1, T2, T3, T4, T5, T6, T7, T8, T9, T10, T11, T12, T13, T14, T15)) -> Seq<nat> {
    seq![
        tuple.0.position(),
        tuple.1.position(),
        tuple.2.position(),
        tuple.3.position(),
        tuple.4.position(),
        tuple.5.position(),
        tuple.6.position(),
        tuple.7.position(),
        tuple.8.position(),
        tuple.9.position(),
        tuple.10.position(),
        tuple.11.position(),
        tuple.12.position(),
        tuple.13.position(),
        tuple.14.position(),
        tuple.15.position(),
    ]
}

/// The cardinalities of the fields of a tuple of 16 fields.
pub open spec fn tuple_radices_16<
    T0: Finite,
    T1: Finite,
    T2: Finite,
    T3: Finite,
    T4: Finite,
    T5: Finite,
    T6: Finite,
    T7: Finite,
    T8: Finite,
    T9: Finite,
    T10: Finite,
    T11: Finite,
    T12: Finite,
    T13: Finite,
    T14: Finite,
    T15: Finite,
>(tuple: (T0, T1, T2, T3, T4, T5, T6, T7, T8, T9, T10, T11, T12, T13, T14, T15)) -> Seq<nat> {
    seq![
        T0::cardinality(),
        T1::cardinality(),
        T2::cardinality(),
        T3::cardinality(),
        T4::cardinality(),
        T5::cardinality(),
        T6::cardinality(),
        T7::cardinality(),
        T8::cardinality(),
        T9::cardinality(),
        T10::cardinality(),
        T11::cardinality(),
        T12::cardinality(),
        T13::cardinality(),
        T14::cardinality(),
        T15::cardinality(),
    ]
}

/// The position of a tuple of 16 fields is the number that the positions of its
/// fields write in the radices of their cardinalities, and its cardinality is
/// the product of theirs.
pub proof fn lemma_tuple_as_product_16<
    T0: Finite,
    T1: Finite,
    T2: Finite,
    T3: Finite,
    T4: Finite,
    T5: Finite,
    T6: Finite,
    T7: Finite,
    T8: Finite,
    T9: Finite,
    T10: Finite,
    T11: Finite,
    T12: Finite,
    T13: Finite,
    T14: Finite,
    T15: Finite,
>(tuple: (T0, T1, T2, T3, T4, T5, T6, T7, T8, T9, T10, T11, T12, T13, T14, T15))
    ensures
        tuple.position() == product_position(tuple_digits_16(tuple), tuple_radices_16(tuple)),
        <(T0, T1, T2, T3, T4, T5, T6, T7, T8, T9, T10, T11, T12, T13, T14, T15)>::cardinality()
            == product(tuple_radices_16(tuple)),
{
    let digits = seq![
        tuple.0.position(),
        tuple.1.position(),
        tuple.2.position(),
        tuple.3.position(),
        tuple.4.position(),
        tuple.5.position(),
        tuple.6.position(),
        tuple.7.position(),
        tuple.8.position(),
        tuple.9.position(),
        tuple.10.position(),
        tuple.11.position(),
        tuple.12.position(),
        tuple.13.position(),
        tuple.14.position(),
        tuple.15.position(),
    ];
    let radices = seq![
        T0::cardinality(),
        T1::cardinality(),
        T2::cardinality(),
        T3::cardinality(),
        T4::cardinality(),
        T5::cardinality(),
        T6::cardinality(),
        T7::cardinality(),
        T8::cardinality(),
        T9::cardinality(),
        T10::cardinality(),
        T11::cardinality(),
        T12::cardinality(),
        T13::cardinality(),
        T14::cardinality(),
        T15::cardinality(),
    ];
    lemma_product_step(digits, radices, 1);
    lemma_product_step(digits, radices, 2);
    lemma_product_step(digits, radices, 3);
    lemma_product_step(digits, radices, 4);
    lemma_product_step(digits, radices, 5);
    lemma_product_step(digits, radices, 6);
    lemma_product_step(digits, radices, 7);
    lemma_product_step(digits, radices, 8);
    lemma_product_step(digits, radices, 9);
    lemma_product_step(digits, radices, 10);
    lemma_product_step(digits, radices, 11);
    lemma_product_step(digits, radices, 12);
    lemma_product_step(digits, radices, 13);
    lemma_product_step(digits, radices, 14);
    lemma_product_step(digits, radices, 15);
    lemma_product_step(digits, radices, 16);
    assert(digits == tuple_digits_16(tuple));
    assert(radices == tuple_radices_16(tuple));
}

/// An array of 1 element and the tuple of the same element have the same
/// position, and the two types have the same cardinality.
pub proof fn lemma_array_as_tuple_1<T: Finite>(items: [T; 1], tuple: (T,))
    requires
        items@[0] == tuple.0,
    ensures
        items.position() == tuple.position(),
        <[T; 1]>::cardinality() == <(T,)>::cardinality(),
{
    lemma_array_position_step::<T>(items@, 1);
    assert(items@.take(1) =~= items@);
    lemma_uniform_product(1, T::cardinality());
}

/// An array of 2 elements and the tuple of the same elements have the same
/// position, and the two types have the same cardinality.
pub proof fn lemma_array_as_tuple_2<T: Finite>(items: [T; 2], tuple: (T, T))
    requires
        items@[0] == tuple.0,
        items@[1] == tuple.1,
    ensures
        items.position() == tuple.position(),
        <[T; 2]>::cardinality() == <(T, T)>::cardinality(),
{
    lemma_array_position_step::<T>(items@, 1);
    lemma_array_position_step::<T>(items@, 2);
    assert(items@.take(2) =~= items@);
    lemma_uniform_product(2, T::cardinality());
}

/// An array of 3 elements and the tuple of the same elements have the same
/// position, and the two types have the same cardinality.
pub proof fn lemma_array_as_tuple_3<T: Finite>(items: [T; 3], tuple: (T, T, T))
    requires
        items@[0] == tuple.0,
        items@[1] == tuple.1,
        items@[2] == tuple.2,
    ensures
        items.position() == tuple.position(),
        <[T; 3]>::cardinality() == <(T, T, T)>::cardinality(),
{
    lemma_array_position_step::<T>(items@, 1);
    lemma_array_position_step::<T>(items@, 2);
    lemma_array_position_step::<T>(items@, 3);
    assert(items@.take(3) =~= items@);
    lemma_uniform_product(3, T::cardinality());
}

/// An array of 4 elements and the tuple of the same elements have the same
/// position, and the two types have the same cardinality.
pub proof fn lemma_array_as_tuple_4<T: Finite>(items: [T; 4], tuple: (T, T, T, T))
    requires
        items@[0] == tuple.0,
        items@[1] == tuple.1,
        items@[2] == tuple.2,
        items@[3] == tuple.3,
    ensures
        items.position() == tuple.position(),
        <[T; 4]>::cardinality() == <(T, T, T, T)>::cardinality(),
{
    lemma_array_position_step::<T>(items@, 1);
    lemma_array_position_step::<T>(items@, 2);
    lemma_array_position_step::<T>(items@, 3);
    lemma_array_position_step::<T>(items@, 4);
    assert(items@.take(4) =~= items@);
    lemma_uniform_product(4, T::cardinality());
}

/// An array of 5 elements and the tuple of the same elements have the same
/// position, and the two types have the same cardinality.
pub proof fn lemma_array_as_tuple_5<T: Finite>(items: [T; 5], tuple: (T, T, T, T, T))
    requires
        items@[0] == tuple.0,
        items@[1] == tuple.1,
        items@[2] == tuple.2,
        items@[3] == tuple.3,
        items@[4] == tuple.4,
    ensures
        items.position() == tuple.position(),
        <[T; 5]>::cardinality() == <(T, T, T, T, T)>::cardinality(),
{
    lemma_array_position_step::<T>(items@, 1);
    lemma_array_position_step::<T>(items@, 2);
    lemma_array_position_step::<T>(items@, 3);
    lemma_array_position_step::<T>(items@, 4);
    lemma_array_position_step::<T>(items@, 5);
    assert(items@.take(5) =~= items@);
    lemma_uniform_product(5, T::cardinality());
}

/// An array of 6 elements and the tuple of the same elements have the same
/// position, and the two types have the same cardinality.
pub proof fn lemma_array_as_tuple_6<T: Finite>(items: [T; 6], tuple: (T, T, T, T, T, T))
    requires
        items@[0] == tuple.0,
        items@[1] == tuple.1,
        items@[2] == tuple.2,
        items@[3] == tuple.3,
        items@[4] == tuple.4,
        items@[5] == tuple.5,
    ensures
        items.position() == tuple.position(),
        <[T; 6]>::cardinality() == <(T, T, T, T, T, T)>::cardinality(),
{
    lemma_array_position_step::<T>(items@, 1);
    lemma_array_position_step::<T>(items@, 2);
    lemma_array_position_step::<T>(items@, 3);
    lemma_array_position_step::<T>(items@, 4);
    lemma_array_position_step::<T>(items@, 5);
    lemma_array_position_step::<T>(items@, 6);
    assert(items@.take(6) =~= items@);
    lemma_uniform_product(6, T::cardinality());
}

/// An array of 7 elements and the tuple of the same elements have the same
/// position, and the two types have the same cardinality.
pub proof fn lemma_array_as_tuple_7<T: Finite>(items: [T; 7], tuple: (T, T, T, T, T, T, T))
    requires
        items@[0] == tuple.0,
        items@[1] == tuple.1,
        items@[2] == tuple.2,
        items@[3] == tuple.3,
        items@[4] == tuple.4,
        items@[5] == tuple.5,
        items@[6] == tuple.6,
    ensures
        items.position() == tuple.position(),
        <[T; 7]>::cardinality() == <(T, T, T, T, T, T, T)>::cardinality(),
{
    lemma_array_position_step::<T>(items@, 1);
    lemma_array_position_step::<T>(items@, 2);
    lemma_array_position_step::<T>(items@, 3);
    lemma_array_position_step::<T>(items@, 4);
    lemma_array_position_step::<T>(items@, 5);
    lemma_array_position_step::<T>(items@, 6);
    lemma_array_position_step::<T>(items@, 7);
    assert(items@.take(7) =~= items@);
    lemma_uniform_product(7, T::cardinality());
}

/// An array of 8 elements and the tuple of the same elements have the same
/// position, and the two types have the same cardinality.
pub proof fn lemma_array_as_tuple_8<T: Finite>(items: [T; 8], tuple: (T, T, T, T, T, T, T, T))
    requires
        items@[0] == tuple.0,
        items@[1] == tuple.1,
        items@[2] == tuple.2,
        items@[3] == tuple.3,
        items@[4] == tuple.4,
        items@[5] == tuple.5,
        items@[6] == tuple.6,
        items@[7] == tuple.7,
    ensures
        items.position() == tuple.position(),
        <[T; 8]>::cardinality() == <(T, T, T, T, T, T, T, T)>::cardinality(),
{
    lemma_array_position_step::<T>(items@, 1);
    lemma_array_position_step::<T>(items@, 2);
    lemma_array_position_step::<T>(items@, 3);
    lemma_array_position_step::<T>(items@, 4);
    lemma_array_position_step::<T>(items@, 5);
    lemma_array_position_step::<T>(items@, 6);
    lemma_array_position_step::<T>(items@, 7);
    lemma_array_position_step::<T>(items@, 8);
    assert(items@.take(8) =~= items@);
    lemma_uniform_product(8, T::cardinality());
}

/// An array of 9 elements and the tuple of the same elements have the same
/// position, and the two types have the same cardinality.
pub proof fn lemma_array_as_tuple_9<T: Finite>(items: [T; 9], tuple: (T, T, T, T, T, T, T, T, T))
    requires
        items@[0] == tuple.0,
        items@[1] == tuple.1,
        items@[2] == tuple.2,
        items@[3] == tuple.3,
        items@[4] == tuple.4,
        items@[5] == tuple.5,
        items@[6] == tuple.6,
        items@[7] == tuple.7,
        items@[8] == tuple.8,
    ensures
        items.position() == tuple.position(),
        <[T; 9]>::cardinality() == <(T, T, T, T, T, T, T, T, T)>::cardinality(),
{
    lemma_array_position_step::<T>(items@, 1);
    lemma_array_position_step::<T>(items@, 2);
    lemma_array_position_step::<T>(items@, 3);
    lemma_array_position_step::<T>(items@, 4);
    lemma_array_position_step::<T>(items@, 5);
    lemma_array_position_step::<T>(items@, 6);
    lemma_array_position_step::<T>(items@, 7);
    lemma_array_position_step::<T>(items@, 8);
    lemma_array_position_step::<T>(items@, 9);
    assert(items@.take(9) =~= items@);
    lemma_uniform_product(9, T::cardinality());
}

/// An array of 10 elements and the tuple of the same elements have the same
/// position, and the two types have the same cardinality.
pub proof fn lemma_array_as_tuple_10<T: Finite>(
    items: [T; 10],
    tuple: (T, T, T, T, T, T, T, T, T, T),
)
    requires
        items@[0] == tuple.0,
        items@[1] == tuple.1,
        items@[2] == tuple.2,
        items@[3] == tuple.3,
        items@[4] == tuple.4,
        items@[5] == tuple.5,
        items@[6] == tuple.6,
        items@[7] == tuple.7,
        items@[8] == tuple.8,
        items@[9] == tuple.9,
    ensures
        items.position() == tuple.position(),
        <[T; 10]>::cardinality() == <(T, T, T, T, T, T, T, T, T, T)>::cardinality(),
{
    lemma_array_position_step::<T>(items@, 1);
    lemma_array_position_step::<T>(items@, 2);
    lemma_array_position_step::<T>(items@, 3);
    lemma_array_position_step::<T>(items@, 4);
    lemma_array_position_step::<T>(items@, 5);
    lemma_array_position_step::<T>(items@, 6);
    lemma_array_position_step::<T>(items@, 7);
    lemma_array_position_step::<T>(items@, 8);
    lemma_array_position_step::<T>(items@, 9);
    lemma_array_position_step::<T>(items@, 10);
    assert(items@.take(10) =~= items@);
    lemma_uniform_product(10, T::cardinality());
}

/// An array of 11 elements and the tuple of the same elements have the same
/// position, and the two types have the same cardinality.
pub proof fn lemma_array_as_tuple_11<T: Finite>(
    items: [T; 11],
    tuple: (T, T, T, T, T, T, T, T, T, T, T),
)
    requires
        items@[0] == tuple.0,
        items@[1] == tuple.1,
        items@[2] == tuple.2,
        items@[3] == tuple.3,
        items@[4] == tuple.4,
        items@[5] == tuple.5,
        items@[6] == tuple.6,
        items@[7] == tuple.7,
        items@[8] == tuple.8,
        items@[9] == tuple.9,
        items@[10] == tuple.10,
    ensures
        items.position() == tuple.position(),
        <[T; 11]>::cardinality() == <(T, T, T, T, T, T, T, T, T, T, T)>::cardinality(),
{
    lemma_array_position_step::<T>(items@, 1);
    lemma_array_position_step::<T>(items@, 2);
    lemma_array_position_step::<T>(items@, 3);
    lemma_array_position_step::<T>(items@, 4);
    lemma_array_position_step::<T>(items@, 5);
    lemma_array_position_step::<T>(items@, 6);
    lemma_array_position_step::<T>(items@, 7);
    lemma_array_position_step::<T>(items@, 8);
    lemma_array_position_step::<T>(items@, 9);
    lemma_array_position_step::<T>(items@, 10);
    lemma_array_position_step::<T>(items@, 11);
    assert(items@.take(11) =~= items@);
    lemma_uniform_product(11, T::cardinality());
}

/// An array of 12 elements and the tuple of the same elements have the same
/// position, and the two types have the same cardinality.
pub proof fn lemma_array_as_tuple_12<T: Finite>(
    items: [T; 12],
    tuple: (T, T, T, T, T, T, T, T, T, T, T, T),
)
    requires
        items@[0] == tuple.0,
        items@[1] == tuple.1,
        items@[2] == tuple.2,
        items@[3] == tuple.3,
        items@[4] == tuple.4,
        items@[5] == tuple.5,
        items@[6] == tuple.6,
        items@[7] == tuple.7,
        items@[8] == tuple.8,
        items@[9] == tuple.9,
        items@[10] == tuple.10,
        items@[11] == tuple.11,
    ensures
        items.position() == tuple.position(),
        <[T; 12]>::cardinality() == <(T, T, T, T, T, T, T, T, T, T, T, T)>::cardinality(),
{
    lemma_array_position_step::<T>(items@, 1);
    lemma_array_position_step::<T>(items@, 2);
    lemma_array_position_step::<T>(items@, 3);
    lemma_array_position_step::<T>(items@, 4);
    lemma_array_position_step::<T>(items@, 5);
    lemma_array_position_step::<T>(items@, 6);
    lemma_array_position_step::<T>(items@, 7);
    lemma_array_position_step::<T>(items@, 8);
    lemma_array_position_step::<T>(items@, 9);
    lemma_array_position_step::<T>(items@, 10);
    lemma_array_position_step::<T>(items@, 11);
    lemma_array_position_step::<T>(items@, 12);
    assert(items@.take(12) =~= items@);
    lemma_uniform_product(12, T::cardinality());
}

/// An array of 13 elements and the tuple of the same elements have the same
/// position, and the two types have the same cardinality.
pub proof fn lemma_array_as_tuple_13<T: Finite>(
    items: [T; 13],
    tuple: (T, T, T, T, T, T, T, T, T, T, T, T, T),
)
    requires
        items@[0] == tuple.0,
        items@[1] == tuple.1,
        items@[2] == tuple.2,
        items@[3] == tuple.3,
        items@[4] == tuple.4,
        items@[5] == tuple.5,
        items@[6] == tuple.6,
        items@[7] == tuple.7,
        items@[8] == tuple.8,
        items@[9] == tuple.9,
        items@[10] == tuple.10,
        items@[11] == tuple.11,
        items@[12] == tuple.12,
    ensures
        items.position() == tuple.position(),
        <[T; 13]>::cardinality() == <(T, T, T, T, T, T, T, T, T, T, T, T, T)>::cardinality(),
{
    lemma_array_position_step::<T>(items@, 1);
    lemma_array_position_step::<T>(items@, 2);
    lemma_array_position_step::<T>(items@, 3);
    lemma_array_position_step::<T>(items@, 4);
    lemma_array_position_step::<T>(items@, 5);
    lemma_array_position_step::<T>(items@, 6);
    lemma_array_position_step::<T>(items@, 7);
    lemma_array_position_step::<T>(items@, 8);
    lemma_array_position_step::<T>(items@, 9);
    lemma_array_position_step::<T>(items@, 10);
    lemma_array_position_step::<T>(items@, 11);
    lemma_array_position_step::<T>(items@, 12);
    lemma_array_position_step::<T>(items@, 13);
    assert(items@.take(13) =~= items@);
    lemma_uniform_product(13, T::cardinality());
}

/// An array of 14 elements and the tuple of the same elements have the same
/// position, and the two types have the same cardinality.
pub proof fn lemma_array_as_tuple_14<T: Finite>(
    items: [T; 14],
    tuple: (T, T, T, T, T, T, T, T, T, T, T, T, T, T),
)
    requires
        items@[0] == tuple.0,
        items@[1] == tuple.1,
        items@[2] == tuple.2,
        items@[3] == tuple.3,
        items@[4] == tuple.4,
        items@[5] == tuple.5,
        items@[6] == tuple.6,
        items@[7] == tuple.7,
        items@[8] == tuple.8,
        items@[9] == tuple.9,
        items@[10] == tuple.10,
        items@[11] == tuple.11,
        items@[12] == tuple.12,
        items@[13] == tuple.13,
    ensures
        items.position() == tuple.position(),
        <[T; 14]>::cardinality() == <(T, T, T, T, T, T, T, T, T, T, T, T, T, T)>::cardinality(),
{
    lemma_array_position_step::<T>(items@, 1);
    lemma_array_position_step::<T>(items@, 2);
    lemma_array_position_step::<T>(items@, 3);
    lemma_array_position_step::<T>(items@, 4);
    lemma_array_position_step::<T>(items@, 5);
    lemma_array_position_step::<T>(items@, 6);
    lemma_array_position_step::<T>(items@, 7);
    lemma_array_position_step::<T>(items@, 8);
    lemma_array_position_step::<T>(items@, 9);
    lemma_array_position_step::<T>(items@, 10);
    lemma_array_position_step::<T>(items@, 11);
    lemma_array_position_step::<T>(items@, 12);
    lemma_array_position_step::<T>(items@, 13);
    lemma_array_position_step::<T>(items@, 14);
    assert(items@.take(14) =~= items@);
    lemma_uniform_product(14, T::cardinality());
}

/// An array of 15 elements and the tuple of the same elements have the same
/// position, and the two types have the same cardinality.
pub proof fn lemma_array_as_tuple_15<T: Finite>(
    items: [T; 15],
    tuple: (T, T, T, T, T, T, T, T, T, T, T, T, T, T, T),
)
    requires
        items@[0] == tuple.0,
        items@[1] == tuple.1,
        items@[2] == tuple.2,
        items@[3] == tuple.3,
        items@[4] == tuple.4,
        items@[5] == tuple.5,
        items@[6] == tuple.6,
        items@[7] == tuple.7,
        items@[8] == tuple.8,
        items@[9] == tuple.9,
        items@[10] == tuple.10,
        items@[11] == tuple.11,
        items@[12] == tuple.12,
        items@[13] == tuple.13,
        items@[14] == tuple.14,
    ensures
        items.position() == tuple.position(),
        <[T; 15]>::cardinality() == <(T, T, T, T, T, T, T, T, T, T, T, T, T, T, T)>::cardinality(),
{
    lemma_array_position_step::<T>(items@, 1);
    lemma_array_position_step::<T>(items@, 2);
    lemma_array_position_step::<T>(items@, 3);
    lemma_array_position_step::<T>(items@, 4);
    lemma_array_position_step::<T>(items@, 5);
    lemma_array_position_step::<T>(items@, 6);
    lemma_array_position_step::<T>(items@, 7);
    lemma_array_position_step::<T>(items@, 8);
    lemma_array_position_step::<T>(items@, 9);
    lemma_array_position_step::<T>(items@, 10);
    lemma_array_position_step::<T>(items@, 11);
    lemma_array_position_step::<T>(items@, 12);
    lemma_array_position_step::<T>(items@, 13);
    lemma_array_position_step::<T>(items@, 14);
    lemma_array_position_step::<T>(items@, 15);
    assert(items@.take(15) =~= items@);
    lemma_uniform_product(15, T::cardinality());
}

/// An array of 16 elements and the tuple of the same elements have the same
/// position, and the two types have the same cardinality.
pub proof fn lemma_array_as_tuple_16<T: Finite>(
    items: [T; 16],
    tuple: (T, T, T, T, T, T, T, T, T, T, T, T, T, T, T, T),
)
    requires
        items@[0] == tuple.0,
        items@[1] == tuple.1,
        items@[2] == tuple.2,
        items@[3] == tuple.3,
        items@[4] == tuple.4,
        items@[5] == tuple.5,
        items@[6] == tuple.6,
        items@[7] == tuple.7,
        items@[8] == tuple.8,
        items@[9] == tuple.9,
        items@[10] == tuple.10,
        items@[11] == tuple.11,
        items@[12] == tuple.12,
        items@[13] == tuple.13,
        items@[14] == tuple.14,
        items@[15] == tuple.15,
    ensures
        items.position() == tuple.position(),
        <[T; 16]>::cardinality() == <
            (T, T, T, T, T, T, T, T, T, T, T, T, T, T, T, T)
        >::cardinality(),
{
    lemma_array_position_step::<T>(items@, 1);
    lemma_array_position_step::<T>(items@, 2);
    lemma_array_position_step::<T>(items@, 3);
    lemma_array_position_step::<T>(items@, 4);
    lemma_array_position_step::<T>(items@, 5);
    lemma_array_position_step::<T>(items@, 6);
    lemma_array_position_step::<T>(items@, 7);
    lemma_array_position_step::<T>(items@, 8);
    lemma_array_position_step::<T>(items@, 9);
    lemma_array_position_step::<T>(items@, 10);
    lemma_array_position_step::<T>(items@, 11);
    lemma_array_position_step::<T>(items@, 12);
    lemma_array_position_step::<T>(items@, 13);
    lemma_array_position_step::<T>(items@, 14);
    lemma_array_position_step::<T>(items@, 15);
    lemma_array_position_step::<T>(items@, 16);
    assert(items@.take(16) =~= items@);
    lemma_uniform_product(16, T::cardinality());
}

} // verus!
