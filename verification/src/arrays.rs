//! The positions of arrays.
//!
//! An array `[T; N]` is a product of `N` fields of type `T`: its position is
//! the number whose `N` digits, in the radix `T::cardinality()`, are the
//! positions of the elements, the first element being the most significant.

use vstd::prelude::*;
use crate::composite::{
    digits_in_range, lemma_product_digits_of_position, lemma_product_position_bound,
    lemma_product_position_of_digits, lemma_product_prefix, lemma_product_zero, nats, product,
    product_digits, product_position, product_unindex,
};
use crate::finite::Finite;

verus! {

/// `n` radices, each `radix`.
pub open spec fn uniform(n: nat, radix: nat) -> Seq<nat> {
    Seq::new(n, |j: int| radix)
}

/// The positions of the elements of `items`.
pub open spec fn positions<T: Finite>(items: Seq<T>) -> Seq<nat> {
    Seq::new(items.len(), |j: int| items[j].position())
}

/// The inhabitants of `T` at the positions `digits`.
pub open spec fn inhabitants_at<T: Finite>(digits: Seq<nat>) -> Seq<T> {
    Seq::new(digits.len(), |j: int| T::at(digits[j]).unwrap())
}

/// An array whose first `k` elements are those of `items`.
pub open spec fn array_filled<T, const N: usize>(items: Seq<T>, k: nat) -> [T; N]
    decreases k,
{
    if k == 0 {
        arbitrary()
    } else {
        vstd::array::spec_array_update(
            array_filled::<T, N>(items, (k - 1) as nat),
            k - 1,
            items[k - 1],
        )
    }
}

/// The array whose elements are those of `items`.
pub open spec fn array_of<T, const N: usize>(items: Seq<T>) -> [T; N]
    recommends
        items.len() == N,
{
    array_filled::<T, N>(items, N as nat)
}

/// The first `k` elements of `array_filled(items, k)` are those of `items`.
proof fn lemma_array_filled<T, const N: usize>(items: Seq<T>, k: nat)
    requires
        k <= N,
        items.len() == N,
    ensures
        forall|j: int| 0 <= j < k ==> array_filled::<T, N>(items, k)@[j] == items[j],
    decreases k,
{
    if k > 0 {
        lemma_array_filled::<T, N>(items, (k - 1) as nat);
        vstd::array::axiom_spec_array_update(
            array_filled::<T, N>(items, (k - 1) as nat),
            k - 1,
            items[k - 1],
        );
    }
}

/// The elements of `array_of(items)` are those of `items`, and it is the only
/// array with these elements.
pub proof fn lemma_array_of<T, const N: usize>(items: Seq<T>)
    requires
        items.len() == N,
    ensures
        array_of::<T, N>(items)@ == items,
        forall|a: [T; N]| a@ == items ==> a == array_of::<T, N>(items),
{
    lemma_array_filled::<T, N>(items, N as nat);
    assert(array_of::<T, N>(items)@ =~= items);
    assert forall|a: [T; N]| a@ == items implies a == array_of::<T, N>(items) by {
        assert(a =~= array_of::<T, N>(items));
    }
}

/// The number that the first `k` elements of `items` write, as digits in the
/// radix `T::cardinality()`.
pub open spec fn prefix_position<T: Finite>(items: Seq<T>, k: nat) -> nat {
    product_position(positions(items.take(k as int)), uniform(k, T::cardinality()))
}

/// Each element adds a digit behind the number that the elements before it
/// write.
pub proof fn lemma_array_position_step<T: Finite>(items: Seq<T>, k: nat)
    requires
        0 < k <= items.len(),
    ensures
        prefix_position(items, 0) == 0,
        prefix_position(items, k) == prefix_position(items, (k - 1) as nat) * T::cardinality()
            + items[k - 1].position(),
        k == 1 ==> prefix_position(items, k) == items[0].position(),
{
    let digits = positions(items.take(k as int));
    let radices = uniform(k, T::cardinality());
    assert(digits.drop_last() =~= positions(items.take(k - 1)));
    assert(radices.drop_last() =~= uniform((k - 1) as nat, T::cardinality()));
    assert(0 * T::cardinality() == 0) by (nonlinear_arith);
}

/// The product of `n` equal radices grows by one factor with `n`.
pub proof fn lemma_uniform_product(n: nat, radix: nat)
    ensures
        product(uniform(0, radix)) == 1,
        product(uniform(1, radix)) == radix,
        forall|k: nat|
            0 < k <= n ==> #[trigger] product(uniform(k, radix)) == product(
                uniform((k - 1) as nat, radix),
            ) * radix,
{
    assert forall|k: nat| 0 < k <= n implies #[trigger] product(uniform(k, radix)) == product(
        uniform((k - 1) as nat, radix),
    ) * radix by {
        assert(uniform(k, radix).drop_last() =~= uniform((k - 1) as nat, radix));
    }
    let one = uniform(1, radix);
    assert(one.drop_last() =~= uniform(0, radix));
    assert(one.last() == radix);
    assert(product(uniform(0, radix)) == 1);
    assert(product(one) == product(one.drop_last()) * one.last());
    assert(1 * radix == radix) by (nonlinear_arith);
}

/// The conversion of a vector into an array of the same length (`TryFrom`):
/// the array holds the elements of the vector, in order.
#[verifier::external_body]
fn vec_into_array<T, const N: usize>(items: Vec<T>) -> (a: [T; N])
    requires
        items@.len() == N,
    ensures
        a@ == items@,
{
    items.try_into().ok().unwrap()
}

/// An array of `N` elements.
impl<T: Finite, const N: usize> Finite for [T; N] {
    open spec fn cardinality() -> nat {
        product(uniform(N as nat, T::cardinality()))
    }

    open spec fn fits_in_usize() -> bool {
        &&& T::fits_in_usize()
        &&& Self::cardinality() <= usize::MAX
    }

    open spec fn inhabitant(&self) -> bool {
        forall|j: int| 0 <= j < N ==> (#[trigger] self@[j]).inhabitant()
    }

    open spec fn position(&self) -> nat {
        product_position(positions(self@), uniform(N as nat, T::cardinality()))
    }

    open spec fn at(i: nat) -> Option<Self> {
        if i < Self::cardinality() {
            Some(
                array_of(
                    inhabitants_at::<T>(product_digits(i, uniform(N as nat, T::cardinality()))),
                ),
            )
        } else {
            None
        }
    }

    proof fn lemma_fits() {
    }

    proof fn lemma_position(&self) {
        let radices = uniform(N as nat, T::cardinality());
        let digits = positions(self@);
        assert forall|j: int| 0 <= j < digits.len() implies digits[j] < radices[j] by {
            self@[j].lemma_position();
        }
        lemma_product_position_bound(digits, radices);
        lemma_product_digits_of_position(digits, radices);
        let items = inhabitants_at::<T>(digits);
        assert(items =~= self@) by {
            assert forall|j: int| 0 <= j < N implies items[j] == self@[j] by {
                self@[j].lemma_position();
            }
        }
        lemma_array_of::<T, N>(items);
    }

    proof fn lemma_at(i: nat) {
        if i < Self::cardinality() {
            let radices = uniform(N as nat, T::cardinality());
            let digits = product_digits(i, radices);
            lemma_product_position_of_digits(i, radices);
            let items = inhabitants_at::<T>(digits);
            lemma_array_of::<T, N>(items);
            let a = array_of::<T, N>(items);
            assert forall|j: int| 0 <= j < N implies (#[trigger] a@[j]).inhabitant()
                && a@[j].position() == digits[j] by {
                T::lemma_at(digits[j]);
            }
            assert(positions(a@) =~= digits);
        }
    }

    fn checked_inhabitants() -> (n: Option<usize>) {
        let radix: usize = match T::checked_inhabitants() {
            Some(radix) => radix,
            None => {
                return None;
            },
        };
        let ghost radices = uniform(N as nat, radix as nat);
        if N == 0 {
            return Some(1);
        }
        if radix == 0 {
            proof {
                assert(radices[0] == 0);
                lemma_product_zero(radices);
            }
            return Some(0);
        }
        let mut power: usize = 1;
        let mut k: usize = 0;
        while k < N
            invariant
                k <= N,
                radix > 0,
                radix == T::cardinality(),
                T::fits_in_usize(),
                radices == uniform(N as nat, radix as nat),
                power == product(radices.take(k as int)),
            decreases N - k,
        {
            proof {
                assert(radices.take(k + 1).drop_last() =~= radices.take(k as int));
                lemma_product_prefix(radices, k + 1);
            }
            power = match power.checked_mul(radix) {
                Some(next) => next,
                None => {
                    return None;
                },
            };
            k += 1;
        }
        proof {
            assert(radices.take(k as int) =~= radices);
        }
        Some(power)
    }

    fn to_usize(&self) -> (i: usize) {
        let radix: usize = T::inhabitants();
        let ghost radices = uniform(N as nat, radix as nat);
        let ghost digits = positions(self@);
        let mut i: usize = 0;
        let mut k: usize = 0;
        while k < N
            invariant
                k <= N,
                T::fits_in_usize(),
                radix == T::cardinality(),
                radices == uniform(N as nat, radix as nat),
                digits == positions(self@),
                product(radices) <= usize::MAX,
                forall|j: int| 0 <= j < k ==> (#[trigger] self@[j]).inhabitant(),
                forall|j: int| 0 <= j < k ==> digits[j] < radix,
                k > 0 ==> radix > 0,
                i == product_position(digits.take(k as int), radices.take(k as int)),
            decreases N - k,
        {
            let digit: usize = self[k].to_usize();
            proof {
                let digits1 = digits.take(k + 1);
                let radices1 = radices.take(k + 1);
                assert(digits1.drop_last() =~= digits.take(k as int));
                assert(radices1.drop_last() =~= radices.take(k as int));
                assert(digits1.last() == digit);
                assert(digits_in_range(digits1, radices1));
                lemma_product_position_bound(digits1, radices1);
                lemma_product_prefix(radices, k + 1);
            }
            i = i * radix + digit;
            k += 1;
        }
        proof {
            assert(digits.take(k as int) =~= digits);
            assert(radices.take(k as int) =~= radices);
            assert(digits_in_range(digits, radices));
            lemma_product_position_bound(digits, radices);
        }
        i
    }

    fn from_usize(i: usize) -> (r: Option<Self>) {
        let radix: usize = T::inhabitants();
        let ghost all = uniform(N as nat, radix as nat);
        let mut radices: Vec<usize> = Vec::new();
        let mut k: usize = 0;
        while k < N
            invariant
                k <= N,
                radices@.len() == k,
                forall|j: int| 0 <= j < k ==> radices@[j] == radix,
            decreases N - k,
        {
            radices.push(radix);
            k += 1;
        }
        proof {
            assert(nats(radices@) =~= all);
        }
        let digits: Vec<usize> = match product_unindex(i, radices.as_slice()) {
            Some(digits) => digits,
            None => {
                return None;
            },
        };
        proof {
            lemma_product_position_of_digits(i as nat, all);
        }
        let mut items: Vec<T> = Vec::new();
        k = 0;
        while k < N
            invariant
                k <= N,
                T::fits_in_usize(),
                radix == T::cardinality(),
                all == uniform(N as nat, radix as nat),
                nats(digits@) == product_digits(i as nat, all),
                digits_in_range(nats(digits@), all),
                items@.len() == k,
                forall|j: int|
                    0 <= j < k ==> #[trigger] items@[j] == T::at(digits@[j] as nat).unwrap(),
            decreases N - k,
        {
            proof {
                assert(nats(digits@)[k as int] < all[k as int]);
            }
            let item = T::from_usize(digits[k]).unwrap();
            items.push(item);
            k += 1;
        }
        proof {
            let wanted = inhabitants_at::<T>(product_digits(i as nat, all));
            assert(items@ =~= wanted) by {
                assert forall|j: int| 0 <= j < N implies items@[j] == wanted[j] by {
                    assert(nats(digits@)[j] == digits@[j]);
                }
            }
            lemma_array_of::<T, N>(wanted);
            Self::lemma_at(i as nat);
        }
        Some(vec_into_array(items))
    }
}

} // verus!
