//! Positions of composite values.
//!
//! A product (a struct, a tuple, an array) is numbered as a mixed-radix
//! number: each field is a digit whose radix is the field's cardinality, and
//! the first field is the most significant digit. A sum (an enum) gives each
//! variant a block of positions, one block after the other in the order of
//! the variants.
//!
//! The functions here work on the positions of the fields, so that they serve
//! any composite type.

use vstd::prelude::*;

verus! {

/// The elements of `s` as natural numbers.
pub open spec fn nats(s: Seq<usize>) -> Seq<nat> {
    Seq::new(s.len(), |j: int| s[j] as nat)
}

/// The product of the radices: the cardinality of a product type whose
/// fields have these cardinalities. It is 1 for no field.
pub open spec fn product(radices: Seq<nat>) -> nat
    decreases radices.len(),
{
    if radices.len() == 0 {
        1
    } else {
        product(radices.drop_last()) * radices.last()
    }
}

/// Whether there is one digit per radix, each below its radix.
pub open spec fn digits_in_range(digits: Seq<nat>, radices: Seq<nat>) -> bool {
    &&& digits.len() == radices.len()
    &&& forall|j: int| 0 <= j < digits.len() ==> digits[j] < radices[j]
}

/// The number that the digits write in the mixed radix, the first digit
/// being the most significant. It is 0 for no digit.
pub open spec fn product_position(digits: Seq<nat>, radices: Seq<nat>) -> nat
    recommends
        digits.len() == radices.len(),
    decreases radices.len(),
{
    if radices.len() == 0 {
        0
    } else {
        product_position(digits.drop_last(), radices.drop_last()) * radices.last() + digits.last()
    }
}

/// The digits of `i` in the mixed radix, the first being the most
/// significant: the last digit is `i` modulo the last radix, and the digits
/// before it are those of the quotient.
pub open spec fn product_digits(i: nat, radices: Seq<nat>) -> Seq<nat>
    decreases radices.len(),
{
    if radices.len() == 0 {
        Seq::empty()
    } else {
        product_digits(i / radices.last(), radices.drop_last()).push(i % radices.last())
    }
}

/// The sum of the cardinalities: the cardinality of a sum type whose
/// variants have these cardinalities. It is 0 for no variant.
pub open spec fn sum(cards: Seq<nat>) -> nat
    decreases cards.len(),
{
    if cards.len() == 0 {
        0
    } else {
        sum(cards.drop_last()) + cards.last()
    }
}

/// The first position of the variant `variant`: the sum of the cardinalities
/// of the variants before it.
pub open spec fn sum_offset(cards: Seq<nat>, variant: int) -> nat
    recommends
        0 <= variant <= cards.len(),
{
    sum(cards.take(variant))
}

/// Whether `variant` is one of the variants and `local` a position in it.
pub open spec fn in_variant(cards: Seq<nat>, variant: int, local: nat) -> bool {
    0 <= variant < cards.len() && local < cards[variant]
}

/// The position in the sum type of the value at position `local` of the
/// variant `variant`.
pub open spec fn sum_position(cards: Seq<nat>, variant: int, local: nat) -> nat
    recommends
        in_variant(cards, variant, local),
{
    sum_offset(cards, variant) + local
}

/// Writing the digit `lo` behind the number `hi` keeps the number below the
/// bound raised by the radix, and the digit and the number can be read back.
pub proof fn lemma_digit_step(hi: nat, hi_bound: nat, lo: nat, radix: nat)
    requires
        hi < hi_bound,
        lo < radix,
    ensures
        hi * radix + lo < hi_bound * radix,
        (hi * radix + lo) / radix == hi,
        (hi * radix + lo) % radix == lo,
{
    assert(hi * radix + lo < hi_bound * radix) by (nonlinear_arith)
        requires
            hi < hi_bound,
            lo < radix,
    ;
    vstd::arithmetic::div_mod::lemma_fundamental_div_mod_converse(
        (hi * radix + lo) as int,
        radix as int,
        hi as int,
        lo as int,
    );
}

/// A number below `hi_bound * radix` splits into a last digit below the
/// radix and a rest below `hi_bound`.
pub proof fn lemma_digit_split(i: nat, hi_bound: nat, radix: nat)
    requires
        i < hi_bound * radix,
    ensures
        radix > 0,
        i / radix < hi_bound,
        i % radix < radix,
        (i / radix) * radix + i % radix == i,
{
    assert(radix > 0) by (nonlinear_arith)
        requires
            i < hi_bound * radix,
    ;
    vstd::arithmetic::div_mod::lemma_fundamental_div_mod(i as int, radix as int);
    assert(i / radix < hi_bound) by (nonlinear_arith)
        requires
            i < hi_bound * radix,
            radix > 0,
            i == radix * (i / radix) + i % radix,
            0 <= i % radix,
    ;
    assert((i / radix) * radix == radix * (i / radix)) by (nonlinear_arith);
}

/// The number that the first `k` digits write, in the first `k` radices.
pub open spec fn position_of_first(digits: Seq<nat>, radices: Seq<nat>, k: int) -> nat {
    product_position(digits.take(k), radices.take(k))
}

/// Each digit is written behind the number that the digits before it write,
/// and each radix multiplies the product of the radices before it.
pub proof fn lemma_product_step(digits: Seq<nat>, radices: Seq<nat>, k: int)
    requires
        0 < k <= radices.len(),
        digits.len() == radices.len(),
    ensures
        position_of_first(digits, radices, 0) == 0,
        position_of_first(digits, radices, k) == position_of_first(digits, radices, k - 1)
            * radices[k - 1] + digits[k - 1],
        k == 1 ==> position_of_first(digits, radices, k) == digits[0],
        position_of_first(digits, radices, radices.len() as int) == product_position(
            digits,
            radices,
        ),
        product(radices.take(0)) == 1,
        product(radices.take(k)) == product(radices.take(k - 1)) * radices[k - 1],
        k == 1 ==> product(radices.take(k)) == radices[0],
        product(radices.take(radices.len() as int)) == product(radices),
{
    assert(digits.take(k).drop_last() =~= digits.take(k - 1));
    assert(radices.take(k).drop_last() =~= radices.take(k - 1));
    assert(digits.take(digits.len() as int) =~= digits);
    assert(radices.take(radices.len() as int) =~= radices);
    assert(0 * radices[k - 1] == 0) by (nonlinear_arith);
    assert(1 * radices[k - 1] == radices[k - 1]) by (nonlinear_arith);
    assert(position_of_first(digits, radices, 0) == 0);
    assert(product(radices.take(0)) == 1);
    assert(product(radices.take(k)) == product(radices.take(k).drop_last()) * radices.take(
        k,
    ).last());
}

/// A factor of at least 1 does not lower a product, and a factor 0 makes it 0.
pub proof fn lemma_factor(a: nat, b: nat)
    ensures
        b >= 1 ==> a <= a * b,
        b == 0 ==> a * b == 0,
        a == 0 ==> a * b == 0,
        a >= 1 && b >= 1 ==> a * b >= 1,
{
    assert(b >= 1 ==> a <= a * b) by (nonlinear_arith);
    assert(b == 0 ==> a * b == 0) by (nonlinear_arith);
    assert(a == 0 ==> a * b == 0) by (nonlinear_arith);
    assert(a >= 1 && b >= 1 ==> a * b >= 1) by (nonlinear_arith);
}

/// A product is 0 exactly when one of the radices is 0.
pub proof fn lemma_product_zero(radices: Seq<nat>)
    ensures
        product(radices) == 0 <==> exists|j: int| 0 <= j < radices.len() && radices[j] == 0,
    decreases radices.len(),
{
    if radices.len() > 0 {
        let init = radices.drop_last();
        lemma_product_zero(init);
        assert(product(radices) == 0 <==> product(init) == 0 || radices.last() == 0)
            by (nonlinear_arith)
            requires
                product(radices) == product(init) * radices.last(),
        ;
        if product(radices) == 0 {
            if radices.last() == 0 {
                assert(radices[radices.len() - 1] == 0);
            } else {
                let j = choose|j: int| 0 <= j < init.len() && init[j] == 0;
                assert(radices[j] == 0);
            }
        }
        if exists|j: int| 0 <= j < radices.len() && radices[j] == 0 {
            let j = choose|j: int| 0 <= j < radices.len() && radices[j] == 0;
            if j < radices.len() - 1 {
                assert(init[j] == 0);
            }
        }
    }
}

/// With no radix 0, the product of the first radices is at most the product
/// of all of them.
pub proof fn lemma_product_prefix(radices: Seq<nat>, k: int)
    requires
        0 <= k <= radices.len(),
        forall|j: int| 0 <= j < radices.len() ==> radices[j] > 0,
    ensures
        0 < product(radices.take(k)) <= product(radices),
    decreases radices.len() - k,
{
    lemma_product_zero(radices.take(k));
    if k == radices.len() {
        assert(radices.take(k) =~= radices);
    } else {
        lemma_product_prefix(radices, k + 1);
        let next = radices.take(k + 1);
        assert(next.drop_last() =~= radices.take(k));
        assert(product(radices.take(k)) <= product(next)) by (nonlinear_arith)
            requires
                product(next) == product(radices.take(k)) * next.last(),
                next.last() > 0,
        ;
    }
}

/// Digits that are in range write a number below the product of the radices.
pub proof fn lemma_product_position_bound(digits: Seq<nat>, radices: Seq<nat>)
    requires
        digits_in_range(digits, radices),
    ensures
        product_position(digits, radices) < product(radices),
    decreases radices.len(),
{
    if radices.len() > 0 {
        lemma_product_position_bound(digits.drop_last(), radices.drop_last());
        lemma_digit_step(
            product_position(digits.drop_last(), radices.drop_last()),
            product(radices.drop_last()),
            digits.last(),
            radices.last(),
        );
    }
}

/// Taking the digits of the number that digits in range write gives the
/// digits back.
pub proof fn lemma_product_digits_of_position(digits: Seq<nat>, radices: Seq<nat>)
    requires
        digits_in_range(digits, radices),
    ensures
        product_digits(product_position(digits, radices), radices) == digits,
    decreases radices.len(),
{
    if radices.len() == 0 {
        assert(digits =~= Seq::empty());
    } else {
        lemma_product_digits_of_position(digits.drop_last(), radices.drop_last());
        lemma_product_position_bound(digits.drop_last(), radices.drop_last());
        lemma_digit_step(
            product_position(digits.drop_last(), radices.drop_last()),
            product(radices.drop_last()),
            digits.last(),
            radices.last(),
        );
        assert(digits.drop_last().push(digits.last()) =~= digits);
    }
}

/// The digits of a number below the product are in range, and write that
/// number.
pub proof fn lemma_product_position_of_digits(i: nat, radices: Seq<nat>)
    requires
        i < product(radices),
    ensures
        digits_in_range(product_digits(i, radices), radices),
        product_position(product_digits(i, radices), radices) == i,
    decreases radices.len(),
{
    if radices.len() > 0 {
        let init = radices.drop_last();
        let radix = radices.last();
        lemma_digit_split(i, product(init), radix);
        lemma_product_position_of_digits(i / radix, init);
        let digits = product_digits(i, radices);
        assert(digits.drop_last() =~= product_digits(i / radix, init));
        assert(digits.last() == i % radix);
    }
}

/// The first position of a variant is that of the variant before it, moved on
/// by that variant's cardinality.
pub proof fn lemma_sum_offset_step(cards: Seq<nat>, j: int)
    requires
        0 <= j < cards.len(),
    ensures
        sum_offset(cards, j + 1) == sum_offset(cards, j) + cards[j],
        sum_offset(cards, 0) == 0,
        sum_offset(cards, cards.len() as int) == sum(cards),
{
    assert(cards.take(j + 1).drop_last() =~= cards.take(j));
    assert(cards.take(cards.len() as int) =~= cards);
}

/// The block of a variant ends before the block of any later variant begins.
pub proof fn lemma_sum_offset_ordered(cards: Seq<nat>, j: int, k: int)
    requires
        0 <= j <= k <= cards.len(),
    ensures
        sum_offset(cards, j) <= sum_offset(cards, k),
        j < k ==> sum_offset(cards, j) + cards[j] <= sum_offset(cards, k),
    decreases k - j,
{
    if j < k {
        lemma_sum_offset_step(cards, j);
        lemma_sum_offset_ordered(cards, j + 1, k);
    }
}

/// A position in a variant gives a position below the sum.
pub proof fn lemma_sum_position_bound(cards: Seq<nat>, variant: int, local: nat)
    requires
        in_variant(cards, variant, local),
    ensures
        sum_position(cards, variant, local) < sum(cards),
{
    lemma_sum_offset_ordered(cards, variant, cards.len() as int);
    lemma_sum_offset_step(cards, variant);
}

/// The blocks of two variants do not overlap: a position in the sum belongs
/// to one variant, at one place in it.
pub proof fn lemma_sum_position_injective(
    cards: Seq<nat>,
    variant1: int,
    local1: nat,
    variant2: int,
    local2: nat,
)
    requires
        in_variant(cards, variant1, local1),
        in_variant(cards, variant2, local2),
        sum_position(cards, variant1, local1) == sum_position(cards, variant2, local2),
    ensures
        variant1 == variant2,
        local1 == local2,
{
    if variant1 < variant2 {
        lemma_sum_offset_ordered(cards, variant1, variant2);
    }
    if variant2 < variant1 {
        lemma_sum_offset_ordered(cards, variant2, variant1);
    }
}

/// Every position below the sum lies in the block of some variant.
pub proof fn lemma_sum_position_onto(cards: Seq<nat>, i: nat)
    requires
        i < sum(cards),
    ensures
        exists|variant: int, local: nat|
            in_variant(cards, variant, local) && #[trigger] sum_position(cards, variant, local)
                == i,
    decreases cards.len(),
{
    let init = cards.drop_last();
    let last = cards.len() - 1;
    assert(cards.take(last) =~= init);
    if i < sum(init) {
        lemma_sum_position_onto(init, i);
        let (variant, local) = choose|variant: int, local: nat|
            in_variant(init, variant, local) && #[trigger] sum_position(init, variant, local) == i;
        assert(init.take(variant) =~= cards.take(variant));
        assert(in_variant(cards, variant, local) && sum_position(cards, variant, local) == i);
    } else {
        let local = (i - sum(init)) as nat;
        assert(in_variant(cards, last, local) && sum_position(cards, last, local) == i);
    }
}

/// The cardinality of a product type whose fields have the cardinalities
/// `radices`, or `None` if it is more than `usize::MAX`.
pub fn product_cardinality(radices: &[usize]) -> (r: Option<usize>)
    ensures
        r is Some <==> product(nats(radices@)) <= usize::MAX,
        r is Some ==> r.unwrap() == product(nats(radices@)),
{
    let ghost all = nats(radices@);
    let mut k: usize = 0;
    while k < radices.len()
        invariant
            k <= radices.len(),
            all == nats(radices@),
            forall|j: int| 0 <= j < k ==> all[j] > 0,
        decreases radices.len() - k,
    {
        if radices[k] == 0 {
            proof {
                assert(all[k as int] == 0);
                lemma_product_zero(all);
            }
            return Some(0);
        }
        k += 1;
    }
    let mut n: usize = 1;
    k = 0;
    while k < radices.len()
        invariant
            k <= radices.len(),
            all == nats(radices@),
            forall|j: int| 0 <= j < all.len() ==> all[j] > 0,
            n == product(all.take(k as int)),
        decreases radices.len() - k,
    {
        proof {
            assert(all.take(k + 1).drop_last() =~= all.take(k as int));
            lemma_product_prefix(all, k + 1);
        }
        match n.checked_mul(radices[k]) {
            Some(m) => {
                n = m;
            },
            None => {
                return None;
            },
        }
        k += 1;
    }
    proof {
        assert(all.take(k as int) =~= all);
    }
    Some(n)
}

/// The position of a product value whose fields have the positions `digits`
/// and the cardinalities `radices`.
pub fn product_index(digits: &[usize], radices: &[usize]) -> (i: usize)
    requires
        digits_in_range(nats(digits@), nats(radices@)),
        product(nats(radices@)) <= usize::MAX,
    ensures
        i == product_position(nats(digits@), nats(radices@)),
        i < product(nats(radices@)),
{
    let ghost ds = nats(digits@);
    let ghost rs = nats(radices@);
    let mut i: usize = 0;
    let mut k: usize = 0;
    proof {
        assert(ds.len() == rs.len());
    }
    while k < radices.len()
        invariant
            k <= radices.len(),
            digits.len() == radices.len(),
            ds == nats(digits@),
            rs == nats(radices@),
            digits_in_range(ds, rs),
            product(rs) <= usize::MAX,
            i == product_position(ds.take(k as int), rs.take(k as int)),
        decreases radices.len() - k,
    {
        proof {
            let ds1 = ds.take(k + 1);
            let rs1 = rs.take(k + 1);
            assert(ds1.drop_last() =~= ds.take(k as int));
            assert(rs1.drop_last() =~= rs.take(k as int));
            assert(digits_in_range(ds1, rs1));
            lemma_product_position_bound(ds1, rs1);
            lemma_product_prefix(rs, k + 1);
            assert(ds1.last() == digits[k as int]);
            assert(rs1.last() == radices[k as int]);
        }
        i = i * radices[k] + digits[k];
        k += 1;
    }
    proof {
        assert(ds.take(k as int) =~= ds);
        assert(rs.take(k as int) =~= rs);
        lemma_product_position_bound(ds, rs);
    }
    i
}

/// The positions of the fields of the product value at position `i`, where
/// the fields have the cardinalities `radices`; `None` if there is no such
/// value.
pub fn product_unindex(i: usize, radices: &[usize]) -> (r: Option<Vec<usize>>)
    requires
        product(nats(radices@)) <= usize::MAX,
    ensures
        r is Some <==> i < product(nats(radices@)),
        r is Some ==> nats(r.unwrap()@) == product_digits(i as nat, nats(radices@)),
{
    let ghost rs = nats(radices@);
    let n: usize = match product_cardinality(radices) {
        Some(n) => n,
        None => { return None; },
    };
    if i >= n {
        return None;
    }
    let len: usize = radices.len();
    let mut digits: Vec<usize> = Vec::new();
    let mut k: usize = 0;
    while k < len
        invariant
            k <= len,
            digits.len() == k,
        decreases len - k,
    {
        digits.push(0);
        k += 1;
    }
    let mut rest: usize = i;
    proof {
        lemma_product_position_of_digits(i as nat, rs);
        assert(rs.take(len as int) =~= rs);
    }
    while k > 0
        invariant
            k <= len,
            len == radices.len(),
            digits.len() == len,
            rs == nats(radices@),
            rest < product(rs.take(k as int)),
            product_digits(rest as nat, rs.take(k as int)) =~= product_digits(i as nat, rs).take(
                k as int,
            ),
            forall|j: int| k <= j < len ==> digits[j] == product_digits(i as nat, rs)[j],
            product_digits(i as nat, rs).len() == len,
        decreases k,
    {
        k -= 1;
        proof {
            let rs1 = rs.take(k + 1);
            assert(rs1.drop_last() =~= rs.take(k as int));
            assert(rs1.last() == radices[k as int]);
            lemma_digit_split(rest as nat, product(rs.take(k as int)), rs1.last());
            let d1 = product_digits(rest as nat, rs1);
            assert(d1.last() == rest as nat % rs1.last());
            assert(d1.drop_last() =~= product_digits(rest as nat / rs1.last(), rs.take(k as int)));
            assert(d1 =~= product_digits(i as nat, rs).take(k + 1));
            assert(d1.drop_last() =~= product_digits(i as nat, rs).take(k as int));
        }
        digits[k] = rest % radices[k];
        rest = rest / radices[k];
    }
    proof {
        assert(nats(digits@) =~= product_digits(i as nat, rs));
    }
    Some(digits)
}

/// The cardinality of a sum type whose variants have the cardinalities
/// `cards`, or `None` if it is more than `usize::MAX`.
pub fn sum_cardinality(cards: &[usize]) -> (r: Option<usize>)
    ensures
        r is Some <==> sum(nats(cards@)) <= usize::MAX,
        r is Some ==> r.unwrap() == sum(nats(cards@)),
{
    let ghost all = nats(cards@);
    let mut n: usize = 0;
    let mut k: usize = 0;
    while k < cards.len()
        invariant
            k <= cards.len(),
            all == nats(cards@),
            n == sum_offset(all, k as int),
        decreases cards.len() - k,
    {
        proof {
            lemma_sum_offset_step(all, k as int);
            lemma_sum_offset_ordered(all, k + 1, all.len() as int);
        }
        match n.checked_add(cards[k]) {
            Some(m) => {
                n = m;
            },
            None => {
                return None;
            },
        }
        k += 1;
    }
    proof {
        assert(all.take(k as int) =~= all);
    }
    Some(n)
}

/// The position in a sum type of the value at position `local` of the
/// variant `variant`, where the variants have the cardinalities `cards`.
pub fn sum_index(variant: usize, local: usize, cards: &[usize]) -> (i: usize)
    requires
        in_variant(nats(cards@), variant as int, local as nat),
        sum(nats(cards@)) <= usize::MAX,
    ensures
        i == sum_position(nats(cards@), variant as int, local as nat),
        i < sum(nats(cards@)),
{
    let ghost all = nats(cards@);
    let mut offset: usize = 0;
    let mut k: usize = 0;
    proof {
        lemma_sum_position_bound(all, variant as int, local as nat);
    }
    while k < variant
        invariant
            k <= variant < cards.len(),
            all == nats(cards@),
            offset == sum_offset(all, k as int),
            sum_offset(all, variant as int) < usize::MAX,
        decreases variant - k,
    {
        proof {
            lemma_sum_offset_step(all, k as int);
            lemma_sum_offset_ordered(all, k + 1, variant as int);
        }
        offset = offset + cards[k];
        k += 1;
    }
    offset + local
}

/// The variant that holds position `i` of a sum type and the position in
/// that variant, where the variants have the cardinalities `cards`; `None` if
/// `i` is not below their sum.
pub fn sum_unindex(i: usize, cards: &[usize]) -> (r: Option<(usize, usize)>)
    ensures
        r is Some <==> i < sum(nats(cards@)),
        r is Some ==> in_variant(nats(cards@), r.unwrap().0 as int, r.unwrap().1 as nat)
            && sum_position(nats(cards@), r.unwrap().0 as int, r.unwrap().1 as nat) == i,
{
    let ghost all = nats(cards@);
    let mut rest: usize = i;
    let mut k: usize = 0;
    while k < cards.len()
        invariant
            k <= cards.len(),
            all == nats(cards@),
            rest + sum_offset(all, k as int) == i,
        decreases cards.len() - k,
    {
        proof {
            lemma_sum_offset_step(all, k as int);
        }
        if rest < cards[k] {
            proof {
                lemma_sum_position_bound(all, k as int, rest as nat);
            }
            return Some((k, rest));
        }
        rest = rest - cards[k];
        k += 1;
    }
    proof {
        assert(all.take(k as int) =~= all);
    }
    None
}

} // verus!
