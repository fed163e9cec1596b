use exhaustive_map::composite::{
    product_cardinality, product_index, product_unindex, sum_cardinality, sum_index, sum_unindex,
};

/// The positions to try for a type of `n` inhabitants: the first thousand,
/// those around `n` and those around `usize::MAX`.
fn sample(n: usize) -> Vec<usize> {
    let mut values: Vec<usize> = (0..1000).collect();
    for base in [usize::MAX, n] {
        for offset in -10..=10 {
            if let Some(i) = base.checked_add_signed(offset) {
                values.push(i);
            }
        }
    }
    values
}

/// Checks a product type whose fields have the cardinalities `radices`.
fn check_product(radices: &[usize], expected_elements: usize, all: bool) {
    assert_eq!(product_cardinality(radices), Some(expected_elements));
    let mut positions = sample(expected_elements);
    if all {
        positions.extend(0..expected_elements);
    }
    for i in positions {
        match product_unindex(i, radices) {
            None => assert!(i >= expected_elements),
            Some(digits) => {
                assert!(i < expected_elements);
                assert_eq!(digits.len(), radices.len());
                for (d, r) in digits.iter().zip(radices) {
                    assert!(d < r);
                }
                assert_eq!(product_index(&digits, radices), i);
            }
        }
    }
}

/// Checks a sum type whose variants are products of fields with the
/// cardinalities `variants`.
fn check_sum(variants: &[&[usize]], expected_elements: usize, all: bool) {
    let cards: Vec<usize> = variants
        .iter()
        .map(|fields| product_cardinality(fields).unwrap())
        .collect();
    assert_eq!(sum_cardinality(&cards), Some(expected_elements));
    let mut positions = sample(expected_elements);
    if all {
        positions.extend(0..expected_elements);
    }
    for i in positions {
        match sum_unindex(i, &cards) {
            None => assert!(i >= expected_elements),
            Some((variant, local)) => {
                assert!(i < expected_elements);
                assert!(variant < cards.len());
                assert!(local < cards[variant]);
                let digits = product_unindex(local, variants[variant]).unwrap();
                let local2 = product_index(&digits, variants[variant]);
                assert_eq!(local2, local);
                assert_eq!(sum_index(variant, local2, &cards), i);
            }
        }
    }
}

#[test]
fn test_derive_unit_struct() {
    check_product(&[], 1, true);
}

#[test]
fn test_derive_empty_tuple_struct() {
    check_product(&[], 1, true);
}

#[test]
fn test_derive_tuple_struct() {
    check_product(&[256, 2], 256 * 2, true);
}

#[test]
fn test_derive_empty_named_struct() {
    check_product(&[], 1, true);
}

#[test]
fn test_derive_named_struct() {
    check_product(&[2, 256, 3], 2 * 256 * 3, true);
}

#[test]
fn test_derive_empty_enum() {
    check_sum(&[], 0, true);
}

#[test]
fn test_derive_simple_enum() {
    check_sum(&[&[], &[], &[]], 3, true);
}

#[test]
fn test_tuple_enum() {
    check_sum(&[&[256, 2], &[1], &[]], 256 * 2 + 1 + 1, true);
}

#[test]
fn test_derive_struct_enum() {
    check_sum(&[&[256, 2], &[1], &[]], 256 * 2 + 1 + 1, true);
}

#[test]
fn test_derive_mixed_enum() {
    check_sum(&[&[], &[256], &[3, 256]], 1 + 256 + 3 * 256, true);
}

#[test]
fn test_derive_struct_with_non_clone_field() {
    check_product(&[256], 256, true);
}

#[test]
fn test_derive_enum_with_non_clone_field() {
    check_sum(&[&[256], &[256]], 2 * 256, true);
}

#[test]
fn test_derive_struct_with_names_from_implementation() {
    check_product(&[2, 2, 2, 2], 2usize.pow(4), true);
}

#[test]
fn test_derive_enum_with_names_from_implementation() {
    check_sum(&[&[2, 2, 2, 2]], 2usize.pow(4), true);
}

#[test]
fn test_derive_generic() {
    check_product(&[257], 257, true);
}

#[test]
fn test_derive_generic_complex() {
    check_product(&[2, 2, 1], 2 * 2, true);
}

#[test]
fn test_derive_generic_complex_enum() {
    check_sum(&[&[2], &[1, 1], &[], &[1]], 2 + 1 + 1 + 1, true);
}

#[test]
fn test_derive_generic_lifetime() {
    check_product(&[1], 1, true);
}

#[test]
fn test_derive_max_inhabitants() {
    check_product(&[usize::MAX], usize::MAX, false);
}

#[test]
fn product_of_no_field_is_one_value_at_position_zero() {
    assert_eq!(product_cardinality(&[]), Some(1));
    assert_eq!(product_index(&[], &[]), 0);
    assert_eq!(product_unindex(0, &[]), Some(vec![]));
    assert_eq!(product_unindex(1, &[]), None);
}

#[test]
fn sum_of_no_variant_is_empty() {
    assert_eq!(sum_cardinality(&[]), Some(0));
    assert_eq!(sum_unindex(0, &[]), None);
    assert_eq!(sum_unindex(usize::MAX, &[]), None);
}

#[test]
fn product_index_has_first_field_most_significant() {
    // Fields of cardinalities 256 and 2: (0, 0), (0, 1), (1, 0).
    assert_eq!(product_index(&[0, 0], &[256, 2]), 0);
    assert_eq!(product_index(&[0, 1], &[256, 2]), 1);
    assert_eq!(product_index(&[1, 0], &[256, 2]), 2);
    assert_eq!(product_index(&[255, 1], &[256, 2]), 511);
    // (a * 3 + b) * 5 + c
    assert_eq!(product_index(&[1, 2, 4], &[2, 3, 5]), (1 * 3 + 2) * 5 + 4);
}

#[test]
fn product_unindex_takes_last_field_from_remainder() {
    assert_eq!(product_unindex(0, &[256, 2]), Some(vec![0, 0]));
    assert_eq!(product_unindex(1, &[256, 2]), Some(vec![0, 1]));
    assert_eq!(product_unindex(2, &[256, 2]), Some(vec![1, 0]));
    assert_eq!(product_unindex(511, &[256, 2]), Some(vec![255, 1]));
    assert_eq!(product_unindex(512, &[256, 2]), None);
    assert_eq!(product_unindex(29, &[2, 3, 5]), Some(vec![1, 2, 4]));
    assert_eq!(product_unindex(30, &[2, 3, 5]), None);
}

#[test]
fn product_with_an_empty_field_is_empty() {
    assert_eq!(product_cardinality(&[256, 0, 2]), Some(0));
    assert_eq!(product_cardinality(&[usize::MAX, usize::MAX, 0]), Some(0));
    assert_eq!(product_unindex(0, &[256, 0, 2]), None);
    assert_eq!(product_unindex(0, &[usize::MAX, usize::MAX, 0]), None);
}

#[test]
fn product_that_does_not_fit_is_rejected() {
    assert_eq!(product_cardinality(&[usize::MAX, 2]), None);
    assert_eq!(product_cardinality(&[1 << 32, 1 << 32]), None);
    assert_eq!(product_cardinality(&[1 << 32, (1 << 32) - 1]), Some(((1 << 32) - 1) << 32));
    assert_eq!(product_cardinality(&[usize::MAX, 1, 1]), Some(usize::MAX));
}

#[test]
fn sum_that_does_not_fit_is_rejected() {
    assert_eq!(sum_cardinality(&[usize::MAX, 1]), None);
    assert_eq!(sum_cardinality(&[usize::MAX, 0]), Some(usize::MAX));
    assert_eq!(sum_cardinality(&[1, 2, 3]), Some(6));
}

#[test]
fn sum_gives_each_variant_a_block_in_order() {
    let cards = [2, 0, 3, 1];
    assert_eq!(sum_index(0, 0, &cards), 0);
    assert_eq!(sum_index(0, 1, &cards), 1);
    assert_eq!(sum_index(2, 0, &cards), 2);
    assert_eq!(sum_index(2, 2, &cards), 4);
    assert_eq!(sum_index(3, 0, &cards), 5);
    assert_eq!(sum_unindex(0, &cards), Some((0, 0)));
    assert_eq!(sum_unindex(1, &cards), Some((0, 1)));
    assert_eq!(sum_unindex(2, &cards), Some((2, 0)));
    assert_eq!(sum_unindex(4, &cards), Some((2, 2)));
    assert_eq!(sum_unindex(5, &cards), Some((3, 0)));
    assert_eq!(sum_unindex(6, &cards), None);
}

#[test]
fn sum_unindex_works_where_the_sum_does_not_fit() {
    let cards = [usize::MAX, usize::MAX];
    assert_eq!(sum_unindex(0, &cards), Some((0, 0)));
    assert_eq!(sum_unindex(usize::MAX - 1, &cards), Some((0, usize::MAX - 1)));
    assert_eq!(sum_unindex(usize::MAX, &cards), Some((1, 0)));
}

#[test]
fn three_variants_without_fields_are_numbered_in_order() {
    let cards = [1, 1, 1];
    assert_eq!(sum_cardinality(&cards), Some(3));
    assert_eq!(sum_index(0, 0, &cards), 0);
    assert_eq!(sum_index(1, 0, &cards), 1);
    assert_eq!(sum_index(2, 0, &cards), 2);
}
