use std::fmt::Debug;
use std::ops::RangeBounds;

use exhaustive_map::{Finite, InRange, InRangeBounds, InRangeInclusive};

fn test_range<T: InRangeBounds + Debug + PartialEq, R: RangeBounds<usize>>(expected_range: R) {
    for i in (0..10).chain(usize::MAX - 10..=usize::MAX) {
        let v = T::new(i);
        if expected_range.contains(&i) {
            assert_eq!(v.map(InRangeBounds::get), Some(i));
        } else {
            assert_eq!(v, None);
        }
    }
}

#[test]
fn test_in_range_full() {
    test_range::<InRange<0, { usize::MAX }>, _>(0..usize::MAX);
}

#[test]
fn test_in_range_inclusive_almost_full() {
    test_range::<InRangeInclusive<1, { usize::MAX }>, _>(1..=usize::MAX);
}

#[test]
fn test_in_range() {
    test_range::<InRange<1, 3>, _>(1..3);
}

#[test]
fn test_in_range_inclusive() {
    test_range::<InRangeInclusive<1, 3>, _>(1..=3);
}

#[test]
fn in_range_positions_are_offsets() {
    type T = InRange<10, 14>;
    assert_eq!(<T as Finite>::inhabitants(), 4);
    assert_eq!(<T as InRangeBounds>::inhabitants(), 4);
    assert_eq!(T::start(), 10);
    assert_eq!(T::new(9), None);
    assert_eq!(T::new(14), None);
    assert_eq!(T::new(10).unwrap().get(), 10);
    assert_eq!(T::new(10).unwrap().to_usize(), 0);
    assert_eq!(T::new(13).unwrap().to_usize(), 3);
    assert_eq!(T::from_usize(0).unwrap().get(), 10);
    assert_eq!(T::from_usize(3).unwrap().get(), 13);
    assert_eq!(T::from_usize(4), None);
    assert_eq!(T::from_usize(usize::MAX), None);
    assert_eq!(T::new_unchecked(12).get(), 12);
}

#[test]
fn in_range_inclusive_positions_are_offsets() {
    type T = InRangeInclusive<10, 14>;
    assert_eq!(<T as Finite>::inhabitants(), 5);
    assert_eq!(T::new(9), None);
    assert_eq!(T::new(15), None);
    assert_eq!(T::new(14).unwrap().to_usize(), 4);
    assert_eq!(T::from_usize(4).unwrap().get(), 14);
    assert_eq!(T::from_usize(5), None);
    assert_eq!(T::from_usize(usize::MAX), None);
}

#[test]
fn offsets_and_bounds() {
    type T = InRange<10, 14>;
    assert_eq!(T::offset_from_start(9), None);
    assert_eq!(T::offset_from_start(10), Some(0));
    assert_eq!(T::offset_from_start(13), Some(3));
    assert_eq!(T::offset_from_start(14), None);
    assert!(!T::in_bounds(9));
    assert!(T::in_bounds(10));
    assert!(T::in_bounds(13));
    assert!(!T::in_bounds(14));
    assert_eq!(T::new_from_start_offset(0).unwrap().get(), 10);
    assert_eq!(T::new_from_start_offset(3).unwrap().get(), 13);
    assert_eq!(T::new_from_start_offset(4), None);
    assert_eq!(T::new_from_start_offset(usize::MAX - 5), None);
    assert_eq!(T::new_from_start_offset(usize::MAX), None);
}

#[test]
fn range_at_the_end_of_usize() {
    type T = InRangeInclusive<{ usize::MAX - 2 }, { usize::MAX }>;
    assert_eq!(<T as Finite>::checked_inhabitants(), Some(3));
    assert_eq!(T::new(usize::MAX).unwrap().to_usize(), 2);
    assert_eq!(T::from_usize(2).unwrap().get(), usize::MAX);
    assert_eq!(T::from_usize(3), None);
    assert_eq!(T::new_from_start_offset(usize::MAX), None);
}

#[test]
fn empty_ranges_have_no_value() {
    assert_eq!(<InRange<3, 3> as Finite>::inhabitants(), 0);
    assert_eq!(<InRange<3, 3>>::new(3), None);
    assert_eq!(<InRange<5, 3> as Finite>::inhabitants(), 0);
    assert_eq!(<InRange<5, 3>>::new(4), None);
    assert_eq!(<InRange<5, 3>>::from_usize(0), None);
    assert_eq!(<InRangeInclusive<5, 3> as Finite>::inhabitants(), 0);
    assert_eq!(<InRangeInclusive<5, 3>>::new(4), None);
    assert_eq!(<InRangeInclusive<3, 3> as Finite>::inhabitants(), 1);
    assert_eq!(<InRangeInclusive<3, 3>>::new(3).unwrap().to_usize(), 0);
}

#[test]
fn inclusive_range_over_all_of_usize_does_not_fit() {
    type T = InRangeInclusive<0, { usize::MAX }>;
    assert_eq!(<T as Finite>::checked_inhabitants(), None);
    assert_eq!(<T as InRangeBounds>::checked_inhabitants(), None);
    assert_eq!(<InRange<0, { usize::MAX }> as Finite>::checked_inhabitants(), Some(usize::MAX));
}

#[test]
fn in_range_round_trip() {
    type T = InRange<1, 1000>;
    for i in 0..999 {
        let v = T::from_usize(i).unwrap();
        assert_eq!(v.get(), i + 1);
        assert_eq!(v.to_usize(), i);
    }
    assert_eq!(T::from_usize(999), None);
}
