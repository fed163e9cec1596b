use std::convert::Infallible;
use std::marker::PhantomData;
use std::ops::ControlFlow;
use std::rc::Rc;
use std::sync::Arc;

use exhaustive_map::nonzero::{NonZeroI8, NonZeroIsize, NonZeroU64, NonZeroU8, NonZeroUsize};
use exhaustive_map::{Finite, FiniteExt};

#[test]
fn bool_positions() {
    assert_eq!(bool::inhabitants(), 2);
    assert_eq!(bool::checked_inhabitants(), Some(2));
    assert_eq!(false.to_usize(), 0);
    assert_eq!(true.to_usize(), 1);
    assert_eq!(bool::from_usize(0), Some(false));
    assert_eq!(bool::from_usize(1), Some(true));
    assert_eq!(bool::from_usize(2), None);
}

#[test]
fn u8_positions() {
    assert_eq!(u8::inhabitants(), 256);
    assert_eq!(u8::from_usize(255), Some(255));
    assert_eq!(u8::from_usize(256), None);
    assert_eq!(77u8.to_usize(), 77);
}

#[test]
fn u16_and_u32_positions() {
    assert_eq!(u16::inhabitants(), 1 << 16);
    assert_eq!(u16::from_usize(65535), Some(65535));
    assert_eq!(u16::from_usize(65536), None);
    assert_eq!(u32::checked_inhabitants(), Some(1 << 32));
    assert_eq!(u32::from_usize(u32::MAX as usize), Some(u32::MAX));
    assert_eq!(u32::from_usize(u32::MAX as usize + 1), None);
    assert_eq!(u32::MAX.to_usize(), u32::MAX as usize);
}

#[test]
fn signed_positions_are_bit_patterns() {
    assert_eq!(i8::inhabitants(), 256);
    assert_eq!(0i8.to_usize(), 0);
    assert_eq!(127i8.to_usize(), 127);
    assert_eq!((-128i8).to_usize(), 128);
    assert_eq!((-1i8).to_usize(), 255);
    assert_eq!(i8::from_usize(128), Some(-128));
    assert_eq!(i8::from_usize(255), Some(-1));
    assert_eq!(i8::from_usize(256), None);
    assert_eq!((-1i16).to_usize(), 0xFFFF);
    assert_eq!(i16::MIN.to_usize(), 0x8000);
    assert_eq!(i16::from_usize(0x8000), Some(i16::MIN));
    assert_eq!((-1i32).to_usize(), 0xFFFF_FFFF);
    assert_eq!(i32::MIN.to_usize(), 0x8000_0000);
    assert_eq!(i32::from_usize(0xFFFF_FFFF), Some(-1));
    assert_eq!(i32::from_usize(0x1_0000_0000), None);
    for v in i8::MIN..=i8::MAX {
        assert_eq!(v.to_usize(), v as u8 as usize);
    }
}

#[test]
fn nonzero_positions_are_bit_patterns_less_one() {
    assert_eq!(NonZeroU8::inhabitants(), 255);
    assert_eq!(NonZeroU8::new(0), None);
    assert_eq!(NonZeroU8::new(1).unwrap().to_usize(), 0);
    assert_eq!(NonZeroU8::new(255).unwrap().to_usize(), 254);
    assert_eq!(NonZeroU8::from_usize(0).unwrap().get(), 1);
    assert_eq!(NonZeroU8::from_usize(254).unwrap().get(), 255);
    assert_eq!(NonZeroU8::from_usize(255), None);

    assert_eq!(NonZeroI8::new(0), None);
    assert_eq!(NonZeroI8::new(1).unwrap().to_usize(), 0);
    assert_eq!(NonZeroI8::new(127).unwrap().to_usize(), 126);
    assert_eq!(NonZeroI8::new(-128).unwrap().to_usize(), 127);
    assert_eq!(NonZeroI8::new(-1).unwrap().to_usize(), 254);
    assert_eq!(NonZeroI8::from_usize(127).unwrap().get(), -128);
    assert_eq!(NonZeroI8::from_usize(254).unwrap().get(), -1);
    assert_eq!(NonZeroI8::from_usize(255), None);

    assert_eq!(NonZeroUsize::checked_inhabitants(), Some(usize::MAX));
    assert_eq!(NonZeroUsize::new(usize::MAX).unwrap().to_usize(), usize::MAX - 1);
    assert_eq!(NonZeroUsize::from_usize(usize::MAX), None);
    assert_eq!(NonZeroUsize::from_usize(usize::MAX - 1).unwrap().get(), usize::MAX);
    assert_eq!(NonZeroU64::new(u64::MAX).unwrap().to_usize(), usize::MAX - 1);

    assert_eq!(NonZeroIsize::new(-1).unwrap().to_usize(), usize::MAX - 1);
    assert_eq!(NonZeroIsize::new(isize::MIN).unwrap().to_usize(), isize::MAX as usize);
    assert_eq!(NonZeroIsize::new(isize::MAX).unwrap().to_usize(), isize::MAX as usize - 1);
    assert_eq!(NonZeroIsize::from_usize(isize::MAX as usize).unwrap().get(), isize::MIN);
    assert_eq!(NonZeroIsize::from_usize(usize::MAX - 1).unwrap().get(), -1);
    assert_eq!(NonZeroIsize::from_usize(usize::MAX), None);
}

#[test]
fn char_positions_skip_the_surrogates() {
    assert_eq!(char::inhabitants(), 0x110000 - 2048);
    assert_eq!('\0'.to_usize(), 0);
    assert_eq!('A'.to_usize(), 65);
    assert_eq!(char::from_usize(65), Some('A'));
    assert_eq!('\u{D7FF}'.to_usize(), 0xD7FF);
    assert_eq!('\u{E000}'.to_usize(), 0xD800);
    assert_eq!(char::from_usize(0xD7FF), Some('\u{D7FF}'));
    assert_eq!(char::from_usize(0xD800), Some('\u{E000}'));
    assert_eq!(char::MAX.to_usize(), 0x110000 - 2048 - 1);
    assert_eq!(char::from_usize(0x110000 - 2048 - 1), Some(char::MAX));
    assert_eq!(char::from_usize(0x110000 - 2048), None);
    assert_eq!(char::from_usize(0x110000), None);
    assert_eq!(char::from_usize(usize::MAX), None);
}

#[test]
fn unit_types_have_one_value() {
    assert_eq!(<()>::inhabitants(), 1);
    assert_eq!(().to_usize(), 0);
    assert_eq!(<()>::from_usize(0), Some(()));
    assert_eq!(<()>::from_usize(1), None);
    assert_eq!(PhantomData::<String>::inhabitants(), 1);
    assert_eq!(PhantomData::<String>.to_usize(), 0);
    assert_eq!(PhantomData::<String>::from_usize(0), Some(PhantomData));
    assert_eq!(PhantomData::<String>::from_usize(1), None);
}

#[test]
fn empty_type_has_no_value() {
    assert_eq!(Infallible::inhabitants(), 0);
    assert_eq!(Infallible::from_usize(0), None);
    assert_eq!(Infallible::from_usize(usize::MAX), None);
    assert_eq!(Infallible::iter_all().len(), 0);
    assert_eq!(Infallible::iter_all().next(), None);
}

#[test]
fn tuple_has_first_field_most_significant() {
    assert_eq!(<(u8, bool)>::inhabitants(), 512);
    assert_eq!((0u8, false).to_usize(), 0);
    assert_eq!((0u8, true).to_usize(), 1);
    assert_eq!((1u8, false).to_usize(), 2);
    assert_eq!((255u8, true).to_usize(), 511);
    assert_eq!(<(u8, bool)>::from_usize(3), Some((1, true)));
    assert_eq!(<(u8, bool)>::from_usize(512), None);
    assert_eq!((true, 0u8).to_usize(), 256);
    assert_eq!((true, Some(false), 7u8).to_usize(), (1 * 3 + 1) * 256 + 7);
    assert_eq!(
        <(bool, Option<bool>, u8)>::from_usize((1 * 3 + 1) * 256 + 7),
        Some((true, Some(false), 7))
    );
    assert_eq!((5u8,).to_usize(), 5);
    assert_eq!(<(u8,)>::from_usize(5), Some((5,)));
}

#[test]
fn tuple_of_sixteen_fields() {
    type T = (
        bool, bool, bool, bool, bool, bool, bool, bool,
        bool, bool, bool, bool, bool, bool, bool, bool,
    );
    assert_eq!(T::inhabitants(), 1 << 16);
    let t: T = (
        true, false, false, false, false, false, false, false,
        false, false, false, false, false, false, true, true,
    );
    assert_eq!(t.to_usize(), 0b1000_0000_0000_0011);
    let back = T::from_usize(0b1000_0000_0000_0011).unwrap();
    assert!(back.0 && back.14 && back.15);
    assert!(!back.1 && !back.7 && !back.13);
    for i in 0..T::inhabitants() {
        assert_eq!(T::from_usize(i).unwrap().to_usize(), i);
    }
    assert!(T::from_usize(1 << 16).is_none());
}

#[test]
fn array_agrees_with_tuple() {
    assert_eq!([1u8, 2u8].to_usize(), 258);
    assert_eq!(<[u8; 2]>::from_usize(258), Some([1, 2]));
    for a in [0u8, 1, 77, 255] {
        for b in [0u8, 3, 255] {
            for c in [0u8, 9, 255] {
                assert_eq!([a, b].to_usize(), (a, b).to_usize());
                assert_eq!([a, b, c].to_usize(), (a, b, c).to_usize());
            }
        }
    }
    assert_eq!(<[bool; 3]>::inhabitants(), <(bool, bool, bool)>::inhabitants());
    assert_eq!([true, false, true].to_usize(), 5);
    assert_eq!(<[bool; 3]>::from_usize(6), Some([true, true, false]));
    assert_eq!(<[bool; 3]>::from_usize(8), None);
}

#[test]
fn array_of_no_element_has_one_value() {
    assert_eq!(<[u8; 0]>::inhabitants(), 1);
    assert_eq!(<[Infallible; 0]>::inhabitants(), 1);
    assert_eq!(<[Infallible; 3]>::inhabitants(), 0);
    let empty: [u8; 0] = [];
    assert_eq!(empty.to_usize(), 0);
    assert_eq!(<[u8; 0]>::from_usize(0), Some([]));
    assert_eq!(<[u8; 0]>::from_usize(1), None);
}

#[test]
fn types_that_do_not_fit_say_so() {
    assert_eq!(<(u32, u32)>::checked_inhabitants(), None);
    assert_eq!(<(u32, u16, u16)>::checked_inhabitants(), None);
    assert_eq!(<[u8; 8]>::checked_inhabitants(), None);
    assert_eq!(<[u8; 9]>::checked_inhabitants(), None);
    assert_eq!(<[u8; 7]>::checked_inhabitants(), Some(1 << 56));
    assert_eq!(<Option<NonZeroUsize>>::checked_inhabitants(), None);
    assert_eq!(<Result<NonZeroUsize, ()>>::checked_inhabitants(), None);
    assert_eq!(<Result<NonZeroUsize, Infallible>>::checked_inhabitants(), Some(usize::MAX));
    assert_eq!(<((u32, u32), bool)>::checked_inhabitants(), None);
    assert_eq!(<(u32, u32, Infallible)>::checked_inhabitants(), Some(0));
    assert_eq!(<(u32, Infallible, u32)>::checked_inhabitants(), Some(0));
    assert_eq!(<std::ops::Range<u32>>::checked_inhabitants(), None);
    assert_eq!(<Box<(u32, u32)>>::checked_inhabitants(), None);
}

#[test]
fn option_puts_none_first() {
    assert_eq!(<Option<u8>>::inhabitants(), 257);
    assert_eq!(None::<u8>.to_usize(), 0);
    assert_eq!(Some(0u8).to_usize(), 1);
    assert_eq!(Some(255u8).to_usize(), 256);
    assert_eq!(<Option<u8>>::from_usize(0), Some(None));
    assert_eq!(<Option<u8>>::from_usize(256), Some(Some(255)));
    assert_eq!(<Option<u8>>::from_usize(257), None);
    assert_eq!(<Option<Infallible>>::inhabitants(), 1);
    for i in 0..257 {
        assert_eq!(<Option<u8>>::from_usize(i).unwrap().to_usize(), i);
    }
}

#[test]
fn result_puts_ok_first() {
    assert_eq!(<Result<bool, u8>>::inhabitants(), 258);
    assert_eq!(Ok::<bool, u8>(false).to_usize(), 0);
    assert_eq!(Ok::<bool, u8>(true).to_usize(), 1);
    assert_eq!(Err::<bool, u8>(0).to_usize(), 2);
    assert_eq!(Err::<bool, u8>(255).to_usize(), 257);
    assert_eq!(<Result<bool, u8>>::from_usize(1), Some(Ok(true)));
    assert_eq!(<Result<bool, u8>>::from_usize(2), Some(Err(0)));
    assert_eq!(<Result<bool, u8>>::from_usize(258), None);
    for i in 0..258 {
        assert_eq!(<Result<bool, u8>>::from_usize(i).unwrap().to_usize(), i);
    }
}

#[test]
fn control_flow_puts_continue_first() {
    type T = ControlFlow<bool, u8>;
    assert_eq!(T::inhabitants(), 258);
    assert_eq!(T::Continue(0).to_usize(), 0);
    assert_eq!(T::Continue(255).to_usize(), 255);
    assert_eq!(T::Break(false).to_usize(), 256);
    assert_eq!(T::Break(true).to_usize(), 257);
    assert_eq!(T::from_usize(255), Some(ControlFlow::Continue(255)));
    assert_eq!(T::from_usize(256), Some(ControlFlow::Break(false)));
    assert_eq!(T::from_usize(258), None);
    for i in 0..258 {
        assert_eq!(T::from_usize(i).unwrap().to_usize(), i);
    }
}

#[test]
fn range_is_the_product_of_start_and_end() {
    assert_eq!(<std::ops::Range<u8>>::inhabitants(), 256 * 256);
    assert_eq!((1u8..2u8).to_usize(), 258);
    assert_eq!((3u8..0u8).to_usize(), 768);
    assert_eq!(<std::ops::Range<u8>>::from_usize(258), Some(1..2));
    assert_eq!(<std::ops::Range<u8>>::from_usize(256 * 256), None);
    for i in 0..256 * 256 {
        assert_eq!(<std::ops::Range<u8>>::from_usize(i).unwrap().to_usize(), i);
    }
}

#[test]
fn pointers_have_the_positions_of_their_values() {
    assert_eq!(<Box<u8>>::inhabitants(), 256);
    assert_eq!(Box::new(7u8).to_usize(), 7);
    assert_eq!(<Box<u8>>::from_usize(7), Some(Box::new(7)));
    assert_eq!(<Box<u8>>::from_usize(256), None);
    assert_eq!(Rc::new(true).to_usize(), 1);
    assert_eq!(<Rc<bool>>::from_usize(0), Some(Rc::new(false)));
    assert_eq!(<Rc<bool>>::from_usize(2), None);
    assert_eq!(Arc::new((1u8, true)).to_usize(), 3);
    assert_eq!(<Arc<(u8, bool)>>::from_usize(3), Some(Arc::new((1, true))));
    assert_eq!(<Arc<(u8, bool)>>::inhabitants(), 512);
}

#[test]
fn iter_all_yields_every_inhabitant_once_in_order() {
    let mut it = <(bool, Option<bool>)>::iter_all();
    assert_eq!(it.len(), 6);
    assert_eq!(it.size_hint(), (6, Some(6)));
    let mut seen = Vec::new();
    while let Some(v) = it.next() {
        seen.push(v);
    }
    assert_eq!(it.len(), 0);
    assert_eq!(it.next(), None);
    assert_eq!(seen.len(), 6);
    for (i, v) in seen.iter().enumerate() {
        assert_eq!(v.to_usize(), i);
    }
    for i in 0..seen.len() {
        for j in 0..i {
            assert_ne!(seen[i], seen[j]);
        }
    }
}

#[test]
fn iter_all_can_be_read_from_both_ends() {
    let mut it = u8::iter_all();
    assert_eq!(it.len(), 256);
    assert_eq!(it.next(), Some(0));
    assert_eq!(it.next_back(), Some(255));
    assert_eq!(it.next_back(), Some(254));
    assert_eq!(it.next(), Some(1));
    assert_eq!(it.len(), 252);
    assert_eq!(it.size_hint(), (252, Some(252)));
    let mut it = bool::iter_all();
    assert_eq!(it.next_back(), Some(true));
    assert_eq!(it.next(), Some(false));
    assert_eq!(it.next(), None);
    assert_eq!(it.next_back(), None);
}

#[test]
fn iter_all_can_be_restarted() {
    let mut first = Vec::new();
    let mut it = <Option<bool>>::iter_all();
    while let Some(v) = it.next() {
        first.push(v);
    }
    let mut second = Vec::new();
    let mut it = <Option<bool>>::iter_all();
    while let Some(v) = it.next() {
        second.push(v);
    }
    assert_eq!(first, vec![None, Some(false), Some(true)]);
    assert_eq!(first, second);
}
