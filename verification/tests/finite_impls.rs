use std::fmt::Debug;

use exhaustive_map::nonzero::{
    NonZeroI16, NonZeroI32, NonZeroI64, NonZeroI8, NonZeroIsize, NonZeroU16, NonZeroU32,
    NonZeroU64, NonZeroU8, NonZeroUsize,
};
use exhaustive_map::ordering::{ordering_from_usize, ordering_to_usize, ORDERING_INHABITANTS};
use exhaustive_map::Finite;

fn test_some<T: Finite + Debug + PartialEq>(expected_elements: usize) {
    assert_eq!(T::inhabitants(), expected_elements);

    let mut values: Vec<usize> = (0..1000).collect();
    for base in [usize::MAX, T::inhabitants()] {
        for offset in -10..=10 {
            if let Some(i) = base.checked_add_signed(offset) {
                values.push(i);
            }
        }
    }

    for i in values {
        match T::from_usize(i) {
            None => {
                assert!(
                    i >= T::inhabitants(),
                    "Got {i}usize -> None, but INHABITANTS={}",
                    T::inhabitants()
                );
            }
            Some(v) => {
                assert!(
                    i < T::inhabitants(),
                    "Got {i}usize -> {v:?}, but INHABITANTS={}",
                    T::inhabitants()
                );
                let i2 = v.to_usize();
                assert_eq!(i2, i, "{i}usize -> {v:?} -> {i2}usize");
            }
        }
    }
}

fn test_all<T: Finite + Debug + PartialEq>(expected_elements: usize) {
    test_some::<T>(expected_elements);

    for i in 0..T::inhabitants() {
        let v = T::from_usize(i).unwrap();
        let i2 = v.to_usize();
        assert_eq!(i2, i, "{i}usize -> {v:?} -> {i2}usize");
    }

    for k in [8, 16, 32, 64] {
        for k in [k - 1, k, k + 1] {
            let Some(n) = 2usize.checked_pow(k) else {
                continue;
            };
            for i in [n - 1, n, n + 1] {
                if i >= T::inhabitants() {
                    assert_eq!(
                        T::from_usize(i),
                        None,
                        "expected None from T::from_usize({i})"
                    );
                }
            }
        }
    }
}

#[test]
fn test_unit() {
    test_all::<()>(1);
}

#[test]
fn test_bool() {
    test_all::<bool>(2);
}

#[test]
fn test_u8() {
    test_all::<u8>(256);
}

#[test]
fn test_u16() {
    test_all::<u16>(256 * 256);
}

#[test]
fn test_u32() {
    test_all::<u32>(256 * 256 * 256 * 256);
}

#[test]
fn test_i8() {
    test_all::<i8>(256);
}

#[test]
fn test_i16() {
    test_all::<i16>(256 * 256);
}

#[test]
fn test_i32() {
    test_all::<i32>(256 * 256 * 256 * 256);
}

#[test]
fn test_char() {
    test_all::<char>(0x11_0000 - 0x800);
}

#[test]
fn test_infallible() {
    test_all::<std::convert::Infallible>(0);
}

#[test]
fn test_nonzero_u8() {
    test_all::<NonZeroU8>(256 - 1);
}

#[test]
fn test_nonzero_u16() {
    test_all::<NonZeroU16>(256 * 256 - 1);
}

#[test]
fn test_nonzero_u32() {
    test_all::<NonZeroU32>(usize::try_from(256u64 * 256 * 256 * 256 - 1).unwrap());
}

#[test]
fn test_nonzero_u64() {
    test_some::<NonZeroU64>(usize::try_from(2u128.pow(64) - 1).unwrap());
}

#[test]
fn test_nonzero_usize() {
    test_some::<NonZeroUsize>(usize::try_from(2u128.pow(isize::BITS) - 1).unwrap());
}

#[test]
fn test_nonzero_i8() {
    test_all::<NonZeroI8>(256 - 1);
}

#[test]
fn test_nonzero_i16() {
    test_all::<NonZeroI16>(256 * 256 - 1);
}

#[test]
fn test_nonzero_i32() {
    test_all::<NonZeroI32>(usize::try_from(256u64 * 256 * 256 * 256 - 1).unwrap());
}

#[test]
fn test_nonzero_i64() {
    test_some::<NonZeroI64>(usize::try_from(2u128.pow(64) - 1).unwrap());
}

#[test]
fn test_nonzero_isize() {
    test_some::<NonZeroIsize>(usize::try_from(2u128.pow(isize::BITS) - 1).unwrap());
}

#[test]
fn test_u8_arr_0() {
    test_all::<[u8; 0]>(1);
}

#[test]
fn test_u8_arr_1() {
    test_all::<[u8; 1]>(256);
}

#[test]
fn test_u8_arr_2() {
    test_all::<[u8; 2]>(256 * 256);
}

#[test]
fn test_unit_arr() {
    test_all::<[(); 100]>(1);
}

#[test]
fn test_tuple_u8_bool() {
    test_all::<(u8, bool)>(512);
}

#[test]
fn test_tuple_bool_u8() {
    test_all::<(bool, u8)>(512);
}

#[test]
fn test_tuple_and_arr_same_encoding() {
    let i1 = [1u8, 2u8].to_usize();
    let i2 = (1u8, 2u8).to_usize();
    assert_eq!(i1, i2);
}

#[test]
fn test_std_cmp_ordering() {
    assert_eq!(ORDERING_INHABITANTS, 3);
    for i in 0..ORDERING_INHABITANTS {
        let v = ordering_from_usize(i).unwrap();
        assert_eq!(ordering_to_usize(v), i);
    }
    for i in [3, 4, 255, 256, 65536, usize::MAX - 1, usize::MAX] {
        assert_eq!(ordering_from_usize(i), None);
    }
}
