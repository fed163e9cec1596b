//! Finite types and total maps over them.
//!
//! A type is [`Finite`] when its inhabitants can be numbered `0..n`, where `n`
//! is the type's cardinality: `to_usize` gives the position of a value and
//! `from_usize` the value at a position. Every implementation proves that the
//! two are inverse to each other.
//!
//! [`ExhaustiveMap`] stores one value for every inhabitant of its key type, at
//! the key's position.
//!
//! # Positions
//!
//! - `bool`: `false` is 0, `true` is 1.
//! - `u8`, `u16`, `u32`: the value.
//! - `i8`, `i16`, `i32`: the bit pattern, read as an unsigned integer.
//! - The integers of [`nonzero`]: the bit pattern less one.
//! - `char`: the code, lowered by 2048 above the surrogates.
//! - [`InRange`] and [`InRangeInclusive`]: the offset from the lower bound.
//! - A product (a tuple, an array, a struct): the mixed-radix number whose
//!   digits are the positions of the fields, the first field being the most
//!   significant; the radix of a digit is the cardinality of its field.
//! - A sum (an enum): the position among the values of the same variant,
//!   raised by the cardinalities of the variants before it.
//!
//! The functions of [`composite`] compute the last two from the positions of
//! the fields, for any number of fields and variants.
//!
//! # Types that do not fit
//!
//! Positions are `usize` values, so a type must have at most `usize::MAX`
//! inhabitants, and so must the types it is built from. Whether that holds
//! is `Finite::fits_in_usize()`, and every method that computes with
//! positions asks for it. `Finite::checked_inhabitants()` tests it.

pub mod arrays;
pub mod composite;
pub mod conversions;
pub mod finite;
pub mod map;
pub mod nonzero;
pub mod ordering;
pub mod pointers;
pub mod primitives;
pub mod range;
pub mod std_types;
pub mod tuples;

pub use finite::{Finite, FiniteExt, FitsInUsize, IterAll};
pub use map::{ExhaustiveMap, IntoIter, IntoValues, Iter, Values};
pub use range::{InRange, InRangeBounds, InRangeInclusive};
