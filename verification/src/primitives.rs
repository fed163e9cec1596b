//! The positions of the primitive types.

use std::marker::PhantomData;
use vstd::prelude::*;
use crate::finite::{Finite, FitsInUsize};

verus! {

/// The bit pattern of a two's complement integer of `bits` bits, read as an
/// unsigned integer: a negative value is raised by `2^bits`.
pub open spec fn unsigned_pattern(v: int, patterns: nat) -> nat {
    if v >= 0 {
        v as nat
    } else {
        (v + patterns) as nat
    }
}

/// The two's complement integer with the bit pattern `i`, among `patterns`
/// patterns: the upper half of the patterns are the negative values.
pub open spec fn signed_value(i: nat, patterns: nat) -> int {
    if 2 * i < patterns {
        i as int
    } else {
        i - patterns
    }
}

impl Finite for bool {
    open spec fn cardinality() -> nat {
        2
    }

    open spec fn fits_in_usize() -> bool {
        true
    }

    open spec fn inhabitant(&self) -> bool {
        true
    }

    open spec fn position(&self) -> nat {
        if *self {
            1
        } else {
            0
        }
    }

    open spec fn at(i: nat) -> Option<Self> {
        if i == 0 {
            Some(false)
        } else if i == 1 {
            Some(true)
        } else {
            None
        }
    }

    proof fn lemma_fits() {
    }

    proof fn lemma_position(&self) {
    }

    proof fn lemma_at(i: nat) {
    }

    fn checked_inhabitants() -> (n: Option<usize>) {
        Some(2)
    }

    fn to_usize(&self) -> (i: usize) {
        if *self {
            1
        } else {
            0
        }
    }

    fn from_usize(i: usize) -> (r: Option<Self>) {
        match i {
            0 => Some(false),
            1 => Some(true),
            _ => None,
        }
    }
}

/// `u8`: the position of a value is the value.
impl Finite for u8 {
    open spec fn cardinality() -> nat {
        0x100
    }

    open spec fn fits_in_usize() -> bool {
        0x100 <= usize::MAX
    }

    open spec fn inhabitant(&self) -> bool {
        true
    }

    open spec fn position(&self) -> nat {
        *self as nat
    }

    open spec fn at(i: nat) -> Option<Self> {
        if i < 0x100 {
            Some(i as u8)
        } else {
            None
        }
    }

    proof fn lemma_fits() {
    }

    proof fn lemma_position(&self) {
    }

    proof fn lemma_at(i: nat) {
    }

    fn checked_inhabitants() -> (n: Option<usize>) {
        let max: usize = 0xFF;
        max.checked_add(1)
    }

    fn to_usize(&self) -> (i: usize) {
        *self as usize
    }

    fn from_usize(i: usize) -> (r: Option<Self>) {
        if i <= 0xFF {
            Some(i as u8)
        } else {
            None
        }
    }
}

/// `u16`: the position of a value is the value.
impl Finite for u16 {
    open spec fn cardinality() -> nat {
        0x1_0000
    }

    open spec fn fits_in_usize() -> bool {
        0x1_0000 <= usize::MAX
    }

    open spec fn inhabitant(&self) -> bool {
        true
    }

    open spec fn position(&self) -> nat {
        *self as nat
    }

    open spec fn at(i: nat) -> Option<Self> {
        if i < 0x1_0000 {
            Some(i as u16)
        } else {
            None
        }
    }

    proof fn lemma_fits() {
    }

    proof fn lemma_position(&self) {
    }

    proof fn lemma_at(i: nat) {
    }

    fn checked_inhabitants() -> (n: Option<usize>) {
        let max: usize = 0xFFFF;
        max.checked_add(1)
    }

    fn to_usize(&self) -> (i: usize) {
        *self as usize
    }

    fn from_usize(i: usize) -> (r: Option<Self>) {
        if i <= 0xFFFF {
            Some(i as u16)
        } else {
            None
        }
    }
}

/// `u32`: the position of a value is the value.
impl Finite for u32 {
    open spec fn cardinality() -> nat {
        0x1_0000_0000
    }

    open spec fn fits_in_usize() -> bool {
        0x1_0000_0000 <= usize::MAX
    }

    open spec fn inhabitant(&self) -> bool {
        true
    }

    open spec fn position(&self) -> nat {
        *self as nat
    }

    open spec fn at(i: nat) -> Option<Self> {
        if i < 0x1_0000_0000 {
            Some(i as u32)
        } else {
            None
        }
    }

    proof fn lemma_fits() {
    }

    proof fn lemma_position(&self) {
    }

    proof fn lemma_at(i: nat) {
    }

    fn checked_inhabitants() -> (n: Option<usize>) {
        let max: usize = 0xFFFF_FFFF;
        max.checked_add(1)
    }

    fn to_usize(&self) -> (i: usize) {
        *self as usize
    }

    fn from_usize(i: usize) -> (r: Option<Self>) {
        if i <= 0xFFFF_FFFF {
            Some(i as u32)
        } else {
            None
        }
    }
}

/// `i8`: the position of a value is its bit pattern, read as a `u8`.
impl Finite for i8 {
    open spec fn cardinality() -> nat {
        0x100
    }

    open spec fn fits_in_usize() -> bool {
        0x100 <= usize::MAX
    }

    open spec fn inhabitant(&self) -> bool {
        true
    }

    open spec fn position(&self) -> nat {
        unsigned_pattern(*self as int, 0x100)
    }

    open spec fn at(i: nat) -> Option<Self> {
        if i < 0x100 {
            Some(signed_value(i, 0x100) as i8)
        } else {
            None
        }
    }

    proof fn lemma_fits() {
    }

    proof fn lemma_position(&self) {
    }

    proof fn lemma_at(i: nat) {
    }

    fn checked_inhabitants() -> (n: Option<usize>) {
        let max: usize = 0xFF;
        max.checked_add(1)
    }

    fn to_usize(&self) -> (i: usize) {
        if *self >= 0 {
            *self as usize
        } else {
            ((*self as i32) + 0x100) as usize
        }
    }

    fn from_usize(i: usize) -> (r: Option<Self>) {
        if i <= 0x7F {
            Some(i as i8)
        } else if i <= 0xFF {
            Some(((i as i32) - 0x100) as i8)
        } else {
            None
        }
    }
}

/// `i16`: the position of a value is its bit pattern, read as a `u16`.
impl Finite for i16 {
    open spec fn cardinality() -> nat {
        0x1_0000
    }

    open spec fn fits_in_usize() -> bool {
        0x1_0000 <= usize::MAX
    }

    open spec fn inhabitant(&self) -> bool {
        true
    }

    open spec fn position(&self) -> nat {
        unsigned_pattern(*self as int, 0x1_0000)
    }

    open spec fn at(i: nat) -> Option<Self> {
        if i < 0x1_0000 {
            Some(signed_value(i, 0x1_0000) as i16)
        } else {
            None
        }
    }

    proof fn lemma_fits() {
    }

    proof fn lemma_position(&self) {
    }

    proof fn lemma_at(i: nat) {
    }

    fn checked_inhabitants() -> (n: Option<usize>) {
        let max: usize = 0xFFFF;
        max.checked_add(1)
    }

    fn to_usize(&self) -> (i: usize) {
        if *self >= 0 {
            *self as usize
        } else {
            ((*self as i32) + 0x1_0000) as usize
        }
    }

    fn from_usize(i: usize) -> (r: Option<Self>) {
        if i <= 0x7FFF {
            Some(i as i16)
        } else if i <= 0xFFFF {
            Some(((i as i32) - 0x1_0000) as i16)
        } else {
            None
        }
    }
}

/// `i32`: the position of a value is its bit pattern, read as a `u32`.
impl Finite for i32 {
    open spec fn cardinality() -> nat {
        0x1_0000_0000
    }

    open spec fn fits_in_usize() -> bool {
        0x1_0000_0000 <= usize::MAX
    }

    open spec fn inhabitant(&self) -> bool {
        true
    }

    open spec fn position(&self) -> nat {
        unsigned_pattern(*self as int, 0x1_0000_0000)
    }

    open spec fn at(i: nat) -> Option<Self> {
        if i < 0x1_0000_0000 {
            Some(signed_value(i, 0x1_0000_0000) as i32)
        } else {
            None
        }
    }

    proof fn lemma_fits() {
    }

    proof fn lemma_position(&self) {
    }

    proof fn lemma_at(i: nat) {
    }

    fn checked_inhabitants() -> (n: Option<usize>) {
        let max: usize = 0xFFFF_FFFF;
        max.checked_add(1)
    }

    fn to_usize(&self) -> (i: usize) {
        if *self >= 0 {
            *self as usize
        } else {
            ((*self as i64) + 0x1_0000_0000) as usize
        }
    }

    fn from_usize(i: usize) -> (r: Option<Self>) {
        if i <= 0x7FFF_FFFF {
            Some(i as i32)
        } else if i <= 0xFFFF_FFFF {
            Some(((i as i64) - 0x1_0000_0000) as i32)
        } else {
            None
        }
    }
}

/// The first surrogate code point: no `char` has a code from here to
/// `CHAR_GAP_END`.
pub const CHAR_GAP_START: usize = 0xD800;

/// The last surrogate code point.
pub const CHAR_GAP_END: usize = 0xDFFF;

/// The number of surrogate code points.
pub const CHAR_GAP_SIZE: usize = 0x800;

/// The number of `char` values: the code points up to `char::MAX` without
/// the surrogates.
pub const CHAR_CARDINALITY: usize = 0x10F800;

/// Whether `v` is the code of a `char`: a code point that is no surrogate.
pub open spec fn is_scalar_value(v: nat) -> bool {
    v < CHAR_GAP_START || (CHAR_GAP_END < v && v <= 0x10FFFF)
}

/// The code of a `char` is a code point that is no surrogate.
pub proof fn lemma_char_code(c: char)
    ensures
        is_scalar_value(c as u32 as nat),
        (c as u32) as char == c,
{
}

/// `char::from_u32`: the `char` with the code `v`, for a code point that is
/// no surrogate, and `None` for any other number.
#[verifier::external_body]
fn char_from_u32(v: u32) -> (r: Option<char>)
    ensures
        is_scalar_value(v as nat) ==> r == Some(v as char),
        !is_scalar_value(v as nat) ==> r is None,
{
    char::from_u32(v)
}

/// `char`: the position of a character is its code, lowered by the number of
/// surrogates if it lies above them.
impl Finite for char {
    open spec fn cardinality() -> nat {
        CHAR_CARDINALITY as nat
    }

    open spec fn fits_in_usize() -> bool {
        true
    }

    open spec fn inhabitant(&self) -> bool {
        true
    }

    open spec fn position(&self) -> nat {
        let code = *self as u32;
        if code > CHAR_GAP_END {
            (code - CHAR_GAP_SIZE) as nat
        } else {
            code as nat
        }
    }

    open spec fn at(i: nat) -> Option<Self> {
        if i < CHAR_GAP_START {
            Some(i as char)
        } else if i < CHAR_CARDINALITY {
            Some((i + CHAR_GAP_SIZE) as char)
        } else {
            None
        }
    }

    proof fn lemma_fits() {
    }

    proof fn lemma_position(&self) {
        lemma_char_code(*self);
    }

    proof fn lemma_at(i: nat) {
    }

    fn checked_inhabitants() -> (n: Option<usize>) {
        Some(CHAR_CARDINALITY)
    }

    fn to_usize(&self) -> (i: usize) {
        proof {
            lemma_char_code(*self);
        }
        let mut v: usize = *self as u32 as usize;
        if v > CHAR_GAP_END {
            v -= CHAR_GAP_SIZE;
        }
        v
    }

    fn from_usize(i: usize) -> (r: Option<Self>) {
        if i >= CHAR_CARDINALITY {
            return None;
        }
        let code: usize = if i >= CHAR_GAP_START {
            i + CHAR_GAP_SIZE
        } else {
            i
        };
        char_from_u32(code as u32)
    }
}

/// `()`: the product of no field has one inhabitant, at position 0.
impl Finite for () {
    open spec fn cardinality() -> nat {
        1
    }

    open spec fn fits_in_usize() -> bool {
        true
    }

    open spec fn inhabitant(&self) -> bool {
        true
    }

    open spec fn position(&self) -> nat {
        0
    }

    open spec fn at(i: nat) -> Option<Self> {
        if i == 0 {
            Some(())
        } else {
            None
        }
    }

    proof fn lemma_fits() {
    }

    proof fn lemma_position(&self) {
    }

    proof fn lemma_at(i: nat) {
    }

    fn checked_inhabitants() -> (n: Option<usize>) {
        Some(1)
    }

    fn to_usize(&self) -> (i: usize) {
        0
    }

    fn from_usize(i: usize) -> (r: Option<Self>) {
        match i {
            0 => Some(()),
            _ => None,
        }
    }
}

/// `PhantomData<T>` has one inhabitant, whatever `T` is.
impl<T: ?Sized> Finite for PhantomData<T> {
    open spec fn cardinality() -> nat {
        1
    }

    open spec fn fits_in_usize() -> bool {
        true
    }

    open spec fn inhabitant(&self) -> bool {
        true
    }

    open spec fn position(&self) -> nat {
        0
    }

    open spec fn at(i: nat) -> Option<Self> {
        if i == 0 {
            Some(PhantomData)
        } else {
            None
        }
    }

    proof fn lemma_fits() {
    }

    proof fn lemma_position(&self) {
    }

    proof fn lemma_at(i: nat) {
    }

    fn checked_inhabitants() -> (n: Option<usize>) {
        Some(1)
    }

    fn to_usize(&self) -> (i: usize) {
        0
    }

    fn from_usize(i: usize) -> (r: Option<Self>) {
        match i {
            0 => Some(PhantomData),
            _ => None,
        }
    }
}

impl FitsInUsize for bool {
    proof fn lemma_fits_in_usize() {
    }
}

impl FitsInUsize for u8 {
    proof fn lemma_fits_in_usize() {
    }
}

impl FitsInUsize for u16 {
    proof fn lemma_fits_in_usize() {
    }
}

impl FitsInUsize for i8 {
    proof fn lemma_fits_in_usize() {
    }
}

impl FitsInUsize for i16 {
    proof fn lemma_fits_in_usize() {
    }
}

impl FitsInUsize for char {
    proof fn lemma_fits_in_usize() {
    }
}

impl FitsInUsize for () {
    proof fn lemma_fits_in_usize() {
    }
}

impl<T: ?Sized> FitsInUsize for PhantomData<T> {
    proof fn lemma_fits_in_usize() {
    }
}

} // verus!
