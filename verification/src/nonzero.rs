//! Integers that are not zero.
//!
//! Each type here holds an integer of one of the primitive types and is
//! never zero. The position of a value is its bit pattern, read as an
//! unsigned integer, less one.

use vstd::prelude::*;
use crate::finite::{Finite, FitsInUsize};
use crate::primitives::{signed_value, unsigned_pattern};

verus! {

/// An `u8` that is not zero.
#[derive(Debug, Clone, Copy, PartialEq, Eq, Structural, PartialOrd, Ord, Hash)]
pub struct NonZeroU8 {
    value: u8,
}

impl NonZeroU8 {
    #[verifier::type_invariant]
    spec fn well_formed(self) -> bool {
        self.value != 0
    }

    /// The integer that the value holds.
    pub closed spec fn value(self) -> u8 {
        self.value
    }

    /// Two values that hold the same integer are the same value.
    pub proof fn lemma_value_injective(self, other: Self)
        requires
            self.value() == other.value(),
        ensures
            self == other,
    {
    }

    /// Creates a value if the given integer is not zero.
    pub fn new(value: u8) -> (r: Option<Self>)
        ensures
            r is Some <==> value != 0,
            r is Some ==> r.unwrap().value() == value,
    {
        if value != 0 {
            Some(NonZeroU8 { value })
        } else {
            None
        }
    }

    /// Returns the value as a `u8`.
    pub fn get(self) -> (value: u8)
        ensures
            value == self.value(),
            value != 0,
    {
        proof {
            use_type_invariant(&self);
        }
        self.value
    }
}

/// `NonZeroU8`: the position of a value is the value less one.
impl Finite for NonZeroU8 {
    open spec fn cardinality() -> nat {
        0xFF
    }

    open spec fn fits_in_usize() -> bool {
        0xFF <= usize::MAX
    }

    open spec fn inhabitant(&self) -> bool {
        self.value() != 0
    }

    open spec fn position(&self) -> nat {
        (self.value() - 1) as nat
    }

    closed spec fn at(i: nat) -> Option<Self> {
        if i < Self::cardinality() {
            Some(NonZeroU8 { value: (i + 1) as u8 })
        } else {
            None
        }
    }

    proof fn lemma_fits() {
    }

    proof fn lemma_position(&self) {
    }

    proof fn lemma_at(i: nat) {
    }

    fn checked_inhabitants() -> (n: Option<usize>) {
        Some(0xFF)
    }

    fn to_usize(&self) -> (i: usize) {
        (self.get() - 1) as usize
    }

    fn from_usize(i: usize) -> (r: Option<Self>) {
        if i < Self::inhabitants() {
            Some(NonZeroU8 { value: (i + 1) as u8 })
        } else {
            None
        }
    }
}

/// An `u16` that is not zero.
#[derive(Debug, Clone, Copy, PartialEq, Eq, Structural, PartialOrd, Ord, Hash)]
pub struct NonZeroU16 {
    value: u16,
}

impl NonZeroU16 {
    #[verifier::type_invariant]
    spec fn well_formed(self) -> bool {
        self.value != 0
    }

    /// The integer that the value holds.
    pub closed spec fn value(self) -> u16 {
        self.value
    }

    /// Two values that hold the same integer are the same value.
    pub proof fn lemma_value_injective(self, other: Self)
        requires
            self.value() == other.value(),
        ensures
            self == other,
    {
    }

    /// Creates a value if the given integer is not zero.
    pub fn new(value: u16) -> (r: Option<Self>)
        ensures
            r is Some <==> value != 0,
            r is Some ==> r.unwrap().value() == value,
    {
        if value != 0 {
            Some(NonZeroU16 { value })
        } else {
            None
        }
    }

    /// Returns the value as a `u16`.
    pub fn get(self) -> (value: u16)
        ensures
            value == self.value(),
            value != 0,
    {
        proof {
            use_type_invariant(&self);
        }
        self.value
    }
}

/// `NonZeroU16`: the position of a value is the value less one.
impl Finite for NonZeroU16 {
    open spec fn cardinality() -> nat {
        0xFFFF
    }

    open spec fn fits_in_usize() -> bool {
        0xFFFF <= usize::MAX
    }

    open spec fn inhabitant(&self) -> bool {
        self.value() != 0
    }

    open spec fn position(&self) -> nat {
        (self.value() - 1) as nat
    }

    closed spec fn at(i: nat) -> Option<Self> {
        if i < Self::cardinality() {
            Some(NonZeroU16 { value: (i + 1) as u16 })
        } else {
            None
        }
    }

    proof fn lemma_fits() {
    }

    proof fn lemma_position(&self) {
    }

    proof fn lemma_at(i: nat) {
    }

    fn checked_inhabitants() -> (n: Option<usize>) {
        Some(0xFFFF)
    }

    fn to_usize(&self) -> (i: usize) {
        (self.get() - 1) as usize
    }

    fn from_usize(i: usize) -> (r: Option<Self>) {
        if i < Self::inhabitants() {
            Some(NonZeroU16 { value: (i + 1) as u16 })
        } else {
            None
        }
    }
}

/// An `u32` that is not zero.
#[derive(Debug, Clone, Copy, PartialEq, Eq, Structural, PartialOrd, Ord, Hash)]
pub struct NonZeroU32 {
    value: u32,
}

impl NonZeroU32 {
    #[verifier::type_invariant]
    spec fn well_formed(self) -> bool {
        self.value != 0
    }

    /// The integer that the value holds.
    pub closed spec fn value(self) -> u32 {
        self.value
    }

    /// Two values that hold the same integer are the same value.
    pub proof fn lemma_value_injective(self, other: Self)
        requires
            self.value() == other.value(),
        ensures
            self == other,
    {
    }

    /// Creates a value if the given integer is not zero.
    pub fn new(value: u32) -> (r: Option<Self>)
        ensures
            r is Some <==> value != 0,
            r is Some ==> r.unwrap().value() == value,
    {
        if value != 0 {
            Some(NonZeroU32 { value })
        } else {
            None
        }
    }

    /// Returns the value as a `u32`.
    pub fn get(self) -> (value: u32)
        ensures
            value == self.value(),
            value != 0,
    {
        proof {
            use_type_invariant(&self);
        }
        self.value
    }
}

/// `NonZeroU32`: the position of a value is the value less one.
impl Finite for NonZeroU32 {
    open spec fn cardinality() -> nat {
        0xFFFF_FFFF
    }

    open spec fn fits_in_usize() -> bool {
        0xFFFF_FFFF <= usize::MAX
    }

    open spec fn inhabitant(&self) -> bool {
        self.value() != 0
    }

    open spec fn position(&self) -> nat {
        (self.value() - 1) as nat
    }

    closed spec fn at(i: nat) -> Option<Self> {
        if i < Self::cardinality() {
            Some(NonZeroU32 { value: (i + 1) as u32 })
        } else {
            None
        }
    }

    proof fn lemma_fits() {
    }

    proof fn lemma_position(&self) {
    }

    proof fn lemma_at(i: nat) {
    }

    fn checked_inhabitants() -> (n: Option<usize>) {
        Some(0xFFFF_FFFF)
    }

    fn to_usize(&self) -> (i: usize) {
        (self.get() - 1) as usize
    }

    fn from_usize(i: usize) -> (r: Option<Self>) {
        if i < Self::inhabitants() {
            Some(NonZeroU32 { value: (i + 1) as u32 })
        } else {
            None
        }
    }
}

/// An `u64` that is not zero.
#[derive(Debug, Clone, Copy, PartialEq, Eq, Structural, PartialOrd, Ord, Hash)]
pub struct NonZeroU64 {
    value: u64,
}

impl NonZeroU64 {
    #[verifier::type_invariant]
    spec fn well_formed(self) -> bool {
        self.value != 0
    }

    /// The integer that the value holds.
    pub closed spec fn value(self) -> u64 {
        self.value
    }

    /// Two values that hold the same integer are the same value.
    pub proof fn lemma_value_injective(self, other: Self)
        requires
            self.value() == other.value(),
        ensures
            self == other,
    {
    }

    /// Creates a value if the given integer is not zero.
    pub fn new(value: u64) -> (r: Option<Self>)
        ensures
            r is Some <==> value != 0,
            r is Some ==> r.unwrap().value() == value,
    {
        if value != 0 {
            Some(NonZeroU64 { value })
        } else {
            None
        }
    }

    /// Returns the value as a `u64`.
    pub fn get(self) -> (value: u64)
        ensures
            value == self.value(),
            value != 0,
    {
        proof {
            use_type_invariant(&self);
        }
        self.value
    }
}

/// `NonZeroU64`: the position of a value is the value less one.
impl Finite for NonZeroU64 {
    open spec fn cardinality() -> nat {
        0xFFFF_FFFF_FFFF_FFFF
    }

    open spec fn fits_in_usize() -> bool {
        0xFFFF_FFFF_FFFF_FFFF <= usize::MAX
    }

    open spec fn inhabitant(&self) -> bool {
        self.value() != 0
    }

    open spec fn position(&self) -> nat {
        (self.value() - 1) as nat
    }

    closed spec fn at(i: nat) -> Option<Self> {
        if i < Self::cardinality() {
            Some(NonZeroU64 { value: (i + 1) as u64 })
        } else {
            None
        }
    }

    proof fn lemma_fits() {
    }

    proof fn lemma_position(&self) {
    }

    proof fn lemma_at(i: nat) {
    }

    fn checked_inhabitants() -> (n: Option<usize>) {
        let max: u64 = 0xFFFF_FFFF_FFFF_FFFF;
        if usize::MAX as u64 == max {
            Some(usize::MAX)
        } else {
            None
        }
    }

    fn to_usize(&self) -> (i: usize) {
        (self.get() - 1) as usize
    }

    fn from_usize(i: usize) -> (r: Option<Self>) {
        if i < Self::inhabitants() {
            Some(NonZeroU64 { value: (i + 1) as u64 })
        } else {
            None
        }
    }
}

/// An `usize` that is not zero.
#[derive(Debug, Clone, Copy, PartialEq, Eq, Structural, PartialOrd, Ord, Hash)]
pub struct NonZeroUsize {
    value: usize,
}

impl NonZeroUsize {
    #[verifier::type_invariant]
    spec fn well_formed(self) -> bool {
        self.value != 0
    }

    /// The integer that the value holds.
    pub closed spec fn value(self) -> usize {
        self.value
    }

    /// Two values that hold the same integer are the same value.
    pub proof fn lemma_value_injective(self, other: Self)
        requires
            self.value() == other.value(),
        ensures
            self == other,
    {
    }

    /// Creates a value if the given integer is not zero.
    pub fn new(value: usize) -> (r: Option<Self>)
        ensures
            r is Some <==> value != 0,
            r is Some ==> r.unwrap().value() == value,
    {
        if value != 0 {
            Some(NonZeroUsize { value })
        } else {
            None
        }
    }

    /// Returns the value as a `usize`.
    pub fn get(self) -> (value: usize)
        ensures
            value == self.value(),
            value != 0,
    {
        proof {
            use_type_invariant(&self);
        }
        self.value
    }
}

/// `NonZeroUsize`: the position of a value is the value less one.
impl Finite for NonZeroUsize {
    open spec fn cardinality() -> nat {
        usize::MAX as nat
    }

    open spec fn fits_in_usize() -> bool {
        usize::MAX <= usize::MAX
    }

    open spec fn inhabitant(&self) -> bool {
        self.value() != 0
    }

    open spec fn position(&self) -> nat {
        (self.value() - 1) as nat
    }

    closed spec fn at(i: nat) -> Option<Self> {
        if i < Self::cardinality() {
            Some(NonZeroUsize { value: (i + 1) as usize })
        } else {
            None
        }
    }

    proof fn lemma_fits() {
    }

    proof fn lemma_position(&self) {
    }

    proof fn lemma_at(i: nat) {
    }

    fn checked_inhabitants() -> (n: Option<usize>) {
        Some(usize::MAX)
    }

    fn to_usize(&self) -> (i: usize) {
        (self.get() - 1) as usize
    }

    fn from_usize(i: usize) -> (r: Option<Self>) {
        if i < Self::inhabitants() {
            Some(NonZeroUsize { value: (i + 1) as usize })
        } else {
            None
        }
    }
}

/// An `i8` that is not zero.
#[derive(Debug, Clone, Copy, PartialEq, Eq, Structural, PartialOrd, Ord, Hash)]
pub struct NonZeroI8 {
    value: i8,
}

impl NonZeroI8 {
    #[verifier::type_invariant]
    spec fn well_formed(self) -> bool {
        self.value != 0
    }

    /// The integer that the value holds.
    pub closed spec fn value(self) -> i8 {
        self.value
    }

    /// Two values that hold the same integer are the same value.
    pub proof fn lemma_value_injective(self, other: Self)
        requires
            self.value() == other.value(),
        ensures
            self == other,
    {
    }

    /// Creates a value if the given integer is not zero.
    pub fn new(value: i8) -> (r: Option<Self>)
        ensures
            r is Some <==> value != 0,
            r is Some ==> r.unwrap().value() == value,
    {
        if value != 0 {
            Some(NonZeroI8 { value })
        } else {
            None
        }
    }

    /// Returns the value as an `i8`.
    pub fn get(self) -> (value: i8)
        ensures
            value == self.value(),
            value != 0,
    {
        proof {
            use_type_invariant(&self);
        }
        self.value
    }
}

/// `NonZeroI8`: the position of a value is its bit pattern, read as a `u8`,
/// less one.
impl Finite for NonZeroI8 {
    open spec fn cardinality() -> nat {
        0xFF
    }

    open spec fn fits_in_usize() -> bool {
        0xFF <= usize::MAX
    }

    open spec fn inhabitant(&self) -> bool {
        self.value() != 0
    }

    open spec fn position(&self) -> nat {
        (unsigned_pattern(self.value() as int, 0x100) - 1) as nat
    }

    closed spec fn at(i: nat) -> Option<Self> {
        if i < Self::cardinality() {
            Some(NonZeroI8 { value: signed_value(i + 1, 0x100) as i8 })
        } else {
            None
        }
    }

    proof fn lemma_fits() {
    }

    proof fn lemma_position(&self) {
    }

    proof fn lemma_at(i: nat) {
    }

    fn checked_inhabitants() -> (n: Option<usize>) {
        Some(0xFF)
    }

    fn to_usize(&self) -> (i: usize) {
        let value: i8 = self.get();
        if value > 0 {
            (value - 1) as usize
        } else {
            ((value as i32) + 0xFF) as usize
        }
    }

    fn from_usize(i: usize) -> (r: Option<Self>) {
        if i >= Self::inhabitants() {
            None
        } else if i < 0x7F {
            Some(NonZeroI8 { value: (i + 1) as i8 })
        } else {
            Some(NonZeroI8 { value: ((i as i32) - 0xFF) as i8 })
        }
    }
}

/// An `i16` that is not zero.
#[derive(Debug, Clone, Copy, PartialEq, Eq, Structural, PartialOrd, Ord, Hash)]
pub struct NonZeroI16 {
    value: i16,
}

impl NonZeroI16 {
    #[verifier::type_invariant]
    spec fn well_formed(self) -> bool {
        self.value != 0
    }

    /// The integer that the value holds.
    pub closed spec fn value(self) -> i16 {
        self.value
    }

    /// Two values that hold the same integer are the same value.
    pub proof fn lemma_value_injective(self, other: Self)
        requires
            self.value() == other.value(),
        ensures
            self == other,
    {
    }

    /// Creates a value if the given integer is not zero.
    pub fn new(value: i16) -> (r: Option<Self>)
        ensures
            r is Some <==> value != 0,
            r is Some ==> r.unwrap().value() == value,
    {
        if value != 0 {
            Some(NonZeroI16 { value })
        } else {
            None
        }
    }

    /// Returns the value as an `i16`.
    pub fn get(self) -> (value: i16)
        ensures
            value == self.value(),
            value != 0,
    {
        proof {
            use_type_invariant(&self);
        }
        self.value
    }
}

/// `NonZeroI16`: the position of a value is its bit pattern, read as a `u16`,
/// less one.
impl Finite for NonZeroI16 {
    open spec fn cardinality() -> nat {
        0xFFFF
    }

    open spec fn fits_in_usize() -> bool {
        0xFFFF <= usize::MAX
    }

    open spec fn inhabitant(&self) -> bool {
        self.value() != 0
    }

    open spec fn position(&self) -> nat {
        (unsigned_pattern(self.value() as int, 0x1_0000) - 1) as nat
    }

    closed spec fn at(i: nat) -> Option<Self> {
        if i < Self::cardinality() {
            Some(NonZeroI16 { value: signed_value(i + 1, 0x1_0000) as i16 })
        } else {
            None
        }
    }

    proof fn lemma_fits() {
    }

    proof fn lemma_position(&self) {
    }

    proof fn lemma_at(i: nat) {
    }

    fn checked_inhabitants() -> (n: Option<usize>) {
        Some(0xFFFF)
    }

    fn to_usize(&self) -> (i: usize) {
        let value: i16 = self.get();
        if value > 0 {
            (value - 1) as usize
        } else {
            ((value as i32) + 0xFFFF) as usize
        }
    }

    fn from_usize(i: usize) -> (r: Option<Self>) {
        if i >= Self::inhabitants() {
            None
        } else if i < 0x7FFF {
            Some(NonZeroI16 { value: (i + 1) as i16 })
        } else {
            Some(NonZeroI16 { value: ((i as i32) - 0xFFFF) as i16 })
        }
    }
}

/// An `i32` that is not zero.
#[derive(Debug, Clone, Copy, PartialEq, Eq, Structural, PartialOrd, Ord, Hash)]
pub struct NonZeroI32 {
    value: i32,
}

impl NonZeroI32 {
    #[verifier::type_invariant]
    spec fn well_formed(self) -> bool {
        self.value != 0
    }

    /// The integer that the value holds.
    pub closed spec fn value(self) -> i32 {
        self.value
    }

    /// Two values that hold the same integer are the same value.
    pub proof fn lemma_value_injective(self, other: Self)
        requires
            self.value() == other.value(),
        ensures
            self == other,
    {
    }

    /// Creates a value if the given integer is not zero.
    pub fn new(value: i32) -> (r: Option<Self>)
        ensures
            r is Some <==> value != 0,
            r is Some ==> r.unwrap().value() == value,
    {
        if value != 0 {
            Some(NonZeroI32 { value })
        } else {
            None
        }
    }

    /// Returns the value as an `i32`.
    pub fn get(self) -> (value: i32)
        ensures
            value == self.value(),
            value != 0,
    {
        proof {
            use_type_invariant(&self);
        }
        self.value
    }
}

/// `NonZeroI32`: the position of a value is its bit pattern, read as a `u32`,
/// less one.
impl Finite for NonZeroI32 {
    open spec fn cardinality() -> nat {
        0xFFFF_FFFF
    }

    open spec fn fits_in_usize() -> bool {
        0xFFFF_FFFF <= usize::MAX
    }

    open spec fn inhabitant(&self) -> bool {
        self.value() != 0
    }

    open spec fn position(&self) -> nat {
        (unsigned_pattern(self.value() as int, 0x1_0000_0000) - 1) as nat
    }

    closed spec fn at(i: nat) -> Option<Self> {
        if i < Self::cardinality() {
            Some(NonZeroI32 { value: signed_value(i + 1, 0x1_0000_0000) as i32 })
        } else {
            None
        }
    }

    proof fn lemma_fits() {
    }

    proof fn lemma_position(&self) {
    }

    proof fn lemma_at(i: nat) {
    }

    fn checked_inhabitants() -> (n: Option<usize>) {
        Some(0xFFFF_FFFF)
    }

    fn to_usize(&self) -> (i: usize) {
        let value: i32 = self.get();
        if value > 0 {
            (value - 1) as usize
        } else {
            ((value as i64) + 0xFFFF_FFFF) as usize
        }
    }

    fn from_usize(i: usize) -> (r: Option<Self>) {
        if i >= Self::inhabitants() {
            None
        } else if i < 0x7FFF_FFFF {
            Some(NonZeroI32 { value: (i + 1) as i32 })
        } else {
            Some(NonZeroI32 { value: ((i as i64) - 0xFFFF_FFFF) as i32 })
        }
    }
}

/// An `i64` that is not zero.
#[derive(Debug, Clone, Copy, PartialEq, Eq, Structural, PartialOrd, Ord, Hash)]
pub struct NonZeroI64 {
    value: i64,
}

impl NonZeroI64 {
    #[verifier::type_invariant]
    spec fn well_formed(self) -> bool {
        self.value != 0
    }

    /// The integer that the value holds.
    pub closed spec fn value(self) -> i64 {
        self.value
    }

    /// Two values that hold the same integer are the same value.
    pub proof fn lemma_value_injective(self, other: Self)
        requires
            self.value() == other.value(),
        ensures
            self == other,
    {
    }

    /// Creates a value if the given integer is not zero.
    pub fn new(value: i64) -> (r: Option<Self>)
        ensures
            r is Some <==> value != 0,
            r is Some ==> r.unwrap().value() == value,
    {
        if value != 0 {
            Some(NonZeroI64 { value })
        } else {
            None
        }
    }

    /// Returns the value as an `i64`.
    pub fn get(self) -> (value: i64)
        ensures
            value == self.value(),
            value != 0,
    {
        proof {
            use_type_invariant(&self);
        }
        self.value
    }
}

/// `NonZeroI64`: the position of a value is its bit pattern, read as a `u64`,
/// less one.
impl Finite for NonZeroI64 {
    open spec fn cardinality() -> nat {
        0xFFFF_FFFF_FFFF_FFFF
    }

    open spec fn fits_in_usize() -> bool {
        0xFFFF_FFFF_FFFF_FFFF <= usize::MAX
    }

    open spec fn inhabitant(&self) -> bool {
        self.value() != 0
    }

    open spec fn position(&self) -> nat {
        (unsigned_pattern(self.value() as int, 0x1_0000_0000_0000_0000) - 1) as nat
    }

    closed spec fn at(i: nat) -> Option<Self> {
        if i < Self::cardinality() {
            Some(NonZeroI64 { value: signed_value(i + 1, 0x1_0000_0000_0000_0000) as i64 })
        } else {
            None
        }
    }

    proof fn lemma_fits() {
    }

    proof fn lemma_position(&self) {
    }

    proof fn lemma_at(i: nat) {
    }

    fn checked_inhabitants() -> (n: Option<usize>) {
        let max: u64 = 0xFFFF_FFFF_FFFF_FFFF;
        if usize::MAX as u64 == max {
            Some(usize::MAX)
        } else {
            None
        }
    }

    fn to_usize(&self) -> (i: usize) {
        let value: i64 = self.get();
        if value > 0 {
            (value - 1) as usize
        } else {
            ((value as i128) + 0xFFFF_FFFF_FFFF_FFFF) as usize
        }
    }

    fn from_usize(i: usize) -> (r: Option<Self>) {
        if i >= Self::inhabitants() {
            None
        } else if (i as u64) < 0x7FFF_FFFF_FFFF_FFFF {
            Some(NonZeroI64 { value: (i + 1) as i64 })
        } else {
            Some(NonZeroI64 { value: ((i as i128) - 0xFFFF_FFFF_FFFF_FFFF) as i64 })
        }
    }
}

/// An `isize` that is not zero.
#[derive(Debug, Clone, Copy, PartialEq, Eq, Structural, PartialOrd, Ord, Hash)]
pub struct NonZeroIsize {
    value: isize,
}

impl NonZeroIsize {
    #[verifier::type_invariant]
    spec fn well_formed(self) -> bool {
        self.value != 0
    }

    /// The integer that the value holds.
    pub closed spec fn value(self) -> isize {
        self.value
    }

    /// Two values that hold the same integer are the same value.
    pub proof fn lemma_value_injective(self, other: Self)
        requires
            self.value() == other.value(),
        ensures
            self == other,
    {
    }

    /// Creates a value if the given integer is not zero.
    pub fn new(value: isize) -> (r: Option<Self>)
        ensures
            r is Some <==> value != 0,
            r is Some ==> r.unwrap().value() == value,
    {
        if value != 0 {
            Some(NonZeroIsize { value })
        } else {
            None
        }
    }

    /// Returns the value as an `isize`.
    pub fn get(self) -> (value: isize)
        ensures
            value == self.value(),
            value != 0,
    {
        proof {
            use_type_invariant(&self);
        }
        self.value
    }
}

/// `NonZeroIsize`: the position of a value is its bit pattern, read as a `usize`,
/// less one.
impl Finite for NonZeroIsize {
    open spec fn cardinality() -> nat {
        usize::MAX as nat
    }

    open spec fn fits_in_usize() -> bool {
        usize::MAX <= usize::MAX
    }

    open spec fn inhabitant(&self) -> bool {
        self.value() != 0
    }

    open spec fn position(&self) -> nat {
        (unsigned_pattern(self.value() as int, (usize::MAX + 1) as nat) - 1) as nat
    }

    closed spec fn at(i: nat) -> Option<Self> {
        if i < Self::cardinality() {
            Some(NonZeroIsize { value: signed_value(i + 1, (usize::MAX + 1) as nat) as isize })
        } else {
            None
        }
    }

    proof fn lemma_fits() {
    }

    proof fn lemma_position(&self) {
    }

    proof fn lemma_at(i: nat) {
    }

    fn checked_inhabitants() -> (n: Option<usize>) {
        Some(usize::MAX)
    }

    fn to_usize(&self) -> (i: usize) {
        let value: isize = self.get();
        if value > 0 {
            (value - 1) as usize
        } else {
            ((value as i128) + (usize::MAX as i128)) as usize
        }
    }

    fn from_usize(i: usize) -> (r: Option<Self>) {
        if i >= Self::inhabitants() {
            None
        } else if i < (isize::MAX as usize) {
            Some(NonZeroIsize { value: (i + 1) as isize })
        } else {
            Some(NonZeroIsize { value: ((i as i128) - (usize::MAX as i128)) as isize })
        }
    }
}

impl FitsInUsize for NonZeroU8 {
    proof fn lemma_fits_in_usize() {
    }
}

impl FitsInUsize for NonZeroU16 {
    proof fn lemma_fits_in_usize() {
    }
}

impl FitsInUsize for NonZeroU32 {
    proof fn lemma_fits_in_usize() {
    }
}

impl FitsInUsize for NonZeroUsize {
    proof fn lemma_fits_in_usize() {
    }
}

impl FitsInUsize for NonZeroI8 {
    proof fn lemma_fits_in_usize() {
    }
}

impl FitsInUsize for NonZeroI16 {
    proof fn lemma_fits_in_usize() {
    }
}

impl FitsInUsize for NonZeroI32 {
    proof fn lemma_fits_in_usize() {
    }
}

impl FitsInUsize for NonZeroIsize {
    proof fn lemma_fits_in_usize() {
    }
}

} // verus!
