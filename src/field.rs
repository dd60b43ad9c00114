use vstd::prelude::*;

verus! {

/// An integer type that the search kernels can hold in vector lanes.
///
/// Each implementing type fixes its width and lane geometry statically; the
/// narrowing accessors give the bit pattern that a width-typed broadcast
/// instruction expects, whatever the signedness of the element.
pub trait SIMDField: Sized + Copy {
    /// The mathematical integer that an element stands for.
    spec fn value(&self) -> int;

    /// The element width in bits.
    spec fn width() -> nat;

    fn size_in_bits() -> (r: usize)
        ensures
            r == Self::width(),
            r == 8 || r == 16 || r == 32 || r == 64,
    ;

    fn unchecked_i8(self) -> (r: i8)
        ensures
            r == self.value() as i8,
    ;

    fn unchecked_u8(self) -> (r: u8)
        ensures
            r == self.value() as u8,
    ;

    fn unchecked_i16(self) -> (r: i16)
        ensures
            r == self.value() as i16,
    ;

    fn unchecked_u16(self) -> (r: u16)
        ensures
            r == self.value() as u16,
    ;

    fn unchecked_i32(self) -> (r: i32)
        ensures
            r == self.value() as i32,
    ;

    fn unchecked_u32(self) -> (r: u32)
        ensures
            r == self.value() as u32,
    ;

    fn unchecked_i64(self) -> (r: i64)
        ensures
            r == self.value() as i64,
    ;

    fn unchecked_u64(self) -> (r: u64)
        ensures
            r == self.value() as u64,
    ;

    /// Lane equality, as a vector compare instruction sees it.
    fn eq_value(&self, other: &Self) -> (r: bool)
        ensures
            r == (self.value() == other.value()),
    ;

    /// Ordering used by the bisection steps.
    fn lt_value(&self, other: &Self) -> (r: bool)
        ensures
            r == (self.value() < other.value()),
    ;
}

impl SIMDField for u8 {
    open spec fn value(&self) -> int {
        *self as int
    }

    open spec fn width() -> nat {
        8
    }

    fn size_in_bits() -> usize {
        8
    }

    fn unchecked_i8(self) -> i8 {
        self as i8
    }

    fn unchecked_u8(self) -> u8 {
        self as u8
    }

    fn unchecked_i16(self) -> i16 {
        self as i16
    }

    fn unchecked_u16(self) -> u16 {
        self as u16
    }

    fn unchecked_i32(self) -> i32 {
        self as i32
    }

    fn unchecked_u32(self) -> u32 {
        self as u32
    }

    fn unchecked_i64(self) -> i64 {
        self as i64
    }

    fn unchecked_u64(self) -> u64 {
        self as u64
    }

    fn eq_value(&self, other: &Self) -> bool {
        *self == *other
    }

    fn lt_value(&self, other: &Self) -> bool {
        *self < *other
    }
}

impl SIMDField for i8 {
    open spec fn value(&self) -> int {
        *self as int
    }

    open spec fn width() -> nat {
        8
    }

    fn size_in_bits() -> usize {
        8
    }

    fn unchecked_i8(self) -> i8 {
        self as i8
    }

    fn unchecked_u8(self) -> u8 {
        self as u8
    }

    fn unchecked_i16(self) -> i16 {
        self as i16
    }

    fn unchecked_u16(self) -> u16 {
        self as u16
    }

    fn unchecked_i32(self) -> i32 {
        self as i32
    }

    fn unchecked_u32(self) -> u32 {
        self as u32
    }

    fn unchecked_i64(self) -> i64 {
        self as i64
    }

    fn unchecked_u64(self) -> u64 {
        self as u64
    }

    fn eq_value(&self, other: &Self) -> bool {
        *self == *other
    }

    fn lt_value(&self, other: &Self) -> bool {
        *self < *other
    }
}

impl SIMDField for u16 {
    open spec fn value(&self) -> int {
        *self as int
    }

    open spec fn width() -> nat {
        16
    }

    fn size_in_bits() -> usize {
        16
    }

    fn unchecked_i8(self) -> i8 {
        self as i8
    }

    fn unchecked_u8(self) -> u8 {
        self as u8
    }

    fn unchecked_i16(self) -> i16 {
        self as i16
    }

    fn unchecked_u16(self) -> u16 {
        self as u16
    }

    fn unchecked_i32(self) -> i32 {
        self as i32
    }

    fn unchecked_u32(self) -> u32 {
        self as u32
    }

    fn unchecked_i64(self) -> i64 {
        self as i64
    }

    fn unchecked_u64(self) -> u64 {
        self as u64
    }

    fn eq_value(&self, other: &Self) -> bool {
        *self == *other
    }

    fn lt_value(&self, other: &Self) -> bool {
        *self < *other
    }
}

impl SIMDField for i16 {
    open spec fn value(&self) -> int {
        *self as int
    }

    open spec fn width() -> nat {
        16
    }

    fn size_in_bits() -> usize {
        16
    }

    fn unchecked_i8(self) -> i8 {
        self as i8
    }

    fn unchecked_u8(self) -> u8 {
        self as u8
    }

    fn unchecked_i16(self) -> i16 {
        self as i16
    }

    fn unchecked_u16(self) -> u16 {
        self as u16
    }

    fn unchecked_i32(self) -> i32 {
        self as i32
    }

    fn unchecked_u32(self) -> u32 {
        self as u32
    }

    fn unchecked_i64(self) -> i64 {
        self as i64
    }

    fn unchecked_u64(self) -> u64 {
        self as u64
    }

    fn eq_value(&self, other: &Self) -> bool {
        *self == *other
    }

    fn lt_value(&self, other: &Self) -> bool {
        *self < *other
    }
}

impl SIMDField for u32 {
    open spec fn value(&self) -> int {
        *self as int
    }

    open spec fn width() -> nat {
        32
    }

    fn size_in_bits() -> usize {
        32
    }

    fn unchecked_i8(self) -> i8 {
        self as i8
    }

    fn unchecked_u8(self) -> u8 {
        self as u8
    }

    fn unchecked_i16(self) -> i16 {
        self as i16
    }

    fn unchecked_u16(self) -> u16 {
        self as u16
    }

    fn unchecked_i32(self) -> i32 {
        self as i32
    }

    fn unchecked_u32(self) -> u32 {
        self as u32
    }

    fn unchecked_i64(self) -> i64 {
        self as i64
    }

    fn unchecked_u64(self) -> u64 {
        self as u64
    }

    fn eq_value(&self, other: &Self) -> bool {
        *self == *other
    }

    fn lt_value(&self, other: &Self) -> bool {
        *self < *other
    }
}

impl SIMDField for i32 {
    open spec fn value(&self) -> int {
        *self as int
    }

    open spec fn width() -> nat {
        32
    }

    fn size_in_bits() -> usize {
        32
    }

    fn unchecked_i8(self) -> i8 {
        self as i8
    }

    fn unchecked_u8(self) -> u8 {
        self as u8
    }

    fn unchecked_i16(self) -> i16 {
        self as i16
    }

    fn unchecked_u16(self) -> u16 {
        self as u16
    }

    fn unchecked_i32(self) -> i32 {
        self as i32
    }

    fn unchecked_u32(self) -> u32 {
        self as u32
    }

    fn unchecked_i64(self) -> i64 {
        self as i64
    }

    fn unchecked_u64(self) -> u64 {
        self as u64
    }

    fn eq_value(&self, other: &Self) -> bool {
        *self == *other
    }

    fn lt_value(&self, other: &Self) -> bool {
        *self < *other
    }
}

impl SIMDField for u64 {
    open spec fn value(&self) -> int {
        *self as int
    }

    open spec fn width() -> nat {
        64
    }

    fn size_in_bits() -> usize {
        64
    }

    fn unchecked_i8(self) -> i8 {
        self as i8
    }

    fn unchecked_u8(self) -> u8 {
        self as u8
    }

    fn unchecked_i16(self) -> i16 {
        self as i16
    }

    fn unchecked_u16(self) -> u16 {
        self as u16
    }

    fn unchecked_i32(self) -> i32 {
        self as i32
    }

    fn unchecked_u32(self) -> u32 {
        self as u32
    }

    fn unchecked_i64(self) -> i64 {
        self as i64
    }

    fn unchecked_u64(self) -> u64 {
        self as u64
    }

    fn eq_value(&self, other: &Self) -> bool {
        *self == *other
    }

    fn lt_value(&self, other: &Self) -> bool {
        *self < *other
    }
}

impl SIMDField for i64 {
    open spec fn value(&self) -> int {
        *self as int
    }

    open spec fn width() -> nat {
        64
    }

    fn size_in_bits() -> usize {
        64
    }

    fn unchecked_i8(self) -> i8 {
        self as i8
    }

    fn unchecked_u8(self) -> u8 {
        self as u8
    }

    fn unchecked_i16(self) -> i16 {
        self as i16
    }

    fn unchecked_u16(self) -> u16 {
        self as u16
    }

    fn unchecked_i32(self) -> i32 {
        self as i32
    }

    fn unchecked_u32(self) -> u32 {
        self as u32
    }

    fn unchecked_i64(self) -> i64 {
        self as i64
    }

    fn unchecked_u64(self) -> u64 {
        self as u64
    }

    fn eq_value(&self, other: &Self) -> bool {
        *self == *other
    }

    fn lt_value(&self, other: &Self) -> bool {
        *self < *other
    }
}

} // verus!
