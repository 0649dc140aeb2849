//! Values of the ten integer types.

use crate::width::IntWidth;
use vstd::prelude::*;

verus! {

/// A value of one of the ten integer types: what is handed to a conversion.
#[derive(Clone, Copy, Debug, PartialEq, Eq, Structural)]
pub enum Number {
    U8(u8),
    U16(u16),
    U32(u32),
    Usize(usize),
    U64(u64),
    I8(i8),
    I16(i16),
    I32(i32),
    Isize(isize),
    I64(i64),
}

impl Number {
    /// The type of the value.
    pub open spec fn spec_width(self) -> IntWidth {
        match self {
            Number::U8(_) => IntWidth::U8,
            Number::U16(_) => IntWidth::U16,
            Number::U32(_) => IntWidth::U32,
            Number::Usize(_) => IntWidth::Usize,
            Number::U64(_) => IntWidth::U64,
            Number::I8(_) => IntWidth::I8,
            Number::I16(_) => IntWidth::I16,
            Number::I32(_) => IntWidth::I32,
            Number::Isize(_) => IntWidth::Isize,
            Number::I64(_) => IntWidth::I64,
        }
    }

    /// The value as a mathematical integer.
    pub open spec fn value(self) -> int {
        match self {
            Number::U8(value) => value as int,
            Number::U16(value) => value as int,
            Number::U32(value) => value as int,
            Number::Usize(value) => value as int,
            Number::U64(value) => value as int,
            Number::I8(value) => value as int,
            Number::I16(value) => value as int,
            Number::I32(value) => value as int,
            Number::Isize(value) => value as int,
            Number::I64(value) => value as int,
        }
    }

    /// The type of the value.
    #[verifier::when_used_as_spec(spec_width)]
    pub fn width(self) -> (width: IntWidth)
        ensures
            width == self.spec_width(),
    {
        match self {
            Number::U8(_) => IntWidth::U8,
            Number::U16(_) => IntWidth::U16,
            Number::U32(_) => IntWidth::U32,
            Number::Usize(_) => IntWidth::Usize,
            Number::U64(_) => IntWidth::U64,
            Number::I8(_) => IntWidth::I8,
            Number::I16(_) => IntWidth::I16,
            Number::I32(_) => IntWidth::I32,
            Number::Isize(_) => IntWidth::Isize,
            Number::I64(_) => IntWidth::I64,
        }
    }

    /// Tells whether the value is the given discriminant.
    pub fn is_discriminant(self, discriminant: u64) -> (same: bool)
        ensures
            same == (self.value() == discriminant),
    {
        match self {
            Number::U8(value) => value as u64 == discriminant,
            Number::U16(value) => value as u64 == discriminant,
            Number::U32(value) => value as u64 == discriminant,
            Number::Usize(value) => value as u64 == discriminant,
            Number::U64(value) => value == discriminant,
            Number::I8(value) => value >= 0 && value as u64 == discriminant,
            Number::I16(value) => value >= 0 && value as u64 == discriminant,
            Number::I32(value) => value >= 0 && value as u64 == discriminant,
            Number::Isize(value) => value >= 0 && value as u64 == discriminant,
            Number::I64(value) => value >= 0 && value as u64 == discriminant,
        }
    }
}

} // verus!
