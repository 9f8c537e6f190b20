//! The ten integer kinds of the language and the constants of each.
use vstd::prelude::*;

verus! {

/// One of the ten integer kinds: unsigned or signed, 8 to 128 bits wide.
#[derive(Clone, Copy, Debug, PartialEq, Eq, Structural, Hash)]
pub enum IntegerType {
    U8,
    U16,
    U32,
    U64,
    U128,
    I8,
    I16,
    I32,
    I64,
    I128,
}

impl IntegerType {
    /// True for the five signed kinds.
    pub open spec fn signed(self) -> bool {
        match self {
            IntegerType::I8 | IntegerType::I16 | IntegerType::I32 | IntegerType::I64
            | IntegerType::I128 => true,
            _ => false,
        }
    }

    /// The number of bits of a value of this kind.
    pub open spec fn width(self) -> nat {
        match self {
            IntegerType::U8 | IntegerType::I8 => 8,
            IntegerType::U16 | IntegerType::I16 => 16,
            IntegerType::U32 | IntegerType::I32 => 32,
            IntegerType::U64 | IntegerType::I64 => 64,
            IntegerType::U128 | IntegerType::I128 => 128,
        }
    }

    /// The least value of this kind.
    pub open spec fn min(self) -> int {
        match self {
            IntegerType::I8 => -0x80,
            IntegerType::I16 => -0x8000,
            IntegerType::I32 => -0x8000_0000,
            IntegerType::I64 => -0x8000_0000_0000_0000,
            IntegerType::I128 => -0x8000_0000_0000_0000_0000_0000_0000_0000,
            _ => 0,
        }
    }

    /// The greatest value of this kind.
    pub open spec fn max(self) -> int {
        match self {
            IntegerType::U8 => 0xff,
            IntegerType::U16 => 0xffff,
            IntegerType::U32 => 0xffff_ffff,
            IntegerType::U64 => 0xffff_ffff_ffff_ffff,
            IntegerType::U128 => 0xffff_ffff_ffff_ffff_ffff_ffff_ffff_ffff,
            IntegerType::I8 => 0x7f,
            IntegerType::I16 => 0x7fff,
            IntegerType::I32 => 0x7fff_ffff,
            IntegerType::I64 => 0x7fff_ffff_ffff_ffff,
            IntegerType::I128 => 0x7fff_ffff_ffff_ffff_ffff_ffff_ffff_ffff,
        }
    }

    /// True if `v` is a value of this kind.
    pub open spec fn holds(self, v: int) -> bool {
        self.min() <= v <= self.max()
    }

    /// The name of this kind as the language writes it.
    pub open spec fn name(self) -> Seq<char> {
        match self {
            IntegerType::U8 => "u8"@,
            IntegerType::U16 => "u16"@,
            IntegerType::U32 => "u32"@,
            IntegerType::U64 => "u64"@,
            IntegerType::U128 => "u128"@,
            IntegerType::I8 => "i8"@,
            IntegerType::I16 => "i16"@,
            IntegerType::I32 => "i32"@,
            IntegerType::I64 => "i64"@,
            IntegerType::I128 => "i128"@,
        }
    }

    pub fn is_signed(&self) -> (r: bool)
        ensures
            r == self.signed(),
    {
        match self {
            IntegerType::I8 | IntegerType::I16 | IntegerType::I32 | IntegerType::I64
            | IntegerType::I128 => true,
            _ => false,
        }
    }

    pub fn bits(&self) -> (r: u32)
        ensures
            r == self.width(),
    {
        match self {
            IntegerType::U8 | IntegerType::I8 => 8,
            IntegerType::U16 | IntegerType::I16 => 16,
            IntegerType::U32 | IntegerType::I32 => 32,
            IntegerType::U64 | IntegerType::I64 => 64,
            IntegerType::U128 | IntegerType::I128 => 128,
        }
    }

    /// The greatest value of this kind; for a signed kind also the magnitude bound
    /// of its positive values.
    pub fn max_value(&self) -> (r: u128)
        ensures
            r == self.max(),
    {
        match self {
            IntegerType::U8 => 0xff,
            IntegerType::U16 => 0xffff,
            IntegerType::U32 => 0xffff_ffff,
            IntegerType::U64 => 0xffff_ffff_ffff_ffff,
            IntegerType::U128 => 0xffff_ffff_ffff_ffff_ffff_ffff_ffff_ffff,
            IntegerType::I8 => 0x7f,
            IntegerType::I16 => 0x7fff,
            IntegerType::I32 => 0x7fff_ffff,
            IntegerType::I64 => 0x7fff_ffff_ffff_ffff,
            IntegerType::I128 => 0x7fff_ffff_ffff_ffff_ffff_ffff_ffff_ffff,
        }
    }

    /// The least value of this kind.
    pub fn min_value(&self) -> (r: i128)
        ensures
            r == self.min(),
    {
        match self {
            IntegerType::I8 => -0x80,
            IntegerType::I16 => -0x8000,
            IntegerType::I32 => -0x8000_0000,
            IntegerType::I64 => -0x8000_0000_0000_0000,
            IntegerType::I128 => i128::MIN,
            _ => 0,
        }
    }

    /// The name of this kind as the language writes it.
    pub fn as_str(&self) -> (r: &'static str)
        ensures
            r@ == self.name(),
    {
        match self {
            IntegerType::U8 => "u8",
            IntegerType::U16 => "u16",
            IntegerType::U32 => "u32",
            IntegerType::U64 => "u64",
            IntegerType::U128 => "u128",
            IntegerType::I8 => "i8",
            IntegerType::I16 => "i16",
            IntegerType::I32 => "i32",
            IntegerType::I64 => "i64",
            IntegerType::I128 => "i128",
        }
    }
}

/// A compile-time integer constant of one of the ten kinds.
#[derive(Clone, Copy, Debug, PartialEq, Eq, Structural)]
pub enum ConstInt {
    U8(u8),
    U16(u16),
    U32(u32),
    U64(u64),
    U128(u128),
    I8(i8),
    I16(i16),
    I32(i32),
    I64(i64),
    I128(i128),
}

impl ConstInt {
    /// The kind of this constant.
    pub open spec fn kind(self) -> IntegerType {
        match self {
            ConstInt::U8(_) => IntegerType::U8,
            ConstInt::U16(_) => IntegerType::U16,
            ConstInt::U32(_) => IntegerType::U32,
            ConstInt::U64(_) => IntegerType::U64,
            ConstInt::U128(_) => IntegerType::U128,
            ConstInt::I8(_) => IntegerType::I8,
            ConstInt::I16(_) => IntegerType::I16,
            ConstInt::I32(_) => IntegerType::I32,
            ConstInt::I64(_) => IntegerType::I64,
            ConstInt::I128(_) => IntegerType::I128,
        }
    }

    /// The number that this constant holds.
    pub open spec fn number(self) -> int {
        match self {
            ConstInt::U8(v) => v as int,
            ConstInt::U16(v) => v as int,
            ConstInt::U32(v) => v as int,
            ConstInt::U64(v) => v as int,
            ConstInt::U128(v) => v as int,
            ConstInt::I8(v) => v as int,
            ConstInt::I16(v) => v as int,
            ConstInt::I32(v) => v as int,
            ConstInt::I64(v) => v as int,
            ConstInt::I128(v) => v as int,
        }
    }
}

} // verus!
