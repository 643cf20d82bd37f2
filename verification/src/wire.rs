//! Integers as a wire format hands them over.

use vstd::prelude::*;
use crate::repr::{IntSize, IntStyle, IntType};
use crate::value::Value;

verus! {

/// An integer in one of the ten fixed widths in which a decoder can deliver
/// it. The width is the decoder's choice and need not be that of the
/// enumeration's representation.
#[derive(Clone, Copy, Debug, PartialEq, Eq, Structural)]
pub enum Wire {
    I8(i8),
    I16(i16),
    I32(i32),
    I64(i64),
    I128(i128),
    U8(u8),
    U16(u16),
    U32(u32),
    U64(u64),
    U128(u128),
}

impl Wire {
    /// The type in which the integer is delivered.
    pub open spec fn spec_ty(self) -> IntType {
        match self {
            Wire::I8(_) => IntType { style: IntStyle::Signed, size: IntSize::_8 },
            Wire::I16(_) => IntType { style: IntStyle::Signed, size: IntSize::_16 },
            Wire::I32(_) => IntType { style: IntStyle::Signed, size: IntSize::_32 },
            Wire::I64(_) => IntType { style: IntStyle::Signed, size: IntSize::_64 },
            Wire::I128(_) => IntType { style: IntStyle::Signed, size: IntSize::_128 },
            Wire::U8(_) => IntType { style: IntStyle::Unsigned, size: IntSize::_8 },
            Wire::U16(_) => IntType { style: IntStyle::Unsigned, size: IntSize::_16 },
            Wire::U32(_) => IntType { style: IntStyle::Unsigned, size: IntSize::_32 },
            Wire::U64(_) => IntType { style: IntStyle::Unsigned, size: IntSize::_64 },
            Wire::U128(_) => IntType { style: IntStyle::Unsigned, size: IntSize::_128 },
        }
    }

    /// The integer that is delivered.
    pub open spec fn spec_value(self) -> int {
        match self {
            Wire::I8(n) => n as int,
            Wire::I16(n) => n as int,
            Wire::I32(n) => n as int,
            Wire::I64(n) => n as int,
            Wire::I128(n) => n as int,
            Wire::U8(n) => n as int,
            Wire::U16(n) => n as int,
            Wire::U32(n) => n as int,
            Wire::U64(n) => n as int,
            Wire::U128(n) => n as int,
        }
    }

    /// The type in which the integer is delivered.
    pub fn ty(self) -> (t: IntType)
        ensures
            t == self.spec_ty(),
            t.size != IntSize::Size,
            t.holds(self.spec_value()),
    {
        match self {
            Wire::I8(_) => IntType { style: IntStyle::Signed, size: IntSize::_8 },
            Wire::I16(_) => IntType { style: IntStyle::Signed, size: IntSize::_16 },
            Wire::I32(_) => IntType { style: IntStyle::Signed, size: IntSize::_32 },
            Wire::I64(_) => IntType { style: IntStyle::Signed, size: IntSize::_64 },
            Wire::I128(_) => IntType { style: IntStyle::Signed, size: IntSize::_128 },
            Wire::U8(_) => IntType { style: IntStyle::Unsigned, size: IntSize::_8 },
            Wire::U16(_) => IntType { style: IntStyle::Unsigned, size: IntSize::_16 },
            Wire::U32(_) => IntType { style: IntStyle::Unsigned, size: IntSize::_32 },
            Wire::U64(_) => IntType { style: IntStyle::Unsigned, size: IntSize::_64 },
            Wire::U128(_) => IntType { style: IntStyle::Unsigned, size: IntSize::_128 },
        }
    }

    /// The integer that is delivered.
    pub fn value(self) -> (v: Value)
        ensures
            v@ == self.spec_value(),
    {
        match self {
            Wire::I8(n) => Value::from_i128(n as i128),
            Wire::I16(n) => Value::from_i128(n as i128),
            Wire::I32(n) => Value::from_i128(n as i128),
            Wire::I64(n) => Value::from_i128(n as i128),
            Wire::I128(n) => Value::from_i128(n),
            Wire::U8(n) => Value::from_u128(n as u128),
            Wire::U16(n) => Value::from_u128(n as u128),
            Wire::U32(n) => Value::from_u128(n as u128),
            Wire::U64(n) => Value::from_u128(n as u128),
            Wire::U128(n) => Value::from_u128(n),
        }
    }

    /// The integer `v` delivered in the type `ty`, where `ty` has a fixed
    /// width and `v` is an integer of it.
    pub fn new(ty: IntType, v: Value) -> (r: Option<Wire>)
        ensures
            r is Some <==> ty.size != IntSize::Size && ty.holds(v@),
            r matches Some(w) ==> w.spec_ty() == ty && w.spec_value() == v@,
    {
        if !ty.contains(v) {
            return None;
        }
        match ty.style {
            IntStyle::Signed => {
                let n: i128 = v.to_i128().unwrap();
                match ty.size {
                    IntSize::_8 => Some(Wire::I8(n as i8)),
                    IntSize::_16 => Some(Wire::I16(n as i16)),
                    IntSize::_32 => Some(Wire::I32(n as i32)),
                    IntSize::_64 => Some(Wire::I64(n as i64)),
                    IntSize::_128 => Some(Wire::I128(n)),
                    IntSize::Size => None,
                }
            },
            IntStyle::Unsigned => {
                let n: u128 = v.to_u128().unwrap();
                match ty.size {
                    IntSize::_8 => Some(Wire::U8(n as u8)),
                    IntSize::_16 => Some(Wire::U16(n as u16)),
                    IntSize::_32 => Some(Wire::U32(n as u32)),
                    IntSize::_64 => Some(Wire::U64(n as u64)),
                    IntSize::_128 => Some(Wire::U128(n)),
                    IntSize::Size => None,
                }
            },
        }
    }
}

} // verus!
