//! The primitive integer types.

use vstd::prelude::*;
use crate::repr::{IntSize, IntStyle, IntType};
use crate::value::Value;

pub mod private;

verus! {

/// A primitive integer type: one of the twelve that can represent an
/// enumeration.
pub trait PrimInt: Sized + Copy + private::Sealed {
    /// Which of the twelve types this is.
    spec fn spec_int_type() -> IntType;

    /// The integer that `self` is.
    spec fn spec_value(self) -> int;

    /// Which of the twelve types this is.
    fn int_type() -> (t: IntType)
        ensures
            t == Self::spec_int_type(),
    ;

    /// The integer as a [`Value`].
    fn to_value(self) -> (v: Value)
        ensures
            v@ == self.spec_value(),
            Self::spec_int_type().holds(v@),
    ;
}

impl PrimInt for i8 {
    open spec fn spec_int_type() -> IntType {
        IntType { style: IntStyle::Signed, size: IntSize::_8 }
    }

    open spec fn spec_value(self) -> int {
        self as int
    }

    fn int_type() -> (t: IntType) {
        IntType { style: IntStyle::Signed, size: IntSize::_8 }
    }

    fn to_value(self) -> (v: Value) {
        Value::from_i128(self as i128)
    }
}

impl PrimInt for i16 {
    open spec fn spec_int_type() -> IntType {
        IntType { style: IntStyle::Signed, size: IntSize::_16 }
    }

    open spec fn spec_value(self) -> int {
        self as int
    }

    fn int_type() -> (t: IntType) {
        IntType { style: IntStyle::Signed, size: IntSize::_16 }
    }

    fn to_value(self) -> (v: Value) {
        Value::from_i128(self as i128)
    }
}

impl PrimInt for i32 {
    open spec fn spec_int_type() -> IntType {
        IntType { style: IntStyle::Signed, size: IntSize::_32 }
    }

    open spec fn spec_value(self) -> int {
        self as int
    }

    fn int_type() -> (t: IntType) {
        IntType { style: IntStyle::Signed, size: IntSize::_32 }
    }

    fn to_value(self) -> (v: Value) {
        Value::from_i128(self as i128)
    }
}

impl PrimInt for i64 {
    open spec fn spec_int_type() -> IntType {
        IntType { style: IntStyle::Signed, size: IntSize::_64 }
    }

    open spec fn spec_value(self) -> int {
        self as int
    }

    fn int_type() -> (t: IntType) {
        IntType { style: IntStyle::Signed, size: IntSize::_64 }
    }

    fn to_value(self) -> (v: Value) {
        Value::from_i128(self as i128)
    }
}

impl PrimInt for i128 {
    open spec fn spec_int_type() -> IntType {
        IntType { style: IntStyle::Signed, size: IntSize::_128 }
    }

    open spec fn spec_value(self) -> int {
        self as int
    }

    fn int_type() -> (t: IntType) {
        IntType { style: IntStyle::Signed, size: IntSize::_128 }
    }

    fn to_value(self) -> (v: Value) {
        Value::from_i128(self)
    }
}

impl PrimInt for isize {
    open spec fn spec_int_type() -> IntType {
        IntType { style: IntStyle::Signed, size: IntSize::Size }
    }

    open spec fn spec_value(self) -> int {
        self as int
    }

    fn int_type() -> (t: IntType) {
        IntType { style: IntStyle::Signed, size: IntSize::Size }
    }

    fn to_value(self) -> (v: Value) {
        Value::from_i128(self as i128)
    }
}

impl PrimInt for u8 {
    open spec fn spec_int_type() -> IntType {
        IntType { style: IntStyle::Unsigned, size: IntSize::_8 }
    }

    open spec fn spec_value(self) -> int {
        self as int
    }

    fn int_type() -> (t: IntType) {
        IntType { style: IntStyle::Unsigned, size: IntSize::_8 }
    }

    fn to_value(self) -> (v: Value) {
        Value::from_u128(self as u128)
    }
}

impl PrimInt for u16 {
    open spec fn spec_int_type() -> IntType {
        IntType { style: IntStyle::Unsigned, size: IntSize::_16 }
    }

    open spec fn spec_value(self) -> int {
        self as int
    }

    fn int_type() -> (t: IntType) {
        IntType { style: IntStyle::Unsigned, size: IntSize::_16 }
    }

    fn to_value(self) -> (v: Value) {
        Value::from_u128(self as u128)
    }
}

impl PrimInt for u32 {
    open spec fn spec_int_type() -> IntType {
        IntType { style: IntStyle::Unsigned, size: IntSize::_32 }
    }

    open spec fn spec_value(self) -> int {
        self as int
    }

    fn int_type() -> (t: IntType) {
        IntType { style: IntStyle::Unsigned, size: IntSize::_32 }
    }

    fn to_value(self) -> (v: Value) {
        Value::from_u128(self as u128)
    }
}

impl PrimInt for u64 {
    open spec fn spec_int_type() -> IntType {
        IntType { style: IntStyle::Unsigned, size: IntSize::_64 }
    }

    open spec fn spec_value(self) -> int {
        self as int
    }

    fn int_type() -> (t: IntType) {
        IntType { style: IntStyle::Unsigned, size: IntSize::_64 }
    }

    fn to_value(self) -> (v: Value) {
        Value::from_u128(self as u128)
    }
}

impl PrimInt for u128 {
    open spec fn spec_int_type() -> IntType {
        IntType { style: IntStyle::Unsigned, size: IntSize::_128 }
    }

    open spec fn spec_value(self) -> int {
        self as int
    }

    fn int_type() -> (t: IntType) {
        IntType { style: IntStyle::Unsigned, size: IntSize::_128 }
    }

    fn to_value(self) -> (v: Value) {
        Value::from_u128(self)
    }
}

impl PrimInt for usize {
    open spec fn spec_int_type() -> IntType {
        IntType { style: IntStyle::Unsigned, size: IntSize::Size }
    }

    open spec fn spec_value(self) -> int {
        self as int
    }

    fn int_type() -> (t: IntType) {
        IntType { style: IntStyle::Unsigned, size: IntSize::Size }
    }

    fn to_value(self) -> (v: Value) {
        Value::from_u128(self as u128)
    }
}

impl Value {
    /// The value of a primitive integer.
    pub fn of<T: PrimInt>(n: T) -> (v: Value)
        ensures
            v@ == n.spec_value(),
            T::spec_int_type().holds(v@),
    {
        n.to_value()
    }
}

} // verus!
