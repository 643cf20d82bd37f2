//! The seal on the primitive integer types.

use vstd::prelude::*;

verus! {

/// Implemented for the primitive integer types and for nothing else, so
/// that no other type can claim to be one.
pub trait Sealed {

}

impl Sealed for i8 {

}

impl Sealed for i16 {

}

impl Sealed for i32 {

}

impl Sealed for i64 {

}

impl Sealed for i128 {

}

impl Sealed for isize {

}

impl Sealed for u8 {

}

impl Sealed for u16 {

}

impl Sealed for u32 {

}

impl Sealed for u64 {

}

impl Sealed for u128 {

}

impl Sealed for usize {

}

} // verus!
