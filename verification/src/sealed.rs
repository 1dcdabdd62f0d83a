//! The sealing trait that keeps `RangeType` to the integer types the library
//! implements it for.

use vstd::prelude::*;

verus! {

pub trait Sealed {
}

impl Sealed for i8 {
}

impl Sealed for i16 {
}

impl Sealed for i32 {
}

impl Sealed for u8 {
}

impl Sealed for u16 {
}

impl Sealed for u32 {
}

} // verus!
