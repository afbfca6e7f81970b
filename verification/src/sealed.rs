//! Sealing trait that keeps `PointerType` closed to the four word widths
//! this crate defines it for.

use vstd::prelude::*;

verus! {

/// Implemented only inside this crate, so that `PointerType` cannot be
/// implemented elsewhere.
pub trait Sealed {
}

impl Sealed for u8 {
}

impl Sealed for u16 {
}

impl Sealed for u32 {
}

impl Sealed for u64 {
}

} // verus!
