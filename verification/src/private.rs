//! Keeps the set of device families closed.

use crate::{marker, SpiInterface};
use vstd::prelude::*;

verus! {

/// Implemented by the types that this crate itself provides, and by no other.
pub trait Sealed {

}

impl<SPI, CS> Sealed for SpiInterface<SPI, CS> {

}

impl Sealed for marker::Ad9833Ad9837 {

}

impl Sealed for marker::Ad9834Ad9838 {

}

} // verus!
