//! Markers that tell the two device families apart in the driver's type.

use vstd::prelude::*;

verus! {

/// AD9833/AD9837 device
pub struct Ad9833Ad9837(());

/// AD9834/AD9838 device
pub struct Ad9834Ad9838(());

} // verus!
