//! Power gates of the peripherals.

use vstd::prelude::*;

verus! {

/// Stands for the module-stop block once the device is set up.
pub struct Power {}

} // verus!
