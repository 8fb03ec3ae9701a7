//! Keeps the pin-state traits closed to other crates.

use vstd::prelude::*;

verus! {

/// Implemented only by the pin states of this crate.
pub trait Sealed {

}

} // verus!
