//! The marker bound placed on a handler's inputs.

use vstd::prelude::*;

verus! {

/// Marker for the types a codec handler takes as inputs.
pub trait Input {

}

impl<T> Input for T {

}

} // verus!
