//! What can keep an operation from reaching the host.

use vstd::prelude::*;

verus! {

/// The ways in which a mouse operation fails.
#[derive(Copy, Clone, PartialEq, Eq, Structural, Debug)]
pub enum MouseError {
    /// The host reported a screen without width or without height, so there
    /// is nothing to scale a position against.
    ZeroScreen,
    /// The host's injection facility took fewer events than it was handed.
    Rejected,
}

} // verus!
