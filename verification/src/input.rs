//! Input devices and the fingers on them.

use vstd::prelude::*;

verus! {

/// Identifies an input device.
#[derive(Clone, Copy, Debug, PartialEq, Eq, Structural, PartialOrd, Ord, Hash)]
pub struct DeviceId(usize);

/// Identifies a finger on a touch surface.
#[derive(Clone, Copy, Debug, PartialEq, Eq, Structural, PartialOrd, Ord, Hash)]
pub struct FingerId(usize);

impl View for FingerId {
    type V = usize;

    /// The number behind the identifier.
    closed spec fn view(&self) -> usize {
        self.0
    }
}

impl FingerId {
    /// An identifier to fill a place where none is at hand: that of the
    /// number zero.
    pub fn dummy() -> (id: FingerId)
        ensures
            id@ == 0,
    {
        FingerId(0)
    }
}

} // verus!
