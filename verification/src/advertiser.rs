//! The advertiser facade. It only holds its handle: no call goes out
//! through it yet.

use vstd::prelude::*;
use crate::interface::InterfaceHandle;

verus! {

/// The facade of the native advertiser interface.
pub struct BleAdvertiser {
    _internal: InterfaceHandle,
}

impl BleAdvertiser {
    /// The interface that this facade refers to.
    pub closed spec fn table(&self) -> InterfaceHandle {
        self._internal
    }

    /// The facade of the advertiser interface behind `internal`.
    pub fn new(internal: InterfaceHandle) -> (advertiser: BleAdvertiser)
        ensures
            advertiser.table() == internal,
    {
        BleAdvertiser { _internal: internal }
    }

    /// The handle of the interface that this facade refers to.
    pub fn interface(&self) -> (handle: InterfaceHandle)
        ensures
            handle == self.table(),
    {
        self._internal
    }
}

} // verus!
