//! The scanner facade.
//!
//! Scanning goes through a bridged object of the native side. The one call
//! that goes out from here makes that object deliver its callbacks as
//! scanner events.

use vstd::prelude::*;
use crate::interface::{GattInterfaceTable, InterfaceHandle, Request, ReturnKind};

verus! {

/// A function of the bridged scanner object.
#[derive(Clone, Copy, Debug, PartialEq, Eq, Structural)]
pub enum BleScannerCall {
    /// Makes the scanner deliver its callbacks to the scanner callbacks of
    /// this library.
    RegisterCallbacks,
}

impl BleScannerCall {
    /// What the native function gives back: nothing.
    pub open spec fn spec_return_kind(self) -> ReturnKind {
        ReturnKind::Nothing
    }

    /// What the native function gives back.
    pub fn return_kind(&self) -> (kind: ReturnKind)
        ensures
            kind == self.spec_return_kind(),
    {
        ReturnKind::Nothing
    }
}

/// The facade of the native scanner interface.
pub struct BleScanner {
    internal: InterfaceHandle,
    internal_cxx: InterfaceHandle,
}

impl BleScanner {
    /// The scanner entry of the interface table.
    pub closed spec fn table(&self) -> InterfaceHandle {
        self.internal
    }

    /// The bridged scanner object that the calls are made on.
    pub closed spec fn bridge(&self) -> InterfaceHandle {
        self.internal_cxx
    }

    /// The facade of the scanner entry of `raw_gatt` and of the bridged
    /// scanner object.
    pub fn new(raw_gatt: &GattInterfaceTable, internal_cxx: InterfaceHandle) -> (scanner:
        BleScanner)
        ensures
            scanner.table() == raw_gatt.scanner,
            scanner.bridge() == internal_cxx,
    {
        BleScanner { internal: raw_gatt.scanner, internal_cxx }
    }

    /// Asks the bridged scanner object to deliver its callbacks.
    pub fn register_callbacks(&mut self) -> (request: Request<BleScannerCall>)
        ensures
            request.interface == old(self).bridge(),
            request.call == BleScannerCall::RegisterCallbacks,
            *final(self) == *old(self),
    {
        Request { interface: self.internal_cxx, call: BleScannerCall::RegisterCallbacks }
    }
}

} // verus!
