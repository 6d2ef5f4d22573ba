//! Fixed-size identifiers that cross the native boundary: device addresses in
//! their domain and wire shapes, and 128-bit UUIDs.

use vstd::prelude::*;

verus! {

/// A device address as the consumers of events see it.
#[derive(Clone, Copy, Debug, PartialEq, Eq, Hash)]
pub struct RawAddress {
    pub val: [u8; 6],
}

/// A device address in the shape the native interface tables take and give.
#[derive(Clone, Copy, Debug, PartialEq, Eq, Hash)]
pub struct FfiAddress {
    pub address: [u8; 6],
}

/// A device address in the shape the bridged scanner and client objects use.
#[derive(Clone, Copy, Debug, PartialEq, Eq, Hash)]
pub struct RustRawAddress {
    pub address: [u8; 6],
}

/// A 128-bit UUID, carried through unchanged.
#[derive(Clone, Copy, Debug, PartialEq, Eq, Hash)]
pub struct Uuid {
    pub uu: [u8; 16],
}

/// The domain address that a wire address stands for: the same six bytes.
pub open spec fn address_of_wire(addr: FfiAddress) -> RawAddress {
    RawAddress { val: addr.address }
}

/// The wire address of a domain address: the same six bytes.
pub open spec fn wire_of_address(addr: RawAddress) -> FfiAddress {
    FfiAddress { address: addr.val }
}

/// The domain address that a bridged address stands for.
pub open spec fn address_of_bridged(addr: RustRawAddress) -> RawAddress {
    RawAddress { val: addr.address }
}

/// The bridged address of a domain address.
pub open spec fn bridged_of_address(addr: RawAddress) -> RustRawAddress {
    RustRawAddress { address: addr.val }
}

/// Reads the address behind a reference handed over by the native side into
/// an owned domain address. The bytes are taken as they are: the native
/// layer has validated them already.
pub fn deref_ffi_address(addr: &FfiAddress) -> (out: RawAddress)
    ensures
        out == address_of_wire(*addr),
{
    RawAddress { val: addr.address }
}

/// Puts a domain address into the wire shape for one outgoing call.
pub fn cast_to_ffi_address(addr: &RawAddress) -> (out: FfiAddress)
    ensures
        out == wire_of_address(*addr),
{
    FfiAddress { address: addr.val }
}

impl RawAddress {
    /// The domain address of a bridged address.
    pub fn from_bridged(addr: RustRawAddress) -> (out: RawAddress)
        ensures
            out == address_of_bridged(addr),
    {
        RawAddress { val: addr.address }
    }

    /// The bridged shape of this address.
    pub fn to_bridged(&self) -> (out: RustRawAddress)
        ensures
            out == bridged_of_address(*self),
    {
        RustRawAddress { address: self.val }
    }
}

/// Changing the shape of an address and changing it back gives the address
/// that one started with, whichever shape one starts from.
pub proof fn lemma_address_shapes_round_trip(domain: RawAddress, wire: FfiAddress, bridged: RustRawAddress)
    ensures
        address_of_wire(wire_of_address(domain)) == domain,
        wire_of_address(address_of_wire(wire)) == wire,
        address_of_bridged(bridged_of_address(domain)) == domain,
        bridged_of_address(address_of_bridged(bridged)) == bridged,
{
}

} // verus!
