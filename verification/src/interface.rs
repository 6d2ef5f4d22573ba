//! References to the interface tables of the native side, and the shape of
//! a call that goes out to one of them.
//!
//! A handle only names a table. It is found once, when the facade is made,
//! and is taken to stay good from then on. Nothing here follows a handle:
//! a call is described as a request, the embedding program performs it on
//! the table that the request names, and hands back what the native
//! function returned.

use vstd::prelude::*;

verus! {

/// An opaque, non-owning reference to one interface table or bridged
/// object of the native side.
#[derive(Clone, Copy, Debug, PartialEq, Eq, Hash, Structural)]
pub struct InterfaceHandle {
    token: usize,
}

impl InterfaceHandle {
    /// The token that tells this handle from others. The null handle has
    /// the token zero.
    pub closed spec fn token(self) -> usize {
        self.token
    }

    /// The handle with this token.
    pub fn from_token(token: usize) -> (handle: InterfaceHandle)
        ensures
            handle.token() == token,
    {
        InterfaceHandle { token }
    }

    /// The handle that refers to nothing.
    pub fn null() -> (handle: InterfaceHandle)
        ensures
            handle.token() == 0,
    {
        InterfaceHandle { token: 0 }
    }

    /// The token of this handle.
    pub fn to_token(&self) -> (token: usize)
        ensures
            token == self.token(),
    {
        self.token
    }

    /// Whether this handle refers to nothing.
    pub fn is_null(&self) -> (null: bool)
        ensures
            null == (self.token() == 0),
    {
        self.token == 0
    }

    /// Handles with the same token are the same handle.
    pub proof fn lemma_token_decides(a: InterfaceHandle, b: InterfaceHandle)
        requires
            a.token() == b.token(),
        ensures
            a == b,
    {
    }
}

/// The entries of the GATT interface table that the facade reads.
#[derive(Clone, Copy, Debug, PartialEq, Eq)]
pub struct GattInterfaceTable {
    pub client: InterfaceHandle,
    pub server: InterfaceHandle,
    pub scanner: InterfaceHandle,
    pub advertiser: InterfaceHandle,
}

/// What looking up the GATT profile gave: the interface table, which is
/// null if the profile is not there, the entries read from it, and the
/// bridged client and scanner objects made from it.
#[derive(Clone, Copy, Debug, PartialEq, Eq)]
pub struct GattProfileInterface {
    pub raw: InterfaceHandle,
    pub table: GattInterfaceTable,
    pub client_intf: InterfaceHandle,
    pub scanner_intf: InterfaceHandle,
}

/// One call of a native function: the table or object that it is made on,
/// and the function with its arguments in their wire shape.
#[derive(Debug, PartialEq, Eq)]
pub struct Request<C> {
    pub interface: InterfaceHandle,
    pub call: C,
}

/// What a native function gives back.
#[derive(Clone, Copy, Debug, PartialEq, Eq, Structural)]
pub enum ReturnKind {
    /// A status code, which says whether the request was admitted. The
    /// result of the operation itself arrives later, as an event.
    Status,
    /// A plain integer that is handed on as it is.
    Value,
    /// Nothing.
    Nothing,
}

} // verus!
