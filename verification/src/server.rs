//! The server facade: one function for each function of the native server
//! interface.
//!
//! A function here puts its arguments into their wire shape and gives the
//! request that names the native function, its arguments, and the table
//! that the call is made on. What the native function returns for the
//! request only says whether the request was admitted; what came of the
//! operation arrives later as a server event.

use vstd::prelude::*;
use crate::address::{cast_to_ffi_address, wire_of_address, FfiAddress, RawAddress, Uuid};
use crate::interface::{InterfaceHandle, Request, ReturnKind};
use crate::params::{BtGattDbElement, BtGattResponse};

verus! {

/// A function of the native server interface with its arguments in
/// their wire shape.
#[derive(Clone, Copy, Debug, PartialEq, Eq)]
pub enum GattServerCall<'a> {
    RegisterServer { uuid: Uuid, eatt_support: bool },
    UnregisterServer { server_if: i32 },
    Connect { server_if: i32, addr: FfiAddress, is_direct: bool, transport: i32 },
    Disconnect { server_if: i32, addr: FfiAddress, conn_id: i32 },
    AddService { server_if: i32, service: &'a [BtGattDbElement] },
    StopService { server_if: i32, service_handle: i32 },
    DeleteService { server_if: i32, service_handle: i32 },
    SendIndication { server_if: i32, attribute_handle: i32, conn_id: i32, confirm: i32, value: &'a [u8] },
    SendResponse { conn_id: i32, trans_id: i32, status: i32, response: &'a BtGattResponse },
    SetPreferredPhy { addr: FfiAddress, tx_phy: u8, rx_phy: u8, phy_options: u16 },
}

impl<'a> GattServerCall<'a> {
    /// What the native function gives back.
    pub open spec fn spec_return_kind(self) -> ReturnKind {
        match self {
            _ => ReturnKind::Status,
        }
    }

    /// What the native function gives back.
    pub fn return_kind(&self) -> (kind: ReturnKind)
        ensures
            kind == self.spec_return_kind(),
    {
        match self {
            _ => ReturnKind::Status,
        }
    }
}

/// The facade of the native server interface.
pub struct GattServer {
    internal: InterfaceHandle,
}

impl GattServer {
    /// The interface table that the calls are made on.
    pub closed spec fn table(&self) -> InterfaceHandle {
        self.internal
    }

    /// The facade of the server table.
    pub fn new(internal: InterfaceHandle) -> (server: GattServer)
        ensures
            server.table() == internal,
    {
        GattServer { internal }
    }

    /// Registers a server application.
    pub fn register_server<'a>(
        &self,
        uuid: &Uuid,
        eatt_support: bool,
    ) -> (request: Request<GattServerCall<'a>>)
        ensures
            request.interface == self.table(),
            request.call == (GattServerCall::RegisterServer { uuid: *uuid, eatt_support }),
    {
        Request { interface: self.internal, call: GattServerCall::RegisterServer { uuid: *uuid, eatt_support } }
    }

    /// Unregisters a server application.
    pub fn unregister_server<'a>(&self, server_if: i32) -> (request: Request<GattServerCall<'a>>)
        ensures
            request.interface == self.table(),
            request.call == (GattServerCall::UnregisterServer { server_if }),
    {
        Request { interface: self.internal, call: GattServerCall::UnregisterServer { server_if } }
    }

    /// Asks for a connection to a remote device. Whether the connection was
    /// made is told later, by a connection event.
    pub fn connect<'a>(
        &self,
        server_if: i32,
        addr: &RawAddress,
        is_direct: bool,
        transport: i32,
    ) -> (request: Request<GattServerCall<'a>>)
        ensures
            request.interface == self.table(),
            request.call == (GattServerCall::Connect { server_if, addr: wire_of_address(*addr), is_direct, transport }),
    {
        Request { interface: self.internal, call: GattServerCall::Connect { server_if, addr: cast_to_ffi_address(addr), is_direct, transport } }
    }

    /// Asks to end a connection, or to stop trying to make one.
    pub fn disconnect<'a>(
        &self,
        server_if: i32,
        addr: &RawAddress,
        conn_id: i32,
    ) -> (request: Request<GattServerCall<'a>>)
        ensures
            request.interface == self.table(),
            request.call == (GattServerCall::Disconnect { server_if, addr: wire_of_address(*addr), conn_id }),
    {
        Request { interface: self.internal, call: GattServerCall::Disconnect { server_if, addr: cast_to_ffi_address(addr), conn_id } }
    }

    /// Asks to add a service. The elements go out as a pointer and a length and
    /// are borrowed for that one call.
    pub fn add_service<'a>(
        &self,
        server_if: i32,
        service: &'a [BtGattDbElement],
    ) -> (request: Request<GattServerCall<'a>>)
        ensures
            request.interface == self.table(),
            request.call == (GattServerCall::AddService { server_if, service }),
    {
        Request { interface: self.internal, call: GattServerCall::AddService { server_if, service } }
    }

    /// Asks to stop a service.
    pub fn stop_service<'a>(
        &self,
        server_if: i32,
        service_handle: i32,
    ) -> (request: Request<GattServerCall<'a>>)
        ensures
            request.interface == self.table(),
            request.call == (GattServerCall::StopService { server_if, service_handle }),
    {
        Request { interface: self.internal, call: GattServerCall::StopService { server_if, service_handle } }
    }

    /// Asks to delete a service.
    pub fn delete_service<'a>(
        &self,
        server_if: i32,
        service_handle: i32,
    ) -> (request: Request<GattServerCall<'a>>)
        ensures
            request.interface == self.table(),
            request.call == (GattServerCall::DeleteService { server_if, service_handle }),
    {
        Request { interface: self.internal, call: GattServerCall::DeleteService { server_if, service_handle } }
    }

    /// Asks to send an indication or a notification. The value goes out as a
    /// pointer and a length and is borrowed for that one call.
    pub fn send_indication<'a>(
        &self,
        server_if: i32,
        attribute_handle: i32,
        conn_id: i32,
        confirm: i32,
        value: &'a [u8],
    ) -> (request: Request<GattServerCall<'a>>)
        ensures
            request.interface == self.table(),
            request.call == (GattServerCall::SendIndication { server_if, attribute_handle, conn_id, confirm, value }),
    {
        Request { interface: self.internal, call: GattServerCall::SendIndication { server_if, attribute_handle, conn_id, confirm, value } }
    }

    /// Asks to answer a read or write request of a remote client.
    pub fn send_response<'a>(
        &self,
        conn_id: i32,
        trans_id: i32,
        status: i32,
        response: &'a BtGattResponse,
    ) -> (request: Request<GattServerCall<'a>>)
        ensures
            request.interface == self.table(),
            request.call == (GattServerCall::SendResponse { conn_id, trans_id, status, response }),
    {
        Request { interface: self.internal, call: GattServerCall::SendResponse { conn_id, trans_id, status, response } }
    }

    /// Asks to prefer a physical layer for a connection.
    pub fn set_preferred_phy<'a>(
        &self,
        addr: &RawAddress,
        tx_phy: u8,
        rx_phy: u8,
        phy_options: u16,
    ) -> (request: Request<GattServerCall<'a>>)
        ensures
            request.interface == self.table(),
            request.call == (GattServerCall::SetPreferredPhy { addr: wire_of_address(*addr), tx_phy, rx_phy, phy_options }),
    {
        Request { interface: self.internal, call: GattServerCall::SetPreferredPhy { addr: cast_to_ffi_address(addr), tx_phy, rx_phy, phy_options } }
    }
}

} // verus!
