//! The client facade: one function for each function of the native client
//! interface.
//!
//! A function here puts its arguments into their wire shape and gives the
//! request that names the native function, its arguments, and the table
//! that the call is made on. What the native function returns for the
//! request only says whether the request was admitted; what came of the
//! operation arrives later as a client event.

use vstd::prelude::*;
use crate::address::{bridged_of_address, cast_to_ffi_address, wire_of_address, FfiAddress, RawAddress, RustRawAddress, Uuid};
use crate::interface::{InterfaceHandle, Request, ReturnKind};
use crate::params::BtGattTestParams;

verus! {

/// A function of the native client interface with its arguments in
/// their wire shape.
#[derive(Clone, Copy, Debug, PartialEq, Eq)]
pub enum GattClientCall<'a> {
    RegisterClient { uuid: Uuid, eatt_support: bool },
    UnregisterClient { client_if: i32 },
    Connect { client_if: i32, addr: FfiAddress, is_direct: bool, transport: i32, opportunistic: bool, initiating_phys: i32 },
    Disconnect { client_if: i32, addr: FfiAddress, conn_id: i32 },
    Refresh { client_if: i32, addr: FfiAddress },
    SearchService { conn_id: i32, filter_uuid: Option<Uuid> },
    DiscoverServiceByUuid { conn_id: i32, uuid: Uuid },
    ReadCharacteristic { conn_id: i32, handle: u16, auth_req: i32 },
    ReadUsingCharacteristicUuid { conn_id: i32, uuid: Uuid, s_handle: u16, e_handle: u16, auth_req: i32 },
    WriteCharacteristic { conn_id: i32, handle: u16, write_type: i32, auth_req: i32, value: &'a [u8] },
    ReadDescriptor { conn_id: i32, handle: u16, auth_req: i32 },
    WriteDescriptor { conn_id: i32, handle: u16, auth_req: i32, value: &'a [u8] },
    ExecuteWrite { conn_id: i32, execute: i32 },
    RegisterForNotification { client_if: i32, addr: FfiAddress, handle: u16 },
    DeregisterForNotification { client_if: i32, addr: FfiAddress, handle: u16 },
    ReadRemoteRssi { client_if: i32, addr: FfiAddress },
    GetDeviceType { addr: FfiAddress },
    ConfigureMtu { conn_id: i32, mtu: i32 },
    ConnParameterUpdate { addr: FfiAddress, min_interval: i32, max_interval: i32, latency: i32, timeout: i32, min_ce_len: u16, max_ce_len: u16 },
    SetPreferredPhy { addr: FfiAddress, tx_phy: u8, rx_phy: u8, phy_options: u16 },
    ReadPhy { client_if: i32, bt_addr: RustRawAddress },
    TestCommand { command: i32, params: &'a BtGattTestParams },
    GetGattDb { conn_id: i32 },
}

impl<'a> GattClientCall<'a> {
    /// What the native function gives back.
    pub open spec fn spec_return_kind(self) -> ReturnKind {
        match self {
            GattClientCall::DiscoverServiceByUuid { .. } => ReturnKind::Nothing,
            GattClientCall::GetDeviceType { .. } => ReturnKind::Value,
            _ => ReturnKind::Status,
        }
    }

    /// What the native function gives back.
    pub fn return_kind(&self) -> (kind: ReturnKind)
        ensures
            kind == self.spec_return_kind(),
    {
        match self {
            GattClientCall::DiscoverServiceByUuid { .. } => ReturnKind::Nothing,
            GattClientCall::GetDeviceType { .. } => ReturnKind::Value,
            _ => ReturnKind::Status,
        }
    }
}

/// The facade of the native client interface.
pub struct GattClient {
    internal: InterfaceHandle,
    internal_cxx: InterfaceHandle,
}

impl GattClient {
    /// The interface table that the calls are made on.
    pub closed spec fn table(&self) -> InterfaceHandle {
        self.internal
    }

    /// The bridged client object, for the calls that go through it.
    pub closed spec fn bridge(&self) -> InterfaceHandle {
        self.internal_cxx
    }

    /// The facade of the client table and the bridged client object.
    pub fn new(internal: InterfaceHandle, internal_cxx: InterfaceHandle) -> (client: GattClient)
        ensures
            client.table() == internal,
            client.bridge() == internal_cxx,
    {
        GattClient { internal, internal_cxx }
    }

    /// Registers a client application.
    pub fn register_client<'a>(
        &self,
        uuid: &Uuid,
        eatt_support: bool,
    ) -> (request: Request<GattClientCall<'a>>)
        ensures
            request.interface == self.table(),
            request.call == (GattClientCall::RegisterClient { uuid: *uuid, eatt_support }),
    {
        Request { interface: self.internal, call: GattClientCall::RegisterClient { uuid: *uuid, eatt_support } }
    }

    /// Unregisters a client application.
    pub fn unregister_client<'a>(&self, client_if: i32) -> (request: Request<GattClientCall<'a>>)
        ensures
            request.interface == self.table(),
            request.call == (GattClientCall::UnregisterClient { client_if }),
    {
        Request { interface: self.internal, call: GattClientCall::UnregisterClient { client_if } }
    }

    /// Asks for a connection to a remote device. Whether the connection was
    /// made is told later, by a connect event.
    pub fn connect<'a>(
        &self,
        client_if: i32,
        addr: &RawAddress,
        is_direct: bool,
        transport: i32,
        opportunistic: bool,
        initiating_phys: i32,
    ) -> (request: Request<GattClientCall<'a>>)
        ensures
            request.interface == self.table(),
            request.call == (GattClientCall::Connect { client_if, addr: wire_of_address(*addr), is_direct, transport, opportunistic, initiating_phys }),
    {
        Request { interface: self.internal, call: GattClientCall::Connect { client_if, addr: cast_to_ffi_address(addr), is_direct, transport, opportunistic, initiating_phys } }
    }

    /// Asks to end a connection, or to stop trying to make one.
    pub fn disconnect<'a>(
        &self,
        client_if: i32,
        addr: &RawAddress,
        conn_id: i32,
    ) -> (request: Request<GattClientCall<'a>>)
        ensures
            request.interface == self.table(),
            request.call == (GattClientCall::Disconnect { client_if, addr: wire_of_address(*addr), conn_id }),
    {
        Request { interface: self.internal, call: GattClientCall::Disconnect { client_if, addr: cast_to_ffi_address(addr), conn_id } }
    }

    /// Asks to drop what is cached of a remote device.
    pub fn refresh<'a>(
        &self,
        client_if: i32,
        addr: &RawAddress,
    ) -> (request: Request<GattClientCall<'a>>)
        ensures
            request.interface == self.table(),
            request.call == (GattClientCall::Refresh { client_if, addr: wire_of_address(*addr) }),
    {
        Request { interface: self.internal, call: GattClientCall::Refresh { client_if, addr: cast_to_ffi_address(addr) } }
    }

    /// Asks to list the services of a remote device, all of them or those of
    /// one UUID. No filter goes out as a null pointer.
    pub fn search_service<'a>(
        &self,
        conn_id: i32,
        filter_uuid: Option<Uuid>,
    ) -> (request: Request<GattClientCall<'a>>)
        ensures
            request.interface == self.table(),
            request.call == (GattClientCall::SearchService { conn_id, filter_uuid }),
    {
        Request { interface: self.internal, call: GattClientCall::SearchService { conn_id, filter_uuid } }
    }

    /// Asks to find the services of one UUID. The native function returns
    /// nothing.
    pub fn btif_gattc_discover_service_by_uuid<'a>(
        &self,
        conn_id: i32,
        uuid: &Uuid,
    ) -> (request: Request<GattClientCall<'a>>)
        ensures
            request.interface == self.table(),
            request.call == (GattClientCall::DiscoverServiceByUuid { conn_id, uuid: *uuid }),
    {
        Request { interface: self.internal, call: GattClientCall::DiscoverServiceByUuid { conn_id, uuid: *uuid } }
    }

    /// Asks to read a characteristic.
    pub fn read_characteristic<'a>(
        &self,
        conn_id: i32,
        handle: u16,
        auth_req: i32,
    ) -> (request: Request<GattClientCall<'a>>)
        ensures
            request.interface == self.table(),
            request.call == (GattClientCall::ReadCharacteristic { conn_id, handle, auth_req }),
    {
        Request { interface: self.internal, call: GattClientCall::ReadCharacteristic { conn_id, handle, auth_req } }
    }

    /// Asks to read the characteristics of one UUID in a range of handles.
    pub fn read_using_characteristic_uuid<'a>(
        &self,
        conn_id: i32,
        uuid: &Uuid,
        s_handle: u16,
        e_handle: u16,
        auth_req: i32,
    ) -> (request: Request<GattClientCall<'a>>)
        ensures
            request.interface == self.table(),
            request.call == (GattClientCall::ReadUsingCharacteristicUuid { conn_id, uuid: *uuid, s_handle, e_handle, auth_req }),
    {
        Request { interface: self.internal, call: GattClientCall::ReadUsingCharacteristicUuid { conn_id, uuid: *uuid, s_handle, e_handle, auth_req } }
    }

    /// Asks to write a characteristic. The value goes out as a pointer and a
    /// length and is borrowed for that one call.
    pub fn write_characteristic<'a>(
        &self,
        conn_id: i32,
        handle: u16,
        write_type: i32,
        auth_req: i32,
        value: &'a [u8],
    ) -> (request: Request<GattClientCall<'a>>)
        ensures
            request.interface == self.table(),
            request.call == (GattClientCall::WriteCharacteristic { conn_id, handle, write_type, auth_req, value }),
    {
        Request { interface: self.internal, call: GattClientCall::WriteCharacteristic { conn_id, handle, write_type, auth_req, value } }
    }

    /// Asks to read a descriptor.
    pub fn read_descriptor<'a>(
        &self,
        conn_id: i32,
        handle: u16,
        auth_req: i32,
    ) -> (request: Request<GattClientCall<'a>>)
        ensures
            request.interface == self.table(),
            request.call == (GattClientCall::ReadDescriptor { conn_id, handle, auth_req }),
    {
        Request { interface: self.internal, call: GattClientCall::ReadDescriptor { conn_id, handle, auth_req } }
    }

    /// Asks to write a descriptor. The value goes out as a pointer and a length
    /// and is borrowed for that one call.
    pub fn write_descriptor<'a>(
        &self,
        conn_id: i32,
        handle: u16,
        auth_req: i32,
        value: &'a [u8],
    ) -> (request: Request<GattClientCall<'a>>)
        ensures
            request.interface == self.table(),
            request.call == (GattClientCall::WriteDescriptor { conn_id, handle, auth_req, value }),
    {
        Request { interface: self.internal, call: GattClientCall::WriteDescriptor { conn_id, handle, auth_req, value } }
    }

    /// Asks to execute or drop the prepared writes.
    pub fn execute_write<'a>(
        &self,
        conn_id: i32,
        execute: i32,
    ) -> (request: Request<GattClientCall<'a>>)
        ensures
            request.interface == self.table(),
            request.call == (GattClientCall::ExecuteWrite { conn_id, execute }),
    {
        Request { interface: self.internal, call: GattClientCall::ExecuteWrite { conn_id, execute } }
    }

    /// Asks to be told of changes of a characteristic.
    pub fn register_for_notification<'a>(
        &self,
        client_if: i32,
        addr: &RawAddress,
        handle: u16,
    ) -> (request: Request<GattClientCall<'a>>)
        ensures
            request.interface == self.table(),
            request.call == (GattClientCall::RegisterForNotification { client_if, addr: wire_of_address(*addr), handle }),
    {
        Request { interface: self.internal, call: GattClientCall::RegisterForNotification { client_if, addr: cast_to_ffi_address(addr), handle } }
    }

    /// Asks not to be told of changes of a characteristic any more.
    pub fn deregister_for_notification<'a>(
        &self,
        client_if: i32,
        addr: &RawAddress,
        handle: u16,
    ) -> (request: Request<GattClientCall<'a>>)
        ensures
            request.interface == self.table(),
            request.call == (GattClientCall::DeregisterForNotification { client_if, addr: wire_of_address(*addr), handle }),
    {
        Request { interface: self.internal, call: GattClientCall::DeregisterForNotification { client_if, addr: cast_to_ffi_address(addr), handle } }
    }

    /// Asks for the signal strength of a remote device.
    pub fn read_remote_rssi<'a>(
        &self,
        client_if: i32,
        addr: &RawAddress,
    ) -> (request: Request<GattClientCall<'a>>)
        ensures
            request.interface == self.table(),
            request.call == (GattClientCall::ReadRemoteRssi { client_if, addr: wire_of_address(*addr) }),
    {
        Request { interface: self.internal, call: GattClientCall::ReadRemoteRssi { client_if, addr: cast_to_ffi_address(addr) } }
    }

    /// Asks for the type of a remote device. The native function returns the
    /// type as a plain integer.
    pub fn get_device_type<'a>(&self, addr: &RawAddress) -> (request: Request<GattClientCall<'a>>)
        ensures
            request.interface == self.table(),
            request.call == (GattClientCall::GetDeviceType { addr: wire_of_address(*addr) }),
    {
        Request { interface: self.internal, call: GattClientCall::GetDeviceType { addr: cast_to_ffi_address(addr) } }
    }

    /// Asks to negotiate the size of the transmission unit.
    pub fn configure_mtu<'a>(
        &self,
        conn_id: i32,
        mtu: i32,
    ) -> (request: Request<GattClientCall<'a>>)
        ensures
            request.interface == self.table(),
            request.call == (GattClientCall::ConfigureMtu { conn_id, mtu }),
    {
        Request { interface: self.internal, call: GattClientCall::ConfigureMtu { conn_id, mtu } }
    }

    /// Asks to change the parameters of a connection.
    pub fn conn_parameter_update<'a>(
        &self,
        addr: &RawAddress,
        min_interval: i32,
        max_interval: i32,
        latency: i32,
        timeout: i32,
        min_ce_len: u16,
        max_ce_len: u16,
    ) -> (request: Request<GattClientCall<'a>>)
        ensures
            request.interface == self.table(),
            request.call == (GattClientCall::ConnParameterUpdate { addr: wire_of_address(*addr), min_interval, max_interval, latency, timeout, min_ce_len, max_ce_len }),
    {
        Request { interface: self.internal, call: GattClientCall::ConnParameterUpdate { addr: cast_to_ffi_address(addr), min_interval, max_interval, latency, timeout, min_ce_len, max_ce_len } }
    }

    /// Asks to prefer a physical layer for a connection.
    pub fn set_preferred_phy<'a>(
        &self,
        addr: &RawAddress,
        tx_phy: u8,
        rx_phy: u8,
        phy_options: u16,
    ) -> (request: Request<GattClientCall<'a>>)
        ensures
            request.interface == self.table(),
            request.call == (GattClientCall::SetPreferredPhy { addr: wire_of_address(*addr), tx_phy, rx_phy, phy_options }),
    {
        Request { interface: self.internal, call: GattClientCall::SetPreferredPhy { addr: cast_to_ffi_address(addr), tx_phy, rx_phy, phy_options } }
    }

    /// Asks for the physical layer of a connection. The call is made on the
    /// bridged client object; the answer arrives as a read-phy event.
    pub fn read_phy<'a>(
        &mut self,
        client_if: i32,
        bt_addr: &RawAddress,
    ) -> (request: Request<GattClientCall<'a>>)
        ensures
            request.interface == old(self).bridge(),
            request.call == (GattClientCall::ReadPhy { client_if, bt_addr: bridged_of_address(*bt_addr) }),
            *final(self) == *old(self),
    {
        Request { interface: self.internal_cxx, call: GattClientCall::ReadPhy { client_if, bt_addr: bt_addr.to_bridged() } }
    }

    /// Sends a test command.
    pub fn test_command<'a>(
        &self,
        command: i32,
        params: &'a BtGattTestParams,
    ) -> (request: Request<GattClientCall<'a>>)
        ensures
            request.interface == self.table(),
            request.call == (GattClientCall::TestCommand { command, params }),
    {
        Request { interface: self.internal, call: GattClientCall::TestCommand { command, params } }
    }

    /// Asks for the database of a remote server.
    pub fn get_gatt_db<'a>(&self, conn_id: i32) -> (request: Request<GattClientCall<'a>>)
        ensures
            request.interface == self.table(),
            request.call == (GattClientCall::GetGattDb { conn_id }),
    {
        Request { interface: self.internal, call: GattClientCall::GetGattDb { conn_id } }
    }
}

} // verus!
