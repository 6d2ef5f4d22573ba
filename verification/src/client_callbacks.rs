//! The callbacks of the client category.
//!
//! Each function takes the arguments of one callback of the native client
//! interface, in the order of that callback, builds the event that stands
//! for the invocation, and hands it to the consumer of the client events
//! before it returns. Nothing is validated and nothing is queued.

use vstd::prelude::*;
use crate::address::{
    address_of_bridged, address_of_wire, deref_ffi_address, FfiAddress, RawAddress,
    RustRawAddress, Uuid,
};
use crate::buffer::{pointed_to, ptr_to_vec, readable};
use crate::events::{GattClientCallbacks, GattClientEvent, GattScannerCallbacks, GattServerCallbacks};
use crate::params::{BtGattDbElement, BtGattNotifyParams, BtGattReadParams};
use crate::registry::{DispatchRegistry, EventCategory};

verus! {

impl<C, S, N> DispatchRegistry<C, S, N> where
    C: Fn(GattClientCallbacks) + Send,
    S: Fn(GattServerCallbacks) + Send,
    N: Fn(GattScannerCallbacks) + Send,
 {
    /// A client was registered.
    ///
    /// The event holds a copy of `app_uuid`.
    pub fn gc_register_client_cb(&mut self, status: i32, client_if: i32, app_uuid: &Uuid)
        requires
            old(self)@.is_bound(EventCategory::Client),
        ensures
            old(self)@.client_received(
                final(self)@,
                GattClientEvent::RegisterClient(status, client_if, *app_uuid),
            ),
    {
        self.dispatch_client(GattClientCallbacks::RegisterClient(status, client_if, *app_uuid));
    }

    /// A connection to a remote server was opened, or opening it failed.
    ///
    /// The event holds `addr` as a domain address.
    pub fn gc_open_cb(&mut self, conn_id: i32, status: i32, client_if: i32, addr: &FfiAddress)
        requires
            old(self)@.is_bound(EventCategory::Client),
        ensures
            old(self)@.client_received(
                final(self)@,
                GattClientEvent::Connect(conn_id, status, client_if, address_of_wire(*addr)),
            ),
    {
        let addr = deref_ffi_address(addr);
        self.dispatch_client(GattClientCallbacks::Connect(conn_id, status, client_if, addr));
    }

    /// A connection to a remote server was closed.
    ///
    /// The event holds `addr` as a domain address.
    pub fn gc_close_cb(&mut self, conn_id: i32, status: i32, client_if: i32, addr: &FfiAddress)
        requires
            old(self)@.is_bound(EventCategory::Client),
        ensures
            old(self)@.client_received(
                final(self)@,
                GattClientEvent::Disconnect(conn_id, status, client_if, address_of_wire(*addr)),
            ),
    {
        let addr = deref_ffi_address(addr);
        self.dispatch_client(GattClientCallbacks::Disconnect(conn_id, status, client_if, addr));
    }

    /// The search for services has ended.
    pub fn gc_search_complete_cb(&mut self, conn_id: i32, status: i32)
        requires
            old(self)@.is_bound(EventCategory::Client),
        ensures
            old(self)@.client_received(
                final(self)@,
                GattClientEvent::SearchComplete(conn_id, status),
            ),
    {
        self.dispatch_client(GattClientCallbacks::SearchComplete(conn_id, status));
    }

    /// Notifications of a characteristic were switched on or off.
    pub fn gc_register_for_notification_cb(
        &mut self,
        conn_id: i32,
        registered: i32,
        status: i32,
        handle: u16,
    )
        requires
            old(self)@.is_bound(EventCategory::Client),
        ensures
            old(self)@.client_received(
                final(self)@,
                GattClientEvent::RegisterForNotification(conn_id, registered, status, handle),
            ),
    {
        self.dispatch_client(GattClientCallbacks::RegisterForNotification(conn_id, registered, status, handle));
    }

    /// A notification or an indication arrived.
    ///
    /// The event holds a copy of `params`.
    pub fn gc_notify_cb(&mut self, conn_id: i32, params: &BtGattNotifyParams)
        requires
            old(self)@.is_bound(EventCategory::Client),
        ensures
            old(self)@.client_received(
                final(self)@,
                GattClientEvent::Notify(conn_id, params@),
            ),
    {
        let params = params.clone();
        self.dispatch_client(GattClientCallbacks::Notify(conn_id, params));
    }

    /// A characteristic was read.
    ///
    /// The event holds a copy of `params`.
    pub fn gc_read_characteristic_cb(
        &mut self,
        conn_id: i32,
        status: i32,
        params: &BtGattReadParams,
    )
        requires
            old(self)@.is_bound(EventCategory::Client),
        ensures
            old(self)@.client_received(
                final(self)@,
                GattClientEvent::ReadCharacteristic(conn_id, status, params@),
            ),
    {
        let params = params.clone();
        self.dispatch_client(GattClientCallbacks::ReadCharacteristic(conn_id, status, params));
    }

    /// A characteristic was written.
    ///
    /// `value` and `len` are a pointer and a length; the event holds a copy of
    /// the elements they describe.
    pub fn gc_write_characteristic_cb(
        &mut self,
        conn_id: i32,
        status: i32,
        handle: u16,
        len: u16,
        value: Option<&[u8]>,
    )
        requires
            old(self)@.is_bound(EventCategory::Client),
            readable(value, len as int),
        ensures
            old(self)@.client_received(
                final(self)@,
                GattClientEvent::WriteCharacteristic(conn_id, status, handle, len, pointed_to(value, len as int)),
            ),
    {
        let value = ptr_to_vec(value, len as usize);
        self.dispatch_client(GattClientCallbacks::WriteCharacteristic(conn_id, status, handle, len, value));
    }

    /// A descriptor was read.
    ///
    /// The event holds a copy of `params`.
    pub fn gc_read_descriptor_cb(&mut self, conn_id: i32, status: i32, params: &BtGattReadParams)
        requires
            old(self)@.is_bound(EventCategory::Client),
        ensures
            old(self)@.client_received(
                final(self)@,
                GattClientEvent::ReadDescriptor(conn_id, status, params@),
            ),
    {
        let params = params.clone();
        self.dispatch_client(GattClientCallbacks::ReadDescriptor(conn_id, status, params));
    }

    /// A descriptor was written.
    ///
    /// `value` and `len` are a pointer and a length; the event holds a copy of
    /// the elements they describe.
    pub fn gc_write_descriptor_cb(
        &mut self,
        conn_id: i32,
        status: i32,
        handle: u16,
        len: u16,
        value: Option<&[u8]>,
    )
        requires
            old(self)@.is_bound(EventCategory::Client),
            readable(value, len as int),
        ensures
            old(self)@.client_received(
                final(self)@,
                GattClientEvent::WriteDescriptor(conn_id, status, handle, len, pointed_to(value, len as int)),
            ),
    {
        let value = ptr_to_vec(value, len as usize);
        self.dispatch_client(GattClientCallbacks::WriteDescriptor(conn_id, status, handle, len, value));
    }

    /// The prepared writes were executed or dropped.
    pub fn gc_execute_write_cb(&mut self, conn_id: i32, status: i32)
        requires
            old(self)@.is_bound(EventCategory::Client),
        ensures
            old(self)@.client_received(
                final(self)@,
                GattClientEvent::ExecuteWrite(conn_id, status),
            ),
    {
        self.dispatch_client(GattClientCallbacks::ExecuteWrite(conn_id, status));
    }

    /// The signal strength of a remote device was read.
    ///
    /// The event holds `addr` as a domain address.
    pub fn gc_read_remote_rssi_cb(
        &mut self,
        client_if: i32,
        addr: &FfiAddress,
        rssi: i32,
        status: i32,
    )
        requires
            old(self)@.is_bound(EventCategory::Client),
        ensures
            old(self)@.client_received(
                final(self)@,
                GattClientEvent::ReadRemoteRssi(client_if, address_of_wire(*addr), rssi, status),
            ),
    {
        let addr = deref_ffi_address(addr);
        self.dispatch_client(GattClientCallbacks::ReadRemoteRssi(client_if, addr, rssi, status));
    }

    /// The size of the transmission unit was negotiated.
    pub fn gc_configure_mtu_cb(&mut self, conn_id: i32, status: i32, mtu: i32)
        requires
            old(self)@.is_bound(EventCategory::Client),
        ensures
            old(self)@.client_received(
                final(self)@,
                GattClientEvent::ConfigureMtu(conn_id, status, mtu),
            ),
    {
        self.dispatch_client(GattClientCallbacks::ConfigureMtu(conn_id, status, mtu));
    }

    /// The connection became congested, or stopped being so.
    pub fn gc_congestion_cb(&mut self, conn_id: i32, congested: bool)
        requires
            old(self)@.is_bound(EventCategory::Client),
        ensures
            old(self)@.client_received(
                final(self)@,
                GattClientEvent::Congestion(conn_id, congested),
            ),
    {
        self.dispatch_client(GattClientCallbacks::Congestion(conn_id, congested));
    }

    /// The database of the remote server, with the count that came with it.
    ///
    /// `elements` and `count` are a pointer and a length; the event holds a
    /// copy of the elements they describe.
    pub fn gc_get_gatt_db_cb(
        &mut self,
        conn_id: i32,
        elements: Option<&[BtGattDbElement]>,
        count: i32,
    )
        requires
            old(self)@.is_bound(EventCategory::Client),
            0 <= count,
            readable(elements, count as int),
        ensures
            old(self)@.client_received(
                final(self)@,
                GattClientEvent::GetGattDb(conn_id, pointed_to(elements, count as int), count),
            ),
    {
        let elements = ptr_to_vec(elements, count as usize);
        self.dispatch_client(GattClientCallbacks::GetGattDb(conn_id, elements, count));
    }

    /// The physical layer of a connection changed.
    pub fn gc_phy_updated_cb(&mut self, conn_id: i32, tx_phy: u8, rx_phy: u8, status: u8)
        requires
            old(self)@.is_bound(EventCategory::Client),
        ensures
            old(self)@.client_received(
                final(self)@,
                GattClientEvent::PhyUpdated(conn_id, tx_phy, rx_phy, status),
            ),
    {
        self.dispatch_client(GattClientCallbacks::PhyUpdated(conn_id, tx_phy, rx_phy, status));
    }

    /// The parameters of a connection changed.
    pub fn gc_conn_updated_cb(
        &mut self,
        conn_id: i32,
        interval: u16,
        latency: u16,
        timeout: u16,
        status: u8,
    )
        requires
            old(self)@.is_bound(EventCategory::Client),
        ensures
            old(self)@.client_received(
                final(self)@,
                GattClientEvent::ConnUpdated(conn_id, interval, latency, timeout, status),
            ),
    {
        self.dispatch_client(GattClientCallbacks::ConnUpdated(conn_id, interval, latency, timeout, status));
    }

    /// The services of the remote server changed.
    pub fn gc_service_changed_cb(&mut self, conn_id: i32)
        requires
            old(self)@.is_bound(EventCategory::Client),
        ensures
            old(self)@.client_received(
                final(self)@,
                GattClientEvent::ServiceChanged(conn_id),
            ),
    {
        self.dispatch_client(GattClientCallbacks::ServiceChanged(conn_id));
    }

    /// The physical layer of a connection was read.
    ///
    /// The event holds `addr` as a domain address.
    pub fn read_phy_callback(
        &mut self,
        client_if: i32,
        addr: RustRawAddress,
        tx_phy: u8,
        rx_phy: u8,
        status: u8,
    )
        requires
            old(self)@.is_bound(EventCategory::Client),
        ensures
            old(self)@.client_received(
                final(self)@,
                GattClientEvent::ReadPhy(client_if, address_of_bridged(addr), tx_phy, rx_phy, status),
            ),
    {
        let addr = RawAddress::from_bridged(addr);
        self.dispatch_client(GattClientCallbacks::ReadPhy(client_if, addr, tx_phy, rx_phy, status));
    }
}

} // verus!
