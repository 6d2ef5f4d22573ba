//! The callbacks of the server category.
//!
//! Each function takes the arguments of one callback of the native server
//! interface, in the order of that callback, builds the event that stands
//! for the invocation, and hands it to the consumer of the server events
//! before it returns. Nothing is validated and nothing is queued.

use vstd::prelude::*;
use crate::address::{address_of_wire, deref_ffi_address, FfiAddress, Uuid};
use crate::buffer::{pointed_to, ptr_to_vec, readable};
use crate::events::{GattClientCallbacks, GattScannerCallbacks, GattServerCallbacks, GattServerEvent};
use crate::params::BtGattDbElement;
use crate::registry::{DispatchRegistry, EventCategory};

verus! {

impl<C, S, N> DispatchRegistry<C, S, N> where
    C: Fn(GattClientCallbacks) + Send,
    S: Fn(GattServerCallbacks) + Send,
    N: Fn(GattScannerCallbacks) + Send,
 {
    /// A server was registered.
    ///
    /// The event holds a copy of `app_uuid`.
    pub fn gs_register_server_cb(&mut self, status: i32, server_if: i32, app_uuid: &Uuid)
        requires
            old(self)@.is_bound(EventCategory::Server),
        ensures
            old(self)@.server_received(
                final(self)@,
                GattServerEvent::RegisterServer(status, server_if, *app_uuid),
            ),
    {
        self.dispatch_server(GattServerCallbacks::RegisterServer(status, server_if, *app_uuid));
    }

    /// A remote client connected or disconnected.
    ///
    /// The event holds `addr` as a domain address.
    pub fn gs_connection_cb(
        &mut self,
        conn_id: i32,
        server_if: i32,
        connected: i32,
        addr: &FfiAddress,
    )
        requires
            old(self)@.is_bound(EventCategory::Server),
        ensures
            old(self)@.server_received(
                final(self)@,
                GattServerEvent::Connection(conn_id, server_if, connected, address_of_wire(*addr)),
            ),
    {
        let addr = deref_ffi_address(addr);
        self.dispatch_server(GattServerCallbacks::Connection(conn_id, server_if, connected, addr));
    }

    /// A service was added, with the count that came with its elements.
    ///
    /// `elements` and `count` are a pointer and a length; the event holds a
    /// copy of the elements they describe.
    pub fn gs_service_added_cb(
        &mut self,
        status: i32,
        server_if: i32,
        elements: Option<&[BtGattDbElement]>,
        count: usize,
    )
        requires
            old(self)@.is_bound(EventCategory::Server),
            readable(elements, count as int),
        ensures
            old(self)@.server_received(
                final(self)@,
                GattServerEvent::ServiceAdded(status, server_if, pointed_to(elements, count as int), count),
            ),
    {
        let elements = ptr_to_vec(elements, count);
        self.dispatch_server(GattServerCallbacks::ServiceAdded(status, server_if, elements, count));
    }

    /// A service was stopped.
    pub fn gs_service_stopped_cb(&mut self, status: i32, server_if: i32, service_handle: i32)
        requires
            old(self)@.is_bound(EventCategory::Server),
        ensures
            old(self)@.server_received(
                final(self)@,
                GattServerEvent::ServiceStopped(status, server_if, service_handle),
            ),
    {
        self.dispatch_server(GattServerCallbacks::ServiceStopped(status, server_if, service_handle));
    }

    /// A service was deleted.
    pub fn gs_service_deleted_cb(&mut self, status: i32, server_if: i32, service_handle: i32)
        requires
            old(self)@.is_bound(EventCategory::Server),
        ensures
            old(self)@.server_received(
                final(self)@,
                GattServerEvent::ServiceDeleted(status, server_if, service_handle),
            ),
    {
        self.dispatch_server(GattServerCallbacks::ServiceDeleted(status, server_if, service_handle));
    }

    /// A remote client asks to read a characteristic.
    ///
    /// The event holds `addr` as a domain address.
    pub fn gs_request_read_characteristic_cb(
        &mut self,
        conn_id: i32,
        trans_id: i32,
        addr: &FfiAddress,
        attr_handle: i32,
        offset: i32,
        is_long: bool,
    )
        requires
            old(self)@.is_bound(EventCategory::Server),
        ensures
            old(self)@.server_received(
                final(self)@,
                GattServerEvent::RequestReadCharacteristic(conn_id, trans_id, address_of_wire(*addr), attr_handle, offset, is_long),
            ),
    {
        let addr = deref_ffi_address(addr);
        self.dispatch_server(GattServerCallbacks::RequestReadCharacteristic(conn_id, trans_id, addr, attr_handle, offset, is_long));
    }

    /// A remote client asks to read a descriptor.
    ///
    /// The event holds `addr` as a domain address.
    pub fn gs_request_read_descriptor_cb(
        &mut self,
        conn_id: i32,
        trans_id: i32,
        addr: &FfiAddress,
        attr_handle: i32,
        offset: i32,
        is_long: bool,
    )
        requires
            old(self)@.is_bound(EventCategory::Server),
        ensures
            old(self)@.server_received(
                final(self)@,
                GattServerEvent::RequestReadDescriptor(conn_id, trans_id, address_of_wire(*addr), attr_handle, offset, is_long),
            ),
    {
        let addr = deref_ffi_address(addr);
        self.dispatch_server(GattServerCallbacks::RequestReadDescriptor(conn_id, trans_id, addr, attr_handle, offset, is_long));
    }

    /// A remote client asks to write a characteristic; the value comes with its length.
    ///
    /// `value` and `length` are a pointer and a length; the event holds a copy
    /// of the elements they describe.
    /// The event holds `addr` as a domain address.
    pub fn gs_request_write_characteristic_cb(
        &mut self,
        conn_id: i32,
        trans_id: i32,
        addr: &FfiAddress,
        attr_handle: i32,
        offset: i32,
        need_rsp: bool,
        is_prep: bool,
        value: Option<&[u8]>,
        length: usize,
    )
        requires
            old(self)@.is_bound(EventCategory::Server),
            readable(value, length as int),
        ensures
            old(self)@.server_received(
                final(self)@,
                GattServerEvent::RequestWriteCharacteristic(conn_id, trans_id, address_of_wire(*addr), attr_handle, offset, need_rsp, is_prep, pointed_to(value, length as int), length),
            ),
    {
        let addr = deref_ffi_address(addr);
        let value = ptr_to_vec(value, length);
        self.dispatch_server(GattServerCallbacks::RequestWriteCharacteristic(conn_id, trans_id, addr, attr_handle, offset, need_rsp, is_prep, value, length));
    }

    /// A remote client asks to write a descriptor; the value comes with its length.
    ///
    /// `value` and `length` are a pointer and a length; the event holds a copy
    /// of the elements they describe.
    /// The event holds `addr` as a domain address.
    pub fn gs_request_write_descriptor_cb(
        &mut self,
        conn_id: i32,
        trans_id: i32,
        addr: &FfiAddress,
        attr_handle: i32,
        offset: i32,
        need_rsp: bool,
        is_prep: bool,
        value: Option<&[u8]>,
        length: usize,
    )
        requires
            old(self)@.is_bound(EventCategory::Server),
            readable(value, length as int),
        ensures
            old(self)@.server_received(
                final(self)@,
                GattServerEvent::RequestWriteDescriptor(conn_id, trans_id, address_of_wire(*addr), attr_handle, offset, need_rsp, is_prep, pointed_to(value, length as int), length),
            ),
    {
        let addr = deref_ffi_address(addr);
        let value = ptr_to_vec(value, length);
        self.dispatch_server(GattServerCallbacks::RequestWriteDescriptor(conn_id, trans_id, addr, attr_handle, offset, need_rsp, is_prep, value, length));
    }

    /// A remote client asks to execute or drop its prepared writes.
    ///
    /// The event holds `addr` as a domain address.
    pub fn gs_request_exec_write_cb(
        &mut self,
        conn_id: i32,
        trans_id: i32,
        addr: &FfiAddress,
        exec_write: i32,
    )
        requires
            old(self)@.is_bound(EventCategory::Server),
        ensures
            old(self)@.server_received(
                final(self)@,
                GattServerEvent::RequestExecWrite(conn_id, trans_id, address_of_wire(*addr), exec_write),
            ),
    {
        let addr = deref_ffi_address(addr);
        self.dispatch_server(GattServerCallbacks::RequestExecWrite(conn_id, trans_id, addr, exec_write));
    }

    /// A response was sent.
    pub fn gs_response_confirmation_cb(&mut self, status: i32, handle: i32)
        requires
            old(self)@.is_bound(EventCategory::Server),
        ensures
            old(self)@.server_received(
                final(self)@,
                GattServerEvent::ResponseConfirmation(status, handle),
            ),
    {
        self.dispatch_server(GattServerCallbacks::ResponseConfirmation(status, handle));
    }

    /// An indication was sent.
    pub fn gs_indication_sent_cb(&mut self, conn_id: i32, status: i32)
        requires
            old(self)@.is_bound(EventCategory::Server),
        ensures
            old(self)@.server_received(
                final(self)@,
                GattServerEvent::IndicationSent(conn_id, status),
            ),
    {
        self.dispatch_server(GattServerCallbacks::IndicationSent(conn_id, status));
    }

    /// The connection became congested, or stopped being so.
    pub fn gs_congestion_cb(&mut self, conn_id: i32, congested: bool)
        requires
            old(self)@.is_bound(EventCategory::Server),
        ensures
            old(self)@.server_received(
                final(self)@,
                GattServerEvent::Congestion(conn_id, congested),
            ),
    {
        self.dispatch_server(GattServerCallbacks::Congestion(conn_id, congested));
    }

    /// The size of the transmission unit changed.
    pub fn gs_mtu_changed_cb(&mut self, conn_id: i32, mtu: i32)
        requires
            old(self)@.is_bound(EventCategory::Server),
        ensures
            old(self)@.server_received(
                final(self)@,
                GattServerEvent::MtuChanged(conn_id, mtu),
            ),
    {
        self.dispatch_server(GattServerCallbacks::MtuChanged(conn_id, mtu));
    }

    /// The physical layer of a connection changed.
    pub fn gs_phy_updated_cb(&mut self, conn_id: i32, tx_phy: u8, rx_phy: u8, status: u8)
        requires
            old(self)@.is_bound(EventCategory::Server),
        ensures
            old(self)@.server_received(
                final(self)@,
                GattServerEvent::PhyUpdated(conn_id, tx_phy, rx_phy, status),
            ),
    {
        self.dispatch_server(GattServerCallbacks::PhyUpdated(conn_id, tx_phy, rx_phy, status));
    }

    /// The parameters of a connection changed.
    pub fn gs_conn_updated_cb(
        &mut self,
        conn_id: i32,
        interval: u16,
        latency: u16,
        timeout: u16,
        status: u8,
    )
        requires
            old(self)@.is_bound(EventCategory::Server),
        ensures
            old(self)@.server_received(
                final(self)@,
                GattServerEvent::ConnUpdated(conn_id, interval, latency, timeout, status),
            ),
    {
        self.dispatch_server(GattServerCallbacks::ConnUpdated(conn_id, interval, latency, timeout, status));
    }
}

} // verus!
