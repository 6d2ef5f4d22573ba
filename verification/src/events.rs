//! The events that the callbacks of the native side are decoded into.
//!
//! There is one closed set of events for each category. The fields of an
//! event stand in the order of the arguments of its callback, and an event
//! owns all it holds: nothing in it refers to memory of the native side.

use vstd::prelude::*;
use crate::address::{RawAddress, Uuid};
use crate::params::{
    AdvertisingTrackInfo, BtGattDbElement, BtGattNotifyParams, BtGattNotifyParamsView,
    BtGattReadParams, BtGattReadParamsView, RustAdvertisingTrackInfoView,
};

verus! {

/// An event of the client category.
#[derive(Debug, PartialEq, Eq)]
pub enum GattClientCallbacks {
    /// A client was registered.
    /// Fields: `status`, `client_if`, `app_uuid`.
    RegisterClient(i32, i32, Uuid),
    /// A connection to a remote server was opened, or opening it failed.
    /// Fields: `conn_id`, `status`, `client_if`, `addr`.
    Connect(i32, i32, i32, RawAddress),
    /// A connection to a remote server was closed.
    /// Fields: `conn_id`, `status`, `client_if`, `addr`.
    Disconnect(i32, i32, i32, RawAddress),
    /// The search for services has ended.
    /// Fields: `conn_id`, `status`.
    SearchComplete(i32, i32),
    /// Notifications of a characteristic were switched on or off.
    /// Fields: `conn_id`, `registered`, `status`, `handle`.
    RegisterForNotification(i32, i32, i32, u16),
    /// A notification or an indication arrived.
    /// Fields: `conn_id`, `params`.
    Notify(i32, BtGattNotifyParams),
    /// A characteristic was read.
    /// Fields: `conn_id`, `status`, `params`.
    ReadCharacteristic(i32, i32, BtGattReadParams),
    /// A characteristic was written.
    /// Fields: `conn_id`, `status`, `handle`, `len`, `value`.
    WriteCharacteristic(i32, i32, u16, u16, Vec<u8>),
    /// A descriptor was read.
    /// Fields: `conn_id`, `status`, `params`.
    ReadDescriptor(i32, i32, BtGattReadParams),
    /// A descriptor was written.
    /// Fields: `conn_id`, `status`, `handle`, `len`, `value`.
    WriteDescriptor(i32, i32, u16, u16, Vec<u8>),
    /// The prepared writes were executed or dropped.
    /// Fields: `conn_id`, `status`.
    ExecuteWrite(i32, i32),
    /// The signal strength of a remote device was read.
    /// Fields: `client_if`, `addr`, `rssi`, `status`.
    ReadRemoteRssi(i32, RawAddress, i32, i32),
    /// The size of the transmission unit was negotiated.
    /// Fields: `conn_id`, `status`, `mtu`.
    ConfigureMtu(i32, i32, i32),
    /// The connection became congested, or stopped being so.
    /// Fields: `conn_id`, `congested`.
    Congestion(i32, bool),
    /// The database of the remote server, with the count that came with it.
    /// Fields: `conn_id`, `elements`, `count`.
    GetGattDb(i32, Vec<BtGattDbElement>, i32),
    /// The physical layer of a connection changed.
    /// Fields: `conn_id`, `tx_phy`, `rx_phy`, `status`.
    PhyUpdated(i32, u8, u8, u8),
    /// The parameters of a connection changed.
    /// Fields: `conn_id`, `interval`, `latency`, `timeout`, `status`.
    ConnUpdated(i32, u16, u16, u16, u8),
    /// The services of the remote server changed.
    /// Fields: `conn_id`.
    ServiceChanged(i32),
    /// The physical layer of a connection was read.
    /// Fields: `client_if`, `addr`, `tx_phy`, `rx_phy`, `status`.
    ReadPhy(i32, RawAddress, u8, u8, u8),
}

/// What a client event holds.
pub ghost enum GattClientEvent {
    RegisterClient(i32, i32, Uuid),
    Connect(i32, i32, i32, RawAddress),
    Disconnect(i32, i32, i32, RawAddress),
    SearchComplete(i32, i32),
    RegisterForNotification(i32, i32, i32, u16),
    Notify(i32, BtGattNotifyParamsView),
    ReadCharacteristic(i32, i32, BtGattReadParamsView),
    WriteCharacteristic(i32, i32, u16, u16, Seq<u8>),
    ReadDescriptor(i32, i32, BtGattReadParamsView),
    WriteDescriptor(i32, i32, u16, u16, Seq<u8>),
    ExecuteWrite(i32, i32),
    ReadRemoteRssi(i32, RawAddress, i32, i32),
    ConfigureMtu(i32, i32, i32),
    Congestion(i32, bool),
    GetGattDb(i32, Seq<BtGattDbElement>, i32),
    PhyUpdated(i32, u8, u8, u8),
    ConnUpdated(i32, u16, u16, u16, u8),
    ServiceChanged(i32),
    ReadPhy(i32, RawAddress, u8, u8, u8),
}

impl View for GattClientCallbacks {
    type V = GattClientEvent;

    open spec fn view(&self) -> GattClientEvent {
        match self {
            GattClientCallbacks::RegisterClient(status, client_if, app_uuid) => GattClientEvent::RegisterClient(*status, *client_if, *app_uuid),
            GattClientCallbacks::Connect(conn_id, status, client_if, addr) => GattClientEvent::Connect(*conn_id, *status, *client_if, *addr),
            GattClientCallbacks::Disconnect(conn_id, status, client_if, addr) => GattClientEvent::Disconnect(*conn_id, *status, *client_if, *addr),
            GattClientCallbacks::SearchComplete(conn_id, status) => GattClientEvent::SearchComplete(*conn_id, *status),
            GattClientCallbacks::RegisterForNotification(conn_id, registered, status, handle) => GattClientEvent::RegisterForNotification(*conn_id, *registered, *status, *handle),
            GattClientCallbacks::Notify(conn_id, params) => GattClientEvent::Notify(*conn_id, params@),
            GattClientCallbacks::ReadCharacteristic(conn_id, status, params) => GattClientEvent::ReadCharacteristic(*conn_id, *status, params@),
            GattClientCallbacks::WriteCharacteristic(conn_id, status, handle, len, value) => GattClientEvent::WriteCharacteristic(*conn_id, *status, *handle, *len, value@),
            GattClientCallbacks::ReadDescriptor(conn_id, status, params) => GattClientEvent::ReadDescriptor(*conn_id, *status, params@),
            GattClientCallbacks::WriteDescriptor(conn_id, status, handle, len, value) => GattClientEvent::WriteDescriptor(*conn_id, *status, *handle, *len, value@),
            GattClientCallbacks::ExecuteWrite(conn_id, status) => GattClientEvent::ExecuteWrite(*conn_id, *status),
            GattClientCallbacks::ReadRemoteRssi(client_if, addr, rssi, status) => GattClientEvent::ReadRemoteRssi(*client_if, *addr, *rssi, *status),
            GattClientCallbacks::ConfigureMtu(conn_id, status, mtu) => GattClientEvent::ConfigureMtu(*conn_id, *status, *mtu),
            GattClientCallbacks::Congestion(conn_id, congested) => GattClientEvent::Congestion(*conn_id, *congested),
            GattClientCallbacks::GetGattDb(conn_id, elements, count) => GattClientEvent::GetGattDb(*conn_id, elements@, *count),
            GattClientCallbacks::PhyUpdated(conn_id, tx_phy, rx_phy, status) => GattClientEvent::PhyUpdated(*conn_id, *tx_phy, *rx_phy, *status),
            GattClientCallbacks::ConnUpdated(conn_id, interval, latency, timeout, status) => GattClientEvent::ConnUpdated(*conn_id, *interval, *latency, *timeout, *status),
            GattClientCallbacks::ServiceChanged(conn_id) => GattClientEvent::ServiceChanged(*conn_id),
            GattClientCallbacks::ReadPhy(client_if, addr, tx_phy, rx_phy, status) => GattClientEvent::ReadPhy(*client_if, *addr, *tx_phy, *rx_phy, *status),
        }
    }
}

/// An event of the server category.
#[derive(Debug, PartialEq, Eq)]
pub enum GattServerCallbacks {
    /// A server was registered.
    /// Fields: `status`, `server_if`, `app_uuid`.
    RegisterServer(i32, i32, Uuid),
    /// A remote client connected or disconnected.
    /// Fields: `conn_id`, `server_if`, `connected`, `addr`.
    Connection(i32, i32, i32, RawAddress),
    /// A service was added, with the count that came with its elements.
    /// Fields: `status`, `server_if`, `elements`, `count`.
    ServiceAdded(i32, i32, Vec<BtGattDbElement>, usize),
    /// A service was stopped.
    /// Fields: `status`, `server_if`, `service_handle`.
    ServiceStopped(i32, i32, i32),
    /// A service was deleted.
    /// Fields: `status`, `server_if`, `service_handle`.
    ServiceDeleted(i32, i32, i32),
    /// A remote client asks to read a characteristic.
    /// Fields: `conn_id`, `trans_id`, `addr`, `attr_handle`, `offset`, `is_long`.
    RequestReadCharacteristic(i32, i32, RawAddress, i32, i32, bool),
    /// A remote client asks to read a descriptor.
    /// Fields: `conn_id`, `trans_id`, `addr`, `attr_handle`, `offset`, `is_long`.
    RequestReadDescriptor(i32, i32, RawAddress, i32, i32, bool),
    /// A remote client asks to write a characteristic; the value comes with its length.
    /// Fields: `conn_id`, `trans_id`, `addr`, `attr_handle`, `offset`, `need_rsp`, `is_prep`, `value`, `length`.
    RequestWriteCharacteristic(i32, i32, RawAddress, i32, i32, bool, bool, Vec<u8>, usize),
    /// A remote client asks to write a descriptor; the value comes with its length.
    /// Fields: `conn_id`, `trans_id`, `addr`, `attr_handle`, `offset`, `need_rsp`, `is_prep`, `value`, `length`.
    RequestWriteDescriptor(i32, i32, RawAddress, i32, i32, bool, bool, Vec<u8>, usize),
    /// A remote client asks to execute or drop its prepared writes.
    /// Fields: `conn_id`, `trans_id`, `addr`, `exec_write`.
    RequestExecWrite(i32, i32, RawAddress, i32),
    /// A response was sent.
    /// Fields: `status`, `handle`.
    ResponseConfirmation(i32, i32),
    /// An indication was sent.
    /// Fields: `conn_id`, `status`.
    IndicationSent(i32, i32),
    /// The connection became congested, or stopped being so.
    /// Fields: `conn_id`, `congested`.
    Congestion(i32, bool),
    /// The size of the transmission unit changed.
    /// Fields: `conn_id`, `mtu`.
    MtuChanged(i32, i32),
    /// The physical layer of a connection changed.
    /// Fields: `conn_id`, `tx_phy`, `rx_phy`, `status`.
    PhyUpdated(i32, u8, u8, u8),
    /// The parameters of a connection changed.
    /// Fields: `conn_id`, `interval`, `latency`, `timeout`, `status`.
    ConnUpdated(i32, u16, u16, u16, u8),
}

/// What a server event holds.
pub ghost enum GattServerEvent {
    RegisterServer(i32, i32, Uuid),
    Connection(i32, i32, i32, RawAddress),
    ServiceAdded(i32, i32, Seq<BtGattDbElement>, usize),
    ServiceStopped(i32, i32, i32),
    ServiceDeleted(i32, i32, i32),
    RequestReadCharacteristic(i32, i32, RawAddress, i32, i32, bool),
    RequestReadDescriptor(i32, i32, RawAddress, i32, i32, bool),
    RequestWriteCharacteristic(i32, i32, RawAddress, i32, i32, bool, bool, Seq<u8>, usize),
    RequestWriteDescriptor(i32, i32, RawAddress, i32, i32, bool, bool, Seq<u8>, usize),
    RequestExecWrite(i32, i32, RawAddress, i32),
    ResponseConfirmation(i32, i32),
    IndicationSent(i32, i32),
    Congestion(i32, bool),
    MtuChanged(i32, i32),
    PhyUpdated(i32, u8, u8, u8),
    ConnUpdated(i32, u16, u16, u16, u8),
}

impl View for GattServerCallbacks {
    type V = GattServerEvent;

    open spec fn view(&self) -> GattServerEvent {
        match self {
            GattServerCallbacks::RegisterServer(status, server_if, app_uuid) => GattServerEvent::RegisterServer(*status, *server_if, *app_uuid),
            GattServerCallbacks::Connection(conn_id, server_if, connected, addr) => GattServerEvent::Connection(*conn_id, *server_if, *connected, *addr),
            GattServerCallbacks::ServiceAdded(status, server_if, elements, count) => GattServerEvent::ServiceAdded(*status, *server_if, elements@, *count),
            GattServerCallbacks::ServiceStopped(status, server_if, service_handle) => GattServerEvent::ServiceStopped(*status, *server_if, *service_handle),
            GattServerCallbacks::ServiceDeleted(status, server_if, service_handle) => GattServerEvent::ServiceDeleted(*status, *server_if, *service_handle),
            GattServerCallbacks::RequestReadCharacteristic(conn_id, trans_id, addr, attr_handle, offset, is_long) => GattServerEvent::RequestReadCharacteristic(*conn_id, *trans_id, *addr, *attr_handle, *offset, *is_long),
            GattServerCallbacks::RequestReadDescriptor(conn_id, trans_id, addr, attr_handle, offset, is_long) => GattServerEvent::RequestReadDescriptor(*conn_id, *trans_id, *addr, *attr_handle, *offset, *is_long),
            GattServerCallbacks::RequestWriteCharacteristic(conn_id, trans_id, addr, attr_handle, offset, need_rsp, is_prep, value, length) => GattServerEvent::RequestWriteCharacteristic(*conn_id, *trans_id, *addr, *attr_handle, *offset, *need_rsp, *is_prep, value@, *length),
            GattServerCallbacks::RequestWriteDescriptor(conn_id, trans_id, addr, attr_handle, offset, need_rsp, is_prep, value, length) => GattServerEvent::RequestWriteDescriptor(*conn_id, *trans_id, *addr, *attr_handle, *offset, *need_rsp, *is_prep, value@, *length),
            GattServerCallbacks::RequestExecWrite(conn_id, trans_id, addr, exec_write) => GattServerEvent::RequestExecWrite(*conn_id, *trans_id, *addr, *exec_write),
            GattServerCallbacks::ResponseConfirmation(status, handle) => GattServerEvent::ResponseConfirmation(*status, *handle),
            GattServerCallbacks::IndicationSent(conn_id, status) => GattServerEvent::IndicationSent(*conn_id, *status),
            GattServerCallbacks::Congestion(conn_id, congested) => GattServerEvent::Congestion(*conn_id, *congested),
            GattServerCallbacks::MtuChanged(conn_id, mtu) => GattServerEvent::MtuChanged(*conn_id, *mtu),
            GattServerCallbacks::PhyUpdated(conn_id, tx_phy, rx_phy, status) => GattServerEvent::PhyUpdated(*conn_id, *tx_phy, *rx_phy, *status),
            GattServerCallbacks::ConnUpdated(conn_id, interval, latency, timeout, status) => GattServerEvent::ConnUpdated(*conn_id, *interval, *latency, *timeout, *status),
        }
    }
}

/// An event of the scanner category.
#[derive(Debug, PartialEq, Eq)]
pub enum GattScannerCallbacks {
    /// A scanner was registered.
    /// Fields: `uuid`, `scanner_id`, `status`.
    OnScannerRegistered(Uuid, u8, u8),
    /// The scan parameters were set.
    /// Fields: `scanner_id`, `status`.
    OnSetScannerParameterComplete(u8, u8),
    /// An advertisement was received.
    /// Fields: `event_type`, `addr_type`, `addr`, `primary_phy`, `secondary_phy`, `advertising_sid`, `tx_power`, `rssi`, `periodic_adv_int`, `adv_data`.
    OnScanResult(u16, u8, RawAddress, u8, u8, u8, i8, i8, u16, Vec<u8>),
    /// A tracked advertiser was found or lost.
    /// Fields: `info`.
    OnTrackAdvFoundLost(AdvertisingTrackInfo),
    /// A batch of scan reports is ready.
    /// Fields: `client_if`, `status`, `report_format`, `num_records`, `data`.
    OnBatchScanReports(i32, i32, i32, i32, Vec<u8>),
    /// The storage for batched reports is filling up.
    /// Fields: `client_if`.
    OnBatchScanThresholdCrossed(i32),
}

/// What a scanner event holds.
pub ghost enum GattScannerEvent {
    OnScannerRegistered(Uuid, u8, u8),
    OnSetScannerParameterComplete(u8, u8),
    OnScanResult(u16, u8, RawAddress, u8, u8, u8, i8, i8, u16, Seq<u8>),
    OnTrackAdvFoundLost(RustAdvertisingTrackInfoView),
    OnBatchScanReports(i32, i32, i32, i32, Seq<u8>),
    OnBatchScanThresholdCrossed(i32),
}

impl View for GattScannerCallbacks {
    type V = GattScannerEvent;

    open spec fn view(&self) -> GattScannerEvent {
        match self {
            GattScannerCallbacks::OnScannerRegistered(uuid, scanner_id, status) => GattScannerEvent::OnScannerRegistered(*uuid, *scanner_id, *status),
            GattScannerCallbacks::OnSetScannerParameterComplete(scanner_id, status) => GattScannerEvent::OnSetScannerParameterComplete(*scanner_id, *status),
            GattScannerCallbacks::OnScanResult(event_type, addr_type, addr, primary_phy, secondary_phy, advertising_sid, tx_power, rssi, periodic_adv_int, adv_data) => GattScannerEvent::OnScanResult(*event_type, *addr_type, *addr, *primary_phy, *secondary_phy, *advertising_sid, *tx_power, *rssi, *periodic_adv_int, adv_data@),
            GattScannerCallbacks::OnTrackAdvFoundLost(info) => GattScannerEvent::OnTrackAdvFoundLost(info@),
            GattScannerCallbacks::OnBatchScanReports(client_if, status, report_format, num_records, data) => GattScannerEvent::OnBatchScanReports(*client_if, *status, *report_format, *num_records, data@),
            GattScannerCallbacks::OnBatchScanThresholdCrossed(client_if) => GattScannerEvent::OnBatchScanThresholdCrossed(*client_if),
        }
    }
}

} // verus!
