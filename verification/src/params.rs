//! The parameter blocks that GATT callbacks and calls carry.
//!
//! Their contents are not interpreted here: value buffers are bytes and the
//! other fields are integers that pass through unchanged.

use vstd::prelude::*;
use crate::address::{RawAddress, RustRawAddress, Uuid};
use crate::buffer::copy_of;

verus! {

/// The parameters of a notification or indication from a remote server.
#[derive(Debug, PartialEq, Eq)]
pub struct BtGattNotifyParams {
    pub value: Vec<u8>,
    pub bda: RawAddress,
    pub handle: u16,
    pub len: u16,
    pub is_notify: u8,
}

/// What a `BtGattNotifyParams` holds.
pub ghost struct BtGattNotifyParamsView {
    pub value: Seq<u8>,
    pub bda: RawAddress,
    pub handle: u16,
    pub len: u16,
    pub is_notify: u8,
}

impl View for BtGattNotifyParams {
    type V = BtGattNotifyParamsView;

    open spec fn view(&self) -> BtGattNotifyParamsView {
        BtGattNotifyParamsView {
            value: self.value@,
            bda: self.bda,
            handle: self.handle,
            len: self.len,
            is_notify: self.is_notify,
        }
    }
}

impl Clone for BtGattNotifyParams {
    /// A copy that shares nothing with `self`.
    fn clone(&self) -> (out: Self)
        ensures
            out@ == self@,
    {
        BtGattNotifyParams {
            value: copy_of(self.value.as_slice()),
            bda: self.bda,
            handle: self.handle,
            len: self.len,
            is_notify: self.is_notify,
        }
    }
}

/// An attribute value as it was read, with the length that the remote side
/// gave for it.
#[derive(Debug, PartialEq, Eq)]
pub struct BtGattUnformattedValue {
    pub value: Vec<u8>,
    pub len: u16,
}

/// What a `BtGattUnformattedValue` holds.
pub ghost struct BtGattUnformattedValueView {
    pub value: Seq<u8>,
    pub len: u16,
}

impl View for BtGattUnformattedValue {
    type V = BtGattUnformattedValueView;

    open spec fn view(&self) -> BtGattUnformattedValueView {
        BtGattUnformattedValueView { value: self.value@, len: self.len }
    }
}

impl Clone for BtGattUnformattedValue {
    /// A copy that shares nothing with `self`.
    fn clone(&self) -> (out: Self)
        ensures
            out@ == self@,
    {
        BtGattUnformattedValue { value: copy_of(self.value.as_slice()), len: self.len }
    }
}

/// The result of reading a characteristic or a descriptor.
#[derive(Debug, PartialEq, Eq)]
pub struct BtGattReadParams {
    pub handle: u16,
    pub value: BtGattUnformattedValue,
    pub value_type: u16,
    pub status: u8,
}

/// What a `BtGattReadParams` holds.
pub ghost struct BtGattReadParamsView {
    pub handle: u16,
    pub value: BtGattUnformattedValueView,
    pub value_type: u16,
    pub status: u8,
}

impl View for BtGattReadParams {
    type V = BtGattReadParamsView;

    open spec fn view(&self) -> BtGattReadParamsView {
        BtGattReadParamsView {
            handle: self.handle,
            value: self.value@,
            value_type: self.value_type,
            status: self.status,
        }
    }
}

impl Clone for BtGattReadParams {
    /// A copy that shares nothing with `self`.
    fn clone(&self) -> (out: Self)
        ensures
            out@ == self@,
    {
        BtGattReadParams {
            handle: self.handle,
            value: self.value.clone(),
            value_type: self.value_type,
            status: self.status,
        }
    }
}

/// One entry of a GATT database: a service, a characteristic or a
/// descriptor.
#[derive(Clone, Copy, Debug, PartialEq, Eq)]
pub struct BtGattDbElement {
    pub id: u16,
    pub uuid: Uuid,
    pub type_: u32,
    pub attribute_handle: u16,
    pub start_handle: u16,
    pub end_handle: u16,
    pub properties: u8,
    pub extended_properties: u16,
    pub permissions: u16,
}

/// An attribute value that a server sends in answer to a request.
#[derive(Debug, PartialEq, Eq)]
pub struct BtGattValue {
    pub value: Vec<u8>,
    pub handle: u16,
    pub offset: u16,
    pub len: u16,
    pub auth_req: u8,
}

/// The answer of a server to a read or write request: an attribute value,
/// or only the handle that the request was about.
#[derive(Debug, PartialEq, Eq)]
pub enum BtGattResponse {
    AttrValue(BtGattValue),
    Handle(u16),
}

/// The parameters of a test command.
#[derive(Clone, Copy, Debug, PartialEq, Eq)]
pub struct BtGattTestParams {
    pub bda1: Option<RawAddress>,
    pub uuid1: Option<Uuid>,
    pub u1: u16,
    pub u2: u16,
    pub u3: u16,
    pub u4: u16,
    pub u5: u16,
}

/// What the scanner reports when a tracked advertiser is found or lost.
#[derive(Debug, PartialEq, Eq)]
pub struct RustAdvertisingTrackInfo {
    pub scanner_id: u8,
    pub filter_index: u8,
    pub advertiser_state: u8,
    pub advertiser_info_present: u8,
    pub advertiser_address: RustRawAddress,
    pub advertiser_address_type: u8,
    pub tx_power: u8,
    pub rssi: i8,
    pub timestamp: u16,
    pub adv_packet_len: u8,
    pub adv_packet: Vec<u8>,
    pub scan_response_len: u8,
    pub scan_response: Vec<u8>,
}

/// What a `RustAdvertisingTrackInfo` holds.
pub ghost struct RustAdvertisingTrackInfoView {
    pub scanner_id: u8,
    pub filter_index: u8,
    pub advertiser_state: u8,
    pub advertiser_info_present: u8,
    pub advertiser_address: RustRawAddress,
    pub advertiser_address_type: u8,
    pub tx_power: u8,
    pub rssi: i8,
    pub timestamp: u16,
    pub adv_packet_len: u8,
    pub adv_packet: Seq<u8>,
    pub scan_response_len: u8,
    pub scan_response: Seq<u8>,
}

impl View for RustAdvertisingTrackInfo {
    type V = RustAdvertisingTrackInfoView;

    open spec fn view(&self) -> RustAdvertisingTrackInfoView {
        RustAdvertisingTrackInfoView {
            scanner_id: self.scanner_id,
            filter_index: self.filter_index,
            advertiser_state: self.advertiser_state,
            advertiser_info_present: self.advertiser_info_present,
            advertiser_address: self.advertiser_address,
            advertiser_address_type: self.advertiser_address_type,
            tx_power: self.tx_power,
            rssi: self.rssi,
            timestamp: self.timestamp,
            adv_packet_len: self.adv_packet_len,
            adv_packet: self.adv_packet@,
            scan_response_len: self.scan_response_len,
            scan_response: self.scan_response@,
        }
    }
}

impl Clone for RustAdvertisingTrackInfo {
    /// A copy that shares nothing with `self`.
    fn clone(&self) -> (out: Self)
        ensures
            out@ == self@,
    {
        RustAdvertisingTrackInfo {
            scanner_id: self.scanner_id,
            filter_index: self.filter_index,
            advertiser_state: self.advertiser_state,
            advertiser_info_present: self.advertiser_info_present,
            advertiser_address: self.advertiser_address,
            advertiser_address_type: self.advertiser_address_type,
            tx_power: self.tx_power,
            rssi: self.rssi,
            timestamp: self.timestamp,
            adv_packet_len: self.adv_packet_len,
            adv_packet: copy_of(self.adv_packet.as_slice()),
            scan_response_len: self.scan_response_len,
            scan_response: copy_of(self.scan_response.as_slice()),
        }
    }
}

/// The name under which the scanner events carry the tracking report.
pub type AdvertisingTrackInfo = RustAdvertisingTrackInfo;

} // verus!
