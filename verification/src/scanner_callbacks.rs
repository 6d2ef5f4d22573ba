//! The callbacks of the scanner category.
//!
//! Each function takes the arguments of one scanning callback, in the
//! order of that callback, builds the event that stands for the
//! invocation, and hands it to the consumer of the scanner events before
//! it returns. Nothing is validated and nothing is queued.

use vstd::prelude::*;
use crate::address::{address_of_wire, deref_ffi_address, FfiAddress, Uuid};
use crate::buffer::{pointed_to, ptr_to_vec, readable};
use crate::events::{GattClientCallbacks, GattScannerCallbacks, GattScannerEvent, GattServerCallbacks};
use crate::params::AdvertisingTrackInfo;
use crate::registry::{DispatchRegistry, EventCategory};

verus! {

impl<C, S, N> DispatchRegistry<C, S, N> where
    C: Fn(GattClientCallbacks) + Send,
    S: Fn(GattServerCallbacks) + Send,
    N: Fn(GattScannerCallbacks) + Send,
 {
    /// A scanner was registered.
    ///
    /// The event holds a copy of `uuid`.
    pub fn gdscan_on_scanner_registered(&mut self, uuid: &Uuid, scanner_id: u8, status: u8)
        requires
            old(self)@.is_bound(EventCategory::Scanner),
        ensures
            old(self)@.scanner_received(
                final(self)@,
                GattScannerEvent::OnScannerRegistered(*uuid, scanner_id, status),
            ),
    {
        self.dispatch_scanner(GattScannerCallbacks::OnScannerRegistered(*uuid, scanner_id, status));
    }

    /// The scan parameters were set.
    pub fn gdscan_on_set_scanner_parameter_complete(&mut self, scanner_id: u8, status: u8)
        requires
            old(self)@.is_bound(EventCategory::Scanner),
        ensures
            old(self)@.scanner_received(
                final(self)@,
                GattScannerEvent::OnSetScannerParameterComplete(scanner_id, status),
            ),
    {
        self.dispatch_scanner(GattScannerCallbacks::OnSetScannerParameterComplete(scanner_id, status));
    }

    /// An advertisement was received.
    ///
    /// `adv_data` and `adv_data_len` are a pointer and a length; the event
    /// holds a copy of the elements they describe.
    /// The event holds `addr` as a domain address.
    /// The length itself is not part of the event.
    pub fn gdscan_on_scan_result(
        &mut self,
        event_type: u16,
        addr_type: u8,
        addr: &FfiAddress,
        primary_phy: u8,
        secondary_phy: u8,
        advertising_sid: u8,
        tx_power: i8,
        rssi: i8,
        periodic_adv_int: u16,
        adv_data: Option<&[u8]>,
        adv_data_len: usize,
    )
        requires
            old(self)@.is_bound(EventCategory::Scanner),
            readable(adv_data, adv_data_len as int),
        ensures
            old(self)@.scanner_received(
                final(self)@,
                GattScannerEvent::OnScanResult(event_type, addr_type, address_of_wire(*addr), primary_phy, secondary_phy, advertising_sid, tx_power, rssi, periodic_adv_int, pointed_to(adv_data, adv_data_len as int)),
            ),
    {
        let addr = deref_ffi_address(addr);
        let adv_data = ptr_to_vec(adv_data, adv_data_len);
        self.dispatch_scanner(GattScannerCallbacks::OnScanResult(event_type, addr_type, addr, primary_phy, secondary_phy, advertising_sid, tx_power, rssi, periodic_adv_int, adv_data));
    }

    /// A tracked advertiser was found or lost.
    pub fn gdscan_on_track_adv_found_lost(&mut self, info: AdvertisingTrackInfo)
        requires
            old(self)@.is_bound(EventCategory::Scanner),
        ensures
            old(self)@.scanner_received(
                final(self)@,
                GattScannerEvent::OnTrackAdvFoundLost(info@),
            ),
    {
        self.dispatch_scanner(GattScannerCallbacks::OnTrackAdvFoundLost(info));
    }

    /// A batch of scan reports is ready.
    ///
    /// `data` and `data_len` are a pointer and a length; the event holds a copy
    /// of the elements they describe.
    /// The length itself is not part of the event.
    pub fn gdscan_on_batch_scan_reports(
        &mut self,
        client_if: i32,
        status: i32,
        report_format: i32,
        num_records: i32,
        data: Option<&[u8]>,
        data_len: usize,
    )
        requires
            old(self)@.is_bound(EventCategory::Scanner),
            readable(data, data_len as int),
        ensures
            old(self)@.scanner_received(
                final(self)@,
                GattScannerEvent::OnBatchScanReports(client_if, status, report_format, num_records, pointed_to(data, data_len as int)),
            ),
    {
        let data = ptr_to_vec(data, data_len);
        self.dispatch_scanner(GattScannerCallbacks::OnBatchScanReports(client_if, status, report_format, num_records, data));
    }

    /// The storage for batched reports is filling up.
    pub fn gdscan_on_batch_scan_threshold_crossed(&mut self, client_id: i32)
        requires
            old(self)@.is_bound(EventCategory::Scanner),
        ensures
            old(self)@.scanner_received(
                final(self)@,
                GattScannerEvent::OnBatchScanThresholdCrossed(client_id),
            ),
    {
        self.dispatch_scanner(GattScannerCallbacks::OnBatchScanThresholdCrossed(client_id));
    }
}

} // verus!
