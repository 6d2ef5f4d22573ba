use std::sync::{Arc, Mutex};

use gatt_topshim::events::{GattClientCallbacks, GattScannerCallbacks, GattServerCallbacks};
use gatt_topshim::registry::{
    DispatchRegistry, GattClientCallbacksDispatcher, GattScannerCallbacksDispatcher,
    GattServerCallbacksDispatcher,
};

use gatt_topshim::address::{FfiAddress, RawAddress, RustRawAddress, Uuid};
use gatt_topshim::params::RustAdvertisingTrackInfo;

type ClientFn = Box<dyn Fn(GattClientCallbacks) + Send>;
type ServerFn = Box<dyn Fn(GattServerCallbacks) + Send>;
type ScannerFn = Box<dyn Fn(GattScannerCallbacks) + Send>;
type Registry = DispatchRegistry<ClientFn, ServerFn, ScannerFn>;

fn gdscan_recorder<E: Send + 'static>() -> (Arc<Mutex<Vec<E>>>, Box<dyn Fn(E) + Send>) {
    let seen = Arc::new(Mutex::new(Vec::new()));
    let sink = seen.clone();
    (seen, Box::new(move |event| sink.lock().unwrap().push(event)))
}

struct GdscanFixture {
    registry: Registry,
    client: Arc<Mutex<Vec<GattClientCallbacks>>>,
    server: Arc<Mutex<Vec<GattServerCallbacks>>>,
    scanner: Arc<Mutex<Vec<GattScannerCallbacks>>>,
}

fn gdscan_fixture() -> GdscanFixture {
    let mut registry = Registry::new();
    let (client, dispatch) = gdscan_recorder();
    assert!(registry.register_client(GattClientCallbacksDispatcher { dispatch }).is_ok());
    let (server, dispatch) = gdscan_recorder();
    assert!(registry.register_server(GattServerCallbacksDispatcher { dispatch }).is_ok());
    let (scanner, dispatch) = gdscan_recorder();
    assert!(registry.register_scanner(GattScannerCallbacksDispatcher { dispatch }).is_ok());
    GdscanFixture { registry, client, server, scanner }
}

#[test]
fn gdscan_on_scanner_registered_hands_over_on_scanner_registered() {
    let mut fx = gdscan_fixture();
    let uuid = Uuid { uu: [0, 1, 2, 3, 4, 5, 6, 7, 8, 9, 10, 11, 12, 13, 14, 15] };
    fx.registry.gdscan_on_scanner_registered(&uuid, 11, 12);
    let seen = fx.scanner.lock().unwrap();
    assert_eq!(seen.len(), 1);
    assert_eq!(seen[0], GattScannerCallbacks::OnScannerRegistered(uuid, 11, 12));
    assert!(fx.client.lock().unwrap().is_empty());
    assert!(fx.server.lock().unwrap().is_empty());
}

#[test]
fn gdscan_on_set_scanner_parameter_complete_hands_over_on_set_scanner_parameter_complete() {
    let mut fx = gdscan_fixture();
    fx.registry.gdscan_on_set_scanner_parameter_complete(10, 11);
    let seen = fx.scanner.lock().unwrap();
    assert_eq!(seen.len(), 1);
    assert_eq!(seen[0], GattScannerCallbacks::OnSetScannerParameterComplete(10, 11));
    assert!(fx.client.lock().unwrap().is_empty());
    assert!(fx.server.lock().unwrap().is_empty());
}

#[test]
fn gdscan_on_scan_result_hands_over_on_scan_result() {
    let mut fx = gdscan_fixture();
    let addr = FfiAddress { address: [1, 2, 3, 4, 5, 2] };
    let adv_data: [u8; 5] = [0x10, 0x20, 0x30, 0x40, 0x50];
    fx.registry.gdscan_on_scan_result(1000, 11, &addr, 13, 14, 15, -9, -10, 1008, Some(&adv_data[..]), 3);
    let seen = fx.scanner.lock().unwrap();
    assert_eq!(seen.len(), 1);
    assert_eq!(seen[0], GattScannerCallbacks::OnScanResult(1000, 11, RawAddress { val: [1, 2, 3, 4, 5, 2] }, 13, 14, 15, -9, -10, 1008, vec![0x10, 0x20, 0x30]));
    assert!(fx.client.lock().unwrap().is_empty());
    assert!(fx.server.lock().unwrap().is_empty());
}

#[test]
fn gdscan_on_track_adv_found_lost_hands_over_on_track_adv_found_lost() {
    let mut fx = gdscan_fixture();
    fx.registry.gdscan_on_track_adv_found_lost(RustAdvertisingTrackInfo { scanner_id: 1, filter_index: 2, advertiser_state: 3, advertiser_info_present: 4, advertiser_address: RustRawAddress { address: [1, 1, 2, 3, 5, 8] }, advertiser_address_type: 5, tx_power: 6, rssi: -7, timestamp: 8, adv_packet_len: 2, adv_packet: vec![0xaa, 0xbb], scan_response_len: 1, scan_response: vec![0xcc] });
    let seen = fx.scanner.lock().unwrap();
    assert_eq!(seen.len(), 1);
    assert_eq!(seen[0], GattScannerCallbacks::OnTrackAdvFoundLost(RustAdvertisingTrackInfo { scanner_id: 1, filter_index: 2, advertiser_state: 3, advertiser_info_present: 4, advertiser_address: RustRawAddress { address: [1, 1, 2, 3, 5, 8] }, advertiser_address_type: 5, tx_power: 6, rssi: -7, timestamp: 8, adv_packet_len: 2, adv_packet: vec![0xaa, 0xbb], scan_response_len: 1, scan_response: vec![0xcc] }));
    assert!(fx.client.lock().unwrap().is_empty());
    assert!(fx.server.lock().unwrap().is_empty());
}

#[test]
fn gdscan_on_batch_scan_reports_hands_over_on_batch_scan_reports() {
    let mut fx = gdscan_fixture();
    let data: [u8; 5] = [0x10, 0x20, 0x30, 0x40, 0x50];
    fx.registry.gdscan_on_batch_scan_reports(-20, 107, 114, -23, Some(&data[..]), 3);
    let seen = fx.scanner.lock().unwrap();
    assert_eq!(seen.len(), 1);
    assert_eq!(seen[0], GattScannerCallbacks::OnBatchScanReports(-20, 107, 114, -23, vec![0x10, 0x20, 0x30]));
    assert!(fx.client.lock().unwrap().is_empty());
    assert!(fx.server.lock().unwrap().is_empty());
}

#[test]
fn gdscan_on_batch_scan_threshold_crossed_hands_over_on_batch_scan_threshold_crossed() {
    let mut fx = gdscan_fixture();
    fx.registry.gdscan_on_batch_scan_threshold_crossed(-20);
    let seen = fx.scanner.lock().unwrap();
    assert_eq!(seen.len(), 1);
    assert_eq!(seen[0], GattScannerCallbacks::OnBatchScanThresholdCrossed(-20));
    assert!(fx.client.lock().unwrap().is_empty());
    assert!(fx.server.lock().unwrap().is_empty());
}
