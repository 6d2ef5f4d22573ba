use std::sync::{Arc, Mutex};

use gatt_topshim::address::{RawAddress, RustRawAddress};
use gatt_topshim::advertiser::BleAdvertiser;
use gatt_topshim::client::GattClientCall;
use gatt_topshim::events::{GattClientCallbacks, GattScannerCallbacks, GattServerCallbacks};
use gatt_topshim::gatt::{Gatt, GattCall, LifecycleState};
use gatt_topshim::interface::{
    GattInterfaceTable, GattProfileInterface, InterfaceHandle, ReturnKind,
};
use gatt_topshim::registry::{
    DispatchRegistry, EventCategory, GattClientCallbacksDispatcher,
    GattScannerCallbacksDispatcher, GattServerCallbacksDispatcher,
};
use gatt_topshim::scanner::{BleScanner, BleScannerCall};
use gatt_topshim::server::GattServerCall;
use gatt_topshim::tables::{
    BtGattCallbacks, BtGattClientCallbacks, BtGattScannerCallbacks, BtGattServerCallbacks,
    ClientCallback, ServerCallback, GATT_CALLBACKS_SIZE,
};

type ClientFn = Box<dyn Fn(GattClientCallbacks) + Send>;
type ServerFn = Box<dyn Fn(GattServerCallbacks) + Send>;
type ScannerFn = Box<dyn Fn(GattScannerCallbacks) + Send>;
type Registry = DispatchRegistry<ClientFn, ServerFn, ScannerFn>;

fn profile(raw: usize) -> GattProfileInterface {
    GattProfileInterface {
        raw: InterfaceHandle::from_token(raw),
        table: GattInterfaceTable {
            client: InterfaceHandle::from_token(0x10),
            server: InterfaceHandle::from_token(0x20),
            scanner: InterfaceHandle::from_token(0x30),
            advertiser: InterfaceHandle::from_token(0x60),
        },
        client_intf: InterfaceHandle::from_token(0x40),
        scanner_intf: InterfaceHandle::from_token(0x50),
    }
}

fn quiet<E: 'static>() -> Box<dyn Fn(E) + Send> {
    Box::new(|_| ())
}

fn started(registry: &mut Registry) -> Gatt {
    let mut gatt = Gatt::new(&profile(0x99)).unwrap();
    gatt.initialize(
        registry,
        GattClientCallbacksDispatcher { dispatch: quiet() },
        GattServerCallbacksDispatcher { dispatch: quiet() },
        GattScannerCallbacksDispatcher { dispatch: quiet() },
    );
    gatt
}

#[test]
fn no_facade_without_profile() {
    assert!(Gatt::new(&profile(0)).is_none());
}

#[test]
fn new_facade_is_uninitialized() {
    let gatt = Gatt::new(&profile(0x99)).unwrap();
    assert!(!gatt.is_initialized());
    assert_eq!(gatt.lifecycle(), LifecycleState::Uninitialized);
}

#[test]
fn new_facade_addresses_the_entries_of_the_table() {
    let mut gatt = Gatt::new(&profile(0x99)).unwrap();
    let addr = RawAddress { val: [1, 2, 3, 4, 5, 6] };
    let request = gatt.client().read_remote_rssi(3, &addr);
    assert_eq!(request.interface, InterfaceHandle::from_token(0x10));
    let request = gatt.server().stop_service(1, 2);
    assert_eq!(request.interface, InterfaceHandle::from_token(0x20));
    assert_eq!(request.call, GattServerCall::StopService { server_if: 1, service_handle: 2 });
    let request = gatt.client_mut().read_phy(3, &addr);
    assert_eq!(request.interface, InterfaceHandle::from_token(0x40));
    assert_eq!(
        request.call,
        GattClientCall::ReadPhy { client_if: 3, bt_addr: RustRawAddress { address: [1, 2, 3, 4, 5, 6] } }
    );
    let _ = gatt.scanner();
    assert_eq!(gatt.advertiser().interface(), InterfaceHandle::from_token(0x60));
}

#[test]
fn advertiser_facade_refers_to_the_advertiser_entry() {
    let gatt = Gatt::new(&profile(0x99)).unwrap();
    assert_eq!(gatt.advertiser().interface(), InterfaceHandle::from_token(0x60));
    assert_ne!(gatt.advertiser().interface(), InterfaceHandle::from_token(0x30));

    let mut swapped = profile(0x99);
    swapped.table.scanner = InterfaceHandle::from_token(0x60);
    swapped.table.advertiser = InterfaceHandle::from_token(0x30);
    let gatt = Gatt::new(&swapped).unwrap();
    assert_eq!(gatt.advertiser().interface(), InterfaceHandle::from_token(0x30));

    let mut same = profile(0x99);
    same.table.advertiser = same.table.scanner;
    let gatt = Gatt::new(&same).unwrap();
    assert_eq!(gatt.advertiser().interface(), InterfaceHandle::from_token(0x30));
}

#[test]
fn advertiser_facade_holds_the_handle_it_was_made_with() {
    let advertiser = BleAdvertiser::new(InterfaceHandle::from_token(0xabc));
    assert_eq!(advertiser.interface(), InterfaceHandle::from_token(0xabc));
    assert!(BleAdvertiser::new(InterfaceHandle::null()).interface().is_null());
}

#[test]
fn initialize_binds_all_three_categories() {
    let mut registry = Registry::new();
    let gatt = started(&mut registry);
    assert!(registry.is_registered(EventCategory::Client));
    assert!(registry.is_registered(EventCategory::Server));
    assert!(registry.is_registered(EventCategory::Scanner));
    assert_eq!(gatt.lifecycle(), LifecycleState::Initializing);
    assert!(!gatt.is_initialized());
}

#[test]
fn initialize_hands_the_tables_to_the_gatt_interface() {
    let mut registry = Registry::new();
    let mut gatt = Gatt::new(&profile(0x99)).unwrap();
    let request = gatt.initialize(
        &mut registry,
        GattClientCallbacksDispatcher { dispatch: quiet() },
        GattServerCallbacksDispatcher { dispatch: quiet() },
        GattScannerCallbacksDispatcher { dispatch: quiet() },
    );
    assert_eq!(request.interface, InterfaceHandle::from_token(0x99));
    assert_eq!(request.call, GattCall::Init { callbacks: BtGattCallbacks::populated() });
    assert_eq!(request.call.return_kind(), ReturnKind::Status);
}

#[test]
fn accepted_tables_make_the_facade_initialized() {
    let mut registry = Registry::new();
    let mut gatt = started(&mut registry);
    let outcome = gatt.complete_initialization(0);
    assert!(outcome.initialized);
    assert!(gatt.is_initialized());
    assert_eq!(gatt.lifecycle(), LifecycleState::Initialized);
}

#[test]
fn refused_tables_make_the_facade_failed() {
    for status in [1u32, 2, 0x84, u32::MAX] {
        let mut registry = Registry::new();
        let mut gatt = started(&mut registry);
        let outcome = gatt.complete_initialization(status);
        assert!(!outcome.initialized);
        assert!(!gatt.is_initialized());
        assert_eq!(gatt.lifecycle(), LifecycleState::FailedInit);
    }
}

#[test]
fn scanner_registration_follows_either_way() {
    for status in [0u32, 1] {
        let mut registry = Registry::new();
        let mut gatt = started(&mut registry);
        let outcome = gatt.complete_initialization(status);
        assert_eq!(outcome.scanner_registration.interface, InterfaceHandle::from_token(0x50));
        assert_eq!(outcome.scanner_registration.call, BleScannerCall::RegisterCallbacks);
        assert_eq!(outcome.scanner_registration.call.return_kind(), ReturnKind::Nothing);
    }
}

#[test]
fn handlers_of_initialize_receive_the_events() {
    let seen = Arc::new(Mutex::new(Vec::new()));
    let sink = seen.clone();
    let mut registry = Registry::new();
    let mut gatt = Gatt::new(&profile(0x99)).unwrap();
    gatt.initialize(
        &mut registry,
        GattClientCallbacksDispatcher { dispatch: quiet() },
        GattServerCallbacksDispatcher {
            dispatch: Box::new(move |event| sink.lock().unwrap().push(event)),
        },
        GattScannerCallbacksDispatcher { dispatch: quiet() },
    );
    gatt.complete_initialization(0);
    registry.gs_service_stopped_cb(0, 1, 40);
    assert_eq!(*seen.lock().unwrap(), vec![GattServerCallbacks::ServiceStopped(0, 1, 40)]);
}

#[test]
fn client_table_leaves_two_entries_unset() {
    let table = BtGattClientCallbacks::populated();
    assert_eq!(table.register_client_cb, Some(ClientCallback::GcRegisterClientCb));
    assert_eq!(table.open_cb, Some(ClientCallback::GcOpenCb));
    assert_eq!(table.close_cb, Some(ClientCallback::GcCloseCb));
    assert_eq!(table.search_complete_cb, Some(ClientCallback::GcSearchCompleteCb));
    assert_eq!(
        table.register_for_notification_cb,
        Some(ClientCallback::GcRegisterForNotificationCb)
    );
    assert_eq!(table.notify_cb, Some(ClientCallback::GcNotifyCb));
    assert_eq!(table.read_characteristic_cb, Some(ClientCallback::GcReadCharacteristicCb));
    assert_eq!(table.write_characteristic_cb, Some(ClientCallback::GcWriteCharacteristicCb));
    assert_eq!(table.read_descriptor_cb, Some(ClientCallback::GcReadDescriptorCb));
    assert_eq!(table.write_descriptor_cb, Some(ClientCallback::GcWriteDescriptorCb));
    assert_eq!(table.execute_write_cb, Some(ClientCallback::GcExecuteWriteCb));
    assert_eq!(table.read_remote_rssi_cb, Some(ClientCallback::GcReadRemoteRssiCb));
    assert_eq!(table.configure_mtu_cb, Some(ClientCallback::GcConfigureMtuCb));
    assert_eq!(table.congestion_cb, Some(ClientCallback::GcCongestionCb));
    assert_eq!(table.get_gatt_db_cb, Some(ClientCallback::GcGetGattDbCb));
    assert_eq!(table.phy_updated_cb, Some(ClientCallback::GcPhyUpdatedCb));
    assert_eq!(table.conn_updated_cb, Some(ClientCallback::GcConnUpdatedCb));
    assert_eq!(table.service_changed_cb, Some(ClientCallback::GcServiceChangedCb));
    assert_eq!(table.services_removed_cb, None);
    assert_eq!(table.services_added_cb, None);
}

#[test]
fn server_table_sets_every_entry() {
    let table = BtGattServerCallbacks::populated();
    assert_eq!(table.register_server_cb, Some(ServerCallback::GsRegisterServerCb));
    assert_eq!(table.connection_cb, Some(ServerCallback::GsConnectionCb));
    assert_eq!(table.service_added_cb, Some(ServerCallback::GsServiceAddedCb));
    assert_eq!(table.service_stopped_cb, Some(ServerCallback::GsServiceStoppedCb));
    assert_eq!(table.service_deleted_cb, Some(ServerCallback::GsServiceDeletedCb));
    assert_eq!(
        table.request_read_characteristic_cb,
        Some(ServerCallback::GsRequestReadCharacteristicCb)
    );
    assert_eq!(table.request_read_descriptor_cb, Some(ServerCallback::GsRequestReadDescriptorCb));
    assert_eq!(
        table.request_write_characteristic_cb,
        Some(ServerCallback::GsRequestWriteCharacteristicCb)
    );
    assert_eq!(
        table.request_write_descriptor_cb,
        Some(ServerCallback::GsRequestWriteDescriptorCb)
    );
    assert_eq!(table.request_exec_write_cb, Some(ServerCallback::GsRequestExecWriteCb));
    assert_eq!(table.response_confirmation_cb, Some(ServerCallback::GsResponseConfirmationCb));
    assert_eq!(table.indication_sent_cb, Some(ServerCallback::GsIndicationSentCb));
    assert_eq!(table.congestion_cb, Some(ServerCallback::GsCongestionCb));
    assert_eq!(table.mtu_changed_cb, Some(ServerCallback::GsMtuChangedCb));
    assert_eq!(table.phy_updated_cb, Some(ServerCallback::GsPhyUpdatedCb));
    assert_eq!(table.conn_updated_cb, Some(ServerCallback::GsConnUpdatedCb));
}

#[test]
fn scanner_table_leaves_every_entry_unset() {
    let table = BtGattScannerCallbacks::populated();
    assert_eq!(table.scan_result_cb, None);
    assert_eq!(table.batchscan_reports_cb, None);
    assert_eq!(table.batchscan_threshold_cb, None);
    assert_eq!(table.track_adv_event_cb, None);
}

#[test]
fn top_level_table_states_its_size() {
    let table = BtGattCallbacks::populated();
    assert_eq!(GATT_CALLBACKS_SIZE, 32);
    assert_eq!(table.size, 32);
    assert_eq!(table.client, BtGattClientCallbacks::populated());
    assert_eq!(table.server, BtGattServerCallbacks::populated());
    assert_eq!(table.scanner, BtGattScannerCallbacks::populated());
}

#[test]
fn scanner_facade_registers_on_the_bridged_object() {
    let table = GattInterfaceTable {
        client: InterfaceHandle::from_token(1),
        server: InterfaceHandle::from_token(2),
        scanner: InterfaceHandle::from_token(3),
        advertiser: InterfaceHandle::from_token(5),
    };
    let mut scanner = BleScanner::new(&table, InterfaceHandle::from_token(4));
    let request = scanner.register_callbacks();
    assert_eq!(request.interface, InterfaceHandle::from_token(4));
    assert_eq!(request.call, BleScannerCall::RegisterCallbacks);
}
