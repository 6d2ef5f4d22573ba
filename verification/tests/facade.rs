use gatt_topshim::address::{FfiAddress, RawAddress, RustRawAddress, Uuid};
use gatt_topshim::client::{GattClient, GattClientCall};
use gatt_topshim::interface::{InterfaceHandle, Request, ReturnKind};
use gatt_topshim::params::{BtGattDbElement, BtGattResponse, BtGattTestParams, BtGattValue};
use gatt_topshim::server::{GattServer, GattServerCall};

const CLIENT_TABLE: usize = 0x1000;
const CLIENT_BRIDGE: usize = 0x2000;
const SERVER_TABLE: usize = 0x3000;

fn facade_client() -> GattClient {
    GattClient::new(InterfaceHandle::from_token(CLIENT_TABLE), InterfaceHandle::from_token(CLIENT_BRIDGE))
}

fn facade_server() -> GattServer {
    GattServer::new(InterfaceHandle::from_token(SERVER_TABLE))
}

fn facade_uuid() -> Uuid {
    Uuid { uu: [0xf0, 0xe1, 0xd2, 0xc3, 0xb4, 0xa5, 0x96, 0x87, 0x78, 0x69, 0x5a, 0x4b, 0x3c, 0x2d, 0x1e, 0x0f] }
}

fn facade_element(id: u16) -> BtGattDbElement {
    BtGattDbElement {
        id,
        uuid: facade_uuid(),
        type_: 1,
        attribute_handle: id,
        start_handle: id,
        end_handle: id + 4,
        properties: 2,
        extended_properties: 0,
        permissions: 1,
    }
}

#[test]
fn client_register_client_gives_its_request() {
    let client = facade_client();
    let request = client.register_client(&facade_uuid(), false);
    assert_eq!(
        request,
        Request {
            interface: InterfaceHandle::from_token(CLIENT_TABLE),
            call: GattClientCall::RegisterClient { uuid: facade_uuid(), eatt_support: false },
        }
    );
    assert_eq!(request.call.return_kind(), ReturnKind::Status);
}

#[test]
fn client_unregister_client_gives_its_request() {
    let client = facade_client();
    let request = client.unregister_client(-7);
    assert_eq!(
        request,
        Request {
            interface: InterfaceHandle::from_token(CLIENT_TABLE),
            call: GattClientCall::UnregisterClient { client_if: -7 },
        }
    );
    assert_eq!(request.call.return_kind(), ReturnKind::Status);
}

#[test]
fn client_connect_gives_its_request() {
    let client = facade_client();
    let addr = RawAddress { val: [0xaa, 0xbb, 0xcc, 0xdd, 0xee, 1] };
    let request = client.connect(-7, &addr, true, 59, true, 65);
    assert_eq!(
        request,
        Request {
            interface: InterfaceHandle::from_token(CLIENT_TABLE),
            call: GattClientCall::Connect { client_if: -7, addr: FfiAddress { address: [0xaa, 0xbb, 0xcc, 0xdd, 0xee, 1] }, is_direct: true, transport: 59, opportunistic: true, initiating_phys: 65 },
        }
    );
    assert_eq!(request.call.return_kind(), ReturnKind::Status);
}

#[test]
fn client_disconnect_gives_its_request() {
    let client = facade_client();
    let addr = RawAddress { val: [0xaa, 0xbb, 0xcc, 0xdd, 0xee, 1] };
    let request = client.disconnect(-7, &addr, -9);
    assert_eq!(
        request,
        Request {
            interface: InterfaceHandle::from_token(CLIENT_TABLE),
            call: GattClientCall::Disconnect { client_if: -7, addr: FfiAddress { address: [0xaa, 0xbb, 0xcc, 0xdd, 0xee, 1] }, conn_id: -9 },
        }
    );
    assert_eq!(request.call.return_kind(), ReturnKind::Status);
}

#[test]
fn client_refresh_gives_its_request() {
    let client = facade_client();
    let addr = RawAddress { val: [0xaa, 0xbb, 0xcc, 0xdd, 0xee, 1] };
    let request = client.refresh(-7, &addr);
    assert_eq!(
        request,
        Request {
            interface: InterfaceHandle::from_token(CLIENT_TABLE),
            call: GattClientCall::Refresh { client_if: -7, addr: FfiAddress { address: [0xaa, 0xbb, 0xcc, 0xdd, 0xee, 1] } },
        }
    );
    assert_eq!(request.call.return_kind(), ReturnKind::Status);
}

#[test]
fn client_search_service_gives_its_request() {
    let client = facade_client();
    let request = client.search_service(-7, Some(facade_uuid()));
    assert_eq!(
        request,
        Request {
            interface: InterfaceHandle::from_token(CLIENT_TABLE),
            call: GattClientCall::SearchService { conn_id: -7, filter_uuid: Some(facade_uuid()) },
        }
    );
    assert_eq!(request.call.return_kind(), ReturnKind::Status);
}

#[test]
fn client_btif_gattc_discover_service_by_uuid_gives_its_request() {
    let client = facade_client();
    let request = client.btif_gattc_discover_service_by_uuid(-7, &facade_uuid());
    assert_eq!(
        request,
        Request {
            interface: InterfaceHandle::from_token(CLIENT_TABLE),
            call: GattClientCall::DiscoverServiceByUuid { conn_id: -7, uuid: facade_uuid() },
        }
    );
    assert_eq!(request.call.return_kind(), ReturnKind::Nothing);
}

#[test]
fn client_read_characteristic_gives_its_request() {
    let client = facade_client();
    let request = client.read_characteristic(-7, 3001, -9);
    assert_eq!(
        request,
        Request {
            interface: InterfaceHandle::from_token(CLIENT_TABLE),
            call: GattClientCall::ReadCharacteristic { conn_id: -7, handle: 3001, auth_req: -9 },
        }
    );
    assert_eq!(request.call.return_kind(), ReturnKind::Status);
}

#[test]
fn client_read_using_characteristic_uuid_gives_its_request() {
    let client = facade_client();
    let request = client.read_using_characteristic_uuid(-7, &facade_uuid(), 3002, 3003, -11);
    assert_eq!(
        request,
        Request {
            interface: InterfaceHandle::from_token(CLIENT_TABLE),
            call: GattClientCall::ReadUsingCharacteristicUuid { conn_id: -7, uuid: facade_uuid(), s_handle: 3002, e_handle: 3003, auth_req: -11 },
        }
    );
    assert_eq!(request.call.return_kind(), ReturnKind::Status);
}

#[test]
fn client_write_characteristic_gives_its_request() {
    let client = facade_client();
    let value = vec![1u8, 2, 3, 4, 5];
    let request = client.write_characteristic(-7, 3001, -9, 59, &value);
    assert_eq!(
        request,
        Request {
            interface: InterfaceHandle::from_token(CLIENT_TABLE),
            call: GattClientCall::WriteCharacteristic { conn_id: -7, handle: 3001, write_type: -9, auth_req: 59, value: &[1, 2, 3, 4, 5] },
        }
    );
    assert_eq!(request.call.return_kind(), ReturnKind::Status);
}

#[test]
fn client_read_descriptor_gives_its_request() {
    let client = facade_client();
    let request = client.read_descriptor(-7, 3001, -9);
    assert_eq!(
        request,
        Request {
            interface: InterfaceHandle::from_token(CLIENT_TABLE),
            call: GattClientCall::ReadDescriptor { conn_id: -7, handle: 3001, auth_req: -9 },
        }
    );
    assert_eq!(request.call.return_kind(), ReturnKind::Status);
}

#[test]
fn client_write_descriptor_gives_its_request() {
    let client = facade_client();
    let value = vec![1u8, 2, 3, 4, 5];
    let request = client.write_descriptor(-7, 3001, -9, &value);
    assert_eq!(
        request,
        Request {
            interface: InterfaceHandle::from_token(CLIENT_TABLE),
            call: GattClientCall::WriteDescriptor { conn_id: -7, handle: 3001, auth_req: -9, value: &[1, 2, 3, 4, 5] },
        }
    );
    assert_eq!(request.call.return_kind(), ReturnKind::Status);
}

#[test]
fn client_execute_write_gives_its_request() {
    let client = facade_client();
    let request = client.execute_write(-7, 53);
    assert_eq!(
        request,
        Request {
            interface: InterfaceHandle::from_token(CLIENT_TABLE),
            call: GattClientCall::ExecuteWrite { conn_id: -7, execute: 53 },
        }
    );
    assert_eq!(request.call.return_kind(), ReturnKind::Status);
}

#[test]
fn client_register_for_notification_gives_its_request() {
    let client = facade_client();
    let addr = RawAddress { val: [0xaa, 0xbb, 0xcc, 0xdd, 0xee, 1] };
    let request = client.register_for_notification(-7, &addr, 3002);
    assert_eq!(
        request,
        Request {
            interface: InterfaceHandle::from_token(CLIENT_TABLE),
            call: GattClientCall::RegisterForNotification { client_if: -7, addr: FfiAddress { address: [0xaa, 0xbb, 0xcc, 0xdd, 0xee, 1] }, handle: 3002 },
        }
    );
    assert_eq!(request.call.return_kind(), ReturnKind::Status);
}

#[test]
fn client_deregister_for_notification_gives_its_request() {
    let client = facade_client();
    let addr = RawAddress { val: [0xaa, 0xbb, 0xcc, 0xdd, 0xee, 1] };
    let request = client.deregister_for_notification(-7, &addr, 3002);
    assert_eq!(
        request,
        Request {
            interface: InterfaceHandle::from_token(CLIENT_TABLE),
            call: GattClientCall::DeregisterForNotification { client_if: -7, addr: FfiAddress { address: [0xaa, 0xbb, 0xcc, 0xdd, 0xee, 1] }, handle: 3002 },
        }
    );
    assert_eq!(request.call.return_kind(), ReturnKind::Status);
}

#[test]
fn client_read_remote_rssi_gives_its_request() {
    let client = facade_client();
    let addr = RawAddress { val: [0xaa, 0xbb, 0xcc, 0xdd, 0xee, 1] };
    let request = client.read_remote_rssi(-7, &addr);
    assert_eq!(
        request,
        Request {
            interface: InterfaceHandle::from_token(CLIENT_TABLE),
            call: GattClientCall::ReadRemoteRssi { client_if: -7, addr: FfiAddress { address: [0xaa, 0xbb, 0xcc, 0xdd, 0xee, 1] } },
        }
    );
    assert_eq!(request.call.return_kind(), ReturnKind::Status);
}

#[test]
fn client_get_device_type_gives_its_request() {
    let client = facade_client();
    let addr = RawAddress { val: [0xaa, 0xbb, 0xcc, 0xdd, 0xee, 0] };
    let request = client.get_device_type(&addr);
    assert_eq!(
        request,
        Request {
            interface: InterfaceHandle::from_token(CLIENT_TABLE),
            call: GattClientCall::GetDeviceType { addr: FfiAddress { address: [0xaa, 0xbb, 0xcc, 0xdd, 0xee, 0] } },
        }
    );
    assert_eq!(request.call.return_kind(), ReturnKind::Value);
}

#[test]
fn client_configure_mtu_gives_its_request() {
    let client = facade_client();
    let request = client.configure_mtu(-7, 53);
    assert_eq!(
        request,
        Request {
            interface: InterfaceHandle::from_token(CLIENT_TABLE),
            call: GattClientCall::ConfigureMtu { conn_id: -7, mtu: 53 },
        }
    );
    assert_eq!(request.call.return_kind(), ReturnKind::Status);
}

#[test]
fn client_conn_parameter_update_gives_its_request() {
    let client = facade_client();
    let addr = RawAddress { val: [0xaa, 0xbb, 0xcc, 0xdd, 0xee, 0] };
    let request = client.conn_parameter_update(&addr, 53, -9, 59, -11, 3005, 3006);
    assert_eq!(
        request,
        Request {
            interface: InterfaceHandle::from_token(CLIENT_TABLE),
            call: GattClientCall::ConnParameterUpdate { addr: FfiAddress { address: [0xaa, 0xbb, 0xcc, 0xdd, 0xee, 0] }, min_interval: 53, max_interval: -9, latency: 59, timeout: -11, min_ce_len: 3005, max_ce_len: 3006 },
        }
    );
    assert_eq!(request.call.return_kind(), ReturnKind::Status);
}

#[test]
fn client_set_preferred_phy_gives_its_request() {
    let client = facade_client();
    let addr = RawAddress { val: [0xaa, 0xbb, 0xcc, 0xdd, 0xee, 0] };
    let request = client.set_preferred_phy(&addr, 21, 22, 3003);
    assert_eq!(
        request,
        Request {
            interface: InterfaceHandle::from_token(CLIENT_TABLE),
            call: GattClientCall::SetPreferredPhy { addr: FfiAddress { address: [0xaa, 0xbb, 0xcc, 0xdd, 0xee, 0] }, tx_phy: 21, rx_phy: 22, phy_options: 3003 },
        }
    );
    assert_eq!(request.call.return_kind(), ReturnKind::Status);
}

#[test]
fn client_read_phy_gives_its_request() {
    let mut client = facade_client();
    let bt_addr = RawAddress { val: [0xaa, 0xbb, 0xcc, 0xdd, 0xee, 1] };
    let request = client.read_phy(-7, &bt_addr);
    assert_eq!(
        request,
        Request {
            interface: InterfaceHandle::from_token(CLIENT_BRIDGE),
            call: GattClientCall::ReadPhy { client_if: -7, bt_addr: RustRawAddress { address: [0xaa, 0xbb, 0xcc, 0xdd, 0xee, 1] } },
        }
    );
    assert_eq!(request.call.return_kind(), ReturnKind::Status);
}

#[test]
fn client_test_command_gives_its_request() {
    let client = facade_client();
    let params = BtGattTestParams { bda1: Some(RawAddress { val: [1, 2, 3, 4, 5, 6] }), uuid1: None, u1: 1, u2: 2, u3: 3, u4: 4, u5: 5 };
    let request = client.test_command(-7, &params);
    assert_eq!(
        request,
        Request {
            interface: InterfaceHandle::from_token(CLIENT_TABLE),
            call: GattClientCall::TestCommand { command: -7, params: &params },
        }
    );
    assert_eq!(request.call.return_kind(), ReturnKind::Status);
}

#[test]
fn client_get_gatt_db_gives_its_request() {
    let client = facade_client();
    let request = client.get_gatt_db(-7);
    assert_eq!(
        request,
        Request {
            interface: InterfaceHandle::from_token(CLIENT_TABLE),
            call: GattClientCall::GetGattDb { conn_id: -7 },
        }
    );
    assert_eq!(request.call.return_kind(), ReturnKind::Status);
}

#[test]
fn server_register_server_gives_its_request() {
    let server = facade_server();
    let request = server.register_server(&facade_uuid(), false);
    assert_eq!(
        request,
        Request {
            interface: InterfaceHandle::from_token(SERVER_TABLE),
            call: GattServerCall::RegisterServer { uuid: facade_uuid(), eatt_support: false },
        }
    );
    assert_eq!(request.call.return_kind(), ReturnKind::Status);
}

#[test]
fn server_unregister_server_gives_its_request() {
    let server = facade_server();
    let request = server.unregister_server(-7);
    assert_eq!(
        request,
        Request {
            interface: InterfaceHandle::from_token(SERVER_TABLE),
            call: GattServerCall::UnregisterServer { server_if: -7 },
        }
    );
    assert_eq!(request.call.return_kind(), ReturnKind::Status);
}

#[test]
fn server_connect_gives_its_request() {
    let server = facade_server();
    let addr = RawAddress { val: [0xaa, 0xbb, 0xcc, 0xdd, 0xee, 1] };
    let request = server.connect(-7, &addr, true, 59);
    assert_eq!(
        request,
        Request {
            interface: InterfaceHandle::from_token(SERVER_TABLE),
            call: GattServerCall::Connect { server_if: -7, addr: FfiAddress { address: [0xaa, 0xbb, 0xcc, 0xdd, 0xee, 1] }, is_direct: true, transport: 59 },
        }
    );
    assert_eq!(request.call.return_kind(), ReturnKind::Status);
}

#[test]
fn server_disconnect_gives_its_request() {
    let server = facade_server();
    let addr = RawAddress { val: [0xaa, 0xbb, 0xcc, 0xdd, 0xee, 1] };
    let request = server.disconnect(-7, &addr, -9);
    assert_eq!(
        request,
        Request {
            interface: InterfaceHandle::from_token(SERVER_TABLE),
            call: GattServerCall::Disconnect { server_if: -7, addr: FfiAddress { address: [0xaa, 0xbb, 0xcc, 0xdd, 0xee, 1] }, conn_id: -9 },
        }
    );
    assert_eq!(request.call.return_kind(), ReturnKind::Status);
}

#[test]
fn server_add_service_gives_its_request() {
    let server = facade_server();
    let service = vec![facade_element(1), facade_element(2)];
    let request = server.add_service(-7, &service);
    assert_eq!(
        request,
        Request {
            interface: InterfaceHandle::from_token(SERVER_TABLE),
            call: GattServerCall::AddService { server_if: -7, service: &[facade_element(1), facade_element(2)] },
        }
    );
    assert_eq!(request.call.return_kind(), ReturnKind::Status);
}

#[test]
fn server_stop_service_gives_its_request() {
    let server = facade_server();
    let request = server.stop_service(-7, 53);
    assert_eq!(
        request,
        Request {
            interface: InterfaceHandle::from_token(SERVER_TABLE),
            call: GattServerCall::StopService { server_if: -7, service_handle: 53 },
        }
    );
    assert_eq!(request.call.return_kind(), ReturnKind::Status);
}

#[test]
fn server_delete_service_gives_its_request() {
    let server = facade_server();
    let request = server.delete_service(-7, 53);
    assert_eq!(
        request,
        Request {
            interface: InterfaceHandle::from_token(SERVER_TABLE),
            call: GattServerCall::DeleteService { server_if: -7, service_handle: 53 },
        }
    );
    assert_eq!(request.call.return_kind(), ReturnKind::Status);
}

#[test]
fn server_send_indication_gives_its_request() {
    let server = facade_server();
    let value = vec![1u8, 2, 3, 4, 5];
    let request = server.send_indication(-7, 53, -9, 59, &value);
    assert_eq!(
        request,
        Request {
            interface: InterfaceHandle::from_token(SERVER_TABLE),
            call: GattServerCall::SendIndication { server_if: -7, attribute_handle: 53, conn_id: -9, confirm: 59, value: &[1, 2, 3, 4, 5] },
        }
    );
    assert_eq!(request.call.return_kind(), ReturnKind::Status);
}

#[test]
fn server_send_response_gives_its_request() {
    let server = facade_server();
    let response = BtGattResponse::AttrValue(BtGattValue { value: vec![7, 7, 7], handle: 12, offset: 0, len: 3, auth_req: 0 });
    let request = server.send_response(-7, 53, -9, &response);
    assert_eq!(
        request,
        Request {
            interface: InterfaceHandle::from_token(SERVER_TABLE),
            call: GattServerCall::SendResponse { conn_id: -7, trans_id: 53, status: -9, response: &response },
        }
    );
    assert_eq!(request.call.return_kind(), ReturnKind::Status);
}

#[test]
fn server_set_preferred_phy_gives_its_request() {
    let server = facade_server();
    let addr = RawAddress { val: [0xaa, 0xbb, 0xcc, 0xdd, 0xee, 0] };
    let request = server.set_preferred_phy(&addr, 21, 22, 3003);
    assert_eq!(
        request,
        Request {
            interface: InterfaceHandle::from_token(SERVER_TABLE),
            call: GattServerCall::SetPreferredPhy { addr: FfiAddress { address: [0xaa, 0xbb, 0xcc, 0xdd, 0xee, 0] }, tx_phy: 21, rx_phy: 22, phy_options: 3003 },
        }
    );
    assert_eq!(request.call.return_kind(), ReturnKind::Status);
}

#[test]
fn client_search_service_without_filter_carries_none() {
    let client = facade_client();
    let request = client.search_service(9, None);
    assert_eq!(request.call, GattClientCall::SearchService { conn_id: 9, filter_uuid: None });
}

#[test]
fn client_write_characteristic_with_empty_value_carries_empty_slice() {
    let client = facade_client();
    let value: Vec<u8> = Vec::new();
    let request = client.write_characteristic(1, 2, 3, 4, &value);
    match request.call {
        GattClientCall::WriteCharacteristic { value, .. } => assert!(value.is_empty()),
        other => panic!("unexpected call {:?}", other),
    }
}

#[test]
fn server_send_response_with_handle_only() {
    let server = facade_server();
    let response = BtGattResponse::Handle(77);
    let request = server.send_response(1, 2, 0, &response);
    assert_eq!(
        request.call,
        GattServerCall::SendResponse { conn_id: 1, trans_id: 2, status: 0, response: &BtGattResponse::Handle(77) }
    );
}

#[test]
fn null_handle_is_null_and_others_are_not() {
    assert!(InterfaceHandle::null().is_null());
    assert_eq!(InterfaceHandle::null().to_token(), 0);
    assert!(InterfaceHandle::from_token(0).is_null());
    assert!(!InterfaceHandle::from_token(1).is_null());
    assert_eq!(InterfaceHandle::from_token(0xdead).to_token(), 0xdead);
    assert_eq!(InterfaceHandle::from_token(5), InterfaceHandle::from_token(5));
    assert_ne!(InterfaceHandle::from_token(5), InterfaceHandle::from_token(6));
}
