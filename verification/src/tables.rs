//! The callback tables that are handed to the native side.
//!
//! A table has one entry for each callback that the native side knows. An
//! entry is either left unset or names the callback function of this
//! library that the native side is to invoke. Once a table has been
//! handed over it is not changed any more.

use vstd::prelude::*;

verus! {

/// A callback function of the client category.
#[derive(Clone, Copy, Debug, PartialEq, Eq, Hash, Structural)]
pub enum ClientCallback {
    /// `gc_register_client_cb`, which gives the `RegisterClient` event.
    GcRegisterClientCb,
    /// `gc_open_cb`, which gives the `Connect` event.
    GcOpenCb,
    /// `gc_close_cb`, which gives the `Disconnect` event.
    GcCloseCb,
    /// `gc_search_complete_cb`, which gives the `SearchComplete` event.
    GcSearchCompleteCb,
    /// `gc_register_for_notification_cb`, which gives the `RegisterForNotification` event.
    GcRegisterForNotificationCb,
    /// `gc_notify_cb`, which gives the `Notify` event.
    GcNotifyCb,
    /// `gc_read_characteristic_cb`, which gives the `ReadCharacteristic` event.
    GcReadCharacteristicCb,
    /// `gc_write_characteristic_cb`, which gives the `WriteCharacteristic` event.
    GcWriteCharacteristicCb,
    /// `gc_read_descriptor_cb`, which gives the `ReadDescriptor` event.
    GcReadDescriptorCb,
    /// `gc_write_descriptor_cb`, which gives the `WriteDescriptor` event.
    GcWriteDescriptorCb,
    /// `gc_execute_write_cb`, which gives the `ExecuteWrite` event.
    GcExecuteWriteCb,
    /// `gc_read_remote_rssi_cb`, which gives the `ReadRemoteRssi` event.
    GcReadRemoteRssiCb,
    /// `gc_configure_mtu_cb`, which gives the `ConfigureMtu` event.
    GcConfigureMtuCb,
    /// `gc_congestion_cb`, which gives the `Congestion` event.
    GcCongestionCb,
    /// `gc_get_gatt_db_cb`, which gives the `GetGattDb` event.
    GcGetGattDbCb,
    /// `gc_phy_updated_cb`, which gives the `PhyUpdated` event.
    GcPhyUpdatedCb,
    /// `gc_conn_updated_cb`, which gives the `ConnUpdated` event.
    GcConnUpdatedCb,
    /// `gc_service_changed_cb`, which gives the `ServiceChanged` event.
    GcServiceChangedCb,
    /// `read_phy_callback`, which gives the `ReadPhy` event.
    ReadPhyCallback,
}

/// A callback function of the server category.
#[derive(Clone, Copy, Debug, PartialEq, Eq, Hash, Structural)]
pub enum ServerCallback {
    /// `gs_register_server_cb`, which gives the `RegisterServer` event.
    GsRegisterServerCb,
    /// `gs_connection_cb`, which gives the `Connection` event.
    GsConnectionCb,
    /// `gs_service_added_cb`, which gives the `ServiceAdded` event.
    GsServiceAddedCb,
    /// `gs_service_stopped_cb`, which gives the `ServiceStopped` event.
    GsServiceStoppedCb,
    /// `gs_service_deleted_cb`, which gives the `ServiceDeleted` event.
    GsServiceDeletedCb,
    /// `gs_request_read_characteristic_cb`, which gives the `RequestReadCharacteristic` event.
    GsRequestReadCharacteristicCb,
    /// `gs_request_read_descriptor_cb`, which gives the `RequestReadDescriptor` event.
    GsRequestReadDescriptorCb,
    /// `gs_request_write_characteristic_cb`, which gives the `RequestWriteCharacteristic` event.
    GsRequestWriteCharacteristicCb,
    /// `gs_request_write_descriptor_cb`, which gives the `RequestWriteDescriptor` event.
    GsRequestWriteDescriptorCb,
    /// `gs_request_exec_write_cb`, which gives the `RequestExecWrite` event.
    GsRequestExecWriteCb,
    /// `gs_response_confirmation_cb`, which gives the `ResponseConfirmation` event.
    GsResponseConfirmationCb,
    /// `gs_indication_sent_cb`, which gives the `IndicationSent` event.
    GsIndicationSentCb,
    /// `gs_congestion_cb`, which gives the `Congestion` event.
    GsCongestionCb,
    /// `gs_mtu_changed_cb`, which gives the `MtuChanged` event.
    GsMtuChangedCb,
    /// `gs_phy_updated_cb`, which gives the `PhyUpdated` event.
    GsPhyUpdatedCb,
    /// `gs_conn_updated_cb`, which gives the `ConnUpdated` event.
    GsConnUpdatedCb,
}

/// A callback function of the scanner category.
#[derive(Clone, Copy, Debug, PartialEq, Eq, Hash, Structural)]
pub enum ScannerCallback {
    /// `gdscan_on_scanner_registered`, which gives the `OnScannerRegistered` event.
    GdscanOnScannerRegistered,
    /// `gdscan_on_set_scanner_parameter_complete`, which gives the `OnSetScannerParameterComplete` event.
    GdscanOnSetScannerParameterComplete,
    /// `gdscan_on_scan_result`, which gives the `OnScanResult` event.
    GdscanOnScanResult,
    /// `gdscan_on_track_adv_found_lost`, which gives the `OnTrackAdvFoundLost` event.
    GdscanOnTrackAdvFoundLost,
    /// `gdscan_on_batch_scan_reports`, which gives the `OnBatchScanReports` event.
    GdscanOnBatchScanReports,
    /// `gdscan_on_batch_scan_threshold_crossed`, which gives the `OnBatchScanThresholdCrossed` event.
    GdscanOnBatchScanThresholdCrossed,
}

/// The table of the client callbacks.
#[derive(Clone, Copy, Debug, PartialEq, Eq)]
pub struct BtGattClientCallbacks {
    pub register_client_cb: Option<ClientCallback>,
    pub open_cb: Option<ClientCallback>,
    pub close_cb: Option<ClientCallback>,
    pub search_complete_cb: Option<ClientCallback>,
    pub register_for_notification_cb: Option<ClientCallback>,
    pub notify_cb: Option<ClientCallback>,
    pub read_characteristic_cb: Option<ClientCallback>,
    pub write_characteristic_cb: Option<ClientCallback>,
    pub read_descriptor_cb: Option<ClientCallback>,
    pub write_descriptor_cb: Option<ClientCallback>,
    pub execute_write_cb: Option<ClientCallback>,
    pub read_remote_rssi_cb: Option<ClientCallback>,
    pub configure_mtu_cb: Option<ClientCallback>,
    pub congestion_cb: Option<ClientCallback>,
    pub get_gatt_db_cb: Option<ClientCallback>,
    pub phy_updated_cb: Option<ClientCallback>,
    pub conn_updated_cb: Option<ClientCallback>,
    pub service_changed_cb: Option<ClientCallback>,
    pub services_removed_cb: Option<ClientCallback>,
    pub services_added_cb: Option<ClientCallback>,
}

impl BtGattClientCallbacks {
    /// The client table as it is handed over: every entry names its callback
    /// function, but for the two entries of added and removed services,
    /// which the native side never uses and which stay unset.
    pub open spec fn spec_populated() -> BtGattClientCallbacks {
        BtGattClientCallbacks {
            register_client_cb: Some(ClientCallback::GcRegisterClientCb),
            open_cb: Some(ClientCallback::GcOpenCb),
            close_cb: Some(ClientCallback::GcCloseCb),
            search_complete_cb: Some(ClientCallback::GcSearchCompleteCb),
            register_for_notification_cb: Some(ClientCallback::GcRegisterForNotificationCb),
            notify_cb: Some(ClientCallback::GcNotifyCb),
            read_characteristic_cb: Some(ClientCallback::GcReadCharacteristicCb),
            write_characteristic_cb: Some(ClientCallback::GcWriteCharacteristicCb),
            read_descriptor_cb: Some(ClientCallback::GcReadDescriptorCb),
            write_descriptor_cb: Some(ClientCallback::GcWriteDescriptorCb),
            execute_write_cb: Some(ClientCallback::GcExecuteWriteCb),
            read_remote_rssi_cb: Some(ClientCallback::GcReadRemoteRssiCb),
            configure_mtu_cb: Some(ClientCallback::GcConfigureMtuCb),
            congestion_cb: Some(ClientCallback::GcCongestionCb),
            get_gatt_db_cb: Some(ClientCallback::GcGetGattDbCb),
            phy_updated_cb: Some(ClientCallback::GcPhyUpdatedCb),
            conn_updated_cb: Some(ClientCallback::GcConnUpdatedCb),
            service_changed_cb: Some(ClientCallback::GcServiceChangedCb),
            services_removed_cb: None,
            services_added_cb: None,
        }
    }

    /// Builds the table as it is handed to the native side.
    pub fn populated() -> (table: BtGattClientCallbacks)
        ensures
            table == Self::spec_populated(),
    {
        BtGattClientCallbacks {
            register_client_cb: Some(ClientCallback::GcRegisterClientCb),
            open_cb: Some(ClientCallback::GcOpenCb),
            close_cb: Some(ClientCallback::GcCloseCb),
            search_complete_cb: Some(ClientCallback::GcSearchCompleteCb),
            register_for_notification_cb: Some(ClientCallback::GcRegisterForNotificationCb),
            notify_cb: Some(ClientCallback::GcNotifyCb),
            read_characteristic_cb: Some(ClientCallback::GcReadCharacteristicCb),
            write_characteristic_cb: Some(ClientCallback::GcWriteCharacteristicCb),
            read_descriptor_cb: Some(ClientCallback::GcReadDescriptorCb),
            write_descriptor_cb: Some(ClientCallback::GcWriteDescriptorCb),
            execute_write_cb: Some(ClientCallback::GcExecuteWriteCb),
            read_remote_rssi_cb: Some(ClientCallback::GcReadRemoteRssiCb),
            configure_mtu_cb: Some(ClientCallback::GcConfigureMtuCb),
            congestion_cb: Some(ClientCallback::GcCongestionCb),
            get_gatt_db_cb: Some(ClientCallback::GcGetGattDbCb),
            phy_updated_cb: Some(ClientCallback::GcPhyUpdatedCb),
            conn_updated_cb: Some(ClientCallback::GcConnUpdatedCb),
            service_changed_cb: Some(ClientCallback::GcServiceChangedCb),
            services_removed_cb: None,
            services_added_cb: None,
        }
    }
}

/// The table of the server callbacks.
#[derive(Clone, Copy, Debug, PartialEq, Eq)]
pub struct BtGattServerCallbacks {
    pub register_server_cb: Option<ServerCallback>,
    pub connection_cb: Option<ServerCallback>,
    pub service_added_cb: Option<ServerCallback>,
    pub service_stopped_cb: Option<ServerCallback>,
    pub service_deleted_cb: Option<ServerCallback>,
    pub request_read_characteristic_cb: Option<ServerCallback>,
    pub request_read_descriptor_cb: Option<ServerCallback>,
    pub request_write_characteristic_cb: Option<ServerCallback>,
    pub request_write_descriptor_cb: Option<ServerCallback>,
    pub request_exec_write_cb: Option<ServerCallback>,
    pub response_confirmation_cb: Option<ServerCallback>,
    pub indication_sent_cb: Option<ServerCallback>,
    pub congestion_cb: Option<ServerCallback>,
    pub mtu_changed_cb: Option<ServerCallback>,
    pub phy_updated_cb: Option<ServerCallback>,
    pub conn_updated_cb: Option<ServerCallback>,
}

impl BtGattServerCallbacks {
    /// The server table as it is handed over: every entry names its callback
    /// function.
    pub open spec fn spec_populated() -> BtGattServerCallbacks {
        BtGattServerCallbacks {
            register_server_cb: Some(ServerCallback::GsRegisterServerCb),
            connection_cb: Some(ServerCallback::GsConnectionCb),
            service_added_cb: Some(ServerCallback::GsServiceAddedCb),
            service_stopped_cb: Some(ServerCallback::GsServiceStoppedCb),
            service_deleted_cb: Some(ServerCallback::GsServiceDeletedCb),
            request_read_characteristic_cb: Some(ServerCallback::GsRequestReadCharacteristicCb),
            request_read_descriptor_cb: Some(ServerCallback::GsRequestReadDescriptorCb),
            request_write_characteristic_cb: Some(ServerCallback::GsRequestWriteCharacteristicCb),
            request_write_descriptor_cb: Some(ServerCallback::GsRequestWriteDescriptorCb),
            request_exec_write_cb: Some(ServerCallback::GsRequestExecWriteCb),
            response_confirmation_cb: Some(ServerCallback::GsResponseConfirmationCb),
            indication_sent_cb: Some(ServerCallback::GsIndicationSentCb),
            congestion_cb: Some(ServerCallback::GsCongestionCb),
            mtu_changed_cb: Some(ServerCallback::GsMtuChangedCb),
            phy_updated_cb: Some(ServerCallback::GsPhyUpdatedCb),
            conn_updated_cb: Some(ServerCallback::GsConnUpdatedCb),
        }
    }

    /// Builds the table as it is handed to the native side.
    pub fn populated() -> (table: BtGattServerCallbacks)
        ensures
            table == Self::spec_populated(),
    {
        BtGattServerCallbacks {
            register_server_cb: Some(ServerCallback::GsRegisterServerCb),
            connection_cb: Some(ServerCallback::GsConnectionCb),
            service_added_cb: Some(ServerCallback::GsServiceAddedCb),
            service_stopped_cb: Some(ServerCallback::GsServiceStoppedCb),
            service_deleted_cb: Some(ServerCallback::GsServiceDeletedCb),
            request_read_characteristic_cb: Some(ServerCallback::GsRequestReadCharacteristicCb),
            request_read_descriptor_cb: Some(ServerCallback::GsRequestReadDescriptorCb),
            request_write_characteristic_cb: Some(ServerCallback::GsRequestWriteCharacteristicCb),
            request_write_descriptor_cb: Some(ServerCallback::GsRequestWriteDescriptorCb),
            request_exec_write_cb: Some(ServerCallback::GsRequestExecWriteCb),
            response_confirmation_cb: Some(ServerCallback::GsResponseConfirmationCb),
            indication_sent_cb: Some(ServerCallback::GsIndicationSentCb),
            congestion_cb: Some(ServerCallback::GsCongestionCb),
            mtu_changed_cb: Some(ServerCallback::GsMtuChangedCb),
            phy_updated_cb: Some(ServerCallback::GsPhyUpdatedCb),
            conn_updated_cb: Some(ServerCallback::GsConnUpdatedCb),
        }
    }
}

/// The table of the scanner callbacks.
#[derive(Clone, Copy, Debug, PartialEq, Eq)]
pub struct BtGattScannerCallbacks {
    pub scan_result_cb: Option<ScannerCallback>,
    pub batchscan_reports_cb: Option<ScannerCallback>,
    pub batchscan_threshold_cb: Option<ScannerCallback>,
    pub track_adv_event_cb: Option<ScannerCallback>,
}

impl BtGattScannerCallbacks {
    /// The scanner table as it is handed over: every entry is unset. The
    /// scanner callbacks are delivered through the bridged scanner object
    /// instead.
    pub open spec fn spec_populated() -> BtGattScannerCallbacks {
        BtGattScannerCallbacks {
            scan_result_cb: None,
            batchscan_reports_cb: None,
            batchscan_threshold_cb: None,
            track_adv_event_cb: None,
        }
    }

    /// Builds the table as it is handed to the native side.
    pub fn populated() -> (table: BtGattScannerCallbacks)
        ensures
            table == Self::spec_populated(),
    {
        BtGattScannerCallbacks {
            scan_result_cb: None,
            batchscan_reports_cb: None,
            batchscan_threshold_cb: None,
            track_adv_event_cb: None,
        }
    }
}

/// The size that the top-level table states of itself: four entries of
/// eight bytes.
pub const GATT_CALLBACKS_SIZE: usize = 4 * 8;

/// The top-level table, with the tables of the three categories.
#[derive(Clone, Copy, Debug, PartialEq, Eq)]
pub struct BtGattCallbacks {
    pub size: usize,
    pub client: BtGattClientCallbacks,
    pub server: BtGattServerCallbacks,
    pub scanner: BtGattScannerCallbacks,
}

impl BtGattCallbacks {
    /// The top-level table as it is handed over.
    pub open spec fn spec_populated() -> BtGattCallbacks {
        BtGattCallbacks {
            size: GATT_CALLBACKS_SIZE,
            client: BtGattClientCallbacks::spec_populated(),
            server: BtGattServerCallbacks::spec_populated(),
            scanner: BtGattScannerCallbacks::spec_populated(),
        }
    }

    /// Builds the top-level table as it is handed to the native side.
    pub fn populated() -> (table: BtGattCallbacks)
        ensures
            table == Self::spec_populated(),
    {
        BtGattCallbacks {
            size: GATT_CALLBACKS_SIZE,
            client: BtGattClientCallbacks::populated(),
            server: BtGattServerCallbacks::populated(),
            scanner: BtGattScannerCallbacks::populated(),
        }
    }
}

} // verus!
