//! The GATT facade and its life cycle.
//!
//! The facade is made once from what the profile lookup gave. It starts
//! out uninitialized. Initializing it binds the three consumers, builds the
//! callback tables and gives the request that hands the tables to the
//! native side; while that request is under way the facade is
//! initializing. The code that the native side returns for the request
//! decides whether the facade ends up initialized or failed. Either way
//! the tables are kept from then on, because the native side keeps
//! referring to them.

use vstd::prelude::*;
use crate::advertiser::BleAdvertiser;
use crate::client::GattClient;
use crate::events::{GattClientCallbacks, GattScannerCallbacks, GattServerCallbacks};
use crate::interface::{GattProfileInterface, InterfaceHandle, Request, ReturnKind};
use crate::registry::{
    accepts_all, DispatchRegistry, EventCategory, GattClientCallbacksDispatcher,
    GattScannerCallbacksDispatcher, GattServerCallbacksDispatcher,
};
use crate::scanner::{BleScanner, BleScannerCall};
use crate::server::GattServer;
use crate::tables::BtGattCallbacks;

verus! {

/// Where the facade stands in its life cycle.
#[derive(Clone, Copy, Debug, PartialEq, Eq, Structural)]
pub enum LifecycleState {
    /// Nothing was registered or handed over yet.
    Uninitialized,
    /// The consumers are bound and the tables are built; the native side
    /// has not answered yet.
    Initializing,
    /// The native side accepted the tables.
    Initialized,
    /// The native side refused the tables. There is no way on from here.
    FailedInit,
}

/// A function of the GATT interface table itself.
#[derive(Clone, Copy, Debug, PartialEq, Eq)]
pub enum GattCall {
    /// Hands the callback tables to the native side.
    Init { callbacks: BtGattCallbacks },
}

impl GattCall {
    /// What the native function gives back: a status code.
    pub open spec fn spec_return_kind(self) -> ReturnKind {
        ReturnKind::Status
    }

    /// What the native function gives back.
    pub fn return_kind(&self) -> (kind: ReturnKind)
        ensures
            kind == self.spec_return_kind(),
    {
        ReturnKind::Status
    }
}

/// How initializing ended, and what is to be done next.
#[derive(Debug, PartialEq, Eq)]
pub struct InitOutcome {
    /// Whether the native side accepted the tables.
    pub initialized: bool,
    /// The request that makes the scanner deliver its callbacks. It goes
    /// out whether the tables were accepted or not.
    pub scanner_registration: Request<BleScannerCall>,
}

/// The state that the facade is in once the native side has returned
/// `status` for the tables: initialized for zero, failed for anything
/// else.
pub open spec fn state_after_init(status: u32) -> LifecycleState {
    if status == 0 {
        LifecycleState::Initialized
    } else {
        LifecycleState::FailedInit
    }
}

/// The states in which the callback tables exist and are kept.
pub open spec fn holds_tables(state: LifecycleState) -> bool {
    state != LifecycleState::Uninitialized
}

/// The GATT facade: the four sub-facades, the state of the life cycle, and
/// the callback tables once they are built.
pub struct Gatt {
    internal: InterfaceHandle,
    state: LifecycleState,
    client: GattClient,
    server: GattServer,
    scanner: BleScanner,
    advertiser: BleAdvertiser,
    callbacks: Option<Box<BtGattCallbacks>>,
}

impl Gatt {
    /// The GATT interface table that this facade was made from.
    pub closed spec fn table(&self) -> InterfaceHandle {
        self.internal
    }

    /// Where the facade stands in its life cycle.
    pub closed spec fn state(&self) -> LifecycleState {
        self.state
    }

    /// The client facade.
    pub closed spec fn spec_client(&self) -> GattClient {
        self.client
    }

    /// The server facade.
    pub closed spec fn spec_server(&self) -> GattServer {
        self.server
    }

    /// The scanner facade.
    pub closed spec fn spec_scanner(&self) -> BleScanner {
        self.scanner
    }

    /// The advertiser facade.
    pub closed spec fn spec_advertiser(&self) -> BleAdvertiser {
        self.advertiser
    }

    /// The callback tables that are kept, if they are built.
    pub closed spec fn callbacks(&self) -> Option<BtGattCallbacks> {
        match self.callbacks {
            Some(tables) => Some(*tables),
            None => None,
        }
    }

    /// Whether this facade has the interface table and the four
    /// sub-facades of `other`.
    pub open spec fn same_facades(&self, other: Gatt) -> bool {
        &&& self.table() == other.table()
        &&& self.spec_client() == other.spec_client()
        &&& self.spec_server() == other.spec_server()
        &&& self.spec_scanner() == other.spec_scanner()
        &&& self.spec_advertiser() == other.spec_advertiser()
    }

    /// The tables exist exactly in the states that hold them, and they are
    /// the tables as they were handed over.
    pub open spec fn wf(&self) -> bool {
        &&& self.callbacks() is Some <==> holds_tables(self.state())
        &&& self.callbacks() matches Some(tables) ==> tables == BtGattCallbacks::spec_populated()
    }

    /// Makes the facade from what the profile lookup gave. There is no
    /// facade if the lookup gave the null handle. Each of the four
    /// sub-facades refers to its own entry of the interface table.
    pub fn new(intf: &GattProfileInterface) -> (gatt: Option<Gatt>)
        ensures
            gatt is None <==> intf.raw.token() == 0,
            gatt matches Some(g) ==> {
                &&& g.wf()
                &&& g.state() == LifecycleState::Uninitialized
                &&& g.table() == intf.raw
                &&& g.spec_client().table() == intf.table.client
                &&& g.spec_client().bridge() == intf.client_intf
                &&& g.spec_server().table() == intf.table.server
                &&& g.spec_scanner().table() == intf.table.scanner
                &&& g.spec_scanner().bridge() == intf.scanner_intf
                &&& g.spec_advertiser().table() == intf.table.advertiser
            },
    {
        if intf.raw.is_null() {
            return None;
        }
        Some(
            Gatt {
                internal: intf.raw,
                state: LifecycleState::Uninitialized,
                client: GattClient::new(intf.table.client, intf.client_intf),
                server: GattServer::new(intf.table.server),
                scanner: BleScanner::new(&intf.table, intf.scanner_intf),
                advertiser: BleAdvertiser::new(intf.table.advertiser),
                callbacks: None,
            },
        )
    }

    /// Whether the native side accepted the callback tables.
    pub fn is_initialized(&self) -> (initialized: bool)
        ensures
            initialized == (self.state() == LifecycleState::Initialized),
    {
        match self.state {
            LifecycleState::Initialized => true,
            _ => false,
        }
    }

    /// The client facade.
    pub fn client(&self) -> (client: &GattClient)
        ensures
            *client == self.spec_client(),
    {
        &self.client
    }

    /// The client facade, for the calls that need it exclusively. The
    /// life cycle and the tables cannot be changed through it.
    pub fn client_mut(&mut self) -> (client: &mut GattClient)
        ensures
            *client == old(self).spec_client(),
            final(self).spec_client() == *final(client),
            final(self).state() == old(self).state(),
            final(self).callbacks() == old(self).callbacks(),
            final(self).table() == old(self).table(),
            final(self).spec_server() == old(self).spec_server(),
            final(self).spec_scanner() == old(self).spec_scanner(),
            final(self).spec_advertiser() == old(self).spec_advertiser(),
    {
        &mut self.client
    }

    /// The server facade.
    pub fn server(&self) -> (server: &GattServer)
        ensures
            *server == self.spec_server(),
    {
        &self.server
    }

    /// The scanner facade.
    pub fn scanner(&self) -> (scanner: &BleScanner)
        ensures
            *scanner == self.spec_scanner(),
    {
        &self.scanner
    }

    /// The advertiser facade.
    pub fn advertiser(&self) -> (advertiser: &BleAdvertiser)
        ensures
            *advertiser == self.spec_advertiser(),
    {
        &self.advertiser
    }

    /// Where the facade stands in its life cycle.
    pub fn lifecycle(&self) -> (state: LifecycleState)
        ensures
            state == self.state(),
    {
        self.state
    }

    /// Starts initializing: binds the three consumers in `registry`, builds
    /// the callback tables and keeps them, and gives the request that
    /// hands them to the native side. All three consumers are bound
    /// before the request exists, so no callback can arrive unbound.
    ///
    /// The facade must be uninitialized and none of the three categories
    /// may be bound.
    pub fn initialize<C, S, N>(
        &mut self,
        registry: &mut DispatchRegistry<C, S, N>,
        gatt_client_callbacks_dispatcher: GattClientCallbacksDispatcher<C>,
        gatt_server_callbacks_dispatcher: GattServerCallbacksDispatcher<S>,
        gatt_scanner_callbacks_dispatcher: GattScannerCallbacksDispatcher<N>,
    ) -> (request: Request<GattCall>) where
        C: Fn(GattClientCallbacks) + Send,
        S: Fn(GattServerCallbacks) + Send,
        N: Fn(GattScannerCallbacks) + Send,

        requires
            old(self).wf(),
            old(self).state() == LifecycleState::Uninitialized,
            !old(registry)@.is_bound(EventCategory::Client),
            !old(registry)@.is_bound(EventCategory::Server),
            !old(registry)@.is_bound(EventCategory::Scanner),
            accepts_all::<GattClientCallbacks, C>(gatt_client_callbacks_dispatcher.dispatch),
            accepts_all::<GattServerCallbacks, S>(gatt_server_callbacks_dispatcher.dispatch),
            accepts_all::<GattScannerCallbacks, N>(gatt_scanner_callbacks_dispatcher.dispatch),
        ensures
            final(self).wf(),
            final(self).state() == LifecycleState::Initializing,
            final(self).callbacks() == Some(BtGattCallbacks::spec_populated()),
                        final(self).same_facades(*old(self)),
            final(registry)@ == old(registry)@.client_registered(
                gatt_client_callbacks_dispatcher.dispatch,
            ).server_registered(gatt_server_callbacks_dispatcher.dispatch).scanner_registered(
                gatt_scanner_callbacks_dispatcher.dispatch,
            ),
            final(registry)@.all_bound(),
            final(registry)@.client.handler == Some(gatt_client_callbacks_dispatcher.dispatch),
            final(registry)@.server.handler == Some(gatt_server_callbacks_dispatcher.dispatch),
            final(registry)@.scanner.handler == Some(gatt_scanner_callbacks_dispatcher.dispatch),
            request.interface == old(self).table(),
            request.call == (GattCall::Init { callbacks: BtGattCallbacks::spec_populated() }),
    {
        let _ = registry.register_client(gatt_client_callbacks_dispatcher);
        let _ = registry.register_server(gatt_server_callbacks_dispatcher);
        let _ = registry.register_scanner(gatt_scanner_callbacks_dispatcher);

        let callbacks = BtGattCallbacks::populated();
        self.callbacks = Some(Box::new(callbacks));
        self.state = LifecycleState::Initializing;
        Request { interface: self.internal, call: GattCall::Init { callbacks } }
    }

    /// Ends initializing with the code that the native side returned for
    /// the tables: zero means that they were accepted. The tables are
    /// kept either way. The outcome carries the request that makes the
    /// scanner deliver its callbacks.
    pub fn complete_initialization(&mut self, status: u32) -> (outcome: InitOutcome)
        requires
            old(self).wf(),
            old(self).state() == LifecycleState::Initializing,
        ensures
            final(self).wf(),
            final(self).state() == state_after_init(status),
            final(self).callbacks() == old(self).callbacks(),
                        final(self).same_facades(*old(self)),
            outcome.initialized == (status == 0),
            outcome.scanner_registration.interface == old(self).spec_scanner().bridge(),
            outcome.scanner_registration.call == BleScannerCall::RegisterCallbacks,
    {
        self.state = if status == 0 {
            LifecycleState::Initialized
        } else {
            LifecycleState::FailedInit
        };
        let scanner_registration = self.scanner.register_callbacks();
        InitOutcome { initialized: status == 0, scanner_registration }
    }
}

/// Once the callback tables are built they stay: from a well-formed
/// facade that is initializing, whatever code the native side returns, the
/// facade ends in a state that holds the tables, and that state is
/// initialized exactly for the code zero.
pub proof fn lemma_tables_outlive_initialization(status: u32)
    ensures
        holds_tables(LifecycleState::Initializing),
        holds_tables(state_after_init(status)),
        state_after_init(status) == LifecycleState::Initialized <==> status == 0,
        state_after_init(status) == LifecycleState::Initialized || state_after_init(status)
            == LifecycleState::FailedInit,
{
}

} // verus!
