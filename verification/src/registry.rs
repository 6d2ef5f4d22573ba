//! The dispatch registry: for each category of events, the one consumer
//! that receives them.
//!
//! A category is bound at most once. An attempt to bind it again fails and
//! leaves the first consumer in place. An event is handed to the consumer
//! synchronously, on the caller's thread, in the order of the calls.

use vstd::prelude::*;
use crate::events::{
    GattClientCallbacks, GattClientEvent, GattScannerCallbacks, GattScannerEvent,
    GattServerCallbacks, GattServerEvent,
};

verus! {

/// One group of callbacks of the native side, with a consumer of its own.
#[derive(Clone, Copy, Debug, PartialEq, Eq, Hash, Structural)]
pub enum EventCategory {
    Client,
    Server,
    Scanner,
}

/// Why a registration was refused.
#[derive(Clone, Copy, Debug, PartialEq, Eq, Structural)]
pub enum RegistryError {
    /// The category has a consumer already; that consumer stays.
    AlreadyRegistered(EventCategory),
}

/// The consumer of the client events.
pub struct GattClientCallbacksDispatcher<F: Fn(GattClientCallbacks) + Send> {
    pub dispatch: F,
}

/// The consumer of the server events.
pub struct GattServerCallbacksDispatcher<F: Fn(GattServerCallbacks) + Send> {
    pub dispatch: F,
}

/// The consumer of the scanner events.
pub struct GattScannerCallbacksDispatcher<F: Fn(GattScannerCallbacks) + Send> {
    pub dispatch: F,
}

/// Whether a handler may be called with every event of its category.
pub open spec fn accepts_all<E, F: Fn(E)>(handler: F) -> bool {
    forall|e: E| call_requires(handler, (e,))
}

/// Whether a call of the handler with an event of this content has
/// returned.
pub open spec fn handed<E: View, F: Fn(E)>(handler: F, content: E::V) -> bool {
    exists|e: E| e@ == content && call_ensures(handler, (e,), ())
}

/// What one entry of the registry holds: the handler that is bound, if any,
/// and the contents of the events handed to it so far, oldest first.
pub ghost struct SlotView<F, V> {
    pub handler: Option<F>,
    pub delivered: Seq<V>,
}

impl<F, V> SlotView<F, V> {
    /// An entry that nothing is bound to and nothing was handed to.
    pub open spec fn empty() -> Self {
        SlotView { handler: None, delivered: Seq::empty() }
    }

    /// Whether a handler is bound.
    pub open spec fn is_bound(self) -> bool {
        self.handler is Some
    }

    /// The entry after an attempt to bind `handler`: bound to it if the
    /// entry was free, unchanged if it was not.
    pub open spec fn registered(self, handler: F) -> Self {
        if self.is_bound() {
            self
        } else {
            SlotView { handler: Some(handler), ..self }
        }
    }

    /// The entry after an event of this content was handed to its handler.
    pub open spec fn dispatched(self, content: V) -> Self {
        SlotView { delivered: self.delivered.push(content), ..self }
    }
}

/// A first registration binds the handler, whatever entry one starts from,
/// a second one is refused: the entry is bound after the first attempt,
/// and the second attempt changes nothing, so the handler that was bound
/// stays bound.
pub proof fn lemma_second_registration_changes_nothing<F, V>(
    slot: SlotView<F, V>,
    first: F,
    second: F,
)
    ensures
        slot.registered(first).is_bound(),
        slot.registered(first).registered(second) == slot.registered(first),
        !slot.is_bound() ==> slot.registered(first).registered(second).handler == Some(first),
{
}

/// Handing over an event changes neither the binding nor what a later
/// registration does: a bound entry stays bound to the same handler.
pub proof fn lemma_dispatch_keeps_binding<F, V>(slot: SlotView<F, V>, content: V, other: F)
    ensures
        slot.dispatched(content).handler == slot.handler,
        slot.is_bound() ==> slot.dispatched(content).registered(other) == slot.dispatched(content),
{
}

/// Two events handed over one after the other are seen in that order: the
/// first stands directly before the second, after everything seen before.
pub proof fn lemma_dispatch_order<F, V>(slot: SlotView<F, V>, a: V, b: V)
    ensures
        slot.dispatched(a).dispatched(b).delivered == slot.delivered + seq![a, b],
        slot.dispatched(a).dispatched(b).delivered.len() == slot.delivered.len() + 2,
        slot.dispatched(a).dispatched(b).delivered[slot.delivered.len() as int] == a,
        slot.dispatched(a).dispatched(b).delivered[slot.delivered.len() as int + 1] == b,
        forall|i: int|
            0 <= i < slot.delivered.len() ==> slot.dispatched(a).dispatched(b).delivered[i]
                == slot.delivered[i],
{
    assert(slot.delivered.push(a).push(b) =~= slot.delivered + seq![a, b]);
}

/// One entry of the registry, for events of type `E` and a handler of type
/// `F`.
pub struct DispatchSlot<E: View, F: Fn(E) + Send> {
    handler: Option<F>,
    delivered: Ghost<Seq<E::V>>,
}

impl<E: View, F: Fn(E) + Send> View for DispatchSlot<E, F> {
    type V = SlotView<F, E::V>;

    closed spec fn view(&self) -> SlotView<F, E::V> {
        SlotView { handler: self.handler, delivered: self.delivered@ }
    }
}

impl<E: View, F: Fn(E) + Send> DispatchSlot<E, F> {
    #[verifier::type_invariant]
    spec fn callable(self) -> bool {
        self.handler matches Some(h) ==> accepts_all::<E, F>(h)
    }

    /// An entry with no handler.
    pub fn new() -> (slot: Self)
        ensures
            slot@ == SlotView::<F, E::V>::empty(),
    {
        DispatchSlot { handler: None, delivered: Ghost(Seq::empty()) }
    }

    /// Whether a handler is bound.
    pub fn is_registered(&self) -> (bound: bool)
        ensures
            bound == self@.is_bound(),
    {
        self.handler.is_some()
    }

    /// Binds `handler` if the entry is free. If it is not, the call fails
    /// and the handler that is bound stays.
    pub fn register(&mut self, handler: F) -> (accepted: bool)
        requires
            accepts_all::<E, F>(handler),
        ensures
            accepted == !old(self)@.is_bound(),
            final(self)@ == old(self)@.registered(handler),
    {
        if self.handler.is_some() {
            false
        } else {
            self.handler = Some(handler);
            true
        }
    }

    /// Calls the bound handler with `event` and returns when the handler
    /// has returned.
    pub fn dispatch(&mut self, event: E)
        requires
            old(self)@.is_bound(),
        ensures
            final(self)@ == old(self)@.dispatched(event@),
            call_ensures(old(self)@.handler->0, (event,), ()),
            handed::<E, F>(old(self)@.handler->0, event@),
    {
        proof {
            use_type_invariant(&*self);
        }
        let ghost content = event@;
        match &self.handler {
            Some(handler) => {
                handler(event);
            },
            None => {},
        }
        self.delivered = Ghost(self.delivered@.push(content));
    }
}

/// What the registry holds: one entry for each category.
pub ghost struct RegistryView<C, S, N> {
    pub client: SlotView<C, GattClientEvent>,
    pub server: SlotView<S, GattServerEvent>,
    pub scanner: SlotView<N, GattScannerEvent>,
}

impl<C, S, N> RegistryView<C, S, N> {
    /// A registry in which no category is bound.
    pub open spec fn empty() -> Self {
        RegistryView {
            client: SlotView::empty(),
            server: SlotView::empty(),
            scanner: SlotView::empty(),
        }
    }

    /// Whether the category has a consumer.
    pub open spec fn is_bound(self, category: EventCategory) -> bool {
        match category {
            EventCategory::Client => self.client.is_bound(),
            EventCategory::Server => self.server.is_bound(),
            EventCategory::Scanner => self.scanner.is_bound(),
        }
    }

    /// Whether every category has a consumer.
    pub open spec fn all_bound(self) -> bool {
        self.client.is_bound() && self.server.is_bound() && self.scanner.is_bound()
    }

    /// The registry after an attempt to bind the client category.
    pub open spec fn client_registered(self, handler: C) -> Self {
        RegistryView { client: self.client.registered(handler), ..self }
    }

    /// The registry after an attempt to bind the server category.
    pub open spec fn server_registered(self, handler: S) -> Self {
        RegistryView { server: self.server.registered(handler), ..self }
    }

    /// The registry after an attempt to bind the scanner category.
    pub open spec fn scanner_registered(self, handler: N) -> Self {
        RegistryView { scanner: self.scanner.registered(handler), ..self }
    }

    /// The registry after a client event of this content was handed over.
    pub open spec fn client_dispatched(self, content: GattClientEvent) -> Self {
        RegistryView { client: self.client.dispatched(content), ..self }
    }

    /// The registry after a server event of this content was handed over.
    pub open spec fn server_dispatched(self, content: GattServerEvent) -> Self {
        RegistryView { server: self.server.dispatched(content), ..self }
    }

    /// The registry after a scanner event of this content was handed over.
    pub open spec fn scanner_dispatched(self, content: GattScannerEvent) -> Self {
        RegistryView { scanner: self.scanner.dispatched(content), ..self }
    }
}

impl<C, S, N> RegistryView<C, S, N> where
    C: Fn(GattClientCallbacks),
    S: Fn(GattServerCallbacks),
    N: Fn(GattScannerCallbacks),
 {
    /// Whether `after` is this registry once the consumer of the client
    /// events was called with an event of this content and has returned.
    pub open spec fn client_received(self, after: Self, content: GattClientEvent) -> bool {
        &&& after == self.client_dispatched(content)
        &&& handed::<GattClientCallbacks, C>(self.client.handler->0, content)
    }

    /// Whether `after` is this registry once the consumer of the server
    /// events was called with an event of this content and has returned.
    pub open spec fn server_received(self, after: Self, content: GattServerEvent) -> bool {
        &&& after == self.server_dispatched(content)
        &&& handed::<GattServerCallbacks, S>(self.server.handler->0, content)
    }

    /// Whether `after` is this registry once the consumer of the scanner
    /// events was called with an event of this content and has returned.
    pub open spec fn scanner_received(self, after: Self, content: GattScannerEvent) -> bool {
        &&& after == self.scanner_dispatched(content)
        &&& handed::<GattScannerCallbacks, N>(self.scanner.handler->0, content)
    }
}

/// In every category a second registration is refused and leaves the
/// whole registry as it was after the first, so the handler of the first
/// stays bound; and a registration in one category does not bind another.
pub proof fn lemma_registry_binds_once<C, S, N>(
    registry: RegistryView<C, S, N>,
    first_client: C,
    second_client: C,
    first_server: S,
    second_server: S,
    first_scanner: N,
    second_scanner: N,
)
    ensures
        registry.client_registered(first_client).is_bound(EventCategory::Client),
        registry.client_registered(first_client).client_registered(second_client)
            == registry.client_registered(first_client),
        !registry.is_bound(EventCategory::Client) ==> registry.client_registered(
            first_client,
        ).client_registered(second_client).client.handler == Some(first_client),
        registry.server_registered(first_server).is_bound(EventCategory::Server),
        registry.server_registered(first_server).server_registered(second_server)
            == registry.server_registered(first_server),
        !registry.is_bound(EventCategory::Server) ==> registry.server_registered(
            first_server,
        ).server_registered(second_server).server.handler == Some(first_server),
        registry.scanner_registered(first_scanner).is_bound(EventCategory::Scanner),
        registry.scanner_registered(first_scanner).scanner_registered(second_scanner)
            == registry.scanner_registered(first_scanner),
        !registry.is_bound(EventCategory::Scanner) ==> registry.scanner_registered(
            first_scanner,
        ).scanner_registered(second_scanner).scanner.handler == Some(first_scanner),
        registry.client_registered(first_client).server == registry.server,
        registry.client_registered(first_client).scanner == registry.scanner,
        registry.server_registered(first_server).client == registry.client,
        registry.server_registered(first_server).scanner == registry.scanner,
        registry.scanner_registered(first_scanner).client == registry.client,
        registry.scanner_registered(first_scanner).server == registry.server,
{
}

/// Two client events handed over one after the other are seen by the
/// consumer of the client events in that order, after all it has seen
/// before, and the other categories see nothing of them. The same holds
/// of the server and of the scanner events.
pub proof fn lemma_registry_keeps_order<C, S, N>(
    registry: RegistryView<C, S, N>,
    first_client: GattClientEvent,
    second_client: GattClientEvent,
    first_server: GattServerEvent,
    second_server: GattServerEvent,
    first_scanner: GattScannerEvent,
    second_scanner: GattScannerEvent,
)
    ensures
        registry.client_dispatched(first_client).client_dispatched(second_client)
            == (RegistryView {
            client: SlotView {
                delivered: registry.client.delivered + seq![first_client, second_client],
                ..registry.client
            },
            ..registry
        }),
        registry.server_dispatched(first_server).server_dispatched(second_server)
            == (RegistryView {
            server: SlotView {
                delivered: registry.server.delivered + seq![first_server, second_server],
                ..registry.server
            },
            ..registry
        }),
        registry.scanner_dispatched(first_scanner).scanner_dispatched(second_scanner)
            == (RegistryView {
            scanner: SlotView {
                delivered: registry.scanner.delivered + seq![first_scanner, second_scanner],
                ..registry.scanner
            },
            ..registry
        }),
{
    lemma_dispatch_order(registry.client, first_client, second_client);
    lemma_dispatch_order(registry.server, first_server, second_server);
    lemma_dispatch_order(registry.scanner, first_scanner, second_scanner);
}

/// A category that is bound stays bound, to the same handler, whatever is
/// registered or handed over afterwards: once all three are bound, no
/// callback can ever find its category unbound.
pub proof fn lemma_bound_stays_bound<C, S, N>(
    registry: RegistryView<C, S, N>,
    category: EventCategory,
    client: C,
    server: S,
    scanner: N,
    client_event: GattClientEvent,
    server_event: GattServerEvent,
    scanner_event: GattScannerEvent,
)
    requires
        registry.is_bound(category),
    ensures
        registry.client_registered(client).is_bound(category),
        registry.server_registered(server).is_bound(category),
        registry.scanner_registered(scanner).is_bound(category),
        registry.client_dispatched(client_event).is_bound(category),
        registry.server_dispatched(server_event).is_bound(category),
        registry.scanner_dispatched(scanner_event).is_bound(category),
        registry.client.is_bound() ==> {
            &&& registry.client_registered(client).client.handler == registry.client.handler
            &&& registry.client_dispatched(client_event).client.handler == registry.client.handler
        },
        registry.server.is_bound() ==> {
            &&& registry.server_registered(server).server.handler == registry.server.handler
            &&& registry.server_dispatched(server_event).server.handler == registry.server.handler
        },
        registry.scanner.is_bound() ==> {
            &&& registry.scanner_registered(scanner).scanner.handler == registry.scanner.handler
            &&& registry.scanner_dispatched(scanner_event).scanner.handler
                == registry.scanner.handler
        },
{
}

/// The registry of the three consumers.
pub struct DispatchRegistry<C, S, N> where
    C: Fn(GattClientCallbacks) + Send,
    S: Fn(GattServerCallbacks) + Send,
    N: Fn(GattScannerCallbacks) + Send,
 {
    client: DispatchSlot<GattClientCallbacks, C>,
    server: DispatchSlot<GattServerCallbacks, S>,
    scanner: DispatchSlot<GattScannerCallbacks, N>,
}

impl<C, S, N> View for DispatchRegistry<C, S, N> where
    C: Fn(GattClientCallbacks) + Send,
    S: Fn(GattServerCallbacks) + Send,
    N: Fn(GattScannerCallbacks) + Send,
 {
    type V = RegistryView<C, S, N>;

    closed spec fn view(&self) -> RegistryView<C, S, N> {
        RegistryView { client: self.client@, server: self.server@, scanner: self.scanner@ }
    }
}

impl<C, S, N> DispatchRegistry<C, S, N> where
    C: Fn(GattClientCallbacks) + Send,
    S: Fn(GattServerCallbacks) + Send,
    N: Fn(GattScannerCallbacks) + Send,
 {
    /// A registry in which no category is bound.
    pub fn new() -> (registry: Self)
        ensures
            registry@ == RegistryView::<C, S, N>::empty(),
    {
        DispatchRegistry {
            client: DispatchSlot::new(),
            server: DispatchSlot::new(),
            scanner: DispatchSlot::new(),
        }
    }

    /// Whether the category has a consumer.
    pub fn is_registered(&self, category: EventCategory) -> (bound: bool)
        ensures
            bound == self@.is_bound(category),
    {
        match category {
            EventCategory::Client => self.client.is_registered(),
            EventCategory::Server => self.server.is_registered(),
            EventCategory::Scanner => self.scanner.is_registered(),
        }
    }

    /// Binds the consumer of the client events. Fails, and changes nothing,
    /// if the category is bound already.
    pub fn register_client(&mut self, dispatcher: GattClientCallbacksDispatcher<C>) -> (outcome:
        Result<(), RegistryError>)
        requires
            accepts_all::<GattClientCallbacks, C>(dispatcher.dispatch),
        ensures
            final(self)@ == old(self)@.client_registered(dispatcher.dispatch),
            outcome is Ok <==> !old(self)@.is_bound(EventCategory::Client),
            outcome is Err ==> outcome == Err::<(), RegistryError>(
                RegistryError::AlreadyRegistered(EventCategory::Client),
            ) && final(self)@ == old(self)@,
    {
        if self.client.register(dispatcher.dispatch) {
            Ok(())
        } else {
            Err(RegistryError::AlreadyRegistered(EventCategory::Client))
        }
    }

    /// Binds the consumer of the server events. Fails, and changes nothing,
    /// if the category is bound already.
    pub fn register_server(&mut self, dispatcher: GattServerCallbacksDispatcher<S>) -> (outcome:
        Result<(), RegistryError>)
        requires
            accepts_all::<GattServerCallbacks, S>(dispatcher.dispatch),
        ensures
            final(self)@ == old(self)@.server_registered(dispatcher.dispatch),
            outcome is Ok <==> !old(self)@.is_bound(EventCategory::Server),
            outcome is Err ==> outcome == Err::<(), RegistryError>(
                RegistryError::AlreadyRegistered(EventCategory::Server),
            ) && final(self)@ == old(self)@,
    {
        if self.server.register(dispatcher.dispatch) {
            Ok(())
        } else {
            Err(RegistryError::AlreadyRegistered(EventCategory::Server))
        }
    }

    /// Binds the consumer of the scanner events. Fails, and changes
    /// nothing, if the category is bound already.
    pub fn register_scanner(&mut self, dispatcher: GattScannerCallbacksDispatcher<N>) -> (outcome:
        Result<(), RegistryError>)
        requires
            accepts_all::<GattScannerCallbacks, N>(dispatcher.dispatch),
        ensures
            final(self)@ == old(self)@.scanner_registered(dispatcher.dispatch),
            outcome is Ok <==> !old(self)@.is_bound(EventCategory::Scanner),
            outcome is Err ==> outcome == Err::<(), RegistryError>(
                RegistryError::AlreadyRegistered(EventCategory::Scanner),
            ) && final(self)@ == old(self)@,
    {
        if self.scanner.register(dispatcher.dispatch) {
            Ok(())
        } else {
            Err(RegistryError::AlreadyRegistered(EventCategory::Scanner))
        }
    }

    /// Hands a client event to the consumer of the client events and
    /// returns when the consumer has returned.
    pub fn dispatch_client(&mut self, event: GattClientCallbacks)
        requires
            old(self)@.is_bound(EventCategory::Client),
        ensures
            old(self)@.client_received(final(self)@, event@),
    {
        self.client.dispatch(event);
    }

    /// Hands a server event to the consumer of the server events and
    /// returns when the consumer has returned.
    pub fn dispatch_server(&mut self, event: GattServerCallbacks)
        requires
            old(self)@.is_bound(EventCategory::Server),
        ensures
            old(self)@.server_received(final(self)@, event@),
    {
        self.server.dispatch(event);
    }

    /// Hands a scanner event to the consumer of the scanner events and
    /// returns when the consumer has returned.
    pub fn dispatch_scanner(&mut self, event: GattScannerCallbacks)
        requires
            old(self)@.is_bound(EventCategory::Scanner),
        ensures
            old(self)@.scanner_received(final(self)@, event@),
    {
        self.scanner.dispatch(event);
    }
}

} // verus!
