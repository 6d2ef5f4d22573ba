//! Marshaling and dispatch between a native, callback-driven GATT profile
//! interface and typed events.
//!
//! Every invocation that arrives from the native side is decoded into an owned
//! event and handed to the one consumer registered for its category. Every
//! call that goes out to the native side is described as a request addressed
//! to one interface table; the embedding program performs the request and
//! hands the returned code back for decoding.

pub mod address;
pub mod advertiser;
pub mod buffer;
pub mod client;
pub mod client_callbacks;
pub mod events;
pub mod gatt;
pub mod interface;
pub mod params;
pub mod registry;
pub mod scanner;
pub mod scanner_callbacks;
pub mod server;
pub mod server_callbacks;
pub mod status;
pub mod tables;
