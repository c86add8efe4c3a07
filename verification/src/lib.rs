//! Core of a multi-protocol networking SDK: the instance/transport registry,
//! the per-protocol client state machines, the streaming fan-out and decoding
//! layer, and the address/scheme/TLS-ALPN negotiation, with machine-checked
//! contracts for every function.

pub mod address;
pub mod config;
pub mod decoder;
pub mod grpc;
pub mod http;
pub mod registry;
pub mod request;
pub mod response;
pub mod socket;
pub mod stream;
pub mod tor;
pub mod status;

pub use status::NetResultStatus;
