//! Result and error codes shared by every operation of the SDK.

use vstd::prelude::*;

verus! {

/// Outcome of an SDK operation, carried both as a synchronous return status
/// and inside asynchronous `Error` responses.
#[derive(Debug, Clone, Copy, PartialEq, Eq, Structural)]
pub enum NetResultStatus {
    OK,
    InvalidUrl,
    TlsError,
    ConnectionError,
    TorNetError,
    SocketError,
    Http2ConnectionFailed,
    InvalidRequestParameters,
    InvalidConfigParameters,
    TransportNotFound,
    RequestTimeout,
    InvalidTorConfig,
    TorInitializationFailed,
    TorClientNotInitialized,
    InternalError,
    InstanceDoesNotExist,
}

/// The numeric code a host sees for each status.
pub open spec fn status_code(s: NetResultStatus) -> u8 {
    match s {
        NetResultStatus::OK => 100,
        NetResultStatus::InvalidUrl => 1,
        NetResultStatus::TlsError => 2,
        NetResultStatus::ConnectionError => 3,
        NetResultStatus::TorNetError => 4,
        NetResultStatus::SocketError => 10,
        NetResultStatus::Http2ConnectionFailed => 13,
        NetResultStatus::InvalidRequestParameters => 15,
        NetResultStatus::InvalidConfigParameters => 16,
        NetResultStatus::TransportNotFound => 17,
        NetResultStatus::RequestTimeout => 22,
        NetResultStatus::InvalidTorConfig => 23,
        NetResultStatus::TorInitializationFailed => 24,
        NetResultStatus::TorClientNotInitialized => 26,
        NetResultStatus::InternalError => 27,
        NetResultStatus::InstanceDoesNotExist => 28,
    }
}

impl NetResultStatus {
    /// Numeric status code handed across the host boundary.
    pub fn code(&self) -> (r: u8)
        ensures
            r == status_code(*self),
    {
        match self {
            NetResultStatus::OK => 100,
            NetResultStatus::InvalidUrl => 1,
            NetResultStatus::TlsError => 2,
            NetResultStatus::ConnectionError => 3,
            NetResultStatus::TorNetError => 4,
            NetResultStatus::SocketError => 10,
            NetResultStatus::Http2ConnectionFailed => 13,
            NetResultStatus::InvalidRequestParameters => 15,
            NetResultStatus::InvalidConfigParameters => 16,
            NetResultStatus::TransportNotFound => 17,
            NetResultStatus::RequestTimeout => 22,
            NetResultStatus::InvalidTorConfig => 23,
            NetResultStatus::TorInitializationFailed => 24,
            NetResultStatus::TorClientNotInitialized => 26,
            NetResultStatus::InternalError => 27,
            NetResultStatus::InstanceDoesNotExist => 28,
        }
    }
}

} // verus!
