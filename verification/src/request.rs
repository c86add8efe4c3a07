//! Request shapes the host hands in, and their validated assembly from
//! host-boundary parts: one tagged request per transport operation, plus the
//! process-wide Tor operations.

use vstd::prelude::*;

use crate::config::{NetHttpHeader, NetProtocol, NetTorClientConfig};
use crate::decoder::StreamEncoding;
use crate::http::NetHttpRetryConfig;
use crate::status::NetResultStatus;

verus! {

/// A gRPC unary call: the method path and the raw request bytes.
pub struct NetRequestGrpcUnary {
    pub method: String,
    pub data: Vec<u8>,
}

/// A gRPC server-streaming call: the method path and the one request message.
pub struct NetRequestGrpcStream {
    pub method: String,
    pub data: Vec<u8>,
}

/// Cancellation of one gRPC stream by its ID.
pub struct NetRequestGrpcUnsubscribe {
    pub id: i32,
}

/// One request-scoped HTTP header.
pub struct NetHttpHeaderRef {
    pub key: String,
    pub value: String,
}

/// The gRPC request family.
pub enum NetRequestGrpc {
    Unary(NetRequestGrpcUnary),
    Stream(NetRequestGrpcStream),
    Unsubscribe(NetRequestGrpcUnsubscribe),
}

/// An HTTP request: method, URL, optional body and request-scoped headers,
/// the expected response encoding, and the retry policy.
pub struct NetRequestHttp {
    pub method: String,
    pub url: String,
    pub body: Option<Vec<u8>>,
    pub headers: Option<Vec<NetHttpHeaderRef>>,
    pub encoding: StreamEncoding,
    pub retry_config: NetHttpRetryConfig,
}

/// Bytes to write on a socket transport.
pub struct NetRequestSocketSend {
    pub data: Vec<u8>,
}

/// The socket request family.
pub enum NetRequestSocket {
    Subscribe,
    Unsubscribe,
    Send(NetRequestSocketSend),
}

/// Everything a request can ask for.
pub enum NetRequestKind {
    Socket(NetRequestSocket),
    Grpc(NetRequestGrpc),
    Http(NetRequestHttp),
    InitTor(NetTorClientConfig),
    TorInited,
}

/// One request: the transport it addresses, its own ID, its timeout in
/// seconds, and what it asks for.
pub struct NetRequest {
    pub transport_id: u32,
    pub id: u32,
    pub timeout: u32,
    pub kind: NetRequestKind,
}

/// Whether a request kind may be dispatched to a transport of the given
/// protocol: HTTP requests to HTTP transports, gRPC to gRPC, socket requests
/// to WebSocket and raw-socket transports.
pub open spec fn kind_matches_protocol(kind: &NetRequestKind, protocol: NetProtocol) -> bool {
    match protocol {
        NetProtocol::Http => kind is Http,
        NetProtocol::Grpc => kind is Grpc,
        NetProtocol::WebSocket => kind is Socket,
        NetProtocol::Socket => kind is Socket,
    }
}

impl NetRequest {
    /// The HTTP request inside, or `InvalidRequestParameters`.
    pub fn to_http_request(&self) -> (r: Result<&NetRequestHttp, NetResultStatus>)
        ensures
            r is Ok <==> self.kind is Http,
            r matches Ok(h) ==> (self.kind matches NetRequestKind::Http(h2) && *h == h2),
            r matches Err(e) ==> e == NetResultStatus::InvalidRequestParameters,
    {
        match &self.kind {
            NetRequestKind::Http(http_request) => Ok(http_request),
            _ => Err(NetResultStatus::InvalidRequestParameters),
        }
    }

    /// The socket request inside, or `InvalidRequestParameters`.
    pub fn to_socket_request(&self) -> (r: Result<&NetRequestSocket, NetResultStatus>)
        ensures
            r is Ok <==> self.kind is Socket,
            r matches Ok(s) ==> (self.kind matches NetRequestKind::Socket(s2) && *s == s2),
            r matches Err(e) ==> e == NetResultStatus::InvalidRequestParameters,
    {
        match &self.kind {
            NetRequestKind::Socket(socket_request) => Ok(socket_request),
            _ => Err(NetResultStatus::InvalidRequestParameters),
        }
    }

    /// The gRPC request inside, or `InvalidRequestParameters`.
    pub fn to_grpc_request(&self) -> (r: Result<&NetRequestGrpc, NetResultStatus>)
        ensures
            r is Ok <==> self.kind is Grpc,
            r matches Ok(g) ==> (self.kind matches NetRequestKind::Grpc(g2) && *g == g2),
            r matches Err(e) ==> e == NetResultStatus::InvalidRequestParameters,
    {
        match &self.kind {
            NetRequestKind::Grpc(grpc_request) => Ok(grpc_request),
            _ => Err(NetResultStatus::InvalidRequestParameters),
        }
    }

    /// Check the request kind against a transport's protocol before
    /// dispatching to it.
    pub fn to_protocol_config(&self, protocol: NetProtocol) -> (r: Result<(), NetResultStatus>)
        ensures
            r is Ok <==> kind_matches_protocol(&self.kind, protocol),
            r matches Err(e) ==> e == NetResultStatus::InvalidRequestParameters,
    {
        let ok = match protocol {
            NetProtocol::Http => matches!(&self.kind, NetRequestKind::Http(_)),
            NetProtocol::Grpc => matches!(&self.kind, NetRequestKind::Grpc(_)),
            NetProtocol::WebSocket => matches!(&self.kind, NetRequestKind::Socket(_)),
            NetProtocol::Socket => matches!(&self.kind, NetRequestKind::Socket(_)),
        };
        if ok {
            Ok(())
        } else {
            Err(NetResultStatus::InvalidRequestParameters)
        }
    }
}

impl NetRequestSocket {
    /// Specification twin of [`NetRequestSocket::from_parts`].
    pub open spec fn from_parts_spec(tag: u8, send_data: Option<Vec<u8>>) -> Result<
        NetRequestSocket,
        NetResultStatus,
    > {
        if tag == 1 {
            match send_data {
                Some(data) => Ok(NetRequestSocket::Send(NetRequestSocketSend { data })),
                None => Err(NetResultStatus::InvalidRequestParameters),
            }
        } else if tag == 2 {
            Ok(NetRequestSocket::Subscribe)
        } else if tag == 3 {
            Ok(NetRequestSocket::Unsubscribe)
        } else {
            Err(NetResultStatus::InvalidRequestParameters)
        }
    }

    /// Assemble a socket request from its host-boundary tag; a `Send` tag
    /// must carry its payload.
    pub fn from_parts(tag: u8, send_data: Option<Vec<u8>>) -> (r: Result<
        NetRequestSocket,
        NetResultStatus,
    >)
        ensures
            r == Self::from_parts_spec(tag, send_data),
    {
        match tag {
            1 => match send_data {
                Some(data) => Ok(NetRequestSocket::Send(NetRequestSocketSend { data })),
                None => Err(NetResultStatus::InvalidRequestParameters),
            },
            2 => Ok(NetRequestSocket::Subscribe),
            3 => Ok(NetRequestSocket::Unsubscribe),
            _ => Err(NetResultStatus::InvalidRequestParameters),
        }
    }
}

impl NetRequestGrpc {
    /// Specification twin of [`NetRequestGrpc::from_parts`].
    pub open spec fn from_parts_spec(
        tag: u8,
        call: Option<(String, Vec<u8>)>,
        unsubscribe_id: Option<i32>,
    ) -> Result<NetRequestGrpc, NetResultStatus> {
        if tag == 1 {
            match call {
                Some(c) => Ok(NetRequestGrpc::Unary(NetRequestGrpcUnary { method: c.0, data: c.1 })),
                None => Err(NetResultStatus::InvalidRequestParameters),
            }
        } else if tag == 2 {
            match call {
                Some(c) => Ok(
                    NetRequestGrpc::Stream(NetRequestGrpcStream { method: c.0, data: c.1 }),
                ),
                None => Err(NetResultStatus::InvalidRequestParameters),
            }
        } else if tag == 3 {
            match unsubscribe_id {
                Some(id) => Ok(NetRequestGrpc::Unsubscribe(NetRequestGrpcUnsubscribe { id })),
                None => Err(NetResultStatus::InvalidRequestParameters),
            }
        } else {
            Err(NetResultStatus::InvalidRequestParameters)
        }
    }

    /// Assemble a gRPC request from its host-boundary tag: a unary or stream
    /// tag carries a method and payload, the unsubscribe tag a stream ID.
    pub fn from_parts(tag: u8, call: Option<(String, Vec<u8>)>, unsubscribe_id: Option<i32>) -> (r:
        Result<NetRequestGrpc, NetResultStatus>)
        ensures
            r == Self::from_parts_spec(tag, call, unsubscribe_id),
    {
        match tag {
            1 => match call {
                Some((method, data)) => Ok(
                    NetRequestGrpc::Unary(NetRequestGrpcUnary { method, data }),
                ),
                None => Err(NetResultStatus::InvalidRequestParameters),
            },
            2 => match call {
                Some((method, data)) => Ok(
                    NetRequestGrpc::Stream(NetRequestGrpcStream { method, data }),
                ),
                None => Err(NetResultStatus::InvalidRequestParameters),
            },
            3 => match unsubscribe_id {
                Some(id) => Ok(NetRequestGrpc::Unsubscribe(NetRequestGrpcUnsubscribe { id })),
                None => Err(NetResultStatus::InvalidRequestParameters),
            },
            _ => Err(NetResultStatus::InvalidRequestParameters),
        }
    }
}

impl NetRequestHttp {
    /// Assemble an HTTP request from host-boundary parts: a bad encoding tag
    /// is `InvalidRequestParameters`, a missing retry policy means the
    /// default one.
    pub fn from_parts(
        method: String,
        url: String,
        body: Option<Vec<u8>>,
        headers: Option<Vec<NetHttpHeaderRef>>,
        encoding_tag: u8,
        retry_config: Option<NetHttpRetryConfig>,
    ) -> (r: Result<NetRequestHttp, NetResultStatus>)
        ensures
            r is Ok <==> (encoding_tag == 1 || encoding_tag == 2),
            r matches Ok(h) ==> {
                &&& h.method == method
                &&& h.url == url
                &&& h.body == body
                &&& h.headers == headers
                &&& h.encoding == (if encoding_tag == 1 {
                    StreamEncoding::Json
                } else {
                    StreamEncoding::Raw
                })
                &&& (match retry_config {
                    Some(rc) => h.retry_config == rc,
                    None => h.retry_config.max_retries == 1 && h.retry_config.retry_status@
                        == Seq::<u16>::empty() && h.retry_config.retry_delay == 0,
                })
            },
            r matches Err(e) ==> e == NetResultStatus::InvalidRequestParameters,
    {
        let encoding = match encoding_tag {
            1 => StreamEncoding::Json,
            2 => StreamEncoding::Raw,
            _ => {
                return Err(NetResultStatus::InvalidRequestParameters);
            },
        };
        let retry_config = match retry_config {
            Some(rc) => rc,
            None => NetHttpRetryConfig::default(),
        };
        Ok(NetRequestHttp { method, url, body, headers, encoding, retry_config })
    }
}

/// The transport-level headers a request's own headers stand for.
pub fn headers_from_refs(refs: &Vec<NetHttpHeaderRef>) -> (r: Vec<NetHttpHeader>)
    ensures
        r@.len() == refs@.len(),
        forall|k: int|
            0 <= k < refs@.len() ==> (#[trigger] r@[k]).key == refs@[k].key && r@[k].value
                == refs@[k].value,
{
    let mut r: Vec<NetHttpHeader> = Vec::new();
    let mut i: usize = 0;
    while i < refs.len()
        invariant
            i <= refs@.len(),
            r@.len() == i,
            forall|k: int|
                0 <= k < i ==> (#[trigger] r@[k]).key == refs@[k].key && r@[k].value
                    == refs@[k].value,
        decreases refs.len() - i,
    {
        r.push(NetHttpHeader::new(refs[i].key.clone(), refs[i].value.clone()));
        i = i + 1;
    }
    r
}

} // verus!
