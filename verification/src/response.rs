//! Response shapes delivered back to the host: synchronous replies, correlated
//! by request ID, and asynchronous stream events, correlated by stream ID.

use vstd::prelude::*;

use crate::config::NetHttpHeader;
use crate::decoder::StreamEncoding;
use crate::status::NetResultStatus;

verus! {

/// An equal byte vector, built element by element.
pub fn duplicate_bytes(data: &Vec<u8>) -> (r: Vec<u8>)
    ensures
        r@ == data@,
{
    let mut r: Vec<u8> = Vec::new();
    let mut i: usize = 0;
    while i < data.len()
        invariant
            i <= data.len(),
            r@ == data@.take(i as int),
        decreases data.len() - i,
    {
        r.push(data[i]);
        proof {
            assert(r@ =~= data@.take(i + 1));
        }
        i = i + 1;
    }
    proof {
        assert(data@.take(data@.len() as int) =~= data@);
    }
    r
}

/// Acknowledgement of a socket-class request.
#[derive(Debug)]
pub struct NetResponseSocketOk;

/// One inbound stream message. `id` is the stream handle for gRPC streams and
/// absent for the single implicit stream of a socket transport.
#[derive(Debug)]
pub struct NetResponseStreamData {
    pub id: Option<i32>,
    pub data: Vec<u8>,
}

impl NetResponseStreamData {
    pub fn new(id: Option<i32>, data: Vec<u8>) -> (r: NetResponseStreamData)
        ensures
            r.id == id,
            r.data == data,
    {
        NetResponseStreamData { id, data }
    }
}

/// A terminal stream error, carrying the status that ended the stream.
#[derive(Debug)]
pub struct NetResponseStreamError {
    pub id: Option<i32>,
    pub status: NetResultStatus,
}

impl NetResponseStreamError {
    pub fn new(id: Option<i32>, status: NetResultStatus) -> (r: NetResponseStreamError)
        ensures
            r.id == id,
            r.status == status,
    {
        NetResponseStreamError { id, status }
    }
}

/// An asynchronous stream event: a message, a graceful close, or an error.
#[derive(Debug)]
pub enum NetResponseStream {
    Data(NetResponseStreamData),
    Close(Option<i32>),
    Error(NetResponseStreamError),
}

impl NetResponseStream {
    /// Whether the event ends its stream: `Close` and `Error` are terminal,
    /// `Data` is not.
    pub open spec fn is_terminal(&self) -> bool {
        !(self is Data)
    }
}

/// A buffered HTTP response, with the encoding actually detected for the body.
#[derive(Debug)]
pub struct NetResponseHttp {
    pub status_code: u16,
    pub body: Vec<u8>,
    pub headers: Vec<NetHttpHeader>,
    pub encoding: StreamEncoding,
}

impl NetResponseHttp {
    pub fn new(
        status_code: u16,
        body: Vec<u8>,
        headers: Vec<NetHttpHeader>,
        encoding: StreamEncoding,
    ) -> (r: NetResponseHttp)
        ensures
            r.status_code == status_code,
            r.body == body,
            r.headers == headers,
            r.encoding == encoding,
    {
        NetResponseHttp { status_code, body, headers, encoding }
    }
}

/// The synchronous reply to a gRPC `Stream` request: the fresh stream ID.
#[derive(Debug)]
pub struct NetResponseGrpcSubscribe {
    pub id: i32,
}

impl NetResponseGrpcSubscribe {
    pub fn new(id: i32) -> (r: NetResponseGrpcSubscribe)
        ensures
            r.id == id,
    {
        NetResponseGrpcSubscribe { id }
    }
}

/// The reply to a gRPC `Unsubscribe` request, echoing the requested ID.
#[derive(Debug)]
pub struct NetResponseGrpcUnsubscribe {
    pub id: i32,
}

impl NetResponseGrpcUnsubscribe {
    pub fn new(id: i32) -> (r: NetResponseGrpcUnsubscribe)
        ensures
            r.id == id,
    {
        NetResponseGrpcUnsubscribe { id }
    }
}

/// The reply to a gRPC unary call: the raw response bytes.
#[derive(Debug)]
pub struct NetResponseGrpcUnary {
    pub data: Vec<u8>,
}

impl NetResponseGrpcUnary {
    pub fn new(data: Vec<u8>) -> (r: NetResponseGrpcUnary)
        ensures
            r.data == data,
    {
        NetResponseGrpcUnary { data }
    }
}

/// The gRPC reply family.
#[derive(Debug)]
pub enum NetResponseGrpc {
    Unary(NetResponseGrpcUnary),
    StreamId(NetResponseGrpcSubscribe),
    Unsubscribe(NetResponseGrpcUnsubscribe),
}

/// Everything a callback can carry.
#[derive(Debug)]
pub enum NetResponseKind {
    Socket(NetResponseSocketOk),
    Grpc(NetResponseGrpc),
    Http(NetResponseHttp),
    Stream(NetResponseStream),
    ResponseError(NetResultStatus),
    TransportClosed,
    TorInited(bool),
}

/// A delivered response, tagged with the transport it came from and the
/// request it answers (`request_id == 0` for asynchronous stream events).
pub struct NetResponse {
    pub transport_id: u32,
    pub request_id: u32,
    pub response: NetResponseKind,
}

impl NetResponseStreamData {
    pub fn id(&self) -> (r: Option<i32>)
        ensures
            r == self.id,
    {
        self.id
    }

    /// A fresh copy of the payload, so the host owns its bytes.
    pub fn data(&self) -> (r: Vec<u8>)
        ensures
            r@ == self.data@,
    {
        duplicate_bytes(&self.data)
    }
}

impl NetResponseStreamError {
    pub fn id(&self) -> (r: Option<i32>)
        ensures
            r == self.id,
    {
        self.id
    }

    pub fn status(&self) -> (r: NetResultStatus)
        ensures
            r == self.status,
    {
        self.status
    }
}

impl NetResponseHttp {
    pub fn status_code(&self) -> (r: u16)
        ensures
            r == self.status_code,
    {
        self.status_code
    }

    /// A fresh copy of the body, so the host owns its bytes.
    pub fn body(&self) -> (r: Vec<u8>)
        ensures
            r@ == self.body@,
    {
        duplicate_bytes(&self.body)
    }

    /// A fresh copy of the response headers.
    pub fn headers(&self) -> (r: Vec<NetHttpHeader>)
        ensures
            r@ == self.headers@,
    {
        crate::config::duplicate_headers(&self.headers)
    }

    pub fn encoding(&self) -> (r: StreamEncoding)
        ensures
            r == self.encoding,
    {
        self.encoding
    }
}

impl NetResponseGrpcSubscribe {
    pub fn id(&self) -> (r: i32)
        ensures
            r == self.id,
    {
        self.id
    }
}

impl NetResponseGrpcUnsubscribe {
    pub fn id(&self) -> (r: i32)
        ensures
            r == self.id,
    {
        self.id
    }
}

impl NetResponseGrpcUnary {
    /// A fresh copy of the reply bytes, so the host owns them.
    pub fn data(&self) -> (r: Vec<u8>)
        ensures
            r@ == self.data@,
    {
        duplicate_bytes(&self.data)
    }
}

impl NetResponseKind {
    /// The unary gRPC reply inside, where this is one.
    pub fn grpc_unary(&self) -> (r: Option<NetResponseGrpcUnary>)
        ensures
            r is Some <==> (self matches NetResponseKind::Grpc(g) && g is Unary),
            r matches Some(u) ==> (self matches NetResponseKind::Grpc(g) && g matches
                NetResponseGrpc::Unary(u2) && u.data@ == u2.data@),
    {
        match self {
            NetResponseKind::Grpc(NetResponseGrpc::Unary(u)) => Some(
                NetResponseGrpcUnary { data: duplicate_bytes(&u.data) },
            ),
            _ => None,
        }
    }

    /// The stream-ID gRPC reply inside, where this is one.
    pub fn grpc_stream_id(&self) -> (r: Option<NetResponseGrpcSubscribe>)
        ensures
            r is Some <==> (self matches NetResponseKind::Grpc(g) && g is StreamId),
            r matches Some(s) ==> (self matches NetResponseKind::Grpc(g) && g matches
                NetResponseGrpc::StreamId(s2) && s.id == s2.id),
    {
        match self {
            NetResponseKind::Grpc(NetResponseGrpc::StreamId(s)) => Some(
                NetResponseGrpcSubscribe { id: s.id },
            ),
            _ => None,
        }
    }

    /// The unsubscribe gRPC reply inside, where this is one.
    pub fn grpc_unsubscribe(&self) -> (r: Option<NetResponseGrpcUnsubscribe>)
        ensures
            r is Some <==> (self matches NetResponseKind::Grpc(g) && g is Unsubscribe),
            r matches Some(u) ==> (self matches NetResponseKind::Grpc(g) && g matches
                NetResponseGrpc::Unsubscribe(u2) && u.id == u2.id),
    {
        match self {
            NetResponseKind::Grpc(NetResponseGrpc::Unsubscribe(u)) => Some(
                NetResponseGrpcUnsubscribe { id: u.id },
            ),
            _ => None,
        }
    }

    /// The stream data event inside, where this is one.
    pub fn stream_data(&self) -> (r: Option<NetResponseStreamData>)
        ensures
            r is Some <==> (self matches NetResponseKind::Stream(s) && s is Data),
            r matches Some(d) ==> (self matches NetResponseKind::Stream(s) && s matches
                NetResponseStream::Data(d2) && d.id == d2.id && d.data@ == d2.data@),
    {
        match self {
            NetResponseKind::Stream(NetResponseStream::Data(d)) => Some(
                NetResponseStreamData { id: d.id, data: duplicate_bytes(&d.data) },
            ),
            _ => None,
        }
    }

    /// The stream close event inside, where this is one; a close without a
    /// stream ID is reported as -1.
    pub fn stream_close(&self) -> (r: Option<i32>)
        ensures
            r is Some <==> (self matches NetResponseKind::Stream(s) && s is Close),
            r matches Some(id) ==> (self matches NetResponseKind::Stream(s) && s matches
                NetResponseStream::Close(c) && id == (match c {
                Some(sid) => sid as int,
                None => -1,
            })),
    {
        match self {
            NetResponseKind::Stream(NetResponseStream::Close(c)) => match c {
                Some(sid) => Some(*sid),
                None => Some(-1),
            },
            _ => None,
        }
    }

    /// The stream error event inside, where this is one.
    pub fn stream_error(&self) -> (r: Option<NetResponseStreamError>)
        ensures
            r is Some <==> (self matches NetResponseKind::Stream(s) && s is Error),
            r matches Some(e) ==> (self matches NetResponseKind::Stream(s) && s matches
                NetResponseStream::Error(e2) && e.id == e2.id && e.status == e2.status),
    {
        match self {
            NetResponseKind::Stream(NetResponseStream::Error(e)) => Some(
                NetResponseStreamError { id: e.id, status: e.status },
            ),
            _ => None,
        }
    }

    /// The HTTP response inside, where this is one.
    pub fn http(&self) -> (r: Option<NetResponseHttp>)
        ensures
            r is Some <==> self is Http,
            r matches Some(h) ==> (self matches NetResponseKind::Http(h2) && h.status_code
                == h2.status_code && h.body@ == h2.body@ && h.headers@ == h2.headers@ && h.encoding
                == h2.encoding),
    {
        match self {
            NetResponseKind::Http(h) => Some(
                NetResponseHttp {
                    status_code: h.status_code,
                    body: duplicate_bytes(&h.body),
                    headers: crate::config::duplicate_headers(&h.headers),
                    encoding: h.encoding,
                },
            ),
            _ => None,
        }
    }

    /// The error status inside, where this is an error response.
    pub fn error(&self) -> (r: Option<NetResultStatus>)
        ensures
            r is Some <==> self is ResponseError,
            r matches Some(e) ==> (self matches NetResponseKind::ResponseError(e2) && e == e2),
    {
        match self {
            NetResponseKind::ResponseError(e) => Some(*e),
            _ => None,
        }
    }
}

/// The discriminant a host working with flattened responses sees.
pub open spec fn kind_tag_spec(kind: &NetResponseKind) -> u8 {
    match kind {
        NetResponseKind::Socket(_) => 1,
        NetResponseKind::Grpc(g) => match g {
            NetResponseGrpc::Unary(_) => 2,
            NetResponseGrpc::StreamId(_) => 3,
            NetResponseGrpc::Unsubscribe(_) => 4,
        },
        NetResponseKind::Http(_) => 5,
        NetResponseKind::Stream(s) => match s {
            NetResponseStream::Data(_) => 6,
            NetResponseStream::Close(_) => 7,
            NetResponseStream::Error(_) => 8,
        },
        NetResponseKind::ResponseError(_) => 9,
        NetResponseKind::TransportClosed => 10,
        NetResponseKind::TorInited(_) => 11,
    }
}

impl NetResponseKind {
    /// The discriminant a host working with flattened responses sees.
    pub fn kind_tag(&self) -> (r: u8)
        ensures
            r == kind_tag_spec(self),
    {
        match self {
            NetResponseKind::Socket(_) => 1,
            NetResponseKind::Grpc(g) => match g {
                NetResponseGrpc::Unary(_) => 2,
                NetResponseGrpc::StreamId(_) => 3,
                NetResponseGrpc::Unsubscribe(_) => 4,
            },
            NetResponseKind::Http(_) => 5,
            NetResponseKind::Stream(s) => match s {
                NetResponseStream::Data(_) => 6,
                NetResponseStream::Close(_) => 7,
                NetResponseStream::Error(_) => 8,
            },
            NetResponseKind::ResponseError(_) => 9,
            NetResponseKind::TransportClosed => 10,
            NetResponseKind::TorInited(_) => 11,
        }
    }
}

} // verus!
