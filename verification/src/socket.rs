//! The raw-TCP / WebSocket client's decision core: what the background reader
//! publishes for each observed read, the idempotent subscription guard, and
//! the fan-out task that drives the per-transport [`StreamBuffer`] and emits
//! stream events to the host.
//!
//! The split reader and writer, the handshake and every read are asynchronous
//! I/O and live with the caller; each observed outcome is decided on here.

use vstd::prelude::*;

use crate::config::NetProtocol;
use crate::decoder::{buffer_step, StreamBuffer, StreamEncoding};
use crate::grpc::RecvOutcome;
use crate::response::{NetResponseStream, NetResponseStreamData, NetResponseStreamError};
use crate::status::NetResultStatus;
use vstd::utf8::encode_utf8;

verus! {

/// What the raw-TCP reader observed on one read.
pub enum RawReadEvent {
    /// A non-empty chunk of bytes arrived.
    Chunk(Vec<u8>),
    /// The peer closed the stream (a read of zero bytes).
    Eof,
    /// The connection was reset by the peer.
    ConnectionReset,
    /// The local write end reported a broken pipe.
    BrokenPipe,
    /// Any other I/O failure.
    OtherError,
}

/// What the raw reader publishes for one observed read, and whether it then
/// exits: a chunk is forwarded; end-of-file, a reset and a broken pipe all
/// publish a graceful end; any other failure publishes `SocketError`; every
/// outcome but a chunk ends the task.
pub fn raw_reader_step(event: RawReadEvent) -> (r: (
    Result<Option<Vec<u8>>, NetResultStatus>,
    bool,
))
    ensures
        match event {
            RawReadEvent::Chunk(b) => r == ((
                Ok::<Option<Vec<u8>>, NetResultStatus>(Some(b)),
                false,
            )),
            RawReadEvent::Eof => r == ((Ok::<Option<Vec<u8>>, NetResultStatus>(None), true)),
            RawReadEvent::ConnectionReset => r == ((
                Ok::<Option<Vec<u8>>, NetResultStatus>(None),
                true,
            )),
            RawReadEvent::BrokenPipe => r == ((Ok::<Option<Vec<u8>>, NetResultStatus>(None), true)),
            RawReadEvent::OtherError => r == ((
                Err::<Option<Vec<u8>>, NetResultStatus>(NetResultStatus::SocketError),
                true,
            )),
        },
{
    match event {
        RawReadEvent::Chunk(b) => (Ok(Some(b)), false),
        RawReadEvent::Eof => (Ok(None), true),
        RawReadEvent::ConnectionReset => (Ok(None), true),
        RawReadEvent::BrokenPipe => (Ok(None), true),
        RawReadEvent::OtherError => (Err(NetResultStatus::SocketError), true),
    }
}

/// What the WebSocket reader observed on one inbound message.
pub enum WsReadEvent {
    /// A binary frame.
    Binary(Vec<u8>),
    /// A text frame (UTF-8).
    Text(String),
    /// Any other frame (ping, pong, close handshake): ignored.
    Control,
    /// The message stream ended.
    StreamEnd,
    /// A read failure.
    ReadError,
}

/// What the WebSocket reader publishes for one observed message, and whether
/// it then exits: binary frames are forwarded as their bytes, text frames as
/// their UTF-8 bytes, other frames are ignored; the end of the stream
/// publishes a graceful end and a failure publishes `SocketError`; both end
/// the task.
pub fn ws_reader_step(event: WsReadEvent) -> (r: (
    Option<Result<Option<Vec<u8>>, NetResultStatus>>,
    bool,
))
    ensures
        match event {
            WsReadEvent::Binary(b) => r == ((
                Some(Ok::<Option<Vec<u8>>, NetResultStatus>(Some(b))),
                false,
            )),
            WsReadEvent::Text(s) => {
                &&& r.1 == false
                &&& r.0 matches Some(p) && p matches Ok(op) && op matches Some(b) && b@
                    == encode_utf8(s@)
            },
            WsReadEvent::Control => r == ((
                None::<Result<Option<Vec<u8>>, NetResultStatus>>,
                false,
            )),
            WsReadEvent::StreamEnd => r == ((
                Some(Ok::<Option<Vec<u8>>, NetResultStatus>(None)),
                true,
            )),
            WsReadEvent::ReadError => r == ((
                Some(Err::<Option<Vec<u8>>, NetResultStatus>(NetResultStatus::SocketError)),
                true,
            )),
        },
{
    match event {
        WsReadEvent::Binary(b) => (Some(Ok(Some(b))), false),
        WsReadEvent::Text(s) => {
            let bytes = s.as_str().as_bytes_vec();
            (Some(Ok(Some(bytes))), false)
        },
        WsReadEvent::Control => (None, false),
        WsReadEvent::StreamEnd => (Some(Ok(None)), true),
        WsReadEvent::ReadError => (Some(Err(NetResultStatus::SocketError)), true),
    }
}

/// Which concrete client a socket-class transport instantiates.
#[derive(Debug, Clone, Copy, PartialEq, Eq, Structural)]
pub enum SocketClientKind {
    /// RFC 6455 framing over the byte stream.
    WebSocket,
    /// The bare byte stream.
    Raw,
}

/// The client a socket-class transport uses for its protocol; the HTTP and
/// gRPC protocols are not socket-class and are `InvalidConfigParameters`.
pub fn socket_client_kind(protocol: &NetProtocol) -> (r: Result<SocketClientKind, NetResultStatus>)
    ensures
        match protocol {
            NetProtocol::WebSocket => r == Ok::<SocketClientKind, NetResultStatus>(
                SocketClientKind::WebSocket,
            ),
            NetProtocol::Socket => r == Ok::<SocketClientKind, NetResultStatus>(
                SocketClientKind::Raw,
            ),
            NetProtocol::Http => r == Err::<SocketClientKind, NetResultStatus>(
                NetResultStatus::InvalidConfigParameters,
            ),
            NetProtocol::Grpc => r == Err::<SocketClientKind, NetResultStatus>(
                NetResultStatus::InvalidConfigParameters,
            ),
        },
{
    match protocol {
        NetProtocol::WebSocket => Ok(SocketClientKind::WebSocket),
        NetProtocol::Socket => Ok(SocketClientKind::Raw),
        NetProtocol::Http => Err(NetResultStatus::InvalidConfigParameters),
        NetProtocol::Grpc => Err(NetResultStatus::InvalidConfigParameters),
    }
}

/// Resolve the configuration of a socket-class transport, which serves either
/// raw-socket or WebSocket endpoints: the raw-socket reading is tried first
/// and the WebSocket reading second. A WebSocket config whose URL does not
/// resolve reports `InvalidUrl`; a raw-socket config whose URL does not
/// resolve falls through the WebSocket protocol check and reports
/// `InvalidConfigParameters`, as does any non-socket-class protocol.
pub fn socket_transport_config(config: &crate::config::NetRequestConfig) -> (r: Result<
    crate::config::NetConfig,
    NetResultStatus,
>)
    ensures
        config.protocol is Socket || config.protocol is WebSocket ==> {
            &&& (r is Ok <==> crate::config::config_url_resolves(*config))
            &&& (r matches Ok(c) ==> {
                &&& crate::address::address_matches(
                    c.addr,
                    config.url@,
                    crate::config::scheme_tls_for_protocol(
                        config.protocol,
                        crate::address::url_scheme(config.url@),
                    )->0,
                )
                &&& c.mode == config.mode
                &&& crate::config::http_config_matches(c.http, config.http)
                &&& c.protocol == config.protocol
                &&& c.tls_mode == config.tls_mode
                &&& c.tor_config == config.tor_config
                &&& c.encoding == config.encoding
            })
        },
        config.protocol is Socket && !crate::config::config_url_resolves(*config) ==> (r matches
            Err(e) && e == NetResultStatus::InvalidConfigParameters),
        config.protocol is WebSocket && !crate::config::config_url_resolves(*config) ==> (r matches
            Err(e) && e == NetResultStatus::InvalidUrl),
        !(config.protocol is Socket) && !(config.protocol is WebSocket) ==> (r matches Err(e) && e
            == NetResultStatus::InvalidConfigParameters),
{
    match config.to_protocol_config(NetProtocol::Socket) {
        Ok(c) => Ok(c),
        Err(_) => config.to_protocol_config(NetProtocol::WebSocket),
    }
}

/// The action a socket-class transport takes for one request.
pub enum SocketAction {
    /// Subscribe once (idempotent) and spawn the fan-out task if fresh.
    Subscribe,
    /// Close the underlying connection and drop the fan-out.
    Unsubscribe,
    /// Write the bytes to the connection.
    Send(Vec<u8>),
}

/// Dispatch one socket request: which action the transport performs, and the
/// `Socket(Ok)` acknowledgement every socket-class request answers with.
pub fn socket_do_request(request: crate::request::NetRequestSocket) -> (r: (
    SocketAction,
    crate::response::NetResponseKind,
))
    ensures
        r.1 is Socket,
        match request {
            crate::request::NetRequestSocket::Subscribe => r.0 is Subscribe,
            crate::request::NetRequestSocket::Unsubscribe => r.0 is Unsubscribe,
            crate::request::NetRequestSocket::Send(s) => (r.0 matches SocketAction::Send(d) && d
                == s.data),
        },
{
    let action = match request {
        crate::request::NetRequestSocket::Subscribe => SocketAction::Subscribe,
        crate::request::NetRequestSocket::Unsubscribe => SocketAction::Unsubscribe,
        crate::request::NetRequestSocket::Send(s) => SocketAction::Send(s.data),
    };
    (action, crate::response::NetResponseKind::Socket(crate::response::NetResponseSocketOk))
}

/// The single implicit subscription of a socket transport. Subscribing twice
/// is a no-op; the flag says whether a fan-out task currently runs.
pub struct SocketSubscription {
    pub active: bool,
}

impl SocketSubscription {
    /// No fan-out task yet.
    pub fn new() -> (r: SocketSubscription)
        ensures
            !r.active,
    {
        SocketSubscription { active: false }
    }

    /// Begin subscribing; returns whether a fresh fan-out task must be
    /// spawned. Subscribing while subscribed changes nothing.
    pub fn begin(&mut self) -> (fresh: bool)
        ensures
            final(self).active,
            fresh == !old(self).active,
    {
        let fresh = !self.active;
        self.active = true;
        fresh
    }

    /// Drop the subscription (explicit unsubscribe or transport close).
    pub fn end(&mut self)
        ensures
            !final(self).active,
    {
        self.active = false;
    }
}

/// The view of one emitted stream event: its stream ID, and its payload where
/// it carries one.
pub enum StreamEventView {
    Data { id: Option<i32>, data: Seq<u8> },
    Close { id: Option<i32> },
    Error { id: Option<i32>, status: NetResultStatus },
}

/// The view of an emitted event.
pub open spec fn stream_event_view(e: NetResponseStream) -> StreamEventView {
    match e {
        NetResponseStream::Data(d) => StreamEventView::Data { id: d.id, data: d.data@ },
        NetResponseStream::Close(id) => StreamEventView::Close { id },
        NetResponseStream::Error(err) => StreamEventView::Error { id: err.id, status: err.status },
    }
}

/// The views of a sequence of emitted events.
pub open spec fn stream_event_views(events: Seq<NetResponseStream>) -> Seq<StreamEventView> {
    events.map_values(|e: NetResponseStream| stream_event_view(e))
}

/// Data events without stream IDs, one per decoded message.
pub open spec fn data_events_of(msgs: Seq<Seq<u8>>) -> Seq<StreamEventView> {
    msgs.map_values(|m: Seq<u8>| StreamEventView::Data { id: None, data: m })
}

/// The events one socket fan-out task emits over a sequence of receives,
/// starting from buffered bytes `acc`: published chunks run through the
/// decoder and yield one `Data` event per completed message; a published end
/// — or a closed broadcast — emits the terminal `Close`; a published error
/// emits the terminal `Error`; lagging emits nothing. Socket stream events
/// carry no stream ID.
pub open spec fn socket_run_views(
    enc: StreamEncoding,
    acc: Seq<u8>,
    outcomes: Seq<RecvOutcome>,
) -> Seq<StreamEventView>
    decreases outcomes.len(),
{
    if outcomes.len() == 0 {
        Seq::empty()
    } else {
        let rest = outcomes.drop_first();
        match outcomes[0] {
            RecvOutcome::Item(item) => match item {
                Ok(Some(data)) => {
                    let step = buffer_step(enc, acc, data@);
                    data_events_of(step.0) + socket_run_views(enc, step.1, rest)
                },
                Ok(None) => seq![StreamEventView::Close { id: None }],
                Err(status) => seq![StreamEventView::Error { id: None, status }],
            },
            RecvOutcome::Closed => seq![StreamEventView::Close { id: None }],
            RecvOutcome::Lagged => socket_run_views(enc, acc, rest),
        }
    }
}

/// Drive one socket fan-out task over a fixed sequence of receives, from a
/// fresh buffer with the given encoding.
#[verifier::loop_isolation(false)]
pub fn socket_fanout_run(encoding: StreamEncoding, outcomes: Vec<RecvOutcome>) -> (emitted: Vec<
    NetResponseStream,
>)
    ensures
        stream_event_views(emitted@) == socket_run_views(encoding, Seq::<u8>::empty(), outcomes@),
{
    let ghost orig = outcomes@;
    let mut rest = outcomes;
    let mut buffer = StreamBuffer::new(encoding);
    let mut emitted: Vec<NetResponseStream> = Vec::new();
    proof {
        assert(stream_event_views(emitted@) =~= Seq::<StreamEventView>::empty());
        assert(stream_event_views(emitted@) + socket_run_views(encoding, buffer.buffer@, rest@)
            =~= socket_run_views(encoding, Seq::<u8>::empty(), orig));
    }
    while rest.len() > 0
        invariant
            buffer.encoding == encoding,
            socket_run_views(encoding, Seq::<u8>::empty(), orig) == stream_event_views(emitted@)
                + socket_run_views(encoding, buffer.buffer@, rest@),
        decreases rest.len(),
    {
        let ghost rest_pre = rest@;
        let ghost acc_pre = buffer.buffer@;
        let ghost emitted_pre = emitted@;
        let outcome = rest.remove(0);
        proof {
            assert(rest@ =~= rest_pre.drop_first());
            assert(outcome == rest_pre[0]);
        }
        match outcome {
            RecvOutcome::Item(item) => match item {
                Ok(Some(data)) => {
                    let ghost data_view = data@;
                    let msgs = buffer.add(data);
                    let ghost step = buffer_step(encoding, acc_pre, data_view);
                    let mut j: usize = 0;
                    while j < msgs.len()
                        invariant
                            j <= msgs@.len(),
                            msgs.deep_view() == step.0,
                            stream_event_views(emitted@) == stream_event_views(emitted_pre)
                                + data_events_of(step.0.take(j as int)),
                        decreases msgs.len() - j,
                    {
                        let ghost emitted_loop = emitted@;
                        let msg = crate::response::duplicate_bytes(&msgs[j]);
                        let ghost msg_view = msg@;
                        emitted.push(
                            NetResponseStream::Data(NetResponseStreamData { id: None, data: msg }),
                        );
                        proof {
                            let ghost ev = StreamEventView::Data {
                                id: None,
                                data: step.0[j as int],
                            };
                            assert(msgs@[j as int]@ =~= msgs.deep_view()[j as int]);
                            assert(msg_view == step.0[j as int]);
                            assert(stream_event_view(emitted@[emitted_loop.len() as int]) == ev);
                            assert(stream_event_views(emitted@) =~= stream_event_views(
                                emitted_loop,
                            ).push(ev));
                            assert(data_events_of(step.0.take(j + 1)) =~= data_events_of(
                                step.0.take(j as int),
                            ).push(ev));
                            assert(stream_event_views(emitted@) =~= stream_event_views(
                                emitted_pre,
                            ) + data_events_of(step.0.take(j + 1)));
                        }
                        j = j + 1;
                    }
                    proof {
                        assert(step.0.take(step.0.len() as int) =~= step.0);
                        assert(socket_run_views(encoding, acc_pre, rest_pre) == data_events_of(
                            step.0,
                        ) + socket_run_views(encoding, step.1, rest@));
                        assert(stream_event_views(emitted@) + socket_run_views(
                            encoding,
                            buffer.buffer@,
                            rest@,
                        ) =~= socket_run_views(encoding, Seq::<u8>::empty(), orig));
                    }
                },
                Ok(None) => {
                    emitted.push(NetResponseStream::Close(None));
                    proof {
                        assert(socket_run_views(encoding, acc_pre, rest_pre) =~= seq![
                            StreamEventView::Close { id: None },
                        ]);
                        assert(stream_event_views(emitted@) =~= stream_event_views(emitted_pre)
                            + seq![StreamEventView::Close { id: None }]);
                        assert(stream_event_views(emitted@) =~= socket_run_views(
                            encoding,
                            Seq::<u8>::empty(),
                            orig,
                        ));
                    }
                    return emitted;
                },
                Err(status) => {
                    emitted.push(
                        NetResponseStream::Error(NetResponseStreamError { id: None, status }),
                    );
                    proof {
                        assert(socket_run_views(encoding, acc_pre, rest_pre) =~= seq![
                            StreamEventView::Error { id: None, status },
                        ]);
                        assert(stream_event_views(emitted@) =~= stream_event_views(emitted_pre)
                            + seq![StreamEventView::Error { id: None, status }]);
                        assert(stream_event_views(emitted@) =~= socket_run_views(
                            encoding,
                            Seq::<u8>::empty(),
                            orig,
                        ));
                    }
                    return emitted;
                },
            },
            RecvOutcome::Closed => {
                emitted.push(NetResponseStream::Close(None));
                proof {
                    assert(socket_run_views(encoding, acc_pre, rest_pre) =~= seq![
                        StreamEventView::Close { id: None },
                    ]);
                    assert(stream_event_views(emitted@) =~= stream_event_views(emitted_pre) + seq![
                        StreamEventView::Close { id: None },
                    ]);
                    assert(stream_event_views(emitted@) =~= socket_run_views(
                        encoding,
                        Seq::<u8>::empty(),
                        orig,
                    ));
                }
                return emitted;
            },
            RecvOutcome::Lagged => {
                proof {
                    assert(socket_run_views(encoding, acc_pre, rest_pre) == socket_run_views(
                        encoding,
                        acc_pre,
                        rest@,
                    ));
                }
            },
        }
    }
    proof {
        assert(socket_run_views(encoding, buffer.buffer@, rest@) =~= Seq::<
            StreamEventView,
        >::empty());
        assert(stream_event_views(emitted@) =~= socket_run_views(
            encoding,
            Seq::<u8>::empty(),
            orig,
        ));
    }
    emitted
}

/// Whether an event view is terminal (`Close` or `Error`).
pub open spec fn view_is_terminal(e: StreamEventView) -> bool {
    !(e is Data)
}

/// Whether one receive ends a socket fan-out task.
pub open spec fn socket_stops(outcome: RecvOutcome) -> bool {
    match outcome {
        RecvOutcome::Item(item) => !(item matches Ok(d) && d is Some),
        RecvOutcome::Closed => true,
        RecvOutcome::Lagged => false,
    }
}

/// Law (exactly one terminal stream event, socket side): a socket fan-out
/// task emits no event after a terminal one — so at most one terminal event —
/// and it emits exactly one terminal event whenever some receive ends the
/// stream.
pub proof fn lemma_socket_exactly_one_terminal(
    enc: StreamEncoding,
    acc: Seq<u8>,
    outcomes: Seq<RecvOutcome>,
)
    ensures
        forall|k: int|
            0 <= k < socket_run_views(enc, acc, outcomes).len() - 1 ==> !view_is_terminal(
                #[trigger] socket_run_views(enc, acc, outcomes)[k],
            ),
        (exists|j: int| 0 <= j < outcomes.len() && socket_stops(#[trigger] outcomes[j])) ==> (
        socket_run_views(enc, acc, outcomes).len() > 0 && view_is_terminal(
            socket_run_views(enc, acc, outcomes).last(),
        )),
    decreases outcomes.len(),
{
    if outcomes.len() == 0 {
    } else {
        let run = socket_run_views(enc, acc, outcomes);
        let rest = outcomes.drop_first();
        if socket_stops(outcomes[0]) {
            assert(run.len() == 1 && view_is_terminal(run.last()));
        } else {
            match outcomes[0] {
                RecvOutcome::Item(item) => {
                    let data = item->Ok_0->0;
                    let step = buffer_step(enc, acc, data@);
                    let tail_run = socket_run_views(enc, step.1, rest);
                    lemma_socket_exactly_one_terminal(enc, step.1, rest);
                    let head = data_events_of(step.0);
                    assert(run == head + tail_run);
                    assert(forall|k: int|
                        0 <= k < head.len() ==> !view_is_terminal(#[trigger] head[k]));
                    assert(forall|k: int|
                        head.len() <= k < run.len() ==> run[k] == #[trigger] tail_run[k
                            - head.len()]);
                    assert forall|k: int| 0 <= k < run.len() - 1 implies !view_is_terminal(
                        #[trigger] run[k],
                    ) by {
                        if k >= head.len() {
                            assert(run[k] == tail_run[k - head.len()]);
                            assert(k - head.len() < tail_run.len() - 1);
                        }
                    }
                    if exists|j: int| 0 <= j < outcomes.len() && socket_stops(#[trigger] outcomes[j]) {
                        let j = choose|j: int|
                            0 <= j < outcomes.len() && socket_stops(#[trigger] outcomes[j]);
                        assert(j != 0);
                        assert(socket_stops(rest[j - 1]));
                        assert(tail_run.len() > 0);
                        assert(run.last() == tail_run.last());
                    }
                },
                RecvOutcome::Closed => {},
                RecvOutcome::Lagged => {
                    lemma_socket_exactly_one_terminal(enc, acc, rest);
                    assert(run == socket_run_views(enc, acc, rest));
                    if exists|j: int| 0 <= j < outcomes.len() && socket_stops(#[trigger] outcomes[j]) {
                        let j = choose|j: int|
                            0 <= j < outcomes.len() && socket_stops(#[trigger] outcomes[j]);
                        assert(j != 0);
                        assert(socket_stops(rest[j - 1]));
                    }
                },
            }
        }
    }
}

/// Law (raw pass-through, socket side): in Raw mode, a fan-out task that
/// receives N published chunks and nothing else emits exactly N `Data` events
/// with identical byte-level contents.
pub proof fn lemma_socket_raw_passthrough(acc: Seq<u8>, outcomes: Seq<RecvOutcome>)
    requires
        forall|j: int|
            0 <= j < outcomes.len() ==> ((#[trigger] outcomes[j]) matches RecvOutcome::Item(item)
                && item matches Ok(d) && d is Some),
    ensures
        socket_run_views(StreamEncoding::Raw, acc, outcomes).len() == outcomes.len(),
        forall|j: int|
            0 <= j < outcomes.len() ==> #[trigger] socket_run_views(
                StreamEncoding::Raw,
                acc,
                outcomes,
            )[j] == (StreamEventView::Data { id: None, data: outcomes[j]->Item_0->Ok_0->0@ }),
    decreases outcomes.len(),
{
    if outcomes.len() == 0 {
    } else {
        let rest = outcomes.drop_first();
        let data = outcomes[0]->Item_0->Ok_0->0;
        let step = buffer_step(StreamEncoding::Raw, acc, data@);
        assert(step.0 =~= seq![data@]);
        lemma_socket_raw_passthrough(acc, rest);
        let run = socket_run_views(StreamEncoding::Raw, acc, outcomes);
        let head = data_events_of(step.0);
        assert(head =~= seq![StreamEventView::Data { id: None, data: data@ }]);
        assert(run == head + socket_run_views(StreamEncoding::Raw, acc, rest));
        assert(forall|j: int| 0 <= j < rest.len() ==> rest[j] == #[trigger] outcomes[j + 1]);
        assert forall|j: int| 0 <= j < outcomes.len() implies #[trigger] run[j] == (
        StreamEventView::Data { id: None, data: outcomes[j]->Item_0->Ok_0->0@ }) by {
            if j > 0 {
                assert(run[j] == socket_run_views(StreamEncoding::Raw, acc, rest)[j - 1]);
                assert(rest[j - 1] == outcomes[j]);
            }
        }
    }
}

} // verus!
