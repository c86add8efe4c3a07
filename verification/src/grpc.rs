//! The gRPC client's decision core: the dial configuration, the mapping from
//! what the protocol library yields to what the reader publishes, the
//! per-transport stream-handle registry with its monotonic IDs, and the
//! fan-out from a reader's broadcast to the events the host sees.
//!
//! The channel itself and the server-streaming RPC are asynchronous I/O and
//! live with the caller; every decision over an observed outcome is here.

use vstd::prelude::*;

use crate::address::AddressInfo;
use crate::config::{
    duplicate_tor_config, NetConfig, NetMode, NetProtocol, NetTorClientConfig, TlsMode,
};
use crate::decoder::StreamEncoding;
use crate::response::{
    NetResponseGrpc, NetResponseGrpcSubscribe, NetResponseGrpcUnary, NetResponseGrpcUnsubscribe,
    NetResponseKind, NetResponseStream, NetResponseStreamData, NetResponseStreamError,
};
use crate::status::NetResultStatus;
use vstd::string::StringSliceAdditionalSpecFns;

verus! {

/// The connection settings a gRPC channel dials endpoints with.
pub struct GrpcConnector {
    pub tls_mode: TlsMode,
    pub tor_config: Option<NetTorClientConfig>,
}

impl GrpcConnector {
    /// The connector a transport's configuration induces.
    pub fn default(config: &NetConfig) -> (r: GrpcConnector)
        ensures
            r.tls_mode == config.tls_mode,
            r.tor_config == config.tor_config,
    {
        GrpcConnector {
            tls_mode: config.tls_mode,
            tor_config: duplicate_tor_config(&config.tor_config),
        }
    }

    /// The configuration one dial uses: the resolved endpoint address under
    /// the connector's TLS settings, gRPC over the clearnet, raw encoding and
    /// no HTTP extras.
    pub fn dial_config(&self, addr: AddressInfo) -> (r: NetConfig)
        ensures
            r.addr == addr,
            r.mode == NetMode::Clearnet,
            r.protocol == NetProtocol::Grpc,
            r.tls_mode == self.tls_mode,
            r.tor_config == self.tor_config,
            r.encoding == StreamEncoding::Raw,
            r.http.headers@ == Seq::<crate::config::NetHttpHeader>::empty(),
            r.http.protocol is None,
            !r.http.global_client,
    {
        NetConfig {
            addr,
            mode: NetMode::Clearnet,
            http: Default::default(),
            protocol: NetProtocol::Grpc,
            tls_mode: self.tls_mode,
            tor_config: duplicate_tor_config(&self.tor_config),
            encoding: StreamEncoding::Raw,
        }
    }
}

/// The "raw bytes" gRPC codec: no schema, no protobuf — the caller's bytes go
/// into the length-prefixed message body unchanged, and a received message
/// body comes out unchanged. The framing itself belongs to the protocol
/// library; the codec's whole content is this identity.
#[derive(Default, Clone)]
pub struct BufferCodec;

#[derive(Default, Clone)]
pub struct BufferRawBytesEncoder;

#[derive(Default, Clone)]
pub struct BufferRawBytesDecoder;

impl BufferCodec {
    pub fn encoder(&self) -> BufferRawBytesEncoder {
        BufferRawBytesEncoder
    }

    pub fn decoder(&self) -> BufferRawBytesDecoder {
        BufferRawBytesDecoder
    }
}

impl BufferRawBytesEncoder {
    /// A message's body on the wire is the caller's bytes, verbatim.
    pub fn encode(&self, item: Vec<u8>) -> (r: Vec<u8>)
        ensures
            r == item,
    {
        item
    }
}

impl BufferRawBytesDecoder {
    /// A received message is its body's bytes, verbatim.
    pub fn decode(&self, src: Vec<u8>) -> (r: Vec<u8>)
        ensures
            r == src,
    {
        src
    }
}

/// Whether a byte may appear in a gRPC method path: the URI path character
/// set — printable ASCII without space, `"`, `#`, `<`, `>`, `?`, `` ` ``,
/// `{` and `}`.
pub open spec fn is_uri_path_char(b: u8) -> bool {
    ||| b == 33  // !
    ||| 36 <= b <= 59  // $ % & ' ( ) * + , - . / 0-9 : ;
    ||| b == 61  // =
    ||| 64 <= b <= 95  // @ A-Z [ \ ] ^ _
    ||| 97 <= b <= 122  // a-z
    ||| b == 124 || b == 126  // | ~
}

/// Whether the bytes form a valid gRPC method path: non-empty, URI path
/// characters only.
pub open spec fn method_path_ok(s: Seq<u8>) -> bool {
    s.len() > 0 && forall|i: int| 0 <= i < s.len() ==> is_uri_path_char(#[trigger] s[i])
}

/// Validate a gRPC method path. Both the unary and the streaming call reject
/// a method that is not a valid request path with `InvalidRequestParameters`
/// before any channel work.
pub fn validate_method_path(method: &str) -> (r: Result<(), NetResultStatus>)
    ensures
        r is Ok <==> method_path_ok(vstd::utf8::encode_utf8(method@)),
        r matches Err(e) ==> e == NetResultStatus::InvalidRequestParameters,
{
    let bytes = method.as_bytes_vec();
    proof {
        assert(bytes@ == vstd::utf8::encode_utf8(method@));
    }
    if bytes.len() == 0 {
        return Err(NetResultStatus::InvalidRequestParameters);
    }
    let mut i: usize = 0;
    while i < bytes.len()
        invariant
            i <= bytes@.len(),
            bytes@.len() > 0,
            bytes@ == vstd::utf8::encode_utf8(method@),
            forall|k: int| 0 <= k < i ==> is_uri_path_char(#[trigger] bytes@[k]),
        decreases bytes.len() - i,
    {
        let b = bytes[i];
        let ok = b == 33 || (36 <= b && b <= 59) || b == 61 || (64 <= b && b <= 95) || (97 <= b && b
            <= 122) || b == 124 || b == 126;
        if !ok {
            proof {
                assert(!is_uri_path_char(vstd::utf8::encode_utf8(method@)[i as int]));
            }
            return Err(NetResultStatus::InvalidRequestParameters);
        }
        i = i + 1;
    }
    Ok(())
}

/// What the reader task observed from the protocol library on one poll of a
/// server stream.
pub enum GrpcReadEvent {
    /// One server message arrived.
    Message(Vec<u8>),
    /// The stream ended gracefully.
    EndOfStream,
    /// The poll failed; `ok_code` says whether the attached gRPC status code
    /// was `Ok`.
    Failure { ok_code: bool },
}

/// What the reader task publishes for one observed event, and whether it then
/// exits: a message is forwarded, a graceful end — or a failure whose gRPC
/// status is `Ok` — publishes end-of-stream, and any other failure publishes
/// `SocketError`; every outcome but a message ends the task.
pub fn grpc_reader_step(event: GrpcReadEvent) -> (r: (
    Result<Option<Vec<u8>>, NetResultStatus>,
    bool,
))
    ensures
        match event {
            GrpcReadEvent::Message(b) => r == ((
                Ok::<Option<Vec<u8>>, NetResultStatus>(Some(b)),
                false,
            )),
            GrpcReadEvent::EndOfStream => r == ((
                Ok::<Option<Vec<u8>>, NetResultStatus>(None),
                true,
            )),
            GrpcReadEvent::Failure { ok_code } => if ok_code {
                r == ((Ok::<Option<Vec<u8>>, NetResultStatus>(None), true))
            } else {
                r == ((
                    Err::<Option<Vec<u8>>, NetResultStatus>(NetResultStatus::SocketError),
                    true,
                ))
            },
        },
{
    match event {
        GrpcReadEvent::Message(b) => (Ok(Some(b)), false),
        GrpcReadEvent::EndOfStream => (Ok(None), true),
        GrpcReadEvent::Failure { ok_code } => {
            if ok_code {
                (Ok(None), true)
            } else {
                (Err(NetResultStatus::SocketError), true)
            }
        },
    }
}

/// One receive on a reader's broadcast, as the fan-out task sees it.
pub enum RecvOutcome {
    /// An item the reader published.
    Item(Result<Option<Vec<u8>>, NetResultStatus>),
    /// The broadcast closed under the subscriber.
    Closed,
    /// The subscriber fell behind and messages were dropped.
    Lagged,
}

/// The event the fan-out emits for one receive, and whether it then stops:
/// a published message becomes `Data`, a published end — or a closed
/// broadcast — becomes the terminal `Close`, a published error becomes the
/// terminal `Error`, and lagging emits nothing.
pub open spec fn fan_out_step_spec(id: Option<i32>, outcome: RecvOutcome) -> (
    Option<NetResponseStream>,
    bool,
) {
    match outcome {
        RecvOutcome::Item(item) => match item {
            Ok(Some(data)) => (
                Some(NetResponseStream::Data(NetResponseStreamData { id, data })),
                false,
            ),
            Ok(None) => (Some(NetResponseStream::Close(id)), true),
            Err(status) => (
                Some(NetResponseStream::Error(NetResponseStreamError { id, status })),
                true,
            ),
        },
        RecvOutcome::Closed => (Some(NetResponseStream::Close(id)), true),
        RecvOutcome::Lagged => (None, false),
    }
}

/// One fan-out step, per [`fan_out_step_spec`].
pub fn fan_out_step(id: Option<i32>, outcome: RecvOutcome) -> (r: (
    Option<NetResponseStream>,
    bool,
))
    ensures
        r == fan_out_step_spec(id, outcome),
{
    match outcome {
        RecvOutcome::Item(item) => match item {
            Ok(Some(data)) => (
                Some(NetResponseStream::Data(NetResponseStreamData { id, data })),
                false,
            ),
            Ok(None) => (Some(NetResponseStream::Close(id)), true),
            Err(status) => (
                Some(NetResponseStream::Error(NetResponseStreamError { id, status })),
                true,
            ),
        },
        RecvOutcome::Closed => (Some(NetResponseStream::Close(id)), true),
        RecvOutcome::Lagged => (None, false),
    }
}

/// The events one fan-out task emits over a sequence of receives, stopping
/// after the first terminal event.
pub open spec fn fan_out_run_spec(id: Option<i32>, outcomes: Seq<RecvOutcome>) -> Seq<
    NetResponseStream,
>
    decreases outcomes.len(),
{
    if outcomes.len() == 0 {
        Seq::empty()
    } else {
        let step = fan_out_step_spec(id, outcomes[0]);
        let head = match step.0 {
            Some(e) => seq![e],
            None => Seq::empty(),
        };
        if step.1 {
            head
        } else {
            head + fan_out_run_spec(id, outcomes.drop_first())
        }
    }
}

/// Drive one fan-out task over a fixed sequence of receives.
#[verifier::loop_isolation(false)]
pub fn fan_out_run(id: Option<i32>, outcomes: Vec<RecvOutcome>) -> (emitted: Vec<NetResponseStream>)
    ensures
        emitted@ == fan_out_run_spec(id, outcomes@),
{
    let ghost orig = outcomes@;
    let mut rest = outcomes;
    let mut emitted: Vec<NetResponseStream> = Vec::new();
    proof {
        assert(emitted@ + fan_out_run_spec(id, rest@) =~= fan_out_run_spec(id, orig));
    }
    while rest.len() > 0
        invariant
            fan_out_run_spec(id, orig) == emitted@ + fan_out_run_spec(id, rest@),
        decreases rest.len(),
    {
        let ghost rest_pre = rest@;
        let outcome = rest.remove(0);
        proof {
            assert(rest@ =~= rest_pre.drop_first());
            assert(outcome == rest_pre[0]);
        }
        let (event, stop) = fan_out_step(id, outcome);
        let ghost head: Seq<NetResponseStream> = match fan_out_step_spec(id, outcome).0 {
            Some(e) => seq![e],
            None => Seq::empty(),
        };
        match event {
            Some(e) => {
                emitted.push(e);
            },
            None => {},
        }
        proof {
            if stop {
                assert(fan_out_run_spec(id, rest_pre) =~= head);
            } else {
                assert(fan_out_run_spec(id, rest_pre) =~= head + fan_out_run_spec(id, rest@));
            }
        }
        if stop {
            proof {
                assert(emitted@ =~= fan_out_run_spec(id, orig));
            }
            return emitted;
        }
        proof {
            assert(emitted@ + fan_out_run_spec(id, rest@) =~= fan_out_run_spec(id, orig));
        }
    }
    proof {
        assert(fan_out_run_spec(id, rest@) =~= Seq::<NetResponseStream>::empty());
        assert(emitted@ =~= fan_out_run_spec(id, orig));
    }
    emitted
}

/// Law (exactly one terminal stream event): over any sequence of receives, a
/// fan-out task emits no event after a terminal one — so at most one terminal
/// event — and it emits exactly one terminal event whenever some receive ends
/// the stream.
pub proof fn lemma_exactly_one_terminal_event(id: Option<i32>, outcomes: Seq<RecvOutcome>)
    ensures
        forall|k: int|
            0 <= k < fan_out_run_spec(id, outcomes).len() - 1 ==> !(#[trigger] fan_out_run_spec(
                id,
                outcomes,
            )[k]).is_terminal(),
        (exists|j: int|
            0 <= j < outcomes.len() && (#[trigger] fan_out_step_spec(id, outcomes[j]).1)) ==> (
        fan_out_run_spec(id, outcomes).len() > 0 && fan_out_run_spec(id, outcomes).last().is_terminal()),
    decreases outcomes.len(),
{
    if outcomes.len() == 0 {
    } else {
        let run = fan_out_run_spec(id, outcomes);
        let step = fan_out_step_spec(id, outcomes[0]);
        let rest = outcomes.drop_first();
        lemma_exactly_one_terminal_event(id, rest);
        if step.1 {
            match outcomes[0] {
                RecvOutcome::Item(item) => {
                    assert(run.last().is_terminal());
                },
                RecvOutcome::Closed => {
                    assert(run.last().is_terminal());
                },
                RecvOutcome::Lagged => {
                    assert(!step.1);
                },
            }
        } else {
            let tail_run = fan_out_run_spec(id, rest);
            match step.0 {
                Some(e) => {
                    assert(!e.is_terminal());
                    assert(run == seq![e] + tail_run);
                    assert(forall|k: int|
                        0 <= k < run.len() - 1 ==> !(#[trigger] run[k]).is_terminal()) by {
                        assert(forall|k: int|
                            1 <= k < run.len() ==> run[k] == #[trigger] tail_run[k - 1]);
                    }
                    if exists|j: int|
                        0 <= j < outcomes.len() && (#[trigger] fan_out_step_spec(
                            id,
                            outcomes[j],
                        ).1) {
                        let j = choose|j: int|
                            0 <= j < outcomes.len() && (#[trigger] fan_out_step_spec(
                                id,
                                outcomes[j],
                            ).1);
                        assert(j != 0);
                        assert(fan_out_step_spec(id, rest[j - 1]).1);
                        assert(run.last() == tail_run.last());
                    }
                },
                None => {
                    assert(run == tail_run);
                    if exists|j: int|
                        0 <= j < outcomes.len() && (#[trigger] fan_out_step_spec(
                            id,
                            outcomes[j],
                        ).1) {
                        let j = choose|j: int|
                            0 <= j < outcomes.len() && (#[trigger] fan_out_step_spec(
                                id,
                                outcomes[j],
                            ).1);
                        assert(j != 0);
                        assert(fan_out_step_spec(id, rest[j - 1]).1);
                    }
                },
            }
        }
    }
}

/// A sequence of stream IDs with no repeats.
pub open spec fn distinct_ids(s: Seq<i32>) -> bool {
    forall|i: int, j: int| 0 <= i < j < s.len() ==> s[i] != s[j]
}

/// The sequence with every occurrence of `id` removed, order kept.
pub open spec fn without_id(s: Seq<i32>, id: i32) -> Seq<i32>
    decreases s.len(),
{
    if s.len() == 0 {
        Seq::empty()
    } else if s[0] == id {
        without_id(s.drop_first(), id)
    } else {
        seq![s[0]] + without_id(s.drop_first(), id)
    }
}

/// Removal only drops elements: everything left was there before, and the
/// removed ID is gone.
pub proof fn lemma_without_id_props(s: Seq<i32>, id: i32)
    ensures
        forall|k: int| 0 <= k < without_id(s, id).len() ==> s.contains(#[trigger] without_id(s, id)[k]),
        !without_id(s, id).contains(id),
        distinct_ids(s) ==> distinct_ids(without_id(s, id)),
        s.contains(id) || without_id(s, id) == s,
    decreases s.len(),
{
    if s.len() == 0 {
        assert(without_id(s, id) =~= s);
    } else {
        let rest = s.drop_first();
        lemma_without_id_props(rest, id);
        assert(forall|k: int| 0 <= k < rest.len() ==> rest[k] == #[trigger] s[k + 1]);
        if s[0] == id {
            assert(s.contains(id));
            assert(forall|k: int|
                0 <= k < without_id(s, id).len() ==> rest.contains(
                    #[trigger] without_id(s, id)[k],
                ));
        } else {
            let r = without_id(s, id);
            assert(r == seq![s[0]] + without_id(rest, id));
            assert(forall|k: int|
                1 <= k < r.len() ==> r[k] == #[trigger] without_id(rest, id)[k - 1]);
            assert(r[0] == s[0]);
            if distinct_ids(s) {
                assert(distinct_ids(rest));
                assert forall|i: int, j: int| 0 <= i < j < r.len() implies r[i] != r[j] by {
                    if i == 0 {
                        assert(rest.contains(r[j]));
                        let w = choose|w: int| 0 <= w < rest.len() && rest[w] == r[j];
                        assert(s[w + 1] == r[j]);
                    }
                }
            }
            if !s.contains(id) {
                assert(!rest.contains(id)) by {
                    assert(forall|k: int| 0 <= k < rest.len() ==> rest[k] == #[trigger] s[k + 1]);
                }
                assert(without_id(rest, id) == rest);
                assert(r =~= s);
            }
        }
    }
}

/// Law (unsubscribe idempotence): removing an ID twice leaves the same
/// registry as removing it once.
pub proof fn lemma_unsubscribe_idempotent(s: Seq<i32>, id: i32)
    ensures
        without_id(without_id(s, id), id) == without_id(s, id),
{
    lemma_without_id_props(s, id);
    lemma_without_id_props(without_id(s, id), id);
}

/// The registry of live stream handles of one gRPC transport: a monotonic ID
/// allocator and the IDs of the streams still live.
pub struct StreamRegistry {
    pub next_id: i32,
    pub live: Vec<i32>,
}

impl StreamRegistry {
    /// Well-formed: IDs start at 1, every live ID was allocated, no repeats.
    pub open spec fn wf(&self) -> bool {
        &&& 1 <= self.next_id
        &&& forall|k: int| 0 <= k < self.live@.len() ==> 1 <= #[trigger] self.live@[k] < self.next_id
        &&& distinct_ids(self.live@)
    }

    /// An empty registry; stream IDs start at 1.
    pub fn new() -> (r: StreamRegistry)
        ensures
            r.wf(),
            r.next_id == 1,
            r.live@ == Seq::<i32>::empty(),
    {
        StreamRegistry { next_id: 1, live: Vec::new() }
    }

    /// Register a fresh stream: the returned ID was never live before, IDs are
    /// allocated in increasing order, and the handle is now live. Exhaustion
    /// of the ID space is an internal error.
    pub fn register(&mut self) -> (r: Result<i32, NetResultStatus>)
        requires
            old(self).wf(),
        ensures
            final(self).wf(),
            old(self).next_id == i32::MAX ==> (r matches Err(e) && e
                == NetResultStatus::InternalError && *final(self) == *old(self)),
            old(self).next_id < i32::MAX ==> (r matches Ok(id) && {
                &&& id == old(self).next_id
                &&& !old(self).live@.contains(id)
                &&& final(self).next_id == old(self).next_id + 1
                &&& final(self).live@ == old(self).live@.push(id)
            }),
    {
        if self.next_id == i32::MAX {
            return Err(NetResultStatus::InternalError);
        }
        let id = self.next_id;
        proof {
            assert(!self.live@.contains(id)) by {
                assert(forall|k: int|
                    0 <= k < self.live@.len() ==> #[trigger] self.live@[k] < self.next_id);
            }
        }
        self.next_id = self.next_id + 1;
        self.live.push(id);
        Ok(id)
    }

    /// Drop a stream handle. Unknown IDs are a successful no-op; the result
    /// says whether the ID was live.
    pub fn remove(&mut self, id: i32) -> (found: bool)
        requires
            old(self).wf(),
        ensures
            final(self).wf(),
            final(self).next_id == old(self).next_id,
            final(self).live@ == without_id(old(self).live@, id),
            found == old(self).live@.contains(id),
    {
        let ghost orig = self.live@;
        let mut kept: Vec<i32> = Vec::new();
        let mut found = false;
        let mut i: usize = 0;
        proof {
            assert(orig.skip(0) =~= orig);
            assert(kept@ + without_id(orig, id) =~= without_id(orig, id));
        }
        while i < self.live.len()
            invariant
                i <= self.live@.len(),
                self.live@ == orig,
                without_id(orig, id) == kept@ + without_id(orig.skip(i as int), id),
                found == orig.take(i as int).contains(id),
            decreases self.live@.len() - i,
        {
            let ghost remaining = orig.skip(i as int);
            let x = self.live[i];
            proof {
                assert(remaining[0] == orig[i as int]);
                assert(remaining.drop_first() =~= orig.skip(i + 1));
            }
            if x == id {
                found = true;
                proof {
                    assert(orig.take(i + 1).contains(id)) by {
                        assert(orig.take(i + 1)[i as int] == id);
                    }
                }
            } else {
                kept.push(x);
                proof {
                    assert(without_id(remaining, id) == seq![remaining[0]] + without_id(
                        remaining.drop_first(),
                        id,
                    ));
                    assert(kept@ + without_id(orig.skip(i + 1), id) =~= without_id(orig, id));
                    if orig.take(i + 1).contains(id) {
                        let w = choose|w: int|
                            0 <= w < i + 1 && #[trigger] orig.take(i + 1)[w] == id;
                        assert(orig.take(i as int)[w] == id);
                    }
                    assert(found == orig.take(i + 1).contains(id));
                }
            }
            i = i + 1;
        }
        proof {
            assert(orig.skip(orig.len() as int) =~= Seq::<i32>::empty());
            assert(kept@ =~= without_id(orig, id));
            assert(orig.take(orig.len() as int) =~= orig);
            lemma_without_id_props(orig, id);
            assert forall|k: int| 0 <= k < kept@.len() implies 1 <= #[trigger] kept@[k]
                < self.next_id by {
                assert(orig.contains(kept@[k]));
                let w = choose|w: int| 0 <= w < orig.len() && orig[w] == kept@[k];
            }
        }
        self.live = kept;
        found
    }

    /// Cancel every live stream: the registry empties; the allocator keeps its
    /// position, so closed IDs are never reused.
    pub fn drain(&mut self) -> (cancelled: Vec<i32>)
        requires
            old(self).wf(),
        ensures
            final(self).wf(),
            final(self).next_id == old(self).next_id,
            final(self).live@ == Seq::<i32>::empty(),
            cancelled@ == old(self).live@,
    {
        let mut empty: Vec<i32> = Vec::new();
        core::mem::swap(&mut empty, &mut self.live);
        empty
    }
}

/// The reply to a gRPC unary call.
pub fn grpc_unary_response(data: Vec<u8>) -> (r: NetResponseKind)
    ensures
        r matches NetResponseKind::Grpc(g) && g matches NetResponseGrpc::Unary(u) && u.data == data,
{
    NetResponseKind::Grpc(NetResponseGrpc::Unary(NetResponseGrpcUnary { data }))
}

/// Open a server stream on a transport: allocate the stream ID, register the
/// handle, and return the synchronous `StreamId` reply the host gets before
/// any `Data` event.
pub fn grpc_stream_response(registry: &mut StreamRegistry) -> (r: Result<
    NetResponseKind,
    NetResultStatus,
>)
    requires
        old(registry).wf(),
    ensures
        final(registry).wf(),
        old(registry).next_id == i32::MAX ==> (r matches Err(e) && e
            == NetResultStatus::InternalError && *final(registry) == *old(registry)),
        old(registry).next_id < i32::MAX ==> (r matches Ok(k) && k matches NetResponseKind::Grpc(g)
            && g matches NetResponseGrpc::StreamId(s) && {
            &&& s.id == old(registry).next_id
            &&& !old(registry).live@.contains(s.id)
            &&& final(registry).next_id == old(registry).next_id + 1
            &&& final(registry).live@ == old(registry).live@.push(s.id)
        }),
{
    let id = match registry.register() {
        Ok(id) => id,
        Err(e) => {
            return Err(e);
        },
    };
    Ok(NetResponseKind::Grpc(NetResponseGrpc::StreamId(NetResponseGrpcSubscribe { id })))
}

/// Drop a stream handle and build the reply. Unsubscribing is idempotent:
/// known and unknown IDs alike succeed, and the reply echoes the requested ID.
pub fn grpc_unsubscribe_response(registry: &mut StreamRegistry, id: i32) -> (r: NetResponseKind)
    requires
        old(registry).wf(),
    ensures
        final(registry).wf(),
        final(registry).next_id == old(registry).next_id,
        final(registry).live@ == without_id(old(registry).live@, id),
        r matches NetResponseKind::Grpc(g) && g matches NetResponseGrpc::Unsubscribe(u) && u.id
            == id,
{
    let _found = registry.remove(id);
    NetResponseKind::Grpc(NetResponseGrpc::Unsubscribe(NetResponseGrpcUnsubscribe { id }))
}

} // verus!
