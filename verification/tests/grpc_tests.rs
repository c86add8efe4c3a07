use net_sdk::address::Utils;
use net_sdk::config::{NetConfig, NetHttpConfig, NetMode, NetProtocol, TlsMode};
use net_sdk::decoder::StreamEncoding;
use net_sdk::grpc::{
    fan_out_run, grpc_reader_step, grpc_stream_response, grpc_unary_response,
    grpc_unsubscribe_response, validate_method_path, BufferCodec, GrpcConnector, GrpcReadEvent,
    RecvOutcome, StreamRegistry,
};
use net_sdk::response::{NetResponseGrpc, NetResponseKind, NetResponseStream};
use net_sdk::status::NetResultStatus;

#[test]
fn reader_step_maps_library_events() {
    let (item, stop) = grpc_reader_step(GrpcReadEvent::Message(b"m".to_vec()));
    assert!(matches!(item, Ok(Some(ref b)) if b == &b"m".to_vec()));
    assert!(!stop);

    let (item, stop) = grpc_reader_step(GrpcReadEvent::EndOfStream);
    assert!(matches!(item, Ok(None)));
    assert!(stop);

    let (item, stop) = grpc_reader_step(GrpcReadEvent::Failure { ok_code: true });
    assert!(matches!(item, Ok(None)));
    assert!(stop);

    let (item, stop) = grpc_reader_step(GrpcReadEvent::Failure { ok_code: false });
    assert!(matches!(item, Err(NetResultStatus::SocketError)));
    assert!(stop);
}

#[test]
fn stream_fan_out_three_messages_then_close() {
    // Server messages A, B, C then end-of-stream: Data, Data, Data, Close{1}.
    let outcomes = vec![
        RecvOutcome::Item(Ok(Some(b"A".to_vec()))),
        RecvOutcome::Item(Ok(Some(b"B".to_vec()))),
        RecvOutcome::Item(Ok(Some(b"C".to_vec()))),
        RecvOutcome::Item(Ok(None)),
    ];
    let events = fan_out_run(Some(1), outcomes);
    assert_eq!(events.len(), 4);
    assert!(matches!(&events[0], NetResponseStream::Data(d) if d.id == Some(1) && d.data == b"A".to_vec()));
    assert!(matches!(&events[1], NetResponseStream::Data(d) if d.data == b"B".to_vec()));
    assert!(matches!(&events[2], NetResponseStream::Data(d) if d.data == b"C".to_vec()));
    assert!(matches!(&events[3], NetResponseStream::Close(Some(1))));
}

#[test]
fn fan_out_stops_at_first_terminal_event() {
    let outcomes = vec![
        RecvOutcome::Item(Err(NetResultStatus::SocketError)),
        RecvOutcome::Item(Ok(Some(b"late".to_vec()))),
    ];
    let events = fan_out_run(Some(7), outcomes);
    assert_eq!(events.len(), 1);
    assert!(matches!(&events[0], NetResponseStream::Error(e) if e.id == Some(7)));
}

#[test]
fn fan_out_ignores_lagging_and_closes_on_closed_broadcast() {
    let outcomes = vec![
        RecvOutcome::Lagged,
        RecvOutcome::Item(Ok(Some(b"x".to_vec()))),
        RecvOutcome::Closed,
    ];
    let events = fan_out_run(Some(2), outcomes);
    assert_eq!(events.len(), 2);
    assert!(matches!(&events[0], NetResponseStream::Data(_)));
    assert!(matches!(&events[1], NetResponseStream::Close(Some(2))));
}

#[test]
fn stream_ids_start_at_one_and_never_repeat() {
    let mut registry = StreamRegistry::new();
    let first = registry.register().unwrap();
    let second = registry.register().unwrap();
    let third = registry.register().unwrap();
    assert_eq!(first, 1);
    assert_eq!(second, 2);
    assert_eq!(third, 3);
}

#[test]
fn unsubscribe_is_idempotent_and_echoes_the_id() {
    let mut registry = StreamRegistry::new();
    let id = registry.register().unwrap();

    let first = grpc_unsubscribe_response(&mut registry, id);
    assert!(matches!(first, NetResponseKind::Grpc(NetResponseGrpc::Unsubscribe(u)) if u.id == id));

    let second = grpc_unsubscribe_response(&mut registry, id);
    assert!(matches!(second, NetResponseKind::Grpc(NetResponseGrpc::Unsubscribe(u)) if u.id == id));

    let unknown = grpc_unsubscribe_response(&mut registry, 99);
    assert!(matches!(unknown, NetResponseKind::Grpc(NetResponseGrpc::Unsubscribe(u)) if u.id == 99));
}

#[test]
fn stream_response_returns_fresh_stream_ids() {
    let mut registry = StreamRegistry::new();
    let first = grpc_stream_response(&mut registry).unwrap();
    assert!(matches!(first, NetResponseKind::Grpc(NetResponseGrpc::StreamId(s)) if s.id == 1));
    let second = grpc_stream_response(&mut registry).unwrap();
    assert!(matches!(second, NetResponseKind::Grpc(NetResponseGrpc::StreamId(s)) if s.id == 2));
}

#[test]
fn registry_drain_cancels_everything() {
    let mut registry = StreamRegistry::new();
    registry.register().unwrap();
    registry.register().unwrap();
    let cancelled = registry.drain();
    assert_eq!(cancelled, vec![1, 2]);
    assert!(registry.live.is_empty());
}

#[test]
fn unary_response_carries_the_bytes() {
    let r = grpc_unary_response(b"reply".to_vec());
    assert!(matches!(r, NetResponseKind::Grpc(NetResponseGrpc::Unary(u)) if u.data == b"reply".to_vec()));
}

#[test]
fn grpc_method_path_is_validated_before_any_channel_work() {
    assert!(validate_method_path("/svc/Sub").is_ok());
    assert!(validate_method_path("/pkg.Service/Method").is_ok());
    assert!(matches!(
        validate_method_path(""),
        Err(NetResultStatus::InvalidRequestParameters)
    ));
    assert!(matches!(
        validate_method_path("/svc /Sub"),
        Err(NetResultStatus::InvalidRequestParameters)
    ));
    assert!(matches!(
        validate_method_path("/svc/Sub#frag"),
        Err(NetResultStatus::InvalidRequestParameters)
    ));
    assert!(matches!(
        validate_method_path("/svc/S\u{e9}b"),
        Err(NetResultStatus::InvalidRequestParameters)
    ));
}

#[test]
fn raw_codec_passes_bytes_through_unchanged() {
    let codec = BufferCodec::default();
    let encoded = codec.encoder().encode(vec![0x00, 0xff, 0x10]);
    assert_eq!(encoded, vec![0x00, 0xff, 0x10]);
    let decoded = codec.decoder().decode(encoded);
    assert_eq!(decoded, vec![0x00, 0xff, 0x10]);
}

#[test]
fn connector_carries_tls_settings_and_dials_clearnet_grpc() {
    let addr = Utils::parse_http_url("https://grpc.example:8443/").unwrap();
    let config = NetConfig {
        addr,
        mode: NetMode::Tor,
        http: NetHttpConfig { headers: Vec::new(), protocol: None, global_client: false },
        protocol: NetProtocol::Grpc,
        tls_mode: TlsMode::Dangerous,
        tor_config: None,
        encoding: StreamEncoding::Json,
    };
    let connector = GrpcConnector::default(&config);
    assert!(matches!(connector.tls_mode, TlsMode::Dangerous));

    let dial_addr = Utils::parse_http_url("https://grpc.example:8443/").unwrap();
    let dial = connector.dial_config(dial_addr);
    assert!(matches!(dial.mode, NetMode::Clearnet));
    assert!(matches!(dial.protocol, NetProtocol::Grpc));
    assert!(matches!(dial.tls_mode, TlsMode::Dangerous));
    assert!(matches!(dial.encoding, StreamEncoding::Raw));
    assert!(dial.http.headers.is_empty());
}
