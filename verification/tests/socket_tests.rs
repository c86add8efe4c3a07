use net_sdk::config::{NetHttpConfig, NetMode, NetProtocol, NetRequestConfig, TlsMode};
use net_sdk::decoder::StreamEncoding;
use net_sdk::grpc::RecvOutcome;
use net_sdk::request::{NetRequestSocket, NetRequestSocketSend};
use net_sdk::response::{NetResponseKind, NetResponseStream};
use net_sdk::socket::{
    raw_reader_step, socket_client_kind, socket_do_request, socket_fanout_run, ws_reader_step,
    RawReadEvent, SocketAction, SocketClientKind, SocketSubscription, WsReadEvent,
};
use net_sdk::status::NetResultStatus;

#[test]
fn raw_reader_publishes_chunks_and_ends_cleanly() {
    let (item, stop) = raw_reader_step(RawReadEvent::Chunk(vec![1, 2, 3]));
    assert!(matches!(item, Ok(Some(ref b)) if b == &vec![1, 2, 3]));
    assert!(!stop);

    for event in [RawReadEvent::Eof, RawReadEvent::ConnectionReset, RawReadEvent::BrokenPipe] {
        let (item, stop) = raw_reader_step(event);
        assert!(matches!(item, Ok(None)));
        assert!(stop);
    }

    let (item, stop) = raw_reader_step(RawReadEvent::OtherError);
    assert!(matches!(item, Err(NetResultStatus::SocketError)));
    assert!(stop);
}

#[test]
fn ws_reader_decodes_text_to_bytes_and_skips_control_frames() {
    let (item, stop) = ws_reader_step(WsReadEvent::Binary(vec![0x01, 0x02]));
    assert!(matches!(item, Some(Ok(Some(ref b))) if b == &vec![0x01, 0x02]));
    assert!(!stop);

    let (item, stop) = ws_reader_step(WsReadEvent::Text("héllo".to_string()));
    assert!(matches!(item, Some(Ok(Some(ref b))) if b == &"héllo".as_bytes().to_vec()));
    assert!(!stop);

    let (item, stop) = ws_reader_step(WsReadEvent::Control);
    assert!(item.is_none());
    assert!(!stop);

    let (item, stop) = ws_reader_step(WsReadEvent::StreamEnd);
    assert!(matches!(item, Some(Ok(None))));
    assert!(stop);

    let (item, stop) = ws_reader_step(WsReadEvent::ReadError);
    assert!(matches!(item, Some(Err(NetResultStatus::SocketError))));
    assert!(stop);
}

#[test]
fn websocket_echo_then_server_close() {
    // Send [0x01,0x02], remote echoes, then the server closes: one Data with
    // the echoed bytes and exactly one Close without a stream ID.
    let outcomes = vec![
        RecvOutcome::Item(Ok(Some(vec![0x01, 0x02]))),
        RecvOutcome::Item(Ok(None)),
    ];
    let events = socket_fanout_run(StreamEncoding::Raw, outcomes);
    assert_eq!(events.len(), 2);
    assert!(matches!(&events[0], NetResponseStream::Data(d) if d.id.is_none() && d.data == vec![0x01, 0x02]));
    assert!(matches!(&events[1], NetResponseStream::Close(None)));
}

#[test]
fn socket_fanout_reassembles_json_across_chunks() {
    let outcomes = vec![
        RecvOutcome::Item(Ok(Some(b"{\"a\":1}{\"b\":[2".to_vec()))),
        RecvOutcome::Item(Ok(Some(b",3]}".to_vec()))),
        RecvOutcome::Item(Ok(None)),
    ];
    let events = socket_fanout_run(StreamEncoding::Json, outcomes);
    assert_eq!(events.len(), 3);
    assert!(matches!(&events[0], NetResponseStream::Data(d) if d.data == b"{\"a\":1}".to_vec()));
    assert!(matches!(&events[1], NetResponseStream::Data(d) if d.data == b"{\"b\":[2,3]}".to_vec()));
    assert!(matches!(&events[2], NetResponseStream::Close(None)));
}

#[test]
fn socket_fanout_raw_one_data_per_chunk() {
    let outcomes = vec![
        RecvOutcome::Item(Ok(Some(b"one".to_vec()))),
        RecvOutcome::Item(Ok(Some(b"two".to_vec()))),
        RecvOutcome::Item(Ok(Some(b"three".to_vec()))),
    ];
    let events = socket_fanout_run(StreamEncoding::Raw, outcomes);
    assert_eq!(events.len(), 3);
    for (event, expected) in events.iter().zip([&b"one"[..], b"two", b"three"]) {
        assert!(matches!(event, NetResponseStream::Data(d) if d.data == expected.to_vec()));
    }
}

#[test]
fn socket_fanout_stops_at_error() {
    let outcomes = vec![
        RecvOutcome::Item(Err(NetResultStatus::SocketError)),
        RecvOutcome::Item(Ok(Some(b"late".to_vec()))),
    ];
    let events = socket_fanout_run(StreamEncoding::Raw, outcomes);
    assert_eq!(events.len(), 1);
    assert!(matches!(&events[0], NetResponseStream::Error(e) if e.id.is_none()));
}

#[test]
fn socket_dispatch_acknowledges_every_request() {
    let (action, ack) = socket_do_request(NetRequestSocket::Subscribe);
    assert!(matches!(action, SocketAction::Subscribe));
    assert!(matches!(ack, NetResponseKind::Socket(_)));

    let (action, ack) = socket_do_request(NetRequestSocket::Unsubscribe);
    assert!(matches!(action, SocketAction::Unsubscribe));
    assert!(matches!(ack, NetResponseKind::Socket(_)));

    let (action, ack) = socket_do_request(NetRequestSocket::Send(NetRequestSocketSend {
        data: vec![9, 8],
    }));
    assert!(matches!(action, SocketAction::Send(d) if d == vec![9, 8]));
    assert!(matches!(ack, NetResponseKind::Socket(_)));
}

#[test]
fn subscription_is_idempotent() {
    let mut sub = SocketSubscription::new();
    assert!(sub.begin());
    assert!(!sub.begin());
    assert!(sub.active);
    sub.end();
    assert!(!sub.active);
    assert!(sub.begin());
}

#[test]
fn socket_transport_config_accepts_both_socket_class_readings() {
    let request = |url: &str, protocol: NetProtocol| NetRequestConfig {
        url: url.to_string(),
        mode: NetMode::Clearnet,
        protocol,
        http: NetHttpConfig { headers: Vec::new(), protocol: None, global_client: false },
        tls_mode: TlsMode::Safe,
        tor_config: None,
        encoding: StreamEncoding::Raw,
    };

    let raw = net_sdk::socket::socket_transport_config(&request("tcp://h:9000", NetProtocol::Socket)).unwrap();
    assert_eq!(raw.addr.port, 9000);
    let ws = net_sdk::socket::socket_transport_config(&request("wss://h/", NetProtocol::WebSocket)).unwrap();
    assert!(ws.addr.is_tls);

    // A WebSocket config with a bad URL reports the URL; a raw-socket config
    // with a bad URL falls through the WebSocket protocol check.
    assert!(matches!(
        net_sdk::socket::socket_transport_config(&request("http://h/", NetProtocol::WebSocket)),
        Err(NetResultStatus::InvalidUrl)
    ));
    assert!(matches!(
        net_sdk::socket::socket_transport_config(&request("http://h/", NetProtocol::Socket)),
        Err(NetResultStatus::InvalidConfigParameters)
    ));
    assert!(matches!(
        net_sdk::socket::socket_transport_config(&request("http://h/", NetProtocol::Http)),
        Err(NetResultStatus::InvalidConfigParameters)
    ));
}

#[test]
fn socket_transport_accepts_socket_class_protocols_only() {
    assert!(matches!(socket_client_kind(&NetProtocol::WebSocket), Ok(SocketClientKind::WebSocket)));
    assert!(matches!(socket_client_kind(&NetProtocol::Socket), Ok(SocketClientKind::Raw)));
    assert!(matches!(
        socket_client_kind(&NetProtocol::Http),
        Err(NetResultStatus::InvalidConfigParameters)
    ));
    assert!(matches!(
        socket_client_kind(&NetProtocol::Grpc),
        Err(NetResultStatus::InvalidConfigParameters)
    ));
}
