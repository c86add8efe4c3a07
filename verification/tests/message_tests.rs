use net_sdk::config::NetProtocol;
use net_sdk::decoder::StreamEncoding;
use net_sdk::request::{
    headers_from_refs, NetHttpHeaderRef, NetRequest, NetRequestGrpc, NetRequestGrpcUnary,
    NetRequestHttp, NetRequestKind, NetRequestSocket, NetRequestSocketSend,
};
use net_sdk::response::{
    NetResponseGrpc, NetResponseGrpcSubscribe, NetResponseGrpcUnary, NetResponseGrpcUnsubscribe,
    NetResponseHttp, NetResponseKind, NetResponseSocketOk, NetResponseStream,
    NetResponseStreamData, NetResponseStreamError,
};
use net_sdk::status::NetResultStatus;

fn request(kind: NetRequestKind) -> NetRequest {
    NetRequest { transport_id: 258, id: 1, timeout: 30, kind }
}

fn grpc_unary_kind() -> NetRequestKind {
    NetRequestKind::Grpc(NetRequestGrpc::Unary(NetRequestGrpcUnary {
        method: "/svc/Call".to_string(),
        data: b"payload".to_vec(),
    }))
}

fn http_kind() -> NetRequestKind {
    NetRequestKind::Http(NetRequestHttp {
        method: "GET".to_string(),
        url: "https://example.com/".to_string(),
        body: None,
        headers: None,
        encoding: StreamEncoding::Raw,
        retry_config: net_sdk::http::NetHttpRetryConfig::default(),
    })
}

#[test]
fn request_accessors_match_the_kind() {
    let http = request(http_kind());
    assert!(http.to_http_request().is_ok());
    assert!(matches!(
        http.to_grpc_request(),
        Err(NetResultStatus::InvalidRequestParameters)
    ));
    assert!(matches!(
        http.to_socket_request(),
        Err(NetResultStatus::InvalidRequestParameters)
    ));

    let grpc = request(grpc_unary_kind());
    assert!(grpc.to_grpc_request().is_ok());
    assert!(grpc.to_http_request().is_err());

    let socket = request(NetRequestKind::Socket(NetRequestSocket::Subscribe));
    assert!(socket.to_socket_request().is_ok());
}

#[test]
fn protocol_check_follows_the_dispatch_table() {
    let socket = request(NetRequestKind::Socket(NetRequestSocket::Subscribe));
    assert!(socket.to_protocol_config(NetProtocol::WebSocket).is_ok());
    assert!(socket.to_protocol_config(NetProtocol::Socket).is_ok());
    assert!(matches!(
        socket.to_protocol_config(NetProtocol::Http),
        Err(NetResultStatus::InvalidRequestParameters)
    ));
    let http = request(http_kind());
    assert!(http.to_protocol_config(NetProtocol::Http).is_ok());
    assert!(http.to_protocol_config(NetProtocol::Grpc).is_err());
}

#[test]
fn socket_request_from_parts_table() {
    assert!(matches!(
        NetRequestSocket::from_parts(1, Some(b"x".to_vec())),
        Ok(NetRequestSocket::Send(NetRequestSocketSend { data })) if data == b"x".to_vec()
    ));
    assert!(matches!(
        NetRequestSocket::from_parts(1, None),
        Err(NetResultStatus::InvalidRequestParameters)
    ));
    assert!(matches!(NetRequestSocket::from_parts(2, None), Ok(NetRequestSocket::Subscribe)));
    assert!(matches!(NetRequestSocket::from_parts(3, None), Ok(NetRequestSocket::Unsubscribe)));
    assert!(matches!(
        NetRequestSocket::from_parts(4, None),
        Err(NetResultStatus::InvalidRequestParameters)
    ));
}

#[test]
fn grpc_request_from_parts_table() {
    let unary = NetRequestGrpc::from_parts(1, Some(("/svc/U".to_string(), b"d".to_vec())), None);
    assert!(matches!(unary, Ok(NetRequestGrpc::Unary(u)) if u.method == "/svc/U" && u.data == b"d".to_vec()));

    let stream = NetRequestGrpc::from_parts(2, Some(("/svc/S".to_string(), Vec::new())), None);
    assert!(matches!(stream, Ok(NetRequestGrpc::Stream(s)) if s.method == "/svc/S" && s.data.is_empty()));

    let unsub = NetRequestGrpc::from_parts(3, None, Some(4));
    assert!(matches!(unsub, Ok(NetRequestGrpc::Unsubscribe(u)) if u.id == 4));

    assert!(matches!(
        NetRequestGrpc::from_parts(1, None, None),
        Err(NetResultStatus::InvalidRequestParameters)
    ));
    assert!(matches!(
        NetRequestGrpc::from_parts(3, None, None),
        Err(NetResultStatus::InvalidRequestParameters)
    ));
    assert!(matches!(
        NetRequestGrpc::from_parts(0, None, None),
        Err(NetResultStatus::InvalidRequestParameters)
    ));
}

#[test]
fn http_request_from_parts_defaults_the_retry_policy() {
    let r = NetRequestHttp::from_parts(
        "POST".to_string(),
        "https://example.com/x".to_string(),
        Some(b"body".to_vec()),
        None,
        1,
        None,
    )
    .unwrap();
    assert!(matches!(r.encoding, StreamEncoding::Json));
    assert_eq!(r.retry_config.max_retries, 1);
    assert_eq!(r.retry_config.retry_delay, 0);

    assert!(matches!(
        NetRequestHttp::from_parts("GET".to_string(), "u".to_string(), None, None, 9, None),
        Err(NetResultStatus::InvalidRequestParameters)
    ));
}

#[test]
fn header_refs_convert_to_transport_headers() {
    let refs = vec![
        NetHttpHeaderRef { key: "a".to_string(), value: "1".to_string() },
        NetHttpHeaderRef { key: "b".to_string(), value: "2".to_string() },
    ];
    let headers = headers_from_refs(&refs);
    assert_eq!(headers.len(), 2);
    assert_eq!(headers[0].key, "a");
    assert_eq!(headers[1].value, "2");
}

#[test]
fn status_codes_match_the_table() {
    assert_eq!(NetResultStatus::OK.code(), 100);
    assert_eq!(NetResultStatus::InvalidUrl.code(), 1);
    assert_eq!(NetResultStatus::TlsError.code(), 2);
    assert_eq!(NetResultStatus::ConnectionError.code(), 3);
    assert_eq!(NetResultStatus::TorNetError.code(), 4);
    assert_eq!(NetResultStatus::SocketError.code(), 10);
    assert_eq!(NetResultStatus::Http2ConnectionFailed.code(), 13);
    assert_eq!(NetResultStatus::InvalidRequestParameters.code(), 15);
    assert_eq!(NetResultStatus::InvalidConfigParameters.code(), 16);
    assert_eq!(NetResultStatus::TransportNotFound.code(), 17);
    assert_eq!(NetResultStatus::RequestTimeout.code(), 22);
    assert_eq!(NetResultStatus::InvalidTorConfig.code(), 23);
    assert_eq!(NetResultStatus::TorInitializationFailed.code(), 24);
    assert_eq!(NetResultStatus::TorClientNotInitialized.code(), 26);
    assert_eq!(NetResultStatus::InternalError.code(), 27);
    assert_eq!(NetResultStatus::InstanceDoesNotExist.code(), 28);
}

#[test]
fn response_kind_tags_cover_every_variant() {
    assert_eq!(NetResponseKind::Socket(NetResponseSocketOk).kind_tag(), 1);
    assert_eq!(
        NetResponseKind::Grpc(NetResponseGrpc::Unary(NetResponseGrpcUnary::new(Vec::new())))
            .kind_tag(),
        2
    );
    assert_eq!(
        NetResponseKind::Grpc(NetResponseGrpc::StreamId(NetResponseGrpcSubscribe::new(1)))
            .kind_tag(),
        3
    );
    assert_eq!(
        NetResponseKind::Grpc(NetResponseGrpc::Unsubscribe(NetResponseGrpcUnsubscribe::new(1)))
            .kind_tag(),
        4
    );
    assert_eq!(
        NetResponseKind::Http(NetResponseHttp::new(200, Vec::new(), Vec::new(), StreamEncoding::Raw))
            .kind_tag(),
        5
    );
    assert_eq!(
        NetResponseKind::Stream(NetResponseStream::Data(NetResponseStreamData::new(None, Vec::new())))
            .kind_tag(),
        6
    );
    assert_eq!(NetResponseKind::Stream(NetResponseStream::Close(None)).kind_tag(), 7);
    assert_eq!(
        NetResponseKind::Stream(NetResponseStream::Error(NetResponseStreamError::new(
            None,
            NetResultStatus::SocketError
        )))
        .kind_tag(),
        8
    );
    assert_eq!(NetResponseKind::ResponseError(NetResultStatus::InternalError).kind_tag(), 9);
    assert_eq!(NetResponseKind::TransportClosed.kind_tag(), 10);
    assert_eq!(NetResponseKind::TorInited(true).kind_tag(), 11);
}

#[test]
fn response_selectors_pick_the_right_variant() {
    let unary = NetResponseKind::Grpc(NetResponseGrpc::Unary(NetResponseGrpcUnary::new(b"u".to_vec())));
    assert_eq!(unary.grpc_unary().unwrap().data(), b"u".to_vec());
    assert!(unary.grpc_stream_id().is_none());
    assert!(unary.http().is_none());

    let close_anonymous = NetResponseKind::Stream(NetResponseStream::Close(None));
    assert_eq!(close_anonymous.stream_close(), Some(-1));
    let close_named = NetResponseKind::Stream(NetResponseStream::Close(Some(3)));
    assert_eq!(close_named.stream_close(), Some(3));

    let data = NetResponseKind::Stream(NetResponseStream::Data(NetResponseStreamData::new(
        Some(2),
        b"d".to_vec(),
    )));
    let picked = data.stream_data().unwrap();
    assert_eq!(picked.id(), Some(2));
    assert_eq!(picked.data(), b"d".to_vec());
    assert!(data.stream_close().is_none());

    let error = NetResponseKind::ResponseError(NetResultStatus::TlsError);
    assert!(matches!(error.error(), Some(NetResultStatus::TlsError)));

    let http = NetResponseKind::Http(NetResponseHttp::new(
        201,
        b"ok".to_vec(),
        Vec::new(),
        StreamEncoding::Raw,
    ));
    let picked = http.http().unwrap();
    assert_eq!(picked.status_code(), 201);
    assert_eq!(picked.body(), b"ok".to_vec());
}
