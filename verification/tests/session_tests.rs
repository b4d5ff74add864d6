use ws_proxy::dispatch::{
    handle_read_event, handle_tcp_close, handle_tcp_open_connected, handle_tcp_write,
    handle_tls_handshake_ok, tcp_write_result_frame, tls_handshake_error_frame, ReadEvent,
    TcpCloseRequest, TcpOpenRequest, TcpOpenStep, TcpWriteRequest, TcpWriteStep,
};
use ws_proxy::session::Session;

fn text(frame: Vec<u8>) -> String {
    String::from_utf8(frame).unwrap()
}

fn open_req(id: u64, tls: Option<bool>, server_name: Option<&str>) -> TcpOpenRequest {
    TcpOpenRequest {
        id,
        host: "127.0.0.1".to_string(),
        port: 4000,
        tls,
        server_name: server_name.map(|s| s.to_string()),
        insecure: None,
    }
}

fn write_req(id: u64, stream_id: u64, data: &str, enc: &str) -> TcpWriteRequest {
    TcpWriteRequest {
        id,
        stream_id,
        data: Some(data.to_string()),
        data_encoding: Some(enc.to_string()),
    }
}

#[test]
fn stream_ids_start_at_one_and_increase() {
    let mut sess = Session::new();
    let steps = [
        handle_tcp_open_connected(&mut sess, &open_req(1, None, None)),
        handle_tcp_open_connected(&mut sess, &open_req(2, None, None)),
        handle_tcp_open_connected(&mut sess, &open_req(3, None, None)),
    ];
    let mut seen = Vec::new();
    for s in steps {
        match s {
            TcpOpenStep::OpenPlain { stream_id, .. } => seen.push(stream_id),
            _ => panic!("expected a plain open"),
        }
    }
    assert_eq!(seen, vec![1, 2, 3]);
}

#[test]
fn plain_open_answers_ok_with_the_stream_id() {
    let mut sess = Session::new();
    match handle_tcp_open_connected(&mut sess, &open_req(4, None, None)) {
        TcpOpenStep::OpenPlain { stream_id, frame } => {
            assert_eq!(stream_id, 1);
            assert_eq!(
                text(frame),
                r#"{"type":"tcp_open","id":4,"streamId":1,"ok":true,"error":null}"#
            );
        },
        _ => panic!("expected a plain open"),
    }
}

#[test]
fn unknown_stream_write_is_refused() {
    let sess = Session::new();
    match handle_tcp_write(&sess, &write_req(20, 999, "cGluZw==", "base64")) {
        TcpWriteStep::Reply(f) => assert_eq!(
            text(f),
            r#"{"type":"tcp_write","id":20,"ok":false,"error":"unknown stream"}"#
        ),
        _ => panic!("expected a settled reply"),
    }
}

#[test]
fn plain_echo_session_flow() {
    let mut sess = Session::new();
    let stream_id = match handle_tcp_open_connected(&mut sess, &open_req(1, None, None)) {
        TcpOpenStep::OpenPlain { stream_id, frame } => {
            assert!(text(frame).contains(r#""ok":true"#));
            stream_id
        },
        _ => panic!("expected a plain open"),
    };
    match handle_tcp_write(&sess, &write_req(10, stream_id, "cGluZw==", "base64")) {
        TcpWriteStep::Write { stream_id: sid, data } => {
            assert_eq!(sid, stream_id);
            assert_eq!(data, b"ping".to_vec());
        },
        _ => panic!("expected a write step"),
    }
    assert_eq!(
        text(tcp_write_result_frame(10, &None)),
        r#"{"type":"tcp_write","id":10,"ok":true,"error":null}"#
    );
    let step = handle_read_event(&mut sess, stream_id, &ReadEvent::Data(b"ping".to_vec()));
    assert!(!step.closed);
    assert_eq!(
        text(step.frame),
        r#"{"type":"tcp_data","streamId":1,"data":"cGluZw==","dataEncoding":"base64"}"#
    );
    let close = handle_tcp_close(&mut sess, &TcpCloseRequest { id: 11, stream_id });
    assert_eq!(text(close), r#"{"type":"tcp_close","streamId":1,"error":null}"#);
    match handle_tcp_write(&sess, &write_req(12, stream_id, "cGluZw==", "base64")) {
        TcpWriteStep::Reply(f) => assert!(text(f).contains("unknown stream")),
        _ => panic!("the stream should be gone after the close"),
    }
}

#[test]
fn write_with_bad_data_is_refused_before_lookup() {
    let mut sess = Session::new();
    let _ = handle_tcp_open_connected(&mut sess, &open_req(1, None, None));
    match handle_tcp_write(&sess, &write_req(2, 1, "hi", "hex")) {
        TcpWriteStep::Reply(f) => assert_eq!(
            text(f),
            r#"{"type":"tcp_write","id":2,"ok":false,"error":"unsupported body encoding: hex"}"#
        ),
        _ => panic!("expected a settled reply"),
    }
}

#[test]
fn write_error_frame_has_its_prefix() {
    let f = tcp_write_result_frame(9, &Some("broken pipe".to_string()));
    assert_eq!(
        text(f),
        r#"{"type":"tcp_write","id":9,"ok":false,"error":"write error: broken pipe"}"#
    );
}

#[test]
fn bad_server_name_fails_without_leaking_the_id() {
    let mut sess = Session::new();
    match handle_tcp_open_connected(&mut sess, &open_req(5, Some(true), Some("not a hostname!"))) {
        TcpOpenStep::Reply(f) => {
            let t = text(f);
            assert!(t.contains(r#""ok":false"#), "{t}");
            assert!(t.contains(r#""streamId":null"#), "{t}");
            assert!(t.contains("bad server name: "), "{t}");
        },
        _ => panic!("expected a settled failure"),
    }
    match handle_tcp_write(&sess, &write_req(6, 1, "cGluZw==", "base64")) {
        TcpWriteStep::Reply(f) => assert!(text(f).contains("unknown stream")),
        _ => panic!("the consumed id must not be writable"),
    }
}

#[test]
fn id_consumed_by_failed_tls_open_is_not_reused() {
    let mut sess = Session::new();
    let _ = handle_tcp_open_connected(&mut sess, &open_req(5, Some(true), Some("not a hostname!")));
    match handle_tcp_open_connected(&mut sess, &open_req(6, None, None)) {
        TcpOpenStep::OpenPlain { stream_id, .. } => assert_eq!(stream_id, 2),
        _ => panic!("expected a plain open"),
    }
}

#[test]
fn tls_open_inserts_only_after_the_handshake() {
    let mut sess = Session::new();
    let stream_id = match handle_tcp_open_connected(
        &mut sess,
        &open_req(7, Some(true), Some("example.com")),
    ) {
        TcpOpenStep::OpenTls { stream_id, server_name, insecure } => {
            assert!(!insecure);
            assert_eq!(server_name, "example.com");
            stream_id
        },
        _ => panic!("expected a TLS handshake step"),
    };
    match handle_tcp_write(&sess, &write_req(8, stream_id, "cGluZw==", "base64")) {
        TcpWriteStep::Reply(f) => assert!(text(f).contains("unknown stream")),
        _ => panic!("the stream is not open before the handshake"),
    }
    let frame = handle_tls_handshake_ok(&mut sess, 7, stream_id);
    assert_eq!(
        text(frame),
        r#"{"type":"tcp_open","id":7,"streamId":1,"ok":true,"error":null}"#
    );
    match handle_tcp_write(&sess, &write_req(9, stream_id, "cGluZw==", "base64")) {
        TcpWriteStep::Write { .. } => {},
        _ => panic!("the stream must be open after the handshake"),
    }
}

#[test]
fn tls_handshake_failure_frame_text() {
    let f = tls_handshake_error_frame(7, "bad certificate");
    assert_eq!(
        text(f),
        r#"{"type":"tcp_open","id":7,"streamId":null,"ok":false,"error":"tls handshake error: bad certificate"}"#
    );
}

#[test]
fn reader_eof_emits_terminal_close_and_removes_the_stream() {
    let mut sess = Session::new();
    let _ = handle_tcp_open_connected(&mut sess, &open_req(1, None, None));
    let step = handle_read_event(&mut sess, 1, &ReadEvent::Eof);
    assert!(step.closed);
    assert_eq!(text(step.frame), r#"{"type":"tcp_close","streamId":1,"error":null}"#);
    match handle_tcp_write(&sess, &write_req(2, 1, "cGluZw==", "base64")) {
        TcpWriteStep::Reply(f) => assert!(text(f).contains("unknown stream")),
        _ => panic!("the stream should be gone after the reader's close"),
    }
}

#[test]
fn reader_error_emits_close_with_prefix() {
    let mut sess = Session::new();
    let _ = handle_tcp_open_connected(&mut sess, &open_req(1, None, None));
    let step = handle_read_event(&mut sess, 1, &ReadEvent::Failed("reset by peer".to_string()));
    assert!(step.closed);
    assert_eq!(
        text(step.frame),
        r#"{"type":"tcp_close","streamId":1,"error":"read error: reset by peer"}"#
    );
}

#[test]
fn data_chunks_keep_their_bytes_in_emission_order() {
    let mut sess = Session::new();
    let _ = handle_tcp_open_connected(&mut sess, &open_req(1, None, None));
    let chunks: [&[u8]; 3] = [b"ab", b"cd", b"e"];
    let mut payloads = Vec::new();
    for c in chunks {
        let step = handle_read_event(&mut sess, 1, &ReadEvent::Data(c.to_vec()));
        let t = text(step.frame);
        let start = t.find(r#""data":""#).unwrap() + 8;
        let end = t[start..].find('"').unwrap() + start;
        payloads.push(
            ws_proxy::codec::decode_body(
                &Some(t[start..end].to_string()),
                &Some("base64".to_string()),
            )
            .unwrap(),
        );
    }
    let joined: Vec<u8> = payloads.concat();
    assert_eq!(joined, b"abcde".to_vec());
}

#[test]
fn closing_an_unknown_stream_still_echoes_a_close() {
    let mut sess = Session::new();
    let f = handle_tcp_close(&mut sess, &TcpCloseRequest { id: 1, stream_id: 42 });
    assert_eq!(text(f), r#"{"type":"tcp_close","streamId":42,"error":null}"#);
}
