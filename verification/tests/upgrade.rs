use base64::Engine;
use hyper_websocket::{
    AcceptPoll, Headers, HttpVersion, IoProgress, Method, RejectPoll, RespondPoll, UpgradeError,
    WsHandshake, WsHttpVersion, WsResponse,
};
use sha1::{Digest, Sha1};

const SAMPLE_KEY: &str = "r3MGDiK57a1jWWkCmkiK5g==";
const SAMPLE_ACCEPT: &str = "JLE0Vo61YzV3Sfq6kch3QrFZICM=";
const GUID: &str = "258EAFA5-E914-47DA-95CA-C5AB0DC85B11";

fn token_with(key: &str, version: HttpVersion) -> WsHandshake {
    let mut h = Headers::new();
    h.add(b"Connection".to_vec(), b"Upgrade".to_vec());
    h.add(b"Upgrade".to_vec(), b"websocket".to_vec());
    h.add(b"Sec-WebSocket-Version".to_vec(), b"13".to_vec());
    h.add(b"Sec-WebSocket-Key".to_vec(), key.as_bytes().to_vec());
    WsHandshake::detect_from_parts(&Method::Get, version, &h).expect("detected")
}

fn contains(haystack: &[u8], needle: &[u8]) -> bool {
    haystack.windows(needle.len()).any(|w| w == needle)
}

#[test]
fn accept_writes_rfc_response() {
    let token = token_with(SAMPLE_KEY, HttpVersion::Http11);
    let read_buf = vec![129u8, 5, 72];
    let task = token.accept((), read_buf.clone());
    let resp = task.prepared.clone().expect("HTTP/1.1 translates");
    let expected = format!(
        "HTTP/1.1 101 Switching Protocols\r\nUpgrade: websocket\r\nConnection: Upgrade\r\nSec-WebSocket-Accept: {}\r\n\r\n",
        SAMPLE_ACCEPT
    );
    assert_eq!(resp, expected.as_bytes());
    match task.poll(IoProgress::Flushed) {
        AcceptPoll::Ready(conn) => {
            // The read-ahead bytes open the WebSocket frame stream.
            assert_eq!(conn.read_buf, read_buf);
        }
        _ => panic!("a flushed write must resolve the accept"),
    }
}

#[test]
fn accept_poll_pending_hands_task_back_unchanged() {
    let token = token_with(SAMPLE_KEY, HttpVersion::Http11);
    let task = token.accept((), vec![1, 2, 3]);
    let before = task.prepared.clone();
    match task.poll(IoProgress::Pending) {
        AcceptPoll::NotReady(again) => {
            assert_eq!(again.prepared, before);
            assert_eq!(again.read_buf, vec![1, 2, 3]);
            match again.poll(IoProgress::Flushed) {
                AcceptPoll::Ready(conn) => assert_eq!(conn.read_buf, vec![1, 2, 3]),
                _ => panic!("flushed after pending must resolve"),
            }
        }
        _ => panic!("a pending write must not consume the task"),
    }
}

#[test]
fn accept_poll_write_failure_is_transport_error() {
    let token = token_with(SAMPLE_KEY, HttpVersion::Http11);
    let task = token.accept((), Vec::new());
    match task.poll(IoProgress::Failed) {
        AcceptPoll::Failed(e) => assert_eq!(e, UpgradeError::Transport),
        _ => panic!("a failed write must surface as an error"),
    }
}

#[test]
fn accept_value_round_trips_through_hash_and_encoding() {
    // The RFC 6455 sample key; the transform is recomputed here directly
    // with the same hash and encoding crates the library calls.
    let key = "dGhlIHNhbXBsZSBub25jZQ==";
    let mut material = key.as_bytes().to_vec();
    material.extend_from_slice(GUID.as_bytes());
    let expected = base64::engine::general_purpose::STANDARD.encode(Sha1::digest(&material));
    assert_eq!(expected, "s3pPLMBiTxaQ9kYGzzhZRbK+xOo=");

    let token = token_with(key, HttpVersion::Http11);
    let task = token.accept((), Vec::new());
    let resp = task.prepared.expect("HTTP/1.1 translates");
    let header = format!("Sec-WebSocket-Accept: {}\r\n", expected);
    assert!(contains(&resp, header.as_bytes()));
}

#[test]
fn reject_writes_non_101_without_upgrade_headers() {
    let token = token_with(SAMPLE_KEY, HttpVersion::Http11);
    let read_buf = vec![71u8, 69, 84];
    let task = token.reject((), read_buf.clone());
    let resp = task.prepared.clone().expect("HTTP/1.1 translates");
    assert_eq!(resp, b"HTTP/1.1 400 Bad Request\r\n\r\n".to_vec());
    assert!(!contains(&resp, b" 101 "));
    assert!(!contains(&resp, b"Sec-WebSocket-Accept"));
    match task.poll(IoProgress::Flushed) {
        RejectPoll::Ready(handle) => {
            // The plain byte stream comes back, its read-ahead unchanged.
            assert_eq!(handle.read_buf, read_buf);
        }
        _ => panic!("a flushed write must resolve the reject"),
    }
}

#[test]
fn reject_with_caller_chosen_status() {
    let token = token_with(SAMPLE_KEY, HttpVersion::Http11);
    let task = token.reject_with((), Vec::new(), 403, b"Forbidden");
    let resp = task.prepared.expect("HTTP/1.1 translates");
    assert_eq!(resp, b"HTTP/1.1 403 Forbidden\r\n\r\n".to_vec());
}

#[test]
fn respond_dispatches_on_the_decision() {
    let accept_task = token_with(SAMPLE_KEY, HttpVersion::Http11).respond((), vec![9], true);
    assert!(accept_task.0.is_ok());
    match accept_task.poll(IoProgress::Flushed) {
        RespondPoll::Ready(Ok(conn)) => assert_eq!(conn.read_buf, vec![9]),
        _ => panic!("accept decision must resolve to the WebSocket side"),
    }

    let reject_task = token_with(SAMPLE_KEY, HttpVersion::Http11).respond((), vec![9], false);
    assert!(reject_task.0.is_err());
    match reject_task.poll(IoProgress::Flushed) {
        RespondPoll::Ready(Err(handle)) => assert_eq!(handle.read_buf, vec![9]),
        _ => panic!("reject decision must resolve to the plain side"),
    }
}

#[test]
fn cleartext_http2_fails_before_any_io() {
    let token = token_with(SAMPLE_KEY, HttpVersion::H2c);
    let task = token.accept((), Vec::new());
    assert_eq!(task.prepared, Err(UpgradeError::UnsupportedHttpVersion));
    match task.poll(IoProgress::Pending) {
        AcceptPoll::Failed(e) => assert_eq!(e, UpgradeError::UnsupportedHttpVersion),
        _ => panic!("an untranslatable version must fail immediately"),
    }

    let token = token_with(SAMPLE_KEY, HttpVersion::H2c);
    let task = token.reject((), Vec::new());
    assert_eq!(task.prepared, Err(UpgradeError::UnsupportedHttpVersion));
}

#[test]
fn http2_translates_to_the_framing_layers_enumeration() {
    let token = token_with(SAMPLE_KEY, HttpVersion::H2);
    let task = token.accept((), Vec::new());
    let resp = task.prepared.expect("HTTP/2 translates");
    assert!(resp.starts_with(b"HTTP/2.0 101 "));
}

#[test]
fn build_ws_upgrade_reproduces_the_needed_subset() {
    let token = token_with(SAMPLE_KEY, HttpVersion::Http11);
    let upgrade = token.build_ws_upgrade((), vec![7u8]).expect("HTTP/1.1 translates");
    assert!(matches!(upgrade.request.method, Method::Get));
    assert_eq!(upgrade.request.target, b"*".to_vec());
    assert_eq!(upgrade.request.version, WsHttpVersion::Http11);
    assert_eq!(upgrade.request.headers.len(), 1);
    let key = upgrade.request.headers.get_one(b"sec-websocket-key").expect("key header set");
    assert_eq!(key, SAMPLE_KEY.as_bytes().to_vec());
    assert_eq!(upgrade.buffer, vec![7u8]);
}

#[test]
fn ws_start_keeps_its_parts() {
    let token = token_with(SAMPLE_KEY, HttpVersion::Http11);
    let start = token.start(5u32, vec![1, 2]);
    let (token, io, read_buf) = start.into_parts();
    assert_eq!(token.key(), SAMPLE_KEY.as_bytes());
    assert_eq!(io, 5u32);
    assert_eq!(read_buf, vec![1, 2]);

    let start = token.start(6u32, vec![3]);
    match start.accept().poll(IoProgress::Flushed) {
        AcceptPoll::Ready(conn) => {
            assert_eq!(conn.io, 6u32);
            assert_eq!(conn.read_buf, vec![3]);
        }
        _ => panic!("flushed accept from a start must resolve"),
    }
}

#[test]
fn ws_response_pairs_token_and_decision() {
    // A token is consumed by value: each decision takes its own token, and
    // a consumed one cannot be offered again.
    let accepted = WsResponse::accept(token_with(SAMPLE_KEY, HttpVersion::Http11));
    assert!(accepted.accept);
    match accepted.send((), Vec::new()).poll(IoProgress::Flushed) {
        RespondPoll::Ready(Ok(_)) => {}
        _ => panic!("accept decision must resolve to the WebSocket side"),
    }

    let rejected = WsResponse::reject(token_with(SAMPLE_KEY, HttpVersion::Http11));
    assert!(!rejected.accept);
    match rejected.send((), Vec::new()).poll(IoProgress::Flushed) {
        RespondPoll::Ready(Err(_)) => {}
        _ => panic!("reject decision must resolve to the plain side"),
    }
}
