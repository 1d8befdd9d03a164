use lb_broker::codec::{
    decode_client_request, decode_worker_message, encode_backend_dispatch, encode_frontend_reply,
    is_ready_sentinel, ClientRequest, Envelope, EnvelopeError, Multipart, WorkerMessage,
};
use std::collections::VecDeque;

fn msg(frames: &[&[u8]]) -> Multipart {
    frames.iter().map(|f| f.to_vec()).collect::<VecDeque<Vec<u8>>>()
}

#[test]
fn client_request_well_formed() {
    match decode_client_request(msg(&[b"C1", b"", b"ping"])) {
        Ok(ClientRequest { client_id, body }) => {
            assert_eq!(client_id, b"C1".to_vec());
            assert_eq!(body, b"ping".to_vec());
        }
        Err(e) => panic!("unexpected error {:?}", e),
    }
}

#[test]
fn client_request_two_frames_not_enough() {
    assert_eq!(
        decode_client_request(msg(&[b"C1", b""])).err(),
        Some(EnvelopeError::NotEnoughMessages)
    );
}

#[test]
fn client_request_empty_message_not_enough() {
    assert_eq!(decode_client_request(msg(&[])).err(), Some(EnvelopeError::NotEnoughMessages));
}

#[test]
fn client_request_four_frames_too_many() {
    assert_eq!(
        decode_client_request(msg(&[b"C1", b"", b"ping", b"extra"])).err(),
        Some(EnvelopeError::TooManyMessages)
    );
}

#[test]
fn client_request_delimiter_not_empty() {
    assert_eq!(
        decode_client_request(msg(&[b"C1", b"x", b"ping"])).err(),
        Some(EnvelopeError::MsgNotEmpty)
    );
}

#[test]
fn worker_ready_announcement() {
    match decode_worker_message(msg(&[b"W1", b"", b"READY"])) {
        Ok(WorkerMessage::Ready { worker_id }) => assert_eq!(worker_id, b"W1".to_vec()),
        _ => panic!("expected a ready announcement"),
    }
}

#[test]
fn worker_ready_ignores_trailing_frames() {
    match decode_worker_message(msg(&[b"W1", b"", b"READY", b"junk", b"more"])) {
        Ok(WorkerMessage::Ready { worker_id }) => assert_eq!(worker_id, b"W1".to_vec()),
        _ => panic!("expected a ready announcement"),
    }
}

#[test]
fn worker_reply_well_formed() {
    match decode_worker_message(msg(&[b"W1", b"", b"C1", b"pong"])) {
        Ok(WorkerMessage::Reply { worker_id, client_id, result }) => {
            assert_eq!(worker_id, b"W1".to_vec());
            assert_eq!(client_id, b"C1".to_vec());
            assert_eq!(result, b"pong".to_vec());
        }
        _ => panic!("expected a reply"),
    }
}

#[test]
fn worker_message_errors() {
    assert_eq!(decode_worker_message(msg(&[])).err(), Some(EnvelopeError::NotEnoughMessages));
    assert_eq!(decode_worker_message(msg(&[b"W1"])).err(), Some(EnvelopeError::NotEnoughMessages));
    assert_eq!(
        decode_worker_message(msg(&[b"W1", b""])).err(),
        Some(EnvelopeError::NotEnoughMessages)
    );
    assert_eq!(decode_worker_message(msg(&[b"W1", b"x"])).err(), Some(EnvelopeError::MsgNotEmpty));
    assert_eq!(
        decode_worker_message(msg(&[b"W1", b"x", b"READY"])).err(),
        Some(EnvelopeError::MsgNotEmpty)
    );
    assert_eq!(
        decode_worker_message(msg(&[b"W1", b"", b"C1"])).err(),
        Some(EnvelopeError::NotEnoughMessages)
    );
    assert_eq!(
        decode_worker_message(msg(&[b"W1", b"", b"C1", b"pong", b"extra"])).err(),
        Some(EnvelopeError::TooManyMessages)
    );
}

#[test]
fn ready_sentinel_is_exact() {
    assert!(is_ready_sentinel(&b"READY".to_vec()));
    assert!(!is_ready_sentinel(&b"READ".to_vec()));
    assert!(!is_ready_sentinel(&b"READYY".to_vec()));
    assert!(!is_ready_sentinel(&b"ready".to_vec()));
    assert!(!is_ready_sentinel(&Vec::new()));
}

#[test]
fn backend_dispatch_layout() {
    let out = encode_backend_dispatch(b"W1".to_vec(), b"C1".to_vec(), b"ping".to_vec());
    assert_eq!(out, msg(&[b"W1", b"", b"C1", b"ping"]));
}

#[test]
fn frontend_reply_layout() {
    let out = encode_frontend_reply(b"C1".to_vec(), b"pong".to_vec());
    assert_eq!(out, msg(&[b"C1", b"", b"pong"]));
}

#[test]
fn envelope_frames_in_order() {
    let e = Envelope { addr: b"A".to_vec(), empty: Vec::new(), request: b"R".to_vec() };
    assert_eq!(e.into_multipart(), msg(&[b"A", b"", b"R"]));
}

#[test]
fn client_round_trip() {
    let m = msg(&[b"\x00k\x8bEg", b"", b"hello"]);
    let req = decode_client_request(m.clone()).unwrap_or_else(|_| panic!("decode failed"));
    assert_eq!(encode_frontend_reply(req.client_id, req.body), m);
}

#[test]
fn worker_round_trip() {
    let m = msg(&[b"W7", b"", b"C9", b"result bytes"]);
    match decode_worker_message(m.clone()) {
        Ok(WorkerMessage::Reply { worker_id, client_id, result }) => {
            assert_eq!(encode_backend_dispatch(worker_id, client_id, result), m);
        }
        _ => panic!("expected a reply"),
    }
}
