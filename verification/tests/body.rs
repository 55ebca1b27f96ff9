use dubbo_triple::body::{encode_client, encode_server, EncodeBody, Role, Trailers};
use dubbo_triple::encode::{encode, OutcomeQueue};
use dubbo_triple::frame::{IdentityCompressor, RawEncoder};
use dubbo_triple::status::{Code, Status};

#[test]
fn scenario_server_body_clean_exchange() {
    let mut q: OutcomeQueue<Vec<u8>> = OutcomeQueue::new();
    q.push_ok(b"a".to_vec());
    q.push_ok(b"bb".to_vec());
    let mut body = encode_server(RawEncoder::unbounded(), q, None, IdentityCompressor::unbounded());
    assert_eq!(body.role(), Role::Server);
    match body.poll_data() {
        Some(Ok(f)) => assert_eq!(f, vec![0x00, 0, 0, 0, 1, b'a']),
        _ => panic!("expected the first frame"),
    }
    match body.poll_data() {
        Some(Ok(f)) => assert_eq!(f, vec![0x00, 0, 0, 0, 2, b'b', b'b']),
        _ => panic!("expected the second frame"),
    }
    assert!(body.poll_data().is_none());
    assert!(!body.is_end_stream());
    let t = match body.poll_trailers() {
        Ok(Some(t)) => t,
        _ => panic!("expected the trailer"),
    };
    assert_eq!(t.status_code(), 0);
    assert_eq!(t.message().as_str(), "");
    assert!(body.is_end_stream());
}

#[test]
fn scenario_upstream_failure_reaches_trailer() {
    let mut q: OutcomeQueue<Vec<u8>> = OutcomeQueue::new();
    q.push_ok(b"x".to_vec());
    q.push_err(Status::internal("boom"));
    let mut body = encode_server(RawEncoder::unbounded(), q, None, IdentityCompressor::unbounded());
    match body.poll_data() {
        Some(Ok(f)) => assert_eq!(f, vec![0x00, 0, 0, 0, 1, b'x']),
        _ => panic!("expected one frame"),
    }
    // the failure is stored, not handed out as data
    assert!(body.poll_data().is_none());
    // and no third data item is ever produced
    assert!(body.poll_data().is_none());
    assert!(!body.is_end_stream());
    let t = match body.poll_trailers() {
        Ok(Some(t)) => t,
        _ => panic!("expected the trailer"),
    };
    assert_eq!(t.status_code(), 13);
    assert_eq!(t.message().as_str(), "boom");
    assert!(body.is_end_stream());
    match body.poll_trailers() {
        Ok(None) => {},
        _ => panic!("the trailer is produced exactly once"),
    }
}

#[test]
fn trailer_is_produced_exactly_once() {
    let q: OutcomeQueue<Vec<u8>> = OutcomeQueue::new();
    let mut body = encode_server(RawEncoder::unbounded(), q, None, IdentityCompressor::unbounded());
    assert!(body.poll_data().is_none());
    assert!(!body.is_end_stream());
    match body.poll_trailers() {
        Ok(Some(t)) => assert_eq!(t.status_code(), 0),
        _ => panic!("expected the trailer"),
    }
    assert!(body.is_end_stream());
    match body.poll_trailers() {
        Ok(None) => {},
        _ => panic!("the trailer is produced exactly once"),
    }
    match body.poll_trailers() {
        Ok(None) => {},
        _ => panic!("the trailer is produced exactly once"),
    }
}

#[test]
fn trailer_pull_before_data_follows_flag() {
    // the flag flips only through trailer production, never through a
    // data pull, so an early trailer pull already closes the exchange
    let mut q: OutcomeQueue<Vec<u8>> = OutcomeQueue::new();
    q.push_ok(b"late".to_vec());
    let mut body = encode_server(RawEncoder::unbounded(), q, None, IdentityCompressor::unbounded());
    assert!(!body.is_end_stream());
    match body.poll_trailers() {
        Ok(Some(t)) => assert_eq!(t.status_code(), 0),
        _ => panic!("expected the trailer"),
    }
    assert!(body.is_end_stream());
    match body.poll_trailers() {
        Ok(None) => {},
        _ => panic!("the trailer is produced exactly once"),
    }
}

#[test]
fn client_body_carries_client_role() {
    let msgs: Vec<Vec<u8>> = vec![b"ping".to_vec()];
    let mut body = encode_client(
        RawEncoder::unbounded(),
        msgs,
        None,
        IdentityCompressor::unbounded(),
    );
    assert_eq!(body.role(), Role::Client);
    match body.poll_data() {
        Some(Ok(f)) => assert_eq!(f, vec![0x00, 0, 0, 0, 4, b'p', b'i', b'n', b'g']),
        _ => panic!("expected one frame"),
    }
    assert!(body.poll_data().is_none());
    let t = match body.poll_trailers() {
        Ok(Some(t)) => t,
        _ => panic!("expected the trailer"),
    };
    assert_eq!(t.status_code(), 0);
}

#[test]
fn new_server_and_new_client_set_roles() {
    let q1: OutcomeQueue<Vec<u8>> = OutcomeQueue::new();
    let s1 = encode(RawEncoder::unbounded(), q1, None, IdentityCompressor::unbounded());
    let b1 = EncodeBody::new_server(s1);
    assert_eq!(b1.role(), Role::Server);
    assert!(!b1.is_end_stream());
    let q2: OutcomeQueue<Vec<u8>> = OutcomeQueue::new();
    let s2 = encode(RawEncoder::unbounded(), q2, None, IdentityCompressor::unbounded());
    let b2 = EncodeBody::new_client(s2);
    assert_eq!(b2.role(), Role::Client);
    assert!(!b2.is_end_stream());
}

#[test]
fn trailer_record_of_status() {
    let t = Trailers::of_status(&Status::internal("bad"));
    assert_eq!(t.status_code(), 13);
    assert_eq!(t.message().as_str(), "bad");
    let t0 = Trailers::of_status(&Status::ok(""));
    assert_eq!(t0.status_code(), 0);
    assert_eq!(t0.message().as_str(), "");
    assert_eq!(Code::Unknown.number(), 2);
}

#[test]
fn jsonrpc_service_wraps_inner() {
    let s = dubbo_triple::jsonrpc::JsonRpcService::new(41u32);
    let s2 = s.clone();
    assert_eq!(s2.into_inner(), 41);
    assert_eq!(s.into_inner(), 41);
}
