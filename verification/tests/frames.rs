use dubbo_triple::encode::{encode, FrameSource, OutcomeQueue};
use dubbo_triple::frame::{
    assemble_frame, CompressionEncoding, IdentityCompressor, RawEncoder,
};
use dubbo_triple::status::{Code, Status};

#[test]
fn frame_header_matches_payload_length() {
    let enc = RawEncoder::unbounded();
    let comp = IdentityCompressor::unbounded();
    let mut buf: Vec<u8> = Vec::new();
    let mut scratch: Vec<u8> = Vec::new();
    let msg: Vec<u8> = vec![7u8; 300];
    let frame = match assemble_frame(&enc, &msg, &comp, None, &mut buf, &mut scratch) {
        Ok(f) => f,
        Err(_) => panic!("expected a frame"),
    };
    assert_eq!(frame.len(), 5 + 300);
    assert_eq!(frame[0], 0x00);
    // 300 = 0x0000012c, big-endian
    assert_eq!(&frame[1..5], &[0x00, 0x00, 0x01, 0x2c]);
    assert_eq!(&frame[5..], &msg[..]);
    assert!(buf.is_empty());
}

#[test]
fn empty_message_yields_header_only_frame() {
    let enc = RawEncoder::unbounded();
    let comp = IdentityCompressor::unbounded();
    let mut buf: Vec<u8> = Vec::new();
    let mut scratch: Vec<u8> = Vec::new();
    let msg: Vec<u8> = Vec::new();
    let frame = match assemble_frame(&enc, &msg, &comp, None, &mut buf, &mut scratch) {
        Ok(f) => f,
        Err(_) => panic!("expected a frame"),
    };
    assert_eq!(frame, vec![0x00, 0, 0, 0, 0]);
}

#[test]
fn compression_flag_mirrors_selection() {
    let enc = RawEncoder::unbounded();
    let comp = IdentityCompressor::unbounded();
    let mut buf: Vec<u8> = Vec::new();
    let mut scratch: Vec<u8> = Vec::new();
    let msg: Vec<u8> = b"xyz".to_vec();
    let plain = assemble_frame(&enc, &msg, &comp, None, &mut buf, &mut scratch).ok().unwrap();
    assert_eq!(plain[0], 0x00);
    let packed = assemble_frame(
        &enc,
        &msg,
        &comp,
        Some(CompressionEncoding::Gzip),
        &mut buf,
        &mut scratch,
    )
    .ok()
    .unwrap();
    assert_eq!(packed[0], 0x01);
    // the identity compressor leaves the payload and its length unchanged
    assert_eq!(&packed[1..], &plain[1..]);
}

#[test]
fn scenario_two_messages_no_compression() {
    let mut q: OutcomeQueue<Vec<u8>> = OutcomeQueue::new();
    q.push_ok(b"a".to_vec());
    q.push_ok(b"bb".to_vec());
    let mut s = encode(RawEncoder::unbounded(), q, None, IdentityCompressor::unbounded());
    let f1 = match s.pull_next() {
        Some(Ok(f)) => f,
        _ => panic!("expected the first frame"),
    };
    assert_eq!(f1, vec![0x00, 0, 0, 0, 1, b'a']);
    let f2 = match s.pull_next() {
        Some(Ok(f)) => f,
        _ => panic!("expected the second frame"),
    };
    assert_eq!(f2, vec![0x00, 0, 0, 0, 2, b'b', b'b']);
    assert!(s.pull_next().is_none());
    assert!(s.pull_next().is_none());
}

#[test]
fn scenario_identity_compression() {
    let mut q: OutcomeQueue<Vec<u8>> = OutcomeQueue::new();
    q.push_ok(b"xyz".to_vec());
    let mut s = encode(
        RawEncoder::unbounded(),
        q,
        Some(CompressionEncoding::Gzip),
        IdentityCompressor::unbounded(),
    );
    let f = match s.pull_next() {
        Some(Ok(f)) => f,
        _ => panic!("expected a frame"),
    };
    assert_eq!(f, vec![0x01, 0, 0, 0, 3, b'x', b'y', b'z']);
    assert!(s.pull_next().is_none());
}

#[test]
fn frames_preserve_input_order() {
    let msgs: Vec<Vec<u8>> = vec![b"one".to_vec(), b"two".to_vec(), b"three".to_vec()];
    let mut q: OutcomeQueue<Vec<u8>> = OutcomeQueue::new();
    for m in &msgs {
        q.push_ok(m.clone());
    }
    let mut s = encode(RawEncoder::unbounded(), q, None, IdentityCompressor::unbounded());
    let mut got: Vec<Vec<u8>> = Vec::new();
    while let Some(r) = s.pull_next() {
        match r {
            Ok(f) => got.push(f),
            Err(_) => panic!("unexpected failure"),
        }
    }
    assert_eq!(got.len(), 3);
    for (m, f) in msgs.iter().zip(got.iter()) {
        assert_eq!(f.len(), 5 + m.len());
        assert_eq!(f[0], 0x00);
        assert_eq!(&f[5..], &m[..]);
    }
}

#[test]
fn upstream_failure_is_terminal() {
    let mut q: OutcomeQueue<Vec<u8>> = OutcomeQueue::new();
    q.push_ok(b"a".to_vec());
    q.push_err(Status::internal("boom"));
    q.push_ok(b"never".to_vec());
    let mut s = encode(RawEncoder::unbounded(), q, None, IdentityCompressor::unbounded());
    match s.pull_next() {
        Some(Ok(f)) => assert_eq!(f, vec![0x00, 0, 0, 0, 1, b'a']),
        _ => panic!("expected one frame before the failure"),
    }
    match s.pull_next() {
        Some(Err(st)) => {
            assert_eq!(st.code(), Code::Internal);
            assert_eq!(st.message().as_str(), "boom");
        },
        _ => panic!("expected the failure"),
    }
    assert!(s.pull_next().is_none());
    assert!(s.pull_next().is_none());
}

#[test]
fn encoder_failure_is_terminal() {
    let mut q: OutcomeQueue<Vec<u8>> = OutcomeQueue::new();
    q.push_ok(b"a".to_vec());
    q.push_ok(b"bb".to_vec());
    let mut s = encode(RawEncoder::with_limit(1), q, None, IdentityCompressor::unbounded());
    match s.pull_next() {
        Some(Ok(f)) => assert_eq!(f, vec![0x00, 0, 0, 0, 1, b'a']),
        _ => panic!("expected one frame before the failure"),
    }
    match s.pull_next() {
        Some(Err(st)) => {
            assert_eq!(st.code(), Code::Internal);
            assert_eq!(st.message().as_str(), "encode error");
        },
        _ => panic!("expected the serializer failure"),
    }
    assert!(s.pull_next().is_none());
}

#[test]
fn compressor_failure_is_terminal() {
    let mut q: OutcomeQueue<Vec<u8>> = OutcomeQueue::new();
    q.push_ok(b"abc".to_vec());
    let mut s = encode(
        RawEncoder::unbounded(),
        q,
        Some(CompressionEncoding::Gzip),
        IdentityCompressor::with_limit(2),
    );
    match s.pull_next() {
        Some(Err(st)) => {
            assert_eq!(st.code(), Code::Internal);
            assert_eq!(st.message().as_str(), "compress error");
        },
        _ => panic!("expected the compressor failure"),
    }
    assert!(s.pull_next().is_none());
}
