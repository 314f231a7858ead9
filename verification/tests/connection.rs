use easy_ipc::connection::{Connection, ExactRead, ReceiveAction};
use easy_ipc::error::ConnectionError;
use std::io::{Error, ErrorKind};

fn connection() -> Connection<String, String> {
    Connection::new(b"4242".to_vec())
}

/// Feeds the frame to the connection as a stream would: each read supplies
/// what was asked for, or what is left.
fn feed(conn: &mut Connection<String, String>, mut wire: &[u8]) -> ReceiveAction {
    let mut want = conn.receive();
    loop {
        let take = want.min(wire.len());
        let (now, rest) = wire.split_at(take);
        wire = rest;
        match conn.on_read(Ok(now.to_vec())) {
            ReceiveAction::Read { len } => want = len,
            done => return done,
        }
    }
}

#[test]
fn send_frames_the_serialized_message() {
    let conn = connection();
    let frame = conn.send(Ok(vec![1, 2, 3])).unwrap();
    assert_eq!(frame, b"4242\x03\0\0\0\0\0\0\0\x01\x02\x03".to_vec());
}

#[test]
fn send_reports_a_failed_serialization() {
    let conn = connection();
    let failure = bitcode::deserialize::<u32>(&[]).unwrap_err();
    assert!(matches!(
        conn.send(Err(failure)),
        Err(ConnectionError::SerilizationFailed(_))
    ));
}

#[test]
fn sent_reports_a_failed_write() {
    let conn = connection();
    assert!(conn.sent(Ok(())).is_ok());
    assert!(matches!(
        conn.sent(Err(Error::from(ErrorKind::BrokenPipe))),
        Err(ConnectionError::WriteFailed(e)) if e.kind() == ErrorKind::BrokenPipe
    ));
}

#[test]
fn receive_asks_for_the_header_first() {
    let mut conn = connection();
    assert_eq!(conn.receive(), 12);
    let mut bare: Connection<u8, u8> = Connection::new(Vec::new());
    assert_eq!(bare.receive(), 8);
}

#[test]
fn receive_delivers_the_payload_of_a_whole_frame() {
    let mut conn = connection();
    assert_eq!(conn.receive(), 12);
    let action = conn.on_read(Ok(b"4242\x05\0\0\0\0\0\0\0".to_vec()));
    assert!(matches!(action, ReceiveAction::Read { len: 5 }));
    let action = conn.on_read(Ok(b"hello".to_vec()));
    assert!(matches!(action, ReceiveAction::Deliver { payload } if payload == b"hello"));
}

#[test]
fn receive_delivers_an_empty_payload() {
    let mut conn = connection();
    conn.receive();
    let action = conn.on_read(Ok(b"4242\0\0\0\0\0\0\0\0".to_vec()));
    assert!(matches!(action, ReceiveAction::Read { len: 0 }));
    let action = conn.on_read(Ok(Vec::new()));
    assert!(matches!(action, ReceiveAction::Deliver { payload } if payload.is_empty()));
}

#[test]
fn round_trip_of_a_message() {
    let sender = connection();
    let mut receiver = connection();
    let message = String::from("Add(2,3)");
    let frame = sender.send(bitcode::serialize(&message)).unwrap();
    let payload = match feed(&mut receiver, &frame) {
        ReceiveAction::Deliver { payload } => payload,
        other => panic!("no payload: {:?}", other),
    };
    let back = receiver.received(bitcode::deserialize::<String>(&payload)).unwrap();
    assert_eq!(back, message);
}

#[test]
fn round_trip_of_several_messages_on_one_connection() {
    let sender = connection();
    let mut receiver = connection();
    for message in ["", "ping", "a longer message, with more bytes than a header has"] {
        let frame = sender.send(bitcode::serialize(message)).unwrap();
        let payload = match feed(&mut receiver, &frame) {
            ReceiveAction::Deliver { payload } => payload,
            other => panic!("no payload: {:?}", other),
        };
        let back = receiver.received(bitcode::deserialize::<String>(&payload)).unwrap();
        assert_eq!(back, message);
    }
}

#[test]
fn header_mismatch_whatever_follows() {
    for header in [
        &b"4243\x05\0\0\0\0\0\0\0"[..],
        &b"v010\0\0\0\0\0\0\0\0"[..],
        &b"\0\0\0\0\xff\xff\xff\xff\xff\xff\xff\xff"[..],
    ] {
        let mut conn = connection();
        conn.receive();
        assert!(matches!(
            conn.on_read(Ok(header.to_vec())),
            ReceiveAction::Fail(ConnectionError::HeaderMismatch)
        ));
    }
}

#[test]
fn peers_with_other_magic_bytes_do_not_understand_each_other() {
    let sender: Connection<String, String> = Connection::new(b"1.0.0".to_vec());
    let mut receiver: Connection<String, String> = Connection::new(b"1.0.1".to_vec());
    let frame = sender.send(bitcode::serialize("hi")).unwrap();
    assert!(matches!(
        feed(&mut receiver, &frame),
        ReceiveAction::Fail(ConnectionError::HeaderMismatch)
    ));
}

#[test]
fn truncated_payload_is_unexpected_eof() {
    let mut conn = connection();
    conn.receive();
    let action = conn.on_read(Ok(b"4242\x05\0\0\0\0\0\0\0".to_vec()));
    assert!(matches!(action, ReceiveAction::Read { len: 5 }));
    assert!(matches!(
        conn.on_read(Ok(b"hell".to_vec())),
        ReceiveAction::Fail(ConnectionError::UnexepctedEof)
    ));
}

#[test]
fn truncated_frame_is_never_delivered() {
    let sender = connection();
    let frame = sender.send(bitcode::serialize("some message")).unwrap();
    for cut in 0..frame.len() {
        let mut receiver = connection();
        assert!(matches!(
            feed(&mut receiver, &frame[..cut]),
            ReceiveAction::Fail(ConnectionError::UnexepctedEof)
        ));
    }
}

#[test]
fn truncated_header_is_unexpected_eof() {
    let mut conn = connection();
    conn.receive();
    assert!(matches!(
        conn.on_read(Ok(b"4242\x05\0\0".to_vec())),
        ReceiveAction::Fail(ConnectionError::UnexepctedEof)
    ));
}

#[test]
fn closed_stream_is_unexpected_eof() {
    // A read on a stream that the peer has closed supplies no bytes.
    let mut conn = connection();
    assert_eq!(conn.receive(), 12);
    assert!(matches!(
        conn.on_read(Ok(Vec::new())),
        ReceiveAction::Fail(ConnectionError::UnexepctedEof)
    ));
}

#[test]
fn failed_read_is_read_failed() {
    let mut conn = connection();
    conn.receive();
    assert!(matches!(
        conn.on_read(Err(Error::from(ErrorKind::ConnectionReset))),
        ReceiveAction::Fail(ConnectionError::ReadFailed(e)) if e.kind() == ErrorKind::ConnectionReset
    ));
    conn.receive();
    conn.on_read(Ok(b"4242\x01\0\0\0\0\0\0\0".to_vec()));
    assert!(matches!(
        conn.on_read(Err(Error::from(ErrorKind::TimedOut))),
        ReceiveAction::Fail(ConnectionError::ReadFailed(e)) if e.kind() == ErrorKind::TimedOut
    ));
}

#[test]
fn oversized_length_is_packet_too_large() {
    let mut conn = connection();
    conn.receive();
    let action = conn.on_read(Ok(b"4242\xff\xff\xff\xff\xff\xff\xff\xff".to_vec()));
    if usize::BITS < 64 {
        assert!(matches!(
            action,
            ReceiveAction::Fail(ConnectionError::PacketTooLarge)
        ));
    } else {
        assert!(matches!(action, ReceiveAction::Read { len: usize::MAX }));
    }
}

#[test]
fn after_a_failure_the_next_read_is_a_header() {
    let mut conn = connection();
    conn.receive();
    conn.on_read(Ok(b"4242\x05\0\0\0\0\0\0\0".to_vec()));
    assert!(matches!(
        conn.on_read(Ok(b"he".to_vec())),
        ReceiveAction::Fail(ConnectionError::UnexepctedEof)
    ));
    assert!(matches!(
        conn.on_read(Ok(b"4242\x02\0\0\0\0\0\0\0".to_vec())),
        ReceiveAction::Read { len: 2 }
    ));
}

#[test]
fn received_reports_a_failed_decoding() {
    let conn: Connection<String, u32> = Connection::new(b"4242".to_vec());
    assert_eq!(conn.received(Ok(7)).unwrap(), 7);
    let undecodable = bitcode::deserialize::<u32>(&[1, 2, 3, 4, 5, 6, 7, 8, 9]);
    assert!(undecodable.is_err());
    assert!(matches!(
        conn.received(undecodable),
        Err(ConnectionError::DeserilizationFailed(_))
    ));
}

/// An exact read on a stream that hands its bytes out in the given pieces.
fn read_in_pieces(want: usize, pieces: &[&[u8]]) -> (Vec<u8>, usize) {
    let mut pending = ExactRead::new(want);
    let mut reads = 0;
    for piece in pieces {
        if pending.remaining() == 0 {
            break;
        }
        assert!(piece.len() <= pending.remaining());
        pending = pending.supply(piece);
        reads += 1;
    }
    assert_eq!(pending.remaining(), 0);
    (pending.into_bytes(), reads)
}

#[test]
fn exact_read_puts_the_pieces_together() {
    assert_eq!(read_in_pieces(5, &[b"hello"]), (b"hello".to_vec(), 1));
    assert_eq!(
        read_in_pieces(5, &[b"he", b"l", b"lo", b"never read"]),
        (b"hello".to_vec(), 3)
    );
}

#[test]
fn exact_read_ends_with_the_stream() {
    assert_eq!(read_in_pieces(5, &[b"he", b""]), (b"he".to_vec(), 2));
    assert_eq!(read_in_pieces(5, &[b""]), (Vec::new(), 1));
    assert_eq!(read_in_pieces(5, &[b"he", b"", b"llo"]), (b"he".to_vec(), 2));
}

#[test]
fn exact_read_of_nothing_reads_nothing() {
    let pending = ExactRead::new(0);
    assert_eq!(pending.remaining(), 0);
    assert_eq!(pending.into_bytes(), Vec::<u8>::new());
}

#[test]
fn exact_read_asks_for_what_is_left() {
    let pending = ExactRead::new(12);
    assert_eq!(pending.remaining(), 12);
    let pending = pending.supply(b"4242");
    assert_eq!(pending.remaining(), 8);
    let pending = pending.supply(b"\x01\0\0\0\0\0\0\0");
    assert_eq!(pending.remaining(), 0);
    // A read that is complete asks for nothing, and takes nothing.
    let pending = pending.supply(b"");
    assert_eq!(pending.remaining(), 0);
    assert_eq!(pending.into_bytes(), b"4242\x01\0\0\0\0\0\0\0".to_vec());
}

#[test]
fn frame_in_pieces_is_received_whole() {
    let sender = connection();
    let mut receiver = connection();
    let frame = sender.send(bitcode::serialize("split across reads")).unwrap();
    let mut wire: &[u8] = &frame;
    let mut want = receiver.receive();
    let payload = loop {
        // The stream supplies at most three bytes to a read.
        let mut pending = ExactRead::new(want);
        while pending.remaining() > 0 {
            let take = pending.remaining().min(3).min(wire.len());
            let (now, rest) = wire.split_at(take);
            wire = rest;
            pending = pending.supply(now);
        }
        match receiver.on_read(Ok(pending.into_bytes())) {
            ReceiveAction::Read { len } => want = len,
            ReceiveAction::Deliver { payload } => break payload,
            other => panic!("no payload: {:?}", other),
        }
    };
    assert_eq!(
        receiver.received(bitcode::deserialize::<String>(&payload)).unwrap(),
        "split across reads"
    );
}
