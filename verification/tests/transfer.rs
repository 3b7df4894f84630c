use zmq::{DONTWAIT, Error, HandleReply, Message, RecvReply, Reply, SNDMORE, SocketType, init};

#[test]
fn frame_round_trips_bytes_exactly() {
    let data = vec![0u8, 1, 2, 253, 254, 255];
    let m = Message::from_bytes(&data);
    assert_eq!(m.len(), 6);
    assert_eq!(m.bytes(), &data[..]);
    assert_eq!(m.into_bytes(), data);
}

#[test]
fn empty_frame_round_trips() {
    let m = Message::from_bytes(b"");
    assert_eq!(m.len(), 0);
    assert_eq!(m.into_bytes(), Vec::<u8>::new());
}

#[test]
fn fresh_frame_is_empty() {
    let m = Message::new();
    assert_eq!(m.len(), 0);
}

#[test]
fn send_reports_the_transport_outcome() {
    let ctx = init(HandleReply { handle: 0x10, errno: 0 }).unwrap();
    let s = ctx.socket(SocketType::Push, HandleReply { handle: 0x20, errno: 0 }).unwrap();
    assert_eq!(s.send(b"payload", 0, Reply { rc: 0, errno: 0 }), Ok(()));
    assert_eq!(s.send(b"payload", DONTWAIT, Reply { rc: -1, errno: 11 }), Err(Error::EUNKNOWN(11)));
    assert_eq!(s.send(b"head", DONTWAIT | SNDMORE, Reply { rc: 0, errno: 0 }), Ok(()));
}

#[test]
fn recv_copies_exactly_the_reported_length() {
    let ctx = init(HandleReply { handle: 0x10, errno: 0 }).unwrap();
    let s = ctx.socket(SocketType::Pull, HandleReply { handle: 0x20, errno: 0 }).unwrap();
    let frame = vec![5u8, 6, 7, 8];
    let got = s.recv(0, RecvReply { rc: 0, errno: 0, frame, size: 4 });
    assert_eq!(got, Ok(vec![5u8, 6, 7, 8]));
}

#[test]
fn recv_of_an_empty_frame_is_empty() {
    let ctx = init(HandleReply { handle: 0x10, errno: 0 }).unwrap();
    let s = ctx.socket(SocketType::Pull, HandleReply { handle: 0x20, errno: 0 }).unwrap();
    let got = s.recv(0, RecvReply { rc: 0, errno: 0, frame: Vec::new(), size: 0 });
    assert_eq!(got, Ok(Vec::new()));
}

#[test]
fn pair_round_trip_reproduces_the_bytes() {
    // A connected pair: what one side sends, the transport delivers intact
    // and the other side receives byte-for-byte, the empty frame included.
    let ctx = init(HandleReply { handle: 0x10, errno: 0 }).unwrap();
    let a = ctx.socket(SocketType::Pair, HandleReply { handle: 0x20, errno: 0 }).unwrap();
    let b = ctx.socket(SocketType::Pair, HandleReply { handle: 0x30, errno: 0 }).unwrap();
    assert_eq!(a.bind(Reply { rc: 0, errno: 0 }), Ok(()));
    assert_eq!(b.connect(Reply { rc: 0, errno: 0 }), Ok(()));
    for payload in [b"".to_vec(), b"x".to_vec(), vec![0u8, 255, 128]] {
        let frame = Message::from_bytes(&payload);
        assert_eq!(b.send(&payload, 0, Reply { rc: 0, errno: 0 }), Ok(()));
        let wire = frame.into_bytes();
        let size = wire.len();
        let got = a.recv(0, RecvReply { rc: 0, errno: 0, frame: wire, size });
        assert_eq!(got, Ok(payload));
    }
}

#[test]
fn request_reply_ping_pong() {
    // One context with one I/O thread; a rep socket bound to a local tcp
    // endpoint and a req socket connected to it exchange ping and pong.
    let ctx = init(HandleReply { handle: 0x10, errno: 0 }).unwrap();
    let rep = ctx.socket(SocketType::Rep, HandleReply { handle: 0x20, errno: 0 }).unwrap();
    let req = ctx.socket(SocketType::Req, HandleReply { handle: 0x30, errno: 0 }).unwrap();
    assert_eq!(rep.bind(Reply { rc: 0, errno: 0 }), Ok(()));
    assert_eq!(req.connect(Reply { rc: 0, errno: 0 }), Ok(()));

    assert_eq!(req.send_str("ping", 0, Reply { rc: 0, errno: 0 }), Ok(()));
    let got = rep.recv_str(0, RecvReply { rc: 0, errno: 0, frame: b"ping".to_vec(), size: 4 });
    assert_eq!(got, Ok(String::from("ping")));

    assert_eq!(rep.send_str("pong", 0, Reply { rc: 0, errno: 0 }), Ok(()));
    let got = req.recv_str(0, RecvReply { rc: 0, errno: 0, frame: b"pong".to_vec(), size: 4 });
    assert_eq!(got, Ok(String::from("pong")));
}

#[test]
fn recv_str_decodes_multibyte_text() {
    let ctx = init(HandleReply { handle: 0x10, errno: 0 }).unwrap();
    let s = ctx.socket(SocketType::Pull, HandleReply { handle: 0x20, errno: 0 }).unwrap();
    let text = "héllo ⚙";
    let frame = text.as_bytes().to_vec();
    let size = frame.len();
    let got = s.recv_str(0, RecvReply { rc: 0, errno: 0, frame, size });
    assert_eq!(got, Ok(String::from(text)));
}

#[test]
fn recv_failure_is_translated() {
    let ctx = init(HandleReply { handle: 0x10, errno: 0 }).unwrap();
    let s = ctx.socket(SocketType::Pull, HandleReply { handle: 0x20, errno: 0 }).unwrap();
    let got = s.recv_str(
        DONTWAIT,
        RecvReply { rc: -1, errno: 11, frame: Vec::new(), size: 0 },
    );
    assert_eq!(got, Err(Error::EUNKNOWN(11)));
}
