use zmq::{Error, GetBytesReply, GetReply, OptionWidth, SetReply, Socket, SocketOption, SocketType};
use zmq::errors::EINVAL_CODE;
use zmq::{
    getsockopt_bytes, getsockopt_i64, getsockopt_int, getsockopt_u32, getsockopt_u64, option_id,
    option_readable, option_width, option_writable, setsockopt_bytes, setsockopt_i64,
    setsockopt_int, setsockopt_str, setsockopt_u64,
};

fn fresh(kind: SocketType) -> Socket {
    Socket { sock: 1, kind, closed: false }
}

#[test]
fn table_ids_match_the_wire() {
    assert_eq!(option_id(SocketOption::Hwm), 1);
    assert_eq!(option_id(SocketOption::Affinity), 4);
    assert_eq!(option_id(SocketOption::Identity), 5);
    assert_eq!(option_id(SocketOption::Subscribe), 6);
    assert_eq!(option_id(SocketOption::Unsubscribe), 7);
    assert_eq!(option_id(SocketOption::Rate), 8);
    assert_eq!(option_id(SocketOption::RecoveryIvl), 9);
    assert_eq!(option_id(SocketOption::McastLoop), 10);
    assert_eq!(option_id(SocketOption::Sndbuf), 11);
    assert_eq!(option_id(SocketOption::Rcvbuf), 12);
    assert_eq!(option_id(SocketOption::Rcvmore), 13);
    assert_eq!(option_id(SocketOption::Fd), 14);
    assert_eq!(option_id(SocketOption::Events), 15);
    assert_eq!(option_id(SocketOption::Type), 16);
    assert_eq!(option_id(SocketOption::Linger), 17);
    assert_eq!(option_id(SocketOption::ReconnectIvl), 18);
    assert_eq!(option_id(SocketOption::Backlog), 19);
    assert_eq!(option_id(SocketOption::RecoveryIvlMsec), 20);
    assert_eq!(option_id(SocketOption::ReconnectIvlMax), 21);
}

#[test]
fn table_widths_and_directions() {
    assert_eq!(option_width(SocketOption::Hwm), OptionWidth::Eight);
    assert_eq!(option_width(SocketOption::Identity), OptionWidth::Variable);
    assert_eq!(option_width(SocketOption::Events), OptionWidth::Four);
    assert_eq!(option_width(SocketOption::Type), OptionWidth::Four);
    assert_eq!(option_width(SocketOption::Backlog), OptionWidth::Four);
    assert_eq!(option_width(SocketOption::Rcvmore), OptionWidth::Eight);
    assert!(option_readable(SocketOption::Hwm));
    assert!(option_writable(SocketOption::Hwm));
    assert!(!option_readable(SocketOption::Subscribe));
    assert!(option_writable(SocketOption::Subscribe));
    assert!(!option_readable(SocketOption::Unsubscribe));
    assert!(option_readable(SocketOption::Rcvmore));
    assert!(!option_writable(SocketOption::Rcvmore));
    assert!(!option_writable(SocketOption::Fd));
    assert!(!option_writable(SocketOption::Events));
    assert!(!option_writable(SocketOption::Type));
}

#[test]
fn registry_reads_return_the_reported_value() {
    let r = getsockopt_int(GetReply { opt: 18, rc: 0, errno: 0, value: -5i32, size: 4 });
    assert_eq!(r, Ok(-5));
    let r = getsockopt_u32(GetReply { opt: 15, rc: 0, errno: 0, value: 3u32, size: 4 });
    assert_eq!(r, Ok(3));
    let r = getsockopt_i64(GetReply { opt: 17, rc: 0, errno: 0, value: -1i64, size: 8 });
    assert_eq!(r, Ok(-1));
    let r = getsockopt_u64(GetReply { opt: 1, rc: 0, errno: 0, value: 1000u64, size: 8 });
    assert_eq!(r, Ok(1000));
}

#[test]
fn registry_reads_translate_failures() {
    let r = getsockopt_u64(GetReply { opt: 1, rc: -1, errno: EINVAL_CODE, value: 0u64, size: 0 });
    assert_eq!(r, Err(Error::EUNKNOWN(EINVAL_CODE)));
}

#[test]
fn bytes_read_keeps_exactly_the_reported_length() {
    let mut buf = vec![0u8; 255];
    buf[0] = 10;
    buf[1] = 20;
    buf[2] = 30;
    let r = getsockopt_bytes(GetBytesReply { opt: 5, rc: 0, errno: 0, value: buf, size: 3 });
    assert_eq!(r, Ok(vec![10u8, 20, 30]));
}

#[test]
fn bytes_read_never_reads_past_the_allocation() {
    let buf = vec![7u8, 8];
    let r = getsockopt_bytes(GetBytesReply { opt: 5, rc: 0, errno: 0, value: buf, size: 600 });
    assert_eq!(r, Ok(vec![7u8, 8]));
}

#[test]
fn registry_writes_report_the_outcome() {
    assert_eq!(setsockopt_int(SetReply { opt: 19, rc: 0, errno: 0, size: 4 }), Ok(()));
    assert_eq!(setsockopt_i64(SetReply { opt: 8, rc: 0, errno: 0, size: 8 }), Ok(()));
    assert_eq!(setsockopt_u64(SetReply { opt: 1, rc: 0, errno: 0, size: 8 }), Ok(()));
    assert_eq!(
        setsockopt_u64(SetReply { opt: 1, rc: -1, errno: EINVAL_CODE, size: 8 }),
        Err(Error::EUNKNOWN(EINVAL_CODE))
    );
    assert_eq!(
        setsockopt_bytes(b"abc", SetReply { opt: 6, rc: 0, errno: 0, size: 3 }),
        Ok(())
    );
    assert_eq!(
        setsockopt_str("abc", SetReply { opt: 6, rc: 0, errno: 0, size: 3 }),
        Ok(())
    );
}

#[test]
fn fixed_width_option_round_trips_unclamped() {
    let s = fresh(SocketType::Pair);
    let written: u64 = 100;
    assert_eq!(s.set_hwm(SetReply { opt: 1, rc: 0, errno: 0, size: 8 }), Ok(()));
    // The transport stored the value as written and reports it back.
    let got = s.get_hwm(GetReply { opt: 1, rc: 0, errno: 0, value: written, size: 8 });
    assert_eq!(got, Ok(written));
}

#[test]
fn fixed_width_option_round_trip_shows_transport_clamping() {
    let s = fresh(SocketType::Pair);
    assert_eq!(s.set_hwm(SetReply { opt: 1, rc: 0, errno: 0, size: 8 }), Ok(()));
    // Writing 0 may be clamped by the transport to its minimum of 1; the
    // layer surfaces the clamped value verbatim.
    let got = s.get_hwm(GetReply { opt: 1, rc: 0, errno: 0, value: 1u64, size: 8 });
    assert_eq!(got, Ok(1));
}

#[test]
fn identity_round_trips_up_to_the_bound() {
    let s = fresh(SocketType::Req);
    let id = vec![1u8, 2, 3, 4];
    assert_eq!(
        s.set_identity(&id, SetReply { opt: 5, rc: 0, errno: 0, size: 4 }),
        Ok(())
    );
    let mut buf = vec![0u8; 255];
    buf[..4].copy_from_slice(&id);
    let got = s.get_identity(GetBytesReply { opt: 5, rc: 0, errno: 0, value: buf, size: 4 });
    assert_eq!(got, Ok(id));
}

#[test]
fn identity_longer_than_the_bound_is_rejected() {
    let s = fresh(SocketType::Req);
    let id = vec![9u8; 256];
    let res = s.set_identity(&id, SetReply { opt: 5, rc: 0, errno: 0, size: 256 });
    assert_eq!(res, Err(Error::EUNKNOWN(EINVAL_CODE)));
}

#[test]
fn identity_of_exactly_the_bound_is_accepted() {
    let s = fresh(SocketType::Req);
    let id = vec![9u8; 255];
    let res = s.set_identity(&id, SetReply { opt: 5, rc: 0, errno: 0, size: 255 });
    assert_eq!(res, Ok(()));
}

#[test]
fn typed_bool_accessors_decode_the_integer() {
    let s = fresh(SocketType::Sub);
    let more = s.get_rcvmore(GetReply { opt: 13, rc: 0, errno: 0, value: 1i64, size: 8 });
    assert_eq!(more, Ok(true));
    let more = s.get_rcvmore(GetReply { opt: 13, rc: 0, errno: 0, value: 0i64, size: 8 });
    assert_eq!(more, Ok(false));
    let loopback = s.get_mcast_loop(GetReply { opt: 10, rc: 0, errno: 0, value: 1i64, size: 8 });
    assert_eq!(loopback, Ok(true));
    assert_eq!(s.set_mcast_loop(true, SetReply { opt: 10, rc: 0, errno: 0, size: 8 }), Ok(()));
}

#[test]
fn typed_accessors_cover_every_width() {
    let s = fresh(SocketType::Pair);
    assert_eq!(
        s.get_affinity(GetReply { opt: 4, rc: 0, errno: 0, value: 3u64, size: 8 }),
        Ok(3)
    );
    assert_eq!(
        s.get_rate(GetReply { opt: 8, rc: 0, errno: 0, value: 512i64, size: 8 }),
        Ok(512)
    );
    assert_eq!(
        s.get_recovery_ivl(GetReply { opt: 9, rc: 0, errno: 0, value: 10i64, size: 8 }),
        Ok(10)
    );
    assert_eq!(
        s.get_recovery_ivl_msec(GetReply { opt: 20, rc: 0, errno: 0, value: -1i64, size: 8 }),
        Ok(-1)
    );
    assert_eq!(
        s.get_sndbuf(GetReply { opt: 11, rc: 0, errno: 0, value: 0u64, size: 8 }),
        Ok(0)
    );
    assert_eq!(
        s.get_rcvbuf(GetReply { opt: 12, rc: 0, errno: 0, value: 0u64, size: 8 }),
        Ok(0)
    );
    assert_eq!(
        s.get_linger(GetReply { opt: 17, rc: 0, errno: 0, value: -1i64, size: 8 }),
        Ok(-1)
    );
    assert_eq!(
        s.get_reconnect_ivl(GetReply { opt: 18, rc: 0, errno: 0, value: 100i32, size: 4 }),
        Ok(100)
    );
    assert_eq!(
        s.get_reconnect_ivl_max(GetReply { opt: 21, rc: 0, errno: 0, value: 0i32, size: 4 }),
        Ok(0)
    );
    assert_eq!(
        s.get_backlog(GetReply { opt: 19, rc: 0, errno: 0, value: 100i32, size: 4 }),
        Ok(100)
    );
    assert_eq!(
        s.get_fd(GetReply { opt: 14, rc: 0, errno: 0, value: 12i64, size: 8 }),
        Ok(12)
    );
    assert_eq!(
        s.get_events(GetReply { opt: 15, rc: 0, errno: 0, value: 2u32, size: 4 }),
        Ok(2)
    );
    assert_eq!(s.set_affinity(SetReply { opt: 4, rc: 0, errno: 0, size: 8 }), Ok(()));
    assert_eq!(s.set_rate(SetReply { opt: 8, rc: 0, errno: 0, size: 8 }), Ok(()));
    assert_eq!(s.set_recovery_ivl(SetReply { opt: 9, rc: 0, errno: 0, size: 8 }), Ok(()));
    assert_eq!(s.set_recovery_ivl_msec(SetReply { opt: 20, rc: 0, errno: 0, size: 8 }), Ok(()));
    assert_eq!(s.set_sndbuf(SetReply { opt: 11, rc: 0, errno: 0, size: 8 }), Ok(()));
    assert_eq!(s.set_rcvbuf(SetReply { opt: 12, rc: 0, errno: 0, size: 8 }), Ok(()));
    assert_eq!(s.set_linger(SetReply { opt: 17, rc: 0, errno: 0, size: 8 }), Ok(()));
    assert_eq!(s.set_reconnect_ivl(SetReply { opt: 18, rc: 0, errno: 0, size: 4 }), Ok(()));
    assert_eq!(s.set_reconnect_ivl_max(SetReply { opt: 21, rc: 0, errno: 0, size: 4 }), Ok(()));
    assert_eq!(s.set_backlog(SetReply { opt: 19, rc: 0, errno: 0, size: 4 }), Ok(()));
}

#[test]
fn subscription_options_pass_the_prefix_bytes() {
    let s = fresh(SocketType::Sub);
    assert_eq!(
        s.set_subscribe(b"topic", SetReply { opt: 6, rc: 0, errno: 0, size: 5 }),
        Ok(())
    );
    assert_eq!(
        s.set_unsubscribe(b"topic", SetReply { opt: 7, rc: 0, errno: 0, size: 5 }),
        Ok(())
    );
    assert_eq!(
        s.set_subscribe(b"", SetReply { opt: 6, rc: 0, errno: 0, size: 0 }),
        Ok(())
    );
}
