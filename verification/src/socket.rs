use vstd::prelude::*;
use vstd::string::StringSliceAdditionalSpecFns;
use vstd::utf8::{encode_utf8, valid_utf8};
use crate::errors::{Error, EINVAL_CODE, translate, rc_result, errno_to_error, check_rc};
use crate::message::Message;
use crate::options::{
    SocketOption, MAX_IDENTITY_LEN, option_id_spec, get_result, get_bytes_view, getsockopt_int,
    getsockopt_u32, getsockopt_i64, getsockopt_u64, getsockopt_bytes, setsockopt_i64,
    setsockopt_u64, setsockopt_int, setsockopt_bytes,
};
use crate::reply::{Reply, GetReply, GetBytesReply, SetReply, RecvReply};
use crate::socket_type::{SocketType, type_of_code};

verus! {

/// Send flag: do not block if the frame cannot be queued now.
pub const DONTWAIT: i32 = 1;

/// Send flag: more frames of the same logical message follow.
pub const SNDMORE: i32 = 2;

/// Whether a flags word holds nothing but the two send flags.
pub open spec fn valid_send_flags(flags: i32) -> bool {
    flags & (DONTWAIT | SNDMORE) == flags
}

/// One native socket handle, with the pattern tag fixed at creation and
/// the teardown state this layer tracks. The socket is exclusively owned
/// by the caller that created it and must not outlive its context.
#[derive(Debug)]
pub struct Socket {
    /// The opaque native handle, as the shim reported it; never null.
    pub sock: usize,
    /// The communication pattern the socket was created with.
    pub kind: SocketType,
    /// Whether the native handle has been released; set exactly once.
    pub closed: bool,
}

/// The bytes this layer returns for a received frame the transport
/// reported with the given length.
pub open spec fn received_frame(frame: Seq<u8>, size: usize) -> Seq<u8> {
    frame.take(size as int)
}

/// Relies on String::from_utf8: for a byte vector that is valid UTF-8 it
/// returns the string whose UTF-8 encoding is exactly those bytes.
#[verifier::external_body]
fn utf8_to_string(bytes: Vec<u8>) -> (s: String)
    requires
        valid_utf8(bytes@),
    ensures
        encode_utf8(s@) == bytes@,
{
    match String::from_utf8(bytes) {
        Ok(s) => s,
        Err(_) => String::new(),
    }
}

impl Socket {
    /// Reads the socket's pattern back from the transport's type option.
    /// The type is fixed at creation, so a reported code outside the known
    /// range cannot legitimately occur; the shim fails loudly on one
    /// instead of calling this.
    pub fn get_socket_type(&self, r: GetReply<i32>) -> (res: Result<SocketType, Error>)
        requires
            !self.closed,
            r.opt == option_id_spec(SocketOption::Type),
            r.rc != -1 ==> r.size == 4 && 0 <= r.value <= 10,
        ensures
            r.rc == -1 ==> res == Err::<SocketType, Error>(translate(r.errno)),
            r.rc != -1 ==> (res matches Ok(t) && type_of_code(r.value) == Some(t)),
    {
        match getsockopt_int(r) {
            Err(e) => Err(e),
            Ok(code) => match SocketType::from_raw(code) {
                Some(t) => Ok(t),
                None => vstd::pervasive::unreached(),
            },
        }
    }

    /// Whether the last received frame has more frames of the same logical
    /// message still to come, decoded from the transport's integer report.
    pub fn get_rcvmore(&self, r: GetReply<i64>) -> (res: Result<bool, Error>)
        requires
            !self.closed,
            r.opt == option_id_spec(SocketOption::Rcvmore),
            r.rc != -1 ==> r.size == 8,
        ensures
            res == get_result(r.rc, r.errno, r.value == 1i64),
    {
        match getsockopt_i64(r) {
            Err(e) => Err(e),
            Ok(v) => Ok(v == 1),
        }
    }

    /// Reads the high-water-mark option (8-byte unsigned value).
    pub fn get_hwm(&self, r: GetReply<u64>) -> (res: Result<u64, Error>)
        requires
            !self.closed,
            r.opt == option_id_spec(SocketOption::Hwm),
            r.rc != -1 ==> r.size == 8,
        ensures
            res == get_result(r.rc, r.errno, r.value),
    {
        getsockopt_u64(r)
    }

    /// Reads the I/O-thread affinity option (8-byte unsigned value).
    pub fn get_affinity(&self, r: GetReply<u64>) -> (res: Result<u64, Error>)
        requires
            !self.closed,
            r.opt == option_id_spec(SocketOption::Affinity),
            r.rc != -1 ==> r.size == 8,
        ensures
            res == get_result(r.rc, r.errno, r.value),
    {
        getsockopt_u64(r)
    }

    /// Reads the identity option: the one variable-length option, at most
    /// 255 bytes. The shim offers the full capacity and this layer keeps
    /// exactly the reported length's worth.
    pub fn get_identity(&self, r: GetBytesReply) -> (res: Result<Vec<u8>, Error>)
        requires
            !self.closed,
            r.opt == option_id_spec(SocketOption::Identity),
        ensures
            r.rc == -1 ==> res == Err::<Vec<u8>, Error>(translate(r.errno)),
            r.rc != -1 ==> (res matches Ok(v) && v@ == get_bytes_view(r.value@, r.size)),
    {
        getsockopt_bytes(r)
    }

    /// Reads the multicast data rate option (8-byte signed value).
    pub fn get_rate(&self, r: GetReply<i64>) -> (res: Result<i64, Error>)
        requires
            !self.closed,
            r.opt == option_id_spec(SocketOption::Rate),
            r.rc != -1 ==> r.size == 8,
        ensures
            res == get_result(r.rc, r.errno, r.value),
    {
        getsockopt_i64(r)
    }

    /// Reads the multicast recovery interval option, in seconds.
    pub fn get_recovery_ivl(&self, r: GetReply<i64>) -> (res: Result<i64, Error>)
        requires
            !self.closed,
            r.opt == option_id_spec(SocketOption::RecoveryIvl),
            r.rc != -1 ==> r.size == 8,
        ensures
            res == get_result(r.rc, r.errno, r.value),
    {
        getsockopt_i64(r)
    }

    /// Reads the multicast recovery interval option, in milliseconds.
    pub fn get_recovery_ivl_msec(&self, r: GetReply<i64>) -> (res: Result<i64, Error>)
        requires
            !self.closed,
            r.opt == option_id_spec(SocketOption::RecoveryIvlMsec),
            r.rc != -1 ==> r.size == 8,
        ensures
            res == get_result(r.rc, r.errno, r.value),
    {
        getsockopt_i64(r)
    }

    /// Whether multicast loop-back is enabled, decoded from the
    /// transport's integer report.
    pub fn get_mcast_loop(&self, r: GetReply<i64>) -> (res: Result<bool, Error>)
        requires
            !self.closed,
            r.opt == option_id_spec(SocketOption::McastLoop),
            r.rc != -1 ==> r.size == 8,
        ensures
            res == get_result(r.rc, r.errno, r.value == 1i64),
    {
        match getsockopt_i64(r) {
            Err(e) => Err(e),
            Ok(v) => Ok(v == 1),
        }
    }

    /// Reads the kernel send-buffer size option (8-byte unsigned value).
    pub fn get_sndbuf(&self, r: GetReply<u64>) -> (res: Result<u64, Error>)
        requires
            !self.closed,
            r.opt == option_id_spec(SocketOption::Sndbuf),
            r.rc != -1 ==> r.size == 8,
        ensures
            res == get_result(r.rc, r.errno, r.value),
    {
        getsockopt_u64(r)
    }

    /// Reads the kernel receive-buffer size option (8-byte unsigned value).
    pub fn get_rcvbuf(&self, r: GetReply<u64>) -> (res: Result<u64, Error>)
        requires
            !self.closed,
            r.opt == option_id_spec(SocketOption::Rcvbuf),
            r.rc != -1 ==> r.size == 8,
        ensures
            res == get_result(r.rc, r.errno, r.value),
    {
        getsockopt_u64(r)
    }

    /// Reads the linger period option (8-byte signed value).
    pub fn get_linger(&self, r: GetReply<i64>) -> (res: Result<i64, Error>)
        requires
            !self.closed,
            r.opt == option_id_spec(SocketOption::Linger),
            r.rc != -1 ==> r.size == 8,
        ensures
            res == get_result(r.rc, r.errno, r.value),
    {
        getsockopt_i64(r)
    }

    /// Reads the reconnection interval option (4-byte signed value).
    pub fn get_reconnect_ivl(&self, r: GetReply<i32>) -> (res: Result<i32, Error>)
        requires
            !self.closed,
            r.opt == option_id_spec(SocketOption::ReconnectIvl),
            r.rc != -1 ==> r.size == 4,
        ensures
            res == get_result(r.rc, r.errno, r.value),
    {
        getsockopt_int(r)
    }

    /// Reads the maximum reconnection interval option (4-byte signed value).
    pub fn get_reconnect_ivl_max(&self, r: GetReply<i32>) -> (res: Result<i32, Error>)
        requires
            !self.closed,
            r.opt == option_id_spec(SocketOption::ReconnectIvlMax),
            r.rc != -1 ==> r.size == 4,
        ensures
            res == get_result(r.rc, r.errno, r.value),
    {
        getsockopt_int(r)
    }

    /// Reads the connection backlog option (4-byte signed value).
    pub fn get_backlog(&self, r: GetReply<i32>) -> (res: Result<i32, Error>)
        requires
            !self.closed,
            r.opt == option_id_spec(SocketOption::Backlog),
            r.rc != -1 ==> r.size == 4,
        ensures
            res == get_result(r.rc, r.errno, r.value),
    {
        getsockopt_int(r)
    }

    /// Reads the underlying file descriptor option (8-byte value).
    pub fn get_fd(&self, r: GetReply<i64>) -> (res: Result<i64, Error>)
        requires
            !self.closed,
            r.opt == option_id_spec(SocketOption::Fd),
            r.rc != -1 ==> r.size == 8,
        ensures
            res == get_result(r.rc, r.errno, r.value),
    {
        getsockopt_i64(r)
    }

    /// Reads the pending-event mask option (4-byte unsigned value).
    pub fn get_events(&self, r: GetReply<u32>) -> (res: Result<u32, Error>)
        requires
            !self.closed,
            r.opt == option_id_spec(SocketOption::Events),
            r.rc != -1 ==> r.size == 4,
        ensures
            res == get_result(r.rc, r.errno, r.value),
    {
        getsockopt_u32(r)
    }

    /// Writes the high-water-mark option; the shim passes the caller's
    /// value as an 8-byte unsigned integer.
    pub fn set_hwm(&self, r: SetReply) -> (res: Result<(), Error>)
        requires
            !self.closed,
            r.opt == option_id_spec(SocketOption::Hwm),
            r.size == 8,
        ensures
            res == rc_result(r.rc, r.errno),
    {
        setsockopt_u64(r)
    }

    /// Writes the I/O-thread affinity option (8-byte unsigned value).
    pub fn set_affinity(&self, r: SetReply) -> (res: Result<(), Error>)
        requires
            !self.closed,
            r.opt == option_id_spec(SocketOption::Affinity),
            r.size == 8,
        ensures
            res == rc_result(r.rc, r.errno),
    {
        setsockopt_u64(r)
    }

    /// Writes the identity option. An identity longer than the hard
    /// 255-byte bound is rejected with the transport's invalid-argument
    /// code, surfaced through the catch-all kind.
    pub fn set_identity(&self, value: &[u8], r: SetReply) -> (res: Result<(), Error>)
        requires
            !self.closed,
            r.opt == option_id_spec(SocketOption::Identity),
            r.size == value@.len(),
        ensures
            value@.len() > MAX_IDENTITY_LEN ==> res == Err::<(), Error>(translate(EINVAL_CODE)),
            value@.len() <= MAX_IDENTITY_LEN ==> res == rc_result(r.rc, r.errno),
    {
        if value.len() > MAX_IDENTITY_LEN {
            Err(errno_to_error(EINVAL_CODE))
        } else {
            setsockopt_bytes(value, r)
        }
    }

    /// Writes one subscription prefix for a subscriber socket.
    pub fn set_subscribe(&self, value: &[u8], r: SetReply) -> (res: Result<(), Error>)
        requires
            !self.closed,
            r.opt == option_id_spec(SocketOption::Subscribe),
            r.size == value@.len(),
        ensures
            res == rc_result(r.rc, r.errno),
    {
        setsockopt_bytes(value, r)
    }

    /// Removes one subscription prefix from a subscriber socket.
    pub fn set_unsubscribe(&self, value: &[u8], r: SetReply) -> (res: Result<(), Error>)
        requires
            !self.closed,
            r.opt == option_id_spec(SocketOption::Unsubscribe),
            r.size == value@.len(),
        ensures
            res == rc_result(r.rc, r.errno),
    {
        setsockopt_bytes(value, r)
    }

    /// Writes the multicast data rate option (8-byte signed value).
    pub fn set_rate(&self, r: SetReply) -> (res: Result<(), Error>)
        requires
            !self.closed,
            r.opt == option_id_spec(SocketOption::Rate),
            r.size == 8,
        ensures
            res == rc_result(r.rc, r.errno),
    {
        setsockopt_i64(r)
    }

    /// Writes the multicast recovery interval option, in seconds.
    pub fn set_recovery_ivl(&self, r: SetReply) -> (res: Result<(), Error>)
        requires
            !self.closed,
            r.opt == option_id_spec(SocketOption::RecoveryIvl),
            r.size == 8,
        ensures
            res == rc_result(r.rc, r.errno),
    {
        setsockopt_i64(r)
    }

    /// Writes the multicast recovery interval option, in milliseconds.
    pub fn set_recovery_ivl_msec(&self, r: SetReply) -> (res: Result<(), Error>)
        requires
            !self.closed,
            r.opt == option_id_spec(SocketOption::RecoveryIvlMsec),
            r.size == 8,
        ensures
            res == rc_result(r.rc, r.errno),
    {
        setsockopt_i64(r)
    }

    /// Writes the multicast loop-back option; the shim encodes the flag as
    /// an 8-byte integer, 1 for enabled and 0 for disabled.
    #[allow(unused_variables)]
    pub fn set_mcast_loop(&self, value: bool, r: SetReply) -> (res: Result<(), Error>)
        requires
            !self.closed,
            r.opt == option_id_spec(SocketOption::McastLoop),
            r.size == 8,
        ensures
            res == rc_result(r.rc, r.errno),
    {
        setsockopt_i64(r)
    }

    /// Writes the kernel send-buffer size option (8-byte unsigned value).
    pub fn set_sndbuf(&self, r: SetReply) -> (res: Result<(), Error>)
        requires
            !self.closed,
            r.opt == option_id_spec(SocketOption::Sndbuf),
            r.size == 8,
        ensures
            res == rc_result(r.rc, r.errno),
    {
        setsockopt_u64(r)
    }

    /// Writes the kernel receive-buffer size option (8-byte unsigned value).
    pub fn set_rcvbuf(&self, r: SetReply) -> (res: Result<(), Error>)
        requires
            !self.closed,
            r.opt == option_id_spec(SocketOption::Rcvbuf),
            r.size == 8,
        ensures
            res == rc_result(r.rc, r.errno),
    {
        setsockopt_u64(r)
    }

    /// Writes the linger period option (8-byte signed value, matching the
    /// width the linger read asks for).
    pub fn set_linger(&self, r: SetReply) -> (res: Result<(), Error>)
        requires
            !self.closed,
            r.opt == option_id_spec(SocketOption::Linger),
            r.size == 8,
        ensures
            res == rc_result(r.rc, r.errno),
    {
        setsockopt_i64(r)
    }

    /// Writes the reconnection interval option (4-byte signed value).
    pub fn set_reconnect_ivl(&self, r: SetReply) -> (res: Result<(), Error>)
        requires
            !self.closed,
            r.opt == option_id_spec(SocketOption::ReconnectIvl),
            r.size == 4,
        ensures
            res == rc_result(r.rc, r.errno),
    {
        setsockopt_int(r)
    }

    /// Writes the maximum reconnection interval option (4-byte signed value).
    pub fn set_reconnect_ivl_max(&self, r: SetReply) -> (res: Result<(), Error>)
        requires
            !self.closed,
            r.opt == option_id_spec(SocketOption::ReconnectIvlMax),
            r.size == 4,
        ensures
            res == rc_result(r.rc, r.errno),
    {
        setsockopt_int(r)
    }

    /// Writes the connection backlog option (4-byte signed value).
    pub fn set_backlog(&self, r: SetReply) -> (res: Result<(), Error>)
        requires
            !self.closed,
            r.opt == option_id_spec(SocketOption::Backlog),
            r.size == 4,
        ensures
            res == rc_result(r.rc, r.errno),
    {
        setsockopt_int(r)
    }

    /// Interprets the transport's report for binding this socket to an
    /// endpoint; the shim passes the endpoint string to the transport in
    /// its native form and reports the outcome here.
    pub fn bind(&self, r: Reply) -> (res: Result<(), Error>)
        requires
            !self.closed,
        ensures
            res == rc_result(r.rc, r.errno),
    {
        check_rc(r.rc, r.errno)
    }

    /// Interprets the transport's report for connecting this socket to an
    /// endpoint, as for bind.
    pub fn connect(&self, r: Reply) -> (res: Result<(), Error>)
        requires
            !self.closed,
        ensures
            res == rc_result(r.rc, r.errno),
    {
        check_rc(r.rc, r.errno)
    }

    /// Sends one frame: marshals the caller's bytes into a fresh frame —
    /// the very bytes the shim hands to the transport — and interprets the
    /// transport's report. The frame is consumed on every path, success
    /// and failure alike, so its storage is always released.
    #[allow(unused_variables)]
    pub fn send(&self, data: &[u8], flags: i32, r: Reply) -> (res: Result<(), Error>)
        requires
            !self.closed,
            valid_send_flags(flags),
        ensures
            res == rc_result(r.rc, r.errno),
    {
        let frame = Message::from_bytes(data);
        proof {
            assert(frame@ == data@);
        }
        check_rc(r.rc, r.errno)
    }

    /// Sends one frame of text: the bytes sent are the text's UTF-8
    /// encoding.
    pub fn send_str(&self, data: &str, flags: i32, r: Reply) -> (res: Result<(), Error>)
        requires
            !self.closed,
            valid_send_flags(flags),
        ensures
            res == rc_result(r.rc, r.errno),
    {
        self.send(data.as_bytes(), flags, r)
    }

    /// Receives one frame: interprets the transport's report and copies
    /// out exactly the reported length — no truncation, no padding — into
    /// freshly owned storage.
    #[allow(unused_variables)]
    pub fn recv(&self, flags: i32, r: RecvReply) -> (res: Result<Vec<u8>, Error>)
        requires
            !self.closed,
            valid_send_flags(flags),
            r.size <= r.frame@.len(),
        ensures
            r.rc == -1 ==> res == Err::<Vec<u8>, Error>(translate(r.errno)),
            r.rc != -1 ==> (res matches Ok(v) && v@ == received_frame(r.frame@, r.size)),
    {
        if r.rc == -1 {
            return Err(errno_to_error(r.errno));
        }
        let mut out: Vec<u8> = Vec::new();
        let mut i: usize = 0;
        while i < r.size
            invariant
                i <= r.size,
                r.size <= r.frame@.len(),
                out@ == r.frame@.take(i as int),
            decreases r.size - i,
        {
            out.push(r.frame[i]);
            i = i + 1;
            proof {
                assert(out@ =~= r.frame@.take(i as int));
            }
        }
        Ok(out)
    }

    /// Receives one frame of text: the frame's bytes, which must be valid
    /// UTF-8 as the sender's text convenience produces, decoded back into
    /// a string.
    pub fn recv_str(&self, flags: i32, r: RecvReply) -> (res: Result<String, Error>)
        requires
            !self.closed,
            valid_send_flags(flags),
            r.size <= r.frame@.len(),
            valid_utf8(r.frame@.take(r.size as int)),
        ensures
            r.rc == -1 ==> res == Err::<String, Error>(translate(r.errno)),
            r.rc != -1 ==> (res matches Ok(s) && encode_utf8(s@) == received_frame(
                r.frame@,
                r.size,
            )),
    {
        match self.recv(flags, r) {
            Err(e) => Err(e),
            Ok(bytes) => Ok(utf8_to_string(bytes)),
        }
    }

    /// Whether teardown still has a native release to perform: true until
    /// the first close, false ever after.
    pub fn close_pending(&self) -> (p: bool)
        ensures
            p == !self.closed,
    {
        !self.closed
    }

    /// Idempotent teardown. The first call marks the socket closed and
    /// interprets the transport's report for releasing the handle; every
    /// later call succeeds without any further native work, ignoring
    /// whatever report accompanies it.
    pub fn close(&mut self, r: Reply) -> (res: Result<(), Error>)
        ensures
            final(self).closed,
            final(self).sock == old(self).sock,
            final(self).kind == old(self).kind,
            old(self).closed ==> res == Ok::<(), Error>(()),
            !old(self).closed ==> res == rc_result(r.rc, r.errno),
    {
        if self.closed {
            return Ok(());
        }
        self.closed = true;
        check_rc(r.rc, r.errno)
    }
}

/// Law: frames round-trip byte-for-byte. For every byte sequence, the
/// empty one included, the frame marshalled on send holds exactly those
/// bytes, and receiving a frame the transport delivered intact, at its
/// own length, gives exactly those bytes back.
pub proof fn lemma_frame_round_trip(b: Seq<u8>)
    requires
        b.len() <= usize::MAX,
    ensures
        received_frame(b, b.len() as usize) == b,
{
    assert(received_frame(b, b.len() as usize) =~= b);
}

} // verus!
