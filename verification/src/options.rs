use vstd::prelude::*;
use vstd::string::StringSliceAdditionalSpecFns;
use crate::errors::{Error, translate, rc_result, errno_to_error, check_rc};
use crate::reply::{GetReply, GetBytesReply, SetReply};

verus! {

// Native identifiers of the socket options this layer exposes.
pub const ZMQ_HWM: i32 = 1;
pub const ZMQ_AFFINITY: i32 = 4;
pub const ZMQ_IDENTITY: i32 = 5;
pub const ZMQ_SUBSCRIBE: i32 = 6;
pub const ZMQ_UNSUBSCRIBE: i32 = 7;
pub const ZMQ_RATE: i32 = 8;
pub const ZMQ_RECOVERY_IVL: i32 = 9;
pub const ZMQ_MCAST_LOOP: i32 = 10;
pub const ZMQ_SNDBUF: i32 = 11;
pub const ZMQ_RCVBUF: i32 = 12;
pub const ZMQ_RCVMORE: i32 = 13;
pub const ZMQ_FD: i32 = 14;
pub const ZMQ_EVENTS: i32 = 15;
pub const ZMQ_TYPE: i32 = 16;
pub const ZMQ_LINGER: i32 = 17;
pub const ZMQ_RECONNECT_IVL: i32 = 18;
pub const ZMQ_BACKLOG: i32 = 19;
pub const ZMQ_RECOVERY_IVL_MSEC: i32 = 20;
pub const ZMQ_RECONNECT_IVL_MAX: i32 = 21;

/// The hard upper bound on the one variable-length option value, the
/// identity: the transport rejects anything longer.
pub const MAX_IDENTITY_LEN: usize = 255;

/// One typed socket option.
#[derive(Clone, Copy, Debug, PartialEq, Eq, Structural)]
pub enum SocketOption {
    Hwm,
    Affinity,
    Identity,
    Subscribe,
    Unsubscribe,
    Rate,
    RecoveryIvl,
    RecoveryIvlMsec,
    McastLoop,
    Sndbuf,
    Rcvbuf,
    Rcvmore,
    Fd,
    Events,
    Type,
    Linger,
    ReconnectIvl,
    ReconnectIvlMax,
    Backlog,
}

/// The value width of a socket option: a 4-byte integer, an 8-byte integer,
/// or a variable-length byte string.
#[derive(Clone, Copy, Debug, PartialEq, Eq, Structural)]
pub enum OptionWidth {
    Four,
    Eight,
    Variable,
}

/// The on-the-wire identifier of each option.
pub open spec fn option_id_spec(o: SocketOption) -> i32 {
    match o {
        SocketOption::Hwm => ZMQ_HWM,
        SocketOption::Affinity => ZMQ_AFFINITY,
        SocketOption::Identity => ZMQ_IDENTITY,
        SocketOption::Subscribe => ZMQ_SUBSCRIBE,
        SocketOption::Unsubscribe => ZMQ_UNSUBSCRIBE,
        SocketOption::Rate => ZMQ_RATE,
        SocketOption::RecoveryIvl => ZMQ_RECOVERY_IVL,
        SocketOption::RecoveryIvlMsec => ZMQ_RECOVERY_IVL_MSEC,
        SocketOption::McastLoop => ZMQ_MCAST_LOOP,
        SocketOption::Sndbuf => ZMQ_SNDBUF,
        SocketOption::Rcvbuf => ZMQ_RCVBUF,
        SocketOption::Rcvmore => ZMQ_RCVMORE,
        SocketOption::Fd => ZMQ_FD,
        SocketOption::Events => ZMQ_EVENTS,
        SocketOption::Type => ZMQ_TYPE,
        SocketOption::Linger => ZMQ_LINGER,
        SocketOption::ReconnectIvl => ZMQ_RECONNECT_IVL,
        SocketOption::ReconnectIvlMax => ZMQ_RECONNECT_IVL_MAX,
        SocketOption::Backlog => ZMQ_BACKLOG,
    }
}

/// The value width each option is bound to.
pub open spec fn option_width_spec(o: SocketOption) -> OptionWidth {
    match o {
        SocketOption::Hwm => OptionWidth::Eight,
        SocketOption::Affinity => OptionWidth::Eight,
        SocketOption::Identity => OptionWidth::Variable,
        SocketOption::Subscribe => OptionWidth::Variable,
        SocketOption::Unsubscribe => OptionWidth::Variable,
        SocketOption::Rate => OptionWidth::Eight,
        SocketOption::RecoveryIvl => OptionWidth::Eight,
        SocketOption::RecoveryIvlMsec => OptionWidth::Eight,
        SocketOption::McastLoop => OptionWidth::Eight,
        SocketOption::Sndbuf => OptionWidth::Eight,
        SocketOption::Rcvbuf => OptionWidth::Eight,
        SocketOption::Rcvmore => OptionWidth::Eight,
        SocketOption::Fd => OptionWidth::Eight,
        SocketOption::Events => OptionWidth::Four,
        SocketOption::Type => OptionWidth::Four,
        SocketOption::Linger => OptionWidth::Eight,
        SocketOption::ReconnectIvl => OptionWidth::Four,
        SocketOption::ReconnectIvlMax => OptionWidth::Four,
        SocketOption::Backlog => OptionWidth::Four,
    }
}

/// Whether the option can be read.
pub open spec fn option_readable_spec(o: SocketOption) -> bool {
    match o {
        SocketOption::Subscribe => false,
        SocketOption::Unsubscribe => false,
        _ => true,
    }
}

/// Whether the option can be written.
pub open spec fn option_writable_spec(o: SocketOption) -> bool {
    match o {
        SocketOption::Rcvmore => false,
        SocketOption::Fd => false,
        SocketOption::Events => false,
        SocketOption::Type => false,
        _ => true,
    }
}

/// The fixed table entry: each option's on-the-wire identifier.
pub fn option_id(o: SocketOption) -> (id: i32)
    ensures
        id == option_id_spec(o),
{
    match o {
        SocketOption::Hwm => ZMQ_HWM,
        SocketOption::Affinity => ZMQ_AFFINITY,
        SocketOption::Identity => ZMQ_IDENTITY,
        SocketOption::Subscribe => ZMQ_SUBSCRIBE,
        SocketOption::Unsubscribe => ZMQ_UNSUBSCRIBE,
        SocketOption::Rate => ZMQ_RATE,
        SocketOption::RecoveryIvl => ZMQ_RECOVERY_IVL,
        SocketOption::RecoveryIvlMsec => ZMQ_RECOVERY_IVL_MSEC,
        SocketOption::McastLoop => ZMQ_MCAST_LOOP,
        SocketOption::Sndbuf => ZMQ_SNDBUF,
        SocketOption::Rcvbuf => ZMQ_RCVBUF,
        SocketOption::Rcvmore => ZMQ_RCVMORE,
        SocketOption::Fd => ZMQ_FD,
        SocketOption::Events => ZMQ_EVENTS,
        SocketOption::Type => ZMQ_TYPE,
        SocketOption::Linger => ZMQ_LINGER,
        SocketOption::ReconnectIvl => ZMQ_RECONNECT_IVL,
        SocketOption::ReconnectIvlMax => ZMQ_RECONNECT_IVL_MAX,
        SocketOption::Backlog => ZMQ_BACKLOG,
    }
}

/// The fixed table entry: each option's value width.
pub fn option_width(o: SocketOption) -> (w: OptionWidth)
    ensures
        w == option_width_spec(o),
{
    match o {
        SocketOption::Hwm => OptionWidth::Eight,
        SocketOption::Affinity => OptionWidth::Eight,
        SocketOption::Identity => OptionWidth::Variable,
        SocketOption::Subscribe => OptionWidth::Variable,
        SocketOption::Unsubscribe => OptionWidth::Variable,
        SocketOption::Rate => OptionWidth::Eight,
        SocketOption::RecoveryIvl => OptionWidth::Eight,
        SocketOption::RecoveryIvlMsec => OptionWidth::Eight,
        SocketOption::McastLoop => OptionWidth::Eight,
        SocketOption::Sndbuf => OptionWidth::Eight,
        SocketOption::Rcvbuf => OptionWidth::Eight,
        SocketOption::Rcvmore => OptionWidth::Eight,
        SocketOption::Fd => OptionWidth::Eight,
        SocketOption::Events => OptionWidth::Four,
        SocketOption::Type => OptionWidth::Four,
        SocketOption::Linger => OptionWidth::Eight,
        SocketOption::ReconnectIvl => OptionWidth::Four,
        SocketOption::ReconnectIvlMax => OptionWidth::Four,
        SocketOption::Backlog => OptionWidth::Four,
    }
}

/// The fixed table entry: whether the option can be read.
pub fn option_readable(o: SocketOption) -> (b: bool)
    ensures
        b == option_readable_spec(o),
{
    match o {
        SocketOption::Subscribe => false,
        SocketOption::Unsubscribe => false,
        _ => true,
    }
}

/// The fixed table entry: whether the option can be written.
pub fn option_writable(o: SocketOption) -> (b: bool)
    ensures
        b == option_writable_spec(o),
{
    match o {
        SocketOption::Rcvmore => false,
        SocketOption::Fd => false,
        SocketOption::Events => false,
        SocketOption::Type => false,
        _ => true,
    }
}

/// The typed outcome of one fixed-width option read: on failure the
/// translated error, on success the value verbatim as reported.
pub open spec fn get_result<T>(rc: i32, errno: i32, value: T) -> Result<T, Error> {
    if rc == -1 {
        Err(translate(errno))
    } else {
        Ok(value)
    }
}

/// The bytes this layer keeps from a variable-length option read: the
/// reported length's worth of the buffer, never past the allocation.
pub open spec fn get_bytes_view(buf: Seq<u8>, size: usize) -> Seq<u8> {
    if size <= buf.len() {
        buf.take(size as int)
    } else {
        buf
    }
}

/// The typed outcome of the variable-length option read.
pub open spec fn get_bytes_result(rc: i32, errno: i32, buf: Seq<u8>, size: usize) -> Result<
    Seq<u8>,
    Error,
> {
    if rc == -1 {
        Err(translate(errno))
    } else {
        Ok(get_bytes_view(buf, size))
    }
}

/// Interprets the report for a 4-byte signed integer option read. On
/// success the transport must have reported back the requested 4-byte
/// width; a differing width would mean reinterpreted bytes and is a
/// contract violation the shim fails loudly on instead of calling this.
pub fn getsockopt_int(r: GetReply<i32>) -> (res: Result<i32, Error>)
    requires
        r.rc != -1 ==> r.size == 4,
    ensures
        res == get_result(r.rc, r.errno, r.value),
{
    if r.rc == -1 {
        Err(errno_to_error(r.errno))
    } else {
        Ok(r.value)
    }
}

/// Interprets the report for a 4-byte unsigned integer option read; the
/// width contract is as for the signed 4-byte read.
pub fn getsockopt_u32(r: GetReply<u32>) -> (res: Result<u32, Error>)
    requires
        r.rc != -1 ==> r.size == 4,
    ensures
        res == get_result(r.rc, r.errno, r.value),
{
    if r.rc == -1 {
        Err(errno_to_error(r.errno))
    } else {
        Ok(r.value)
    }
}

/// Interprets the report for an 8-byte signed integer option read; the
/// width contract is as for the 4-byte reads, with 8 bytes requested.
pub fn getsockopt_i64(r: GetReply<i64>) -> (res: Result<i64, Error>)
    requires
        r.rc != -1 ==> r.size == 8,
    ensures
        res == get_result(r.rc, r.errno, r.value),
{
    if r.rc == -1 {
        Err(errno_to_error(r.errno))
    } else {
        Ok(r.value)
    }
}

/// Interprets the report for an 8-byte unsigned integer option read; the
/// width contract is as for the 8-byte signed read.
pub fn getsockopt_u64(r: GetReply<u64>) -> (res: Result<u64, Error>)
    requires
        r.rc != -1 ==> r.size == 8,
    ensures
        res == get_result(r.rc, r.errno, r.value),
{
    if r.rc == -1 {
        Err(errno_to_error(r.errno))
    } else {
        Ok(r.value)
    }
}

/// Interprets the report for the variable-length option read: keeps exactly
/// the reported length's worth of the filled buffer, truncating to the
/// buffer's own length so that nothing past the allocation is ever read.
pub fn getsockopt_bytes(r: GetBytesReply) -> (res: Result<Vec<u8>, Error>)
    ensures
        r.rc == -1 ==> res == Err::<Vec<u8>, Error>(translate(r.errno)),
        r.rc != -1 ==> (res matches Ok(v) && v@ == get_bytes_view(r.value@, r.size)),
{
    if r.rc == -1 {
        Err(errno_to_error(r.errno))
    } else {
        let mut value = r.value;
        if r.size <= value.len() {
            value.truncate(r.size);
            proof {
                assert(value@ == get_bytes_view(r.value@, r.size));
            }
        }
        Ok(value)
    }
}

/// Interprets the report for a 4-byte integer option write.
pub fn setsockopt_int(r: SetReply) -> (res: Result<(), Error>)
    requires
        r.size == 4,
    ensures
        res == rc_result(r.rc, r.errno),
{
    check_rc(r.rc, r.errno)
}

/// Interprets the report for an 8-byte signed integer option write.
pub fn setsockopt_i64(r: SetReply) -> (res: Result<(), Error>)
    requires
        r.size == 8,
    ensures
        res == rc_result(r.rc, r.errno),
{
    check_rc(r.rc, r.errno)
}

/// Interprets the report for an 8-byte unsigned integer option write.
pub fn setsockopt_u64(r: SetReply) -> (res: Result<(), Error>)
    requires
        r.size == 8,
    ensures
        res == rc_result(r.rc, r.errno),
{
    check_rc(r.rc, r.errno)
}

/// Interprets the report for a byte-string option write; the shim passes
/// the value's bytes with their exact length as the width.
#[allow(unused_variables)]
pub fn setsockopt_bytes(value: &[u8], r: SetReply) -> (res: Result<(), Error>)
    requires
        r.size == value@.len(),
    ensures
        res == rc_result(r.rc, r.errno),
{
    check_rc(r.rc, r.errno)
}

/// Interprets the report for a byte-string option written from text: the
/// width passed is the length of the text's UTF-8 encoding.
pub fn setsockopt_str(value: &str, r: SetReply) -> (res: Result<(), Error>)
    requires
        r.size == value.spec_bytes().len(),
    ensures
        res == rc_result(r.rc, r.errno),
{
    setsockopt_bytes(value.as_bytes(), r)
}

/// Law: the option table is a proper table — no two options share an
/// on-the-wire identifier.
pub proof fn lemma_option_ids_distinct(a: SocketOption, b: SocketOption)
    requires
        option_id_spec(a) == option_id_spec(b),
    ensures
        a == b,
{
}

/// Law: a fixed-width option value round-trips through this layer
/// untouched. A write passes the caller's value to the transport as it is,
/// and a successful read returns verbatim whatever value the transport
/// reports — the written value itself whenever the transport applied no
/// clamping of its own.
pub proof fn lemma_option_round_trip<T>(written: T, reported: T, rc: i32, errno: i32)
    requires
        rc != -1,
    ensures
        get_result(rc, errno, reported) == Ok::<T, Error>(reported),
        reported == written ==> get_result(rc, errno, reported) == Ok::<T, Error>(written),
{
}

/// Law: an identity of at most 255 bytes reads back exactly as it was
/// written. When the transport reports the written identity's length and
/// fills the buffer's prefix with its bytes, the read returns precisely
/// those bytes — no truncation, no padding.
pub proof fn lemma_identity_round_trip(id: Seq<u8>, buf: Seq<u8>, size: usize, rc: i32, errno: i32)
    requires
        id.len() <= MAX_IDENTITY_LEN,
        rc != -1,
        size == id.len(),
        size <= buf.len(),
        buf.take(size as int) == id,
    ensures
        get_bytes_result(rc, errno, buf, size) == Ok::<Seq<u8>, Error>(id),
{
}

} // verus!
