use vstd::prelude::*;

verus! {

/// Base of the transport's private failure-code space. Codes the engine
/// defines for itself all sit above this offset; codes below it are the
/// operating system's own.
pub const ZMQ_HAUSNUMERO: i32 = 156384712;

pub const ENOTSUP_CODE: i32 = ZMQ_HAUSNUMERO + 1;
pub const EPROTONOSUPPORT_CODE: i32 = ZMQ_HAUSNUMERO + 2;
pub const ENOBUFS_CODE: i32 = ZMQ_HAUSNUMERO + 3;
pub const ENETDOWN_CODE: i32 = ZMQ_HAUSNUMERO + 4;
pub const EADDRINUSE_CODE: i32 = ZMQ_HAUSNUMERO + 5;
pub const EADDRNOTAVAIL_CODE: i32 = ZMQ_HAUSNUMERO + 6;
pub const ECONNREFUSED_CODE: i32 = ZMQ_HAUSNUMERO + 7;
pub const EINPROGRESS_CODE: i32 = ZMQ_HAUSNUMERO + 8;
pub const ENOTSOCK_CODE: i32 = ZMQ_HAUSNUMERO + 9;
pub const EFSM_CODE: i32 = ZMQ_HAUSNUMERO + 51;
pub const ENOCOMPATPROTO_CODE: i32 = ZMQ_HAUSNUMERO + 52;
pub const ETERM_CODE: i32 = ZMQ_HAUSNUMERO + 53;
pub const EMTHREAD_CODE: i32 = ZMQ_HAUSNUMERO + 54;

/// The system's invalid-argument code, which the transport reports for an
/// option value it rejects (for instance an identity longer than 255 bytes).
pub const EINVAL_CODE: i32 = 22;

/// One transport failure kind: the closed enumeration of codes the engine
/// defines, plus a catch-all that preserves any other code verbatim instead
/// of collapsing it into a generic kind.
#[allow(non_camel_case_types)]
#[derive(Clone, Copy, Debug, PartialEq, Eq, Structural)]
pub enum Error {
    ENOTSUP,
    EPROTONOSUPPORT,
    ENOBUFS,
    ENETDOWN,
    EADDRINUSE,
    EADDRNOTAVAIL,
    ECONNREFUSED,
    EINPROGRESS,
    ENOTSOCK,
    EFSM,
    ENOCOMPATPROTO,
    ETERM,
    EMTHREAD,
    /// A failure code outside the closed enumeration, kept as reported.
    EUNKNOWN(i32),
}

/// The error kind a given failure code translates to.
pub open spec fn translate(code: i32) -> Error {
    if code == ENOTSUP_CODE {
        Error::ENOTSUP
    } else if code == EPROTONOSUPPORT_CODE {
        Error::EPROTONOSUPPORT
    } else if code == ENOBUFS_CODE {
        Error::ENOBUFS
    } else if code == ENETDOWN_CODE {
        Error::ENETDOWN
    } else if code == EADDRINUSE_CODE {
        Error::EADDRINUSE
    } else if code == EADDRNOTAVAIL_CODE {
        Error::EADDRNOTAVAIL
    } else if code == ECONNREFUSED_CODE {
        Error::ECONNREFUSED
    } else if code == EINPROGRESS_CODE {
        Error::EINPROGRESS
    } else if code == ENOTSOCK_CODE {
        Error::ENOTSOCK
    } else if code == EFSM_CODE {
        Error::EFSM
    } else if code == ENOCOMPATPROTO_CODE {
        Error::ENOCOMPATPROTO
    } else if code == ETERM_CODE {
        Error::ETERM
    } else if code == EMTHREAD_CODE {
        Error::EMTHREAD
    } else {
        Error::EUNKNOWN(code)
    }
}

/// The numeric failure code each kind stands for.
pub open spec fn error_code(e: Error) -> i32 {
    match e {
        Error::ENOTSUP => ENOTSUP_CODE,
        Error::EPROTONOSUPPORT => EPROTONOSUPPORT_CODE,
        Error::ENOBUFS => ENOBUFS_CODE,
        Error::ENETDOWN => ENETDOWN_CODE,
        Error::EADDRINUSE => EADDRINUSE_CODE,
        Error::EADDRNOTAVAIL => EADDRNOTAVAIL_CODE,
        Error::ECONNREFUSED => ECONNREFUSED_CODE,
        Error::EINPROGRESS => EINPROGRESS_CODE,
        Error::ENOTSOCK => ENOTSOCK_CODE,
        Error::EFSM => EFSM_CODE,
        Error::ENOCOMPATPROTO => ENOCOMPATPROTO_CODE,
        Error::ETERM => ETERM_CODE,
        Error::EMTHREAD => EMTHREAD_CODE,
        Error::EUNKNOWN(code) => code,
    }
}

/// The description this layer gives for each kind.
pub open spec fn error_text(e: Error) -> Seq<char> {
    match e {
        Error::ENOTSUP => "Operation not supported"@,
        Error::EPROTONOSUPPORT => "Protocol not supported"@,
        Error::ENOBUFS => "No buffer space available"@,
        Error::ENETDOWN => "Network is down"@,
        Error::EADDRINUSE => "Address already in use"@,
        Error::EADDRNOTAVAIL => "Address not available"@,
        Error::ECONNREFUSED => "Connection refused"@,
        Error::EINPROGRESS => "Operation in progress"@,
        Error::ENOTSOCK => "Socket operation on a non-socket"@,
        Error::EFSM => "Operation cannot be accomplished in current state"@,
        Error::ENOCOMPATPROTO => "The protocol is not compatible with the socket type"@,
        Error::ETERM => "Context was terminated"@,
        Error::EMTHREAD => "No thread available"@,
        Error::EUNKNOWN(_) => "Unknown transport error"@,
    }
}

/// Maps a failure code, read synchronously right after the call that
/// produced it, to the closed enumeration of error kinds. A code outside
/// the known set is preserved verbatim in the catch-all kind.
pub fn errno_to_error(code: i32) -> (e: Error)
    ensures
        e == translate(code),
{
    if code == ENOTSUP_CODE {
        Error::ENOTSUP
    } else if code == EPROTONOSUPPORT_CODE {
        Error::EPROTONOSUPPORT
    } else if code == ENOBUFS_CODE {
        Error::ENOBUFS
    } else if code == ENETDOWN_CODE {
        Error::ENETDOWN
    } else if code == EADDRINUSE_CODE {
        Error::EADDRINUSE
    } else if code == EADDRNOTAVAIL_CODE {
        Error::EADDRNOTAVAIL
    } else if code == ECONNREFUSED_CODE {
        Error::ECONNREFUSED
    } else if code == EINPROGRESS_CODE {
        Error::EINPROGRESS
    } else if code == ENOTSOCK_CODE {
        Error::ENOTSOCK
    } else if code == EFSM_CODE {
        Error::EFSM
    } else if code == ENOCOMPATPROTO_CODE {
        Error::ENOCOMPATPROTO
    } else if code == ETERM_CODE {
        Error::ETERM
    } else if code == EMTHREAD_CODE {
        Error::EMTHREAD
    } else {
        Error::EUNKNOWN(code)
    }
}

/// The outcome of one transport call that signals failure by returning -1,
/// with the failure code read synchronously right after it.
pub open spec fn rc_result(rc: i32, errno: i32) -> Result<(), Error> {
    if rc == -1 {
        Err(translate(errno))
    } else {
        Ok(())
    }
}

/// Translates one return-code report into a typed outcome.
pub fn check_rc(rc: i32, errno: i32) -> (res: Result<(), Error>)
    ensures
        res == rc_result(rc, errno),
{
    if rc == -1 {
        Err(errno_to_error(errno))
    } else {
        Ok(())
    }
}

impl Error {
    /// The numeric failure code this kind stands for; the catch-all reports
    /// the code it preserved.
    pub fn code(&self) -> (c: i32)
        ensures
            c == error_code(*self),
    {
        match *self {
            Error::ENOTSUP => ENOTSUP_CODE,
            Error::EPROTONOSUPPORT => EPROTONOSUPPORT_CODE,
            Error::ENOBUFS => ENOBUFS_CODE,
            Error::ENETDOWN => ENETDOWN_CODE,
            Error::EADDRINUSE => EADDRINUSE_CODE,
            Error::EADDRNOTAVAIL => EADDRNOTAVAIL_CODE,
            Error::ECONNREFUSED => ECONNREFUSED_CODE,
            Error::EINPROGRESS => EINPROGRESS_CODE,
            Error::ENOTSOCK => ENOTSOCK_CODE,
            Error::EFSM => EFSM_CODE,
            Error::ENOCOMPATPROTO => ENOCOMPATPROTO_CODE,
            Error::ETERM => ETERM_CODE,
            Error::EMTHREAD => EMTHREAD_CODE,
            Error::EUNKNOWN(code) => code,
        }
    }

    /// A human-readable description of the error kind.
    pub fn to_str(&self) -> (s: &'static str)
        ensures
            s@ == error_text(*self),
    {
        match *self {
            Error::ENOTSUP => "Operation not supported",
            Error::EPROTONOSUPPORT => "Protocol not supported",
            Error::ENOBUFS => "No buffer space available",
            Error::ENETDOWN => "Network is down",
            Error::EADDRINUSE => "Address already in use",
            Error::EADDRNOTAVAIL => "Address not available",
            Error::ECONNREFUSED => "Connection refused",
            Error::EINPROGRESS => "Operation in progress",
            Error::ENOTSOCK => "Socket operation on a non-socket",
            Error::EFSM => "Operation cannot be accomplished in current state",
            Error::ENOCOMPATPROTO => "The protocol is not compatible with the socket type",
            Error::ETERM => "Context was terminated",
            Error::EMTHREAD => "No thread available",
            Error::EUNKNOWN(_) => "Unknown transport error",
        }
    }
}

/// Law: translation preserves every failure code — mapping a code to its
/// kind and reading the kind's code back returns the original code, known
/// and unknown codes alike.
pub proof fn lemma_translate_preserves_code(code: i32)
    ensures
        error_code(translate(code)) == code,
{
}

} // verus!
