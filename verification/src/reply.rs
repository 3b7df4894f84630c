use vstd::prelude::*;

verus! {

/// What the unverified shim reports back from one native call that signals
/// failure by returning -1: the return code, and the failure code it read
/// synchronously right after the call.
#[derive(Clone, Copy, Debug, PartialEq, Eq, Structural)]
pub struct Reply {
    pub rc: i32,
    pub errno: i32,
}

/// The report for a native call that yields a fresh opaque handle. A null
/// handle is reported as 0 and signals failure.
#[derive(Clone, Copy, Debug, PartialEq, Eq, Structural)]
pub struct HandleReply {
    pub handle: usize,
    pub errno: i32,
}

/// The report for one fixed-width option read: the option identifier that
/// was requested, the return code and failure code, the value read, and the
/// value width the transport reported back.
#[derive(Clone, Copy, Debug)]
pub struct GetReply<T> {
    pub opt: i32,
    pub rc: i32,
    pub errno: i32,
    pub value: T,
    pub size: usize,
}

/// The report for the variable-length option read: the buffer the shim asked
/// the transport to fill, at its full requested capacity, and the length the
/// transport reported back for the value.
#[derive(Debug)]
pub struct GetBytesReply {
    pub opt: i32,
    pub rc: i32,
    pub errno: i32,
    pub value: Vec<u8>,
    pub size: usize,
}

/// The report for one option write: the option identifier and the value
/// width the shim passed, with the return code and failure code.
#[derive(Clone, Copy, Debug, PartialEq, Eq, Structural)]
pub struct SetReply {
    pub opt: i32,
    pub rc: i32,
    pub errno: i32,
    pub size: usize,
}

/// The report for receiving one frame: the return code and failure code,
/// the frame bytes copied out of the transport's buffer, and the frame
/// length the transport reported.
#[derive(Debug)]
pub struct RecvReply {
    pub rc: i32,
    pub errno: i32,
    pub frame: Vec<u8>,
    pub size: usize,
}

/// The report for one readiness poll: the return code and failure code, and
/// the observed event masks, one per item polled, in the order polled.
#[derive(Debug)]
pub struct PollReply {
    pub rc: i32,
    pub errno: i32,
    pub revents: Vec<i16>,
}

} // verus!
