use vstd::prelude::*;
use crate::errors::{Error, translate, rc_result, errno_to_error};
use crate::reply::{Reply, HandleReply};
use crate::socket::Socket;
use crate::socket_type::SocketType;

verus! {

/// Owns the native messaging context from which sockets are created. It
/// must outlive every socket it created, and is terminated exactly once.
#[derive(Debug)]
pub struct Context {
    /// The opaque native handle, as the shim reported it; never null.
    pub ctx: usize,
    /// Whether the native context has been terminated; set exactly once.
    pub terminated: bool,
}

/// Packs the version components the transport reported into the
/// major-minor-patch triple.
pub fn version(major: i32, minor: i32, patch: i32) -> (v: (i32, i32, i32))
    ensures
        v == (major, minor, patch),
{
    (major, minor, patch)
}

/// Creates the typed context from the transport's report for creating a
/// native context: a null handle signals failure, and the failure code
/// gives the error kind; anything else becomes a live context.
pub fn init(r: HandleReply) -> (res: Result<Context, Error>)
    ensures
        r.handle == 0 ==> res == Err::<Context, Error>(translate(r.errno)),
        r.handle != 0 ==> (res matches Ok(c) && c.ctx == r.handle && !c.terminated),
{
    if r.handle == 0 {
        Err(errno_to_error(r.errno))
    } else {
        Ok(Context { ctx: r.handle, terminated: false })
    }
}

impl Context {
    /// Creates a socket of the given pattern from the transport's report
    /// for creating a native socket: a null handle signals failure; any
    /// other handle becomes a live socket carrying the pattern tag.
    pub fn socket(&self, socket_type: SocketType, r: HandleReply) -> (res: Result<Socket, Error>)
        requires
            !self.terminated,
        ensures
            r.handle == 0 ==> res == Err::<Socket, Error>(translate(r.errno)),
            r.handle != 0 ==> (res matches Ok(s) && s.sock == r.handle && s.kind == socket_type
                && !s.closed),
    {
        if r.handle == 0 {
            Err(errno_to_error(r.errno))
        } else {
            Ok(Socket { sock: r.handle, kind: socket_type, closed: false })
        }
    }

    /// Terminates the context, exactly once, after every socket created
    /// from it has been closed; on a failure report the context stays
    /// live and the translated error is returned.
    pub fn term(&mut self, r: Reply) -> (res: Result<(), Error>)
        requires
            !old(self).terminated,
        ensures
            final(self).ctx == old(self).ctx,
            res == rc_result(r.rc, r.errno),
            final(self).terminated == (r.rc != -1),
    {
        if r.rc == -1 {
            Err(errno_to_error(r.errno))
        } else {
            self.terminated = true;
            Ok(())
        }
    }
}

} // verus!
