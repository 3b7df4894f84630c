use vstd::prelude::*;
use crate::errors::{Error, translate, rc_result, errno_to_error};
use crate::reply::PollReply;
use crate::socket::Socket;

verus! {

/// Poll event flag: at least one frame can be received without blocking.
pub const POLLIN: i16 = 1;

/// Poll event flag: at least one frame can be sent without blocking.
pub const POLLOUT: i16 = 2;

/// Poll event flag: an error condition is pending on the descriptor.
pub const POLLERR: i16 = 4;

/// One readiness request: a socket handle or, alternatively, a raw file
/// descriptor, with the requested event mask and — after a successful
/// poll — the observed event mask.
#[derive(Clone, Copy, Debug, PartialEq, Eq, Structural)]
pub struct PollItem {
    /// The native socket handle to watch, or 0 to watch the descriptor.
    pub socket: usize,
    /// The raw file descriptor to watch when no socket handle is given.
    pub fd: i32,
    /// The requested event mask.
    pub events: i16,
    /// The observed event mask, filled in by the last successful poll.
    pub revents: i16,
}

/// The fields of a poll item that a poll call never changes.
pub open spec fn same_request(a: PollItem, b: PollItem) -> bool {
    a.socket == b.socket && a.fd == b.fd && a.events == b.events
}

impl PollItem {
    /// A readiness request on a socket's handle.
    pub fn from_socket(s: &Socket, events: i16) -> (it: PollItem)
        requires
            !s.closed,
        ensures
            it == (PollItem { socket: s.sock, fd: 0, events: events, revents: 0 }),
    {
        PollItem { socket: s.sock, fd: 0, events: events, revents: 0 }
    }

    /// A readiness request on a raw file descriptor.
    pub fn from_fd(fd: i32, events: i16) -> (it: PollItem)
        ensures
            it == (PollItem { socket: 0, fd: fd, events: events, revents: 0 }),
    {
        PollItem { socket: 0, fd: fd, events: events, revents: 0 }
    }

    /// Whether the observed events include readability.
    pub fn is_readable(&self) -> (b: bool)
        ensures
            b == ((self.revents & POLLIN) != 0),
    {
        (self.revents & POLLIN) != 0
    }

    /// Whether the observed events include writability.
    pub fn is_writable(&self) -> (b: bool)
        ensures
            b == ((self.revents & POLLOUT) != 0),
    {
        (self.revents & POLLOUT) != 0
    }

    /// Whether the observed events include an error condition.
    pub fn has_error(&self) -> (b: bool)
        ensures
            b == ((self.revents & POLLERR) != 0),
    {
        (self.revents & POLLERR) != 0
    }
}

/// Applies one poll's report to the batch of items, in place. Order is
/// preserved and no request field is touched. On success every item's
/// observed mask becomes the mask the transport reported for it, in the
/// same order; on failure the translated error is returned and the items
/// are left exactly as they were — observed masks from a failed poll are
/// never surfaced.
pub fn poll(items: &mut Vec<PollItem>, r: &PollReply) -> (res: Result<(), Error>)
    requires
        r.rc != -1 ==> r.revents@.len() == old(items)@.len(),
    ensures
        res == rc_result(r.rc, r.errno),
        final(items)@.len() == old(items)@.len(),
        forall|i: int|
            0 <= i < old(items)@.len() ==> same_request(
                old(items)@[i],
                #[trigger] final(items)@[i],
            ),
        r.rc == -1 ==> final(items)@ == old(items)@,
        r.rc != -1 ==> forall|i: int|
            0 <= i < old(items)@.len() ==> (#[trigger] final(items)@[i]).revents == r.revents@[i],
{
    if r.rc == -1 {
        return Err(errno_to_error(r.errno));
    }
    let n: usize = items.len();
    let mut out: Vec<PollItem> = Vec::new();
    let mut i: usize = 0;
    while i < n
        invariant
            n == items@.len(),
            n == r.revents@.len(),
            i <= n,
            out@.len() == i as int,
            forall|j: int| 0 <= j < i ==> same_request(items@[j], #[trigger] out@[j]),
            forall|j: int| 0 <= j < i ==> (#[trigger] out@[j]).revents == r.revents@[j],
        decreases n - i,
    {
        let mut it = items[i];
        it.revents = r.revents[i];
        out.push(it);
        i = i + 1;
    }
    *items = out;
    Ok(())
}

} // verus!
