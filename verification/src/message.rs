use vstd::prelude::*;

verus! {

/// One frame of data: an owned byte buffer. Frames never alias caller
/// memory or the transport's internal buffers — ownership crosses every
/// boundary by copy, on the way in and on the way out.
#[derive(Debug)]
pub struct Message {
    data: Vec<u8>,
}

impl View for Message {
    type V = Seq<u8>;

    closed spec fn view(&self) -> Seq<u8> {
        self.data@
    }
}

impl Message {
    /// Builds a frame by copying the caller's bytes into freshly owned
    /// storage sized to them — the send-path copy boundary.
    pub fn from_bytes(data: &[u8]) -> (m: Message)
        ensures
            m@ == data@,
    {
        let mut buf: Vec<u8> = Vec::new();
        let mut i: usize = 0;
        while i < data.len()
            invariant
                i <= data@.len(),
                buf@ == data@.take(i as int),
            decreases data@.len() - i,
        {
            buf.push(data[i]);
            i = i + 1;
            proof {
                assert(buf@ =~= data@.take(i as int));
            }
        }
        proof {
            assert(buf@ =~= data@);
        }
        Message { data: buf }
    }

    /// An empty frame, as the receive path starts from.
    pub fn new() -> (m: Message)
        ensures
            m@ == Seq::<u8>::empty(),
    {
        Message { data: Vec::new() }
    }

    /// The frame length in bytes.
    pub fn len(&self) -> (n: usize)
        ensures
            n == self@.len(),
    {
        self.data.len()
    }

    /// Borrows the frame contents, for the shim to hand to the transport.
    pub fn bytes(&self) -> (b: &[u8])
        ensures
            b@ == self@,
    {
        self.data.as_slice()
    }

    /// Copies the frame contents out, consuming the frame.
    pub fn into_bytes(self) -> (v: Vec<u8>)
        ensures
            v@ == self@,
    {
        self.data
    }
}

} // verus!
