use vstd::prelude::*;

verus! {

/// The communication pattern a socket is created with, fixed for the
/// socket's whole lifetime.
#[derive(Clone, Copy, Debug, PartialEq, Eq, Structural)]
pub enum SocketType {
    Pair,
    Pub,
    Sub,
    Req,
    Rep,
    Dealer,
    Router,
    Pull,
    Push,
    Xpub,
    Xsub,
}

/// The transport's numeric code for each pattern.
pub open spec fn type_code(t: SocketType) -> i32 {
    match t {
        SocketType::Pair => 0,
        SocketType::Pub => 1,
        SocketType::Sub => 2,
        SocketType::Req => 3,
        SocketType::Rep => 4,
        SocketType::Dealer => 5,
        SocketType::Router => 6,
        SocketType::Pull => 7,
        SocketType::Push => 8,
        SocketType::Xpub => 9,
        SocketType::Xsub => 10,
    }
}

/// The pattern a numeric code decodes to, if it is in the known range.
pub open spec fn type_of_code(code: i32) -> Option<SocketType> {
    if code == 0 {
        Some(SocketType::Pair)
    } else if code == 1 {
        Some(SocketType::Pub)
    } else if code == 2 {
        Some(SocketType::Sub)
    } else if code == 3 {
        Some(SocketType::Req)
    } else if code == 4 {
        Some(SocketType::Rep)
    } else if code == 5 {
        Some(SocketType::Dealer)
    } else if code == 6 {
        Some(SocketType::Router)
    } else if code == 7 {
        Some(SocketType::Pull)
    } else if code == 8 {
        Some(SocketType::Push)
    } else if code == 9 {
        Some(SocketType::Xpub)
    } else if code == 10 {
        Some(SocketType::Xsub)
    } else {
        None
    }
}

impl SocketType {
    /// Encodes the pattern as the numeric code the transport expects.
    pub fn to_raw(self) -> (code: i32)
        ensures
            code == type_code(self),
    {
        match self {
            SocketType::Pair => 0,
            SocketType::Pub => 1,
            SocketType::Sub => 2,
            SocketType::Req => 3,
            SocketType::Rep => 4,
            SocketType::Dealer => 5,
            SocketType::Router => 6,
            SocketType::Pull => 7,
            SocketType::Push => 8,
            SocketType::Xpub => 9,
            SocketType::Xsub => 10,
        }
    }

    /// Decodes a numeric code reported by the transport; a code outside the
    /// known range 0 through 10 decodes to nothing.
    pub fn from_raw(code: i32) -> (t: Option<SocketType>)
        ensures
            t == type_of_code(code),
    {
        if code == 0 {
            Some(SocketType::Pair)
        } else if code == 1 {
            Some(SocketType::Pub)
        } else if code == 2 {
            Some(SocketType::Sub)
        } else if code == 3 {
            Some(SocketType::Req)
        } else if code == 4 {
            Some(SocketType::Rep)
        } else if code == 5 {
            Some(SocketType::Dealer)
        } else if code == 6 {
            Some(SocketType::Router)
        } else if code == 7 {
            Some(SocketType::Pull)
        } else if code == 8 {
            Some(SocketType::Push)
        } else if code == 9 {
            Some(SocketType::Xpub)
        } else if code == 10 {
            Some(SocketType::Xsub)
        } else {
            None
        }
    }
}

/// Law: decoding inverts encoding — every pattern's code is in the known
/// range and decodes back to the same pattern.
pub proof fn lemma_type_code_round_trip(t: SocketType)
    ensures
        0 <= type_code(t) <= 10,
        type_of_code(type_code(t)) == Some(t),
{
}

} // verus!
