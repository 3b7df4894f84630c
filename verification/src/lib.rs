//! A typed, verified client-side layer over a message-oriented transport
//! socket engine: contexts, sockets of fixed communication patterns,
//! discrete message frames, typed socket options, error translation and
//! batched readiness polling.
//!
//! The engine itself is a black box behind a small unverified shim. Every
//! native call's outcome reaches this layer as plain values (a return code,
//! a failure code, a reported width, copied bytes), and everything this
//! layer does with them — error translation, option width handling, the
//! copy boundary around frames, idempotent teardown, readiness bookkeeping —
//! is verified.

pub mod context;
pub mod errors;
pub mod message;
pub mod options;
pub mod poll;
pub mod reply;
pub mod socket;
pub mod socket_type;

pub use context::Context;
pub use context::init;
pub use context::version;
pub use errors::Error;
pub use message::Message;
pub use poll::PollItem;
pub use poll::POLLERR;
pub use poll::POLLIN;
pub use poll::POLLOUT;
pub use poll::poll;
pub use socket::DONTWAIT;
pub use socket::SNDMORE;
pub use socket::Socket;
pub use errors::errno_to_error;
pub use options::OptionWidth;
pub use options::SocketOption;
pub use options::getsockopt_bytes;
pub use options::getsockopt_i64;
pub use options::getsockopt_int;
pub use options::getsockopt_u32;
pub use options::getsockopt_u64;
pub use options::option_id;
pub use options::option_readable;
pub use options::option_width;
pub use options::option_writable;
pub use options::setsockopt_bytes;
pub use options::setsockopt_i64;
pub use options::setsockopt_int;
pub use options::setsockopt_str;
pub use options::setsockopt_u64;
pub use socket_type::SocketType;
pub use reply::GetBytesReply;
pub use reply::GetReply;
pub use reply::HandleReply;
pub use reply::PollReply;
pub use reply::RecvReply;
pub use reply::Reply;
pub use reply::SetReply;
