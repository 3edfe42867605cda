//! Per-connection engine of a minimal HTTP server: it turns a raw,
//! non-blocking byte stream into parsed request heads and drives a
//! connection through a read / decode / dispatch / (repeat or close)
//! lifecycle.
//!
//! The caller owns the stream and the dispatcher; this crate owns the
//! buffering discipline, the incremental decoding of request heads, the
//! validation of a head into a [`request::Req`], and the phase machine
//! that decides whether the connection reads on, dispatches, or closes.

pub mod codec;
pub mod connection;
pub mod error;
pub mod head;
pub mod request;

pub use connection::Connection;
pub use connection::ConnectionOptions;
pub use connection::Phase;
pub use connection::Progress;
pub use connection::ReadBuf;
pub use error::BadRequestKind;
pub use error::Error;
pub use head::Head;
pub use request::Req;
