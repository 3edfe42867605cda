use vstd::prelude::*;

verus! {

/// Why a request was judged malformed.
#[derive(Clone, Copy, Debug, PartialEq, Eq, Structural)]
pub enum BadRequestKind {
    /// The bytes on the wire do not form a request head.
    Grammar,
    /// The request target is not in origin form: it does not start with `/`.
    UnsupportedTarget,
    /// No `Host` header field is present.
    MissingHost,
    /// The `Host` field and the target do not combine into a valid absolute URL.
    InvalidUrl,
}

/// The closed set of connection-level failures.
///
/// A clean end of stream with no partial head pending is not an error:
/// the connection simply closes.
#[derive(Clone, Copy, Debug, PartialEq, Eq, Structural)]
pub enum Error {
    /// The underlying stream failed. Fatal to the connection; no response
    /// is attempted.
    Io,
    /// End of stream arrived while a request head was partially parsed:
    /// the client disconnected mid-message.
    TruncatedRequest,
    /// The peer sent a request this server rejects; the caller may still
    /// emit an error response before closing.
    BadRequest(BadRequestKind),
    /// The dispatcher failed to produce a response; surfaced to the
    /// caller, whose policy decides whether to still respond.
    Dispatch,
}

} // verus!
