//! The failure side of the fetch pipeline: every stage reports one of a
//! fixed set of error kinds, together with a human-readable message.

use vstd::prelude::*;

verus! {

/// Which stage of the pipeline rejected the request or the response.
#[derive(Clone, Copy, Debug, PartialEq, Eq, Structural)]
pub enum ErrorKind {
    /// The URI does not parse as an absolute URI (illegal characters,
    /// opaque forms without an authority, or an empty authority).
    MalformedUri,
    /// The URI parses but carries no scheme component.
    EmptyScheme,
    /// A request header name is not an HTTP token.
    InvalidHeaderName,
    /// A request header value holds a character outside the HTTP
    /// header-value grammar.
    InvalidHeaderValue,
    /// The outbound call failed (DNS, connection, TLS, timeout, protocol).
    TransportError,
    /// A response header value is not representable as text.
    HeaderEncodingError,
    /// The response body stream failed while being drained.
    BodyReadError,
}

/// Custom error type for what went wrong: a kind naming the failing stage
/// and a message describing the underlying cause.
#[derive(Debug)]
pub struct Error {
    pub kind: ErrorKind,
    pub message: String,
}

impl Error {
    /// Builds an error of the given kind.
    pub fn new(kind: ErrorKind, message: String) -> (r: Error)
        ensures
            r.kind == kind,
            r.message == message,
    {
        Error { kind, message }
    }

    /// The stage that failed.
    pub fn kind(&self) -> (k: ErrorKind)
        ensures
            k == self.kind,
    {
        self.kind
    }
}

} // verus!
