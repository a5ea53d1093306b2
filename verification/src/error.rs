//! The error taxonomy: every failure the transport, the driver, or the
//! search loop can produce, as one typed value.
//!
//! Every error is returned to the caller; nothing is swallowed or retried
//! below the search loop, and the search loop retries only empty results,
//! never errors.

use vstd::prelude::*;

use crate::search::SearchKind;
use crate::wire::OutputMessage;

verus! {

/// What went wrong.
#[derive(Debug)]
pub enum Error {
    /// The socket or handshake failed, the stream ended, or the URL named
    /// no usable endpoint.  The message is the socket layer's own words.
    Transport { msg: String },
    /// A frame arrived outside the protocol: not text, binary or close, or
    /// a payload that is not the expected JSON schema.
    Protocol { msg: String },
    /// A well-formed `Error` response: the driver's own diagnostic, opaque
    /// to the client.
    Driver { msg: String },
    /// The driver closed the socket, naming a code and a reason.
    ConnectionClosed { code: u16, reason: String },
    /// The driver closed the socket without a reason.
    ConnectionClosedWithoutReason,
    /// A structurally valid response of the wrong shape for the request
    /// that was sent.
    UnexpectedResponse { response: OutputMessage },
    /// The search loop's deadline passed with no match.  Raised only
    /// client-side, never by the transport.
    SearchTimeout { kind: SearchKind },
}

} // verus!
