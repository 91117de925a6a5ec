//! The error taxonomy of the clipboard core.
//!
//! Every failure of the core surfaces as one of these typed values; none is
//! swallowed or retried internally.  Turning an error into a terminal
//! message and an exit code is the caller's business.

use vstd::prelude::*;

verus! {

/// A failure of the clipboard-retrieval core.
#[derive(Debug, PartialEq, Eq)]
pub enum ClipboardError {
    /// The display-server transport could not be established (for example,
    /// the session's display environment descriptor is absent).
    Connection,
    /// The server never advertised a protocol interface that clipboard
    /// access requires, at an acceptable version; `name` is the interface.
    MissingCapability { name: String },
    /// An I/O failure occurred during a blocking synchronization with the
    /// server.
    Roundtrip,
    /// The content type asked for was never advertised by any offer.
    NoSuchOffer,
    /// No offer advertises plain UTF-8 text, the only supported content
    /// type for clipboard reading.
    NoSuitableContent,
    /// Reading from the transfer pipe failed.
    TransferIo,
    /// The transferred bytes are not valid UTF-8; the partial bytes are
    /// discarded, never returned.
    Encoding,
}

} // verus!
