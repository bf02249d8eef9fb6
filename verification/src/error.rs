//! Domain failures of the reconciliation protocol and of the driving layer.
//!
//! Transport failures (I/O, malformed documents, remote protocol errors) are
//! not represented here: they arise only in the unverified shell around the
//! library, which carries its own error type and folds these domain variants
//! into it.

use vstd::prelude::*;

verus! {

/// A typed domain failure.
#[derive(Debug, Clone, PartialEq)]
pub enum Error {
    /// A server with this identifier already exists.
    ServerExists,
    /// The server is no longer registered to this account.
    MyPlexServerNotFound,
    /// The server is no longer authenticated correctly.
    ServerNotAuthenticated,
    /// The item with this identifier was not found on the server.
    ItemNotFound(u32),
    /// The item with this identifier is of a type this library does not
    /// support.
    ItemNotSupported(u32),
    /// The remote metadata for this item lacks the named required field.
    ItemIncomplete(u32, String),
    /// The item appears to be missing on the server.
    MissingItem,
    /// A download was requested before the item was available.
    DownloadUnavailable,
    /// The server-side transcode failed.
    TranscodeFailed,
    /// No server with this identifier is configured.
    UnknownServer(String),
    /// Any other failure, described in prose.
    Unknown(String),
}

} // verus!
