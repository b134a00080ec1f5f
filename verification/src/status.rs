//! Outcomes reported to the editor.

use vstd::prelude::*;

verus! {

/// The outcome of a request, as reported to the editor.
#[derive(Clone, Copy, Debug, PartialEq, Eq, Structural)]
pub enum Status {
    /// The request succeeded.
    Success,
    /// No connection is up, or one is already being set up.
    Uninitialized,
    /// The client is neither a known editor nor a numeric application id.
    InvalidClientId,
    /// The workspace is on the blacklist.
    WorkspaceBlacklisted,
    /// The handshake with Discord failed.
    HandshakeFailed,
    /// Reading Discord's reply to the handshake failed.
    ReadFailed,
    /// Writing to the connection failed.
    WriteFailed,
}

/// The status reported for the last error: none recorded means success.
pub fn last_error_or_success(last: Option<Status>) -> (s: Status)
    ensures
        s == (match last {
            Some(e) => e,
            None => Status::Success,
        }),
{
    match last {
        Some(e) => e,
        None => Status::Success,
    }
}

} // verus!
