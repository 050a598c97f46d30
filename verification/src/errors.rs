//! Error taxonomy of the batch tool.
//!
//! Every error here is fatal at the point it is raised: the mailbox tracker
//! does not retry a failed command, a cycle does not recover from a missing
//! page element, and the batch stops at the first failed cycle. The only
//! benign negative outcome in the crate is "no new message yet", which is a
//! normal polling result and not an error.

use vstd::prelude::*;

verus! {

/// Failure while talking to the remote mailbox: the connection, the
/// authentication exchange, or the protocol itself broke. Not retried by the
/// tracker; the caller decides whether to retry.
#[derive(Clone, Copy, PartialEq, Eq, Structural, Debug)]
pub enum MailboxError {
    Connection,
    Auth,
    Protocol,
}

/// Malformed configuration, rejected before any cycle starts.
#[derive(Clone, Copy, PartialEq, Eq, Structural, Debug)]
pub enum ConfigError {
    /// The batch range ends before it starts.
    InvalidRange,
}

/// Fatal failure of one registration cycle, propagated unchanged to the
/// batch driver, which then stops the whole batch.
#[derive(Clone, Copy, PartialEq, Eq, Structural, Debug)]
pub enum CycleError {
    /// The mailbox became unusable while waiting for the code.
    Mailbox(MailboxError),
    /// The poll budget ran out with no verification code obtained.
    VerificationTimeout,
    /// An expected page element or state was missing: the page layout or
    /// flow assumption no longer holds.
    UiStructure,
}

} // verus!
