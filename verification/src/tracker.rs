//! The mailbox watermark tracker and the bounded code wait.
//!
//! The tracker keeps a watermark, `known_message_count`: the folder's total
//! message count as of the last accounting. A poll asks for the current
//! count; when it is not above the watermark the poll reports "no new
//! message" without fetching anything, so one poll costs at most one fetch
//! regardless of mailbox size. When the count is above the watermark, the
//! single newest message is fetched and searched for a code, and the
//! watermark advances to the observed count whether or not a code was
//! found: only the most recent message is ever inspected, and everything
//! up to it counts as consumed. (A verification mail that is overtaken by
//! other incoming mail before the next poll is therefore skipped for good;
//! that is this tracker's deliberate policy, kept as a known limitation.)
//!
//! `wait_for_code` runs the bounded poll loop of one registration cycle:
//! up to `attempts` polls with a pause after each unsuccessful one, ending
//! early at the first code.

use vstd::prelude::*;

use crate::codes::has_code;
use crate::codes::is_code;
use crate::codes::spec_extract;
use crate::codes::extract_code;
use crate::codes::view_code;
use crate::errors::CycleError;
use crate::errors::MailboxError;
use crate::mailbox::Mailbox;

verus! {

/// How many polls one cycle may spend waiting for its code.
pub const POLL_ATTEMPTS: u32 = 10;

/// Seconds between two polls, for callers that pause in real time.
pub const POLL_DELAY_SECS: u64 = 10;

/// What the watermark becomes when a refresh observes `observed`.
pub open spec fn refresh_next_known(known: u32, observed: u32) -> u32 {
    observed
}

/// Whether a poll that observes `observed` fetches and advances.
pub open spec fn poll_advances(known: u32, observed: u32) -> bool {
    observed > known
}

/// What the watermark becomes when a poll observes `observed`.
pub open spec fn poll_next_known(known: u32, observed: u32) -> u32 {
    if observed > known {
        observed
    } else {
        known
    }
}

/// What a poll reports when it observes `observed` and the newest message
/// body is `newest`: no new message below or at the watermark, otherwise
/// whatever the extractor finds in the newest body.
pub open spec fn poll_outcome(known: u32, observed: u32, newest: Seq<u8>) -> Option<Seq<u8>> {
    if observed > known {
        spec_extract(newest)
    } else {
        None
    }
}

/// Law: a poll that observes no count above the watermark reports no new
/// message, does not advance the watermark, and does not fetch (the
/// fetch-free part is a clause of `poll_for_code`'s contract).
pub proof fn lemma_poll_quiet(known: u32, observed: u32, newest: Seq<u8>)
    requires
        observed <= known,
    ensures
        poll_outcome(known, observed, newest) is None,
        poll_next_known(known, observed) == known,
        !poll_advances(known, observed),
{
}

/// Law: a poll that observes a count above the watermark advances the
/// watermark to exactly that count, whether or not a code was found; an
/// immediate second poll of an unchanged mailbox reports no new message
/// and moves nothing.
pub proof fn lemma_poll_advance_idempotent(known: u32, observed: u32, newest: Seq<u8>)
    requires
        observed > known,
    ensures
        poll_next_known(known, observed) == observed,
        poll_outcome(poll_next_known(known, observed), observed, newest) is None,
        poll_next_known(poll_next_known(known, observed), observed) == observed,
{
}

/// Law: a refresh followed immediately by a poll with no new mail (the
/// poll observes the very count the refresh stored) reports no new
/// message.
pub proof fn lemma_refresh_then_quiet(known: u32, observed: u32, newest: Seq<u8>)
    ensures
        poll_outcome(refresh_next_known(known, observed), observed, newest) is None,
{
}

/// Watches one mailbox folder through a watermark. One tracker spans a
/// whole batch: the watermark accumulates across cycles and is never reset
/// except by an explicit refresh.
pub struct WatermarkTracker {
    /// The folder's total message count as of the last accounting.
    pub known_message_count: u32,
}

impl WatermarkTracker {
    /// A tracker that has not seen the folder yet.
    pub fn new() -> (r: Self)
        ensures
            r.known_message_count == 0,
    {
        WatermarkTracker { known_message_count: 0 }
    }

    /// Queries the folder's current total message count and stores it as
    /// the watermark. Called once before each registration submission, so
    /// that the triggering action is guaranteed to lie after the baseline.
    pub fn refresh_watermark<M: Mailbox>(&mut self, mb: &mut M) -> (r: Result<(), MailboxError>)
        ensures
            final(mb).queries() == old(mb).queries() + 1,
            final(mb).fetches() == old(mb).fetches(),
            final(mb).pauses() == old(mb).pauses(),
            r matches Ok(u) ==> final(self).known_message_count == refresh_next_known(
                old(self).known_message_count,
                final(mb).count(),
            ) && final(self).known_message_count == final(mb).count(),
            r is Err ==> final(self).known_message_count == old(self).known_message_count,
    {
        match mb.message_count() {
            Ok(n) => {
                self.known_message_count = n;
                Ok(())
            },
            Err(e) => Err(e),
        }
    }

    /// One poll. Observes the current count; at or below the watermark it
    /// reports no new message and fetches nothing. Above the watermark it
    /// fetches the single newest message, advances the watermark to the
    /// observed count, and reports whatever the extractor found in that
    /// message. A transport failure leaves the watermark unchanged.
    pub fn poll_for_code<M: Mailbox>(&mut self, mb: &mut M) -> (r: Result<
        Option<Vec<u8>>,
        MailboxError,
    >)
        ensures
            final(mb).queries() == old(mb).queries() + 1,
            old(mb).fetches() <= final(mb).fetches() <= old(mb).fetches() + 1,
            final(mb).pauses() == old(mb).pauses(),
            final(self).known_message_count >= old(self).known_message_count,
            r matches Ok(found) ==> (found matches Some(c) ==> is_code(c@)),
            match r {
                Ok(found) => {
                    &&& final(self).known_message_count == poll_next_known(
                        old(self).known_message_count,
                        final(mb).count(),
                    )
                    &&& view_code(found) == poll_outcome(
                        old(self).known_message_count,
                        final(mb).count(),
                        final(mb).newest(),
                    )
                    &&& (!poll_advances(old(self).known_message_count, final(mb).count())
                        ==> final(mb).fetches() == old(mb).fetches())
                    &&& (poll_advances(old(self).known_message_count, final(mb).count())
                        ==> final(mb).fetches() == old(mb).fetches() + 1)
                },
                Err(_) => final(self).known_message_count == old(self).known_message_count,
            },
    {
        let observed = match mb.message_count() {
            Ok(n) => n,
            Err(e) => {
                return Err(e);
            },
        };
        if observed > self.known_message_count {
            let body = match mb.fetch_newest() {
                Ok(b) => b,
                Err(e) => {
                    return Err(e);
                },
            };
            let found = extract_code(&body);
            self.known_message_count = observed;
            Ok(found)
        } else {
            Ok(None)
        }
    }

    /// The bounded wait of one cycle: up to `attempts` polls, pausing
    /// after each poll that yields nothing, stopping at the first code.
    /// When the budget runs out without a code the cycle has failed with a
    /// verification timeout; a mailbox failure surfaces at once.
    #[verifier::loop_isolation(false)]
    pub fn wait_for_code<M: Mailbox>(&mut self, mb: &mut M, attempts: u32) -> (r: Result<
        Vec<u8>,
        CycleError,
    >)
        requires
            attempts >= 1,
        ensures
            old(mb).queries() + 1 <= final(mb).queries() <= old(mb).queries() + attempts,
            final(self).known_message_count >= old(self).known_message_count,
            r matches Ok(code) ==> {
                &&& is_code(code@)
                &&& has_code(final(mb).newest())
                &&& Some(code@) == spec_extract(final(mb).newest())
                &&& final(self).known_message_count == final(mb).count()
                &&& final(mb).pauses() == old(mb).pauses() + (final(mb).queries()
                    - old(mb).queries()) - 1
            },
            r == Err::<Vec<u8>, CycleError>(CycleError::VerificationTimeout)
                ==> final(mb).queries() == old(mb).queries() + attempts && final(mb).pauses()
                    == old(mb).pauses() + attempts,
            r matches Err(e) ==> (e is VerificationTimeout || e is Mailbox),
            r matches Err(e) ==> (e is Mailbox ==> final(mb).pauses() == old(mb).pauses() + (
            final(mb).queries() - old(mb).queries()) - 1),
    {
        let ghost q0 = mb.queries();
        let ghost p0 = mb.pauses();
        let ghost k0 = self.known_message_count;
        let mut i: u32 = 0;
        while i < attempts
            invariant
                i <= attempts,
                mb.queries() == q0 + i,
                mb.pauses() == p0 + i,
                self.known_message_count >= k0,
            decreases attempts - i,
        {
            let polled = self.poll_for_code(mb);
            match polled {
                Err(e) => {
                    return Err(CycleError::Mailbox(e));
                },
                Ok(Some(code)) => {
                    return Ok(code);
                },
                Ok(None) => {},
            }
            mb.pause_between_polls();
            i = i + 1;
        }
        Err(CycleError::VerificationTimeout)
    }
}

} // verus!
