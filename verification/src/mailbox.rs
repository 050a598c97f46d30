//! The abstract mailbox capability and an in-memory mailbox.
//!
//! The watermark tracker is written against this small capability rather
//! than a concrete transport: report the folder's total message count, fetch
//! the newest message, pause. A production implementation speaks the mail
//! protocol over the network; the in-memory [`InMemoryMailbox`] here lets
//! the polling and watermark logic run without any network, with mail
//! arrival scripted to happen during pauses.
//!
//! The model of a mailbox is what it last reported: `count` and `newest`
//! are only pinned down at the moment a command returns, and a pause may
//! change both (mail arrives whenever it likes). The two ghost counters
//! `queries` and `fetches` record how many commands were issued, which is
//! what bounds the work a poll may do.

use vstd::prelude::*;

use crate::bytes::copy_bytes;
use crate::errors::MailboxError;

verus! {

/// One monitored mailbox folder, as the tracker sees it.
pub trait Mailbox {
    /// Total message count, as of the last report.
    open spec fn count(&self) -> u32 {
        arbitrary()
    }

    /// Body of the newest message, as of the last report.
    open spec fn newest(&self) -> Seq<u8> {
        arbitrary()
    }

    /// How many count queries were issued so far.
    open spec fn queries(&self) -> nat {
        arbitrary()
    }

    /// How many message fetches were issued so far.
    open spec fn fetches(&self) -> nat {
        arbitrary()
    }

    /// How many pauses were taken so far.
    open spec fn pauses(&self) -> nat {
        arbitrary()
    }

    /// Asks the folder for its current total message count. Mail arrives
    /// at any time, so beyond the reported count nothing is promised about
    /// the new state.
    fn message_count(&mut self) -> (r: Result<u32, MailboxError>)
        ensures
            final(self).queries() == old(self).queries() + 1,
            final(self).fetches() == old(self).fetches(),
            final(self).pauses() == old(self).pauses(),
            r matches Ok(n) ==> n == final(self).count(),
    ;

    /// Fetches the text of the newest message. The folder itself is not
    /// disturbed: count and newest stay what was last reported.
    fn fetch_newest(&mut self) -> (r: Result<Vec<u8>, MailboxError>)
        ensures
            final(self).queries() == old(self).queries(),
            final(self).fetches() == old(self).fetches() + 1,
            final(self).pauses() == old(self).pauses(),
            final(self).count() == old(self).count(),
            final(self).newest() == old(self).newest(),
            r matches Ok(b) ==> b@ == old(self).newest(),
    ;

    /// Pauses between two polls. The mailbox may change meanwhile.
    fn pause_between_polls(&mut self)
        ensures
            final(self).queries() == old(self).queries(),
            final(self).fetches() == old(self).fetches(),
            final(self).pauses() == old(self).pauses() + 1,
    ;
}

/// A mailbox held in memory, for running the polling logic without a
/// network. Mail arrival is scripted: each entry of `incoming` arrives
/// during one pause, in order. The failure flags make the next commands
/// fail, to exercise the error paths.
pub struct InMemoryMailbox {
    /// Current total message count of the folder.
    pub total: u32,
    /// Body of the newest message.
    pub newest_body: Vec<u8>,
    /// Scripted future arrivals, one per pause.
    pub incoming: Vec<Vec<u8>>,
    /// How many scripted arrivals have happened.
    pub delivered: usize,
    /// When set, count queries fail.
    pub fail_queries: bool,
    /// When set, fetches fail.
    pub fail_fetches: bool,
    /// The error a failing command reports.
    pub failure_kind: MailboxError,
    /// Count queries issued.
    pub queries_issued: Ghost<nat>,
    /// Fetches issued.
    pub fetches_issued: Ghost<nat>,
    /// Pauses taken.
    pub pauses_taken: Ghost<nat>,
}

impl InMemoryMailbox {
    /// A mailbox holding `total` messages whose newest has body `newest_body`,
    /// with the given scripted arrivals still to come.
    pub fn new(total: u32, newest_body: Vec<u8>, incoming: Vec<Vec<u8>>) -> (r: Self)
        ensures
            r.total == total,
            r.newest_body@ == newest_body@,
            r.incoming@ == incoming@,
            r.delivered == 0,
            !r.fail_queries,
            !r.fail_fetches,
            r.failure_kind == MailboxError::Protocol,
            r.count() == total,
            r.newest() == newest_body@,
    {
        InMemoryMailbox {
            total,
            newest_body,
            incoming,
            delivered: 0,
            fail_queries: false,
            fail_fetches: false,
            failure_kind: MailboxError::Protocol,
            queries_issued: Ghost(0),
            fetches_issued: Ghost(0),
            pauses_taken: Ghost(0),
        }
    }

    /// How many scripted arrivals have not happened yet.
    pub fn pending(&self) -> (r: usize)
        ensures
            r == if self.delivered <= self.incoming@.len() {
                self.incoming@.len() - self.delivered
            } else {
                0
            },
    {
        if self.delivered <= self.incoming.len() {
            self.incoming.len() - self.delivered
        } else {
            0
        }
    }
}

impl Mailbox for InMemoryMailbox {
    open spec fn count(&self) -> u32 {
        self.total
    }

    open spec fn newest(&self) -> Seq<u8> {
        self.newest_body@
    }

    open spec fn queries(&self) -> nat {
        self.queries_issued@
    }

    open spec fn fetches(&self) -> nat {
        self.fetches_issued@
    }

    open spec fn pauses(&self) -> nat {
        self.pauses_taken@
    }

    fn message_count(&mut self) -> (r: Result<u32, MailboxError>) {
        self.queries_issued = Ghost(self.queries_issued@ + 1);
        if self.fail_queries {
            Err(self.failure_kind)
        } else {
            Ok(self.total)
        }
    }

    fn fetch_newest(&mut self) -> (r: Result<Vec<u8>, MailboxError>) {
        self.fetches_issued = Ghost(self.fetches_issued@ + 1);
        if self.fail_fetches {
            Err(self.failure_kind)
        } else {
            Ok(copy_bytes(&self.newest_body))
        }
    }

    fn pause_between_polls(&mut self) {
        self.pauses_taken = Ghost(self.pauses_taken@ + 1);
        if self.delivered < self.incoming.len() {
            let body = copy_bytes(&self.incoming[self.delivered]);
            self.newest_body = body;
            if self.total < u32::MAX {
                self.total = self.total + 1;
            }
            self.delivered = self.delivered + 1;
        }
    }
}

} // verus!
