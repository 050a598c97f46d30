//! Batch configuration and the fail-fast batch orchestrator.
//!
//! A batch is an immutable range of indices. Each index gets the alias of
//! [`crate::alias::derive_alias`] and one registration cycle. The
//! orchestrator hands the aliases out strictly in order and stops for good
//! at the first failed cycle: an unrecoverable page or timeout error most
//! likely indicates a systemic problem that would recur for every later
//! alias, so going on would waste time and risk further half-registered
//! accounts.

use vstd::prelude::*;

use crate::alias::alias_spec;
use crate::alias::derive_alias;
use crate::errors::ConfigError;
use crate::errors::CycleError;

verus! {

/// The immutable configuration of one batch.
pub struct BatchConfig {
    /// Mailbox user name; the part of every alias before the `+`.
    pub user: Vec<u8>,
    /// Fixed alias infix between the `+` and the padded index.
    pub postfix: Vec<u8>,
    /// The one password shared by all registrations of the batch.
    pub password: Vec<u8>,
    /// First index of the range.
    pub start: u32,
    /// Past-the-last index of the range; a range with `end == start` runs
    /// zero cycles.
    pub end: u32,
}

impl BatchConfig {
    /// How many cycles the batch runs.
    pub open spec fn cycle_count(&self) -> int {
        if self.start <= self.end {
            self.end - self.start
        } else {
            0
        }
    }

    /// The alias of the `k`-th cycle.
    pub open spec fn alias_at(&self, k: int) -> Seq<u8> {
        alias_spec(self.user@, self.postfix@, (self.start + k) as u32)
    }

    /// All aliases of the batch, in the order they run.
    pub open spec fn planned_aliases(&self) -> Seq<Seq<u8>> {
        Seq::new(self.cycle_count() as nat, |k: int| self.alias_at(k))
    }

    /// Rejects a malformed range before any cycle starts.
    pub fn validate(&self) -> (r: Result<(), ConfigError>)
        ensures
            r is Ok <==> self.start <= self.end,
            r is Err ==> r == Err::<(), ConfigError>(ConfigError::InvalidRange),
    {
        if self.start <= self.end {
            Ok(())
        } else {
            Err(ConfigError::InvalidRange)
        }
    }
}

/// Law: a batch over `[start, end)` plans exactly `end - start` cycles
/// (none when the range is empty or inverted), the `k`-th under the alias
/// derived for index `start + k`.
pub proof fn lemma_planned_aliases(config: BatchConfig)
    ensures
        config.planned_aliases().len() == config.cycle_count(),
        forall|k: int| 0 <= k < config.cycle_count() ==> config.planned_aliases()[k]
            == alias_spec(config.user@, config.postfix@, (config.start + k) as u32),
{
}

/// The progress of one running batch. `issued` is the trace of aliases
/// handed out so far; well-formedness ties it to the plan, so the aliases
/// always come out in order, each exactly once.
pub struct BatchRun {
    /// The batch being run.
    pub config: BatchConfig,
    /// Index of the next cycle to run.
    pub next: u32,
    /// The first cycle failure, once one happened.
    pub failure: Option<CycleError>,
    /// The aliases handed out so far, oldest first.
    pub issued: Ghost<Seq<Seq<u8>>>,
}

impl BatchRun {
    /// The state is consistent with its plan: the next index lies in the
    /// range, and the handed-out aliases are exactly the first part of the
    /// plan.
    pub open spec fn wf(&self) -> bool {
        &&& self.config.start <= self.next
        &&& (self.config.start <= self.config.end ==> self.next <= self.config.end)
        &&& (self.config.start > self.config.end ==> self.next == self.config.start)
        &&& self.issued@ == self.config.planned_aliases().take(self.next - self.config.start)
    }

    /// A batch that has not run any cycle yet.
    pub fn new(config: BatchConfig) -> (r: Self)
        ensures
            r.wf(),
            r.config == config,
            r.next == config.start,
            r.failure is None,
            r.issued@ == Seq::<Seq<u8>>::empty(),
    {
        let start = config.start;
        let r = BatchRun { config, next: start, failure: None, issued: Ghost(Seq::empty()) };
        proof {
            assert(r.issued@ =~= r.config.planned_aliases().take(0));
        }
        r
    }

    /// Hands out the alias of the next cycle, or nothing when the batch is
    /// over — every index done, or a cycle has failed. After a failure no
    /// later index is ever attempted.
    pub fn next_cycle(&mut self) -> (r: Option<Vec<u8>>)
        requires
            old(self).wf(),
        ensures
            final(self).wf(),
            final(self).config == old(self).config,
            final(self).failure == old(self).failure,
            old(self).failure is Some ==> r is None && *final(self) == *old(self),
            old(self).failure is None && old(self).next >= old(self).config.end ==> r is None
                && *final(self) == *old(self),
            (old(self).failure is None && old(self).next < old(self).config.end) ==> {
                &&& (r matches Some(a) && a@ == old(self).config.alias_at(
                    old(self).next - old(self).config.start,
                ))
                &&& final(self).next == old(self).next + 1
                &&& final(self).issued@ == old(self).issued@.push(
                    old(self).config.alias_at(old(self).next - old(self).config.start),
                )
            },
            (r is None && old(self).failure is None) ==> final(self).issued@
                == old(self).config.planned_aliases(),
    {
        if self.failure.is_some() {
            return None;
        }
        if self.next >= self.config.end {
            proof {
                assert(self.issued@ =~= self.config.planned_aliases());
            }
            return None;
        }
        let alias = derive_alias(&self.config.user, &self.config.postfix, self.next);
        proof {
            assert(alias@ == self.config.alias_at(self.next - self.config.start));
        }
        let ghost a = alias@;
        self.issued = Ghost(self.issued@.push(a));
        self.next = self.next + 1;
        proof {
            assert(self.issued@ =~= self.config.planned_aliases().take(
                self.next - self.config.start,
            ));
        }
        Some(alias)
    }

    /// Records the outcome of the cycle just run; the first failure
    /// sticks, and from then on `next_cycle` hands out nothing.
    pub fn record_outcome(&mut self, outcome: Result<(), CycleError>)
        requires
            old(self).wf(),
        ensures
            final(self).wf(),
            final(self).config == old(self).config,
            final(self).next == old(self).next,
            final(self).issued == old(self).issued,
            old(self).failure is Some ==> final(self).failure == old(self).failure,
            old(self).failure is None ==> (outcome matches Err(e) ==> final(self).failure
                == Some(e)),
            (old(self).failure is None && outcome is Ok) ==> final(self).failure is None,
    {
        if self.failure.is_none() {
            if let Err(e) = outcome {
                self.failure = Some(e);
            }
        }
    }
}

} // verus!
