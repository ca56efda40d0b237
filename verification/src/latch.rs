//! The one-shot latch behind the log-once bail variants.
//!
//! A call site that logs at most once holds one latch for the life of the
//! process. The latch starts untripped; the first failure trips it and wins
//! the right to log; every later failure finds it tripped and stays silent.
//! There is no transition back: once tripped, a latch is tripped forever.

use vstd::prelude::*;

verus! {

/// A one-shot latch: a single irreversible transition from "not yet logged"
/// to "already logged".
pub struct OnceLatch {
    logged: bool,
}

impl OnceLatch {
    /// Whether this latch has already been tripped by an observed failure.
    pub closed spec fn has_logged(self) -> bool {
        self.logged
    }

    /// A fresh latch for one call site: nothing has been logged yet.
    pub fn new() -> (r: OnceLatch)
        ensures
            !r.has_logged(),
    {
        OnceLatch { logged: false }
    }

    /// Test-and-set: trip the latch and report whether this call was the one
    /// that tripped it first. The caller logs exactly when the answer is
    /// `true`; each call is one [`once_step`] of the call site's chain.
    pub fn trip(&mut self) -> (won: bool)
        ensures
            won == !old(self).has_logged(),
            final(self).has_logged(),
            once_step(*old(self), *final(self), won),
    {
        let won = !self.logged;
        self.logged = true;
        won
    }
}

/// One observed failure at a log-once call site: the latch steps from `pre`
/// to `post`, and `logged` says whether this observation emitted the log.
pub open spec fn once_step(pre: OnceLatch, post: OnceLatch, logged: bool) -> bool {
    &&& logged == !pre.has_logged()
    &&& post.has_logged()
}

/// How many entries of a sequence of log decisions came out `true`.
pub open spec fn count_logs(logs: Seq<bool>) -> int
    decreases logs.len(),
{
    if logs.len() == 0 {
        0
    } else {
        (if logs[0] {
            1int
        } else {
            0int
        }) + count_logs(logs.drop_first())
    }
}

/// A chain of observed failures at one call site: `latches` holds the latch
/// states before and after each observation, and `logs[i]` says whether the
/// observation that stepped `latches[i]` to `latches[i + 1]` logged.
pub open spec fn once_chain(latches: Seq<OnceLatch>, logs: Seq<bool>) -> bool {
    &&& latches.len() == logs.len() + 1
    &&& forall|i: int|
        0 <= i < logs.len() ==> once_step(latches[i], latches[i + 1], logs[i])
}

/// Dropping the first observation of a chain leaves a chain.
proof fn lemma_once_chain_drop_first(latches: Seq<OnceLatch>, logs: Seq<bool>)
    requires
        once_chain(latches, logs),
        logs.len() > 0,
    ensures
        once_chain(latches.drop_first(), logs.drop_first()),
{
    assert forall|i: int| 0 <= i < logs.drop_first().len() implies once_step(
        latches.drop_first()[i],
        latches.drop_first()[i + 1],
        logs.drop_first()[i],
    ) by {
        assert(once_step(latches[i + 1], latches[i + 2], logs[i + 1]));
    }
}

/// Law: once a latch has been tripped, no later observation in a chain logs.
pub proof fn lemma_tripped_latch_stays_silent(latches: Seq<OnceLatch>, logs: Seq<bool>)
    requires
        once_chain(latches, logs),
        latches.len() > 0,
        latches[0].has_logged(),
    ensures
        count_logs(logs) == 0,
    decreases logs.len(),
{
    if logs.len() > 0 {
        assert(once_step(latches[0], latches[1], logs[0]));
        lemma_once_chain_drop_first(latches, logs);
        lemma_tripped_latch_stays_silent(latches.drop_first(), logs.drop_first());
    }
}

/// Law: across any chain of failures observed at one log-once call site, at
/// most one observation logs, and afterwards the latch stands tripped.
pub proof fn lemma_once_chain_logs_at_most_once(latches: Seq<OnceLatch>, logs: Seq<bool>)
    requires
        once_chain(latches, logs),
        logs.len() > 0,
    ensures
        count_logs(logs) <= 1,
        latches.last().has_logged(),
{
    assert(once_step(latches[0], latches[1], logs[0]));
    lemma_once_chain_drop_first(latches, logs);
    lemma_tripped_latch_stays_silent(latches.drop_first(), logs.drop_first());
    assert(once_step(latches[logs.len() - 1], latches[logs.len() as int], logs[logs.len() - 1]));
    assert(latches.last() == latches[logs.len() as int]);
}

} // verus!
