//! Background clean-up of expired refresh tokens.
//!
//! Every interval, a cleanup cycle deletes expired tokens in batches until a
//! batch comes back short or a batch fails. The cycle is a machine: the
//! caller deletes a batch, hands back how many rows went, and is told what to
//! do next.

use vstd::prelude::*;

use crate::error::RepositoryError;

verus! {

/// Seconds between two cleanup cycles (6 hours).
pub const TOKEN_CLEANUP_INTERVAL_SECS: u64 = 21600;

/// Most rows that one batch deletes.
pub const TOKEN_CLEANUP_BATCH_SIZE: u64 = 1000;

/// Pause between two batches of one cycle, in milliseconds.
pub const TOKEN_CLEANUP_PAUSE_MILLIS: u64 = 100;

/// The sum of a sequence of batch sizes.
pub open spec fn sum(batches: Seq<u64>) -> nat
    decreases batches.len(),
{
    if batches.len() == 0 {
        0
    } else {
        sum(batches.drop_last()) + batches.last() as nat
    }
}

/// A total, capped at `u64::MAX`.
pub open spec fn capped(total: nat) -> u64 {
    if total <= u64::MAX { total as u64 } else { u64::MAX }
}

/// A cleanup cycle in progress.
pub struct CleanupCycle {
    /// Rows deleted so far in this cycle (it stops growing at `u64::MAX`).
    pub total_deleted: u64,
    /// The sizes of the batches deleted so far.
    pub batches: Ghost<Seq<u64>>,
}

impl CleanupCycle {
    /// The total is the sum of the batches, capped at `u64::MAX`.
    pub open spec fn wf(&self) -> bool {
        self.total_deleted == capped(sum(self.batches@))
    }
}

/// How a cycle ended.
#[derive(Debug, Clone, Copy, PartialEq, Eq, Structural)]
pub enum CleanupReport {
    /// The cycle deleted this many tokens.
    Deleted(u64),
    /// There was nothing to delete.
    NothingExpired,
    /// A batch failed; the cycle stops and the next one tries again.
    Failed,
}

/// What the caller does next.
#[derive(Debug, Clone, Copy, PartialEq, Eq, Structural)]
pub enum CleanupAction {
    /// Delete up to `limit` expired tokens.
    DeleteBatch { limit: u64 },
    /// Wait `millis` milliseconds, then delete up to `limit` expired tokens.
    PauseThenDeleteBatch { millis: u64, limit: u64 },
    /// The cycle is over.
    Finish(CleanupReport),
}

/// The report of a cycle that ended after deleting `total` tokens.
pub open spec fn report_of(total: u64) -> CleanupReport {
    if total > 0 { CleanupReport::Deleted(total) } else { CleanupReport::NothingExpired }
}

/// What the cycle does next once the batches `batches` went and a batch
/// ended with `outcome`: a full batch is followed by another after a pause, a
/// short one ends the cycle with the (capped) total, a failed one ends it as
/// failed.
pub open spec fn batch_action(batches: Seq<u64>, outcome: Result<u64, RepositoryError>) -> CleanupAction {
    match outcome {
        Ok(n) => if n < TOKEN_CLEANUP_BATCH_SIZE {
            CleanupAction::Finish(report_of(capped(sum(batches.push(n)))))
        } else {
            CleanupAction::PauseThenDeleteBatch { millis: TOKEN_CLEANUP_PAUSE_MILLIS, limit: TOKEN_CLEANUP_BATCH_SIZE }
        },
        Err(_) => CleanupAction::Finish(CleanupReport::Failed),
    }
}

/// `k` full batches.
pub open spec fn full_batches(k: nat) -> Seq<u64> {
    Seq::new(k, |i: int| TOKEN_CLEANUP_BATCH_SIZE)
}

proof fn lemma_sum_full_batches(k: nat)
    ensures
        sum(full_batches(k)) == TOKEN_CLEANUP_BATCH_SIZE * k,
    decreases k,
{
    if k > 0 {
        assert(full_batches(k).drop_last() =~= full_batches((k - 1) as nat));
        lemma_sum_full_batches((k - 1) as nat);
    }
}

/// A whole cycle: it starts with a batch of `TOKEN_CLEANUP_BATCH_SIZE`; after
/// every full batch it pauses and deletes another; it ends at the first
/// short batch, reporting the total deleted (capped), or at the first failed
/// one, reporting the failure.
pub proof fn cleanup_cycle_runs_until_a_short_batch(k: nat, last: Result<u64, RepositoryError>)
    ensures
        forall|i: nat| i < k ==> #[trigger] batch_action(full_batches(i), Ok(TOKEN_CLEANUP_BATCH_SIZE))
            == (CleanupAction::PauseThenDeleteBatch { millis: TOKEN_CLEANUP_PAUSE_MILLIS, limit: TOKEN_CLEANUP_BATCH_SIZE }),
        forall|i: nat| #[trigger] full_batches(i).push(TOKEN_CLEANUP_BATCH_SIZE) == full_batches(i + 1),
        last matches Ok(n) ==> (n < TOKEN_CLEANUP_BATCH_SIZE ==> batch_action(full_batches(k), last)
            == CleanupAction::Finish(report_of(capped((TOKEN_CLEANUP_BATCH_SIZE * k + n) as nat)))),
        last is Err ==> batch_action(full_batches(k), last) == CleanupAction::Finish(CleanupReport::Failed),
{
    assert forall|i: nat| #[trigger] full_batches(i).push(TOKEN_CLEANUP_BATCH_SIZE) == full_batches(i + 1) by {
        assert(full_batches(i).push(TOKEN_CLEANUP_BATCH_SIZE) =~= full_batches(i + 1));
    }
    if let Ok(n) = last {
        lemma_sum_full_batches(k);
        let b = full_batches(k).push(n);
        assert(b.drop_last() =~= full_batches(k));
        assert(sum(b) == sum(full_batches(k)) + n);
    }
}

impl CleanupCycle {
    /// Starts a cycle with its first batch.
    pub fn start() -> (r: (CleanupCycle, CleanupAction))
        ensures
            r.0.wf(),
            r.0.total_deleted == 0,
            r.0.batches@ == Seq::<u64>::empty(),
            r.0.batches@ == full_batches(0),
            r.1 == (CleanupAction::DeleteBatch { limit: TOKEN_CLEANUP_BATCH_SIZE }),
    {
        assert(full_batches(0) =~= Seq::<u64>::empty());
        (
            CleanupCycle { total_deleted: 0, batches: Ghost(Seq::empty()) },
            CleanupAction::DeleteBatch { limit: TOKEN_CLEANUP_BATCH_SIZE },
        )
    }

    /// Takes in the outcome of a batch: a full batch is followed by another
    /// after a pause, a short one ends the cycle with its total, and a failed
    /// one ends it as failed.
    pub fn batch_done(&mut self, outcome: Result<u64, RepositoryError>) -> (r: CleanupAction)
        requires
            old(self).wf(),
        ensures
            final(self).wf(),
            r == batch_action(old(self).batches@, outcome),
            match outcome {
                Ok(n) => {
                    &&& final(self).batches@ == old(self).batches@.push(n)
                    &&& if n < TOKEN_CLEANUP_BATCH_SIZE {
                        r == CleanupAction::Finish(report_of(final(self).total_deleted))
                    } else {
                        r == (CleanupAction::PauseThenDeleteBatch {
                            millis: TOKEN_CLEANUP_PAUSE_MILLIS,
                            limit: TOKEN_CLEANUP_BATCH_SIZE,
                        })
                    }
                },
                Err(_) => final(self).batches@ == old(self).batches@ && r == CleanupAction::Finish(CleanupReport::Failed),
            },
    {
        match outcome {
            Ok(deleted_count) => {
                let ghost old_batches = self.batches@;
                self.total_deleted = self.total_deleted.saturating_add(deleted_count);
                self.batches = Ghost(self.batches@.push(deleted_count));
                assert(self.batches@.drop_last() =~= old_batches);
                if deleted_count < TOKEN_CLEANUP_BATCH_SIZE {
                    // A short batch means that everything has been processed.
                    if self.total_deleted > 0 {
                        CleanupAction::Finish(CleanupReport::Deleted(self.total_deleted))
                    } else {
                        CleanupAction::Finish(CleanupReport::NothingExpired)
                    }
                } else {
                    // Yield briefly, so as not to monopolise the database
                    // during a large cleanup.
                    CleanupAction::PauseThenDeleteBatch {
                        millis: TOKEN_CLEANUP_PAUSE_MILLIS,
                        limit: TOKEN_CLEANUP_BATCH_SIZE,
                    }
                }
            },
            Err(_) => CleanupAction::Finish(CleanupReport::Failed),
        }
    }
}

/// The timer of the cleanup worker. Its ticks come at the start of the
/// worker and every `TOKEN_CLEANUP_INTERVAL_SECS` after; the tick at the
/// start is skipped, so a cycle runs at `start + k * interval` for every
/// `k >= 1` and never before the first interval has passed.
pub struct CleanupTimer {
    /// Ticks taken in so far (it stops growing at `u64::MAX`).
    pub ticks_seen: u64,
}

/// Whether a cycle runs on tick number `k`, counting the tick at the start
/// as number 0.
pub open spec fn runs_cycle_on_tick(k: int) -> bool {
    k >= 1
}

/// The count of ticks after one more (it stops growing at `u64::MAX`).
pub open spec fn next_ticks(ticks_seen: u64) -> u64 {
    if ticks_seen == u64::MAX { u64::MAX } else { (ticks_seen + 1) as u64 }
}

/// The count of ticks of a timer that has taken in `k` ticks since it was made.
pub open spec fn ticks_after(k: nat) -> u64 {
    if k <= u64::MAX { k as u64 } else { u64::MAX }
}

/// The whole run of the timer: made with no tick seen, after `k` ticks it
/// has seen `ticks_after(k)`, and tick number `k` runs a cycle exactly when
/// it is not the first (`k >= 1`).
pub proof fn timer_runs_a_cycle_on_every_tick_but_the_first(k: nat)
    ensures
        ticks_after(0) == 0,
        next_ticks(ticks_after(k)) == ticks_after(k + 1),
        runs_cycle_on_tick(ticks_after(k) as int) == (k >= 1),
{
}

impl CleanupTimer {
    pub fn new() -> (r: CleanupTimer)
        ensures
            r.ticks_seen == 0,
    {
        CleanupTimer { ticks_seen: 0 }
    }

    /// Takes in the next tick and says whether a cleanup cycle runs on it.
    pub fn on_tick(&mut self) -> (run: bool)
        ensures
            run == runs_cycle_on_tick(old(self).ticks_seen as int),
            final(self).ticks_seen == next_ticks(old(self).ticks_seen),
    {
        let run = self.ticks_seen >= 1;
        self.ticks_seen = self.ticks_seen.saturating_add(1);
        run
    }
}

} // verus!
