//! The writer loop's verified core: the decision it takes at the top of
//! each iteration from the stop flag, and the byte accounting behind the
//! cumulative counter it publishes after every write. The binary owns the
//! file handle and performs the writes; it hands the number of bytes each
//! write reported back into this state machine.

use vstd::prelude::*;

verus! {

/// What the writer loop does on one iteration, decided from the stop flag.
#[derive(Clone, Copy, Debug, PartialEq, Eq)]
pub enum WriterAction {
    /// Write the repeat buffer once more and publish the new total.
    Write,
    /// Leave the loop without issuing another write.
    Exit,
}

/// The writer loop's decision as a function of the stop flag alone.
pub open spec fn decision(stop: bool) -> WriterAction {
    if stop {
        WriterAction::Exit
    } else {
        WriterAction::Write
    }
}

/// The writer's state between iterations: the cumulative total of bytes
/// written since the process started, the Byte Counter.
pub struct WriterState {
    pub bytes: u64,
}

impl WriterState {
    /// A fresh writer that has written nothing yet.
    pub fn new() -> (w: WriterState)
        ensures
            w.bytes == 0,
    {
        WriterState { bytes: 0 }
    }

    /// The top-of-iteration decision: exit as soon as the stop flag is
    /// observed set, otherwise write once more. A write already in flight
    /// when the flag flips is finished, never re-issued.
    pub fn next(&self, stop: bool) -> (a: WriterAction)
        ensures
            a == decision(stop),
    {
        if stop {
            WriterAction::Exit
        } else {
            WriterAction::Write
        }
    }

    /// Accounts for one completed write of `written` bytes (possibly fewer
    /// than the buffer on a partial write) and returns the new cumulative
    /// total, the snapshot published downstream.
    pub fn record(&mut self, written: usize) -> (snapshot: u64)
        requires
            old(self).bytes + written <= u64::MAX,
        ensures
            final(self).bytes == old(self).bytes + written,
            snapshot == final(self).bytes,
            snapshot >= old(self).bytes,
    {
        self.bytes = self.bytes + written as u64;
        self.bytes
    }
}

/// The cumulative total after the first `n` writes of a run: the sum of the
/// first `n` write sizes. Entry `n` of the published snapshot stream is
/// `total_after(writes, n + 1)`.
pub open spec fn total_after(writes: Seq<int>, n: int) -> int
    decreases n,
{
    if n <= 0 {
        0
    } else {
        total_after(writes, n - 1) + writes[n - 1]
    }
}

/// The stream of snapshots a run of writes publishes, one per write, in
/// the order the writer sends them down the pipeline.
pub open spec fn published(writes: Seq<int>) -> Seq<int> {
    Seq::new(writes.len(), |i: int| total_after(writes, i + 1))
}

proof fn lemma_total_after_non_decreasing(writes: Seq<int>, i: int, j: int)
    requires
        forall|t: int| 0 <= t < writes.len() ==> writes[t] >= 0,
        0 <= i <= j <= writes.len(),
    ensures
        total_after(writes, i) <= total_after(writes, j),
    decreases j,
{
    if j > i {
        lemma_total_after_non_decreasing(writes, i, j - 1);
        assert(writes[j - 1] >= 0);
    }
}

/// The snapshots the writer publishes never decrease: with every write size
/// non-negative, a later snapshot is at least an earlier one. The pipeline
/// is first-in-first-out with this single producer, so the reporter
/// observes exactly this sequence, in this order, non-decreasing.
pub proof fn lemma_snapshots_non_decreasing(writes: Seq<int>, i: int, j: int)
    requires
        forall|t: int| 0 <= t < writes.len() ==> writes[t] >= 0,
        0 <= i <= j < writes.len(),
    ensures
        published(writes)[i] <= published(writes)[j],
{
    lemma_total_after_non_decreasing(writes, i + 1, j + 1);
}

/// The iteration at which a loop polling the stop flag leaves: the index of
/// the first observation that reads `true`, or the number of observations
/// if none does. The writer issues one write per `false` observation before
/// that point, so `first_stop(obs)` is also the number of writes issued.
pub open spec fn first_stop(obs: Seq<bool>) -> int
    decreases obs.len(),
{
    if obs.len() == 0 {
        0
    } else if obs[0] {
        0
    } else {
        1 + first_stop(obs.drop_first())
    }
}

/// Setting the stop flag halts the writer: once observation `i` reads
/// `true`, every write belongs to an earlier iteration, so no write beyond
/// the one already in flight at that moment can follow.
pub proof fn lemma_stop_halts_writer(obs: Seq<bool>, i: int)
    requires
        0 <= i < obs.len(),
        obs[i],
    ensures
        first_stop(obs) <= i,
    decreases i,
{
    if !obs[0] {
        lemma_stop_halts_writer(obs.drop_first(), i - 1);
    }
}

} // verus!
