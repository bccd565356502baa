//! The throughput reporter: it drains cumulative byte-count snapshots from
//! the pipeline, computes instantaneous and average throughput, and renders
//! the status line. Timestamps are whole seconds on a monotonic clock; the
//! binary samples the clock and hands the values in, so that all the
//! arithmetic on them is verified.

use vstd::prelude::*;
use vstd::string::StringExecFns;

verus! {

/// A throughput in bytes per second, from an amount and the whole seconds
/// it took. An elapsed time of zero seconds — sampling faster than the
/// clock's one-second resolution — saturates to `u64::MAX`, the "infinite"
/// reading this measurement artifact is documented to give.
pub open spec fn rate(amount: int, secs: int) -> int
    recommends
        amount >= 0,
        secs >= 0,
{
    if secs == 0 {
        u64::MAX as int
    } else {
        amount / secs
    }
}

/// The human-readable rendering of a byte count ("1.02 KB"), as the
/// byte-formatting crate produces it; a pure function of the count.
pub uninterp spec fn human_size_of(n: u64) -> Seq<char>;

/// Relies on bytefmt::format: scales a byte count into a human-readable
/// unit string, depending on the count alone.
#[verifier::external_body]
fn format_size(n: u64) -> (r: String)
    ensures
        r@ == human_size_of(n),
{
    bytefmt::format(n)
}

/// Transient state of the throughput reporter, recomputed on every
/// received Byte Counter snapshot.
pub struct ThroughputMeasurer {
    /// Second at which measuring started.
    pub started: u64,
    /// Cumulative byte total as of the previous sample.
    pub bytes: u64,
    /// Throughput between the two most recent samples, bytes per second.
    pub last_measure_throughput: u64,
    /// Average throughput since `started`, bytes per second.
    pub average_throughput: u64,
    /// Second at which the previous sample arrived.
    pub prev_moment: u64,
}

impl ThroughputMeasurer {
    /// The clock never sits before the start of measurement.
    pub open spec fn wf(self) -> bool {
        self.prev_moment >= self.started
    }

    /// The state after absorbing a snapshot of `bytes` total bytes at
    /// second `now`.
    pub open spec fn measure_spec(self, bytes: u64, now: u64) -> ThroughputMeasurer
        recommends
            self.wf(),
            now >= self.prev_moment,
            bytes >= self.bytes,
    {
        ThroughputMeasurer {
            started: self.started,
            bytes,
            last_measure_throughput: rate(bytes - self.bytes, now - self.prev_moment) as u64,
            average_throughput: rate(bytes as int, now - self.started) as u64,
            prev_moment: now,
        }
    }

    /// A fresh measurer at second `now`: nothing written, nothing measured.
    pub fn new(now: u64) -> (m: ThroughputMeasurer)
        ensures
            m.started == now,
            m.bytes == 0,
            m.last_measure_throughput == 0,
            m.average_throughput == 0,
            m.prev_moment == now,
            m.wf(),
    {
        ThroughputMeasurer {
            started: now,
            bytes: 0,
            prev_moment: now,
            average_throughput: 0,
            last_measure_throughput: 0,
        }
    }

    /// Absorbs one snapshot: `bytes` total bytes written as of second
    /// `now`. The instantaneous throughput is the bytes gained since the
    /// previous sample over the seconds since it; the average is the total
    /// over the seconds since the start.
    pub fn measure(&mut self, bytes: u64, now: u64)
        requires
            old(self).wf(),
            now >= old(self).prev_moment,
            bytes >= old(self).bytes,
        ensures
            *final(self) == old(self).measure_spec(bytes, now),
            final(self).wf(),
            final(self).bytes == bytes,
            final(self).prev_moment == now,
            final(self).started == old(self).started,
            final(self).last_measure_throughput == rate(
                bytes - old(self).bytes,
                now - old(self).prev_moment,
            ),
            final(self).average_throughput == rate(bytes as int, now - old(self).started),
    {
        let elapsed = now - self.prev_moment;
        let elapsed_from_start = now - self.started;
        let written_bytes = bytes - self.bytes;

        self.last_measure_throughput = if elapsed == 0 {
            u64::MAX
        } else {
            written_bytes / elapsed
        };
        self.average_throughput = if elapsed_from_start == 0 {
            u64::MAX
        } else {
            bytes / elapsed_from_start
        };

        self.prev_moment = now;
        self.bytes = bytes;
    }

    /// The status line the tool prints: total written, then instantaneous
    /// and average throughput, tab-separated, each human-readable.
    pub open spec fn status_line_spec(self) -> Seq<char> {
        "Written "@ + human_size_of(self.bytes) + "\t"@ + human_size_of(
            self.last_measure_throughput,
        ) + "/s\t"@ + human_size_of(self.average_throughput) + "/s"@
    }

    /// Renders the status line for the current sample.
    pub fn status_line(&self) -> (r: String)
        ensures
            r@ == self.status_line_spec(),
    {
        let mut r = String::from_str("Written ");
        r.append(format_size(self.bytes).as_str());
        r.append("\t");
        r.append(format_size(self.last_measure_throughput).as_str());
        r.append("/s\t");
        r.append(format_size(self.average_throughput).as_str());
        r.append("/s");
        proof {
            assert(r@ =~= self.status_line_spec());
        }
        r
    }
}

/// The measurer after a whole run of samples, each a pair of a cumulative
/// byte total and the second at which it arrived.
pub open spec fn run_samples(m: ThroughputMeasurer, samples: Seq<(u64, u64)>) -> ThroughputMeasurer
    decreases samples.len(),
{
    if samples.len() == 0 {
        m
    } else {
        run_samples(m.measure_spec(samples[0].0, samples[0].1), samples.drop_first())
    }
}

proof fn lemma_run_samples_started(m: ThroughputMeasurer, samples: Seq<(u64, u64)>)
    ensures
        run_samples(m, samples).started == m.started,
    decreases samples.len(),
{
    if samples.len() > 0 {
        lemma_run_samples_started(m.measure_spec(samples[0].0, samples[0].1), samples.drop_first());
    }
}

proof fn lemma_run_samples_snoc(m: ThroughputMeasurer, samples: Seq<(u64, u64)>, x: (u64, u64))
    ensures
        run_samples(m, samples.push(x)) == run_samples(m, samples).measure_spec(x.0, x.1),
    decreases samples.len(),
{
    reveal_with_fuel(run_samples, 2);
    assert(samples.push(x)[samples.len() as int] == x);
    if samples.len() == 0 {
        assert(samples.push(x).drop_first() =~= Seq::<(u64, u64)>::empty());
    } else {
        assert(samples.push(x)[0] == samples[0]);
        assert(samples.push(x).drop_first() =~= samples.drop_first().push(x));
        lemma_run_samples_snoc(m.measure_spec(samples[0].0, samples[0].1), samples.drop_first(), x);
    }
}

/// The average throughput after any sample depends only on that sample's
/// total and timestamp and on the start of measurement — not on how many
/// samples came before or when they were taken: at sample `k` it is exactly
/// the total at `k` divided by the seconds elapsed since the start.
pub proof fn lemma_average_throughput_at_sample(
    m: ThroughputMeasurer,
    samples: Seq<(u64, u64)>,
    k: int,
)
    requires
        0 <= k < samples.len(),
        samples[k].1 >= m.started,
    ensures
        run_samples(m, samples.take(k + 1)).average_throughput == rate(
            samples[k].0 as int,
            samples[k].1 - m.started,
        ),
{
    lemma_run_samples_started(m, samples.take(k));
    assert(samples.take(k + 1) =~= samples.take(k).push(samples[k]));
    lemma_run_samples_snoc(m, samples.take(k), samples[k]);
    let mk = run_samples(m, samples.take(k));
    let amount = samples[k].0 as int;
    let secs = samples[k].1 - mk.started;
    if secs > 0 {
        vstd::arithmetic::div_mod::lemma_div_nonincreasing(amount, secs);
        vstd::arithmetic::div_mod::lemma_div_pos_is_pos(amount, secs);
    }
}

/// How many final summary lines a run of the reporter prints, for a given
/// sequence of stop-flag observations: it consumes snapshots while the flag
/// reads `false` and, at the first observation of `true`, prints the final
/// line once and terminates.
pub open spec fn finals_printed(obs: Seq<bool>) -> int
    decreases obs.len(),
{
    if obs.len() == 0 {
        0
    } else if obs[0] {
        1
    } else {
        finals_printed(obs.drop_first())
    }
}

/// Setting the stop flag makes the reporter print exactly one final summary
/// line and then terminate, whatever it observed before.
pub proof fn lemma_one_final_line(obs: Seq<bool>, i: int)
    requires
        0 <= i < obs.len(),
        obs[i],
    ensures
        finals_printed(obs) == 1,
    decreases i,
{
    if !obs[0] {
        lemma_one_final_line(obs.drop_first(), i - 1);
    }
}

} // verus!

