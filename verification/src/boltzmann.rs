//! The freeze-out integration interval, its tolerances, and the abundance
//! trace.
//!
//! The Boltzmann equation for the log-abundance `w = ln(Y)` is integrated
//! in `logx = ln(mx / T)` from `ln(1)` to `ln(1000)` by a stiff implicit
//! solver outside this crate. What this crate owns is the shape of the
//! result: an ordered sequence of `(logx, w)` samples whose `logx` is
//! strictly increasing — the invariant every consumer of a trace relies on.
//! Logarithms are held in millionths, so the endpoints and the ordering are
//! exact.

use vstd::prelude::*;

verus! {

/// `ln(1)`, in millionths: the start of the freeze-out integration.
pub const LOGX_START_MICRO: i64 = 0;

/// `ln(1000)` rounded to millionths: the end of the freeze-out
/// integration.
pub const LOGX_END_MICRO: i64 = 6_907_755;

/// The reciprocal of both the relative and the absolute tolerance the
/// stiff solver is run with (each tolerance is one part in this many).
pub const ODE_TOL_RECIP: u64 = 10_000_000;

/// One sample of the freeze-out integration: the log of the inverse
/// temperature ratio and the log-abundance at it, both in millionths.
#[derive(Clone, Copy, Debug, PartialEq, Eq, Structural)]
pub struct TraceSample {
    /// `ln(mx / T)`, in millionths.
    pub logx: i64,
    /// `w = ln(Y)`, the log of the comoving abundance, in millionths.
    pub w: i64,
}

/// An ordered record of the freeze-out integration: samples whose `logx`
/// is strictly increasing. A value of this type can only be grown through
/// [`AbundanceTrace::try_push`], which refuses a sample that would break
/// the order, so the invariant holds of every trace ever observed.
#[derive(Clone, Debug)]
pub struct AbundanceTrace {
    samples: Vec<TraceSample>,
}

impl AbundanceTrace {
    /// The samples recorded so far, oldest first.
    pub closed spec fn samples(&self) -> Seq<TraceSample> {
        self.samples@
    }

    /// Adjacent samples are strictly ordered by `logx`.
    pub open spec fn wf(&self) -> bool {
        forall|i: int|
            0 <= i && i + 1 < self.samples().len() ==> #[trigger] self.samples()[i].logx
                < self.samples()[i + 1].logx
    }

    /// An empty trace.
    pub fn new() -> (r: AbundanceTrace)
        ensures
            r.samples() == Seq::<TraceSample>::empty(),
            r.wf(),
    {
        AbundanceTrace { samples: Vec::new() }
    }

    /// Appends a sample if it keeps `logx` strictly increasing, and refuses
    /// it otherwise: the trace is unchanged and `false` comes back. A
    /// solver step that does not advance `logx` is thereby visible to the
    /// caller instead of silently corrupting the record.
    pub fn try_push(&mut self, s: TraceSample) -> (ok: bool)
        requires
            old(self).wf(),
        ensures
            final(self).wf(),
            ok == (old(self).samples().len() == 0 || s.logx > old(self).samples().last().logx),
            ok ==> final(self).samples() == old(self).samples().push(s),
            !ok ==> final(self).samples() == old(self).samples(),
    {
        let n: usize = self.samples.len();
        if n == 0 || s.logx > self.samples[n - 1].logx {
            self.samples.push(s);
            proof {
                let prev = old(self).samples();
                let cur = self.samples();
                assert forall|i: int| 0 <= i && i + 1 < cur.len() implies #[trigger] cur[i].logx
                    < cur[i + 1].logx by {
                    if i + 1 < prev.len() {
                        assert(prev[i].logx < prev[i + 1].logx);
                    } else {
                        assert(cur[i] == prev.last() && cur[i + 1] == s);
                    }
                }
            }
            true
        } else {
            false
        }
    }

    /// How many samples the trace holds.
    pub fn len(&self) -> (n: usize)
        ensures
            n == self.samples().len(),
    {
        self.samples.len()
    }

    /// The sample at the given position, oldest first.
    pub fn sample(&self, i: usize) -> (s: TraceSample)
        requires
            i < self.samples().len(),
        ensures
            s == self.samples()[i as int],
    {
        self.samples[i]
    }

    /// The first sample: the initial condition of the integration, which
    /// must sit at full equilibrium.
    pub fn first_sample(&self) -> (s: TraceSample)
        requires
            self.samples().len() > 0,
        ensures
            s == self.samples().first(),
    {
        self.samples[0]
    }

    /// The last sample: the endpoint the relic density is computed from.
    pub fn last_sample(&self) -> (s: TraceSample)
        requires
            self.samples().len() > 0,
        ensures
            s == self.samples().last(),
    {
        self.samples[self.samples.len() - 1]
    }

    /// Whether the trace spans the whole freeze-out interval: it is
    /// nonempty, starts at `ln(1)` and ends at `ln(1000)`.
    pub fn spans_freeze_out(&self) -> (r: bool)
        ensures
            r == (self.samples().len() > 0 && self.samples().first().logx == LOGX_START_MICRO
                && self.samples().last().logx == LOGX_END_MICRO),
    {
        let n: usize = self.samples.len();
        n > 0 && self.samples[0].logx == LOGX_START_MICRO && self.samples[n - 1].logx
            == LOGX_END_MICRO
    }
}

/// The ordering law of a well-formed trace: `logx` is strictly increasing
/// not only between neighbours but between any two positions, so the trace
/// never revisits or repeats a temperature.
pub proof fn lemma_trace_strictly_increasing(t: &AbundanceTrace, i: int, j: int)
    requires
        t.wf(),
        0 <= i < j < t.samples().len(),
    ensures
        t.samples()[i].logx < t.samples()[j].logx,
    decreases j - i,
{
    if i + 1 < j {
        lemma_trace_strictly_increasing(t, i + 1, j);
    }
}

} // verus!
