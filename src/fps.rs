use vstd::prelude::*;

verus! {

/// One published measurement: `frames` ticks over `span_ns` nanoseconds.
#[derive(Clone, Copy, Debug, PartialEq, Eq, Structural)]
pub struct FpsSample {
    pub frames: u64,
    pub span_ns: u64,
}

/// Counts ticks and publishes a measurement whenever the measurement
/// window has elapsed or the tick count has reached `frame_threshold`
/// (the window length times the target rate), whichever comes first.
#[derive(Clone, Copy, Debug, PartialEq, Eq, Structural)]
pub struct FpsAccumulator {
    pub window_ns: u64,
    pub frame_threshold: u64,
    /// Ticks since the last measurement.
    pub frames: u64,
    /// Time of the last measurement, or of the start.
    pub last_measure_ns: u64,
}

impl FpsAccumulator {
    /// The count never stands at or past the threshold between ticks.
    pub open spec fn wf(&self) -> bool {
        self.frames < self.frame_threshold || self.frames == 0
    }

    /// Whether a tick at `now` publishes a measurement.
    pub open spec fn due(&self, now: int) -> bool {
        now - self.last_measure_ns >= self.window_ns || self.frames + 1 >= self.frame_threshold
    }

    /// The measurement a tick at `now` publishes, if any.
    pub open spec fn sample_at(&self, now: int) -> Option<FpsSample> {
        if self.due(now) {
            Some(FpsSample { frames: (self.frames + 1) as u64, span_ns: (now - self.last_measure_ns) as u64 })
        } else {
            None
        }
    }

    /// The accumulator after a tick at `now`.
    pub open spec fn after(&self, now: int) -> FpsAccumulator {
        if self.due(now) {
            FpsAccumulator { frames: 0, last_measure_ns: now as u64, ..*self }
        } else {
            FpsAccumulator { frames: (self.frames + 1) as u64, ..*self }
        }
    }

    /// The accumulator after `j` ticks spaced `period` apart, the first one
    /// `period` after the last measurement.
    pub open spec fn after_regular(&self, period: int, j: nat) -> FpsAccumulator
        decreases j,
    {
        if j == 0 {
            *self
        } else {
            self.after_regular(period, (j - 1) as nat).after(self.last_measure_ns + j * period)
        }
    }

    /// A fresh accumulator started at `now_ns`.
    pub fn new(now_ns: u64, window_ns: u64, frame_threshold: u64) -> (r: FpsAccumulator)
        ensures
            r == (FpsAccumulator { window_ns, frame_threshold, frames: 0, last_measure_ns: now_ns }),
            r.wf(),
    {
        FpsAccumulator { window_ns, frame_threshold, frames: 0, last_measure_ns: now_ns }
    }

    /// Counts one tick at `now_ns` and returns the measurement it
    /// publishes, if any; a published measurement restarts the count.
    pub fn tick(&mut self, now_ns: u64) -> (r: Option<FpsSample>)
        requires
            old(self).wf(),
            old(self).last_measure_ns <= now_ns,
        ensures
            r == old(self).sample_at(now_ns as int),
            *final(self) == old(self).after(now_ns as int),
            final(self).wf(),
    {
        let frames = self.frames + 1;
        let span = now_ns - self.last_measure_ns;
        if span >= self.window_ns || frames >= self.frame_threshold {
            self.frames = 0;
            self.last_measure_ns = now_ns;
            Some(FpsSample { frames, span_ns: span })
        } else {
            self.frames = frames;
            None
        }
    }
}

proof fn lemma_regular_counts(acc: FpsAccumulator, period: int, j: nat)
    requires
        acc.frames == 0,
        period >= 0,
        j < acc.frame_threshold,
        (acc.frame_threshold - 1) * period < acc.window_ns,
    ensures
        acc.after_regular(period, j) == (FpsAccumulator { frames: j as u64, ..acc }),
    decreases j,
{
    if j > 0 {
        lemma_regular_counts(acc, period, (j - 1) as nat);
        assert(j * period <= (acc.frame_threshold - 1) * period) by (nonlinear_arith)
            requires
                j <= acc.frame_threshold - 1,
                period >= 0,
        ;
    }
}

/// Ticks arriving exactly at the target period publish nothing until the
/// threshold-th tick, which publishes a measurement of `frame_threshold`
/// ticks spanning `frame_threshold` periods: the measured rate is the
/// target rate. This holds whenever the window is not reached first, as
/// with a threshold equal to window times rate.
pub proof fn lemma_threshold_ticks_measure_target_rate(acc: FpsAccumulator, period: int)
    requires
        acc.frames == 0,
        acc.frame_threshold >= 1,
        period >= 0,
        (acc.frame_threshold - 1) * period < acc.window_ns,
        acc.last_measure_ns + acc.frame_threshold * period <= u64::MAX,
    ensures
        forall|j: nat|
            1 <= j < acc.frame_threshold ==> (#[trigger] acc.after_regular(period, (j - 1) as nat)).sample_at(
                acc.last_measure_ns + j * period,
            ) is None,
        acc.after_regular(period, (acc.frame_threshold - 1) as nat).sample_at(
            acc.last_measure_ns + acc.frame_threshold * period,
        ) == Some(
            FpsSample {
                frames: acc.frame_threshold,
                span_ns: (acc.frame_threshold * period) as u64,
            },
        ),
{
    assert forall|j: nat| 1 <= j < acc.frame_threshold implies (#[trigger] acc.after_regular(
        period,
        (j - 1) as nat,
    )).sample_at(acc.last_measure_ns + j * period) is None by {
        lemma_regular_counts(acc, period, (j - 1) as nat);
        assert(j * period <= (acc.frame_threshold - 1) * period) by (nonlinear_arith)
            requires
                j <= acc.frame_threshold - 1,
                period >= 0,
        ;
    }
    lemma_regular_counts(acc, period, (acc.frame_threshold - 1) as nat);
    assert(acc.frame_threshold * period >= 0) by (nonlinear_arith)
        requires
            acc.frame_threshold >= 1,
            period >= 0,
    ;
}

/// Wall-clock time accumulated over the ticks of one run.
#[derive(Clone, Copy, Debug, PartialEq, Eq, Structural)]
pub struct TickClock {
    /// Time of the previous tick, on a monotonic clock started with the run.
    pub last_ns: u64,
    /// Sum of the real gaps between ticks.
    pub elapsed_ns: u64,
}

impl TickClock {
    /// The accumulated time never exceeds the clock's own reading.
    pub open spec fn wf(&self) -> bool {
        self.elapsed_ns <= self.last_ns
    }

    /// A clock started at `now_ns` with nothing accumulated.
    pub fn new(now_ns: u64) -> (r: TickClock)
        ensures
            r == (TickClock { last_ns: now_ns, elapsed_ns: 0 }),
            r.wf(),
    {
        TickClock { last_ns: now_ns, elapsed_ns: 0 }
    }

    /// Adds the real time since the previous tick, not the nominal period.
    pub fn advance(&mut self, now_ns: u64)
        requires
            old(self).wf(),
            old(self).last_ns <= now_ns,
        ensures
            final(self).elapsed_ns == old(self).elapsed_ns + (now_ns - old(self).last_ns),
            final(self).last_ns == now_ns,
            final(self).wf(),
    {
        self.elapsed_ns = self.elapsed_ns + (now_ns - self.last_ns);
        self.last_ns = now_ns;
    }
}

} // verus!
