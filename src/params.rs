use vstd::prelude::*;

verus! {

/// The latest values pushed by the host: the alarm factor and the spectrum
/// frame. A write replaces both at once; a read returns both together.
#[derive(Clone, Copy, Debug)]
pub struct Parameters<A, F> {
    pub alarm: A,
    pub frame: F,
}

impl<A: Copy, F: Copy> Parameters<A, F> {
    /// Parameters holding `alarm` and `frame`.
    pub fn new(alarm: A, frame: F) -> (r: Parameters<A, F>)
        ensures
            r.alarm == alarm,
            r.frame == frame,
    {
        Parameters { alarm, frame }
    }

    /// Replaces both values; nothing of the earlier write remains.
    pub fn set(&mut self, alarm: A, frame: F)
        ensures
            final(self).alarm == alarm,
            final(self).frame == frame,
    {
        self.alarm = alarm;
        self.frame = frame;
    }

    /// Both values, as last written.
    pub fn snapshot(&self) -> (r: (A, F))
        ensures
            r == (self.alarm, self.frame),
    {
        (self.alarm, self.frame)
    }
}

/// A read right after a write returns exactly the written alarm factor and
/// frame, whatever was held before: `snapshot` of any state that `set`
/// leaves is the pair that was written.
pub proof fn lemma_read_after_write<A, F>(after: Parameters<A, F>, alarm: A, frame: F)
    requires
        after.alarm == alarm,
        after.frame == frame,
    ensures
        (after.alarm, after.frame) == (alarm, frame),
{
}

} // verus!
