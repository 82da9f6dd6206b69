use vstd::prelude::*;

verus! {

/// Nanoseconds in one millisecond.
pub const NANOS_PER_MILLI: u64 = 1_000_000;

/// Nanoseconds in one second.
pub const NANOS_PER_SECOND: u64 = 1_000_000_000;

/// A stopwatch that accumulates the frame deltas it is ticked with.
/// Elapsed time is kept in nanoseconds and saturates instead of overflowing.
#[derive(Clone, Copy, Debug, PartialEq, Eq, Structural)]
pub struct Stopwatch {
    pub elapsed_ns: u64,
}

/// `a + b`, or `u64::MAX` when the sum does not fit.
pub open spec fn saturating_sum(a: u64, b: u64) -> u64 {
    if a + b > u64::MAX {
        u64::MAX
    } else {
        (a + b) as u64
    }
}

impl Stopwatch {
    /// The stopwatch after one tick of `delta_ns` nanoseconds.
    pub open spec fn ticked(self, delta_ns: u64) -> Stopwatch {
        Stopwatch { elapsed_ns: saturating_sum(self.elapsed_ns, delta_ns) }
    }

    /// A stopwatch that has measured nothing yet.
    pub fn new() -> (sw: Stopwatch)
        ensures
            sw.elapsed_ns == 0,
    {
        Stopwatch { elapsed_ns: 0 }
    }

    /// Adds `delta_ns` to the elapsed time, saturating at `u64::MAX`.
    pub fn tick(&mut self, delta_ns: u64)
        ensures
            *final(self) == old(self).ticked(delta_ns),
    {
        self.elapsed_ns = self.elapsed_ns.saturating_add(delta_ns);
    }

    /// Sets the elapsed time back to zero.
    pub fn reset(&mut self)
        ensures
            final(self).elapsed_ns == 0,
    {
        self.elapsed_ns = 0;
    }

    /// The elapsed time in nanoseconds.
    pub fn elapsed(&self) -> (ns: u64)
        ensures
            ns == self.elapsed_ns,
    {
        self.elapsed_ns
    }
}

/// Two stopwatches carried by the boss and its weapon parts.
#[derive(Clone, Copy, Debug, PartialEq, Eq, Structural)]
pub struct Timer {
    pub timer1: Stopwatch,
    pub timer2: Stopwatch,
}

impl Timer {
    /// Both stopwatches at zero.
    pub fn new() -> (t: Timer)
        ensures
            t.timer1.elapsed_ns == 0,
            t.timer2.elapsed_ns == 0,
    {
        Timer { timer1: Stopwatch::new(), timer2: Stopwatch::new() }
    }
}

/// Ticking never makes a stopwatch show less time than before, and a tick
/// that does not saturate adds exactly the delta.
pub proof fn lemma_tick_monotone(sw: Stopwatch, delta_ns: u64)
    ensures
        sw.ticked(delta_ns).elapsed_ns >= sw.elapsed_ns,
        sw.elapsed_ns + delta_ns <= u64::MAX ==> sw.ticked(delta_ns).elapsed_ns == sw.elapsed_ns + delta_ns,
{
}

} // verus!
