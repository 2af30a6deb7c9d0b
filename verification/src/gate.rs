use vstd::prelude::*;

verus! {

/// Decides whether a new sample is due "now".
///
/// The host delivers ticks at its own cadence, typically much faster than the
/// wanted sampling rate; the clock gate throttles that stream down by answering
/// "due" only when strictly more than `min_interval` host-clock units have
/// passed since the last committed sample. Before any sample was ever
/// committed the clock gate answers "due" unconditionally. Instants and intervals
/// are plain host-clock readings (for example milliseconds); the clock gate only
/// compares them and never reads a clock itself.
pub struct ClockGate {
    /// Host-clock instant of the last committed sample, or `None` before any.
    last_sample_at: Option<u64>,
    /// Minimum spacing between two committed samples, in host-clock units.
    min_interval: u64,
}

impl ClockGate {
    /// The instant recorded by the last `mark_sampled`, if any.
    pub closed spec fn last_spec(self) -> Option<u64> {
        self.last_sample_at
    }

    /// The minimum spacing this gate enforces.
    pub closed spec fn interval_spec(self) -> u64 {
        self.min_interval
    }

    /// A sample is due when none was ever committed, or when strictly more
    /// than `min_interval` host-clock units have passed since the last one.
    pub open spec fn due_spec(self, now: u64) -> bool {
        match self.last_spec() {
            None => true,
            Some(at) => at < now && now - at > self.interval_spec(),
        }
    }

    /// A fresh gate that has never committed a sample; its first check is due.
    pub fn new(min_interval: u64) -> (gate: ClockGate)
        ensures
            gate.last_spec() is None,
            gate.interval_spec() == min_interval,
    {
        ClockGate { last_sample_at: None, min_interval }
    }

    /// Pure check with no side effect: true iff a sample is due at `now`.
    pub fn is_due(&self, now: u64) -> (due: bool)
        ensures
            due == self.due_spec(now),
    {
        match self.last_sample_at {
            None => true,
            Some(at) => at < now && now - at > self.min_interval,
        }
    }

    /// Records `now` as the new last-committed-sample instant. The sampler
    /// calls this exactly once per tick on which `is_due` answered true.
    pub fn mark_sampled(&mut self, now: u64)
        ensures
            final(self).last_spec() == Some(now),
            final(self).interval_spec() == old(self).interval_spec(),
    {
        self.last_sample_at = Some(now);
    }
}

/// Law: the clock gate's verdict is a function of its stored state and the queried
/// instant alone, so repeated checks of the same gate at the same instant,
/// with no `mark_sampled` in between, always give the same answer.
pub proof fn lemma_due_idempotent(g1: ClockGate, g2: ClockGate, now: u64)
    requires
        g1.last_spec() == g2.last_spec(),
        g1.interval_spec() == g2.interval_spec(),
    ensures
        g1.due_spec(now) == g2.due_spec(now),
{
}

} // verus!
