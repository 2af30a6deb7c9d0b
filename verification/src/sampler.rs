use vstd::prelude::*;

use crate::buffer::ConstructionError;
use crate::gate::ClockGate;
use crate::observation::Observation;
use crate::registry::registry_after;
use crate::registry::RegistryError;
use crate::registry::SeriesRegistry;

verus! {

/// Event the host loop delivers to drive the core: each one stands for one
/// scheduling callback, at whatever cadence the host chooses.
#[derive(Debug)]
pub enum Message {
    /// One tick of the host's redraw/poll timer.
    Tick,
}

/// What a tick did: nothing, because no sample was due yet, or one committed
/// batch routed into every series.
#[derive(Clone, Copy, PartialEq, Eq, Structural, Debug)]
pub enum TickOutcome {
    /// The clock gate was not due; no state changed.
    Idle,
    /// A batch was committed: the counter advanced, every series was pushed,
    /// and the clock gate was marked.
    Sampled,
}

/// Why a due tick was abandoned. Either way the tick is atomic: nothing — not
/// the clock gate, not the counter, not one series — is changed, so the sample is
/// retried whole on the next due tick.
#[derive(Clone, Copy, PartialEq, Eq, Structural, Debug)]
pub enum TickError {
    /// The signal source failed to produce a value for some source.
    SamplingFailed,
    /// The batch length disagrees with the established series count.
    SourceCountMismatch,
}

/// True when the signal source produced a value for every source.
pub open spec fn all_present(readings: Seq<Option<u64>>) -> bool {
    forall|i: int| 0 <= i < readings.len() ==> (#[trigger] readings[i]) is Some
}

/// The batch built from a full set of readings: every entry carries the same
/// logical `index`, so the series stay aligned by logical time.
pub open spec fn batch_of(readings: Seq<Option<u64>>, index: i64) -> Seq<Observation> {
    readings.map_values(|v: Option<u64>| (Observation { index, value: v->Some_0 }))
}

/// Turns a full set of readings into the batch they make under `index`, or
/// reports `None` as soon as any reading is missing, so that nothing is
/// committed from a batch with a hole in it.
fn collect_batch(readings: &Vec<Option<u64>>, index: i64) -> (r: Option<Vec<Observation>>)
    ensures
        all_present(readings@) ==> (r matches Some(b) && b@ == batch_of(readings@, index)),
        !all_present(readings@) ==> r is None,
{
    let mut batch: Vec<Observation> = Vec::new();
    let mut i: usize = 0;
    while i < readings.len()
        invariant
            i <= readings@.len(),
            all_present(readings@.take(i as int)),
            batch@ == batch_of(readings@.take(i as int), index),
        decreases readings@.len() - i,
    {
        match readings[i] {
            Some(value) => {
                batch.push(Observation { index, value });
            },
            None => {
                return None;
            },
        }
        i = i + 1;
        proof {
            assert(readings@.take(i as int) =~= readings@.take(i as int - 1).push(
                readings@[i as int - 1],
            ));
            assert(batch@ =~= batch_of(readings@.take(i as int), index));
        }
    }
    proof {
        assert(readings@.take(readings@.len() as int) =~= readings@);
    }
    Some(batch)
}

/// Drives sampling: on each tick it consults the clock gate and, when due,
/// turns the host's readings into one batch under a freshly incremented
/// logical index, routes it into the registry, and marks the clock gate. The host
/// obtains the readings from its signal sources — one optional value per
/// source, `None` where a source failed — and hands them in as plain values.
pub struct Sampler {
    /// Throttles the host's fast tick stream to the sampling cadence.
    gate: ClockGate,
    /// The per-source histories the batches are routed into.
    registry: SeriesRegistry,
    /// Logical index of the last committed batch; the next batch gets one
    /// more. Starts at zero, so the first committed batch carries index 1.
    last_index: i64,
}

impl Sampler {
    /// The clock gate's current state.
    pub closed spec fn gate_spec(self) -> ClockGate {
        self.gate
    }

    /// The retained histories, one per series, each newest first.
    pub closed spec fn history(self) -> Seq<Seq<Observation>> {
        self.registry@
    }

    /// The capacity every series is bounded by.
    pub closed spec fn cap(self) -> int {
        self.registry.cap()
    }

    /// Logical index of the last committed batch.
    pub closed spec fn counter(self) -> i64 {
        self.last_index
    }

    /// Well-formedness: the registry (and so every series) is well-formed,
    /// the shared capacity is positive, and the counter never went negative.
    pub open spec fn wf(self) -> bool {
        self.registry_wf() && 0 < self.cap() && 0 <= self.counter()
    }

    /// The registry part of well-formedness, kept abstract.
    pub closed spec fn registry_wf(self) -> bool {
        self.registry.wf()
    }

    /// The bounded-memory invariant at the sampler's interface: every
    /// retained history fits the shared, positive capacity.
    pub proof fn lemma_wf_bounds(self)
        requires
            self.wf(),
        ensures
            0 < self.cap(),
            forall|i: int|
                0 <= i < self.history().len() ==> (#[trigger] self.history()[i]).len()
                    <= self.cap(),
    {
        self.registry.lemma_wf_bounds();
    }

    /// A sampler that has never sampled: empty registry, gate due at once,
    /// counter at zero. Only a positive capacity is accepted.
    pub fn new(min_interval: u64, capacity: usize) -> (r: Result<Sampler, ConstructionError>)
        ensures
            capacity == 0 ==> r == Err::<Sampler, _>(ConstructionError::ZeroCapacity),
            capacity > 0 ==> (r matches Ok(s) && s.wf() && s.cap() == capacity && s.counter() == 0
                && s.history() =~= Seq::<Seq<Observation>>::empty() && s.gate_spec().last_spec()
                is None && s.gate_spec().interval_spec() == min_interval),
    {
        match SeriesRegistry::new(capacity) {
            Ok(registry) => Ok(
                Sampler { gate: ClockGate::new(min_interval), registry, last_index: 0 },
            ),
            Err(e) => Err(e),
        }
    }

    /// True iff a tick arriving at `now` would commit a sample.
    pub fn is_due(&self, now: u64) -> (due: bool)
        ensures
            due == self.gate_spec().due_spec(now),
    {
        self.gate.is_due(now)
    }

    /// One tick of the host loop. Not due: nothing happens. Due with a full
    /// set of readings of the established length (or with the registry still
    /// empty): the whole batch is committed under the next logical index and
    /// the clock gate is marked at `now`. Due but some reading missing, or the
    /// length off: the tick is abandoned with nothing — gate, counter, or any
    /// series — changed, so it is retried whole on the next due tick.
    pub fn on_tick(&mut self, now: u64, readings: &Vec<Option<u64>>) -> (r: Result<
        TickOutcome,
        TickError,
    >)
        requires
            old(self).wf(),
            old(self).counter() < i64::MAX,
        ensures
            final(self).wf(),
            final(self).cap() == old(self).cap(),
            !old(self).gate_spec().due_spec(now) ==> ({
                &&& r == Ok::<_, TickError>(TickOutcome::Idle)
                &&& *final(self) == *old(self)
            }),
            old(self).gate_spec().due_spec(now) && !all_present(readings@) ==> ({
                &&& r == Err::<TickOutcome, _>(TickError::SamplingFailed)
                &&& *final(self) == *old(self)
            }),
            ({
                &&& old(self).gate_spec().due_spec(now)
                &&& all_present(readings@)
                &&& old(self).history().len() > 0
                &&& readings@.len() != old(self).history().len()
            }) ==> ({
                &&& r == Err::<TickOutcome, _>(TickError::SourceCountMismatch)
                &&& *final(self) == *old(self)
            }),
            ({
                &&& old(self).gate_spec().due_spec(now)
                &&& all_present(readings@)
                &&& (old(self).history().len() == 0 || readings@.len() == old(self).history().len())
            }) ==> ({
                &&& r == Ok::<_, TickError>(TickOutcome::Sampled)
                &&& final(self).counter() == old(self).counter() + 1
                &&& final(self).history() == registry_after(
                    old(self).history(),
                    old(self).cap(),
                    batch_of(readings@, (old(self).counter() + 1) as i64),
                )
                &&& final(self).gate_spec().last_spec() == Some(now)
                &&& final(self).gate_spec().interval_spec() == old(self).gate_spec().interval_spec()
            }),
    {
        if !self.gate.is_due(now) {
            return Ok(TickOutcome::Idle);
        }
        // Collect and validate the whole batch before committing anything, so
        // that a failure leaves every series, the counter and the clock gate as
        // they were.
        let index = self.last_index + 1;
        match collect_batch(readings, index) {
            None => Err(TickError::SamplingFailed),
            Some(batch) => {
                match self.registry.ensure_and_push(&batch) {
                    Ok(()) => {
                        self.last_index = index;
                        self.gate.mark_sampled(now);
                        Ok(TickOutcome::Sampled)
                    },
                    Err(RegistryError::SourceCountMismatch) => Err(TickError::SourceCountMismatch),
                }
            },
        }
    }

    /// Read-only snapshot of the series at `position`, newest first; `None`
    /// while nothing was sampled yet or when `position` is out of range.
    pub fn view_series(&self, position: usize) -> (r: Option<Vec<Observation>>)
        ensures
            position < self.history().len() ==> (r matches Some(v) && v@ == self.history()[
                position as int
            ]),
            position >= self.history().len() ==> r is None,
    {
        self.registry.view_series(position)
    }

    /// The axis range a renderer should show for the series at `position`:
    /// newest index down to one `window` earlier (held up at the machine's
    /// lower bound); `None` for an out-of-range position or an empty series.
    pub fn axis_range(&self, position: usize, window: i64) -> (r: Option<(i64, i64)>)
        requires
            window >= 0,
        ensures
            position >= self.history().len() || self.history().len() > 0 && self.history()[
                position as int
            ].len() == 0 ==> r is None,
            position < self.history().len() && self.history()[position as int].len() > 0 ==> r
                == Some(
                (
                    self.history()[position as int][0].index,
                    crate::buffer::axis_low(self.history()[position as int][0].index, window),
                ),
            ),
    {
        self.registry.axis_range(position, window)
    }

    /// Logical index carried by the last committed batch; zero before any. The
    /// host can read it to keep clear of the counter's machine limit.
    pub fn last_index(&self) -> (n: i64)
        ensures
            n == self.counter(),
    {
        self.last_index
    }

    /// True once the first batch has been committed.
    pub fn is_initialized(&self) -> (r: bool)
        ensures
            r == (self.history().len() > 0),
    {
        self.registry.is_initialized()
    }
}

} // verus!
