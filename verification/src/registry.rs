use vstd::prelude::*;

use crate::buffer::push_model;
use crate::buffer::ConstructionError;
use crate::buffer::SeriesBuffer;
use crate::observation::Observation;

verus! {

/// Raised when a later batch's length disagrees with the series count fixed by
/// the first batch: a source-count change this design does not support.
#[derive(Clone, Copy, PartialEq, Eq, Structural, Debug)]
pub enum RegistryError {
    SourceCountMismatch,
}

/// The histories after routing `batch` into a registry that held `views`:
/// an empty registry grows one singleton series per batch entry; an
/// initialized one pushes `batch[i]` into series `i`.
pub open spec fn registry_after(
    views: Seq<Seq<Observation>>,
    cap: int,
    batch: Seq<Observation>,
) -> Seq<Seq<Observation>> {
    if views.len() == 0 {
        batch.map_values(|o: Observation| seq![o])
    } else {
        views.map(|i: int, s: Seq<Observation>| push_model(s, cap, batch[i]))
    }
}

/// Owns one bounded series per signal source. The series are created lazily,
/// one per entry of the first batch routed in; from then on the series count
/// is fixed and every batch must match it. All series share one capacity.
pub struct SeriesRegistry {
    /// Capacity handed to every series buffer; always positive.
    capacity: usize,
    /// One buffer per signal source, in first-batch order.
    series: Vec<SeriesBuffer>,
}

impl View for SeriesRegistry {
    type V = Seq<Seq<Observation>>;

    /// The retained histories, one per series, each newest first.
    closed spec fn view(&self) -> Seq<Seq<Observation>> {
        self.series@.map_values(|b: SeriesBuffer| b@)
    }
}

impl SeriesRegistry {
    /// The capacity every series buffer is built with.
    pub closed spec fn cap(self) -> int {
        self.capacity as int
    }

    /// Well-formedness: positive capacity, every series built with it and
    /// holding no more than it — the registry only ever seeds singletons and
    /// pushes, so its series never stand above the capacity.
    pub closed spec fn wf(self) -> bool {
        &&& 0 < self.cap()
        &&& forall|i: int|
            0 <= i < self.series@.len() ==> (#[trigger] self.series@[i]).wf()
                && self.series@[i].cap() == self.cap() && self.series@[i]@.len() <= self.cap()
    }

    /// The bounded-memory invariant, exposed from the otherwise hidden
    /// well-formedness: at all times every retained history fits the shared
    /// capacity.
    pub proof fn lemma_wf_bounds(self)
        requires
            self.wf(),
        ensures
            0 < self.cap(),
            forall|i: int| 0 <= i < self@.len() ==> (#[trigger] self@[i]).len() <= self.cap(),
    {
    }

    /// An empty registry whose future series will all get `capacity`. Only a
    /// positive capacity is accepted.
    pub fn new(capacity: usize) -> (r: Result<SeriesRegistry, ConstructionError>)
        ensures
            capacity == 0 ==> r == Err::<SeriesRegistry, _>(ConstructionError::ZeroCapacity),
            capacity > 0 ==> (r matches Ok(reg) && reg.wf() && reg.cap() == capacity
                && reg@ =~= Seq::<Seq<Observation>>::empty()),
    {
        if capacity == 0 {
            Err(ConstructionError::ZeroCapacity)
        } else {
            Ok(SeriesRegistry { capacity, series: Vec::new() })
        }
    }

    /// True once the first batch has created at least one series.
    pub fn is_initialized(&self) -> (r: bool)
        ensures
            r == (self@.len() > 0),
    {
        self.series.len() > 0
    }

    /// Number of tracked series; zero before initialization.
    pub fn series_count(&self) -> (n: usize)
        ensures
            n == self@.len(),
    {
        self.series.len()
    }

    /// Routes one batch, one observation per source position. On the first
    /// call the batch's entries found the series, one each, in batch order; on
    /// every later call entry `i` is pushed into series `i`, provided the
    /// batch length equals the series count. A mismatched length on a later
    /// call changes nothing and reports `SourceCountMismatch`.
    pub fn ensure_and_push(&mut self, batch: &Vec<Observation>) -> (r: Result<(), RegistryError>)
        requires
            old(self).wf(),
        ensures
            final(self).wf(),
            final(self).cap() == old(self).cap(),
            old(self)@.len() == 0 || batch@.len() == old(self)@.len() ==> (r == Ok::<
                _,
                RegistryError,
            >(()) && final(self)@ == registry_after(old(self)@, old(self).cap(), batch@)),
            old(self)@.len() > 0 && batch@.len() != old(self)@.len() ==> (r == Err::<(), _>(
                RegistryError::SourceCountMismatch,
            ) && *final(self) == *old(self)),
    {
        if self.series.len() == 0 {
            let mut i: usize = 0;
            while i < batch.len()
                invariant
                    i <= batch@.len(),
                    self.capacity == old(self).capacity,
                    0 < self.capacity,
                    self.series@.len() == i,
                    forall|j: int|
                        0 <= j < i ==> (#[trigger] self.series@[j]).wf() && self.series@[j].cap()
                            == self.capacity && self.series@[j]@ == seq![batch@[j]]
                            && self.series@[j]@.len() <= self.capacity,
                decreases batch@.len() - i,
            {
                let mut seed: Vec<Observation> = Vec::new();
                seed.push(batch[i]);
                let b = SeriesBuffer::seeded(self.capacity, seed);
                proof {
                    assert(b@ =~= seq![batch@[i as int]]);
                }
                self.series.push(b);
                i = i + 1;
            }
            proof {
                assert(self@ =~= registry_after(old(self)@, old(self).cap(), batch@));
            }
            Ok(())
        } else if batch.len() != self.series.len() {
            Err(RegistryError::SourceCountMismatch)
        } else {
            let mut i: usize = 0;
            while i < self.series.len()
                invariant
                    i <= self.series@.len(),
                    self.capacity == old(self).capacity,
                    batch@.len() == self.series@.len(),
                    self.series@.len() == old(self).series@.len(),
                    forall|j: int|
                        0 <= j < self.series@.len() ==> (#[trigger] self.series@[j]).wf()
                            && self.series@[j].cap() == self.capacity && self.series@[j]@.len()
                            <= self.capacity,
                    forall|j: int|
                        i <= j < self.series@.len() ==> (#[trigger] self.series@[j])
                            == old(self).series@[j],
                    forall|j: int|
                        0 <= j < i ==> (#[trigger] self.series@[j])@ == push_model(
                            old(self)@[j],
                            self.capacity as int,
                            batch@[j],
                        ),
                decreases self.series@.len() - i,
            {
                let o = batch[i];
                self.series[i].push(o.index, o.value);
                i = i + 1;
            }
            proof {
                assert(self@ =~= registry_after(old(self)@, old(self).cap(), batch@));
            }
            Ok(())
        }
    }

    /// The axis range a renderer should show for the series at `position`:
    /// newest index down to one `window` earlier (held up at the machine's
    /// lower bound); `None` for an out-of-range position or an empty series.
    pub fn axis_range(&self, position: usize, window: i64) -> (r: Option<(i64, i64)>)
        requires
            window >= 0,
        ensures
            position >= self@.len() || self@.len() > 0 && self@[position as int].len() == 0 ==> r
                is None,
            position < self@.len() && self@[position as int].len() > 0 ==> r == Some(
                (
                    self@[position as int][0].index,
                    crate::buffer::axis_low(self@[position as int][0].index, window),
                ),
            ),
    {
        if position < self.series.len() {
            self.series[position].axis_range(window)
        } else {
            None
        }
    }

    /// Read-only snapshot of the series at `position`, newest first; `None`
    /// while the registry is uninitialized or when `position` is out of range.
    pub fn view_series(&self, position: usize) -> (r: Option<Vec<Observation>>)
        ensures
            position < self@.len() ==> (r matches Some(v) && v@ == self@[position as int]),
            position >= self@.len() ==> r is None,
    {
        if position < self.series.len() {
            Some(self.series[position].snapshot())
        } else {
            None
        }
    }
}

/// Law: after any successful routing of a batch whose entries all carry one
/// shared index, every series' front (newest) observation carries that index —
/// the series stay aligned by logical time.
pub proof fn lemma_front_alignment(
    views: Seq<Seq<Observation>>,
    cap: int,
    batch: Seq<Observation>,
)
    requires
        0 < cap,
        batch.len() > 0,
        views.len() == 0 || batch.len() == views.len(),
        forall|i: int| 0 <= i < batch.len() ==> (#[trigger] batch[i]).index == batch[0].index,
    ensures
        registry_after(views, cap, batch).len() > 0,
        forall|i: int|
            0 <= i < registry_after(views, cap, batch).len() ==> (#[trigger] registry_after(
                views,
                cap,
                batch,
            )[i]).len() > 0 && registry_after(views, cap, batch)[i][0].index == batch[0].index,
{
    let after = registry_after(views, cap, batch);
    assert forall|i: int| 0 <= i < after.len() implies (#[trigger] after[i]).len() > 0
        && after[i][0].index == batch[0].index by {
        if views.len() == 0 {
            assert(after[i] == seq![batch[i]]);
        } else {
            assert(after[i] == push_model(views[i], cap, batch[i]));
            assert(after[i][0] == batch[i]);
        }
    }
}

} // verus!
