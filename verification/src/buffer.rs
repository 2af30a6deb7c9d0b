use vstd::math::min;
use vstd::prelude::*;

use crate::observation::Observation;

verus! {

/// Raised when a series buffer is requested with no room at all: every buffer
/// must be able to hold at least one observation.
#[derive(Clone, Copy, PartialEq, Eq, Structural, Debug)]
pub enum ConstructionError {
    ZeroCapacity,
}

/// `s` cut down to its newest `cap` entries: unchanged while it fits, else the
/// oldest (back) entries are dropped until exactly `cap` remain.
pub open spec fn clamped(s: Seq<Observation>, cap: int) -> Seq<Observation> {
    if s.len() <= cap {
        s
    } else {
        s.take(cap)
    }
}

/// The contents of a buffer holding `s` (newest first) after one push of `o`:
/// `o` enters at the front, then the back is trimmed to the capacity.
pub open spec fn push_model(s: Seq<Observation>, cap: int, o: Observation) -> Seq<Observation> {
    clamped(seq![o] + s, cap)
}

/// The low end of a rendered axis window: one `window` of indices below the
/// newest, held up at the machine's lower bound where the subtraction would
/// leave it.
pub open spec fn axis_low(front: i64, window: i64) -> i64 {
    if front - window >= i64::MIN {
        (front - window) as i64
    } else {
        i64::MIN
    }
}

/// One bounded time series: the retained observations, newest first, with a
/// fixed positive capacity. Each push trims the back until the history fits
/// the capacity again, so after any push at most `capacity` observations are
/// held; only a bulk seed can stand above the capacity, and only until the
/// first push trims it.
pub struct SeriesBuffer {
    /// Maximum number of retained observations; always positive.
    capacity: usize,
    /// Retained observations, front (position 0) = newest.
    obs: Vec<Observation>,
}

impl View for SeriesBuffer {
    type V = Seq<Observation>;

    /// The retained observations, newest first.
    closed spec fn view(&self) -> Seq<Observation> {
        self.obs@
    }
}

impl SeriesBuffer {
    /// The buffer's fixed capacity.
    pub closed spec fn cap(self) -> int {
        self.capacity as int
    }

    /// Well-formedness: a positive capacity. The `len <= capacity` bound is
    /// not part of it: it is tied to mutation, restored by every push, and a
    /// bulk seed may stand above the capacity until the first push.
    pub open spec fn wf(self) -> bool {
        0 < self.cap()
    }

    /// Builds a buffer populated with the whole seed, exactly as handed in
    /// (front = most recent of the seed). A seed longer than the capacity
    /// stays whole until the first push trims it: only pushes evict. Only a
    /// positive capacity is accepted.
    pub fn new(capacity: usize, seed: Vec<Observation>) -> (r: Result<
        SeriesBuffer,
        ConstructionError,
    >)
        ensures
            capacity == 0 ==> r == Err::<SeriesBuffer, _>(ConstructionError::ZeroCapacity),
            capacity > 0 ==> (r matches Ok(b) && b.wf() && b.cap() == capacity && b@ == seed@),
    {
        if capacity == 0 {
            Err(ConstructionError::ZeroCapacity)
        } else {
            Ok(Self::seeded(capacity, seed))
        }
    }

    /// Builds a buffer from a seed when the capacity is already known to be
    /// positive; the registry uses this once the shared capacity is fixed.
    pub(crate) fn seeded(capacity: usize, seed: Vec<Observation>) -> (b: SeriesBuffer)
        requires
            capacity > 0,
        ensures
            b.wf(),
            b.cap() == capacity,
            b@ == seed@,
    {
        SeriesBuffer { capacity, obs: seed }
    }

    /// Inserts `(index, value)` at the front, then trims the back until the
    /// history fits the capacity again: from within the capacity this evicts
    /// at most the single oldest entry; a bulk-seeded history above the
    /// capacity is trimmed down to it.
    pub fn push(&mut self, index: i64, value: u64)
        requires
            old(self).wf(),
        ensures
            final(self).wf(),
            final(self).cap() == old(self).cap(),
            final(self)@ == push_model(old(self)@, old(self).cap(), (Observation { index, value })),
            final(self)@.len() <= final(self).cap(),
    {
        let o = Observation { index, value };
        self.obs.insert(0, o);
        proof {
            assert(self.obs@ =~= seq![o] + old(self)@);
        }
        let ghost grown = self.obs@;
        let cap = self.capacity;
        proof {
            assert(grown.take(grown.len() as int) =~= grown);
        }
        while self.obs.len() > cap
            invariant
                self.capacity == cap,
                self.obs@.len() <= grown.len(),
                self.obs@ == grown.take(self.obs@.len() as int),
                self.obs@.len() >= min(grown.len() as int, cap as int),
            decreases self.obs.len(),
        {
            self.obs.pop();
            proof {
                assert(self.obs@ =~= grown.take(self.obs@.len() as int));
            }
        }
        proof {
            assert(self@ =~= push_model(old(self)@, old(self).cap(), o));
        }
    }

    /// Number of retained observations.
    pub fn len(&self) -> (n: usize)
        ensures
            n == self@.len(),
    {
        self.obs.len()
    }

    /// The buffer's fixed capacity, as handed to `new`.
    pub fn capacity(&self) -> (c: usize)
        ensures
            c == self.cap(),
    {
        self.capacity
    }

    /// The horizontal axis range a renderer should show: from the newest index
    /// down to the index one `window` earlier, the span a scrolling chart
    /// draws front-to-back. `None` while the buffer is empty. Reading it never
    /// mutates the buffer.
    pub fn axis_range(&self, window: i64) -> (r: Option<(i64, i64)>)
        requires
            window >= 0,
        ensures
            self@.len() == 0 ==> r is None,
            self@.len() > 0 ==> r == Some(
                (self@[0].index, axis_low(self@[0].index, window)),
            ),
    {
        if self.obs.len() == 0 {
            None
        } else {
            let front = self.obs[0].index;
            let low = match front.checked_sub(window) {
                Some(v) => v,
                None => i64::MIN,
            };
            Some((front, low))
        }
    }

    /// Read-only copy of the retained observations, front (newest) to back
    /// (oldest).
    pub fn snapshot(&self) -> (r: Vec<Observation>)
        ensures
            r@ == self@,
    {
        let mut r: Vec<Observation> = Vec::new();
        let mut i: usize = 0;
        while i < self.obs.len()
            invariant
                i <= self.obs@.len(),
                r@ == self.obs@.take(i as int),
            decreases self.obs@.len() - i,
        {
            r.push(self.obs[i]);
            i = i + 1;
            proof {
                assert(r@ =~= self.obs@.take(i as int));
            }
        }
        proof {
            assert(r@ =~= self@);
        }
        r
    }
}

/// The history reached from an empty buffer of capacity `cap` by pushing the
/// entries of `pushes` in order (oldest push first).
pub open spec fn pushed_all(cap: int, pushes: Seq<Observation>) -> Seq<Observation>
    decreases pushes.len(),
{
    if pushes.len() == 0 {
        Seq::empty()
    } else {
        push_model(pushed_all(cap, pushes.drop_last()), cap, pushes.last())
    }
}

/// Law: starting from an empty buffer with capacity `cap > 0`, after any
/// sequence of `n` pushes the buffer holds exactly `min(n, cap)` observations.
pub proof fn lemma_push_count(cap: int, pushes: Seq<Observation>)
    requires
        0 < cap,
    ensures
        pushed_all(cap, pushes).len() == min(pushes.len() as int, cap),
    decreases pushes.len(),
{
    if pushes.len() > 0 {
        lemma_push_count(cap, pushes.drop_last());
    }
}

/// True when the indices strictly decrease from front (newest) to back
/// (oldest), as they do under strictly increasing pushes.
pub open spec fn indices_decreasing(s: Seq<Observation>) -> bool {
    forall|i: int, j: int| 0 <= i < j < s.len() ==> s[j].index < s[i].index
}

/// Law: pushing an observation newer than the current front keeps the history
/// ordered newest-to-oldest.
pub proof fn lemma_push_keeps_order(s: Seq<Observation>, cap: int, o: Observation)
    requires
        0 < cap,
        indices_decreasing(s),
        s.len() > 0 ==> s[0].index < o.index,
    ensures
        indices_decreasing(push_model(s, cap, o)),
{
}

/// Law: when a push overflows a full, newest-to-oldest ordered buffer, the
/// entry evicted is the back one, and its index is the smallest of all indices
/// held before the push — the oldest observation, never any other.
pub proof fn lemma_eviction_oldest(s: Seq<Observation>, cap: int, o: Observation)
    requires
        0 < cap,
        s.len() == cap,
        indices_decreasing(s),
    ensures
        push_model(s, cap, o) == seq![o] + s.drop_last(),
        forall|i: int| 0 <= i < s.len() ==> s.last().index <= s[i].index,
{
    assert(push_model(s, cap, o) =~= seq![o] + s.drop_last());
}

} // verus!
