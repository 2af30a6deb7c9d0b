use vstd::prelude::*;

verus! {

/// One sample for one series: a logical time index paired with the sampled
/// value.
///
/// The index is a logical counter shared by every series filled on the same
/// tick, not a wall-clock timestamp. The value is carried as an opaque 64-bit
/// encoding chosen by the host (for example the raw bits of a floating-point
/// reading); the core stores and returns it exactly as given and never
/// interprets it.
#[derive(Clone, Copy, PartialEq, Eq, Structural, Debug)]
pub struct Observation {
    /// Logical position in the sample stream; strictly increasing across the
    /// pushes coming from one source.
    pub index: i64,
    /// The sampled value, encoded by the host; stored exactly as given.
    pub value: u64,
}

} // verus!
