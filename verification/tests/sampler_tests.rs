use sound_simulator::buffer::ConstructionError;
use sound_simulator::observation::Observation;
use sound_simulator::sampler::Sampler;
use sound_simulator::sampler::TickError;
use sound_simulator::sampler::TickOutcome;

fn readings(values: &[f64]) -> Vec<Option<u64>> {
    values.iter().map(|v| Some(v.to_bits())).collect()
}

fn obs(index: i64, value: f64) -> Observation {
    Observation { index, value: value.to_bits() }
}

#[test]
fn sampler_zero_capacity_rejected() {
    let r = Sampler::new(10, 0);
    assert_eq!(r.err(), Some(ConstructionError::ZeroCapacity));
}

#[test]
fn first_due_tick_founds_series_with_index_one() {
    let mut s = Sampler::new(10, 100).unwrap();
    assert!(!s.is_initialized());
    let r = s.on_tick(0, &readings(&[10.0, 20.0]));
    assert_eq!(r, Ok(TickOutcome::Sampled));
    assert!(s.is_initialized());
    assert_eq!(s.view_series(0), Some(vec![obs(1, 10.0)]));
    assert_eq!(s.view_series(1), Some(vec![obs(1, 20.0)]));
}

#[test]
fn tick_before_interval_is_idle() {
    let mut s = Sampler::new(10, 100).unwrap();
    s.on_tick(0, &readings(&[10.0])).unwrap();
    let r = s.on_tick(5, &readings(&[99.0]));
    assert_eq!(r, Ok(TickOutcome::Idle));
    // nothing was committed: the history still holds only the first batch
    assert_eq!(s.view_series(0), Some(vec![obs(1, 10.0)]));
}

#[test]
fn due_ticks_share_one_incremented_index_per_batch() {
    let mut s = Sampler::new(10, 100).unwrap();
    s.on_tick(0, &readings(&[1.0, 2.0, 3.0])).unwrap();
    s.on_tick(11, &readings(&[4.0, 5.0, 6.0])).unwrap();
    s.on_tick(22, &readings(&[7.0, 8.0, 9.0])).unwrap();
    for p in 0..3 {
        let snap = s.view_series(p).unwrap();
        let fronts: Vec<i64> = snap.iter().map(|o| o.index).collect();
        assert_eq!(fronts, vec![3, 2, 1]);
    }
}

#[test]
fn failed_source_abandons_the_whole_tick() {
    // one missing reading: no series mutated, gate not marked
    let mut s = Sampler::new(10, 100).unwrap();
    s.on_tick(0, &readings(&[1.0, 2.0])).unwrap();
    let mut partial = readings(&[3.0, 4.0]);
    partial[1] = None;
    let r = s.on_tick(11, &partial);
    assert_eq!(r, Err(TickError::SamplingFailed));
    assert_eq!(s.view_series(0), Some(vec![obs(1, 1.0)]));
    assert_eq!(s.view_series(1), Some(vec![obs(1, 2.0)]));
    // the clock gate still answers "due" at the same instant: the tick is retried whole
    assert!(s.is_due(11));
    let r2 = s.on_tick(11, &readings(&[3.0, 4.0]));
    assert_eq!(r2, Ok(TickOutcome::Sampled));
    assert_eq!(s.view_series(1), Some(vec![obs(2, 4.0), obs(1, 2.0)]));
}

#[test]
fn count_mismatch_abandons_the_whole_tick() {
    let mut s = Sampler::new(10, 100).unwrap();
    s.on_tick(0, &readings(&[1.0, 2.0, 3.0])).unwrap();
    let r = s.on_tick(11, &readings(&[4.0, 5.0]));
    assert_eq!(r, Err(TickError::SourceCountMismatch));
    for p in 0..3 {
        assert_eq!(s.view_series(p).unwrap().len(), 1);
    }
    assert!(s.is_due(11));
}

#[test]
fn failed_tick_does_not_advance_the_index() {
    let mut s = Sampler::new(10, 100).unwrap();
    s.on_tick(0, &readings(&[1.0])).unwrap();
    let none_batch: Vec<Option<u64>> = vec![None];
    assert_eq!(s.on_tick(11, &none_batch), Err(TickError::SamplingFailed));
    s.on_tick(11, &readings(&[2.0])).unwrap();
    // the second committed batch carries index 2, not 3
    assert_eq!(s.view_series(0), Some(vec![obs(2, 2.0), obs(1, 1.0)]));
}

#[test]
fn history_is_bounded_by_capacity() {
    let mut s = Sampler::new(10, 3).unwrap();
    let mut t: u64 = 0;
    for v in 0..5 {
        let r = s.on_tick(t, &readings(&[v as f64]));
        assert_eq!(r, Ok(TickOutcome::Sampled));
        t += 11;
    }
    let snap = s.view_series(0).unwrap();
    assert_eq!(snap, vec![obs(5, 4.0), obs(4, 3.0), obs(3, 2.0)]);
}

#[test]
fn axis_range_follows_the_newest_index() {
    let mut s = Sampler::new(10, 100).unwrap();
    assert_eq!(s.axis_range(0, 100), None);
    s.on_tick(0, &readings(&[1.0])).unwrap();
    s.on_tick(11, &readings(&[2.0])).unwrap();
    assert_eq!(s.axis_range(0, 100), Some((2, -98)));
    assert_eq!(s.axis_range(1, 100), None);
}

#[test]
fn view_out_of_range_is_none() {
    let mut s = Sampler::new(10, 3).unwrap();
    assert_eq!(s.view_series(0), None);
    s.on_tick(0, &readings(&[1.0])).unwrap();
    assert_eq!(s.view_series(1), None);
}
