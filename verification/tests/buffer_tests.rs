use sound_simulator::buffer::ConstructionError;
use sound_simulator::buffer::SeriesBuffer;
use sound_simulator::observation::Observation;

fn obs(index: i64, value: f64) -> Observation {
    Observation { index, value: value.to_bits() }
}

#[test]
fn zero_capacity_rejected_at_construction() {
    let r = SeriesBuffer::new(0, Vec::new());
    assert_eq!(r.err(), Some(ConstructionError::ZeroCapacity));
}

#[test]
fn starts_empty_without_seed() {
    let b = SeriesBuffer::new(3, Vec::new()).unwrap();
    assert_eq!(b.len(), 0);
    assert_eq!(b.snapshot(), Vec::new());
}

#[test]
fn seed_populates_front_first() {
    let seed = vec![obs(2, 20.0), obs(1, 10.0)];
    let b = SeriesBuffer::new(3, seed.clone()).unwrap();
    assert_eq!(b.snapshot(), seed);
}

#[test]
fn bulk_seed_kept_whole_until_first_push() {
    let seed = vec![obs(4, 40.0), obs(3, 30.0), obs(2, 20.0), obs(1, 10.0)];
    let mut b = SeriesBuffer::new(2, seed.clone()).unwrap();
    // the whole seed populates the buffer; only pushes evict
    assert_eq!(b.snapshot(), seed);
    assert_eq!(b.len(), 4);
    b.push(5, (50.0f64).to_bits());
    // one push restores the capacity bound, trimming the oldest entries
    assert_eq!(b.snapshot(), vec![obs(5, 50.0), obs(4, 40.0)]);
}

#[test]
fn scenario_capacity_three_four_pushes() {
    // capacity = 3; pushes (1,10.0),(2,20.0),(3,30.0),(4,40.0)
    let mut b = SeriesBuffer::new(3, Vec::new()).unwrap();
    b.push(1, (10.0f64).to_bits());
    b.push(2, (20.0f64).to_bits());
    b.push(3, (30.0f64).to_bits());
    b.push(4, (40.0f64).to_bits());
    let snap = b.snapshot();
    assert_eq!(snap, vec![obs(4, 40.0), obs(3, 30.0), obs(2, 20.0)]);
}

#[test]
fn length_is_min_of_pushes_and_capacity() {
    // after each of n pushes, len == min(n, c) with c = 3
    let mut b = SeriesBuffer::new(3, Vec::new()).unwrap();
    for n in 1..10i64 {
        b.push(n, (n as f64).to_bits());
        assert_eq!(b.len(), (n as usize).min(3));
        assert_eq!(b.snapshot().len(), (n as usize).min(3));
    }
}

#[test]
fn eviction_removes_smallest_index() {
    let mut b = SeriesBuffer::new(2, Vec::new()).unwrap();
    b.push(10, 1);
    b.push(11, 2);
    // full: the next push must evict index 10, the smallest held, no other
    b.push(12, 3);
    let snap = b.snapshot();
    assert_eq!(snap.len(), 2);
    assert!(snap.iter().all(|o| o.index != 10));
    assert_eq!(snap, vec![Observation { index: 12, value: 3 }, Observation { index: 11, value: 2 }]);
}

#[test]
fn values_returned_exactly_as_given() {
    let mut b = SeriesBuffer::new(4, Vec::new()).unwrap();
    let exact = [0.1f64, -0.0, f64::MAX, 1.0 / 3.0];
    for (i, v) in exact.iter().enumerate() {
        b.push(i as i64, v.to_bits());
    }
    let snap = b.snapshot();
    for (k, v) in exact.iter().rev().enumerate() {
        let got = f64::from_bits(snap[k].value);
        assert_eq!(got.to_bits(), v.to_bits());
    }
}

#[test]
fn capacity_is_reported_as_given() {
    let b = SeriesBuffer::new(7, Vec::new()).unwrap();
    assert_eq!(b.capacity(), 7);
}

#[test]
fn axis_range_spans_one_window_back_from_newest() {
    let mut b = SeriesBuffer::new(3, Vec::new()).unwrap();
    assert_eq!(b.axis_range(100), None);
    b.push(1, (10.0f64).to_bits());
    b.push(2, (20.0f64).to_bits());
    b.push(3, (30.0f64).to_bits());
    b.push(4, (40.0f64).to_bits());
    assert_eq!(b.axis_range(100), Some((4, -96)));
    assert_eq!(b.axis_range(0), Some((4, 4)));
}

#[test]
fn axis_range_saturates_at_the_machine_floor() {
    let mut b = SeriesBuffer::new(2, Vec::new()).unwrap();
    b.push(i64::MIN + 5, 0);
    assert_eq!(b.axis_range(100), Some((i64::MIN + 5, i64::MIN)));
}

#[test]
fn capacity_one_holds_only_newest() {
    let mut b = SeriesBuffer::new(1, Vec::new()).unwrap();
    b.push(1, 100);
    b.push(2, 200);
    assert_eq!(b.snapshot(), vec![Observation { index: 2, value: 200 }]);
}
