//! Timers: one observation on demand, none when forgotten.

use measured::metric_vec::MetricVec;
use measured::{Histogram, SmallIntLabelSpace, Thresholds};

fn bits(x: f64) -> u64 {
    f64::to_bits(x)
}

#[test]
fn timer_observe_records_exactly_one_observation() {
    let t = Thresholds::try_with_buckets(vec![bits(1.0e9)]).unwrap();
    let mut h = Histogram::new_metric(t);
    let timer = h.start_timer();
    let d = timer.observe(&mut h);
    let (buckets, inf, sum) = h.sample();
    assert_eq!(buckets[0] + inf, 1);
    let secs = f64::from_bits(d);
    assert!(secs >= 0.0 && secs < 60.0, "elapsed {secs} out of range");
    assert_eq!(f64::from_bits(sum), secs);
}

#[test]
fn forgotten_timer_records_nothing() {
    let t = Thresholds::try_with_buckets(vec![bits(1.0e9)]).unwrap();
    let mut h = Histogram::new_metric(t);
    let timer = h.start_timer();
    timer.forget();
    let (buckets, inf, sum) = h.sample();
    assert_eq!(buckets[0] + inf, 0);
    assert_eq!(f64::from_bits(sum), 0.0);
}

#[test]
fn vec_timer_records_against_its_label() {
    let space = SmallIntLabelSpace { label_name: b"route".to_vec(), card: 2 };
    let t = Thresholds::try_with_buckets(vec![bits(1.0e9)]).unwrap();
    let mut v = MetricVec::new(space, t);
    let timer = v.start_timer(&1).unwrap();
    let _d = timer.observe(&mut v);
    let id = v.with_labels(&1).unwrap();
    let other = v.with_labels(&0).unwrap();
    let m = v.get_metric(id).unwrap();
    let (buckets, inf, _) = m.inner.sample();
    assert_eq!(buckets[0] + inf, 1);
    let m0 = v.get_metric(other).unwrap();
    let (buckets0, inf0, _) = m0.inner.sample();
    assert_eq!(buckets0[0] + inf0, 0);
}

#[test]
fn vec_timer_needs_a_representable_group() {
    let space = SmallIntLabelSpace { label_name: b"route".to_vec(), card: 2 };
    let t = Thresholds::try_with_buckets(vec![bits(1.0)]).unwrap();
    let v = MetricVec::new(space, t);
    assert!(v.start_timer(&5).is_none());
}
