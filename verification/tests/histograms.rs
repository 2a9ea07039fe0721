//! Thresholds, histogram observation, and sampling.

use measured::{Histogram, Thresholds};

fn bits(x: f64) -> u64 {
    f64::to_bits(x)
}

#[test]
fn exponential_buckets_double_each_step() {
    let t = Thresholds::try_exponential_buckets(bits(1.0), bits(2.0), 4).unwrap();
    let expected: Vec<u64> = vec![bits(1.0), bits(2.0), bits(4.0), bits(8.0)];
    assert_eq!(t.get(), &expected);
}

#[test]
fn exponential_buckets_reject_bad_parameters() {
    assert!(Thresholds::try_exponential_buckets(bits(0.0), bits(2.0), 4).is_none());
    assert!(Thresholds::try_exponential_buckets(bits(-1.0), bits(2.0), 4).is_none());
    assert!(Thresholds::try_exponential_buckets(bits(1.0), bits(1.0), 4).is_none());
    assert!(Thresholds::try_exponential_buckets(bits(1.0), bits(0.5), 4).is_none());
    assert!(Thresholds::try_exponential_buckets(f64::to_bits(f64::NAN), bits(2.0), 4).is_none());
}

#[test]
fn linear_buckets_step_by_width() {
    let t = Thresholds::try_linear_buckets(bits(0.0), bits(5.0), 3).unwrap();
    let expected: Vec<u64> = vec![bits(0.0), bits(5.0), bits(10.0)];
    assert_eq!(t.get(), &expected);
}

#[test]
fn linear_buckets_reject_nonpositive_width() {
    assert!(Thresholds::try_linear_buckets(bits(0.0), bits(0.0), 3).is_none());
    assert!(Thresholds::try_linear_buckets(bits(0.0), bits(-2.0), 3).is_none());
}

#[test]
fn explicit_buckets_must_increase() {
    assert!(Thresholds::try_with_buckets(vec![bits(5.0), bits(3.0)]).is_none());
    assert!(Thresholds::try_with_buckets(vec![bits(3.0), bits(3.0)]).is_none());
    assert!(Thresholds::try_with_buckets(vec![bits(3.0), bits(5.0)]).is_some());
}

#[test]
fn explicit_buckets_must_be_finite() {
    assert!(Thresholds::try_with_buckets(vec![bits(1.0), f64::to_bits(f64::INFINITY)]).is_none());
    assert!(Thresholds::try_with_buckets(vec![f64::to_bits(f64::NAN)]).is_none());
}

#[test]
fn observations_land_in_their_buckets() {
    let t = Thresholds::try_with_buckets(vec![bits(1.0), bits(5.0)]).unwrap();
    let mut h = Histogram::new_metric(t);
    h.observe(bits(0.5));
    h.observe(bits(1.0));
    h.observe(bits(3.0));
    h.observe(bits(10.0));
    let (buckets, inf, sum) = h.sample();
    assert_eq!(buckets, vec![2, 1]);
    assert_eq!(inf, 1);
    assert_eq!(f64::from_bits(sum), 14.5);
}

#[test]
fn bucket_bounds_are_inclusive() {
    let t = Thresholds::try_with_buckets(vec![bits(2.0)]).unwrap();
    let mut h = Histogram::new_metric(t);
    h.observe(bits(2.0));
    let (buckets, inf, _) = h.sample();
    assert_eq!(buckets, vec![1]);
    assert_eq!(inf, 0);
}

#[test]
fn sum_is_the_ieee_sum_of_observations() {
    let t = Thresholds::try_with_buckets(vec![bits(100.0)]).unwrap();
    let mut h = Histogram::new_metric(t);
    h.observe(bits(1.5));
    h.observe(bits(2.25));
    h.observe(bits(0.125));
    let (_, _, sum) = h.sample();
    assert_eq!(f64::from_bits(sum), 1.5 + 2.25 + 0.125);
}

#[test]
fn negative_observations_order_correctly() {
    let t = Thresholds::try_with_buckets(vec![bits(-1.0), bits(1.0)]).unwrap();
    let mut h = Histogram::new_metric(t);
    h.observe(bits(-2.0));
    h.observe(bits(0.0));
    h.observe(bits(2.0));
    let (buckets, inf, _) = h.sample();
    assert_eq!(buckets, vec![1, 1]);
    assert_eq!(inf, 1);
}

#[test]
fn metric_ref_samples_the_same_state() {
    let t = Thresholds::try_with_buckets(vec![bits(1.0)]).unwrap();
    let mut h = Histogram::new_metric(t);
    h.observe(bits(0.5));
    let r = h.get_metric();
    let (buckets, inf, sum) = r.sample();
    assert_eq!(buckets, vec![1]);
    assert_eq!(inf, 0);
    assert_eq!(f64::from_bits(sum), 0.5);
}

#[test]
fn empty_histogram_samples_to_zero() {
    let t = Thresholds::try_with_buckets(vec![bits(1.0)]).unwrap();
    let h = Histogram::new_metric(t);
    let (buckets, inf, sum) = h.sample();
    assert_eq!(buckets, vec![0]);
    assert_eq!(inf, 0);
    assert_eq!(f64::from_bits(sum), 0.0);
}

#[test]
fn cumulative_counts_match_independent_counting() {
    let bounds = [0.5f64, 1.5, 2.5, 5.0];
    let t = Thresholds::try_with_buckets(bounds.iter().map(|b| bits(*b)).collect()).unwrap();
    let mut h = Histogram::new_metric(t);
    let values = [0.1f64, 0.5, 0.6, 1.5, 2.0, 2.5, 3.0, 7.0, 100.0, 0.5];
    for v in values {
        h.observe(bits(v));
    }
    let (buckets, inf, sum) = h.sample();
    let mut cumulative: u64 = 0;
    for (i, b) in bounds.iter().enumerate() {
        cumulative += buckets[i];
        let expected = values.iter().filter(|v| **v <= *b).count() as u64;
        assert_eq!(cumulative, expected, "cumulative count at bound {b}");
    }
    assert_eq!(cumulative + inf, values.len() as u64);
    assert_eq!(f64::from_bits(sum), values.iter().sum::<f64>());
}
