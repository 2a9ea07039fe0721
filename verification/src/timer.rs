//! Timers: capture a start instant, and turn "time since start" into one
//! histogram observation on demand, or into none at all when forgotten.
//!
//! What the clock returns depends on the moment of the call, so nothing
//! is promised of the measured value itself; what is proved is what one
//! `observe` does to the histogram with whatever value came back.

use vstd::prelude::*;
use rustc_apfloat::Float;
use std::time::Instant;

use crate::histogram::{bucket_index, observe_model, HistogramState};
use crate::label::LabelSpace;
use crate::metric::Metric;
use crate::metric_vec::{LabelId, MetricVec};

verus! {

#[verifier::external_type_specification]
#[verifier::external_body]
pub struct ExInstant(Instant);

/// Relies on `std::time::Instant::now`: a measurement of the monotonic
/// clock.  Nothing is promised of the value.
#[verifier::external_body]
pub fn instant_now() -> (r: Instant) {
    Instant::now()
}

/// Relies on `std::time::Instant::elapsed` and on
/// `rustc_apfloat::ieee::Double` for the nanoseconds-to-seconds division:
/// the time since `since`, in seconds, as an encoded double.  Nothing is
/// promised of the value: it depends on the clock.
#[verifier::external_body]
pub fn seconds_since(since: &Instant) -> (r: u64) {
    let ns = since.elapsed().as_nanos();
    let rounding = rustc_apfloat::Round::NearestTiesToEven;
    let elapsed = rustc_apfloat::ieee::Double::from_u128_r(ns, rounding).value;
    let billion = rustc_apfloat::ieee::Double::from_u128_r(1_000_000_000, rounding).value;
    elapsed.div_r(billion, rounding).value.to_bits() as u64
}

/// A timer over a single histogram: it holds the start instant; the
/// histogram itself is handed back at observation time.
pub struct HistogramTimer {
    pub start: Instant,
}

impl HistogramTimer {
    /// Measure the elapsed time, record it as exactly one observation,
    /// and return the encoded duration in seconds.
    pub fn observe(self, h: &mut Metric<HistogramState>) -> (d: u64)
        requires
            old(h).wf(),
        ensures
            final(h).wf(),
            final(h).metadata == old(h).metadata,
            final(h).metric@ == observe_model(
                old(h).metric@,
                bucket_index(old(h).metadata.le@, d),
                d,
            ),
    {
        let d = seconds_since(&self.start);
        h.observe(d);
        d
    }

    /// Discard the timer: no observation is recorded.
    pub fn forget(self) {
    }
}

/// A timer over one labeled histogram of a vector: it holds the start
/// instant and the label identity; the vector is handed back at
/// observation time.
pub struct HistogramVecTimer {
    pub start: Instant,
    pub id: LabelId,
}

impl HistogramVecTimer {
    /// Measure the elapsed time, record it as exactly one observation
    /// against the timer's label identity, and return the encoded
    /// duration in seconds.
    pub fn observe<L: LabelSpace>(self, v: &mut MetricVec<HistogramState, L>) -> (d: u64)
        requires
            old(v).wf(),
            old(v).label_set.id_ok(self.id.0),
        ensures
            final(v).wf(),
            final(v).metadata == old(v).metadata,
            final(v).label_set == old(v).label_set,
            final(v).stored(self.id.0) == Some(
                observe_model(
                    old(v).stored_or_zero(self.id.0),
                    bucket_index(old(v).metadata.le@, d),
                    d,
                ),
            ),
            forall|k: u64|
                old(v).label_set.id_ok(k) && k != self.id.0 ==> final(v).stored(k) == old(
                    v,
                ).stored(k),
    {
        let d = seconds_since(&self.start);
        v.apply(self.id, d);
        d
    }

    /// Discard the timer: no observation is recorded.
    pub fn forget(self) {
    }
}

impl Metric<HistogramState> {
    /// Start a timer whose observation, if taken, lands in this
    /// histogram.
    pub fn start_timer(&self) -> (t: HistogramTimer) {
        HistogramTimer { start: instant_now() }
    }

    /// Observe the time since `since`, in seconds, and return the
    /// encoded duration.
    pub fn observe_duration_since(&mut self, since: &Instant) -> (d: u64)
        requires
            old(self).wf(),
        ensures
            final(self).wf(),
            final(self).metadata == old(self).metadata,
            final(self).metric@ == observe_model(
                old(self).metric@,
                bucket_index(old(self).metadata.le@, d),
                d,
            ),
    {
        let d = seconds_since(since);
        self.observe(d);
        d
    }
}

impl<L: LabelSpace> MetricVec<HistogramState, L> {
    /// Observe the time since `since`, in seconds, against the histogram
    /// of the given label group, and return the encoded duration.
    pub fn observe_duration_since(&mut self, label: &L::Group, since: &Instant) -> (d: u64)
        requires
            old(self).wf(),
            old(self).label_set.spec_encode(label) is Some,
        ensures
            final(self).wf(),
            final(self).metadata == old(self).metadata,
            final(self).label_set == old(self).label_set,
            ({
                let id = old(self).label_set.spec_encode(label).unwrap();
                final(self).stored(id) == Some(
                    observe_model(
                        old(self).stored_or_zero(id),
                        bucket_index(old(self).metadata.le@, d),
                        d,
                    ),
                )
            }),
    {
        let d = seconds_since(since);
        self.observe(label, d);
        d
    }

    /// Start a timer against the histogram of the given label group;
    /// `None` when the group is not representable.
    pub fn start_timer(&self, label: &L::Group) -> (t: Option<HistogramVecTimer>)
        ensures
            t is Some <==> self.label_set.spec_encode(label) is Some,
            t matches Some(timer) ==> self.label_set.spec_encode(label) == Some(timer.id.0)
                && self.label_set.id_ok(timer.id.0),
    {
        match self.with_labels(label) {
            Some(id) => Some(HistogramVecTimer { start: instant_now(), id }),
            None => None,
        }
    }
}

} // verus!
