//! The metric-kind capability: what storage and collection need of a
//! metric's mutable state, and the single unlabeled metric built on it.

use vstd::prelude::*;

use crate::counter::{counter_add, CounterState};
use crate::histogram::{
    bucket_index, observe_model, zero_model, HistogramModel, HistogramState, Thresholds,
};

verus! {

/// The capability a metric kind offers storage: default-constructible
/// state with an abstract value, and a single update operation, driven by
/// one 64-bit operand (the increment for a counter, the encoded observed
/// value for a histogram), whose effect on the abstract value is exact.
pub trait MetricType: Sized + View {
    /// The immutable per-metric metadata (for example, a histogram's
    /// thresholds).
    type Metadata;

    /// Whether the metadata itself is acceptable.
    spec fn meta_wf(meta: &Self::Metadata) -> bool;

    /// Whether this state is consistent with the metadata it was built
    /// against.
    spec fn wf(&self, meta: &Self::Metadata) -> bool;

    /// The abstract value of a fresh state.
    spec fn zero_view(meta: &Self::Metadata) -> Self::V;

    /// The abstract value after one update.
    spec fn apply_view(v: Self::V, meta: &Self::Metadata, op: u64) -> Self::V;

    /// A fresh state.
    fn new_state(meta: &Self::Metadata) -> (s: Self)
        requires
            Self::meta_wf(meta),
        ensures
            s.wf(meta),
            s@ == Self::zero_view(meta),
    ;

    /// Perform one update.
    fn apply(&mut self, meta: &Self::Metadata, op: u64)
        requires
            Self::meta_wf(meta),
            old(self).wf(meta),
        ensures
            final(self).wf(meta),
            final(self)@ == Self::apply_view(old(self)@, meta, op),
    ;
}

impl View for CounterState {
    type V = u64;

    open spec fn view(&self) -> u64 {
        self.count
    }
}

impl MetricType for CounterState {
    type Metadata = ();

    open spec fn meta_wf(meta: &()) -> bool {
        true
    }

    open spec fn wf(&self, meta: &()) -> bool {
        true
    }

    open spec fn zero_view(meta: &()) -> u64 {
        0u64
    }

    open spec fn apply_view(v: u64, meta: &(), op: u64) -> u64 {
        counter_add(v, op)
    }

    fn new_state(meta: &()) -> (s: Self) {
        CounterState::new()
    }

    fn apply(&mut self, meta: &(), op: u64) {
        self.inc_by(op);
    }
}

impl MetricType for HistogramState {
    type Metadata = Thresholds;

    open spec fn meta_wf(meta: &Thresholds) -> bool {
        meta.wf()
    }

    open spec fn wf(&self, meta: &Thresholds) -> bool {
        self@.buckets.len() == meta.le@.len()
    }

    open spec fn zero_view(meta: &Thresholds) -> HistogramModel {
        zero_model(meta.le@.len())
    }

    open spec fn apply_view(v: HistogramModel, meta: &Thresholds, op: u64) -> HistogramModel {
        observe_model(v, bucket_index(meta.le@, op), op)
    }

    fn new_state(meta: &Thresholds) -> (s: Self) {
        let s = HistogramState::new(meta.len());
        proof {
            assert(s@ =~= Self::zero_view(meta));
        }
        s
    }

    fn apply(&mut self, meta: &Thresholds, op: u64) {
        self.observe(meta, op);
    }
}

/// A single (unlabeled) metric: one state value plus its metadata.
pub struct Metric<M: MetricType> {
    pub metric: M,
    pub metadata: M::Metadata,
}

/// A scoped read-only reference to a metric's state and metadata.
pub struct MetricRef<'a, M: MetricType>(pub &'a M, pub &'a M::Metadata);

/// A single counter metric.
pub type Counter = Metric<CounterState>;

/// A read-only reference to a counter's state.
pub type CounterRef<'a> = MetricRef<'a, CounterState>;

/// A single histogram metric.
pub type Histogram = Metric<HistogramState>;

/// A read-only reference to a histogram's state.
pub type HistogramRef<'a> = MetricRef<'a, HistogramState>;

impl<M: MetricType> Metric<M> {
    /// Whether the metric's state is consistent with its metadata.
    pub open spec fn wf(&self) -> bool {
        M::meta_wf(&self.metadata) && self.metric.wf(&self.metadata)
    }

    /// Create a metric with a fresh state.
    pub fn new_metric(metadata: M::Metadata) -> (r: Self)
        requires
            M::meta_wf(&metadata),
        ensures
            r.wf(),
            r.metadata == metadata,
            r.metric@ == M::zero_view(&metadata),
    {
        let metric = M::new_state(&metadata);
        Metric { metric, metadata }
    }

    /// A read-only reference to the state and metadata.
    pub fn get_metric(&self) -> (r: MetricRef<'_, M>)
        ensures
            *r.0 == self.metric,
            *r.1 == self.metadata,
    {
        MetricRef(&self.metric, &self.metadata)
    }

    /// Perform one update on the metric's state.
    pub fn apply(&mut self, op: u64)
        requires
            old(self).wf(),
        ensures
            final(self).wf(),
            final(self).metadata == old(self).metadata,
            final(self).metric@ == M::apply_view(old(self).metric@, &old(self).metadata, op),
    {
        self.metric.apply(&self.metadata, op);
    }
}

impl Metric<CounterState> {
    /// Add one to the counter.
    pub fn inc(&mut self)
        ensures
            final(self).metric.count == counter_add(old(self).metric.count, 1),
            final(self).metadata == old(self).metadata,
    {
        self.metric.inc();
    }

    /// Add `x` to the counter.
    pub fn inc_by(&mut self, x: u64)
        ensures
            final(self).metric.count == counter_add(old(self).metric.count, x),
            final(self).metadata == old(self).metadata,
    {
        self.metric.inc_by(x);
    }

    /// The current total.
    pub fn get(&self) -> (r: u64)
        ensures
            r == self.metric.count,
    {
        self.metric.get()
    }
}

impl Metric<HistogramState> {
    /// Add a single observation, encoded as `x`.
    pub fn observe(&mut self, x: u64)
        requires
            old(self).wf(),
        ensures
            final(self).wf(),
            final(self).metadata == old(self).metadata,
            final(self).metric@ == observe_model(
                old(self).metric@,
                bucket_index(old(self).metadata.le@, x),
                x,
            ),
    {
        let ghost pre = *self;
        self.metric.observe(&self.metadata, x);
    }

    /// A non-destructive snapshot: the per-bucket hit counts, the
    /// overflow count, and the encoded sum.
    pub fn sample(&self) -> (r: (Vec<u64>, u64, u64))
        ensures
            r.0@ == self.metric@.buckets,
            r.1 == self.metric@.inf,
            r.2 == self.metric@.sum,
    {
        self.metric.sample()
    }
}

impl<'a> MetricRef<'a, CounterState> {
    /// The counter total seen through this reference.
    pub fn get(&self) -> (r: u64)
        ensures
            r == self.0.count,
    {
        self.0.get()
    }
}

impl<'a> MetricRef<'a, HistogramState> {
    /// A snapshot of the histogram state seen through this reference.
    pub fn sample(&self) -> (r: (Vec<u64>, u64, u64))
        ensures
            r.0@ == self.0@.buckets,
            r.1 == self.0@.inf,
            r.2 == self.0@.sum,
    {
        self.0.sample()
    }
}

} // verus!
