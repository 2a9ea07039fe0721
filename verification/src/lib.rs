//! A metrics-instrumentation core: counters and histograms, label-indexed
//! metric storage, composable metric names, and a text exposition encoder.
//!
//! Observed values and bucket thresholds are IEEE-754 doubles, carried as
//! their 64-bit encodings (see [`float_bits`]); all bookkeeping on them —
//! bucket selection, cumulative counts, name and sample encoding — is
//! ordinary integer logic, while the floating arithmetic itself goes to an
//! outside software implementation of IEEE-754 behind a few trusted items.

pub mod buffer;
pub mod counter;
pub mod histogram;
pub mod label;
pub mod metric;
pub mod metric_vec;
pub mod float_bits;
pub mod name;
pub mod text;
pub mod timer;

pub use counter::CounterState;
pub use histogram::{HistogramState, HistogramStateInner, Thresholds};
pub use label::{LabelPair, LabelSpace, LabelValue, SmallIntLabelSpace, WideIntLabelSpace};
pub use metric::{Counter, CounterRef, Histogram, HistogramRef, Metric, MetricRef, MetricType};
pub use metric_vec::{CounterVec, HistogramVec, LabelId, MetricVec, VecInner};
pub use name::{
    Bucket, CheckedMetricName, Count, InvalidMetricName, MetricName, Suffix, Sum, Total,
    WithNamespace, WithSuffix,
};
pub use text::{MetricEncoder, MetricKind, MetricValue, TextEncoder};
pub use timer::{HistogramTimer, HistogramVecTimer};

