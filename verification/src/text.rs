//! The text exposition encoder: one `# TYPE` line per metric, one sample
//! line per record, written into the byte buffer with no intermediate
//! allocation of rendered names.

use vstd::prelude::*;

use crate::buffer::{buf_extend, buf_new, buf_push_byte, buf_to_vec, bytes_view};
use crate::float_bits::{text_bits, text_of};
use crate::label::{pairs_view, LabelPair, LabelPairView, LabelValue, LabelValueView};
use crate::name::{Bucket, Count, MetricName, Sum, WithSuffix};
use bytes::BytesMut;

verus! {

/// The decimal rendering of an unsigned 64-bit value.
pub open spec fn dec_spec(n: u64) -> Seq<u8>
    decreases n,
{
    if n < 10 {
        seq![(48 + n) as u8]
    } else {
        dec_spec(n / 10) + seq![(48 + n % 10) as u8]
    }
}

/// Append the decimal rendering of `n`.
pub fn push_dec(out: &mut Vec<u8>, n: u64)
    ensures
        final(out)@ == old(out)@ + dec_spec(n),
    decreases n,
{
    if n < 10 {
        out.push(48 + (n as u8));
        proof {
            assert(final(out)@ =~= old(out)@ + dec_spec(n));
        }
    } else {
        push_dec(out, n / 10);
        out.push(48 + ((n % 10) as u8));
        proof {
            assert(final(out)@ =~= old(out)@ + dec_spec(n));
        }
    }
}

/// The kind of a metric, named on its `# TYPE` line.
#[derive(Clone, Copy, PartialEq, Eq, Structural, Debug)]
pub enum MetricKind {
    Counter,
    Histogram,
}

/// The rendering of a metric kind: `counter` or `histogram`.
pub open spec fn kind_bytes(k: MetricKind) -> Seq<u8> {
    match k {
        MetricKind::Counter => seq![99u8, 111, 117, 110, 116, 101, 114],
        MetricKind::Histogram => seq![104u8, 105, 115, 116, 111, 103, 114, 97, 109],
    }
}

/// The numeric value of one sample record: an exact integer, or an
/// encoded double.
#[derive(Clone, Copy, PartialEq, Eq, Structural, Debug)]
pub enum MetricValue {
    Int(u64),
    Float(u64),
}

/// The rendering of a sample value.
pub open spec fn value_bytes(v: MetricValue) -> Seq<u8> {
    match v {
        MetricValue::Int(n) => dec_spec(n),
        MetricValue::Float(b) => text_of(b),
    }
}

/// The rendering of one label value, as it stands between the quotes.
pub open spec fn label_value_bytes(v: LabelValueView) -> Seq<u8> {
    match v {
        LabelValueView::Int(n) => dec_spec(n),
        LabelValueView::Float(b) => text_of(b),
        LabelValueView::Str(s) => s,
    }
}

/// The rendering of one `name="value"` label item.
pub open spec fn label_item_bytes(p: LabelPairView) -> Seq<u8> {
    p.name + seq![61u8, 34] + label_value_bytes(p.value) + seq![34u8]
}

/// The comma-separated rendering of a label list.
pub open spec fn labels_list(s: Seq<LabelPairView>) -> Seq<u8>
    decreases s.len(),
{
    if s.len() == 0 {
        Seq::empty()
    } else if s.len() == 1 {
        label_item_bytes(s[0])
    } else {
        labels_list(s.drop_last()) + seq![44u8] + label_item_bytes(s.last())
    }
}

/// The `{...}` label block of a sample line; empty when there are no
/// labels.
pub open spec fn labels_block(s: Seq<LabelPairView>) -> Seq<u8> {
    if s.len() == 0 {
        Seq::empty()
    } else {
        seq![123u8] + labels_list(s) + seq![125u8]
    }
}

/// The rendering of a `# TYPE <name> <kind>` line.
pub open spec fn type_line(name: Seq<u8>, k: MetricKind) -> Seq<u8> {
    seq![35u8, 32, 84, 89, 80, 69, 32] + name + seq![32u8] + kind_bytes(k) + seq![10u8]
}

/// The rendering of one `<name>{labels} <value>` sample line.
pub open spec fn metric_line(name: Seq<u8>, labels: Seq<LabelPairView>, v: MetricValue) -> Seq<
    u8,
> {
    name + labels_block(labels) + seq![32u8] + value_bytes(v) + seq![10u8]
}

/// An encoder producing the text exposition format into a byte buffer.
pub struct TextEncoder {
    pub buf: BytesMut,
}

/// Append the rendering of one label value.
fn write_label_value(buf: &mut BytesMut, v: &LabelValue)
    ensures
        bytes_view(*final(buf)) == bytes_view(*old(buf)) + label_value_bytes(v@),
{
    match v {
        LabelValue::Int(n) => {
            let mut d: Vec<u8> = Vec::new();
            push_dec(&mut d, *n);
            buf_extend(buf, d.as_slice());
        },
        LabelValue::Float(b) => {
            let d = text_bits(*b);
            buf_extend(buf, d.as_slice());
        },
        LabelValue::Str(s) => {
            buf_extend(buf, s.as_slice());
        },
    }
}

/// Append the rendering of one `name="value"` label item.
fn write_label_item(buf: &mut BytesMut, p: &LabelPair)
    ensures
        bytes_view(*final(buf)) == bytes_view(*old(buf)) + label_item_bytes(p@),
{
    buf_extend(buf, p.name.as_slice());
    buf_push_byte(buf, 61);
    buf_push_byte(buf, 34);
    write_label_value(buf, &p.value);
    buf_push_byte(buf, 34);
    proof {
        assert(bytes_view(*final(buf)) =~= bytes_view(*old(buf)) + label_item_bytes(p@));
    }
}

impl TextEncoder {
    /// The bytes produced so far.
    pub open spec fn out(&self) -> Seq<u8> {
        bytes_view(self.buf)
    }

    /// A fresh encoder with an empty output buffer.
    pub fn new() -> (r: Self)
        ensures
            r.out() == Seq::<u8>::empty(),
    {
        TextEncoder { buf: buf_new() }
    }

    /// A copy of the bytes produced so far.
    pub fn bytes(&self) -> (r: Vec<u8>)
        ensures
            r@ == self.out(),
    {
        buf_to_vec(&self.buf)
    }

    /// Write the `# TYPE` line for a metric: emitted once per metric,
    /// before any of its samples.
    pub fn write_type<N: MetricName>(&mut self, name: &N, kind: MetricKind)
        requires
            name.name_wf(),
        ensures
            final(self).out() == old(self).out() + type_line(name.name_bytes(), kind),
    {
        let head: Vec<u8> = vec![35, 32, 84, 89, 80, 69, 32];
        proof {
            assert(head@ =~= seq![35u8, 32, 84, 89, 80, 69, 32]);
        }
        buf_extend(&mut self.buf, head.as_slice());
        name.encode_text(&mut self.buf);
        buf_push_byte(&mut self.buf, 32);
        match kind {
            MetricKind::Counter => {
                let k: Vec<u8> = vec![99, 111, 117, 110, 116, 101, 114];
                proof {
                    assert(k@ =~= kind_bytes(kind));
                }
                buf_extend(&mut self.buf, k.as_slice());
            },
            MetricKind::Histogram => {
                let k: Vec<u8> = vec![104, 105, 115, 116, 111, 103, 114, 97, 109];
                proof {
                    assert(k@ =~= kind_bytes(kind));
                }
                buf_extend(&mut self.buf, k.as_slice());
            },
        }
        buf_push_byte(&mut self.buf, 10);
        proof {
            assert(final(self).out() =~= old(self).out() + type_line(name.name_bytes(), kind));
        }
    }

    /// Write one sample line: the name, the label block — the metric's
    /// own labels plus, for histogram bucket records, one synthetic
    /// trailing label — and the value.
    pub fn write_metric<N: MetricName>(
        &mut self,
        name: &N,
        labels: &Vec<LabelPair>,
        extra: Option<&LabelPair>,
        value: MetricValue,
    )
        requires
            name.name_wf(),
        ensures
            final(self).out() == old(self).out() + metric_line(
                name.name_bytes(),
                pairs_view(labels@) + (match extra {
                    Some(p) => seq![p@],
                    None => Seq::<LabelPairView>::empty(),
                }),
                value,
            ),
    {
        let ghost whole: Seq<LabelPairView> = pairs_view(labels@) + (match extra {
            Some(p) => seq![p@],
            None => Seq::<LabelPairView>::empty(),
        });
        name.encode_text(&mut self.buf);
        let ghost after_name = self.out();
        let n = labels.len();
        let has_any = n > 0 || extra.is_some();
        if has_any {
            buf_push_byte(&mut self.buf, 123);
            let mut i: usize = 0;
            while i < n
                invariant
                    0 <= i <= n,
                    n == labels@.len(),
                    whole.len() >= n,
                    forall|j: int| 0 <= j < n ==> whole[j] == labels@[j]@,
                    self.out() == after_name + seq![123u8] + labels_list(whole.take(i as int)),
                decreases n - i,
            {
                if i > 0 {
                    buf_push_byte(&mut self.buf, 44);
                }
                write_label_item(&mut self.buf, &labels[i]);
                proof {
                    let part = whole.take(i as int + 1);
                    assert(part.drop_last() =~= whole.take(i as int));
                    assert(part.last() == labels@[i as int]@);
                    assert(self.out() =~= after_name + seq![123u8] + labels_list(
                        whole.take(i as int + 1),
                    ));
                }
                i += 1;
            }
            match extra {
                Some(p) => {
                    if n > 0 {
                        buf_push_byte(&mut self.buf, 44);
                    }
                    write_label_item(&mut self.buf, p);
                    proof {
                        assert(whole.drop_last() =~= whole.take(n as int));
                        assert(whole.last() == p@);
                        assert(whole.take(n as int + 1) =~= whole);
                        assert(self.out() =~= after_name + seq![123u8] + labels_list(whole));
                    }
                },
                None => {
                    proof {
                        assert(whole.take(n as int) =~= whole);
                    }
                },
            }
            buf_push_byte(&mut self.buf, 125);
            proof {
                assert(self.out() =~= after_name + labels_block(whole));
            }
        } else {
            proof {
                assert(whole.len() == 0);
                assert(self.out() =~= after_name + labels_block(whole));
            }
        }
        buf_push_byte(&mut self.buf, 32);
        match value {
            MetricValue::Int(v) => {
                let mut d: Vec<u8> = Vec::new();
                push_dec(&mut d, v);
                buf_extend(&mut self.buf, d.as_slice());
            },
            MetricValue::Float(b) => {
                let d = text_bits(b);
                buf_extend(&mut self.buf, d.as_slice());
            },
        }
        buf_push_byte(&mut self.buf, 10);
        proof {
            assert(final(self).out() =~= old(self).out() + metric_line(
                name.name_bytes(),
                whole,
                value,
            ));
        }
    }
}


/// The synthetic `le` label attached to one finite bucket record.
pub open spec fn le_pair(b: u64) -> LabelPairView {
    LabelPairView { name: seq![108u8, 101], value: LabelValueView::Float(b) }
}

/// The synthetic `le="+Inf"` label attached to the final bucket record.
pub open spec fn inf_pair() -> LabelPairView {
    LabelPairView { name: seq![108u8, 101], value: LabelValueView::Str(seq![43u8, 73, 110, 102]) }
}

/// The cumulative count reported for the first `k` buckets, reduced at
/// the word size.
pub open spec fn cum_at(buckets: Seq<u64>, k: int) -> u64 {
    (crate::histogram::prefix_total(buckets, k) % 0x1_0000_0000_0000_0000) as u64
}

/// The total observation count a histogram reports: every finite bucket
/// plus the overflow bucket, reduced at the word size.
pub open spec fn histogram_total(v: crate::histogram::HistogramModel) -> u64 {
    ((crate::histogram::prefix_total(v.buckets, v.buckets.len() as int) + v.inf)
        % 0x1_0000_0000_0000_0000) as u64
}

/// The first `k` cumulative bucket records of a histogram, in ascending
/// threshold order.
pub open spec fn bucket_lines(
    v: crate::histogram::HistogramModel,
    le: Seq<u64>,
    name: Seq<u8>,
    labels: Seq<LabelPairView>,
    k: int,
) -> Seq<u8>
    decreases k,
{
    if k <= 0 {
        Seq::empty()
    } else {
        bucket_lines(v, le, name, labels, k - 1) + metric_line(
            name + crate::name::bucket_suffix(),
            labels + seq![le_pair(le[k - 1])],
            MetricValue::Int(cum_at(v.buckets, k)),
        )
    }
}

/// What a metric kind writes at collection time: its `# TYPE` line, and
/// the exact bytes of each sample record.
pub trait MetricEncoder: crate::metric::MetricType {
    /// The kind named on the `# TYPE` line.
    spec fn kind() -> MetricKind;

    /// The exact bytes this metric's samples render to.
    spec fn sample_bytes(
        v: Self::V,
        meta: &Self::Metadata,
        name: Seq<u8>,
        labels: Seq<LabelPairView>,
    ) -> Seq<u8>;

    /// Write the `# TYPE` line.
    fn write_type<N: MetricName>(name: &N, enc: &mut TextEncoder)
        requires
            name.name_wf(),
        ensures
            final(enc).out() == old(enc).out() + type_line(name.name_bytes(), Self::kind()),
    ;

    /// Write every sample record of this state.
    fn collect_into<N: MetricName>(
        &self,
        metadata: &Self::Metadata,
        labels: &Vec<LabelPair>,
        name: &N,
        enc: &mut TextEncoder,
    )
        requires
            name.name_wf(),
            Self::meta_wf(metadata),
            self.wf(metadata),
        ensures
            final(enc).out() == old(enc).out() + Self::sample_bytes(
                self@,
                metadata,
                name.name_bytes(),
                pairs_view(labels@),
            ),
    ;
}

impl MetricEncoder for crate::counter::CounterState {
    open spec fn kind() -> MetricKind {
        MetricKind::Counter
    }

    open spec fn sample_bytes(
        v: u64,
        meta: &(),
        name: Seq<u8>,
        labels: Seq<LabelPairView>,
    ) -> Seq<u8> {
        metric_line(name, labels, MetricValue::Int(v))
    }

    fn write_type<N: MetricName>(name: &N, enc: &mut TextEncoder) {
        enc.write_type(name, MetricKind::Counter);
    }

    fn collect_into<N: MetricName>(
        &self,
        metadata: &(),
        labels: &Vec<LabelPair>,
        name: &N,
        enc: &mut TextEncoder,
    ) {
        enc.write_metric(name, labels, None, MetricValue::Int(self.get()));
        proof {
            assert(pairs_view(labels@) + Seq::<LabelPairView>::empty() =~= pairs_view(labels@));
        }
    }
}

proof fn lemma_cum_step(buckets: Seq<u64>, i: int)
    requires
        0 <= i < buckets.len(),
    ensures
        cum_at(buckets, i + 1) == (cum_at(buckets, i) + buckets[i]) % 0x1_0000_0000_0000_0000,
{
    let r = 0x1_0000_0000_0000_0000int;
    let p = crate::histogram::prefix_total(buckets, i);
    let b = buckets[i] as int;
    vstd::arithmetic::div_mod::lemma_add_mod_noop(p, b, r);
    vstd::arithmetic::div_mod::lemma_mod_twice(p, r);
    vstd::arithmetic::div_mod::lemma_mod_twice(b, r);
    vstd::arithmetic::div_mod::lemma_small_mod(buckets[i] as nat, r as nat);
}

proof fn lemma_total_step(v: crate::histogram::HistogramModel)
    ensures
        histogram_total(v) == (cum_at(v.buckets, v.buckets.len() as int) + v.inf)
            % 0x1_0000_0000_0000_0000,
{
    let r = 0x1_0000_0000_0000_0000int;
    let p = crate::histogram::prefix_total(v.buckets, v.buckets.len() as int);
    let b = v.inf as int;
    vstd::arithmetic::div_mod::lemma_add_mod_noop(p, b, r);
    vstd::arithmetic::div_mod::lemma_mod_twice(p, r);
    vstd::arithmetic::div_mod::lemma_mod_twice(b, r);
    vstd::arithmetic::div_mod::lemma_small_mod(v.inf as nat, r as nat);
}

impl MetricEncoder for crate::histogram::HistogramState {
    open spec fn kind() -> MetricKind {
        MetricKind::Histogram
    }

    open spec fn sample_bytes(
        v: crate::histogram::HistogramModel,
        meta: &crate::histogram::Thresholds,
        name: Seq<u8>,
        labels: Seq<LabelPairView>,
    ) -> Seq<u8> {
        bucket_lines(v, meta.le@, name, labels, meta.le@.len() as int) + metric_line(
            name + crate::name::bucket_suffix(),
            labels + seq![inf_pair()],
            MetricValue::Int(histogram_total(v)),
        ) + metric_line(name + crate::name::sum_suffix(), labels, MetricValue::Float(v.sum))
            + metric_line(
            name + crate::name::count_suffix(),
            labels,
            MetricValue::Int(histogram_total(v)),
        )
    }

    fn write_type<N: MetricName>(name: &N, enc: &mut TextEncoder) {
        enc.write_type(name, MetricKind::Histogram);
    }

    fn collect_into<N: MetricName>(
        &self,
        metadata: &crate::histogram::Thresholds,
        labels: &Vec<LabelPair>,
        name: &N,
        enc: &mut TextEncoder,
    ) {
        let ghost base = enc.out();
        let ghost name_b = name.name_bytes();
        let ghost lv = pairs_view(labels@);
        let ghost model = self@;
        let (buckets, inf, sum) = self.sample();
        let n = buckets.len();
        let mut cum: u64 = 0;
        let mut i: usize = 0;
        while i < n
            invariant
                0 <= i <= n,
                n == buckets@.len(),
                n == metadata.le@.len(),
                buckets@ == model.buckets,
                inf == model.inf,
                sum == model.sum,
                name.name_wf(),
                name_b == name.name_bytes(),
                lv == pairs_view(labels@),
                cum == cum_at(model.buckets, i as int),
                enc.out() == base + bucket_lines(model, metadata.le@, name_b, lv, i as int),
            decreases n - i,
        {
            proof {
                lemma_cum_step(model.buckets, i as int);
            }
            cum = cum.wrapping_add(buckets[i]);
            let le_name: Vec<u8> = vec![108, 101];
            let extra = LabelPair { name: le_name, value: LabelValue::Float(metadata.le[i]) };
            let sname = WithSuffix { suffix: Bucket, metric_name: name };
            enc.write_metric(&sname, labels, Some(&extra), MetricValue::Int(cum));
            proof {
                assert(extra@ =~~= le_pair(metadata.le@[i as int]));
                assert(lv + seq![extra@] =~= lv + seq![le_pair(metadata.le@[i as int])]);
                assert(enc.out() =~= base + bucket_lines(
                    model,
                    metadata.le@,
                    name_b,
                    lv,
                    i as int + 1,
                ));
            }
            i += 1;
        }
        proof {
            lemma_total_step(model);
        }
        let total = cum.wrapping_add(inf);
        let le_name: Vec<u8> = vec![108, 101];
        let inf_text: Vec<u8> = vec![43, 73, 110, 102];
        let extra = LabelPair { name: le_name, value: LabelValue::Str(inf_text) };
        let bname = WithSuffix { suffix: Bucket, metric_name: name };
        enc.write_metric(&bname, labels, Some(&extra), MetricValue::Int(total));
        proof {
            assert(extra@ =~~= inf_pair());
            assert(lv + seq![extra@] =~= lv + seq![inf_pair()]);
        }
        let sname = WithSuffix { suffix: Sum, metric_name: name };
        enc.write_metric(&sname, labels, None, MetricValue::Float(sum));
        let cname = WithSuffix { suffix: Count, metric_name: name };
        enc.write_metric(&cname, labels, None, MetricValue::Int(total));
        proof {
            assert(lv + Seq::<LabelPairView>::empty() =~= lv);
            assert(final(enc).out() =~= base + Self::sample_bytes(model, metadata, name_b, lv));
        }
    }
}


/// The sample records of the first `k` dense entries, in dense-index
/// order.
pub open spec fn dense_samples<M: MetricEncoder, L: crate::label::LabelSpace>(
    v: Seq<M>,
    meta: &M::Metadata,
    ls: L,
    name: Seq<u8>,
    k: int,
) -> Seq<u8>
    decreases k,
{
    if k <= 0 {
        Seq::empty()
    } else {
        dense_samples(v, meta, ls, name, k - 1) + M::sample_bytes(
            v[k - 1]@,
            meta,
            name,
            ls.dense_group_of(k - 1),
        )
    }
}

/// The sample records of the first `k` sparse entries, in insertion
/// order.
pub open spec fn sparse_samples<M: MetricEncoder, L: crate::label::LabelSpace>(
    m: Map<u64, M>,
    keys: Seq<u64>,
    meta: &M::Metadata,
    ls: L,
    name: Seq<u8>,
    k: int,
) -> Seq<u8>
    decreases k,
{
    if k <= 0 {
        Seq::empty()
    } else {
        sparse_samples(m, keys, meta, ls, name, k - 1) + M::sample_bytes(
            m[keys[k - 1]]@,
            meta,
            name,
            ls.group_of(keys[k - 1]),
        )
    }
}

/// Every sample record a vector holds: dense entries in dense-index
/// order, sparse entries in insertion order.
pub open spec fn vec_samples<M: MetricEncoder, L: crate::label::LabelSpace>(
    v: &crate::metric_vec::MetricVec<M, L>,
    name: Seq<u8>,
) -> Seq<u8> {
    match v.metrics {
        crate::metric_vec::VecInner::Dense(d) => dense_samples(
            d@,
            &v.metadata,
            v.label_set,
            name,
            d@.len() as int,
        ),
        crate::metric_vec::VecInner::Sparse(m, keys) => sparse_samples(
            m@,
            keys@,
            &v.metadata,
            v.label_set,
            name,
            keys@.len() as int,
        ),
    }
}

impl<M: MetricEncoder> crate::metric::Metric<M> {
    /// Write this metric's `# TYPE` line and every sample record.
    pub fn collect_into<N: MetricName>(&self, name: &N, enc: &mut TextEncoder)
        requires
            name.name_wf(),
            self.wf(),
        ensures
            final(enc).out() == old(enc).out() + type_line(name.name_bytes(), M::kind())
                + M::sample_bytes(
                self.metric@,
                &self.metadata,
                name.name_bytes(),
                Seq::<LabelPairView>::empty(),
            ),
    {
        M::write_type(name, enc);
        let no_labels: Vec<LabelPair> = Vec::new();
        self.metric.collect_into(&self.metadata, &no_labels, name, enc);
        proof {
            assert(pairs_view(no_labels@) =~= Seq::<LabelPairView>::empty());
        }
    }
}

impl<M: MetricEncoder, L: crate::label::LabelSpace> crate::metric_vec::MetricVec<M, L> {
    /// Write this vector's `# TYPE` line and, for every live entry, that
    /// entry's sample records under its decoded label group.
    pub fn collect_into<N: MetricName>(&self, name: &N, enc: &mut TextEncoder)
        requires
            name.name_wf(),
            self.wf(),
        ensures
            final(enc).out() == old(enc).out() + type_line(name.name_bytes(), M::kind())
                + vec_samples(self, name.name_bytes()),
    {
        M::write_type(name, enc);
        let ghost base = enc.out();
        let ghost name_b = name.name_bytes();
        match &self.metrics {
            crate::metric_vec::VecInner::Dense(d) => {
                let n = d.len();
                let mut i: usize = 0;
                while i < n
                    invariant
                        0 <= i <= n,
                        n == d@.len(),
                        self.wf(),
                        self.metrics matches crate::metric_vec::VecInner::Dense(dd) && dd == d,
                        name.name_wf(),
                        name_b == name.name_bytes(),
                        enc.out() == base + dense_samples(
                            d@,
                            &self.metadata,
                            self.label_set,
                            name_b,
                            i as int,
                        ),
                    decreases n - i,
                {
                    let labels = self.label_set.decode_dense(i);
                    d[i].collect_into(&self.metadata, &labels, name, enc);
                    i += 1;
                }
            },
            crate::metric_vec::VecInner::Sparse(m, keys) => {
                let n = keys.len();
                let mut i: usize = 0;
                while i < n
                    invariant
                        0 <= i <= n,
                        n == keys@.len(),
                        self.wf(),
                        self.metrics matches crate::metric_vec::VecInner::Sparse(mm, kk) && mm
                            == m && kk == keys,
                        name.name_wf(),
                        name_b == name.name_bytes(),
                        enc.out() == base + sparse_samples(
                            m@,
                            keys@,
                            &self.metadata,
                            self.label_set,
                            name_b,
                            i as int,
                        ),
                    decreases n - i,
                {
                    let id = keys[i];
                    proof {
                        assert(keys@.to_set().contains(id));
                        assert(m@.contains_key(id));
                    }
                    let labels = self.label_set.decode(id);
                    match m.get(&id) {
                        Some(state) => {
                            state.collect_into(&self.metadata, &labels, name, enc);
                        },
                        None => {
                            proof {
                                assert(false);
                            }
                        },
                    }
                    i += 1;
                }
            },
        }
    }
}


proof fn lemma_count_le_bounds(vs: Seq<u64>, b: u64)
    ensures
        0 <= crate::histogram::count_le(vs, b) <= vs.len(),
    decreases vs.len(),
{
    if vs.len() > 0 {
        lemma_count_le_bounds(vs.drop_last(), b);
    }
}

/// Law: on a histogram that has taken any sequence of observations —
/// fewer than the word size — the cumulative value each finite bucket
/// record reports equals the number of observed values at or below that
/// bucket's threshold, and the reported `+Inf` total equals the total
/// observation count.
pub proof fn lemma_reported_counts(le: Seq<u64>, vs: Seq<u64>)
    requires
        crate::histogram::buckets_ok(le),
        vs.len() < 0x1_0000_0000_0000_0000,
    ensures
        ({
            let m = crate::histogram::observe_all(
                crate::histogram::zero_model(le.len()),
                le,
                vs,
            );
            &&& forall|i: int|
                0 <= i < le.len() ==> cum_at(m.buckets, i + 1) == crate::histogram::count_le(
                    vs,
                    #[trigger] le[i],
                )
            &&& histogram_total(m) == vs.len()
        }),
{
    crate::histogram::lemma_histogram_collection(le, vs);
    let m = crate::histogram::observe_all(crate::histogram::zero_model(le.len()), le, vs);
    let r = 0x1_0000_0000_0000_0000int;
    assert forall|i: int| 0 <= i < le.len() implies cum_at(m.buckets, i + 1)
        == crate::histogram::count_le(vs, #[trigger] le[i]) by {
        lemma_count_le_bounds(vs, le[i]);
        vstd::arithmetic::div_mod::lemma_small_mod(
            crate::histogram::count_le(vs, le[i]) as nat,
            r as nat,
        );
    }
    vstd::arithmetic::div_mod::lemma_small_mod(vs.len(), r as nat);
}

} // verus!
