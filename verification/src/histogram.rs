//! The histogram metric: per-bucket hit counters, an overflow counter, and
//! a floating sum, together with the immutable bucket thresholds.

use vstd::prelude::*;

use crate::float_bits::{
    add_bits, add_of, above_one_bits, above_zero_bits, finite_bits, is_above_one, is_above_zero,
    is_finite_bits, key_of, le_bits, lt_bits, mul_bits, mul_of, POS_ZERO_BITS,
};

verus! {

/// Whether an encoded-threshold sequence is acceptable: every bound finite,
/// and the sequence strictly increasing.
pub open spec fn buckets_ok(s: Seq<u64>) -> bool {
    &&& forall|i: int| 0 <= i < s.len() ==> is_finite_bits(#[trigger] s[i])
    &&& forall|i: int, j: int| 0 <= i < j < s.len() ==> key_of(s[i]) < key_of(s[j])
}

/// The `i`-th exponential bucket bound: `start` multiplied `i` times by
/// `factor`, in IEEE arithmetic.
pub open spec fn exp_item(start: u64, factor: u64, i: int) -> u64
    decreases i,
{
    if i <= 0 {
        start
    } else {
        mul_of(exp_item(start, factor, i - 1), factor)
    }
}

/// The exponential bucket sequence of length `n`.
pub open spec fn exp_seq(start: u64, factor: u64, n: int) -> Seq<u64> {
    Seq::new(n as nat, |i: int| exp_item(start, factor, i))
}

/// The `i`-th linear bucket bound: `start` with `width` added `i` times,
/// in IEEE arithmetic.
pub open spec fn lin_item(start: u64, width: u64, i: int) -> u64
    decreases i,
{
    if i <= 0 {
        start
    } else {
        add_of(lin_item(start, width, i - 1), width)
    }
}

/// The linear bucket sequence of length `n`.
pub open spec fn lin_seq(start: u64, width: u64, n: int) -> Seq<u64> {
    Seq::new(n as nat, |i: int| lin_item(start, width, i))
}

/// `Thresholds` defines the bucket upper bounds ("le" values) used in a
/// histogram: a strictly increasing sequence of finite encoded doubles,
/// fixed at construction.
pub struct Thresholds {
    pub le: Vec<u64>,
}

/// The index of the bucket that value `x` falls into, against threshold
/// sequence `s`: the first index whose bound is at or above `x`, or
/// `s.len()` (the overflow bucket) if every bound is below `x`.
pub open spec fn bucket_index(s: Seq<u64>, x: u64) -> int
    decreases s.len(),
{
    if s.len() == 0 {
        0
    } else if key_of(x) <= key_of(s[0]) {
        0
    } else {
        1 + bucket_index(s.drop_first(), x)
    }
}

/// The partition-point characterisation of `bucket_index`: everything
/// before it is strictly below `x`, and its own bound (if any) is at or
/// above `x`.
pub open spec fn is_partition(s: Seq<u64>, x: u64, i: int) -> bool {
    &&& 0 <= i <= s.len()
    &&& forall|j: int| 0 <= j < i ==> key_of(#[trigger] s[j]) < key_of(x)
    &&& i < s.len() ==> key_of(x) <= key_of(s[i])
}

pub proof fn lemma_bucket_index_is_partition(s: Seq<u64>, x: u64)
    ensures
        is_partition(s, x, bucket_index(s, x)),
    decreases s.len(),
{
    if s.len() == 0 {
    } else if key_of(x) <= key_of(s[0]) {
    } else {
        lemma_bucket_index_is_partition(s.drop_first(), x);
        let t = s.drop_first();
        let bt = bucket_index(t, x);
        assert forall|j: int| 0 <= j < 1 + bt implies key_of(#[trigger] s[j]) < key_of(x) by {
            if j > 0 {
                assert(s[j] == t[j - 1]);
            }
        }
    }
}

pub proof fn lemma_partition_unique(s: Seq<u64>, x: u64, i: int)
    requires
        is_partition(s, x, i),
    ensures
        i == bucket_index(s, x),
{
    lemma_bucket_index_is_partition(s, x);
    let b = bucket_index(s, x);
    if i < b {
        assert(key_of(s[i]) < key_of(x));
    } else if b < i {
        assert(key_of(s[b]) < key_of(x));
    }
}

impl Thresholds {
    /// Well-formedness: the stored bounds are acceptable.
    pub open spec fn wf(&self) -> bool {
        buckets_ok(self.le@)
    }

    /// The number of finite buckets.
    pub fn len(&self) -> (n: usize)
        ensures
            n == self.le@.len(),
    {
        self.le.len()
    }

    /// View the encoded bucket upper bounds.
    pub fn get(&self) -> (r: &Vec<u64>)
        ensures
            r@ == self.le@,
    {
        &self.le
    }

    /// Create the histogram thresholds with the given encoded bounds.
    ///
    /// Rejecting a sequence that is not strictly increasing, or that holds
    /// an infinity or NaN, is a construction-time demand on the caller.
    pub fn with_buckets(buckets: Vec<u64>) -> (t: Self)
        requires
            buckets_ok(buckets@),
        ensures
            t.le@ == buckets@,
            t.wf(),
    {
        Thresholds { le: buckets }
    }

    /// Create the histogram thresholds with the given encoded bounds,
    /// failing (rather than panicking) on bounds that are not finite and
    /// strictly increasing.
    pub fn try_with_buckets(buckets: Vec<u64>) -> (r: Option<Self>)
        ensures
            r is Some <==> buckets_ok(buckets@),
            r matches Some(t) ==> t.le@ == buckets@ && t.wf(),
    {
        if check_buckets(&buckets) {
            Some(Thresholds { le: buckets })
        } else {
            None
        }
    }

    /// Create `n` buckets, where the lowest bucket has an upper bound of
    /// `start` and each following bucket's upper bound is `factor` times
    /// the previous one's.
    ///
    /// Demands on the caller, checked by [`Thresholds::try_exponential_buckets`]:
    /// `start` above zero, `factor` above one, and the generated sequence
    /// still acceptable (IEEE multiplication can saturate at infinity).
    pub fn exponential_buckets(start: u64, factor: u64, n: usize) -> (t: Self)
        requires
            is_above_zero(start),
            is_above_one(factor),
            buckets_ok(exp_seq(start, factor, n as int)),
        ensures
            t.le@ == exp_seq(start, factor, n as int),
            t.wf(),
    {
        let buckets = gen_exp(start, factor, n);
        Thresholds { le: buckets }
    }

    /// [`Thresholds::exponential_buckets`], with every demand tested:
    /// returns `None` exactly when the parameters are invalid or the
    /// generated sequence is not acceptable.
    pub fn try_exponential_buckets(start: u64, factor: u64, n: usize) -> (r: Option<Self>)
        ensures
            r is Some <==> is_above_zero(start) && is_above_one(factor) && buckets_ok(
                exp_seq(start, factor, n as int),
            ),
            r matches Some(t) ==> t.le@ == exp_seq(start, factor, n as int) && t.wf(),
    {
        if !above_zero_bits(start) || !above_one_bits(factor) {
            return None;
        }
        let probe = gen_exp(start, factor, n);
        if check_buckets(&probe) {
            Some(Self::exponential_buckets(start, factor, n))
        } else {
            None
        }
    }

    /// Create `n` buckets, each `width` wide, where the lowest bucket has
    /// an upper bound of `start`.
    ///
    /// Demands on the caller, checked by [`Thresholds::try_linear_buckets`]:
    /// `width` above zero and the generated sequence still acceptable.
    pub fn linear_buckets(start: u64, width: u64, n: usize) -> (t: Self)
        requires
            is_above_zero(width),
            buckets_ok(lin_seq(start, width, n as int)),
        ensures
            t.le@ == lin_seq(start, width, n as int),
            t.wf(),
    {
        let buckets = gen_lin(start, width, n);
        Thresholds { le: buckets }
    }

    /// [`Thresholds::linear_buckets`], with every demand tested: returns
    /// `None` exactly when the parameters are invalid or the generated
    /// sequence is not acceptable.
    pub fn try_linear_buckets(start: u64, width: u64, n: usize) -> (r: Option<Self>)
        ensures
            r is Some <==> is_above_zero(width) && buckets_ok(lin_seq(start, width, n as int)),
            r matches Some(t) ==> t.le@ == lin_seq(start, width, n as int) && t.wf(),
    {
        if !above_zero_bits(width) {
            return None;
        }
        let probe = gen_lin(start, width, n);
        if check_buckets(&probe) {
            Some(Self::linear_buckets(start, width, n))
        } else {
            None
        }
    }

    /// The index of the bucket that value `x` falls into: a binary search
    /// for the partition point of `x` among the sorted bounds.
    pub fn partition_point(&self, x: u64) -> (i: usize)
        requires
            self.wf(),
        ensures
            i == bucket_index(self.le@, x),
    {
        let ghost s = self.le@;
        let mut lo: usize = 0;
        let mut hi: usize = self.le.len();
        while lo < hi
            invariant
                0 <= lo <= hi <= s.len(),
                self.wf(),
                s == self.le@,
                forall|j: int| 0 <= j < lo ==> key_of(#[trigger] s[j]) < key_of(x),
                forall|j: int| hi <= j < s.len() ==> key_of(x) <= key_of(#[trigger] s[j]),
            decreases hi - lo,
        {
            let mid = lo + (hi - lo) / 2;
            if le_bits(x, self.le[mid]) {
                assert forall|j: int| mid <= j < s.len() implies key_of(x) <= key_of(
                    #[trigger] s[j],
                ) by {
                    if j > mid {
                        assert(key_of(s[mid as int]) < key_of(s[j]));
                    }
                }
                hi = mid;
            } else {
                assert forall|j: int| 0 <= j < mid + 1 implies key_of(#[trigger] s[j]) < key_of(
                    x,
                ) by {
                    if j < mid {
                        assert(key_of(s[j]) < key_of(s[mid as int]));
                    }
                }
                lo = mid + 1;
            }
        }
        proof {
            lemma_partition_unique(s, x, lo as int);
        }
        lo
    }
}

/// Whether every bound in `buckets` is finite and the sequence strictly
/// increasing.
fn check_buckets(buckets: &Vec<u64>) -> (r: bool)
    ensures
        r == buckets_ok(buckets@),
{
    let n = buckets.len();
    let mut i: usize = 0;
    while i < n
        invariant
            0 <= i <= n,
            n == buckets@.len(),
            forall|j: int| 0 <= j < i ==> is_finite_bits(#[trigger] buckets@[j]),
            forall|j: int| 0 < j < i ==> key_of(buckets@[j - 1]) < key_of(#[trigger] buckets@[j]),
        decreases n - i,
    {
        if !finite_bits(buckets[i]) {
            return false;
        }
        if i > 0 && !lt_bits(buckets[i - 1], buckets[i]) {
            return false;
        }
        i += 1;
    }
    proof {
        if buckets@.len() > 0 {
            lemma_adjacent_sorted(buckets@);
        }
    }
    true
}

/// Adjacent strict increase gives strict increase everywhere.
proof fn lemma_adjacent_sorted(s: Seq<u64>)
    requires
        forall|j: int| 0 < j < s.len() ==> key_of(#[trigger] s[j - 1]) < key_of(s[j]),
    ensures
        forall|i: int, j: int| 0 <= i < j < s.len() ==> key_of(s[i]) < key_of(s[j]),
{
    assert forall|i: int, j: int| 0 <= i < j < s.len() implies key_of(s[i]) < key_of(s[j]) by {
        lemma_sorted_step(s, i, j);
    }
}

proof fn lemma_sorted_step(s: Seq<u64>, i: int, j: int)
    requires
        forall|k: int| 0 < k < s.len() ==> key_of(#[trigger] s[k - 1]) < key_of(s[k]),
        0 <= i < j < s.len(),
    ensures
        key_of(s[i]) < key_of(s[j]),
    decreases j - i,
{
    if j == i + 1 {
        assert(key_of(s[j - 1]) < key_of(s[j]));
    } else {
        lemma_sorted_step(s, i, j - 1);
        assert(key_of(s[j - 1]) < key_of(s[j]));
    }
}

/// Generate the exponential bucket bounds by repeated IEEE multiplication.
fn gen_exp(start: u64, factor: u64, n: usize) -> (v: Vec<u64>)
    ensures
        v@ == exp_seq(start, factor, n as int),
{
    let mut v: Vec<u64> = Vec::new();
    let mut cur = start;
    let mut i: usize = 0;
    while i < n
        invariant
            0 <= i <= n,
            v@.len() == i,
            forall|j: int| 0 <= j < i ==> v@[j] == exp_item(start, factor, j),
            cur == exp_item(start, factor, i as int),
        decreases n - i,
    {
        v.push(cur);
        cur = mul_bits(cur, factor);
        i += 1;
    }
    proof {
        assert(v@ =~= exp_seq(start, factor, n as int));
    }
    v
}

/// Generate the linear bucket bounds by repeated IEEE addition.
fn gen_lin(start: u64, width: u64, n: usize) -> (v: Vec<u64>)
    ensures
        v@ == lin_seq(start, width, n as int),
{
    let mut v: Vec<u64> = Vec::new();
    let mut cur = start;
    let mut i: usize = 0;
    while i < n
        invariant
            0 <= i <= n,
            v@.len() == i,
            forall|j: int| 0 <= j < i ==> v@[j] == lin_item(start, width, j),
            cur == lin_item(start, width, i as int),
        decreases n - i,
    {
        v.push(cur);
        cur = add_bits(cur, width);
        i += 1;
    }
    proof {
        assert(v@ =~= lin_seq(start, width, n as int));
    }
    v
}


/// The abstract value of a histogram's mutable state: per-bucket hit
/// counts, the overflow count, and the encoded floating sum.
#[verifier::ext_equal]
pub struct HistogramModel {
    pub buckets: Seq<u64>,
    pub inf: u64,
    pub sum: u64,
}

/// A fresh histogram state over `n` buckets: every count zero, the sum
/// the encoding of positive zero.
pub open spec fn zero_model(n: nat) -> HistogramModel {
    HistogramModel { buckets: Seq::new(n, |i: int| 0u64), inf: 0u64, sum: POS_ZERO_BITS }
}

/// One observation applied to the abstract state: one hit added to bucket
/// `bucket` (the overflow count, past the end), wrapping at the word size,
/// and `x` added to the floating sum.
pub open spec fn observe_model(m: HistogramModel, bucket: int, x: u64) -> HistogramModel {
    if 0 <= bucket < m.buckets.len() {
        HistogramModel {
            buckets: m.buckets.update(bucket, crate::counter::counter_add(m.buckets[bucket], 1)),
            inf: m.inf,
            sum: add_of(m.sum, x),
        }
    } else {
        HistogramModel {
            buckets: m.buckets,
            inf: crate::counter::counter_add(m.inf, 1),
            sum: add_of(m.sum, x),
        }
    }
}

/// The mutable numeric state of a histogram: one hit counter per finite
/// bucket, an overflow counter for observations above every bound, and
/// the encoded IEEE sum of every observed value.
pub struct HistogramStateInner {
    pub buckets: Vec<u64>,
    pub inf: u64,
    pub sum: u64,
}

impl View for HistogramStateInner {
    type V = HistogramModel;

    open spec fn view(&self) -> HistogramModel {
        HistogramModel { buckets: self.buckets@, inf: self.inf, sum: self.sum }
    }
}

impl HistogramStateInner {
    /// A fresh state over `n` buckets.
    pub fn new(n: usize) -> (s: Self)
        ensures
            s@ =~= zero_model(n as nat),
    {
        let mut buckets: Vec<u64> = Vec::new();
        let mut i: usize = 0;
        while i < n
            invariant
                0 <= i <= n,
                buckets@.len() == i,
                forall|j: int| 0 <= j < i ==> buckets@[j] == 0u64,
            decreases n - i,
        {
            buckets.push(0);
            i += 1;
        }
        let s = HistogramStateInner { buckets, inf: 0, sum: POS_ZERO_BITS };
        proof {
            assert(s@ =~= zero_model(n as nat));
        }
        s
    }

    /// Record one observation of value `x` in bucket `bucket`; the index
    /// one past the last bucket stands for the overflow bucket.
    pub fn observe(&mut self, bucket: usize, x: u64)
        requires
            bucket <= old(self).buckets@.len(),
        ensures
            final(self)@ =~= observe_model(old(self)@, bucket as int, x),
    {
        if bucket < self.buckets.len() {
            let c = self.buckets[bucket];
            self.buckets.set(bucket, c.wrapping_add(1));
        } else {
            self.inf = self.inf.wrapping_add(1);
        }
        self.sum = add_bits(self.sum, x);
    }

    /// A non-destructive snapshot: the per-bucket hit counts, the
    /// overflow count, and the encoded sum.
    pub fn sample(&self) -> (r: (Vec<u64>, u64, u64))
        ensures
            r.0@ == self@.buckets,
            r.1 == self@.inf,
            r.2 == self@.sum,
    {
        let n = self.buckets.len();
        let mut out: Vec<u64> = Vec::new();
        let mut i: usize = 0;
        while i < n
            invariant
                0 <= i <= n,
                n == self.buckets@.len(),
                out@.len() == i,
                forall|j: int| 0 <= j < i ==> out@[j] == self.buckets@[j],
            decreases n - i,
        {
            out.push(self.buckets[i]);
            i += 1;
        }
        proof {
            assert(out@ =~= self@.buckets);
        }
        (out, self.inf, self.sum)
    }
}

/// The state of a histogram metric.  Observations pick their bucket by a
/// partition-point search of the thresholds and then update the inner
/// counters.
pub struct HistogramState {
    pub inner: HistogramStateInner,
}

impl View for HistogramState {
    type V = HistogramModel;

    open spec fn view(&self) -> HistogramModel {
        self.inner@
    }
}

impl HistogramState {
    /// A fresh histogram state over `n` buckets.
    pub fn new(n: usize) -> (s: Self)
        ensures
            s@ =~= zero_model(n as nat),
    {
        HistogramState { inner: HistogramStateInner::new(n) }
    }

    /// Add a single observation, encoded as `x`, classified against the
    /// thresholds `t`.
    pub fn observe(&mut self, t: &Thresholds, x: u64)
        requires
            t.wf(),
            old(self)@.buckets.len() == t.le@.len(),
        ensures
            final(self)@ =~= observe_model(old(self)@, bucket_index(t.le@, x), x),
    {
        let bucket = t.partition_point(x);
        proof {
            lemma_bucket_index_is_partition(t.le@, x);
        }
        self.inner.observe(bucket, x);
    }

    /// A non-destructive snapshot of the counters and the sum.
    pub fn sample(&self) -> (r: (Vec<u64>, u64, u64))
        ensures
            r.0@ == self@.buckets,
            r.1 == self@.inf,
            r.2 == self@.sum,
    {
        self.inner.sample()
    }
}


/// The encoded IEEE sum of a sequence of observed values, added in order,
/// starting from positive zero.
pub open spec fn fold_sum(vs: Seq<u64>) -> u64
    decreases vs.len(),
{
    if vs.len() == 0 {
        POS_ZERO_BITS
    } else {
        add_of(fold_sum(vs.drop_last()), vs.last())
    }
}

/// The abstract state after a whole sequence of observations, each
/// classified against the thresholds `le`.
pub open spec fn observe_all(m: HistogramModel, le: Seq<u64>, vs: Seq<u64>) -> HistogramModel
    decreases vs.len(),
{
    if vs.len() == 0 {
        m
    } else {
        observe_model(
            observe_all(m, le, vs.drop_last()),
            bucket_index(le, vs.last()),
            vs.last(),
        )
    }
}

/// How many of the observed values are at or below the bound `b`.
pub open spec fn count_le(vs: Seq<u64>, b: u64) -> int
    decreases vs.len(),
{
    if vs.len() == 0 {
        0
    } else {
        count_le(vs.drop_last(), b) + if key_of(vs.last()) <= key_of(b) {
            1int
        } else {
            0int
        }
    }
}

/// The exact (unreduced) total of the first `k` bucket counters.
pub open spec fn prefix_total(buckets: Seq<u64>, k: int) -> int
    decreases k,
{
    if k <= 0 {
        0
    } else {
        prefix_total(buckets, k - 1) + buckets[k - 1]
    }
}

proof fn lemma_prefix_total_zero(n: nat, k: int)
    requires
        k <= n,
    ensures
        prefix_total(zero_model(n).buckets, k) == 0,
    decreases k,
{
    if k > 0 {
        lemma_prefix_total_zero(n, k - 1);
    }
}

proof fn lemma_prefix_total_nonneg(buckets: Seq<u64>, k: int)
    ensures
        prefix_total(buckets, k) >= 0,
    decreases k,
{
    if k > 0 {
        lemma_prefix_total_nonneg(buckets, k - 1);
    }
}

proof fn lemma_bucket_le_prefix(buckets: Seq<u64>, b: int, k: int)
    requires
        0 <= b < k <= buckets.len(),
    ensures
        buckets[b] <= prefix_total(buckets, k),
    decreases k,
{
    if k == b + 1 {
        lemma_prefix_total_nonneg(buckets, b);
    } else {
        lemma_bucket_le_prefix(buckets, b, k - 1);
        assert(buckets[k - 1] >= 0);
    }
}

proof fn lemma_prefix_update(buckets: Seq<u64>, b: int, c: u64, k: int)
    requires
        0 <= b < buckets.len(),
        k <= buckets.len(),
    ensures
        prefix_total(buckets.update(b, c), k) == prefix_total(buckets, k) + if b < k {
            c - buckets[b]
        } else {
            0
        },
    decreases k,
{
    if k > 0 {
        lemma_prefix_update(buckets, b, c, k - 1);
    }
}

/// `bucket_index` against a sorted sequence sends a value at or below
/// `le[i]` to a bucket at or below `i`, and conversely.
proof fn lemma_bucket_iff(le: Seq<u64>, v: u64, i: int)
    requires
        buckets_ok(le),
        0 <= i < le.len(),
    ensures
        bucket_index(le, v) <= i <==> key_of(v) <= key_of(le[i]),
{
    lemma_bucket_index_is_partition(le, v);
    let b = bucket_index(le, v);
    if key_of(v) <= key_of(le[i]) {
        if i < b {
            assert(key_of(le[i]) < key_of(v));
        }
    }
    if b <= i {
        if b < i {
            assert(key_of(le[b]) < key_of(le[i]));
        }
    }
}

/// Law: after any sequence of observations on a fresh histogram — as long
/// as their number fits in 64 bits — the overflow counter plus the finite
/// bucket counters account for every observation; the running (cumulative)
/// total up to each threshold equals the number of observed values at or
/// below that threshold; and the stored sum is the IEEE sum of the
/// observed values, added in observation order.
pub proof fn lemma_histogram_collection(le: Seq<u64>, vs: Seq<u64>)
    requires
        buckets_ok(le),
        vs.len() < 0x1_0000_0000_0000_0000,
    ensures
        ({
            let m = observe_all(zero_model(le.len()), le, vs);
            &&& m.buckets.len() == le.len()
            &&& m.inf + prefix_total(m.buckets, le.len() as int) == vs.len()
            &&& forall|i: int|
                0 <= i < le.len() ==> prefix_total(m.buckets, i + 1) == count_le(vs, #[trigger] le[i])
            &&& m.sum == fold_sum(vs)
        }),
    decreases vs.len(),
{
    let n = le.len() as int;
    if vs.len() == 0 {
        lemma_prefix_total_zero(le.len(), n);
        assert forall|i: int| 0 <= i < n implies prefix_total(
            zero_model(le.len()).buckets,
            i + 1,
        ) == count_le(vs, #[trigger] le[i]) by {
            lemma_prefix_total_zero(le.len(), i + 1);
        }
    } else {
        let w = vs.drop_last();
        let v = vs.last();
        lemma_histogram_collection(le, w);
        let m0 = observe_all(zero_model(le.len()), le, w);
        let b = bucket_index(le, v);
        let m = observe_model(m0, b, v);
        lemma_bucket_index_is_partition(le, v);
        lemma_prefix_total_nonneg(m0.buckets, n);
        if b < n {
            let c0 = m0.buckets[b];
            lemma_bucket_le_prefix(m0.buckets, b, n);
            let c1 = crate::counter::counter_add(c0, 1);
            assert(c1 == c0 + 1);
            lemma_prefix_update(m0.buckets, b, c1, n);
            assert forall|i: int| 0 <= i < n implies prefix_total(m.buckets, i + 1) == count_le(
                vs,
                #[trigger] le[i],
            ) by {
                lemma_prefix_update(m0.buckets, b, c1, i + 1);
                lemma_bucket_iff(le, v, i);
            }
        } else {
            assert(m0.inf < 0xFFFF_FFFF_FFFF_FFFF);
            assert forall|i: int| 0 <= i < n implies prefix_total(m.buckets, i + 1) == count_le(
                vs,
                #[trigger] le[i],
            ) by {
                lemma_bucket_iff(le, v, i);
            }
        }
    }
}

} // verus!
