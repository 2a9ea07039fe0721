//! Label-indexed metric storage: a fixed dense array when the label
//! space's cardinality is finite and known, a lazily grown map otherwise.
//! The dense array never grows after construction; the sparse map creates
//! each entry exactly once, on its first update.

use vstd::prelude::*;
use std::collections::HashMap;

use crate::counter::{counter_add, CounterState};
use crate::histogram::{bucket_index, observe_model, HistogramState, Thresholds};
use crate::label::LabelSpace;
use crate::metric::MetricType;

verus! {

broadcast use vstd::std_specs::hash::group_hash_axioms;

/// The storage identity of a label group, as issued by one label space.
/// It must only be used against the vector whose label space issued it.
#[derive(Clone, Copy, PartialEq, Eq, Structural, Debug)]
pub struct LabelId(pub u64);

/// The backing storage of a [`MetricVec`]: a dense array indexed by the
/// dense code, or a map keyed by the identity, with the keys also kept in
/// insertion order for deterministic collection.
pub enum VecInner<M> {
    Dense(Vec<M>),
    Sparse(HashMap<u64, M>, Vec<u64>),
}

/// A collection of metric states keyed by label-group identity, with the
/// per-vector metadata and the label space that issues identities.
pub struct MetricVec<M: MetricType, L: LabelSpace> {
    pub metrics: VecInner<M>,
    pub metadata: M::Metadata,
    pub label_set: L,
}

impl<M: MetricType, L: LabelSpace> MetricVec<M, L> {
    /// Well-formedness: the metadata is acceptable; a dense array has
    /// exactly the label space's cardinality, for ever; a sparse map's
    /// keys are issued identities, recorded once each in insertion order;
    /// and every stored state is consistent with the metadata.
    pub open spec fn wf(&self) -> bool {
        &&& M::meta_wf(&self.metadata)
        &&& match self.metrics {
            VecInner::Dense(v) => {
                &&& self.label_set.spec_cardinality() matches Some(c) && c == v@.len()
                &&& forall|i: int| 0 <= i < v@.len() ==> (#[trigger] v@[i]).wf(&self.metadata)
            },
            VecInner::Sparse(m, keys) => {
                &&& keys@.no_duplicates()
                &&& m@.dom() == keys@.to_set()
                &&& forall|i: int| 0 <= i < keys@.len() ==> self.label_set.id_ok(#[trigger] keys@[i])
                &&& forall|k: u64| m@.contains_key(k) ==> (#[trigger] m@[k]).wf(&self.metadata)
            },
        }
    }

    /// The abstract value stored for identity `id`, if an entry exists.
    pub open spec fn stored(&self, id: u64) -> Option<M::V> {
        match self.metrics {
            VecInner::Dense(v) => {
                let i = self.label_set.dense_of(id);
                if 0 <= i < v@.len() {
                    Some(v@[i]@)
                } else {
                    None
                }
            },
            VecInner::Sparse(m, keys) => {
                if m@.contains_key(id) {
                    Some(m@[id]@)
                } else {
                    None
                }
            },
        }
    }

    /// The abstract value stored for `id`, a fresh state standing in
    /// where no entry exists yet.
    pub open spec fn stored_or_zero(&self, id: u64) -> M::V {
        match self.stored(id) {
            Some(v) => v,
            None => M::zero_view(&self.metadata),
        }
    }

    /// Create a vector: dense, pre-sized to the label space's exact
    /// cardinality, when that is finite and known; sparse otherwise.
    pub fn new_metric_vec(label_set: L, metadata: M::Metadata) -> (r: Self)
        requires
            M::meta_wf(&metadata),
        ensures
            r.wf(),
            r.label_set == label_set,
            r.metadata == metadata,
            r.metrics is Dense <==> label_set.spec_cardinality() is Some,
            forall|id: u64|
                #[trigger] r.stored(id) matches Some(v) ==> v == M::zero_view(&metadata),
            r.metrics matches VecInner::Sparse(m, keys) ==> m@ == Map::<u64, M>::empty()
                && keys@ == Seq::<u64>::empty(),
    {
        match label_set.cardinality() {
            Some(c) => {
                let mut v: Vec<M> = Vec::new();
                let mut i: usize = 0;
                while i < c
                    invariant
                        0 <= i <= c,
                        v@.len() == i,
                        M::meta_wf(&metadata),
                        forall|j: int|
                            0 <= j < i ==> (#[trigger] v@[j]).wf(&metadata) && v@[j]@
                                == M::zero_view(&metadata),
                    decreases c - i,
                {
                    v.push(M::new_state(&metadata));
                    i += 1;
                }
                MetricVec { metrics: VecInner::Dense(v), metadata, label_set }
            },
            None => {
                let r = MetricVec {
                    metrics: VecInner::Sparse(HashMap::new(), Vec::new()),
                    metadata,
                    label_set,
                };
                proof {
                    let m = r.metrics.arrow_Sparse_0();
                    let keys = r.metrics.arrow_Sparse_1();
                    assert(m@.dom() =~= keys@.to_set());
                }
                r
            },
        }
    }

    /// Create a sparse vector even for a label space that reports a
    /// finite cardinality: an opt-in for bounded but impractically large
    /// label spaces.
    pub fn new_sparse_metric_vec(label_set: L, metadata: M::Metadata) -> (r: Self)
        requires
            M::meta_wf(&metadata),
        ensures
            r.wf(),
            r.label_set == label_set,
            r.metadata == metadata,
            r.metrics matches VecInner::Sparse(m, keys) ==> m@ == Map::<u64, M>::empty()
                && keys@ == Seq::<u64>::empty(),
            r.metrics is Sparse,
    {
        let r = MetricVec {
            metrics: VecInner::Sparse(HashMap::new(), Vec::new()),
            metadata,
            label_set,
        };
        proof {
            let m = r.metrics.arrow_Sparse_0();
            let keys = r.metrics.arrow_Sparse_1();
            assert(m@.dom() =~= keys@.to_set());
        }
        r
    }

    /// The per-vector metadata.
    pub fn metadata(&self) -> (r: &M::Metadata)
        ensures
            r == &self.metadata,
    {
        &self.metadata
    }

    /// Encode a label group against this vector's label space.  `None`
    /// when the space cannot represent the group.
    pub fn with_labels(&self, label: &L::Group) -> (r: Option<LabelId>)
        ensures
            r is Some <==> self.label_set.spec_encode(label) is Some,
            r matches Some(lid) ==> self.label_set.spec_encode(label) == Some(lid.0)
                && self.label_set.id_ok(lid.0),
    {
        match self.label_set.encode(label) {
            Some(id) => Some(LabelId(id)),
            None => None,
        }
    }

    /// Resolve `id` to its stored state, creating the entry (sparse
    /// storage only) if this is the identity's first update, and perform
    /// one update on it.  Creation is idempotent: an entry is created at
    /// most once per identity, and a dense array never changes size.
    pub fn apply(&mut self, id: LabelId, op: u64)
        requires
            old(self).wf(),
            old(self).label_set.id_ok(id.0),
        ensures
            final(self).wf(),
            final(self).metadata == old(self).metadata,
            final(self).label_set == old(self).label_set,
            final(self).stored(id.0) == Some(
                M::apply_view(old(self).stored_or_zero(id.0), &old(self).metadata, op),
            ),
            forall|k: u64|
                old(self).label_set.id_ok(k) && k != id.0 ==> final(self).stored(k) == old(
                    self,
                ).stored(k),
            match (old(self).metrics, final(self).metrics) {
                (VecInner::Dense(v0), VecInner::Dense(v1)) => v0@.len() == v1@.len(),
                (VecInner::Sparse(m0, k0), VecInner::Sparse(m1, k1)) => k1@ == if m0@.contains_key(
                    id.0,
                ) {
                    k0@
                } else {
                    k0@.push(id.0)
                },
                _ => false,
            },
    {
        let ghost pre = *self;
        match &mut self.metrics {
            VecInner::Dense(v) => {
                let idx = self.label_set.encode_dense(id.0);
                // The stored state is updated by taking it out against a
                // fresh placeholder and putting it back: the update needs
                // ownership of the entry for the duration of the call.
                let mut tmp = M::new_state(&self.metadata);
                v.set_and_swap(idx, &mut tmp);
                tmp.apply(&self.metadata, op);
                v.set_and_swap(idx, &mut tmp);
                proof {
                    assert forall|k: u64|
                        pre.label_set.id_ok(k) && k != id.0 implies final(self).stored(k)
                        == pre.stored(k) by {
                        if pre.label_set.spec_cardinality() is Some {
                            pre.label_set.lemma_dense_injective(k, id.0);
                        }
                    }
                }
            },
            VecInner::Sparse(m, keys) => {
                if !m.contains_key(&id.0) {
                    m.insert(id.0, M::new_state(&self.metadata));
                    keys.push(id.0);
                    proof {
                        let oldm = pre.metrics.arrow_Sparse_0();
                        let oldkeys = pre.metrics.arrow_Sparse_1();
                        assert(!oldkeys@.to_set().contains(id.0));
                        assert(!oldkeys@.contains(id.0));
                        assert forall|k: u64| keys@.contains(k) implies m@.dom().contains(
                            k,
                        ) by {
                            let i = choose|i: int| 0 <= i < keys@.len() && keys@[i] == k;
                            if i < oldkeys@.len() {
                                assert(oldkeys@[i] == k);
                                assert(oldkeys@.to_set().contains(k));
                            }
                        }
                        assert forall|k: u64| m@.dom().contains(k) implies keys@.contains(
                            k,
                        ) by {
                            if k == id.0 {
                                assert(keys@[oldkeys@.len() as int] == k);
                            } else {
                                assert(oldkeys@.to_set().contains(k));
                                let i = choose|i: int|
                                    0 <= i < oldkeys@.len() && oldkeys@[i] == k;
                                assert(keys@[i] == k);
                            }
                        }
                        assert(m@.dom() =~= keys@.to_set());
                        assert(keys@.no_duplicates()) by {
                            assert forall|i: int, j: int|
                                0 <= i < j < keys@.len() implies keys@[i] != keys@[j] by {
                                if j < oldkeys@.len() {
                                    assert(oldkeys@[i] == keys@[i] && oldkeys@[j] == keys@[j]);
                                } else {
                                    assert(keys@[j] == id.0);
                                    assert(oldkeys@[i] == keys@[i]);
                                    if keys@[i] == id.0 {
                                        assert(oldkeys@.contains(id.0));
                                    }
                                }
                            }
                        }
                    }
                }
                let entry = m.remove(&id.0);
                match entry {
                    Some(mut s) => {
                        s.apply(&self.metadata, op);
                        m.insert(id.0, s);
                        proof {
                            assert(m@.dom() =~= keys@.to_set());
                        }
                    },
                    None => {
                        proof {
                            assert(false);
                        }
                    },
                }
            },
        }
    }

    /// A read-only reference to the state stored for `id`; `None` when a
    /// sparse entry has not been created yet.
    pub fn get_metric(&self, id: LabelId) -> (r: Option<&M>)
        requires
            self.wf(),
            self.label_set.id_ok(id.0),
        ensures
            match r {
                Some(m) => self.stored(id.0) == Some(m@),
                None => self.stored(id.0) is None,
            },
    {
        match &self.metrics {
            VecInner::Dense(v) => {
                let idx = self.label_set.encode_dense(id.0);
                Some(&v[idx])
            },
            VecInner::Sparse(m, keys) => m.get(&id.0),
        }
    }
}

/// A vector of counters.
pub type CounterVec<L> = MetricVec<CounterState, L>;

/// A vector of histograms sharing one set of thresholds.
pub type HistogramVec<L> = MetricVec<HistogramState, L>;

impl<L: LabelSpace> MetricVec<CounterState, L> {
    /// Create a counter vector over the given label space.
    pub fn new_counter_vec(label_set: L) -> (r: Self)
        ensures
            r.wf(),
            r.label_set == label_set,
            r.metrics is Dense <==> label_set.spec_cardinality() is Some,
            forall|id: u64| #[trigger] r.stored(id) matches Some(v) ==> v == 0u64,
    {
        Self::new_metric_vec(label_set, ())
    }

    /// Create a sparse counter vector over the given label space.
    pub fn new_sparse_counter_vec(label_set: L) -> (r: Self)
        ensures
            r.wf(),
            r.label_set == label_set,
            r.metrics is Sparse,
    {
        Self::new_sparse_metric_vec(label_set, ())
    }

    /// Add one to the counter of the given label group.  The group must
    /// be representable in the label space: an unrepresentable group is
    /// an instrumentation defect.
    pub fn inc(&mut self, label: &L::Group)
        requires
            old(self).wf(),
            old(self).label_set.spec_encode(label) is Some,
        ensures
            final(self).wf(),
            final(self).label_set == old(self).label_set,
            ({
                let id = old(self).label_set.spec_encode(label).unwrap();
                &&& final(self).stored(id) == Some(
                    counter_add(old(self).stored_or_zero(id), 1),
                )
                &&& forall|k: u64|
                    old(self).label_set.id_ok(k) && k != id ==> final(self).stored(k) == old(
                        self,
                    ).stored(k)
            }),
    {
        let id = self.with_labels(label).unwrap();
        self.apply(id, 1);
    }

    /// Add `x` to the counter of the given label group.
    pub fn inc_by(&mut self, label: &L::Group, x: u64)
        requires
            old(self).wf(),
            old(self).label_set.spec_encode(label) is Some,
        ensures
            final(self).wf(),
            final(self).label_set == old(self).label_set,
            ({
                let id = old(self).label_set.spec_encode(label).unwrap();
                &&& final(self).stored(id) == Some(
                    counter_add(old(self).stored_or_zero(id), x),
                )
                &&& forall|k: u64|
                    old(self).label_set.id_ok(k) && k != id ==> final(self).stored(k) == old(
                        self,
                    ).stored(k)
            }),
    {
        let id = self.with_labels(label).unwrap();
        self.apply(id, x);
    }
}

impl<L: LabelSpace> MetricVec<HistogramState, L> {
    /// Create a histogram vector over the given label space and
    /// thresholds.
    pub fn new(label_set: L, t: Thresholds) -> (r: Self)
        requires
            t.wf(),
        ensures
            r.wf(),
            r.label_set == label_set,
            r.metadata == t,
            r.metrics is Dense <==> label_set.spec_cardinality() is Some,
    {
        Self::new_metric_vec(label_set, t)
    }

    /// Create a sparse histogram vector over the given label space and
    /// thresholds.
    pub fn new_sparse(label_set: L, t: Thresholds) -> (r: Self)
        requires
            t.wf(),
        ensures
            r.wf(),
            r.label_set == label_set,
            r.metadata == t,
            r.metrics is Sparse,
    {
        Self::new_sparse_metric_vec(label_set, t)
    }

    /// Add a single observation, encoded as `x`, to the histogram of the
    /// given label group.
    pub fn observe(&mut self, label: &L::Group, x: u64)
        requires
            old(self).wf(),
            old(self).label_set.spec_encode(label) is Some,
        ensures
            final(self).wf(),
            final(self).label_set == old(self).label_set,
            final(self).metadata == old(self).metadata,
            ({
                let id = old(self).label_set.spec_encode(label).unwrap();
                &&& final(self).stored(id) == Some(
                    observe_model(
                        old(self).stored_or_zero(id),
                        bucket_index(old(self).metadata.le@, x),
                        x,
                    ),
                )
                &&& forall|k: u64|
                    old(self).label_set.id_ok(k) && k != id ==> final(self).stored(k) == old(
                        self,
                    ).stored(k)
            }),
    {
        let id = self.with_labels(label).unwrap();
        self.apply(id, x);
    }
}


/// The sparse storage contents after `n` updates that all target the
/// identity `id`, starting from empty storage, each one performed as
/// [`MetricVec::apply`] performs it for a counter: idempotent creation of
/// the entry, then an exact add of one.
pub open spec fn first_touch_counts(id: u64, n: nat) -> Map<u64, u64>
    decreases n,
{
    if n == 0 {
        Map::empty()
    } else {
        let prev = first_touch_counts(id, (n - 1) as nat);
        let cur: u64 = if prev.contains_key(id) {
            prev[id]
        } else {
            0u64
        };
        prev.insert(id, counter_add(cur, 1))
    }
}

/// Law: `n` first increments against one and the same fresh label
/// identity leave exactly one stored entry, and its value is exactly `n`:
/// creation is idempotent and no increment is lost or duplicated.
pub proof fn lemma_sparse_first_touch(id: u64, n: nat)
    requires
        n < 0x1_0000_0000_0000_0000,
    ensures
        n == 0 ==> first_touch_counts(id, n) == Map::<u64, u64>::empty(),
        n > 0 ==> first_touch_counts(id, n).dom() == set![id] && first_touch_counts(id, n)[id]
            == n,
    decreases n,
{
    if n > 0 {
        lemma_sparse_first_touch(id, (n - 1) as nat);
        if n == 1 {
            assert(first_touch_counts(id, n).dom() =~= set![id]);
        } else {
            assert(first_touch_counts(id, n).dom() =~= set![id]);
        }
    }
}

} // verus!
