//! Label groups as concrete data, and the label-space capability that
//! turns a label group into a stable integer identity and back.

use vstd::prelude::*;

verus! {

/// One label value: an integer, an encoded double, or a byte string.
pub enum LabelValue {
    Int(u64),
    Float(u64),
    Str(Vec<u8>),
}

/// The abstract value of a label value.
#[verifier::ext_equal]
pub enum LabelValueView {
    Int(u64),
    Float(u64),
    Str(Seq<u8>),
}

/// One named label value of a sample.
pub struct LabelPair {
    pub name: Vec<u8>,
    pub value: LabelValue,
}

/// The abstract value of a named label value.
#[verifier::ext_equal]
pub struct LabelPairView {
    pub name: Seq<u8>,
    pub value: LabelValueView,
}

impl View for LabelValue {
    type V = LabelValueView;

    open spec fn view(&self) -> LabelValueView {
        match self {
            LabelValue::Int(v) => LabelValueView::Int(*v),
            LabelValue::Float(b) => LabelValueView::Float(*b),
            LabelValue::Str(s) => LabelValueView::Str(s@),
        }
    }
}

impl View for LabelPair {
    type V = LabelPairView;

    open spec fn view(&self) -> LabelPairView {
        LabelPairView { name: self.name@, value: self.value@ }
    }
}

/// The abstract value of a whole label group.
pub open spec fn pairs_view(s: Seq<LabelPair>) -> Seq<LabelPairView> {
    s.map_values(|p: LabelPair| p@)
}

/// The label-space capability storage depends on: it reports the
/// cardinality of its label space, encodes a label group into a stable
/// integer identity, translates identities to dense indexes when the
/// space is finite, and decodes identities back into label groups at
/// collection time.
pub trait LabelSpace: Sized {
    /// The label-group value this space encodes.
    type Group;

    /// The total number of distinct label groups, if finite and known.
    spec fn spec_cardinality(&self) -> Option<usize>;

    /// Whether `id` is an identity this space has issued.
    spec fn id_ok(&self, id: u64) -> bool;

    /// What encoding a group yields.
    spec fn spec_encode(&self, g: &Self::Group) -> Option<u64>;

    /// The dense index behind an issued identity.
    spec fn dense_of(&self, id: u64) -> int;

    /// The label group behind an issued identity.
    spec fn group_of(&self, id: u64) -> Seq<LabelPairView>;

    /// The label group behind a dense index.
    spec fn dense_group_of(&self, index: int) -> Seq<LabelPairView>;

    /// The cardinality of the label space, or `None` when unbounded.
    fn cardinality(&self) -> (r: Option<usize>)
        ensures
            r == self.spec_cardinality(),
    ;

    /// Encode a label group into its identity; `None` when the group is
    /// not representable in this space.
    fn encode(&self, g: &Self::Group) -> (r: Option<u64>)
        ensures
            r == self.spec_encode(g),
            r matches Some(id) ==> self.id_ok(id),
    ;

    /// Translate an issued identity to a dense index.  This always
    /// succeeds for an issued identity of a finite space: that is part of
    /// the label-space contract.
    fn encode_dense(&self, id: u64) -> (r: usize)
        requires
            self.id_ok(id),
            self.spec_cardinality() is Some,
        ensures
            r == self.dense_of(id),
            r < self.spec_cardinality().unwrap(),
    ;

    /// Decode a dense index back into its label group.
    fn decode_dense(&self, index: usize) -> (g: Vec<LabelPair>)
        requires
            self.spec_cardinality() matches Some(c) && index < c,
        ensures
            pairs_view(g@) == self.dense_group_of(index as int),
    ;

    /// Decode an issued identity back into its label group.
    fn decode(&self, id: u64) -> (g: Vec<LabelPair>)
        requires
            self.id_ok(id),
        ensures
            pairs_view(g@) == self.group_of(id),
    ;

    /// Distinct issued identities of a finite space have distinct dense
    /// indexes.
    proof fn lemma_dense_injective(&self, a: u64, b: u64)
        requires
            self.id_ok(a),
            self.id_ok(b),
            a != b,
            self.spec_cardinality() is Some,
        ensures
            self.dense_of(a) != self.dense_of(b),
    ;
}


/// An exact copy of a byte vector.
fn copy_bytes(src: &Vec<u8>) -> (v: Vec<u8>)
    ensures
        v@ == src@,
{
    let n = src.len();
    let mut v: Vec<u8> = Vec::new();
    let mut i: usize = 0;
    while i < n
        invariant
            0 <= i <= n,
            n == src@.len(),
            v@.len() == i,
            forall|j: int| 0 <= j < i ==> v@[j] == src@[j],
        decreases n - i,
    {
        v.push(src[i]);
        i += 1;
    }
    proof {
        assert(v@ =~= src@);
    }
    v
}

/// A finite label space over one integer-valued label: the groups are the
/// integers `0 .. cardinality`, each its own identity and dense index.
pub struct SmallIntLabelSpace {
    pub label_name: Vec<u8>,
    pub card: usize,
}

impl LabelSpace for SmallIntLabelSpace {
    type Group = u64;

    open spec fn spec_cardinality(&self) -> Option<usize> {
        Some(self.card)
    }

    open spec fn id_ok(&self, id: u64) -> bool {
        id < self.card
    }

    open spec fn spec_encode(&self, g: &u64) -> Option<u64> {
        if *g < self.card {
            Some(*g)
        } else {
            None
        }
    }

    open spec fn dense_of(&self, id: u64) -> int {
        id as int
    }

    open spec fn group_of(&self, id: u64) -> Seq<LabelPairView> {
        seq![LabelPairView { name: self.label_name@, value: LabelValueView::Int(id) }]
    }

    open spec fn dense_group_of(&self, index: int) -> Seq<LabelPairView> {
        seq![
            LabelPairView { name: self.label_name@, value: LabelValueView::Int(index as u64) },
        ]
    }

    fn cardinality(&self) -> (r: Option<usize>) {
        Some(self.card)
    }

    fn encode(&self, g: &u64) -> (r: Option<u64>) {
        if *g < self.card as u64 {
            Some(*g)
        } else {
            None
        }
    }

    fn encode_dense(&self, id: u64) -> (r: usize) {
        id as usize
    }

    fn decode_dense(&self, index: usize) -> (g: Vec<LabelPair>) {
        let mut v: Vec<LabelPair> = Vec::new();
        let name = copy_bytes(&self.label_name);
        v.push(LabelPair { name, value: LabelValue::Int(index as u64) });
        proof {
            assert(pairs_view(v@) =~~= self.dense_group_of(index as int));
        }
        v
    }

    fn decode(&self, id: u64) -> (g: Vec<LabelPair>) {
        let mut v: Vec<LabelPair> = Vec::new();
        let name = copy_bytes(&self.label_name);
        v.push(LabelPair { name, value: LabelValue::Int(id) });
        proof {
            assert(pairs_view(v@) =~~= self.group_of(id));
        }
        v
    }

    proof fn lemma_dense_injective(&self, a: u64, b: u64) {
    }
}

/// An unbounded label space over one integer-valued label: every 64-bit
/// integer is a group, and is its own identity.
pub struct WideIntLabelSpace {
    pub label_name: Vec<u8>,
}

impl LabelSpace for WideIntLabelSpace {
    type Group = u64;

    open spec fn spec_cardinality(&self) -> Option<usize> {
        None
    }

    open spec fn id_ok(&self, id: u64) -> bool {
        true
    }

    open spec fn spec_encode(&self, g: &u64) -> Option<u64> {
        Some(*g)
    }

    open spec fn dense_of(&self, id: u64) -> int {
        0
    }

    open spec fn group_of(&self, id: u64) -> Seq<LabelPairView> {
        seq![LabelPairView { name: self.label_name@, value: LabelValueView::Int(id) }]
    }

    open spec fn dense_group_of(&self, index: int) -> Seq<LabelPairView> {
        Seq::empty()
    }

    fn cardinality(&self) -> (r: Option<usize>) {
        None
    }

    fn encode(&self, g: &u64) -> (r: Option<u64>) {
        Some(*g)
    }

    fn encode_dense(&self, id: u64) -> (r: usize) {
        unreached()
    }

    fn decode_dense(&self, index: usize) -> (g: Vec<LabelPair>) {
        unreached()
    }

    fn decode(&self, id: u64) -> (g: Vec<LabelPair>) {
        let mut v: Vec<LabelPair> = Vec::new();
        let name = copy_bytes(&self.label_name);
        v.push(LabelPair { name, value: LabelValue::Int(id) });
        proof {
            assert(pairs_view(v@) =~~= self.group_of(id));
        }
        v
    }

    proof fn lemma_dense_injective(&self, a: u64, b: u64) {
    }
}

} // verus!
