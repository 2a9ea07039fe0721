//! Metric names: validation against the exposition-format name grammar,
//! and allocation-free composition with namespace prefixes and semantic
//! suffixes, deferring concatenation to encode time.

use vstd::prelude::*;
use vstd::string::StringSliceAdditionalSpecFns;
use vstd::string::StrSliceExecFns;
use bytes::BytesMut;

use crate::buffer::{buf_extend, buf_push_byte, bytes_view};

verus! {

/// Whether `c` may appear in a metric name: an ASCII letter, a decimal
/// digit, an underscore, or a colon.
pub open spec fn is_name_byte(c: u8) -> bool {
    ||| 97 <= c <= 122
    ||| 65 <= c <= 90
    ||| 48 <= c <= 57
    ||| c == 95
    ||| c == 58
}

/// Whether `c` is a decimal digit.
pub open spec fn is_digit_byte(c: u8) -> bool {
    48 <= c <= 57
}

/// The metric-name grammar: non-empty, every byte in the accepted class,
/// and the first byte not a digit.
pub open spec fn valid_name_bytes(s: Seq<u8>) -> bool {
    &&& s.len() > 0
    &&& forall|i: int| 0 <= i < s.len() ==> is_name_byte(#[trigger] s[i])
    &&& !is_digit_byte(s[0])
}

/// Why a metric name was rejected.
#[derive(Debug, Clone, Copy, PartialEq, Eq, Structural)]
pub enum InvalidMetricName {
    /// Some byte is outside the accepted character class.
    InvalidChars,
    /// The name is empty.
    Empty,
    /// The name starts with a decimal digit.
    StartsWithNumber,
}

impl InvalidMetricName {
    /// A human-readable account of the rejection.
    pub fn message(&self) -> &'static str {
        match self {
            InvalidMetricName::InvalidChars => "metric name contained invalid characters",
            InvalidMetricName::Empty => "metric name was empty",
            InvalidMetricName::StartsWithNumber => "metric name started with a number",
        }
    }
}

/// A validated metric name: a byte string that satisfies the name grammar.
pub struct CheckedMetricName {
    pub bytes: Vec<u8>,
}

fn name_byte_ok(c: u8) -> (r: bool)
    ensures
        r == is_name_byte(c),
{
    (97 <= c && c <= 122) || (65 <= c && c <= 90) || (48 <= c && c <= 57) || c == 95
        || c == 58
}

impl CheckedMetricName {
    /// Well-formedness: the held bytes satisfy the name grammar.
    pub open spec fn wf(&self) -> bool {
        valid_name_bytes(self.bytes@)
    }

    /// Validate `value` as a metric name.  Returns exactly one error for a
    /// rejected name: `Empty` for an empty string; otherwise
    /// `InvalidChars` if any byte falls outside the accepted class;
    /// otherwise `StartsWithNumber` if the first byte is a digit.
    pub fn try_from_bytes(value: Vec<u8>) -> (r: Result<Self, InvalidMetricName>)
        ensures
            r matches Ok(n) ==> n.bytes@ == value@ && n.wf(),
            r is Ok <==> valid_name_bytes(value@),
            r == Err::<Self, _>(InvalidMetricName::Empty) <==> value@.len() == 0,
            r == Err::<Self, _>(InvalidMetricName::InvalidChars) <==> value@.len() > 0 && exists|
                i: int,
            | 0 <= i < value@.len() && !is_name_byte(#[trigger] value@[i]),
            r == Err::<Self, _>(InvalidMetricName::StartsWithNumber) <==> value@.len() > 0
                && (forall|i: int| 0 <= i < value@.len() ==> is_name_byte(#[trigger] value@[i]))
                && is_digit_byte(value@[0]),
    {
        let n = value.len();
        if n == 0 {
            return Err(InvalidMetricName::Empty);
        }
        let mut i: usize = 0;
        while i < n
            invariant
                0 <= i <= n,
                n == value@.len(),
                forall|j: int| 0 <= j < i ==> is_name_byte(#[trigger] value@[j]),
            decreases n - i,
        {
            if !name_byte_ok(value[i]) {
                return Err(InvalidMetricName::InvalidChars);
            }
            i += 1;
        }
        if value[0] >= 48 && value[0] <= 57 {
            return Err(InvalidMetricName::StartsWithNumber);
        }
        Ok(CheckedMetricName { bytes: value })
    }

    /// Validate a string as a metric name, with the same error policy as
    /// [`CheckedMetricName::try_from_bytes`].
    pub fn try_from_str(value: &str) -> (r: Result<Self, InvalidMetricName>)
        ensures
            r matches Ok(n) ==> n.bytes@ == value.spec_bytes() && n.wf(),
            r is Ok <==> valid_name_bytes(value.spec_bytes()),
            r == Err::<Self, _>(InvalidMetricName::Empty) <==> value.spec_bytes().len() == 0,
            r == Err::<Self, _>(InvalidMetricName::InvalidChars) <==> value.spec_bytes().len() > 0
                && exists|i: int|
                0 <= i < value.spec_bytes().len() && !is_name_byte(#[trigger] value.spec_bytes()[i]),
            r == Err::<Self, _>(InvalidMetricName::StartsWithNumber) <==> value.spec_bytes().len()
                > 0 && (forall|i: int|
                0 <= i < value.spec_bytes().len() ==> is_name_byte(#[trigger] value.spec_bytes()[i]))
                && is_digit_byte(value.spec_bytes()[0]),
    {
        Self::try_from_bytes(value.as_bytes_vec())
    }

    /// Construct a metric name from a string known to be valid, as names
    /// written out at build time are.  An invalid string is a demand
    /// violation; [`CheckedMetricName::try_from_str`] is the fallible
    /// entry point for names built from data.
    pub fn from_static(value: &str) -> (n: Self)
        requires
            valid_name_bytes(value.spec_bytes()),
        ensures
            n.bytes@ == value.spec_bytes(),
            n.wf(),
    {
        CheckedMetricName { bytes: value.as_bytes_vec() }
    }

    /// Add a namespace prefix to this metric name.
    pub fn in_namespace(self, ns: &str) -> (r: WithNamespace<Self>)
        requires
            valid_name_bytes(ns.spec_bytes()),
        ensures
            r.namespace@ == ns.spec_bytes(),
            r.metric_name == self,
    {
        WithNamespace { namespace: ns.as_bytes_vec(), metric_name: self }
    }

    /// Adds a semantic suffix to this metric name.
    pub fn with_suffix<S: Suffix>(self, suffix: S) -> (r: WithSuffix<S, Self>)
        ensures
            r.suffix == suffix,
            r.metric_name == self,
    {
        WithSuffix { suffix, metric_name: self }
    }
}

/// A value that can be encoded as a metric name: it stands for a byte
/// string, and writes exactly that byte string into the output buffer.
pub trait MetricName: Sized {
    /// The bytes this name stands for.
    spec fn name_bytes(&self) -> Seq<u8>;

    /// Whether the parts this name was composed from are all valid.
    spec fn name_wf(&self) -> bool;

    /// Append this name's bytes to the buffer.
    fn encode_text(&self, b: &mut BytesMut)
        requires
            self.name_wf(),
        ensures
            bytes_view(*final(b)) == bytes_view(*old(b)) + self.name_bytes(),
    ;

    /// Get a reference to this metric name.
    fn by_ref(&self) -> (r: &Self)
        ensures
            r == self,
    {
        self
    }
}

/// A semantic metric-name suffix, written after the name it qualifies.
pub trait Suffix: Sized {
    /// The bytes this suffix stands for.
    spec fn suffix_bytes(&self) -> Seq<u8>;

    /// Append this suffix's bytes to the buffer.
    fn encode_text(&self, b: &mut BytesMut)
        ensures
            bytes_view(*final(b)) == bytes_view(*old(b)) + self.suffix_bytes(),
    ;
}

/// The bytes of the `_total` suffix.
pub open spec fn total_suffix() -> Seq<u8> {
    seq![95u8, 116, 111, 116, 97, 108]
}

/// The bytes of the `_count` suffix.
pub open spec fn count_suffix() -> Seq<u8> {
    seq![95u8, 99, 111, 117, 110, 116]
}

/// The bytes of the `_sum` suffix.
pub open spec fn sum_suffix() -> Seq<u8> {
    seq![95u8, 115, 117, 109]
}

/// The bytes of the `_bucket` suffix.
pub open spec fn bucket_suffix() -> Seq<u8> {
    seq![95u8, 98, 117, 99, 107, 101, 116]
}

impl<'a, T: MetricName> MetricName for &'a T {
    open spec fn name_bytes(&self) -> Seq<u8> {
        (**self).name_bytes()
    }

    open spec fn name_wf(&self) -> bool {
        (**self).name_wf()
    }

    fn encode_text(&self, b: &mut BytesMut) {
        (**self).encode_text(b);
    }
}

impl MetricName for CheckedMetricName {
    open spec fn name_bytes(&self) -> Seq<u8> {
        self.bytes@
    }

    open spec fn name_wf(&self) -> bool {
        self.wf()
    }

    fn encode_text(&self, b: &mut BytesMut) {
        buf_extend(b, self.bytes.as_slice());
    }
}

/// A metric name wrapped with a namespace prefix; encodes as the prefix,
/// an underscore, then the wrapped name.
pub struct WithNamespace<T> {
    pub namespace: Vec<u8>,
    pub metric_name: T,
}

impl<T> WithNamespace<T> {
    /// Adds a semantic suffix to this metric name.
    pub fn with_suffix<S: Suffix>(self, suffix: S) -> (r: WithSuffix<S, Self>)
        ensures
            r.suffix == suffix,
            r.metric_name == self,
    {
        WithSuffix { suffix, metric_name: self }
    }
}

impl<T: MetricName> MetricName for WithNamespace<T> {
    open spec fn name_bytes(&self) -> Seq<u8> {
        self.namespace@ + seq![95] + self.metric_name.name_bytes()
    }

    open spec fn name_wf(&self) -> bool {
        valid_name_bytes(self.namespace@) && self.metric_name.name_wf()
    }

    fn encode_text(&self, b: &mut BytesMut) {
        buf_extend(b, self.namespace.as_slice());
        buf_push_byte(b, 95);
        self.metric_name.encode_text(b);
    }
}

/// A metric name wrapped with a semantic suffix; encodes as the wrapped
/// name followed by the suffix.
pub struct WithSuffix<S, T> {
    pub suffix: S,
    pub metric_name: T,
}

impl<S: Suffix, T: MetricName> MetricName for WithSuffix<S, T> {
    open spec fn name_bytes(&self) -> Seq<u8> {
        self.metric_name.name_bytes() + self.suffix.suffix_bytes()
    }

    open spec fn name_wf(&self) -> bool {
        self.metric_name.name_wf()
    }

    fn encode_text(&self, b: &mut BytesMut) {
        self.metric_name.encode_text(b);
        self.suffix.encode_text(b);
    }
}

/// The `_total` suffix, suggested for counters.
pub struct Total;

/// The `_count` suffix, used for a histogram's observation count.
pub struct Count;

/// The `_sum` suffix, used for a histogram's observation sum.
pub struct Sum;

/// The `_bucket` suffix, used for a histogram's bucket records.
pub struct Bucket;

impl Suffix for Total {
    open spec fn suffix_bytes(&self) -> Seq<u8> {
        total_suffix()
    }

    fn encode_text(&self, b: &mut BytesMut) {
        let v: Vec<u8> = vec![95, 116, 111, 116, 97, 108];
        buf_extend(b, v.as_slice());
        proof {
            assert(v@ =~= self.suffix_bytes());
        }
    }
}

impl Suffix for Count {
    open spec fn suffix_bytes(&self) -> Seq<u8> {
        count_suffix()
    }

    fn encode_text(&self, b: &mut BytesMut) {
        let v: Vec<u8> = vec![95, 99, 111, 117, 110, 116];
        buf_extend(b, v.as_slice());
        proof {
            assert(v@ =~= self.suffix_bytes());
        }
    }
}

impl Suffix for Sum {
    open spec fn suffix_bytes(&self) -> Seq<u8> {
        sum_suffix()
    }

    fn encode_text(&self, b: &mut BytesMut) {
        let v: Vec<u8> = vec![95, 115, 117, 109];
        buf_extend(b, v.as_slice());
        proof {
            assert(v@ =~= self.suffix_bytes());
        }
    }
}

impl Suffix for Bucket {
    open spec fn suffix_bytes(&self) -> Seq<u8> {
        bucket_suffix()
    }

    fn encode_text(&self, b: &mut BytesMut) {
        let v: Vec<u8> = vec![95, 98, 117, 99, 107, 101, 116];
        buf_extend(b, v.as_slice());
        proof {
            assert(v@ =~= self.suffix_bytes());
        }
    }
}

} // verus!
