//! The text exposition encoder: type lines, sample lines, cumulative
//! histogram records.

use measured::metric_vec::MetricVec;
use measured::{
    CheckedMetricName, Counter, Histogram, LabelPair, LabelValue, MetricKind, MetricValue,
    SmallIntLabelSpace, TextEncoder, Thresholds, WideIntLabelSpace,
};

fn bits(x: f64) -> u64 {
    f64::to_bits(x)
}

/// The decimal text the encoder uses for an encoded double.
fn float_text(b: u64) -> String {
    let d = <rustc_apfloat::ieee::Double as rustc_apfloat::Float>::from_bits(b as u128);
    format!("{d}")
}

#[test]
fn type_line_for_counter() {
    let mut enc = TextEncoder::new();
    let name = CheckedMetricName::from_static("requests");
    enc.write_type(&name, MetricKind::Counter);
    assert_eq!(enc.bytes(), b"# TYPE requests counter\n".to_vec());
}

#[test]
fn type_line_for_histogram() {
    let mut enc = TextEncoder::new();
    let name = CheckedMetricName::from_static("latency");
    enc.write_type(&name, MetricKind::Histogram);
    assert_eq!(enc.bytes(), b"# TYPE latency histogram\n".to_vec());
}

#[test]
fn metric_line_without_labels() {
    let mut enc = TextEncoder::new();
    let name = CheckedMetricName::from_static("requests");
    enc.write_metric(&name, &Vec::new(), None, MetricValue::Int(0));
    assert_eq!(enc.bytes(), b"requests 0\n".to_vec());
}

#[test]
fn metric_line_with_labels() {
    let mut enc = TextEncoder::new();
    let name = CheckedMetricName::from_static("requests");
    let labels = vec![
        LabelPair { name: b"code".to_vec(), value: LabelValue::Int(200) },
        LabelPair { name: b"path".to_vec(), value: LabelValue::Str(b"/index".to_vec()) },
    ];
    enc.write_metric(&name, &labels, None, MetricValue::Int(18446744073709551615));
    assert_eq!(
        enc.bytes(),
        b"requests{code=\"200\",path=\"/index\"} 18446744073709551615\n".to_vec()
    );
}

#[test]
fn counter_collects_into_one_line() {
    let mut c = Counter::new_metric(());
    c.inc_by(7);
    let name = CheckedMetricName::from_static("jobs");
    let mut enc = TextEncoder::new();
    c.collect_into(&name, &mut enc);
    assert_eq!(enc.bytes(), b"# TYPE jobs counter\njobs 7\n".to_vec());
}

#[test]
fn histogram_collects_cumulative_buckets() {
    let t = Thresholds::try_with_buckets(vec![bits(1.0), bits(5.0)]).unwrap();
    let mut h = Histogram::new_metric(t);
    h.observe(bits(0.5));
    h.observe(bits(3.0));
    h.observe(bits(4.0));
    h.observe(bits(10.0));
    let name = CheckedMetricName::from_static("latency");
    let mut enc = TextEncoder::new();
    h.collect_into(&name, &mut enc);
    let one = float_text(bits(1.0));
    let five = float_text(bits(5.0));
    let sum = float_text(bits(17.5));
    let expected = format!(
        "# TYPE latency histogram\n\
         latency_bucket{{le=\"{one}\"}} 1\n\
         latency_bucket{{le=\"{five}\"}} 3\n\
         latency_bucket{{le=\"+Inf\"}} 4\n\
         latency_sum {sum}\n\
         latency_count 4\n"
    );
    assert_eq!(String::from_utf8(enc.bytes()).unwrap(), expected);
}

#[test]
fn dense_vec_collects_every_slot() {
    let space = SmallIntLabelSpace { label_name: b"slot".to_vec(), card: 3 };
    let mut v = MetricVec::new_counter_vec(space);
    v.inc(&1);
    v.inc(&1);
    v.inc(&2);
    let name = CheckedMetricName::from_static("slots");
    let mut enc = TextEncoder::new();
    v.collect_into(&name, &mut enc);
    let expected = b"# TYPE slots counter\n\
        slots{slot=\"0\"} 0\n\
        slots{slot=\"1\"} 2\n\
        slots{slot=\"2\"} 1\n"
        .to_vec();
    assert_eq!(enc.bytes(), expected);
}

#[test]
fn sparse_vec_collects_in_insertion_order() {
    let space = WideIntLabelSpace { label_name: b"user".to_vec() };
    let mut v = MetricVec::new_sparse_counter_vec(space);
    v.inc(&42);
    v.inc(&7);
    v.inc(&42);
    let name = CheckedMetricName::from_static("hits");
    let mut enc = TextEncoder::new();
    v.collect_into(&name, &mut enc);
    let expected = b"# TYPE hits counter\n\
        hits{user=\"42\"} 2\n\
        hits{user=\"7\"} 1\n"
        .to_vec();
    assert_eq!(enc.bytes(), expected);
}

#[test]
fn histogram_vec_collects_with_le_after_own_labels() {
    let space = SmallIntLabelSpace { label_name: b"route".to_vec(), card: 1 };
    let t = Thresholds::try_with_buckets(vec![bits(1.0)]).unwrap();
    let mut v = MetricVec::new(space, t);
    v.observe(&0, bits(0.5));
    v.observe(&0, bits(2.0));
    let name = CheckedMetricName::from_static("lat");
    let mut enc = TextEncoder::new();
    v.collect_into(&name, &mut enc);
    let one = float_text(bits(1.0));
    let sum = float_text(bits(2.5));
    let expected = format!(
        "# TYPE lat histogram\n\
         lat_bucket{{route=\"0\",le=\"{one}\"}} 1\n\
         lat_bucket{{route=\"0\",le=\"+Inf\"}} 2\n\
         lat_sum{{route=\"0\"}} {sum}\n\
         lat_count{{route=\"0\"}} 2\n"
    );
    assert_eq!(String::from_utf8(enc.bytes()).unwrap(), expected);
}

#[test]
fn float_label_values_render_through_the_float_renderer() {
    let mut enc = TextEncoder::new();
    let name = CheckedMetricName::from_static("m");
    let labels = vec![LabelPair { name: b"q".to_vec(), value: LabelValue::Float(bits(0.25)) }];
    enc.write_metric(&name, &labels, None, MetricValue::Float(bits(1.5)));
    let q = float_text(bits(0.25));
    let v = float_text(bits(1.5));
    let expected = format!("m{{q=\"{q}\"}} {v}\n");
    assert_eq!(String::from_utf8(enc.bytes()).unwrap(), expected);
}

#[test]
fn decimal_rendering_edges() {
    let mut enc = TextEncoder::new();
    let name = CheckedMetricName::from_static("m");
    enc.write_metric(&name, &Vec::new(), None, MetricValue::Int(0));
    enc.write_metric(&name, &Vec::new(), None, MetricValue::Int(10));
    enc.write_metric(&name, &Vec::new(), None, MetricValue::Int(90071992547409921));
    assert_eq!(enc.bytes(), b"m 0\nm 10\nm 90071992547409921\n".to_vec());
}
