//! Metric name validation and composition.

use measured::{Bucket, CheckedMetricName, Count, InvalidMetricName, MetricName, Sum, Total};

fn encode<N: MetricName>(name: &N) -> Vec<u8> {
    let mut b = bytes::BytesMut::new();
    name.encode_text(&mut b);
    b.as_ref().to_vec()
}

#[test]
fn empty_name_is_rejected() {
    let r = CheckedMetricName::try_from_str("");
    assert!(matches!(r, Err(InvalidMetricName::Empty)));
}

#[test]
fn leading_digit_is_rejected() {
    let r = CheckedMetricName::try_from_str("1abc");
    assert!(matches!(r, Err(InvalidMetricName::StartsWithNumber)));
}

#[test]
fn invalid_character_is_rejected() {
    let r = CheckedMetricName::try_from_str("a$b");
    assert!(matches!(r, Err(InvalidMetricName::InvalidChars)));
}

#[test]
fn letters_digits_underscore_colon_are_accepted() {
    let r = CheckedMetricName::try_from_str("abc_123:x");
    assert!(r.is_ok());
    assert_eq!(r.unwrap().bytes, b"abc_123:x".to_vec());
}

#[test]
fn hyphen_is_rejected() {
    let r = CheckedMetricName::try_from_str("a-b");
    assert!(matches!(r, Err(InvalidMetricName::InvalidChars)));
}

#[test]
fn invalid_chars_takes_precedence_over_leading_digit() {
    let r = CheckedMetricName::try_from_str("1$b");
    assert!(matches!(r, Err(InvalidMetricName::InvalidChars)));
}

#[test]
fn suffix_composition_encodes_concatenated() {
    let name = CheckedMetricName::from_static("http_requests");
    let with_total = name.with_suffix(Total);
    assert_eq!(encode(&with_total), b"http_requests_total".to_vec());
}

#[test]
fn namespace_and_suffix_composition() {
    let name = CheckedMetricName::from_static("http_requests");
    let composed = name.in_namespace("myapp").with_suffix(Count);
    assert_eq!(encode(&composed), b"myapp_http_requests_count".to_vec());
}

#[test]
fn sum_and_bucket_suffixes() {
    let name = CheckedMetricName::from_static("latency");
    assert_eq!(encode(&name.with_suffix(Sum)), b"latency_sum".to_vec());
    let name = CheckedMetricName::from_static("latency");
    assert_eq!(encode(&name.with_suffix(Bucket)), b"latency_bucket".to_vec());
}

#[test]
fn from_static_keeps_bytes() {
    let name = CheckedMetricName::from_static("proc_cpu:seconds");
    assert_eq!(name.bytes, b"proc_cpu:seconds".to_vec());
}
