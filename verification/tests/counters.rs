//! Counter state and counter vectors.

use measured::{Counter, CounterState, SmallIntLabelSpace, VecInner, WideIntLabelSpace};
use measured::metric_vec::MetricVec;

#[test]
fn increments_sum_exactly() {
    let mut c = CounterState::new();
    c.inc();
    c.inc_by(5);
    c.inc();
    assert_eq!(c.get(), 7);
}

#[test]
fn increments_wrap_at_word_size() {
    let mut c = CounterState::new();
    c.inc_by(u64::MAX);
    c.inc_by(2);
    assert_eq!(c.get(), 1);
}

#[test]
fn metric_counter_accumulates() {
    let mut c = Counter::new_metric(());
    assert_eq!(c.get(), 0);
    c.inc();
    c.inc_by(41);
    assert_eq!(c.get(), 42);
    assert_eq!(c.get_metric().get(), 42);
}

#[test]
fn dense_vec_keeps_backing_size() {
    let space = SmallIntLabelSpace { label_name: b"slot".to_vec(), card: 100 };
    let mut v = MetricVec::new_counter_vec(space);
    for g in 0..100u64 {
        v.inc(&g);
        v.inc(&(99 - g));
    }
    match &v.metrics {
        VecInner::Dense(d) => assert_eq!(d.len(), 100),
        VecInner::Sparse(_, _) => panic!("dense space must use dense storage"),
    }
    let id = v.with_labels(&7).unwrap();
    match v.get_metric(id) {
        Some(m) => assert_eq!(m.count, 2),
        None => panic!("dense entry must exist"),
    }
}

#[test]
fn unrepresentable_group_is_refused() {
    let space = SmallIntLabelSpace { label_name: b"slot".to_vec(), card: 3 };
    let v = MetricVec::new_counter_vec(space);
    assert!(v.with_labels(&2).is_some());
    assert!(v.with_labels(&3).is_none());
}

#[test]
fn sparse_first_touch_creates_exactly_one_entry() {
    let space = WideIntLabelSpace { label_name: b"user".to_vec() };
    let mut v = MetricVec::new_sparse_counter_vec(space);
    let n = 10u64;
    for _ in 0..n {
        v.inc(&12345);
    }
    match &v.metrics {
        VecInner::Sparse(m, keys) => {
            assert_eq!(m.len(), 1);
            assert_eq!(keys.as_slice(), &[12345]);
            assert_eq!(m.get(&12345).unwrap().count, n);
        },
        VecInner::Dense(_) => panic!("sparse vector must use sparse storage"),
    }
}

#[test]
fn sparse_entries_keep_insertion_order() {
    let space = WideIntLabelSpace { label_name: b"user".to_vec() };
    let mut v = MetricVec::new_sparse_counter_vec(space);
    v.inc(&30);
    v.inc(&10);
    v.inc_by(&20, 5);
    v.inc(&10);
    match &v.metrics {
        VecInner::Sparse(m, keys) => {
            assert_eq!(keys.as_slice(), &[30, 10, 20]);
            assert_eq!(m.get(&10).unwrap().count, 2);
            assert_eq!(m.get(&20).unwrap().count, 5);
            assert_eq!(m.get(&30).unwrap().count, 1);
        },
        VecInner::Dense(_) => panic!("sparse vector must use sparse storage"),
    }
}

#[test]
fn explicitly_sparse_vec_over_finite_space() {
    let space = SmallIntLabelSpace { label_name: b"slot".to_vec(), card: 1000 };
    let mut v = MetricVec::new_sparse_counter_vec(space);
    v.inc(&999);
    match &v.metrics {
        VecInner::Sparse(m, _) => assert_eq!(m.len(), 1),
        VecInner::Dense(_) => panic!("opt-in sparse vector must use sparse storage"),
    }
}
