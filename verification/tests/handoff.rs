use rust_python_ffi_example::{
    drop_vec, fib_seq_results, fib_threaded, fib_threaded_results, VectorU32,
};

#[test]
fn seq_results_preserves_input_order() {
    let d = fib_seq_results(&[5, 6, 7]);
    assert_eq!(d.len(), 3);
    assert_eq!(d.into_vec(), vec![5, 8, 13]);
}

#[test]
fn threaded_count_equals_length() {
    assert_eq!(fib_threaded(&[]), 0);
    assert_eq!(fib_threaded(&[0, 0]), 2);
    assert_eq!(fib_threaded(&[1, 2, 3]), 3);
    assert_eq!(fib_threaded(&[10, 20, 30, 40]), 4);
}

#[test]
fn threaded_results_multiset() {
    let d = fib_threaded_results(&[3, 4, 5, 10]);
    assert_eq!(d.len(), 4);
    let mut results = d.into_vec();
    results.sort();
    assert_eq!(results, vec![2, 3, 5, 55]);
}

#[test]
fn seq_results_round_trip_reclaims() {
    let d = fib_seq_results(&[1, 2, 3]);
    assert!(d.len() <= d.cap());
    drop_vec(d);
}

#[test]
fn threaded_results_round_trip_reclaims() {
    let d = fib_threaded_results(&[4, 5, 6]);
    assert!(d.len() <= d.cap());
    drop_vec(d);
}

#[test]
fn empty_descriptor_reclaims() {
    let d = fib_seq_results(&[]);
    assert_eq!(d.len(), 0);
    drop_vec(d);
}

#[test]
fn descriptor_records_capacity() {
    let mut v = Vec::with_capacity(10);
    v.push(1);
    v.push(2);
    v.push(3);
    let d = VectorU32::from_vec(v);
    assert_eq!(d.len(), 3);
    assert!(d.cap() >= 10);
    assert_eq!(d.into_vec(), vec![1, 2, 3]);
}
