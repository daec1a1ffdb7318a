use rust_python_ffi_example::{fib_fits, fib_many, fib_slow};

#[test]
fn fib_slow_base_cases() {
    assert_eq!(fib_slow(0), 0);
    assert_eq!(fib_slow(1), 1);
}

#[test]
fn fib_slow_concrete_values() {
    assert_eq!(fib_slow(2), 1);
    assert_eq!(fib_slow(3), 2);
    assert_eq!(fib_slow(4), 3);
    assert_eq!(fib_slow(10), 55);
}

#[test]
fn fib_slow_recurrence() {
    for n in 2..20u32 {
        assert_eq!(fib_slow(n), fib_slow(n - 1) + fib_slow(n - 2));
    }
}

#[test]
fn fib_slow_larger_value() {
    assert_eq!(fib_slow(30), 832040);
}

#[test]
fn fib_fits_boundary() {
    assert!(fib_fits(0));
    assert!(fib_fits(1));
    assert!(fib_fits(47));
    assert!(!fib_fits(48));
    assert!(!fib_fits(u32::MAX));
}

#[test]
fn fib_many_empty() {
    let results = fib_many(&[]);
    assert!(results.is_empty());
}

#[test]
fn fib_many_multiset() {
    let mut results = fib_many(&[3, 4, 5, 10]);
    assert_eq!(results.len(), 4);
    results.sort();
    assert_eq!(results, vec![2, 3, 5, 55]);
}

#[test]
fn fib_many_repeated_inputs() {
    let mut results = fib_many(&[7, 7, 0]);
    results.sort();
    assert_eq!(results, vec![0, 13, 13]);
}
