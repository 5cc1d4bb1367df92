use indy_load_generator::label::{decimal, worker_label};

#[test]
fn labels_count_from_one() {
    assert_eq!(worker_label(0), "1");
    assert_eq!(worker_label(1), "2");
    assert_eq!(worker_label(8), "9");
    assert_eq!(worker_label(9), "10");
    assert_eq!(worker_label(99), "100");
    assert_eq!(worker_label(u32::MAX), "4294967296");
}

#[test]
fn labels_of_a_run_are_distinct() {
    let mut labels: Vec<String> = (0..200).map(worker_label).collect();
    labels.sort();
    labels.dedup();
    assert_eq!(labels.len(), 200);
}

#[test]
fn decimal_writes_numbers_without_leading_zeros() {
    assert_eq!(decimal(0), "0");
    assert_eq!(decimal(7), "7");
    assert_eq!(decimal(10), "10");
    assert_eq!(decimal(1234567890), "1234567890");
    assert_eq!(decimal(u64::MAX), "18446744073709551615");
    for n in [0u64, 1, 9, 10, 11, 99, 100, 101, 999, 1000, 65535, 4294967296] {
        assert_eq!(decimal(n), n.to_string());
    }
}
