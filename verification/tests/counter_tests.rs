use dualstore::counter::{counter_value, Counter};

#[test]
fn fresh_counter_counts_one_two_three() {
    let mut c = Counter::new();
    assert_eq!(c.increment(), 1);
    assert_eq!(c.increment(), 2);
    assert_eq!(c.increment(), 3);
    assert_eq!(c.value, Some(3));
}

#[test]
fn fresh_counter_run_has_no_gaps_or_duplicates() {
    let mut c = Counter::new();
    let returns = c.run_increments(10);
    assert_eq!(returns, vec![1, 2, 3, 4, 5, 6, 7, 8, 9, 10]);
    assert_eq!(c.value, Some(10));
}

#[test]
fn run_continues_where_the_last_left_off() {
    let mut c = Counter::new();
    let first = c.run_increments(3);
    let second = c.run_increments(2);
    assert_eq!(first, vec![1, 2, 3]);
    assert_eq!(second, vec![4, 5]);
    assert_eq!(c.value, Some(5));
}

#[test]
fn empty_run_changes_nothing() {
    let mut c = Counter::new();
    let returns = c.run_increments(0);
    assert!(returns.is_empty());
    assert_eq!(c.value, None);
}

#[test]
fn malformed_counter_field_reads_as_zero() {
    assert_eq!(counter_value(None), 0);
}

#[test]
fn present_counter_field_reads_as_its_value() {
    assert_eq!(counter_value(Some(7)), 7);
    assert_eq!(counter_value(Some(-3)), -3);
    assert_eq!(counter_value(Some(0)), 0);
}
