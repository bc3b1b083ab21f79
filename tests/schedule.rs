use hcc::wait_millis;

#[test]
fn wait_until_a_future_run() {
    assert_eq!(1500, wait_millis(1_000, 2_500));
    assert_eq!(1, wait_millis(-1, 0));
}

#[test]
fn no_wait_once_the_run_is_due() {
    assert_eq!(0, wait_millis(2_500, 2_500));
    assert_eq!(0, wait_millis(3_000, 2_500));
}

#[test]
fn wait_spans_the_whole_range() {
    assert_eq!(u64::MAX, wait_millis(i64::MIN, i64::MAX));
    assert_eq!(0, wait_millis(i64::MAX, i64::MIN));
}
