use pvf_prepare_worker::cpu::{
    checked_cpu_time_elapsed, cpu_time_elapsed, get_total_cpu_usage, measure_children, reading_of,
    CpuUsage, MICROS_PER_SEC,
};
use pvf_prepare_worker::model::UsageError;
use pvf_prepare_worker::sys::RawUsage;

fn usage(user_secs: i64, user_micros: i64, system_secs: i64, system_micros: i64) -> CpuUsage {
    CpuUsage::new(user_secs, user_micros, system_secs, system_micros).unwrap()
}

#[test]
fn total_adds_seconds_of_both_modes() {
    assert_eq!(get_total_cpu_usage(&usage(3, 0, 4, 0)), 7);
}

#[test]
fn total_carries_a_second_when_micros_add_up() {
    assert_eq!(get_total_cpu_usage(&usage(1, 600_000, 2, 500_000)), 4);
}

#[test]
fn total_rounds_micros_down() {
    assert_eq!(get_total_cpu_usage(&usage(1, 499_999, 2, 500_000)), 3);
    assert_eq!(get_total_cpu_usage(&usage(0, 999_999, 0, 0)), 0);
}

#[test]
fn total_carries_at_exactly_one_second() {
    assert_eq!(get_total_cpu_usage(&usage(0, 500_000, 0, 500_000)), 1);
}

#[test]
fn total_of_the_largest_reading_fits() {
    let largest = usage(i64::MAX, 999_999, i64::MAX, 999_999);
    assert_eq!(get_total_cpu_usage(&largest), u64::MAX);
}

#[test]
fn total_of_nothing_is_zero() {
    assert_eq!(get_total_cpu_usage(&usage(0, 0, 0, 0)), 0);
}

#[test]
fn a_reading_has_no_negative_time() {
    assert_eq!(CpuUsage::new(-1, 0, 0, 0), None);
    assert_eq!(CpuUsage::new(0, -1, 0, 0), None);
    assert_eq!(CpuUsage::new(0, 0, -1, 0), None);
    assert_eq!(CpuUsage::new(0, 0, 0, -1), None);
}

#[test]
fn a_reading_keeps_micros_below_a_second() {
    assert_eq!(MICROS_PER_SEC, 1_000_000);
    assert_eq!(CpuUsage::new(0, 1_000_000, 0, 0), None);
    assert_eq!(CpuUsage::new(0, 0, 0, 1_000_000), None);
    assert!(CpuUsage::new(0, 999_999, 0, 999_999).is_some());
}

#[test]
fn elapsed_is_the_difference_of_the_totals() {
    let before = usage(1, 900_000, 0, 200_000);
    let after = usage(5, 100_000, 1, 0);
    assert_eq!(get_total_cpu_usage(&before), 2);
    assert_eq!(get_total_cpu_usage(&after), 6);
    assert_eq!(cpu_time_elapsed(&before, &after), 4);
    assert_eq!(checked_cpu_time_elapsed(&before, &after), Ok(4));
}

#[test]
fn elapsed_between_equal_readings_is_zero() {
    let reading = usage(2, 1, 3, 2);
    assert_eq!(cpu_time_elapsed(&reading, &reading), 0);
    assert_eq!(checked_cpu_time_elapsed(&reading, &reading), Ok(0));
}

#[test]
fn elapsed_ignores_what_stays_below_a_second() {
    let before = usage(1, 0, 0, 0);
    let after = usage(1, 999_999, 0, 0);
    assert_eq!(checked_cpu_time_elapsed(&before, &after), Ok(0));
}

#[test]
fn elapsed_refuses_readings_that_go_backwards() {
    let before = usage(5, 0, 0, 0);
    let after = usage(4, 0, 0, 0);
    assert_eq!(checked_cpu_time_elapsed(&before, &after), Err(UsageError::Receded));
}

#[test]
fn raw_figures_become_a_reading() {
    let raw = RawUsage { user_secs: 1, user_micros: 2, system_secs: 3, system_micros: 4 };
    assert_eq!(reading_of(raw), Ok(usage(1, 2, 3, 4)));
}

#[test]
fn malformed_raw_figures_are_refused() {
    let raw = RawUsage { user_secs: 1, user_micros: 2_000_000, system_secs: 3, system_micros: 4 };
    assert_eq!(reading_of(raw), Err(UsageError::Malformed));
    let raw = RawUsage { user_secs: -7, user_micros: 0, system_secs: 0, system_micros: 0 };
    assert_eq!(reading_of(raw), Err(UsageError::Malformed));
}

#[test]
fn children_usage_can_be_measured() {
    let first = measure_children().expect("the kernel reports usage of children");
    let second = measure_children().expect("the kernel reports usage of children");
    assert!(get_total_cpu_usage(&first) <= get_total_cpu_usage(&second));
    assert!(checked_cpu_time_elapsed(&first, &second).is_ok());
}
