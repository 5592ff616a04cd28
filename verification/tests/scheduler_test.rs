use metatube_cli::scheduler::{
    delay_until, format_duration, next_run, schedule_is_valid, RoundGate,
};

#[test]
fn test_cron_parse_valid() {
    assert!(schedule_is_valid("0 */6 * * *"));
}

#[test]
fn test_cron_parse_valid_every_minute() {
    assert!(schedule_is_valid("* * * * *"));
}

#[test]
fn test_cron_parse_valid_daily() {
    assert!(schedule_is_valid("0 9 * * *"));
}

#[test]
fn test_cron_parse_valid_weekly() {
    assert!(schedule_is_valid("0 9 * * 1"));
}

#[test]
fn test_cron_parse_invalid() {
    assert!(!schedule_is_valid("not a cron expression"));
}

#[test]
fn test_cron_parse_invalid_empty() {
    assert!(!schedule_is_valid(""));
}

#[test]
fn test_cron_find_next_occurrence_future() {
    let now = 1_700_000_000_123i64;
    let (next, delay) = next_run("* * * * *", now).unwrap();
    assert!(next > now);
    assert!(delay <= 60);
}

#[test]
fn next_run_of_invalid_expression_is_none() {
    assert!(next_run("not a cron expression", 0).is_none());
}

#[test]
fn wait_text_by_magnitude() {
    assert_eq!(format_duration(0), "0 秒");
    assert_eq!(format_duration(59), "59 秒");
    assert_eq!(format_duration(60), "1 分钟");
    assert_eq!(format_duration(3599), "59 分钟");
    assert_eq!(format_duration(3600), "1 小时 0 分钟");
    assert_eq!(format_duration(7384), "2 小时 3 分钟");
}

#[test]
fn delay_rounds_down_and_never_goes_negative() {
    assert_eq!(delay_until(10_999, 1_000), 9);
    assert_eq!(delay_until(1_000, 5_000), 0);
    assert_eq!(delay_until(i64::MAX, i64::MIN), u64::MAX / 1000);
}

#[test]
fn tick_is_skipped_while_a_round_runs() {
    let mut gate = RoundGate::new();
    assert!(gate.try_start());
    assert!(!gate.try_start());
    gate.finish();
    assert!(gate.try_start());
}
