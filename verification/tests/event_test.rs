use metatube_cli::logging::{abbr, CleanFormat, LogLevel};
use metatube_cli::tui::event::{
    file_status, reason_summary, AppEvent, FileStatus, NoopReporter, Reporter, Stage,
};

#[test]
fn test_stage_labels() {
    assert_eq!(Stage::Search.label(), "搜索影片");
    assert_eq!(Stage::Detail.label(), "获取详情");
    assert_eq!(Stage::Normalize.label(), "标准化演员");
    assert_eq!(Stage::Move.label(), "移动文件");
}

#[test]
fn test_noop_reporter_swallows_events() {
    NoopReporter.emit(AppEvent::Shutdown);
}

#[test]
fn reason_summary_keeps_120_chars() {
    let long: String = "原".repeat(200);
    let s = reason_summary(&long);
    assert_eq!(s.chars().count(), 120);
    assert_eq!(reason_summary("short"), "short");
}

#[test]
fn failure_reason_includes_the_cause_chain() {
    let e = anyhow::Error::msg("inner cause").context("outer context");
    let r = metatube_cli::tui::event::failure_reason(&e);
    assert_eq!(r, "outer context: inner cause");
    let long = anyhow::Error::msg("x".repeat(300));
    assert_eq!(metatube_cli::tui::event::failure_reason(&long).chars().count(), 120);
}

#[test]
fn level_abbreviations_and_tags() {
    assert_eq!(abbr(LogLevel::Error), "ERRO");
    assert_eq!(abbr(LogLevel::Warn), "WARN");
    assert_eq!(abbr(LogLevel::Info), "INFO");
    assert_eq!(abbr(LogLevel::Debug), "DEBG");
    assert_eq!(abbr(LogLevel::Trace), "TRCE");
    assert_eq!(CleanFormat.level_tag(LogLevel::Info, false), "[INFO] ");
    assert_eq!(CleanFormat.level_tag(LogLevel::Error, true), "\x1b[31m[ERRO]\x1b[0m ");
}

#[test]
fn file_status_of_each_result() {
    assert_eq!(file_status(false, true), FileStatus::Success);
    assert_eq!(file_status(false, false), FileStatus::Skipped);
    assert_eq!(file_status(true, false), FileStatus::Failed);
    assert_eq!(file_status(true, true), FileStatus::Failed);
}
