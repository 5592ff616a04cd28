use metatube_cli::logging::LogLevel;
use metatube_cli::tui::app::{
    eta_from_elapsed, App, Key, Stats, LOG_BUFFER_MAX, RECENT_FAILURES_MAX, SPINNER_FRAMES,
};
use metatube_cli::tui::event::{AppEvent, FileStatus, Stage};
use metatube_cli::tui::ui::{progress_panel, ProgressPanel};

fn app() -> App {
    App::new("单次扫描", "http://localhost:8080".into())
}

#[test]
fn test_scan_lifecycle() {
    let mut app = app();
    app.handle_event(AppEvent::ScanStart);
    assert!(app.scanning);
    app.handle_event(AppEvent::ScanProgress { dirs: 5 });
    assert_eq!(app.scan_dirs, 5);
    app.handle_event(AppEvent::ScanDone);
    assert!(!app.scanning);
}

#[test]
fn test_round_resets_state() {
    let mut app = app();
    app.handle_event(AppEvent::RoundStart { total: 10 });
    app.handle_event(AppEvent::FileStart {
        filename: "a.mp4".into(),
    });
    app.handle_event(AppEvent::FileDone {
        filename: "a.mp4".into(),
        status: FileStatus::Skipped,
        reason: None,
    });
    assert_eq!(app.done, 1);
    assert_eq!(app.stats.skipped, 1);

    // 新一轮应清零
    app.handle_event(AppEvent::RoundStart { total: 4 });
    assert_eq!(app.total, 4);
    assert_eq!(app.done, 0);
    assert!(app.tasks.is_empty());
    assert_eq!(app.stats, Stats::default());
    assert!(app.round_active);
}

#[test]
fn test_task_lifecycle_and_stats() {
    let mut app = app();
    app.handle_event(AppEvent::RoundStart { total: 3 });
    app.handle_event(AppEvent::FileStart {
        filename: "SSIS-001.mp4".into(),
    });
    assert_eq!(app.tasks.len(), 1);
    assert!(app.tasks[0].stage.is_none());

    app.handle_event(AppEvent::FileStage {
        filename: "SSIS-001.mp4".into(),
        stage: Stage::Search,
    });
    assert_eq!(app.tasks[0].stage, Some(Stage::Search));

    app.handle_event(AppEvent::FileStage {
        filename: "SSIS-001.mp4".into(),
        stage: Stage::Move,
    });
    assert_eq!(app.tasks[0].stage, Some(Stage::Move));

    app.handle_event(AppEvent::FileDone {
        filename: "SSIS-001.mp4".into(),
        status: FileStatus::Success,
        reason: None,
    });
    assert!(app.tasks.is_empty());
    assert_eq!(app.done, 1);
    assert_eq!(app.stats.success, 1);

    // 未知文件的 stage 事件不应插入新任务
    app.handle_event(AppEvent::FileStage {
        filename: "ghost.mp4".into(),
        stage: Stage::Detail,
    });
    assert!(app.tasks.is_empty());
}

#[test]
fn test_failed_status_counts() {
    let mut app = app();
    app.handle_event(AppEvent::RoundStart { total: 1 });
    app.handle_event(AppEvent::FileStart {
        filename: "bad.mp4".into(),
    });
    app.handle_event(AppEvent::FileDone {
        filename: "bad.mp4".into(),
        status: FileStatus::Failed,
        reason: Some("网络超时".into()),
    });
    assert_eq!(app.stats.failed, 1);
    assert_eq!(app.done, 1);
    assert_eq!(app.recent_failures.len(), 1);
    assert_eq!(app.recent_failures[0].0, "bad.mp4");
    assert_eq!(app.recent_failures[0].1, "网络超时");
}

#[test]
fn test_round_done_summary() {
    let mut app = app();
    app.handle_event(AppEvent::RoundStart { total: 2 });
    assert!(app.round_active);
    app.handle_event(AppEvent::RoundDone {
        success: 1,
        skipped: 1,
        failed: 0,
        interrupted: false,
    });
    assert!(!app.round_active);
    let r = app.last_round.as_ref().unwrap();
    assert_eq!((r.success, r.skipped, r.failed), (1, 1, 0));
    assert!(!r.interrupted);
}

#[test]
fn test_log_ring_buffer_cap() {
    let mut app = app();
    for i in 0..(LOG_BUFFER_MAX + 100) {
        app.handle_event(AppEvent::Log {
            level: LogLevel::Info,
            message: format!("msg-{i}"),
        });
    }
    assert_eq!(app.logs.len(), LOG_BUFFER_MAX);
    assert_eq!(app.logs.front().unwrap().message, "msg-100");
    assert_eq!(
        app.logs.back().unwrap().message,
        format!("msg-{}", LOG_BUFFER_MAX + 99)
    );
}

#[test]
fn test_log_scroll_bounds() {
    let mut app = app();
    for i in 0..10 {
        app.handle_event(AppEvent::Log {
            level: LogLevel::Info,
            message: format!("m{i}"),
        });
    }
    assert_eq!(app.log_scroll_offset, 0);
    for _ in 0..20 {
        app.scroll_logs_up();
    }
    // 最大只能滚到第一条
    assert_eq!(app.log_scroll_offset, 9);
    for _ in 0..20 {
        app.scroll_logs_down();
    }
    assert_eq!(app.log_scroll_offset, 0);
}

#[test]
fn test_shutdown_sets_exit() {
    let mut app = app();
    assert!(!app.exit);
    app.handle_event(AppEvent::Shutdown);
    assert!(app.exit);
}

#[test]
fn test_spinner_frames_cycle() {
    let mut app = app();
    let first = app.spinner_frame();
    for _ in 0..SPINNER_FRAMES.len() {
        app.tick += 1;
    }
    assert_eq!(app.spinner_frame(), first);
    assert_ne!(app.spinner_frame(), SPINNER_FRAMES[1]);
}

#[test]
fn test_eta_requires_progress() {
    let mut app = app();
    assert_eq!(app.eta_secs(), None);

    app.handle_event(AppEvent::RoundStart { total: 10 });
    assert_eq!(app.eta_secs(), None); // done == 0

    app.handle_event(AppEvent::FileDone {
        filename: "x.mp4".into(),
        status: FileStatus::Skipped,
        reason: None,
    });
    assert!(app.eta_secs().is_some());

    // 全部完成后不再估算
    for i in 0..9 {
        app.handle_event(AppEvent::FileDone {
            filename: format!("f{i}.mp4"),
            status: FileStatus::Skipped,
            reason: None,
        });
    }
    assert_eq!(app.eta_secs(), None);
}

#[test]
fn test_watch_ready_and_next_schedule() {
    let mut app = App::new("文件监视", "srv".into());
    app.handle_event(AppEvent::WatchReady {
        path: "D:/videos".to_string(),
    });
    assert_eq!(app.watch_dir, Some("D:/videos".to_string()));

    let at: i64 = 1_700_000_000;
    app.handle_event(AppEvent::NextSchedule { at });
    assert_eq!(app.next_schedule, Some(at));
}

#[test]
fn test_file_done_removes_first_matching_task_only() {
    // 不同目录的同名文件：一次 FileDone 只结束一个任务
    let mut app = app();
    app.handle_event(AppEvent::FileStart {
        filename: "a.mp4".into(),
    });
    app.handle_event(AppEvent::FileStart {
        filename: "a.mp4".into(),
    });
    app.handle_event(AppEvent::FileDone {
        filename: "a.mp4".into(),
        status: FileStatus::Success,
        reason: None,
    });
    assert_eq!(app.tasks.len(), 1);
    assert_eq!(app.done, 1);
}

#[test]
fn test_recent_failures_capped() {
    let mut app = app();
    for i in 0..(RECENT_FAILURES_MAX + 2) {
        app.handle_event(AppEvent::FileDone {
            filename: format!("f{i}.mp4"),
            status: FileStatus::Failed,
            reason: Some(format!("原因{i}")),
        });
    }
    assert_eq!(app.recent_failures.len(), RECENT_FAILURES_MAX);
    // 最旧的被挤出，保留最近几条
    let names: Vec<&str> = app
        .recent_failures
        .iter()
        .map(|(n, _)| n.as_str())
        .collect();
    assert_eq!(
        names[0],
        format!("f{}.mp4", RECENT_FAILURES_MAX - 1).as_str()
    );
    // 失败无原因时使用占位文本
    app.handle_event(AppEvent::FileDone {
        filename: "g.mp4".into(),
        status: FileStatus::Failed,
        reason: None,
    });
    assert_eq!(app.recent_failures.back().unwrap().1, "未知原因");
}

#[test]
fn test_round_done_interrupted_clears_tasks() {
    let mut app = app();
    app.handle_event(AppEvent::RoundStart { total: 5 });
    app.handle_event(AppEvent::FileStart {
        filename: "a.mp4".into(),
    });
    app.handle_event(AppEvent::FileStart {
        filename: "b.mp4".into(),
    });
    app.handle_event(AppEvent::RoundDone {
        success: 1,
        skipped: 0,
        failed: 0,
        interrupted: true,
    });
    assert!(!app.round_active);
    assert!(app.tasks.is_empty());
    assert!(app.last_round.as_ref().unwrap().interrupted);
}

#[test]
fn test_watch_processing_state() {
    let mut app = App::new("文件监视", "srv".into());
    assert!(!app.watch_processing());
    app.handle_event(AppEvent::FileStart {
        filename: "a.mp4".into(),
    });
    assert!(app.watch_processing());
    app.handle_event(AppEvent::FileDone {
        filename: "a.mp4".into(),
        status: FileStatus::Success,
        reason: None,
    });
    assert!(!app.watch_processing());

    // 轮次进行中不属于 watch 处理态
    app.handle_event(AppEvent::RoundStart { total: 2 });
    app.handle_event(AppEvent::FileStart {
        filename: "b.mp4".into(),
    });
    assert!(!app.watch_processing());
}

#[test]
fn test_fatal_event_sets_message() {
    let mut app = app();
    assert!(app.fatal.is_none());
    app.handle_event(AppEvent::Fatal {
        message: "无法连接服务器".into(),
    });
    assert_eq!(app.fatal.as_deref(), Some("无法连接服务器"));
}

#[test]
fn test_log_scroll_page_and_top_bottom() {
    let mut app = app();
    for i in 0..30 {
        app.handle_event(AppEvent::Log {
            level: LogLevel::Info,
            message: format!("m{i}"),
        });
    }
    app.scroll_logs_page_up();
    assert_eq!(app.log_scroll_offset, 10);
    app.scroll_logs_page_up();
    assert_eq!(app.log_scroll_offset, 20);
    app.scroll_logs_top();
    assert_eq!(app.log_scroll_offset, 29);
    app.scroll_logs_page_down();
    assert_eq!(app.log_scroll_offset, 19);
    app.scroll_logs_bottom();
    assert_eq!(app.log_scroll_offset, 0);
}

#[test]
fn test_with_meta_sets_display_fields() {
    let app = App::new("单次扫描", "srv".into()).with_meta(true, 8);
    assert!(app.dry_run);
    assert_eq!(app.concurrency, 8);
    assert!(app.elapsed_secs() < 5);
}

#[test]
fn keys_scroll_toggle_help_and_quit() {
    let mut app = app();
    for i in 0..15 {
        app.handle_event(AppEvent::Log { level: LogLevel::Info, message: format!("m{i}") });
    }
    assert!(!app.handle_key(Key::PageUp, false));
    assert_eq!(app.log_scroll_offset, 10);
    assert!(!app.handle_key(Key::PageUp, false));
    assert_eq!(app.log_scroll_offset, 14);
    assert!(!app.handle_key(Key::End, false));
    assert_eq!(app.log_scroll_offset, 0);
    assert!(!app.handle_key(Key::Char('?'), false));
    assert!(app.show_help);
    // 帮助打开时其他按键（包括 q）不生效
    assert!(!app.handle_key(Key::Char('q'), false));
    assert!(!app.exit);
    assert!(!app.handle_key(Key::Esc, false));
    assert!(!app.show_help);
    assert!(!app.handle_key(Key::Char('c'), false));
    assert!(!app.exit);
    assert!(app.handle_key(Key::Char('c'), true));
    assert!(app.exit);
}

#[test]
fn eta_is_rounded_from_elapsed() {
    // 2 of 5 done in 10 s: 5 s per file, 3 left
    assert_eq!(eta_from_elapsed(10_000_000_000, 2, 5), Some(15));
    // 1 of 4 done in 1.5 s: 4.5 s rounds to 5
    assert_eq!(eta_from_elapsed(1_500_000_000, 1, 4), Some(5));
    assert_eq!(eta_from_elapsed(1_400_000_000, 1, 4), Some(4));
    assert_eq!(eta_from_elapsed(5, 0, 4), None);
    assert_eq!(eta_from_elapsed(5, 4, 4), None);
    assert_eq!(eta_from_elapsed(u128::MAX, 1, 3), Some(u64::MAX));
}

#[test]
fn progress_panel_follows_the_dashboard_state() {
    let mut app = app();
    assert_eq!(progress_panel(&app), ProgressPanel::Idle);
    app.handle_event(AppEvent::ScanStart);
    assert_eq!(progress_panel(&app), ProgressPanel::Scanning);
    app.handle_event(AppEvent::ScanDone);
    app.handle_event(AppEvent::RoundStart { total: 2 });
    assert_eq!(progress_panel(&app), ProgressPanel::Gauge);
    app.handle_event(AppEvent::RoundDone {
        success: 2,
        skipped: 0,
        failed: 0,
        interrupted: false,
    });
    assert_eq!(progress_panel(&app), ProgressPanel::RoundSummary);
    app.handle_event(AppEvent::Fatal { message: "boom".into() });
    assert_eq!(progress_panel(&app), ProgressPanel::Fatal);

    let mut watch = App::new("监视模式", "http://localhost:8080".into());
    watch.handle_event(AppEvent::FileStart { filename: "a.mp4".into() });
    assert_eq!(progress_panel(&watch), ProgressPanel::WatchBusy);
}

#[test]
fn stats_count_one_status_each() {
    let mut s = Stats::default();
    s.count(FileStatus::Success);
    s.count(FileStatus::Failed);
    s.count(FileStatus::Failed);
    assert_eq!(s, Stats { success: 1, skipped: 0, failed: 2 });
}

#[test]
fn clock_readings_survive_scrolling_and_round_start() {
    let mut app = app();
    for i in 0..5 {
        app.handle_event(AppEvent::Log { level: LogLevel::Info, message: format!("m{}", i) });
    }
    let started = app.started_at;
    let times: Vec<String> = app.logs.iter().map(|l| l.time.clone()).collect();
    app.scroll_logs_up();
    app.scroll_logs_page_up();
    app.scroll_logs_top();
    app.scroll_logs_bottom();
    app.handle_key(Key::Up, false);
    app.handle_event(AppEvent::RoundStart { total: 3 });
    assert_eq!(app.started_at, started);
    let after: Vec<String> = app.logs.iter().map(|l| l.time.clone()).collect();
    assert_eq!(after, times);
    let round = app.round_started_at;
    assert!(round.is_some());
    app.scroll_logs_up();
    assert_eq!(app.round_started_at, round);
}

#[test]
fn completed_count_matches_counters_over_a_round() {
    let mut app = app();
    app.handle_event(AppEvent::RoundStart { total: 3 });
    for (name, status) in [("a", FileStatus::Success), ("b", FileStatus::Skipped), ("c", FileStatus::Failed)] {
        app.handle_event(AppEvent::FileStart { filename: name.into() });
        app.handle_event(AppEvent::FileDone { filename: name.into(), status, reason: None });
    }
    assert_eq!(app.done, (app.stats.success + app.stats.skipped + app.stats.failed) as usize);
    assert!(app.recent_failures.len() <= RECENT_FAILURES_MAX);
    assert!(app.round_active && app.round_started_at.is_some());
}

#[test]
fn log_lines_are_stamped_with_a_time_of_day() {
    let mut app = app();
    app.handle_event(AppEvent::Log { level: LogLevel::Info, message: "hello".into() });
    let t: Vec<char> = app.logs[0].time.chars().collect();
    assert_eq!(t.len(), 8);
    assert!(t[2] == ':' && t[5] == ':');
    let h: u32 = app.logs[0].time[0..2].parse().unwrap();
    let m: u32 = app.logs[0].time[3..5].parse().unwrap();
    let s: u32 = app.logs[0].time[6..8].parse().unwrap();
    assert!(h < 24 && m < 60 && s < 60);
}
