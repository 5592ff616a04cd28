//! The events that processing reports to the dashboard, and the reporting
//! interface.

use vstd::prelude::*;
use crate::logging::LogLevel;
use crate::text::{chars_of, string_of};

verus! {

/// The processing stage of one file.
#[derive(Debug, Clone, Copy, PartialEq, Eq, Structural)]
pub enum Stage {
    Search,
    Detail,
    Normalize,
    Move,
}

/// The label shown for a stage.
pub open spec fn stage_label(stage: Stage) -> Seq<char> {
    match stage {
        Stage::Search => "搜索影片"@,
        Stage::Detail => "获取详情"@,
        Stage::Normalize => "标准化演员"@,
        Stage::Move => "移动文件"@,
    }
}

impl Stage {
    /// The label shown for this stage.
    pub fn label(self) -> (r: &'static str)
        ensures
            r@ == stage_label(self),
    {
        match self {
            Stage::Search => "搜索影片",
            Stage::Detail => "获取详情",
            Stage::Normalize => "标准化演员",
            Stage::Move => "移动文件",
        }
    }
}

/// The final result of one file.
#[derive(Debug, Clone, Copy, PartialEq, Eq, Structural)]
pub enum FileStatus {
    Success,
    Skipped,
    Failed,
}

/// The status of a finished file: `Failed` when processing failed,
/// `Success` when it gave a destination, `Skipped` otherwise.
pub open spec fn status_of(failed: bool, has_destination: bool) -> FileStatus {
    if failed {
        FileStatus::Failed
    } else if has_destination {
        FileStatus::Success
    } else {
        FileStatus::Skipped
    }
}

/// Classifies the result of processing one file.
pub fn file_status(failed: bool, has_destination: bool) -> (r: FileStatus)
    ensures
        r == status_of(failed, has_destination),
{
    if failed {
        FileStatus::Failed
    } else if has_destination {
        FileStatus::Success
    } else {
        FileStatus::Skipped
    }
}

/// What processing reports to the dashboard.
#[derive(Debug)]
pub enum AppEvent {
    ScanStart,
    ScanProgress { dirs: usize },
    ScanDone,
    RoundStart { total: usize },
    FileStart { filename: String },
    FileStage { filename: String, stage: Stage },
    FileDone {
        filename: String,
        status: FileStatus,
        /// A short reason, for failures.
        reason: Option<String>,
    },
    RoundDone {
        success: u32,
        skipped: u32,
        failed: u32,
        /// The user quit before the round finished.
        interrupted: bool,
    },
    /// The next scheduled run, in seconds since the Unix epoch.
    NextSchedule { at: i64 },
    WatchReady { path: String },
    /// A fatal error: the dashboard shows it instead of waiting silently.
    Fatal { message: String },
    Log { level: LogLevel, message: String },
    Shutdown,
}

/// Receives progress events from processing.
pub trait Reporter: Send + Sync {
    fn emit(&self, event: AppEvent);
}

/// Discards every event (plain-text mode and tests).
pub struct NoopReporter;

impl Reporter for NoopReporter {
    fn emit(&self, event: AppEvent) {
    }
}

/// The longest failure reason shown, in characters.
pub const REASON_MAX_CHARS: usize = 120;

/// At most the first `REASON_MAX_CHARS` characters of a message.
pub open spec fn reason_text(message: Seq<char>) -> Seq<char> {
    if message.len() <= REASON_MAX_CHARS {
        message
    } else {
        message.take(REASON_MAX_CHARS as int)
    }
}

/// Shortens a failure message to the length the dashboard shows.
pub fn reason_summary(message: &str) -> (r: String)
    ensures
        r@ == reason_text(message@),
{
    let cs = chars_of(message);
    if cs.len() <= REASON_MAX_CHARS {
        return string_of(cs.as_slice());
    }
    let mut out: Vec<char> = Vec::new();
    let mut i: usize = 0;
    while i < REASON_MAX_CHARS
        invariant
            cs@ == message@,
            REASON_MAX_CHARS < cs@.len(),
            i <= REASON_MAX_CHARS,
            out@ == cs@.take(i as int),
        decreases REASON_MAX_CHARS - i,
    {
        out.push(cs[i]);
        i = i + 1;
        assert(out@ =~= cs@.take(i as int));
    }
    string_of(out.as_slice())
}

#[verifier::external_type_specification]
#[verifier::external_body]
pub struct ExAnyhowError(::anyhow::Error);

/// `format!("{:#}", e)`: an `anyhow` error with its chain of causes.  Nothing
/// is claimed of the text, which depends on the error's contents.
#[verifier::external_body]
fn chain_text(e: &anyhow::Error) -> (r: String) {
    format!("{:#}", e)
}

/// The short failure reason of an error chain, for the dashboard: the
/// chain's text cut to `REASON_MAX_CHARS` characters.
pub fn failure_reason(e: &anyhow::Error) -> (r: String)
    ensures
        exists|chain: Seq<char>| r@ == #[trigger] reason_text(chain),
        r@.len() <= REASON_MAX_CHARS,
{
    let text = chain_text(e);
    let r = reason_summary(text.as_str());
    assert(r@ == reason_text(text@));
    r
}

} // verus!
