//! Merging the settings: command line (and its environment variables) first,
//! then the configuration file, then the defaults.  By default the run is a
//! single scan, unknown actresses go to `1-未知演员` and names are normalised.

use vstd::prelude::*;
use crate::text::{chars_of, string_of};

verus! {

/// The default server address.
pub open spec fn default_server_url() -> Seq<char> {
    "http://localhost:8080"@
}

/// The default minimum file size, in MB.
pub const DEFAULT_MIN_SIZE_MB: u64 = 300;

/// The default number of files processed at once.
pub const DEFAULT_CONCURRENCY: usize = 4;

/// The default directory for videos whose actresses are unknown.
pub const DEFAULT_UNKNOWN_ACTRESS_DIR: &'static str = "1-未知演员";

/// How the program runs.
#[derive(Debug, Clone, Copy, PartialEq, Eq, Structural)]
pub enum RunMode {
    /// One scan, then exit.
    Once,
    /// A scan now and at every occurrence of the cron schedule.
    Cron,
    /// Watching the download directory.
    Watch,
}

/// The display name of a run mode.
pub open spec fn mode_label(mode: RunMode) -> Seq<char> {
    match mode {
        RunMode::Once => "单次扫描"@,
        RunMode::Cron => "定时执行"@,
        RunMode::Watch => "文件监视"@,
    }
}

impl RunMode {
    /// The display name of this run mode.
    pub fn label(self) -> (r: &'static str)
        ensures
            r@ == mode_label(self),
    {
        match self {
            RunMode::Once => "单次扫描",
            RunMode::Cron => "定时执行",
            RunMode::Watch => "文件监视",
        }
    }
}

/// The settings given on the command line or in environment variables; all
/// optional until merged.
#[derive(Debug, Clone)]
pub struct RawConfig {
    pub jav_download: Option<String>,
    pub jav_output: Option<String>,
    pub server_url: Option<String>,
    pub token: Option<String>,
    pub min_size_mb: Option<u64>,
    pub cron: Option<String>,
    pub concurrency: Option<usize>,
    pub dry_run: bool,
    pub proxy: Option<String>,
    pub config_path: Option<String>,
    /// Watch the download directory instead of scanning once.
    pub watch: bool,
    /// Plain-text output instead of the dashboard.
    pub no_tui: bool,
    pub unknown_actress_dir: Option<String>,
    /// Keep the scraped actress names as they are.
    pub no_actor_name_normalization: bool,
}

/// The settings read from a configuration file; all optional.
#[derive(Debug, Clone, Default)]
pub struct ConfigFile {
    pub jav_download: Option<String>,
    pub jav_output: Option<String>,
    pub server_url: Option<String>,
    pub token: Option<String>,
    pub proxy: Option<String>,
    pub min_size_mb: Option<u64>,
    pub cron: Option<String>,
    pub concurrency: Option<usize>,
    pub dry_run: Option<bool>,
    pub watch: Option<bool>,
    pub unknown_actress_dir: Option<String>,
    pub actor_name_normalization: Option<bool>,
}

/// The merged settings, with every required field resolved.
#[derive(Debug, Clone)]
pub struct Config {
    pub jav_download: String,
    pub jav_output: String,
    pub server_url: String,
    pub token: Option<String>,
    pub proxy: Option<String>,
    pub min_size_mb: u64,
    pub cron: Option<String>,
    pub concurrency: usize,
    pub dry_run: bool,
    pub mode: RunMode,
    pub no_tui: bool,
    pub unknown_actress_dir: String,
    pub actor_name_normalization: bool,
}

/// The text of an optional string.
pub open spec fn text(o: Option<String>) -> Option<Seq<char>> {
    match o {
        Some(s) => Some(s@),
        None => None,
    }
}

/// The first of two settings that is present.
pub open spec fn first_of<T>(primary: Option<T>, secondary: Option<T>) -> Option<T> {
    match primary {
        Some(v) => Some(v),
        None => secondary,
    }
}

/// A field of the file, when there is a file.
pub open spec fn from_file<T>(file: Option<ConfigFile>, field: spec_fn(ConfigFile) -> Option<T>) -> Option<T> {
    match file {
        Some(f) => field(f),
        None => None,
    }
}

/// Whether both required directories are given somewhere.
pub open spec fn has_required(raw: RawConfig, file: Option<ConfigFile>) -> bool {
    &&& first_of(raw.jav_download, from_file(file, |f: ConfigFile| f.jav_download)) is Some
    &&& first_of(raw.jav_output, from_file(file, |f: ConfigFile| f.jav_output)) is Some
}

/// The merged settings: each field from the command line when given there,
/// else from the file, else its default.
pub open spec fn merged(c: Config, raw: RawConfig, file: Option<ConfigFile>) -> bool {
    &&& Some(c.jav_download@) == text(first_of(raw.jav_download, from_file(file, |f: ConfigFile| f.jav_download)))
    &&& Some(c.jav_output@) == text(first_of(raw.jav_output, from_file(file, |f: ConfigFile| f.jav_output)))
    &&& c.server_url@ == match text(first_of(raw.server_url, from_file(file, |f: ConfigFile| f.server_url))) {
        Some(u) => u,
        None => default_server_url(),
    }
    &&& text(c.token) == text(first_of(raw.token, from_file(file, |f: ConfigFile| f.token)))
    &&& text(c.proxy) == text(first_of(raw.proxy, from_file(file, |f: ConfigFile| f.proxy)))
    &&& c.min_size_mb == match first_of(raw.min_size_mb, from_file(file, |f: ConfigFile| f.min_size_mb)) {
        Some(v) => v,
        None => DEFAULT_MIN_SIZE_MB,
    }
    &&& text(c.cron) == text(first_of(raw.cron, from_file(file, |f: ConfigFile| f.cron)))
    &&& c.concurrency == match first_of(raw.concurrency, from_file(file, |f: ConfigFile| f.concurrency)) {
        Some(v) => v,
        None => DEFAULT_CONCURRENCY,
    }
    &&& c.dry_run == (raw.dry_run || from_file(file, |f: ConfigFile| f.dry_run) == Some(true))
    &&& c.mode == run_mode(
        raw.watch || from_file(file, |f: ConfigFile| f.watch) == Some(true),
        c.cron is Some,
    )
    &&& c.no_tui == raw.no_tui
    &&& c.unknown_actress_dir@ == match text(first_of(raw.unknown_actress_dir, from_file(file, |f: ConfigFile| f.unknown_actress_dir))) {
        Some(d) => d,
        None => DEFAULT_UNKNOWN_ACTRESS_DIR@,
    }
    &&& c.actor_name_normalization == (!raw.no_actor_name_normalization && from_file(
        file,
        |f: ConfigFile| f.actor_name_normalization,
    ) != Some(false))
}

/// The run mode: watching when asked to, else on a schedule when one is
/// set, else a single run.
pub open spec fn run_mode(watch: bool, scheduled: bool) -> RunMode {
    if watch {
        RunMode::Watch
    } else if scheduled {
        RunMode::Cron
    } else {
        RunMode::Once
    }
}

/// With nothing set on the command line, in the environment or in a file,
/// the run is a single scan against the local server, unknown actresses go
/// to `1-未知演员`, names are normalised, files from 300 MB count and four
/// are processed at once.
pub proof fn law_config_defaults(c: Config, raw: RawConfig)
    requires
        merged(c, raw, None),
        !raw.watch,
        raw.server_url is None,
        raw.min_size_mb is None,
        raw.cron is None,
        raw.concurrency is None,
        raw.unknown_actress_dir is None,
        !raw.no_actor_name_normalization,
    ensures
        c.mode == RunMode::Once,
        c.server_url@ == default_server_url(),
        c.unknown_actress_dir@ == DEFAULT_UNKNOWN_ACTRESS_DIR@,
        c.actor_name_normalization,
        c.min_size_mb == 300,
        c.concurrency == 4,
{
}

/// The first of two optional values that is present.
fn either<T>(primary: Option<T>, secondary: Option<T>) -> (r: Option<T>)
    ensures
        r == first_of(primary, secondary),
{
    match primary {
        Some(v) => Some(v),
        None => secondary,
    }
}

/// The message given when no download directory is set anywhere.
pub const MISSING_DOWNLOAD: &'static str =
    "--jav-download is required (set via CLI, env JAV_DOWNLOAD, or config.toml)";

/// The message given when no output directory is set anywhere.
pub const MISSING_OUTPUT: &'static str =
    "--jav-output is required (set via CLI, env JAV_OUTPUT, or config.toml)";

/// The message for the first required setting that is missing, if one is:
/// the download directory is checked before the output directory.
pub fn missing_required(raw: &RawConfig, file: &Option<ConfigFile>) -> (r: Option<&'static str>)
    ensures
        r is None <==> has_required(*raw, *file),
        first_of(raw.jav_download, from_file(*file, |f: ConfigFile| f.jav_download)) is None
            ==> r == Some(MISSING_DOWNLOAD),
        first_of(raw.jav_download, from_file(*file, |f: ConfigFile| f.jav_download)) is Some
            && first_of(raw.jav_output, from_file(*file, |f: ConfigFile| f.jav_output)) is None
            ==> r == Some(MISSING_OUTPUT),
{
    let (dl, out) = match file {
        Some(f) => (f.jav_download.is_some(), f.jav_output.is_some()),
        None => (false, false),
    };
    if raw.jav_download.is_none() && !dl {
        Some(MISSING_DOWNLOAD)
    } else if raw.jav_output.is_none() && !out {
        Some(MISSING_OUTPUT)
    } else {
        None
    }
}

impl Config {
    /// Merges the command-line settings with those of the configuration file:
    /// command line first, then the file, then the defaults.
    pub fn load(raw: RawConfig, file: Option<ConfigFile>) -> (r: Self)
        requires
            has_required(raw, file),
        ensures
            merged(r, raw, file),
    {
        let ghost raw0 = raw;
        let ghost file0 = file;
        let f = match file {
            Some(f) => f,
            None => ConfigFile {
                jav_download: None,
                jav_output: None,
                server_url: None,
                token: None,
                proxy: None,
                min_size_mb: None,
                cron: None,
                concurrency: None,
                dry_run: None,
                watch: None,
                unknown_actress_dir: None,
                actor_name_normalization: None,
            },
        };
        let jav_download = match either(raw.jav_download, f.jav_download) {
            Some(v) => v,
            None => String::new(),
        };
        let jav_output = match either(raw.jav_output, f.jav_output) {
            Some(v) => v,
            None => String::new(),
        };
        let server_url = match either(raw.server_url, f.server_url) {
            Some(v) => v,
            None => string_of(chars_of("http://localhost:8080").as_slice()),
        };
        let min_size_mb = match either(raw.min_size_mb, f.min_size_mb) {
            Some(v) => v,
            None => DEFAULT_MIN_SIZE_MB,
        };
        let concurrency = match either(raw.concurrency, f.concurrency) {
            Some(v) => v,
            None => DEFAULT_CONCURRENCY,
        };
        let file_dry_run = match f.dry_run {
            Some(b) => b,
            None => false,
        };
        let file_watch = match f.watch {
            Some(b) => b,
            None => false,
        };
        let cron = either(raw.cron, f.cron);
        let mode = if raw.watch || file_watch {
            RunMode::Watch
        } else if cron.is_some() {
            RunMode::Cron
        } else {
            RunMode::Once
        };
        let unknown_actress_dir = match either(raw.unknown_actress_dir, f.unknown_actress_dir) {
            Some(d) => d,
            None => string_of(chars_of(DEFAULT_UNKNOWN_ACTRESS_DIR).as_slice()),
        };
        let file_normalization = match f.actor_name_normalization {
            Some(b) => b,
            None => true,
        };
        Config {
            jav_download,
            jav_output,
            server_url,
            token: either(raw.token, f.token),
            proxy: either(raw.proxy, f.proxy),
            min_size_mb,
            cron,
            concurrency,
            dry_run: raw.dry_run || file_dry_run,
            mode,
            no_tui: raw.no_tui,
            unknown_actress_dir,
            actor_name_normalization: !raw.no_actor_name_normalization && file_normalization,
        }
    }

    /// The minimum file size in bytes.
    pub fn min_size_bytes(&self) -> (r: u64)
        requires
            self.min_size_mb * 1024 * 1024 <= u64::MAX,
        ensures
            r == self.min_size_mb * 1024 * 1024,
    {
        self.min_size_mb * 1024 * 1024
    }
}

} // verus!
