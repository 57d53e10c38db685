//! The data of the application: download requests, settings, task records and
//! the events that are reported to the user interface. Each type has a view
//! made of mathematical text (`Seq<char>`), over which the contracts speak.

use vstd::prelude::*;
use crate::stamps::{is_rfc3339_utc, now};

verus! {

/// Progress is kept in hundredths of a percent: this value is 100%.
pub const PROGRESS_DONE: u32 = 10000;

/// A task that fails after it started reports at most 99% progress.
pub const PROGRESS_FAILED_CAP: u32 = 9900;

/// A copy of an optional text.
pub fn copy_text_opt(o: &Option<String>) -> (r: Option<String>)
    ensures
        r.deep_view() == o.deep_view(),
{
    match o {
        Some(s) => Some(s.clone()),
        None => None,
    }
}

/// The lifecycle state of a download task.
#[derive(Clone, Copy, Debug, PartialEq, Eq, Structural)]
pub enum TaskStatus {
    Queued,
    Running,
    Completed,
    Failed,
    Cancelled,
}

impl TaskStatus {
    /// The task has come to an end: completed, failed or cancelled.
    pub open spec fn is_terminal(self) -> bool {
        self is Completed || self is Failed || self is Cancelled
    }

    pub fn is_finished(&self) -> (r: bool)
        ensures
            r == self.is_terminal(),
    {
        match self {
            TaskStatus::Completed | TaskStatus::Failed | TaskStatus::Cancelled => true,
            _ => false,
        }
    }
}

/// A download request as the user interface sends it.
#[derive(Debug)]
pub struct DownloadInput {
    pub url: String,
    pub platform_hint: Option<String>,
    pub output_dir: Option<String>,
    pub cookie_path: Option<String>,
    pub quality: Option<String>,
    pub format: Option<String>,
    pub vcodec: Option<String>,
    pub overwrite: bool,
}

pub struct DownloadInputView {
    pub url: Seq<char>,
    pub platform_hint: Option<Seq<char>>,
    pub output_dir: Option<Seq<char>>,
    pub cookie_path: Option<Seq<char>>,
    pub quality: Option<Seq<char>>,
    pub format: Option<Seq<char>>,
    pub vcodec: Option<Seq<char>>,
    pub overwrite: bool,
}

impl View for DownloadInput {
    type V = DownloadInputView;

    open spec fn view(&self) -> DownloadInputView {
        DownloadInputView {
            url: self.url@,
            platform_hint: self.platform_hint.deep_view(),
            output_dir: self.output_dir.deep_view(),
            cookie_path: self.cookie_path.deep_view(),
            quality: self.quality.deep_view(),
            format: self.format.deep_view(),
            vcodec: self.vcodec.deep_view(),
            overwrite: self.overwrite,
        }
    }
}

/// The user's settings.
#[derive(Debug)]
pub struct AppSettings {
    pub output_dir: String,
    pub cookie_path: String,
    pub retry_count: u8,
    pub vcodec: String,
}

pub struct AppSettingsView {
    pub output_dir: Seq<char>,
    pub cookie_path: Seq<char>,
    pub retry_count: u8,
    pub vcodec: Seq<char>,
}

impl View for AppSettings {
    type V = AppSettingsView;

    open spec fn view(&self) -> AppSettingsView {
        AppSettingsView {
            output_dir: self.output_dir@,
            cookie_path: self.cookie_path@,
            retry_count: self.retry_count,
            vcodec: self.vcodec@,
        }
    }
}

impl AppSettings {
    /// The settings of a fresh installation, saving into `output_dir`: no
    /// cookie file, two retries, and the video codec left to the engine.
    pub fn with_output_dir(output_dir: String) -> (s: AppSettings)
        ensures
            s@.output_dir == output_dir@,
            s@.cookie_path == Seq::<char>::empty(),
            s@.retry_count == 2,
            s@.vcodec == Seq::<char>::empty(),
    {
        AppSettings { output_dir, cookie_path: String::new(), retry_count: 2, vcodec: String::new() }
    }

    pub fn duplicate(&self) -> (r: AppSettings)
        ensures
            r@ == self@,
    {
        AppSettings {
            output_dir: self.output_dir.clone(),
            cookie_path: self.cookie_path.clone(),
            retry_count: self.retry_count,
            vcodec: self.vcodec.clone(),
        }
    }
}

/// One download task, as it is kept and shown.
#[derive(Debug)]
pub struct TaskRecord {
    pub id: String,
    pub url: String,
    pub platform: String,
    pub quality: String,
    pub format: String,
    pub vcodec: String,
    pub status: TaskStatus,
    /// In hundredths of a percent (`PROGRESS_DONE` is 100%).
    pub progress: u32,
    pub speed: Option<String>,
    pub eta: Option<u32>,
    pub file_path: Option<String>,
    pub error: Option<String>,
    pub output_dir: String,
    pub created_at: String,
    pub updated_at: String,
    pub retry_count: u8,
}

pub struct TaskView {
    pub id: Seq<char>,
    pub url: Seq<char>,
    pub platform: Seq<char>,
    pub quality: Seq<char>,
    pub format: Seq<char>,
    pub vcodec: Seq<char>,
    pub status: TaskStatus,
    pub progress: u32,
    pub speed: Option<Seq<char>>,
    pub eta: Option<u32>,
    pub file_path: Option<Seq<char>>,
    pub error: Option<Seq<char>>,
    pub output_dir: Seq<char>,
    pub created_at: Seq<char>,
    pub updated_at: Seq<char>,
    pub retry_count: u8,
}

impl View for TaskRecord {
    type V = TaskView;

    open spec fn view(&self) -> TaskView {
        TaskView {
            id: self.id@,
            url: self.url@,
            platform: self.platform@,
            quality: self.quality@,
            format: self.format@,
            vcodec: self.vcodec@,
            status: self.status,
            progress: self.progress,
            speed: self.speed.deep_view(),
            eta: self.eta,
            file_path: self.file_path.deep_view(),
            error: self.error.deep_view(),
            output_dir: self.output_dir@,
            created_at: self.created_at@,
            updated_at: self.updated_at@,
            retry_count: self.retry_count,
        }
    }
}

/// A queued task that has not been touched yet.
pub open spec fn fresh_task(
    id: Seq<char>,
    url: Seq<char>,
    platform: Seq<char>,
    output_dir: Seq<char>,
    retry_count: u8,
    stamp: Seq<char>,
) -> TaskView {
    TaskView {
        id,
        url,
        platform,
        quality: Seq::empty(),
        format: Seq::empty(),
        vcodec: Seq::empty(),
        status: TaskStatus::Queued,
        progress: 0,
        speed: None,
        eta: None,
        file_path: None,
        error: None,
        output_dir,
        created_at: stamp,
        updated_at: stamp,
        retry_count,
    }
}

impl TaskRecord {
    /// A queued task created at the time `stamp`.
    pub fn new_at(
        id: String,
        url: String,
        platform: String,
        output_dir: String,
        retry_count: u8,
        stamp: String,
    ) -> (r: TaskRecord)
        ensures
            r@ == fresh_task(id@, url@, platform@, output_dir@, retry_count, stamp@),
    {
        TaskRecord {
            id,
            url,
            platform,
            quality: String::new(),
            format: String::new(),
            vcodec: String::new(),
            status: TaskStatus::Queued,
            progress: 0,
            speed: None,
            eta: None,
            file_path: None,
            error: None,
            output_dir,
            created_at: stamp.clone(),
            updated_at: stamp,
            retry_count,
        }
    }

    /// A queued task created now: its creation and update times are the
    /// same reading of the clock, one RFC 3339 UTC time.
    pub fn new(id: String, url: String, platform: String, output_dir: String, retry_count: u8) -> (r:
        TaskRecord)
        ensures
            r@ == fresh_task(id@, url@, platform@, output_dir@, retry_count, r@.created_at),
            is_rfc3339_utc(r@.created_at),
    {
        let stamp = now();
        TaskRecord::new_at(id, url, platform, output_dir, retry_count, stamp)
    }

    pub fn duplicate(&self) -> (r: TaskRecord)
        ensures
            r@ == self@,
    {
        TaskRecord {
            id: self.id.clone(),
            url: self.url.clone(),
            platform: self.platform.clone(),
            quality: self.quality.clone(),
            format: self.format.clone(),
            vcodec: self.vcodec.clone(),
            status: self.status,
            progress: self.progress,
            speed: copy_text_opt(&self.speed),
            eta: self.eta,
            file_path: copy_text_opt(&self.file_path),
            error: copy_text_opt(&self.error),
            output_dir: self.output_dir.clone(),
            created_at: self.created_at.clone(),
            updated_at: self.updated_at.clone(),
            retry_count: self.retry_count,
        }
    }
}

/// A progress report for the user interface.
#[derive(Debug)]
pub struct ProgressEvent {
    pub task_id: String,
    /// In hundredths of a percent.
    pub percent: u32,
    pub speed: Option<String>,
    pub eta: Option<u32>,
    pub status: String,
    pub message: String,
}

pub struct ProgressEventView {
    pub task_id: Seq<char>,
    pub percent: u32,
    pub speed: Option<Seq<char>>,
    pub eta: Option<u32>,
    pub status: Seq<char>,
    pub message: Seq<char>,
}

impl View for ProgressEvent {
    type V = ProgressEventView;

    open spec fn view(&self) -> ProgressEventView {
        ProgressEventView {
            task_id: self.task_id@,
            percent: self.percent,
            speed: self.speed.deep_view(),
            eta: self.eta,
            status: self.status@,
            message: self.message@,
        }
    }
}

/// A log line for the user interface.
#[derive(Debug)]
pub struct TaskLogEvent {
    pub task_id: String,
    pub level: String,
    pub message: String,
}

pub struct LogView {
    pub task_id: Seq<char>,
    pub level: Seq<char>,
    pub message: Seq<char>,
}

impl View for TaskLogEvent {
    type V = LogView;

    open spec fn view(&self) -> LogView {
        LogView { task_id: self.task_id@, level: self.level@, message: self.message@ }
    }
}

pub open spec fn log_view(task_id: Seq<char>, level: Seq<char>, message: Seq<char>) -> LogView {
    LogView { task_id, level, message }
}

/// The report that a task has ended.
#[derive(Debug)]
pub struct TaskDoneEvent {
    pub task_id: String,
    pub success: bool,
    pub file_path: Option<String>,
    pub duration_ms: u64,
    pub error: Option<String>,
    pub raw: Option<String>,
}

pub struct DoneView {
    pub task_id: Seq<char>,
    pub success: bool,
    pub file_path: Option<Seq<char>>,
    pub duration_ms: u64,
    pub error: Option<Seq<char>>,
    pub raw: Option<Seq<char>>,
}

impl View for TaskDoneEvent {
    type V = DoneView;

    open spec fn view(&self) -> DoneView {
        DoneView {
            task_id: self.task_id@,
            success: self.success,
            file_path: self.file_path.deep_view(),
            duration_ms: self.duration_ms,
            error: self.error.deep_view(),
            raw: self.raw.deep_view(),
        }
    }
}

/// One message that the download engine writes on its standard output.
#[derive(Debug)]
#[allow(inconsistent_fields)]
pub enum PythonMessage {
    Progress {
        task_id: String,
        /// In hundredths of a percent.
        percent: u32,
        speed: Option<String>,
        eta: Option<u32>,
        status: String,
        message: Option<String>,
    },
    Log { task_id: String, level: String, message: String },
    Result {
        task_id: String,
        success: bool,
        file_path: Option<String>,
        duration_ms: u64,
        error: Option<String>,
        raw: Option<String>,
    },
}

} // verus!
