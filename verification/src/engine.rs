//! What the application does with the output of a running download: the
//! messages that the engine prints, the lines of its error stream, and the
//! way the process ends. Each function takes the store and one event and
//! says how the store changes and what is reported.

use vstd::prelude::*;
use vstd::string::StringExecFns;
use crate::models::{
    copy_text_opt, log_view, DoneView, DownloadInput, DownloadInputView, LogView, ProgressEvent, ProgressEventView, PythonMessage,
    TaskDoneEvent, TaskLogEvent, TaskStatus, TaskView, PROGRESS_DONE, PROGRESS_FAILED_CAP,
};
use crate::stamps::{is_rfc3339_utc, now};
use crate::store::TaskStore;
use crate::text::{i64_to_text, is_blank, join_text, joined, same_text, signed_decimal, trimmed};

verus! {

/// The status that a status word of the engine stands for; anything unknown
/// counts as queued.
pub open spec fn status_from_text(value: Seq<char>) -> TaskStatus {
    if value == "running"@ {
        TaskStatus::Running
    } else if value == "completed"@ {
        TaskStatus::Completed
    } else if value == "failed"@ {
        TaskStatus::Failed
    } else if value == "cancelled"@ {
        TaskStatus::Cancelled
    } else {
        TaskStatus::Queued
    }
}

pub fn to_task_status(value: &str) -> (r: TaskStatus)
    ensures
        r == status_from_text(value@),
{
    if same_text(value, "running") {
        TaskStatus::Running
    } else if same_text(value, "completed") {
        TaskStatus::Completed
    } else if same_text(value, "failed") {
        TaskStatus::Failed
    } else if same_text(value, "cancelled") {
        TaskStatus::Cancelled
    } else {
        TaskStatus::Queued
    }
}

/// A report for the user interface.
#[derive(Debug)]
pub enum Emission {
    Progress(ProgressEvent),
    Log(TaskLogEvent),
    Done(TaskDoneEvent),
}

pub enum EmissionView {
    Progress(ProgressEventView),
    Log(LogView),
    Done(DoneView),
}

impl View for Emission {
    type V = EmissionView;

    open spec fn view(&self) -> EmissionView {
        match self {
            Emission::Progress(p) => EmissionView::Progress(p@),
            Emission::Log(l) => EmissionView::Log(l@),
            Emission::Done(d) => EmissionView::Done(d@),
        }
    }
}

/// The task after a progress report.
pub open spec fn progressed(
    t: TaskView,
    status: Seq<char>,
    percent: u32,
    speed: Option<Seq<char>>,
    eta: Option<u32>,
    stamp: Seq<char>,
) -> TaskView {
    TaskView { status: status_from_text(status), progress: percent, speed, eta, updated_at: stamp, ..t }
}

/// The error kept with a task that reports failure: the raw engine output if
/// there is some, else the error message.
pub open spec fn kept_error(success: bool, error: Option<Seq<char>>, raw: Option<Seq<char>>) -> Option<
    Seq<char>,
> {
    if success {
        None
    } else {
        match raw {
            Some(r) => Some(r),
            None => error,
        }
    }
}

/// The task after the engine reported its result.
pub open spec fn finished_by_engine(
    t: TaskView,
    success: bool,
    file_path: Option<Seq<char>>,
    error: Option<Seq<char>>,
    raw: Option<Seq<char>>,
    stamp: Seq<char>,
) -> TaskView {
    if success {
        TaskView {
            status: TaskStatus::Completed,
            progress: PROGRESS_DONE,
            file_path,
            error: None,
            updated_at: stamp,
            ..t
        }
    } else {
        TaskView {
            status: TaskStatus::Failed,
            error: kept_error(success, error, raw),
            updated_at: stamp,
            ..t
        }
    }
}

/// The store after `id`'s task is changed to `t`, if the store holds `id`.
pub open spec fn changed_if_present(
    tasks: Map<Seq<char>, TaskView>,
    id: Seq<char>,
    t: TaskView,
) -> Map<Seq<char>, TaskView> {
    if tasks.contains_key(id) {
        tasks.insert(id, t)
    } else {
        tasks
    }
}

/// How the store changes, and what is reported, for one engine message
/// received at time `stamp`.
pub open spec fn message_effect(
    tasks: Map<Seq<char>, TaskView>,
    message: PythonMessage,
    stamp: Seq<char>,
) -> (Map<Seq<char>, TaskView>, EmissionView) {
    match message {
        PythonMessage::Progress { task_id, percent, speed, eta, status, message } => (
            changed_if_present(
                tasks,
                task_id@,
                progressed(tasks[task_id@], status@, percent, speed.deep_view(), eta, stamp),
            ),
            EmissionView::Progress(
                ProgressEventView {
                    task_id: task_id@,
                    percent,
                    speed: speed.deep_view(),
                    eta,
                    status: status@,
                    message: match message {
                        Some(m) => m@,
                        None => "running"@,
                    },
                },
            ),
        ),
        PythonMessage::Log { task_id, level, message } => (
            tasks,
            EmissionView::Log(log_view(task_id@, level@, message@)),
        ),
        PythonMessage::Result { task_id, success, file_path, duration_ms, error, raw } => (
            changed_if_present(
                tasks,
                task_id@,
                finished_by_engine(
                    tasks[task_id@],
                    success,
                    file_path.deep_view(),
                    error.deep_view(),
                    raw.deep_view(),
                    stamp,
                ),
            ),
            EmissionView::Done(
                DoneView {
                    task_id: task_id@,
                    success,
                    file_path: file_path.deep_view(),
                    duration_ms,
                    error: match error.deep_view() {
                        Some(e) => Some(e),
                        None => kept_error(success, error.deep_view(), raw.deep_view()),
                    },
                    raw: raw.deep_view(),
                },
            ),
        ),
    }
}

fn or_text(a: &Option<String>, b: &Option<String>) -> (r: Option<String>)
    ensures
        r.deep_view() == match a.deep_view() {
            Some(x) => Some(x),
            None => b.deep_view(),
        },
{
    match a {
        Some(x) => Some(x.clone()),
        None => copy_text_opt(b),
    }
}

/// Applies one engine message received at time `stamp`.
pub fn apply_message_at(tasks: &mut TaskStore, message: PythonMessage, stamp: String) -> (r:
    Emission)
    ensures
        (final(tasks)@, r@) == message_effect(old(tasks)@, message, stamp@),
        message matches PythonMessage::Progress { percent, speed, eta, .. } ==> r@ matches EmissionView::Progress(e)
            && e.percent == percent && e.speed == speed.deep_view() && e.eta == eta,
{
    let ghost m = message;
    match message {
        PythonMessage::Progress { task_id, percent, speed, eta, status, message } => {
            let current = match tasks.get(task_id.as_str()) {
                Some(t) => Some(t.duplicate()),
                None => None,
            };
            if let Some(mut t) = current {
                t.status = to_task_status(status.as_str());
                t.progress = percent;
                t.speed = copy_text_opt(&speed);
                t.eta = eta;
                t.updated_at = stamp;
                tasks.insert(t);
            }
            let text = match message {
                Some(x) => x,
                None => String::from_str("running"),
            };
            Emission::Progress(ProgressEvent { task_id, percent, speed, eta, status, message: text })
        },
        PythonMessage::Log { task_id, level, message } => {
            Emission::Log(TaskLogEvent { task_id, level, message })
        },
        PythonMessage::Result { task_id, success, file_path, duration_ms, error, raw } => {
            let persisted = if success {
                None
            } else {
                or_text(&raw, &error)
            };
            let current = match tasks.get(task_id.as_str()) {
                Some(t) => Some(t.duplicate()),
                None => None,
            };
            if let Some(mut t) = current {
                if success {
                    t.status = TaskStatus::Completed;
                    t.progress = PROGRESS_DONE;
                    t.file_path = copy_text_opt(&file_path);
                    t.error = None;
                } else {
                    t.status = TaskStatus::Failed;
                    t.error = copy_text_opt(&persisted);
                }
                t.updated_at = stamp;
                tasks.insert(t);
            }
            let reported = or_text(&error, &persisted);
            Emission::Done(
                TaskDoneEvent { task_id, success, file_path, duration_ms, error: reported, raw },
            )
        },
    }
}

/// Applies one engine message now. The store changes as `message_effect`
/// says for some time stamp read from the clock, an RFC 3339 UTC time.
pub fn apply_message(tasks: &mut TaskStore, message: PythonMessage) -> (r: Emission)
    ensures
        exists|stamp: Seq<char>|
            is_rfc3339_utc(stamp) && (final(tasks)@, r@) == message_effect(old(tasks)@, message, stamp),
{
    let stamp = now();
    let r = apply_message_at(tasks, message, stamp);
    assert((tasks@, r@) == message_effect(old(tasks)@, message, stamp@));
    r
}

/// A log line as the user interface shows it.
fn log_event(task_id: &str, level: &str, message: &str) -> (r: TaskLogEvent)
    ensures
        r@ == log_view(task_id@, level@, message@),
{
    TaskLogEvent {
        task_id: String::from_str(task_id),
        level: String::from_str(level),
        message: String::from_str(message),
    }
}

/// The task description that the download engine receives.
#[derive(Debug)]
pub struct EngineRequest {
    pub task_id: String,
    pub url: String,
    pub platform: String,
    pub quality: String,
    pub format: String,
    pub vcodec: String,
    pub output_dir: String,
    pub cookie_path: Option<String>,
    pub overwrite: bool,
    pub retry: u8,
}

pub struct EngineRequestView {
    pub task_id: Seq<char>,
    pub url: Seq<char>,
    pub platform: Seq<char>,
    pub quality: Seq<char>,
    pub format: Seq<char>,
    pub vcodec: Seq<char>,
    pub output_dir: Seq<char>,
    pub cookie_path: Option<Seq<char>>,
    pub overwrite: bool,
    pub retry: u8,
}

impl View for EngineRequest {
    type V = EngineRequestView;

    open spec fn view(&self) -> EngineRequestView {
        EngineRequestView {
            task_id: self.task_id@,
            url: self.url@,
            platform: self.platform@,
            quality: self.quality@,
            format: self.format@,
            vcodec: self.vcodec@,
            output_dir: self.output_dir@,
            cookie_path: self.cookie_path.deep_view(),
            overwrite: self.overwrite,
            retry: self.retry,
        }
    }
}

pub open spec fn text_or(o: Option<Seq<char>>, fallback: Seq<char>) -> Seq<char> {
    match o {
        Some(v) => v,
        None => fallback,
    }
}

/// The engine's task description for a queued request: no quality means the
/// engine's choice, the format defaults to mp4 and the codec to `auto`.
pub open spec fn engine_request_of(
    task_id: Seq<char>,
    payload: DownloadInputView,
    platform: Seq<char>,
    output_dir: Seq<char>,
    cookie_path: Option<Seq<char>>,
    retry: u8,
) -> EngineRequestView {
    EngineRequestView {
        task_id,
        url: payload.url,
        platform,
        quality: text_or(payload.quality, Seq::empty()),
        format: text_or(payload.format, "mp4"@),
        vcodec: text_or(payload.vcodec, "auto"@),
        output_dir,
        cookie_path,
        overwrite: payload.overwrite,
        retry,
    }
}

fn text_or_exec(o: &Option<String>, fallback: &str) -> (r: String)
    ensures
        r@ == text_or(o.deep_view(), fallback@),
{
    match o {
        Some(v) => v.clone(),
        None => String::from_str(fallback),
    }
}

pub fn engine_request(
    task_id: &str,
    payload: &DownloadInput,
    platform: &str,
    output_dir: String,
    cookie_path: Option<String>,
    retry: u8,
) -> (r: EngineRequest)
    ensures
        r@ == engine_request_of(
            task_id@,
            payload@,
            platform@,
            output_dir@,
            cookie_path.deep_view(),
            retry,
        ),
        r@.url == payload@.url && r@.task_id == task_id@ && r@.platform == platform@,
{
    EngineRequest {
        task_id: String::from_str(task_id),
        url: payload.url.clone(),
        platform: String::from_str(platform),
        quality: match &payload.quality {
            Some(q) => q.clone(),
            None => String::new(),
        },
        format: text_or_exec(&payload.format, "mp4"),
        vcodec: text_or_exec(&payload.vcodec, "auto"),
        output_dir,
        cookie_path,
        overwrite: payload.overwrite,
        retry,
    }
}

/// The cookie file handed to the engine: the requested one when it is not
/// blank and exists on disk. A requested file that is missing is dropped with
/// a warning.
pub open spec fn cookie_choice(
    task_id: Seq<char>,
    cookie_path: Option<Seq<char>>,
    file_exists: bool,
) -> (Option<Seq<char>>, Option<LogView>) {
    match cookie_path {
        Some(v) => if trimmed(v).len() == 0 {
            (None, None)
        } else if file_exists {
            (Some(v), None)
        } else {
            (
                None,
                Some(log_view(task_id, "warn"@, "Cookie file not found, ignore this cookie"@)),
            )
        },
        None => (None, None),
    }
}

pub open spec fn log_opt(r: Option<TaskLogEvent>) -> Option<LogView> {
    match r {
        Some(l) => Some(l@),
        None => None,
    }
}

/// `file_exists` tells whether the requested cookie file is on disk.
pub fn select_cookie(task_id: &str, cookie_path: &Option<String>, file_exists: bool) -> (r: (
    Option<String>,
    Option<TaskLogEvent>,
))
    ensures
        (r.0.deep_view(), log_opt(r.1)) == cookie_choice(task_id@, cookie_path.deep_view(), file_exists),
{
    match cookie_path {
        Some(v) => if is_blank(v.as_str()) {
            (None, None)
        } else if file_exists {
            (Some(v.clone()), None)
        } else {
            (None, Some(log_event(task_id, "warn", "Cookie file not found, ignore this cookie")))
        },
        None => (None, None),
    }
}

/// The error given when the download script is not where it should be.
pub fn script_missing_error() -> (r: String)
    ensures
        r@ == "Python script not found: src-tauri/python/downloader_service.py"@,
{
    String::from_str("Python script not found: src-tauri/python/downloader_service.py")
}

/// A line of the engine's error stream, shown as an error.
pub fn stderr_line_event(task_id: &str, line: &str) -> (r: TaskLogEvent)
    ensures
        r@ == log_view(task_id@, "error"@, line@),
{
    log_event(task_id, "error", line)
}

/// A line of the engine's output that is not a message, shown for debugging.
pub fn unparsed_output_event(task_id: &str, line: &str) -> (r: TaskLogEvent)
    ensures
        r@ == log_view(task_id@, "debug"@, line@),
{
    log_event(task_id, "debug", line)
}

/// Reading one of the engine's streams failed with `error`.
pub fn read_failed_event(task_id: &str, from_stderr: bool, error: &str) -> (r: TaskLogEvent)
    ensures
        r@ == log_view(
            task_id@,
            "error"@,
            (if from_stderr {
                "Read python stderr failed: "@
            } else {
                "Read python output failed: "@
            }) + error@,
        ),
{
    let head = if from_stderr {
        String::from_str("Read python stderr failed: ")
    } else {
        String::from_str("Read python output failed: ")
    };
    let message = head.concat(error);
    log_event(task_id, "error", message.as_str())
}

/// How many lines of the engine's error stream are kept.
pub const STDERR_TAIL_LINES: usize = 80;

/// The last `n` entries of `s` (all of them when there are fewer).
pub open spec fn last_lines(s: Seq<Seq<char>>, n: nat) -> Seq<Seq<char>> {
    if s.len() > n {
        s.subrange(s.len() - n, s.len() as int)
    } else {
        s
    }
}

/// The most recent lines that the engine wrote on its error stream.
pub struct StderrTail {
    lines: Vec<String>,
}

impl View for StderrTail {
    type V = Seq<Seq<char>>;

    closed spec fn view(&self) -> Seq<Seq<char>> {
        self.lines@.map_values(|l: String| l@)
    }
}

impl StderrTail {
    pub fn new() -> (r: StderrTail)
        ensures
            r@ == Seq::<Seq<char>>::empty(),
    {
        let r = StderrTail { lines: Vec::new() };
        assert(r@ =~= Seq::<Seq<char>>::empty());
        r
    }

    /// Keeps `line`, dropping the oldest lines beyond the last
    /// `STDERR_TAIL_LINES`.
    pub fn push(&mut self, line: String)
        ensures
            final(self)@ == last_lines(old(self)@.push(line@), STDERR_TAIL_LINES as nat),
    {
        let ghost all = old(self)@.push(line@);
        self.lines.push(line);
        assert(self@ =~= all);
        while self.lines.len() > STDERR_TAIL_LINES
            invariant
                all.len() >= self@.len(),
                self@.len() == self.lines@.len(),
                self@.len() == all.len() || self@.len() >= STDERR_TAIL_LINES,
                self@ == all.subrange(all.len() - self@.len(), all.len() as int),
            decreases self.lines@.len(),
        {
            let ghost before = self@;
            self.lines.remove(0);
            assert(self@ =~= before.drop_first());
        }
        assert(self@ =~= last_lines(all, STDERR_TAIL_LINES as nat));
    }

    /// The kept lines joined by line feeds, or nothing when there are none.
    pub fn joined(&self) -> (r: Option<String>)
        ensures
            r.deep_view() == if self@.len() == 0 {
                None
            } else {
                Some(joined(self@, "\n"@))
            },
    {
        if self.lines.len() == 0 {
            None
        } else {
            Some(join_text(&self.lines, "\n"))
        }
    }
}

/// The raw report of a process that ended by itself.
pub open spec fn exit_raw(code: i32, tail: Option<Seq<char>>) -> Seq<char> {
    let base = "process_exit="@ + signed_decimal(code as int);
    if code == 0 {
        base
    } else {
        match tail {
            Some(t) => base + "; stderr="@ + t,
            None => base,
        }
    }
}

/// The task after its process ended with `code`.
pub open spec fn exited(t: TaskView, code: i32, tail: Option<Seq<char>>, stamp: Seq<char>) -> TaskView {
    if code == 0 {
        TaskView {
            status: TaskStatus::Completed,
            progress: PROGRESS_DONE,
            error: None,
            updated_at: stamp,
            ..t
        }
    } else {
        TaskView {
            status: TaskStatus::Failed,
            error: Some(exit_raw(code, tail)),
            progress: if t.progress < PROGRESS_FAILED_CAP {
                t.progress
            } else {
                PROGRESS_FAILED_CAP
            },
            updated_at: stamp,
            ..t
        }
    }
}

/// How the store changes, and what is reported, when the process of task
/// `id` ends: a task that already came to an end keeps its state and nothing
/// is reported.
pub open spec fn exit_effect(
    tasks: Map<Seq<char>, TaskView>,
    id: Seq<char>,
    code: i32,
    tail: Option<Seq<char>>,
    duration_ms: u64,
    stamp: Seq<char>,
) -> (Map<Seq<char>, TaskView>, Option<DoneView>) {
    if tasks.contains_key(id) && !tasks[id].status.is_terminal() {
        let t = exited(tasks[id], code, tail, stamp);
        (
            tasks.insert(id, t),
            Some(
                DoneView {
                    task_id: id,
                    success: code == 0,
                    file_path: t.file_path,
                    duration_ms,
                    error: t.error,
                    raw: Some(exit_raw(code, tail)),
                },
            ),
        )
    } else {
        (tasks, None)
    }
}

pub open spec fn done_view(r: Option<TaskDoneEvent>) -> Option<DoneView> {
    match r {
        Some(d) => Some(d@),
        None => None,
    }
}

/// Records how the process of task `task_id` ended, at time `stamp`.
pub fn finish_process_at(
    tasks: &mut TaskStore,
    task_id: &str,
    exit_code: i32,
    stderr_tail: Option<String>,
    duration_ms: u64,
    stamp: String,
) -> (r: Option<TaskDoneEvent>)
    ensures
        (final(tasks)@, done_view(r)) == exit_effect(
            old(tasks)@,
            task_id@,
            exit_code,
            stderr_tail.deep_view(),
            duration_ms,
            stamp@,
        ),
{
    let current = match tasks.get(task_id) {
        Some(t) => Some(t.duplicate()),
        None => None,
    };
    match current {
        None => None,
        Some(mut t) => {
            if t.status.is_finished() {
                return None;
            }
            let mut raw = String::from_str("process_exit=").concat(i64_to_text(exit_code as i64).as_str());
            if exit_code == 0 {
                t.status = TaskStatus::Completed;
                t.progress = PROGRESS_DONE;
                t.error = None;
            } else {
                if let Some(tail) = stderr_tail {
                    raw = raw.concat("; stderr=").concat(tail.as_str());
                }
                t.status = TaskStatus::Failed;
                t.error = Some(raw.clone());
                if t.progress > PROGRESS_FAILED_CAP {
                    t.progress = PROGRESS_FAILED_CAP;
                }
            }
            t.updated_at = stamp;
            let done = TaskDoneEvent {
                task_id: String::from_str(task_id),
                success: exit_code == 0,
                file_path: copy_text_opt(&t.file_path),
                duration_ms,
                error: copy_text_opt(&t.error),
                raw: Some(raw),
            };
            tasks.insert(t);
            Some(done)
        },
    }
}

/// Records how the process of task `task_id` ended, now.
pub fn finish_process(
    tasks: &mut TaskStore,
    task_id: &str,
    exit_code: i32,
    stderr_tail: Option<String>,
    duration_ms: u64,
) -> (r: Option<TaskDoneEvent>)
    ensures
        exists|stamp: Seq<char>|
            is_rfc3339_utc(stamp) && (final(tasks)@, done_view(r)) == exit_effect(
                old(tasks)@,
                task_id@,
                exit_code,
                stderr_tail.deep_view(),
                duration_ms,
                stamp,
            ),
{
    let ghost tail = stderr_tail.deep_view();
    let stamp = now();
    let r = finish_process_at(tasks, task_id, exit_code, stderr_tail, duration_ms, stamp);
    assert((tasks@, done_view(r)) == exit_effect(old(tasks)@, task_id@, exit_code, tail, duration_ms, stamp@));
    r
}

} // verus!
