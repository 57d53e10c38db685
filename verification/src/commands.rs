//! The decisions behind each command of the user interface: validating a
//! download request, queueing it, the settings, and removing, cancelling or
//! clearing tasks. The shell around the library performs the file, dialog
//! and process work that these functions ask for.

use vstd::prelude::*;
use vstd::string::StringExecFns;
use crate::models::{
    copy_text_opt, fresh_task, log_view, AppSettings, AppSettingsView, DownloadInput,
    DownloadInputView, LogView, TaskLogEvent, TaskRecord, TaskStatus, TaskView,
};
use crate::platform::{detected_platform, normalize_platform, platform_label, platform_note};
use crate::stamps::{is_hyphenated_uuid, is_rfc3339_utc, new_task_id, now};
use crate::store::{finished_ids, lists_all, newest_first, unfinished, views, TaskStore};
use crate::text::{
    decimal, has_prefix, is_blank, lowercase, remove_spaces, same_text, starts_with, strip_both,
    strip_chars, to_lowercase, trim, trimmed, u64_to_text, without_spaces, CharClass,
};

verus! {

/// A log line as the user interface shows it.
fn log_event(task_id: &str, level: &str, message: &str) -> (r: TaskLogEvent)
    ensures
        r@ == log_view(task_id@, level@, message@),
{
    TaskLogEvent {
        task_id: String::from_str(task_id),
        level: String::from_str(level),
        message: String::from_str(message),
    }
}

/// The value the user gave, unless it is missing or blank.
pub open spec fn given_or(given: Option<Seq<char>>, fallback: Seq<char>) -> Seq<char> {
    match given {
        Some(v) => if trimmed(v).len() == 0 {
            fallback
        } else {
            v
        },
        None => fallback,
    }
}

fn given_or_exec(given: &Option<String>, fallback: &String) -> (r: String)
    ensures
        r@ == given_or(given.deep_view(), fallback@),
{
    match given {
        Some(v) => if is_blank(v.as_str()) {
            fallback.clone()
        } else {
            v.clone()
        },
        None => fallback.clone(),
    }
}

/// The URL that a request is made for: all white space removed, then the
/// quotes around it.
pub open spec fn normalized_url(url: Seq<char>) -> Seq<char> {
    strip_both(without_spaces(url), CharClass::Quote)
}

/// A validated download request, before it is given an id.
#[derive(Debug)]
pub struct TaskPlan {
    pub url: String,
    pub platform: String,
    pub output_dir: String,
    pub cookie_path: String,
    pub vcodec: String,
    pub quality: Option<String>,
    pub format: Option<String>,
    pub overwrite: bool,
}

pub struct TaskPlanView {
    pub url: Seq<char>,
    pub platform: Seq<char>,
    pub output_dir: Seq<char>,
    pub cookie_path: Seq<char>,
    pub vcodec: Seq<char>,
    pub quality: Option<Seq<char>>,
    pub format: Option<Seq<char>>,
    pub overwrite: bool,
}

impl View for TaskPlan {
    type V = TaskPlanView;

    open spec fn view(&self) -> TaskPlanView {
        TaskPlanView {
            url: self.url@,
            platform: self.platform@,
            output_dir: self.output_dir@,
            cookie_path: self.cookie_path@,
            vcodec: self.vcodec@,
            quality: self.quality.deep_view(),
            format: self.format.deep_view(),
            overwrite: self.overwrite,
        }
    }
}

/// What becomes of a download request: refused with a message, or accepted
/// with the URL, platform, directory, cookie file and codec it will use.
pub open spec fn plan_outcome(input: DownloadInputView, settings: AppSettingsView) -> Result<
    TaskPlanView,
    Seq<char>,
> {
    let url = normalized_url(input.url);
    if url.len() == 0 {
        Err("Invalid URL"@)
    } else {
        let platform = detected_platform(input.platform_hint, url);
        if platform == "other"@ {
            Err("Only bilibili/douyin/youtube are supported"@)
        } else if !has_prefix(lowercase(url), "http"@) {
            Err("Invalid URL"@)
        } else {
            Ok(
                TaskPlanView {
                    url,
                    platform,
                    output_dir: given_or(input.output_dir, settings.output_dir),
                    cookie_path: given_or(input.cookie_path, settings.cookie_path),
                    vcodec: given_or(
                        input.vcodec,
                        if trimmed(settings.vcodec).len() == 0 {
                            "auto"@
                        } else {
                            settings.vcodec
                        },
                    ),
                    quality: input.quality,
                    format: input.format,
                    overwrite: input.overwrite,
                },
            )
        }
    }
}

/// The warning shown when the URL had to be cleaned up.
pub open spec fn normalize_notice(input: DownloadInputView) -> Option<LogView> {
    let url = normalized_url(input.url);
    let raw = trimmed(input.url);
    if url.len() > 0 && url != raw {
        Some(log_view("system"@, "warn"@, "Normalize URL from ["@ + raw + "] to ["@ + url + "]"@))
    } else {
        None
    }
}

pub open spec fn plan_view(r: Result<TaskPlan, String>) -> Result<TaskPlanView, Seq<char>> {
    match r {
        Ok(p) => Ok(p@),
        Err(e) => Err(e@),
    }
}

pub open spec fn log_opt_view(r: Option<TaskLogEvent>) -> Option<LogView> {
    match r {
        Some(l) => Some(l@),
        None => None,
    }
}

/// Validates a download request against the settings. The warning about a
/// cleaned-up URL is given whether or not the request is accepted.
pub fn plan_task(input: &DownloadInput, settings: &AppSettings) -> (r: (
    Result<TaskPlan, String>,
    Option<TaskLogEvent>,
))
    ensures
        plan_view(r.0) == plan_outcome(input@, settings@),
        log_opt_view(r.1) == normalize_notice(input@),
        r.0 matches Ok(p) ==> p@.url == normalized_url(input@.url) && p@.quality == input@.quality
            && p@.format == input@.format && p@.overwrite == input@.overwrite,
{
    let raw_url = trim(input.url.as_str());
    let url = strip_chars(remove_spaces(input.url.as_str()).as_str(), CharClass::Quote);
    if url.as_str().is_empty() {
        return (Err(String::from_str("Invalid URL")), None);
    }
    let notice = if !same_text(url.as_str(), raw_url.as_str()) {
        let message = String::from_str("Normalize URL from [").concat(raw_url.as_str()).concat(
            "] to [",
        ).concat(url.as_str()).concat("]");
        Some(log_event("system", "warn", message.as_str()))
    } else {
        None
    };
    let platform = normalize_platform(copy_text_opt(&input.platform_hint), url.as_str());
    if same_text(platform.as_str(), "other") {
        return (Err(String::from_str("Only bilibili/douyin/youtube are supported")), notice);
    }
    if !starts_with(to_lowercase(url.as_str()).as_str(), "http") {
        return (Err(String::from_str("Invalid URL")), notice);
    }
    let output_dir = given_or_exec(&input.output_dir, &settings.output_dir);
    let cookie_path = given_or_exec(&input.cookie_path, &settings.cookie_path);
    let default_vcodec = if is_blank(settings.vcodec.as_str()) {
        String::from_str("auto")
    } else {
        settings.vcodec.clone()
    };
    let vcodec = given_or_exec(&input.vcodec, &default_vcodec);
    let plan = TaskPlan {
        url,
        platform,
        output_dir,
        cookie_path,
        vcodec,
        quality: copy_text_opt(&input.quality),
        format: copy_text_opt(&input.format),
        overwrite: input.overwrite,
    };
    (Ok(plan), notice)
}

/// The task that is queued for an accepted request.
pub open spec fn queued_task(
    plan: TaskPlanView,
    id: Seq<char>,
    output_dir: Seq<char>,
    retry_count: u8,
    stamp: Seq<char>,
) -> TaskView {
    TaskView {
        quality: match plan.quality {
            Some(q) => q,
            None => Seq::empty(),
        },
        format: match plan.format {
            Some(f) => f,
            None => "mp4"@,
        },
        vcodec: plan.vcodec,
        ..fresh_task(id, plan.url, plan.platform, output_dir, retry_count, stamp)
    }
}

/// The log line that announces a queued task.
pub open spec fn queued_notice(id: Seq<char>, platform: Seq<char>) -> LogView {
    log_view(id, "info"@, "Task queued: "@ + id + " ["@ + platform_label(platform) + "]"@)
}

/// The request handed on to the download engine.
pub open spec fn engine_payload(plan: TaskPlanView, output_dir: Seq<char>) -> DownloadInputView {
    DownloadInputView {
        url: plan.url,
        platform_hint: Some(plan.platform),
        output_dir: Some(output_dir),
        cookie_path: Some(plan.cookie_path),
        quality: plan.quality,
        format: plan.format,
        vcodec: Some(plan.vcodec),
        overwrite: plan.overwrite,
    }
}

/// Queues an accepted request as task `task_id`, created at time `stamp`,
/// saving into `output_dir`.
pub fn queue_task_at(
    tasks: &mut TaskStore,
    plan: TaskPlan,
    output_dir: String,
    retry_count: u8,
    task_id: String,
    stamp: String,
) -> (r: (TaskLogEvent, DownloadInput))
    ensures
        final(tasks)@ == old(tasks)@.insert(
            task_id@,
            queued_task(plan@, task_id@, output_dir@, retry_count, stamp@),
        ),
        r.0@ == queued_notice(task_id@, plan@.platform),
        r.1@ == engine_payload(plan@, output_dir@),
        r.1@.url == plan@.url && r.1@.quality == plan@.quality && r.1@.format == plan@.format,
{
    let mut record = TaskRecord::new_at(
        task_id.clone(),
        plan.url.clone(),
        plan.platform.clone(),
        output_dir.clone(),
        retry_count,
        stamp,
    );
    record.quality = match &plan.quality {
        Some(q) => q.clone(),
        None => String::new(),
    };
    record.format = match &plan.format {
        Some(f) => f.clone(),
        None => String::from_str("mp4"),
    };
    record.vcodec = plan.vcodec.clone();
    tasks.insert(record);
    let message = String::from_str("Task queued: ").concat(task_id.as_str()).concat(" [").concat(
        platform_note(plan.platform.as_str()),
    ).concat("]");
    let notice = log_event(task_id.as_str(), "info", message.as_str());
    let payload = DownloadInput {
        url: plan.url,
        platform_hint: Some(plan.platform),
        output_dir: Some(output_dir),
        cookie_path: Some(plan.cookie_path),
        quality: plan.quality,
        format: plan.format,
        vcodec: Some(plan.vcodec),
        overwrite: plan.overwrite,
    };
    (notice, payload)
}

/// Queues an accepted request under a fresh random id, created now; gives
/// back the id, the announcement and the request for the engine.
pub fn queue_task(tasks: &mut TaskStore, plan: TaskPlan, output_dir: String, retry_count: u8) -> (r: (
    String,
    TaskLogEvent,
    DownloadInput,
))
    ensures
        is_hyphenated_uuid(r.0@),
        exists|stamp: Seq<char>|
            is_rfc3339_utc(stamp) && final(tasks)@ == old(tasks)@.insert(
                r.0@,
                #[trigger] queued_task(plan@, r.0@, output_dir@, retry_count, stamp),
            ),
        r.1@ == queued_notice(r.0@, plan@.platform),
        r.2@ == engine_payload(plan@, output_dir@),
{
    let task_id = new_task_id();
    let stamp = now();
    let ghost s = stamp@;
    let ghost pv = plan@;
    let ghost dir = output_dir@;
    let (notice, payload) = queue_task_at(tasks, plan, output_dir, retry_count, task_id.clone(), stamp);
    assert(tasks@ == old(tasks)@.insert(task_id@, queued_task(pv, task_id@, dir, retry_count, s)));
    assert(exists|stamp: Seq<char>|
            is_rfc3339_utc(stamp) && tasks@ == old(tasks)@.insert(
                task_id@,
                #[trigger] queued_task(pv, task_id@, dir, retry_count, stamp),
            ));
    (task_id, notice, payload)
}

/// The store after `id`'s task is replaced by `t`, if the store holds `id`.
pub open spec fn updated_if_present(
    tasks: Map<Seq<char>, TaskView>,
    id: Seq<char>,
    t: TaskView,
) -> Map<Seq<char>, TaskView> {
    if tasks.contains_key(id) {
        tasks.insert(id, t)
    } else {
        tasks
    }
}

/// A task that could not be started.
pub open spec fn failed_to_start(t: TaskView, error: Seq<char>, stamp: Seq<char>) -> TaskView {
    TaskView { status: TaskStatus::Failed, error: Some(error), updated_at: stamp, ..t }
}

/// Marks task `task_id` as failed with `error`, at time `stamp`.
pub fn mark_failed_at(tasks: &mut TaskStore, task_id: &str, error: String, stamp: String)
    ensures
        final(tasks)@ == updated_if_present(
            old(tasks)@,
            task_id@,
            failed_to_start(old(tasks)@[task_id@], error@, stamp@),
        ),
{
    let current = match tasks.get(task_id) {
        Some(t) => Some(t.duplicate()),
        None => None,
    };
    if let Some(mut t) = current {
        t.status = TaskStatus::Failed;
        t.error = Some(error);
        t.updated_at = stamp;
        tasks.insert(t);
    }
}

/// Marks task `task_id` as failed with `error`, now.
pub fn mark_failed(tasks: &mut TaskStore, task_id: &str, error: String)
    ensures
        exists|stamp: Seq<char>|
            is_rfc3339_utc(stamp) && final(tasks)@ == updated_if_present(
                old(tasks)@,
                task_id@,
                failed_to_start(old(tasks)@[task_id@], error@, stamp),
            ),
{
    let stamp = now();
    let ghost s = stamp@;
    mark_failed_at(tasks, task_id, error, stamp);
    assert(tasks@ == updated_if_present(old(tasks)@, task_id@, failed_to_start(old(tasks)@[task_id@], error@, s)));
}

/// A task that the user cancelled.
pub open spec fn cancelled(t: TaskView, stamp: Seq<char>) -> TaskView {
    TaskView {
        status: TaskStatus::Cancelled,
        error: Some("User cancelled"@),
        updated_at: stamp,
        ..t
    }
}

/// Marks task `task_id` as cancelled at time `stamp` (once its process was
/// stopped) and gives the log line that says so.
pub fn mark_cancelled_at(tasks: &mut TaskStore, task_id: &str, stamp: String) -> (r: TaskLogEvent)
    ensures
        final(tasks)@ == updated_if_present(
            old(tasks)@,
            task_id@,
            cancelled(old(tasks)@[task_id@], stamp@),
        ),
        r@ == log_view(task_id@, "warn"@, "Task cancelled"@),
{
    let current = match tasks.get(task_id) {
        Some(t) => Some(t.duplicate()),
        None => None,
    };
    if let Some(mut t) = current {
        t.status = TaskStatus::Cancelled;
        t.updated_at = stamp;
        t.error = Some(String::from_str("User cancelled"));
        tasks.insert(t);
    }
    log_event(task_id, "warn", "Task cancelled")
}

/// Marks task `task_id` as cancelled now.
pub fn mark_cancelled(tasks: &mut TaskStore, task_id: &str) -> (r: TaskLogEvent)
    ensures
        exists|stamp: Seq<char>|
            is_rfc3339_utc(stamp) && final(tasks)@ == updated_if_present(
                old(tasks)@,
                task_id@,
                cancelled(old(tasks)@[task_id@], stamp),
            ),
        r@ == log_view(task_id@, "warn"@, "Task cancelled"@),
{
    let stamp = now();
    let ghost s = stamp@;
    let r = mark_cancelled_at(tasks, task_id, stamp);
    assert(tasks@ == updated_if_present(old(tasks)@, task_id@, cancelled(old(tasks)@[task_id@], s)));
    r
}

/// Drops task `task_id`; tells whether it was there, with the log line that
/// announces the removal.
pub fn remove_task(tasks: &mut TaskStore, task_id: &str) -> (r: (bool, Option<TaskLogEvent>))
    ensures
        final(tasks)@ == old(tasks)@.remove(task_id@),
        r.0 == old(tasks)@.contains_key(task_id@),
        log_opt_view(r.1) == if r.0 {
            Some(log_view(task_id@, "info"@, "Task removed"@))
        } else {
            None
        },
{
    let removed = tasks.remove(task_id).is_some();
    if removed {
        (true, Some(log_event(task_id, "info", "Task removed")))
    } else {
        (false, None)
    }
}

/// Drops every finished task; gives their number (as the 32-bit count the
/// interface receives) and, when there were some, the log line.
pub fn clear_finished_tasks(tasks: &mut TaskStore) -> (r: (u32, Option<TaskLogEvent>))
    ensures
        final(tasks)@ == unfinished(old(tasks)@),
        r.0 == finished_ids(old(tasks)@).len() as u32,
        log_opt_view(r.1) == if r.0 > 0 {
            Some(
                log_view(
                    "system"@,
                    "info"@,
                    "Cleared "@ + decimal(r.0 as nat) + " finished tasks"@,
                ),
            )
        } else {
            None
        },
{
    let removed = tasks.clear_finished();
    let count = removed as u32;
    if count > 0 {
        let message = String::from_str("Cleared ").concat(u64_to_text(count as u64).as_str()).concat(
            " finished tasks",
        );
        (count, Some(log_event("system", "info", message.as_str())))
    } else {
        (count, None)
    }
}

/// Every task, the most recently updated first.
pub fn list_tasks(tasks: &TaskStore) -> (r: Vec<TaskRecord>)
    ensures
        lists_all(views(r@), tasks@),
        newest_first(views(r@)),
{
    tasks.by_recent_update()
}

/// A copy of the settings.
pub fn get_settings(settings: &AppSettings) -> (r: AppSettings)
    ensures
        r@ == settings@,
{
    settings.duplicate()
}

/// Replaces the settings; always succeeds.
pub fn set_settings(current: &mut AppSettings, settings: AppSettings) -> (r: bool)
    ensures
        final(current)@ == settings@,
        r,
{
    *current = settings;
    true
}

/// Takes the directory the user picked, if any, as the output directory, and
/// gives it back (or empty text when the dialog was dismissed).
pub fn apply_output_dir_choice(settings: &mut AppSettings, picked: Option<String>) -> (r: String)
    ensures
        match picked.deep_view() {
            Some(d) => final(settings)@ == (AppSettingsView { output_dir: d, ..old(settings)@ })
                && r@ == d,
            None => final(settings)@ == old(settings)@ && r@ == Seq::<char>::empty(),
        },
{
    match picked {
        Some(dir) => {
            settings.output_dir = dir.clone();
            dir
        },
        None => String::new(),
    }
}

/// Takes the cookie file the user picked, if any, and gives it back; when the
/// dialog was dismissed, gives the current cookie file if it exists on disk,
/// else empty text.
pub fn apply_cookie_choice(
    settings: &mut AppSettings,
    picked: Option<String>,
    current_exists: bool,
) -> (r: String)
    ensures
        match picked.deep_view() {
            Some(f) => final(settings)@ == (AppSettingsView { cookie_path: f, ..old(settings)@ })
                && r@ == f,
            None => final(settings)@ == old(settings)@ && r@ == (if current_exists {
                old(settings)@.cookie_path
            } else {
                Seq::<char>::empty()
            }),
        },
{
    match picked {
        Some(file) => {
            settings.cookie_path = file.clone();
            file
        },
        None => if current_exists {
            settings.cookie_path.clone()
        } else {
            String::new()
        },
    }
}

/// The settings read at start-up, or fresh ones when none could be read;
/// a blank output directory falls back to `default_dir`.
pub fn settings_after_load(loaded: Option<AppSettings>, default_dir: String) -> (r: AppSettings)
    ensures
        r@ == match loaded {
            Some(s) => if trimmed(s@.output_dir).len() == 0 {
                (AppSettingsView { output_dir: default_dir@, ..s@ })
            } else {
                s@
            },
            None => (AppSettingsView {
                output_dir: default_dir@,
                cookie_path: Seq::empty(),
                retry_count: 2,
                vcodec: Seq::empty(),
            }),
        },
{
    let mut settings = match loaded {
        Some(s) => s,
        None => AppSettings::with_output_dir(default_dir.clone()),
    };
    if is_blank(settings.output_dir.as_str()) {
        settings.output_dir = default_dir;
    }
    settings
}

/// The directory to open for the user, or the log line explaining why there
/// is none.
pub fn output_dir_to_reveal(settings: &AppSettings) -> (r: Result<String, TaskLogEvent>)
    ensures
        match r {
            Ok(d) => settings@.output_dir.len() > 0 && d@ == settings@.output_dir,
            Err(l) => settings@.output_dir.len() == 0 && l@ == log_view(
                "system"@,
                "error"@,
                "Output dir is empty"@,
            ),
        },
{
    if settings.output_dir.as_str().is_empty() {
        Err(log_event("system", "error", "Output dir is empty"))
    } else {
        Ok(settings.output_dir.clone())
    }
}

/// The log line when the output directory could not be opened.
pub fn reveal_failed_event() -> (r: TaskLogEvent)
    ensures
        r@ == log_view("system"@, "error"@, "Failed to open output directory"@),
{
    log_event("system", "error", "Failed to open output directory")
}

/// The downloaded file of task `task_id`, if the task exists and has one.
pub fn file_of_task(tasks: &TaskStore, task_id: &str) -> (r: Option<String>)
    ensures
        r.deep_view() == if tasks@.contains_key(task_id@) {
            tasks@[task_id@].file_path
        } else {
            None
        },
{
    match tasks.get(task_id) {
        Some(t) => copy_text_opt(&t.file_path),
        None => None,
    }
}

/// The log line when a task's file is not on disk.
pub fn missing_file_event(task_id: &str) -> (r: TaskLogEvent)
    ensures
        r@ == log_view(task_id@, "warn"@, "File not exists"@),
{
    log_event(task_id, "warn", "File not exists")
}

/// The log line when a task's file could not be opened.
pub fn open_failed_event(task_id: &str) -> (r: TaskLogEvent)
    ensures
        r@ == log_view(task_id@, "error"@, "Failed to open file"@),
{
    log_event(task_id, "error", "Failed to open file")
}

/// The directory to save into: `candidate` when it exists, else `fallback`.
pub fn choose_existing_dir(candidate: String, candidate_exists: bool, fallback: String) -> (r: String)
    ensures
        r@ == if candidate_exists {
            candidate@
        } else {
            fallback@
        },
{
    if candidate_exists {
        candidate
    } else {
        fallback
    }
}

} // verus!
