use snapdown::commands::{
    apply_cookie_choice, apply_output_dir_choice, choose_existing_dir, clear_finished_tasks,
    file_of_task, get_settings, list_tasks, mark_cancelled, mark_cancelled_at, mark_failed,
    mark_failed_at, missing_file_event, open_failed_event, output_dir_to_reveal, plan_task,
    queue_task, queue_task_at, remove_task, reveal_failed_event, set_settings,
    settings_after_load, TaskPlan,
};
use snapdown::engine::{
    apply_message, apply_message_at, engine_request, finish_process, finish_process_at,
    read_failed_event, script_missing_error, select_cookie, stderr_line_event, to_task_status,
    unparsed_output_event, Emission, StderrTail, STDERR_TAIL_LINES,
};
use snapdown::models::{
    AppSettings, DownloadInput, PythonMessage, TaskRecord, TaskStatus, PROGRESS_DONE,
};
use snapdown::running::RunningProcesses;
use snapdown::store::TaskStore;

fn s(x: &str) -> String {
    x.to_string()
}

fn settings() -> AppSettings {
    AppSettings { output_dir: s("/dl"), cookie_path: s("/c.txt"), retry_count: 3, vcodec: s("") }
}

fn input(url: &str) -> DownloadInput {
    DownloadInput {
        url: s(url),
        platform_hint: None,
        output_dir: None,
        cookie_path: None,
        quality: None,
        format: None,
        vcodec: None,
        overwrite: false,
    }
}

fn task(id: &str, status: TaskStatus, updated: &str) -> TaskRecord {
    let mut t = TaskRecord::new_at(s(id), s("u"), s("youtube"), s("/dl"), 2, s(updated));
    t.status = status;
    t
}

#[test]
fn store_write_then_read() {
    let mut store = TaskStore::new();
    store.insert(task("a", TaskStatus::Queued, "1"));
    store.insert(task("b", TaskStatus::Running, "2"));
    assert_eq!(store.len(), 2);
    assert_eq!(store.get("a").unwrap().status, TaskStatus::Queued);
    store.insert(task("a", TaskStatus::Completed, "3"));
    assert_eq!(store.len(), 2);
    assert_eq!(store.get("a").unwrap().status, TaskStatus::Completed);
    assert_eq!(store.get("b").unwrap().updated_at, "2");
    assert!(store.get("c").is_none());
}

#[test]
fn store_remove_then_read() {
    let mut store = TaskStore::new();
    store.insert(task("a", TaskStatus::Queued, "1"));
    store.insert(task("b", TaskStatus::Queued, "1"));
    assert_eq!(store.remove("a").unwrap().id, "a");
    assert!(store.get("a").is_none());
    assert!(store.get("b").is_some());
    assert!(store.remove("a").is_none());
}

#[test]
fn listing_is_newest_first() {
    let mut store = TaskStore::new();
    store.insert(task("a", TaskStatus::Queued, "2024-01-02"));
    store.insert(task("b", TaskStatus::Queued, "2024-01-03"));
    store.insert(task("c", TaskStatus::Queued, "2024-01-01"));
    let ids: Vec<String> = list_tasks(&store).into_iter().map(|t| t.id).collect();
    assert_eq!(ids, vec!["b", "a", "c"]);
    assert!(list_tasks(&TaskStore::new()).is_empty());
}

#[test]
fn clearing_finished_tasks() {
    let mut store = TaskStore::new();
    store.insert(task("q", TaskStatus::Queued, "1"));
    store.insert(task("r", TaskStatus::Running, "1"));
    store.insert(task("c", TaskStatus::Completed, "1"));
    store.insert(task("f", TaskStatus::Failed, "1"));
    store.insert(task("x", TaskStatus::Cancelled, "1"));
    let (count, log) = clear_finished_tasks(&mut store);
    assert_eq!(count, 3);
    let log = log.unwrap();
    assert_eq!((log.task_id.as_str(), log.level.as_str()), ("system", "info"));
    assert_eq!(log.message, "Cleared 3 finished tasks");
    assert_eq!(store.len(), 2);
    assert!(store.get("q").is_some() && store.get("r").is_some());
    let (again, none) = clear_finished_tasks(&mut store);
    assert_eq!(again, 0);
    assert!(none.is_none());
}

#[test]
fn removing_a_task_reports_it() {
    let mut store = TaskStore::new();
    store.insert(task("a", TaskStatus::Queued, "1"));
    let (removed, log) = remove_task(&mut store, "a");
    assert!(removed);
    assert_eq!(log.unwrap().message, "Task removed");
    let (removed, log) = remove_task(&mut store, "a");
    assert!(!removed);
    assert!(log.is_none());
}

#[test]
fn cancelling_a_task() {
    let mut store = TaskStore::new();
    store.insert(task("a", TaskStatus::Running, "1"));
    let log = mark_cancelled_at(&mut store, "a", s("9"));
    assert_eq!((log.task_id.as_str(), log.level.as_str(), log.message.as_str()), ("a", "warn", "Task cancelled"));
    let t = store.get("a").unwrap();
    assert_eq!(t.status, TaskStatus::Cancelled);
    assert_eq!(t.error.as_deref(), Some("User cancelled"));
    assert_eq!(t.updated_at, "9");
    let log = mark_cancelled(&mut store, "missing");
    assert_eq!(log.task_id, "missing");
    assert!(store.get("missing").is_none());
}

#[test]
fn running_processes_by_task() {
    let mut running = RunningProcesses::new();
    assert_eq!(running.remove("a"), None);
    running.insert(s("a"), 10);
    running.insert(s("b"), 11);
    running.insert(s("a"), 12);
    assert_eq!(running.remove("a"), Some(12));
    assert_eq!(running.remove("a"), None);
    assert_eq!(running.remove("b"), Some(11));
}

#[test]
fn plan_rejects_empty_url() {
    let (plan, notice) = plan_task(&input("  \" ' "), &settings());
    assert_eq!(plan.unwrap_err(), "Invalid URL");
    assert!(notice.is_none());
}

#[test]
fn plan_rejects_unsupported_platform() {
    let (plan, notice) = plan_task(&input("https://vimeo.com/1"), &settings());
    assert_eq!(plan.unwrap_err(), "Only bilibili/douyin/youtube are supported");
    assert!(notice.is_none());
}

#[test]
fn plan_rejects_non_http_url() {
    let (plan, _) = plan_task(&input("ftp://youtube.com/x"), &settings());
    assert_eq!(plan.unwrap_err(), "Invalid URL");
}

#[test]
fn plan_normalizes_url_and_warns() {
    let (plan, notice) = plan_task(&input(" \"https://youtu.be/ab c\" "), &settings());
    let plan = plan.unwrap();
    assert_eq!(plan.url, "https://youtu.be/abc");
    assert_eq!(plan.platform, "youtube");
    let notice = notice.unwrap();
    assert_eq!((notice.task_id.as_str(), notice.level.as_str()), ("system", "warn"));
    assert_eq!(notice.message, "Normalize URL from [\"https://youtu.be/ab c\"] to [https://youtu.be/abc]");
}

#[test]
fn plan_warning_given_even_when_refused() {
    let (plan, notice) = plan_task(&input("https://vimeo.com/a b"), &settings());
    assert!(plan.is_err());
    assert!(notice.is_some());
}

#[test]
fn plan_takes_settings_as_defaults() {
    let (plan, notice) = plan_task(&input("HTTPS://www.bilibili.com/video/1"), &settings());
    assert!(notice.is_none());
    let plan = plan.unwrap();
    assert_eq!(plan.output_dir, "/dl");
    assert_eq!(plan.cookie_path, "/c.txt");
    assert_eq!(plan.vcodec, "auto");
    let mut req = input("https://www.bilibili.com/video/1");
    req.output_dir = Some(s("/mine"));
    req.cookie_path = Some(s("  "));
    req.vcodec = Some(s("h264"));
    let plan = plan_task(&req, &settings()).0.unwrap();
    assert_eq!(plan.output_dir, "/mine");
    assert_eq!(plan.cookie_path, "/c.txt");
    assert_eq!(plan.vcodec, "h264");
    let mut conf = settings();
    conf.vcodec = s("av1");
    let plan = plan_task(&input("https://www.bilibili.com/video/1"), &conf).0.unwrap();
    assert_eq!(plan.vcodec, "av1");
}

fn plan() -> TaskPlan {
    TaskPlan {
        url: s("https://youtu.be/x"),
        platform: s("youtube"),
        output_dir: s("/dl"),
        cookie_path: s("/c.txt"),
        vcodec: s("auto"),
        quality: Some(s("1080p")),
        format: None,
        overwrite: true,
    }
}

#[test]
fn queueing_a_task() {
    let mut store = TaskStore::new();
    let (notice, payload) = queue_task_at(&mut store, plan(), s("/real"), 2, s("id-1"), s("t0"));
    assert_eq!(notice.message, "Task queued: id-1 [YouTube]");
    assert_eq!(notice.level, "info");
    let t = store.get("id-1").unwrap();
    assert_eq!(t.status, TaskStatus::Queued);
    assert_eq!(t.quality, "1080p");
    assert_eq!(t.format, "mp4");
    assert_eq!(t.vcodec, "auto");
    assert_eq!(t.output_dir, "/real");
    assert_eq!((t.created_at.as_str(), t.updated_at.as_str()), ("t0", "t0"));
    assert_eq!(t.retry_count, 2);
    assert_eq!(payload.platform_hint.as_deref(), Some("youtube"));
    assert_eq!(payload.output_dir.as_deref(), Some("/real"));
    assert_eq!(payload.vcodec.as_deref(), Some("auto"));
    assert!(payload.overwrite);
}

#[test]
fn queueing_gives_a_fresh_uuid() {
    let mut store = TaskStore::new();
    let (id, notice, _) = queue_task(&mut store, plan(), s("/real"), 2);
    assert_eq!(id.len(), 36);
    assert_eq!(uuid_shape(&id), true);
    assert_eq!(notice.task_id, id);
    let t = store.get(&id).unwrap();
    assert!(!t.created_at.is_empty());
    assert!(rfc3339_utc_shape(&t.created_at));
    assert_eq!(t.created_at, t.updated_at);
    let (id2, _, _) = queue_task(&mut store, plan(), s("/real"), 2);
    assert_ne!(id, id2);
    assert_eq!(store.len(), 2);
}

fn rfc3339_utc_shape(t: &str) -> bool {
    let c: Vec<char> = t.chars().collect();
    let n = c.len();
    let digits = |a: usize, b: usize| c[a..b].iter().all(|d| d.is_ascii_digit());
    let fraction = n.saturating_sub(25);
    n >= 25
        && digits(0, 4)
        && c[4] == '-'
        && digits(5, 7)
        && c[7] == '-'
        && digits(8, 10)
        && c[10] == 'T'
        && digits(11, 13)
        && c[13] == ':'
        && digits(14, 16)
        && c[16] == ':'
        && digits(17, 19)
        && (fraction == 0 || ([4, 7, 10].contains(&fraction) && c[19] == '.' && digits(20, n - 6)))
        && t.ends_with("+00:00")
}

#[test]
fn clock_readings_have_rfc3339_form() {
    assert!(rfc3339_utc_shape("2024-05-01T12:30:00+00:00"));
    assert!(rfc3339_utc_shape("2024-05-01T12:30:00.250+00:00"));
    assert!(!rfc3339_utc_shape("2024-05-01T12:30:00Z"));
    let mut store = TaskStore::new();
    let (id, _, _) = queue_task(&mut store, plan(), s("/real"), 0);
    mark_failed(&mut store, &id, s("boom"));
    assert!(rfc3339_utc_shape(&store.get(&id).unwrap().updated_at));
    let _ = mark_cancelled(&mut store, &id);
    assert!(rfc3339_utc_shape(&store.get(&id).unwrap().updated_at));
}

fn uuid_shape(id: &str) -> bool {
    id.chars().enumerate().all(|(i, c)| {
        if [8, 13, 18, 23].contains(&i) { c == '-' } else { c.is_ascii_hexdigit() && !c.is_ascii_uppercase() }
    })
}

#[test]
fn failing_to_start_marks_task() {
    let mut store = TaskStore::new();
    store.insert(task("a", TaskStatus::Queued, "1"));
    mark_failed_at(&mut store, "a", s("boom"), s("2"));
    let t = store.get("a").unwrap();
    assert_eq!(t.status, TaskStatus::Failed);
    assert_eq!(t.error.as_deref(), Some("boom"));
    assert_eq!(t.updated_at, "2");
    mark_failed(&mut store, "zzz", s("x"));
    assert_eq!(store.len(), 1);
}

#[test]
fn settings_round_trip() {
    let mut current = settings();
    let new = AppSettings { output_dir: s("/o"), cookie_path: s(""), retry_count: 5, vcodec: s("h265") };
    assert!(set_settings(&mut current, new));
    let got = get_settings(&current);
    assert_eq!((got.output_dir.as_str(), got.retry_count, got.vcodec.as_str()), ("/o", 5, "h265"));
}

#[test]
fn picking_directories_and_cookies() {
    let mut conf = settings();
    assert_eq!(apply_output_dir_choice(&mut conf, None), "");
    assert_eq!(conf.output_dir, "/dl");
    assert_eq!(apply_output_dir_choice(&mut conf, Some(s("/new"))), "/new");
    assert_eq!(conf.output_dir, "/new");
    assert_eq!(apply_cookie_choice(&mut conf, None, true), "/c.txt");
    assert_eq!(apply_cookie_choice(&mut conf, None, false), "");
    assert_eq!(apply_cookie_choice(&mut conf, Some(s("/k.txt")), false), "/k.txt");
    assert_eq!(conf.cookie_path, "/k.txt");
}

#[test]
fn loading_settings_with_fallbacks() {
    let fresh = settings_after_load(None, s("/home/dl"));
    assert_eq!((fresh.output_dir.as_str(), fresh.cookie_path.as_str(), fresh.retry_count), ("/home/dl", "", 2));
    let mut blank = settings();
    blank.output_dir = s("   ");
    assert_eq!(settings_after_load(Some(blank), s("/d")).output_dir, "/d");
    assert_eq!(settings_after_load(Some(settings()), s("/d")).output_dir, "/dl");
}

#[test]
fn revealing_the_output_directory() {
    assert_eq!(output_dir_to_reveal(&settings()).unwrap(), "/dl");
    let mut conf = settings();
    conf.output_dir = s("");
    let err = output_dir_to_reveal(&conf).unwrap_err();
    assert_eq!((err.task_id.as_str(), err.level.as_str(), err.message.as_str()), ("system", "error", "Output dir is empty"));
    assert_eq!(reveal_failed_event().message, "Failed to open output directory");
}

#[test]
fn opening_a_task_file() {
    let mut store = TaskStore::new();
    let mut t = task("a", TaskStatus::Completed, "1");
    t.file_path = Some(s("/dl/v.mp4"));
    store.insert(t);
    store.insert(task("b", TaskStatus::Running, "1"));
    assert_eq!(file_of_task(&store, "a").as_deref(), Some("/dl/v.mp4"));
    assert_eq!(file_of_task(&store, "b"), None);
    assert_eq!(file_of_task(&store, "zz"), None);
    assert_eq!(missing_file_event("a").message, "File not exists");
    assert_eq!(missing_file_event("a").level, "warn");
    assert_eq!(open_failed_event("a").message, "Failed to open file");
    assert_eq!(choose_existing_dir(s("/a"), true, s("/b")), "/a");
    assert_eq!(choose_existing_dir(s("/a"), false, s("/b")), "/b");
}

#[test]
fn status_words() {
    assert_eq!(to_task_status("running"), TaskStatus::Running);
    assert_eq!(to_task_status("completed"), TaskStatus::Completed);
    assert_eq!(to_task_status("failed"), TaskStatus::Failed);
    assert_eq!(to_task_status("cancelled"), TaskStatus::Cancelled);
    assert_eq!(to_task_status("Running"), TaskStatus::Queued);
    assert_eq!(to_task_status(""), TaskStatus::Queued);
}

#[test]
fn progress_message_updates_task() {
    let mut store = TaskStore::new();
    store.insert(task("a", TaskStatus::Queued, "1"));
    let msg = PythonMessage::Progress {
        task_id: s("a"),
        percent: 4250,
        speed: Some(s("1MiB/s")),
        eta: Some(7),
        status: s("running"),
        message: None,
    };
    match apply_message_at(&mut store, msg, s("5")) {
        Emission::Progress(p) => {
            assert_eq!(p.message, "running");
            assert_eq!(p.percent, 4250);
        }
        other => panic!("unexpected {:?}", other),
    }
    let t = store.get("a").unwrap();
    assert_eq!((t.status, t.progress, t.eta, t.updated_at.as_str()), (TaskStatus::Running, 4250, Some(7), "5"));
    assert_eq!(t.speed.as_deref(), Some("1MiB/s"));
}

#[test]
fn progress_for_unknown_task_only_reports() {
    let mut store = TaskStore::new();
    let msg = PythonMessage::Progress {
        task_id: s("zz"),
        percent: 1,
        speed: None,
        eta: None,
        status: s("running"),
        message: Some(s("hi")),
    };
    match apply_message(&mut store, msg) {
        Emission::Progress(p) => assert_eq!(p.message, "hi"),
        other => panic!("unexpected {:?}", other),
    }
    assert_eq!(store.len(), 0);
}

#[test]
fn log_message_is_passed_on() {
    let mut store = TaskStore::new();
    let msg = PythonMessage::Log { task_id: s("a"), level: s("info"), message: s("m") };
    match apply_message_at(&mut store, msg, s("1")) {
        Emission::Log(l) => assert_eq!((l.task_id.as_str(), l.level.as_str(), l.message.as_str()), ("a", "info", "m")),
        other => panic!("unexpected {:?}", other),
    }
}

#[test]
fn successful_result_completes_task() {
    let mut store = TaskStore::new();
    let mut t = task("a", TaskStatus::Running, "1");
    t.error = Some(s("old"));
    store.insert(t);
    let msg = PythonMessage::Result {
        task_id: s("a"),
        success: true,
        file_path: Some(s("/dl/x.mp4")),
        duration_ms: 10,
        error: None,
        raw: Some(s("r")),
    };
    match apply_message_at(&mut store, msg, s("2")) {
        Emission::Done(d) => {
            assert!(d.success);
            assert_eq!(d.error, None);
            assert_eq!(d.raw.as_deref(), Some("r"));
        }
        other => panic!("unexpected {:?}", other),
    }
    let t = store.get("a").unwrap();
    assert_eq!((t.status, t.progress), (TaskStatus::Completed, PROGRESS_DONE));
    assert_eq!(t.error, None);
    assert_eq!(t.file_path.as_deref(), Some("/dl/x.mp4"));
}

#[test]
fn failed_result_keeps_raw_report() {
    let mut store = TaskStore::new();
    store.insert(task("a", TaskStatus::Running, "1"));
    let msg = PythonMessage::Result {
        task_id: s("a"),
        success: false,
        file_path: None,
        duration_ms: 10,
        error: Some(s("e")),
        raw: Some(s("trace")),
    };
    match apply_message_at(&mut store, msg, s("2")) {
        Emission::Done(d) => assert_eq!(d.error.as_deref(), Some("e")),
        other => panic!("unexpected {:?}", other),
    }
    assert_eq!(store.get("a").unwrap().error.as_deref(), Some("trace"));
    let msg = PythonMessage::Result {
        task_id: s("a"),
        success: false,
        file_path: None,
        duration_ms: 10,
        error: None,
        raw: Some(s("only raw")),
    };
    match apply_message_at(&mut store, msg, s("3")) {
        Emission::Done(d) => assert_eq!(d.error.as_deref(), Some("only raw")),
        other => panic!("unexpected {:?}", other),
    }
}

#[test]
fn clean_exit_completes_task() {
    let mut store = TaskStore::new();
    store.insert(task("a", TaskStatus::Running, "1"));
    let done = finish_process_at(&mut store, "a", 0, Some(s("noise")), 99, s("2")).unwrap();
    assert!(done.success);
    assert_eq!(done.raw.as_deref(), Some("process_exit=0"));
    assert_eq!(done.duration_ms, 99);
    let t = store.get("a").unwrap();
    assert_eq!((t.status, t.progress), (TaskStatus::Completed, PROGRESS_DONE));
}

#[test]
fn failed_exit_caps_progress() {
    let mut store = TaskStore::new();
    let mut t = task("a", TaskStatus::Running, "1");
    t.progress = 9950;
    store.insert(t);
    let done = finish_process_at(&mut store, "a", -1, Some(s("l1\nl2")), 5, s("2")).unwrap();
    assert!(!done.success);
    assert_eq!(done.raw.as_deref(), Some("process_exit=-1; stderr=l1\nl2"));
    assert_eq!(done.error.as_deref(), Some("process_exit=-1; stderr=l1\nl2"));
    let t = store.get("a").unwrap();
    assert_eq!((t.status, t.progress), (TaskStatus::Failed, 9900));
    let mut store = TaskStore::new();
    let mut t = task("b", TaskStatus::Running, "1");
    t.progress = 1200;
    store.insert(t);
    let done = finish_process_at(&mut store, "b", 2, None, 5, s("2")).unwrap();
    assert_eq!(done.raw.as_deref(), Some("process_exit=2"));
    assert_eq!(store.get("b").unwrap().progress, 1200);
}

#[test]
fn exit_after_end_changes_nothing() {
    let mut store = TaskStore::new();
    store.insert(task("a", TaskStatus::Cancelled, "1"));
    assert!(finish_process(&mut store, "a", 1, None, 5).is_none());
    let t = store.get("a").unwrap();
    assert_eq!((t.status, t.updated_at.as_str()), (TaskStatus::Cancelled, "1"));
    assert!(finish_process(&mut store, "missing", 0, None, 5).is_none());
}

#[test]
fn stderr_tail_keeps_last_lines() {
    let mut tail = StderrTail::new();
    assert_eq!(tail.joined(), None);
    for i in 0..(STDERR_TAIL_LINES + 5) {
        tail.push(format!("line{}", i));
    }
    let joined = tail.joined().unwrap();
    let lines: Vec<&str> = joined.split('\n').collect();
    assert_eq!(lines.len(), STDERR_TAIL_LINES);
    assert_eq!(lines[0], "line5");
    assert_eq!(lines[STDERR_TAIL_LINES - 1], format!("line{}", STDERR_TAIL_LINES + 4));
}

#[test]
fn engine_request_defaults() {
    let mut payload = input("https://youtu.be/x");
    payload.overwrite = true;
    let req = engine_request("id", &payload, "youtube", s("/dl"), None, 3);
    assert_eq!((req.quality.as_str(), req.format.as_str(), req.vcodec.as_str()), ("", "mp4", "auto"));
    assert_eq!((req.retry, req.overwrite, req.platform.as_str()), (3, true, "youtube"));
    payload.quality = Some(s("720p"));
    payload.format = Some(s("mp3"));
    payload.vcodec = Some(s("h264"));
    let req = engine_request("id", &payload, "youtube", s("/dl"), Some(s("/c")), 1);
    assert_eq!((req.quality.as_str(), req.format.as_str(), req.vcodec.as_str()), ("720p", "mp3", "h264"));
    assert_eq!(req.cookie_path.as_deref(), Some("/c"));
}

#[test]
fn cookie_selection() {
    let (c, w) = select_cookie("t", &Some(s("/c.txt")), true);
    assert_eq!(c.as_deref(), Some("/c.txt"));
    assert!(w.is_none());
    let (c, w) = select_cookie("t", &Some(s("/c.txt")), false);
    assert!(c.is_none());
    assert_eq!(w.unwrap().message, "Cookie file not found, ignore this cookie");
    let (c, w) = select_cookie("t", &Some(s("  ")), false);
    assert!(c.is_none() && w.is_none());
    let (c, w) = select_cookie("t", &None, true);
    assert!(c.is_none() && w.is_none());
}

#[test]
fn stream_events() {
    assert_eq!(stderr_line_event("t", "oops").level, "error");
    assert_eq!(unparsed_output_event("t", "raw").level, "debug");
    assert_eq!(read_failed_event("t", true, "e").message, "Read python stderr failed: e");
    assert_eq!(read_failed_event("t", false, "e").message, "Read python output failed: e");
    assert_eq!(script_missing_error(), "Python script not found: src-tauri/python/downloader_service.py");
}

#[test]
fn fresh_task_record() {
    let t = TaskRecord::new(s("i"), s("u"), s("douyin"), s("/o"), 4);
    assert_eq!(t.status, TaskStatus::Queued);
    assert_eq!(t.progress, 0);
    assert_eq!(t.created_at, t.updated_at);
    assert!(!t.created_at.is_empty());
    assert!(rfc3339_utc_shape(&t.created_at));
    assert_eq!((t.quality.as_str(), t.format.as_str()), ("", ""));
    assert!(TaskStatus::Failed.is_finished());
    assert!(!TaskStatus::Running.is_finished());
}

#[test]
fn cancel_then_exit_keeps_cancellation() {
    let mut store = TaskStore::new();
    store.insert(task("a", TaskStatus::Running, "1"));
    mark_cancelled_at(&mut store, "a", s("2"));
    assert!(finish_process_at(&mut store, "a", 1, None, 3, s("3")).is_none());
    let t = store.get("a").unwrap();
    assert_eq!((t.status, t.updated_at.as_str()), (TaskStatus::Cancelled, "2"));
}

#[test]
fn remove_then_exit_changes_nothing() {
    let mut store = TaskStore::new();
    store.insert(task("a", TaskStatus::Running, "1"));
    remove_task(&mut store, "a");
    assert!(finish_process_at(&mut store, "a", 0, None, 3, s("3")).is_none());
    assert_eq!(store.len(), 0);
}

#[test]
fn exited_task_is_cleared() {
    let mut store = TaskStore::new();
    store.insert(task("a", TaskStatus::Running, "1"));
    store.insert(task("b", TaskStatus::Running, "1"));
    finish_process_at(&mut store, "a", 3, None, 3, s("3"));
    let (count, _) = clear_finished_tasks(&mut store);
    assert_eq!(count, 1);
    assert!(store.get("a").is_none());
    assert!(store.get("b").is_some());
}
