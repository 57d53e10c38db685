//! Properties of the library as a whole, stated over the models that the
//! functions' contracts use, and proved.

use vstd::prelude::*;
use crate::commands::{
    cancelled, engine_payload, normalized_url, plan_outcome, queued_task, updated_if_present,
    TaskPlanView,
};
use crate::engine::{
    engine_request_of, exit_effect, exit_raw, last_lines, message_effect, kept_error, status_from_text,
    EmissionView,
};
use crate::line::line_of;
use crate::models::{
    AppSettingsView, DownloadInputView, PythonMessage, TaskStatus, TaskView, PROGRESS_DONE,
    PROGRESS_FAILED_CAP,
};
use crate::platform::{
    detected_platform, is_known_platform, lowercase_hint, platform_of_url, resolved_python,
    run_probe,
};
use crate::store::{finished_ids, unfinished};
use crate::text::{
    ascii_lowercase, has_infix, has_prefix, in_class, is_space, lowercase, strip_back, strip_both,
    strip_front, trimmed, without_spaces, CharClass,
};

verus! {

/// Reading a task back after writing it gives what was written; every other
/// task reads as before.
pub proof fn law_write_then_read(tasks: Map<Seq<char>, TaskView>, t: TaskView, other: Seq<char>)
    requires
        other != t.id,
    ensures
        tasks.insert(t.id, t).contains_key(t.id),
        tasks.insert(t.id, t)[t.id] == t,
        tasks.insert(t.id, t).contains_key(other) == tasks.contains_key(other),
        tasks.contains_key(other) ==> tasks.insert(t.id, t)[other] == tasks[other],
{
}

/// After a task is removed, its id is no longer found; every other task reads
/// as before.
pub proof fn law_remove_then_read(tasks: Map<Seq<char>, TaskView>, id: Seq<char>, other: Seq<char>)
    requires
        other != id,
    ensures
        !tasks.remove(id).contains_key(id),
        tasks.remove(id).contains_key(other) == tasks.contains_key(other),
        tasks.contains_key(other) ==> tasks.remove(id)[other] == tasks[other],
{
}

/// Clearing finished tasks keeps every unfinished task as it was and drops
/// all the others; a second clearing drops nothing.
pub proof fn law_clear_finished(tasks: Map<Seq<char>, TaskView>)
    requires
        tasks.dom().finite(),
    ensures
        forall|k: Seq<char>|
            #[trigger] unfinished(tasks).contains_key(k) <==> tasks.contains_key(k)
                && !tasks[k].status.is_terminal(),
        forall|k: Seq<char>| #[trigger] unfinished(tasks).contains_key(k) ==> unfinished(tasks)[k] == tasks[k],
        finished_ids(unfinished(tasks)).len() == 0,
        unfinished(unfinished(tasks)) == unfinished(tasks),
{
    assert(finished_ids(unfinished(tasks)) =~= Set::<Seq<char>>::empty());
    assert(unfinished(unfinished(tasks)) =~= unfinished(tasks));
}

/// The detected platform is one of the three supported platforms, or
/// `"other"`.
pub proof fn law_platform_values(hint: Option<Seq<char>>, url: Seq<char>)
    ensures
        is_known_platform(detected_platform(hint, url)) || detected_platform(hint, url) == "other"@,
{
}

/// A hint that names a supported platform (in any case, with any surrounding
/// space) decides the platform, whatever the URL.
pub proof fn law_hint_wins(hint: Seq<char>, url: Seq<char>)
    requires
        is_known_platform(lowercase(trimmed(hint))),
    ensures
        detected_platform(Some(hint), url) == lowercase(trimmed(hint)),
{
}

/// Without a deciding hint, a URL naming none of the supported domains is
/// `"other"`, and one naming a domain of a single platform is that platform.
pub proof fn law_url_decides(hint: Option<Seq<char>>, url: Seq<char>)
    requires
        !is_known_platform(lowercase_hint(hint)),
    ensures
        detected_platform(hint, url) == platform_of_url(lowercase(url)),
        (has_infix(lowercase(url), "youtube.com"@) || has_infix(lowercase(url), "youtu.be"@))
            && !has_infix(lowercase(url), "bilibili.com"@) && !has_infix(lowercase(url), "b23.tv"@)
            && !has_infix(lowercase(url), "douyin.com"@) && !has_infix(
            lowercase(url),
            "iesdouyin.com"@,
        ) ==> detected_platform(hint, url) == "youtube"@,
{
}

/// Asking again, with the detected platform as the hint and the same URL,
/// gives the same platform. The answer is ASCII text, so this holds where
/// lowercasing maps it as `to_lowercase` states of ASCII text.
pub proof fn law_detect_own_answer(hint: Option<Seq<char>>, url: Seq<char>)
    requires
        lowercase(detected_platform(hint, url)) == ascii_lowercase(detected_platform(hint, url)),
    ensures
        detected_platform(Some(detected_platform(hint, url)), url) == detected_platform(hint, url),
{
    let p = detected_platform(hint, url);
    law_platform_values(hint, url);
    reveal_strlit("bilibili");
    reveal_strlit("douyin");
    reveal_strlit("youtube");
    reveal_strlit("other");
    assert(strip_front(p, CharClass::Space) == p);
    assert(strip_back(p, CharClass::Space) == p);
    assert(trimmed(p) == p);
    assert(ascii_lowercase(p) =~= p);
}

proof fn lemma_strip_front_suffix(s: Seq<char>, class: CharClass)
    ensures
        exists|i: int| 0 <= i <= s.len() && strip_front(s, class) == s.subrange(i, s.len() as int),
        strip_front(s, class).len() == 0 || !in_class(strip_front(s, class)[0], class),
    decreases s.len(),
{
    if s.len() > 0 && in_class(s[0], class) {
        lemma_strip_front_suffix(s.drop_first(), class);
        let i = choose|i: int|
            0 <= i <= s.drop_first().len() && strip_front(s.drop_first(), class)
                == s.drop_first().subrange(i, s.drop_first().len() as int);
        assert(s.drop_first().subrange(i, s.drop_first().len() as int) =~= s.subrange(
            i + 1,
            s.len() as int,
        ));
    } else {
        assert(s.subrange(0, s.len() as int) =~= s);
    }
}

proof fn lemma_strip_back_prefix(s: Seq<char>, class: CharClass)
    ensures
        exists|j: int| 0 <= j <= s.len() && strip_back(s, class) == s.subrange(0, j),
        strip_back(s, class).len() == 0 || !in_class(strip_back(s, class).last(), class),
    decreases s.len(),
{
    if s.len() > 0 && in_class(s.last(), class) {
        lemma_strip_back_prefix(s.drop_last(), class);
        let j = choose|j: int|
            0 <= j <= s.drop_last().len() && strip_back(s.drop_last(), class)
                == s.drop_last().subrange(0, j);
        assert(s.drop_last().subrange(0, j) =~= s.subrange(0, j));
    } else {
        assert(s.subrange(0, s.len() as int) =~= s);
    }
}

/// Text stripped of a class of characters at both ends neither begins nor
/// ends with one of them, and every character it holds comes from the text.
pub proof fn law_strip_both_ends(s: Seq<char>, class: CharClass)
    ensures
        strip_both(s, class).len() == 0 || !in_class(strip_both(s, class)[0], class),
        strip_both(s, class).len() == 0 || !in_class(strip_both(s, class).last(), class),
        forall|k: int|
            0 <= k < strip_both(s, class).len() ==> s.contains(#[trigger] strip_both(s, class)[k]),
{
    let f = strip_front(s, class);
    lemma_strip_front_suffix(s, class);
    lemma_strip_back_prefix(f, class);
    let i = choose|i: int| 0 <= i <= s.len() && f == s.subrange(i, s.len() as int);
    let j = choose|j: int| 0 <= j <= f.len() && strip_back(f, class) == f.subrange(0, j);
    assert forall|k: int|
        0 <= k < strip_both(s, class).len() implies s.contains(#[trigger] strip_both(s, class)[k]) by {
        assert(strip_both(s, class)[k] == s[i + k]);
    }
    if strip_both(s, class).len() > 0 {
        assert(strip_both(s, class)[0] == f[0]);
    }
}

/// The URL of an accepted request holds no white space, neither begins nor
/// ends with a quote, starts with `http` in any case, and is for a supported
/// platform.
pub proof fn law_accepted_url(input: DownloadInputView, settings: AppSettingsView)
    requires
        plan_outcome(input, settings) is Ok,
    ensures
        ({
            let p = plan_outcome(input, settings)->Ok_0;
            &&& p.url == normalized_url(input.url)
            &&& p.url.len() > 0
            &&& forall|k: int| 0 <= k < p.url.len() ==> !is_space(#[trigger] p.url[k])
            &&& !in_class(p.url[0], CharClass::Quote)
            &&& !in_class(p.url.last(), CharClass::Quote)
            &&& has_prefix(lowercase(p.url), "http"@)
            &&& is_known_platform(p.platform)
        }),
{
    let w = without_spaces(input.url);
    let url = normalized_url(input.url);
    law_strip_both_ends(w, CharClass::Quote);
    broadcast use vstd::seq_lib::group_filter_ensures;
    assert forall|k: int| 0 <= k < url.len() implies !is_space(#[trigger] url[k]) by {
        assert(w.contains(url[k]));
        let m = choose|m: int| 0 <= m < w.len() && w[m] == url[k];
        assert(!is_space(w[m]));
    }
    law_platform_values(input.platform_hint, url);
}

/// A line read from the engine never ends in a carriage return or line feed.
pub proof fn law_line_without_ending(bytes: Seq<u8>)
    ensures
        line_of(bytes) matches Some(l) ==> l.len() == 0 || !in_class(l.last(), CharClass::LineEnd),
{
    if bytes.len() > 0 {
        lemma_strip_back_prefix(crate::line::utf8_lossy(bytes), CharClass::LineEnd);
    }
}

/// Trimming twice is trimming once.
pub proof fn law_trim_idempotent(s: Seq<char>)
    ensures
        trimmed(trimmed(s)) == trimmed(s),
{
    let f = strip_front(s, CharClass::Space);
    lemma_strip_front_suffix(s, CharClass::Space);
    lemma_strip_back_prefix(f, CharClass::Space);
    let t = trimmed(s);
    if t.len() > 0 {
        assert(t[0] == f[0]);
        assert(strip_front(t, CharClass::Space) == t);
        assert(strip_back(t, CharClass::Space) == t);
    } else {
        assert(strip_front(t, CharClass::Space) == t);
    }
}

/// When the process of a task ends, the task has ended too: on exit code 0 it
/// is completed with full progress and no error; otherwise it has failed with
/// the exit report as its error and at most 99% progress. A task that had
/// already ended stays as it was and nothing is reported.
pub proof fn law_exit_ends_task(
    tasks: Map<Seq<char>, TaskView>,
    id: Seq<char>,
    code: i32,
    tail: Option<Seq<char>>,
    duration_ms: u64,
    stamp: Seq<char>,
)
    requires
        tasks.contains_key(id),
    ensures
        ({
            let (after, done) = exit_effect(tasks, id, code, tail, duration_ms, stamp);
            &&& after.contains_key(id)
            &&& after[id].status.is_terminal()
            &&& tasks[id].status.is_terminal() ==> after == tasks && done is None
            &&& !tasks[id].status.is_terminal() && code == 0 ==> after[id].status
                == TaskStatus::Completed && after[id].progress == PROGRESS_DONE && after[id].error
                is None && done is Some
            &&& !tasks[id].status.is_terminal() && code != 0 ==> after[id].status
                == TaskStatus::Failed && after[id].progress <= PROGRESS_FAILED_CAP
                && after[id].error == Some(exit_raw(code, tail)) && done is Some
        }),
{
}

/// A cancelled task stays cancelled when its process then ends, and no end
/// of the task is reported.
pub proof fn law_cancel_then_exit(
    tasks: Map<Seq<char>, TaskView>,
    id: Seq<char>,
    cancel_stamp: Seq<char>,
    code: i32,
    tail: Option<Seq<char>>,
    duration_ms: u64,
    exit_stamp: Seq<char>,
)
    ensures
        ({
            let after_cancel = updated_if_present(tasks, id, cancelled(tasks[id], cancel_stamp));
            exit_effect(after_cancel, id, code, tail, duration_ms, exit_stamp) == (
                after_cancel,
                None::<crate::models::DoneView>,
            )
        }),
{
}

/// The process of a removed task ending changes nothing and reports nothing.
pub proof fn law_remove_then_exit(
    tasks: Map<Seq<char>, TaskView>,
    id: Seq<char>,
    code: i32,
    tail: Option<Seq<char>>,
    duration_ms: u64,
    stamp: Seq<char>,
)
    ensures
        exit_effect(tasks.remove(id), id, code, tail, duration_ms, stamp) == (
            tasks.remove(id),
            None::<crate::models::DoneView>,
        ),
{
}

/// Once a task's process has ended, clearing finished tasks removes it.
pub proof fn law_exited_task_is_cleared(
    tasks: Map<Seq<char>, TaskView>,
    id: Seq<char>,
    code: i32,
    tail: Option<Seq<char>>,
    duration_ms: u64,
    stamp: Seq<char>,
)
    requires
        tasks.contains_key(id),
    ensures
        !unfinished(exit_effect(tasks, id, code, tail, duration_ms, stamp).0).contains_key(id),
{
}

/// A successful result from the engine completes the task with full progress
/// and no error; a failed one marks it failed and keeps the raw report, or
/// else the error.
pub proof fn law_result_message(
    tasks: Map<Seq<char>, TaskView>,
    task_id: String,
    success: bool,
    file_path: Option<String>,
    duration_ms: u64,
    error: Option<String>,
    raw: Option<String>,
    stamp: Seq<char>,
)
    requires
        tasks.contains_key(task_id@),
    ensures
        ({
            let (after, _) = message_effect(
                tasks,
                PythonMessage::Result { task_id, success, file_path, duration_ms, error, raw },
                stamp,
            );
            &&& success ==> after[task_id@].status == TaskStatus::Completed
                && after[task_id@].progress == PROGRESS_DONE && after[task_id@].error is None
                && after[task_id@].file_path == file_path.deep_view()
            &&& !success ==> after[task_id@].status == TaskStatus::Failed && after[task_id@].error
                == kept_error(false, error.deep_view(), raw.deep_view())
        }),
{
}

/// Without a deciding hint, the URL's domains decide: a Bilibili domain
/// (`bilibili.com`, `b23.tv`) means Bilibili; otherwise a Douyin domain
/// (`douyin.com`, `iesdouyin.com`) means Douyin; and a URL that names none of
/// the supported domains is `"other"`, while one that names any is not.
pub proof fn law_url_names_platform(hint: Option<Seq<char>>, url: Seq<char>)
    requires
        !is_known_platform(lowercase_hint(hint)),
    ensures
        ({
            let l = lowercase(url);
            let bili = has_infix(l, "bilibili.com"@) || has_infix(l, "b23.tv"@);
            let douyin = has_infix(l, "douyin.com"@) || has_infix(l, "iesdouyin.com"@);
            let youtube = has_infix(l, "youtube.com"@) || has_infix(l, "youtu.be"@);
            &&& bili ==> detected_platform(hint, url) == "bilibili"@
            &&& !bili && douyin ==> detected_platform(hint, url) == "douyin"@
            &&& !bili && !douyin && youtube ==> detected_platform(hint, url) == "youtube"@
            &&& (detected_platform(hint, url) == "other"@ <==> !bili && !douyin && !youtube)
        }),
{
    let l = lowercase(url);
    reveal_strlit("bilibili");
    reveal_strlit("douyin");
    reveal_strlit("youtube");
    reveal_strlit("other");
    assert(detected_platform(hint, url) == platform_of_url(l));
    assert("bilibili"@[0] != "other"@[0]);
    assert("douyin"@[0] != "other"@[0]);
    assert("youtube"@ != "other"@);
}

/// A choice the user made: present and not blank.
pub open spec fn given(choice: Option<Seq<char>>) -> bool {
    choice matches Some(v) && trimmed(v).len() > 0
}

/// An accepted request is the request as the user made it: the cleaned-up
/// URL, the platform detected for it, the quality, format and overwrite
/// choice unchanged, and the directory, cookie file and codec asked for
/// (unless left blank), or else those of the settings (the codec `auto` when the settings leave it
/// blank). A request is accepted exactly when its cleaned-up URL is not
/// empty, names a supported platform and starts with `http` in any case.
pub proof fn law_plan_keeps_request(input: DownloadInputView, settings: AppSettingsView)
    ensures
        plan_outcome(input, settings) is Ok <==> ({
            let url = normalized_url(input.url);
            &&& url.len() > 0
            &&& detected_platform(input.platform_hint, url) != "other"@
            &&& has_prefix(lowercase(url), "http"@)
        }),
        plan_outcome(input, settings) matches Ok(p) ==> {
            &&& p.url == normalized_url(input.url)
            &&& p.platform == detected_platform(input.platform_hint, p.url)
            &&& p.quality == input.quality
            &&& p.format == input.format
            &&& p.overwrite == input.overwrite
            &&& (given(input.output_dir) ==> Some(p.output_dir) == input.output_dir)
            &&& (!given(input.output_dir) ==> p.output_dir == settings.output_dir)
            &&& (given(input.cookie_path) ==> Some(p.cookie_path) == input.cookie_path)
            &&& (!given(input.cookie_path) ==> p.cookie_path == settings.cookie_path)
            &&& (given(input.vcodec) ==> Some(p.vcodec) == input.vcodec)
            &&& (!given(input.vcodec) && trimmed(settings.vcodec).len() > 0 ==> p.vcodec
                == settings.vcodec)
            &&& (!given(input.vcodec) && trimmed(settings.vcodec).len() == 0 ==> p.vcodec
                == "auto"@)
        },
{
}

/// The request handed to the engine for a plan carries the plan unchanged:
/// its URL, platform, cookie file, quality, format, codec and overwrite
/// choice, with the directory it is saved into. The queued task shows the
/// same URL, platform, directory and codec, the quality asked for (none
/// shown when none was asked) and the format asked for (`mp4` when none).
pub proof fn law_payload_carries_plan(
    plan: TaskPlanView,
    output_dir: Seq<char>,
    id: Seq<char>,
    retry_count: u8,
    stamp: Seq<char>,
)
    ensures
        ({
            let pay = engine_payload(plan, output_dir);
            &&& pay.url == plan.url
            &&& pay.platform_hint == Some(plan.platform)
            &&& pay.output_dir == Some(output_dir)
            &&& pay.cookie_path == Some(plan.cookie_path)
            &&& pay.quality == plan.quality
            &&& pay.format == plan.format
            &&& pay.vcodec == Some(plan.vcodec)
            &&& pay.overwrite == plan.overwrite
        }),
        ({
            let t = queued_task(plan, id, output_dir, retry_count, stamp);
            &&& t.id == id
            &&& t.url == plan.url
            &&& t.platform == plan.platform
            &&& t.output_dir == output_dir
            &&& t.vcodec == plan.vcodec
            &&& t.status == TaskStatus::Queued
            &&& t.progress == 0
            &&& t.retry_count == retry_count
            &&& (plan.quality matches Some(q) ==> t.quality == q)
            &&& (plan.quality is None ==> t.quality.len() == 0)
            &&& (plan.format matches Some(f) ==> t.format == f)
            &&& (plan.format is None ==> t.format == "mp4"@)
        }),
{
}

/// The engine's task description keeps the request's URL exactly (its case
/// included), with the task, platform, directory, cookie file, overwrite
/// choice and retry count given; the quality, format and codec asked for
/// are kept, and where none was asked the engine gets no quality, `mp4` and
/// `auto`.
pub proof fn law_engine_request_keeps_request(
    task_id: Seq<char>,
    payload: DownloadInputView,
    platform: Seq<char>,
    output_dir: Seq<char>,
    cookie_path: Option<Seq<char>>,
    retry: u8,
)
    ensures
        ({
            let r = engine_request_of(task_id, payload, platform, output_dir, cookie_path, retry);
            &&& r.task_id == task_id
            &&& r.url == payload.url
            &&& r.platform == platform
            &&& r.output_dir == output_dir
            &&& r.cookie_path == cookie_path
            &&& r.overwrite == payload.overwrite
            &&& r.retry == retry
            &&& (payload.quality matches Some(q) ==> r.quality == q)
            &&& (payload.quality is None ==> r.quality.len() == 0)
            &&& (payload.format matches Some(f) ==> r.format == f)
            &&& (payload.format is None ==> r.format == "mp4"@)
            &&& (payload.vcodec matches Some(v) ==> r.vcodec == v)
            &&& (payload.vcodec is None ==> r.vcodec == "auto"@)
        }),
{
}

/// The quality and format that a user asks for reach the engine: for an
/// accepted request, the engine's task description has that quality and
/// format, and the URL that was planned.
pub proof fn law_chosen_quality_and_format_reach_engine(
    input: DownloadInputView,
    settings: AppSettingsView,
    task_id: Seq<char>,
    output_dir: Seq<char>,
    cookie_path: Option<Seq<char>>,
    retry: u8,
)
    requires
        plan_outcome(input, settings) is Ok,
    ensures
        ({
            let p = plan_outcome(input, settings)->Ok_0;
            let r = engine_request_of(
                task_id,
                engine_payload(p, output_dir),
                p.platform,
                output_dir,
                cookie_path,
                retry,
            );
            &&& r.url == normalized_url(input.url)
            &&& (input.quality matches Some(q) ==> r.quality == q)
            &&& (input.format matches Some(f) ==> r.format == f)
        }),
{
    law_plan_keeps_request(input, settings);
    let p = plan_outcome(input, settings)->Ok_0;
    law_payload_carries_plan(p, output_dir, task_id, retry, Seq::empty());
    law_engine_request_keeps_request(task_id, engine_payload(p, output_dir), p.platform, output_dir, cookie_path, retry);
}

/// A progress message is reported to the user interface as received: the
/// task, percentage, speed, time left and status word, with the engine's
/// text or `running`. The task it names, if the store holds it, takes the
/// percentage, speed, time left and the status the word stands for, updated
/// at `stamp`; no other task changes and no task comes or goes.
pub proof fn law_progress_message(
    tasks: Map<Seq<char>, TaskView>,
    task_id: String,
    percent: u32,
    speed: Option<String>,
    eta: Option<u32>,
    status: String,
    message: Option<String>,
    stamp: Seq<char>,
)
    ensures
        ({
            let (after, shown) = message_effect(
                tasks,
                PythonMessage::Progress { task_id, percent, speed, eta, status, message },
                stamp,
            );
            &&& shown matches EmissionView::Progress(e) && e.task_id == task_id@ && e.percent
                == percent && e.speed == speed.deep_view() && e.eta == eta && e.status == status@
                && (message matches Some(m) ==> e.message == m@) && (message is None ==> e.message
                == "running"@)
            &&& after.dom() == tasks.dom()
            &&& after.remove(task_id@) == tasks.remove(task_id@)
            &&& tasks.contains_key(task_id@) ==> {
                &&& after[task_id@].progress == percent
                &&& after[task_id@].speed == speed.deep_view()
                &&& after[task_id@].eta == eta
                &&& after[task_id@].status == status_from_text(status@)
                &&& after[task_id@].updated_at == stamp
                &&& after[task_id@].id == tasks[task_id@].id
                &&& after[task_id@].url == tasks[task_id@].url
                &&& after[task_id@].file_path == tasks[task_id@].file_path
            }
        }),
{
    let (after, _) = message_effect(
        tasks,
        PythonMessage::Progress { task_id, percent, speed, eta, status, message },
        stamp,
    );
    assert(after.dom() =~= tasks.dom());
    assert(after.remove(task_id@) =~= tasks.remove(task_id@));
}

/// A log message is passed on to the user interface as it came, and changes
/// no task.
pub proof fn law_log_message(
    tasks: Map<Seq<char>, TaskView>,
    task_id: String,
    level: String,
    message: String,
    stamp: Seq<char>,
)
    ensures
        ({
            let (after, shown) = message_effect(
                tasks,
                PythonMessage::Log { task_id, level, message },
                stamp,
            );
            &&& after == tasks
            &&& shown matches EmissionView::Log(l) && l.task_id == task_id@ && l.level == level@
                && l.message == message@
        }),
{
}

/// The kept tail of the error stream never holds more than `n` lines, and
/// whatever was pushed before, it holds the last `n` of all lines pushed.
pub proof fn law_tail_keeps_latest(s: Seq<Seq<char>>, line: Seq<char>, n: nat)
    requires
        n > 0,
    ensures
        last_lines(s.push(line), n).len() <= n,
        last_lines(last_lines(s, n).push(line), n) == last_lines(s.push(line), n),
{
    assert(last_lines(last_lines(s, n).push(line), n) =~= last_lines(s.push(line), n));
}

/// Driving the interpreter search with the outcome of each probe, from the
/// start, settles on the first candidate that works, or on `python`.
pub proof fn law_probe_finds_first_working(outcomes: Seq<bool>)
    ensures
        run_probe(outcomes, 0, false) == resolved_python(outcomes),
{
    reveal_with_fuel(run_probe, 5);
}

} // verus!
