//! Which video platform a request is for, and how the download engine's
//! Python interpreter is chosen and invoked.

use vstd::prelude::*;
use vstd::string::StringExecFns;
use crate::text::{
    ascii_lowercase, contains, has_infix, is_ascii_text, lowercase, same_text, to_lowercase, trim,
    trimmed,
};

verus! {

/// The platforms the application downloads from.
pub open spec fn is_known_platform(p: Seq<char>) -> bool {
    p == "bilibili"@ || p == "douyin"@ || p == "youtube"@
}

/// The platform that a lowercased URL points to, by the domains it names.
pub open spec fn platform_of_url(lower_url: Seq<char>) -> Seq<char> {
    if has_infix(lower_url, "bilibili.com"@) || has_infix(lower_url, "b23.tv"@) {
        "bilibili"@
    } else if has_infix(lower_url, "douyin.com"@) || has_infix(lower_url, "iesdouyin.com"@) {
        "douyin"@
    } else if has_infix(lower_url, "youtube.com"@) || has_infix(lower_url, "youtu.be"@) {
        "youtube"@
    } else {
        "other"@
    }
}

/// A known platform named by the (lowercased, trimmed) hint wins; otherwise
/// the (lowercased) URL decides.
pub open spec fn platform_choice(lower_hint: Seq<char>, lower_url: Seq<char>) -> Seq<char> {
    if is_known_platform(lower_hint) {
        lower_hint
    } else {
        platform_of_url(lower_url)
    }
}

/// The hint as given, or `"auto"` when there is none.
pub open spec fn hint_text(hint: Option<Seq<char>>) -> Seq<char> {
    match hint {
        Some(h) => h,
        None => "auto"@,
    }
}

/// The hint as it is compared: trimmed and lowercased.
pub open spec fn lowercase_hint(hint: Option<Seq<char>>) -> Seq<char> {
    lowercase(trimmed(hint_text(hint)))
}

/// What `normalize_platform` gives for a hint and a URL.
pub open spec fn detected_platform(hint: Option<Seq<char>>, url: Seq<char>) -> Seq<char> {
    platform_choice(lowercase_hint(hint), lowercase(url))
}

/// What `normalize_platform` gives when the trimmed hint and the URL are
/// ASCII text: both are compared under the ASCII case mapping.
pub open spec fn detected_platform_ascii(hint: Option<Seq<char>>, url: Seq<char>) -> Seq<char> {
    platform_choice(ascii_lowercase(trimmed(hint_text(hint))), ascii_lowercase(url))
}

/// The platform of a lowercased URL.
pub fn platform_from_url(lower_url: &str) -> (r: String)
    ensures
        r@ == platform_of_url(lower_url@),
{
    if contains(lower_url, "bilibili.com") || contains(lower_url, "b23.tv") {
        String::from_str("bilibili")
    } else if contains(lower_url, "douyin.com") || contains(lower_url, "iesdouyin.com") {
        String::from_str("douyin")
    } else if contains(lower_url, "youtube.com") || contains(lower_url, "youtu.be") {
        String::from_str("youtube")
    } else {
        String::from_str("other")
    }
}

/// The platform from a hint and a URL that are both lowercased already.
pub fn choose_platform(lower_hint: &str, lower_url: &str) -> (r: String)
    ensures
        r@ == platform_choice(lower_hint@, lower_url@),
{
    if same_text(lower_hint, "bilibili") || same_text(lower_hint, "douyin") || same_text(
        lower_hint,
        "youtube",
    ) {
        String::from_str(lower_hint)
    } else {
        platform_from_url(lower_url)
    }
}

/// The platform of a request: the hint when it names a supported platform
/// (case and surrounding space do not matter), else what the URL points to,
/// else `"other"`.
pub fn normalize_platform(hint: Option<String>, url: &str) -> (r: String)
    ensures
        r@ == detected_platform(hint.deep_view(), url@),
        is_ascii_text(trimmed(hint_text(hint.deep_view()))) && is_ascii_text(url@) ==> r@
            == detected_platform_ascii(hint.deep_view(), url@),
{
    let raw = match hint {
        Some(h) => h,
        None => String::from_str("auto"),
    };
    let lower_hint = to_lowercase(trim(raw.as_str()).as_str());
    if same_text(lower_hint.as_str(), "bilibili") || same_text(lower_hint.as_str(), "douyin")
        || same_text(lower_hint.as_str(), "youtube") {
        return lower_hint;
    }
    let lower_url = to_lowercase(url);
    platform_from_url(lower_url.as_str())
}

/// The name of a platform as it is shown to the user.
pub open spec fn platform_label(platform: Seq<char>) -> Seq<char> {
    if platform == "bilibili"@ {
        "Bilibili"@
    } else if platform == "douyin"@ {
        "Douyin"@
    } else if platform == "youtube"@ {
        "YouTube"@
    } else {
        "Unknown"@
    }
}

pub fn platform_note(platform: &str) -> (r: &'static str)
    ensures
        r@ == platform_label(platform@),
{
    if same_text(platform, "bilibili") {
        "Bilibili"
    } else if same_text(platform, "douyin") {
        "Douyin"
    } else if same_text(platform, "youtube") {
        "YouTube"
    } else {
        "Unknown"
    }
}

/// The Windows launcher `py` needs `-3` to select Python 3.
pub fn python_needs_legacy_flag(exe: &str) -> (r: bool)
    ensures
        r == (exe@ == "py"@),
{
    same_text(exe, "py")
}

/// The arguments of one command line, as text.
pub open spec fn arg_texts(args: Seq<String>) -> Seq<Seq<char>> {
    args.map_values(|a: String| a@)
}

/// `-3` when the interpreter is the `py` launcher, nothing otherwise.
pub open spec fn launcher_prefix(exe: Seq<char>) -> Seq<Seq<char>> {
    if exe == "py"@ {
        seq!["-3"@]
    } else {
        Seq::empty()
    }
}

fn push_arg(args: &mut Vec<String>, a: &str)
    ensures
        arg_texts(final(args)@) == arg_texts(old(args)@).push(a@),
{
    let ghost before = args@;
    args.push(String::from_str(a));
    assert(arg_texts(args@) =~= arg_texts(before).push(a@));
}

fn launcher_args(exe: &str) -> (args: Vec<String>)
    ensures
        arg_texts(args@) == launcher_prefix(exe@),
{
    let mut args: Vec<String> = Vec::new();
    assert(arg_texts(args@) =~= Seq::<Seq<char>>::empty());
    if python_needs_legacy_flag(exe) {
        push_arg(&mut args, "-3");
        assert(arg_texts(args@) =~= seq!["-3"@]);
    }
    args
}

/// The arguments that test whether an interpreter can import `yt_dlp`.
pub fn probe_args(exe: &str) -> (args: Vec<String>)
    ensures
        arg_texts(args@) == launcher_prefix(exe@) + seq!["-c"@, "import yt_dlp"@],
{
    let mut args = launcher_args(exe);
    push_arg(&mut args, "-c");
    push_arg(&mut args, "import yt_dlp");
    assert(arg_texts(args@) =~= launcher_prefix(exe@) + seq!["-c"@, "import yt_dlp"@]);
    args
}

/// The arguments that upgrade `yt-dlp` with pip at start-up.
pub fn pip_upgrade_args(exe: &str) -> (args: Vec<String>)
    ensures
        arg_texts(args@) == launcher_prefix(exe@) + seq![
            "-m"@,
            "pip"@,
            "install"@,
            "-U"@,
            "yt-dlp"@,
        ],
{
    let mut args = launcher_args(exe);
    push_arg(&mut args, "-m");
    push_arg(&mut args, "pip");
    push_arg(&mut args, "install");
    push_arg(&mut args, "-U");
    push_arg(&mut args, "yt-dlp");
    assert(arg_texts(args@) =~= launcher_prefix(exe@) + seq![
        "-m"@,
        "pip"@,
        "install"@,
        "-U"@,
        "yt-dlp"@,
    ]);
    args
}

/// The arguments that run the download script on one task.
pub fn downloader_args(exe: &str, script: &str, task_json: &str) -> (args: Vec<String>)
    ensures
        arg_texts(args@) == launcher_prefix(exe@) + seq![
            "-u"@,
            script@,
            "--task-json"@,
            task_json@,
        ],
{
    let mut args = launcher_args(exe);
    push_arg(&mut args, "-u");
    push_arg(&mut args, script);
    push_arg(&mut args, "--task-json");
    push_arg(&mut args, task_json);
    assert(arg_texts(args@) =~= launcher_prefix(exe@) + seq![
        "-u"@,
        script@,
        "--task-json"@,
        task_json@,
    ]);
    args
}

/// The interpreters tried, in order, when no bundled one is present.
pub open spec fn python_candidates() -> Seq<Seq<char>> {
    seq!["python"@, "python3"@, "py"@]
}

/// What to do next while looking for a usable interpreter.
#[derive(Debug)]
pub enum ProbeAction {
    /// Test this interpreter.
    Probe(String),
    /// Settle on this interpreter.
    Use(String),
}

pub enum ProbeActionView {
    Probe(Seq<char>),
    Use(Seq<char>),
}

impl View for ProbeAction {
    type V = ProbeActionView;

    open spec fn view(&self) -> ProbeActionView {
        match self {
            ProbeAction::Probe(s) => ProbeActionView::Probe(s@),
            ProbeAction::Use(s) => ProbeActionView::Use(s@),
        }
    }
}

/// The next step after `tried` candidates were tested, the last of them
/// with outcome `last_ok`: the first candidate that works is used; when none
/// works, plain `python` is used.
pub open spec fn probe_step(tried: nat, last_ok: bool) -> ProbeActionView {
    if tried > 0 && last_ok {
        ProbeActionView::Use(python_candidates()[tried - 1])
    } else if tried < 3 {
        ProbeActionView::Probe(python_candidates()[tried as int])
    } else {
        ProbeActionView::Use("python"@)
    }
}

fn candidate(i: usize) -> (r: String)
    requires
        i < 3,
    ensures
        r@ == python_candidates()[i as int],
{
    if i == 0 {
        String::from_str("python")
    } else if i == 1 {
        String::from_str("python3")
    } else {
        String::from_str("py")
    }
}

pub fn python_probe_step(tried: usize, last_ok: bool) -> (r: ProbeAction)
    requires
        tried <= 3,
    ensures
        r@ == probe_step(tried as nat, last_ok),
{
    if tried > 0 && last_ok {
        ProbeAction::Use(candidate(tried - 1))
    } else if tried < 3 {
        ProbeAction::Probe(candidate(tried))
    } else {
        ProbeAction::Use(String::from_str("python"))
    }
}

/// The interpreter that the search settles on, given the outcome of testing
/// each candidate in order.
pub open spec fn resolved_python(outcomes: Seq<bool>) -> Seq<char> {
    if outcomes.len() > 0 && outcomes[0] {
        python_candidates()[0]
    } else if outcomes.len() > 1 && outcomes[1] {
        python_candidates()[1]
    } else if outcomes.len() > 2 && outcomes[2] {
        python_candidates()[2]
    } else {
        "python"@
    }
}

/// Running the search step by step from the start, feeding it the outcome of
/// each probe, ends by using `resolved_python(outcomes)`.
pub open spec fn run_probe(outcomes: Seq<bool>, tried: nat, last_ok: bool) -> Seq<char>
    decreases 4 - tried,
{
    if tried > 3 {
        "python"@
    } else {
        match probe_step(tried, last_ok) {
            ProbeActionView::Use(exe) => exe,
            ProbeActionView::Probe(_) => run_probe(
                outcomes,
                tried + 1,
                tried < outcomes.len() && outcomes[tried as int],
            ),
        }
    }
}

} // verus!
