use snapdown::commands::plan_task;
use snapdown::line::read_next_line_lossy;
use snapdown::models::{AppSettings, DownloadInput};
use snapdown::platform::{
    choose_platform, downloader_args, normalize_platform, pip_upgrade_args, platform_from_url,
    platform_note, probe_args, python_needs_legacy_flag, python_probe_step, ProbeAction,
};
use snapdown::text::{
    contains, i64_to_text, is_blank, join_text, remove_spaces, same_text, starts_with,
    strip_chars, strip_end, text_less, trim, u64_to_text, CharClass,
};

fn s(x: &str) -> String {
    x.to_string()
}

#[test]
fn hint_selects_known_platform() {
    assert_eq!(normalize_platform(Some(s("douyin")), "https://www.youtube.com/watch?v=1"), "douyin");
}

#[test]
fn hint_is_trimmed_and_lowercased() {
    assert_eq!(normalize_platform(Some(s("  YouTube ")), "https://example.com"), "youtube");
}

#[test]
fn upper_case_url_is_recognised() {
    assert_eq!(normalize_platform(None, "HTTPS://WWW.YOUTUBE.COM/watch"), "youtube");
    assert_eq!(normalize_platform(Some(s("AUTO")), "https://WWW.BiliBili.com/video/1"), "bilibili");
    assert_eq!(normalize_platform(None, "HTTPS://V.DOUYIN.COM/x"), "douyin");
}

#[test]
fn detecting_again_from_the_answer_gives_the_answer() {
    let cases: [(Option<&str>, &str); 5] = [
        (None, "https://youtu.be/abc"),
        (Some(" YouTube "), "https://b23.tv/x"),
        (Some("vimeo"), "https://www.douyin.com/video/1"),
        (None, "https://example.com/v"),
        (Some("Bilibili"), "https://example.com/v"),
    ];
    for (hint, url) in cases {
        let first = normalize_platform(hint.map(s), url);
        assert_eq!(normalize_platform(Some(first.clone()), url), first);
    }
}

#[test]
fn unknown_hint_falls_back_to_url() {
    assert_eq!(normalize_platform(Some(s("vimeo")), "https://b23.tv/abc"), "bilibili");
}

#[test]
fn missing_hint_means_auto() {
    assert_eq!(normalize_platform(None, "https://www.bilibili.com/video/BV1"), "bilibili");
    assert_eq!(normalize_platform(None, "https://v.douyin.com/xyz"), "douyin");
    assert_eq!(normalize_platform(None, "https://www.iesdouyin.com/share"), "douyin");
    assert_eq!(normalize_platform(None, "https://youtu.be/abc"), "youtube");
}

#[test]
fn url_case_does_not_matter() {
    assert_eq!(normalize_platform(None, "HTTPS://WWW.YOUTUBE.COM/watch"), "youtube");
}

#[test]
fn unknown_url_is_other() {
    assert_eq!(normalize_platform(Some(s("auto")), "https://vimeo.com/1"), "other");
    assert_eq!(normalize_platform(Some(s("")), ""), "other");
}

#[test]
fn bilibili_domain_checked_before_youtube() {
    assert_eq!(platform_from_url("https://bilibili.com/?ref=youtube.com"), "bilibili");
}

#[test]
fn choose_platform_from_lowered_inputs() {
    assert_eq!(choose_platform("youtube", "https://b23.tv/x"), "youtube");
    assert_eq!(choose_platform("auto", "https://b23.tv/x"), "bilibili");
    assert_eq!(choose_platform("YouTube", "https://x.org"), "other");
}

#[test]
fn platform_labels() {
    assert_eq!(platform_note("bilibili"), "Bilibili");
    assert_eq!(platform_note("douyin"), "Douyin");
    assert_eq!(platform_note("youtube"), "YouTube");
    assert_eq!(platform_note("other"), "Unknown");
}

#[test]
fn legacy_flag_only_for_py_launcher() {
    assert!(python_needs_legacy_flag("py"));
    assert!(!python_needs_legacy_flag("python"));
    assert!(!python_needs_legacy_flag("py3"));
}

#[test]
fn probe_and_pip_arguments() {
    assert_eq!(probe_args("py"), vec!["-3", "-c", "import yt_dlp"]);
    assert_eq!(probe_args("python3"), vec!["-c", "import yt_dlp"]);
    assert_eq!(pip_upgrade_args("python"), vec!["-m", "pip", "install", "-U", "yt-dlp"]);
    assert_eq!(pip_upgrade_args("py"), vec!["-3", "-m", "pip", "install", "-U", "yt-dlp"]);
}

#[test]
fn downloader_arguments() {
    assert_eq!(
        downloader_args("py", "svc.py", "{}"),
        vec!["-3", "-u", "svc.py", "--task-json", "{}"]
    );
    assert_eq!(downloader_args("python", "a.py", "x"), vec!["-u", "a.py", "--task-json", "x"]);
}

fn probe_outcome(outcomes: &[bool]) -> String {
    let mut tried = 0usize;
    let mut last_ok = false;
    loop {
        match python_probe_step(tried, last_ok) {
            ProbeAction::Use(exe) => return exe,
            ProbeAction::Probe(_) => {
                last_ok = outcomes.get(tried).copied().unwrap_or(false);
                tried += 1;
            }
        }
    }
}

#[test]
fn probe_settles_on_first_working_interpreter() {
    assert_eq!(probe_outcome(&[true, true, true]), "python");
    assert_eq!(probe_outcome(&[false, true, true]), "python3");
    assert_eq!(probe_outcome(&[false, false, true]), "py");
    assert_eq!(probe_outcome(&[false, false, false]), "python");
}

#[test]
fn probe_first_step_tests_python() {
    match python_probe_step(0, false) {
        ProbeAction::Probe(exe) => assert_eq!(exe, "python"),
        other => panic!("unexpected {:?}", other),
    }
}

#[test]
fn line_reading_strips_line_endings() {
    assert_eq!(read_next_line_lossy(b"hello\r\n"), Some(s("hello")));
    assert_eq!(read_next_line_lossy(b"hello\n\n"), Some(s("hello")));
    assert_eq!(read_next_line_lossy(b"a\rb\n"), Some(s("a\rb")));
    assert_eq!(read_next_line_lossy(b"\n"), Some(s("")));
    assert_eq!(read_next_line_lossy(b""), None);
}

#[test]
fn line_reading_replaces_invalid_utf8() {
    assert_eq!(read_next_line_lossy(&[0x61, 0xff, 0x62, b'\n']), Some(s("a\u{FFFD}b")));
    assert_eq!(read_next_line_lossy("视频\n".as_bytes()), Some(s("视频")));
}

#[test]
fn trimming_matches_std() {
    for t in ["  a b  ", "\u{3000}x\u{2009}", "", "   ", "\tq\n", "\u{85}z\u{A0}"] {
        assert_eq!(trim(t), t.trim());
        assert_eq!(is_blank(t), t.trim().is_empty());
    }
}

#[test]
fn removing_spaces_matches_split_whitespace() {
    for t in [" h t t p s://x ", "a\tb\nc", "\u{3000}d\u{2028}e", ""] {
        assert_eq!(remove_spaces(t), t.split_whitespace().collect::<String>());
    }
}

#[test]
fn stripping_quotes_and_line_ends() {
    assert_eq!(strip_chars("\"'https://x'\"", CharClass::Quote), "https://x");
    assert_eq!(strip_chars("'''", CharClass::Quote), "");
    assert_eq!(strip_end("x\r\n\r", CharClass::LineEnd), "x");
}

#[test]
fn searching_text() {
    assert!(contains("https://youtu.be/x", "youtu.be"));
    assert!(!contains("https://youtu.b", "youtu.be"));
    assert!(contains("abc", ""));
    assert!(!contains("", "a"));
    assert!(starts_with("https://x", "http"));
    assert!(!starts_with("htt", "http"));
    assert!(same_text("a", "a"));
    assert!(!same_text("a", "ab"));
}

#[test]
fn text_order_matches_string_order() {
    let samples = ["", "a", "ab", "b", "2024-01-01T00:00:00+00:00", "2024-01-01T00:00:00.5+00:00", "é", "z"];
    for a in samples {
        for b in samples {
            assert_eq!(text_less(a, b), a < b, "{} {}", a, b);
        }
    }
}

#[test]
fn decimal_rendering() {
    assert_eq!(u64_to_text(0), "0");
    assert_eq!(u64_to_text(1234567890), "1234567890");
    assert_eq!(u64_to_text(u64::MAX), u64::MAX.to_string());
    assert_eq!(i64_to_text(-1), "-1");
    assert_eq!(i64_to_text(i64::MIN), i64::MIN.to_string());
    assert_eq!(i64_to_text(42), "42");
}

#[test]
fn joining_lines() {
    assert_eq!(join_text(&vec![s("a"), s("b"), s("c")], "\n"), "a\nb\nc");
    assert_eq!(join_text(&vec![s("only")], "\n"), "only");
    assert_eq!(join_text(&vec![], "\n"), "");
}

#[test]
fn trimming_twice_is_trimming_once() {
    for t in ["  a  ", "\u{3000}\u{3000}b c\t", "", "x"] {
        let once = trim(t);
        assert_eq!(trim(&once), once);
    }
}

#[test]
fn accepted_urls_have_no_spaces_or_quotes() {
    let conf = AppSettings { output_dir: s("/d"), cookie_path: s(""), retry_count: 2, vcodec: s("") };
    let req = DownloadInput {
        url: s("'\u{3000}https://www.youtube.com/ watch?v=1 '"),
        platform_hint: None,
        output_dir: None,
        cookie_path: None,
        quality: None,
        format: None,
        vcodec: None,
        overwrite: false,
    };
    let plan = plan_task(&req, &conf).0.unwrap();
    assert_eq!(plan.url, "https://www.youtube.com/watch?v=1");
    assert!(!plan.url.chars().any(char::is_whitespace));
}
