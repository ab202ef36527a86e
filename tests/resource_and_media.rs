use ytdl_gate::media::{get_format_hierarchy, MediaKind, PostProcess};
use ytdl_gate::resource::extract_video_id;
use ytdl_gate::text::{decimal_string, file_name, is_safe_filename};
use ytdl_gate::models::{is_valid_apikey, Config, TaskInfo, TaskStatus};
use ytdl_gate::cookies::{cookies_label, get_random_cookies};
use ytdl_gate::request::{first_comma_field, get_real_ip, is_cookie_file_name, trim};

fn regex_id(url: &str) -> Option<String> {
    let re = regex::Regex::new(r"(?:youtube\.com\/(?:watch\?v=|shorts\/|embed\/|v\/)|youtu\.be\/|music\.youtube\.com\/watch\?v=|googleusercontent\.com\/youtube\.com\/[0-2])([a-zA-Z0-9_-]{10,12})").unwrap();
    re.captures(url).map(|c| c[1].to_string())
}

#[test]
fn short_link_gives_identifier() {
    assert_eq!(extract_video_id("https://youtu.be/dQw4w9WgXcQ").unwrap(), "dQw4w9WgXcQ");
}

#[test]
fn link_forms_give_identifier() {
    for url in [
        "https://www.youtube.com/watch?v=dQw4w9WgXcQ",
        "https://youtube.com/shorts/dQw4w9WgXcQ?feature=share",
        "https://www.youtube.com/embed/dQw4w9WgXcQ",
        "https://www.youtube.com/v/dQw4w9WgXcQ",
        "https://music.youtube.com/watch?v=dQw4w9WgXcQ&list=x",
        "http://googleusercontent.com/youtube.com/1dQw4w9WgXcQ",
    ] {
        assert_eq!(extract_video_id(url).unwrap(), "dQw4w9WgXcQ", "{}", url);
    }
}

#[test]
fn identifier_run_is_capped_at_twelve() {
    assert_eq!(extract_video_id("youtu.be/abcdefghijklmnop").unwrap(), "abcdefghijkl");
}

#[test]
fn too_short_identifier_is_rejected() {
    let r = extract_video_id("https://youtu.be/abc");
    assert_eq!(r, Err("Invalid YouTube URL or ID".to_string()));
}

#[test]
fn bare_identifier_is_accepted() {
    assert_eq!(extract_video_id("dQw4w9WgXcQ").unwrap(), "dQw4w9WgXcQ");
    assert!(extract_video_id("dQw4w9.gXcQ").is_err());
    assert!(extract_video_id("dQw4w9/gXcQ").is_err());
    assert!(extract_video_id("dQw4w9WgXc").is_err());
}

#[test]
fn later_link_after_failed_one_is_found() {
    let url = "youtu.be/short then https://youtu.be/dQw4w9WgXcQ";
    assert_eq!(extract_video_id(url).unwrap(), "dQw4w9WgXcQ");
}

#[test]
fn parser_agrees_with_regex() {
    let cases = [
        "https://youtu.be/dQw4w9WgXcQ",
        "https://www.youtube.com/watch?v=abc",
        "https://www.youtube.com/watch?v=abcdefghij",
        "https://www.youtube.com/watch?v=abcdefghijk_-XYZ",
        "xx youtube.com/v/0123456789 youtu.be/aaaaaaaaaaaa",
        "music.youtube.com/watch?v=ABCDEFGHIJK",
        "googleusercontent.com/youtube.com/3abcdefghijk",
        "googleusercontent.com/youtube.com/2abcdefghijk",
        "nothing here",
        "",
    ];
    for c in cases {
        let ours = extract_video_id(c).ok();
        let expected = regex_id(c).or_else(|| {
            if c.len() == 11 && !c.contains('/') && !c.contains('.') { Some(c.to_string()) } else { None }
        });
        assert_eq!(ours, expected, "{}", c);
    }
}

#[test]
fn media_kind_parse() {
    assert_eq!(MediaKind::parse("audio"), Some(MediaKind::Audio));
    assert_eq!(MediaKind::parse("video"), Some(MediaKind::Video));
    assert_eq!(MediaKind::parse("merge"), Some(MediaKind::Merge));
    assert_eq!(MediaKind::parse("image"), None);
    assert_eq!(MediaKind::parse("Audio"), None);
    assert_eq!(MediaKind::Merge.name(), "merge");
}

#[test]
fn format_chains_in_order() {
    let a = get_format_hierarchy(MediaKind::Audio);
    assert_eq!(a.len(), 3);
    assert_eq!(a[0].selector, "bestaudio[abr<=128]");
    assert_eq!(a[2].selector, "bestaudio");
    assert!(a.iter().all(|c| c.extension == ".mp3" && c.post == PostProcess::ExtractAudio));
    let v = get_format_hierarchy(MediaKind::Video);
    let sel: Vec<&str> = v.iter().map(|c| c.selector).collect();
    assert_eq!(sel, vec![
        "bestvideo[height=720][fps=60]",
        "bestvideo[height=720]",
        "bestvideo[height=480]",
        "bestvideo[height=360]",
        "bestvideo[height=1080]",
        "bestvideo[height=1440]",
        "bestvideo[height=2160]",
        "bestvideo",
    ]);
    let m = get_format_hierarchy(MediaKind::Merge);
    assert_eq!(m.len(), 8);
    assert_eq!(m[0].selector, "bestvideo[height=720][fps=60]+bestaudio[abr<=192]/best[height=720][fps=60]");
    assert_eq!(m[7].selector, "bestvideo+bestaudio/best");
    assert!(m.iter().all(|c| c.extension == ".mp4" && c.post == PostProcess::Remux));
}

#[test]
fn safe_filenames() {
    assert!(is_safe_filename("abc.mp3"));
    assert!(is_safe_filename("a.b.c"));
    assert!(!is_safe_filename("../etc"));
    assert!(!is_safe_filename("a..b"));
    assert!(!is_safe_filename("a/b"));
    assert!(!is_safe_filename("a\\b"));
}

#[test]
fn decimal_and_file_name() {
    assert_eq!(decimal_string(0), "0");
    assert_eq!(decimal_string(18000000), "18000000");
    assert_eq!(decimal_string(u64::MAX), u64::MAX.to_string());
    assert_eq!(file_name("./downloads/audio/x.mp3"), "x.mp3");
    assert_eq!(file_name("plain"), "plain");
    assert_eq!(file_name("dir/"), "");
}

#[test]
fn api_keys() {
    let c = Config::defaults();
    assert!(is_valid_apikey("nbteam", &c.valid_apikeys));
    assert!(is_valid_apikey("cepetan", &c.valid_apikeys));
    assert!(!is_valid_apikey("nbteam ", &c.valid_apikeys));
    assert!(!is_valid_apikey("", &c.valid_apikeys));
}

#[test]
fn tally_counts_each_state() {
    let s = vec![
        TaskStatus::Downloading,
        TaskStatus::Completed,
        TaskStatus::Completed,
        TaskStatus::Failed,
    ];
    let t = TaskInfo::tally(&s);
    assert_eq!(t, TaskInfo { total: 4, downloading: 1, processing: 0, completed: 2, failed: 1 });
    assert_eq!(TaskStatus::Processing.as_str(), "processing");
}

#[test]
fn cookie_choice() {
    assert_eq!(get_random_cookies(&vec![]), None);
    let files = vec!["/c/cookies1.txt".to_string(), "/c/cookies2.txt".to_string()];
    for _ in 0..20 {
        let c = get_random_cookies(&files).unwrap();
        assert!(files.contains(&c));
    }
    assert_eq!(cookies_label(0), "none");
    assert_eq!(cookies_label(3), "3 files");
}

#[test]
fn address_precedence() {
    assert_eq!(get_real_ip(Some(" 1.1.1.1 "), Some("2.2.2.2"), Some("3.3.3.3"), Some("4.4.4.4")), "1.1.1.1");
    assert_eq!(get_real_ip(None, Some("2.2.2.2\t"), Some("3.3.3.3"), None), "2.2.2.2");
    assert_eq!(get_real_ip(None, None, Some(" 3.3.3.3 , 5.5.5.5"), Some("4.4.4.4")), "3.3.3.3");
    assert_eq!(get_real_ip(None, None, None, Some("4.4.4.4")), "4.4.4.4");
    assert_eq!(get_real_ip(None, None, None, None), "unknown");
}

#[test]
fn trim_and_fields_match_std() {
    for s in ["", "  ", " a b ", "\u{3000}x\u{85}", "\u{200b}y", "a,b,c", ",x", "no comma"] {
        assert_eq!(trim(s), s.trim(), "{:?}", s);
        assert_eq!(first_comma_field(s), s.split(',').next().unwrap(), "{:?}", s);
    }
}

#[test]
fn cookie_file_names() {
    assert!(is_cookie_file_name("cookies.txt"));
    assert!(is_cookie_file_name("cookies-2.txt"));
    assert!(!is_cookie_file_name("cookie.txt"));
    assert!(!is_cookie_file_name("cookies.txt.bak"));
    assert!(!is_cookie_file_name("cookies"));
}
