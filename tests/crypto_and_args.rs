use ytdl_gate::crypto::{cache_key, generate_challenge, generate_session_token, get_client_identifier, job_key, verify_pow};
use ytdl_gate::extractor::{execute_args, probe_args};
use ytdl_gate::media::PostProcess;
use sha2::Digest;

fn sha_hex(s: &str) -> String {
    format!("{:x}", sha2::Sha256::digest(s.as_bytes()))
}

fn solve(challenge: &str, difficulty: usize) -> String {
    let prefix = "0".repeat(difficulty);
    (0u64..).map(|n| n.to_string()).find(|n| sha_hex(&format!("{}{}", challenge, n)).starts_with(&prefix)).unwrap()
}

#[test]
fn pow_accepts_a_solution_and_rejects_others() {
    let ch = "abc";
    let n = solve(ch, 2);
    assert!(verify_pow(ch, &n, 2));
    assert!(verify_pow(ch, &n, 0));
    let bad = (0u64..).map(|n| n.to_string()).find(|n| !sha_hex(&format!("{}{}", ch, n)).starts_with('0')).unwrap();
    assert!(!verify_pow(ch, &bad, 1));
    assert!(!verify_pow(ch, &n, 65));
}

#[test]
fn fingerprint_is_deterministic_and_framed() {
    let a = get_client_identifier("1.2.3.4", "ua", "u", "audio");
    assert_eq!(a, get_client_identifier("1.2.3.4", "ua", "u", "audio"));
    assert_eq!(a.len(), 64);
    assert_eq!(a, sha_hex("7:1.2.3.42:ua1:u5:audio"));
    assert_ne!(get_client_identifier("a", "bc", "", ""), get_client_identifier("ab", "c", "", ""));
}

#[test]
fn keys_of_a_job() {
    assert_eq!(job_key("dQw4w9WgXcQ", "audio"), "dQw4w9WgXcQ_audio");
    let ck = cache_key("dQw4w9WgXcQ", "audio");
    assert_eq!(ck, format!("{:x}", md5::compute("dQw4w9WgXcQ_audio")));
    assert_eq!(ck.len(), 32);
}

#[test]
fn challenges_and_tokens_are_fresh_digests() {
    let a = generate_challenge();
    let b = generate_challenge();
    assert_eq!(a.len(), 64);
    assert_ne!(a, b);
    let t = generate_session_token("id_audio", "1.2.3.4", "ua");
    assert_eq!(t.len(), 64);
    assert!(t.chars().all(|c| c.is_ascii_hexdigit()));
}

#[test]
fn probe_arguments() {
    assert_eq!(probe_args("U", None, None), vec!["--dump-json", "--no-playlist", "--remote-components", "ejs:github", "U"]);
    assert_eq!(
        probe_args("U", Some("c.txt"), Some("http://p")),
        vec!["--proxy", "http://p", "--cookies", "c.txt", "--dump-json", "--no-playlist", "--remote-components", "ejs:github", "U"]
    );
}

#[test]
fn download_arguments() {
    let v = execute_args("U", "bestaudio", "d/x.%(ext)s", PostProcess::ExtractAudio, 8, "/usr/bin/ffmpeg", Some("c.txt"), None);
    let expected: Vec<&str> = vec![
        "-f", "bestaudio", "-o", "d/x.%(ext)s", "--no-playlist", "--no-warnings",
        "--remote-components", "ejs:github", "--concurrent-fragments", "8",
        "--buffer-size", "1M", "--http-chunk-size", "10M", "--throttled-rate", "100K",
        "--retries", "10", "--fragment-retries", "10", "--file-access-retries", "10",
        "--no-part", "--no-mtime", "--continue",
        "--cookies", "c.txt", "--ffmpeg-location", "/usr/bin/ffmpeg",
        "-x", "--audio-format", "mp3", "--audio-quality", "0", "--embed-metadata",
        "--embed-thumbnail", "--convert-thumbnails", "jpg", "U",
    ];
    assert_eq!(v, expected);
    let w = execute_args("U", "bestvideo", "o", PostProcess::Remux, 16, "", None, Some("P"));
    assert_eq!(&w[9], "16");
    assert_eq!(&w[25..], &["--proxy", "P", "--merge-output-format", "mp4", "--remux-video", "mp4", "U"]);
}
