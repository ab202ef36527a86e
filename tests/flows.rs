use ytdl_gate::crypto::{cache_key, get_client_identifier, job_key};
use ytdl_gate::gate::{Authorization, ChallengeError, JobResponse, VerifyError};
use ytdl_gate::media::MediaKind;
use ytdl_gate::models::{ChallengeRequest, Config, DownloadQuery, PowChallenge, TaskStatus, VerifyRequest};
use ytdl_gate::orchestrator::{check_limits, expected_output_path, first_step, next_step, output_template, step_status, FailReason, FallbackStep, ProbeInfo};
use ytdl_gate::store::{challenge_is_live, AppState};
use sha2::Digest;

const URL: &str = "https://youtu.be/dQw4w9WgXcQ";

fn state() -> AppState {
    AppState::new(4, String::new(), String::new())
}

fn sha_hex(s: &str) -> String {
    format!("{:x}", sha2::Sha256::digest(s.as_bytes()))
}

fn nonce(challenge: &str, difficulty: usize, good: bool) -> String {
    let prefix = "0".repeat(difficulty);
    (0u64..)
        .map(|n| n.to_string())
        .find(|n| sha_hex(&format!("{}{}", challenge, n)).starts_with(&prefix) == good)
        .unwrap()
}

fn query(kind: &str, apikey: Option<&str>) -> DownloadQuery {
    DownloadQuery { url: URL.to_string(), media_type: kind.to_string(), apikey: apikey.map(String::from) }
}

fn verify_req(n: String) -> VerifyRequest {
    VerifyRequest { url: URL.to_string(), media_type: "audio".to_string(), nonce: n }
}

fn keys() -> Vec<String> {
    Config::defaults().valid_apikeys
}

#[test]
fn full_gate_then_job_scenario() {
    let mut s = state();
    let ch = s.issue_challenge(&ChallengeRequest { url: URL.to_string(), media_type: "audio".to_string() }, "1.2.3.4", "ua", 2, 1).unwrap();
    assert_eq!(ch.difficulty, 2);
    assert_eq!(s.challenge_count(), 1);

    let wrong = s.verify_answer(&verify_req(nonce(&ch.challenge, 2, false)), "1.2.3.4", "ua", 1000);
    assert_eq!(wrong, Err(VerifyError::InvalidProof));
    assert_eq!(s.challenge_count(), 1);
    assert_eq!(s.session_count(), 0);

    let token = s.verify_answer(&verify_req(nonce(&ch.challenge, 2, true)), "1.2.3.4", "ua", 1000).unwrap();
    assert_eq!(s.challenge_count(), 0);
    assert_eq!(s.session_count(), 1);

    let replay = s.verify_answer(&verify_req(nonce(&ch.challenge, 2, true)), "1.2.3.4", "ua", 1001);
    assert_eq!(replay, Err(VerifyError::ChallengeNotFound));

    let r = s.start_job(&query("audio", None), "1.2.3.4", "ua", Some(&token), &keys(), false, 2000);
    let task = match r {
        JobResponse::Started(t) => t,
        _ => panic!("expected a started job"),
    };
    assert_eq!(task.status, TaskStatus::Downloading);
    assert_eq!(task.id, "dQw4w9WgXcQ_audio");
    assert_eq!(task.progress, "50%");

    assert!(s.update_task_status("dQw4w9WgXcQ_audio", TaskStatus::Processing, "100%"));
    let done = s.complete_job("dQw4w9WgXcQ", MediaKind::Audio, "./downloads/audio", "f00", ".mp3", 3000).unwrap();
    assert_eq!(done.status, TaskStatus::Completed);
    assert_eq!(done.file_url, "/files/f00.mp3");
    assert_eq!(done.file_path, "./downloads/audio/f00.mp3");
    match s.start_job(&query("audio", None), "1.2.3.4", "ua", Some(&token), &keys(), true, 4000) {
        JobResponse::Cached { file_url } => assert_eq!(file_url, "/files/f00.mp3"),
        _ => panic!("expected a cached answer"),
    }
}

#[test]
fn invalid_media_type_is_rejected() {
    let mut s = state();
    let r = s.start_job(&query("image", Some("nbteam")), "ip", "ua", None, &keys(), false, 1);
    assert!(matches!(r, JobResponse::InvalidMediaType));
    assert_eq!(s.task_count(), 0);
    assert_eq!(s.cache_len(), 0);
}

#[test]
fn invalid_link_is_rejected() {
    let mut s = state();
    let q = DownloadQuery { url: "https://example.com/x".to_string(), media_type: "audio".to_string(), apikey: Some("nbteam".to_string()) };
    assert!(matches!(s.start_job(&q, "ip", "ua", None, &keys(), false, 1), JobResponse::InvalidUrl));
    assert_eq!(s.task_count(), 0);
}

#[test]
fn gate_without_or_with_foreign_session() {
    let mut s = state();
    assert!(matches!(s.start_job(&query("audio", None), "ip", "ua", None, &keys(), false, 1), JobResponse::ChallengeRequired));
    assert!(matches!(s.start_job(&query("audio", Some("wrong")), "ip", "ua", Some("nosuch"), &keys(), false, 1), JobResponse::ChallengeRequired));
    let ch = s.issue_challenge(&ChallengeRequest { url: URL.to_string(), media_type: "audio".to_string() }, "ip", "ua", 1, 1).unwrap();
    let token = s.verify_answer(&VerifyRequest { url: URL.to_string(), media_type: "audio".to_string(), nonce: nonce(&ch.challenge, 1, true) }, "ip", "ua", 5).unwrap();
    assert!(matches!(s.start_job(&query("audio", None), "other-ip", "ua", Some(&token), &keys(), false, 1), JobResponse::Forbidden));
    assert!(matches!(s.start_job(&query("video", None), "ip", "ua", Some(&token), &keys(), false, 1), JobResponse::Forbidden));
    assert_eq!(s.authorize_session(Some(&token), "dQw4w9WgXcQ_audio", "ip", "ua"), Authorization::Granted);
    assert_eq!(s.authorize_session(None, "dQw4w9WgXcQ_audio", "ip", "ua"), Authorization::ChallengeRequired);
    assert_eq!(s.task_count(), 0);
}

#[test]
fn verify_without_challenge_fails() {
    let mut s = state();
    let r = s.verify_answer(&verify_req("1".to_string()), "ip", "ua", 1);
    assert_eq!(r, Err(VerifyError::ChallengeNotFound));
}

#[test]
fn verify_with_unparsable_link_fails() {
    let mut s = state();
    let req = ChallengeRequest { url: "nope".to_string(), media_type: "audio".to_string() };
    assert_eq!(s.issue_challenge(&req, "ip", "ua", 0, 1).err(), Some(ChallengeError::InvalidUrl));
    assert_eq!(s.challenge_count(), 0);
    let r = s.verify_answer(&VerifyRequest { url: "nope".to_string(), media_type: "audio".to_string(), nonce: "x".to_string() }, "ip", "ua", 1);
    assert_eq!(r, Err(VerifyError::ChallengeNotFound));
}

#[test]
fn new_challenge_replaces_old() {
    let mut s = state();
    let req = ChallengeRequest { url: URL.to_string(), media_type: "audio".to_string() };
    let a = s.issue_challenge(&req, "ip", "ua", 1, 1).unwrap();
    let b = s.issue_challenge(&req, "ip", "ua", 1, 1).unwrap();
    assert_eq!(s.challenge_count(), 1);
    let fp = get_client_identifier("ip", "ua", URL, "audio");
    assert_eq!(s.get_challenge(&fp).unwrap().challenge, b.challenge);
    assert_ne!(a.challenge, b.challenge);
}

#[test]
fn fifty_identical_requests_share_one_task() {
    let mut s = state();
    let mut started = 0;
    let mut ids = Vec::new();
    for i in 0..50 {
        match s.start_job(&query("video", Some("nbteam")), "ip", "ua", None, &keys(), false, 10 + i) {
            JobResponse::Started(t) => { started += 1; ids.push((t.id, t.created_at)); }
            JobResponse::Existing(t) => ids.push((t.id, t.created_at)),
            _ => panic!("unexpected answer"),
        }
    }
    assert_eq!(started, 1);
    assert_eq!(s.task_count(), 1);
    assert!(ids.iter().all(|x| *x == ("dQw4w9WgXcQ_video".to_string(), 10)));
}

#[test]
fn stale_cache_entry_is_dropped() {
    let mut s = state();
    s.complete_job("dQw4w9WgXcQ", MediaKind::Merge, "m", "id1", ".mp4", 5);
    assert_eq!(s.cache_len(), 1);
    let q = query("merge", Some("nbteam"));
    assert_eq!(s.cached_path(&q), Some("m/id1.mp4".to_string()));
    match s.start_job(&q, "ip", "ua", None, &keys(), true, 6) {
        JobResponse::Cached { file_url } => assert_eq!(file_url, "/files/id1.mp4"),
        _ => panic!("expected a cached answer"),
    }
    assert!(matches!(s.start_job(&q, "ip", "ua", None, &keys(), false, 7), JobResponse::Started(_)));
    assert_eq!(s.cache_len(), 0);
    assert_eq!(s.cached_path(&q), None);
}

#[test]
fn fallback_steps_in_order() {
    assert_eq!(first_step(MediaKind::Audio), FallbackStep::Attempt(0));
    assert_eq!(next_step(MediaKind::Audio, 0, false, false), FallbackStep::Attempt(1));
    assert_eq!(next_step(MediaKind::Audio, 1, true, false), FallbackStep::Attempt(2));
    assert_eq!(next_step(MediaKind::Audio, 2, true, true), FallbackStep::Done(2));
    assert_eq!(next_step(MediaKind::Audio, 2, false, true), FallbackStep::Exhausted);
    // three failures then success on a video chain: four attempts
    let mut step = first_step(MediaKind::Video);
    let mut tried = Vec::new();
    while let FallbackStep::Attempt(i) = step {
        tried.push(i);
        step = next_step(MediaKind::Video, i, true, i == 3);
    }
    assert_eq!(tried, vec![0, 1, 2, 3]);
    assert_eq!(step, FallbackStep::Done(3));
}

#[test]
fn exhausted_job_fails_and_is_removed() {
    let mut s = state();
    let q = query("audio", Some("nbteam"));
    s.start_job(&q, "ip", "ua", None, &keys(), false, 1);
    s.complete_job("dQw4w9WgXcQ", MediaKind::Audio, "a", "old", ".mp3", 0);
    s.fail_job("dQw4w9WgXcQ", MediaKind::Audio, FailReason::AllFormatsFailed);
    let t = s.get_task("dQw4w9WgXcQ_audio").unwrap();
    assert_eq!(t.status, TaskStatus::Failed);
    assert_eq!(t.error, "All format attempts failed");
    assert_eq!(s.cache_len(), 0);
    s.remove_task(&job_key("dQw4w9WgXcQ", "audio"));
    assert_eq!(s.task_count(), 0);
}

#[test]
fn task_status_update() {
    let mut s = state();
    s.start_job(&query("audio", Some("nbteam")), "ip", "ua", None, &keys(), false, 1);
    assert!(!s.update_task_status("dQw4w9WgXcQ_audio", TaskStatus::Completed, "100%"));
    assert!(s.update_task_status("dQw4w9WgXcQ_audio", TaskStatus::Processing, "100%"));
    let t = s.get_task("dQw4w9WgXcQ_audio").unwrap();
    assert_eq!(t.status, TaskStatus::Processing);
    assert_eq!(t.progress, "100%");
    assert!(!s.update_task_status("dQw4w9WgXcQ_audio", TaskStatus::Failed, "0%"));
    s.fail_job("dQw4w9WgXcQ", MediaKind::Audio, FailReason::AllFormatsFailed);
    assert_eq!(s.get_task("dQw4w9WgXcQ_audio").unwrap().status, TaskStatus::Processing);
    assert!(s.update_task_status("dQw4w9WgXcQ_audio", TaskStatus::Completed, "100%"));
    assert!(!s.update_task_status("dQw4w9WgXcQ_audio", TaskStatus::Downloading, "0%"));
    assert!(!s.update_task_status("absent", TaskStatus::Failed, "0%"));
    assert_eq!(s.task_count(), 1);
}

#[test]
fn limits_on_probe() {
    let c = Config::defaults();
    assert_eq!(check_limits(&c, MediaKind::Audio, None), Ok(()));
    assert_eq!(check_limits(&c, MediaKind::Audio, Some(ProbeInfo { duration_secs: 18000, filesize: 0 })), Ok(()));
    assert_eq!(check_limits(&c, MediaKind::Video, Some(ProbeInfo { duration_secs: 18000, filesize: 0 })), Err(FailReason::DurationExceeded));
    assert_eq!(check_limits(&c, MediaKind::Merge, Some(ProbeInfo { duration_secs: 10, filesize: 1073741825 })), Err(FailReason::FileSizeExceeded));
    assert_eq!(FailReason::DurationExceeded.message(), "Duration exceeds maximum");
}

#[test]
fn output_paths() {
    assert_eq!(output_template("./downloads/audio", "u1"), "./downloads/audio/u1.%(ext)s");
    assert_eq!(expected_output_path("./downloads/audio", "u1", ".mp3"), "./downloads/audio/u1.mp3");
}

#[test]
fn sweep_twice_removes_nothing_more() {
    let mut s = state();
    s.complete_job("aaaaaaaaaaa", MediaKind::Audio, "a", "old", ".mp3", 0);
    s.complete_job("bbbbbbbbbbb", MediaKind::Audio, "a", "new", ".mp3", 900);
    let req = ChallengeRequest { url: URL.to_string(), media_type: "audio".to_string() };
    s.issue_challenge(&req, "ip", "ua", 1, 900).unwrap();
    s.issue_challenge(&req, "other-ip", "ua", 1, -400_000).unwrap();
    let removed = s.sweep(1000, 500);
    assert_eq!(removed, vec!["a/old.mp3".to_string()]);
    assert_eq!(s.cache_len(), 1);
    assert_eq!(s.challenge_count(), 1);
    let q = DownloadQuery { url: "bbbbbbbbbbb".to_string(), media_type: "audio".to_string(), apikey: None };
    assert_eq!(s.cached_path(&q), Some("a/new.mp3".to_string()));
    assert_eq!(cache_key("bbbbbbbbbbb", "audio").len(), 32);
    let again = s.sweep(1000, 500);
    assert!(again.is_empty());
    assert_eq!(s.cache_len(), 1);
    assert_eq!(s.challenge_count(), 1);
}

#[test]
fn janitor_expires_challenges_and_sessions() {
    let mut s = state();
    let req = ChallengeRequest { url: URL.to_string(), media_type: "audio".to_string() };
    s.issue_challenge(&req, "old", "ua", 1, 0).unwrap();
    s.issue_challenge(&req, "young", "ua", 1, 100_000).unwrap();
    let young = get_client_identifier("young", "ua", URL, "audio");
    assert!(challenge_is_live(&s.get_challenge(&young).unwrap(), 399_999));
    let stale = PowChallenge { challenge: String::new(), url: String::new(), media_type: String::new(), difficulty: 0, timestamp: 0 };
    assert!(!challenge_is_live(&stale, 300_000));
    s.sweep(300_000, 1_000);
    assert_eq!(s.challenge_count(), 1);
    assert!(s.get_challenge(&young).is_some());
    let ch = s.issue_challenge(&req, "ip", "ua", 0, 300_000).unwrap();
    let token = s.verify_answer(&VerifyRequest { url: URL.to_string(), media_type: "audio".to_string(), nonce: "n".to_string() }, "ip", "ua", 300_000).unwrap();
    assert_eq!(ch.difficulty, 0);
    assert_eq!(s.session_count(), 1);
    s.sweep(300_000 + 3_599_999, 1_000);
    assert_eq!(s.session_count(), 1);
    s.sweep(300_000 + 3_600_000, 1_000);
    assert_eq!(s.session_count(), 0);
    assert_eq!(s.authorize_session(Some(&token), "dQw4w9WgXcQ_audio", "ip", "ua"), Authorization::ChallengeRequired);
}

#[test]
fn status_counts_over_registry() {
    let mut s = AppState::new(8, "/usr/bin/ffmpeg".to_string(), String::new());
    assert_eq!(s.max_concurrent(), 8);
    assert_eq!(s.ffmpeg_path(), "/usr/bin/ffmpeg");
    assert_eq!(s.ffprobe_path(), "");
    s.start_job(&query("audio", Some("nbteam")), "ip", "ua", None, &keys(), false, 1);
    s.start_job(&query("video", Some("nbteam")), "ip", "ua", None, &keys(), false, 1);
    s.start_job(&query("merge", Some("nbteam")), "ip", "ua", None, &keys(), false, 1);
    assert!(s.update_task_status("dQw4w9WgXcQ_video", TaskStatus::Processing, "100%"));
    assert!(s.complete_job("dQw4w9WgXcQ", MediaKind::Video, "v", "x", ".mp4", 2).is_some());
    s.fail_job("dQw4w9WgXcQ", MediaKind::Merge, FailReason::DurationExceeded);
    let info = ytdl_gate::models::TaskInfo::tally(&s.task_statuses());
    assert_eq!(info.total, 3);
    assert_eq!((info.downloading, info.processing, info.completed, info.failed), (1, 0, 1, 1));
    assert_eq!(s.get_task("dQw4w9WgXcQ_merge").unwrap().error, "Duration exceeds maximum");
}

#[test]
fn malformed_challenge_requests_change_nothing() {
    let mut s = state();
    let bad_kind = ChallengeRequest { url: URL.to_string(), media_type: "image".to_string() };
    assert_eq!(s.issue_challenge(&bad_kind, "ip", "ua", 1, 1).err(), Some(ChallengeError::InvalidMediaType));
    let bad_link = ChallengeRequest { url: "https://example.com/".to_string(), media_type: "video".to_string() };
    assert_eq!(s.issue_challenge(&bad_link, "ip", "ua", 1, 1).err(), Some(ChallengeError::InvalidUrl));
    assert_eq!(s.challenge_count(), 0);
    assert_eq!(s.task_count(), 0);
    assert_eq!(s.cache_len(), 0);
}

#[test]
fn step_statuses() {
    assert_eq!(step_status(FallbackStep::Done(2)), Some(TaskStatus::Processing));
    assert_eq!(step_status(FallbackStep::Attempt(1)), None);
    assert_eq!(step_status(FallbackStep::Exhausted), None);
}

#[test]
fn completion_needs_processing_state() {
    let mut s = state();
    s.start_job(&query("audio", Some("nbteam")), "ip", "ua", None, &keys(), false, 1);
    assert!(s.complete_job("dQw4w9WgXcQ", MediaKind::Audio, "a", "n", ".mp3", 2).is_none());
    assert_eq!(s.get_task("dQw4w9WgXcQ_audio").unwrap().status, TaskStatus::Downloading);
    assert_eq!(s.cache_len(), 1);
}
