//! The records the registries hold, and the request and response shapes.

use vstd::prelude::*;
use crate::media::MediaKind;

verus! {

/// The state of a job: `Downloading -> Processing -> Completed`, or `Failed`.
#[derive(Clone, Copy, Debug, PartialEq, Eq, Structural)]
pub enum TaskStatus {
    Downloading,
    Processing,
    Completed,
    Failed,
}

impl TaskStatus {
    /// Whether a task in this state may move to `to`.
    pub fn may_advance_to(&self, to: TaskStatus) -> (r: bool)
        ensures
            r == advances(*self, to),
    {
        match (*self, to) {
            (TaskStatus::Downloading, TaskStatus::Processing) => true,
            (TaskStatus::Downloading, TaskStatus::Failed) => true,
            (TaskStatus::Processing, TaskStatus::Completed) => true,
            _ => false,
        }
    }

    /// The status as clients see it.
    pub fn as_str(&self) -> (r: &'static str)
        ensures
            r@ == status_name(*self),
    {
        match self {
            TaskStatus::Downloading => "downloading",
            TaskStatus::Processing => "processing",
            TaskStatus::Completed => "completed",
            TaskStatus::Failed => "failed",
        }
    }
}

/// The moves a task's status may make: downloading to processing to
/// completed, or downloading to failed. Completed and failed are final.
pub open spec fn advances(from: TaskStatus, to: TaskStatus) -> bool {
    (from == TaskStatus::Downloading && (to == TaskStatus::Processing || to == TaskStatus::Failed))
        || (from == TaskStatus::Processing && to == TaskStatus::Completed)
}

/// The name of a status.
pub open spec fn status_name(s: TaskStatus) -> Seq<char> {
    match s {
        TaskStatus::Downloading => "downloading"@,
        TaskStatus::Processing => "processing"@,
        TaskStatus::Completed => "completed"@,
        TaskStatus::Failed => "failed"@,
    }
}

/// A completed result: where the file lies, when it was made, and its kind.
pub struct CacheEntry {
    pub file_path: String,
    pub timestamp: i64,
    pub media_type: MediaKind,
}

/// A job and its progress.
pub struct Task {
    pub id: String,
    pub url: String,
    pub media_type: MediaKind,
    pub status: TaskStatus,
    pub progress: String,
    pub file_path: String,
    pub file_url: String,
    pub created_at: i64,
    pub error: String,
}

/// An outstanding proof-of-work challenge of one client.
pub struct PowChallenge {
    pub challenge: String,
    pub url: String,
    pub media_type: String,
    pub difficulty: usize,
    pub timestamp: i64,
}

/// What a session token authorizes: one job, for one address and user agent.
pub struct PowSession {
    pub task_id: String,
    pub ip: String,
    pub user_agent: String,
    pub timestamp: i64,
}

impl CacheEntry {
    /// A copy equal to `self`.
    pub fn duplicate(&self) -> (r: Self)
        ensures
            r == *self,
    {
        CacheEntry {
            file_path: self.file_path.clone(),
            timestamp: self.timestamp,
            media_type: self.media_type,
        }
    }
}

impl Task {
    /// A copy equal to `self`.
    pub fn duplicate(&self) -> (r: Self)
        ensures
            r == *self,
    {
        Task {
            id: self.id.clone(),
            url: self.url.clone(),
            media_type: self.media_type,
            status: self.status,
            progress: self.progress.clone(),
            file_path: self.file_path.clone(),
            file_url: self.file_url.clone(),
            created_at: self.created_at,
            error: self.error.clone(),
        }
    }
}

impl PowChallenge {
    /// A copy equal to `self`.
    pub fn duplicate(&self) -> (r: Self)
        ensures
            r == *self,
    {
        PowChallenge {
            challenge: self.challenge.clone(),
            url: self.url.clone(),
            media_type: self.media_type.clone(),
            difficulty: self.difficulty,
            timestamp: self.timestamp,
        }
    }
}

impl PowSession {
    /// A copy equal to `self`.
    pub fn duplicate(&self) -> (r: Self)
        ensures
            r == *self,
    {
        PowSession {
            task_id: self.task_id.clone(),
            ip: self.ip.clone(),
            user_agent: self.user_agent.clone(),
            timestamp: self.timestamp,
        }
    }
}

/// A job-start or poll request.
pub struct DownloadQuery {
    pub url: String,
    pub media_type: String,
    pub apikey: Option<String>,
}

/// A request for a challenge.
pub struct ChallengeRequest {
    pub url: String,
    pub media_type: String,
}

/// A proof-of-work answer.
pub struct VerifyRequest {
    pub url: String,
    pub media_type: String,
    pub nonce: String,
}

/// A challenge handed to a client.
pub struct ChallengeResponse {
    pub challenge: String,
    pub difficulty: usize,
}

/// The service status report.
pub struct StatusResponse {
    pub status: String,
    pub system: SystemInfo,
    pub cache: CacheInfo,
    pub tasks: TaskInfo,
}

/// Facts about the running process.
pub struct SystemInfo {
    pub uptime: String,
    pub version: String,
    pub platform: String,
    pub cpu_cores: usize,
    pub max_concurrent: usize,
    pub ffmpeg: String,
    pub ffprobe: String,
    pub active_cookies: String,
}

/// Size of the result cache.
pub struct CacheInfo {
    pub total: usize,
}

/// Number of tasks in each state.
#[derive(Clone, Copy, Debug, PartialEq, Eq, Structural)]
pub struct TaskInfo {
    pub total: usize,
    pub downloading: usize,
    pub processing: usize,
    pub completed: usize,
    pub failed: usize,
}

/// Number of entries of `s` in state `st`.
pub open spec fn count_status(s: Seq<TaskStatus>, st: TaskStatus) -> nat
    decreases s.len(),
{
    if s.len() == 0 {
        0
    } else {
        count_status(s.drop_last(), st) + if s.last() == st { 1nat } else { 0nat }
    }
}

impl TaskInfo {
    /// Counts the tasks of each state among `statuses`.
    pub fn tally(statuses: &Vec<TaskStatus>) -> (r: TaskInfo)
        ensures
            r.total == statuses@.len(),
            r.downloading == count_status(statuses@, TaskStatus::Downloading),
            r.processing == count_status(statuses@, TaskStatus::Processing),
            r.completed == count_status(statuses@, TaskStatus::Completed),
            r.failed == count_status(statuses@, TaskStatus::Failed),
    {
        let mut r = TaskInfo { total: 0, downloading: 0, processing: 0, completed: 0, failed: 0 };
        let mut i: usize = 0;
        while i < statuses.len()
            invariant
                i <= statuses@.len(),
                r.total == i,
                r.downloading == count_status(statuses@.subrange(0, i as int), TaskStatus::Downloading),
                r.processing == count_status(statuses@.subrange(0, i as int), TaskStatus::Processing),
                r.completed == count_status(statuses@.subrange(0, i as int), TaskStatus::Completed),
                r.failed == count_status(statuses@.subrange(0, i as int), TaskStatus::Failed),
                r.downloading <= i && r.processing <= i && r.completed <= i && r.failed <= i,
            decreases statuses@.len() - i,
        {
            let ghost prev = statuses@.subrange(0, i as int);
            let s = statuses[i];
            match s {
                TaskStatus::Downloading => { r.downloading = r.downloading + 1; },
                TaskStatus::Processing => { r.processing = r.processing + 1; },
                TaskStatus::Completed => { r.completed = r.completed + 1; },
                TaskStatus::Failed => { r.failed = r.failed + 1; },
            }
            i = i + 1;
            r.total = i;
            assert(statuses@.subrange(0, i as int).drop_last() =~= prev);
        }
        assert(statuses@.subrange(0, statuses@.len() as int) =~= statuses@);
        r
    }
}

/// Settings read once at start-up and passed to every component.
pub struct Config {
    /// How long a cached result stays, in milliseconds.
    pub cache_duration: i64,
    /// Longest video accepted, in seconds.
    pub max_video_duration: u64,
    /// Longest audio accepted, in seconds.
    pub max_audio_duration: u64,
    /// Largest file accepted, in bytes.
    pub max_file_size: u64,
    /// Leading zero characters a proof-of-work answer needs.
    pub pow_difficulty: usize,
    /// Keys that bypass the proof-of-work gate.
    pub valid_apikeys: Vec<String>,
}

impl Config {
    /// The settings used where the environment gives none.
    pub fn defaults() -> (r: Config)
        ensures
            r.cache_duration == 18000000,
            r.max_video_duration == 10800,
            r.max_audio_duration == 18000,
            r.max_file_size == 1073741824,
            r.pow_difficulty == 1,
            r.valid_apikeys@.len() == 3,
            r.valid_apikeys@[0]@ == "nbteam"@,
            r.valid_apikeys@[1]@ == "siputzxteam"@,
            r.valid_apikeys@[2]@ == "cepetan"@,
    {
        Config {
            cache_duration: 18000000,
            max_video_duration: 10800,
            max_audio_duration: 18000,
            max_file_size: 1073741824,
            pow_difficulty: 1,
            valid_apikeys: vec![
                String::from_str("nbteam"),
                String::from_str("siputzxteam"),
                String::from_str("cepetan"),
            ],
        }
    }

    /// The duration ceiling of a kind, in seconds.
    pub fn max_duration(&self, k: MediaKind) -> (r: u64)
        ensures
            r == max_duration_of(*self, k),
    {
        match k {
            MediaKind::Audio => self.max_audio_duration,
            _ => self.max_video_duration,
        }
    }
}

/// The duration ceiling of a kind: audio has its own, video and merge share one.
pub open spec fn max_duration_of(c: Config, k: MediaKind) -> u64 {
    match k {
        MediaKind::Audio => c.max_audio_duration,
        _ => c.max_video_duration,
    }
}

/// Whether `key` is one of `keys`.
pub open spec fn listed(keys: Seq<String>, key: Seq<char>) -> bool {
    exists|i: int| 0 <= i < keys.len() && (#[trigger] keys[i])@ == key
}

/// Whether an API key is one of the configured keys.
pub fn is_valid_apikey(apikey: &str, valid_keys: &Vec<String>) -> (r: bool)
    ensures
        r == listed(valid_keys@, apikey@),
{
    let mut i: usize = 0;
    while i < valid_keys.len()
        invariant
            i <= valid_keys@.len(),
            forall|j: int| 0 <= j < i ==> (#[trigger] valid_keys@[j])@ != apikey@,
        decreases valid_keys@.len() - i,
    {
        if crate::text::same_text(valid_keys[i].as_str(), apikey) {
            return true;
        }
        i = i + 1;
    }
    false
}

} // verus!
