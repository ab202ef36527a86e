//! The download orchestrator's decisions: limit checks on probed metadata,
//! the fallback chain's steps, and how a job's outcome is recorded.
//!
//! The caller runs the extractor; after each attempt it hands the outcome
//! back and is told what to do next.

use vstd::prelude::*;
use crate::crypto::{cache_key, cache_key_of};
use crate::media::{get_format_hierarchy, selectors, MediaKind};
use crate::models::{advances, max_duration_of, CacheEntry, Config, Task, TaskStatus};
use crate::store::{
    cache_insert, cache_remove, settings_kept, task_get, task_insert, task_remove, AppState,
};
use crate::text::join2;

verus! {

broadcast use crate::store::group_state_views;

/// Metadata a probe reported: the duration in whole seconds, rounded up,
/// and the size in bytes (zero when unknown).
#[derive(Clone, Copy, Debug, PartialEq, Eq, Structural)]
pub struct ProbeInfo {
    pub duration_secs: u64,
    pub filesize: u64,
}

/// Why a job failed.
#[derive(Clone, Copy, Debug, PartialEq, Eq, Structural)]
pub enum FailReason {
    DurationExceeded,
    FileSizeExceeded,
    AllFormatsFailed,
}

impl FailReason {
    /// The short text recorded on the task.
    pub fn message(&self) -> (r: &'static str)
        ensures
            r@ == fail_message(*self),
    {
        match self {
            FailReason::DurationExceeded => "Duration exceeds maximum",
            FailReason::FileSizeExceeded => "File size exceeds maximum",
            FailReason::AllFormatsFailed => "All format attempts failed",
        }
    }
}

/// The text recorded for a failure.
pub open spec fn fail_message(f: FailReason) -> Seq<char> {
    match f {
        FailReason::DurationExceeded => "Duration exceeds maximum"@,
        FailReason::FileSizeExceeded => "File size exceeds maximum"@,
        FailReason::AllFormatsFailed => "All format attempts failed"@,
    }
}

/// The verdict of the limit check on a probe; no probe means no limits.
pub open spec fn limit_verdict(c: Config, k: MediaKind, probe: Option<ProbeInfo>) -> Result<
    (),
    FailReason,
> {
    match probe {
        None => Ok(()),
        Some(p) => if p.duration_secs > max_duration_of(c, k) {
            Err(FailReason::DurationExceeded)
        } else if p.filesize > 0 && p.filesize > c.max_file_size {
            Err(FailReason::FileSizeExceeded)
        } else {
            Ok(())
        },
    }
}

/// Checks probed metadata against the kind's duration ceiling and the
/// global size ceiling. A failed probe enforces nothing.
pub fn check_limits(c: &Config, k: MediaKind, probe: Option<ProbeInfo>) -> (r: Result<(), FailReason>)
    ensures
        r == limit_verdict(*c, k, probe),
{
    match probe {
        None => Ok(()),
        Some(p) => {
            if p.duration_secs > c.max_duration(k) {
                Err(FailReason::DurationExceeded)
            } else if p.filesize > 0 && p.filesize > c.max_file_size {
                Err(FailReason::FileSizeExceeded)
            } else {
                Ok(())
            }
        },
    }
}

/// What the orchestrator does next.
#[derive(Clone, Copy, Debug, PartialEq, Eq, Structural)]
pub enum FallbackStep {
    /// Invoke the extractor with candidate number `i`.
    Attempt(usize),
    /// Candidate number `i` produced the result.
    Done(usize),
    /// Every candidate failed.
    Exhausted,
}

/// The first step over a chain of `n` candidates.
pub open spec fn first_step_of(n: nat) -> FallbackStep {
    if n == 0 { FallbackStep::Exhausted } else { FallbackStep::Attempt(0) }
}

/// The step after candidate `i` of `n` succeeded or not.
pub open spec fn step_after(n: nat, i: nat, ok: bool) -> FallbackStep {
    if ok {
        FallbackStep::Done(i as usize)
    } else if i + 1 < n {
        FallbackStep::Attempt((i + 1) as usize)
    } else {
        FallbackStep::Exhausted
    }
}

/// Running the chain of `n` candidates from candidate `i`, where candidate
/// `j` succeeds exactly when `outcomes[j]`: the candidates tried, in
/// order, and the final step.
pub open spec fn run_from(n: nat, outcomes: Seq<bool>, i: nat) -> (Seq<nat>, FallbackStep)
    decreases n - i,
{
    if i >= n {
        (Seq::empty(), FallbackStep::Exhausted)
    } else {
        match step_after(n, i, outcomes[i as int]) {
            FallbackStep::Attempt(_) => {
                let rest = run_from(n, outcomes, i + 1);
                (seq![i] + rest.0, rest.1)
            },
            last => (seq![i], last),
        }
    }
}

/// The first step of a kind's chain.
pub fn first_step(k: MediaKind) -> (r: FallbackStep)
    ensures
        r == first_step_of(selectors(k).len()),
{
    let chain = get_format_hierarchy(k);
    if chain.len() == 0 {
        FallbackStep::Exhausted
    } else {
        FallbackStep::Attempt(0)
    }
}

/// The step after an attempt with candidate `i` of a kind's chain. An
/// attempt succeeded when the extractor reported success and the expected
/// file was found.
pub fn next_step(k: MediaKind, i: usize, extractor_ok: bool, file_found: bool) -> (r: FallbackStep)
    requires
        i < selectors(k).len(),
    ensures
        r == step_after(selectors(k).len(), i as nat, extractor_ok && file_found),
{
    let chain = get_format_hierarchy(k);
    if extractor_ok && file_found {
        FallbackStep::Done(i)
    } else if i + 1 < chain.len() {
        FallbackStep::Attempt(i + 1)
    } else {
        FallbackStep::Exhausted
    }
}

/// The candidates tried from `i` on are `i, i + 1, ..., m`, and the run
/// ends with `Done(m)`, when those before `m` fail and `m` succeeds.
proof fn lemma_run_from(n: nat, outcomes: Seq<bool>, i: nat, m: nat)
    requires
        i <= m < n,
        m < outcomes.len(),
        n <= usize::MAX,
        forall|j: int| i <= j < m ==> !outcomes[j],
        outcomes[m as int],
    ensures
        run_from(n, outcomes, i).0 == Seq::new((m + 1 - i) as nat, |j: int| (i + j) as nat),
        run_from(n, outcomes, i).1 == FallbackStep::Done(m as usize),
    decreases m - i,
{
    if i == m {
        assert(run_from(n, outcomes, i).0 =~= Seq::new((m + 1 - i) as nat, |j: int| (i + j) as nat));
    } else {
        lemma_run_from(n, outcomes, i + 1, m);
        assert(run_from(n, outcomes, i).0 =~= Seq::new((m + 1 - i) as nat, |j: int| (i + j) as nat));
    }
}

/// Fallback order is deterministic and exhaustive: over a chain of `n`
/// candidates where the first `m` fail and candidate `m` (counting from
/// zero) succeeds, exactly `m + 1` attempts are made, in declared order,
/// and the run ends with that candidate as its result.
pub proof fn lemma_fallback_order(n: nat, outcomes: Seq<bool>, m: nat)
    requires
        m < n,
        n <= outcomes.len(),
        n <= usize::MAX,
        forall|j: int| 0 <= j < m ==> !outcomes[j],
        outcomes[m as int],
    ensures
        first_step_of(n) == FallbackStep::Attempt(0),
        run_from(n, outcomes, 0).0 == Seq::new(m + 1, |j: int| j as nat),
        run_from(n, outcomes, 0).1 == FallbackStep::Done(m as usize),
{
    lemma_run_from(n, outcomes, 0, m);
    assert(Seq::new((m + 1 - 0) as nat, |j: int| (0 + j) as nat) =~= Seq::new(m + 1, |j: int| j as nat));
}

/// The path the extractor leaves its output at.
pub open spec fn output_path_of(dir: Seq<char>, name: Seq<char>, ext: Seq<char>) -> Seq<char> {
    dir + "/"@ + name + ext
}

/// Where the extractor is told to write: `dir/name.%(ext)s`, the tool
/// filling in the extension.
pub fn output_template(dir: &str, name: &str) -> (r: String)
    ensures
        r@ == dir@ + "/"@ + name@ + ".%(ext)s"@,
{
    let mut s = join2(dir, "/");
    s.append(name);
    s.append(".%(ext)s");
    s
}

/// The path the output of a successful attempt is expected at.
pub fn expected_output_path(dir: &str, name: &str, ext: &str) -> (r: String)
    ensures
        r@ == output_path_of(dir@, name@, ext@),
{
    let mut s = join2(dir, "/");
    s.append(name);
    s.append(ext);
    s
}

/// `u` is `t` with the given status and progress, every other field kept.
pub open spec fn updated(t: Task, status: TaskStatus, progress: Seq<char>, u: Task) -> bool {
    &&& u.status == status
    &&& u.progress@ == progress
    &&& u.id == t.id && u.url == t.url && u.media_type == t.media_type
    &&& u.file_path == t.file_path && u.file_url == t.file_url
    &&& u.created_at == t.created_at && u.error == t.error
}

/// What recording a successful attempt does: `s0` before, `s1` after.
pub open spec fn complete_post(
    s0: AppState,
    s1: AppState,
    video_id: Seq<char>,
    k: MediaKind,
    dir: Seq<char>,
    name: Seq<char>,
    ext: Seq<char>,
    now: i64,
    r: Option<Task>,
) -> bool {
    let key = crate::crypto::job_key_of(video_id, crate::media::kind_name(k));
    let ck = cache_key_of(video_id, crate::media::kind_name(k));
    let path = output_path_of(dir, name, ext);
    &&& s1.cache_view().dom() == s0.cache_view().dom().insert(ck)
    &&& s1.cache_view()[ck].file_path@ == path
    &&& s1.cache_view()[ck].timestamp == now
    &&& s1.cache_view()[ck].media_type == k
    &&& forall|o: Seq<char>| o != ck && #[trigger] s0.cache_view().dom().contains(o)
        ==> s1.cache_view()[o] == s0.cache_view()[o]
    &&& match r {
        Some(t) => {
            &&& s0.task_view().dom().contains(key)
            &&& advances(s0.task_view()[key].status, TaskStatus::Completed)
            &&& s1.task_view() == s0.task_view().insert(key, t)
            &&& t.status == TaskStatus::Completed
            &&& t.progress@ == "100%"@
            &&& t.file_path@ == path
            &&& t.file_url@ == "/files/"@ + name + ext
            &&& t.id == s0.task_view()[key].id
            &&& t.url == s0.task_view()[key].url
            &&& t.created_at == s0.task_view()[key].created_at
        },
        None => !(s0.task_view().dom().contains(key) && advances(
            s0.task_view()[key].status,
            TaskStatus::Completed,
        )) && s1.task_view() == s0.task_view(),
    }
    &&& s1.challenge_view() == s0.challenge_view()
    &&& s1.session_view() == s0.session_view()
    &&& settings_kept(s0, s1)
}

/// The status a task takes when the chain reaches `step`, if any: a
/// successful attempt moves the task to processing while its result is
/// recorded.
pub open spec fn status_at(step: FallbackStep) -> Option<TaskStatus> {
    match step {
        FallbackStep::Done(_) => Some(TaskStatus::Processing),
        _ => None,
    }
}

/// The status a task takes when the chain reaches `step`, if any.
pub fn step_status(step: FallbackStep) -> (r: Option<TaskStatus>)
    ensures
        r == status_at(step),
{
    match step {
        FallbackStep::Done(_) => Some(TaskStatus::Processing),
        _ => None,
    }
}

impl AppState {
    /// Moves the task under `task_id` to `status` with the given progress,
    /// under exclusive access so that no update is lost. Only the moves of
    /// `advances` are made; otherwise nothing changes. Says whether the
    /// task moved.
    pub fn update_task_status(&mut self, task_id: &str, status: TaskStatus, progress: &str) -> (r:
        bool)
        ensures
            r == (old(self).task_view().dom().contains(task_id@) && advances(
                old(self).task_view()[task_id@].status,
                status,
            )),
            final(self).cache_view() == old(self).cache_view(),
            final(self).challenge_view() == old(self).challenge_view(),
            final(self).session_view() == old(self).session_view(),
            settings_kept(*old(self), *final(self)),
            r ==> {
                &&& final(self).task_view() == old(self).task_view().insert(
                    task_id@,
                    final(self).task_view()[task_id@],
                )
                &&& updated(
                    old(self).task_view()[task_id@],
                    status,
                    progress@,
                    final(self).task_view()[task_id@],
                )
            },
            !r ==> final(self).task_view() == old(self).task_view(),
    {
        match task_get(&self.tasks, task_id) {
            Some(t) => {
                if !t.status.may_advance_to(status) {
                    return false;
                }
                let mut t = t;
                t.status = status;
                t.progress = String::from_str(progress);
                task_insert(&mut self.tasks, String::from_str(task_id), t);
                true
            },
            None => false,
        }
    }

    /// Records a successful attempt: the result file `dir/name+ext` is
    /// cached under the resource's cache key at `now`, and the task is
    /// marked completed with the file's path and public reference.
    pub fn complete_job(
        &mut self,
        video_id: &str,
        k: MediaKind,
        dir: &str,
        name: &str,
        ext: &str,
        now: i64,
    ) -> (r: Option<Task>)
        ensures
            complete_post(*old(self), *final(self), video_id@, k, dir@, name@, ext@, now, r),
    {
        let path = expected_output_path(dir, name, ext);
        let mut url = String::from_str("/files/");
        url.append(name);
        url.append(ext);
        let ck = cache_key(video_id, k.name());
        let entry = CacheEntry { file_path: path.clone(), timestamp: now, media_type: k };
        cache_insert(&mut self.cache, ck, entry);
        let key = crate::crypto::job_key(video_id, k.name());
        match task_get(&self.tasks, key.as_str()) {
            Some(t) => {
                if !t.status.may_advance_to(TaskStatus::Completed) {
                    return None;
                }
                let mut t = t;
                t.status = TaskStatus::Completed;
                t.progress = String::from_str("100%");
                t.file_path = path;
                t.file_url = url;
                task_insert(&mut self.tasks, key, t.duplicate());
                Some(t)
            },
            None => None,
        }
    }

    /// Records a failed job: a downloading task is marked failed with the
    /// reason, and any cache entry of the resource is dropped. The caller removes the
    /// task after a short grace period with `remove_task`.
    pub fn fail_job(&mut self, video_id: &str, k: MediaKind, reason: FailReason)
        ensures
            ({
                let key = crate::crypto::job_key_of(video_id@, crate::media::kind_name(k));
                let ck = cache_key_of(video_id@, crate::media::kind_name(k));
                let moves = old(self).task_view().dom().contains(key) && advances(
                    old(self).task_view()[key].status,
                    TaskStatus::Failed,
                );
                &&& final(self).cache_view() == old(self).cache_view().remove(ck)
                &&& moves ==> {
                    let t = final(self).task_view()[key];
                    &&& final(self).task_view() == old(self).task_view().insert(key, t)
                    &&& t.status == TaskStatus::Failed
                    &&& t.error@ == fail_message(reason)
                    &&& t.id == old(self).task_view()[key].id
                    &&& t.url == old(self).task_view()[key].url
                    &&& t.created_at == old(self).task_view()[key].created_at
                }
                &&& !moves ==> final(self).task_view() == old(self).task_view()
            }),
            final(self).challenge_view() == old(self).challenge_view(),
            final(self).session_view() == old(self).session_view(),
            settings_kept(*old(self), *final(self)),
    {
        let key = crate::crypto::job_key(video_id, k.name());
        match task_get(&self.tasks, key.as_str()) {
            Some(t) => {
                if t.status.may_advance_to(TaskStatus::Failed) {
                    let mut t = t;
                    t.status = TaskStatus::Failed;
                    t.error = String::from_str(reason.message());
                    task_insert(&mut self.tasks, key, t);
                }
            },
            None => {},
        }
        let ck = cache_key(video_id, k.name());
        cache_remove(&mut self.cache, ck.as_str());
    }

    /// Removes the task under `task_id`.
    pub fn remove_task(&mut self, task_id: &str)
        ensures
            final(self).task_view() == old(self).task_view().remove(task_id@),
            final(self).cache_view() == old(self).cache_view(),
            final(self).challenge_view() == old(self).challenge_view(),
            final(self).session_view() == old(self).session_view(),
            settings_kept(*old(self), *final(self)),
    {
        task_remove(&mut self.tasks, task_id);
    }
}

} // verus!
