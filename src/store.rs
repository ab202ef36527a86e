//! The shared tables: result cache, task registry, outstanding challenges
//! and sessions, each a concurrent map keyed by text.

use vstd::prelude::*;
use dashmap::DashMap;
use crate::models::{CacheEntry, PowChallenge, PowSession, Task, TaskStatus};

verus! {

#[verifier::external_type_specification]
#[verifier::external_body]
#[verifier::reject_recursive_types(K)]
#[verifier::reject_recursive_types(V)]
#[verifier::reject_recursive_types(S)]
pub struct ExDashMap<K, V, S>(DashMap<K, V, S>);

/// The result cache's map.
pub type CacheMap = DashMap<String, CacheEntry>;

/// The task registry's map.
pub type TaskMap = DashMap<String, Task>;

/// The challenge table's map.
pub type ChallengeMap = DashMap<String, PowChallenge>;

/// The session table's map.
pub type SessionMap = DashMap<String, PowSession>;

/// What the result cache holds, by key.
pub uninterp spec fn cache_contents(m: CacheMap) -> Map<Seq<char>, CacheEntry>;

/// What the task registry holds, by job key.
pub uninterp spec fn task_contents(m: TaskMap) -> Map<Seq<char>, Task>;

/// What the challenge table holds, by client fingerprint.
pub uninterp spec fn challenge_contents(m: ChallengeMap) -> Map<Seq<char>, PowChallenge>;

/// What the session table holds, by session token.
pub uninterp spec fn session_contents(m: SessionMap) -> Map<Seq<char>, PowSession>;

/// Relies on dashmap::DashMap::new: a map with no entries.
#[verifier::external_body]
pub(crate) fn new_cache_map() -> (r: CacheMap)
    ensures
        cache_contents(r).dom().is_empty(),
{
    DashMap::new()
}

/// Relies on dashmap::DashMap::new: a map with no entries.
#[verifier::external_body]
pub(crate) fn new_task_map() -> (r: TaskMap)
    ensures
        task_contents(r).dom().is_empty(),
{
    DashMap::new()
}

/// Relies on dashmap::DashMap::new: a map with no entries.
#[verifier::external_body]
pub(crate) fn new_challenge_map() -> (r: ChallengeMap)
    ensures
        challenge_contents(r).dom().is_empty(),
{
    DashMap::new()
}

/// Relies on dashmap::DashMap::new: a map with no entries.
#[verifier::external_body]
pub(crate) fn new_session_map() -> (r: SessionMap)
    ensures
        session_contents(r).dom().is_empty(),
{
    DashMap::new()
}

/// Relies on dashmap::DashMap::get: the value stored under `k`, if any,
/// copied out of the guard.
#[verifier::external_body]
pub(crate) fn cache_get(m: &CacheMap, k: &str) -> (r: Option<CacheEntry>)
    ensures
        r == cache_contents(*m).get(k@),
{
    m.get(k).map(|e| e.duplicate())
}

/// Relies on dashmap::DashMap::insert: `k` maps to `v` afterwards, the
/// other entries are kept.
#[verifier::external_body]
pub(crate) fn cache_insert(m: &mut CacheMap, k: String, v: CacheEntry)
    ensures
        cache_contents(*final(m)) == cache_contents(*old(m)).insert(k@, v),
{
    m.insert(k, v);
}

/// Relies on dashmap::DashMap::remove: `k` has no entry afterwards, the
/// other entries are kept.
#[verifier::external_body]
pub(crate) fn cache_remove(m: &mut CacheMap, k: &str)
    ensures
        cache_contents(*final(m)) == cache_contents(*old(m)).remove(k@),
{
    m.remove(k);
}

/// Relies on dashmap::DashMap::iter: every key of the map, in an
/// unspecified order.
#[verifier::external_body]
pub(crate) fn cache_keys(m: &CacheMap) -> (r: Vec<String>)
    ensures
        forall|i: int| 0 <= i < r@.len() ==> cache_contents(*m).dom().contains(#[trigger] r@[i]@),
        forall|k: Seq<char>|
            #[trigger] cache_contents(*m).dom().contains(k) ==> exists|i: int|
                0 <= i < r@.len() && (#[trigger] r@[i])@ == k,
{
    m.iter().map(|e| e.key().clone()).collect()
}

/// Relies on dashmap::DashMap::get: the value stored under `k`, if any,
/// copied out of the guard.
#[verifier::external_body]
pub(crate) fn task_get(m: &TaskMap, k: &str) -> (r: Option<Task>)
    ensures
        r == task_contents(*m).get(k@),
{
    m.get(k).map(|e| e.duplicate())
}

/// Relies on dashmap::DashMap::insert: `k` maps to `v` afterwards, the
/// other entries are kept.
#[verifier::external_body]
pub(crate) fn task_insert(m: &mut TaskMap, k: String, v: Task)
    ensures
        task_contents(*final(m)) == task_contents(*old(m)).insert(k@, v),
{
    m.insert(k, v);
}

/// Relies on dashmap::DashMap::remove: `k` has no entry afterwards, the
/// other entries are kept.
#[verifier::external_body]
pub(crate) fn task_remove(m: &mut TaskMap, k: &str)
    ensures
        task_contents(*final(m)) == task_contents(*old(m)).remove(k@),
{
    m.remove(k);
}

/// Relies on dashmap::DashMap::get: the value stored under `k`, if any,
/// copied out of the guard.
#[verifier::external_body]
pub(crate) fn challenge_get(m: &ChallengeMap, k: &str) -> (r: Option<PowChallenge>)
    ensures
        r == challenge_contents(*m).get(k@),
{
    m.get(k).map(|e| e.duplicate())
}

/// Relies on dashmap::DashMap::insert: `k` maps to `v` afterwards, the
/// other entries are kept.
#[verifier::external_body]
pub(crate) fn challenge_insert(m: &mut ChallengeMap, k: String, v: PowChallenge)
    ensures
        challenge_contents(*final(m)) == challenge_contents(*old(m)).insert(k@, v),
{
    m.insert(k, v);
}

/// Relies on dashmap::DashMap::remove: `k` has no entry afterwards, the
/// other entries are kept.
#[verifier::external_body]
pub(crate) fn challenge_remove(m: &mut ChallengeMap, k: &str)
    ensures
        challenge_contents(*final(m)) == challenge_contents(*old(m)).remove(k@),
{
    m.remove(k);
}

/// Relies on dashmap::DashMap::retain: exactly the entries that the
/// predicate keeps stay, unchanged.
#[verifier::external_body]
pub(crate) fn challenge_retain_live(m: &mut ChallengeMap, now: i64)
    ensures
        challenge_contents(*final(m)) == challenge_contents(*old(m)).restrict(
            challenge_contents(*old(m)).dom().filter(
                |k: Seq<char>| challenge_live(challenge_contents(*old(m))[k], now),
            ),
        ),
{
    m.retain(|_, c| challenge_is_live(c, now));
}

/// Relies on dashmap::DashMap::get: the value stored under `k`, if any,
/// copied out of the guard.
#[verifier::external_body]
pub(crate) fn session_get(m: &SessionMap, k: &str) -> (r: Option<PowSession>)
    ensures
        r == session_contents(*m).get(k@),
{
    m.get(k).map(|e| e.duplicate())
}

/// Relies on dashmap::DashMap::insert: `k` maps to `v` afterwards, the
/// other entries are kept.
#[verifier::external_body]
pub(crate) fn session_insert(m: &mut SessionMap, k: String, v: PowSession)
    ensures
        session_contents(*final(m)) == session_contents(*old(m)).insert(k@, v),
{
    m.insert(k, v);
}

/// Relies on dashmap::DashMap::retain: exactly the entries that the
/// predicate keeps stay, unchanged.
#[verifier::external_body]
pub(crate) fn session_retain_live(m: &mut SessionMap, now: i64)
    ensures
        session_contents(*final(m)) == session_contents(*old(m)).restrict(
            session_contents(*old(m)).dom().filter(
                |k: Seq<char>| session_live(session_contents(*old(m))[k], now),
            ),
        ),
{
    m.retain(|_, s| session_is_live(s, now));
}

/// The shared state of the service: the four tables and the extractor's
/// settings.
pub struct AppState {
    pub(crate) cache: CacheMap,
    pub(crate) tasks: TaskMap,
    pub(crate) pow_challenges: ChallengeMap,
    pub(crate) pow_sessions: SessionMap,
    pub(crate) max_concurrent: usize,
    pub(crate) ffmpeg_path: String,
    pub(crate) ffprobe_path: String,
}

impl AppState {
    /// State with every table empty.
    pub fn new(max_concurrent: usize, ffmpeg_path: String, ffprobe_path: String) -> (r: AppState)
        ensures
            r.cache_view().dom().is_empty(),
            r.task_view().dom().is_empty(),
            r.challenge_view().dom().is_empty(),
            r.session_view().dom().is_empty(),
            r.max_concurrent() == max_concurrent,
            r.spec_ffmpeg_path() == ffmpeg_path@,
            r.spec_ffprobe_path() == ffprobe_path@,
    {
        AppState {
            cache: new_cache_map(),
            tasks: new_task_map(),
            pow_challenges: new_challenge_map(),
            pow_sessions: new_session_map(),
            max_concurrent,
            ffmpeg_path,
            ffprobe_path,
        }
    }

    /// The result cache's entries.
    pub closed spec fn cache_view(&self) -> Map<Seq<char>, CacheEntry> {
        cache_contents(self.cache)
    }

    /// The task registry's entries.
    pub closed spec fn task_view(&self) -> Map<Seq<char>, Task> {
        task_contents(self.tasks)
    }

    /// The outstanding challenges.
    pub closed spec fn challenge_view(&self) -> Map<Seq<char>, PowChallenge> {
        challenge_contents(self.pow_challenges)
    }

    /// The live sessions.
    pub closed spec fn session_view(&self) -> Map<Seq<char>, PowSession> {
        session_contents(self.pow_sessions)
    }

    /// Concurrent fragment downloads the extractor is told to use.
    pub closed spec fn spec_max_concurrent(&self) -> usize {
        self.max_concurrent
    }

    /// Concurrent fragment downloads the extractor is told to use.
    #[verifier::when_used_as_spec(spec_max_concurrent)]
    pub fn max_concurrent(&self) -> (r: usize)
        ensures
            r == self.spec_max_concurrent(),
    {
        self.max_concurrent
    }

    /// Where the transcoder lies, empty when unknown.
    pub fn ffmpeg_path(&self) -> (r: &str)
        ensures
            r@ == self.spec_ffmpeg_path(),
    {
        self.ffmpeg_path.as_str()
    }

    /// Where the transcoder lies, empty when unknown.
    pub closed spec fn spec_ffmpeg_path(&self) -> Seq<char> {
        self.ffmpeg_path@
    }

    /// Where the media prober lies, empty when unknown.
    pub fn ffprobe_path(&self) -> (r: &str)
        ensures
            r@ == self.spec_ffprobe_path(),
    {
        self.ffprobe_path.as_str()
    }

    /// Where the media prober lies, empty when unknown.
    pub closed spec fn spec_ffprobe_path(&self) -> Seq<char> {
        self.ffprobe_path@
    }

    /// Number of registered tasks.
    pub fn task_count(&self) -> (r: usize)
        ensures
            r == self.task_view().dom().len(),
    {
        task_len(&self.tasks)
    }

    /// Number of outstanding challenges.
    pub fn challenge_count(&self) -> (r: usize)
        ensures
            r == self.challenge_view().dom().len(),
    {
        challenge_len(&self.pow_challenges)
    }

    /// Number of live sessions.
    pub fn session_count(&self) -> (r: usize)
        ensures
            r == self.session_view().dom().len(),
    {
        session_len(&self.pow_sessions)
    }

    /// The task registered under `task_id`, if any.
    pub fn get_task(&self, task_id: &str) -> (r: Option<Task>)
        ensures
            r == self.task_view().get(task_id@),
    {
        task_get(&self.tasks, task_id)
    }

    /// The challenge outstanding for a fingerprint, if any.
    pub fn get_challenge(&self, fingerprint: &str) -> (r: Option<PowChallenge>)
        ensures
            r == self.challenge_view().get(fingerprint@),
    {
        challenge_get(&self.pow_challenges, fingerprint)
    }

    /// The status of every registered task, one per task, in no set order.
    pub fn task_statuses(&self) -> (r: Vec<TaskStatus>)
        ensures
            exists|ks: Seq<Seq<char>>|
                ks.len() == r@.len() && ks.no_duplicates() && ks.to_set() == self.task_view().dom()
                    && forall|i: int| 0 <= i < ks.len() ==> r@[i] == self.task_view()[#[trigger] ks[i]].status,
    {
        task_status_list(&self.tasks)
    }

    /// Number of cached results.
    pub fn cache_len(&self) -> (r: usize)
        ensures
            r == self.cache_view().dom().len(),
    {
        cache_len(&self.cache)
    }
}

pub(crate) broadcast proof fn lemma_cache_view(s: AppState)
    ensures
        #[trigger] s.cache_view() == cache_contents(s.cache),
{
}

pub(crate) broadcast proof fn lemma_task_view(s: AppState)
    ensures
        #[trigger] s.task_view() == task_contents(s.tasks),
{
}

pub(crate) broadcast proof fn lemma_challenge_view(s: AppState)
    ensures
        #[trigger] s.challenge_view() == challenge_contents(s.pow_challenges),
{
}

pub(crate) broadcast proof fn lemma_session_view(s: AppState)
    ensures
        #[trigger] s.session_view() == session_contents(s.pow_sessions),
{
}

pub(crate) broadcast proof fn lemma_settings_fields(a: AppState, b: AppState)
    ensures
        #[trigger] settings_kept(a, b) <== (a.max_concurrent == b.max_concurrent && a.ffmpeg_path@
            == b.ffmpeg_path@ && a.ffprobe_path@ == b.ffprobe_path@),
{
}

/// The views of the state are the contents of its tables.
pub(crate) broadcast group group_state_views {
    lemma_cache_view,
    lemma_task_view,
    lemma_challenge_view,
    lemma_session_view,
    lemma_settings_fields,
}

/// `b` has the extractor settings of `a`.
pub open spec fn settings_kept(a: AppState, b: AppState) -> bool {
    &&& a.spec_max_concurrent() == b.spec_max_concurrent()
    &&& a.spec_ffmpeg_path() == b.spec_ffmpeg_path()
    &&& a.spec_ffprobe_path() == b.spec_ffprobe_path()
}

/// Relies on dashmap::DashMap::len: the number of entries.
#[verifier::external_body]
pub(crate) fn cache_len(m: &CacheMap) -> (r: usize)
    ensures
        r == cache_contents(*m).dom().len(),
{
    m.len()
}

/// Relies on dashmap::DashMap::len: the number of entries.
#[verifier::external_body]
pub(crate) fn task_len(m: &TaskMap) -> (r: usize)
    ensures
        r == task_contents(*m).dom().len(),
{
    m.len()
}

/// Relies on dashmap::DashMap::len: the number of entries.
#[verifier::external_body]
pub(crate) fn challenge_len(m: &ChallengeMap) -> (r: usize)
    ensures
        r == challenge_contents(*m).dom().len(),
{
    m.len()
}

/// Relies on dashmap::DashMap::len: the number of entries.
#[verifier::external_body]
pub(crate) fn session_len(m: &SessionMap) -> (r: usize)
    ensures
        r == session_contents(*m).dom().len(),
{
    m.len()
}

/// Relies on dashmap::DashMap::iter: it visits every entry once, in an
/// unspecified order; the status of each is read.
#[verifier::external_body]
pub(crate) fn task_status_list(m: &TaskMap) -> (r: Vec<TaskStatus>)
    ensures
        exists|ks: Seq<Seq<char>>|
            ks.len() == r@.len() && ks.no_duplicates() && ks.to_set() == task_contents(*m).dom()
                && forall|i: int| 0 <= i < ks.len() ==> r@[i] == task_contents(*m)[#[trigger] ks[i]].status,
{
    m.iter().map(|e| e.value().status).collect()
}

/// How long a challenge stays answerable, in milliseconds.
pub const CHALLENGE_TTL_MS: i64 = 300000;

/// How long a session stays valid, in milliseconds.
pub const SESSION_TTL_MS: i64 = 3600000;

/// A challenge issued at `c.timestamp` is still live at `now`.
pub open spec fn challenge_live(c: PowChallenge, now: i64) -> bool {
    (now as int) - (c.timestamp as int) < (CHALLENGE_TTL_MS as int)
}

/// A session issued at `s.timestamp` is still live at `now`.
pub open spec fn session_live(s: PowSession, now: i64) -> bool {
    (now as int) - (s.timestamp as int) < (SESSION_TTL_MS as int)
}

/// A cache entry made at `e.timestamp` has outlived `max_age` at `now`.
pub open spec fn cache_expired(e: CacheEntry, now: i64, max_age: i64) -> bool {
    (now as int) - (e.timestamp as int) > (max_age as int)
}

/// Whether a challenge is still live at `now`.
pub fn challenge_is_live(c: &PowChallenge, now: i64) -> (r: bool)
    ensures
        r == challenge_live(*c, now),
{
    (now as i128) - (c.timestamp as i128) < (CHALLENGE_TTL_MS as i128)
}

/// Whether a session is still live at `now`.
pub fn session_is_live(s: &PowSession, now: i64) -> (r: bool)
    ensures
        r == session_live(*s, now),
{
    (now as i128) - (s.timestamp as i128) < (SESSION_TTL_MS as i128)
}

/// Whether a cache entry has outlived `max_age` at `now`.
pub fn cache_is_expired(e: &CacheEntry, now: i64, max_age: i64) -> (r: bool)
    ensures
        r == cache_expired(*e, now, max_age),
{
    (now as i128) - (e.timestamp as i128) > max_age as i128
}

} // verus!
