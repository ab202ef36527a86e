//! The proof-of-work gate and the job-start decision.

use vstd::prelude::*;
use crate::crypto::{
    cache_key, cache_key_of, fingerprint_text, generate_challenge, generate_session_token,
    get_client_identifier, job_key, job_key_of, sha256_hex, solves, verify_pow,
};
use crate::media::{kind_of, MediaKind};
use crate::models::{
    is_valid_apikey, listed, ChallengeRequest, ChallengeResponse, DownloadQuery,
    PowChallenge, PowSession, Task, TaskStatus, VerifyRequest,
};
use crate::resource::{extract_video_id, resolve_id};
use crate::store::{
    settings_kept, cache_get, cache_remove, challenge_get, challenge_insert, challenge_remove, session_get,
    session_insert, task_get, task_insert, AppState,
};
use crate::text::{base_name, decimal, file_name};

verus! {

broadcast use crate::store::group_state_views;

/// Why an answer to a challenge was refused.
#[derive(Clone, Copy, Debug, PartialEq, Eq, Structural)]
pub enum VerifyError {
    /// No live challenge for this client and job.
    ChallengeNotFound,
    /// The nonce does not meet the challenge's difficulty.
    InvalidProof,
    /// The link names no resource.
    InvalidUrl,
}

/// Why a challenge was refused.
#[derive(Clone, Copy, Debug, PartialEq, Eq, Structural)]
pub enum ChallengeError {
    /// The media kind is not one of audio, video, merge.
    InvalidMediaType,
    /// The link names no resource.
    InvalidUrl,
}

/// What a session token does for a request.
#[derive(Clone, Copy, Debug, PartialEq, Eq, Structural)]
pub enum Authorization {
    Granted,
    /// No token, or no session under it.
    ChallengeRequired,
    /// A session exists but is bound to another job or requester.
    Forbidden,
}

/// The answer to a job-start or poll request.
pub enum JobResponse {
    /// The media kind is not one of audio, video, merge.
    InvalidMediaType,
    /// The link names no resource.
    InvalidUrl,
    /// A proof of work is needed first.
    ChallengeRequired,
    /// The session presented does not authorize this job for this requester.
    Forbidden,
    /// The result is cached; here is its public reference.
    Cached { file_url: String },
    /// A job for this key is already registered; here is its state.
    Existing(Task),
    /// A new job was registered and should be started.
    Started(Task),
}

/// The fingerprint of a requester asking about `url` and `kind`.
pub open spec fn fingerprint_of(
    ip: Seq<char>,
    user_agent: Seq<char>,
    url: Seq<char>,
    kind: Seq<char>,
) -> Seq<char> {
    sha256_hex(fingerprint_text(ip, user_agent, url, kind))
}

/// Whether a session authorizes `task` for this address and user agent.
pub open spec fn binds(s: PowSession, task: Seq<char>, ip: Seq<char>, user_agent: Seq<char>) -> bool {
    s.task_id@ == task && s.ip@ == ip && s.user_agent@ == user_agent
}

/// What a token does for a request on `task` from `ip` and `user_agent`.
pub open spec fn authorization_of(
    sessions: Map<Seq<char>, PowSession>,
    token: Option<Seq<char>>,
    task: Seq<char>,
    ip: Seq<char>,
    user_agent: Seq<char>,
) -> Authorization {
    match token {
        None => Authorization::ChallengeRequired,
        Some(t) => if !sessions.dom().contains(t) {
            Authorization::ChallengeRequired
        } else if binds(sessions[t], task, ip, user_agent) {
            Authorization::Granted
        } else {
            Authorization::Forbidden
        },
    }
}

/// `a` and `b` hold the same tables.
pub open spec fn same_tables(a: AppState, b: AppState) -> bool {
    &&& a.cache_view() == b.cache_view()
    &&& a.task_view() == b.task_view()
    &&& a.challenge_view() == b.challenge_view()
    &&& a.session_view() == b.session_view()
}

/// The public reference of a result file.
pub open spec fn file_url_of(path: Seq<char>) -> Seq<char> {
    "/files/"@ + base_name(path)
}

/// What answering a challenge does: `s0` before, `s1` after, `r` returned.
pub open spec fn answer_post(
    s0: AppState,
    s1: AppState,
    req: VerifyRequest,
    ip: Seq<char>,
    user_agent: Seq<char>,
    now: i64,
    r: Result<String, VerifyError>,
) -> bool {
    let fp = fingerprint_of(ip, user_agent, req.url@, req.media_type@);
    let ch = s0.challenge_view().get(fp);
    &&& (r == Err::<String, VerifyError>(VerifyError::ChallengeNotFound) <==> ch is None)
    &&& (r == Err::<String, VerifyError>(VerifyError::InvalidProof) <==> ch is Some && !solves(
        ch->0.challenge@,
        req.nonce@,
        ch->0.difficulty as nat,
    ))
    &&& (r == Err::<String, VerifyError>(VerifyError::InvalidUrl) <==> ch is Some && solves(
        ch->0.challenge@,
        req.nonce@,
        ch->0.difficulty as nat,
    ) && resolve_id(req.url@) is None)
    &&& (r is Err ==> same_tables(s0, s1))
    &&& settings_kept(s0, s1)
    &&& match r {
        Ok(token) => {
            let task = job_key_of(resolve_id(req.url@)->0, req.media_type@);
            &&& s1.challenge_view() == s0.challenge_view().remove(fp)
            &&& s1.session_view() == s0.session_view().insert(token@, s1.session_view()[token@])
            &&& binds(s1.session_view()[token@], task, ip, user_agent)
            &&& s1.session_view()[token@].timestamp == now
            &&& s1.cache_view() == s0.cache_view()
            &&& s1.task_view() == s0.task_view()
        },
        Err(_) => true,
    }
}

/// What a job-start or poll request does: `s0` before, `s1` after, `r` returned.
pub open spec fn start_post(
    s0: AppState,
    s1: AppState,
    q: DownloadQuery,
    ip: Seq<char>,
    user_agent: Seq<char>,
    token: Option<Seq<char>>,
    keys: Seq<String>,
    cached_file_exists: bool,
    now: i64,
    r: JobResponse,
) -> bool {
    let kind = kind_of(q.media_type@);
    let id = resolve_id(q.url@);
    let key = job_key_of(id->0, q.media_type@);
    let ck = cache_key_of(id->0, q.media_type@);
    let premium = q.apikey is Some && listed(keys, q.apikey->0@);
    let auth = authorization_of(s0.session_view(), token, key, ip, user_agent);
    let hit = s0.cache_view().get(ck);
    &&& s1.challenge_view() == s0.challenge_view()
    &&& s1.session_view() == s0.session_view()
    &&& settings_kept(s0, s1)
    &&& if kind is None {
        r is InvalidMediaType && same_tables(s0, s1)
    } else if id is None {
        r is InvalidUrl && same_tables(s0, s1)
    } else if !premium && auth == Authorization::ChallengeRequired {
        r is ChallengeRequired && same_tables(s0, s1)
    } else if !premium && auth == Authorization::Forbidden {
        r is Forbidden && same_tables(s0, s1)
    } else if hit is Some && cached_file_exists {
        &&& r matches JobResponse::Cached { file_url } && file_url@ == file_url_of(
            hit->0.file_path@,
        )
        &&& same_tables(s0, s1)
    } else {
        &&& s1.cache_view() == s0.cache_view().remove(ck)
        &&& if s0.task_view().dom().contains(key) {
            r == JobResponse::Existing(s0.task_view()[key]) && s1.task_view() == s0.task_view()
        } else {
            r matches JobResponse::Started(t) && s1.task_view() == s0.task_view().insert(key, t)
                && t.id@ == key && t.url@ == q.url@ && t.media_type == kind->0 && t.status
                == TaskStatus::Downloading && t.progress@ == "50%"@ && t.file_path@.len() == 0
                && t.file_url@.len() == 0 && t.created_at == now && t.error@.len() == 0
        }
    }
}

/// An answer that meets the stored challenge's difficulty is accepted once,
/// and the same answer given again finds no challenge: the first acceptance
/// consumed it.
pub proof fn lemma_answer_single_use(
    s0: AppState,
    s1: AppState,
    s2: AppState,
    req: VerifyRequest,
    ip: Seq<char>,
    user_agent: Seq<char>,
    now1: i64,
    now2: i64,
    r1: Result<String, VerifyError>,
    r2: Result<String, VerifyError>,
)
    requires
        s0.challenge_view().dom().contains(fingerprint_of(ip, user_agent, req.url@, req.media_type@)),
        ({
            let c = s0.challenge_view()[fingerprint_of(ip, user_agent, req.url@, req.media_type@)];
            solves(c.challenge@, req.nonce@, c.difficulty as nat)
        }),
        resolve_id(req.url@) is Some,
        answer_post(s0, s1, req, ip, user_agent, now1, r1),
        answer_post(s1, s2, req, ip, user_agent, now2, r2),
    ensures
        r1 is Ok,
        r2 == Err::<String, VerifyError>(VerifyError::ChallengeNotFound),
{
    let fp = fingerprint_of(ip, user_agent, req.url@, req.media_type@);
    match r1 {
        Err(e) => {
            match e {
                VerifyError::ChallengeNotFound => {},
                VerifyError::InvalidProof => {},
                VerifyError::InvalidUrl => {},
            }
        },
        Ok(_) => {},
    }
    assert(!s1.challenge_view().dom().contains(fp));
}

/// An answer that misses the difficulty is refused and changes nothing:
/// the challenge stays for another attempt.
pub proof fn lemma_wrong_answer_keeps_state(
    s0: AppState,
    s1: AppState,
    req: VerifyRequest,
    ip: Seq<char>,
    user_agent: Seq<char>,
    now: i64,
    r: Result<String, VerifyError>,
)
    requires
        s0.challenge_view().dom().contains(fingerprint_of(ip, user_agent, req.url@, req.media_type@)),
        ({
            let c = s0.challenge_view()[fingerprint_of(ip, user_agent, req.url@, req.media_type@)];
            !solves(c.challenge@, req.nonce@, c.difficulty as nat)
        }),
        answer_post(s0, s1, req, ip, user_agent, now, r),
    ensures
        r == Err::<String, VerifyError>(VerifyError::InvalidProof),
        same_tables(s0, s1),
        s1.challenge_view().dom().contains(fingerprint_of(ip, user_agent, req.url@, req.media_type@)),
{
}

/// Single flight: once a request has registered a job, the same request
/// again attaches to that job: it gets the very task back and no second
/// task is registered.
pub proof fn lemma_single_flight(
    s0: AppState,
    s1: AppState,
    s2: AppState,
    q: DownloadQuery,
    ip: Seq<char>,
    user_agent: Seq<char>,
    token: Option<Seq<char>>,
    keys: Seq<String>,
    file_exists1: bool,
    file_exists2: bool,
    now1: i64,
    now2: i64,
    r1: JobResponse,
    r2: JobResponse,
)
    requires
        start_post(s0, s1, q, ip, user_agent, token, keys, file_exists1, now1, r1),
        start_post(s1, s2, q, ip, user_agent, token, keys, file_exists2, now2, r2),
        r1 is Started,
    ensures
        r1 matches JobResponse::Started(t) && r2 == JobResponse::Existing(t),
        s2.task_view() == s1.task_view(),
        s2.cache_view() == s1.cache_view(),
{
    let id = resolve_id(q.url@);
    let ck = cache_key_of(id->0, q.media_type@);
    assert(!s1.cache_view().dom().contains(ck));
    assert(s1.cache_view().remove(ck) =~= s1.cache_view());
}

impl AppState {
    /// Issues a fresh challenge to a requester, replacing any earlier one
    /// of the same fingerprint. A request whose kind or link is malformed is
    /// refused and changes nothing.
    pub fn issue_challenge(
        &mut self,
        req: &ChallengeRequest,
        ip: &str,
        user_agent: &str,
        difficulty: usize,
        now: i64,
    ) -> (r: Result<ChallengeResponse, ChallengeError>)
        ensures
            kind_of(req.media_type@) is None ==> r == Err::<ChallengeResponse, ChallengeError>(
                ChallengeError::InvalidMediaType,
            ),
            kind_of(req.media_type@) is Some && resolve_id(req.url@) is None ==> r == Err::<
                ChallengeResponse,
                ChallengeError,
            >(ChallengeError::InvalidUrl),
            r is Err ==> same_tables(*old(self), *final(self)),
            kind_of(req.media_type@) is Some && resolve_id(req.url@) is Some ==> (r matches Ok(
                resp,
            ) && {
                let fp = fingerprint_of(ip@, user_agent@, req.url@, req.media_type@);
                let c = final(self).challenge_view()[fp];
                &&& resp.difficulty == difficulty
                &&& resp.challenge@.len() == 64
                &&& exists|u: Seq<char>, t: nat|
                    u.len() == 36 && resp.challenge@ == sha256_hex(u + decimal(t))
                &&& final(self).challenge_view() == old(self).challenge_view().insert(fp, c)
                &&& c.challenge@ == resp.challenge@
                &&& c.url@ == req.url@
                &&& c.media_type@ == req.media_type@
                &&& c.difficulty == difficulty
                &&& c.timestamp == now
                &&& final(self).cache_view() == old(self).cache_view()
                &&& final(self).task_view() == old(self).task_view()
                &&& final(self).session_view() == old(self).session_view()
            }),
            settings_kept(*old(self), *final(self)),
    {
        if MediaKind::parse(req.media_type.as_str()).is_none() {
            return Err(ChallengeError::InvalidMediaType);
        }
        if extract_video_id(req.url.as_str()).is_err() {
            return Err(ChallengeError::InvalidUrl);
        }
        let fp = get_client_identifier(ip, user_agent, req.url.as_str(), req.media_type.as_str());
        let challenge = generate_challenge();
        let stored = PowChallenge {
            challenge: challenge.clone(),
            url: req.url.clone(),
            media_type: req.media_type.clone(),
            difficulty,
            timestamp: now,
        };
        challenge_insert(&mut self.pow_challenges, fp, stored);
        Ok(ChallengeResponse { challenge, difficulty })
    }

    /// Checks an answer to the requester's challenge. On success the
    /// challenge is consumed and a session bound to the job, the address and
    /// the user agent is opened; its token is returned. On failure nothing
    /// changes.
    pub fn verify_answer(&mut self, req: &VerifyRequest, ip: &str, user_agent: &str, now: i64) -> (r: Result<String, VerifyError>)
        ensures
            answer_post(*old(self), *final(self), *req, ip@, user_agent@, now, r),
    {
        let fp = get_client_identifier(ip, user_agent, req.url.as_str(), req.media_type.as_str());
        let ch = match challenge_get(&self.pow_challenges, fp.as_str()) {
            Some(c) => c,
            None => {
                return Err(VerifyError::ChallengeNotFound);
            },
        };
        if !verify_pow(ch.challenge.as_str(), req.nonce.as_str(), ch.difficulty) {
            return Err(VerifyError::InvalidProof);
        }
        let id = match extract_video_id(req.url.as_str()) {
            Ok(id) => id,
            Err(_) => {
                return Err(VerifyError::InvalidUrl);
            },
        };
        let task_id = job_key(id.as_str(), req.media_type.as_str());
        let token = generate_session_token(task_id.as_str(), ip, user_agent);
        let session = PowSession {
            task_id,
            ip: String::from_str(ip),
            user_agent: String::from_str(user_agent),
            timestamp: now,
        };
        session_insert(&mut self.pow_sessions, token.clone(), session);
        challenge_remove(&mut self.pow_challenges, fp.as_str());
        Ok(token)
    }

    /// What a session token does for a request on `task_id`.
    pub fn authorize_session(&self, token: Option<&str>, task_id: &str, ip: &str, user_agent: &str) -> (r: Authorization)
        ensures
            r == authorization_of(
                self.session_view(),
                match token {
                    Some(t) => Some(t@),
                    None => None,
                },
                task_id@,
                ip@,
                user_agent@,
            ),
    {
        match token {
            None => Authorization::ChallengeRequired,
            Some(t) => match session_get(&self.pow_sessions, t) {
                None => Authorization::ChallengeRequired,
                Some(s) => {
                    if crate::text::same_text(s.task_id.as_str(), task_id) && crate::text::same_text(
                        s.ip.as_str(),
                        ip,
                    ) && crate::text::same_text(s.user_agent.as_str(), user_agent) {
                        Authorization::Granted
                    } else {
                        Authorization::Forbidden
                    }
                },
            },
        }
    }

    /// The cached file path for a request, if its result is cached: the
    /// caller checks that the file is still there and says so to `start_job`.
    pub fn cached_path(&self, q: &DownloadQuery) -> (r: Option<String>)
        ensures
            match r {
                Some(p) => {
                    &&& kind_of(q.media_type@) is Some
                    &&& resolve_id(q.url@) is Some
                    &&& self.cache_view().get(cache_key_of(resolve_id(q.url@)->0, q.media_type@))
                        matches Some(e) && e.file_path@ == p@
                },
                None => kind_of(q.media_type@) is None || resolve_id(q.url@) is None
                    || !self.cache_view().dom().contains(
                    cache_key_of(resolve_id(q.url@)->0, q.media_type@),
                ),
            },
    {
        if MediaKind::parse(q.media_type.as_str()).is_none() {
            return None;
        }
        let id = match extract_video_id(q.url.as_str()) {
            Ok(id) => id,
            Err(_) => {
                return None;
            },
        };
        let ck = cache_key(id.as_str(), q.media_type.as_str());
        match cache_get(&self.cache, ck.as_str()) {
            Some(e) => Some(e.file_path),
            None => None,
        }
    }

    /// Starts or joins the job a download request names, once the request
    /// is well formed and cleared by an API key or a session. A cached
    /// result is returned while its file exists (`cached_file_exists`);
    /// otherwise its entry is dropped.
    pub fn start_job(
        &mut self,
        q: &DownloadQuery,
        ip: &str,
        user_agent: &str,
        session_token: Option<&str>,
        valid_apikeys: &Vec<String>,
        cached_file_exists: bool,
        now: i64,
    ) -> (r: JobResponse)
        ensures
            start_post(
                *old(self),
                *final(self),
                *q,
                ip@,
                user_agent@,
                match session_token {
                    Some(t) => Some(t@),
                    None => None,
                },
                valid_apikeys@,
                cached_file_exists,
                now,
                r,
            ),
    {
        let kind = match MediaKind::parse(q.media_type.as_str()) {
            Some(k) => k,
            None => {
                return JobResponse::InvalidMediaType;
            },
        };
        let id = match extract_video_id(q.url.as_str()) {
            Ok(id) => id,
            Err(_) => {
                return JobResponse::InvalidUrl;
            },
        };
        let premium = match &q.apikey {
            Some(k) => is_valid_apikey(k.as_str(), valid_apikeys),
            None => false,
        };
        let task_id = job_key(id.as_str(), q.media_type.as_str());
        if !premium {
            match self.authorize_session(session_token, task_id.as_str(), ip, user_agent) {
                Authorization::Granted => {},
                Authorization::ChallengeRequired => {
                    return JobResponse::ChallengeRequired;
                },
                Authorization::Forbidden => {
                    return JobResponse::Forbidden;
                },
            }
        }
        let ck = cache_key(id.as_str(), q.media_type.as_str());
        match cache_get(&self.cache, ck.as_str()) {
            Some(e) => {
                if cached_file_exists {
                    let mut url = String::from_str("/files/");
                    url.append(file_name(e.file_path.as_str()).as_str());
                    return JobResponse::Cached { file_url: url };
                }
                cache_remove(&mut self.cache, ck.as_str());
            },
            None => {
                proof {
                    assert(self.cache_view().remove(ck@) =~= self.cache_view());
                }
            },
        }
        match task_get(&self.tasks, task_id.as_str()) {
            Some(t) => {
                return JobResponse::Existing(t);
            },
            None => {},
        }
        let task = Task {
            id: task_id.clone(),
            url: q.url.clone(),
            media_type: kind,
            status: TaskStatus::Downloading,
            progress: String::from_str("50%"),
            file_path: String::new(),
            file_url: String::new(),
            created_at: now,
            error: String::new(),
        };
        task_insert(&mut self.tasks, task_id, task.duplicate());
        JobResponse::Started(task)
    }
}

} // verus!
