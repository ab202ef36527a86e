//! Laws that relate the orchestrator's bookkeeping to the job-start decision.

use vstd::prelude::*;
use crate::crypto::{cache_key_of, job_key_of};
use crate::gate::{authorization_of, file_url_of, start_post, Authorization, JobResponse};
use crate::media::{kind_name, kind_of, MediaKind};
use crate::models::{listed, DownloadQuery, Task};
use crate::orchestrator::{complete_post, output_path_of};
use crate::resource::resolve_id;
use crate::store::AppState;
use crate::text::{has_char, lemma_base_name_after_slash};

verus! {

/// Cache round trip: after a job for a resource completes, an authorized
/// request for the same resource and kind is answered from the cache while
/// the result file exists; once the file is gone, the request drops the
/// stale entry and is treated as a miss. When the result's file name holds
/// no slash, the cached reference is the one the completed task records.
pub proof fn lemma_cache_round_trip(
    s0: AppState,
    s1: AppState,
    s2: AppState,
    video_id: Seq<char>,
    k: MediaKind,
    dir: Seq<char>,
    name: Seq<char>,
    ext: Seq<char>,
    now: i64,
    done: Option<Task>,
    q: DownloadQuery,
    ip: Seq<char>,
    user_agent: Seq<char>,
    token: Option<Seq<char>>,
    keys: Seq<String>,
    file_exists: bool,
    now2: i64,
    r: JobResponse,
)
    requires
        complete_post(s0, s1, video_id, k, dir, name, ext, now, done),
        kind_of(q.media_type@) == Some(k),
        resolve_id(q.url@) == Some(video_id),
        (q.apikey is Some && listed(keys, q.apikey->0@)) || authorization_of(
            s1.session_view(),
            token,
            job_key_of(video_id, kind_name(k)),
            ip,
            user_agent,
        ) == Authorization::Granted,
        start_post(s1, s2, q, ip, user_agent, token, keys, file_exists, now2, r),
    ensures
        file_exists ==> (r matches JobResponse::Cached { file_url } && file_url@ == file_url_of(
            output_path_of(dir, name, ext),
        )),
        file_exists ==> s2.cache_view() == s1.cache_view(),
        !file_exists ==> !s2.cache_view().dom().contains(cache_key_of(video_id, kind_name(k))),
        !has_char(name + ext, '/') ==> file_url_of(output_path_of(dir, name, ext)) == "/files/"@
            + name + ext,
        done matches Some(t) ==> t.file_url@ == "/files/"@ + name + ext,
{
    if !has_char(name + ext, '/') {
        reveal_strlit("/");
        assert(output_path_of(dir, name, ext) =~= dir + seq!['/'] + (name + ext));
        lemma_base_name_after_slash(dir, name + ext);
        assert(file_url_of(output_path_of(dir, name, ext)) =~= "/files/"@ + name + ext);
    }
    assert(q.media_type@ == kind_name(k));
    let ck = cache_key_of(video_id, kind_name(k));
    assert(s1.cache_view().dom().contains(ck));
}

} // verus!
