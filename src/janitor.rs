//! The periodic sweep that expires cached results, challenges and sessions.

use vstd::prelude::*;
use crate::models::CacheEntry;
use crate::store::{
    cache_expired, cache_get, settings_kept, cache_is_expired, cache_keys, cache_remove, challenge_live,
    challenge_retain_live, session_live, session_retain_live, AppState,
};

verus! {

broadcast use crate::store::group_state_views;

/// The keys of `m` whose entries have expired at `now`.
pub open spec fn expired_keys(m: Map<Seq<char>, CacheEntry>, now: i64, max_age: i64) -> Set<
    Seq<char>,
> {
    m.dom().filter(|k: Seq<char>| cache_expired(m[k], now, max_age))
}

/// Every path of `removed` is that of an entry of `gone`.
pub open spec fn paths_from(removed: Seq<String>, gone: Set<Seq<char>>, c0: Map<Seq<char>, CacheEntry>) -> bool {
    forall|i: int| #![trigger removed[i]] 0 <= i < removed.len() ==> exists|k: Seq<char>|
        #![trigger gone.contains(k)] gone.contains(k) && c0[k].file_path@ == removed[i]@
}

/// What a sweep does: `s0` before, `s1` after, `removed` the file paths of
/// the evicted cache entries, which the caller deletes from disk.
pub open spec fn sweep_post(s0: AppState, s1: AppState, now: i64, max_age: i64, removed: Seq<String>) -> bool {
    let c0 = s0.cache_view();
    let gone = expired_keys(c0, now, max_age);
    &&& s1.cache_view() == c0.remove_keys(gone)
    &&& paths_from(removed, gone, c0)
    &&& forall|k: Seq<char>| #![trigger gone.contains(k)] gone.contains(k) ==> exists|i: int|
        #![trigger removed[i]] 0 <= i < removed.len() && c0[k].file_path@ == removed[i]@
    &&& s1.challenge_view() == s0.challenge_view().restrict(
        s0.challenge_view().dom().filter(|k: Seq<char>| challenge_live(s0.challenge_view()[k], now)),
    )
    &&& s1.session_view() == s0.session_view().restrict(
        s0.session_view().dom().filter(|k: Seq<char>| session_live(s0.session_view()[k], now)),
    )
    &&& s1.task_view() == s0.task_view()
    &&& settings_kept(s0, s1)
}

impl AppState {
    /// Evicts every cache entry older than `max_age` at `now` (returning
    /// their file paths), every challenge past its lifetime, and every
    /// session past its lifetime. Entries are taken one at a time.
    pub fn sweep(&mut self, now: i64, max_age: i64) -> (removed: Vec<String>)
        ensures
            sweep_post(*old(self), *final(self), now, max_age, removed@),
    {
        let ghost c0 = self.cache_view();
        let ghost gone = expired_keys(c0, now, max_age);
        let keys = cache_keys(&self.cache);
        let mut removed: Vec<String> = Vec::new();
        let mut i: usize = 0;
        while i < keys.len()
            invariant
                i <= keys@.len(),
                c0 == old(self).cache_view(),
                gone == expired_keys(c0, now, max_age),
                forall|j: int| 0 <= j < keys@.len() ==> c0.dom().contains(#[trigger] keys@[j]@),
                forall|k: Seq<char>| #[trigger] c0.dom().contains(k) ==> exists|j: int|
                    0 <= j < keys@.len() && (#[trigger] keys@[j])@ == k,
                self.cache_view().dom().subset_of(c0.dom()),
                forall|k: Seq<char>| #[trigger] self.cache_view().dom().contains(k) ==> self.cache_view()[k] == c0[k],
                forall|k: Seq<char>| c0.dom().contains(k) && !gone.contains(k) ==> #[trigger] self.cache_view().dom().contains(k),
                forall|j: int| 0 <= j < i ==> !self.cache_view().dom().contains(#[trigger] keys@[j]@) || !gone.contains(keys@[j]@),
                paths_from(removed@, gone, c0),
                forall|k: Seq<char>| #![trigger gone.contains(k)] gone.contains(k) && !self.cache_view().dom().contains(k) ==> exists|r: int|
                    #![trigger removed@[r]] 0 <= r < removed@.len() && c0[k].file_path@ == removed@[r]@,
                self.task_view() == old(self).task_view(),
                self.challenge_view() == old(self).challenge_view(),
                self.session_view() == old(self).session_view(),
                self.max_concurrent == old(self).max_concurrent,
                self.ffmpeg_path == old(self).ffmpeg_path,
                self.ffprobe_path == old(self).ffprobe_path,
            decreases keys@.len() - i,
        {
            let key = &keys[i];
            match cache_get(&self.cache, key.as_str()) {
                Some(e) => {
                    if cache_is_expired(&e, now, max_age) {
                        let ghost before = removed@;
                        assert(e == c0[key@]);
                        assert(gone.contains(key@));
                        cache_remove(&mut self.cache, key.as_str());
                        removed.push(e.file_path);
                        proof {
                            assert(removed@[removed@.len() - 1]@ == c0[key@].file_path@);
                            assert forall|r: int| #![trigger removed@[r]] 0 <= r < removed@.len() implies exists|kk: Seq<char>|
                                #![trigger gone.contains(kk)] gone.contains(kk) && c0[kk].file_path@ == removed@[r]@ by {
                                if r < before.len() {
                                    assert(removed@[r] == before[r]);
                                } else {
                                    assert(gone.contains(key@));
                                }
                            }
                            assert forall|kk: Seq<char>| #![trigger gone.contains(kk)] gone.contains(kk) && !self.cache_view().dom().contains(kk) implies exists|r: int|
                                #![trigger removed@[r]] 0 <= r < removed@.len() && c0[kk].file_path@ == removed@[r]@ by {
                                if kk == key@ {
                                    assert(removed@[removed@.len() - 1]@ == c0[kk].file_path@);
                                } else {
                                    let r0 = choose|r: int| #![trigger before[r]] 0 <= r < before.len() && c0[kk].file_path@ == before[r]@;
                                    assert(removed@[r0] == before[r0]);
                                }
                            }
                        }
                    }
                },
                None => {},
            }
            i = i + 1;
        }
        proof {
            assert(self.cache_view() =~= c0.remove_keys(gone)) by {
                assert forall|k: Seq<char>| gone.contains(k) implies !self.cache_view().dom().contains(k) by {
                    let j = choose|j: int| 0 <= j < keys@.len() && (#[trigger] keys@[j])@ == k;
                }
            }
        }
        let ghost ch0 = self.challenge_view();
        let ghost se0 = self.session_view();
        challenge_retain_live(&mut self.pow_challenges, now);
        session_retain_live(&mut self.pow_sessions, now);
        proof {
            assert(ch0.dom().filter(|k: Seq<char>| challenge_live(ch0[k], now)) =~= old(self).challenge_view().dom().filter(|k: Seq<char>| challenge_live(old(self).challenge_view()[k], now)));
            assert(se0.dom().filter(|k: Seq<char>| session_live(se0[k], now)) =~= old(self).session_view().dom().filter(|k: Seq<char>| session_live(old(self).session_view()[k], now)));
        }
        removed
    }
}

/// Sweeping twice with no time elapsed in between evicts nothing the
/// second time: the second sweep removes no file and leaves every table
/// as the first left it.
pub proof fn lemma_sweep_idempotent(
    s0: AppState,
    s1: AppState,
    s2: AppState,
    now: i64,
    max_age: i64,
    r1: Seq<String>,
    r2: Seq<String>,
)
    requires
        sweep_post(s0, s1, now, max_age, r1),
        sweep_post(s1, s2, now, max_age, r2),
    ensures
        r2.len() == 0,
        s2.cache_view() == s1.cache_view(),
        s2.challenge_view() == s1.challenge_view(),
        s2.session_view() == s1.session_view(),
        s2.task_view() == s1.task_view(),
{
    let c1 = s1.cache_view();
    assert(expired_keys(c1, now, max_age) =~= Set::<Seq<char>>::empty());
    assert(s2.cache_view() =~= c1);
    if r2.len() > 0 {
        let x = r2[0];
        let k = choose|k: Seq<char>| #![trigger expired_keys(c1, now, max_age).contains(k)] expired_keys(c1, now, max_age).contains(k) && c1[k].file_path@ == x@;
        assert(false);
    }
    assert(s2.challenge_view() =~= s1.challenge_view());
    assert(s2.session_view() =~= s1.session_view());
}

} // verus!
