//! Digests behind the proof-of-work gate and the job and cache keys:
//! client fingerprints, challenges, the difficulty predicate, session tokens.

use vstd::prelude::*;
use crate::text::{decimal, decimal_string, digit_char, join2};

verus! {

/// Lowercase hex SHA-256 digest of the UTF-8 encoding of a text.
pub uninterp spec fn sha256_hex(data: Seq<char>) -> Seq<char>;

/// Lowercase hex MD5 digest of the UTF-8 encoding of a text.
pub uninterp spec fn md5_hex(data: Seq<char>) -> Seq<char>;

/// Relies on sha2::Sha256::digest over the bytes of `s`, printed with
/// `{:x}`: two lowercase hex digits for each of the 32 digest bytes.
#[verifier::external_body]
fn sha256_of(s: &str) -> (r: String)
    ensures
        r@ == sha256_hex(s@),
        r@.len() == 64,
{
    format!("{:x}", <sha2::Sha256 as sha2::Digest>::digest(s.as_bytes()))
}

/// Relies on md5::compute over the bytes of `s`, printed with `{:x}`:
/// two lowercase hex digits for each of the 16 digest bytes.
#[verifier::external_body]
fn md5_of(s: &str) -> (r: String)
    ensures
        r@ == md5_hex(s@),
        r@.len() == 32,
{
    format!("{:x}", md5::compute(s.as_bytes()))
}

/// Relies on uuid::Uuid::new_v4: a fresh random identifier in its
/// hyphenated form of 36 characters.
#[verifier::external_body]
pub(crate) fn fresh_uuid() -> (r: String)
    ensures
        r@.len() == 36,
{
    uuid::Uuid::new_v4().to_string()
}

/// Relies on chrono::Utc::now: milliseconds since the Unix epoch by the
/// system clock. Nothing is promised of the value.
#[verifier::external_body]
pub(crate) fn now_millis() -> (r: i64) {
    chrono::Utc::now().timestamp_millis()
}

/// One field of a fingerprint's input: its length in characters, a colon,
/// then the field, so that no two field lists give the same text.
pub open spec fn framed(s: Seq<char>) -> Seq<char> {
    decimal(s.len()) + ":"@ + s
}

/// The text a client fingerprint digests.
pub open spec fn fingerprint_text(
    ip: Seq<char>,
    user_agent: Seq<char>,
    url: Seq<char>,
    kind: Seq<char>,
) -> Seq<char> {
    framed(ip) + framed(user_agent) + framed(url) + framed(kind)
}

proof fn lemma_decimal_has_no_colon(n: nat)
    ensures
        decimal(n).len() >= 1,
        n < 10 <==> decimal(n).len() == 1,
        forall|i: int| 0 <= i < decimal(n).len() ==> decimal(n)[i] != ':',
    decreases n,
{
    if n >= 10 {
        lemma_decimal_has_no_colon(n / 10);
        assert forall|i: int| 0 <= i < decimal(n).len() implies decimal(n)[i] != ':' by {
            if i < decimal(n / 10).len() {
                assert(decimal(n)[i] == decimal(n / 10)[i]);
            }
        }
    }
}

proof fn lemma_decimal_injective(a: nat, b: nat)
    requires
        decimal(a) == decimal(b),
    ensures
        a == b,
    decreases a,
{
    lemma_decimal_has_no_colon(a);
    lemma_decimal_has_no_colon(b);
    if a >= 10 && b >= 10 {
        let da = decimal(a);
        assert(da.drop_last() =~= decimal(a / 10));
        assert(decimal(b).drop_last() =~= decimal(b / 10));
        lemma_decimal_injective(a / 10, b / 10);
        assert(da.last() == digit_char(a % 10));
        assert(decimal(b).last() == digit_char(b % 10));
        assert(a % 10 == b % 10);
        assert(a == 10 * (a / 10) + a % 10);
        assert(b == 10 * (b / 10) + b % 10);
    } else if a < 10 && b < 10 {
        assert(decimal(a)[0] == digit_char(a));
        assert(decimal(b)[0] == digit_char(b));
    }
}

proof fn lemma_framed_split(a: Seq<char>, ra: Seq<char>, b: Seq<char>, rb: Seq<char>)
    requires
        framed(a) + ra == framed(b) + rb,
    ensures
        a == b,
        ra == rb,
{
    reveal_strlit(":");
    let x = framed(a) + ra;
    let da = decimal(a.len());
    let db = decimal(b.len());
    lemma_decimal_has_no_colon(a.len());
    lemma_decimal_has_no_colon(b.len());
    assert(x[da.len() as int] == ':');
    assert((framed(b) + rb)[db.len() as int] == ':');
    if da.len() < db.len() {
        assert((framed(b) + rb)[da.len() as int] == db[da.len() as int]);
    }
    if db.len() < da.len() {
        assert(x[db.len() as int] == da[db.len() as int]);
    }
    assert(da.len() == db.len());
    assert(da =~= x.subrange(0, da.len() as int));
    assert(db =~= (framed(b) + rb).subrange(0, db.len() as int));
    lemma_decimal_injective(a.len(), b.len());
    let start: int = da.len() as int + 1;
    assert(a =~= x.subrange(start, start + a.len()));
    assert(b =~= (framed(b) + rb).subrange(start, start + b.len()));
    assert(ra =~= x.subrange(start + a.len(), x.len() as int));
    assert(rb =~= (framed(b) + rb).subrange(start + b.len(), x.len() as int));
}

/// Framing makes the fingerprint's input unambiguous: two requests whose
/// address, user agent, link or kind differ in any way (such as `("a",
/// "bc")` against `("ab", "c")`) give different texts to digest.
pub proof fn lemma_fingerprint_text_injective(
    ip1: Seq<char>,
    ua1: Seq<char>,
    url1: Seq<char>,
    kind1: Seq<char>,
    ip2: Seq<char>,
    ua2: Seq<char>,
    url2: Seq<char>,
    kind2: Seq<char>,
)
    requires
        fingerprint_text(ip1, ua1, url1, kind1) == fingerprint_text(ip2, ua2, url2, kind2),
    ensures
        ip1 == ip2 && ua1 == ua2 && url1 == url2 && kind1 == kind2,
{
    let t1 = framed(ua1) + framed(url1) + framed(kind1);
    let t2 = framed(ua2) + framed(url2) + framed(kind2);
    assert(fingerprint_text(ip1, ua1, url1, kind1) =~= framed(ip1) + t1);
    assert(fingerprint_text(ip2, ua2, url2, kind2) =~= framed(ip2) + t2);
    lemma_framed_split(ip1, t1, ip2, t2);
    let u1 = framed(url1) + framed(kind1);
    let u2 = framed(url2) + framed(kind2);
    assert(t1 =~= framed(ua1) + u1);
    assert(t2 =~= framed(ua2) + u2);
    lemma_framed_split(ua1, u1, ua2, u2);
    lemma_framed_split(url1, framed(kind1), url2, framed(kind2));
    assert(framed(kind1) =~= framed(kind1) + Seq::<char>::empty());
    assert(framed(kind2) =~= framed(kind2) + Seq::<char>::empty());
    lemma_framed_split(kind1, Seq::<char>::empty(), kind2, Seq::<char>::empty());
}

/// Whether the hex digest `h` starts with at least `d` zero characters.
pub open spec fn meets_difficulty(h: Seq<char>, d: nat) -> bool {
    d <= h.len() && forall|i: int| 0 <= i < d ==> h[i] == '0'
}

/// Whether `nonce` solves `challenge` at difficulty `d`.
pub open spec fn solves(challenge: Seq<char>, nonce: Seq<char>, d: nat) -> bool {
    meets_difficulty(sha256_hex(challenge + nonce), d)
}

/// The key of a job: resource identifier, underscore, kind name.
pub open spec fn job_key_of(id: Seq<char>, kind: Seq<char>) -> Seq<char> {
    id + "_"@ + kind
}

/// The key of a cached result: the MD5 digest of the job key.
pub open spec fn cache_key_of(id: Seq<char>, kind: Seq<char>) -> Seq<char> {
    md5_hex(job_key_of(id, kind))
}

fn frame(s: &str) -> (r: String)
    ensures
        r@ == framed(s@),
{
    let n = s.unicode_len();
    let mut r = decimal_string(n as u64);
    r.append(":");
    r.append(s);
    r
}

/// A stable one-way identity for a requester and the job it asks about.
pub fn get_client_identifier(ip: &str, user_agent: &str, url: &str, media_type: &str) -> (r:
    String)
    ensures
        r@ == sha256_hex(fingerprint_text(ip@, user_agent@, url@, media_type@)),
        r@.len() == 64,
{
    let mut text = frame(ip);
    text.append(frame(user_agent).as_str());
    text.append(frame(url).as_str());
    text.append(frame(media_type).as_str());
    sha256_of(text.as_str())
}

/// Whether the digest of `challenge` followed by `nonce` has at least
/// `difficulty` leading zero characters.
pub fn verify_pow(challenge: &str, nonce: &str, difficulty: usize) -> (r: bool)
    ensures
        r == solves(challenge@, nonce@, difficulty as nat),
        difficulty > 64 ==> !r,
{
    let joined = join2(challenge, nonce);
    let hash = sha256_of(joined.as_str());
    let h = hash.as_str();
    if difficulty > 64 {
        return false;
    }
    let mut i: usize = 0;
    while i < difficulty
        invariant
            h@ == sha256_hex(challenge@ + nonce@),
            h@.len() == 64,
            difficulty <= 64,
            i <= difficulty,
            forall|j: int| 0 <= j < i ==> h@[j] == '0',
        decreases difficulty - i,
    {
        if h.get_char(i) != '0' {
            return false;
        }
        i = i + 1;
    }
    true
}

/// A fresh, unpredictable challenge: the digest of a random identifier
/// followed by the current time.
pub fn generate_challenge() -> (r: String)
    ensures
        exists|u: Seq<char>, t: nat| u.len() == 36 && r@ == sha256_hex(u + decimal(t)),
        r@.len() == 64,
{
    let mut text = fresh_uuid();
    let now = now_millis();
    let stamp: u64 = if now < 0 { 0 } else { now as u64 };
    text.append(decimal_string(stamp).as_str());
    sha256_of(text.as_str())
}

/// An unpredictable session token bound to a job and a requester: the
/// digest of the job key, address, user agent and the current time.
pub fn generate_session_token(task_id: &str, ip: &str, user_agent: &str) -> (r: String)
    ensures
        exists|t: nat| r@ == sha256_hex(task_id@ + ip@ + user_agent@ + decimal(t)),
        r@.len() == 64,
{
    let mut text = join2(task_id, ip);
    text.append(user_agent);
    let now = now_millis();
    let stamp: u64 = if now < 0 { 0 } else { now as u64 };
    text.append(decimal_string(stamp).as_str());
    sha256_of(text.as_str())
}

/// The job key of a resource and kind.
pub fn job_key(id: &str, kind: &str) -> (r: String)
    ensures
        r@ == job_key_of(id@, kind@),
{
    let mut s = join2(id, "_");
    s.append(kind);
    s
}

/// The cache key of a resource and kind.
pub fn cache_key(id: &str, kind: &str) -> (r: String)
    ensures
        r@ == cache_key_of(id@, kind@),
        r@.len() == 32,
{
    let j = job_key(id, kind);
    md5_of(j.as_str())
}

} // verus!
