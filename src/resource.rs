//! Resolution of a resource identifier from a link or a bare identifier.
//!
//! A link is recognised by one of a fixed set of host-and-path prefixes,
//! searched for anywhere in the text, leftmost first; the identifier is the
//! run of 10 to 12 identifier characters that follows it (the longest such
//! run, capped at 12).

use vstd::prelude::*;
use vstd::utf8::encode_utf8;
use crate::text::{contains_char, has_char};

verus! {

/// Characters an identifier is made of.
pub open spec fn is_id_char(c: char) -> bool {
    ('a' <= c && c <= 'z') || ('A' <= c && c <= 'Z') || ('0' <= c && c <= '9') || c == '_'
        || c == '-'
}

/// Number of consecutive identifier characters of `s` from `from`, at most `limit`.
pub open spec fn id_run(s: Seq<char>, from: int, limit: nat) -> nat
    decreases limit,
{
    if limit == 0 || from < 0 || from >= s.len() || !is_id_char(s[from]) {
        0
    } else {
        1 + id_run(s, from + 1, (limit - 1) as nat)
    }
}

/// The link prefixes, in the order they are tried at one position.
pub open spec fn link_prefixes() -> Seq<Seq<char>> {
    seq![
        "youtube.com/watch?v="@,
        "youtube.com/shorts/"@,
        "youtube.com/embed/"@,
        "youtube.com/v/"@,
        "youtu.be/"@,
        "music.youtube.com/watch?v="@,
        "googleusercontent.com/youtube.com/0"@,
        "googleusercontent.com/youtube.com/1"@,
        "googleusercontent.com/youtube.com/2"@,
    ]
}

/// Whether `pre` occurs in `s` at position `p`.
pub open spec fn occurs_at(s: Seq<char>, p: int, pre: Seq<char>) -> bool {
    0 <= p && p + pre.len() <= s.len() && s.subrange(p, p + pre.len()) == pre
}

/// The identifier found right after prefix number `k` or a later one at `p`.
pub open spec fn id_at_from(s: Seq<char>, p: int, k: nat) -> Option<Seq<char>>
    decreases link_prefixes().len() - k,
{
    if k >= link_prefixes().len() {
        None
    } else {
        let e = p + link_prefixes()[k as int].len();
        if occurs_at(s, p, link_prefixes()[k as int]) && id_run(s, e, 12) >= 10 {
            Some(s.subrange(e, e + id_run(s, e, 12)))
        } else {
            id_at_from(s, p, k + 1)
        }
    }
}

/// The identifier of the leftmost link in `s` at or after position `p`.
pub open spec fn link_id_from(s: Seq<char>, p: int) -> Option<Seq<char>>
    decreases s.len() + 1 - p,
{
    if p < 0 || p > s.len() {
        None
    } else if id_at_from(s, p, 0) is Some {
        id_at_from(s, p, 0)
    } else {
        link_id_from(s, p + 1)
    }
}

/// The identifier of the leftmost link in `s`, if `s` holds one.
pub open spec fn link_id(s: Seq<char>) -> Option<Seq<char>> {
    link_id_from(s, 0)
}

/// A bare identifier: eleven bytes, with neither slash nor dot.
pub open spec fn is_bare_id(s: Seq<char>) -> bool {
    encode_utf8(s).len() == 11 && !has_char(s, '/') && !has_char(s, '.')
}

/// The resource identifier that `s` names, if any.
pub open spec fn resolve_id(s: Seq<char>) -> Option<Seq<char>> {
    if link_id(s) is Some {
        link_id(s)
    } else if is_bare_id(s) {
        Some(s)
    } else {
        None
    }
}

/// The message of a rejected link.
pub open spec fn invalid_link_message() -> Seq<char> {
    "Invalid YouTube URL or ID"@
}

fn link_prefix(k: usize) -> (r: &'static str)
    requires
        k < 9,
    ensures
        r@ == link_prefixes()[k as int],
{
    if k == 0 { "youtube.com/watch?v=" }
    else if k == 1 { "youtube.com/shorts/" }
    else if k == 2 { "youtube.com/embed/" }
    else if k == 3 { "youtube.com/v/" }
    else if k == 4 { "youtu.be/" }
    else if k == 5 { "music.youtube.com/watch?v=" }
    else if k == 6 { "googleusercontent.com/youtube.com/0" }
    else if k == 7 { "googleusercontent.com/youtube.com/1" }
    else { "googleusercontent.com/youtube.com/2" }
}

fn is_id_char_exec(c: char) -> (r: bool)
    ensures
        r == is_id_char(c),
{
    ('a' <= c && c <= 'z') || ('A' <= c && c <= 'Z') || ('0' <= c && c <= '9') || c == '_'
        || c == '-'
}

fn chars_of(s: &str) -> (r: Vec<char>)
    ensures
        r@ == s@,
{
    let n = s.unicode_len();
    let mut v: Vec<char> = Vec::new();
    let mut i: usize = 0;
    while i < n
        invariant
            n == s@.len(),
            i <= n,
            v@ == s@.subrange(0, i as int),
        decreases n - i,
    {
        v.push(s.get_char(i));
        i = i + 1;
        assert(v@ =~= s@.subrange(0, i as int));
    }
    assert(v@ =~= s@);
    v
}

fn occurs_at_exec(s: &Vec<char>, p: usize, pre: &str) -> (r: bool)
    requires
        p <= s@.len(),
    ensures
        r == occurs_at(s@, p as int, pre@),
        r ==> p + pre@.len() <= s.len(),
{
    let m = pre.unicode_len();
    if m > s.len() - p {
        return false;
    }
    let mut j: usize = 0;
    while j < m
        invariant
            m == pre@.len(),
            p + m <= s.len(),
            j <= m,
            forall|t: int| 0 <= t < j ==> s@[p + t] == pre@[t],
        decreases m - j,
    {
        if s[p + j] != pre.get_char(j) {
            assert(s@.subrange(p as int, p + m)[j as int] != pre@[j as int]);
            return false;
        }
        j = j + 1;
    }
    assert(s@.subrange(p as int, p + m) =~= pre@);
    true
}

proof fn lemma_id_run_step(s: Seq<char>, from: int, limit: nat)
    requires
        limit > 0,
        0 <= from < s.len(),
        is_id_char(s[from]),
    ensures
        id_run(s, from, limit) == 1 + id_run(s, from + 1, (limit - 1) as nat),
{
}

fn id_run_exec(s: &Vec<char>, from: usize) -> (r: usize)
    requires
        from <= s@.len(),
    ensures
        r == id_run(s@, from as int, 12),
        from + r <= s@.len(),
{
    let mut c: usize = 0;
    while c < 12 && from + c < s.len() && is_id_char_exec(s[from + c])
        invariant
            c <= 12,
            from + c <= s.len(),
            id_run(s@, from as int, 12) == c + id_run(s@, from + c, (12 - c) as nat),
        decreases 12 - c,
    {
        proof {
            lemma_id_run_step(s@, from + c, (12 - c) as nat);
        }
        c = c + 1;
    }
    c
}

fn id_at(s: &Vec<char>, p: usize) -> (r: Option<(usize, usize)>)
    requires
        p <= s@.len(),
    ensures
        match r {
            Some((a, b)) => a <= b <= s@.len() && id_at_from(s@, p as int, 0) == Some(
                s@.subrange(a as int, b as int),
            ),
            None => id_at_from(s@, p as int, 0) is None,
        },
{
    let mut k: usize = 0;
    while k < 9
        invariant
            k <= 9,
            p <= s@.len(),
            id_at_from(s@, p as int, 0) == id_at_from(s@, p as int, k as nat),
        decreases 9 - k,
    {
        let pre = link_prefix(k);
        if occurs_at_exec(s, p, pre) {
            let e = p + pre.unicode_len();
            let n = id_run_exec(s, e);
            if n >= 10 {
                return Some((e, e + n));
            }
        }
        k = k + 1;
    }
    None
}

fn link_span(s: &Vec<char>) -> (r: Option<(usize, usize)>)
    ensures
        match r {
            Some((a, b)) => a <= b <= s@.len() && link_id(s@) == Some(
                s@.subrange(a as int, b as int),
            ),
            None => link_id(s@) is None,
        },
{
    let mut p: usize = 0;
    while p < s.len()
        invariant
            p <= s.len(),
            link_id(s@) == link_id_from(s@, p as int),
        decreases s@.len() - p,
    {
        match id_at(s, p) {
            Some(span) => {
                return Some(span);
            },
            None => {},
        }
        p = p + 1;
    }
    let last = id_at(s, p);
    assert(link_id_from(s@, p + 1) is None);
    last
}

/// Resolves the resource identifier of a link, or accepts a bare identifier.
pub fn extract_video_id(url: &str) -> (r: Result<String, String>)
    ensures
        match r {
            Ok(id) => resolve_id(url@) == Some(id@),
            Err(e) => resolve_id(url@) is None && e@ == invalid_link_message(),
        },
{
    let cs = chars_of(url);
    match link_span(&cs) {
        Some((a, b)) => Ok(String::from_str(url.substring_char(a, b))),
        None => {
            if url.as_bytes().len() == 11 && !contains_char(url, '/') && !contains_char(url, '.') {
                Ok(String::from_str(url))
            } else {
                Err(String::from_str("Invalid YouTube URL or ID"))
            }
        },
    }
}

} // verus!
