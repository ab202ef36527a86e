//! Facts read from a request: the requester's address as the proxy in
//! front reports it, and which files are cookie files.

use vstd::prelude::*;
use crate::text::same_text;

verus! {

/// White space as Unicode defines it, which `str::trim` removes.
pub open spec fn is_space(c: char) -> bool {
    ('\u{9}' <= c && c <= '\u{d}') || c == ' ' || c == '\u{85}' || c == '\u{a0}' || c == '\u{1680}'
        || ('\u{2000}' <= c && c <= '\u{200a}') || c == '\u{2028}' || c == '\u{2029}' || c
        == '\u{202f}' || c == '\u{205f}' || c == '\u{3000}'
}

/// `s` without its leading white space.
pub open spec fn trim_start(s: Seq<char>) -> Seq<char>
    decreases s.len(),
{
    if s.len() > 0 && is_space(s[0]) {
        trim_start(s.drop_first())
    } else {
        s
    }
}

/// `s` without its trailing white space.
pub open spec fn trim_end(s: Seq<char>) -> Seq<char>
    decreases s.len(),
{
    if s.len() > 0 && is_space(s.last()) {
        trim_end(s.drop_last())
    } else {
        s
    }
}

/// `s` without leading and trailing white space.
pub open spec fn trimmed(s: Seq<char>) -> Seq<char> {
    trim_end(trim_start(s))
}

fn is_space_exec(c: char) -> (r: bool)
    ensures
        r == is_space(c),
{
    ('\u{9}' <= c && c <= '\u{d}') || c == ' ' || c == '\u{85}' || c == '\u{a0}' || c == '\u{1680}'
        || ('\u{2000}' <= c && c <= '\u{200a}') || c == '\u{2028}' || c == '\u{2029}' || c
        == '\u{202f}' || c == '\u{205f}' || c == '\u{3000}'
}

/// `s` without leading and trailing white space, as `str::trim` gives it.
pub fn trim(s: &str) -> (r: String)
    ensures
        r@ == trimmed(s@),
{
    let n = s.unicode_len();
    let mut a: usize = 0;
    assert(s@.subrange(0, n as int) =~= s@);
    while a < n && is_space_exec(s.get_char(a))
        invariant
            n == s@.len(),
            a <= n,
            trim_start(s@) == trim_start(s@.subrange(a as int, n as int)),
        decreases n - a,
    {
        assert(s@.subrange(a as int, n as int).drop_first() =~= s@.subrange(a + 1, n as int));
        a = a + 1;
    }
    let mut b: usize = n;
    assert(trim_start(s@) == s@.subrange(a as int, n as int));
    while b > a && is_space_exec(s.get_char(b - 1))
        invariant
            n == s@.len(),
            a <= b <= n,
            trimmed(s@) == trim_end(s@.subrange(a as int, b as int)),
        decreases b,
    {
        assert(s@.subrange(a as int, b as int).drop_last() =~= s@.subrange(a as int, b - 1));
        b = b - 1;
    }
    String::from_str(s.substring_char(a, b))
}

/// The part of `s` before its first comma; all of `s` when it has none.
pub open spec fn first_field(s: Seq<char>) -> Seq<char>
    decreases s.len(),
{
    if s.len() == 0 {
        s
    } else if s[0] == ',' {
        Seq::empty()
    } else {
        seq![s[0]] + first_field(s.drop_first())
    }
}

proof fn lemma_first_field_upto(s: Seq<char>, i: int)
    requires
        0 <= i <= s.len(),
        forall|j: int| 0 <= j < i ==> s[j] != ',',
    ensures
        first_field(s) == s.subrange(0, i) + first_field(s.subrange(i, s.len() as int)),
    decreases i,
{
    if i > 0 {
        let t = s.drop_first();
        lemma_first_field_upto(t, i - 1);
        assert(t.subrange(i - 1, t.len() as int) =~= s.subrange(i, s.len() as int));
        assert(s.subrange(0, i) =~= seq![s[0]] + t.subrange(0, i - 1));
    } else {
        assert(s.subrange(0, 0) + s =~= s);
        assert(s.subrange(0, s.len() as int) =~= s);
    }
}

/// The part of `s` before its first comma.
pub fn first_comma_field(s: &str) -> (r: String)
    ensures
        r@ == first_field(s@),
{
    let n = s.unicode_len();
    let mut i: usize = 0;
    while i < n && s.get_char(i) != ','
        invariant
            n == s@.len(),
            i <= n,
            forall|j: int| 0 <= j < i ==> s@[j] != ',',
        decreases n - i,
    {
        i = i + 1;
    }
    proof {
        lemma_first_field_upto(s@, i as int);
        let rest = s@.subrange(i as int, n as int);
        if i < n {
            assert(rest[0] == ',');
        }
        assert(first_field(rest) =~= Seq::<char>::empty());
        assert(s@.subrange(0, i as int) + Seq::<char>::empty() =~= s@.subrange(0, i as int));
    }
    String::from_str(s.substring_char(0, i))
}

/// The view of an optional text.
pub open spec fn opt_seq(o: Option<&str>) -> Option<Seq<char>> {
    match o {
        Some(s) => Some(s@),
        None => None,
    }
}

/// The requester's address: the first of the `cf-connecting-ip` and
/// `x-real-ip` headers, else the first entry of `x-forwarded-for`, trimmed;
/// else the connection's peer address; else "unknown".
pub open spec fn client_ip_of(
    cf: Option<Seq<char>>,
    real_ip: Option<Seq<char>>,
    forwarded: Option<Seq<char>>,
    peer: Option<Seq<char>>,
) -> Seq<char> {
    if cf is Some {
        trimmed(cf->0)
    } else if real_ip is Some {
        trimmed(real_ip->0)
    } else if forwarded is Some {
        trimmed(first_field(forwarded->0))
    } else if peer is Some {
        peer->0
    } else {
        "unknown"@
    }
}

/// The requester's address from the proxy headers and the peer address.
pub fn get_real_ip(
    cf: Option<&str>,
    real_ip: Option<&str>,
    forwarded: Option<&str>,
    peer: Option<&str>,
) -> (r: String)
    ensures
        r@ == client_ip_of(opt_seq(cf), opt_seq(real_ip), opt_seq(forwarded), opt_seq(peer)),
{
    match (cf, real_ip, forwarded, peer) {
        (Some(v), _, _, _) => trim(v),
        (None, Some(v), _, _) => trim(v),
        (None, None, Some(v), _) => {
            let first = first_comma_field(v);
            trim(first.as_str())
        },
        (None, None, None, Some(p)) => String::from_str(p),
        (None, None, None, None) => String::from_str("unknown"),
    }
}

/// Whether `s` begins with `p`.
pub open spec fn begins_with(s: Seq<char>, p: Seq<char>) -> bool {
    p.len() <= s.len() && s.subrange(0, p.len() as int) == p
}

/// Whether `s` finishes with `p`.
pub open spec fn finishes_with(s: Seq<char>, p: Seq<char>) -> bool {
    p.len() <= s.len() && s.subrange(s.len() - p.len(), s.len() as int) == p
}

/// Whether a file name marks a cookie file: `cookies...txt`.
pub fn is_cookie_file_name(name: &str) -> (r: bool)
    ensures
        r == (begins_with(name@, "cookies"@) && finishes_with(name@, ".txt"@)),
{
    let n = name.unicode_len();
    let pre = "cookies";
    let suf = ".txt";
    let pn = pre.unicode_len();
    let sn = suf.unicode_len();
    if pn > n || sn > n {
        return false;
    }
    same_text(name.substring_char(0, pn), pre) && same_text(name.substring_char(n - sn, n), suf)
}

} // verus!
