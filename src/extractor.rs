//! Argument lists for the external extractor: the metadata probe and a
//! download attempt with one format candidate.

use vstd::prelude::*;
use crate::media::PostProcess;
use crate::text::{decimal, decimal_string};

verus! {

/// The texts of a list of strings.
pub open spec fn texts(v: Seq<String>) -> Seq<Seq<char>> {
    v.map_values(|s: String| s@)
}

fn push_text(v: &mut Vec<String>, s: &str)
    ensures
        texts(final(v)@) == texts(old(v)@).push(s@),
{
    v.push(String::from_str(s));
    assert(texts(v@) =~= texts(old(v)@).push(s@));
}

/// The optional pair `flag value`.
pub open spec fn opt_pair(flag: Seq<char>, value: Option<Seq<char>>) -> Seq<Seq<char>> {
    match value {
        Some(x) => seq![flag, x],
        None => Seq::empty(),
    }
}

/// The view of an optional text.
pub open spec fn opt_text(o: Option<&str>) -> Option<Seq<char>> {
    match o {
        Some(s) => Some(s@),
        None => None,
    }
}

/// The probe's arguments: proxy and cookie file first when given, then a
/// request for the resource's JSON description.
pub open spec fn probe_args_of(url: Seq<char>, cookies: Option<Seq<char>>, proxy: Option<Seq<char>>) -> Seq<Seq<char>> {
    opt_pair("--proxy"@, proxy) + opt_pair("--cookies"@, cookies) + seq![
        "--dump-json"@,
        "--no-playlist"@,
        "--remote-components"@,
        "ejs:github"@,
        url,
    ]
}

/// The fixed part of a download attempt's arguments.
pub open spec fn fetch_base(format: Seq<char>, output: Seq<char>, fragments: nat) -> Seq<Seq<char>> {
    seq![
        "-f"@, format,
        "-o"@, output,
        "--no-playlist"@,
        "--no-warnings"@,
        "--remote-components"@, "ejs:github"@,
        "--concurrent-fragments"@, decimal(fragments),
        "--buffer-size"@, "1M"@,
        "--http-chunk-size"@, "10M"@,
        "--throttled-rate"@, "100K"@,
        "--retries"@, "10"@,
        "--fragment-retries"@, "10"@,
        "--file-access-retries"@, "10"@,
        "--no-part"@,
        "--no-mtime"@,
        "--continue"@,
    ]
}

/// The post-processing flags of a candidate.
pub open spec fn post_flags(p: PostProcess) -> Seq<Seq<char>> {
    match p {
        PostProcess::ExtractAudio => seq![
            "-x"@,
            "--audio-format"@, "mp3"@,
            "--audio-quality"@, "0"@,
            "--embed-metadata"@,
            "--embed-thumbnail"@,
            "--convert-thumbnails"@, "jpg"@,
        ],
        PostProcess::Remux => seq![
            "--merge-output-format"@, "mp4"@,
            "--remux-video"@, "mp4"@,
        ],
    }
}

/// A download attempt's arguments: the fixed part, the cookie file, proxy
/// and transcoder location when given, the post-processing flags, and
/// last the link.
pub open spec fn fetch_args_of(
    url: Seq<char>,
    format: Seq<char>,
    output: Seq<char>,
    post: PostProcess,
    fragments: nat,
    ffmpeg: Seq<char>,
    cookies: Option<Seq<char>>,
    proxy: Option<Seq<char>>,
) -> Seq<Seq<char>> {
    fetch_base(format, output, fragments) + opt_pair("--cookies"@, cookies) + opt_pair(
        "--proxy"@,
        proxy,
    ) + opt_pair("--ffmpeg-location"@, if ffmpeg.len() == 0 { None } else { Some(ffmpeg) })
        + post_flags(post) + seq![url]
}

fn add_pair(v: &mut Vec<String>, flag: &str, value: Option<&str>)
    ensures
        texts(final(v)@) == texts(old(v)@) + opt_pair(flag@, opt_text(value)),
{
    match value {
        Some(x) => {
            push_text(v, flag);
            push_text(v, x);
            assert(texts(v@) =~= texts(old(v)@) + opt_pair(flag@, opt_text(value)));
        },
        None => {
            assert(texts(v@) =~= texts(old(v)@) + opt_pair(flag@, opt_text(value)));
        },
    }
}

/// The arguments of the metadata probe for `url`.
pub fn probe_args(url: &str, cookies: Option<&str>, proxy: Option<&str>) -> (r: Vec<String>)
    ensures
        texts(r@) == probe_args_of(url@, opt_text(cookies), opt_text(proxy)),
{
    let mut v: Vec<String> = Vec::new();
    assert(texts(v@) =~= Seq::<Seq<char>>::empty());
    add_pair(&mut v, "--proxy", proxy);
    add_pair(&mut v, "--cookies", cookies);
    push_text(&mut v, "--dump-json");
    push_text(&mut v, "--no-playlist");
    push_text(&mut v, "--remote-components");
    push_text(&mut v, "ejs:github");
    push_text(&mut v, url);
    assert(texts(v@) =~= probe_args_of(url@, opt_text(cookies), opt_text(proxy)));
    v
}

/// The arguments of a download attempt with one format candidate.
pub fn execute_args(
    url: &str,
    format: &str,
    output: &str,
    post: PostProcess,
    max_concurrent: usize,
    ffmpeg: &str,
    cookies: Option<&str>,
    proxy: Option<&str>,
) -> (r: Vec<String>)
    ensures
        texts(r@) == fetch_args_of(
            url@,
            format@,
            output@,
            post,
            max_concurrent as nat,
            ffmpeg@,
            opt_text(cookies),
            opt_text(proxy),
        ),
{
    let mut v: Vec<String> = Vec::new();
    assert(texts(v@) =~= Seq::<Seq<char>>::empty());
    push_text(&mut v, "-f");
    push_text(&mut v, format);
    push_text(&mut v, "-o");
    push_text(&mut v, output);
    push_text(&mut v, "--no-playlist");
    push_text(&mut v, "--no-warnings");
    push_text(&mut v, "--remote-components");
    push_text(&mut v, "ejs:github");
    push_text(&mut v, "--concurrent-fragments");
    let fragments = decimal_string(max_concurrent as u64);
    push_text(&mut v, fragments.as_str());
    push_text(&mut v, "--buffer-size");
    push_text(&mut v, "1M");
    push_text(&mut v, "--http-chunk-size");
    push_text(&mut v, "10M");
    push_text(&mut v, "--throttled-rate");
    push_text(&mut v, "100K");
    push_text(&mut v, "--retries");
    push_text(&mut v, "10");
    push_text(&mut v, "--fragment-retries");
    push_text(&mut v, "10");
    push_text(&mut v, "--file-access-retries");
    push_text(&mut v, "10");
    push_text(&mut v, "--no-part");
    push_text(&mut v, "--no-mtime");
    push_text(&mut v, "--continue");
    assert(texts(v@) =~= fetch_base(format@, output@, max_concurrent as nat));
    add_pair(&mut v, "--cookies", cookies);
    add_pair(&mut v, "--proxy", proxy);
    let location = if ffmpeg.unicode_len() == 0 { None } else { Some(ffmpeg) };
    add_pair(&mut v, "--ffmpeg-location", location);
    let ghost before_post = texts(v@);
    match post {
        PostProcess::ExtractAudio => {
            push_text(&mut v, "-x");
            push_text(&mut v, "--audio-format");
            push_text(&mut v, "mp3");
            push_text(&mut v, "--audio-quality");
            push_text(&mut v, "0");
            push_text(&mut v, "--embed-metadata");
            push_text(&mut v, "--embed-thumbnail");
            push_text(&mut v, "--convert-thumbnails");
            push_text(&mut v, "jpg");
        },
        PostProcess::Remux => {
            push_text(&mut v, "--merge-output-format");
            push_text(&mut v, "mp4");
            push_text(&mut v, "--remux-video");
            push_text(&mut v, "mp4");
        },
    }
    assert(texts(v@) =~= before_post + post_flags(post));
    push_text(&mut v, url);
    assert(texts(v@) =~= fetch_args_of(
        url@,
        format@,
        output@,
        post,
        max_concurrent as nat,
        ffmpeg@,
        opt_text(cookies),
        opt_text(proxy),
    ));
    v
}

} // verus!
