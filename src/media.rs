//! Media kinds, their ordered format candidates, and resolution of a
//! resource identifier from a link or a bare identifier.

use vstd::prelude::*;

verus! {

/// The closed set of media kinds a job can ask for.
#[derive(Clone, Copy, Debug, PartialEq, Eq, Structural)]
pub enum MediaKind {
    Audio,
    Video,
    Merge,
}

/// Post-processing that the extractor applies after a fetch.
#[derive(Clone, Copy, Debug, PartialEq, Eq, Structural)]
pub enum PostProcess {
    /// Extract the audio track and embed metadata and thumbnail.
    ExtractAudio,
    /// Remux into the standard video container.
    Remux,
}

/// One entry of a fallback chain: an opaque format selector for the
/// extractor, the file extension it produces, and its post-processing.
#[derive(Clone, Copy, Debug)]
pub struct FormatCandidate {
    pub selector: &'static str,
    pub extension: &'static str,
    pub post: PostProcess,
}

/// The textual name of a kind, as requests spell it.
pub open spec fn kind_name(k: MediaKind) -> Seq<char> {
    match k {
        MediaKind::Audio => "audio"@,
        MediaKind::Video => "video"@,
        MediaKind::Merge => "merge"@,
    }
}

/// The kind a request string names, if any.
pub open spec fn kind_of(s: Seq<char>) -> Option<MediaKind> {
    if s == "audio"@ {
        Some(MediaKind::Audio)
    } else if s == "video"@ {
        Some(MediaKind::Video)
    } else if s == "merge"@ {
        Some(MediaKind::Merge)
    } else {
        None
    }
}

impl MediaKind {
    /// Parses a request's media kind; anything but the three names is rejected.
    pub fn parse(s: &str) -> (r: Option<MediaKind>)
        ensures
            r == kind_of(s@),
    {
        if crate::text::same_text(s, "audio") {
            Some(MediaKind::Audio)
        } else if crate::text::same_text(s, "video") {
            Some(MediaKind::Video)
        } else if crate::text::same_text(s, "merge") {
            Some(MediaKind::Merge)
        } else {
            None
        }
    }

    /// The kind's name.
    pub fn name(&self) -> (r: &'static str)
        ensures
            r@ == kind_name(*self),
    {
        match self {
            MediaKind::Audio => "audio",
            MediaKind::Video => "video",
            MediaKind::Merge => "merge",
        }
    }
}

/// Selectors of the fallback chain of each kind, most preferred first.
pub open spec fn selectors(k: MediaKind) -> Seq<Seq<char>> {
    match k {
        MediaKind::Audio => seq![
            "bestaudio[abr<=128]"@,
            "bestaudio[abr<=192]"@,
            "bestaudio"@,
        ],
        MediaKind::Video => seq![
            "bestvideo[height=720][fps=60]"@,
            "bestvideo[height=720]"@,
            "bestvideo[height=480]"@,
            "bestvideo[height=360]"@,
            "bestvideo[height=1080]"@,
            "bestvideo[height=1440]"@,
            "bestvideo[height=2160]"@,
            "bestvideo"@,
        ],
        MediaKind::Merge => seq![
            "bestvideo[height=720][fps=60]+bestaudio[abr<=192]/best[height=720][fps=60]"@,
            "bestvideo[height=720]+bestaudio[abr<=192]/best[height=720]"@,
            "bestvideo[height=480]+bestaudio[abr<=128]/best[height=480]"@,
            "bestvideo[height=360]+bestaudio/best[height=360]"@,
            "bestvideo[height=1080]+bestaudio/best[height=1080]"@,
            "bestvideo[height=1440]+bestaudio/best[height=1440]"@,
            "bestvideo[height=2160]+bestaudio/best[height=2160]"@,
            "bestvideo+bestaudio/best"@,
        ],
    }
}

/// The file extension every candidate of a kind produces.
pub open spec fn kind_extension(k: MediaKind) -> Seq<char> {
    match k {
        MediaKind::Audio => ".mp3"@,
        _ => ".mp4"@,
    }
}

/// The post-processing every candidate of a kind asks for.
pub open spec fn kind_post(k: MediaKind) -> PostProcess {
    match k {
        MediaKind::Audio => PostProcess::ExtractAudio,
        _ => PostProcess::Remux,
    }
}

/// Whether `v` is exactly the fallback chain of kind `k`.
pub open spec fn is_chain_of(v: Seq<FormatCandidate>, k: MediaKind) -> bool {
    &&& v.len() == selectors(k).len()
    &&& forall|i: int|
        0 <= i < v.len() ==> (#[trigger] v[i]).selector@ == selectors(k)[i]
            && v[i].extension@ == kind_extension(k) && v[i].post == kind_post(k)
}

fn candidate(selector: &'static str, k: MediaKind) -> (r: FormatCandidate)
    ensures
        r.selector@ == selector@,
        r.extension@ == kind_extension(k),
        r.post == kind_post(k),
{
    match k {
        MediaKind::Audio => FormatCandidate {
            selector,
            extension: ".mp3",
            post: PostProcess::ExtractAudio,
        },
        _ => FormatCandidate { selector, extension: ".mp4", post: PostProcess::Remux },
    }
}

/// The ordered fallback chain of a kind, most preferred candidate first.
pub fn get_format_hierarchy(k: MediaKind) -> (r: Vec<FormatCandidate>)
    ensures
        is_chain_of(r@, k),
{
    let v = match k {
        MediaKind::Audio => vec![
            candidate("bestaudio[abr<=128]", k),
            candidate("bestaudio[abr<=192]", k),
            candidate("bestaudio", k),
        ],
        MediaKind::Video => vec![
            candidate("bestvideo[height=720][fps=60]", k),
            candidate("bestvideo[height=720]", k),
            candidate("bestvideo[height=480]", k),
            candidate("bestvideo[height=360]", k),
            candidate("bestvideo[height=1080]", k),
            candidate("bestvideo[height=1440]", k),
            candidate("bestvideo[height=2160]", k),
            candidate("bestvideo", k),
        ],
        MediaKind::Merge => vec![
            candidate(
                "bestvideo[height=720][fps=60]+bestaudio[abr<=192]/best[height=720][fps=60]",
                k,
            ),
            candidate("bestvideo[height=720]+bestaudio[abr<=192]/best[height=720]", k),
            candidate("bestvideo[height=480]+bestaudio[abr<=128]/best[height=480]", k),
            candidate("bestvideo[height=360]+bestaudio/best[height=360]", k),
            candidate("bestvideo[height=1080]+bestaudio/best[height=1080]", k),
            candidate("bestvideo[height=1440]+bestaudio/best[height=1440]", k),
            candidate("bestvideo[height=2160]+bestaudio/best[height=2160]", k),
            candidate("bestvideo+bestaudio/best", k),
        ],
    };
    v
}

} // verus!
