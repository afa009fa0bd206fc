//! The external-tool dependency snapshot: which collaborators answered the
//! version probe, and the version each reported.

use vstd::prelude::*;
use crate::text;

verus! {

/// A snapshot of the two external collaborators' availability, recomputed on
/// demand and never cached across sessions.
#[derive(Debug, Clone)]
pub struct DependencyStatus {
    pub yt_dlp_available: bool,
    pub yt_dlp_version: Option<String>,
    pub ffmpeg_available: bool,
    pub ffmpeg_version: Option<String>,
}

/// The version token of the remuxer's banner: the text after the first
/// `version ` marker of the first line, cut at the next space; a banner
/// without the marker reports an unknown version.
pub open spec fn ffmpeg_version_spec(out: Seq<char>) -> Seq<char> {
    let line = text::split_spec(out, '\n')[0];
    match text::find_spec(line, "version "@) {
        Some(i) => {
            let after = line.skip(i + "version "@.len());
            match text::find_spec(after, " "@) {
                Some(j) => after.take(j),
                None => after,
            }
        },
        None => "Unknown version"@,
    }
}

/// Read the remuxer's version out of its banner output.
#[verifier::loop_isolation(false)]
pub fn parse_ffmpeg_version(out: &str) -> (r: String)
    ensures
        r@ == ffmpeg_version_spec(out@),
{
    let ov = text::str_chars(out);
    let lines = text::split_chars(&ov, '\n');
    proof {
        text::lemma_split_nonempty(ov@, '\n');
        assert(lines.deep_view()[0] =~= lines@[0]@);
    }
    let line = &lines[0];
    let marker = text::str_chars("version ");
    match text::find_first(line, &marker) {
        Some(i) => {
            let n = line.len();
            proof {
                text::lemma_find_spec(line@, marker@);
            }
            let start = i + marker.len();
            let mut after: Vec<char> = Vec::new();
            let mut k = start;
            while k < n
                invariant
                    start <= k <= n,
                    after@.len() == k - start,
                    forall|j: int| 0 <= j < k - start ==> after@[j] == line@[start + j],
                decreases n - k,
            {
                after.push(line[k]);
                k = k + 1;
            }
            assert(after@ =~= line@.skip(start as int));
            let space = text::str_chars(" ");
            match text::find_first(&after, &space) {
                Some(j) => {
                    let mut tok: Vec<char> = Vec::new();
                    let mut t: usize = 0;
                    proof {
                        text::lemma_find_spec(after@, space@);
                    }
                    while t < j
                        invariant
                            t <= j,
                            j <= after@.len(),
                            tok@.len() == t,
                            forall|q: int| 0 <= q < t ==> tok@[q] == after@[q],
                        decreases j - t,
                    {
                        tok.push(after[t]);
                        t = t + 1;
                    }
                    assert(tok@ =~= after@.take(j as int));
                    text::chars_string(&tok)
                },
                None => text::chars_string(&after),
            }
        },
        None => "Unknown version".to_owned(),
    }
}

/// Read the extractor's version out of its probe output: the output, trimmed
/// of surrounding blanks.
pub fn parse_ytdlp_version(out: &str) -> (r: String)
    ensures
        r@ == text::trim_spec(out@),
{
    let ov = text::str_chars(out);
    let trimmed = text::trim_chars(&ov);
    text::chars_string(&trimmed)
}

/// Assemble the dependency snapshot from the two version probes: a tool is
/// available when its probe ran at all, and reports a version only when the
/// probe succeeded and printed one.
pub fn check_dependencies(
    yt_dlp_ran: bool,
    yt_dlp_stdout: Option<&str>,
    ffmpeg_ran: bool,
    ffmpeg_stdout: Option<&str>,
) -> (r: DependencyStatus)
    ensures
        r.yt_dlp_available == yt_dlp_ran,
        r.ffmpeg_available == ffmpeg_ran,
        (match yt_dlp_stdout {
            Some(out) => r.yt_dlp_version matches Some(v) && v@ == text::trim_spec(out@),
            None => r.yt_dlp_version is None,
        }),
        (match ffmpeg_stdout {
            Some(out) => r.ffmpeg_version matches Some(v) && v@ == ffmpeg_version_spec(out@),
            None => r.ffmpeg_version is None,
        }),
{
    let yt_dlp_version = match yt_dlp_stdout {
        Some(out) => Some(parse_ytdlp_version(out)),
        None => None,
    };
    let ffmpeg_version = match ffmpeg_stdout {
        Some(out) => Some(parse_ffmpeg_version(out)),
        None => None,
    };
    DependencyStatus {
        yt_dlp_available: yt_dlp_ran,
        yt_dlp_version,
        ffmpeg_available: ffmpeg_ran,
        ffmpeg_version,
    }
}

/// Check if all required dependencies are available.
pub fn all_dependencies_available(status: &DependencyStatus) -> (r: bool)
    ensures
        r == (status.yt_dlp_available && status.ffmpeg_available),
{
    status.yt_dlp_available && status.ffmpeg_available
}

/// Check if the minimum required dependencies are available (the extractor
/// alone).
pub fn minimum_dependencies_available(status: &DependencyStatus) -> (r: bool)
    ensures
        r == status.yt_dlp_available,
{
    status.yt_dlp_available
}

} // verus!
