//! The YouTube strategy: URL recognition, video-id extraction, and the rules
//! around the external extraction tool's format listing and download
//! invocation.

use vstd::prelude::*;
use crate::error::Error;
use crate::text;
use crate::urlparts::{UrlParts, UrlPartsView};
use crate::{Format, Quality, VideoFormat};

verus! {

/// The path's segments: everything after the leading slash, split at each
/// further slash.
pub open spec fn segments_spec(path: Seq<char>) -> Seq<Seq<char>> {
    if path.len() > 0 && path[0] == '/' {
        text::split_spec(path.skip(1), '/')
    } else {
        text::split_spec(path, '/')
    }
}

/// The value of the first query pair whose key is `v`, if any.
pub open spec fn first_v_param(q: Seq<(Seq<char>, Seq<char>)>) -> Option<Seq<char>>
    decreases q.len(),
{
    if q.len() == 0 {
        None
    } else if q[0].0 == "v"@ {
        Some(q[0].1)
    } else {
        first_v_param(q.skip(1))
    }
}

/// The video id the URL carries: the last path segment for the short host;
/// for youtube.com hosts, the `v` query parameter of a `/watch` URL, or the
/// segment after `/shorts`; nothing otherwise.
pub open spec fn video_id_spec(u: UrlPartsView) -> Option<Seq<char>> {
    if u.host == "youtu.be"@ {
        let segs = segments_spec(u.path);
        Some(segs[segs.len() - 1])
    } else if text::ends_with_spec(u.host, "youtube.com"@) {
        if u.path == "/watch"@ && first_v_param(u.query) is Some {
            first_v_param(u.query)
        } else {
            let segs = segments_spec(u.path);
            if segs.len() >= 2 && segs[0] == "shorts"@ {
                Some(segs[1])
            } else {
                None
            }
        }
    } else {
        None
    }
}

/// The YouTube platform strategy.
#[derive(Debug, Clone, Copy)]
pub struct YouTube {}

impl YouTube {
    /// A fresh strategy value.
    pub fn new() -> (r: Self) {
        YouTube {  }
    }

    /// The URL's host is youtube.com, a subdomain of it, or the short host.
    pub open spec fn supports_spec(u: UrlPartsView) -> bool {
        text::ends_with_spec(u.host, "youtube.com"@) || u.host == "youtu.be"@
    }

    /// Checks if the given URL is supported by this platform.
    pub fn supports_url(&self, u: &UrlParts) -> (r: bool)
        ensures
            r == YouTube::supports_spec(u@),
    {
        let host = text::str_chars(u.host.as_str());
        text::chars_end_with_str(&host, "youtube.com") || text::chars_eq_str(&host, "youtu.be")
    }

    /// Extract the video id from a URL: short-host URLs carry it as the last
    /// path segment, watch URLs in the `v` parameter, shorts URLs in the
    /// second path segment.
    #[verifier::loop_isolation(false)]
    pub fn extract_video_id(&self, u: &UrlParts) -> (r: Result<String, Error>)
        ensures
            match r {
                Ok(id) => video_id_spec(u@) == Some(id@),
                Err(e) => video_id_spec(u@) is None && (e matches Error::InvalidUrl(m) && m@
                    == "No video ID found in URL"@),
            },
    {
        let host = text::str_chars(u.host.as_str());
        let path = text::str_chars(u.path.as_str());
        let mut segs_input: Vec<char> = Vec::new();
        if path.len() > 0 && path[0] == '/' {
            let mut i: usize = 1;
            let n = path.len();
            while i < n
                invariant
                    1 <= i <= n,
                    n == path@.len(),
                    segs_input@.len() == i - 1,
                    forall|j: int| 0 <= j < i - 1 ==> segs_input@[j] == path@[j + 1],
                decreases n - i,
            {
                segs_input.push(path[i]);
                i = i + 1;
            }
            assert(segs_input@ =~= path@.skip(1));
        } else {
            segs_input = text::copy_chars(&path);
        }
        let segs = text::split_chars(&segs_input, '/');
        proof {
            text::lemma_split_nonempty(segs_input@, '/');
        }
        if text::chars_eq_str(&host, "youtu.be") {
            let last = &segs[segs.len() - 1];
            proof {
                assert(segs.deep_view()[segs@.len() - 1] =~= segs@[segs@.len() - 1]@);
            }
            return Ok(text::chars_string(last));
        }
        if text::chars_end_with_str(&host, "youtube.com") {
            if text::chars_eq_str(&path, "/watch") {
                let nq = u.query.len();
                let mut k: usize = 0;
                assert(u@.query.skip(0) =~= u@.query);
                while k < nq
                    invariant
                        k <= nq,
                        nq == u.query@.len(),
                        first_v_param(u@.query) == first_v_param(u@.query.skip(k as int)),
                    decreases nq - k,
                {
                    let ghost tail = u@.query.skip(k as int);
                    proof {
                        assert(tail[0] == u@.query[k as int]);
                        assert(tail.skip(1) =~= u@.query.skip(k as int + 1));
                    }
                    let key = text::str_chars(u.query[k].0.as_str());
                    if text::chars_eq_str(&key, "v") {
                        let id = u.query[k].1.clone();
                        proof {
                            assert(tail[0].0 == "v"@);
                            assert(first_v_param(tail) == Some(tail[0].1));
                        }
                        return Ok(id);
                    }
                    k = k + 1;
                }
                assert(u@.query.skip(nq as int) =~= Seq::<(Seq<char>, Seq<char>)>::empty());
            }
            if segs.len() >= 2 {
                let head = &segs[0];
                proof {
                    assert(segs.deep_view()[0] =~= segs@[0]@);
                    assert(segs.deep_view()[1] =~= segs@[1]@);
                }
                if text::chars_eq_str(head, "shorts") {
                    return Ok(text::chars_string(&segs[1]));
                }
            }
        }
        Err(Error::InvalidUrl("No video ID found in URL".to_owned()))
    }

    /// Classify a format line's quality from the resolution substrings it
    /// carries; lines naming no known resolution default to medium.
    pub fn determine_quality(&self, format_line: &str) -> (r: Quality)
        ensures
            r == line_quality_spec(format_line@),
    {
        let l = text::str_chars(format_line);
        if text::chars_contain_str(&l, "3840x2160") || text::chars_contain_str(&l, "2160p") {
            Quality::UHD2160
        } else if text::chars_contain_str(&l, "1920x1080") || text::chars_contain_str(&l, "1080p") {
            Quality::HD1080
        } else if text::chars_contain_str(&l, "1280x720") || text::chars_contain_str(&l, "720p") {
            Quality::HD720
        } else if text::chars_contain_str(&l, "854x480") || text::chars_contain_str(&l, "480p") {
            Quality::Medium
        } else if text::chars_contain_str(&l, "640x360") || text::chars_contain_str(&l, "360p") {
            Quality::Low
        } else if text::chars_contain_str(&l, "426x240") || text::chars_contain_str(&l, "240p") {
            Quality::Low
        } else {
            Quality::Medium
        }
    }
}

/// The quality tier a format-listing line names, by its resolution
/// substrings.
pub open spec fn line_quality_spec(l: Seq<char>) -> Quality {
    if text::contains_sub(l, "3840x2160"@) || text::contains_sub(l, "2160p"@) {
        Quality::UHD2160
    } else if text::contains_sub(l, "1920x1080"@) || text::contains_sub(l, "1080p"@) {
        Quality::HD1080
    } else if text::contains_sub(l, "1280x720"@) || text::contains_sub(l, "720p"@) {
        Quality::HD720
    } else if text::contains_sub(l, "854x480"@) || text::contains_sub(l, "480p"@) {
        Quality::Medium
    } else if text::contains_sub(l, "640x360"@) || text::contains_sub(l, "360p"@) {
        Quality::Low
    } else if text::contains_sub(l, "426x240"@) || text::contains_sub(l, "240p"@) {
        Quality::Low
    } else {
        Quality::Medium
    }
}

impl Default for YouTube {
    /// The same value as `new`.
    fn default() -> (r: Self) {
        YouTube {  }
    }
}

/// A line of the external tool's format listing that describes a downloadable
/// video format: not a header or separator line, not blank, at least three
/// columns, and not audio-only.
pub open spec fn is_format_line(l: Seq<char>) -> bool {
    &&& !text::starts_with_spec(l, "ID"@)
    &&& !text::starts_with_spec(l, "--"@)
    &&& text::trim_spec(l).len() != 0
    &&& text::tokens_spec(l).len() >= 3
    &&& !text::contains_sub(l, "audio only"@)
}

/// The format lines of the listing, in order.
pub open spec fn format_lines(out: Seq<char>) -> Seq<Seq<char>> {
    text::split_spec(out, '\n').filter(|l: Seq<char>| is_format_line(l))
}

/// The container the listing's extension column names; unknown extensions
/// are carried verbatim.
pub open spec fn ext_format_spec(ext: Seq<char>, f: Format) -> bool {
    if ext == "mp4"@ {
        f == Format::MP4
    } else if ext == "webm"@ {
        f == Format::WebM
    } else if ext == "mov"@ {
        f == Format::MOV
    } else {
        f is Other && f->0@ == ext
    }
}

/// The format a listing line describes: id and extension from its first two
/// columns, quality from its resolution substrings, size unknown.
pub open spec fn format_from_line(f: VideoFormat, l: Seq<char>) -> bool {
    &&& f.id@ == text::tokens_spec(l)[0]
    &&& ext_format_spec(text::tokens_spec(l)[1], f.format)
    &&& f.quality == line_quality_spec(l)
    &&& f.file_size is None
}

/// The synthetic safety-net entry appended after every parse.
pub open spec fn is_best_entry(f: VideoFormat) -> bool {
    f.id@ == "best"@ && f.quality == Quality::HD1080 && f.format == Format::MP4
        && f.file_size is None
}

/// Parse the external tool's tabular format listing: one entry per format
/// line, in order, with the synthetic "best" entry appended; fails with
/// `NoSuitableFormats` when no line parsed.
pub fn parse_format_listing(stdout: &str) -> (r: Result<Vec<VideoFormat>, Error>)
    ensures
        match r {
            Ok(fs) => {
                let lines = format_lines(stdout@);
                &&& lines.len() >= 1
                &&& fs@.len() == lines.len() + 1
                &&& forall|k: int| 0 <= k < lines.len() ==> format_from_line(
                    #[trigger] fs@[k],
                    lines[k],
                )
                &&& is_best_entry(fs@[lines.len() as int])
            },
            Err(e) => format_lines(stdout@).len() == 0 && e == Error::NoSuitableFormats,
        },
{
    let sv = text::str_chars(stdout);
    let lines = text::split_chars(&sv, '\n');
    let m = lines.len();
    let mut fs: Vec<VideoFormat> = Vec::new();
    let ghost pred = |l: Seq<char>| is_format_line(l);
    let ghost mut kept: Seq<Seq<char>> = Seq::empty();
    let mut k: usize = 0;
    proof {
        reveal(Seq::filter);
        assert(lines.deep_view().take(0) =~= Seq::<Seq<char>>::empty());
        assert(kept =~= lines.deep_view().take(0).filter(pred));
    }
    while k < m
        invariant
            k <= m,
            m == lines@.len(),
            lines.deep_view().len() == m,
            kept == lines.deep_view().take(k as int).filter(|l: Seq<char>| is_format_line(l)),
            fs@.len() == kept.len(),
            forall|t: int| 0 <= t < fs@.len() ==> format_from_line(#[trigger] fs@[t], kept[t]),
        decreases m - k,
    {
        proof {
            reveal(Seq::filter);
            let taken = lines.deep_view().take(k as int + 1);
            assert(taken.drop_last() =~= lines.deep_view().take(k as int));
            assert(taken.last() == lines.deep_view()[k as int]);
            assert(lines.deep_view()[k as int] =~= lines@[k as int]@);
        }
        let line = &lines[k];
        let header = text::chars_start_with(line, &text::str_chars("ID"));
        let separator = text::chars_start_with(line, &text::str_chars("--"));
        let trimmed = text::trim_chars(line);
        let toks = text::tokenize(line);
        let audio_only = text::chars_contain_str(line, "audio only");
        if !header && !separator && trimmed.len() != 0 && toks.len() >= 3 && !audio_only {
            proof {
                assert(toks.deep_view()[0] =~= toks@[0]@);
                assert(toks.deep_view()[1] =~= toks@[1]@);
            }
            let id = text::chars_string(&toks[0]);
            let fmt = if text::chars_eq_str(&toks[1], "mp4") {
                Format::MP4
            } else if text::chars_eq_str(&toks[1], "webm") {
                Format::WebM
            } else if text::chars_eq_str(&toks[1], "mov") {
                Format::MOV
            } else {
                Format::Other(text::chars_string(&toks[1]))
            };
            let line_string = text::chars_string(line);
            let quality = YouTube {  }.determine_quality(line_string.as_str());
            fs.push(VideoFormat { id, quality, format: fmt, file_size: None });
            proof {
                kept = kept.push(lines.deep_view()[k as int]);
            }
        }
        k = k + 1;
    }
    proof {
        assert(lines.deep_view().take(m as int) =~= lines.deep_view());
    }
    if fs.len() == 0 {
        return Err(Error::NoSuitableFormats);
    }
    let ghost nlines = format_lines(stdout@).len();
    fs.push(
        VideoFormat {
            id: "best".to_owned(),
            quality: Quality::HD1080,
            format: Format::MP4,
            file_size: None,
        },
    );
    Ok(fs)
}

/// Decide the outcome of the format-listing invocation: parse the output;
/// when nothing parsed, that is `NoSuitableFormats`; a failing exit with
/// parsed lines surfaces the tool's own words instead.
pub fn format_listing_outcome(exit_ok: bool, stdout: &str, stderr: &str) -> (r: Result<
    Vec<VideoFormat>,
    Error,
>)
    ensures
        r is Ok ==> exit_ok,
        match r {
            Ok(fs) => {
                let lines = format_lines(stdout@);
                &&& lines.len() >= 1
                &&& fs@.len() == lines.len() + 1
                &&& forall|k: int| 0 <= k < lines.len() ==> format_from_line(
                    #[trigger] fs@[k],
                    lines[k],
                )
                &&& is_best_entry(fs@[lines.len() as int])
            },
            Err(e) => {
                if format_lines(stdout@).len() == 0 {
                    e == Error::NoSuitableFormats
                } else {
                    !exit_ok && (e matches Error::CommandExecution { command, reason } && command@
                        == "yt-dlp"@ && reason@ == stderr@)
                }
            },
        },
{
    let parsed = parse_format_listing(stdout);
    match parsed {
        Ok(fs) => {
            if exit_ok {
                Ok(fs)
            } else {
                Err(
                    Error::CommandExecution {
                        command: "yt-dlp".to_owned(),
                        reason: stderr.to_owned(),
                    },
                )
            }
        },
        Err(e) => Err(e),
    }
}

/// The test for a format carrying the given id.
pub open spec fn id_matcher(id: Seq<char>) -> spec_fn(VideoFormat) -> bool {
    |f: VideoFormat| f.id@ == id
}

/// The height label used to bound fallback selection for a known quality
/// tier; custom tiers use their own label.
pub open spec fn quality_height_label(q: Quality) -> Seq<char> {
    match q {
        Quality::UHD2160 => "2160"@,
        Quality::HD1080 => "1080"@,
        Quality::HD720 => "720"@,
        Quality::High => "720"@,
        Quality::Medium => "480"@,
        Quality::Low => "360"@,
        Quality::Custom(s) => s@,
    }
}

/// The format-selection expression handed to the external downloader, as a
/// function of tool availability, the requested format id, and the known
/// format list.
pub open spec fn format_spec_string(
    ffmpeg_available: bool,
    id: Seq<char>,
    formats: Seq<VideoFormat>,
) -> Seq<char> {
    if ffmpeg_available {
        if id == "best"@ {
            "bestvideo[ext=mp4]+bestaudio[ext=m4a]/best[ext=mp4]/best"@
        } else {
            id + "/best"@
        }
    } else {
        if id == "best"@ {
            "best[ext=mp4]/best"@
        } else {
            match crate::downloader::first_where(formats, id_matcher(id)) {
                Some(k) => id + "/best[height<="@ + quality_height_label(formats[k].quality)
                    + "][ext=mp4]/best"@,
                None => "best[ext=mp4]/best"@,
            }
        }
    }
}

/// Build the format-selection expression for the external downloader.
#[verifier::loop_isolation(false)]
pub fn youtube_format_spec(
    ffmpeg_available: bool,
    format_id: &str,
    formats: &Vec<VideoFormat>,
) -> (r: String)
    ensures
        r@ == format_spec_string(ffmpeg_available, format_id@, formats@),
{
    let idv = text::str_chars(format_id);
    let is_best = text::chars_eq_str(&idv, "best");
    if ffmpeg_available {
        if is_best {
            "bestvideo[ext=mp4]+bestaudio[ext=m4a]/best[ext=mp4]/best".to_owned()
        } else {
            let mut out = text::copy_chars(&idv);
            text::append_str(&mut out, "/best");
            text::chars_string(&out)
        }
    } else {
        if is_best {
            "best[ext=mp4]/best".to_owned()
        } else {
            let ghost pred = id_matcher(format_id@);
            let n = formats.len();
            let mut i: usize = 0;
            while i < n
                invariant
                    i <= n,
                    n == formats@.len(),
                    forall|j: int| 0 <= j < i ==> !pred(#[trigger] formats@[j]),
                decreases n - i,
            {
                let fid = text::str_chars(formats[i].id.as_str());
                if text::chars_eq(&fid, &idv) {
                    proof {
                        assert(pred(formats@[i as int]));
                        crate::downloader::lemma_first_where_is(formats@, pred, i as int);
                    }
                    let mut out = text::copy_chars(&idv);
                    text::append_str(&mut out, "/best[height<=");
                    let label = quality_height_chars(&formats[i].quality);
                    text::append_chars(&mut out, &label);
                    text::append_str(&mut out, "][ext=mp4]/best");
                    return text::chars_string(&out);
                }
                i = i + 1;
            }
            proof {
                crate::downloader::lemma_first_where_none(formats@, pred);
            }
            "best[ext=mp4]/best".to_owned()
        }
    }
}

/// The height label of a quality tier, as characters.
fn quality_height_chars(q: &Quality) -> (r: Vec<char>)
    ensures
        r@ == quality_height_label(*q),
{
    match q {
        Quality::UHD2160 => text::str_chars("2160"),
        Quality::HD1080 => text::str_chars("1080"),
        Quality::HD720 => text::str_chars("720"),
        Quality::High => text::str_chars("720"),
        Quality::Medium => text::str_chars("480"),
        Quality::Low => text::str_chars("360"),
        Quality::Custom(s) => text::str_chars(s.as_str()),
    }
}

/// `x` capped at 101: enough to distinguish whole-percent values above 100.
pub open spec fn capped101(x: int) -> int {
    if x > 101 {
        101
    } else {
        x
    }
}

/// The progress a downloader output line reports, in thousandths, capped at
/// 1000. A line reports progress when its first download tag is followed by
/// at least one blank, a digit run, a point, a digit run, and a percent sign;
/// the value is the whole percents and the first fractional digit.
pub open spec fn progress_permille_spec(l: Seq<char>) -> Option<int> {
    match text::find_spec(l, "[download]"@) {
        None => None,
        Some(i) => {
            let a = i + "[download]"@.len();
            let b = text::space_run_end(l, a as int);
            if b == a {
                None
            } else {
                let d1 = text::digit_run_end(l, b);
                if d1 == b {
                    None
                } else if d1 < l.len() && l[d1] == '.' {
                    let d2 = text::digit_run_end(l, d1 + 1);
                    if d2 == d1 + 1 {
                        None
                    } else if d2 < l.len() && l[d2] == '%' {
                        let whole = text::digits_value(l, b, d1);
                        let tenth = l[d1 + 1] as u32 - 48;
                        if whole > 100 {
                            Some(1000)
                        } else if whole * 10 + tenth > 1000 {
                            Some(1000)
                        } else {
                            Some(whole * 10 + tenth)
                        }
                    } else {
                        None
                    }
                } else {
                    None
                }
            }
        },
    }
}

/// Is this character a decimal digit?
fn is_digit_char(c: char) -> (r: bool)
    ensures
        r == text::is_digit(c),
{
    let u = c as u32;
    48 <= u && u <= 57
}

/// Parse the progress a downloader output line reports, in thousandths.
#[verifier::loop_isolation(false)]
pub fn parse_progress_line(line: &str) -> (r: Option<u32>)
    ensures
        match r {
            Some(p) => progress_permille_spec(line@) == Some(p as int) && p <= 1000,
            None => progress_permille_spec(line@) is None,
        },
{
    let l = text::str_chars(line);
    let tag = text::str_chars("[download]");
    let start: usize = match text::find_first(&l, &tag) {
        Some(i) => {
            proof {
                text::lemma_find_spec(l@, tag@);
            }
            i + tag.len()
        },
        None => {
            return None;
        },
    };
    let n = l.len();
    let mut b = start;
    while b < n && (l[b] == ' ' || l[b] == '\t')
        invariant
            start <= b <= n,
            text::space_run_end(l@, start as int) == text::space_run_end(l@, b as int),
        decreases n - b,
    {
        b = b + 1;
    }
    assert(text::space_run_end(l@, start as int) == b);
    if b == start {
        return None;
    }
    let mut d1 = b;
    let mut acc: u32 = 0;
    while d1 < n && is_digit_char(l[d1])
        invariant
            b <= d1 <= n,
            text::digit_run_end(l@, b as int) == text::digit_run_end(l@, d1 as int),
            0 <= text::digits_value(l@, b as int, d1 as int),
            acc == capped101(text::digits_value(l@, b as int, d1 as int)),
        decreases n - d1,
    {
        let d = (l[d1] as u32) - 48;
        let next = acc * 10 + d;
        if next > 101 {
            acc = 101;
        } else {
            acc = next;
        }
        d1 = d1 + 1;
    }
    assert(text::digit_run_end(l@, b as int) == d1);
    if d1 == b {
        return None;
    }
    if d1 < n && l[d1] == '.' {
        let t = d1 + 1;
        let mut d2 = t;
        while d2 < n && is_digit_char(l[d2])
            invariant
                t <= d2 <= n,
                text::digit_run_end(l@, t as int) == text::digit_run_end(l@, d2 as int),
            decreases n - d2,
        {
            d2 = d2 + 1;
        }
        assert(text::digit_run_end(l@, t as int) == d2);
        if d2 == t {
            return None;
        }
        if d2 < n && l[d2] == '%' {
            let tenth = (l[t] as u32) - 48;
            proof {
                assert(text::is_digit(l@[t as int]));
            }
            if acc > 100 {
                return Some(1000);
            }
            let v = acc * 10 + tenth;
            if v > 1000 {
                return Some(1000);
            }
            return Some(v);
        }
        return None;
    }
    None
}

/// YouTube video metadata, as the external tool's JSON dump carries it.
#[derive(Debug, Clone)]
pub struct YtMetadata {
    pub title: String,
    pub description: Option<String>,
    pub duration: Option<u64>,
    pub video_id: String,
}

/// Spec-level image of `YtMetadata`.
pub struct YtMetadataView {
    pub title: Seq<char>,
    pub description: Option<Seq<char>>,
    pub duration: Option<u64>,
    pub video_id: Seq<char>,
}

impl View for YtMetadata {
    type V = YtMetadataView;

    open spec fn view(&self) -> YtMetadataView {
        YtMetadataView {
            title: self.title@,
            description: match self.description {
                Some(d) => Some(d@),
                None => None,
            },
            duration: self.duration,
            video_id: self.video_id@,
        }
    }
}

/// What the metadata-dump JSON carries for a given text: `None` when the text
/// is not a JSON object with the expected title and id fields.
pub uninterp spec fn yt_metadata_of(s: Seq<char>) -> Option<YtMetadataView>;

/// Relies on serde_json::from_str and serde_json::Value's accessors: parsing
/// is a pure function of the input text; the duration field is truncated to
/// whole seconds.
#[verifier::external_body]
fn metadata_json_outside(s: &str) -> (r: Option<YtMetadata>)
    ensures
        match r {
            Some(md) => yt_metadata_of(s@) == Some(md@),
            None => yt_metadata_of(s@) is None,
        },
{
    let v: serde_json::Value = serde_json::from_str(s).ok()?;
    let title = v.get("title")?.as_str()?.to_string();
    let video_id = v.get("id")?.as_str()?.to_string();
    let description = v.get("description").and_then(|d| d.as_str()).map(|d| d.to_string());
    let duration = v.get("duration").and_then(|d| d.as_f64()).map(|d| d as u64);
    Some(YtMetadata { title, description, duration, video_id })
}

/// Parse the metadata-dump JSON; a text without the expected fields is a
/// typed output-parsing failure.
pub fn parse_metadata_json(s: &str) -> (r: Result<YtMetadata, Error>)
    ensures
        match r {
            Ok(md) => yt_metadata_of(s@) == Some(md@),
            Err(e) => yt_metadata_of(s@) is None && (e matches Error::OutputParsing(m) && m@
                == "Failed to parse video metadata"@),
        },
{
    match metadata_json_outside(s) {
        Some(md) => Ok(md),
        None => Err(Error::OutputParsing("Failed to parse video metadata".to_owned())),
    }
}

/// The canonical watch URL for a video id.
pub fn watch_url(video_id: &str) -> (r: String)
    ensures
        r@ == "https://www.youtube.com/watch?v="@ + video_id@,
{
    let mut v: Vec<char> = Vec::new();
    text::append_str(&mut v, "https://www.youtube.com/watch?v=");
    text::append_str(&mut v, video_id);
    text::chars_string(&v)
}

/// Assemble the extracted metadata and format list into the caller-facing
/// record.
pub fn assemble_video_info(url: &str, md: &YtMetadata, formats: Vec<VideoFormat>) -> (r:
    crate::VideoInfo)
    requires
        formats@.len() > 0,
    ensures
        r.wf(),
        r.url@ == url@,
        r.title == md.title,
        r.description == md.description,
        r.duration == md.duration,
        r.formats == formats,
{
    crate::VideoInfo {
        url: url.to_owned(),
        title: md.title.clone(),
        description: match &md.description {
            Some(d) => Some(d.clone()),
            None => None,
        },
        duration: match &md.duration {
            Some(d) => Some(*d),
            None => None,
        },
        formats,
    }
}

/// Decide the download's outcome once the external downloader has exited:
/// a missing output file is a failure that names the likelier cause; an
/// existing output file is success even on a non-zero exit.
pub fn download_outcome(output_exists: bool, ffmpeg_available: bool, error_output: &str) -> (r:
    Result<(), Error>)
    ensures
        output_exists == (r is Ok),
        !output_exists ==> (r matches Err(e) ==> (e matches Error::DownloadFailed { reason }
            && reason@ == "Download failed: Output file not created. "@ + (if !ffmpeg_available {
            "ffmpeg is required for merging video and audio. Please install ffmpeg."@
        } else {
            error_output@
        }))),
{
    if output_exists {
        Ok(())
    } else {
        let mut v: Vec<char> = Vec::new();
        text::append_str(&mut v, "Download failed: Output file not created. ");
        if !ffmpeg_available {
            text::append_str(
                &mut v,
                "ffmpeg is required for merging video and audio. Please install ffmpeg.",
            );
        } else {
            text::append_str(&mut v, error_output);
        }
        Err(Error::DownloadFailed { reason: text::chars_string(&v) })
    }
}

} // verus!
