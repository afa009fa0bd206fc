//! Format negotiation and output-file naming.
//!
//! Given a video's format list and a requested (quality, container) pair,
//! `select_format` picks one concrete stream by a tiered fallback policy:
//! exact match, then quality-only, then (unless the requested quality is the
//! sentinel "best") container-only, then the list's own first entry.

use vstd::prelude::*;
use crate::error::Error;
use crate::text;
use crate::VideoFormat;

verus! {

/// The format's quality label equals the requested one, ASCII-case-
/// insensitively.
pub open spec fn quality_matches(f: VideoFormat, q: Seq<char>) -> bool {
    text::eq_ignore_case_spec(f.quality.label_spec(), q)
}

/// The format's container label equals the requested one, ASCII-case-
/// insensitively.
pub open spec fn container_matches(f: VideoFormat, c: Seq<char>) -> bool {
    text::eq_ignore_case_spec(f.format.label_spec(), c)
}

/// The first index whose format satisfies `pred`, if any.
pub open spec fn first_where(fs: Seq<VideoFormat>, pred: spec_fn(VideoFormat) -> bool) -> Option<
    int,
>
    decreases fs.len(),
{
    if fs.len() == 0 {
        None
    } else if pred(fs[0]) {
        Some(0)
    } else {
        match first_where(fs.skip(1), pred) {
            Some(i) => Some(i + 1),
            None => None,
        }
    }
}

/// `first_where` yields the least index satisfying `pred`, or `None` when no
/// index does.
pub proof fn lemma_first_where(fs: Seq<VideoFormat>, pred: spec_fn(VideoFormat) -> bool)
    ensures
        match first_where(fs, pred) {
            Some(i) => 0 <= i < fs.len() && pred(fs[i]) && forall|j: int|
                0 <= j < i ==> !pred(#[trigger] fs[j]),
            None => forall|j: int| 0 <= j < fs.len() ==> !pred(#[trigger] fs[j]),
        },
    decreases fs.len(),
{
    if fs.len() == 0 {
    } else if pred(fs[0]) {
    } else {
        lemma_first_where(fs.skip(1), pred);
        assert(forall|j: int| 1 <= j < fs.len() ==> fs[j] == fs.skip(1)[j - 1]);
    }
}

/// The least index satisfying `pred` determines `first_where`.
pub proof fn lemma_first_where_is(
    fs: Seq<VideoFormat>,
    pred: spec_fn(VideoFormat) -> bool,
    i: int,
)
    requires
        0 <= i < fs.len(),
        pred(fs[i]),
        forall|j: int| 0 <= j < i ==> !pred(#[trigger] fs[j]),
    ensures
        first_where(fs, pred) == Some(i),
{
    lemma_first_where(fs, pred);
    match first_where(fs, pred) {
        Some(k) => {
            if k < i {
                assert(pred(fs[k]));
                assert(false);
            } else if k > i {
                assert(!pred(fs[i]));
                assert(false);
            }
        },
        None => {
            assert(!pred(fs[i]));
            assert(false);
        },
    }
}

/// No index satisfies `pred`, so `first_where` is `None`.
pub proof fn lemma_first_where_none(fs: Seq<VideoFormat>, pred: spec_fn(VideoFormat) -> bool)
    requires
        forall|j: int| 0 <= j < fs.len() ==> !pred(#[trigger] fs[j]),
    ensures
        first_where(fs, pred) is None,
{
    lemma_first_where(fs, pred);
    match first_where(fs, pred) {
        Some(k) => {
            assert(!pred(fs[k]));
            assert(false);
        },
        None => {},
    }
}

/// The negotiator's choice: exact match first, then quality-only, then
/// container-only unless the requested quality is "best", then the first
/// entry; `None` only for an empty list.
pub open spec fn selection_spec(fs: Seq<VideoFormat>, q: Seq<char>, c: Seq<char>) -> Option<int> {
    let exact = first_where(fs, |f: VideoFormat| quality_matches(f, q) && container_matches(f, c));
    let by_quality = first_where(fs, |f: VideoFormat| quality_matches(f, q));
    let by_container = first_where(fs, |f: VideoFormat| container_matches(f, c));
    if exact is Some {
        exact
    } else if by_quality is Some {
        by_quality
    } else if text::lower_seq(q) != "best"@ && by_container is Some {
        by_container
    } else if fs.len() > 0 {
        Some(0)
    } else {
        None
    }
}

/// The format passes whichever of the quality and container tests are
/// demanded.
pub open spec fn accepted(
    f: VideoFormat,
    q: Seq<char>,
    c: Seq<char>,
    need_quality: bool,
    need_container: bool,
) -> bool {
    (!need_quality || quality_matches(f, q)) && (!need_container || container_matches(f, c))
}

/// Find the first format accepted by the requested quality test (and, when
/// `need_container` is set, the container test too).
fn find_matching(
    formats: &Vec<VideoFormat>,
    q: &Vec<char>,
    c: &Vec<char>,
    need_quality: bool,
    need_container: bool,
) -> (r: Option<usize>)
    requires
        need_quality || need_container,
    ensures
        match r {
            Some(i) => i < formats@.len() && accepted(
                formats@[i as int],
                q@,
                c@,
                need_quality,
                need_container,
            ) && forall|j: int|
                0 <= j < i ==> !accepted(
                    #[trigger] formats@[j],
                    q@,
                    c@,
                    need_quality,
                    need_container,
                ),
            None => forall|j: int|
                0 <= j < formats@.len() ==> !accepted(
                    #[trigger] formats@[j],
                    q@,
                    c@,
                    need_quality,
                    need_container,
                ),
        },
{
    let n = formats.len();
    let mut i: usize = 0;
    while i < n
        invariant
            i <= n,
            n == formats@.len(),
            forall|j: int|
                0 <= j < i ==> !accepted(
                    #[trigger] formats@[j],
                    q@,
                    c@,
                    need_quality,
                    need_container,
                ),
        decreases n - i,
    {
        let f = &formats[i];
        let ql = f.quality.label();
        let fl = f.format.label();
        let qv = text::str_chars(ql.as_str());
        let fv = text::str_chars(fl.as_str());
        let q_ok = !need_quality || text::chars_eq_ignore_case(&qv, q);
        let c_ok = !need_container || text::chars_eq_ignore_case(&fv, c);
        if q_ok && c_ok {
            return Some(i);
        }
        i = i + 1;
    }
    None
}

/// Select one concrete format for the requested quality and container labels
/// by the tiered fallback policy; fails only when the list is empty.
pub fn select_format(formats: &Vec<VideoFormat>, quality: &str, format: &str) -> (r: Result<
    usize,
    Error,
>)
    ensures
        match r {
            Ok(i) => i < formats@.len() && selection_spec(formats@, quality@, format@) == Some(
                i as int,
            ),
            Err(e) => formats@.len() == 0 && selection_spec(formats@, quality@, format@) is None
                && e == Error::NoSuitableFormats,
        },
{
    let q = text::str_chars(quality);
    let c = text::str_chars(format);
    let ghost exact_pred = |f: VideoFormat| quality_matches(f, q@) && container_matches(f, c@);
    let ghost q_pred = |f: VideoFormat| quality_matches(f, q@);
    let ghost c_pred = |f: VideoFormat| container_matches(f, c@);
    let exact = find_matching(formats, &q, &c, true, true);
    match exact {
        Some(i) => {
            proof {
                lemma_first_where_is(formats@, exact_pred, i as int);
            }
            Ok(i)
        },
        None => {
            proof {
                lemma_first_where_none(formats@, exact_pred);
            }
            let by_quality = find_matching(formats, &q, &c, true, false);
            match by_quality {
                Some(i) => {
                    proof {
                        lemma_first_where_is(formats@, q_pred, i as int);
                    }
                    Ok(i)
                },
                None => {
                    proof {
                        lemma_first_where_none(formats@, q_pred);
                    }
                    let lowered = text::to_lower(&q);
                    let is_best = text::chars_eq_str(&lowered, "best");
                    if !is_best {
                        let by_container = find_matching(formats, &q, &c, false, true);
                        match by_container {
                            Some(i) => {
                                proof {
                                    lemma_first_where_is(formats@, c_pred, i as int);
                                }
                                return Ok(i);
                            },
                            None => {
                                proof {
                                    lemma_first_where_none(formats@, c_pred);
                                }
                            },
                        }
                    }
                    if formats.len() > 0 {
                        Ok(0)
                    } else {
                        Err(Error::NoSuitableFormats)
                    }
                },
            }
        },
    }
}

/// What the filename sanitizer yields for a title.
pub uninterp spec fn sanitized_of(s: Seq<char>) -> Seq<char>;

/// Relies on sanitize_filename::sanitize_with_options, with the options
/// pinned (Windows rules on, truncation on, empty replacement) so the result
/// depends on the input string alone, on every build target.
#[verifier::external_body]
fn sanitize_name(s: &str) -> (r: String)
    ensures
        r@ == sanitized_of(s@),
{
    let options = sanitize_filename::Options { windows: true, truncate: true, replacement: "" };
    sanitize_filename::sanitize_with_options(s, options)
}

/// The name given to a temporary download file, from a unique token.
pub fn temp_file_name(unique: &str) -> (r: String)
    ensures
        r@ == "video-dl-"@ + unique@,
{
    let mut v: Vec<char> = Vec::new();
    text::append_str(&mut v, "video-dl-");
    text::append_str(&mut v, unique);
    text::chars_string(&v)
}

/// The output filename a batch gives a downloaded title.
pub fn batch_output_filename(title: &str) -> (r: String)
    ensures
        r@ == sanitized_of(title@) + ".mp4"@,
{
    let s = sanitize_name(title);
    let mut v: Vec<char> = Vec::new();
    text::append_str(&mut v, s.as_str());
    text::append_str(&mut v, ".mp4");
    text::chars_string(&v)
}

/// The default output filename for a single download: the sanitized title,
/// the quality label and the container label, lowercased.
pub fn default_output_filename(title: &str, quality_label: &str, format_label: &str) -> (r: String)
    ensures
        r@ == sanitized_of(title@) + "-"@ + text::lower_seq(quality_label@) + "."@
            + text::lower_seq(format_label@),
{
    let s = sanitize_name(title);
    let mut v: Vec<char> = Vec::new();
    text::append_str(&mut v, s.as_str());
    text::append_str(&mut v, "-");
    let qv = text::str_chars(quality_label);
    let ql = text::to_lower(&qv);
    text::append_chars(&mut v, &ql);
    text::append_str(&mut v, ".");
    let fv = text::str_chars(format_label);
    let fl = text::to_lower(&fv);
    text::append_chars(&mut v, &fl);
    text::chars_string(&v)
}

} // verus!
