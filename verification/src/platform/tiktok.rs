//! The TikTok strategy: URL recognition and canonicalization, and the
//! multi-tier metadata-extraction fallback chain.

use vstd::prelude::*;
use base64::Engine;
use crate::error::Error;
use crate::text;
use crate::urlparts::{UrlParts, UrlPartsView};
use crate::{Format, Quality, VideoFormat, VideoInfo};

verus! {

/// What the regex engine's capture groups yield for a pattern on a text:
/// `None` when the pattern is invalid or does not match; otherwise one entry
/// per group (group 0 first), `None` for groups that did not participate.
pub uninterp spec fn captures_of(pat: Seq<char>, text: Seq<char>) -> Option<
    Seq<Option<Seq<char>>>,
>;

/// Relies on regex::Regex::new and Regex::captures: matching is a pure
/// function of the pattern and text alone.
#[verifier::external_body]
fn regex_captures(pattern: &str, text: &str) -> (r: Option<Vec<Option<String>>>)
    ensures
        match r {
            Some(groups) => captures_of(pattern@, text@) == Some(groups.deep_view()),
            None => captures_of(pattern@, text@) is None,
        },
{
    let re = regex::Regex::new(pattern).ok()?;
    let caps = re.captures(text)?;
    Some(caps.iter().map(|m| m.map(|g| g.as_str().to_string())).collect())
}

/// The first capture group of a pattern on a text, if the pattern matches
/// and the group participates.
pub open spec fn cap1(pat: Seq<char>, text: Seq<char>) -> Option<Seq<char>> {
    match captures_of(pat, text) {
        Some(g) => if g.len() > 1 && g[1] is Some {
            Some(g[1]->0)
        } else {
            None
        },
        None => None,
    }
}

/// The first two capture groups of a pattern on a text, when both
/// participate.
pub open spec fn cap2(pat: Seq<char>, text: Seq<char>) -> Option<(Seq<char>, Seq<char>)> {
    match captures_of(pat, text) {
        Some(g) => if g.len() > 2 && g[1] is Some && g[2] is Some {
            Some((g[1]->0, g[2]->0))
        } else {
            None
        },
        None => None,
    }
}

/// The first capture group of `pattern` in `text`.
fn capture1(pattern: &str, text: &str) -> (r: Option<String>)
    ensures
        match r {
            Some(c) => cap1(pattern@, text@) == Some(c@),
            None => cap1(pattern@, text@) is None,
        },
{
    match regex_captures(pattern, text) {
        Some(mut groups) => {
            if groups.len() > 1 {
                proof {
                    assert(groups.deep_view()[1] == match groups@[1] {
                        Some(s) => Some(s@),
                        None => None::<Seq<char>>,
                    });
                }
                let g = groups.remove(1);
                match g {
                    Some(s) => Some(s),
                    None => None,
                }
            } else {
                None
            }
        },
        None => None,
    }
}

/// The first two capture groups of `pattern` in `text`.
fn capture_pair(pattern: &str, text: &str) -> (r: Option<(String, String)>)
    ensures
        match r {
            Some(c) => cap2(pattern@, text@) == Some((c.0@, c.1@)),
            None => cap2(pattern@, text@) is None,
        },
{
    match regex_captures(pattern, text) {
        Some(mut groups) => {
            if groups.len() > 2 {
                proof {
                    assert(groups.deep_view()[1] == match groups@[1] {
                        Some(s) => Some(s@),
                        None => None::<Seq<char>>,
                    });
                    assert(groups.deep_view()[2] == match groups@[2] {
                        Some(s) => Some(s@),
                        None => None::<Seq<char>>,
                    });
                }
                let b = groups.remove(2);
                let a = groups.remove(1);
                match (a, b) {
                    (Some(x), Some(y)) => Some((x, y)),
                    _ => None,
                }
            } else {
                None
            }
        },
        None => None,
    }
}

/// What the standard-alphabet base64 decoder yields for a text: `None` when
/// the text is not valid base64.
pub uninterp spec fn base64_of(s: Seq<char>) -> Option<Seq<u8>>;

/// Relies on base64's standard-alphabet engine: decoding is a pure function
/// of the input text alone.
#[verifier::external_body]
fn base64_decode(s: &str) -> (r: Option<Vec<u8>>)
    ensures
        match r {
            Some(b) => base64_of(s@) == Some(b@),
            None => base64_of(s@) is None,
        },
{
    base64::engine::general_purpose::STANDARD.decode(s).ok()
}

/// What decoding bytes as UTF-8 yields: `None` exactly when the bytes are
/// not valid UTF-8.
pub uninterp spec fn utf8_of(b: Seq<u8>) -> Option<Seq<char>>;

/// Relies on String::from_utf8: the decoded text is a pure function of the
/// bytes alone.
#[verifier::external_body]
fn utf8_string(b: Vec<u8>) -> (r: Option<String>)
    ensures
        match r {
            Some(s) => utf8_of(b@) == Some(s@),
            None => utf8_of(b@) is None,
        },
{
    String::from_utf8(b).ok()
}

/// Whether a text parses as JSON.
pub uninterp spec fn is_json_of(s: Seq<char>) -> bool;

/// Relies on serde_json::from_str: whether a text parses as JSON is a pure
/// function of the text alone.
#[verifier::external_body]
fn json_parses(s: &str) -> (r: bool)
    ensures
        r == is_json_of(s@),
{
    serde_json::from_str::<serde_json::Value>(s).is_ok()
}

/// Whether the JSON text is an object carrying the named field.
pub uninterp spec fn json_has_of(s: Seq<char>, key: Seq<char>) -> bool;

/// Relies on serde_json::from_str and Value::get: field presence is a pure
/// function of the text and key alone.
#[verifier::external_body]
fn json_has_field(s: &str, key: &str) -> (r: bool)
    ensures
        r == json_has_of(s@, key@),
{
    match serde_json::from_str::<serde_json::Value>(s) {
        Ok(v) => v.get(key).is_some(),
        Err(_) => false,
    }
}

/// The string at the named top-level field of the JSON text, if any.
pub uninterp spec fn json_str1_of(s: Seq<char>, key: Seq<char>) -> Option<Seq<char>>;

/// Relies on serde_json::from_str, Value::get and Value::as_str: the field's
/// text is a pure function of the JSON text and key alone.
#[verifier::external_body]
fn json_str_field(s: &str, key: &str) -> (r: Option<String>)
    ensures
        match r {
            Some(v) => json_str1_of(s@, key@) == Some(v@),
            None => json_str1_of(s@, key@) is None,
        },
{
    let v: serde_json::Value = serde_json::from_str(s).ok()?;
    Some(v.get(key)?.as_str()?.to_string())
}

/// The string at `.a.b` of the JSON text, if any.
pub uninterp spec fn json_str2_of(s: Seq<char>, a: Seq<char>, b: Seq<char>) -> Option<Seq<char>>;

/// Relies on serde_json::from_str, Value::get and Value::as_str: the nested
/// field's text is a pure function of the JSON text and keys alone.
#[verifier::external_body]
fn json_str_at(s: &str, a: &str, b: &str) -> (r: Option<String>)
    ensures
        match r {
            Some(v) => json_str2_of(s@, a@, b@) == Some(v@),
            None => json_str2_of(s@, a@, b@) is None,
        },
{
    let v: serde_json::Value = serde_json::from_str(s).ok()?;
    Some(v.get(a)?.get(b)?.as_str()?.to_string())
}

/// The unsigned number at `.a.b` of the JSON text, if any.
pub uninterp spec fn json_u64_2_of(s: Seq<char>, a: Seq<char>, b: Seq<char>) -> Option<u64>;

/// Relies on serde_json::from_str, Value::get and Value::as_u64: the nested
/// field's number is a pure function of the JSON text and keys alone.
#[verifier::external_body]
fn json_u64_at(s: &str, a: &str, b: &str) -> (r: Option<u64>)
    ensures
        r == json_u64_2_of(s@, a@, b@),
{
    let v: serde_json::Value = serde_json::from_str(s).ok()?;
    v.get(a)?.get(b)?.as_u64()
}

/// The first item of the feed endpoint's `aweme_list`, rendered back as JSON
/// text, if any.
pub uninterp spec fn feed_item_of(s: Seq<char>) -> Option<Seq<char>>;

/// Relies on serde_json::from_str, Value::get and Value::to_string: the first
/// feed item's rendering is a pure function of the response text alone.
#[verifier::external_body]
fn json_first_feed_item(s: &str) -> (r: Option<String>)
    ensures
        match r {
            Some(v) => feed_item_of(s@) == Some(v@),
            None => feed_item_of(s@) is None,
        },
{
    let v: serde_json::Value = serde_json::from_str(s).ok()?;
    Some(v.get("aweme_list")?.get(0)?.to_string())
}

/// The fields of the site's video object that the library reads. Numeric
/// fields default to zero when absent; the two media URLs are required when
/// the video object is present and empty when it is absent.
#[derive(Debug, Clone)]
pub struct VideoPayload {
    pub desc: String,
    pub height: u64,
    pub duration: u64,
    pub play_url: String,
    pub download_url: String,
    pub bit_rate: u64,
    pub author_nickname: String,
    pub author_unique_id: String,
    pub play_count: u64,
    pub like_count: u64,
}

/// Spec-level image of `VideoPayload`.
pub struct VideoPayloadView {
    pub desc: Seq<char>,
    pub height: u64,
    pub duration: u64,
    pub play_url: Seq<char>,
    pub download_url: Seq<char>,
    pub bit_rate: u64,
    pub author_nickname: Seq<char>,
    pub author_unique_id: Seq<char>,
    pub play_count: u64,
    pub like_count: u64,
}

impl View for VideoPayload {
    type V = VideoPayloadView;

    open spec fn view(&self) -> VideoPayloadView {
        VideoPayloadView {
            desc: self.desc@,
            height: self.height,
            duration: self.duration,
            play_url: self.play_url@,
            download_url: self.download_url@,
            bit_rate: self.bit_rate,
            author_nickname: self.author_nickname@,
            author_unique_id: self.author_unique_id@,
            play_count: self.play_count,
            like_count: self.like_count,
        }
    }
}

/// The value, or zero when absent.
pub open spec fn or_zero(o: Option<u64>) -> u64 {
    match o {
        Some(v) => v,
        None => 0,
    }
}

/// The video object a JSON text carries: the description, author name and
/// handle are required, the media URLs are required whenever the `video`
/// object is present, a `stats` object must be present, and absent numbers
/// default to zero.
pub open spec fn payload_spec(s: Seq<char>) -> Option<VideoPayloadView> {
    if json_str1_of(s, "desc"@) is None {
        None
    } else if json_has_of(s, "video"@) && (json_str2_of(s, "video"@, "playAddr"@) is None
        || json_str2_of(s, "video"@, "downloadAddr"@) is None) {
        None
    } else if json_str2_of(s, "author"@, "nickname"@) is None || json_str2_of(
        s,
        "author"@,
        "uniqueId"@,
    ) is None {
        None
    } else if !json_has_of(s, "stats"@) {
        None
    } else {
        Some(
            VideoPayloadView {
                desc: json_str1_of(s, "desc"@)->0,
                height: or_zero(json_u64_2_of(s, "video"@, "height"@)),
                duration: or_zero(json_u64_2_of(s, "video"@, "duration"@)),
                play_url: if json_has_of(s, "video"@) {
                    json_str2_of(s, "video"@, "playAddr"@)->0
                } else {
                    Seq::<char>::empty()
                },
                download_url: if json_has_of(s, "video"@) {
                    json_str2_of(s, "video"@, "downloadAddr"@)->0
                } else {
                    Seq::<char>::empty()
                },
                bit_rate: or_zero(json_u64_2_of(s, "video"@, "bitrate"@)),
                author_nickname: json_str2_of(s, "author"@, "nickname"@)->0,
                author_unique_id: json_str2_of(s, "author"@, "uniqueId"@)->0,
                play_count: or_zero(json_u64_2_of(s, "stats"@, "playCount"@)),
                like_count: or_zero(json_u64_2_of(s, "stats"@, "likeCount"@)),
            },
        )
    }
}

/// Read the video object out of a JSON text.
pub fn parse_video_payload(s: &str) -> (r: Option<VideoPayload>)
    ensures
        match r {
            Some(p) => payload_spec(s@) == Some(p@),
            None => payload_spec(s@) is None,
        },
{
    let desc = match json_str_field(s, "desc") {
        Some(d) => d,
        None => {
            return None;
        },
    };
    let has_video = json_has_field(s, "video");
    let (play_url, download_url) = if has_video {
        let p = match json_str_at(s, "video", "playAddr") {
            Some(x) => x,
            None => {
                return None;
            },
        };
        let d = match json_str_at(s, "video", "downloadAddr") {
            Some(x) => x,
            None => {
                return None;
            },
        };
        (p, d)
    } else {
        (String::new(), String::new())
    };
    let nickname = match json_str_at(s, "author", "nickname") {
        Some(x) => x,
        None => {
            return None;
        },
    };
    let unique_id = match json_str_at(s, "author", "uniqueId") {
        Some(x) => x,
        None => {
            return None;
        },
    };
    if !json_has_field(s, "stats") {
        return None;
    }
    let height = match json_u64_at(s, "video", "height") {
        Some(v) => v,
        None => 0,
    };
    let duration = match json_u64_at(s, "video", "duration") {
        Some(v) => v,
        None => 0,
    };
    let bit_rate = match json_u64_at(s, "video", "bitrate") {
        Some(v) => v,
        None => 0,
    };
    let play_count = match json_u64_at(s, "stats", "playCount") {
        Some(v) => v,
        None => 0,
    };
    let like_count = match json_u64_at(s, "stats", "likeCount") {
        Some(v) => v,
        None => 0,
    };
    Some(
        VideoPayload {
            desc,
            height,
            duration,
            play_url,
            download_url,
            bit_rate,
            author_nickname: nickname,
            author_unique_id: unique_id,
            play_count,
            like_count,
        },
    )
}

/// Characters that can appear in base64 text: ASCII alphanumerics, `+`, `/`
/// and `=`.
pub open spec fn is_b64_char(c: char) -> bool {
    ||| 48 <= c as u32 <= 57
    ||| 65 <= c as u32 <= 90
    ||| 97 <= c as u32 <= 122
    ||| c == '+'
    ||| c == '/'
    ||| c == '='
}

/// The text looks like base64: every character is from the base64 alphabet.
pub open spec fn b64ish(s: Seq<char>) -> bool {
    forall|i: int| 0 <= i < s.len() ==> is_b64_char(#[trigger] s[i])
}

/// A captured payload, decoded from base64 when it looks like base64 and
/// decodes to UTF-8 text, and kept as captured otherwise.
pub open spec fn decoded_payload_spec(c: Seq<char>) -> Seq<char> {
    if b64ish(c) {
        match base64_of(c) {
            Some(bytes) => match utf8_of(bytes) {
                Some(t) => t,
                None => c,
            },
            None => c,
        }
    } else {
        c
    }
}

/// Is every character of `v` from the base64 alphabet?
fn chars_b64ish(v: &Vec<char>) -> (r: bool)
    ensures
        r == b64ish(v@),
{
    let n = v.len();
    let mut i: usize = 0;
    while i < n
        invariant
            i <= n,
            n == v@.len(),
            forall|j: int| 0 <= j < i ==> is_b64_char(#[trigger] v@[j]),
        decreases n - i,
    {
        let c = v[i];
        let u = c as u32;
        let ok = (48 <= u && u <= 57) || (65 <= u && u <= 90) || (97 <= u && u <= 122) || c == '+'
            || c == '/' || c == '=';
        if !ok {
            return false;
        }
        i = i + 1;
    }
    true
}

/// Decode a captured payload when it looks like base64.
fn decode_payload(c: String) -> (r: String)
    ensures
        r@ == decoded_payload_spec(c@),
{
    let cv = text::str_chars(c.as_str());
    if chars_b64ish(&cv) {
        match base64_decode(c.as_str()) {
            Some(bytes) => match utf8_string(bytes) {
                Some(t) => t,
                None => c,
            },
            None => c,
        }
    } else {
        c
    }
}

/// One embedded-pattern attempt: capture the payload, decode it if it looks
/// like base64, and accept it when the result parses as JSON.
pub open spec fn script_attempt_spec(pat: Seq<char>, html: Seq<char>) -> Option<Seq<char>> {
    match cap1(pat, html) {
        Some(c) => {
            let t = decoded_payload_spec(c);
            if is_json_of(t) {
                Some(t)
            } else {
                None
            }
        },
        None => None,
    }
}

/// One inline-assignment attempt: capture the payload and accept it when it
/// parses as JSON, with no decoding step.
pub open spec fn item_attempt_spec(pat: Seq<char>, html: Seq<char>) -> Option<Seq<char>> {
    match cap1(pat, html) {
        Some(c) => if is_json_of(c) {
            Some(c)
        } else {
            None
        },
        None => None,
    }
}

/// Run one embedded-pattern attempt.
fn script_attempt(pattern: &str, html: &str) -> (r: Option<String>)
    ensures
        match r {
            Some(t) => script_attempt_spec(pattern@, html@) == Some(t@),
            None => script_attempt_spec(pattern@, html@) is None,
        },
{
    match capture1(pattern, html) {
        Some(c) => {
            let t = decode_payload(c);
            if json_parses(t.as_str()) {
                Some(t)
            } else {
                None
            }
        },
        None => None,
    }
}

/// Run one inline-assignment attempt.
fn item_attempt(pattern: &str, html: &str) -> (r: Option<String>)
    ensures
        match r {
            Some(t) => item_attempt_spec(pattern@, html@) == Some(t@),
            None => item_attempt_spec(pattern@, html@) is None,
        },
{
    match capture1(pattern, html) {
        Some(c) => {
            if json_parses(c.as_str()) {
                Some(c)
            } else {
                None
            }
        },
        None => None,
    }
}

/// The payload the page's embedded structured data yields: the known script
/// patterns are tried in a fixed priority order, then the inline-assignment
/// patterns; the first attempt that yields parseable JSON wins.
pub open spec fn embedded_payload_spec(html: Seq<char>) -> Option<Seq<char>> {
    let a1 = script_attempt_spec(
        "<script id=\"SIGI_STATE\" type=\"application/json\">(.+?)</script>"@,
        html,
    );
    let a2 = script_attempt_spec(
        "<script id=\"__NEXT_DATA__\" type=\"application/json\">(.+?)</script>"@,
        html,
    );
    let a3 = script_attempt_spec("window\\._SSR_DATA\\s*=\\s*({.+?})</script>"@, html);
    let a4 = script_attempt_spec(
        "<script id=\"__UNIVERSAL_DATA_FOR_REHYDRATION__\" type=\"application/json\">(.+?)</script>"@,
        html,
    );
    let a5 = script_attempt_spec(
        "<script id=\"RENDER_DATA\" type=\"application/json\">(.+?)</script>"@,
        html,
    );
    let a6 = script_attempt_spec("window\\.__INIT_PROPS__\\s*=\\s*({.+?});\\s*</script>"@, html);
    let b1 = item_attempt_spec("\"videoData\"\\s*:\\s*({.+?}),\\s*"@, html);
    let b2 = item_attempt_spec("\"ItemModule\"\\s*:\\s*({.+?}),\\s*"@, html);
    let b3 = item_attempt_spec("\"itemInfo\"\\s*:\\s*({.+?}),\\s*"@, html);
    if a1 is Some {
        a1
    } else if a2 is Some {
        a2
    } else if a3 is Some {
        a3
    } else if a4 is Some {
        a4
    } else if a5 is Some {
        a5
    } else if a6 is Some {
        a6
    } else if b1 is Some {
        b1
    } else if b2 is Some {
        b2
    } else {
        b3
    }
}

/// Try every embedded pattern in priority order; the first attempt whose
/// payload parses as JSON wins.
pub fn extract_json_from_html(html: &str) -> (r: Option<String>)
    ensures
        match r {
            Some(t) => embedded_payload_spec(html@) == Some(t@),
            None => embedded_payload_spec(html@) is None,
        },
{
    if let Some(t) = script_attempt(
        "<script id=\"SIGI_STATE\" type=\"application/json\">(.+?)</script>",
        html,
    ) {
        return Some(t);
    }
    if let Some(t) = script_attempt(
        "<script id=\"__NEXT_DATA__\" type=\"application/json\">(.+?)</script>",
        html,
    ) {
        return Some(t);
    }
    if let Some(t) = script_attempt("window\\._SSR_DATA\\s*=\\s*({.+?})</script>", html) {
        return Some(t);
    }
    if let Some(t) = script_attempt(
        "<script id=\"__UNIVERSAL_DATA_FOR_REHYDRATION__\" type=\"application/json\">(.+?)</script>",
        html,
    ) {
        return Some(t);
    }
    if let Some(t) = script_attempt(
        "<script id=\"RENDER_DATA\" type=\"application/json\">(.+?)</script>",
        html,
    ) {
        return Some(t);
    }
    if let Some(t) = script_attempt("window\\.__INIT_PROPS__\\s*=\\s*({.+?});\\s*</script>", html) {
        return Some(t);
    }
    if let Some(t) = item_attempt("\"videoData\"\\s*:\\s*({.+?}),\\s*", html) {
        return Some(t);
    }
    if let Some(t) = item_attempt("\"ItemModule\"\\s*:\\s*({.+?}),\\s*", html) {
        return Some(t);
    }
    item_attempt("\"itemInfo\"\\s*:\\s*({.+?}),\\s*", html)
}

/// The TikTok platform strategy.
#[derive(Debug, Clone, Copy)]
pub struct TikTok {}

impl TikTok {
    /// A fresh strategy value.
    pub fn new() -> (r: Self) {
        TikTok {  }
    }

    /// The URL's host is tiktok.com, a subdomain of it, or the short-link
    /// host.
    pub open spec fn supports_spec(u: UrlPartsView) -> bool {
        text::ends_with_spec(u.host, "tiktok.com"@) || u.host == "vm.tiktok.com"@
    }

    /// Checks if the given URL is supported by this platform.
    pub fn supports_url(&self, u: &UrlParts) -> (r: bool)
        ensures
            r == TikTok::supports_spec(u@),
    {
        let host = text::str_chars(u.host.as_str());
        text::chars_end_with_str(&host, "tiktok.com") || text::chars_eq_str(&host, "vm.tiktok.com")
    }
}

impl Default for TikTok {
    /// The same value as `new`.
    fn default() -> (r: Self) {
        TikTok {  }
    }
}

/// The delay before the page fetch, in milliseconds.
pub const DELAY_MS: u64 = 200;

/// The delay before retrying with refreshed video info, in milliseconds.
pub const RETRY_DELAY_MS: u64 = 500;

/// The canonical form of a video URL: the short-link host rewritten to the
/// canonical host, the canonical subdomain added when missing, and the
/// scheme added when missing.
pub open spec fn canonical_url_spec(u: Seq<char>) -> Seq<char> {
    let step1 = text::replace_spec(u, "vm.tiktok.com"@, "www.tiktok.com"@);
    let step2 = if !text::contains_sub(step1, "www.tiktok.com"@) {
        text::replace_spec(step1, "tiktok.com"@, "www.tiktok.com"@)
    } else {
        step1
    };
    if !text::starts_with_spec(step2, "https://"@) {
        "https://"@ + step2
    } else {
        step2
    }
}

/// The username and video id a canonical URL carries: the standard
/// `@user/video/<id>` form first, then the short `/v/<id>` form, then the
/// bare `/video/<id>` form (the latter two carry no username).
pub open spec fn ids_spec(url: Seq<char>) -> Option<(Seq<char>, Seq<char>)> {
    match cap2("@([^/]+)/video/(\\d+)"@, url) {
        Some(p) => Some(p),
        None => match cap1("tiktok\\.com/v/(\\d+)"@, url) {
            Some(id) => Some((Seq::<char>::empty(), id)),
            None => match cap1("/video/(\\d+)"@, url) {
                Some(id) => Some((Seq::<char>::empty(), id)),
                None => None,
            },
        },
    }
}

/// The quality tier for a video height in pixels.
pub open spec fn height_quality_spec(h: u64) -> Quality {
    if h >= 1080 {
        Quality::HD1080
    } else if h >= 720 {
        Quality::HD720
    } else if h >= 480 {
        Quality::Medium
    } else {
        Quality::Low
    }
}

/// The salvage tier's media URL: the first of the known video-source
/// patterns that captures.
pub open spec fn salvage_video_url_spec(html: Seq<char>) -> Option<Seq<char>> {
    let c1 = cap1("<video[^>]*\\ssrc=\"([^\"]+)\"[^>]*>#is"@, html);
    let c2 = cap1("<video[^>]*\\sdata-src=\"([^\"]+)\"[^>]*>#is"@, html);
    let c3 = cap1("playAddr\":\"([^\"]+)"@, html);
    let c4 = cap1("playAddr\\\\\\\":\\\\\\\"([^\\\\]+)\\\\\\"@, html);
    let c5 = cap1("playAddr=([^&]+)"@, html);
    if c1 is Some {
        c1
    } else if c2 is Some {
        c2
    } else if c3 is Some {
        c3
    } else if c4 is Some {
        c4
    } else {
        c5
    }
}

/// A captured media URL cleaned of JSON escapes: escaped slashes and
/// ampersands restored, remaining backslashes dropped.
pub open spec fn clean_media_url_spec(u: Seq<char>) -> Seq<char> {
    text::replace_spec(
        text::replace_spec(text::replace_spec(u, "\\u002F"@, "/"@), "\\u0026"@, "&"@),
        "\\"@,
        ""@,
    )
}

/// The salvage tier's author name: the first author pattern that captures,
/// else a placeholder.
pub open spec fn salvage_author_spec(html: Seq<char>) -> Seq<char> {
    let a1 = cap1("nickname\":\"([^\"]+)"@, html);
    let a2 = cap1("nickname\\\\\\\":\\\\\\\"([^\\\\]+)\\\\\\"@, html);
    let a3 = cap1("<h3[^>]*>([^<]+)</h3>#is"@, html);
    if a1 is Some {
        a1->0
    } else if a2 is Some {
        a2->0
    } else if a3 is Some {
        a3->0
    } else {
        "Unknown"@
    }
}

/// The salvage tier's author handle: the first handle pattern that captures,
/// else a placeholder.
pub open spec fn salvage_handle_spec(html: Seq<char>) -> Seq<char> {
    let a1 = cap1("uniqueId\":\"([^\"]+)"@, html);
    let a2 = cap1("uniqueId\\\\\\\":\\\\\\\"([^\\\\]+)\\\\\\"@, html);
    let a3 = cap1("@([a-zA-Z0-9_.]+)"@, html);
    if a1 is Some {
        a1->0
    } else if a2 is Some {
        a2->0
    } else if a3 is Some {
        a3->0
    } else {
        "unknown"@
    }
}

/// The salvage tier's title: the first description pattern whose capture is
/// non-empty, else a placeholder naming the video id.
pub open spec fn salvage_title_spec(html: Seq<char>, video_id: Seq<char>) -> Seq<char> {
    let d1 = cap1("desc\":\"([^\"]+)"@, html);
    let d2 = cap1("desc\\\\\\\":\\\\\\\"([^\\\\]+)\\\\\\"@, html);
    let d3 = cap1("<meta name=\"description\" content=\"([^\"]+)"@, html);
    if d1 is Some && d1->0.len() > 0 {
        d1->0
    } else if d2 is Some && d2->0.len() > 0 {
        d2->0
    } else if d3 is Some && d3->0.len() > 0 {
        d3->0
    } else {
        "TikTok Video "@ + video_id
    }
}

/// The payload the salvage tier yields: it cannot fail once a media URL is
/// found, only degrade to placeholders; with no media URL it yields nothing.
pub open spec fn salvage_spec(html: Seq<char>, video_id: Seq<char>) -> Option<VideoPayloadView> {
    match salvage_video_url_spec(html) {
        None => None,
        Some(u) => Some(
            VideoPayloadView {
                desc: salvage_title_spec(html, video_id),
                height: 720,
                duration: 30,
                play_url: clean_media_url_spec(u),
                download_url: clean_media_url_spec(u),
                bit_rate: 1000000,
                author_nickname: salvage_author_spec(html),
                author_unique_id: salvage_handle_spec(html),
                play_count: 0,
                like_count: 0,
            },
        ),
    }
}

/// The video object the embedded-structured-data tier yields, if its payload
/// decodes into one.
pub open spec fn embedded_video_spec(html: Seq<char>) -> Option<VideoPayloadView> {
    match embedded_payload_spec(html) {
        Some(t) => payload_spec(t),
        None => None,
    }
}

/// The video object the private-API tier yields for a feed response, if its
/// first item decodes into one.
pub open spec fn api_video_spec(body: Seq<char>) -> Option<VideoPayloadView> {
    match feed_item_of(body) {
        Some(t) => payload_spec(t),
        None => None,
    }
}

/// The whole fallback chain: the embedded tier's result when it yields a
/// video object; else the API tier's, when a response is at hand and yields
/// one; else the salvage tier's.
pub open spec fn extraction_chain_spec(
    html: Seq<char>,
    api: Option<Seq<char>>,
    video_id: Seq<char>,
) -> Option<VideoPayloadView> {
    if embedded_video_spec(html) is Some {
        embedded_video_spec(html)
    } else if api is Some && api_video_spec(api->0) is Some {
        api_video_spec(api->0)
    } else {
        salvage_spec(html, video_id)
    }
}

/// An embedded payload that does not decode into the video object does not
/// end extraction: the chain's outcome is then the API tier's when that
/// yields a video object, and the salvage tier's otherwise; and when the
/// embedded and API tiers both yield nothing, the outcome is exactly the
/// salvage tier's.
pub proof fn lemma_extraction_fallback(html: Seq<char>, api: Option<Seq<char>>, id: Seq<char>)
    ensures
        (match embedded_payload_spec(html) {
            Some(t) => payload_spec(t) is None,
            None => false,
        }) ==> extraction_chain_spec(html, api, id) == (if api is Some && api_video_spec(
            api->0,
        ) is Some {
            api_video_spec(api->0)
        } else {
            salvage_spec(html, id)
        }),
        embedded_video_spec(html) is None && (api is None || api_video_spec(api->0) is None)
            ==> extraction_chain_spec(html, api, id) == salvage_spec(html, id),
{
}

impl TikTok {
    /// Canonicalize a video URL: rewrite the short-link host, add the
    /// canonical subdomain when missing, and add the scheme when missing.
    pub fn normalize_url(url: &str) -> (r: String)
        ensures
            r@ == canonical_url_spec(url@),
    {
        let uv = text::str_chars(url);
        let step1 = text::replace_str(&uv, "vm.tiktok.com", "www.tiktok.com");
        let step2 = if !text::chars_contain_str(&step1, "www.tiktok.com") {
            text::replace_str(&step1, "tiktok.com", "www.tiktok.com")
        } else {
            step1
        };
        let https = text::str_chars("https://");
        if !text::chars_start_with(&step2, &https) {
            let mut out = text::str_chars("https://");
            text::append_chars(&mut out, &step2);
            text::chars_string(&out)
        } else {
            text::chars_string(&step2)
        }
    }

    /// The username and video id a canonical URL carries, if any.
    pub fn extract_ids(&self, canonical_url: &str) -> (r: Option<(String, String)>)
        ensures
            match r {
                Some(p) => ids_spec(canonical_url@) == Some((p.0@, p.1@)),
                None => ids_spec(canonical_url@) is None,
            },
    {
        match capture_pair("@([^/]+)/video/(\\d+)", canonical_url) {
            Some(p) => Some(p),
            None => {
                let short = capture1("tiktok\\.com/v/(\\d+)", canonical_url);
                match short {
                    Some(id) => Some((String::new(), id)),
                    None => {
                        match capture1("/video/(\\d+)", canonical_url) {
                            Some(id) => Some((String::new(), id)),
                            None => None,
                        }
                    },
                }
            },
        }
    }

    /// The feed endpoint URL probed for a video id.
    pub fn api_url(&self, video_id: &str) -> (r: String)
        ensures
            r@ == "https://api16-normal-c-useast1a.tiktokv.com/aweme/v1/feed/?aweme_id="@
                + video_id@,
    {
        let mut v: Vec<char> = Vec::new();
        text::append_str(
            &mut v,
            "https://api16-normal-c-useast1a.tiktokv.com/aweme/v1/feed/?aweme_id=",
        );
        text::append_str(&mut v, video_id);
        text::chars_string(&v)
    }

    /// Classify a video height in pixels.
    pub fn determine_quality(&self, height: u64) -> (r: Quality)
        ensures
            r == height_quality_spec(height),
    {
        if height >= 1080 {
            Quality::HD1080
        } else if height >= 720 {
            Quality::HD720
        } else if height >= 480 {
            Quality::Medium
        } else {
            Quality::Low
        }
    }

    /// The salvage tier: scan the raw page text for a playable media URL and
    /// author, handle and description, taking placeholders for whatever is
    /// missing; fails only when no media URL is found at all.
    pub fn extract_video_url_from_html(&self, html: &str, video_id: &str) -> (r: Result<
        VideoPayload,
        Error,
    >)
        ensures
            match r {
                Ok(p) => salvage_spec(html@, video_id@) == Some(p@),
                Err(e) => salvage_spec(html@, video_id@) is None && (e matches Error::Platform(m)
                    && m@ == "Could not extract video URL from HTML"@),
            },
    {
        let mut video_url = capture1("<video[^>]*\\ssrc=\"([^\"]+)\"[^>]*>#is", html);
        if video_url.is_none() {
            video_url = capture1("<video[^>]*\\sdata-src=\"([^\"]+)\"[^>]*>#is", html);
        }
        if video_url.is_none() {
            video_url = capture1("playAddr\":\"([^\"]+)", html);
        }
        if video_url.is_none() {
            video_url = capture1("playAddr\\\\\\\":\\\\\\\"([^\\\\]+)\\\\\\", html);
        }
        if video_url.is_none() {
            video_url = capture1("playAddr=([^&]+)", html);
        }
        let raw = match video_url {
            Some(u) => u,
            None => {
                return Err(Error::Platform("Could not extract video URL from HTML".to_owned()));
            },
        };
        let rv = text::str_chars(raw.as_str());
        let cleaned = text::replace_str(
            &text::replace_str(&text::replace_str(&rv, "\\u002F", "/"), "\\u0026", "&"),
            "\\",
            "",
        );
        let url_string = text::chars_string(&cleaned);

        let mut author = capture1("nickname\":\"([^\"]+)", html);
        if author.is_none() {
            author = capture1("nickname\\\\\\\":\\\\\\\"([^\\\\]+)\\\\\\", html);
        }
        if author.is_none() {
            author = capture1("<h3[^>]*>([^<]+)</h3>#is", html);
        }
        let author_nickname = match author {
            Some(a) => a,
            None => "Unknown".to_owned(),
        };

        let mut handle = capture1("uniqueId\":\"([^\"]+)", html);
        if handle.is_none() {
            handle = capture1("uniqueId\\\\\\\":\\\\\\\"([^\\\\]+)\\\\\\", html);
        }
        if handle.is_none() {
            handle = capture1("@([a-zA-Z0-9_.]+)", html);
        }
        let author_unique_id = match handle {
            Some(a) => a,
            None => "unknown".to_owned(),
        };

        let mut title: Option<String> = None;
        match capture1("desc\":\"([^\"]+)", html) {
            Some(d) => {
                if d.as_str().is_empty() {
                } else {
                    title = Some(d);
                }
            },
            None => {},
        }
        if title.is_none() {
            match capture1("desc\\\\\\\":\\\\\\\"([^\\\\]+)\\\\\\", html) {
                Some(d) => {
                    if d.as_str().is_empty() {
                    } else {
                        title = Some(d);
                    }
                },
                None => {},
            }
        }
        if title.is_none() {
            match capture1("<meta name=\"description\" content=\"([^\"]+)", html) {
                Some(d) => {
                    if d.as_str().is_empty() {
                    } else {
                        title = Some(d);
                    }
                },
                None => {},
            }
        }
        let desc = match title {
            Some(t) => t,
            None => {
                let mut v: Vec<char> = Vec::new();
                text::append_str(&mut v, "TikTok Video ");
                text::append_str(&mut v, video_id);
                text::chars_string(&v)
            },
        };

        Ok(
            VideoPayload {
                desc,
                height: 720,
                duration: 30,
                play_url: url_string.clone(),
                download_url: url_string,
                bit_rate: 1000000,
                author_nickname,
                author_unique_id,
                play_count: 0,
                like_count: 0,
            },
        )
    }

    /// Run the fallback chain on the fetched page (and the API response,
    /// when one is at hand): embedded structured data first, then the API
    /// probe, then raw-page salvage; fails only when even salvage finds no
    /// media URL.
    pub fn choose_extraction(&self, html: &str, api_body: Option<&str>, video_id: &str) -> (r:
        Result<VideoPayload, Error>)
        ensures
            ({
                let api = match api_body {
                    Some(b) => Some(b@),
                    None => None::<Seq<char>>,
                };
                match r {
                    Ok(p) => extraction_chain_spec(html@, api, video_id@) == Some(p@),
                    Err(e) => extraction_chain_spec(html@, api, video_id@) is None && (e
                        matches Error::Platform(m) && m@
                        == "Could not extract video URL from HTML"@),
                }
            }),
    {
        match extract_json_from_html(html) {
            Some(payload) => {
                match parse_video_payload(payload.as_str()) {
                    Some(p) => {
                        return Ok(p);
                    },
                    None => {},
                }
            },
            None => {},
        }
        match api_body {
            Some(body) => {
                match json_first_feed_item(body) {
                    Some(item) => {
                        match parse_video_payload(item.as_str()) {
                            Some(p) => {
                                return Ok(p);
                            },
                            None => {},
                        }
                    },
                    None => {},
                }
            },
            None => {},
        }
        self.extract_video_url_from_html(html, video_id)
    }

    /// The error for a URL that carries no recognizable video id.
    pub fn invalid_url_error(&self) -> (r: Error)
        ensures
            r matches Error::Platform(m) && m@ == "Invalid TikTok URL format"@,
    {
        Error::Platform("Invalid TikTok URL format".to_owned())
    }

    /// Reject every format id but the single one this strategy issues.
    pub fn check_format_id(&self, format_id: &str) -> (r: Result<(), Error>)
        ensures
            (format_id@ == "default"@) == (r is Ok),
            format_id@ != "default"@ ==> (r matches Err(e) ==> (e matches Error::InvalidFormat(m)
                && m@ == format_id@)),
    {
        let fv = text::str_chars(format_id);
        if text::chars_eq_str(&fv, "default") {
            Ok(())
        } else {
            Err(Error::InvalidFormat(format_id.to_owned()))
        }
    }

    /// Assemble the caller-facing record from an extracted video object: one
    /// format with the strategy's own id, the quality classified from the
    /// height, and the size estimated from bitrate and duration.
    pub fn build_video_info(&self, url: &str, p: &VideoPayload) -> (r: VideoInfo)
        ensures
            r.wf(),
            r.url@ == url@,
            r.title == p.desc,
            (r.description matches Some(d) && d@ == desc_line_spec(p@)),
            r.duration == Some(p.duration),
            r.formats@.len() == 1,
            r.formats@[0].id@ == "default"@,
            r.formats@[0].quality == height_quality_spec(p.height),
            r.formats@[0].format == Format::MP4,
            r.formats@[0].file_size == Some(est_size_spec(p@)),
    {
        let quality = self.determine_quality(p.height);
        let bytes_per_sec = p.bit_rate / 8;
        proof {
            assert((bytes_per_sec as int) * (p.duration as int) <= (u64::MAX as int) * (
            u64::MAX as int)) by (nonlinear_arith)
                requires
                    bytes_per_sec <= u64::MAX,
                    p.duration <= u64::MAX,
            ;
        }
        let prod: u128 = (bytes_per_sec as u128) * (p.duration as u128);
        let file_size: u64 = if prod > u64::MAX as u128 {
            u64::MAX
        } else {
            prod as u64
        };
        let mut formats: Vec<VideoFormat> = Vec::new();
        formats.push(
            VideoFormat {
                id: "default".to_owned(),
                quality,
                format: Format::MP4,
                file_size: Some(file_size),
            },
        );
        let mut d: Vec<char> = Vec::new();
        text::append_str(&mut d, "By ");
        text::append_str(&mut d, p.author_nickname.as_str());
        text::append_str(&mut d, " (@");
        text::append_str(&mut d, p.author_unique_id.as_str());
        text::append_str(&mut d, ") - ");
        let plays = text::u64_dec_chars(p.play_count);
        text::append_chars(&mut d, &plays);
        text::append_str(&mut d, " plays, ");
        let likes = text::u64_dec_chars(p.like_count);
        text::append_chars(&mut d, &likes);
        text::append_str(&mut d, " likes");
        VideoInfo {
            url: url.to_owned(),
            title: p.desc.clone(),
            description: Some(text::chars_string(&d)),
            duration: Some(p.duration),
            formats,
        }
    }
}

/// The attempt order for a download: the extracted download URL, the play
/// URL, a refresh of the video info after a short delay, the refreshed URLs
/// in the same order, and then surrender.
#[derive(Debug, Clone, Copy, PartialEq, Eq, Structural)]
pub enum DownloadAttempt {
    UseDownloadUrl,
    UsePlayUrl,
    RefreshInfo,
    GiveUp,
}

/// The attempt planned at each step of a download.
pub open spec fn attempt_plan_spec(i: int) -> DownloadAttempt {
    if i == 0 {
        DownloadAttempt::UseDownloadUrl
    } else if i == 1 {
        DownloadAttempt::UsePlayUrl
    } else if i == 2 {
        DownloadAttempt::RefreshInfo
    } else if i == 3 {
        DownloadAttempt::UseDownloadUrl
    } else if i == 4 {
        DownloadAttempt::UsePlayUrl
    } else {
        DownloadAttempt::GiveUp
    }
}

/// The next step of a download's retry plan.
pub fn next_attempt(attempt_index: usize) -> (r: DownloadAttempt)
    ensures
        r == attempt_plan_spec(attempt_index as int),
{
    if attempt_index == 0 {
        DownloadAttempt::UseDownloadUrl
    } else if attempt_index == 1 {
        DownloadAttempt::UsePlayUrl
    } else if attempt_index == 2 {
        DownloadAttempt::RefreshInfo
    } else if attempt_index == 3 {
        DownloadAttempt::UseDownloadUrl
    } else if attempt_index == 4 {
        DownloadAttempt::UsePlayUrl
    } else {
        DownloadAttempt::GiveUp
    }
}

/// When the one permitted retry also fails, the first attempt's error is the
/// one surfaced, never the retry's.
pub fn surface_first_error(first: Error, _retry: Error) -> (r: Error)
    ensures
        r == first,
{
    first
}

/// The description line shown for an extracted video.
pub open spec fn desc_line_spec(p: VideoPayloadView) -> Seq<char> {
    "By "@ + p.author_nickname + " (@"@ + p.author_unique_id + ") - "@ + text::dec_seq(
        p.play_count as int,
    ) + " plays, "@ + text::dec_seq(p.like_count as int) + " likes"@
}

/// The estimated file size: bytes per second times duration, saturating.
pub open spec fn est_size_spec(p: VideoPayloadView) -> u64 {
    let v = (p.bit_rate as int / 8) * (p.duration as int);
    if v > u64::MAX {
        u64::MAX
    } else {
        v as u64
    }
}

} // verus!
