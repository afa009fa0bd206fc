//! The reddit strategy: URL recognition and extraction of video posts from
//! the site's JSON API.

use vstd::prelude::*;
use crate::error::Error;
use crate::text;
use crate::urlparts::{UrlParts, UrlPartsView};
use crate::{Format, Quality, VideoFormat, VideoInfo};

verus! {

/// The fields of a reddit post that the library reads, each `None` when the
/// response does not carry it.
#[derive(Debug, Clone)]
pub struct RedditPost {
    pub is_video: Option<bool>,
    pub fallback_url: Option<String>,
    pub duration: Option<u64>,
    pub title: Option<String>,
    pub selftext: Option<String>,
}

/// Spec-level image of `RedditPost`.
pub struct RedditPostView {
    pub is_video: Option<bool>,
    pub fallback_url: Option<Seq<char>>,
    pub duration: Option<u64>,
    pub title: Option<Seq<char>>,
    pub selftext: Option<Seq<char>>,
}

impl View for RedditPost {
    type V = RedditPostView;

    open spec fn view(&self) -> RedditPostView {
        RedditPostView {
            is_video: self.is_video,
            fallback_url: match self.fallback_url {
                Some(u) => Some(u@),
                None => None,
            },
            duration: self.duration,
            title: match self.title {
                Some(t) => Some(t@),
                None => None,
            },
            selftext: match self.selftext {
                Some(t) => Some(t@),
                None => None,
            },
        }
    }
}

/// What the listing endpoint's JSON carries for the first post: `None` when
/// the text is not JSON at all, otherwise the post's fields as far as they
/// are present.
pub uninterp spec fn reddit_post_of(s: Seq<char>) -> Option<RedditPostView>;

/// Relies on serde_json::from_str, Value's Index (absent paths index to
/// null) and the as_bool/as_str/as_u64 accessors: the post at
/// `[0].data.children[0].data` is a pure function of the response text.
#[verifier::external_body]
fn parse_post_json(s: &str) -> (r: Option<RedditPost>)
    ensures
        match r {
            Some(p) => reddit_post_of(s@) == Some(p@),
            None => reddit_post_of(s@) is None,
        },
{
    let v: serde_json::Value = serde_json::from_str(s).ok()?;
    let post = &v[0]["data"]["children"][0]["data"];
    Some(RedditPost {
        is_video: post["is_video"].as_bool(),
        fallback_url: post["media"]["reddit_video"]["fallback_url"].as_str().map(|x| x.to_string()),
        duration: post["media"]["reddit_video"]["duration"].as_u64(),
        title: post["title"].as_str().map(|x| x.to_string()),
        selftext: post["selftext"].as_str().map(|x| x.to_string()),
    })
}

/// The reddit platform strategy.
#[derive(Debug, Clone, Copy)]
pub struct RedditPlatform {}

impl RedditPlatform {
    /// A fresh strategy value.
    pub fn new() -> (r: Self) {
        RedditPlatform {  }
    }

    /// The URL's host is reddit.com, www.reddit.com, or any subdomain of
    /// reddit.com.
    pub open spec fn is_reddit_url_spec(u: UrlPartsView) -> bool {
        u.host == "reddit.com"@ || u.host == "www.reddit.com"@ || text::ends_with_spec(
            u.host,
            ".reddit.com"@,
        )
    }

    /// Pure host test used by `supports_url`.
    pub fn is_reddit_url(u: &UrlParts) -> (r: bool)
        ensures
            r == RedditPlatform::is_reddit_url_spec(u@),
    {
        let host = text::str_chars(u.host.as_str());
        text::chars_eq_str(&host, "reddit.com") || text::chars_eq_str(&host, "www.reddit.com")
            || text::chars_end_with_str(&host, ".reddit.com")
    }

    /// Checks if the given URL is supported by this platform.
    pub fn supports_url(&self, u: &UrlParts) -> (r: bool)
        ensures
            r == RedditPlatform::is_reddit_url_spec(u@),
    {
        RedditPlatform::is_reddit_url(u)
    }

    /// The JSON API endpoint for a post URL: the web host rewritten to the
    /// API host.
    pub fn api_url(&self, url: &str) -> (r: String)
        ensures
            r@ == text::replace_spec(url@, "www.reddit.com"@, "api.reddit.com"@),
    {
        let uv = text::str_chars(url);
        let replaced = text::replace_str(&uv, "www.reddit.com", "api.reddit.com");
        text::chars_string(&replaced)
    }

    /// The fresh media URL of a video post, read out of the API response:
    /// fails when the body is not JSON, or the post carries no media URL.
    pub fn fresh_video_url(&self, body: &str) -> (r: Result<String, Error>)
        ensures
            match r {
                Ok(u) => (reddit_post_of(body@) matches Some(p) && p.fallback_url == Some(u@)),
                Err(e) => match reddit_post_of(body@) {
                    Some(p) => p.fallback_url is None && (e matches Error::Platform(m) && m@
                        == "Could not find video URL"@),
                    None => e matches Error::Network(m) && m@ == "malformed response body"@,
                },
            },
    {
        match parse_post_json(body) {
            Some(post) => match post.fallback_url {
                Some(u) => Ok(u),
                None => Err(Error::Platform("Could not find video URL".to_owned())),
            },
            None => Err(Error::Network("malformed response body".to_owned())),
        }
    }

    /// Extract the video record from the API response for a post URL: the
    /// post must be a video post carrying a media URL; missing title and
    /// description degrade to placeholders, and the one format offered is
    /// the strategy's own high-quality entry.
    pub fn extract_post_info(&self, url: &str, body: &str) -> (r: Result<VideoInfo, Error>)
        ensures
            match r {
                Ok(info) => info.wf() && (reddit_post_of(body@) matches Some(p) && {
                    &&& p.is_video == Some(true)
                    &&& p.fallback_url is Some
                    &&& info.url@ == url@
                    &&& info.title@ == (match p.title {
                        Some(t) => t,
                        None => "Untitled"@,
                    })
                    &&& (info.description matches Some(d) && d@ == (match p.selftext {
                        Some(t) => t,
                        None => Seq::<char>::empty(),
                    }))
                    &&& info.duration == Some(
                        match p.duration {
                            Some(d) => d,
                            None => 0u64,
                        },
                    )
                    &&& info.formats@.len() == 1
                    &&& info.formats@[0].id@ == "high"@
                    &&& info.formats@[0].quality == Quality::High
                    &&& info.formats@[0].format == Format::MP4
                    &&& info.formats@[0].file_size is None
                }),
                Err(e) => match reddit_post_of(body@) {
                    Some(p) => {
                        if p.is_video != Some(true) {
                            e matches Error::Platform(m) && m@ == "Not a video post"@
                        } else {
                            p.fallback_url is None && (e matches Error::Platform(m) && m@
                                == "Could not find video URL"@)
                        }
                    },
                    None => e matches Error::Network(m) && m@ == "malformed response body"@,
                },
            },
    {
        let post = match parse_post_json(body) {
            Some(p) => p,
            None => {
                return Err(Error::Network("malformed response body".to_owned()));
            },
        };
        let is_video = match post.is_video {
            Some(b) => b,
            None => false,
        };
        if !is_video {
            return Err(Error::Platform("Not a video post".to_owned()));
        }
        let _media_url = match &post.fallback_url {
            Some(u) => u,
            None => {
                return Err(Error::Platform("Could not find video URL".to_owned()));
            },
        };
        let title = match post.title {
            Some(t) => t,
            None => "Untitled".to_owned(),
        };
        let selftext = match post.selftext {
            Some(t) => t,
            None => String::new(),
        };
        let duration = match post.duration {
            Some(d) => d,
            None => 0,
        };
        let mut formats: Vec<VideoFormat> = Vec::new();
        formats.push(
            VideoFormat {
                id: "high".to_owned(),
                quality: Quality::High,
                format: Format::MP4,
                file_size: None,
            },
        );
        Ok(
            VideoInfo {
                url: url.to_owned(),
                title,
                description: Some(selftext),
                duration: Some(duration),
                formats,
            },
        )
    }
}

impl Default for RedditPlatform {
    /// The same value as `new`.
    fn default() -> (r: Self) {
        RedditPlatform {  }
    }
}

} // verus!
