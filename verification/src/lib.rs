//! A verified core for a multi-site video downloader.
//!
//! The library models video metadata (qualities, container formats, per-video
//! format lists), URL normalization and platform detection, per-site metadata
//! extraction with a strict-priority fallback chain, format negotiation, and
//! the batch/merge orchestration rules, all with machine-checked contracts.
//! Network, subprocess and filesystem work is done by thin callers outside the
//! library, which hand plain values in and take plain values back.

use vstd::prelude::*;

pub mod commands;
pub mod config;
pub mod downloader;
pub mod error;
pub mod platform;
pub mod text;
pub mod urlparts;
pub mod utils;

pub use config::Config;
pub use error::Error;
pub use platform::{Platform, PlatformDetector};

verus! {

/// Video quality tiers, with an escape hatch for labels the library cannot
/// classify.
#[derive(Debug, Clone, PartialEq, Eq)]
pub enum Quality {
    Low,
    Medium,
    High,
    HD720,
    HD1080,
    UHD2160,
    Custom(String),
}

impl Quality {
    /// The display label of this quality tier.
    pub open spec fn label_spec(&self) -> Seq<char> {
        match self {
            Quality::Low => "low"@,
            Quality::Medium => "medium"@,
            Quality::High => "high"@,
            Quality::HD720 => "720p"@,
            Quality::HD1080 => "1080p"@,
            Quality::UHD2160 => "2160p"@,
            Quality::Custom(s) => s@,
        }
    }

    /// Display label, e.g. `"1080p"`.
    pub fn label(&self) -> (r: String)
        ensures
            r@ == self.label_spec(),
    {
        match self {
            Quality::Low => "low".to_owned(),
            Quality::Medium => "medium".to_owned(),
            Quality::High => "high".to_owned(),
            Quality::HD720 => "720p".to_owned(),
            Quality::HD1080 => "1080p".to_owned(),
            Quality::UHD2160 => "2160p".to_owned(),
            Quality::Custom(s) => s.clone(),
        }
    }

    /// What `parse` returns: keywords are matched ASCII-case-insensitively,
    /// anything else is kept verbatim as a custom label.
    pub open spec fn parse_is_spec(s: Seq<char>, r: Quality) -> bool {
        let l = crate::text::lower_seq(s);
        if l == "low"@ {
            r == Quality::Low
        } else if l == "medium"@ {
            r == Quality::Medium
        } else if l == "high"@ {
            r == Quality::High
        } else if l == "720p"@ || l == "hd720"@ {
            r == Quality::HD720
        } else if l == "1080p"@ || l == "hd1080"@ {
            r == Quality::HD1080
        } else if l == "2160p"@ || l == "4k"@ || l == "uhd"@ {
            r == Quality::UHD2160
        } else {
            r is Custom && r->0@ == s
        }
    }

    /// Parse a quality label; unknown labels become `Custom` verbatim.
    pub fn parse(s: &str) -> (r: Quality)
        ensures
            Quality::parse_is_spec(s@, r),
    {
        let v = crate::text::str_chars(s);
        let l = crate::text::to_lower(&v);
        if crate::text::chars_eq_str(&l, "low") {
            Quality::Low
        } else if crate::text::chars_eq_str(&l, "medium") {
            Quality::Medium
        } else if crate::text::chars_eq_str(&l, "high") {
            Quality::High
        } else if crate::text::chars_eq_str(&l, "720p") || crate::text::chars_eq_str(&l, "hd720") {
            Quality::HD720
        } else if crate::text::chars_eq_str(&l, "1080p") || crate::text::chars_eq_str(
            &l,
            "hd1080",
        ) {
            Quality::HD1080
        } else if crate::text::chars_eq_str(&l, "2160p") || crate::text::chars_eq_str(&l, "4k")
            || crate::text::chars_eq_str(&l, "uhd") {
            Quality::UHD2160
        } else {
            Quality::Custom(s.to_owned())
        }
    }
}

/// Container formats, with an escape hatch for extensions the library cannot
/// classify.
#[derive(Debug, Clone, PartialEq, Eq)]
pub enum Format {
    MP4,
    WebM,
    MOV,
    Other(String),
}

impl Format {
    /// The display label of this container format.
    pub open spec fn label_spec(&self) -> Seq<char> {
        match self {
            Format::MP4 => "mp4"@,
            Format::WebM => "webm"@,
            Format::MOV => "mov"@,
            Format::Other(s) => s@,
        }
    }

    /// Display label, e.g. `"mp4"`.
    pub fn label(&self) -> (r: String)
        ensures
            r@ == self.label_spec(),
    {
        match self {
            Format::MP4 => "mp4".to_owned(),
            Format::WebM => "webm".to_owned(),
            Format::MOV => "mov".to_owned(),
            Format::Other(s) => s.clone(),
        }
    }

    /// What `parse` returns: keywords are matched ASCII-case-insensitively,
    /// anything else is kept verbatim.
    pub open spec fn parse_is_spec(s: Seq<char>, r: Format) -> bool {
        let l = crate::text::lower_seq(s);
        if l == "mp4"@ {
            r == Format::MP4
        } else if l == "webm"@ {
            r == Format::WebM
        } else if l == "mov"@ {
            r == Format::MOV
        } else {
            r is Other && r->0@ == s
        }
    }

    /// Parse a container label; unknown labels become `Other` verbatim.
    pub fn parse(s: &str) -> (r: Format)
        ensures
            Format::parse_is_spec(s@, r),
    {
        let v = crate::text::str_chars(s);
        let l = crate::text::to_lower(&v);
        if crate::text::chars_eq_str(&l, "mp4") {
            Format::MP4
        } else if crate::text::chars_eq_str(&l, "webm") {
            Format::WebM
        } else if crate::text::chars_eq_str(&l, "mov") {
            Format::MOV
        } else {
            Format::Other(s.to_owned())
        }
    }
}

impl core::str::FromStr for Quality {
    type Err = crate::error::Error;

    fn from_str(s: &str) -> (r: Result<Quality, crate::error::Error>) {
        Ok(Quality::parse(s))
    }
}

impl core::str::FromStr for Format {
    type Err = crate::error::Error;

    fn from_str(s: &str) -> (r: Result<Format, crate::error::Error>) {
        Ok(Format::parse(s))
    }
}

/// One downloadable stream of a video. The `id` is opaque and only meaningful
/// to the platform strategy that produced it.
#[derive(Debug, Clone)]
pub struct VideoFormat {
    pub id: String,
    pub quality: Quality,
    pub format: Format,
    pub file_size: Option<u64>,
}

impl VideoFormat {
    /// Does this format match the requested quality and container labels,
    /// ASCII-case-insensitively?
    pub open spec fn matches_spec(&self, quality: Seq<char>, format: Seq<char>) -> bool {
        crate::text::eq_ignore_case_spec(self.quality.label_spec(), quality)
            && crate::text::eq_ignore_case_spec(self.format.label_spec(), format)
    }

    /// Returns true if this format matches the specified quality and format
    /// labels (ASCII-case-insensitive).
    pub fn matches(&self, quality: &str, format: &str) -> (r: bool)
        ensures
            r == self.matches_spec(quality@, format@),
    {
        let ql = self.quality.label();
        let fl = self.format.label();
        let qv = crate::text::str_chars(ql.as_str());
        let fv = crate::text::str_chars(fl.as_str());
        let rq = crate::text::str_chars(quality);
        let rf = crate::text::str_chars(format);
        crate::text::chars_eq_ignore_case(&qv, &rq) && crate::text::chars_eq_ignore_case(&fv, &rf)
    }
}

/// Metadata for one video, as extracted by a platform strategy. Immutable
/// once extracted; only read afterwards.
#[derive(Debug, Clone)]
pub struct VideoInfo {
    pub url: String,
    pub title: String,
    pub description: Option<String>,
    pub duration: Option<u64>,
    pub formats: Vec<VideoFormat>,
}

impl VideoInfo {
    /// A successful extraction never carries an empty format list.
    pub open spec fn wf(&self) -> bool {
        self.formats@.len() > 0
    }
}

} // verus!
