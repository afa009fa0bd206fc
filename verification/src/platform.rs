//! Platform strategies and their registry.
//!
//! Each supported site has a strategy type with a verified, I/O-free
//! `supports_url` predicate and verified extraction/negotiation rules; the
//! registry tries strategies in registration order and the first whose
//! predicate accepts the URL wins.

use vstd::prelude::*;
use crate::urlparts::{UrlParts, UrlPartsView};

pub mod detector;
pub mod reddit;
pub mod tiktok;
pub mod youtube;

pub use detector::PlatformDetector;
pub use reddit::RedditPlatform;
pub use tiktok::TikTok;
pub use youtube::YouTube;
pub use crate::urlparts::normalize_url;

verus! {

/// One registered per-site strategy.
#[derive(Debug, Clone, Copy)]
pub enum Platform {
    YouTube(YouTube),
    TikTok(TikTok),
    Reddit(RedditPlatform),
}

impl Platform {
    /// The strategy's stable display name.
    pub open spec fn name_spec(&self) -> Seq<char> {
        match self {
            Platform::YouTube(_) => "YouTube"@,
            Platform::TikTok(_) => "TikTok"@,
            Platform::Reddit(_) => "reddit"@,
        }
    }

    /// Returns the name of the platform (e.g., "YouTube", "TikTok").
    pub fn name(&self) -> (r: String)
        ensures
            r@ == self.name_spec(),
    {
        match self {
            Platform::YouTube(_) => "YouTube".to_owned(),
            Platform::TikTok(_) => "TikTok".to_owned(),
            Platform::Reddit(_) => "reddit".to_owned(),
        }
    }

    /// Does this strategy accept the URL? A pure predicate on the host.
    pub open spec fn supports_spec(&self, u: UrlPartsView) -> bool {
        match self {
            Platform::YouTube(_) => YouTube::supports_spec(u),
            Platform::TikTok(_) => TikTok::supports_spec(u),
            Platform::Reddit(_) => RedditPlatform::is_reddit_url_spec(u),
        }
    }

    /// Checks if the given URL is supported by this platform.
    pub fn supports_url(&self, u: &UrlParts) -> (r: bool)
        ensures
            r == self.supports_spec(u@),
    {
        match self {
            Platform::YouTube(p) => p.supports_url(u),
            Platform::TikTok(p) => p.supports_url(u),
            Platform::Reddit(p) => p.supports_url(u),
        }
    }
}

/// Build the registry with every supported platform registered, site of the
/// richest strategy first.
pub fn create_platform_detector() -> (r: PlatformDetector)
    ensures
        r@.len() == 3,
        r@[0] is YouTube,
        r@[1] is TikTok,
        r@[2] is Reddit,
{
    let mut d = PlatformDetector::new();
    d.register(Platform::YouTube(YouTube::new()));
    d.register(Platform::TikTok(TikTok::new()));
    d.register(Platform::Reddit(RedditPlatform::new()));
    d
}

} // verus!
