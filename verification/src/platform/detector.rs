//! The platform registry: an ordered list of strategies, checked linearly;
//! the first strategy whose predicate accepts the URL wins.

use vstd::prelude::*;
use crate::error::Error;
use crate::platform::Platform;
use crate::urlparts::{UrlParts, UrlPartsView};

verus! {

/// PlatformDetector decides which platform handler serves a given URL.
pub struct PlatformDetector {
    platforms: Vec<Platform>,
}

impl View for PlatformDetector {
    type V = Seq<Platform>;

    closed spec fn view(&self) -> Seq<Platform> {
        self.platforms@
    }
}

/// The first platform in the list that supports the URL, if any.
pub open spec fn first_match(ps: Seq<Platform>, u: UrlPartsView) -> Option<Platform>
    decreases ps.len(),
{
    if ps.len() == 0 {
        None
    } else if ps[0].supports_spec(u) {
        Some(ps[0])
    } else {
        first_match(ps.skip(1), u)
    }
}

/// For all registered platforms, detection returns the first platform whose
/// `supports` predicate matches the URL, and reports the URL unsupported
/// exactly when no registered platform's predicate matches.
pub proof fn lemma_first_match_supports(ps: Seq<Platform>, u: UrlPartsView)
    ensures
        match first_match(ps, u) {
            Some(p) => p.supports_spec(u) && exists|i: int|
                0 <= i < ps.len() && ps[i] == p && forall|j: int|
                    0 <= j < i ==> !(#[trigger] ps[j]).supports_spec(u),
            None => forall|i: int| 0 <= i < ps.len() ==> !(#[trigger] ps[i]).supports_spec(u),
        },
    decreases ps.len(),
{
    if ps.len() == 0 {
    } else if ps[0].supports_spec(u) {
        assert(ps[0] == ps[0] && forall|j: int| 0 <= j < 0 ==> !(#[trigger] ps[j]).supports_spec(
            u,
        ));
    } else {
        lemma_first_match_supports(ps.skip(1), u);
        match first_match(ps.skip(1), u) {
            Some(p) => {
                let i = choose|i: int|
                    0 <= i < ps.skip(1).len() && ps.skip(1)[i] == p && forall|j: int|
                        0 <= j < i ==> !(#[trigger] ps.skip(1)[j]).supports_spec(u);
                assert(ps[i + 1] == p);
                assert(forall|j: int| 0 <= j < i + 1 ==> !(#[trigger] ps[j]).supports_spec(u))
                    by {
                    assert(forall|j: int| 1 <= j < i + 1 ==> ps[j] == ps.skip(1)[j - 1]);
                };
            },
            None => {
                assert(forall|i: int| 1 <= i < ps.len() ==> ps[i] == ps.skip(1)[i - 1]);
            },
        }
    }
}

impl PlatformDetector {
    /// Creates a new empty platform detector.
    pub fn new() -> (r: Self)
        ensures
            r@ =~= Seq::<Platform>::empty(),
    {
        PlatformDetector { platforms: Vec::new() }
    }

    /// Registers a new platform handler after the ones already present.
    pub fn register(&mut self, platform: Platform)
        ensures
            final(self)@ == old(self)@.push(platform),
    {
        self.platforms.push(platform);
    }

    /// Detects the appropriate platform for the given URL: the first
    /// registered platform that supports it, or `UnsupportedPlatform` when
    /// none does.
    pub fn detect(&self, u: &UrlParts) -> (r: Result<Platform, Error>)
        ensures
            match r {
                Ok(p) => first_match(self@, u@) == Some(p),
                Err(e) => first_match(self@, u@) is None && e == Error::UnsupportedPlatform,
            },
    {
        let n = self.platforms.len();
        let mut i: usize = 0;
        assert(self@.skip(0) =~= self@);
        while i < n
            invariant
                i <= n,
                n == self.platforms@.len(),
                self@ == self.platforms@,
                first_match(self@, u@) == first_match(self@.skip(i as int), u@),
            decreases n - i,
        {
            let ghost tail = self@.skip(i as int);
            proof {
                assert(tail[0] == self@[i as int]);
                assert(tail.skip(1) =~= self@.skip(i as int + 1));
            }
            if self.platforms[i].supports_url(u) {
                return Ok(self.platforms[i]);
            }
            i = i + 1;
        }
        assert(self@.skip(n as int) =~= Seq::<Platform>::empty());
        Err(Error::UnsupportedPlatform)
    }

    /// Returns all registered platforms, in registration order.
    pub fn platforms(&self) -> (r: &Vec<Platform>)
        ensures
            r@ == self@,
    {
        &self.platforms
    }
}

impl Default for PlatformDetector {
    /// An empty detector.
    fn default() -> (r: Self)
        ensures
            r@ =~= Seq::<Platform>::empty(),
    {
        PlatformDetector { platforms: Vec::new() }
    }
}

} // verus!
