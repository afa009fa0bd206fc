//! The progress model: fractions carried in thousandths, and a latest-value
//! slot that a producer overwrites and a consumer reads.

use vstd::prelude::*;

verus! {

/// The fraction `downloaded / total`, in thousandths, clamped to at most
/// 1000.
pub fn progress_permille(downloaded: u64, total: u64) -> (r: u32)
    requires
        total > 0,
    ensures
        r as int == (if downloaded >= total {
            1000int
        } else {
            (downloaded as int) * 1000 / (total as int)
        }),
        r <= 1000,
{
    if downloaded >= total {
        1000
    } else {
        proof {
            assert((downloaded as int) * 1000 <= (u64::MAX as int) * 1000) by (nonlinear_arith)
                requires
                    downloaded <= u64::MAX,
            ;
            assert((downloaded as int) * 1000 / (total as int) < 1000) by (nonlinear_arith)
                requires
                    0 < total,
                    downloaded < total,
            ;
            assert(0 <= (downloaded as int) * 1000 / (total as int)) by (nonlinear_arith)
                requires
                    0 < total,
                    0 <= downloaded,
            ;
        }
        let p: u128 = ((downloaded as u128) * 1000) / (total as u128);
        p as u32
    }
}

/// A single-producer, single-consumer latest-value signal: the producer
/// overwrites the current fraction, and the consumer always observes the
/// most recent value, never a backlog. The stored fraction never exceeds
/// one.
pub struct ProgressSlot {
    latest: u32,
}

impl ProgressSlot {
    /// The fraction currently held, in thousandths.
    pub closed spec fn current_spec(&self) -> u32 {
        self.latest
    }

    /// The stored fraction is in range.
    #[verifier::type_invariant]
    spec fn inv(&self) -> bool {
        self.latest <= 1000
    }

    /// A fresh slot holding zero progress.
    pub fn new() -> (r: Self)
        ensures
            r.current_spec() == 0,
    {
        ProgressSlot { latest: 0 }
    }

    /// Overwrite the slot with a new fraction, clamped into range; the
    /// previous value is discarded, never queued.
    pub fn update(&mut self, v: u32)
        ensures
            final(self).current_spec() == (if v > 1000 {
                1000u32
            } else {
                v
            }),
    {
        proof {
            use_type_invariant(&*self);
        }
        if v > 1000 {
            self.latest = 1000;
        } else {
            self.latest = v;
        }
    }

    /// The most recent fraction written, always at most 1000.
    pub fn current(&self) -> (r: u32)
        ensures
            r == self.current_spec(),
            r <= 1000,
    {
        proof {
            use_type_invariant(self);
        }
        self.latest
    }
}

} // verus!
