//! Scale factors between zero and one, held as millionths.

use vstd::prelude::*;

verus! {

/// The raw value that stands for a scale factor of exactly one.
pub const SCALE_ONE: u32 = 1_000_000;

/// The raw value every box starts with: one fifth.
pub const SCALE_SEED: u32 = 200_000;

/// The nearest value to `raw` within `[0, SCALE_ONE]`.
pub open spec fn clamp_raw(raw: int) -> int {
    if raw < 0 {
        0
    } else if raw > SCALE_ONE {
        SCALE_ONE as int
    } else {
        raw
    }
}

/// A scale factor in `[0, 1]`, stored as a count of millionths.
#[derive(Clone, Copy, Debug, PartialEq, Eq, Structural)]
pub struct Scale {
    millionths: u32,
}

impl View for Scale {
    type V = int;

    /// The number of millionths this factor holds.
    closed spec fn view(&self) -> int {
        self.millionths as int
    }
}

impl Scale {
    /// A factor never exceeds one.
    pub open spec fn wf(&self) -> bool {
        0 <= self@ <= SCALE_ONE
    }

    /// The factor that holds `clamp_raw(raw)` millionths.
    pub closed spec fn from_raw(raw: int) -> Scale {
        Scale { millionths: clamp_raw(raw) as u32 }
    }

    /// `from_raw` yields a valid factor holding the clamped value.
    pub proof fn lemma_from_raw(raw: int)
        ensures
            Scale::from_raw(raw).wf(),
            Scale::from_raw(raw)@ == clamp_raw(raw),
    {
    }

    /// Two factors that hold the same number of millionths are the same factor.
    pub proof fn lemma_same_view_same_scale(a: Scale, b: Scale)
        requires
            a@ == b@,
        ensures
            a == b,
    {
    }

    /// The factor nearest to `raw` millionths: values below zero become zero,
    /// values above one become one, everything else is kept as it is.
    pub fn clamped(raw: i64) -> (s: Scale)
        ensures
            s.wf(),
            s == Scale::from_raw(raw as int),
            s@ == clamp_raw(raw as int),
    {
        if raw < 0 {
            Scale { millionths: 0 }
        } else if raw > 1_000_000 {
            Scale { millionths: SCALE_ONE }
        } else {
            Scale { millionths: raw as u32 }
        }
    }

    /// The factor every box starts with.
    pub fn seed() -> (s: Scale)
        ensures
            s.wf(),
            s == Scale::from_raw(SCALE_SEED as int),
            s@ == SCALE_SEED,
    {
        Scale { millionths: SCALE_SEED }
    }

    /// The stored count of millionths.
    pub fn millionths(&self) -> (m: u32)
        ensures
            m == self@,
    {
        self.millionths
    }
}

} // verus!
