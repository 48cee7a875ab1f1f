//! The record kept for each box.

use vstd::prelude::*;
use crate::color::Color;
use crate::scale::Scale;
use crate::scale::SCALE_SEED;

verus! {

/// One box: a fixed name, a display colour and a scale factor.
#[derive(Clone, Copy, Debug)]
pub struct TestBox {
    pub name: &'static str,
    pub color: Color,
    pub scale: Scale,
}

impl TestBox {
    /// A record is valid when its scale factor is.
    pub open spec fn wf(&self) -> bool {
        self.scale.wf()
    }

    /// The record that agrees with `self` except that its scale factor is `scale`.
    pub open spec fn with_scale(self, scale: Scale) -> TestBox {
        TestBox { name: self.name, color: self.color, scale }
    }

    /// The record of the given name and colour at the starting scale.
    pub open spec fn seeded(name: &'static str, color: Color) -> TestBox {
        TestBox { name, color, scale: Scale::from_raw(SCALE_SEED as int) }
    }

    /// A box of the given name and colour at the starting scale.
    pub fn new(name: &'static str, color: Color) -> (b: TestBox)
        ensures
            b.wf(),
            b == TestBox::seeded(name, color),
            b.scale@ == SCALE_SEED,
    {
        TestBox { name, color, scale: Scale::seed() }
    }

    /// This box rescaled to `scale`; name and colour are kept.
    pub fn rescaled(&self, scale: Scale) -> (b: TestBox)
        ensures
            b == self.with_scale(scale),
    {
        TestBox { name: self.name, color: self.color, scale }
    }
}

} // verus!
