//! What the canvas shows for the current box, as exact geometry.
//!
//! A region is measured in whole length units. Everything computed from it is
//! expressed in fine units, of which [`FINE_PER_UNIT`] make one length unit:
//! both a length scaled by a number of millionths and half of a whole length
//! are whole numbers of fine units.

use vstd::prelude::*;
use crate::app_data::AppData;
use crate::color::Color;
use crate::scale::Scale;
use crate::scale::SCALE_ONE;
use crate::test_box::TestBox;

verus! {

/// The number of fine units in one length unit: twice the number of
/// millionths in one.
pub const FINE_PER_UNIT: u64 = 2_000_000;

/// Radius of the two corner marks, in fine units: twenty length units.
pub const MARK_RADIUS: u64 = 40_000_000;

/// Stroke width of the two corner marks, in fine units: five length units.
pub const MARK_STROKE: u64 = 10_000_000;

/// Stroke width of the square's outline, in fine units: ten length units.
pub const SQUARE_STROKE: u64 = 20_000_000;

/// The usable drawing rectangle, in whole length units.
#[derive(Clone, Copy, Debug, PartialEq, Eq, Structural)]
pub struct Region {
    pub width: u32,
    pub height: u32,
}

/// A position inside a region, in fine units from its origin corner.
#[derive(Clone, Copy, Debug, PartialEq, Eq, Structural)]
pub struct Point {
    pub x: u64,
    pub y: u64,
}

/// A stroked circle, in fine units.
#[derive(Clone, Copy, Debug, PartialEq, Eq, Structural)]
pub struct Circle {
    pub center: Point,
    pub radius: u64,
    pub stroke: u64,
    pub color: Color,
}

/// A stroked, axis-parallel square given by its centre and side, in fine units.
#[derive(Clone, Copy, Debug, PartialEq, Eq, Structural)]
pub struct Square {
    pub center: Point,
    pub side: u64,
    pub stroke: u64,
    pub color: Color,
}

/// Everything drawn into a region, in drawing order.
#[derive(Clone, Copy, Debug, PartialEq, Eq, Structural)]
pub struct Scene {
    /// Fill of the whole region.
    pub background: Color,
    /// Mark at the origin corner.
    pub origin_mark: Circle,
    /// Mark at the corner opposite the origin.
    pub corner_mark: Circle,
    /// The current box.
    pub square: Square,
}

impl Region {
    /// The smaller of width and height, in length units.
    pub open spec fn spec_shorter_side(self) -> u32 {
        if self.width <= self.height {
            self.width
        } else {
            self.height
        }
    }

    /// The centre of the region, in fine units.
    pub open spec fn spec_center(self) -> Point {
        Point { x: (self.width * SCALE_ONE) as u64, y: (self.height * SCALE_ONE) as u64 }
    }

    /// The corner opposite the origin, in fine units.
    pub open spec fn spec_far_corner(self) -> Point {
        Point { x: (self.width * FINE_PER_UNIT) as u64, y: (self.height * FINE_PER_UNIT) as u64 }
    }

    /// The smaller of width and height, in length units.
    #[verifier::when_used_as_spec(spec_shorter_side)]
    pub fn shorter_side(self) -> (m: u32)
        ensures
            m == self.spec_shorter_side(),
    {
        if self.width <= self.height {
            self.width
        } else {
            self.height
        }
    }

    /// The centre of the region, in fine units.
    #[verifier::when_used_as_spec(spec_center)]
    pub fn center(self) -> (c: Point)
        ensures
            c == self.spec_center(),
            2 * c.x == self.width * FINE_PER_UNIT,
            2 * c.y == self.height * FINE_PER_UNIT,
    {
        Point { x: (self.width as u64) * 1_000_000, y: (self.height as u64) * 1_000_000 }
    }

    /// The corner opposite the origin, in fine units.
    #[verifier::when_used_as_spec(spec_far_corner)]
    pub fn far_corner(self) -> (c: Point)
        ensures
            c == self.spec_far_corner(),
            c.x == self.width * FINE_PER_UNIT,
            c.y == self.height * FINE_PER_UNIT,
    {
        Point { x: (self.width as u64) * FINE_PER_UNIT, y: (self.height as u64) * FINE_PER_UNIT }
    }
}

/// The side of the square shown for a box scaled by `scale` in `region`, in
/// fine units: the scale factor times the region's shorter side.
pub open spec fn square_side(region: Region, scale: Scale) -> int {
    2 * scale@ * region.shorter_side()
}

/// The square shown for `shown` in `region`.
pub open spec fn square_of(region: Region, shown: TestBox) -> Square {
    Square {
        center: region.center(),
        side: square_side(region, shown.scale) as u64,
        stroke: SQUARE_STROKE,
        color: shown.color,
    }
}

/// Everything drawn into `region` when `shown` is the current box.
pub open spec fn scene_of(region: Region, shown: TestBox) -> Scene {
    Scene {
        background: Color { r: 230, g: 230, b: 230 },
        origin_mark: Circle {
            center: Point { x: 0, y: 0 },
            radius: MARK_RADIUS,
            stroke: MARK_STROKE,
            color: Color { r: 0, g: 255, b: 0 },
        },
        corner_mark: Circle {
            center: region.far_corner(),
            radius: MARK_RADIUS,
            stroke: MARK_STROKE,
            color: Color { r: 128, g: 0, b: 128 },
        },
        square: square_of(region, shown),
    }
}

/// The side of a square, measured in millionths of a fine unit, is the scale
/// factor in millionths times the shorter side in fine units; and the square
/// is never larger than the region's shorter side.
pub proof fn lemma_square_side(region: Region, scale: Scale)
    requires
        scale.wf(),
    ensures
        square_side(region, scale) * SCALE_ONE == scale@ * (region.shorter_side() * FINE_PER_UNIT),
        0 <= square_side(region, scale) <= region.shorter_side() * FINE_PER_UNIT,
        square_side(region, scale) <= u64::MAX,
{
    let s = scale@;
    let m = region.spec_shorter_side() as int;
    assert(2 * s * m * 1_000_000 == s * (m * 2_000_000)) by (nonlinear_arith);
    assert(0 <= 2 * s * m <= m * 2_000_000) by (nonlinear_arith)
        requires
            0 <= s <= 1_000_000,
            0 <= m,
    ;
}

/// The square drawn for a box has the box's scale factor times the region's
/// shorter side as its side, and the middle of the region as its centre.
/// Stated without division: the side times the millionths in one equals the
/// factor's millionths times the shorter side in fine units, and twice each
/// centre coordinate equals the matching dimension in fine units.
pub proof fn lemma_scene_square(region: Region, shown: TestBox)
    requires
        shown.wf(),
    ensures
        scene_of(region, shown).square.side * SCALE_ONE == shown.scale@ * (region.shorter_side()
            * FINE_PER_UNIT),
        2 * scene_of(region, shown).square.center.x == region.width * FINE_PER_UNIT,
        2 * scene_of(region, shown).square.center.y == region.height * FINE_PER_UNIT,
        scene_of(region, shown).square.color == shown.color,
{
    lemma_square_side(region, shown.scale);
}

/// When the region is resized and the same box drawn again, the sides of the
/// two squares are in the same proportion as the shorter sides of the two
/// regions.
pub proof fn lemma_side_proportional(first: Region, second: Region, shown: TestBox)
    requires
        shown.wf(),
    ensures
        scene_of(first, shown).square.side * second.shorter_side() == scene_of(
            second,
            shown,
        ).square.side * first.shorter_side(),
{
    lemma_square_side(first, shown.scale);
    lemma_square_side(second, shown.scale);
    let s = shown.scale@;
    let a = first.spec_shorter_side() as int;
    let b = second.spec_shorter_side() as int;
    assert(2 * s * a * b == 2 * s * b * a) by (nonlinear_arith);
}

/// The square shown for `shown` in `region`: centred in the region, its side
/// the box's scale factor times the region's shorter side, outlined in the
/// box's colour.
pub fn square_for(region: Region, shown: &TestBox) -> (square: Square)
    requires
        shown.wf(),
    ensures
        square == square_of(region, *shown),
        square.side == square_side(region, shown.scale),
        square.side * SCALE_ONE == shown.scale@ * (region.shorter_side() * FINE_PER_UNIT),
        2 * square.center.x == region.width * FINE_PER_UNIT,
        2 * square.center.y == region.height * FINE_PER_UNIT,
{
    proof {
        lemma_square_side(region, shown.scale);
    }
    let m: u64 = region.shorter_side() as u64;
    let s: u64 = shown.scale.millionths() as u64;
    assert(2 * s * m == 2 * shown.scale@ * region.spec_shorter_side());
    assert(2 * s <= 2_000_000);
    let side: u64 = 2 * s * m;
    Square { center: region.center(), side, stroke: SQUARE_STROKE, color: shown.color }
}

/// Everything to draw into `region` for the current box of `data`: the
/// background, the two corner marks, then the square.
pub fn paint(region: Region, data: &AppData) -> (scene: Scene)
    requires
        data.wf(),
    ensures
        scene == scene_of(region, data@.selected()),
{
    let shown = data.current_box();
    Scene {
        background: Color::light_gray(),
        origin_mark: Circle {
            center: Point { x: 0, y: 0 },
            radius: MARK_RADIUS,
            stroke: MARK_STROKE,
            color: Color::lime(),
        },
        corner_mark: Circle {
            center: region.far_corner(),
            radius: MARK_RADIUS,
            stroke: MARK_STROKE,
            color: Color::purple(),
        },
        square: square_for(region, &shown),
    }
}

} // verus!
