use scalebox::app_data::AppData;
use scalebox::canvas::paint;
use scalebox::canvas::square_for;
use scalebox::canvas::Point;
use scalebox::canvas::Region;
use scalebox::canvas::FINE_PER_UNIT;
use scalebox::canvas::MARK_RADIUS;
use scalebox::canvas::MARK_STROKE;
use scalebox::canvas::SQUARE_STROKE;
use scalebox::color::Color;
use scalebox::scale::Scale;
use scalebox::test_box::TestBox;

fn units(fine: u64) -> f64 {
    fine as f64 / FINE_PER_UNIT as f64
}

fn boxed(raw: i64) -> TestBox {
    TestBox::new("probe", Color { r: 9, g: 8, b: 7 }).rescaled(Scale::clamped(raw))
}

#[test]
fn half_scale_in_300_by_200() {
    let mut data = AppData::init();
    data.set_scale(500_000);
    let scene = paint(Region { width: 300, height: 200 }, &data);
    assert_eq!(scene.square.side, 100 * FINE_PER_UNIT);
    assert_eq!(scene.square.center, Point { x: 150 * FINE_PER_UNIT, y: 100 * FINE_PER_UNIT });
    assert_eq!(units(scene.square.side), 100.0);
    assert_eq!(units(scene.square.center.x), 150.0);
    assert_eq!(units(scene.square.center.y), 100.0);
}

#[test]
fn scene_lists_background_marks_and_square() {
    let mut data = AppData::init();
    data.select(2);
    let scene = paint(Region { width: 640, height: 480 }, &data);
    assert_eq!(scene.background, Color { r: 230, g: 230, b: 230 });
    assert_eq!(scene.origin_mark.center, Point { x: 0, y: 0 });
    assert_eq!(scene.origin_mark.radius, 20 * FINE_PER_UNIT);
    assert_eq!(scene.origin_mark.stroke, 5 * FINE_PER_UNIT);
    assert_eq!(scene.origin_mark.color, Color::lime());
    assert_eq!(
        scene.corner_mark.center,
        Point { x: 640 * FINE_PER_UNIT, y: 480 * FINE_PER_UNIT }
    );
    assert_eq!(scene.corner_mark.radius, 20 * FINE_PER_UNIT);
    assert_eq!(scene.corner_mark.stroke, 5 * FINE_PER_UNIT);
    assert_eq!(scene.corner_mark.color, Color::purple());
    assert_eq!(scene.square.color, Color::blue());
    assert_eq!(scene.square.stroke, 10 * FINE_PER_UNIT);
    assert_eq!(scene.square.side, 96 * FINE_PER_UNIT);
    assert_eq!(scene.square.center, Point { x: 320 * FINE_PER_UNIT, y: 240 * FINE_PER_UNIT });
}

#[test]
fn stroke_and_radius_constants() {
    assert_eq!(FINE_PER_UNIT, 2_000_000);
    assert_eq!(MARK_RADIUS, 40_000_000);
    assert_eq!(MARK_STROKE, 10_000_000);
    assert_eq!(SQUARE_STROKE, 20_000_000);
}

#[test]
fn scene_follows_selection_and_scale() {
    let mut data = AppData::init();
    let region = Region { width: 100, height: 50 };
    assert_eq!(paint(region, &data).square.color, Color::red());
    assert_eq!(paint(region, &data).square.side, 10 * FINE_PER_UNIT);
    data.select(1);
    data.set_scale(1_000_000);
    assert_eq!(paint(region, &data).square.color, Color::green());
    assert_eq!(paint(region, &data).square.side, 50 * FINE_PER_UNIT);
    data.select(0);
    assert_eq!(paint(region, &data).square.color, Color::red());
    assert_eq!(paint(region, &data).square.side, 10 * FINE_PER_UNIT);
}

#[test]
fn side_uses_the_shorter_dimension() {
    let b = boxed(250_000);
    assert_eq!(square_for(Region { width: 80, height: 400 }, &b).side, 20 * FINE_PER_UNIT);
    assert_eq!(square_for(Region { width: 400, height: 80 }, &b).side, 20 * FINE_PER_UNIT);
    assert_eq!(square_for(Region { width: 80, height: 80 }, &b).side, 20 * FINE_PER_UNIT);
    assert_eq!(Region { width: 80, height: 400 }.shorter_side(), 80);
    assert_eq!(Region { width: 400, height: 80 }.shorter_side(), 80);
}

#[test]
fn side_is_exact_where_units_would_round() {
    let square = square_for(Region { width: 7, height: 3 }, &boxed(333_333));
    assert_eq!(square.side, 1_999_998);
    assert_eq!(square.center, Point { x: 7_000_000, y: 3_000_000 });
    assert!((units(square.side) - 0.333_333 * 3.0).abs() < 1e-12);
    assert_eq!(units(square.center.x), 3.5);
    assert_eq!(units(square.center.y), 1.5);
}

#[test]
fn zero_scale_and_empty_region() {
    let zero = square_for(Region { width: 300, height: 200 }, &boxed(0));
    assert_eq!(zero.side, 0);
    assert_eq!(zero.center, Point { x: 150 * FINE_PER_UNIT, y: 100 * FINE_PER_UNIT });
    let empty = square_for(Region { width: 0, height: 200 }, &boxed(1_000_000));
    assert_eq!(empty.side, 0);
    assert_eq!(empty.center, Point { x: 0, y: 100 * FINE_PER_UNIT });
}

#[test]
fn largest_region_at_full_scale() {
    let region = Region { width: u32::MAX, height: u32::MAX };
    let square = square_for(region, &boxed(1_000_000));
    assert_eq!(square.side, u32::MAX as u64 * FINE_PER_UNIT);
    assert_eq!(region.far_corner().x, u32::MAX as u64 * FINE_PER_UNIT);
    assert_eq!(region.center().y, u32::MAX as u64 * 1_000_000);
}

#[test]
fn resizing_scales_the_side_in_proportion() {
    let b = boxed(400_000);
    let small = Region { width: 300, height: 200 };
    let large = Region { width: 900, height: 500 };
    let s = square_for(small, &b).side as u128;
    let l = square_for(large, &b).side as u128;
    assert_eq!(s * large.shorter_side() as u128, l * small.shorter_side() as u128);
    assert_eq!(s, 80 * FINE_PER_UNIT as u128);
    assert_eq!(l, 200 * FINE_PER_UNIT as u128);
    assert_eq!(square_for(large, &b).center, Point { x: 450 * FINE_PER_UNIT, y: 250 * FINE_PER_UNIT });
}

#[test]
fn square_takes_the_colour_of_its_box() {
    let square = square_for(Region { width: 10, height: 10 }, &boxed(500_000));
    assert_eq!(square.color, Color { r: 9, g: 8, b: 7 });
    assert_eq!(square.stroke, SQUARE_STROKE);
}
