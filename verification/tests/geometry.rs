use render_context::geometry::Point2;
use render_context::geometry::Rect;
use render_context::geometry::Vector2;
use render_context::geometry::VisibleRect;
use render_context::geometry::GROWTH;
use render_context::geometry::MARGIN;
use render_context::geometry::SCALE;
use render_context::geometry::TENTHS;

#[test]
fn expansion_constants_are_eleven_tenths_fifty_and_hundred() {
    assert_eq!(SCALE, 11);
    assert_eq!(TENTHS, 10);
    assert_eq!(MARGIN, 50);
    assert_eq!(GROWTH, 100);
}

#[test]
fn expand_camera_box_800_by_600_at_origin() {
    // (-50, -50, 980, 760) in world units.
    let expanded = Rect::new(0, 0, 800, 600).expand();
    assert_eq!(expanded, VisibleRect {
        x: -50 * TENTHS,
        y: -50 * TENTHS,
        w: 980 * TENTHS,
        h: 760 * TENTHS,
    });
    assert_eq!(expanded, VisibleRect { x: -500, y: -500, w: 9800, h: 7600 });
}

#[test]
fn expand_scales_the_corner_before_moving_it() {
    // (60, -270, 111, 122) in world units: not (100 - 50) * 1.1 = 55 for the corner.
    let expanded = Rect::new(100, -200, 10, 20).expand();
    assert_eq!(expanded, VisibleRect { x: 600, y: -2700, w: 1110, h: 1220 });
}

#[test]
fn expand_adds_the_growth_after_scaling() {
    // 800 * 1.1 + 100 = 980, where (800 + 100) * 1.1 would be 990 and 800 * 1.1 + 50 is 930.
    let expanded = Rect::new(100, 200, 800, 600).expand();
    assert_eq!(expanded, VisibleRect { x: 600, y: 1700, w: 9800, h: 7600 });
}

#[test]
fn expand_keeps_the_tenths() {
    // 5 * 1.1 - 50 = -44.5, -5 * 1.1 - 50 = -55.5, 9 * 1.1 + 100 = 109.9, 1 * 1.1 + 100 = 101.1.
    let expanded = Rect::new(5, -5, 9, 1).expand();
    assert_eq!(expanded, VisibleRect { x: -445, y: -555, w: 1099, h: 1011 });
}

#[test]
fn expand_of_the_empty_box_is_the_bare_margin() {
    let expanded = Rect::new(0, 0, 0, 0).expand();
    assert_eq!(expanded, VisibleRect { x: -500, y: -500, w: 1000, h: 1000 });
}

#[test]
fn expand_at_the_limits_of_the_grid() {
    let expanded = Rect::new(i32::MIN, i32::MAX, i32::MAX, i32::MIN).expand();
    assert_eq!(expanded.x, -23622320128 - 500);
    assert_eq!(expanded.y, 23622320117 - 500);
    assert_eq!(expanded.w, 23622320117 + 1000);
    assert_eq!(expanded.h, -23622320128 + 1000);
}

#[test]
fn expand_is_exact_for_every_box_tried() {
    let coordinates = vec![-1000, -37, -10, -1, 0, 1, 3, 10, 99, 1920];
    for &x in &coordinates {
        for &w in &coordinates {
            let camera_box = Rect::new(x, w, w, x);
            let expanded = camera_box.expand();
            assert_eq!(expanded.x, 11 * i64::from(x) - 500);
            assert_eq!(expanded.y, 11 * i64::from(w) - 500);
            assert_eq!(expanded.w, 11 * i64::from(w) + 1000);
            assert_eq!(expanded.h, 11 * i64::from(x) + 1000);
        }
    }
}

#[test]
fn flipped_dest_raises_y_by_the_height() {
    assert_eq!(Vector2::new(5, -7).flipped_dest(20), Point2 { x: 5, y: 13 });
    assert_eq!(Vector2::new(-3, 100).flipped_dest(0), Point2 { x: -3, y: 100 });
}

#[test]
fn flipped_dest_cannot_overflow() {
    let top = Vector2::new(i32::MAX, i32::MAX).flipped_dest(u32::MAX);
    assert_eq!(top, Point2 { x: 2147483647, y: 2147483647 + 4294967295 });
    let bottom = Vector2::new(i32::MIN, i32::MIN).flipped_dest(0);
    assert_eq!(bottom, Point2 { x: -2147483648, y: -2147483648 });
}

#[test]
fn constructors_keep_their_arguments() {
    assert_eq!(Vector2::new(1, 2), Vector2 { x: 1, y: 2 });
    assert_eq!(Point2::new(3, 4), Point2 { x: 3, y: 4 });
    assert_eq!(Point2::origin(), Point2 { x: 0, y: 0 });
    assert_eq!(Rect::new(1, 2, 3, 4), Rect { x: 1, y: 2, w: 3, h: 4 });
}
