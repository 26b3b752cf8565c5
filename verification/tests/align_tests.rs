use eframe::align::{center_size_in_rect, Align, Align2};
use eframe::geom::{pos2, vec2, Pos2, Rangei, Rect, Vec2};

fn rect(min_x: i64, min_y: i64, max_x: i64, max_y: i64) -> Rect {
    Rect {
        min: Pos2 { x: min_x, y: min_y },
        max: Pos2 { x: max_x, y: max_y },
    }
}

#[test]
fn align_flip_inverts() {
    assert_eq!(Align::Min.flip(), Align::Max);
    assert_eq!(Align::Center.flip(), Align::Center);
    assert_eq!(Align::Max.flip(), Align::Min);
}

#[test]
fn align_to_sign_values() {
    assert_eq!(Align::Min.to_sign(), -1);
    assert_eq!(Align::Center.to_sign(), 0);
    assert_eq!(Align::Max.to_sign(), 1);
}

#[test]
fn align_size_within_range_small_size() {
    let range = Rangei { min: 10, max: 20 };
    assert_eq!(
        Align::Min.align_size_within_range(2, range),
        Rangei { min: 10, max: 12 }
    );
    assert_eq!(
        Align::Center.align_size_within_range(2, range),
        Rangei { min: 14, max: 16 }
    );
    assert_eq!(
        Align::Max.align_size_within_range(2, range),
        Rangei { min: 18, max: 20 }
    );
}

#[test]
fn align_size_within_range_overflowing_size() {
    let range = Rangei { min: 10, max: 20 };
    assert_eq!(
        Align::Min.align_size_within_range(20, range),
        Rangei { min: 10, max: 30 }
    );
    assert_eq!(
        Align::Center.align_size_within_range(20, range),
        Rangei { min: 5, max: 25 }
    );
    assert_eq!(
        Align::Max.align_size_within_range(20, range),
        Rangei { min: 0, max: 20 }
    );
}

#[test]
fn align2_axes() {
    let a = Align2([Align::Min, Align::Max]);
    assert_eq!(a.x(), Align::Min);
    assert_eq!(a.y(), Align::Max);
}

#[test]
fn align2_to_sign_is_componentwise() {
    let a = Align2([Align::Min, Align::Center]);
    assert_eq!(a.to_sign(), Vec2 { x: -1, y: 0 });
    let b = Align2([Align::Max, Align::Max]);
    assert_eq!(b.to_sign(), Vec2 { x: 1, y: 1 });
}

#[test]
fn align2_flips() {
    let a = Align2([Align::Min, Align::Min]);
    assert_eq!(a.flip_x(), Align2([Align::Max, Align::Min]));
    assert_eq!(a.flip_y(), Align2([Align::Min, Align::Max]));
    assert_eq!(a.flip(), Align2([Align::Max, Align::Max]));
}

#[test]
fn align2_anchor_rect_pulls_back_origin() {
    let r = rect(10, 10, 30, 50);
    let left_top = Align2([Align::Min, Align::Min]).anchor_rect(r);
    assert_eq!(left_top, r);
    let right_bottom = Align2([Align::Max, Align::Max]).anchor_rect(r);
    assert_eq!(right_bottom, rect(-10, -30, 10, 10));
    let center = Align2([Align::Center, Align::Center]).anchor_rect(r);
    assert_eq!(center, rect(0, -10, 20, 30));
}

#[test]
fn align2_anchor_size_places_corner_on_pos() {
    let pos = pos2(100, 200);
    let size = vec2(10, 20);
    assert_eq!(
        Align2([Align::Min, Align::Min]).anchor_size(pos, size),
        rect(100, 200, 110, 220)
    );
    assert_eq!(
        Align2([Align::Max, Align::Min]).anchor_size(pos, size),
        rect(90, 200, 100, 220)
    );
    assert_eq!(
        Align2([Align::Center, Align::Center]).anchor_size(pos, size),
        rect(95, 190, 105, 210)
    );
}

#[test]
fn align2_align_size_within_rect_centers() {
    let frame = rect(0, 0, 100, 100);
    let r = Align2([Align::Center, Align::Center]).align_size_within_rect(vec2(20, 10), frame);
    assert_eq!(r, rect(40, 45, 60, 55));
}

#[test]
fn align2_pos_in_rect_corners_and_center() {
    let frame = rect(0, 0, 100, 50);
    assert_eq!(
        Align2([Align::Min, Align::Min]).pos_in_rect(&frame),
        pos2(0, 0)
    );
    assert_eq!(
        Align2([Align::Max, Align::Max]).pos_in_rect(&frame),
        pos2(100, 50)
    );
    assert_eq!(
        Align2([Align::Center, Align::Center]).pos_in_rect(&frame),
        pos2(50, 25)
    );
}

#[test]
fn center_size_in_rect_centers_and_overflows() {
    let frame = rect(0, 0, 100, 100);
    assert_eq!(center_size_in_rect(vec2(50, 50), frame), rect(25, 25, 75, 75));
    // A size bigger than the frame bounces out of it around the center.
    assert_eq!(
        center_size_in_rect(vec2(200, 200), frame),
        rect(-50, -50, 150, 150)
    );
}

#[test]
fn align2_equality_is_componentwise() {
    assert_eq!(
        Align2([Align::Min, Align::Max]),
        Align2([Align::Min, Align::Max])
    );
    assert!(Align2([Align::Min, Align::Max]) != Align2([Align::Max, Align::Min]));
}
