use frogger::frog::Frog;
use frogger::geom::check_collision_recs;
use frogger::geom::Rect;
use frogger::lane::get_lane_type;
use frogger::lane::LaneType;
use frogger::object::Direction;
use frogger::object::MovingObject;
use frogger::object::ObjColor;

#[test]
fn direction_multiplier_signs() {
    assert_eq!(Direction::Left.multiplier(), -1);
    assert_eq!(Direction::Right.multiplier(), 1);
}

#[test]
fn object_advances_exactly() {
    // 100 px/s for 500 ms moves 50 px = 50_000 milli-pixels.
    let mut o = MovingObject::new(10_000, 8, 2, 100, Direction::Right, ObjColor::Red);
    o.update(500);
    assert_eq!(o.x, 60_000);
    assert_eq!(o.row, 8);
    assert_eq!(o.width, 2);
    let mut l = MovingObject::new(200_000, 3, 3, 60, Direction::Left, ObjColor::Brown);
    l.update(1_000);
    assert_eq!(l.x, 140_000);
}

#[test]
fn object_wraps_moving_right() {
    let mut o = MovingObject::new(630_000, 8, 2, 100, Direction::Right, ObjColor::Red);
    o.update(1_000);
    // 630_000 + 100_000 leaves the screen; reappears one width to the left.
    assert_eq!(o.x, -64_000);
}

#[test]
fn object_wraps_moving_left() {
    let mut o = MovingObject::new(-30_000, 2, 2, 100, Direction::Left, ObjColor::Blue);
    o.update(1_000);
    // -130_000 + 64_000 < 0: fully off screen; reappears at the right edge.
    assert_eq!(o.x, 640_000);
}

#[test]
fn object_stays_in_wraparound_band() {
    let mut o = MovingObject::new(0, 8, 4, 120, Direction::Right, ObjColor::Purple);
    let mut l = MovingObject::new(640_000, 2, 3, 70, Direction::Left, ObjColor::Brown);
    for _ in 0..500 {
        o.update(77);
        assert!(-4 * 32_000 <= o.x && o.x <= 640_000);
        l.update(123);
        assert!(-3 * 32_000 <= l.x && l.x <= 640_000);
    }
}

#[test]
fn rect_overlap_cases() {
    let a = Rect { x: 0, y: 0, w: 32_000, h: 32_000 };
    let b = Rect { x: 31_999, y: 31_999, w: 32_000, h: 32_000 };
    let c = Rect { x: 32_000, y: 0, w: 32_000, h: 32_000 };
    let d = Rect { x: -10_000, y: 0, w: 10_001, h: 32_000 };
    assert!(check_collision_recs(a, b));
    // Sharing only an edge is not an overlap.
    assert!(!check_collision_recs(a, c));
    assert!(check_collision_recs(a, d));
    assert!(check_collision_recs(b, a));
}

#[test]
fn lane_types_by_row() {
    assert_eq!(get_lane_type(0), LaneType::Goal);
    for r in 1..=5 {
        assert_eq!(get_lane_type(r), LaneType::River);
    }
    assert_eq!(get_lane_type(6), LaneType::Safe);
    for r in 7..=12 {
        assert_eq!(get_lane_type(r), LaneType::Road);
    }
    assert_eq!(get_lane_type(13), LaneType::Safe);
    assert_eq!(get_lane_type(14), LaneType::Safe);
}

#[test]
fn frog_starts_center_bottom_and_climbs() {
    let mut f = Frog::new();
    assert_eq!((f.col, f.row), (10, 14));
    f.move_down();
    assert_eq!(f.row, 14);
    f.move_up();
    f.move_up();
    f.move_up();
    assert_eq!(f.row, 11);
    assert_eq!(f.col, 10);
    assert_eq!(f.riding_offset, 0);
}

#[test]
fn frog_horizontal_bounds() {
    let mut f = Frog::new();
    for _ in 0..20 {
        f.move_left();
    }
    assert_eq!(f.col, 0);
    f.move_left();
    assert_eq!(f.col, 0);
    for _ in 0..30 {
        f.move_right();
    }
    // The rightmost reachable column: one more would touch the move bound.
    assert_eq!(f.col, 18);
}

#[test]
fn frog_riding_moves_offset_not_column() {
    let mut f = Frog { col: 10, row: 3, riding_offset: 5_000, is_riding: true };
    f.move_left();
    assert_eq!(f.col, 10);
    assert_eq!(f.riding_offset, 5_000 - 32_000);
    f.move_right();
    assert_eq!(f.col, 10);
    assert_eq!(f.riding_offset, 5_000);
}

#[test]
fn frog_row_change_clears_offset() {
    let mut f = Frog { col: 10, row: 3, riding_offset: 7_500, is_riding: true };
    f.move_up();
    assert_eq!(f.row, 2);
    assert_eq!(f.riding_offset, 0);
    let mut g = Frog { col: 4, row: 5, riding_offset: -9_000, is_riding: true };
    g.move_down();
    assert_eq!(g.row, 6);
    assert_eq!(g.riding_offset, 0);
}

#[test]
fn frog_reset_clears_everything() {
    let mut f = Frog { col: 2, row: 1, riding_offset: 11_000, is_riding: true };
    f.reset();
    assert_eq!((f.col, f.row), (10, 14));
    assert_eq!(f.riding_offset, 0);
    assert!(!f.is_riding);
}

#[test]
fn frog_pixel_position_includes_offset() {
    let f = Frog { col: 3, row: 2, riding_offset: 1_234, is_riding: true };
    assert_eq!(f.get_pixel_x(), 3 * 32_000 + 1_234);
    assert_eq!(f.get_pixel_y(), 2 * 32_000);
}
