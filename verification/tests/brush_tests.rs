use slime_sim::brush::{brush_pass, BrushInput};
use slime_sim::modes::ClickMode;
use slime_sim::trail_map::TrailMap;

fn brush_at(x: i64, y: i64, size: u32, mode: ClickMode, down: bool) -> BrushInput {
    BrushInput {
        mouse_down: down,
        mouse_x_milli: x * 1000,
        mouse_y_milli: y * 1000,
        brush_size_milli: size * 1000,
        click_mode: mode.encode(),
    }
}

#[test]
fn paint_writes_full_strength_within_radius() {
    let mut m = TrailMap::new(32, 32);
    let b = brush_at(10, 10, 3, ClickMode::PaintTrail(2), true);
    brush_pass(&mut m, &b);
    // (11, 11) is sqrt(2) pixels away: painted to exactly 1.0.
    assert_eq!(m.get_channel(11, 11, 2), 0x7FFF);
    assert_eq!(m.get_channel(10, 10, 2), 0x7FFF);
    // Other channels of a painted cell keep their bits.
    assert_eq!(m.get_channel(11, 11, 0), 0);
    // (15, 15) is outside the radius: untouched.
    assert_eq!(m.get_channel(15, 15, 2), 0);
    // The boundary is a strict squared-distance test: (13, 10) is exactly
    // 3 pixels away and stays untouched.
    assert_eq!(m.get_channel(13, 10, 2), 0);
}

#[test]
fn mouse_up_paints_nothing() {
    let mut m = TrailMap::new(32, 32);
    let b = brush_at(10, 10, 3, ClickMode::PaintTrail(2), false);
    brush_pass(&mut m, &b);
    assert_eq!(m.get_channel(10, 10, 2), 0);
}

#[test]
fn reset_trail_clears_one_channel() {
    let mut m = TrailMap::new(32, 32);
    for c in 0..4 {
        m.set_channel(10, 10, c, 0x4000);
    }
    let b = brush_at(10, 10, 2, ClickMode::ResetTrail(1), true);
    brush_pass(&mut m, &b);
    assert_eq!(m.get_channel(10, 10, 1), 0);
    assert_eq!(m.get_channel(10, 10, 0), 0x4000);
    assert_eq!(m.get_channel(10, 10, 2), 0x4000);
}

#[test]
fn reset_all_trails_clears_every_channel() {
    let mut m = TrailMap::new(32, 32);
    for c in 0..4 {
        m.set_channel(10, 10, c, 0x4000);
        m.set_channel(20, 20, c, 0x4000);
    }
    let b = brush_at(10, 10, 2, ClickMode::ResetAllTrails, true);
    brush_pass(&mut m, &b);
    for c in 0..4 {
        assert_eq!(m.get_channel(10, 10, c), 0);
        assert_eq!(m.get_channel(20, 20, c), 0x4000);
    }
}

#[test]
fn menu_modes_leave_the_map_alone() {
    let mut m = TrailMap::new(16, 16);
    m.set_channel(5, 5, 0, 0x1234);
    let b = brush_at(5, 5, 4, ClickMode::ShowMenu, true);
    brush_pass(&mut m, &b);
    assert_eq!(m.get_channel(5, 5, 0), 0x1234);
    let b = brush_at(5, 5, 4, ClickMode::Disabled, true);
    brush_pass(&mut m, &b);
    assert_eq!(m.get_channel(5, 5, 0), 0x1234);
}
