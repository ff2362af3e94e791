use slime_sim::modes::ColorMode;
use slime_sim::pixel::raw_from_milli;
use slime_sim::render::{fullscreen_vertex, render_fragment, render_pixel};
use slime_sim::stats::{Color, TrailStats};
use slime_sim::trail_map::TrailMap;

fn channel_stats(mode: ColorMode, color: Color) -> TrailStats {
    TrailStats {
        evaporation_speed_milli: 0,
        diffusion_speed_milli: 0,
        color_mode: mode.encode(),
        color,
    }
}

fn disabled_stats() -> TrailStats {
    channel_stats(ColorMode::Disabled, Color { r: 0, g: 0, b: 0, a: 0 })
}

#[test]
fn half_strength_red_channel_composites_to_half_red() {
    let mut m = TrailMap::new(8, 8);
    m.set_channel(0, 0, 0, raw_from_milli(500));
    let stats = [
        channel_stats(ColorMode::Add, Color { r: 1000, g: 0, b: 0, a: 1000 }),
        disabled_stats(),
        disabled_stats(),
        disabled_stats(),
    ];
    let bg = Color { r: 0, g: 0, b: 0, a: 1000 };
    let out = render_pixel(&m, &stats, &bg, 0, 0);
    assert!((out.r as f64 / 1000.0 - 0.5).abs() < 0.01, "r={}", out.r);
    assert_eq!(out.g, 0);
    assert_eq!(out.b, 0);
    assert_eq!(out.a, 1000);
}

#[test]
fn subtract_floors_at_zero_after_clamp() {
    let mut m = TrailMap::new(8, 8);
    m.set_channel(0, 0, 0, 0x7FFF);
    let stats = [
        channel_stats(ColorMode::Subtract, Color { r: 1000, g: 1000, b: 1000, a: 0 }),
        disabled_stats(),
        disabled_stats(),
        disabled_stats(),
    ];
    let bg = Color { r: 200, g: 0, b: 500, a: 1000 };
    let out = render_pixel(&m, &stats, &bg, 0, 0);
    assert_eq!(out.r, 0);
    assert_eq!(out.g, 0);
    assert_eq!(out.b, 0);
    assert_eq!(out.a, 1000);
}

#[test]
fn disabled_channels_keep_the_background() {
    let m = TrailMap::new(8, 8);
    let stats = [disabled_stats(), disabled_stats(), disabled_stats(), disabled_stats()];
    let bg = Color { r: 12, g: 345, b: 678, a: 1000 };
    let out = render_pixel(&m, &stats, &bg, 3, 3);
    assert_eq!(out, bg);
}

#[test]
fn fragments_outside_the_map_are_white() {
    let m = TrailMap::new(8, 8);
    let stats = [disabled_stats(), disabled_stats(), disabled_stats(), disabled_stats()];
    let bg = Color { r: 0, g: 0, b: 0, a: 1000 };
    let out = render_fragment(&m, &stats, &bg, -1, 3);
    assert_eq!(out, Color { r: 1000, g: 1000, b: 1000, a: 1000 });
    let out = render_fragment(&m, &stats, &bg, 3, 8);
    assert_eq!(out, Color { r: 1000, g: 1000, b: 1000, a: 1000 });
    let out = render_fragment(&m, &stats, &bg, 3, 3);
    assert_eq!(out, bg);
}

#[test]
fn fullscreen_triangle_covers_the_clip_square() {
    assert_eq!(fullscreen_vertex(0), (-1000, -1000));
    assert_eq!(fullscreen_vertex(1), (3000, -1000));
    assert_eq!(fullscreen_vertex(2), (-1000, 3000));
}
