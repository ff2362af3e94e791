use slime_sim::diffuse::{diffuse_cell, diffuse_pass};
use slime_sim::modes::ColorModeEncoded;
use slime_sim::stats::{Color, TrailStats};
use slime_sim::trail_map::TrailMap;

fn quiet_channel(evaporation_speed_milli: u32, diffusion_speed_milli: u32) -> TrailStats {
    TrailStats {
        evaporation_speed_milli,
        diffusion_speed_milli,
        color_mode: ColorModeEncoded(0xFF),
        color: Color { r: 0, g: 0, b: 0, a: 0 },
    }
}

#[test]
fn corner_spike_spreads_to_one_ninth() {
    // A single full-strength corner cell under fast diffusion converges to
    // the 3x3 mean in one second.
    let mut m = TrailMap::new(64, 64);
    m.set_channel(0, 0, 0, 0x7FFF);
    let stats = [
        quiet_channel(0, 9000),
        quiet_channel(0, 0),
        quiet_channel(0, 0),
        quiet_channel(0, 0),
    ];
    let out = diffuse_pass(&m, &stats, 1_000_000);
    let v = out.get_channel(0, 0, 0);
    let frac = v as f64 / 0x7FFF as f64;
    assert!((frac - 1.0 / 9.0).abs() < 0.001, "frac={}", frac);
}

#[test]
fn evaporation_only_subtracts_exactly() {
    // With diffusion off, one tick takes exactly the evaporated amount.
    let mut m = TrailMap::new(8, 8);
    m.set_channel(4, 4, 1, 0x7FFF);
    let st = quiet_channel(100, 0);
    let v = diffuse_cell(&m, &st, 4, 4, 1, 1_000_000);
    // 100 thousandths of full strength in one second: 100 * 0x7FFF / 1000.
    assert_eq!(v, 0x7FFF - 3276);
    // The floor at zero.
    let st = quiet_channel(10_000, 0);
    let v = diffuse_cell(&m, &st, 4, 4, 1, 1_000_000);
    assert_eq!(v, 0);
}

#[test]
fn uniform_neighborhood_is_stationary() {
    // Where the whole 3x3 neighborhood holds one value and evaporation is
    // off, diffusion changes nothing.
    let mut m = TrailMap::new(8, 8);
    for y in 2..5 {
        for x in 2..5 {
            m.set_channel(x, y, 0, 12345);
        }
    }
    let st = quiet_channel(0, 5000);
    let v = diffuse_cell(&m, &st, 3, 3, 0, 500_000);
    assert_eq!(v, 12345);
}
