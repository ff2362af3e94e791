use slime_sim::spawn::{spawn_agent, spawn_species, SpawnBox, SpawnMode};

#[test]
fn circumference_spawn_stays_on_the_ring() {
    // Every heading puts the agent within half a pixel of the ring of
    // radius 100 around the center of a 400 x 400 map.
    let mode = SpawnMode::CircumferenceFacingOutward { distance: 100 };
    for r_angle in 0..2000u32 {
        let a = spawn_agent(400, 400, &mode, 0, 0, r_angle, 0, 500, 0, 0);
        let dx = a.x_milli as f64 / 1000.0 - 200.0;
        let dy = a.y_milli as f64 / 1000.0 - 200.0;
        let dist = (dx * dx + dy * dy).sqrt();
        assert!(
            (99.5..=100.5).contains(&dist),
            "angle={} dist={}",
            r_angle,
            dist
        );
    }
}

#[test]
fn center_spawn_sits_at_the_center() {
    let a = spawn_agent(400, 300, &SpawnMode::CenterFacingOutward, 2, 0, 777, 0, 0, 0, 0);
    assert_eq!(a.x_milli, 200_000);
    assert_eq!(a.y_milli, 150_000);
    assert_eq!(a.angle_units, 777);
    assert_eq!(a.agent_type, 2);
}

#[test]
fn point_spawn_sits_at_the_point() {
    let mode = SpawnMode::PointFacingOutward { x: 12, y: 34 };
    let a = spawn_agent(400, 300, &mode, 1, 0, 100, 0, 0, 0, 0);
    assert_eq!(a.x_milli, 12_000);
    assert_eq!(a.y_milli, 34_000);
}

#[test]
fn inward_spawn_faces_back_at_the_center() {
    let mode = SpawnMode::CircumferenceFacingInward { distance: 50 };
    let a = spawn_agent(400, 400, &mode, 0, 0, 0, 0, 0, 0, 0);
    // A heading of zero spawns at the 3 o'clock point facing half a turn
    // around, back toward the center.
    assert_eq!(a.x_milli, 250_000);
    assert_eq!(a.y_milli, 200_000);
    assert_eq!(a.angle_units, 1000);
}

#[test]
fn evenly_distributed_takes_the_drawn_position() {
    let a = spawn_agent(400, 300, &SpawnMode::EvenlyDistributed, 0, 0, 5, 0, 0, 123_456, 78_900);
    assert_eq!(a.x_milli, 123_456);
    assert_eq!(a.y_milli, 78_900);
    assert_eq!(a.angle_units, 5);
}

#[test]
fn spawn_species_builds_the_requested_count() {
    let the_box = SpawnBox { left: 10, top: 20, box_width: 30, box_height: 40 };
    let mode = SpawnMode::BoxFacingRandom { spawn_box: the_box };
    let agents = spawn_species(400, 300, &mode, 3, 55, 200);
    assert_eq!(agents.len(), 200);
    for a in &agents {
        assert_eq!(a.agent_type, 3);
        assert_eq!(a.countdown_us, 55);
        assert!(a.x_milli >= 10_000 && a.x_milli < 40_000);
        assert!(a.y_milli >= 20_000 && a.y_milli < 60_000);
        assert!(a.angle_units >= 0 && a.angle_units < 2000);
    }
}

#[test]
fn mode_accessors_report_their_payloads() {
    assert_eq!(SpawnMode::EvenlyDistributed.distance(), None);
    assert_eq!(
        SpawnMode::CircleFacingInward { max_distance: 9 }.distance(),
        Some(9)
    );
    assert_eq!(
        SpawnMode::CircumferenceFacingClockwise { distance: 4 }.distance(),
        Some(4)
    );
    let the_box = SpawnBox::default();
    assert_eq!(
        SpawnMode::BoxFacingRandom { spawn_box: the_box }.spawn_box(),
        Some(the_box)
    );
    assert_eq!(SpawnMode::CenterFacingOutward.spawn_box(), None);
    assert_eq!(SpawnMode::default(), SpawnMode::EvenlyDistributed);
    assert_eq!(
        SpawnMode::CircumferenceFacingOutward { distance: 1 }.description(),
        "Circumference facing outward"
    );
}
