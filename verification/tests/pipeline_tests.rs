use slime_sim::modes::{ClickMode, ColorModeEncoded};
use slime_sim::pipeline::{
    agent_dispatch_workgroups, create_agent_stats_all, plan_frame, plan_frame_jittered,
    respawn_agents, AgentStatsAll, ConfigurationValues, Globals, MouseEvent, SlotMouse,
};
use slime_sim::spawn::SpawnMode;
use slime_sim::stats::{AgentStats, Color, TrailInteraction, TrailStats};

fn base_interaction() -> TrailInteraction {
    TrailInteraction {
        attraction_milli: 0,
        addition_raw: 0,
        conversion_enabled: 0,
        conversion_threshold_raw: 0,
        conversion: 0,
    }
}

fn base_species(name: &str) -> AgentStatsAll {
    AgentStatsAll {
        name: name.to_string(),
        spawn_mode: Vec::new(),
        num_agents: 100,
        shader_stats: AgentStats {
            velocity_milli: 40_000,
            turn_speed_milli: 80_000,
            turn_speed_avoidance_milli: 30_000,
            avoidance_threshold_milli: 20_000,
            sensor_angle_spacing_milli: 60_000,
            sensor_offset_milli: 30_000,
            timeout_us: 0,
            timeout_conversion: 0,
            interaction_channels: [
                base_interaction(),
                base_interaction(),
                base_interaction(),
                base_interaction(),
            ],
        },
    }
}

fn base_trail() -> TrailStats {
    TrailStats {
        evaporation_speed_milli: 1000,
        diffusion_speed_milli: 2400,
        color_mode: ColorModeEncoded(0),
        color: Color { r: 1000, g: 0, b: 0, a: 1000 },
    }
}

fn base_config() -> ConfigurationValues {
    ConfigurationValues {
        globals: Globals {
            time_step_us: 16_667,
            max_frame_rate_milli: 100_000,
            smoothen_after_max_frame_rate: false,
            compute_steps_per_render: 1,
            click_mode: ClickMode::PaintTrail(0),
            brush_size_milli: 7_000,
            background_color: Color { r: 5, g: 15, b: 40, a: 1000 },
            map_width: 1280,
            map_height: 720,
        },
        agent_stats: vec![
            base_species("Blue"),
            base_species("Red"),
            base_species("Green"),
            base_species("Yellow"),
        ],
        trail_stats: [base_trail(), base_trail(), base_trail(), base_trail()],
        shader_config_changed: false,
        scale_factor_milli: 1000,
        show_menu: true,
        respawn: false,
        reset_trails: false,
        quit: false,
        playing: true,
    }
}

#[test]
fn first_frame_runs_with_zero_time_step() {
    let mut config = base_config();
    let plan = plan_frame(&mut config, true, 0, 1000);
    assert_eq!(plan.dt_us, 0);
    assert_eq!(plan.sleep_us, 0);
    assert_eq!(plan.steps, 1);
    assert!(!plan.quit);
}

#[test]
fn frame_pacer_sleeps_the_difference() {
    let mut config = base_config();
    // 100 Hz cap, no jitter: a frame every 10 000 us; 4 000 us elapsed.
    let plan = plan_frame(&mut config, false, 4_000, 1000);
    assert_eq!(plan.sleep_us, 6_000);
    assert_eq!(plan.dt_us, 16_667);
    // A slow frame does not sleep.
    let plan = plan_frame(&mut config, false, 50_000, 1000);
    assert_eq!(plan.sleep_us, 0);
}

#[test]
fn pending_requests_are_honored_once() {
    let mut config = base_config();
    config.reset_trails = true;
    config.respawn = true;
    config.shader_config_changed = true;
    config.playing = false;
    let plan = plan_frame(&mut config, false, 0, 1000);
    assert!(plan.reset_trails);
    assert!(plan.respawn);
    assert!(plan.upload_stats);
    assert_eq!(plan.steps, 0);
    assert!(!config.reset_trails);
    assert!(!config.respawn);
    assert!(!config.shader_config_changed);
    let plan = plan_frame(&mut config, false, 0, 1000);
    assert!(!plan.reset_trails);
    assert!(!plan.respawn);
    assert!(!plan.upload_stats);
}

#[test]
fn jittered_plan_stays_under_the_stretched_cap() {
    let mut config = base_config();
    for _ in 0..50 {
        let plan = plan_frame_jittered(&mut config, false, 0);
        assert!(plan.sleep_us <= 11_000);
        assert_eq!(plan.dt_us, 16_667);
    }
}

#[test]
fn long_press_forces_the_menu_open() {
    let mut config = base_config();
    config.show_menu = false;
    let mut mouse = SlotMouse {
        mouse_position_x_milli: 0,
        mouse_position_y_milli: 0,
        mouse_click_us: None,
    };
    mouse.handle_input(&mut config, &MouseEvent::LeftPressed, 1_000_000);
    assert_eq!(mouse.mouse_click_us, Some(1_000_000));
    mouse.handle_input(&mut config, &MouseEvent::LeftReleased, 5_000_001);
    assert!(config.show_menu);
    assert_eq!(mouse.mouse_click_us, None);
}

#[test]
fn short_click_opens_the_menu_only_in_show_menu_mode() {
    let mut config = base_config();
    config.show_menu = false;
    let mut mouse = SlotMouse {
        mouse_position_x_milli: 0,
        mouse_position_y_milli: 0,
        mouse_click_us: None,
    };
    // A short click in a paint mode leaves the menu closed.
    mouse.handle_input(&mut config, &MouseEvent::LeftPressed, 0);
    mouse.handle_input(&mut config, &MouseEvent::LeftReleased, 100_000);
    assert!(!config.show_menu);
    // The same click in the show-menu mode opens it.
    config.globals.click_mode = ClickMode::ShowMenu;
    mouse.handle_input(&mut config, &MouseEvent::LeftPressed, 200_000);
    mouse.handle_input(&mut config, &MouseEvent::LeftReleased, 300_000);
    assert!(config.show_menu);
}

#[test]
fn pointer_moves_feed_the_brush_input() {
    let mut config = base_config();
    let mut mouse = SlotMouse {
        mouse_position_x_milli: 0,
        mouse_position_y_milli: 0,
        mouse_click_us: None,
    };
    mouse.handle_input(
        &mut config,
        &MouseEvent::CursorMoved { x_milli: 10_000, y_milli: 20_000 },
        0,
    );
    let b = mouse.brush_input(&config);
    assert!(!b.mouse_down);
    assert_eq!(b.mouse_x_milli, 10_000);
    assert_eq!(b.mouse_y_milli, 20_000);
    assert_eq!(b.brush_size_milli, 7_000);
    assert_eq!(b.click_mode.0, 256);
    mouse.handle_input(&mut config, &MouseEvent::LeftPressed, 0);
    let b = mouse.brush_input(&config);
    assert!(b.mouse_down);
}

#[test]
fn preset_carries_the_four_species() {
    let preset = create_agent_stats_all();
    assert_eq!(preset.len(), 4);
    assert_eq!(preset[0].name, "Blue");
    assert_eq!(preset[1].name, "Green");
    assert_eq!(preset[2].name, "BlueInfection");
    assert_eq!(preset[3].name, "GreenInfection");
    assert_eq!(preset[0].num_agents, 50000);
    assert_eq!(preset[2].num_agents, 0);
    assert_eq!(
        preset[0].spawn_mode,
        vec![SpawnMode::CircumferenceFacingOutward { distance: 100 }]
    );
    assert_eq!(preset[0].shader_stats.velocity_milli, 40_000);
    assert_eq!(preset[0].shader_stats.interaction_channels[0].conversion, 2);
    assert_eq!(
        preset[0].shader_stats.interaction_channels[0].conversion_threshold_raw,
        26214
    );
    assert_eq!(preset[1].shader_stats.interaction_channels[2].attraction_milli, -1000);
    assert_eq!(preset[2].shader_stats.timeout_us, 1_500_000);
    assert_eq!(preset[3].shader_stats.timeout_us, 6_000_000);
}

#[test]
fn respawn_builds_the_store_block_by_block() {
    let mut config = base_config();
    config.agent_stats[0].num_agents = 7;
    config.agent_stats[1].num_agents = 0;
    config.agent_stats[2].num_agents = 5;
    config.agent_stats[2].shader_stats.timeout_us = 900_000;
    config.agent_stats[3].num_agents = 3;
    let agents = respawn_agents(&config);
    assert_eq!(agents.len(), 15);
    for (i, a) in agents.iter().enumerate() {
        let species = if i < 7 {
            0
        } else if i < 12 {
            2
        } else {
            3
        };
        assert_eq!(a.agent_type, species);
        if species == 2 {
            assert_eq!(a.countdown_us, 900_000);
        }
        assert!((a.x_milli as u64) < 1280 * 1000);
        assert!((a.y_milli as u64) < 720 * 1000);
    }
}

#[test]
fn agent_dispatch_rounds_up_to_whole_groups() {
    assert_eq!(agent_dispatch_workgroups(0), 0);
    assert_eq!(agent_dispatch_workgroups(1), 1);
    assert_eq!(agent_dispatch_workgroups(256), 1);
    assert_eq!(agent_dispatch_workgroups(257), 2);
    assert_eq!(agent_dispatch_workgroups(100_000), 391);
}
