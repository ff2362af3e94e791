use slime_sim::modes::{ClickModeEncoded, ColorModeEncoded};
use slime_sim::wire::{
    bytes_from_agent_stats, bytes_from_agents, bytes_from_trail_stats, AgentStatsWire, AgentWire,
    MouseConstants, ShaderConstants, TrailInteractionWire, TrailStatsWire,
};

#[test]
fn shader_constants_marshal_bit_exactly() {
    let constants = ShaderConstants {
        screen_width: 1280,
        screen_height: 720,
        map_width: 1280,
        map_height: 720,
        time_bits: 0.0f32.to_bits(),
        time_step_bits: 0.01667f32.to_bits(),
        padding_1: 0,
        padding_2: 0,
        background_color_bits: [
            0.0f32.to_bits(),
            0.0f32.to_bits(),
            0.0f32.to_bits(),
            1.0f32.to_bits(),
        ],
    };
    let bytes = constants.to_bytes();
    assert_eq!(bytes.len(), 48);
    // The first word is the screen width, 1280 = 0x00000500, little-endian.
    assert_eq!(&bytes[0..4], &[0x00, 0x05, 0x00, 0x00]);
    assert_eq!(&bytes[4..8], &720u32.to_le_bytes());
    assert_eq!(&bytes[20..24], &0.01667f32.to_le_bytes());
    assert_eq!(&bytes[44..48], &1.0f32.to_le_bytes());
}

#[test]
fn mouse_constants_marshal_bit_exactly() {
    let constants = MouseConstants {
        screen_width: 800,
        screen_height: 600,
        map_width: 400,
        map_height: 300,
        click_mode: ClickModeEncoded(258),
        mouse_down: 1,
        mouse_position_bits: [10.0f32.to_bits(), 10.0f32.to_bits()],
        last_mouse_position_bits: [0, 0],
        brush_size_bits: 3.0f32.to_bits(),
        padding: 0,
    };
    let bytes = constants.to_bytes();
    assert_eq!(bytes.len(), 48);
    assert_eq!(&bytes[0..4], &800u32.to_le_bytes());
    assert_eq!(&bytes[16..20], &258u32.to_le_bytes());
    assert_eq!(&bytes[20..24], &1u32.to_le_bytes());
    assert_eq!(&bytes[24..28], &10.0f32.to_le_bytes());
    assert_eq!(&bytes[40..44], &3.0f32.to_le_bytes());
}

#[test]
fn trail_stats_buffer_lays_out_channels_in_order() {
    let quiet = TrailStatsWire {
        evaporation_speed_bits: 0,
        diffusion_speed_bits: 0,
        padding_1: 0,
        color_mode: ColorModeEncoded(0xFF),
        color_bits: [0, 0, 0, 0],
    };
    let mut loud = quiet;
    loud.evaporation_speed_bits = 120.0f32.to_bits();
    loud.diffusion_speed_bits = 240.0f32.to_bits();
    loud.color_mode = ColorModeEncoded(0);
    loud.color_bits = [1.0f32.to_bits(), 0, 0, 1.0f32.to_bits()];
    let bytes = bytes_from_trail_stats(&[quiet, loud, quiet, quiet]);
    assert_eq!(bytes.len(), 128);
    // Channel 1 starts at byte 32.
    assert_eq!(&bytes[32..36], &120.0f32.to_le_bytes());
    assert_eq!(&bytes[36..40], &240.0f32.to_le_bytes());
    assert_eq!(&bytes[44..48], &0u32.to_le_bytes());
    assert_eq!(&bytes[48..52], &1.0f32.to_le_bytes());
    // The quiet channels hold the disabled color-mode word.
    assert_eq!(&bytes[12..16], &0xFFu32.to_le_bytes());
}

#[test]
fn agent_buffer_lays_out_agents_in_order() {
    let a = AgentWire {
        x_bits: 32.5f32.to_bits(),
        y_bits: 16.0f32.to_bits(),
        angle_bits: 1.5f32.to_bits(),
        agent_type: 2,
        countdown_bits: 0.25f32.to_bits(),
    };
    let b = AgentWire { x_bits: 0, y_bits: 0, angle_bits: 0, agent_type: 0, countdown_bits: 0 };
    let bytes = bytes_from_agents(&vec![a, b]);
    assert_eq!(bytes.len(), 40);
    assert_eq!(&bytes[0..4], &32.5f32.to_le_bytes());
    assert_eq!(&bytes[12..16], &2u32.to_le_bytes());
    assert_eq!(&bytes[16..20], &0.25f32.to_le_bytes());
    assert!(bytes[20..40].iter().all(|x| *x == 0));
}

#[test]
fn agent_stats_buffer_lays_out_species_in_order() {
    let quiet_ia = TrailInteractionWire {
        attraction_bits: 0,
        addition_bits: 0,
        conversion_enabled: 0,
        conversion_threshold_bits: 0,
        conversion: 0,
    };
    let mut species = AgentStatsWire {
        velocity_bits: 40.0f32.to_bits(),
        turn_speed_bits: 80.0f32.to_bits(),
        turn_speed_avoidance_bits: 30.0f32.to_bits(),
        avoidance_threshold_bits: 20.0f32.to_bits(),
        sensor_angle_spacing_bits: 60.0f32.to_bits(),
        sensor_offset_bits: 30.0f32.to_bits(),
        timeout_bits: 0,
        timeout_conversion: 0,
        interaction_channels: [quiet_ia; 4],
    };
    species.interaction_channels[1].attraction_bits = 1.0f32.to_bits();
    species.interaction_channels[1].conversion = 2;
    let mut quiet_species = species;
    quiet_species.velocity_bits = 0;
    let bytes = bytes_from_agent_stats(&[quiet_species, species, quiet_species, quiet_species]);
    assert_eq!(bytes.len(), 448);
    // Species 1 starts at byte 112; its second interaction at 112 + 32 + 20.
    assert_eq!(&bytes[112..116], &40.0f32.to_le_bytes());
    assert_eq!(&bytes[164..168], &1.0f32.to_le_bytes());
    assert_eq!(&bytes[180..184], &2u32.to_le_bytes());
}
