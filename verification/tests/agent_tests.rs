use slime_sim::agent::{agent_pass, agent_update, Agent};
use slime_sim::hashing::hash;
use slime_sim::stats::{AgentStats, TrailInteraction};
use slime_sim::trail_map::TrailMap;

fn still_interaction() -> TrailInteraction {
    TrailInteraction {
        attraction_milli: 0,
        addition_raw: 0,
        conversion_enabled: 0,
        conversion_threshold_raw: 0,
        conversion: 0,
    }
}

fn still_species() -> AgentStats {
    AgentStats {
        velocity_milli: 0,
        turn_speed_milli: 0,
        turn_speed_avoidance_milli: 0,
        avoidance_threshold_milli: 20_000,
        sensor_angle_spacing_milli: 60_000,
        sensor_offset_milli: 9_000,
        timeout_us: 0,
        timeout_conversion: 0,
        interaction_channels: [
            still_interaction(),
            still_interaction(),
            still_interaction(),
            still_interaction(),
        ],
    }
}

#[test]
fn unit_step_deposits_into_the_crossed_cell() {
    // One agent at (32, 32) facing along the x axis with velocity 10 px/s
    // and a 0.1 s tick walks exactly one pixel, deposits full strength
    // into channel 0 of (33, 32), and ends there.
    let mut m = TrailMap::new(64, 64);
    let mut species_a = still_species();
    species_a.velocity_milli = 10_000;
    species_a.interaction_channels[0].addition_raw = 0x7FFF;
    let sl = [species_a, still_species(), still_species(), still_species()];
    let mut agent = Agent {
        x_milli: 32_000,
        y_milli: 32_000,
        angle_units: 0,
        agent_type: 0,
        countdown_us: 0,
    };
    agent_update(&mut m, &mut agent, &sl, 0, 100_000);
    assert_eq!(m.get_channel(33, 32, 0), 0x7FFF);
    assert_eq!(m.get_channel(32, 32, 0), 0);
    assert_eq!(agent.x_milli, 33_000);
    assert_eq!(agent.y_milli, 32_000);
    assert_eq!(agent.agent_type, 0);
}

#[test]
fn expired_countdown_morphs_the_species() {
    // Species 0 times out after 0.5 s into species 1; an agent 0.1 s from
    // expiry stepped by 0.2 s morphs and restarts at species 1's lifetime.
    let mut m = TrailMap::new(64, 64);
    let mut species_a = still_species();
    species_a.timeout_us = 500_000;
    species_a.timeout_conversion = 1;
    let mut species_b = still_species();
    species_b.timeout_us = 700_000;
    let sl = [species_a, species_b, still_species(), still_species()];
    let mut agent = Agent {
        x_milli: 32_000,
        y_milli: 32_000,
        angle_units: 0,
        agent_type: 0,
        countdown_us: 100_000,
    };
    agent_update(&mut m, &mut agent, &sl, 0, 200_000);
    assert_eq!(agent.agent_type, 1);
    assert_eq!(agent.countdown_us, 700_000);
}

#[test]
fn walk_leaving_the_map_is_clamped_back() {
    // An agent aimed at the right edge ends the tick clamped just inside
    // it, with a fresh normalized heading.
    let mut m = TrailMap::new(64, 64);
    let mut species_a = still_species();
    species_a.velocity_milli = 10_000;
    let sl = [species_a, still_species(), still_species(), still_species()];
    let mut agent = Agent {
        x_milli: 63_900,
        y_milli: 32_000,
        angle_units: 0,
        agent_type: 0,
        countdown_us: 0,
    };
    agent_update(&mut m, &mut agent, &sl, 7, 100_000);
    assert_eq!(agent.x_milli, 64_000 - 1010);
    assert_eq!(agent.y_milli, 32_000);
    assert!(agent.angle_units >= 0 && agent.angle_units < 2000);
}

#[test]
fn strong_trail_converts_the_crossing_agent() {
    // Channel 2 of the crossed cell is above species 0's conversion
    // threshold, so the crossing converts the agent to species 3.
    let mut m = TrailMap::new(64, 64);
    m.set_channel(33, 32, 2, 0x7000);
    let mut species_a = still_species();
    species_a.velocity_milli = 10_000;
    species_a.interaction_channels[2].conversion_enabled = 1;
    species_a.interaction_channels[2].conversion_threshold_raw = 0x6000;
    species_a.interaction_channels[2].conversion = 3;
    let mut species_d = still_species();
    species_d.timeout_us = 42_000;
    let sl = [species_a, still_species(), still_species(), species_d];
    let mut agent = Agent {
        x_milli: 32_000,
        y_milli: 32_000,
        angle_units: 0,
        agent_type: 0,
        countdown_us: 0,
    };
    agent_update(&mut m, &mut agent, &sl, 0, 100_000);
    assert_eq!(agent.agent_type, 3);
    assert_eq!(agent.countdown_us, 42_000);
}

#[test]
fn unknown_species_is_left_alone() {
    let mut m = TrailMap::new(16, 16);
    let sl = [still_species(), still_species(), still_species(), still_species()];
    let mut agent = Agent {
        x_milli: 5_000,
        y_milli: 5_000,
        angle_units: 123,
        agent_type: 9,
        countdown_us: 0,
    };
    let before = agent;
    agent_update(&mut m, &mut agent, &sl, 0, 100_000);
    assert_eq!(agent, before);
    assert_eq!(m.get_channel(5, 5, 0), 0);
}

#[test]
fn hash_mixes_known_words() {
    assert_eq!(hash(0), 0x67B2772F);
    assert_eq!(hash(1), 0x08FCAAB9);
    assert_eq!(hash(42), 0x9D11AA54);
    assert_eq!(hash(7), hash(7));
    assert_ne!(hash(7), hash(8));
}

#[test]
fn whole_pass_keeps_every_agent_on_the_map() {
    let mut m = TrailMap::new(32, 32);
    let mut species_a = still_species();
    species_a.velocity_milli = 200_000;
    species_a.interaction_channels[1].addition_raw = 100;
    let sl = [species_a, still_species(), still_species(), still_species()];
    let mut agents = Vec::new();
    for i in 0..50u32 {
        agents.push(Agent {
            x_milli: 500 + i * 600,
            y_milli: 31_000,
            angle_units: (i as i64 * 77) % 2000,
            agent_type: 0,
            countdown_us: 0,
        });
    }
    agent_pass(&mut m, &mut agents, &sl, 100_000);
    for a in &agents {
        assert!(a.x_milli < 32_000);
        assert!(a.y_milli < 32_000);
        assert!(a.angle_units >= 0 && a.angle_units < 2000);
    }
    // The pass deposited somewhere.
    let total: u64 = (0..32)
        .flat_map(|y| (0..32).map(move |x| (x, y)))
        .map(|(x, y)| m.get_channel(x, y, 1) as u64)
        .sum();
    assert!(total > 0);
}

#[test]
fn longer_walk_deposits_into_every_crossed_cell() {
    // Three pixels of travel: two unit steps and a final leap that
    // crosses into a third cell, each depositing once.
    let mut m = TrailMap::new(64, 64);
    let mut species_a = still_species();
    species_a.velocity_milli = 30_000;
    species_a.interaction_channels[0].addition_raw = 1000;
    let sl = [species_a, still_species(), still_species(), still_species()];
    let mut agent = Agent {
        x_milli: 32_000,
        y_milli: 32_000,
        angle_units: 0,
        agent_type: 0,
        countdown_us: 0,
    };
    agent_update(&mut m, &mut agent, &sl, 0, 100_000);
    assert_eq!(m.get_channel(33, 32, 0), 1000);
    assert_eq!(m.get_channel(34, 32, 0), 1000);
    assert_eq!(m.get_channel(35, 32, 0), 1000);
    assert_eq!(m.get_channel(36, 32, 0), 0);
    assert_eq!(agent.x_milli, 35_000);
}

#[test]
fn identical_inputs_give_identical_ticks() {
    let species = still_species();
    let sl = [species, species, species, species];
    let mut runs = Vec::new();
    for _ in 0..2 {
        let mut m = TrailMap::new(48, 48);
        m.set_channel(20, 20, 0, 0x3000);
        let mut agent = Agent {
            x_milli: 20_500,
            y_milli: 20_500,
            angle_units: 321,
            agent_type: 0,
            countdown_us: 0,
        };
        agent_update(&mut m, &mut agent, &sl, 11, 16_667);
        runs.push((m.words.clone(), agent));
    }
    assert_eq!(runs[0], runs[1]);
}
