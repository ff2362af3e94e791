//! The mutable configuration record and the per-frame decisions.
//!
//! The menu mutates a single configuration record; each frame, the
//! sequencer reads it, decides how long to sleep, which pending requests
//! (reset, respawn, stats upload) to honor, how many compute steps to
//! run, and clears the request flags.  The decisions are pure functions
//! here; performing them (sleeping, submitting passes) is the host
//! shell's job.

use vstd::prelude::*;

verus! {

use crate::{NUM_AGENT_TYPES, NUM_TRAIL_STATS};
use crate::agent::Agent;
use crate::brush::BrushInput;
use crate::modes::ClickMode;
use crate::spawn::SpawnMode;
use crate::stats::{AgentStats, Color, MAX_TIME_STEP_US, TrailInteraction, TrailStats};

/// Global simulation parameters.
#[derive(Clone, PartialEq, Debug)]
pub struct Globals {
    /// Target tick length handed to the kernels, in microseconds.
    pub time_step_us: u64,
    /// Frame-rate cap, in thousandths of a hertz.
    pub max_frame_rate_milli: u32,
    pub smoothen_after_max_frame_rate: bool,
    /// Simulation steps per rendered frame.
    pub compute_steps_per_render: u32,
    pub click_mode: ClickMode,
    /// Brush radius, in milli-pixels.
    pub brush_size_milli: u32,
    pub background_color: Color,
    pub map_width: u32,
    pub map_height: u32,
}

impl Globals {
    pub open spec fn wf(self) -> bool {
        &&& self.time_step_us <= MAX_TIME_STEP_US
        &&& 1 <= self.max_frame_rate_milli
        &&& self.compute_steps_per_render <= 1000
        &&& self.brush_size_milli <= 10_000_000
        &&& self.background_color.wf()
        &&& 2 <= self.map_width <= 4_000_000
        &&& 2 <= self.map_height <= 4_000_000
        &&& self.click_mode.wire_encodable()
    }
}

/// One species' full configuration: its display name, how its agents
/// spawn, how many there are, and the stats the kernel reads.
#[derive(Clone, PartialEq, Debug)]
pub struct AgentStatsAll {
    pub name: String,
    pub spawn_mode: Vec<SpawnMode>,
    pub num_agents: usize,
    pub shader_stats: AgentStats,
}

impl AgentStatsAll {
    pub open spec fn wf(self) -> bool {
        &&& self.shader_stats.wf()
        &&& forall|i: int| 0 <= i < self.spawn_mode@.len() ==> (#[trigger] self.spawn_mode@[i]).wf()
        &&& self.num_agents <= 10_000_000
    }
}

/// The single record the menu mutates and the sequencer reads.
#[derive(Clone, PartialEq, Debug)]
pub struct ConfigurationValues {
    pub globals: Globals,
    pub agent_stats: Vec<AgentStatsAll>,
    pub trail_stats: [TrailStats; NUM_TRAIL_STATS],
    pub shader_config_changed: bool,
    /// Display scale of the menu, in thousandths.
    pub scale_factor_milli: u32,
    pub show_menu: bool,
    pub respawn: bool,
    pub reset_trails: bool,
    pub quit: bool,
    pub playing: bool,
}

impl ConfigurationValues {
    pub open spec fn wf(self) -> bool {
        &&& self.globals.wf()
        &&& self.agent_stats@.len() == NUM_AGENT_TYPES
        &&& forall|i: int|
            0 <= i < self.agent_stats@.len() ==> (#[trigger] self.agent_stats@[i]).wf()
        &&& forall|c: int| 0 <= c < NUM_TRAIL_STATS ==> (#[trigger] self.trail_stats[c]).wf()
    }
}

/// What one frame must do, decided before any pass runs.
#[derive(Copy, Clone, PartialEq, Eq, Structural, Debug)]
pub struct FramePlan {
    /// How long to sleep before the frame, to honor the frame-rate cap.
    pub sleep_us: u64,
    /// The tick length handed to every kernel this frame.
    pub dt_us: u64,
    /// Zero the trail map before the passes.
    pub reset_trails: bool,
    /// Rebuild the agent store before the passes.
    pub respawn: bool,
    /// Re-upload the stats buffers before the passes.
    pub upload_stats: bool,
    /// Compute steps to run; zero while paused.
    pub steps: u32,
    /// Leave the loop at this frame boundary.
    pub quit: bool,
}

/// The frame interval the cap asks for, in microseconds, stretched by the
/// jitter fraction in thousandths.
pub open spec fn frame_target_us(rate_milli: u32, jitter_milli: u32) -> int {
    1_000_000_000int / (rate_milli as int) * (jitter_milli as int) / 1000
}

/// Decides one frame from the configuration and clears the request
/// flags: the sleep that honors the frame-rate cap (with the caller's
/// jitter draw), a zero time step on the very first frame and exactly the
/// configured time step afterwards, and the pending reset, respawn,
/// upload and quit requests.
pub fn plan_frame(
    config: &mut ConfigurationValues,
    first_frame: bool,
    elapsed_us: u64,
    jitter_milli: u32,
) -> (plan: FramePlan)
    requires
        old(config).wf(),
        900 <= jitter_milli <= 1100,
    ensures
        *final(config) == (ConfigurationValues {
            shader_config_changed: false,
            respawn: false,
            reset_trails: false,
            ..*old(config)
        }),
        plan.reset_trails == old(config).reset_trails,
        plan.respawn == old(config).respawn,
        plan.upload_stats == old(config).shader_config_changed,
        plan.quit == old(config).quit,
        plan.dt_us == (if first_frame {
            0int
        } else {
            old(config).globals.time_step_us as int
        }),
        plan.steps == (if old(config).playing {
            old(config).globals.compute_steps_per_render
        } else {
            0u32
        }),
        plan.sleep_us == (if !first_frame && elapsed_us < frame_target_us(
            old(config).globals.max_frame_rate_milli,
            jitter_milli,
        ) {
            frame_target_us(old(config).globals.max_frame_rate_milli, jitter_milli)
                - elapsed_us
        } else {
            0int
        }),
{
    proof {
        let base = 1_000_000_000int / (old(config).globals.max_frame_rate_milli as int);
        vstd::arithmetic::div_mod::lemma_div_is_ordered_by_denominator(
            1_000_000_000int,
            1,
            old(config).globals.max_frame_rate_milli as int,
        );
        vstd::arithmetic::div_mod::lemma_div_is_ordered(
            0,
            1_000_000_000int,
            old(config).globals.max_frame_rate_milli as int,
        );
        assert(base * jitter_milli <= 1_100_000_000_000) by (nonlinear_arith)
            requires
                0 <= base <= 1_000_000_000,
                jitter_milli <= 1100,
        ;
    }
    let target: u64 = 1_000_000_000 / (config.globals.max_frame_rate_milli as u64) * (jitter_milli
        as u64) / 1000;
    let sleep_us: u64 = if !first_frame && elapsed_us < target {
        target - elapsed_us
    } else {
        0
    };
    let dt_us: u64 = if first_frame {
        0
    } else {
        config.globals.time_step_us
    };
    let plan = FramePlan {
        sleep_us,
        dt_us,
        reset_trails: config.reset_trails,
        respawn: config.respawn,
        upload_stats: config.shader_config_changed,
        steps: if config.playing {
            config.globals.compute_steps_per_render
        } else {
            0
        },
        quit: config.quit,
    };
    config.reset_trails = false;
    config.respawn = false;
    config.shader_config_changed = false;
    plan
}

/// Decides one frame with a fresh jitter draw of its own; everything but
/// the sleep is as [`plan_frame`] pins it, and the sleep honors the cap
/// under whatever jitter was drawn.
pub fn plan_frame_jittered(
    config: &mut ConfigurationValues,
    first_frame: bool,
    elapsed_us: u64,
) -> (plan: FramePlan)
    requires
        old(config).wf(),
    ensures
        *final(config) == (ConfigurationValues {
            shader_config_changed: false,
            respawn: false,
            reset_trails: false,
            ..*old(config)
        }),
        plan.reset_trails == old(config).reset_trails,
        plan.respawn == old(config).respawn,
        plan.upload_stats == old(config).shader_config_changed,
        plan.quit == old(config).quit,
        plan.dt_us == (if first_frame {
            0int
        } else {
            old(config).globals.time_step_us as int
        }),
        plan.steps == (if old(config).playing {
            old(config).globals.compute_steps_per_render
        } else {
            0u32
        }),
        plan.sleep_us <= frame_target_us(old(config).globals.max_frame_rate_milli, 1100),
        !first_frame && elapsed_us < frame_target_us(
            old(config).globals.max_frame_rate_milli,
            900,
        ) ==> plan.sleep_us >= frame_target_us(old(config).globals.max_frame_rate_milli, 900)
            - elapsed_us,
        first_frame ==> plan.sleep_us == 0,
    {
    let jitter = crate::spawn::random_in(900, 1101);
    proof {
        let base = 1_000_000_000int / (old(config).globals.max_frame_rate_milli as int);
        vstd::arithmetic::div_mod::lemma_div_is_ordered(
            0,
            1_000_000_000int,
            old(config).globals.max_frame_rate_milli as int,
        );
        assert(base * jitter <= base * 1100 && base * 900 <= base * jitter)
            by (nonlinear_arith)
            requires
                900 <= jitter <= 1100,
                0 <= base,
        ;
        vstd::arithmetic::div_mod::lemma_div_is_ordered(base * jitter, base * 1100, 1000);
        vstd::arithmetic::div_mod::lemma_div_is_ordered(base * 900, base * jitter, 1000);
    }
    plan_frame(config, first_frame, elapsed_us, jitter)
}

/// The pointer state the brush pass reads.
#[derive(Clone, PartialEq, Debug)]
pub struct SlotMouse {
    /// Pointer position, in milli-pixels of the window.
    pub mouse_position_x_milli: i64,
    pub mouse_position_y_milli: i64,
    /// When the left button went down, if it is down.
    pub mouse_click_us: Option<u64>,
}

/// A pointer event, as the host shell hands it over.
#[derive(Copy, Clone, PartialEq, Debug)]
pub enum MouseEvent {
    CursorMoved { x_milli: i64, y_milli: i64 },
    LeftPressed,
    LeftReleased,
    Other,
}

/// How long, in microseconds, the left button must be held for the
/// release to force the menu open.
pub const LONG_PRESS_US: u64 = 3_000_000;

impl SlotMouse {
    /// Routes one pointer event: moves track the pointer, a press starts
    /// a click, and a release either forces the menu open after a long
    /// hold, or performs the show-menu click mode.
    pub fn handle_input(
        &mut self,
        configuration: &mut ConfigurationValues,
        event: &MouseEvent,
        now_us: u64,
    )
        requires
            old(self).mouse_click_us matches Some(t) ==> t <= now_us,
        ensures
            (match *event {
                MouseEvent::CursorMoved { x_milli, y_milli } => {
                    &&& *final(self) == (SlotMouse {
                        mouse_position_x_milli: x_milli,
                        mouse_position_y_milli: y_milli,
                        ..*old(self)
                    })
                    &&& *final(configuration) == *old(configuration)
                }
                MouseEvent::LeftPressed => {
                    &&& *final(self) == (SlotMouse {
                        mouse_click_us: Some(now_us),
                        ..*old(self)
                    })
                    &&& *final(configuration) == *old(configuration)
                }
                MouseEvent::LeftReleased => {
                    &&& *final(self) == (SlotMouse { mouse_click_us: None, ..*old(self) })
                    &&& *final(configuration) == (ConfigurationValues {
                        show_menu: (match old(self).mouse_click_us {
                            Some(t) => {
                                if now_us - t > LONG_PRESS_US {
                                    true
                                } else if old(configuration).globals.click_mode
                                    == ClickMode::ShowMenu {
                                    true
                                } else {
                                    old(configuration).show_menu
                                }
                            }
                            None => old(configuration).show_menu,
                        }),
                        ..*old(configuration)
                    })
                }
                MouseEvent::Other => {
                    &&& *final(self) == *old(self)
                    &&& *final(configuration) == *old(configuration)
                }
            }),
    {
        match event {
            MouseEvent::CursorMoved { x_milli, y_milli } => {
                self.mouse_position_x_milli = *x_milli;
                self.mouse_position_y_milli = *y_milli;
            }
            MouseEvent::LeftPressed => {
                self.mouse_click_us = Some(now_us);
            }
            MouseEvent::LeftReleased => {
                match self.mouse_click_us {
                    Some(start) => {
                        if now_us - start > LONG_PRESS_US {
                            if !configuration.show_menu {
                                configuration.show_menu = true;
                            }
                        } else {
                            match configuration.globals.click_mode {
                                ClickMode::ShowMenu => {
                                    configuration.show_menu = true;
                                }
                                _ => {}
                            }
                        }
                    }
                    None => {}
                }
                self.mouse_click_us = None;
            }
            MouseEvent::Other => {}
        }
    }

    /// The input one brush pass reads from this pointer state and the
    /// configuration.
    pub fn brush_input(&self, configuration: &ConfigurationValues) -> (b: BrushInput)
        requires
            configuration.wf(),
            -0x100_0000_0000 <= self.mouse_position_x_milli <= 0x100_0000_0000,
            -0x100_0000_0000 <= self.mouse_position_y_milli <= 0x100_0000_0000,
        ensures
            b.wf(),
            b.mouse_down == (self.mouse_click_us is Some),
            b.mouse_x_milli == self.mouse_position_x_milli,
            b.mouse_y_milli == self.mouse_position_y_milli,
            b.brush_size_milli == configuration.globals.brush_size_milli,
            b.click_mode.0 == configuration.globals.click_mode.encoding(),
    {
        BrushInput {
            mouse_down: self.mouse_click_us.is_some(),
            mouse_x_milli: self.mouse_position_x_milli,
            mouse_y_milli: self.mouse_position_y_milli,
            brush_size_milli: configuration.globals.brush_size_milli,
            click_mode: configuration.globals.click_mode.encode(),
        }
    }
}


/// The stats the built-in preset gives species `s`: two trail-laying
/// species on an outward spawn ring, and two infection species they can
/// convert into.
pub open spec fn preset_species_stats(s: int) -> AgentStats {
    let base = TrailInteraction {
        attraction_milli: 0,
        addition_raw: 0,
        conversion_enabled: 0,
        conversion_threshold_raw: 0,
        conversion: 0,
    };
    if s == 0 {
        AgentStats {
            velocity_milli: 40_000,
            turn_speed_milli: 80_000,
            turn_speed_avoidance_milli: 30_000,
            avoidance_threshold_milli: 20_000,
            sensor_angle_spacing_milli: 60_000,
            sensor_offset_milli: 30_000,
            timeout_us: 0,
            timeout_conversion: 0,
            interaction_channels: [
                TrailInteraction {
                    conversion_enabled: 1,
                    conversion_threshold_raw: 26214,
                    conversion: 2,
                    ..base
                },
                TrailInteraction { attraction_milli: 1000, ..base },
                TrailInteraction { attraction_milli: 200, addition_raw: 6553, ..base },
                TrailInteraction { attraction_milli: 1000, ..base },
            ],
        }
    } else if s == 1 {
        AgentStats {
            velocity_milli: 40_000,
            turn_speed_milli: 80_000,
            turn_speed_avoidance_milli: 30_000,
            avoidance_threshold_milli: 20_000,
            sensor_angle_spacing_milli: 60_000,
            sensor_offset_milli: 25_000,
            timeout_us: 0,
            timeout_conversion: 0,
            interaction_channels: [
                base,
                TrailInteraction { attraction_milli: 1000, addition_raw: 6553, ..base },
                TrailInteraction { attraction_milli: -1000i32, ..base },
                base,
            ],
        }
    } else if s == 2 {
        AgentStats {
            velocity_milli: 60_000,
            turn_speed_milli: 80_000,
            turn_speed_avoidance_milli: 30_000,
            avoidance_threshold_milli: 20_000,
            sensor_angle_spacing_milli: 60_000,
            sensor_offset_milli: 12_000,
            timeout_us: 1_500_000,
            timeout_conversion: 4,
            interaction_channels: [
                TrailInteraction { addition_raw: 6553, ..base },
                base,
                TrailInteraction { attraction_milli: 1000, ..base },
                base,
            ],
        }
    } else {
        AgentStats {
            velocity_milli: 60_000,
            turn_speed_milli: 80_000,
            turn_speed_avoidance_milli: 30_000,
            avoidance_threshold_milli: 20_000,
            sensor_angle_spacing_milli: 60_000,
            sensor_offset_milli: 12_000,
            timeout_us: 6_000_000,
            timeout_conversion: 5,
            interaction_channels: [
                base,
                TrailInteraction { attraction_milli: 1000, ..base },
                base,
                base,
            ],
        }
    }
}

/// The built-in per-species preset: the two ring-spawned trail layers and
/// their infection species, exactly as [`preset_species_stats`] pins
/// them.  The infection species start empty; agents reach them only by
/// conversion.
pub fn create_agent_stats_all() -> (r: Vec<AgentStatsAll>)
    ensures
        r@.len() == NUM_AGENT_TYPES,
        forall|s: int| 0 <= s < NUM_AGENT_TYPES ==> (#[trigger] r@[s]).wf(),
        forall|s: int|
            0 <= s < NUM_AGENT_TYPES ==> (#[trigger] r@[s]).shader_stats
                == preset_species_stats(s),
        r@[0].name@ == "Blue"@,
        r@[1].name@ == "Green"@,
        r@[2].name@ == "BlueInfection"@,
        r@[3].name@ == "GreenInfection"@,
        r@[0].spawn_mode@ == seq![SpawnMode::CircumferenceFacingOutward { distance: 100u32 }],
        r@[1].spawn_mode@ == seq![SpawnMode::CircumferenceFacingOutward { distance: 100u32 }],
        r@[2].spawn_mode@ == Seq::<SpawnMode>::empty(),
        r@[3].spawn_mode@ == Seq::<SpawnMode>::empty(),
        r@[0].num_agents == 50000,
        r@[1].num_agents == 50000,
        r@[2].num_agents == 0,
        r@[3].num_agents == 0,
{
    let base = TrailInteraction {
        attraction_milli: 0,
        addition_raw: 0,
        conversion_enabled: 0,
        conversion_threshold_raw: 0,
        conversion: 0,
    };
    let mut r: Vec<AgentStatsAll> = Vec::new();
    let mut ring: Vec<SpawnMode> = Vec::new();
    ring.push(SpawnMode::CircumferenceFacingOutward { distance: 100 });
    r.push(AgentStatsAll {
        name: "Blue".to_owned(),
        spawn_mode: ring,
        num_agents: 50000,
        shader_stats: AgentStats {
            velocity_milli: 40_000,
            turn_speed_milli: 80_000,
            turn_speed_avoidance_milli: 30_000,
            avoidance_threshold_milli: 20_000,
            sensor_angle_spacing_milli: 60_000,
            sensor_offset_milli: 30_000,
            timeout_us: 0,
            timeout_conversion: 0,
            interaction_channels: [
                TrailInteraction {
                    conversion_enabled: 1,
                    conversion_threshold_raw: 26214,
                    conversion: 2,
                    ..base
                },
                TrailInteraction { attraction_milli: 1000, ..base },
                TrailInteraction { attraction_milli: 200, addition_raw: 6553, ..base },
                TrailInteraction { attraction_milli: 1000, ..base },
            ],
        },
    });
    let mut ring: Vec<SpawnMode> = Vec::new();
    ring.push(SpawnMode::CircumferenceFacingOutward { distance: 100 });
    r.push(AgentStatsAll {
        name: "Green".to_owned(),
        spawn_mode: ring,
        num_agents: 50000,
        shader_stats: AgentStats {
            velocity_milli: 40_000,
            turn_speed_milli: 80_000,
            turn_speed_avoidance_milli: 30_000,
            avoidance_threshold_milli: 20_000,
            sensor_angle_spacing_milli: 60_000,
            sensor_offset_milli: 25_000,
            timeout_us: 0,
            timeout_conversion: 0,
            interaction_channels: [
                base,
                TrailInteraction { attraction_milli: 1000, addition_raw: 6553, ..base },
                TrailInteraction { attraction_milli: -1000i32, ..base },
                base,
            ],
        },
    });
    r.push(AgentStatsAll {
        name: "BlueInfection".to_owned(),
        spawn_mode: Vec::new(),
        num_agents: 0,
        shader_stats: AgentStats {
            velocity_milli: 60_000,
            turn_speed_milli: 80_000,
            turn_speed_avoidance_milli: 30_000,
            avoidance_threshold_milli: 20_000,
            sensor_angle_spacing_milli: 60_000,
            sensor_offset_milli: 12_000,
            timeout_us: 1_500_000,
            timeout_conversion: 4,
            interaction_channels: [
                TrailInteraction { addition_raw: 6553, ..base },
                base,
                TrailInteraction { attraction_milli: 1000, ..base },
                base,
            ],
        },
    });
    r.push(AgentStatsAll {
        name: "GreenInfection".to_owned(),
        spawn_mode: Vec::new(),
        num_agents: 0,
        shader_stats: AgentStats {
            velocity_milli: 60_000,
            turn_speed_milli: 80_000,
            turn_speed_avoidance_milli: 30_000,
            avoidance_threshold_milli: 20_000,
            sensor_angle_spacing_milli: 60_000,
            sensor_offset_milli: 12_000,
            timeout_us: 6_000_000,
            timeout_conversion: 5,
            interaction_channels: [
                base,
                TrailInteraction { attraction_milli: 1000, ..base },
                base,
                base,
            ],
        },
    });
    proof {
        assert(r@[0].spawn_mode@ =~= seq![
            SpawnMode::CircumferenceFacingOutward { distance: 100u32 },
        ]);
        assert(r@[1].spawn_mode@ =~= seq![
            SpawnMode::CircumferenceFacingOutward { distance: 100u32 },
        ]);
        assert(r@[2].spawn_mode@ =~= Seq::<SpawnMode>::empty());
        assert(r@[3].spawn_mode@ =~= Seq::<SpawnMode>::empty());
    }
    r
}


/// How many workgroups of 256 threads one agent dispatch submits: the
/// agent count rounded up to whole groups.
pub fn agent_dispatch_workgroups(num_agents: u32) -> (groups: u32)
    requires
        num_agents <= 0xFFFF_FF00,
    ensures
        groups == (num_agents + 255) / 256,
        groups * 256 >= num_agents,
{
    proof {
        vstd::arithmetic::div_mod::lemma_fundamental_div_mod((num_agents + 255) as int, 256);
        vstd::arithmetic::div_mod::lemma_mod_bound((num_agents + 255) as int, 256);
    }
    (num_agents + 255) / 256
}

/// Where species `s`'s block starts in a rebuilt agent store: the total
/// count of the species before it.
pub open spec fn agents_before(stats: Seq<AgentStatsAll>, s: int) -> int
    decreases s,
{
    if s <= 0 {
        0
    } else {
        agents_before(stats, s - 1) + stats[s - 1].num_agents
    }
}

/// The spawn mode a species uses: the first of its list, or the default
/// spread when the list is empty.
pub open spec fn species_mode(s: AgentStatsAll) -> SpawnMode {
    if s.spawn_mode@.len() > 0 {
        s.spawn_mode@[0]
    } else {
        SpawnMode::EvenlyDistributed
    }
}

/// Agent `j` of species `s`'s block is one that species could spawn: it
/// carries the species index and the species' lifetime, and its position
/// and heading are what [`crate::spawn::spawn_spec`] gives the species'
/// mode for some draws.
pub open spec fn species_block_ok(
    agents: Seq<Agent>,
    stats: Seq<AgentStatsAll>,
    width: u32,
    height: u32,
    s: int,
    j: int,
) -> bool {
    let a = agents[agents_before(stats, s) + j];
    &&& a.agent_type == s
    &&& a.wf()
    &&& a.countdown_us == stats[s].shader_stats.timeout_us
    &&& crate::spawn::spawn_pinned(
        width,
        height,
        species_mode(stats[s]),
        s as u32,
        stats[s].shader_stats.timeout_us as i64,
        a,
    )
}

/// Rebuilds the whole agent store from the configuration: every species'
/// agents in species order, block by block, spawned by the species' first
/// spawn mode, with the species' lifetime as the starting countdown.
pub fn respawn_agents(config: &ConfigurationValues) -> (agents: Vec<crate::agent::Agent>)
    requires
        config.wf(),
    ensures
        agents@.len() == agents_before(config.agent_stats@, NUM_AGENT_TYPES as int),
        forall|s: int, j: int|
            0 <= s < NUM_AGENT_TYPES && 0 <= j < config.agent_stats@[s].num_agents
                ==> #[trigger] species_block_ok(
                agents@,
                config.agent_stats@,
                config.globals.map_width,
                config.globals.map_height,
                s,
                j,
            ),
        forall|i: int|
            0 <= i < agents@.len() ==> (#[trigger] agents@[i]).wf()
                && agents@[i].agent_type < NUM_AGENT_TYPES,
{
    let width = config.globals.map_width;
    let height = config.globals.map_height;
    let mut agents: Vec<crate::agent::Agent> = Vec::new();
    let mut s: usize = 0;
    while s < config.agent_stats.len()
        invariant
            config.wf(),
            width == config.globals.map_width,
            height == config.globals.map_height,
            config.agent_stats@.len() == NUM_AGENT_TYPES,
            s <= config.agent_stats@.len(),
            agents@.len() == agents_before(config.agent_stats@, s as int),
            forall|s2: int, j: int|
                0 <= s2 < s && 0 <= j < config.agent_stats@[s2].num_agents
                    ==> #[trigger] species_block_ok(
                    agents@,
                    config.agent_stats@,
                    width,
                    height,
                    s2,
                    j,
                ),
            forall|i: int|
                0 <= i < agents@.len() ==> (#[trigger] agents@[i]).wf()
                    && agents@[i].agent_type < NUM_AGENT_TYPES,
        decreases config.agent_stats@.len() - s,
    {
        proof {
            assert(config.agent_stats@[s as int].wf());
        }
        let species = &config.agent_stats[s];
        let mode: SpawnMode = if species.spawn_mode.len() > 0 {
            proof {
                assert(species.spawn_mode@[0].wf());
            }
            species.spawn_mode[0]
        } else {
            SpawnMode::EvenlyDistributed
        };
        let timeout: i64 = species.shader_stats.timeout_us as i64;
        let spawned = crate::spawn::spawn_species(
            width,
            height,
            &mode,
            s as u32,
            timeout,
            species.num_agents,
        );
        let ghost prefix = agents@;
        let ghost offset = agents@.len() as int;
        let mut i: usize = 0;
        while i < spawned.len()
            invariant
                i <= spawned@.len(),
                agents@.len() == offset + i,
                offset == prefix.len(),
                forall|k: int| 0 <= k < offset ==> agents@[k] == prefix[k],
                forall|j: int| 0 <= j < i ==> agents@[offset + j] == spawned@[j],
            decreases spawned@.len() - i,
        {
            agents.push(spawned[i]);
            i = i + 1;
        }
        proof {
            let stats = config.agent_stats@;
            let si = s as int;
            // The fresh block satisfies the species' block predicate.
            assert forall|j: int| 0 <= j < stats[si].num_agents implies species_block_ok(
                agents@,
                stats,
                width,
                height,
                si,
                j,
            ) by {
                assert(agents@[offset + j] == spawned@[j]);
                assert(crate::spawn::spawn_pinned(
                    width,
                    height,
                    mode,
                    s as u32,
                    timeout,
                    spawned@[j],
                ));
            }
            // The earlier blocks sit below the fresh one and are untouched.
            assert forall|s2: int, j: int|
                0 <= s2 < si && 0 <= j < stats[s2].num_agents implies species_block_ok(
                agents@,
                stats,
                width,
                height,
                s2,
                j,
            ) by {
                lemma_agents_before_monotone(stats, 0, s2);
                lemma_agents_before_monotone(stats, s2 + 1, si);
                assert(agents_before(stats, s2 + 1) == agents_before(stats, s2)
                    + stats[s2].num_agents);
                let idx = agents_before(stats, s2) + j;
                assert(0 <= idx < offset);
                assert(species_block_ok(prefix, stats, width, height, s2, j));
                assert(agents@[idx] == prefix[idx]);
            }
            assert forall|k: int| 0 <= k < agents@.len() implies (#[trigger] agents@[k]).wf()
                && agents@[k].agent_type < NUM_AGENT_TYPES by {
                if k >= offset {
                    assert(agents@[k] == spawned@[k - offset]);
                } else {
                    assert(agents@[k] == prefix[k]);
                    assert(prefix[k].wf() && prefix[k].agent_type < NUM_AGENT_TYPES);
                }
            }
        }
        s = s + 1;
    }
    agents
}

/// A species' block never starts before an earlier species' block.
proof fn lemma_agents_before_monotone(stats: Seq<AgentStatsAll>, a: int, b: int)
    requires
        0 <= a <= b,
    ensures
        agents_before(stats, a) <= agents_before(stats, b),
    decreases b - a,
{
    if a < b {
        lemma_agents_before_monotone(stats, a, b - 1);
    }
}

} // verus!
