//! Spawn modes and the building of the agent store.
//!
//! Each species spawns its agents by a mode: spread over the map, at a
//! point, in a disk, on a circle facing in, out, sideways or at random,
//! or in a box.  The geometry is computed here from plain random draws,
//! so every position rule is exact; only the draws themselves come from
//! the process-wide random number generator.

use vstd::prelude::*;

verus! {

use crate::agent::Agent;
use crate::intmath::tdiv;
use crate::trig::{cos_milli, cos_milli_spec, sin_milli, sin_milli_spec};

/// The rectangle of the box spawn mode, in whole pixels.
#[derive(Copy, Clone, PartialEq, Eq, Structural, Debug)]
pub struct SpawnBox {
    pub left: u32,
    pub top: u32,
    pub box_width: u32,
    pub box_height: u32,
}

impl Default for SpawnBox {
    fn default() -> (r: Self)
        ensures
            r == (SpawnBox { left: 100, top: 100, box_width: 300, box_height: 300 }),
    {
        SpawnBox { left: 100, top: 100, box_width: 300, box_height: 300 }
    }
}

/// Where and how a species' agents enter the map.
#[derive(Copy, Clone, PartialEq, Eq, Structural, Debug)]
pub enum SpawnMode {
    EvenlyDistributed,
    CenterFacingOutward,
    PointFacingOutward { x: u32, y: u32 },
    CircleFacingInward { max_distance: u32 },
    CircumferenceFacingInward { distance: u32 },
    CircumferenceFacingOutward { distance: u32 },
    CircumferenceFacingRandom { distance: u32 },
    CircumferenceFacingClockwise { distance: u32 },
    BoxFacingRandom { spawn_box: SpawnBox },
}

impl Default for SpawnMode {
    fn default() -> (r: Self)
        ensures
            r == SpawnMode::EvenlyDistributed,
    {
        SpawnMode::EvenlyDistributed
    }
}

impl SpawnMode {
    /// The spawn radius of the modes that have one.
    pub open spec fn distance_spec(self) -> Option<u32> {
        match self {
            SpawnMode::CircleFacingInward { max_distance } => Some(max_distance),
            SpawnMode::CircumferenceFacingInward { distance } => Some(distance),
            SpawnMode::CircumferenceFacingOutward { distance } => Some(distance),
            SpawnMode::CircumferenceFacingRandom { distance } => Some(distance),
            SpawnMode::CircumferenceFacingClockwise { distance } => Some(distance),
            _ => None,
        }
    }

    pub fn distance(&self) -> (r: Option<u32>)
        ensures
            r == self.distance_spec(),
    {
        match self {
            SpawnMode::EvenlyDistributed => None,
            SpawnMode::CenterFacingOutward => None,
            SpawnMode::PointFacingOutward { .. } => None,
            SpawnMode::CircleFacingInward { max_distance } => Some(*max_distance),
            SpawnMode::CircumferenceFacingInward { distance } => Some(*distance),
            SpawnMode::CircumferenceFacingOutward { distance } => Some(*distance),
            SpawnMode::CircumferenceFacingRandom { distance } => Some(*distance),
            SpawnMode::CircumferenceFacingClockwise { distance } => Some(*distance),
            SpawnMode::BoxFacingRandom { .. } => None,
        }
    }

    /// The spawn rectangle of the box mode.
    pub open spec fn spawn_box_spec(self) -> Option<SpawnBox> {
        match self {
            SpawnMode::BoxFacingRandom { spawn_box } => Some(spawn_box),
            _ => None,
        }
    }

    pub fn spawn_box(&self) -> (r: Option<SpawnBox>)
        ensures
            r == self.spawn_box_spec(),
    {
        match self {
            SpawnMode::BoxFacingRandom { spawn_box } => Some(*spawn_box),
            _ => None,
        }
    }

    /// Radii and boxes stay small enough for milli-pixel arithmetic.
    pub open spec fn wf(self) -> bool {
        match self {
            SpawnMode::CircleFacingInward { max_distance } => max_distance <= 2_000_000,
            SpawnMode::CircumferenceFacingInward { distance } => distance <= 2_000_000,
            SpawnMode::CircumferenceFacingOutward { distance } => distance <= 2_000_000,
            SpawnMode::CircumferenceFacingRandom { distance } => distance <= 2_000_000,
            SpawnMode::CircumferenceFacingClockwise { distance } => distance <= 2_000_000,
            SpawnMode::BoxFacingRandom { spawn_box } => {
                &&& spawn_box.left + spawn_box.box_width <= 4_000_000
                &&& spawn_box.top + spawn_box.box_height <= 4_000_000
                &&& spawn_box.box_width >= 1
                &&& spawn_box.box_height >= 1
            }
            _ => true,
        }
    }
}

/// A coordinate saturated into the range a position field can hold; the
/// kernel's boundary clamp catches anything still off the map.
pub open spec fn sat_u32(v: int) -> u32 {
    if v < 0 {
        0
    } else if v > 0xFFFF_FFFF {
        0xFFFF_FFFF
    } else {
        v as u32
    }
}

/// The agent a spawn mode produces from the given draws: `r_angle` and
/// `r_angle2` are uniform angles in milli-half-turns, `r_frac` a uniform
/// fraction in thousandths, and `r_x`, `r_y` uniform milli-pixel
/// coordinates in the map or in the spawn box.
pub open spec fn spawn_spec(
    width: u32,
    height: u32,
    mode: SpawnMode,
    agent_type: u32,
    countdown_us: i64,
    r_angle: int,
    r_angle2: int,
    r_frac: int,
    r_x: u32,
    r_y: u32,
) -> Agent {
    let cx = width * 500;
    let cy = height * 500;
    let dir_x = cos_milli_spec(r_angle);
    let dir_y = sin_milli_spec(r_angle);
    let pa = match mode {
        SpawnMode::EvenlyDistributed => (r_x as int, r_y as int, r_angle),
        SpawnMode::CenterFacingOutward => (cx as int, cy as int, r_angle),
        SpawnMode::PointFacingOutward { x, y } => (x * 1000, y * 1000, r_angle),
        SpawnMode::CircleFacingInward { max_distance } => {
            let rd = r_frac * max_distance;
            (cx + tdiv(dir_x * rd, 1000), cy + tdiv(dir_y * rd, 1000), r_angle + 1000)
        }
        SpawnMode::CircumferenceFacingInward { distance } => {
            (cx + dir_x * distance, cy + dir_y * distance, r_angle + 1000)
        }
        SpawnMode::CircumferenceFacingOutward { distance } => {
            (cx + dir_x * distance, cy + dir_y * distance, r_angle)
        }
        SpawnMode::CircumferenceFacingRandom { distance } => {
            (cx + dir_x * distance, cy + dir_y * distance, r_angle2)
        }
        SpawnMode::CircumferenceFacingClockwise { distance } => {
            (cx + dir_x * distance, cy + dir_y * distance, r_angle + 500)
        }
        SpawnMode::BoxFacingRandom { spawn_box } => (r_x as int, r_y as int, r_angle),
    };
    Agent {
        x_milli: sat_u32(pa.0),
        y_milli: sat_u32(pa.1),
        angle_units: (pa.2 % 2000) as i64,
        agent_type,
        countdown_us,
    }
}

/// A coordinate saturated into a position field.
fn sat_u32_exec(v: i64) -> (r: u32)
    ensures
        r == sat_u32(v as int),
{
    if v < 0 {
        0
    } else if v > 0xFFFF_FFFF {
        0xFFFF_FFFF
    } else {
        v as u32
    }
}

/// An angle reduced to one turn.
fn norm_spawn_angle(a: i64) -> (r: i64)
    requires
        0 <= a <= 4000,
    ensures
        r == a as int % 2000,
        0 <= r < 2000,
{
    let u: u64 = (a as u64) % 2000;
    u as i64
}

/// Builds the agent a spawn mode produces from the given draws.
pub fn spawn_agent(
    width: u32,
    height: u32,
    mode: &SpawnMode,
    agent_type: u32,
    countdown_us: i64,
    r_angle: u32,
    r_angle2: u32,
    r_frac: u32,
    r_x: u32,
    r_y: u32,
) -> (a: Agent)
    requires
        2 <= width <= 4_000_000,
        2 <= height <= 4_000_000,
        mode.wf(),
        r_angle < 2000,
        r_angle2 < 2000,
        r_frac <= 1000,
        -0x2_0000_0000_0000 <= countdown_us <= 0x2_0000_0000_0000,
    ensures
        a == spawn_spec(
            width,
            height,
            *mode,
            agent_type,
            countdown_us,
            r_angle as int,
            r_angle2 as int,
            r_frac as int,
            r_x,
            r_y,
        ),
        a.wf(),
{
    let cx: i64 = (width as i64) * 500;
    let cy: i64 = (height as i64) * 500;
    let dir_x: i64 = cos_milli(r_angle as i64) as i64;
    let dir_y: i64 = sin_milli(r_angle as i64) as i64;
    let (px, py, pa): (i64, i64, i64) = match mode {
        SpawnMode::EvenlyDistributed => (r_x as i64, r_y as i64, r_angle as i64),
        SpawnMode::CenterFacingOutward => (cx, cy, r_angle as i64),
        SpawnMode::PointFacingOutward { x, y } => {
            ((*x as i64) * 1000, (*y as i64) * 1000, r_angle as i64)
        }
        SpawnMode::CircleFacingInward { max_distance } => {
            proof {
                let md = *max_distance;
                assert(0 <= r_frac * md <= 2_000_000_000) by (nonlinear_arith)
                    requires
                        0 <= r_frac <= 1000,
                        0 <= md <= 2_000_000,
                ;
            }
            let rd: i64 = (r_frac as i64) * (*max_distance as i64);
            proof {
                let md = *max_distance;
                assert(-2_000_000_000_000 <= dir_x * (r_frac * md) <= 2_000_000_000_000
                    && -2_000_000_000_000 <= dir_y * (r_frac * md) <= 2_000_000_000_000 && 0
                    <= r_frac * md <= 2_000_000_000) by (nonlinear_arith)
                    requires
                        -1000 <= dir_x <= 1000,
                        -1000 <= dir_y <= 1000,
                        0 <= r_frac <= 1000,
                        0 <= md <= 2_000_000,
                ;
            }
            (
                cx + crate::intmath::tdiv_exec(dir_x * rd, 1000),
                cy + crate::intmath::tdiv_exec(dir_y * rd, 1000),
                r_angle as i64 + 1000,
            )
        }
        SpawnMode::CircumferenceFacingInward { distance } => {
            proof {
                lemma_dir_offset_bounds(dir_x as int, dir_y as int, *distance);
            }
            (
                cx + dir_x * (*distance as i64),
                cy + dir_y * (*distance as i64),
                r_angle as i64 + 1000,
            )
        }
        SpawnMode::CircumferenceFacingOutward { distance } => {
            proof {
                lemma_dir_offset_bounds(dir_x as int, dir_y as int, *distance);
            }
            (cx + dir_x * (*distance as i64), cy + dir_y * (*distance as i64), r_angle as i64)
        }
        SpawnMode::CircumferenceFacingRandom { distance } => {
            proof {
                lemma_dir_offset_bounds(dir_x as int, dir_y as int, *distance);
            }
            (cx + dir_x * (*distance as i64), cy + dir_y * (*distance as i64), r_angle2 as i64)
        }
        SpawnMode::CircumferenceFacingClockwise { distance } => {
            proof {
                lemma_dir_offset_bounds(dir_x as int, dir_y as int, *distance);
            }
            (
                cx + dir_x * (*distance as i64),
                cy + dir_y * (*distance as i64),
                r_angle as i64 + 500,
            )
        }
        SpawnMode::BoxFacingRandom { .. } => (r_x as i64, r_y as i64, r_angle as i64),
    };
    Agent {
        x_milli: sat_u32_exec(px),
        y_milli: sat_u32_exec(py),
        angle_units: norm_spawn_angle(pa),
        agent_type,
        countdown_us,
    }
}

/// A unit direction scaled by a radius stays within the radius, on each
/// axis.
proof fn lemma_dir_offset_bounds(dir_x: int, dir_y: int, distance: u32)
    requires
        -1000 <= dir_x <= 1000,
        -1000 <= dir_y <= 1000,
        distance <= 2_000_000,
    ensures
        -2_000_000_000 <= dir_x * distance <= 2_000_000_000,
        -2_000_000_000 <= dir_y * distance <= 2_000_000_000,
{
    assert(-2_000_000_000 <= dir_x * distance <= 2_000_000_000 && -2_000_000_000 <= dir_y
        * distance <= 2_000_000_000) by (nonlinear_arith)
        requires
            -1000 <= dir_x <= 1000,
            -1000 <= dir_y <= 1000,
            0 <= distance <= 2_000_000,
    ;
}

/// Every circumference mode spawns within its radius of the map center,
/// on each axis: the chebyshev form of the spawn ring.  The exact ring
/// distance depends on the accuracy of the trigonometric approximation
/// and is checked by tests, not stated here.
pub proof fn lemma_spawn_on_circumference_box(
    width: u32,
    height: u32,
    mode: SpawnMode,
    agent_type: u32,
    countdown_us: i64,
    r_angle: int,
    r_angle2: int,
    r_frac: int,
    r_x: u32,
    r_y: u32,
    d: u32,
)
    requires
        2 <= width <= 4_000_000,
        2 <= height <= 4_000_000,
        mode.wf(),
        0 <= r_angle <= 2000,
        mode == (SpawnMode::CircumferenceFacingOutward { distance: d })
            || mode == (SpawnMode::CircumferenceFacingInward { distance: d })
            || mode == (SpawnMode::CircumferenceFacingRandom { distance: d })
            || mode == (SpawnMode::CircumferenceFacingClockwise { distance: d }),
        d * 1000 <= width * 500,
        d * 1000 <= height * 500,
    ensures
        ({
            let a = spawn_spec(
                width,
                height,
                mode,
                agent_type,
                countdown_us,
                r_angle,
                r_angle2,
                r_frac,
                r_x,
                r_y,
            );
            &&& width * 500 - d * 1000 <= a.x_milli <= width * 500 + d * 1000
            &&& height * 500 - d * 1000 <= a.y_milli <= height * 500 + d * 1000
        }),
{
    let dir_x = cos_milli_spec(r_angle);
    let dir_y = sin_milli_spec(r_angle);
    crate::trig::lemma_sin_milli_range(r_angle);
    crate::trig::lemma_sin_milli_range(r_angle + 500);
    assert(-d * 1000 <= dir_x * d <= d * 1000 && -d * 1000 <= dir_y * d <= d * 1000)
        by (nonlinear_arith)
        requires
            -1000 <= dir_x <= 1000,
            -1000 <= dir_y <= 1000,
            0 <= d,
    ;
}


/// Draws that the spawner can hand a mode: angles within one turn, a
/// fraction within one whole, and coordinates within the map, or within
/// the spawn box for the box mode.
pub open spec fn valid_draws(
    width: u32,
    height: u32,
    mode: SpawnMode,
    r_angle: int,
    r_angle2: int,
    r_frac: int,
    r_x: u32,
    r_y: u32,
) -> bool {
    &&& 0 <= r_angle < 2000
    &&& 0 <= r_angle2 < 2000
    &&& 0 <= r_frac <= 1000
    &&& (match mode {
        SpawnMode::BoxFacingRandom { spawn_box } => {
            &&& spawn_box.left * 1000 <= r_x < (spawn_box.left + spawn_box.box_width) * 1000
            &&& spawn_box.top * 1000 <= r_y < (spawn_box.top + spawn_box.box_height) * 1000
        }
        _ => r_x < width * 1000 && r_y < height * 1000,
    })
}

/// The agent is one the mode can produce: it equals [`spawn_spec`] for
/// some draws within their ranges, which carries the mode's whole
/// position and heading geometry.
pub open spec fn spawn_pinned(
    width: u32,
    height: u32,
    mode: SpawnMode,
    agent_type: u32,
    countdown_us: i64,
    a: Agent,
) -> bool {
    exists|r_angle: int, r_angle2: int, r_frac: int, r_x: u32, r_y: u32|
        valid_draws(width, height, mode, r_angle, r_angle2, r_frac, r_x, r_y) && a == #[trigger] spawn_spec(
            width,
            height,
            mode,
            agent_type,
            countdown_us,
            r_angle,
            r_angle2,
            r_frac,
            r_x,
            r_y,
        )
}

/// Relies on `rand::random_range`: a uniform draw within the given
/// half-open range, which panics only when the range is empty.
#[verifier::external_body]
pub(crate) fn random_in(lo: u32, hi: u32) -> (r: u32)
    requires
        lo < hi,
    ensures
        lo <= r < hi,
{
    rand::random_range(lo..hi)
}

/// Spawns one species' agents: `count` agents built by the species' spawn
/// mode from fresh random draws.
pub fn spawn_species(
    width: u32,
    height: u32,
    mode: &SpawnMode,
    agent_type: u32,
    countdown_us: i64,
    count: usize,
) -> (agents: Vec<Agent>)
    requires
        2 <= width <= 4_000_000,
        2 <= height <= 4_000_000,
        mode.wf(),
        -0x2_0000_0000_0000 <= countdown_us <= 0x2_0000_0000_0000,
    ensures
        agents@.len() == count,
        forall|i: int|
            0 <= i < count ==> (#[trigger] agents@[i]).agent_type == agent_type
                && agents@[i].wf() && agents@[i].countdown_us == countdown_us,
        forall|i: int|
            0 <= i < count ==> spawn_pinned(
                width,
                height,
                *mode,
                agent_type,
                countdown_us,
                #[trigger] agents@[i],
            ),
{
    let mut agents: Vec<Agent> = Vec::new();
    let mut i: usize = 0;
    // Draw ranges for the coordinate draws, honed to the mode.
    let (x_lo, x_hi, y_lo, y_hi): (u32, u32, u32, u32) = match mode {
        SpawnMode::BoxFacingRandom { spawn_box } => {
            (
                spawn_box.left * 1000,
                (spawn_box.left + spawn_box.box_width) * 1000,
                spawn_box.top * 1000,
                (spawn_box.top + spawn_box.box_height) * 1000,
            )
        }
        _ => (0, width * 1000, 0, height * 1000),
    };
    while i < count
        invariant
            2 <= width <= 4_000_000,
            2 <= height <= 4_000_000,
            mode.wf(),
            -0x2_0000_0000_0000 <= countdown_us <= 0x2_0000_0000_0000,
            x_lo < x_hi,
            y_lo < y_hi,
            (match *mode {
                SpawnMode::BoxFacingRandom { spawn_box } => {
                    &&& x_lo == spawn_box.left * 1000
                    &&& x_hi == (spawn_box.left + spawn_box.box_width) * 1000
                    &&& y_lo == spawn_box.top * 1000
                    &&& y_hi == (spawn_box.top + spawn_box.box_height) * 1000
                }
                _ => x_lo == 0 && x_hi == width * 1000 && y_lo == 0 && y_hi == height * 1000,
            }),
            i <= count,
            agents@.len() == i,
            forall|j: int|
                0 <= j < i ==> (#[trigger] agents@[j]).agent_type == agent_type
                    && agents@[j].wf() && agents@[j].countdown_us == countdown_us,
            forall|j: int|
                0 <= j < i ==> spawn_pinned(
                    width,
                    height,
                    *mode,
                    agent_type,
                    countdown_us,
                    #[trigger] agents@[j],
                ),
        decreases count - i,
    {
        let r_angle = random_in(0, 2000);
        let r_angle2 = random_in(0, 2000);
        let r_frac = random_in(0, 1001);
        let r_x = random_in(x_lo, x_hi);
        let r_y = random_in(y_lo, y_hi);
        let a = spawn_agent(
            width,
            height,
            mode,
            agent_type,
            countdown_us,
            r_angle,
            r_angle2,
            r_frac,
            r_x,
            r_y,
        );
        proof {
            assert(valid_draws(
                width,
                height,
                *mode,
                r_angle as int,
                r_angle2 as int,
                r_frac as int,
                r_x,
                r_y,
            ) && a == spawn_spec(
                width,
                height,
                *mode,
                agent_type,
                countdown_us,
                r_angle as int,
                r_angle2 as int,
                r_frac as int,
                r_x,
                r_y,
            ));
            assert(spawn_pinned(width, height, *mode, agent_type, countdown_us, a));
        }
        agents.push(a);
        i = i + 1;
    }
    agents
}

impl SpawnMode {
    /// The menu label of each mode.
    pub open spec fn description_spec(self) -> Seq<char> {
        match self {
            SpawnMode::EvenlyDistributed => "Evenly distributed"@,
            SpawnMode::CenterFacingOutward => "Center facing outward"@,
            SpawnMode::PointFacingOutward { .. } => "Point facing outward"@,
            SpawnMode::CircleFacingInward { .. } => "Circle facing inward"@,
            SpawnMode::CircumferenceFacingInward { .. } => "Circumference facing inwards"@,
            SpawnMode::CircumferenceFacingOutward { .. } => "Circumference facing outward"@,
            SpawnMode::CircumferenceFacingRandom { .. } => "Circumference facing random"@,
            SpawnMode::CircumferenceFacingClockwise { .. } => "Circumference facing clockwise"@,
            SpawnMode::BoxFacingRandom { .. } => "Box"@,
        }
    }

    pub fn description(&self) -> (r: &'static str)
        ensures
            r@ == self.description_spec(),
    {
        match self {
            SpawnMode::EvenlyDistributed => "Evenly distributed",
            SpawnMode::CenterFacingOutward => "Center facing outward",
            SpawnMode::PointFacingOutward { .. } => "Point facing outward",
            SpawnMode::CircleFacingInward { .. } => "Circle facing inward",
            SpawnMode::CircumferenceFacingInward { .. } => "Circumference facing inwards",
            SpawnMode::CircumferenceFacingOutward { .. } => "Circumference facing outward",
            SpawnMode::CircumferenceFacingRandom { .. } => "Circumference facing random",
            SpawnMode::CircumferenceFacingClockwise { .. } => "Circumference facing clockwise",
            SpawnMode::BoxFacingRandom { .. } => "Box",
        }
    }
}


/// Box-mode spawns land inside the box: what the pinned draw ranges give
/// when the mode is the box spread.
pub proof fn lemma_spawn_in_box(
    width: u32,
    height: u32,
    b: SpawnBox,
    agent_type: u32,
    countdown_us: i64,
    a: Agent,
)
    requires
        (SpawnMode::BoxFacingRandom { spawn_box: b }).wf(),
        spawn_pinned(
            width,
            height,
            SpawnMode::BoxFacingRandom { spawn_box: b },
            agent_type,
            countdown_us,
            a,
        ),
    ensures
        b.left * 1000 <= a.x_milli < (b.left + b.box_width) * 1000,
        b.top * 1000 <= a.y_milli < (b.top + b.box_height) * 1000,
        a.agent_type == agent_type,
{
    let mode = SpawnMode::BoxFacingRandom { spawn_box: b };
    let (r_angle, r_angle2, r_frac, r_x, r_y): (int, int, int, u32, u32) = choose|
        r_angle: int,
        r_angle2: int,
        r_frac: int,
        r_x: u32,
        r_y: u32,
    |
        valid_draws(width, height, mode, r_angle, r_angle2, r_frac, r_x, r_y) && a == #[trigger] spawn_spec(
            width,
            height,
            mode,
            agent_type,
            countdown_us,
            r_angle,
            r_angle2,
            r_frac,
            r_x,
            r_y,
        );
    assert(a.x_milli == sat_u32(r_x as int));
    assert(a.y_milli == sat_u32(r_y as int));
}

} // verus!
