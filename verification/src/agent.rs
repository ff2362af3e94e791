//! The per-agent sense / steer / step / deposit / convert kernel.
//!
//! Each tick an agent samples the trail at three sensors ahead of it,
//! steers by the comparison of the three sums (saturated sensors repel),
//! walks its velocity in unit-pixel steps depositing into every cell it
//! crosses, converts between species when it crosses strong trails or its
//! lifetime runs out, and is clamped back with a fresh random heading when
//! the walk would leave the map.
//!
//! Positions are milli-pixels, headings milli-half-turns, times
//! microseconds; cell coordinates round toward negative infinity, so every
//! position with a negative component lies outside the map and is caught
//! by the boundary clamp.

use vstd::prelude::*;

verus! {

use crate::{NUM_AGENT_TYPES, NUM_TRAIL_STATS};
use crate::intmath::floor_div;
use crate::pixel::PIXEL_MAX;
use crate::stats::{AgentStats, MAX_TIME_STEP_US};
use crate::trail_map::{seq_channel, seq_with_channel, TrailMap};
use crate::trig::{cos_milli, cos_milli_spec, sin_milli, sin_milli_spec};

/// One oriented point agent.
#[derive(Copy, Clone, PartialEq, Eq, Structural, Debug)]
pub struct Agent {
    /// Position, in milli-pixels.
    pub x_milli: u32,
    pub y_milli: u32,
    /// Heading, in milli-half-turns, kept normalized to one turn.
    pub angle_units: i64,
    /// The species, an index into the per-species stats.
    pub agent_type: u32,
    /// Remaining lifetime, in microseconds; meaningful only for species
    /// with a timeout.
    pub countdown_us: i64,
}

impl Agent {
    /// The heading is normalized and the countdown within the range one
    /// timeout can set.
    pub open spec fn wf(self) -> bool {
        &&& 0 <= self.angle_units < 2000
        &&& -0x2_0000_0000_0000 <= self.countdown_us <= 0x2_0000_0000_0000
    }

    /// The agent lies on the map of the given dimensions.
    pub open spec fn in_map(self, width: u32, height: u32) -> bool {
        &&& self.x_milli < width * 1000
        &&& self.y_milli < height * 1000
    }
}

/// The attraction-weighted sum of all channels of one cell, in raw
/// channel units times thousandths.
pub open spec fn cell_attraction(ws: Seq<u32>, width: u32, st: AgentStats, x: int, y: int) -> int {
    seq_channel(ws, width as int, x, y, 0) * st.interaction_channels[0].attraction_milli
        + seq_channel(ws, width as int, x, y, 1) * st.interaction_channels[1].attraction_milli
        + seq_channel(ws, width as int, x, y, 2) * st.interaction_channels[2].attraction_milli
        + seq_channel(ws, width as int, x, y, 3) * st.interaction_channels[3].attraction_milli
}

/// The weighted sum of one cell, or zero when the coordinate leaves the
/// map.
pub open spec fn attraction_or_zero(
    ws: Seq<u32>,
    width: u32,
    height: u32,
    st: AgentStats,
    x: int,
    y: int,
) -> int {
    if 0 <= x < width && 0 <= y < height {
        cell_attraction(ws, width, st, x, y)
    } else {
        0
    }
}

/// The weighted sum over the 3x3 neighborhood of the cell `(cx, cy)`.
pub open spec fn sense_sum(
    ws: Seq<u32>,
    width: u32,
    height: u32,
    st: AgentStats,
    cx: int,
    cy: int,
) -> int {
    attraction_or_zero(ws, width, height, st, cx - 1, cy - 1) + attraction_or_zero(
        ws,
        width,
        height,
        st,
        cx,
        cy - 1,
    ) + attraction_or_zero(ws, width, height, st, cx + 1, cy - 1) + attraction_or_zero(
        ws,
        width,
        height,
        st,
        cx - 1,
        cy,
    ) + attraction_or_zero(ws, width, height, st, cx, cy) + attraction_or_zero(
        ws,
        width,
        height,
        st,
        cx + 1,
        cy,
    ) + attraction_or_zero(ws, width, height, st, cx - 1, cy + 1) + attraction_or_zero(
        ws,
        width,
        height,
        st,
        cx,
        cy + 1,
    ) + attraction_or_zero(ws, width, height, st, cx + 1, cy + 1)
}

/// What one sensor reports: the weighted sum at the sensor cell, unless
/// the sum exceeds the avoidance threshold, in which case the sensor
/// saturates and reports nothing.
pub open spec fn sensor_outcome(
    ws: Seq<u32>,
    width: u32,
    height: u32,
    st: AgentStats,
    x_milli: int,
    y_milli: int,
    angle: int,
) -> Option<int> {
    let sx = x_milli + cos_milli_spec(angle) * st.sensor_offset_milli / 1000;
    let sy = y_milli + sin_milli_spec(angle) * st.sensor_offset_milli / 1000;
    let v = sense_sum(ws, width, height, st, sx / 1000, sy / 1000);
    if v > st.avoidance_threshold_milli * PIXEL_MAX {
        None
    } else {
        Some(v)
    }
}

/// The weighted sum of one cell, reading coordinates outside the map as
/// zero.
fn attraction_at(m: &TrailMap, st: &AgentStats, x: i64, y: i64) -> (r: i64)
    requires
        m.wf(),
        st.wf(),
    ensures
        r == attraction_or_zero(m.words@, m.width, m.height, *st, x as int, y as int),
        -0x4_0000_0000_0000 <= r <= 0x4_0000_0000_0000,
{
    if 0 <= x && x < m.width as i64 && 0 <= y && y < m.height as i64 {
        let mut sum: i64 = 0;
        let c0 = m.get_channel(x as u32, y as u32, 0);
        let c1 = m.get_channel(x as u32, y as u32, 1);
        let c2 = m.get_channel(x as u32, y as u32, 2);
        let c3 = m.get_channel(x as u32, y as u32, 3);
        proof {
            assert(st.interaction_channels[0int].wf());
            assert(st.interaction_channels[1int].wf());
            assert(st.interaction_channels[2int].wf());
            assert(st.interaction_channels[3int].wf());
            assert(-0x1_0000_0000_0000 <= c0 * st.interaction_channels[0int].attraction_milli
                <= 0x1_0000_0000_0000) by (nonlinear_arith)
                requires
                    c0 <= 0xFFFF,
                    -1_000_000 <= st.interaction_channels[0int].attraction_milli <= 1_000_000,
            ;
            assert(-0x1_0000_0000_0000 <= c1 * st.interaction_channels[1int].attraction_milli
                <= 0x1_0000_0000_0000) by (nonlinear_arith)
                requires
                    c1 <= 0xFFFF,
                    -1_000_000 <= st.interaction_channels[1int].attraction_milli <= 1_000_000,
            ;
            assert(-0x1_0000_0000_0000 <= c2 * st.interaction_channels[2int].attraction_milli
                <= 0x1_0000_0000_0000) by (nonlinear_arith)
                requires
                    c2 <= 0xFFFF,
                    -1_000_000 <= st.interaction_channels[2int].attraction_milli <= 1_000_000,
            ;
            assert(-0x1_0000_0000_0000 <= c3 * st.interaction_channels[3int].attraction_milli
                <= 0x1_0000_0000_0000) by (nonlinear_arith)
                requires
                    c3 <= 0xFFFF,
                    -1_000_000 <= st.interaction_channels[3int].attraction_milli <= 1_000_000,
            ;
        }
        sum = sum + (c0 as i64) * (st.interaction_channels[0].attraction_milli as i64);
        sum = sum + (c1 as i64) * (st.interaction_channels[1].attraction_milli as i64);
        sum = sum + (c2 as i64) * (st.interaction_channels[2].attraction_milli as i64);
        sum = sum + (c3 as i64) * (st.interaction_channels[3].attraction_milli as i64);
        sum
    } else {
        0
    }
}

/// One sensor's reading at the given offset angle from the agent's
/// heading.
pub fn sense(m: &TrailMap, st: &AgentStats, x_milli: i64, y_milli: i64, angle: i64) -> (r: Option<
    i64,
>)
    requires
        m.wf(),
        st.wf(),
        -0x2_0000_0000 <= x_milli <= 0x2_0000_0000,
        -0x2_0000_0000 <= y_milli <= 0x2_0000_0000,
        -0x2000_0000_0000 <= angle <= 0x2000_0000_0000,
    ensures
        (match r {
            Some(v) => sensor_outcome(
                m.words@,
                m.width,
                m.height,
                *st,
                x_milli as int,
                y_milli as int,
                angle as int,
            ) == Some(v as int),
            None => sensor_outcome(
                m.words@,
                m.width,
                m.height,
                *st,
                x_milli as int,
                y_milli as int,
                angle as int,
            ) is None,
        }),
{
    let dx = cos_milli(angle);
    let dy = sin_milli(angle);
    proof {
        assert(-0x2_540B_E400 <= (dx as int) * (st.sensor_offset_milli as int) <= 0x2_540B_E400)
            by (nonlinear_arith)
            requires
                -1000 <= dx <= 1000,
                st.sensor_offset_milli <= 10_000_000,
        ;
        assert(-0x2_540B_E400 <= (dy as int) * (st.sensor_offset_milli as int) <= 0x2_540B_E400)
            by (nonlinear_arith)
            requires
                -1000 <= dy <= 1000,
                st.sensor_offset_milli <= 10_000_000,
        ;
    }
    let px: i64 = (dx as i64) * (st.sensor_offset_milli as i64);
    let py: i64 = (dy as i64) * (st.sensor_offset_milli as i64);
    proof {
        vstd::arithmetic::div_mod::lemma_div_is_ordered(px as int, 0x2_540B_E400, 1000);
        vstd::arithmetic::div_mod::lemma_div_is_ordered(-0x2_540B_E400, px as int, 1000);
        vstd::arithmetic::div_mod::lemma_div_is_ordered(py as int, 0x2_540B_E400, 1000);
        vstd::arithmetic::div_mod::lemma_div_is_ordered(-0x2_540B_E400, py as int, 1000);
    }
    let sx = x_milli + floor_div(px, 1000);
    let sy = y_milli + floor_div(py, 1000);
    proof {
        vstd::arithmetic::div_mod::lemma_div_is_ordered(sx as int, 0x3_0000_0000, 1000);
        vstd::arithmetic::div_mod::lemma_div_is_ordered(-0x3_0000_0000, sx as int, 1000);
        vstd::arithmetic::div_mod::lemma_div_is_ordered(sy as int, 0x3_0000_0000, 1000);
        vstd::arithmetic::div_mod::lemma_div_is_ordered(-0x3_0000_0000, sy as int, 1000);
    }
    let cx = floor_div(sx, 1000);
    let cy = floor_div(sy, 1000);
    let mut sum: i64 = 0;
    sum = sum + attraction_at(m, st, cx - 1, cy - 1);
    sum = sum + attraction_at(m, st, cx, cy - 1);
    sum = sum + attraction_at(m, st, cx + 1, cy - 1);
    sum = sum + attraction_at(m, st, cx - 1, cy);
    sum = sum + attraction_at(m, st, cx, cy);
    sum = sum + attraction_at(m, st, cx + 1, cy);
    sum = sum + attraction_at(m, st, cx - 1, cy + 1);
    sum = sum + attraction_at(m, st, cx, cy + 1);
    sum = sum + attraction_at(m, st, cx + 1, cy + 1);
    proof {
        assert(st.avoidance_threshold_milli * PIXEL_MAX <= 0x7_FFF8_4C10) by (nonlinear_arith)
            requires
                st.avoidance_threshold_milli <= 1_000_000,
        ;
    }
    let threshold: i64 = (st.avoidance_threshold_milli as i64) * (PIXEL_MAX as i64);
    if sum > threshold {
        None
    } else {
        Some(sum)
    }
}

/// The steering decision: how far, in angle units, one tick turns the
/// agent, given the three sensor outcomes and a random fraction in
/// thousandths.  Saturated sensors repel; otherwise the agent keeps to
/// the strongest of the three sums, choosing at random when both sides
/// beat the middle.
pub open spec fn steer_delta(
    left: Option<int>,
    forward: Option<int>,
    right: Option<int>,
    r_milli: u32,
    st: AgentStats,
    dt_us: u64,
) -> int {
    let wa = st.turn_speed_avoidance_milli;
    let w = st.turn_speed_milli;
    match (left, forward, right) {
        (Option::None, _, Option::Some(_)) => -(r_milli * wa * dt_us / 1_000_000_000),
        (Option::Some(_), _, Option::None) => r_milli * wa * dt_us / 1_000_000_000,
        (Option::Some(_), Option::None, Option::Some(_)) => crate::intmath::tdiv(
            (2 * r_milli - 1000) * wa * dt_us,
            1_000_000_000,
        ),
        (Option::None, _, Option::None) => 0,
        (Option::Some(lv), Option::Some(fv), Option::Some(rv)) => {
            if fv > lv && fv > rv {
                0
            } else if lv > fv && rv > fv {
                crate::intmath::tdiv((2 * r_milli - 1000) * w * dt_us, 1_000_000_000)
            } else if rv > lv {
                -(r_milli * w * dt_us / 1_000_000_000)
            } else if lv > rv {
                r_milli * w * dt_us / 1_000_000_000
            } else {
                0
            }
        }
    }
}

/// Largest turn one tick can make, in angle units.
pub const MAX_STEER_UNITS: i64 = 0x2_0000_0000;

/// The steering decision on machine integers.
pub fn steer_delta_exec(
    left: Option<i64>,
    forward: Option<i64>,
    right: Option<i64>,
    r_milli: u32,
    st: &AgentStats,
    dt_us: u64,
) -> (d: i64)
    requires
        st.wf(),
        r_milli <= 1000,
        dt_us <= MAX_TIME_STEP_US,
    ensures
        d == steer_delta(
            (match left {
                Some(v) => Some(v as int),
                None => None,
            }),
            (match forward {
                Some(v) => Some(v as int),
                None => None,
            }),
            (match right {
                Some(v) => Some(v as int),
                None => None,
            }),
            r_milli,
            *st,
            dt_us,
        ),
        -MAX_STEER_UNITS <= d <= MAX_STEER_UNITS,
{
    let wa: u64 = st.turn_speed_avoidance_milli as u64;
    let w: u64 = st.turn_speed_milli as u64;
    let rm: u64 = r_milli as u64;
    proof {
        assert(rm * wa <= 10_000_000_000 && rm * wa * dt_us <= 100_000_000_000_000_000)
            by (nonlinear_arith)
            requires
                rm <= 1000,
                wa <= 10_000_000,
                dt_us <= 10_000_000,
        ;
        assert(rm * w <= 10_000_000_000 && rm * w * dt_us <= 100_000_000_000_000_000)
            by (nonlinear_arith)
            requires
                rm <= 1000,
                w <= 10_000_000,
                dt_us <= 10_000_000,
        ;
        assert(-10_000_000_000 <= (2 * rm - 1000) * wa <= 10_000_000_000
            && -100_000_000_000_000_000 <= (2 * rm - 1000) * wa * dt_us
            <= 100_000_000_000_000_000) by (nonlinear_arith)
            requires
                rm <= 1000,
                wa <= 10_000_000,
                dt_us <= 10_000_000,
        ;
        assert(-10_000_000_000 <= (2 * rm - 1000) * w <= 10_000_000_000
            && -100_000_000_000_000_000 <= (2 * rm - 1000) * w * dt_us
            <= 100_000_000_000_000_000) by (nonlinear_arith)
            requires
                rm <= 1000,
                w <= 10_000_000,
                dt_us <= 10_000_000,
        ;
        vstd::arithmetic::div_mod::lemma_div_is_ordered(
            (rm * wa * dt_us) as int,
            100_000_000_000_000_000,
            1_000_000_000,
        );
        vstd::arithmetic::div_mod::lemma_div_is_ordered(0, (rm * wa * dt_us) as int, 1_000_000_000);
        vstd::arithmetic::div_mod::lemma_div_is_ordered(
            (rm * w * dt_us) as int,
            100_000_000_000_000_000,
            1_000_000_000,
        );
        vstd::arithmetic::div_mod::lemma_div_is_ordered(0, (rm * w * dt_us) as int, 1_000_000_000);
    }
    match (left, forward, right) {
        (None, _, Some(_)) => -((rm * wa * dt_us / 1_000_000_000) as i64),
        (Some(_), _, None) => (rm * wa * dt_us / 1_000_000_000) as i64,
        (Some(_), None, Some(_)) => {
            let spread: i64 = (2 * (rm as i64) - 1000) * (wa as i64) * (dt_us as i64);
            proof {
                vstd::arithmetic::div_mod::lemma_div_is_ordered(
                    vstd::math::abs(spread as int) as int,
                    100_000_000_000_000_000,
                    1_000_000_000,
                );
            }
            crate::intmath::tdiv_exec(spread, 1_000_000_000)
        }
        (None, _, None) => 0,
        (Some(lv), Some(fv), Some(rv)) => {
            if fv > lv && fv > rv {
                0
            } else if lv > fv && rv > fv {
                let spread: i64 = (2 * (rm as i64) - 1000) * (w as i64) * (dt_us as i64);
                proof {
                    vstd::arithmetic::div_mod::lemma_div_is_ordered(
                        vstd::math::abs(spread as int) as int,
                        100_000_000_000_000_000,
                        1_000_000_000,
                    );
                }
                crate::intmath::tdiv_exec(spread, 1_000_000_000)
            } else if rv > lv {
                -((rm * w * dt_us / 1_000_000_000) as i64)
            } else if lv > rv {
                (rm * w * dt_us / 1_000_000_000) as i64
            } else {
                0
            }
        }
    }
}

/// The raw value a deposit leaves in one channel: the old value plus the
/// species' addition, capped at full strength.
pub open spec fn deposited_value(v: u32, addition_raw: u32) -> u32 {
    if v + addition_raw > PIXEL_MAX {
        PIXEL_MAX
    } else {
        (v + addition_raw) as u32
    }
}

/// The words after the agent has deposited into the first `k` channels of
/// cell `(x, y)`; the values read are those of `ws0`, the words before the
/// deposit began.
pub open spec fn deposit_upto(
    ws0: Seq<u32>,
    ws: Seq<u32>,
    st: AgentStats,
    width: int,
    x: int,
    y: int,
    k: int,
) -> Seq<u32>
    decreases k,
{
    if k <= 0 {
        ws
    } else {
        let prev = deposit_upto(ws0, ws, st, width, x, y, k - 1);
        seq_with_channel(
            prev,
            width,
            x,
            y,
            k - 1,
            deposited_value(
                seq_channel(ws0, width, x, y, k - 1),
                st.interaction_channels[k - 1].addition_raw,
            ),
        )
    }
}

/// The words after one full deposit into cell `(x, y)`.
pub open spec fn deposit_seq(ws: Seq<u32>, st: AgentStats, width: int, x: int, y: int) -> Seq<
    u32,
> {
    deposit_upto(ws, ws, st, width, x, y, NUM_TRAIL_STATS as int)
}

/// The species and countdown after the crossing of cell `(x, y)` has
/// applied the conversions of the first `k` channels: the last channel
/// whose value beats its enabled conversion threshold wins, and sets the
/// countdown to the new species' lifetime.
pub open spec fn conv_fold(
    ws: Seq<u32>,
    width: int,
    st: AgentStats,
    sl: [AgentStats; NUM_AGENT_TYPES],
    x: int,
    y: int,
    atype: u32,
    cd: i64,
    k: int,
) -> (u32, i64)
    decreases k,
{
    if k <= 0 {
        (atype, cd)
    } else {
        let prev = conv_fold(ws, width, st, sl, x, y, atype, cd, k - 1);
        let ia = st.interaction_channels[k - 1];
        let v = seq_channel(ws, width, x, y, k - 1);
        if ia.conversion_enabled != 0 && v > ia.conversion_threshold_raw && ia.conversion
            < NUM_AGENT_TYPES {
            (ia.conversion, sl[ia.conversion as int].timeout_us as i64)
        } else {
            prev
        }
    }
}

/// Visits one cell: converts the agent by the channels it finds there and
/// deposits into every channel, unless the cell lies outside the map, in
/// which case nothing happens and the first component of the result is
/// false.
pub fn process_pixel(
    map: &mut TrailMap,
    st: &AgentStats,
    sl: &[AgentStats; NUM_AGENT_TYPES],
    cx: i64,
    cy: i64,
    atype: u32,
    cd: i64,
) -> (r: (bool, u32, i64))
    requires
        old(map).wf(),
        st.wf(),
        forall|t: int| 0 <= t < NUM_AGENT_TYPES ==> #[trigger] sl[t].wf(),
    ensures
        final(map).wf(),
        final(map).width == old(map).width,
        final(map).height == old(map).height,
        (if 0 <= cx < old(map).width && 0 <= cy < old(map).height {
            r.0 == true && final(map).words@ == deposit_seq(
                old(map).words@,
                *st,
                old(map).width as int,
                cx as int,
                cy as int,
            ) && (r.1, r.2) == conv_fold(
                old(map).words@,
                old(map).width as int,
                *st,
                *sl,
                cx as int,
                cy as int,
                atype,
                cd,
                NUM_TRAIL_STATS as int,
            )
        } else {
            r.0 == false && *final(map) == *old(map) && r.1 == atype && r.2 == cd
        }),
        -0x2_0000_0000_0000 <= cd <= 0x2_0000_0000_0000 ==> -0x2_0000_0000_0000 <= r.2
            <= 0x2_0000_0000_0000,
{
    if !(0 <= cx && cx < map.width as i64 && 0 <= cy && cy < map.height as i64) {
        return (false, atype, cd);
    }
    let x = cx as u32;
    let y = cy as u32;
    let ghost ws0 = map.words@;
    let mut t = atype;
    let mut c = cd;
    let mut k: usize = 0;
    while k < NUM_TRAIL_STATS
        invariant
            map.wf(),
            map.width == old(map).width,
            map.height == old(map).height,
            st.wf(),
            forall|t2: int| 0 <= t2 < NUM_AGENT_TYPES ==> #[trigger] sl[t2].wf(),
            x < map.width,
            y < map.height,
            k <= NUM_TRAIL_STATS,
            map.words@ == deposit_upto(ws0, ws0, *st, map.width as int, x as int, y as int, k as int),
            (t, c) == conv_fold(
                ws0,
                map.width as int,
                *st,
                *sl,
                x as int,
                y as int,
                atype,
                cd,
                k as int,
            ),
            forall|j: int|
                k <= j < NUM_TRAIL_STATS ==> map.channel_at(x as int, y as int, j)
                    == seq_channel(ws0, map.width as int, x as int, y as int, j),
            -0x2_0000_0000_0000 <= cd <= 0x2_0000_0000_0000 ==> -0x2_0000_0000_0000 <= c
                <= 0x2_0000_0000_0000,
        decreases NUM_TRAIL_STATS - k,
    {
        let ia = st.interaction_channels[k];
        let v = map.get_channel(x, y, k);
        proof {
            assert(st.interaction_channels[k as int].wf());
        }
        if ia.conversion_enabled != 0 && v > ia.conversion_threshold_raw && (ia.conversion
            as usize) < NUM_AGENT_TYPES {
            t = ia.conversion;
            proof {
                assert(sl[ia.conversion as int].wf());
            }
            c = sl[ia.conversion as usize].timeout_us as i64;
        }
        let nv = if v + ia.addition_raw > PIXEL_MAX {
            PIXEL_MAX
        } else {
            v + ia.addition_raw
        };
        map.set_channel(x, y, k, nv);
        k = k + 1;
    }
    (true, t, c)
}

/// The unit-step phase of the walk: while more than one pixel of travel
/// remains, the agent advances one pixel along its direction and visits
/// the cell it lands in; the phase ends early, with the outside flag set,
/// when a visited cell leaves the map.  The result carries the words, the
/// position, the outside flag, the species, the countdown and the
/// unconsumed travel.
pub open spec fn walk_phase(
    ws: Seq<u32>,
    width: u32,
    height: u32,
    st: AgentStats,
    sl: [AgentStats; NUM_AGENT_TYPES],
    px: int,
    py: int,
    dx: int,
    dy: int,
    remaining: int,
    atype: u32,
    cd: i64,
) -> (Seq<u32>, int, int, bool, u32, i64, int)
    decreases remaining,
{
    if remaining <= 1000 {
        (ws, px, py, false, atype, cd, remaining)
    } else {
        let npx = px + dx;
        let npy = py + dy;
        let cx = npx / 1000;
        let cy = npy / 1000;
        if 0 <= cx < width && 0 <= cy < height {
            let ws2 = deposit_seq(ws, st, width as int, cx, cy);
            let tc = conv_fold(ws, width as int, st, sl, cx, cy, atype, cd, NUM_TRAIL_STATS as int);
            walk_phase(ws2, width, height, st, sl, npx, npy, dx, dy, remaining - 1000, tc.0, tc.1)
        } else {
            (ws, npx, npy, true, atype, cd, remaining)
        }
    }
}

/// The sub-pixel leap that ends the walk: the agent advances by the
/// unconsumed travel and visits the cell it lands in, but only when the
/// leap crossed into a new cell; a position outside the map sets the
/// outside flag.
pub open spec fn leap_spec(
    ws: Seq<u32>,
    width: u32,
    height: u32,
    st: AgentStats,
    sl: [AgentStats; NUM_AGENT_TYPES],
    px: int,
    py: int,
    dx: int,
    dy: int,
    rem: int,
    outside: bool,
    atype: u32,
    cd: i64,
) -> (Seq<u32>, int, int, bool, u32, i64) {
    if outside {
        (ws, px, py, true, atype, cd)
    } else {
        let px2 = px + dx * rem / 1000;
        let py2 = py + dy * rem / 1000;
        if px2 / 1000 != px / 1000 || py2 / 1000 != py / 1000 {
            if 0 <= px2 / 1000 < width && 0 <= py2 / 1000 < height {
                let tc = conv_fold(
                    ws,
                    width as int,
                    st,
                    sl,
                    px2 / 1000,
                    py2 / 1000,
                    atype,
                    cd,
                    NUM_TRAIL_STATS as int,
                );
                (deposit_seq(ws, st, width as int, px2 / 1000, py2 / 1000), px2, py2, false, tc.0, tc.1)
            } else {
                (ws, px2, py2, true, atype, cd)
            }
        } else {
            (ws, px2, py2, !(0 <= px2 / 1000 < width && 0 <= py2 / 1000 < height), atype, cd)
        }
    }
}

/// A coordinate clamped into the map with a hundredth-of-a-pixel margin
/// at the far edge.
pub open spec fn clamp_pos(p: int, size: u32) -> int {
    let hi = size * 1000 - 1010;
    let lo: int = if p >= 0 {
        p
    } else {
        0
    };
    if lo > hi {
        hi
    } else {
        lo
    }
}

/// The hash input an agent's tick draws its randomness from: its cell
/// index mixed with a hash of its slot index.
pub open spec fn rand_state(width: u32, a: Agent, agent_index: u32) -> u32 {
    let cell = (a.y_milli / 1000) * width + a.x_milli / 1000;
    ((cell % 0x1_0000_0000) as u32).wrapping_add(crate::hashing::hash_spec(agent_index))
}

/// The species and countdown after the lifetime check: species with a
/// timeout above ten milliseconds count down, and morph into the timeout
/// conversion species when the countdown runs out.  A countdown long
/// expired saturates at the bottom of its range; only its sign matters.
pub open spec fn lifetime_spec(
    st: AgentStats,
    sl: [AgentStats; NUM_AGENT_TYPES],
    atype: u32,
    cd: i64,
    dt_us: u64,
) -> (u32, i64) {
    if st.timeout_us > 10_000 {
        let cd2: int = if cd - dt_us < -0x2_0000_0000_0000 {
            -0x2_0000_0000_0000
        } else {
            cd - dt_us
        };
        if cd2 <= 0 && st.timeout_conversion < NUM_AGENT_TYPES {
            (st.timeout_conversion, sl[st.timeout_conversion as int].timeout_us as i64)
        } else {
            (atype, cd2 as i64)
        }
    } else {
        (atype, cd)
    }
}

/// Everything one tick does to one agent and to the map: sense, steer,
/// walk and deposit, leap, clamp with a fresh random heading when the
/// walk left the map, and the lifetime check; the heading is normalized
/// to one turn at the end.  Agents of an unknown species are left alone.
pub open spec fn update_spec(
    ws: Seq<u32>,
    width: u32,
    height: u32,
    a: Agent,
    sl: [AgentStats; NUM_AGENT_TYPES],
    agent_index: u32,
    dt_us: u64,
) -> (Seq<u32>, Agent) {
    if a.agent_type >= NUM_AGENT_TYPES {
        (ws, a)
    } else {
        let st = sl[a.agent_type as int];
        let rnd = crate::hashing::milli_of_word_spec(
            crate::hashing::hash_spec(rand_state(width, a, agent_index)),
        );
        let spacing = st.sensor_angle_spacing_milli / 180;
        let fwd = sensor_outcome(
            ws,
            width,
            height,
            st,
            a.x_milli as int,
            a.y_milli as int,
            a.angle_units as int,
        );
        let lft = sensor_outcome(
            ws,
            width,
            height,
            st,
            a.x_milli as int,
            a.y_milli as int,
            a.angle_units + spacing,
        );
        let rgt = sensor_outcome(
            ws,
            width,
            height,
            st,
            a.x_milli as int,
            a.y_milli as int,
            a.angle_units - spacing,
        );
        let angle1 = a.angle_units + steer_delta(lft, fwd, rgt, rnd, st, dt_us);
        let dx = cos_milli_spec(angle1);
        let dy = sin_milli_spec(angle1);
        let total = st.velocity_milli * dt_us / 1_000_000;
        let wr = walk_phase(
            ws,
            width,
            height,
            st,
            sl,
            a.x_milli as int,
            a.y_milli as int,
            dx,
            dy,
            total,
            a.agent_type,
            a.countdown_us,
        );
        let lr = leap_spec(
            wr.0,
            width,
            height,
            st,
            sl,
            wr.1,
            wr.2,
            dx,
            dy,
            wr.6,
            wr.3,
            wr.4,
            wr.5,
        );
        let px3 = if lr.3 {
            clamp_pos(lr.1, width)
        } else {
            lr.1
        };
        let py3 = if lr.3 {
            clamp_pos(lr.2, height)
        } else {
            lr.2
        };
        let angle2: int = if lr.3 {
            2 * rnd
        } else {
            angle1
        };
        let tc = lifetime_spec(st, sl, lr.4, lr.5, dt_us);
        (
            lr.0,
            Agent {
                x_milli: px3 as u32,
                y_milli: py3 as u32,
                angle_units: (angle2 % 2000) as i64,
                agent_type: tc.0,
                countdown_us: tc.1,
            },
        )
    }
}

/// An angle reduced to one turn, as spec-mode remainder does it.
fn norm_angle(a: i64) -> (r: i64)
    requires
        -0x4000_0000_0000 <= a <= 0x4000_0000_0000,
    ensures
        r == a as int % 2000,
        0 <= r < 2000,
{
    let shifted: u64 = (a + 2000 * 0x4000_0000_0000) as u64;
    let u: u64 = shifted % 2000;
    proof {
        vstd::arithmetic::div_mod::lemma_mod_multiples_vanish(0x4000_0000_0000, a as int, 2000);
    }
    u as i64
}

/// A coordinate clamped into the map.
fn clamp_pos_exec(p: i64, size: u32) -> (r: i64)
    requires
        2 <= size <= 4_000_000,
        -0x7000_0000_0000 <= p <= 0x7000_0000_0000,
    ensures
        r == clamp_pos(p as int, size),
        0 <= r <= size * 1000 - 1010,
{
    let hi: i64 = (size as i64) * 1000 - 1010;
    let lo: i64 = if p >= 0 {
        p
    } else {
        0
    };
    if lo > hi {
        hi
    } else {
        lo
    }
}

/// The unit-step phase of the walk, on the map itself.
fn walk(
    map: &mut TrailMap,
    st: &AgentStats,
    sl: &[AgentStats; NUM_AGENT_TYPES],
    sx: i64,
    sy: i64,
    dx: i64,
    dy: i64,
    total: u64,
    atype: u32,
    cd: i64,
) -> (r: (i64, i64, bool, u32, i64, u64))
    requires
        old(map).wf(),
        st.wf(),
        forall|t: int| 0 <= t < NUM_AGENT_TYPES ==> #[trigger] sl[t].wf(),
        -1000 <= dx <= 1000,
        -1000 <= dy <= 1000,
        -0x1_2A05_F200 <= sx <= 0x1_2A05_F200,
        -0x1_2A05_F200 <= sy <= 0x1_2A05_F200,
        total <= 100_000_000,
        -0x2_0000_0000_0000 <= cd <= 0x2_0000_0000_0000,
    ensures
        final(map).wf(),
        final(map).width == old(map).width,
        final(map).height == old(map).height,
        walk_phase(
            old(map).words@,
            old(map).width,
            old(map).height,
            *st,
            *sl,
            sx as int,
            sy as int,
            dx as int,
            dy as int,
            total as int,
            atype,
            cd,
        ) == (final(map).words@, r.0 as int, r.1 as int, r.2, r.3, r.4, r.5 as int),
        sx - total - 1000 <= r.0 <= sx + total + 1000,
        sy - total - 1000 <= r.1 <= sy + total + 1000,
        !r.2 ==> r.5 <= 1000,
        r.5 <= total,
        -0x2_0000_0000_0000 <= r.4 <= 0x2_0000_0000_0000,
{
    let ghost ws0 = map.words@;
    let mut px: i64 = sx;
    let mut py: i64 = sy;
    let mut rem: u64 = total;
    let mut t: u32 = atype;
    let mut c: i64 = cd;
    let mut outside: bool = false;
    while rem > 1000 && !outside
        invariant
            map.wf(),
            map.width == old(map).width,
            map.height == old(map).height,
            st.wf(),
            forall|t2: int| 0 <= t2 < NUM_AGENT_TYPES ==> #[trigger] sl[t2].wf(),
            -1000 <= dx <= 1000,
            -1000 <= dy <= 1000,
            -0x1_2A05_F200 <= sx <= 0x1_2A05_F200,
            -0x1_2A05_F200 <= sy <= 0x1_2A05_F200,
            total <= 100_000_000,
            rem <= total,
            !outside ==> sx - (total - rem) <= px <= sx + (total - rem),
            !outside ==> sy - (total - rem) <= py <= sy + (total - rem),
            outside ==> sx - (total - rem) - 1000 <= px <= sx + (total - rem) + 1000,
            outside ==> sy - (total - rem) - 1000 <= py <= sy + (total - rem) + 1000,
            -0x2_0000_0000_0000 <= c <= 0x2_0000_0000_0000,
            (if outside {
                walk_phase(
                    ws0,
                    map.width,
                    map.height,
                    *st,
                    *sl,
                    sx as int,
                    sy as int,
                    dx as int,
                    dy as int,
                    total as int,
                    atype,
                    cd,
                ) == (map.words@, px as int, py as int, true, t, c, rem as int)
            } else {
                walk_phase(
                    ws0,
                    map.width,
                    map.height,
                    *st,
                    *sl,
                    sx as int,
                    sy as int,
                    dx as int,
                    dy as int,
                    total as int,
                    atype,
                    cd,
                ) == walk_phase(
                    map.words@,
                    map.width,
                    map.height,
                    *st,
                    *sl,
                    px as int,
                    py as int,
                    dx as int,
                    dy as int,
                    rem as int,
                    t,
                    c,
                )
            }),
        decreases rem, (if outside { 0int } else { 1int }),
    {
        px = px + dx;
        py = py + dy;
        let cx = floor_div(px, 1000);
        let cy = floor_div(py, 1000);
        let res = process_pixel(map, st, sl, cx, cy, t, c);
        t = res.1;
        c = res.2;
        if res.0 {
            rem = rem - 1000;
        } else {
            outside = true;
        }
    }
    (px, py, outside, t, c, rem)
}

/// The final sub-pixel leap, on the map itself; when the result stays on
/// the map, the position it reports lies within the map's milli-pixel
/// range.
fn leap(
    map: &mut TrailMap,
    st: &AgentStats,
    sl: &[AgentStats; NUM_AGENT_TYPES],
    px: i64,
    py: i64,
    dx: i64,
    dy: i64,
    rem: u64,
    outside: bool,
    atype: u32,
    cd: i64,
) -> (r: (i64, i64, bool, u32, i64))
    requires
        old(map).wf(),
        st.wf(),
        forall|t: int| 0 <= t < NUM_AGENT_TYPES ==> #[trigger] sl[t].wf(),
        -1000 <= dx <= 1000,
        -1000 <= dy <= 1000,
        -0x1_5000_0000_0000 <= px <= 0x1_5000_0000_0000,
        -0x1_5000_0000_0000 <= py <= 0x1_5000_0000_0000,
        !outside ==> rem <= 1000,
        -0x2_0000_0000_0000 <= cd <= 0x2_0000_0000_0000,
    ensures
        final(map).wf(),
        final(map).width == old(map).width,
        final(map).height == old(map).height,
        leap_spec(
            old(map).words@,
            old(map).width,
            old(map).height,
            *st,
            *sl,
            px as int,
            py as int,
            dx as int,
            dy as int,
            rem as int,
            outside,
            atype,
            cd,
        ) == (final(map).words@, r.0 as int, r.1 as int, r.2, r.3, r.4),
        !r.2 ==> 0 <= r.0 < old(map).width * 1000 && 0 <= r.1 < old(map).height * 1000,
        -0x2_0000_0000_0000 <= r.4 <= 0x2_0000_0000_0000,
        px - 1000 <= r.0 <= px + 1000,
        py - 1000 <= r.1 <= py + 1000,
{
    if outside {
        return (px, py, true, atype, cd);
    }
    proof {
        assert(-1_000_000 <= dx * rem <= 1_000_000 && -1_000_000 <= dy * rem <= 1_000_000)
            by (nonlinear_arith)
            requires
                -1000 <= dx <= 1000,
                -1000 <= dy <= 1000,
                0 <= rem <= 1000,
        ;
        vstd::arithmetic::div_mod::lemma_div_is_ordered(dx * rem, 1_000_000, 1000);
        vstd::arithmetic::div_mod::lemma_div_is_ordered(-1_000_000, dx * rem, 1000);
        vstd::arithmetic::div_mod::lemma_div_is_ordered(dy * rem, 1_000_000, 1000);
        vstd::arithmetic::div_mod::lemma_div_is_ordered(-1_000_000, dy * rem, 1000);
    }
    let px2: i64 = px + floor_div(dx * (rem as i64), 1000);
    let py2: i64 = py + floor_div(dy * (rem as i64), 1000);
    let cx1 = floor_div(px, 1000);
    let cy1 = floor_div(py, 1000);
    let cx2 = floor_div(px2, 1000);
    let cy2 = floor_div(py2, 1000);
    proof {
        vstd::arithmetic::div_mod::lemma_fundamental_div_mod(px2 as int, 1000);
        vstd::arithmetic::div_mod::lemma_mod_bound(px2 as int, 1000);
        vstd::arithmetic::div_mod::lemma_fundamental_div_mod(py2 as int, 1000);
        vstd::arithmetic::div_mod::lemma_mod_bound(py2 as int, 1000);
    }
    if cx2 != cx1 || cy2 != cy1 {
        let res = process_pixel(map, st, sl, cx2, cy2, atype, cd);
        (px2, py2, !res.0, res.1, res.2)
    } else {
        let inside = 0 <= cx2 && cx2 < map.width as i64 && 0 <= cy2 && cy2 < map.height as i64;
        (px2, py2, !inside, atype, cd)
    }
}

/// The lifetime countdown at the end of one tick.
fn lifetime_tick(
    st: &AgentStats,
    sl: &[AgentStats; NUM_AGENT_TYPES],
    atype: u32,
    cd: i64,
    dt_us: u64,
) -> (r: (u32, i64))
    requires
        st.wf(),
        forall|t: int| 0 <= t < NUM_AGENT_TYPES ==> #[trigger] sl[t].wf(),
        dt_us <= MAX_TIME_STEP_US,
        -0x2_0000_0000_0000 <= cd <= 0x2_0000_0000_0000,
    ensures
        r == lifetime_spec(*st, *sl, atype, cd, dt_us),
        -0x2_0000_0000_0000 <= r.1 <= 0x2_0000_0000_0000,
{
    if st.timeout_us > 10_000 {
        let mut c2: i64 = cd - dt_us as i64;
        if c2 < -0x2_0000_0000_0000 {
            c2 = -0x2_0000_0000_0000;
        }
        if c2 <= 0 && (st.timeout_conversion as usize) < NUM_AGENT_TYPES {
            proof {
                assert(sl[st.timeout_conversion as int].wf());
            }
            (st.timeout_conversion, sl[st.timeout_conversion as usize].timeout_us as i64)
        } else {
            (atype, c2)
        }
    } else {
        (atype, cd)
    }
}

/// The random fraction one agent draws this tick.
fn tick_random(width: u32, a: &Agent, agent_index: u32) -> (r: u32)
    requires
        width <= 4_000_000,
    ensures
        r == crate::hashing::milli_of_word_spec(
            crate::hashing::hash_spec(rand_state(width, *a, agent_index)),
        ),
        r <= 1000,
{
    proof {
        let yq = a.y_milli as int / 1000;
        let wid = width as int;
        vstd::arithmetic::div_mod::lemma_div_is_ordered(a.y_milli as int, 0xFFFF_FFFF, 1000);
        vstd::arithmetic::div_mod::lemma_div_is_ordered(0, a.y_milli as int, 1000);
        assert(0 <= yq * wid <= 20_000_000_000_000) by (nonlinear_arith)
            requires
                0 <= yq <= 4_294_968,
                0 <= wid <= 4_000_000,
        ;
    }
    let cell: u64 = ((a.y_milli / 1000) as u64) * (width as u64) + ((a.x_milli / 1000) as u64);
    let state: u32 = ((cell % 0x1_0000_0000) as u32).wrapping_add(
        crate::hashing::hash(agent_index),
    );
    crate::hashing::milli_of_word(crate::hashing::hash(state))
}

/// How far, in milli-pixels, one tick carries the agent.
fn step_total(velocity_milli: u32, dt_us: u64) -> (r: u64)
    requires
        velocity_milli <= 10_000_000,
        dt_us <= MAX_TIME_STEP_US,
    ensures
        r == velocity_milli * dt_us / 1_000_000,
        r <= 100_000_000,
{
    proof {
        assert(velocity_milli * dt_us <= 100_000_000_000_000) by (nonlinear_arith)
            requires
                velocity_milli <= 10_000_000,
                dt_us <= 10_000_000,
        ;
        vstd::arithmetic::div_mod::lemma_div_is_ordered(
            (velocity_milli * dt_us) as int,
            100_000_000_000_000,
            1_000_000,
        );
    }
    (velocity_milli as u64) * dt_us / 1_000_000
}

/// One tick of one agent: the whole sense / steer / walk / deposit /
/// convert / clamp / lifetime rule, mutating the agent and the map.  The
/// result is pinned exactly by [`update_spec`]; in particular, an agent
/// of a known species always ends the tick on the map, wherever its walk
/// tried to take it.
#[verifier::rlimit(100)]
pub fn agent_update(
    map: &mut TrailMap,
    agent: &mut Agent,
    sl: &[AgentStats; NUM_AGENT_TYPES],
    agent_index: u32,
    dt_us: u64,
)
    requires
        old(map).wf(),
        old(agent).wf(),
        forall|t: int| 0 <= t < NUM_AGENT_TYPES ==> #[trigger] sl[t].wf(),
        dt_us <= MAX_TIME_STEP_US,
        2 <= old(map).width <= 4_000_000,
        2 <= old(map).height <= 4_000_000,
    ensures
        final(map).wf(),
        final(map).width == old(map).width,
        final(map).height == old(map).height,
        (final(map).words@, *final(agent)) == update_spec(
            old(map).words@,
            old(map).width,
            old(map).height,
            *old(agent),
            *sl,
            agent_index,
            dt_us,
        ),
        final(agent).wf(),
        old(agent).agent_type < NUM_AGENT_TYPES ==> final(agent).in_map(
            old(map).width,
            old(map).height,
        ),
{
    if agent.agent_type as usize >= NUM_AGENT_TYPES {
        return ;
    }
    proof {
        assert(sl[agent.agent_type as int].wf());
    }
    let st = sl[agent.agent_type as usize];
    let x0: i64 = agent.x_milli as i64;
    let y0: i64 = agent.y_milli as i64;

    // Randomness for this tick.
    let rnd: u32 = tick_random(map.width, agent, agent_index);

    // Sense at the three sensors.
    let spacing: u32 = st.sensor_angle_spacing_milli / 180;
    let fwd = sense(map, &st, x0, y0, agent.angle_units);
    let lft = sense(map, &st, x0, y0, agent.angle_units + spacing as i64);
    let rgt = sense(map, &st, x0, y0, agent.angle_units - spacing as i64);

    // Steer.
    let delta = steer_delta_exec(lft, fwd, rgt, rnd, &st, dt_us);
    let angle1: i64 = agent.angle_units + delta;
    let dx: i64 = cos_milli(angle1) as i64;
    let dy: i64 = sin_milli(angle1) as i64;

    // Walk in unit steps.
    let total: u64 = step_total(st.velocity_milli, dt_us);
    let w = walk(map, &st, sl, x0, y0, dx, dy, total, agent.agent_type, agent.countdown_us);
    let l = leap(map, &st, sl, w.0, w.1, dx, dy, w.5, w.2, w.3, w.4);
    let px2: i64 = l.0;
    let py2: i64 = l.1;
    let outside: bool = l.2;

    // Clamp back into the map with a fresh heading when the walk left it.
    let angle2: i64 = if outside {
        2 * rnd as i64
    } else {
        angle1
    };
    let px3: i64 = if outside {
        clamp_pos_exec(px2, map.width)
    } else {
        px2
    };
    let py3: i64 = if outside {
        clamp_pos_exec(py2, map.height)
    } else {
        py2
    };

    // Lifetime countdown.
    let tc = lifetime_tick(&st, sl, l.3, l.4, dt_us);
    let t: u32 = tc.0;
    let c: i64 = tc.1;

    let na = Agent {
        x_milli: px3 as u32,
        y_milli: py3 as u32,
        angle_units: norm_angle(angle2),
        agent_type: t,
        countdown_us: c,
    };
    proof {
        let ws0 = old(map).words@;
        let w0 = old(map).width;
        let h0 = old(map).height;
        let a0 = *old(agent);
        let st_s = sl[a0.agent_type as int];
        let rnd_s = crate::hashing::milli_of_word_spec(
            crate::hashing::hash_spec(rand_state(w0, a0, agent_index)),
        );
        let spacing_s = st_s.sensor_angle_spacing_milli / 180;
        let fwd_s = sensor_outcome(
            ws0,
            w0,
            h0,
            st_s,
            a0.x_milli as int,
            a0.y_milli as int,
            a0.angle_units as int,
        );
        let lft_s = sensor_outcome(
            ws0,
            w0,
            h0,
            st_s,
            a0.x_milli as int,
            a0.y_milli as int,
            a0.angle_units + spacing_s,
        );
        let rgt_s = sensor_outcome(
            ws0,
            w0,
            h0,
            st_s,
            a0.x_milli as int,
            a0.y_milli as int,
            a0.angle_units - spacing_s,
        );
        assert(st == st_s && rnd == rnd_s && spacing == spacing_s);
        let delta_s = steer_delta(lft_s, fwd_s, rgt_s, rnd_s, st_s, dt_us);
        assert(delta == delta_s);
        let angle1_s = a0.angle_units + delta_s;
        let dx_s = cos_milli_spec(angle1_s);
        let dy_s = sin_milli_spec(angle1_s);
        assert(angle1 == angle1_s && dx == dx_s && dy == dy_s);
        let total_s = st_s.velocity_milli * dt_us / 1_000_000;
        assert(total == total_s);
        let wr_s = walk_phase(
            ws0,
            w0,
            h0,
            st_s,
            *sl,
            a0.x_milli as int,
            a0.y_milli as int,
            dx_s,
            dy_s,
            total_s,
            a0.agent_type,
            a0.countdown_us,
        );
        assert(wr_s == (walk_phase(
            ws0,
            w0,
            h0,
            st_s,
            *sl,
            a0.x_milli as int,
            a0.y_milli as int,
            dx_s,
            dy_s,
            total_s,
            a0.agent_type,
            a0.countdown_us,
        )));
        assert(wr_s.1 == w.0 as int && wr_s.2 == w.1 as int && wr_s.3 == w.2 && wr_s.4 == w.3
            && wr_s.5 == w.4 && wr_s.6 == w.5 as int);
        let lr_s = leap_spec(
            wr_s.0,
            w0,
            h0,
            st_s,
            *sl,
            wr_s.1,
            wr_s.2,
            dx_s,
            dy_s,
            wr_s.6,
            wr_s.3,
            wr_s.4,
            wr_s.5,
        );
        assert(lr_s.1 == px2 as int && lr_s.2 == py2 as int && lr_s.3 == outside && lr_s.4 == l.3
            && lr_s.5 == l.4);
        let px3_s = if lr_s.3 {
            clamp_pos(lr_s.1, w0)
        } else {
            lr_s.1
        };
        let py3_s = if lr_s.3 {
            clamp_pos(lr_s.2, h0)
        } else {
            lr_s.2
        };
        let angle2_s: int = if lr_s.3 {
            2 * rnd_s
        } else {
            angle1_s
        };
        assert(px3 == px3_s && py3 == py3_s && angle2 == angle2_s);
        let tc_s = lifetime_spec(st_s, *sl, lr_s.4, lr_s.5, dt_us);
        assert(tc_s == (t, c));
        assert(na == (Agent {
            x_milli: px3_s as u32,
            y_milli: py3_s as u32,
            angle_units: (angle2_s % 2000) as i64,
            agent_type: tc_s.0,
            countdown_us: tc_s.1,
        }));
        assert(update_spec(ws0, w0, h0, a0, *sl, agent_index, dt_us) == (lr_s.0, na));
    }
    *agent = na;
}

/// The whole agent pass as a fold: the first `k` agents take their
/// ticks in store order, each reading the words the agents before it
/// left behind, and each replaced in the store by its updated self.
pub open spec fn pass_spec(
    ws: Seq<u32>,
    width: u32,
    height: u32,
    agents: Seq<Agent>,
    sl: [AgentStats; NUM_AGENT_TYPES],
    dt_us: u64,
    k: int,
) -> (Seq<u32>, Seq<Agent>)
    decreases k,
{
    if k <= 0 {
        (ws, agents)
    } else {
        let prev = pass_spec(ws, width, height, agents, sl, dt_us, k - 1);
        let r = update_spec(prev.0, width, height, prev.1[k - 1], sl, (k - 1) as u32, dt_us);
        (r.0, prev.1.update(k - 1, r.1))
    }
}

/// One whole agent pass: every agent of the store takes its tick, in
/// store order, each seeing the deposits of the agents before it; the
/// result is pinned exactly by [`pass_spec`].  Every agent of a known
/// species ends the pass on the map.
pub fn agent_pass(
    map: &mut TrailMap,
    agents: &mut Vec<Agent>,
    sl: &[AgentStats; NUM_AGENT_TYPES],
    dt_us: u64,
)
    requires
        old(map).wf(),
        forall|i: int| 0 <= i < old(agents)@.len() ==> (#[trigger] old(agents)@[i]).wf(),
        forall|t: int| 0 <= t < NUM_AGENT_TYPES ==> #[trigger] sl[t].wf(),
        dt_us <= MAX_TIME_STEP_US,
        2 <= old(map).width <= 4_000_000,
        2 <= old(map).height <= 4_000_000,
        old(agents)@.len() <= 0xFFFF_FFFF,
    ensures
        final(map).wf(),
        final(map).width == old(map).width,
        final(map).height == old(map).height,
        final(agents)@.len() == old(agents)@.len(),
        (final(map).words@, final(agents)@) == pass_spec(
            old(map).words@,
            old(map).width,
            old(map).height,
            old(agents)@,
            *sl,
            dt_us,
            old(agents)@.len() as int,
        ),
        forall|i: int| 0 <= i < final(agents)@.len() ==> (#[trigger] final(agents)@[i]).wf(),
        forall|i: int|
            0 <= i < final(agents)@.len() && final(agents)@[i].agent_type < NUM_AGENT_TYPES
                ==> (#[trigger] final(agents)@[i]).in_map(old(map).width, old(map).height),
{
    let ghost ws0 = map.words@;
    let ghost agents0 = agents@;
    let n = agents.len();
    let mut i: usize = 0;
    while i < n
        invariant
            map.wf(),
            map.width == old(map).width,
            map.height == old(map).height,
            forall|t: int| 0 <= t < NUM_AGENT_TYPES ==> #[trigger] sl[t].wf(),
            dt_us <= MAX_TIME_STEP_US,
            2 <= map.width <= 4_000_000,
            2 <= map.height <= 4_000_000,
            agents@.len() == n,
            agents0.len() == n,
            n <= 0xFFFF_FFFF,
            i <= n,
            (map.words@, agents@) == pass_spec(
                ws0,
                map.width,
                map.height,
                agents0,
                *sl,
                dt_us,
                i as int,
            ),
            forall|j: int| 0 <= j < n ==> (#[trigger] agents@[j]).wf(),
            forall|j: int|
                0 <= j < i && agents@[j].agent_type < NUM_AGENT_TYPES ==> (
                #[trigger] agents@[j]).in_map(map.width, map.height),
        decreases n - i,
    {
        let mut a = agents[i];
        agent_update(map, &mut a, sl, i as u32, dt_us);
        agents[i] = a;
        proof {
            assert(agents@ =~= pass_spec(
                ws0,
                map.width,
                map.height,
                agents0,
                *sl,
                dt_us,
                i + 1,
            ).1);
        }
        i = i + 1;
    }
}

} // verus!