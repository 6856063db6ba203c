use crate::config::{SnowConfig, OPACITY_FULL};
use crate::random::{in_draw_range, uniform};
use vstd::prelude::*;

verus! {

/// A full turn, in micro-radians.
pub const TAU_URAD: i64 = 6283185;

/// Bound on the magnitude of a flake's coordinates, in milli-pixels.
pub const FLAKE_LIMIT: i64 = 1125899906842624;

/// Lower end, in per-mille of the configured maximum, of a fresh flake's
/// opacity.
pub const SPAWN_OPACITY_LOW: i64 = 700;

/// Where a flake is in its life.
#[derive(Clone, Copy, Debug, PartialEq, Eq, Structural)]
pub enum SnowState {
    /// Moving down the canvas.
    Falling,
    /// Resting, on the window `window_addr` or on the floor (`None`), for
    /// `melt_timer` microseconds so far. `offset_x` is the flake's distance
    /// from the window's left edge, in milli-pixels.
    Landed { melt_timer: u64, window_addr: Option<u64>, offset_x: i64 },
}

/// One snowflake. Positions are canvas-local milli-pixels, `speed` and
/// `drift_amount` milli-pixels per second, `phase` micro-radians and
/// `opacity` per-mille.
#[derive(Clone, Copy, Debug, PartialEq, Eq, Structural)]
pub struct Snowflake {
    pub x: i64,
    pub y: i64,
    pub radius: i64,
    pub speed: i64,
    pub phase: i64,
    pub drift_amount: i64,
    pub opacity: i64,
    pub state: SnowState,
}

/// Whether `state` is `Landed` with exactly these fields.
pub open spec fn is_landed(state: SnowState, timer: int, addr: Option<u64>, offset: int) -> bool {
    state matches SnowState::Landed { melt_timer, window_addr, offset_x } && melt_timer == timer
        && window_addr == addr && offset_x == offset
}

/// Opacity of a freshly drawn flake: in the top band of the configured
/// maximum.
pub open spec fn spawn_opacity_ok(opacity: int, max_opacity: int) -> bool {
    SPAWN_OPACITY_LOW * max_opacity / (OPACITY_FULL as int) <= opacity <= max_opacity
}

impl Snowflake {
    pub open spec fn wf(&self) -> bool {
        &&& -FLAKE_LIMIT <= self.x <= FLAKE_LIMIT
        &&& -FLAKE_LIMIT <= self.y <= FLAKE_LIMIT
        &&& 0 <= self.radius <= u32::MAX
        &&& 0 <= self.speed <= u32::MAX
        &&& 0 <= self.drift_amount <= u32::MAX
        &&& 0 <= self.phase < TAU_URAD
        &&& 0 <= self.opacity <= OPACITY_FULL
        &&& (self.state matches SnowState::Landed { offset_x, .. } ==> -FLAKE_LIMIT <= offset_x
            <= FLAKE_LIMIT)
    }

    /// Size, speed, sway and opacity freshly drawn from `config`, falling.
    pub open spec fn fresh(&self, config: SnowConfig) -> bool {
        &&& in_draw_range(self.radius as int, config.size_min as int, config.size_max as int)
        &&& in_draw_range(self.speed as int, config.speed_min as int, config.speed_max as int)
        &&& in_draw_range(self.phase as int, 0, TAU_URAD as int)
        &&& in_draw_range(self.drift_amount as int, 0, config.drift as int)
        &&& spawn_opacity_ok(self.opacity as int, config.max_opacity as int)
        &&& self.state == SnowState::Falling
    }

    /// A new flake anywhere on a canvas of `width` by `height` pixels.
    pub fn new(width: i64, height: i64, config: &SnowConfig) -> (f: Snowflake)
        requires
            config.wf(),
            -crate::geometry::CANVAS_LIMIT <= width <= crate::geometry::CANVAS_LIMIT,
            -crate::geometry::CANVAS_LIMIT <= height <= crate::geometry::CANVAS_LIMIT,
        ensures
            f.wf(),
            f.fresh(*config),
            in_draw_range(f.x as int, 0, width * 1000),
            in_draw_range(f.y as int, 0, height * 1000),
    {
        let x = uniform(0, width * 1000);
        let y = uniform(0, height * 1000);
        let (radius, speed, phase, drift_amount, opacity) = draw_looks(config);
        Snowflake { x, y, radius, speed, phase, drift_amount, opacity, state: SnowState::Falling }
    }

    /// Makes this flake a fresh one at the top edge of a canvas `width`
    /// pixels wide.
    pub fn reset_at_top(&mut self, width: i64, config: &SnowConfig)
        requires
            config.wf(),
            -crate::geometry::CANVAS_LIMIT <= width <= crate::geometry::CANVAS_LIMIT,
        ensures
            final(self).wf(),
            final(self).fresh(*config),
            in_draw_range(final(self).x as int, 0, width * 1000),
            final(self).y == 0,
    {
        self.x = uniform(0, width * 1000);
        self.y = 0;
        let (radius, speed, phase, drift_amount, opacity) = draw_looks(config);
        self.radius = radius;
        self.speed = speed;
        self.phase = phase;
        self.drift_amount = drift_amount;
        self.opacity = opacity;
        self.state = SnowState::Falling;
    }
}

proof fn lemma_spawn_opacity(o: int, max: int)
    requires
        SPAWN_OPACITY_LOW <= o < OPACITY_FULL,
        0 <= max <= OPACITY_FULL,
    ensures
        spawn_opacity_ok(o * max / (OPACITY_FULL as int), max),
        0 <= o * max / (OPACITY_FULL as int) <= OPACITY_FULL,
{
    assert(SPAWN_OPACITY_LOW * max <= o * max) by (nonlinear_arith)
        requires
            SPAWN_OPACITY_LOW <= o,
            0 <= max,
    ;
    assert(o * max <= 1000 * max) by (nonlinear_arith)
        requires
            o < 1000,
            0 <= max,
    ;
    vstd::arithmetic::div_mod::lemma_div_is_ordered(
        SPAWN_OPACITY_LOW * max,
        o * max,
        OPACITY_FULL as int,
    );
    vstd::arithmetic::div_mod::lemma_div_is_ordered(o * max, 1000 * max, OPACITY_FULL as int);
    vstd::arithmetic::div_mod::lemma_div_multiples_vanish(max, OPACITY_FULL as int);
    vstd::arithmetic::div_mod::lemma_div_pos_is_pos(o * max, OPACITY_FULL as int);
}

/// Draws radius, speed, phase, drift and opacity for a fresh flake.
fn draw_looks(config: &SnowConfig) -> (r: (i64, i64, i64, i64, i64))
    requires
        config.wf(),
    ensures
        in_draw_range(r.0 as int, config.size_min as int, config.size_max as int),
        in_draw_range(r.1 as int, config.speed_min as int, config.speed_max as int),
        in_draw_range(r.2 as int, 0, TAU_URAD as int),
        in_draw_range(r.3 as int, 0, config.drift as int),
        spawn_opacity_ok(r.4 as int, config.max_opacity as int),
        0 <= r.0 <= u32::MAX,
        0 <= r.1 <= u32::MAX,
        0 <= r.2 < TAU_URAD,
        0 <= r.3 <= u32::MAX,
        0 <= r.4 <= OPACITY_FULL,
{
    let radius = uniform(config.size_min as i64, config.size_max as i64);
    let speed = uniform(config.speed_min as i64, config.speed_max as i64);
    let phase = uniform(0, TAU_URAD);
    let drift_amount = uniform(0, config.drift as i64);
    let o = uniform(SPAWN_OPACITY_LOW, OPACITY_FULL as i64);
    proof {
        lemma_spawn_opacity(o as int, config.max_opacity as int);
    }
    let opacity = o * config.max_opacity as i64 / OPACITY_FULL as i64;
    (radius, speed, phase, drift_amount, opacity)
}

} // verus!
