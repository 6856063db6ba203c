use crate::config::{SnowConfig, OPACITY_FULL};
use crate::flake::{is_landed, SnowState, Snowflake, FLAKE_LIMIT};
use crate::geometry::{columns_view, Canvas, WindowRect, MPX};
use crate::random::{in_draw_range, pick_index, uniform};
use vstd::arithmetic::div_mod::{
    lemma_div_pos_is_pos, lemma_fundamental_div_mod_converse, lemma_mod_bound,
};
use vstd::prelude::*;

verus! {

/// Microseconds a flake rests before it has melted.
pub const MELT_DURATION: u64 = 4000000;

/// Depth, in milli-pixels, of the band below a window's top edge in which a
/// falling flake is caught.
pub const CATCH_BAND: i64 = 10000;

/// How far, in milli-pixels, a resting flake may sit from the top of its
/// window before it is taken to have lost its footing.
pub const REST_TOLERANCE: i64 = 1000;

/// Bound on the magnitude of a sway sample: the sine, in per-mille.
pub const SINE_FULL: i64 = 1000;

/// Vertical distance covered in `dt` microseconds at `speed`.
pub open spec fn fall_dy(speed: int, dt: int) -> int {
    speed * dt / 1000000
}

/// Horizontal sway over `dt` microseconds, for a sine sample `sine` (in
/// per-mille) and an amplitude `drift`; rounded toward zero.
pub open spec fn sway_dx(sine: int, drift: int, dt: int) -> int {
    if sine >= 0 {
        sine * drift * dt / 1000000000
    } else {
        -((-sine) * drift * dt / 1000000000)
    }
}

/// `x` wrapped into `0..w`; a canvas without width holds everything at 0.
pub open spec fn wrap(x: int, w: int) -> int {
    if w <= 0 {
        0
    } else {
        x % w
    }
}

pub open spec fn win_left(w: WindowRect, c: Canvas) -> int {
    c.local_x(w.x as int)
}

pub open spec fn win_right(w: WindowRect, c: Canvas) -> int {
    c.local_x(w.x + w.width)
}

pub open spec fn win_top(w: WindowRect, c: Canvas) -> int {
    c.local_y(w.y as int)
}

/// A flake of radius `r` at `(x, y)` is caught by window `w`: it is over the
/// window, its bottom edge has reached the window's top edge, and its centre
/// is still within the catch band below that edge.
pub open spec fn catches(w: WindowRect, c: Canvas, x: int, y: int, r: int) -> bool {
    &&& win_left(w, c) <= x <= win_right(w, c)
    &&& y + r >= win_top(w, c)
    &&& y < win_top(w, c) + CATCH_BAND
}

/// Window `k` is the first of `ws` that catches the flake.
pub open spec fn first_catch(ws: Seq<WindowRect>, c: Canvas, x: int, y: int, r: int, k: int) -> bool {
    &&& 0 <= k < ws.len()
    &&& catches(ws[k], c, x, y, r)
    &&& forall|j: int| 0 <= j < k ==> !catches(#[trigger] ws[j], c, x, y, r)
}

/// No window of `ws` catches the flake.
pub open spec fn no_catch(ws: Seq<WindowRect>, c: Canvas, x: int, y: int, r: int) -> bool {
    forall|j: int| 0 <= j < ws.len() ==> !catches(#[trigger] ws[j], c, x, y, r)
}

/// Window `k` is the first of `ws` with this address.
pub open spec fn first_with(ws: Seq<WindowRect>, addr: u64, k: int) -> bool {
    &&& 0 <= k < ws.len()
    &&& ws[k].address == addr
    &&& forall|j: int| 0 <= j < k ==> (#[trigger] ws[j]).address != addr
}

/// No window of `ws` has this address.
pub open spec fn none_with(ws: Seq<WindowRect>, addr: u64) -> bool {
    forall|j: int| 0 <= j < ws.len() ==> (#[trigger] ws[j]).address != addr
}

/// Opacity of a flake that has rested `t` microseconds, under a maximum
/// opacity `max`: it fades linearly from nine tenths of the maximum.
pub open spec fn melt_opacity(t: int, max: int) -> int {
    if t >= MELT_DURATION {
        0
    } else {
        (MELT_DURATION - t) * 9 * max / (10 * MELT_DURATION)
    }
}

/// Radius, speed, phase and drift are kept.
pub open spec fn same_build(a: Snowflake, b: Snowflake) -> bool {
    &&& a.radius == b.radius
    &&& a.speed == b.speed
    &&& a.phase == b.phase
    &&& a.drift_amount == b.drift_amount
}

/// `old` as a falling flake, everything else kept.
pub open spec fn released(old: Snowflake) -> Snowflake {
    Snowflake { state: SnowState::Falling, ..old }
}

/// One frame of a falling flake: it moves down by its speed and sideways by
/// its sway, wrapping around the canvas; then the first window that catches
/// it takes it, or else the floor does once its bottom edge has passed it.
pub open spec fn fell(
    old: Snowflake,
    new: Snowflake,
    dt: int,
    sine: int,
    ws: Seq<WindowRect>,
    c: Canvas,
) -> bool {
    let x1 = wrap(old.x + sway_dx(sine, old.drift_amount as int, dt), c.span_x());
    let y1 = old.y + fall_dy(old.speed as int, dt);
    let r = old.radius as int;
    &&& new.x == x1
    &&& same_build(old, new)
    &&& new.opacity == old.opacity
    &&& forall|k: int|
        first_catch(ws, c, x1, y1, r, k) ==> new.y == win_top(#[trigger] ws[k], c) - r
            && is_landed(new.state, 0, Some(ws[k].address), x1 - win_left(ws[k], c))
    &&& no_catch(ws, c, x1, y1, r) ==> if y1 > c.floor() - r {
        new.y == c.floor() - r && is_landed(new.state, 0, None, 0)
    } else {
        new.y == y1 && new.state == SnowState::Falling
    }
}

/// Where a new flake may appear across the canvas: inside one of the
/// columns, or anywhere when there is none.
pub open spec fn placed_x(x: int, c: Canvas, cols: Seq<(int, int)>) -> bool {
    &&& cols.len() == 0 ==> in_draw_range(x, 0, c.span_x())
    &&& cols.len() > 0 ==> exists|k: int|
        0 <= k < cols.len() && in_draw_range(x, cols[k].0, cols[k].1)
}

/// A melted flake comes back fresh at the top edge, inside one of the open
/// columns, or anywhere across the canvas when there is none.
pub open spec fn respawned(new: Snowflake, c: Canvas, config: SnowConfig, cols: Seq<(int, int)>) -> bool {
    &&& new.fresh(config)
    &&& new.y == 0
    &&& placed_x(new.x as int, c, cols)
}

/// One frame of rest at horizontal position `x_rest`: the melt timer runs
/// on and the flake fades; once the timer reaches the melt duration the
/// flake is replaced by a fresh one.
pub open spec fn rested(
    old: Snowflake,
    new: Snowflake,
    x_rest: int,
    dt: int,
    c: Canvas,
    config: SnowConfig,
    cols: Seq<(int, int)>,
) -> bool {
    old.state matches SnowState::Landed { melt_timer, window_addr, offset_x } && {
        let t = melt_timer + dt;
        if t >= MELT_DURATION {
            respawned(new, c, config, cols)
        } else {
            &&& new.x == x_rest
            &&& new.y == old.y
            &&& same_build(old, new)
            &&& new.opacity == melt_opacity(t, config.max_opacity as int)
            &&& is_landed(new.state, t, window_addr, offset_x as int)
        }
    }
}

/// A resting flake has lost its footing on window `w`: the window moved up
/// or down, or shrank from under it.
pub open spec fn slipped(old: Snowflake, w: WindowRect, c: Canvas, offset: int) -> bool {
    let expected = win_top(w, c) - old.radius;
    ||| old.y - expected > REST_TOLERANCE
    ||| expected - old.y > REST_TOLERANCE
    ||| offset < 0
    ||| offset > w.width * MPX
}

/// One frame of the flake state machine.
pub open spec fn stepped(
    old: Snowflake,
    new: Snowflake,
    dt: int,
    sine: int,
    ws: Seq<WindowRect>,
    c: Canvas,
    config: SnowConfig,
    cols: Seq<(int, int)>,
) -> bool {
    match old.state {
        SnowState::Falling => fell(old, new, dt, sine, ws, c),
        SnowState::Landed { melt_timer, window_addr, offset_x } => match window_addr {
            None => rested(old, new, old.x as int, dt, c, config, cols),
            Some(addr) => {
                &&& none_with(ws, addr) ==> new == released(old)
                &&& forall|k: int|
                    first_with(ws, addr, k) ==> if slipped(old, #[trigger] ws[k], c, offset_x as int) {
                        new == released(old)
                    } else {
                        rested(old, new, win_left(ws[k], c) + offset_x, dt, c, config, cols)
                    }
            },
        },
    }
}

/// Every window lies across the canvas, short of its right edge.
pub open spec fn windows_inside(ws: Seq<WindowRect>, c: Canvas) -> bool {
    forall|k: int|
        0 <= k < ws.len() ==> 0 <= win_left(#[trigger] ws[k], c) && win_right(ws[k], c)
            < c.span_x()
}

/// Every column starts on the canvas and ends by its right edge.
pub open spec fn columns_inside(cols: Seq<(int, int)>, c: Canvas) -> bool {
    forall|k: int|
        0 <= k < cols.len() ==> 0 <= (#[trigger] cols[k]).0 < c.span_x() && cols[k].1 <= c.span_x()
}

pub open spec fn columns_bounded(cols: Seq<(int, int)>) -> bool {
    forall|k: int|
        0 <= k < cols.len() ==> -FLAKE_LIMIT <= (#[trigger] cols[k]).0 <= FLAKE_LIMIT
            && -FLAKE_LIMIT <= cols[k].1 <= FLAKE_LIMIT
}

/// Bound on intermediate positions before wrapping or landing.
pub const STEP_LIMIT: i128 = 0x1_0000_0000_0000_0000_0000_0000_0000;

/// `x` wrapped into `0..w`.
pub fn wrap_coord(x: i128, w: i64) -> (r: i64)
    requires
        -STEP_LIMIT <= x <= STEP_LIMIT,
        -FLAKE_LIMIT <= w <= FLAKE_LIMIT,
    ensures
        r == wrap(x as int, w as int),
{
    if w <= 0 {
        return 0;
    }
    let wu = w as u128;
    if x >= 0 {
        let m = (x as u128) % wu;
        proof {
            lemma_mod_bound(x as int, w as int);
        }
        m as i64
    } else {
        let a = (-x) as u128;
        let m = a % wu;
        let q = a / wu;
        proof {
            lemma_mod_bound(a as int, w as int);
            vstd::arithmetic::div_mod::lemma_fundamental_div_mod(a as int, w as int);
            let qi = q as int;
            let mi = m as int;
            let wi = w as int;
            if m == 0 {
                assert(x == (-qi) * wi + 0) by (nonlinear_arith)
                    requires
                        a == wi * qi + mi,
                        mi == 0,
                        x == -a,
                ;
                lemma_fundamental_div_mod_converse(x as int, wi, -qi, 0);
            } else {
                assert(x == (-qi - 1) * wi + (wi - mi)) by (nonlinear_arith)
                    requires
                        a == wi * qi + mi,
                        x == -a,
                ;
                lemma_fundamental_div_mod_converse(x as int, wi, -qi - 1, wi - mi);
            }
        }
        if m == 0 {
            0
        } else {
            (wu - m) as i64
        }
    }
}

/// The first window of `ws` that catches a flake of radius `r` at `(x, y)`.
fn find_catch(ws: &Vec<WindowRect>, c: &Canvas, x: i64, y: i128, r: i64) -> (res: Option<usize>)
    requires
        c.wf(),
        -STEP_LIMIT <= y <= STEP_LIMIT,
        -FLAKE_LIMIT <= x <= FLAKE_LIMIT,
        -FLAKE_LIMIT <= r <= FLAKE_LIMIT,
    ensures
        res matches Some(k) ==> first_catch(ws@, *c, x as int, y as int, r as int, k as int),
        res is None ==> no_catch(ws@, *c, x as int, y as int, r as int),
{
    let mut i: usize = 0;
    while i < ws.len()
        invariant
            i <= ws@.len(),
            c.wf(),
            -STEP_LIMIT <= y <= STEP_LIMIT,
            -FLAKE_LIMIT <= x <= FLAKE_LIMIT,
            -FLAKE_LIMIT <= r <= FLAKE_LIMIT,
            forall|j: int| 0 <= j < i ==> !catches(#[trigger] ws@[j], *c, x as int, y as int, r as int),
        decreases ws@.len() - i,
    {
        let w = ws[i];
        let left = c.to_local_x(w.x as i64);
        let right = c.to_local_x(w.x as i64 + w.width as i64);
        let top = c.to_local_y(w.y as i64);
        if left <= x && x <= right && y + r as i128 >= top as i128 && y < top as i128
            + CATCH_BAND as i128 {
            return Some(i);
        }
        i = i + 1;
    }
    None
}

/// The first window of `ws` with this address.
fn find_window(ws: &Vec<WindowRect>, addr: u64) -> (res: Option<usize>)
    ensures
        res matches Some(k) ==> first_with(ws@, addr, k as int),
        res is None ==> none_with(ws@, addr),
{
    let mut i: usize = 0;
    while i < ws.len()
        invariant
            i <= ws@.len(),
            forall|j: int| 0 <= j < i ==> (#[trigger] ws@[j]).address != addr,
        decreases ws@.len() - i,
    {
        if ws[i].address == addr {
            return Some(i);
        }
        i = i + 1;
    }
    None
}

proof fn lemma_melt_opacity_bounded(t: int, max: int)
    requires
        0 <= t < MELT_DURATION,
        0 <= max <= OPACITY_FULL,
    ensures
        0 <= melt_opacity(t, max) <= OPACITY_FULL,
{
    let n = (MELT_DURATION - t) * 9 * max;
    assert(0 <= n <= 10 * MELT_DURATION * OPACITY_FULL) by (nonlinear_arith)
        requires
            n == (MELT_DURATION - t) * 9 * max,
            0 <= t < MELT_DURATION,
            0 <= max <= OPACITY_FULL,
    ;
    vstd::arithmetic::div_mod::lemma_div_is_ordered(
        n,
        10 * MELT_DURATION * OPACITY_FULL,
        10 * MELT_DURATION as int,
    );
    vstd::arithmetic::div_mod::lemma_div_multiples_vanish(
        OPACITY_FULL as int,
        10 * MELT_DURATION as int,
    );
    lemma_div_pos_is_pos(n, 10 * MELT_DURATION as int);
}

/// A random position inside one of the columns, picked at random.
pub fn x_in_columns(cols: &Vec<(i64, i64)>) -> (x: i64)
    requires
        cols@.len() > 0,
        columns_bounded(columns_view(cols@)),
    ensures
        exists|k: int|
            0 <= k < cols@.len() && in_draw_range(
                x as int,
                columns_view(cols@)[k].0,
                columns_view(cols@)[k].1,
            ),
        -FLAKE_LIMIT <= x <= FLAKE_LIMIT,
{
    let k = pick_index(cols.len());
    let x = uniform(cols[k].0, cols[k].1);
    assert(in_draw_range(x as int, columns_view(cols@)[k as int].0, columns_view(cols@)[k as int].1));
    x
}

/// The rest of a frame for a flake at rest at `x_rest`: the melt timer runs
/// on, and a flake that has melted comes back fresh.
fn rest(
    flake: &mut Snowflake,
    x_rest: i64,
    dt: u64,
    c: &Canvas,
    config: &SnowConfig,
    cols: &Vec<(i64, i64)>,
)
    requires
        old(flake).wf(),
        old(flake).state is Landed,
        -FLAKE_LIMIT <= x_rest <= FLAKE_LIMIT,
        c.wf(),
        config.wf(),
        columns_bounded(columns_view(cols@)),
    ensures
        final(flake).wf(),
        rested(*old(flake), *final(flake), x_rest as int, dt as int, *c, *config, columns_view(cols@)),
{
    if let SnowState::Landed { melt_timer, window_addr, offset_x } = flake.state {
        let t = melt_timer.saturating_add(dt);
        if t >= MELT_DURATION {
            flake.reset_at_top(c.width, config);
            if cols.len() > 0 {
                flake.x = x_in_columns(cols);
            }
        } else {
            proof {
                lemma_melt_opacity_bounded(t as int, config.max_opacity as int);
                assert((MELT_DURATION - t) * 9 * config.max_opacity <= MELT_DURATION * 9 * 1000)
                    by (nonlinear_arith)
                    requires
                        t < MELT_DURATION,
                        config.max_opacity <= 1000,
                ;
            }
            flake.x = x_rest;
            flake.opacity = ((MELT_DURATION - t) * 9 * config.max_opacity as u64 / (10
                * MELT_DURATION)) as i64;
            flake.state = SnowState::Landed { melt_timer: t, window_addr, offset_x };
        }
    }
}

/// One frame of a falling flake.
fn fall(flake: &mut Snowflake, dt: u64, sine: i64, ws: &Vec<WindowRect>, c: &Canvas)
    requires
        old(flake).wf(),
        old(flake).state is Falling,
        -SINE_FULL <= sine <= SINE_FULL,
        c.wf(),
    ensures
        final(flake).wf(),
        fell(*old(flake), *final(flake), dt as int, sine as int, ws@, *c),
{
    let mag: i128 = if sine >= 0 {
        sine as i128
    } else {
        -(sine as i128)
    };
    proof {
        assert(0 <= flake.speed as int * dt <= 0x1_0000_0000 * 0x1_0000_0000_0000_0000) by (nonlinear_arith)
            requires
                0 <= flake.speed <= u32::MAX,
                0 <= dt <= u64::MAX,
        ;
        assert(0 <= mag * flake.drift_amount as int <= 1000 * 0x1_0000_0000) by (nonlinear_arith)
            requires
                0 <= flake.drift_amount <= u32::MAX,
                0 <= mag <= 1000,
        ;
        assert(0 <= mag * flake.drift_amount as int * dt <= 1000 * 0x1_0000_0000
            * 0x1_0000_0000_0000_0000) by (nonlinear_arith)
            requires
                0 <= mag * flake.drift_amount as int <= 1000 * 0x1_0000_0000,
                0 <= dt <= u64::MAX,
        ;
        lemma_div_pos_is_pos(flake.speed as int * dt, 1000000);
        lemma_div_pos_is_pos(mag * flake.drift_amount as int * dt, 1000000000);
        vstd::arithmetic::div_mod::lemma_div_is_ordered(
            mag * flake.drift_amount as int * dt,
            (1000 * 0x1_0000_0000 * 0x1_0000_0000_0000_0000) as int,
            1000000000,
        );
        vstd::arithmetic::div_mod::lemma_div_is_ordered(
            flake.speed as int * dt,
            (0x1_0000_0000 * 0x1_0000_0000_0000_0000) as int,
            1000000,
        );
    }
    let dy: i128 = flake.speed as i128 * dt as i128 / 1000000;
    let y1: i128 = flake.y as i128 + dy;
    let sway: i128 = mag * flake.drift_amount as i128 * dt as i128 / 1000000000;
    let dx: i128 = if sine >= 0 {
        sway
    } else {
        -sway
    };
    let span = c.width * MPX;
    let x1 = wrap_coord(flake.x as i128 + dx, span);
    let r = flake.radius;
    match find_catch(ws, c, x1, y1, r) {
        Some(k) => {
            let w = ws[k];
            let left = c.to_local_x(w.x as i64);
            let top = c.to_local_y(w.y as i64);
            flake.x = x1;
            flake.y = top - r;
            flake.state = SnowState::Landed {
                melt_timer: 0,
                window_addr: Some(w.address),
                offset_x: x1 - left,
            };
            assert(first_catch(ws@, *c, x1 as int, y1 as int, r as int, k as int));
            assert forall|j: int| first_catch(ws@, *c, x1 as int, y1 as int, r as int, j) implies j
                == k by {
                if j < k {
                    assert(!catches(ws@[j], *c, x1 as int, y1 as int, r as int));
                }
                if j > k {
                    assert(!catches(ws@[k as int], *c, x1 as int, y1 as int, r as int));
                }
            }
        },
        None => {
            let floor = c.height * MPX;
            flake.x = x1;
            if y1 > (floor - r) as i128 {
                flake.y = floor - r;
                flake.state = SnowState::Landed { melt_timer: 0, window_addr: None, offset_x: 0 };
            } else {
                flake.y = y1 as i64;
            }
        },
    }
}

/// Advances one flake by `dt` microseconds: `sine` is the sine of its sway
/// angle in per-mille, `ws` the windows of the active workspace, `cols` the
/// columns where a melted flake may come back.
pub fn advance_flake(
    flake: &mut Snowflake,
    dt: u64,
    sine: i64,
    ws: &Vec<WindowRect>,
    c: &Canvas,
    config: &SnowConfig,
    cols: &Vec<(i64, i64)>,
)
    requires
        old(flake).wf(),
        -SINE_FULL <= sine <= SINE_FULL,
        c.wf(),
        config.wf(),
        columns_bounded(columns_view(cols@)),
    ensures
        final(flake).wf(),
        stepped(
            *old(flake),
            *final(flake),
            dt as int,
            sine as int,
            ws@,
            *c,
            *config,
            columns_view(cols@),
        ),
        0 <= old(flake).x < c.span_x() && windows_inside(ws@, *c) && columns_inside(
            columns_view(cols@),
            *c,
        )
            ==> 0 <= final(flake).x < c.span_x(),
{
    match flake.state {
        SnowState::Falling => {
            fall(flake, dt, sine, ws, c);
        },
        SnowState::Landed { melt_timer, window_addr, offset_x } => {
            match window_addr {
                None => {
                    let x = flake.x;
                    rest(flake, x, dt, c, config, cols);
                },
                Some(addr) => {
                    match find_window(ws, addr) {
                        None => {
                            flake.state = SnowState::Falling;
                        },
                        Some(k) => {
                            let w = ws[k];
                            let expected = c.to_local_y(w.y as i64) - flake.radius;
                            let width = w.width as i64 * MPX;
                            assert forall|j: int| first_with(ws@, addr, j) implies j == k by {
                                if j < k {
                                    assert(ws@[j].address != addr);
                                }
                                if j > k {
                                    assert(ws@[k as int].address != addr);
                                }
                            }
                            if flake.y - expected > REST_TOLERANCE || expected - flake.y
                                > REST_TOLERANCE || offset_x < 0 || offset_x > width {
                                flake.state = SnowState::Falling;
                            } else {
                                let x_rest = c.to_local_x(w.x as i64) + offset_x;
                                rest(flake, x_rest, dt, c, config, cols);
                            }
                        },
                    }
                },
            }
        },
    }
}

/// A resting flake whose melt timer reaches the melt duration in this frame
/// (on the floor, or on a window that still holds it) falls again as a fresh
/// flake, drawn from the configured ranges.
pub proof fn melt_completes(
    old: Snowflake,
    new: Snowflake,
    dt: int,
    sine: int,
    ws: Seq<WindowRect>,
    c: Canvas,
    config: SnowConfig,
    cols: Seq<(int, int)>,
    k: int,
)
    requires
        stepped(old, new, dt, sine, ws, c, config, cols),
        old.state matches SnowState::Landed { melt_timer, window_addr, offset_x } && melt_timer + dt
            == MELT_DURATION && (window_addr matches Some(a) ==> first_with(ws, a, k) && !slipped(
            old,
            ws[k],
            c,
            offset_x as int,
        )),
    ensures
        new.state == SnowState::Falling,
        new.fresh(config),
        new.y == 0,
        placed_x(new.x as int, c, cols),
{
    if let SnowState::Landed { window_addr, .. } = old.state {
        if let Some(a) = window_addr {
            assert(first_with(ws, a, k));
        }
    }
}

/// A flake resting on a window that is gone from the geometry falls again in
/// the same frame, with its melt timer dropped and nothing else changed.
pub proof fn vanished_window_releases(
    old: Snowflake,
    new: Snowflake,
    dt: int,
    sine: int,
    ws: Seq<WindowRect>,
    c: Canvas,
    config: SnowConfig,
    cols: Seq<(int, int)>,
    addr: u64,
)
    requires
        stepped(old, new, dt, sine, ws, c, config, cols),
        old.state matches SnowState::Landed { window_addr, .. } && window_addr == Some(addr),
        forall|j: int| 0 <= j < ws.len() ==> (#[trigger] ws[j]).address != addr,
    ensures
        new.state == SnowState::Falling,
        new.x == old.x && new.y == old.y && new.opacity == old.opacity,
        same_build(old, new),
{
}

} // verus!
