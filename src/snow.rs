use crate::config::{ConfigEvent, SnowConfig};
use crate::flake::{Snowflake, TAU_URAD};
use crate::geometry::{
    columns_view, open_columns, spawn_columns, Canvas, MonitorRect, WindowRect, CANVAS_LIMIT,
};
use crate::random::in_draw_range;
use crate::step::{
    advance_flake, columns_inside, placed_x, stepped, windows_inside, x_in_columns, SINE_FULL,
};
use vstd::prelude::*;

verus! {

/// What drives the simulation: a frame tick at a time in microseconds on a
/// monotonic clock.
#[derive(Clone, Copy, Debug, PartialEq, Eq, Structural)]
pub enum Message {
    Tick(u64),
}

/// What the painter needs of a flake: position and radius in canvas-local
/// milli-pixels, opacity in per-mille.
#[derive(Clone, Copy, Debug, PartialEq, Eq, Structural)]
pub struct VisibleFlake {
    pub x: i64,
    pub y: i64,
    pub radius: i64,
    pub opacity: i64,
}

pub open spec fn look(f: Snowflake) -> VisibleFlake {
    VisibleFlake { x: f.x, y: f.y, radius: f.radius, opacity: f.opacity }
}

/// Monitor `m` shows a fullscreen window and `(x, y)` lies in its column:
/// across its width and above its bottom edge.
pub open spec fn occludes(m: MonitorRect, c: Canvas, x: int, y: int) -> bool {
    &&& m.has_fullscreen
    &&& c.local_x(m.x as int) <= x < c.local_x(m.x + m.width)
    &&& y < c.local_y(m.y + m.height)
}

/// Some monitor hides the point `(x, y)`.
pub open spec fn occluded(ms: Seq<MonitorRect>, c: Canvas, x: int, y: int) -> bool {
    exists|k: int| 0 <= k < ms.len() && occludes(#[trigger] ms[k], c, x, y)
}

/// The flakes that are painted, in pool order.
pub open spec fn visible(flakes: Seq<Snowflake>, ms: Seq<MonitorRect>, c: Canvas) -> Seq<VisibleFlake> {
    flakes.filter(|f: Snowflake| !occluded(ms, c, f.x as int, f.y as int)).map_values(
        |f: Snowflake| look(f),
    )
}

/// Time elapsed from `last` to `now`; a clock that went back counts as none.
pub open spec fn elapsed(now: u64, last: u64) -> u64 {
    if now >= last {
        (now - last) as u64
    } else {
        0
    }
}

/// `time` moved on by `dt`, stopping at the largest representable time.
pub open spec fn later(time: u64, dt: u64) -> u64 {
    if time + dt > u64::MAX {
        u64::MAX
    } else {
        (time + dt) as u64
    }
}

/// The sway angle, in micro-radians within one turn, of a flake of phase
/// `phase` at simulation time `time`: one radian per second plus the phase.
pub open spec fn sway_angle(time: u64, phase: int) -> int {
    (((time as int) % (TAU_URAD as int)) + phase) % (TAU_URAD as int)
}

/// A new flake for a grown pool: fresh, at a random height, inside an open
/// column when there is one.
pub open spec fn spawned(f: Snowflake, c: Canvas, config: SnowConfig, cols: Seq<(int, int)>) -> bool {
    &&& f.fresh(config)
    &&& in_draw_range(f.y as int, 0, c.floor())
    &&& placed_x(f.x as int, c, cols)
}

/// The configuration an event carries.
pub open spec fn event_config(e: ConfigEvent) -> SnowConfig {
    match e {
        ConfigEvent::ConfigChanged(c) => c,
    }
}

/// How many flakes at the front of the pool outlive a run of
/// reconfigurations: none beyond the smallest pool size along the way.
pub open spec fn kept_prefix(len: nat, events: Seq<ConfigEvent>) -> nat
    decreases events.len(),
{
    if events.len() == 0 {
        len
    } else {
        let before = kept_prefix(len, events.drop_last());
        let size = event_config(events.last()).pool_size();
        if size < before {
            size
        } else {
            before
        }
    }
}

/// The snow simulation: the flakes, the latest window and monitor geometry,
/// the clock and the configuration.
pub struct Waysnow {
    pub snowflakes: Vec<Snowflake>,
    pub windows: Vec<WindowRect>,
    pub monitors: Vec<MonitorRect>,
    /// Time of the last tick, in microseconds on the caller's clock.
    pub last_tick: u64,
    /// Simulation time, in microseconds.
    pub time: u64,
    pub canvas: Canvas,
    pub config: SnowConfig,
}

impl Waysnow {
    pub open spec fn wf(&self) -> bool {
        &&& self.canvas.wf()
        &&& self.config.wf()
        &&& forall|i: int| 0 <= i < self.snowflakes@.len() ==> (#[trigger] self.snowflakes@[i]).wf()
    }

    /// Every flake is within the canvas horizontally.
    pub open spec fn flakes_in_canvas(&self) -> bool {
        forall|i: int|
            0 <= i < self.snowflakes@.len() ==> 0 <= (#[trigger] self.snowflakes@[i]).x
                < self.canvas.span_x()
    }

    /// Windows and open monitor columns lie across the canvas.
    pub open spec fn geometry_inside(&self) -> bool {
        &&& windows_inside(self.windows@, self.canvas)
        &&& columns_inside(open_columns(self.monitors@, self.canvas), self.canvas)
    }

    /// Where a new flake may appear.
    pub open spec fn columns(&self) -> Seq<(int, int)> {
        open_columns(self.monitors@, self.canvas)
    }

    /// A simulation over the canvas spanned by `bounds`, with a full pool of
    /// fresh flakes spread over the whole canvas.
    pub fn new(
        config: SnowConfig,
        bounds: (i64, i64, i64, i64),
        windows: Vec<WindowRect>,
        monitors: Vec<MonitorRect>,
        now: u64,
    ) -> (s: Waysnow)
        requires
            config.wf(),
            -CANVAS_LIMIT / 2 <= bounds.0 <= CANVAS_LIMIT / 2,
            -CANVAS_LIMIT / 2 <= bounds.1 <= CANVAS_LIMIT / 2,
            -CANVAS_LIMIT / 2 <= bounds.2 <= CANVAS_LIMIT / 2,
            -CANVAS_LIMIT / 2 <= bounds.3 <= CANVAS_LIMIT / 2,
        ensures
            s.wf(),
            s.canvas == (Canvas {
                offset_x: bounds.0,
                offset_y: bounds.1,
                width: (bounds.2 - bounds.0) as i64,
                height: (bounds.3 - bounds.1) as i64,
            }),
            s.config == config,
            s.windows@ == windows@,
            s.monitors@ == monitors@,
            s.time == 0,
            s.last_tick == now,
            s.snowflakes@.len() == config.pool_size(),
            forall|i: int|
                0 <= i < s.snowflakes@.len() ==> (#[trigger] s.snowflakes@[i]).fresh(config)
                    && in_draw_range(s.snowflakes@[i].x as int, 0, s.canvas.span_x())
                    && in_draw_range(s.snowflakes@[i].y as int, 0, s.canvas.floor()),
            s.canvas.span_x() > 0 ==> s.flakes_in_canvas(),
    {
        let canvas = Canvas::from_bounds(bounds);
        let count = config.flake_count();
        let mut snowflakes: Vec<Snowflake> = Vec::new();
        let mut i: usize = 0;
        while i < count
            invariant
                i <= count,
                count == config.pool_size(),
                config.wf(),
                canvas.wf(),
                snowflakes@.len() == i,
                forall|j: int|
                    0 <= j < i ==> (#[trigger] snowflakes@[j]).wf() && snowflakes@[j].fresh(config)
                        && in_draw_range(snowflakes@[j].x as int, 0, canvas.span_x())
                        && in_draw_range(snowflakes@[j].y as int, 0, canvas.floor()),
            decreases count - i,
        {
            let f = Snowflake::new(canvas.width, canvas.height, &config);
            snowflakes.push(f);
            i = i + 1;
        }
        Waysnow { snowflakes, windows, monitors, last_tick: now, time: 0, canvas, config }
    }

    /// The sway angle of each flake at the tick `now`, in micro-radians
    /// within one turn, in pool order. The caller takes their sines for
    /// `update`.
    pub fn sway_angles(&self, now: u64) -> (r: Vec<i64>)
        requires
            self.wf(),
        ensures
            r@.len() == self.snowflakes@.len(),
            forall|i: int|
                0 <= i < r@.len() ==> #[trigger] r@[i] == sway_angle(
                    later(self.time, elapsed(now, self.last_tick)),
                    self.snowflakes@[i].phase as int,
                ),
    {
        let dt = now.saturating_sub(self.last_tick);
        let t = self.time.saturating_add(dt);
        let base = (t % TAU_URAD as u64) as i64;
        let mut r: Vec<i64> = Vec::new();
        let mut i: usize = 0;
        while i < self.snowflakes.len()
            invariant
                i <= self.snowflakes@.len(),
                self.wf(),
                t == later(self.time, elapsed(now, self.last_tick)),
                base == (t as int) % (TAU_URAD as int),
                r@.len() == i,
                forall|j: int|
                    0 <= j < i ==> #[trigger] r@[j] == sway_angle(t, self.snowflakes@[j].phase as int),
            decreases self.snowflakes@.len() - i,
        {
            let phase = self.snowflakes[i].phase;
            assert(self.snowflakes@[i as int].wf());
            r.push((base + phase) % TAU_URAD);
            i = i + 1;
        }
        r
    }

    /// Advances every flake by the time since the last tick. `sines` holds,
    /// for each flake in pool order, the sine of its sway angle (see
    /// `sway_angles`) in per-mille.
    pub fn update(&mut self, message: Message, sines: &Vec<i64>)
        requires
            old(self).wf(),
            sines@.len() == old(self).snowflakes@.len(),
            forall|i: int| 0 <= i < sines@.len() ==> -SINE_FULL <= #[trigger] sines@[i] <= SINE_FULL,
        ensures
            final(self).wf(),
            final(self).snowflakes@.len() == old(self).snowflakes@.len(),
            final(self).windows == old(self).windows,
            final(self).monitors == old(self).monitors,
            final(self).canvas == old(self).canvas,
            final(self).config == old(self).config,
            message matches Message::Tick(now) && {
                let dt = elapsed(now, old(self).last_tick);
                &&& final(self).last_tick == now
                &&& final(self).time == later(old(self).time, dt)
                &&& forall|i: int|
                    0 <= i < old(self).snowflakes@.len() ==> stepped(
                        #[trigger] old(self).snowflakes@[i],
                        final(self).snowflakes@[i],
                        dt as int,
                        sines@[i] as int,
                        old(self).windows@,
                        old(self).canvas,
                        old(self).config,
                        old(self).columns(),
                    )
            },
            old(self).flakes_in_canvas() && old(self).geometry_inside()
                ==> final(self).flakes_in_canvas(),
    {
        match message {
            Message::Tick(now) => {
                let dt = now.saturating_sub(self.last_tick);
                self.last_tick = now;
                self.time = self.time.saturating_add(dt);
                let cols = spawn_columns(&self.monitors, &self.canvas);
                let ghost before = self.snowflakes@;
                let mut i: usize = 0;
                while i < self.snowflakes.len()
                    invariant
                        i <= self.snowflakes@.len(),
                        self.wf(),
                        self.windows == old(self).windows,
                        self.monitors == old(self).monitors,
                        self.canvas == old(self).canvas,
                        self.config == old(self).config,
                        self.time == later(old(self).time, dt),
                        self.last_tick == now,
                        dt == elapsed(now, old(self).last_tick),
                        before == old(self).snowflakes@,
                        self.snowflakes@.len() == before.len(),
                        sines@.len() == before.len(),
                        forall|j: int|
                            0 <= j < sines@.len() ==> -SINE_FULL <= #[trigger] sines@[j]
                                <= SINE_FULL,
                        columns_view(cols@) == open_columns(self.monitors@, self.canvas),
                        forall|k: int|
                            0 <= k < cols@.len() ==> -4 * CANVAS_LIMIT * 1000 <= #[trigger] cols@[k].0
                                <= 4 * CANVAS_LIMIT * 1000 && -4 * CANVAS_LIMIT * 1000
                                <= cols@[k].1 <= 4 * CANVAS_LIMIT * 1000,
                        forall|j: int| i <= j < before.len() ==> self.snowflakes@[j] == before[j],
                        forall|j: int|
                            0 <= j < i ==> stepped(
                                #[trigger] before[j],
                                self.snowflakes@[j],
                                dt as int,
                                sines@[j] as int,
                                self.windows@,
                                self.canvas,
                                self.config,
                                columns_view(cols@),
                            ),
                        (forall|j: int|
                            0 <= j < before.len() ==> 0 <= (#[trigger] before[j]).x
                                < self.canvas.span_x()) && windows_inside(self.windows@, self.canvas)
                            && columns_inside(columns_view(cols@), self.canvas) ==> forall|j: int|
                            0 <= j < i ==> 0 <= (#[trigger] self.snowflakes@[j]).x
                                < self.canvas.span_x(),
                    decreases before.len() - i,
                {
                    let mut f = self.snowflakes[i];
                    assert(f.wf());
                    assert(f == before[i as int]);
                    advance_flake(
                        &mut f,
                        dt,
                        sines[i],
                        &self.windows,
                        &self.canvas,
                        &self.config,
                        &cols,
                    );
                    self.snowflakes.set(i, f);
                    proof {
                        if forall|j: int|
                            0 <= j < before.len() ==> 0 <= (#[trigger] before[j]).x
                                < self.canvas.span_x() {
                            assert(0 <= before[i as int].x < self.canvas.span_x());
                        }
                    }
                    i = i + 1;
                }
            },
        }
    }

    /// Replaces the window and monitor geometry; the flakes are untouched.
    pub fn refresh_geometry(&mut self, windows: Vec<WindowRect>, monitors: Vec<MonitorRect>)
        ensures
            final(self).windows@ == windows@,
            final(self).monitors@ == monitors@,
            final(self).snowflakes == old(self).snowflakes,
            final(self).canvas == old(self).canvas,
            final(self).config == old(self).config,
            final(self).time == old(self).time,
            final(self).last_tick == old(self).last_tick,
    {
        self.windows = windows;
        self.monitors = monitors;
    }

    /// Takes on a new configuration. The pool grows by fresh flakes placed
    /// in the open columns, or shrinks from its end, to the new pool size;
    /// flakes that stay keep what they were drawn with until they next melt.
    pub fn apply_config(&mut self, config: SnowConfig)
        requires
            old(self).wf(),
            config.wf(),
        ensures
            final(self).wf(),
            final(self).config == config,
            final(self).snowflakes@.len() == config.pool_size(),
            config.pool_size() == old(self).snowflakes@.len() ==> final(self).snowflakes@
                == old(self).snowflakes@,
            config.pool_size() <= old(self).snowflakes@.len() ==> final(self).snowflakes@
                == old(self).snowflakes@.take(config.pool_size() as int),
            config.pool_size() >= old(self).snowflakes@.len() ==> final(self).snowflakes@.take(
                old(self).snowflakes@.len() as int,
            ) == old(self).snowflakes@,
            forall|i: int|
                old(self).snowflakes@.len() <= i < final(self).snowflakes@.len() ==> spawned(
                    #[trigger] final(self).snowflakes@[i],
                    old(self).canvas,
                    config,
                    old(self).columns(),
                ),
            final(self).windows == old(self).windows,
            final(self).monitors == old(self).monitors,
            final(self).canvas == old(self).canvas,
            final(self).time == old(self).time,
            final(self).last_tick == old(self).last_tick,
            old(self).flakes_in_canvas() && old(self).geometry_inside() && old(self).canvas.span_x()
                > 0 ==> final(self).flakes_in_canvas(),
    {
        let size = config.flake_count();
        let old_len = self.snowflakes.len();
        let ghost before = self.snowflakes@;
        if size < old_len {
            self.snowflakes.truncate(size);
            assert(self.snowflakes@ =~= before.take(size as int));
        } else if size == old_len {
            assert(before.take(size as int) =~= before);
        } else if size > old_len {
            let cols = spawn_columns(&self.monitors, &self.canvas);
            let mut i: usize = old_len;
            while i < size
                invariant
                    old_len <= i <= size,
                    size == config.pool_size(),
                    self.windows == old(self).windows,
                    self.monitors == old(self).monitors,
                    self.canvas == old(self).canvas,
                    self.config == old(self).config,
                    self.time == old(self).time,
                    self.last_tick == old(self).last_tick,
                    before == old(self).snowflakes@,
                    before.len() == old_len,
                    self.wf(),
                    config.wf(),
                    self.snowflakes@.len() == i,
                    self.snowflakes@.take(old_len as int) == before,
                    columns_view(cols@) == open_columns(self.monitors@, self.canvas),
                    forall|k: int|
                        0 <= k < cols@.len() ==> -4 * CANVAS_LIMIT * 1000 <= #[trigger] cols@[k].0
                            <= 4 * CANVAS_LIMIT * 1000 && -4 * CANVAS_LIMIT * 1000 <= cols@[k].1
                            <= 4 * CANVAS_LIMIT * 1000,
                    forall|j: int|
                        old_len <= j < i ==> spawned(
                            #[trigger] self.snowflakes@[j],
                            self.canvas,
                            config,
                            columns_view(cols@),
                        ),
                    (forall|j: int| 0 <= j < old_len ==> 0 <= (#[trigger] before[j]).x
                        < self.canvas.span_x()) && columns_inside(columns_view(cols@), self.canvas)
                        && self.canvas.span_x() > 0 ==> forall|j: int|
                        0 <= j < i ==> 0 <= (#[trigger] self.snowflakes@[j]).x
                            < self.canvas.span_x(),
                decreases size - i,
            {
                let mut f = Snowflake::new(self.canvas.width, self.canvas.height, &config);
                if cols.len() > 0 {
                    f.x = x_in_columns(&cols);
                }
                proof {
                    if columns_inside(columns_view(cols@), self.canvas) && cols@.len() > 0 {
                        let k = choose|k: int|
                            0 <= k < cols@.len() && in_draw_range(
                                f.x as int,
                                columns_view(cols@)[k].0,
                                columns_view(cols@)[k].1,
                            );
                        assert(columns_view(cols@)[k] == (cols@[k].0 as int, cols@[k].1 as int));
                    }
                }
                let ghost prev = self.snowflakes@;
                self.snowflakes.push(f);
                assert(self.snowflakes@.take(old_len as int) =~= prev.take(old_len as int));
                i = i + 1;
            }
        }
        self.config = config;
    }

    /// Applies what arrived since the last frame: the geometry fetched after
    /// window-manager notifications, if there were any, then each reloaded
    /// configuration in turn.
    pub fn reconcile(
        &mut self,
        geometry: Option<(Vec<WindowRect>, Vec<MonitorRect>)>,
        events: Vec<ConfigEvent>,
    )
        requires
            old(self).wf(),
            forall|i: int| 0 <= i < events@.len() ==> event_config(#[trigger] events@[i]).wf(),
        ensures
            final(self).wf(),
            geometry matches Some((w, m)) ==> final(self).windows@ == w@ && final(self).monitors@
                == m@,
            geometry is None ==> final(self).windows == old(self).windows && final(self).monitors
                == old(self).monitors,
            events@.len() == 0 ==> final(self).snowflakes@ == old(self).snowflakes@
                && final(self).config == old(self).config,
            events@.len() > 0 ==> final(self).config == event_config(events@.last())
                && final(self).snowflakes@.len() == event_config(events@.last()).pool_size(),
            forall|i: int|
                0 <= i < kept_prefix(old(self).snowflakes@.len(), events@)
                    ==> #[trigger] final(self).snowflakes@[i] == old(self).snowflakes@[i],
            final(self).canvas == old(self).canvas,
            final(self).time == old(self).time,
            final(self).last_tick == old(self).last_tick,
            old(self).flakes_in_canvas() && final(self).geometry_inside()
                && old(self).canvas.span_x() > 0 ==> final(self).flakes_in_canvas(),
    {
        if let Some((windows, monitors)) = geometry {
            self.refresh_geometry(windows, monitors);
        }
        assert(self.snowflakes@ == old(self).snowflakes@);
        let ghost before = self.snowflakes@;
        let mut i: usize = 0;
        while i < events.len()
            invariant
                i <= events@.len(),
                self.wf(),
                forall|j: int| 0 <= j < events@.len() ==> event_config(#[trigger] events@[j]).wf(),
                geometry matches Some((w, m)) ==> self.windows@ == w@ && self.monitors@ == m@,
                geometry is None ==> self.windows == old(self).windows
                    && self.monitors == old(self).monitors,
                i == 0 ==> self.snowflakes@ == before && self.config == old(self).config,
                i > 0 ==> self.config == event_config(events@[i - 1])
                    && self.snowflakes@.len() == event_config(events@[i - 1]).pool_size(),
                kept_prefix(before.len(), events@.take(i as int)) <= self.snowflakes@.len(),
                kept_prefix(before.len(), events@.take(i as int)) <= before.len(),
                forall|j: int|
                    0 <= j < kept_prefix(before.len(), events@.take(i as int)) ==> #[trigger] self.snowflakes@[j]
                        == before[j],
                self.canvas == old(self).canvas,
                self.time == old(self).time,
                self.last_tick == old(self).last_tick,
                before == old(self).snowflakes@,
                old(self).flakes_in_canvas() && self.geometry_inside() && self.canvas.span_x() > 0
                    ==> self.flakes_in_canvas(),
            decreases events@.len() - i,
        {
            let ConfigEvent::ConfigChanged(config) = events[i];
            let ghost prev = self.snowflakes@;
            self.apply_config(config);
            proof {
                assert(events@.take(i + 1).drop_last() =~= events@.take(i as int));
                assert forall|j: int|
                    0 <= j < kept_prefix(
                        before.len(),
                        events@.take(i + 1),
                    ) implies #[trigger] self.snowflakes@[j] == before[j] by {
                    if config.pool_size() <= prev.len() {
                        assert(self.snowflakes@[j] == prev.take(config.pool_size() as int)[j]);
                    } else {
                        assert(self.snowflakes@[j] == self.snowflakes@.take(prev.len() as int)[j]);
                    }
                }
            }
            i = i + 1;
        }
        proof {
            assert(events@.take(events@.len() as int) =~= events@);
        }
    }

    /// Whether the point `(x, y)` lies in the column of a monitor that shows
    /// a fullscreen window.
    pub fn is_in_fullscreen_monitor(&self, x: i64, y: i64) -> (r: bool)
        requires
            self.canvas.wf(),
        ensures
            r == occluded(self.monitors@, self.canvas, x as int, y as int),
    {
        let mut i: usize = 0;
        while i < self.monitors.len()
            invariant
                i <= self.monitors@.len(),
                self.canvas.wf(),
                forall|j: int|
                    0 <= j < i ==> !occludes(#[trigger] self.monitors@[j], self.canvas, x as int, y as int),
            decreases self.monitors@.len() - i,
        {
            let m = self.monitors[i];
            let left = self.canvas.to_local_x(m.x as i64);
            let right = self.canvas.to_local_x(m.x as i64 + m.width as i64);
            let bottom = self.canvas.to_local_y(m.y as i64 + m.height as i64);
            if m.has_fullscreen && x >= left && x < right && y < bottom {
                assert(occludes(self.monitors@[i as int], self.canvas, x as int, y as int));
                return true;
            }
            i = i + 1;
        }
        false
    }

    /// The flakes to paint this frame, in pool order: all but those in the
    /// column of a fullscreen monitor.
    pub fn visible_particles(&self) -> (r: Vec<VisibleFlake>)
        requires
            self.canvas.wf(),
        ensures
            r@ == visible(self.snowflakes@, self.monitors@, self.canvas),
    {
        let mut out: Vec<VisibleFlake> = Vec::new();
        let mut i: usize = 0;
        while i < self.snowflakes.len()
            invariant
                i <= self.snowflakes@.len(),
                self.canvas.wf(),
                out@ == visible(self.snowflakes@.take(i as int), self.monitors@, self.canvas),
            decreases self.snowflakes@.len() - i,
        {
            let f = self.snowflakes[i];
            let hidden = self.is_in_fullscreen_monitor(f.x, f.y);
            proof {
                let p = |f: Snowflake| !occluded(self.monitors@, self.canvas, f.x as int, f.y as int);
                let g = |f: Snowflake| look(f);
                assert(self.snowflakes@.take(i + 1).drop_last() =~= self.snowflakes@.take(i as int));
                reveal(Seq::filter);
                assert(self.snowflakes@.take(i + 1).filter(p) == if p(f) {
                    self.snowflakes@.take(i as int).filter(p).push(f)
                } else {
                    self.snowflakes@.take(i as int).filter(p)
                });
                assert(self.snowflakes@.take(i as int).filter(p).push(f).map_values(g)
                    =~= self.snowflakes@.take(i as int).filter(p).map_values(g).push(g(f)));
            }
            if !hidden {
                out.push(VisibleFlake { x: f.x, y: f.y, radius: f.radius, opacity: f.opacity });
            }
            i = i + 1;
        }
        proof {
            assert(self.snowflakes@.take(self.snowflakes@.len() as int) =~= self.snowflakes@);
        }
        out
    }
}

/// A flake in the column of a monitor that shows a fullscreen window is left
/// out of what is painted; hiding it touches no flake, since the painted set
/// is computed from the pool without changing it.
pub proof fn occlusion_hides_column(
    flakes: Seq<Snowflake>,
    ms: Seq<MonitorRect>,
    c: Canvas,
    i: int,
    k: int,
)
    requires
        0 <= i < flakes.len(),
        0 <= k < ms.len(),
        ms[k].has_fullscreen,
        c.local_x(ms[k].x as int) <= flakes[i].x < c.local_x(ms[k].x + ms[k].width),
        flakes[i].y < c.local_y(ms[k].y + ms[k].height),
    ensures
        !visible(flakes, ms, c).contains(look(flakes[i])),
        visible(flakes, ms, c).len() <= flakes.len(),
{
    let p = |f: Snowflake| !occluded(ms, c, f.x as int, f.y as int);
    let g = |f: Snowflake| look(f);
    let shown = flakes.filter(p);
    assert(occludes(ms[k], c, flakes[i].x as int, flakes[i].y as int));
    flakes.filter_lemma(p);
    if visible(flakes, ms, c).contains(look(flakes[i])) {
        let j = choose|j: int|
            0 <= j < visible(flakes, ms, c).len() && visible(flakes, ms, c)[j] == look(flakes[i]);
        assert(visible(flakes, ms, c)[j] == g(shown[j]));
        assert(p(shown[j]));
        assert(shown[j].x == flakes[i].x && shown[j].y == flakes[i].y);
    }
}

} // verus!
