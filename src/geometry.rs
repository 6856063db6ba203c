use vstd::prelude::*;

verus! {

/// Milli-pixels in one pixel.
pub const MPX: i64 = 1000;

/// Bound on pixel coordinates of the canvas origin and on its extent.
pub const CANVAS_LIMIT: i64 = 17179869184;

/// Extent used when the compositor reports no monitor.
pub const FALLBACK_WIDTH: i64 = 1920;

pub const FALLBACK_HEIGHT: i64 = 1080;

/// One window of the active workspace, in global compositor pixels.
/// `address` stays the same for the lifetime of the window.
#[derive(Clone, Copy, Debug, PartialEq, Eq, Structural)]
pub struct WindowRect {
    pub address: u64,
    pub x: i32,
    pub y: i32,
    pub width: i32,
}

/// One monitor, in global compositor pixels, and whether its active
/// workspace shows a fullscreen window.
#[derive(Clone, Copy, Debug, PartialEq, Eq, Structural)]
pub struct MonitorRect {
    pub x: i32,
    pub y: i32,
    pub width: i32,
    pub height: i32,
    pub has_fullscreen: bool,
}

/// A client as the compositor lists it, with the workspace it sits on.
#[derive(Clone, Copy, Debug, PartialEq, Eq, Structural)]
pub struct ClientRect {
    pub address: u64,
    pub x: i32,
    pub y: i32,
    pub width: i32,
    pub workspace: i32,
}

/// A monitor as the compositor lists it, with its active workspace.
#[derive(Clone, Copy, Debug, PartialEq, Eq, Structural)]
pub struct MonitorState {
    pub x: i32,
    pub y: i32,
    pub width: i32,
    pub height: i32,
    pub active_workspace: i32,
}

/// A workspace and whether it currently shows a fullscreen window.
#[derive(Clone, Copy, Debug, PartialEq, Eq, Structural)]
pub struct WorkspaceState {
    pub id: i32,
    pub fullscreen: bool,
}

/// Notification that the window layout may have changed.
#[derive(Clone, Copy, Debug, PartialEq, Eq, Structural)]
pub enum HyprlandEvent {
    WindowsChanged,
}

/// The virtual canvas: the bounding box of all monitors. `offset_x` and
/// `offset_y` are its top-left corner in global pixels; local coordinates
/// start there.
#[derive(Clone, Copy, Debug, PartialEq, Eq, Structural)]
pub struct Canvas {
    pub offset_x: i64,
    pub offset_y: i64,
    pub width: i64,
    pub height: i64,
}

impl Canvas {
    pub open spec fn wf(&self) -> bool {
        -CANVAS_LIMIT <= self.offset_x <= CANVAS_LIMIT
        && -CANVAS_LIMIT <= self.offset_y <= CANVAS_LIMIT
        && -CANVAS_LIMIT <= self.width <= CANVAS_LIMIT
        && -CANVAS_LIMIT <= self.height <= CANVAS_LIMIT
    }

    /// Local horizontal position, in milli-pixels, of global pixel column `gx`.
    pub open spec fn local_x(&self, gx: int) -> int {
        (gx - self.offset_x) * MPX
    }

    /// Local vertical position, in milli-pixels, of global pixel row `gy`.
    pub open spec fn local_y(&self, gy: int) -> int {
        (gy - self.offset_y) * MPX
    }

    /// Width in milli-pixels.
    pub open spec fn span_x(&self) -> int {
        self.width * MPX
    }

    /// Height in milli-pixels: the floor that flakes settle on.
    pub open spec fn floor(&self) -> int {
        self.height * MPX
    }

    /// The canvas spanned by `bounds = (min_x, min_y, max_x, max_y)`.
    pub fn from_bounds(bounds: (i64, i64, i64, i64)) -> (c: Canvas)
        requires
            -CANVAS_LIMIT / 2 <= bounds.0 <= CANVAS_LIMIT / 2,
            -CANVAS_LIMIT / 2 <= bounds.1 <= CANVAS_LIMIT / 2,
            -CANVAS_LIMIT / 2 <= bounds.2 <= CANVAS_LIMIT / 2,
            -CANVAS_LIMIT / 2 <= bounds.3 <= CANVAS_LIMIT / 2,
        ensures
            c.wf(),
            c.offset_x == bounds.0,
            c.offset_y == bounds.1,
            c.width == bounds.2 - bounds.0,
            c.height == bounds.3 - bounds.1,
    {
        Canvas {
            offset_x: bounds.0,
            offset_y: bounds.1,
            width: bounds.2 - bounds.0,
            height: bounds.3 - bounds.1,
        }
    }

    /// Local milli-pixel position of global pixel column `gx`.
    pub fn to_local_x(&self, gx: i64) -> (r: i64)
        requires
            self.wf(),
            -2 * CANVAS_LIMIT <= gx <= 2 * CANVAS_LIMIT,
        ensures
            r == self.local_x(gx as int),
    {
        (gx - self.offset_x) * MPX
    }

    /// Local milli-pixel position of global pixel row `gy`.
    pub fn to_local_y(&self, gy: i64) -> (r: i64)
        requires
            self.wf(),
            -2 * CANVAS_LIMIT <= gy <= 2 * CANVAS_LIMIT,
        ensures
            r == self.local_y(gy as int),
    {
        (gy - self.offset_y) * MPX
    }
}

/// Smallest left edge over the monitors.
pub open spec fn left_edge(ms: Seq<MonitorRect>) -> int
    decreases ms.len(),
{
    if ms.len() == 0 {
        i32::MAX as int
    } else {
        let rest = left_edge(ms.drop_last());
        if ms.last().x < rest { ms.last().x as int } else { rest }
    }
}

/// Smallest top edge over the monitors.
pub open spec fn top_edge(ms: Seq<MonitorRect>) -> int
    decreases ms.len(),
{
    if ms.len() == 0 {
        i32::MAX as int
    } else {
        let rest = top_edge(ms.drop_last());
        if ms.last().y < rest { ms.last().y as int } else { rest }
    }
}

/// Largest right edge over the monitors.
pub open spec fn right_edge(ms: Seq<MonitorRect>) -> int
    decreases ms.len(),
{
    if ms.len() == 0 {
        i32::MIN as int
    } else {
        let rest = right_edge(ms.drop_last());
        let e = ms.last().x + ms.last().width;
        if e > rest { e } else { rest }
    }
}

/// Largest bottom edge over the monitors.
pub open spec fn bottom_edge(ms: Seq<MonitorRect>) -> int
    decreases ms.len(),
{
    if ms.len() == 0 {
        i32::MIN as int
    } else {
        let rest = bottom_edge(ms.drop_last());
        let e = ms.last().y + ms.last().height;
        if e > rest { e } else { rest }
    }
}

proof fn lemma_edges_bounded(ms: Seq<MonitorRect>)
    ensures
        i32::MIN <= left_edge(ms) <= i32::MAX,
        i32::MIN <= top_edge(ms) <= i32::MAX,
        2 * (i32::MIN as int) <= right_edge(ms) <= 2 * (i32::MAX as int),
        2 * (i32::MIN as int) <= bottom_edge(ms) <= 2 * (i32::MAX as int),
    decreases ms.len(),
{
    if ms.len() > 0 {
        lemma_edges_bounded(ms.drop_last());
    }
}

/// The bounding box `(min_x, min_y, max_x, max_y)` of all monitors in global
/// pixels, or the fallback extent when there is none.
pub fn get_total_screen_bounds(monitors: &Vec<MonitorRect>) -> (r: (i64, i64, i64, i64))
    ensures
        monitors@.len() == 0 ==> r == (0i64, 0i64, FALLBACK_WIDTH, FALLBACK_HEIGHT),
        monitors@.len() > 0 ==> r.0 == left_edge(monitors@) && r.1 == top_edge(monitors@)
            && r.2 == right_edge(monitors@) && r.3 == bottom_edge(monitors@),
        -CANVAS_LIMIT / 2 <= r.0 <= CANVAS_LIMIT / 2,
        -CANVAS_LIMIT / 2 <= r.1 <= CANVAS_LIMIT / 2,
        -CANVAS_LIMIT / 2 <= r.2 <= CANVAS_LIMIT / 2,
        -CANVAS_LIMIT / 2 <= r.3 <= CANVAS_LIMIT / 2,
{
    let mut min_x: i64 = i32::MAX as i64;
    let mut min_y: i64 = i32::MAX as i64;
    let mut max_x: i64 = i32::MIN as i64;
    let mut max_y: i64 = i32::MIN as i64;
    let mut i: usize = 0;
    while i < monitors.len()
        invariant
            i <= monitors@.len(),
            min_x == left_edge(monitors@.take(i as int)),
            min_y == top_edge(monitors@.take(i as int)),
            max_x == right_edge(monitors@.take(i as int)),
            max_y == bottom_edge(monitors@.take(i as int)),
        decreases monitors@.len() - i,
    {
        proof {
            lemma_edges_bounded(monitors@.take(i as int));
            assert(monitors@.take(i + 1).drop_last() =~= monitors@.take(i as int));
        }
        let m = monitors[i];
        if (m.x as i64) < min_x {
            min_x = m.x as i64;
        }
        if (m.y as i64) < min_y {
            min_y = m.y as i64;
        }
        if m.x as i64 + m.width as i64 > max_x {
            max_x = m.x as i64 + m.width as i64;
        }
        if m.y as i64 + m.height as i64 > max_y {
            max_y = m.y as i64 + m.height as i64;
        }
        i = i + 1;
    }
    proof {
        assert(monitors@.take(monitors@.len() as int) =~= monitors@);
        lemma_edges_bounded(monitors@);
    }
    if monitors.len() == 0 {
        return (0, 0, FALLBACK_WIDTH, FALLBACK_HEIGHT);
    }
    (min_x, min_y, max_x, max_y)
}

/// The windows of the active workspace, in the order the compositor lists
/// them. No workspace or no client list gives no window.
pub open spec fn windows_on(clients: Seq<ClientRect>, ws: int) -> Seq<WindowRect> {
    clients.filter(|c: ClientRect| c.workspace == ws).map_values(
        |c: ClientRect| WindowRect { address: c.address, x: c.x, y: c.y, width: c.width },
    )
}

/// Keeps the clients that sit on the active workspace, as window rectangles.
pub fn get_hyprland_windows(active_workspace: Option<i32>, clients: Option<&Vec<ClientRect>>) -> (r:
    Vec<WindowRect>)
    ensures
        active_workspace.is_none() || clients.is_none() ==> r@.len() == 0,
        active_workspace.is_some() && clients.is_some() ==> r@ == windows_on(
            clients.unwrap()@,
            active_workspace.unwrap() as int,
        ),
{
    let mut out: Vec<WindowRect> = Vec::new();
    match (active_workspace, clients) {
        (Some(ws), Some(cs)) => {
            let mut i: usize = 0;
            while i < cs.len()
                invariant
                    i <= cs@.len(),
                    out@ == windows_on(cs@.take(i as int), ws as int),
                decreases cs@.len() - i,
            {
                let c = cs[i];
                proof {
                    let f = |c: ClientRect| c.workspace == ws as int;
                    assert(cs@.take(i + 1).drop_last() =~= cs@.take(i as int));
                    reveal(Seq::filter);
                    assert(cs@.take(i + 1).filter(f) == if f(c) {
                        cs@.take(i as int).filter(f).push(c)
                    } else {
                        cs@.take(i as int).filter(f)
                    });
                }
                if c.workspace == ws {
                    out.push(WindowRect { address: c.address, x: c.x, y: c.y, width: c.width });
                    proof {
                        let f = |c: ClientRect| c.workspace == ws as int;
                        let g = |c: ClientRect|
                            WindowRect { address: c.address, x: c.x, y: c.y, width: c.width };
                        assert(cs@.take(i as int).filter(f).push(c).map_values(g) =~= cs@.take(
                            i as int,
                        ).filter(f).map_values(g).push(g(c)));
                    }
                }
                i = i + 1;
            }
            proof {
                assert(cs@.take(cs@.len() as int) =~= cs@);
            }
            out
        },
        _ => out,
    }
}

/// Whether the workspace `id` shows a fullscreen window: the flag of the first
/// workspace listed with that id, or `false` when none is.
pub open spec fn fullscreen_of(ws: Seq<WorkspaceState>, id: int) -> bool
    decreases ws.len(),
{
    if ws.len() == 0 {
        false
    } else if ws[0].id == id {
        ws[0].fullscreen
    } else {
        fullscreen_of(ws.drop_first(), id)
    }
}

/// The monitor rectangles with their fullscreen flags.
pub open spec fn monitors_with_state(ms: Seq<MonitorState>, ws: Option<Seq<WorkspaceState>>) -> Seq<
    MonitorRect,
> {
    ms.map_values(
        |m: MonitorState|
            MonitorRect {
                x: m.x,
                y: m.y,
                width: m.width,
                height: m.height,
                has_fullscreen: match ws {
                    Some(w) => fullscreen_of(w, m.active_workspace as int),
                    None => false,
                },
            },
    )
}

fn workspace_fullscreen(ws: &Vec<WorkspaceState>, id: i32) -> (r: bool)
    ensures
        r == fullscreen_of(ws@, id as int),
{
    let mut i: usize = 0;
    proof {
        assert(ws@.skip(0) =~= ws@);
    }
    while i < ws.len()
        invariant
            i <= ws@.len(),
            fullscreen_of(ws@, id as int) == fullscreen_of(ws@.skip(i as int), id as int),
        decreases ws@.len() - i,
    {
        proof {
            assert(ws@.skip(i as int).drop_first() =~= ws@.skip(i + 1));
        }
        if ws[i].id == id {
            return ws[i].fullscreen;
        }
        i = i + 1;
    }
    false
}

/// Pairs each monitor with the fullscreen flag of its active workspace.
/// Without a monitor list there is no monitor; without a workspace list no
/// monitor is fullscreen.
pub fn get_monitors_with_fullscreen_state(
    monitors: Option<&Vec<MonitorState>>,
    workspaces: Option<&Vec<WorkspaceState>>,
) -> (r: Vec<MonitorRect>)
    ensures
        monitors.is_none() ==> r@.len() == 0,
        monitors.is_some() ==> r@ == monitors_with_state(
            monitors.unwrap()@,
            match workspaces {
                Some(w) => Some(w@),
                None => None,
            },
        ),
{
    let mut out: Vec<MonitorRect> = Vec::new();
    match monitors {
        None => out,
        Some(ms) => {
            let ghost wsv = match workspaces {
                Some(w) => Some(w@),
                None => None::<Seq<WorkspaceState>>,
            };
            let mut i: usize = 0;
            while i < ms.len()
                invariant
                    i <= ms@.len(),
                    wsv == match workspaces {
                        Some(w) => Some(w@),
                        None => None,
                    },
                    out@ =~= monitors_with_state(ms@.take(i as int), wsv),
                decreases ms@.len() - i,
            {
                let m = ms[i];
                let has_fullscreen = match workspaces {
                    Some(w) => workspace_fullscreen(w, m.active_workspace),
                    None => false,
                };
                out.push(
                    MonitorRect {
                        x: m.x,
                        y: m.y,
                        width: m.width,
                        height: m.height,
                        has_fullscreen,
                    },
                );
                proof {
                    assert(ms@.take(i + 1) =~= ms@.take(i as int).push(m));
                }
                i = i + 1;
            }
            proof {
                assert(ms@.take(ms@.len() as int) =~= ms@);
            }
            out
        },
    }
}

/// The horizontal span, in local milli-pixels, of a monitor's column.
pub open spec fn column_of(m: MonitorRect, c: Canvas) -> (int, int) {
    (c.local_x(m.x as int), c.local_x(m.x + m.width))
}

/// The columns of the monitors that show no fullscreen window: where a new
/// flake may appear.
pub open spec fn open_columns(ms: Seq<MonitorRect>, c: Canvas) -> Seq<(int, int)> {
    ms.filter(|m: MonitorRect| !m.has_fullscreen).map_values(|m: MonitorRect| column_of(m, c))
}

/// The columns as integers.
pub open spec fn columns_view(cols: Seq<(i64, i64)>) -> Seq<(int, int)> {
    cols.map_values(|p: (i64, i64)| (p.0 as int, p.1 as int))
}

/// Computes the open columns of `monitors` on `canvas`.
pub fn spawn_columns(monitors: &Vec<MonitorRect>, canvas: &Canvas) -> (r: Vec<(i64, i64)>)
    requires
        canvas.wf(),
    ensures
        columns_view(r@) == open_columns(monitors@, *canvas),
        forall|k: int|
            0 <= k < r@.len() ==> -4 * CANVAS_LIMIT * MPX <= #[trigger] r@[k].0 <= 4
                * CANVAS_LIMIT * MPX && -4 * CANVAS_LIMIT * MPX <= r@[k].1 <= 4 * CANVAS_LIMIT
                * MPX,
{
    let mut out: Vec<(i64, i64)> = Vec::new();
    let mut i: usize = 0;
    while i < monitors.len()
        invariant
            i <= monitors@.len(),
            canvas.wf(),
            columns_view(out@) =~= open_columns(monitors@.take(i as int), *canvas),
            forall|k: int|
                0 <= k < out@.len() ==> -4 * CANVAS_LIMIT * MPX <= #[trigger] out@[k].0 <= 4
                    * CANVAS_LIMIT * MPX && -4 * CANVAS_LIMIT * MPX <= out@[k].1 <= 4
                    * CANVAS_LIMIT * MPX,
        decreases monitors@.len() - i,
    {
        let m = monitors[i];
        proof {
            let f = |m: MonitorRect| !m.has_fullscreen;
            assert(monitors@.take(i + 1).drop_last() =~= monitors@.take(i as int));
            reveal(Seq::filter);
            assert(monitors@.take(i + 1).filter(f) == if f(m) {
                monitors@.take(i as int).filter(f).push(m)
            } else {
                monitors@.take(i as int).filter(f)
            });
        }
        if !m.has_fullscreen {
            let left = canvas.to_local_x(m.x as i64);
            let right = canvas.to_local_x(m.x as i64 + m.width as i64);
            out.push((left, right));
            proof {
                let f = |m: MonitorRect| !m.has_fullscreen;
                let g = |m: MonitorRect| column_of(m, *canvas);
                assert(monitors@.take(i as int).filter(f).push(m).map_values(g) =~= monitors@.take(
                    i as int,
                ).filter(f).map_values(g).push(g(m)));
            }
        }
        i = i + 1;
    }
    proof {
        assert(monitors@.take(monitors@.len() as int) =~= monitors@);
    }
    out
}

} // verus!
