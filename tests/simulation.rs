use hyprsnow::config::{ConfigEvent, SnowConfig};
use hyprsnow::flake::{SnowState, Snowflake, TAU_URAD};
use hyprsnow::geometry::{MonitorRect, WindowRect};
use hyprsnow::snow::{Message, VisibleFlake, Waysnow};

fn config(intensity: u8) -> SnowConfig {
    SnowConfig { intensity, ..SnowConfig::default() }
}

fn flake(x: i64, y: i64, state: SnowState) -> Snowflake {
    Snowflake {
        x,
        y,
        radius: 3_000,
        speed: 30_000,
        phase: 0,
        drift_amount: 0,
        opacity: 900,
        state,
    }
}

fn sim_with(flakes: Vec<Snowflake>, windows: Vec<WindowRect>, monitors: Vec<MonitorRect>) -> Waysnow {
    let mut sim = Waysnow::new(config(0), (0, 0, 1920, 1080), windows, monitors, 0);
    sim.snowflakes = flakes;
    sim
}

fn landed(timer: u64, window: Option<u64>, offset: i64) -> SnowState {
    SnowState::Landed { melt_timer: timer, window_addr: window, offset_x: offset }
}

fn assert_fresh(f: &Snowflake, c: &SnowConfig) {
    assert_eq!(f.state, SnowState::Falling);
    assert!(f.radius >= c.size_min as i64 && f.radius < c.size_max as i64);
    assert!(f.speed >= c.speed_min as i64 && f.speed < c.speed_max as i64);
    assert!(f.drift_amount >= 0 && f.drift_amount < c.drift as i64);
    assert!(f.phase >= 0 && f.phase < TAU_URAD);
    assert!(f.opacity >= 700 * c.max_opacity as i64 / 1000 && f.opacity <= c.max_opacity as i64);
}

#[test]
fn landing_on_window_records_offset() {
    let window = WindowRect { address: 1, x: 100, y: 200, width: 50 };
    let mut sim = sim_with(vec![flake(120_000, 198_000, SnowState::Falling)], vec![window], vec![]);
    sim.update(Message::Tick(16_000), &vec![0]);
    assert_eq!(sim.snowflakes[0].state, landed(0, Some(1), 20_000));
    assert_eq!(sim.snowflakes[0].y, 197_000);
    assert_eq!(sim.snowflakes[0].x, 120_000);
}

#[test]
fn falling_moves_by_speed_and_sway() {
    let mut f = flake(500_000, 100_000, SnowState::Falling);
    f.drift_amount = 20_000;
    let mut sim = sim_with(vec![f], vec![], vec![]);
    sim.update(Message::Tick(1_000_000), &vec![500]);
    // 30 px/s for one second down, half of 20 px/s sideways.
    assert_eq!(sim.snowflakes[0].y, 130_000);
    assert_eq!(sim.snowflakes[0].x, 510_000);
    assert_eq!(sim.snowflakes[0].state, SnowState::Falling);
    assert_eq!(sim.time, 1_000_000);
    assert_eq!(sim.last_tick, 1_000_000);
}

#[test]
fn sway_wraps_around_both_edges() {
    let mut right = flake(1_919_500, 100_000, SnowState::Falling);
    right.drift_amount = 20_000;
    let mut left = flake(200, 100_000, SnowState::Falling);
    left.drift_amount = 20_000;
    let mut sim = sim_with(vec![right, left], vec![], vec![]);
    sim.update(Message::Tick(100_000), &vec![1000, -1000]);
    // +2000 mpx past the right edge, -2000 mpx past the left edge.
    assert_eq!(sim.snowflakes[0].x, 1_500);
    assert_eq!(sim.snowflakes[1].x, 1_918_200);
}

#[test]
fn positions_stay_on_canvas_over_many_ticks() {
    let monitors = vec![MonitorRect { x: 0, y: 0, width: 1920, height: 1080, has_fullscreen: false }];
    let windows = vec![WindowRect { address: 9, x: 300, y: 500, width: 400 }];
    let mut sim = Waysnow::new(config(4), (0, 0, 1920, 1080), windows, monitors, 0);
    let mut now: u64 = 0;
    for tick in 0..600u64 {
        now += 16_000 + (tick % 7) * 3_000;
        let angles = sim.sway_angles(now);
        let sines: Vec<i64> =
            angles.iter().map(|a| (((*a as f64) / 1_000_000.0).sin() * 1000.0).round() as i64).collect();
        sim.update(Message::Tick(now), &sines);
        for f in &sim.snowflakes {
            assert!(f.x >= 0 && f.x < 1_920_000);
        }
    }
    assert_eq!(sim.snowflakes.len(), 200);
}

#[test]
fn floor_catches_falling_flake() {
    let mut sim = sim_with(vec![flake(50_000, 1_076_000, SnowState::Falling)], vec![], vec![]);
    sim.update(Message::Tick(100_000), &vec![0]);
    assert_eq!(sim.snowflakes[0].y, 1_077_000);
    assert_eq!(sim.snowflakes[0].state, landed(0, None, 0));
}

#[test]
fn flake_passes_band_below_window_top() {
    // Already 10 px below the top edge: the window no longer catches it.
    let window = WindowRect { address: 1, x: 100, y: 200, width: 50 };
    let mut sim = sim_with(vec![flake(120_000, 210_000, SnowState::Falling)], vec![window], vec![]);
    sim.update(Message::Tick(16_000), &vec![0]);
    assert_eq!(sim.snowflakes[0].state, SnowState::Falling);
    assert_eq!(sim.snowflakes[0].y, 210_480);
}

#[test]
fn melting_fades_then_respawns() {
    let c = config(0);
    let mut sim = sim_with(vec![flake(50_000, 1_077_000, landed(0, None, 0))], vec![], vec![]);
    sim.update(Message::Tick(1_500_000), &vec![0]);
    assert_eq!(sim.snowflakes[0].state, landed(1_500_000, None, 0));
    // (1 - 1.5 / 4) * 0.9 of full opacity, in per-mille.
    assert_eq!(sim.snowflakes[0].opacity, 562);
    sim.update(Message::Tick(4_000_000), &vec![0]);
    let f = sim.snowflakes[0];
    assert_fresh(&f, &c);
    assert_eq!(f.y, 0);
    assert!(f.x >= 0 && f.x < 1_920_000);
}

#[test]
fn melted_flake_returns_in_open_column() {
    let monitors = vec![
        MonitorRect { x: 0, y: 0, width: 1000, height: 1080, has_fullscreen: true },
        MonitorRect { x: 1000, y: 0, width: 920, height: 1080, has_fullscreen: false },
    ];
    let c = config(0);
    for _ in 0..20 {
        let mut sim = sim_with(vec![flake(50_000, 1_077_000, landed(3_999_000, None, 0))], vec![], monitors.clone());
        sim.update(Message::Tick(1_000), &vec![0]);
        let f = sim.snowflakes[0];
        assert_fresh(&f, &c);
        assert!(f.x >= 1_000_000 && f.x < 1_920_000);
    }
}

#[test]
fn resting_flake_rides_window_sideways() {
    let mut sim = sim_with(
        vec![flake(120_000, 197_000, landed(0, Some(1), 20_000))],
        vec![WindowRect { address: 1, x: 100, y: 200, width: 50 }],
        vec![],
    );
    sim.refresh_geometry(vec![WindowRect { address: 1, x: 300, y: 200, width: 50 }], vec![]);
    sim.update(Message::Tick(100_000), &vec![0]);
    assert_eq!(sim.snowflakes[0].x, 320_000);
    assert_eq!(sim.snowflakes[0].state, landed(100_000, Some(1), 20_000));
}

#[test]
fn window_moving_down_drops_flake() {
    let mut sim = sim_with(vec![flake(120_000, 197_000, landed(500_000, Some(1), 20_000))], vec![], vec![]);
    sim.refresh_geometry(vec![WindowRect { address: 1, x: 100, y: 260, width: 50 }], vec![]);
    sim.update(Message::Tick(100_000), &vec![0]);
    assert_eq!(sim.snowflakes[0].state, SnowState::Falling);
    assert_eq!(sim.snowflakes[0].y, 197_000);
}

#[test]
fn window_shrinking_drops_flake() {
    let mut sim = sim_with(vec![flake(140_000, 197_000, landed(500_000, Some(1), 40_000))], vec![], vec![]);
    sim.refresh_geometry(vec![WindowRect { address: 1, x: 100, y: 200, width: 30 }], vec![]);
    sim.update(Message::Tick(100_000), &vec![0]);
    assert_eq!(sim.snowflakes[0].state, SnowState::Falling);
}

#[test]
fn closed_window_releases_flake_at_once() {
    let mut f = flake(120_000, 197_000, landed(2_000_000, Some(1), 20_000));
    f.opacity = 450;
    let mut sim = sim_with(vec![f], vec![WindowRect { address: 1, x: 100, y: 200, width: 50 }], vec![]);
    sim.refresh_geometry(vec![WindowRect { address: 2, x: 100, y: 200, width: 50 }], vec![]);
    sim.update(Message::Tick(16_000), &vec![0]);
    let g = sim.snowflakes[0];
    assert_eq!(g.state, SnowState::Falling);
    assert_eq!((g.x, g.y, g.opacity, g.radius), (120_000, 197_000, 450, 3_000));
}

#[test]
fn same_intensity_keeps_pool() {
    let mut sim = Waysnow::new(config(3), (0, 0, 1920, 1080), vec![], vec![], 0);
    let before = sim.snowflakes.clone();
    sim.apply_config(config(3));
    assert_eq!(sim.snowflakes, before);
}

#[test]
fn raising_intensity_appends_flakes() {
    let mut sim = Waysnow::new(config(3), (0, 0, 1920, 1080), vec![], vec![], 0);
    let before = sim.snowflakes.clone();
    let c5 = SnowConfig { size_min: 7_000, size_max: 8_000, ..config(5) };
    sim.apply_config(c5);
    assert_eq!(sim.snowflakes.len(), 250);
    assert_eq!(&sim.snowflakes[..150], &before[..]);
    for f in &sim.snowflakes[150..] {
        assert_fresh(f, &c5);
        assert!(f.y >= 0 && f.y < 1_080_000);
    }
    // Flakes that stay keep what they were drawn with.
    assert!(sim.snowflakes[..150].iter().all(|f| f.radius < 5_000));
    assert_eq!(sim.config, c5);
}

#[test]
fn lowering_intensity_drops_trailing_flakes() {
    let mut sim = Waysnow::new(config(5), (0, 0, 1920, 1080), vec![], vec![], 0);
    let before = sim.snowflakes.clone();
    sim.apply_config(config(3));
    assert_eq!(sim.snowflakes.len(), 150);
    assert_eq!(&sim.snowflakes[..], &before[..150]);
}

#[test]
fn growth_prefers_open_columns() {
    let monitors = vec![
        MonitorRect { x: 0, y: 0, width: 1000, height: 1080, has_fullscreen: false },
        MonitorRect { x: 1000, y: 0, width: 920, height: 1080, has_fullscreen: true },
    ];
    let mut sim = Waysnow::new(config(1), (0, 0, 1920, 1080), vec![], monitors, 0);
    sim.apply_config(config(4));
    for f in &sim.snowflakes[50..] {
        assert!(f.x >= 0 && f.x < 1_000_000);
    }
}

#[test]
fn fullscreen_hides_column_without_touching_pool() {
    let flakes = vec![
        flake(500_000, 300_000, SnowState::Falling),
        flake(1_500_000, 300_000, landed(10, None, 0)),
        flake(500_000, 1_079_000, SnowState::Falling),
    ];
    let open = vec![
        MonitorRect { x: 0, y: 0, width: 1000, height: 1080, has_fullscreen: false },
        MonitorRect { x: 1000, y: 0, width: 920, height: 1080, has_fullscreen: false },
    ];
    let mut sim = sim_with(flakes.clone(), vec![], open.clone());
    assert_eq!(sim.visible_particles().len(), 3);
    let mut hidden = open.clone();
    hidden[0].has_fullscreen = true;
    sim.refresh_geometry(vec![], hidden);
    let shown = sim.visible_particles();
    assert_eq!(
        shown,
        vec![VisibleFlake { x: 1_500_000, y: 300_000, radius: 3_000, opacity: 900 }]
    );
    assert_eq!(sim.snowflakes, flakes);
}

#[test]
fn occlusion_column_edges() {
    let monitors = vec![MonitorRect { x: 100, y: 50, width: 200, height: 100, has_fullscreen: true }];
    let mut sim = Waysnow::new(config(0), (100, 50, 300, 150), vec![], monitors, 0);
    sim.snowflakes.clear();
    assert!(sim.is_in_fullscreen_monitor(0, -5_000_000));
    assert!(sim.is_in_fullscreen_monitor(199_999, 99_999));
    assert!(!sim.is_in_fullscreen_monitor(200_000, 0));
    assert!(!sim.is_in_fullscreen_monitor(-1, 0));
    assert!(!sim.is_in_fullscreen_monitor(0, 100_000));
}

#[test]
fn sway_angles_follow_clock_and_phase() {
    let mut f = flake(0, 0, SnowState::Falling);
    f.phase = 6_000_000;
    let mut sim = sim_with(vec![f], vec![], vec![]);
    sim.time = 500_000;
    sim.last_tick = 1_000;
    assert_eq!(sim.sway_angles(1_001_000), vec![(1_500_000 + 6_000_000) % TAU_URAD]);
    assert_eq!(sim.sway_angles(0), vec![(500_000 + 6_000_000) % TAU_URAD]);
}

#[test]
fn clock_going_back_counts_as_no_time() {
    let mut sim = sim_with(vec![flake(500_000, 100_000, SnowState::Falling)], vec![], vec![]);
    sim.last_tick = 5_000;
    sim.update(Message::Tick(1_000), &vec![0]);
    assert_eq!(sim.snowflakes[0].y, 100_000);
    assert_eq!(sim.last_tick, 1_000);
    assert_eq!(sim.time, 0);
}

#[test]
fn new_fills_pool_over_canvas() {
    let c = config(2);
    let sim = Waysnow::new(c, (-1920, 0, 1920, 1080), vec![], vec![], 7);
    assert_eq!(sim.snowflakes.len(), 100);
    assert_eq!((sim.canvas.offset_x, sim.canvas.width, sim.canvas.height), (-1920, 3840, 1080));
    for f in &sim.snowflakes {
        assert_fresh(f, &c);
        assert!(f.x >= 0 && f.x < 3_840_000);
        assert!(f.y >= 0 && f.y < 1_080_000);
    }
    assert_eq!(sim.last_tick, 7);
}

#[test]
fn random_draws_vary() {
    let sim = Waysnow::new(config(2), (0, 0, 1920, 1080), vec![], vec![], 0);
    let first = sim.snowflakes[0].x;
    assert!(sim.snowflakes.iter().any(|f| f.x != first));
    assert!(sim.snowflakes.iter().any(|f| f.x != 0));
}

#[test]
fn reconcile_refreshes_once_then_applies_configs_in_order() {
    let mut sim = Waysnow::new(config(3), (0, 0, 1920, 1080), vec![], vec![], 0);
    let before = sim.snowflakes.clone();
    let windows = vec![WindowRect { address: 4, x: 10, y: 10, width: 100 }];
    let monitors = vec![MonitorRect { x: 0, y: 0, width: 1920, height: 1080, has_fullscreen: false }];
    sim.reconcile(
        Some((windows.clone(), monitors.clone())),
        vec![ConfigEvent::ConfigChanged(config(1)), ConfigEvent::ConfigChanged(config(2))],
    );
    assert_eq!(sim.windows, windows);
    assert_eq!(sim.monitors, monitors);
    assert_eq!(sim.config, config(2));
    assert_eq!(sim.snowflakes.len(), 100);
    // Only the flakes that survived the smallest pool along the way are kept.
    assert_eq!(&sim.snowflakes[..50], &before[..50]);

    let kept = sim.snowflakes.clone();
    sim.reconcile(None, vec![]);
    assert_eq!(sim.snowflakes, kept);
    assert_eq!(sim.windows, windows);
    assert_eq!(sim.config, config(2));
}
