use hyprsnow::geometry::{
    get_hyprland_windows, get_monitors_with_fullscreen_state, get_total_screen_bounds,
    spawn_columns, Canvas, ClientRect, MonitorRect, MonitorState, WindowRect, WorkspaceState,
};

fn monitor(x: i32, y: i32, width: i32, height: i32, has_fullscreen: bool) -> MonitorRect {
    MonitorRect { x, y, width, height, has_fullscreen }
}

#[test]
fn bounds_fall_back_without_monitors() {
    assert_eq!(get_total_screen_bounds(&vec![]), (0, 0, 1920, 1080));
}

#[test]
fn bounds_cover_all_monitors() {
    let ms = vec![monitor(0, 0, 1920, 1080, false), monitor(-1280, 200, 1280, 1024, true)];
    assert_eq!(get_total_screen_bounds(&ms), (-1280, 0, 1920, 1224));
}

#[test]
fn bounds_tolerate_zero_area_monitor() {
    let ms = vec![monitor(500, 300, 0, 0, false)];
    assert_eq!(get_total_screen_bounds(&ms), (500, 300, 500, 300));
    let c = Canvas::from_bounds(get_total_screen_bounds(&ms));
    assert_eq!((c.width, c.height), (0, 0));
}

#[test]
fn windows_of_active_workspace_only() {
    let clients = vec![
        ClientRect { address: 1, x: 10, y: 20, width: 300, workspace: 1 },
        ClientRect { address: 2, x: 50, y: 60, width: 400, workspace: 2 },
        ClientRect { address: 3, x: 70, y: 80, width: 500, workspace: 1 },
    ];
    assert_eq!(
        get_hyprland_windows(Some(1), Some(&clients)),
        vec![
            WindowRect { address: 1, x: 10, y: 20, width: 300 },
            WindowRect { address: 3, x: 70, y: 80, width: 500 },
        ]
    );
    assert!(get_hyprland_windows(None, Some(&clients)).is_empty());
    assert!(get_hyprland_windows(Some(1), None).is_empty());
    assert!(get_hyprland_windows(Some(9), Some(&clients)).is_empty());
}

#[test]
fn monitors_take_fullscreen_flag_of_active_workspace() {
    let ms = vec![
        MonitorState { x: 0, y: 0, width: 1920, height: 1080, active_workspace: 1 },
        MonitorState { x: 1920, y: 0, width: 1280, height: 1024, active_workspace: 4 },
        MonitorState { x: 3200, y: 0, width: 800, height: 600, active_workspace: 7 },
    ];
    let ws = vec![
        WorkspaceState { id: 4, fullscreen: true },
        WorkspaceState { id: 1, fullscreen: false },
        WorkspaceState { id: 4, fullscreen: false },
    ];
    let r = get_monitors_with_fullscreen_state(Some(&ms), Some(&ws));
    assert_eq!(
        r,
        vec![
            monitor(0, 0, 1920, 1080, false),
            monitor(1920, 0, 1280, 1024, true),
            monitor(3200, 0, 800, 600, false),
        ]
    );
    let no_ws = get_monitors_with_fullscreen_state(Some(&ms), None);
    assert!(no_ws.iter().all(|m| !m.has_fullscreen));
    assert_eq!(no_ws.len(), 3);
    assert!(get_monitors_with_fullscreen_state(None, Some(&ws)).is_empty());
}

#[test]
fn columns_skip_fullscreen_monitors() {
    let c = Canvas::from_bounds((-100, 0, 1820, 1080));
    let ms = vec![monitor(-100, 0, 1000, 1080, false), monitor(900, 0, 920, 1080, true)];
    assert_eq!(spawn_columns(&ms, &c), vec![(0, 1_000_000)]);
}

#[test]
fn local_coordinates_shift_and_scale() {
    let c = Canvas::from_bounds((-100, 40, 1820, 1120));
    assert_eq!(c.to_local_x(-100), 0);
    assert_eq!(c.to_local_x(0), 100_000);
    assert_eq!(c.to_local_y(50), 10_000);
}
