use desktop_sense::geometry::{
    dock_from_areas, get_all_monitors, get_dock_info, get_screen_size, DisplayAreas, DockInfo,
    DockPosition, MonitorInfo, Rect, ScreenSize,
};

fn rect(x: i32, y: i32, width: u32, height: u32) -> Rect {
    Rect { x, y, width, height }
}

#[test]
fn screen_size_falls_back_when_unreported() {
    let s = get_screen_size(None);
    assert_eq!(s, ScreenSize { width: 1920, height: 1080 });
}

#[test]
fn screen_size_falls_back_on_zero_side() {
    assert_eq!(
        get_screen_size(Some(ScreenSize { width: 0, height: 900 })),
        ScreenSize { width: 1920, height: 1080 }
    );
    assert_eq!(
        get_screen_size(Some(ScreenSize { width: 1440, height: 0 })),
        ScreenSize { width: 1920, height: 1080 }
    );
}

#[test]
fn screen_size_keeps_reported_size() {
    let s = get_screen_size(Some(ScreenSize { width: 2560, height: 1440 }));
    assert_eq!(s, ScreenSize { width: 2560, height: 1440 });
}

#[test]
fn monitors_fall_back_to_one_synthetic_monitor() {
    let m = get_all_monitors(Vec::new());
    assert_eq!(
        m,
        vec![MonitorInfo { x: 0, y: 0, width: 1920, height: 1080, scale_milli: 1000, is_primary: true }]
    );
}

#[test]
fn monitors_keep_enumeration_order() {
    let a = MonitorInfo { x: 0, y: 0, width: 2560, height: 1440, scale_milli: 2000, is_primary: true };
    let b = MonitorInfo { x: -1920, y: 200, width: 1920, height: 1080, scale_milli: 1250, is_primary: false };
    let m = get_all_monitors(vec![a, b]);
    assert_eq!(m, vec![a, b]);
}

#[test]
fn dock_at_bottom_from_work_area() {
    let d = dock_from_areas(rect(0, 0, 1920, 1080), rect(0, 0, 1920, 1030));
    assert_eq!(d, DockInfo { height: 50, position: DockPosition::Bottom, is_hidden: false });
}

#[test]
fn dock_hidden_when_work_area_is_whole_frame() {
    let d = dock_from_areas(rect(0, 0, 1920, 1080), rect(0, 0, 1920, 1080));
    assert_eq!(d, DockInfo { height: 0, position: DockPosition::Bottom, is_hidden: true });
}

#[test]
fn dock_on_left_right_and_top() {
    let f = rect(0, 0, 1920, 1080);
    assert_eq!(
        dock_from_areas(f, rect(64, 0, 1856, 1080)),
        DockInfo { height: 64, position: DockPosition::Left, is_hidden: false }
    );
    assert_eq!(
        dock_from_areas(f, rect(0, 0, 1840, 1080)),
        DockInfo { height: 80, position: DockPosition::Right, is_hidden: false }
    );
    assert_eq!(
        dock_from_areas(f, rect(0, 40, 1920, 1040)),
        DockInfo { height: 40, position: DockPosition::Top, is_hidden: false }
    );
}

#[test]
fn dock_bottom_wins_over_other_sides() {
    let d = dock_from_areas(rect(0, 0, 1920, 1080), rect(70, 25, 1850, 1000));
    assert_eq!(d, DockInfo { height: 55, position: DockPosition::Bottom, is_hidden: false });
}

#[test]
fn dock_on_offset_display() {
    let d = dock_from_areas(rect(-1920, 100, 1920, 1080), rect(-1920, 100, 1920, 1032));
    assert_eq!(d, DockInfo { height: 48, position: DockPosition::Bottom, is_hidden: false });
}

#[test]
fn dock_ignores_work_area_beyond_frame() {
    let d = dock_from_areas(rect(0, 0, 1920, 1080), rect(-10, -10, 1940, 1100));
    assert_eq!(d, DockInfo { height: 0, position: DockPosition::Bottom, is_hidden: true });
}

#[test]
fn dock_falls_back_when_unreported() {
    assert_eq!(
        get_dock_info(None),
        DockInfo { height: 0, position: DockPosition::Bottom, is_hidden: true }
    );
}

#[test]
fn dock_info_from_reported_areas() {
    let areas = DisplayAreas { frame: rect(0, 0, 1920, 1080), work_area: rect(0, 0, 1920, 1030) };
    assert_eq!(
        get_dock_info(Some(areas)),
        DockInfo { height: 50, position: DockPosition::Bottom, is_hidden: false }
    );
}

#[test]
fn dock_position_names() {
    assert_eq!(DockPosition::Bottom.name(), "bottom");
    assert_eq!(DockPosition::Left.name(), "left");
    assert_eq!(DockPosition::Right.name(), "right");
    assert_eq!(DockPosition::Top.name(), "top");
}
