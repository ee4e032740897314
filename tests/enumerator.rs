use desktop_sense::enumerator::{get_active_window, get_window_list, RawWindow, WindowInfo};

const OWN_PID: u32 = 4242;

fn raw(app: &str, title: &str, width: i32, height: i32, pid: u32, layer: i32, id: u32) -> RawWindow {
    RawWindow {
        app_name: app.to_string(),
        title: title.to_string(),
        x: 10,
        y: 20,
        width,
        height,
        window_id: id,
        owner_pid: pid,
        layer,
    }
}

fn same(w: &WindowInfo, app: &str, title: &str, width: i32, height: i32, id: u32) -> bool {
    w.app_name == app && w.title == title && w.x == 10 && w.y == 20 && w.width == width
        && w.height == height && w.window_id == id
}

#[test]
fn list_keeps_ordinary_windows_in_order() {
    let list = get_window_list(
        vec![raw("Editor", "main.rs", 800, 600, 1, 0, 7), raw("Terminal", "", 640, 480, 2, 0, 8)],
        OWN_PID,
    );
    assert_eq!(list.len(), 2);
    assert!(same(&list[0], "Editor", "main.rs", 800, 600, 7));
    assert!(same(&list[1], "Terminal", "", 640, 480, 8));
}

#[test]
fn list_drops_own_windows() {
    let list = get_window_list(vec![raw("Overlay", "pet", 1920, 1080, OWN_PID, 0, 1)], OWN_PID);
    assert!(list.is_empty());
}

#[test]
fn list_drops_other_layers() {
    let list = get_window_list(
        vec![raw("Menu", "bar", 1920, 25, 3, 25, 1), raw("Popup", "tip", 300, 300, 3, 101, 2)],
        OWN_PID,
    );
    assert!(list.is_empty());
}

#[test]
fn list_drops_small_windows() {
    let list = get_window_list(
        vec![
            raw("A", "narrow", 49, 500, 3, 0, 1),
            raw("B", "short", 500, 49, 3, 0, 2),
            raw("C", "exact", 50, 50, 3, 0, 3),
        ],
        OWN_PID,
    );
    assert_eq!(list.len(), 1);
    assert!(same(&list[0], "C", "exact", 50, 50, 3));
}

#[test]
fn list_drops_windows_without_name_or_title() {
    let list = get_window_list(
        vec![raw("", "", 400, 400, 3, 0, 1), raw("", "Untitled app", 400, 400, 3, 0, 2)],
        OWN_PID,
    );
    assert_eq!(list.len(), 1);
    assert!(same(&list[0], "", "Untitled app", 400, 400, 2));
}

#[test]
fn list_of_nothing_is_empty() {
    assert!(get_window_list(Vec::new(), OWN_PID).is_empty());
}

#[test]
fn listed_windows_obey_policy_on_mixed_input() {
    let input = vec![
        raw("Mine", "x", 900, 900, OWN_PID, 0, 1),
        raw("Dock", "", 1920, 70, 9, 20, 2),
        raw("Handle", "h", 4, 300, 9, 0, 3),
        raw("", "", 500, 500, 9, 0, 4),
        raw("Browser", "News", 1200, 800, 9, 0, 5),
        raw("Negative", "n", -100, 800, 9, 0, 6),
    ];
    let list = get_window_list(input, OWN_PID);
    assert_eq!(list.len(), 1);
    for w in &list {
        assert!(w.width >= 50 && w.height >= 50);
        assert!(!(w.app_name.is_empty() && w.title.is_empty()));
        assert_ne!(w.window_id, 1);
    }
    assert!(same(&list[0], "Browser", "News", 1200, 800, 5));
}

#[test]
fn active_window_kept_when_named() {
    let w = get_active_window(Some(raw("Editor", "", 10, 10, OWN_PID, 3, 9))).unwrap();
    assert!(same(&w, "Editor", "", 10, 10, 9));
}

#[test]
fn active_window_dropped_when_unnamed_and_untitled() {
    assert!(get_active_window(Some(raw("", "", 800, 600, 3, 0, 9))).is_none());
    assert!(get_active_window(None).is_none());
}
