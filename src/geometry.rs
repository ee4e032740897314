//! Screen, monitor and dock geometry, each with a fixed fallback.
use vstd::prelude::*;

verus! {

/// Width reported when the primary display cannot be measured.
pub const FALLBACK_WIDTH: u32 = 1920;

/// Height reported when the primary display cannot be measured.
pub const FALLBACK_HEIGHT: u32 = 1080;

/// Scale factors are held in thousandths: 1000 is a scale of 1.0.
pub const SCALE_ONE: u32 = 1000;

/// Primary display dimensions in pixels.
#[derive(Debug, Clone, Copy, PartialEq, Eq, Structural)]
pub struct ScreenSize {
    pub width: u32,
    pub height: u32,
}

/// The size used when nothing usable was reported.
pub open spec fn fallback_screen() -> ScreenSize {
    ScreenSize { width: FALLBACK_WIDTH as u32, height: FALLBACK_HEIGHT as u32 }
}

/// A reported size is usable when neither side is zero.
pub open spec fn usable_size(s: ScreenSize) -> bool {
    s.width > 0 && s.height > 0
}

/// Resolves the primary screen size from what the platform reported:
/// a usable report is kept, anything else gives 1920 x 1080.
pub fn get_screen_size(reported: Option<ScreenSize>) -> (r: ScreenSize)
    ensures
        r == (match reported {
            Some(s) => if usable_size(s) { s } else { fallback_screen() },
            None => fallback_screen(),
        }),
        usable_size(r),
{
    match reported {
        Some(s) => {
            if s.width > 0 && s.height > 0 {
                s
            } else {
                ScreenSize { width: FALLBACK_WIDTH, height: FALLBACK_HEIGHT }
            }
        },
        None => ScreenSize { width: FALLBACK_WIDTH, height: FALLBACK_HEIGHT },
    }
}

/// One connected display: origin and size in logical pixels, its scale
/// factor in thousandths, and whether it is the primary display.
#[derive(Debug, Clone, Copy, PartialEq, Eq, Structural)]
pub struct MonitorInfo {
    pub x: i32,
    pub y: i32,
    pub width: u32,
    pub height: u32,
    pub scale_milli: u32,
    pub is_primary: bool,
}

/// The single synthetic monitor used when enumeration yields nothing.
pub open spec fn fallback_monitor() -> MonitorInfo {
    MonitorInfo {
        x: 0,
        y: 0,
        width: FALLBACK_WIDTH as u32,
        height: FALLBACK_HEIGHT as u32,
        scale_milli: SCALE_ONE as u32,
        is_primary: true,
    }
}

/// Resolves the monitor list: the enumerated monitors in their order, or
/// exactly one fallback monitor when there are none.
pub fn get_all_monitors(reported: Vec<MonitorInfo>) -> (r: Vec<MonitorInfo>)
    ensures
        reported@.len() > 0 ==> r@ == reported@,
        reported@.len() == 0 ==> r@ == seq![fallback_monitor()],
        r@.len() > 0,
{
    if reported.len() > 0 {
        reported
    } else {
        let mut r: Vec<MonitorInfo> = Vec::new();
        r.push(
            MonitorInfo {
                x: 0,
                y: 0,
                width: FALLBACK_WIDTH,
                height: FALLBACK_HEIGHT,
                scale_milli: SCALE_ONE,
                is_primary: true,
            },
        );
        r
    }
}

/// An axis-aligned rectangle in screen space, with the origin at the top
/// left and y growing downwards.
#[derive(Debug, Clone, Copy, PartialEq, Eq, Structural)]
pub struct Rect {
    pub x: i32,
    pub y: i32,
    pub width: u32,
    pub height: u32,
}

/// The full bounds of the primary display and the part of it left to
/// ordinary windows.
#[derive(Debug, Clone, Copy, PartialEq, Eq, Structural)]
pub struct DisplayAreas {
    pub frame: Rect,
    pub work_area: Rect,
}

/// The edge of the display that the dock or taskbar occupies.
#[derive(Debug, Clone, Copy, PartialEq, Eq, Structural)]
pub enum DockPosition {
    Bottom,
    Left,
    Right,
    Top,
}

impl DockPosition {
    /// The lower-case name of the edge.
    pub fn name(&self) -> (r: String)
        ensures
            r@ == self.name_spec(),
    {
        match self {
            DockPosition::Bottom => String::from_str("bottom"),
            DockPosition::Left => String::from_str("left"),
            DockPosition::Right => String::from_str("right"),
            DockPosition::Top => String::from_str("top"),
        }
    }

    pub open spec fn name_spec(&self) -> Seq<char> {
        match self {
            DockPosition::Bottom => "bottom"@,
            DockPosition::Left => "left"@,
            DockPosition::Right => "right"@,
            DockPosition::Top => "top"@,
        }
    }
}

/// Dock or taskbar placement. A hidden dock has no thickness.
#[derive(Debug, Clone, Copy, PartialEq, Eq, Structural)]
pub struct DockInfo {
    pub height: u32,
    pub position: DockPosition,
    pub is_hidden: bool,
}

impl DockInfo {
    pub open spec fn wf(&self) -> bool {
        self.is_hidden <==> self.height == 0
    }
}

/// The dock reported when none can be detected.
pub open spec fn hidden_dock() -> DockInfo {
    DockInfo { height: 0, position: DockPosition::Bottom, is_hidden: true }
}

/// A difference in pixels, saturated into the range of `u32`.
pub open spec fn clamp_u32(v: int) -> u32 {
    if v <= 0 {
        0
    } else if v >= u32::MAX {
        u32::MAX
    } else {
        v as u32
    }
}

pub open spec fn inset_top(f: Rect, w: Rect) -> u32 {
    clamp_u32(w.y - f.y)
}

pub open spec fn inset_left(f: Rect, w: Rect) -> u32 {
    clamp_u32(w.x - f.x)
}

pub open spec fn inset_bottom(f: Rect, w: Rect) -> u32 {
    clamp_u32((f.y + f.height) - (w.y + w.height))
}

pub open spec fn inset_right(f: Rect, w: Rect) -> u32 {
    clamp_u32((f.x + f.width) - (w.x + w.width))
}

/// The dock that the difference between frame and work area shows: the
/// first side, in the order bottom, left, right, top, on which the work
/// area stops short of the frame; hidden when there is none.
pub open spec fn dock_spec(f: Rect, w: Rect) -> DockInfo {
    if inset_bottom(f, w) > 0 {
        DockInfo { height: inset_bottom(f, w), position: DockPosition::Bottom, is_hidden: false }
    } else if inset_left(f, w) > 0 {
        DockInfo { height: inset_left(f, w), position: DockPosition::Left, is_hidden: false }
    } else if inset_right(f, w) > 0 {
        DockInfo { height: inset_right(f, w), position: DockPosition::Right, is_hidden: false }
    } else if inset_top(f, w) > 0 {
        DockInfo { height: inset_top(f, w), position: DockPosition::Top, is_hidden: false }
    } else {
        hidden_dock()
    }
}

fn clamp_to_u32(v: i64) -> (r: u32)
    ensures
        r == clamp_u32(v as int),
{
    if v <= 0 {
        0
    } else if v >= u32::MAX as i64 {
        u32::MAX
    } else {
        v as u32
    }
}

/// Derives the dock from the display's frame and work area.
pub fn dock_from_areas(frame: Rect, work_area: Rect) -> (r: DockInfo)
    ensures
        r == dock_spec(frame, work_area),
        r.wf(),
{
    let f = frame;
    let w = work_area;
    let bottom = clamp_to_u32((f.y as i64 + f.height as i64) - (w.y as i64 + w.height as i64));
    let left = clamp_to_u32(w.x as i64 - f.x as i64);
    let right = clamp_to_u32((f.x as i64 + f.width as i64) - (w.x as i64 + w.width as i64));
    let top = clamp_to_u32(w.y as i64 - f.y as i64);
    if bottom > 0 {
        DockInfo { height: bottom, position: DockPosition::Bottom, is_hidden: false }
    } else if left > 0 {
        DockInfo { height: left, position: DockPosition::Left, is_hidden: false }
    } else if right > 0 {
        DockInfo { height: right, position: DockPosition::Right, is_hidden: false }
    } else if top > 0 {
        DockInfo { height: top, position: DockPosition::Top, is_hidden: false }
    } else {
        DockInfo { height: 0, position: DockPosition::Bottom, is_hidden: true }
    }
}

/// Resolves the dock: derived from the display areas when the platform
/// reported them, hidden at the bottom otherwise.
pub fn get_dock_info(areas: Option<DisplayAreas>) -> (r: DockInfo)
    ensures
        r == (match areas {
            Some(a) => dock_spec(a.frame, a.work_area),
            None => hidden_dock(),
        }),
        r.wf(),
{
    match areas {
        Some(a) => dock_from_areas(a.frame, a.work_area),
        None => DockInfo { height: 0, position: DockPosition::Bottom, is_hidden: true },
    }
}

} // verus!
