//! The window enumerator's filter policy over what the window server reported.
use vstd::prelude::*;

verus! {

/// Windows narrower or shorter than this are resize handles and splitters.
pub const MIN_WINDOW_SIDE: i32 = 50;

/// One window as the platform layer reported it, with defaults already
/// put in for values it could not read (zero, or an empty string).
#[derive(Debug, Clone)]
pub struct RawWindow {
    pub app_name: String,
    pub title: String,
    pub x: i32,
    pub y: i32,
    pub width: i32,
    pub height: i32,
    pub window_id: u32,
    /// Process that owns the window.
    pub owner_pid: u32,
    /// Window-server layer; 0 is the layer of ordinary application windows.
    pub layer: i32,
}

/// One on-screen, user-facing window at the moment of the query.
#[derive(Debug, Clone)]
pub struct WindowInfo {
    pub app_name: String,
    pub title: String,
    pub x: i32,
    pub y: i32,
    pub width: i32,
    pub height: i32,
    pub window_id: u32,
}

/// The value of a window record: its strings as character sequences.
pub struct WindowRecord {
    pub app_name: Seq<char>,
    pub title: Seq<char>,
    pub x: i32,
    pub y: i32,
    pub width: i32,
    pub height: i32,
    pub window_id: u32,
}

impl View for WindowInfo {
    type V = WindowRecord;

    open spec fn view(&self) -> WindowRecord {
        WindowRecord {
            app_name: self.app_name@,
            title: self.title@,
            x: self.x,
            y: self.y,
            width: self.width,
            height: self.height,
            window_id: self.window_id,
        }
    }
}

/// The record that a reported window becomes.
pub open spec fn record_of(w: RawWindow) -> WindowRecord {
    WindowRecord {
        app_name: w.app_name@,
        title: w.title@,
        x: w.x,
        y: w.y,
        width: w.width,
        height: w.height,
        window_id: w.window_id,
    }
}

/// A window with neither an owner name nor a title is an untitled artifact.
pub open spec fn has_identity(w: RawWindow) -> bool {
    w.app_name@.len() > 0 || w.title@.len() > 0
}

/// The filter policy: not ours, on the normal layer, at least 50 x 50,
/// and named or titled.
pub open spec fn listable(w: RawWindow, own_pid: u32) -> bool {
    &&& w.owner_pid != own_pid
    &&& w.layer == 0
    &&& w.width >= MIN_WINDOW_SIDE
    &&& w.height >= MIN_WINDOW_SIDE
    &&& has_identity(w)
}

/// The records of the listable windows, in the order they were reported.
pub open spec fn listed(raw: Seq<RawWindow>, own_pid: u32) -> Seq<WindowRecord>
    decreases raw.len(),
{
    if raw.len() == 0 {
        Seq::empty()
    } else {
        let rest = listed(raw.drop_last(), own_pid);
        if listable(raw.last(), own_pid) {
            rest.push(record_of(raw.last()))
        } else {
            rest
        }
    }
}

/// The views of a sequence of window records.
pub open spec fn records(s: Seq<WindowInfo>) -> Seq<WindowRecord> {
    s.map_values(|w: WindowInfo| w@)
}

fn info_of(w: &RawWindow) -> (r: WindowInfo)
    ensures
        r@ == record_of(*w),
{
    WindowInfo {
        app_name: w.app_name.clone(),
        title: w.title.clone(),
        x: w.x,
        y: w.y,
        width: w.width,
        height: w.height,
        window_id: w.window_id,
    }
}

/// Applies the filter policy to the reported windows of one enumeration,
/// for the calling process `own_pid`, keeping the reported order.
pub fn get_window_list(raw: Vec<RawWindow>, own_pid: u32) -> (r: Vec<WindowInfo>)
    ensures
        records(r@) == listed(raw@, own_pid),
{
    let mut r: Vec<WindowInfo> = Vec::new();
    let mut i: usize = 0;
    while i < raw.len()
        invariant
            i <= raw@.len(),
            records(r@) == listed(raw@.subrange(0, i as int), own_pid),
        decreases raw@.len() - i,
    {
        let w = &raw[i];
        proof {
            assert(raw@.subrange(0, i as int + 1).drop_last() == raw@.subrange(0, i as int));
        }
        if w.owner_pid != own_pid && w.layer == 0 && w.width >= MIN_WINDOW_SIDE && w.height
            >= MIN_WINDOW_SIDE && (!w.app_name.as_str().is_empty() || !w.title.as_str().is_empty()) {
            let info = info_of(w);
            let ghost before = r@;
            r.push(info);
            proof {
                assert(records(r@) =~= records(before).push(info@));
            }
        }
        i = i + 1;
    }
    proof {
        assert(raw@.subrange(0, raw@.len() as int) == raw@);
    }
    r
}

/// Every listed record is at least 50 x 50, has an owner name or a title,
/// and comes from a reported window on the normal layer that the calling
/// process does not own.
pub proof fn lemma_listed_windows_obey_policy(raw: Seq<RawWindow>, own_pid: u32)
    ensures
        forall|j: int|
            0 <= j < listed(raw, own_pid).len() ==> {
                let rec = #[trigger] listed(raw, own_pid)[j];
                &&& rec.width >= MIN_WINDOW_SIDE
                &&& rec.height >= MIN_WINDOW_SIDE
                &&& (rec.app_name.len() > 0 || rec.title.len() > 0)
                &&& exists|i: int|
                    0 <= i < raw.len() && raw[i].owner_pid != own_pid && raw[i].layer == 0
                        && record_of(#[trigger] raw[i]) == rec
            },
    decreases raw.len(),
{
    if raw.len() > 0 {
        let prefix = raw.drop_last();
        lemma_listed_windows_obey_policy(prefix, own_pid);
        assert forall|j: int| 0 <= j < listed(raw, own_pid).len() implies {
            let rec = #[trigger] listed(raw, own_pid)[j];
            &&& rec.width >= MIN_WINDOW_SIDE
            &&& rec.height >= MIN_WINDOW_SIDE
            &&& (rec.app_name.len() > 0 || rec.title.len() > 0)
            &&& exists|i: int|
                0 <= i < raw.len() && raw[i].owner_pid != own_pid && raw[i].layer == 0
                    && record_of(#[trigger] raw[i]) == rec
        } by {
            let rec = listed(raw, own_pid)[j];
            if j < listed(prefix, own_pid).len() {
                assert(rec == listed(prefix, own_pid)[j]);
                let i = choose|i: int|
                    0 <= i < prefix.len() && prefix[i].owner_pid != own_pid && prefix[i].layer
                        == 0 && record_of(#[trigger] prefix[i]) == rec;
                assert(raw[i] == prefix[i]);
            } else {
                let i = raw.len() - 1;
                assert(raw[i] == raw.last());
            }
        }
    }
}

/// Resolves the focused window: kept when it has an owner name or a title.
pub fn get_active_window(raw: Option<RawWindow>) -> (r: Option<WindowInfo>)
    ensures
        match raw {
            Some(w) => if has_identity(w) {
                r is Some && r->Some_0@ == record_of(w)
            } else {
                r is None
            },
            None => r is None,
        },
{
    match raw {
        Some(w) => {
            if w.app_name.as_str().is_empty() && w.title.as_str().is_empty() {
                None
            } else {
                Some(info_of(&w))
            }
        },
        None => None,
    }
}

} // verus!
