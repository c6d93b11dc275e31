//! Which taskbar window serves a monitor: the taskbar's frame (or, without it, the whole
//! shell window) must have an area and overlap the monitor.
use vstd::prelude::*;
use crate::monitor::{MonitorDto, MonitorInfo};
use crate::placement::{PhysicalRect, rect_in_range, dto_in_range, monitor_in_range, div_trunc};
use crate::taskbar_widget::TaskbarRect;
use crate::text;

verus! {

/// The rectangle overlaps the monitor's area (touching edges do not count).
pub open spec fn overlaps(r: PhysicalRect, m: MonitorDto) -> bool {
    let left = if r.left > m.left { r.left as int } else { m.left as int };
    let top = if r.top > m.top { r.top as int } else { m.top as int };
    let right = if r.right < m.left + m.width { r.right as int } else { m.left + m.width };
    let bottom = if r.bottom < m.top + m.height { r.bottom as int } else { m.top + m.height };
    right > left && bottom > top
}

/// Whether the rectangle overlaps the monitor (see `overlaps`).
pub fn intersects_monitor(rect: &PhysicalRect, monitor: &MonitorDto) -> (r: bool)
    requires
        rect_in_range(*rect),
        dto_in_range(*monitor),
    ensures
        r == overlaps(*rect, *monitor),
{
    let left = if rect.left > monitor.left { rect.left } else { monitor.left };
    let top = if rect.top > monitor.top { rect.top } else { monitor.top };
    let mr = monitor.left + monitor.width;
    let mb = monitor.top + monitor.height;
    let right = if rect.right < mr { rect.right } else { mr };
    let bottom = if rect.bottom < mb { rect.bottom } else { mb };
    right > left && bottom > top
}

/// The source tag of a taskbar found through `source`: `:uia-taskbar-frame` appended
/// when its frame was found, else `:tray-fallback` when its notification area was.
pub open spec fn tagged_source(source: Seq<char>, frame_found: bool, tray_found: bool) -> Seq<char> {
    if frame_found {
        source + ":uia-taskbar-frame"@
    } else if tray_found {
        source + ":tray-fallback"@
    } else {
        source
    }
}

/// The taskbar that window `hwnd` (its handle as text) offers the monitor: its frame
/// when found (`frame`), else its window rectangle (`shell`), provided that has an area
/// and overlaps the monitor; with the window's DPI and the rectangles of its widgets
/// button, system tray icon and notification area, and `source` tagged (see
/// `tagged_source`).
pub fn taskbar_if_matches(
    hwnd: String,
    shell: PhysicalRect,
    frame: Option<PhysicalRect>,
    monitor: &MonitorDto,
    source: &str,
    dpi: u32,
    widgets_rect: Option<PhysicalRect>,
    system_tray_rect: Option<PhysicalRect>,
    tray_rect: Option<PhysicalRect>,
) -> (t: Option<TaskbarRect>)
    requires
        rect_in_range(shell),
        frame matches Some(f) ==> rect_in_range(f),
        dto_in_range(*monitor),
    ensures
        ({
            let r = match frame {
                Some(f) => f,
                None => shell,
            };
            match t {
                Some(t) => {
                    &&& r.right - r.left > 0 && r.bottom - r.top > 0 && overlaps(r, *monitor)
                    &&& t.hwnd@ == hwnd@
                    &&& t.left == r.left && t.top == r.top
                    &&& t.width == r.right - r.left && t.height == r.bottom - r.top
                    &&& t.dpi == dpi
                    &&& t.widgets_rect == widgets_rect && t.system_tray_rect == system_tray_rect
                    &&& t.tray_rect == tray_rect
                    &&& t.source@ == tagged_source(source@, frame is Some, tray_rect is Some)
                },
                None => !(r.right - r.left > 0 && r.bottom - r.top > 0 && overlaps(r, *monitor)),
            }
        }),
{
    let frame_found = frame.is_some();
    let r = match frame {
        Some(f) => f,
        None => shell,
    };
    if r.width() <= 0 || r.height() <= 0 || !intersects_monitor(&r, monitor) {
        return None;
    }
    let mut tag = text::chars_of(source);
    if frame_found {
        text::push_str_chars(&mut tag, ":uia-taskbar-frame");
    } else if tray_rect.is_some() {
        text::push_str_chars(&mut tag, ":tray-fallback");
    }
    Some(
        TaskbarRect {
            hwnd,
            left: r.left,
            top: r.top,
            width: r.width(),
            height: r.height(),
            dpi,
            widgets_rect,
            system_tray_rect,
            tray_rect,
            source: text::string_from_chars(&tag),
        },
    )
}

/// The taskbar window's centre lies on the monitor (its full area, right and bottom
/// edges excluded).
pub open spec fn centred_on(r: PhysicalRect, m: MonitorInfo) -> bool {
    let cx = r.left + div_trunc(r.right - r.left, 2);
    let cy = r.top + div_trunc(r.bottom - r.top, 2);
    m.monitor_left <= cx < m.monitor_left + m.monitor_width && m.monitor_top <= cy < m.monitor_top
        + m.monitor_height
}

/// Whether the taskbar window with rectangle `rect` (`None`: unreadable) belongs to the
/// monitor (see `centred_on`).
pub fn taskbar_matches_monitor(rect: Option<PhysicalRect>, selected: &MonitorInfo) -> (r: bool)
    requires
        rect matches Some(t) ==> rect_in_range(t),
        monitor_in_range(*selected),
    ensures
        r == (rect matches Some(t) && centred_on(t, *selected)),
{
    match rect {
        None => false,
        Some(t) => {
            let cx = t.left + (t.right - t.left) / 2;
            let cy = t.top + (t.bottom - t.top) / 2;
            cx >= selected.monitor_left && cx < selected.monitor_left + selected.monitor_width && cy
                >= selected.monitor_top && cy < selected.monitor_top + selected.monitor_height
        },
    }
}

/// Which taskbar window the native widget goes into.
#[derive(Clone, Copy, Debug, PartialEq, Eq, Structural)]
pub enum TaskbarChoice {
    /// The main taskbar (`Shell_TrayWnd`).
    Primary,
    /// The secondary taskbar listed at this index (`Shell_SecondaryTrayWnd`).
    Secondary(usize),
}

/// The first secondary taskbar from `k` on whose window belongs to the monitor.
pub open spec fn first_matching(rects: Seq<Option<PhysicalRect>>, m: MonitorInfo, k: int) -> Option<usize>
    decreases rects.len() - k,
{
    if k < 0 || k >= rects.len() {
        None
    } else if rects[k] matches Some(t) && centred_on(t, m) {
        Some(k as usize)
    } else {
        first_matching(rects, m, k + 1)
    }
}

/// The taskbar for the monitor: the main one when it belongs to the monitor, else the
/// first secondary one that does, else the main one when there is one at all.
/// `primary` is `None` without a main taskbar, `Some(None)` when its rectangle cannot be
/// read; each secondary's rectangle likewise.
pub fn find_taskbar_for_monitor(
    primary: Option<Option<PhysicalRect>>,
    secondaries: &Vec<Option<PhysicalRect>>,
    selected: &MonitorInfo,
) -> (r: Option<TaskbarChoice>)
    requires
        primary matches Some(Some(t)) ==> rect_in_range(t),
        forall|i: int| 0 <= i < secondaries@.len() ==> (#[trigger] secondaries@[i] matches Some(t) ==> rect_in_range(t)),
        monitor_in_range(*selected),
    ensures
        r == if primary matches Some(Some(t)) && centred_on(t, *selected) {
            Some(TaskbarChoice::Primary)
        } else {
            match first_matching(secondaries@, *selected, 0) {
                Some(i) => Some(TaskbarChoice::Secondary(i)),
                None => if primary is Some { Some(TaskbarChoice::Primary) } else { None },
            }
        },
{
    if let Some(p) = primary {
        if taskbar_matches_monitor(p, selected) {
            return Some(TaskbarChoice::Primary);
        }
    }
    let mut i: usize = 0;
    while i < secondaries.len()
        invariant
            i <= secondaries@.len(),
            forall|j: int| 0 <= j < secondaries@.len() ==> (#[trigger] secondaries@[j] matches Some(t) ==> rect_in_range(t)),
            monitor_in_range(*selected),
            !(primary matches Some(Some(t)) && centred_on(t, *selected)),
            first_matching(secondaries@, *selected, 0) == first_matching(secondaries@, *selected, i as int),
        decreases secondaries@.len() - i,
    {
        if taskbar_matches_monitor(secondaries[i], selected) {
            return Some(TaskbarChoice::Secondary(i));
        }
        i = i + 1;
    }
    if primary.is_some() {
        Some(TaskbarChoice::Primary)
    } else {
        None
    }
}

} // verus!
