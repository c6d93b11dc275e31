//! Where the flyouts and the taskbar widget go on screen: flyout corners and edges,
//! the widget's frame inside the taskbar, and the hit-testing of its controls.
use vstd::prelude::*;
use crate::monitor::{MonitorInfo, MonitorDto};
use crate::settings::clamp_spec;

verus! {

/// Screen coordinates and sizes this module works with: within 2^28 pixels of the
/// origin, far from where `i32` arithmetic on them could overflow.
pub open spec fn coord(v: int) -> bool {
    -268435456 <= v <= 268435456
}

/// Integer division rounding toward zero, as `/` on `i32` does.
pub open spec fn div_trunc(a: int, b: int) -> int {
    if a >= 0 {
        a / b
    } else {
        -((-a) / b)
    }
}

/// The monitor's work area and full area are screen coordinates.
pub open spec fn monitor_in_range(m: MonitorInfo) -> bool {
    coord(m.left as int) && coord(m.top as int) && coord(m.width as int) && coord(m.height as int)
        && coord(m.monitor_left as int) && coord(m.monitor_top as int) && coord(
        m.monitor_width as int,
    ) && coord(m.monitor_height as int)
}

/// Top-left corner of the media flyout for a position setting: 0, 1, 2 along the bottom
/// (left, centre, right; the centre one 80 pixels up), 3, 4, 5 along the top, 16 pixels
/// from the work area's edges. Unknown positions use the bottom left.
pub open spec fn live_flyout_xy(m: MonitorInfo, position: i32, width: int, height: int) -> (int, int) {
    let left = m.left as int;
    let top = m.top as int;
    let x = if position == 1 || position == 4 {
        left + div_trunc(m.width - width, 2)
    } else if position == 2 || position == 5 {
        left + m.width - width - 16
    } else {
        left + 16
    };
    let y = if position == 1 {
        top + m.height - height - 80
    } else if 3 <= position <= 5 {
        top + 16
    } else {
        top + m.height - height - 16
    };
    (x, y)
}

/// Top-left corner of the media flyout (see `live_flyout_xy`).
pub fn live_flyout_position(monitor: &MonitorInfo, position: i32, width: i32, height: i32) -> (r: (
    i32,
    i32,
))
    requires
        monitor_in_range(*monitor),
        coord(width as int),
        coord(height as int),
    ensures
        (r.0 as int, r.1 as int) == live_flyout_xy(*monitor, position, width as int, height as int),
{
    let x = match position {
        0 | 3 => monitor.left + 16,
        1 | 4 => monitor.left + (monitor.width - width) / 2,
        2 | 5 => monitor.left + monitor.width - width - 16,
        _ => monitor.left + 16,
    };
    let y = match position {
        0 | 2 => monitor.top + monitor.height - height - 16,
        1 => monitor.top + monitor.height - height - 80,
        3..=5 => monitor.top + 16,
        _ => monitor.top + monitor.height - height - 16,
    };
    (x, y)
}

/// Top-left corner of the taskbar widget when it cannot be placed inside the taskbar:
/// on the work area's bottom edge, 20 pixels in from the left (0) or right (2) plus the
/// manual padding, or centred (1).
pub open spec fn widget_fallback_xy(
    m: MonitorInfo,
    position: i32,
    manual_padding: int,
    width: int,
    height: int,
) -> (int, int) {
    let x = if position == 0 {
        m.left + 20 + manual_padding
    } else if position == 1 {
        m.left + div_trunc(m.width - width, 2)
    } else if position == 2 {
        m.left + m.width - width - 20 + manual_padding
    } else {
        m.left + 20
    };
    (x, m.top + m.height - height)
}

/// Top-left corner of the taskbar widget outside the taskbar (see `widget_fallback_xy`).
pub fn taskbar_widget_fallback_position(
    monitor: &MonitorInfo,
    position: i32,
    manual_padding: i32,
    width: i32,
    height: i32,
) -> (r: (i32, i32))
    requires
        monitor_in_range(*monitor),
        coord(manual_padding as int),
        coord(width as int),
        coord(height as int),
    ensures
        (r.0 as int, r.1 as int) == widget_fallback_xy(
            *monitor,
            position,
            manual_padding as int,
            width as int,
            height as int,
        ),
{
    let x = match position {
        0 => monitor.left + 20 + manual_padding,
        1 => monitor.left + (monitor.width - width) / 2,
        2 => monitor.left + monitor.width - width - 20 + manual_padding,
        _ => monitor.left + 20,
    };
    (x, monitor.top + monitor.height - height)
}

/// Top-left corner of the lock-keys flyout: centred, 16 pixels above the work area's
/// bottom edge.
pub fn lock_flyout_position(monitor: &MonitorInfo, width: i32, height: i32) -> (r: (i32, i32))
    requires
        monitor_in_range(*monitor),
        coord(width as int),
        coord(height as int),
    ensures
        r.0 == monitor.left + div_trunc(monitor.width - width, 2),
        r.1 == monitor.top + monitor.height - height - 16,
{
    (monitor.left + (monitor.width - width) / 2, monitor.top + monitor.height - height - 16)
}

/// `v` limited to `lo..=max(hi, lo)`, as `v.clamp(lo, hi.max(lo))` computes it.
pub open spec fn clamp_up(v: int, lo: int, hi: int) -> int {
    clamp_spec(v, lo, if hi > lo { hi } else { lo })
}

fn clamp_up_exec(v: i32, lo: i32, hi: i32) -> (r: i32)
    ensures
        r == clamp_up(v as int, lo as int, hi as int),
{
    let top = if hi > lo { hi } else { lo };
    if v < lo {
        lo
    } else if v > top {
        top
    } else {
        v
    }
}

/// The listed monitor's area is in screen coordinates.
pub open spec fn dto_in_range(m: MonitorDto) -> bool {
    coord(m.left as int) && coord(m.top as int) && coord(m.width as int) && coord(m.height as int)
}

/// Top-left corner of a web flyout window of the given size: 24 pixels from the edges
/// (0 bottom left, 2 bottom right, 3 top left, 4 top centre, 5 top right, anything else
/// bottom centre), the bottom ones 56 pixels above the monitor's edge, then kept 8
/// pixels inside the monitor.
pub open spec fn flyout_xy(m: MonitorDto, position: i32, width: int, height: int) -> (int, int) {
    let min_x = m.left + 8;
    let max_x = m.left + m.width - width - 8;
    let min_y = m.top + 8;
    let max_y = m.top + m.height - height - 56;
    let left = m.left + 24;
    let center = m.left + div_trunc(m.width - width, 2);
    let right = m.left + m.width - width - 24;
    let top = m.top + 24;
    let x = if position == 0 || position == 3 {
        left
    } else if position == 2 || position == 5 {
        right
    } else {
        center
    };
    let y = if 3 <= position <= 5 {
        top
    } else {
        max_y
    };
    (clamp_up(x, min_x, max_x), clamp_up(y, min_y, max_y))
}

/// Top-left corner of a web flyout window (see `flyout_xy`).
pub fn position_for(monitor: &MonitorDto, position: i32, width: i32, height: i32) -> (r: (i32, i32))
    requires
        dto_in_range(*monitor),
        coord(width as int),
        coord(height as int),
    ensures
        (r.0 as int, r.1 as int) == flyout_xy(*monitor, position, width as int, height as int),
{
    let margin: i32 = 56;
    let min_x = monitor.left + 8;
    let max_x = monitor.left + monitor.width - width - 8;
    let min_y = monitor.top + 8;
    let max_y = monitor.top + monitor.height - height - margin;
    let left = monitor.left + 24;
    let center = monitor.left + (monitor.width - width) / 2;
    let right = monitor.left + monitor.width - width - 24;
    let top = monitor.top + 24;
    let bottom = max_y;
    let (x, y) = match position {
        0 => (left, bottom),
        2 => (right, bottom),
        3 => (left, top),
        4 => (center, top),
        5 => (right, top),
        _ => (center, bottom),
    };
    (clamp_up_exec(x, min_x, max_x), clamp_up_exec(y, min_y, max_y))
}

/// A rectangle in physical pixels.
#[derive(Clone, Copy, Debug, PartialEq, Eq, Structural)]
pub struct PhysicalRect {
    pub left: i32,
    pub top: i32,
    pub right: i32,
    pub bottom: i32,
}

/// The rectangle's edges are screen coordinates.
pub open spec fn rect_in_range(r: PhysicalRect) -> bool {
    coord(r.left as int) && coord(r.top as int) && coord(r.right as int) && coord(r.bottom as int)
}

impl PhysicalRect {
    /// `right - left`.
    pub fn width(&self) -> (w: i32)
        requires
            rect_in_range(*self),
        ensures
            w == self.right - self.left,
    {
        self.right - self.left
    }

    /// `bottom - top`.
    pub fn height(&self) -> (h: i32)
        requires
            rect_in_range(*self),
        ensures
            h == self.bottom - self.top,
    {
        self.bottom - self.top
    }
}

/// `round(v / d)` for `v >= 0`, `d > 0`, halves rounding up.
pub open spec fn round_div(v: int, d: int) -> int {
    (2 * v + d) / (2 * d)
}

/// The height the native taskbar widget may take at a window DPI: 40 logical pixels
/// scaled by `max(dpi / 96, 1)` and rounded.
pub open spec fn native_widget_max_height(dpi: int) -> int {
    if dpi <= 96 {
        40
    } else {
        round_div(40 * dpi, 96)
    }
}

/// Left edge of the widget inside the taskbar, before clamping: 20 pixels in on the
/// left (plus 218 for the widgets button when padding is automatic), centred, or 1
/// pixel left of the tray on the right (20 pixels in when there is no usable tray);
/// then the manual padding is added.
pub open spec fn native_widget_x(
    taskbar: PhysicalRect,
    tray_left: Option<i32>,
    is_main_taskbar: bool,
    position: i32,
    auto_padding: bool,
    manual_padding: int,
    width: int,
) -> int {
    let taskbar_width = taskbar.right - taskbar.left;
    let base = if position == 0 {
        20 + if auto_padding { 218int } else { 0int }
    } else if position == 1 {
        div_trunc(taskbar_width - width, 2)
    } else if position == 2 {
        match (is_main_taskbar, tray_left) {
            (true, Some(l)) => l - taskbar.left - width - 1,
            _ => taskbar_width - width - 20,
        }
    } else {
        20
    };
    base + manual_padding
}

/// The tray's left edge when it lies strictly inside the taskbar.
pub open spec fn usable_tray_left(taskbar: PhysicalRect, tray: Option<PhysicalRect>) -> Option<i32> {
    match tray {
        Some(t) => if taskbar.left < t.left < taskbar.right {
            Some(t.left)
        } else {
            None
        },
        None => None,
    }
}

/// The widget's frame `(x, y, width, height)` inside the taskbar window, or `None` for an
/// empty taskbar. The width is kept to `80..=taskbar width`, the height to
/// `32..=taskbar height` and at most `native_widget_max_height`, the frame is centred
/// vertically and its left edge kept inside the taskbar.
pub open spec fn native_widget_frame(
    taskbar: PhysicalRect,
    tray: Option<PhysicalRect>,
    dpi: int,
    is_main_taskbar: bool,
    position: i32,
    auto_padding: bool,
    manual_padding: int,
    widget_width: int,
    widget_height: int,
) -> Option<(int, int, int, int)> {
    let tw = taskbar.right - taskbar.left;
    let th = taskbar.bottom - taskbar.top;
    if tw <= 0 || th <= 0 {
        None
    } else {
        let width = clamp_up(widget_width, 80, tw);
        let capped = if widget_height < native_widget_max_height(dpi) {
            widget_height
        } else {
            native_widget_max_height(dpi)
        };
        let height = clamp_up(capped, 32, th);
        let y = if div_trunc(th - height, 2) > 0 { div_trunc(th - height, 2) } else { 0 };
        let x = clamp_up(
            native_widget_x(
                taskbar,
                usable_tray_left(taskbar, tray),
                is_main_taskbar,
                position,
                auto_padding,
                manual_padding,
                width,
            ),
            0,
            tw - width,
        );
        Some((x, y, width, height))
    }
}

/// The widget's frame inside the taskbar window (see `native_widget_frame`).
pub fn taskbar_widget_frame(
    taskbar: &PhysicalRect,
    tray: Option<PhysicalRect>,
    dpi: u32,
    is_main_taskbar: bool,
    position: i32,
    auto_padding: bool,
    manual_padding: i32,
    widget_width: i32,
    widget_height: i32,
) -> (r: Option<(i32, i32, i32, i32)>)
    requires
        rect_in_range(*taskbar),
        tray matches Some(t) ==> rect_in_range(t),
        dpi <= 100000,
        coord(manual_padding as int),
        coord(widget_width as int),
        coord(widget_height as int),
    ensures
        match r {
            Some((x, y, w, h)) => native_widget_frame(
                *taskbar,
                tray,
                dpi as int,
                is_main_taskbar,
                position,
                auto_padding,
                manual_padding as int,
                widget_width as int,
                widget_height as int,
            ) == Some((x as int, y as int, w as int, h as int)),
            None => native_widget_frame(
                *taskbar,
                tray,
                dpi as int,
                is_main_taskbar,
                position,
                auto_padding,
                manual_padding as int,
                widget_width as int,
                widget_height as int,
            ) is None,
        },
{
    let tw = taskbar.right - taskbar.left;
    let th = taskbar.bottom - taskbar.top;
    if tw <= 0 || th <= 0 {
        return None;
    }
    let max_height: i32 = if dpi <= 96 {
        40
    } else {
        ((80 * dpi as i64 + 96) / 192) as i32
    };
    let width = clamp_up_exec(widget_width, 80, tw);
    let capped = if widget_height < max_height {
        widget_height
    } else {
        max_height
    };
    let height = clamp_up_exec(capped, 32, th);
    let half = (th - height) / 2;
    let y = if half > 0 {
        half
    } else {
        0
    };
    let tray_left = match tray {
        Some(t) => if taskbar.left < t.left && t.left < taskbar.right {
            Some(t.left)
        } else {
            None
        },
        None => None,
    };
    let base = match position {
        0 => {
            if auto_padding {
                20 + 218
            } else {
                20
            }
        },
        1 => (tw - width) / 2,
        2 => match (is_main_taskbar, tray_left) {
            (true, Some(l)) => l - taskbar.left - width - 1,
            _ => tw - width - 20,
        },
        _ => 20,
    };
    let x = clamp_up_exec(base + manual_padding, 0, tw - width);
    Some((x, y, width, height))
}

/// Whether `v` is a coordinate this module handles (see `coord`).
pub fn coord_in_range(v: i32) -> (r: bool)
    ensures
        r == coord(v as int),
{
    -268435456 <= v && v <= 268435456
}

/// Whether the monitor's areas are coordinates this module handles.
pub fn monitor_fits(m: &MonitorInfo) -> (r: bool)
    ensures
        r == monitor_in_range(*m),
{
    coord_in_range(m.left) && coord_in_range(m.top) && coord_in_range(m.width) && coord_in_range(m.height)
        && coord_in_range(m.monitor_left) && coord_in_range(m.monitor_top) && coord_in_range(m.monitor_width)
        && coord_in_range(m.monitor_height)
}

/// Whether the listed monitor's area is coordinates this module handles.
pub fn dto_fits(m: &MonitorDto) -> (r: bool)
    ensures
        r == dto_in_range(*m),
{
    coord_in_range(m.left) && coord_in_range(m.top) && coord_in_range(m.width) && coord_in_range(m.height)
}

/// Whether the rectangle's edges are coordinates this module handles.
pub fn rect_fits(r: &PhysicalRect) -> (b: bool)
    ensures
        b == rect_in_range(*r),
{
    coord_in_range(r.left) && coord_in_range(r.top) && coord_in_range(r.right) && coord_in_range(r.bottom)
}


/// Where the media flyout sits for each position setting: 16 pixels below the work
/// area's top for the top row (3, 4, 5); 16 pixels above its bottom for bottom left (0),
/// bottom right (2) and unknown positions, 80 for bottom centre (1); 16 pixels from the
/// left edge for the left column (0, 3) and from the right edge for the right column
/// (2, 5); and centred, the two side gaps differing by at most a pixel, for 1 and 4.
pub proof fn lemma_live_flyout_corners(m: MonitorInfo, position: i32, width: int, height: int)
    ensures
        3 <= position <= 5 ==> live_flyout_xy(m, position, width, height).1 == m.top + 16,
        (position == 0 || position == 2 || position < 0 || position > 5) ==> live_flyout_xy(
            m,
            position,
            width,
            height,
        ).1 + height + 16 == m.top + m.height,
        position == 1 ==> live_flyout_xy(m, position, width, height).1 + height + 80 == m.top + m.height,
        (position == 0 || position == 3) ==> live_flyout_xy(m, position, width, height).0 == m.left + 16,
        (position == 2 || position == 5) ==> live_flyout_xy(m, position, width, height).0 + width + 16
            == m.left + m.width,
        (position == 1 || position == 4) ==> {
            let gap_left = live_flyout_xy(m, position, width, height).0 - m.left;
            let gap_right = m.left + m.width - (live_flyout_xy(m, position, width, height).0 + width);
            -1 <= gap_left - gap_right <= 1
        },
{
}


/// A web flyout never leaves the monitor: it stays at least 8 pixels inside its left,
/// top and right edges and 56 pixels above its bottom whenever it fits so; and when it
/// fits with room to spare, it sits 24 pixels from the left edge for positions 0 and 3,
/// 24 from the right edge for 2 and 5, 24 below the top for the top row (3, 4, 5), and
/// 56 above the bottom otherwise.
pub proof fn lemma_web_flyout_on_screen(m: MonitorDto, position: i32, width: int, height: int)
    ensures
        width + 16 <= m.width ==> m.left + 8 <= flyout_xy(m, position, width, height).0 && flyout_xy(
            m,
            position,
            width,
            height,
        ).0 + width + 8 <= m.left + m.width,
        height + 64 <= m.height ==> m.top + 8 <= flyout_xy(m, position, width, height).1 && flyout_xy(
            m,
            position,
            width,
            height,
        ).1 + height + 56 <= m.top + m.height,
        width + 48 <= m.width && (position == 0 || position == 3) ==> flyout_xy(m, position, width, height).0
            == m.left + 24,
        width + 48 <= m.width && (position == 2 || position == 5) ==> flyout_xy(m, position, width, height).0
            + width + 24 == m.left + m.width,
        height + 88 <= m.height && 3 <= position <= 5 ==> flyout_xy(m, position, width, height).1 == m.top
            + 24,
        height + 64 <= m.height && !(3 <= position <= 5) ==> flyout_xy(m, position, width, height).1 + height
            + 56 == m.top + m.height,
{
}

/// Outside the taskbar the widget rests on the work area's bottom edge, and the manual
/// padding moves it by exactly its amount for the left (0) and right (2) positions.
pub proof fn lemma_widget_fallback_padding(m: MonitorInfo, position: i32, pad: int, d: int, width: int, height: int)
    ensures
        widget_fallback_xy(m, position, pad, width, height).1 + height == m.top + m.height,
        (position == 0 || position == 2) ==> widget_fallback_xy(m, position, pad + d, width, height).0
            == widget_fallback_xy(m, position, pad, width, height).0 + d,
        position == 0 ==> widget_fallback_xy(m, position, pad, width, height).0 == m.left + 20 + pad,
        position == 2 ==> widget_fallback_xy(m, position, pad, width, height).0 + width + 20 == m.left + m.width
            + pad,
{
}

} // verus!
