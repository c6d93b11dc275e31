//! The taskbar widget of the settings app: its size and place inside the taskbar,
//! the visualizer beside it, and which of its controls a click lands on.
use vstd::prelude::*;
use crate::error::AppError;
use crate::legacy::SettingsDto;
use crate::media_session::{MediaSessionDto, has_media, session_has_media};
use crate::placement::{self, PhysicalRect, coord, rect_in_range, div_trunc, clamp_up, round_div};
use crate::settings::clamp_spec;
use crate::text;

verus! {

/// The taskbar that the widget goes into, as found on screen. `dpi` is the taskbar
/// window's DPI (96 is 100%); the optional rectangles are the widgets button, the
/// system tray icon and the tray window, when they could be located.
#[derive(Clone, Debug)]
pub struct TaskbarRect {
    pub hwnd: String,
    pub left: i32,
    pub top: i32,
    pub width: i32,
    pub height: i32,
    pub dpi: u32,
    pub widgets_rect: Option<PhysicalRect>,
    pub system_tray_rect: Option<PhysicalRect>,
    pub tray_rect: Option<PhysicalRect>,
    pub source: String,
}

/// The taskbar's numbers are screen coordinates and its DPI is plausible.
pub open spec fn taskbar_in_range(t: TaskbarRect) -> bool {
    &&& coord(t.left as int) && coord(t.top as int) && coord(t.width as int) && coord(
        t.height as int,
    )
    &&& t.dpi <= 100000
    &&& t.widgets_rect matches Some(r) ==> rect_in_range(r)
    &&& t.system_tray_rect matches Some(r) ==> rect_in_range(r)
    &&& t.tray_rect matches Some(r) ==> rect_in_range(r)
}

/// Where the widget goes: its screen rectangle (`x`, `y`, `width`, `height`), the
/// taskbar container it is drawn in, and its offset inside that container.
#[derive(Clone, Debug)]
pub struct TaskbarWidgetPlacementDto {
    pub monitor_id: i32,
    pub taskbar_hwnd: String,
    pub x: i32,
    pub y: i32,
    pub width: i32,
    pub height: i32,
    pub dpi: u32,
    pub logical_width: i32,
    pub logical_height: i32,
    pub container_x: i32,
    pub container_y: i32,
    pub container_width: i32,
    pub container_height: i32,
    pub widget_x: i32,
    pub widget_y: i32,
    pub source: String,
}

/// Tenths of a logical pixel that a character takes: 4 for ASCII white space, 7.2 for
/// other ASCII, 12 for anything else.
pub open spec fn char_width_tenths(c: char) -> int {
    if '\u{80}' > c {
        if c == ' ' || c == '\t' || c == '\n' || c == '\u{c}' || c == '\r' {
            40
        } else {
            72
        }
    } else {
        120
    }
}

/// The summed width of `s`, in tenths of a logical pixel.
pub open spec fn width_tenths(s: Seq<char>) -> int
    decreases s.len(),
{
    if s.len() == 0 {
        0
    } else {
        width_tenths(s.drop_last()) + char_width_tenths(s.last())
    }
}

/// The estimated width of a text in logical pixels: the first 80 characters summed,
/// rounded.
pub open spec fn text_width(s: Seq<char>) -> int {
    round_div(width_tenths(if s.len() > 80 { s.take(80) } else { s }), 10)
}

proof fn lemma_width_tenths_bounds(s: Seq<char>)
    ensures
        40 * s.len() <= width_tenths(s) <= 120 * s.len(),
    decreases s.len(),
{
    if s.len() > 0 {
        lemma_width_tenths_bounds(s.drop_last());
    }
}

/// Estimates the width of `text` in logical pixels (see `text_width`).
pub fn estimate_text_width(text: &str) -> (w: i32)
    ensures
        w == text_width(text@),
{
    let cs = text::chars_of(text);
    let n: usize = if cs.len() > 80 {
        80
    } else {
        cs.len()
    };
    let ghost s = if cs@.len() > 80 { cs@.take(80) } else { cs@ };
    let mut tenths: i64 = 0;
    let mut i: usize = 0;
    while i < n
        invariant
            n <= 80,
            n <= cs@.len(),
            s == cs@.take(n as int),
            i <= n,
            tenths == width_tenths(cs@.take(i as int)),
        decreases n - i,
    {
        proof {
            lemma_width_tenths_bounds(cs@.take(i as int));
            assert(cs@.take(i + 1).drop_last() =~= cs@.take(i as int));
        }
        let c = cs[i];
        let units: i64 = if '\u{80}' > c {
            if c == ' ' || c == '\t' || c == '\n' || c == '\u{c}' || c == '\r' {
                40
            } else {
                72
            }
        } else {
            120
        };
        assert(cs@.take(i + 1).last() == c);
        tenths = tenths + units;
        i = i + 1;
    }
    proof {
        assert(cs@.take(n as int) =~= s);
        lemma_width_tenths_bounds(s);
    }
    ((2 * tenths + 10) / 20) as i32
}

/// The widget's logical width before controls: the wider of title and artist plus 55
/// pixels for the art and margins, kept to `100..=240`.
pub open spec fn content_logical_width(title: Seq<char>, artist: Seq<char>) -> int {
    let text = if text_width(title) > text_width(artist) { text_width(title) } else { text_width(artist) };
    let measured = text + 55;
    let at_least = if measured > 100 { measured } else { 100 };
    if at_least < 240 { at_least } else { 240 }
}

/// The widget's logical width before controls for the shown title and artist.
pub fn dynamic_logical_width(title: &str, artist: &str) -> (w: i32)
    ensures
        w == content_logical_width(title@, artist@),
{
    let a = estimate_text_width(title);
    let b = estimate_text_width(artist);
    proof {
        lemma_width_tenths_bounds(if title@.len() > 80 { title@.take(80) } else { title@ });
        lemma_width_tenths_bounds(if artist@.len() > 80 { artist@.take(80) } else { artist@ });
    }
    let text = if a > b { a } else { b };
    let measured = text + 55;
    let at_least = if measured > 100 { measured } else { 100 };
    if at_least < 240 { at_least } else { 240 }
}

/// The widget's left offset for the left position: 20 pixels, or 2 pixels right of the
/// widgets button when padding is on and the button was found.
pub open spec fn left_offset(t: TaskbarRect, padding: bool) -> int {
    if !padding {
        20
    } else {
        match t.widgets_rect {
            Some(r) => r.right - t.left + 2,
            None => 20,
        }
    }
}

/// The widget's left offset for the right position: 1 pixel left of the widgets button
/// when padding is on and the button sits in the right half, else 1 pixel left of the
/// tray window, else of the system tray icon, else 20 pixels in from the right end.
pub open spec fn right_offset(t: TaskbarRect, padding: bool, width: int) -> int {
    if padding && (t.widgets_rect matches Some(w) && w.left > t.left + div_trunc(t.width as int, 2)) {
        t.widgets_rect->0.left - t.left - width - 1
    } else if t.tray_rect is Some {
        t.tray_rect->0.left - t.left - width - 1
    } else if t.system_tray_rect is Some {
        t.system_tray_rect->0.left - t.left - width - 1
    } else {
        t.width - width - 20
    }
}

/// The widget's logical width: the content width, plus 102 for the controls when they
/// are on (then at least 272).
pub open spec fn widget_logical_width(content: int, controls: bool) -> int {
    if controls {
        if content + 102 > 272 { content + 102 } else { 272 }
    } else {
        content
    }
}

/// The rendered logical width: 90% of the logical width, rounded, at least 40.
pub open spec fn rendered_width(logical: int) -> int {
    let r = round_div(9 * logical, 10);
    if r > 40 { r } else { 40 }
}

/// The placement computed for a taskbar (see `calculate_placement`).
pub open spec fn placement_fields(
    p: TaskbarWidgetPlacementDto,
    s: SettingsDto,
    monitor_id: i32,
    t: TaskbarRect,
    content: int,
) -> bool {
    let rendered = rendered_width(widget_logical_width(content, s.taskbar_widget_controls_enabled));
    let width = clamp_up(round_div(rendered * t.dpi, 96), 80, t.width as int);
    let height = clamp_up(round_div(40 * t.dpi, 96), 28, t.height as int);
    let half = div_trunc(t.height - height, 2);
    let widget_y = if half > 0 { half } else { 0 };
    let base = if s.taskbar_widget_position == 0 {
        left_offset(t, s.taskbar_widget_padding)
    } else if s.taskbar_widget_position == 1 {
        div_trunc(t.width - width, 2)
    } else if s.taskbar_widget_position == 2 {
        right_offset(t, s.taskbar_widget_padding, width)
    } else {
        20
    };
    let widget_x = clamp_up(base + s.taskbar_widget_manual_padding, 0, t.width - width);
    &&& p.monitor_id == monitor_id
    &&& p.taskbar_hwnd@ == t.hwnd@
    &&& p.x == t.left + widget_x
    &&& p.y == t.top + widget_y
    &&& p.width == width
    &&& p.height == height
    &&& p.dpi == t.dpi
    &&& p.logical_width == rendered
    &&& p.logical_height == 40
    &&& p.container_x == t.left
    &&& p.container_y == t.top
    &&& p.container_width == t.width
    &&& p.container_height == t.height
    &&& p.widget_x == widget_x
    &&& p.widget_y == widget_y
    &&& p.source@ == t.source@
}

/// Sizes and places the widget inside the taskbar of the selected monitor: wide enough
/// for the shown title and artist (see `content_logical_width`) and the controls, scaled
/// to the taskbar's DPI, and kept inside the taskbar. Fails with `taskbar.parent` when
/// no taskbar was found for the monitor.
pub fn calculate_placement(
    settings: &SettingsDto,
    monitor_id: i32,
    taskbar: Option<&TaskbarRect>,
    title: &str,
    artist: &str,
) -> (r: Result<TaskbarWidgetPlacementDto, AppError>)
    requires
        taskbar matches Some(t) ==> taskbar_in_range(*t),
        coord(settings.taskbar_widget_manual_padding as int),
    ensures
        match taskbar {
            None => r matches Err(e) && e.code@ == "taskbar.parent"@ && e.message_ko@
                == "작업표시줄 창을 찾을 수 없습니다."@ && e.detail is None,
            Some(t) => r matches Ok(p) && placement_fields(
                p,
                *settings,
                monitor_id,
                *t,
                content_logical_width(title@, artist@),
            ),
        },
{
    let t = match taskbar {
        None => {
            return Err(AppError::new("taskbar.parent", "작업표시줄 창을 찾을 수 없습니다."));
        },
        Some(t) => t,
    };
    let content = dynamic_logical_width(title, artist);
    let logical: i32 = if settings.taskbar_widget_controls_enabled {
        if content + 102 > 272 {
            content + 102
        } else {
            272
        }
    } else {
        content
    };
    let r0: i32 = ((18 * logical as i64 + 10) / 20) as i32;
    let rendered: i32 = if r0 > 40 {
        r0
    } else {
        40
    };
    assert(40 <= rendered <= 400);
    let dpi = t.dpi as i64;
    assert(0 <= rendered as i64 * dpi <= 400 * 100000) by (nonlinear_arith)
        requires
            40 <= rendered <= 400,
            0 <= dpi <= 100000,
    ;
    let scaled_w: i32 = ((2 * (rendered as i64 * dpi) + 96) / 192) as i32;
    let width = clamp_up_i32(scaled_w, 80, t.width);
    let scaled_h: i32 = ((80 * t.dpi as i64 + 96) / 192) as i32;
    let height = clamp_up_i32(scaled_h, 28, t.height);
    let half = (t.height - height) / 2;
    let widget_y = if half > 0 {
        half
    } else {
        0
    };
    let base: i32 = match settings.taskbar_widget_position {
        0 => left_position(t, settings.taskbar_widget_padding),
        1 => (t.width - width) / 2,
        2 => right_position(t, settings.taskbar_widget_padding, width),
        _ => 20,
    };
    let widget_x = clamp_up_i32(base + settings.taskbar_widget_manual_padding, 0, t.width - width);
    Ok(
        TaskbarWidgetPlacementDto {
            monitor_id,
            taskbar_hwnd: t.hwnd.clone(),
            x: t.left + widget_x,
            y: t.top + widget_y,
            width,
            height,
            dpi: t.dpi,
            logical_width: rendered,
            logical_height: 40,
            container_x: t.left,
            container_y: t.top,
            container_width: t.width,
            container_height: t.height,
            widget_x,
            widget_y,
            source: t.source.clone(),
        },
    )
}

fn clamp_up_i32(v: i32, lo: i32, hi: i32) -> (r: i32)
    ensures
        r == clamp_up(v as int, lo as int, hi as int),
{
    let top = if hi > lo {
        hi
    } else {
        lo
    };
    if v < lo {
        lo
    } else if v > top {
        top
    } else {
        v
    }
}

/// The left offset for the left position (see `left_offset`).
pub fn left_position(taskbar: &TaskbarRect, padding: bool) -> (x: i32)
    requires
        taskbar_in_range(*taskbar),
    ensures
        x == left_offset(*taskbar, padding),
{
    if !padding {
        return 20;
    }
    match &taskbar.widgets_rect {
        Some(r) => r.right - taskbar.left + 2,
        None => 20,
    }
}

/// The left offset for the right position (see `right_offset`).
pub fn right_position(taskbar: &TaskbarRect, padding: bool, width: i32) -> (x: i32)
    requires
        taskbar_in_range(*taskbar),
        coord(width as int),
    ensures
        x == right_offset(*taskbar, padding, width as int),
{
    if padding {
        if let Some(widgets) = &taskbar.widgets_rect {
            if widgets.left > taskbar.left + taskbar.width / 2 {
                return widgets.left - taskbar.left - width - 1;
            }
        }
    }
    if let Some(tray) = &taskbar.tray_rect {
        return tray.left - taskbar.left - width - 1;
    }
    if let Some(system_tray) = &taskbar.system_tray_rect {
        return system_tray.left - taskbar.left - width - 1;
    }
    taskbar.width - width - 20
}


/// The placement's numbers are screen coordinates.
pub open spec fn placement_in_range(p: TaskbarWidgetPlacementDto) -> bool {
    coord(p.x as int) && coord(p.y as int) && coord(p.width as int) && coord(p.height as int)
        && coord(p.container_x as int) && coord(p.container_y as int) && coord(
        p.container_width as int,
    ) && coord(p.container_height as int) && coord(p.widget_x as int) && coord(p.widget_y as int)
}

/// The visualizer's box inside the taskbar container, when the visualizer is on: 10
/// pixels of padding on each side of the bars (each 5 wide, 4 apart, `1..=20` of them),
/// the widget's height kept to `24..=container height` and centred, and 8 pixels left
/// (position 0) or right (otherwise) of the widget, kept inside the container.
pub open spec fn visualizer_box(s: SettingsDto, p: TaskbarWidgetPlacementDto) -> Option<PhysicalRect> {
    if !s.taskbar_visualizer_enabled {
        None
    } else {
        let bars = clamp_spec(s.taskbar_visualizer_bar_count as int, 1, 20);
        let width = 20 + bars * 5 + (bars - 1) * 4;
        let height = clamp_up(p.height as int, 24, p.container_height as int);
        let half = div_trunc(p.container_height - height, 2);
        let top = if half > 0 { half } else { 0 };
        let wanted = if s.taskbar_visualizer_position == 0 {
            p.widget_x - width - 8
        } else {
            p.widget_x + p.width + 8
        };
        let left = clamp_up(wanted, 0, p.container_width - width);
        Some(
            PhysicalRect {
                left: left as i32,
                top: top as i32,
                right: (left + width) as i32,
                bottom: (top + height) as i32,
            },
        )
    }
}

/// The visualizer's box (see `visualizer_box`).
pub fn visualizer_rect(settings: &SettingsDto, placement: &TaskbarWidgetPlacementDto) -> (r: Option<
    PhysicalRect,
>)
    requires
        placement_in_range(*placement),
    ensures
        r == visualizer_box(*settings, *placement),
{
    if !settings.taskbar_visualizer_enabled {
        return None;
    }
    let c = settings.taskbar_visualizer_bar_count;
    let bars: i32 = if c < 1 {
        1
    } else if c > 20 {
        20
    } else {
        c
    };
    let width = 20 + bars * 5 + (bars - 1) * 4;
    let height = clamp_up_i32(placement.height, 24, placement.container_height);
    let half = (placement.container_height - height) / 2;
    let top = if half > 0 {
        half
    } else {
        0
    };
    let wanted = if settings.taskbar_visualizer_position == 0 {
        placement.widget_x - width - 8
    } else {
        placement.widget_x + placement.width + 8
    };
    let left = clamp_up_i32(wanted, 0, placement.container_width - width);
    Some(PhysicalRect { left, top, right: left + width, bottom: top + height })
}

/// What a click on the taskbar widget asks for.
#[derive(Clone, Copy, Debug, PartialEq, Eq, Structural)]
pub enum TaskbarWidgetAction {
    ShowFlyout,
    Previous,
    PlayPause,
    Next,
}

/// What the taskbar widget draws: the media shown, the controls and visualizer
/// settings, and where it was last placed.
#[derive(Clone, Debug)]
pub struct DrawState {
    pub title: String,
    pub artist: String,
    pub has_media: bool,
    pub playing: bool,
    pub controls_enabled: bool,
    pub controls_position: i32,
    pub visualizer_enabled: bool,
    pub visualizer_bar_count: i32,
    pub visualizer_rect: Option<PhysicalRect>,
    pub placement: Option<TaskbarWidgetPlacementDto>,
}

impl DrawState {
    /// The state before anything was shown: no media, controls on the right, visualizer
    /// off with 10 bars, not placed.
    pub fn new() -> (d: Self)
        ensures
            d.title@ == Seq::<char>::empty(),
            d.artist@ == Seq::<char>::empty(),
            !d.has_media && !d.playing,
            d.controls_enabled && d.controls_position == 1,
            !d.visualizer_enabled && d.visualizer_bar_count == 10,
            d.visualizer_rect is None && d.placement is None,
    {
        DrawState {
            title: String::new(),
            artist: String::new(),
            has_media: false,
            playing: false,
            controls_enabled: true,
            controls_position: 1,
            visualizer_enabled: false,
            visualizer_bar_count: 10,
            visualizer_rect: None,
            placement: None,
        }
    }
}

/// The media part of the widget after a session update: title and artist only when
/// there is media (see `has_media`), playing when the status is `playing`.
pub open spec fn media_shown(d: DrawState, m: MediaSessionDto) -> bool {
    &&& d.has_media == has_media(m)
    &&& d.title@ == (if has_media(m) { m.title@ } else { Seq::<char>::empty() })
    &&& d.artist@ == (if has_media(m) { m.artist@ } else { Seq::<char>::empty() })
    &&& d.playing == (m.playback_status@ == "playing"@)
}

/// Updates the widget's media from the session and says whether anything shown
/// changed, so that the widget is redrawn only then. The rest of the state is kept.
pub fn update_media(draw: &mut DrawState, media: &MediaSessionDto) -> (changed: bool)
    ensures
        media_shown(*final(draw), *media),
        changed == !(old(draw).has_media == final(draw).has_media && old(draw).title@
            == final(draw).title@ && old(draw).artist@ == final(draw).artist@ && old(draw).playing
            == final(draw).playing),
        final(draw).controls_enabled == old(draw).controls_enabled,
        final(draw).controls_position == old(draw).controls_position,
        final(draw).visualizer_enabled == old(draw).visualizer_enabled,
        final(draw).visualizer_bar_count == old(draw).visualizer_bar_count,
        final(draw).visualizer_rect == old(draw).visualizer_rect,
        final(draw).placement == old(draw).placement,
{
    let has = session_has_media(media);
    let title: String = if has {
        media.title.clone()
    } else {
        String::new()
    };
    let artist: String = if has {
        media.artist.clone()
    } else {
        String::new()
    };
    let playing = text::str_eq(media.playback_status.as_str(), "playing");
    let changed = draw.has_media != has || !text::str_eq(draw.title.as_str(), title.as_str())
        || !text::str_eq(draw.artist.as_str(), artist.as_str()) || draw.playing != playing;
    if changed {
        draw.has_media = has;
        draw.title = title;
        draw.artist = artist;
        draw.playing = playing;
    }
    changed
}

/// The size of a control button for a widget height: 32 logical pixels scaled by the
/// height over 40 (at least 0.7) and by 0.9, rounded.
pub open spec fn control_button_size(height: int) -> int {
    if height >= 28 {
        round_div(72 * height, 100)
    } else {
        20
    }
}

/// Where the three control buttons sit, when the controls are on and there is media:
/// their top, their size, and the left edges of previous, play/pause and next, 2 pixels
/// apart, starting 4 pixels into the widget's left (position 0) or right end.
pub open spec fn control_layout(p: TaskbarWidgetPlacementDto, controls_enabled: bool, has_media: bool, position: i32) -> Option<
    (int, int, int, int, int),
> {
    if !controls_enabled || !has_media {
        None
    } else {
        let size = control_button_size(p.height as int);
        let width = size * 3 + 12;
        let half = div_trunc(p.height - size, 2);
        let top = p.widget_y + if half > 0 { half } else { 0 };
        let start = if position == 0 {
            p.widget_x + 4
        } else {
            p.widget_x + p.width - width + 4
        };
        Some((top, size, start, start + size + 2, start + 2 * (size + 2)))
    }
}

/// The control buttons' layout (see `control_layout`).
pub fn control_metrics(placement: &TaskbarWidgetPlacementDto, draw: &DrawState) -> (r: Option<
    (i32, i32, i32, i32, i32),
>)
    requires
        placement_in_range(*placement),
    ensures
        match r {
            Some((a, b, c, d, e)) => control_layout(
                *placement,
                draw.controls_enabled,
                draw.has_media,
                draw.controls_position,
            ) == Some((a as int, b as int, c as int, d as int, e as int)),
            None => control_layout(
                *placement,
                draw.controls_enabled,
                draw.has_media,
                draw.controls_position,
            ) is None,
        },
        r matches Some(t) ==> 0 <= t.1 <= 200000000,
{
    if !draw.controls_enabled || !draw.has_media {
        return None;
    }
    let size: i32 = if placement.height >= 28 {
        ((144 * placement.height as i64 + 100) / 200) as i32
    } else {
        20
    };
    let width = size * 3 + 12;
    let half = (placement.height - size) / 2;
    let top = placement.widget_y + if half > 0 {
        half
    } else {
        0
    };
    let start = if draw.controls_position == 0 {
        placement.widget_x + 4
    } else {
        placement.widget_x + placement.width - width + 4
    };
    Some((top, size, start, start + size + 2, start + 2 * (size + 2)))
}

/// The width the control buttons take, 0 when they are not shown.
pub fn controls_width(placement: &TaskbarWidgetPlacementDto, draw: &DrawState) -> (w: i32)
    requires
        placement_in_range(*placement),
    ensures
        w == match control_layout(
            *placement,
            draw.controls_enabled,
            draw.has_media,
            draw.controls_position,
        ) {
            Some(l) => l.1 * 3 + 12,
            None => 0,
        },
{
    match control_metrics(placement, draw) {
        Some((_, size, _, _, _)) => size * 3 + 2 * 2 + 8,
        None => 0,
    }
}

/// What a click at `(x, y)` (relative to the taskbar container) asks for: a control
/// button when the click lands on one (inclusive edges), otherwise showing the flyout.
pub open spec fn click_action(
    x: int,
    y: int,
    placement: Option<TaskbarWidgetPlacementDto>,
    controls_enabled: bool,
    has_media: bool,
    position: i32,
) -> TaskbarWidgetAction {
    match placement {
        None => TaskbarWidgetAction::ShowFlyout,
        Some(p) => match control_layout(p, controls_enabled, has_media, position) {
            None => TaskbarWidgetAction::ShowFlyout,
            Some((top, size, a, b, c)) => if y < top || y > top + size {
                TaskbarWidgetAction::ShowFlyout
            } else if a <= x <= a + size {
                TaskbarWidgetAction::Previous
            } else if b <= x <= b + size {
                TaskbarWidgetAction::PlayPause
            } else if c <= x <= c + size {
                TaskbarWidgetAction::Next
            } else {
                TaskbarWidgetAction::ShowFlyout
            },
        },
    }
}

/// What a click at `(x, y)` on the widget asks for (see `click_action`).
pub fn widget_action_at(x: i32, y: i32, draw: &DrawState) -> (a: TaskbarWidgetAction)
    requires
        draw.placement matches Some(p) ==> placement_in_range(p),
    ensures
        a == click_action(
            x as int,
            y as int,
            draw.placement,
            draw.controls_enabled,
            draw.has_media,
            draw.controls_position,
        ),
{
    let placement = match &draw.placement {
        None => {
            return TaskbarWidgetAction::ShowFlyout;
        },
        Some(p) => p,
    };
    if !draw.controls_enabled {
        return TaskbarWidgetAction::ShowFlyout;
    }
    match control_metrics(placement, draw) {
        None => TaskbarWidgetAction::ShowFlyout,
        Some((top, size, a, b, c)) => {
            let bottom = top + size;
            if y < top || y > bottom {
                TaskbarWidgetAction::ShowFlyout
            } else if x >= a && x <= a + size {
                TaskbarWidgetAction::Previous
            } else if x >= b && x <= b + size {
                TaskbarWidgetAction::PlayPause
            } else if x >= c && x <= c + size {
                TaskbarWidgetAction::Next
            } else {
                TaskbarWidgetAction::ShowFlyout
            }
        },
    }
}

/// What applying the settings does to the native widget.
#[derive(Clone, Copy, Debug, PartialEq, Eq, Structural)]
pub enum WidgetUpdate {
    /// Remove the widget: it is turned off, or it hides while there is no media.
    Destroy,
    /// Create a widget inside the taskbar (replacing one inside another parent) and place it.
    CreateAndPlace,
    /// Move the existing widget to the new placement.
    Place,
    /// Leave the widget where it is.
    Keep,
}

/// What applying the settings does: destroy the widget when it is off or hides for
/// lack of media; create it when there is none yet or its taskbar changed; move it
/// when the placement changed; else nothing.
pub open spec fn widget_update(
    enabled: bool,
    hide_completely: bool,
    has_media: bool,
    same_parent: Option<bool>,
    placement_changed: bool,
) -> WidgetUpdate {
    if !enabled || (hide_completely && !has_media) {
        WidgetUpdate::Destroy
    } else if same_parent != Some(true) {
        WidgetUpdate::CreateAndPlace
    } else if placement_changed {
        WidgetUpdate::Place
    } else {
        WidgetUpdate::Keep
    }
}

/// The taskbar handle that a placement's `taskbar_hwnd` text names: `0x` and then what
/// `isize::from_str_radix(_, 16)` accepts, when that value is not 0.
pub open spec fn hwnd_text_value(t: Seq<char>) -> Option<int> {
    if t.len() >= 2 && t[0] == '0' && t[1] == 'x' {
        match text::parse_isize_hex_spec(t.subrange(2, t.len() as int)) {
            Some(v) => if v != 0 { Some(v) } else { None },
            None => None,
        }
    } else {
        None
    }
}

/// Reads the taskbar handle from a placement's `taskbar_hwnd` text (see `hwnd_text_value`).
pub fn parse_hwnd_text(text: &str) -> (r: Option<isize>)
    ensures
        r matches Some(v) ==> hwnd_text_value(text@) == Some(v as int),
        r is None ==> hwnd_text_value(text@) is None,
{
    let cs = text::chars_of(text);
    if cs.len() < 2 || cs[0] != '0' || cs[1] != 'x' {
        return None;
    }
    match text::parse_isize_hex_range(&cs, 2, cs.len()) {
        Some(v) => if v != 0 { Some(v) } else { None },
        None => None,
    }
}

/// Whether the widget's current parent (`None`: there is no widget) is taskbar `p`.
pub open spec fn parent_match(current: Option<isize>, p: int) -> Option<bool> {
    match current {
        Some(c) => Some(c == p),
        None => None,
    }
}

/// The widget is turned off, or hides while there is no media.
pub open spec fn widget_off(settings: SettingsDto, has_media: bool) -> bool {
    !settings.taskbar_widget_enabled || (settings.taskbar_widget_hide_completely && !has_media)
}

/// Decides what applying the settings does to the widget (see `widget_update`), and
/// records the control and visualizer settings and the placement it is drawn with.
/// `current_parent` is the taskbar handle the widget lives in (`None` when there is no
/// widget yet); `placement_changed` whether the placement differs from the one it was
/// last positioned with. A widget that is on needs the placement's taskbar handle: when
/// its text names none, the `taskbar.parent` error comes back and nothing is recorded.
pub fn apply_widget_settings(
    draw: &mut DrawState,
    settings: &SettingsDto,
    placement: &TaskbarWidgetPlacementDto,
    current_parent: Option<isize>,
    placement_changed: bool,
) -> (r: Result<WidgetUpdate, AppError>)
    requires
        placement_in_range(*placement),
    ensures
        widget_off(*settings, old(draw).has_media) ==> r == Ok::<WidgetUpdate, AppError>(WidgetUpdate::Destroy)
            && *final(draw) == *old(draw),
        !widget_off(*settings, old(draw).has_media) && hwnd_text_value(placement.taskbar_hwnd@) is None ==> {
            &&& r matches Err(e)
            &&& e.code@ == "taskbar.parent"@
            &&& e.message_ko@ == "작업표시줄 창 핸들을 확인할 수 없습니다."@
            &&& e.detail is None
            &&& *final(draw) == *old(draw)
        },
        !widget_off(*settings, old(draw).has_media) ==> match hwnd_text_value(placement.taskbar_hwnd@) {
            Some(p) => {
                &&& r == Ok::<WidgetUpdate, AppError>(widget_update(
                    settings.taskbar_widget_enabled,
                    settings.taskbar_widget_hide_completely,
                    old(draw).has_media,
                    parent_match(current_parent, p),
                    placement_changed,
                ))
                &&& final(draw).controls_enabled == settings.taskbar_widget_controls_enabled
                &&& final(draw).controls_position == settings.taskbar_widget_controls_position
                &&& final(draw).visualizer_enabled == settings.taskbar_visualizer_enabled
                &&& final(draw).visualizer_bar_count == clamp_spec(
                    settings.taskbar_visualizer_bar_count as int,
                    1,
                    20,
                )
                &&& final(draw).visualizer_rect == visualizer_box(*settings, *placement)
                &&& final(draw).placement == Some(*placement)
                &&& final(draw).title == old(draw).title && final(draw).artist == old(draw).artist
                &&& final(draw).has_media == old(draw).has_media && final(draw).playing
                    == old(draw).playing
            },
            None => true,
        },
{
    if !settings.taskbar_widget_enabled || (settings.taskbar_widget_hide_completely
        && !draw.has_media) {
        return Ok(WidgetUpdate::Destroy);
    }
    let parent = match parse_hwnd_text(placement.taskbar_hwnd.as_str()) {
        Some(p) => p,
        None => {
            return Err(AppError::new("taskbar.parent", "작업표시줄 창 핸들을 확인할 수 없습니다."));
        },
    };
    let c = settings.taskbar_visualizer_bar_count;
    draw.controls_enabled = settings.taskbar_widget_controls_enabled;
    draw.controls_position = settings.taskbar_widget_controls_position;
    draw.visualizer_enabled = settings.taskbar_visualizer_enabled;
    draw.visualizer_bar_count = if c < 1 {
        1
    } else if c > 20 {
        20
    } else {
        c
    };
    draw.visualizer_rect = visualizer_rect(settings, placement);
    draw.placement = Some(placement.clone_placement());
    match current_parent {
        Some(cur) => if cur == parent {
            if placement_changed {
                Ok(WidgetUpdate::Place)
            } else {
                Ok(WidgetUpdate::Keep)
            }
        } else {
            Ok(WidgetUpdate::CreateAndPlace)
        },
        None => Ok(WidgetUpdate::CreateAndPlace),
    }
}

/// Two placements agree in every field (texts by their characters).
pub open spec fn same_placement(a: TaskbarWidgetPlacementDto, b: TaskbarWidgetPlacementDto) -> bool {
    &&& a.monitor_id == b.monitor_id && a.taskbar_hwnd@ == b.taskbar_hwnd@
    &&& a.x == b.x && a.y == b.y && a.width == b.width && a.height == b.height && a.dpi == b.dpi
    &&& a.logical_width == b.logical_width && a.logical_height == b.logical_height
    &&& a.container_x == b.container_x && a.container_y == b.container_y
    &&& a.container_width == b.container_width && a.container_height == b.container_height
    &&& a.widget_x == b.widget_x && a.widget_y == b.widget_y && a.source@ == b.source@
}

impl TaskbarWidgetPlacementDto {
    /// An exact copy.
    pub fn clone_placement(&self) -> (r: Self)
        ensures
            r == *self,
    {
        TaskbarWidgetPlacementDto {
            monitor_id: self.monitor_id,
            taskbar_hwnd: self.taskbar_hwnd.clone(),
            x: self.x,
            y: self.y,
            width: self.width,
            height: self.height,
            dpi: self.dpi,
            logical_width: self.logical_width,
            logical_height: self.logical_height,
            container_x: self.container_x,
            container_y: self.container_y,
            container_width: self.container_width,
            container_height: self.container_height,
            widget_x: self.widget_x,
            widget_y: self.widget_y,
            source: self.source.clone(),
        }
    }

    /// Whether two placements are the same in every field.
    pub fn same_as(&self, other: &Self) -> (r: bool)
        ensures
            r == same_placement(*self, *other),
    {
        self.monitor_id == other.monitor_id && text::str_eq(
            self.taskbar_hwnd.as_str(),
            other.taskbar_hwnd.as_str(),
        ) && self.x == other.x && self.y == other.y && self.width == other.width && self.height
            == other.height && self.dpi == other.dpi && self.logical_width == other.logical_width
            && self.logical_height == other.logical_height && self.container_x == other.container_x
            && self.container_y == other.container_y && self.container_width
            == other.container_width && self.container_height == other.container_height
            && self.widget_x == other.widget_x && self.widget_y == other.widget_y && text::str_eq(
            self.source.as_str(),
            other.source.as_str(),
        )
    }
}

/// Whether the taskbar's numbers are in range (see `taskbar_in_range`).
pub fn taskbar_fits(t: &TaskbarRect) -> (r: bool)
    ensures
        r == taskbar_in_range(*t),
{
    let rect_ok = |o: Option<PhysicalRect>| -> (b: bool)
        ensures
            b == (o matches Some(r) ==> rect_in_range(r)),
        {
            match o {
                Some(r) => placement::rect_fits(&r),
                None => true,
            }
        };
    placement::coord_in_range(t.left) && placement::coord_in_range(t.top) && placement::coord_in_range(t.width)
        && placement::coord_in_range(t.height) && t.dpi <= 100000 && rect_ok(t.widgets_rect) && rect_ok(
        t.system_tray_rect,
    ) && rect_ok(t.tray_rect)
}

/// Whether the placement's numbers are in range (see `placement_in_range`).
pub fn placement_fits(p: &TaskbarWidgetPlacementDto) -> (r: bool)
    ensures
        r == placement_in_range(*p),
{
    placement::coord_in_range(p.x) && placement::coord_in_range(p.y) && placement::coord_in_range(p.width)
        && placement::coord_in_range(p.height) && placement::coord_in_range(p.container_x)
        && placement::coord_in_range(p.container_y) && placement::coord_in_range(p.container_width)
        && placement::coord_in_range(p.container_height) && placement::coord_in_range(p.widget_x)
        && placement::coord_in_range(p.widget_y)
}


/// The manual padding moves the widget by exactly its amount: two placements computed
/// for the same taskbar and settings but for manual paddings `d` apart lie `d` pixels
/// apart, as long as neither is pushed against an end of the taskbar.
pub proof fn lemma_manual_padding_shifts_widget(
    p1: TaskbarWidgetPlacementDto,
    p2: TaskbarWidgetPlacementDto,
    s: SettingsDto,
    d: i32,
    monitor_id: i32,
    t: TaskbarRect,
    content: int,
)
    requires
        placement_fields(p1, s, monitor_id, t, content),
        placement_fields(
            p2,
            SettingsDto { taskbar_widget_manual_padding: (s.taskbar_widget_manual_padding + d) as i32, ..s },
            monitor_id,
            t,
            content,
        ),
        i32::MIN <= s.taskbar_widget_manual_padding + d <= i32::MAX,
        0 < p1.widget_x < t.width - p1.width,
        0 < p1.widget_x + d < t.width - p1.width,
    ensures
        p2.widget_x == p1.widget_x + d,
        p2.x == p1.x + d,
        p2.y == p1.y && p2.width == p1.width,
{
}

} // verus!
