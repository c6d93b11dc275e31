//! What the native taskbar widget paints: where the album-art square, the texts and the
//! control glyphs go, and the animated visualizer bars.
use vstd::prelude::*;
use crate::placement::{PhysicalRect, coord, rect_in_range, div_trunc};
use crate::taskbar_widget::{DrawState, TaskbarWidgetPlacementDto, control_layout, controls_width, placement_in_range};

verus! {

/// Where the widget's parts go in one paint.
#[derive(Clone, Copy, Debug)]
pub struct WidgetPaint {
    /// The album-art square.
    pub art: PhysicalRect,
    /// The glyph drawn in the art square.
    pub art_glyph: &'static str,
    /// The title's line, present only with media.
    pub title: Option<PhysicalRect>,
    /// The artist's line, present only with media.
    pub artist: Option<PhysicalRect>,
    /// The previous, play/pause and next glyphs, when the controls are shown.
    pub control_glyphs: Option<(&'static str, &'static str, &'static str)>,
}

/// The width the control buttons take (see `controls_width`).
pub open spec fn controls_span(p: TaskbarWidgetPlacementDto, d: DrawState) -> int {
    match control_layout(p, d.controls_enabled, d.has_media, d.controls_position) {
        Some(l) => l.1 * 3 + 12,
        None => 0,
    }
}

/// The album-art square of side `art_size`: 2 pixels right of controls on the left,
/// else 4 pixels into the widget, centred vertically (never above the widget's top).
pub open spec fn art_rect(p: TaskbarWidgetPlacementDto, d: DrawState, art_size: int) -> PhysicalRect {
    let cw = controls_span(p, d);
    let on_left = cw > 0 && d.controls_position == 0;
    let left = if on_left { p.widget_x + cw + 2 } else { p.widget_x + 4 };
    let half = div_trunc(p.height - art_size, 2);
    let top = p.widget_y + if half > 0 { half } else { 0 };
    PhysicalRect { left: left as i32, top: top as i32, right: (left + art_size) as i32, bottom: (top + art_size) as i32 }
}

/// The right end of the text lines: left of controls on the right, else 8 pixels
/// inside the widget.
pub open spec fn text_right(p: TaskbarWidgetPlacementDto, d: DrawState) -> int {
    let cw = controls_span(p, d);
    if cw > 0 && d.controls_position != 0 {
        p.widget_x + p.width - cw
    } else {
        p.widget_x + p.width - 8
    }
}

/// The paint plan: the art square (see `art_rect`) with `Ⅱ` when media is paused and `♪`
/// otherwise; with media, and only then, the title from 5 to 21 and the artist from 20
/// to 3 above the bottom, both from 8 pixels right of the art to `text_right`; the control glyphs `‹`, `Ⅱ` while
/// playing or `▶`, and `›`.
pub open spec fn paint_plan_ok(w: WidgetPaint, p: TaskbarWidgetPlacementDto, d: DrawState, art_size: int) -> bool {
    let art = art_rect(p, d, art_size);
    let tl = art.right + 8;
    let tr = text_right(p, d);
    &&& w.art == art
    &&& w.art_glyph@ == if d.has_media && !d.playing { "Ⅱ"@ } else { "♪"@ }
    &&& (w.title is Some <==> d.has_media)
    &&& (w.artist is Some <==> d.has_media)
    &&& (w.title matches Some(t) ==> t == PhysicalRect {
        left: tl as i32,
        top: (p.widget_y + 5) as i32,
        right: tr as i32,
        bottom: (p.widget_y + 21) as i32,
    })
    &&& (w.artist matches Some(a) ==> a == PhysicalRect {
        left: tl as i32,
        top: (p.widget_y + 20) as i32,
        right: tr as i32,
        bottom: (p.widget_y + p.height - 3) as i32,
    })
    &&& (control_layout(p, d.controls_enabled, d.has_media, d.controls_position) is Some <==> w.control_glyphs is Some)
    &&& (w.control_glyphs matches Some((a, b, c)) ==> (a@ == "‹"@ && b@ == (if d.playing { "Ⅱ"@ } else { "▶"@ }) && c@
        == "›"@))
}

/// Lays out one paint of the widget placed at `placement`, the art square's side being
/// `art_size` (see `paint_plan_ok`).
pub fn paint_layout(placement: &TaskbarWidgetPlacementDto, draw: &DrawState, art_size: i32) -> (w: WidgetPaint)
    requires
        placement_in_range(*placement),
        coord(art_size as int),
    ensures
        paint_plan_ok(w, *placement, *draw, art_size as int),
{
    let cw = controls_width(placement, draw);
    let on_left = cw > 0 && draw.controls_position == 0;
    let left = if on_left { placement.widget_x + cw + 2 } else { placement.widget_x + 4 };
    let half = (placement.height - art_size) / 2;
    let top = placement.widget_y + if half > 0 { half } else { 0 };
    let art = PhysicalRect { left, top, right: left + art_size, bottom: top + art_size };
    let right = placement.widget_x + placement.width;
    let tr = if cw > 0 && !on_left { right - cw } else { right - 8 };
    let tl = art.right + 8;
    let title = PhysicalRect { left: tl, top: placement.widget_y + 5, right: tr, bottom: placement.widget_y + 21 };
    let artist = PhysicalRect {
        left: tl,
        top: placement.widget_y + 20,
        right: tr,
        bottom: placement.widget_y + placement.height - 3,
    };
    let control_glyphs = if cw > 0 {
        Some(("‹", if draw.playing { "Ⅱ" } else { "▶" }, "›"))
    } else {
        None
    };
    WidgetPaint {
        art,
        art_glyph: if draw.has_media && !draw.playing { "Ⅱ" } else { "♪" },
        title: if draw.has_media { Some(title) } else { None },
        artist: if draw.has_media { Some(artist) } else { None },
        control_glyphs,
    }
}

/// The tallest a visualizer bar grows: 14 pixels less than the box, at least 4.
pub open spec fn max_bar(v: PhysicalRect) -> int {
    let h = v.bottom - v.top - 14;
    if h > 4 { h } else { 4 }
}

/// The tallest a visualizer bar grows (see `max_bar`).
pub fn max_bar_height(visualizer: &PhysicalRect) -> (h: i32)
    requires
        rect_in_range(*visualizer),
    ensures
        h == max_bar(*visualizer),
{
    let h = visualizer.height() - 14;
    if h > 4 { h } else { 4 }
}

/// `i32`'s `%`: the remainder takes the sign of the dividend.
pub open spec fn rem_trunc(a: int, b: int) -> int {
    a - div_trunc(a, b) * b
}

/// `|v|`.
pub open spec fn abs(v: int) -> int {
    if v < 0 { -v } else { v }
}

/// Bar `index`'s height at `now_ms`: while playing, 4 plus the peak height scaled by a
/// triangle wave over an 11-step phase that advances every 120 ms (3 steps between
/// neighbours), kept to `4..=max_bar`; 4 when not playing.
pub open spec fn bar_height(v: PhysicalRect, index: int, playing: bool, peak_height: int, now_ms: int) -> int {
    let phase = rem_trunc(div_trunc(now_ms, 120) + index * 3, 11);
    let dynamic = if playing {
        4 + div_trunc(peak_height * (2 + abs(abs(phase - 5) - 5)), 7)
    } else {
        4
    };
    let m = max_bar(v);
    if dynamic < 4 { 4 } else if dynamic > m { m } else { dynamic }
}

/// Bar `index`: 5 pixels wide, 9 pixels after the previous one from 10 pixels into the
/// box, centred on the box's middle row (its bottom half a bar below it).
pub open spec fn bar_rect(v: PhysicalRect, index: int, playing: bool, peak_height: int, now_ms: int) -> PhysicalRect {
    let h = bar_height(v, index, playing, peak_height, now_ms);
    let left = v.left + 10 + index * 9;
    let bottom = v.top + div_trunc(v.bottom - v.top, 2) + div_trunc(h, 2);
    PhysicalRect { left: left as i32, top: (bottom - h) as i32, right: (left + 5) as i32, bottom: bottom as i32 }
}

/// The visualizer's bars at `now_ms` (see `bar_rect`); `peak_height` is the audio
/// peak scaled to `max_bar`.
pub fn visualizer_bars(
    visualizer: &PhysicalRect,
    bar_count: i32,
    playing: bool,
    peak_height: i32,
    now_ms: i32,
) -> (bars: Vec<PhysicalRect>)
    requires
        rect_in_range(*visualizer),
        0 <= bar_count <= 0x100000,
        -0x1000000 <= peak_height <= 0x1000000,
    ensures
        bars@.len() == bar_count,
        forall|i: int| 0 <= i < bar_count ==> #[trigger] bars@[i] == bar_rect(*visualizer, i, playing, peak_height as int, now_ms as int),
{
    let m = max_bar_height(visualizer);
    let mut bars: Vec<PhysicalRect> = Vec::new();
    let mut index: i32 = 0;
    while index < bar_count
        invariant
            0 <= index <= bar_count <= 0x100000,
            -0x1000000 <= peak_height <= 0x1000000,
            rect_in_range(*visualizer),
            m == max_bar(*visualizer),
            bars@.len() == index,
            forall|i: int| 0 <= i < index ==> #[trigger] bars@[i] == bar_rect(*visualizer, i, playing, peak_height as int, now_ms as int),
        decreases bar_count - index,
    {
        let phase = ((now_ms / 120) + index * 3) % 11;
        assert(phase == rem_trunc(div_trunc(now_ms as int, 120) + index * 3, 11));
        let dynamic: i32 = if playing {
            let a = phase - 5;
            let a = if a < 0 { -a } else { a };
            let b = a - 5;
            let b = if b < 0 { -b } else { b };
            assert(0 <= b <= 10);
            assert(-0xC000000 <= peak_height * (2 + b) <= 0xC000000) by (nonlinear_arith)
                requires
                    -0x1000000 <= peak_height <= 0x1000000,
                    0 <= b <= 10,
            ;
            4 + peak_height * (2 + b) / 7
        } else {
            4
        };
        let h = if dynamic < 4 { 4 } else if dynamic > m { m } else { dynamic };
        let left = visualizer.left + 10 + index * 9;
        let bottom = visualizer.top + visualizer.height() / 2 + h / 2;
        bars.push(PhysicalRect { left, top: bottom - h, right: left + 5, bottom });
        index = index + 1;
    }
    bars
}

} // verus!
