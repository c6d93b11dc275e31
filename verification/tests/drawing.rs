use fluent_flyout::placement::PhysicalRect;
use fluent_flyout::legacy::SettingsDto;
use fluent_flyout::taskbar_widget::{apply_widget_settings, parse_hwnd_text, DrawState, TaskbarWidgetPlacementDto, WidgetUpdate};
use fluent_flyout::visualizer::draw_visualizer_bars;
use fluent_flyout::widget_paint::{max_bar_height, paint_layout, visualizer_bars};

fn px(buf: &[u32], x: usize, y: usize) -> u32 {
    buf[y * 10 + x]
}

#[test]
fn bars_stand_on_the_baseline() {
    let mut buf = vec![7u32; 40];
    draw_visualizer_bars(&mut buf, 10, 4, 40, &vec![2, 4], 2, 1, 2, 3, false, 4);
    let c = 0x010203;
    for y in 0..4 {
        for x in 0..10 {
            let first = x < 4 && y >= 2;
            let second = x >= 6;
            let expected = if first || second { c } else { 7 };
            assert_eq!(px(&buf, x, y), expected, "pixel {x},{y}");
        }
    }
}

#[test]
fn bars_can_be_centred_and_are_clipped() {
    let mut buf = vec![0u32; 40];
    draw_visualizer_bars(&mut buf, 10, 4, 40, &vec![2, 9], 2, 255, 0, 0, true, 0);
    for y in 0..4 {
        for x in 0..10 {
            let first = x < 4 && (1..3).contains(&y);
            let second = x >= 6;
            assert_eq!(px(&buf, x, y), if first || second { 0xFF0000 } else { 0 }, "pixel {x},{y}");
        }
    }
}

#[test]
fn bars_leave_padding_outside_the_visible_width() {
    let mut buf = vec![1u32; 24];
    draw_visualizer_bars(&mut buf, 4, 2, 24, &vec![5], 0, 0, 0, 9, false, 2);
    for y in 0..2 {
        for x in 0..6 {
            let expected = if x < 4 { 9 } else { 1 };
            assert_eq!(buf[y * 6 + x], expected);
        }
    }
}

#[test]
fn no_bars_draw_nothing() {
    let mut buf = vec![5u32; 40];
    draw_visualizer_bars(&mut buf, 10, 4, 40, &Vec::new(), 2, 1, 2, 3, false, 4);
    assert!(buf.iter().all(|&p| p == 5));
    draw_visualizer_bars(&mut buf, 0, 4, 40, &vec![3], 2, 1, 2, 3, false, 4);
    assert!(buf.iter().all(|&p| p == 5));
}

fn placement() -> TaskbarWidgetPlacementDto {
    TaskbarWidgetPlacementDto {
        monitor_id: 0,
        taskbar_hwnd: String::from("0x10"),
        x: 110,
        y: 1042,
        width: 300,
        height: 36,
        dpi: 96,
        logical_width: 300,
        logical_height: 40,
        container_x: 100,
        container_y: 1040,
        container_width: 1920,
        container_height: 40,
        widget_x: 10,
        widget_y: 2,
        source: String::from("shell-tray"),
    }
}

fn rect(left: i32, top: i32, right: i32, bottom: i32) -> PhysicalRect {
    PhysicalRect { left, top, right, bottom }
}

#[test]
fn paint_layout_without_media() {
    let draw = DrawState::new();
    let w = paint_layout(&placement(), &draw, 29);
    assert_eq!(w.art, rect(14, 5, 43, 34));
    assert_eq!(w.art_glyph, "♪");
    assert_eq!(w.title, None);
    assert_eq!(w.artist, None);
    assert!(w.control_glyphs.is_none());
}

#[test]
fn paint_layout_leaves_room_for_controls() {
    let mut draw = DrawState::new();
    draw.has_media = true;
    draw.playing = true;
    let w = paint_layout(&placement(), &draw, 29);
    assert_eq!(w.art, rect(14, 5, 43, 34));
    assert_eq!(w.art_glyph, "♪");
    assert_eq!(w.title, Some(rect(51, 7, 220, 23)));
    assert_eq!(w.artist, Some(rect(51, 22, 220, 35)));
    assert_eq!(w.control_glyphs, Some(("‹", "Ⅱ", "›")));

    draw.playing = false;
    draw.controls_position = 0;
    let w = paint_layout(&placement(), &draw, 29);
    assert_eq!(w.art, rect(102, 5, 131, 34));
    assert_eq!(w.art_glyph, "Ⅱ");
    assert_eq!(w.title, Some(rect(139, 7, 302, 23)));
    assert_eq!(w.artist, Some(rect(139, 22, 302, 35)));
    assert_eq!(w.control_glyphs, Some(("‹", "▶", "›")));
}

#[test]
fn visualizer_bars_rest_at_minimum_height_when_paused() {
    let v = rect(0, 0, 100, 40);
    assert_eq!(max_bar_height(&v), 26);
    let bars = visualizer_bars(&v, 3, false, 14, 0);
    assert_eq!(bars, vec![rect(10, 18, 15, 22), rect(19, 18, 24, 22), rect(28, 18, 33, 22)]);
}

#[test]
fn visualizer_bars_follow_the_wave_while_playing() {
    let v = rect(0, 0, 100, 40);
    let bars = visualizer_bars(&v, 3, true, 14, 0);
    assert_eq!(bars, vec![rect(10, 16, 15, 24), rect(19, 13, 24, 27), rect(28, 12, 33, 28)]);
    let tall = visualizer_bars(&v, 1, true, 1000, 0);
    assert_eq!(tall, vec![rect(10, 7, 15, 33)]);
    assert_eq!(max_bar_height(&rect(0, 0, 10, 10)), 4);
}

#[test]
fn taskbar_handles_are_read_as_hex_after_0x() {
    assert_eq!(parse_hwnd_text("0x10"), Some(16));
    assert_eq!(parse_hwnd_text("0xABcd"), Some(0xabcd));
    assert_eq!(parse_hwnd_text("0x+1f"), Some(31));
    assert_eq!(parse_hwnd_text("0x-1"), Some(-1));
    assert_eq!(parse_hwnd_text("0x0"), None);
    assert_eq!(parse_hwnd_text("0x"), None);
    assert_eq!(parse_hwnd_text("0x-"), None);
    assert_eq!(parse_hwnd_text("10"), None);
    assert_eq!(parse_hwnd_text("0X10"), None);
    assert_eq!(parse_hwnd_text("0x1g"), None);
    assert_eq!(parse_hwnd_text("0x1ffffffffffffffff"), None);
}

#[test]
fn applying_settings_needs_a_readable_taskbar_handle() {
    let mut settings = SettingsDto::new_default();
    settings.taskbar_widget_enabled = true;
    settings.taskbar_widget_hide_completely = false;
    let mut draw = DrawState::new();
    let mut bad = placement();
    bad.taskbar_hwnd = String::from("none");
    let e = apply_widget_settings(&mut draw, &settings, &bad, None, true).err().unwrap();
    assert_eq!(e.code, "taskbar.parent");
    assert!(draw.placement.is_none());

    let u = apply_widget_settings(&mut draw, &settings, &placement(), None, true).ok().unwrap();
    assert!(u == WidgetUpdate::CreateAndPlace);
    assert!(draw.placement.is_some());
    let u = apply_widget_settings(&mut draw, &settings, &placement(), Some(16), false).ok().unwrap();
    assert!(u == WidgetUpdate::Keep);
    let u = apply_widget_settings(&mut draw, &settings, &placement(), Some(17), false).ok().unwrap();
    assert!(u == WidgetUpdate::CreateAndPlace);

    settings.taskbar_widget_enabled = false;
    let u = apply_widget_settings(&mut draw, &settings, &bad, Some(16), false).ok().unwrap();
    assert!(u == WidgetUpdate::Destroy);
}
