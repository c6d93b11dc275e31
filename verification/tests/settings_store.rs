use fluent_flyout::legacy::{apply_bool, apply_i32, clamp_settings, import_legacy_settings, legacy_settings_xml, SettingsDto};
use fluent_flyout::settings::{clamp_i32, AppPreviewState, FluentFlyoutSettings};
use fluent_flyout::taskbar_widget::{
    calculate_placement, dynamic_logical_width, estimate_text_width, TaskbarRect,
};

#[test]
fn legacy_import_reads_known_tags_and_clamps() {
    let xml = "<?xml version=\"1.0\"?>\n<UserSettings>\n  <CompactLayout>true</CompactLayout>\n  <Duration>20000</Duration>\n  <Position> 3 </Position>\n  <TaskbarVisualizerBarCount>50</TaskbarVisualizerBarCount>\n  <AcrylicBlurOpacity>-4</AcrylicBlurOpacity>\n  <NIconHide>yes</NIconHide>\n  <nIconLeftClick>1</nIconLeftClick>\n</UserSettings>\n";
    let s = import_legacy_settings(xml);
    assert!(s.compact_layout);
    assert_eq!(s.duration, 10000);
    assert_eq!(s.position, 3);
    assert_eq!(s.taskbar_visualizer_bar_count, 20);
    assert_eq!(s.acrylic_blur_opacity, 0);
    assert!(!s.nicon_hide);
    assert_eq!(s.nicon_left_click, 1);
    assert_eq!(s.lock_keys_duration, 2000);
    assert!(s.media_flyout_enabled);
}

#[test]
fn legacy_import_of_an_empty_document_gives_defaults() {
    let s = import_legacy_settings("");
    let d = SettingsDto::new_default();
    assert_eq!(s.duration, d.duration);
    assert_eq!(s.acrylic_blur_opacity, 175);
    assert_eq!(s.taskbar_visualizer_bar_count, 10);
    assert_eq!(s.taskbar_widget_controls_position, 1);
}

#[test]
fn legacy_export_writes_every_entry() {
    let xml = legacy_settings_xml(&SettingsDto::new_default());
    assert!(xml.starts_with("<?xml version=\"1.0\" encoding=\"utf-8\"?>\n<UserSettings xmlns:xsi="));
    assert!(xml.ends_with("</UserSettings>\n"));
    assert!(xml.contains("  <CompactLayout>false</CompactLayout>\n"));
    assert!(xml.contains("<Duration>3000</Duration>"));
    assert!(xml.contains("<AppLanguage>system</AppLanguage>"));
    assert!(xml.contains("<nIconLeftClick>0</nIconLeftClick>"));
    assert!(xml.contains("<AcrylicBlurOpacity>175</AcrylicBlurOpacity>"));
}

#[test]
fn legacy_export_then_import_keeps_the_settings() {
    let mut s = SettingsDto::new_default();
    s.compact_layout = true;
    s.duration = 4500;
    s.position = 5;
    s.nicon_hide = true;
    s.taskbar_widget_manual_padding = -12;
    s.taskbar_visualizer_bar_count = 7;
    s.app_theme = 2;
    let back = import_legacy_settings(&legacy_settings_xml(&s));
    assert!(back.compact_layout);
    assert_eq!(back.duration, 4500);
    assert_eq!(back.position, 5);
    assert!(back.nicon_hide);
    assert_eq!(back.taskbar_widget_manual_padding, -12);
    assert_eq!(back.taskbar_visualizer_bar_count, 7);
    assert_eq!(back.app_theme, 2);
}

#[test]
fn clamp_settings_limits_ranges() {
    let mut s = SettingsDto::new_default();
    s.duration = -5;
    s.lock_keys_duration = 20000;
    s.next_up_duration = 7000;
    s.acrylic_blur_opacity = 300;
    s.taskbar_visualizer_bar_count = 0;
    s.taskbar_visualizer_audio_sensitivity = 9;
    s.taskbar_visualizer_audio_peak_level = -1;
    clamp_settings(&mut s);
    assert_eq!(s.duration, 0);
    assert_eq!(s.lock_keys_duration, 10000);
    assert_eq!(s.next_up_duration, 7000);
    assert_eq!(s.acrylic_blur_opacity, 255);
    assert_eq!(s.taskbar_visualizer_bar_count, 1);
    assert_eq!(s.taskbar_visualizer_audio_sensitivity, 3);
    assert_eq!(s.taskbar_visualizer_audio_peak_level, 1);
    assert_eq!(clamp_i32(5, 0, 3), 3);
}

#[test]
fn apply_helpers_keep_the_value_on_bad_text() {
    let xml = "<A>true</A><B>-42</B><C>maybe</C><D>12x</D>";
    let mut b = false;
    apply_bool(xml, "A", &mut b);
    assert!(b);
    apply_bool(xml, "C", &mut b);
    assert!(b);
    let mut n = 7;
    apply_i32(xml, "B", &mut n);
    assert_eq!(n, -42);
    apply_i32(xml, "D", &mut n);
    assert_eq!(n, -42);
    apply_i32(xml, "Missing", &mut n);
    assert_eq!(n, -42);
}

#[test]
fn preview_state_reflects_the_settings() {
    let mut s = FluentFlyoutSettings::default();
    s.duration = 20000;
    s.compact_layout = true;
    let p = AppPreviewState::from_settings(&s, String::from("C:\\s.xml"), None);
    assert_eq!(p.flyout_duration_ms, 10000);
    assert_eq!(p.lock_keys_duration_ms, 2000);
    assert!(p.normal_compact_layout);
    assert!(!p.compact_compact_layout);
    assert_eq!(p.compact_background_blur_style, 2);
    assert_eq!(p.settings_status, "Loaded C:\\s.xml");
    assert!(p.settings_summary.starts_with("compact=true, repeat=false"));
    assert!(p.settings_summary.ends_with(", lang=system, tidal-only=true"));
    assert_eq!(p.normal.title, "Glass Arcade");
    let p = AppPreviewState::from_settings(&s, String::from("x"), Some(String::from("missing file")));
    assert_eq!(p.settings_status, "Using defaults: missing file");
}

#[test]
fn text_width_estimates() {
    assert_eq!(estimate_text_width(""), 0);
    assert_eq!(estimate_text_width("abc"), 22);
    assert_eq!(estimate_text_width("a b"), 18);
    assert_eq!(estimate_text_width("한글"), 24);
    assert_eq!(dynamic_logical_width("", ""), 100);
    assert_eq!(dynamic_logical_width(&"x".repeat(100), ""), 240);
    assert_eq!(dynamic_logical_width("Song", &"y".repeat(10)), 127);
}

fn taskbar() -> TaskbarRect {
    TaskbarRect {
        hwnd: String::from("0x1"),
        left: 0,
        top: 1032,
        width: 1920,
        height: 48,
        dpi: 96,
        widgets_rect: None,
        system_tray_rect: None,
        tray_rect: None,
        source: String::from("shell-tray"),
    }
}

#[test]
fn placement_inside_the_taskbar() {
    let s = SettingsDto::new_default();
    let t = taskbar();
    let p = calculate_placement(&s, 2, Some(&t), "Song", "Band").unwrap();
    assert_eq!(p.monitor_id, 2);
    assert_eq!((p.x, p.y, p.width, p.height), (20, 1036, 245, 40));
    assert_eq!((p.logical_width, p.logical_height), (245, 40));
    assert_eq!((p.widget_x, p.widget_y), (20, 4));
    assert_eq!(p.source, "shell-tray");
    assert_eq!(p.taskbar_hwnd, "0x1");
}

#[test]
fn placement_without_a_taskbar_fails() {
    let s = SettingsDto::new_default();
    let e = calculate_placement(&s, 0, None, "Song", "Band").unwrap_err();
    assert_eq!(e.code, "taskbar.parent");
}

#[test]
fn legacy_round_trip_limits_ranges_and_keeps_defaults_for_unread_settings() {
    let defaults = SettingsDto::new_default();
    let mut s = SettingsDto::new_default();
    s.duration = 20_000;
    s.lock_keys_duration = -5;
    s.flyout_animation_speed = defaults.flyout_animation_speed + 3;
    s.app_language_index = 2;
    s.taskbar_visualizer_clickable = !defaults.taskbar_visualizer_clickable;
    let back = import_legacy_settings(&legacy_settings_xml(&s));
    assert_eq!(back.duration, 10_000);
    assert_eq!(back.lock_keys_duration, 0);
    assert_eq!(back.flyout_animation_speed, defaults.flyout_animation_speed);
    assert_eq!(back.app_language_index, defaults.app_language_index);
    assert_eq!(back.taskbar_visualizer_clickable, defaults.taskbar_visualizer_clickable);
}
