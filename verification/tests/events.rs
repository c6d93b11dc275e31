use fluent_flyout::input::forwards_key_press;
use fluent_flyout::media::MediaSnapshot;
use fluent_flyout::media_session::MediaSessionDto;
use fluent_flyout::media_view::media_view;
use fluent_flyout::monitor::MonitorDto;
use fluent_flyout::placement::PhysicalRect;
use fluent_flyout::runtime_events::{key_event, widget_request, NextUpTracker, RuntimeEvent, WidgetRequest};
use fluent_flyout::taskbar_find::{intersects_monitor, taskbar_if_matches};
use fluent_flyout::taskbar_widget::TaskbarWidgetAction;

fn session(title: &str, artist: &str) -> MediaSessionDto {
    MediaSessionDto {
        title: title.to_string(),
        artist: artist.to_string(),
        album_art_data_url: None,
        playback_status: String::from("playing"),
        can_play: true,
        can_pause: true,
        can_previous: true,
        can_next: true,
    }
}

#[test]
fn key_releases_become_runtime_events() {
    assert!(matches!(key_event(0, 0x101, 0xB3, false), Some(RuntimeEvent::MediaKey)));
    assert!(matches!(key_event(0, 0x105, 0xAD, false), Some(RuntimeEvent::MediaKey)));
    assert!(matches!(
        key_event(0, 0x101, 0x14, true),
        Some(RuntimeEvent::LockKey { name: "Caps Lock", enabled: true })
    ));
    assert!(matches!(
        key_event(0, 0x101, 0x2D, false),
        Some(RuntimeEvent::LockKey { name: "Insert", enabled: false })
    ));
    assert!(key_event(0, 0x100, 0xB3, false).is_none());
    assert!(key_event(-1, 0x101, 0xB3, false).is_none());
    assert!(key_event(0, 0x101, 0xB2, false).is_none());
}

#[test]
fn keyboard_hook_forwards_key_presses_only() {
    assert!(forwards_key_press(0, 0x100));
    assert!(forwards_key_press(3, 0x104));
    assert!(!forwards_key_press(0, 0x101));
    assert!(!forwards_key_press(-1, 0x100));
}

#[test]
fn next_up_is_announced_on_a_track_change_only() {
    let mut t = NextUpTracker::new();
    assert!(!t.observe(&session("One", "A")));
    assert_eq!(t.last_track, "One|A");
    assert!(!t.observe(&session("One", "A")));
    assert!(!t.observe(&session("No media playing", "")));
    assert_eq!(t.last_track, "One|A");
    assert!(!t.observe(&session("  ", "B")));
    assert!(t.observe(&session("Two", "A")));
    assert_eq!(t.last_track, "Two|A");
    assert!(t.observe(&session("Two", "B")));
}

#[test]
fn widget_clicks_become_requests() {
    assert!(widget_request(TaskbarWidgetAction::ShowFlyout, false).is_none());
    assert!(matches!(
        widget_request(TaskbarWidgetAction::ShowFlyout, true),
        Some(WidgetRequest::ShowMediaFlyout)
    ));
    assert!(matches!(
        widget_request(TaskbarWidgetAction::Previous, false),
        Some(WidgetRequest::Control("previous"))
    ));
    assert!(matches!(
        widget_request(TaskbarWidgetAction::PlayPause, true),
        Some(WidgetRequest::Control("playPause"))
    ));
    assert!(matches!(widget_request(TaskbarWidgetAction::Next, true), Some(WidgetRequest::Control("next"))));
}

fn snapshot(playing: bool, max_seek: i64) -> MediaSnapshot {
    MediaSnapshot {
        session_key: String::from("k"),
        title: String::from("Title"),
        artist: String::from("Artist"),
        player_label: String::from("Spotify"),
        current_duration: String::from("0:05"),
        max_duration: String::from("0:00"),
        position_ticks: 50_000_000,
        max_seek_ticks: max_seek,
        repeat_label: String::from("1"),
        repeat_active: true,
        shuffle_active: false,
        can_toggle_repeat: true,
        can_toggle_shuffle: false,
        supports_seekbar: false,
        is_playing: playing,
        album_art_bytes: None,
        has_album_art: false,
    }
}

#[test]
fn media_view_shows_the_snapshot() {
    let s = snapshot(true, 3_000_000);
    let v = media_view(Some(&s));
    assert_eq!(v.title, "Title");
    assert_eq!(v.player, "Spotify");
    assert!(v.has_media && v.is_playing);
    assert_eq!(v.seek_value_ticks, 50_000_000);
    assert_eq!(v.seek_maximum_ticks, 10_000_000);
    assert_eq!(v.play_pause_label, "II");
    assert_eq!(v.repeat_label, "1");
    assert!(v.repeat_available && !v.shuffle_available);
    let v = media_view(Some(&snapshot(false, 1_800_000_000)));
    assert_eq!(v.seek_maximum_ticks, 1_800_000_000);
    assert_eq!(v.play_pause_label, ">");
}

#[test]
fn media_view_without_media_is_idle() {
    let v = media_view(None);
    assert_eq!(v.title, "No media playing");
    assert_eq!(v.artist, "");
    assert_eq!(v.player, "Idle");
    assert_eq!(v.current_duration, "-:--");
    assert_eq!(v.max_duration, "-:--");
    assert!(!v.has_media && !v.has_album_art && !v.is_playing);
    assert_eq!((v.seek_value_ticks, v.seek_maximum_ticks), (0, 10_000_000));
    assert_eq!(v.repeat_label, "R");
    assert_eq!(v.play_pause_label, ">");
}

fn monitor() -> MonitorDto {
    MonitorDto {
        id: 0,
        name: String::from("* 1 (Generic PnP Monitor)"),
        left: 0,
        top: 0,
        width: 1920,
        height: 1080,
        is_primary: true,
    }
}

fn rect(left: i32, top: i32, right: i32, bottom: i32) -> PhysicalRect {
    PhysicalRect { left, top, right, bottom }
}

#[test]
fn taskbar_must_overlap_the_monitor() {
    let m = monitor();
    assert!(intersects_monitor(&rect(0, 1032, 1920, 1080), &m));
    assert!(!intersects_monitor(&rect(1920, 1032, 3840, 1080), &m));
    assert!(!intersects_monitor(&rect(0, 1080, 1920, 1128), &m));
}

#[test]
fn taskbar_prefers_its_frame_and_tags_the_source() {
    let m = monitor();
    let shell = rect(0, 1032, 1920, 1080);
    let frame = rect(0, 1036, 1920, 1080);
    let t = taskbar_if_matches(String::from("0x1A"), shell, Some(frame), &m, "shell-tray", 120, None, None, None)
        .unwrap();
    assert_eq!((t.left, t.top, t.width, t.height, t.dpi), (0, 1036, 1920, 44, 120));
    assert_eq!(t.source, "shell-tray:uia-taskbar-frame");
    assert_eq!(t.hwnd, "0x1A");
    let tray = Some(rect(1700, 1032, 1920, 1080));
    let t = taskbar_if_matches(String::from("0x2B"), shell, None, &m, "secondary-tray", 96, None, None, tray)
        .unwrap();
    assert_eq!(t.height, 48);
    assert_eq!(t.source, "secondary-tray:tray-fallback");
    assert_eq!(t.tray_rect, tray);
    let t = taskbar_if_matches(String::from("0x3"), shell, None, &m, "shell-tray", 96, None, None, None).unwrap();
    assert_eq!(t.source, "shell-tray");
}

#[test]
fn taskbar_without_area_or_elsewhere_is_rejected() {
    let m = monitor();
    let empty = rect(0, 1080, 1920, 1080);
    assert!(taskbar_if_matches(String::from("0x1"), empty, None, &m, "s", 96, None, None, None).is_none());
    let other = rect(1920, 1032, 3840, 1080);
    assert!(taskbar_if_matches(String::from("0x1"), other, None, &m, "s", 96, None, None, None).is_none());
    let shell = rect(0, 1032, 1920, 1080);
    assert!(taskbar_if_matches(String::from("0x1"), shell, Some(empty), &m, "s", 96, None, None, None).is_none());
}
