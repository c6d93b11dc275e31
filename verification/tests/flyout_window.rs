use fluent_flyout::flyout_window::{
    hide_after_ms, show_lock_keys_flyout, show_media_flyout, show_next_up_flyout, window_position,
};
use fluent_flyout::legacy::SettingsDto;
use fluent_flyout::media_session::MediaSessionDto;
use fluent_flyout::monitor::MonitorDto;

fn media(title: &str, artist: &str, art: Option<&str>) -> MediaSessionDto {
    MediaSessionDto {
        title: title.to_string(),
        artist: artist.to_string(),
        album_art_data_url: art.map(|a| a.to_string()),
        playback_status: String::from("playing"),
        can_play: true,
        can_pause: true,
        can_previous: true,
        can_next: true,
    }
}

#[test]
fn media_flyout_size_follows_layout_and_seekbar() {
    let mut s = SettingsDto::new_default();
    let w = show_media_flyout(&s).unwrap();
    assert_eq!(w.label, "media-flyout");
    assert_eq!((w.width, w.height, w.duration_ms), (310, 116, 3000));
    s.compact_layout = true;
    s.seekbar_enabled = true;
    let w = show_media_flyout(&s).unwrap();
    assert_eq!((w.width, w.height), (400, 184));
    s.media_flyout_enabled = false;
    assert!(show_media_flyout(&s).is_none());
}

#[test]
fn next_up_flyout_carries_the_track() {
    let s = SettingsDto::new_default();
    let (w, p) = show_next_up_flyout(&s, &media("Song", "Artist", Some("data:image/png;base64,AA=="))).unwrap();
    assert_eq!(w.label, "next-up-flyout");
    assert_eq!((w.width, w.height, w.duration_ms), (250, 62, 2000));
    assert_eq!(p.title, "Song");
    assert_eq!(p.subtitle, "Artist");
    assert_eq!(p.icon, "next");
    assert_eq!(p.album_art_data_url.as_deref(), Some("data:image/png;base64,AA=="));
}

#[test]
fn next_up_flyout_skips_placeholder_and_blank_titles() {
    let mut s = SettingsDto::new_default();
    assert!(show_next_up_flyout(&s, &media("   ", "A", None)).is_none());
    assert!(show_next_up_flyout(&s, &media("No media playing", "", None)).is_none());
    s.next_up_enabled = false;
    assert!(show_next_up_flyout(&s, &media("Song", "A", None)).is_none());
}

#[test]
fn lock_keys_flyout_reports_the_state_in_korean() {
    let mut s = SettingsDto::new_default();
    let (w, p) = show_lock_keys_flyout(&s, "Caps Lock", true).unwrap();
    assert_eq!(w.label, "lock-keys-flyout");
    assert_eq!((w.width, w.height, w.duration_ms), (190, 50, 2000));
    assert_eq!(p.title, "Caps Lock");
    assert_eq!(p.subtitle, "켜짐");
    assert_eq!(p.icon, "lock");
    assert_eq!(p.album_art_data_url, None);
    let (_, p) = show_lock_keys_flyout(&s, "Num Lock", false).unwrap();
    assert_eq!(p.subtitle, "꺼짐");
    s.lock_keys_enabled = false;
    assert!(show_lock_keys_flyout(&s, "Caps Lock", true).is_none());
}

#[test]
fn window_hides_after_positive_duration_unless_always_displayed() {
    let mut s = SettingsDto::new_default();
    assert_eq!(hide_after_ms(&s, 3000), Some(3000));
    assert_eq!(hide_after_ms(&s, 0), None);
    assert_eq!(hide_after_ms(&s, -5), None);
    s.media_flyout_always_display = true;
    assert_eq!(hide_after_ms(&s, 3000), None);
}

#[test]
fn window_position_uses_the_selected_monitor() {
    let mut s = SettingsDto::new_default();
    assert_eq!(window_position(&Vec::new(), &s, 310, 116), Some((24, 908)));
    let monitors = vec![MonitorDto {
        id: 0,
        name: String::from("* 1 (Generic PnP Monitor)"),
        left: 1920,
        top: 0,
        width: 2560,
        height: 1440,
        is_primary: true,
    }];
    s.position = 4;
    s.flyout_selected_monitor = 5;
    assert_eq!(window_position(&monitors, &s, 310, 116), Some((3045, 24)));
    assert_eq!(window_position(&monitors, &s, 400_000_000, 116), None);
}
