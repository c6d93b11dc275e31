use fluent_flyout::error::AppError;
use fluent_flyout::media::{
    cycle_repeat_mode, format_ticks, media_snapshot, next_repeat_mode, sanitize_player_label,
    seek_to_ticks, select_session, sessions_to_pause, skip_next, skip_previous, toggle_play_pause,
    toggle_shuffle, MediaCommand, MediaProperties, MediaRequest, MediaSessionReading, PlaybackStatus,
    RepeatMode, SessionChoice,
};
use fluent_flyout::media_session::{
    album_art_data_url, control_command, control_outcome, decode_album_art, empty_session,
    media_session_dto, session_has_media, ControlFlags,
};

fn ids(v: &[&str]) -> Vec<String> {
    v.iter().map(|s| s.to_string()).collect()
}

#[test]
fn player_labels() {
    assert_eq!(sanitize_player_label(""), "Unknown");
    assert_eq!(sanitize_player_label("TIDAL.exe"), "TIDAL");
    assert_eq!(sanitize_player_label("SpotifyAB.SpotifyMusic_zpdnekdrzrea0!Spotify"), "Spotify");
    assert_eq!(sanitize_player_label("Microsoft.ZuneMusic_8wekyb3d8bbwe!Microsoft.ZuneMusic"), "Microsoft");
    assert_eq!(sanitize_player_label("com.github.App"), "App");
    assert_eq!(sanitize_player_label("chrome.exe"), "chrome");
    assert_eq!(sanitize_player_label("EXE..COM"), "EXE..COM");
}

#[test]
fn tick_formatting() {
    assert_eq!(format_ticks(0), "-:--");
    assert_eq!(format_ticks(-10), "-:--");
    assert_eq!(format_ticks(9_999_999), "0:00");
    assert_eq!(format_ticks(50_000_000), "0:05");
    assert_eq!(format_ticks(750_000_000), "1:15");
    assert_eq!(format_ticks(37_250_000_000), "01:02:05");
    assert_eq!(format_ticks(360_000_000_000 * 3 + 10_000_000), "30:00:01");
}

#[test]
fn repeat_cycles_off_list_track() {
    assert_eq!(next_repeat_mode(RepeatMode::Off), RepeatMode::List);
    assert_eq!(next_repeat_mode(RepeatMode::List), RepeatMode::Track);
    assert_eq!(next_repeat_mode(RepeatMode::Track), RepeatMode::Off);
    let mut m = RepeatMode::Track;
    for _ in 0..3 {
        m = next_repeat_mode(m);
    }
    assert_eq!(m, RepeatMode::Track);
}

#[test]
fn exclusive_tidal_mode_picks_the_first_tidal_session() {
    let list = ids(&["Spotify.exe", "TIDAL.exe", "com.tidal.TIDAL"]);
    assert_eq!(select_session(true, &list), Some(SessionChoice::Listed(1)));
    assert_eq!(select_session(true, &ids(&["Spotify.exe"])), None);
    assert_eq!(select_session(false, &ids(&["Spotify.exe"])), Some(SessionChoice::Current));
}

#[test]
fn controls_go_to_the_chosen_session() {
    let list = ids(&["a", "TIDAL"]);
    let req = |command| Ok::<MediaRequest, String>(MediaRequest { session: SessionChoice::Listed(1), command });
    assert_eq!(toggle_play_pause(true, &list), req(MediaCommand::TogglePlayPause));
    assert_eq!(skip_next(true, &list), req(MediaCommand::SkipNext));
    assert_eq!(skip_previous(true, &list), req(MediaCommand::SkipPrevious));
    assert_eq!(toggle_shuffle(true, &list, true), req(MediaCommand::ChangeShuffleActive(false)));
    assert_eq!(
        cycle_repeat_mode(true, &list, RepeatMode::Off),
        req(MediaCommand::ChangeAutoRepeatMode(RepeatMode::List))
    );
    assert_eq!(seek_to_ticks(true, &list, -5), req(MediaCommand::ChangePlaybackPosition(0)));
    assert_eq!(
        skip_next(false, &Vec::new()),
        Ok(MediaRequest { session: SessionChoice::Current, command: MediaCommand::SkipNext })
    );
}

#[test]
fn controls_without_a_session_fail() {
    assert_eq!(toggle_play_pause(true, &ids(&["Spotify"])), Err(String::from("No active media session")));
    assert_eq!(seek_to_ticks(true, &Vec::new(), 100), Err(String::from("No active media session")));
}

#[test]
fn other_sessions_are_paused() {
    let list = ids(&["a", "b", "a", "c"]);
    assert_eq!(sessions_to_pause("a", &list), vec![1, 3]);
    assert_eq!(sessions_to_pause("z", &list), vec![0, 1, 2, 3]);
    assert!(sessions_to_pause("a", &ids(&["a"])).is_empty());
}

#[test]
fn snapshot_of_a_playing_session() {
    let reading = MediaSessionReading {
        source_app_id: Some(String::from("Spotify.exe")),
        properties: Some(MediaProperties {
            title: Some(String::from("Song")),
            artist: Some(String::from("Band")),
            thumbnail: Some(vec![1, 2, 3]),
        }),
        playback_status: Some(PlaybackStatus::Playing),
        can_toggle_repeat: Some(true),
        can_toggle_shuffle: None,
        repeat_mode: Some(RepeatMode::Track),
        shuffle_active: Some(true),
        max_seek_ticks: Some(1_800_000_000),
        position_ticks: Some(650_000_000),
    };
    let s = media_snapshot(reading);
    assert_eq!(s.session_key, "Spotify.exe|Song|Band|playing");
    assert_eq!(s.title, "Song");
    assert_eq!(s.player_label, "Spotify");
    assert_eq!(s.current_duration, "1:05");
    assert_eq!(s.max_duration, "3:00");
    assert_eq!(s.repeat_label, "1");
    assert!(s.repeat_active && s.shuffle_active && s.can_toggle_repeat && !s.can_toggle_shuffle);
    assert!(s.supports_seekbar && s.is_playing && s.has_album_art);
    assert_eq!(s.album_art_bytes, Some(vec![1, 2, 3]));
}

#[test]
fn snapshot_of_an_unreadable_session() {
    let reading = MediaSessionReading {
        source_app_id: None,
        properties: None,
        playback_status: None,
        can_toggle_repeat: None,
        can_toggle_shuffle: None,
        repeat_mode: None,
        shuffle_active: None,
        max_seek_ticks: Some(5_000_000),
        position_ticks: None,
    };
    let s = media_snapshot(reading);
    assert_eq!(s.session_key, "|No media playing||idle");
    assert_eq!(s.player_label, "Unknown");
    assert_eq!(s.current_duration, "-:--");
    assert_eq!(s.max_duration, "0:00");
    assert_eq!(s.repeat_label, "R");
    assert!(!s.repeat_active && !s.supports_seekbar && !s.is_playing && !s.has_album_art);
}

#[test]
fn session_record_for_blank_title_is_the_placeholder() {
    let d = media_session_dto(String::from("  "), String::from("x"), None, Some(PlaybackStatus::Playing), None);
    assert_eq!(d.title, "No media playing");
    assert_eq!(d.playback_status, "stopped");
    assert!(!d.can_play && !d.can_next);
    assert!(!session_has_media(&d));
    let flags = ControlFlags { can_play: true, can_pause: false, can_previous: true, can_next: false };
    let d = media_session_dto(String::from("T"), String::from("A"), None, Some(PlaybackStatus::Paused), Some(flags));
    assert_eq!(d.playback_status, "paused");
    assert!(d.can_play && !d.can_pause && d.can_previous && !d.can_next);
    assert!(session_has_media(&d));
    let e = empty_session();
    assert_eq!(e.title, "No media playing");
    assert_eq!(e.playback_status, "stopped");
    assert!(!session_has_media(&e));
}

#[test]
fn album_art_data_urls() {
    assert_eq!(album_art_data_url(&b"Man".to_vec(), Some(String::from("image/png"))), "data:image/png;base64,TWFu");
    assert_eq!(album_art_data_url(&b"Ma".to_vec(), None), "data:image/jpeg;base64,TWE=");
    assert_eq!(album_art_data_url(&b"M".to_vec(), Some(String::from("text/plain"))), "data:image/jpeg;base64,TQ==");
    assert_eq!(album_art_data_url(&Vec::new(), Some(String::from("image/"))), "data:image/;base64,");
}

#[test]
fn album_art_that_does_not_decode_is_dropped() {
    assert!(decode_album_art(None).is_none());
    assert!(decode_album_art(Some(&vec![1, 2, 3, 4])).is_none());
}

#[test]
fn album_art_png_decodes_to_rgba() {
    let png: Vec<u8> = vec![
        0x89, 0x50, 0x4E, 0x47, 0x0D, 0x0A, 0x1A, 0x0A, 0x00, 0x00, 0x00, 0x0D, 0x49, 0x48, 0x44, 0x52, 0x00,
        0x00, 0x00, 0x01, 0x00, 0x00, 0x00, 0x01, 0x08, 0x06, 0x00, 0x00, 0x00, 0x1F, 0x15, 0xC4, 0x89, 0x00,
        0x00, 0x00, 0x0D, 0x49, 0x44, 0x41, 0x54, 0x78, 0x9C, 0x63, 0xF8, 0xCF, 0xC0, 0xF0, 0x1F, 0x00, 0x05,
        0x00, 0x01, 0xFF, 0x89, 0x99, 0x3D, 0x1D, 0x00, 0x00, 0x00, 0x00, 0x49, 0x45, 0x4E, 0x44, 0xAE, 0x42,
        0x60, 0x82,
    ];
    let img = decode_album_art(Some(&png)).expect("a 1x1 PNG decodes");
    assert_eq!((img.width, img.height), (1, 1));
    assert_eq!(img.rgba, vec![255, 0, 0, 255]);
}

#[test]
fn media_control_commands() {
    assert_eq!(control_command("playPause", true).ok(), Some(MediaCommand::TogglePlayPause));
    assert_eq!(control_command("play", true).ok(), Some(MediaCommand::Play));
    assert_eq!(control_command("pause", true).ok(), Some(MediaCommand::Pause));
    assert_eq!(control_command("next", true).ok(), Some(MediaCommand::SkipNext));
    assert_eq!(control_command("previous", true).ok(), Some(MediaCommand::SkipPrevious));
    let e: AppError = control_command("stop", true).unwrap_err();
    assert_eq!(e.code, "media.invalid_action");
    let e = control_command("next", false).unwrap_err();
    assert_eq!(e.code, "media.no_session");
    assert_eq!(e.message_ko, "제어할 수 있는 미디어 세션이 없습니다.");
    assert!(control_outcome(true).is_ok());
    assert_eq!(control_outcome(false).unwrap_err().code, "media.control.rejected");
}

#[test]
fn app_error_constructors() {
    let e = AppError::new("a.b", "메시지");
    assert_eq!((e.code.as_str(), e.message_ko.as_str(), e.detail.clone()), ("a.b", "메시지", None));
    let e = AppError::with_detail("a.b", "메시지", "why");
    assert_eq!(e.detail.as_deref(), Some("why"));
    assert_eq!(e.to_display_string(), "메시지");
}
