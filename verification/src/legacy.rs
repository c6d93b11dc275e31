//! The settings record kept by the settings service, and the legacy `settings.xml`
//! document it is imported from and mirrored to.
use vstd::prelude::*;
use crate::settings::{clamp_i32, clamp_spec, bool_text};
use crate::settings_xml;
use crate::text;

verus! {

/// The settings record that the settings service stores and hands to its callers.
#[derive(Clone, Debug)]
pub struct SettingsDto {
    pub compact_layout: bool,
    pub flyout_selected_monitor: i32,
    pub position: i32,
    pub flyout_animation_speed: i32,
    pub player_info_enabled: bool,
    pub repeat_enabled: bool,
    pub shuffle_enabled: bool,
    pub startup: bool,
    pub media_flyout_always_display: bool,
    pub duration: i32,
    pub next_up_enabled: bool,
    pub next_up_duration: i32,
    pub nicon_left_click: i32,
    pub center_title_artist: bool,
    pub flyout_animation_easing_style: i32,
    pub lock_keys_enabled: bool,
    pub lock_keys_duration: i32,
    pub app_theme: i32,
    pub media_flyout_enabled: bool,
    pub media_flyout_volume_keys_excluded: bool,
    pub nicon_symbol: bool,
    pub nicon_hide: bool,
    pub disable_if_fullscreen: bool,
    pub lock_keys_bold_ui: bool,
    pub lock_keys_monitor_preference: i32,
    pub exclusive_tidal_mode: bool,
    pub seekbar_enabled: bool,
    pub pause_other_sessions_enabled: bool,
    pub lock_keys_insert_enabled: bool,
    pub media_flyout_background_blur: i32,
    pub media_flyout_acrylic_window_enabled: bool,
    pub next_up_acrylic_window_enabled: bool,
    pub lock_keys_acrylic_window_enabled: bool,
    pub app_language_index: i32,
    pub taskbar_widget_enabled: bool,
    pub taskbar_widget_selected_monitor: i32,
    pub taskbar_widget_position: i32,
    pub taskbar_widget_padding: bool,
    pub taskbar_widget_manual_padding: i32,
    pub taskbar_widget_clickable: bool,
    pub taskbar_widget_closeable_flyout: bool,
    pub taskbar_widget_background_blur: bool,
    pub taskbar_widget_hide_completely: bool,
    pub taskbar_widget_controls_enabled: bool,
    pub taskbar_widget_controls_position: i32,
    pub taskbar_widget_animated: bool,
    pub taskbar_visualizer_enabled: bool,
    pub taskbar_visualizer_position: i32,
    pub taskbar_visualizer_clickable: bool,
    pub taskbar_visualizer_bar_count: i32,
    pub taskbar_visualizer_centered_bars: bool,
    pub taskbar_visualizer_baseline: bool,
    pub taskbar_visualizer_audio_sensitivity: i32,
    pub taskbar_visualizer_audio_peak_level: i32,
    pub acrylic_blur_opacity: i32,
    pub use_album_art_as_accent_color: bool,
    pub show_update_notifications: bool,
    pub legacy_taskbar_width_enabled: bool,
}

impl SettingsDto {
    /// The settings a fresh installation starts from.
    pub fn new_default() -> (r: Self)
        ensures
            r == default_settings_dto(),
    {
        Self {
            compact_layout: false,
            flyout_selected_monitor: 0,
            position: 0,
            flyout_animation_speed: 2,
            player_info_enabled: true,
            repeat_enabled: false,
            shuffle_enabled: false,
            startup: true,
            media_flyout_always_display: false,
            duration: 3000,
            next_up_enabled: true,
            next_up_duration: 2000,
            nicon_left_click: 0,
            center_title_artist: false,
            flyout_animation_easing_style: 2,
            lock_keys_enabled: true,
            lock_keys_duration: 2000,
            app_theme: 0,
            media_flyout_enabled: true,
            media_flyout_volume_keys_excluded: false,
            nicon_symbol: false,
            nicon_hide: false,
            disable_if_fullscreen: true,
            lock_keys_bold_ui: false,
            lock_keys_monitor_preference: 0,
            exclusive_tidal_mode: true,
            seekbar_enabled: false,
            pause_other_sessions_enabled: false,
            lock_keys_insert_enabled: true,
            media_flyout_background_blur: 0,
            media_flyout_acrylic_window_enabled: true,
            next_up_acrylic_window_enabled: true,
            lock_keys_acrylic_window_enabled: true,
            app_language_index: 0,
            taskbar_widget_enabled: true,
            taskbar_widget_selected_monitor: 0,
            taskbar_widget_position: 0,
            taskbar_widget_padding: true,
            taskbar_widget_manual_padding: 0,
            taskbar_widget_clickable: true,
            taskbar_widget_closeable_flyout: true,
            taskbar_widget_background_blur: false,
            taskbar_widget_hide_completely: false,
            taskbar_widget_controls_enabled: true,
            taskbar_widget_controls_position: 1,
            taskbar_widget_animated: true,
            taskbar_visualizer_enabled: false,
            taskbar_visualizer_position: 0,
            taskbar_visualizer_clickable: false,
            taskbar_visualizer_bar_count: 10,
            taskbar_visualizer_centered_bars: false,
            taskbar_visualizer_baseline: false,
            taskbar_visualizer_audio_sensitivity: 2,
            taskbar_visualizer_audio_peak_level: 2,
            acrylic_blur_opacity: 175,
            use_album_art_as_accent_color: false,
            show_update_notifications: true,
            legacy_taskbar_width_enabled: false,
        }
    }
}

/// The settings a fresh installation starts from.
pub open spec fn default_settings_dto() -> SettingsDto {
    SettingsDto {
        compact_layout: false,
        flyout_selected_monitor: 0,
        position: 0,
        flyout_animation_speed: 2,
        player_info_enabled: true,
        repeat_enabled: false,
        shuffle_enabled: false,
        startup: true,
        media_flyout_always_display: false,
        duration: 3000,
        next_up_enabled: true,
        next_up_duration: 2000,
        nicon_left_click: 0,
        center_title_artist: false,
        flyout_animation_easing_style: 2,
        lock_keys_enabled: true,
        lock_keys_duration: 2000,
        app_theme: 0,
        media_flyout_enabled: true,
        media_flyout_volume_keys_excluded: false,
        nicon_symbol: false,
        nicon_hide: false,
        disable_if_fullscreen: true,
        lock_keys_bold_ui: false,
        lock_keys_monitor_preference: 0,
        exclusive_tidal_mode: true,
        seekbar_enabled: false,
        pause_other_sessions_enabled: false,
        lock_keys_insert_enabled: true,
        media_flyout_background_blur: 0,
        media_flyout_acrylic_window_enabled: true,
        next_up_acrylic_window_enabled: true,
        lock_keys_acrylic_window_enabled: true,
        app_language_index: 0,
        taskbar_widget_enabled: true,
        taskbar_widget_selected_monitor: 0,
        taskbar_widget_position: 0,
        taskbar_widget_padding: true,
        taskbar_widget_manual_padding: 0,
        taskbar_widget_clickable: true,
        taskbar_widget_closeable_flyout: true,
        taskbar_widget_background_blur: false,
        taskbar_widget_hide_completely: false,
        taskbar_widget_controls_enabled: true,
        taskbar_widget_controls_position: 1,
        taskbar_widget_animated: true,
        taskbar_visualizer_enabled: false,
        taskbar_visualizer_position: 0,
        taskbar_visualizer_clickable: false,
        taskbar_visualizer_bar_count: 10,
        taskbar_visualizer_centered_bars: false,
        taskbar_visualizer_baseline: false,
        taskbar_visualizer_audio_sensitivity: 2,
        taskbar_visualizer_audio_peak_level: 2,
        acrylic_blur_opacity: 175,
        use_album_art_as_accent_color: false,
        show_update_notifications: true,
        legacy_taskbar_width_enabled: false,
    }
}

/// The settings with every bounded value limited to its range: durations to
/// `0..=10000` ms, blur opacity to `0..=255`, visualizer bars to `1..=20`, and the
/// visualizer's sensitivity and peak level to `1..=3`.
pub open spec fn clamped(s: SettingsDto) -> SettingsDto {
    SettingsDto {
        duration: clamp_spec(s.duration as int, 0, 10000) as i32,
        next_up_duration: clamp_spec(s.next_up_duration as int, 0, 10000) as i32,
        lock_keys_duration: clamp_spec(s.lock_keys_duration as int, 0, 10000) as i32,
        acrylic_blur_opacity: clamp_spec(s.acrylic_blur_opacity as int, 0, 255) as i32,
        taskbar_visualizer_bar_count: clamp_spec(s.taskbar_visualizer_bar_count as int, 1, 20) as i32,
        taskbar_visualizer_audio_sensitivity: clamp_spec(s.taskbar_visualizer_audio_sensitivity as int, 1, 3) as i32,
        taskbar_visualizer_audio_peak_level: clamp_spec(s.taskbar_visualizer_audio_peak_level as int, 1, 3) as i32,
        ..s
    }
}

/// Limits every bounded value of `settings` to its range (see `clamped`).
pub fn clamp_settings(settings: &mut SettingsDto)
    ensures
        *final(settings) == clamped(*old(settings)),
{
    settings.duration = clamp_i32(settings.duration, 0, 10000);
    settings.next_up_duration = clamp_i32(settings.next_up_duration, 0, 10000);
    settings.lock_keys_duration = clamp_i32(settings.lock_keys_duration, 0, 10000);
    settings.acrylic_blur_opacity = clamp_i32(settings.acrylic_blur_opacity, 0, 255);
    settings.taskbar_visualizer_bar_count = clamp_i32(settings.taskbar_visualizer_bar_count, 1, 20);
    settings.taskbar_visualizer_audio_sensitivity = clamp_i32(settings.taskbar_visualizer_audio_sensitivity, 1, 3);
    settings.taskbar_visualizer_audio_peak_level = clamp_i32(settings.taskbar_visualizer_audio_peak_level, 1, 3);
}

/// The value a `bool` setting takes from the document: the entry's text when it is
/// `true` or `false`, else `current`.
pub open spec fn bool_from_xml(xml: Seq<char>, tag: Seq<char>, current: bool) -> bool {
    match settings_xml::spec_tag_value(xml, tag) {
        Some(v) => match text::parse_bool_spec(v) {
            Some(b) => b,
            None => current,
        },
        None => current,
    }
}

/// The value an `i32` setting takes from the document: the entry's text when it parses
/// as an `i32`, else `current`.
pub open spec fn i32_from_xml(xml: Seq<char>, tag: Seq<char>, current: i32) -> i32 {
    match settings_xml::spec_tag_value(xml, tag) {
        Some(v) => match text::parse_i32_spec(v) {
            Some(n) => n,
            None => current,
        },
        None => current,
    }
}

/// Sets `target` from the `tag` entry of `xml` when that entry reads as a `bool`.
pub fn apply_bool(xml: &str, tag: &str, target: &mut bool)
    ensures
        *final(target) == bool_from_xml(xml@, tag@, *old(target)),
{
    if let Some(value) = settings_xml::tag_value(xml, tag) {
        let cs = text::chars_of(value.as_str());
        assert(cs@.subrange(0, cs@.len() as int) =~= cs@);
        if let Some(parsed) = text::parse_bool_range(&cs, 0, cs.len()) {
            *target = parsed;
        }
    }
}

/// Sets `target` from the `tag` entry of `xml` when that entry reads as an `i32`.
pub fn apply_i32(xml: &str, tag: &str, target: &mut i32)
    ensures
        *final(target) == i32_from_xml(xml@, tag@, *old(target)),
{
    if let Some(value) = settings_xml::tag_value(xml, tag) {
        let cs = text::chars_of(value.as_str());
        assert(cs@.subrange(0, cs@.len() as int) =~= cs@);
        if let Some(parsed) = text::parse_i32_range(&cs, 0, cs.len()) {
            *target = parsed;
        }
    }
}

/// The settings imported from a legacy `settings.xml` document: the defaults, with each
/// known entry that reads as its type taken from the document, then clamped.
pub open spec fn imported_settings(xml: Seq<char>) -> SettingsDto {
    clamped(import_step_5(xml, import_step_4(xml, import_step_3(xml, import_step_2(xml, import_step_1(xml, import_step_0(xml, default_settings_dto())))))))
}

/// The settings after taking entries 1 to 8 of the import list from the document.
#[verifier::opaque]
pub open spec fn import_step_0(xml: Seq<char>, s: SettingsDto) -> SettingsDto {
    SettingsDto {
        media_flyout_enabled: bool_from_xml(xml, "MediaFlyoutEnabled"@, s.media_flyout_enabled),
        media_flyout_background_blur: i32_from_xml(xml, "MediaFlyoutBackgroundBlur"@, s.media_flyout_background_blur),
        media_flyout_acrylic_window_enabled: bool_from_xml(xml, "MediaFlyoutAcrylicWindowEnabled"@, s.media_flyout_acrylic_window_enabled),
        compact_layout: bool_from_xml(xml, "CompactLayout"@, s.compact_layout),
        position: i32_from_xml(xml, "Position"@, s.position),
        duration: i32_from_xml(xml, "Duration"@, s.duration),
        media_flyout_always_display: bool_from_xml(xml, "MediaFlyoutAlwaysDisplay"@, s.media_flyout_always_display),
        center_title_artist: bool_from_xml(xml, "CenterTitleArtist"@, s.center_title_artist),
        ..s
    }
}

fn apply_import_step_0(xml: &str, s: SettingsDto) -> (r: SettingsDto)
    ensures
        r == import_step_0(xml@, s),
{
    let mut media_flyout_enabled = s.media_flyout_enabled;
    apply_bool(xml, "MediaFlyoutEnabled", &mut media_flyout_enabled);
    let mut media_flyout_background_blur = s.media_flyout_background_blur;
    apply_i32(xml, "MediaFlyoutBackgroundBlur", &mut media_flyout_background_blur);
    let mut media_flyout_acrylic_window_enabled = s.media_flyout_acrylic_window_enabled;
    apply_bool(xml, "MediaFlyoutAcrylicWindowEnabled", &mut media_flyout_acrylic_window_enabled);
    let mut compact_layout = s.compact_layout;
    apply_bool(xml, "CompactLayout", &mut compact_layout);
    let mut position = s.position;
    apply_i32(xml, "Position", &mut position);
    let mut duration = s.duration;
    apply_i32(xml, "Duration", &mut duration);
    let mut media_flyout_always_display = s.media_flyout_always_display;
    apply_bool(xml, "MediaFlyoutAlwaysDisplay", &mut media_flyout_always_display);
    let mut center_title_artist = s.center_title_artist;
    apply_bool(xml, "CenterTitleArtist", &mut center_title_artist);
    proof {
        reveal(import_step_0);
    }
    SettingsDto { media_flyout_enabled, media_flyout_background_blur, media_flyout_acrylic_window_enabled, compact_layout, position, duration, media_flyout_always_display, center_title_artist, ..s }
}

/// The settings after taking entries 9 to 16 of the import list from the document.
#[verifier::opaque]
pub open spec fn import_step_1(xml: Seq<char>, s: SettingsDto) -> SettingsDto {
    SettingsDto {
        player_info_enabled: bool_from_xml(xml, "PlayerInfoEnabled"@, s.player_info_enabled),
        repeat_enabled: bool_from_xml(xml, "RepeatEnabled"@, s.repeat_enabled),
        shuffle_enabled: bool_from_xml(xml, "ShuffleEnabled"@, s.shuffle_enabled),
        seekbar_enabled: bool_from_xml(xml, "SeekbarEnabled"@, s.seekbar_enabled),
        pause_other_sessions_enabled: bool_from_xml(xml, "PauseOtherSessionsEnabled"@, s.pause_other_sessions_enabled),
        media_flyout_volume_keys_excluded: bool_from_xml(xml, "MediaFlyoutVolumeKeysExcluded"@, s.media_flyout_volume_keys_excluded),
        exclusive_tidal_mode: bool_from_xml(xml, "ExclusiveTidalMode"@, s.exclusive_tidal_mode),
        next_up_enabled: bool_from_xml(xml, "NextUpEnabled"@, s.next_up_enabled),
        ..s
    }
}

fn apply_import_step_1(xml: &str, s: SettingsDto) -> (r: SettingsDto)
    ensures
        r == import_step_1(xml@, s),
{
    let mut player_info_enabled = s.player_info_enabled;
    apply_bool(xml, "PlayerInfoEnabled", &mut player_info_enabled);
    let mut repeat_enabled = s.repeat_enabled;
    apply_bool(xml, "RepeatEnabled", &mut repeat_enabled);
    let mut shuffle_enabled = s.shuffle_enabled;
    apply_bool(xml, "ShuffleEnabled", &mut shuffle_enabled);
    let mut seekbar_enabled = s.seekbar_enabled;
    apply_bool(xml, "SeekbarEnabled", &mut seekbar_enabled);
    let mut pause_other_sessions_enabled = s.pause_other_sessions_enabled;
    apply_bool(xml, "PauseOtherSessionsEnabled", &mut pause_other_sessions_enabled);
    let mut media_flyout_volume_keys_excluded = s.media_flyout_volume_keys_excluded;
    apply_bool(xml, "MediaFlyoutVolumeKeysExcluded", &mut media_flyout_volume_keys_excluded);
    let mut exclusive_tidal_mode = s.exclusive_tidal_mode;
    apply_bool(xml, "ExclusiveTidalMode", &mut exclusive_tidal_mode);
    let mut next_up_enabled = s.next_up_enabled;
    apply_bool(xml, "NextUpEnabled", &mut next_up_enabled);
    proof {
        reveal(import_step_1);
    }
    SettingsDto { player_info_enabled, repeat_enabled, shuffle_enabled, seekbar_enabled, pause_other_sessions_enabled, media_flyout_volume_keys_excluded, exclusive_tidal_mode, next_up_enabled, ..s }
}

/// The settings after taking entries 17 to 24 of the import list from the document.
#[verifier::opaque]
pub open spec fn import_step_2(xml: Seq<char>, s: SettingsDto) -> SettingsDto {
    SettingsDto {
        next_up_duration: i32_from_xml(xml, "NextUpDuration"@, s.next_up_duration),
        lock_keys_enabled: bool_from_xml(xml, "LockKeysEnabled"@, s.lock_keys_enabled),
        lock_keys_duration: i32_from_xml(xml, "LockKeysDuration"@, s.lock_keys_duration),
        lock_keys_bold_ui: bool_from_xml(xml, "LockKeysBoldUI"@, s.lock_keys_bold_ui),
        lock_keys_monitor_preference: i32_from_xml(xml, "LockKeysMonitorPreference"@, s.lock_keys_monitor_preference),
        lock_keys_insert_enabled: bool_from_xml(xml, "LockKeysInsertEnabled"@, s.lock_keys_insert_enabled),
        taskbar_widget_enabled: bool_from_xml(xml, "TaskbarWidgetEnabled"@, s.taskbar_widget_enabled),
        taskbar_widget_position: i32_from_xml(xml, "TaskbarWidgetPosition"@, s.taskbar_widget_position),
        ..s
    }
}

fn apply_import_step_2(xml: &str, s: SettingsDto) -> (r: SettingsDto)
    ensures
        r == import_step_2(xml@, s),
{
    let mut next_up_duration = s.next_up_duration;
    apply_i32(xml, "NextUpDuration", &mut next_up_duration);
    let mut lock_keys_enabled = s.lock_keys_enabled;
    apply_bool(xml, "LockKeysEnabled", &mut lock_keys_enabled);
    let mut lock_keys_duration = s.lock_keys_duration;
    apply_i32(xml, "LockKeysDuration", &mut lock_keys_duration);
    let mut lock_keys_bold_ui = s.lock_keys_bold_ui;
    apply_bool(xml, "LockKeysBoldUI", &mut lock_keys_bold_ui);
    let mut lock_keys_monitor_preference = s.lock_keys_monitor_preference;
    apply_i32(xml, "LockKeysMonitorPreference", &mut lock_keys_monitor_preference);
    let mut lock_keys_insert_enabled = s.lock_keys_insert_enabled;
    apply_bool(xml, "LockKeysInsertEnabled", &mut lock_keys_insert_enabled);
    let mut taskbar_widget_enabled = s.taskbar_widget_enabled;
    apply_bool(xml, "TaskbarWidgetEnabled", &mut taskbar_widget_enabled);
    let mut taskbar_widget_position = s.taskbar_widget_position;
    apply_i32(xml, "TaskbarWidgetPosition", &mut taskbar_widget_position);
    proof {
        reveal(import_step_2);
    }
    SettingsDto { next_up_duration, lock_keys_enabled, lock_keys_duration, lock_keys_bold_ui, lock_keys_monitor_preference, lock_keys_insert_enabled, taskbar_widget_enabled, taskbar_widget_position, ..s }
}

/// The settings after taking entries 25 to 32 of the import list from the document.
#[verifier::opaque]
pub open spec fn import_step_3(xml: Seq<char>, s: SettingsDto) -> SettingsDto {
    SettingsDto {
        taskbar_widget_selected_monitor: i32_from_xml(xml, "TaskbarWidgetSelectedMonitor"@, s.taskbar_widget_selected_monitor),
        taskbar_widget_padding: bool_from_xml(xml, "TaskbarWidgetPadding"@, s.taskbar_widget_padding),
        taskbar_widget_manual_padding: i32_from_xml(xml, "TaskbarWidgetManualPadding"@, s.taskbar_widget_manual_padding),
        taskbar_widget_clickable: bool_from_xml(xml, "TaskbarWidgetClickable"@, s.taskbar_widget_clickable),
        taskbar_widget_closeable_flyout: bool_from_xml(xml, "TaskbarWidgetCloseableFlyout"@, s.taskbar_widget_closeable_flyout),
        taskbar_widget_background_blur: bool_from_xml(xml, "TaskbarWidgetBackgroundBlur"@, s.taskbar_widget_background_blur),
        taskbar_widget_hide_completely: bool_from_xml(xml, "TaskbarWidgetHideCompletely"@, s.taskbar_widget_hide_completely),
        taskbar_widget_controls_enabled: bool_from_xml(xml, "TaskbarWidgetControlsEnabled"@, s.taskbar_widget_controls_enabled),
        ..s
    }
}

fn apply_import_step_3(xml: &str, s: SettingsDto) -> (r: SettingsDto)
    ensures
        r == import_step_3(xml@, s),
{
    let mut taskbar_widget_selected_monitor = s.taskbar_widget_selected_monitor;
    apply_i32(xml, "TaskbarWidgetSelectedMonitor", &mut taskbar_widget_selected_monitor);
    let mut taskbar_widget_padding = s.taskbar_widget_padding;
    apply_bool(xml, "TaskbarWidgetPadding", &mut taskbar_widget_padding);
    let mut taskbar_widget_manual_padding = s.taskbar_widget_manual_padding;
    apply_i32(xml, "TaskbarWidgetManualPadding", &mut taskbar_widget_manual_padding);
    let mut taskbar_widget_clickable = s.taskbar_widget_clickable;
    apply_bool(xml, "TaskbarWidgetClickable", &mut taskbar_widget_clickable);
    let mut taskbar_widget_closeable_flyout = s.taskbar_widget_closeable_flyout;
    apply_bool(xml, "TaskbarWidgetCloseableFlyout", &mut taskbar_widget_closeable_flyout);
    let mut taskbar_widget_background_blur = s.taskbar_widget_background_blur;
    apply_bool(xml, "TaskbarWidgetBackgroundBlur", &mut taskbar_widget_background_blur);
    let mut taskbar_widget_hide_completely = s.taskbar_widget_hide_completely;
    apply_bool(xml, "TaskbarWidgetHideCompletely", &mut taskbar_widget_hide_completely);
    let mut taskbar_widget_controls_enabled = s.taskbar_widget_controls_enabled;
    apply_bool(xml, "TaskbarWidgetControlsEnabled", &mut taskbar_widget_controls_enabled);
    proof {
        reveal(import_step_3);
    }
    SettingsDto { taskbar_widget_selected_monitor, taskbar_widget_padding, taskbar_widget_manual_padding, taskbar_widget_clickable, taskbar_widget_closeable_flyout, taskbar_widget_background_blur, taskbar_widget_hide_completely, taskbar_widget_controls_enabled, ..s }
}

/// The settings after taking entries 33 to 40 of the import list from the document.
#[verifier::opaque]
pub open spec fn import_step_4(xml: Seq<char>, s: SettingsDto) -> SettingsDto {
    SettingsDto {
        taskbar_widget_controls_position: i32_from_xml(xml, "TaskbarWidgetControlsPosition"@, s.taskbar_widget_controls_position),
        taskbar_visualizer_enabled: bool_from_xml(xml, "TaskbarVisualizerEnabled"@, s.taskbar_visualizer_enabled),
        taskbar_visualizer_position: i32_from_xml(xml, "TaskbarVisualizerPosition"@, s.taskbar_visualizer_position),
        taskbar_visualizer_bar_count: i32_from_xml(xml, "TaskbarVisualizerBarCount"@, s.taskbar_visualizer_bar_count),
        taskbar_visualizer_centered_bars: bool_from_xml(xml, "TaskbarVisualizerCenteredBars"@, s.taskbar_visualizer_centered_bars),
        taskbar_visualizer_baseline: bool_from_xml(xml, "TaskbarVisualizerBaseline"@, s.taskbar_visualizer_baseline),
        taskbar_visualizer_audio_sensitivity: i32_from_xml(xml, "TaskbarVisualizerAudioSensitivity"@, s.taskbar_visualizer_audio_sensitivity),
        taskbar_visualizer_audio_peak_level: i32_from_xml(xml, "TaskbarVisualizerAudioPeakLevel"@, s.taskbar_visualizer_audio_peak_level),
        ..s
    }
}

fn apply_import_step_4(xml: &str, s: SettingsDto) -> (r: SettingsDto)
    ensures
        r == import_step_4(xml@, s),
{
    let mut taskbar_widget_controls_position = s.taskbar_widget_controls_position;
    apply_i32(xml, "TaskbarWidgetControlsPosition", &mut taskbar_widget_controls_position);
    let mut taskbar_visualizer_enabled = s.taskbar_visualizer_enabled;
    apply_bool(xml, "TaskbarVisualizerEnabled", &mut taskbar_visualizer_enabled);
    let mut taskbar_visualizer_position = s.taskbar_visualizer_position;
    apply_i32(xml, "TaskbarVisualizerPosition", &mut taskbar_visualizer_position);
    let mut taskbar_visualizer_bar_count = s.taskbar_visualizer_bar_count;
    apply_i32(xml, "TaskbarVisualizerBarCount", &mut taskbar_visualizer_bar_count);
    let mut taskbar_visualizer_centered_bars = s.taskbar_visualizer_centered_bars;
    apply_bool(xml, "TaskbarVisualizerCenteredBars", &mut taskbar_visualizer_centered_bars);
    let mut taskbar_visualizer_baseline = s.taskbar_visualizer_baseline;
    apply_bool(xml, "TaskbarVisualizerBaseline", &mut taskbar_visualizer_baseline);
    let mut taskbar_visualizer_audio_sensitivity = s.taskbar_visualizer_audio_sensitivity;
    apply_i32(xml, "TaskbarVisualizerAudioSensitivity", &mut taskbar_visualizer_audio_sensitivity);
    let mut taskbar_visualizer_audio_peak_level = s.taskbar_visualizer_audio_peak_level;
    apply_i32(xml, "TaskbarVisualizerAudioPeakLevel", &mut taskbar_visualizer_audio_peak_level);
    proof {
        reveal(import_step_4);
    }
    SettingsDto { taskbar_widget_controls_position, taskbar_visualizer_enabled, taskbar_visualizer_position, taskbar_visualizer_bar_count, taskbar_visualizer_centered_bars, taskbar_visualizer_baseline, taskbar_visualizer_audio_sensitivity, taskbar_visualizer_audio_peak_level, ..s }
}

/// The settings after taking entries 41 to 48 of the import list from the document.
#[verifier::opaque]
pub open spec fn import_step_5(xml: Seq<char>, s: SettingsDto) -> SettingsDto {
    SettingsDto {
        flyout_selected_monitor: i32_from_xml(xml, "FlyoutSelectedMonitor"@, s.flyout_selected_monitor),
        acrylic_blur_opacity: i32_from_xml(xml, "AcrylicBlurOpacity"@, s.acrylic_blur_opacity),
        app_theme: i32_from_xml(xml, "AppTheme"@, s.app_theme),
        startup: bool_from_xml(xml, "Startup"@, s.startup),
        disable_if_fullscreen: bool_from_xml(xml, "DisableIfFullscreen"@, s.disable_if_fullscreen),
        nicon_left_click: i32_from_xml(xml, "nIconLeftClick"@, s.nicon_left_click),
        nicon_symbol: bool_from_xml(xml, "nIconSymbol"@, s.nicon_symbol),
        nicon_hide: bool_from_xml(xml, "NIconHide"@, s.nicon_hide),
        ..s
    }
}

fn apply_import_step_5(xml: &str, s: SettingsDto) -> (r: SettingsDto)
    ensures
        r == import_step_5(xml@, s),
{
    let mut flyout_selected_monitor = s.flyout_selected_monitor;
    apply_i32(xml, "FlyoutSelectedMonitor", &mut flyout_selected_monitor);
    let mut acrylic_blur_opacity = s.acrylic_blur_opacity;
    apply_i32(xml, "AcrylicBlurOpacity", &mut acrylic_blur_opacity);
    let mut app_theme = s.app_theme;
    apply_i32(xml, "AppTheme", &mut app_theme);
    let mut startup = s.startup;
    apply_bool(xml, "Startup", &mut startup);
    let mut disable_if_fullscreen = s.disable_if_fullscreen;
    apply_bool(xml, "DisableIfFullscreen", &mut disable_if_fullscreen);
    let mut nicon_left_click = s.nicon_left_click;
    apply_i32(xml, "nIconLeftClick", &mut nicon_left_click);
    let mut nicon_symbol = s.nicon_symbol;
    apply_bool(xml, "nIconSymbol", &mut nicon_symbol);
    let mut nicon_hide = s.nicon_hide;
    apply_bool(xml, "NIconHide", &mut nicon_hide);
    proof {
        reveal(import_step_5);
    }
    SettingsDto { flyout_selected_monitor, acrylic_blur_opacity, app_theme, startup, disable_if_fullscreen, nicon_left_click, nicon_symbol, nicon_hide, ..s }
}

/// Imports the settings from the text of a legacy `settings.xml` document.
pub fn import_legacy_settings(xml: &str) -> (r: SettingsDto)
    ensures
        r == imported_settings(xml@),
{
    let mut settings = SettingsDto::new_default();
    settings = apply_import_step_0(xml, settings);
    settings = apply_import_step_1(xml, settings);
    settings = apply_import_step_2(xml, settings);
    settings = apply_import_step_3(xml, settings);
    settings = apply_import_step_4(xml, settings);
    settings = apply_import_step_5(xml, settings);

    clamp_settings(&mut settings);
    settings
}

/// The `AppLanguage` value saved for a language index.
pub open spec fn language_text(index: i32) -> Seq<char> {
    if index == 1 {
        "ko"@
    } else if index == 2 {
        "en-US"@
    } else {
        "system"@
    }
}

/// One `  <tag>text</tag>` line of the legacy document.
pub open spec fn entry_line(tag: Seq<char>, value: Seq<char>) -> Seq<char> {
    seq![' ', ' ', '<'] + tag + seq!['>'] + value + seq!['<', '/'] + tag + seq!['>', '\n']
}

/// The lines for a list of `(tag, text)` entries.
pub open spec fn entry_lines(entries: Seq<(Seq<char>, Seq<char>)>) -> Seq<char>
    decreases entries.len(),
{
    if entries.len() == 0 {
        seq![]
    } else {
        entry_lines(entries.drop_last()) + entry_line(entries.last().0, entries.last().1)
    }
}

/// The lines of two lists of entries, one after the other, are the lines of the joined list.
pub proof fn lemma_entry_lines_concat(a: Seq<(Seq<char>, Seq<char>)>, b: Seq<(Seq<char>, Seq<char>)>)
    ensures
        entry_lines(a + b) == entry_lines(a) + entry_lines(b),
    decreases b.len(),
{
    if b.len() == 0 {
        assert(a + b =~= a);
        assert(entry_lines(a) + entry_lines(b) =~= entry_lines(a));
    } else {
        lemma_entry_lines_concat(a, b.drop_last());
        assert((a + b).drop_last() =~= a + b.drop_last());
        assert(entry_lines(a) + entry_lines(b) =~= entry_lines(a) + entry_lines(b.drop_last())
            + entry_line(b.last().0, b.last().1));
    }
}

/// Appends the line for `(tag, value)`.
fn push_entry_line(out: &mut Vec<char>, tag: &str, value: &str)
    ensures
        final(out)@ == old(out)@ + entry_line(tag@, value@),
{
    out.push(' ');
    out.push(' ');
    out.push('<');
    text::push_str_chars(out, tag);
    out.push('>');
    text::push_str_chars(out, value);
    out.push('<');
    out.push('/');
    text::push_str_chars(out, tag);
    out.push('>');
    out.push('\n');
    assert(final(out)@ =~= old(out)@ + entry_line(tag@, value@));
}

/// Appends the lines for a list of `(tag, text)` entries.
fn push_entry_lines(out: &mut Vec<char>, entries: &Vec<(String, String)>)
    ensures
        final(out)@ == old(out)@ + entry_lines(crate::settings::entries_view(entries@)),
{
    let ghost all = crate::settings::entries_view(entries@);
    let mut i: usize = 0;
    while i < entries.len()
        invariant
            i <= entries@.len(),
            all == crate::settings::entries_view(entries@),
            out@ == old(out)@ + entry_lines(all.take(i as int)),
        decreases entries@.len() - i,
    {
        let (tag, value) = &entries[i];
        push_entry_line(out, tag.as_str(), value.as_str());
        proof {
            assert(all.take(i + 1).drop_last() =~= all.take(i as int));
            assert(out@ =~= old(out)@ + entry_lines(all.take(i + 1)));
        }
        i = i + 1;
    }
    assert(all.take(entries@.len() as int) =~= all);
}

/// The `AppLanguage` value saved for a language index.
fn language_name(index: i32) -> (r: String)
    ensures
        r@ == language_text(index),
{
    if index == 1 {
        "ko".to_owned()
    } else if index == 2 {
        "en-US".to_owned()
    } else {
        "system".to_owned()
    }
}

/// Entries 1 to 8 of `legacy_entries`.
pub open spec fn legacy_entries_0(s: SettingsDto) -> Seq<(Seq<char>, Seq<char>)> {
    seq![
        ("CompactLayout"@, text::bool_chars(s.compact_layout)),
        ("FlyoutSelectedMonitor"@, text::int_text(s.flyout_selected_monitor as int)),
        ("Position"@, text::int_text(s.position as int)),
        ("FlyoutAnimationSpeed"@, text::int_text(s.flyout_animation_speed as int)),
        ("PlayerInfoEnabled"@, text::bool_chars(s.player_info_enabled)),
        ("RepeatEnabled"@, text::bool_chars(s.repeat_enabled)),
        ("ShuffleEnabled"@, text::bool_chars(s.shuffle_enabled)),
        ("Startup"@, text::bool_chars(s.startup)),
    ]
}

fn legacy_entry_list_0(s: &SettingsDto) -> (v: Vec<(String, String)>)
    ensures
        crate::settings::entries_view(v@) == legacy_entries_0(*s),
{
    let mut v: Vec<(String, String)> = Vec::new();
    v.push(("CompactLayout".to_owned(), bool_text(s.compact_layout)));
    v.push(("FlyoutSelectedMonitor".to_owned(), text::i32_text(s.flyout_selected_monitor)));
    v.push(("Position".to_owned(), text::i32_text(s.position)));
    v.push(("FlyoutAnimationSpeed".to_owned(), text::i32_text(s.flyout_animation_speed)));
    v.push(("PlayerInfoEnabled".to_owned(), bool_text(s.player_info_enabled)));
    v.push(("RepeatEnabled".to_owned(), bool_text(s.repeat_enabled)));
    v.push(("ShuffleEnabled".to_owned(), bool_text(s.shuffle_enabled)));
    v.push(("Startup".to_owned(), bool_text(s.startup)));
    assert(crate::settings::entries_view(v@) =~= legacy_entries_0(*s));
    v
}

/// Entries 9 to 16 of `legacy_entries`.
pub open spec fn legacy_entries_1(s: SettingsDto) -> Seq<(Seq<char>, Seq<char>)> {
    seq![
        ("MediaFlyoutAlwaysDisplay"@, text::bool_chars(s.media_flyout_always_display)),
        ("Duration"@, text::int_text(s.duration as int)),
        ("NextUpEnabled"@, text::bool_chars(s.next_up_enabled)),
        ("NextUpDuration"@, text::int_text(s.next_up_duration as int)),
        ("nIconLeftClick"@, text::int_text(s.nicon_left_click as int)),
        ("CenterTitleArtist"@, text::bool_chars(s.center_title_artist)),
        ("FlyoutAnimationEasingStyle"@, text::int_text(s.flyout_animation_easing_style as int)),
        ("LockKeysEnabled"@, text::bool_chars(s.lock_keys_enabled)),
    ]
}

fn legacy_entry_list_1(s: &SettingsDto) -> (v: Vec<(String, String)>)
    ensures
        crate::settings::entries_view(v@) == legacy_entries_1(*s),
{
    let mut v: Vec<(String, String)> = Vec::new();
    v.push(("MediaFlyoutAlwaysDisplay".to_owned(), bool_text(s.media_flyout_always_display)));
    v.push(("Duration".to_owned(), text::i32_text(s.duration)));
    v.push(("NextUpEnabled".to_owned(), bool_text(s.next_up_enabled)));
    v.push(("NextUpDuration".to_owned(), text::i32_text(s.next_up_duration)));
    v.push(("nIconLeftClick".to_owned(), text::i32_text(s.nicon_left_click)));
    v.push(("CenterTitleArtist".to_owned(), bool_text(s.center_title_artist)));
    v.push(("FlyoutAnimationEasingStyle".to_owned(), text::i32_text(s.flyout_animation_easing_style)));
    v.push(("LockKeysEnabled".to_owned(), bool_text(s.lock_keys_enabled)));
    assert(crate::settings::entries_view(v@) =~= legacy_entries_1(*s));
    v
}

/// Entries 17 to 24 of `legacy_entries`.
pub open spec fn legacy_entries_2(s: SettingsDto) -> Seq<(Seq<char>, Seq<char>)> {
    seq![
        ("LockKeysDuration"@, text::int_text(s.lock_keys_duration as int)),
        ("AppTheme"@, text::int_text(s.app_theme as int)),
        ("MediaFlyoutEnabled"@, text::bool_chars(s.media_flyout_enabled)),
        ("MediaFlyoutVolumeKeysExcluded"@, text::bool_chars(s.media_flyout_volume_keys_excluded)),
        ("nIconSymbol"@, text::bool_chars(s.nicon_symbol)),
        ("NIconHide"@, text::bool_chars(s.nicon_hide)),
        ("DisableIfFullscreen"@, text::bool_chars(s.disable_if_fullscreen)),
        ("LockKeysBoldUI"@, text::bool_chars(s.lock_keys_bold_ui)),
    ]
}

fn legacy_entry_list_2(s: &SettingsDto) -> (v: Vec<(String, String)>)
    ensures
        crate::settings::entries_view(v@) == legacy_entries_2(*s),
{
    let mut v: Vec<(String, String)> = Vec::new();
    v.push(("LockKeysDuration".to_owned(), text::i32_text(s.lock_keys_duration)));
    v.push(("AppTheme".to_owned(), text::i32_text(s.app_theme)));
    v.push(("MediaFlyoutEnabled".to_owned(), bool_text(s.media_flyout_enabled)));
    v.push(("MediaFlyoutVolumeKeysExcluded".to_owned(), bool_text(s.media_flyout_volume_keys_excluded)));
    v.push(("nIconSymbol".to_owned(), bool_text(s.nicon_symbol)));
    v.push(("NIconHide".to_owned(), bool_text(s.nicon_hide)));
    v.push(("DisableIfFullscreen".to_owned(), bool_text(s.disable_if_fullscreen)));
    v.push(("LockKeysBoldUI".to_owned(), bool_text(s.lock_keys_bold_ui)));
    assert(crate::settings::entries_view(v@) =~= legacy_entries_2(*s));
    v
}

/// Entries 25 to 32 of `legacy_entries`.
pub open spec fn legacy_entries_3(s: SettingsDto) -> Seq<(Seq<char>, Seq<char>)> {
    seq![
        ("LockKeysMonitorPreference"@, text::int_text(s.lock_keys_monitor_preference as int)),
        ("LastKnownVersion"@, "debug"@),
        ("ExclusiveTidalMode"@, text::bool_chars(s.exclusive_tidal_mode)),
        ("SeekbarEnabled"@, text::bool_chars(s.seekbar_enabled)),
        ("PauseOtherSessionsEnabled"@, text::bool_chars(s.pause_other_sessions_enabled)),
        ("LockKeysInsertEnabled"@, text::bool_chars(s.lock_keys_insert_enabled)),
        ("MediaFlyoutBackgroundBlur"@, text::int_text(s.media_flyout_background_blur as int)),
        ("MediaFlyoutAcrylicWindowEnabled"@, text::bool_chars(s.media_flyout_acrylic_window_enabled)),
    ]
}

fn legacy_entry_list_3(s: &SettingsDto) -> (v: Vec<(String, String)>)
    ensures
        crate::settings::entries_view(v@) == legacy_entries_3(*s),
{
    let mut v: Vec<(String, String)> = Vec::new();
    v.push(("LockKeysMonitorPreference".to_owned(), text::i32_text(s.lock_keys_monitor_preference)));
    v.push(("LastKnownVersion".to_owned(), "debug".to_owned()));
    v.push(("ExclusiveTidalMode".to_owned(), bool_text(s.exclusive_tidal_mode)));
    v.push(("SeekbarEnabled".to_owned(), bool_text(s.seekbar_enabled)));
    v.push(("PauseOtherSessionsEnabled".to_owned(), bool_text(s.pause_other_sessions_enabled)));
    v.push(("LockKeysInsertEnabled".to_owned(), bool_text(s.lock_keys_insert_enabled)));
    v.push(("MediaFlyoutBackgroundBlur".to_owned(), text::i32_text(s.media_flyout_background_blur)));
    v.push(("MediaFlyoutAcrylicWindowEnabled".to_owned(), bool_text(s.media_flyout_acrylic_window_enabled)));
    assert(crate::settings::entries_view(v@) =~= legacy_entries_3(*s));
    v
}

/// Entries 33 to 40 of `legacy_entries`.
pub open spec fn legacy_entries_4(s: SettingsDto) -> Seq<(Seq<char>, Seq<char>)> {
    seq![
        ("NextUpAcrylicWindowEnabled"@, text::bool_chars(s.next_up_acrylic_window_enabled)),
        ("LockKeysAcrylicWindowEnabled"@, text::bool_chars(s.lock_keys_acrylic_window_enabled)),
        ("AppLanguage"@, language_text(s.app_language_index)),
        ("TaskbarWidgetEnabled"@, text::bool_chars(s.taskbar_widget_enabled)),
        ("TaskbarWidgetSelectedMonitor"@, text::int_text(s.taskbar_widget_selected_monitor as int)),
        ("TaskbarWidgetPosition"@, text::int_text(s.taskbar_widget_position as int)),
        ("TaskbarWidgetPadding"@, text::bool_chars(s.taskbar_widget_padding)),
        ("TaskbarWidgetManualPadding"@, text::int_text(s.taskbar_widget_manual_padding as int)),
    ]
}

fn legacy_entry_list_4(s: &SettingsDto) -> (v: Vec<(String, String)>)
    ensures
        crate::settings::entries_view(v@) == legacy_entries_4(*s),
{
    let mut v: Vec<(String, String)> = Vec::new();
    v.push(("NextUpAcrylicWindowEnabled".to_owned(), bool_text(s.next_up_acrylic_window_enabled)));
    v.push(("LockKeysAcrylicWindowEnabled".to_owned(), bool_text(s.lock_keys_acrylic_window_enabled)));
    v.push(("AppLanguage".to_owned(), language_name(s.app_language_index)));
    v.push(("TaskbarWidgetEnabled".to_owned(), bool_text(s.taskbar_widget_enabled)));
    v.push(("TaskbarWidgetSelectedMonitor".to_owned(), text::i32_text(s.taskbar_widget_selected_monitor)));
    v.push(("TaskbarWidgetPosition".to_owned(), text::i32_text(s.taskbar_widget_position)));
    v.push(("TaskbarWidgetPadding".to_owned(), bool_text(s.taskbar_widget_padding)));
    v.push(("TaskbarWidgetManualPadding".to_owned(), text::i32_text(s.taskbar_widget_manual_padding)));
    assert(crate::settings::entries_view(v@) =~= legacy_entries_4(*s));
    v
}

/// Entries 41 to 48 of `legacy_entries`.
pub open spec fn legacy_entries_5(s: SettingsDto) -> Seq<(Seq<char>, Seq<char>)> {
    seq![
        ("TaskbarWidgetClickable"@, text::bool_chars(s.taskbar_widget_clickable)),
        ("TaskbarWidgetCloseableFlyout"@, text::bool_chars(s.taskbar_widget_closeable_flyout)),
        ("TaskbarWidgetBackgroundBlur"@, text::bool_chars(s.taskbar_widget_background_blur)),
        ("TaskbarWidgetHideCompletely"@, text::bool_chars(s.taskbar_widget_hide_completely)),
        ("TaskbarWidgetControlsEnabled"@, text::bool_chars(s.taskbar_widget_controls_enabled)),
        ("TaskbarWidgetControlsPosition"@, text::int_text(s.taskbar_widget_controls_position as int)),
        ("TaskbarWidgetAnimated"@, text::bool_chars(s.taskbar_widget_animated)),
        ("TaskbarVisualizerEnabled"@, text::bool_chars(s.taskbar_visualizer_enabled)),
    ]
}

fn legacy_entry_list_5(s: &SettingsDto) -> (v: Vec<(String, String)>)
    ensures
        crate::settings::entries_view(v@) == legacy_entries_5(*s),
{
    let mut v: Vec<(String, String)> = Vec::new();
    v.push(("TaskbarWidgetClickable".to_owned(), bool_text(s.taskbar_widget_clickable)));
    v.push(("TaskbarWidgetCloseableFlyout".to_owned(), bool_text(s.taskbar_widget_closeable_flyout)));
    v.push(("TaskbarWidgetBackgroundBlur".to_owned(), bool_text(s.taskbar_widget_background_blur)));
    v.push(("TaskbarWidgetHideCompletely".to_owned(), bool_text(s.taskbar_widget_hide_completely)));
    v.push(("TaskbarWidgetControlsEnabled".to_owned(), bool_text(s.taskbar_widget_controls_enabled)));
    v.push(("TaskbarWidgetControlsPosition".to_owned(), text::i32_text(s.taskbar_widget_controls_position)));
    v.push(("TaskbarWidgetAnimated".to_owned(), bool_text(s.taskbar_widget_animated)));
    v.push(("TaskbarVisualizerEnabled".to_owned(), bool_text(s.taskbar_visualizer_enabled)));
    assert(crate::settings::entries_view(v@) =~= legacy_entries_5(*s));
    v
}

/// Entries 49 to 56 of `legacy_entries`.
pub open spec fn legacy_entries_6(s: SettingsDto) -> Seq<(Seq<char>, Seq<char>)> {
    seq![
        ("TaskbarVisualizerPosition"@, text::int_text(s.taskbar_visualizer_position as int)),
        ("TaskbarVisualizerClickable"@, text::bool_chars(s.taskbar_visualizer_clickable)),
        ("TaskbarVisualizerBarCount"@, text::int_text(s.taskbar_visualizer_bar_count as int)),
        ("TaskbarVisualizerCenteredBars"@, text::bool_chars(s.taskbar_visualizer_centered_bars)),
        ("TaskbarVisualizerBaseline"@, text::bool_chars(s.taskbar_visualizer_baseline)),
        ("TaskbarVisualizerAudioSensitivity"@, text::int_text(s.taskbar_visualizer_audio_sensitivity as int)),
        ("TaskbarVisualizerAudioPeakLevel"@, text::int_text(s.taskbar_visualizer_audio_peak_level as int)),
        ("AcrylicBlurOpacity"@, text::int_text(s.acrylic_blur_opacity as int)),
    ]
}

fn legacy_entry_list_6(s: &SettingsDto) -> (v: Vec<(String, String)>)
    ensures
        crate::settings::entries_view(v@) == legacy_entries_6(*s),
{
    let mut v: Vec<(String, String)> = Vec::new();
    v.push(("TaskbarVisualizerPosition".to_owned(), text::i32_text(s.taskbar_visualizer_position)));
    v.push(("TaskbarVisualizerClickable".to_owned(), bool_text(s.taskbar_visualizer_clickable)));
    v.push(("TaskbarVisualizerBarCount".to_owned(), text::i32_text(s.taskbar_visualizer_bar_count)));
    v.push(("TaskbarVisualizerCenteredBars".to_owned(), bool_text(s.taskbar_visualizer_centered_bars)));
    v.push(("TaskbarVisualizerBaseline".to_owned(), bool_text(s.taskbar_visualizer_baseline)));
    v.push(("TaskbarVisualizerAudioSensitivity".to_owned(), text::i32_text(s.taskbar_visualizer_audio_sensitivity)));
    v.push(("TaskbarVisualizerAudioPeakLevel".to_owned(), text::i32_text(s.taskbar_visualizer_audio_peak_level)));
    v.push(("AcrylicBlurOpacity".to_owned(), text::i32_text(s.acrylic_blur_opacity)));
    assert(crate::settings::entries_view(v@) =~= legacy_entries_6(*s));
    v
}

/// Entries 57 to 61 of `legacy_entries`.
pub open spec fn legacy_entries_7(s: SettingsDto) -> Seq<(Seq<char>, Seq<char>)> {
    seq![
        ("UseAlbumArtAsAccentColor"@, text::bool_chars(s.use_album_art_as_accent_color)),
        ("IsStoreVersion"@, "false"@),
        ("LastUpdateNotificationUnixSeconds"@, "0"@),
        ("ShowUpdateNotifications"@, text::bool_chars(s.show_update_notifications)),
        ("LegacyTaskbarWidthEnabled"@, text::bool_chars(s.legacy_taskbar_width_enabled)),
    ]
}

fn legacy_entry_list_7(s: &SettingsDto) -> (v: Vec<(String, String)>)
    ensures
        crate::settings::entries_view(v@) == legacy_entries_7(*s),
{
    let mut v: Vec<(String, String)> = Vec::new();
    v.push(("UseAlbumArtAsAccentColor".to_owned(), bool_text(s.use_album_art_as_accent_color)));
    v.push(("IsStoreVersion".to_owned(), "false".to_owned()));
    v.push(("LastUpdateNotificationUnixSeconds".to_owned(), "0".to_owned()));
    v.push(("ShowUpdateNotifications".to_owned(), bool_text(s.show_update_notifications)));
    v.push(("LegacyTaskbarWidthEnabled".to_owned(), bool_text(s.legacy_taskbar_width_enabled)));
    assert(crate::settings::entries_view(v@) =~= legacy_entries_7(*s));
    v
}

/// The `(tag, text)` lines of the legacy document, in order.
pub open spec fn legacy_entries(s: SettingsDto) -> Seq<(Seq<char>, Seq<char>)> {
    legacy_entries_0(s) + legacy_entries_1(s) + legacy_entries_2(s) + legacy_entries_3(s) + legacy_entries_4(s) + legacy_entries_5(s) + legacy_entries_6(s) + legacy_entries_7(s)
}

fn legacy_entry_list(s: &SettingsDto) -> (v: Vec<(String, String)>)
    ensures
        crate::settings::entries_view(v@) == legacy_entries(*s),
{
    let mut v = legacy_entry_list_0(s);
    let ghost before = v@;
    let mut more = legacy_entry_list_1(s);
    v.append(&mut more);
    assert(crate::settings::entries_view(v@) =~= crate::settings::entries_view(before) + legacy_entries_1(*s));
    let ghost before = v@;
    let mut more = legacy_entry_list_2(s);
    v.append(&mut more);
    assert(crate::settings::entries_view(v@) =~= crate::settings::entries_view(before) + legacy_entries_2(*s));
    let ghost before = v@;
    let mut more = legacy_entry_list_3(s);
    v.append(&mut more);
    assert(crate::settings::entries_view(v@) =~= crate::settings::entries_view(before) + legacy_entries_3(*s));
    let ghost before = v@;
    let mut more = legacy_entry_list_4(s);
    v.append(&mut more);
    assert(crate::settings::entries_view(v@) =~= crate::settings::entries_view(before) + legacy_entries_4(*s));
    let ghost before = v@;
    let mut more = legacy_entry_list_5(s);
    v.append(&mut more);
    assert(crate::settings::entries_view(v@) =~= crate::settings::entries_view(before) + legacy_entries_5(*s));
    let ghost before = v@;
    let mut more = legacy_entry_list_6(s);
    v.append(&mut more);
    assert(crate::settings::entries_view(v@) =~= crate::settings::entries_view(before) + legacy_entries_6(*s));
    let ghost before = v@;
    let mut more = legacy_entry_list_7(s);
    v.append(&mut more);
    assert(crate::settings::entries_view(v@) =~= crate::settings::entries_view(before) + legacy_entries_7(*s));
    assert(crate::settings::entries_view(v@) =~= legacy_entries(*s));
    v
}


/// The legacy document's first two lines, up to the root element's opening tag.
pub open spec fn legacy_header() -> Seq<char> {
    "<?xml version=\"1.0\" encoding=\"utf-8\"?>\n<UserSettings xmlns:xsi=\"http://www.w3.org/2001/XMLSchema-instance\" xmlns:xsd=\"http://www.w3.org/2001/XMLSchema\">\n"@
}

/// The text that mirrors `settings` into the legacy `settings.xml` document.
pub open spec fn legacy_document(s: SettingsDto) -> Seq<char> {
    legacy_header() + entry_lines(legacy_entries(s)) + "</UserSettings>\n"@
}

/// The text of the legacy `settings.xml` document for `settings`.
pub fn legacy_settings_xml(settings: &SettingsDto) -> (xml: String)
    ensures
        xml@ == legacy_document(*settings),
{
    let mut out = text::chars_of("<?xml version=\"1.0\" encoding=\"utf-8\"?>\n<UserSettings xmlns:xsi=\"http://www.w3.org/2001/XMLSchema-instance\" xmlns:xsd=\"http://www.w3.org/2001/XMLSchema\">\n");
    let entries = legacy_entry_list(settings);
    push_entry_lines(&mut out, &entries);
    text::push_str_chars(&mut out, "</UserSettings>\n");
    text::string_from_chars(&out)
}

} // verus!
