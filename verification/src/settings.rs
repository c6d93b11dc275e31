//! The user settings document (`settings.xml`): its fields and their defaults, and how
//! the settings window's edits are written back into an existing document.
use vstd::prelude::*;
use crate::settings_xml;
use crate::text;

verus! {

/// The user settings that the runtime reads from `settings.xml`.
#[derive(Clone, Debug)]
pub struct FluentFlyoutSettings {
    pub compact_layout: bool,
    pub flyout_selected_monitor: i32,
    pub position: i32,
    pub flyout_animation_speed: i32,
    pub player_info_enabled: bool,
    pub repeat_enabled: bool,
    pub shuffle_enabled: bool,
    pub media_flyout_always_display: bool,
    pub duration: i32,
    pub center_title_artist: bool,
    pub flyout_animation_easing_style: i32,
    pub media_flyout_enabled: bool,
    pub media_flyout_volume_keys_excluded: bool,
    pub disable_if_fullscreen: bool,
    pub nicon_left_click: i32,
    pub nicon_hide: bool,
    pub exclusive_tidal_mode: bool,
    pub seekbar_enabled: bool,
    pub lock_keys_enabled: bool,
    pub lock_keys_duration: i32,
    pub lock_keys_bold_ui: bool,
    pub lock_keys_monitor_preference: i32,
    pub lock_keys_insert_enabled: bool,
    pub media_flyout_background_blur: i32,
    pub media_flyout_acrylic_window_enabled: bool,
    pub lock_keys_acrylic_window_enabled: bool,
    pub startup: bool,
    pub app_theme: i32,
    pub next_up_enabled: bool,
    pub next_up_duration: i32,
    pub next_up_acrylic_window_enabled: bool,
    pub taskbar_widget_enabled: bool,
    pub taskbar_widget_selected_monitor: i32,
    pub taskbar_widget_position: i32,
    pub taskbar_widget_padding: bool,
    pub taskbar_widget_manual_padding: i32,
    pub taskbar_widget_clickable: bool,
    pub taskbar_widget_closeable_flyout: bool,
    pub taskbar_widget_background_blur: bool,
    pub taskbar_widget_hide_completely: bool,
    pub taskbar_widget_controls_enabled: bool,
    pub taskbar_widget_controls_position: i32,
    pub taskbar_widget_animated: bool,
    pub app_language: String,
}

impl Default for FluentFlyoutSettings {
    /// The settings used when the document is missing or unreadable.
    fn default() -> (r: Self)
        ensures
            r.compact_layout == false,
            r.flyout_selected_monitor == 0,
            r.position == 0,
            r.flyout_animation_speed == 2,
            r.player_info_enabled == true,
            r.repeat_enabled == false,
            r.shuffle_enabled == false,
            r.media_flyout_always_display == false,
            r.duration == 3000,
            r.center_title_artist == false,
            r.flyout_animation_easing_style == 2,
            r.media_flyout_enabled == true,
            r.media_flyout_volume_keys_excluded == false,
            r.disable_if_fullscreen == true,
            r.nicon_left_click == 0,
            r.nicon_hide == false,
            r.exclusive_tidal_mode == true,
            r.seekbar_enabled == false,
            r.lock_keys_enabled == true,
            r.lock_keys_duration == 2000,
            r.lock_keys_bold_ui == false,
            r.lock_keys_monitor_preference == 0,
            r.lock_keys_insert_enabled == true,
            r.media_flyout_background_blur == 0,
            r.media_flyout_acrylic_window_enabled == true,
            r.lock_keys_acrylic_window_enabled == true,
            r.startup == true,
            r.app_theme == 0,
            r.next_up_enabled == true,
            r.next_up_duration == 2000,
            r.next_up_acrylic_window_enabled == true,
            r.taskbar_widget_enabled == true,
            r.taskbar_widget_selected_monitor == 0,
            r.taskbar_widget_position == 0,
            r.taskbar_widget_padding == true,
            r.taskbar_widget_manual_padding == 0,
            r.taskbar_widget_clickable == true,
            r.taskbar_widget_closeable_flyout == true,
            r.taskbar_widget_background_blur == false,
            r.taskbar_widget_hide_completely == false,
            r.taskbar_widget_controls_enabled == true,
            r.taskbar_widget_controls_position == 1,
            r.taskbar_widget_animated == true,
            r.app_language@ == "system"@,
    {
        Self {
            compact_layout: false,
            flyout_selected_monitor: 0,
            position: 0,
            flyout_animation_speed: 2,
            player_info_enabled: true,
            repeat_enabled: false,
            shuffle_enabled: false,
            media_flyout_always_display: false,
            duration: 3000,
            center_title_artist: false,
            flyout_animation_easing_style: 2,
            media_flyout_enabled: true,
            media_flyout_volume_keys_excluded: false,
            disable_if_fullscreen: true,
            nicon_left_click: 0,
            nicon_hide: false,
            exclusive_tidal_mode: true,
            seekbar_enabled: false,
            lock_keys_enabled: true,
            lock_keys_duration: 2000,
            lock_keys_bold_ui: false,
            lock_keys_monitor_preference: 0,
            lock_keys_insert_enabled: true,
            media_flyout_background_blur: 0,
            media_flyout_acrylic_window_enabled: true,
            lock_keys_acrylic_window_enabled: true,
            startup: true,
            app_theme: 0,
            next_up_enabled: true,
            next_up_duration: 2000,
            next_up_acrylic_window_enabled: true,
            taskbar_widget_enabled: true,
            taskbar_widget_selected_monitor: 0,
            taskbar_widget_position: 0,
            taskbar_widget_padding: true,
            taskbar_widget_manual_padding: 0,
            taskbar_widget_clickable: true,
            taskbar_widget_closeable_flyout: true,
            taskbar_widget_background_blur: false,
            taskbar_widget_hide_completely: false,
            taskbar_widget_controls_enabled: true,
            taskbar_widget_controls_position: 1,
            taskbar_widget_animated: true,
            app_language: "system".to_owned(),
        }
    }
}

/// The settings that the settings window edits and saves.
#[derive(Clone, Debug)]
pub struct EditableSettings {
    pub media_flyout_enabled: bool,
    pub media_flyout_background_blur: i32,
    pub media_flyout_acrylic_window_enabled: bool,
    pub compact_layout: bool,
    pub position: i32,
    pub duration: i32,
    pub media_flyout_always_display: bool,
    pub center_title_artist: bool,
    pub player_info_enabled: bool,
    pub repeat_enabled: bool,
    pub shuffle_enabled: bool,
    pub seekbar_enabled: bool,
    pub media_flyout_volume_keys_excluded: bool,
    pub exclusive_tidal_mode: bool,
    pub lock_keys_enabled: bool,
    pub lock_keys_acrylic_window_enabled: bool,
    pub lock_keys_duration: i32,
    pub lock_keys_bold_ui: bool,
    pub lock_keys_monitor_preference: i32,
    pub lock_keys_insert_enabled: bool,
    pub flyout_selected_monitor: i32,
    pub startup: bool,
    pub disable_if_fullscreen: bool,
    pub nicon_left_click: i32,
    pub nicon_hide: bool,
    pub app_theme: i32,
    pub next_up_enabled: bool,
    pub next_up_duration: i32,
    pub next_up_acrylic_window_enabled: bool,
    pub taskbar_widget_enabled: bool,
    pub taskbar_widget_selected_monitor: i32,
    pub taskbar_widget_position: i32,
    pub taskbar_widget_padding: bool,
    pub taskbar_widget_manual_padding: i32,
    pub taskbar_widget_clickable: bool,
    pub taskbar_widget_closeable_flyout: bool,
    pub taskbar_widget_background_blur: bool,
    pub taskbar_widget_hide_completely: bool,
    pub taskbar_widget_controls_enabled: bool,
    pub taskbar_widget_controls_position: i32,
    pub taskbar_widget_animated: bool,
}

/// `v` limited to `lo..=hi` (`i32::clamp`).
pub open spec fn clamp_spec(v: int, lo: int, hi: int) -> int {
    if v < lo {
        lo
    } else if v > hi {
        hi
    } else {
        v
    }
}

/// `v` limited to `lo..=hi`.
pub fn clamp_i32(v: i32, lo: i32, hi: i32) -> (r: i32)
    requires
        lo <= hi,
    ensures
        r == clamp_spec(v as int, lo as int, hi as int),
{
    if v < lo {
        lo
    } else if v > hi {
        hi
    } else {
        v
    }
}

/// `"true"` or `"false"`, the text a `bool` setting is saved as.
pub fn bool_text(value: bool) -> (s: String)
    ensures
        s@ == text::bool_chars(value),
{
    proof {
        reveal_strlit("true");
        reveal_strlit("false");
    }
    let s = if value {
        "true".to_owned()
    } else {
        "false".to_owned()
    };
    assert(s@ =~= text::bool_chars(value));
    s
}

/// The document written when no settings file exists yet.
pub open spec fn empty_settings_document() -> Seq<char> {
    "<?xml version=\"1.0\" encoding=\"utf-8\"?>\n<UserSettings xmlns:xsi=\"http://www.w3.org/2001/XMLSchema-instance\" xmlns:xsd=\"http://www.w3.org/2001/XMLSchema\">\n</UserSettings>\n"@
}

/// Entries 1 to 7 of `edit_entries`.
pub open spec fn edit_entries_0(e: EditableSettings) -> Seq<(Seq<char>, Seq<char>)> {
    seq![
        ("MediaFlyoutEnabled"@, text::bool_chars(e.media_flyout_enabled)),
        ("MediaFlyoutBackgroundBlur"@, text::int_text(e.media_flyout_background_blur as int)),
        ("MediaFlyoutAcrylicWindowEnabled"@, text::bool_chars(e.media_flyout_acrylic_window_enabled)),
        ("CompactLayout"@, text::bool_chars(e.compact_layout)),
        ("Position"@, text::int_text(e.position as int)),
        ("Duration"@, text::int_text(clamp_spec(e.duration as int, 0, 10000))),
        ("MediaFlyoutAlwaysDisplay"@, text::bool_chars(e.media_flyout_always_display)),
    ]
}

/// Entries 8 to 14 of `edit_entries`.
pub open spec fn edit_entries_1(e: EditableSettings) -> Seq<(Seq<char>, Seq<char>)> {
    seq![
        ("CenterTitleArtist"@, text::bool_chars(e.center_title_artist)),
        ("PlayerInfoEnabled"@, text::bool_chars(e.player_info_enabled)),
        ("RepeatEnabled"@, text::bool_chars(e.repeat_enabled)),
        ("ShuffleEnabled"@, text::bool_chars(e.shuffle_enabled)),
        ("SeekbarEnabled"@, text::bool_chars(e.seekbar_enabled)),
        ("MediaFlyoutVolumeKeysExcluded"@, text::bool_chars(e.media_flyout_volume_keys_excluded)),
        ("ExclusiveTidalMode"@, text::bool_chars(e.exclusive_tidal_mode)),
    ]
}

/// Entries 15 to 21 of `edit_entries`.
pub open spec fn edit_entries_2(e: EditableSettings) -> Seq<(Seq<char>, Seq<char>)> {
    seq![
        ("LockKeysEnabled"@, text::bool_chars(e.lock_keys_enabled)),
        ("LockKeysAcrylicWindowEnabled"@, text::bool_chars(e.lock_keys_acrylic_window_enabled)),
        ("LockKeysDuration"@, text::int_text(clamp_spec(e.lock_keys_duration as int, 0, 10000))),
        ("LockKeysBoldUI"@, text::bool_chars(e.lock_keys_bold_ui)),
        ("LockKeysMonitorPreference"@, text::int_text(e.lock_keys_monitor_preference as int)),
        ("LockKeysInsertEnabled"@, text::bool_chars(e.lock_keys_insert_enabled)),
        ("FlyoutSelectedMonitor"@, text::int_text(e.flyout_selected_monitor as int)),
    ]
}

/// Entries 22 to 28 of `edit_entries`.
pub open spec fn edit_entries_3(e: EditableSettings) -> Seq<(Seq<char>, Seq<char>)> {
    seq![
        ("Startup"@, text::bool_chars(e.startup)),
        ("DisableIfFullscreen"@, text::bool_chars(e.disable_if_fullscreen)),
        ("nIconLeftClick"@, text::int_text(e.nicon_left_click as int)),
        ("NIconHide"@, text::bool_chars(e.nicon_hide)),
        ("AppTheme"@, text::int_text(e.app_theme as int)),
        ("NextUpEnabled"@, text::bool_chars(e.next_up_enabled)),
        ("NextUpDuration"@, text::int_text(clamp_spec(e.next_up_duration as int, 0, 10000))),
    ]
}

/// Entries 29 to 35 of `edit_entries`.
pub open spec fn edit_entries_4(e: EditableSettings) -> Seq<(Seq<char>, Seq<char>)> {
    seq![
        ("NextUpAcrylicWindowEnabled"@, text::bool_chars(e.next_up_acrylic_window_enabled)),
        ("TaskbarWidgetEnabled"@, text::bool_chars(e.taskbar_widget_enabled)),
        ("TaskbarWidgetSelectedMonitor"@, text::int_text(e.taskbar_widget_selected_monitor as int)),
        ("TaskbarWidgetPosition"@, text::int_text(e.taskbar_widget_position as int)),
        ("TaskbarWidgetPadding"@, text::bool_chars(e.taskbar_widget_padding)),
        ("TaskbarWidgetManualPadding"@, text::int_text(e.taskbar_widget_manual_padding as int)),
        ("TaskbarWidgetClickable"@, text::bool_chars(e.taskbar_widget_clickable)),
    ]
}

/// Entries 36 to 41 of `edit_entries`.
pub open spec fn edit_entries_5(e: EditableSettings) -> Seq<(Seq<char>, Seq<char>)> {
    seq![
        ("TaskbarWidgetCloseableFlyout"@, text::bool_chars(e.taskbar_widget_closeable_flyout)),
        ("TaskbarWidgetBackgroundBlur"@, text::bool_chars(e.taskbar_widget_background_blur)),
        ("TaskbarWidgetHideCompletely"@, text::bool_chars(e.taskbar_widget_hide_completely)),
        ("TaskbarWidgetControlsEnabled"@, text::bool_chars(e.taskbar_widget_controls_enabled)),
        ("TaskbarWidgetControlsPosition"@, text::int_text(e.taskbar_widget_controls_position as int)),
        ("TaskbarWidgetAnimated"@, text::bool_chars(e.taskbar_widget_animated)),
    ]
}

/// The `(tag, text)` entries that saving the edits writes, in the order they are written.
/// Durations are limited to `0..=10000` milliseconds.
pub open spec fn edit_entries(e: EditableSettings) -> Seq<(Seq<char>, Seq<char>)> {
    edit_entries_0(e) + edit_entries_1(e) + edit_entries_2(e) + edit_entries_3(e) + edit_entries_4(e) + edit_entries_5(e)
}

/// The document after writing each entry in turn with `replace_or_insert_tag`.
pub open spec fn apply_entries(xml: Seq<char>, entries: Seq<(Seq<char>, Seq<char>)>) -> Seq<char>
    decreases entries.len(),
{
    if entries.len() == 0 {
        xml
    } else {
        settings_xml::spec_replace_or_insert_tag(
            apply_entries(xml, entries.drop_last()),
            entries.last().0,
            entries.last().1,
        )
    }
}

/// The settings document after saving `edits` into `existing` (the current file's
/// text, or `None` when there is no file yet).
pub open spec fn saved_document(existing: Option<Seq<char>>, edits: EditableSettings) -> Seq<char> {
    let base = match existing {
        Some(x) => x,
        None => empty_settings_document(),
    };
    apply_entries(base, edit_entries(edits))
}

/// The views of a list of `(String, String)` pairs.
pub open spec fn entries_view(v: Seq<(String, String)>) -> Seq<(Seq<char>, Seq<char>)> {
    v.map_values(|p: (String, String)| (p.0@, p.1@))
}

fn edit_entry_list_0(e: &EditableSettings) -> (v: Vec<(String, String)>)
    ensures
        entries_view(v@) == edit_entries_0(*e),
{
    let mut v: Vec<(String, String)> = Vec::new();
    v.push(("MediaFlyoutEnabled".to_owned(), bool_text(e.media_flyout_enabled)));
    v.push(("MediaFlyoutBackgroundBlur".to_owned(), text::i32_text(e.media_flyout_background_blur)));
    v.push(("MediaFlyoutAcrylicWindowEnabled".to_owned(), bool_text(e.media_flyout_acrylic_window_enabled)));
    v.push(("CompactLayout".to_owned(), bool_text(e.compact_layout)));
    v.push(("Position".to_owned(), text::i32_text(e.position)));
    v.push(("Duration".to_owned(), text::i32_text(clamp_i32(e.duration, 0, 10000))));
    v.push(("MediaFlyoutAlwaysDisplay".to_owned(), bool_text(e.media_flyout_always_display)));
    assert(entries_view(v@) =~= edit_entries_0(*e));
    v
}

fn edit_entry_list_1(e: &EditableSettings) -> (v: Vec<(String, String)>)
    ensures
        entries_view(v@) == edit_entries_1(*e),
{
    let mut v: Vec<(String, String)> = Vec::new();
    v.push(("CenterTitleArtist".to_owned(), bool_text(e.center_title_artist)));
    v.push(("PlayerInfoEnabled".to_owned(), bool_text(e.player_info_enabled)));
    v.push(("RepeatEnabled".to_owned(), bool_text(e.repeat_enabled)));
    v.push(("ShuffleEnabled".to_owned(), bool_text(e.shuffle_enabled)));
    v.push(("SeekbarEnabled".to_owned(), bool_text(e.seekbar_enabled)));
    v.push(("MediaFlyoutVolumeKeysExcluded".to_owned(), bool_text(e.media_flyout_volume_keys_excluded)));
    v.push(("ExclusiveTidalMode".to_owned(), bool_text(e.exclusive_tidal_mode)));
    assert(entries_view(v@) =~= edit_entries_1(*e));
    v
}

fn edit_entry_list_2(e: &EditableSettings) -> (v: Vec<(String, String)>)
    ensures
        entries_view(v@) == edit_entries_2(*e),
{
    let mut v: Vec<(String, String)> = Vec::new();
    v.push(("LockKeysEnabled".to_owned(), bool_text(e.lock_keys_enabled)));
    v.push(("LockKeysAcrylicWindowEnabled".to_owned(), bool_text(e.lock_keys_acrylic_window_enabled)));
    v.push(("LockKeysDuration".to_owned(), text::i32_text(clamp_i32(e.lock_keys_duration, 0, 10000))));
    v.push(("LockKeysBoldUI".to_owned(), bool_text(e.lock_keys_bold_ui)));
    v.push(("LockKeysMonitorPreference".to_owned(), text::i32_text(e.lock_keys_monitor_preference)));
    v.push(("LockKeysInsertEnabled".to_owned(), bool_text(e.lock_keys_insert_enabled)));
    v.push(("FlyoutSelectedMonitor".to_owned(), text::i32_text(e.flyout_selected_monitor)));
    assert(entries_view(v@) =~= edit_entries_2(*e));
    v
}

fn edit_entry_list_3(e: &EditableSettings) -> (v: Vec<(String, String)>)
    ensures
        entries_view(v@) == edit_entries_3(*e),
{
    let mut v: Vec<(String, String)> = Vec::new();
    v.push(("Startup".to_owned(), bool_text(e.startup)));
    v.push(("DisableIfFullscreen".to_owned(), bool_text(e.disable_if_fullscreen)));
    v.push(("nIconLeftClick".to_owned(), text::i32_text(e.nicon_left_click)));
    v.push(("NIconHide".to_owned(), bool_text(e.nicon_hide)));
    v.push(("AppTheme".to_owned(), text::i32_text(e.app_theme)));
    v.push(("NextUpEnabled".to_owned(), bool_text(e.next_up_enabled)));
    v.push(("NextUpDuration".to_owned(), text::i32_text(clamp_i32(e.next_up_duration, 0, 10000))));
    assert(entries_view(v@) =~= edit_entries_3(*e));
    v
}

fn edit_entry_list_4(e: &EditableSettings) -> (v: Vec<(String, String)>)
    ensures
        entries_view(v@) == edit_entries_4(*e),
{
    let mut v: Vec<(String, String)> = Vec::new();
    v.push(("NextUpAcrylicWindowEnabled".to_owned(), bool_text(e.next_up_acrylic_window_enabled)));
    v.push(("TaskbarWidgetEnabled".to_owned(), bool_text(e.taskbar_widget_enabled)));
    v.push(("TaskbarWidgetSelectedMonitor".to_owned(), text::i32_text(e.taskbar_widget_selected_monitor)));
    v.push(("TaskbarWidgetPosition".to_owned(), text::i32_text(e.taskbar_widget_position)));
    v.push(("TaskbarWidgetPadding".to_owned(), bool_text(e.taskbar_widget_padding)));
    v.push(("TaskbarWidgetManualPadding".to_owned(), text::i32_text(e.taskbar_widget_manual_padding)));
    v.push(("TaskbarWidgetClickable".to_owned(), bool_text(e.taskbar_widget_clickable)));
    assert(entries_view(v@) =~= edit_entries_4(*e));
    v
}

fn edit_entry_list_5(e: &EditableSettings) -> (v: Vec<(String, String)>)
    ensures
        entries_view(v@) == edit_entries_5(*e),
{
    let mut v: Vec<(String, String)> = Vec::new();
    v.push(("TaskbarWidgetCloseableFlyout".to_owned(), bool_text(e.taskbar_widget_closeable_flyout)));
    v.push(("TaskbarWidgetBackgroundBlur".to_owned(), bool_text(e.taskbar_widget_background_blur)));
    v.push(("TaskbarWidgetHideCompletely".to_owned(), bool_text(e.taskbar_widget_hide_completely)));
    v.push(("TaskbarWidgetControlsEnabled".to_owned(), bool_text(e.taskbar_widget_controls_enabled)));
    v.push(("TaskbarWidgetControlsPosition".to_owned(), text::i32_text(e.taskbar_widget_controls_position)));
    v.push(("TaskbarWidgetAnimated".to_owned(), bool_text(e.taskbar_widget_animated)));
    assert(entries_view(v@) =~= edit_entries_5(*e));
    v
}

fn edit_entry_list(e: &EditableSettings) -> (v: Vec<(String, String)>)
    ensures
        entries_view(v@) == edit_entries(*e),
{
    let mut v = edit_entry_list_0(e);
    let ghost before = v@;
    let mut more = edit_entry_list_1(e);
    v.append(&mut more);
    assert(entries_view(v@) =~= entries_view(before) + edit_entries_1(*e));
    let ghost before = v@;
    let mut more = edit_entry_list_2(e);
    v.append(&mut more);
    assert(entries_view(v@) =~= entries_view(before) + edit_entries_2(*e));
    let ghost before = v@;
    let mut more = edit_entry_list_3(e);
    v.append(&mut more);
    assert(entries_view(v@) =~= entries_view(before) + edit_entries_3(*e));
    let ghost before = v@;
    let mut more = edit_entry_list_4(e);
    v.append(&mut more);
    assert(entries_view(v@) =~= entries_view(before) + edit_entries_4(*e));
    let ghost before = v@;
    let mut more = edit_entry_list_5(e);
    v.append(&mut more);
    assert(entries_view(v@) =~= entries_view(before) + edit_entries_5(*e));
    assert(entries_view(v@) =~= edit_entries(*e));
    v
}
/// Writes the settings window's edits into the settings document `existing` (the
/// current file's text, or `None` when there is none), returning the text to save.
/// Each edited setting replaces the content of its existing tag or is inserted before
/// `</UserSettings>`; every other tag, known or not, keeps its text.
pub fn save_settings_edits(existing: Option<String>, edits: &EditableSettings) -> (xml: String)
    ensures
        xml@ == saved_document(
            match existing {
                Some(x) => Some(x@),
                None => None,
            },
            *edits,
        ),
{
    let ghost base = match &existing {
        Some(x) => x@,
        None => empty_settings_document(),
    };
    let mut xml = match existing {
        Some(x) => x,
        None => "<?xml version=\"1.0\" encoding=\"utf-8\"?>\n<UserSettings xmlns:xsi=\"http://www.w3.org/2001/XMLSchema-instance\" xmlns:xsd=\"http://www.w3.org/2001/XMLSchema\">\n</UserSettings>\n".to_owned(),
    };
    let entries = edit_entry_list(edits);
    let ghost all = entries_view(entries@);
    let mut i: usize = 0;
    while i < entries.len()
        invariant
            i <= entries@.len(),
            all == entries_view(entries@),
            xml@ == apply_entries(base, all.take(i as int)),
        decreases entries@.len() - i,
    {
        let (tag, value) = &entries[i];
        settings_xml::replace_or_insert_tag(&mut xml, tag.as_str(), value.as_str());
        proof {
            assert(all.take(i + 1).drop_last() =~= all.take(i as int));
        }
        i = i + 1;
    }
    assert(all.take(entries@.len() as int) =~= all);
    xml
}

/// The sample texts a media flyout preview shows.
pub struct MediaFlyoutPreviewState {
    pub title: &'static str,
    pub artist: &'static str,
    pub player: &'static str,
    pub current_duration: &'static str,
    pub max_duration: &'static str,
}

/// What the preview dashboard and settings window show: the two sample flyouts and
/// every setting as the windows use it. Seek bar values are whole seconds.
pub struct AppPreviewState {
    pub normal: MediaFlyoutPreviewState,
    pub compact: MediaFlyoutPreviewState,
    pub flyout_position: i32,
    pub flyout_selected_monitor: i32,
    pub flyout_animation_speed: i32,
    pub flyout_animation_easing_style: i32,
    pub flyout_duration_ms: u64,
    pub media_flyout_enabled: bool,
    pub media_flyout_volume_keys_excluded: bool,
    pub disable_if_fullscreen: bool,
    pub nicon_left_click: i32,
    pub nicon_hide: bool,
    pub startup: bool,
    pub app_theme: i32,
    pub next_up_enabled: bool,
    pub next_up_duration_ms: u64,
    pub next_up_acrylic_window_enabled: bool,
    pub taskbar_widget_enabled: bool,
    pub taskbar_widget_selected_monitor: i32,
    pub taskbar_widget_position: i32,
    pub taskbar_widget_padding: bool,
    pub taskbar_widget_manual_padding: i32,
    pub taskbar_widget_clickable: bool,
    pub taskbar_widget_closeable_flyout: bool,
    pub taskbar_widget_background_blur: bool,
    pub taskbar_widget_hide_completely: bool,
    pub taskbar_widget_controls_enabled: bool,
    pub taskbar_widget_controls_position: i32,
    pub taskbar_widget_animated: bool,
    pub normal_compact_layout: bool,
    pub normal_center_title_artist: bool,
    pub normal_play_pause_label: String,
    pub normal_repeat_label: String,
    pub normal_repeat_active: bool,
    pub normal_repeat_available: bool,
    pub normal_shuffle_active: bool,
    pub normal_shuffle_available: bool,
    pub normal_seekbar_value: u32,
    pub normal_seekbar_maximum: u32,
    pub normal_repeat_enabled: bool,
    pub normal_shuffle_enabled: bool,
    pub normal_player_info_enabled: bool,
    pub normal_seekbar_enabled: bool,
    pub normal_media_session_supports_seekbar: bool,
    pub normal_always_display: bool,
    pub normal_background_blur_style: i32,
    pub media_flyout_acrylic_window_enabled: bool,
    pub exclusive_tidal_mode: bool,
    pub lock_keys_enabled: bool,
    pub lock_keys_insert_enabled: bool,
    pub lock_keys_duration_ms: u64,
    pub lock_keys_bold_ui: bool,
    pub lock_keys_monitor_preference: i32,
    pub lock_keys_acrylic_window_enabled: bool,
    pub settings_path: String,
    pub settings_status: String,
    pub settings_summary: String,
    pub compact_play_pause_label: String,
    pub compact_repeat_label: String,
    pub compact_repeat_active: bool,
    pub compact_repeat_available: bool,
    pub compact_shuffle_active: bool,
    pub compact_shuffle_available: bool,
    pub compact_seekbar_value: u32,
    pub compact_seekbar_maximum: u32,
    pub compact_always_display: bool,
    pub compact_compact_layout: bool,
    pub compact_background_blur_style: i32,
}

/// A duration setting in milliseconds, limited to `0..=10000`.
pub open spec fn duration_ms(v: i32) -> u64 {
    clamp_spec(v as int, 0, 10000) as u64
}

/// The one-line summary of the main settings shown on the dashboard.
pub open spec fn settings_summary_text(s: FluentFlyoutSettings) -> Seq<char> {
    "compact="@ + text::bool_chars(s.compact_layout)
        + ", repeat="@ + text::bool_chars(s.repeat_enabled)
        + ", shuffle="@ + text::bool_chars(s.shuffle_enabled)
        + ", seekbar="@ + text::bool_chars(s.seekbar_enabled)
        + ", player-info="@ + text::bool_chars(s.player_info_enabled)
        + ", blur="@ + text::int_text(s.media_flyout_background_blur as int)
        + ", acrylic="@ + text::bool_chars(s.media_flyout_acrylic_window_enabled)
        + ", pos="@ + text::int_text(s.position as int)
        + ", lock="@ + text::bool_chars(s.lock_keys_enabled)
        + ", lock-insert="@ + text::bool_chars(s.lock_keys_insert_enabled)
        + ", fullscreen-cutoff="@ + text::bool_chars(s.disable_if_fullscreen)
        + ", lang="@ + s.app_language@
        + ", tidal-only="@ + text::bool_chars(s.exclusive_tidal_mode)
}

/// The status line: where the settings were loaded from, or why defaults are used.
pub open spec fn settings_status_text(path: Seq<char>, load_error: Option<Seq<char>>) -> Seq<char> {
    match load_error {
        None => "Loaded "@ + path,
        Some(e) => "Using defaults: "@ + e,
    }
}

/// The preview state shows the settings `s` loaded from `path`, with the fixed sample
/// texts, seek bars and button labels.
pub open spec fn preview_of(p: AppPreviewState, s: FluentFlyoutSettings, path: Seq<char>, load_error: Option<Seq<char>>) -> bool {
    &&& p.flyout_position == s.position
    &&& p.flyout_selected_monitor == s.flyout_selected_monitor
    &&& p.flyout_animation_speed == s.flyout_animation_speed
    &&& p.flyout_animation_easing_style == s.flyout_animation_easing_style
    &&& p.flyout_duration_ms == duration_ms(s.duration)
    &&& p.media_flyout_enabled == s.media_flyout_enabled
    &&& p.media_flyout_volume_keys_excluded == s.media_flyout_volume_keys_excluded
    &&& p.disable_if_fullscreen == s.disable_if_fullscreen
    &&& p.nicon_left_click == s.nicon_left_click
    &&& p.nicon_hide == s.nicon_hide
    &&& p.startup == s.startup
    &&& p.app_theme == s.app_theme
    &&& p.next_up_enabled == s.next_up_enabled
    &&& p.next_up_duration_ms == duration_ms(s.next_up_duration)
    &&& p.next_up_acrylic_window_enabled == s.next_up_acrylic_window_enabled
    &&& p.taskbar_widget_enabled == s.taskbar_widget_enabled
    &&& p.taskbar_widget_selected_monitor == s.taskbar_widget_selected_monitor
    &&& p.taskbar_widget_position == s.taskbar_widget_position
    &&& p.taskbar_widget_padding == s.taskbar_widget_padding
    &&& p.taskbar_widget_manual_padding == s.taskbar_widget_manual_padding
    &&& p.taskbar_widget_clickable == s.taskbar_widget_clickable
    &&& p.taskbar_widget_closeable_flyout == s.taskbar_widget_closeable_flyout
    &&& p.taskbar_widget_background_blur == s.taskbar_widget_background_blur
    &&& p.taskbar_widget_hide_completely == s.taskbar_widget_hide_completely
    &&& p.taskbar_widget_controls_enabled == s.taskbar_widget_controls_enabled
    &&& p.taskbar_widget_controls_position == s.taskbar_widget_controls_position
    &&& p.taskbar_widget_animated == s.taskbar_widget_animated
    &&& p.normal_compact_layout == s.compact_layout
    &&& p.normal_center_title_artist == s.center_title_artist
    &&& p.normal_play_pause_label@ == "II"@
    &&& p.normal_repeat_label@ == "R"@
    &&& p.normal_repeat_active == false
    &&& p.normal_repeat_available == true
    &&& p.normal_shuffle_active == false
    &&& p.normal_shuffle_available == true
    &&& p.normal_seekbar_value == 72
    &&& p.normal_seekbar_maximum == 188
    &&& p.normal_repeat_enabled == s.repeat_enabled
    &&& p.normal_shuffle_enabled == s.shuffle_enabled
    &&& p.normal_player_info_enabled == s.player_info_enabled
    &&& p.normal_seekbar_enabled == s.seekbar_enabled
    &&& p.normal_media_session_supports_seekbar == true
    &&& p.normal_always_display == s.media_flyout_always_display
    &&& p.normal_background_blur_style == s.media_flyout_background_blur
    &&& p.media_flyout_acrylic_window_enabled == s.media_flyout_acrylic_window_enabled
    &&& p.exclusive_tidal_mode == s.exclusive_tidal_mode
    &&& p.lock_keys_enabled == s.lock_keys_enabled
    &&& p.lock_keys_insert_enabled == s.lock_keys_insert_enabled
    &&& p.lock_keys_duration_ms == duration_ms(s.lock_keys_duration)
    &&& p.lock_keys_bold_ui == s.lock_keys_bold_ui
    &&& p.lock_keys_monitor_preference == s.lock_keys_monitor_preference
    &&& p.lock_keys_acrylic_window_enabled == s.lock_keys_acrylic_window_enabled
    &&& p.settings_path@ == path
    &&& p.settings_status@ == settings_status_text(path, load_error)
    &&& p.settings_summary@ == settings_summary_text(s)
    &&& p.compact_play_pause_label@ == "II"@
    &&& p.compact_repeat_label@ == "R"@
    &&& p.compact_repeat_active == false
    &&& p.compact_repeat_available == true
    &&& p.compact_shuffle_active == false
    &&& p.compact_shuffle_available == true
    &&& p.compact_seekbar_value == 48
    &&& p.compact_seekbar_maximum == 261
    &&& p.compact_always_display == true
    &&& p.compact_compact_layout == !s.compact_layout
    &&& p.compact_background_blur_style == (if s.media_flyout_background_blur == 0 { 2 } else { s.media_flyout_background_blur })
    &&& p.normal.title@ == "Glass Arcade"@ && p.normal.artist@ == "Lumen Avenue"@
    &&& p.normal.player@ == "Spotify"@ && p.normal.current_duration@ == "1:12"@
    &&& p.normal.max_duration@ == "3:08"@
    &&& p.compact.title@ == "Signal Bloom"@ && p.compact.artist@ == "North Harbor"@
    &&& p.compact.player@ == "TIDAL"@ && p.compact.current_duration@ == "0:48"@
    &&& p.compact.max_duration@ == "4:21"@
}

fn duration_ms_exec(v: i32) -> (r: u64)
    ensures
        r == duration_ms(v),
{
    clamp_i32(v, 0, 10000) as u64
}

fn summary_string(s: &FluentFlyoutSettings) -> (r: String)
    ensures
        r@ == settings_summary_text(*s),
{
    let mut v: Vec<char> = Vec::new();
    text::push_str_chars(&mut v, "compact=");
    text::push_bool_text(&mut v, s.compact_layout);
    text::push_str_chars(&mut v, ", repeat=");
    text::push_bool_text(&mut v, s.repeat_enabled);
    text::push_str_chars(&mut v, ", shuffle=");
    text::push_bool_text(&mut v, s.shuffle_enabled);
    text::push_str_chars(&mut v, ", seekbar=");
    text::push_bool_text(&mut v, s.seekbar_enabled);
    text::push_str_chars(&mut v, ", player-info=");
    text::push_bool_text(&mut v, s.player_info_enabled);
    text::push_str_chars(&mut v, ", blur=");
    text::push_int_text(&mut v, s.media_flyout_background_blur as i64);
    text::push_str_chars(&mut v, ", acrylic=");
    text::push_bool_text(&mut v, s.media_flyout_acrylic_window_enabled);
    text::push_str_chars(&mut v, ", pos=");
    text::push_int_text(&mut v, s.position as i64);
    text::push_str_chars(&mut v, ", lock=");
    text::push_bool_text(&mut v, s.lock_keys_enabled);
    text::push_str_chars(&mut v, ", lock-insert=");
    text::push_bool_text(&mut v, s.lock_keys_insert_enabled);
    text::push_str_chars(&mut v, ", fullscreen-cutoff=");
    text::push_bool_text(&mut v, s.disable_if_fullscreen);
    text::push_str_chars(&mut v, ", lang=");
    text::push_str_chars(&mut v, s.app_language.as_str());
    text::push_str_chars(&mut v, ", tidal-only=");
    text::push_bool_text(&mut v, s.exclusive_tidal_mode);
    assert(v@ =~= settings_summary_text(*s));
    text::string_from_chars(&v)
}

fn status_string(path: &String, load_error: &Option<String>) -> (r: String)
    ensures
        r@ == settings_status_text(
            path@,
            match load_error {
                Some(e) => Some(e@),
                None => None,
            },
        ),
{
    let mut v: Vec<char> = Vec::new();
    match load_error {
        None => {
            text::push_str_chars(&mut v, "Loaded ");
            text::push_str_chars(&mut v, path.as_str());
        },
        Some(e) => {
            text::push_str_chars(&mut v, "Using defaults: ");
            text::push_str_chars(&mut v, e.as_str());
        },
    }
    text::string_from_chars(&v)
}

impl AppPreviewState {
    /// The preview state for settings loaded from `settings_path` (`load_error` says why
    /// the defaults are used instead, when they are).
    pub fn from_settings(settings: &FluentFlyoutSettings, settings_path: String, load_error: Option<String>) -> (p: Self)
        ensures
            preview_of(
                p,
                *settings,
                settings_path@,
                match load_error {
                    Some(e) => Some(e@),
                    None => None,
                },
            ),
    {
        let s = settings;
        let settings_status = status_string(&settings_path, &load_error);
        let settings_summary = summary_string(s);
        AppPreviewState {
            normal: MediaFlyoutPreviewState {
                title: "Glass Arcade",
                artist: "Lumen Avenue",
                player: "Spotify",
                current_duration: "1:12",
                max_duration: "3:08",
            },
            compact: MediaFlyoutPreviewState {
                title: "Signal Bloom",
                artist: "North Harbor",
                player: "TIDAL",
                current_duration: "0:48",
                max_duration: "4:21",
            },
            flyout_position: s.position,
            flyout_selected_monitor: s.flyout_selected_monitor,
            flyout_animation_speed: s.flyout_animation_speed,
            flyout_animation_easing_style: s.flyout_animation_easing_style,
            flyout_duration_ms: duration_ms_exec(s.duration),
            media_flyout_enabled: s.media_flyout_enabled,
            media_flyout_volume_keys_excluded: s.media_flyout_volume_keys_excluded,
            disable_if_fullscreen: s.disable_if_fullscreen,
            nicon_left_click: s.nicon_left_click,
            nicon_hide: s.nicon_hide,
            startup: s.startup,
            app_theme: s.app_theme,
            next_up_enabled: s.next_up_enabled,
            next_up_duration_ms: duration_ms_exec(s.next_up_duration),
            next_up_acrylic_window_enabled: s.next_up_acrylic_window_enabled,
            taskbar_widget_enabled: s.taskbar_widget_enabled,
            taskbar_widget_selected_monitor: s.taskbar_widget_selected_monitor,
            taskbar_widget_position: s.taskbar_widget_position,
            taskbar_widget_padding: s.taskbar_widget_padding,
            taskbar_widget_manual_padding: s.taskbar_widget_manual_padding,
            taskbar_widget_clickable: s.taskbar_widget_clickable,
            taskbar_widget_closeable_flyout: s.taskbar_widget_closeable_flyout,
            taskbar_widget_background_blur: s.taskbar_widget_background_blur,
            taskbar_widget_hide_completely: s.taskbar_widget_hide_completely,
            taskbar_widget_controls_enabled: s.taskbar_widget_controls_enabled,
            taskbar_widget_controls_position: s.taskbar_widget_controls_position,
            taskbar_widget_animated: s.taskbar_widget_animated,
            normal_compact_layout: s.compact_layout,
            normal_center_title_artist: s.center_title_artist,
            normal_play_pause_label: "II".to_owned(),
            normal_repeat_label: "R".to_owned(),
            normal_repeat_active: false,
            normal_repeat_available: true,
            normal_shuffle_active: false,
            normal_shuffle_available: true,
            normal_seekbar_value: 72,
            normal_seekbar_maximum: 188,
            normal_repeat_enabled: s.repeat_enabled,
            normal_shuffle_enabled: s.shuffle_enabled,
            normal_player_info_enabled: s.player_info_enabled,
            normal_seekbar_enabled: s.seekbar_enabled,
            normal_media_session_supports_seekbar: true,
            normal_always_display: s.media_flyout_always_display,
            normal_background_blur_style: s.media_flyout_background_blur,
            media_flyout_acrylic_window_enabled: s.media_flyout_acrylic_window_enabled,
            exclusive_tidal_mode: s.exclusive_tidal_mode,
            lock_keys_enabled: s.lock_keys_enabled,
            lock_keys_insert_enabled: s.lock_keys_insert_enabled,
            lock_keys_duration_ms: duration_ms_exec(s.lock_keys_duration),
            lock_keys_bold_ui: s.lock_keys_bold_ui,
            lock_keys_monitor_preference: s.lock_keys_monitor_preference,
            lock_keys_acrylic_window_enabled: s.lock_keys_acrylic_window_enabled,
            settings_path: settings_path,
            settings_status,
            settings_summary,
            compact_play_pause_label: "II".to_owned(),
            compact_repeat_label: "R".to_owned(),
            compact_repeat_active: false,
            compact_repeat_available: true,
            compact_shuffle_active: false,
            compact_shuffle_available: true,
            compact_seekbar_value: 48,
            compact_seekbar_maximum: 261,
            compact_always_display: true,
            compact_compact_layout: !s.compact_layout,
            compact_background_blur_style: if s.media_flyout_background_blur == 0 {
                2
            } else {
                s.media_flyout_background_blur
            },
        }
    }
}

} // verus!
