use fluent_flyout::settings::{bool_text, save_settings_edits, EditableSettings};
use fluent_flyout::settings_xml::{replace_or_insert_tag, tag_value};

#[test]
fn replace_or_insert_tag_inserts_missing_tag_before_root_end() {
    let mut xml = String::from(
        "<?xml version=\"1.0\" encoding=\"utf-8\"?>\n<UserSettings>\n  <CompactLayout>false</CompactLayout>\n</UserSettings>\n",
    );

    replace_or_insert_tag(&mut xml, "TaskbarWidgetEnabled", "true");
    replace_or_insert_tag(&mut xml, "CompactLayout", "true");

    assert!(xml.contains("<CompactLayout>true</CompactLayout>"));
    assert!(xml.contains("<TaskbarWidgetEnabled>true</TaskbarWidgetEnabled>"));
    assert!(
        xml.find("<TaskbarWidgetEnabled>true</TaskbarWidgetEnabled>").unwrap()
            < xml.find("</UserSettings>").unwrap()
    );
}

fn sample_edits() -> EditableSettings {
    EditableSettings {
        media_flyout_enabled: false,
        media_flyout_background_blur: 3,
        media_flyout_acrylic_window_enabled: false,
        compact_layout: true,
        position: 5,
        duration: 20_000,
        media_flyout_always_display: true,
        center_title_artist: true,
        player_info_enabled: false,
        repeat_enabled: true,
        shuffle_enabled: true,
        seekbar_enabled: true,
        media_flyout_volume_keys_excluded: true,
        exclusive_tidal_mode: false,
        lock_keys_enabled: false,
        lock_keys_acrylic_window_enabled: false,
        lock_keys_duration: 11_000,
        lock_keys_bold_ui: true,
        lock_keys_monitor_preference: 2,
        lock_keys_insert_enabled: false,
        flyout_selected_monitor: 4,
        startup: false,
        disable_if_fullscreen: false,
        nicon_left_click: 1,
        nicon_hide: true,
        app_theme: 2,
        next_up_enabled: false,
        next_up_duration: 8_000,
        next_up_acrylic_window_enabled: false,
        taskbar_widget_enabled: false,
        taskbar_widget_selected_monitor: 3,
        taskbar_widget_position: 2,
        taskbar_widget_padding: false,
        taskbar_widget_manual_padding: 24,
        taskbar_widget_clickable: false,
        taskbar_widget_closeable_flyout: false,
        taskbar_widget_background_blur: true,
        taskbar_widget_hide_completely: true,
        taskbar_widget_controls_enabled: false,
        taskbar_widget_controls_position: 0,
        taskbar_widget_animated: false,
    }
}

#[test]
fn save_settings_edits_updates_known_tags_and_preserves_unknown_ones() {
    let initial_xml = r#"<?xml version="1.0" encoding="utf-8"?>
<UserSettings xmlns:xsi="http://www.w3.org/2001/XMLSchema-instance" xmlns:xsd="http://www.w3.org/2001/XMLSchema">
  <CompactLayout>false</CompactLayout>
  <Duration>3000</Duration>
  <NIconHide>false</NIconHide>
  <LastKnownVersion>debug</LastKnownVersion>
</UserSettings>
"#;
    let saved_xml = save_settings_edits(Some(initial_xml.to_string()), &sample_edits());
    assert!(saved_xml.contains("<CompactLayout>true</CompactLayout>"));
    assert!(saved_xml.contains("<Duration>10000</Duration>"));
    assert!(saved_xml.contains("<NIconHide>true</NIconHide>"));
    assert!(saved_xml.contains("<NextUpEnabled>false</NextUpEnabled>"));
    assert!(saved_xml.contains("<TaskbarWidgetManualPadding>24</TaskbarWidgetManualPadding>"));
    assert!(saved_xml.contains("<LastKnownVersion>debug</LastKnownVersion>"));

    assert_eq!(tag_value(&saved_xml, "CompactLayout").as_deref(), Some("true"));
    assert_eq!(tag_value(&saved_xml, "Duration").as_deref(), Some("10000"));
    assert_eq!(tag_value(&saved_xml, "NIconHide").as_deref(), Some("true"));
    assert_eq!(tag_value(&saved_xml, "NextUpEnabled").as_deref(), Some("false"));
    assert_eq!(tag_value(&saved_xml, "TaskbarWidgetManualPadding").as_deref(), Some("24"));
}

#[test]
fn save_settings_edits_starts_from_an_empty_document_when_there_is_no_file() {
    let saved_xml = save_settings_edits(None, &sample_edits());
    assert!(saved_xml.starts_with("<?xml version=\"1.0\" encoding=\"utf-8\"?>\n<UserSettings "));
    assert!(saved_xml.ends_with("</UserSettings>\n"));
    assert!(saved_xml.contains("  <MediaFlyoutEnabled>false</MediaFlyoutEnabled>\n"));
    assert!(saved_xml.contains("<LockKeysDuration>10000</LockKeysDuration>"));
    assert!(saved_xml.contains("<NextUpDuration>8000</NextUpDuration>"));
    assert_eq!(saved_xml.matches("<Position>").count(), 1);
}

#[test]
fn tag_value_reads_the_trimmed_first_entry() {
    let xml = "<A> <B>  7 </B></A><B>9</B>";
    assert_eq!(tag_value(xml, "B").as_deref(), Some("7"));
    assert_eq!(tag_value(xml, "C"), None);
    assert_eq!(tag_value("<B>open only", "B"), None);
}

#[test]
fn replace_or_insert_tag_replaces_content_and_keeps_the_rest() {
    let mut xml = String::from("<UserSettings><X>1</X><Duration>3000</Duration></UserSettings>");
    replace_or_insert_tag(&mut xml, "Duration", "42");
    assert_eq!(xml, "<UserSettings><X>1</X><Duration>42</Duration></UserSettings>");
}

#[test]
fn replace_or_insert_tag_leaves_a_document_without_root_unchanged() {
    let mut xml = String::from("<Other></Other>");
    replace_or_insert_tag(&mut xml, "Duration", "42");
    assert_eq!(xml, "<Other></Other>");
}

#[test]
fn bool_text_renders_both_values() {
    assert_eq!(bool_text(true), "true");
    assert_eq!(bool_text(false), "false");
}
