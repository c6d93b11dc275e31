use fluent_flyout::commands::{
    app_action, apply_tray_icon, apps_use_light_theme, icon_path, prefers_light_tray_icon,
    startup_outcome, startup_reg_args, AppAction,
};
use fluent_flyout::display_host::{
    display_host_exe_candidates, event_open_error, find_display_host_exe, needs_launch,
    reload_settings, retry_after_failed_open, show_lock_keys_flyout, show_media_flyout,
    show_next_up_flyout, stop_if_owned,
};
use fluent_flyout::legacy::SettingsDto;

#[test]
fn display_host_commands_name_their_events() {
    assert_eq!(show_media_flyout().event_name, "Local\\FluentFlyout_DisplayHost_ShowMediaFlyout");
    assert_eq!(show_next_up_flyout().event_name, "Local\\FluentFlyout_DisplayHost_ShowNextUpFlyout");
    assert_eq!(
        show_lock_keys_flyout().event_name,
        "Local\\FluentFlyout_DisplayHost_ShowLockKeysFlyout"
    );
    assert_eq!(reload_settings().event_name, "Local\\FluentFlyout_DisplayHost_ReloadSettings");
}

#[test]
fn display_host_is_launched_only_when_not_running() {
    assert!(!needs_launch(true, true));
    assert!(needs_launch(true, false));
    assert!(needs_launch(false, false));
    assert!(stop_if_owned(true));
    assert!(!stop_if_owned(false));
}

#[test]
fn display_host_exe_is_the_first_existing_candidate() {
    let c = display_host_exe_candidates();
    assert_eq!(c.len(), 4);
    assert_eq!(c[0], "bin\\x64\\Debug\\net10.0-windows10.0.22000.0\\FluentFlyoutDisplayHost.exe");
    assert_eq!(c[3], "bin\\Release\\net10.0-windows10.0.22000.0\\FluentFlyoutDisplayHost.exe");
    assert_eq!(find_display_host_exe(&vec![false, true, true, false]), Some(1));
    assert_eq!(find_display_host_exe(&vec![false, false, false, false]), None);
}

#[test]
fn event_open_is_retried_twenty_times() {
    assert_eq!(retry_after_failed_open(0), (50, true));
    assert_eq!(retry_after_failed_open(18), (50, true));
    assert_eq!(retry_after_failed_open(19), (50, false));
    assert_eq!(retry_after_failed_open(25), (50, false));
    let e = event_open_error(None);
    assert_eq!(e.code, "display_host.event_open_failed");
    assert_eq!(e.detail.as_deref(), Some("named event를 찾을 수 없습니다."));
    let e = event_open_error(Some(String::from("access denied")));
    assert_eq!(e.detail.as_deref(), Some("access denied"));
}

#[test]
fn app_actions_map_to_links_and_host_commands() {
    assert!(matches!(
        app_action("open_repository"),
        Ok(AppAction::OpenUrl("https://github.com/minseokk7/FluentFlyout"))
    ));
    assert!(matches!(app_action("open_audio_settings"), Ok(AppAction::OpenUrl("ms-settings:apps-volume"))));
    assert!(matches!(app_action("open_logs"), Ok(AppAction::OpenLogs)));
    assert!(matches!(app_action("backup_settings"), Ok(AppAction::BackupSettings)));
    match app_action("show_next_up_flyout") {
        Ok(AppAction::Host(s)) => {
            assert_eq!(s.event_name, "Local\\FluentFlyout_DisplayHost_ShowNextUpFlyout")
        }
        _ => panic!("expected a host command"),
    }
    assert!(matches!(app_action("reposition_taskbar_widget"), Ok(AppAction::RepositionTaskbarWidget)));
}

#[test]
fn unknown_app_action_is_refused() {
    let e = app_action("format_disk").unwrap_err();
    assert_eq!(e.code, "action.unknown");
    assert_eq!(e.message_ko, "지원하지 않는 동작입니다.");
    assert_eq!(e.detail, None);
}

#[test]
fn light_theme_is_read_from_reg_output() {
    let light = "\r\nHKEY_CURRENT_USER\\...\\Personalize\r\n    AppsUseLightTheme    REG_DWORD    0x1\r\n";
    assert_eq!(apps_use_light_theme(light), Some(true));
    assert_eq!(apps_use_light_theme("AppsUseLightTheme    REG_DWORD    0x0"), Some(false));
    assert_eq!(apps_use_light_theme("nothing"), None);
}

#[test]
fn tray_icon_follows_theme_and_symbol_setting() {
    let mut s = SettingsDto::new_default();
    let f = icon_path(&s, Some(true));
    assert!(!f.in_tray_icons_dir);
    assert_eq!(f.file_name, "FluentFlyout2.ico");
    s.nicon_symbol = true;
    assert_eq!(icon_path(&s, Some(true)).file_name, "FluentFlyoutBlack.png");
    assert_eq!(icon_path(&s, None).file_name, "FluentFlyoutWhite.png");
    s.app_theme = 1;
    assert!(prefers_light_tray_icon(&s, Some(false)));
    assert_eq!(icon_path(&s, None).file_name, "FluentFlyoutBlack.png");
    s.app_theme = 2;
    assert!(!prefers_light_tray_icon(&s, Some(true)));
    s.nicon_hide = true;
    assert!(apply_tray_icon(&s, None).is_none());
}

#[test]
fn startup_entry_arguments() {
    let add = startup_reg_args(true, "C:\\App\\FluentFlyout.exe");
    assert_eq!(
        add,
        vec![
            "add",
            "HKCU\\Software\\Microsoft\\Windows\\CurrentVersion\\Run",
            "/v",
            "FluentFlyout",
            "/t",
            "REG_SZ",
            "/d",
            "\"C:\\App\\FluentFlyout.exe\" --minimized",
            "/f",
        ]
    );
    let delete = startup_reg_args(false, "ignored");
    assert_eq!(
        delete,
        vec!["delete", "HKCU\\Software\\Microsoft\\Windows\\CurrentVersion\\Run", "/v", "FluentFlyout", "/f"]
    );
}

#[test]
fn startup_outcome_accepts_missing_entry_on_delete() {
    assert!(startup_outcome(true, true, Some(0)).is_ok());
    assert!(startup_outcome(false, false, Some(1)).is_ok());
    let e = startup_outcome(true, false, Some(3)).unwrap_err();
    assert_eq!(e.code, "startup.reg.add");
    assert_eq!(e.detail.as_deref(), Some("종료 코드: Some(3)"));
    let e = startup_outcome(false, false, None).unwrap_err();
    assert_eq!(e.code, "startup.reg.delete");
    assert_eq!(e.message_ko, "Windows 시작 프로그램 해제에 실패했습니다.");
    assert_eq!(e.detail.as_deref(), Some("종료 코드: None"));
    let e = startup_outcome(true, false, Some(-2)).unwrap_err();
    assert_eq!(e.detail.as_deref(), Some("종료 코드: Some(-2)"));
}
