use fluent_flyout::runtime::{
    animation_tail_ms, config_from_preview, hide_delay_ms, hide_still_current, plan_key_press,
    refresh_live_media, save_status_message, show_lock_flyout, shows_live_flyout_at_start,
    shows_taskbar_widget_at_start, status_or_ready, tray_left_click_action, tray_menu_action,
    FlyoutAction, HideTimer, RefreshPlan, RuntimeConfig, RuntimeState, TrayAction,
};
use fluent_flyout::settings::{AppPreviewState, FluentFlyoutSettings};

fn default_config() -> RuntimeConfig {
    let preview = AppPreviewState::from_settings(
        &FluentFlyoutSettings::default(),
        String::from("settings.xml"),
        None,
    );
    config_from_preview(&preview)
}

#[test]
fn animation_tail_follows_speed_and_easing() {
    assert_eq!(animation_tail_ms(0, 0), 0);
    assert_eq!(animation_tail_ms(1, 0), 150);
    assert_eq!(animation_tail_ms(2, 0), 300);
    assert_eq!(animation_tail_ms(3, 0), 450);
    assert_eq!(animation_tail_ms(4, 1), 630);
    assert_eq!(animation_tail_ms(7, 0), 900);
    assert_eq!(animation_tail_ms(-1, 2), 930);
}

#[test]
fn config_from_default_preview_adds_the_animation_tail() {
    let c = default_config();
    assert_eq!(c.flyout_duration_ms, 3330);
    assert_eq!(c.lock_keys_duration_ms, 2330);
    assert!(c.media_flyout_enabled);
    assert!(!c.keep_visible_when_idle);
    assert!(c.disable_if_fullscreen);
    assert!(c.exclusive_tidal_mode);
    assert_eq!(c.nicon_left_click, 0);
    assert!(c.taskbar_widget_enabled);
    assert_eq!(c.taskbar_widget_controls_position, 1);
}

#[test]
fn same_session_presents_only_once() {
    let mut s = RuntimeState::new();
    assert!(s.should_present_for_snapshot(Some(String::from("spotify|A|B|playing"))));
    assert!(!s.should_present_for_snapshot(Some(String::from("spotify|A|B|playing"))));
    assert!(s.should_present_for_snapshot(Some(String::from("spotify|A|B|idle"))));
    assert!(!s.should_present_for_snapshot(None));
    assert_eq!(s.last_session_key, None);
    assert!(!s.should_present_for_snapshot(None));
    assert!(s.should_present_for_snapshot(Some(String::from("spotify|A|B|idle"))));
}

#[test]
fn media_trigger_debounces_within_half_a_second() {
    let mut s = RuntimeState::new();
    assert!(s.should_debounce_media_trigger(1000));
    assert_eq!(s.last_media_input_ms, 1000);
    assert!(!s.should_debounce_media_trigger(1499));
    assert_eq!(s.last_media_input_ms, 1000);
    assert!(s.should_debounce_media_trigger(1500));
    assert!(!s.should_debounce_media_trigger(200));
    assert_eq!(s.last_media_input_ms, 1500);
}

#[test]
fn bumping_an_epoch_invalidates_earlier_hides() {
    let mut s = RuntimeState::new();
    let first = s.bump_media_visibility_epoch();
    assert_eq!(first, 1);
    assert!(hide_still_current(s.media_visibility_epoch, first));
    let second = s.bump_media_visibility_epoch();
    assert_eq!(second, 2);
    assert!(!hide_still_current(s.media_visibility_epoch, first));
    assert!(hide_still_current(s.media_visibility_epoch, second));
    assert_eq!(s.lock_visibility_epoch, 0);
    assert_eq!(s.bump_lock_visibility_epoch(), 1);
    assert_eq!(s.media_visibility_epoch, 2);
}

#[test]
fn epoch_wraps_while_the_handed_epoch_saturates() {
    let mut s = RuntimeState::new();
    s.media_visibility_epoch = u64::MAX;
    assert_eq!(s.bump_media_visibility_epoch(), u64::MAX);
    assert_eq!(s.media_visibility_epoch, 0);
}

#[test]
fn hide_delay_is_at_least_a_quarter_second() {
    assert_eq!(hide_delay_ms(0), 250);
    assert_eq!(hide_delay_ms(249), 250);
    assert_eq!(hide_delay_ms(250), 250);
    assert_eq!(hide_delay_ms(3330), 3330);
}

#[test]
fn refresh_presents_a_new_session_and_schedules_its_hide() {
    let c = default_config();
    let mut s = RuntimeState::new();
    let plan = refresh_live_media(&mut s, &c, Some(String::from("k1")), false, false);
    assert_eq!(
        plan,
        RefreshPlan {
            widget_visible: true,
            flyout: FlyoutAction::Present { hide_after: Some(HideTimer { epoch: 1, delay_ms: 3330 }) },
        }
    );
    assert_eq!(s.last_session_key.as_deref(), Some("k1"));
    let again = refresh_live_media(&mut s, &c, Some(String::from("k1")), false, false);
    assert_eq!(again.flyout, FlyoutAction::Keep);
    assert_eq!(s.media_visibility_epoch, 1);
    let forced = refresh_live_media(&mut s, &c, Some(String::from("k1")), false, true);
    assert_eq!(
        forced.flyout,
        FlyoutAction::Present { hide_after: Some(HideTimer { epoch: 2, delay_ms: 3330 }) }
    );
}

#[test]
fn refresh_without_session_hides_the_flyout() {
    let c = default_config();
    let mut s = RuntimeState::new();
    let plan = refresh_live_media(&mut s, &c, None, false, true);
    assert_eq!(plan.flyout, FlyoutAction::Hide);
    assert!(plan.widget_visible);
    assert_eq!(s.media_visibility_epoch, 1);
    let hidden = RuntimeConfig { taskbar_widget_hide_completely: true, ..c };
    let plan = refresh_live_media(&mut s, &hidden, None, false, false);
    assert!(!plan.widget_visible);
}

#[test]
fn refresh_is_blocked_by_a_fullscreen_application() {
    let c = default_config();
    let mut s = RuntimeState::new();
    let plan = refresh_live_media(&mut s, &c, Some(String::from("k")), true, true);
    assert_eq!(plan, RefreshPlan { widget_visible: false, flyout: FlyoutAction::Hide });
    assert_eq!(s.last_session_key, None);
    let allowed = RuntimeConfig { disable_if_fullscreen: false, ..c };
    let plan = refresh_live_media(&mut s, &allowed, Some(String::from("k")), true, false);
    assert!(plan.widget_visible);
    assert!(matches!(plan.flyout, FlyoutAction::Present { .. }));
}

#[test]
fn refresh_keeps_an_idle_flyout_up() {
    let c = RuntimeConfig { keep_visible_when_idle: true, ..default_config() };
    let mut s = RuntimeState::new();
    let plan = refresh_live_media(&mut s, &c, Some(String::from("k")), false, false);
    assert_eq!(plan.flyout, FlyoutAction::Present { hide_after: None });
    assert_eq!(s.last_session_key, None);
    let off = RuntimeConfig { media_flyout_enabled: false, ..c };
    let plan = refresh_live_media(&mut s, &off, Some(String::from("k")), false, false);
    assert_eq!(plan.flyout, FlyoutAction::Hide);
}

#[test]
fn key_press_refreshes_media_after_the_debounce() {
    let c = default_config();
    let mut s = RuntimeState::new();
    let plan = plan_key_press(&mut s, &c, 1, false, 5000, false);
    assert!(plan.refresh_media);
    assert_eq!(plan.lock_flyout, None);
    let plan = plan_key_press(&mut s, &c, 1, false, 5100, false);
    assert!(!plan.refresh_media);
    let plan = plan_key_press(&mut s, &c, 2, false, 5200, true);
    assert!(!plan.refresh_media);
    assert_eq!(plan.lock_flyout, Some((String::from("Caps Lock On"), true)));
    assert_eq!(s.last_media_input_ms, 5000);
}

#[test]
fn key_press_is_ignored_under_a_fullscreen_application() {
    let c = default_config();
    let mut s = RuntimeState::new();
    let plan = plan_key_press(&mut s, &c, 1 | 4, true, 5000, true);
    assert!(!plan.refresh_media);
    assert_eq!(plan.lock_flyout, None);
    assert_eq!(s.last_media_input_ms, 0);
    let no_locks = RuntimeConfig { lock_keys_enabled: false, ..c };
    let plan = plan_key_press(&mut s, &no_locks, 4, false, 5000, true);
    assert_eq!(plan.lock_flyout, None);
}

#[test]
fn lock_flyout_hide_uses_the_lock_epoch() {
    let c = RuntimeConfig { lock_keys_duration_ms: 100, ..default_config() };
    let mut s = RuntimeState::new();
    assert_eq!(show_lock_flyout(&mut s, &c), HideTimer { epoch: 1, delay_ms: 250 });
    assert_eq!(show_lock_flyout(&mut s, &c), HideTimer { epoch: 2, delay_ms: 250 });
    assert_eq!(s.media_visibility_epoch, 0);
}

#[test]
fn start_up_shows_only_what_is_configured() {
    let c = default_config();
    assert!(!shows_live_flyout_at_start(&c));
    let idle = RuntimeConfig { keep_visible_when_idle: true, disable_if_fullscreen: false, ..c };
    assert!(shows_live_flyout_at_start(&idle));
    assert!(shows_taskbar_widget_at_start(&c));
    let hidden = RuntimeConfig { taskbar_widget_hide_completely: true, ..c };
    assert!(!shows_taskbar_widget_at_start(&hidden));
}

#[test]
fn tray_menu_ids_map_to_actions() {
    assert_eq!(tray_menu_action("settings"), TrayAction::OpenSettings);
    assert_eq!(tray_menu_action("dashboard"), TrayAction::OpenDashboard);
    assert_eq!(tray_menu_action("media"), TrayAction::ShowMediaFlyout);
    assert_eq!(tray_menu_action("quit"), TrayAction::Quit);
    assert_eq!(tray_menu_action("other"), TrayAction::Ignore);
    let c = default_config();
    assert_eq!(tray_left_click_action(&c), TrayAction::OpenSettings);
    let media = RuntimeConfig { nicon_left_click: 1, ..c };
    assert_eq!(tray_left_click_action(&media), TrayAction::ShowMediaFlyout);
}

#[test]
fn save_status_messages() {
    assert_eq!(save_status_message(Ok(String::from("C:\\s.xml"))), "Saved C:\\s.xml");
    assert_eq!(save_status_message(Err(String::from("denied"))), "Save failed: denied");
    assert_eq!(status_or_ready(None), "Ready");
    assert_eq!(status_or_ready(Some(String::from("x"))), "x");
}
