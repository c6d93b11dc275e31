//! The flyout host's run-time decisions: the configuration it runs with, when a media
//! refresh presents the flyout, key-press debouncing, and the visibility epochs that
//! keep a stale hide timer from hiding a flyout shown again since.
use vstd::prelude::*;
use crate::input;
use crate::settings::AppPreviewState;
use crate::text;

verus! {

/// The settings the running host consults, fixed at start-up.
#[derive(Clone, Copy, Debug, PartialEq, Eq, Structural)]
pub struct RuntimeConfig {
    pub exclusive_tidal_mode: bool,
    pub flyout_position: i32,
    pub flyout_selected_monitor: i32,
    pub flyout_duration_ms: u64,
    pub media_flyout_enabled: bool,
    pub keep_visible_when_idle: bool,
    pub disable_if_fullscreen: bool,
    pub nicon_left_click: i32,
    pub nicon_hide: bool,
    pub lock_keys_enabled: bool,
    pub lock_keys_duration_ms: u64,
    pub lock_keys_bold_ui: bool,
    pub lock_keys_monitor_preference: i32,
    pub taskbar_widget_enabled: bool,
    pub taskbar_widget_selected_monitor: i32,
    pub taskbar_widget_position: i32,
    pub taskbar_widget_padding: bool,
    pub taskbar_widget_manual_padding: i32,
    pub taskbar_widget_clickable: bool,
    pub taskbar_widget_hide_completely: bool,
    pub taskbar_widget_controls_enabled: bool,
    pub taskbar_widget_controls_position: i32,
    pub taskbar_widget_background_blur: bool,
}

/// How long the closing animation runs: 0, 150, 300, 450 or 600 ms for speeds 0 to 4,
/// 900 ms for any other speed, and 30 ms more for any easing style but the first.
pub open spec fn animation_tail(speed: i32, easing_style: i32) -> u64 {
    let base: u64 = if speed == 0 {
        0
    } else if speed == 1 {
        150
    } else if speed == 2 {
        300
    } else if speed == 3 {
        450
    } else if speed == 4 {
        600
    } else {
        900
    };
    if easing_style == 0 {
        base
    } else {
        (base + 30) as u64
    }
}

/// The closing animation's length (see `animation_tail`).
pub fn animation_tail_ms(speed: i32, easing_style: i32) -> (ms: u64)
    ensures
        ms == animation_tail(speed, easing_style),
{
    let base: u64 = match speed {
        0 => 0,
        1 => 150,
        2 => 300,
        3 => 450,
        4 => 600,
        _ => 900,
    };
    if easing_style == 0 {
        base
    } else {
        base.saturating_add(30)
    }
}

/// `a + b`, or `u64::MAX` where that does not fit.
pub open spec fn sat_add(a: u64, b: u64) -> u64 {
    if a + b > u64::MAX {
        u64::MAX
    } else {
        (a + b) as u64
    }
}

/// The run-time configuration of a preview state: its settings, with the closing
/// animation added to both display durations.
pub open spec fn config_of(p: AppPreviewState) -> RuntimeConfig {
    let tail = animation_tail(p.flyout_animation_speed, p.flyout_animation_easing_style);
    RuntimeConfig {
        exclusive_tidal_mode: p.exclusive_tidal_mode,
        flyout_position: p.flyout_position,
        flyout_selected_monitor: p.flyout_selected_monitor,
        flyout_duration_ms: sat_add(p.flyout_duration_ms, tail),
        media_flyout_enabled: p.media_flyout_enabled,
        keep_visible_when_idle: p.normal_always_display,
        disable_if_fullscreen: p.disable_if_fullscreen,
        nicon_left_click: p.nicon_left_click,
        nicon_hide: p.nicon_hide,
        lock_keys_enabled: p.lock_keys_enabled,
        lock_keys_duration_ms: sat_add(p.lock_keys_duration_ms, tail),
        lock_keys_bold_ui: p.lock_keys_bold_ui,
        lock_keys_monitor_preference: p.lock_keys_monitor_preference,
        taskbar_widget_enabled: p.taskbar_widget_enabled,
        taskbar_widget_selected_monitor: p.taskbar_widget_selected_monitor,
        taskbar_widget_position: p.taskbar_widget_position,
        taskbar_widget_padding: p.taskbar_widget_padding,
        taskbar_widget_manual_padding: p.taskbar_widget_manual_padding,
        taskbar_widget_clickable: p.taskbar_widget_clickable,
        taskbar_widget_hide_completely: p.taskbar_widget_hide_completely,
        taskbar_widget_controls_enabled: p.taskbar_widget_controls_enabled,
        taskbar_widget_controls_position: p.taskbar_widget_controls_position,
        taskbar_widget_background_blur: p.taskbar_widget_background_blur,
    }
}

/// The run-time configuration of a preview state (see `config_of`).
pub fn config_from_preview(preview: &AppPreviewState) -> (c: RuntimeConfig)
    ensures
        c == config_of(*preview),
{
    let tail = animation_tail_ms(preview.flyout_animation_speed, preview.flyout_animation_easing_style);
    RuntimeConfig {
        exclusive_tidal_mode: preview.exclusive_tidal_mode,
        flyout_position: preview.flyout_position,
        flyout_selected_monitor: preview.flyout_selected_monitor,
        flyout_duration_ms: preview.flyout_duration_ms.saturating_add(tail),
        media_flyout_enabled: preview.media_flyout_enabled,
        keep_visible_when_idle: preview.normal_always_display,
        disable_if_fullscreen: preview.disable_if_fullscreen,
        nicon_left_click: preview.nicon_left_click,
        nicon_hide: preview.nicon_hide,
        lock_keys_enabled: preview.lock_keys_enabled,
        lock_keys_duration_ms: preview.lock_keys_duration_ms.saturating_add(tail),
        lock_keys_bold_ui: preview.lock_keys_bold_ui,
        lock_keys_monitor_preference: preview.lock_keys_monitor_preference,
        taskbar_widget_enabled: preview.taskbar_widget_enabled,
        taskbar_widget_selected_monitor: preview.taskbar_widget_selected_monitor,
        taskbar_widget_position: preview.taskbar_widget_position,
        taskbar_widget_padding: preview.taskbar_widget_padding,
        taskbar_widget_manual_padding: preview.taskbar_widget_manual_padding,
        taskbar_widget_clickable: preview.taskbar_widget_clickable,
        taskbar_widget_hide_completely: preview.taskbar_widget_hide_completely,
        taskbar_widget_controls_enabled: preview.taskbar_widget_controls_enabled,
        taskbar_widget_controls_position: preview.taskbar_widget_controls_position,
        taskbar_widget_background_blur: preview.taskbar_widget_background_blur,
    }
}

/// What the host remembers between refreshes and key presses.
#[derive(Clone, Debug)]
pub struct RuntimeState {
    /// The session shown by the last refresh that checked it (`None`: no session).
    pub last_session_key: Option<String>,
    /// Raised each time the media flyout is shown or hidden; a hide timer only acts
    /// while the epoch it was scheduled with is still current.
    pub media_visibility_epoch: u64,
    /// The same for the lock-keys flyout.
    pub lock_visibility_epoch: u64,
    /// When the last media key press that was acted on came, in ms since the epoch.
    pub last_media_input_ms: u64,
}

/// A session key as text.
pub open spec fn key_view(k: Option<String>) -> Option<Seq<char>> {
    match k {
        Some(s) => Some(s@),
        None => None,
    }
}

/// A refresh that found session `next` presents the flyout on its own account only when
/// the session is not the one last seen and there is a session at all.
pub open spec fn presents_for(last: Option<Seq<char>>, next: Option<Seq<char>>) -> bool {
    last != next && next is Some
}

/// A media key press at `now` is acted on only when at least 500 ms have passed since
/// the last one that was (a clock that went back counts as no time passed).
pub open spec fn debounce_passes(last_ms: u64, now_ms: u64) -> bool {
    now_ms >= last_ms + 500
}

/// The visibility epoch after one more show or hide (it wraps past `u64::MAX`).
pub open spec fn next_epoch(e: u64) -> u64 {
    if e == u64::MAX {
        0
    } else {
        (e + 1) as u64
    }
}

/// The epoch handed to the hide timer after a show: one more than before, held at
/// `u64::MAX`.
pub open spec fn handed_epoch(e: u64) -> u64 {
    sat_add(e, 1)
}

/// A hide timer scheduled with `epoch` still hides the flyout when it fires.
pub open spec fn hide_is_current(current_epoch: u64, epoch: u64) -> bool {
    current_epoch == epoch
}

fn same_key(a: &Option<String>, b: &Option<String>) -> (r: bool)
    ensures
        r == (key_view(*a) == key_view(*b)),
{
    match (a, b) {
        (Some(x), Some(y)) => text::str_eq(x.as_str(), y.as_str()),
        (None, None) => true,
        _ => false,
    }
}

impl RuntimeState {
    /// The state at start-up: no session seen, both epochs and the last key time 0.
    pub fn new() -> (s: Self)
        ensures
            s.last_session_key is None,
            s.media_visibility_epoch == 0,
            s.lock_visibility_epoch == 0,
            s.last_media_input_ms == 0,
    {
        RuntimeState {
            last_session_key: None,
            media_visibility_epoch: 0,
            lock_visibility_epoch: 0,
            last_media_input_ms: 0,
        }
    }

    /// Whether a refresh that found the session `next_key` (`None`: no session) presents
    /// the flyout on its own account; a session other than the last one seen becomes the
    /// one seen.
    pub fn should_present_for_snapshot(&mut self, next_key: Option<String>) -> (present: bool)
        ensures
            present == presents_for(key_view(old(self).last_session_key), key_view(next_key)),
            key_view(final(self).last_session_key) == key_view(next_key),
            final(self).media_visibility_epoch == old(self).media_visibility_epoch,
            final(self).lock_visibility_epoch == old(self).lock_visibility_epoch,
            final(self).last_media_input_ms == old(self).last_media_input_ms,
    {
        if same_key(&self.last_session_key, &next_key) {
            return false;
        }
        let present = next_key.is_some();
        self.last_session_key = next_key;
        present
    }

    /// Whether a media key press at `now_ms` is acted on (see `debounce_passes`); when
    /// it is, `now_ms` becomes the last press acted on.
    pub fn should_debounce_media_trigger(&mut self, now_ms: u64) -> (act: bool)
        ensures
            act == debounce_passes(old(self).last_media_input_ms, now_ms),
            final(self).last_media_input_ms == if act { now_ms } else { old(self).last_media_input_ms },
            key_view(final(self).last_session_key) == key_view(old(self).last_session_key),
            final(self).media_visibility_epoch == old(self).media_visibility_epoch,
            final(self).lock_visibility_epoch == old(self).lock_visibility_epoch,
    {
        if now_ms.saturating_sub(self.last_media_input_ms) < 500 {
            return false;
        }
        self.last_media_input_ms = now_ms;
        true
    }

    /// Marks a show or hide of the media flyout; returns the epoch for its hide timer.
    pub fn bump_media_visibility_epoch(&mut self) -> (epoch: u64)
        ensures
            final(self).media_visibility_epoch == next_epoch(old(self).media_visibility_epoch),
            epoch == handed_epoch(old(self).media_visibility_epoch),
            final(self).lock_visibility_epoch == old(self).lock_visibility_epoch,
            final(self).last_media_input_ms == old(self).last_media_input_ms,
            key_view(final(self).last_session_key) == key_view(old(self).last_session_key),
    {
        let e = self.media_visibility_epoch;
        self.media_visibility_epoch = if e == u64::MAX { 0 } else { e + 1 };
        e.saturating_add(1)
    }

    /// Marks a show of the lock-keys flyout; returns the epoch for its hide timer.
    pub fn bump_lock_visibility_epoch(&mut self) -> (epoch: u64)
        ensures
            final(self).lock_visibility_epoch == next_epoch(old(self).lock_visibility_epoch),
            epoch == handed_epoch(old(self).lock_visibility_epoch),
            final(self).media_visibility_epoch == old(self).media_visibility_epoch,
            final(self).last_media_input_ms == old(self).last_media_input_ms,
            key_view(final(self).last_session_key) == key_view(old(self).last_session_key),
    {
        let e = self.lock_visibility_epoch;
        self.lock_visibility_epoch = if e == u64::MAX { 0 } else { e + 1 };
        e.saturating_add(1)
    }
}

/// How long a hide timer waits: the display duration, but never under 250 ms.
pub fn hide_delay_ms(delay_ms: u64) -> (d: u64)
    ensures
        d == if delay_ms < 250 { 250 } else { delay_ms },
{
    if delay_ms < 250 { 250 } else { delay_ms }
}

/// Whether a hide timer scheduled with `epoch` still hides the flyout, the current
/// epoch being `current_epoch`.
pub fn hide_still_current(current_epoch: u64, epoch: u64) -> (r: bool)
    ensures
        r == hide_is_current(current_epoch, epoch),
{
    current_epoch == epoch
}

/// Two refreshes that find the same session: the second never presents the flyout on
/// its own account.
pub proof fn lemma_same_session_presents_once(last: Option<Seq<char>>, next: Option<Seq<char>>)
    ensures
        !presents_for(next, next),
        presents_for(last, next) ==> next is Some,
{
}

/// Once a media key press is acted on at `t1`, a press less than 500 ms later is not,
/// and one 500 ms or more later is.
pub proof fn lemma_debounce_window(last_ms: u64, t1: u64, t2: u64)
    requires
        debounce_passes(last_ms, t1),
    ensures
        t1 <= t2 < t1 + 500 ==> !debounce_passes(t1, t2),
        t2 >= t1 + 500 ==> debounce_passes(t1, t2),
{
}

/// A show hands its hide timer the epoch it leaves current, so the timer hides the
/// flyout; any later show or hide makes that timer stale. (The epoch is far from its
/// limit; at the limit the counter wraps.)
pub proof fn lemma_later_bump_cancels_hide(e: u64)
    requires
        e < u64::MAX - 1,
    ensures
        hide_is_current(next_epoch(e), handed_epoch(e)),
        !hide_is_current(next_epoch(next_epoch(e)), handed_epoch(e)),
{
}

/// A hide timer: after `delay_ms` it hides the flyout, unless the flyout's epoch has
/// moved on from `epoch` since.
#[derive(Clone, Copy, Debug, PartialEq, Eq, Structural)]
pub struct HideTimer {
    pub epoch: u64,
    pub delay_ms: u64,
}

/// What a refresh does with the media flyout.
#[derive(Clone, Copy, Debug, PartialEq, Eq, Structural)]
pub enum FlyoutAction {
    /// Show and place it, and hide it again with the timer, if there is one.
    Present { hide_after: Option<HideTimer> },
    /// Show and place it, with no hide timer (it stays up while idle).
    ShowIdle,
    /// Hide it.
    Hide,
    /// Leave it as it is.
    Keep,
}

/// What a media refresh does with the taskbar widget and the media flyout.
#[derive(Clone, Copy, Debug, PartialEq, Eq, Structural)]
pub struct RefreshPlan {
    pub widget_visible: bool,
    pub flyout: FlyoutAction,
}

/// Full-screen suppression is on and a full-screen application is running.
pub open spec fn fullscreen_blocked(c: RuntimeConfig, fullscreen_running: bool) -> bool {
    c.disable_if_fullscreen && fullscreen_running
}

/// The refresh consults the last session seen: the flyout is on, nothing blocks it, a
/// session was found, and neither idle display nor a forced show decide already.
pub open spec fn refresh_checks_session(c: RuntimeConfig, has_session: bool, fullscreen_running: bool, force_present: bool) -> bool {
    !fullscreen_blocked(c, fullscreen_running) && c.media_flyout_enabled && has_session
        && !c.keep_visible_when_idle && !force_present
}

/// The refresh presents the flyout.
pub open spec fn refresh_presents(
    c: RuntimeConfig,
    last: Option<Seq<char>>,
    next: Option<Seq<char>>,
    fullscreen_running: bool,
    force_present: bool,
) -> bool {
    !fullscreen_blocked(c, fullscreen_running) && c.media_flyout_enabled && next is Some && (
    c.keep_visible_when_idle || force_present || presents_for(last, next))
}

/// The taskbar widget is shown after a refresh: it is on, nothing blocks it, and there
/// is a session or it stays visible without one.
pub open spec fn widget_visible_for(c: RuntimeConfig, has_session: bool, fullscreen_running: bool) -> bool {
    c.taskbar_widget_enabled && !fullscreen_blocked(c, fullscreen_running) && (has_session
        || !c.taskbar_widget_hide_completely)
}

/// What a refresh does with the flyout, the media epoch being `e` before it: present
/// (bumping the epoch, and scheduling a hide with the handed epoch unless it stays up
/// while idle), show it idle (bumping), hide it (bumping) when there is no session, the
/// flyout is off or blocked, or else leave it.
pub open spec fn flyout_action_for(
    c: RuntimeConfig,
    presents: bool,
    has_session: bool,
    fullscreen_running: bool,
    e: u64,
) -> FlyoutAction {
    let blocked = fullscreen_blocked(c, fullscreen_running);
    if presents {
        FlyoutAction::Present {
            hide_after: if c.keep_visible_when_idle {
                None
            } else {
                Some(HideTimer {
                    epoch: handed_epoch(e),
                    delay_ms: if c.flyout_duration_ms < 250 { 250 } else { c.flyout_duration_ms },
                })
            },
        }
    } else if c.media_flyout_enabled && c.keep_visible_when_idle && has_session && !blocked {
        FlyoutAction::ShowIdle
    } else if !has_session || !c.media_flyout_enabled || blocked {
        FlyoutAction::Hide
    } else {
        FlyoutAction::Keep
    }
}

/// Decides a media refresh: `session_key` is the session found (`None`: none),
/// `fullscreen_running` whether a full-screen application runs, `force_present` whether
/// the refresh came from a key press or a tray request. The session seen is updated
/// only when the refresh consults it; the media epoch moves unless the flyout is kept.
pub fn refresh_live_media(
    state: &mut RuntimeState,
    config: &RuntimeConfig,
    session_key: Option<String>,
    fullscreen_running: bool,
    force_present: bool,
) -> (plan: RefreshPlan)
    ensures
        ({
            let found = session_key is Some;
            let checks = refresh_checks_session(*config, found, fullscreen_running, force_present);
            let presents = refresh_presents(
                *config,
                key_view(old(state).last_session_key),
                key_view(session_key),
                fullscreen_running,
                force_present,
            );
            let e = old(state).media_visibility_epoch;
            &&& plan.widget_visible == widget_visible_for(*config, found, fullscreen_running)
            &&& plan.flyout == flyout_action_for(*config, presents, found, fullscreen_running, e)
            &&& key_view(final(state).last_session_key) == if checks {
                key_view(session_key)
            } else {
                key_view(old(state).last_session_key)
            }
            &&& final(state).media_visibility_epoch == if plan.flyout is Keep {
                e
            } else {
                next_epoch(e)
            }
            &&& final(state).lock_visibility_epoch == old(state).lock_visibility_epoch
            &&& final(state).last_media_input_ms == old(state).last_media_input_ms
        }),
{
    let found = session_key.is_some();
    let blocked = config.disable_if_fullscreen && fullscreen_running;
    let widget_visible = config.taskbar_widget_enabled && !blocked && (found
        || !config.taskbar_widget_hide_completely);
    let presents = if !blocked && config.media_flyout_enabled && found {
        if config.keep_visible_when_idle || force_present {
            true
        } else {
            state.should_present_for_snapshot(session_key)
        }
    } else {
        false
    };
    let flyout = if presents {
        let epoch = state.bump_media_visibility_epoch();
        if config.keep_visible_when_idle {
            FlyoutAction::Present { hide_after: None }
        } else {
            FlyoutAction::Present {
                hide_after: Some(HideTimer { epoch, delay_ms: hide_delay_ms(config.flyout_duration_ms) }),
            }
        }
    } else if config.media_flyout_enabled && config.keep_visible_when_idle && found && !blocked {
        state.bump_media_visibility_epoch();
        FlyoutAction::ShowIdle
    } else if !found || !config.media_flyout_enabled || blocked {
        state.bump_media_visibility_epoch();
        FlyoutAction::Hide
    } else {
        FlyoutAction::Keep
    };
    RefreshPlan { widget_visible, flyout }
}

/// What a key press leads to: a forced media refresh, and the lock-keys flyout to show.
#[derive(Clone, Debug)]
pub struct KeyPlan {
    pub refresh_media: bool,
    pub lock_flyout: Option<(String, bool)>,
}

/// Decides a key press that raised `flags` at `now_ms`: unless a full-screen
/// application blocks it, a media flag forces a media refresh when the press passes the
/// debounce (which is only consulted then), and with the lock keys on the lock-keys
/// flyout follows the flags; `is_on` is the pressed key's toggle state.
pub fn plan_key_press(
    state: &mut RuntimeState,
    config: &RuntimeConfig,
    flags: u32,
    fullscreen_running: bool,
    now_ms: u64,
    is_on: bool,
) -> (plan: KeyPlan)
    ensures
        ({
            let blocked = fullscreen_blocked(*config, fullscreen_running);
            let consults = !blocked && flags & input::INPUT_ACTION_SHOW_MEDIA_FLYOUT != 0;
            let last = old(state).last_media_input_ms;
            &&& plan.refresh_media == (consults && debounce_passes(last, now_ms))
            &&& final(state).last_media_input_ms == if plan.refresh_media { now_ms } else { last }
            &&& (match plan.lock_flyout {
                Some((t, on)) => !blocked && config.lock_keys_enabled && input::lock_flyout(flags, is_on)
                    == Some((t@, on)),
                None => blocked || !config.lock_keys_enabled || input::lock_flyout(flags, is_on) is None,
            })
            &&& key_view(final(state).last_session_key) == key_view(old(state).last_session_key)
            &&& final(state).media_visibility_epoch == old(state).media_visibility_epoch
            &&& final(state).lock_visibility_epoch == old(state).lock_visibility_epoch
        }),
{
    let blocked = config.disable_if_fullscreen && fullscreen_running;
    let refresh_media = if !blocked && flags & input::INPUT_ACTION_SHOW_MEDIA_FLYOUT != 0 {
        state.should_debounce_media_trigger(now_ms)
    } else {
        false
    };
    let lock_flyout = if !blocked && config.lock_keys_enabled {
        input::resolve_lock_action(flags, is_on)
    } else {
        None
    };
    KeyPlan { refresh_media, lock_flyout }
}

/// Shows the lock-keys flyout: bumps the lock epoch and returns the epoch and delay for
/// its hide timer (the lock-keys duration, at least 250 ms).
pub fn show_lock_flyout(state: &mut RuntimeState, config: &RuntimeConfig) -> (hide: HideTimer)
    ensures
        final(state).lock_visibility_epoch == next_epoch(old(state).lock_visibility_epoch),
        hide.epoch == handed_epoch(old(state).lock_visibility_epoch),
        hide.delay_ms == if config.lock_keys_duration_ms < 250 { 250 } else { config.lock_keys_duration_ms },
        final(state).media_visibility_epoch == old(state).media_visibility_epoch,
        final(state).last_media_input_ms == old(state).last_media_input_ms,
        key_view(final(state).last_session_key) == key_view(old(state).last_session_key),
{
    let epoch = state.bump_lock_visibility_epoch();
    HideTimer { epoch, delay_ms: hide_delay_ms(config.lock_keys_duration_ms) }
}

/// At start-up the media flyout is shown at once when it is on, stays up while idle and
/// full-screen suppression is off.
pub fn shows_live_flyout_at_start(config: &RuntimeConfig) -> (r: bool)
    ensures
        r == (config.media_flyout_enabled && config.keep_visible_when_idle && !config.disable_if_fullscreen),
{
    config.media_flyout_enabled && config.keep_visible_when_idle && !config.disable_if_fullscreen
}

/// At start-up the taskbar widget is shown when it is on and not hidden completely.
pub fn shows_taskbar_widget_at_start(config: &RuntimeConfig) -> (r: bool)
    ensures
        r == (config.taskbar_widget_enabled && !config.taskbar_widget_hide_completely),
{
    config.taskbar_widget_enabled && !config.taskbar_widget_hide_completely
}

/// What a tray request asks for.
#[derive(Clone, Copy, Debug, PartialEq, Eq, Structural)]
pub enum TrayAction {
    OpenSettings,
    OpenDashboard,
    ShowMediaFlyout,
    Quit,
    Ignore,
}

/// The tray menu's entries by id: `settings`, `dashboard`, `media` and `quit`; any
/// other id is ignored.
pub open spec fn tray_menu_action_for(id: Seq<char>) -> TrayAction {
    if id == "settings"@ {
        TrayAction::OpenSettings
    } else if id == "dashboard"@ {
        TrayAction::OpenDashboard
    } else if id == "media"@ {
        TrayAction::ShowMediaFlyout
    } else if id == "quit"@ {
        TrayAction::Quit
    } else {
        TrayAction::Ignore
    }
}

/// The action of the tray menu entry `id` (see `tray_menu_action_for`).
pub fn tray_menu_action(id: &str) -> (a: TrayAction)
    ensures
        a == tray_menu_action_for(id@),
{
    if text::str_eq(id, "settings") {
        TrayAction::OpenSettings
    } else if text::str_eq(id, "dashboard") {
        TrayAction::OpenDashboard
    } else if text::str_eq(id, "media") {
        TrayAction::ShowMediaFlyout
    } else if text::str_eq(id, "quit") {
        TrayAction::Quit
    } else {
        TrayAction::Ignore
    }
}

/// A left click on the tray icon shows the media flyout when the left-click setting is
/// 1, and opens the settings otherwise.
pub fn tray_left_click_action(config: &RuntimeConfig) -> (a: TrayAction)
    ensures
        a == if config.nicon_left_click == 1 { TrayAction::ShowMediaFlyout } else { TrayAction::OpenSettings },
{
    if config.nicon_left_click == 1 {
        TrayAction::ShowMediaFlyout
    } else {
        TrayAction::OpenSettings
    }
}

/// The settings window's status line after a save: `Saved <path>`, or `Save failed:
/// <error>`.
pub fn save_status_message(outcome: Result<String, String>) -> (m: String)
    ensures
        m@ == match outcome {
            Ok(path) => "Saved "@ + path@,
            Err(error) => "Save failed: "@ + error@,
        },
{
    let mut v: Vec<char> = Vec::new();
    match outcome {
        Ok(path) => {
            text::push_str_chars(&mut v, "Saved ");
            text::push_str_chars(&mut v, path.as_str());
        },
        Err(error) => {
            text::push_str_chars(&mut v, "Save failed: ");
            text::push_str_chars(&mut v, error.as_str());
        },
    }
    text::string_from_chars(&v)
}

/// The settings window's status line: the last save's message, `Ready` before any.
pub fn status_or_ready(status: Option<String>) -> (m: String)
    ensures
        m@ == match status {
            Some(s) => s@,
            None => "Ready"@,
        },
{
    match status {
        Some(s) => s,
        None => "Ready".to_owned(),
    }
}

} // verus!
