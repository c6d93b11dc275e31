//! Commands to the separate display host process, which shows the flyouts on the
//! settings app's behalf: each command is a named event the host waits on, signalled
//! after making sure the host runs.
use vstd::prelude::*;
use crate::error::AppError;

verus! {

/// A command for the display host: make sure it runs, then signal `event_name`.
#[derive(Clone, Copy, Debug)]
pub struct HostSignal {
    pub event_name: &'static str,
}

/// Show the media flyout.
pub fn show_media_flyout() -> (s: HostSignal)
    ensures
        s.event_name@ == "Local\\FluentFlyout_DisplayHost_ShowMediaFlyout"@,
{
    HostSignal { event_name: "Local\\FluentFlyout_DisplayHost_ShowMediaFlyout" }
}

/// Show the next-up flyout.
pub fn show_next_up_flyout() -> (s: HostSignal)
    ensures
        s.event_name@ == "Local\\FluentFlyout_DisplayHost_ShowNextUpFlyout"@,
{
    HostSignal { event_name: "Local\\FluentFlyout_DisplayHost_ShowNextUpFlyout" }
}

/// Show the lock-keys flyout.
pub fn show_lock_keys_flyout() -> (s: HostSignal)
    ensures
        s.event_name@ == "Local\\FluentFlyout_DisplayHost_ShowLockKeysFlyout"@,
{
    HostSignal { event_name: "Local\\FluentFlyout_DisplayHost_ShowLockKeysFlyout" }
}

/// Reload the settings.
pub fn reload_settings() -> (s: HostSignal)
    ensures
        s.event_name@ == "Local\\FluentFlyout_DisplayHost_ReloadSettings"@,
{
    HostSignal { event_name: "Local\\FluentFlyout_DisplayHost_ReloadSettings" }
}

/// Starting the host launches a process unless the process started before is still
/// running.
pub fn needs_launch(held: bool, held_still_running: bool) -> (launch: bool)
    ensures
        launch == !(held && held_still_running),
{
    !(held && held_still_running)
}

/// On shutdown the host is stopped (killed and waited for) only when this app started
/// it and still holds it.
pub fn stop_if_owned(held: bool) -> (stop: bool)
    ensures
        stop == held,
{
    held
}

/// The host's executable, relative to its project directory, in the order they are
/// tried: the x64 and plain Debug builds, then the x64 and plain Release builds.
pub open spec fn exe_candidates() -> Seq<Seq<char>> {
    seq![
        "bin\\x64\\Debug\\net10.0-windows10.0.22000.0\\FluentFlyoutDisplayHost.exe"@,
        "bin\\Debug\\net10.0-windows10.0.22000.0\\FluentFlyoutDisplayHost.exe"@,
        "bin\\x64\\Release\\net10.0-windows10.0.22000.0\\FluentFlyoutDisplayHost.exe"@,
        "bin\\Release\\net10.0-windows10.0.22000.0\\FluentFlyoutDisplayHost.exe"@,
    ]
}

/// The candidate executables (see `exe_candidates`).
pub fn display_host_exe_candidates() -> (v: Vec<&'static str>)
    ensures
        v@.len() == exe_candidates().len(),
        forall|i: int| 0 <= i < v@.len() ==> #[trigger] v@[i]@ == exe_candidates()[i],
{
    let mut v: Vec<&'static str> = Vec::new();
    v.push("bin\\x64\\Debug\\net10.0-windows10.0.22000.0\\FluentFlyoutDisplayHost.exe");
    v.push("bin\\Debug\\net10.0-windows10.0.22000.0\\FluentFlyoutDisplayHost.exe");
    v.push("bin\\x64\\Release\\net10.0-windows10.0.22000.0\\FluentFlyoutDisplayHost.exe");
    v.push("bin\\Release\\net10.0-windows10.0.22000.0\\FluentFlyoutDisplayHost.exe");
    v
}

/// The first candidate that exists, `exists[i]` telling whether candidate `i` does.
pub fn find_display_host_exe(exists: &Vec<bool>) -> (r: Option<usize>)
    ensures
        match r {
            Some(i) => i < exists@.len() && exists@[i as int] && forall|k: int| 0 <= k < i ==> !exists@[k],
            None => forall|k: int| 0 <= k < exists@.len() ==> !exists@[k],
        },
{
    let mut i: usize = 0;
    while i < exists.len()
        invariant
            i <= exists@.len(),
            forall|k: int| 0 <= k < i ==> !exists@[k],
        decreases exists@.len() - i,
    {
        if exists[i] {
            return Some(i);
        }
        i = i + 1;
    }
    None
}

/// How many times opening the host's event is tried, 50 ms apart: the host may not
/// have created it yet when it was just started.
pub const SIGNAL_ATTEMPTS: u32 = 20;

/// What follows failed attempt `attempt` (counted from 0) to open the event: a wait of
/// 50 ms after every failure, and whether to try again, which holds until the last of
/// the `SIGNAL_ATTEMPTS` attempts has failed.
pub fn retry_after_failed_open(attempt: u32) -> (r: (u64, bool))
    ensures
        r.0 == 50,
        r.1 == (attempt + 1 < SIGNAL_ATTEMPTS),
{
    (50, attempt < SIGNAL_ATTEMPTS - 1)
}

/// The error when the event could not be opened: the last failure's text as detail, or
/// a note that the named event was not found.
pub fn event_open_error(last_error: Option<String>) -> (e: AppError)
    ensures
        e.code@ == "display_host.event_open_failed"@,
        e.message_ko@ == "WPF 표시 호스트에 명령을 보낼 수 없습니다."@,
        e.detail matches Some(d) && d@ == match last_error {
            Some(t) => t@,
            None => "named event를 찾을 수 없습니다."@,
        },
{
    let detail = match last_error {
        Some(t) => t,
        None => "named event를 찾을 수 없습니다.".to_owned(),
    };
    AppError::with_detail("display_host.event_open_failed", "WPF 표시 호스트에 명령을 보낼 수 없습니다.", detail.as_str())
}

} // verus!
