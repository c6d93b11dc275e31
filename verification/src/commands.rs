//! What the settings window's requests amount to: its action buttons, the tray icon it
//! shows, and the Windows start-up entry it writes.
use vstd::prelude::*;
use crate::display_host::{self, HostSignal};
use crate::error::AppError;
use crate::legacy::SettingsDto;
use crate::text;

verus! {

/// What an action button asks for.
#[derive(Clone, Copy, Debug)]
pub enum AppAction {
    /// Open this address in the default handler.
    OpenUrl(&'static str),
    /// Open the log folder.
    OpenLogs,
    /// Back up the settings and open their folder.
    BackupSettings,
    /// Send this command to the display host.
    Host(HostSignal),
    /// Drop this app's own taskbar widget and have the display host reload settings.
    RepositionTaskbarWidget,
}

/// The action is a link button opening `url`.
pub open spec fn opens(r: Result<AppAction, AppError>, url: Seq<char>) -> bool {
    r matches Ok(AppAction::OpenUrl(u)) && u@ == url
}

/// The action sends the display host the event `name`.
pub open spec fn signals(r: Result<AppAction, AppError>, name: Seq<char>) -> bool {
    r matches Ok(AppAction::Host(s)) && s.event_name@ == name
}

/// The action names the buttons know.
pub open spec fn known_action(a: Seq<char>) -> bool {
    a == "open_repository"@ || a == "open_weblate"@ || a == "open_sponsor"@ || a == "open_coffee"@
        || a == "open_audio_settings"@ || a == "open_advanced_settings"@ || a == "open_logs"@
        || a == "backup_settings"@ || a == "show_media_flyout"@ || a == "show_next_up_flyout"@
        || a == "show_lock_keys_flyout"@ || a == "reposition_taskbar_widget"@
}

/// The action a button's name asks for; an unknown name is refused with
/// `action.unknown`.
pub fn app_action(action: &str) -> (r: Result<AppAction, AppError>)
    ensures
        action@ == "open_repository"@ ==> opens(r, "https://github.com/minseokk7/FluentFlyout"@),
        action@ == "open_weblate"@ ==> opens(r, "https://hosted.weblate.org/engage/fluentflyout/"@),
        action@ == "open_sponsor"@ ==> opens(r, "https://github.com/sponsors/minseokk7"@),
        action@ == "open_coffee"@ ==> opens(r, "https://www.buymeacoffee.com/minseok"@),
        action@ == "open_audio_settings"@ ==> opens(r, "ms-settings:apps-volume"@),
        action@ == "open_advanced_settings"@ ==> opens(r, "ms-settings:startupapps"@),
        action@ == "open_logs"@ ==> r matches Ok(AppAction::OpenLogs),
        action@ == "backup_settings"@ ==> r matches Ok(AppAction::BackupSettings),
        action@ == "show_media_flyout"@ ==> signals(r, "Local\\FluentFlyout_DisplayHost_ShowMediaFlyout"@),
        action@ == "show_next_up_flyout"@ ==> signals(r, "Local\\FluentFlyout_DisplayHost_ShowNextUpFlyout"@),
        action@ == "show_lock_keys_flyout"@ ==> signals(r, "Local\\FluentFlyout_DisplayHost_ShowLockKeysFlyout"@),
        action@ == "reposition_taskbar_widget"@ ==> r matches Ok(AppAction::RepositionTaskbarWidget),
        !known_action(action@) <==> r is Err,
        r matches Err(e) ==> (e.code@ == "action.unknown"@ && e.message_ko@ == "지원하지 않는 동작입니다."@
            && e.detail is None),
{
    proof {
        reveal_strlit("open_repository");
        reveal_strlit("open_weblate");
        reveal_strlit("open_sponsor");
        reveal_strlit("open_coffee");
        reveal_strlit("open_audio_settings");
        reveal_strlit("open_advanced_settings");
        reveal_strlit("open_logs");
        reveal_strlit("backup_settings");
        reveal_strlit("show_media_flyout");
        reveal_strlit("show_next_up_flyout");
        reveal_strlit("show_lock_keys_flyout");
        reveal_strlit("reposition_taskbar_widget");
        assert(action@ == "open_repository"@ ==> action@.len() == 15 && action@[5] == 'r');
        assert(action@ == "open_weblate"@ ==> action@.len() == 12 && action@[5] == 'w');
        assert(action@ == "open_sponsor"@ ==> action@.len() == 12 && action@[5] == 's');
        assert(action@ == "open_coffee"@ ==> action@.len() == 11 && action@[5] == 'c');
        assert(action@ == "open_audio_settings"@ ==> action@.len() == 19 && action@[5] == 'a');
        assert(action@ == "open_advanced_settings"@ ==> action@.len() == 22 && action@[5] == 'a');
        assert(action@ == "open_logs"@ ==> action@.len() == 9 && action@[5] == 'l');
        assert(action@ == "backup_settings"@ ==> action@.len() == 15 && action@[5] == 'p');
        assert(action@ == "show_media_flyout"@ ==> action@.len() == 17 && action@[5] == 'm');
        assert(action@ == "show_next_up_flyout"@ ==> action@.len() == 19 && action@[5] == 'n');
        assert(action@ == "show_lock_keys_flyout"@ ==> action@.len() == 21 && action@[5] == 'l');
        assert(action@ == "reposition_taskbar_widget"@ ==> action@.len() == 25 && action@[5] == 'i');
    }
    if text::str_eq(action, "open_repository") {
        Ok(AppAction::OpenUrl("https://github.com/minseokk7/FluentFlyout"))
    } else if text::str_eq(action, "open_weblate") {
        Ok(AppAction::OpenUrl("https://hosted.weblate.org/engage/fluentflyout/"))
    } else if text::str_eq(action, "open_sponsor") {
        Ok(AppAction::OpenUrl("https://github.com/sponsors/minseokk7"))
    } else if text::str_eq(action, "open_coffee") {
        Ok(AppAction::OpenUrl("https://www.buymeacoffee.com/minseok"))
    } else if text::str_eq(action, "open_audio_settings") {
        Ok(AppAction::OpenUrl("ms-settings:apps-volume"))
    } else if text::str_eq(action, "open_advanced_settings") {
        Ok(AppAction::OpenUrl("ms-settings:startupapps"))
    } else if text::str_eq(action, "open_logs") {
        Ok(AppAction::OpenLogs)
    } else if text::str_eq(action, "backup_settings") {
        Ok(AppAction::BackupSettings)
    } else if text::str_eq(action, "show_media_flyout") {
        Ok(AppAction::Host(display_host::show_media_flyout()))
    } else if text::str_eq(action, "show_next_up_flyout") {
        Ok(AppAction::Host(display_host::show_next_up_flyout()))
    } else if text::str_eq(action, "show_lock_keys_flyout") {
        Ok(AppAction::Host(display_host::show_lock_keys_flyout()))
    } else if text::str_eq(action, "reposition_taskbar_widget") {
        Ok(AppAction::RepositionTaskbarWidget)
    } else {
        Err(AppError::new("action.unknown", "지원하지 않는 동작입니다."))
    }
}

/// What the `reg query` of the apps' theme printed says: `0x1` light, else `0x0` dark,
/// else nothing known.
pub open spec fn light_theme_in(output: Seq<char>) -> Option<bool> {
    if text::has_match(output, "0x1"@) {
        Some(true)
    } else if text::has_match(output, "0x0"@) {
        Some(false)
    } else {
        None
    }
}

/// Whether Windows apps use the light theme, from the output of a successful `reg query`
/// of `AppsUseLightTheme` (see `light_theme_in`).
pub fn apps_use_light_theme(reg_output: &str) -> (r: Option<bool>)
    ensures
        r == light_theme_in(reg_output@),
{
    if text::str_contains(reg_output, "0x1") {
        Some(true)
    } else if text::str_contains(reg_output, "0x0") {
        Some(false)
    } else {
        None
    }
}

/// The tray icon is the dark-on-light one: the light app theme (1) says so, the dark
/// one (2) says not, and otherwise Windows' app theme decides, dark when unknown.
pub open spec fn light_tray_icon(app_theme: i32, system_light: Option<bool>) -> bool {
    if app_theme == 1 {
        true
    } else if app_theme == 2 {
        false
    } else {
        system_light == Some(true)
    }
}

/// Whether the tray icon is the dark-on-light one (see `light_tray_icon`).
pub fn prefers_light_tray_icon(settings: &SettingsDto, system_light: Option<bool>) -> (r: bool)
    ensures
        r == light_tray_icon(settings.app_theme, system_light),
{
    match settings.app_theme {
        1 => true,
        2 => false,
        _ => match system_light {
            Some(b) => b,
            None => false,
        },
    }
}

/// A tray icon file among the app's resources.
#[derive(Clone, Copy, Debug)]
pub struct TrayIconFile {
    /// The file lies in the `TrayIcons` folder of the resources.
    pub in_tray_icons_dir: bool,
    pub file_name: &'static str,
}

/// The tray icon's file name: with the symbol icon setting, the black symbol on a light
/// theme and the white one otherwise; else the application icon.
pub open spec fn icon_file_name(symbol: bool, app_theme: i32, system_light: Option<bool>) -> Seq<char> {
    if !symbol {
        "FluentFlyout2.ico"@
    } else if light_tray_icon(app_theme, system_light) {
        "FluentFlyoutBlack.png"@
    } else {
        "FluentFlyoutWhite.png"@
    }
}

/// The tray icon file (see `icon_file_name`); the symbol icons lie in `TrayIcons`.
pub fn icon_path(settings: &SettingsDto, system_light: Option<bool>) -> (f: TrayIconFile)
    ensures
        f.in_tray_icons_dir == settings.nicon_symbol,
        f.file_name@ == icon_file_name(settings.nicon_symbol, settings.app_theme, system_light),
{
    if settings.nicon_symbol {
        let file_name = if prefers_light_tray_icon(settings, system_light) {
            "FluentFlyoutBlack.png"
        } else {
            "FluentFlyoutWhite.png"
        };
        TrayIconFile { in_tray_icons_dir: true, file_name }
    } else {
        TrayIconFile { in_tray_icons_dir: false, file_name: "FluentFlyout2.ico" }
    }
}

/// The tray icon to apply: none when it is hidden, else its file (see `icon_path`).
pub fn apply_tray_icon(settings: &SettingsDto, system_light: Option<bool>) -> (r: Option<TrayIconFile>)
    ensures
        settings.nicon_hide <==> r is None,
        r matches Some(f) ==> (f.in_tray_icons_dir == settings.nicon_symbol && f.file_name@
            == icon_file_name(settings.nicon_symbol, settings.app_theme, system_light)),
{
    if settings.nicon_hide {
        None
    } else {
        Some(icon_path(settings, system_light))
    }
}

/// The registry key of the programs Windows starts at sign-in.
pub open spec fn run_key() -> Seq<char> {
    "HKCU\\Software\\Microsoft\\Windows\\CurrentVersion\\Run"@
}

/// The arguments of the `reg` call that writes (`add`, the executable quoted and
/// started minimized) or removes (`delete`) the `FluentFlyout` start-up entry.
pub open spec fn startup_args(enable: bool, exe_path: Seq<char>) -> Seq<Seq<char>> {
    if enable {
        seq![
            "add"@,
            run_key(),
            "/v"@,
            "FluentFlyout"@,
            "/t"@,
            "REG_SZ"@,
            "/d"@,
            seq!['"'] + exe_path + "\" --minimized"@,
            "/f"@,
        ]
    } else {
        seq!["delete"@, run_key(), "/v"@, "FluentFlyout"@, "/f"@]
    }
}

/// The arguments of the `reg` call for the start-up setting (see `startup_args`).
pub fn startup_reg_args(enable: bool, exe_path: &str) -> (v: Vec<String>)
    ensures
        v@.len() == startup_args(enable, exe_path@).len(),
        forall|i: int| 0 <= i < v@.len() ==> #[trigger] v@[i]@ == startup_args(enable, exe_path@)[i],
{
    let mut v: Vec<String> = Vec::new();
    let key = "HKCU\\Software\\Microsoft\\Windows\\CurrentVersion\\Run";
    if enable {
        let mut value: Vec<char> = Vec::new();
        value.push('"');
        text::push_str_chars(&mut value, exe_path);
        text::push_str_chars(&mut value, "\" --minimized");
        v.push("add".to_owned());
        v.push(key.to_owned());
        v.push("/v".to_owned());
        v.push("FluentFlyout".to_owned());
        v.push("/t".to_owned());
        v.push("REG_SZ".to_owned());
        v.push("/d".to_owned());
        v.push(text::string_from_chars(&value));
        v.push("/f".to_owned());
        assert(value@ =~= seq!['"'] + exe_path@ + "\" --minimized"@);
    } else {
        v.push("delete".to_owned());
        v.push(key.to_owned());
        v.push("/v".to_owned());
        v.push("FluentFlyout".to_owned());
        v.push("/f".to_owned());
    }
    v
}

/// How `{:?}` renders an exit code: `Some(n)` or `None`.
pub open spec fn exit_code_text(code: Option<i32>) -> Seq<char> {
    match code {
        Some(n) => "Some("@ + text::int_text(n as int) + ")"@,
        None => "None"@,
    }
}

/// The outcome of the `reg` call: writing the entry succeeds when `reg` did; removing it
/// also when `reg` exited with 1 (no such entry). A failure is `startup.reg.add` or
/// `startup.reg.delete`, with the exit code as detail.
pub fn startup_outcome(enable: bool, success: bool, code: Option<i32>) -> (r: Result<(), AppError>)
    ensures
        r is Ok <==> (success || (!enable && code == Some(1i32))),
        r matches Err(e) ==> (e.code@ == (if enable { "startup.reg.add"@ } else { "startup.reg.delete"@ })
            && e.message_ko@ == (if enable {
                "Windows 시작 프로그램 등록에 실패했습니다."@
            } else {
                "Windows 시작 프로그램 해제에 실패했습니다."@
            }) && (e.detail matches Some(d) && d@ == "종료 코드: "@ + exit_code_text(code))),
{
    if success || (!enable && code == Some(1i32)) {
        return Ok(());
    }
    let mut detail: Vec<char> = Vec::new();
    text::push_str_chars(&mut detail, "종료 코드: ");
    match code {
        Some(n) => {
            text::push_str_chars(&mut detail, "Some(");
            text::push_int_text(&mut detail, n as i64);
            text::push_str_chars(&mut detail, ")");
        },
        None => {
            text::push_str_chars(&mut detail, "None");
        },
    }
    assert(detail@ =~= "종료 코드: "@ + exit_code_text(code));
    let d = text::string_from_chars(&detail);
    if enable {
        Err(AppError::with_detail("startup.reg.add", "Windows 시작 프로그램 등록에 실패했습니다.", d.as_str()))
    } else {
        Err(AppError::with_detail("startup.reg.delete", "Windows 시작 프로그램 해제에 실패했습니다.", d.as_str()))
    }
}

} // verus!
