//! The settings app's own flyout windows: which window a request shows, at what size,
//! for how long, where, and the toast it carries.
use vstd::prelude::*;
use crate::legacy::SettingsDto;
use crate::media_session::MediaSessionDto;
use crate::monitor::{self, MonitorDto};
use crate::placement;
use crate::settings::clamp_spec;
use crate::text;

verus! {

/// What a toast flyout displays.
#[derive(Clone, Debug)]
pub struct ToastPayload {
    pub title: String,
    pub subtitle: String,
    pub icon: String,
    pub album_art_data_url: Option<String>,
}

/// A flyout window to show: its label, size in physical pixels, and display time.
#[derive(Clone, Debug)]
pub struct FlyoutWindowRequest {
    pub label: String,
    pub width: i32,
    pub height: i32,
    pub duration_ms: i32,
}

/// The request shows window `label` at `width` by `height` for `duration_ms`.
pub open spec fn request_is(r: FlyoutWindowRequest, label: Seq<char>, width: i32, height: i32, duration_ms: i32) -> bool {
    r.label@ == label && r.width == width && r.height == height && r.duration_ms == duration_ms
}

/// The media flyout, when it is on: 400 pixels wide in the compact layout and 310
/// otherwise, 184 high with the seek bar and 116 without, for the flyout duration.
pub fn show_media_flyout(settings: &SettingsDto) -> (r: Option<FlyoutWindowRequest>)
    ensures
        match r {
            Some(w) => settings.media_flyout_enabled && request_is(
                w,
                "media-flyout"@,
                if settings.compact_layout { 400 } else { 310 },
                if settings.seekbar_enabled { 184 } else { 116 },
                settings.duration,
            ),
            None => !settings.media_flyout_enabled,
        },
{
    if !settings.media_flyout_enabled {
        return None;
    }
    let width: i32 = if settings.compact_layout { 400 } else { 310 };
    let height: i32 = if settings.seekbar_enabled { 184 } else { 116 };
    Some(FlyoutWindowRequest { label: "media-flyout".to_owned(), width, height, duration_ms: settings.duration })
}

/// The next-up toast follows a media title that is not blank and not the placeholder
/// `No media playing`, when the next-up flyout is on.
pub open spec fn next_up_shown(settings: SettingsDto, title: Seq<char>) -> bool {
    settings.next_up_enabled && !text::is_blank(title) && title != "No media playing"@
}

/// The next-up flyout (250 by 62, for the next-up duration) with a toast of the
/// session's title, artist and album art and the `next` icon; nothing when it does not
/// apply (see `next_up_shown`).
pub fn show_next_up_flyout(settings: &SettingsDto, media: &MediaSessionDto) -> (r: Option<(FlyoutWindowRequest, ToastPayload)>)
    ensures
        match r {
            Some((w, p)) => {
                &&& next_up_shown(*settings, media.title@)
                &&& request_is(w, "next-up-flyout"@, 250, 62, settings.next_up_duration)
                &&& p.title@ == media.title@
                &&& p.subtitle@ == media.artist@
                &&& p.icon@ == "next"@
                &&& match (p.album_art_data_url, media.album_art_data_url) {
                    (Some(a), Some(b)) => a@ == b@,
                    (None, None) => true,
                    _ => false,
                }
            },
            None => !next_up_shown(*settings, media.title@),
        },
{
    if !settings.next_up_enabled || text::str_is_blank(media.title.as_str()) || text::str_eq(
        media.title.as_str(),
        "No media playing",
    ) {
        return None;
    }
    let art = match &media.album_art_data_url {
        Some(a) => Some(a.clone()),
        None => None,
    };
    let payload = ToastPayload {
        title: media.title.clone(),
        subtitle: media.artist.clone(),
        icon: "next".to_owned(),
        album_art_data_url: art,
    };
    let window = FlyoutWindowRequest {
        label: "next-up-flyout".to_owned(),
        width: 250,
        height: 62,
        duration_ms: settings.next_up_duration,
    };
    Some((window, payload))
}

/// The lock-keys flyout (190 by 50, for the lock-keys duration) with a toast of the
/// key's name, `켜짐` (on) or `꺼짐` (off) and the `lock` icon, when the lock-keys flyout
/// is on.
pub fn show_lock_keys_flyout(settings: &SettingsDto, key_name: &str, enabled: bool) -> (r: Option<(FlyoutWindowRequest, ToastPayload)>)
    ensures
        match r {
            Some((w, p)) => {
                &&& settings.lock_keys_enabled
                &&& request_is(w, "lock-keys-flyout"@, 190, 50, settings.lock_keys_duration)
                &&& p.title@ == key_name@
                &&& p.subtitle@ == if enabled { "켜짐"@ } else { "꺼짐"@ }
                &&& p.icon@ == "lock"@
                &&& p.album_art_data_url is None
            },
            None => !settings.lock_keys_enabled,
        },
{
    if !settings.lock_keys_enabled {
        return None;
    }
    let payload = ToastPayload {
        title: key_name.to_owned(),
        subtitle: if enabled { "켜짐".to_owned() } else { "꺼짐".to_owned() },
        icon: "lock".to_owned(),
        album_art_data_url: None,
    };
    let window = FlyoutWindowRequest {
        label: "lock-keys-flyout".to_owned(),
        width: 190,
        height: 50,
        duration_ms: settings.lock_keys_duration,
    };
    Some((window, payload))
}

/// A shown flyout window hides itself after its duration when that is positive and the
/// media flyout is not set to stay up.
pub fn hide_after_ms(settings: &SettingsDto, duration_ms: i32) -> (r: Option<u64>)
    ensures
        match r {
            Some(ms) => duration_ms > 0 && !settings.media_flyout_always_display && ms == duration_ms,
            None => duration_ms <= 0 || settings.media_flyout_always_display,
        },
{
    if duration_ms > 0 && !settings.media_flyout_always_display {
        Some(duration_ms as u64)
    } else {
        None
    }
}

/// Where a flyout window of the given size goes: on the listed monitor the flyout
/// setting selects (see `monitor::selected_monitor`), at the flyout position (see
/// `placement::flyout_xy`). `None` when that monitor or the size lies outside the
/// screen coordinates handled (see `placement::coord`).
pub fn window_position(monitors: &Vec<MonitorDto>, settings: &SettingsDto, width: i32, height: i32) -> (r: Option<(i32, i32)>)
    requires
        monitors@.len() <= 2147483648,
    ensures
        monitors@.len() > 0 ==> ({
            let m = monitors@[clamp_spec(settings.flyout_selected_monitor as int, 0, monitors@.len() - 1)];
            match r {
                Some((x, y)) => placement::dto_in_range(m) && placement::coord(width as int)
                    && placement::coord(height as int) && (x as int, y as int)
                    == placement::flyout_xy(m, settings.position, width as int, height as int),
                None => !(placement::dto_in_range(m) && placement::coord(width as int)
                    && placement::coord(height as int)),
            }
        }),
        monitors@.len() == 0 ==> (match r {
            Some((x, y)) => placement::coord(width as int) && placement::coord(height as int) && forall|
                m: MonitorDto,
            |
                m.left == 0 && m.top == 0 && m.width == 1920 && m.height == 1080 ==> (x as int, y as int)
                    == #[trigger] placement::flyout_xy(m, settings.position, width as int, height as int),
            None => !(placement::coord(width as int) && placement::coord(height as int)),
        }),
{
    let m = monitor::selected_monitor(monitors, settings.flyout_selected_monitor);
    if placement::dto_fits(&m) && placement::coord_in_range(width) && placement::coord_in_range(height) {
        Some(placement::position_for(&m, settings.position, width, height))
    } else {
        None
    }
}

} // verus!
