//! The settings app's background events: which key releases it reacts to, when a track
//! change earns the next-up flyout, and what a click on its taskbar widget asks for.
use vstd::prelude::*;
use crate::media_session::MediaSessionDto;
use crate::taskbar_widget::TaskbarWidgetAction;
use crate::text;

verus! {

/// A key release the app reacts to.
#[derive(Clone, Copy, Debug)]
pub enum RuntimeEvent {
    /// A media or volume key: show the media flyout.
    MediaKey,
    /// A lock key, by name, and whether it is on after the press.
    LockKey { name: &'static str, enabled: bool },
}

/// The key-up and system-key-up messages the hook reacts to.
pub open spec fn is_key_release(message: u32) -> bool {
    message == 0x101 || message == 0x105
}

/// The media keys (play/pause `0xB3`, next `0xB0`, previous `0xB1`) and the volume keys
/// (up `0xAF`, down `0xAE`, mute `0xAD`).
pub open spec fn is_media_or_volume_key(vk: u32) -> bool {
    vk == 0xB3 || vk == 0xB0 || vk == 0xB1 || vk == 0xAF || vk == 0xAE || vk == 0xAD
}

/// The lock key's name: Caps Lock `0x14`, Num Lock `0x90`, Scroll Lock `0x91`, Insert
/// `0x2D`.
pub open spec fn lock_key_name(vk: u32) -> Option<Seq<char>> {
    if vk == 0x14 {
        Some("Caps Lock"@)
    } else if vk == 0x90 {
        Some("Num Lock"@)
    } else if vk == 0x91 {
        Some("Scroll Lock"@)
    } else if vk == 0x2D {
        Some("Insert"@)
    } else {
        None
    }
}

/// The event for a keyboard hook call with code `code`, message `message` and virtual
/// key `vk`: only releases with a non-negative code count; `toggled` is the key's toggle
/// state, reported with a lock key.
pub fn key_event(code: i32, message: u32, vk: u32, toggled: bool) -> (e: Option<RuntimeEvent>)
    ensures
        match e {
            Some(RuntimeEvent::MediaKey) => code >= 0 && is_key_release(message) && is_media_or_volume_key(vk),
            Some(RuntimeEvent::LockKey { name, enabled }) => code >= 0 && is_key_release(message)
                && lock_key_name(vk) == Some(name@) && enabled == toggled,
            None => !(code >= 0 && is_key_release(message)) || (!is_media_or_volume_key(vk)
                && lock_key_name(vk) is None),
        },
{
    if code < 0 || !(message == 0x101 || message == 0x105) {
        return None;
    }
    if vk == 0xB3 || vk == 0xB0 || vk == 0xB1 || vk == 0xAF || vk == 0xAE || vk == 0xAD {
        Some(RuntimeEvent::MediaKey)
    } else if vk == 0x14 {
        Some(RuntimeEvent::LockKey { name: "Caps Lock", enabled: toggled })
    } else if vk == 0x90 {
        Some(RuntimeEvent::LockKey { name: "Num Lock", enabled: toggled })
    } else if vk == 0x91 {
        Some(RuntimeEvent::LockKey { name: "Scroll Lock", enabled: toggled })
    } else if vk == 0x2D {
        Some(RuntimeEvent::LockKey { name: "Insert", enabled: toggled })
    } else {
        None
    }
}

/// A session has a track: its title is neither blank nor `No media playing`.
pub open spec fn has_track(title: Seq<char>) -> bool {
    !text::is_blank(title) && title != "No media playing"@
}

/// The key a track is told apart by: `title|artist`.
pub open spec fn track_key(title: Seq<char>, artist: Seq<char>) -> Seq<char> {
    title + seq!['|'] + artist
}

/// What the media poll remembers: the key of the last track it saw (empty before the
/// first).
#[derive(Clone, Debug)]
pub struct NextUpTracker {
    pub last_track: String,
}

/// A poll that finds `(title, artist)` after `last` announces the next-up flyout: there
/// is a track, one was seen before, and it is another.
pub open spec fn announces(last: Seq<char>, title: Seq<char>, artist: Seq<char>) -> bool {
    has_track(title) && last.len() > 0 && track_key(title, artist) != last
}

/// What the tracker remembers after such a poll: the track, when there is one.
pub open spec fn remembered(last: Seq<char>, title: Seq<char>, artist: Seq<char>) -> Seq<char> {
    if has_track(title) {
        track_key(title, artist)
    } else {
        last
    }
}

impl NextUpTracker {
    /// No track seen yet.
    pub fn new() -> (t: Self)
        ensures
            t.last_track@ == Seq::<char>::empty(),
    {
        NextUpTracker { last_track: String::new() }
    }

    /// Takes one poll's session: whether it announces the next-up flyout (see
    /// `announces`); the track becomes the last one seen (see `remembered`).
    pub fn observe(&mut self, media: &MediaSessionDto) -> (show: bool)
        ensures
            show == announces(old(self).last_track@, media.title@, media.artist@),
            final(self).last_track@ == remembered(old(self).last_track@, media.title@, media.artist@),
    {
        let mut key: Vec<char> = text::chars_of(media.title.as_str());
        key.push('|');
        text::push_str_chars(&mut key, media.artist.as_str());
        let track = text::string_from_chars(&key);
        assert(track@ == track_key(media.title@, media.artist@));
        let found = !text::str_is_blank(media.title.as_str()) && !text::str_eq(
            media.title.as_str(),
            "No media playing",
        );
        let seen = text::chars_of(self.last_track.as_str()).len() > 0;
        let show = found && seen && !text::str_eq(
            track.as_str(),
            self.last_track.as_str(),
        );
        if found {
            self.last_track = track;
        }
        show
    }
}

/// The first track a poll sees never announces the next-up flyout, and neither does
/// the same track seen again; another track after one seen does.
pub proof fn lemma_next_up_on_track_change(last: Seq<char>, title: Seq<char>, artist: Seq<char>, title2: Seq<char>, artist2: Seq<char>)
    ensures
        !announces(Seq::<char>::empty(), title, artist),
        !announces(remembered(last, title, artist), title, artist),
        has_track(title) && has_track(title2) && track_key(title2, artist2) != track_key(title, artist)
            ==> announces(remembered(last, title, artist), title2, artist2),
{
}

/// What a click on the settings app's taskbar widget asks for.
#[derive(Clone, Copy, Debug)]
pub enum WidgetRequest {
    ShowMediaFlyout,
    /// A media control command, by its name (`previous`, `playPause`, `next`).
    Control(&'static str),
}

/// The request for a widget action: showing the flyout only when the widget is
/// clickable; the transport buttons send `previous`, `playPause` and `next`.
pub fn widget_request(action: TaskbarWidgetAction, clickable: bool) -> (r: Option<WidgetRequest>)
    ensures
        match action {
            TaskbarWidgetAction::ShowFlyout => (if clickable { r matches Some(WidgetRequest::ShowMediaFlyout) } else { r is None }),
            TaskbarWidgetAction::Previous => r matches Some(WidgetRequest::Control(c)) && c@ == "previous"@,
            TaskbarWidgetAction::PlayPause => r matches Some(WidgetRequest::Control(c)) && c@ == "playPause"@,
            TaskbarWidgetAction::Next => r matches Some(WidgetRequest::Control(c)) && c@ == "next"@,
        },
{
    match action {
        TaskbarWidgetAction::ShowFlyout => if clickable {
            Some(WidgetRequest::ShowMediaFlyout)
        } else {
            None
        },
        TaskbarWidgetAction::Previous => Some(WidgetRequest::Control("previous")),
        TaskbarWidgetAction::PlayPause => Some(WidgetRequest::Control("playPause")),
        TaskbarWidgetAction::Next => Some(WidgetRequest::Control("next")),
    }
}

} // verus!
