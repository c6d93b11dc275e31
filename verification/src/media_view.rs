//! What the dashboard, the media flyout and the taskbar widget window show for the
//! current media snapshot, or for no media at all.
use vstd::prelude::*;
use crate::media::MediaSnapshot;

verus! {

/// The media texts and flags a window shows. Seek values are in 100-nanosecond ticks.
#[derive(Clone, Debug)]
pub struct MediaView {
    pub title: String,
    pub artist: String,
    pub player: String,
    pub current_duration: String,
    pub max_duration: String,
    pub has_media: bool,
    pub has_album_art: bool,
    pub is_playing: bool,
    pub seek_value_ticks: i64,
    pub seek_maximum_ticks: i64,
    pub repeat_label: String,
    pub repeat_active: bool,
    pub repeat_available: bool,
    pub shuffle_active: bool,
    pub shuffle_available: bool,
    pub supports_seekbar: bool,
    pub play_pause_label: String,
}

/// One second in ticks: the seek bar's smallest maximum.
pub const ONE_SECOND_TICKS: i64 = 10_000_000;

/// The view of a snapshot: its texts and flags, the seek bar's maximum at least one
/// second, and `II` on the play/pause button while playing, `>` otherwise.
pub open spec fn shows_snapshot(v: MediaView, s: MediaSnapshot) -> bool {
    &&& v.title@ == s.title@
    &&& v.artist@ == s.artist@
    &&& v.player@ == s.player_label@
    &&& v.current_duration@ == s.current_duration@
    &&& v.max_duration@ == s.max_duration@
    &&& v.has_media
    &&& v.has_album_art == s.has_album_art
    &&& v.is_playing == s.is_playing
    &&& v.seek_value_ticks == s.position_ticks
    &&& v.seek_maximum_ticks == if s.max_seek_ticks < ONE_SECOND_TICKS { ONE_SECOND_TICKS } else { s.max_seek_ticks }
    &&& v.repeat_label@ == s.repeat_label@
    &&& v.repeat_active == s.repeat_active
    &&& v.repeat_available == s.can_toggle_repeat
    &&& v.shuffle_active == s.shuffle_active
    &&& v.shuffle_available == s.can_toggle_shuffle
    &&& v.supports_seekbar == s.supports_seekbar
    &&& v.play_pause_label@ == if s.is_playing { "II"@ } else { ">"@ }
}

/// The view without media: `No media playing`, player `Idle`, times `-:--`, the seek
/// bar at 0 of one second, repeat `R`, nothing active or available, `>`.
pub open spec fn shows_idle(v: MediaView) -> bool {
    &&& v.title@ == "No media playing"@
    &&& v.artist@ == Seq::<char>::empty()
    &&& v.player@ == "Idle"@
    &&& v.current_duration@ == "-:--"@
    &&& v.max_duration@ == "-:--"@
    &&& !v.has_media && !v.has_album_art && !v.is_playing
    &&& v.seek_value_ticks == 0
    &&& v.seek_maximum_ticks == ONE_SECOND_TICKS
    &&& v.repeat_label@ == "R"@
    &&& !v.repeat_active && !v.repeat_available && !v.shuffle_active && !v.shuffle_available
    &&& !v.supports_seekbar
    &&& v.play_pause_label@ == ">"@
}

/// What the windows show for the current snapshot (`None`: no media).
pub fn media_view(snapshot: Option<&MediaSnapshot>) -> (v: MediaView)
    ensures
        match snapshot {
            Some(s) => shows_snapshot(v, *s),
            None => shows_idle(v),
        },
{
    match snapshot {
        Some(s) => MediaView {
            title: s.title.clone(),
            artist: s.artist.clone(),
            player: s.player_label.clone(),
            current_duration: s.current_duration.clone(),
            max_duration: s.max_duration.clone(),
            has_media: true,
            has_album_art: s.has_album_art,
            is_playing: s.is_playing,
            seek_value_ticks: s.position_ticks,
            seek_maximum_ticks: if s.max_seek_ticks < ONE_SECOND_TICKS {
                ONE_SECOND_TICKS
            } else {
                s.max_seek_ticks
            },
            repeat_label: s.repeat_label.clone(),
            repeat_active: s.repeat_active,
            repeat_available: s.can_toggle_repeat,
            shuffle_active: s.shuffle_active,
            shuffle_available: s.can_toggle_shuffle,
            supports_seekbar: s.supports_seekbar,
            play_pause_label: if s.is_playing { "II".to_owned() } else { ">".to_owned() },
        },
        None => MediaView {
            title: "No media playing".to_owned(),
            artist: String::new(),
            player: "Idle".to_owned(),
            current_duration: "-:--".to_owned(),
            max_duration: "-:--".to_owned(),
            has_media: false,
            has_album_art: false,
            is_playing: false,
            seek_value_ticks: 0,
            seek_maximum_ticks: ONE_SECOND_TICKS,
            repeat_label: "R".to_owned(),
            repeat_active: false,
            repeat_available: false,
            shuffle_active: false,
            shuffle_available: false,
            supports_seekbar: false,
            play_pause_label: ">".to_owned(),
        },
    }
}

} // verus!
