//! The media session as the flyouts show it: labels for the player and times, the
//! snapshot of what is playing, which session a control goes to, and the album art.
use vstd::prelude::*;
use crate::text;

verus! {

/// A session's playback status, as Windows reports it.
#[derive(Clone, Copy, Debug, PartialEq, Eq, Structural)]
pub enum PlaybackStatus {
    Closed,
    Opened,
    Changing,
    Stopped,
    Playing,
    Paused,
}

/// A session's repeat mode.
#[derive(Clone, Copy, Debug, PartialEq, Eq, Structural)]
pub enum RepeatMode {
    Off,
    Track,
    List,
}

/// The repeat mode that the repeat button switches to: off, then the whole list, then
/// the current track, then off again.
pub open spec fn next_repeat(mode: RepeatMode) -> RepeatMode {
    match mode {
        RepeatMode::Off => RepeatMode::List,
        RepeatMode::List => RepeatMode::Track,
        RepeatMode::Track => RepeatMode::Off,
    }
}

/// The repeat mode after `mode` (see `next_repeat`).
pub fn next_repeat_mode(mode: RepeatMode) -> (r: RepeatMode)
    ensures
        r == next_repeat(mode),
{
    match mode {
        RepeatMode::Off => RepeatMode::List,
        RepeatMode::List => RepeatMode::Track,
        RepeatMode::Track => RepeatMode::Off,
    }
}

/// Pressing repeat three times comes back to the mode it started from.
pub proof fn lemma_repeat_cycle(mode: RepeatMode)
    ensures
        next_repeat(next_repeat(next_repeat(mode))) == mode,
        next_repeat(mode) != mode,
{
}

/// The separators of an app id's segments.
pub open spec fn is_label_separator(c: char) -> bool {
    c == '.' || c == '_' || c == ' ' || c == '!'
}

/// `s` split at every separator (`str::split`): `n` separators give `n + 1` segments.
pub open spec fn split_segments(s: Seq<char>) -> Seq<Seq<char>>
    decreases s.len(),
{
    if s.len() == 0 {
        seq![seq![]]
    } else {
        let parts = split_segments(s.drop_last());
        if is_label_separator(s.last()) {
            parts.push(seq![])
        } else {
            parts.update(parts.len() - 1, parts.last().push(s.last()))
        }
    }
}

proof fn lemma_split_segments_nonempty(s: Seq<char>)
    ensures
        split_segments(s).len() >= 1,
    decreases s.len(),
{
    if s.len() > 0 {
        lemma_split_segments_nonempty(s.drop_last());
    }
}

/// `c` with `A`..`Z` lowered (`char::to_ascii_lowercase`).
pub open spec fn ascii_lower(c: char) -> char {
    if 'A' <= c && c <= 'Z' {
        ((c as int) + 32) as char
    } else {
        c
    }
}

/// `s` with ASCII capitals lowered.
pub open spec fn ascii_lower_seq(s: Seq<char>) -> Seq<char> {
    s.map_values(|c: char| ascii_lower(c))
}

/// A segment that names no player: `com`, `exe`, `github` or `application`, in any case.
pub open spec fn is_noise_segment(t: Seq<char>) -> bool {
    let l = ascii_lower_seq(t);
    l == "com"@ || l == "exe"@ || l == "github"@ || l == "application"@
}

/// The first segment, trimmed, that is neither empty nor noise.
pub open spec fn first_player_segment(parts: Seq<Seq<char>>) -> Option<Seq<char>>
    decreases parts.len(),
{
    if parts.len() == 0 {
        None
    } else if text::trim(parts[0]).len() > 0 && !is_noise_segment(text::trim(parts[0])) {
        Some(text::trim(parts[0]))
    } else {
        first_player_segment(parts.drop_first())
    }
}

/// The player name shown for a session's app id: `Unknown` for none, `TIDAL` or
/// `Spotify` when the id mentions them, else its first meaningful segment, else the id.
pub open spec fn player_label(id: Seq<char>) -> Seq<char> {
    if id.len() == 0 {
        "Unknown"@
    } else if text::has_match(id, "TIDAL"@) {
        "TIDAL"@
    } else if text::has_match(id, "Spotify"@) {
        "Spotify"@
    } else {
        match first_player_segment(split_segments(id)) {
            Some(t) => t,
            None => id,
        }
    }
}

fn lower_chars(v: &Vec<char>) -> (r: Vec<char>)
    ensures
        r@ == ascii_lower_seq(v@),
{
    let mut r: Vec<char> = Vec::new();
    let mut i: usize = 0;
    while i < v.len()
        invariant
            i <= v@.len(),
            r@ == ascii_lower_seq(v@.take(i as int)),
        decreases v@.len() - i,
    {
        let c = v[i];
        let l = if 'A' <= c && c <= 'Z' {
            ((c as u32) + 32) as u8 as char
        } else {
            c
        };
        proof {
            if 'A' <= c && c <= 'Z' {
                assert(((c as u32) + 32) as u8 as char == ((c as int) + 32) as char);
            }
        }
        r.push(l);
        i = i + 1;
        assert(r@ =~= ascii_lower_seq(v@.take(i as int)));
    }
    assert(v@.take(v@.len() as int) =~= v@);
    r
}

fn is_noise(t: &Vec<char>) -> (r: bool)
    ensures
        r == is_noise_segment(t@),
{
    let l = lower_chars(t);
    text::chars_eq(&l, &text::chars_of("com")) || text::chars_eq(&l, &text::chars_of("exe"))
        || text::chars_eq(&l, &text::chars_of("github")) || text::chars_eq(
        &l,
        &text::chars_of("application"),
    )
}

fn split_label_segments(id: &Vec<char>) -> (parts: Vec<Vec<char>>)
    ensures
        parts@.map_values(|p: Vec<char>| p@) == split_segments(id@),
{
    let mut parts: Vec<Vec<char>> = Vec::new();
    parts.push(Vec::new());
    let mut i: usize = 0;
    assert(parts@.map_values(|p: Vec<char>| p@) =~= split_segments(id@.take(0)));
    while i < id.len()
        invariant
            i <= id@.len(),
            parts@.len() >= 1,
            parts@.map_values(|p: Vec<char>| p@) == split_segments(id@.take(i as int)),
        decreases id@.len() - i,
    {
        let c = id[i];
        let ghost before = parts@.map_values(|p: Vec<char>| p@);
        proof {
            assert(id@.take(i + 1).drop_last() =~= id@.take(i as int));
            assert(id@.take(i + 1).last() == c);
        }
        if c == '.' || c == '_' || c == ' ' || c == '!' {
            parts.push(Vec::new());
            assert(parts@.map_values(|p: Vec<char>| p@) =~= before.push(seq![]));
        } else {
            let last = parts.len() - 1;
            let mut seg = parts.remove(last);
            seg.push(c);
            parts.push(seg);
            assert(parts@.map_values(|p: Vec<char>| p@) =~= before.update(
                before.len() - 1,
                before.last().push(c),
            ));
        }
        i = i + 1;
    }
    assert(id@.take(id@.len() as int) =~= id@);
    parts
}

/// The player name shown for a session's app id (see `player_label`).
pub fn sanitize_player_label(source_app_id: &str) -> (r: String)
    ensures
        r@ == player_label(source_app_id@),
{
    let id = text::chars_of(source_app_id);
    if id.len() == 0 {
        return "Unknown".to_owned();
    }
    if text::str_contains(source_app_id, "TIDAL") {
        return "TIDAL".to_owned();
    }
    if text::str_contains(source_app_id, "Spotify") {
        return "Spotify".to_owned();
    }
    let parts = split_label_segments(&id);
    let ghost all = parts@.map_values(|p: Vec<char>| p@);
    let mut k: usize = 0;
    assert(all.skip(0) =~= all);
    while k < parts.len()
        invariant
            k <= parts@.len(),
            all == parts@.map_values(|p: Vec<char>| p@),
            all == split_segments(source_app_id@),
            source_app_id@.len() != 0,
            !text::has_match(source_app_id@, "TIDAL"@),
            !text::has_match(source_app_id@, "Spotify"@),
            first_player_segment(all) == first_player_segment(all.skip(k as int)),
        decreases parts@.len() - k,
    {
        let seg = &parts[k];
        let t = text::trimmed_range(seg, 0, seg.len());
        proof {
            assert(seg@.subrange(0, seg@.len() as int) =~= seg@);
            assert(all.skip(k as int)[0] == seg@);
            assert(all.skip(k as int).drop_first() =~= all.skip(k + 1));
        }
        if t.len() > 0 && !is_noise(&t) {
            assert(all.skip(k as int).len() > 0);
            assert(first_player_segment(all.skip(k as int)) == Some(t@));
            assert(all == split_segments(source_app_id@));
            assert(first_player_segment(split_segments(source_app_id@)) == Some(t@));
            assert(source_app_id@.len() != 0);
            assert(!text::has_match(source_app_id@, "TIDAL"@));
            assert(!text::has_match(source_app_id@, "Spotify"@));
            assert(player_label(source_app_id@) == t@);
            return text::string_from_chars(&t);
        }
        k = k + 1;
    }
    proof {
        assert(all.skip(parts@.len() as int).len() == 0);
    }
    source_app_id.to_owned()
}

/// How a time is shown: `-:--` for none, `m:ss` under an hour, `hh:mm:ss` from an hour
/// up. Times are in 100-nanosecond ticks.
pub open spec fn ticks_text(ticks: int) -> Seq<char> {
    if ticks <= 0 {
        "-:--"@
    } else {
        let total = ticks / 10000000;
        let hours = total / 3600;
        let minutes = (total % 3600) / 60;
        let seconds = total % 60;
        if hours > 0 {
            text::pad2_text(hours as nat) + seq![':'] + text::pad2_text(minutes as nat) + seq![':']
                + text::pad2_text(seconds as nat)
        } else {
            text::nat_text(minutes as nat) + seq![':'] + text::pad2_text(seconds as nat)
        }
    }
}

/// Shows a time given in 100-nanosecond ticks (see `ticks_text`).
pub fn format_ticks(ticks: i64) -> (s: String)
    ensures
        s@ == ticks_text(ticks as int),
{
    if ticks <= 0 {
        return "-:--".to_owned();
    }
    let total = (ticks / 10000000) as u64;
    let hours = total / 3600;
    let minutes = (total % 3600) / 60;
    let seconds = total % 60;
    let mut v: Vec<char> = Vec::new();
    if hours > 0 {
        text::push_pad2_text(&mut v, hours);
        v.push(':');
        text::push_pad2_text(&mut v, minutes);
        v.push(':');
        text::push_pad2_text(&mut v, seconds);
    } else {
        text::push_nat_text(&mut v, minutes);
        v.push(':');
        text::push_pad2_text(&mut v, seconds);
    }
    assert(v@ =~= ticks_text(ticks as int));
    text::string_from_chars(&v)
}


/// What the media properties of a session held when they could be read.
pub struct MediaProperties {
    pub title: Option<String>,
    pub artist: Option<String>,
    pub thumbnail: Option<Vec<u8>>,
}

/// What was read from the selected media session; `None` marks a value that could not
/// be read.
pub struct MediaSessionReading {
    pub source_app_id: Option<String>,
    pub properties: Option<MediaProperties>,
    pub playback_status: Option<PlaybackStatus>,
    pub can_toggle_repeat: Option<bool>,
    pub can_toggle_shuffle: Option<bool>,
    pub repeat_mode: Option<RepeatMode>,
    pub shuffle_active: Option<bool>,
    pub max_seek_ticks: Option<i64>,
    pub position_ticks: Option<i64>,
}

/// What the flyouts show of the playing media. Positions are in 100-nanosecond ticks.
pub struct MediaSnapshot {
    pub session_key: String,
    pub title: String,
    pub artist: String,
    pub player_label: String,
    pub current_duration: String,
    pub max_duration: String,
    pub position_ticks: i64,
    pub max_seek_ticks: i64,
    pub repeat_label: String,
    pub repeat_active: bool,
    pub shuffle_active: bool,
    pub can_toggle_repeat: bool,
    pub can_toggle_shuffle: bool,
    pub supports_seekbar: bool,
    pub is_playing: bool,
    pub album_art_bytes: Option<Vec<u8>>,
    pub has_album_art: bool,
}

/// The shown title: the session's title, `No media playing` when the properties could
/// be read without a title or could not be read at all.
pub open spec fn snapshot_title(r: MediaSessionReading) -> Seq<char> {
    match r.properties {
        Some(p) => match p.title {
            Some(t) => t@,
            None => "No media playing"@,
        },
        None => "No media playing"@,
    }
}

/// The shown artist, empty when unknown.
pub open spec fn snapshot_artist(r: MediaSessionReading) -> Seq<char> {
    match r.properties {
        Some(p) => match p.artist {
            Some(a) => a@,
            None => seq![],
        },
        None => seq![],
    }
}

/// The session's app id, empty when unknown.
pub open spec fn snapshot_source(r: MediaSessionReading) -> Seq<char> {
    match r.source_app_id {
        Some(s) => s@,
        None => seq![],
    }
}

/// The value of an optional reading, or `d`.
pub open spec fn or_default<T>(v: Option<T>, d: T) -> T {
    match v {
        Some(x) => x,
        None => d,
    }
}

/// The snapshot shown for a reading: unreadable flags count as off, unreadable times as
/// 0, an unreadable status as closed. The session key joins app id, title, artist and
/// `playing`/`idle` with `|`; repeat shows `1` for one track and `R` otherwise; the seek
/// bar is offered from one second of seekable time.
pub open spec fn snapshot_of(r: MediaSessionReading, s: MediaSnapshot) -> bool {
    let playing = r.playback_status == Some(PlaybackStatus::Playing);
    let mode = or_default(r.repeat_mode, RepeatMode::Off);
    let max_seek = or_default(r.max_seek_ticks, 0i64);
    let position = or_default(r.position_ticks, 0i64);
    &&& s.session_key@ == snapshot_source(r) + seq!['|'] + snapshot_title(r) + seq!['|']
        + snapshot_artist(r) + seq!['|'] + (if playing { "playing"@ } else { "idle"@ })
    &&& s.title@ == snapshot_title(r)
    &&& s.artist@ == snapshot_artist(r)
    &&& s.player_label@ == player_label(snapshot_source(r))
    &&& s.current_duration@ == ticks_text(position as int)
    &&& s.max_duration@ == ticks_text(max_seek as int)
    &&& s.position_ticks == position
    &&& s.max_seek_ticks == max_seek
    &&& s.repeat_label@ == (if mode == RepeatMode::Track { "1"@ } else { "R"@ })
    &&& s.repeat_active == (mode != RepeatMode::Off)
    &&& s.shuffle_active == or_default(r.shuffle_active, false)
    &&& s.can_toggle_repeat == or_default(r.can_toggle_repeat, false)
    &&& s.can_toggle_shuffle == or_default(r.can_toggle_shuffle, false)
    &&& s.supports_seekbar == (max_seek >= 10000000)
    &&& s.is_playing == playing
    &&& s.album_art_bytes.is_some() == s.has_album_art
    &&& match r.properties {
        Some(p) => match (p.thumbnail, s.album_art_bytes) {
            (Some(a), Some(b)) => a@ == b@,
            (None, None) => true,
            _ => false,
        },
        None => s.album_art_bytes is None,
    }
}

/// Builds the snapshot the flyouts show from what was read of the session (see
/// `snapshot_of`).
pub fn media_snapshot(reading: MediaSessionReading) -> (s: MediaSnapshot)
    ensures
        snapshot_of(reading, s),
{
    let ghost r = reading;
    let source: String = match &reading.source_app_id {
        Some(x) => x.clone(),
        None => String::new(),
    };
    let mut title: String = "No media playing".to_owned();
    let mut artist: String = String::new();
    let mut album_art_bytes: Option<Vec<u8>> = None;
    match reading.properties {
        Some(props) => {
            if let Some(t) = props.title {
                title = t;
            }
            if let Some(a) = props.artist {
                artist = a;
            }
            album_art_bytes = props.thumbnail;
        },
        None => {},
    }
    let playing = match reading.playback_status {
        Some(PlaybackStatus::Playing) => true,
        _ => false,
    };
    let mode = match reading.repeat_mode {
        Some(m) => m,
        None => RepeatMode::Off,
    };
    let max_seek: i64 = match reading.max_seek_ticks {
        Some(t) => t,
        None => 0,
    };
    let position: i64 = match reading.position_ticks {
        Some(t) => t,
        None => 0,
    };
    let mut key: Vec<char> = text::chars_of(source.as_str());
    key.push('|');
    text::push_str_chars(&mut key, title.as_str());
    key.push('|');
    text::push_str_chars(&mut key, artist.as_str());
    key.push('|');
    text::push_str_chars(&mut key, if playing { "playing" } else { "idle" });
    proof {
        assert(key@ =~= snapshot_source(r) + seq!['|'] + snapshot_title(r) + seq!['|']
            + snapshot_artist(r) + seq!['|'] + (if playing { "playing"@ } else { "idle"@ }));
    }
    let has_album_art = album_art_bytes.is_some();
    MediaSnapshot {
        session_key: text::string_from_chars(&key),
        player_label: sanitize_player_label(source.as_str()),
        title,
        artist,
        current_duration: format_ticks(position),
        max_duration: format_ticks(max_seek),
        position_ticks: position,
        max_seek_ticks: max_seek,
        repeat_label: if mode == RepeatMode::Track {
            "1".to_owned()
        } else {
            "R".to_owned()
        },
        repeat_active: mode != RepeatMode::Off,
        shuffle_active: match reading.shuffle_active {
            Some(b) => b,
            None => false,
        },
        can_toggle_repeat: match reading.can_toggle_repeat {
            Some(b) => b,
            None => false,
        },
        can_toggle_shuffle: match reading.can_toggle_shuffle {
            Some(b) => b,
            None => false,
        },
        supports_seekbar: max_seek >= 10000000,
        is_playing: playing,
        album_art_bytes,
        has_album_art,
    }
}

/// Which session a media control goes to: one of the listed sessions, or the system's
/// current session.
#[derive(Clone, Copy, Debug, PartialEq, Eq, Structural)]
pub enum SessionChoice {
    Listed(usize),
    Current,
}

/// The first listed session, from `k` on, whose app id mentions `TIDAL`.
pub open spec fn first_tidal_session(ids: Seq<Seq<char>>, k: int) -> Option<usize>
    decreases ids.len() - k,
{
    if k < 0 || k >= ids.len() {
        None
    } else if text::has_match(ids[k], "TIDAL"@) {
        Some(k as usize)
    } else {
        first_tidal_session(ids, k + 1)
    }
}

/// The views of a list of strings.
pub open spec fn strings_view(v: Seq<String>) -> Seq<Seq<char>> {
    v.map_values(|s: String| s@)
}

/// The session a control goes to: in exclusive TIDAL mode the first listed session of
/// TIDAL (none if there is none), otherwise the current session.
pub open spec fn chosen_session(exclusive_tidal_mode: bool, ids: Seq<Seq<char>>) -> Option<SessionChoice> {
    if exclusive_tidal_mode {
        match first_tidal_session(ids, 0) {
            Some(i) => Some(SessionChoice::Listed(i)),
            None => None,
        }
    } else {
        Some(SessionChoice::Current)
    }
}

/// Picks the session a control goes to, given the app ids of the listed sessions.
pub fn select_session(exclusive_tidal_mode: bool, source_ids: &Vec<String>) -> (r: Option<SessionChoice>)
    requires
        source_ids@.len() < usize::MAX,
    ensures
        r == chosen_session(exclusive_tidal_mode, strings_view(source_ids@)),
{
    if !exclusive_tidal_mode {
        return Some(SessionChoice::Current);
    }
    let ghost ids = strings_view(source_ids@);
    let mut k: usize = 0;
    while k < source_ids.len()
        invariant
            exclusive_tidal_mode,
            k <= source_ids@.len() < usize::MAX,
            ids == strings_view(source_ids@),
            first_tidal_session(ids, 0) == first_tidal_session(ids, k as int),
        decreases source_ids@.len() - k,
    {
        assert(ids[k as int] == source_ids@[k as int]@);
        if text::str_contains(source_ids[k].as_str(), "TIDAL") {
            return Some(SessionChoice::Listed(k));
        }
        k = k + 1;
    }
    None
}

/// A command sent to a media session.
#[derive(Clone, Copy, Debug, PartialEq, Eq, Structural)]
pub enum MediaCommand {
    TogglePlayPause,
    Play,
    Pause,
    SkipNext,
    SkipPrevious,
    ChangeShuffleActive(bool),
    ChangeAutoRepeatMode(RepeatMode),
    ChangePlaybackPosition(i64),
}

/// A command and the session it goes to.
#[derive(Clone, Copy, Debug, PartialEq, Eq, Structural)]
pub struct MediaRequest {
    pub session: SessionChoice,
    pub command: MediaCommand,
}

/// The request for `command` on the chosen session, or the error for having none.
pub open spec fn request_outcome(
    exclusive_tidal_mode: bool,
    ids: Seq<Seq<char>>,
    command: MediaCommand,
    r: Result<MediaRequest, String>,
) -> bool {
    match chosen_session(exclusive_tidal_mode, ids) {
        Some(c) => r == Ok::<MediaRequest, String>(MediaRequest { session: c, command }),
        None => r matches Err(e) && e@ == "No active media session"@,
    }
}

fn request_for(exclusive_tidal_mode: bool, source_ids: &Vec<String>, command: MediaCommand) -> (r:
    Result<MediaRequest, String>)
    requires
        source_ids@.len() < usize::MAX,
    ensures
        request_outcome(exclusive_tidal_mode, strings_view(source_ids@), command, r),
{
    match select_session(exclusive_tidal_mode, source_ids) {
        Some(session) => Ok(MediaRequest { session, command }),
        None => Err("No active media session".to_owned()),
    }
}

/// Play/pause for the chosen session.
pub fn toggle_play_pause(exclusive_tidal_mode: bool, source_ids: &Vec<String>) -> (r: Result<
    MediaRequest,
    String,
>)
    requires
        source_ids@.len() < usize::MAX,
    ensures
        request_outcome(
            exclusive_tidal_mode,
            strings_view(source_ids@),
            MediaCommand::TogglePlayPause,
            r,
        ),
{
    request_for(exclusive_tidal_mode, source_ids, MediaCommand::TogglePlayPause)
}

/// Next track for the chosen session.
pub fn skip_next(exclusive_tidal_mode: bool, source_ids: &Vec<String>) -> (r: Result<
    MediaRequest,
    String,
>)
    requires
        source_ids@.len() < usize::MAX,
    ensures
        request_outcome(exclusive_tidal_mode, strings_view(source_ids@), MediaCommand::SkipNext, r),
{
    request_for(exclusive_tidal_mode, source_ids, MediaCommand::SkipNext)
}

/// Previous track for the chosen session.
pub fn skip_previous(exclusive_tidal_mode: bool, source_ids: &Vec<String>) -> (r: Result<
    MediaRequest,
    String,
>)
    requires
        source_ids@.len() < usize::MAX,
    ensures
        request_outcome(
            exclusive_tidal_mode,
            strings_view(source_ids@),
            MediaCommand::SkipPrevious,
            r,
        ),
{
    request_for(exclusive_tidal_mode, source_ids, MediaCommand::SkipPrevious)
}

/// Flips shuffle for the chosen session, whose shuffle is now `shuffle_active`.
pub fn toggle_shuffle(exclusive_tidal_mode: bool, source_ids: &Vec<String>, shuffle_active: bool) -> (r:
    Result<MediaRequest, String>)
    requires
        source_ids@.len() < usize::MAX,
    ensures
        request_outcome(
            exclusive_tidal_mode,
            strings_view(source_ids@),
            MediaCommand::ChangeShuffleActive(!shuffle_active),
            r,
        ),
{
    request_for(exclusive_tidal_mode, source_ids, MediaCommand::ChangeShuffleActive(!shuffle_active))
}

/// Moves the chosen session, whose repeat mode is now `current`, to the next repeat mode.
pub fn cycle_repeat_mode(exclusive_tidal_mode: bool, source_ids: &Vec<String>, current: RepeatMode) -> (r:
    Result<MediaRequest, String>)
    requires
        source_ids@.len() < usize::MAX,
    ensures
        request_outcome(
            exclusive_tidal_mode,
            strings_view(source_ids@),
            MediaCommand::ChangeAutoRepeatMode(next_repeat(current)),
            r,
        ),
{
    request_for(
        exclusive_tidal_mode,
        source_ids,
        MediaCommand::ChangeAutoRepeatMode(next_repeat_mode(current)),
    )
}

/// Seeks the chosen session to `ticks` (100-nanosecond units; negative ones count as 0).
pub fn seek_to_ticks(exclusive_tidal_mode: bool, source_ids: &Vec<String>, ticks: i64) -> (r: Result<
    MediaRequest,
    String,
>)
    requires
        source_ids@.len() < usize::MAX,
    ensures
        request_outcome(
            exclusive_tidal_mode,
            strings_view(source_ids@),
            MediaCommand::ChangePlaybackPosition(if ticks < 0 { 0 } else { ticks }),
            r,
        ),
{
    let t = if ticks < 0 {
        0
    } else {
        ticks
    };
    request_for(exclusive_tidal_mode, source_ids, MediaCommand::ChangePlaybackPosition(t))
}

/// The listed sessions other than the current one, in listed order.
pub open spec fn other_sessions(current: Seq<char>, ids: Seq<Seq<char>>, n: int) -> Seq<usize>
    decreases n,
{
    if n <= 0 {
        seq![]
    } else if ids[n - 1] != current {
        other_sessions(current, ids, n - 1).push((n - 1) as usize)
    } else {
        other_sessions(current, ids, n - 1)
    }
}

/// The sessions to pause so that only the current one plays: every listed session
/// whose app id differs from the current session's.
pub fn sessions_to_pause(current_id: &str, source_ids: &Vec<String>) -> (r: Vec<usize>)
    ensures
        r@ == other_sessions(current_id@, strings_view(source_ids@), source_ids@.len() as int),
{
    let mut r: Vec<usize> = Vec::new();
    let mut i: usize = 0;
    while i < source_ids.len()
        invariant
            i <= source_ids@.len(),
            r@ == other_sessions(current_id@, strings_view(source_ids@), i as int),
        decreases source_ids@.len() - i,
    {
        if !text::str_eq(source_ids[i].as_str(), current_id) {
            r.push(i);
        }
        i = i + 1;
    }
    r
}

} // verus!
