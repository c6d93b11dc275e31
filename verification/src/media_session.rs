//! The media session as the settings app reports it: the session record, its album
//! art as a `data:` URL, the album art as pixels, and the control commands it accepts.
use vstd::prelude::*;
use crate::error::AppError;
use crate::media::{MediaCommand, PlaybackStatus};
use crate::text;

use base64::Engine as _;

verus! {

/// The media session record that the settings window and widget receive.
#[derive(Clone, Debug)]
pub struct MediaSessionDto {
    pub title: String,
    pub artist: String,
    pub album_art_data_url: Option<String>,
    pub playback_status: String,
    pub can_play: bool,
    pub can_pause: bool,
    pub can_previous: bool,
    pub can_next: bool,
}

/// Which transport controls a session enables.
#[derive(Clone, Copy, Debug)]
pub struct ControlFlags {
    pub can_play: bool,
    pub can_pause: bool,
    pub can_previous: bool,
    pub can_next: bool,
}

/// The record reported when there is no session.
pub open spec fn is_empty_session(d: MediaSessionDto) -> bool {
    &&& d.title@ == "No media playing"@
    &&& d.artist@ == Seq::<char>::empty()
    &&& d.album_art_data_url is None
    &&& d.playback_status@ == "stopped"@
    &&& !d.can_play && !d.can_pause && !d.can_previous && !d.can_next
}

/// The record reported when there is no session: `No media playing`, stopped, no
/// controls.
pub fn empty_session() -> (d: MediaSessionDto)
    ensures
        is_empty_session(d),
{
    MediaSessionDto {
        title: "No media playing".to_owned(),
        artist: String::new(),
        album_art_data_url: None,
        playback_status: "stopped".to_owned(),
        can_play: false,
        can_pause: false,
        can_previous: false,
        can_next: false,
    }
}

/// The status text for a playback status: `playing`, `paused`, else `stopped`.
pub open spec fn status_text(status: Option<PlaybackStatus>) -> Seq<char> {
    match status {
        Some(PlaybackStatus::Playing) => "playing"@,
        Some(PlaybackStatus::Paused) => "paused"@,
        _ => "stopped"@,
    }
}

/// The record for a session: its title and artist (empty when they could not be read),
/// album art, status and enabled controls (all off when they could not be read). A
/// session with a blank title counts as `No media playing` and stopped.
pub open spec fn session_record(
    d: MediaSessionDto,
    title: Seq<char>,
    artist: Seq<char>,
    art: Option<Seq<char>>,
    status: Option<PlaybackStatus>,
    controls: Option<ControlFlags>,
) -> bool {
    let blank = text::is_blank(title);
    let c = match controls {
        Some(c) => c,
        None => ControlFlags { can_play: false, can_pause: false, can_previous: false, can_next: false },
    };
    &&& d.title@ == (if blank { "No media playing"@ } else { title })
    &&& d.artist@ == artist
    &&& match (d.album_art_data_url, art) {
        (Some(u), Some(a)) => u@ == a,
        (None, None) => true,
        _ => false,
    }
    &&& d.playback_status@ == (if blank { "stopped"@ } else { status_text(status) })
    &&& d.can_play == c.can_play && d.can_pause == c.can_pause
    &&& d.can_previous == c.can_previous && d.can_next == c.can_next
}

/// Builds the session record from what was read (see `session_record`).
pub fn media_session_dto(
    title: String,
    artist: String,
    album_art_data_url: Option<String>,
    status: Option<PlaybackStatus>,
    controls: Option<ControlFlags>,
) -> (d: MediaSessionDto)
    ensures
        session_record(
            d,
            title@,
            artist@,
            match album_art_data_url {
                Some(u) => Some(u@),
                None => None,
            },
            status,
            controls,
        ),
{
    let blank = text::str_is_blank(title.as_str());
    let c = match controls {
        Some(c) => c,
        None => ControlFlags { can_play: false, can_pause: false, can_previous: false, can_next: false },
    };
    let playback_status = if blank {
        "stopped".to_owned()
    } else {
        match status {
            Some(PlaybackStatus::Playing) => "playing".to_owned(),
            Some(PlaybackStatus::Paused) => "paused".to_owned(),
            _ => "stopped".to_owned(),
        }
    };
    MediaSessionDto {
        title: if blank {
            "No media playing".to_owned()
        } else {
            title
        },
        artist,
        album_art_data_url,
        playback_status,
        can_play: c.can_play,
        can_pause: c.can_pause,
        can_previous: c.can_previous,
        can_next: c.can_next,
    }
}

/// The session has something to show: a title that is neither blank nor
/// `No media playing`.
pub open spec fn has_media(d: MediaSessionDto) -> bool {
    !text::is_blank(d.title@) && d.title@ != "No media playing"@
}

/// Whether the session has something to show (see `has_media`).
pub fn session_has_media(media: &MediaSessionDto) -> (r: bool)
    ensures
        r == has_media(*media),
{
    !text::str_is_blank(media.title.as_str()) && !text::str_eq(
        media.title.as_str(),
        "No media playing",
    )
}

/// The base64 digit for a 6-bit value (RFC 4648 standard alphabet).
pub open spec fn b64_digit(v: int) -> char {
    if v < 26 {
        (('A' as int) + v) as char
    } else if v < 52 {
        (('a' as int) + v - 26) as char
    } else if v < 62 {
        (('0' as int) + v - 52) as char
    } else if v == 62 {
        '+'
    } else {
        '/'
    }
}

/// Standard base64 (RFC 4648 alphabet, `=` padding) of `b`: each 3 bytes become 4
/// digits, a final 1 or 2 bytes become 2 or 3 digits and padding.
pub open spec fn base64_standard(b: Seq<u8>) -> Seq<char>
    decreases b.len(),
{
    if b.len() == 0 {
        seq![]
    } else if b.len() == 1 {
        seq![b64_digit(b[0] as int / 4), b64_digit((b[0] as int % 4) * 16), '=', '=']
    } else if b.len() == 2 {
        seq![
            b64_digit(b[0] as int / 4),
            b64_digit((b[0] as int % 4) * 16 + b[1] as int / 16),
            b64_digit((b[1] as int % 16) * 4),
            '=',
        ]
    } else {
        seq![
            b64_digit(b[0] as int / 4),
            b64_digit((b[0] as int % 4) * 16 + b[1] as int / 16),
            b64_digit((b[1] as int % 16) * 4 + b[2] as int / 64),
            b64_digit(b[2] as int % 64),
        ] + base64_standard(b.skip(3))
    }
}

/// `base64::engine::general_purpose::STANDARD.encode`: the standard, padded base64 text
/// of the bytes, as RFC 4648 defines it.
#[verifier::external_body]
fn encode_base64(bytes: &Vec<u8>) -> (s: String)
    ensures
        s@ == base64_standard(bytes@),
{
    base64::engine::general_purpose::STANDARD.encode(bytes)
}

/// The `data:` URL of album art: its content type when that starts with `image/`
/// (`image/jpeg` otherwise), then `;base64,` and the bytes in standard base64.
pub open spec fn album_art_url(bytes: Seq<u8>, content_type: Option<Seq<char>>) -> Seq<char> {
    let ct = match content_type {
        Some(c) => if c.len() >= 6 && c.take(6) == "image/"@ {
            c
        } else {
            "image/jpeg"@
        },
        None => "image/jpeg"@,
    };
    "data:"@ + ct + ";base64,"@ + base64_standard(bytes)
}

/// The `data:` URL of album art (see `album_art_url`).
pub fn album_art_data_url(bytes: &Vec<u8>, content_type: Option<String>) -> (url: String)
    ensures
        url@ == album_art_url(
            bytes@,
            match content_type {
                Some(c) => Some(c@),
                None => None,
            },
        ),
{
    let ghost ct_view = match &content_type {
        Some(c) => Some(c@),
        None => None,
    };
    let prefix = text::chars_of("image/");
    proof {
        reveal_strlit("image/");
        assert(prefix@.len() == 6);
    }
    let ct: Vec<char> = match &content_type {
        Some(c) => {
            let cs = text::chars_of(c.as_str());
            if cs.len() >= 6 && text::match_at(&cs, &prefix, 0) {
                assert(cs@.take(6) =~= cs@.subrange(0, 6));
                cs
            } else {
                proof {
                    if cs@.len() >= 6 && cs@.take(6) == "image/"@ {
                        assert(cs@.take(6) =~= cs@.subrange(0, 6));
                    }
                }
                text::chars_of("image/jpeg")
            }
        },
        None => text::chars_of("image/jpeg"),
    };
    assert(ct@ == match ct_view {
        Some(c) => if c.len() >= 6 && c.take(6) == "image/"@ {
            c
        } else {
            "image/jpeg"@
        },
        None => "image/jpeg"@,
    });
    let mut out = text::chars_of("data:");
    text::push_chars(&mut out, &ct);
    text::push_str_chars(&mut out, ";base64,");
    let encoded = encode_base64(bytes);
    text::push_str_chars(&mut out, encoded.as_str());
    assert(out@ =~= album_art_url(bytes@, ct_view));
    text::string_from_chars(&out)
}

/// Album art decoded to pixels: width, height, and RGBA bytes row by row.
pub struct AlbumArtImage {
    pub width: u32,
    pub height: u32,
    pub rgba: Vec<u8>,
}

/// The image that `image` decodes from encoded bytes (its format guessed from the bytes)
/// as `(width, height, RGBA8 pixels)`, or `None` when it cannot decode them.
pub uninterp spec fn decoded_rgba8(bytes: Seq<u8>) -> Option<(u32, u32, Seq<u8>)>;

/// `image::ImageReader::new(Cursor::new(bytes)).with_guessed_format()?.decode()?.to_rgba8()`:
/// the decoded image's size and RGBA8 pixels, or `None` when the format cannot be
/// guessed or the bytes cannot be decoded. The result is named, not described.
#[verifier::external_body]
fn decode_rgba8(bytes: &Vec<u8>) -> (r: Option<AlbumArtImage>)
    ensures
        match r {
            Some(img) => decoded_rgba8(bytes@) == Some((img.width, img.height, img.rgba@)),
            None => decoded_rgba8(bytes@) is None,
        },
{
    let reader = image::ImageReader::new(std::io::Cursor::new(bytes.as_slice()));
    let rgba = reader.with_guessed_format().ok()?.decode().ok()?.to_rgba8();
    let (width, height) = rgba.dimensions();
    Some(AlbumArtImage { width, height, rgba: rgba.into_raw() })
}

/// The album art to show: the decoded image when there are bytes that decode.
pub fn decode_album_art(bytes: Option<&Vec<u8>>) -> (r: Option<AlbumArtImage>)
    ensures
        match bytes {
            None => r is None,
            Some(b) => match r {
                Some(img) => decoded_rgba8(b@) == Some((img.width, img.height, img.rgba@)),
                None => decoded_rgba8(b@) is None,
            },
        },
{
    match bytes {
        None => None,
        Some(b) => decode_rgba8(b),
    }
}

/// The command a media control action names, once there is a session to send it to:
/// `playPause`, `play`, `pause`, `next`, `previous`. Without a session the answer is
/// `media.no_session`; an unknown action is `media.invalid_action`.
pub open spec fn control_result(action: Seq<char>, has_session: bool, r: Result<MediaCommand, AppError>) -> bool {
    if !has_session {
        r matches Err(e) && e.code@ == "media.no_session"@ && e.message_ko@
            == "제어할 수 있는 미디어 세션이 없습니다."@ && e.detail is None
    } else if action == "playPause"@ {
        r == Ok::<MediaCommand, AppError>(MediaCommand::TogglePlayPause)
    } else if action == "play"@ {
        r == Ok::<MediaCommand, AppError>(MediaCommand::Play)
    } else if action == "pause"@ {
        r == Ok::<MediaCommand, AppError>(MediaCommand::Pause)
    } else if action == "next"@ {
        r == Ok::<MediaCommand, AppError>(MediaCommand::SkipNext)
    } else if action == "previous"@ {
        r == Ok::<MediaCommand, AppError>(MediaCommand::SkipPrevious)
    } else {
        r matches Err(e) && e.code@ == "media.invalid_action"@ && e.message_ko@
            == "지원하지 않는 미디어 제어 명령입니다."@ && e.detail is None
    }
}

/// The command for a media control action (see `control_result`).
pub fn control_command(action: &str, has_session: bool) -> (r: Result<MediaCommand, AppError>)
    ensures
        control_result(action@, has_session, r),
{
    if !has_session {
        return Err(AppError::new("media.no_session", "제어할 수 있는 미디어 세션이 없습니다."));
    }
    if text::str_eq(action, "playPause") {
        Ok(MediaCommand::TogglePlayPause)
    } else if text::str_eq(action, "play") {
        Ok(MediaCommand::Play)
    } else if text::str_eq(action, "pause") {
        Ok(MediaCommand::Pause)
    } else if text::str_eq(action, "next") {
        Ok(MediaCommand::SkipNext)
    } else if text::str_eq(action, "previous") {
        Ok(MediaCommand::SkipPrevious)
    } else {
        Err(AppError::new("media.invalid_action", "지원하지 않는 미디어 제어 명령입니다."))
    }
}

/// The outcome of a control the session answered: accepted, or `media.control.rejected`.
pub fn control_outcome(accepted: bool) -> (r: Result<(), AppError>)
    ensures
        accepted ==> r is Ok,
        !accepted ==> (r matches Err(e) && e.code@ == "media.control.rejected"@ && e.message_ko@
            == "현재 플레이어가 이 미디어 제어 명령을 거부했습니다."@ && e.detail is None),
{
    if accepted {
        Ok(())
    } else {
        Err(AppError::new("media.control.rejected", "현재 플레이어가 이 미디어 제어 명령을 거부했습니다."))
    }
}

} // verus!
