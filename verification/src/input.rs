//! Which flyout a key press asks for: media and volume keys for the media flyout,
//! Caps/Num/Scroll Lock and Insert for the lock-keys flyout.
use vstd::prelude::*;
use crate::text;

verus! {

/// The key press asks for the media flyout.
pub const INPUT_ACTION_SHOW_MEDIA_FLYOUT: u32 = 1;
/// The key press was Caps Lock.
pub const INPUT_ACTION_LOCK_CAPS: u32 = 2;
/// The key press was Num Lock.
pub const INPUT_ACTION_LOCK_NUM: u32 = 4;
/// The key press was Scroll Lock.
pub const INPUT_ACTION_LOCK_SCROLL: u32 = 8;
/// The key press was Insert.
pub const INPUT_ACTION_LOCK_INSERT: u32 = 16;

/// Which key presses the keyboard hook reacts to.
#[derive(Clone, Copy, Debug, PartialEq, Eq, Structural)]
pub struct InputConfig {
    pub media_flyout_enabled: bool,
    pub volume_keys_excluded: bool,
    pub lock_keys_enabled: bool,
    pub lock_insert_enabled: bool,
}

impl InputConfig {
    /// The hook's configuration before any settings are applied: the media flyout and
    /// the lock keys (Insert included) on, volume keys not excluded.
    pub fn new() -> (c: Self)
        ensures
            c == (InputConfig {
                media_flyout_enabled: true,
                volume_keys_excluded: false,
                lock_keys_enabled: true,
                lock_insert_enabled: true,
            }),
    {
        InputConfig {
            media_flyout_enabled: true,
            volume_keys_excluded: false,
            lock_keys_enabled: true,
            lock_insert_enabled: true,
        }
    }
}

/// Replaces the hook's configuration.
pub fn update_input_config(
    config: &mut InputConfig,
    media_flyout_enabled: bool,
    volume_keys_excluded: bool,
    lock_keys_enabled: bool,
    lock_insert_enabled: bool,
)
    ensures
        *final(config) == (InputConfig {
            media_flyout_enabled,
            volume_keys_excluded,
            lock_keys_enabled,
            lock_insert_enabled,
        }),
{
    *config = InputConfig {
        media_flyout_enabled,
        volume_keys_excluded,
        lock_keys_enabled,
        lock_insert_enabled,
    };
}

/// The virtual-key code's low 16 bits, as the hook compares them.
pub open spec fn key16(vk_code: i32) -> u16 {
    vk_code as u16
}

/// The flags a key press raises: the media flyout for the media keys (`0xB0..=0xB3`)
/// and, unless excluded, the volume keys (`0xAD..=0xAF`), when the media flyout is on;
/// with the lock keys on, Caps Lock (`0x14`), Num Lock (`0x90`), Scroll Lock (`0x91`)
/// and, when enabled, Insert (`0x2D`) raise their own flag.
pub open spec fn action_flags(c: InputConfig, vk_code: i32) -> u32 {
    let vk = key16(vk_code);
    let is_media = 0xB0 <= vk <= 0xB3;
    let is_volume = 0xAD <= vk <= 0xAF;
    let media: u32 = if c.media_flyout_enabled && (is_media || (is_volume
        && !c.volume_keys_excluded)) {
        INPUT_ACTION_SHOW_MEDIA_FLYOUT
    } else {
        0
    };
    let lock: u32 = if !c.lock_keys_enabled {
        0
    } else if vk == 0x14 {
        INPUT_ACTION_LOCK_CAPS
    } else if vk == 0x90 {
        INPUT_ACTION_LOCK_NUM
    } else if vk == 0x91 {
        INPUT_ACTION_LOCK_SCROLL
    } else if vk == 0x2D && c.lock_insert_enabled {
        INPUT_ACTION_LOCK_INSERT
    } else {
        0
    };
    (media + lock) as u32
}

/// The flags a key press raises (see `action_flags`).
pub fn get_keyboard_action_flags(config: &InputConfig, vk_code: i32) -> (flags: u32)
    ensures
        flags == action_flags(*config, vk_code),
{
    let vk = vk_code as u16;
    let is_media = 0xB0 <= vk && vk <= 0xB3;
    let is_volume = 0xAD <= vk && vk <= 0xAF;
    let media: u32 = if config.media_flyout_enabled && (is_media || (is_volume
        && !config.volume_keys_excluded)) {
        INPUT_ACTION_SHOW_MEDIA_FLYOUT
    } else {
        0
    };
    let lock: u32 = if !config.lock_keys_enabled {
        0
    } else if vk == 0x14 {
        INPUT_ACTION_LOCK_CAPS
    } else if vk == 0x90 {
        INPUT_ACTION_LOCK_NUM
    } else if vk == 0x91 {
        INPUT_ACTION_LOCK_SCROLL
    } else if vk == 0x2D && config.lock_insert_enabled {
        INPUT_ACTION_LOCK_INSERT
    } else {
        0
    };
    media + lock
}

/// `"On"` or `"Off"`.
pub open spec fn on_off(on: bool) -> Seq<char> {
    if on { "On"@ } else { "Off"@ }
}

/// The lock-keys flyout for raised flags: the title and whether the key is now on.
/// Caps, Num and Scroll Lock report their toggle state `is_on`; Insert reports
/// `Insert Pressed`, on. Flags without a lock key give no flyout.
pub open spec fn lock_flyout(flags: u32, is_on: bool) -> Option<(Seq<char>, bool)> {
    if flags & INPUT_ACTION_LOCK_CAPS != 0 {
        Some(("Caps Lock "@ + on_off(is_on), is_on))
    } else if flags & INPUT_ACTION_LOCK_NUM != 0 {
        Some(("Num Lock "@ + on_off(is_on), is_on))
    } else if flags & INPUT_ACTION_LOCK_SCROLL != 0 {
        Some(("Scroll Lock "@ + on_off(is_on), is_on))
    } else if flags & INPUT_ACTION_LOCK_INSERT != 0 {
        Some(("Insert Pressed"@, true))
    } else {
        None
    }
}

fn titled(prefix: &str, is_on: bool) -> (s: String)
    ensures
        s@ == prefix@ + on_off(is_on),
{
    let mut v = text::chars_of(prefix);
    text::push_str_chars(&mut v, if is_on { "On" } else { "Off" });
    text::string_from_chars(&v)
}

/// The lock-keys flyout for a key press's flags (see `lock_flyout`); `is_on` is the
/// pressed key's toggle state after the press.
pub fn resolve_lock_action(flags: u32, is_on: bool) -> (r: Option<(String, bool)>)
    ensures
        match r {
            Some((t, on)) => lock_flyout(flags, is_on) == Some((t@, on)),
            None => lock_flyout(flags, is_on) is None,
        },
{
    if flags & INPUT_ACTION_LOCK_CAPS != 0 {
        return Some((titled("Caps Lock ", is_on), is_on));
    }
    if flags & INPUT_ACTION_LOCK_NUM != 0 {
        return Some((titled("Num Lock ", is_on), is_on));
    }
    if flags & INPUT_ACTION_LOCK_SCROLL != 0 {
        return Some((titled("Scroll Lock ", is_on), is_on));
    }
    if flags & INPUT_ACTION_LOCK_INSERT != 0 {
        return Some(("Insert Pressed".to_owned(), true));
    }
    None
}

/// With the lock keys on, pressing Caps Lock shows the Caps Lock flyout with the key's
/// new state, whatever else is configured; with them off, a key press never shows the
/// lock-keys flyout.
pub proof fn lemma_lock_keys_flyout(c: InputConfig, is_on: bool)
    ensures
        c.lock_keys_enabled ==> lock_flyout(action_flags(c, 0x14), is_on) == Some((
            "Caps Lock "@ + on_off(is_on),
            is_on,
        )),
        forall|vk: i32| !c.lock_keys_enabled ==> #[trigger] lock_flyout(action_flags(c, vk), is_on) is None,
{
    let f = action_flags(c, 0x14);
    assert(key16(0x14) == 0x14) by (bit_vector);
    if c.lock_keys_enabled {
        assert(f == 2);
        assert(2u32 & 2u32 != 0) by (bit_vector);
    }
    assert forall|vk: i32| !c.lock_keys_enabled implies #[trigger] lock_flyout(action_flags(c, vk), is_on) is None by {
        let g = action_flags(c, vk);
        assert(g == 0 || g == 1);
        assert(0u32 & 2u32 == 0 && 0u32 & 4u32 == 0 && 0u32 & 8u32 == 0 && 0u32 & 16u32 == 0) by (bit_vector);
        assert(1u32 & 2u32 == 0 && 1u32 & 4u32 == 0 && 1u32 & 8u32 == 0 && 1u32 & 16u32 == 0) by (bit_vector);
    }
}

/// The low-level keyboard hook passes a key on to the worker only for a key press
/// (`WM_KEYDOWN` `0x100` or `WM_SYSKEYDOWN` `0x104`) with a non-negative hook code.
pub fn forwards_key_press(hook_code: i32, message: u32) -> (r: bool)
    ensures
        r == (hook_code >= 0 && (message == 0x100 || message == 0x104)),
{
    hook_code >= 0 && (message == 0x100 || message == 0x104)
}


/// With the media flyout on, every media key (`0xB0..=0xB3`: next, previous, stop,
/// play/pause) asks for the media flyout and nothing else, and so does every volume key
/// (`0xAD..=0xAF`: mute, down, up) unless volume keys are excluded, when it asks for
/// nothing; with the media flyout off these keys ask for nothing.
pub proof fn lemma_media_keys_show_flyout(c: InputConfig, vk_code: i32)
    requires
        0xAD <= vk_code <= 0xB3,
    ensures
        0xB0 <= vk_code <= 0xB3 ==> action_flags(c, vk_code) == if c.media_flyout_enabled {
            INPUT_ACTION_SHOW_MEDIA_FLYOUT
        } else {
            0
        },
        0xAD <= vk_code <= 0xAF ==> action_flags(c, vk_code) == if c.media_flyout_enabled
            && !c.volume_keys_excluded {
            INPUT_ACTION_SHOW_MEDIA_FLYOUT
        } else {
            0
        },
{
    assert(key16(vk_code) == vk_code) by (bit_vector)
        requires
            0xAD <= vk_code <= 0xB3,
    ;
}

} // verus!
