//! Why importing the legacy document that was just written for some settings gives
//! those settings back: each line of the document is `  <Tag>text</Tag>`, no two lines
//! share a tag, and every text reads back as the value it was printed from.
use vstd::prelude::*;
use crate::text;
use crate::legacy::{imported_settings, clamped, default_settings_dto, entry_line, entry_lines, legacy_header, legacy_entries, legacy_document, language_text, SettingsDto, legacy_entries_0, legacy_entries_1, legacy_entries_2, legacy_entries_3, legacy_entries_4, legacy_entries_5, legacy_entries_6, legacy_entries_7};
use crate::saved_settings::{lemma_int_text_lt_free, lemma_bool_chars_lt_free};
use crate::settings_xml::{open_tag, close_tag, after_open, spec_tag_value};
use crate::xml_entries::{
    plain_tag, lt_free, tag_pattern, lemma_tags_are_patterns, lemma_match_shape,
    lemma_patterns_same_start, lemma_close_after_text,
};

verus! {

/// Where the line `  <t>v</t>` has its `<`: before its opening tag and before its
/// closing tag, and nowhere else.
proof fn lemma_line_marks(t: Seq<char>, v: Seq<char>)
    requires
        plain_tag(t),
        lt_free(v),
    ensures
        entry_line(t, v).len() == 2 * t.len() + v.len() + 8,
        entry_line(t, v)[0] == ' ',
        entry_line(t, v)[1] == ' ',
        text::matches_at(entry_line(t, v), open_tag(t), 2),
        text::matches_at(entry_line(t, v), close_tag(t), (4 + t.len() + v.len()) as int),
        forall|k: int|
            0 <= k < entry_line(t, v).len() && #[trigger] entry_line(t, v)[k] == '<' ==> k == 2 || k == (4
                + t.len() + v.len()) as int,
        entry_line(t, v).subrange((4 + t.len()) as int, entry_line(t, v).len() as int) == v + close_tag(t) + seq![
            '\n',
        ],
{
    let l = entry_line(t, v);
    let c0 = (4 + t.len() + v.len()) as int;
    assert(l.subrange(2, 2 + open_tag(t).len() as int) =~= open_tag(t));
    assert(l.subrange(c0, c0 + close_tag(t).len() as int) =~= close_tag(t));
    assert forall|k: int| 0 <= k < l.len() && #[trigger] l[k] == '<' implies k == 2 || k == c0 by {
        if 3 <= k < 3 + t.len() {
            assert(l[k] == t[k - 3]);
        } else if 4 + t.len() <= k < c0 {
            assert(l[k] == v[k - 4 - t.len()]);
        } else if c0 + 2 <= k < c0 + 2 + t.len() {
            assert(l[k] == t[k - c0 - 2]);
        }
    }
    assert(l.subrange((4 + t.len()) as int, l.len() as int) =~= v + close_tag(t) + seq!['\n']);
}

/// A `<w>` that starts before a line `  <t>v</t>` ends before it.
proof fn lemma_no_match_across_line(x: Seq<char>, l: Seq<char>, w: Seq<char>, j: int)
    requires
        plain_tag(w),
        l.len() >= 3,
        l[0] == ' ',
        l[1] == ' ',
        l[2] == '<',
        0 <= j < x.len(),
        text::matches_at(x + l, open_tag(w), j),
    ensures
        j + open_tag(w).len() <= x.len(),
{
    let s = x + l;
    let ow = open_tag(w);
    lemma_tags_are_patterns(w);
    let n = x.len() as int;
    if j + ow.len() > n {
        let e = j + ow.len() - 1;
        if e >= n + 2 {
            assert(s[n + 2] == l[2]);
            lemma_match_shape(s, ow, j, n + 2);
        } else {
            assert(s.subrange(j, j + ow.len())[ow.len() - 1] == s[e]);
            assert(s[e] == l[e - n]);
        }
    }
}

/// Appending the line of another tag adds no `<w>`.
proof fn lemma_line_adds_no_open(x: Seq<char>, t: Seq<char>, v: Seq<char>, w: Seq<char>)
    requires
        plain_tag(t),
        plain_tag(w),
        lt_free(v),
        w != t,
        !text::has_match(x, open_tag(w)),
    ensures
        !text::has_match(x + entry_line(t, v), open_tag(w)),
{
    let l = entry_line(t, v);
    let s = x + l;
    let ow = open_tag(w);
    let n = x.len() as int;
    lemma_line_marks(t, v);
    lemma_tags_are_patterns(w);
    lemma_tags_are_patterns(t);
    assert(l[2] == open_tag(t)[0]) by {
        assert(l.subrange(2, 2 + open_tag(t).len() as int)[0] == l[2]);
    }
    if text::has_match(s, ow) {
        let j = choose|j: int| text::matches_at(s, ow, j);
        if j < n {
            lemma_no_match_across_line(x, l, w, j);
            assert(s.subrange(j, j + ow.len()) =~= x.subrange(j, j + ow.len()));
            assert(text::matches_at(x, ow, j));
        } else {
            lemma_match_shape(s, ow, j, j);
            assert(l[j - n] == s[j]);
            let c0 = (4 + t.len() + v.len()) as int;
            if j - n == 2 {
                assert(s.subrange(j, j + open_tag(t).len()) =~= l.subrange(2, 2 + open_tag(t).len() as int));
                lemma_patterns_same_start(s, ow, open_tag(t), j);
                assert(w =~= ow.subrange(1, ow.len() - 1));
                assert(t =~= open_tag(t).subrange(1, open_tag(t).len() - 1));
            } else {
                assert(j - n == c0);
                assert(s.subrange(j, j + close_tag(t).len()) =~= l.subrange(c0, c0 + close_tag(t).len()));
                lemma_patterns_same_start(s, ow, close_tag(t), j);
                assert(ow[1] == close_tag(t)[1]);
            }
        }
    }
}

/// In `a + line + rest`, where `a` holds no `<t>`, the entry of `t` is the line's text.
proof fn lemma_line_read_back(a: Seq<char>, t: Seq<char>, v: Seq<char>, rest: Seq<char>)
    requires
        plain_tag(t),
        lt_free(v),
        !text::has_match(a, open_tag(t)),
    ensures
        spec_tag_value(a + entry_line(t, v) + rest, t) == Some(text::trim(v)),
{
    let l = entry_line(t, v);
    let x = a + l;
    let s = x + rest;
    let ot = open_tag(t);
    let n = a.len() as int;
    lemma_line_marks(t, v);
    lemma_tags_are_patterns(t);
    assert(s.subrange(n + 2, n + 2 + ot.len()) =~= l.subrange(2, 2 + ot.len() as int));
    assert(l[2] == ot[0]) by {
        assert(l.subrange(2, 2 + ot.len() as int)[0] == l[2]);
    }
    assert forall|j: int| 0 <= j < n + 2 implies !text::matches_at(s, ot, j) by {
        if text::matches_at(s, ot, j) {
            if j < n {
                assert(a + (l + rest) =~= s);
                lemma_no_match_across_line(a, l + rest, t, j);
                assert(s.subrange(j, j + ot.len()) =~= a.subrange(j, j + ot.len()));
                assert(text::matches_at(a, ot, j));
            } else {
                lemma_match_shape(s, ot, j, j);
                assert(s[j] == l[j - n]);
            }
        }
    }
    text::lemma_first_match_unique(s, ot, n + 2);
    let cs = n + 2 + ot.len();
    let tail = seq!['\n'] + rest;
    assert(after_open(s, t) =~= v + close_tag(t) + tail);
    lemma_close_after_text(v, t, tail);
    assert(s.subrange(cs, cs + v.len()) =~= v);
}

/// Where the legacy header has its `<` and `>`.
proof fn lemma_header_marks()
    ensures
        legacy_header().len() == 153,
        forall|k: int|
            0 <= k < 153 ==> {
                &&& #[trigger] legacy_header()[k] == '<' ==> k == 0 || k == 39
                &&& (0 < k < 37 || 39 < k < 151) ==> legacy_header()[k] != '>'
            },
{
    reveal_strlit(
        "<?xml version=\"1.0\" encoding=\"utf-8\"?>\n<UserSettings xmlns:xsi=\"http://www.w3.org/2001/XMLSchema-instance\" xmlns:xsd=\"http://www.w3.org/2001/XMLSchema\">\n",
    );
}

/// The legacy header holds no `<w>` for a plain tag `w` shorter than its XML declaration.
proof fn lemma_header_lacks(w: Seq<char>)
    requires
        plain_tag(w),
        w.len() < 36,
    ensures
        !text::has_match(legacy_header(), open_tag(w)),
{
    let h = legacy_header();
    let ow = open_tag(w);
    lemma_header_marks();
    lemma_tags_are_patterns(w);
    if text::has_match(h, ow) {
        let i = choose|i: int| text::matches_at(h, ow, i);
        lemma_match_shape(h, ow, i, i);
        let e = i + ow.len() - 1;
        assert(h.subrange(i, i + ow.len())[ow.len() - 1] == h[e]);
    }
}

/// Every entry names a plain tag shorter than the XML declaration and holds text
/// without `<`.
pub open spec fn line_entries(entries: Seq<(Seq<char>, Seq<char>)>) -> bool {
    forall|i: int|
        0 <= i < entries.len() ==> {
            &&& plain_tag(#[trigger] entries[i].0)
            &&& entries[i].0.len() < 36
            &&& lt_free(entries[i].1)
        }
}

/// None of the first `n` entries is `w`'s.
pub open spec fn absent_before(entries: Seq<(Seq<char>, Seq<char>)>, n: int, w: Seq<char>) -> bool {
    forall|j: int| 0 <= j < n ==> #[trigger] entries[j].0 != w
}

/// The header and the first `k` lines hold no `<w>` when none of those lines is `w`'s.
proof fn lemma_prefix_lacks(entries: Seq<(Seq<char>, Seq<char>)>, k: int, w: Seq<char>)
    requires
        line_entries(entries),
        0 <= k <= entries.len(),
        plain_tag(w),
        w.len() < 36,
        absent_before(entries, k, w),
    ensures
        !text::has_match(legacy_header() + entry_lines(entries.take(k)), open_tag(w)),
    decreases k,
{
    if k == 0 {
        lemma_header_lacks(w);
        assert(legacy_header() + entry_lines(entries.take(0)) =~= legacy_header());
    } else {
        lemma_prefix_lacks(entries, k - 1, w);
        let e = entries[k - 1];
        assert(entries.take(k).drop_last() =~= entries.take(k - 1));
        assert(entries.take(k).last() == e);
        assert(plain_tag(entries[k - 1].0) && lt_free(entries[k - 1].1));
        assert(e.0 != w);
        lemma_line_adds_no_open(legacy_header() + entry_lines(entries.take(k - 1)), e.0, e.1, w);
        assert(legacy_header() + entry_lines(entries.take(k)) =~= legacy_header() + entry_lines(
            entries.take(k - 1),
        ) + entry_line(e.0, e.1));
    }
}

/// In the legacy document for a list of entries, an entry whose tag no earlier entry has
/// reads back as its text.
pub proof fn lemma_document_read_back(entries: Seq<(Seq<char>, Seq<char>)>, i: int, footer: Seq<char>)
    requires
        line_entries(entries),
        0 <= i < entries.len(),
        absent_before(entries, i, entries[i].0),
    ensures
        spec_tag_value(legacy_header() + entry_lines(entries) + footer, entries[i].0) == Some(
            text::trim(entries[i].1),
        ),
{
    let e = entries[i];
    let front = entries.take(i + 1);
    let back = entries.skip(i + 1);
    assert(entries =~= front + back);
    crate::legacy::lemma_entry_lines_concat(front, back);
    assert(front.drop_last() =~= entries.take(i));
    assert(front.last() == e);
    lemma_prefix_lacks(entries, i, e.0);
    let a = legacy_header() + entry_lines(entries.take(i));
    let rest = entry_lines(back) + footer;
    assert(legacy_header() + entry_lines(entries) + footer =~= a + entry_line(e.0, e.1) + rest);
    lemma_line_read_back(a, e.0, e.1, rest);
}


/// Joining lists keeps every entry well formed.
proof fn lemma_line_entries_join(a: Seq<(Seq<char>, Seq<char>)>, b: Seq<(Seq<char>, Seq<char>)>)
    requires
        line_entries(a),
        line_entries(b),
    ensures
        line_entries(a + b),
{
    assert forall|i: int| 0 <= i < (a + b).len() implies {
        &&& plain_tag(#[trigger] (a + b)[i].0)
        &&& (a + b)[i].0.len() < 36
        &&& lt_free((a + b)[i].1)
    } by {
        if i < a.len() {
            assert((a + b)[i] == a[i]);
        } else {
            assert((a + b)[i] == b[i - a.len()]);
        }
    }
}

/// `w` missing from all of `a` and from the first `r` entries of `b` is missing from the
/// first `a.len() + r` entries of `a + b`.
proof fn lemma_absent_join(a: Seq<(Seq<char>, Seq<char>)>, b: Seq<(Seq<char>, Seq<char>)>, r: int, w: Seq<char>)
    requires
        absent_before(a, a.len() as int, w),
        absent_before(b, r, w),
        0 <= r <= b.len(),
    ensures
        absent_before(a + b, a.len() + r, w),
{
    assert forall|j: int| 0 <= j < a.len() + r implies #[trigger] (a + b)[j].0 != w by {
        if j < a.len() {
            assert((a + b)[j] == a[j]);
        } else {
            assert((a + b)[j] == b[j - a.len()]);
        }
    }
}

/// Appending entries keeps what the first `n` entries lack.
proof fn lemma_absent_extend(a: Seq<(Seq<char>, Seq<char>)>, b: Seq<(Seq<char>, Seq<char>)>, n: int, w: Seq<char>)
    requires
        absent_before(a, n, w),
        0 <= n <= a.len(),
    ensures
        absent_before(a + b, n, w),
{
    assert forall|j: int| 0 <= j < n implies #[trigger] (a + b)[j].0 != w by {
        assert((a + b)[j] == a[j]);
    }
}

proof fn lemma_chunk_0_lines(s: SettingsDto)
    ensures
        line_entries(legacy_entries_0(s)),
{
    reveal_strlit("CompactLayout");
    reveal_strlit("FlyoutSelectedMonitor");
    reveal_strlit("Position");
    reveal_strlit("FlyoutAnimationSpeed");
    reveal_strlit("PlayerInfoEnabled");
    reveal_strlit("RepeatEnabled");
    reveal_strlit("ShuffleEnabled");
    reveal_strlit("Startup");
    assert("CompactLayout"@.len() == 13);
    assert("FlyoutSelectedMonitor"@.len() == 21);
    assert("Position"@.len() == 8);
    assert("FlyoutAnimationSpeed"@.len() == 20);
    assert("PlayerInfoEnabled"@.len() == 17);
    assert("RepeatEnabled"@.len() == 13);
    assert("ShuffleEnabled"@.len() == 14);
    assert("Startup"@.len() == 7);
    lemma_int_text_lt_free(s.flyout_selected_monitor as int);
    lemma_int_text_lt_free(s.position as int);
    lemma_int_text_lt_free(s.flyout_animation_speed as int);
    lemma_bool_chars_lt_free(true);
    lemma_bool_chars_lt_free(false);
}

proof fn lemma_chunk_1_lines(s: SettingsDto)
    ensures
        line_entries(legacy_entries_1(s)),
{
    reveal_strlit("MediaFlyoutAlwaysDisplay");
    reveal_strlit("Duration");
    reveal_strlit("NextUpEnabled");
    reveal_strlit("NextUpDuration");
    reveal_strlit("nIconLeftClick");
    reveal_strlit("CenterTitleArtist");
    reveal_strlit("FlyoutAnimationEasingStyle");
    reveal_strlit("LockKeysEnabled");
    assert("MediaFlyoutAlwaysDisplay"@.len() == 24);
    assert("Duration"@.len() == 8);
    assert("NextUpEnabled"@.len() == 13);
    assert("NextUpDuration"@.len() == 14);
    assert("nIconLeftClick"@.len() == 14);
    assert("CenterTitleArtist"@.len() == 17);
    assert("FlyoutAnimationEasingStyle"@.len() == 26);
    assert("LockKeysEnabled"@.len() == 15);
    lemma_int_text_lt_free(s.duration as int);
    lemma_int_text_lt_free(s.next_up_duration as int);
    lemma_int_text_lt_free(s.nicon_left_click as int);
    lemma_int_text_lt_free(s.flyout_animation_easing_style as int);
    lemma_bool_chars_lt_free(true);
    lemma_bool_chars_lt_free(false);
}

proof fn lemma_chunk_2_lines(s: SettingsDto)
    ensures
        line_entries(legacy_entries_2(s)),
{
    reveal_strlit("LockKeysDuration");
    reveal_strlit("AppTheme");
    reveal_strlit("MediaFlyoutEnabled");
    reveal_strlit("MediaFlyoutVolumeKeysExcluded");
    reveal_strlit("nIconSymbol");
    reveal_strlit("NIconHide");
    reveal_strlit("DisableIfFullscreen");
    reveal_strlit("LockKeysBoldUI");
    assert("LockKeysDuration"@.len() == 16);
    assert("AppTheme"@.len() == 8);
    assert("MediaFlyoutEnabled"@.len() == 18);
    assert("MediaFlyoutVolumeKeysExcluded"@.len() == 29);
    assert("nIconSymbol"@.len() == 11);
    assert("NIconHide"@.len() == 9);
    assert("DisableIfFullscreen"@.len() == 19);
    assert("LockKeysBoldUI"@.len() == 14);
    lemma_int_text_lt_free(s.lock_keys_duration as int);
    lemma_int_text_lt_free(s.app_theme as int);
    lemma_bool_chars_lt_free(true);
    lemma_bool_chars_lt_free(false);
}

proof fn lemma_chunk_3_lines(s: SettingsDto)
    ensures
        line_entries(legacy_entries_3(s)),
{
    reveal_strlit("LockKeysMonitorPreference");
    reveal_strlit("LastKnownVersion");
    reveal_strlit("ExclusiveTidalMode");
    reveal_strlit("SeekbarEnabled");
    reveal_strlit("PauseOtherSessionsEnabled");
    reveal_strlit("LockKeysInsertEnabled");
    reveal_strlit("MediaFlyoutBackgroundBlur");
    reveal_strlit("MediaFlyoutAcrylicWindowEnabled");
    assert("LockKeysMonitorPreference"@.len() == 25);
    assert("LastKnownVersion"@.len() == 16);
    assert("ExclusiveTidalMode"@.len() == 18);
    assert("SeekbarEnabled"@.len() == 14);
    assert("PauseOtherSessionsEnabled"@.len() == 25);
    assert("LockKeysInsertEnabled"@.len() == 21);
    assert("MediaFlyoutBackgroundBlur"@.len() == 25);
    assert("MediaFlyoutAcrylicWindowEnabled"@.len() == 31);
    lemma_int_text_lt_free(s.lock_keys_monitor_preference as int);
    reveal_strlit("debug");
    lemma_int_text_lt_free(s.media_flyout_background_blur as int);
    lemma_bool_chars_lt_free(true);
    lemma_bool_chars_lt_free(false);
}

proof fn lemma_chunk_4_lines(s: SettingsDto)
    ensures
        line_entries(legacy_entries_4(s)),
{
    reveal_strlit("NextUpAcrylicWindowEnabled");
    reveal_strlit("LockKeysAcrylicWindowEnabled");
    reveal_strlit("AppLanguage");
    reveal_strlit("TaskbarWidgetEnabled");
    reveal_strlit("TaskbarWidgetSelectedMonitor");
    reveal_strlit("TaskbarWidgetPosition");
    reveal_strlit("TaskbarWidgetPadding");
    reveal_strlit("TaskbarWidgetManualPadding");
    assert("NextUpAcrylicWindowEnabled"@.len() == 26);
    assert("LockKeysAcrylicWindowEnabled"@.len() == 28);
    assert("AppLanguage"@.len() == 11);
    assert("TaskbarWidgetEnabled"@.len() == 20);
    assert("TaskbarWidgetSelectedMonitor"@.len() == 28);
    assert("TaskbarWidgetPosition"@.len() == 21);
    assert("TaskbarWidgetPadding"@.len() == 20);
    assert("TaskbarWidgetManualPadding"@.len() == 26);
    reveal_strlit("ko");
    reveal_strlit("en-US");
    reveal_strlit("system");
    lemma_int_text_lt_free(s.taskbar_widget_selected_monitor as int);
    lemma_int_text_lt_free(s.taskbar_widget_position as int);
    lemma_int_text_lt_free(s.taskbar_widget_manual_padding as int);
    lemma_bool_chars_lt_free(true);
    lemma_bool_chars_lt_free(false);
}

proof fn lemma_chunk_5_lines(s: SettingsDto)
    ensures
        line_entries(legacy_entries_5(s)),
{
    reveal_strlit("TaskbarWidgetClickable");
    reveal_strlit("TaskbarWidgetCloseableFlyout");
    reveal_strlit("TaskbarWidgetBackgroundBlur");
    reveal_strlit("TaskbarWidgetHideCompletely");
    reveal_strlit("TaskbarWidgetControlsEnabled");
    reveal_strlit("TaskbarWidgetControlsPosition");
    reveal_strlit("TaskbarWidgetAnimated");
    reveal_strlit("TaskbarVisualizerEnabled");
    assert("TaskbarWidgetClickable"@.len() == 22);
    assert("TaskbarWidgetCloseableFlyout"@.len() == 28);
    assert("TaskbarWidgetBackgroundBlur"@.len() == 27);
    assert("TaskbarWidgetHideCompletely"@.len() == 27);
    assert("TaskbarWidgetControlsEnabled"@.len() == 28);
    assert("TaskbarWidgetControlsPosition"@.len() == 29);
    assert("TaskbarWidgetAnimated"@.len() == 21);
    assert("TaskbarVisualizerEnabled"@.len() == 24);
    lemma_int_text_lt_free(s.taskbar_widget_controls_position as int);
    lemma_bool_chars_lt_free(true);
    lemma_bool_chars_lt_free(false);
}

proof fn lemma_chunk_6_lines(s: SettingsDto)
    ensures
        line_entries(legacy_entries_6(s)),
{
    reveal_strlit("TaskbarVisualizerPosition");
    reveal_strlit("TaskbarVisualizerClickable");
    reveal_strlit("TaskbarVisualizerBarCount");
    reveal_strlit("TaskbarVisualizerCenteredBars");
    reveal_strlit("TaskbarVisualizerBaseline");
    reveal_strlit("TaskbarVisualizerAudioSensitivity");
    reveal_strlit("TaskbarVisualizerAudioPeakLevel");
    reveal_strlit("AcrylicBlurOpacity");
    assert("TaskbarVisualizerPosition"@.len() == 25);
    assert("TaskbarVisualizerClickable"@.len() == 26);
    assert("TaskbarVisualizerBarCount"@.len() == 25);
    assert("TaskbarVisualizerCenteredBars"@.len() == 29);
    assert("TaskbarVisualizerBaseline"@.len() == 25);
    assert("TaskbarVisualizerAudioSensitivity"@.len() == 33);
    assert("TaskbarVisualizerAudioPeakLevel"@.len() == 31);
    assert("AcrylicBlurOpacity"@.len() == 18);
    lemma_int_text_lt_free(s.taskbar_visualizer_position as int);
    lemma_int_text_lt_free(s.taskbar_visualizer_bar_count as int);
    lemma_int_text_lt_free(s.taskbar_visualizer_audio_sensitivity as int);
    lemma_int_text_lt_free(s.taskbar_visualizer_audio_peak_level as int);
    lemma_int_text_lt_free(s.acrylic_blur_opacity as int);
    lemma_bool_chars_lt_free(true);
    lemma_bool_chars_lt_free(false);
}

proof fn lemma_chunk_7_lines(s: SettingsDto)
    ensures
        line_entries(legacy_entries_7(s)),
{
    reveal_strlit("UseAlbumArtAsAccentColor");
    reveal_strlit("IsStoreVersion");
    reveal_strlit("LastUpdateNotificationUnixSeconds");
    reveal_strlit("ShowUpdateNotifications");
    reveal_strlit("LegacyTaskbarWidthEnabled");
    assert("UseAlbumArtAsAccentColor"@.len() == 24);
    assert("IsStoreVersion"@.len() == 14);
    assert("LastUpdateNotificationUnixSeconds"@.len() == 33);
    assert("ShowUpdateNotifications"@.len() == 23);
    assert("LegacyTaskbarWidthEnabled"@.len() == 25);
    reveal_strlit("false");
    reveal_strlit("0");
    lemma_bool_chars_lt_free(true);
    lemma_bool_chars_lt_free(false);
}

/// Every line of the legacy document is well formed.
proof fn lemma_legacy_lines(s: SettingsDto)
    ensures
        line_entries(legacy_entries(s)),
{
    lemma_chunk_0_lines(s);
    lemma_chunk_1_lines(s);
    lemma_chunk_2_lines(s);
    lemma_chunk_3_lines(s);
    lemma_chunk_4_lines(s);
    lemma_chunk_5_lines(s);
    lemma_chunk_6_lines(s);
    lemma_chunk_7_lines(s);
    lemma_line_entries_join(legacy_entries_0(s), legacy_entries_1(s));
    lemma_line_entries_join(legacy_entries_0(s) + legacy_entries_1(s), legacy_entries_2(s));
    lemma_line_entries_join(legacy_entries_0(s) + legacy_entries_1(s) + legacy_entries_2(s), legacy_entries_3(s));
    lemma_line_entries_join(legacy_entries_0(s) + legacy_entries_1(s) + legacy_entries_2(s) + legacy_entries_3(s), legacy_entries_4(s));
    lemma_line_entries_join(legacy_entries_0(s) + legacy_entries_1(s) + legacy_entries_2(s) + legacy_entries_3(s) + legacy_entries_4(s), legacy_entries_5(s));
    lemma_line_entries_join(legacy_entries_0(s) + legacy_entries_1(s) + legacy_entries_2(s) + legacy_entries_3(s) + legacy_entries_4(s) + legacy_entries_5(s), legacy_entries_6(s));
    lemma_line_entries_join(legacy_entries_0(s) + legacy_entries_1(s) + legacy_entries_2(s) + legacy_entries_3(s) + legacy_entries_4(s) + legacy_entries_5(s) + legacy_entries_6(s), legacy_entries_7(s));
}

proof fn lemma_chunk_0_lacks_own(s: SettingsDto)
    ensures
        absent_before(legacy_entries_0(s), 0, "CompactLayout"@),
        absent_before(legacy_entries_0(s), 1, "FlyoutSelectedMonitor"@),
        absent_before(legacy_entries_0(s), 2, "Position"@),
        absent_before(legacy_entries_0(s), 4, "PlayerInfoEnabled"@),
        absent_before(legacy_entries_0(s), 5, "RepeatEnabled"@),
        absent_before(legacy_entries_0(s), 6, "ShuffleEnabled"@),
        absent_before(legacy_entries_0(s), 7, "Startup"@),
{
    reveal_strlit("CompactLayout");
    reveal_strlit("FlyoutSelectedMonitor");
    reveal_strlit("Position");
    reveal_strlit("FlyoutAnimationSpeed");
    reveal_strlit("PlayerInfoEnabled");
    reveal_strlit("RepeatEnabled");
    reveal_strlit("ShuffleEnabled");
    reveal_strlit("Startup");
    assert("CompactLayout"@.len() == 13);
    assert("FlyoutSelectedMonitor"@.len() == 21);
    assert("Position"@.len() == 8);
    assert("FlyoutAnimationSpeed"@.len() == 20);
    assert("PlayerInfoEnabled"@.len() == 17);
    assert("RepeatEnabled"@.len() == 13);
    assert("ShuffleEnabled"@.len() == 14);
    assert("Startup"@.len() == 7);
    assert("CompactLayout"@[0] == 'C');
    assert("RepeatEnabled"@[0] == 'R');
}

proof fn lemma_chunk_0_lacks_1(s: SettingsDto)
    ensures
        absent_before(legacy_entries_0(s), 8, "MediaFlyoutAlwaysDisplay"@),
        absent_before(legacy_entries_0(s), 8, "Duration"@),
        absent_before(legacy_entries_0(s), 8, "NextUpEnabled"@),
        absent_before(legacy_entries_0(s), 8, "NextUpDuration"@),
        absent_before(legacy_entries_0(s), 8, "nIconLeftClick"@),
        absent_before(legacy_entries_0(s), 8, "CenterTitleArtist"@),
        absent_before(legacy_entries_0(s), 8, "LockKeysEnabled"@),
{
    reveal_strlit("CompactLayout");
    reveal_strlit("FlyoutSelectedMonitor");
    reveal_strlit("Position");
    reveal_strlit("FlyoutAnimationSpeed");
    reveal_strlit("PlayerInfoEnabled");
    reveal_strlit("RepeatEnabled");
    reveal_strlit("ShuffleEnabled");
    reveal_strlit("Startup");
    reveal_strlit("MediaFlyoutAlwaysDisplay");
    reveal_strlit("Duration");
    reveal_strlit("NextUpEnabled");
    reveal_strlit("NextUpDuration");
    reveal_strlit("nIconLeftClick");
    reveal_strlit("CenterTitleArtist");
    reveal_strlit("LockKeysEnabled");
    assert("CompactLayout"@.len() == 13);
    assert("FlyoutSelectedMonitor"@.len() == 21);
    assert("Position"@.len() == 8);
    assert("FlyoutAnimationSpeed"@.len() == 20);
    assert("PlayerInfoEnabled"@.len() == 17);
    assert("RepeatEnabled"@.len() == 13);
    assert("ShuffleEnabled"@.len() == 14);
    assert("Startup"@.len() == 7);
    assert("MediaFlyoutAlwaysDisplay"@.len() == 24);
    assert("Duration"@.len() == 8);
    assert("NextUpEnabled"@.len() == 13);
    assert("NextUpDuration"@.len() == 14);
    assert("nIconLeftClick"@.len() == 14);
    assert("CenterTitleArtist"@.len() == 17);
    assert("LockKeysEnabled"@.len() == 15);
    assert("Position"@[0] == 'P');
    assert("Duration"@[0] == 'D');
    assert("CompactLayout"@[0] == 'C');
    assert("NextUpEnabled"@[0] == 'N');
    assert("RepeatEnabled"@[0] == 'R');
    assert("ShuffleEnabled"@[0] == 'S');
    assert("NextUpDuration"@[0] == 'N');
    assert("nIconLeftClick"@[0] == 'n');
    assert("PlayerInfoEnabled"@[0] == 'P');
    assert("CenterTitleArtist"@[0] == 'C');
}

proof fn lemma_chunk_0_lacks_2(s: SettingsDto)
    ensures
        absent_before(legacy_entries_0(s), 8, "LockKeysDuration"@),
        absent_before(legacy_entries_0(s), 8, "AppTheme"@),
        absent_before(legacy_entries_0(s), 8, "MediaFlyoutEnabled"@),
        absent_before(legacy_entries_0(s), 8, "MediaFlyoutVolumeKeysExcluded"@),
        absent_before(legacy_entries_0(s), 8, "nIconSymbol"@),
        absent_before(legacy_entries_0(s), 8, "NIconHide"@),
        absent_before(legacy_entries_0(s), 8, "DisableIfFullscreen"@),
        absent_before(legacy_entries_0(s), 8, "LockKeysBoldUI"@),
{
    reveal_strlit("CompactLayout");
    reveal_strlit("FlyoutSelectedMonitor");
    reveal_strlit("Position");
    reveal_strlit("FlyoutAnimationSpeed");
    reveal_strlit("PlayerInfoEnabled");
    reveal_strlit("RepeatEnabled");
    reveal_strlit("ShuffleEnabled");
    reveal_strlit("Startup");
    reveal_strlit("LockKeysDuration");
    reveal_strlit("AppTheme");
    reveal_strlit("MediaFlyoutEnabled");
    reveal_strlit("MediaFlyoutVolumeKeysExcluded");
    reveal_strlit("nIconSymbol");
    reveal_strlit("NIconHide");
    reveal_strlit("DisableIfFullscreen");
    reveal_strlit("LockKeysBoldUI");
    assert("CompactLayout"@.len() == 13);
    assert("FlyoutSelectedMonitor"@.len() == 21);
    assert("Position"@.len() == 8);
    assert("FlyoutAnimationSpeed"@.len() == 20);
    assert("PlayerInfoEnabled"@.len() == 17);
    assert("RepeatEnabled"@.len() == 13);
    assert("ShuffleEnabled"@.len() == 14);
    assert("Startup"@.len() == 7);
    assert("LockKeysDuration"@.len() == 16);
    assert("AppTheme"@.len() == 8);
    assert("MediaFlyoutEnabled"@.len() == 18);
    assert("MediaFlyoutVolumeKeysExcluded"@.len() == 29);
    assert("nIconSymbol"@.len() == 11);
    assert("NIconHide"@.len() == 9);
    assert("DisableIfFullscreen"@.len() == 19);
    assert("LockKeysBoldUI"@.len() == 14);
    assert("Position"@[0] == 'P');
    assert("AppTheme"@[0] == 'A');
    assert("ShuffleEnabled"@[0] == 'S');
    assert("LockKeysBoldUI"@[0] == 'L');
}

proof fn lemma_chunk_0_lacks_3(s: SettingsDto)
    ensures
        absent_before(legacy_entries_0(s), 8, "LockKeysMonitorPreference"@),
        absent_before(legacy_entries_0(s), 8, "ExclusiveTidalMode"@),
        absent_before(legacy_entries_0(s), 8, "SeekbarEnabled"@),
        absent_before(legacy_entries_0(s), 8, "PauseOtherSessionsEnabled"@),
        absent_before(legacy_entries_0(s), 8, "LockKeysInsertEnabled"@),
        absent_before(legacy_entries_0(s), 8, "MediaFlyoutBackgroundBlur"@),
        absent_before(legacy_entries_0(s), 8, "MediaFlyoutAcrylicWindowEnabled"@),
{
    reveal_strlit("CompactLayout");
    reveal_strlit("FlyoutSelectedMonitor");
    reveal_strlit("Position");
    reveal_strlit("FlyoutAnimationSpeed");
    reveal_strlit("PlayerInfoEnabled");
    reveal_strlit("RepeatEnabled");
    reveal_strlit("ShuffleEnabled");
    reveal_strlit("Startup");
    reveal_strlit("LockKeysMonitorPreference");
    reveal_strlit("ExclusiveTidalMode");
    reveal_strlit("SeekbarEnabled");
    reveal_strlit("PauseOtherSessionsEnabled");
    reveal_strlit("LockKeysInsertEnabled");
    reveal_strlit("MediaFlyoutBackgroundBlur");
    reveal_strlit("MediaFlyoutAcrylicWindowEnabled");
    assert("CompactLayout"@.len() == 13);
    assert("FlyoutSelectedMonitor"@.len() == 21);
    assert("Position"@.len() == 8);
    assert("FlyoutAnimationSpeed"@.len() == 20);
    assert("PlayerInfoEnabled"@.len() == 17);
    assert("RepeatEnabled"@.len() == 13);
    assert("ShuffleEnabled"@.len() == 14);
    assert("Startup"@.len() == 7);
    assert("LockKeysMonitorPreference"@.len() == 25);
    assert("ExclusiveTidalMode"@.len() == 18);
    assert("SeekbarEnabled"@.len() == 14);
    assert("PauseOtherSessionsEnabled"@.len() == 25);
    assert("LockKeysInsertEnabled"@.len() == 21);
    assert("MediaFlyoutBackgroundBlur"@.len() == 25);
    assert("MediaFlyoutAcrylicWindowEnabled"@.len() == 31);
    assert("ShuffleEnabled"@[1] == 'h');
    assert("SeekbarEnabled"@[1] == 'e');
    assert("FlyoutSelectedMonitor"@[0] == 'F');
    assert("LockKeysInsertEnabled"@[0] == 'L');
}

proof fn lemma_chunk_0_lacks_4(s: SettingsDto)
    ensures
        absent_before(legacy_entries_0(s), 8, "TaskbarWidgetEnabled"@),
        absent_before(legacy_entries_0(s), 8, "TaskbarWidgetSelectedMonitor"@),
        absent_before(legacy_entries_0(s), 8, "TaskbarWidgetPosition"@),
        absent_before(legacy_entries_0(s), 8, "TaskbarWidgetPadding"@),
        absent_before(legacy_entries_0(s), 8, "TaskbarWidgetManualPadding"@),
{
    reveal_strlit("CompactLayout");
    reveal_strlit("FlyoutSelectedMonitor");
    reveal_strlit("Position");
    reveal_strlit("FlyoutAnimationSpeed");
    reveal_strlit("PlayerInfoEnabled");
    reveal_strlit("RepeatEnabled");
    reveal_strlit("ShuffleEnabled");
    reveal_strlit("Startup");
    reveal_strlit("TaskbarWidgetEnabled");
    reveal_strlit("TaskbarWidgetSelectedMonitor");
    reveal_strlit("TaskbarWidgetPosition");
    reveal_strlit("TaskbarWidgetPadding");
    reveal_strlit("TaskbarWidgetManualPadding");
    assert("CompactLayout"@.len() == 13);
    assert("FlyoutSelectedMonitor"@.len() == 21);
    assert("Position"@.len() == 8);
    assert("FlyoutAnimationSpeed"@.len() == 20);
    assert("PlayerInfoEnabled"@.len() == 17);
    assert("RepeatEnabled"@.len() == 13);
    assert("ShuffleEnabled"@.len() == 14);
    assert("Startup"@.len() == 7);
    assert("TaskbarWidgetEnabled"@.len() == 20);
    assert("TaskbarWidgetSelectedMonitor"@.len() == 28);
    assert("TaskbarWidgetPosition"@.len() == 21);
    assert("TaskbarWidgetPadding"@.len() == 20);
    assert("TaskbarWidgetManualPadding"@.len() == 26);
    assert("FlyoutAnimationSpeed"@[0] == 'F');
    assert("TaskbarWidgetEnabled"@[0] == 'T');
    assert("FlyoutSelectedMonitor"@[0] == 'F');
    assert("TaskbarWidgetPosition"@[0] == 'T');
    assert("TaskbarWidgetPadding"@[0] == 'T');
}

proof fn lemma_chunk_0_lacks_5(s: SettingsDto)
    ensures
        absent_before(legacy_entries_0(s), 8, "TaskbarWidgetClickable"@),
        absent_before(legacy_entries_0(s), 8, "TaskbarWidgetCloseableFlyout"@),
        absent_before(legacy_entries_0(s), 8, "TaskbarWidgetBackgroundBlur"@),
        absent_before(legacy_entries_0(s), 8, "TaskbarWidgetHideCompletely"@),
        absent_before(legacy_entries_0(s), 8, "TaskbarWidgetControlsEnabled"@),
        absent_before(legacy_entries_0(s), 8, "TaskbarWidgetControlsPosition"@),
        absent_before(legacy_entries_0(s), 8, "TaskbarVisualizerEnabled"@),
{
    reveal_strlit("CompactLayout");
    reveal_strlit("FlyoutSelectedMonitor");
    reveal_strlit("Position");
    reveal_strlit("FlyoutAnimationSpeed");
    reveal_strlit("PlayerInfoEnabled");
    reveal_strlit("RepeatEnabled");
    reveal_strlit("ShuffleEnabled");
    reveal_strlit("Startup");
    reveal_strlit("TaskbarWidgetClickable");
    reveal_strlit("TaskbarWidgetCloseableFlyout");
    reveal_strlit("TaskbarWidgetBackgroundBlur");
    reveal_strlit("TaskbarWidgetHideCompletely");
    reveal_strlit("TaskbarWidgetControlsEnabled");
    reveal_strlit("TaskbarWidgetControlsPosition");
    reveal_strlit("TaskbarVisualizerEnabled");
    assert("CompactLayout"@.len() == 13);
    assert("FlyoutSelectedMonitor"@.len() == 21);
    assert("Position"@.len() == 8);
    assert("FlyoutAnimationSpeed"@.len() == 20);
    assert("PlayerInfoEnabled"@.len() == 17);
    assert("RepeatEnabled"@.len() == 13);
    assert("ShuffleEnabled"@.len() == 14);
    assert("Startup"@.len() == 7);
    assert("TaskbarWidgetClickable"@.len() == 22);
    assert("TaskbarWidgetCloseableFlyout"@.len() == 28);
    assert("TaskbarWidgetBackgroundBlur"@.len() == 27);
    assert("TaskbarWidgetHideCompletely"@.len() == 27);
    assert("TaskbarWidgetControlsEnabled"@.len() == 28);
    assert("TaskbarWidgetControlsPosition"@.len() == 29);
    assert("TaskbarVisualizerEnabled"@.len() == 24);
}

proof fn lemma_chunk_0_lacks_6(s: SettingsDto)
    ensures
        absent_before(legacy_entries_0(s), 8, "TaskbarVisualizerPosition"@),
        absent_before(legacy_entries_0(s), 8, "TaskbarVisualizerBarCount"@),
        absent_before(legacy_entries_0(s), 8, "TaskbarVisualizerCenteredBars"@),
        absent_before(legacy_entries_0(s), 8, "TaskbarVisualizerBaseline"@),
        absent_before(legacy_entries_0(s), 8, "TaskbarVisualizerAudioSensitivity"@),
        absent_before(legacy_entries_0(s), 8, "TaskbarVisualizerAudioPeakLevel"@),
        absent_before(legacy_entries_0(s), 8, "AcrylicBlurOpacity"@),
{
    reveal_strlit("CompactLayout");
    reveal_strlit("FlyoutSelectedMonitor");
    reveal_strlit("Position");
    reveal_strlit("FlyoutAnimationSpeed");
    reveal_strlit("PlayerInfoEnabled");
    reveal_strlit("RepeatEnabled");
    reveal_strlit("ShuffleEnabled");
    reveal_strlit("Startup");
    reveal_strlit("TaskbarVisualizerPosition");
    reveal_strlit("TaskbarVisualizerBarCount");
    reveal_strlit("TaskbarVisualizerCenteredBars");
    reveal_strlit("TaskbarVisualizerBaseline");
    reveal_strlit("TaskbarVisualizerAudioSensitivity");
    reveal_strlit("TaskbarVisualizerAudioPeakLevel");
    reveal_strlit("AcrylicBlurOpacity");
    assert("CompactLayout"@.len() == 13);
    assert("FlyoutSelectedMonitor"@.len() == 21);
    assert("Position"@.len() == 8);
    assert("FlyoutAnimationSpeed"@.len() == 20);
    assert("PlayerInfoEnabled"@.len() == 17);
    assert("RepeatEnabled"@.len() == 13);
    assert("ShuffleEnabled"@.len() == 14);
    assert("Startup"@.len() == 7);
    assert("TaskbarVisualizerPosition"@.len() == 25);
    assert("TaskbarVisualizerBarCount"@.len() == 25);
    assert("TaskbarVisualizerCenteredBars"@.len() == 29);
    assert("TaskbarVisualizerBaseline"@.len() == 25);
    assert("TaskbarVisualizerAudioSensitivity"@.len() == 33);
    assert("TaskbarVisualizerAudioPeakLevel"@.len() == 31);
    assert("AcrylicBlurOpacity"@.len() == 18);
}

proof fn lemma_chunk_1_lacks_own(s: SettingsDto)
    ensures
        absent_before(legacy_entries_1(s), 0, "MediaFlyoutAlwaysDisplay"@),
        absent_before(legacy_entries_1(s), 1, "Duration"@),
        absent_before(legacy_entries_1(s), 2, "NextUpEnabled"@),
        absent_before(legacy_entries_1(s), 3, "NextUpDuration"@),
        absent_before(legacy_entries_1(s), 4, "nIconLeftClick"@),
        absent_before(legacy_entries_1(s), 5, "CenterTitleArtist"@),
        absent_before(legacy_entries_1(s), 7, "LockKeysEnabled"@),
{
    reveal_strlit("MediaFlyoutAlwaysDisplay");
    reveal_strlit("Duration");
    reveal_strlit("NextUpEnabled");
    reveal_strlit("NextUpDuration");
    reveal_strlit("nIconLeftClick");
    reveal_strlit("CenterTitleArtist");
    reveal_strlit("FlyoutAnimationEasingStyle");
    reveal_strlit("LockKeysEnabled");
    assert("MediaFlyoutAlwaysDisplay"@.len() == 24);
    assert("Duration"@.len() == 8);
    assert("NextUpEnabled"@.len() == 13);
    assert("NextUpDuration"@.len() == 14);
    assert("nIconLeftClick"@.len() == 14);
    assert("CenterTitleArtist"@.len() == 17);
    assert("FlyoutAnimationEasingStyle"@.len() == 26);
    assert("LockKeysEnabled"@.len() == 15);
    assert("NextUpDuration"@[0] == 'N');
    assert("nIconLeftClick"@[0] == 'n');
}

proof fn lemma_chunk_1_lacks_2(s: SettingsDto)
    ensures
        absent_before(legacy_entries_1(s), 8, "LockKeysDuration"@),
        absent_before(legacy_entries_1(s), 8, "AppTheme"@),
        absent_before(legacy_entries_1(s), 8, "MediaFlyoutEnabled"@),
        absent_before(legacy_entries_1(s), 8, "MediaFlyoutVolumeKeysExcluded"@),
        absent_before(legacy_entries_1(s), 8, "nIconSymbol"@),
        absent_before(legacy_entries_1(s), 8, "NIconHide"@),
        absent_before(legacy_entries_1(s), 8, "DisableIfFullscreen"@),
        absent_before(legacy_entries_1(s), 8, "LockKeysBoldUI"@),
{
    reveal_strlit("MediaFlyoutAlwaysDisplay");
    reveal_strlit("Duration");
    reveal_strlit("NextUpEnabled");
    reveal_strlit("NextUpDuration");
    reveal_strlit("nIconLeftClick");
    reveal_strlit("CenterTitleArtist");
    reveal_strlit("FlyoutAnimationEasingStyle");
    reveal_strlit("LockKeysEnabled");
    reveal_strlit("LockKeysDuration");
    reveal_strlit("AppTheme");
    reveal_strlit("MediaFlyoutEnabled");
    reveal_strlit("MediaFlyoutVolumeKeysExcluded");
    reveal_strlit("nIconSymbol");
    reveal_strlit("NIconHide");
    reveal_strlit("DisableIfFullscreen");
    reveal_strlit("LockKeysBoldUI");
    assert("MediaFlyoutAlwaysDisplay"@.len() == 24);
    assert("Duration"@.len() == 8);
    assert("NextUpEnabled"@.len() == 13);
    assert("NextUpDuration"@.len() == 14);
    assert("nIconLeftClick"@.len() == 14);
    assert("CenterTitleArtist"@.len() == 17);
    assert("FlyoutAnimationEasingStyle"@.len() == 26);
    assert("LockKeysEnabled"@.len() == 15);
    assert("LockKeysDuration"@.len() == 16);
    assert("AppTheme"@.len() == 8);
    assert("MediaFlyoutEnabled"@.len() == 18);
    assert("MediaFlyoutVolumeKeysExcluded"@.len() == 29);
    assert("nIconSymbol"@.len() == 11);
    assert("NIconHide"@.len() == 9);
    assert("DisableIfFullscreen"@.len() == 19);
    assert("LockKeysBoldUI"@.len() == 14);
    assert("Duration"@[0] == 'D');
    assert("AppTheme"@[0] == 'A');
    assert("NextUpDuration"@[0] == 'N');
    assert("LockKeysBoldUI"@[0] == 'L');
    assert("nIconLeftClick"@[0] == 'n');
}

proof fn lemma_chunk_1_lacks_3(s: SettingsDto)
    ensures
        absent_before(legacy_entries_1(s), 8, "LockKeysMonitorPreference"@),
        absent_before(legacy_entries_1(s), 8, "ExclusiveTidalMode"@),
        absent_before(legacy_entries_1(s), 8, "SeekbarEnabled"@),
        absent_before(legacy_entries_1(s), 8, "PauseOtherSessionsEnabled"@),
        absent_before(legacy_entries_1(s), 8, "LockKeysInsertEnabled"@),
        absent_before(legacy_entries_1(s), 8, "MediaFlyoutBackgroundBlur"@),
        absent_before(legacy_entries_1(s), 8, "MediaFlyoutAcrylicWindowEnabled"@),
{
    reveal_strlit("MediaFlyoutAlwaysDisplay");
    reveal_strlit("Duration");
    reveal_strlit("NextUpEnabled");
    reveal_strlit("NextUpDuration");
    reveal_strlit("nIconLeftClick");
    reveal_strlit("CenterTitleArtist");
    reveal_strlit("FlyoutAnimationEasingStyle");
    reveal_strlit("LockKeysEnabled");
    reveal_strlit("LockKeysMonitorPreference");
    reveal_strlit("ExclusiveTidalMode");
    reveal_strlit("SeekbarEnabled");
    reveal_strlit("PauseOtherSessionsEnabled");
    reveal_strlit("LockKeysInsertEnabled");
    reveal_strlit("MediaFlyoutBackgroundBlur");
    reveal_strlit("MediaFlyoutAcrylicWindowEnabled");
    assert("MediaFlyoutAlwaysDisplay"@.len() == 24);
    assert("Duration"@.len() == 8);
    assert("NextUpEnabled"@.len() == 13);
    assert("NextUpDuration"@.len() == 14);
    assert("nIconLeftClick"@.len() == 14);
    assert("CenterTitleArtist"@.len() == 17);
    assert("FlyoutAnimationEasingStyle"@.len() == 26);
    assert("LockKeysEnabled"@.len() == 15);
    assert("LockKeysMonitorPreference"@.len() == 25);
    assert("ExclusiveTidalMode"@.len() == 18);
    assert("SeekbarEnabled"@.len() == 14);
    assert("PauseOtherSessionsEnabled"@.len() == 25);
    assert("LockKeysInsertEnabled"@.len() == 21);
    assert("MediaFlyoutBackgroundBlur"@.len() == 25);
    assert("MediaFlyoutAcrylicWindowEnabled"@.len() == 31);
    assert("NextUpDuration"@[0] == 'N');
    assert("SeekbarEnabled"@[0] == 'S');
    assert("nIconLeftClick"@[0] == 'n');
}

proof fn lemma_chunk_1_lacks_4(s: SettingsDto)
    ensures
        absent_before(legacy_entries_1(s), 8, "TaskbarWidgetEnabled"@),
        absent_before(legacy_entries_1(s), 8, "TaskbarWidgetSelectedMonitor"@),
        absent_before(legacy_entries_1(s), 8, "TaskbarWidgetPosition"@),
        absent_before(legacy_entries_1(s), 8, "TaskbarWidgetPadding"@),
        absent_before(legacy_entries_1(s), 8, "TaskbarWidgetManualPadding"@),
{
    reveal_strlit("MediaFlyoutAlwaysDisplay");
    reveal_strlit("Duration");
    reveal_strlit("NextUpEnabled");
    reveal_strlit("NextUpDuration");
    reveal_strlit("nIconLeftClick");
    reveal_strlit("CenterTitleArtist");
    reveal_strlit("FlyoutAnimationEasingStyle");
    reveal_strlit("LockKeysEnabled");
    reveal_strlit("TaskbarWidgetEnabled");
    reveal_strlit("TaskbarWidgetSelectedMonitor");
    reveal_strlit("TaskbarWidgetPosition");
    reveal_strlit("TaskbarWidgetPadding");
    reveal_strlit("TaskbarWidgetManualPadding");
    assert("MediaFlyoutAlwaysDisplay"@.len() == 24);
    assert("Duration"@.len() == 8);
    assert("NextUpEnabled"@.len() == 13);
    assert("NextUpDuration"@.len() == 14);
    assert("nIconLeftClick"@.len() == 14);
    assert("CenterTitleArtist"@.len() == 17);
    assert("FlyoutAnimationEasingStyle"@.len() == 26);
    assert("LockKeysEnabled"@.len() == 15);
    assert("TaskbarWidgetEnabled"@.len() == 20);
    assert("TaskbarWidgetSelectedMonitor"@.len() == 28);
    assert("TaskbarWidgetPosition"@.len() == 21);
    assert("TaskbarWidgetPadding"@.len() == 20);
    assert("TaskbarWidgetManualPadding"@.len() == 26);
    assert("FlyoutAnimationEasingStyle"@[0] == 'F');
    assert("TaskbarWidgetManualPadding"@[0] == 'T');
}

proof fn lemma_chunk_1_lacks_5(s: SettingsDto)
    ensures
        absent_before(legacy_entries_1(s), 8, "TaskbarWidgetClickable"@),
        absent_before(legacy_entries_1(s), 8, "TaskbarWidgetCloseableFlyout"@),
        absent_before(legacy_entries_1(s), 8, "TaskbarWidgetBackgroundBlur"@),
        absent_before(legacy_entries_1(s), 8, "TaskbarWidgetHideCompletely"@),
        absent_before(legacy_entries_1(s), 8, "TaskbarWidgetControlsEnabled"@),
        absent_before(legacy_entries_1(s), 8, "TaskbarWidgetControlsPosition"@),
        absent_before(legacy_entries_1(s), 8, "TaskbarVisualizerEnabled"@),
{
    reveal_strlit("MediaFlyoutAlwaysDisplay");
    reveal_strlit("Duration");
    reveal_strlit("NextUpEnabled");
    reveal_strlit("NextUpDuration");
    reveal_strlit("nIconLeftClick");
    reveal_strlit("CenterTitleArtist");
    reveal_strlit("FlyoutAnimationEasingStyle");
    reveal_strlit("LockKeysEnabled");
    reveal_strlit("TaskbarWidgetClickable");
    reveal_strlit("TaskbarWidgetCloseableFlyout");
    reveal_strlit("TaskbarWidgetBackgroundBlur");
    reveal_strlit("TaskbarWidgetHideCompletely");
    reveal_strlit("TaskbarWidgetControlsEnabled");
    reveal_strlit("TaskbarWidgetControlsPosition");
    reveal_strlit("TaskbarVisualizerEnabled");
    assert("MediaFlyoutAlwaysDisplay"@.len() == 24);
    assert("Duration"@.len() == 8);
    assert("NextUpEnabled"@.len() == 13);
    assert("NextUpDuration"@.len() == 14);
    assert("nIconLeftClick"@.len() == 14);
    assert("CenterTitleArtist"@.len() == 17);
    assert("FlyoutAnimationEasingStyle"@.len() == 26);
    assert("LockKeysEnabled"@.len() == 15);
    assert("TaskbarWidgetClickable"@.len() == 22);
    assert("TaskbarWidgetCloseableFlyout"@.len() == 28);
    assert("TaskbarWidgetBackgroundBlur"@.len() == 27);
    assert("TaskbarWidgetHideCompletely"@.len() == 27);
    assert("TaskbarWidgetControlsEnabled"@.len() == 28);
    assert("TaskbarWidgetControlsPosition"@.len() == 29);
    assert("TaskbarVisualizerEnabled"@.len() == 24);
    assert("MediaFlyoutAlwaysDisplay"@[0] == 'M');
    assert("TaskbarVisualizerEnabled"@[0] == 'T');
}

proof fn lemma_chunk_1_lacks_6(s: SettingsDto)
    ensures
        absent_before(legacy_entries_1(s), 8, "TaskbarVisualizerPosition"@),
        absent_before(legacy_entries_1(s), 8, "TaskbarVisualizerBarCount"@),
        absent_before(legacy_entries_1(s), 8, "TaskbarVisualizerCenteredBars"@),
        absent_before(legacy_entries_1(s), 8, "TaskbarVisualizerBaseline"@),
        absent_before(legacy_entries_1(s), 8, "TaskbarVisualizerAudioSensitivity"@),
        absent_before(legacy_entries_1(s), 8, "TaskbarVisualizerAudioPeakLevel"@),
        absent_before(legacy_entries_1(s), 8, "AcrylicBlurOpacity"@),
{
    reveal_strlit("MediaFlyoutAlwaysDisplay");
    reveal_strlit("Duration");
    reveal_strlit("NextUpEnabled");
    reveal_strlit("NextUpDuration");
    reveal_strlit("nIconLeftClick");
    reveal_strlit("CenterTitleArtist");
    reveal_strlit("FlyoutAnimationEasingStyle");
    reveal_strlit("LockKeysEnabled");
    reveal_strlit("TaskbarVisualizerPosition");
    reveal_strlit("TaskbarVisualizerBarCount");
    reveal_strlit("TaskbarVisualizerCenteredBars");
    reveal_strlit("TaskbarVisualizerBaseline");
    reveal_strlit("TaskbarVisualizerAudioSensitivity");
    reveal_strlit("TaskbarVisualizerAudioPeakLevel");
    reveal_strlit("AcrylicBlurOpacity");
    assert("MediaFlyoutAlwaysDisplay"@.len() == 24);
    assert("Duration"@.len() == 8);
    assert("NextUpEnabled"@.len() == 13);
    assert("NextUpDuration"@.len() == 14);
    assert("nIconLeftClick"@.len() == 14);
    assert("CenterTitleArtist"@.len() == 17);
    assert("FlyoutAnimationEasingStyle"@.len() == 26);
    assert("LockKeysEnabled"@.len() == 15);
    assert("TaskbarVisualizerPosition"@.len() == 25);
    assert("TaskbarVisualizerBarCount"@.len() == 25);
    assert("TaskbarVisualizerCenteredBars"@.len() == 29);
    assert("TaskbarVisualizerBaseline"@.len() == 25);
    assert("TaskbarVisualizerAudioSensitivity"@.len() == 33);
    assert("TaskbarVisualizerAudioPeakLevel"@.len() == 31);
    assert("AcrylicBlurOpacity"@.len() == 18);
}

proof fn lemma_chunk_2_lacks_own(s: SettingsDto)
    ensures
        absent_before(legacy_entries_2(s), 0, "LockKeysDuration"@),
        absent_before(legacy_entries_2(s), 1, "AppTheme"@),
        absent_before(legacy_entries_2(s), 2, "MediaFlyoutEnabled"@),
        absent_before(legacy_entries_2(s), 3, "MediaFlyoutVolumeKeysExcluded"@),
        absent_before(legacy_entries_2(s), 4, "nIconSymbol"@),
        absent_before(legacy_entries_2(s), 5, "NIconHide"@),
        absent_before(legacy_entries_2(s), 6, "DisableIfFullscreen"@),
        absent_before(legacy_entries_2(s), 7, "LockKeysBoldUI"@),
{
    reveal_strlit("LockKeysDuration");
    reveal_strlit("AppTheme");
    reveal_strlit("MediaFlyoutEnabled");
    reveal_strlit("MediaFlyoutVolumeKeysExcluded");
    reveal_strlit("nIconSymbol");
    reveal_strlit("NIconHide");
    reveal_strlit("DisableIfFullscreen");
    reveal_strlit("LockKeysBoldUI");
    assert("LockKeysDuration"@.len() == 16);
    assert("AppTheme"@.len() == 8);
    assert("MediaFlyoutEnabled"@.len() == 18);
    assert("MediaFlyoutVolumeKeysExcluded"@.len() == 29);
    assert("nIconSymbol"@.len() == 11);
    assert("NIconHide"@.len() == 9);
    assert("DisableIfFullscreen"@.len() == 19);
    assert("LockKeysBoldUI"@.len() == 14);
}

proof fn lemma_chunk_2_lacks_3(s: SettingsDto)
    ensures
        absent_before(legacy_entries_2(s), 8, "LockKeysMonitorPreference"@),
        absent_before(legacy_entries_2(s), 8, "ExclusiveTidalMode"@),
        absent_before(legacy_entries_2(s), 8, "SeekbarEnabled"@),
        absent_before(legacy_entries_2(s), 8, "PauseOtherSessionsEnabled"@),
        absent_before(legacy_entries_2(s), 8, "LockKeysInsertEnabled"@),
        absent_before(legacy_entries_2(s), 8, "MediaFlyoutBackgroundBlur"@),
        absent_before(legacy_entries_2(s), 8, "MediaFlyoutAcrylicWindowEnabled"@),
{
    reveal_strlit("LockKeysDuration");
    reveal_strlit("AppTheme");
    reveal_strlit("MediaFlyoutEnabled");
    reveal_strlit("MediaFlyoutVolumeKeysExcluded");
    reveal_strlit("nIconSymbol");
    reveal_strlit("NIconHide");
    reveal_strlit("DisableIfFullscreen");
    reveal_strlit("LockKeysBoldUI");
    reveal_strlit("LockKeysMonitorPreference");
    reveal_strlit("ExclusiveTidalMode");
    reveal_strlit("SeekbarEnabled");
    reveal_strlit("PauseOtherSessionsEnabled");
    reveal_strlit("LockKeysInsertEnabled");
    reveal_strlit("MediaFlyoutBackgroundBlur");
    reveal_strlit("MediaFlyoutAcrylicWindowEnabled");
    assert("LockKeysDuration"@.len() == 16);
    assert("AppTheme"@.len() == 8);
    assert("MediaFlyoutEnabled"@.len() == 18);
    assert("MediaFlyoutVolumeKeysExcluded"@.len() == 29);
    assert("nIconSymbol"@.len() == 11);
    assert("NIconHide"@.len() == 9);
    assert("DisableIfFullscreen"@.len() == 19);
    assert("LockKeysBoldUI"@.len() == 14);
    assert("LockKeysMonitorPreference"@.len() == 25);
    assert("ExclusiveTidalMode"@.len() == 18);
    assert("SeekbarEnabled"@.len() == 14);
    assert("PauseOtherSessionsEnabled"@.len() == 25);
    assert("LockKeysInsertEnabled"@.len() == 21);
    assert("MediaFlyoutBackgroundBlur"@.len() == 25);
    assert("MediaFlyoutAcrylicWindowEnabled"@.len() == 31);
    assert("MediaFlyoutEnabled"@[0] == 'M');
    assert("ExclusiveTidalMode"@[0] == 'E');
    assert("LockKeysBoldUI"@[0] == 'L');
    assert("SeekbarEnabled"@[0] == 'S');
}

proof fn lemma_chunk_2_lacks_4(s: SettingsDto)
    ensures
        absent_before(legacy_entries_2(s), 8, "TaskbarWidgetEnabled"@),
        absent_before(legacy_entries_2(s), 8, "TaskbarWidgetSelectedMonitor"@),
        absent_before(legacy_entries_2(s), 8, "TaskbarWidgetPosition"@),
        absent_before(legacy_entries_2(s), 8, "TaskbarWidgetPadding"@),
        absent_before(legacy_entries_2(s), 8, "TaskbarWidgetManualPadding"@),
{
    reveal_strlit("LockKeysDuration");
    reveal_strlit("AppTheme");
    reveal_strlit("MediaFlyoutEnabled");
    reveal_strlit("MediaFlyoutVolumeKeysExcluded");
    reveal_strlit("nIconSymbol");
    reveal_strlit("NIconHide");
    reveal_strlit("DisableIfFullscreen");
    reveal_strlit("LockKeysBoldUI");
    reveal_strlit("TaskbarWidgetEnabled");
    reveal_strlit("TaskbarWidgetSelectedMonitor");
    reveal_strlit("TaskbarWidgetPosition");
    reveal_strlit("TaskbarWidgetPadding");
    reveal_strlit("TaskbarWidgetManualPadding");
    assert("LockKeysDuration"@.len() == 16);
    assert("AppTheme"@.len() == 8);
    assert("MediaFlyoutEnabled"@.len() == 18);
    assert("MediaFlyoutVolumeKeysExcluded"@.len() == 29);
    assert("nIconSymbol"@.len() == 11);
    assert("NIconHide"@.len() == 9);
    assert("DisableIfFullscreen"@.len() == 19);
    assert("LockKeysBoldUI"@.len() == 14);
    assert("TaskbarWidgetEnabled"@.len() == 20);
    assert("TaskbarWidgetSelectedMonitor"@.len() == 28);
    assert("TaskbarWidgetPosition"@.len() == 21);
    assert("TaskbarWidgetPadding"@.len() == 20);
    assert("TaskbarWidgetManualPadding"@.len() == 26);
}

proof fn lemma_chunk_2_lacks_5(s: SettingsDto)
    ensures
        absent_before(legacy_entries_2(s), 8, "TaskbarWidgetClickable"@),
        absent_before(legacy_entries_2(s), 8, "TaskbarWidgetCloseableFlyout"@),
        absent_before(legacy_entries_2(s), 8, "TaskbarWidgetBackgroundBlur"@),
        absent_before(legacy_entries_2(s), 8, "TaskbarWidgetHideCompletely"@),
        absent_before(legacy_entries_2(s), 8, "TaskbarWidgetControlsEnabled"@),
        absent_before(legacy_entries_2(s), 8, "TaskbarWidgetControlsPosition"@),
        absent_before(legacy_entries_2(s), 8, "TaskbarVisualizerEnabled"@),
{
    reveal_strlit("LockKeysDuration");
    reveal_strlit("AppTheme");
    reveal_strlit("MediaFlyoutEnabled");
    reveal_strlit("MediaFlyoutVolumeKeysExcluded");
    reveal_strlit("nIconSymbol");
    reveal_strlit("NIconHide");
    reveal_strlit("DisableIfFullscreen");
    reveal_strlit("LockKeysBoldUI");
    reveal_strlit("TaskbarWidgetClickable");
    reveal_strlit("TaskbarWidgetCloseableFlyout");
    reveal_strlit("TaskbarWidgetBackgroundBlur");
    reveal_strlit("TaskbarWidgetHideCompletely");
    reveal_strlit("TaskbarWidgetControlsEnabled");
    reveal_strlit("TaskbarWidgetControlsPosition");
    reveal_strlit("TaskbarVisualizerEnabled");
    assert("LockKeysDuration"@.len() == 16);
    assert("AppTheme"@.len() == 8);
    assert("MediaFlyoutEnabled"@.len() == 18);
    assert("MediaFlyoutVolumeKeysExcluded"@.len() == 29);
    assert("nIconSymbol"@.len() == 11);
    assert("NIconHide"@.len() == 9);
    assert("DisableIfFullscreen"@.len() == 19);
    assert("LockKeysBoldUI"@.len() == 14);
    assert("TaskbarWidgetClickable"@.len() == 22);
    assert("TaskbarWidgetCloseableFlyout"@.len() == 28);
    assert("TaskbarWidgetBackgroundBlur"@.len() == 27);
    assert("TaskbarWidgetHideCompletely"@.len() == 27);
    assert("TaskbarWidgetControlsEnabled"@.len() == 28);
    assert("TaskbarWidgetControlsPosition"@.len() == 29);
    assert("TaskbarVisualizerEnabled"@.len() == 24);
    assert("MediaFlyoutVolumeKeysExcluded"@[0] == 'M');
    assert("TaskbarWidgetControlsPosition"@[0] == 'T');
}

proof fn lemma_chunk_2_lacks_6(s: SettingsDto)
    ensures
        absent_before(legacy_entries_2(s), 8, "TaskbarVisualizerPosition"@),
        absent_before(legacy_entries_2(s), 8, "TaskbarVisualizerBarCount"@),
        absent_before(legacy_entries_2(s), 8, "TaskbarVisualizerCenteredBars"@),
        absent_before(legacy_entries_2(s), 8, "TaskbarVisualizerBaseline"@),
        absent_before(legacy_entries_2(s), 8, "TaskbarVisualizerAudioSensitivity"@),
        absent_before(legacy_entries_2(s), 8, "TaskbarVisualizerAudioPeakLevel"@),
        absent_before(legacy_entries_2(s), 8, "AcrylicBlurOpacity"@),
{
    reveal_strlit("LockKeysDuration");
    reveal_strlit("AppTheme");
    reveal_strlit("MediaFlyoutEnabled");
    reveal_strlit("MediaFlyoutVolumeKeysExcluded");
    reveal_strlit("nIconSymbol");
    reveal_strlit("NIconHide");
    reveal_strlit("DisableIfFullscreen");
    reveal_strlit("LockKeysBoldUI");
    reveal_strlit("TaskbarVisualizerPosition");
    reveal_strlit("TaskbarVisualizerBarCount");
    reveal_strlit("TaskbarVisualizerCenteredBars");
    reveal_strlit("TaskbarVisualizerBaseline");
    reveal_strlit("TaskbarVisualizerAudioSensitivity");
    reveal_strlit("TaskbarVisualizerAudioPeakLevel");
    reveal_strlit("AcrylicBlurOpacity");
    assert("LockKeysDuration"@.len() == 16);
    assert("AppTheme"@.len() == 8);
    assert("MediaFlyoutEnabled"@.len() == 18);
    assert("MediaFlyoutVolumeKeysExcluded"@.len() == 29);
    assert("nIconSymbol"@.len() == 11);
    assert("NIconHide"@.len() == 9);
    assert("DisableIfFullscreen"@.len() == 19);
    assert("LockKeysBoldUI"@.len() == 14);
    assert("TaskbarVisualizerPosition"@.len() == 25);
    assert("TaskbarVisualizerBarCount"@.len() == 25);
    assert("TaskbarVisualizerCenteredBars"@.len() == 29);
    assert("TaskbarVisualizerBaseline"@.len() == 25);
    assert("TaskbarVisualizerAudioSensitivity"@.len() == 33);
    assert("TaskbarVisualizerAudioPeakLevel"@.len() == 31);
    assert("AcrylicBlurOpacity"@.len() == 18);
    assert("MediaFlyoutVolumeKeysExcluded"@[0] == 'M');
    assert("TaskbarVisualizerCenteredBars"@[0] == 'T');
    assert("MediaFlyoutEnabled"@[0] == 'M');
    assert("AcrylicBlurOpacity"@[0] == 'A');
}

proof fn lemma_chunk_3_lacks_own(s: SettingsDto)
    ensures
        absent_before(legacy_entries_3(s), 0, "LockKeysMonitorPreference"@),
        absent_before(legacy_entries_3(s), 2, "ExclusiveTidalMode"@),
        absent_before(legacy_entries_3(s), 3, "SeekbarEnabled"@),
        absent_before(legacy_entries_3(s), 4, "PauseOtherSessionsEnabled"@),
        absent_before(legacy_entries_3(s), 5, "LockKeysInsertEnabled"@),
        absent_before(legacy_entries_3(s), 6, "MediaFlyoutBackgroundBlur"@),
        absent_before(legacy_entries_3(s), 7, "MediaFlyoutAcrylicWindowEnabled"@),
{
    reveal_strlit("LockKeysMonitorPreference");
    reveal_strlit("LastKnownVersion");
    reveal_strlit("ExclusiveTidalMode");
    reveal_strlit("SeekbarEnabled");
    reveal_strlit("PauseOtherSessionsEnabled");
    reveal_strlit("LockKeysInsertEnabled");
    reveal_strlit("MediaFlyoutBackgroundBlur");
    reveal_strlit("MediaFlyoutAcrylicWindowEnabled");
    assert("LockKeysMonitorPreference"@.len() == 25);
    assert("LastKnownVersion"@.len() == 16);
    assert("ExclusiveTidalMode"@.len() == 18);
    assert("SeekbarEnabled"@.len() == 14);
    assert("PauseOtherSessionsEnabled"@.len() == 25);
    assert("LockKeysInsertEnabled"@.len() == 21);
    assert("MediaFlyoutBackgroundBlur"@.len() == 25);
    assert("MediaFlyoutAcrylicWindowEnabled"@.len() == 31);
    assert("LockKeysMonitorPreference"@[0] == 'L');
    assert("PauseOtherSessionsEnabled"@[0] == 'P');
    assert("MediaFlyoutBackgroundBlur"@[0] == 'M');
}

proof fn lemma_chunk_3_lacks_4(s: SettingsDto)
    ensures
        absent_before(legacy_entries_3(s), 8, "TaskbarWidgetEnabled"@),
        absent_before(legacy_entries_3(s), 8, "TaskbarWidgetSelectedMonitor"@),
        absent_before(legacy_entries_3(s), 8, "TaskbarWidgetPosition"@),
        absent_before(legacy_entries_3(s), 8, "TaskbarWidgetPadding"@),
        absent_before(legacy_entries_3(s), 8, "TaskbarWidgetManualPadding"@),
{
    reveal_strlit("LockKeysMonitorPreference");
    reveal_strlit("LastKnownVersion");
    reveal_strlit("ExclusiveTidalMode");
    reveal_strlit("SeekbarEnabled");
    reveal_strlit("PauseOtherSessionsEnabled");
    reveal_strlit("LockKeysInsertEnabled");
    reveal_strlit("MediaFlyoutBackgroundBlur");
    reveal_strlit("MediaFlyoutAcrylicWindowEnabled");
    reveal_strlit("TaskbarWidgetEnabled");
    reveal_strlit("TaskbarWidgetSelectedMonitor");
    reveal_strlit("TaskbarWidgetPosition");
    reveal_strlit("TaskbarWidgetPadding");
    reveal_strlit("TaskbarWidgetManualPadding");
    assert("LockKeysMonitorPreference"@.len() == 25);
    assert("LastKnownVersion"@.len() == 16);
    assert("ExclusiveTidalMode"@.len() == 18);
    assert("SeekbarEnabled"@.len() == 14);
    assert("PauseOtherSessionsEnabled"@.len() == 25);
    assert("LockKeysInsertEnabled"@.len() == 21);
    assert("MediaFlyoutBackgroundBlur"@.len() == 25);
    assert("MediaFlyoutAcrylicWindowEnabled"@.len() == 31);
    assert("TaskbarWidgetEnabled"@.len() == 20);
    assert("TaskbarWidgetSelectedMonitor"@.len() == 28);
    assert("TaskbarWidgetPosition"@.len() == 21);
    assert("TaskbarWidgetPadding"@.len() == 20);
    assert("TaskbarWidgetManualPadding"@.len() == 26);
    assert("LockKeysInsertEnabled"@[0] == 'L');
    assert("TaskbarWidgetPosition"@[0] == 'T');
}

proof fn lemma_chunk_3_lacks_5(s: SettingsDto)
    ensures
        absent_before(legacy_entries_3(s), 8, "TaskbarWidgetClickable"@),
        absent_before(legacy_entries_3(s), 8, "TaskbarWidgetCloseableFlyout"@),
        absent_before(legacy_entries_3(s), 8, "TaskbarWidgetBackgroundBlur"@),
        absent_before(legacy_entries_3(s), 8, "TaskbarWidgetHideCompletely"@),
        absent_before(legacy_entries_3(s), 8, "TaskbarWidgetControlsEnabled"@),
        absent_before(legacy_entries_3(s), 8, "TaskbarWidgetControlsPosition"@),
        absent_before(legacy_entries_3(s), 8, "TaskbarVisualizerEnabled"@),
{
    reveal_strlit("LockKeysMonitorPreference");
    reveal_strlit("LastKnownVersion");
    reveal_strlit("ExclusiveTidalMode");
    reveal_strlit("SeekbarEnabled");
    reveal_strlit("PauseOtherSessionsEnabled");
    reveal_strlit("LockKeysInsertEnabled");
    reveal_strlit("MediaFlyoutBackgroundBlur");
    reveal_strlit("MediaFlyoutAcrylicWindowEnabled");
    reveal_strlit("TaskbarWidgetClickable");
    reveal_strlit("TaskbarWidgetCloseableFlyout");
    reveal_strlit("TaskbarWidgetBackgroundBlur");
    reveal_strlit("TaskbarWidgetHideCompletely");
    reveal_strlit("TaskbarWidgetControlsEnabled");
    reveal_strlit("TaskbarWidgetControlsPosition");
    reveal_strlit("TaskbarVisualizerEnabled");
    assert("LockKeysMonitorPreference"@.len() == 25);
    assert("LastKnownVersion"@.len() == 16);
    assert("ExclusiveTidalMode"@.len() == 18);
    assert("SeekbarEnabled"@.len() == 14);
    assert("PauseOtherSessionsEnabled"@.len() == 25);
    assert("LockKeysInsertEnabled"@.len() == 21);
    assert("MediaFlyoutBackgroundBlur"@.len() == 25);
    assert("MediaFlyoutAcrylicWindowEnabled"@.len() == 31);
    assert("TaskbarWidgetClickable"@.len() == 22);
    assert("TaskbarWidgetCloseableFlyout"@.len() == 28);
    assert("TaskbarWidgetBackgroundBlur"@.len() == 27);
    assert("TaskbarWidgetHideCompletely"@.len() == 27);
    assert("TaskbarWidgetControlsEnabled"@.len() == 28);
    assert("TaskbarWidgetControlsPosition"@.len() == 29);
    assert("TaskbarVisualizerEnabled"@.len() == 24);
}

proof fn lemma_chunk_3_lacks_6(s: SettingsDto)
    ensures
        absent_before(legacy_entries_3(s), 8, "TaskbarVisualizerPosition"@),
        absent_before(legacy_entries_3(s), 8, "TaskbarVisualizerBarCount"@),
        absent_before(legacy_entries_3(s), 8, "TaskbarVisualizerCenteredBars"@),
        absent_before(legacy_entries_3(s), 8, "TaskbarVisualizerBaseline"@),
        absent_before(legacy_entries_3(s), 8, "TaskbarVisualizerAudioSensitivity"@),
        absent_before(legacy_entries_3(s), 8, "TaskbarVisualizerAudioPeakLevel"@),
        absent_before(legacy_entries_3(s), 8, "AcrylicBlurOpacity"@),
{
    reveal_strlit("LockKeysMonitorPreference");
    reveal_strlit("LastKnownVersion");
    reveal_strlit("ExclusiveTidalMode");
    reveal_strlit("SeekbarEnabled");
    reveal_strlit("PauseOtherSessionsEnabled");
    reveal_strlit("LockKeysInsertEnabled");
    reveal_strlit("MediaFlyoutBackgroundBlur");
    reveal_strlit("MediaFlyoutAcrylicWindowEnabled");
    reveal_strlit("TaskbarVisualizerPosition");
    reveal_strlit("TaskbarVisualizerBarCount");
    reveal_strlit("TaskbarVisualizerCenteredBars");
    reveal_strlit("TaskbarVisualizerBaseline");
    reveal_strlit("TaskbarVisualizerAudioSensitivity");
    reveal_strlit("TaskbarVisualizerAudioPeakLevel");
    reveal_strlit("AcrylicBlurOpacity");
    assert("LockKeysMonitorPreference"@.len() == 25);
    assert("LastKnownVersion"@.len() == 16);
    assert("ExclusiveTidalMode"@.len() == 18);
    assert("SeekbarEnabled"@.len() == 14);
    assert("PauseOtherSessionsEnabled"@.len() == 25);
    assert("LockKeysInsertEnabled"@.len() == 21);
    assert("MediaFlyoutBackgroundBlur"@.len() == 25);
    assert("MediaFlyoutAcrylicWindowEnabled"@.len() == 31);
    assert("TaskbarVisualizerPosition"@.len() == 25);
    assert("TaskbarVisualizerBarCount"@.len() == 25);
    assert("TaskbarVisualizerCenteredBars"@.len() == 29);
    assert("TaskbarVisualizerBaseline"@.len() == 25);
    assert("TaskbarVisualizerAudioSensitivity"@.len() == 33);
    assert("TaskbarVisualizerAudioPeakLevel"@.len() == 31);
    assert("AcrylicBlurOpacity"@.len() == 18);
    assert("LockKeysMonitorPreference"@[0] == 'L');
    assert("TaskbarVisualizerPosition"@[0] == 'T');
    assert("PauseOtherSessionsEnabled"@[0] == 'P');
    assert("MediaFlyoutBackgroundBlur"@[0] == 'M');
    assert("TaskbarVisualizerBarCount"@[0] == 'T');
    assert("TaskbarVisualizerBaseline"@[0] == 'T');
    assert("MediaFlyoutAcrylicWindowEnabled"@[0] == 'M');
    assert("TaskbarVisualizerAudioPeakLevel"@[0] == 'T');
    assert("ExclusiveTidalMode"@[0] == 'E');
    assert("AcrylicBlurOpacity"@[0] == 'A');
}

proof fn lemma_chunk_4_lacks_own(s: SettingsDto)
    ensures
        absent_before(legacy_entries_4(s), 3, "TaskbarWidgetEnabled"@),
        absent_before(legacy_entries_4(s), 4, "TaskbarWidgetSelectedMonitor"@),
        absent_before(legacy_entries_4(s), 5, "TaskbarWidgetPosition"@),
        absent_before(legacy_entries_4(s), 6, "TaskbarWidgetPadding"@),
        absent_before(legacy_entries_4(s), 7, "TaskbarWidgetManualPadding"@),
{
    reveal_strlit("NextUpAcrylicWindowEnabled");
    reveal_strlit("LockKeysAcrylicWindowEnabled");
    reveal_strlit("AppLanguage");
    reveal_strlit("TaskbarWidgetEnabled");
    reveal_strlit("TaskbarWidgetSelectedMonitor");
    reveal_strlit("TaskbarWidgetPosition");
    reveal_strlit("TaskbarWidgetPadding");
    reveal_strlit("TaskbarWidgetManualPadding");
    assert("NextUpAcrylicWindowEnabled"@.len() == 26);
    assert("LockKeysAcrylicWindowEnabled"@.len() == 28);
    assert("AppLanguage"@.len() == 11);
    assert("TaskbarWidgetEnabled"@.len() == 20);
    assert("TaskbarWidgetSelectedMonitor"@.len() == 28);
    assert("TaskbarWidgetPosition"@.len() == 21);
    assert("TaskbarWidgetPadding"@.len() == 20);
    assert("TaskbarWidgetManualPadding"@.len() == 26);
    assert("LockKeysAcrylicWindowEnabled"@[0] == 'L');
    assert("TaskbarWidgetSelectedMonitor"@[0] == 'T');
    assert("TaskbarWidgetEnabled"@[13] == 'E');
    assert("TaskbarWidgetPadding"@[13] == 'P');
    assert("NextUpAcrylicWindowEnabled"@[0] == 'N');
    assert("TaskbarWidgetManualPadding"@[0] == 'T');
}

proof fn lemma_chunk_4_lacks_5(s: SettingsDto)
    ensures
        absent_before(legacy_entries_4(s), 8, "TaskbarWidgetClickable"@),
        absent_before(legacy_entries_4(s), 8, "TaskbarWidgetCloseableFlyout"@),
        absent_before(legacy_entries_4(s), 8, "TaskbarWidgetBackgroundBlur"@),
        absent_before(legacy_entries_4(s), 8, "TaskbarWidgetHideCompletely"@),
        absent_before(legacy_entries_4(s), 8, "TaskbarWidgetControlsEnabled"@),
        absent_before(legacy_entries_4(s), 8, "TaskbarWidgetControlsPosition"@),
        absent_before(legacy_entries_4(s), 8, "TaskbarVisualizerEnabled"@),
{
    reveal_strlit("NextUpAcrylicWindowEnabled");
    reveal_strlit("LockKeysAcrylicWindowEnabled");
    reveal_strlit("AppLanguage");
    reveal_strlit("TaskbarWidgetEnabled");
    reveal_strlit("TaskbarWidgetSelectedMonitor");
    reveal_strlit("TaskbarWidgetPosition");
    reveal_strlit("TaskbarWidgetPadding");
    reveal_strlit("TaskbarWidgetManualPadding");
    reveal_strlit("TaskbarWidgetClickable");
    reveal_strlit("TaskbarWidgetCloseableFlyout");
    reveal_strlit("TaskbarWidgetBackgroundBlur");
    reveal_strlit("TaskbarWidgetHideCompletely");
    reveal_strlit("TaskbarWidgetControlsEnabled");
    reveal_strlit("TaskbarWidgetControlsPosition");
    reveal_strlit("TaskbarVisualizerEnabled");
    assert("NextUpAcrylicWindowEnabled"@.len() == 26);
    assert("LockKeysAcrylicWindowEnabled"@.len() == 28);
    assert("AppLanguage"@.len() == 11);
    assert("TaskbarWidgetEnabled"@.len() == 20);
    assert("TaskbarWidgetSelectedMonitor"@.len() == 28);
    assert("TaskbarWidgetPosition"@.len() == 21);
    assert("TaskbarWidgetPadding"@.len() == 20);
    assert("TaskbarWidgetManualPadding"@.len() == 26);
    assert("TaskbarWidgetClickable"@.len() == 22);
    assert("TaskbarWidgetCloseableFlyout"@.len() == 28);
    assert("TaskbarWidgetBackgroundBlur"@.len() == 27);
    assert("TaskbarWidgetHideCompletely"@.len() == 27);
    assert("TaskbarWidgetControlsEnabled"@.len() == 28);
    assert("TaskbarWidgetControlsPosition"@.len() == 29);
    assert("TaskbarVisualizerEnabled"@.len() == 24);
    assert("LockKeysAcrylicWindowEnabled"@[0] == 'L');
    assert("TaskbarWidgetCloseableFlyout"@[0] == 'T');
    assert("TaskbarWidgetSelectedMonitor"@[13] == 'S');
    assert("TaskbarWidgetCloseableFlyout"@[13] == 'C');
    assert("TaskbarWidgetControlsEnabled"@[0] == 'T');
    assert("TaskbarWidgetControlsEnabled"@[13] == 'C');
}

proof fn lemma_chunk_4_lacks_6(s: SettingsDto)
    ensures
        absent_before(legacy_entries_4(s), 8, "TaskbarVisualizerPosition"@),
        absent_before(legacy_entries_4(s), 8, "TaskbarVisualizerBarCount"@),
        absent_before(legacy_entries_4(s), 8, "TaskbarVisualizerCenteredBars"@),
        absent_before(legacy_entries_4(s), 8, "TaskbarVisualizerBaseline"@),
        absent_before(legacy_entries_4(s), 8, "TaskbarVisualizerAudioSensitivity"@),
        absent_before(legacy_entries_4(s), 8, "TaskbarVisualizerAudioPeakLevel"@),
        absent_before(legacy_entries_4(s), 8, "AcrylicBlurOpacity"@),
{
    reveal_strlit("NextUpAcrylicWindowEnabled");
    reveal_strlit("LockKeysAcrylicWindowEnabled");
    reveal_strlit("AppLanguage");
    reveal_strlit("TaskbarWidgetEnabled");
    reveal_strlit("TaskbarWidgetSelectedMonitor");
    reveal_strlit("TaskbarWidgetPosition");
    reveal_strlit("TaskbarWidgetPadding");
    reveal_strlit("TaskbarWidgetManualPadding");
    reveal_strlit("TaskbarVisualizerPosition");
    reveal_strlit("TaskbarVisualizerBarCount");
    reveal_strlit("TaskbarVisualizerCenteredBars");
    reveal_strlit("TaskbarVisualizerBaseline");
    reveal_strlit("TaskbarVisualizerAudioSensitivity");
    reveal_strlit("TaskbarVisualizerAudioPeakLevel");
    reveal_strlit("AcrylicBlurOpacity");
    assert("NextUpAcrylicWindowEnabled"@.len() == 26);
    assert("LockKeysAcrylicWindowEnabled"@.len() == 28);
    assert("AppLanguage"@.len() == 11);
    assert("TaskbarWidgetEnabled"@.len() == 20);
    assert("TaskbarWidgetSelectedMonitor"@.len() == 28);
    assert("TaskbarWidgetPosition"@.len() == 21);
    assert("TaskbarWidgetPadding"@.len() == 20);
    assert("TaskbarWidgetManualPadding"@.len() == 26);
    assert("TaskbarVisualizerPosition"@.len() == 25);
    assert("TaskbarVisualizerBarCount"@.len() == 25);
    assert("TaskbarVisualizerCenteredBars"@.len() == 29);
    assert("TaskbarVisualizerBaseline"@.len() == 25);
    assert("TaskbarVisualizerAudioSensitivity"@.len() == 33);
    assert("TaskbarVisualizerAudioPeakLevel"@.len() == 31);
    assert("AcrylicBlurOpacity"@.len() == 18);
}

proof fn lemma_chunk_5_lacks_own(s: SettingsDto)
    ensures
        absent_before(legacy_entries_5(s), 0, "TaskbarWidgetClickable"@),
        absent_before(legacy_entries_5(s), 1, "TaskbarWidgetCloseableFlyout"@),
        absent_before(legacy_entries_5(s), 2, "TaskbarWidgetBackgroundBlur"@),
        absent_before(legacy_entries_5(s), 3, "TaskbarWidgetHideCompletely"@),
        absent_before(legacy_entries_5(s), 4, "TaskbarWidgetControlsEnabled"@),
        absent_before(legacy_entries_5(s), 5, "TaskbarWidgetControlsPosition"@),
        absent_before(legacy_entries_5(s), 7, "TaskbarVisualizerEnabled"@),
{
    reveal_strlit("TaskbarWidgetClickable");
    reveal_strlit("TaskbarWidgetCloseableFlyout");
    reveal_strlit("TaskbarWidgetBackgroundBlur");
    reveal_strlit("TaskbarWidgetHideCompletely");
    reveal_strlit("TaskbarWidgetControlsEnabled");
    reveal_strlit("TaskbarWidgetControlsPosition");
    reveal_strlit("TaskbarWidgetAnimated");
    reveal_strlit("TaskbarVisualizerEnabled");
    assert("TaskbarWidgetClickable"@.len() == 22);
    assert("TaskbarWidgetCloseableFlyout"@.len() == 28);
    assert("TaskbarWidgetBackgroundBlur"@.len() == 27);
    assert("TaskbarWidgetHideCompletely"@.len() == 27);
    assert("TaskbarWidgetControlsEnabled"@.len() == 28);
    assert("TaskbarWidgetControlsPosition"@.len() == 29);
    assert("TaskbarWidgetAnimated"@.len() == 21);
    assert("TaskbarVisualizerEnabled"@.len() == 24);
    assert("TaskbarWidgetBackgroundBlur"@[13] == 'B');
    assert("TaskbarWidgetHideCompletely"@[13] == 'H');
    assert("TaskbarWidgetCloseableFlyout"@[14] == 'l');
    assert("TaskbarWidgetControlsEnabled"@[14] == 'o');
}

proof fn lemma_chunk_5_lacks_6(s: SettingsDto)
    ensures
        absent_before(legacy_entries_5(s), 8, "TaskbarVisualizerPosition"@),
        absent_before(legacy_entries_5(s), 8, "TaskbarVisualizerBarCount"@),
        absent_before(legacy_entries_5(s), 8, "TaskbarVisualizerCenteredBars"@),
        absent_before(legacy_entries_5(s), 8, "TaskbarVisualizerBaseline"@),
        absent_before(legacy_entries_5(s), 8, "TaskbarVisualizerAudioSensitivity"@),
        absent_before(legacy_entries_5(s), 8, "TaskbarVisualizerAudioPeakLevel"@),
        absent_before(legacy_entries_5(s), 8, "AcrylicBlurOpacity"@),
{
    reveal_strlit("TaskbarWidgetClickable");
    reveal_strlit("TaskbarWidgetCloseableFlyout");
    reveal_strlit("TaskbarWidgetBackgroundBlur");
    reveal_strlit("TaskbarWidgetHideCompletely");
    reveal_strlit("TaskbarWidgetControlsEnabled");
    reveal_strlit("TaskbarWidgetControlsPosition");
    reveal_strlit("TaskbarWidgetAnimated");
    reveal_strlit("TaskbarVisualizerEnabled");
    reveal_strlit("TaskbarVisualizerPosition");
    reveal_strlit("TaskbarVisualizerBarCount");
    reveal_strlit("TaskbarVisualizerCenteredBars");
    reveal_strlit("TaskbarVisualizerBaseline");
    reveal_strlit("TaskbarVisualizerAudioSensitivity");
    reveal_strlit("TaskbarVisualizerAudioPeakLevel");
    reveal_strlit("AcrylicBlurOpacity");
    assert("TaskbarWidgetClickable"@.len() == 22);
    assert("TaskbarWidgetCloseableFlyout"@.len() == 28);
    assert("TaskbarWidgetBackgroundBlur"@.len() == 27);
    assert("TaskbarWidgetHideCompletely"@.len() == 27);
    assert("TaskbarWidgetControlsEnabled"@.len() == 28);
    assert("TaskbarWidgetControlsPosition"@.len() == 29);
    assert("TaskbarWidgetAnimated"@.len() == 21);
    assert("TaskbarVisualizerEnabled"@.len() == 24);
    assert("TaskbarVisualizerPosition"@.len() == 25);
    assert("TaskbarVisualizerBarCount"@.len() == 25);
    assert("TaskbarVisualizerCenteredBars"@.len() == 29);
    assert("TaskbarVisualizerBaseline"@.len() == 25);
    assert("TaskbarVisualizerAudioSensitivity"@.len() == 33);
    assert("TaskbarVisualizerAudioPeakLevel"@.len() == 31);
    assert("AcrylicBlurOpacity"@.len() == 18);
    assert("TaskbarWidgetControlsPosition"@[7] == 'W');
    assert("TaskbarVisualizerCenteredBars"@[7] == 'V');
}

proof fn lemma_chunk_6_lacks_own(s: SettingsDto)
    ensures
        absent_before(legacy_entries_6(s), 0, "TaskbarVisualizerPosition"@),
        absent_before(legacy_entries_6(s), 2, "TaskbarVisualizerBarCount"@),
        absent_before(legacy_entries_6(s), 3, "TaskbarVisualizerCenteredBars"@),
        absent_before(legacy_entries_6(s), 4, "TaskbarVisualizerBaseline"@),
        absent_before(legacy_entries_6(s), 5, "TaskbarVisualizerAudioSensitivity"@),
        absent_before(legacy_entries_6(s), 6, "TaskbarVisualizerAudioPeakLevel"@),
        absent_before(legacy_entries_6(s), 7, "AcrylicBlurOpacity"@),
{
    reveal_strlit("TaskbarVisualizerPosition");
    reveal_strlit("TaskbarVisualizerClickable");
    reveal_strlit("TaskbarVisualizerBarCount");
    reveal_strlit("TaskbarVisualizerCenteredBars");
    reveal_strlit("TaskbarVisualizerBaseline");
    reveal_strlit("TaskbarVisualizerAudioSensitivity");
    reveal_strlit("TaskbarVisualizerAudioPeakLevel");
    reveal_strlit("AcrylicBlurOpacity");
    assert("TaskbarVisualizerPosition"@.len() == 25);
    assert("TaskbarVisualizerClickable"@.len() == 26);
    assert("TaskbarVisualizerBarCount"@.len() == 25);
    assert("TaskbarVisualizerCenteredBars"@.len() == 29);
    assert("TaskbarVisualizerBaseline"@.len() == 25);
    assert("TaskbarVisualizerAudioSensitivity"@.len() == 33);
    assert("TaskbarVisualizerAudioPeakLevel"@.len() == 31);
    assert("AcrylicBlurOpacity"@.len() == 18);
    assert("TaskbarVisualizerPosition"@[17] == 'P');
    assert("TaskbarVisualizerBarCount"@[17] == 'B');
    assert("TaskbarVisualizerBaseline"@[17] == 'B');
    assert("TaskbarVisualizerBarCount"@[19] == 'r');
    assert("TaskbarVisualizerBaseline"@[19] == 's');
}

/// The imported settings of lines 1 to 8 read back from the legacy document.
proof fn lemma_chunk_0_read_back(s: SettingsDto)
    ensures
        spec_tag_value(legacy_document(s), "CompactLayout"@) == Some(text::trim(text::bool_chars(s.compact_layout))),
        spec_tag_value(legacy_document(s), "FlyoutSelectedMonitor"@) == Some(text::trim(text::int_text(s.flyout_selected_monitor as int))),
        spec_tag_value(legacy_document(s), "Position"@) == Some(text::trim(text::int_text(s.position as int))),
        spec_tag_value(legacy_document(s), "PlayerInfoEnabled"@) == Some(text::trim(text::bool_chars(s.player_info_enabled))),
        spec_tag_value(legacy_document(s), "RepeatEnabled"@) == Some(text::trim(text::bool_chars(s.repeat_enabled))),
        spec_tag_value(legacy_document(s), "ShuffleEnabled"@) == Some(text::trim(text::bool_chars(s.shuffle_enabled))),
        spec_tag_value(legacy_document(s), "Startup"@) == Some(text::trim(text::bool_chars(s.startup))),
{
    let es = legacy_entries(s);
    lemma_legacy_lines(s);
    lemma_chunk_0_lacks_own(s);
    assert(es[0] == legacy_entries_0(s)[0]);
    lemma_absent_extend(legacy_entries_0(s), legacy_entries_1(s), 0, "CompactLayout"@);
    lemma_absent_extend(legacy_entries_0(s) + legacy_entries_1(s), legacy_entries_2(s), 0, "CompactLayout"@);
    lemma_absent_extend(legacy_entries_0(s) + legacy_entries_1(s) + legacy_entries_2(s), legacy_entries_3(s), 0, "CompactLayout"@);
    lemma_absent_extend(legacy_entries_0(s) + legacy_entries_1(s) + legacy_entries_2(s) + legacy_entries_3(s), legacy_entries_4(s), 0, "CompactLayout"@);
    lemma_absent_extend(legacy_entries_0(s) + legacy_entries_1(s) + legacy_entries_2(s) + legacy_entries_3(s) + legacy_entries_4(s), legacy_entries_5(s), 0, "CompactLayout"@);
    lemma_absent_extend(legacy_entries_0(s) + legacy_entries_1(s) + legacy_entries_2(s) + legacy_entries_3(s) + legacy_entries_4(s) + legacy_entries_5(s), legacy_entries_6(s), 0, "CompactLayout"@);
    lemma_absent_extend(legacy_entries_0(s) + legacy_entries_1(s) + legacy_entries_2(s) + legacy_entries_3(s) + legacy_entries_4(s) + legacy_entries_5(s) + legacy_entries_6(s), legacy_entries_7(s), 0, "CompactLayout"@);
    lemma_document_read_back(es, 0, "</UserSettings>\n"@);
    assert(es[1] == legacy_entries_0(s)[1]);
    lemma_absent_extend(legacy_entries_0(s), legacy_entries_1(s), 1, "FlyoutSelectedMonitor"@);
    lemma_absent_extend(legacy_entries_0(s) + legacy_entries_1(s), legacy_entries_2(s), 1, "FlyoutSelectedMonitor"@);
    lemma_absent_extend(legacy_entries_0(s) + legacy_entries_1(s) + legacy_entries_2(s), legacy_entries_3(s), 1, "FlyoutSelectedMonitor"@);
    lemma_absent_extend(legacy_entries_0(s) + legacy_entries_1(s) + legacy_entries_2(s) + legacy_entries_3(s), legacy_entries_4(s), 1, "FlyoutSelectedMonitor"@);
    lemma_absent_extend(legacy_entries_0(s) + legacy_entries_1(s) + legacy_entries_2(s) + legacy_entries_3(s) + legacy_entries_4(s), legacy_entries_5(s), 1, "FlyoutSelectedMonitor"@);
    lemma_absent_extend(legacy_entries_0(s) + legacy_entries_1(s) + legacy_entries_2(s) + legacy_entries_3(s) + legacy_entries_4(s) + legacy_entries_5(s), legacy_entries_6(s), 1, "FlyoutSelectedMonitor"@);
    lemma_absent_extend(legacy_entries_0(s) + legacy_entries_1(s) + legacy_entries_2(s) + legacy_entries_3(s) + legacy_entries_4(s) + legacy_entries_5(s) + legacy_entries_6(s), legacy_entries_7(s), 1, "FlyoutSelectedMonitor"@);
    lemma_document_read_back(es, 1, "</UserSettings>\n"@);
    assert(es[2] == legacy_entries_0(s)[2]);
    lemma_absent_extend(legacy_entries_0(s), legacy_entries_1(s), 2, "Position"@);
    lemma_absent_extend(legacy_entries_0(s) + legacy_entries_1(s), legacy_entries_2(s), 2, "Position"@);
    lemma_absent_extend(legacy_entries_0(s) + legacy_entries_1(s) + legacy_entries_2(s), legacy_entries_3(s), 2, "Position"@);
    lemma_absent_extend(legacy_entries_0(s) + legacy_entries_1(s) + legacy_entries_2(s) + legacy_entries_3(s), legacy_entries_4(s), 2, "Position"@);
    lemma_absent_extend(legacy_entries_0(s) + legacy_entries_1(s) + legacy_entries_2(s) + legacy_entries_3(s) + legacy_entries_4(s), legacy_entries_5(s), 2, "Position"@);
    lemma_absent_extend(legacy_entries_0(s) + legacy_entries_1(s) + legacy_entries_2(s) + legacy_entries_3(s) + legacy_entries_4(s) + legacy_entries_5(s), legacy_entries_6(s), 2, "Position"@);
    lemma_absent_extend(legacy_entries_0(s) + legacy_entries_1(s) + legacy_entries_2(s) + legacy_entries_3(s) + legacy_entries_4(s) + legacy_entries_5(s) + legacy_entries_6(s), legacy_entries_7(s), 2, "Position"@);
    lemma_document_read_back(es, 2, "</UserSettings>\n"@);
    assert(es[4] == legacy_entries_0(s)[4]);
    lemma_absent_extend(legacy_entries_0(s), legacy_entries_1(s), 4, "PlayerInfoEnabled"@);
    lemma_absent_extend(legacy_entries_0(s) + legacy_entries_1(s), legacy_entries_2(s), 4, "PlayerInfoEnabled"@);
    lemma_absent_extend(legacy_entries_0(s) + legacy_entries_1(s) + legacy_entries_2(s), legacy_entries_3(s), 4, "PlayerInfoEnabled"@);
    lemma_absent_extend(legacy_entries_0(s) + legacy_entries_1(s) + legacy_entries_2(s) + legacy_entries_3(s), legacy_entries_4(s), 4, "PlayerInfoEnabled"@);
    lemma_absent_extend(legacy_entries_0(s) + legacy_entries_1(s) + legacy_entries_2(s) + legacy_entries_3(s) + legacy_entries_4(s), legacy_entries_5(s), 4, "PlayerInfoEnabled"@);
    lemma_absent_extend(legacy_entries_0(s) + legacy_entries_1(s) + legacy_entries_2(s) + legacy_entries_3(s) + legacy_entries_4(s) + legacy_entries_5(s), legacy_entries_6(s), 4, "PlayerInfoEnabled"@);
    lemma_absent_extend(legacy_entries_0(s) + legacy_entries_1(s) + legacy_entries_2(s) + legacy_entries_3(s) + legacy_entries_4(s) + legacy_entries_5(s) + legacy_entries_6(s), legacy_entries_7(s), 4, "PlayerInfoEnabled"@);
    lemma_document_read_back(es, 4, "</UserSettings>\n"@);
    assert(es[5] == legacy_entries_0(s)[5]);
    lemma_absent_extend(legacy_entries_0(s), legacy_entries_1(s), 5, "RepeatEnabled"@);
    lemma_absent_extend(legacy_entries_0(s) + legacy_entries_1(s), legacy_entries_2(s), 5, "RepeatEnabled"@);
    lemma_absent_extend(legacy_entries_0(s) + legacy_entries_1(s) + legacy_entries_2(s), legacy_entries_3(s), 5, "RepeatEnabled"@);
    lemma_absent_extend(legacy_entries_0(s) + legacy_entries_1(s) + legacy_entries_2(s) + legacy_entries_3(s), legacy_entries_4(s), 5, "RepeatEnabled"@);
    lemma_absent_extend(legacy_entries_0(s) + legacy_entries_1(s) + legacy_entries_2(s) + legacy_entries_3(s) + legacy_entries_4(s), legacy_entries_5(s), 5, "RepeatEnabled"@);
    lemma_absent_extend(legacy_entries_0(s) + legacy_entries_1(s) + legacy_entries_2(s) + legacy_entries_3(s) + legacy_entries_4(s) + legacy_entries_5(s), legacy_entries_6(s), 5, "RepeatEnabled"@);
    lemma_absent_extend(legacy_entries_0(s) + legacy_entries_1(s) + legacy_entries_2(s) + legacy_entries_3(s) + legacy_entries_4(s) + legacy_entries_5(s) + legacy_entries_6(s), legacy_entries_7(s), 5, "RepeatEnabled"@);
    lemma_document_read_back(es, 5, "</UserSettings>\n"@);
    assert(es[6] == legacy_entries_0(s)[6]);
    lemma_absent_extend(legacy_entries_0(s), legacy_entries_1(s), 6, "ShuffleEnabled"@);
    lemma_absent_extend(legacy_entries_0(s) + legacy_entries_1(s), legacy_entries_2(s), 6, "ShuffleEnabled"@);
    lemma_absent_extend(legacy_entries_0(s) + legacy_entries_1(s) + legacy_entries_2(s), legacy_entries_3(s), 6, "ShuffleEnabled"@);
    lemma_absent_extend(legacy_entries_0(s) + legacy_entries_1(s) + legacy_entries_2(s) + legacy_entries_3(s), legacy_entries_4(s), 6, "ShuffleEnabled"@);
    lemma_absent_extend(legacy_entries_0(s) + legacy_entries_1(s) + legacy_entries_2(s) + legacy_entries_3(s) + legacy_entries_4(s), legacy_entries_5(s), 6, "ShuffleEnabled"@);
    lemma_absent_extend(legacy_entries_0(s) + legacy_entries_1(s) + legacy_entries_2(s) + legacy_entries_3(s) + legacy_entries_4(s) + legacy_entries_5(s), legacy_entries_6(s), 6, "ShuffleEnabled"@);
    lemma_absent_extend(legacy_entries_0(s) + legacy_entries_1(s) + legacy_entries_2(s) + legacy_entries_3(s) + legacy_entries_4(s) + legacy_entries_5(s) + legacy_entries_6(s), legacy_entries_7(s), 6, "ShuffleEnabled"@);
    lemma_document_read_back(es, 6, "</UserSettings>\n"@);
    assert(es[7] == legacy_entries_0(s)[7]);
    lemma_absent_extend(legacy_entries_0(s), legacy_entries_1(s), 7, "Startup"@);
    lemma_absent_extend(legacy_entries_0(s) + legacy_entries_1(s), legacy_entries_2(s), 7, "Startup"@);
    lemma_absent_extend(legacy_entries_0(s) + legacy_entries_1(s) + legacy_entries_2(s), legacy_entries_3(s), 7, "Startup"@);
    lemma_absent_extend(legacy_entries_0(s) + legacy_entries_1(s) + legacy_entries_2(s) + legacy_entries_3(s), legacy_entries_4(s), 7, "Startup"@);
    lemma_absent_extend(legacy_entries_0(s) + legacy_entries_1(s) + legacy_entries_2(s) + legacy_entries_3(s) + legacy_entries_4(s), legacy_entries_5(s), 7, "Startup"@);
    lemma_absent_extend(legacy_entries_0(s) + legacy_entries_1(s) + legacy_entries_2(s) + legacy_entries_3(s) + legacy_entries_4(s) + legacy_entries_5(s), legacy_entries_6(s), 7, "Startup"@);
    lemma_absent_extend(legacy_entries_0(s) + legacy_entries_1(s) + legacy_entries_2(s) + legacy_entries_3(s) + legacy_entries_4(s) + legacy_entries_5(s) + legacy_entries_6(s), legacy_entries_7(s), 7, "Startup"@);
    lemma_document_read_back(es, 7, "</UserSettings>\n"@);
}

/// The imported settings of lines 9 to 16 read back from the legacy document.
proof fn lemma_chunk_1_read_back(s: SettingsDto)
    ensures
        spec_tag_value(legacy_document(s), "MediaFlyoutAlwaysDisplay"@) == Some(text::trim(text::bool_chars(s.media_flyout_always_display))),
        spec_tag_value(legacy_document(s), "Duration"@) == Some(text::trim(text::int_text(s.duration as int))),
        spec_tag_value(legacy_document(s), "NextUpEnabled"@) == Some(text::trim(text::bool_chars(s.next_up_enabled))),
        spec_tag_value(legacy_document(s), "NextUpDuration"@) == Some(text::trim(text::int_text(s.next_up_duration as int))),
        spec_tag_value(legacy_document(s), "nIconLeftClick"@) == Some(text::trim(text::int_text(s.nicon_left_click as int))),
        spec_tag_value(legacy_document(s), "CenterTitleArtist"@) == Some(text::trim(text::bool_chars(s.center_title_artist))),
        spec_tag_value(legacy_document(s), "LockKeysEnabled"@) == Some(text::trim(text::bool_chars(s.lock_keys_enabled))),
{
    let es = legacy_entries(s);
    lemma_legacy_lines(s);
    lemma_chunk_0_lacks_1(s);
    lemma_chunk_1_lacks_own(s);
    assert(es[8] == legacy_entries_1(s)[0]);
    lemma_absent_join(legacy_entries_0(s), legacy_entries_1(s), 0, "MediaFlyoutAlwaysDisplay"@);
    lemma_absent_extend(legacy_entries_0(s) + legacy_entries_1(s), legacy_entries_2(s), 8, "MediaFlyoutAlwaysDisplay"@);
    lemma_absent_extend(legacy_entries_0(s) + legacy_entries_1(s) + legacy_entries_2(s), legacy_entries_3(s), 8, "MediaFlyoutAlwaysDisplay"@);
    lemma_absent_extend(legacy_entries_0(s) + legacy_entries_1(s) + legacy_entries_2(s) + legacy_entries_3(s), legacy_entries_4(s), 8, "MediaFlyoutAlwaysDisplay"@);
    lemma_absent_extend(legacy_entries_0(s) + legacy_entries_1(s) + legacy_entries_2(s) + legacy_entries_3(s) + legacy_entries_4(s), legacy_entries_5(s), 8, "MediaFlyoutAlwaysDisplay"@);
    lemma_absent_extend(legacy_entries_0(s) + legacy_entries_1(s) + legacy_entries_2(s) + legacy_entries_3(s) + legacy_entries_4(s) + legacy_entries_5(s), legacy_entries_6(s), 8, "MediaFlyoutAlwaysDisplay"@);
    lemma_absent_extend(legacy_entries_0(s) + legacy_entries_1(s) + legacy_entries_2(s) + legacy_entries_3(s) + legacy_entries_4(s) + legacy_entries_5(s) + legacy_entries_6(s), legacy_entries_7(s), 8, "MediaFlyoutAlwaysDisplay"@);
    lemma_document_read_back(es, 8, "</UserSettings>\n"@);
    assert(es[9] == legacy_entries_1(s)[1]);
    lemma_absent_join(legacy_entries_0(s), legacy_entries_1(s), 1, "Duration"@);
    lemma_absent_extend(legacy_entries_0(s) + legacy_entries_1(s), legacy_entries_2(s), 9, "Duration"@);
    lemma_absent_extend(legacy_entries_0(s) + legacy_entries_1(s) + legacy_entries_2(s), legacy_entries_3(s), 9, "Duration"@);
    lemma_absent_extend(legacy_entries_0(s) + legacy_entries_1(s) + legacy_entries_2(s) + legacy_entries_3(s), legacy_entries_4(s), 9, "Duration"@);
    lemma_absent_extend(legacy_entries_0(s) + legacy_entries_1(s) + legacy_entries_2(s) + legacy_entries_3(s) + legacy_entries_4(s), legacy_entries_5(s), 9, "Duration"@);
    lemma_absent_extend(legacy_entries_0(s) + legacy_entries_1(s) + legacy_entries_2(s) + legacy_entries_3(s) + legacy_entries_4(s) + legacy_entries_5(s), legacy_entries_6(s), 9, "Duration"@);
    lemma_absent_extend(legacy_entries_0(s) + legacy_entries_1(s) + legacy_entries_2(s) + legacy_entries_3(s) + legacy_entries_4(s) + legacy_entries_5(s) + legacy_entries_6(s), legacy_entries_7(s), 9, "Duration"@);
    lemma_document_read_back(es, 9, "</UserSettings>\n"@);
    assert(es[10] == legacy_entries_1(s)[2]);
    lemma_absent_join(legacy_entries_0(s), legacy_entries_1(s), 2, "NextUpEnabled"@);
    lemma_absent_extend(legacy_entries_0(s) + legacy_entries_1(s), legacy_entries_2(s), 10, "NextUpEnabled"@);
    lemma_absent_extend(legacy_entries_0(s) + legacy_entries_1(s) + legacy_entries_2(s), legacy_entries_3(s), 10, "NextUpEnabled"@);
    lemma_absent_extend(legacy_entries_0(s) + legacy_entries_1(s) + legacy_entries_2(s) + legacy_entries_3(s), legacy_entries_4(s), 10, "NextUpEnabled"@);
    lemma_absent_extend(legacy_entries_0(s) + legacy_entries_1(s) + legacy_entries_2(s) + legacy_entries_3(s) + legacy_entries_4(s), legacy_entries_5(s), 10, "NextUpEnabled"@);
    lemma_absent_extend(legacy_entries_0(s) + legacy_entries_1(s) + legacy_entries_2(s) + legacy_entries_3(s) + legacy_entries_4(s) + legacy_entries_5(s), legacy_entries_6(s), 10, "NextUpEnabled"@);
    lemma_absent_extend(legacy_entries_0(s) + legacy_entries_1(s) + legacy_entries_2(s) + legacy_entries_3(s) + legacy_entries_4(s) + legacy_entries_5(s) + legacy_entries_6(s), legacy_entries_7(s), 10, "NextUpEnabled"@);
    lemma_document_read_back(es, 10, "</UserSettings>\n"@);
    assert(es[11] == legacy_entries_1(s)[3]);
    lemma_absent_join(legacy_entries_0(s), legacy_entries_1(s), 3, "NextUpDuration"@);
    lemma_absent_extend(legacy_entries_0(s) + legacy_entries_1(s), legacy_entries_2(s), 11, "NextUpDuration"@);
    lemma_absent_extend(legacy_entries_0(s) + legacy_entries_1(s) + legacy_entries_2(s), legacy_entries_3(s), 11, "NextUpDuration"@);
    lemma_absent_extend(legacy_entries_0(s) + legacy_entries_1(s) + legacy_entries_2(s) + legacy_entries_3(s), legacy_entries_4(s), 11, "NextUpDuration"@);
    lemma_absent_extend(legacy_entries_0(s) + legacy_entries_1(s) + legacy_entries_2(s) + legacy_entries_3(s) + legacy_entries_4(s), legacy_entries_5(s), 11, "NextUpDuration"@);
    lemma_absent_extend(legacy_entries_0(s) + legacy_entries_1(s) + legacy_entries_2(s) + legacy_entries_3(s) + legacy_entries_4(s) + legacy_entries_5(s), legacy_entries_6(s), 11, "NextUpDuration"@);
    lemma_absent_extend(legacy_entries_0(s) + legacy_entries_1(s) + legacy_entries_2(s) + legacy_entries_3(s) + legacy_entries_4(s) + legacy_entries_5(s) + legacy_entries_6(s), legacy_entries_7(s), 11, "NextUpDuration"@);
    lemma_document_read_back(es, 11, "</UserSettings>\n"@);
    assert(es[12] == legacy_entries_1(s)[4]);
    lemma_absent_join(legacy_entries_0(s), legacy_entries_1(s), 4, "nIconLeftClick"@);
    lemma_absent_extend(legacy_entries_0(s) + legacy_entries_1(s), legacy_entries_2(s), 12, "nIconLeftClick"@);
    lemma_absent_extend(legacy_entries_0(s) + legacy_entries_1(s) + legacy_entries_2(s), legacy_entries_3(s), 12, "nIconLeftClick"@);
    lemma_absent_extend(legacy_entries_0(s) + legacy_entries_1(s) + legacy_entries_2(s) + legacy_entries_3(s), legacy_entries_4(s), 12, "nIconLeftClick"@);
    lemma_absent_extend(legacy_entries_0(s) + legacy_entries_1(s) + legacy_entries_2(s) + legacy_entries_3(s) + legacy_entries_4(s), legacy_entries_5(s), 12, "nIconLeftClick"@);
    lemma_absent_extend(legacy_entries_0(s) + legacy_entries_1(s) + legacy_entries_2(s) + legacy_entries_3(s) + legacy_entries_4(s) + legacy_entries_5(s), legacy_entries_6(s), 12, "nIconLeftClick"@);
    lemma_absent_extend(legacy_entries_0(s) + legacy_entries_1(s) + legacy_entries_2(s) + legacy_entries_3(s) + legacy_entries_4(s) + legacy_entries_5(s) + legacy_entries_6(s), legacy_entries_7(s), 12, "nIconLeftClick"@);
    lemma_document_read_back(es, 12, "</UserSettings>\n"@);
    assert(es[13] == legacy_entries_1(s)[5]);
    lemma_absent_join(legacy_entries_0(s), legacy_entries_1(s), 5, "CenterTitleArtist"@);
    lemma_absent_extend(legacy_entries_0(s) + legacy_entries_1(s), legacy_entries_2(s), 13, "CenterTitleArtist"@);
    lemma_absent_extend(legacy_entries_0(s) + legacy_entries_1(s) + legacy_entries_2(s), legacy_entries_3(s), 13, "CenterTitleArtist"@);
    lemma_absent_extend(legacy_entries_0(s) + legacy_entries_1(s) + legacy_entries_2(s) + legacy_entries_3(s), legacy_entries_4(s), 13, "CenterTitleArtist"@);
    lemma_absent_extend(legacy_entries_0(s) + legacy_entries_1(s) + legacy_entries_2(s) + legacy_entries_3(s) + legacy_entries_4(s), legacy_entries_5(s), 13, "CenterTitleArtist"@);
    lemma_absent_extend(legacy_entries_0(s) + legacy_entries_1(s) + legacy_entries_2(s) + legacy_entries_3(s) + legacy_entries_4(s) + legacy_entries_5(s), legacy_entries_6(s), 13, "CenterTitleArtist"@);
    lemma_absent_extend(legacy_entries_0(s) + legacy_entries_1(s) + legacy_entries_2(s) + legacy_entries_3(s) + legacy_entries_4(s) + legacy_entries_5(s) + legacy_entries_6(s), legacy_entries_7(s), 13, "CenterTitleArtist"@);
    lemma_document_read_back(es, 13, "</UserSettings>\n"@);
    assert(es[15] == legacy_entries_1(s)[7]);
    lemma_absent_join(legacy_entries_0(s), legacy_entries_1(s), 7, "LockKeysEnabled"@);
    lemma_absent_extend(legacy_entries_0(s) + legacy_entries_1(s), legacy_entries_2(s), 15, "LockKeysEnabled"@);
    lemma_absent_extend(legacy_entries_0(s) + legacy_entries_1(s) + legacy_entries_2(s), legacy_entries_3(s), 15, "LockKeysEnabled"@);
    lemma_absent_extend(legacy_entries_0(s) + legacy_entries_1(s) + legacy_entries_2(s) + legacy_entries_3(s), legacy_entries_4(s), 15, "LockKeysEnabled"@);
    lemma_absent_extend(legacy_entries_0(s) + legacy_entries_1(s) + legacy_entries_2(s) + legacy_entries_3(s) + legacy_entries_4(s), legacy_entries_5(s), 15, "LockKeysEnabled"@);
    lemma_absent_extend(legacy_entries_0(s) + legacy_entries_1(s) + legacy_entries_2(s) + legacy_entries_3(s) + legacy_entries_4(s) + legacy_entries_5(s), legacy_entries_6(s), 15, "LockKeysEnabled"@);
    lemma_absent_extend(legacy_entries_0(s) + legacy_entries_1(s) + legacy_entries_2(s) + legacy_entries_3(s) + legacy_entries_4(s) + legacy_entries_5(s) + legacy_entries_6(s), legacy_entries_7(s), 15, "LockKeysEnabled"@);
    lemma_document_read_back(es, 15, "</UserSettings>\n"@);
}

/// The imported settings of lines 17 to 24 read back from the legacy document.
proof fn lemma_chunk_2_read_back(s: SettingsDto)
    ensures
        spec_tag_value(legacy_document(s), "LockKeysDuration"@) == Some(text::trim(text::int_text(s.lock_keys_duration as int))),
        spec_tag_value(legacy_document(s), "AppTheme"@) == Some(text::trim(text::int_text(s.app_theme as int))),
        spec_tag_value(legacy_document(s), "MediaFlyoutEnabled"@) == Some(text::trim(text::bool_chars(s.media_flyout_enabled))),
        spec_tag_value(legacy_document(s), "MediaFlyoutVolumeKeysExcluded"@) == Some(text::trim(text::bool_chars(s.media_flyout_volume_keys_excluded))),
        spec_tag_value(legacy_document(s), "nIconSymbol"@) == Some(text::trim(text::bool_chars(s.nicon_symbol))),
        spec_tag_value(legacy_document(s), "NIconHide"@) == Some(text::trim(text::bool_chars(s.nicon_hide))),
        spec_tag_value(legacy_document(s), "DisableIfFullscreen"@) == Some(text::trim(text::bool_chars(s.disable_if_fullscreen))),
        spec_tag_value(legacy_document(s), "LockKeysBoldUI"@) == Some(text::trim(text::bool_chars(s.lock_keys_bold_ui))),
{
    let es = legacy_entries(s);
    lemma_legacy_lines(s);
    lemma_chunk_0_lacks_2(s);
    lemma_chunk_1_lacks_2(s);
    lemma_chunk_2_lacks_own(s);
    assert(es[16] == legacy_entries_2(s)[0]);
    lemma_absent_join(legacy_entries_0(s), legacy_entries_1(s), 8, "LockKeysDuration"@);
    lemma_absent_join(legacy_entries_0(s) + legacy_entries_1(s), legacy_entries_2(s), 0, "LockKeysDuration"@);
    lemma_absent_extend(legacy_entries_0(s) + legacy_entries_1(s) + legacy_entries_2(s), legacy_entries_3(s), 16, "LockKeysDuration"@);
    lemma_absent_extend(legacy_entries_0(s) + legacy_entries_1(s) + legacy_entries_2(s) + legacy_entries_3(s), legacy_entries_4(s), 16, "LockKeysDuration"@);
    lemma_absent_extend(legacy_entries_0(s) + legacy_entries_1(s) + legacy_entries_2(s) + legacy_entries_3(s) + legacy_entries_4(s), legacy_entries_5(s), 16, "LockKeysDuration"@);
    lemma_absent_extend(legacy_entries_0(s) + legacy_entries_1(s) + legacy_entries_2(s) + legacy_entries_3(s) + legacy_entries_4(s) + legacy_entries_5(s), legacy_entries_6(s), 16, "LockKeysDuration"@);
    lemma_absent_extend(legacy_entries_0(s) + legacy_entries_1(s) + legacy_entries_2(s) + legacy_entries_3(s) + legacy_entries_4(s) + legacy_entries_5(s) + legacy_entries_6(s), legacy_entries_7(s), 16, "LockKeysDuration"@);
    lemma_document_read_back(es, 16, "</UserSettings>\n"@);
    assert(es[17] == legacy_entries_2(s)[1]);
    lemma_absent_join(legacy_entries_0(s), legacy_entries_1(s), 8, "AppTheme"@);
    lemma_absent_join(legacy_entries_0(s) + legacy_entries_1(s), legacy_entries_2(s), 1, "AppTheme"@);
    lemma_absent_extend(legacy_entries_0(s) + legacy_entries_1(s) + legacy_entries_2(s), legacy_entries_3(s), 17, "AppTheme"@);
    lemma_absent_extend(legacy_entries_0(s) + legacy_entries_1(s) + legacy_entries_2(s) + legacy_entries_3(s), legacy_entries_4(s), 17, "AppTheme"@);
    lemma_absent_extend(legacy_entries_0(s) + legacy_entries_1(s) + legacy_entries_2(s) + legacy_entries_3(s) + legacy_entries_4(s), legacy_entries_5(s), 17, "AppTheme"@);
    lemma_absent_extend(legacy_entries_0(s) + legacy_entries_1(s) + legacy_entries_2(s) + legacy_entries_3(s) + legacy_entries_4(s) + legacy_entries_5(s), legacy_entries_6(s), 17, "AppTheme"@);
    lemma_absent_extend(legacy_entries_0(s) + legacy_entries_1(s) + legacy_entries_2(s) + legacy_entries_3(s) + legacy_entries_4(s) + legacy_entries_5(s) + legacy_entries_6(s), legacy_entries_7(s), 17, "AppTheme"@);
    lemma_document_read_back(es, 17, "</UserSettings>\n"@);
    assert(es[18] == legacy_entries_2(s)[2]);
    lemma_absent_join(legacy_entries_0(s), legacy_entries_1(s), 8, "MediaFlyoutEnabled"@);
    lemma_absent_join(legacy_entries_0(s) + legacy_entries_1(s), legacy_entries_2(s), 2, "MediaFlyoutEnabled"@);
    lemma_absent_extend(legacy_entries_0(s) + legacy_entries_1(s) + legacy_entries_2(s), legacy_entries_3(s), 18, "MediaFlyoutEnabled"@);
    lemma_absent_extend(legacy_entries_0(s) + legacy_entries_1(s) + legacy_entries_2(s) + legacy_entries_3(s), legacy_entries_4(s), 18, "MediaFlyoutEnabled"@);
    lemma_absent_extend(legacy_entries_0(s) + legacy_entries_1(s) + legacy_entries_2(s) + legacy_entries_3(s) + legacy_entries_4(s), legacy_entries_5(s), 18, "MediaFlyoutEnabled"@);
    lemma_absent_extend(legacy_entries_0(s) + legacy_entries_1(s) + legacy_entries_2(s) + legacy_entries_3(s) + legacy_entries_4(s) + legacy_entries_5(s), legacy_entries_6(s), 18, "MediaFlyoutEnabled"@);
    lemma_absent_extend(legacy_entries_0(s) + legacy_entries_1(s) + legacy_entries_2(s) + legacy_entries_3(s) + legacy_entries_4(s) + legacy_entries_5(s) + legacy_entries_6(s), legacy_entries_7(s), 18, "MediaFlyoutEnabled"@);
    lemma_document_read_back(es, 18, "</UserSettings>\n"@);
    assert(es[19] == legacy_entries_2(s)[3]);
    lemma_absent_join(legacy_entries_0(s), legacy_entries_1(s), 8, "MediaFlyoutVolumeKeysExcluded"@);
    lemma_absent_join(legacy_entries_0(s) + legacy_entries_1(s), legacy_entries_2(s), 3, "MediaFlyoutVolumeKeysExcluded"@);
    lemma_absent_extend(legacy_entries_0(s) + legacy_entries_1(s) + legacy_entries_2(s), legacy_entries_3(s), 19, "MediaFlyoutVolumeKeysExcluded"@);
    lemma_absent_extend(legacy_entries_0(s) + legacy_entries_1(s) + legacy_entries_2(s) + legacy_entries_3(s), legacy_entries_4(s), 19, "MediaFlyoutVolumeKeysExcluded"@);
    lemma_absent_extend(legacy_entries_0(s) + legacy_entries_1(s) + legacy_entries_2(s) + legacy_entries_3(s) + legacy_entries_4(s), legacy_entries_5(s), 19, "MediaFlyoutVolumeKeysExcluded"@);
    lemma_absent_extend(legacy_entries_0(s) + legacy_entries_1(s) + legacy_entries_2(s) + legacy_entries_3(s) + legacy_entries_4(s) + legacy_entries_5(s), legacy_entries_6(s), 19, "MediaFlyoutVolumeKeysExcluded"@);
    lemma_absent_extend(legacy_entries_0(s) + legacy_entries_1(s) + legacy_entries_2(s) + legacy_entries_3(s) + legacy_entries_4(s) + legacy_entries_5(s) + legacy_entries_6(s), legacy_entries_7(s), 19, "MediaFlyoutVolumeKeysExcluded"@);
    lemma_document_read_back(es, 19, "</UserSettings>\n"@);
    assert(es[20] == legacy_entries_2(s)[4]);
    lemma_absent_join(legacy_entries_0(s), legacy_entries_1(s), 8, "nIconSymbol"@);
    lemma_absent_join(legacy_entries_0(s) + legacy_entries_1(s), legacy_entries_2(s), 4, "nIconSymbol"@);
    lemma_absent_extend(legacy_entries_0(s) + legacy_entries_1(s) + legacy_entries_2(s), legacy_entries_3(s), 20, "nIconSymbol"@);
    lemma_absent_extend(legacy_entries_0(s) + legacy_entries_1(s) + legacy_entries_2(s) + legacy_entries_3(s), legacy_entries_4(s), 20, "nIconSymbol"@);
    lemma_absent_extend(legacy_entries_0(s) + legacy_entries_1(s) + legacy_entries_2(s) + legacy_entries_3(s) + legacy_entries_4(s), legacy_entries_5(s), 20, "nIconSymbol"@);
    lemma_absent_extend(legacy_entries_0(s) + legacy_entries_1(s) + legacy_entries_2(s) + legacy_entries_3(s) + legacy_entries_4(s) + legacy_entries_5(s), legacy_entries_6(s), 20, "nIconSymbol"@);
    lemma_absent_extend(legacy_entries_0(s) + legacy_entries_1(s) + legacy_entries_2(s) + legacy_entries_3(s) + legacy_entries_4(s) + legacy_entries_5(s) + legacy_entries_6(s), legacy_entries_7(s), 20, "nIconSymbol"@);
    lemma_document_read_back(es, 20, "</UserSettings>\n"@);
    assert(es[21] == legacy_entries_2(s)[5]);
    lemma_absent_join(legacy_entries_0(s), legacy_entries_1(s), 8, "NIconHide"@);
    lemma_absent_join(legacy_entries_0(s) + legacy_entries_1(s), legacy_entries_2(s), 5, "NIconHide"@);
    lemma_absent_extend(legacy_entries_0(s) + legacy_entries_1(s) + legacy_entries_2(s), legacy_entries_3(s), 21, "NIconHide"@);
    lemma_absent_extend(legacy_entries_0(s) + legacy_entries_1(s) + legacy_entries_2(s) + legacy_entries_3(s), legacy_entries_4(s), 21, "NIconHide"@);
    lemma_absent_extend(legacy_entries_0(s) + legacy_entries_1(s) + legacy_entries_2(s) + legacy_entries_3(s) + legacy_entries_4(s), legacy_entries_5(s), 21, "NIconHide"@);
    lemma_absent_extend(legacy_entries_0(s) + legacy_entries_1(s) + legacy_entries_2(s) + legacy_entries_3(s) + legacy_entries_4(s) + legacy_entries_5(s), legacy_entries_6(s), 21, "NIconHide"@);
    lemma_absent_extend(legacy_entries_0(s) + legacy_entries_1(s) + legacy_entries_2(s) + legacy_entries_3(s) + legacy_entries_4(s) + legacy_entries_5(s) + legacy_entries_6(s), legacy_entries_7(s), 21, "NIconHide"@);
    lemma_document_read_back(es, 21, "</UserSettings>\n"@);
    assert(es[22] == legacy_entries_2(s)[6]);
    lemma_absent_join(legacy_entries_0(s), legacy_entries_1(s), 8, "DisableIfFullscreen"@);
    lemma_absent_join(legacy_entries_0(s) + legacy_entries_1(s), legacy_entries_2(s), 6, "DisableIfFullscreen"@);
    lemma_absent_extend(legacy_entries_0(s) + legacy_entries_1(s) + legacy_entries_2(s), legacy_entries_3(s), 22, "DisableIfFullscreen"@);
    lemma_absent_extend(legacy_entries_0(s) + legacy_entries_1(s) + legacy_entries_2(s) + legacy_entries_3(s), legacy_entries_4(s), 22, "DisableIfFullscreen"@);
    lemma_absent_extend(legacy_entries_0(s) + legacy_entries_1(s) + legacy_entries_2(s) + legacy_entries_3(s) + legacy_entries_4(s), legacy_entries_5(s), 22, "DisableIfFullscreen"@);
    lemma_absent_extend(legacy_entries_0(s) + legacy_entries_1(s) + legacy_entries_2(s) + legacy_entries_3(s) + legacy_entries_4(s) + legacy_entries_5(s), legacy_entries_6(s), 22, "DisableIfFullscreen"@);
    lemma_absent_extend(legacy_entries_0(s) + legacy_entries_1(s) + legacy_entries_2(s) + legacy_entries_3(s) + legacy_entries_4(s) + legacy_entries_5(s) + legacy_entries_6(s), legacy_entries_7(s), 22, "DisableIfFullscreen"@);
    lemma_document_read_back(es, 22, "</UserSettings>\n"@);
    assert(es[23] == legacy_entries_2(s)[7]);
    lemma_absent_join(legacy_entries_0(s), legacy_entries_1(s), 8, "LockKeysBoldUI"@);
    lemma_absent_join(legacy_entries_0(s) + legacy_entries_1(s), legacy_entries_2(s), 7, "LockKeysBoldUI"@);
    lemma_absent_extend(legacy_entries_0(s) + legacy_entries_1(s) + legacy_entries_2(s), legacy_entries_3(s), 23, "LockKeysBoldUI"@);
    lemma_absent_extend(legacy_entries_0(s) + legacy_entries_1(s) + legacy_entries_2(s) + legacy_entries_3(s), legacy_entries_4(s), 23, "LockKeysBoldUI"@);
    lemma_absent_extend(legacy_entries_0(s) + legacy_entries_1(s) + legacy_entries_2(s) + legacy_entries_3(s) + legacy_entries_4(s), legacy_entries_5(s), 23, "LockKeysBoldUI"@);
    lemma_absent_extend(legacy_entries_0(s) + legacy_entries_1(s) + legacy_entries_2(s) + legacy_entries_3(s) + legacy_entries_4(s) + legacy_entries_5(s), legacy_entries_6(s), 23, "LockKeysBoldUI"@);
    lemma_absent_extend(legacy_entries_0(s) + legacy_entries_1(s) + legacy_entries_2(s) + legacy_entries_3(s) + legacy_entries_4(s) + legacy_entries_5(s) + legacy_entries_6(s), legacy_entries_7(s), 23, "LockKeysBoldUI"@);
    lemma_document_read_back(es, 23, "</UserSettings>\n"@);
}

/// The imported settings of lines 25 to 32 read back from the legacy document.
proof fn lemma_chunk_3_read_back(s: SettingsDto)
    ensures
        spec_tag_value(legacy_document(s), "LockKeysMonitorPreference"@) == Some(text::trim(text::int_text(s.lock_keys_monitor_preference as int))),
        spec_tag_value(legacy_document(s), "ExclusiveTidalMode"@) == Some(text::trim(text::bool_chars(s.exclusive_tidal_mode))),
        spec_tag_value(legacy_document(s), "SeekbarEnabled"@) == Some(text::trim(text::bool_chars(s.seekbar_enabled))),
        spec_tag_value(legacy_document(s), "PauseOtherSessionsEnabled"@) == Some(text::trim(text::bool_chars(s.pause_other_sessions_enabled))),
        spec_tag_value(legacy_document(s), "LockKeysInsertEnabled"@) == Some(text::trim(text::bool_chars(s.lock_keys_insert_enabled))),
        spec_tag_value(legacy_document(s), "MediaFlyoutBackgroundBlur"@) == Some(text::trim(text::int_text(s.media_flyout_background_blur as int))),
        spec_tag_value(legacy_document(s), "MediaFlyoutAcrylicWindowEnabled"@) == Some(text::trim(text::bool_chars(s.media_flyout_acrylic_window_enabled))),
{
    let es = legacy_entries(s);
    lemma_legacy_lines(s);
    lemma_chunk_0_lacks_3(s);
    lemma_chunk_1_lacks_3(s);
    lemma_chunk_2_lacks_3(s);
    lemma_chunk_3_lacks_own(s);
    assert(es[24] == legacy_entries_3(s)[0]);
    lemma_absent_join(legacy_entries_0(s), legacy_entries_1(s), 8, "LockKeysMonitorPreference"@);
    lemma_absent_join(legacy_entries_0(s) + legacy_entries_1(s), legacy_entries_2(s), 8, "LockKeysMonitorPreference"@);
    lemma_absent_join(legacy_entries_0(s) + legacy_entries_1(s) + legacy_entries_2(s), legacy_entries_3(s), 0, "LockKeysMonitorPreference"@);
    lemma_absent_extend(legacy_entries_0(s) + legacy_entries_1(s) + legacy_entries_2(s) + legacy_entries_3(s), legacy_entries_4(s), 24, "LockKeysMonitorPreference"@);
    lemma_absent_extend(legacy_entries_0(s) + legacy_entries_1(s) + legacy_entries_2(s) + legacy_entries_3(s) + legacy_entries_4(s), legacy_entries_5(s), 24, "LockKeysMonitorPreference"@);
    lemma_absent_extend(legacy_entries_0(s) + legacy_entries_1(s) + legacy_entries_2(s) + legacy_entries_3(s) + legacy_entries_4(s) + legacy_entries_5(s), legacy_entries_6(s), 24, "LockKeysMonitorPreference"@);
    lemma_absent_extend(legacy_entries_0(s) + legacy_entries_1(s) + legacy_entries_2(s) + legacy_entries_3(s) + legacy_entries_4(s) + legacy_entries_5(s) + legacy_entries_6(s), legacy_entries_7(s), 24, "LockKeysMonitorPreference"@);
    lemma_document_read_back(es, 24, "</UserSettings>\n"@);
    assert(es[26] == legacy_entries_3(s)[2]);
    lemma_absent_join(legacy_entries_0(s), legacy_entries_1(s), 8, "ExclusiveTidalMode"@);
    lemma_absent_join(legacy_entries_0(s) + legacy_entries_1(s), legacy_entries_2(s), 8, "ExclusiveTidalMode"@);
    lemma_absent_join(legacy_entries_0(s) + legacy_entries_1(s) + legacy_entries_2(s), legacy_entries_3(s), 2, "ExclusiveTidalMode"@);
    lemma_absent_extend(legacy_entries_0(s) + legacy_entries_1(s) + legacy_entries_2(s) + legacy_entries_3(s), legacy_entries_4(s), 26, "ExclusiveTidalMode"@);
    lemma_absent_extend(legacy_entries_0(s) + legacy_entries_1(s) + legacy_entries_2(s) + legacy_entries_3(s) + legacy_entries_4(s), legacy_entries_5(s), 26, "ExclusiveTidalMode"@);
    lemma_absent_extend(legacy_entries_0(s) + legacy_entries_1(s) + legacy_entries_2(s) + legacy_entries_3(s) + legacy_entries_4(s) + legacy_entries_5(s), legacy_entries_6(s), 26, "ExclusiveTidalMode"@);
    lemma_absent_extend(legacy_entries_0(s) + legacy_entries_1(s) + legacy_entries_2(s) + legacy_entries_3(s) + legacy_entries_4(s) + legacy_entries_5(s) + legacy_entries_6(s), legacy_entries_7(s), 26, "ExclusiveTidalMode"@);
    lemma_document_read_back(es, 26, "</UserSettings>\n"@);
    assert(es[27] == legacy_entries_3(s)[3]);
    lemma_absent_join(legacy_entries_0(s), legacy_entries_1(s), 8, "SeekbarEnabled"@);
    lemma_absent_join(legacy_entries_0(s) + legacy_entries_1(s), legacy_entries_2(s), 8, "SeekbarEnabled"@);
    lemma_absent_join(legacy_entries_0(s) + legacy_entries_1(s) + legacy_entries_2(s), legacy_entries_3(s), 3, "SeekbarEnabled"@);
    lemma_absent_extend(legacy_entries_0(s) + legacy_entries_1(s) + legacy_entries_2(s) + legacy_entries_3(s), legacy_entries_4(s), 27, "SeekbarEnabled"@);
    lemma_absent_extend(legacy_entries_0(s) + legacy_entries_1(s) + legacy_entries_2(s) + legacy_entries_3(s) + legacy_entries_4(s), legacy_entries_5(s), 27, "SeekbarEnabled"@);
    lemma_absent_extend(legacy_entries_0(s) + legacy_entries_1(s) + legacy_entries_2(s) + legacy_entries_3(s) + legacy_entries_4(s) + legacy_entries_5(s), legacy_entries_6(s), 27, "SeekbarEnabled"@);
    lemma_absent_extend(legacy_entries_0(s) + legacy_entries_1(s) + legacy_entries_2(s) + legacy_entries_3(s) + legacy_entries_4(s) + legacy_entries_5(s) + legacy_entries_6(s), legacy_entries_7(s), 27, "SeekbarEnabled"@);
    lemma_document_read_back(es, 27, "</UserSettings>\n"@);
    assert(es[28] == legacy_entries_3(s)[4]);
    lemma_absent_join(legacy_entries_0(s), legacy_entries_1(s), 8, "PauseOtherSessionsEnabled"@);
    lemma_absent_join(legacy_entries_0(s) + legacy_entries_1(s), legacy_entries_2(s), 8, "PauseOtherSessionsEnabled"@);
    lemma_absent_join(legacy_entries_0(s) + legacy_entries_1(s) + legacy_entries_2(s), legacy_entries_3(s), 4, "PauseOtherSessionsEnabled"@);
    lemma_absent_extend(legacy_entries_0(s) + legacy_entries_1(s) + legacy_entries_2(s) + legacy_entries_3(s), legacy_entries_4(s), 28, "PauseOtherSessionsEnabled"@);
    lemma_absent_extend(legacy_entries_0(s) + legacy_entries_1(s) + legacy_entries_2(s) + legacy_entries_3(s) + legacy_entries_4(s), legacy_entries_5(s), 28, "PauseOtherSessionsEnabled"@);
    lemma_absent_extend(legacy_entries_0(s) + legacy_entries_1(s) + legacy_entries_2(s) + legacy_entries_3(s) + legacy_entries_4(s) + legacy_entries_5(s), legacy_entries_6(s), 28, "PauseOtherSessionsEnabled"@);
    lemma_absent_extend(legacy_entries_0(s) + legacy_entries_1(s) + legacy_entries_2(s) + legacy_entries_3(s) + legacy_entries_4(s) + legacy_entries_5(s) + legacy_entries_6(s), legacy_entries_7(s), 28, "PauseOtherSessionsEnabled"@);
    lemma_document_read_back(es, 28, "</UserSettings>\n"@);
    assert(es[29] == legacy_entries_3(s)[5]);
    lemma_absent_join(legacy_entries_0(s), legacy_entries_1(s), 8, "LockKeysInsertEnabled"@);
    lemma_absent_join(legacy_entries_0(s) + legacy_entries_1(s), legacy_entries_2(s), 8, "LockKeysInsertEnabled"@);
    lemma_absent_join(legacy_entries_0(s) + legacy_entries_1(s) + legacy_entries_2(s), legacy_entries_3(s), 5, "LockKeysInsertEnabled"@);
    lemma_absent_extend(legacy_entries_0(s) + legacy_entries_1(s) + legacy_entries_2(s) + legacy_entries_3(s), legacy_entries_4(s), 29, "LockKeysInsertEnabled"@);
    lemma_absent_extend(legacy_entries_0(s) + legacy_entries_1(s) + legacy_entries_2(s) + legacy_entries_3(s) + legacy_entries_4(s), legacy_entries_5(s), 29, "LockKeysInsertEnabled"@);
    lemma_absent_extend(legacy_entries_0(s) + legacy_entries_1(s) + legacy_entries_2(s) + legacy_entries_3(s) + legacy_entries_4(s) + legacy_entries_5(s), legacy_entries_6(s), 29, "LockKeysInsertEnabled"@);
    lemma_absent_extend(legacy_entries_0(s) + legacy_entries_1(s) + legacy_entries_2(s) + legacy_entries_3(s) + legacy_entries_4(s) + legacy_entries_5(s) + legacy_entries_6(s), legacy_entries_7(s), 29, "LockKeysInsertEnabled"@);
    lemma_document_read_back(es, 29, "</UserSettings>\n"@);
    assert(es[30] == legacy_entries_3(s)[6]);
    lemma_absent_join(legacy_entries_0(s), legacy_entries_1(s), 8, "MediaFlyoutBackgroundBlur"@);
    lemma_absent_join(legacy_entries_0(s) + legacy_entries_1(s), legacy_entries_2(s), 8, "MediaFlyoutBackgroundBlur"@);
    lemma_absent_join(legacy_entries_0(s) + legacy_entries_1(s) + legacy_entries_2(s), legacy_entries_3(s), 6, "MediaFlyoutBackgroundBlur"@);
    lemma_absent_extend(legacy_entries_0(s) + legacy_entries_1(s) + legacy_entries_2(s) + legacy_entries_3(s), legacy_entries_4(s), 30, "MediaFlyoutBackgroundBlur"@);
    lemma_absent_extend(legacy_entries_0(s) + legacy_entries_1(s) + legacy_entries_2(s) + legacy_entries_3(s) + legacy_entries_4(s), legacy_entries_5(s), 30, "MediaFlyoutBackgroundBlur"@);
    lemma_absent_extend(legacy_entries_0(s) + legacy_entries_1(s) + legacy_entries_2(s) + legacy_entries_3(s) + legacy_entries_4(s) + legacy_entries_5(s), legacy_entries_6(s), 30, "MediaFlyoutBackgroundBlur"@);
    lemma_absent_extend(legacy_entries_0(s) + legacy_entries_1(s) + legacy_entries_2(s) + legacy_entries_3(s) + legacy_entries_4(s) + legacy_entries_5(s) + legacy_entries_6(s), legacy_entries_7(s), 30, "MediaFlyoutBackgroundBlur"@);
    lemma_document_read_back(es, 30, "</UserSettings>\n"@);
    assert(es[31] == legacy_entries_3(s)[7]);
    lemma_absent_join(legacy_entries_0(s), legacy_entries_1(s), 8, "MediaFlyoutAcrylicWindowEnabled"@);
    lemma_absent_join(legacy_entries_0(s) + legacy_entries_1(s), legacy_entries_2(s), 8, "MediaFlyoutAcrylicWindowEnabled"@);
    lemma_absent_join(legacy_entries_0(s) + legacy_entries_1(s) + legacy_entries_2(s), legacy_entries_3(s), 7, "MediaFlyoutAcrylicWindowEnabled"@);
    lemma_absent_extend(legacy_entries_0(s) + legacy_entries_1(s) + legacy_entries_2(s) + legacy_entries_3(s), legacy_entries_4(s), 31, "MediaFlyoutAcrylicWindowEnabled"@);
    lemma_absent_extend(legacy_entries_0(s) + legacy_entries_1(s) + legacy_entries_2(s) + legacy_entries_3(s) + legacy_entries_4(s), legacy_entries_5(s), 31, "MediaFlyoutAcrylicWindowEnabled"@);
    lemma_absent_extend(legacy_entries_0(s) + legacy_entries_1(s) + legacy_entries_2(s) + legacy_entries_3(s) + legacy_entries_4(s) + legacy_entries_5(s), legacy_entries_6(s), 31, "MediaFlyoutAcrylicWindowEnabled"@);
    lemma_absent_extend(legacy_entries_0(s) + legacy_entries_1(s) + legacy_entries_2(s) + legacy_entries_3(s) + legacy_entries_4(s) + legacy_entries_5(s) + legacy_entries_6(s), legacy_entries_7(s), 31, "MediaFlyoutAcrylicWindowEnabled"@);
    lemma_document_read_back(es, 31, "</UserSettings>\n"@);
}

/// The imported settings of lines 33 to 40 read back from the legacy document.
proof fn lemma_chunk_4_read_back(s: SettingsDto)
    ensures
        spec_tag_value(legacy_document(s), "TaskbarWidgetEnabled"@) == Some(text::trim(text::bool_chars(s.taskbar_widget_enabled))),
        spec_tag_value(legacy_document(s), "TaskbarWidgetSelectedMonitor"@) == Some(text::trim(text::int_text(s.taskbar_widget_selected_monitor as int))),
        spec_tag_value(legacy_document(s), "TaskbarWidgetPosition"@) == Some(text::trim(text::int_text(s.taskbar_widget_position as int))),
        spec_tag_value(legacy_document(s), "TaskbarWidgetPadding"@) == Some(text::trim(text::bool_chars(s.taskbar_widget_padding))),
        spec_tag_value(legacy_document(s), "TaskbarWidgetManualPadding"@) == Some(text::trim(text::int_text(s.taskbar_widget_manual_padding as int))),
{
    let es = legacy_entries(s);
    lemma_legacy_lines(s);
    lemma_chunk_0_lacks_4(s);
    lemma_chunk_1_lacks_4(s);
    lemma_chunk_2_lacks_4(s);
    lemma_chunk_3_lacks_4(s);
    lemma_chunk_4_lacks_own(s);
    assert(es[35] == legacy_entries_4(s)[3]);
    lemma_absent_join(legacy_entries_0(s), legacy_entries_1(s), 8, "TaskbarWidgetEnabled"@);
    lemma_absent_join(legacy_entries_0(s) + legacy_entries_1(s), legacy_entries_2(s), 8, "TaskbarWidgetEnabled"@);
    lemma_absent_join(legacy_entries_0(s) + legacy_entries_1(s) + legacy_entries_2(s), legacy_entries_3(s), 8, "TaskbarWidgetEnabled"@);
    lemma_absent_join(legacy_entries_0(s) + legacy_entries_1(s) + legacy_entries_2(s) + legacy_entries_3(s), legacy_entries_4(s), 3, "TaskbarWidgetEnabled"@);
    lemma_absent_extend(legacy_entries_0(s) + legacy_entries_1(s) + legacy_entries_2(s) + legacy_entries_3(s) + legacy_entries_4(s), legacy_entries_5(s), 35, "TaskbarWidgetEnabled"@);
    lemma_absent_extend(legacy_entries_0(s) + legacy_entries_1(s) + legacy_entries_2(s) + legacy_entries_3(s) + legacy_entries_4(s) + legacy_entries_5(s), legacy_entries_6(s), 35, "TaskbarWidgetEnabled"@);
    lemma_absent_extend(legacy_entries_0(s) + legacy_entries_1(s) + legacy_entries_2(s) + legacy_entries_3(s) + legacy_entries_4(s) + legacy_entries_5(s) + legacy_entries_6(s), legacy_entries_7(s), 35, "TaskbarWidgetEnabled"@);
    lemma_document_read_back(es, 35, "</UserSettings>\n"@);
    assert(es[36] == legacy_entries_4(s)[4]);
    lemma_absent_join(legacy_entries_0(s), legacy_entries_1(s), 8, "TaskbarWidgetSelectedMonitor"@);
    lemma_absent_join(legacy_entries_0(s) + legacy_entries_1(s), legacy_entries_2(s), 8, "TaskbarWidgetSelectedMonitor"@);
    lemma_absent_join(legacy_entries_0(s) + legacy_entries_1(s) + legacy_entries_2(s), legacy_entries_3(s), 8, "TaskbarWidgetSelectedMonitor"@);
    lemma_absent_join(legacy_entries_0(s) + legacy_entries_1(s) + legacy_entries_2(s) + legacy_entries_3(s), legacy_entries_4(s), 4, "TaskbarWidgetSelectedMonitor"@);
    lemma_absent_extend(legacy_entries_0(s) + legacy_entries_1(s) + legacy_entries_2(s) + legacy_entries_3(s) + legacy_entries_4(s), legacy_entries_5(s), 36, "TaskbarWidgetSelectedMonitor"@);
    lemma_absent_extend(legacy_entries_0(s) + legacy_entries_1(s) + legacy_entries_2(s) + legacy_entries_3(s) + legacy_entries_4(s) + legacy_entries_5(s), legacy_entries_6(s), 36, "TaskbarWidgetSelectedMonitor"@);
    lemma_absent_extend(legacy_entries_0(s) + legacy_entries_1(s) + legacy_entries_2(s) + legacy_entries_3(s) + legacy_entries_4(s) + legacy_entries_5(s) + legacy_entries_6(s), legacy_entries_7(s), 36, "TaskbarWidgetSelectedMonitor"@);
    lemma_document_read_back(es, 36, "</UserSettings>\n"@);
    assert(es[37] == legacy_entries_4(s)[5]);
    lemma_absent_join(legacy_entries_0(s), legacy_entries_1(s), 8, "TaskbarWidgetPosition"@);
    lemma_absent_join(legacy_entries_0(s) + legacy_entries_1(s), legacy_entries_2(s), 8, "TaskbarWidgetPosition"@);
    lemma_absent_join(legacy_entries_0(s) + legacy_entries_1(s) + legacy_entries_2(s), legacy_entries_3(s), 8, "TaskbarWidgetPosition"@);
    lemma_absent_join(legacy_entries_0(s) + legacy_entries_1(s) + legacy_entries_2(s) + legacy_entries_3(s), legacy_entries_4(s), 5, "TaskbarWidgetPosition"@);
    lemma_absent_extend(legacy_entries_0(s) + legacy_entries_1(s) + legacy_entries_2(s) + legacy_entries_3(s) + legacy_entries_4(s), legacy_entries_5(s), 37, "TaskbarWidgetPosition"@);
    lemma_absent_extend(legacy_entries_0(s) + legacy_entries_1(s) + legacy_entries_2(s) + legacy_entries_3(s) + legacy_entries_4(s) + legacy_entries_5(s), legacy_entries_6(s), 37, "TaskbarWidgetPosition"@);
    lemma_absent_extend(legacy_entries_0(s) + legacy_entries_1(s) + legacy_entries_2(s) + legacy_entries_3(s) + legacy_entries_4(s) + legacy_entries_5(s) + legacy_entries_6(s), legacy_entries_7(s), 37, "TaskbarWidgetPosition"@);
    lemma_document_read_back(es, 37, "</UserSettings>\n"@);
    assert(es[38] == legacy_entries_4(s)[6]);
    lemma_absent_join(legacy_entries_0(s), legacy_entries_1(s), 8, "TaskbarWidgetPadding"@);
    lemma_absent_join(legacy_entries_0(s) + legacy_entries_1(s), legacy_entries_2(s), 8, "TaskbarWidgetPadding"@);
    lemma_absent_join(legacy_entries_0(s) + legacy_entries_1(s) + legacy_entries_2(s), legacy_entries_3(s), 8, "TaskbarWidgetPadding"@);
    lemma_absent_join(legacy_entries_0(s) + legacy_entries_1(s) + legacy_entries_2(s) + legacy_entries_3(s), legacy_entries_4(s), 6, "TaskbarWidgetPadding"@);
    lemma_absent_extend(legacy_entries_0(s) + legacy_entries_1(s) + legacy_entries_2(s) + legacy_entries_3(s) + legacy_entries_4(s), legacy_entries_5(s), 38, "TaskbarWidgetPadding"@);
    lemma_absent_extend(legacy_entries_0(s) + legacy_entries_1(s) + legacy_entries_2(s) + legacy_entries_3(s) + legacy_entries_4(s) + legacy_entries_5(s), legacy_entries_6(s), 38, "TaskbarWidgetPadding"@);
    lemma_absent_extend(legacy_entries_0(s) + legacy_entries_1(s) + legacy_entries_2(s) + legacy_entries_3(s) + legacy_entries_4(s) + legacy_entries_5(s) + legacy_entries_6(s), legacy_entries_7(s), 38, "TaskbarWidgetPadding"@);
    lemma_document_read_back(es, 38, "</UserSettings>\n"@);
    assert(es[39] == legacy_entries_4(s)[7]);
    lemma_absent_join(legacy_entries_0(s), legacy_entries_1(s), 8, "TaskbarWidgetManualPadding"@);
    lemma_absent_join(legacy_entries_0(s) + legacy_entries_1(s), legacy_entries_2(s), 8, "TaskbarWidgetManualPadding"@);
    lemma_absent_join(legacy_entries_0(s) + legacy_entries_1(s) + legacy_entries_2(s), legacy_entries_3(s), 8, "TaskbarWidgetManualPadding"@);
    lemma_absent_join(legacy_entries_0(s) + legacy_entries_1(s) + legacy_entries_2(s) + legacy_entries_3(s), legacy_entries_4(s), 7, "TaskbarWidgetManualPadding"@);
    lemma_absent_extend(legacy_entries_0(s) + legacy_entries_1(s) + legacy_entries_2(s) + legacy_entries_3(s) + legacy_entries_4(s), legacy_entries_5(s), 39, "TaskbarWidgetManualPadding"@);
    lemma_absent_extend(legacy_entries_0(s) + legacy_entries_1(s) + legacy_entries_2(s) + legacy_entries_3(s) + legacy_entries_4(s) + legacy_entries_5(s), legacy_entries_6(s), 39, "TaskbarWidgetManualPadding"@);
    lemma_absent_extend(legacy_entries_0(s) + legacy_entries_1(s) + legacy_entries_2(s) + legacy_entries_3(s) + legacy_entries_4(s) + legacy_entries_5(s) + legacy_entries_6(s), legacy_entries_7(s), 39, "TaskbarWidgetManualPadding"@);
    lemma_document_read_back(es, 39, "</UserSettings>\n"@);
}

/// The imported settings of lines 41 to 48 read back from the legacy document.
proof fn lemma_chunk_5_read_back(s: SettingsDto)
    ensures
        spec_tag_value(legacy_document(s), "TaskbarWidgetClickable"@) == Some(text::trim(text::bool_chars(s.taskbar_widget_clickable))),
        spec_tag_value(legacy_document(s), "TaskbarWidgetCloseableFlyout"@) == Some(text::trim(text::bool_chars(s.taskbar_widget_closeable_flyout))),
        spec_tag_value(legacy_document(s), "TaskbarWidgetBackgroundBlur"@) == Some(text::trim(text::bool_chars(s.taskbar_widget_background_blur))),
        spec_tag_value(legacy_document(s), "TaskbarWidgetHideCompletely"@) == Some(text::trim(text::bool_chars(s.taskbar_widget_hide_completely))),
        spec_tag_value(legacy_document(s), "TaskbarWidgetControlsEnabled"@) == Some(text::trim(text::bool_chars(s.taskbar_widget_controls_enabled))),
        spec_tag_value(legacy_document(s), "TaskbarWidgetControlsPosition"@) == Some(text::trim(text::int_text(s.taskbar_widget_controls_position as int))),
        spec_tag_value(legacy_document(s), "TaskbarVisualizerEnabled"@) == Some(text::trim(text::bool_chars(s.taskbar_visualizer_enabled))),
{
    let es = legacy_entries(s);
    lemma_legacy_lines(s);
    lemma_chunk_0_lacks_5(s);
    lemma_chunk_1_lacks_5(s);
    lemma_chunk_2_lacks_5(s);
    lemma_chunk_3_lacks_5(s);
    lemma_chunk_4_lacks_5(s);
    lemma_chunk_5_lacks_own(s);
    assert(es[40] == legacy_entries_5(s)[0]);
    lemma_absent_join(legacy_entries_0(s), legacy_entries_1(s), 8, "TaskbarWidgetClickable"@);
    lemma_absent_join(legacy_entries_0(s) + legacy_entries_1(s), legacy_entries_2(s), 8, "TaskbarWidgetClickable"@);
    lemma_absent_join(legacy_entries_0(s) + legacy_entries_1(s) + legacy_entries_2(s), legacy_entries_3(s), 8, "TaskbarWidgetClickable"@);
    lemma_absent_join(legacy_entries_0(s) + legacy_entries_1(s) + legacy_entries_2(s) + legacy_entries_3(s), legacy_entries_4(s), 8, "TaskbarWidgetClickable"@);
    lemma_absent_join(legacy_entries_0(s) + legacy_entries_1(s) + legacy_entries_2(s) + legacy_entries_3(s) + legacy_entries_4(s), legacy_entries_5(s), 0, "TaskbarWidgetClickable"@);
    lemma_absent_extend(legacy_entries_0(s) + legacy_entries_1(s) + legacy_entries_2(s) + legacy_entries_3(s) + legacy_entries_4(s) + legacy_entries_5(s), legacy_entries_6(s), 40, "TaskbarWidgetClickable"@);
    lemma_absent_extend(legacy_entries_0(s) + legacy_entries_1(s) + legacy_entries_2(s) + legacy_entries_3(s) + legacy_entries_4(s) + legacy_entries_5(s) + legacy_entries_6(s), legacy_entries_7(s), 40, "TaskbarWidgetClickable"@);
    lemma_document_read_back(es, 40, "</UserSettings>\n"@);
    assert(es[41] == legacy_entries_5(s)[1]);
    lemma_absent_join(legacy_entries_0(s), legacy_entries_1(s), 8, "TaskbarWidgetCloseableFlyout"@);
    lemma_absent_join(legacy_entries_0(s) + legacy_entries_1(s), legacy_entries_2(s), 8, "TaskbarWidgetCloseableFlyout"@);
    lemma_absent_join(legacy_entries_0(s) + legacy_entries_1(s) + legacy_entries_2(s), legacy_entries_3(s), 8, "TaskbarWidgetCloseableFlyout"@);
    lemma_absent_join(legacy_entries_0(s) + legacy_entries_1(s) + legacy_entries_2(s) + legacy_entries_3(s), legacy_entries_4(s), 8, "TaskbarWidgetCloseableFlyout"@);
    lemma_absent_join(legacy_entries_0(s) + legacy_entries_1(s) + legacy_entries_2(s) + legacy_entries_3(s) + legacy_entries_4(s), legacy_entries_5(s), 1, "TaskbarWidgetCloseableFlyout"@);
    lemma_absent_extend(legacy_entries_0(s) + legacy_entries_1(s) + legacy_entries_2(s) + legacy_entries_3(s) + legacy_entries_4(s) + legacy_entries_5(s), legacy_entries_6(s), 41, "TaskbarWidgetCloseableFlyout"@);
    lemma_absent_extend(legacy_entries_0(s) + legacy_entries_1(s) + legacy_entries_2(s) + legacy_entries_3(s) + legacy_entries_4(s) + legacy_entries_5(s) + legacy_entries_6(s), legacy_entries_7(s), 41, "TaskbarWidgetCloseableFlyout"@);
    lemma_document_read_back(es, 41, "</UserSettings>\n"@);
    assert(es[42] == legacy_entries_5(s)[2]);
    lemma_absent_join(legacy_entries_0(s), legacy_entries_1(s), 8, "TaskbarWidgetBackgroundBlur"@);
    lemma_absent_join(legacy_entries_0(s) + legacy_entries_1(s), legacy_entries_2(s), 8, "TaskbarWidgetBackgroundBlur"@);
    lemma_absent_join(legacy_entries_0(s) + legacy_entries_1(s) + legacy_entries_2(s), legacy_entries_3(s), 8, "TaskbarWidgetBackgroundBlur"@);
    lemma_absent_join(legacy_entries_0(s) + legacy_entries_1(s) + legacy_entries_2(s) + legacy_entries_3(s), legacy_entries_4(s), 8, "TaskbarWidgetBackgroundBlur"@);
    lemma_absent_join(legacy_entries_0(s) + legacy_entries_1(s) + legacy_entries_2(s) + legacy_entries_3(s) + legacy_entries_4(s), legacy_entries_5(s), 2, "TaskbarWidgetBackgroundBlur"@);
    lemma_absent_extend(legacy_entries_0(s) + legacy_entries_1(s) + legacy_entries_2(s) + legacy_entries_3(s) + legacy_entries_4(s) + legacy_entries_5(s), legacy_entries_6(s), 42, "TaskbarWidgetBackgroundBlur"@);
    lemma_absent_extend(legacy_entries_0(s) + legacy_entries_1(s) + legacy_entries_2(s) + legacy_entries_3(s) + legacy_entries_4(s) + legacy_entries_5(s) + legacy_entries_6(s), legacy_entries_7(s), 42, "TaskbarWidgetBackgroundBlur"@);
    lemma_document_read_back(es, 42, "</UserSettings>\n"@);
    assert(es[43] == legacy_entries_5(s)[3]);
    lemma_absent_join(legacy_entries_0(s), legacy_entries_1(s), 8, "TaskbarWidgetHideCompletely"@);
    lemma_absent_join(legacy_entries_0(s) + legacy_entries_1(s), legacy_entries_2(s), 8, "TaskbarWidgetHideCompletely"@);
    lemma_absent_join(legacy_entries_0(s) + legacy_entries_1(s) + legacy_entries_2(s), legacy_entries_3(s), 8, "TaskbarWidgetHideCompletely"@);
    lemma_absent_join(legacy_entries_0(s) + legacy_entries_1(s) + legacy_entries_2(s) + legacy_entries_3(s), legacy_entries_4(s), 8, "TaskbarWidgetHideCompletely"@);
    lemma_absent_join(legacy_entries_0(s) + legacy_entries_1(s) + legacy_entries_2(s) + legacy_entries_3(s) + legacy_entries_4(s), legacy_entries_5(s), 3, "TaskbarWidgetHideCompletely"@);
    lemma_absent_extend(legacy_entries_0(s) + legacy_entries_1(s) + legacy_entries_2(s) + legacy_entries_3(s) + legacy_entries_4(s) + legacy_entries_5(s), legacy_entries_6(s), 43, "TaskbarWidgetHideCompletely"@);
    lemma_absent_extend(legacy_entries_0(s) + legacy_entries_1(s) + legacy_entries_2(s) + legacy_entries_3(s) + legacy_entries_4(s) + legacy_entries_5(s) + legacy_entries_6(s), legacy_entries_7(s), 43, "TaskbarWidgetHideCompletely"@);
    lemma_document_read_back(es, 43, "</UserSettings>\n"@);
    assert(es[44] == legacy_entries_5(s)[4]);
    lemma_absent_join(legacy_entries_0(s), legacy_entries_1(s), 8, "TaskbarWidgetControlsEnabled"@);
    lemma_absent_join(legacy_entries_0(s) + legacy_entries_1(s), legacy_entries_2(s), 8, "TaskbarWidgetControlsEnabled"@);
    lemma_absent_join(legacy_entries_0(s) + legacy_entries_1(s) + legacy_entries_2(s), legacy_entries_3(s), 8, "TaskbarWidgetControlsEnabled"@);
    lemma_absent_join(legacy_entries_0(s) + legacy_entries_1(s) + legacy_entries_2(s) + legacy_entries_3(s), legacy_entries_4(s), 8, "TaskbarWidgetControlsEnabled"@);
    lemma_absent_join(legacy_entries_0(s) + legacy_entries_1(s) + legacy_entries_2(s) + legacy_entries_3(s) + legacy_entries_4(s), legacy_entries_5(s), 4, "TaskbarWidgetControlsEnabled"@);
    lemma_absent_extend(legacy_entries_0(s) + legacy_entries_1(s) + legacy_entries_2(s) + legacy_entries_3(s) + legacy_entries_4(s) + legacy_entries_5(s), legacy_entries_6(s), 44, "TaskbarWidgetControlsEnabled"@);
    lemma_absent_extend(legacy_entries_0(s) + legacy_entries_1(s) + legacy_entries_2(s) + legacy_entries_3(s) + legacy_entries_4(s) + legacy_entries_5(s) + legacy_entries_6(s), legacy_entries_7(s), 44, "TaskbarWidgetControlsEnabled"@);
    lemma_document_read_back(es, 44, "</UserSettings>\n"@);
    assert(es[45] == legacy_entries_5(s)[5]);
    lemma_absent_join(legacy_entries_0(s), legacy_entries_1(s), 8, "TaskbarWidgetControlsPosition"@);
    lemma_absent_join(legacy_entries_0(s) + legacy_entries_1(s), legacy_entries_2(s), 8, "TaskbarWidgetControlsPosition"@);
    lemma_absent_join(legacy_entries_0(s) + legacy_entries_1(s) + legacy_entries_2(s), legacy_entries_3(s), 8, "TaskbarWidgetControlsPosition"@);
    lemma_absent_join(legacy_entries_0(s) + legacy_entries_1(s) + legacy_entries_2(s) + legacy_entries_3(s), legacy_entries_4(s), 8, "TaskbarWidgetControlsPosition"@);
    lemma_absent_join(legacy_entries_0(s) + legacy_entries_1(s) + legacy_entries_2(s) + legacy_entries_3(s) + legacy_entries_4(s), legacy_entries_5(s), 5, "TaskbarWidgetControlsPosition"@);
    lemma_absent_extend(legacy_entries_0(s) + legacy_entries_1(s) + legacy_entries_2(s) + legacy_entries_3(s) + legacy_entries_4(s) + legacy_entries_5(s), legacy_entries_6(s), 45, "TaskbarWidgetControlsPosition"@);
    lemma_absent_extend(legacy_entries_0(s) + legacy_entries_1(s) + legacy_entries_2(s) + legacy_entries_3(s) + legacy_entries_4(s) + legacy_entries_5(s) + legacy_entries_6(s), legacy_entries_7(s), 45, "TaskbarWidgetControlsPosition"@);
    lemma_document_read_back(es, 45, "</UserSettings>\n"@);
    assert(es[47] == legacy_entries_5(s)[7]);
    lemma_absent_join(legacy_entries_0(s), legacy_entries_1(s), 8, "TaskbarVisualizerEnabled"@);
    lemma_absent_join(legacy_entries_0(s) + legacy_entries_1(s), legacy_entries_2(s), 8, "TaskbarVisualizerEnabled"@);
    lemma_absent_join(legacy_entries_0(s) + legacy_entries_1(s) + legacy_entries_2(s), legacy_entries_3(s), 8, "TaskbarVisualizerEnabled"@);
    lemma_absent_join(legacy_entries_0(s) + legacy_entries_1(s) + legacy_entries_2(s) + legacy_entries_3(s), legacy_entries_4(s), 8, "TaskbarVisualizerEnabled"@);
    lemma_absent_join(legacy_entries_0(s) + legacy_entries_1(s) + legacy_entries_2(s) + legacy_entries_3(s) + legacy_entries_4(s), legacy_entries_5(s), 7, "TaskbarVisualizerEnabled"@);
    lemma_absent_extend(legacy_entries_0(s) + legacy_entries_1(s) + legacy_entries_2(s) + legacy_entries_3(s) + legacy_entries_4(s) + legacy_entries_5(s), legacy_entries_6(s), 47, "TaskbarVisualizerEnabled"@);
    lemma_absent_extend(legacy_entries_0(s) + legacy_entries_1(s) + legacy_entries_2(s) + legacy_entries_3(s) + legacy_entries_4(s) + legacy_entries_5(s) + legacy_entries_6(s), legacy_entries_7(s), 47, "TaskbarVisualizerEnabled"@);
    lemma_document_read_back(es, 47, "</UserSettings>\n"@);
}

/// The imported settings of lines 49 to 56 read back from the legacy document.
proof fn lemma_chunk_6_read_back(s: SettingsDto)
    ensures
        spec_tag_value(legacy_document(s), "TaskbarVisualizerPosition"@) == Some(text::trim(text::int_text(s.taskbar_visualizer_position as int))),
        spec_tag_value(legacy_document(s), "TaskbarVisualizerBarCount"@) == Some(text::trim(text::int_text(s.taskbar_visualizer_bar_count as int))),
        spec_tag_value(legacy_document(s), "TaskbarVisualizerCenteredBars"@) == Some(text::trim(text::bool_chars(s.taskbar_visualizer_centered_bars))),
        spec_tag_value(legacy_document(s), "TaskbarVisualizerBaseline"@) == Some(text::trim(text::bool_chars(s.taskbar_visualizer_baseline))),
        spec_tag_value(legacy_document(s), "TaskbarVisualizerAudioSensitivity"@) == Some(text::trim(text::int_text(s.taskbar_visualizer_audio_sensitivity as int))),
        spec_tag_value(legacy_document(s), "TaskbarVisualizerAudioPeakLevel"@) == Some(text::trim(text::int_text(s.taskbar_visualizer_audio_peak_level as int))),
        spec_tag_value(legacy_document(s), "AcrylicBlurOpacity"@) == Some(text::trim(text::int_text(s.acrylic_blur_opacity as int))),
{
    let es = legacy_entries(s);
    lemma_legacy_lines(s);
    lemma_chunk_0_lacks_6(s);
    lemma_chunk_1_lacks_6(s);
    lemma_chunk_2_lacks_6(s);
    lemma_chunk_3_lacks_6(s);
    lemma_chunk_4_lacks_6(s);
    lemma_chunk_5_lacks_6(s);
    lemma_chunk_6_lacks_own(s);
    assert(es[48] == legacy_entries_6(s)[0]);
    lemma_absent_join(legacy_entries_0(s), legacy_entries_1(s), 8, "TaskbarVisualizerPosition"@);
    lemma_absent_join(legacy_entries_0(s) + legacy_entries_1(s), legacy_entries_2(s), 8, "TaskbarVisualizerPosition"@);
    lemma_absent_join(legacy_entries_0(s) + legacy_entries_1(s) + legacy_entries_2(s), legacy_entries_3(s), 8, "TaskbarVisualizerPosition"@);
    lemma_absent_join(legacy_entries_0(s) + legacy_entries_1(s) + legacy_entries_2(s) + legacy_entries_3(s), legacy_entries_4(s), 8, "TaskbarVisualizerPosition"@);
    lemma_absent_join(legacy_entries_0(s) + legacy_entries_1(s) + legacy_entries_2(s) + legacy_entries_3(s) + legacy_entries_4(s), legacy_entries_5(s), 8, "TaskbarVisualizerPosition"@);
    lemma_absent_join(legacy_entries_0(s) + legacy_entries_1(s) + legacy_entries_2(s) + legacy_entries_3(s) + legacy_entries_4(s) + legacy_entries_5(s), legacy_entries_6(s), 0, "TaskbarVisualizerPosition"@);
    lemma_absent_extend(legacy_entries_0(s) + legacy_entries_1(s) + legacy_entries_2(s) + legacy_entries_3(s) + legacy_entries_4(s) + legacy_entries_5(s) + legacy_entries_6(s), legacy_entries_7(s), 48, "TaskbarVisualizerPosition"@);
    lemma_document_read_back(es, 48, "</UserSettings>\n"@);
    assert(es[50] == legacy_entries_6(s)[2]);
    lemma_absent_join(legacy_entries_0(s), legacy_entries_1(s), 8, "TaskbarVisualizerBarCount"@);
    lemma_absent_join(legacy_entries_0(s) + legacy_entries_1(s), legacy_entries_2(s), 8, "TaskbarVisualizerBarCount"@);
    lemma_absent_join(legacy_entries_0(s) + legacy_entries_1(s) + legacy_entries_2(s), legacy_entries_3(s), 8, "TaskbarVisualizerBarCount"@);
    lemma_absent_join(legacy_entries_0(s) + legacy_entries_1(s) + legacy_entries_2(s) + legacy_entries_3(s), legacy_entries_4(s), 8, "TaskbarVisualizerBarCount"@);
    lemma_absent_join(legacy_entries_0(s) + legacy_entries_1(s) + legacy_entries_2(s) + legacy_entries_3(s) + legacy_entries_4(s), legacy_entries_5(s), 8, "TaskbarVisualizerBarCount"@);
    lemma_absent_join(legacy_entries_0(s) + legacy_entries_1(s) + legacy_entries_2(s) + legacy_entries_3(s) + legacy_entries_4(s) + legacy_entries_5(s), legacy_entries_6(s), 2, "TaskbarVisualizerBarCount"@);
    lemma_absent_extend(legacy_entries_0(s) + legacy_entries_1(s) + legacy_entries_2(s) + legacy_entries_3(s) + legacy_entries_4(s) + legacy_entries_5(s) + legacy_entries_6(s), legacy_entries_7(s), 50, "TaskbarVisualizerBarCount"@);
    lemma_document_read_back(es, 50, "</UserSettings>\n"@);
    assert(es[51] == legacy_entries_6(s)[3]);
    lemma_absent_join(legacy_entries_0(s), legacy_entries_1(s), 8, "TaskbarVisualizerCenteredBars"@);
    lemma_absent_join(legacy_entries_0(s) + legacy_entries_1(s), legacy_entries_2(s), 8, "TaskbarVisualizerCenteredBars"@);
    lemma_absent_join(legacy_entries_0(s) + legacy_entries_1(s) + legacy_entries_2(s), legacy_entries_3(s), 8, "TaskbarVisualizerCenteredBars"@);
    lemma_absent_join(legacy_entries_0(s) + legacy_entries_1(s) + legacy_entries_2(s) + legacy_entries_3(s), legacy_entries_4(s), 8, "TaskbarVisualizerCenteredBars"@);
    lemma_absent_join(legacy_entries_0(s) + legacy_entries_1(s) + legacy_entries_2(s) + legacy_entries_3(s) + legacy_entries_4(s), legacy_entries_5(s), 8, "TaskbarVisualizerCenteredBars"@);
    lemma_absent_join(legacy_entries_0(s) + legacy_entries_1(s) + legacy_entries_2(s) + legacy_entries_3(s) + legacy_entries_4(s) + legacy_entries_5(s), legacy_entries_6(s), 3, "TaskbarVisualizerCenteredBars"@);
    lemma_absent_extend(legacy_entries_0(s) + legacy_entries_1(s) + legacy_entries_2(s) + legacy_entries_3(s) + legacy_entries_4(s) + legacy_entries_5(s) + legacy_entries_6(s), legacy_entries_7(s), 51, "TaskbarVisualizerCenteredBars"@);
    lemma_document_read_back(es, 51, "</UserSettings>\n"@);
    assert(es[52] == legacy_entries_6(s)[4]);
    lemma_absent_join(legacy_entries_0(s), legacy_entries_1(s), 8, "TaskbarVisualizerBaseline"@);
    lemma_absent_join(legacy_entries_0(s) + legacy_entries_1(s), legacy_entries_2(s), 8, "TaskbarVisualizerBaseline"@);
    lemma_absent_join(legacy_entries_0(s) + legacy_entries_1(s) + legacy_entries_2(s), legacy_entries_3(s), 8, "TaskbarVisualizerBaseline"@);
    lemma_absent_join(legacy_entries_0(s) + legacy_entries_1(s) + legacy_entries_2(s) + legacy_entries_3(s), legacy_entries_4(s), 8, "TaskbarVisualizerBaseline"@);
    lemma_absent_join(legacy_entries_0(s) + legacy_entries_1(s) + legacy_entries_2(s) + legacy_entries_3(s) + legacy_entries_4(s), legacy_entries_5(s), 8, "TaskbarVisualizerBaseline"@);
    lemma_absent_join(legacy_entries_0(s) + legacy_entries_1(s) + legacy_entries_2(s) + legacy_entries_3(s) + legacy_entries_4(s) + legacy_entries_5(s), legacy_entries_6(s), 4, "TaskbarVisualizerBaseline"@);
    lemma_absent_extend(legacy_entries_0(s) + legacy_entries_1(s) + legacy_entries_2(s) + legacy_entries_3(s) + legacy_entries_4(s) + legacy_entries_5(s) + legacy_entries_6(s), legacy_entries_7(s), 52, "TaskbarVisualizerBaseline"@);
    lemma_document_read_back(es, 52, "</UserSettings>\n"@);
    assert(es[53] == legacy_entries_6(s)[5]);
    lemma_absent_join(legacy_entries_0(s), legacy_entries_1(s), 8, "TaskbarVisualizerAudioSensitivity"@);
    lemma_absent_join(legacy_entries_0(s) + legacy_entries_1(s), legacy_entries_2(s), 8, "TaskbarVisualizerAudioSensitivity"@);
    lemma_absent_join(legacy_entries_0(s) + legacy_entries_1(s) + legacy_entries_2(s), legacy_entries_3(s), 8, "TaskbarVisualizerAudioSensitivity"@);
    lemma_absent_join(legacy_entries_0(s) + legacy_entries_1(s) + legacy_entries_2(s) + legacy_entries_3(s), legacy_entries_4(s), 8, "TaskbarVisualizerAudioSensitivity"@);
    lemma_absent_join(legacy_entries_0(s) + legacy_entries_1(s) + legacy_entries_2(s) + legacy_entries_3(s) + legacy_entries_4(s), legacy_entries_5(s), 8, "TaskbarVisualizerAudioSensitivity"@);
    lemma_absent_join(legacy_entries_0(s) + legacy_entries_1(s) + legacy_entries_2(s) + legacy_entries_3(s) + legacy_entries_4(s) + legacy_entries_5(s), legacy_entries_6(s), 5, "TaskbarVisualizerAudioSensitivity"@);
    lemma_absent_extend(legacy_entries_0(s) + legacy_entries_1(s) + legacy_entries_2(s) + legacy_entries_3(s) + legacy_entries_4(s) + legacy_entries_5(s) + legacy_entries_6(s), legacy_entries_7(s), 53, "TaskbarVisualizerAudioSensitivity"@);
    lemma_document_read_back(es, 53, "</UserSettings>\n"@);
    assert(es[54] == legacy_entries_6(s)[6]);
    lemma_absent_join(legacy_entries_0(s), legacy_entries_1(s), 8, "TaskbarVisualizerAudioPeakLevel"@);
    lemma_absent_join(legacy_entries_0(s) + legacy_entries_1(s), legacy_entries_2(s), 8, "TaskbarVisualizerAudioPeakLevel"@);
    lemma_absent_join(legacy_entries_0(s) + legacy_entries_1(s) + legacy_entries_2(s), legacy_entries_3(s), 8, "TaskbarVisualizerAudioPeakLevel"@);
    lemma_absent_join(legacy_entries_0(s) + legacy_entries_1(s) + legacy_entries_2(s) + legacy_entries_3(s), legacy_entries_4(s), 8, "TaskbarVisualizerAudioPeakLevel"@);
    lemma_absent_join(legacy_entries_0(s) + legacy_entries_1(s) + legacy_entries_2(s) + legacy_entries_3(s) + legacy_entries_4(s), legacy_entries_5(s), 8, "TaskbarVisualizerAudioPeakLevel"@);
    lemma_absent_join(legacy_entries_0(s) + legacy_entries_1(s) + legacy_entries_2(s) + legacy_entries_3(s) + legacy_entries_4(s) + legacy_entries_5(s), legacy_entries_6(s), 6, "TaskbarVisualizerAudioPeakLevel"@);
    lemma_absent_extend(legacy_entries_0(s) + legacy_entries_1(s) + legacy_entries_2(s) + legacy_entries_3(s) + legacy_entries_4(s) + legacy_entries_5(s) + legacy_entries_6(s), legacy_entries_7(s), 54, "TaskbarVisualizerAudioPeakLevel"@);
    lemma_document_read_back(es, 54, "</UserSettings>\n"@);
    assert(es[55] == legacy_entries_6(s)[7]);
    lemma_absent_join(legacy_entries_0(s), legacy_entries_1(s), 8, "AcrylicBlurOpacity"@);
    lemma_absent_join(legacy_entries_0(s) + legacy_entries_1(s), legacy_entries_2(s), 8, "AcrylicBlurOpacity"@);
    lemma_absent_join(legacy_entries_0(s) + legacy_entries_1(s) + legacy_entries_2(s), legacy_entries_3(s), 8, "AcrylicBlurOpacity"@);
    lemma_absent_join(legacy_entries_0(s) + legacy_entries_1(s) + legacy_entries_2(s) + legacy_entries_3(s), legacy_entries_4(s), 8, "AcrylicBlurOpacity"@);
    lemma_absent_join(legacy_entries_0(s) + legacy_entries_1(s) + legacy_entries_2(s) + legacy_entries_3(s) + legacy_entries_4(s), legacy_entries_5(s), 8, "AcrylicBlurOpacity"@);
    lemma_absent_join(legacy_entries_0(s) + legacy_entries_1(s) + legacy_entries_2(s) + legacy_entries_3(s) + legacy_entries_4(s) + legacy_entries_5(s), legacy_entries_6(s), 7, "AcrylicBlurOpacity"@);
    lemma_absent_extend(legacy_entries_0(s) + legacy_entries_1(s) + legacy_entries_2(s) + legacy_entries_3(s) + legacy_entries_4(s) + legacy_entries_5(s) + legacy_entries_6(s), legacy_entries_7(s), 55, "AcrylicBlurOpacity"@);
    lemma_document_read_back(es, 55, "</UserSettings>\n"@);
}

/// The settings that importing keeps from `s`: each setting the import reads, and the
/// defaults for the others.
pub open spec fn restored_settings(s: SettingsDto) -> SettingsDto {
    SettingsDto {
        media_flyout_enabled: s.media_flyout_enabled,
        media_flyout_background_blur: s.media_flyout_background_blur,
        media_flyout_acrylic_window_enabled: s.media_flyout_acrylic_window_enabled,
        compact_layout: s.compact_layout,
        position: s.position,
        duration: s.duration,
        media_flyout_always_display: s.media_flyout_always_display,
        center_title_artist: s.center_title_artist,
        player_info_enabled: s.player_info_enabled,
        repeat_enabled: s.repeat_enabled,
        shuffle_enabled: s.shuffle_enabled,
        seekbar_enabled: s.seekbar_enabled,
        pause_other_sessions_enabled: s.pause_other_sessions_enabled,
        media_flyout_volume_keys_excluded: s.media_flyout_volume_keys_excluded,
        exclusive_tidal_mode: s.exclusive_tidal_mode,
        next_up_enabled: s.next_up_enabled,
        next_up_duration: s.next_up_duration,
        lock_keys_enabled: s.lock_keys_enabled,
        lock_keys_duration: s.lock_keys_duration,
        lock_keys_bold_ui: s.lock_keys_bold_ui,
        lock_keys_monitor_preference: s.lock_keys_monitor_preference,
        lock_keys_insert_enabled: s.lock_keys_insert_enabled,
        taskbar_widget_enabled: s.taskbar_widget_enabled,
        taskbar_widget_position: s.taskbar_widget_position,
        taskbar_widget_selected_monitor: s.taskbar_widget_selected_monitor,
        taskbar_widget_padding: s.taskbar_widget_padding,
        taskbar_widget_manual_padding: s.taskbar_widget_manual_padding,
        taskbar_widget_clickable: s.taskbar_widget_clickable,
        taskbar_widget_closeable_flyout: s.taskbar_widget_closeable_flyout,
        taskbar_widget_background_blur: s.taskbar_widget_background_blur,
        taskbar_widget_hide_completely: s.taskbar_widget_hide_completely,
        taskbar_widget_controls_enabled: s.taskbar_widget_controls_enabled,
        taskbar_widget_controls_position: s.taskbar_widget_controls_position,
        taskbar_visualizer_enabled: s.taskbar_visualizer_enabled,
        taskbar_visualizer_position: s.taskbar_visualizer_position,
        taskbar_visualizer_bar_count: s.taskbar_visualizer_bar_count,
        taskbar_visualizer_centered_bars: s.taskbar_visualizer_centered_bars,
        taskbar_visualizer_baseline: s.taskbar_visualizer_baseline,
        taskbar_visualizer_audio_sensitivity: s.taskbar_visualizer_audio_sensitivity,
        taskbar_visualizer_audio_peak_level: s.taskbar_visualizer_audio_peak_level,
        flyout_selected_monitor: s.flyout_selected_monitor,
        acrylic_blur_opacity: s.acrylic_blur_opacity,
        app_theme: s.app_theme,
        startup: s.startup,
        disable_if_fullscreen: s.disable_if_fullscreen,
        nicon_left_click: s.nicon_left_click,
        nicon_symbol: s.nicon_symbol,
        nicon_hide: s.nicon_hide,
        ..default_settings_dto()
    }
}

/// Step 1 of the import takes its settings from the legacy document written for `s`.
proof fn lemma_import_step_0_restores(s: SettingsDto, cur: SettingsDto)
    ensures
        crate::legacy::import_step_0(legacy_document(s), cur) == (SettingsDto {
            media_flyout_enabled: s.media_flyout_enabled,
            media_flyout_background_blur: s.media_flyout_background_blur,
            media_flyout_acrylic_window_enabled: s.media_flyout_acrylic_window_enabled,
            compact_layout: s.compact_layout,
            position: s.position,
            duration: s.duration,
            media_flyout_always_display: s.media_flyout_always_display,
            center_title_artist: s.center_title_artist,
            ..cur
        }),
{
    reveal(crate::legacy::import_step_0);
    lemma_chunk_0_read_back(s);
    lemma_chunk_1_read_back(s);
    lemma_chunk_2_read_back(s);
    lemma_chunk_3_read_back(s);
    text::lemma_parse_bool_chars(s.media_flyout_enabled);
    text::lemma_parse_int_text(s.media_flyout_background_blur);
    text::lemma_parse_bool_chars(s.media_flyout_acrylic_window_enabled);
    text::lemma_parse_bool_chars(s.compact_layout);
    text::lemma_parse_int_text(s.position);
    text::lemma_parse_int_text(s.duration);
    text::lemma_parse_bool_chars(s.media_flyout_always_display);
    text::lemma_parse_bool_chars(s.center_title_artist);
}

/// Step 2 of the import takes its settings from the legacy document written for `s`.
proof fn lemma_import_step_1_restores(s: SettingsDto, cur: SettingsDto)
    ensures
        crate::legacy::import_step_1(legacy_document(s), cur) == (SettingsDto {
            player_info_enabled: s.player_info_enabled,
            repeat_enabled: s.repeat_enabled,
            shuffle_enabled: s.shuffle_enabled,
            seekbar_enabled: s.seekbar_enabled,
            pause_other_sessions_enabled: s.pause_other_sessions_enabled,
            media_flyout_volume_keys_excluded: s.media_flyout_volume_keys_excluded,
            exclusive_tidal_mode: s.exclusive_tidal_mode,
            next_up_enabled: s.next_up_enabled,
            ..cur
        }),
{
    reveal(crate::legacy::import_step_1);
    lemma_chunk_0_read_back(s);
    lemma_chunk_1_read_back(s);
    lemma_chunk_2_read_back(s);
    lemma_chunk_3_read_back(s);
    text::lemma_parse_bool_chars(s.player_info_enabled);
    text::lemma_parse_bool_chars(s.repeat_enabled);
    text::lemma_parse_bool_chars(s.shuffle_enabled);
    text::lemma_parse_bool_chars(s.seekbar_enabled);
    text::lemma_parse_bool_chars(s.pause_other_sessions_enabled);
    text::lemma_parse_bool_chars(s.media_flyout_volume_keys_excluded);
    text::lemma_parse_bool_chars(s.exclusive_tidal_mode);
    text::lemma_parse_bool_chars(s.next_up_enabled);
}

/// Step 3 of the import takes its settings from the legacy document written for `s`.
proof fn lemma_import_step_2_restores(s: SettingsDto, cur: SettingsDto)
    ensures
        crate::legacy::import_step_2(legacy_document(s), cur) == (SettingsDto {
            next_up_duration: s.next_up_duration,
            lock_keys_enabled: s.lock_keys_enabled,
            lock_keys_duration: s.lock_keys_duration,
            lock_keys_bold_ui: s.lock_keys_bold_ui,
            lock_keys_monitor_preference: s.lock_keys_monitor_preference,
            lock_keys_insert_enabled: s.lock_keys_insert_enabled,
            taskbar_widget_enabled: s.taskbar_widget_enabled,
            taskbar_widget_position: s.taskbar_widget_position,
            ..cur
        }),
{
    reveal(crate::legacy::import_step_2);
    lemma_chunk_1_read_back(s);
    lemma_chunk_2_read_back(s);
    lemma_chunk_3_read_back(s);
    lemma_chunk_4_read_back(s);
    text::lemma_parse_int_text(s.next_up_duration);
    text::lemma_parse_bool_chars(s.lock_keys_enabled);
    text::lemma_parse_int_text(s.lock_keys_duration);
    text::lemma_parse_bool_chars(s.lock_keys_bold_ui);
    text::lemma_parse_int_text(s.lock_keys_monitor_preference);
    text::lemma_parse_bool_chars(s.lock_keys_insert_enabled);
    text::lemma_parse_bool_chars(s.taskbar_widget_enabled);
    text::lemma_parse_int_text(s.taskbar_widget_position);
}

/// Step 4 of the import takes its settings from the legacy document written for `s`.
proof fn lemma_import_step_3_restores(s: SettingsDto, cur: SettingsDto)
    ensures
        crate::legacy::import_step_3(legacy_document(s), cur) == (SettingsDto {
            taskbar_widget_selected_monitor: s.taskbar_widget_selected_monitor,
            taskbar_widget_padding: s.taskbar_widget_padding,
            taskbar_widget_manual_padding: s.taskbar_widget_manual_padding,
            taskbar_widget_clickable: s.taskbar_widget_clickable,
            taskbar_widget_closeable_flyout: s.taskbar_widget_closeable_flyout,
            taskbar_widget_background_blur: s.taskbar_widget_background_blur,
            taskbar_widget_hide_completely: s.taskbar_widget_hide_completely,
            taskbar_widget_controls_enabled: s.taskbar_widget_controls_enabled,
            ..cur
        }),
{
    reveal(crate::legacy::import_step_3);
    lemma_chunk_4_read_back(s);
    lemma_chunk_5_read_back(s);
    text::lemma_parse_int_text(s.taskbar_widget_selected_monitor);
    text::lemma_parse_bool_chars(s.taskbar_widget_padding);
    text::lemma_parse_int_text(s.taskbar_widget_manual_padding);
    text::lemma_parse_bool_chars(s.taskbar_widget_clickable);
    text::lemma_parse_bool_chars(s.taskbar_widget_closeable_flyout);
    text::lemma_parse_bool_chars(s.taskbar_widget_background_blur);
    text::lemma_parse_bool_chars(s.taskbar_widget_hide_completely);
    text::lemma_parse_bool_chars(s.taskbar_widget_controls_enabled);
}

/// Step 5 of the import takes its settings from the legacy document written for `s`.
proof fn lemma_import_step_4_restores(s: SettingsDto, cur: SettingsDto)
    ensures
        crate::legacy::import_step_4(legacy_document(s), cur) == (SettingsDto {
            taskbar_widget_controls_position: s.taskbar_widget_controls_position,
            taskbar_visualizer_enabled: s.taskbar_visualizer_enabled,
            taskbar_visualizer_position: s.taskbar_visualizer_position,
            taskbar_visualizer_bar_count: s.taskbar_visualizer_bar_count,
            taskbar_visualizer_centered_bars: s.taskbar_visualizer_centered_bars,
            taskbar_visualizer_baseline: s.taskbar_visualizer_baseline,
            taskbar_visualizer_audio_sensitivity: s.taskbar_visualizer_audio_sensitivity,
            taskbar_visualizer_audio_peak_level: s.taskbar_visualizer_audio_peak_level,
            ..cur
        }),
{
    reveal(crate::legacy::import_step_4);
    lemma_chunk_5_read_back(s);
    lemma_chunk_6_read_back(s);
    text::lemma_parse_int_text(s.taskbar_widget_controls_position);
    text::lemma_parse_bool_chars(s.taskbar_visualizer_enabled);
    text::lemma_parse_int_text(s.taskbar_visualizer_position);
    text::lemma_parse_int_text(s.taskbar_visualizer_bar_count);
    text::lemma_parse_bool_chars(s.taskbar_visualizer_centered_bars);
    text::lemma_parse_bool_chars(s.taskbar_visualizer_baseline);
    text::lemma_parse_int_text(s.taskbar_visualizer_audio_sensitivity);
    text::lemma_parse_int_text(s.taskbar_visualizer_audio_peak_level);
}

/// Step 6 of the import takes its settings from the legacy document written for `s`.
proof fn lemma_import_step_5_restores(s: SettingsDto, cur: SettingsDto)
    ensures
        crate::legacy::import_step_5(legacy_document(s), cur) == (SettingsDto {
            flyout_selected_monitor: s.flyout_selected_monitor,
            acrylic_blur_opacity: s.acrylic_blur_opacity,
            app_theme: s.app_theme,
            startup: s.startup,
            disable_if_fullscreen: s.disable_if_fullscreen,
            nicon_left_click: s.nicon_left_click,
            nicon_symbol: s.nicon_symbol,
            nicon_hide: s.nicon_hide,
            ..cur
        }),
{
    reveal(crate::legacy::import_step_5);
    lemma_chunk_0_read_back(s);
    lemma_chunk_1_read_back(s);
    lemma_chunk_2_read_back(s);
    lemma_chunk_6_read_back(s);
    text::lemma_parse_int_text(s.flyout_selected_monitor);
    text::lemma_parse_int_text(s.acrylic_blur_opacity);
    text::lemma_parse_int_text(s.app_theme);
    text::lemma_parse_bool_chars(s.startup);
    text::lemma_parse_bool_chars(s.disable_if_fullscreen);
    text::lemma_parse_int_text(s.nicon_left_click);
    text::lemma_parse_bool_chars(s.nicon_symbol);
    text::lemma_parse_bool_chars(s.nicon_hide);
}

/// Importing the legacy document written for settings `s` gives back every setting that
/// the import reads, limited to its range as every import limits it, and the defaults
/// for the settings that the import does not read.
pub proof fn lemma_legacy_roundtrip(s: SettingsDto)
    ensures
        imported_settings(legacy_document(s)) == clamped(restored_settings(s)),
{
    let d = legacy_document(s);
    let s0 = crate::legacy::import_step_0(d, default_settings_dto());
    let s1 = crate::legacy::import_step_1(d, s0);
    let s2 = crate::legacy::import_step_2(d, s1);
    let s3 = crate::legacy::import_step_3(d, s2);
    let s4 = crate::legacy::import_step_4(d, s3);
    let s5 = crate::legacy::import_step_5(d, s4);
    assert(s5 == restored_settings(s)) by {
        lemma_import_step_0_restores(s, default_settings_dto());
        lemma_import_step_1_restores(s, s0);
        lemma_import_step_2_restores(s, s1);
        lemma_import_step_3_restores(s, s2);
        lemma_import_step_4_restores(s, s3);
        lemma_import_step_5_restores(s, s4);
    }
}

} // verus!
