//! What saving the settings window's edits guarantees about the settings file: every
//! edited setting reads back as written, and every other entry keeps its text.
use vstd::prelude::*;
use crate::text;
use crate::settings::{EditableSettings, clamp_spec, edit_entries, edit_entries_0, edit_entries_1, edit_entries_2, edit_entries_3, edit_entries_4, edit_entries_5, saved_document, empty_settings_document};
use crate::settings_xml::{root_end, open_tag, spec_tag_value};
use crate::xml_entries::{lemma_match_shape, lemma_tags_are_patterns, plain_tag, lt_free, root_name, entry_ok, entries_ok, plain_entries, last_value, lemma_apply_keeps_other_entry, lemma_apply_reads_back};

verus! {

/// The digits of a number hold no `<`.
proof fn lemma_nat_text_lt_free(n: nat)
    ensures
        lt_free(text::nat_text(n)),
    decreases n,
{
    if n >= 10 {
        lemma_nat_text_lt_free(n / 10);
    }
}

/// A printed integer holds no `<`.
pub proof fn lemma_int_text_lt_free(i: int)
    ensures
        lt_free(text::int_text(i)),
{
    if i < 0 {
        lemma_nat_text_lt_free((-i) as nat);
        assert forall|k: int| 0 <= k < text::int_text(i).len() implies text::int_text(i)[k] != '<' by {
            if k > 0 {
                assert(text::int_text(i)[k] == text::nat_text((-i) as nat)[k - 1]);
            }
        }
    } else {
        lemma_nat_text_lt_free(i as nat);
    }
}

/// A printed `bool` holds no `<`.
pub proof fn lemma_bool_chars_lt_free(b: bool)
    ensures
        lt_free(text::bool_chars(b)),
{
}

/// Every entry's tag is shorter than the XML declaration that opens a new file.
spec fn short_names(entries: Seq<(Seq<char>, Seq<char>)>) -> bool {
    forall|i: int| 0 <= i < entries.len() ==> (#[trigger] entries[i].0).len() < 36
}

proof fn lemma_plain_entries_join(a: Seq<(Seq<char>, Seq<char>)>, b: Seq<(Seq<char>, Seq<char>)>)
    requires
        plain_entries(a),
        plain_entries(b),
        short_names(a),
        short_names(b),
    ensures
        plain_entries(a + b),
        short_names(a + b),
{
    assert forall|i: int| 0 <= i < (a + b).len() implies (#[trigger] (a + b)[i].0).len() < 36 by {
        if i < a.len() {
            assert((a + b)[i] == a[i]);
        } else {
            assert((a + b)[i] == b[i - a.len()]);
        }
    }
    assert forall|i: int| 0 <= i < (a + b).len() implies {
        &&& plain_tag(#[trigger] (a + b)[i].0)
        &&& (a + b)[i].0 != root_name()
        &&& lt_free((a + b)[i].1)
    } by {
        if i < a.len() {
            assert((a + b)[i] == a[i]);
        } else {
            assert((a + b)[i] == b[i - a.len()]);
        }
    }
}

proof fn lemma_edit_entries_0_plain(e: EditableSettings)
    ensures
        plain_entries(edit_entries_0(e)),
        short_names(edit_entries_0(e)),
{
    reveal_strlit("MediaFlyoutEnabled");
    reveal_strlit("MediaFlyoutBackgroundBlur");
    reveal_strlit("MediaFlyoutAcrylicWindowEnabled");
    reveal_strlit("CompactLayout");
    reveal_strlit("Position");
    reveal_strlit("Duration");
    reveal_strlit("MediaFlyoutAlwaysDisplay");
    lemma_bool_chars_lt_free(true);
    lemma_bool_chars_lt_free(false);
    lemma_int_text_lt_free(e.media_flyout_background_blur as int);
    lemma_int_text_lt_free(e.position as int);
    lemma_int_text_lt_free(clamp_spec(e.duration as int, 0, 10000));
}

proof fn lemma_edit_entries_1_plain(e: EditableSettings)
    ensures
        plain_entries(edit_entries_1(e)),
        short_names(edit_entries_1(e)),
{
    reveal_strlit("CenterTitleArtist");
    reveal_strlit("PlayerInfoEnabled");
    reveal_strlit("RepeatEnabled");
    reveal_strlit("ShuffleEnabled");
    reveal_strlit("SeekbarEnabled");
    reveal_strlit("MediaFlyoutVolumeKeysExcluded");
    reveal_strlit("ExclusiveTidalMode");
    lemma_bool_chars_lt_free(true);
    lemma_bool_chars_lt_free(false);
}

proof fn lemma_edit_entries_2_plain(e: EditableSettings)
    ensures
        plain_entries(edit_entries_2(e)),
        short_names(edit_entries_2(e)),
{
    reveal_strlit("LockKeysEnabled");
    reveal_strlit("LockKeysAcrylicWindowEnabled");
    reveal_strlit("LockKeysDuration");
    reveal_strlit("LockKeysBoldUI");
    reveal_strlit("LockKeysMonitorPreference");
    reveal_strlit("LockKeysInsertEnabled");
    reveal_strlit("FlyoutSelectedMonitor");
    lemma_bool_chars_lt_free(true);
    lemma_bool_chars_lt_free(false);
    lemma_int_text_lt_free(clamp_spec(e.lock_keys_duration as int, 0, 10000));
    lemma_int_text_lt_free(e.lock_keys_monitor_preference as int);
    lemma_int_text_lt_free(e.flyout_selected_monitor as int);
}

proof fn lemma_edit_entries_3_plain(e: EditableSettings)
    ensures
        plain_entries(edit_entries_3(e)),
        short_names(edit_entries_3(e)),
{
    reveal_strlit("Startup");
    reveal_strlit("DisableIfFullscreen");
    reveal_strlit("nIconLeftClick");
    reveal_strlit("NIconHide");
    reveal_strlit("AppTheme");
    reveal_strlit("NextUpEnabled");
    reveal_strlit("NextUpDuration");
    lemma_bool_chars_lt_free(true);
    lemma_bool_chars_lt_free(false);
    lemma_int_text_lt_free(e.nicon_left_click as int);
    lemma_int_text_lt_free(e.app_theme as int);
    lemma_int_text_lt_free(clamp_spec(e.next_up_duration as int, 0, 10000));
}

proof fn lemma_edit_entries_4_plain(e: EditableSettings)
    ensures
        plain_entries(edit_entries_4(e)),
        short_names(edit_entries_4(e)),
{
    reveal_strlit("NextUpAcrylicWindowEnabled");
    reveal_strlit("TaskbarWidgetEnabled");
    reveal_strlit("TaskbarWidgetSelectedMonitor");
    reveal_strlit("TaskbarWidgetPosition");
    reveal_strlit("TaskbarWidgetPadding");
    reveal_strlit("TaskbarWidgetManualPadding");
    reveal_strlit("TaskbarWidgetClickable");
    lemma_bool_chars_lt_free(true);
    lemma_bool_chars_lt_free(false);
    lemma_int_text_lt_free(e.taskbar_widget_selected_monitor as int);
    lemma_int_text_lt_free(e.taskbar_widget_position as int);
    lemma_int_text_lt_free(e.taskbar_widget_manual_padding as int);
}

proof fn lemma_edit_entries_5_plain(e: EditableSettings)
    ensures
        plain_entries(edit_entries_5(e)),
        short_names(edit_entries_5(e)),
{
    reveal_strlit("TaskbarWidgetCloseableFlyout");
    reveal_strlit("TaskbarWidgetBackgroundBlur");
    reveal_strlit("TaskbarWidgetHideCompletely");
    reveal_strlit("TaskbarWidgetControlsEnabled");
    reveal_strlit("TaskbarWidgetControlsPosition");
    reveal_strlit("TaskbarWidgetAnimated");
    lemma_bool_chars_lt_free(true);
    lemma_bool_chars_lt_free(false);
    lemma_int_text_lt_free(e.taskbar_widget_controls_position as int);
}

proof fn lemma_edit_entries_plain(e: EditableSettings)
    ensures
        plain_entries(edit_entries(e)),
        short_names(edit_entries(e)),
{
    lemma_edit_entries_0_plain(e);
    lemma_edit_entries_1_plain(e);
    lemma_edit_entries_2_plain(e);
    lemma_edit_entries_3_plain(e);
    lemma_edit_entries_4_plain(e);
    lemma_edit_entries_5_plain(e);
    let s01 = edit_entries_0(e) + edit_entries_1(e);
    lemma_plain_entries_join(edit_entries_0(e), edit_entries_1(e));
    lemma_plain_entries_join(s01, edit_entries_2(e));
    lemma_plain_entries_join(s01 + edit_entries_2(e), edit_entries_3(e));
    lemma_plain_entries_join(s01 + edit_entries_2(e) + edit_entries_3(e), edit_entries_4(e));
    lemma_plain_entries_join(
        s01 + edit_entries_2(e) + edit_entries_3(e) + edit_entries_4(e),
        edit_entries_5(e),
    );
}

proof fn lemma_last_value_named(entries: Seq<(Seq<char>, Seq<char>)>, t: Seq<char>) -> (i: int)
    requires
        last_value(entries, t) is Some,
    ensures
        0 <= i < entries.len(),
        entries[i].0 == t,
    decreases entries.len(),
{
    if entries.last().0 == t {
        entries.len() - 1
    } else {
        let i = lemma_last_value_named(entries.drop_last(), t);
        assert(entries.drop_last()[i] == entries[i]);
        i
    }
}

/// The document that saving starts from: the current file's text, or a document with an
/// empty `UserSettings` element when there is no file.
pub open spec fn base_document(existing: Option<Seq<char>>) -> Seq<char> {
    match existing {
        Some(x) => x,
        None => empty_settings_document(),
    }
}

/// Saving the settings window's edits leaves every entry that the window does not edit
/// (a setting of a newer version, say) with exactly the text the file had for it, as long
/// as the file's entries hold no `<`.
pub proof fn lemma_save_keeps_other_settings(existing: Option<Seq<char>>, edits: EditableSettings, u: Seq<char>)
    requires
        plain_tag(u),
        u != root_name(),
        forall|i: int| 0 <= i < edit_entries(edits).len() ==> #[trigger] edit_entries(edits)[i].0 != u,
        entry_ok(base_document(existing), u),
        entries_ok(base_document(existing), edit_entries(edits)),
    ensures
        spec_tag_value(saved_document(existing, edits), u) == spec_tag_value(base_document(existing), u),
{
    lemma_edit_entries_plain(edits);
    lemma_apply_keeps_other_entry(base_document(existing), edit_entries(edits), u);
}

/// After saving, each setting that the window writes reads back as the text written for
/// it (the last one, were a tag written twice): always when there was no file, and for an
/// existing file that has `</UserSettings>` and whose entries for those settings hold no `<`.
pub proof fn lemma_save_reads_back(existing: Option<Seq<char>>, edits: EditableSettings, t: Seq<char>)
    requires
        existing matches Some(x) ==> text::has_match(x, root_end()) && entries_ok(x, edit_entries(edits)),
        last_value(edit_entries(edits), t) is Some,
    ensures
        spec_tag_value(saved_document(existing, edits), t) == Some(
            text::trim(last_value(edit_entries(edits), t).unwrap()),
        ),
{
    let es = edit_entries(edits);
    if existing is None {
        lemma_empty_document_ready(edits);
    }
    lemma_edit_entries_plain(edits);
    let i = lemma_last_value_named(es, t);
    assert(plain_tag(es[i].0));
    assert(entry_ok(base_document(existing), es[i].0));
    lemma_apply_reads_back(base_document(existing), es, t);
}

/// Where the new-file document has its `<` and `>`.
proof fn lemma_empty_document_marks()
    ensures
        empty_settings_document().len() == 169,
        forall|k: int|
            0 <= k < 169 ==> {
                &&& #[trigger] empty_settings_document()[k] == '<' ==> k == 0 || k == 39 || k == 153
                &&& (0 < k < 37 || 39 < k < 151) ==> empty_settings_document()[k] != '>'
            },
        empty_settings_document()[154] == '/',
        text::matches_at(empty_settings_document(), root_end(), 153),
{
    reveal_strlit(
        "<?xml version=\"1.0\" encoding=\"utf-8\"?>\n<UserSettings xmlns:xsi=\"http://www.w3.org/2001/XMLSchema-instance\" xmlns:xsd=\"http://www.w3.org/2001/XMLSchema\">\n</UserSettings>\n",
    );
    assert(empty_settings_document().subrange(153, 168) =~= root_end());
}

/// A new file has no `<w>` for a plain tag `w` shorter than its XML declaration.
proof fn lemma_empty_document_lacks(w: Seq<char>)
    requires
        plain_tag(w),
        w.len() < 36,
    ensures
        !text::has_match(empty_settings_document(), open_tag(w)),
{
    let d = empty_settings_document();
    let ow = open_tag(w);
    lemma_empty_document_marks();
    lemma_tags_are_patterns(w);
    if text::has_match(d, ow) {
        let i = choose|i: int| text::matches_at(d, ow, i);
        lemma_match_shape(d, ow, i, i);
        assert(d[i] == '<');
        let e = i + ow.len() - 1;
        assert(d.subrange(i, i + ow.len())[ow.len() - 1] == d[e]);
        if i == 153 {
            assert(ow[1] == w[0] || w.len() == 0);
            assert(d.subrange(i, i + ow.len())[1] == d[154]);
        }
    }
}

/// A new file has `</UserSettings>`, and no entry for any setting the window writes.
proof fn lemma_empty_document_ready(e: EditableSettings)
    ensures
        text::has_match(empty_settings_document(), root_end()),
        entries_ok(empty_settings_document(), edit_entries(e)),
{
    lemma_empty_document_marks();
    lemma_edit_entries_plain(e);
    let es = edit_entries(e);
    assert forall|i: int| 0 <= i < es.len() implies entry_ok(empty_settings_document(), #[trigger] es[i].0) by {
        lemma_empty_document_lacks(es[i].0);
    }
}


/// No entry from index `k` on is `w`'s.
spec fn absent_from(entries: Seq<(Seq<char>, Seq<char>)>, k: int, w: Seq<char>) -> bool {
    forall|j: int| k <= j < entries.len() ==> #[trigger] entries[j].0 != w
}

proof fn lemma_last_value_join(a: Seq<(Seq<char>, Seq<char>)>, b: Seq<(Seq<char>, Seq<char>)>, t: Seq<char>)
    ensures
        last_value(a + b, t) == if last_value(b, t) is Some { last_value(b, t) } else { last_value(a, t) },
    decreases b.len(),
{
    if b.len() == 0 {
        assert(a + b =~= a);
    } else {
        assert((a + b).drop_last() =~= a + b.drop_last());
        assert((a + b).last() == b.last());
        lemma_last_value_join(a, b.drop_last(), t);
    }
}

proof fn lemma_last_value_at(c: Seq<(Seq<char>, Seq<char>)>, r: int, t: Seq<char>)
    requires
        0 <= r < c.len(),
        c[r].0 == t,
        absent_from(c, r + 1, t),
    ensures
        last_value(c, t) == Some(c[r].1),
    decreases c.len(),
{
    if r < c.len() - 1 {
        let d = c.drop_last();
        assert(c.last() == c[c.len() - 1]);
        assert forall|j: int| r + 1 <= j < d.len() implies #[trigger] d[j].0 != t by {
            assert(d[j] == c[j]);
        }
        assert(d[r] == c[r]);
        lemma_last_value_at(d, r, t);
    } else {
        assert(c.last() == c[r]);
    }
}

proof fn lemma_last_value_none(c: Seq<(Seq<char>, Seq<char>)>, t: Seq<char>)
    requires
        absent_from(c, 0, t),
    ensures
        last_value(c, t) is None,
    decreases c.len(),
{
    if c.len() > 0 {
        let d = c.drop_last();
        assert(c.last() == c[c.len() - 1]);
        assert forall|j: int| 0 <= j < d.len() implies #[trigger] d[j].0 != t by {
            assert(d[j] == c[j]);
        }
        lemma_last_value_none(d, t);
    }
}

proof fn lemma_edit_chunk_0_own(e: EditableSettings)
    ensures
        absent_from(edit_entries_0(e), 1, "MediaFlyoutEnabled"@),
        absent_from(edit_entries_0(e), 2, "MediaFlyoutBackgroundBlur"@),
        absent_from(edit_entries_0(e), 3, "MediaFlyoutAcrylicWindowEnabled"@),
        absent_from(edit_entries_0(e), 4, "CompactLayout"@),
        absent_from(edit_entries_0(e), 5, "Position"@),
        absent_from(edit_entries_0(e), 6, "Duration"@),
        absent_from(edit_entries_0(e), 7, "MediaFlyoutAlwaysDisplay"@),
{
    reveal_strlit("MediaFlyoutEnabled");
    reveal_strlit("MediaFlyoutBackgroundBlur");
    reveal_strlit("MediaFlyoutAcrylicWindowEnabled");
    reveal_strlit("CompactLayout");
    reveal_strlit("Position");
    reveal_strlit("Duration");
    reveal_strlit("MediaFlyoutAlwaysDisplay");
    assert("MediaFlyoutEnabled"@.len() == 18);
    assert("MediaFlyoutBackgroundBlur"@.len() == 25);
    assert("MediaFlyoutAcrylicWindowEnabled"@.len() == 31);
    assert("CompactLayout"@.len() == 13);
    assert("Position"@.len() == 8);
    assert("Duration"@.len() == 8);
    assert("MediaFlyoutAlwaysDisplay"@.len() == 24);
    assert("Duration"@[0] == 'D');
    assert("Position"@[0] == 'P');
}

proof fn lemma_edit_chunk_1_lacks_0(e: EditableSettings)
    ensures
        absent_from(edit_entries_1(e), 0, "MediaFlyoutEnabled"@),
        absent_from(edit_entries_1(e), 0, "MediaFlyoutBackgroundBlur"@),
        absent_from(edit_entries_1(e), 0, "MediaFlyoutAcrylicWindowEnabled"@),
        absent_from(edit_entries_1(e), 0, "CompactLayout"@),
        absent_from(edit_entries_1(e), 0, "Position"@),
        absent_from(edit_entries_1(e), 0, "Duration"@),
        absent_from(edit_entries_1(e), 0, "MediaFlyoutAlwaysDisplay"@),
{
    reveal_strlit("CenterTitleArtist");
    reveal_strlit("PlayerInfoEnabled");
    reveal_strlit("RepeatEnabled");
    reveal_strlit("ShuffleEnabled");
    reveal_strlit("SeekbarEnabled");
    reveal_strlit("MediaFlyoutVolumeKeysExcluded");
    reveal_strlit("ExclusiveTidalMode");
    reveal_strlit("MediaFlyoutEnabled");
    reveal_strlit("MediaFlyoutBackgroundBlur");
    reveal_strlit("MediaFlyoutAcrylicWindowEnabled");
    reveal_strlit("CompactLayout");
    reveal_strlit("Position");
    reveal_strlit("Duration");
    reveal_strlit("MediaFlyoutAlwaysDisplay");
    assert("CenterTitleArtist"@.len() == 17);
    assert("PlayerInfoEnabled"@.len() == 17);
    assert("RepeatEnabled"@.len() == 13);
    assert("ShuffleEnabled"@.len() == 14);
    assert("SeekbarEnabled"@.len() == 14);
    assert("MediaFlyoutVolumeKeysExcluded"@.len() == 29);
    assert("ExclusiveTidalMode"@.len() == 18);
    assert("MediaFlyoutEnabled"@.len() == 18);
    assert("MediaFlyoutBackgroundBlur"@.len() == 25);
    assert("MediaFlyoutAcrylicWindowEnabled"@.len() == 31);
    assert("CompactLayout"@.len() == 13);
    assert("Position"@.len() == 8);
    assert("Duration"@.len() == 8);
    assert("MediaFlyoutAlwaysDisplay"@.len() == 24);
    assert("ExclusiveTidalMode"@[0] == 'E');
    assert("MediaFlyoutEnabled"@[0] == 'M');
    assert("RepeatEnabled"@[0] == 'R');
    assert("CompactLayout"@[0] == 'C');
}

proof fn lemma_edit_chunk_1_own(e: EditableSettings)
    ensures
        absent_from(edit_entries_1(e), 1, "CenterTitleArtist"@),
        absent_from(edit_entries_1(e), 2, "PlayerInfoEnabled"@),
        absent_from(edit_entries_1(e), 3, "RepeatEnabled"@),
        absent_from(edit_entries_1(e), 4, "ShuffleEnabled"@),
        absent_from(edit_entries_1(e), 5, "SeekbarEnabled"@),
        absent_from(edit_entries_1(e), 6, "MediaFlyoutVolumeKeysExcluded"@),
        absent_from(edit_entries_1(e), 7, "ExclusiveTidalMode"@),
{
    reveal_strlit("CenterTitleArtist");
    reveal_strlit("PlayerInfoEnabled");
    reveal_strlit("RepeatEnabled");
    reveal_strlit("ShuffleEnabled");
    reveal_strlit("SeekbarEnabled");
    reveal_strlit("MediaFlyoutVolumeKeysExcluded");
    reveal_strlit("ExclusiveTidalMode");
    assert("CenterTitleArtist"@.len() == 17);
    assert("PlayerInfoEnabled"@.len() == 17);
    assert("RepeatEnabled"@.len() == 13);
    assert("ShuffleEnabled"@.len() == 14);
    assert("SeekbarEnabled"@.len() == 14);
    assert("MediaFlyoutVolumeKeysExcluded"@.len() == 29);
    assert("ExclusiveTidalMode"@.len() == 18);
    assert("PlayerInfoEnabled"@[0] == 'P');
    assert("CenterTitleArtist"@[0] == 'C');
    assert("SeekbarEnabled"@[1] == 'e');
    assert("ShuffleEnabled"@[1] == 'h');
}

proof fn lemma_edit_chunk_2_lacks_0(e: EditableSettings)
    ensures
        absent_from(edit_entries_2(e), 0, "MediaFlyoutEnabled"@),
        absent_from(edit_entries_2(e), 0, "MediaFlyoutBackgroundBlur"@),
        absent_from(edit_entries_2(e), 0, "MediaFlyoutAcrylicWindowEnabled"@),
        absent_from(edit_entries_2(e), 0, "CompactLayout"@),
        absent_from(edit_entries_2(e), 0, "Position"@),
        absent_from(edit_entries_2(e), 0, "Duration"@),
        absent_from(edit_entries_2(e), 0, "MediaFlyoutAlwaysDisplay"@),
{
    reveal_strlit("LockKeysEnabled");
    reveal_strlit("LockKeysAcrylicWindowEnabled");
    reveal_strlit("LockKeysDuration");
    reveal_strlit("LockKeysBoldUI");
    reveal_strlit("LockKeysMonitorPreference");
    reveal_strlit("LockKeysInsertEnabled");
    reveal_strlit("FlyoutSelectedMonitor");
    reveal_strlit("MediaFlyoutEnabled");
    reveal_strlit("MediaFlyoutBackgroundBlur");
    reveal_strlit("MediaFlyoutAcrylicWindowEnabled");
    reveal_strlit("CompactLayout");
    reveal_strlit("Position");
    reveal_strlit("Duration");
    reveal_strlit("MediaFlyoutAlwaysDisplay");
    assert("LockKeysEnabled"@.len() == 15);
    assert("LockKeysAcrylicWindowEnabled"@.len() == 28);
    assert("LockKeysDuration"@.len() == 16);
    assert("LockKeysBoldUI"@.len() == 14);
    assert("LockKeysMonitorPreference"@.len() == 25);
    assert("LockKeysInsertEnabled"@.len() == 21);
    assert("FlyoutSelectedMonitor"@.len() == 21);
    assert("MediaFlyoutEnabled"@.len() == 18);
    assert("MediaFlyoutBackgroundBlur"@.len() == 25);
    assert("MediaFlyoutAcrylicWindowEnabled"@.len() == 31);
    assert("CompactLayout"@.len() == 13);
    assert("Position"@.len() == 8);
    assert("Duration"@.len() == 8);
    assert("MediaFlyoutAlwaysDisplay"@.len() == 24);
    assert("LockKeysMonitorPreference"@[0] == 'L');
    assert("MediaFlyoutBackgroundBlur"@[0] == 'M');
}

proof fn lemma_edit_chunk_2_lacks_1(e: EditableSettings)
    ensures
        absent_from(edit_entries_2(e), 0, "CenterTitleArtist"@),
        absent_from(edit_entries_2(e), 0, "PlayerInfoEnabled"@),
        absent_from(edit_entries_2(e), 0, "RepeatEnabled"@),
        absent_from(edit_entries_2(e), 0, "ShuffleEnabled"@),
        absent_from(edit_entries_2(e), 0, "SeekbarEnabled"@),
        absent_from(edit_entries_2(e), 0, "MediaFlyoutVolumeKeysExcluded"@),
        absent_from(edit_entries_2(e), 0, "ExclusiveTidalMode"@),
{
    reveal_strlit("LockKeysEnabled");
    reveal_strlit("LockKeysAcrylicWindowEnabled");
    reveal_strlit("LockKeysDuration");
    reveal_strlit("LockKeysBoldUI");
    reveal_strlit("LockKeysMonitorPreference");
    reveal_strlit("LockKeysInsertEnabled");
    reveal_strlit("FlyoutSelectedMonitor");
    reveal_strlit("CenterTitleArtist");
    reveal_strlit("PlayerInfoEnabled");
    reveal_strlit("RepeatEnabled");
    reveal_strlit("ShuffleEnabled");
    reveal_strlit("SeekbarEnabled");
    reveal_strlit("MediaFlyoutVolumeKeysExcluded");
    reveal_strlit("ExclusiveTidalMode");
    assert("LockKeysEnabled"@.len() == 15);
    assert("LockKeysAcrylicWindowEnabled"@.len() == 28);
    assert("LockKeysDuration"@.len() == 16);
    assert("LockKeysBoldUI"@.len() == 14);
    assert("LockKeysMonitorPreference"@.len() == 25);
    assert("LockKeysInsertEnabled"@.len() == 21);
    assert("FlyoutSelectedMonitor"@.len() == 21);
    assert("CenterTitleArtist"@.len() == 17);
    assert("PlayerInfoEnabled"@.len() == 17);
    assert("RepeatEnabled"@.len() == 13);
    assert("ShuffleEnabled"@.len() == 14);
    assert("SeekbarEnabled"@.len() == 14);
    assert("MediaFlyoutVolumeKeysExcluded"@.len() == 29);
    assert("ExclusiveTidalMode"@.len() == 18);
    assert("LockKeysBoldUI"@[0] == 'L');
    assert("ShuffleEnabled"@[0] == 'S');
    assert("SeekbarEnabled"@[0] == 'S');
}

proof fn lemma_edit_chunk_2_own(e: EditableSettings)
    ensures
        absent_from(edit_entries_2(e), 1, "LockKeysEnabled"@),
        absent_from(edit_entries_2(e), 2, "LockKeysAcrylicWindowEnabled"@),
        absent_from(edit_entries_2(e), 3, "LockKeysDuration"@),
        absent_from(edit_entries_2(e), 4, "LockKeysBoldUI"@),
        absent_from(edit_entries_2(e), 5, "LockKeysMonitorPreference"@),
        absent_from(edit_entries_2(e), 6, "LockKeysInsertEnabled"@),
        absent_from(edit_entries_2(e), 7, "FlyoutSelectedMonitor"@),
{
    reveal_strlit("LockKeysEnabled");
    reveal_strlit("LockKeysAcrylicWindowEnabled");
    reveal_strlit("LockKeysDuration");
    reveal_strlit("LockKeysBoldUI");
    reveal_strlit("LockKeysMonitorPreference");
    reveal_strlit("LockKeysInsertEnabled");
    reveal_strlit("FlyoutSelectedMonitor");
    assert("LockKeysEnabled"@.len() == 15);
    assert("LockKeysAcrylicWindowEnabled"@.len() == 28);
    assert("LockKeysDuration"@.len() == 16);
    assert("LockKeysBoldUI"@.len() == 14);
    assert("LockKeysMonitorPreference"@.len() == 25);
    assert("LockKeysInsertEnabled"@.len() == 21);
    assert("FlyoutSelectedMonitor"@.len() == 21);
    assert("FlyoutSelectedMonitor"@[0] == 'F');
    assert("LockKeysInsertEnabled"@[0] == 'L');
}

proof fn lemma_edit_chunk_3_lacks_0(e: EditableSettings)
    ensures
        absent_from(edit_entries_3(e), 0, "MediaFlyoutEnabled"@),
        absent_from(edit_entries_3(e), 0, "MediaFlyoutBackgroundBlur"@),
        absent_from(edit_entries_3(e), 0, "MediaFlyoutAcrylicWindowEnabled"@),
        absent_from(edit_entries_3(e), 0, "CompactLayout"@),
        absent_from(edit_entries_3(e), 0, "Position"@),
        absent_from(edit_entries_3(e), 0, "Duration"@),
        absent_from(edit_entries_3(e), 0, "MediaFlyoutAlwaysDisplay"@),
{
    reveal_strlit("Startup");
    reveal_strlit("DisableIfFullscreen");
    reveal_strlit("nIconLeftClick");
    reveal_strlit("NIconHide");
    reveal_strlit("AppTheme");
    reveal_strlit("NextUpEnabled");
    reveal_strlit("NextUpDuration");
    reveal_strlit("MediaFlyoutEnabled");
    reveal_strlit("MediaFlyoutBackgroundBlur");
    reveal_strlit("MediaFlyoutAcrylicWindowEnabled");
    reveal_strlit("CompactLayout");
    reveal_strlit("Position");
    reveal_strlit("Duration");
    reveal_strlit("MediaFlyoutAlwaysDisplay");
    assert("Startup"@.len() == 7);
    assert("DisableIfFullscreen"@.len() == 19);
    assert("nIconLeftClick"@.len() == 14);
    assert("NIconHide"@.len() == 9);
    assert("AppTheme"@.len() == 8);
    assert("NextUpEnabled"@.len() == 13);
    assert("NextUpDuration"@.len() == 14);
    assert("MediaFlyoutEnabled"@.len() == 18);
    assert("MediaFlyoutBackgroundBlur"@.len() == 25);
    assert("MediaFlyoutAcrylicWindowEnabled"@.len() == 31);
    assert("CompactLayout"@.len() == 13);
    assert("Position"@.len() == 8);
    assert("Duration"@.len() == 8);
    assert("MediaFlyoutAlwaysDisplay"@.len() == 24);
    assert("NextUpEnabled"@[0] == 'N');
    assert("CompactLayout"@[0] == 'C');
    assert("AppTheme"@[0] == 'A');
    assert("Position"@[0] == 'P');
    assert("Duration"@[0] == 'D');
}

proof fn lemma_edit_chunk_3_lacks_1(e: EditableSettings)
    ensures
        absent_from(edit_entries_3(e), 0, "CenterTitleArtist"@),
        absent_from(edit_entries_3(e), 0, "PlayerInfoEnabled"@),
        absent_from(edit_entries_3(e), 0, "RepeatEnabled"@),
        absent_from(edit_entries_3(e), 0, "ShuffleEnabled"@),
        absent_from(edit_entries_3(e), 0, "SeekbarEnabled"@),
        absent_from(edit_entries_3(e), 0, "MediaFlyoutVolumeKeysExcluded"@),
        absent_from(edit_entries_3(e), 0, "ExclusiveTidalMode"@),
{
    reveal_strlit("Startup");
    reveal_strlit("DisableIfFullscreen");
    reveal_strlit("nIconLeftClick");
    reveal_strlit("NIconHide");
    reveal_strlit("AppTheme");
    reveal_strlit("NextUpEnabled");
    reveal_strlit("NextUpDuration");
    reveal_strlit("CenterTitleArtist");
    reveal_strlit("PlayerInfoEnabled");
    reveal_strlit("RepeatEnabled");
    reveal_strlit("ShuffleEnabled");
    reveal_strlit("SeekbarEnabled");
    reveal_strlit("MediaFlyoutVolumeKeysExcluded");
    reveal_strlit("ExclusiveTidalMode");
    assert("Startup"@.len() == 7);
    assert("DisableIfFullscreen"@.len() == 19);
    assert("nIconLeftClick"@.len() == 14);
    assert("NIconHide"@.len() == 9);
    assert("AppTheme"@.len() == 8);
    assert("NextUpEnabled"@.len() == 13);
    assert("NextUpDuration"@.len() == 14);
    assert("CenterTitleArtist"@.len() == 17);
    assert("PlayerInfoEnabled"@.len() == 17);
    assert("RepeatEnabled"@.len() == 13);
    assert("ShuffleEnabled"@.len() == 14);
    assert("SeekbarEnabled"@.len() == 14);
    assert("MediaFlyoutVolumeKeysExcluded"@.len() == 29);
    assert("ExclusiveTidalMode"@.len() == 18);
    assert("NextUpEnabled"@[0] == 'N');
    assert("RepeatEnabled"@[0] == 'R');
    assert("nIconLeftClick"@[0] == 'n');
    assert("ShuffleEnabled"@[0] == 'S');
    assert("NextUpDuration"@[0] == 'N');
    assert("SeekbarEnabled"@[0] == 'S');
}

proof fn lemma_edit_chunk_3_lacks_2(e: EditableSettings)
    ensures
        absent_from(edit_entries_3(e), 0, "LockKeysEnabled"@),
        absent_from(edit_entries_3(e), 0, "LockKeysAcrylicWindowEnabled"@),
        absent_from(edit_entries_3(e), 0, "LockKeysDuration"@),
        absent_from(edit_entries_3(e), 0, "LockKeysBoldUI"@),
        absent_from(edit_entries_3(e), 0, "LockKeysMonitorPreference"@),
        absent_from(edit_entries_3(e), 0, "LockKeysInsertEnabled"@),
        absent_from(edit_entries_3(e), 0, "FlyoutSelectedMonitor"@),
{
    reveal_strlit("Startup");
    reveal_strlit("DisableIfFullscreen");
    reveal_strlit("nIconLeftClick");
    reveal_strlit("NIconHide");
    reveal_strlit("AppTheme");
    reveal_strlit("NextUpEnabled");
    reveal_strlit("NextUpDuration");
    reveal_strlit("LockKeysEnabled");
    reveal_strlit("LockKeysAcrylicWindowEnabled");
    reveal_strlit("LockKeysDuration");
    reveal_strlit("LockKeysBoldUI");
    reveal_strlit("LockKeysMonitorPreference");
    reveal_strlit("LockKeysInsertEnabled");
    reveal_strlit("FlyoutSelectedMonitor");
    assert("Startup"@.len() == 7);
    assert("DisableIfFullscreen"@.len() == 19);
    assert("nIconLeftClick"@.len() == 14);
    assert("NIconHide"@.len() == 9);
    assert("AppTheme"@.len() == 8);
    assert("NextUpEnabled"@.len() == 13);
    assert("NextUpDuration"@.len() == 14);
    assert("LockKeysEnabled"@.len() == 15);
    assert("LockKeysAcrylicWindowEnabled"@.len() == 28);
    assert("LockKeysDuration"@.len() == 16);
    assert("LockKeysBoldUI"@.len() == 14);
    assert("LockKeysMonitorPreference"@.len() == 25);
    assert("LockKeysInsertEnabled"@.len() == 21);
    assert("FlyoutSelectedMonitor"@.len() == 21);
    assert("nIconLeftClick"@[0] == 'n');
    assert("LockKeysBoldUI"@[0] == 'L');
    assert("NextUpDuration"@[0] == 'N');
}

proof fn lemma_edit_chunk_3_own(e: EditableSettings)
    ensures
        absent_from(edit_entries_3(e), 1, "Startup"@),
        absent_from(edit_entries_3(e), 2, "DisableIfFullscreen"@),
        absent_from(edit_entries_3(e), 3, "nIconLeftClick"@),
        absent_from(edit_entries_3(e), 4, "NIconHide"@),
        absent_from(edit_entries_3(e), 5, "AppTheme"@),
        absent_from(edit_entries_3(e), 6, "NextUpEnabled"@),
        absent_from(edit_entries_3(e), 7, "NextUpDuration"@),
{
    reveal_strlit("Startup");
    reveal_strlit("DisableIfFullscreen");
    reveal_strlit("nIconLeftClick");
    reveal_strlit("NIconHide");
    reveal_strlit("AppTheme");
    reveal_strlit("NextUpEnabled");
    reveal_strlit("NextUpDuration");
    assert("Startup"@.len() == 7);
    assert("DisableIfFullscreen"@.len() == 19);
    assert("nIconLeftClick"@.len() == 14);
    assert("NIconHide"@.len() == 9);
    assert("AppTheme"@.len() == 8);
    assert("NextUpEnabled"@.len() == 13);
    assert("NextUpDuration"@.len() == 14);
    assert("NextUpDuration"@[0] == 'N');
    assert("nIconLeftClick"@[0] == 'n');
}

proof fn lemma_edit_chunk_4_lacks_0(e: EditableSettings)
    ensures
        absent_from(edit_entries_4(e), 0, "MediaFlyoutEnabled"@),
        absent_from(edit_entries_4(e), 0, "MediaFlyoutBackgroundBlur"@),
        absent_from(edit_entries_4(e), 0, "MediaFlyoutAcrylicWindowEnabled"@),
        absent_from(edit_entries_4(e), 0, "CompactLayout"@),
        absent_from(edit_entries_4(e), 0, "Position"@),
        absent_from(edit_entries_4(e), 0, "Duration"@),
        absent_from(edit_entries_4(e), 0, "MediaFlyoutAlwaysDisplay"@),
{
    reveal_strlit("NextUpAcrylicWindowEnabled");
    reveal_strlit("TaskbarWidgetEnabled");
    reveal_strlit("TaskbarWidgetSelectedMonitor");
    reveal_strlit("TaskbarWidgetPosition");
    reveal_strlit("TaskbarWidgetPadding");
    reveal_strlit("TaskbarWidgetManualPadding");
    reveal_strlit("TaskbarWidgetClickable");
    reveal_strlit("MediaFlyoutEnabled");
    reveal_strlit("MediaFlyoutBackgroundBlur");
    reveal_strlit("MediaFlyoutAcrylicWindowEnabled");
    reveal_strlit("CompactLayout");
    reveal_strlit("Position");
    reveal_strlit("Duration");
    reveal_strlit("MediaFlyoutAlwaysDisplay");
    assert("NextUpAcrylicWindowEnabled"@.len() == 26);
    assert("TaskbarWidgetEnabled"@.len() == 20);
    assert("TaskbarWidgetSelectedMonitor"@.len() == 28);
    assert("TaskbarWidgetPosition"@.len() == 21);
    assert("TaskbarWidgetPadding"@.len() == 20);
    assert("TaskbarWidgetManualPadding"@.len() == 26);
    assert("TaskbarWidgetClickable"@.len() == 22);
    assert("MediaFlyoutEnabled"@.len() == 18);
    assert("MediaFlyoutBackgroundBlur"@.len() == 25);
    assert("MediaFlyoutAcrylicWindowEnabled"@.len() == 31);
    assert("CompactLayout"@.len() == 13);
    assert("Position"@.len() == 8);
    assert("Duration"@.len() == 8);
    assert("MediaFlyoutAlwaysDisplay"@.len() == 24);
}

proof fn lemma_edit_chunk_4_lacks_1(e: EditableSettings)
    ensures
        absent_from(edit_entries_4(e), 0, "CenterTitleArtist"@),
        absent_from(edit_entries_4(e), 0, "PlayerInfoEnabled"@),
        absent_from(edit_entries_4(e), 0, "RepeatEnabled"@),
        absent_from(edit_entries_4(e), 0, "ShuffleEnabled"@),
        absent_from(edit_entries_4(e), 0, "SeekbarEnabled"@),
        absent_from(edit_entries_4(e), 0, "MediaFlyoutVolumeKeysExcluded"@),
        absent_from(edit_entries_4(e), 0, "ExclusiveTidalMode"@),
{
    reveal_strlit("NextUpAcrylicWindowEnabled");
    reveal_strlit("TaskbarWidgetEnabled");
    reveal_strlit("TaskbarWidgetSelectedMonitor");
    reveal_strlit("TaskbarWidgetPosition");
    reveal_strlit("TaskbarWidgetPadding");
    reveal_strlit("TaskbarWidgetManualPadding");
    reveal_strlit("TaskbarWidgetClickable");
    reveal_strlit("CenterTitleArtist");
    reveal_strlit("PlayerInfoEnabled");
    reveal_strlit("RepeatEnabled");
    reveal_strlit("ShuffleEnabled");
    reveal_strlit("SeekbarEnabled");
    reveal_strlit("MediaFlyoutVolumeKeysExcluded");
    reveal_strlit("ExclusiveTidalMode");
    assert("NextUpAcrylicWindowEnabled"@.len() == 26);
    assert("TaskbarWidgetEnabled"@.len() == 20);
    assert("TaskbarWidgetSelectedMonitor"@.len() == 28);
    assert("TaskbarWidgetPosition"@.len() == 21);
    assert("TaskbarWidgetPadding"@.len() == 20);
    assert("TaskbarWidgetManualPadding"@.len() == 26);
    assert("TaskbarWidgetClickable"@.len() == 22);
    assert("CenterTitleArtist"@.len() == 17);
    assert("PlayerInfoEnabled"@.len() == 17);
    assert("RepeatEnabled"@.len() == 13);
    assert("ShuffleEnabled"@.len() == 14);
    assert("SeekbarEnabled"@.len() == 14);
    assert("MediaFlyoutVolumeKeysExcluded"@.len() == 29);
    assert("ExclusiveTidalMode"@.len() == 18);
}

proof fn lemma_edit_chunk_4_lacks_2(e: EditableSettings)
    ensures
        absent_from(edit_entries_4(e), 0, "LockKeysEnabled"@),
        absent_from(edit_entries_4(e), 0, "LockKeysAcrylicWindowEnabled"@),
        absent_from(edit_entries_4(e), 0, "LockKeysDuration"@),
        absent_from(edit_entries_4(e), 0, "LockKeysBoldUI"@),
        absent_from(edit_entries_4(e), 0, "LockKeysMonitorPreference"@),
        absent_from(edit_entries_4(e), 0, "LockKeysInsertEnabled"@),
        absent_from(edit_entries_4(e), 0, "FlyoutSelectedMonitor"@),
{
    reveal_strlit("NextUpAcrylicWindowEnabled");
    reveal_strlit("TaskbarWidgetEnabled");
    reveal_strlit("TaskbarWidgetSelectedMonitor");
    reveal_strlit("TaskbarWidgetPosition");
    reveal_strlit("TaskbarWidgetPadding");
    reveal_strlit("TaskbarWidgetManualPadding");
    reveal_strlit("TaskbarWidgetClickable");
    reveal_strlit("LockKeysEnabled");
    reveal_strlit("LockKeysAcrylicWindowEnabled");
    reveal_strlit("LockKeysDuration");
    reveal_strlit("LockKeysBoldUI");
    reveal_strlit("LockKeysMonitorPreference");
    reveal_strlit("LockKeysInsertEnabled");
    reveal_strlit("FlyoutSelectedMonitor");
    assert("NextUpAcrylicWindowEnabled"@.len() == 26);
    assert("TaskbarWidgetEnabled"@.len() == 20);
    assert("TaskbarWidgetSelectedMonitor"@.len() == 28);
    assert("TaskbarWidgetPosition"@.len() == 21);
    assert("TaskbarWidgetPadding"@.len() == 20);
    assert("TaskbarWidgetManualPadding"@.len() == 26);
    assert("TaskbarWidgetClickable"@.len() == 22);
    assert("LockKeysEnabled"@.len() == 15);
    assert("LockKeysAcrylicWindowEnabled"@.len() == 28);
    assert("LockKeysDuration"@.len() == 16);
    assert("LockKeysBoldUI"@.len() == 14);
    assert("LockKeysMonitorPreference"@.len() == 25);
    assert("LockKeysInsertEnabled"@.len() == 21);
    assert("FlyoutSelectedMonitor"@.len() == 21);
    assert("TaskbarWidgetSelectedMonitor"@[0] == 'T');
    assert("LockKeysAcrylicWindowEnabled"@[0] == 'L');
    assert("TaskbarWidgetPosition"@[0] == 'T');
    assert("LockKeysInsertEnabled"@[0] == 'L');
    assert("FlyoutSelectedMonitor"@[0] == 'F');
}

proof fn lemma_edit_chunk_4_lacks_3(e: EditableSettings)
    ensures
        absent_from(edit_entries_4(e), 0, "Startup"@),
        absent_from(edit_entries_4(e), 0, "DisableIfFullscreen"@),
        absent_from(edit_entries_4(e), 0, "nIconLeftClick"@),
        absent_from(edit_entries_4(e), 0, "NIconHide"@),
        absent_from(edit_entries_4(e), 0, "AppTheme"@),
        absent_from(edit_entries_4(e), 0, "NextUpEnabled"@),
        absent_from(edit_entries_4(e), 0, "NextUpDuration"@),
{
    reveal_strlit("NextUpAcrylicWindowEnabled");
    reveal_strlit("TaskbarWidgetEnabled");
    reveal_strlit("TaskbarWidgetSelectedMonitor");
    reveal_strlit("TaskbarWidgetPosition");
    reveal_strlit("TaskbarWidgetPadding");
    reveal_strlit("TaskbarWidgetManualPadding");
    reveal_strlit("TaskbarWidgetClickable");
    reveal_strlit("Startup");
    reveal_strlit("DisableIfFullscreen");
    reveal_strlit("nIconLeftClick");
    reveal_strlit("NIconHide");
    reveal_strlit("AppTheme");
    reveal_strlit("NextUpEnabled");
    reveal_strlit("NextUpDuration");
    assert("NextUpAcrylicWindowEnabled"@.len() == 26);
    assert("TaskbarWidgetEnabled"@.len() == 20);
    assert("TaskbarWidgetSelectedMonitor"@.len() == 28);
    assert("TaskbarWidgetPosition"@.len() == 21);
    assert("TaskbarWidgetPadding"@.len() == 20);
    assert("TaskbarWidgetManualPadding"@.len() == 26);
    assert("TaskbarWidgetClickable"@.len() == 22);
    assert("Startup"@.len() == 7);
    assert("DisableIfFullscreen"@.len() == 19);
    assert("nIconLeftClick"@.len() == 14);
    assert("NIconHide"@.len() == 9);
    assert("AppTheme"@.len() == 8);
    assert("NextUpEnabled"@.len() == 13);
    assert("NextUpDuration"@.len() == 14);
}

proof fn lemma_edit_chunk_4_own(e: EditableSettings)
    ensures
        absent_from(edit_entries_4(e), 1, "NextUpAcrylicWindowEnabled"@),
        absent_from(edit_entries_4(e), 2, "TaskbarWidgetEnabled"@),
        absent_from(edit_entries_4(e), 3, "TaskbarWidgetSelectedMonitor"@),
        absent_from(edit_entries_4(e), 4, "TaskbarWidgetPosition"@),
        absent_from(edit_entries_4(e), 5, "TaskbarWidgetPadding"@),
        absent_from(edit_entries_4(e), 6, "TaskbarWidgetManualPadding"@),
        absent_from(edit_entries_4(e), 7, "TaskbarWidgetClickable"@),
{
    reveal_strlit("NextUpAcrylicWindowEnabled");
    reveal_strlit("TaskbarWidgetEnabled");
    reveal_strlit("TaskbarWidgetSelectedMonitor");
    reveal_strlit("TaskbarWidgetPosition");
    reveal_strlit("TaskbarWidgetPadding");
    reveal_strlit("TaskbarWidgetManualPadding");
    reveal_strlit("TaskbarWidgetClickable");
    assert("NextUpAcrylicWindowEnabled"@.len() == 26);
    assert("TaskbarWidgetEnabled"@.len() == 20);
    assert("TaskbarWidgetSelectedMonitor"@.len() == 28);
    assert("TaskbarWidgetPosition"@.len() == 21);
    assert("TaskbarWidgetPadding"@.len() == 20);
    assert("TaskbarWidgetManualPadding"@.len() == 26);
    assert("TaskbarWidgetClickable"@.len() == 22);
    assert("TaskbarWidgetManualPadding"@[0] == 'T');
    assert("NextUpAcrylicWindowEnabled"@[0] == 'N');
    assert("TaskbarWidgetPadding"@[13] == 'P');
    assert("TaskbarWidgetEnabled"@[13] == 'E');
}

proof fn lemma_edit_chunk_5_lacks_0(e: EditableSettings)
    ensures
        absent_from(edit_entries_5(e), 0, "MediaFlyoutEnabled"@),
        absent_from(edit_entries_5(e), 0, "MediaFlyoutBackgroundBlur"@),
        absent_from(edit_entries_5(e), 0, "MediaFlyoutAcrylicWindowEnabled"@),
        absent_from(edit_entries_5(e), 0, "CompactLayout"@),
        absent_from(edit_entries_5(e), 0, "Position"@),
        absent_from(edit_entries_5(e), 0, "Duration"@),
        absent_from(edit_entries_5(e), 0, "MediaFlyoutAlwaysDisplay"@),
{
    reveal_strlit("TaskbarWidgetCloseableFlyout");
    reveal_strlit("TaskbarWidgetBackgroundBlur");
    reveal_strlit("TaskbarWidgetHideCompletely");
    reveal_strlit("TaskbarWidgetControlsEnabled");
    reveal_strlit("TaskbarWidgetControlsPosition");
    reveal_strlit("TaskbarWidgetAnimated");
    reveal_strlit("MediaFlyoutEnabled");
    reveal_strlit("MediaFlyoutBackgroundBlur");
    reveal_strlit("MediaFlyoutAcrylicWindowEnabled");
    reveal_strlit("CompactLayout");
    reveal_strlit("Position");
    reveal_strlit("Duration");
    reveal_strlit("MediaFlyoutAlwaysDisplay");
    assert("TaskbarWidgetCloseableFlyout"@.len() == 28);
    assert("TaskbarWidgetBackgroundBlur"@.len() == 27);
    assert("TaskbarWidgetHideCompletely"@.len() == 27);
    assert("TaskbarWidgetControlsEnabled"@.len() == 28);
    assert("TaskbarWidgetControlsPosition"@.len() == 29);
    assert("TaskbarWidgetAnimated"@.len() == 21);
    assert("MediaFlyoutEnabled"@.len() == 18);
    assert("MediaFlyoutBackgroundBlur"@.len() == 25);
    assert("MediaFlyoutAcrylicWindowEnabled"@.len() == 31);
    assert("CompactLayout"@.len() == 13);
    assert("Position"@.len() == 8);
    assert("Duration"@.len() == 8);
    assert("MediaFlyoutAlwaysDisplay"@.len() == 24);
}

proof fn lemma_edit_chunk_5_lacks_1(e: EditableSettings)
    ensures
        absent_from(edit_entries_5(e), 0, "CenterTitleArtist"@),
        absent_from(edit_entries_5(e), 0, "PlayerInfoEnabled"@),
        absent_from(edit_entries_5(e), 0, "RepeatEnabled"@),
        absent_from(edit_entries_5(e), 0, "ShuffleEnabled"@),
        absent_from(edit_entries_5(e), 0, "SeekbarEnabled"@),
        absent_from(edit_entries_5(e), 0, "MediaFlyoutVolumeKeysExcluded"@),
        absent_from(edit_entries_5(e), 0, "ExclusiveTidalMode"@),
{
    reveal_strlit("TaskbarWidgetCloseableFlyout");
    reveal_strlit("TaskbarWidgetBackgroundBlur");
    reveal_strlit("TaskbarWidgetHideCompletely");
    reveal_strlit("TaskbarWidgetControlsEnabled");
    reveal_strlit("TaskbarWidgetControlsPosition");
    reveal_strlit("TaskbarWidgetAnimated");
    reveal_strlit("CenterTitleArtist");
    reveal_strlit("PlayerInfoEnabled");
    reveal_strlit("RepeatEnabled");
    reveal_strlit("ShuffleEnabled");
    reveal_strlit("SeekbarEnabled");
    reveal_strlit("MediaFlyoutVolumeKeysExcluded");
    reveal_strlit("ExclusiveTidalMode");
    assert("TaskbarWidgetCloseableFlyout"@.len() == 28);
    assert("TaskbarWidgetBackgroundBlur"@.len() == 27);
    assert("TaskbarWidgetHideCompletely"@.len() == 27);
    assert("TaskbarWidgetControlsEnabled"@.len() == 28);
    assert("TaskbarWidgetControlsPosition"@.len() == 29);
    assert("TaskbarWidgetAnimated"@.len() == 21);
    assert("CenterTitleArtist"@.len() == 17);
    assert("PlayerInfoEnabled"@.len() == 17);
    assert("RepeatEnabled"@.len() == 13);
    assert("ShuffleEnabled"@.len() == 14);
    assert("SeekbarEnabled"@.len() == 14);
    assert("MediaFlyoutVolumeKeysExcluded"@.len() == 29);
    assert("ExclusiveTidalMode"@.len() == 18);
    assert("TaskbarWidgetControlsPosition"@[0] == 'T');
    assert("MediaFlyoutVolumeKeysExcluded"@[0] == 'M');
}

proof fn lemma_edit_chunk_5_lacks_2(e: EditableSettings)
    ensures
        absent_from(edit_entries_5(e), 0, "LockKeysEnabled"@),
        absent_from(edit_entries_5(e), 0, "LockKeysAcrylicWindowEnabled"@),
        absent_from(edit_entries_5(e), 0, "LockKeysDuration"@),
        absent_from(edit_entries_5(e), 0, "LockKeysBoldUI"@),
        absent_from(edit_entries_5(e), 0, "LockKeysMonitorPreference"@),
        absent_from(edit_entries_5(e), 0, "LockKeysInsertEnabled"@),
        absent_from(edit_entries_5(e), 0, "FlyoutSelectedMonitor"@),
{
    reveal_strlit("TaskbarWidgetCloseableFlyout");
    reveal_strlit("TaskbarWidgetBackgroundBlur");
    reveal_strlit("TaskbarWidgetHideCompletely");
    reveal_strlit("TaskbarWidgetControlsEnabled");
    reveal_strlit("TaskbarWidgetControlsPosition");
    reveal_strlit("TaskbarWidgetAnimated");
    reveal_strlit("LockKeysEnabled");
    reveal_strlit("LockKeysAcrylicWindowEnabled");
    reveal_strlit("LockKeysDuration");
    reveal_strlit("LockKeysBoldUI");
    reveal_strlit("LockKeysMonitorPreference");
    reveal_strlit("LockKeysInsertEnabled");
    reveal_strlit("FlyoutSelectedMonitor");
    assert("TaskbarWidgetCloseableFlyout"@.len() == 28);
    assert("TaskbarWidgetBackgroundBlur"@.len() == 27);
    assert("TaskbarWidgetHideCompletely"@.len() == 27);
    assert("TaskbarWidgetControlsEnabled"@.len() == 28);
    assert("TaskbarWidgetControlsPosition"@.len() == 29);
    assert("TaskbarWidgetAnimated"@.len() == 21);
    assert("LockKeysEnabled"@.len() == 15);
    assert("LockKeysAcrylicWindowEnabled"@.len() == 28);
    assert("LockKeysDuration"@.len() == 16);
    assert("LockKeysBoldUI"@.len() == 14);
    assert("LockKeysMonitorPreference"@.len() == 25);
    assert("LockKeysInsertEnabled"@.len() == 21);
    assert("FlyoutSelectedMonitor"@.len() == 21);
    assert("TaskbarWidgetCloseableFlyout"@[0] == 'T');
    assert("LockKeysAcrylicWindowEnabled"@[0] == 'L');
    assert("TaskbarWidgetControlsEnabled"@[0] == 'T');
    assert("TaskbarWidgetAnimated"@[0] == 'T');
    assert("LockKeysInsertEnabled"@[0] == 'L');
    assert("FlyoutSelectedMonitor"@[0] == 'F');
}

proof fn lemma_edit_chunk_5_lacks_3(e: EditableSettings)
    ensures
        absent_from(edit_entries_5(e), 0, "Startup"@),
        absent_from(edit_entries_5(e), 0, "DisableIfFullscreen"@),
        absent_from(edit_entries_5(e), 0, "nIconLeftClick"@),
        absent_from(edit_entries_5(e), 0, "NIconHide"@),
        absent_from(edit_entries_5(e), 0, "AppTheme"@),
        absent_from(edit_entries_5(e), 0, "NextUpEnabled"@),
        absent_from(edit_entries_5(e), 0, "NextUpDuration"@),
{
    reveal_strlit("TaskbarWidgetCloseableFlyout");
    reveal_strlit("TaskbarWidgetBackgroundBlur");
    reveal_strlit("TaskbarWidgetHideCompletely");
    reveal_strlit("TaskbarWidgetControlsEnabled");
    reveal_strlit("TaskbarWidgetControlsPosition");
    reveal_strlit("TaskbarWidgetAnimated");
    reveal_strlit("Startup");
    reveal_strlit("DisableIfFullscreen");
    reveal_strlit("nIconLeftClick");
    reveal_strlit("NIconHide");
    reveal_strlit("AppTheme");
    reveal_strlit("NextUpEnabled");
    reveal_strlit("NextUpDuration");
    assert("TaskbarWidgetCloseableFlyout"@.len() == 28);
    assert("TaskbarWidgetBackgroundBlur"@.len() == 27);
    assert("TaskbarWidgetHideCompletely"@.len() == 27);
    assert("TaskbarWidgetControlsEnabled"@.len() == 28);
    assert("TaskbarWidgetControlsPosition"@.len() == 29);
    assert("TaskbarWidgetAnimated"@.len() == 21);
    assert("Startup"@.len() == 7);
    assert("DisableIfFullscreen"@.len() == 19);
    assert("nIconLeftClick"@.len() == 14);
    assert("NIconHide"@.len() == 9);
    assert("AppTheme"@.len() == 8);
    assert("NextUpEnabled"@.len() == 13);
    assert("NextUpDuration"@.len() == 14);
}

proof fn lemma_edit_chunk_5_lacks_4(e: EditableSettings)
    ensures
        absent_from(edit_entries_5(e), 0, "NextUpAcrylicWindowEnabled"@),
        absent_from(edit_entries_5(e), 0, "TaskbarWidgetEnabled"@),
        absent_from(edit_entries_5(e), 0, "TaskbarWidgetSelectedMonitor"@),
        absent_from(edit_entries_5(e), 0, "TaskbarWidgetPosition"@),
        absent_from(edit_entries_5(e), 0, "TaskbarWidgetPadding"@),
        absent_from(edit_entries_5(e), 0, "TaskbarWidgetManualPadding"@),
        absent_from(edit_entries_5(e), 0, "TaskbarWidgetClickable"@),
{
    reveal_strlit("TaskbarWidgetCloseableFlyout");
    reveal_strlit("TaskbarWidgetBackgroundBlur");
    reveal_strlit("TaskbarWidgetHideCompletely");
    reveal_strlit("TaskbarWidgetControlsEnabled");
    reveal_strlit("TaskbarWidgetControlsPosition");
    reveal_strlit("TaskbarWidgetAnimated");
    reveal_strlit("NextUpAcrylicWindowEnabled");
    reveal_strlit("TaskbarWidgetEnabled");
    reveal_strlit("TaskbarWidgetSelectedMonitor");
    reveal_strlit("TaskbarWidgetPosition");
    reveal_strlit("TaskbarWidgetPadding");
    reveal_strlit("TaskbarWidgetManualPadding");
    reveal_strlit("TaskbarWidgetClickable");
    assert("TaskbarWidgetCloseableFlyout"@.len() == 28);
    assert("TaskbarWidgetBackgroundBlur"@.len() == 27);
    assert("TaskbarWidgetHideCompletely"@.len() == 27);
    assert("TaskbarWidgetControlsEnabled"@.len() == 28);
    assert("TaskbarWidgetControlsPosition"@.len() == 29);
    assert("TaskbarWidgetAnimated"@.len() == 21);
    assert("NextUpAcrylicWindowEnabled"@.len() == 26);
    assert("TaskbarWidgetEnabled"@.len() == 20);
    assert("TaskbarWidgetSelectedMonitor"@.len() == 28);
    assert("TaskbarWidgetPosition"@.len() == 21);
    assert("TaskbarWidgetPadding"@.len() == 20);
    assert("TaskbarWidgetManualPadding"@.len() == 26);
    assert("TaskbarWidgetClickable"@.len() == 22);
    assert("TaskbarWidgetCloseableFlyout"@[13] == 'C');
    assert("TaskbarWidgetSelectedMonitor"@[13] == 'S');
    assert("TaskbarWidgetControlsEnabled"@[13] == 'C');
    assert("TaskbarWidgetAnimated"@[13] == 'A');
    assert("TaskbarWidgetPosition"@[13] == 'P');
}

proof fn lemma_edit_chunk_5_own(e: EditableSettings)
    ensures
        absent_from(edit_entries_5(e), 1, "TaskbarWidgetCloseableFlyout"@),
        absent_from(edit_entries_5(e), 2, "TaskbarWidgetBackgroundBlur"@),
        absent_from(edit_entries_5(e), 3, "TaskbarWidgetHideCompletely"@),
        absent_from(edit_entries_5(e), 4, "TaskbarWidgetControlsEnabled"@),
        absent_from(edit_entries_5(e), 5, "TaskbarWidgetControlsPosition"@),
        absent_from(edit_entries_5(e), 6, "TaskbarWidgetAnimated"@),
{
    reveal_strlit("TaskbarWidgetCloseableFlyout");
    reveal_strlit("TaskbarWidgetBackgroundBlur");
    reveal_strlit("TaskbarWidgetHideCompletely");
    reveal_strlit("TaskbarWidgetControlsEnabled");
    reveal_strlit("TaskbarWidgetControlsPosition");
    reveal_strlit("TaskbarWidgetAnimated");
    assert("TaskbarWidgetCloseableFlyout"@.len() == 28);
    assert("TaskbarWidgetBackgroundBlur"@.len() == 27);
    assert("TaskbarWidgetHideCompletely"@.len() == 27);
    assert("TaskbarWidgetControlsEnabled"@.len() == 28);
    assert("TaskbarWidgetControlsPosition"@.len() == 29);
    assert("TaskbarWidgetAnimated"@.len() == 21);
    assert("TaskbarWidgetControlsEnabled"@[14] == 'o');
    assert("TaskbarWidgetCloseableFlyout"@[14] == 'l');
    assert("TaskbarWidgetHideCompletely"@[13] == 'H');
    assert("TaskbarWidgetBackgroundBlur"@[13] == 'B');
}

/// The settings of entries 1 to 7 read back from the saved document.
proof fn lemma_save_writes_chunk_0(existing: Option<Seq<char>>, e: EditableSettings)
    requires
        existing matches Some(x) ==> text::has_match(x, root_end()) && entries_ok(x, edit_entries(e)),
    ensures
        spec_tag_value(saved_document(existing, e), "MediaFlyoutEnabled"@) == Some(text::bool_chars(e.media_flyout_enabled)),
        spec_tag_value(saved_document(existing, e), "MediaFlyoutBackgroundBlur"@) == Some(text::int_text(e.media_flyout_background_blur as int)),
        spec_tag_value(saved_document(existing, e), "MediaFlyoutAcrylicWindowEnabled"@) == Some(text::bool_chars(e.media_flyout_acrylic_window_enabled)),
        spec_tag_value(saved_document(existing, e), "CompactLayout"@) == Some(text::bool_chars(e.compact_layout)),
        spec_tag_value(saved_document(existing, e), "Position"@) == Some(text::int_text(e.position as int)),
        spec_tag_value(saved_document(existing, e), "Duration"@) == Some(text::int_text(clamp_spec(e.duration as int, 0, 10000))),
        spec_tag_value(saved_document(existing, e), "MediaFlyoutAlwaysDisplay"@) == Some(text::bool_chars(e.media_flyout_always_display)),
{
    lemma_edit_chunk_1_lacks_0(e);
    lemma_edit_chunk_2_lacks_0(e);
    lemma_edit_chunk_3_lacks_0(e);
    lemma_edit_chunk_4_lacks_0(e);
    lemma_edit_chunk_5_lacks_0(e);
    lemma_edit_chunk_0_own(e);
    assert(spec_tag_value(saved_document(existing, e), "MediaFlyoutEnabled"@) == Some(text::bool_chars(e.media_flyout_enabled))) by {
        lemma_last_value_at(edit_entries_0(e), 0, "MediaFlyoutEnabled"@);
        lemma_last_value_none(edit_entries_1(e), "MediaFlyoutEnabled"@);
        lemma_last_value_none(edit_entries_2(e), "MediaFlyoutEnabled"@);
        lemma_last_value_none(edit_entries_3(e), "MediaFlyoutEnabled"@);
        lemma_last_value_none(edit_entries_4(e), "MediaFlyoutEnabled"@);
        lemma_last_value_none(edit_entries_5(e), "MediaFlyoutEnabled"@);
        lemma_last_value_join(edit_entries_0(e), edit_entries_1(e), "MediaFlyoutEnabled"@);
        lemma_last_value_join(edit_entries_0(e) + edit_entries_1(e), edit_entries_2(e), "MediaFlyoutEnabled"@);
        lemma_last_value_join(edit_entries_0(e) + edit_entries_1(e) + edit_entries_2(e), edit_entries_3(e), "MediaFlyoutEnabled"@);
        lemma_last_value_join(edit_entries_0(e) + edit_entries_1(e) + edit_entries_2(e) + edit_entries_3(e), edit_entries_4(e), "MediaFlyoutEnabled"@);
        lemma_last_value_join(edit_entries_0(e) + edit_entries_1(e) + edit_entries_2(e) + edit_entries_3(e) + edit_entries_4(e), edit_entries_5(e), "MediaFlyoutEnabled"@);
        lemma_save_reads_back(existing, e, "MediaFlyoutEnabled"@);
        text::lemma_parse_bool_chars(e.media_flyout_enabled);
    }
    assert(spec_tag_value(saved_document(existing, e), "MediaFlyoutBackgroundBlur"@) == Some(text::int_text(e.media_flyout_background_blur as int))) by {
        lemma_last_value_at(edit_entries_0(e), 1, "MediaFlyoutBackgroundBlur"@);
        lemma_last_value_none(edit_entries_1(e), "MediaFlyoutBackgroundBlur"@);
        lemma_last_value_none(edit_entries_2(e), "MediaFlyoutBackgroundBlur"@);
        lemma_last_value_none(edit_entries_3(e), "MediaFlyoutBackgroundBlur"@);
        lemma_last_value_none(edit_entries_4(e), "MediaFlyoutBackgroundBlur"@);
        lemma_last_value_none(edit_entries_5(e), "MediaFlyoutBackgroundBlur"@);
        lemma_last_value_join(edit_entries_0(e), edit_entries_1(e), "MediaFlyoutBackgroundBlur"@);
        lemma_last_value_join(edit_entries_0(e) + edit_entries_1(e), edit_entries_2(e), "MediaFlyoutBackgroundBlur"@);
        lemma_last_value_join(edit_entries_0(e) + edit_entries_1(e) + edit_entries_2(e), edit_entries_3(e), "MediaFlyoutBackgroundBlur"@);
        lemma_last_value_join(edit_entries_0(e) + edit_entries_1(e) + edit_entries_2(e) + edit_entries_3(e), edit_entries_4(e), "MediaFlyoutBackgroundBlur"@);
        lemma_last_value_join(edit_entries_0(e) + edit_entries_1(e) + edit_entries_2(e) + edit_entries_3(e) + edit_entries_4(e), edit_entries_5(e), "MediaFlyoutBackgroundBlur"@);
        lemma_save_reads_back(existing, e, "MediaFlyoutBackgroundBlur"@);
        text::lemma_trim_int_text(e.media_flyout_background_blur as int);
    }
    assert(spec_tag_value(saved_document(existing, e), "MediaFlyoutAcrylicWindowEnabled"@) == Some(text::bool_chars(e.media_flyout_acrylic_window_enabled))) by {
        lemma_last_value_at(edit_entries_0(e), 2, "MediaFlyoutAcrylicWindowEnabled"@);
        lemma_last_value_none(edit_entries_1(e), "MediaFlyoutAcrylicWindowEnabled"@);
        lemma_last_value_none(edit_entries_2(e), "MediaFlyoutAcrylicWindowEnabled"@);
        lemma_last_value_none(edit_entries_3(e), "MediaFlyoutAcrylicWindowEnabled"@);
        lemma_last_value_none(edit_entries_4(e), "MediaFlyoutAcrylicWindowEnabled"@);
        lemma_last_value_none(edit_entries_5(e), "MediaFlyoutAcrylicWindowEnabled"@);
        lemma_last_value_join(edit_entries_0(e), edit_entries_1(e), "MediaFlyoutAcrylicWindowEnabled"@);
        lemma_last_value_join(edit_entries_0(e) + edit_entries_1(e), edit_entries_2(e), "MediaFlyoutAcrylicWindowEnabled"@);
        lemma_last_value_join(edit_entries_0(e) + edit_entries_1(e) + edit_entries_2(e), edit_entries_3(e), "MediaFlyoutAcrylicWindowEnabled"@);
        lemma_last_value_join(edit_entries_0(e) + edit_entries_1(e) + edit_entries_2(e) + edit_entries_3(e), edit_entries_4(e), "MediaFlyoutAcrylicWindowEnabled"@);
        lemma_last_value_join(edit_entries_0(e) + edit_entries_1(e) + edit_entries_2(e) + edit_entries_3(e) + edit_entries_4(e), edit_entries_5(e), "MediaFlyoutAcrylicWindowEnabled"@);
        lemma_save_reads_back(existing, e, "MediaFlyoutAcrylicWindowEnabled"@);
        text::lemma_parse_bool_chars(e.media_flyout_acrylic_window_enabled);
    }
    assert(spec_tag_value(saved_document(existing, e), "CompactLayout"@) == Some(text::bool_chars(e.compact_layout))) by {
        lemma_last_value_at(edit_entries_0(e), 3, "CompactLayout"@);
        lemma_last_value_none(edit_entries_1(e), "CompactLayout"@);
        lemma_last_value_none(edit_entries_2(e), "CompactLayout"@);
        lemma_last_value_none(edit_entries_3(e), "CompactLayout"@);
        lemma_last_value_none(edit_entries_4(e), "CompactLayout"@);
        lemma_last_value_none(edit_entries_5(e), "CompactLayout"@);
        lemma_last_value_join(edit_entries_0(e), edit_entries_1(e), "CompactLayout"@);
        lemma_last_value_join(edit_entries_0(e) + edit_entries_1(e), edit_entries_2(e), "CompactLayout"@);
        lemma_last_value_join(edit_entries_0(e) + edit_entries_1(e) + edit_entries_2(e), edit_entries_3(e), "CompactLayout"@);
        lemma_last_value_join(edit_entries_0(e) + edit_entries_1(e) + edit_entries_2(e) + edit_entries_3(e), edit_entries_4(e), "CompactLayout"@);
        lemma_last_value_join(edit_entries_0(e) + edit_entries_1(e) + edit_entries_2(e) + edit_entries_3(e) + edit_entries_4(e), edit_entries_5(e), "CompactLayout"@);
        lemma_save_reads_back(existing, e, "CompactLayout"@);
        text::lemma_parse_bool_chars(e.compact_layout);
    }
    assert(spec_tag_value(saved_document(existing, e), "Position"@) == Some(text::int_text(e.position as int))) by {
        lemma_last_value_at(edit_entries_0(e), 4, "Position"@);
        lemma_last_value_none(edit_entries_1(e), "Position"@);
        lemma_last_value_none(edit_entries_2(e), "Position"@);
        lemma_last_value_none(edit_entries_3(e), "Position"@);
        lemma_last_value_none(edit_entries_4(e), "Position"@);
        lemma_last_value_none(edit_entries_5(e), "Position"@);
        lemma_last_value_join(edit_entries_0(e), edit_entries_1(e), "Position"@);
        lemma_last_value_join(edit_entries_0(e) + edit_entries_1(e), edit_entries_2(e), "Position"@);
        lemma_last_value_join(edit_entries_0(e) + edit_entries_1(e) + edit_entries_2(e), edit_entries_3(e), "Position"@);
        lemma_last_value_join(edit_entries_0(e) + edit_entries_1(e) + edit_entries_2(e) + edit_entries_3(e), edit_entries_4(e), "Position"@);
        lemma_last_value_join(edit_entries_0(e) + edit_entries_1(e) + edit_entries_2(e) + edit_entries_3(e) + edit_entries_4(e), edit_entries_5(e), "Position"@);
        lemma_save_reads_back(existing, e, "Position"@);
        text::lemma_trim_int_text(e.position as int);
    }
    assert(spec_tag_value(saved_document(existing, e), "Duration"@) == Some(text::int_text(clamp_spec(e.duration as int, 0, 10000)))) by {
        lemma_last_value_at(edit_entries_0(e), 5, "Duration"@);
        lemma_last_value_none(edit_entries_1(e), "Duration"@);
        lemma_last_value_none(edit_entries_2(e), "Duration"@);
        lemma_last_value_none(edit_entries_3(e), "Duration"@);
        lemma_last_value_none(edit_entries_4(e), "Duration"@);
        lemma_last_value_none(edit_entries_5(e), "Duration"@);
        lemma_last_value_join(edit_entries_0(e), edit_entries_1(e), "Duration"@);
        lemma_last_value_join(edit_entries_0(e) + edit_entries_1(e), edit_entries_2(e), "Duration"@);
        lemma_last_value_join(edit_entries_0(e) + edit_entries_1(e) + edit_entries_2(e), edit_entries_3(e), "Duration"@);
        lemma_last_value_join(edit_entries_0(e) + edit_entries_1(e) + edit_entries_2(e) + edit_entries_3(e), edit_entries_4(e), "Duration"@);
        lemma_last_value_join(edit_entries_0(e) + edit_entries_1(e) + edit_entries_2(e) + edit_entries_3(e) + edit_entries_4(e), edit_entries_5(e), "Duration"@);
        lemma_save_reads_back(existing, e, "Duration"@);
        text::lemma_trim_int_text(clamp_spec(e.duration as int, 0, 10000));
    }
    assert(spec_tag_value(saved_document(existing, e), "MediaFlyoutAlwaysDisplay"@) == Some(text::bool_chars(e.media_flyout_always_display))) by {
        lemma_last_value_at(edit_entries_0(e), 6, "MediaFlyoutAlwaysDisplay"@);
        lemma_last_value_none(edit_entries_1(e), "MediaFlyoutAlwaysDisplay"@);
        lemma_last_value_none(edit_entries_2(e), "MediaFlyoutAlwaysDisplay"@);
        lemma_last_value_none(edit_entries_3(e), "MediaFlyoutAlwaysDisplay"@);
        lemma_last_value_none(edit_entries_4(e), "MediaFlyoutAlwaysDisplay"@);
        lemma_last_value_none(edit_entries_5(e), "MediaFlyoutAlwaysDisplay"@);
        lemma_last_value_join(edit_entries_0(e), edit_entries_1(e), "MediaFlyoutAlwaysDisplay"@);
        lemma_last_value_join(edit_entries_0(e) + edit_entries_1(e), edit_entries_2(e), "MediaFlyoutAlwaysDisplay"@);
        lemma_last_value_join(edit_entries_0(e) + edit_entries_1(e) + edit_entries_2(e), edit_entries_3(e), "MediaFlyoutAlwaysDisplay"@);
        lemma_last_value_join(edit_entries_0(e) + edit_entries_1(e) + edit_entries_2(e) + edit_entries_3(e), edit_entries_4(e), "MediaFlyoutAlwaysDisplay"@);
        lemma_last_value_join(edit_entries_0(e) + edit_entries_1(e) + edit_entries_2(e) + edit_entries_3(e) + edit_entries_4(e), edit_entries_5(e), "MediaFlyoutAlwaysDisplay"@);
        lemma_save_reads_back(existing, e, "MediaFlyoutAlwaysDisplay"@);
        text::lemma_parse_bool_chars(e.media_flyout_always_display);
    }
}

/// The settings of entries 8 to 14 read back from the saved document.
proof fn lemma_save_writes_chunk_1(existing: Option<Seq<char>>, e: EditableSettings)
    requires
        existing matches Some(x) ==> text::has_match(x, root_end()) && entries_ok(x, edit_entries(e)),
    ensures
        spec_tag_value(saved_document(existing, e), "CenterTitleArtist"@) == Some(text::bool_chars(e.center_title_artist)),
        spec_tag_value(saved_document(existing, e), "PlayerInfoEnabled"@) == Some(text::bool_chars(e.player_info_enabled)),
        spec_tag_value(saved_document(existing, e), "RepeatEnabled"@) == Some(text::bool_chars(e.repeat_enabled)),
        spec_tag_value(saved_document(existing, e), "ShuffleEnabled"@) == Some(text::bool_chars(e.shuffle_enabled)),
        spec_tag_value(saved_document(existing, e), "SeekbarEnabled"@) == Some(text::bool_chars(e.seekbar_enabled)),
        spec_tag_value(saved_document(existing, e), "MediaFlyoutVolumeKeysExcluded"@) == Some(text::bool_chars(e.media_flyout_volume_keys_excluded)),
        spec_tag_value(saved_document(existing, e), "ExclusiveTidalMode"@) == Some(text::bool_chars(e.exclusive_tidal_mode)),
{
    lemma_edit_chunk_2_lacks_1(e);
    lemma_edit_chunk_3_lacks_1(e);
    lemma_edit_chunk_4_lacks_1(e);
    lemma_edit_chunk_5_lacks_1(e);
    lemma_edit_chunk_1_own(e);
    assert(spec_tag_value(saved_document(existing, e), "CenterTitleArtist"@) == Some(text::bool_chars(e.center_title_artist))) by {
        lemma_last_value_at(edit_entries_1(e), 0, "CenterTitleArtist"@);
        lemma_last_value_none(edit_entries_2(e), "CenterTitleArtist"@);
        lemma_last_value_none(edit_entries_3(e), "CenterTitleArtist"@);
        lemma_last_value_none(edit_entries_4(e), "CenterTitleArtist"@);
        lemma_last_value_none(edit_entries_5(e), "CenterTitleArtist"@);
        lemma_last_value_join(edit_entries_0(e), edit_entries_1(e), "CenterTitleArtist"@);
        lemma_last_value_join(edit_entries_0(e) + edit_entries_1(e), edit_entries_2(e), "CenterTitleArtist"@);
        lemma_last_value_join(edit_entries_0(e) + edit_entries_1(e) + edit_entries_2(e), edit_entries_3(e), "CenterTitleArtist"@);
        lemma_last_value_join(edit_entries_0(e) + edit_entries_1(e) + edit_entries_2(e) + edit_entries_3(e), edit_entries_4(e), "CenterTitleArtist"@);
        lemma_last_value_join(edit_entries_0(e) + edit_entries_1(e) + edit_entries_2(e) + edit_entries_3(e) + edit_entries_4(e), edit_entries_5(e), "CenterTitleArtist"@);
        lemma_save_reads_back(existing, e, "CenterTitleArtist"@);
        text::lemma_parse_bool_chars(e.center_title_artist);
    }
    assert(spec_tag_value(saved_document(existing, e), "PlayerInfoEnabled"@) == Some(text::bool_chars(e.player_info_enabled))) by {
        lemma_last_value_at(edit_entries_1(e), 1, "PlayerInfoEnabled"@);
        lemma_last_value_none(edit_entries_2(e), "PlayerInfoEnabled"@);
        lemma_last_value_none(edit_entries_3(e), "PlayerInfoEnabled"@);
        lemma_last_value_none(edit_entries_4(e), "PlayerInfoEnabled"@);
        lemma_last_value_none(edit_entries_5(e), "PlayerInfoEnabled"@);
        lemma_last_value_join(edit_entries_0(e), edit_entries_1(e), "PlayerInfoEnabled"@);
        lemma_last_value_join(edit_entries_0(e) + edit_entries_1(e), edit_entries_2(e), "PlayerInfoEnabled"@);
        lemma_last_value_join(edit_entries_0(e) + edit_entries_1(e) + edit_entries_2(e), edit_entries_3(e), "PlayerInfoEnabled"@);
        lemma_last_value_join(edit_entries_0(e) + edit_entries_1(e) + edit_entries_2(e) + edit_entries_3(e), edit_entries_4(e), "PlayerInfoEnabled"@);
        lemma_last_value_join(edit_entries_0(e) + edit_entries_1(e) + edit_entries_2(e) + edit_entries_3(e) + edit_entries_4(e), edit_entries_5(e), "PlayerInfoEnabled"@);
        lemma_save_reads_back(existing, e, "PlayerInfoEnabled"@);
        text::lemma_parse_bool_chars(e.player_info_enabled);
    }
    assert(spec_tag_value(saved_document(existing, e), "RepeatEnabled"@) == Some(text::bool_chars(e.repeat_enabled))) by {
        lemma_last_value_at(edit_entries_1(e), 2, "RepeatEnabled"@);
        lemma_last_value_none(edit_entries_2(e), "RepeatEnabled"@);
        lemma_last_value_none(edit_entries_3(e), "RepeatEnabled"@);
        lemma_last_value_none(edit_entries_4(e), "RepeatEnabled"@);
        lemma_last_value_none(edit_entries_5(e), "RepeatEnabled"@);
        lemma_last_value_join(edit_entries_0(e), edit_entries_1(e), "RepeatEnabled"@);
        lemma_last_value_join(edit_entries_0(e) + edit_entries_1(e), edit_entries_2(e), "RepeatEnabled"@);
        lemma_last_value_join(edit_entries_0(e) + edit_entries_1(e) + edit_entries_2(e), edit_entries_3(e), "RepeatEnabled"@);
        lemma_last_value_join(edit_entries_0(e) + edit_entries_1(e) + edit_entries_2(e) + edit_entries_3(e), edit_entries_4(e), "RepeatEnabled"@);
        lemma_last_value_join(edit_entries_0(e) + edit_entries_1(e) + edit_entries_2(e) + edit_entries_3(e) + edit_entries_4(e), edit_entries_5(e), "RepeatEnabled"@);
        lemma_save_reads_back(existing, e, "RepeatEnabled"@);
        text::lemma_parse_bool_chars(e.repeat_enabled);
    }
    assert(spec_tag_value(saved_document(existing, e), "ShuffleEnabled"@) == Some(text::bool_chars(e.shuffle_enabled))) by {
        lemma_last_value_at(edit_entries_1(e), 3, "ShuffleEnabled"@);
        lemma_last_value_none(edit_entries_2(e), "ShuffleEnabled"@);
        lemma_last_value_none(edit_entries_3(e), "ShuffleEnabled"@);
        lemma_last_value_none(edit_entries_4(e), "ShuffleEnabled"@);
        lemma_last_value_none(edit_entries_5(e), "ShuffleEnabled"@);
        lemma_last_value_join(edit_entries_0(e), edit_entries_1(e), "ShuffleEnabled"@);
        lemma_last_value_join(edit_entries_0(e) + edit_entries_1(e), edit_entries_2(e), "ShuffleEnabled"@);
        lemma_last_value_join(edit_entries_0(e) + edit_entries_1(e) + edit_entries_2(e), edit_entries_3(e), "ShuffleEnabled"@);
        lemma_last_value_join(edit_entries_0(e) + edit_entries_1(e) + edit_entries_2(e) + edit_entries_3(e), edit_entries_4(e), "ShuffleEnabled"@);
        lemma_last_value_join(edit_entries_0(e) + edit_entries_1(e) + edit_entries_2(e) + edit_entries_3(e) + edit_entries_4(e), edit_entries_5(e), "ShuffleEnabled"@);
        lemma_save_reads_back(existing, e, "ShuffleEnabled"@);
        text::lemma_parse_bool_chars(e.shuffle_enabled);
    }
    assert(spec_tag_value(saved_document(existing, e), "SeekbarEnabled"@) == Some(text::bool_chars(e.seekbar_enabled))) by {
        lemma_last_value_at(edit_entries_1(e), 4, "SeekbarEnabled"@);
        lemma_last_value_none(edit_entries_2(e), "SeekbarEnabled"@);
        lemma_last_value_none(edit_entries_3(e), "SeekbarEnabled"@);
        lemma_last_value_none(edit_entries_4(e), "SeekbarEnabled"@);
        lemma_last_value_none(edit_entries_5(e), "SeekbarEnabled"@);
        lemma_last_value_join(edit_entries_0(e), edit_entries_1(e), "SeekbarEnabled"@);
        lemma_last_value_join(edit_entries_0(e) + edit_entries_1(e), edit_entries_2(e), "SeekbarEnabled"@);
        lemma_last_value_join(edit_entries_0(e) + edit_entries_1(e) + edit_entries_2(e), edit_entries_3(e), "SeekbarEnabled"@);
        lemma_last_value_join(edit_entries_0(e) + edit_entries_1(e) + edit_entries_2(e) + edit_entries_3(e), edit_entries_4(e), "SeekbarEnabled"@);
        lemma_last_value_join(edit_entries_0(e) + edit_entries_1(e) + edit_entries_2(e) + edit_entries_3(e) + edit_entries_4(e), edit_entries_5(e), "SeekbarEnabled"@);
        lemma_save_reads_back(existing, e, "SeekbarEnabled"@);
        text::lemma_parse_bool_chars(e.seekbar_enabled);
    }
    assert(spec_tag_value(saved_document(existing, e), "MediaFlyoutVolumeKeysExcluded"@) == Some(text::bool_chars(e.media_flyout_volume_keys_excluded))) by {
        lemma_last_value_at(edit_entries_1(e), 5, "MediaFlyoutVolumeKeysExcluded"@);
        lemma_last_value_none(edit_entries_2(e), "MediaFlyoutVolumeKeysExcluded"@);
        lemma_last_value_none(edit_entries_3(e), "MediaFlyoutVolumeKeysExcluded"@);
        lemma_last_value_none(edit_entries_4(e), "MediaFlyoutVolumeKeysExcluded"@);
        lemma_last_value_none(edit_entries_5(e), "MediaFlyoutVolumeKeysExcluded"@);
        lemma_last_value_join(edit_entries_0(e), edit_entries_1(e), "MediaFlyoutVolumeKeysExcluded"@);
        lemma_last_value_join(edit_entries_0(e) + edit_entries_1(e), edit_entries_2(e), "MediaFlyoutVolumeKeysExcluded"@);
        lemma_last_value_join(edit_entries_0(e) + edit_entries_1(e) + edit_entries_2(e), edit_entries_3(e), "MediaFlyoutVolumeKeysExcluded"@);
        lemma_last_value_join(edit_entries_0(e) + edit_entries_1(e) + edit_entries_2(e) + edit_entries_3(e), edit_entries_4(e), "MediaFlyoutVolumeKeysExcluded"@);
        lemma_last_value_join(edit_entries_0(e) + edit_entries_1(e) + edit_entries_2(e) + edit_entries_3(e) + edit_entries_4(e), edit_entries_5(e), "MediaFlyoutVolumeKeysExcluded"@);
        lemma_save_reads_back(existing, e, "MediaFlyoutVolumeKeysExcluded"@);
        text::lemma_parse_bool_chars(e.media_flyout_volume_keys_excluded);
    }
    assert(spec_tag_value(saved_document(existing, e), "ExclusiveTidalMode"@) == Some(text::bool_chars(e.exclusive_tidal_mode))) by {
        lemma_last_value_at(edit_entries_1(e), 6, "ExclusiveTidalMode"@);
        lemma_last_value_none(edit_entries_2(e), "ExclusiveTidalMode"@);
        lemma_last_value_none(edit_entries_3(e), "ExclusiveTidalMode"@);
        lemma_last_value_none(edit_entries_4(e), "ExclusiveTidalMode"@);
        lemma_last_value_none(edit_entries_5(e), "ExclusiveTidalMode"@);
        lemma_last_value_join(edit_entries_0(e), edit_entries_1(e), "ExclusiveTidalMode"@);
        lemma_last_value_join(edit_entries_0(e) + edit_entries_1(e), edit_entries_2(e), "ExclusiveTidalMode"@);
        lemma_last_value_join(edit_entries_0(e) + edit_entries_1(e) + edit_entries_2(e), edit_entries_3(e), "ExclusiveTidalMode"@);
        lemma_last_value_join(edit_entries_0(e) + edit_entries_1(e) + edit_entries_2(e) + edit_entries_3(e), edit_entries_4(e), "ExclusiveTidalMode"@);
        lemma_last_value_join(edit_entries_0(e) + edit_entries_1(e) + edit_entries_2(e) + edit_entries_3(e) + edit_entries_4(e), edit_entries_5(e), "ExclusiveTidalMode"@);
        lemma_save_reads_back(existing, e, "ExclusiveTidalMode"@);
        text::lemma_parse_bool_chars(e.exclusive_tidal_mode);
    }
}

/// The settings of entries 15 to 21 read back from the saved document.
proof fn lemma_save_writes_chunk_2(existing: Option<Seq<char>>, e: EditableSettings)
    requires
        existing matches Some(x) ==> text::has_match(x, root_end()) && entries_ok(x, edit_entries(e)),
    ensures
        spec_tag_value(saved_document(existing, e), "LockKeysEnabled"@) == Some(text::bool_chars(e.lock_keys_enabled)),
        spec_tag_value(saved_document(existing, e), "LockKeysAcrylicWindowEnabled"@) == Some(text::bool_chars(e.lock_keys_acrylic_window_enabled)),
        spec_tag_value(saved_document(existing, e), "LockKeysDuration"@) == Some(text::int_text(clamp_spec(e.lock_keys_duration as int, 0, 10000))),
        spec_tag_value(saved_document(existing, e), "LockKeysBoldUI"@) == Some(text::bool_chars(e.lock_keys_bold_ui)),
        spec_tag_value(saved_document(existing, e), "LockKeysMonitorPreference"@) == Some(text::int_text(e.lock_keys_monitor_preference as int)),
        spec_tag_value(saved_document(existing, e), "LockKeysInsertEnabled"@) == Some(text::bool_chars(e.lock_keys_insert_enabled)),
        spec_tag_value(saved_document(existing, e), "FlyoutSelectedMonitor"@) == Some(text::int_text(e.flyout_selected_monitor as int)),
{
    lemma_edit_chunk_3_lacks_2(e);
    lemma_edit_chunk_4_lacks_2(e);
    lemma_edit_chunk_5_lacks_2(e);
    lemma_edit_chunk_2_own(e);
    assert(spec_tag_value(saved_document(existing, e), "LockKeysEnabled"@) == Some(text::bool_chars(e.lock_keys_enabled))) by {
        lemma_last_value_at(edit_entries_2(e), 0, "LockKeysEnabled"@);
        lemma_last_value_none(edit_entries_3(e), "LockKeysEnabled"@);
        lemma_last_value_none(edit_entries_4(e), "LockKeysEnabled"@);
        lemma_last_value_none(edit_entries_5(e), "LockKeysEnabled"@);
        lemma_last_value_join(edit_entries_0(e) + edit_entries_1(e), edit_entries_2(e), "LockKeysEnabled"@);
        lemma_last_value_join(edit_entries_0(e) + edit_entries_1(e) + edit_entries_2(e), edit_entries_3(e), "LockKeysEnabled"@);
        lemma_last_value_join(edit_entries_0(e) + edit_entries_1(e) + edit_entries_2(e) + edit_entries_3(e), edit_entries_4(e), "LockKeysEnabled"@);
        lemma_last_value_join(edit_entries_0(e) + edit_entries_1(e) + edit_entries_2(e) + edit_entries_3(e) + edit_entries_4(e), edit_entries_5(e), "LockKeysEnabled"@);
        lemma_save_reads_back(existing, e, "LockKeysEnabled"@);
        text::lemma_parse_bool_chars(e.lock_keys_enabled);
    }
    assert(spec_tag_value(saved_document(existing, e), "LockKeysAcrylicWindowEnabled"@) == Some(text::bool_chars(e.lock_keys_acrylic_window_enabled))) by {
        lemma_last_value_at(edit_entries_2(e), 1, "LockKeysAcrylicWindowEnabled"@);
        lemma_last_value_none(edit_entries_3(e), "LockKeysAcrylicWindowEnabled"@);
        lemma_last_value_none(edit_entries_4(e), "LockKeysAcrylicWindowEnabled"@);
        lemma_last_value_none(edit_entries_5(e), "LockKeysAcrylicWindowEnabled"@);
        lemma_last_value_join(edit_entries_0(e) + edit_entries_1(e), edit_entries_2(e), "LockKeysAcrylicWindowEnabled"@);
        lemma_last_value_join(edit_entries_0(e) + edit_entries_1(e) + edit_entries_2(e), edit_entries_3(e), "LockKeysAcrylicWindowEnabled"@);
        lemma_last_value_join(edit_entries_0(e) + edit_entries_1(e) + edit_entries_2(e) + edit_entries_3(e), edit_entries_4(e), "LockKeysAcrylicWindowEnabled"@);
        lemma_last_value_join(edit_entries_0(e) + edit_entries_1(e) + edit_entries_2(e) + edit_entries_3(e) + edit_entries_4(e), edit_entries_5(e), "LockKeysAcrylicWindowEnabled"@);
        lemma_save_reads_back(existing, e, "LockKeysAcrylicWindowEnabled"@);
        text::lemma_parse_bool_chars(e.lock_keys_acrylic_window_enabled);
    }
    assert(spec_tag_value(saved_document(existing, e), "LockKeysDuration"@) == Some(text::int_text(clamp_spec(e.lock_keys_duration as int, 0, 10000)))) by {
        lemma_last_value_at(edit_entries_2(e), 2, "LockKeysDuration"@);
        lemma_last_value_none(edit_entries_3(e), "LockKeysDuration"@);
        lemma_last_value_none(edit_entries_4(e), "LockKeysDuration"@);
        lemma_last_value_none(edit_entries_5(e), "LockKeysDuration"@);
        lemma_last_value_join(edit_entries_0(e) + edit_entries_1(e), edit_entries_2(e), "LockKeysDuration"@);
        lemma_last_value_join(edit_entries_0(e) + edit_entries_1(e) + edit_entries_2(e), edit_entries_3(e), "LockKeysDuration"@);
        lemma_last_value_join(edit_entries_0(e) + edit_entries_1(e) + edit_entries_2(e) + edit_entries_3(e), edit_entries_4(e), "LockKeysDuration"@);
        lemma_last_value_join(edit_entries_0(e) + edit_entries_1(e) + edit_entries_2(e) + edit_entries_3(e) + edit_entries_4(e), edit_entries_5(e), "LockKeysDuration"@);
        lemma_save_reads_back(existing, e, "LockKeysDuration"@);
        text::lemma_trim_int_text(clamp_spec(e.lock_keys_duration as int, 0, 10000));
    }
    assert(spec_tag_value(saved_document(existing, e), "LockKeysBoldUI"@) == Some(text::bool_chars(e.lock_keys_bold_ui))) by {
        lemma_last_value_at(edit_entries_2(e), 3, "LockKeysBoldUI"@);
        lemma_last_value_none(edit_entries_3(e), "LockKeysBoldUI"@);
        lemma_last_value_none(edit_entries_4(e), "LockKeysBoldUI"@);
        lemma_last_value_none(edit_entries_5(e), "LockKeysBoldUI"@);
        lemma_last_value_join(edit_entries_0(e) + edit_entries_1(e), edit_entries_2(e), "LockKeysBoldUI"@);
        lemma_last_value_join(edit_entries_0(e) + edit_entries_1(e) + edit_entries_2(e), edit_entries_3(e), "LockKeysBoldUI"@);
        lemma_last_value_join(edit_entries_0(e) + edit_entries_1(e) + edit_entries_2(e) + edit_entries_3(e), edit_entries_4(e), "LockKeysBoldUI"@);
        lemma_last_value_join(edit_entries_0(e) + edit_entries_1(e) + edit_entries_2(e) + edit_entries_3(e) + edit_entries_4(e), edit_entries_5(e), "LockKeysBoldUI"@);
        lemma_save_reads_back(existing, e, "LockKeysBoldUI"@);
        text::lemma_parse_bool_chars(e.lock_keys_bold_ui);
    }
    assert(spec_tag_value(saved_document(existing, e), "LockKeysMonitorPreference"@) == Some(text::int_text(e.lock_keys_monitor_preference as int))) by {
        lemma_last_value_at(edit_entries_2(e), 4, "LockKeysMonitorPreference"@);
        lemma_last_value_none(edit_entries_3(e), "LockKeysMonitorPreference"@);
        lemma_last_value_none(edit_entries_4(e), "LockKeysMonitorPreference"@);
        lemma_last_value_none(edit_entries_5(e), "LockKeysMonitorPreference"@);
        lemma_last_value_join(edit_entries_0(e) + edit_entries_1(e), edit_entries_2(e), "LockKeysMonitorPreference"@);
        lemma_last_value_join(edit_entries_0(e) + edit_entries_1(e) + edit_entries_2(e), edit_entries_3(e), "LockKeysMonitorPreference"@);
        lemma_last_value_join(edit_entries_0(e) + edit_entries_1(e) + edit_entries_2(e) + edit_entries_3(e), edit_entries_4(e), "LockKeysMonitorPreference"@);
        lemma_last_value_join(edit_entries_0(e) + edit_entries_1(e) + edit_entries_2(e) + edit_entries_3(e) + edit_entries_4(e), edit_entries_5(e), "LockKeysMonitorPreference"@);
        lemma_save_reads_back(existing, e, "LockKeysMonitorPreference"@);
        text::lemma_trim_int_text(e.lock_keys_monitor_preference as int);
    }
    assert(spec_tag_value(saved_document(existing, e), "LockKeysInsertEnabled"@) == Some(text::bool_chars(e.lock_keys_insert_enabled))) by {
        lemma_last_value_at(edit_entries_2(e), 5, "LockKeysInsertEnabled"@);
        lemma_last_value_none(edit_entries_3(e), "LockKeysInsertEnabled"@);
        lemma_last_value_none(edit_entries_4(e), "LockKeysInsertEnabled"@);
        lemma_last_value_none(edit_entries_5(e), "LockKeysInsertEnabled"@);
        lemma_last_value_join(edit_entries_0(e) + edit_entries_1(e), edit_entries_2(e), "LockKeysInsertEnabled"@);
        lemma_last_value_join(edit_entries_0(e) + edit_entries_1(e) + edit_entries_2(e), edit_entries_3(e), "LockKeysInsertEnabled"@);
        lemma_last_value_join(edit_entries_0(e) + edit_entries_1(e) + edit_entries_2(e) + edit_entries_3(e), edit_entries_4(e), "LockKeysInsertEnabled"@);
        lemma_last_value_join(edit_entries_0(e) + edit_entries_1(e) + edit_entries_2(e) + edit_entries_3(e) + edit_entries_4(e), edit_entries_5(e), "LockKeysInsertEnabled"@);
        lemma_save_reads_back(existing, e, "LockKeysInsertEnabled"@);
        text::lemma_parse_bool_chars(e.lock_keys_insert_enabled);
    }
    assert(spec_tag_value(saved_document(existing, e), "FlyoutSelectedMonitor"@) == Some(text::int_text(e.flyout_selected_monitor as int))) by {
        lemma_last_value_at(edit_entries_2(e), 6, "FlyoutSelectedMonitor"@);
        lemma_last_value_none(edit_entries_3(e), "FlyoutSelectedMonitor"@);
        lemma_last_value_none(edit_entries_4(e), "FlyoutSelectedMonitor"@);
        lemma_last_value_none(edit_entries_5(e), "FlyoutSelectedMonitor"@);
        lemma_last_value_join(edit_entries_0(e) + edit_entries_1(e), edit_entries_2(e), "FlyoutSelectedMonitor"@);
        lemma_last_value_join(edit_entries_0(e) + edit_entries_1(e) + edit_entries_2(e), edit_entries_3(e), "FlyoutSelectedMonitor"@);
        lemma_last_value_join(edit_entries_0(e) + edit_entries_1(e) + edit_entries_2(e) + edit_entries_3(e), edit_entries_4(e), "FlyoutSelectedMonitor"@);
        lemma_last_value_join(edit_entries_0(e) + edit_entries_1(e) + edit_entries_2(e) + edit_entries_3(e) + edit_entries_4(e), edit_entries_5(e), "FlyoutSelectedMonitor"@);
        lemma_save_reads_back(existing, e, "FlyoutSelectedMonitor"@);
        text::lemma_trim_int_text(e.flyout_selected_monitor as int);
    }
}

/// The settings of entries 22 to 28 read back from the saved document.
proof fn lemma_save_writes_chunk_3(existing: Option<Seq<char>>, e: EditableSettings)
    requires
        existing matches Some(x) ==> text::has_match(x, root_end()) && entries_ok(x, edit_entries(e)),
    ensures
        spec_tag_value(saved_document(existing, e), "Startup"@) == Some(text::bool_chars(e.startup)),
        spec_tag_value(saved_document(existing, e), "DisableIfFullscreen"@) == Some(text::bool_chars(e.disable_if_fullscreen)),
        spec_tag_value(saved_document(existing, e), "nIconLeftClick"@) == Some(text::int_text(e.nicon_left_click as int)),
        spec_tag_value(saved_document(existing, e), "NIconHide"@) == Some(text::bool_chars(e.nicon_hide)),
        spec_tag_value(saved_document(existing, e), "AppTheme"@) == Some(text::int_text(e.app_theme as int)),
        spec_tag_value(saved_document(existing, e), "NextUpEnabled"@) == Some(text::bool_chars(e.next_up_enabled)),
        spec_tag_value(saved_document(existing, e), "NextUpDuration"@) == Some(text::int_text(clamp_spec(e.next_up_duration as int, 0, 10000))),
{
    lemma_edit_chunk_4_lacks_3(e);
    lemma_edit_chunk_5_lacks_3(e);
    lemma_edit_chunk_3_own(e);
    assert(spec_tag_value(saved_document(existing, e), "Startup"@) == Some(text::bool_chars(e.startup))) by {
        lemma_last_value_at(edit_entries_3(e), 0, "Startup"@);
        lemma_last_value_none(edit_entries_4(e), "Startup"@);
        lemma_last_value_none(edit_entries_5(e), "Startup"@);
        lemma_last_value_join(edit_entries_0(e) + edit_entries_1(e) + edit_entries_2(e), edit_entries_3(e), "Startup"@);
        lemma_last_value_join(edit_entries_0(e) + edit_entries_1(e) + edit_entries_2(e) + edit_entries_3(e), edit_entries_4(e), "Startup"@);
        lemma_last_value_join(edit_entries_0(e) + edit_entries_1(e) + edit_entries_2(e) + edit_entries_3(e) + edit_entries_4(e), edit_entries_5(e), "Startup"@);
        lemma_save_reads_back(existing, e, "Startup"@);
        text::lemma_parse_bool_chars(e.startup);
    }
    assert(spec_tag_value(saved_document(existing, e), "DisableIfFullscreen"@) == Some(text::bool_chars(e.disable_if_fullscreen))) by {
        lemma_last_value_at(edit_entries_3(e), 1, "DisableIfFullscreen"@);
        lemma_last_value_none(edit_entries_4(e), "DisableIfFullscreen"@);
        lemma_last_value_none(edit_entries_5(e), "DisableIfFullscreen"@);
        lemma_last_value_join(edit_entries_0(e) + edit_entries_1(e) + edit_entries_2(e), edit_entries_3(e), "DisableIfFullscreen"@);
        lemma_last_value_join(edit_entries_0(e) + edit_entries_1(e) + edit_entries_2(e) + edit_entries_3(e), edit_entries_4(e), "DisableIfFullscreen"@);
        lemma_last_value_join(edit_entries_0(e) + edit_entries_1(e) + edit_entries_2(e) + edit_entries_3(e) + edit_entries_4(e), edit_entries_5(e), "DisableIfFullscreen"@);
        lemma_save_reads_back(existing, e, "DisableIfFullscreen"@);
        text::lemma_parse_bool_chars(e.disable_if_fullscreen);
    }
    assert(spec_tag_value(saved_document(existing, e), "nIconLeftClick"@) == Some(text::int_text(e.nicon_left_click as int))) by {
        lemma_last_value_at(edit_entries_3(e), 2, "nIconLeftClick"@);
        lemma_last_value_none(edit_entries_4(e), "nIconLeftClick"@);
        lemma_last_value_none(edit_entries_5(e), "nIconLeftClick"@);
        lemma_last_value_join(edit_entries_0(e) + edit_entries_1(e) + edit_entries_2(e), edit_entries_3(e), "nIconLeftClick"@);
        lemma_last_value_join(edit_entries_0(e) + edit_entries_1(e) + edit_entries_2(e) + edit_entries_3(e), edit_entries_4(e), "nIconLeftClick"@);
        lemma_last_value_join(edit_entries_0(e) + edit_entries_1(e) + edit_entries_2(e) + edit_entries_3(e) + edit_entries_4(e), edit_entries_5(e), "nIconLeftClick"@);
        lemma_save_reads_back(existing, e, "nIconLeftClick"@);
        text::lemma_trim_int_text(e.nicon_left_click as int);
    }
    assert(spec_tag_value(saved_document(existing, e), "NIconHide"@) == Some(text::bool_chars(e.nicon_hide))) by {
        lemma_last_value_at(edit_entries_3(e), 3, "NIconHide"@);
        lemma_last_value_none(edit_entries_4(e), "NIconHide"@);
        lemma_last_value_none(edit_entries_5(e), "NIconHide"@);
        lemma_last_value_join(edit_entries_0(e) + edit_entries_1(e) + edit_entries_2(e), edit_entries_3(e), "NIconHide"@);
        lemma_last_value_join(edit_entries_0(e) + edit_entries_1(e) + edit_entries_2(e) + edit_entries_3(e), edit_entries_4(e), "NIconHide"@);
        lemma_last_value_join(edit_entries_0(e) + edit_entries_1(e) + edit_entries_2(e) + edit_entries_3(e) + edit_entries_4(e), edit_entries_5(e), "NIconHide"@);
        lemma_save_reads_back(existing, e, "NIconHide"@);
        text::lemma_parse_bool_chars(e.nicon_hide);
    }
    assert(spec_tag_value(saved_document(existing, e), "AppTheme"@) == Some(text::int_text(e.app_theme as int))) by {
        lemma_last_value_at(edit_entries_3(e), 4, "AppTheme"@);
        lemma_last_value_none(edit_entries_4(e), "AppTheme"@);
        lemma_last_value_none(edit_entries_5(e), "AppTheme"@);
        lemma_last_value_join(edit_entries_0(e) + edit_entries_1(e) + edit_entries_2(e), edit_entries_3(e), "AppTheme"@);
        lemma_last_value_join(edit_entries_0(e) + edit_entries_1(e) + edit_entries_2(e) + edit_entries_3(e), edit_entries_4(e), "AppTheme"@);
        lemma_last_value_join(edit_entries_0(e) + edit_entries_1(e) + edit_entries_2(e) + edit_entries_3(e) + edit_entries_4(e), edit_entries_5(e), "AppTheme"@);
        lemma_save_reads_back(existing, e, "AppTheme"@);
        text::lemma_trim_int_text(e.app_theme as int);
    }
    assert(spec_tag_value(saved_document(existing, e), "NextUpEnabled"@) == Some(text::bool_chars(e.next_up_enabled))) by {
        lemma_last_value_at(edit_entries_3(e), 5, "NextUpEnabled"@);
        lemma_last_value_none(edit_entries_4(e), "NextUpEnabled"@);
        lemma_last_value_none(edit_entries_5(e), "NextUpEnabled"@);
        lemma_last_value_join(edit_entries_0(e) + edit_entries_1(e) + edit_entries_2(e), edit_entries_3(e), "NextUpEnabled"@);
        lemma_last_value_join(edit_entries_0(e) + edit_entries_1(e) + edit_entries_2(e) + edit_entries_3(e), edit_entries_4(e), "NextUpEnabled"@);
        lemma_last_value_join(edit_entries_0(e) + edit_entries_1(e) + edit_entries_2(e) + edit_entries_3(e) + edit_entries_4(e), edit_entries_5(e), "NextUpEnabled"@);
        lemma_save_reads_back(existing, e, "NextUpEnabled"@);
        text::lemma_parse_bool_chars(e.next_up_enabled);
    }
    assert(spec_tag_value(saved_document(existing, e), "NextUpDuration"@) == Some(text::int_text(clamp_spec(e.next_up_duration as int, 0, 10000)))) by {
        lemma_last_value_at(edit_entries_3(e), 6, "NextUpDuration"@);
        lemma_last_value_none(edit_entries_4(e), "NextUpDuration"@);
        lemma_last_value_none(edit_entries_5(e), "NextUpDuration"@);
        lemma_last_value_join(edit_entries_0(e) + edit_entries_1(e) + edit_entries_2(e), edit_entries_3(e), "NextUpDuration"@);
        lemma_last_value_join(edit_entries_0(e) + edit_entries_1(e) + edit_entries_2(e) + edit_entries_3(e), edit_entries_4(e), "NextUpDuration"@);
        lemma_last_value_join(edit_entries_0(e) + edit_entries_1(e) + edit_entries_2(e) + edit_entries_3(e) + edit_entries_4(e), edit_entries_5(e), "NextUpDuration"@);
        lemma_save_reads_back(existing, e, "NextUpDuration"@);
        text::lemma_trim_int_text(clamp_spec(e.next_up_duration as int, 0, 10000));
    }
}

/// The settings of entries 29 to 35 read back from the saved document.
proof fn lemma_save_writes_chunk_4(existing: Option<Seq<char>>, e: EditableSettings)
    requires
        existing matches Some(x) ==> text::has_match(x, root_end()) && entries_ok(x, edit_entries(e)),
    ensures
        spec_tag_value(saved_document(existing, e), "NextUpAcrylicWindowEnabled"@) == Some(text::bool_chars(e.next_up_acrylic_window_enabled)),
        spec_tag_value(saved_document(existing, e), "TaskbarWidgetEnabled"@) == Some(text::bool_chars(e.taskbar_widget_enabled)),
        spec_tag_value(saved_document(existing, e), "TaskbarWidgetSelectedMonitor"@) == Some(text::int_text(e.taskbar_widget_selected_monitor as int)),
        spec_tag_value(saved_document(existing, e), "TaskbarWidgetPosition"@) == Some(text::int_text(e.taskbar_widget_position as int)),
        spec_tag_value(saved_document(existing, e), "TaskbarWidgetPadding"@) == Some(text::bool_chars(e.taskbar_widget_padding)),
        spec_tag_value(saved_document(existing, e), "TaskbarWidgetManualPadding"@) == Some(text::int_text(e.taskbar_widget_manual_padding as int)),
        spec_tag_value(saved_document(existing, e), "TaskbarWidgetClickable"@) == Some(text::bool_chars(e.taskbar_widget_clickable)),
{
    lemma_edit_chunk_5_lacks_4(e);
    lemma_edit_chunk_4_own(e);
    assert(spec_tag_value(saved_document(existing, e), "NextUpAcrylicWindowEnabled"@) == Some(text::bool_chars(e.next_up_acrylic_window_enabled))) by {
        lemma_last_value_at(edit_entries_4(e), 0, "NextUpAcrylicWindowEnabled"@);
        lemma_last_value_none(edit_entries_5(e), "NextUpAcrylicWindowEnabled"@);
        lemma_last_value_join(edit_entries_0(e) + edit_entries_1(e) + edit_entries_2(e) + edit_entries_3(e), edit_entries_4(e), "NextUpAcrylicWindowEnabled"@);
        lemma_last_value_join(edit_entries_0(e) + edit_entries_1(e) + edit_entries_2(e) + edit_entries_3(e) + edit_entries_4(e), edit_entries_5(e), "NextUpAcrylicWindowEnabled"@);
        lemma_save_reads_back(existing, e, "NextUpAcrylicWindowEnabled"@);
        text::lemma_parse_bool_chars(e.next_up_acrylic_window_enabled);
    }
    assert(spec_tag_value(saved_document(existing, e), "TaskbarWidgetEnabled"@) == Some(text::bool_chars(e.taskbar_widget_enabled))) by {
        lemma_last_value_at(edit_entries_4(e), 1, "TaskbarWidgetEnabled"@);
        lemma_last_value_none(edit_entries_5(e), "TaskbarWidgetEnabled"@);
        lemma_last_value_join(edit_entries_0(e) + edit_entries_1(e) + edit_entries_2(e) + edit_entries_3(e), edit_entries_4(e), "TaskbarWidgetEnabled"@);
        lemma_last_value_join(edit_entries_0(e) + edit_entries_1(e) + edit_entries_2(e) + edit_entries_3(e) + edit_entries_4(e), edit_entries_5(e), "TaskbarWidgetEnabled"@);
        lemma_save_reads_back(existing, e, "TaskbarWidgetEnabled"@);
        text::lemma_parse_bool_chars(e.taskbar_widget_enabled);
    }
    assert(spec_tag_value(saved_document(existing, e), "TaskbarWidgetSelectedMonitor"@) == Some(text::int_text(e.taskbar_widget_selected_monitor as int))) by {
        lemma_last_value_at(edit_entries_4(e), 2, "TaskbarWidgetSelectedMonitor"@);
        lemma_last_value_none(edit_entries_5(e), "TaskbarWidgetSelectedMonitor"@);
        lemma_last_value_join(edit_entries_0(e) + edit_entries_1(e) + edit_entries_2(e) + edit_entries_3(e), edit_entries_4(e), "TaskbarWidgetSelectedMonitor"@);
        lemma_last_value_join(edit_entries_0(e) + edit_entries_1(e) + edit_entries_2(e) + edit_entries_3(e) + edit_entries_4(e), edit_entries_5(e), "TaskbarWidgetSelectedMonitor"@);
        lemma_save_reads_back(existing, e, "TaskbarWidgetSelectedMonitor"@);
        text::lemma_trim_int_text(e.taskbar_widget_selected_monitor as int);
    }
    assert(spec_tag_value(saved_document(existing, e), "TaskbarWidgetPosition"@) == Some(text::int_text(e.taskbar_widget_position as int))) by {
        lemma_last_value_at(edit_entries_4(e), 3, "TaskbarWidgetPosition"@);
        lemma_last_value_none(edit_entries_5(e), "TaskbarWidgetPosition"@);
        lemma_last_value_join(edit_entries_0(e) + edit_entries_1(e) + edit_entries_2(e) + edit_entries_3(e), edit_entries_4(e), "TaskbarWidgetPosition"@);
        lemma_last_value_join(edit_entries_0(e) + edit_entries_1(e) + edit_entries_2(e) + edit_entries_3(e) + edit_entries_4(e), edit_entries_5(e), "TaskbarWidgetPosition"@);
        lemma_save_reads_back(existing, e, "TaskbarWidgetPosition"@);
        text::lemma_trim_int_text(e.taskbar_widget_position as int);
    }
    assert(spec_tag_value(saved_document(existing, e), "TaskbarWidgetPadding"@) == Some(text::bool_chars(e.taskbar_widget_padding))) by {
        lemma_last_value_at(edit_entries_4(e), 4, "TaskbarWidgetPadding"@);
        lemma_last_value_none(edit_entries_5(e), "TaskbarWidgetPadding"@);
        lemma_last_value_join(edit_entries_0(e) + edit_entries_1(e) + edit_entries_2(e) + edit_entries_3(e), edit_entries_4(e), "TaskbarWidgetPadding"@);
        lemma_last_value_join(edit_entries_0(e) + edit_entries_1(e) + edit_entries_2(e) + edit_entries_3(e) + edit_entries_4(e), edit_entries_5(e), "TaskbarWidgetPadding"@);
        lemma_save_reads_back(existing, e, "TaskbarWidgetPadding"@);
        text::lemma_parse_bool_chars(e.taskbar_widget_padding);
    }
    assert(spec_tag_value(saved_document(existing, e), "TaskbarWidgetManualPadding"@) == Some(text::int_text(e.taskbar_widget_manual_padding as int))) by {
        lemma_last_value_at(edit_entries_4(e), 5, "TaskbarWidgetManualPadding"@);
        lemma_last_value_none(edit_entries_5(e), "TaskbarWidgetManualPadding"@);
        lemma_last_value_join(edit_entries_0(e) + edit_entries_1(e) + edit_entries_2(e) + edit_entries_3(e), edit_entries_4(e), "TaskbarWidgetManualPadding"@);
        lemma_last_value_join(edit_entries_0(e) + edit_entries_1(e) + edit_entries_2(e) + edit_entries_3(e) + edit_entries_4(e), edit_entries_5(e), "TaskbarWidgetManualPadding"@);
        lemma_save_reads_back(existing, e, "TaskbarWidgetManualPadding"@);
        text::lemma_trim_int_text(e.taskbar_widget_manual_padding as int);
    }
    assert(spec_tag_value(saved_document(existing, e), "TaskbarWidgetClickable"@) == Some(text::bool_chars(e.taskbar_widget_clickable))) by {
        lemma_last_value_at(edit_entries_4(e), 6, "TaskbarWidgetClickable"@);
        lemma_last_value_none(edit_entries_5(e), "TaskbarWidgetClickable"@);
        lemma_last_value_join(edit_entries_0(e) + edit_entries_1(e) + edit_entries_2(e) + edit_entries_3(e), edit_entries_4(e), "TaskbarWidgetClickable"@);
        lemma_last_value_join(edit_entries_0(e) + edit_entries_1(e) + edit_entries_2(e) + edit_entries_3(e) + edit_entries_4(e), edit_entries_5(e), "TaskbarWidgetClickable"@);
        lemma_save_reads_back(existing, e, "TaskbarWidgetClickable"@);
        text::lemma_parse_bool_chars(e.taskbar_widget_clickable);
    }
}

/// The settings of entries 36 to 41 read back from the saved document.
proof fn lemma_save_writes_chunk_5(existing: Option<Seq<char>>, e: EditableSettings)
    requires
        existing matches Some(x) ==> text::has_match(x, root_end()) && entries_ok(x, edit_entries(e)),
    ensures
        spec_tag_value(saved_document(existing, e), "TaskbarWidgetCloseableFlyout"@) == Some(text::bool_chars(e.taskbar_widget_closeable_flyout)),
        spec_tag_value(saved_document(existing, e), "TaskbarWidgetBackgroundBlur"@) == Some(text::bool_chars(e.taskbar_widget_background_blur)),
        spec_tag_value(saved_document(existing, e), "TaskbarWidgetHideCompletely"@) == Some(text::bool_chars(e.taskbar_widget_hide_completely)),
        spec_tag_value(saved_document(existing, e), "TaskbarWidgetControlsEnabled"@) == Some(text::bool_chars(e.taskbar_widget_controls_enabled)),
        spec_tag_value(saved_document(existing, e), "TaskbarWidgetControlsPosition"@) == Some(text::int_text(e.taskbar_widget_controls_position as int)),
        spec_tag_value(saved_document(existing, e), "TaskbarWidgetAnimated"@) == Some(text::bool_chars(e.taskbar_widget_animated)),
{
    lemma_edit_chunk_5_own(e);
    assert(spec_tag_value(saved_document(existing, e), "TaskbarWidgetCloseableFlyout"@) == Some(text::bool_chars(e.taskbar_widget_closeable_flyout))) by {
        lemma_last_value_at(edit_entries_5(e), 0, "TaskbarWidgetCloseableFlyout"@);
        lemma_last_value_join(edit_entries_0(e) + edit_entries_1(e) + edit_entries_2(e) + edit_entries_3(e) + edit_entries_4(e), edit_entries_5(e), "TaskbarWidgetCloseableFlyout"@);
        lemma_save_reads_back(existing, e, "TaskbarWidgetCloseableFlyout"@);
        text::lemma_parse_bool_chars(e.taskbar_widget_closeable_flyout);
    }
    assert(spec_tag_value(saved_document(existing, e), "TaskbarWidgetBackgroundBlur"@) == Some(text::bool_chars(e.taskbar_widget_background_blur))) by {
        lemma_last_value_at(edit_entries_5(e), 1, "TaskbarWidgetBackgroundBlur"@);
        lemma_last_value_join(edit_entries_0(e) + edit_entries_1(e) + edit_entries_2(e) + edit_entries_3(e) + edit_entries_4(e), edit_entries_5(e), "TaskbarWidgetBackgroundBlur"@);
        lemma_save_reads_back(existing, e, "TaskbarWidgetBackgroundBlur"@);
        text::lemma_parse_bool_chars(e.taskbar_widget_background_blur);
    }
    assert(spec_tag_value(saved_document(existing, e), "TaskbarWidgetHideCompletely"@) == Some(text::bool_chars(e.taskbar_widget_hide_completely))) by {
        lemma_last_value_at(edit_entries_5(e), 2, "TaskbarWidgetHideCompletely"@);
        lemma_last_value_join(edit_entries_0(e) + edit_entries_1(e) + edit_entries_2(e) + edit_entries_3(e) + edit_entries_4(e), edit_entries_5(e), "TaskbarWidgetHideCompletely"@);
        lemma_save_reads_back(existing, e, "TaskbarWidgetHideCompletely"@);
        text::lemma_parse_bool_chars(e.taskbar_widget_hide_completely);
    }
    assert(spec_tag_value(saved_document(existing, e), "TaskbarWidgetControlsEnabled"@) == Some(text::bool_chars(e.taskbar_widget_controls_enabled))) by {
        lemma_last_value_at(edit_entries_5(e), 3, "TaskbarWidgetControlsEnabled"@);
        lemma_last_value_join(edit_entries_0(e) + edit_entries_1(e) + edit_entries_2(e) + edit_entries_3(e) + edit_entries_4(e), edit_entries_5(e), "TaskbarWidgetControlsEnabled"@);
        lemma_save_reads_back(existing, e, "TaskbarWidgetControlsEnabled"@);
        text::lemma_parse_bool_chars(e.taskbar_widget_controls_enabled);
    }
    assert(spec_tag_value(saved_document(existing, e), "TaskbarWidgetControlsPosition"@) == Some(text::int_text(e.taskbar_widget_controls_position as int))) by {
        lemma_last_value_at(edit_entries_5(e), 4, "TaskbarWidgetControlsPosition"@);
        lemma_last_value_join(edit_entries_0(e) + edit_entries_1(e) + edit_entries_2(e) + edit_entries_3(e) + edit_entries_4(e), edit_entries_5(e), "TaskbarWidgetControlsPosition"@);
        lemma_save_reads_back(existing, e, "TaskbarWidgetControlsPosition"@);
        text::lemma_trim_int_text(e.taskbar_widget_controls_position as int);
    }
    assert(spec_tag_value(saved_document(existing, e), "TaskbarWidgetAnimated"@) == Some(text::bool_chars(e.taskbar_widget_animated))) by {
        lemma_last_value_at(edit_entries_5(e), 5, "TaskbarWidgetAnimated"@);
        lemma_last_value_join(edit_entries_0(e) + edit_entries_1(e) + edit_entries_2(e) + edit_entries_3(e) + edit_entries_4(e), edit_entries_5(e), "TaskbarWidgetAnimated"@);
        lemma_save_reads_back(existing, e, "TaskbarWidgetAnimated"@);
        text::lemma_parse_bool_chars(e.taskbar_widget_animated);
    }
}

/// Saving writes each setting of the settings window under its own tag: after saving,
/// every tag reads back as the text of the edited field it names (durations limited to
/// `0..=10000` ms). This holds always when there was no file, and for an existing file
/// that has `</UserSettings>` and whose entries for those settings hold no `<`.
pub proof fn lemma_save_writes_each_setting(existing: Option<Seq<char>>, e: EditableSettings)
    requires
        existing matches Some(x) ==> text::has_match(x, root_end()) && entries_ok(x, edit_entries(e)),
    ensures
        spec_tag_value(saved_document(existing, e), "MediaFlyoutEnabled"@) == Some(text::bool_chars(e.media_flyout_enabled)),
        spec_tag_value(saved_document(existing, e), "MediaFlyoutBackgroundBlur"@) == Some(text::int_text(e.media_flyout_background_blur as int)),
        spec_tag_value(saved_document(existing, e), "MediaFlyoutAcrylicWindowEnabled"@) == Some(text::bool_chars(e.media_flyout_acrylic_window_enabled)),
        spec_tag_value(saved_document(existing, e), "CompactLayout"@) == Some(text::bool_chars(e.compact_layout)),
        spec_tag_value(saved_document(existing, e), "Position"@) == Some(text::int_text(e.position as int)),
        spec_tag_value(saved_document(existing, e), "Duration"@) == Some(text::int_text(clamp_spec(e.duration as int, 0, 10000))),
        spec_tag_value(saved_document(existing, e), "MediaFlyoutAlwaysDisplay"@) == Some(text::bool_chars(e.media_flyout_always_display)),
        spec_tag_value(saved_document(existing, e), "CenterTitleArtist"@) == Some(text::bool_chars(e.center_title_artist)),
        spec_tag_value(saved_document(existing, e), "PlayerInfoEnabled"@) == Some(text::bool_chars(e.player_info_enabled)),
        spec_tag_value(saved_document(existing, e), "RepeatEnabled"@) == Some(text::bool_chars(e.repeat_enabled)),
        spec_tag_value(saved_document(existing, e), "ShuffleEnabled"@) == Some(text::bool_chars(e.shuffle_enabled)),
        spec_tag_value(saved_document(existing, e), "SeekbarEnabled"@) == Some(text::bool_chars(e.seekbar_enabled)),
        spec_tag_value(saved_document(existing, e), "MediaFlyoutVolumeKeysExcluded"@) == Some(text::bool_chars(e.media_flyout_volume_keys_excluded)),
        spec_tag_value(saved_document(existing, e), "ExclusiveTidalMode"@) == Some(text::bool_chars(e.exclusive_tidal_mode)),
        spec_tag_value(saved_document(existing, e), "LockKeysEnabled"@) == Some(text::bool_chars(e.lock_keys_enabled)),
        spec_tag_value(saved_document(existing, e), "LockKeysAcrylicWindowEnabled"@) == Some(text::bool_chars(e.lock_keys_acrylic_window_enabled)),
        spec_tag_value(saved_document(existing, e), "LockKeysDuration"@) == Some(text::int_text(clamp_spec(e.lock_keys_duration as int, 0, 10000))),
        spec_tag_value(saved_document(existing, e), "LockKeysBoldUI"@) == Some(text::bool_chars(e.lock_keys_bold_ui)),
        spec_tag_value(saved_document(existing, e), "LockKeysMonitorPreference"@) == Some(text::int_text(e.lock_keys_monitor_preference as int)),
        spec_tag_value(saved_document(existing, e), "LockKeysInsertEnabled"@) == Some(text::bool_chars(e.lock_keys_insert_enabled)),
        spec_tag_value(saved_document(existing, e), "FlyoutSelectedMonitor"@) == Some(text::int_text(e.flyout_selected_monitor as int)),
        spec_tag_value(saved_document(existing, e), "Startup"@) == Some(text::bool_chars(e.startup)),
        spec_tag_value(saved_document(existing, e), "DisableIfFullscreen"@) == Some(text::bool_chars(e.disable_if_fullscreen)),
        spec_tag_value(saved_document(existing, e), "nIconLeftClick"@) == Some(text::int_text(e.nicon_left_click as int)),
        spec_tag_value(saved_document(existing, e), "NIconHide"@) == Some(text::bool_chars(e.nicon_hide)),
        spec_tag_value(saved_document(existing, e), "AppTheme"@) == Some(text::int_text(e.app_theme as int)),
        spec_tag_value(saved_document(existing, e), "NextUpEnabled"@) == Some(text::bool_chars(e.next_up_enabled)),
        spec_tag_value(saved_document(existing, e), "NextUpDuration"@) == Some(text::int_text(clamp_spec(e.next_up_duration as int, 0, 10000))),
        spec_tag_value(saved_document(existing, e), "NextUpAcrylicWindowEnabled"@) == Some(text::bool_chars(e.next_up_acrylic_window_enabled)),
        spec_tag_value(saved_document(existing, e), "TaskbarWidgetEnabled"@) == Some(text::bool_chars(e.taskbar_widget_enabled)),
        spec_tag_value(saved_document(existing, e), "TaskbarWidgetSelectedMonitor"@) == Some(text::int_text(e.taskbar_widget_selected_monitor as int)),
        spec_tag_value(saved_document(existing, e), "TaskbarWidgetPosition"@) == Some(text::int_text(e.taskbar_widget_position as int)),
        spec_tag_value(saved_document(existing, e), "TaskbarWidgetPadding"@) == Some(text::bool_chars(e.taskbar_widget_padding)),
        spec_tag_value(saved_document(existing, e), "TaskbarWidgetManualPadding"@) == Some(text::int_text(e.taskbar_widget_manual_padding as int)),
        spec_tag_value(saved_document(existing, e), "TaskbarWidgetClickable"@) == Some(text::bool_chars(e.taskbar_widget_clickable)),
        spec_tag_value(saved_document(existing, e), "TaskbarWidgetCloseableFlyout"@) == Some(text::bool_chars(e.taskbar_widget_closeable_flyout)),
        spec_tag_value(saved_document(existing, e), "TaskbarWidgetBackgroundBlur"@) == Some(text::bool_chars(e.taskbar_widget_background_blur)),
        spec_tag_value(saved_document(existing, e), "TaskbarWidgetHideCompletely"@) == Some(text::bool_chars(e.taskbar_widget_hide_completely)),
        spec_tag_value(saved_document(existing, e), "TaskbarWidgetControlsEnabled"@) == Some(text::bool_chars(e.taskbar_widget_controls_enabled)),
        spec_tag_value(saved_document(existing, e), "TaskbarWidgetControlsPosition"@) == Some(text::int_text(e.taskbar_widget_controls_position as int)),
        spec_tag_value(saved_document(existing, e), "TaskbarWidgetAnimated"@) == Some(text::bool_chars(e.taskbar_widget_animated)),
{
    lemma_save_writes_chunk_0(existing, e);
    lemma_save_writes_chunk_1(existing, e);
    lemma_save_writes_chunk_2(existing, e);
    lemma_save_writes_chunk_3(existing, e);
    lemma_save_writes_chunk_4(existing, e);
    lemma_save_writes_chunk_5(existing, e);
}

} // verus!
