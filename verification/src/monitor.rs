//! Monitors as the flyouts see them: the order in which they are numbered in the
//! settings (primary first, then left to right, then top to bottom), and which one a
//! flyout goes to.
use vstd::prelude::*;
use crate::settings::clamp_spec;
use crate::text;

verus! {

/// A monitor's work area (`left`..`height`) and full area (`monitor_*`).
#[derive(Clone, Copy, Debug, PartialEq, Eq, Structural)]
pub struct MonitorInfo {
    pub left: i32,
    pub top: i32,
    pub width: i32,
    pub height: i32,
    pub monitor_left: i32,
    pub monitor_top: i32,
    pub monitor_width: i32,
    pub monitor_height: i32,
    pub is_primary: bool,
}

/// The monitor assumed when none can be listed: a primary 1920x1080 screen whose
/// bottom 40 pixels are taken by the taskbar.
pub open spec fn default_monitor() -> MonitorInfo {
    MonitorInfo {
        left: 0,
        top: 0,
        width: 1920,
        height: 1040,
        monitor_left: 0,
        monitor_top: 0,
        monitor_width: 1920,
        monitor_height: 1080,
        is_primary: true,
    }
}

impl Default for MonitorInfo {
    /// See `default_monitor`.
    fn default() -> (r: Self)
        ensures
            r == default_monitor(),
    {
        MonitorInfo {
            left: 0,
            top: 0,
            width: 1920,
            height: 1040,
            monitor_left: 0,
            monitor_top: 0,
            monitor_width: 1920,
            monitor_height: 1080,
            is_primary: true,
        }
    }
}

/// What monitors are ordered by: whether they are primary, then their left edge, then
/// their top edge.
pub type MonitorKey = (bool, i32, i32);

/// `a` comes strictly before `b`: primary before others, then smaller left edge, then
/// smaller top edge.
pub open spec fn key_before(a: MonitorKey, b: MonitorKey) -> bool {
    ||| (a.0 && !b.0)
    ||| (a.0 == b.0 && (a.1 < b.1 || (a.1 == b.1 && a.2 < b.2)))
}

fn key_before_exec(a: MonitorKey, b: MonitorKey) -> (r: bool)
    ensures
        r == key_before(a, b),
{
    (a.0 && !b.0) || (a.0 == b.0 && (a.1 < b.1 || (a.1 == b.1 && a.2 < b.2)))
}

/// Where a stable insertion puts item `x` into `order` (searching from `k`): before the
/// first item whose key comes strictly after `x`'s, else at the end.
pub open spec fn insert_position(order: Seq<usize>, keys: Seq<MonitorKey>, x: int, k: int) -> int
    decreases order.len() - k,
{
    if k >= order.len() {
        order.len() as int
    } else if key_before(keys[x], keys[order[k] as int]) {
        k
    } else {
        insert_position(order, keys, x, k + 1)
    }
}

/// The indices `0..n` of `keys` in display order: a stable sort by `key_before`, so
/// items with equal keys keep their listed order.
pub open spec fn stable_order(keys: Seq<MonitorKey>, n: nat) -> Seq<usize>
    decreases n,
{
    if n == 0 {
        seq![]
    } else {
        let o = stable_order(keys, (n - 1) as nat);
        o.insert(insert_position(o, keys, n - 1, 0), (n - 1) as usize)
    }
}

proof fn lemma_insert_position_bounds(order: Seq<usize>, keys: Seq<MonitorKey>, x: int, k: int)
    requires
        0 <= k <= order.len(),
    ensures
        k <= insert_position(order, keys, x, k) <= order.len(),
    decreases order.len() - k,
{
    if k < order.len() && !key_before(keys[x], keys[order[k] as int]) {
        lemma_insert_position_bounds(order, keys, x, k + 1);
    }
}

proof fn lemma_stable_order_len(keys: Seq<MonitorKey>, n: nat)
    ensures
        stable_order(keys, n).len() == n,
    decreases n,
{
    if n > 0 {
        let o = stable_order(keys, (n - 1) as nat);
        lemma_stable_order_len(keys, (n - 1) as nat);
        lemma_insert_position_bounds(o, keys, n - 1, 0);
    }
}

/// No value occurs twice in `s`.
pub open spec fn all_distinct(s: Seq<usize>) -> bool {
    forall|j1: int, j2: int| 0 <= j1 < j2 < s.len() ==> s[j1] != s[j2]
}

proof fn lemma_insert_keeps_distinct(o: Seq<usize>, p: int, v: usize)
    requires
        all_distinct(o),
        0 <= p <= o.len(),
        forall|j: int| 0 <= j < o.len() ==> o[j] != v,
    ensures
        all_distinct(o.insert(p, v)),
{
    let r = o.insert(p, v);
    o.insert_ensures(p, v);
    assert forall|j1: int, j2: int| 0 <= j1 < j2 < r.len() implies r[j1] != r[j2] by {
        let a = if j1 < p { j1 } else { j1 - 1 };
        let b = if j2 < p { j2 } else { j2 - 1 };
        if j1 == p {
            assert(r[j2] == o[b]);
        } else if j2 == p {
            assert(r[j1] == o[a]);
        } else {
            assert(r[j1] == o[a]);
            assert(r[j2] == o[b]);
            assert(a < b);
        }
    }
}

/// Sorting loses and duplicates nothing: the display order of `n` items lists each
/// index below `n` exactly once.
pub proof fn lemma_stable_order_is_permutation(keys: Seq<MonitorKey>, n: nat)
    requires
        n <= usize::MAX,
    ensures
        stable_order(keys, n).len() == n,
        forall|j: int| 0 <= j < n ==> #[trigger] stable_order(keys, n)[j] < n,
        all_distinct(stable_order(keys, n)),
        forall|x: usize| x < n ==> #[trigger] stable_order(keys, n).contains(x),
    decreases n,
{
    lemma_stable_order_len(keys, n);
    if n > 0 {
        let o = stable_order(keys, (n - 1) as nat);
        lemma_stable_order_is_permutation(keys, (n - 1) as nat);
        let p = insert_position(o, keys, n - 1, 0);
        lemma_insert_position_bounds(o, keys, n - 1, 0);
        o.insert_ensures(p, (n - 1) as usize);
        let r = stable_order(keys, n);
        assert(r == o.insert(p, (n - 1) as usize));
        assert forall|j: int| 0 <= j < n implies #[trigger] r[j] < n by {
            if j < p {
                assert(r[j] == o[j]);
            } else if j > p {
                assert(r[j] == o[j - 1]);
            }
        }
        assert forall|j: int| 0 <= j < o.len() implies o[j] != (n - 1) as usize by {
            assert(o[j] < n - 1);
        }
        lemma_insert_keeps_distinct(o, p, (n - 1) as usize);
        assert forall|x: usize| x < n implies #[trigger] r.contains(x) by {
            if x == n - 1 {
                assert(r[p] == x);
            } else {
                assert(o.contains(x));
                let j = choose|j: int| 0 <= j < o.len() && o[j] == x;
                if j < p {
                    assert(r[j] == o[j]);
                } else {
                    assert(r[j + 1] == o[j]);
                }
            }
        }
    }
}

proof fn lemma_insert_position_props(order: Seq<usize>, keys: Seq<MonitorKey>, x: int, k: int)
    requires
        0 <= k <= order.len(),
    ensures
        k <= insert_position(order, keys, x, k) <= order.len(),
        forall|j: int|
            k <= j < insert_position(order, keys, x, k) ==> !key_before(
                keys[x],
                #[trigger] keys[order[j] as int],
            ),
        insert_position(order, keys, x, k) < order.len() ==> key_before(
            keys[x],
            keys[order[insert_position(order, keys, x, k)] as int],
        ),
    decreases order.len() - k,
{
    if k < order.len() && !key_before(keys[x], keys[order[k] as int]) {
        lemma_insert_position_props(order, keys, x, k + 1);
    }
}

/// `order` lists items by their keys: no item comes strictly before one listed ahead of it.
pub open spec fn is_sorted_by_key(keys: Seq<MonitorKey>, order: Seq<usize>) -> bool {
    forall|i: int, j: int|
        0 <= i < j < order.len() ==> !key_before(
            #[trigger] keys[order[j] as int],
            #[trigger] keys[order[i] as int],
        )
}

/// Items with equal keys keep their listed order.
pub open spec fn keeps_listed_order(keys: Seq<MonitorKey>, order: Seq<usize>) -> bool {
    forall|i: int, j: int|
        0 <= i < j < order.len() && #[trigger] keys[order[i] as int] == #[trigger] keys[
            order[j] as int
        ] ==> order[i] < order[j]
}

/// The display order is sorted by key, and it is stable: monitors that tie keep the
/// order in which they were listed.
pub proof fn lemma_stable_order_sorted(keys: Seq<MonitorKey>, n: nat)
    requires
        n <= usize::MAX,
    ensures
        is_sorted_by_key(keys, stable_order(keys, n)),
        keeps_listed_order(keys, stable_order(keys, n)),
    decreases n,
{
    lemma_stable_order_is_permutation(keys, n);
    if n > 0 {
        let o = stable_order(keys, (n - 1) as nat);
        lemma_stable_order_sorted(keys, (n - 1) as nat);
        lemma_stable_order_is_permutation(keys, (n - 1) as nat);
        let x = n - 1;
        let p = insert_position(o, keys, x, 0);
        lemma_insert_position_props(o, keys, x, 0);
        o.insert_ensures(p, x as usize);
        let r = stable_order(keys, n);
        assert(r == o.insert(p, x as usize));
        assert forall|i: int, j: int| 0 <= i < j < r.len() implies !key_before(
            #[trigger] keys[r[j] as int],
            #[trigger] keys[r[i] as int],
        ) && (keys[r[i] as int] == keys[r[j] as int] ==> r[i] < r[j]) by {
            if i < p && j < p {
                assert(r[i] == o[i] && r[j] == o[j]);
            } else if i < p && j == p {
                assert(r[i] == o[i]);
                assert(o[i] < x);
            } else if i < p && j > p {
                assert(r[i] == o[i] && r[j] == o[j - 1]);
            } else if i == p {
                assert(r[j] == o[j - 1]);
                assert(keys[o[p] as int] == keys[o[p] as int]);
                if j - 1 > p {
                    assert(!key_before(keys[o[j - 1] as int], keys[o[p] as int]));
                }
            } else {
                assert(r[i] == o[i - 1] && r[j] == o[j - 1]);
            }
        }
    }
}

/// The display order of items with the given keys (see `stable_order`).
pub fn display_order(keys: &Vec<MonitorKey>) -> (order: Vec<usize>)
    ensures
        order@ == stable_order(keys@, keys@.len()),
{
    let n = keys.len();
    let mut order: Vec<usize> = Vec::new();
    let mut i: usize = 0;
    while i < n
        invariant
            n == keys@.len(),
            i <= n,
            order@ == stable_order(keys@, i as nat),
        decreases n - i,
    {
        proof {
            lemma_stable_order_is_permutation(keys@, i as nat);
        }
        let mut k: usize = 0;
        while k < order.len() && !key_before_exec(keys[i], keys[order[k]])
            invariant
                i < n == keys@.len(),
                order@ == stable_order(keys@, i as nat),
                k <= order@.len(),
                forall|j: int| 0 <= j < order@.len() ==> order@[j] < i,
                insert_position(order@, keys@, i as int, 0) == insert_position(
                    order@,
                    keys@,
                    i as int,
                    k as int,
                ),
            decreases order@.len() - k,
        {
            k = k + 1;
        }
        order.insert(k, i);
        i = i + 1;
    }
    order
}


/// A monitor's place in the display order.
pub open spec fn monitor_key(m: MonitorInfo) -> MonitorKey {
    (m.is_primary, m.monitor_left, m.monitor_top)
}

/// The monitors in display order: primary first, then by left edge, then by top edge,
/// ties keeping their listed order.
pub open spec fn sorted_monitors(ms: Seq<MonitorInfo>) -> Seq<MonitorInfo> {
    stable_order(ms.map_values(|m: MonitorInfo| monitor_key(m)), ms.len()).map_values(
        |i: usize| ms[i as int],
    )
}

/// The monitor numbered `index` in the settings (counting from 0), `index` limited to
/// the monitors there are; the default monitor when none is listed.
pub open spec fn selected_monitor_info(ms: Seq<MonitorInfo>, index: i32) -> MonitorInfo {
    if ms.len() == 0 {
        default_monitor()
    } else {
        sorted_monitors(ms)[clamp_spec(index as int, 0, ms.len() - 1)]
    }
}

/// The monitor numbered `index` among `monitors` (see `selected_monitor_info`).
pub fn get_selected_monitor(monitors: &Vec<MonitorInfo>, index: i32) -> (m: MonitorInfo)
    requires
        monitors@.len() <= 2147483648,
    ensures
        m == selected_monitor_info(monitors@, index),
{
    let n = monitors.len();
    if n == 0 {
        return MonitorInfo::default();
    }
    let mut keys: Vec<MonitorKey> = Vec::new();
    let mut i: usize = 0;
    while i < n
        invariant
            n == monitors@.len(),
            i <= n,
            keys@ == monitors@.take(i as int).map_values(|m: MonitorInfo| monitor_key(m)),
        decreases n - i,
    {
        let m = monitors[i];
        keys.push((m.is_primary, m.monitor_left, m.monitor_top));
        i = i + 1;
        assert(keys@ =~= monitors@.take(i as int).map_values(|m: MonitorInfo| monitor_key(m)));
    }
    assert(monitors@.take(n as int) =~= monitors@);
    let order = display_order(&keys);
    proof {
        lemma_stable_order_is_permutation(keys@, n as nat);
    }
    let last = (n - 1) as i32;
    let bounded = if index < 0 {
        0
    } else if index > last {
        last
    } else {
        index
    };
    let pick = order[bounded as usize];
    monitors[pick]
}

/// Where the lock-keys flyout goes: with preference 1 the monitor of the focused window,
/// with preference 2 the monitor under the cursor, else the selected monitor. A monitor
/// that cannot be found falls back to the cursor's (for 1) and then to monitor 0.
pub open spec fn lock_target_monitor(
    preference: i32,
    selected_index: i32,
    ms: Seq<MonitorInfo>,
    focused: Option<MonitorInfo>,
    cursor: Option<MonitorInfo>,
) -> MonitorInfo {
    let cursor_or_first = match cursor {
        Some(m) => m,
        None => selected_monitor_info(ms, 0),
    };
    if preference == 1 {
        match focused {
            Some(m) => m,
            None => cursor_or_first,
        }
    } else if preference == 2 {
        cursor_or_first
    } else {
        selected_monitor_info(ms, selected_index)
    }
}

/// Picks the lock-keys flyout's monitor from the listed monitors and the monitors found
/// under the focused window and the cursor (see `lock_target_monitor`).
pub fn get_lock_target_monitor(
    preference: i32,
    selected_index: i32,
    monitors: &Vec<MonitorInfo>,
    focused: Option<MonitorInfo>,
    cursor: Option<MonitorInfo>,
) -> (m: MonitorInfo)
    requires
        monitors@.len() <= 2147483648,
    ensures
        m == lock_target_monitor(preference, selected_index, monitors@, focused, cursor),
{
    let cursor_or_first = match cursor {
        Some(m) => m,
        None => get_selected_monitor(monitors, 0),
    };
    match preference {
        1 => match focused {
            Some(m) => m,
            None => cursor_or_first,
        },
        2 => cursor_or_first,
        _ => get_selected_monitor(monitors, selected_index),
    }
}

/// A monitor as the settings page lists it: its number, label and full area.
#[derive(Clone, Debug)]
pub struct MonitorDto {
    pub id: i32,
    pub name: String,
    pub left: i32,
    pub top: i32,
    pub width: i32,
    pub height: i32,
    pub is_primary: bool,
}

impl MonitorDto {
    /// An exact copy.
    pub fn duplicate(&self) -> (r: Self)
        ensures
            r == *self,
    {
        MonitorDto {
            id: self.id,
            name: self.name.clone(),
            left: self.left,
            top: self.top,
            width: self.width,
            height: self.height,
            is_primary: self.is_primary,
        }
    }

    /// The monitor listed when none can be found: a primary 1920x1080 screen.
    pub fn fallback() -> (r: Self)
        ensures
            r.id == 0,
            r.name@ == monitor_label(0, true),
            r.left == 0 && r.top == 0 && r.width == 1920 && r.height == 1080,
            r.is_primary,
    {
        MonitorDto {
            id: 0,
            name: monitor_name(0, true),
            left: 0,
            top: 0,
            width: 1920,
            height: 1080,
            is_primary: true,
        }
    }
}

/// The label of the monitor numbered `index`: its number counting from 1, a leading
/// `* ` for the primary monitor, then ` (Generic PnP Monitor)`.
pub open spec fn monitor_label(index: int, primary: bool) -> Seq<char> {
    (if primary { seq!['*', ' '] } else { seq![] }) + text::nat_text((index + 1) as nat)
        + " (Generic PnP Monitor)"@
}

fn monitor_name(index: u32, primary: bool) -> (s: String)
    ensures
        s@ == monitor_label(index as int, primary),
{
    let mut v: Vec<char> = Vec::new();
    if primary {
        v.push('*');
        v.push(' ');
    }
    text::push_nat_text(&mut v, index as u64 + 1);
    text::push_str_chars(&mut v, " (Generic PnP Monitor)");
    assert(v@ =~= monitor_label(index as int, primary));
    text::string_from_chars(&v)
}

/// A listed monitor's place in the display order.
pub open spec fn dto_key(m: MonitorDto) -> MonitorKey {
    (m.is_primary, m.left, m.top)
}

/// `a` has `b`'s area and primary flag.
pub open spec fn same_area(a: MonitorDto, b: MonitorDto) -> bool {
    a.left == b.left && a.top == b.top && a.width == b.width && a.height == b.height
        && a.is_primary == b.is_primary
}

/// Numbers and labels the monitors found on the system in display order (primary
/// first, then by left edge, then by top edge). When none was found, the list holds the
/// fallback monitor alone.
pub fn list_monitors(found: &Vec<MonitorDto>) -> (r: Vec<MonitorDto>)
    requires
        found@.len() <= 2147483647,
    ensures
        found@.len() == 0 ==> r@.len() == 1 && r@[0].id == 0 && r@[0].name@ == monitor_label(
            0,
            true,
        ) && r@[0].left == 0 && r@[0].top == 0 && r@[0].width == 1920 && r@[0].height == 1080
            && r@[0].is_primary,
        found@.len() > 0 ==> {
            let order = stable_order(
                found@.map_values(|m: MonitorDto| dto_key(m)),
                found@.len(),
            );
            &&& r@.len() == found@.len()
            &&& forall|i: int|
                0 <= i < r@.len() ==> #[trigger] r@[i].id == i && same_area(
                    r@[i],
                    found@[order[i] as int],
                ) && r@[i].name@ == monitor_label(i, r@[i].is_primary)
        },
{
    let n = found.len();
    if n == 0 {
        let mut r: Vec<MonitorDto> = Vec::new();
        r.push(MonitorDto::fallback());
        return r;
    }
    let mut keys: Vec<MonitorKey> = Vec::new();
    let mut i: usize = 0;
    while i < n
        invariant
            n == found@.len(),
            i <= n,
            keys@ == found@.take(i as int).map_values(|m: MonitorDto| dto_key(m)),
        decreases n - i,
    {
        keys.push((found[i].is_primary, found[i].left, found[i].top));
        i = i + 1;
        assert(keys@ =~= found@.take(i as int).map_values(|m: MonitorDto| dto_key(m)));
    }
    assert(found@.take(n as int) =~= found@);
    let order = display_order(&keys);
    proof {
        lemma_stable_order_is_permutation(keys@, n as nat);
    }
    let mut r: Vec<MonitorDto> = Vec::new();
    let mut k: usize = 0;
    while k < n
        invariant
            n == found@.len(),
            n <= 2147483647,
            k <= n,
            order@ == stable_order(keys@, n as nat),
            keys@ == found@.map_values(|m: MonitorDto| dto_key(m)),
            order@.len() == n,
            forall|j: int| 0 <= j < n ==> #[trigger] order@[j] < n,
            r@.len() == k,
            forall|i: int|
                0 <= i < k ==> #[trigger] r@[i].id == i && same_area(
                    r@[i],
                    found@[order@[i] as int],
                ) && r@[i].name@ == monitor_label(i, r@[i].is_primary),
        decreases n - k,
    {
        let src = &found[order[k]];
        r.push(
            MonitorDto {
                id: k as i32,
                name: monitor_name(k as u32, src.is_primary),
                left: src.left,
                top: src.top,
                width: src.width,
                height: src.height,
                is_primary: src.is_primary,
            },
        );
        k = k + 1;
    }
    r
}

/// The listed monitor numbered `index`, `index` limited to the list; the fallback
/// monitor when the list is empty.
pub fn selected_monitor(monitors: &Vec<MonitorDto>, index: i32) -> (m: MonitorDto)
    requires
        monitors@.len() <= 2147483648,
    ensures
        monitors@.len() > 0 ==> m == monitors@[clamp_spec(index as int, 0, monitors@.len() - 1)],
        monitors@.len() == 0 ==> m.id == 0 && m.name@ == monitor_label(0, true) && m.left == 0
            && m.top == 0 && m.width == 1920 && m.height == 1080 && m.is_primary,
{
    let n = monitors.len();
    if n == 0 {
        return MonitorDto::fallback();
    }
    let last = (n - 1) as i32;
    let bounded = if index < 0 {
        0
    } else if index > last {
        last
    } else {
        index
    };
    monitors[bounded as usize].duplicate()
}


/// Where the lock-keys flyout goes, whatever the monitors: with preference 2 the
/// monitor under the cursor, with preference 1 the focused window's monitor, else the
/// cursor's; preference 1 or 2 with no monitor found falls back to monitor 0; any other
/// preference takes the selected monitor, whatever the focused window and cursor.
pub proof fn lemma_lock_target_follows_preference(
    preference: i32,
    selected_index: i32,
    ms: Seq<MonitorInfo>,
    focused: Option<MonitorInfo>,
    cursor: Option<MonitorInfo>,
    focused2: Option<MonitorInfo>,
    cursor2: Option<MonitorInfo>,
)
    ensures
        preference == 2 && cursor is Some ==> lock_target_monitor(preference, selected_index, ms, focused, cursor)
            == cursor.unwrap(),
        preference == 1 && focused is Some ==> lock_target_monitor(preference, selected_index, ms, focused, cursor)
            == focused.unwrap(),
        preference == 1 && focused is None && cursor is Some ==> lock_target_monitor(
            preference,
            selected_index,
            ms,
            focused,
            cursor,
        ) == cursor.unwrap(),
        (preference == 1 || preference == 2) && focused is None && cursor is None ==> lock_target_monitor(
            preference,
            selected_index,
            ms,
            focused,
            cursor,
        ) == selected_monitor_info(ms, 0),
        preference != 1 && preference != 2 ==> lock_target_monitor(preference, selected_index, ms, focused, cursor)
            == selected_monitor_info(ms, selected_index) && lock_target_monitor(
            preference,
            selected_index,
            ms,
            focused,
            cursor,
        ) == lock_target_monitor(preference, selected_index, ms, focused2, cursor2),
{
}

} // verus!
