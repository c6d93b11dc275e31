use fluent_flyout::taskbar_find::{find_taskbar_for_monitor, taskbar_matches_monitor, TaskbarChoice};
use fluent_flyout::monitor::{
    display_order, get_lock_target_monitor, get_selected_monitor, list_monitors, selected_monitor,
    MonitorDto, MonitorInfo,
};
use fluent_flyout::placement::{
    coord_in_range, dto_fits, monitor_fits, rect_fits,
    live_flyout_position, lock_flyout_position, position_for, taskbar_widget_fallback_position,
    taskbar_widget_frame, PhysicalRect,
};

fn info(left: i32, primary: bool) -> MonitorInfo {
    MonitorInfo {
        left,
        top: 0,
        width: 1920,
        height: 1040,
        monitor_left: left,
        monitor_top: 0,
        monitor_width: 1920,
        monitor_height: 1080,
        is_primary: primary,
    }
}

fn dto(left: i32, primary: bool) -> MonitorDto {
    MonitorDto { id: 9, name: String::from("raw"), left, top: 0, width: 1920, height: 1080, is_primary: primary }
}

#[test]
fn monitors_are_numbered_primary_first_then_left_to_right() {
    let a = info(1920, false);
    let b = info(0, true);
    let c = info(-1920, false);
    let ms = vec![a, b, c];
    assert_eq!(get_selected_monitor(&ms, 0), b);
    assert_eq!(get_selected_monitor(&ms, 1), c);
    assert_eq!(get_selected_monitor(&ms, 2), a);
    assert_eq!(get_selected_monitor(&ms, 9), a);
    assert_eq!(get_selected_monitor(&ms, -3), b);
}

#[test]
fn no_monitor_falls_back_to_a_full_hd_screen() {
    let m = get_selected_monitor(&Vec::new(), 2);
    assert_eq!(m, MonitorInfo::default());
    assert_eq!((m.width, m.height, m.monitor_height), (1920, 1040, 1080));
    assert!(m.is_primary);
}

#[test]
fn display_order_is_stable_for_equal_keys() {
    let keys = vec![(false, 0, 0), (true, 5, 5), (false, 0, 0), (false, -1, 3), (false, -1, 2)];
    assert_eq!(display_order(&keys), vec![1, 4, 3, 0, 2]);
}

#[test]
fn lock_target_follows_the_preference() {
    let a = info(1920, false);
    let b = info(0, true);
    let f = info(3840, false);
    let cur = info(-1920, false);
    let ms = vec![a, b];
    assert_eq!(get_lock_target_monitor(1, 0, &ms, Some(f), Some(cur)), f);
    assert_eq!(get_lock_target_monitor(1, 0, &ms, None, Some(cur)), cur);
    assert_eq!(get_lock_target_monitor(1, 1, &ms, None, None), b);
    assert_eq!(get_lock_target_monitor(2, 1, &ms, Some(f), None), b);
    assert_eq!(get_lock_target_monitor(0, 1, &ms, Some(f), Some(cur)), a);
}

#[test]
fn listed_monitors_are_numbered_and_labelled() {
    let r = list_monitors(&vec![dto(1920, false), dto(0, true)]);
    assert_eq!(r.len(), 2);
    assert_eq!((r[0].id, r[0].left, r[0].is_primary), (0, 0, true));
    assert_eq!(r[0].name, "* 1 (Generic PnP Monitor)");
    assert_eq!((r[1].id, r[1].left), (1, 1920));
    assert_eq!(r[1].name, "2 (Generic PnP Monitor)");
    assert_eq!(selected_monitor(&r, 7).id, 1);
    assert_eq!(selected_monitor(&r, -1).id, 0);
}

#[test]
fn no_listed_monitor_gives_the_fallback() {
    let r = list_monitors(&Vec::new());
    assert_eq!(r.len(), 1);
    assert_eq!(r[0].name, "* 1 (Generic PnP Monitor)");
    assert_eq!((r[0].width, r[0].height), (1920, 1080));
    let m = selected_monitor(&Vec::new(), 3);
    assert_eq!((m.id, m.left, m.top, m.width, m.height), (0, 0, 0, 1920, 1080));
}

#[test]
fn live_flyout_positions() {
    let m = info(0, true);
    assert_eq!(live_flyout_position(&m, 0, 300, 100), (16, 924));
    assert_eq!(live_flyout_position(&m, 1, 300, 100), (810, 860));
    assert_eq!(live_flyout_position(&m, 2, 300, 100), (1604, 924));
    assert_eq!(live_flyout_position(&m, 4, 300, 100), (810, 16));
    assert_eq!(live_flyout_position(&m, 5, 300, 100), (1604, 16));
    assert_eq!(live_flyout_position(&m, 9, 300, 100), (16, 924));
}

#[test]
fn lock_and_fallback_widget_positions() {
    let m = info(0, true);
    assert_eq!(lock_flyout_position(&m, 200, 60), (860, 964));
    assert_eq!(taskbar_widget_fallback_position(&m, 0, 5, 200, 40), (25, 1000));
    assert_eq!(taskbar_widget_fallback_position(&m, 1, 5, 200, 40), (860, 1000));
    assert_eq!(taskbar_widget_fallback_position(&m, 2, 5, 200, 40), (1705, 1000));
    assert_eq!(taskbar_widget_fallback_position(&m, 7, 5, 200, 40), (20, 1000));
}

#[test]
fn web_flyout_positions_are_kept_on_screen() {
    let m = dto(0, true);
    assert_eq!(position_for(&m, 0, 310, 116), (24, 908));
    assert_eq!(position_for(&m, 2, 310, 116), (1586, 908));
    assert_eq!(position_for(&m, 3, 310, 116), (24, 24));
    assert_eq!(position_for(&m, 1, 310, 116), (805, 908));
    assert_eq!(position_for(&m, 0, 3000, 2000), (8, 8));
}

#[test]
fn native_widget_frame_inside_the_taskbar() {
    let taskbar = PhysicalRect { left: 0, top: 1032, right: 1920, bottom: 1080 };
    let tray = Some(PhysicalRect { left: 1700, top: 1032, right: 1920, bottom: 1080 });
    assert_eq!(taskbar_widget_frame(&taskbar, tray, 96, true, 2, false, 0, 300, 60), Some((1399, 4, 300, 40)));
    assert_eq!(taskbar_widget_frame(&taskbar, tray, 144, true, 0, true, 0, 300, 60), Some((238, 0, 300, 48)));
    assert_eq!(taskbar_widget_frame(&taskbar, tray, 96, false, 2, false, 0, 300, 60), Some((1600, 4, 300, 40)));
    assert_eq!(taskbar_widget_frame(&taskbar, None, 96, true, 1, false, -10, 50, 10), Some((910, 8, 80, 32)));
    let empty = PhysicalRect { left: 0, top: 0, right: 0, bottom: 48 };
    assert_eq!(taskbar_widget_frame(&empty, None, 96, true, 0, false, 0, 300, 40), None);
}

fn bar(left: i32) -> PhysicalRect {
    PhysicalRect { left, top: 1040, right: left + 1920, bottom: 1080 }
}

#[test]
fn taskbar_is_found_by_the_monitor_it_is_centred_on() {
    let second = info(1920, false);
    assert!(taskbar_matches_monitor(Some(bar(1920)), &second));
    assert!(!taskbar_matches_monitor(Some(bar(0)), &second));
    assert!(!taskbar_matches_monitor(None, &second));

    let primary_here = find_taskbar_for_monitor(Some(Some(bar(0))), &vec![Some(bar(1920))], &info(0, true));
    assert!(matches!(primary_here, Some(TaskbarChoice::Primary)));

    let secondaries = vec![None, Some(bar(3840)), Some(bar(1920))];
    let found = find_taskbar_for_monitor(Some(Some(bar(0))), &secondaries, &second);
    assert!(matches!(found, Some(TaskbarChoice::Secondary(2))));
}

#[test]
fn taskbar_search_falls_back_to_the_main_taskbar() {
    let far = info(7680, false);
    let secondaries = vec![Some(bar(1920))];
    assert!(matches!(
        find_taskbar_for_monitor(Some(Some(bar(0))), &secondaries, &far),
        Some(TaskbarChoice::Primary)
    ));
    assert!(matches!(find_taskbar_for_monitor(Some(None), &secondaries, &far), Some(TaskbarChoice::Primary)));
    assert!(find_taskbar_for_monitor(None, &secondaries, &far).is_none());
}

#[test]
fn coordinates_outside_the_handled_range_are_refused() {
    assert!(coord_in_range(268_435_456));
    assert!(coord_in_range(-268_435_456));
    assert!(!coord_in_range(268_435_457));
    assert!(!coord_in_range(i32::MIN));
    assert!(monitor_fits(&info(1920, false)));
    let mut wide = info(0, true);
    wide.monitor_width = i32::MAX;
    assert!(!monitor_fits(&wide));
    assert!(dto_fits(&dto(-1920, false)));
    assert!(!dto_fits(&dto(i32::MAX, false)));
    assert!(rect_fits(&bar(0)));
    assert!(!rect_fits(&PhysicalRect { left: 0, top: 0, right: 300_000_000, bottom: 1 }));
}
