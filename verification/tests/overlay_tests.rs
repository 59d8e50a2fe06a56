use anticheat::overlay_finder::{find_overlays, OverlayFinder};
use anticheat::overlay_finder_params::OverlayFinderParams;
use anticheat::window_info::{Point, Rect, ScreenMetrics, WindowInfo};

const WS_VISIBLE: u32 = 0x10000000;
const WS_EX_LAYERED: u32 = 0x00080000;
const WS_EX_TRANSPARENT: u32 = 0x00000020;

fn metrics() -> ScreenMetrics {
    ScreenMetrics {
        primary: Point { x: 1000, y: 1000 },
        virtual_desktop: Point { x: 2000, y: 1000 },
    }
}

fn window(hwnd: u64, pid: u32, rect: Rect, style: u32, style_ex: u32) -> WindowInfo {
    WindowInfo::new(
        hwnd,
        pid,
        pid + 1,
        "OverlayClass".to_string(),
        "Overlay".to_string(),
        rect,
        style,
        style_ex,
    )
}

#[test]
fn window_size_is_rect_extent() {
    let w = window(
        1,
        10,
        Rect { left: -100, top: 50, right: 700, bottom: 650 },
        WS_VISIBLE,
        0,
    );
    assert_eq!(w.size, Point { x: 800, y: 600 });
    assert_eq!(w.size.x, w.position.right - w.position.left);
    assert_eq!(w.size.y, w.position.bottom - w.position.top);
}

#[test]
fn screen_percentages_use_area_ratio() {
    // 800 x 600 window: 48.00% of a 1000 x 1000 primary screen,
    // 24.00% of a 2000 x 1000 virtual desktop.
    let w = window(
        1,
        10,
        Rect { left: 0, top: 0, right: 800, bottom: 600 },
        WS_VISIBLE,
        0,
    );
    let (percent_all, percent_main) = w.get_screen_percentages(&metrics());
    assert_eq!(percent_main, 800 * 600 * 10000 / (1000 * 1000));
    assert_eq!(percent_main, 4800);
    assert_eq!(percent_all, 800 * 600 * 10000 / (2000 * 1000));
    assert_eq!(percent_all, 2400);
}

#[test]
fn screen_percentages_zero_screen_yields_zero() {
    let w = window(
        1,
        10,
        Rect { left: 0, top: 0, right: 800, bottom: 600 },
        WS_VISIBLE,
        0,
    );
    let m = ScreenMetrics {
        primary: Point { x: 0, y: 0 },
        virtual_desktop: Point { x: -1, y: 5 },
    };
    assert_eq!(w.get_screen_percentages(&m), (0, 0));
}

#[test]
fn matches_criteria_counts_satisfied_and_unsatisfied() {
    let params = OverlayFinderParams {
        pid_owner: Some(10),
        wnd_class_name: "OverlayClass".to_string(),
        wnd_name: "SomethingElse".to_string(),
        style: WS_VISIBLE,
        ..OverlayFinderParams::default()
    };
    let w = window(
        1,
        10,
        Rect { left: 0, top: 0, right: 900, bottom: 950 },
        WS_VISIBLE,
        WS_EX_LAYERED,
    );
    // pid matches, class matches, style matches; title does not.
    let (satisfied, unsatisfied) = params.matches_criteria(&w, &metrics());
    assert_eq!(satisfied, 3);
    assert_eq!(unsatisfied, 1);
}

#[test]
fn overlay_detected_once_above_threshold() {
    // A visible, layered, transparent window covering 90.25% of the primary
    // screen, matched against those styles and an 80% floor, all required.
    let overlay = window(
        0x5000,
        33,
        Rect { left: 0, top: 0, right: 950, bottom: 950 },
        WS_VISIBLE,
        WS_EX_LAYERED | WS_EX_TRANSPARENT,
    );
    let small = window(
        0x6000,
        34,
        Rect { left: 0, top: 0, right: 100, bottom: 100 },
        WS_VISIBLE,
        WS_EX_LAYERED | WS_EX_TRANSPARENT,
    );
    let finder = OverlayFinder::new()
        .with_style(WS_VISIBLE)
        .with_style_ex(WS_EX_LAYERED | WS_EX_TRANSPARENT)
        .with_percent_main_screen(8000)
        .satisfy_all_criteria(true);
    let windows = vec![overlay, small];
    let hwnds = find_overlays(&finder.params, &windows, &metrics());
    assert_eq!(hwnds, vec![0x5000]);
}

#[test]
fn overlay_rejected_below_threshold() {
    // The same styles at 49.98% coverage against an 80% floor: not reported.
    let half = window(
        0x5000,
        33,
        Rect { left: 0, top: 0, right: 707, bottom: 707 },
        WS_VISIBLE,
        WS_EX_LAYERED | WS_EX_TRANSPARENT,
    );
    let finder = OverlayFinder::new()
        .with_style(WS_VISIBLE)
        .with_style_ex(WS_EX_LAYERED | WS_EX_TRANSPARENT)
        .with_percent_main_screen(8000)
        .satisfy_all_criteria(true);
    let windows = vec![half];
    let hwnds = find_overlays(&finder.params, &windows, &metrics());
    assert!(hwnds.is_empty());
}

#[test]
fn adding_a_criterion_only_removes_windows() {
    let big = window(
        1,
        10,
        Rect { left: 0, top: 0, right: 950, bottom: 950 },
        WS_VISIBLE,
        WS_EX_LAYERED,
    );
    let half = window(
        2,
        11,
        Rect { left: 0, top: 0, right: 707, bottom: 707 },
        WS_VISIBLE,
        WS_EX_LAYERED,
    );
    let windows = vec![big, half];
    let narrow = OverlayFinderParams {
        style: WS_VISIBLE,
        satisfy_all_criteria: true,
        ..OverlayFinderParams::default()
    };
    let wide = OverlayFinderParams {
        style: WS_VISIBLE,
        percent_main_screen: 8000,
        satisfy_all_criteria: true,
        ..OverlayFinderParams::default()
    };
    let kept_narrow = find_overlays(&narrow, &windows, &metrics());
    let kept_wide = find_overlays(&wide, &windows, &metrics());
    assert_eq!(kept_narrow, vec![1, 2]);
    assert_eq!(kept_wide, vec![1]);
    assert!(kept_wide.iter().all(|h| kept_narrow.contains(h)));
}

#[test]
fn no_active_criteria_accepts_nothing() {
    let w = window(
        1,
        10,
        Rect { left: 0, top: 0, right: 950, bottom: 950 },
        WS_VISIBLE,
        WS_EX_LAYERED,
    );
    let windows = vec![w];
    let params = OverlayFinderParams::default();
    assert!(find_overlays(&params, &windows, &metrics()).is_empty());
}

#[test]
fn any_satisfied_criterion_accepts_without_satisfy_all() {
    let w = window(
        1,
        10,
        Rect { left: 0, top: 0, right: 100, bottom: 100 },
        WS_VISIBLE,
        0,
    );
    let windows = vec![w];
    // Style matches, the percentage floor does not; without "satisfy all"
    // the one satisfied criterion is enough.
    let params = OverlayFinderParams {
        style: WS_VISIBLE,
        percent_main_screen: 8000,
        satisfy_all_criteria: false,
        ..OverlayFinderParams::default()
    };
    assert_eq!(find_overlays(&params, &windows, &metrics()), vec![1]);
}

#[test]
fn finder_builders_set_their_criteria() {
    let finder = OverlayFinder::new()
        .with_pid_owner(7)
        .with_window_class("cls".to_string())
        .with_window_name("ttl".to_string())
        .with_position(Rect { left: 1, top: 2, right: 3, bottom: 4 })
        .with_size(Point { x: 2, y: 2 })
        .with_style(WS_VISIBLE)
        .with_style_ex(WS_EX_LAYERED)
        .with_percent_all_screens(1500)
        .with_percent_main_screen(8000)
        .satisfy_all_criteria(true);
    let p = &finder.params;
    assert_eq!(p.pid_owner, Some(7));
    assert_eq!(p.wnd_class_name, "cls");
    assert_eq!(p.wnd_name, "ttl");
    assert_eq!(p.pos, Rect { left: 1, top: 2, right: 3, bottom: 4 });
    assert_eq!(p.res, Point { x: 2, y: 2 });
    assert_eq!(p.style, WS_VISIBLE);
    assert_eq!(p.style_ex, WS_EX_LAYERED);
    assert_eq!(p.percent_all_screens, 1500);
    assert_eq!(p.percent_main_screen, 8000);
    assert!(p.satisfy_all_criteria);
}

#[test]
fn find_records_matches_on_the_finder() {
    let overlay = window(
        0x5000,
        33,
        Rect { left: 0, top: 0, right: 950, bottom: 950 },
        WS_VISIBLE,
        WS_EX_LAYERED | WS_EX_TRANSPARENT,
    );
    let windows = vec![overlay];
    let mut finder = OverlayFinder::new()
        .with_style(WS_VISIBLE)
        .with_percent_main_screen(8000)
        .satisfy_all_criteria(true);
    let found = finder.find(&windows, &metrics());
    assert_eq!(found.len(), 1);
    assert_eq!(finder.overlays.len(), 1);
    assert_eq!(finder.overlays[0].hwnd, 0x5000);
    assert_eq!(found[0].pid, 33);
}
