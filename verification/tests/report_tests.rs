use anticheat::anticheat::{Anticheat, CLEAN_COLOR, DETECTION_COLOR};
use anticheat::handle::{SystemHandleEntry, SystemHandleType};
use anticheat::handle_manager::{HandleManager, PROCESS_VM_READ, PROCESS_VM_WRITE};
use anticheat::overlay_finder::OverlayFinder;
use anticheat::process::Process;
use anticheat::window_info::{Point, Rect, ScreenMetrics, WindowInfo};

const WS_VISIBLE: u32 = 0x10000000;
const WS_EX_LAYERED: u32 = 0x00080000;
const WS_EX_TRANSPARENT: u32 = 0x00000020;

fn entry(pid: u16, access: u32) -> SystemHandleEntry {
    SystemHandleEntry {
        process_id: pid,
        creator_back_trace_index: 0,
        object_type_index: 7,
        handle_attributes: 0,
        handle_value: 0x44,
        object: 0x1000,
        granted_access: access,
    }
}

fn metrics() -> ScreenMetrics {
    ScreenMetrics {
        primary: Point { x: 1000, y: 1000 },
        virtual_desktop: Point { x: 1000, y: 1000 },
    }
}

fn leading_count(report: &str) -> Option<u64> {
    let digits: String = report.chars().take_while(|c| c.is_ascii_digit()).collect();
    digits.parse::<u64>().ok()
}

#[test]
fn empty_target_reports_clean() {
    let process = Process::new("ac_client.exe".to_string(), 77, 0x400000);
    let manager = HandleManager::new(Vec::new());
    let scanner_pid = 9u32;
    let mut anticheat = Anticheat::new(process, manager)
        .apply_handle_filters(scanner_pid, SystemHandleType::Process.os_index());
    let probes: Vec<Option<u32>> = Vec::new();
    anticheat = anticheat.apply_target_filter(&probes);
    let paths: Vec<Option<(String, String)>> = Vec::new();
    anticheat = anticheat.apply_enrichment(&paths);
    let windows: Vec<WindowInfo> = Vec::new();
    anticheat = anticheat.apply_overlay_scan(&windows, &metrics());
    assert_eq!(anticheat.handle_detections, 0);
    assert_eq!(anticheat.overlay_detections, 0);
    assert!(!anticheat.has_detections());
    assert_eq!(
        anticheat.render_report(),
        "No suspicious handles or overlays detected."
    );
}

#[test]
fn self_owned_handle_rejected() {
    // The scanner holds a full-access handle on the target; exclude-self
    // removes it before the targeted-at step, so it is never listed.
    let scanner_pid = 9u32;
    let target_pid = 77u32;
    let process = Process::new("ac_client.exe".to_string(), target_pid, 0x400000);
    let manager = HandleManager::new(vec![entry(scanner_pid as u16, 0x1fffff)]);
    let anticheat = Anticheat::new(process, manager)
        .apply_handle_filters(scanner_pid, SystemHandleType::Process.os_index());
    assert!(anticheat.handle_manager.handles.is_empty());
    let probes: Vec<Option<u32>> = Vec::new();
    let anticheat = anticheat.apply_target_filter(&probes);
    assert!(anticheat.handle_manager.handles.is_empty());
}

#[test]
fn foreign_reader_detected() {
    // A second process holds a read-write handle the probe resolves to the
    // target: at least one detection, with its pid and rights in the report.
    let scanner_pid = 9u32;
    let target_pid = 77u32;
    let foreign_pid = 4242u16;
    let process = Process::new("ac_client.exe".to_string(), target_pid, 0x400000);
    let manager = HandleManager::new(vec![
        entry(foreign_pid, PROCESS_VM_READ | PROCESS_VM_WRITE),
        entry(5, 0x1000),
    ]);
    let mut anticheat = Anticheat::new(process, manager)
        .apply_handle_filters(scanner_pid, SystemHandleType::Process.os_index());
    let probes = vec![Some(target_pid)];
    anticheat = anticheat.apply_target_filter(&probes);
    let paths = vec![Some((
        "\\Device\\HarddiskVolume3\\reader.exe".to_string(),
        "C:\\reader.exe".to_string(),
    ))];
    anticheat = anticheat.apply_enrichment(&paths);
    let windows: Vec<WindowInfo> = Vec::new();
    anticheat = anticheat.apply_overlay_scan(&windows, &metrics());
    assert!(anticheat.handle_detections >= 1);
    assert!(anticheat.has_detections());
    let report = anticheat.render_report();
    assert!(report.contains("Process ID: 4242"));
    assert!(report.contains("PROCESS_VM_READ"));
    assert!(report.contains("PROCESS_VM_WRITE"));
    assert!(report.contains("C:\\reader.exe"));
}

#[test]
fn report_count_round_trips() {
    let scanner_pid = 9u32;
    let target_pid = 77u32;
    let process = Process::new("ac_client.exe".to_string(), target_pid, 0x400000);
    let manager = HandleManager::new(vec![
        entry(100, 0x1fffff),
        entry(101, PROCESS_VM_READ | PROCESS_VM_WRITE),
        entry(102, PROCESS_VM_READ | PROCESS_VM_WRITE),
    ]);
    let mut anticheat = Anticheat::new(process, manager)
        .apply_handle_filters(scanner_pid, SystemHandleType::Process.os_index());
    let probes = vec![Some(target_pid); 3];
    anticheat = anticheat.apply_target_filter(&probes);
    let paths = vec![None, None, None];
    anticheat = anticheat.apply_enrichment(&paths);
    let windows: Vec<WindowInfo> = Vec::new();
    anticheat = anticheat.apply_overlay_scan(&windows, &metrics());
    assert_eq!(anticheat.handle_detections, 3);
    let report = anticheat.render_report();
    assert_eq!(leading_count(&report), Some(3));
    assert!(report.contains("3 suspicious handles found."));
    assert!(report.contains("0 suspicious overlays found."));
    let overlay_line = report
        .lines()
        .find(|l| l.ends_with(" suspicious overlays found."))
        .unwrap();
    assert_eq!(leading_count(overlay_line), Some(0));
}

#[test]
fn report_overlay_count_round_trips() {
    let process = Process::new("ac_client.exe".to_string(), 77, 0);
    let manager = HandleManager::new(Vec::new());
    let mut anticheat = Anticheat::new(process, manager);
    anticheat.overlay_finder = anticheat
        .overlay_finder
        .with_style(WS_VISIBLE)
        .satisfy_all_criteria(true);
    let windows: Vec<WindowInfo> = vec![
        WindowInfo::new(
            1,
            10,
            11,
            "A".to_string(),
            "a".to_string(),
            Rect { left: 0, top: 0, right: 10, bottom: 10 },
            WS_VISIBLE,
            0,
        ),
        WindowInfo::new(
            2,
            20,
            21,
            "B".to_string(),
            "b".to_string(),
            Rect { left: 0, top: 0, right: 10, bottom: 10 },
            WS_VISIBLE,
            0,
        ),
    ];
    anticheat = anticheat.apply_overlay_scan(&windows, &metrics());
    assert_eq!(anticheat.overlay_detections, 2);
    let report = anticheat.render_report();
    let overlay_line = report
        .lines()
        .find(|l| l.ends_with(" suspicious overlays found."))
        .unwrap();
    assert_eq!(leading_count(overlay_line), Some(2));
}

#[test]
fn clean_report_has_no_leading_count() {
    let process = Process::new("ac_client.exe".to_string(), 77, 0);
    let anticheat = Anticheat::new(process, HandleManager::new(Vec::new()));
    assert_eq!(leading_count(&anticheat.render_report()), None);
}

#[test]
fn overlay_detection_appears_in_report() {
    let process = Process::new("ac_client.exe".to_string(), 77, 0);
    let manager = HandleManager::new(Vec::new());
    let mut anticheat = Anticheat::new(process, manager);
    anticheat.overlay_finder = OverlayFinder::new()
        .with_style(WS_VISIBLE)
        .with_style_ex(WS_EX_LAYERED | WS_EX_TRANSPARENT)
        .with_percent_main_screen(8000)
        .satisfy_all_criteria(true);
    let overlay = WindowInfo::new(
        0x5000,
        33,
        34,
        "OverlayClass".to_string(),
        "Overlay".to_string(),
        Rect { left: 0, top: 0, right: 950, bottom: 950 },
        WS_VISIBLE,
        WS_EX_LAYERED | WS_EX_TRANSPARENT,
    );
    let windows = vec![overlay];
    anticheat = anticheat.apply_overlay_scan(&windows, &metrics());
    assert_eq!(anticheat.overlay_detections, 1);
    let report = anticheat.render_report();
    assert_eq!(leading_count(&report), Some(0));
    assert!(report.contains("1 suspicious overlays found."));
    assert!(report.contains("Window Details:"));
    assert!(report.contains("  Title: Overlay"));
    assert!(report.contains("  Class Name: OverlayClass"));
    assert!(report.contains("  Size: 950x950"));
    assert!(report.contains("  Style: 0x10000000"));
    assert!(report.contains("  Extended Style: 0x80020"));
}

#[test]
fn handle_block_renders_exactly() {
    let manager = HandleManager::new(vec![entry(4242, PROCESS_VM_READ | PROCESS_VM_WRITE)]);
    let paths = vec![Some((
        "\\Device\\HarddiskVolume3\\reader.exe".to_string(),
        "C:\\reader.exe".to_string(),
    ))];
    let manager = manager.collect_handle_info(&paths);
    let block = manager.handles[0].render();
    assert_eq!(
        block,
        "   Process ID: 4242\n\
         \x20 Access Rights: 0x30\n\
         \x20 Decoded Access Rights:\n\
         \x20   - PROCESS_VM_READ\n\
         \x20   - PROCESS_VM_WRITE\n\
         \x20 NT Path: \\Device\\HarddiskVolume3\\reader.exe\n\
         \x20 Win32 Path: C:\\reader.exe\n"
    );
}

#[test]
fn window_block_renders_exactly() {
    let w = WindowInfo::new(
        0x5000,
        33,
        34,
        "OverlayClass".to_string(),
        "Overlay".to_string(),
        Rect { left: -100, top: 50, right: 700, bottom: 650 },
        WS_VISIBLE,
        0,
    );
    assert_eq!(
        w.render(),
        "Window Details:\n\
         Handle: 20480\n\
         \x20 Title: Overlay\n\
         \x20 Class Name: OverlayClass\n\
         \x20 Process ID: 33\n\
         \x20 Thread ID: 34\n\
         \x20 Position: Left=-100, Top=50, Right=700, Bottom=650\n\
         \x20 Size: 800x600\n\
         \x20 Style: 0x10000000\n\
         \x20 Extended Style: 0x0\n"
    );
}

#[test]
fn getters_reflect_scan_state() {
    let process = Process::new("ac_client.exe".to_string(), 77, 0x400000);
    let manager = HandleManager::new(vec![entry(100, 0x1fffff)]);
    let anticheat = Anticheat::new(process, manager);
    assert_eq!(anticheat.process().pid, 77);
    assert_eq!(anticheat.handles().len(), 1);
    assert_eq!(anticheat.handle_manager().handles.len(), 1);
    assert_eq!(anticheat.handle_detections(), 0);
    assert_eq!(anticheat.overlay_detections(), 0);
    assert!(anticheat.overlays().is_empty());
    assert!(!anticheat.overlay_finder().params.satisfy_all_criteria);
}

#[test]
fn webhook_summary_is_red_on_detections() {
    let process = Process::new("ac_client.exe".to_string(), 77, 0);
    let mut anticheat = Anticheat::new(process, HandleManager::new(Vec::new()));
    anticheat.handle_detections = 2;
    let (description, color) = anticheat.webhook_summary();
    assert_eq!(description, "Found suspicious activity");
    assert_eq!(color, DETECTION_COLOR);
    assert_eq!(color, 15548997);
}

#[test]
fn webhook_summary_is_green_when_clean() {
    let process = Process::new("ac_client.exe".to_string(), 77, 0);
    let anticheat = Anticheat::new(process, HandleManager::new(Vec::new()));
    let (description, color) = anticheat.webhook_summary();
    assert_eq!(description, "Did not find suspicious activity.");
    assert_eq!(color, CLEAN_COLOR);
    assert_eq!(color, 5763719);
}

#[test]
fn parse_webhook_url_records_or_placeholders() {
    let process = Process::new("ac_client.exe".to_string(), 77, 0);
    let mut anticheat = Anticheat::new(process, HandleManager::new(Vec::new()));
    assert_eq!(anticheat.webhook_url, "No webhook url parsed!");
    anticheat.parse_webhook_url(Some("https://chat.example/hook/1".to_string()));
    assert_eq!(anticheat.webhook_url, "https://chat.example/hook/1");
    anticheat.parse_webhook_url(None);
    assert_eq!(anticheat.webhook_url, "No webhook url parsed!");
}

#[test]
fn process_records_resolution() {
    let process = Process::new("ac_client.exe".to_string(), 77, 0x400000);
    assert_eq!(process.name, "ac_client.exe");
    assert_eq!(process.pid, 77);
    assert_eq!(process.base_address, 0x400000);
    let copy = process.clone();
    assert_eq!(copy.name, process.name);
    assert_eq!(copy.pid, process.pid);
}
