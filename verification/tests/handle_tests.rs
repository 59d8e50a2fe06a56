use anticheat::handle::{
    next_snapshot_step, parse_system_handle_buffer, HandleError, SnapshotStep, SystemHandleEntry,
    SystemHandleType,
};
use anticheat::handle_info::decode_access_mask;
use anticheat::handle_manager::{HandleManager, PROCESS_ALL_ACCESS, PROCESS_VM_READ,
    PROCESS_VM_WRITE};

fn entry(pid: u16, type_idx: u8, handle_value: u16, object: u64, access: u32) -> SystemHandleEntry {
    SystemHandleEntry {
        process_id: pid,
        creator_back_trace_index: 0,
        object_type_index: type_idx,
        handle_attributes: 0,
        handle_value,
        object,
        granted_access: access,
    }
}

fn push_entry_bytes(buf: &mut Vec<u8>, e: &SystemHandleEntry) {
    buf.extend_from_slice(&e.process_id.to_le_bytes());
    buf.extend_from_slice(&e.creator_back_trace_index.to_le_bytes());
    buf.push(e.object_type_index);
    buf.push(e.handle_attributes);
    buf.extend_from_slice(&e.handle_value.to_le_bytes());
    buf.extend_from_slice(&e.object.to_le_bytes());
    buf.extend_from_slice(&e.granted_access.to_le_bytes());
    buf.extend_from_slice(&[0u8; 4]);
}

fn snapshot_buffer(entries: &[SystemHandleEntry]) -> Vec<u8> {
    let mut buf: Vec<u8> = Vec::new();
    buf.extend_from_slice(&(entries.len() as u32).to_le_bytes());
    buf.extend_from_slice(&[0u8; 4]);
    for e in entries {
        push_entry_bytes(&mut buf, e);
    }
    buf
}

fn owner_pids(manager: &HandleManager) -> Vec<u16> {
    manager.handles.iter().map(|h| h.raw.process_id).collect()
}

#[test]
fn parse_snapshot_decodes_packed_entries() {
    let entries = [
        entry(100, 7, 0x44, 0xffff8000_12345678, PROCESS_ALL_ACCESS),
        entry(200, 25, 0x10, 0xffff8000_00000001, 0x120089),
    ];
    let buf = snapshot_buffer(&entries);
    let info = parse_system_handle_buffer(&buf).unwrap();
    assert_eq!(info.number_of_handles, 2);
    assert_eq!(info.handles.len(), 2);
    assert_eq!(info.handles[0].process_id, 100);
    assert_eq!(info.handles[0].object_type_index, 7);
    assert_eq!(info.handles[0].handle_value, 0x44);
    assert_eq!(info.handles[0].object, 0xffff8000_12345678);
    assert_eq!(info.handles[0].granted_access, PROCESS_ALL_ACCESS);
    assert_eq!(info.handles[1].process_id, 200);
    assert_eq!(info.handles[1].object_type_index, 25);
    assert_eq!(info.handles[1].granted_access, 0x120089);
}

#[test]
fn parse_snapshot_rejects_short_header() {
    let buf = vec![1u8, 0, 0];
    assert!(matches!(
        parse_system_handle_buffer(&buf),
        Err(HandleError::FailedToQueryObject)
    ));
}

#[test]
fn parse_snapshot_rejects_truncated_entries() {
    let entries = [entry(100, 7, 0x44, 1, 0x10)];
    let mut buf = snapshot_buffer(&entries);
    // Advertise one entry more than the buffer holds.
    buf[0] = 2;
    assert!(matches!(
        parse_system_handle_buffer(&buf),
        Err(HandleError::FailedToQueryObject)
    ));
}

#[test]
fn parse_snapshot_large_handle_table() {
    let count: usize = 50_001;
    let mut buf: Vec<u8> = Vec::with_capacity(8 + 24 * count);
    buf.extend_from_slice(&(count as u32).to_le_bytes());
    buf.extend_from_slice(&[0u8; 4]);
    for i in 0..count {
        let e = entry((i % 0x10000) as u16, 7, (i % 0x10000) as u16, i as u64, 0x10);
        push_entry_bytes(&mut buf, &e);
    }
    let info = parse_system_handle_buffer(&buf).unwrap();
    assert_eq!(info.number_of_handles as usize, count);
    assert_eq!(info.handles.len(), count);
    assert_eq!(info.handles[50_000].object, 50_000u64);
}

#[test]
fn decode_access_mask_known_bits_in_order() {
    let rights = decode_access_mask(0x8000_0000 | PROCESS_VM_WRITE | PROCESS_VM_READ);
    assert_eq!(
        rights,
        vec![
            "GENERIC_READ".to_string(),
            "PROCESS_VM_READ".to_string(),
            "PROCESS_VM_WRITE".to_string()
        ]
    );
}

#[test]
fn decode_access_mask_drops_unknown_bits() {
    // 0x4 and 0x800 name no right the decoder knows.
    assert!(decode_access_mask(0x0004 | 0x0800).is_empty());
    assert!(decode_access_mask(0).is_empty());
}

#[test]
fn decode_access_mask_is_deterministic() {
    let mask = PROCESS_ALL_ACCESS;
    assert_eq!(decode_access_mask(mask), decode_access_mask(mask));
}

#[test]
fn filter_by_handle_type_keeps_matching_type_index() {
    let manager = HandleManager::new(vec![
        entry(1, 7, 1, 1, 0x10),
        entry(2, 25, 2, 2, 0x10),
        entry(3, 7, 3, 3, 0x10),
    ]);
    let manager = manager.filter_by_handle_type(SystemHandleType::Process);
    assert_eq!(owner_pids(&manager), vec![1, 3]);
}

#[test]
fn filter_by_parent_pid_keeps_one_owner() {
    let manager = HandleManager::new(vec![
        entry(1, 7, 1, 1, 0x10),
        entry(2, 7, 2, 2, 0x10),
        entry(1, 7, 3, 3, 0x10),
    ]);
    let manager = manager.filter_by_parent_pid(1);
    assert_eq!(owner_pids(&manager), vec![1, 1]);
}

#[test]
fn filter_by_access_requires_all_mask_bits() {
    let manager = HandleManager::new(vec![
        entry(1, 7, 1, 1, 0x30),
        entry(2, 7, 2, 2, 0x10),
        entry(3, 7, 3, 3, 0x31),
    ]);
    let manager = manager.filter_by_access(0x30);
    assert_eq!(owner_pids(&manager), vec![1, 3]);
}

#[test]
fn filter_suspicious_keeps_all_access_and_read_write() {
    let manager = HandleManager::new(vec![
        entry(1, 7, 1, 1, PROCESS_ALL_ACCESS),
        entry(2, 7, 2, 2, PROCESS_VM_READ),
        entry(3, 7, 3, 3, PROCESS_VM_READ | PROCESS_VM_WRITE),
        entry(4, 7, 4, 4, 0x1400),
    ]);
    let manager = manager.filter_suspicious_handles();
    assert_eq!(owner_pids(&manager), vec![1, 3]);
}

#[test]
fn filter_suspicious_is_idempotent() {
    let entries = vec![
        entry(1, 7, 1, 1, PROCESS_ALL_ACCESS),
        entry(2, 7, 2, 2, PROCESS_VM_READ),
        entry(3, 7, 3, 3, PROCESS_VM_READ | PROCESS_VM_WRITE),
    ];
    let once = HandleManager::new(entries.clone()).filter_suspicious_handles();
    let twice = HandleManager::new(entries)
        .filter_suspicious_handles()
        .filter_suspicious_handles();
    assert_eq!(owner_pids(&once), owner_pids(&twice));
}

#[test]
fn filter_suspicious_commutes_with_exclude_self() {
    let self_pid = 2u32;
    let entries = vec![
        entry(1, 7, 1, 1, PROCESS_ALL_ACCESS),
        entry(2, 7, 2, 2, PROCESS_ALL_ACCESS),
        entry(3, 7, 3, 3, 0x10),
        entry(2, 7, 4, 4, 0x10),
    ];
    let one = HandleManager::new(entries.clone())
        .filter_suspicious_handles()
        .filter_anticheat_handles(self_pid);
    let other = HandleManager::new(entries)
        .filter_anticheat_handles(self_pid)
        .filter_suspicious_handles();
    assert_eq!(owner_pids(&one), owner_pids(&other));
}

#[test]
fn exclude_self_then_filter_never_returns_own_entries() {
    let self_pid = 9u32;
    let manager = HandleManager::new(vec![
        entry(9, 7, 1, 1, PROCESS_ALL_ACCESS),
        entry(5, 7, 2, 2, PROCESS_ALL_ACCESS),
        entry(9, 7, 3, 3, PROCESS_VM_READ | PROCESS_VM_WRITE),
    ]);
    let manager = manager
        .filter_anticheat_handles(self_pid)
        .filter_suspicious_handles();
    assert!(manager.handles.iter().all(|h| h.raw.process_id as u32 != self_pid));
    assert_eq!(owner_pids(&manager), vec![5]);
}

#[test]
fn exclude_self_compares_pid_truncated_to_snapshot_width() {
    // The snapshot stores owners in 16 bits; a scanner PID above 65535 must
    // still drop its own entries, whose stored owner is the truncated PID.
    let scanner_pid = 0x10005u32;
    let manager = HandleManager::new(vec![
        entry(5, 7, 1, 1, 0x1fffff), // the scanner's own entry, stored truncated
        entry(6, 7, 2, 2, 0x1fffff),
    ]);
    let manager = manager.filter_anticheat_handles(scanner_pid);
    assert_eq!(owner_pids(&manager), vec![6]);
}

#[test]
fn filter_by_type_index_takes_resolved_index() {
    // On another OS version the process type index may differ from the
    // well-known table; the filter takes the resolved index as data.
    let manager = HandleManager::new(vec![
        entry(1, 9, 1, 1, 0x10),
        entry(2, 7, 2, 2, 0x10),
        entry(3, 9, 3, 3, 0x10),
    ]);
    let manager = manager.filter_by_type_index(9);
    assert_eq!(owner_pids(&manager), vec![1, 3]);
}

#[test]
fn snapshot_step_follows_grow_retry_rule() {
    assert_eq!(next_snapshot_step(true, 0x1000, 0x1000), SnapshotStep::Done);
    assert_eq!(next_snapshot_step(true, 0, 0x1000), SnapshotStep::Done);
    assert_eq!(
        next_snapshot_step(false, 0x4000, 0x1000),
        SnapshotStep::Grow(0x4000)
    );
    assert_eq!(next_snapshot_step(false, 0x1000, 0x1000), SnapshotStep::Fail);
    assert_eq!(next_snapshot_step(false, 0x800, 0x1000), SnapshotStep::Fail);
}

#[test]
fn target_filter_keeps_probed_foreign_entries_only() {
    let target = 77u32;
    let manager = HandleManager::new(vec![
        entry(10, 7, 1, 1, 0x30), // probed to the target: kept
        entry(11, 7, 2, 2, 0x30), // probed to another process: dropped
        entry(12, 7, 3, 3, 0x30), // probe failed: dropped
        entry(77, 7, 4, 4, 0x30), // the target's own entry: dropped
    ]);
    let probes = vec![Some(77u32), Some(5u32), None, Some(77u32)];
    let manager = manager.filter_handles_to_target(target, &probes);
    assert_eq!(owner_pids(&manager), vec![10]);
}

#[test]
fn target_filter_never_returns_target_owned_entries() {
    let target = 42u32;
    let manager = HandleManager::new(vec![
        entry(42, 7, 1, 1, 0x30),
        entry(42, 7, 2, 2, PROCESS_ALL_ACCESS),
        entry(7, 7, 3, 3, 0x30),
    ]);
    let probes = vec![Some(42u32), Some(42u32), Some(42u32)];
    let manager = manager.filter_handles_to_target(target, &probes);
    assert!(manager.handles.iter().all(|h| h.raw.process_id as u32 != target));
    assert_eq!(owner_pids(&manager), vec![7]);
}

#[test]
fn collect_handle_info_enriches_without_dropping() {
    let manager = HandleManager::new(vec![
        entry(1, 7, 1, 1, PROCESS_VM_READ | PROCESS_VM_WRITE),
        entry(2, 7, 2, 2, 0x10),
    ]);
    let paths = vec![
        Some((
            "\\Device\\HarddiskVolume3\\cheat.exe".to_string(),
            "C:\\cheat.exe".to_string(),
        )),
        None,
    ];
    let manager = manager.collect_handle_info(&paths);
    assert_eq!(manager.handles.len(), 2);
    let first = &manager.handles[0];
    assert_eq!(
        first.paths(),
        Some((
            "\\Device\\HarddiskVolume3\\cheat.exe".to_string(),
            "C:\\cheat.exe".to_string()
        ))
    );
    assert_eq!(
        first.access_rights(),
        vec!["PROCESS_VM_READ".to_string(), "PROCESS_VM_WRITE".to_string()]
    );
    let second = &manager.handles[1];
    assert_eq!(second.paths(), Some((String::new(), String::new())));
    assert_eq!(second.access_rights(), vec!["PROCESS_VM_READ".to_string()]);
}

#[test]
fn get_handles_returns_working_list() {
    let manager = HandleManager::new(vec![entry(1, 7, 1, 1, 0x10), entry(2, 7, 2, 2, 0x20)]);
    let handles = manager.get_handles();
    assert_eq!(handles.len(), 2);
    assert_eq!(handles[0].raw.process_id, 1);
    assert_eq!(handles[1].raw.process_id, 2);
}

#[test]
fn handle_type_indices_match_kernel_table() {
    assert_eq!(SystemHandleType::Process.os_index(), 7);
    assert_eq!(SystemHandleType::Thread.os_index(), 8);
    assert_eq!(SystemHandleType::Event.os_index(), 10);
    assert_eq!(SystemHandleType::Mutex.os_index(), 11);
    assert_eq!(SystemHandleType::Sempahore.os_index(), 12);
    assert_eq!(SystemHandleType::File.os_index(), 25);
}
