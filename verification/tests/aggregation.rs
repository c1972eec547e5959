use thread_status::resolve::{entry_action, EntryAction, HandleInfo, LocalHandle, ResolveError};
use thread_status::snapshot::{SystemHandleInformation, SystemHandleTableEntryInfo};
use thread_status::status::ThreadStatus;

fn entry(pid: u16, handle_value: u16) -> SystemHandleTableEntryInfo {
    SystemHandleTableEntryInfo {
        unique_process_id: pid,
        creator_back_trace_index: 0,
        object_type_index: 0,
        handle_attributes: 0,
        handle_value,
        object: 0,
        granted_access: 0,
    }
}

fn snapshot(entries: Vec<SystemHandleTableEntryInfo>) -> SystemHandleInformation {
    SystemHandleInformation { number_of_handles: entries.len() as u32, handles: entries }
}

#[test]
fn reserved_pids_are_skipped() {
    for pid in 0u16..=4u16 {
        assert!(matches!(entry_action(&entry(pid, 33)), EntryAction::Skip));
    }
}

#[test]
fn real_pids_are_resolved_with_reported_values() {
    match entry_action(&entry(5, 33)) {
        EntryAction::Resolve { pid, handle_value } => {
            assert_eq!(pid, 5);
            assert_eq!(handle_value, 33);
        }
        EntryAction::Skip => panic!("pid above the reserved range must be resolved"),
    }
}

#[test]
fn new_status_has_invalid_baseline_and_empty_state() {
    let st = ThreadStatus::new();
    assert!(st.thread_handle.is_invalid());
    assert_eq!(st.open_count, 0);
    assert!(st.pid_list.is_empty());
    let d = ThreadStatus::default();
    assert!(d.thread_handle.is_invalid());
    assert_eq!(d.open_count, 0);
    assert!(d.pid_list.is_empty());
}

#[test]
fn invalid_handle_markers() {
    assert!(LocalHandle { raw: 0 }.is_invalid());
    assert!(LocalHandle { raw: u64::MAX }.is_invalid());
    assert!(!LocalHandle { raw: 5 }.is_invalid());
}

#[test]
fn scenario_two_matches_one_owner() {
    // A snapshot whose records are: one owned by the reserved pseudo-process
    // 4 (skipped), two owned by process 31 that both resolve to the baseline
    // object, and one owned by process 47 that resolves to some other
    // object. The count rises once per matching handle; the owner list
    // holds 31 once.
    let baseline = LocalHandle { raw: 0x1000 };
    let other = LocalHandle { raw: 0x2000 };
    let info = snapshot(vec![entry(4, 10), entry(31, 11), entry(31, 12), entry(47, 13)]);
    let resolutions: Vec<Result<HandleInfo, ResolveError>> = vec![
        // Never consulted: the record's owner is reserved.
        Err(ResolveError { pid: 4, handle_value: 10 }),
        Ok(HandleInfo { pid: 31, handle: baseline }),
        Ok(HandleInfo { pid: 31, handle: baseline }),
        Ok(HandleInfo { pid: 47, handle: other }),
    ];
    let mut st = ThreadStatus::new();
    st.init(baseline);
    st.check(&info, &resolutions);
    assert_eq!(st.open_count, 2);
    assert_eq!(st.pid_list, vec![31]);
}

#[test]
fn failed_resolution_is_skipped_and_scan_completes() {
    // One process exited between the snapshot and the resolution: its entry
    // yields a resolution failure, which is absorbed — it changes neither
    // the count nor the owner list, and the rest of the scan still counts.
    let baseline = LocalHandle { raw: 0x1000 };
    let info = snapshot(vec![entry(20, 5), entry(21, 6)]);
    let resolutions: Vec<Result<HandleInfo, ResolveError>> = vec![
        Err(ResolveError { pid: 20, handle_value: 5 }),
        Ok(HandleInfo { pid: 21, handle: baseline }),
    ];
    let mut st = ThreadStatus::new();
    st.init(baseline);
    st.check(&info, &resolutions);
    assert_eq!(st.open_count, 1);
    assert_eq!(st.pid_list, vec![21]);
}

#[test]
fn owner_list_never_holds_duplicates() {
    let baseline = LocalHandle { raw: 7 };
    let info = snapshot(vec![entry(9, 1), entry(9, 2), entry(9, 3)]);
    let resolutions: Vec<Result<HandleInfo, ResolveError>> = vec![
        Ok(HandleInfo { pid: 9, handle: baseline }),
        Ok(HandleInfo { pid: 9, handle: baseline }),
        Ok(HandleInfo { pid: 9, handle: baseline }),
    ];
    let mut st = ThreadStatus::new();
    st.init(baseline);
    st.check(&info, &resolutions);
    assert_eq!(st.open_count, 3);
    assert_eq!(st.pid_list, vec![9]);
    assert!(st.open_count as usize >= st.pid_list.len());
}

#[test]
fn reestablishing_baseline_resets_count_and_owners() {
    let first = LocalHandle { raw: 0x10 };
    let info = snapshot(vec![entry(12, 1)]);
    let resolutions: Vec<Result<HandleInfo, ResolveError>> =
        vec![Ok(HandleInfo { pid: 12, handle: first })];
    let mut st = ThreadStatus::new();
    st.init(first);
    st.check(&info, &resolutions);
    assert_eq!(st.open_count, 1);
    assert_eq!(st.pid_list, vec![12]);

    // The baseline became invalid; re-initialization must clear the stale
    // results before any new scan is folded in.
    let second = LocalHandle { raw: 0x20 };
    st.init(second);
    assert_eq!(st.open_count, 0);
    assert!(st.pid_list.is_empty());

    let resolutions2: Vec<Result<HandleInfo, ResolveError>> =
        vec![Ok(HandleInfo { pid: 12, handle: second })];
    st.check(&info, &resolutions2);
    assert_eq!(st.open_count, 1);
    assert_eq!(st.pid_list, vec![12]);
}

#[test]
fn outcome_matching_another_object_changes_nothing() {
    let baseline = LocalHandle { raw: 3 };
    let other = LocalHandle { raw: 4 };
    let info = snapshot(vec![entry(15, 1)]);
    let resolutions: Vec<Result<HandleInfo, ResolveError>> =
        vec![Ok(HandleInfo { pid: 15, handle: other })];
    let mut st = ThreadStatus::new();
    st.init(baseline);
    st.check(&info, &resolutions);
    assert_eq!(st.open_count, 0);
    assert!(st.pid_list.is_empty());
}

#[test]
fn per_outcome_fold_matches_scan() {
    let baseline = LocalHandle { raw: 99 };
    let mut st = ThreadStatus::new();
    st.init(baseline);
    st.apply_outcome(&Ok(HandleInfo { pid: 8, handle: baseline }));
    st.apply_outcome(&Err(ResolveError { pid: 9, handle_value: 1 }));
    st.apply_outcome(&Ok(HandleInfo { pid: 8, handle: baseline }));
    assert_eq!(st.open_count, 2);
    assert_eq!(st.pid_list, vec![8]);
}
