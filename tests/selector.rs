use informant::hwaddr::{parse_hw_addr, HwAddr};
use informant::selector::{latest_states, select_stale, stale_macs, STALE_WINDOW_SECS};
use informant::status::{ReportedState, WorkerStatus};

const NOW: i64 = 1_700_000_000;

fn mac(s: &str) -> HwAddr {
    parse_hw_addr(s).unwrap()
}

fn report(m: &str, status: WorkerStatus, wake: bool, age_secs: i64) -> ReportedState {
    ReportedState { mac: mac(m), status, wake, observed_at: NOW - age_secs }
}

#[test]
fn test_query_wake_candidates() {
    for (a, b) in [
        (WorkerStatus::Sleep, WorkerStatus::Awake),
        (WorkerStatus::Awake, WorkerStatus::Inquisitive),
        (WorkerStatus::Inquisitive, WorkerStatus::Working),
    ] {
        assert!(a.code() < b.code(), "should be able to order workerstatus correctly");
    }
    let rows = vec![
        // stale working or inquisitive
        report("11:22:33:44:55:66", WorkerStatus::Inquisitive, true, 11 * 60),
        report("11:22:33:44:55:77", WorkerStatus::Working, true, 30 * 60),
        report("11:22:33:44:55:88", WorkerStatus::Working, true, 3600),
        // not inquisitive and not working
        report("11:22:33:44:55:99", WorkerStatus::Sleep, true, 0),
        report("11:22:33:44:55:aa", WorkerStatus::Awake, true, 60),
        report("11:22:33:44:55:bb", WorkerStatus::Sleep, true, 86400),
    ];
    let candidates = stale_macs(&rows, NOW, STALE_WINDOW_SECS);
    let expected: Vec<(HwAddr, bool)> = [
        "11:22:33:44:55:66",
        "11:22:33:44:55:77",
        "11:22:33:44:55:88",
        "11:22:33:44:55:99",
        "11:22:33:44:55:aa",
        "11:22:33:44:55:bb",
    ]
    .into_iter()
    .map(|s| (mac(s), true))
    .collect();
    assert_eq!(candidates, expected, "should output all macs in response");
}

#[test]
fn stale_working_device_is_selected_with_its_flag() {
    for wake in [true, false] {
        let rows = vec![report("01:00:00:00:00:01", WorkerStatus::Working, wake, 11 * 60)];
        assert_eq!(select_stale(&rows, NOW, STALE_WINDOW_SECS), vec![(mac("01:00:00:00:00:01"), wake)]);
    }
}

#[test]
fn fresh_active_device_is_not_selected() {
    let rows = vec![
        report("01:00:00:00:00:01", WorkerStatus::Working, true, 9 * 60),
        report("01:00:00:00:00:02", WorkerStatus::Inquisitive, true, 600),
    ];
    assert!(select_stale(&rows, NOW, STALE_WINDOW_SECS).is_empty());
    // one second past the window
    let rows = vec![report("01:00:00:00:00:02", WorkerStatus::Inquisitive, false, 601)];
    assert_eq!(select_stale(&rows, NOW, STALE_WINDOW_SECS).len(), 1);
}

#[test]
fn sleeping_device_asking_for_wake_is_selected_at_once() {
    let rows = vec![report("01:00:00:00:00:03", WorkerStatus::Sleep, true, 0)];
    assert_eq!(select_stale(&rows, NOW, STALE_WINDOW_SECS), vec![(mac("01:00:00:00:00:03"), true)]);
}

#[test]
fn sleeping_device_without_wake_is_never_selected() {
    for age in [0, 600, 601, 86400, 10_000_000] {
        let rows = vec![
            report("01:00:00:00:00:04", WorkerStatus::Sleep, false, age),
            report("01:00:00:00:00:05", WorkerStatus::Awake, false, age),
        ];
        assert!(select_stale(&rows, NOW, STALE_WINDOW_SECS).is_empty());
    }
}

#[test]
fn only_the_latest_report_counts() {
    let rows = vec![
        report("01:00:00:00:00:06", WorkerStatus::Sleep, true, 3000),
        report("01:00:00:00:00:07", WorkerStatus::Working, true, 1200),
        report("01:00:00:00:00:06", WorkerStatus::Working, false, 10),
        report("01:00:00:00:00:07", WorkerStatus::Sleep, true, 2000),
        report("01:00:00:00:00:06", WorkerStatus::Sleep, true, 100),
    ];
    let latest = latest_states(&rows);
    assert_eq!(latest, vec![rows[2], rows[1]]);
    // device 6 is working and fresh; device 7 is working and stale
    assert_eq!(stale_macs(&rows, NOW, STALE_WINDOW_SECS), vec![(mac("01:00:00:00:00:07"), true)]);
}

#[test]
fn equal_times_take_the_later_row() {
    let rows = vec![
        report("01:00:00:00:00:08", WorkerStatus::Sleep, true, 50),
        report("01:00:00:00:00:08", WorkerStatus::Sleep, false, 50),
    ];
    assert_eq!(latest_states(&rows), vec![rows[1]]);
    assert!(stale_macs(&rows, NOW, STALE_WINDOW_SECS).is_empty());
}

#[test]
fn each_device_appears_once() {
    let mut rows = Vec::new();
    for age in 0..5 {
        rows.push(report("01:00:00:00:00:09", WorkerStatus::Sleep, true, age));
    }
    assert_eq!(stale_macs(&rows, NOW, STALE_WINDOW_SECS), vec![(mac("01:00:00:00:00:09"), true)]);
    assert!(stale_macs(&vec![], NOW, STALE_WINDOW_SECS).is_empty());
}

#[test]
fn extreme_times_do_not_overflow() {
    let rows = vec![ReportedState { mac: mac("01:00:00:00:00:0a"), status: WorkerStatus::Working, wake: true, observed_at: i64::MIN }];
    assert_eq!(select_stale(&rows, i64::MAX, i64::MAX).len(), 1);
}

#[test]
fn status_codes() {
    assert_eq!(WorkerStatus::Sleep.code(), 0);
    assert_eq!(WorkerStatus::Working.code(), 3);
    assert_eq!(WorkerStatus::from_code(2), Some(WorkerStatus::Inquisitive));
    assert_eq!(WorkerStatus::from_code(4), None);
    assert!(WorkerStatus::Inquisitive.active());
    assert!(!WorkerStatus::Awake.active());
}
