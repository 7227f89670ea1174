use haven::logger::broadcast::{LogHistory, LogLine, HISTORY_CAPACITY};

fn make_line(message: &str) -> LogLine {
    LogLine {
        timestamp: "2026-01-01 00:00:00:000".to_string(),
        level: "INFO".to_string(),
        tag: "test".to_string(),
        pid: 0,
        tid: 0,
        message: message.to_string(),
    }
}

#[test]
fn broadcast_adds_to_history() {
    let mut history = LogHistory::new();
    let unique = "adds_to_history_sentinel_a1b2c3";
    history.broadcast(&make_line(unique));
    assert!(history.get_history().iter().any(|l| l.message == unique));
}

#[test]
fn history_preserves_insertion_order() {
    let mut history = LogHistory::new();
    let tag_a = "order_test_first_zzz1";
    let tag_b = "order_test_second_zzz2";
    history.broadcast(&make_line(tag_a));
    history.broadcast(&make_line(tag_b));
    let hist = history.get_history();
    let pos_a = hist.iter().rposition(|l| l.message == tag_a).expect("tag_a missing");
    let pos_b = hist.iter().rposition(|l| l.message == tag_b).expect("tag_b missing");
    assert!(pos_a < pos_b, "tag_a must appear before tag_b");
}

#[test]
fn history_evicts_oldest_at_capacity() {
    let mut history = LogHistory::new();
    let unique = "eviction_marker_unique_xyzzy7";
    history.broadcast(&make_line(unique));
    for i in 0..HISTORY_CAPACITY {
        history.broadcast(&make_line(&format!("eviction_filler_{}", i)));
    }
    let hist = history.get_history();
    assert_eq!(hist.len(), HISTORY_CAPACITY);
    assert!(!hist.iter().any(|l| l.message == unique), "oldest entry should have been evicted");
}

#[test]
fn get_history_returns_independent_clone() {
    let mut history = LogHistory::new();
    let unique = "clone_test_sentinel_xyz789";
    history.broadcast(&make_line(unique));
    let mut snap = history.get_history();
    snap.clear();
    assert!(
        history.get_history().iter().any(|l| l.message == unique),
        "clearing returned Vec must not affect the buffer"
    );
}

#[test]
fn history_keeps_the_latest_lines_in_order() {
    let mut history = LogHistory::new();
    for i in 0..(HISTORY_CAPACITY + 5) {
        history.broadcast(&make_line(&format!("line_{}", i)));
    }
    let hist = history.get_history();
    assert_eq!(hist.len(), HISTORY_CAPACITY);
    assert_eq!(hist[0].message, "line_5");
    assert_eq!(hist[HISTORY_CAPACITY - 1].message, format!("line_{}", HISTORY_CAPACITY + 4));
    assert_eq!(history.subscribe_with_history().len(), HISTORY_CAPACITY);
}
