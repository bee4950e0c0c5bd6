use watchrun::debounce::{run_trace, Debouncer};

#[test]
fn burst_within_window_coalesces_to_one_batch() {
    let events = vec![
        (0u64, "a".to_string()),
        (50u64, "b".to_string()),
        (99u64, "c".to_string()),
    ];
    let batches = run_trace(100, &events);
    assert_eq!(batches.len(), 1);
    assert_eq!(batches[0], vec!["a", "b", "c"]);
}

#[test]
fn separated_notifications_each_get_a_batch() {
    let events = vec![
        (0u64, "a".to_string()),
        (100u64, "b".to_string()),
        (250u64, "c".to_string()),
    ];
    let batches = run_trace(100, &events);
    assert_eq!(batches.len(), 3);
    assert_eq!(batches[0], vec!["a"]);
    assert_eq!(batches[1], vec!["b"]);
    assert_eq!(batches[2], vec!["c"]);
}

#[test]
fn timer_restarts_on_each_notification() {
    let mut deb = Debouncer::new(100);
    deb.record(0, "a".to_string());
    // Not yet due: the window has not elapsed.
    assert_eq!(deb.take_batch(99), None);
    // A new notification restarts the timer from its own arrival time.
    deb.record(90, "b".to_string());
    assert_eq!(deb.take_batch(100), None);
    assert_eq!(deb.take_batch(189), None);
    let batch = deb.take_batch(190).unwrap();
    assert_eq!(batch, vec!["a", "b"]);
    // The accumulator is idle again.
    assert_eq!(deb.take_batch(1000), None);
}

#[test]
fn empty_trace_yields_no_batches() {
    let events: Vec<(u64, String)> = vec![];
    let batches = run_trace(500, &events);
    assert!(batches.is_empty());
}

#[test]
fn mixed_trace_groups_by_gaps() {
    // Gaps: 10 (same burst), 600 (new burst), 10 (same burst).
    let events = vec![
        (0u64, "a".to_string()),
        (10u64, "b".to_string()),
        (610u64, "c".to_string()),
        (620u64, "d".to_string()),
    ];
    let batches = run_trace(500, &events);
    assert_eq!(batches.len(), 2);
    assert_eq!(batches[0], vec!["a", "b"]);
    assert_eq!(batches[1], vec!["c", "d"]);
}
