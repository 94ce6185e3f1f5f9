use better_review::log_buffer::LogBuffer;

#[test]
fn ring_buffer_keeps_latest_entries() {
    let mut logs = LogBuffer::new(2);
    logs.record("one");
    logs.record("two");
    logs.record("three");

    assert_eq!(logs.entries(), vec!["two", "three"]);
}

#[test]
fn terminal_logging_flag_does_not_affect_entries() {
    let mut logs = LogBuffer::new(2);
    logs.set_terminal_logging_enabled(true);
    logs.record("one");
    logs.set_terminal_logging_enabled(false);
    logs.record("two");

    assert!(!logs.terminal_logging_enabled());
    assert_eq!(logs.entries(), vec!["one", "two"]);
}

#[test]
fn record_reports_whether_to_echo() {
    let mut logs = LogBuffer::new(3);
    assert!(!logs.record("quiet"));
    logs.set_terminal_logging_enabled(true);
    assert!(logs.record("loud"));
    logs.record_stderr("always");
    assert_eq!(logs.entries(), vec!["quiet", "loud", "always"]);
}

#[test]
fn log_keeps_last_capacity_messages() {
    let mut logs = LogBuffer::new(3);
    for m in ["a", "b", "c", "d", "e"] {
        logs.record(m);
    }
    assert_eq!(logs.entries(), vec!["c", "d", "e"]);
}

#[test]
fn log_of_zero_capacity_keeps_everything() {
    let mut logs = LogBuffer::new(0);
    logs.record("a");
    logs.record("b");
    assert_eq!(logs.entries(), vec!["a", "b"]);
}

#[test]
fn new_log_is_empty_and_quiet() {
    let logs = LogBuffer::new(4);
    assert!(logs.entries().is_empty());
    assert!(!logs.terminal_logging_enabled());
}
