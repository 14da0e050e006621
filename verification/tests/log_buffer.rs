use pulsos::flag::TuiActiveFlag;
use pulsos::log_buffer::{capture_line, strip_prefix, LogEntry, LogRingBuffer, RING_CAPACITY};
use pulsos::tabs::Level;

fn entry(level: Level, message: &str) -> LogEntry {
    LogEntry { timestamp: 1_700_000_000_000, level, target: String::new(), message: message.into() }
}

#[test]
fn ring_buffer_push_and_snapshot() {
    let mut buf = LogRingBuffer::new();
    assert_eq!(buf.len(), 0);
    assert!(buf.latest().is_none());

    buf.push(entry(Level::INFO, "hello"));
    assert_eq!(buf.len(), 1);
    assert_eq!(buf.latest().unwrap().message, "hello");

    buf.push(entry(Level::WARN, "world"));
    assert_eq!(buf.len(), 2);
    assert_eq!(buf.latest().unwrap().message, "world");

    let snap = buf.snapshot();
    assert_eq!(snap.len(), 2);
    assert_eq!(snap[0].message, "hello");
    assert_eq!(snap[1].message, "world");
}

#[test]
fn ring_buffer_capacity_eviction() {
    let mut buf = LogRingBuffer::new();
    for i in 0..600 {
        buf.push(entry(Level::INFO, &format!("msg-{i}")));
    }
    assert_eq!(buf.len(), RING_CAPACITY);
    let snap = buf.snapshot();
    assert_eq!(snap[0].message, "msg-100");
    assert_eq!(snap.last().unwrap().message, "msg-599");
}

#[test]
fn tui_active_flag_toggle() {
    let flag = TuiActiveFlag::new();
    assert!(!flag.is_active());
    flag.set_active(true);
    assert!(flag.is_active());
    flag.set_active(false);
    assert!(!flag.is_active());
}

#[test]
fn parse_level_from_text() {
    assert_eq!(pulsos::log_buffer::parse_level_from_text("  WARN foo"), Level::WARN);
    assert_eq!(pulsos::log_buffer::parse_level_from_text("  ERROR bar"), Level::ERROR);
    assert_eq!(pulsos::log_buffer::parse_level_from_text("  DEBUG baz"), Level::DEBUG);
    assert_eq!(pulsos::log_buffer::parse_level_from_text("  TRACE qux"), Level::TRACE);
    assert_eq!(pulsos::log_buffer::parse_level_from_text("something else"), Level::INFO);
}

#[test]
fn strip_prefix_extracts_message() {
    assert_eq!(strip_prefix("  WARN retry attempt 1"), "retry attempt 1");
    assert_eq!(strip_prefix("  ERROR connection failed"), "connection failed");
    assert_eq!(strip_prefix("  just text"), "just text");
}

#[test]
fn dual_writer_captures_to_buffer() {
    let mut buffer = LogRingBuffer::new();
    if let Some(e) = capture_line("  WARN some warning message\n", None, &None, 0) {
        buffer.push(e);
    }
    assert_eq!(buffer.len(), 1);
    let entry = buffer.latest().unwrap();
    assert_eq!(entry.level, Level::WARN);
    assert_eq!(entry.message, "some warning message");
}

#[test]
fn dual_writer_with_level_hint() {
    let mut buffer = LogRingBuffer::new();
    if let Some(e) = capture_line("  ERROR connection refused\n", Some(Level::ERROR), &None, 0) {
        buffer.push(e);
    }
    let entry = buffer.latest().unwrap();
    assert_eq!(entry.level, Level::ERROR);
}

#[test]
fn strip_prefix_skips_colons_and_keeps_bare_keyword_lines() {
    assert_eq!(strip_prefix("2024-01-01T00:00:00Z  INFO: started"), "started");
    // A keyword with nothing after it leaves the whole line.
    assert_eq!(strip_prefix("  WARN  "), "WARN");
    // ERROR is tried before WARN wherever it stands.
    assert_eq!(strip_prefix("WARN then ERROR tail"), "tail");
}

#[test]
fn capture_line_skips_empty_messages_and_keeps_target() {
    assert!(capture_line("   \n", None, &None, 5).is_none());
    let e = capture_line(" DEBUG x", None, &Some("pulsos::poll".to_string()), 7).unwrap();
    assert_eq!(e.level, Level::DEBUG);
    assert_eq!(e.target, "pulsos::poll");
    assert_eq!(e.message, "x");
    assert_eq!(e.timestamp, 7);
}
