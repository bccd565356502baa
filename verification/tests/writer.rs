use great_appender::writer::{WriterAction, WriterState};

#[test]
fn record_accumulates_and_publishes_totals() {
    let mut w = WriterState::new();
    assert_eq!(w.bytes, 0);
    let first = w.record(10);
    assert_eq!(first, 10);
    let second = w.record(5);
    assert_eq!(second, 15);
    assert_eq!(w.bytes, 15);
    // Snapshots never decrease, even across a zero-byte write.
    let third = w.record(0);
    assert_eq!(third, 15);
    assert!(first <= second && second <= third);
}

#[test]
fn writer_writes_while_flag_clear() {
    let w = WriterState::new();
    assert_eq!(w.next(false), WriterAction::Write);
}

#[test]
fn stop_flag_set_before_any_write_exits_at_once() {
    // The flag observed set at the top of the very first iteration: the
    // writer issues no write at all.
    let w = WriterState::new();
    assert_eq!(w.next(true), WriterAction::Exit);
    assert_eq!(w.bytes, 0);
}
