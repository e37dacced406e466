use relay::data_output::DataOutput;

#[test]
fn counters_track_per_direction_offsets() {
    let mut sink = DataOutput::new();
    assert_eq!(sink.record_read(true, 5), 0);
    assert_eq!(sink.record_read(true, 3), 5);
    // The right-hand direction counts from zero independently.
    assert_eq!(sink.record_read(false, 7), 0);
    assert_eq!(sink.record_read(false, 1), 7);
    assert_eq!(sink.record_read(true, 0), 8);
}

#[test]
fn line_take_fills_aligned_lines() {
    // A line holds 16 bytes; a dump starting mid-line stops at the break.
    assert_eq!(DataOutput::line_take(0, 40), 16);
    assert_eq!(DataOutput::line_take(16, 5), 5);
    assert_eq!(DataOutput::line_take(10, 40), 6);
    assert_eq!(DataOutput::line_take(31, 40), 1);
    assert_eq!(DataOutput::line_take(32, 1), 1);
}

#[test]
fn printable_matches_ascii_range() {
    assert!(DataOutput::printable(0x20));
    assert!(DataOutput::printable(b'A'));
    assert!(DataOutput::printable(b'~'));
    assert!(!DataOutput::printable(0x1f));
    assert!(!DataOutput::printable(0x7f));
    assert!(!DataOutput::printable(0xff));
    assert!(!DataOutput::printable(b'\n'));
}
