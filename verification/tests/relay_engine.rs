use relay::relay_engine::{Direction, EngineStatus, RelayEngine};

#[test]
fn partial_write_keeps_suffix() {
    let mut engine = RelayEngine::new(8);
    let flush = engine.on_read(Direction::AToB, &[1, 2, 3, 4]);
    assert!(flush);
    let offered = engine.begin_flush(Direction::AToB);
    assert_eq!(offered, [1, 2, 3, 4]);
    // The destination accepts only two of the four offered bytes.
    engine.complete_flush(Direction::AToB, 2);
    let second = engine.begin_flush(Direction::AToB);
    assert_eq!(second, [3, 4]);
    // Delivered prefix plus the later flush reassembles the original bytes.
    let mut delivered = offered[..2].to_vec();
    delivered.extend_from_slice(&second);
    assert_eq!(delivered, [1, 2, 3, 4]);
    engine.complete_flush(Direction::AToB, 2);
    assert_eq!(engine.begin_flush(Direction::AToB), []);
}

#[test]
fn backpressure_stops_reads() {
    let mut engine = RelayEngine::new(4);
    // A partial write marks the destination not writable.
    engine.on_read(Direction::AToB, &[1]);
    engine.complete_flush(Direction::AToB, 0);
    // Reads continue only while buffer capacity remains.
    let flush = engine.on_read(Direction::AToB, &[2, 3, 4]);
    assert!(!flush);
    assert_eq!(engine.read_budget(Direction::AToB), 0);
    // A writable event frees the direction again.
    let flush = engine.on_dest_writable(Direction::AToB);
    assert!(flush);
    let offered = engine.begin_flush(Direction::AToB);
    assert_eq!(offered, [1, 2, 3, 4]);
    engine.complete_flush(Direction::AToB, 4);
    assert_eq!(engine.read_budget(Direction::AToB), 4);
}

#[test]
fn directions_are_independent() {
    let mut engine = RelayEngine::new(2);
    // Stall the A-to-B direction: full buffer, destination not writable.
    engine.on_read(Direction::AToB, &[1]);
    engine.complete_flush(Direction::AToB, 0);
    engine.on_read(Direction::AToB, &[2]);
    assert_eq!(engine.read_budget(Direction::AToB), 0);
    // B-to-A traffic still flows through untouched.
    let flush = engine.on_read(Direction::BToA, &[9, 9]);
    assert!(flush);
    let offered = engine.begin_flush(Direction::BToA);
    assert_eq!(offered, [9, 9]);
    engine.complete_flush(Direction::BToA, 2);
    assert_eq!(engine.read_budget(Direction::BToA), 2);
    // The stalled direction kept its bytes.
    assert_eq!(engine.begin_flush(Direction::AToB), [1, 2]);
}

#[test]
fn writable_event_with_empty_buffer_marks_writable() {
    let mut engine = RelayEngine::new(4);
    engine.on_read(Direction::BToA, &[5]);
    engine.complete_flush(Direction::BToA, 0);
    // Nothing was accepted: a later read must not ask for a flush.
    let flush = engine.on_read(Direction::BToA, &[6]);
    assert!(!flush);
    engine.complete_flush(Direction::BToA, 2);
    // Buffer now empty; the writable event only restores the flag.
    let flush = engine.on_dest_writable(Direction::BToA);
    assert!(!flush);
    let flush = engine.on_read(Direction::BToA, &[7]);
    assert!(flush);
}

#[test]
fn lifecycle_reaches_closed() {
    let mut engine = RelayEngine::new(4);
    assert_eq!(engine.status(), EngineStatus::Running);
    engine.on_read(Direction::AToB, &[1, 2]);
    assert_eq!(engine.queued_len(Direction::AToB), 2);
    assert_eq!(engine.queued_len(Direction::BToA), 0);
    engine.note_closing();
    assert_eq!(engine.status(), EngineStatus::Closing);
    // Remaining bytes still drain best-effort while closing.
    let offered = engine.begin_flush(Direction::AToB);
    assert_eq!(offered, [1, 2]);
    engine.complete_flush(Direction::AToB, 2);
    engine.note_closed();
    assert_eq!(engine.status(), EngineStatus::Closed);
}

#[test]
fn opposite_swaps_directions() {
    assert_eq!(Direction::AToB.opposite(), Direction::BToA);
    assert_eq!(Direction::BToA.opposite(), Direction::AToB);
}
