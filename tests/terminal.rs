use bootcom::{chunk_len, scan_chunk, RelayAction, RelayPhase, TerminalRelay};

#[test]
fn trigger_at_the_end_is_stripped_and_switches() {
    let scan = scan_chunk(&[0x41, 0x42, 0x03, 0x03, 0x03]);
    assert!(scan.trigger);
    assert_eq!(scan.forward, vec![0x41, 0x42]);
}

#[test]
fn trigger_alone_forwards_nothing() {
    let scan = scan_chunk(&[3, 3, 3]);
    assert!(scan.trigger);
    assert!(scan.forward.is_empty());
}

#[test]
fn trigger_inside_the_chunk_does_not_switch() {
    let scan = scan_chunk(&[0x41, 3, 3, 3, 0x42]);
    assert!(!scan.trigger);
    assert_eq!(scan.forward, vec![0x41, 3, 3, 3, 0x42]);
}

#[test]
fn fewer_than_three_trailing_do_not_switch() {
    let scan = scan_chunk(&[0x41, 3, 3]);
    assert!(!scan.trigger);
    assert_eq!(scan.forward, vec![0x41, 3, 3]);
    assert!(!scan_chunk(&[3]).trigger);
    assert!(!scan_chunk(&[]).trigger);
}

#[test]
fn four_trailing_do_not_switch() {
    let scan = scan_chunk(&[0x41, 3, 3, 3, 3]);
    assert!(!scan.trigger);
    assert_eq!(scan.forward, vec![0x41, 3, 3, 3, 3]);
}

#[test]
fn reads_are_bounded_to_a_chunk() {
    assert_eq!(chunk_len(0), 0);
    assert_eq!(chunk_len(17), 17);
    assert_eq!(chunk_len(4096), 4096);
    assert_eq!(chunk_len(100_000), 4096);
}

#[test]
fn relay_reads_what_waits_and_stops_on_the_trigger() {
    let mut relay = TerminalRelay::new();
    assert_eq!(relay.next_action(), RelayAction::QueryAvailable);
    relay.on_available(Some(0));
    assert_eq!(relay.next_action(), RelayAction::Pause { ms: 100 });
    relay.on_paused();
    relay.on_available(Some(9000));
    assert_eq!(relay.next_action(), RelayAction::Read { len: 4096 });
    let shown = relay.on_read(Some(&[b'h', b'i']));
    assert_eq!(shown, b"hi".to_vec());
    assert_eq!(relay.phase(), RelayPhase::Pause);
    relay.on_paused();
    relay.on_available(Some(5));
    assert_eq!(relay.next_action(), RelayAction::Read { len: 5 });
    let shown = relay.on_read(Some(&[0x41, 0x42, 3, 3, 3]));
    assert_eq!(shown, vec![0x41, 0x42]);
    assert_eq!(relay.next_action(), RelayAction::Finish { trigger: true, io_error: false });
}

#[test]
fn relay_stops_with_an_error_when_the_port_fails() {
    let mut relay = TerminalRelay::new();
    relay.on_available(None);
    assert_eq!(relay.next_action(), RelayAction::Finish { trigger: false, io_error: true });

    let mut reading = TerminalRelay::new();
    reading.on_available(Some(3));
    assert!(reading.on_read(None).is_empty());
    assert_eq!(reading.next_action(), RelayAction::Finish { trigger: false, io_error: true });
}
