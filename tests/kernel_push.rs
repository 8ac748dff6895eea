use bootcom::{size_header, KernelPush, PushAction, PushError, PushEvent, PushPhase};

/// A port that records what it is given. It answers the length with `ack`
/// once `ack_after` polls have found nothing, writes at most `write_max`
/// bytes at once, and times out every `timeout_every`-th write.
struct SimPort {
    written: Vec<u8>,
    cleared: bool,
    ack: Option<[u8; 2]>,
    ack_after: usize,
    polls: usize,
    write_max: usize,
    timeout_every: usize,
    writes: usize,
}

impl SimPort {
    fn new(ack: Option<[u8; 2]>) -> SimPort {
        SimPort {
            written: Vec::new(),
            cleared: false,
            ack,
            ack_after: 0,
            polls: 0,
            write_max: usize::MAX,
            timeout_every: 0,
            writes: 0,
        }
    }
}

fn drive(push: &mut KernelPush, port: &mut SimPort) -> Result<(), PushError> {
    loop {
        let event = match push.next_action() {
            PushAction::ClearInput => {
                port.cleared = true;
                PushEvent::Done
            }
            PushAction::WriteAll(bytes) => {
                assert!(port.cleared);
                port.written.extend_from_slice(&bytes);
                PushEvent::Done
            }
            PushAction::PollAck { .. } => {
                port.polls += 1;
                match port.ack {
                    Some([a, b]) if port.polls > port.ack_after => PushEvent::AckReceived(a, b),
                    _ => PushEvent::AckPending,
                }
            }
            PushAction::Write { data, .. } => {
                port.writes += 1;
                if port.timeout_every > 0 && port.writes % port.timeout_every == 0 {
                    PushEvent::TimedOut
                } else {
                    let n = data.len().min(port.write_max);
                    port.written.extend_from_slice(&data[..n]);
                    PushEvent::Wrote(n)
                }
            }
            PushAction::Finished => return Ok(()),
            PushAction::Failed(e) => return Err(e),
        };
        push.handle(event);
    }
}

fn image(len: usize) -> Vec<u8> {
    (0..len).map(|i| (i * 7 + 3) as u8).collect()
}

fn expected_stream(img: &[u8]) -> Vec<u8> {
    let mut s = (img.len() as u32).to_le_bytes().to_vec();
    s.extend_from_slice(img);
    s
}

#[test]
fn header_is_little_endian_length() {
    assert_eq!(size_header(10).unwrap(), vec![10, 0, 0, 0]);
    assert_eq!(size_header(0x0102_0304).unwrap(), vec![4, 3, 2, 1]);
    assert_eq!(size_header(0xFFFF_FFFF).unwrap(), vec![0xFF, 0xFF, 0xFF, 0xFF]);
    assert_eq!(size_header(0x1_0000_0000), Err(PushError::ImageTooLarge));
}

#[test]
fn push_with_ok_writes_header_then_image_for_any_chunk_size() {
    let img = image(3000);
    for chunk in [1usize, 7, 1024, 2999, 3000, 5000] {
        let mut push = KernelPush::new(img.clone(), chunk).unwrap();
        let mut port = SimPort::new(Some(*b"OK"));
        assert_eq!(drive(&mut push, &mut port), Ok(()));
        assert_eq!(port.written, expected_stream(&img));
        assert_eq!(push.phase(), PushPhase::Complete);
        assert_eq!(push.written(), 3000);
    }
}

#[test]
fn push_survives_partial_writes_timeouts_and_a_late_ok() {
    let img = image(2500);
    let mut push = KernelPush::new(img.clone(), 1024).unwrap();
    let mut port = SimPort::new(Some(*b"OK"));
    port.ack_after = 4;
    port.write_max = 300;
    port.timeout_every = 3;
    assert_eq!(drive(&mut push, &mut port), Ok(()));
    assert_eq!(port.written, expected_stream(&img));
    assert_eq!(port.polls, 5);
}

#[test]
fn ten_byte_image_is_pushed() {
    let img: Vec<u8> = (1..=10).collect();
    let mut push = KernelPush::new(img.clone(), 1024).unwrap();
    let mut port = SimPort::new(Some([0x4F, 0x4B]));
    assert_eq!(drive(&mut push, &mut port), Ok(()));
    assert_eq!(port.written, vec![10, 0, 0, 0, 1, 2, 3, 4, 5, 6, 7, 8, 9, 10]);
}

#[test]
fn empty_image_sends_only_the_header() {
    let mut push = KernelPush::new(Vec::new(), 1024).unwrap();
    let mut port = SimPort::new(Some(*b"OK"));
    assert_eq!(drive(&mut push, &mut port), Ok(()));
    assert_eq!(port.written, vec![0, 0, 0, 0]);
}

#[test]
fn push_without_ok_fails_after_ten_polls_and_sends_no_image_byte() {
    let img = image(100);
    let mut push = KernelPush::new(img, 1024).unwrap();
    let mut port = SimPort::new(None);
    assert_eq!(drive(&mut push, &mut port), Err(PushError::NotAcknowledged));
    assert_eq!(port.polls, 10);
    assert_eq!(port.written, vec![100, 0, 0, 0]);
    assert_eq!(push.written(), 0);
}

#[test]
fn wrong_answer_fails_the_attempt() {
    let mut push = KernelPush::new(image(5), 1024).unwrap();
    let mut port = SimPort::new(Some(*b"NO"));
    assert_eq!(drive(&mut push, &mut port), Err(PushError::NotAcknowledged));
    assert_eq!(port.written, vec![5, 0, 0, 0]);
}

#[test]
fn io_error_fails_the_attempt() {
    let mut push = KernelPush::new(image(5), 1024).unwrap();
    assert!(matches!(push.next_action(), PushAction::ClearInput));
    push.handle(PushEvent::IoFailed);
    assert_eq!(push.phase(), PushPhase::Failed { error: PushError::Io });
    assert!(matches!(push.next_action(), PushAction::Failed(PushError::Io)));
}

#[test]
fn polls_after_the_first_wait_a_second() {
    let mut push = KernelPush::new(image(5), 1024).unwrap();
    push.handle(PushEvent::Done);
    push.handle(PushEvent::Done);
    assert!(matches!(push.next_action(), PushAction::PollAck { pause_ms: 0 }));
    push.handle(PushEvent::AckPending);
    assert!(matches!(push.next_action(), PushAction::PollAck { pause_ms: 1000 }));
}

#[test]
fn timed_out_chunk_is_retried_after_a_pause() {
    let mut push = KernelPush::new(image(5), 2).unwrap();
    push.handle(PushEvent::Done);
    push.handle(PushEvent::Done);
    push.handle(PushEvent::AckReceived(b'O', b'K'));
    let first = match push.next_action() {
        PushAction::Write { data, pause_ms } => {
            assert_eq!(pause_ms, 0);
            data
        }
        other => panic!("unexpected {:?}", other),
    };
    push.handle(PushEvent::TimedOut);
    match push.next_action() {
        PushAction::Write { data, pause_ms } => {
            assert_eq!(pause_ms, 50);
            assert_eq!(data, first);
        }
        other => panic!("unexpected {:?}", other),
    }
}

#[test]
fn overlong_write_report_fails_the_attempt() {
    let mut push = KernelPush::new(image(5), 2).unwrap();
    push.handle(PushEvent::Done);
    push.handle(PushEvent::Done);
    push.handle(PushEvent::AckReceived(b'O', b'K'));
    push.handle(PushEvent::Wrote(3));
    assert_eq!(push.phase(), PushPhase::Failed { error: PushError::Io });
}
