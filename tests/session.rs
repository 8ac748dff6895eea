use bootcom::{
    check_requested_port, describe_port, factory, port_path_of, scan_chunk, watcher_step,
    DeviceManagerStateMachine, KernelPush, ListenResult, ManagerOutcome, ManagerState, PortWait,
    ProtocolOutcome, ProtocolState, ProtocolStateKind, PushAction, PushEvent, SerialBootProtocol,
    SettingsBuilder, WaitAction, WaitPhase, WatcherAction, WAIT_POLL_SECS,
};

fn names(list: &[&str]) -> Vec<String> {
    list.iter().map(|s| s.to_string()).collect()
}

#[test]
fn requested_port_is_found_by_prefix() {
    let ports = names(&["/dev/ttyS0", "/dev/ttyUSB0: (FTDI / FT232R)"]);
    assert!(check_requested_port(&ports, "/dev/ttyUSB0"));
    assert!(check_requested_port(&ports, "/dev/ttyS0"));
    assert!(!check_requested_port(&ports, "/dev/ttyUSB1"));
    assert!(!check_requested_port(&[], "/dev/ttyUSB0"));
}

#[test]
fn listed_names_carry_the_description_and_give_back_the_path() {
    let name = describe_port("/dev/ttyUSB0", Some("FTDI"), Some("FT232R"));
    assert_eq!(name, "/dev/ttyUSB0: (FTDI / FT232R)");
    assert_eq!(describe_port("/dev/ttyACM0", None, None), "/dev/ttyACM0: ( / )");
    assert_eq!(port_path_of(&name), "/dev/ttyUSB0");
    assert_eq!(port_path_of("/dev/ttyS0"), "/dev/ttyS0");
    assert_eq!(port_path_of(""), "");
}

#[test]
fn wait_becomes_ready_on_the_first_listing_of_the_device() {
    let mut wait = PortWait::new("/dev/ttyUSB0".to_string());
    assert_eq!(wait.next_action(), WaitAction::Enumerate);
    wait.on_listing(&names(&["/dev/ttyS0"]));
    assert_eq!(wait.next_action(), WaitAction::Listen { timeout_secs: WAIT_POLL_SECS });
    wait.on_listen(ListenResult::TimedOut);
    assert_eq!(wait.next_action(), WaitAction::Enumerate);
    wait.on_listing(&names(&[]));
    wait.on_listen(ListenResult::TimedOut);
    assert_eq!(wait.phase(), WaitPhase::Waiting { listen: false });
    wait.on_listing(&names(&["/dev/ttyS0", "/dev/ttyUSB0: (FTDI / FT232R)"]));
    assert_eq!(wait.phase(), WaitPhase::Ready);
    assert_eq!(wait.next_action(), WaitAction::Ready);
    wait.on_listen(ListenResult::CancelReceived);
    assert_eq!(wait.phase(), WaitPhase::Ready);
}

#[test]
fn cancellation_before_the_device_ends_the_wait_cancelled() {
    let mut wait = PortWait::new("/dev/ttyUSB0".to_string());
    wait.on_listing(&names(&[]));
    wait.on_listen(ListenResult::CancelReceived);
    assert_eq!(wait.next_action(), WaitAction::Cancelled);
    wait.on_listing(&names(&["/dev/ttyUSB0"]));
    assert_eq!(wait.phase(), WaitPhase::Cancelled);

    let mut gone = PortWait::new("/dev/ttyUSB0".to_string());
    gone.on_listing(&names(&[]));
    gone.on_listen(ListenResult::Disconnected);
    assert_eq!(gone.phase(), WaitPhase::Cancelled);
}

#[test]
fn watcher_stops_once_told_and_cancels_on_the_key() {
    assert_eq!(watcher_step(true, true), WatcherAction::Stop);
    assert_eq!(watcher_step(true, false), WatcherAction::Stop);
    assert_eq!(watcher_step(false, true), WatcherAction::SendCancel);
    assert_eq!(watcher_step(false, false), WatcherAction::KeepWatching);
}

#[test]
fn protocol_transitions_move_the_port() {
    let settings = SettingsBuilder::new().path("/dev/ttyUSB0").finalize();
    let sm: SerialBootProtocol<u32> = factory(settings.clone());
    assert_eq!(sm.kind(), ProtocolStateKind::Init);
    let sm = sm.step(ProtocolOutcome::Opened(Some(7))).unwrap();
    assert!(matches!(sm.state, ProtocolState::TerminalMode { port: 7 }));
    assert_eq!(sm.settings, settings);
    let sm = sm.step(ProtocolOutcome::TerminalEnded { trigger: true, io_error: false }).unwrap();
    assert!(matches!(sm.state, ProtocolState::KernelSendMode { port: 7 }));
    let sm = sm.step(ProtocolOutcome::KernelSent).unwrap();
    assert!(matches!(sm.state, ProtocolState::TerminalMode { port: 7 }));
    let sm = sm.step(ProtocolOutcome::TerminalEnded { trigger: false, io_error: true }).unwrap();
    assert!(matches!(sm.state, ProtocolState::Done { with_error: true, should_exit: false }));
    assert_eq!(sm.exit_status(), None);
    let sm = sm.step(ProtocolOutcome::Reported).unwrap();
    assert_eq!(sm.exit_status(), Some(1));
}

#[test]
fn protocol_open_failure_ends_with_error() {
    let settings = SettingsBuilder::new().path("/dev/ttyUSB0").finalize();
    let sm: SerialBootProtocol<u32> = factory(settings);
    let sm = sm.step(ProtocolOutcome::Opened(None)).unwrap();
    assert!(matches!(sm.state, ProtocolState::Done { with_error: true, should_exit: false }));
    let sm = sm.step(ProtocolOutcome::Reported).unwrap();
    assert_eq!(sm.exit_status(), Some(1));
}

#[test]
fn protocol_clean_end_exits_with_zero() {
    let settings = SettingsBuilder::new().path("/dev/ttyUSB0").finalize();
    let sm: SerialBootProtocol<u32> = factory(settings);
    let sm = sm.step(ProtocolOutcome::Opened(Some(1))).unwrap();
    let sm = sm.step(ProtocolOutcome::TerminalEnded { trigger: false, io_error: false }).unwrap();
    let sm = sm.step(ProtocolOutcome::Reported).unwrap();
    assert_eq!(sm.exit_status(), Some(0));
}

#[test]
fn protocol_rejects_an_outcome_of_another_state() {
    let settings = SettingsBuilder::new().path("/dev/ttyUSB0").finalize();
    let sm: SerialBootProtocol<u32> = factory(settings);
    assert!(sm.step(ProtocolOutcome::KernelSent).is_none());
}

#[test]
fn manager_waits_for_a_named_port_and_selects_otherwise() {
    let named = DeviceManagerStateMachine::new(SettingsBuilder::new().path("/dev/ttyUSB0").finalize());
    let named = named.step(ManagerOutcome::Proceed).unwrap();
    assert_eq!(named.state, ManagerState::WaitForPort);
    let unnamed = DeviceManagerStateMachine::new(SettingsBuilder::new().finalize());
    let unnamed = unnamed.step(ManagerOutcome::Proceed).unwrap();
    assert_eq!(unnamed.state, ManagerState::SelectPort);
    let unnamed = unnamed.step(ManagerOutcome::Selected(None)).unwrap();
    assert_eq!(unnamed.state, ManagerState::SelectPort);
    assert_eq!(unnamed.settings.path, None);
}

#[test]
fn manager_returns_to_waiting_after_a_port_failure_and_ends_cleanly() {
    let m = DeviceManagerStateMachine::new(SettingsBuilder::new().path("/dev/ttyUSB0").finalize());
    let m = m.step(ManagerOutcome::Proceed).unwrap();
    let m = m.step(ManagerOutcome::WaitEnded { cancelled: false }).unwrap();
    assert_eq!(m.state, ManagerState::Service);
    let m = m.step(ManagerOutcome::ServiceEnded { status: 1 }).unwrap();
    assert_eq!(m.state, ManagerState::WaitForPort);
    assert_eq!(m.settings.path.as_deref(), Some("/dev/ttyUSB0"));
    let m = m.step(ManagerOutcome::WaitEnded { cancelled: false }).unwrap();
    let m = m.step(ManagerOutcome::ServiceEnded { status: 0 }).unwrap();
    assert_eq!(m.state, ManagerState::Done { with_error: false, should_exit: false });
    assert_eq!(m.exit_status(), None);
    let m = m.step(ManagerOutcome::Proceed).unwrap();
    assert_eq!(m.exit_status(), Some(0));
    assert!(m.step(ManagerOutcome::WaitEnded { cancelled: true }).is_none());
}

/// Runs a kernel push against a port that answers `OK` at once and takes
/// every write whole; returns what the port was given.
fn push_to_cooperative_port(image: Vec<u8>) -> Option<Vec<u8>> {
    let mut push = KernelPush::new(image, 1024).ok()?;
    let mut wire = Vec::new();
    loop {
        let event = match push.next_action() {
            PushAction::ClearInput => PushEvent::Done,
            PushAction::WriteAll(bytes) => {
                wire.extend_from_slice(&bytes);
                PushEvent::Done
            }
            PushAction::PollAck { .. } => PushEvent::AckReceived(b'O', b'K'),
            PushAction::Write { data, .. } => {
                wire.extend_from_slice(&data);
                PushEvent::Wrote(data.len())
            }
            PushAction::Finished => return Some(wire),
            PushAction::Failed(_) => return None,
        };
        push.handle(event);
    }
}

#[test]
fn end_to_end_selection_terminal_and_kernel_push() {
    let m = DeviceManagerStateMachine::new(SettingsBuilder::new().finalize());
    let m = m.step(ManagerOutcome::Proceed).unwrap();
    assert_eq!(m.state, ManagerState::SelectPort);
    let listed = names(&["/dev/ttyUSB0"]);
    let picked = port_path_of(&listed[0]);
    let m = m.step(ManagerOutcome::Selected(Some(picked))).unwrap();
    assert_eq!(m.state, ManagerState::Service);
    assert_eq!(m.settings.path.as_deref(), Some("/dev/ttyUSB0"));

    let sm: SerialBootProtocol<&str> = factory(m.settings.clone());
    let sm = sm.step(ProtocolOutcome::Opened(Some("sim"))).unwrap();
    assert!(matches!(sm.state, ProtocolState::TerminalMode { .. }));
    let scan = scan_chunk(&[0x41, 0x42, 0x03, 0x03, 0x03]);
    assert_eq!(scan.forward, vec![0x41, 0x42]);
    let sm = sm.step(ProtocolOutcome::TerminalEnded { trigger: scan.trigger, io_error: false }).unwrap();
    assert!(matches!(sm.state, ProtocolState::KernelSendMode { port: "sim" }));
    let source: Vec<u8> = (10..20).collect();
    let wire = push_to_cooperative_port(source.clone()).unwrap();
    let mut expected = vec![10, 0, 0, 0];
    expected.extend_from_slice(&source);
    assert_eq!(wire, expected);
    let sm = sm.step(ProtocolOutcome::KernelSent).unwrap();
    assert!(matches!(sm.state, ProtocolState::TerminalMode { port: "sim" }));
}

#[test]
fn end_to_end_cancelled_wait_goes_to_selection() {
    let m = DeviceManagerStateMachine::new(SettingsBuilder::new().path("/dev/ttyNEVER").finalize());
    let m = m.step(ManagerOutcome::Proceed).unwrap();
    assert_eq!(m.state, ManagerState::WaitForPort);
    let mut wait = PortWait::new(m.settings.path.clone().unwrap());
    let mut intervals = 0;
    loop {
        match wait.next_action() {
            WaitAction::Enumerate => wait.on_listing(&names(&["/dev/ttyS0", "/dev/ttyUSB0"])),
            WaitAction::Listen { .. } => {
                intervals += 1;
                let heard = if intervals > 2 { ListenResult::CancelReceived } else { ListenResult::TimedOut };
                wait.on_listen(heard);
            }
            WaitAction::Ready => panic!("the device was never listed"),
            WaitAction::Cancelled => break,
        }
    }
    assert_eq!(intervals, 3);
    let m = m.step(ManagerOutcome::WaitEnded { cancelled: true }).unwrap();
    assert_eq!(m.state, ManagerState::SelectPort);
    assert_ne!(m.state, ManagerState::Service);
}
