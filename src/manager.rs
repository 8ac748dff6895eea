//! The device manager state machine: which port to use, and when.
//!
//! It starts in `Init`, waits for a named device in `WaitForPort` or lets the
//! user pick one in `SelectPort`, runs a boot protocol session in `Service`,
//! and goes back to waiting when the session ends with a port failure. It ends
//! in `Done`, first to report, then to exit.

use vstd::prelude::*;
use crate::settings::Settings;

verus! {

/// Runs the device manager until the session ends, and returns the exit
/// status: 0 after a clean end, nonzero after an error.
pub trait DeviceManager {
    fn run(&mut self) -> i8;
}

/// The states of the device manager.
#[derive(Debug, Clone, Copy, PartialEq, Eq, Structural)]
pub enum ManagerState {
    Init,
    /// Waiting for the device that the settings name.
    WaitForPort,
    /// The user picks a device among the attached ones.
    SelectPort,
    /// A boot protocol session runs on the chosen port.
    Service,
    /// The manager ended; `should_exit` once the outcome was reported.
    Done { with_error: bool, should_exit: bool },
}

/// The events of the device manager. Each carries the settings from which the
/// next state is built.
pub enum ManagerEvent {
    /// Wait for the named device: the settings name one, or the session lost
    /// its port.
    WaitForPort { settings: Settings },
    /// Let the user pick a device.
    SelectPort { settings: Settings },
    /// The device is attached: start a session on it.
    PortReady { settings: Settings },
    /// The session failed on its port.
    PortError { settings: Settings },
    /// The manager is done.
    Done { settings: Settings, with_errors: bool },
    /// The end was reported: the manager stops.
    Exit { settings: Settings, with_error: bool },
}

/// The result of the outside work that the current state did.
pub enum ManagerOutcome {
    /// `Init` and `Done`: there was no outside work, or only a report.
    Proceed,
    /// `WaitForPort`: the wait ended, with the device attached or cancelled by
    /// the user.
    WaitEnded { cancelled: bool },
    /// `SelectPort`: the path that the user picked, or `None` to enumerate
    /// again.
    Selected(Option<String>),
    /// `Service`: the exit status of the boot protocol session.
    ServiceEnded { status: i8 },
}

/// The settings that an event carries.
pub open spec fn manager_event_settings(event: ManagerEvent) -> Settings {
    match event {
        ManagerEvent::WaitForPort { settings } => settings,
        ManagerEvent::SelectPort { settings } => settings,
        ManagerEvent::PortReady { settings } => settings,
        ManagerEvent::PortError { settings } => settings,
        ManagerEvent::Done { settings, .. } => settings,
        ManagerEvent::Exit { settings, .. } => settings,
    }
}

/// The state that `event` leads to from `from`, or `None` when no transition
/// is defined for the pair.
pub open spec fn manager_transition(from: ManagerState, event: ManagerEvent) -> Option<
    ManagerState,
> {
    match (from, event) {
        (ManagerState::Init, ManagerEvent::WaitForPort { .. }) => Some(ManagerState::WaitForPort),
        (ManagerState::Init, ManagerEvent::SelectPort { .. }) => Some(ManagerState::SelectPort),
        (ManagerState::WaitForPort, ManagerEvent::PortReady { .. }) => Some(ManagerState::Service),
        (ManagerState::WaitForPort, ManagerEvent::SelectPort { .. }) => Some(
            ManagerState::SelectPort,
        ),
        (ManagerState::SelectPort, ManagerEvent::SelectPort { .. }) => Some(
            ManagerState::SelectPort,
        ),
        (ManagerState::SelectPort, ManagerEvent::PortReady { .. }) => Some(ManagerState::Service),
        (ManagerState::Service, ManagerEvent::Done { with_errors, .. }) => Some(
            ManagerState::Done { with_error: with_errors, should_exit: false },
        ),
        (ManagerState::Service, ManagerEvent::PortError { .. }) => Some(
            ManagerState::WaitForPort,
        ),
        (ManagerState::Done { .. }, ManagerEvent::Exit { with_error, .. }) => Some(
            ManagerState::Done { with_error, should_exit: true },
        ),
        _ => None,
    }
}

/// The settings with the port path replaced.
pub open spec fn with_port(settings: Settings, path: String) -> Settings {
    Settings { path: Some(path), ..settings }
}

/// The event that `state` fires once its outside work ended with `outcome`,
/// or `None` when the outcome does not belong to the state.
pub open spec fn manager_event(state: ManagerState, settings: Settings, outcome: ManagerOutcome) -> Option<
    ManagerEvent,
> {
    match (state, outcome) {
        (ManagerState::Init, ManagerOutcome::Proceed) => Some(
            if settings.path is Some {
                ManagerEvent::WaitForPort { settings }
            } else {
                ManagerEvent::SelectPort { settings }
            },
        ),
        (ManagerState::WaitForPort, ManagerOutcome::WaitEnded { cancelled }) => Some(
            if cancelled {
                ManagerEvent::SelectPort { settings }
            } else {
                ManagerEvent::PortReady { settings }
            },
        ),
        (ManagerState::SelectPort, ManagerOutcome::Selected(selection)) => Some(
            match selection {
                Some(path) => ManagerEvent::PortReady { settings: with_port(settings, path) },
                None => ManagerEvent::SelectPort { settings },
            },
        ),
        (ManagerState::Service, ManagerOutcome::ServiceEnded { status }) => Some(
            if status == 0 {
                ManagerEvent::Done { settings, with_errors: false }
            } else {
                ManagerEvent::PortError { settings }
            },
        ),
        (ManagerState::Done { with_error, .. }, ManagerOutcome::Proceed) => Some(
            ManagerEvent::Exit { settings, with_error },
        ),
        _ => None,
    }
}

/// The device manager: the settings and the current state.
pub struct DeviceManagerStateMachine {
    /// The settings; a path is set in `WaitForPort` and in `Service`.
    pub settings: Settings,
    pub state: ManagerState,
}

impl DeviceManagerStateMachine {
    /// While the manager waits for a device or serves one, the settings name
    /// its path.
    pub open spec fn wf(&self) -> bool {
        (self.state is WaitForPort || self.state is Service) ==> self.settings.path is Some
    }

    /// A manager in `Init`.
    pub fn new(settings: Settings) -> (m: DeviceManagerStateMachine)
        ensures
            m.state == ManagerState::Init,
            m.settings == settings,
            m.wf(),
    {
        DeviceManagerStateMachine { settings, state: ManagerState::Init }
    }

    /// The state that `event` leads to from `from`, with the settings that the
    /// event carries; `None` when the pair has no transition, which is a
    /// defect of the caller.
    pub fn transition(from: ManagerState, event: ManagerEvent) -> (r: Option<
        DeviceManagerStateMachine,
    >)
        ensures
            match manager_transition(from, event) {
                Some(state) => r matches Some(m) && m.state == state && m.settings
                    == manager_event_settings(event),
                None => r is None,
            },
    {
        let state = match (from, &event) {
            (ManagerState::Init, ManagerEvent::WaitForPort { .. }) => ManagerState::WaitForPort,
            (ManagerState::Init, ManagerEvent::SelectPort { .. }) => ManagerState::SelectPort,
            (ManagerState::WaitForPort, ManagerEvent::PortReady { .. }) => ManagerState::Service,
            (ManagerState::WaitForPort, ManagerEvent::SelectPort { .. }) => ManagerState::SelectPort,
            (ManagerState::SelectPort, ManagerEvent::SelectPort { .. }) => ManagerState::SelectPort,
            (ManagerState::SelectPort, ManagerEvent::PortReady { .. }) => ManagerState::Service,
            (ManagerState::Service, ManagerEvent::Done { with_errors, .. }) => ManagerState::Done {
                with_error: *with_errors,
                should_exit: false,
            },
            (ManagerState::Service, ManagerEvent::PortError { .. }) => ManagerState::WaitForPort,
            (ManagerState::Done { .. }, ManagerEvent::Exit { with_error, .. }) => ManagerState::Done {
                with_error: *with_error,
                should_exit: true,
            },
            _ => {
                return None;
            },
        };
        let settings = match event {
            ManagerEvent::WaitForPort { settings } => settings,
            ManagerEvent::SelectPort { settings } => settings,
            ManagerEvent::PortReady { settings } => settings,
            ManagerEvent::PortError { settings } => settings,
            ManagerEvent::Done { settings, .. } => settings,
            ManagerEvent::Exit { settings, .. } => settings,
        };
        Some(DeviceManagerStateMachine { settings, state })
    }

    /// The event that the current state fires once its outside work ended
    /// with `outcome`; `None` when the outcome does not belong to the state.
    pub fn event(self, outcome: ManagerOutcome) -> (r: Option<ManagerEvent>)
        ensures
            r == manager_event(self.state, self.settings, outcome),
    {
        let settings = self.settings;
        match (self.state, outcome) {
            (ManagerState::Init, ManagerOutcome::Proceed) => Some(
                if settings.path.is_some() {
                    ManagerEvent::WaitForPort { settings }
                } else {
                    ManagerEvent::SelectPort { settings }
                },
            ),
            (ManagerState::WaitForPort, ManagerOutcome::WaitEnded { cancelled }) => Some(
                if cancelled {
                    ManagerEvent::SelectPort { settings }
                } else {
                    ManagerEvent::PortReady { settings }
                },
            ),
            (ManagerState::SelectPort, ManagerOutcome::Selected(selection)) => Some(
                match selection {
                    Some(path) => {
                        let mut chosen = settings;
                        chosen.path = Some(path);
                        ManagerEvent::PortReady { settings: chosen }
                    },
                    None => ManagerEvent::SelectPort { settings },
                },
            ),
            (ManagerState::Service, ManagerOutcome::ServiceEnded { status }) => Some(
                if status == 0 {
                    ManagerEvent::Done { settings, with_errors: false }
                } else {
                    ManagerEvent::PortError { settings }
                },
            ),
            (ManagerState::Done { with_error, .. }, ManagerOutcome::Proceed) => Some(
                ManagerEvent::Exit { settings, with_error },
            ),
            _ => None,
        }
    }

    /// Moves the manager on once the current state's outside work ended with
    /// `outcome`: the state fires its event, and the event leads to the next
    /// state. `None` when the outcome does not belong to the state.
    pub fn step(self, outcome: ManagerOutcome) -> (r: Option<DeviceManagerStateMachine>)
        requires
            self.wf(),
        ensures
            match manager_event(self.state, self.settings, outcome) {
                Some(event) => match manager_transition(self.state, event) {
                    Some(state) => r matches Some(m) && m.state == state && m.settings
                        == manager_event_settings(event) && m.wf(),
                    None => r is None,
                },
                None => r is None,
            },
    {
        let from = self.state;
        match self.event(outcome) {
            Some(event) => DeviceManagerStateMachine::transition(from, event),
            None => None,
        }
    }

    /// The exit status once the manager stopped: 0 after a clean end, 1 after
    /// an error; `None` while it runs.
    pub fn exit_status(&self) -> (status: Option<i8>)
        ensures
            status == match self.state {
                ManagerState::Done { with_error, should_exit } => if should_exit {
                    Some(if with_error { 1i8 } else { 0i8 })
                } else {
                    None
                },
                _ => None,
            },
    {
        match self.state {
            ManagerState::Done { with_error, should_exit } => if should_exit {
                Some(if with_error { 1 } else { 0 })
            } else {
                None
            },
            _ => None,
        }
    }
}

} // verus!
