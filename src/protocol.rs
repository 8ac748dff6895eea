//! The boot protocol state machine of one session over an open port.
//!
//! The session starts in `Init`, where the port is opened; it relays the
//! serial line in `TerminalMode` until the bootloader sends the trigger, then
//! pushes the kernel in `KernelSendMode` and goes back to `TerminalMode`. It
//! ends in `Done`, first to report, then to exit. The port is a value of type
//! `P` that the states hand on by moving it: at most one state holds it, and
//! `Done` holds none.

use vstd::prelude::*;
use crate::settings::Settings;

verus! {

/// How many times opening the port is tried again after a failure.
pub const OPEN_RETRIES: usize = 4;

/// The pause before opening the port is tried again, in milliseconds.
pub const OPEN_RETRY_PAUSE_MS: u64 = 1000;

/// The states of the boot protocol.
pub enum ProtocolState<P> {
    /// The port is to be opened and configured.
    Init,
    /// The serial line is relayed to the user, waiting for the trigger.
    TerminalMode { port: P },
    /// The kernel is pushed to the bootloader.
    KernelSendMode { port: P },
    /// The session ended; `should_exit` once the outcome was reported.
    Done { with_error: bool, should_exit: bool },
}

/// The state of the boot protocol without its data.
#[derive(Debug, Clone, Copy, PartialEq, Eq, Structural)]
pub enum ProtocolStateKind {
    Init,
    TerminalMode,
    KernelSendMode,
    Done,
}

/// The kind of a state.
pub open spec fn kind_of<P>(state: ProtocolState<P>) -> ProtocolStateKind {
    match state {
        ProtocolState::Init => ProtocolStateKind::Init,
        ProtocolState::TerminalMode { .. } => ProtocolStateKind::TerminalMode,
        ProtocolState::KernelSendMode { .. } => ProtocolStateKind::KernelSendMode,
        ProtocolState::Done { .. } => ProtocolStateKind::Done,
    }
}

/// Fired to enter `TerminalMode`: after the port was opened, or after the
/// kernel was pushed. The port moves to the next state.
pub struct SwitchToTerminalModeEvent<P> {
    pub settings: Settings,
    pub port: P,
}

/// Fired to enter `KernelSendMode` when the bootloader asked for a kernel.
/// The port moves to the next state.
pub struct SwitchToKernelSendModeEvent<P> {
    pub settings: Settings,
    pub port: P,
}

/// Fired when the session ends, normally or after an error.
pub struct DoneEvent {
    pub settings: Settings,
    pub with_errors: bool,
}

/// Fired once the end of the session was reported: the machine stops.
pub struct ExitEvent {
    pub settings: Settings,
    pub with_error: bool,
}

/// The events of the boot protocol.
pub enum ProtocolEvent<P> {
    SwitchToTerminalMode(SwitchToTerminalModeEvent<P>),
    SwitchToKernelSendMode(SwitchToKernelSendModeEvent<P>),
    Done(DoneEvent),
    Exit(ExitEvent),
}

/// The result of the outside work that the current state did.
pub enum ProtocolOutcome<P> {
    /// `Init`: the port, opened and configured, or `None` when every attempt
    /// to open it failed.
    Opened(Option<P>),
    /// `TerminalMode`: the relay ended, because the trigger came or because
    /// the port failed.
    TerminalEnded { trigger: bool, io_error: bool },
    /// `KernelSendMode`: the kernel was pushed.
    KernelSent,
    /// `Done`: the outcome was reported.
    Reported,
}

/// The settings that an event carries.
pub open spec fn event_settings<P>(event: ProtocolEvent<P>) -> Settings {
    match event {
        ProtocolEvent::SwitchToTerminalMode(e) => e.settings,
        ProtocolEvent::SwitchToKernelSendMode(e) => e.settings,
        ProtocolEvent::Done(e) => e.settings,
        ProtocolEvent::Exit(e) => e.settings,
    }
}

/// The state that `event` leads to from a state of kind `from`, or `None`
/// when no transition is defined for the pair.
pub open spec fn protocol_transition<P>(from: ProtocolStateKind, event: ProtocolEvent<P>) -> Option<
    ProtocolState<P>,
> {
    match (from, event) {
        (ProtocolStateKind::Init, ProtocolEvent::SwitchToTerminalMode(e)) => Some(
            ProtocolState::TerminalMode { port: e.port },
        ),
        (ProtocolStateKind::KernelSendMode, ProtocolEvent::SwitchToTerminalMode(e)) => Some(
            ProtocolState::TerminalMode { port: e.port },
        ),
        (ProtocolStateKind::TerminalMode, ProtocolEvent::SwitchToKernelSendMode(e)) => Some(
            ProtocolState::KernelSendMode { port: e.port },
        ),
        (ProtocolStateKind::Done, ProtocolEvent::Exit(e)) => Some(
            ProtocolState::Done { with_error: e.with_error, should_exit: true },
        ),
        (ProtocolStateKind::Done, _) => None,
        (_, ProtocolEvent::Done(e)) => Some(
            ProtocolState::Done { with_error: e.with_errors, should_exit: false },
        ),
        _ => None,
    }
}

/// The event that a state fires once its outside work ended with `outcome`,
/// or `None` when the outcome does not belong to the state.
pub open spec fn protocol_event<P>(
    state: ProtocolState<P>,
    settings: Settings,
    outcome: ProtocolOutcome<P>,
) -> Option<ProtocolEvent<P>> {
    match (state, outcome) {
        (ProtocolState::Init, ProtocolOutcome::Opened(opened)) => Some(
            match opened {
                Some(port) => ProtocolEvent::SwitchToTerminalMode(
                    SwitchToTerminalModeEvent { settings, port },
                ),
                None => ProtocolEvent::Done(DoneEvent { settings, with_errors: true }),
            },
        ),
        (
            ProtocolState::TerminalMode { port },
            ProtocolOutcome::TerminalEnded { trigger, io_error },
        ) => Some(
            if trigger {
                ProtocolEvent::SwitchToKernelSendMode(
                    SwitchToKernelSendModeEvent { settings, port },
                )
            } else {
                ProtocolEvent::Done(DoneEvent { settings, with_errors: io_error })
            },
        ),
        (ProtocolState::KernelSendMode { port }, ProtocolOutcome::KernelSent) => Some(
            ProtocolEvent::SwitchToTerminalMode(SwitchToTerminalModeEvent { settings, port }),
        ),
        (ProtocolState::Done { with_error, .. }, ProtocolOutcome::Reported) => Some(
            ProtocolEvent::Exit(ExitEvent { settings, with_error }),
        ),
        _ => None,
    }
}

/// One session of the boot protocol: its settings and its state. The settings
/// always name the port.
pub struct SerialBootProtocol<P> {
    /// The settings of the session.
    pub settings: Settings,
    /// The current state; it holds the open port, if any.
    pub state: ProtocolState<P>,
}

impl<P> SerialBootProtocol<P> {
    /// The settings name the port to use.
    pub open spec fn wf(&self) -> bool {
        self.settings.path is Some
    }

    /// The kind of the current state.
    pub fn kind(&self) -> (k: ProtocolStateKind)
        ensures
            k == kind_of(self.state),
    {
        match &self.state {
            ProtocolState::Init => ProtocolStateKind::Init,
            ProtocolState::TerminalMode { .. } => ProtocolStateKind::TerminalMode,
            ProtocolState::KernelSendMode { .. } => ProtocolStateKind::KernelSendMode,
            ProtocolState::Done { .. } => ProtocolStateKind::Done,
        }
    }

    /// The state that `event` leads to from a state of kind `from`, with the
    /// settings that the event carries; `None` when the pair has no
    /// transition, which is a defect of the caller.
    pub fn transition(from: ProtocolStateKind, event: ProtocolEvent<P>) -> (r: Option<
        SerialBootProtocol<P>,
    >)
        requires
            event_settings(event).path is Some,
        ensures
            match protocol_transition(from, event) {
                Some(state) => r matches Some(m) && m.state == state && m.settings
                    == event_settings(event) && m.wf(),
                None => r is None,
            },
    {
        match (from, event) {
            (ProtocolStateKind::Init, ProtocolEvent::SwitchToTerminalMode(e)) => Some(
                SerialBootProtocol {
                    settings: e.settings,
                    state: ProtocolState::TerminalMode { port: e.port },
                },
            ),
            (ProtocolStateKind::KernelSendMode, ProtocolEvent::SwitchToTerminalMode(e)) => Some(
                SerialBootProtocol {
                    settings: e.settings,
                    state: ProtocolState::TerminalMode { port: e.port },
                },
            ),
            (ProtocolStateKind::TerminalMode, ProtocolEvent::SwitchToKernelSendMode(e)) => Some(
                SerialBootProtocol {
                    settings: e.settings,
                    state: ProtocolState::KernelSendMode { port: e.port },
                },
            ),
            (ProtocolStateKind::Done, ProtocolEvent::Exit(e)) => Some(
                SerialBootProtocol {
                    settings: e.settings,
                    state: ProtocolState::Done { with_error: e.with_error, should_exit: true },
                },
            ),
            (ProtocolStateKind::Done, _) => None,
            (_, ProtocolEvent::Done(e)) => Some(
                SerialBootProtocol {
                    settings: e.settings,
                    state: ProtocolState::Done { with_error: e.with_errors, should_exit: false },
                },
            ),
            _ => None,
        }
    }

    /// The event that the current state fires once its outside work ended
    /// with `outcome`; `None` when the outcome does not belong to the state.
    pub fn event(self, outcome: ProtocolOutcome<P>) -> (r: Option<ProtocolEvent<P>>)
        ensures
            r == protocol_event(self.state, self.settings, outcome),
    {
        let settings = self.settings;
        match (self.state, outcome) {
            (ProtocolState::Init, ProtocolOutcome::Opened(opened)) => Some(
                match opened {
                    Some(port) => ProtocolEvent::SwitchToTerminalMode(
                        SwitchToTerminalModeEvent { settings, port },
                    ),
                    None => ProtocolEvent::Done(DoneEvent { settings, with_errors: true }),
                },
            ),
            (
                ProtocolState::TerminalMode { port },
                ProtocolOutcome::TerminalEnded { trigger, io_error },
            ) => Some(
                if trigger {
                    ProtocolEvent::SwitchToKernelSendMode(
                        SwitchToKernelSendModeEvent { settings, port },
                    )
                } else {
                    ProtocolEvent::Done(DoneEvent { settings, with_errors: io_error })
                },
            ),
            (ProtocolState::KernelSendMode { port }, ProtocolOutcome::KernelSent) => Some(
                ProtocolEvent::SwitchToTerminalMode(SwitchToTerminalModeEvent { settings, port }),
            ),
            (ProtocolState::Done { with_error, .. }, ProtocolOutcome::Reported) => Some(
                ProtocolEvent::Exit(ExitEvent { settings, with_error }),
            ),
            _ => None,
        }
    }

    /// Moves the machine on once the current state's outside work ended with
    /// `outcome`: the state fires its event, and the event leads to the next
    /// state. `None` when the outcome does not belong to the state.
    pub fn step(self, outcome: ProtocolOutcome<P>) -> (r: Option<SerialBootProtocol<P>>)
        requires
            self.wf(),
        ensures
            match protocol_event(self.state, self.settings, outcome) {
                Some(event) => match protocol_transition(kind_of(self.state), event) {
                    Some(state) => r matches Some(m) && m.state == state && m.settings
                        == self.settings && m.wf(),
                    None => r is None,
                },
                None => r is None,
            },
    {
        let from = self.kind();
        match self.event(outcome) {
            Some(event) => SerialBootProtocol::transition(from, event),
            None => None,
        }
    }

    /// The exit status once the machine stopped: 0 after a clean end, 1 after
    /// an error; `None` while it runs.
    pub fn exit_status(&self) -> (status: Option<i8>)
        ensures
            status == match self.state {
                ProtocolState::Done { with_error, should_exit } => if should_exit {
                    Some(if with_error { 1i8 } else { 0i8 })
                } else {
                    None
                },
                _ => None,
            },
    {
        match &self.state {
            ProtocolState::Done { with_error, should_exit } => if *should_exit {
                Some(if *with_error { 1 } else { 0 })
            } else {
                None
            },
            _ => None,
        }
    }
}

/// A new session of the boot protocol, in `Init`, for settings that name the
/// port to use.
pub fn factory<P>(settings: Settings) -> (sm: SerialBootProtocol<P>)
    requires
        settings.path is Some,
    ensures
        sm.state is Init,
        sm.settings == settings,
        sm.wf(),
{
    SerialBootProtocol { settings, state: ProtocolState::Init }
}

/// The port that a state holds, if any.
pub open spec fn held_port<P>(state: ProtocolState<P>) -> Option<P> {
    match state {
        ProtocolState::TerminalMode { port } => Some(port),
        ProtocolState::KernelSendMode { port } => Some(port),
        _ => None,
    }
}

/// The port is handed on, never replaced: a step from a state that holds a
/// port leads to a state that holds that same port, or to `Done`, which holds
/// none. Only the step out of `Init` brings a port in, the one that was
/// opened.
pub proof fn lemma_port_moves_between_states<P>(
    state: ProtocolState<P>,
    settings: Settings,
    outcome: ProtocolOutcome<P>,
)
    ensures
        ({
            match protocol_event(state, settings, outcome) {
                Some(event) => match protocol_transition(kind_of(state), event) {
                    Some(next) => {
                        &&& held_port(state) is Some ==> held_port(next) == held_port(state)
                            || next is Done
                        &&& next is Done ==> held_port(next) is None
                        &&& state is Init && held_port(next) is Some ==> outcome
                            == ProtocolOutcome::Opened(held_port(next))
                    },
                    None => true,
                },
                None => true,
            }
        }),
{
}

} // verus!
