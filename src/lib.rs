//! Host side of a serial-link boot session with an embedded bootloader.
//!
//! The library holds the decisions of the session as verified state machines:
//! the device manager (which port to use and when), the boot protocol (terminal
//! relay and kernel push), the cancellable wait for a device, the detection of
//! the in-band trigger and the framing of the kernel transfer. Every machine
//! takes the result of the outside work (enumerating ports, reading the serial
//! line, a key press) as a plain value and says what to do next; the program
//! around the library performs that work.

mod kernel;
mod manager;
mod port_wait;
mod ports;
mod protocol;
mod settings;
mod terminal;

pub use kernel::{
    size_header, KernelPush, PushAction, PushError, PushEvent, PushPhase, ACK_POLL_LIMIT,
    IMAGE_CHUNK_LEN, KERNEL_SIZE_MAX,
};
pub use manager::{
    DeviceManager, DeviceManagerStateMachine, ManagerEvent, ManagerOutcome, ManagerState,
};
pub use port_wait::{
    watcher_step, ListenResult, PortWait, WaitAction, WaitPhase, WatcherAction, WAIT_POLL_SECS,
};
pub use ports::{
    check_requested_port, describe_port, port_path_of, starts_with, SELECT_POLL_SECS,
};
pub use protocol::{
    factory, DoneEvent, ExitEvent, ProtocolEvent, ProtocolOutcome, ProtocolState,
    ProtocolStateKind, SerialBootProtocol, SwitchToKernelSendModeEvent, SwitchToTerminalModeEvent,
    OPEN_RETRIES, OPEN_RETRY_PAUSE_MS,
};
pub use settings::{Settings, SettingsBuilder, SettingsView, DEFAULT_KERNEL_IMAGE};
pub use terminal::{
    chunk_len, scan_chunk, ChunkScan, RelayAction, RelayPhase, TerminalRelay, POLL_PAUSE_MS,
    READ_CHUNK_MAX, TRIGGER_BYTE,
};
