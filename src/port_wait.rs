//! The wait for a named device, which the user may cancel.
//!
//! Two tasks share the wait. The poller enumerates the attached devices until
//! the expected path shows up, and between two enumerations listens on the
//! cancel channel for a bounded time. The watcher polls the keyboard for the
//! cancel key until the poller tells it that the device is ready. `PortWait`
//! holds the poller's decisions and `watcher_step` the watcher's.

use vstd::prelude::*;
use crate::ports::{check_requested_port, lists_port};

verus! {

/// How long the poller listens for a cancellation between two enumerations,
/// in seconds.
pub const WAIT_POLL_SECS: u64 = 2;

/// What the poller heard while it listened on the cancel channel.
#[derive(Debug, Clone, Copy, PartialEq, Eq, Structural)]
pub enum ListenResult {
    /// The watcher sent the cancellation.
    CancelReceived,
    /// Nothing came before the timeout.
    TimedOut,
    /// The watcher is gone: nothing can come any more.
    Disconnected,
}

/// Where the wait stands.
#[derive(Debug, Clone, Copy, PartialEq, Eq, Structural)]
pub enum WaitPhase {
    /// Still waiting; `listen` when the next thing to do is to listen for a
    /// cancellation rather than to enumerate.
    Waiting { listen: bool },
    /// The device is attached.
    Ready,
    /// The wait was cancelled.
    Cancelled,
}

/// What the poller does next.
#[derive(Debug, Clone, Copy, PartialEq, Eq, Structural)]
pub enum WaitAction {
    /// Enumerate the attached devices.
    Enumerate,
    /// Listen on the cancel channel for at most this many seconds.
    Listen { timeout_secs: u64 },
    /// Tell the watcher that the device is ready, join it, report ready.
    Ready,
    /// Join the watcher and report the cancellation.
    Cancelled,
}

/// One thing that the poller learns.
pub enum WaitStep {
    /// The enumerator listed these identifiers.
    Listed(Seq<String>),
    /// Listening on the cancel channel ended this way.
    Heard(ListenResult),
}

/// The step lists a device whose identifier starts with `path`.
pub open spec fn readies(step: WaitStep, path: Seq<char>) -> bool {
    step matches WaitStep::Listed(ports) && lists_port(ports, path)
}

/// The step ends the wait as cancelled.
pub open spec fn cancels(step: WaitStep) -> bool {
    step matches WaitStep::Heard(r) && (r == ListenResult::CancelReceived || r
        == ListenResult::Disconnected)
}

/// The phase after `step`, for a wait on `path`.
pub open spec fn wait_step(phase: WaitPhase, path: Seq<char>, step: WaitStep) -> WaitPhase {
    match phase {
        WaitPhase::Waiting { .. } => if readies(step, path) {
            WaitPhase::Ready
        } else if cancels(step) {
            WaitPhase::Cancelled
        } else {
            match step {
                WaitStep::Listed(_) => WaitPhase::Waiting { listen: true },
                WaitStep::Heard(_) => WaitPhase::Waiting { listen: false },
            }
        },
        _ => phase,
    }
}

/// The phase after each of `steps` in turn.
pub open spec fn wait_run(phase: WaitPhase, path: Seq<char>, steps: Seq<WaitStep>) -> WaitPhase
    decreases steps.len(),
{
    if steps.len() == 0 {
        phase
    } else {
        wait_run(wait_step(phase, path, steps[0]), path, steps.drop_first())
    }
}

/// The poller's side of the wait for the device at one path.
pub struct PortWait {
    path: String,
    phase: WaitPhase,
}

impl PortWait {
    /// The path waited for.
    pub closed spec fn spec_path(&self) -> Seq<char> {
        self.path@
    }

    /// Where the wait stands.
    pub closed spec fn spec_phase(&self) -> WaitPhase {
        self.phase
    }

    /// Starts waiting for the device at `path`, by enumerating.
    pub fn new(path: String) -> (w: PortWait)
        ensures
            w.spec_path() == path@,
            w.spec_phase() == (WaitPhase::Waiting { listen: false }),
    {
        PortWait { path, phase: WaitPhase::Waiting { listen: false } }
    }

    /// The path waited for.
    pub fn path(&self) -> (p: &str)
        ensures
            p@ == self.spec_path(),
    {
        self.path.as_str()
    }

    /// Where the wait stands.
    pub fn phase(&self) -> (p: WaitPhase)
        ensures
            p == self.spec_phase(),
    {
        self.phase
    }

    /// What the poller does next.
    pub fn next_action(&self) -> (a: WaitAction)
        ensures
            a == match self.spec_phase() {
                WaitPhase::Waiting { listen } => if listen {
                    WaitAction::Listen { timeout_secs: WAIT_POLL_SECS }
                } else {
                    WaitAction::Enumerate
                },
                WaitPhase::Ready => WaitAction::Ready,
                WaitPhase::Cancelled => WaitAction::Cancelled,
            },
    {
        match self.phase {
            WaitPhase::Waiting { listen } => if listen {
                WaitAction::Listen { timeout_secs: WAIT_POLL_SECS }
            } else {
                WaitAction::Enumerate
            },
            WaitPhase::Ready => WaitAction::Ready,
            WaitPhase::Cancelled => WaitAction::Cancelled,
        }
    }

    /// Takes in the identifiers that the enumerator listed.
    pub fn on_listing(&mut self, ports: &[String])
        ensures
            final(self).spec_path() == old(self).spec_path(),
            final(self).spec_phase() == wait_step(
                old(self).spec_phase(),
                old(self).spec_path(),
                WaitStep::Listed(ports@),
            ),
    {
        if let WaitPhase::Waiting { .. } = self.phase {
            if check_requested_port(ports, self.path.as_str()) {
                self.phase = WaitPhase::Ready;
            } else {
                self.phase = WaitPhase::Waiting { listen: true };
            }
        }
    }

    /// Takes in how listening on the cancel channel ended.
    pub fn on_listen(&mut self, heard: ListenResult)
        ensures
            final(self).spec_path() == old(self).spec_path(),
            final(self).spec_phase() == wait_step(
                old(self).spec_phase(),
                old(self).spec_path(),
                WaitStep::Heard(heard),
            ),
    {
        if let WaitPhase::Waiting { .. } = self.phase {
            match heard {
                ListenResult::TimedOut => self.phase = WaitPhase::Waiting { listen: false },
                _ => self.phase = WaitPhase::Cancelled,
            }
        }
    }
}

/// What the watcher does after one check.
#[derive(Debug, Clone, Copy, PartialEq, Eq, Structural)]
pub enum WatcherAction {
    /// Check again.
    KeepWatching,
    /// Send the cancellation to the poller, then stop.
    SendCancel,
    /// Stop: the poller no longer waits.
    Stop,
}

/// The watcher's decision after one check.
pub open spec fn watcher_decision(done_received: bool, cancel_key: bool) -> WatcherAction {
    if done_received {
        WatcherAction::Stop
    } else if cancel_key {
        WatcherAction::SendCancel
    } else {
        WatcherAction::KeepWatching
    }
}

/// The watcher's decision after one check: it stops as soon as the poller
/// said that the device is ready, sends the cancellation when the cancel key
/// was pressed, and keeps watching otherwise.
pub fn watcher_step(done_received: bool, cancel_key: bool) -> (a: WatcherAction)
    ensures
        a == watcher_decision(done_received, cancel_key),
{
    if done_received {
        WatcherAction::Stop
    } else if cancel_key {
        WatcherAction::SendCancel
    } else {
        WatcherAction::KeepWatching
    }
}

proof fn lemma_finished_phase_stays(phase: WaitPhase, path: Seq<char>, steps: Seq<WaitStep>)
    requires
        !(phase is Waiting),
    ensures
        wait_run(phase, path, steps) == phase,
    decreases steps.len(),
{
    if steps.len() > 0 {
        lemma_finished_phase_stays(phase, path, steps.drop_first());
    }
}

/// From any waiting phase, the wait ends on the first step that decides it:
/// it is ready exactly when some step lists the device with no cancellation
/// before it, and cancelled exactly when a cancellation comes with no such
/// listing before it.
pub proof fn lemma_wait_outcome(phase: WaitPhase, path: Seq<char>, steps: Seq<WaitStep>)
    requires
        phase is Waiting,
    ensures
        wait_run(phase, path, steps) == WaitPhase::Ready <==> exists|i: int|
            0 <= i < steps.len() && readies(#[trigger] steps[i], path) && forall|j: int|
                0 <= j < i ==> !cancels(#[trigger] steps[j]),
        wait_run(phase, path, steps) == WaitPhase::Cancelled <==> exists|i: int|
            0 <= i < steps.len() && cancels(#[trigger] steps[i]) && forall|j: int|
                0 <= j < i ==> !readies(#[trigger] steps[j], path),
        wait_run(phase, path, steps) is Waiting <==> forall|i: int|
            0 <= i < steps.len() ==> !readies(#[trigger] steps[i], path) && !cancels(steps[i]),
    decreases steps.len(),
{
    if steps.len() > 0 {
        let s0 = steps[0];
        let rest = steps.drop_first();
        let next = wait_step(phase, path, s0);
        assert forall|i: int| 0 <= i < rest.len() implies rest[i] == steps[i + 1] by {}
        if readies(s0, path) {
            lemma_finished_phase_stays(next, path, rest);
            assert(!cancels(s0));
            assert(readies(steps[0], path));
        } else if cancels(s0) {
            lemma_finished_phase_stays(next, path, rest);
            assert(cancels(steps[0]));
        } else {
            lemma_wait_outcome(next, path, rest);
            if wait_run(next, path, rest) == WaitPhase::Ready {
                let i = choose|i: int|
                    0 <= i < rest.len() && readies(#[trigger] rest[i], path) && forall|j: int|
                        0 <= j < i ==> !cancels(#[trigger] rest[j]);
                assert(readies(steps[i + 1], path));
                assert forall|j: int| 0 <= j < i + 1 implies !cancels(#[trigger] steps[j]) by {
                    if j > 0 {
                        assert(steps[j] == rest[j - 1]);
                    }
                }
            }
            if exists|i: int|
                0 <= i < steps.len() && readies(#[trigger] steps[i], path) && forall|j: int|
                    0 <= j < i ==> !cancels(#[trigger] steps[j]) {
                let i = choose|i: int|
                    0 <= i < steps.len() && readies(#[trigger] steps[i], path) && forall|j: int|
                        0 <= j < i ==> !cancels(#[trigger] steps[j]);
                assert(i > 0);
                assert(readies(rest[i - 1], path));
                assert forall|j: int| 0 <= j < i - 1 implies !cancels(#[trigger] rest[j]) by {
                    assert(rest[j] == steps[j + 1]);
                }
            }
            if wait_run(next, path, rest) == WaitPhase::Cancelled {
                let i = choose|i: int|
                    0 <= i < rest.len() && cancels(#[trigger] rest[i]) && forall|j: int|
                        0 <= j < i ==> !readies(#[trigger] rest[j], path);
                assert(cancels(steps[i + 1]));
                assert forall|j: int| 0 <= j < i + 1 implies !readies(#[trigger] steps[j], path) by {
                    if j > 0 {
                        assert(steps[j] == rest[j - 1]);
                    }
                }
            }
            if exists|i: int|
                0 <= i < steps.len() && cancels(#[trigger] steps[i]) && forall|j: int|
                    0 <= j < i ==> !readies(#[trigger] steps[j], path) {
                let i = choose|i: int|
                    0 <= i < steps.len() && cancels(#[trigger] steps[i]) && forall|j: int|
                        0 <= j < i ==> !readies(#[trigger] steps[j], path);
                assert(i > 0);
                assert(cancels(rest[i - 1]));
                assert forall|j: int| 0 <= j < i - 1 implies !readies(#[trigger] rest[j], path) by {
                    assert(rest[j] == steps[j + 1]);
                }
            }
            if wait_run(next, path, rest) is Waiting {
                assert forall|i: int| 0 <= i < steps.len() implies !readies(
                    #[trigger] steps[i],
                    path,
                ) && !cancels(steps[i]) by {
                    if i > 0 {
                        assert(steps[i] == rest[i - 1]);
                    }
                }
            }
            if forall|i: int|
                0 <= i < steps.len() ==> !readies(#[trigger] steps[i], path) && !cancels(
                    steps[i],
                ) {
                assert forall|i: int| 0 <= i < rest.len() implies !readies(
                    #[trigger] rest[i],
                    path,
                ) && !cancels(rest[i]) by {
                    assert(rest[i] == steps[i + 1]);
                }
            }
        }
    }
}

/// Whatever the enumerator lists, the wait becomes ready exactly when a
/// listing holds an identifier that starts with the expected path, and not
/// before: until such a listing, the wait is not ready.
pub proof fn lemma_ready_exactly_when_listed(path: Seq<char>, steps: Seq<WaitStep>, k: int)
    requires
        forall|i: int| 0 <= i < steps.len() ==> !cancels(#[trigger] steps[i]),
        0 <= k <= steps.len(),
    ensures
        wait_run(WaitPhase::Waiting { listen: false }, path, steps.take(k)) == WaitPhase::Ready
            <==> exists|i: int| 0 <= i < k && readies(#[trigger] steps[i], path),
{
    let pre = steps.take(k);
    lemma_wait_outcome(WaitPhase::Waiting { listen: false }, path, pre);
    if exists|i: int| 0 <= i < k && readies(#[trigger] steps[i], path) {
        let i = choose|i: int| 0 <= i < k && readies(#[trigger] steps[i], path);
        assert(readies(pre[i], path));
        assert forall|j: int| 0 <= j < i implies !cancels(#[trigger] pre[j]) by {
            assert(pre[j] == steps[j]);
        }
    }
    if wait_run(WaitPhase::Waiting { listen: false }, path, pre) == WaitPhase::Ready {
        let i = choose|i: int|
            0 <= i < pre.len() && readies(#[trigger] pre[i], path) && forall|j: int|
                0 <= j < i ==> !cancels(#[trigger] pre[j]);
        assert(readies(steps[i], path));
    }
}

/// A cancellation that comes before any listing of the device ends the wait
/// as cancelled; a listing of the device that comes before any cancellation
/// ends it as ready.
pub proof fn lemma_first_of_ready_and_cancel_wins(
    path: Seq<char>,
    steps: Seq<WaitStep>,
    i: int,
)
    requires
        0 <= i < steps.len(),
    ensures
        cancels(steps[i]) && (forall|j: int| 0 <= j < i ==> !readies(#[trigger] steps[j], path))
            ==> wait_run(WaitPhase::Waiting { listen: false }, path, steps) == WaitPhase::Cancelled,
        readies(steps[i], path) && (forall|j: int| 0 <= j < i ==> !cancels(#[trigger] steps[j]))
            ==> wait_run(WaitPhase::Waiting { listen: false }, path, steps) == WaitPhase::Ready,
{
    lemma_wait_outcome(WaitPhase::Waiting { listen: false }, path, steps);
}

/// Both tasks of the wait and the two channels between them.
pub struct WaitSystem {
    /// The poller's phase.
    pub phase: WaitPhase,
    /// The poller told the watcher that the device is ready.
    pub done_sent: bool,
    /// A cancellation waits in the cancel channel.
    pub cancel_pending: bool,
    /// The watcher still runs.
    pub watcher_running: bool,
}

/// One move of one of the two tasks.
pub enum SystemMove {
    /// The poller enumerates and the enumerator lists these identifiers.
    PollerLists(Seq<String>),
    /// The poller listens on the cancel channel until the timeout.
    PollerListens,
    /// The poller, finding the device ready, tells the watcher.
    PollerNotifies,
    /// The watcher checks the done channel and the keyboard.
    WatcherChecks { cancel_key: bool },
}

/// What the poller hears when it listens: the pending cancellation, else the
/// end of the channel once the watcher is gone, else the timeout.
pub open spec fn heard(sys: WaitSystem) -> ListenResult {
    if sys.cancel_pending {
        ListenResult::CancelReceived
    } else if !sys.watcher_running {
        ListenResult::Disconnected
    } else {
        ListenResult::TimedOut
    }
}

/// The system after one move, for a wait on `path`. A move that its task
/// cannot make now changes nothing.
pub open spec fn system_step(sys: WaitSystem, path: Seq<char>, m: SystemMove) -> WaitSystem {
    match m {
        SystemMove::PollerLists(ports) => if sys.phase == (WaitPhase::Waiting { listen: false }) {
            WaitSystem { phase: wait_step(sys.phase, path, WaitStep::Listed(ports)), ..sys }
        } else {
            sys
        },
        SystemMove::PollerListens => if sys.phase == (WaitPhase::Waiting { listen: true }) {
            WaitSystem {
                phase: wait_step(sys.phase, path, WaitStep::Heard(heard(sys))),
                cancel_pending: false,
                ..sys
            }
        } else {
            sys
        },
        SystemMove::PollerNotifies => if sys.phase == WaitPhase::Ready {
            WaitSystem { done_sent: true, ..sys }
        } else {
            sys
        },
        SystemMove::WatcherChecks { cancel_key } => if sys.watcher_running {
            match watcher_decision(sys.done_sent, cancel_key) {
                WatcherAction::Stop => WaitSystem { watcher_running: false, ..sys },
                WatcherAction::SendCancel => WaitSystem {
                    watcher_running: false,
                    cancel_pending: true,
                    ..sys
                },
                WatcherAction::KeepWatching => sys,
            }
        } else {
            sys
        },
    }
}

/// The system after each of `moves` in turn.
pub open spec fn system_run(sys: WaitSystem, path: Seq<char>, moves: Seq<SystemMove>) -> WaitSystem
    decreases moves.len(),
{
    if moves.len() == 0 {
        sys
    } else {
        system_run(system_step(sys, path, moves[0]), path, moves.drop_first())
    }
}

/// Both tasks at the start of the wait.
pub open spec fn system_start() -> WaitSystem {
    WaitSystem {
        phase: WaitPhase::Waiting { listen: false },
        done_sent: false,
        cancel_pending: false,
        watcher_running: true,
    }
}

/// What holds in every state that the two tasks reach.
pub open spec fn system_inv(sys: WaitSystem) -> bool {
    &&& sys.cancel_pending ==> !sys.watcher_running
    &&& sys.phase == WaitPhase::Cancelled ==> !sys.watcher_running
    &&& sys.done_sent ==> sys.phase == WaitPhase::Ready
}

proof fn lemma_system_run_keeps_inv(sys: WaitSystem, path: Seq<char>, moves: Seq<SystemMove>)
    requires
        system_inv(sys),
    ensures
        system_inv(system_run(sys, path, moves)),
    decreases moves.len(),
{
    if moves.len() > 0 {
        lemma_system_run_keeps_inv(system_step(sys, path, moves[0]), path, moves.drop_first());
    }
}

/// However the two tasks interleave, neither is left waiting for the other.
/// Once the poller ends cancelled, the watcher has already stopped. Once the
/// poller found the device and told the watcher, the watcher stops at its next
/// check, whatever the keyboard says. Once the watcher sent the cancellation,
/// it has stopped, and the poller's next listen ends the wait unless the
/// device was found first.
pub proof fn lemma_wait_tasks_terminate(
    path: Seq<char>,
    moves: Seq<SystemMove>,
    cancel_key: bool,
)
    ensures
        ({
            let sys = system_run(system_start(), path, moves);
            &&& sys.phase == WaitPhase::Cancelled ==> !sys.watcher_running
            &&& sys.phase == WaitPhase::Ready && sys.done_sent ==> !system_step(
                sys,
                path,
                SystemMove::WatcherChecks { cancel_key },
            ).watcher_running
            &&& sys.cancel_pending ==> !sys.watcher_running
            &&& sys.cancel_pending && sys.phase == (WaitPhase::Waiting { listen: true })
                ==> system_step(sys, path, SystemMove::PollerListens).phase
                == WaitPhase::Cancelled
        }),
{
    lemma_system_run_keeps_inv(system_start(), path, moves);
}

} // verus!
