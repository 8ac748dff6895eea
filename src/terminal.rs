//! Terminal relay: what to read from the serial line, and the detection of the
//! in-band trigger that asks for a kernel push.

use vstd::prelude::*;

verus! {

/// The byte that the bootloader repeats to ask for a kernel.
pub const TRIGGER_BYTE: u8 = 3;

/// The largest chunk read from the serial line at once.
pub const READ_CHUNK_MAX: u32 = 4096;

/// The pause between two polls of the serial line, in milliseconds.
pub const POLL_PAUSE_MS: u64 = 100;

/// How many bytes equal to `b` end `s`.
pub open spec fn trailing_run(s: Seq<u8>, b: u8) -> nat
    decreases s.len(),
{
    if s.len() == 0 {
        0
    } else if s.last() == b {
        1 + trailing_run(s.drop_last(), b)
    } else {
        0
    }
}

/// `s` ends in exactly three trigger bytes: the last three bytes are
/// `0x03` and the byte before them, if any, is not.
pub open spec fn ends_with_trigger(s: Seq<u8>) -> bool {
    &&& s.len() >= 3
    &&& s[s.len() - 1] == TRIGGER_BYTE
    &&& s[s.len() - 2] == TRIGGER_BYTE
    &&& s[s.len() - 3] == TRIGGER_BYTE
    &&& s.len() == 3 || s[s.len() - 4] != TRIGGER_BYTE
}

/// The bytes of a chunk that are shown to the user: all of them, but the
/// trigger when the chunk ends with it.
pub open spec fn shown_part(s: Seq<u8>) -> Seq<u8> {
    if ends_with_trigger(s) {
        s.take(s.len() - 3)
    } else {
        s
    }
}

/// One chunk read from the serial line, split into what is shown and whether
/// it carried the trigger.
pub struct ChunkScan {
    /// The bytes to forward to the output, in the order they arrived.
    pub forward: Vec<u8>,
    /// The chunk ended in the trigger: the session switches to kernel push.
    pub trigger: bool,
}

/// How many bytes to read when `available` bytes wait on the serial line: all
/// of them, up to a chunk of 4096 bytes. Zero means that nothing waits.
pub fn chunk_len(available: u32) -> (n: usize)
    ensures
        n == if available <= READ_CHUNK_MAX {
            available
        } else {
            READ_CHUNK_MAX
        },
{
    if available <= READ_CHUNK_MAX {
        available as usize
    } else {
        READ_CHUNK_MAX as usize
    }
}

/// Splits a chunk read from the serial line: it triggers a kernel push when it
/// ends in exactly three `0x03` bytes, and those three bytes are not
/// forwarded.
pub fn scan_chunk(chunk: &[u8]) -> (r: ChunkScan)
    ensures
        r.trigger == ends_with_trigger(chunk@),
        r.forward@ == shown_part(chunk@),
{
    let n = chunk.len();
    let trigger = n >= 3 && chunk[n - 1] == TRIGGER_BYTE && chunk[n - 2] == TRIGGER_BYTE
        && chunk[n - 3] == TRIGGER_BYTE && (n == 3 || chunk[n - 4] != TRIGGER_BYTE);
    let shown = if trigger {
        n - 3
    } else {
        n
    };
    let mut forward: Vec<u8> = Vec::new();
    forward.extend_from_slice(&chunk[0..shown]);
    assert(forward@ =~= shown_part(chunk@));
    ChunkScan { forward, trigger }
}

/// Where the terminal relay stands.
#[derive(Debug, Clone, Copy, PartialEq, Eq, Structural)]
pub enum RelayPhase {
    /// Ask the port how many bytes wait.
    Query,
    /// Read this many bytes.
    Read { len: usize },
    /// Pause before asking again.
    Pause,
    /// The relay ended: the trigger came, or the port failed.
    Finished { trigger: bool, io_error: bool },
}

/// What the caller does next with the port.
#[derive(Debug, Clone, Copy, PartialEq, Eq, Structural)]
pub enum RelayAction {
    /// Ask the port how many bytes wait to be read.
    QueryAvailable,
    /// Read up to `len` bytes.
    Read { len: usize },
    /// Sleep `ms` milliseconds.
    Pause { ms: u64 },
    /// Leave terminal mode.
    Finish { trigger: bool, io_error: bool },
}

/// The relay of the serial line to the user in terminal mode. It never blocks
/// on a read: it asks how many bytes wait and reads only those, up to a chunk,
/// and pauses when none wait.
pub struct TerminalRelay {
    phase: RelayPhase,
}

impl TerminalRelay {
    /// Where the relay stands.
    pub closed spec fn spec_phase(&self) -> RelayPhase {
        self.phase
    }

    /// A relay about to ask the port.
    pub fn new() -> (r: TerminalRelay)
        ensures
            r.spec_phase() == RelayPhase::Query,
    {
        TerminalRelay { phase: RelayPhase::Query }
    }

    /// Where the relay stands.
    pub fn phase(&self) -> (p: RelayPhase)
        ensures
            p == self.spec_phase(),
    {
        self.phase
    }

    /// What the caller does next with the port.
    pub fn next_action(&self) -> (a: RelayAction)
        ensures
            a == match self.spec_phase() {
                RelayPhase::Query => RelayAction::QueryAvailable,
                RelayPhase::Read { len } => RelayAction::Read { len },
                RelayPhase::Pause => RelayAction::Pause { ms: POLL_PAUSE_MS },
                RelayPhase::Finished { trigger, io_error } => RelayAction::Finish {
                    trigger,
                    io_error,
                },
            },
    {
        match self.phase {
            RelayPhase::Query => RelayAction::QueryAvailable,
            RelayPhase::Read { len } => RelayAction::Read { len },
            RelayPhase::Pause => RelayAction::Pause { ms: POLL_PAUSE_MS },
            RelayPhase::Finished { trigger, io_error } => RelayAction::Finish { trigger, io_error },
        }
    }

    /// Takes in how many bytes wait on the port, or `None` when the port
    /// failed to tell. Outside `Query` nothing changes.
    pub fn on_available(&mut self, available: Option<u32>)
        ensures
            old(self).spec_phase() is Query ==> final(self).spec_phase() == match available {
                None => RelayPhase::Finished { trigger: false, io_error: true },
                Some(n) => if n == 0 {
                    RelayPhase::Pause
                } else {
                    RelayPhase::Read {
                        len: if n <= READ_CHUNK_MAX {
                            n as usize
                        } else {
                            READ_CHUNK_MAX as usize
                        },
                    }
                },
            },
            !(old(self).spec_phase() is Query) ==> final(self).spec_phase() == old(
                self,
            ).spec_phase(),
    {
        if let RelayPhase::Query = self.phase {
            self.phase = match available {
                None => RelayPhase::Finished { trigger: false, io_error: true },
                Some(n) => if n == 0 {
                    RelayPhase::Pause
                } else {
                    RelayPhase::Read { len: chunk_len(n) }
                },
            };
        }
    }

    /// Takes in the bytes read, or `None` when the read failed, and returns
    /// the bytes to show: the chunk without a trigger that ends it. Outside
    /// `Read` nothing changes and nothing is shown.
    pub fn on_read(&mut self, chunk: Option<&[u8]>) -> (shown: Vec<u8>)
        ensures
            old(self).spec_phase() is Read ==> match chunk {
                None => final(self).spec_phase() == (RelayPhase::Finished {
                    trigger: false,
                    io_error: true,
                }) && shown@ == Seq::<u8>::empty(),
                Some(c) => shown@ == shown_part(c@) && final(self).spec_phase() == if ends_with_trigger(
                    c@,
                ) {
                    RelayPhase::Finished { trigger: true, io_error: false }
                } else {
                    RelayPhase::Pause
                },
            },
            !(old(self).spec_phase() is Read) ==> final(self).spec_phase() == old(self).spec_phase()
                && shown@ == Seq::<u8>::empty(),
    {
        if let RelayPhase::Read { .. } = self.phase {
            match chunk {
                None => {
                    self.phase = RelayPhase::Finished { trigger: false, io_error: true };
                    Vec::new()
                },
                Some(c) => {
                    let scan = scan_chunk(c);
                    self.phase = if scan.trigger {
                        RelayPhase::Finished { trigger: true, io_error: false }
                    } else {
                        RelayPhase::Pause
                    };
                    scan.forward
                },
            }
        } else {
            Vec::new()
        }
    }

    /// The pause is over: ask the port again. Outside `Pause` nothing
    /// changes.
    pub fn on_paused(&mut self)
        ensures
            old(self).spec_phase() is Pause ==> final(self).spec_phase() == RelayPhase::Query,
            !(old(self).spec_phase() is Pause) ==> final(self).spec_phase() == old(
                self,
            ).spec_phase(),
    {
        if let RelayPhase::Pause = self.phase {
            self.phase = RelayPhase::Query;
        }
    }
}

proof fn lemma_trailing_run_of_tail(s: Seq<u8>, b: u8, k: nat)
    requires
        k <= s.len(),
        forall|i: int| s.len() - k <= i < s.len() ==> s[i] == b,
    ensures
        trailing_run(s, b) == k + trailing_run(s.take(s.len() - k), b),
    decreases k,
{
    if k > 0 {
        let t = s.drop_last();
        assert forall|i: int| t.len() - (k - 1) <= i < t.len() implies t[i] == b by {
            assert(t[i] == s[i]);
        }
        lemma_trailing_run_of_tail(t, b, (k - 1) as nat);
        assert(t.take(t.len() - (k - 1)) =~= s.take(s.len() - k));
    } else {
        assert(s.take(s.len() as int) =~= s);
    }
}

/// A chunk triggers a kernel push exactly when three `0x03` bytes, and not
/// more, end it: a run of `0x03` bytes elsewhere in the chunk, or a shorter or
/// longer run at its end, does not trigger.
pub proof fn lemma_trigger_is_exact_trailing_run(s: Seq<u8>)
    ensures
        ends_with_trigger(s) <==> trailing_run(s, TRIGGER_BYTE) == 3,
        s.len() == 0 || s.last() != TRIGGER_BYTE ==> !ends_with_trigger(s),
        ends_with_trigger(s) ==> shown_part(s) + seq![TRIGGER_BYTE, TRIGGER_BYTE, TRIGGER_BYTE]
            == s,
        !ends_with_trigger(s) ==> shown_part(s) == s,
{
    let b = TRIGGER_BYTE;
    if ends_with_trigger(s) {
        lemma_trailing_run_of_tail(s, b, 3);
        let rest = s.take(s.len() - 3);
        if rest.len() > 0 {
            assert(rest.last() == s[s.len() - 4]);
        }
        assert(shown_part(s) + seq![b, b, b] =~= s);
    }
    if trailing_run(s, b) == 3 {
        let s1 = s.drop_last();
        let s2 = s1.drop_last();
        assert(s.len() > 0 && s.last() == b && trailing_run(s1, b) == 2);
        assert(s1.len() > 0 && s1.last() == b && trailing_run(s2, b) == 1);
        assert(s2.len() > 0 && s2.last() == b);
        assert(s1.last() == s[s.len() - 2]);
        assert(s2.last() == s[s.len() - 3]);
        lemma_trailing_run_of_tail(s, b, 3);
        let rest = s.take(s.len() - 3);
        if rest.len() > 0 {
            assert(rest.last() == s[s.len() - 4]);
        }
    }
}

} // verus!
