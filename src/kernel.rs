//! The kernel transfer: a length header, a wait for the bootloader's `OK`, and
//! the image streamed in chunks. `KernelPush` decides each step and keeps the
//! record of what the port took; the caller performs the port operations and
//! reports how they went.

use vstd::prelude::*;

verus! {

/// The largest image that a four-byte length header can announce.
pub const KERNEL_SIZE_MAX: u64 = 0xFFFF_FFFF;

/// How many times the port is polled for the acknowledgement before the
/// attempt fails.
pub const ACK_POLL_LIMIT: u32 = 10;

/// The pause between two polls for the acknowledgement, in milliseconds.
pub const ACK_POLL_PAUSE_MS: u64 = 1000;

/// The pause before a chunk is written again after a write timed out, in
/// milliseconds.
pub const WRITE_RETRY_PAUSE_MS: u64 = 50;

/// The size of the chunks in which the image is streamed.
pub const IMAGE_CHUNK_LEN: usize = 1024;

/// The first byte of the acknowledgement, ASCII `O`.
pub const ACK_FIRST: u8 = 0x4F;

/// The second byte of the acknowledgement, ASCII `K`.
pub const ACK_SECOND: u8 = 0x4B;

/// The four bytes of `n`, least significant first.
pub open spec fn le_u32_bytes(n: nat) -> Seq<u8> {
    seq![
        (n % 256) as u8,
        (n / 256 % 256) as u8,
        (n / 65536 % 256) as u8,
        (n / 16777216 % 256) as u8,
    ]
}

/// The number that four bytes encode, least significant first.
pub open spec fn le_u32_value(b: Seq<u8>) -> nat {
    (b[0] + 256 * b[1] + 65536 * b[2] + 16777216 * b[3]) as nat
}

/// Why an attempt to push the kernel failed.
#[derive(Debug, Clone, Copy, PartialEq, Eq, Structural)]
pub enum PushError {
    /// The image does not fit the four-byte length header.
    ImageTooLarge,
    /// The bootloader did not answer the length with `OK` in time, or answered
    /// something else.
    NotAcknowledged,
    /// The port failed otherwise than by a write timeout.
    Io,
}

/// Where a kernel push stands.
#[derive(Debug, Clone, Copy, PartialEq, Eq, Structural)]
pub enum PushPhase {
    /// The port's input buffer is to be cleared of stale bytes.
    ClearInput,
    /// The length header is to be written.
    SendHeader,
    /// The header went out; the acknowledgement has been polled for `polls`
    /// times.
    AwaitAck { polls: u32 },
    /// The image is being written; `after_timeout` when the last write timed
    /// out.
    Streaming { after_timeout: bool },
    /// Every byte of the image was written.
    Complete,
    /// The attempt failed.
    Failed { error: PushError },
}

/// What the caller does next with the port.
#[derive(Debug)]
pub enum PushAction {
    /// Clear the port's input buffer.
    ClearInput,
    /// Write all of these bytes.
    WriteAll(Vec<u8>),
    /// Wait `pause_ms`, ask how many bytes wait on the port, and read two of
    /// them if two or more wait.
    PollAck { pause_ms: u64 },
    /// Wait `pause_ms`, then write these bytes once.
    Write { data: Vec<u8>, pause_ms: u64 },
    /// The push is done.
    Finished,
    /// The attempt failed.
    Failed(PushError),
}

/// How the port operation of the last action went.
#[derive(Debug, Clone, Copy, PartialEq, Eq, Structural)]
pub enum PushEvent {
    /// The input buffer was cleared, or all bytes were written.
    Done,
    /// Fewer than two bytes waited on the port, or the port could not tell.
    AckPending,
    /// These two bytes were read from the port.
    AckReceived(u8, u8),
    /// A write took this many bytes.
    Wrote(usize),
    /// A write timed out.
    TimedOut,
    /// The port failed otherwise.
    IoFailed,
}

/// What a `KernelPush` holds: its phase, the header and the image, how many
/// image bytes were written, the chunk size, and every byte that the port
/// took so far.
pub struct PushView {
    pub phase: PushPhase,
    pub header: Seq<u8>,
    pub image: Seq<u8>,
    pub offset: nat,
    pub chunk_len: nat,
    pub sent: Seq<u8>,
}

/// The end of the chunk that starts at `offset`.
pub open spec fn chunk_end(image_len: nat, offset: nat, chunk_len: nat) -> nat {
    if image_len - offset > chunk_len {
        offset + chunk_len
    } else {
        image_len
    }
}

impl PushView {
    /// The push of `image` in chunks of `chunk_len`, before any step.
    pub open spec fn start(image: Seq<u8>, chunk_len: nat) -> PushView {
        PushView {
            phase: PushPhase::ClearInput,
            header: le_u32_bytes(image.len()),
            image,
            offset: 0,
            chunk_len,
            sent: Seq::empty(),
        }
    }

    /// The bytes that the next image write hands to the port.
    pub open spec fn pending_chunk(self) -> Seq<u8> {
        self.image.subrange(self.offset as int, chunk_end(self.image.len(), self.offset, self.chunk_len) as int)
    }

    /// The push after the last action went as `event` says. An event that does
    /// not answer the current action changes nothing.
    pub open spec fn step(self, event: PushEvent) -> PushView {
        match self.phase {
            PushPhase::ClearInput => match event {
                PushEvent::Done => PushView { phase: PushPhase::SendHeader, ..self },
                PushEvent::IoFailed => PushView {
                    phase: PushPhase::Failed { error: PushError::Io },
                    ..self
                },
                _ => self,
            },
            PushPhase::SendHeader => match event {
                PushEvent::Done => PushView {
                    phase: PushPhase::AwaitAck { polls: 0 },
                    sent: self.sent + self.header,
                    ..self
                },
                PushEvent::IoFailed => PushView {
                    phase: PushPhase::Failed { error: PushError::Io },
                    ..self
                },
                _ => self,
            },
            PushPhase::AwaitAck { polls } => match event {
                PushEvent::AckPending => if polls + 1 >= ACK_POLL_LIMIT {
                    PushView { phase: PushPhase::Failed { error: PushError::NotAcknowledged }, ..self }
                } else {
                    PushView { phase: PushPhase::AwaitAck { polls: (polls + 1) as u32 }, ..self }
                },
                PushEvent::AckReceived(a, b) => if a != ACK_FIRST || b != ACK_SECOND {
                    PushView { phase: PushPhase::Failed { error: PushError::NotAcknowledged }, ..self }
                } else if self.image.len() == 0 {
                    PushView { phase: PushPhase::Complete, ..self }
                } else {
                    PushView { phase: PushPhase::Streaming { after_timeout: false }, ..self }
                },
                PushEvent::IoFailed => PushView {
                    phase: PushPhase::Failed { error: PushError::Io },
                    ..self
                },
                _ => self,
            },
            PushPhase::Streaming { .. } => match event {
                PushEvent::Wrote(n) => if n > self.pending_chunk().len() {
                    PushView { phase: PushPhase::Failed { error: PushError::Io }, ..self }
                } else if self.offset + n == self.image.len() {
                    PushView {
                        phase: PushPhase::Complete,
                        offset: (self.offset + n) as nat,
                        sent: self.sent + self.pending_chunk().take(n as int),
                        ..self
                    }
                } else {
                    PushView {
                        phase: PushPhase::Streaming { after_timeout: false },
                        offset: (self.offset + n) as nat,
                        sent: self.sent + self.pending_chunk().take(n as int),
                        ..self
                    }
                },
                PushEvent::TimedOut => PushView {
                    phase: PushPhase::Streaming { after_timeout: true },
                    ..self
                },
                PushEvent::IoFailed => PushView {
                    phase: PushPhase::Failed { error: PushError::Io },
                    ..self
                },
                _ => self,
            },
            _ => self,
        }
    }

    /// The push after each of `events` in turn.
    pub open spec fn run(self, events: Seq<PushEvent>) -> PushView
        decreases events.len(),
    {
        if events.len() == 0 {
            self
        } else {
            self.step(events[0]).run(events.drop_first())
        }
    }

    /// The push is consistent: the header encodes the image's length, and the
    /// port took the header and then the image bytes up to `offset`, as far as
    /// the phase says.
    pub open spec fn wf(self) -> bool {
        &&& self.chunk_len > 0
        &&& self.image.len() <= KERNEL_SIZE_MAX
        &&& self.header == le_u32_bytes(self.image.len())
        &&& self.offset <= self.image.len()
        &&& self.sent == Seq::<u8>::empty() || self.sent == self.header + self.image.take(
            self.offset as int,
        )
        &&& match self.phase {
            PushPhase::ClearInput => self.sent == Seq::<u8>::empty() && self.offset == 0,
            PushPhase::SendHeader => self.sent == Seq::<u8>::empty() && self.offset == 0,
            PushPhase::AwaitAck { polls } => self.sent == self.header && self.offset == 0 && polls
                < ACK_POLL_LIMIT,
            PushPhase::Streaming { .. } => self.sent == self.header + self.image.take(
                self.offset as int,
            ) && self.offset < self.image.len(),
            PushPhase::Complete => self.sent == self.header + self.image && self.offset
                == self.image.len(),
            PushPhase::Failed { .. } => true,
        }
    }
}

/// A kernel push in progress over one serial port. Every push that `new`
/// makes is well formed, and `handle` keeps it so.
pub struct KernelPush {
    phase: PushPhase,
    header: Vec<u8>,
    image: Vec<u8>,
    offset: usize,
    chunk_len: usize,
    sent: Ghost<Seq<u8>>,
}

impl View for KernelPush {
    type V = PushView;

    closed spec fn view(&self) -> PushView {
        PushView {
            phase: self.phase,
            header: self.header@,
            image: self.image@,
            offset: self.offset as nat,
            chunk_len: self.chunk_len as nat,
            sent: self.sent@,
        }
    }
}

/// The length header for an image of `size` bytes: the size in four bytes,
/// least significant first, or `ImageTooLarge` when it does not fit.
pub fn size_header(size: u64) -> (r: Result<Vec<u8>, PushError>)
    ensures
        size <= KERNEL_SIZE_MAX ==> (r matches Ok(h) && h@ == le_u32_bytes(size as nat)),
        size > KERNEL_SIZE_MAX ==> r == Err::<Vec<u8>, PushError>(PushError::ImageTooLarge),
{
    if size > KERNEL_SIZE_MAX {
        return Err(PushError::ImageTooLarge);
    }
    let n = size as u32;
    let mut h: Vec<u8> = Vec::new();
    h.push((n % 256) as u8);
    h.push((n / 256 % 256) as u8);
    h.push((n / 65536 % 256) as u8);
    h.push((n / 16777216 % 256) as u8);
    assert(h@ =~= le_u32_bytes(size as nat));
    Ok(h)
}

impl KernelPush {
    /// Starts the push of `image` in chunks of `chunk_len` bytes, or fails
    /// with `ImageTooLarge` when its length does not fit the header.
    pub fn new(image: Vec<u8>, chunk_len: usize) -> (r: Result<KernelPush, PushError>)
        requires
            chunk_len > 0,
        ensures
            image@.len() <= KERNEL_SIZE_MAX ==> (r matches Ok(p) && p@ == PushView::start(
                image@,
                chunk_len as nat,
            ) && p@.wf()),
            image@.len() > KERNEL_SIZE_MAX ==> (r matches Err(e) && e == PushError::ImageTooLarge),
    {
        match size_header(image.len() as u64) {
            Ok(header) => Ok(
                KernelPush {
                    phase: PushPhase::ClearInput,
                    header,
                    image,
                    offset: 0,
                    chunk_len,
                    sent: Ghost(Seq::empty()),
                },
            ),
            Err(e) => Err(e),
        }
    }

    /// The phase that the push is in.
    pub fn phase(&self) -> (p: PushPhase)
        ensures
            p == self@.phase,
    {
        self.phase
    }

    /// How many image bytes the port took so far.
    pub fn written(&self) -> (n: usize)
        ensures
            n == self@.offset,
    {
        self.offset
    }

    /// What the caller does next with the port.
    pub fn next_action(&self) -> (a: PushAction)
        requires
            self@.wf(),
        ensures
            match self@.phase {
                PushPhase::ClearInput => a is ClearInput,
                PushPhase::SendHeader => a matches PushAction::WriteAll(h) && h@ == self@.header,
                PushPhase::AwaitAck { polls } => a matches PushAction::PollAck { pause_ms } && pause_ms
                    == if polls == 0 {
                    0
                } else {
                    ACK_POLL_PAUSE_MS
                },
                PushPhase::Streaming { after_timeout } => a matches PushAction::Write {
                    data,
                    pause_ms,
                } && data@ == self@.pending_chunk() && pause_ms == if after_timeout {
                    WRITE_RETRY_PAUSE_MS
                } else {
                    0
                },
                PushPhase::Complete => a is Finished,
                PushPhase::Failed { error } => a matches PushAction::Failed(e) && e == error,
            },
    {
        match self.phase {
            PushPhase::ClearInput => PushAction::ClearInput,
            PushPhase::SendHeader => PushAction::WriteAll(self.header.clone()),
            PushPhase::AwaitAck { polls } => PushAction::PollAck {
                pause_ms: if polls == 0 {
                    0
                } else {
                    ACK_POLL_PAUSE_MS
                },
            },
            PushPhase::Streaming { after_timeout } => {
                let end = self.chunk_end();
                let mut data: Vec<u8> = Vec::new();
                data.extend_from_slice(&self.image.as_slice()[self.offset..end]);
                PushAction::Write {
                    data,
                    pause_ms: if after_timeout {
                        WRITE_RETRY_PAUSE_MS
                    } else {
                        0
                    },
                }
            },
            PushPhase::Complete => PushAction::Finished,
            PushPhase::Failed { error } => PushAction::Failed(error),
        }
    }

    fn chunk_end(&self) -> (end: usize)
        requires
            self@.wf(),
        ensures
            end == chunk_end(self@.image.len(), self@.offset, self@.chunk_len),
    {
        if self.image.len() - self.offset > self.chunk_len {
            self.offset + self.chunk_len
        } else {
            self.image.len()
        }
    }

    /// Takes in how the port operation of the last action went.
    pub fn handle(&mut self, event: PushEvent)
        requires
            old(self)@.wf(),
        ensures
            final(self)@ == old(self)@.step(event),
            final(self)@.wf(),
    {
        proof {
            lemma_step_keeps_wf(self@, event);
        }
        match self.phase {
            PushPhase::ClearInput => match event {
                PushEvent::Done => self.phase = PushPhase::SendHeader,
                PushEvent::IoFailed => self.phase = PushPhase::Failed { error: PushError::Io },
                _ => {},
            },
            PushPhase::SendHeader => match event {
                PushEvent::Done => {
                    self.phase = PushPhase::AwaitAck { polls: 0 };
                    self.sent = Ghost(self.sent@ + self.header@);
                },
                PushEvent::IoFailed => self.phase = PushPhase::Failed { error: PushError::Io },
                _ => {},
            },
            PushPhase::AwaitAck { polls } => match event {
                PushEvent::AckPending => {
                    if polls + 1 >= ACK_POLL_LIMIT {
                        self.phase = PushPhase::Failed { error: PushError::NotAcknowledged };
                    } else {
                        self.phase = PushPhase::AwaitAck { polls: polls + 1 };
                    }
                },
                PushEvent::AckReceived(a, b) => {
                    if a != ACK_FIRST || b != ACK_SECOND {
                        self.phase = PushPhase::Failed { error: PushError::NotAcknowledged };
                    } else if self.image.len() == 0 {
                        self.phase = PushPhase::Complete;
                    } else {
                        self.phase = PushPhase::Streaming { after_timeout: false };
                    }
                },
                PushEvent::IoFailed => self.phase = PushPhase::Failed { error: PushError::Io },
                _ => {},
            },
            PushPhase::Streaming { .. } => match event {
                PushEvent::Wrote(n) => {
                    let end = self.chunk_end();
                    if n > end - self.offset {
                        self.phase = PushPhase::Failed { error: PushError::Io };
                    } else {
                        let ghost chunk = self@.pending_chunk();
                        self.sent = Ghost(self.sent@ + chunk.take(n as int));
                        self.offset = self.offset + n;
                        if self.offset == self.image.len() {
                            self.phase = PushPhase::Complete;
                        } else {
                            self.phase = PushPhase::Streaming { after_timeout: false };
                        }
                    }
                },
                PushEvent::TimedOut => self.phase = PushPhase::Streaming { after_timeout: true },
                PushEvent::IoFailed => self.phase = PushPhase::Failed { error: PushError::Io },
                _ => {},
            },
            _ => {},
        }
    }
}

proof fn lemma_step_keeps_wf(v: PushView, event: PushEvent)
    requires
        v.wf(),
    ensures
        v.step(event).wf(),
{
    let w = v.step(event);
    if v.phase is Streaming && event is Wrote {
        let n = event->Wrote_0;
        if n <= v.pending_chunk().len() {
            let end = chunk_end(v.image.len(), v.offset, v.chunk_len);
            assert(v.image.take(v.offset as int) + v.pending_chunk().take(n as int) =~= v.image.take(
                (v.offset + n) as int,
            ));
            assert(v.header + v.image.take(v.offset as int) + v.pending_chunk().take(n as int)
                =~= v.header + v.image.take((v.offset + n) as int));
            if v.offset + n == v.image.len() {
                assert(v.image.take(v.image.len() as int) =~= v.image);
            }
        }
    }
    if v.phase is SendHeader && event is Done {
        assert(v.image.take(0) =~= Seq::<u8>::empty());
        assert(v.header + v.image.take(0) =~= v.header);
    }
    if v.phase is AwaitAck && event is AckReceived {
        assert(v.image.take(0) =~= Seq::<u8>::empty());
        assert(v.header + v.image.take(0) =~= v.header);
        if v.image.len() == 0 {
            assert(v.header + v.image =~= v.header);
        }
    }
}

proof fn lemma_run_keeps_wf(v: PushView, events: Seq<PushEvent>)
    requires
        v.wf(),
    ensures
        v.run(events).wf(),
        v.run(events).image == v.image,
        v.run(events).header == v.header,
    decreases events.len(),
{
    if events.len() > 0 {
        lemma_step_keeps_wf(v, events[0]);
        lemma_run_keeps_wf(v.step(events[0]), events.drop_first());
    }
}

/// Whatever the port reports, and whatever the chunk size, a push that
/// completes has handed the port exactly the length of the image in four
/// bytes, least significant first, followed by every byte of the image in
/// order.
pub proof fn lemma_complete_push_sends_header_then_image(
    image: Seq<u8>,
    chunk_len: nat,
    events: Seq<PushEvent>,
)
    requires
        chunk_len > 0,
        image.len() <= KERNEL_SIZE_MAX,
    ensures
        PushView::start(image, chunk_len).run(events).phase is Complete ==> PushView::start(
            image,
            chunk_len,
        ).run(events).sent == le_u32_bytes(image.len()) + image,
{
    lemma_run_keeps_wf(PushView::start(image, chunk_len), events);
}

/// The port never acknowledged the length with `OK`.
pub open spec fn never_acknowledged(events: Seq<PushEvent>) -> bool {
    forall|i: int|
        0 <= i < events.len() ==> #[trigger] events[i] != PushEvent::AckReceived(
            ACK_FIRST,
            ACK_SECOND,
        )
}

proof fn lemma_unacknowledged_run(v: PushView, events: Seq<PushEvent>)
    requires
        v.wf(),
        v.offset == 0,
        !(v.phase is Streaming),
        !(v.phase is Complete),
        never_acknowledged(events),
    ensures
        v.run(events).wf(),
        v.run(events).image == v.image,
        v.run(events).header == v.header,
        v.run(events).offset == 0,
        !(v.run(events).phase is Streaming),
        !(v.run(events).phase is Complete),
    decreases events.len(),
{
    if events.len() > 0 {
        lemma_step_keeps_wf(v, events[0]);
        assert(events[0] != PushEvent::AckReceived(ACK_FIRST, ACK_SECOND));
        let rest = events.drop_first();
        assert(never_acknowledged(rest)) by {
            assert forall|i: int| 0 <= i < rest.len() implies #[trigger] rest[i]
                != PushEvent::AckReceived(ACK_FIRST, ACK_SECOND) by {
                assert(rest[i] == events[i + 1]);
            }
        }
        lemma_unacknowledged_run(v.step(events[0]), rest);
    }
}

/// Without an `OK` from the bootloader no image byte reaches the port: the
/// port took the length header at most, and the push never completes.
pub proof fn lemma_no_image_without_ack(image: Seq<u8>, chunk_len: nat, events: Seq<PushEvent>)
    requires
        chunk_len > 0,
        image.len() <= KERNEL_SIZE_MAX,
        never_acknowledged(events),
    ensures
        PushView::start(image, chunk_len).run(events).offset == 0,
        PushView::start(image, chunk_len).run(events).sent == Seq::<u8>::empty()
            || PushView::start(image, chunk_len).run(events).sent == le_u32_bytes(image.len()),
        !(PushView::start(image, chunk_len).run(events).phase is Complete),
{
    let v = PushView::start(image, chunk_len);
    lemma_unacknowledged_run(v, events);
    let w = v.run(events);
    assert(image.take(0) =~= Seq::<u8>::empty());
    assert(w.header + image.take(0) =~= w.header);
}

/// `k` polls that found no acknowledgement.
pub open spec fn pending_polls(k: nat) -> Seq<PushEvent> {
    Seq::new(k, |i: int| PushEvent::AckPending)
}

/// While the acknowledgement is awaited, each poll that finds nothing counts
/// one try; the attempt fails exactly at the `ACK_POLL_LIMIT`-th such poll.
pub proof fn lemma_ack_wait_is_bounded(v: PushView, polls: u32, k: nat)
    requires
        v.phase == (PushPhase::AwaitAck { polls }),
        polls < ACK_POLL_LIMIT,
        polls + k <= ACK_POLL_LIMIT,
    ensures
        v.run(pending_polls(k)).phase == if polls + k < ACK_POLL_LIMIT {
            PushPhase::AwaitAck { polls: (polls + k) as u32 }
        } else {
            PushPhase::Failed { error: PushError::NotAcknowledged }
        },
        v.run(pending_polls(k)).sent == v.sent,
    decreases k,
{
    if k == 0 {
        assert(v.run(pending_polls(k)) == v);
    } else {
        let w = v.step(PushEvent::AckPending);
        assert(pending_polls(k)[0] == PushEvent::AckPending);
        assert(pending_polls(k).drop_first() =~= pending_polls((k - 1) as nat));
        assert(v.run(pending_polls(k)) == w.run(pending_polls((k - 1) as nat)));
        if polls + 1 >= ACK_POLL_LIMIT {
            assert(k == 1);
            assert(w.run(pending_polls(0)) == w);
        } else {
            lemma_ack_wait_is_bounded(w, (polls + 1) as u32, (k - 1) as nat);
        }
    }
}

/// What a port that does everything it is asked reports: it clears, writes
/// every byte it is given, and answers the length with `OK` at once.
pub open spec fn cooperative_event(v: PushView) -> PushEvent {
    match v.phase {
        PushPhase::AwaitAck { .. } => PushEvent::AckReceived(ACK_FIRST, ACK_SECOND),
        PushPhase::Streaming { .. } => PushEvent::Wrote(v.pending_chunk().len() as usize),
        _ => PushEvent::Done,
    }
}

/// The push after `n` steps against a cooperative port.
pub open spec fn cooperative_run(v: PushView, n: nat) -> PushView
    decreases n,
{
    if n == 0 {
        v
    } else {
        cooperative_run(v.step(cooperative_event(v)), (n - 1) as nat)
    }
}

proof fn lemma_complete_stays(v: PushView, n: nat)
    requires
        v.phase is Complete,
    ensures
        cooperative_run(v, n) == v,
    decreases n,
{
    if n > 0 {
        lemma_complete_stays(v, (n - 1) as nat);
    }
}

proof fn lemma_cooperative_streaming(v: PushView, k: nat)
    requires
        v.wf(),
        v.phase is Streaming,
        v.image.len() - v.offset <= k * v.chunk_len,
    ensures
        cooperative_run(v, k).phase is Complete,
        cooperative_run(v, k).wf(),
        cooperative_run(v, k).image == v.image,
    decreases k,
{
    let c = v.chunk_len;
    let rem = v.image.len() - v.offset;
    if k <= 1 {
        assert(k * c <= c) by (nonlinear_arith)
            requires
                k <= 1,
                c > 0,
        ;
    } else {
        assert((k - 1) * c == k * c - c) by (nonlinear_arith);
    }
    assert(k >= 1) by {
        if k == 0 {
            assert(k * c == 0) by (nonlinear_arith)
                requires
                    k == 0,
            ;
        }
    }
    let n = v.pending_chunk().len();
    let w = v.step(cooperative_event(v));
    lemma_step_keeps_wf(v, cooperative_event(v));
    assert((n as usize) as nat == n);
    if v.offset + n == v.image.len() {
        assert(w.phase is Complete);
        lemma_complete_stays(w, (k - 1) as nat);
    } else {
        assert(rem > c);
        assert(w.offset == v.offset + c);
        lemma_cooperative_streaming(w, (k - 1) as nat);
    }
}

/// A port that answers the length with `OK` at once and takes every write
/// whole brings the push, whatever the chunk size, to completion within
/// three steps plus one step per image byte; the port then holds the length
/// header followed by the image.
pub proof fn lemma_cooperative_port_completes(image: Seq<u8>, chunk_len: nat)
    requires
        chunk_len > 0,
        image.len() <= KERNEL_SIZE_MAX,
    ensures
        cooperative_run(PushView::start(image, chunk_len), 3 + image.len()).phase is Complete,
        cooperative_run(PushView::start(image, chunk_len), 3 + image.len()).sent == le_u32_bytes(
            image.len(),
        ) + image,
{
    let v0 = PushView::start(image, chunk_len);
    let v1 = v0.step(cooperative_event(v0));
    let v2 = v1.step(cooperative_event(v1));
    let v3 = v2.step(cooperative_event(v2));
    lemma_step_keeps_wf(v0, cooperative_event(v0));
    lemma_step_keeps_wf(v1, cooperative_event(v1));
    lemma_step_keeps_wf(v2, cooperative_event(v2));
    let n = image.len();
    assert(cooperative_run(v0, 3 + n) == cooperative_run(v1, 2 + n));
    assert(cooperative_run(v1, 2 + n) == cooperative_run(v2, 1 + n));
    assert(cooperative_run(v2, 1 + n) == cooperative_run(v3, n));
    if n == 0 {
        assert(v3.phase is Complete);
        assert(cooperative_run(v3, 0) == v3);
    } else {
        assert(v3.phase is Streaming);
        assert(n <= n * chunk_len) by (nonlinear_arith)
            requires
                chunk_len > 0,
        ;
        lemma_cooperative_streaming(v3, n);
    }
}

/// The bootloader reads the announced length back from the header.
pub proof fn lemma_header_decodes_to_length(n: nat)
    requires
        n <= KERNEL_SIZE_MAX,
    ensures
        le_u32_value(le_u32_bytes(n)) == n,
{
    let x = n as u32;
    assert(x == (x % 256) + 256 * ((x / 256) % 256) + 65536 * ((x / 65536) % 256) + 16777216 * ((x
        / 16777216) % 256)) by (bit_vector);
}

} // verus!
