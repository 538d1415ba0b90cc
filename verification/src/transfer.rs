//! The loops of a command or a transfer, one decision at a time.
//!
//! A worker that runs a command or moves a file alternates between the
//! transport and this module. Before each read or write it asks whether
//! the operation was cancelled; after it, it reports what the transport
//! gave. Cancellation is cooperative: it is seen at the next round and
//! then ends the operation as cancelled, whatever was moved before.

use vstd::prelude::*;

verus! {

/// Pause after a read or write that would have blocked, in milliseconds.
pub const STALL_PAUSE_MILLIS: u64 = 10;

/// Least time between two progress events of one transfer, in
/// milliseconds.
pub const PROGRESS_INTERVAL_MILLIS: u64 = 100;

/// How a run stands.
#[derive(Clone, Copy, Debug, PartialEq, Eq, Structural)]
pub enum RunState {
    /// More rounds follow.
    Running,
    /// The source is exhausted: success.
    Completed,
    /// The cancellation flag was seen.
    Cancelled,
    /// The transport failed.
    Failed,
}

/// What the caller does next.
#[derive(Clone, Copy, Debug, PartialEq, Eq, Structural)]
pub enum Next {
    /// Start the next round at once.
    Again,
    /// Pause, then start the next round.
    Pause { millis: u64 },
    /// The run is over.
    Stop,
}

/// What one read gave.
#[derive(Debug, Clone)]
pub enum ReadEvent {
    /// These bytes; never empty.
    Data(Vec<u8>),
    /// The end of the stream.
    Eof,
    /// Nothing yet.
    WouldBlock,
    /// An error, with its text.
    Failed(String),
}

/// A read as a mathematical value.
pub ghost enum ReadModel {
    Data(Seq<u8>),
    Eof,
    WouldBlock,
    Failed(Seq<char>),
}

impl View for ReadEvent {
    type V = ReadModel;

    open spec fn view(&self) -> ReadModel {
        match *self {
            ReadEvent::Data(bytes) => ReadModel::Data(bytes@),
            ReadEvent::Eof => ReadModel::Eof,
            ReadEvent::WouldBlock => ReadModel::WouldBlock,
            ReadEvent::Failed(text) => ReadModel::Failed(text@),
        }
    }
}

/// The run of a command as a mathematical value.
pub ghost struct ExecModel {
    pub state: RunState,
    /// What the command has written so far.
    pub output: Seq<u8>,
    /// The text of the failure, where the run failed.
    pub error: Seq<char>,
}

/// The state before the first round.
pub open spec fn spec_exec_start() -> ExecModel {
    ExecModel { state: RunState::Running, output: Seq::empty(), error: Seq::empty() }
}

/// The run after the cancellation flag was looked at. A run that sees
/// the flag ends as cancelled and forgets its output.
pub open spec fn spec_exec_round(m: ExecModel, cancelled: bool) -> ExecModel {
    if m.state == RunState::Running && cancelled {
        ExecModel { state: RunState::Cancelled, output: Seq::empty(), ..m }
    } else {
        m
    }
}

/// The run after a read.
pub open spec fn spec_exec_absorb(m: ExecModel, event: ReadModel) -> ExecModel {
    if m.state != RunState::Running {
        m
    } else {
        match event {
            ReadModel::Data(bytes) => ExecModel { output: m.output + bytes, ..m },
            ReadModel::Eof => ExecModel { state: RunState::Completed, ..m },
            ReadModel::WouldBlock => m,
            ReadModel::Failed(text) => ExecModel {
                state: RunState::Failed,
                output: Seq::empty(),
                error: text,
                ..m
            },
        }
    }
}

/// What the caller does after a read.
pub open spec fn spec_exec_next(m: ExecModel, event: ReadModel) -> Next {
    if m.state != RunState::Running {
        Next::Stop
    } else {
        match event {
            ReadModel::Data(_) => Next::Again,
            ReadModel::WouldBlock => Next::Pause { millis: STALL_PAUSE_MILLIS },
            _ => Next::Stop,
        }
    }
}

/// How a finished operation ended.
#[derive(Debug, Clone)]
pub enum Outcome {
    /// Success, with what was collected.
    Completed(Vec<u8>),
    /// The operation was cancelled; nothing is reported as done.
    Cancelled,
    /// The operation failed, with the text of the error.
    Failed(String),
}

/// The run of one remote command: its output is collected until the
/// stream ends.
pub struct ExecRun {
    state: RunState,
    output: Vec<u8>,
    error: String,
}

impl View for ExecRun {
    type V = ExecModel;

    closed spec fn view(&self) -> ExecModel {
        ExecModel { state: self.state, output: self.output@, error: self.error@ }
    }
}

impl ExecRun {
    /// A run that has read nothing yet.
    pub fn new() -> (run: Self)
        ensures
            run@ == spec_exec_start(),
    {
        ExecRun { state: RunState::Running, output: Vec::new(), error: String::new() }
    }

    /// How the run stands.
    pub fn state(&self) -> (state: RunState)
        ensures
            state == self@.state,
    {
        self.state
    }

    /// Opens a round: looks at the cancellation flag before anything is
    /// read. Returns whether the read is to be made.
    pub fn begin_round(&mut self, cancelled: bool) -> (proceed: bool)
        ensures
            final(self)@ == spec_exec_round(old(self)@, cancelled),
            proceed == (final(self)@.state == RunState::Running),
    {
        if self.state == RunState::Running && cancelled {
            self.state = RunState::Cancelled;
            self.output = Vec::new();
        }
        self.state == RunState::Running
    }

    /// Takes in what the read of this round gave.
    pub fn absorb(&mut self, event: ReadEvent) -> (next: Next)
        ensures
            final(self)@ == spec_exec_absorb(old(self)@, event@),
            next == spec_exec_next(old(self)@, event@),
    {
        if self.state != RunState::Running {
            return Next::Stop;
        }
        match event {
            ReadEvent::Data(mut bytes) => {
                self.output.append(&mut bytes);
                Next::Again
            },
            ReadEvent::Eof => {
                self.state = RunState::Completed;
                Next::Stop
            },
            ReadEvent::WouldBlock => Next::Pause { millis: STALL_PAUSE_MILLIS },
            ReadEvent::Failed(text) => {
                self.state = RunState::Failed;
                self.output = Vec::new();
                self.error = text;
                Next::Stop
            },
        }
    }

    /// The outcome of a run that is over.
    pub fn finish(self) -> (outcome: Outcome)
        requires
            self@.state != RunState::Running,
        ensures
            match self@.state {
                RunState::Completed => outcome matches Outcome::Completed(bytes) && bytes@
                    == self@.output,
                RunState::Cancelled => outcome is Cancelled,
                _ => outcome matches Outcome::Failed(text) && text@ == self@.error,
            },
    {
        match self.state {
            RunState::Completed => Outcome::Completed(self.output),
            RunState::Cancelled => Outcome::Cancelled,
            _ => Outcome::Failed(self.error),
        }
    }
}

/// One round of a run: the flag as it stood before the read, and what
/// the read gave.
pub ghost struct Round {
    pub cancelled: bool,
    pub event: ReadModel,
}

/// The run after the first `n` of `rounds`.
pub open spec fn spec_exec_run(rounds: Seq<Round>, n: int) -> ExecModel
    decreases n,
{
    if n <= 0 {
        spec_exec_start()
    } else {
        spec_exec_absorb(
            spec_exec_round(spec_exec_run(rounds, n - 1), rounds[n - 1].cancelled),
            rounds[n - 1].event,
        )
    }
}

/// The bytes that the first `n` rounds read.
pub open spec fn spec_read_so_far(rounds: Seq<Round>, n: int) -> Seq<u8>
    decreases n,
{
    if n <= 0 {
        Seq::empty()
    } else {
        match rounds[n - 1].event {
            ReadModel::Data(bytes) => spec_read_so_far(rounds, n - 1) + bytes,
            _ => spec_read_so_far(rounds, n - 1),
        }
    }
}

/// A command whose cancellation flag is set before anything was read
/// ends as cancelled, with no output, whatever the transport gives
/// afterwards. And a command that ends in success was cancelled in no
/// round it went through, and its output is all that was read.
pub proof fn lemma_exec_cancel(rounds: Seq<Round>, n: int)
    requires
        0 <= n <= rounds.len(),
    ensures
        n >= 1 && rounds[0].cancelled ==> spec_exec_run(rounds, n).state == RunState::Cancelled
            && spec_exec_run(rounds, n).output.len() == 0,
        spec_exec_run(rounds, n).state == RunState::Running ==> spec_exec_run(rounds, n).output
            == spec_read_so_far(rounds, n) && forall|k: int|
            0 <= k < n ==> !(#[trigger] rounds[k]).cancelled,
        spec_exec_run(rounds, n).state == RunState::Completed ==> exists|last: int|
            0 <= last < n && rounds[last].event is Eof && spec_exec_run(rounds, n).output
                == spec_read_so_far(rounds, last) && forall|k: int|
                0 <= k <= last ==> !(#[trigger] rounds[k]).cancelled,
        spec_exec_run(rounds, n).state == RunState::Cancelled ==> spec_exec_run(
            rounds,
            n,
        ).output.len() == 0,
    decreases n,
{
    if n > 0 {
        lemma_exec_cancel(rounds, n - 1);
        let before = spec_exec_run(rounds, n - 1);
        let after = spec_exec_run(rounds, n);
        if after.state == RunState::Completed {
            if before.state == RunState::Completed {
                let last = choose|last: int|
                    0 <= last < n - 1 && rounds[last].event is Eof && before.output
                        == spec_read_so_far(rounds, last) && forall|k: int|
                        0 <= k <= last ==> !(#[trigger] rounds[k]).cancelled;
                assert(0 <= last < n && rounds[last].event is Eof);
            } else {
                assert(before.state == RunState::Running);
                assert(rounds[n - 1].event is Eof);
                assert(after.output == spec_read_so_far(rounds, n - 1));
            }
        }
    }
}

/// A transfer in flight as a mathematical value.
pub ghost struct TransferModel {
    pub state: RunState,
    /// Bytes moved so far.
    pub transferred: nat,
    /// Bytes to move in all.
    pub total: nat,
    /// Time of the last progress event, in milliseconds.
    pub last_emit: nat,
}

/// The state of a transfer of `total` bytes that starts at `now`.
pub open spec fn spec_transfer_start(total: nat, now: nat) -> TransferModel {
    TransferModel { state: RunState::Running, transferred: 0, total, last_emit: now }
}

/// The state after the cancellation flag was read at the start of a round.
pub open spec fn spec_transfer_round(m: TransferModel, cancelled: bool) -> TransferModel {
    if m.state == RunState::Running && cancelled {
        TransferModel { state: RunState::Cancelled, ..m }
    } else {
        m
    }
}

/// Whether a progress event is due at `now`: more than the interval has
/// passed since the last one.
pub open spec fn spec_progress_due(m: TransferModel, now: nat) -> bool {
    now > m.last_emit + PROGRESS_INTERVAL_MILLIS
}

/// The transfer after `n` more bytes were moved at time `now`.
pub open spec fn spec_transfer_moved(m: TransferModel, n: nat, now: nat) -> TransferModel {
    if m.state != RunState::Running {
        m
    } else {
        TransferModel {
            transferred: m.transferred + n,
            last_emit: if spec_progress_due(m, now) {
                now
            } else {
                m.last_emit
            },
            ..m
        }
    }
}

/// The transfer after its source was exhausted: complete, and counted
/// as moved in full.
pub open spec fn spec_transfer_finished(m: TransferModel) -> TransferModel {
    if m.state != RunState::Running {
        m
    } else {
        TransferModel { state: RunState::Completed, transferred: m.total, ..m }
    }
}

/// The state after a failure.
pub open spec fn spec_transfer_failed(m: TransferModel) -> TransferModel {
    if m.state != RunState::Running {
        m
    } else {
        TransferModel { state: RunState::Failed, ..m }
    }
}

/// A streamed upload or download: byte counts, cancellation and the
/// cadence of progress events.
pub struct TransferRun {
    state: RunState,
    transferred: u64,
    total: u64,
    last_emit_millis: u64,
}

impl View for TransferRun {
    type V = TransferModel;

    closed spec fn view(&self) -> TransferModel {
        TransferModel {
            state: self.state,
            transferred: self.transferred as nat,
            total: self.total as nat,
            last_emit: self.last_emit_millis as nat,
        }
    }
}

impl TransferRun {
    /// A transfer of `total` bytes that starts at time `now_millis`.
    pub fn new(total: u64, now_millis: u64) -> (run: Self)
        ensures
            run@ == spec_transfer_start(total as nat, now_millis as nat),
    {
        TransferRun {
            state: RunState::Running,
            transferred: 0,
            total,
            last_emit_millis: now_millis,
        }
    }

    /// Where the transfer stands.
    pub fn state(&self) -> (state: RunState)
        ensures
            state == self@.state,
    {
        self.state
    }

    /// Bytes moved so far.
    pub fn transferred(&self) -> (n: u64)
        ensures
            n == self@.transferred,
    {
        self.transferred
    }

    /// Bytes to move in all.
    pub fn total(&self) -> (n: u64)
        ensures
            n == self@.total,
    {
        self.total
    }

    /// Whether `n` more bytes can be counted.
    pub fn can_count(&self, n: usize) -> (yes: bool)
        ensures
            yes == (self@.transferred + n <= u64::MAX),
    {
        n as u64 <= u64::MAX - self.transferred
    }

    /// Opens a round: looks at the cancellation flag before a chunk is
    /// read or written. Returns whether the chunk is to be moved.
    pub fn begin_round(&mut self, cancelled: bool) -> (proceed: bool)
        ensures
            final(self)@ == spec_transfer_round(old(self)@, cancelled),
            proceed == (final(self)@.state == RunState::Running),
    {
        if self.state == RunState::Running && cancelled {
            self.state = RunState::Cancelled;
        }
        self.state == RunState::Running
    }

    /// Counts `n` bytes moved at time `now_millis` and returns the
    /// progress event to emit, as bytes moved and bytes in all, where one
    /// is due.
    pub fn moved(&mut self, n: usize, now_millis: u64) -> (event: Option<(u64, u64)>)
        requires
            old(self)@.transferred + n <= u64::MAX,
        ensures
            final(self)@ == spec_transfer_moved(old(self)@, n as nat, now_millis as nat),
            event == (if old(self)@.state == RunState::Running && spec_progress_due(
                old(self)@,
                now_millis as nat,
            ) {
                Some(((old(self)@.transferred + n) as u64, old(self)@.total as u64))
            } else {
                None
            }),
    {
        if self.state != RunState::Running {
            return None;
        }
        self.transferred = self.transferred + n as u64;
        if now_millis > self.last_emit_millis && now_millis - self.last_emit_millis
            > PROGRESS_INTERVAL_MILLIS {
            self.last_emit_millis = now_millis;
            Some((self.transferred, self.total))
        } else {
            None
        }
    }

    /// The pause after a read or write that would have blocked.
    pub fn stalled(&self) -> (next: Next)
        ensures
            next == (if self@.state == RunState::Running {
                Next::Pause { millis: STALL_PAUSE_MILLIS }
            } else {
                Next::Stop
            }),
    {
        if self.state == RunState::Running {
            Next::Pause { millis: STALL_PAUSE_MILLIS }
        } else {
            Next::Stop
        }
    }

    /// The source is exhausted. Returns the final progress event, which
    /// reports the transfer as moved in full; a run that was cancelled or
    /// failed before gives none.
    pub fn finish(&mut self) -> (event: Option<(u64, u64)>)
        ensures
            final(self)@ == spec_transfer_finished(old(self)@),
            event == (if old(self)@.state == RunState::Running {
                Some((old(self)@.total as u64, old(self)@.total as u64))
            } else {
                None
            }),
    {
        if self.state != RunState::Running {
            return None;
        }
        self.state = RunState::Completed;
        self.transferred = self.total;
        Some((self.total, self.total))
    }

    /// The transport failed.
    pub fn fail(&mut self)
        ensures
            final(self)@ == spec_transfer_failed(old(self)@),
    {
        if self.state == RunState::Running {
            self.state = RunState::Failed;
        }
    }
}

/// One round of a transfer: the flag before the chunk is moved, the size
/// of the chunk (zero at the end of the source) and the time.
pub ghost struct Chunk {
    pub cancelled: bool,
    pub bytes: nat,
    pub now: nat,
}

/// The transfer after the first `n` of `chunks`; a chunk of no bytes ends
/// it.
pub open spec fn spec_transfer_run(total: nat, start: nat, chunks: Seq<Chunk>, n: int) -> TransferModel
    decreases n,
{
    if n <= 0 {
        spec_transfer_start(total, start)
    } else {
        let opened = spec_transfer_round(
            spec_transfer_run(total, start, chunks, n - 1),
            chunks[n - 1].cancelled,
        );
        if chunks[n - 1].bytes == 0 {
            spec_transfer_finished(opened)
        } else {
            spec_transfer_moved(opened, chunks[n - 1].bytes, chunks[n - 1].now)
        }
    }
}

/// A transfer whose cancellation flag is set before any byte was moved
/// ends as cancelled with nothing moved, and a transfer never completes
/// through a round in which the flag was set.
pub proof fn lemma_transfer_cancel(total: nat, start: nat, chunks: Seq<Chunk>, n: int)
    requires
        0 <= n <= chunks.len(),
    ensures
        spec_transfer_run(total, start, chunks, n).total == total,
        n >= 1 && chunks[0].cancelled ==> spec_transfer_run(total, start, chunks, n).state
            == RunState::Cancelled && spec_transfer_run(total, start, chunks, n).transferred == 0,
        (spec_transfer_run(total, start, chunks, n).state == RunState::Completed
            || spec_transfer_run(total, start, chunks, n).state == RunState::Running)
            ==> forall|k: int|
            0 <= k < n && (k == 0 || spec_transfer_run(total, start, chunks, k).state
                == RunState::Running) ==> !(#[trigger] chunks[k]).cancelled,
        spec_transfer_run(total, start, chunks, n).state == RunState::Completed
            ==> spec_transfer_run(total, start, chunks, n).transferred == total,
    decreases n,
{
    if n > 0 {
        lemma_transfer_cancel(total, start, chunks, n - 1);
        let before = spec_transfer_run(total, start, chunks, n - 1);
        let after = spec_transfer_run(total, start, chunks, n);
        if after.state == RunState::Completed || after.state == RunState::Running {
            assert(before.state == RunState::Running || before.state == RunState::Completed);
            assert forall|k: int|
                0 <= k < n && (k == 0 || spec_transfer_run(total, start, chunks, k).state
                    == RunState::Running) implies !(#[trigger] chunks[k]).cancelled by {
                if k == n - 1 {
                    if before.state == RunState::Running {
                        assert(!chunks[n - 1].cancelled);
                    } else {
                        assert(n - 1 == 0);
                    }
                }
            }
        }
    }
}

/// Progress events keep their distance: when a chunk emits one, more
/// than the interval has passed since the one before, so that at most
/// ten are emitted in a second.
pub proof fn lemma_progress_cadence(m: TransferModel, n: nat, now: nat)
    requires
        m.state == RunState::Running,
    ensures
        spec_transfer_moved(m, n, now).last_emit != m.last_emit ==> spec_transfer_moved(
            m,
            n,
            now,
        ).last_emit == now && now - m.last_emit > PROGRESS_INTERVAL_MILLIS,
        spec_transfer_moved(m, n, now).last_emit >= m.last_emit,
{
}

/// The position within one chunk that is being written out.
pub struct WriteCursor {
    pos: usize,
    len: usize,
}

/// What follows one write.
#[derive(Clone, Copy, Debug, PartialEq, Eq, Structural)]
pub enum WriteStep {
    /// Write the rest, from this position.
    Continue { from: usize },
    /// The chunk is written out.
    Done,
    /// The stream took nothing: it cannot make progress.
    Stuck,
}

impl WriteCursor {
    /// A cursor at the start of a chunk of `len` bytes.
    pub fn new(len: usize) -> (cursor: Self)
        ensures
            cursor.wf(),
            cursor.spec_pos() == 0,
            cursor.spec_len() == len,
    {
        WriteCursor { pos: 0, len }
    }

    /// How many bytes have been written.
    pub closed spec fn spec_pos(&self) -> usize {
        self.pos
    }

    /// How many bytes are to be written in all.
    pub closed spec fn spec_len(&self) -> usize {
        self.len
    }

    /// The invariant: the position is within the chunk.
    pub closed spec fn wf(&self) -> bool {
        self.pos <= self.len
    }

    /// Bytes still to write.
    pub fn remaining(&self) -> (n: usize)
        requires
            self.wf(),
        ensures
            n == self.spec_len() - self.spec_pos(),
    {
        self.len - self.pos
    }

    /// Whether a write that reports `written` bytes is within the chunk.
    pub fn accepts(&self, written: usize) -> (yes: bool)
        requires
            self.wf(),
        ensures
            yes == (written <= self.spec_len() - self.spec_pos()),
    {
        written <= self.len - self.pos
    }

    /// Counts what one write took. A write that took nothing while bytes
    /// were left is reported as stuck.
    pub fn advance(&mut self, written: usize) -> (step: WriteStep)
        requires
            old(self).wf(),
            written <= old(self).spec_len() - old(self).spec_pos(),
        ensures
            final(self).wf(),
            final(self).spec_len() == old(self).spec_len(),
            final(self).spec_pos() == old(self).spec_pos() + written,
            step == (if final(self).spec_pos() == final(self).spec_len() {
                WriteStep::Done
            } else if written == 0 {
                WriteStep::Stuck
            } else {
                WriteStep::Continue { from: final(self).spec_pos() }
            }),
    {
        self.pos = self.pos + written;
        if self.pos == self.len {
            WriteStep::Done
        } else if written == 0 {
            WriteStep::Stuck
        } else {
            WriteStep::Continue { from: self.pos }
        }
    }
}

/// What a bounded read holds after it took in `chunk`: the bytes read so
/// far, cut at the limit.
pub open spec fn spec_collect(buf: Seq<u8>, chunk: Seq<u8>, limit: Option<usize>) -> Seq<u8> {
    let all = buf + chunk;
    match limit {
        Some(max) => if all.len() > max {
            all.take(max as int)
        } else {
            all
        },
        None => all,
    }
}

/// Whether a bounded read is full.
pub open spec fn spec_full(buf: Seq<u8>, limit: Option<usize>) -> bool {
    limit matches Some(max) && buf.len() >= max
}

/// Whether a bounded read needs no further chunk.
pub fn read_is_full(buf: &Vec<u8>, limit: Option<usize>) -> (full: bool)
    ensures
        full == spec_full(buf@, limit),
{
    match limit {
        Some(max) => buf.len() >= max,
        None => false,
    }
}

/// Takes a chunk into a bounded read and cuts the result at the limit.
/// Returns whether more is to be read.
pub fn collect_chunk(buf: &mut Vec<u8>, chunk: &Vec<u8>, limit: Option<usize>) -> (more: bool)
    requires
        old(buf)@.len() + chunk@.len() <= usize::MAX,
    ensures
        final(buf)@ == spec_collect(old(buf)@, chunk@, limit),
        more == !(limit matches Some(max) && old(buf)@.len() + chunk@.len() > max),
{
    let mut i: usize = 0;
    while i < chunk.len()
        invariant
            i <= chunk.len(),
            buf@ == old(buf)@ + chunk@.take(i as int),
            old(buf)@.len() + chunk@.len() <= usize::MAX,
        decreases chunk.len() - i,
    {
        buf.push(chunk[i]);
        i += 1;
        assert(buf@ =~= old(buf)@ + chunk@.take(i as int));
    }
    assert(chunk@.take(chunk@.len() as int) =~= chunk@);
    match limit {
        Some(max) => {
            if buf.len() > max {
                buf.truncate(max);
                assert(buf@ =~= (old(buf)@ + chunk@).take(max as int));
                false
            } else {
                true
            }
        },
        None => true,
    }
}

} // verus!
