//! The command dispatcher of one connection.
//!
//! A single loop owns the primary session. In each tick it takes a
//! bounded batch of commands from its queue, polls the shell channel,
//! keeps the connection alive on a cadence, and sleeps briefly when
//! nothing happened. Shell commands act on the primary session at once;
//! every other command goes to a worker that borrows a background
//! session, so that a long transfer never holds up the terminal.

use crate::models::ShellMsg;
use vstd::prelude::*;

verus! {

/// Most commands taken from the queue in one tick.
pub const COMMAND_BATCH: usize = 10;

/// Time between keepalive messages on the primary session, in
/// milliseconds.
pub const KEEPALIVE_INTERVAL_MILLIS: u64 = 10000;

/// Time between heartbeat checks of the pool, in milliseconds.
pub const HEARTBEAT_INTERVAL_MILLIS: u64 = 60000;

/// Sleep at the end of a tick in which nothing happened, in milliseconds.
pub const IDLE_SLEEP_MILLIS: u64 = 10;

/// Columns of a shell before the terminal reports its size.
pub const DEFAULT_COLS: u16 = 80;

/// Rows of a shell before the terminal reports its size.
pub const DEFAULT_ROWS: u16 = 24;

/// One requested operation. The channel on which the answer travels
/// stays with the caller.
#[derive(Debug, Clone)]
pub enum SshCommand {
    /// Open the interactive shell with a terminal of this size.
    ShellOpen { cols: u16, rows: u16 },
    /// Write bytes to the shell.
    ShellWrite(Vec<u8>),
    /// Tell the shell the new size of the terminal.
    ShellResize { rows: u16, cols: u16 },
    /// Close the shell.
    ShellClose,
    /// Run one command and collect its output.
    Exec { command: String, cancellable: bool },
    /// List a directory.
    SftpLs { path: String },
    /// Read a file, at most `max_len` bytes of it.
    SftpRead { path: String, max_len: Option<usize> },
    /// Write a file; `mode` is `"append"` or absent for overwrite.
    SftpWrite { path: String, content: Vec<u8>, mode: Option<String> },
    /// Create a directory.
    SftpMkdir { path: String },
    /// Create an empty file.
    SftpCreate { path: String },
    /// Change the permission bits of a file.
    SftpChmod { path: String, mode: u32 },
    /// Delete a file, or a directory with all that is in it.
    SftpDelete { path: String, is_dir: bool },
    /// Rename a file or directory.
    SftpRename { old_path: String, new_path: String },
    /// Download a file, reporting progress under `transfer_id`.
    SftpDownload { remote_path: String, local_path: String, transfer_id: String },
    /// Upload a file, reporting progress under `transfer_id`.
    SftpUpload { local_path: String, remote_path: String, transfer_id: String },
    /// Stop the dispatcher.
    Shutdown,
}

/// Whether a command acts on the shell of the primary session.
pub open spec fn spec_is_shell_command(cmd: SshCommand) -> bool {
    cmd is ShellOpen || cmd is ShellWrite || cmd is ShellResize || cmd is ShellClose
}

/// What the dispatcher does with one command.
#[derive(Debug, Clone)]
pub enum Dispatch {
    /// Leave the loop.
    Stop,
    /// Close the previous shell channel if there is one, then open a
    /// channel on the primary session, request a pseudo-terminal of type
    /// `xterm` with this size and start a shell; report the result with
    /// `shell_opened`.
    OpenShell { close_previous: bool, cols: u16, rows: u16 },
    /// Write these bytes to the shell channel.
    WriteShell(Vec<u8>),
    /// Renegotiate the size of the terminal.
    ResizeShell { cols: u16, rows: u16 },
    /// Close the shell channel if there is one, and forget the sink.
    CloseShell { close_channel: bool },
    /// The command concerns a shell that is not open: drop it.
    Ignore,
    /// Hand the command to a worker that borrows a background session
    /// for as long as the operation takes.
    Worker(SshCommand),
}

/// What one poll of the shell channel gave.
#[derive(Debug, Clone)]
pub enum ShellRead {
    /// Output of the shell; never empty.
    Data(Vec<u8>),
    /// The shell ended.
    Eof,
    /// Nothing yet.
    WouldBlock,
    /// The channel failed.
    Failed,
}

/// What the dispatcher does after a poll of the shell channel.
#[derive(Debug, Clone)]
pub enum ShellPoll {
    /// Send these bytes to the sink.
    Forward(Vec<u8>),
    /// Tell the sink that the shell ended, and close the channel.
    Exit,
    /// Nothing to do.
    Quiet,
}

/// The state of the shell of a connection.
#[derive(Clone, Copy, Debug, PartialEq, Eq, Structural)]
pub enum ShellState {
    Closed,
    Open,
}

/// The dispatcher as a mathematical value.
pub ghost struct ManagerModel {
    pub shell: ShellState,
    /// Whether a sink for the shell's output is registered.
    pub sink: bool,
    pub shutdown: bool,
    pub last_keepalive: nat,
    pub last_heartbeat: nat,
}

/// The state of a dispatcher that starts at `now`.
pub open spec fn spec_manager_start(now: nat) -> ManagerModel {
    ManagerModel {
        shell: ShellState::Closed,
        sink: false,
        shutdown: false,
        last_keepalive: now,
        last_heartbeat: now,
    }
}

/// The dispatcher after a command.
pub open spec fn spec_after_command(m: ManagerModel, cmd: SshCommand) -> ManagerModel {
    match cmd {
        SshCommand::Shutdown => ManagerModel { shutdown: true, ..m },
        SshCommand::ShellOpen { .. } => ManagerModel { shell: ShellState::Closed, ..m },
        SshCommand::ShellClose => ManagerModel { shell: ShellState::Closed, sink: false, ..m },
        _ => m,
    }
}

/// What is done with a command.
pub open spec fn spec_dispatch(m: ManagerModel, cmd: SshCommand) -> Dispatch {
    match cmd {
        SshCommand::Shutdown => Dispatch::Stop,
        SshCommand::ShellOpen { cols, rows } => Dispatch::OpenShell {
            close_previous: m.shell == ShellState::Open,
            cols,
            rows,
        },
        SshCommand::ShellWrite(data) => if m.shell == ShellState::Open {
            Dispatch::WriteShell(data)
        } else {
            Dispatch::Ignore
        },
        SshCommand::ShellResize { rows, cols } => if m.shell == ShellState::Open {
            Dispatch::ResizeShell { cols, rows }
        } else {
            Dispatch::Ignore
        },
        SshCommand::ShellClose => Dispatch::CloseShell {
            close_channel: m.shell == ShellState::Open,
        },
        _ => Dispatch::Worker(cmd),
    }
}

/// The dispatcher after the shell was opened, or failed to open.
pub open spec fn spec_after_open(m: ManagerModel, opened: bool) -> ManagerModel {
    if opened {
        ManagerModel { shell: ShellState::Open, sink: true, ..m }
    } else {
        ManagerModel { shell: ShellState::Closed, ..m }
    }
}

/// The dispatcher after a poll of the shell channel: the end of the
/// stream or an error closes the shell.
pub open spec fn spec_after_poll(m: ManagerModel, read: ShellRead) -> ManagerModel {
    if m.shell == ShellState::Open && (read is Eof || read is Failed) {
        ManagerModel { shell: ShellState::Closed, sink: false, ..m }
    } else {
        m
    }
}

/// What one read of the shell leads to.
pub open spec fn spec_poll(m: ManagerModel, read: ShellRead) -> ShellPoll {
    if m.shell != ShellState::Open {
        ShellPoll::Quiet
    } else {
        match read {
            ShellRead::Data(bytes) => ShellPoll::Forward(bytes),
            ShellRead::Eof => ShellPoll::Exit,
            ShellRead::Failed => ShellPoll::Exit,
            ShellRead::WouldBlock => ShellPoll::Quiet,
        }
    }
}

/// Whether something is due at `now` that was last done at `last` and
/// is done every `interval`.
pub open spec fn spec_due(last: nat, now: nat, interval: nat) -> bool {
    now > last + interval
}

/// What closes a tick.
#[derive(Clone, Copy, Debug, PartialEq, Eq, Structural)]
pub struct TickEnd {
    /// Send a keepalive on the primary session.
    pub keepalive: bool,
    /// Run the heartbeat check of the pool.
    pub heartbeat: bool,
    /// Sleep this long before the next tick; zero after a busy tick.
    pub sleep_millis: u64,
}

/// What is due at the end of a round at `now`.
pub open spec fn spec_tick_end(m: ManagerModel, now: nat, activity: bool) -> TickEnd {
    TickEnd {
        keepalive: spec_due(m.last_keepalive, now, KEEPALIVE_INTERVAL_MILLIS as nat),
        heartbeat: spec_due(m.last_heartbeat, now, HEARTBEAT_INTERVAL_MILLIS as nat),
        sleep_millis: if activity {
            0
        } else {
            IDLE_SLEEP_MILLIS
        },
    }
}

/// The state after the end of a round at `now`.
pub open spec fn spec_after_tick(m: ManagerModel, now: nat) -> ManagerModel {
    ManagerModel {
        last_keepalive: if spec_due(m.last_keepalive, now, KEEPALIVE_INTERVAL_MILLIS as nat) {
            now
        } else {
            m.last_keepalive
        },
        last_heartbeat: if spec_due(m.last_heartbeat, now, HEARTBEAT_INTERVAL_MILLIS as nat) {
            now
        } else {
            m.last_heartbeat
        },
        ..m
    }
}

/// The state of the dispatcher of one connection.
pub struct SshManager {
    shell: ShellState,
    sink: bool,
    shutdown: bool,
    last_keepalive_millis: u64,
    last_heartbeat_millis: u64,
}

impl View for SshManager {
    type V = ManagerModel;

    closed spec fn view(&self) -> ManagerModel {
        ManagerModel {
            shell: self.shell,
            sink: self.sink,
            shutdown: self.shutdown,
            last_keepalive: self.last_keepalive_millis as nat,
            last_heartbeat: self.last_heartbeat_millis as nat,
        }
    }
}

/// Whether `interval` has passed since `last`.
fn due(last: u64, now: u64, interval: u64) -> (yes: bool)
    ensures
        yes == spec_due(last as nat, now as nat, interval as nat),
{
    now > last && now - last > interval
}

impl SshManager {
    /// A dispatcher that starts at time `now_millis`, with no shell.
    pub fn new(now_millis: u64) -> (manager: Self)
        ensures
            manager@ == spec_manager_start(now_millis as nat),
    {
        SshManager {
            shell: ShellState::Closed,
            sink: false,
            shutdown: false,
            last_keepalive_millis: now_millis,
            last_heartbeat_millis: now_millis,
        }
    }

    /// Whether the loop is to end.
    pub fn is_shutdown(&self) -> (yes: bool)
        ensures
            yes == self@.shutdown,
    {
        self.shutdown
    }

    /// The state of the shell.
    pub fn shell_state(&self) -> (state: ShellState)
        ensures
            state == self@.shell,
    {
        self.shell
    }

    /// Whether one more command may be taken from the queue in a tick in
    /// which `taken` were taken already.
    pub fn may_take(&self, taken: usize) -> (yes: bool)
        ensures
            yes == (!self@.shutdown && taken < COMMAND_BATCH),
    {
        !self.shutdown && taken < COMMAND_BATCH
    }

    /// Decides what is done with one command.
    pub fn handle_command(&mut self, cmd: SshCommand) -> (dispatch: Dispatch)
        ensures
            dispatch == spec_dispatch(old(self)@, cmd),
            final(self)@ == spec_after_command(old(self)@, cmd),
            !spec_is_shell_command(cmd) && !(cmd is Shutdown) ==> dispatch == Dispatch::Worker(cmd),
    {
        match cmd {
            SshCommand::Shutdown => {
                self.shutdown = true;
                Dispatch::Stop
            },
            SshCommand::ShellOpen { cols, rows } => {
                let close_previous = self.shell == ShellState::Open;
                self.shell = ShellState::Closed;
                Dispatch::OpenShell { close_previous, cols, rows }
            },
            SshCommand::ShellWrite(data) => {
                if self.shell == ShellState::Open {
                    Dispatch::WriteShell(data)
                } else {
                    Dispatch::Ignore
                }
            },
            SshCommand::ShellResize { rows, cols } => {
                if self.shell == ShellState::Open {
                    Dispatch::ResizeShell { cols, rows }
                } else {
                    Dispatch::Ignore
                }
            },
            SshCommand::ShellClose => {
                let close_channel = self.shell == ShellState::Open;
                self.shell = ShellState::Closed;
                self.sink = false;
                Dispatch::CloseShell { close_channel }
            },
            other => Dispatch::Worker(other),
        }
    }

    /// Records how the opening of the shell went. On success the shell is
    /// open and the sink of the request is registered.
    pub fn shell_opened(&mut self, opened: bool)
        ensures
            final(self)@ == spec_after_open(old(self)@, opened),
    {
        if opened {
            self.shell = ShellState::Open;
            self.sink = true;
        } else {
            self.shell = ShellState::Closed;
        }
    }

    /// Decides what is done with the result of polling the shell
    /// channel. Returns the action and whether the poll counts as
    /// activity.
    pub fn poll_shell(&mut self, read: ShellRead) -> (polled: (ShellPoll, bool))
        ensures
            polled.0 == spec_poll(old(self)@, read),
            polled.1 == (old(self)@.shell == ShellState::Open && read is Data),
            final(self)@ == spec_after_poll(old(self)@, read),
    {
        if self.shell != ShellState::Open {
            return (ShellPoll::Quiet, false);
        }
        match read {
            ShellRead::Data(bytes) => (ShellPoll::Forward(bytes), true),
            ShellRead::Eof => {
                self.shell = ShellState::Closed;
                self.sink = false;
                (ShellPoll::Exit, false)
            },
            ShellRead::Failed => {
                self.shell = ShellState::Closed;
                self.sink = false;
                (ShellPoll::Exit, false)
            },
            ShellRead::WouldBlock => (ShellPoll::Quiet, false),
        }
    }

    /// Closes a tick at time `now_millis`: says whether the keepalive
    /// and the heartbeat are due, and how long to sleep.
    pub fn end_tick(&mut self, now_millis: u64, activity: bool) -> (end: TickEnd)
        ensures
            end == spec_tick_end(old(self)@, now_millis as nat, activity),
            final(self)@ == spec_after_tick(old(self)@, now_millis as nat),
    {
        let keepalive = due(self.last_keepalive_millis, now_millis, KEEPALIVE_INTERVAL_MILLIS);
        let heartbeat = due(self.last_heartbeat_millis, now_millis, HEARTBEAT_INTERVAL_MILLIS);
        if keepalive {
            self.last_keepalive_millis = now_millis;
        }
        if heartbeat {
            self.last_heartbeat_millis = now_millis;
        }
        TickEnd {
            keepalive,
            heartbeat,
            sleep_millis: if activity {
                0
            } else {
                IDLE_SLEEP_MILLIS
            },
        }
    }
}

/// The command that carries a message of the terminal to the
/// dispatcher, and whether the terminal's side is done after it.
pub open spec fn spec_adapt(msg: ShellMsg) -> (SshCommand, bool) {
    match msg {
        ShellMsg::Data(bytes) => (SshCommand::ShellWrite(bytes), false),
        ShellMsg::Resize { rows, cols } => (SshCommand::ShellResize { rows, cols }, false),
        ShellMsg::Exit => (SshCommand::ShellClose, true),
    }
}

/// Turns a message of the terminal into the command for the
/// dispatcher.
pub fn adapt_shell_msg(msg: ShellMsg) -> (adapted: (SshCommand, bool))
    ensures
        adapted == spec_adapt(msg),
{
    match msg {
        ShellMsg::Data(bytes) => (SshCommand::ShellWrite(bytes), false),
        ShellMsg::Resize { rows, cols } => (SshCommand::ShellResize { rows, cols }, false),
        ShellMsg::Exit => (SshCommand::ShellClose, true),
    }
}

/// The command that opens the shell of a fresh connection.
pub fn initial_shell() -> (cmd: SshCommand)
    ensures
        cmd == (SshCommand::ShellOpen { cols: DEFAULT_COLS, rows: DEFAULT_ROWS }),
{
    SshCommand::ShellOpen { cols: DEFAULT_COLS, rows: DEFAULT_ROWS }
}

/// One input of the shell's state machine.
pub ghost enum ShellInput {
    Command(SshCommand),
    Opened(bool),
    Polled(ShellRead),
}

/// The state after one input that concerns the shell.
pub open spec fn spec_shell_step(m: ManagerModel, input: ShellInput) -> ManagerModel {
    match input {
        ShellInput::Command(cmd) => spec_after_command(m, cmd),
        ShellInput::Opened(ok) => spec_after_open(m, ok),
        ShellInput::Polled(read) => spec_after_poll(m, read),
    }
}

/// The shell is open only between a successful opening and the next
/// close, end of stream or error: whatever comes in, it is open
/// afterwards exactly if it was just opened with success, or was open
/// and the input was none of those. Bytes are written and sizes sent
/// only to an open shell, and commands that are not about the shell
/// never touch its state.
pub proof fn lemma_shell_machine(m: ManagerModel, input: ShellInput)
    ensures
        spec_shell_step(m, input).shell == ShellState::Open <==> (input == ShellInput::Opened(true)
            || (m.shell == ShellState::Open && !(input matches ShellInput::Opened(_)) && !(
        input matches ShellInput::Command(cmd) && (cmd is ShellOpen || cmd is ShellClose)) && !(
        input matches ShellInput::Polled(read) && (read is Eof || read is Failed)))),
        input matches ShellInput::Command(cmd) ==> {
            &&& (spec_dispatch(m, cmd) is WriteShell || spec_dispatch(m, cmd) is ResizeShell)
                ==> m.shell == ShellState::Open
            &&& !spec_is_shell_command(cmd) ==> spec_shell_step(m, input).shell == m.shell
        },
{
}

} // verus!
