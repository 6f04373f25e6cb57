//! The daemon that keeps the subscriber running: how it comes up, how it is told to stop, and how
//! a daemon of the right version is made sure of.

use crate::cli::Cli;
use crate::error::FailureKind;
use crate::paths::{join, joined};
use crate::text::{is_white_space, parse_i32, parsed_i32, same_bytes, same_text, trimmed};
use vstd::prelude::*;
use vstd::utf8::encode_utf8;

verus! {

/// What is sent to a daemon to make it stop.
pub const DAEMON_SHUTDOWN_CMD: &'static str = "SHUTDOWN";

/// How often the lock is tried.
pub const LOCK_ATTEMPTS: u32 = 50;

/// How long to wait after the lock was not to be had, in milliseconds.
pub const LOCK_PAUSE: u64 = 100;

/// How long to wait for a new daemon, in nanoseconds.
pub const START_LIMIT: u128 = 1_000_000_000;

/// How long to wait between two looks for a new daemon, in milliseconds.
pub const START_PAUSE: u64 = 2;

/// How long to wait for an old daemon to say or do something, in milliseconds.
pub const SHUTDOWN_LIMIT: u64 = 1000;

/// What is shown where an old daemon does not stop.
pub const STUCK_DAEMON_NOTICE: &'static str =
    "Could not shutdown the old daemon, please run `pkill herdr-prevtab`";

/// A file of the daemon.
#[derive(Clone, Copy)]
pub enum DaemonFile {
    /// Locked while a daemon runs.
    Lock,
    /// The socket that the daemon takes commands from.
    Socket,
    /// The version of the daemon.
    Version,
    /// What the daemon reports.
    Log,
}

impl DaemonFile {
    /// The name of the file.
    pub open spec fn file_name(self) -> Seq<char> {
        match self {
            DaemonFile::Lock => "writer.lock"@,
            DaemonFile::Socket => "daemon.sock"@,
            DaemonFile::Version => "daemon.version"@,
            DaemonFile::Log => "daemon.log"@,
        }
    }

    /// Where the file is below the directory `state_dir`.
    pub open spec fn location(self, state_dir: Seq<u8>) -> Seq<u8> {
        joined(state_dir, encode_utf8(self.file_name()))
    }

    /// The path of the file below the directory `state_dir`.
    pub fn path(&self, state_dir: &[u8]) -> (result: Vec<u8>)
        ensures
            result@ == self.location(state_dir@),
    {
        let name: &'static str = match self {
            DaemonFile::Lock => "writer.lock",
            DaemonFile::Socket => "daemon.sock",
            DaemonFile::Version => "daemon.version",
            DaemonFile::Log => "daemon.log",
        };
        join(state_dir, name.as_bytes())
    }
}

/// The version of the plugin: the one that is given, where one is. Otherwise it is that of the
/// package, followed by the commit that it was built from, where that is known.
pub fn plugin_version(given: Option<&str>, package_version: &str, commit: Option<&str>) -> (result:
    String)
    ensures
        result@ == match (given, commit) {
            (Some(version), _) => version@,
            (None, Some(commit)) => package_version@ + "-"@ + trimmed(commit@),
            (None, None) => package_version@,
        },
{
    match given {
        Some(version) => version.to_owned(),
        None => {
            let mut version: String = package_version.to_owned();
            match commit {
                Some(commit) => {
                    version.append("-");
                    version.append(commit.trim());
                },
                None => {},
            }
            version
        },
    }
}

/// Why a daemon did not come up.
#[derive(Debug)]
pub enum DaemonFailure {
    /// The lock file could not be opened.
    OpenLock(std::io::Error),
    /// Another daemon holds the lock.
    AlreadyRunning,
    /// It could not be detached.
    Daemonize(std::io::Error),
    /// Its socket could not be bound.
    Bind(std::io::Error),
}

/// What has happened while a daemon comes up.
pub enum DaemonEvent {
    /// Nothing yet.
    Start,
    /// The lock file was opened, or could not be.
    LockOpened(Result<(), std::io::Error>),
    /// The lock was tried, after `attempt` earlier tries.
    LockTried { attempt: u32, locked: bool },
    /// The pause after that try is over.
    Waited { attempt: u32 },
    /// The version was written, or could not be.
    VersionWritten(Result<(), std::io::Error>),
    /// The daemon was detached, or could not be.
    Daemonized(Result<(), std::io::Error>),
    /// The socket that may be left of an earlier daemon was removed, or could not be.
    SocketRemoved(Result<(), std::io::Error>),
    /// Its socket was bound, or could not be.
    Bound(Result<(), std::io::Error>),
}

/// What to do next to bring a daemon up.
pub enum DaemonAction<'a> {
    /// Open this file for reading and writing. It is created where there is none, and emptied
    /// where `truncate` says so.
    OpenLock { path: Vec<u8>, truncate: bool },
    /// Try to get the lock on that file for this daemon alone, after `attempt` earlier tries.
    TryLock { attempt: u32 },
    /// Wait for this many milliseconds.
    Wait { attempt: u32, millis: u64 },
    /// Make this the content of this file.
    WriteVersion { path: Vec<u8>, content: &'a str },
    /// Detach, with reports going to this file.
    Daemonize { log_path: Vec<u8> },
    /// Remove the socket that may be left of an earlier daemon.
    RemoveSocket(Vec<u8>),
    /// Bind a new one.
    Bind(Vec<u8>),
    /// Take commands, and run the subscriber with these two paths.
    Serve { socket_path: &'a [u8], state_path: &'a [u8] },
    /// Nothing: it did not come up.
    Abort(DaemonFailure),
}

/// What a daemon is started with: the socket of Herdr, the directory of the session, and its own
/// version.
pub struct Setup {
    pub socket_path: Seq<u8>,
    pub state_path: Seq<u8>,
    pub version: Seq<char>,
}

impl<'a> DaemonAction<'a> {
    /// Whether this is what to do after `event` to bring a daemon up.
    pub open spec fn follows(self, event: DaemonEvent, setup: Setup) -> bool {
        match event {
            DaemonEvent::Start => {
                &&& self matches DaemonAction::OpenLock { path, truncate }
                &&& path@ == DaemonFile::Lock.location(setup.state_path)
                &&& truncate
            },
            DaemonEvent::LockOpened(Ok(_)) => self == (DaemonAction::TryLock { attempt: 0 }),
            DaemonEvent::LockOpened(Err(error)) => self == DaemonAction::Abort(
                DaemonFailure::OpenLock(error),
            ),
            DaemonEvent::LockTried { attempt, locked } => if locked {
                &&& self matches DaemonAction::WriteVersion { path, content }
                &&& path@ == DaemonFile::Version.location(setup.state_path)
                &&& content@ == setup.version
            } else {
                self == (DaemonAction::Wait { attempt, millis: LOCK_PAUSE })
            },
            DaemonEvent::Waited { attempt } => self == if attempt + 1 < LOCK_ATTEMPTS {
                DaemonAction::TryLock { attempt: (attempt + 1) as u32 }
            } else {
                DaemonAction::Abort(DaemonFailure::AlreadyRunning)
            },
            DaemonEvent::VersionWritten(_) => self matches DaemonAction::Daemonize { log_path }
                && log_path@ == DaemonFile::Log.location(setup.state_path),
            DaemonEvent::Daemonized(Ok(_)) => self matches DaemonAction::RemoveSocket(path) && path@
                == DaemonFile::Socket.location(setup.state_path),
            DaemonEvent::Daemonized(Err(error)) => self == DaemonAction::Abort(
                DaemonFailure::Daemonize(error),
            ),
            DaemonEvent::SocketRemoved(_) => self matches DaemonAction::Bind(path) && path@
                == DaemonFile::Socket.location(setup.state_path),
            DaemonEvent::Bound(Ok(_)) => {
                &&& self matches DaemonAction::Serve { socket_path, state_path }
                &&& socket_path@ == setup.socket_path
                &&& state_path@ == setup.state_path
            },
            DaemonEvent::Bound(Err(error)) => self == DaemonAction::Abort(
                DaemonFailure::Bind(error),
            ),
        }
    }
}

/// Brings a daemon of the version `plugin_version` up, for the session whose socket has the path
/// `socket_path` and whose state is below `state_path`. Says what to do after `event`.
pub fn run_daemon<'a>(
    socket_path: &'a [u8],
    state_path: &'a [u8],
    plugin_version: &'a str,
    event: DaemonEvent,
) -> (result: DaemonAction<'a>)
    ensures
        result.follows(
            event,
            (Setup {
                socket_path: socket_path@,
                state_path: state_path@,
                version: plugin_version@,
            }),
        ),
{
    match event {
        DaemonEvent::Start => DaemonAction::OpenLock {
            path: DaemonFile::Lock.path(state_path),
            truncate: true,
        },
        DaemonEvent::LockOpened(Ok(_)) => DaemonAction::TryLock { attempt: 0 },
        DaemonEvent::LockOpened(Err(error)) => DaemonAction::Abort(DaemonFailure::OpenLock(error)),
        DaemonEvent::LockTried { attempt, locked } => if locked {
            DaemonAction::WriteVersion {
                path: DaemonFile::Version.path(state_path),
                content: plugin_version,
            }
        } else {
            DaemonAction::Wait { attempt, millis: LOCK_PAUSE }
        },
        DaemonEvent::Waited { attempt } => if attempt < LOCK_ATTEMPTS - 1 {
            DaemonAction::TryLock { attempt: attempt + 1 }
        } else {
            DaemonAction::Abort(DaemonFailure::AlreadyRunning)
        },
        DaemonEvent::VersionWritten(_) => DaemonAction::Daemonize {
            log_path: DaemonFile::Log.path(state_path),
        },
        DaemonEvent::Daemonized(Ok(_)) => DaemonAction::RemoveSocket(
            DaemonFile::Socket.path(state_path),
        ),
        DaemonEvent::Daemonized(Err(error)) => DaemonAction::Abort(
            DaemonFailure::Daemonize(error),
        ),
        DaemonEvent::SocketRemoved(_) => DaemonAction::Bind(DaemonFile::Socket.path(state_path)),
        DaemonEvent::Bound(Ok(_)) => DaemonAction::Serve { socket_path, state_path },
        DaemonEvent::Bound(Err(error)) => DaemonAction::Abort(DaemonFailure::Bind(error)),
    }
}

/// Whether what was read from a connection to the daemon's socket tells the daemon to stop.
pub fn is_shutdown(received: Result<Vec<u8>, std::io::Error>) -> (result: bool)
    ensures
        result == (received matches Ok(command) && command@ == encode_utf8(DAEMON_SHUTDOWN_CMD@)),
{
    match received {
        Ok(command) => same_bytes(command.as_slice(), DAEMON_SHUTDOWN_CMD.as_bytes()),
        Err(_) => false,
    }
}

/// What to do after a connection to the daemon's socket was read to its end.
pub enum ServeAction {
    /// Remove this file, and end the process with this status.
    Stop { remove: Vec<u8>, status: i32 },
    /// Go on to the next connection.
    Next,
}

impl ServeAction {
    /// Whether this is what to do after `received` was read, with state below `state_path`.
    pub open spec fn follows(
        self,
        received: Result<Vec<u8>, std::io::Error>,
        state_path: Seq<u8>,
    ) -> bool {
        if received matches Ok(command) && command@ == encode_utf8(DAEMON_SHUTDOWN_CMD@) {
            &&& self matches ServeAction::Stop { remove, status }
            &&& remove@ == DaemonFile::Socket.location(state_path)
            &&& status == 0
        } else {
            self == ServeAction::Next
        }
    }
}

/// Says what to do after a connection to the socket of a daemon with state below `state_path` was
/// read to its end: the command to stop takes the socket away and ends the daemon, and anything
/// else changes nothing.
pub fn serve_command(state_path: &[u8], received: Result<Vec<u8>, std::io::Error>) -> (result:
    ServeAction)
    ensures
        if received matches Ok(command) && command@ == encode_utf8(DAEMON_SHUTDOWN_CMD@) {
            &&& result matches ServeAction::Stop { remove, status }
            &&& remove@ == DaemonFile::Socket.location(state_path@)
            &&& status == 0
        } else {
            result == ServeAction::Next
        },
        result.follows(received, state_path@),
{
    if is_shutdown(received) {
        ServeAction::Stop { remove: DaemonFile::Socket.path(state_path), status: 0 }
    } else {
        ServeAction::Next
    }
}

/// What has happened while a daemon is being made sure of.
pub enum EnsureEvent {
    /// Nothing yet.
    Start,
    /// The version of the running daemon was read, or could not be.
    VersionRead(Result<String, std::io::Error>),
    /// The running daemon was reached, or could not be.
    DaemonReached(Result<(), std::io::Error>),
    /// The limit on reading from it was set, or could not be.
    ReadLimitSet(Result<(), std::io::Error>),
    /// The command to stop was sent to it, or could not be.
    CommandSent(Result<(), std::io::Error>),
    /// The end of what is sent to it was marked, or could not be.
    SendingEnded(Result<(), std::io::Error>),
    /// It closed the connection, or reading from it failed before that.
    Drained(Result<(), FailureKind>),
    /// A notification was shown.
    Notified,
    /// The content of the lock file was read, or could not be.
    LockRead(Result<String, std::io::Error>),
    /// A process was told to end.
    Terminated,
    /// The program of the daemon was found, or could not be.
    ProgramFound(Result<(), std::io::Error>),
    /// A new daemon was started, or could not be.
    Spawned(Result<(), std::io::Error>),
    /// This many nanoseconds have passed since then.
    Elapsed(u128),
    /// The new daemon was reached, or could not be.
    NewDaemonReached(Result<(), std::io::Error>),
    /// The pause after that is over.
    Waited,
}

/// What to do next to make sure of a daemon.
pub enum EnsureAction {
    /// Read this file, for the version of the running daemon.
    ReadVersion(Vec<u8>),
    /// Connect to this socket, for the running daemon.
    ReachDaemon(Vec<u8>),
    /// Have reading from it fail where nothing comes for this many milliseconds.
    SetReadLimit(u64),
    /// Send this to it.
    SendCommand(&'static str),
    /// Mark the end of what is sent to it.
    EndSending,
    /// Read from it until it closes the connection, and drop what comes.
    Drain,
    /// Show this notification.
    Notify(&'static str),
    /// Read this file, for the process that holds the lock.
    ReadLock(Vec<u8>),
    /// Send the signal TERM to the process with this id.
    Terminate(i32),
    /// Find the program of the daemon, which is the running one.
    FindProgram,
    /// Start it with this argument.
    Spawn(&'static str),
    /// Look at the time.
    LookAtTime,
    /// Connect to this socket, for the new daemon.
    ReachNewDaemon(Vec<u8>),
    /// Wait for this many milliseconds.
    Wait(u64),
    /// Nothing more.
    Finished,
}

/// The text of what was read, which is empty where nothing could be.
pub open spec fn text_or_empty(read: Result<String, std::io::Error>) -> Seq<char> {
    match read {
        Ok(text) => text@,
        Err(_) => Seq::empty(),
    }
}

/// The process that a lock file names: the number that it holds, where there is one and it is not
/// zero.
pub open spec fn locked_by(content: Seq<char>) -> Option<i32> {
    match parsed_i32(trimmed(content)) {
        Some(pid) => if pid == 0 {
            None
        } else {
            Some(pid)
        },
        None => None,
    }
}

/// The process that a lock file names.
pub fn lock_holder(content: &str) -> (result: Option<i32>)
    ensures
        result == locked_by(content@),
{
    match parse_i32(content.trim()) {
        Some(pid) => if pid == 0 {
            None
        } else {
            Some(pid)
        },
        None => None,
    }
}

/// Whether reading from an old daemon ended because nothing came for too long.
pub open spec fn is_stuck(drained: Result<(), FailureKind>) -> bool {
    match drained {
        Ok(_) => false,
        Err(kind) => kind is WouldBlock || kind is TimedOut,
    }
}

impl EnsureAction {
    /// Whether this is what to do after `event` to make sure of a daemon of the version
    /// `plugin_version`, with state below `state_path`.
    pub open spec fn follows(
        self,
        event: EnsureEvent,
        state_path: Seq<u8>,
        plugin_version: Seq<char>,
    ) -> bool {
        match event {
            EnsureEvent::Start => self matches EnsureAction::ReadVersion(path) && path@
                == DaemonFile::Version.location(state_path),
            EnsureEvent::VersionRead(read) => if trimmed(text_or_empty(read)) == plugin_version {
                self == EnsureAction::Finished
            } else {
                self matches EnsureAction::ReachDaemon(path) && path@
                    == DaemonFile::Socket.location(state_path)
            },
            EnsureEvent::DaemonReached(Ok(_)) => self == EnsureAction::SetReadLimit(SHUTDOWN_LIMIT),
            EnsureEvent::DaemonReached(Err(_)) => self matches EnsureAction::ReadLock(path) && path@
                == DaemonFile::Lock.location(state_path),
            EnsureEvent::ReadLimitSet(_) => self matches EnsureAction::SendCommand(command)
                && command@ == DAEMON_SHUTDOWN_CMD@,
            EnsureEvent::CommandSent(_) => self == EnsureAction::EndSending,
            EnsureEvent::SendingEnded(_) => self == EnsureAction::Drain,
            EnsureEvent::Drained(drained) => if is_stuck(drained) {
                self matches EnsureAction::Notify(notice) && notice@ == STUCK_DAEMON_NOTICE@
            } else {
                self == EnsureAction::FindProgram
            },
            EnsureEvent::Notified => self == EnsureAction::FindProgram,
            EnsureEvent::LockRead(read) => self == match locked_by(text_or_empty(read)) {
                Some(pid) => EnsureAction::Terminate(pid),
                None => EnsureAction::FindProgram,
            },
            EnsureEvent::Terminated => self == EnsureAction::FindProgram,
            EnsureEvent::ProgramFound(Ok(_)) => self matches EnsureAction::Spawn(argument)
                && argument@ == Cli::Rund.called(),
            EnsureEvent::ProgramFound(Err(_)) => self == EnsureAction::Finished,
            EnsureEvent::Spawned(_) => self == EnsureAction::LookAtTime,
            EnsureEvent::Elapsed(elapsed) => if elapsed < START_LIMIT {
                self matches EnsureAction::ReachNewDaemon(path) && path@
                    == DaemonFile::Socket.location(state_path)
            } else {
                self == EnsureAction::Finished
            },
            EnsureEvent::NewDaemonReached(Ok(_)) => self == EnsureAction::Finished,
            EnsureEvent::NewDaemonReached(Err(_)) => self == EnsureAction::Wait(START_PAUSE),
            EnsureEvent::Waited => self == EnsureAction::LookAtTime,
        }
    }
}

/// Makes sure that a daemon of the version `plugin_version` runs, with state below `state_path`:
/// where one of another version may be running, it is stopped, and a new one is started. Says what
/// to do after `event`.
pub fn ensure_daemon_running(
    state_path: &[u8],
    plugin_version: &str,
    event: EnsureEvent,
) -> (result: EnsureAction)
    ensures
        result.follows(event, state_path@, plugin_version@),
{
    match event {
        EnsureEvent::Start => EnsureAction::ReadVersion(DaemonFile::Version.path(state_path)),
        EnsureEvent::VersionRead(read) => {
            let running_version: String = match read {
                Ok(text) => text,
                Err(_) => String::new(),
            };
            if same_text(running_version.as_str().trim(), plugin_version) {
                EnsureAction::Finished
            } else {
                EnsureAction::ReachDaemon(DaemonFile::Socket.path(state_path))
            }
        },
        EnsureEvent::DaemonReached(Ok(_)) => EnsureAction::SetReadLimit(SHUTDOWN_LIMIT),
        EnsureEvent::DaemonReached(Err(_)) => EnsureAction::ReadLock(
            DaemonFile::Lock.path(state_path),
        ),
        EnsureEvent::ReadLimitSet(_) => EnsureAction::SendCommand(DAEMON_SHUTDOWN_CMD),
        EnsureEvent::CommandSent(_) => EnsureAction::EndSending,
        EnsureEvent::SendingEnded(_) => EnsureAction::Drain,
        EnsureEvent::Drained(drained) => match drained {
            Err(FailureKind::WouldBlock) => EnsureAction::Notify(STUCK_DAEMON_NOTICE),
            Err(FailureKind::TimedOut) => EnsureAction::Notify(STUCK_DAEMON_NOTICE),
            _ => EnsureAction::FindProgram,
        },
        EnsureEvent::Notified => EnsureAction::FindProgram,
        EnsureEvent::LockRead(read) => {
            let content: String = match read {
                Ok(text) => text,
                Err(_) => String::new(),
            };
            match lock_holder(content.as_str()) {
                Some(pid) => EnsureAction::Terminate(pid),
                None => EnsureAction::FindProgram,
            }
        },
        EnsureEvent::Terminated => EnsureAction::FindProgram,
        EnsureEvent::ProgramFound(Ok(_)) => EnsureAction::Spawn(Cli::Rund.name()),
        EnsureEvent::ProgramFound(Err(_)) => EnsureAction::Finished,
        EnsureEvent::Spawned(_) => EnsureAction::LookAtTime,
        EnsureEvent::Elapsed(elapsed) => if elapsed < START_LIMIT {
            EnsureAction::ReachNewDaemon(DaemonFile::Socket.path(state_path))
        } else {
            EnsureAction::Finished
        },
        EnsureEvent::NewDaemonReached(Ok(_)) => EnsureAction::Finished,
        EnsureEvent::NewDaemonReached(Err(_)) => EnsureAction::Wait(START_PAUSE),
        EnsureEvent::Waited => EnsureAction::LookAtTime,
    }
}

/// Whether `later` is what to do once the try `earlier` has failed and the pause after it is over.
pub open spec fn follows_failed_try(
    earlier: DaemonAction,
    later: DaemonAction,
    setup: Setup,
) -> bool {
    match earlier {
        DaemonAction::TryLock { attempt } => later.follows(DaemonEvent::Waited { attempt }, setup),
        _ => false,
    }
}

/// A lock that is never to be had is tried as often as it may be, and then given up: `actions`
/// are the first try and what follows each pause.
pub proof fn law_lock_is_given_up<'a>(
    actions: Seq<DaemonAction<'a>>,
    setup: Setup,
    position: int,
)
    requires
        0 <= position < actions.len(),
        actions[0].follows(DaemonEvent::LockOpened(Ok(())), setup),
        forall|i: int, j: int|
            #![trigger actions[i], actions[j]]
            0 <= i && j == i + 1 && j < actions.len() ==> follows_failed_try(
                actions[i],
                actions[j],
                setup,
            ),
    ensures
        position <= LOCK_ATTEMPTS,
        actions[position] == if position < LOCK_ATTEMPTS {
            DaemonAction::TryLock { attempt: position as u32 }
        } else {
            DaemonAction::Abort(DaemonFailure::AlreadyRunning)
        },
    decreases position,
{
    if position > 0 {
        law_lock_is_given_up(actions, setup, position - 1);
        assert(follows_failed_try(actions[position - 1], actions[position], setup));
    }
}

impl<'a> DaemonAction<'a> {
    /// Whether `event` is a report on how this ended.
    pub open spec fn reported_by(self, event: DaemonEvent) -> bool {
        match self {
            DaemonAction::OpenLock { .. } => event is LockOpened,
            DaemonAction::TryLock { attempt: tried } => event matches DaemonEvent::LockTried {
                attempt,
                ..
            } && attempt == tried,
            DaemonAction::Wait { attempt: tried, .. } => event == (DaemonEvent::Waited {
                attempt: tried,
            }),
            DaemonAction::WriteVersion { .. } => event is VersionWritten,
            DaemonAction::Daemonize { .. } => event is Daemonized,
            DaemonAction::RemoveSocket(_) => event is SocketRemoved,
            DaemonAction::Bind(_) => event is Bound,
            DaemonAction::Serve { .. } => false,
            DaemonAction::Abort(_) => false,
        }
    }

    /// Whether this is for the one daemon that has got the lock.
    pub open spec fn needs_lock(self) -> bool {
        match self {
            DaemonAction::WriteVersion { .. } => true,
            DaemonAction::Daemonize { .. } => true,
            DaemonAction::RemoveSocket(_) => true,
            DaemonAction::Bind(_) => true,
            DaemonAction::Serve { .. } => true,
            _ => false,
        }
    }
}

/// Whether `later` can come right after `event` while a daemon comes up.
pub open spec fn comes_after(event: DaemonEvent, later: DaemonEvent, setup: Setup) -> bool {
    exists|action: DaemonAction| #[trigger]
        action.follows(event, setup) && action.reported_by(later)
}

/// A daemon that comes up or runs: what it was started with, and what has happened to it last.
pub struct Daemon {
    pub setup: Setup,
    pub last: DaemonEvent,
}

impl Daemon {
    /// Whether it has got the lock.
    pub open spec fn is_past_lock(self) -> bool {
        match self.last {
            DaemonEvent::LockTried { locked, .. } => locked,
            DaemonEvent::VersionWritten(_) => true,
            DaemonEvent::Daemonized(_) => true,
            DaemonEvent::SocketRemoved(_) => true,
            DaemonEvent::Bound(_) => true,
            _ => false,
        }
    }
}

/// The daemons of a session side by side, each with a number of its own, and which of them holds
/// the lock.
pub struct Daemons {
    pub running: Map<int, Daemon>,
    pub holder: Option<int>,
}

impl Daemons {
    /// The daemon `id` is started.
    pub open spec fn starts(self, id: int, setup: Setup, after: Daemons) -> bool {
        &&& !self.running.contains_key(id)
        &&& after.running == self.running.insert(id, Daemon { setup, last: DaemonEvent::Start })
        &&& after.holder == self.holder
    }

    /// `event` happens to the daemon `id`. The lock is exclusive: it can be got only while no
    /// daemon holds it.
    pub open spec fn goes_on(self, id: int, event: DaemonEvent, after: Daemons) -> bool {
        let daemon = self.running[id];
        &&& self.running.contains_key(id)
        &&& comes_after(daemon.last, event, daemon.setup)
        &&& after.running == self.running.insert(id, Daemon { last: event, ..daemon })
        &&& if event matches DaemonEvent::LockTried { locked, .. } && locked {
            self.holder is None && after.holder == Some(id)
        } else {
            after.holder == self.holder
        }
    }

    /// The daemon `id` ends, and the lock is free where it held it.
    pub open spec fn ends(self, id: int, after: Daemons) -> bool {
        &&& self.running.contains_key(id)
        &&& after.running == self.running.remove(id)
        &&& after.holder == if self.holder == Some(id) {
            None
        } else {
            self.holder
        }
    }

    /// Something happens to one of the daemons.
    pub open spec fn leads_to(self, after: Daemons) -> bool {
        ||| exists|id: int, setup: Setup| self.starts(id, setup, after)
        ||| exists|id: int, event: DaemonEvent| self.goes_on(id, event, after)
        ||| exists|id: int| self.ends(id, after)
    }

    /// Every daemon that is past the lock holds it.
    pub open spec fn lock_is_kept(self) -> bool {
        forall|id: int|
            #[trigger] self.running.contains_key(id) && self.running[id].is_past_lock()
                ==> self.holder == Some(id)
    }
}

/// However many daemons are started for a session, and whenever they are: at any moment at most
/// one of them is past the lock. Only that one leaves its version behind, detaches, removes the
/// socket, binds a new one or serves.
pub proof fn law_one_daemon_past_lock(
    states: Seq<Daemons>,
    position: int,
    id: int,
    action: DaemonAction,
)
    requires
        states.len() > 0,
        states[0].running == Map::<int, Daemon>::empty(),
        forall|i: int, j: int|
            #![trigger states[i], states[j]]
            0 <= i && j == i + 1 && j < states.len() ==> states[i].leads_to(states[j]),
        0 <= position < states.len(),
        states[position].running.contains_key(id),
        action.follows(states[position].running[id].last, states[position].running[id].setup),
        action.needs_lock(),
    ensures
        states[position].holder == Some(id),
        forall|other: int|
            #[trigger] states[position].running.contains_key(other)
                && states[position].running[other].is_past_lock() ==> other == id,
{
    lemma_lock_is_kept(states, position);
    assert(states[position].running[id].is_past_lock());
}

/// Daemons that are past the lock hold it, at any moment.
proof fn lemma_lock_is_kept(states: Seq<Daemons>, position: int)
    requires
        states.len() > 0,
        states[0].running == Map::<int, Daemon>::empty(),
        forall|i: int, j: int|
            #![trigger states[i], states[j]]
            0 <= i && j == i + 1 && j < states.len() ==> states[i].leads_to(states[j]),
        0 <= position < states.len(),
    ensures
        states[position].lock_is_kept(),
    decreases position,
{
    if position > 0 {
        let before = states[position - 1];
        let after = states[position];
        lemma_lock_is_kept(states, position - 1);
        assert(before.leads_to(after));
        if exists|id: int, event: DaemonEvent| before.goes_on(id, event, after) {
            let (id, event) = choose|id: int, event: DaemonEvent| before.goes_on(id, event, after);
            assert(comes_after(before.running[id].last, event, before.running[id].setup));
            assert(before.running.contains_key(id));
            assert forall|other: int| #[trigger]
                after.running.contains_key(other)
                    && after.running[other].is_past_lock() implies after.holder == Some(other) by {
                assert(other != id ==> before.running.contains_key(other));
            }
        } else {
            assert forall|other: int| #[trigger]
                after.running.contains_key(other)
                    && after.running[other].is_past_lock() implies after.holder == Some(other) by {
                if exists|id: int, setup: Setup| before.starts(id, setup, after) {
                    let (id, setup) = choose|id: int, setup: Setup|
                        before.starts(id, setup, after);
                    assert(other != id ==> before.running.contains_key(other));
                } else {
                    let id = choose|id: int| before.ends(id, after);
                    assert(before.ends(id, after));
                    assert(before.running.contains_key(other));
                }
            }
        }
    }
}

impl EnsureAction {
    /// Whether `event` is a report on how this ended.
    pub open spec fn reported_by(self, event: EnsureEvent) -> bool {
        match self {
            EnsureAction::ReadVersion(_) => event is VersionRead,
            EnsureAction::ReachDaemon(_) => event is DaemonReached,
            EnsureAction::SetReadLimit(_) => event is ReadLimitSet,
            EnsureAction::SendCommand(_) => event is CommandSent,
            EnsureAction::EndSending => event is SendingEnded,
            EnsureAction::Drain => event is Drained,
            EnsureAction::Notify(_) => event is Notified,
            EnsureAction::ReadLock(_) => event is LockRead,
            EnsureAction::Terminate(_) => event is Terminated,
            EnsureAction::FindProgram => event is ProgramFound,
            EnsureAction::Spawn(_) => event is Spawned,
            EnsureAction::LookAtTime => event is Elapsed,
            EnsureAction::ReachNewDaemon(_) => event is NewDaemonReached,
            EnsureAction::Wait(_) => event is Waited,
            EnsureAction::Finished => false,
        }
    }
}

/// Whether `later` can come right after `event` while a daemon of the version `plugin_version` is
/// made sure of.
pub open spec fn ensured_after(
    event: EnsureEvent,
    later: EnsureEvent,
    state_path: Seq<u8>,
    plugin_version: Seq<char>,
) -> bool {
    exists|action: EnsureAction| #[trigger]
        action.follows(event, state_path, plugin_version) && action.reported_by(later)
}

/// Whether `events` are the events while a daemon of the version `plugin_version` is made sure of,
/// from the start on.
pub open spec fn is_assurance(
    events: Seq<EnsureEvent>,
    state_path: Seq<u8>,
    plugin_version: Seq<char>,
) -> bool {
    &&& events.len() > 0
    &&& events[0] is Start
    &&& forall|i: int, j: int|
        #![trigger events[i], events[j]]
        0 <= i && j == i + 1 && j < events.len() ==> ensured_after(
            events[i],
            events[j],
            state_path,
            plugin_version,
        )
}

/// Whether `event` is that the running daemon was found to have another version.
pub open spec fn is_mismatch(event: EnsureEvent, plugin_version: Seq<char>) -> bool {
    event matches EnsureEvent::VersionRead(read) && trimmed(text_or_empty(read)) != plugin_version
}

/// Nothing is stopped or started unless the running daemon was found to have another version:
/// whatever is done beyond reading that version is done after that.
pub proof fn law_replacing_needs_mismatch(
    events: Seq<EnsureEvent>,
    state_path: Seq<u8>,
    plugin_version: Seq<char>,
    position: int,
    action: EnsureAction,
)
    requires
        is_assurance(events, state_path, plugin_version),
        0 <= position < events.len(),
        action.follows(events[position], state_path, plugin_version),
        !(action is ReadVersion) && !(action is Finished),
    ensures
        exists|i: int| 0 <= i <= position && is_mismatch(#[trigger] events[i], plugin_version),
    decreases position,
{
    if !is_mismatch(events[position], plugin_version) {
        assert(position > 0);
        let before = events[position - 1];
        assert(ensured_after(before, events[position], state_path, plugin_version));
        let earlier = choose|earlier: EnsureAction| #[trigger]
            earlier.follows(before, state_path, plugin_version) && earlier.reported_by(
                events[position],
            );
        law_replacing_needs_mismatch(events, state_path, plugin_version, position - 1, earlier);
    }
}

/// A daemon that can be reached is asked to stop and not signalled: the lock file is read, and a
/// process told to end, only where no daemon could be reached.
pub proof fn law_reached_daemon_is_not_signalled(
    events: Seq<EnsureEvent>,
    state_path: Seq<u8>,
    plugin_version: Seq<char>,
    position: int,
    action: EnsureAction,
)
    requires
        is_assurance(events, state_path, plugin_version),
        0 <= position < events.len(),
        action.follows(events[position], state_path, plugin_version),
        action is ReadLock || action is Terminate,
    ensures
        exists|i: int|
            0 <= i <= position && (#[trigger] events[i] matches EnsureEvent::DaemonReached(Err(_))),
{
    if action is Terminate {
        assert(events[position] is LockRead);
        let before = events[position - 1];
        assert(ensured_after(before, events[position], state_path, plugin_version));
        assert(before matches EnsureEvent::DaemonReached(Err(_)));
    } else {
        assert(events[position] matches EnsureEvent::DaemonReached(Err(_)));
    }
}

/// A daemon that left its version behind is left alone by a program of the same version: that
/// looks into the same file, and is content with what it finds there, as long as the version has
/// no white space at its ends.
pub proof fn law_same_version_is_left_alone(
    writing: DaemonAction,
    event: DaemonEvent,
    setup: Setup,
    reading: EnsureAction,
    action: EnsureAction,
    loaded: String,
)
    requires
        writing.follows(event, setup),
        writing is WriteVersion,
        reading.follows(EnsureEvent::Start, setup.state_path, setup.version),
        loaded@ == writing->content@,
        action.follows(EnsureEvent::VersionRead(Ok(loaded)), setup.state_path, setup.version),
        setup.version.len() > 0 ==> !is_white_space(setup.version[0]) && !is_white_space(
            setup.version.last(),
        ),
    ensures
        reading matches EnsureAction::ReadVersion(path) && path@ == writing->WriteVersion_path@,
        action == EnsureAction::Finished,
{
}

/// A daemon of another version is gone for, whatever the two versions are: where what was read of
/// the version is not the program's version, the next thing is to reach the running daemon, through
/// the socket below the state directory.
pub proof fn law_mismatch_is_acted_on(
    action: EnsureAction,
    read: String,
    state_path: Seq<u8>,
    plugin_version: Seq<char>,
)
    requires
        action.follows(EnsureEvent::VersionRead(Ok(read)), state_path, plugin_version),
        trimmed(read@) != plugin_version,
    ensures
        action matches EnsureAction::ReachDaemon(path) && path@ == joined(
            state_path,
            encode_utf8("daemon.sock"@),
        ),
{
}

/// Where no version could be read, the running daemon is gone for as well, unless the program's
/// version is empty.
pub proof fn law_missing_version_is_acted_on(
    action: EnsureAction,
    error: std::io::Error,
    state_path: Seq<u8>,
    plugin_version: Seq<char>,
)
    requires
        action.follows(EnsureEvent::VersionRead(Err(error)), state_path, plugin_version),
        plugin_version.len() > 0,
    ensures
        action matches EnsureAction::ReachDaemon(path) && path@ == joined(
            state_path,
            encode_utf8("daemon.sock"@),
        ),
{
    assert(trimmed(Seq::<char>::empty()).len() == 0);
}

/// Making sure of a daemon starts with the version file, and comes to an end in four ways only: the
/// version that was read is the program's, the program was not found, the new daemon was reached,
/// or the time for that is up.
pub proof fn law_ensuring_ends_in_four_ways(
    action: EnsureAction,
    event: EnsureEvent,
    state_path: Seq<u8>,
    plugin_version: Seq<char>,
)
    requires
        action.follows(event, state_path, plugin_version),
    ensures
        action is Finished <==> match event {
            EnsureEvent::VersionRead(Ok(read)) => trimmed(read@) == plugin_version,
            EnsureEvent::VersionRead(Err(_)) => plugin_version.len() == 0,
            EnsureEvent::ProgramFound(found) => found is Err,
            EnsureEvent::NewDaemonReached(reached) => reached is Ok,
            EnsureEvent::Elapsed(elapsed) => elapsed >= 1_000_000_000,
            _ => false,
        },
        event is Start ==> (action matches EnsureAction::ReadVersion(path) && path@ == joined(
            state_path,
            encode_utf8("daemon.version"@),
        )),
{
    assert(trimmed(Seq::<char>::empty()).len() == 0);
    assert(Seq::<char>::empty() =~= plugin_version <==> plugin_version.len() == 0);
}

/// A running daemon that was reached is told to stop, whatever fails on the way: reading from it is
/// limited to a second, the command is sent, the end of that is marked, and then it is waited for.
/// The lock is looked into only where it was not reached.
pub proof fn law_reached_daemon_is_told_to_stop(
    action: EnsureAction,
    event: EnsureEvent,
    state_path: Seq<u8>,
    plugin_version: Seq<char>,
)
    requires
        action.follows(event, state_path, plugin_version),
    ensures
        action matches EnsureAction::SetReadLimit(millis) ==> millis == 1000,
        action is SetReadLimit <==> (event matches EnsureEvent::DaemonReached(Ok(_))),
        action is ReadLock <==> (event matches EnsureEvent::DaemonReached(Err(_))),
        action matches EnsureAction::ReadLock(path) ==> path@ == joined(
            state_path,
            encode_utf8("writer.lock"@),
        ),
        action is SendCommand <==> event is ReadLimitSet,
        action matches EnsureAction::SendCommand(command) ==> command@ == "SHUTDOWN"@,
        action is EndSending <==> event is CommandSent,
        action is Drain <==> event is SendingEnded,
{
}

/// That an old daemon did not stop is shown just where reading from it timed out, which has two
/// kinds of failure. However the old daemon was dealt with, the program is then looked for.
pub proof fn law_stuck_daemon_is_shown(
    action: EnsureAction,
    event: EnsureEvent,
    state_path: Seq<u8>,
    plugin_version: Seq<char>,
)
    requires
        action.follows(event, state_path, plugin_version),
    ensures
        action is Notify <==> (event == EnsureEvent::Drained(Err(FailureKind::WouldBlock)) || event
            == EnsureEvent::Drained(Err(FailureKind::TimedOut))),
        action matches EnsureAction::Notify(notice) ==> notice@
            == "Could not shutdown the old daemon, please run `pkill herdr-prevtab`"@,
        event is Drained && !(action is Notify) ==> action is FindProgram,
        event is Notified || event is Terminated ==> action is FindProgram,
{
}

/// A process is told to end just where the lock file holds its number and nothing else but white
/// space around it, and that number is not zero.
pub proof fn law_lock_names_who_ends(
    action: EnsureAction,
    event: EnsureEvent,
    state_path: Seq<u8>,
    plugin_version: Seq<char>,
    pid: i32,
)
    requires
        action.follows(event, state_path, plugin_version),
    ensures
        action == EnsureAction::Terminate(pid) <==> pid != 0 && (event matches EnsureEvent::LockRead(
            Ok(content),
        ) && parsed_i32(trimmed(content@)) == Some(pid)),
        event is LockRead && !(action is Terminate) ==> action is FindProgram,
{
    assert(trimmed(Seq::<char>::empty()).len() == 0);
}

/// Where the program was found, it is started as a daemon. Whether that worked or not, the new
/// daemon is then tried to be reached, again and again with a pause of two milliseconds, for as
/// long as a second has not passed.
pub proof fn law_new_daemon_is_awaited(
    action: EnsureAction,
    event: EnsureEvent,
    state_path: Seq<u8>,
    plugin_version: Seq<char>,
)
    requires
        action.follows(event, state_path, plugin_version),
    ensures
        action is Spawn <==> (event matches EnsureEvent::ProgramFound(Ok(_))),
        action matches EnsureAction::Spawn(argument) ==> argument@ == "rund"@,
        action is LookAtTime <==> event is Spawned || event is Waited,
        action is ReachNewDaemon <==> (event matches EnsureEvent::Elapsed(elapsed) && elapsed
            < 1_000_000_000),
        action matches EnsureAction::ReachNewDaemon(path) ==> path@ == joined(
            state_path,
            encode_utf8("daemon.sock"@),
        ),
        action is Wait <==> (event matches EnsureEvent::NewDaemonReached(Err(_))),
        action matches EnsureAction::Wait(millis) ==> millis == 2,
{
}

/// A daemon comes up step by step, each with its file below the state directory: the lock file is
/// opened and emptied, the lock is tried, the version is left behind, whether that works or not,
/// the daemon detaches, the old socket goes, whether that works or not, a new one is bound, and
/// then it serves with the paths that it was started with.
pub proof fn law_daemon_comes_up(action: DaemonAction, event: DaemonEvent, setup: Setup)
    requires
        action.follows(event, setup),
    ensures
        action is OpenLock <==> event is Start,
        action matches DaemonAction::OpenLock { path, truncate } ==> truncate && path@ == joined(
            setup.state_path,
            encode_utf8("writer.lock"@),
        ),
        event matches DaemonEvent::LockOpened(Ok(_)) ==> action is TryLock,
        action is WriteVersion <==> (event matches DaemonEvent::LockTried { locked, .. } && locked),
        action matches DaemonAction::WriteVersion { path, content } ==> content@ == setup.version
            && path@ == joined(setup.state_path, encode_utf8("daemon.version"@)),
        action is Daemonize <==> event is VersionWritten,
        action matches DaemonAction::Daemonize { log_path } ==> log_path@ == joined(
            setup.state_path,
            encode_utf8("daemon.log"@),
        ),
        action is RemoveSocket <==> (event matches DaemonEvent::Daemonized(Ok(_))),
        action matches DaemonAction::RemoveSocket(path) ==> path@ == joined(
            setup.state_path,
            encode_utf8("daemon.sock"@),
        ),
        action is Bind <==> event is SocketRemoved,
        action matches DaemonAction::Bind(path) ==> path@ == joined(
            setup.state_path,
            encode_utf8("daemon.sock"@),
        ),
        action is Serve <==> (event matches DaemonEvent::Bound(Ok(_))),
        action matches DaemonAction::Serve { socket_path, state_path } ==> socket_path@
            == setup.socket_path && state_path@ == setup.state_path,
{
}

/// A daemon does not come up in four cases only, and each is told apart: its lock file cannot be
/// opened, fifty tries for the lock have failed, it cannot detach, or it cannot bind its socket.
/// The first, third and fourth hand the error on.
pub proof fn law_daemon_fails_in_four_cases(
    action: DaemonAction,
    event: DaemonEvent,
    setup: Setup,
)
    requires
        action.follows(event, setup),
    ensures
        action is Abort <==> match event {
            DaemonEvent::LockOpened(outcome) => outcome is Err,
            DaemonEvent::Waited { attempt } => attempt >= 49,
            DaemonEvent::Daemonized(outcome) => outcome is Err,
            DaemonEvent::Bound(outcome) => outcome is Err,
            _ => false,
        },
        event matches DaemonEvent::LockOpened(Err(failed)) ==> (action matches DaemonAction::Abort(
            DaemonFailure::OpenLock(error),
        ) && error == failed),
        event is Waited && action is Abort ==> (action matches DaemonAction::Abort(
            DaemonFailure::AlreadyRunning,
        )),
        event matches DaemonEvent::Daemonized(Err(failed)) ==> (action matches DaemonAction::Abort(
            DaemonFailure::Daemonize(error),
        ) && error == failed),
        event matches DaemonEvent::Bound(Err(failed)) ==> (action matches DaemonAction::Abort(
            DaemonFailure::Bind(error),
        ) && error == failed),
{
}

/// Each failed try for the lock is followed by a tenth of a second, and then by the next try, which
/// is counted.
pub proof fn law_lock_is_tried_again(
    action: DaemonAction,
    event: DaemonEvent,
    setup: Setup,
    attempt: u32,
)
    requires
        action.follows(event, setup),
    ensures
        event == (DaemonEvent::LockTried { attempt, locked: false }) ==> action == (
        DaemonAction::Wait { attempt, millis: 100 }),
        event == (DaemonEvent::Waited { attempt }) && attempt < 49 ==> (
        action matches DaemonAction::TryLock { attempt: next } && next == attempt + 1),
        event matches DaemonEvent::LockOpened(Ok(_)) ==> action == (DaemonAction::TryLock {
            attempt: 0,
        }),
{
}

/// A daemon stops on one command only, letter for letter and with nothing after it. It then takes
/// its socket away and ends with success. Everything else leaves it running.
pub proof fn law_daemon_stops_on_command_only(
    action: ServeAction,
    received: Result<Vec<u8>, std::io::Error>,
    state_path: Seq<u8>,
)
    requires
        action.follows(received, state_path),
    ensures
        action is Stop <==> (received matches Ok(command) && command@ == encode_utf8("SHUTDOWN"@)),
        action matches ServeAction::Stop { remove, status } ==> status == 0 && remove@ == joined(
            state_path,
            encode_utf8("daemon.sock"@),
        ),
{
}

} // verus!
