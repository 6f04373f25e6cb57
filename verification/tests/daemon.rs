use herdr_prevtab::daemon::{
    ensure_daemon_running, is_shutdown, lock_holder, plugin_version, serve_command, DaemonAction,
    DaemonEvent, DaemonFailure, DaemonFile, EnsureAction, EnsureEvent, ServeAction,
    DAEMON_SHUTDOWN_CMD,
};
use herdr_prevtab::error::FailureKind;

const VERSION: &str = "0.2.0-abc1234";

fn io_error() -> std::io::Error {
    std::io::Error::from(std::io::ErrorKind::NotFound)
}

fn ensure(event: EnsureEvent) -> EnsureAction {
    ensure_daemon_running(b"/s", VERSION, event)
}

fn run_daemon(event: DaemonEvent) -> DaemonAction<'static> {
    herdr_prevtab::daemon::run_daemon(b"/h.sock", b"/s", VERSION, event)
}

#[test]
fn versions() {
    assert_eq!(plugin_version(Some("9"), "0.2.0", Some("abc")), "9");
    assert_eq!(plugin_version(None, "0.2.0", Some("abc1234\n")), "0.2.0-abc1234");
    assert_eq!(plugin_version(None, "0.2.0", None), "0.2.0");
}

#[test]
fn daemon_files() {
    assert_eq!(DaemonFile::Lock.path(b"/s"), b"/s/writer.lock");
    assert_eq!(DaemonFile::Socket.path(b"/s"), b"/s/daemon.sock");
    assert_eq!(DaemonFile::Version.path(b"/s/"), b"/s/daemon.version");
    assert_eq!(DaemonFile::Log.path(b""), b"daemon.log");
}

#[test]
fn daemon_comes_up() {
    match run_daemon(DaemonEvent::Start) {
        DaemonAction::OpenLock { path, truncate } => {
            assert_eq!(path, b"/s/writer.lock");
            assert!(truncate);
        }
        _ => panic!("the lock comes first"),
    }
    assert!(matches!(
        run_daemon(DaemonEvent::LockOpened(Ok(()))),
        DaemonAction::TryLock { attempt: 0 }
    ));
    match run_daemon(DaemonEvent::LockTried { attempt: 7, locked: true }) {
        DaemonAction::WriteVersion { path, content } => {
            assert_eq!(path, b"/s/daemon.version");
            assert_eq!(content, VERSION);
        }
        _ => panic!("the lock was got"),
    }
    for outcome in [Ok(()), Err(io_error())] {
        assert!(matches!(
            run_daemon(DaemonEvent::VersionWritten(outcome)),
            DaemonAction::Daemonize { log_path } if log_path == b"/s/daemon.log"
        ));
    }
    assert!(matches!(
        run_daemon(DaemonEvent::Daemonized(Ok(()))),
        DaemonAction::RemoveSocket(path) if path == b"/s/daemon.sock"
    ));
    for outcome in [Ok(()), Err(io_error())] {
        assert!(matches!(
            run_daemon(DaemonEvent::SocketRemoved(outcome)),
            DaemonAction::Bind(path) if path == b"/s/daemon.sock"
        ));
    }
    match run_daemon(DaemonEvent::Bound(Ok(()))) {
        DaemonAction::Serve { socket_path, state_path } => {
            assert_eq!(socket_path, b"/h.sock");
            assert_eq!(state_path, b"/s");
        }
        _ => panic!("the daemon is up"),
    }
}

/// The number of daemons past an exclusive lock, of three that come up in turns.
#[test]
fn one_daemon_past_lock() {
    let mut holder: Option<usize> = None;
    let mut events: Vec<Option<DaemonEvent>> = vec![
        Some(DaemonEvent::Start),
        Some(DaemonEvent::Start),
        Some(DaemonEvent::Start),
    ];
    let mut serving = Vec::new();
    for _ in 0..200 {
        for id in 0..3 {
            let Some(event) = events[id].take() else { continue };
            events[id] = match run_daemon(event) {
                DaemonAction::OpenLock { .. } => Some(DaemonEvent::LockOpened(Ok(()))),
                DaemonAction::TryLock { attempt } => {
                    let locked = holder.is_none();
                    if locked {
                        holder = Some(id);
                    }
                    Some(DaemonEvent::LockTried { attempt, locked })
                }
                DaemonAction::Wait { attempt, .. } => Some(DaemonEvent::Waited { attempt }),
                DaemonAction::WriteVersion { .. } => {
                    assert_eq!(holder, Some(id));
                    Some(DaemonEvent::VersionWritten(Ok(())))
                }
                DaemonAction::Daemonize { .. } => Some(DaemonEvent::Daemonized(Ok(()))),
                DaemonAction::RemoveSocket(_) => {
                    assert_eq!(holder, Some(id));
                    Some(DaemonEvent::SocketRemoved(Ok(())))
                }
                DaemonAction::Bind(_) => Some(DaemonEvent::Bound(Ok(()))),
                DaemonAction::Serve { .. } => {
                    serving.push(id);
                    None
                }
                DaemonAction::Abort(_) => None,
            };
        }
    }
    assert_eq!(serving, [0]);
}

#[test]
fn lock_is_tried_fifty_times() {
    let mut tries = 0;
    let mut slept = 0;
    let mut event = DaemonEvent::LockOpened(Ok(()));
    loop {
        event = match run_daemon(event) {
            DaemonAction::TryLock { attempt } => {
                assert_eq!(attempt, tries);
                tries += 1;
                DaemonEvent::LockTried { attempt, locked: false }
            }
            DaemonAction::Wait { attempt, millis } => {
                slept += millis;
                DaemonEvent::Waited { attempt }
            }
            DaemonAction::Abort(DaemonFailure::AlreadyRunning) => break,
            _ => panic!("the lock is not to be had"),
        };
    }
    assert_eq!((tries, slept), (50, 5000));
    assert!(matches!(
        run_daemon(DaemonEvent::Waited { attempt: u32::MAX }),
        DaemonAction::Abort(DaemonFailure::AlreadyRunning)
    ));
}

#[test]
fn daemon_that_does_not_come_up() {
    assert!(matches!(
        run_daemon(DaemonEvent::LockOpened(Err(io_error()))),
        DaemonAction::Abort(DaemonFailure::OpenLock(_))
    ));
    assert!(matches!(
        run_daemon(DaemonEvent::Daemonized(Err(io_error()))),
        DaemonAction::Abort(DaemonFailure::Daemonize(_))
    ));
    assert!(matches!(
        run_daemon(DaemonEvent::Bound(Err(io_error()))),
        DaemonAction::Abort(DaemonFailure::Bind(_))
    ));
}

#[test]
fn shutdown_command() {
    assert!(is_shutdown(Ok(DAEMON_SHUTDOWN_CMD.as_bytes().to_vec())));
    assert!(is_shutdown(Ok(b"SHUTDOWN".to_vec())));
    assert!(!is_shutdown(Ok(b"SHUTDOWN\n".to_vec())));
    assert!(!is_shutdown(Ok(Vec::new())));
    assert!(!is_shutdown(Err(io_error())));
}

#[test]
fn same_version_is_left_alone() {
    assert!(matches!(
        ensure(EnsureEvent::Start),
        EnsureAction::ReadVersion(path) if path == b"/s/daemon.version"
    ));
    for text in [VERSION.to_string(), format!("{VERSION}\n")] {
        assert!(matches!(
            ensure(EnsureEvent::VersionRead(Ok(text))),
            EnsureAction::Finished
        ));
    }
    for read in [Ok("0.1.9".to_string()), Ok(String::new()), Err(io_error())] {
        assert!(matches!(
            ensure(EnsureEvent::VersionRead(read)),
            EnsureAction::ReachDaemon(path) if path == b"/s/daemon.sock"
        ));
    }
}

#[test]
fn old_daemon_is_stopped() {
    assert!(matches!(
        ensure(EnsureEvent::DaemonReached(Ok(()))),
        EnsureAction::SetReadLimit(1000)
    ));
    for outcome in [Ok(()), Err(io_error())] {
        assert!(matches!(
            ensure(EnsureEvent::ReadLimitSet(outcome)),
            EnsureAction::SendCommand("SHUTDOWN")
        ));
    }
    for outcome in [Ok(()), Err(io_error())] {
        assert!(matches!(
            ensure(EnsureEvent::CommandSent(outcome)),
            EnsureAction::EndSending
        ));
    }
    for outcome in [Ok(()), Err(io_error())] {
        assert!(matches!(
            ensure(EnsureEvent::SendingEnded(outcome)),
            EnsureAction::Drain
        ));
    }
    for drained in [Ok(()), Err(FailureKind::Other), Err(FailureKind::AlreadyExists)] {
        assert!(matches!(
            ensure(EnsureEvent::Drained(drained)),
            EnsureAction::FindProgram
        ));
    }
    for kind in [FailureKind::WouldBlock, FailureKind::TimedOut] {
        match ensure(EnsureEvent::Drained(Err(kind))) {
            EnsureAction::Notify(notice) => assert_eq!(
                notice,
                "Could not shutdown the old daemon, please run `pkill herdr-prevtab`"
            ),
            _ => panic!("the daemon did not stop"),
        }
    }
    assert!(matches!(ensure(EnsureEvent::Notified), EnsureAction::FindProgram));
}

#[test]
fn lock_names_a_process() {
    assert!(matches!(
        ensure(EnsureEvent::DaemonReached(Err(io_error()))),
        EnsureAction::ReadLock(path) if path == b"/s/writer.lock"
    ));
    assert!(matches!(
        ensure(EnsureEvent::LockRead(Ok(" 4321\n".to_string()))),
        EnsureAction::Terminate(4321)
    ));
    for read in [Ok(String::new()), Ok("0".to_string()), Err(io_error())] {
        assert!(matches!(
            ensure(EnsureEvent::LockRead(read)),
            EnsureAction::FindProgram
        ));
    }
    assert!(matches!(ensure(EnsureEvent::Terminated), EnsureAction::FindProgram));
}

#[test]
fn process_numbers() {
    assert_eq!(lock_holder("+7"), Some(7));
    assert_eq!(lock_holder("-7"), Some(-7));
    assert_eq!(lock_holder("007"), Some(7));
    assert_eq!(lock_holder("2147483647"), Some(i32::MAX));
    assert_eq!(lock_holder("2147483648"), None);
    assert_eq!(lock_holder("-2147483648"), Some(i32::MIN));
    assert_eq!(lock_holder("-2147483649"), None);
    for text in ["-0", "", "-", "+", "+-1", "1 2", "1_000", "0x10", "12a", "\u{663}"] {
        assert_eq!(lock_holder(text), None, "{text}");
    }
}

#[test]
fn new_daemon_is_waited_for() {
    assert!(matches!(
        ensure(EnsureEvent::ProgramFound(Ok(()))),
        EnsureAction::Spawn("rund")
    ));
    assert!(matches!(
        ensure(EnsureEvent::ProgramFound(Err(io_error()))),
        EnsureAction::Finished
    ));
    for outcome in [Ok(()), Err(io_error())] {
        assert!(matches!(
            ensure(EnsureEvent::Spawned(outcome)),
            EnsureAction::LookAtTime
        ));
    }
    assert!(matches!(
        ensure(EnsureEvent::Elapsed(999_999_999)),
        EnsureAction::ReachNewDaemon(path) if path == b"/s/daemon.sock"
    ));
    assert!(matches!(
        ensure(EnsureEvent::Elapsed(1_000_000_000)),
        EnsureAction::Finished
    ));
    assert!(matches!(
        ensure(EnsureEvent::NewDaemonReached(Ok(()))),
        EnsureAction::Finished
    ));
    assert!(matches!(
        ensure(EnsureEvent::NewDaemonReached(Err(io_error()))),
        EnsureAction::Wait(2)
    ));
    assert!(matches!(ensure(EnsureEvent::Waited), EnsureAction::LookAtTime));
}

#[test]
fn daemon_stops_on_command_only() {
    match serve_command(b"/s", Ok(b"SHUTDOWN".to_vec())) {
        ServeAction::Stop { remove, status } => {
            assert_eq!(remove, b"/s/daemon.sock");
            assert_eq!(status, 0);
        }
        ServeAction::Next => panic!("this is the command to stop"),
    }
    for bytes in [b"".as_slice(), b"SHUTDOWN\n", b"SHUTDOWNx", b"shutdown", b"SHUTDOW"] {
        assert!(matches!(serve_command(b"/s", Ok(bytes.to_vec())), ServeAction::Next));
    }
    assert!(matches!(serve_command(b"/s", Err(io_error())), ServeAction::Next));
}
