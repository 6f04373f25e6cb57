use herdr_prevtab::cli::{Jump, JumpAction, JumpEvent};
use herdr_prevtab::protocol::{snapshot_request, subscription_request};
use herdr_prevtab::reconnect::{run_subscriber, Reconnect, ReconnectAction};
use herdr_prevtab::state_file::{ReadAction, ReadEvent};
use herdr_prevtab::subscriber::{
    fetch_herdr_snapshot, process_events, subscribe_and_run, subscribe_tab_focused_events,
    EventStep, Note, Saving, SessionAction, SessionEvent, SnapshotStep,
};
use herdr_prevtab::tabs::CurrentTabs;
use herdr_prevtab::{Error, HerdrError};

fn io_error() -> std::io::Error {
    std::io::Error::from(std::io::ErrorKind::BrokenPipe)
}

fn text(line: &str) -> Result<Option<String>, std::io::Error> {
    Ok(Some(line.to_string()))
}

fn requests_events(action: SessionAction, snapshot: bool) -> bool {
    matches!(
        action,
        SessionAction::RequestEvents { line, has_snapshot }
            if line == subscription_request() && has_snapshot == snapshot
    )
}

/// A step of a session in which nothing is focused yet.
fn step(event: SessionEvent) -> SessionAction {
    subscribe_and_run(&mut CurrentTabs::default(), b"/s", event)
}

fn focused(tab_id: &str, workspace_id: &str) -> SessionEvent {
    SessionEvent::EventReceived(Ok(Some(format!(
        "{{\"event\":\"tab_focused\",\"data\":\
         {{\"tab_id\":\"{tab_id}\",\"workspace_id\":\"{workspace_id}\"}}}}"
    ))))
}

#[test]
fn session_from_start_to_end() {
    let mut tabs = CurrentTabs::default();
    let mut step = |event: SessionEvent| subscribe_and_run(&mut tabs, b"/s", event);
    assert!(matches!(step(SessionEvent::Start), SessionAction::Connect));
    assert!(matches!(
        step(SessionEvent::Connected(Ok(()))),
        SessionAction::RequestSnapshot(line) if line == snapshot_request()
    ));
    assert!(matches!(
        step(SessionEvent::SnapshotRequested(Ok(()))),
        SessionAction::ReceiveSnapshot
    ));
    let snapshot = "{\"id\":\"prevtab_snapshot\",\"result\":{\"snapshot\":\
                    {\"focused_tab_id\":\"t\",\"focused_workspace_id\":\"w\"}}}";
    assert!(requests_events(step(SessionEvent::SnapshotReceived(text(snapshot))), true));
    assert!(matches!(
        step(SessionEvent::EventsRequested(Ok(()))),
        SessionAction::ReceiveAnswer
    ));
    let answer = "{\"id\":\"prevtab_sub_tab_focused\",\"result\":true}";
    assert!(matches!(
        step(SessionEvent::AnswerReceived(text(answer))),
        SessionAction::ReceiveEvent
    ));
    let note = match step(focused("u", "w")) {
        SessionAction::Save { note, content } => {
            assert_eq!(content, "t");
            assert_eq!(note.file(b"/s").path(), b"/s/w");
            note
        }
        _ => panic!("another tab was focused before"),
    };
    assert!(matches!(
        step(SessionEvent::Saved { note, outcome: Ok(()) }),
        SessionAction::ReceiveEvent
    ));
    let note = match step(focused("u", "v")) {
        SessionAction::Save { note, content } => {
            assert_eq!(content, "w");
            assert_eq!(note.file(b"/s").path(), b"/s/prev_workspace");
            note
        }
        _ => panic!("another workspace was focused before"),
    };
    assert!(matches!(
        step(SessionEvent::Saved { note, outcome: Ok(()) }),
        SessionAction::ReceiveEvent
    ));
    assert!(matches!(
        step(SessionEvent::EventReceived(text("{}"))),
        SessionAction::ReceiveEvent
    ));
    assert!(matches!(
        step(SessionEvent::EventReceived(Ok(None))),
        SessionAction::Finished(Ok(()))
    ));
    assert_eq!(tabs.current_tab("w"), Some("u"));
    assert_eq!(tabs.current_tab("v"), Some("u"));
    assert_eq!(tabs.current_workspace.as_deref(), Some("v"));
}

#[test]
fn session_starts_with_nothing_focused() {
    let mut tabs = CurrentTabs::default();
    assert!(matches!(
        subscribe_and_run(&mut tabs, b"/s", focused("t", "w")),
        SessionAction::ReceiveEvent
    ));
    assert_eq!(tabs.current_tab("w"), Some("t"));
    subscribe_and_run(&mut tabs, b"/s", SessionEvent::Start);
    assert_eq!(tabs.current_tab("w"), None);
    assert_eq!(tabs.current_workspace, None);
}

/// Runs the lines through a session in which each save ends as `saves` says, in order.
fn follow(lines: &[(&str, &str)], saves: &[bool]) -> (CurrentTabs, Vec<String>) {
    let mut tabs = CurrentTabs::default();
    let mut written = Vec::new();
    let mut saves = saves.iter();
    for (tab_id, workspace_id) in lines {
        let mut action = subscribe_and_run(&mut tabs, b"/s", focused(tab_id, workspace_id));
        while let SessionAction::Save { note, content } = action {
            let outcome = if *saves.next().unwrap() {
                written.push(content);
                Ok(())
            } else {
                Err(io_error())
            };
            action = subscribe_and_run(&mut tabs, b"/s", SessionEvent::Saved { note, outcome });
        }
        assert!(matches!(action, SessionAction::ReceiveEvent));
    }
    assert!(saves.next().is_none());
    (tabs, written)
}

#[test]
fn lines_are_followed_in_order() {
    let lines = [("a", "w"), ("b", "w"), ("b", "w"), ("c", "v"), ("a", "w")];
    let (tabs, written) = follow(&lines, &[true, true, true, true]);
    assert_eq!(written, ["a", "w", "b", "v"]);
    assert_eq!(tabs.current_tab("w"), Some("a"));
    assert_eq!(tabs.current_tab("v"), Some("c"));
    assert_eq!(tabs.current_workspace.as_deref(), Some("w"));
}

#[test]
fn failed_saves_do_not_end_a_session() {
    let lines = [("a", "w"), ("b", "w"), ("c", "w"), ("d", "v"), ("d", "v")];
    let (tabs, written) = follow(&lines, &[false, true, false, true]);
    assert_eq!(written, ["a", "w"]);
    assert_eq!(tabs.current_tab("w"), Some("c"));
    assert_eq!(tabs.current_workspace.as_deref(), Some("v"));
}

#[test]
fn snapshot_save_goes_on_to_events() {
    for outcome in [Ok(()), Err(io_error())] {
        let note = Note {
            tab_id: "t".to_string(),
            workspace_id: "w".to_string(),
            from_snapshot: true,
            saving: Saving::Workspace,
        };
        assert!(requests_events(step(SessionEvent::Saved { note, outcome }), true));
    }
}

#[test]
fn session_goes_on_without_snapshot() {
    let empty = text("{\"id\":\"prevtab_snapshot\",\"error\":{}}");
    for event in [
        SessionEvent::SnapshotRequested(Err(io_error())),
        SessionEvent::SnapshotReceived(Err(io_error())),
        SessionEvent::SnapshotReceived(Ok(None)),
        SessionEvent::SnapshotReceived(text("no json")),
        SessionEvent::SnapshotReceived(empty),
    ] {
        assert!(requests_events(step(event), false));
    }
    assert!(matches!(
        step(SessionEvent::SnapshotReceived(text("{\"id\":\"other\"}"))),
        SessionAction::ReceiveSnapshot
    ));
}

#[test]
fn late_snapshot_is_skipped() {
    let late = text("{\"id\":\"prevtab_snapshot\",\"error\":{}}");
    assert!(matches!(
        step(SessionEvent::AnswerReceived(late)),
        SessionAction::ReceiveAnswer
    ));
}

#[test]
fn session_that_fails() {
    for event in [
        SessionEvent::Connected(Err(io_error())),
        SessionEvent::EventsRequested(Err(io_error())),
        SessionEvent::AnswerReceived(Err(io_error())),
        SessionEvent::EventReceived(Err(io_error())),
    ] {
        assert!(matches!(
            step(event),
            SessionAction::Finished(Err(Error::Io(_)))
        ));
    }
    assert!(matches!(
        step(SessionEvent::AnswerReceived(Ok(None))),
        SessionAction::Finished(Err(Error::Herdr(HerdrError::ConnectionClosed)))
    ));
    for event in [
        SessionEvent::AnswerReceived(text("no json")),
        SessionEvent::EventReceived(text("no json")),
    ] {
        assert!(matches!(
            step(event),
            SessionAction::Finished(Err(Error::Herdr(HerdrError::InvalidJson(_))))
        ));
    }
    let refusal = text("{\"id\":\"prevtab_sub_tab_focused\",\"error\":\"no\"}");
    assert!(matches!(
        step(SessionEvent::AnswerReceived(refusal)),
        SessionAction::Finished(Err(Error::Herdr(HerdrError::RequestFailed {
            method: "subscription",
            detail,
        }))) if detail == "\"no\""
    ));
}

#[test]
fn single_lines() {
    assert!(matches!(fetch_herdr_snapshot(text("{}")), Ok(SnapshotStep::Wait)));
    assert!(matches!(
        fetch_herdr_snapshot(text("{\"id\":\"prevtab_snapshot\"}")),
        Ok(SnapshotStep::Focus(None))
    ));
    assert!(matches!(subscribe_tab_focused_events(text("{}")), Ok(false)));
    assert!(matches!(
        subscribe_tab_focused_events(text("{\"id\":\"prevtab_sub_tab_focused\"}")),
        Ok(true)
    ));
    assert!(matches!(process_events(Ok(None)), Ok(EventStep::Closed)));
    assert!(matches!(process_events(text("[]")), Ok(EventStep::Wait)));
}

#[test]
fn pauses_after_short_sessions() {
    let mut state = Reconnect::new();
    let mut pauses = Vec::new();
    while let ReconnectAction::Sleep(millis) = run_subscriber(&mut state, 5_000_000_000) {
        pauses.push(millis);
    }
    assert_eq!(
        pauses,
        [
            10, 20, 40, 80, 160, 320, 640, 1280, 2000, 2000, 2000, 2000, 2000, 2000, 2000, 2000,
            2000
        ]
    );
}

#[test]
fn lasting_session_starts_over() {
    let mut state = Reconnect::new();
    for _ in 0..17 {
        assert!(matches!(run_subscriber(&mut state, 0), ReconnectAction::Sleep(_)));
    }
    assert!(matches!(run_subscriber(&mut state, 5_000_000_001), ReconnectAction::Sleep(10)));
    assert!(matches!(run_subscriber(&mut state, 0), ReconnectAction::Sleep(20)));
}

#[test]
fn pauses_double_again_after_a_lasting_session() {
    let mut state = Reconnect::new();
    for _ in 0..5 {
        run_subscriber(&mut state, 0);
    }
    run_subscriber(&mut state, 6_000_000_000);
    let mut pauses = 0;
    while let ReconnectAction::Sleep(_) = run_subscriber(&mut state, 1) {
        pauses += 1;
    }
    assert_eq!(pauses, 16);
}

#[test]
fn session_leaves_previous_tab_for_a_jump() {
    let mut tabs = CurrentTabs::default();
    let mut recorded = std::collections::HashMap::new();
    for (tab_id, workspace_id) in [("a", "v"), ("b", "w"), ("c", "w")] {
        let mut action = subscribe_and_run(&mut tabs, b"/s", focused(tab_id, workspace_id));
        while let SessionAction::Save { note, content } = action {
            recorded.insert(note.file(b"/s").path(), content);
            let saved = SessionEvent::Saved { note, outcome: Ok(()) };
            action = subscribe_and_run(&mut tabs, b"/s", saved);
        }
    }
    for (jump, expected) in [(Jump::Tab, "b"), (Jump::Workspace, "v")] {
        let file = jump.file(b"/s", "w");
        let content = recorded.get(&file.path()).unwrap().clone();
        let id = match file.read(ReadEvent::Loaded(Ok(content))) {
            ReadAction::Finished(result) => result,
            ReadAction::Load(_) => panic!("the file was read"),
        };
        match jump.step(JumpEvent::Read(id)) {
            JumpAction::Ask(id) => assert_eq!(id, expected),
            _ => panic!("an id is recorded"),
        }
    }
}
