use herdr_prevtab::json::text_member;
use herdr_prevtab::protocol::{
    herdr_notify, is_response, jump_back, read_event, read_response, read_snapshot, request,
    resp_ok, snapshot_request, subscription_request, workspace_jump_back, CallAction, CallEvent,
};
use herdr_prevtab::{Error, HerdrError};
use serde_json::Value;
use std::io::ErrorKind;

fn json(text: &str) -> Value {
    serde_json::from_str(text).unwrap()
}

fn line(text: &str) -> CallEvent {
    CallEvent::Received(Ok(Some(text.to_string())))
}

fn io_error() -> std::io::Error {
    std::io::Error::from(ErrorKind::BrokenPipe)
}

fn sent(action: CallAction) -> String {
    match action {
        CallAction::Send(line) => line,
        _ => panic!("a request is sent once the connection is there"),
    }
}

#[test]
fn requests_as_they_are_sent() {
    assert_eq!(
        sent(jump_back("w1:\"2\"\n", CallEvent::Connected(Ok(())))),
        "{\"id\":\"prevtab_jump_back\",\"method\":\"tab.focus\",\
         \"params\":{\"tab_id\":\"w1:\\\"2\\\"\\n\"}}\n"
    );
    assert_eq!(
        sent(workspace_jump_back("w1", CallEvent::Connected(Ok(())))),
        "{\"id\":\"prevtab_ws_jump_back\",\"method\":\"workspace.focus\",\
         \"params\":{\"workspace_id\":\"w1\"}}\n"
    );
    assert_eq!(
        sent(herdr_notify("hello", CallEvent::Connected(Ok(())))),
        "{\"id\":\"prevtab_notify\",\"method\":\"notification.show\",\
         \"params\":{\"body\":\"hello\",\"title\":\"prevtab\"}}\n"
    );
    assert_eq!(
        snapshot_request(),
        "{\"id\":\"prevtab_snapshot\",\"method\":\"session.snapshot\",\"params\":{}}\n"
    );
    assert_eq!(
        subscription_request(),
        "{\"id\":\"prevtab_sub_tab_focused\",\"method\":\"events.subscribe\",\
         \"params\":{\"subscriptions\":[{\"type\":\"tab.focused\"}]}}\n"
    );
}

#[test]
fn request_is_one_line() {
    let text = request("a\nb", "c\r\n", json("{\"d\": [\"\\n\", 1.5, null]}"));
    assert_eq!(text.matches('\n').count(), 1);
    assert!(text.ends_with('\n'));
    let sent = json(&text);
    assert_eq!(text_member(&sent, "id"), Some("a\nb"));
    assert_eq!(text_member(&sent, "method"), Some("c\r\n"));
    assert_eq!(sent.pointer("/params/d/1"), Some(&Value::from(1.5)));
}

#[test]
fn call_from_start_to_end() {
    assert!(matches!(jump_back("t", CallEvent::Start), CallAction::Connect));
    assert!(matches!(jump_back("t", CallEvent::Sent(Ok(()))), CallAction::Receive));
    let other = line("{\"id\":\"prevtab_notify\",\"error\":1}\n");
    assert!(matches!(jump_back("t", other), CallAction::Receive));
    let event = line("{\"event\":\"tab_focused\"}\n");
    assert!(matches!(jump_back("t", event), CallAction::Receive));
    let number = line("{\"id\":7}\n");
    assert!(matches!(jump_back("t", number), CallAction::Receive));
    let answer = line("{\"id\":\"prevtab_jump_back\",\"result\":{}}\n");
    assert!(matches!(jump_back("t", answer), CallAction::Finished(Ok(()))));
}

#[test]
fn call_that_fails() {
    for event in [
        CallEvent::Connected(Err(io_error())),
        CallEvent::Sent(Err(io_error())),
        CallEvent::Received(Err(io_error())),
    ] {
        match herdr_notify("b", event) {
            CallAction::Finished(Err(Error::Io(error))) => {
                assert_eq!(error.kind(), ErrorKind::BrokenPipe)
            }
            _ => panic!("the error is handed on"),
        }
    }
    assert!(matches!(
        workspace_jump_back("w", CallEvent::Received(Ok(None))),
        CallAction::Finished(Err(Error::Herdr(HerdrError::ConnectionClosed)))
    ));
    match jump_back("t", line("{\"id\":")) {
        CallAction::Finished(Err(Error::Herdr(HerdrError::InvalidJson(message)))) => {
            let expected = serde_json::from_str::<Value>("{\"id\":").unwrap_err();
            assert_eq!(message, expected.to_string());
        }
        _ => panic!("the line is not JSON"),
    }
}

#[test]
fn refused_requests() {
    let refusal = "{\"error\":{\"message\":\"no such tab\",\"code\":-3},\"id\":\"ID\"}";
    let expected = "{\"code\":-3,\"message\":\"no such tab\"}";
    let cases = [
        (jump_back("t", line(&refusal.replace("ID", "prevtab_jump_back"))), "jump back"),
        (
            workspace_jump_back("w", line(&refusal.replace("ID", "prevtab_ws_jump_back"))),
            "jump back",
        ),
        (herdr_notify("b", line(&refusal.replace("ID", "prevtab_notify"))), "notification"),
    ];
    for (action, label) in cases {
        match action {
            CallAction::Finished(Err(Error::Herdr(HerdrError::RequestFailed {
                method,
                detail,
            }))) => {
                assert_eq!(method, label);
                assert_eq!(detail, expected);
            }
            _ => panic!("the request was refused"),
        }
    }
}

#[test]
fn answers_with_and_without_error() {
    assert!(resp_ok(&json("{\"id\":\"x\"}"), "m").is_ok());
    assert!(resp_ok(&json("[\"error\"]"), "m").is_ok());
    assert!(matches!(
        resp_ok(&json("{\"error\":null}"), "m"),
        Err(Error::Herdr(HerdrError::RequestFailed { method: "m", detail })) if detail == "null"
    ));
}

#[test]
fn awaited_answer() {
    assert!(is_response(&json("{\"id\":\"a\"}"), "a"));
    assert!(!is_response(&json("{\"id\":\"ab\"}"), "a"));
    assert!(!is_response(&json("{\"ID\":\"a\"}"), "a"));
    assert!(!is_response(&json("\"a\""), "a"));
    let answer = read_response("a", Ok(Some("{\"id\":\"a\",\"n\":1}".to_string())));
    assert_eq!(answer.unwrap(), Some(json("{\"id\":\"a\",\"n\":1}")));
    assert_eq!(read_response("b", Ok(Some("{\"id\":\"a\"}".to_string()))).unwrap(), None);
    assert!(matches!(
        read_response("a", Ok(None)),
        Err(Error::Herdr(HerdrError::ConnectionClosed))
    ));
    assert!(matches!(read_response("a", Err(io_error())), Err(Error::Io(_))));
    assert!(matches!(
        read_response("a", Ok(Some(String::new()))),
        Err(Error::Herdr(HerdrError::InvalidJson(_)))
    ));
}

#[test]
fn snapshots() {
    let full = "{\"result\":{\"snapshot\":{\"focused_tab_id\":\"t\",\"focused_workspace_id\":\"w\"}}}";
    assert_eq!(read_snapshot(&json(full)), Some(("t".to_string(), "w".to_string())));
    let half = "{\"result\":{\"snapshot\":{\"focused_tab_id\":\"t\",\"focused_workspace_id\":null}}}";
    assert_eq!(read_snapshot(&json(half)), None);
    assert_eq!(read_snapshot(&json("{\"result\":[]}")), None);
    assert_eq!(read_snapshot(&json("{\"error\":{}}")), None);
}

#[test]
fn events() {
    let focus = "{\"event\":\"tab_focused\",\"data\":{\"workspace_id\":\"w\",\"tab_id\":\"t\"}}";
    assert_eq!(read_event(&json(focus)), Some(("t".to_string(), "w".to_string())));
    let other = focus.replace("tab_focused", "tab_closed");
    assert_eq!(read_event(&json(&other)), None);
    let number = focus.replace("\"t\"", "1");
    assert_eq!(read_event(&json(&number)), None);
    assert_eq!(read_event(&json("{\"event\":\"tab_focused\"}")), None);
    assert_eq!(read_event(&json("7")), None);
}

#[test]
fn last_member_of_a_name_counts() {
    assert_eq!(text_member(&json("{\"a\":\"1\",\"a\":\"2\"}"), "a"), Some("2"));
    assert_eq!(text_member(&json("{\"a\":1}"), "a"), None);
    assert_eq!(text_member(&json("[]"), "0"), None);
}

#[test]
fn errors_are_wrapped() {
    assert!(matches!(Error::from(io_error()), Error::Io(_)));
    assert!(matches!(
        Error::from(HerdrError::ConnectionClosed),
        Error::Herdr(HerdrError::ConnectionClosed)
    ));
}

#[test]
fn first_reply_decides() {
    let lines = [
        "{\"event\":\"tab_focused\"}",
        "{\"id\":\"prevtab_notify\",\"error\":0}",
        "{\"id\":\"prevtab_jump_back\",\"error\":1}",
        "{\"id\":\"prevtab_jump_back\"}",
        "no json",
    ];
    let mut read = 0;
    let outcome = loop {
        match jump_back("t", line(lines[read])) {
            CallAction::Receive => read += 1,
            CallAction::Finished(outcome) => break outcome,
            _ => panic!("the request was sent already"),
        }
    };
    assert_eq!(read, 2);
    assert!(matches!(
        outcome,
        Err(Error::Herdr(HerdrError::RequestFailed { detail, .. })) if detail == "1"
    ));
}

#[test]
fn messages() {
    assert_eq!(HerdrError::ConnectionClosed.message(), "unexpected response");
    assert_eq!(HerdrError::InvalidJson("bad".to_string()).message(), "bad");
    let null = resp_ok(&json("{\"id\":\"x\",\"error\":null}"), "jump back").unwrap_err();
    assert_eq!(null.message().as_deref(), Some("jump back failed: null"));
    let gone = line("{\"id\":\"prevtab_ws_jump_back\",\"error\":\"gone\"}\n");
    match workspace_jump_back("w1", gone) {
        CallAction::Finished(Err(error)) => {
            assert_eq!(error.message().as_deref(), Some("jump back failed: \"gone\""))
        }
        _ => panic!("the jump was refused"),
    }
    let refused = line("{\"id\":\"prevtab_notify\",\"error\":{\"code\":1}}\n");
    match herdr_notify("hi", refused) {
        CallAction::Finished(Err(error)) => {
            assert_eq!(error.message().as_deref(), Some("notification failed: {\"code\":1}"))
        }
        _ => panic!("the notification was refused"),
    }
    assert_eq!(Error::Io(io_error()).message(), None);
}
