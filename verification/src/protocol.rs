//! The requests that are sent to Herdr, and what its answers and events mean. Each message is a
//! line of JSON.

use crate::error::{Error, HerdrError};
use crate::json::{add_member, array_value, json_of, json_parsed, json_printed, member};
use crate::json::{object_value, parse_json, print_json, string_value, text_member, Json};
use crate::text::same_text;
use vstd::prelude::*;

verus! {

/// The name that this plugin goes by in requests and notifications.
pub const SHORT_PLUGIN_ID: &'static str = "prevtab";

/// The event that Herdr sends when a tab is focused.
pub const TAB_FOCUSED_EVENT: &'static str = "tab_focused";

/// What has happened to a request.
pub enum CallEvent {
    /// Nothing yet.
    Start,
    /// The connection was made, or could not be.
    Connected(Result<(), std::io::Error>),
    /// The request was sent, or could not be.
    Sent(Result<(), std::io::Error>),
    /// A line came in, or none could be read. There is none at the end of the connection.
    Received(Result<Option<String>, std::io::Error>),
}

/// What to do next to have a request answered.
pub enum CallAction {
    /// Connect to Herdr.
    Connect,
    /// Send this.
    Send(String),
    /// Read a line.
    Receive,
    /// Nothing: this is the result.
    Finished(Result<(), Error>),
}

/// The id of the request whose id ends in `suffix`.
pub open spec fn request_id(suffix: Seq<char>) -> Seq<char> {
    SHORT_PLUGIN_ID@ + suffix
}

/// What a request is made of.
pub open spec fn request_json(req_id: Seq<char>, method: Seq<char>, params: Json) -> Json {
    Json::Object(
        Map::<Seq<char>, Json>::empty().insert("id"@, Json::Str(req_id)).insert(
            "method"@,
            Json::Str(method),
        ).insert("params"@, params),
    )
}

/// A request as it is sent.
pub open spec fn request_line(req_id: Seq<char>, method: Seq<char>, params: Json) -> Seq<char> {
    json_printed(request_json(req_id, method, params)).push('\n')
}

/// An object with one member.
pub open spec fn one_member(key: Seq<char>, value: Json) -> Json {
    Json::Object(Map::<Seq<char>, Json>::empty().insert(key, value))
}

/// Whether a message is the answer to the request `req_id`.
pub open spec fn is_reply(message: Json, req_id: Seq<char>) -> bool {
    message.text_member("id"@) == Some(req_id)
}

/// What a line means to whoever waits for the answer to a request.
pub enum Reply {
    /// It is not JSON, for this reason.
    Invalid(Seq<char>),
    /// It is something else.
    Other,
    /// It is this answer.
    Answer(Json),
}

/// What `line` means to whoever waits for the answer to `req_id`.
pub open spec fn reply_in(line: Seq<char>, req_id: Seq<char>) -> Reply {
    match json_parsed(line) {
        Err(message) => Reply::Invalid(message),
        Ok(message) => if is_reply(message, req_id) {
            Reply::Answer(message)
        } else {
            Reply::Other
        },
    }
}

/// Whether an error says that Herdr refused what `method` names, with the error `detail`.
pub open spec fn is_refusal(error: Error, method: Seq<char>, detail: Json) -> bool {
    &&& error matches Error::Herdr(HerdrError::RequestFailed { method: named, detail: text })
    &&& named@ == method
    &&& text@ == json_printed(detail)
}

/// Whether an error says that a line is not JSON, for the reason `message`.
pub open spec fn is_invalid_json(error: Error, message: Seq<char>) -> bool {
    error matches Error::Herdr(HerdrError::InvalidJson(reason)) && reason@ == message
}

/// The id of a request.
pub(crate) fn make_request_id(suffix: &str) -> (result: String)
    ensures
        result@ == request_id(suffix@),
{
    let mut id = SHORT_PLUGIN_ID.to_owned();
    id.append(suffix);
    id
}

/// A request as it is sent: one line, and nothing after it.
pub fn request(req_id: &str, method: &str, params: serde_json::Value) -> (result: String)
    ensures
        result@ == request_line(req_id@, method@, json_of(params)),
        !result@.drop_last().contains('\n'),
{
    let mut members: Vec<(&'static str, serde_json::Value)> = Vec::new();
    add_member(&mut members, "id", string_value(req_id));
    add_member(&mut members, "method", string_value(method));
    add_member(&mut members, "params", params);
    proof {
        reveal_strlit("id");
        reveal_strlit("method");
        reveal_strlit("params");
        assert("id"@.len() == 2);
        assert("method"@[0] == 'm');
        assert("params"@[0] == 'p');
    }
    let mut line = print_json(&object_value(members));
    let ghost printed = line@;
    line.append("\n");
    proof {
        reveal_strlit("\n");
        assert(line@ =~= printed.push('\n'));
        assert(line@.drop_last() =~= printed);
    }
    line
}

/// Looks at what came in while the answer to `req_id` is awaited. Gives the answer, or nothing
/// where it was something else and reading goes on.
pub fn read_response(req_id: &str, received: Result<Option<String>, std::io::Error>) -> (result:
    Result<Option<serde_json::Value>, Error>)
    ensures
        match received {
            Err(error) => result == Err::<Option<serde_json::Value>, Error>(Error::Io(error)),
            Ok(None) => result == Err::<Option<serde_json::Value>, Error>(
                Error::Herdr(HerdrError::ConnectionClosed),
            ),
            Ok(Some(line)) => match reply_in(line@, req_id@) {
                Reply::Invalid(message) => result matches Err(error) && is_invalid_json(
                    error,
                    message,
                ),
                Reply::Other => result matches Ok(None),
                Reply::Answer(message) => result matches Ok(Some(answer)) && json_of(answer)
                    == message,
            },
        },
{
    match received {
        Err(error) => Err(Error::from(error)),
        Ok(None) => Err(Error::from(HerdrError::ConnectionClosed)),
        Ok(Some(line)) => match parse_json(line.as_str()) {
            Err(message) => Err(Error::from(HerdrError::InvalidJson(message))),
            Ok(message) => if is_response(&message, req_id) {
                Ok(Some(message))
            } else {
                Ok(None)
            },
        },
    }
}

/// Whether a message is the answer to the request `req_id`.
pub fn is_response(message: &serde_json::Value, req_id: &str) -> (result: bool)
    ensures
        result == is_reply(json_of(*message), req_id@),
{
    match text_member(message, "id") {
        Some(id) => same_text(id, req_id),
        None => false,
    }
}

/// Whether an answer is a good one: it is unless it has an error in it.
pub fn resp_ok(resp: &serde_json::Value, method: &'static str) -> (result: Result<(), Error>)
    ensures
        match json_of(*resp).member("error"@) {
            Some(detail) => result matches Err(error) && is_refusal(error, method@, detail),
            None => result == Ok::<(), Error>(()),
        },
{
    match member(resp, "error") {
        Some(error) => Err(
            Error::from(HerdrError::RequestFailed { method, detail: print_json(error) }),
        ),
        None => Ok(()),
    }
}

impl CallAction {
    /// Whether this is what to do after `event` to have the request `req_id` answered. Where it
    /// is refused, `label` says what was.
    pub open spec fn follows(
        self,
        event: CallEvent,
        req_id: Seq<char>,
        method: Seq<char>,
        params: Json,
        label: Seq<char>,
    ) -> bool {
        match event {
            CallEvent::Start => self == CallAction::Connect,
            CallEvent::Connected(Ok(_)) => self matches CallAction::Send(line) && line@
                == request_line(req_id, method, params),
            CallEvent::Connected(Err(error)) => self == CallAction::Finished(
                Err(Error::Io(error)),
            ),
            CallEvent::Sent(Ok(_)) => self == CallAction::Receive,
            CallEvent::Sent(Err(error)) => self == CallAction::Finished(Err(Error::Io(error))),
            CallEvent::Received(Err(error)) => self == CallAction::Finished(Err(Error::Io(error))),
            CallEvent::Received(Ok(None)) => self == CallAction::Finished(
                Err(Error::Herdr(HerdrError::ConnectionClosed)),
            ),
            CallEvent::Received(Ok(Some(line))) => self.follows_line(line@, req_id, label),
        }
    }

    /// Whether this is what to do after `line` came in.
    pub open spec fn follows_line(
        self,
        line: Seq<char>,
        req_id: Seq<char>,
        label: Seq<char>,
    ) -> bool {
        match reply_in(line, req_id) {
            Reply::Invalid(message) => self matches CallAction::Finished(Err(error))
                && is_invalid_json(error, message),
            Reply::Other => self == CallAction::Receive,
            Reply::Answer(answer) => match answer.member("error"@) {
                Some(detail) => self matches CallAction::Finished(Err(error)) && is_refusal(
                    error,
                    label,
                    detail,
                ),
                None => self == CallAction::Finished(Ok(())),
            },
        }
    }
}

/// Says what to do after `event` to have a request answered.
fn call(
    suffix: &str,
    method: &str,
    params: serde_json::Value,
    label: &'static str,
    event: CallEvent,
) -> (result: CallAction)
    ensures
        result.follows(event, request_id(suffix@), method@, json_of(params), label@),
{
    let req_id = make_request_id(suffix);
    match event {
        CallEvent::Start => CallAction::Connect,
        CallEvent::Connected(Ok(_)) => CallAction::Send(request(req_id.as_str(), method, params)),
        CallEvent::Connected(Err(error)) => CallAction::Finished(Err(Error::from(error))),
        CallEvent::Sent(Ok(_)) => CallAction::Receive,
        CallEvent::Sent(Err(error)) => CallAction::Finished(Err(Error::from(error))),
        CallEvent::Received(received) => match read_response(req_id.as_str(), received) {
            Err(error) => CallAction::Finished(Err(error)),
            Ok(None) => CallAction::Receive,
            Ok(Some(answer)) => match resp_ok(&answer, label) {
                Err(error) => CallAction::Finished(Err(error)),
                Ok(_) => CallAction::Finished(Ok(())),
            },
        },
    }
}

/// An object with one member.
pub(crate) fn object_of_one(key: &'static str, value: serde_json::Value) -> (result:
    serde_json::Value)
    ensures
        json_of(result) == one_member(key@, json_of(value)),
{
    let mut members: Vec<(&'static str, serde_json::Value)> = Vec::new();
    add_member(&mut members, key, value);
    object_value(members)
}

/// Has Herdr focus the tab `tab_id`. Says what to do after `event`.
pub fn jump_back(tab_id: &str, event: CallEvent) -> (result: CallAction)
    ensures
        result.follows(
            event,
            request_id("_jump_back"@),
            "tab.focus"@,
            one_member("tab_id"@, Json::Str(tab_id@)),
            "jump back"@,
        ),
{
    let params = object_of_one("tab_id", string_value(tab_id));
    call("_jump_back", "tab.focus", params, "jump back", event)
}

/// Has Herdr focus the workspace `workspace_id`. Says what to do after `event`.
pub fn workspace_jump_back(workspace_id: &str, event: CallEvent) -> (result: CallAction)
    ensures
        result.follows(
            event,
            request_id("_ws_jump_back"@),
            "workspace.focus"@,
            one_member("workspace_id"@, Json::Str(workspace_id@)),
            "jump back"@,
        ),
{
    let params = object_of_one("workspace_id", string_value(workspace_id));
    call("_ws_jump_back", "workspace.focus", params, "jump back", event)
}

/// What a notification with the text `body` is made of.
pub open spec fn notification(body: Seq<char>) -> Json {
    Json::Object(
        Map::<Seq<char>, Json>::empty().insert("title"@, Json::Str(SHORT_PLUGIN_ID@)).insert(
            "body"@,
            Json::Str(body),
        ),
    )
}

/// Has Herdr show a notification with the text `body`. Says what to do after `event`.
pub fn herdr_notify(body: &str, event: CallEvent) -> (result: CallAction)
    ensures
        result.follows(
            event,
            request_id("_notify"@),
            "notification.show"@,
            notification(body@),
            "notification"@,
        ),
{
    let mut members: Vec<(&'static str, serde_json::Value)> = Vec::new();
    add_member(&mut members, "title", string_value(SHORT_PLUGIN_ID));
    add_member(&mut members, "body", string_value(body));
    proof {
        reveal_strlit("title");
        reveal_strlit("body");
        assert("title"@.len() != "body"@.len());
    }
    call("_notify", "notification.show", object_value(members), "notification", event)
}

/// The id of the request for a snapshot.
pub const SNAPSHOT_SUFFIX: &'static str = "_snapshot";

/// The id of the request for events.
pub const SUBSCRIPTION_SUFFIX: &'static str = "_sub_tab_focused";

/// The request for a snapshot of the session, as it is sent.
pub open spec fn snapshot_line() -> Seq<char> {
    request_line(
        request_id(SNAPSHOT_SUFFIX@),
        "session.snapshot"@,
        Json::Object(Map::empty()),
    )
}

/// The request for a snapshot of the session.
pub fn snapshot_request() -> (result: String)
    ensures
        result@ == snapshot_line(),
{
    let members: Vec<(&'static str, serde_json::Value)> = Vec::new();
    let req_id = make_request_id(SNAPSHOT_SUFFIX);
    request(req_id.as_str(), "session.snapshot", object_value(members))
}

/// The request for events about focused tabs, as it is sent.
pub open spec fn subscription_line() -> Seq<char> {
    request_line(
        request_id(SUBSCRIPTION_SUFFIX@),
        "events.subscribe"@,
        one_member(
            "subscriptions"@,
            Json::Array(seq![one_member("type"@, Json::Str("tab.focused"@))]),
        ),
    )
}

/// The request for events about focused tabs.
pub fn subscription_request() -> (result: String)
    ensures
        result@ == subscription_line(),
{
    let mut items: Vec<serde_json::Value> = Vec::new();
    items.push(object_of_one("type", string_value("tab.focused")));
    assert(items@.map_values(|item: serde_json::Value| json_of(item)) =~= seq![
        one_member("type"@, Json::Str("tab.focused"@)),
    ]);
    let params = object_of_one("subscriptions", array_value(items));
    let req_id = make_request_id(SUBSCRIPTION_SUFFIX);
    request(req_id.as_str(), "events.subscribe", params)
}

/// The tab and the workspace that a message names in two of its members.
pub open spec fn named_pair(message: Json, tab_key: Seq<char>, ws_key: Seq<char>) -> Option<
    (Seq<char>, Seq<char>),
> {
    match (message.text_member(tab_key), message.text_member(ws_key)) {
        (Some(tab), Some(ws)) => Some((tab, ws)),
        _ => None,
    }
}

/// The tab and the workspace that a snapshot says are focused.
pub open spec fn snapshot_focus(snapshot: Json) -> Option<(Seq<char>, Seq<char>)> {
    match snapshot.member("result"@) {
        Some(result) => match result.member("snapshot"@) {
            Some(inner) => named_pair(inner, "focused_tab_id"@, "focused_workspace_id"@),
            None => None,
        },
        None => None,
    }
}

/// The tab and the workspace that were focused, where a message is the event that says so.
pub open spec fn event_focus(message: Json) -> Option<(Seq<char>, Seq<char>)> {
    if message.text_member("event"@) == Some(TAB_FOCUSED_EVENT@) {
        match message.member("data"@) {
            Some(data) => named_pair(data, "tab_id"@, "workspace_id"@),
            None => None,
        }
    } else {
        None
    }
}

/// A pair of texts, as texts.
pub open spec fn pair_view(pair: Option<(String, String)>) -> Option<(Seq<char>, Seq<char>)> {
    match pair {
        Some((tab, ws)) => Some((tab@, ws@)),
        None => None,
    }
}

/// The tab and the workspace that a message names in two of its members.
fn read_pair(message: &serde_json::Value, tab_key: &str, ws_key: &str) -> (result: Option<
    (String, String),
>)
    ensures
        pair_view(result) == named_pair(json_of(*message), tab_key@, ws_key@),
{
    match (text_member(message, tab_key), text_member(message, ws_key)) {
        (Some(tab), Some(ws)) => Some((tab.to_owned(), ws.to_owned())),
        _ => None,
    }
}

/// The tab and the workspace that a snapshot says are focused.
pub fn read_snapshot(snapshot: &serde_json::Value) -> (result: Option<(String, String)>)
    ensures
        pair_view(result) == snapshot_focus(json_of(*snapshot)),
        match result {
            Some((tab, ws)) => snapshot_focus(json_of(*snapshot)) == Some((tab@, ws@)),
            None => snapshot_focus(json_of(*snapshot)) is None,
        },
{
    match member(snapshot, "result") {
        Some(found) => match member(found, "snapshot") {
            Some(inner) => read_pair(inner, "focused_tab_id", "focused_workspace_id"),
            None => None,
        },
        None => None,
    }
}

/// The tab and the workspace that were focused, where a message is the event that says so.
pub fn read_event(message: &serde_json::Value) -> (result: Option<(String, String)>)
    ensures
        pair_view(result) == event_focus(json_of(*message)),
        match result {
            Some((tab, ws)) => event_focus(json_of(*message)) == Some((tab@, ws@)),
            None => event_focus(json_of(*message)) is None,
        },
{
    let is_focus: bool = match text_member(message, "event") {
        Some(event) => same_text(event, TAB_FOCUSED_EVENT),
        None => false,
    };
    if is_focus {
        match member(message, "data") {
            Some(data) => read_pair(data, "tab_id", "workspace_id"),
            None => None,
        }
    } else {
        None
    }
}

/// What becomes of a request when `lines` come in one after the other: what the first of them that
/// ends the waiting means, or nothing yet.
pub open spec fn answer_among(lines: Seq<Seq<char>>, req_id: Seq<char>) -> Reply
    decreases lines.len(),
{
    if lines.len() == 0 {
        Reply::Other
    } else {
        match reply_in(lines[0], req_id) {
            Reply::Other => answer_among(lines.drop_first(), req_id),
            reply => reply,
        }
    }
}

/// Lines that are about something else are skipped, however many there are, and the first line
/// that is not decides, whatever comes after it.
pub proof fn law_first_reply_decides(lines: Seq<Seq<char>>, req_id: Seq<char>, position: int)
    requires
        0 <= position < lines.len(),
        forall|i: int| 0 <= i < position ==> reply_in(#[trigger] lines[i], req_id) is Other,
        !(reply_in(lines[position], req_id) is Other),
    ensures
        answer_among(lines, req_id) == reply_in(lines[position], req_id),
    decreases lines.len(),
{
    if position > 0 {
        let rest = lines.drop_first();
        assert(reply_in(lines[0], req_id) is Other);
        assert forall|i: int| 0 <= i < position - 1 implies reply_in(
            #[trigger] rest[i],
            req_id,
        ) is Other by {
            assert(rest[i] == lines[i + 1]);
        }
        law_first_reply_decides(rest, req_id, position - 1);
    }
}

/// A request has succeeded only once its own answer came in, with no error in it.
pub proof fn law_success_needs_answer(
    action: CallAction,
    event: CallEvent,
    req_id: Seq<char>,
    method: Seq<char>,
    params: Json,
    label: Seq<char>,
)
    requires
        action.follows(event, req_id, method, params, label),
        action matches CallAction::Finished(Ok(_)),
    ensures
        event matches CallEvent::Received(Ok(Some(line))) && reply_in(
            line@,
            req_id,
        ) matches Reply::Answer(answer) && answer.member("error"@) is None,
{
}

/// A message answers one request only.
pub proof fn law_reply_to_one_request(message: Json, first: Seq<char>, second: Seq<char>)
    requires
        is_reply(message, first),
        is_reply(message, second),
    ensures
        first == second,
{
}

/// A message says that a tab was focused just where it is an object with the text "tab_focused"
/// under "event" and an object under "data" with texts under "tab_id" and "workspace_id". Whatever
/// those two texts are, the first is the tab and the second is the workspace.
pub proof fn law_event_names_tab_and_workspace(message: Json, tab: Seq<char>, ws: Seq<char>)
    ensures
        event_focus(message) == Some((tab, ws)) <==> {
            &&& message matches Json::Object(members)
            &&& members.contains_key("event"@)
            &&& members["event"@] == Json::Str("tab_focused"@)
            &&& members.contains_key("data"@)
            &&& members["data"@] matches Json::Object(data)
            &&& data.contains_key("tab_id"@)
            &&& data["tab_id"@] == Json::Str(tab)
            &&& data.contains_key("workspace_id"@)
            &&& data["workspace_id"@] == Json::Str(ws)
        },
{
}

/// A snapshot names what is focused just where it is an object with an object under "result", which
/// has an object under "snapshot", which has texts under "focused_tab_id" and
/// "focused_workspace_id". Whatever those two texts are, the first is the tab and the second is the
/// workspace.
pub proof fn law_snapshot_names_tab_and_workspace(snapshot: Json, tab: Seq<char>, ws: Seq<char>)
    ensures
        snapshot_focus(snapshot) == Some((tab, ws)) <==> {
            &&& snapshot matches Json::Object(members)
            &&& members.contains_key("result"@)
            &&& members["result"@] matches Json::Object(result)
            &&& result.contains_key("snapshot"@)
            &&& result["snapshot"@] matches Json::Object(inner)
            &&& inner.contains_key("focused_tab_id"@)
            &&& inner["focused_tab_id"@] == Json::Str(tab)
            &&& inner.contains_key("focused_workspace_id"@)
            &&& inner["focused_workspace_id"@] == Json::Str(ws)
        },
{
}

/// A pair of texts stands for the same two texts in the same order, and no pair for none.
pub proof fn law_pair_keeps_order(pair: Option<(String, String)>)
    ensures
        pair is None <==> pair_view(pair) is None,
        pair matches Some((tab, ws)) ==> pair_view(pair) == Some((tab@, ws@)),
{
}

/// A line is the answer to a request just where it is JSON, an object, and has the id of the
/// request as the text under "id". A line that is not JSON is invalid for the reason that the
/// parser gives, and every other line is about something else.
pub proof fn law_reply_is_known_by_its_id(line: Seq<char>, req_id: Seq<char>)
    ensures
        match json_parsed(line) {
            Err(reason) => reply_in(line, req_id) == Reply::Invalid(reason),
            Ok(message) => {
                let own = {
                    &&& message matches Json::Object(members)
                    &&& members.contains_key("id"@)
                    &&& members["id"@] == Json::Str(req_id)
                };
                &&& own ==> reply_in(line, req_id) == Reply::Answer(message)
                &&& !own ==> reply_in(line, req_id) == Reply::Other
            },
        },
{
}

/// What is sent is the compact form of an object with three members and no others, and a line
/// break after it: the id of the request, its method and its parameters, each under its name.
pub proof fn law_request_has_three_members(req_id: Seq<char>, method: Seq<char>, params: Json)
    ensures
        request_line(req_id, method, params) == json_printed(request_json(req_id, method, params))
            + seq!['\n'],
        request_json(req_id, method, params) matches Json::Object(members) && members.dom()
            =~= set!["id"@, "method"@, "params"@] && members["id"@] == Json::Str(req_id)
            && members["method"@] == Json::Str(method) && members["params"@] == params,
{
    reveal_strlit("id");
    reveal_strlit("method");
    reveal_strlit("params");
    assert("id"@.len() == 2);
    assert("method"@[0] == 'm');
    assert("params"@[0] == 'p');
    let printed = json_printed(request_json(req_id, method, params));
    assert(request_line(req_id, method, params) =~= printed + seq!['\n']);
}

/// The requests of the plugin are known by ids that start with its name, and no two of them by the
/// same one.
pub proof fn law_request_ids()
    ensures
        request_id("_jump_back"@) == "prevtab_jump_back"@,
        request_id("_ws_jump_back"@) == "prevtab_ws_jump_back"@,
        request_id("_notify"@) == "prevtab_notify"@,
        request_id(SNAPSHOT_SUFFIX@) == "prevtab_snapshot"@,
        request_id(SUBSCRIPTION_SUFFIX@) == "prevtab_sub_tab_focused"@,
{
    reveal_strlit("prevtab");
    reveal_strlit("_jump_back");
    reveal_strlit("_ws_jump_back");
    reveal_strlit("_notify");
    reveal_strlit("_snapshot");
    reveal_strlit("_sub_tab_focused");
    reveal_strlit("prevtab_jump_back");
    reveal_strlit("prevtab_ws_jump_back");
    reveal_strlit("prevtab_notify");
    reveal_strlit("prevtab_snapshot");
    reveal_strlit("prevtab_sub_tab_focused");
    assert(request_id("_jump_back"@) =~= "prevtab_jump_back"@);
    assert(request_id("_ws_jump_back"@) =~= "prevtab_ws_jump_back"@);
    assert(request_id("_notify"@) =~= "prevtab_notify"@);
    assert(request_id(SNAPSHOT_SUFFIX@) =~= "prevtab_snapshot"@);
    assert(request_id(SUBSCRIPTION_SUFFIX@) =~= "prevtab_sub_tab_focused"@);
}

/// The id of a request is the plugin's name and the suffix, so requests with different suffixes
/// have different ids.
pub proof fn law_request_ids_differ(first: Seq<char>, second: Seq<char>)
    requires
        request_id(first) == request_id(second),
    ensures
        first == second,
{
    let name = SHORT_PLUGIN_ID@;
    assert(first =~= request_id(first).skip(name.len() as int));
    assert(second =~= request_id(second).skip(name.len() as int));
}

/// The parameters of the requests that focus something are an object with one member, and those of
/// a notification an object with two: its title, which is the plugin's name, and its text.
pub proof fn law_parameters(key: Seq<char>, value: Json, body: Seq<char>)
    ensures
        one_member(key, value) matches Json::Object(members) && members.dom() =~= set![key]
            && members[key] == value,
        notification(body) matches Json::Object(members) && members.dom() =~= set![
            "title"@,
            "body"@,
        ] && members["title"@] == Json::Str("prevtab"@) && members["body"@] == Json::Str(body),
{
    reveal_strlit("title");
    reveal_strlit("body");
    assert("title"@.len() != "body"@.len());
}

/// The request for a snapshot has no parameters, and the request for events asks for one kind of
/// them, that of focused tabs.
pub proof fn law_session_requests()
    ensures
        snapshot_line() == request_line(
            "prevtab_snapshot"@,
            "session.snapshot"@,
            Json::Object(Map::<Seq<char>, Json>::empty()),
        ),
        subscription_line() == request_line(
            "prevtab_sub_tab_focused"@,
            "events.subscribe"@,
            Json::Object(
                Map::<Seq<char>, Json>::empty().insert(
                    "subscriptions"@,
                    Json::Array(
                        seq![
                            Json::Object(
                                Map::<Seq<char>, Json>::empty().insert(
                                    "type"@,
                                    Json::Str("tab.focused"@),
                                ),
                            ),
                        ],
                    ),
                ),
            ),
        ),
{
    law_request_ids();
}

/// A request starts with a connection, then it is sent, and then lines are read. Where one of these
/// fails, the request fails with that very error, and where the connection ends, it fails for that.
pub proof fn law_call_goes_step_by_step(
    action: CallAction,
    event: CallEvent,
    req_id: Seq<char>,
    method: Seq<char>,
    params: Json,
    label: Seq<char>,
)
    requires
        action.follows(event, req_id, method, params, label),
    ensures
        event is Start ==> action is Connect,
        event matches CallEvent::Connected(Ok(_)) ==> (action matches CallAction::Send(line)
            && line@ == request_line(req_id, method, params)),
        event matches CallEvent::Sent(Ok(_)) ==> action is Receive,
        event matches CallEvent::Connected(Err(failed)) ==> (action matches CallAction::Finished(
            Err(Error::Io(error)),
        ) && error == failed),
        event matches CallEvent::Sent(Err(failed)) ==> (action matches CallAction::Finished(
            Err(Error::Io(error)),
        ) && error == failed),
        event matches CallEvent::Received(Err(failed)) ==> (action matches CallAction::Finished(
            Err(Error::Io(error)),
        ) && error == failed),
        event matches CallEvent::Received(Ok(None)) ==> (action matches CallAction::Finished(
            Err(Error::Herdr(HerdrError::ConnectionClosed)),
        )),
{
}

/// Every request is done once its answer came in: a line that is an object with the id of the
/// request under "id" and nothing under "error" ends it with success, whichever request it is.
/// Where there is something under "error", it ends with a failure that names what was refused and
/// holds that as it is printed.
pub proof fn law_answer_ends_the_request(
    action: CallAction,
    line: String,
    members: Map<Seq<char>, Json>,
    req_id: Seq<char>,
    method: Seq<char>,
    params: Json,
    label: Seq<char>,
)
    requires
        json_parsed(line@) == Ok::<Json, Seq<char>>(Json::Object(members)),
        members.contains_key("id"@),
        members["id"@] == Json::Str(req_id),
        action.follows(CallEvent::Received(Ok(Some(line))), req_id, method, params, label),
    ensures
        !members.contains_key("error"@) ==> (action matches CallAction::Finished(Ok(_))),
        members.contains_key("error"@) ==> (action matches CallAction::Finished(
            Err(Error::Herdr(HerdrError::RequestFailed { method: refused, detail })),
        ) && refused@ == label && detail@ == json_printed(members["error"@])),
{
}

/// A line that is no answer to the request leaves it waiting, and a line that is not JSON ends it
/// with the parser's reason.
pub proof fn law_other_lines_leave_the_request(
    action: CallAction,
    line: String,
    req_id: Seq<char>,
    method: Seq<char>,
    params: Json,
    label: Seq<char>,
)
    requires
        action.follows(CallEvent::Received(Ok(Some(line))), req_id, method, params, label),
    ensures
        match json_parsed(line@) {
            Ok(Json::Object(members)) => !members.contains_key("id"@) || members["id"@]
                != Json::Str(req_id) ==> action is Receive,
            Ok(_) => action is Receive,
            Err(reason) => action matches CallAction::Finished(
                Err(Error::Herdr(HerdrError::InvalidJson(told))),
            ) && told@ == reason,
        },
{
}

/// What a failure says: that a request was refused, with what was asked for and the printed error,
/// or that a line is not JSON, with the reason.
pub proof fn law_failures_say_why(error: Error, label: Seq<char>, detail: Json, reason: Seq<char>)
    ensures
        is_refusal(error, label, detail) <==> (error matches Error::Herdr(
            HerdrError::RequestFailed { method, detail: text },
        ) && method@ == label && text@ == json_printed(detail)),
        is_invalid_json(error, reason) <==> (error matches Error::Herdr(
            HerdrError::InvalidJson(told),
        ) && told@ == reason),
{
}

} // verus!
