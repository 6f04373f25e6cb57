//! The subscriber: a session with Herdr in which it follows what is focused.

use crate::error::{Error, HerdrError};
use crate::json::{json_parsed, json_printed, parse_json, Json};
use crate::paths::joined;
use crate::protocol::{event_focus, is_invalid_json, is_refusal, is_reply, pair_view, read_event};
use crate::protocol::{make_request_id, read_response, read_snapshot, reply_in, request_id};
use crate::protocol::{resp_ok, snapshot_focus, snapshot_line, snapshot_request, subscription_line};
use crate::protocol::{law_request_ids, law_session_requests, request_line, subscription_request};
use crate::protocol::{Reply, SNAPSHOT_SUFFIX, SUBSCRIPTION_SUFFIX};
use crate::state_file::{tab_file, workspace_file, StateFile};
use crate::tabs::{CurrentTabs, Focus, FocusAction, FocusEvent, FocusStep, TabsView};
use vstd::prelude::*;
use vstd::utf8::encode_utf8;

verus! {

/// What a line means while a snapshot is awaited.
pub enum SnapshotStep {
    /// It is something else, and reading goes on.
    Wait,
    /// It is the snapshot, with the tab and the workspace that are focused where it names both.
    Focus(Option<(String, String)>),
}

/// What a line means while events are awaited.
pub enum EventStep {
    /// Nothing: reading goes on.
    Wait,
    /// A tab was focused.
    Focus { tab_id: String, workspace_id: String },
    /// There is none: the connection has ended.
    Closed,
}

/// Looks at what came in while the snapshot is awaited.
pub fn fetch_herdr_snapshot(received: Result<Option<String>, std::io::Error>) -> (result: Result<
    SnapshotStep,
    Error,
>)
    ensures
        match received {
            Err(error) => result == Err::<SnapshotStep, Error>(Error::Io(error)),
            Ok(None) => result == Err::<SnapshotStep, Error>(
                Error::Herdr(HerdrError::ConnectionClosed),
            ),
            Ok(Some(line)) => match reply_in(line@, request_id(SNAPSHOT_SUFFIX@)) {
                Reply::Invalid(message) => result matches Err(error) && is_invalid_json(
                    error,
                    message,
                ),
                Reply::Other => result == Ok::<SnapshotStep, Error>(SnapshotStep::Wait),
                Reply::Answer(snapshot) => result matches Ok(SnapshotStep::Focus(pair))
                    && pair_view(pair) == snapshot_focus(snapshot),
            },
        },
{
    let req_id = make_request_id(SNAPSHOT_SUFFIX);
    match read_response(req_id.as_str(), received) {
        Err(error) => Err(error),
        Ok(None) => Ok(SnapshotStep::Wait),
        Ok(Some(snapshot)) => Ok(SnapshotStep::Focus(read_snapshot(&snapshot))),
    }
}

/// Looks at what came in while the answer to the request for events is awaited. Gives whether it
/// was that answer, and a good one.
pub fn subscribe_tab_focused_events(received: Result<Option<String>, std::io::Error>) -> (result:
    Result<bool, Error>)
    ensures
        match received {
            Err(error) => result == Err::<bool, Error>(Error::Io(error)),
            Ok(None) => result == Err::<bool, Error>(Error::Herdr(HerdrError::ConnectionClosed)),
            Ok(Some(line)) => match reply_in(line@, request_id(SUBSCRIPTION_SUFFIX@)) {
                Reply::Invalid(message) => result matches Err(error) && is_invalid_json(
                    error,
                    message,
                ),
                Reply::Other => result == Ok::<bool, Error>(false),
                Reply::Answer(answer) => match answer.member("error"@) {
                    Some(detail) => result matches Err(error) && is_refusal(
                        error,
                        "subscription"@,
                        detail,
                    ),
                    None => result == Ok::<bool, Error>(true),
                },
            },
        },
{
    let req_id = make_request_id(SUBSCRIPTION_SUFFIX);
    match read_response(req_id.as_str(), received) {
        Err(error) => Err(error),
        Ok(None) => Ok(false),
        Ok(Some(answer)) => match resp_ok(&answer, "subscription") {
            Err(error) => Err(error),
            Ok(_) => Ok(true),
        },
    }
}

/// Looks at what came in while events are awaited.
pub fn process_events(received: Result<Option<String>, std::io::Error>) -> (result: Result<
    EventStep,
    Error,
>)
    ensures
        match received {
            Err(error) => result == Err::<EventStep, Error>(Error::Io(error)),
            Ok(None) => result == Ok::<EventStep, Error>(EventStep::Closed),
            Ok(Some(line)) => match json_parsed(line@) {
                Err(message) => result matches Err(error) && is_invalid_json(error, message),
                Ok(message) => match event_focus(message) {
                    Some((tab, ws)) => result matches Ok(EventStep::Focus { tab_id, workspace_id })
                        && tab_id@ == tab && workspace_id@ == ws,
                    None => result == Ok::<EventStep, Error>(EventStep::Wait),
                },
            },
        },
{
    match received {
        Err(error) => Err(Error::from(error)),
        Ok(None) => Ok(EventStep::Closed),
        Ok(Some(line)) => match parse_json(line.as_str()) {
            Err(message) => Err(Error::from(HerdrError::InvalidJson(message))),
            Ok(message) => match read_event(&message) {
                Some((tab_id, workspace_id)) => Ok(EventStep::Focus { tab_id, workspace_id }),
                None => Ok(EventStep::Wait),
            },
        },
    }
}

/// What is saved before it is replaced.
#[derive(Clone, Copy)]
pub enum Saving {
    /// The previous tab of a workspace.
    Tab,
    /// The previous workspace.
    Workspace,
}

/// A focused tab while it is being taken note of.
pub struct Note {
    pub tab_id: String,
    pub workspace_id: String,
    /// Whether it was the snapshot that named it.
    pub from_snapshot: bool,
    /// What is being saved.
    pub saving: Saving,
}

impl Note {
    /// The path of the file to save to, with state kept below `dir`.
    pub open spec fn location(self, dir: Seq<u8>) -> Seq<u8> {
        match self.saving {
            Saving::Tab => tab_file(dir, self.workspace_id@),
            Saving::Workspace => workspace_file(dir),
        }
    }

    /// Where to save, with state kept below `state_dir`.
    pub fn file<'a>(&'a self, state_dir: &'a [u8]) -> (result: StateFile<'a>)
        ensures
            match self.saving {
                Saving::Tab => {
                    &&& result matches StateFile::PreviousTab { dir, ws_id }
                    &&& dir@ == state_dir@
                    &&& ws_id@ == self.workspace_id@
                },
                Saving::Workspace => {
                    &&& result matches StateFile::PreviousWorkspace { dir }
                    &&& dir@ == state_dir@
                },
            },
            result.location() == self.location(state_dir@),
    {
        match self.saving {
            Saving::Tab => StateFile::PreviousTab {
                dir: state_dir,
                ws_id: self.workspace_id.as_str(),
            },
            Saving::Workspace => StateFile::PreviousWorkspace { dir: state_dir },
        }
    }
}

/// What has happened in a session.
pub enum SessionEvent {
    /// Nothing yet.
    Start,
    /// The connection was made, or could not be.
    Connected(Result<(), std::io::Error>),
    /// The request for a snapshot was sent, or could not be.
    SnapshotRequested(Result<(), std::io::Error>),
    /// A line came in while the snapshot was awaited.
    SnapshotReceived(Result<Option<String>, std::io::Error>),
    /// The request for events was sent, or could not be.
    EventsRequested(Result<(), std::io::Error>),
    /// A line came in while the answer to that request was awaited.
    AnswerReceived(Result<Option<String>, std::io::Error>),
    /// A line came in while events were awaited.
    EventReceived(Result<Option<String>, std::io::Error>),
    /// What had to be saved for `note` was saved, or could not be.
    Saved { note: Note, outcome: Result<(), std::io::Error> },
}

/// What to do next in a session.
pub enum SessionAction {
    /// Connect to Herdr.
    Connect,
    /// Send this request for a snapshot.
    RequestSnapshot(String),
    /// Read a line, for the snapshot.
    ReceiveSnapshot,
    /// Send this request for events. A snapshot has named what is focused, or has not.
    RequestEvents { line: String, has_snapshot: bool },
    /// Read a line, for the answer to that request.
    ReceiveAnswer,
    /// Read a line, for an event.
    ReceiveEvent,
    /// Write `content` to the file of `note`, and hand `note` back.
    Save { note: Note, content: String },
    /// Nothing: this is the result.
    Finished(Result<(), Error>),
}

impl SessionAction {
    /// Whether this asks for events.
    pub open spec fn requests_events(self, with_snapshot: bool) -> bool {
        &&& self matches SessionAction::RequestEvents { line, has_snapshot }
        &&& line@ == subscription_line()
        &&& has_snapshot == with_snapshot
    }

    /// Whether this is how the session goes on after a focused tab was dealt with.
    pub open spec fn goes_on(self, from_snapshot: bool) -> bool {
        if from_snapshot {
            self.requests_events(true)
        } else {
            self == SessionAction::ReceiveEvent
        }
    }

    /// Whether this is what `step` asks for, for the focused tab `tab` of the workspace `ws`.
    pub open spec fn carries_out(
        self,
        step: FocusStep,
        tab: Seq<char>,
        ws: Seq<char>,
        from_snapshot: bool,
    ) -> bool {
        match step {
            FocusStep::SaveTab(previous) => {
                &&& self matches SessionAction::Save { note, content }
                &&& note.tab_id@ == tab && note.workspace_id@ == ws
                &&& note.from_snapshot == from_snapshot && note.saving is Tab
                &&& content@ == previous
            },
            FocusStep::SaveWorkspace(previous) => {
                &&& self matches SessionAction::Save { note, content }
                &&& note.tab_id@ == tab && note.workspace_id@ == ws
                &&& note.from_snapshot == from_snapshot && note.saving is Workspace
                &&& content@ == previous
            },
            FocusStep::Done => self.goes_on(from_snapshot),
        }
    }

    /// Whether this is what to do, and `after` is what is focused, after `event`, where `before`
    /// was focused before it.
    pub open spec fn follows(self, event: SessionEvent, before: TabsView, after: TabsView) -> bool {
        match event {
            SessionEvent::Start => after == TabsView::empty() && self == SessionAction::Connect,
            SessionEvent::SnapshotReceived(Ok(Some(line))) => match reply_in(
                line@,
                request_id(SNAPSHOT_SUFFIX@),
            ) {
                Reply::Invalid(_) => after == before && self.requests_events(false),
                Reply::Other => after == before && self == SessionAction::ReceiveSnapshot,
                Reply::Answer(snapshot) => match snapshot_focus(snapshot) {
                    Some((tab, ws)) => {
                        let (tabs, step) = before.on_focused(tab, ws);
                        after == tabs && self.carries_out(step, tab, ws, true)
                    },
                    None => after == before && self.requests_events(false),
                },
            },
            SessionEvent::EventReceived(Ok(Some(line))) => match json_parsed(line@) {
                Err(message) => {
                    &&& after == before
                    &&& self matches SessionAction::Finished(Err(error))
                    &&& is_invalid_json(error, message)
                },
                Ok(message) => match event_focus(message) {
                    Some((tab, ws)) => {
                        let (tabs, step) = before.on_focused(tab, ws);
                        after == tabs && self.carries_out(step, tab, ws, false)
                    },
                    None => after == before && self == SessionAction::ReceiveEvent,
                },
            },
            SessionEvent::Saved { note, outcome: Ok(_) } => {
                let (tabs, step) = match note.saving {
                    Saving::Tab => before.on_tab_saved(note.tab_id@, note.workspace_id@),
                    Saving::Workspace => before.on_workspace_saved(note.workspace_id@),
                };
                after == tabs && self.carries_out(
                    step,
                    note.tab_id@,
                    note.workspace_id@,
                    note.from_snapshot,
                )
            },
            SessionEvent::Saved { note, outcome: Err(_) } => after == before && self.goes_on(
                note.from_snapshot,
            ),
            _ => after == before && self.follows_exchange(event),
        }
    }

    /// Whether this is what to do after `event`, which has nothing to do with what is focused.
    pub open spec fn follows_exchange(self, event: SessionEvent) -> bool {
        match event {
            SessionEvent::Connected(Ok(_)) => self matches SessionAction::RequestSnapshot(line)
                && line@ == snapshot_line(),
            SessionEvent::Connected(Err(error)) => self == SessionAction::Finished(
                Err(Error::Io(error)),
            ),
            SessionEvent::SnapshotRequested(Ok(_)) => self == SessionAction::ReceiveSnapshot,
            SessionEvent::SnapshotRequested(Err(_)) => self.requests_events(false),
            SessionEvent::SnapshotReceived(_) => self.requests_events(false),
            SessionEvent::EventsRequested(Ok(_)) => self == SessionAction::ReceiveAnswer,
            SessionEvent::EventsRequested(Err(error)) => self == SessionAction::Finished(
                Err(Error::Io(error)),
            ),
            SessionEvent::AnswerReceived(Err(error)) => self == SessionAction::Finished(
                Err(Error::Io(error)),
            ),
            SessionEvent::AnswerReceived(Ok(None)) => self == SessionAction::Finished(
                Err(Error::Herdr(HerdrError::ConnectionClosed)),
            ),
            SessionEvent::AnswerReceived(Ok(Some(line))) => match reply_in(
                line@,
                request_id(SUBSCRIPTION_SUFFIX@),
            ) {
                Reply::Invalid(message) => self matches SessionAction::Finished(Err(error))
                    && is_invalid_json(error, message),
                Reply::Other => self == SessionAction::ReceiveAnswer,
                Reply::Answer(answer) => match answer.member("error"@) {
                    Some(detail) => self matches SessionAction::Finished(Err(error))
                        && is_refusal(error, "subscription"@, detail),
                    None => self == SessionAction::ReceiveEvent,
                },
            },
            SessionEvent::EventReceived(Err(error)) => self == SessionAction::Finished(
                Err(Error::Io(error)),
            ),
            SessionEvent::EventReceived(Ok(None)) => self == SessionAction::Finished(Ok(())),
            _ => false,
        }
    }
}

/// Takes note of a focused tab in a session. Says how the session goes on after `event`.
fn note_focus(
    tabs: &mut CurrentTabs,
    state_dir: &[u8],
    tab_id: String,
    workspace_id: String,
    from_snapshot: bool,
    event: FocusEvent,
) -> (result: SessionAction)
    ensures
        old(tabs).well_formed() ==> final(tabs).well_formed(),
        match event {
            FocusEvent::Focused => {
                let (noted, step) = old(tabs)@.on_focused(tab_id@, workspace_id@);
                final(tabs)@ == noted && result.carries_out(
                    step,
                    tab_id@,
                    workspace_id@,
                    from_snapshot,
                )
            },
            FocusEvent::TabSaved(Ok(_)) => {
                let (noted, step) = old(tabs)@.on_tab_saved(tab_id@, workspace_id@);
                final(tabs)@ == noted && result.carries_out(
                    step,
                    tab_id@,
                    workspace_id@,
                    from_snapshot,
                )
            },
            FocusEvent::WorkspaceSaved(Ok(_)) => {
                let (noted, step) = old(tabs)@.on_workspace_saved(workspace_id@);
                final(tabs)@ == noted && result.carries_out(
                    step,
                    tab_id@,
                    workspace_id@,
                    from_snapshot,
                )
            },
            _ => final(tabs)@ == old(tabs)@ && result.goes_on(from_snapshot),
        },
{
    let next: Option<(Saving, String)> = match tabs.on_tab_focused(
        tab_id.as_str(),
        workspace_id.as_str(),
        state_dir,
        event,
    ) {
        FocusAction::Save { file, content } => match file {
            StateFile::PreviousTab { .. } => Some((Saving::Tab, content)),
            StateFile::PreviousWorkspace { .. } => Some((Saving::Workspace, content)),
        },
        FocusAction::Finished(_) => None,
    };
    match next {
        Some((saving, content)) => SessionAction::Save {
            note: Note { tab_id, workspace_id, from_snapshot, saving },
            content,
        },
        None => if from_snapshot {
            SessionAction::RequestEvents { line: subscription_request(), has_snapshot: true }
        } else {
            SessionAction::ReceiveEvent
        },
    }
}

/// A session with Herdr: asks what is focused, asks for events, and follows them until the
/// connection ends, with state kept below `state_dir`. Each session starts with nothing focused.
/// Says what to do after `event`, and keeps what is focused in `tabs`. Without a snapshot it goes
/// on all the same, and so it does where something could not be saved.
pub fn subscribe_and_run(
    tabs: &mut CurrentTabs,
    state_dir: &[u8],
    event: SessionEvent,
) -> (result: SessionAction)
    ensures
        result.follows(event, old(tabs)@, final(tabs)@),
        old(tabs).well_formed() || event is Start ==> final(tabs).well_formed(),
{
    match event {
        SessionEvent::Start => {
            *tabs = CurrentTabs::default();
            SessionAction::Connect
        },
        SessionEvent::Connected(Ok(_)) => SessionAction::RequestSnapshot(snapshot_request()),
        SessionEvent::Connected(Err(error)) => SessionAction::Finished(Err(Error::from(error))),
        SessionEvent::SnapshotRequested(Ok(_)) => SessionAction::ReceiveSnapshot,
        SessionEvent::SnapshotRequested(Err(_)) => SessionAction::RequestEvents {
            line: subscription_request(),
            has_snapshot: false,
        },
        SessionEvent::SnapshotReceived(received) => match fetch_herdr_snapshot(received) {
            Ok(SnapshotStep::Wait) => SessionAction::ReceiveSnapshot,
            Ok(SnapshotStep::Focus(Some((tab_id, workspace_id)))) => note_focus(
                tabs,
                state_dir,
                tab_id,
                workspace_id,
                true,
                FocusEvent::Focused,
            ),
            _ => SessionAction::RequestEvents {
                line: subscription_request(),
                has_snapshot: false,
            },
        },
        SessionEvent::EventsRequested(Ok(_)) => SessionAction::ReceiveAnswer,
        SessionEvent::EventsRequested(Err(error)) => SessionAction::Finished(
            Err(Error::from(error)),
        ),
        SessionEvent::AnswerReceived(received) => match subscribe_tab_focused_events(received) {
            Ok(true) => SessionAction::ReceiveEvent,
            Ok(false) => SessionAction::ReceiveAnswer,
            Err(error) => SessionAction::Finished(Err(error)),
        },
        SessionEvent::EventReceived(received) => match process_events(received) {
            Ok(EventStep::Wait) => SessionAction::ReceiveEvent,
            Ok(EventStep::Focus { tab_id, workspace_id }) => note_focus(
                tabs,
                state_dir,
                tab_id,
                workspace_id,
                false,
                FocusEvent::Focused,
            ),
            Ok(EventStep::Closed) => SessionAction::Finished(Ok(())),
            Err(error) => SessionAction::Finished(Err(error)),
        },
        SessionEvent::Saved { note, outcome } => {
            let saved: FocusEvent = match note.saving {
                Saving::Tab => FocusEvent::TabSaved(outcome),
                Saving::Workspace => FocusEvent::WorkspaceSaved(outcome),
            };
            note_focus(
                tabs,
                state_dir,
                note.tab_id,
                note.workspace_id,
                note.from_snapshot,
                saved,
            )
        },
    }
}

impl SessionAction {
    /// Whether `event` is a report on how this ended.
    pub open spec fn reported_by(self, event: SessionEvent) -> bool {
        match self {
            SessionAction::Connect => event is Connected,
            SessionAction::RequestSnapshot(_) => event is SnapshotRequested,
            SessionAction::ReceiveSnapshot => event is SnapshotReceived,
            SessionAction::RequestEvents { .. } => event is EventsRequested,
            SessionAction::ReceiveAnswer => event is AnswerReceived,
            SessionAction::ReceiveEvent => event is EventReceived,
            SessionAction::Save { note, .. } => event matches SessionEvent::Saved {
                note: saved,
                ..
            } && saved == note,
            SessionAction::Finished(_) => false,
        }
    }
}

/// A moment of a session: what has happened, what is done about it, and what is focused then.
pub struct Moment {
    pub event: SessionEvent,
    pub action: SessionAction,
    pub tabs: TabsView,
}

impl Moment {
    /// Whether `later` can be the next moment.
    pub open spec fn continues_with(self, later: Moment) -> bool {
        &&& self.action.reported_by(later.event)
        &&& later.action.follows(later.event, self.tabs, later.tabs)
    }

    /// Whether a line for an event has come in, or what it asked for has been saved.
    pub open spec fn is_about_event(self) -> bool {
        match self.event {
            SessionEvent::EventReceived(_) => true,
            SessionEvent::Saved { note, .. } => !note.from_snapshot,
            _ => false,
        }
    }
}

/// Whether `moments` are moments of a session, one right after the other.
pub open spec fn is_stretch(moments: Seq<Moment>) -> bool {
    &&& moments.len() > 0
    &&& forall|i: int, j: int|
        #![trigger moments[i], moments[j]]
        0 <= i && j == i + 1 && j < moments.len() ==> moments[i].continues_with(moments[j])
}

/// Whether `moments` are the moments of a session, from its start on.
pub open spec fn is_session(moments: Seq<Moment>) -> bool {
    &&& is_stretch(moments)
    &&& moments[0].event is Start
    &&& moments[0].action.follows(moments[0].event, TabsView::empty(), moments[0].tabs)
}

/// The tab and the workspace that are focused, where `event` is the arrival of a line that says so.
pub open spec fn announced(event: SessionEvent) -> Option<(Seq<char>, Seq<char>)> {
    match event {
        SessionEvent::SnapshotReceived(Ok(Some(line))) => match reply_in(
            line@,
            request_id(SNAPSHOT_SUFFIX@),
        ) {
            Reply::Answer(snapshot) => snapshot_focus(snapshot),
            _ => None,
        },
        SessionEvent::EventReceived(Ok(Some(line))) => match json_parsed(line@) {
            Ok(message) => event_focus(message),
            Err(_) => None,
        },
        _ => None,
    }
}

/// The tabs that lines have said are focused since the first of `moments`, in order, each with
/// whether what it asked for could be saved.
pub open spec fn focuses_since(moments: Seq<Moment>) -> Seq<Focus>
    decreases moments.len(),
{
    if moments.len() <= 1 {
        Seq::empty()
    } else {
        let earlier = focuses_since(moments.drop_last());
        match (announced(moments.last().event), moments.last().event) {
            (Some((tab, ws)), _) => earlier.push(
                Focus { tab, ws, tab_saved: true, ws_saved: true },
            ),
            (None, SessionEvent::Saved { note, outcome: Err(_) }) => {
                let last = earlier.last();
                earlier.drop_last().push(
                    match note.saving {
                        Saving::Tab => Focus { tab_saved: false, ..last },
                        Saving::Workspace => Focus { ws_saved: false, ..last },
                    },
                )
            },
            _ => earlier,
        }
    }
}

/// Over any stretch of a session, what is focused changes as the lines that come in say: each tab
/// that one of them says is focused is taken note of, once and in order, and nothing else is. A
/// save that failed does not keep the later ones from being taken note of.
pub proof fn law_stretch_follows_lines(moments: Seq<Moment>)
    requires
        is_stretch(moments),
        !(moments[0].action is Save),
        !(moments.last().action is Save),
    ensures
        moments.last().tabs == moments[0].tabs.noted_all(focuses_since(moments)),
{
    lemma_stretch_follows_lines(moments);
}

/// What is focused in a session is what the lines that have come in make of an empty start.
pub proof fn law_session_follows_lines(moments: Seq<Moment>)
    requires
        is_session(moments),
        !(moments.last().action is Save),
    ensures
        moments.last().tabs == TabsView::empty().noted_all(focuses_since(moments)),
{
    lemma_stretch_follows_lines(moments);
}

/// What is focused after a stretch of a session, also while something is being saved.
proof fn lemma_stretch_follows_lines(moments: Seq<Moment>)
    requires
        is_stretch(moments),
        !(moments[0].action is Save),
    ensures
        ({
            let start = moments[0].tabs;
            let focuses = focuses_since(moments);
            let tabs = moments.last().tabs;
            match moments.last().action {
                SessionAction::Save { note, .. } => {
                    let base = start.noted_all(focuses.drop_last());
                    let (tab, ws) = (note.tab_id@, note.workspace_id@);
                    &&& focuses.len() > 0
                    &&& focuses.last() == (Focus { tab, ws, tab_saved: true, ws_saved: true })
                    &&& match note.saving {
                        Saving::Tab => tabs == base && base.on_focused(tab, ws).1 is SaveTab,
                        Saving::Workspace => {
                            let (moved, step) = base.on_tab_saved(tab, ws);
                            tabs == moved && step is SaveWorkspace
                        },
                    }
                },
                _ => tabs == start.noted_all(focuses),
            }
        }),
    decreases moments.len(),
{
    if moments.len() > 1 {
        let earlier = moments.drop_last();
        assert forall|i: int, j: int|
            #![trigger earlier[i], earlier[j]]
            0 <= i && j == i + 1 && j < earlier.len() implies earlier[i].continues_with(
            earlier[j],
        ) by {
            assert(moments[i].continues_with(moments[j]));
        }
        lemma_stretch_follows_lines(earlier);
        assert(moments[moments.len() - 2].continues_with(moments[moments.len() - 1]));
        let known = focuses_since(earlier);
        let focuses = focuses_since(moments);
        let event = moments.last().event;
        if announced(event) is Some {
            assert(focuses.drop_last() =~= known);
        } else if event is Saved {
            assert(focuses.drop_last() =~= known.drop_last());
            assert(known.drop_last().push(known.last()) =~= known);
        }
    }
}

/// Whether `event` is the arrival of a good answer to the request for events.
pub open spec fn is_acceptance(event: SessionEvent) -> bool {
    &&& event matches SessionEvent::AnswerReceived(Ok(Some(line)))
    &&& reply_in(line@, request_id(SUBSCRIPTION_SUFFIX@)) matches Reply::Answer(answer)
    &&& answer.member("error"@) is None
}

/// A session takes lines for events only once Herdr has accepted the request for them.
pub proof fn law_events_after_acceptance(moments: Seq<Moment>, position: int)
    requires
        is_session(moments),
        0 <= position < moments.len(),
        moments[position].is_about_event(),
    ensures
        exists|i: int| 0 <= i < position && is_acceptance((#[trigger] moments[i]).event),
    decreases position,
{
    let before = moments[position - 1];
    assert(before.continues_with(moments[position]));
    if !is_acceptance(before.event) {
        if position > 1 {
            assert(moments[position - 2].continues_with(before));
        }
        law_events_after_acceptance(moments, position - 1);
    }
}

/// Once events are followed, nothing is sent any more. What comes in may end the session, and a
/// save that failed does not.
pub proof fn law_following_sends_nothing(moment: Moment, before: TabsView)
    requires
        moment.action.follows(moment.event, before, moment.tabs),
        moment.is_about_event(),
    ensures
        moment.action is ReceiveEvent || moment.action is Save || moment.action is Finished,
        moment.event is Saved ==> !(moment.action is Finished),
{
}

/// A session asks for events once it is connected, whatever becomes of the snapshot: nothing that
/// happens to the snapshot ends it.
pub proof fn law_snapshot_cannot_end_session(
    event: SessionEvent,
    action: SessionAction,
    before: TabsView,
    after: TabsView,
)
    requires
        action.follows(event, before, after),
        match event {
            SessionEvent::SnapshotRequested(_) => true,
            SessionEvent::SnapshotReceived(_) => true,
            SessionEvent::Saved { note, .. } => note.from_snapshot,
            _ => false,
        },
    ensures
        !(action is Finished),
        action is ReceiveSnapshot || action is Save || action.requests_events(true)
            || action.requests_events(false),
{
}

/// A late answer to the request for a snapshot is not taken for the answer to the request for
/// events.
pub proof fn law_late_snapshot_is_skipped(line: Seq<char>, message: Json)
    requires
        json_parsed(line) == Ok::<Json, Seq<char>>(message),
        is_reply(message, request_id(SNAPSHOT_SUFFIX@)),
    ensures
        reply_in(line, request_id(SUBSCRIPTION_SUFFIX@)) is Other,
{
    let snapshot = request_id(SNAPSHOT_SUFFIX@);
    let subscription = request_id(SUBSCRIPTION_SUFFIX@);
    reveal_strlit("prevtab");
    reveal_strlit("_snapshot");
    reveal_strlit("_sub_tab_focused");
    assert(snapshot.len() != subscription.len());
}

/// A session starts with nothing focused, whatever was focused before, and with a connection.
pub proof fn law_session_starts_blank(action: SessionAction, before: TabsView, after: TabsView)
    requires
        action.follows(SessionEvent::Start, before, after),
    ensures
        action is Connect,
        after.tabs == Map::<Seq<char>, Seq<char>>::empty(),
        after.workspace is None,
{
}

/// A session goes step by step: the snapshot is asked for and awaited, then events are, and each of
/// these leaves what is focused as it is.
pub proof fn law_session_goes_step_by_step(
    action: SessionAction,
    event: SessionEvent,
    before: TabsView,
    after: TabsView,
)
    requires
        action.follows(event, before, after),
    ensures
        event matches SessionEvent::Connected(Ok(_)) ==> after == before && (
        action matches SessionAction::RequestSnapshot(line) && line@ == request_line(
            "prevtab_snapshot"@,
            "session.snapshot"@,
            Json::Object(Map::<Seq<char>, Json>::empty()),
        )),
        event matches SessionEvent::SnapshotRequested(Ok(_)) ==> after == before
            && action is ReceiveSnapshot,
        event matches SessionEvent::EventsRequested(Ok(_)) ==> after == before
            && action is ReceiveAnswer,
        action matches SessionAction::RequestEvents { line, .. } ==> line@ == subscription_line(),
{
    law_session_requests();
}

/// A failure to connect, to ask for events or to read an answer or an event ends the session with
/// that very error. A connection that ends before the answer is a failure, and one that ends after
/// it is not.
pub proof fn law_session_fails_with_the_error(
    action: SessionAction,
    event: SessionEvent,
    before: TabsView,
    after: TabsView,
    failed: std::io::Error,
)
    requires
        action.follows(event, before, after),
    ensures
        event == SessionEvent::Connected(Err(failed)) || event == SessionEvent::EventsRequested(
            Err(failed),
        ) || event == SessionEvent::AnswerReceived(Err(failed)) || event
            == SessionEvent::EventReceived(Err(failed)) ==> after == before && (
        action matches SessionAction::Finished(Err(Error::Io(error))) && error == failed),
        event matches SessionEvent::AnswerReceived(Ok(None)) ==> after == before && (
        action matches SessionAction::Finished(Err(Error::Herdr(HerdrError::ConnectionClosed)))),
        event matches SessionEvent::EventReceived(Ok(None)) ==> after == before && (
        action matches SessionAction::Finished(Ok(_))),
{
}

/// Where there is no snapshot to be had, or it does not name what is focused, events are asked for
/// without one. Lines that are not the snapshot are skipped.
pub proof fn law_session_without_snapshot(
    action: SessionAction,
    event: SessionEvent,
    before: TabsView,
    after: TabsView,
)
    requires
        action.follows(event, before, after),
    ensures
        match event {
            SessionEvent::SnapshotRequested(Err(_)) => after == before && (
            action matches SessionAction::RequestEvents { has_snapshot, .. } && !has_snapshot),
            SessionEvent::SnapshotReceived(Err(_)) => after == before && (
            action matches SessionAction::RequestEvents { has_snapshot, .. } && !has_snapshot),
            SessionEvent::SnapshotReceived(Ok(None)) => after == before && (
            action matches SessionAction::RequestEvents { has_snapshot, .. } && !has_snapshot),
            SessionEvent::SnapshotReceived(Ok(Some(line))) => match json_parsed(line@) {
                Err(_) => after == before && (action matches SessionAction::RequestEvents {
                    has_snapshot,
                    ..
                } && !has_snapshot),
                Ok(message) => {
                    let own = {
                        &&& message matches Json::Object(members)
                        &&& members.contains_key("id"@)
                        &&& members["id"@] == Json::Str("prevtab_snapshot"@)
                    };
                    &&& !own ==> after == before && action is ReceiveSnapshot
                    &&& own && snapshot_focus(message) is None ==> after == before && (
                    action matches SessionAction::RequestEvents { has_snapshot, .. }
                        && !has_snapshot)
                },
            },
            _ => true,
        },
{
    law_request_ids();
}

/// The answer to the request for events decides: without an error in it, events are awaited, and
/// with one, the session fails with it. Other lines are skipped, and one that is not JSON ends the
/// session.
pub proof fn law_session_answer_decides(
    action: SessionAction,
    line: String,
    before: TabsView,
    after: TabsView,
)
    requires
        action.follows(SessionEvent::AnswerReceived(Ok(Some(line))), before, after),
    ensures
        after == before,
        match json_parsed(line@) {
            Err(reason) => action matches SessionAction::Finished(
                Err(Error::Herdr(HerdrError::InvalidJson(told))),
            ) && told@ == reason,
            Ok(message) => {
                let own = {
                    &&& message matches Json::Object(members)
                    &&& members.contains_key("id"@)
                    &&& members["id"@] == Json::Str("prevtab_sub_tab_focused"@)
                };
                &&& !own ==> action is ReceiveAnswer
                &&& own ==> (message matches Json::Object(members) && if members.contains_key(
                    "error"@,
                ) {
                    action matches SessionAction::Finished(
                        Err(Error::Herdr(HerdrError::RequestFailed { method, detail })),
                    ) && method@ == "subscription"@ && detail@ == json_printed(members["error"@])
                } else {
                    action is ReceiveEvent
                })
            },
        },
{
    law_request_ids();
}

/// While events are awaited, a line that is not about a focused tab is skipped, and one that is not
/// JSON ends the session.
pub proof fn law_session_skips_other_events(
    action: SessionAction,
    line: String,
    before: TabsView,
    after: TabsView,
)
    requires
        action.follows(SessionEvent::EventReceived(Ok(Some(line))), before, after),
    ensures
        match json_parsed(line@) {
            Err(reason) => after == before && (action matches SessionAction::Finished(
                Err(Error::Herdr(HerdrError::InvalidJson(told))),
            ) && told@ == reason),
            Ok(message) => event_focus(message) is None ==> after == before
                && action is ReceiveEvent,
        },
{
}

/// Whether a session saves `content` for the focused tab `tab` of `ws`, as the previous tab of its
/// workspace or as the previous workspace.
pub open spec fn saves(
    action: SessionAction,
    tab: Seq<char>,
    ws: Seq<char>,
    of_tab: bool,
    content: Seq<char>,
    from_snapshot: bool,
) -> bool {
    &&& action matches SessionAction::Save { note, content: written }
    &&& written@ == content
    &&& note.tab_id@ == tab
    &&& note.workspace_id@ == ws
    &&& note.from_snapshot == from_snapshot
    &&& note.saving is Tab <==> of_tab
}

/// Whether a session goes on after the focused tab was dealt with: with the request for events
/// after the snapshot, and with the next line after an event.
pub open spec fn moves_on(action: SessionAction, from_snapshot: bool) -> bool {
    &&& from_snapshot ==> (action matches SessionAction::RequestEvents { has_snapshot, .. }
        && has_snapshot)
    &&& !from_snapshot ==> action is ReceiveEvent
}

/// Whether a session has made `tab` the current one of `ws`, and goes on as the workspace asks for:
/// one that was left is saved first.
pub open spec fn enters(
    action: SessionAction,
    tab: Seq<char>,
    ws: Seq<char>,
    from_snapshot: bool,
    before: TabsView,
    after: TabsView,
) -> bool {
    &&& after.tabs == before.tabs.insert(ws, tab)
    &&& if before.workspace is Some && before.workspace != Some(ws) {
        &&& after.workspace == before.workspace
        &&& saves(action, tab, ws, false, before.workspace->0, from_snapshot)
    } else {
        &&& after.workspace == Some(ws)
        &&& moves_on(action, from_snapshot)
    }
}

/// A tab that a line says is focused is taken note of: where another one is the current one of its
/// workspace, that one is saved for that workspace before anything changes. Otherwise the tab is
/// the current one at once.
pub proof fn law_session_takes_note(
    action: SessionAction,
    event: SessionEvent,
    before: TabsView,
    after: TabsView,
    tab: Seq<char>,
    ws: Seq<char>,
)
    requires
        action.follows(event, before, after),
        announced(event) == Some((tab, ws)),
    ensures
        if before.tabs.contains_key(ws) && before.tabs[ws] != tab {
            &&& after == before
            &&& saves(action, tab, ws, true, before.tabs[ws], event is SnapshotReceived)
        } else {
            enters(action, tab, ws, event is SnapshotReceived, before, after)
        },
{
}

/// Once the previous tab is saved, the focused one is the current one of its workspace. Once the
/// previous workspace is saved, the focused one is the current one. Where a save failed, everything
/// stays as it is, and the session goes on.
pub proof fn law_session_after_a_save(
    action: SessionAction,
    note: Note,
    outcome: Result<(), std::io::Error>,
    before: TabsView,
    after: TabsView,
)
    requires
        action.follows(SessionEvent::Saved { note, outcome }, before, after),
    ensures
        outcome is Err ==> after == before && moves_on(action, note.from_snapshot),
        outcome is Ok && note.saving is Tab ==> enters(
            action,
            note.tab_id@,
            note.workspace_id@,
            note.from_snapshot,
            before,
            after,
        ),
        outcome is Ok && note.saving is Workspace ==> after.tabs == before.tabs && after.workspace
            == Some(note.workspace_id@) && moves_on(action, note.from_snapshot),
{
}

/// A tab is saved to the file that has the name of its workspace, and a workspace to a file of its
/// own.
pub proof fn law_notes_have_their_files(note: Note, dir: Seq<u8>)
    ensures
        note.saving is Tab ==> note.location(dir) == joined(dir, encode_utf8(note.workspace_id@)),
        note.saving is Workspace ==> note.location(dir) == joined(
            dir,
            encode_utf8("prev_workspace"@),
        ),
{
}

} // verus!
