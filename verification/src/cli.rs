//! The commands of the program, and how a jump back goes.

use crate::error::Error;
use crate::json::Json;
use crate::protocol::{jump_back, one_member, request_id, workspace_jump_back};
use crate::protocol::{CallAction, CallEvent};
use crate::state_file::StateFile;
use crate::text::same_text;
use vstd::prelude::*;

verus! {

/// A command of the program.
#[derive(Debug, Clone, Copy, PartialEq, Eq, Structural)]
pub enum Cli {
    /// Start the long-lived tab-focus subscriber daemon.
    Rund,
    /// Focus the previous tab and swap state (one-shot).
    JumpBack,
    /// Focus the previously active workspace (one-shot).
    WorkspaceJumpBack,
}

impl Cli {
    /// What the command is called by.
    pub open spec fn called(self) -> Seq<char> {
        match self {
            Cli::Rund => "rund"@,
            Cli::JumpBack => "jump-back"@,
            Cli::WorkspaceJumpBack => "workspace-jump-back"@,
        }
    }

    /// What the command is called by.
    pub fn name(&self) -> (result: &'static str)
        ensures
            result@ == self.called(),
    {
        match self {
            Cli::Rund => "rund",
            Cli::JumpBack => "jump-back",
            Cli::WorkspaceJumpBack => "workspace-jump-back",
        }
    }

    /// What the command does, in a line.
    pub fn about(&self) -> (result: &'static str)
        ensures
            result@ == match self {
                Cli::Rund => "Start the long-lived tab-focus subscriber daemon"@,
                Cli::JumpBack => "Focus the previous tab and swap state (one-shot)"@,
                Cli::WorkspaceJumpBack => "Focus the previously active workspace (one-shot)"@,
            },
    {
        match self {
            Cli::Rund => "Start the long-lived tab-focus subscriber daemon",
            Cli::JumpBack => "Focus the previous tab and swap state (one-shot)",
            Cli::WorkspaceJumpBack => "Focus the previously active workspace (one-shot)",
        }
    }

    /// The commands that there are.
    pub fn all() -> (result: Vec<Cli>)
        ensures
            result@ == seq![Cli::Rund, Cli::JumpBack, Cli::WorkspaceJumpBack],
    {
        vec![Cli::Rund, Cli::JumpBack, Cli::WorkspaceJumpBack]
    }

    /// The command that is called by `name`.
    pub fn from_name(name: &str) -> (result: Option<Cli>)
        ensures
            match result {
                Some(command) => name@ == command.called(),
                None => forall|command: Cli| name@ != #[trigger] command.called(),
            },
            forall|command: Cli| name@ == #[trigger] command.called() ==> result == Some(command),
    {
        proof {
            assert forall|command: Cli| name@ == #[trigger] command.called() implies command
                == if name@ == Cli::Rund.called() {
                Cli::Rund
            } else if name@ == Cli::JumpBack.called() {
                Cli::JumpBack
            } else {
                Cli::WorkspaceJumpBack
            } by {
                if name@ == Cli::Rund.called() {
                    law_names_differ(command, Cli::Rund);
                } else if name@ == Cli::JumpBack.called() {
                    law_names_differ(command, Cli::JumpBack);
                }
            }
        }
        if same_text(name, "rund") {
            Some(Cli::Rund)
        } else if same_text(name, "jump-back") {
            Some(Cli::JumpBack)
        } else if same_text(name, "workspace-jump-back") {
            Some(Cli::WorkspaceJumpBack)
        } else {
            None
        }
    }
}

/// No two commands are called by the same name.
pub proof fn law_names_differ(first: Cli, second: Cli)
    requires
        first.called() == second.called(),
    ensures
        first == second,
{
    reveal_strlit("rund");
    reveal_strlit("jump-back");
    reveal_strlit("workspace-jump-back");
    assert("rund"@.len() == 4);
    assert("jump-back"@.len() == 9);
    assert("workspace-jump-back"@.len() == 19);
}

/// What to jump back to.
#[derive(Debug, Clone, Copy, PartialEq, Eq, Structural)]
pub enum Jump {
    /// The previous tab of a workspace.
    Tab,
    /// The previous workspace.
    Workspace,
}

/// What has happened to a jump back.
pub enum JumpEvent {
    /// Nothing yet.
    Start,
    /// The id to jump to was read, or could not be.
    Read(Result<String, std::io::Error>),
    /// Herdr was asked to focus it.
    Asked(Result<(), Error>),
}

/// What to do next to jump back.
pub enum JumpAction {
    /// Read the id to jump to.
    Read,
    /// Ask Herdr to focus what has this id.
    Ask(String),
    /// Show this notification, and fail: nothing is recorded.
    NothingRecorded(&'static str),
    /// Show this notification, and fail with this error.
    Refused(&'static str, Error),
    /// Nothing: it is done.
    Finished,
}

impl Jump {
    /// What is shown where there is nothing to jump back to.
    pub open spec fn missing_notice(self) -> Seq<char> {
        match self {
            Jump::Tab => "No previous tab recorded for this workspace"@,
            Jump::Workspace => "No previous workspace recorded"@,
        }
    }

    /// What is shown where Herdr did not jump.
    pub open spec fn refused_notice(self) -> Seq<char> {
        match self {
            Jump::Tab => "Wasn't able to switch to the previous tab"@,
            Jump::Workspace => "Wasn't able to switch to the previous workspace"@,
        }
    }

    /// The file that holds the id to jump to, with state kept below `dir`. The workspace `ws_id`
    /// is that whose previous tab is jumped to, and has no say in a jump to another workspace.
    pub fn file<'a>(&self, dir: &'a [u8], ws_id: &'a str) -> (result: StateFile<'a>)
        ensures
            result == match self {
                Jump::Tab => StateFile::PreviousTab { dir, ws_id },
                Jump::Workspace => StateFile::PreviousWorkspace { dir },
            },
    {
        match self {
            Jump::Tab => StateFile::PreviousTab { dir, ws_id },
            Jump::Workspace => StateFile::PreviousWorkspace { dir },
        }
    }

    /// Has Herdr focus the tab or the workspace `id`. Says what to do after `event`.
    pub fn ask(&self, id: &str, event: CallEvent) -> (result: CallAction)
        ensures
            match self {
                Jump::Tab => result.follows(
                    event,
                    request_id("_jump_back"@),
                    "tab.focus"@,
                    one_member("tab_id"@, Json::Str(id@)),
                    "jump back"@,
                ),
                Jump::Workspace => result.follows(
                    event,
                    request_id("_ws_jump_back"@),
                    "workspace.focus"@,
                    one_member("workspace_id"@, Json::Str(id@)),
                    "jump back"@,
                ),
            },
    {
        match self {
            Jump::Tab => jump_back(id, event),
            Jump::Workspace => workspace_jump_back(id, event),
        }
    }

    /// Jumps back. Says what to do after `event`.
    pub fn step(&self, event: JumpEvent) -> (result: JumpAction)
        ensures
            result.follows(event, *self),
    {
        let missing: &'static str = match self {
            Jump::Tab => "No previous tab recorded for this workspace",
            Jump::Workspace => "No previous workspace recorded",
        };
        let refused: &'static str = match self {
            Jump::Tab => "Wasn't able to switch to the previous tab",
            Jump::Workspace => "Wasn't able to switch to the previous workspace",
        };
        match event {
            JumpEvent::Start => JumpAction::Read,
            JumpEvent::Read(Ok(id)) => if id.as_str().is_empty() {
                JumpAction::NothingRecorded(missing)
            } else {
                JumpAction::Ask(id)
            },
            JumpEvent::Read(Err(_)) => JumpAction::NothingRecorded(missing),
            JumpEvent::Asked(Ok(_)) => JumpAction::Finished,
            JumpEvent::Asked(Err(error)) => JumpAction::Refused(refused, error),
        }
    }
}

impl JumpAction {
    /// Whether this is what to do after `event` to jump back.
    pub open spec fn follows(self, event: JumpEvent, jump: Jump) -> bool {
        match event {
            JumpEvent::Start => self == JumpAction::Read,
            JumpEvent::Read(Ok(id)) => if id@.len() > 0 {
                self == JumpAction::Ask(id)
            } else {
                self matches JumpAction::NothingRecorded(notice) && notice@
                    == jump.missing_notice()
            },
            JumpEvent::Read(Err(_)) => self matches JumpAction::NothingRecorded(notice) && notice@
                == jump.missing_notice(),
            JumpEvent::Asked(Ok(_)) => self == JumpAction::Finished,
            JumpEvent::Asked(Err(error)) => {
                &&& self matches JumpAction::Refused(notice, reason)
                &&& notice@ == jump.refused_notice()
                &&& reason == error
            },
        }
    }
}

/// A jump is done only once Herdr was asked and agreed: nothing else that happens ends it with
/// success.
pub proof fn law_jump_is_done_once_agreed(action: JumpAction, event: JumpEvent, jump: Jump)
    requires
        action.follows(event, jump),
    ensures
        action is Finished <==> (event matches JumpEvent::Asked(Ok(_))),
{
}

/// Herdr is asked for nothing but an id that was read and is not empty, and for every such id.
pub proof fn law_jump_asks_for_what_was_read(action: JumpAction, event: JumpEvent, jump: Jump)
    requires
        action.follows(event, jump),
    ensures
        event matches JumpEvent::Read(Ok(id)) ==> (id@.len() > 0 ==> (
        action matches JumpAction::Ask(asked) && asked@ == id@)),
        action matches JumpAction::Ask(asked) ==> asked@.len() > 0 && (
        event matches JumpEvent::Read(Ok(id)) && id@ == asked@),
        event is Start ==> action is Read,
{
}

/// A jump for which no id could be read, or an empty one, fails: that nothing is recorded is shown,
/// in words of its own for each kind of jump.
pub proof fn law_jump_without_id_fails(action: JumpAction, event: JumpEvent, jump: Jump)
    requires
        action.follows(event, jump),
        match event {
            JumpEvent::Read(Ok(id)) => id@.len() == 0,
            JumpEvent::Read(Err(_)) => true,
            _ => false,
        },
    ensures
        action matches JumpAction::NothingRecorded(notice) && notice@ == match jump {
            Jump::Tab => "No previous tab recorded for this workspace"@,
            Jump::Workspace => "No previous workspace recorded"@,
        },
{
}

/// A jump that Herdr refused fails with Herdr's error, and that it could not be done is shown, in
/// words of its own for each kind of jump.
pub proof fn law_refused_jump_fails(action: JumpAction, refusal: Error, jump: Jump)
    requires
        action.follows(JumpEvent::Asked(Err(refusal)), jump),
    ensures
        action matches JumpAction::Refused(notice, error) && error == refusal && notice@
            == match jump {
            Jump::Tab => "Wasn't able to switch to the previous tab"@,
            Jump::Workspace => "Wasn't able to switch to the previous workspace"@,
        },
{
}

} // verus!
