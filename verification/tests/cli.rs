use herdr_prevtab::cli::{Cli, Jump, JumpAction, JumpEvent};
use herdr_prevtab::protocol::{CallAction, CallEvent};
use herdr_prevtab::{Error, HerdrError};

fn command() -> clap::Command {
    let mut command = clap::Command::new("herdr-prevtab")
        .subcommand_required(true)
        .arg_required_else_help(true);
    for cli in Cli::all() {
        command = command.subcommand(clap::Command::new(cli.name()).about(cli.about()));
    }
    command
}

fn io_error() -> std::io::Error {
    std::io::Error::from(std::io::ErrorKind::NotFound)
}

#[test]
fn verify_cli() {
    command().debug_assert();
}

#[test]
fn every_command_is_found() {
    for cli in Cli::all() {
        let matches = command().get_matches_from(["herdr-prevtab", cli.name()]);
        let name = matches.subcommand_name().unwrap();
        assert_eq!(Cli::from_name(name), Some(cli));
    }
}

#[test]
fn command_names() {
    let names: Vec<&str> = Cli::all().iter().map(|cli| cli.name()).collect();
    assert_eq!(names, ["rund", "jump-back", "workspace-jump-back"]);
    assert_eq!(Cli::from_name("jump_back"), None);
    assert_eq!(Cli::from_name(""), None);
    assert_eq!(Cli::Rund.about(), "Start the long-lived tab-focus subscriber daemon");
}

#[test]
fn jump_goes_to_recorded_id() {
    assert!(matches!(Jump::Tab.step(JumpEvent::Start), JumpAction::Read));
    match Jump::Tab.step(JumpEvent::Read(Ok("w:1".to_string()))) {
        JumpAction::Ask(id) => assert_eq!(id, "w:1"),
        _ => panic!("an id is recorded"),
    }
    assert!(matches!(Jump::Tab.step(JumpEvent::Asked(Ok(()))), JumpAction::Finished));
}

#[test]
fn jump_without_recorded_id() {
    match Jump::Tab.step(JumpEvent::Read(Ok(String::new()))) {
        JumpAction::NothingRecorded(notice) => {
            assert_eq!(notice, "No previous tab recorded for this workspace")
        }
        _ => panic!("an empty id is none"),
    }
    match Jump::Workspace.step(JumpEvent::Read(Err(io_error()))) {
        JumpAction::NothingRecorded(notice) => {
            assert_eq!(notice, "No previous workspace recorded")
        }
        _ => panic!("nothing could be read"),
    }
}

#[test]
fn refused_jump() {
    let refused = Error::Herdr(HerdrError::ConnectionClosed);
    match Jump::Tab.step(JumpEvent::Asked(Err(refused))) {
        JumpAction::Refused(notice, Error::Herdr(HerdrError::ConnectionClosed)) => {
            assert_eq!(notice, "Wasn't able to switch to the previous tab")
        }
        _ => panic!("the jump was refused"),
    }
    match Jump::Workspace.step(JumpEvent::Asked(Err(Error::Io(io_error())))) {
        JumpAction::Refused(notice, Error::Io(_)) => {
            assert_eq!(notice, "Wasn't able to switch to the previous workspace")
        }
        _ => panic!("the jump was refused"),
    }
}

#[test]
fn file_of_a_jump() {
    assert_eq!(Jump::Tab.file(b"/s", "w1").path(), b"/s/w1");
    assert_eq!(Jump::Workspace.file(b"/s", "w1").path(), b"/s/prev_workspace");
}

#[test]
fn request_of_a_jump() {
    let cases = [
        (
            Jump::Tab,
            "{\"id\":\"prevtab_jump_back\",\"method\":\"tab.focus\",\
             \"params\":{\"tab_id\":\"x\"}}\n",
        ),
        (
            Jump::Workspace,
            "{\"id\":\"prevtab_ws_jump_back\",\"method\":\"workspace.focus\",\
             \"params\":{\"workspace_id\":\"x\"}}\n",
        ),
    ];
    for (jump, expected) in cases {
        match jump.ask("x", CallEvent::Connected(Ok(()))) {
            CallAction::Send(line) => assert_eq!(line, expected),
            _ => panic!("the request is sent"),
        }
    }
}
