use herdr_prevtab::state_file::StateFile;
use herdr_prevtab::tabs::{CurrentTabs, FocusAction, FocusEvent};
use herdr_prevtab::Error;
use std::collections::HashMap;

const DIR: &[u8] = b"/s";

/// Takes note of a focused tab, with files in memory.
fn focus(tabs: &mut CurrentTabs, files: &mut HashMap<Vec<u8>, String>, tab: &str, ws: &str) {
    let mut event = FocusEvent::Focused;
    loop {
        match tabs.on_tab_focused(tab, ws, DIR, event) {
            FocusAction::Save { file, content } => {
                files.insert(file.path(), content);
                event = match file {
                    StateFile::PreviousTab { .. } => FocusEvent::TabSaved(Ok(())),
                    StateFile::PreviousWorkspace { .. } => FocusEvent::WorkspaceSaved(Ok(())),
                };
            }
            FocusAction::Finished(outcome) => {
                assert!(outcome.is_ok());
                return;
            }
        }
    }
}

fn failure() -> std::io::Error {
    std::io::Error::from(std::io::ErrorKind::PermissionDenied)
}

fn tab_path() -> Vec<u8> {
    StateFile::PreviousTab { dir: DIR, ws_id: "w1" }.path()
}

fn workspace_path() -> Vec<u8> {
    StateFile::PreviousWorkspace { dir: DIR }.path()
}

#[test]
fn nothing_is_focused_at_first() {
    let tabs = CurrentTabs::default();
    assert!(tabs.current_tabs.is_empty());
    assert_eq!(tabs.current_workspace, None);
    assert_eq!(tabs.current_tab("w1"), None);
}

#[test]
fn first_focus_saves_nothing() {
    let (mut tabs, mut files) = (CurrentTabs::default(), HashMap::new());
    focus(&mut tabs, &mut files, "t1", "w1");
    assert!(files.is_empty());
    assert_eq!(tabs.current_tab("w1"), Some("t1"));
    assert_eq!(tabs.current_workspace.as_deref(), Some("w1"));
}

#[test]
fn refocus_saves_nothing() {
    let (mut tabs, mut files) = (CurrentTabs::default(), HashMap::new());
    focus(&mut tabs, &mut files, "t1", "w1");
    focus(&mut tabs, &mut files, "t1", "w1");
    assert!(files.is_empty());
    assert_eq!(tabs.current_tabs.len(), 1);
}

#[test]
fn jump_back_toggles_between_tabs() {
    let (mut tabs, mut files) = (CurrentTabs::default(), HashMap::new());
    focus(&mut tabs, &mut files, "t1", "w1");
    focus(&mut tabs, &mut files, "t2", "w1");
    assert_eq!(files[&tab_path()], "t1");
    focus(&mut tabs, &mut files, "t1", "w1");
    assert_eq!(files[&tab_path()], "t2");
    assert_eq!(tabs.current_tab("w1"), Some("t1"));
    assert!(!files.contains_key(&workspace_path()));
}

#[test]
fn jump_back_toggles_between_workspaces() {
    let (mut tabs, mut files) = (CurrentTabs::default(), HashMap::new());
    focus(&mut tabs, &mut files, "t1", "w1");
    focus(&mut tabs, &mut files, "t9", "w2");
    assert_eq!(files[&workspace_path()], "w1");
    assert!(!files.contains_key(&tab_path()));
    focus(&mut tabs, &mut files, "t3", "w1");
    assert_eq!(files[&workspace_path()], "w2");
    assert_eq!(files[&tab_path()], "t1");
    assert_eq!(tabs.current_tab("w2"), Some("t9"));
}

#[test]
fn failed_save_of_a_tab_changes_nothing() {
    let (mut tabs, mut files) = (CurrentTabs::default(), HashMap::new());
    focus(&mut tabs, &mut files, "t1", "w1");
    let outcome = tabs.on_tab_focused("t2", "w1", DIR, FocusEvent::TabSaved(Err(failure())));
    assert!(matches!(outcome, FocusAction::Finished(Err(Error::Io(_)))));
    assert_eq!(tabs.current_tab("w1"), Some("t1"));
    match tabs.on_tab_focused("t2", "w1", DIR, FocusEvent::Focused) {
        FocusAction::Save { content, .. } => assert_eq!(content, "t1"),
        _ => panic!("the save is asked for again"),
    }
}

#[test]
fn failed_save_of_a_workspace_keeps_it() {
    let (mut tabs, mut files) = (CurrentTabs::default(), HashMap::new());
    focus(&mut tabs, &mut files, "t1", "w1");
    let first = tabs.on_tab_focused("t2", "w2", DIR, FocusEvent::Focused);
    assert!(matches!(
        first,
        FocusAction::Save { file: StateFile::PreviousWorkspace { .. }, .. }
    ));
    let outcome = tabs.on_tab_focused("t2", "w2", DIR, FocusEvent::WorkspaceSaved(Err(failure())));
    assert!(matches!(outcome, FocusAction::Finished(Err(Error::Io(_)))));
    assert_eq!(tabs.current_tab("w2"), Some("t2"));
    assert_eq!(tabs.current_workspace.as_deref(), Some("w1"));
    match tabs.on_tab_focused("t2", "w2", DIR, FocusEvent::Focused) {
        FocusAction::Save { content, .. } => assert_eq!(content, "w1"),
        _ => panic!("the save is asked for again"),
    }
}

#[test]
fn other_workspaces_keep_their_files() {
    let (mut tabs, mut files) = (CurrentTabs::default(), HashMap::new());
    focus(&mut tabs, &mut files, "t1", "w1");
    focus(&mut tabs, &mut files, "t2", "w1");
    focus(&mut tabs, &mut files, "t3", "w2");
    focus(&mut tabs, &mut files, "t4", "w2");
    assert_eq!(files[&tab_path()], "t1");
    let other = StateFile::PreviousTab { dir: DIR, ws_id: "w2" };
    assert_eq!(files[&other.path()], "t3");
    assert_eq!(files[&workspace_path()], "w1");
}

#[test]
fn recorded_is_never_current() {
    let mut tabs = CurrentTabs::default();
    let mut files = HashMap::new();
    for (tab, ws) in [("a", "w"), ("b", "w"), ("a", "w"), ("a", "v"), ("c", "v"), ("b", "w")] {
        focus(&mut tabs, &mut files, tab, ws);
        for id in ["w", "v"] {
            let path = StateFile::PreviousTab { dir: b"/s", ws_id: id }.path();
            if let Some(recorded) = files.get(&path) {
                assert_ne!(tabs.current_tab(id), Some(recorded.as_str()));
            }
        }
        if let Some(recorded) = files.get(&workspace_path()) {
            assert_ne!(tabs.current_workspace.as_ref(), Some(recorded));
        }
    }
}
