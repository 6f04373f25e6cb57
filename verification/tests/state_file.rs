use herdr_prevtab::paths::join;
use herdr_prevtab::state_file::{ReadAction, ReadEvent, StateFile, WriteAction, WriteEvent};
use std::collections::HashMap;
use std::io::{Error, ErrorKind};
use std::path::Path;

fn tab_file<'a>(dir: &'a [u8], ws_id: &'a str) -> StateFile<'a> {
    StateFile::PreviousTab { dir, ws_id }
}

fn read(file: &StateFile, content: &str) -> String {
    match file.read(ReadEvent::Loaded(Ok(content.to_string()))) {
        ReadAction::Finished(Ok(id)) => id,
        _ => panic!("the content was read"),
    }
}

/// Carries writing out on files in memory, up to `limit` operations.
fn write(files: &mut HashMap<Vec<u8>, Vec<u8>>, file: &StateFile, content: &str, limit: usize) {
    let mut open = Vec::new();
    let mut event = WriteEvent::Start;
    for _ in 0..limit {
        event = match file.write(content, event) {
            WriteAction::Create(path) => {
                files.insert(path.clone(), Vec::new());
                open = path;
                WriteEvent::Created(Ok(()))
            }
            WriteAction::Write(bytes) => {
                files.get_mut(&open).unwrap().extend(bytes);
                WriteEvent::Written(Ok(()))
            }
            WriteAction::Sync => WriteEvent::Synced(Ok(())),
            WriteAction::Rename { from, to } => {
                let moved = files.remove(&from).unwrap();
                files.insert(to, moved);
                WriteEvent::Renamed(Ok(()))
            }
            WriteAction::Finished(outcome) => {
                assert!(outcome.is_ok());
                return;
            }
        };
    }
}

#[test]
fn paths_are_joined_as_std_does() {
    for dir in ["", "/", "a", "a/", "/var/state", "/var/state/"] {
        for name in ["", "w1", "/w1", "w/1", "prev_workspace"] {
            let expected = Path::new(dir).join(name);
            let joined = join(dir.as_bytes(), name.as_bytes());
            assert_eq!(joined, expected.to_str().unwrap().as_bytes());
        }
    }
}

#[test]
fn file_paths() {
    assert_eq!(tab_file(b"/s", "w1").path(), b"/s/w1");
    assert_eq!(tab_file(b"/s", "/abs").path(), b"/abs");
    assert_eq!(tab_file(b"\xff", "w1").path(), b"\xff/w1");
    assert_eq!(StateFile::PreviousWorkspace { dir: b"/s" }.path(), b"/s/prev_workspace");
    match tab_file(b"/s", "w1").read(ReadEvent::Start) {
        ReadAction::Load(path) => assert_eq!(path, b"/s/w1"),
        _ => panic!("nothing is read yet"),
    }
}

#[test]
fn reading_trims() {
    let file = tab_file(b"/s", "w1");
    assert_eq!(read(&file, " w1:2\n"), "w1:2");
    assert_eq!(read(&file, "\u{3000}a b\u{85}\r\n"), "a b");
    assert_eq!(read(&file, " \t\n"), "");
    assert_eq!(read(&file, ""), "");
}

#[test]
fn white_space_is_that_of_unicode() {
    let listed = [
        0x9, 0xa, 0xb, 0xc, 0xd, 0x20, 0x85, 0xa0, 0x1680, 0x2000, 0x2001, 0x2002, 0x2003, 0x2004,
        0x2005, 0x2006, 0x2007, 0x2008, 0x2009, 0x200a, 0x2028, 0x2029, 0x202f, 0x205f, 0x3000,
    ];
    let file = tab_file(b"/s", "w1");
    for c in '\u{0}'..=char::MAX {
        let kept = read(&file, &format!("{c}x{c}")) != "x";
        assert_eq!(kept, !listed.contains(&(c as u32)), "{:x}", c as u32);
    }
}

#[test]
fn failed_read_is_handed_on() {
    let failed = Err(Error::from(ErrorKind::NotFound));
    match tab_file(b"/s", "w1").read(ReadEvent::Loaded(failed)) {
        ReadAction::Finished(Err(error)) => assert_eq!(error.kind(), ErrorKind::NotFound),
        _ => panic!("the file could not be read"),
    }
}

#[test]
fn write_operations() {
    let file = tab_file(b"/s", "w1");
    match file.write("t1", WriteEvent::Start) {
        WriteAction::Create(path) => assert_eq!(path, b"/s/w1.tmp"),
        _ => panic!("first the temporary file is created"),
    }
    match file.write("t1", WriteEvent::Created(Ok(()))) {
        WriteAction::Write(bytes) => assert_eq!(bytes, b"t1"),
        _ => panic!("then the content is written"),
    }
    assert!(matches!(file.write("t1", WriteEvent::Written(Ok(()))), WriteAction::Sync));
    match file.write("t1", WriteEvent::Synced(Ok(()))) {
        WriteAction::Rename { from, to } => {
            assert_eq!(from, b"/s/w1.tmp");
            assert_eq!(to, b"/s/w1");
        }
        _ => panic!("then it takes the place of the file"),
    }
    let last = file.write("t1", WriteEvent::Renamed(Ok(())));
    assert!(matches!(last, WriteAction::Finished(Ok(()))));
}

#[test]
fn failed_operation_ends_writing() {
    let file = tab_file(b"/s", "w1");
    let full = || Err(Error::from(ErrorKind::WriteZero));
    for event in [
        WriteEvent::Created(full()),
        WriteEvent::Written(full()),
        WriteEvent::Synced(full()),
        WriteEvent::Renamed(full()),
    ] {
        match file.write("t1", event) {
            WriteAction::Finished(Err(error)) => assert_eq!(error.kind(), ErrorKind::WriteZero),
            _ => panic!("a failure ends the writing"),
        }
    }
}

#[test]
fn temporary_name_of_a_path_that_is_not_text() {
    match tab_file(b"\xff", "w1").write("t1", WriteEvent::Start) {
        WriteAction::Create(path) => assert_eq!(path, "\u{fffd}/w1.tmp".as_bytes()),
        _ => panic!("first the temporary file is created"),
    }
    match tab_file("/\u{e4}".as_bytes(), "w1").write("t1", WriteEvent::Start) {
        WriteAction::Create(path) => assert_eq!(path, "/\u{e4}/w1.tmp".as_bytes()),
        _ => panic!("first the temporary file is created"),
    }
}

#[test]
fn written_file_is_old_or_new() {
    let file = tab_file(b"/s", "w1");
    for limit in 0..6 {
        let mut files = HashMap::from([(b"/s/w1".to_vec(), b"old".to_vec())]);
        write(&mut files, &file, "new", limit);
        let expected: &[u8] = if limit < 4 { b"old" } else { b"new" };
        assert_eq!(files[b"/s/w1".as_slice()], expected);
        assert_eq!(files.len(), if (1..4).contains(&limit) { 2 } else { 1 });
    }
}

#[test]
fn reading_gives_back_what_was_written() {
    let mut files = HashMap::new();
    let file = tab_file(b"/s", "w1");
    write(&mut files, &file, "w1:\u{e4} ", 9);
    let content = String::from_utf8(files[&file.path()].clone()).unwrap();
    assert_eq!(read(&file, &content), "w1:\u{e4}");
}

#[test]
fn files_are_apart() {
    let names = ["", "w1", "w2", "w", "W1", "w1.tmp"];
    for first in names {
        for second in names {
            let same = tab_file(b"/s", first).path() == tab_file(b"/s", second).path();
            assert_eq!(same, first == second);
        }
        let workspace = StateFile::PreviousWorkspace { dir: b"/s" }.path();
        assert_ne!(tab_file(b"/s", first).path(), workspace);
    }
    let shared = tab_file(b"/s", "prev_workspace").path();
    assert_eq!(shared, StateFile::PreviousWorkspace { dir: b"/s" }.path());
}
