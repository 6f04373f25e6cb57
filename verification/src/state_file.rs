//! The files that remember what was focused before, one per workspace for the previous tab and
//! one for the previous workspace.

use crate::paths::{is_absolute, join, joined, law_joined_apart};
use crate::text::{decode_lossy, is_white_space, law_trimmed_ends, law_trimmed_keeps};
use crate::text::{lossy_text, trimmed};
use vstd::prelude::*;
use vstd::utf8::{char_u32_cast, decode_utf8_encode_utf8, encode_utf8, encode_utf8_decode_utf8};
use vstd::utf8::{decode_utf8, decode_utf8_split, encode_utf8_first_scalar, encode_utf8_valid_utf8};
use vstd::utf8::{is_ascii_chars_encode_utf8, is_char_boundary_iff_not_is_continuation_byte};
use vstd::utf8::valid_utf8;

verus! {

/// The name of the file that holds the previous workspace.
pub const PREVIOUS_WORKSPACE_FILE: &'static str = "prev_workspace";

/// What the name of a file ends in while its new content is being written.
pub const TMP_SUFFIX: &'static str = ".tmp";

/// A file with the id of what was focused before.
#[derive(Clone, Copy)]
pub enum StateFile<'a> {
    /// The previous tab of the workspace `ws_id`.
    PreviousTab { dir: &'a [u8], ws_id: &'a str },
    /// The previous workspace.
    PreviousWorkspace { dir: &'a [u8] },
}

/// An operation on files.
pub enum FileOp {
    /// Creates the file, or empties it, and keeps it open.
    Create(Seq<u8>),
    /// Writes to the file that is open.
    Write(Seq<u8>),
    /// Brings what was written to the disk.
    Sync,
    /// Moves a file, in place of the one that may be there.
    Rename(Seq<u8>, Seq<u8>),
}

/// The operations that write `content` to the file `path`, in order.
pub open spec fn write_ops(path: Seq<u8>, content: Seq<char>) -> Seq<FileOp> {
    seq![
        FileOp::Create(tmp_path(path)),
        FileOp::Write(encode_utf8(content)),
        FileOp::Sync,
        FileOp::Rename(tmp_path(path), path),
    ]
}

/// Where the new content of the file `path` is written before it takes the file's place.
pub open spec fn tmp_path(path: Seq<u8>) -> Seq<u8> {
    encode_utf8(lossy_text(path) + TMP_SUFFIX@)
}

/// What has happened to a file that is being read.
pub enum ReadEvent {
    /// Nothing yet.
    Start,
    /// Its content was read, or could not be.
    Loaded(Result<String, std::io::Error>),
}

/// What to do next to read a file.
pub enum ReadAction {
    /// Read the content of the file with this path.
    Load(Vec<u8>),
    /// Nothing: this is the result.
    Finished(Result<String, std::io::Error>),
}

impl ReadAction {
    /// Whether this is what to do after `event` to read the id that the file `path` holds.
    pub open spec fn follows(self, event: ReadEvent, path: Seq<u8>) -> bool {
        match event {
            ReadEvent::Start => self matches ReadAction::Load(loaded) && loaded@ == path,
            ReadEvent::Loaded(Ok(content)) => self matches ReadAction::Finished(Ok(id)) && id@
                == trimmed(content@),
            ReadEvent::Loaded(Err(error)) => self == ReadAction::Finished(Err(error)),
        }
    }
}

/// What has happened to a file that is being written.
pub enum WriteEvent {
    /// Nothing yet.
    Start,
    Created(Result<(), std::io::Error>),
    Written(Result<(), std::io::Error>),
    Synced(Result<(), std::io::Error>),
    Renamed(Result<(), std::io::Error>),
}

/// What to do next to write a file.
pub enum WriteAction {
    /// Create the file with this path, or empty it, and keep it open.
    Create(Vec<u8>),
    /// Write all of this to the open file.
    Write(Vec<u8>),
    /// Bring what was written to the disk.
    Sync,
    /// Move the file `from` to `to`, in place of the one that may be there.
    Rename { from: Vec<u8>, to: Vec<u8> },
    /// Nothing: this is the result.
    Finished(Result<(), std::io::Error>),
}

impl WriteEvent {
    /// How many operations have been tried.
    pub open spec fn tried(self) -> int {
        match self {
            WriteEvent::Start => 0,
            WriteEvent::Created(_) => 1,
            WriteEvent::Written(_) => 2,
            WriteEvent::Synced(_) => 3,
            WriteEvent::Renamed(_) => 4,
        }
    }

    /// How the last of them ended.
    pub open spec fn outcome(self) -> Result<(), std::io::Error> {
        match self {
            WriteEvent::Start => Ok(()),
            WriteEvent::Created(outcome) => outcome,
            WriteEvent::Written(outcome) => outcome,
            WriteEvent::Synced(outcome) => outcome,
            WriteEvent::Renamed(outcome) => outcome,
        }
    }
}

impl WriteAction {
    /// The operation that is to be done.
    pub open spec fn op(self) -> Option<FileOp> {
        match self {
            WriteAction::Create(path) => Some(FileOp::Create(path@)),
            WriteAction::Write(bytes) => Some(FileOp::Write(bytes@)),
            WriteAction::Sync => Some(FileOp::Sync),
            WriteAction::Rename { from, to } => Some(FileOp::Rename(from@, to@)),
            WriteAction::Finished(_) => None,
        }
    }

    /// Whether this is what to do after `event` to write `content` to the file `path`: the next
    /// operation as long as none has failed.
    pub open spec fn follows(self, event: WriteEvent, path: Seq<u8>, content: Seq<char>) -> bool {
        match event.outcome() {
            Err(error) => self == WriteAction::Finished(Err(error)),
            Ok(_) => if event.tried() < write_ops(path, content).len() {
                self.op() == Some(write_ops(path, content)[event.tried()])
            } else {
                self == WriteAction::Finished(Ok(()))
            },
        }
    }
}

/// Where the previous tab of the workspace `ws_id` is kept below the directory `dir`.
pub open spec fn tab_file(dir: Seq<u8>, ws_id: Seq<char>) -> Seq<u8> {
    joined(dir, encode_utf8(ws_id))
}

/// Where the previous workspace is kept below the directory `dir`.
pub open spec fn workspace_file(dir: Seq<u8>) -> Seq<u8> {
    joined(dir, encode_utf8(PREVIOUS_WORKSPACE_FILE@))
}

impl<'a> StateFile<'a> {
    /// Where the file is.
    pub open spec fn location(self) -> Seq<u8> {
        match self {
            StateFile::PreviousTab { dir, ws_id } => tab_file(dir@, ws_id@),
            StateFile::PreviousWorkspace { dir } => workspace_file(dir@),
        }
    }

    /// The path of the file.
    pub fn path(&self) -> (result: Vec<u8>)
        ensures
            result@ == self.location(),
    {
        match self {
            StateFile::PreviousTab { dir, ws_id } => join(dir, ws_id.as_bytes()),
            StateFile::PreviousWorkspace { dir } => join(dir, PREVIOUS_WORKSPACE_FILE.as_bytes()),
        }
    }

    /// Reads the id that the file holds: the file's content without the white space around it.
    /// Says what to do after `event`.
    pub fn read(&self, event: ReadEvent) -> (result: ReadAction)
        ensures
            match event {
                ReadEvent::Start => result matches ReadAction::Load(path) && path@
                    == self.location(),
                ReadEvent::Loaded(Ok(content)) => result matches ReadAction::Finished(Ok(id))
                    && id@ == trimmed(content@),
                ReadEvent::Loaded(Err(error)) => result == ReadAction::Finished(Err(error)),
            },
            result.follows(event, self.location()),
    {
        match event {
            ReadEvent::Start => ReadAction::Load(self.path()),
            ReadEvent::Loaded(Ok(content)) => ReadAction::Finished(
                Ok(content.as_str().trim().to_owned()),
            ),
            ReadEvent::Loaded(Err(error)) => ReadAction::Finished(Err(error)),
        }
    }

    /// Writes `content` to the file, in such a way that the file never holds a part of it: the
    /// content goes to a file beside it, which takes its place once it is safely on the disk.
    /// Says what to do after `event`. The first operation that fails ends the writing.
    pub fn write(&self, content: &str, event: WriteEvent) -> (result: WriteAction)
        ensures
            match event.outcome() {
                Err(error) => result == WriteAction::Finished(Err(error)),
                Ok(_) => if event.tried() < write_ops(self.location(), content@).len() {
                    result.op() == Some(write_ops(self.location(), content@)[event.tried()])
                } else {
                    result == WriteAction::Finished(Ok(()))
                },
            },
            result.follows(event, self.location(), content@),
    {
        match event {
            WriteEvent::Start => WriteAction::Create(self.write_path()),
            WriteEvent::Created(Ok(_)) => WriteAction::Write(content.as_bytes_vec()),
            WriteEvent::Written(Ok(_)) => WriteAction::Sync,
            WriteEvent::Synced(Ok(_)) => WriteAction::Rename {
                from: self.write_path(),
                to: self.path(),
            },
            WriteEvent::Renamed(Ok(_)) => WriteAction::Finished(Ok(())),
            WriteEvent::Created(Err(error)) => WriteAction::Finished(Err(error)),
            WriteEvent::Written(Err(error)) => WriteAction::Finished(Err(error)),
            WriteEvent::Synced(Err(error)) => WriteAction::Finished(Err(error)),
            WriteEvent::Renamed(Err(error)) => WriteAction::Finished(Err(error)),
        }
    }

    /// Where new content is written before it takes the file's place.
    fn write_path(&self) -> (result: Vec<u8>)
        ensures
            result@ == tmp_path(self.location()),
    {
        let path = self.path();
        let mut name = decode_lossy(path.as_slice());
        name.append(TMP_SUFFIX);
        name.as_str().as_bytes_vec()
    }
}

/// What a disk holds: the content of the file under each path, and the path of the file that is
/// open for writing. Different paths are taken to lead to different files.
pub struct Disk {
    pub files: Map<Seq<u8>, Seq<u8>>,
    pub open: Seq<u8>,
}

impl Disk {
    /// The disk after an operation that succeeded.
    pub open spec fn after(self, op: FileOp) -> Disk {
        match op {
            FileOp::Create(path) => Disk {
                files: self.files.insert(path, Seq::empty()),
                open: path,
            },
            FileOp::Write(bytes) => Disk {
                files: self.files.insert(self.open, self.files[self.open] + bytes),
                ..self
            },
            FileOp::Sync => self,
            FileOp::Rename(from, to) => Disk {
                files: self.files.remove(from).insert(to, self.files[from]),
                ..self
            },
        }
    }

    /// The disk after operations that all succeeded, one after the other.
    pub open spec fn after_all(self, ops: Seq<FileOp>) -> Disk
        decreases ops.len(),
    {
        if ops.len() == 0 {
            self
        } else {
            self.after_all(ops.drop_last()).after(ops.last())
        }
    }

    /// Whether `after` can be the disk where writing to the file `path` has failed: every other
    /// file than the temporary one is as it was.
    pub open spec fn fails_to_write(self, path: Seq<u8>, after: Disk) -> bool {
        forall|other: Seq<u8>|
            other != tmp_path(path) ==> {
                &&& #[trigger] after.files.contains_key(other) == self.files.contains_key(other)
                &&& after.files.contains_key(other) ==> after.files[other] == self.files[other]
            }
    }

    /// The files after `content` was written to the file `path`.
    pub open spec fn written(self, path: Seq<u8>, content: Seq<char>) -> Map<Seq<u8>, Seq<u8>> {
        self.after_all(write_ops(path, content)).files
    }
}

/// New content never goes straight to the file that it is for.
pub proof fn law_tmp_path_apart(path: Seq<u8>)
    ensures
        tmp_path(path) != path,
{
    let text = lossy_text(path);
    encode_utf8_valid_utf8(text + TMP_SUFFIX@);
    if valid_utf8(path) {
        decode_utf8_encode_utf8(path);
        encode_utf8_decode_utf8(text);
        encode_utf8_decode_utf8(text + TMP_SUFFIX@);
        reveal_strlit(".tmp");
        assert((text + TMP_SUFFIX@).len() != text.len());
    }
}

/// The disk after each of the operations that write a file.
proof fn lemma_write_steps(disk: Disk, path: Seq<u8>, content: Seq<char>)
    ensures
        ({
            let ops = write_ops(path, content);
            let tmp = tmp_path(path);
            let bytes = encode_utf8(content);
            &&& disk.after_all(ops.take(0)).files == disk.files
            &&& disk.after_all(ops.take(1)).files == disk.files.insert(tmp, Seq::empty())
            &&& disk.after_all(ops.take(2)).files == disk.files.insert(tmp, bytes)
            &&& disk.after_all(ops.take(3)).files == disk.files.insert(tmp, bytes)
            &&& disk.after_all(ops.take(4)).files == disk.files.remove(tmp).insert(path, bytes)
            &&& ops.take(4) == ops
        }),
{
    let ops = write_ops(path, content);
    let tmp = tmp_path(path);
    let bytes = encode_utf8(content);
    assert(ops.take(4) =~= ops);
    assert(ops.take(4).drop_last() =~= ops.take(3));
    assert(ops.take(3).drop_last() =~= ops.take(2));
    assert(ops.take(2).drop_last() =~= ops.take(1));
    assert(ops.take(1).drop_last() =~= ops.take(0));
    let one = disk.after_all(ops.take(1));
    assert(disk.after_all(ops.take(0)) == disk);
    assert(one == disk.after(FileOp::Create(tmp)));
    let two = disk.after_all(ops.take(2));
    assert(two == one.after(FileOp::Write(bytes)));
    assert(Seq::<u8>::empty() + bytes =~= bytes);
    assert(two.files =~= disk.files.insert(tmp, bytes));
    let three = disk.after_all(ops.take(3));
    assert(three == two.after(FileOp::Sync));
    let four = disk.after_all(ops.take(4));
    assert(four == three.after(FileOp::Rename(tmp, path)));
    assert(four.files =~= disk.files.remove(tmp).insert(path, bytes));
}

/// Writing replaces the content of the file by all of the new content, and leaves every other
/// file as it is, but for the temporary one, which is gone.
pub proof fn law_write_replaces(disk: Disk, path: Seq<u8>, content: Seq<char>)
    ensures
        disk.written(path, content) == disk.files.remove(tmp_path(path)).insert(
            path,
            encode_utf8(content),
        ),
{
    lemma_write_steps(disk, path, content);
}

/// Wherever writing stops, the file holds what it held before or all of the new content: it is
/// as it was until the last operation has succeeded. Until then no other file than the temporary
/// one has changed.
pub proof fn law_write_is_atomic(disk: Disk, path: Seq<u8>, content: Seq<char>, done: int)
    requires
        0 <= done <= write_ops(path, content).len(),
    ensures
        ({
            let after = disk.after_all(write_ops(path, content).take(done));
            let files = after.files;
            if done < write_ops(path, content).len() {
                &&& disk.fails_to_write(path, after)
                &&& files.contains_key(path) == disk.files.contains_key(path)
                &&& files.contains_key(path) ==> files[path] == disk.files[path]
            } else {
                files.contains_key(path) && files[path] == encode_utf8(content)
            }
        }),
{
    lemma_write_steps(disk, path, content);
    law_tmp_path_apart(path);
    assert(done == 0 || done == 1 || done == 2 || done == 3 || done == 4);
}

/// Reading a file gives back what was written to it last, without the white space around it: any
/// text that the file's bytes encode is that content.
pub proof fn law_read_gives_back(disk: Disk, path: Seq<u8>, content: Seq<char>, loaded: Seq<char>)
    requires
        encode_utf8(loaded) == disk.written(path, content)[path],
    ensures
        trimmed(loaded) == trimmed(content),
{
    law_write_replaces(disk, path, content);
    encode_utf8_decode_utf8(loaded);
    encode_utf8_decode_utf8(content);
}

/// The previous tabs of different workspaces are kept under different paths, and none of them under
/// the path of the previous workspace. Left out are the name of that file as an id, and ids that
/// are absolute and themselves the path of another file.
pub proof fn law_state_files_apart(dir: Seq<u8>, first: Seq<char>, second: Seq<char>)
    requires
        first != second,
        first != PREVIOUS_WORKSPACE_FILE@,
        is_absolute(encode_utf8(first)) ==> encode_utf8(first) != tab_file(dir, second)
            && encode_utf8(first) != workspace_file(dir),
        is_absolute(encode_utf8(second)) ==> encode_utf8(second) != tab_file(dir, first),
    ensures
        tab_file(dir, first) != tab_file(dir, second),
        tab_file(dir, first) != workspace_file(dir),
{
    let name = PREVIOUS_WORKSPACE_FILE@;
    reveal_strlit("prev_workspace");
    lemma_relative(name);
    encode_utf8_decode_utf8(first);
    encode_utf8_decode_utf8(second);
    encode_utf8_decode_utf8(name);
    law_joined_apart(dir, encode_utf8(first), encode_utf8(second));
    law_joined_apart(dir, encode_utf8(first), encode_utf8(name));
}

/// Whether a workspace id is a name of its own: it is not absolute, not the name of the file of the
/// previous workspace, and not that of a temporary file.
pub open spec fn is_plain_id(id: Seq<char>) -> bool {
    &&& id.len() > 0 ==> id[0] != '/'
    &&& id != PREVIOUS_WORKSPACE_FILE@
    &&& !TMP_SUFFIX@.is_suffix_of(id)
}

/// The files of workspaces with plain ids, the file of the previous workspace and the temporary
/// files beside them are all under different paths.
pub proof fn law_plain_files_apart(dir: Seq<u8>, first: Seq<char>, second: Seq<char>)
    requires
        is_plain_id(first),
        is_plain_id(second),
    ensures
        first != second ==> tab_file(dir, first) != tab_file(dir, second),
        tab_file(dir, first) != workspace_file(dir),
        tmp_path(tab_file(dir, first)) != tab_file(dir, second),
        tmp_path(tab_file(dir, first)) != workspace_file(dir),
        tmp_path(workspace_file(dir)) != tab_file(dir, second),
{
    let name = PREVIOUS_WORKSPACE_FILE@;
    reveal_strlit("prev_workspace");
    reveal_strlit(".tmp");
    assert(name.last() != TMP_SUFFIX@.last());
    assert(!TMP_SUFFIX@.is_suffix_of(name));
    lemma_relative(first);
    lemma_relative(second);
    lemma_relative(name);
    if first != second {
        law_state_files_apart(dir, first, second);
    } else {
        law_state_files_apart(dir, first, name);
    }
    lemma_not_temporary(dir, second);
    lemma_not_temporary(dir, name);
    lemma_temporary(tab_file(dir, first));
    lemma_temporary(workspace_file(dir));
}

/// The bytes that the path of a temporary file ends in.
spec fn tmp_bytes() -> Seq<u8> {
    encode_utf8(TMP_SUFFIX@)
}

/// What the suffix of temporary files is made of.
proof fn lemma_tmp_bytes()
    ensures
        tmp_bytes() == seq![0x2eu8, 0x74, 0x6d, 0x70],
{
    reveal_strlit(".tmp");
    is_ascii_chars_encode_utf8(TMP_SUFFIX@);
    assert(tmp_bytes() =~= seq![0x2eu8, 0x74, 0x6d, 0x70]);
}

/// The encoding of two texts in a row is that of the first and then that of the second.
proof fn lemma_encode_concat(first: Seq<char>, second: Seq<char>)
    ensures
        encode_utf8(first + second) == encode_utf8(first) + encode_utf8(second),
    decreases first.len(),
{
    if first.len() == 0 {
        assert(first + second =~= second);
        assert(encode_utf8(first) + encode_utf8(second) =~= encode_utf8(second));
    } else {
        lemma_encode_concat(first.drop_first(), second);
        assert((first + second).drop_first() =~= first.drop_first() + second);
        assert(encode_utf8(first + second) =~= encode_utf8(first) + encode_utf8(second));
    }
}

/// The path of a temporary file ends in the suffix of such files.
proof fn lemma_temporary(path: Seq<u8>)
    ensures
        tmp_bytes().is_suffix_of(tmp_path(path)),
{
    lemma_encode_concat(lossy_text(path), TMP_SUFFIX@);
}

/// The path of a file whose name is relative and does not end in the suffix of temporary files does
/// not end in it either.
proof fn lemma_not_temporary(dir: Seq<u8>, name: Seq<char>)
    requires
        name.len() > 0 ==> name[0] != '/',
        !TMP_SUFFIX@.is_suffix_of(name),
    ensures
        !tmp_bytes().is_suffix_of(tab_file(dir, name)),
{
    let path = tab_file(dir, name);
    let bytes = encode_utf8(name);
    let suffix = tmp_bytes();
    lemma_tmp_bytes();
    lemma_relative(name);
    if suffix.is_suffix_of(path) {
        let start = path.len() - 4;
        let end = path.subrange(start, path.len() as int);
        if bytes.len() < 4 {
            let slash = path.len() - bytes.len() - 1;
            assert(path[slash] == 0x2f);
            assert(end[slash - start] == path[slash]);
        } else {
            let split = bytes.len() - 4;
            let last = bytes.subrange(split, bytes.len() as int);
            assert(last =~= end);
            assert(last[0] == bytes[split]);
            encode_utf8_valid_utf8(name);
            is_char_boundary_iff_not_is_continuation_byte(bytes, split);
            decode_utf8_split(bytes, split);
            encode_utf8_decode_utf8(name);
            encode_utf8_decode_utf8(TMP_SUFFIX@);
            let front = decode_utf8(bytes.subrange(0, split));
            assert(name == front + TMP_SUFFIX@);
            assert(TMP_SUFFIX@ =~= name.subrange(front.len() as int, name.len() as int));
        }
    }
}

/// The encoding of a text that does not start with a slash is not absolute.
proof fn lemma_relative(text: Seq<char>)
    requires
        text.len() > 0 ==> text[0] != '/',
    ensures
        !is_absolute(encode_utf8(text)),
{
    if text.len() > 0 {
        encode_utf8_first_scalar(text);
        let byte = encode_utf8(text)[0];
        if is_absolute(encode_utf8(text)) {
            assert(byte & 0x7f == 0x2f) by (bit_vector)
                requires
                    byte == 0x2f,
            ;
            char_u32_cast(text[0], '/' as u32);
            char_u32_cast('/', '/' as u32);
        }
    }
}

/// A file is written step by step: a temporary file is created, all of the content is written to it
/// and brought to the disk, and only then it is moved to the place of the file. The first step that
/// fails ends the writing with its error.
pub proof fn law_write_goes_step_by_step(
    action: WriteAction,
    event: WriteEvent,
    path: Seq<u8>,
    content: Seq<char>,
    failed: std::io::Error,
)
    requires
        action.follows(event, path, content),
    ensures
        event is Start ==> (action matches WriteAction::Create(created) && created@ == tmp_path(
            path,
        )),
        event matches WriteEvent::Created(Ok(_)) ==> (action matches WriteAction::Write(bytes)
            && bytes@ == encode_utf8(content)),
        event matches WriteEvent::Written(Ok(_)) ==> action is Sync,
        event matches WriteEvent::Synced(Ok(_)) ==> (action matches WriteAction::Rename { from, to }
            && from@ == tmp_path(path) && to@ == path),
        event matches WriteEvent::Renamed(Ok(_)) ==> (action matches WriteAction::Finished(Ok(_))),
        event == WriteEvent::Created(Err(failed)) || event == WriteEvent::Written(Err(failed))
            || event == WriteEvent::Synced(Err(failed)) || event == WriteEvent::Renamed(Err(failed))
            ==> (action matches WriteAction::Finished(Err(error)) && error == failed),
{
}

/// The content is on the disk before it takes the place of the file: between a write and a move
/// after it there is always a sync, and no write comes after a move.
pub proof fn law_content_is_synced_before_the_move(
    path: Seq<u8>,
    content: Seq<char>,
    write: int,
    rename: int,
)
    requires
        0 <= write < write_ops(path, content).len(),
        0 <= rename < write_ops(path, content).len(),
        write_ops(path, content)[write] is Write,
        write_ops(path, content)[rename] is Rename,
    ensures
        exists|sync: int|
            write < sync < rename && #[trigger] write_ops(path, content)[sync] == FileOp::Sync,
{
    let ops = write_ops(path, content);
    assert(ops[2] == FileOp::Sync);
}

/// The temporary file of a path is beside it: it is the path with ".tmp" after it. Where the path
/// is not text, that goes for the text that stands for it.
pub proof fn law_temporary_file_is_beside(path: Seq<u8>)
    ensures
        valid_utf8(path) ==> tmp_path(path) == path + seq![0x2eu8, 0x74, 0x6d, 0x70],
        tmp_path(path) == encode_utf8(lossy_text(path)) + seq![0x2eu8, 0x74, 0x6d, 0x70],
{
    lemma_encode_concat(lossy_text(path), TMP_SUFFIX@);
    lemma_tmp_bytes();
    if valid_utf8(path) {
        decode_utf8_encode_utf8(path);
    }
}

/// The file of a workspace has the name of the workspace, and the file of the previous workspace a
/// name of its own, both below the directory.
pub proof fn law_files_have_their_names<'a>(dir: &'a [u8], ws_id: &'a str)
    ensures
        (StateFile::PreviousTab { dir, ws_id }).location() == joined(dir@, encode_utf8(ws_id@)),
        (StateFile::PreviousWorkspace { dir }).location() == joined(
            dir@,
            encode_utf8("prev_workspace"@),
        ),
        tab_file(dir@, ws_id@) == joined(dir@, encode_utf8(ws_id@)),
        workspace_file(dir@) == joined(dir@, encode_utf8("prev_workspace"@)),
{
}

/// What is read is the content of the file, but for white space at its ends: the file itself is
/// loaded, an id that was written without such white space is given back as it was, and of any
/// other content what is left when the white space is gone. A failure is handed on.
pub proof fn law_read_gives_the_id(action: ReadAction, event: ReadEvent, path: Seq<u8>)
    requires
        action.follows(event, path),
    ensures
        event is Start ==> (action matches ReadAction::Load(loaded) && loaded@ == path),
        event matches ReadEvent::Loaded(Err(failed)) ==> (action matches ReadAction::Finished(
            Err(error),
        ) && error == failed),
        event matches ReadEvent::Loaded(Ok(content)) ==> (action matches ReadAction::Finished(
            Ok(id),
        ) && trimmed(content@) == id@ && (id@.len() > 0 ==> !is_white_space(id@[0])
            && !is_white_space(id@.last())) && (content@.len() > 0 && !is_white_space(content@[0])
            && !is_white_space(content@.last()) ==> id@ == content@)),
{
    if let ReadEvent::Loaded(Ok(content)) = event {
        law_trimmed_ends(content@);
        if content@.len() > 0 && !is_white_space(content@[0]) && !is_white_space(content@.last()) {
            law_trimmed_keeps(content@);
        }
    }
}

} // verus!
