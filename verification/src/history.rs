//! What is on the disk after tabs were focused, one after the other.

use crate::cli::{Jump, JumpAction, JumpEvent};
use crate::state_file::{is_plain_id, law_plain_files_apart, law_read_gives_back};
use crate::state_file::{law_tmp_path_apart, law_write_replaces, tab_file, tmp_path};
use crate::state_file::{workspace_file, write_ops, Disk, ReadAction, ReadEvent};
use crate::tabs::{Focus, FocusStep, TabsView};
use crate::text::{is_white_space, law_trimmed_keeps, trimmed};
use vstd::prelude::*;
use vstd::utf8::{encode_utf8, encode_utf8_decode_utf8};

verus! {

/// What is focused, and what the disk holds.
pub struct World {
    pub tabs: TabsView,
    pub disk: Disk,
}

impl World {
    /// The world after `content` was written to the file `path`.
    pub open spec fn saved(self, path: Seq<u8>, content: Seq<char>) -> World {
        World { disk: self.disk.after_all(write_ops(path, content)), ..self }
    }

    /// The world after a tab was focused and everything that had to be saved below `dir` was
    /// saved.
    pub open spec fn focused(self, dir: Seq<u8>, tab: Seq<char>, ws: Seq<char>) -> World {
        let (tabs, step) = self.tabs.on_focused(tab, ws);
        match step {
            FocusStep::SaveTab(previous) => World { tabs, ..self }.saved(
                tab_file(dir, ws),
                previous,
            ).tab_saved(dir, tab, ws),
            _ => self.tab_saved(dir, tab, ws),
        }
    }

    /// The world after the previous tab was dealt with.
    pub open spec fn tab_saved(self, dir: Seq<u8>, tab: Seq<char>, ws: Seq<char>) -> World {
        let (tabs, step) = self.tabs.on_tab_saved(tab, ws);
        match step {
            FocusStep::SaveWorkspace(previous) => World { tabs, ..self }.saved(
                workspace_file(dir),
                previous,
            ).workspace_saved(ws),
            _ => World { tabs, ..self },
        }
    }

    /// The world after the previous workspace was saved.
    pub open spec fn workspace_saved(self, ws: Seq<char>) -> World {
        World { tabs: self.tabs.on_workspace_saved(ws).0, ..self }
    }

    /// Whether the file `path` holds `id`: reading it gives `id` without the white space around
    /// it.
    pub open spec fn remembers(self, path: Seq<u8>, id: Seq<char>) -> bool {
        &&& self.disk.files.contains_key(path)
        &&& self.disk.files[path] == encode_utf8(id)
        &&& forall|loaded: Seq<char>|
            #[trigger] encode_utf8(loaded) == self.disk.files[path] ==> trimmed(loaded) == trimmed(
                id,
            )
    }
}

/// A file remembers what was saved to it.
proof fn lemma_saved_is_remembered(world: World, path: Seq<u8>, content: Seq<char>)
    ensures
        world.saved(path, content).remembers(path, content),
        world.saved(path, content).disk.files == world.disk.files.remove(tmp_path(path)).insert(
            path,
            encode_utf8(content),
        ),
{
    law_write_replaces(world.disk, path, content);
    let after = world.saved(path, content);
    assert forall|loaded: Seq<char>| #[trigger]
        encode_utf8(loaded) == after.disk.files[path] implies trimmed(loaded) == trimmed(
        content,
    ) by {
        law_read_gives_back(world.disk, path, content, loaded);
    }
}

/// An id with no white space at its ends is read back as it was focused.
pub proof fn law_remembered_id_is_read(
    world: World,
    path: Seq<u8>,
    id: Seq<char>,
    loaded: Seq<char>,
)
    requires
        world.remembers(path, id),
        id.len() > 0 ==> !is_white_space(id[0]) && !is_white_space(id.last()),
        encode_utf8(loaded) == world.disk.files[path],
    ensures
        trimmed(loaded) == id,
{
    law_trimmed_keeps(id);
}

/// A jump back goes to what is remembered: where the file of the jump remembers an id that is not
/// empty and has no white space at its ends, and is then loaded, Herdr is asked to focus just that.
pub proof fn law_jump_asks_for_remembered(
    world: World,
    jump: Jump,
    path: Seq<u8>,
    id: Seq<char>,
    loaded: String,
    reading: ReadAction,
    read: String,
    action: JumpAction,
)
    requires
        world.remembers(path, id),
        id.len() > 0 && !is_white_space(id[0]) && !is_white_space(id.last()),
        encode_utf8(loaded@) == world.disk.files[path],
        reading.follows(ReadEvent::Loaded(Ok(loaded)), path),
        reading == ReadAction::Finished(Ok(read)),
        action.follows(JumpEvent::Read(Ok(read)), jump),
    ensures
        action matches JumpAction::Ask(asked) && asked@ == id,
{
    law_remembered_id_is_read(world, path, id, loaded@);
}

/// A tab that was focused is the current one of its workspace, which is the current one, and the
/// tabs of the other workspaces stay as they are.
pub proof fn law_focus_is_noted(world: World, dir: Seq<u8>, tab: Seq<char>, ws: Seq<char>)
    ensures
        world.focused(dir, tab, ws).tabs.tabs == world.tabs.tabs.insert(ws, tab),
        world.focused(dir, tab, ws).tabs.workspace == Some(ws),
        world.leads_to(
            dir,
            Focus { tab, ws, tab_saved: true, ws_saved: true },
            world.focused(dir, tab, ws),
        ),
{
}

/// Focusing the current tab of the current workspace once more changes nothing, on the disk
/// neither.
pub proof fn law_refocus_changes_nothing(world: World, dir: Seq<u8>, tab: Seq<char>, ws: Seq<char>)
    requires
        world.tabs.tabs.contains_key(ws),
        world.tabs.tabs[ws] == tab,
        world.tabs.workspace == Some(ws),
    ensures
        world.focused(dir, tab, ws) == world,
{
    assert(world.tabs.tabs.insert(ws, tab) =~= world.tabs.tabs);
}

/// Jumping back toggles between two tabs. After one tab and then another one was focused in a
/// workspace, the first one is remembered. Once that one is focused again, the second one is.
pub proof fn law_jump_back_toggles(
    world: World,
    dir: Seq<u8>,
    first: Seq<char>,
    second: Seq<char>,
    ws: Seq<char>,
)
    requires
        first != second,
    ensures
        ({
            let there = world.focused(dir, first, ws).focused(dir, second, ws);
            let back = there.focused(dir, first, ws);
            &&& there.remembers(tab_file(dir, ws), first)
            &&& back.remembers(tab_file(dir, ws), second)
            &&& back.tabs == world.focused(dir, first, ws).tabs
        }),
{
    let start = world.focused(dir, first, ws);
    law_focus_is_noted(world, dir, first, ws);
    let there = start.focused(dir, second, ws);
    law_focus_is_noted(start, dir, second, ws);
    let back = there.focused(dir, first, ws);
    law_focus_is_noted(there, dir, first, ws);
    lemma_saved_is_remembered(start, tab_file(dir, ws), first);
    lemma_saved_is_remembered(there, tab_file(dir, ws), second);
    assert(there.disk == start.saved(tab_file(dir, ws), first).disk);
    assert(back.disk == there.saved(tab_file(dir, ws), second).disk);
    assert(back.tabs =~= start.tabs);
}

/// Jumping back toggles between two workspaces, whatever tabs are focused in them. After one
/// workspace and then another one was focused, the first one is remembered. Once that one is
/// focused again, the second one is.
pub proof fn law_workspace_jump_back_toggles(
    world: World,
    dir: Seq<u8>,
    tabs: (Seq<char>, Seq<char>, Seq<char>),
    first: Seq<char>,
    second: Seq<char>,
)
    requires
        first != second,
    ensures
        ({
            let there = world.focused(dir, tabs.0, first).focused(dir, tabs.1, second);
            let back = there.focused(dir, tabs.2, first);
            &&& there.remembers(workspace_file(dir), first)
            &&& back.remembers(workspace_file(dir), second)
        }),
{
    let start = world.focused(dir, tabs.0, first);
    law_focus_is_noted(world, dir, tabs.0, first);
    lemma_left_workspace_is_remembered(start, dir, tabs.1, second);
    let there = start.focused(dir, tabs.1, second);
    law_focus_is_noted(start, dir, tabs.1, second);
    lemma_left_workspace_is_remembered(there, dir, tabs.2, first);
}

/// The workspace that is left is remembered.
proof fn lemma_left_workspace_is_remembered(
    world: World,
    dir: Seq<u8>,
    tab: Seq<char>,
    ws: Seq<char>,
)
    requires
        world.tabs.workspace is Some,
        world.tabs.workspace != Some(ws),
    ensures
        world.focused(dir, tab, ws).remembers(workspace_file(dir), world.tabs.workspace->0),
{
    let left = world.tabs.workspace->0;
    let between = if world.tabs.on_focused(tab, ws).1 is SaveTab {
        world.saved(tab_file(dir, ws), world.tabs.tabs[ws])
    } else {
        world
    };
    let moved = World { tabs: between.tabs.on_tab_saved(tab, ws).0, ..between };
    lemma_saved_is_remembered(moved, workspace_file(dir), left);
    assert(world.focused(dir, tab, ws).disk == moved.saved(workspace_file(dir), left).disk);
}

/// Only what has to be saved is written. The file of the focused workspace and its temporary one
/// are touched only where another tab was focused in it, those of the previous workspace only where
/// another workspace was, and every other file stays as it is.
pub proof fn law_other_files_stay(
    world: World,
    dir: Seq<u8>,
    tab: Seq<char>,
    ws: Seq<char>,
    path: Seq<u8>,
)
    requires
        world.tabs.tabs.contains_key(ws) && world.tabs.tabs[ws] != tab ==> path != tab_file(dir, ws)
            && path != tmp_path(tab_file(dir, ws)),
        world.tabs.workspace is Some && world.tabs.workspace != Some(ws) ==> path
            != workspace_file(dir) && path != tmp_path(workspace_file(dir)),
    ensures
        ({
            let after = world.focused(dir, tab, ws).disk.files;
            &&& after.contains_key(path) == world.disk.files.contains_key(path)
            &&& after.contains_key(path) ==> after[path] == world.disk.files[path]
        }),
{
    let between = if world.tabs.on_focused(tab, ws).1 is SaveTab {
        lemma_saved_is_remembered(world, tab_file(dir, ws), world.tabs.tabs[ws]);
        world.saved(tab_file(dir, ws), world.tabs.tabs[ws])
    } else {
        world
    };
    if between.tabs.on_tab_saved(tab, ws).1 is SaveWorkspace {
        let left = world.tabs.workspace->0;
        let moved = World { tabs: between.tabs.on_tab_saved(tab, ws).0, ..between };
        lemma_saved_is_remembered(moved, workspace_file(dir), left);
    }
}

/// What could not be saved is asked for again: a failed save of the previous tab leaves
/// everything as it was, and after a failed save of the previous workspace, focusing the same tab
/// again asks for that save.
pub proof fn law_failed_save_is_repeated(tabs: TabsView, tab: Seq<char>, ws: Seq<char>)
    ensures
        tabs.on_focused(tab, ws).1 is SaveTab ==> tabs.on_focused(tab, ws).0 == tabs,
        ({
            let (moved, step) = tabs.on_tab_saved(tab, ws);
            step is SaveWorkspace ==> moved.on_focused(tab, ws) == (moved, step)
        }),
{
    let (moved, step) = tabs.on_tab_saved(tab, ws);
    if step is SaveWorkspace {
        assert(moved.tabs.insert(ws, tab) =~= moved.tabs);
        assert(moved.on_focused(tab, ws).0 =~= moved);
    }
}

impl World {
    /// The disk once the previous tab was saved below `dir`, where a focused tab asks for that.
    pub open spec fn tab_dealt_with(self, dir: Seq<u8>, tab: Seq<char>, ws: Seq<char>) -> Disk {
        match self.tabs.on_focused(tab, ws).1 {
            FocusStep::SaveTab(previous) => self.saved(tab_file(dir, ws), previous).disk,
            _ => self.disk,
        }
    }

    /// Whether the world can be `after` once a tab has been focused and dealt with, with state kept
    /// below `dir`. A save that failed may leave anything in a temporary file.
    pub open spec fn leads_to(self, dir: Seq<u8>, focus: Focus, after: World) -> bool {
        let saves_tab = self.tabs.on_focused(focus.tab, focus.ws).1;
        let saves_ws = self.tabs.on_tab_saved(focus.tab, focus.ws).1;
        let between = self.tab_dealt_with(dir, focus.tab, focus.ws);
        &&& after.tabs == self.tabs.noted(focus)
        &&& if saves_tab is SaveTab && !focus.tab_saved {
            self.disk.fails_to_write(tab_file(dir, focus.ws), after.disk)
        } else {
            match saves_ws {
                FocusStep::SaveWorkspace(previous) => if focus.ws_saved {
                    after.disk == between.after_all(write_ops(workspace_file(dir), previous))
                } else {
                    between.fails_to_write(workspace_file(dir), after.disk)
                },
                _ => after.disk == between,
            }
        }
    }

    /// Whether nothing is recorded below `dir`.
    pub open spec fn is_blank(self, dir: Seq<u8>) -> bool {
        &&& forall|ws: Seq<char>|
            is_plain_id(ws) ==> !self.disk.files.contains_key(#[trigger] tab_file(dir, ws))
        &&& !self.disk.files.contains_key(workspace_file(dir))
    }

    /// Whether what is recorded below `dir` as the previous tab or workspace is not the current
    /// one, and the current workspace has a current tab.
    pub open spec fn previous_is_not_current(self, dir: Seq<u8>) -> bool {
        &&& forall|ws: Seq<char>| is_plain_id(ws) ==> #[trigger] self.tab_is_not_current(dir, ws)
        &&& self.disk.files.contains_key(workspace_file(dir)) ==> {
            &&& self.tabs.workspace is Some
            &&& self.disk.files[workspace_file(dir)] != encode_utf8(self.tabs.workspace->0)
        }
        &&& self.tabs.workspace is Some ==> self.tabs.tabs.contains_key(self.tabs.workspace->0)
    }

    /// Whether a tab that is recorded below `dir` as the previous one of the workspace `ws` is not
    /// the current one.
    pub open spec fn tab_is_not_current(self, dir: Seq<u8>, ws: Seq<char>) -> bool {
        self.disk.files.contains_key(tab_file(dir, ws)) ==> {
            &&& self.tabs.tabs.contains_key(ws)
            &&& self.disk.files[tab_file(dir, ws)] != encode_utf8(self.tabs.tabs[ws])
        }
    }
}

/// Where everything that had to be saved could be, there is one world that a focused tab leads to.
pub proof fn law_saved_focus_is_exact(world: World, dir: Seq<u8>, focus: Focus, after: World)
    requires
        world.leads_to(dir, focus, after),
        focus.tab_saved,
        focus.ws_saved,
    ensures
        after == world.focused(dir, focus.tab, focus.ws),
{
}

/// Whether `worlds` are the worlds before and after each of the `focuses`, with state kept below
/// `dir`.
pub open spec fn is_history(worlds: Seq<World>, dir: Seq<u8>, focuses: Seq<Focus>) -> bool {
    &&& worlds.len() == focuses.len() + 1
    &&& forall|i: int, j: int|
        #![trigger worlds[i], worlds[j]]
        0 <= i && j == i + 1 && j < worlds.len() ==> worlds[i].leads_to(
            dir,
            focuses[i],
            worlds[j],
        )
}

/// However many tabs are focused from a blank start on, and whichever saves fail: what is recorded
/// as previous is never what is current.
pub proof fn law_previous_is_never_current(
    worlds: Seq<World>,
    dir: Seq<u8>,
    focuses: Seq<Focus>,
    position: int,
)
    requires
        is_history(worlds, dir, focuses),
        worlds[0].tabs == TabsView::empty(),
        worlds[0].is_blank(dir),
        forall|i: int| 0 <= i < focuses.len() ==> is_plain_id(#[trigger] focuses[i].ws),
        0 <= position < worlds.len(),
    ensures
        worlds[position].previous_is_not_current(dir),
    decreases position,
{
    if position > 0 {
        law_previous_is_never_current(worlds, dir, focuses, position - 1);
        assert(is_plain_id(focuses[position - 1].ws));
        lemma_focus_keeps_apart(
            worlds[position - 1],
            dir,
            focuses[position - 1],
            worlds[position],
        );
    }
}

/// Focusing a tab does not make what is recorded as previous the current one.
proof fn lemma_focus_keeps_apart(world: World, dir: Seq<u8>, focus: Focus, after: World)
    requires
        world.previous_is_not_current(dir),
        is_plain_id(focus.ws),
        world.leads_to(dir, focus, after),
    ensures
        after.previous_is_not_current(dir),
{
    let own = tab_file(dir, focus.ws);
    let shared = workspace_file(dir);
    let between = match world.tabs.on_focused(focus.tab, focus.ws).1 {
        FocusStep::SaveTab(previous) => world.saved(own, previous),
        _ => world,
    };
    if world.tabs.on_focused(focus.tab, focus.ws).1 is SaveTab {
        lemma_saved_is_remembered(world, own, world.tabs.tabs[focus.ws]);
        encode_utf8_decode_utf8(world.tabs.tabs[focus.ws]);
        encode_utf8_decode_utf8(focus.tab);
    }
    if world.tabs.workspace is Some {
        lemma_saved_is_remembered(between, shared, world.tabs.workspace->0);
        encode_utf8_decode_utf8(world.tabs.workspace->0);
        encode_utf8_decode_utf8(focus.ws);
    }
    law_plain_files_apart(dir, focus.ws, focus.ws);
    law_tmp_path_apart(shared);
    assert forall|ws: Seq<char>| is_plain_id(ws) implies #[trigger] after.tab_is_not_current(
        dir,
        ws,
    ) by {
        law_plain_files_apart(dir, focus.ws, ws);
        law_plain_files_apart(dir, ws, focus.ws);
        assert(world.tab_is_not_current(dir, ws));
    }
    assert(world.tab_is_not_current(dir, focus.ws));
}

/// A tab that is replaced is remembered for its own workspace, whichever workspace was focused and
/// however many are known: the file of the workspace holds just the tab that was the current one in
/// it. Left out are workspaces whose file is that of the previous workspace or its temporary one
/// where that is written too.
pub proof fn law_replaced_tab_is_remembered(
    world: World,
    dir: Seq<u8>,
    tab: Seq<char>,
    ws: Seq<char>,
)
    requires
        world.tabs.tabs.contains_key(ws),
        world.tabs.tabs[ws] != tab,
        world.tabs.workspace is Some && world.tabs.workspace != Some(ws) ==> tab_file(dir, ws)
            != workspace_file(dir) && tab_file(dir, ws) != tmp_path(workspace_file(dir)),
    ensures
        world.focused(dir, tab, ws).remembers(tab_file(dir, ws), world.tabs.tabs[ws]),
{
    let own = tab_file(dir, ws);
    let previous = world.tabs.tabs[ws];
    let between = world.saved(own, previous);
    lemma_saved_is_remembered(world, own, previous);
    if between.tabs.on_tab_saved(tab, ws).1 is SaveWorkspace {
        let left = world.tabs.workspace->0;
        let moved = World { tabs: between.tabs.on_tab_saved(tab, ws).0, ..between };
        lemma_saved_is_remembered(moved, workspace_file(dir), left);
        assert(world.focused(dir, tab, ws).disk == moved.saved(workspace_file(dir), left).disk);
    } else {
        assert(world.focused(dir, tab, ws).disk == between.disk);
    }
    let after = world.focused(dir, tab, ws);
    assert(after.disk.files.contains_key(own) && after.disk.files[own] == encode_utf8(previous));
    assert forall|loaded: Seq<char>| #[trigger]
        encode_utf8(loaded) == after.disk.files[own] implies trimmed(loaded) == trimmed(
        previous,
    ) by {
        encode_utf8_decode_utf8(loaded);
        encode_utf8_decode_utf8(previous);
    }
}

/// A workspace that is left for another one is remembered as the previous workspace.
pub proof fn law_left_workspace_is_remembered(
    world: World,
    dir: Seq<u8>,
    tab: Seq<char>,
    ws: Seq<char>,
    left: Seq<char>,
)
    requires
        world.tabs.workspace == Some(left),
        left != ws,
    ensures
        world.focused(dir, tab, ws).remembers(workspace_file(dir), left),
{
    lemma_left_workspace_is_remembered(world, dir, tab, ws);
}

impl World {
    /// The world after tabs were focused one after the other, each given with its workspace, and
    /// everything that had to be saved below `dir` was saved.
    pub open spec fn focused_all(self, dir: Seq<u8>, focuses: Seq<(Seq<char>, Seq<char>)>) -> World
        decreases focuses.len(),
    {
        if focuses.len() == 0 {
            self
        } else {
            let (tab, ws) = focuses.last();
            self.focused_all(dir, focuses.drop_last()).focused(dir, tab, ws)
        }
    }
}

/// The tab that was focused last in the workspace `ws`.
pub open spec fn last_tab(focuses: Seq<(Seq<char>, Seq<char>)>, ws: Seq<char>) -> Option<Seq<char>>
    decreases focuses.len(),
{
    if focuses.len() == 0 {
        None
    } else if focuses.last().1 == ws {
        Some(focuses.last().0)
    } else {
        last_tab(focuses.drop_last(), ws)
    }
}

/// The tab that was focused in the workspace `ws` before the one that was focused in it last.
pub open spec fn tab_before(focuses: Seq<(Seq<char>, Seq<char>)>, ws: Seq<char>) -> Option<
    Seq<char>,
>
    decreases focuses.len(),
{
    if focuses.len() == 0 {
        None
    } else {
        let earlier = focuses.drop_last();
        match last_tab(earlier, ws) {
            Some(tab) => if focuses.last().1 == ws && focuses.last().0 != tab {
                Some(tab)
            } else {
                tab_before(earlier, ws)
            },
            None => None,
        }
    }
}

/// The workspace that was focused before the one that was focused last.
pub open spec fn workspace_before(focuses: Seq<(Seq<char>, Seq<char>)>) -> Option<Seq<char>>
    decreases focuses.len(),
{
    if focuses.len() < 2 {
        None
    } else {
        let left = focuses[focuses.len() - 2].1;
        if focuses.last().1 != left {
            Some(left)
        } else {
            workspace_before(focuses.drop_last())
        }
    }
}

/// What the plugin is for: however tabs are focused one after the other in any number of
/// workspaces, from a blank start on, the current tab of each workspace is the one that was focused
/// in it last, and its file holds the one before that, if there was one. The current workspace is
/// the one that was focused last, and the file of the previous workspace holds the one before that,
/// if there was one. The ids of the workspaces are plain ones.
pub proof fn law_files_hold_what_was_before(
    world: World,
    dir: Seq<u8>,
    focuses: Seq<(Seq<char>, Seq<char>)>,
    ws: Seq<char>,
)
    requires
        world.tabs.tabs == Map::<Seq<char>, Seq<char>>::empty(),
        world.tabs.workspace is None,
        world.is_blank(dir),
        forall|i: int| 0 <= i < focuses.len() ==> is_plain_id(#[trigger] focuses[i].1),
        is_plain_id(ws),
    ensures
        ({
            let after = world.focused_all(dir, focuses);
            let own = tab_file(dir, ws);
            let shared = workspace_file(dir);
            &&& match last_tab(focuses, ws) {
                Some(tab) => after.tabs.tabs.contains_key(ws) && after.tabs.tabs[ws] == tab,
                None => !after.tabs.tabs.contains_key(ws),
            }
            &&& match tab_before(focuses, ws) {
                Some(tab) => {
                    &&& after.disk.files.contains_key(own)
                    &&& after.disk.files[own] == encode_utf8(tab)
                },
                None => !after.disk.files.contains_key(own),
            }
            &&& after.tabs.workspace == if focuses.len() > 0 {
                Some(focuses.last().1)
            } else {
                None
            }
            &&& match workspace_before(focuses) {
                Some(left) => {
                    &&& after.disk.files.contains_key(shared)
                    &&& after.disk.files[shared] == encode_utf8(left)
                },
                None => !after.disk.files.contains_key(shared),
            }
        }),
    decreases focuses.len(),
{
    if focuses.len() > 0 {
        let earlier = focuses.drop_last();
        let (tab, at) = focuses.last();
        assert(is_plain_id(focuses[focuses.len() - 1].1));
        assert forall|i: int| 0 <= i < earlier.len() implies is_plain_id(#[trigger] earlier[i].1) by {
            assert(is_plain_id(focuses[i].1));
        }
        law_files_hold_what_was_before(world, dir, earlier, ws);
        law_files_hold_what_was_before(world, dir, earlier, at);
        let before = world.focused_all(dir, earlier);
        let after = before.focused(dir, tab, at);
        law_focus_is_noted(before, dir, tab, at);
        law_plain_files_apart(dir, at, ws);
        law_plain_files_apart(dir, ws, at);
        law_tmp_path_apart(workspace_file(dir));
        law_tmp_path_apart(tab_file(dir, at));
        if before.tabs.tabs.contains_key(at) && before.tabs.tabs[at] != tab {
            law_replaced_tab_is_remembered(before, dir, tab, at);
        } else {
            law_other_files_stay(before, dir, tab, at, tab_file(dir, at));
        }
        if ws != at {
            law_other_files_stay(before, dir, tab, at, tab_file(dir, ws));
        }
        if before.tabs.workspace is Some && before.tabs.workspace != Some(at) {
            law_left_workspace_is_remembered(before, dir, tab, at, before.tabs.workspace->0);
        } else {
            law_other_files_stay(before, dir, tab, at, workspace_file(dir));
        }
        if earlier.len() > 0 {
            assert(earlier.last() == focuses[focuses.len() - 2]);
        }
    }
}

} // verus!
