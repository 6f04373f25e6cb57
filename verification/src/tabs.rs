//! Which tab is focused in each workspace, and which workspace is.

use crate::error::Error;
use crate::state_file::StateFile;
use crate::text::same_text;
use vstd::prelude::*;

verus! {

/// The tab that is focused in each workspace, and the workspace that is focused.
#[derive(Debug, Clone)]
pub struct CurrentTabs {
    /// Pairs of a workspace and its tab, no workspace twice.
    pub current_tabs: Vec<(String, String)>,
    pub current_workspace: Option<String>,
}

/// What `CurrentTabs` stands for.
#[verifier::ext_equal]
pub struct TabsView {
    pub tabs: Map<Seq<char>, Seq<char>>,
    pub workspace: Option<Seq<char>>,
}

/// What has happened while a focused tab is being taken note of.
pub enum FocusEvent {
    /// The tab was focused.
    Focused,
    /// The previous tab was saved, or could not be.
    TabSaved(Result<(), std::io::Error>),
    /// The previous workspace was saved, or could not be.
    WorkspaceSaved(Result<(), std::io::Error>),
}

/// What to do next to take note of a focused tab.
pub enum FocusAction<'a> {
    /// Write `content` to `file`, and report how that ended.
    Save { file: StateFile<'a>, content: String },
    /// Nothing: this is the result.
    Finished(Result<(), Error>),
}

/// The map of pairs of keys and values, where of two pairs with one key the first one counts.
pub open spec fn pairs_map(pairs: Seq<(String, String)>) -> Map<Seq<char>, Seq<char>>
    decreases pairs.len(),
{
    if pairs.len() == 0 {
        Map::empty()
    } else {
        pairs_map(pairs.drop_first()).insert(pairs[0].0@, pairs[0].1@)
    }
}

impl View for CurrentTabs {
    type V = TabsView;

    open spec fn view(&self) -> TabsView {
        TabsView {
            tabs: pairs_map(self.current_tabs@),
            workspace: match self.current_workspace {
                Some(workspace) => Some(workspace@),
                None => None,
            },
        }
    }
}

/// What a step of taking note of a focused tab asks for.
pub enum FocusStep {
    SaveTab(Seq<char>),
    SaveWorkspace(Seq<char>),
    Done,
}

/// A tab that is focused, and whether the previous tab and the previous workspace could be saved
/// where they had to be.
pub struct Focus {
    pub tab: Seq<char>,
    pub ws: Seq<char>,
    pub tab_saved: bool,
    pub ws_saved: bool,
}

impl TabsView {
    /// Nothing focused yet.
    pub open spec fn empty() -> TabsView {
        TabsView { tabs: Map::empty(), workspace: None }
    }

    /// A tab was focused: where another one was before it in the same workspace, that one has to
    /// be saved before anything changes.
    pub open spec fn on_focused(self, tab: Seq<char>, ws: Seq<char>) -> (TabsView, FocusStep) {
        if self.tabs.contains_key(ws) && self.tabs[ws] != tab {
            (self, FocusStep::SaveTab(self.tabs[ws]))
        } else {
            self.on_tab_saved(tab, ws)
        }
    }

    /// The previous tab is safe: the tab becomes the current one of its workspace. Where another
    /// workspace was focused before, that one has to be saved next.
    pub open spec fn on_tab_saved(self, tab: Seq<char>, ws: Seq<char>) -> (TabsView, FocusStep) {
        let moved = TabsView { tabs: self.tabs.insert(ws, tab), ..self };
        if self.workspace is Some && self.workspace != Some(ws) {
            (moved, FocusStep::SaveWorkspace(self.workspace->0))
        } else {
            moved.on_workspace_saved(ws)
        }
    }

    /// The previous workspace is safe: the workspace becomes the current one.
    pub open spec fn on_workspace_saved(self, ws: Seq<char>) -> (TabsView, FocusStep) {
        (TabsView { workspace: Some(ws), ..self }, FocusStep::Done)
    }

    /// What is focused once a focused tab has been dealt with.
    pub open spec fn noted(self, focus: Focus) -> TabsView {
        if self.on_focused(focus.tab, focus.ws).1 is SaveTab && !focus.tab_saved {
            self
        } else {
            let (moved, step) = self.on_tab_saved(focus.tab, focus.ws);
            if step is SaveWorkspace && focus.ws_saved {
                moved.on_workspace_saved(focus.ws).0
            } else {
                moved
            }
        }
    }

    /// What is focused once tabs that were focused one after the other have been dealt with.
    pub open spec fn noted_all(self, focuses: Seq<Focus>) -> TabsView
        decreases focuses.len(),
    {
        if focuses.len() == 0 {
            self
        } else {
            self.noted_all(focuses.drop_last()).noted(focuses.last())
        }
    }
}

impl<'a> FocusAction<'a> {
    /// Whether this is what `step` asks for, for a workspace `ws` with state below `dir`.
    pub open spec fn carries_out(self, step: FocusStep, ws: &'a str, dir: &'a [u8]) -> bool {
        match step {
            FocusStep::SaveTab(tab) => {
                &&& self matches FocusAction::Save { file, content }
                &&& file == (StateFile::PreviousTab { dir, ws_id: ws })
                &&& content@ == tab
            },
            FocusStep::SaveWorkspace(workspace) => {
                &&& self matches FocusAction::Save { file, content }
                &&& file == (StateFile::PreviousWorkspace { dir })
                &&& content@ == workspace
            },
            FocusStep::Done => self == FocusAction::<'a>::Finished(Ok(())),
        }
    }
}

impl Default for CurrentTabs {
    fn default() -> (result: Self)
        ensures
            result@ == TabsView::empty(),
            result.well_formed(),
    {
        CurrentTabs { current_tabs: Vec::new(), current_workspace: None }
    }
}

impl CurrentTabs {
    /// No workspace is there twice.
    pub open spec fn well_formed(self) -> bool {
        forall|i: int, j: int|
            0 <= i < j < self.current_tabs@.len() ==> self.current_tabs@[i].0@
                != self.current_tabs@[j].0@
    }

    /// Where the tab of a workspace is kept, or the number of workspaces.
    fn position(&self, workspace_id: &str) -> (result: usize)
        ensures
            result <= self.current_tabs@.len(),
            forall|i: int| 0 <= i < result ==> self.current_tabs@[i].0@ != workspace_id@,
            result < self.current_tabs@.len() ==> self.current_tabs@[result as int].0@
                == workspace_id@,
    {
        let mut i: usize = 0;
        while i < self.current_tabs.len()
            invariant
                i <= self.current_tabs@.len(),
                forall|j: int| 0 <= j < i ==> self.current_tabs@[j].0@ != workspace_id@,
            decreases self.current_tabs@.len() - i,
        {
            if same_text(self.current_tabs[i].0.as_str(), workspace_id) {
                return i;
            }
            i = i + 1;
        }
        i
    }

    /// The tab that is focused in a workspace.
    pub fn current_tab(&self, workspace_id: &str) -> (result: Option<&str>)
        ensures
            match result {
                Some(tab) => self@.tabs.contains_key(workspace_id@) && self@.tabs[workspace_id@]
                    == tab@,
                None => !self@.tabs.contains_key(workspace_id@),
            },
    {
        let i: usize = self.position(workspace_id);
        proof {
            lemma_pairs_map_lookup(self.current_tabs@, i as int, workspace_id@);
        }
        if i < self.current_tabs.len() {
            Some(self.current_tabs[i].1.as_str())
        } else {
            None
        }
    }

    /// Makes a tab the focused one of its workspace.
    fn set_tab(&mut self, workspace_id: &str, tab_id: &str)
        ensures
            final(self)@.tabs == old(self)@.tabs.insert(workspace_id@, tab_id@),
            final(self).current_workspace == old(self).current_workspace,
            old(self).well_formed() ==> final(self).well_formed(),
    {
        let i: usize = self.position(workspace_id);
        let pair = (workspace_id.to_owned(), tab_id.to_owned());
        proof {
            lemma_pairs_map_update(self.current_tabs@, i as int, pair);
        }
        if i < self.current_tabs.len() {
            self.current_tabs.set(i, pair);
        } else {
            self.current_tabs.push(pair);
        }
    }

    /// Takes note that a tab was focused, with state kept below `state_dir`. Says what to do
    /// after `event`: the tab, and then the workspace, that was focused before is saved first
    /// where it is another one. What could not be saved is not replaced.
    pub fn on_tab_focused<'a>(
        &mut self,
        tab_id: &str,
        workspace_id: &'a str,
        state_dir: &'a [u8],
        event: FocusEvent,
    ) -> (result: FocusAction<'a>)
        ensures
            old(self).well_formed() ==> final(self).well_formed(),
            match event {
                FocusEvent::Focused => {
                    let (tabs, step) = old(self)@.on_focused(tab_id@, workspace_id@);
                    final(self)@ == tabs && result.carries_out(step, workspace_id, state_dir)
                },
                FocusEvent::TabSaved(Ok(_)) => {
                    let (tabs, step) = old(self)@.on_tab_saved(tab_id@, workspace_id@);
                    final(self)@ == tabs && result.carries_out(step, workspace_id, state_dir)
                },
                FocusEvent::WorkspaceSaved(Ok(_)) => {
                    let (tabs, step) = old(self)@.on_workspace_saved(workspace_id@);
                    final(self)@ == tabs && result.carries_out(step, workspace_id, state_dir)
                },
                FocusEvent::TabSaved(Err(error)) => *final(self) == *old(self) && result
                    == FocusAction::<'a>::Finished(Err(Error::Io(error))),
                FocusEvent::WorkspaceSaved(Err(error)) => *final(self) == *old(self) && result
                    == FocusAction::<'a>::Finished(Err(Error::Io(error))),
            },
    {
        match event {
            FocusEvent::Focused => {
                let previous: Option<String> = match self.current_tab(workspace_id) {
                    Some(tab) => if same_text(tab, tab_id) {
                        None
                    } else {
                        Some(tab.to_owned())
                    },
                    None => None,
                };
                match previous {
                    Some(content) => FocusAction::Save {
                        file: StateFile::PreviousTab { dir: state_dir, ws_id: workspace_id },
                        content,
                    },
                    None => self.move_to_tab(tab_id, workspace_id, state_dir),
                }
            },
            FocusEvent::TabSaved(Ok(_)) => self.move_to_tab(tab_id, workspace_id, state_dir),
            FocusEvent::WorkspaceSaved(Ok(_)) => {
                self.current_workspace = Some(workspace_id.to_owned());
                FocusAction::Finished(Ok(()))
            },
            FocusEvent::TabSaved(Err(error)) => FocusAction::Finished(Err(Error::from(error))),
            FocusEvent::WorkspaceSaved(Err(error)) => FocusAction::Finished(
                Err(Error::from(error)),
            ),
        }
    }

    /// Makes the tab the current one, and the workspace too where no other one has to be saved
    /// before.
    fn move_to_tab<'a>(
        &mut self,
        tab_id: &str,
        workspace_id: &'a str,
        state_dir: &'a [u8],
    ) -> (result: FocusAction<'a>)
        ensures
            old(self).well_formed() ==> final(self).well_formed(),
            final(self)@ == old(self)@.on_tab_saved(tab_id@, workspace_id@).0,
            result.carries_out(
                old(self)@.on_tab_saved(tab_id@, workspace_id@).1,
                workspace_id,
                state_dir,
            ),
    {
        self.set_tab(workspace_id, tab_id);
        let previous: Option<String> = match &self.current_workspace {
            Some(workspace) => if same_text(workspace.as_str(), workspace_id) {
                None
            } else {
                Some(workspace.clone())
            },
            None => None,
        };
        match previous {
            Some(content) => FocusAction::Save {
                file: StateFile::PreviousWorkspace { dir: state_dir },
                content,
            },
            None => {
                self.current_workspace = Some(workspace_id.to_owned());
                FocusAction::Finished(Ok(()))
            },
        }
    }
}

/// The first pair with a key is the one that counts.
proof fn lemma_pairs_map_lookup(pairs: Seq<(String, String)>, position: int, key: Seq<char>)
    requires
        0 <= position <= pairs.len(),
        forall|i: int| 0 <= i < position ==> pairs[i].0@ != key,
        position < pairs.len() ==> pairs[position].0@ == key,
    ensures
        pairs_map(pairs).contains_key(key) == (position < pairs.len()),
        position < pairs.len() ==> pairs_map(pairs)[key] == pairs[position].1@,
    decreases pairs.len(),
{
    if pairs.len() > 0 && position > 0 {
        let rest = pairs.drop_first();
        assert forall|i: int| 0 <= i < position - 1 implies rest[i].0@ != key by {
            assert(rest[i] == pairs[i + 1]);
        }
        lemma_pairs_map_lookup(rest, position - 1, key);
        assert(pairs[0].0@ != key);
    }
}

/// Putting a pair in the place of the first one with its key, or at the end where there is none,
/// is an insertion into the map.
proof fn lemma_pairs_map_update(
    pairs: Seq<(String, String)>,
    position: int,
    pair: (String, String),
)
    requires
        0 <= position <= pairs.len(),
        forall|i: int| 0 <= i < position ==> pairs[i].0@ != pair.0@,
        position < pairs.len() ==> pairs[position].0@ == pair.0@,
    ensures
        position < pairs.len() ==> pairs_map(pairs.update(position, pair)) == pairs_map(
            pairs,
        ).insert(pair.0@, pair.1@),
        position == pairs.len() ==> pairs_map(pairs.push(pair)) == pairs_map(pairs).insert(
            pair.0@,
            pair.1@,
        ),
    decreases pairs.len(),
{
    let after = if position < pairs.len() {
        pairs.update(position, pair)
    } else {
        pairs.push(pair)
    };
    let target = pairs_map(pairs).insert(pair.0@, pair.1@);
    if pairs.len() == 0 {
        assert(after.drop_first() =~= pairs);
        assert(after[0] == pair);
        assert(pairs_map(after) =~= target);
    } else if position == 0 {
        assert(after.drop_first() =~= pairs.drop_first());
        assert(pairs_map(after) =~= target);
    } else {
        let rest = pairs.drop_first();
        assert forall|i: int| 0 <= i < position - 1 implies rest[i].0@ != pair.0@ by {
            assert(rest[i] == pairs[i + 1]);
        }
        lemma_pairs_map_update(rest, position - 1, pair);
        if position < pairs.len() {
            assert(after.drop_first() =~= rest.update(position - 1, pair));
        } else {
            assert(after.drop_first() =~= rest.push(pair));
        }
        assert(pairs[0].0@ != pair.0@);
        assert(after[0] == pairs[0]);
        assert(pairs_map(after) =~= target);
    }
}

/// Whichever workspace is focused, and whatever is known of others: a tab that replaces another one
/// in its workspace has that other one, and nothing else, saved for that workspace first. Nothing
/// changes before that.
pub proof fn law_replaced_tab_is_saved(tabs: TabsView, tab: Seq<char>, ws: Seq<char>)
    requires
        tabs.tabs.contains_key(ws),
        tabs.tabs[ws] != tab,
    ensures
        tabs.on_focused(tab, ws) == (tabs, FocusStep::SaveTab(tabs.tabs[ws])),
{
}

/// A tab that replaces none in its workspace has no tab saved: it becomes the current one of its
/// workspace at once, and the tabs of other workspaces stay. The workspace that is left, if any, is
/// saved.
pub proof fn law_first_tab_saves_no_tab(tabs: TabsView, tab: Seq<char>, ws: Seq<char>)
    requires
        tabs.tabs.contains_key(ws) ==> tabs.tabs[ws] == tab,
    ensures
        match tabs.workspace {
            Some(left) => if left != ws {
                tabs.on_focused(tab, ws).1 == FocusStep::SaveWorkspace(left)
                    && tabs.on_focused(tab, ws).0.workspace == Some(left)
            } else {
                tabs.on_focused(tab, ws).1 == FocusStep::Done
                    && tabs.on_focused(tab, ws).0.workspace == Some(ws)
            },
            None => tabs.on_focused(tab, ws).1 == FocusStep::Done
                && tabs.on_focused(tab, ws).0.workspace == Some(ws),
        },
        tabs.on_focused(tab, ws).0.tabs == tabs.tabs.insert(ws, tab),
{
}

/// Once the previous tab of its workspace is dealt with, a tab is the current one there, whatever
/// else is to be saved, and the tabs of other workspaces stay. The workspace that is left is saved
/// next, and stays the current one until then. Where none is left, the workspace is the current one
/// at once.
pub proof fn law_left_workspace_is_saved(tabs: TabsView, tab: Seq<char>, ws: Seq<char>)
    ensures
        ({
            let (after, step) = tabs.on_tab_saved(tab, ws);
            &&& after.tabs == tabs.tabs.insert(ws, tab)
            &&& match tabs.workspace {
                Some(left) => if left != ws {
                    step == FocusStep::SaveWorkspace(left) && after.workspace == Some(left)
                } else {
                    step == FocusStep::Done && after.workspace == Some(ws)
                },
                None => step == FocusStep::Done && after.workspace == Some(ws),
            }
        }),
{
}

/// Once the workspace that was left is saved, the focused one is the current one, the tabs stay,
/// and nothing more is to be done.
pub proof fn law_saved_workspace_is_replaced(tabs: TabsView, ws: Seq<char>)
    ensures
        tabs.on_workspace_saved(ws).0.workspace == Some(ws),
        tabs.on_workspace_saved(ws).0.tabs == tabs.tabs,
        tabs.on_workspace_saved(ws).1 == FocusStep::Done,
{
}

/// A tab is written to the file of the workspace that it was the current one of, a workspace to the
/// file of the previous workspace, both below the given directory. Where nothing is to be saved,
/// the focused tab has been taken note of.
pub proof fn law_saves_go_to_their_files<'a>(
    action: FocusAction<'a>,
    step: FocusStep,
    ws: &'a str,
    dir: &'a [u8],
)
    requires
        action.carries_out(step, ws, dir),
    ensures
        match step {
            FocusStep::SaveTab(tab) => {
                &&& action matches FocusAction::Save {
                    file: StateFile::PreviousTab { dir: below, ws_id },
                    content,
                }
                &&& below@ == dir@ && ws_id@ == ws@ && content@ == tab
            },
            FocusStep::SaveWorkspace(workspace) => {
                &&& action matches FocusAction::Save {
                    file: StateFile::PreviousWorkspace { dir: below },
                    content,
                }
                &&& below@ == dir@ && content@ == workspace
            },
            FocusStep::Done => action matches FocusAction::Finished(Ok(_)),
        },
{
}

/// Where no workspace is there twice, the view has just the pairs: a tab is that of a workspace
/// exactly where the two are a pair. The focused workspace is the one that is kept.
pub proof fn law_view_has_the_pairs(tabs: CurrentTabs, ws: Seq<char>, tab: Seq<char>)
    requires
        tabs.well_formed(),
    ensures
        (tabs@.tabs.contains_key(ws) && tabs@.tabs[ws] == tab) <==> exists|i: int|
            0 <= i < tabs.current_tabs@.len() && (#[trigger] tabs.current_tabs@[i]).0@ == ws
                && tabs.current_tabs@[i].1@ == tab,
        tabs@.workspace is Some <==> tabs.current_workspace is Some,
        tabs.current_workspace matches Some(workspace) ==> tabs@.workspace == Some(workspace@),
{
    let pairs = tabs.current_tabs@;
    if exists|i: int| 0 <= i < pairs.len() && (#[trigger] pairs[i]).0@ == ws {
        let i = choose|i: int| 0 <= i < pairs.len() && (#[trigger] pairs[i]).0@ == ws;
        lemma_pairs_map_lookup(pairs, i, ws);
    } else {
        lemma_pairs_map_lookup(pairs, pairs.len() as int, ws);
    }
}

} // verus!
