//! What a session with Herdr leaves on the disk.

use crate::history::{is_history, law_jump_back_toggles, law_previous_is_never_current};
use crate::history::{law_saved_focus_is_exact, law_workspace_jump_back_toggles, World};
use crate::state_file::{is_plain_id, tab_file, workspace_file, write_ops, Disk};
use crate::subscriber::{announced, focuses_since, is_session, is_stretch, Moment};
use crate::subscriber::{Saving, SessionAction, SessionEvent};
use crate::tabs::{Focus, FocusStep};
use vstd::prelude::*;

verus! {

/// Whether a disk can go from `before` to `after` between the moment `moment` of a session and the
/// moment `later` right after it, with state kept below `dir`: what is to be saved is written to
/// the file of its note, and nothing else is written.
pub open spec fn is_recorded(
    dir: Seq<u8>,
    moment: Moment,
    later: Moment,
    before: Disk,
    after: Disk,
) -> bool {
    match (moment.action, later.event) {
        (SessionAction::Save { note, content }, SessionEvent::Saved { outcome: Ok(_), .. }) => after
            == before.after_all(write_ops(note.location(dir), content@)),
        (SessionAction::Save { note, .. }, SessionEvent::Saved { outcome: Err(_), .. }) =>
            before.fails_to_write(note.location(dir), after),
        _ => after == before,
    }
}

/// Whether `disks` are what the disk holds at each of the `moments`, with state kept below `dir`.
pub open spec fn is_recording(moments: Seq<Moment>, dir: Seq<u8>, disks: Seq<Disk>) -> bool {
    &&& is_stretch(moments)
    &&& disks.len() == moments.len()
    &&& forall|i: int, j: int|
        #![trigger moments[i], moments[j]]
        0 <= i && j == i + 1 && j < moments.len() ==> is_recorded(
            dir,
            moments[i],
            moments[j],
            disks[i],
            disks[j],
        )
}

/// What is focused and what the disk holds at a moment.
pub open spec fn world_at(moment: Moment, disk: Disk) -> World {
    World { tabs: moment.tabs, disk }
}

/// Over any stretch of a session, what is focused and what the disk holds go through the tabs that
/// the lines say are focused, one after the other, and through nothing else: `worlds` are those
/// before and after each of them.
pub proof fn law_lines_make_history(
    moments: Seq<Moment>,
    dir: Seq<u8>,
    disks: Seq<Disk>,
) -> (worlds: Seq<World>)
    requires
        is_recording(moments, dir, disks),
        !(moments[0].action is Save),
        !(moments.last().action is Save),
    ensures
        is_history(worlds, dir, focuses_since(moments)),
        worlds[0] == world_at(moments[0], disks[0]),
        worlds.last() == world_at(moments.last(), disks.last()),
{
    lemma_lines_make_history(moments, dir, disks)
}

/// In a session that starts with nothing recorded, what is recorded as previous is not what is
/// current, whenever nothing is being saved, as long as the ids of the workspaces are plain.
pub proof fn law_session_records_previous(moments: Seq<Moment>, dir: Seq<u8>, disks: Seq<Disk>)
    requires
        is_session(moments),
        is_recording(moments, dir, disks),
        world_at(moments[0], disks[0]).is_blank(dir),
        forall|i: int|
            0 <= i < focuses_since(moments).len() ==> is_plain_id(
                #[trigger] focuses_since(moments)[i].ws,
            ),
        !(moments.last().action is Save),
    ensures
        world_at(moments.last(), disks.last()).previous_is_not_current(dir),
{
    let worlds = law_lines_make_history(moments, dir, disks);
    let focuses = focuses_since(moments);
    law_previous_is_never_current(worlds, dir, focuses, focuses.len() as int);
}

/// A session remembers what was left: after two different tabs were focused in a row in one
/// workspace, the first of them is on the disk as its previous tab, and after tabs of two different
/// workspaces, the first of those is there as the previous workspace.
pub proof fn law_session_remembers_left(moments: Seq<Moment>, dir: Seq<u8>, disks: Seq<Disk>)
    requires
        is_recording(moments, dir, disks),
        !(moments[0].action is Save),
        !(moments.last().action is Save),
        focuses_since(moments).len() >= 2,
        forall|i: int|
            focuses_since(moments).len() - 2 <= i < focuses_since(moments).len() ==> {
                let focus = #[trigger] focuses_since(moments)[i];
                focus.tab_saved && focus.ws_saved
            },
    ensures
        ({
            let focuses = focuses_since(moments);
            let first = focuses[focuses.len() - 2];
            let second = focuses.last();
            let now = world_at(moments.last(), disks.last());
            &&& first.ws == second.ws && first.tab != second.tab ==> now.remembers(
                tab_file(dir, first.ws),
                first.tab,
            )
            &&& first.ws != second.ws ==> now.remembers(workspace_file(dir), first.ws)
        }),
{
    let worlds = law_lines_make_history(moments, dir, disks);
    let focuses = focuses_since(moments);
    let n = focuses.len() as int;
    let first = focuses[n - 2];
    let second = focuses[n - 1];
    assert(worlds[n - 2].leads_to(dir, first, worlds[n - 1]));
    assert(worlds[n - 1].leads_to(dir, second, worlds[n]));
    law_saved_focus_is_exact(worlds[n - 2], dir, first, worlds[n - 1]);
    law_saved_focus_is_exact(worlds[n - 1], dir, second, worlds[n]);
    if first.ws == second.ws && first.tab != second.tab {
        law_jump_back_toggles(worlds[n - 2], dir, first.tab, second.tab, first.ws);
    } else if first.ws != second.ws {
        law_workspace_jump_back_toggles(
            worlds[n - 2],
            dir,
            (first.tab, second.tab, first.tab),
            first.ws,
            second.ws,
        );
    }
}

/// The worlds up to the tab that was focused last, also while something is being saved for it.
proof fn lemma_lines_make_history(moments: Seq<Moment>, dir: Seq<u8>, disks: Seq<Disk>) -> (worlds:
    Seq<World>)
    requires
        is_recording(moments, dir, disks),
        !(moments[0].action is Save),
    ensures
        worlds.len() > 0,
        worlds[0] == world_at(moments[0], disks[0]),
        ({
            let focuses = focuses_since(moments);
            let now = world_at(moments.last(), disks.last());
            match moments.last().action {
                SessionAction::Save { note, content } => {
                    let (tab, ws) = (note.tab_id@, note.workspace_id@);
                    let base = worlds.last();
                    let between = base.tab_dealt_with(dir, tab, ws);
                    &&& focuses.len() > 0
                    &&& focuses.last() == (Focus { tab, ws, tab_saved: true, ws_saved: true })
                    &&& is_history(worlds, dir, focuses.drop_last())
                    &&& match note.saving {
                        Saving::Tab => {
                            &&& now == base
                            &&& base.tabs.on_focused(tab, ws).1 == FocusStep::SaveTab(content@)
                        },
                        Saving::Workspace => {
                            let (moved, step) = base.tabs.on_tab_saved(tab, ws);
                            &&& now.tabs == moved
                            &&& now.disk == between
                            &&& step == FocusStep::SaveWorkspace(content@)
                        },
                    }
                },
                _ => is_history(worlds, dir, focuses) && worlds.last() == now,
            }
        }),
    decreases moments.len(),
{
    if moments.len() == 1 {
        seq![world_at(moments[0], disks[0])]
    } else {
        let earlier = moments.drop_last();
        let held = disks.drop_last();
        assert forall|i: int, j: int|
            #![trigger earlier[i], earlier[j]]
            0 <= i && j == i + 1 && j < earlier.len() implies earlier[i].continues_with(earlier[j])
            && is_recorded(dir, earlier[i], earlier[j], held[i], held[j]) by {
            assert(moments[i].continues_with(moments[j]));
        }
        let past = lemma_lines_make_history(earlier, dir, held);
        let n = moments.len() - 1;
        assert(moments[n - 1].continues_with(moments[n]));
        assert(is_recorded(dir, moments[n - 1], moments[n], disks[n - 1], disks[n]));
        let now = world_at(moments.last(), disks.last());
        let known = focuses_since(earlier);
        let focuses = focuses_since(moments);
        let event = moments.last().event;
        if announced(event) is Some {
            assert(focuses.drop_last() =~= known);
        } else if event is Saved {
            assert(focuses.drop_last() =~= known.drop_last());
            assert(known.drop_last().push(known.last()) =~= known);
        }
        if moments.last().action is Save || focuses.len() + 1 == past.len() {
            past
        } else {
            assert(past.last().leads_to(dir, focuses.last(), now));
            lemma_history_grows(past, dir, focuses.drop_last(), focuses.last(), now);
            assert(focuses.drop_last().push(focuses.last()) =~= focuses);
            past.push(now)
        }
    }
}

/// A history goes on with one more focused tab.
proof fn lemma_history_grows(
    worlds: Seq<World>,
    dir: Seq<u8>,
    focuses: Seq<Focus>,
    focus: Focus,
    after: World,
)
    requires
        is_history(worlds, dir, focuses),
        worlds.last().leads_to(dir, focus, after),
    ensures
        is_history(worlds.push(after), dir, focuses.push(focus)),
{
    let longer = worlds.push(after);
    assert forall|i: int, j: int|
        #![trigger longer[i], longer[j]]
        0 <= i && j == i + 1 && j < longer.len() implies longer[i].leads_to(
        dir,
        focuses.push(focus)[i],
        longer[j],
    ) by {
        if j < worlds.len() {
            assert(worlds[i].leads_to(dir, focuses[i], worlds[j]));
        }
    }
}

} // verus!
