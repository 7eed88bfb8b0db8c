//! Which task each click and each key comes to.
use vstd::prelude::*;
use vstd::string::*;

use crate::app::selection::{
    context_of, moved, needle_of, row_at, row_at_is_first, selected_row, shown_rows, walkable,
    SelectionView,
};
use crate::app::{commands_of, Command, GroveApp, Keys};
use crate::model::{
    project_at_is_first, worktree_at_is_first, ProjectView, SessionPresence, WorktreeView,
};
use crate::state::{agent_of, number_of, AgentRecord};
use crate::text::{contains, lower, trimmed};
use crate::ui::orphans::OrphanAction;
use crate::ui::Action;
use crate::workers::{EffectView, TaskView};

verus! {

/// The first project of that id stands at `i`.
pub open spec fn project_stands(app: GroveApp, id: Seq<char>, i: int) -> bool {
    let projects = app.rows.view_projects();
    &&& 0 <= i < projects.len()
    &&& projects[i].id == id
    &&& forall|k: int| 0 <= k < i ==> (#[trigger] projects[k]).id != id
}

/// The first project of the one id stands at `i`, and its first worktree of the
/// other at `j`.
pub open spec fn row_stands(
    app: GroveApp,
    project_id: Seq<char>,
    worktree_id: Seq<char>,
    i: int,
    j: int,
) -> bool {
    let projects = app.rows.view_projects();
    &&& project_stands(app, project_id, i)
    &&& 0 <= j < projects[i].worktrees.len()
    &&& projects[i].worktrees[j].id == worktree_id
    &&& forall|k: int| 0 <= k < j ==> (#[trigger] projects[i].worktrees[k]).id != worktree_id
}

proof fn lemma_project_stands(app: GroveApp, id: Seq<char>, i: int)
    requires
        project_stands(app, id, i),
    ensures
        app.project(id) == Some(app.rows.view_projects()[i]),
{
    project_at_is_first(app.rows.view_projects(), id);
}

proof fn lemma_row_stands(
    app: GroveApp,
    project_id: Seq<char>,
    worktree_id: Seq<char>,
    i: int,
    j: int,
)
    requires
        row_stands(app, project_id, worktree_id, i, j),
    ensures
        app.project(project_id) == Some(app.rows.view_projects()[i]),
        app.row(project_id, worktree_id) == Some(app.rows.view_projects()[i].worktrees[j]),
{
    lemma_project_stands(app, project_id, i);
    worktree_at_is_first(app.rows.view_projects()[i].worktrees, worktree_id);
}

/// Nothing is to be done but this one task.
pub open spec fn only_sends(effects: Seq<EffectView>, task: TaskView) -> bool {
    effects.len() == 1 && effects[0] == EffectView::Send(task)
}

/// The session is to be opened and then nothing but this: to look whether attention
/// was raised for its worktree.
pub open spec fn opens(effects: Seq<EffectView>, task: TaskView, worktree_id: Seq<char>) -> bool {
    &&& effects.len() == 2
    &&& effects[0] == EffectView::Send(task)
    &&& effects[1] == EffectView::Opened(worktree_id)
}

/// Everything but what is selected stays as it was, and the worktree is selected.
pub open spec fn only_selects(app: GroveApp, after: GroveApp, worktree_id: Seq<char>) -> bool {
    &&& after == (GroveApp { selection: after.selection, status: after.status, ..app })
    &&& crate::model::text_view(after.status) == crate::model::text_view(app.status)
    &&& after.selection@.worktree == Some(worktree_id)
    &&& after.selection@.filter == app.selection@.filter
}

/// What is asked of a listed row is done to that row, each in its own way: opening
/// it, a terminal beside it, a new window, one of its windows, an agent. The row is
/// selected, and a window only where one was asked for or was selected already.
pub proof fn each_action_on_a_row_has_its_own_task(
    app: GroveApp,
    action: Action,
    after: GroveApp,
    effects: Seq<EffectView>,
    project_id: String,
    worktree_id: String,
    i: int,
    j: int,
)
    requires
        app.acted(action, after, effects),
        row_stands(app, project_id@, worktree_id@, i, j),
    ensures
        action == (Action::ActivateWorktree { project_id, worktree_id }) ==> opens(
            effects,
            TaskView::Activate { worktree_id: worktree_id@ },
            worktree_id@,
        ) && only_selects(app, after, worktree_id@),
        action == (Action::OpenInNewTerminal { project_id, worktree_id }) ==> only_sends(
            effects,
            TaskView::OpenInNewTerminal { worktree_id: worktree_id@ },
        ) && only_selects(app, after, worktree_id@),
        action == (Action::OpenNewWindow { project_id, worktree_id }) ==> only_sends(
            effects,
            TaskView::OpenNewWindow { worktree_id: worktree_id@ },
        ) && only_selects(app, after, worktree_id@),
        action == (Action::StartAgent { project_id, worktree_id }) ==> only_sends(
            effects,
            TaskView::StartAgent { worktree_id: worktree_id@, resume: None },
        ) && only_selects(app, after, worktree_id@),
        forall|window_index: u32|
            action == (#[trigger] window_action(project_id, worktree_id, window_index)) ==> opens(
                effects,
                TaskView::ActivateWindow { worktree_id: worktree_id@, window_index },
                worktree_id@,
            ) && only_selects(app, after, worktree_id@) && after.selection@.window == Some(
                (worktree_id@, window_index),
            ),
        action == (Action::SelectWorktree { project_id, worktree_id }) ==> effects.len() == 0
            && only_selects(app, after, worktree_id@),
{
    lemma_row_stands(app, project_id@, worktree_id@, i, j);
}

/// The action that opens one window of a worktree.
pub open spec fn window_action(
    project_id: String,
    worktree_id: String,
    window_index: u32,
) -> Action {
    Action::ActivateWindow { project_id, worktree_id, window_index }
}

/// What is asked of a listed project is done to that project: folding it turns its
/// fold over, reading it again reads it again, and locating it asks where it lives
/// now. Taking a project out of the list asks for that alone.
pub proof fn each_action_on_a_project_has_its_own_task(
    app: GroveApp,
    action: Action,
    after: GroveApp,
    effects: Seq<EffectView>,
    id: String,
    i: int,
)
    requires
        app.acted(action, after, effects),
        project_stands(app, id@, i),
    ensures
        action == Action::ToggleProject(id) ==> after == app && only_sends(
            effects,
            TaskView::SetProjectExpanded {
                project_id: id@,
                expanded: !app.rows.view_projects()[i].is_expanded,
            },
        ),
        action == Action::RefreshProject(id) ==> after == app && only_sends(
            effects,
            TaskView::RefreshProject { project_id: id@ },
        ),
        action == Action::RemoveProject(id) ==> after == app && only_sends(
            effects,
            TaskView::RemoveProject { project_id: id@ },
        ),
        action == Action::LocateProject(id) ==> effects.len() == 0 && after.open_project.form is Some
            && after.open_project.form->0.path@ == app.rows.view_projects()[i].repository_path
            && after.open_project.focus && after.rows == app.rows,
{
    lemma_project_stands(app, id@, i);
}

proof fn lemma_agent_first(agents: Seq<AgentRecord>, worktree_id: Seq<char>)
    ensures
        match agent_of(agents, worktree_id) {
            Some(record) => exists|k: int|
                0 <= k < agents.len() && (#[trigger] agents[k]) == record && record.worktree_id@
                    == worktree_id && forall|m: int|
                    0 <= m < k ==> (#[trigger] agents[m]).worktree_id@ != worktree_id,
            None => forall|k: int|
                0 <= k < agents.len() ==> (#[trigger] agents[k]).worktree_id@ != worktree_id,
        },
    decreases agents.len(),
{
    if agents.len() > 0 {
        let init = agents.drop_last();
        lemma_agent_first(init, worktree_id);
        assert forall|k: int| 0 <= k < init.len() implies init[k] == #[trigger] agents[k] by {}
        assert(agents[agents.len() - 1] == agents.last());
        match agent_of(init, worktree_id) {
            Some(record) => {
                let k = choose|k: int|
                    0 <= k < init.len() && (#[trigger] init[k]) == record && record.worktree_id@
                        == worktree_id && forall|m: int|
                        0 <= m < k ==> (#[trigger] init[m]).worktree_id@ != worktree_id;
                assert(agents[k] == record);
                assert forall|m: int| 0 <= m < k implies (#[trigger] agents[m]).worktree_id@
                    != worktree_id by {
                    assert(init[m].worktree_id@ != worktree_id);
                }
            },
            None => {
                assert forall|m: int| 0 <= m < init.len() implies (#[trigger] agents[m]).worktree_id@
                    != worktree_id by {
                    assert(init[m].worktree_id@ != worktree_id);
                }
            },
        }
    }
}

/// An agent is resumed in the conversation its first record names, and its
/// transcript is the one that record names; without a record, or one that names
/// neither, nothing is done and the status line says so.
pub proof fn an_agent_is_resumed_in_its_conversation(
    app: GroveApp,
    action: Action,
    after: GroveApp,
    effects: Seq<EffectView>,
    project_id: String,
    worktree_id: String,
    i: int,
    j: int,
    k: int,
)
    requires
        app.acted(action, after, effects),
        row_stands(app, project_id@, worktree_id@, i, j),
        0 <= k <= app.rows.state.agents@.len(),
        forall|m: int|
            0 <= m < k ==> (#[trigger] app.rows.state.agents@[m]).worktree_id@ != worktree_id@,
        k < app.rows.state.agents@.len() ==> app.rows.state.agents@[k].worktree_id@
            == worktree_id@,
    ensures
        action == (Action::ResumeAgent { project_id, worktree_id }) ==> {
            let recorded = k < app.rows.state.agents@.len()
                && app.rows.state.agents@[k].session_id@.len() > 0;
            &&& recorded ==> only_selects(app, after, worktree_id@) && only_sends(
                effects,
                TaskView::StartAgent {
                    worktree_id: worktree_id@,
                    resume: Some(app.rows.state.agents@[k].session_id@),
                },
            )
            &&& !recorded ==> effects.len() == 0 && after.status is Some && after.status->0@
                == "No agent conversation has been reported for this worktree."@
        },
        action == (Action::OpenAgentTranscript { worktree_id }) ==> {
            let recorded = k < app.rows.state.agents@.len()
                && app.rows.state.agents@[k].transcript_path@.len() > 0;
            &&& recorded ==> after == app && only_sends(
                effects,
                TaskView::OpenWithDesktop { path: app.rows.state.agents@[k].transcript_path@ },
            )
            &&& !recorded ==> effects.len() == 0 && after.status is Some && after.status->0@
                == "No transcript has been reported for this worktree."@
        },
{
    lemma_row_stands(app, project_id@, worktree_id@, i, j);
    let agents = app.rows.state.agents@;
    lemma_agent_first(agents, worktree_id@);
    if let Some(record) = agent_of(agents, worktree_id@) {
        let m = choose|m: int|
            0 <= m < agents.len() && (#[trigger] agents[m]) == record && record.worktree_id@
                == worktree_id@ && forall|n: int|
                0 <= n < m ==> (#[trigger] agents[n]).worktree_id@ != worktree_id@;
        assert(m == k) by {
            if m < k {
                assert(agents[m].worktree_id@ != worktree_id@);
            }
            if k < m {
                assert(agents[k].worktree_id@ != worktree_id@);
            }
        }
    } else if k < agents.len() {
        assert(agents[k].worktree_id@ != worktree_id@);
    }
}

proof fn lemma_number_first(slots: Seq<(u8, String)>, worktree_id: Seq<char>)
    ensures
        match number_of(slots, worktree_id) {
            Some(number) => exists|k: int|
                0 <= k < slots.len() && (#[trigger] slots[k]).1@ == worktree_id && slots[k].0
                    == number && forall|m: int|
                    0 <= m < k ==> (#[trigger] slots[m]).1@ != worktree_id,
            None => forall|k: int| 0 <= k < slots.len() ==> (#[trigger] slots[k]).1@ != worktree_id,
        },
    decreases slots.len(),
{
    if slots.len() > 0 {
        let init = slots.drop_last();
        lemma_number_first(init, worktree_id);
        assert forall|k: int| 0 <= k < init.len() implies init[k] == #[trigger] slots[k] by {}
        assert(slots[slots.len() - 1] == slots.last());
        match number_of(init, worktree_id) {
            Some(number) => {
                let k = choose|k: int|
                    0 <= k < init.len() && (#[trigger] init[k]).1@ == worktree_id && init[k].0
                        == number && forall|m: int|
                        0 <= m < k ==> (#[trigger] init[m]).1@ != worktree_id;
                assert(slots[k].1@ == worktree_id);
                assert forall|m: int| 0 <= m < k implies (#[trigger] slots[m]).1@ != worktree_id by {
                    assert(init[m].1@ != worktree_id);
                }
            },
            None => {
                assert forall|m: int| 0 <= m < init.len() implies (#[trigger] slots[m]).1@
                    != worktree_id by {
                    assert(init[m].1@ != worktree_id);
                }
            },
        }
    }
}

/// The number a worktree carries is that of its first assignment, and a worktree
/// that was given none carries none.
pub proof fn a_worktree_carries_its_first_number(
    slots: Seq<(u8, String)>,
    worktree_id: Seq<char>,
    k: int,
)
    requires
        0 <= k <= slots.len(),
        forall|m: int| 0 <= m < k ==> (#[trigger] slots[m]).1@ != worktree_id,
        k < slots.len() ==> slots[k].1@ == worktree_id,
    ensures
        k < slots.len() ==> number_of(slots, worktree_id) == Some(slots[k].0),
        k == slots.len() ==> number_of(slots, worktree_id) is None,
{
    lemma_number_first(slots, worktree_id);
    if let Some(number) = number_of(slots, worktree_id) {
        let m = choose|m: int|
            0 <= m < slots.len() && (#[trigger] slots[m]).1@ == worktree_id && slots[m].0 == number
                && forall|n: int| 0 <= n < m ==> (#[trigger] slots[n]).1@ != worktree_id;
        if m < k {
            assert(slots[m].1@ != worktree_id);
        }
        if k < m {
            assert(slots[k].1@ != worktree_id);
        }
    } else if k < slots.len() {
        assert(slots[k].1@ != worktree_id);
    }
}

/// A number between one and nine is given to the worktree, and taken off where it is
/// the one it carries; taking the number off does so where there is one, and no
/// other number is ever given.
pub proof fn numbers_are_given_and_taken_off(
    app: GroveApp,
    worktree_id: String,
    slot: Option<u8>,
    after: GroveApp,
    effects: Seq<EffectView>,
    k: int,
)
    requires
        app.acted(Action::SetWorktreeSlot { worktree_id, slot }, after, effects),
        0 <= k <= app.rows.state.slots@.len(),
        forall|m: int|
            0 <= m < k ==> (#[trigger] app.rows.state.slots@[m]).1@ != worktree_id@,
        k < app.rows.state.slots@.len() ==> app.rows.state.slots@[k].1@ == worktree_id@,
    ensures
        after == app,
        ({
            let carries = k < app.rows.state.slots@.len();
            match slot {
                None => {
                    &&& carries ==> only_sends(
                        effects,
                        TaskView::ClearSlot { worktree_id: worktree_id@ },
                    )
                    &&& !carries ==> effects.len() == 0
                },
                Some(n) => {
                    &&& carries && app.rows.state.slots@[k].0 == n ==> only_sends(
                        effects,
                        TaskView::ClearSlot { worktree_id: worktree_id@ },
                    )
                    &&& !(carries && app.rows.state.slots@[k].0 == n) && 1 <= n <= 9 ==> only_sends(
                        effects,
                        TaskView::AssignSlot { number: n, worktree_id: worktree_id@ },
                    )
                    &&& !(carries && app.rows.state.slots@[k].0 == n) && !(1 <= n <= 9)
                        ==> effects.len() == 0
                },
            }
        }),
{
    a_worktree_carries_its_first_number(app.rows.state.slots@, worktree_id@, k);
}

/// Each choice about an orphaned session does what it says to that session: opens
/// it, gives it to a listed worktree, stops reporting it, or reports all again.
pub proof fn each_choice_about_an_orphan_has_its_own_task(
    app: GroveApp,
    action: OrphanAction,
    after: GroveApp,
    effects: Seq<EffectView>,
    session: String,
    project_id: String,
    worktree_id: String,
    i: int,
    j: int,
)
    requires
        app.orphan_acted(action, after, effects),
        row_stands(app, project_id@, worktree_id@, i, j),
    ensures
        action == OrphanAction::Open(session) ==> after == app && only_sends(
            effects,
            TaskView::OpenSession { session: session@ },
        ),
        action == (OrphanAction::Associate { session, project_id, worktree_id }) ==> after == app
            && only_sends(
            effects,
            TaskView::AssociateSession { worktree_id: worktree_id@, session: session@ },
        ),
        action == OrphanAction::Ignore(session) ==> after == app && only_sends(
            effects,
            TaskView::IgnoreSession { session: session@ },
        ),
        action == OrphanAction::ShowIgnored ==> after == app && only_sends(
            effects,
            TaskView::ClearIgnoredSessions,
        ),
        action == OrphanAction::Close(session) && app.orphan_armed is Some
            && app.orphan_armed->0@ == session@ ==> only_sends(
            effects,
            TaskView::CloseOrphan { session: session@ },
        ),
        action == OrphanAction::Close(session) && !(app.orphan_armed is Some
            && app.orphan_armed->0@ == session@) ==> effects.len() == 0 && after.orphan_armed
            == Some(session),
{
    lemma_row_stands(app, project_id@, worktree_id@, i, j);
}

/// A toggle without a number closes the window. With one it raises the window first,
/// and then opens the row the number points at; a number that points at none opens
/// nothing and the status line says so.
pub proof fn a_toggle_closes_or_opens(
    app: GroveApp,
    after: GroveApp,
    effects: Seq<EffectView>,
    slot: Option<u8>,
)
    requires
        app.toggled(after, effects, slot),
    ensures
        slot is None ==> after == app && effects.len() == 1 && effects[0] == EffectView::Close,
        slot matches Some(n) ==> {
            &&& effects.len() >= 1
            &&& effects[0] == EffectView::Focus
            &&& app.rows.target(n) is None ==> effects.len() == 1 && after.selection@
                == app.selection@ && after.status is Some
        },
{
    if let Some(n) = slot {
        if app.rows.target(n) is None {
            assert(effects.drop_first().len() == effects.len() - 1);
        }
    }
}

/// A number that points at a listed row opens that row: the window comes up, the
/// session is opened, and nothing else is done.
pub proof fn a_numbered_row_is_opened(
    app: GroveApp,
    after: GroveApp,
    effects: Seq<EffectView>,
    slot: u8,
    project_id: Seq<char>,
    worktree_id: Seq<char>,
    i: int,
    j: int,
)
    requires
        app.toggled(after, effects, Some(slot)),
        app.rows.target(slot) == Some((project_id, worktree_id)),
        row_stands(app, project_id, worktree_id, i, j),
    ensures
        effects.len() == 3,
        effects[0] == EffectView::Focus,
        effects[1] == EffectView::Send(TaskView::Activate { worktree_id }),
        effects[2] == EffectView::Opened(worktree_id),
        after.selection@.worktree == Some(worktree_id),
{
    lemma_row_stands(app, project_id, worktree_id, i, j);
    let rest = effects.drop_first();
    assert(rest.len() == effects.len() - 1);
    assert(rest[0] == effects[1]);
    assert(rest[1] == effects[2]);
}

/// Every key asks for its own command, and a command is asked for only by its key;
/// closing asks for nothing else, and an open removal dialog lets only that through.
pub proof fn each_key_asks_for_its_own_command(keys: Keys, removal_open: bool)
    ensures
        keys.close ==> commands_of(keys, removal_open).len() == 1 && commands_of(
            keys,
            removal_open,
        )[0] == Command::Close,
        !keys.close && removal_open ==> commands_of(keys, removal_open).len() == 0,
        !keys.close && !removal_open ==> {
            let commands = commands_of(keys, removal_open);
            &&& commands.contains(Command::MoveDown) <==> keys.down
            &&& commands.contains(Command::MoveUp) <==> keys.up
            &&& commands.contains(Command::Open) <==> keys.enter
            &&& commands.contains(Command::Remove) <==> keys.delete
            &&& commands.contains(Command::New) <==> keys.new
            &&& commands.contains(Command::Restore) <==> keys.refresh
            &&& !commands.contains(Command::Close)
            &&& forall|digit: u8| #[trigger]
                commands.contains(Command::Number(digit)) <==> keys.digit == Some(digit)
        },
{
    if !keys.close && !removal_open {
        lemma_asked_for(keys, Command::MoveDown);
        lemma_asked_for(keys, Command::MoveUp);
        lemma_asked_for(keys, Command::Open);
        lemma_asked_for(keys, Command::Remove);
        lemma_asked_for(keys, Command::New);
        lemma_asked_for(keys, Command::Restore);
        lemma_asked_for(keys, Command::Close);
        assert forall|digit: u8| #[trigger]
            commands_of(keys, removal_open).contains(Command::Number(digit)) <==> keys.digit
                == Some(digit) by {
            lemma_asked_for(keys, Command::Number(digit));
        }
    }
}

proof fn lemma_joined_has(a: Seq<Command>, b: Seq<Command>, x: Command)
    ensures
        (a + b).contains(x) <==> a.contains(x) || b.contains(x),
{
    if a.contains(x) {
        let k = choose|k: int| 0 <= k < a.len() && a[k] == x;
        assert((a + b)[k] == x);
    }
    if b.contains(x) {
        let k = choose|k: int| 0 <= k < b.len() && b[k] == x;
        assert((a + b)[a.len() + k] == x);
    }
    if (a + b).contains(x) {
        let k = choose|k: int| 0 <= k < (a + b).len() && (a + b)[k] == x;
        if k < a.len() {
            assert(a[k] == x);
        } else {
            assert(b[k - a.len()] == x);
        }
    }
}

proof fn lemma_when_has(pressed: bool, command: Command, x: Command)
    ensures
        crate::app::when(pressed, command).contains(x) <==> pressed && x == command,
{
    if pressed {
        assert(crate::app::when(pressed, command)[0] == command);
    }
}

proof fn lemma_asked_for(keys: Keys, x: Command)
    requires
        !keys.close,
    ensures
        commands_of(keys, false).contains(x) <==> {
            ||| keys.down && x == Command::MoveDown
            ||| keys.up && x == Command::MoveUp
            ||| keys.enter && x == Command::Open
            ||| keys.delete && x == Command::Remove
            ||| keys.new && x == Command::New
            ||| keys.refresh && x == Command::Restore
            ||| keys.digit is Some && x == Command::Number(keys.digit->0)
        },
{
    let down = crate::app::when(keys.down, Command::MoveDown);
    let up = crate::app::when(keys.up, Command::MoveUp);
    let enter = crate::app::when(keys.enter, Command::Open);
    let delete = crate::app::when(keys.delete, Command::Remove);
    let new = crate::app::when(keys.new, Command::New);
    let refresh = crate::app::when(keys.refresh, Command::Restore);
    let digit = match keys.digit {
        Some(digit) => seq![Command::Number(digit)],
        None => Seq::empty(),
    };
    lemma_when_has(keys.down, Command::MoveDown, x);
    lemma_when_has(keys.up, Command::MoveUp, x);
    lemma_when_has(keys.enter, Command::Open, x);
    lemma_when_has(keys.delete, Command::Remove, x);
    lemma_when_has(keys.new, Command::New, x);
    lemma_when_has(keys.refresh, Command::Restore, x);
    lemma_joined_has(down, up, x);
    lemma_joined_has(down + up, enter, x);
    lemma_joined_has(down + up + enter, delete, x);
    lemma_joined_has(down + up + enter + delete, new, x);
    lemma_joined_has(down + up + enter + delete + new, refresh, x);
    lemma_joined_has(down + up + enter + delete + new + refresh, digit, x);
    if let Some(d) = keys.digit {
        assert(digit[0] == Command::Number(d));
    }
}

/// Each command of the keyboard does what it says to the selected row: enter opens
/// it, delete asks before anything is removed, and the others act on no row.
pub proof fn each_command_has_its_own_task(
    app: GroveApp,
    command: Command,
    after: GroveApp,
    effects: Seq<EffectView>,
    project_id: Seq<char>,
    worktree_id: Seq<char>,
    i: int,
    j: int,
)
    requires
        app.commanded(command, after, effects),
        selected_row(app.selection@, app.rows.view_projects()) == Some((project_id, worktree_id)),
        row_stands(app, project_id, worktree_id, i, j),
    ensures
        command == Command::Close ==> after == app && effects.len() == 1 && effects[0]
            == EffectView::Close,
        command == Command::Open ==> opens(
            effects,
            TaskView::Activate { worktree_id },
            worktree_id,
        ) && only_selects(app, after, worktree_id),
        command == Command::Remove ==> after.removal.form is Some
            && after.removal.form->0.worktree_id@ == worktree_id && after.removal.focus
            && after.rows == app.rows,
        command == Command::New ==> after.create.form is Some && after.create.form->0.project_id@
            == project_id && after.create.focus,
        command == Command::Restore ==> effects.len() == 1 && effects[0] is Reconcile,
        command == Command::MoveDown || command == Command::MoveUp ==> effects.len() == 0,
{
    lemma_row_stands(app, project_id, worktree_id, i, j);
}

/// A pass is asked for over every project that is listed, in order, each by its id,
/// its name and its places.
pub proof fn a_pass_is_asked_for_over_every_project(
    app: GroveApp,
    after: GroveApp,
    effects: Seq<EffectView>,
    i: int,
)
    requires
        app.reconciling(after, effects),
        0 <= i < app.rows.view_projects().len(),
    ensures
        effects.len() == 1,
        effects[0] matches EffectView::Reconcile(refs) && {
            let project = app.rows.view_projects()[i];
            &&& refs.len() == app.rows.view_projects().len()
            &&& refs[i].id == project.id
            &&& refs[i].name == project.name
            &&& refs[i].repository_path == project.repository_path
            &&& refs[i].git_common_dir == project.git_common_dir
        },
{
}

/// The dialog to remove a worktree is opened on the row as it stands: with its
/// session where there is one, with nothing confirmed, and its assessment is asked
/// for. A dialog already open on the worktree is raised and keeps its state.
pub proof fn the_removal_dialog_is_opened_on_its_row(
    app: GroveApp,
    after: GroveApp,
    effects: Seq<EffectView>,
    project_id: Seq<char>,
    worktree_id: Seq<char>,
    i: int,
    j: int,
)
    requires
        app.removal_opened(after, effects, project_id, worktree_id),
        row_stands(app, project_id, worktree_id, i, j),
    ensures
        after.removal.focus,
        after.removal.form is Some,
        after.rows == app.rows,
        ({
            let open = app.removal.form is Some && app.removal.form->0.worktree_id@ == worktree_id;
            let form = after.removal.form->0;
            let project = app.rows.view_projects()[i];
            let worktree = project.worktrees[j];
            &&& open ==> after.removal.form == app.removal.form && effects.len() == 0
            &&& !open ==> {
                &&& only_sends(effects, TaskView::GatherRemoval { worktree_id })
                &&& form.project_id@ == project.id
                &&& form.worktree_id@ == worktree.id
                &&& form.worktree_path@ == worktree.path
                &&& form.branch is Some <==> worktree.branch is Some
                &&& form.branch is Some ==> form.branch->0@ == worktree.branch->0
                &&& form.session is Some <==> worktree.session != SessionPresence::Absent
                &&& form.session is Some ==> form.session->0@ == "wt-"@ + worktree_id
                &&& form.report is None
                &&& form.armed is None
                &&& !form.force_worktree_offered
                &&& !form.force_branch_offered
            }
        }),
{
    lemma_row_stands(app, project_id, worktree_id, i, j);
}

/// The dialog to make a worktree is opened empty for its project, and its branches
/// are asked for; one already open for the project is raised with what was typed.
pub proof fn the_create_dialog_is_opened_on_its_project(
    app: GroveApp,
    after: GroveApp,
    effects: Seq<EffectView>,
    project_id: Seq<char>,
    i: int,
)
    requires
        app.create_opened(after, effects, project_id),
        project_stands(app, project_id, i),
    ensures
        after.create.focus,
        after.create.form is Some,
        ({
            let open = app.create.form is Some && app.create.form->0.project_id@ == project_id;
            let form = after.create.form->0;
            let project = app.rows.view_projects()[i];
            &&& open ==> after.create.form == app.create.form && effects.len() == 0
            &&& !open ==> {
                &&& only_sends(effects, TaskView::LoadBaseRefs { project_id })
                &&& form.project_id@ == project.id
                &&& form.default_parent@ == project.default_worktree_path
                &&& form.create_branch
                &&& form.open_after
                &&& form.branch@.len() == 0 && form.base_ref@.len() == 0 && form.path@.len() == 0
                &&& !form.path_edited
            }
        }),
{
    lemma_project_stands(app, project_id, i);
}

/// Selecting a worktree selects it, keeps a highlighted window only where it is one
/// of that worktree's, and leaves the filter.
pub proof fn selecting_moves_the_selection(selection: SelectionView, id: Seq<char>)
    ensures
        selection.selecting(id).worktree == Some(id),
        selection.selecting(id).filter == selection.filter,
        selection.window matches Some(w) ==> (selection.selecting(id).window == Some(w) <==> w.0
            == id) && (w.0 != id ==> selection.selecting(id).window is None),
        selection.window is None ==> selection.selecting(id).window is None,
{
}

/// The arrow keys walk the rows one by one: down goes to the row behind the selected
/// one and up to the row before it, down stays on the last and up on the first.
/// Where no row that can be walked is selected, down starts at the first row and up
/// at the last.
pub proof fn arrows_walk_row_by_row(selection: SelectionView, projects: Seq<ProjectView>, i: int)
    requires
        walkable(projects, needle_of(selection.filter)).len() > 0,
        ({
            let rows = walkable(projects, needle_of(selection.filter));
            &&& 0 <= i <= rows.len()
            &&& i < rows.len() ==> selection.worktree == Some(rows[i].1)
            &&& i == rows.len() ==> forall|k: int|
                0 <= k < rows.len() ==> selection.worktree != Some((#[trigger] rows[k]).1)
            &&& forall|k: int| 0 <= k < i ==> selection.worktree != Some((#[trigger] rows[k]).1)
        }),
    ensures
        ({
            let rows = walkable(projects, needle_of(selection.filter));
            let down = moved(selection, projects, 1).worktree;
            let up = moved(selection, projects, -1).worktree;
            &&& i < rows.len() - 1 ==> down == Some(rows[i + 1].1)
            &&& i == rows.len() - 1 ==> down == Some(rows[i].1)
            &&& i == rows.len() ==> down == Some(rows[0].1) && up == Some(
                rows[rows.len() - 1].1,
            )
            &&& 0 < i < rows.len() ==> up == Some(rows[i - 1].1)
            &&& i == 0 ==> up == Some(rows[0].1)
            &&& moved(selection, projects, 1).filter == selection.filter
        }),
{
    let rows = walkable(projects, needle_of(selection.filter));
    if let Some(id) = selection.worktree {
        row_at_is_first(rows, id);
        if i < rows.len() {
            assert(row_at(rows, id) == Some(i)) by {
                let at = row_at(rows, id)->0;
                if at < i {
                    assert(selection.worktree != Some(rows[at].1));
                }
                if row_at(rows, id) is None {
                    assert(rows[i].1 != id);
                }
            }
        } else {
            assert(row_at(rows, id) is None) by {
                if let Some(at) = row_at(rows, id) {
                    assert(selection.worktree != Some(rows[at].1));
                }
            }
        }
    }
}

/// The row is found by what is searched for: nothing is, or it stands in the name of
/// its project, in its label or in its path, in capitals or not.
pub open spec fn is_found(project: ProjectView, w: WorktreeView, needle: Seq<char>) -> bool {
    ||| needle.len() == 0
    ||| exists|at: int|
        0 <= at && at + needle.len() <= project.name.len() && #[trigger] lower(
            project.name,
        ).subrange(at, at + needle.len()) == needle
    ||| exists|at: int|
        0 <= at && at + needle.len() <= w.label.len() && #[trigger] lower(w.label).subrange(
            at,
            at + needle.len(),
        ) == needle
    ||| exists|at: int|
        0 <= at && at + needle.len() <= w.path.len() && #[trigger] lower(w.path).subrange(
            at,
            at + needle.len(),
        ) == needle
}

proof fn lemma_contains(hay: Seq<char>, needle: Seq<char>)
    ensures
        contains(lower(hay), needle) <==> exists|at: int|
            0 <= at && at + needle.len() <= hay.len() && #[trigger] lower(hay).subrange(
                at,
                at + needle.len(),
            ) == needle,
{
    if contains(lower(hay), needle) {
        let at = choose|at: int| crate::text::occurs_at(lower(hay), needle, at);
        assert(lower(hay).subrange(at, at + needle.len()) == needle);
    }
    if exists|at: int|
        0 <= at && at + needle.len() <= hay.len() && #[trigger] lower(hay).subrange(
            at,
            at + needle.len(),
        ) == needle {
        let at = choose|at: int|
            0 <= at && at + needle.len() <= hay.len() && #[trigger] lower(hay).subrange(
                at,
                at + needle.len(),
            ) == needle;
        assert(crate::text::occurs_at(lower(hay), needle, at));
    }
}

/// A filter shows exactly the rows in whose project's name, label or path it stands,
/// without the space around it and whatever the case.
pub proof fn a_filter_finds_names_labels_and_paths(
    project: ProjectView,
    w: WorktreeView,
    needle: Seq<char>,
)
    ensures
        crate::ui::project_list::matching(project.name, w, needle) <==> is_found(
            project,
            w,
            needle,
        ),
{
    lemma_contains(project.name, needle);
    lemma_contains(w.label, needle);
    lemma_contains(w.path, needle);
}

proof fn lemma_shown_has(p: ProjectView, rows: Seq<WorktreeView>, needle: Seq<char>, row: (
    Seq<char>,
    Seq<char>,
))
    ensures
        shown_rows(p.id, p.name, rows, needle).contains(row) <==> row.0 == p.id && exists|j: int|
            0 <= j < rows.len() && (#[trigger] rows[j]).id == row.1 && is_found(p, rows[j], needle),
    decreases rows.len(),
{
    if rows.len() > 0 {
        let init = rows.drop_last();
        let last = rows.last();
        lemma_shown_has(p, init, needle, row);
        a_filter_finds_names_labels_and_paths(p, last, needle);
        crate::text::contains_pushed(
            shown_rows(p.id, p.name, init, needle),
            (p.id, last.id),
            row,
        );
        assert(rows[rows.len() - 1] == last);
        if exists|j: int|
            0 <= j < init.len() && (#[trigger] init[j]).id == row.1 && is_found(p, init[j], needle) {
            let j = choose|j: int|
                0 <= j < init.len() && (#[trigger] init[j]).id == row.1 && is_found(
                    p,
                    init[j],
                    needle,
                );
            assert(rows[j].id == row.1);
        }
        if exists|j: int|
            0 <= j < rows.len() && (#[trigger] rows[j]).id == row.1 && is_found(p, rows[j], needle) {
            let j = choose|j: int|
                0 <= j < rows.len() && (#[trigger] rows[j]).id == row.1 && is_found(
                    p,
                    rows[j],
                    needle,
                );
            if j < init.len() {
                assert(init[j].id == row.1);
            }
        }
    }
}

/// The rows that can be walked are those the filter finds in projects that are not
/// folded, and no others.
pub proof fn folded_and_filtered_rows_are_not_walked(
    projects: Seq<ProjectView>,
    needle: Seq<char>,
    row: (Seq<char>, Seq<char>),
)
    ensures
        walkable(projects, needle).contains(row) <==> exists|i: int, j: int|
            #![trigger projects[i].worktrees[j]]
            0 <= i < projects.len() && projects[i].is_expanded && projects[i].id == row.0 && 0 <= j
                < projects[i].worktrees.len() && projects[i].worktrees[j].id == row.1 && is_found(
                projects[i],
                projects[i].worktrees[j],
                needle,
            ),
    decreases projects.len(),
{
    if projects.len() > 0 {
        let init = projects.drop_last();
        let last = projects.last();
        let before = walkable(init, needle);
        let shown = shown_rows(last.id, last.name, last.worktrees, needle);
        folded_and_filtered_rows_are_not_walked(init, needle, row);
        lemma_shown_has(last, last.worktrees, needle, row);
        let all = walkable(projects, needle);
        if last.is_expanded {
            assert(all =~= before + shown);
            if before.contains(row) {
                let k = choose|k: int| 0 <= k < before.len() && before[k] == row;
                assert(all[k] == row);
            }
            if shown.contains(row) {
                let k = choose|k: int| 0 <= k < shown.len() && shown[k] == row;
                assert(all[before.len() + k] == row);
            }
            if all.contains(row) {
                let k = choose|k: int| 0 <= k < all.len() && all[k] == row;
                if k < before.len() {
                    assert(before[k] == row);
                } else {
                    assert(shown[k - before.len()] == row);
                }
            }
        }
        if before.contains(row) {
            let (i, j) = choose|i: int, j: int|
                #![trigger init[i].worktrees[j]]
                0 <= i < init.len() && init[i].is_expanded && init[i].id == row.0 && 0 <= j
                    < init[i].worktrees.len() && init[i].worktrees[j].id == row.1 && is_found(
                    init[i],
                    init[i].worktrees[j],
                    needle,
                );
            assert(projects[i].worktrees[j].id == row.1);
        }
        if last.is_expanded && shown.contains(row) {
            let j = choose|j: int|
                0 <= j < last.worktrees.len() && (#[trigger] last.worktrees[j]).id == row.1
                    && is_found(last, last.worktrees[j], needle);
            assert(projects[projects.len() - 1].worktrees[j].id == row.1);
        }
        if exists|i: int, j: int|
            #![trigger projects[i].worktrees[j]]
            0 <= i < projects.len() && projects[i].is_expanded && projects[i].id == row.0 && 0 <= j
                < projects[i].worktrees.len() && projects[i].worktrees[j].id == row.1 && is_found(
                projects[i],
                projects[i].worktrees[j],
                needle,
            ) {
            let (i, j) = choose|i: int, j: int|
                #![trigger projects[i].worktrees[j]]
                0 <= i < projects.len() && projects[i].is_expanded && projects[i].id == row.0 && 0
                    <= j < projects[i].worktrees.len() && projects[i].worktrees[j].id == row.1
                    && is_found(projects[i], projects[i].worktrees[j], needle);
            if i < init.len() {
                assert(init[i].worktrees[j].id == row.1);
            } else {
                assert(last.worktrees[j].id == row.1);
            }
        }
    }
}

/// A shortcut acts on the project of the selected row; without one, on the only
/// project there is, and on none of several.
pub proof fn a_shortcut_acts_on_the_selected_project(
    selection: SelectionView,
    projects: Seq<ProjectView>,
)
    ensures
        selected_row(selection, projects) matches Some(row) ==> context_of(selection, projects)
            == Some(row.0),
        selected_row(selection, projects) is None && projects.len() == 1 ==> context_of(
            selection,
            projects,
        ) == Some(projects[0].id),
        selected_row(selection, projects) is None && projects.len() != 1 ==> context_of(
            selection,
            projects,
        ) is None,
        selected_row(selection, projects) matches Some(row) ==> selection.worktree == Some(row.1)
            && walkable(projects, lower(trimmed(selection.filter))).contains(row),
{
    let rows = walkable(projects, needle_of(selection.filter));
    if let Some(id) = selection.worktree {
        row_at_is_first(rows, id);
    }
}

}
