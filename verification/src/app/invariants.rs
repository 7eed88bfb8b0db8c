//! What every change of the window's rows keeps.
use vstd::prelude::*;

use crate::app::rows::{
    opening_clears_everything, project_cleared, project_noted, project_of, projects_differ,
    restamped, row_cleared, row_noted, rows_joined, rows_kept, rows_of_state, Rows, Stamp,
};
use crate::app::GroveApp;
use crate::model::{
    project_at, project_at_is_first, worktree_at, worktree_at_is_first, ProjectView, SessionReport,
    StatusSummary, WindowInfo, WindowNote, WorktreeView,
};
use crate::notices::{notes_for, notes_without, Notices, Notification};
use crate::state::{record_at, ProjectRecord, State};
use crate::table::Table;
use crate::workers::{EffectView, Message, ServiceUpdate};

verus! {

/// The row claims nothing of a session that does not run: no status, no window
/// and no note on one.
pub open spec fn row_honest(w: WorktreeView) -> bool {
    !w.session.live() ==> w.status is None && w.windows.len() == 0 && w.window_notes.len() == 0
}

/// Every row of the project is honest.
pub open spec fn project_honest(p: ProjectView) -> bool {
    forall|j: int| 0 <= j < p.worktrees.len() ==> row_honest(#[trigger] p.worktrees[j])
}

/// Every row is honest.
pub open spec fn honest(projects: Seq<ProjectView>) -> bool {
    forall|i: int| 0 <= i < projects.len() ==> project_honest(#[trigger] projects[i])
}

proof fn lemma_no_window_no_note(notes: Seq<(String, WindowNote)>, id: Seq<char>)
    ensures
        notes_for(notes, id, Seq::<WindowInfo>::empty()).len() == 0,
    decreases notes.len(),
{
    if notes.len() > 0 {
        lemma_no_window_no_note(notes.drop_last(), id);
    }
}

proof fn lemma_notes_stay_honest(notices: Notices, w: WorktreeView)
    requires
        !w.session.live() ==> w.status is None && w.windows.len() == 0,
    ensures
        row_honest(Stamp::Notes(&notices).on(w)),
{
    lemma_no_window_no_note(notices.windows@, w.id);
    if w.windows.len() == 0 {
        assert(w.windows =~= Seq::<WindowInfo>::empty());
    }
}

/// Once every stamp is on the rows they are honest, whatever they were before.
pub proof fn stamped_rows_are_honest(
    projects: Seq<ProjectView>,
    state: State,
    statuses: Table<SessionReport>,
    windows: Table<Vec<WindowInfo>>,
    notices: Notices,
)
    ensures
        honest(restamped(projects, state, statuses, windows, notices)),
{
    let all = restamped(projects, state, statuses, windows, notices);
    let windowed = Stamp::Windows(&windows).on_all(
        Stamp::Status(&statuses).on_all(Stamp::Stopped(&state).on_all(projects)),
    );
    assert forall|i: int| 0 <= i < all.len() implies project_honest(#[trigger] all[i]) by {
        assert forall|j: int| 0 <= j < all[i].worktrees.len() implies row_honest(
            #[trigger] all[i].worktrees[j],
        ) by {
            lemma_notes_stay_honest(notices, windowed[i].worktrees[j]);
        }
    }
}

proof fn lemma_all_stamped_rows_are_honest()
    ensures
        forall|
            projects: Seq<ProjectView>,
            state: State,
            statuses: Table<SessionReport>,
            windows: Table<Vec<WindowInfo>>,
            notices: Notices,
        |
            honest(#[trigger] restamped(projects, state, statuses, windows, notices)),
{
    assert forall|
        projects: Seq<ProjectView>,
        state: State,
        statuses: Table<SessionReport>,
        windows: Table<Vec<WindowInfo>>,
        notices: Notices,
    |
        honest(#[trigger] restamped(projects, state, statuses, windows, notices)) by {
        stamped_rows_are_honest(projects, state, statuses, windows, notices);
    }
}

proof fn lemma_git_keeps_honest(p: ProjectView, git: Table<StatusSummary>)
    requires
        project_honest(p),
    ensures
        project_honest(Stamp::Git(&git).on_project(p)),
{
    let after = Stamp::Git(&git).on_project(p);
    assert forall|j: int| 0 <= j < after.worktrees.len() implies row_honest(
        #[trigger] after.worktrees[j],
    ) by {
        assert(row_honest(p.worktrees[j]));
    }
}

proof fn lemma_statuses_keep_honest(projects: Seq<ProjectView>, statuses: Table<SessionReport>)
    requires
        honest(projects),
    ensures
        honest(Stamp::Status(&statuses).on_all(projects)),
{
    let after = Stamp::Status(&statuses).on_all(projects);
    assert forall|i: int| 0 <= i < after.len() implies project_honest(#[trigger] after[i]) by {
        assert(project_honest(projects[i]));
        assert forall|j: int| 0 <= j < after[i].worktrees.len() implies row_honest(
            #[trigger] after[i].worktrees[j],
        ) by {
            assert(row_honest(projects[i].worktrees[j]));
        }
    }
}

proof fn lemma_stopped_keeps_honest(projects: Seq<ProjectView>, state: State)
    requires
        honest(projects),
    ensures
        honest(Stamp::Stopped(&state).on_all(projects)),
{
    let after = Stamp::Stopped(&state).on_all(projects);
    assert forall|i: int| 0 <= i < after.len() implies project_honest(#[trigger] after[i]) by {
        assert(project_honest(projects[i]));
        assert forall|j: int| 0 <= j < after[i].worktrees.len() implies row_honest(
            #[trigger] after[i].worktrees[j],
        ) by {
            assert(row_honest(projects[i].worktrees[j]));
        }
    }
}

proof fn lemma_windows_keep_honest(
    projects: Seq<ProjectView>,
    windows: Table<Vec<WindowInfo>>,
    notices: Notices,
)
    requires
        honest(projects),
    ensures
        honest(Stamp::Notes(&notices).on_all(Stamp::Windows(&windows).on_all(projects))),
{
    let windowed = Stamp::Windows(&windows).on_all(projects);
    let after = Stamp::Notes(&notices).on_all(windowed);
    assert forall|i: int| 0 <= i < after.len() implies project_honest(#[trigger] after[i]) by {
        assert(project_honest(projects[i]));
        assert forall|j: int| 0 <= j < after[i].worktrees.len() implies row_honest(
            #[trigger] after[i].worktrees[j],
        ) by {
            assert(row_honest(projects[i].worktrees[j]));
            lemma_notes_stay_honest(notices, windowed[i].worktrees[j]);
        }
    }
}

proof fn lemma_report_keeps_honest(
    projects: Seq<ProjectView>,
    notices: Notices,
    notification: Notification,
)
    requires
        honest(projects),
    ensures
        honest(
            Stamp::Notes(&notices).on_all(
                projects.map_values(|p: ProjectView| project_noted(p, notification)),
            ),
        ),
{
    let noted = projects.map_values(|p: ProjectView| project_noted(p, notification));
    let after = Stamp::Notes(&notices).on_all(noted);
    assert forall|i: int| 0 <= i < after.len() implies project_honest(#[trigger] after[i]) by {
        let p = projects[i];
        assert(project_honest(p));
        worktree_at_is_first(p.worktrees, notification.worktree_id@);
        assert forall|j: int| 0 <= j < after[i].worktrees.len() implies row_honest(
            #[trigger] after[i].worktrees[j],
        ) by {
            assert(row_honest(p.worktrees[j]));
            assert(noted[i].worktrees[j] == p.worktrees[j] || noted[i].worktrees[j] == row_noted(
                p.worktrees[j],
                notification,
            ));
            lemma_notes_stay_honest(notices, noted[i].worktrees[j]);
        }
    }
}

proof fn lemma_clearing_keeps_honest(projects: Seq<ProjectView>, worktree_id: Seq<char>)
    requires
        honest(projects),
    ensures
        honest(projects.map_values(|p: ProjectView| project_cleared(p, worktree_id))),
{
    let after = projects.map_values(|p: ProjectView| project_cleared(p, worktree_id));
    assert forall|i: int| 0 <= i < after.len() implies project_honest(#[trigger] after[i]) by {
        let p = projects[i];
        assert(project_honest(p));
        worktree_at_is_first(p.worktrees, worktree_id);
        assert forall|j: int| 0 <= j < after[i].worktrees.len() implies row_honest(
            #[trigger] after[i].worktrees[j],
        ) by {
            assert(row_honest(p.worktrees[j]));
        }
    }
}

proof fn lemma_kept_honest(projects: Seq<ProjectView>, records: Seq<ProjectRecord>)
    requires
        honest(projects),
    ensures
        honest(rows_kept(projects, records)),
    decreases projects.len(),
{
    if projects.len() > 0 {
        let init = projects.drop_last();
        assert(project_honest(projects[projects.len() - 1]));
        assert forall|i: int| 0 <= i < init.len() implies project_honest(#[trigger] init[i]) by {
            assert(project_honest(projects[i]));
        }
        lemma_kept_honest(init, records);
    }
}

proof fn lemma_joined_honest(projects: Seq<ProjectView>, records: Seq<ProjectRecord>)
    requires
        honest(projects),
    ensures
        honest(rows_joined(projects, records)),
    decreases records.len(),
{
    if records.len() > 0 {
        lemma_joined_honest(projects, records.drop_last());
        assert(project_honest(project_of(records.last())));
    }
}

proof fn lemma_state_keeps_honest(rows: Rows, after: Rows, state: State, bootstrap: bool)
    requires
        honest(rows.view_projects()),
        rows.state_taken(after, state, bootstrap),
    ensures
        honest(after.view_projects()),
{
    let projects = rows.view_projects();
    let records = state.projects@;
    if !bootstrap {
        lemma_kept_honest(projects, records);
        lemma_joined_honest(rows_kept(projects, records), records);
    }
    lemma_stopped_keeps_honest(rows_of_state(projects, records, bootstrap), state);
}

/// Whatever a worker, the poller or the service says, no row goes on claiming
/// something of a session that does not run: where the rows are honest they stay
/// so.
pub proof fn messages_keep_rows_honest(
    app: GroveApp,
    message: Message,
    after: GroveApp,
    effects: Seq<EffectView>,
)
    requires
        honest(app.rows.view_projects()),
        app.received(message, after, effects),
    ensures
        honest(after.rows.view_projects()),
{
    let projects = app.rows.view_projects();
    match message {
        Message::StateLoaded(state) => {
            lemma_state_keeps_honest(app.rows, after.rows, state, true);
        },
        Message::StateUpdated { state, status, reconcile } => {
            lemma_state_keeps_honest(app.rows, after.rows, state, false);
        },
        Message::ProjectOpened(project) => {
            lemma_all_stamped_rows_are_honest();
        },
        Message::RemovalDone { project_id, operation, detail } => {
            lemma_all_stamped_rows_are_honest();
        },
        Message::WorktreesRefreshed { project_id, worktrees } => {
            lemma_all_stamped_rows_are_honest();
        },
        Message::StatusesRefreshed { project_id, statuses } => {
            project_at_is_first(projects, project_id@);
            if let Some(i) = project_at(projects, project_id@) {
                assert(project_honest(projects[i]));
                lemma_git_keeps_honest(projects[i], statuses);
            }
        },
        Message::SessionsRefreshed { presence, windows } => {
            lemma_all_stamped_rows_are_honest();
        },
        Message::Reconciled { result, state } => {
            lemma_all_stamped_rows_are_honest();
        },
        Message::StatusPolled(statuses) => {
            lemma_statuses_keep_honest(projects, statuses);
        },
        Message::WindowsPolled(windows) => {
            lemma_windows_keep_honest(projects, windows, app.rows.notices);
        },
        Message::Notified(notification) => {
            lemma_report_keeps_honest(projects, after.rows.notices, notification);
        },
        Message::ServiceEvent { revision, decoded } => {
            lemma_all_stamped_rows_are_honest();
            if let Ok(update) = decoded {
                match update {
                    ServiceUpdate::State(state) => {
                        if revision > app.last_service_revision {
                            lemma_state_keeps_honest(app.rows, after.rows, state, false);
                        }
                    },
                    ServiceUpdate::Notification(notification) => {
                        lemma_report_keeps_honest(projects, after.rows.notices, notification);
                    },
                    _ => {},
                }
            }
        },
        _ => {},
    }
}

/// A row that was opened is honest like the others.
pub proof fn opening_keeps_rows_honest(rows: Rows, after: Rows, worktree_id: Seq<char>)
    requires
        honest(rows.view_projects()),
        rows.attention_cleared(after, worktree_id),
    ensures
        honest(after.view_projects()),
{
    lemma_clearing_keeps_honest(rows.view_projects(), worktree_id);
}

proof fn lemma_kept_ids(projects: Seq<ProjectView>, records: Seq<ProjectRecord>)
    requires
        projects_differ(projects),
    ensures
        projects_differ(rows_kept(projects, records)),
        forall|k: int|
            0 <= k < rows_kept(projects, records).len() ==> project_at(
                projects,
                (#[trigger] rows_kept(projects, records)[k]).id,
            ) is Some,
    decreases projects.len(),
{
    if projects.len() > 0 {
        let init = projects.drop_last();
        let last = projects.last();
        let kept = rows_kept(projects, records);
        let before = rows_kept(init, records);
        assert(projects_differ(init)) by {
            assert forall|i: int, j: int| 0 <= i < j < init.len() implies (#[trigger] init[i]).id
                != (#[trigger] init[j]).id by {
                assert(projects[i].id != projects[j].id);
            }
        }
        lemma_kept_ids(init, records);
        assert forall|k: int| 0 <= k < kept.len() implies project_at(
            projects,
            (#[trigger] kept[k]).id,
        ) is Some by {
            if k < before.len() {
                assert(kept[k] == before[k]);
            }
        }
        assert forall|i: int, j: int| 0 <= i < j < kept.len() implies (#[trigger] kept[i]).id != (
        #[trigger] kept[j]).id by {
            assert(kept[i] == before[i]);
            if j < before.len() {
                assert(kept[j] == before[j]);
            } else {
                project_at_is_first(init, before[i].id);
                let at = project_at(init, before[i].id)->0;
                assert(projects[at].id != projects[projects.len() - 1].id);
            }
        }
    }
}

proof fn lemma_joined_ids(projects: Seq<ProjectView>, records: Seq<ProjectRecord>)
    requires
        projects_differ(projects),
    ensures
        projects_differ(rows_joined(projects, records)),
    decreases records.len(),
{
    if records.len() > 0 {
        let before = rows_joined(projects, records.drop_last());
        lemma_joined_ids(projects, records.drop_last());
        project_at_is_first(before, records.last().id@);
    }
}

/// A snapshot of what is remembered lists no project twice where none was: one
/// that is listed keeps its one row, and one that was not gets one.
pub proof fn a_snapshot_lists_each_project_once(
    projects: Seq<ProjectView>,
    records: Seq<ProjectRecord>,
)
    requires
        projects_differ(projects),
    ensures
        projects_differ(rows_of_state(projects, records, false)),
{
    lemma_kept_ids(projects, records);
    lemma_joined_ids(rows_kept(projects, records), records);
}

/// Every project that is remembered is listed after a snapshot of what is, and no
/// other is.
pub proof fn a_snapshot_lists_what_is_remembered(
    projects: Seq<ProjectView>,
    records: Seq<ProjectRecord>,
    id: Seq<char>,
)
    ensures
        project_at(rows_of_state(projects, records, false), id) is Some <==> record_at(
            records,
            id,
        ) is Some,
{
    lemma_kept_are_recorded(projects, records, id);
    lemma_joined_lists(rows_kept(projects, records), records, id);
}

proof fn lemma_kept_are_recorded(
    projects: Seq<ProjectView>,
    records: Seq<ProjectRecord>,
    id: Seq<char>,
)
    ensures
        project_at(rows_kept(projects, records), id) is Some ==> record_at(records, id) is Some,
    decreases projects.len(),
{
    if projects.len() > 0 {
        let init = projects.drop_last();
        lemma_kept_are_recorded(init, records, id);
        if record_at(records, projects.last().id) is Some {
            let kept = rows_kept(projects, records);
            assert(kept.drop_last() =~= rows_kept(init, records));
        }
    }
}

pub proof fn lemma_joined_lists(
    projects: Seq<ProjectView>,
    records: Seq<ProjectRecord>,
    id: Seq<char>,
)
    ensures
        project_at(rows_joined(projects, records), id) is Some <==> (project_at(projects, id)
            is Some || record_at(records, id) is Some),
    decreases records.len(),
{
    if records.len() > 0 {
        let init = records.drop_last();
        lemma_joined_lists(projects, init, id);
        let before = rows_joined(projects, init);
        let row = project_of(records.last());
        assert(before.push(row).drop_last() =~= before);
    }
}

/// The row shows what the caches hold of it: its status, its windows, and the
/// notes on them.
pub open spec fn row_settled(
    w: WorktreeView,
    statuses: Table<SessionReport>,
    windows: Table<Vec<WindowInfo>>,
    notices: Notices,
) -> bool {
    &&& Stamp::Status(&statuses).on(w) == w
    &&& Stamp::Windows(&windows).on(w) == w
    &&& Stamp::Notes(&notices).on(w) == w
}

/// Every row of the project is settled.
pub open spec fn project_settled(
    p: ProjectView,
    statuses: Table<SessionReport>,
    windows: Table<Vec<WindowInfo>>,
    notices: Notices,
) -> bool {
    forall|j: int|
        0 <= j < p.worktrees.len() ==> row_settled(
            #[trigger] p.worktrees[j],
            statuses,
            windows,
            notices,
        )
}

/// Every row is settled.
pub open spec fn settled(
    projects: Seq<ProjectView>,
    statuses: Table<SessionReport>,
    windows: Table<Vec<WindowInfo>>,
    notices: Notices,
) -> bool {
    forall|i: int|
        0 <= i < projects.len() ==> project_settled(
            #[trigger] projects[i],
            statuses,
            windows,
            notices,
        )
}

/// Every row says whether its session stopped, as what is remembered has it.
pub open spec fn stopped_marked(projects: Seq<ProjectView>, state: State) -> bool {
    forall|i: int, j: int|
        0 <= i < projects.len() && 0 <= j < projects[i].worktrees.len() ==> Stamp::Stopped(
            &state,
        ).on(#[trigger] projects[i].worktrees[j]) == projects[i].worktrees[j]
}

/// Nothing on the rows is out of step with the caches behind them.
pub open spec fn stamped(rows: Rows) -> bool {
    &&& settled(rows.view_projects(), rows.statuses, rows.windows, rows.notices)
    &&& stopped_marked(rows.view_projects(), rows.state)
}

/// No project lists a worktree twice.
pub open spec fn worktrees_differ(projects: Seq<ProjectView>) -> bool {
    forall|i: int, j: int, k: int|
        0 <= i < projects.len() && 0 <= j < k < projects[i].worktrees.len() ==> (
        #[trigger] projects[i].worktrees[j]).id != (#[trigger] projects[i].worktrees[k]).id
}

/// Stamping the rows brings them into step, whatever they were before.
pub proof fn stamping_brings_rows_into_step(
    projects: Seq<ProjectView>,
    state: State,
    statuses: Table<SessionReport>,
    windows: Table<Vec<WindowInfo>>,
    notices: Notices,
)
    ensures
        settled(
            restamped(projects, state, statuses, windows, notices),
            statuses,
            windows,
            notices,
        ),
        stopped_marked(restamped(projects, state, statuses, windows, notices), state),
{
}

proof fn lemma_all_stamped_rows_are_settled()
    ensures
        forall|
            projects: Seq<ProjectView>,
            state: State,
            statuses: Table<SessionReport>,
            windows: Table<Vec<WindowInfo>>,
            notices: Notices,
        |
            #![trigger restamped(projects, state, statuses, windows, notices)]
            settled(
                restamped(projects, state, statuses, windows, notices),
                statuses,
                windows,
                notices,
            ) && stopped_marked(restamped(projects, state, statuses, windows, notices), state),
{
    assert forall|
        projects: Seq<ProjectView>,
        state: State,
        statuses: Table<SessionReport>,
        windows: Table<Vec<WindowInfo>>,
        notices: Notices,
    |
        #![trigger restamped(projects, state, statuses, windows, notices)]
        settled(
            restamped(projects, state, statuses, windows, notices),
            statuses,
            windows,
            notices,
        ) && stopped_marked(restamped(projects, state, statuses, windows, notices), state) by {
        stamping_brings_rows_into_step(projects, state, statuses, windows, notices);
    }
}

proof fn lemma_git_keeps_step(
    rows: Rows,
    after: Rows,
    project_id: Seq<char>,
    git: Table<StatusSummary>,
)
    requires
        stamped(rows),
        rows.git_applied(after, project_id, git),
    ensures
        stamped(after),
{
    let before = rows.view_projects();
    let now = after.view_projects();
    project_at_is_first(before, project_id);
    assert forall|i: int| 0 <= i < now.len() implies project_settled(
        #[trigger] now[i],
        after.statuses,
        after.windows,
        after.notices,
    ) by {
        assert(project_settled(before[i], rows.statuses, rows.windows, rows.notices));
        assert forall|j: int| 0 <= j < now[i].worktrees.len() implies row_settled(
            #[trigger] now[i].worktrees[j],
            after.statuses,
            after.windows,
            after.notices,
        ) by {
            assert(row_settled(
                before[i].worktrees[j],
                rows.statuses,
                rows.windows,
                rows.notices,
            ));
        }
    }
    assert forall|i: int, j: int|
        0 <= i < now.len() && 0 <= j < now[i].worktrees.len() implies Stamp::Stopped(
        &after.state,
    ).on(#[trigger] now[i].worktrees[j]) == now[i].worktrees[j] by {
        assert(Stamp::Stopped(&rows.state).on(before[i].worktrees[j]) == before[i].worktrees[j]);
    }
}

proof fn lemma_poll_keeps_step(rows: Rows, after: Rows)
    requires
        stamped(rows),
        rows.statuses_set(after, after.statuses) || rows.windows_set(after, after.windows),
    ensures
        stamped(after),
{
    let before = rows.view_projects();
    let now = after.view_projects();
    assert forall|i: int| 0 <= i < now.len() implies project_settled(
        #[trigger] now[i],
        after.statuses,
        after.windows,
        after.notices,
    ) by {
        assert(project_settled(before[i], rows.statuses, rows.windows, rows.notices));
        assert forall|j: int| 0 <= j < now[i].worktrees.len() implies row_settled(
            #[trigger] now[i].worktrees[j],
            after.statuses,
            after.windows,
            after.notices,
        ) by {
            assert(row_settled(
                before[i].worktrees[j],
                rows.statuses,
                rows.windows,
                rows.notices,
            ));
        }
    }
    assert forall|i: int, j: int|
        0 <= i < now.len() && 0 <= j < now[i].worktrees.len() implies Stamp::Stopped(
        &after.state,
    ).on(#[trigger] now[i].worktrees[j]) == now[i].worktrees[j] by {
        assert(Stamp::Stopped(&rows.state).on(before[i].worktrees[j]) == before[i].worktrees[j]);
    }
}

proof fn lemma_kept_settled(
    projects: Seq<ProjectView>,
    records: Seq<ProjectRecord>,
    statuses: Table<SessionReport>,
    windows: Table<Vec<WindowInfo>>,
    notices: Notices,
)
    requires
        settled(projects, statuses, windows, notices),
    ensures
        settled(rows_kept(projects, records), statuses, windows, notices),
    decreases projects.len(),
{
    if projects.len() > 0 {
        let init = projects.drop_last();
        assert(project_settled(projects[projects.len() - 1], statuses, windows, notices));
        assert forall|i: int| 0 <= i < init.len() implies project_settled(
            #[trigger] init[i],
            statuses,
            windows,
            notices,
        ) by {
            assert(project_settled(projects[i], statuses, windows, notices));
        }
        lemma_kept_settled(init, records, statuses, windows, notices);
    }
}

proof fn lemma_joined_settled(
    projects: Seq<ProjectView>,
    records: Seq<ProjectRecord>,
    statuses: Table<SessionReport>,
    windows: Table<Vec<WindowInfo>>,
    notices: Notices,
)
    requires
        settled(projects, statuses, windows, notices),
    ensures
        settled(rows_joined(projects, records), statuses, windows, notices),
    decreases records.len(),
{
    if records.len() > 0 {
        lemma_joined_settled(projects, records.drop_last(), statuses, windows, notices);
        assert(project_settled(project_of(records.last()), statuses, windows, notices));
    }
}

proof fn lemma_state_keeps_step(rows: Rows, after: Rows, state: State, bootstrap: bool)
    requires
        stamped(rows),
        rows.state_taken(after, state, bootstrap),
    ensures
        stamped(after),
{
    let projects = rows.view_projects();
    let records = state.projects@;
    if !bootstrap {
        lemma_kept_settled(projects, records, rows.statuses, rows.windows, rows.notices);
        lemma_joined_settled(
            rows_kept(projects, records),
            records,
            rows.statuses,
            rows.windows,
            rows.notices,
        );
    }
    let taken = rows_of_state(projects, records, bootstrap);
    let now = after.view_projects();
    assert forall|i: int| 0 <= i < now.len() implies project_settled(
        #[trigger] now[i],
        after.statuses,
        after.windows,
        after.notices,
    ) by {
        assert(project_settled(taken[i], rows.statuses, rows.windows, rows.notices));
        assert forall|j: int| 0 <= j < now[i].worktrees.len() implies row_settled(
            #[trigger] now[i].worktrees[j],
            after.statuses,
            after.windows,
            after.notices,
        ) by {
            assert(row_settled(taken[i].worktrees[j], rows.statuses, rows.windows, rows.notices));
        }
    }
}

proof fn lemma_report_keeps_step(rows: Rows, after: Rows, notification: Notification)
    requires
        stamped(rows),
        worktrees_differ(rows.view_projects()),
        rows.noted(after, notification),
    ensures
        stamped(after),
{
    let before = rows.view_projects();
    let noted = before.map_values(|p: ProjectView| project_noted(p, notification));
    let now = after.view_projects();
    let id = notification.worktree_id@;
    assert forall|i: int| 0 <= i < now.len() implies project_settled(
        #[trigger] now[i],
        after.statuses,
        after.windows,
        after.notices,
    ) by {
        let p = before[i];
        assert(project_settled(p, rows.statuses, rows.windows, rows.notices));
        worktree_at_is_first(p.worktrees, id);
        assert forall|j: int| 0 <= j < now[i].worktrees.len() implies row_settled(
            #[trigger] now[i].worktrees[j],
            after.statuses,
            after.windows,
            after.notices,
        ) by {
            let w = p.worktrees[j];
            assert(row_settled(w, rows.statuses, rows.windows, rows.notices));
            if w.id == id {
                let at = worktree_at(p.worktrees, id)->0;
                assert(at == j) by {
                    if at < j {
                        assert(before[i].worktrees[at].id != before[i].worktrees[j].id);
                    }
                }
                assert(noted[i].worktrees[j] == row_noted(w, notification));
            } else {
                assert(noted[i].worktrees[j] == w);
            }
            let x = noted[i].worktrees[j];
            assert(Stamp::Status(&after.statuses).on(x) == x);
            assert(Stamp::Windows(&after.windows).on(x) == x);
        }
    }
    assert forall|i: int, j: int|
        0 <= i < now.len() && 0 <= j < now[i].worktrees.len() implies Stamp::Stopped(
        &after.state,
    ).on(#[trigger] now[i].worktrees[j]) == now[i].worktrees[j] by {
        worktree_at_is_first(before[i].worktrees, id);
        assert(Stamp::Stopped(&rows.state).on(before[i].worktrees[j]) == before[i].worktrees[j]);
    }
}

/// Every message leaves the rows in step with the caches behind them: whatever a
/// worker, the poller or the service says, no change of a cache is missing from
/// the rows, and no row keeps what its cache has dropped. A report needs a
/// worktree to be listed once in its project: it is taken to its first row.
pub proof fn messages_keep_rows_in_step(
    app: GroveApp,
    message: Message,
    after: GroveApp,
    effects: Seq<EffectView>,
)
    requires
        stamped(app.rows),
        worktrees_differ(app.rows.view_projects()),
        app.received(message, after, effects),
    ensures
        stamped(after.rows),
{
    lemma_all_stamped_rows_are_settled();
    match message {
        Message::StateLoaded(state) => {
            lemma_state_keeps_step(app.rows, after.rows, state, true);
        },
        Message::StateUpdated { state, status, reconcile } => {
            lemma_state_keeps_step(app.rows, after.rows, state, false);
        },
        Message::StatusesRefreshed { project_id, statuses } => {
            lemma_git_keeps_step(app.rows, after.rows, project_id@, statuses);
        },
        Message::StatusPolled(statuses) => {
            lemma_poll_keeps_step(app.rows, after.rows);
        },
        Message::WindowsPolled(windows) => {
            lemma_poll_keeps_step(app.rows, after.rows);
        },
        Message::Notified(notification) => {
            lemma_report_keeps_step(app.rows, after.rows, notification);
        },
        Message::ServiceEvent { revision, decoded } => {
            if revision > app.last_service_revision {
                if let Ok(update) = decoded {
                    match update {
                        ServiceUpdate::State(state) => {
                            lemma_state_keeps_step(app.rows, after.rows, state, false);
                        },
                        ServiceUpdate::Notification(notification) => {
                            lemma_report_keeps_step(app.rows, after.rows, notification);
                        },
                        _ => {},
                    }
                }
            }
        },
        _ => {},
    }
}

proof fn lemma_notes_of_others_stay(
    notes: Seq<(String, WindowNote)>,
    id: Seq<char>,
    other: Seq<char>,
    windows: Seq<WindowInfo>,
)
    requires
        other != id,
    ensures
        notes_for(notes_without(notes, id, None), other, windows) == notes_for(
            notes,
            other,
            windows,
        ),
    decreases notes.len(),
{
    if notes.len() > 0 {
        let init = notes.drop_last();
        lemma_notes_of_others_stay(init, id, other, windows);
        let kept = notes_without(notes, id, None);
        if notes.last().0@ != id {
            assert(kept.drop_last() =~= notes_without(init, id, None));
        }
    }
}

/// Opening a row leaves the rows in step: what its attention carried goes from the
/// row and from the caches alike, and the other rows keep theirs.
pub proof fn opening_keeps_rows_in_step(rows: Rows, after: Rows, worktree_id: Seq<char>)
    requires
        stamped(rows),
        worktrees_differ(rows.view_projects()),
        rows.attention_cleared(after, worktree_id),
    ensures
        stamped(after),
{
    let before = rows.view_projects();
    let now = after.view_projects();
    assert forall|i: int| 0 <= i < now.len() implies project_settled(
        #[trigger] now[i],
        after.statuses,
        after.windows,
        after.notices,
    ) by {
        let p = before[i];
        assert(project_settled(p, rows.statuses, rows.windows, rows.notices));
        worktree_at_is_first(p.worktrees, worktree_id);
        assert forall|j: int| 0 <= j < now[i].worktrees.len() implies row_settled(
            #[trigger] now[i].worktrees[j],
            after.statuses,
            after.windows,
            after.notices,
        ) by {
            let w = p.worktrees[j];
            assert(row_settled(w, rows.statuses, rows.windows, rows.notices));
            if w.id == worktree_id {
                let at = worktree_at(p.worktrees, worktree_id)->0;
                assert(at == j) by {
                    if at < j {
                        assert(before[i].worktrees[at].id != before[i].worktrees[j].id);
                    }
                }
                assert(now[i].worktrees[j] == row_cleared(w));
                opening_clears_everything(
                    w,
                    rows.statuses@,
                    rows.notices.windows@,
                    w.windows,
                );
                assert(now[i].worktrees[j].window_notes =~= notes_for(
                    after.notices.windows@,
                    w.id,
                    w.windows,
                ));
            } else {
                assert(now[i].worktrees[j] == w);
                lemma_notes_of_others_stay(
                    rows.notices.windows@,
                    worktree_id,
                    w.id,
                    w.windows,
                );
            }
        }
    }
    assert forall|i: int, j: int|
        0 <= i < now.len() && 0 <= j < now[i].worktrees.len() implies Stamp::Stopped(
        &after.state,
    ).on(#[trigger] now[i].worktrees[j]) == now[i].worktrees[j] by {
        worktree_at_is_first(before[i].worktrees, worktree_id);
        assert(Stamp::Stopped(&rows.state).on(before[i].worktrees[j]) == before[i].worktrees[j]);
    }
}

}
