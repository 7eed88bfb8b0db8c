//! What the rows show, said of each row and of what is held about it.
use vstd::prelude::*;
use vstd::string::*;

use crate::app::invariants::stamped;
use crate::app::reports::{a_row_shows_the_notes_on_its_windows, lemma_row_views};
use crate::app::rows::{restamped, Rows, Stamp};
use crate::model::{
    project_at, project_at_is_first, ProjectView, SessionPresence, SessionReport, StatusSummary,
    WindowInfo, WindowNote, WorktreeView,
};
use crate::notices::Notices;
use crate::state::State;
use crate::table::Table;

verus! {

/// The row shows the last status of its worktree exactly where its session is
/// there and there is one.
pub open spec fn shows_status(w: WorktreeView, statuses: Table<SessionReport>) -> bool {
    &&& w.session != SessionPresence::Absent && statuses@.contains_key(w.id) ==> w.status == Some(
        statuses@[w.id].status,
    )
    &&& w.session == SessionPresence::Absent || !statuses@.contains_key(w.id) ==> w.status is None
}

/// The row shows the windows of its worktree's session exactly where it is there
/// and some are known.
pub open spec fn shows_windows(w: WorktreeView, windows: Table<Vec<WindowInfo>>) -> bool {
    &&& w.session != SessionPresence::Absent && windows@.contains_key("wt-"@ + w.id) ==> w.windows
        == windows@["wt-"@ + w.id]@
    &&& w.session == SessionPresence::Absent || !windows@.contains_key("wt-"@ + w.id)
        ==> w.windows.len() == 0
}

/// The row says that its session stopped exactly where it has none and one is
/// remembered.
pub open spec fn shows_stop(w: WorktreeView, state: State) -> bool {
    w.session_stopped <==> w.session == SessionPresence::Absent && exists|k: int|
        0 <= k < state.sessions@.len() && (#[trigger] state.sessions@[k]).worktree_id@ == w.id
}

/// The row shows what was said of its worktree in the windows it lists, and
/// nothing else.
pub open spec fn shows_notes(w: WorktreeView, notices: Notices) -> bool {
    forall|note: WindowNote| #[trigger]
        w.window_notes.contains(note) <==> exists|k: int, n: int|
            #![trigger notices.windows@[k], w.windows[n]]
            0 <= k < notices.windows@.len() && notices.windows@[k].0@ == w.id
                && notices.windows@[k].1 == note && 0 <= n < w.windows.len() && w.windows[n].index
                == note.index
}

proof fn lemma_shows_notes(w: WorktreeView, notices: Notices)
    requires
        Stamp::Notes(&notices).on(w) == w,
    ensures
        shows_notes(w, notices),
{
    assert forall|note: WindowNote| #[trigger]
        w.window_notes.contains(note) <==> exists|k: int, n: int|
            #![trigger notices.windows@[k], w.windows[n]]
            0 <= k < notices.windows@.len() && notices.windows@[k].0@ == w.id
                && notices.windows@[k].1 == note && 0 <= n < w.windows.len() && w.windows[n].index
                == note.index by {
        a_row_shows_the_notes_on_its_windows(notices.windows@, w.id, w.windows, note);
    }
}

/// What rows in step show, row by row: the status, the windows, the stop and the
/// notes that are held of their worktrees, and nothing that is not.
pub proof fn rows_in_step_show_what_is_held(rows: Rows, i: int, j: int)
    requires
        stamped(rows),
        0 <= i < rows.projects@.len(),
        0 <= j < rows.projects@[i].worktrees@.len(),
    ensures
        shows_status(rows.projects@[i].worktrees@[j]@, rows.statuses),
        shows_windows(rows.projects@[i].worktrees@[j]@, rows.windows),
        shows_stop(rows.projects@[i].worktrees@[j]@, rows.state),
        shows_notes(rows.projects@[i].worktrees@[j]@, rows.notices),
{
    lemma_row_views(rows, i);
    let w = rows.view_projects()[i].worktrees[j];
    assert(crate::app::invariants::project_settled(
        rows.view_projects()[i],
        rows.statuses,
        rows.windows,
        rows.notices,
    ));
    assert(crate::app::invariants::row_settled(w, rows.statuses, rows.windows, rows.notices));
    assert(Stamp::Stopped(&rows.state).on(w) == w);
    assert(Stamp::Windows(&rows.windows).on(w) == w);
    lemma_shows_notes(w, rows.notices);
}

/// Nothing of the row differs but what is stamped onto it.
pub open spec fn same_but_stamps(now: WorktreeView, was: WorktreeView) -> bool {
    now == (WorktreeView {
        session_stopped: now.session_stopped,
        status: now.status,
        windows: now.windows,
        window_notes: now.window_notes,
        ..was
    })
}

/// Nothing of the project differs but its rows.
pub open spec fn same_but_rows(now: ProjectView, was: ProjectView) -> bool {
    now == (ProjectView { worktrees: now.worktrees, ..was })
}

/// The row shows what is held of its worktree.
pub open spec fn shows(
    w: WorktreeView,
    state: State,
    statuses: Table<SessionReport>,
    windows: Table<Vec<WindowInfo>>,
    notices: Notices,
) -> bool {
    &&& shows_status(w, statuses)
    &&& shows_windows(w, windows)
    &&& shows_stop(w, state)
    &&& shows_notes(w, notices)
}

/// Stamping the rows makes each of them show what is held of its worktree, and
/// changes nothing else of it.
pub proof fn stamping_shows_what_is_held(
    projects: Seq<ProjectView>,
    state: State,
    statuses: Table<SessionReport>,
    windows: Table<Vec<WindowInfo>>,
    notices: Notices,
    i: int,
)
    requires
        0 <= i < projects.len(),
    ensures
        ({
            let now = restamped(projects, state, statuses, windows, notices);
            &&& now.len() == projects.len()
            &&& same_but_rows(now[i], projects[i])
            &&& now[i].worktrees.len() == projects[i].worktrees.len()
            &&& forall|j: int|
                0 <= j < projects[i].worktrees.len() ==> {
                    &&& same_but_stamps(#[trigger] now[i].worktrees[j], projects[i].worktrees[j])
                    &&& shows(now[i].worktrees[j], state, statuses, windows, notices)
                }
        }),
{
    let now = restamped(projects, state, statuses, windows, notices);
    assert forall|j: int| 0 <= j < projects[i].worktrees.len() implies {
        &&& same_but_stamps(#[trigger] now[i].worktrees[j], projects[i].worktrees[j])
        &&& shows(now[i].worktrees[j], state, statuses, windows, notices)
    } by {
        let w = now[i].worktrees[j];
        assert(Stamp::Windows(&windows).on(w) == w);
        assert(Stamp::Stopped(&state).on(w) == w);
        lemma_shows_notes(w, notices);
    }
}

/// Which sessions run decides what the rows show: each row's session is what was
/// found under its worktree's session name, absent where nothing was, and the row
/// shows what is held accordingly. Nothing else of it changes.
pub proof fn presence_is_shown(
    rows: Rows,
    after: Rows,
    presence: Table<SessionPresence>,
    i: int,
    j: int,
)
    requires
        rows.presence_applied(after, presence),
        0 <= i < rows.projects@.len(),
        0 <= j < rows.projects@[i].worktrees@.len(),
    ensures
        after.projects@.len() == rows.projects@.len(),
        after.projects@[i].worktrees@.len() == rows.projects@[i].worktrees@.len(),
        ({
            let was = rows.projects@[i].worktrees@[j]@;
            let now = after.projects@[i].worktrees@[j]@;
            let name = "wt-"@ + was.id;
            &&& presence@.contains_key(name) ==> now.session == presence@[name]
            &&& !presence@.contains_key(name) ==> now.session == SessionPresence::Absent
            &&& same_but_stamps(now, WorktreeView { session: now.session, ..was })
            &&& shows(now, rows.state, rows.statuses, rows.windows, rows.notices)
        }),
        same_but_rows(after.projects@[i]@, rows.projects@[i]@),
{
    lemma_row_views(rows, i);
    let found = Stamp::Presence(&presence).on_all(rows.view_projects());
    stamping_shows_what_is_held(
        found,
        rows.state,
        rows.statuses,
        rows.windows,
        rows.notices,
        i,
    );
    assert(after.view_projects().len() == after.projects@.len());
    lemma_row_views(after, i);
    let now = after.view_projects()[i].worktrees[j];
    assert(same_but_stamps(now, found[i].worktrees[j]));
}

/// The statuses of a poll take the place of the last ones: every row shows its own,
/// and changes in nothing else.
pub proof fn polled_statuses_are_shown(
    rows: Rows,
    after: Rows,
    statuses: Table<SessionReport>,
    i: int,
    j: int,
)
    requires
        rows.statuses_set(after, statuses),
        0 <= i < rows.projects@.len(),
        0 <= j < rows.projects@[i].worktrees@.len(),
    ensures
        after.statuses == statuses,
        after.projects@.len() == rows.projects@.len(),
        after.projects@[i].worktrees@.len() == rows.projects@[i].worktrees@.len(),
        ({
            let was = rows.projects@[i].worktrees@[j]@;
            let now = after.projects@[i].worktrees@[j]@;
            &&& now == (WorktreeView { status: now.status, ..was })
            &&& shows_status(now, statuses)
        }),
        same_but_rows(after.projects@[i]@, rows.projects@[i]@),
{
    lemma_row_views(rows, i);
    assert(after.view_projects().len() == after.projects@.len());
    lemma_row_views(after, i);
    let now = after.view_projects()[i].worktrees[j];
}

/// The windows of a poll take the place of the last ones: every row shows those of
/// its own session and the notes on them, and changes in nothing else.
pub proof fn polled_windows_are_shown(
    rows: Rows,
    after: Rows,
    windows: Table<Vec<WindowInfo>>,
    i: int,
    j: int,
)
    requires
        rows.windows_set(after, windows),
        0 <= i < rows.projects@.len(),
        0 <= j < rows.projects@[i].worktrees@.len(),
    ensures
        after.windows == windows,
        after.projects@.len() == rows.projects@.len(),
        after.projects@[i].worktrees@.len() == rows.projects@[i].worktrees@.len(),
        ({
            let was = rows.projects@[i].worktrees@[j]@;
            let now = after.projects@[i].worktrees@[j]@;
            &&& now == (WorktreeView {
                windows: now.windows,
                window_notes: now.window_notes,
                ..was
            })
            &&& shows_windows(now, windows)
            &&& shows_notes(now, rows.notices)
        }),
        same_but_rows(after.projects@[i]@, rows.projects@[i]@),
{
    lemma_row_views(rows, i);
    assert(after.view_projects().len() == after.projects@.len());
    lemma_row_views(after, i);
    let now = after.view_projects()[i].worktrees[j];
    lemma_shows_notes(now, rows.notices);
}

/// What git said is shown on the rows of the project it was asked for: a worktree
/// with a reading shows it, one without keeps what it had, and no other project
/// changes.
pub proof fn readings_are_shown_on_their_project(
    rows: Rows,
    after: Rows,
    project_id: Seq<char>,
    statuses: Table<StatusSummary>,
    i: int,
)
    requires
        rows.git_applied(after, project_id, statuses),
        0 <= i < rows.projects@.len(),
        forall|k: int| 0 <= k < i ==> (#[trigger] rows.projects@[k]).id@ != project_id,
    ensures
        after.projects@.len() == rows.projects@.len(),
        rows.projects@[i].id@ != project_id ==> after.projects@[i]@ == rows.projects@[i]@,
        rows.projects@[i].id@ == project_id ==> {
            &&& same_but_rows(after.projects@[i]@, rows.projects@[i]@)
            &&& after.projects@[i].worktrees@.len() == rows.projects@[i].worktrees@.len()
            &&& forall|j: int|
                0 <= j < rows.projects@[i].worktrees@.len() ==> {
                    let was = rows.projects@[i].worktrees@[j]@;
                    let now = (#[trigger] after.projects@[i].worktrees@[j])@;
                    &&& now == (WorktreeView { git_status: now.git_status, ..was })
                    &&& statuses@.contains_key(was.id) ==> now.git_status == Some(
                        statuses@[was.id],
                    )
                    &&& !statuses@.contains_key(was.id) ==> now.git_status == was.git_status
                }
        },
{
    lemma_row_views(rows, i);
    project_at_is_first(rows.view_projects(), project_id);
    assert forall|k: int| 0 <= k < i implies (#[trigger] rows.view_projects()[k]).id
        != project_id by {
        assert(rows.projects@[k].id@ != project_id);
    }
    assert(after.view_projects().len() == after.projects@.len());
    lemma_row_views(after, i);
    if rows.projects@[i].id@ == project_id {
        assert forall|j: int| 0 <= j < rows.projects@[i].worktrees@.len() implies {
            let was = rows.projects@[i].worktrees@[j]@;
            let now = (#[trigger] after.projects@[i].worktrees@[j])@;
            &&& now == (WorktreeView { git_status: now.git_status, ..was })
            &&& statuses@.contains_key(was.id) ==> now.git_status == Some(statuses@[was.id])
            &&& !statuses@.contains_key(was.id) ==> now.git_status == was.git_status
        } by {
            assert(rows.view_projects()[i].worktrees[j] == rows.projects@[i].worktrees@[j]@);
            assert(after.view_projects()[i].worktrees[j] == after.projects@[i].worktrees@[j]@);
        }
    }
}

/// Rows that were listed again take the place of the project's old ones and show
/// what is held of their worktrees; the project is no longer unavailable, and the
/// rows of every other project are those it had.
pub proof fn a_fresh_listing_replaces_the_rows(
    rows: Rows,
    after: Rows,
    project_id: Seq<char>,
    worktrees: Seq<WorktreeView>,
    i: int,
)
    requires
        rows.refreshed(after, project_id, worktrees),
        0 <= i < rows.projects@.len(),
        forall|k: int| 0 <= k < i ==> (#[trigger] rows.projects@[k]).id@ != project_id,
    ensures
        after.projects@.len() == rows.projects@.len(),
        ({
            let was = rows.projects@[i]@;
            let now = after.projects@[i]@;
            let listed = if was.id == project_id {
                worktrees
            } else {
                was.worktrees
            };
            &&& was.id == project_id ==> now.unavailable is None
            &&& was.id != project_id ==> now.unavailable == was.unavailable
            &&& now == (ProjectView {
                worktrees: now.worktrees,
                unavailable: now.unavailable,
                ..was
            })
            &&& now.worktrees.len() == listed.len()
            &&& forall|j: int|
                0 <= j < listed.len() ==> {
                    &&& same_but_stamps(#[trigger] now.worktrees[j], listed[j])
                    &&& shows(
                        now.worktrees[j],
                        rows.state,
                        rows.statuses,
                        rows.windows,
                        rows.notices,
                    )
                }
        }),
{
    lemma_row_views(rows, i);
    project_at_is_first(rows.view_projects(), project_id);
    assert forall|k: int| 0 <= k < i implies (#[trigger] rows.view_projects()[k]).id
        != project_id by {
        assert(rows.projects@[k].id@ != project_id);
    }
    let listed = match project_at(rows.view_projects(), project_id) {
        Some(at) => rows.view_projects().update(
            at,
            ProjectView { worktrees, unavailable: None, ..rows.view_projects()[at] },
        ),
        None => rows.view_projects(),
    };
    stamping_shows_what_is_held(
        listed,
        rows.state,
        rows.statuses,
        rows.windows,
        rows.notices,
        i,
    );
    assert(after.view_projects().len() == after.projects@.len());
    lemma_row_views(after, i);
}

/// A worktree that was forgotten has no cached status, and its rows show none; the
/// caches keep every other status, and every row its session.
pub proof fn a_forgotten_worktree_shows_no_status(
    rows: Rows,
    after: Rows,
    worktree_id: Seq<char>,
    i: int,
    j: int,
)
    requires
        rows.forgot(after, worktree_id),
        0 <= i < rows.projects@.len(),
        0 <= j < rows.projects@[i].worktrees@.len(),
    ensures
        !after.statuses@.contains_key(worktree_id),
        forall|other: Seq<char>|
            other != worktree_id ==> (#[trigger] after.statuses@.contains_key(other)
                == rows.statuses@.contains_key(other)) && (rows.statuses@.contains_key(other)
                ==> after.statuses@[other] == rows.statuses@[other]),
        after.projects@.len() == rows.projects@.len(),
        after.projects@[i].worktrees@.len() == rows.projects@[i].worktrees@.len(),
        ({
            let was = rows.projects@[i].worktrees@[j]@;
            let now = after.projects@[i].worktrees@[j]@;
            &&& was.id == worktree_id ==> now.status is None
            &&& same_but_stamps(now, was)
            &&& shows(now, rows.state, after.statuses, rows.windows, rows.notices)
        }),
{
    lemma_row_views(rows, i);
    stamping_shows_what_is_held(
        rows.view_projects(),
        rows.state,
        after.statuses,
        rows.windows,
        rows.notices,
        i,
    );
    assert(after.view_projects().len() == after.projects@.len());
    lemma_row_views(after, i);
    let now = after.view_projects()[i].worktrees[j];
    assert(same_but_stamps(now, rows.view_projects()[i].worktrees[j]));
}

/// A project that was opened stands where its row stood, or behind all the others,
/// with the worktrees it was opened with; the others stay what and where they were.
pub proof fn an_opened_project_takes_its_place(
    rows: Rows,
    after: Rows,
    project: ProjectView,
    line: Seq<char>,
    at: int,
)
    requires
        rows.project_added(after, project, line),
        0 <= at <= rows.projects@.len(),
        at < rows.projects@.len() ==> rows.projects@[at].id@ == project.id,
        forall|k: int| 0 <= k < at ==> (#[trigger] rows.projects@[k]).id@ != project.id,
    ensures
        after.projects@.len() == (if at < rows.projects@.len() {
            rows.projects@.len()
        } else {
            rows.projects@.len() + 1
        }),
        same_but_rows(after.projects@[at]@, project),
        after.projects@[at].worktrees@.len() == project.worktrees.len(),
        forall|j: int|
            0 <= j < project.worktrees.len() ==> same_but_stamps(
                (#[trigger] after.projects@[at].worktrees@[j])@,
                project.worktrees[j],
            ),
        forall|k: int|
            0 <= k < rows.projects@.len() && k != at ==> {
                &&& same_but_rows((#[trigger] after.projects@[k])@, rows.projects@[k]@)
                &&& after.projects@[k]@.worktrees.len() == rows.projects@[k]@.worktrees.len()
            },
        line == (if at < rows.projects@.len() {
            project.name + " is already open"@
        } else {
            "Registered "@ + project.name + " ("@ + crate::text::decimal(project.worktrees.len())
                + " worktrees)"@
        }),
{
    let before = rows.view_projects();
    project_at_is_first(before, project.id);
    assert forall|k: int| 0 <= k < at implies (#[trigger] before[k]).id != project.id by {
        assert(rows.projects@[k].id@ != project.id);
    }
    if at < rows.projects@.len() {
        assert(before[at].id == project.id);
    }
    let listed = if at < rows.projects@.len() {
        before.update(at, project)
    } else {
        before.push(project)
    };
    assert(after.view_projects().len() == after.projects@.len());
    assert forall|k: int| 0 <= k < listed.len() implies {
        &&& same_but_rows((#[trigger] after.projects@[k])@, listed[k])
        &&& after.projects@[k]@.worktrees.len() == listed[k].worktrees.len()
    } by {
        stamping_shows_what_is_held(
            listed,
            rows.state,
            rows.statuses,
            rows.windows,
            rows.notices,
            k,
        );
        lemma_row_views(after, k);
    }
    stamping_shows_what_is_held(
        listed,
        rows.state,
        rows.statuses,
        rows.windows,
        rows.notices,
        at,
    );
    lemma_row_views(after, at);
    assert forall|j: int| 0 <= j < project.worktrees.len() implies same_but_stamps(
        (#[trigger] after.projects@[at].worktrees@[j])@,
        project.worktrees[j],
    ) by {
        assert(after.view_projects()[at].worktrees[j] == after.projects@[at].worktrees@[j]@);
        assert(listed[at].worktrees[j] == project.worktrees[j]);
    }
}

}
