//! What a snapshot of what is remembered, and a pass over the repositories, make of
//! the rows; and what the rows are called and numbered.
use vstd::prelude::*;
use vstd::string::*;

use crate::app::invariants::lemma_joined_lists;
use crate::app::reports::{lemma_row_views, same_text};
use crate::app::rows::{
    holder_at, is_listed, labels_of, labels_with, lemma_joined_extends, lemma_reconciled_shape,
    listed_ids, rows_joined, rows_kept, rows_reconciled, ProjectStatus, Rows,
};
use crate::app::stamps::{same_but_rows, same_but_stamps, shows, stamping_shows_what_is_held};
use crate::model::{
    project_at, project_at_is_first, worktree_at_is_first, worktree_views, ProjectView,
    WindowNote, WorktreeView,
};
use crate::notices::notes_among;
use crate::state::{record_at, record_at_is_first, slot_of, ProjectRecord, State};

verus! {

/// The project is called, placed and folded as its record says.
pub open spec fn follows(p: ProjectView, record: ProjectRecord) -> bool {
    &&& p.id == record.id@
    &&& p.name == record.name@
    &&& p.repository_path == record.repository_path@
    &&& p.git_common_dir == record.git_common_dir@
    &&& p.default_worktree_path == record.default_worktree_path@
    &&& p.is_expanded == record.is_expanded
}

/// `at` is the place of the first record of the project.
pub open spec fn first_record(records: Seq<ProjectRecord>, id: Seq<char>, at: int) -> bool {
    &&& 0 <= at < records.len()
    &&& records[at].id@ == id
    &&& forall|k: int| 0 <= k < at ==> (#[trigger] records[k]).id@ != id
}

/// The first snapshot makes the rows: one for each record, in order, as the record
/// says, without worktrees yet.
pub proof fn the_first_snapshot_makes_the_rows(rows: Rows, after: Rows, state: State, i: int)
    requires
        rows.state_taken(after, state, true),
        0 <= i < state.projects@.len(),
    ensures
        after.projects@.len() == state.projects@.len(),
        follows(after.projects@[i]@, state.projects@[i]),
        after.projects@[i].worktrees@.len() == 0,
        after.projects@[i].unavailable is None,
{
    assert(after.view_projects().len() == after.projects@.len());
    lemma_row_views(after, i);
}

proof fn lemma_kept_place(projects: Seq<ProjectView>, records: Seq<ProjectRecord>, i: int, at: int)
    -> (k: int)
    requires
        0 <= i < projects.len(),
        first_record(records, projects[i].id, at),
    ensures
        0 <= k < rows_kept(projects, records).len(),
        follows(rows_kept(projects, records)[k], records[at]),
        rows_kept(projects, records)[k].worktrees == projects[i].worktrees,
        rows_kept(projects, records)[k].unavailable == projects[i].unavailable,
    decreases projects.len(),
{
    let init = projects.drop_last();
    if i < init.len() {
        lemma_kept_place(init, records, i, at)
    } else {
        record_at_is_first(records, projects[i].id);
        rows_kept(init, records).len() as int
    }
}

proof fn lemma_joined_place(projects: Seq<ProjectView>, records: Seq<ProjectRecord>, at: int) -> (k:
    int)
    requires
        0 <= at < records.len(),
        forall|m: int| 0 <= m < at ==> (#[trigger] records[m]).id@ != records[at].id@,
        project_at(projects, records[at].id@) is None,
    ensures
        0 <= k < rows_joined(projects, records).len(),
        follows(rows_joined(projects, records)[k], records[at]),
        rows_joined(projects, records)[k].worktrees.len() == 0,
        rows_joined(projects, records)[k].unavailable is None,
    decreases records.len(),
{
    let init = records.drop_last();
    if at < init.len() {
        assert forall|m: int| 0 <= m < at implies (#[trigger] init[m]).id@ != init[at].id@ by {
            assert(records[m].id@ != records[at].id@);
        }
        lemma_joined_place(projects, init, at)
    } else {
        lemma_joined_lists(projects, init, records[at].id@);
        record_at_is_first(init, records[at].id@);
        assert(record_at(init, records[at].id@) is None) by {
            if let Some(m) = record_at(init, records[at].id@) {
                assert(records[m].id@ == records[at].id@);
            }
        }
        rows_joined(projects, init).len() as int
    }
}

/// A later snapshot keeps the row of a project that is remembered: it is called,
/// placed and folded as the first record of its project says, and keeps its
/// worktrees, but for whether their sessions stopped.
pub proof fn a_snapshot_renames_and_keeps(
    rows: Rows,
    after: Rows,
    state: State,
    i: int,
    at: int,
) -> (k: int)
    requires
        rows.state_taken(after, state, false),
        0 <= i < rows.projects@.len(),
        first_record(state.projects@, rows.projects@[i].id@, at),
    ensures
        0 <= k < after.projects@.len(),
        follows(after.projects@[k]@, state.projects@[at]),
        same_text(after.projects@[k].unavailable, rows.projects@[i].unavailable),
        after.projects@[k].worktrees@.len() == rows.projects@[i].worktrees@.len(),
        forall|j: int|
            0 <= j < rows.projects@[i].worktrees@.len() ==> {
                let was = rows.projects@[i].worktrees@[j]@;
                let now = (#[trigger] after.projects@[k].worktrees@[j])@;
                &&& now == (WorktreeView { session_stopped: now.session_stopped, ..was })
                &&& crate::app::stamps::shows_stop(now, state)
            },
{
    lemma_row_views(rows, i);
    let before = rows.view_projects();
    let records = state.projects@;
    let k = lemma_kept_place(before, records, i, at);
    lemma_joined_extends(rows_kept(before, records), records);
    let joined = rows_joined(rows_kept(before, records), records);
    assert(joined[k] == rows_kept(before, records)[k]);
    assert(after.view_projects().len() == after.projects@.len());
    lemma_row_views(after, k);
    assert forall|j: int| 0 <= j < rows.projects@[i].worktrees@.len() implies {
        let was = rows.projects@[i].worktrees@[j]@;
        let now = (#[trigger] after.projects@[k].worktrees@[j])@;
        &&& now == (WorktreeView { session_stopped: now.session_stopped, ..was })
        &&& crate::app::stamps::shows_stop(now, state)
    } by {
        assert(after.view_projects()[k].worktrees[j] == after.projects@[k].worktrees@[j]@);
        assert(before[i].worktrees[j] == rows.projects@[i].worktrees@[j]@);
    }
    k
}

/// A later snapshot gives a project that is remembered and not listed a row of its
/// own, as its first record says, without worktrees yet.
pub proof fn a_snapshot_lists_a_new_project(rows: Rows, after: Rows, state: State, at: int) -> (k:
    int)
    requires
        rows.state_taken(after, state, false),
        0 <= at < state.projects@.len(),
        first_record(state.projects@, state.projects@[at].id@, at),
        forall|i: int|
            0 <= i < rows.projects@.len() ==> (#[trigger] rows.projects@[i]).id@
                != state.projects@[at].id@,
    ensures
        0 <= k < after.projects@.len(),
        follows(after.projects@[k]@, state.projects@[at]),
        after.projects@[k].worktrees@.len() == 0,
        after.projects@[k].unavailable is None,
{
    let before = rows.view_projects();
    let records = state.projects@;
    let id = records[at].id@;
    project_at_is_first(rows_kept(before, records), id);
    if project_at(rows_kept(before, records), id) is Some {
        lemma_kept_from(before, records, id);
        let i = choose|i: int| 0 <= i < before.len() && (#[trigger] before[i]).id == id;
        assert(rows.projects@[i].id@ == id);
    }
    let k = lemma_joined_place(rows_kept(before, records), records, at);
    assert(after.view_projects().len() == after.projects@.len());
    lemma_row_views(after, k);
    k
}

proof fn lemma_kept_from(projects: Seq<ProjectView>, records: Seq<ProjectRecord>, id: Seq<char>)
    requires
        project_at(rows_kept(projects, records), id) is Some,
    ensures
        exists|i: int| 0 <= i < projects.len() && (#[trigger] projects[i]).id == id,
    decreases projects.len(),
{
    let kept = rows_kept(projects, records);
    project_at_is_first(kept, id);
    if projects.len() > 0 {
        let init = projects.drop_last();
        if projects.last().id == id {
            assert(projects[projects.len() - 1].id == id);
        } else {
            let at = project_at(kept, id)->0;
            project_at_is_first(rows_kept(init, records), id);
            assert(rows_kept(init, records)[at].id == id);
            lemma_kept_from(init, records, id);
            let i = choose|i: int| 0 <= i < init.len() && (#[trigger] init[i]).id == id;
            assert(projects[i].id == id);
        }
    }
}

/// A later snapshot drops the projects that are not remembered: every row after it
/// has a record.
pub proof fn a_snapshot_drops_what_is_not_remembered(
    rows: Rows,
    after: Rows,
    state: State,
    k: int,
)
    requires
        rows.state_taken(after, state, false),
        0 <= k < after.projects@.len(),
    ensures
        exists|at: int|
            0 <= at < state.projects@.len() && (#[trigger] state.projects@[at]).id@
                == after.projects@[k].id@,
{
    let before = rows.view_projects();
    let records = state.projects@;
    let id = after.projects@[k].id@;
    assert(after.view_projects().len() == after.projects@.len());
    lemma_row_views(after, k);
    let joined = rows_joined(rows_kept(before, records), records);
    assert(joined[k].id == id);
    project_at_is_first(joined, id);
    crate::app::invariants::a_snapshot_lists_what_is_remembered(before, records, id);
    record_at_is_first(records, id);
    let at = record_at(records, id)->0;
    assert(records[at].id@ == id);
}

proof fn lemma_reconciled_row(
    projects: Seq<ProjectView>,
    statuses: Seq<ProjectStatus>,
    i: int,
    k: int,
)
    requires
        0 <= i < projects.len(),
        forall|m: int| 0 <= m < i ==> (#[trigger] projects[m]).id != projects[i].id,
        -1 <= k < statuses.len(),
        k >= 0 ==> statuses[k].id@ == projects[i].id,
        forall|m: int|
            k < m < statuses.len() ==> (#[trigger] statuses[m]).id@ != projects[i].id,
        k >= 0 ==> statuses[k].unavailable is None,
    ensures
        rows_reconciled(projects, statuses).len() == projects.len(),
        k >= 0 ==> rows_reconciled(projects, statuses)[i].worktrees == worktree_views(
            statuses[k].worktrees@,
        ) && rows_reconciled(projects, statuses)[i].unavailable is None,
        k < 0 ==> rows_reconciled(projects, statuses)[i] == projects[i],
    decreases statuses.len(),
{
    if statuses.len() > 0 {
        let init = statuses.drop_last();
        let last = statuses.last();
        let before = rows_reconciled(projects, init);
        lemma_reconciled_shape(projects, init);
        project_at_is_first(before, last.id@);
        if k == statuses.len() - 1 {
            assert(before[i].id == last.id@);
            assert forall|m: int| 0 <= m < i implies (#[trigger] before[m]).id != last.id@ by {
                assert(projects[m].id != projects[i].id);
            }
        } else {
            assert(statuses[statuses.len() - 1].id@ != projects[i].id);
            assert forall|m: int|
                k < m < init.len() implies (#[trigger] init[m]).id@ != projects[i].id by {
                assert(statuses[m].id@ != projects[i].id);
            }
            lemma_reconciled_row(projects, init, i, k);
            assert(before[i].id == projects[i].id);
        }
    }
}

/// A pass that could read a project replaces its rows with what it found last, and
/// they show what is held of their worktrees; a row of a project the pass says
/// nothing of keeps its worktrees. No pass renames, moves or folds a project.
pub proof fn a_pass_replaces_the_rows_it_could_read(
    rows: Rows,
    after: Rows,
    statuses: Seq<ProjectStatus>,
    state: State,
    i: int,
    k: int,
)
    requires
        rows.reconciled(after, statuses, state),
        0 <= i < rows.projects@.len(),
        forall|m: int| 0 <= m < i ==> (#[trigger] rows.projects@[m]).id@ != rows.projects@[i].id@,
        -1 <= k < statuses.len(),
        k >= 0 ==> statuses[k].id@ == rows.projects@[i].id@ && statuses[k].unavailable is None,
        forall|m: int|
            k < m < statuses.len() ==> (#[trigger] statuses[m]).id@ != rows.projects@[i].id@,
    ensures
        after.projects@.len() == rows.projects@.len(),
        ({
            let was = rows.projects@[i]@;
            let now = after.projects@[i]@;
            let found = if k >= 0 {
                worktree_views(statuses[k].worktrees@)
            } else {
                was.worktrees
            };
            &&& now.id == was.id
            &&& now.name == was.name
            &&& k >= 0 ==> now.unavailable is None
            &&& k < 0 ==> same_but_rows(now, was)
            &&& now.worktrees.len() == found.len()
            &&& forall|j: int|
                0 <= j < found.len() ==> {
                    &&& same_but_stamps(#[trigger] now.worktrees[j], found[j])
                    &&& shows(now.worktrees[j], state, rows.statuses, rows.windows, after.notices)
                }
        }),
{
    let before = rows.view_projects();
    lemma_row_views(rows, i);
    assert forall|m: int| 0 <= m < i implies (#[trigger] before[m]).id != before[i].id by {
        assert(rows.projects@[m].id@ != rows.projects@[i].id@);
    }
    lemma_reconciled_row(before, statuses, i, k);
    lemma_reconciled_shape(before, statuses);
    stamping_shows_what_is_held(
        rows_reconciled(before, statuses),
        state,
        rows.statuses,
        rows.windows,
        after.notices,
        i,
    );
    assert(after.view_projects().len() == after.projects@.len());
    lemma_row_views(after, i);
}

proof fn lemma_unavailable_row(
    projects: Seq<ProjectView>,
    statuses: Seq<ProjectStatus>,
    i: int,
    k: int,
)
    requires
        0 <= i < projects.len(),
        forall|m: int| 0 <= m < i ==> (#[trigger] projects[m]).id != projects[i].id,
        0 <= k < statuses.len(),
        statuses[k].id@ == projects[i].id,
        statuses[k].unavailable is Some,
        forall|m: int|
            k < m < statuses.len() ==> (#[trigger] statuses[m]).id@ != projects[i].id,
    ensures
        rows_reconciled(projects, statuses).len() == projects.len(),
        rows_reconciled(projects, statuses)[i].unavailable == Some(statuses[k].unavailable->0@),
    decreases statuses.len(),
{
    let init = statuses.drop_last();
    let last = statuses.last();
    let before = rows_reconciled(projects, init);
    lemma_reconciled_shape(projects, init);
    project_at_is_first(before, last.id@);
    if k == statuses.len() - 1 {
        assert(before[i].id == last.id@);
        assert forall|m: int| 0 <= m < i implies (#[trigger] before[m]).id != last.id@ by {
            assert(projects[m].id != projects[i].id);
        }
    } else {
        assert(statuses[statuses.len() - 1].id@ != projects[i].id);
        assert forall|m: int|
            k < m < init.len() implies (#[trigger] init[m]).id@ != projects[i].id by {
            assert(statuses[m].id@ != projects[i].id);
        }
        lemma_unavailable_row(projects, init, i, k);
        assert(before[i].id == projects[i].id);
    }
}

/// A project that a pass could not read says why, in the words of the pass.
pub proof fn a_pass_says_why_it_could_not_read(
    rows: Rows,
    after: Rows,
    statuses: Seq<ProjectStatus>,
    state: State,
    i: int,
    k: int,
)
    requires
        rows.reconciled(after, statuses, state),
        0 <= i < rows.projects@.len(),
        forall|m: int| 0 <= m < i ==> (#[trigger] rows.projects@[m]).id@ != rows.projects@[i].id@,
        0 <= k < statuses.len(),
        statuses[k].id@ == rows.projects@[i].id@,
        statuses[k].unavailable is Some,
        forall|m: int|
            k < m < statuses.len() ==> (#[trigger] statuses[m]).id@ != rows.projects@[i].id@,
    ensures
        after.projects@.len() == rows.projects@.len(),
        after.projects@[i].unavailable is Some,
        after.projects@[i].unavailable->0@ == statuses[k].unavailable->0@,
{
    let before = rows.view_projects();
    lemma_row_views(rows, i);
    assert forall|m: int| 0 <= m < i implies (#[trigger] before[m]).id != before[i].id by {
        assert(rows.projects@[m].id@ != rows.projects@[i].id@);
    }
    lemma_unavailable_row(before, statuses, i, k);
    assert(after.view_projects().len() == after.projects@.len());
    lemma_row_views(after, i);
}

/// Some row is of the worktree.
pub open spec fn has_row(projects: Seq<ProjectView>, id: Seq<char>) -> bool {
    exists|i: int, j: int|
        0 <= i < projects.len() && 0 <= j < projects[i].worktrees.len() && (
        #[trigger] projects[i].worktrees[j]).id == id
}

proof fn lemma_listed(projects: Seq<ProjectView>, id: Seq<char>)
    ensures
        is_listed(projects, id) <==> has_row(projects, id),
{
    if is_listed(projects, id) {
        let i = choose|i: int|
            0 <= i < projects.len() && crate::model::worktree_at(
                (#[trigger] projects[i]).worktrees,
                id,
            ) is Some;
        worktree_at_is_first(projects[i].worktrees, id);
        let j = crate::model::worktree_at(projects[i].worktrees, id)->0;
        assert(projects[i].worktrees[j].id == id);
    }
    if has_row(projects, id) {
        let (i, j) = choose|i: int, j: int|
            0 <= i < projects.len() && 0 <= j < projects[i].worktrees.len() && (
            #[trigger] projects[i].worktrees[j]).id == id;
        worktree_at_is_first(projects[i].worktrees, id);
        assert(crate::model::worktree_at((projects[i]).worktrees, id) is Some);
    }
}

proof fn lemma_among(notes: Seq<(String, WindowNote)>, ids: Set<Seq<char>>, entry: (
    String,
    WindowNote,
))
    ensures
        notes_among(notes, ids).contains(entry) <==> notes.contains(entry) && ids.contains(
            entry.0@,
        ),
    decreases notes.len(),
{
    if notes.len() > 0 {
        let init = notes.drop_last();
        lemma_among(init, ids, entry);
        assert(notes =~= init.push(notes.last()));
        crate::text::contains_pushed(init, notes.last(), entry);
        crate::text::contains_pushed(notes_among(init, ids), notes.last(), entry);
    }
}

/// A pass forgets what was said of worktrees that are not listed any more, and of
/// no other.
pub proof fn a_pass_forgets_what_is_gone(
    rows: Rows,
    after: Rows,
    statuses: Seq<ProjectStatus>,
    state: State,
    id: Seq<char>,
    entry: (String, WindowNote),
)
    requires
        rows.reconciled(after, statuses, state),
    ensures
        after.notices.worktrees@.contains_key(id) <==> rows.notices.worktrees@.contains_key(id)
            && has_row(after.view_projects(), id),
        after.notices.worktrees@.contains_key(id) ==> after.notices.worktrees@[id]
            == rows.notices.worktrees@[id],
        after.notices.windows@.contains(entry) <==> rows.notices.windows@.contains(entry)
            && has_row(after.view_projects(), entry.0@),
{
    let found = rows_reconciled(rows.view_projects(), statuses);
    let now = after.view_projects();
    lemma_among(rows.notices.windows@, listed_ids(found), entry);
    lemma_listed(found, id);
    lemma_listed(found, entry.0@);
    lemma_same_rows(found, now, rows, after, state, id);
    lemma_same_rows(found, now, rows, after, state, entry.0@);
}

proof fn lemma_same_rows(
    found: Seq<ProjectView>,
    now: Seq<ProjectView>,
    rows: Rows,
    after: Rows,
    state: State,
    id: Seq<char>,
)
    requires
        now == crate::app::rows::restamped(
            found,
            state,
            rows.statuses,
            rows.windows,
            after.notices,
        ),
    ensures
        has_row(now, id) <==> has_row(found, id),
{
    assert(now.len() == found.len());
    if has_row(now, id) {
        let (i, j) = choose|i: int, j: int|
            0 <= i < now.len() && 0 <= j < now[i].worktrees.len() && (
            #[trigger] now[i].worktrees[j]).id == id;
        assert(found[i].worktrees[j].id == id);
    }
    if has_row(found, id) {
        let (i, j) = choose|i: int, j: int|
            0 <= i < found.len() && 0 <= j < found[i].worktrees.len() && (
            #[trigger] found[i].worktrees[j]).id == id;
        assert(now[i].worktrees[j].id == id);
    }
}

proof fn lemma_slot_first(slots: Seq<(u8, String)>, number: u8)
    ensures
        match slot_of(slots, number) {
            Some(id) => exists|k: int|
                0 <= k < slots.len() && (#[trigger] slots[k]).0 == number && slots[k].1@ == id
                    && forall|m: int| 0 <= m < k ==> (#[trigger] slots[m]).0 != number,
            None => forall|k: int| 0 <= k < slots.len() ==> (#[trigger] slots[k]).0 != number,
        },
    decreases slots.len(),
{
    if slots.len() > 0 {
        let init = slots.drop_last();
        lemma_slot_first(init, number);
        assert forall|k: int| 0 <= k < init.len() implies init[k] == #[trigger] slots[k] by {}
        match slot_of(init, number) {
            Some(id) => {
                let k = choose|k: int|
                    0 <= k < init.len() && (#[trigger] init[k]).0 == number && init[k].1@ == id
                        && forall|m: int| 0 <= m < k ==> (#[trigger] init[m]).0 != number;
                assert(slots[k].0 == number);
                assert forall|m: int| 0 <= m < k implies (#[trigger] slots[m]).0 != number by {
                    assert(init[m].0 != number);
                }
            },
            None => {
                assert forall|m: int| 0 <= m < init.len() implies (#[trigger] slots[m]).0
                    != number by {
                    assert(init[m].0 != number);
                }
                assert(slots[slots.len() - 1] == slots.last());
            },
        }
    }
}

proof fn lemma_holder_first(projects: Seq<ProjectView>, id: Seq<char>)
    ensures
        match holder_at(projects, id) {
            Some(i) => {
                &&& 0 <= i < projects.len()
                &&& exists|j: int|
                    0 <= j < projects[i].worktrees.len() && (#[trigger] projects[i].worktrees[j]).id
                        == id
                &&& forall|m: int, j: int|
                    #![trigger projects[m].worktrees[j]]
                    0 <= m < i && 0 <= j < projects[m].worktrees.len()
                        ==> projects[m].worktrees[j].id != id
            },
            None => forall|m: int, j: int|
                #![trigger projects[m].worktrees[j]]
                0 <= m < projects.len() && 0 <= j < projects[m].worktrees.len()
                    ==> projects[m].worktrees[j].id != id,
        },
    decreases projects.len(),
{
    if projects.len() > 0 {
        let init = projects.drop_last();
        let last = projects.last();
        lemma_holder_first(init, id);
        worktree_at_is_first(last.worktrees, id);
        assert forall|k: int| 0 <= k < init.len() implies init[k] == #[trigger] projects[k] by {}
        assert(projects[projects.len() - 1] == last);
        match holder_at(init, id) {
            Some(i) => {
                let j = choose|j: int|
                    0 <= j < init[i].worktrees.len() && (#[trigger] init[i].worktrees[j]).id == id;
                assert(projects[i].worktrees[j].id == id);
                assert forall|m: int, j: int|
                    #![trigger projects[m].worktrees[j]]
                    0 <= m < i && 0 <= j
                        < projects[m].worktrees.len() implies projects[m].worktrees[j].id != id by {
                    assert(init[m].worktrees[j].id != id);
                }
            },
            None => {
                assert forall|m: int, j: int|
                    #![trigger projects[m].worktrees[j]]
                    0 <= m < init.len() && 0 <= j
                        < projects[m].worktrees.len() implies projects[m].worktrees[j].id != id by {
                    assert(init[m].worktrees[j].id != id);
                }
                if let Some(j) = crate::model::worktree_at(last.worktrees, id) {
                    assert(projects[projects.len() - 1].worktrees[j].id == id);
                }
            },
        }
    }
}

/// A number points at the worktree its first assignment names, in the first project
/// that lists it; it points at nothing only where it was not given, or where the
/// worktree it was given to is not listed.
pub proof fn a_number_points_at_a_listed_row(rows: Rows, slot: u8)
    ensures
        match rows.target(slot) {
            Some((project_id, worktree_id)) => {
                &&& exists|k: int|
                    0 <= k < rows.state.slots@.len() && (#[trigger] rows.state.slots@[k]).0 == slot
                        && rows.state.slots@[k].1@ == worktree_id
                &&& exists|i: int, j: int|
                    0 <= i < rows.view_projects().len() && rows.view_projects()[i].id == project_id
                        && 0 <= j < rows.view_projects()[i].worktrees.len() && (
                    #[trigger] rows.view_projects()[i].worktrees[j]).id == worktree_id
            },
            None => forall|k: int|
                0 <= k < rows.state.slots@.len() && (#[trigger] rows.state.slots@[k]).0 == slot && (
                forall|m: int| 0 <= m < k ==> (#[trigger] rows.state.slots@[m]).0 != slot)
                    ==> !has_row(rows.view_projects(), rows.state.slots@[k].1@),
        },
{
    lemma_slot_first(rows.state.slots@, slot);
    if let Some(id) = slot_of(rows.state.slots@, slot) {
        lemma_holder_first(rows.view_projects(), id);
        if let Some(i) = holder_at(rows.view_projects(), id) {
            let j = choose|j: int|
                0 <= j < rows.view_projects()[i].worktrees.len() && (
                #[trigger] rows.view_projects()[i].worktrees[j]).id == id;
            assert(rows.view_projects()[i].worktrees[j].id == id);
        }
    }
}

proof fn lemma_labels_listed(
    base: Map<Seq<char>, (Seq<char>, Seq<char>)>,
    project: Seq<char>,
    rows: Seq<WorktreeView>,
    id: Seq<char>,
)
    ensures
        labels_with(base, project, rows).contains_key(id) <==> base.contains_key(id) || exists|
            j: int,
        |
            0 <= j < rows.len() && (#[trigger] rows[j]).id == id,
    decreases rows.len(),
{
    if rows.len() > 0 {
        let init = rows.drop_last();
        lemma_labels_listed(base, project, init, id);
        assert(rows[rows.len() - 1] == rows.last());
        if exists|j: int| 0 <= j < init.len() && (#[trigger] init[j]).id == id {
            let j = choose|j: int| 0 <= j < init.len() && (#[trigger] init[j]).id == id;
            assert(rows[j].id == id);
        }
        if exists|j: int| 0 <= j < rows.len() && (#[trigger] rows[j]).id == id {
            let j = choose|j: int| 0 <= j < rows.len() && (#[trigger] rows[j]).id == id;
            if j < init.len() {
                assert(init[j].id == id);
            }
        }
    }
}

proof fn lemma_labels_passed(
    base: Map<Seq<char>, (Seq<char>, Seq<char>)>,
    project: Seq<char>,
    rows: Seq<WorktreeView>,
    id: Seq<char>,
)
    requires
        forall|j: int| 0 <= j < rows.len() ==> (#[trigger] rows[j]).id != id,
        base.contains_key(id),
    ensures
        labels_with(base, project, rows).contains_key(id),
        labels_with(base, project, rows)[id] == base[id],
    decreases rows.len(),
{
    if rows.len() > 0 {
        let init = rows.drop_last();
        assert forall|j: int| 0 <= j < init.len() implies (#[trigger] init[j]).id != id by {
            assert(rows[j].id != id);
        }
        lemma_labels_passed(base, project, init, id);
        assert(rows[rows.len() - 1].id != id);
    }
}

proof fn lemma_labels_own(
    base: Map<Seq<char>, (Seq<char>, Seq<char>)>,
    project: Seq<char>,
    rows: Seq<WorktreeView>,
    j: int,
)
    requires
        0 <= j < rows.len(),
        forall|m: int| j < m < rows.len() ==> (#[trigger] rows[m]).id != rows[j].id,
    ensures
        labels_with(base, project, rows).contains_key(rows[j].id),
        labels_with(base, project, rows)[rows[j].id] == (project, rows[j].label),
    decreases rows.len(),
{
    let init = rows.drop_last();
    if j < init.len() {
        assert forall|m: int| j < m < init.len() implies (#[trigger] init[m]).id != init[j].id by {
            assert(rows[m].id != rows[j].id);
        }
        lemma_labels_own(base, project, init, j);
        assert(rows[rows.len() - 1].id != rows[j].id);
    }
}

/// A worktree is called by its project's name and its own label: of the last row
/// that lists it, where more than one does. A worktree without a row is not called
/// anything.
pub proof fn a_worktree_is_called_by_its_row(projects: Seq<ProjectView>, i: int, j: int)
    requires
        0 <= i < projects.len(),
        0 <= j < projects[i].worktrees.len(),
        forall|m: int|
            j < m < projects[i].worktrees.len() ==> (#[trigger] projects[i].worktrees[m]).id
                != projects[i].worktrees[j].id,
        forall|k: int, m: int|
            #![trigger projects[k].worktrees[m]]
            i < k < projects.len() && 0 <= m < projects[k].worktrees.len()
                ==> projects[k].worktrees[m].id != projects[i].worktrees[j].id,
    ensures
        labels_of(projects).contains_key(projects[i].worktrees[j].id),
        labels_of(projects)[projects[i].worktrees[j].id] == (
            projects[i].name,
            projects[i].worktrees[j].label,
        ),
    decreases projects.len(),
{
    let init = projects.drop_last();
    let last = projects.last();
    let id = projects[i].worktrees[j].id;
    if i < init.len() {
        assert forall|m: int|
            j < m < init[i].worktrees.len() implies (#[trigger] init[i].worktrees[m]).id != id by {
            assert(projects[i].worktrees[m].id != id);
        }
        assert forall|k: int, m: int|
            #![trigger init[k].worktrees[m]]
            i < k < init.len() && 0 <= m
                < init[k].worktrees.len() implies init[k].worktrees[m].id != id by {
            assert(projects[k].worktrees[m].id != id);
        }
        a_worktree_is_called_by_its_row(init, i, j);
        assert forall|m: int| 0 <= m < last.worktrees.len() implies (#[trigger] last.worktrees[m]).id
            != id by {
            assert(projects[projects.len() - 1].worktrees[m].id != id);
        }
        lemma_labels_passed(labels_of(init), last.name, last.worktrees, id);
    } else {
        assert(last.worktrees[j].id == id);
        assert forall|m: int|
            j < m < last.worktrees.len() implies (#[trigger] last.worktrees[m]).id != id by {
            assert(projects[i].worktrees[m].id != id);
        }
        lemma_labels_own(labels_of(init), last.name, last.worktrees, j);
    }
}

/// Only worktrees with a row are called anything.
pub proof fn only_listed_worktrees_are_called(projects: Seq<ProjectView>, id: Seq<char>)
    ensures
        labels_of(projects).contains_key(id) <==> has_row(projects, id),
    decreases projects.len(),
{
    if projects.len() > 0 {
        let init = projects.drop_last();
        let last = projects.last();
        only_listed_worktrees_are_called(init, id);
        lemma_labels_listed(labels_of(init), last.name, last.worktrees, id);
        if has_row(init, id) {
            let (i, j) = choose|i: int, j: int|
                0 <= i < init.len() && 0 <= j < init[i].worktrees.len() && (
                #[trigger] init[i].worktrees[j]).id == id;
            assert(projects[i].worktrees[j].id == id);
        }
        if exists|j: int| 0 <= j < last.worktrees.len() && (#[trigger] last.worktrees[j]).id == id {
            let j = choose|j: int|
                0 <= j < last.worktrees.len() && (#[trigger] last.worktrees[j]).id == id;
            assert(projects[projects.len() - 1].worktrees[j].id == id);
        }
        if has_row(projects, id) {
            let (i, j) = choose|i: int, j: int|
                0 <= i < projects.len() && 0 <= j < projects[i].worktrees.len() && (
                #[trigger] projects[i].worktrees[j]).id == id;
            if i < init.len() {
                assert(init[i].worktrees[j].id == id);
            } else {
                assert(last.worktrees[j].id == id);
            }
        }
    }
}

}
