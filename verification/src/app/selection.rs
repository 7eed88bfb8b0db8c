//! What the list has selected, and what the keyboard does to it.
//!
//! Exactly one row in the tree is ever drawn as selected, so the highlight of a
//! window survives only while its own worktree is the selected one.
use vstd::prelude::*;

use crate::model::{project_views, Project, ProjectView, WorktreeView};
use crate::text::{lower, to_lower, trim, trimmed};
use crate::ui::project_list::{
    entry_of, matches_filter, matching, matching_places, EntryView,
};

verus! {

/// The selected row, and the filter that decides which rows can be walked.
#[derive(Debug)]
pub struct Selection {
    pub worktree: Option<String>,
    /// The window row that was last opened, as (worktree id, window index).
    pub window: Option<(String, u32)>,
    pub filter: String,
}

pub struct SelectionView {
    pub worktree: Option<Seq<char>>,
    pub window: Option<(Seq<char>, u32)>,
    pub filter: Seq<char>,
}

impl View for Selection {
    type V = SelectionView;

    open spec fn view(&self) -> SelectionView {
        SelectionView {
            worktree: match self.worktree {
                Some(id) => Some(id@),
                None => None,
            },
            window: match self.window {
                Some((id, index)) => Some((id@, index)),
                None => None,
            },
            filter: self.filter@,
        }
    }
}

impl SelectionView {
    /// Only one row looks selected: a highlighted window is one of the selected
    /// worktree's.
    pub open spec fn single(self) -> bool {
        self.window matches Some(w) ==> self.worktree == Some(w.0)
    }

    /// The selection moved to a worktree: a window highlight of another one is
    /// dropped.
    pub open spec fn selecting(self, id: Seq<char>) -> SelectionView {
        SelectionView {
            worktree: Some(id),
            window: match self.window {
                Some(w) => if w.0 == id {
                    Some(w)
                } else {
                    None
                },
                None => None,
            },
            filter: self.filter,
        }
    }
}

/// The rows of one project that the filter shows, as (project id, worktree id).
pub open spec fn shown_rows(
    project: Seq<char>,
    project_name: Seq<char>,
    worktrees: Seq<WorktreeView>,
    needle: Seq<char>,
) -> Seq<(Seq<char>, Seq<char>)>
    decreases worktrees.len(),
{
    if worktrees.len() == 0 {
        Seq::empty()
    } else {
        let before = shown_rows(project, project_name, worktrees.drop_last(), needle);
        if matching(project_name, worktrees.last(), needle) {
            before.push((project, worktrees.last().id))
        } else {
            before
        }
    }
}

/// The rows that can be walked, in list order: those of unfolded projects that
/// match the filter.
pub open spec fn walkable(projects: Seq<ProjectView>, needle: Seq<char>) -> Seq<
    (Seq<char>, Seq<char>),
>
    decreases projects.len(),
{
    if projects.len() == 0 {
        Seq::empty()
    } else {
        let before = walkable(projects.drop_last(), needle);
        let last = projects.last();
        if last.is_expanded {
            before + shown_rows(last.id, last.name, last.worktrees, needle)
        } else {
            before
        }
    }
}

/// What a filter searches for: its text without the space around it, in lower
/// case.
pub open spec fn needle_of(filter: Seq<char>) -> Seq<char> {
    lower(trimmed(filter))
}

/// The rows as pairs of characters.
pub open spec fn pairs(rows: Seq<(String, String)>) -> Seq<(Seq<char>, Seq<char>)> {
    rows.map_values(|row: (String, String)| (row.0@, row.1@))
}

/// The place of the first row of the worktree.
pub open spec fn row_at(rows: Seq<(Seq<char>, Seq<char>)>, id: Seq<char>) -> Option<int>
    decreases rows.len(),
{
    if rows.len() == 0 {
        None
    } else {
        match row_at(rows.drop_last(), id) {
            Some(i) => Some(i),
            None => if rows.last().1 == id {
                Some(rows.len() - 1)
            } else {
                None
            },
        }
    }
}

/// What `row_at` finds is the first row of the worktree, and it finds one where
/// there is one.
pub proof fn row_at_is_first(rows: Seq<(Seq<char>, Seq<char>)>, id: Seq<char>)
    ensures
        match row_at(rows, id) {
            Some(i) => {
                &&& 0 <= i < rows.len()
                &&& rows[i].1 == id
                &&& forall|k: int| 0 <= k < i ==> (#[trigger] rows[k]).1 != id
            },
            None => forall|k: int| 0 <= k < rows.len() ==> (#[trigger] rows[k]).1 != id,
        },
    decreases rows.len(),
{
    if rows.len() > 0 {
        let init = rows.drop_last();
        row_at_is_first(init, id);
        assert forall|k: int| 0 <= k < init.len() implies init[k] == #[trigger] rows[k] by {}
    }
}

/// `n` moved into the places of a list of `len` items.
pub open spec fn clamped(n: int, len: int) -> int {
    if n < 0 {
        0
    } else if n >= len {
        len - 1
    } else {
        n
    }
}

/// The place the selection moves to. The ends do not wrap; without a selected
/// row, down starts at the top and up at the bottom.
pub open spec fn next_place(
    rows: Seq<(Seq<char>, Seq<char>)>,
    selected: Option<Seq<char>>,
    delta: int,
) -> int {
    let current = match selected {
        Some(id) => row_at(rows, id),
        None => None,
    };
    match current {
        Some(i) => clamped(i + delta, rows.len() as int),
        None => if delta < 0 {
            rows.len() - 1
        } else {
            0
        },
    }
}

fn find_row(rows: &Vec<(String, String)>, id: &str) -> (r: Option<usize>)
    ensures
        r is Some <==> row_at(pairs(rows@), id@) is Some,
        r matches Some(i) ==> i < rows.len() && row_at(pairs(rows@), id@) == Some(i as int),
{
    let wanted = id.to_owned();
    let ghost all = pairs(rows@);
    let mut i: usize = 0;
    proof {
        row_at_is_first(all, id@);
    }
    while i < rows.len()
        invariant
            i <= rows.len(),
            wanted@ == id@,
            all == pairs(rows@),
            forall|k: int| 0 <= k < i ==> (#[trigger] all[k]).1 != id@,
        decreases rows.len() - i,
    {
        assert(all[i as int].1 == rows@[i as int].1@);
        if rows[i].1 == wanted {
            proof {
                row_at_is_first(all, id@);
            }
            return Some(i);
        }
        i += 1;
    }
    None
}

/// The rows that can be walked, in list order.
pub fn visible_rows(projects: &Vec<Project>, filter: &str) -> (r: Vec<(String, String)>)
    ensures
        pairs(r@) == walkable(project_views(projects@), needle_of(filter@)),
{
    let needle = to_lower(trim(filter));
    let ghost views = project_views(projects@);
    let mut rows: Vec<(String, String)> = Vec::new();
    let mut i: usize = 0;
    assert(views.subrange(0, 0) =~= Seq::<ProjectView>::empty());
    assert(pairs(rows@) =~= Seq::<(Seq<char>, Seq<char>)>::empty());
    while i < projects.len()
        invariant
            i <= projects.len(),
            views == project_views(projects@),
            needle@ == needle_of(filter@),
            pairs(rows@) == walkable(views.subrange(0, i as int), needle@),
        decreases projects.len() - i,
    {
        assert(views.subrange(0, i + 1).drop_last() =~= views.subrange(0, i as int));
        let project = &projects[i];
        let ghost base = pairs(rows@);
        if project.is_expanded {
            let ghost worktrees = views[i as int].worktrees;
            let mut j: usize = 0;
            assert(worktrees.subrange(0, 0) =~= Seq::<WorktreeView>::empty());
            assert(pairs(rows@) =~= base + Seq::<(Seq<char>, Seq<char>)>::empty());
            while j < project.worktrees.len()
                invariant
                    j <= project.worktrees.len(),
                    worktrees == project@.worktrees,
                    pairs(rows@) == base + shown_rows(
                        project.id@,
                        project.name@,
                        worktrees.subrange(0, j as int),
                        needle@,
                    ),
                decreases project.worktrees.len() - j,
            {
                let worktree = &project.worktrees[j];
                assert(worktrees.subrange(0, j + 1).drop_last() =~= worktrees.subrange(
                    0,
                    j as int,
                ));
                let ghost was = rows@;
                let ghost shown = shown_rows(
                    project.id@,
                    project.name@,
                    worktrees.subrange(0, j as int),
                    needle@,
                );
                if matches_filter(project, worktree, needle.as_str()) {
                    rows.push((project.id.clone(), worktree.id.clone()));
                    assert(pairs(rows@) =~= pairs(was).push((project.id@, worktree.id@)));
                    assert((base + shown).push((project.id@, worktree.id@)) =~= base + shown.push(
                        (project.id@, worktree.id@),
                    ));
                }
                j += 1;
            }
            assert(worktrees.subrange(0, j as int) =~= worktrees);
        }
        i += 1;
    }
    assert(views.subrange(0, i as int) =~= views);
    rows
}

/// The worktree the selection moves to by `delta` rows: none where there are no
/// rows.
pub fn next_selection(
    rows: &Vec<(String, String)>,
    selected: Option<&str>,
    delta: isize,
) -> (r: Option<String>)
    ensures
        r is Some <==> rows.len() > 0,
        r matches Some(id) ==> id@ == rows@[next_place(
            pairs(rows@),
            (match selected {
                Some(s) => Some(s@),
                None => None,
            }),
            delta as int,
        )].1@,
{
    if rows.is_empty() {
        return None;
    }
    let current = match selected {
        Some(id) => find_row(rows, id),
        None => None,
    };
    let last: usize = rows.len() - 1;
    let next: usize = match current {
        Some(index) => if delta >= 0 {
            let down: usize = delta as usize;
            if down > last - index {
                last
            } else {
                index + down
            }
        } else {
            let up: usize = (-(delta + 1)) as usize + 1;
            if up > index {
                0
            } else {
                index - up
            }
        },
        None => if delta < 0 {
            last
        } else {
            0
        },
    };
    Some(rows[next].1.clone())
}

impl Selection {
    pub fn new() -> (r: Selection)
        ensures
            r@.worktree is None,
            r@.window is None,
            r@.filter == Seq::<char>::empty(),
    {
        Selection { worktree: None, window: None, filter: String::new() }
    }

    pub fn worktree(&self) -> (r: Option<&str>)
        ensures
            (match r {
                Some(id) => Some(id@),
                None => None,
            }) == self@.worktree,
    {
        match &self.worktree {
            Some(id) => Some(id.as_str()),
            None => None,
        }
    }

    pub fn window(&self) -> (r: Option<(&str, u32)>)
        ensures
            (match r {
                Some((id, index)) => Some((id@, index)),
                None => None,
            }) == self@.window,
    {
        match &self.window {
            Some((id, index)) => Some((id.as_str(), *index)),
            None => None,
        }
    }

    /// Selects a worktree. A window highlight of another worktree is dropped.
    pub fn select(&mut self, worktree_id: String)
        ensures
            final(self)@ == old(self)@.selecting(worktree_id@),
            final(self)@.single(),
    {
        let drop_window = match &self.window {
            Some((id, _)) => *id != worktree_id,
            None => false,
        };
        if drop_window {
            self.window = None;
        }
        self.worktree = Some(worktree_id);
    }

    /// Selects one of a worktree's window rows, and the worktree with it.
    pub fn select_window(&mut self, worktree_id: String, index: u32)
        ensures
            final(self)@ == (SelectionView {
                worktree: Some(worktree_id@),
                window: Some((worktree_id@, index)),
                filter: old(self)@.filter,
            }),
            final(self)@.single(),
    {
        self.window = Some((worktree_id.clone(), index));
        self.worktree = Some(worktree_id);
    }

    /// The rows that can be walked.
    pub fn rows(&self, projects: &Vec<Project>) -> (r: Vec<(String, String)>)
        ensures
            pairs(r@) == walkable(project_views(projects@), needle_of(self@.filter)),
    {
        visible_rows(projects, self.filter.as_str())
    }

    /// The selected row, where it is one of those that can be walked.
    pub fn row(&self, projects: &Vec<Project>) -> (r: Option<(String, String)>)
        ensures
            row_view(r) == selected_row(self@, project_views(projects@)),
    {
        match &self.worktree {
            None => None,
            Some(selected) => {
                let rows = self.rows(projects);
                match find_row(&rows, selected.as_str()) {
                    Some(i) => {
                        assert(pairs(rows@)[i as int] == (rows@[i as int].0@, rows@[i as int].1@));
                        Some((rows[i].0.clone(), rows[i].1.clone()))
                    },
                    None => None,
                }
            },
        }
    }

    /// The project a shortcut acts on: that of the selected row, else the only
    /// project, else none.
    pub fn context_project(&self, projects: &Vec<Project>) -> (r: Option<String>)
        ensures
            (match r {
                Some(id) => Some(id@),
                None => None,
            }) == context_of(self@, project_views(projects@)),
    {
        if let Some((project_id, _)) = self.row(projects) {
            return Some(project_id);
        }
        if projects.len() == 1 {
            Some(projects[0].id.clone())
        } else {
            None
        }
    }

    /// Moves the selection by `delta` rows, without wrapping at either end.
    pub fn move_by(&mut self, projects: &Vec<Project>, delta: isize)
        ensures
            final(self)@ == moved(old(self)@, project_views(projects@), delta as int),
            old(self)@.single() ==> final(self)@.single(),
    {
        let rows = self.rows(projects);
        let next = next_selection(&rows, self.worktree(), delta);
        proof {
            lemma_next_place(pairs(rows@), self@.worktree, delta as int);
        }
        if let Some(id) = next {
            self.select(id);
        }
    }
}

pub open spec fn row_view(row: Option<(String, String)>) -> Option<(Seq<char>, Seq<char>)> {
    match row {
        Some((project, worktree)) => Some((project@, worktree@)),
        None => None,
    }
}

/// The selected row, where it is one of those that can be walked.
pub open spec fn selected_row(selection: SelectionView, projects: Seq<ProjectView>) -> Option<
    (Seq<char>, Seq<char>),
> {
    let rows = walkable(projects, needle_of(selection.filter));
    match selection.worktree {
        Some(id) => match row_at(rows, id) {
            Some(i) => Some(rows[i]),
            None => None,
        },
        None => None,
    }
}

/// The project a shortcut acts on.
pub open spec fn context_of(selection: SelectionView, projects: Seq<ProjectView>) -> Option<
    Seq<char>,
> {
    match selected_row(selection, projects) {
        Some(row) => Some(row.0),
        None => if projects.len() == 1 {
            Some(projects[0].id)
        } else {
            None
        },
    }
}

/// The selection moved by `delta` rows.
pub open spec fn moved(
    selection: SelectionView,
    projects: Seq<ProjectView>,
    delta: int,
) -> SelectionView {
    let rows = walkable(projects, needle_of(selection.filter));
    if rows.len() == 0 {
        selection
    } else {
        selection.selecting(rows[next_place(rows, selection.worktree, delta)].1)
    }
}

proof fn lemma_next_place(
    rows: Seq<(Seq<char>, Seq<char>)>,
    selected: Option<Seq<char>>,
    delta: int,
)
    ensures
        rows.len() > 0 ==> 0 <= next_place(rows, selected, delta) < rows.len(),
{
    if let Some(id) = selected {
        row_at_is_first(rows, id);
    }
}

/// The keyboard never leaves the rows on screen: once the selection has moved,
/// it is on a row that can be walked.
pub proof fn moving_stays_on_screen(
    selection: SelectionView,
    projects: Seq<ProjectView>,
    delta: int,
)
    requires
        walkable(projects, needle_of(selection.filter)).len() > 0,
    ensures
        selected_row(moved(selection, projects, delta), projects) is Some,
{
    let rows = walkable(projects, needle_of(selection.filter));
    lemma_next_place(rows, selection.worktree, delta);
    row_at_is_first(rows, rows[next_place(rows, selection.worktree, delta)].1);
}

/// A held arrow key stops at the edge of the list: at the top, up stays where it
/// is, and at the bottom, down does.
pub proof fn the_ends_do_not_wrap(rows: Seq<(Seq<char>, Seq<char>)>, id: Seq<char>, delta: int)
    requires
        rows.len() > 0,
    ensures
        row_at(rows, id) == Some(0int) && delta <= 0 ==> next_place(rows, Some(id), delta) == 0,
        row_at(rows, id) == Some(rows.len() - 1) && delta >= 0 ==> next_place(
            rows,
            Some(id),
            delta,
        ) == rows.len() - 1,
{
}

proof fn lemma_shown_are_matching(
    project: Seq<char>,
    name: Seq<char>,
    worktrees: Seq<WorktreeView>,
    needle: Seq<char>,
)
    ensures
        ({
            let shown = shown_rows(project, name, worktrees, needle);
            let places = matching_places(name, worktrees, needle);
            &&& shown.len() == places.len()
            &&& forall|k: int|
                0 <= k < shown.len() ==> 0 <= #[trigger] places[k] < worktrees.len() && shown[k]
                    == (project, worktrees[places[k]].id)
        }),
    decreases worktrees.len(),
{
    if worktrees.len() > 0 {
        let init = worktrees.drop_last();
        lemma_shown_are_matching(project, name, init, needle);
        assert forall|i: int| 0 <= i < init.len() implies init[i] == #[trigger] worktrees[i] by {}
        let shown = shown_rows(project, name, worktrees, needle);
        let places = matching_places(name, worktrees, needle);
        let before = matching_places(name, init, needle);
        assert forall|k: int| 0 <= k < shown.len() implies 0 <= #[trigger] places[k]
            < worktrees.len() && shown[k] == (project, worktrees[places[k]].id) by {
            if k < before.len() {
                assert(places[k] == before[k]);
            }
        }
    }
}

/// The keyboard walks only what is drawn: the rows of a project that can be
/// walked are, in order, those that stand in what the list draws of it.
pub proof fn the_keyboard_walks_drawn_rows(project: ProjectView, place: int, needle: Seq<char>)
    ensures
        ({
            let walked = shown_rows(project.id, project.name, project.worktrees, needle);
            let drawn = matching_places(project.name, project.worktrees, needle);
            &&& walked.len() == drawn.len()
            &&& forall|k: int|
                0 <= k < walked.len() ==> walked[k] == (
                    project.id,
                    project.worktrees[#[trigger] drawn[k]].id,
                )
            &&& walked.len() > 0 ==> (match entry_of(project, place, needle) {
                Some(EntryView::Single { project, worktree }) => project == place && drawn
                    == seq![worktree],
                Some(EntryView::Header { project, worktrees }) => project == place && drawn
                    == worktrees,
                None => false,
            })
        }),
{
    lemma_shown_are_matching(project.id, project.name, project.worktrees, needle);
    let drawn = matching_places(project.name, project.worktrees, needle);
    if drawn.len() == 1 {
        assert(drawn =~= seq![drawn[0]]);
    }
}

}
