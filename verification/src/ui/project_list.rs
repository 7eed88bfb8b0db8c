//! The project list: three levels, each of which disappears when it would have
//! exactly one child.
use vstd::prelude::*;
use vstd::string::*;

use crate::model::{project_views, Project, ProjectView, Worktree, WorktreeView};
use crate::text::{contains, finds, lower, same, to_lower, trim, trimmed};
use crate::ui::worktree_row::RowAction;
use crate::ui::Action;

verus! {

/// Does this worktree get a header with a row per window? One window is no
/// reason for two levels, and no window at all is the same case.
pub fn has_window_rows(worktree: &Worktree) -> (r: bool)
    ensures
        r == (worktree@.windows.len() > 1),
{
    worktree.windows.len() > 1
}

/// The text that is searched for stands in the project's name, the worktree's
/// label or its path, whatever their case.
pub open spec fn matching(
    project_name: Seq<char>,
    worktree: WorktreeView,
    needle: Seq<char>,
) -> bool {
    ||| needle.len() == 0
    ||| contains(lower(project_name), needle)
    ||| contains(lower(worktree.label), needle)
    ||| contains(lower(worktree.path), needle)
}

/// The row is shown under a filter that is already in lower case.
pub fn matches_filter(project: &Project, worktree: &Worktree, needle: &str) -> (r: bool)
    ensures
        r == matching(project.name@, worktree@, needle@),
{
    if needle.is_empty() {
        return true;
    }
    finds(to_lower(project.name.as_str()).as_str(), needle) || finds(
        to_lower(worktree.label.as_str()).as_str(),
        needle,
    ) || finds(to_lower(worktree.path.as_str()).as_str(), needle)
}

/// What is drawn of one project.
#[derive(Debug, PartialEq, Eq)]
pub enum Entry {
    /// Its only worktree, under the project's name.
    Single { project: usize, worktree: usize },
    /// A header, and under it the worktrees that match.
    Header { project: usize, worktrees: Vec<usize> },
}

pub enum EntryView {
    Single { project: int, worktree: int },
    Header { project: int, worktrees: Seq<int> },
}

impl View for Entry {
    type V = EntryView;

    open spec fn view(&self) -> EntryView {
        match *self {
            Entry::Single { project, worktree } => EntryView::Single {
                project: project as int,
                worktree: worktree as int,
            },
            Entry::Header { project, worktrees } => EntryView::Header {
                project: project as int,
                worktrees: places(worktrees@),
            },
        }
    }
}

pub open spec fn places(rows: Seq<usize>) -> Seq<int> {
    rows.map_values(|i: usize| i as int)
}

pub open spec fn entry_views(entries: Seq<Entry>) -> Seq<EntryView> {
    entries.map_values(|e: Entry| e@)
}

/// The places of the worktrees that match.
pub open spec fn matching_places(
    project_name: Seq<char>,
    worktrees: Seq<WorktreeView>,
    needle: Seq<char>,
) -> Seq<int>
    decreases worktrees.len(),
{
    if worktrees.len() == 0 {
        Seq::empty()
    } else {
        let before = matching_places(project_name, worktrees.drop_last(), needle);
        if matching(project_name, worktrees.last(), needle) {
            before.push(worktrees.len() - 1)
        } else {
            before
        }
    }
}

/// What is drawn of a project: nothing where the filter finds nothing of it; its
/// only worktree where it has one and can be read; else a header.
pub open spec fn entry_of(p: ProjectView, place: int, needle: Seq<char>) -> Option<EntryView> {
    let rows = matching_places(p.name, p.worktrees, needle);
    if needle.len() > 0 && rows.len() == 0 && !contains(lower(p.name), needle) {
        None
    } else if p.unavailable is None && p.worktrees.len() == 1 && rows.len() == 1 {
        Some(EntryView::Single { project: place, worktree: rows[0] })
    } else {
        Some(EntryView::Header { project: place, worktrees: rows })
    }
}

/// What is drawn, in list order.
pub open spec fn entries_of(projects: Seq<ProjectView>, needle: Seq<char>) -> Seq<EntryView>
    decreases projects.len(),
{
    if projects.len() == 0 {
        Seq::empty()
    } else {
        let before = entries_of(projects.drop_last(), needle);
        match entry_of(projects.last(), projects.len() - 1, needle) {
            Some(entry) => before.push(entry),
            None => before,
        }
    }
}

fn matching_rows(project: &Project, needle: &str) -> (r: Vec<usize>)
    ensures
        places(r@) == matching_places(project.name@, project@.worktrees, needle@),
{
    let ghost rows = project@.worktrees;
    let mut found: Vec<usize> = Vec::new();
    let mut i: usize = 0;
    assert(rows.subrange(0, 0) =~= Seq::<WorktreeView>::empty());
    assert(places(found@) =~= Seq::<int>::empty());
    while i < project.worktrees.len()
        invariant
            i <= project.worktrees.len(),
            rows == project@.worktrees,
            places(found@) == matching_places(
                project.name@,
                rows.subrange(0, i as int),
                needle@,
            ),
        decreases project.worktrees.len() - i,
    {
        assert(rows.subrange(0, i + 1).drop_last() =~= rows.subrange(0, i as int));
        if matches_filter(project, &project.worktrees[i], needle) {
            let ghost was = found@;
            found.push(i);
            assert(places(found@) =~= places(was).push(i as int));
        }
        i += 1;
    }
    assert(rows.subrange(0, i as int) =~= rows);
    found
}

/// What is drawn under the filter that was typed.
pub fn entries(projects: &Vec<Project>, filter: &str) -> (r: Vec<Entry>)
    ensures
        entry_views(r@) == entries_of(project_views(projects@), lower(trimmed(filter@))),
{
    let needle = to_lower(trim(filter));
    let ghost views = project_views(projects@);
    let mut out: Vec<Entry> = Vec::new();
    let mut i: usize = 0;
    assert(views.subrange(0, 0) =~= Seq::<ProjectView>::empty());
    assert(entry_views(out@) =~= Seq::<EntryView>::empty());
    while i < projects.len()
        invariant
            i <= projects.len(),
            views == project_views(projects@),
            needle@ == lower(trimmed(filter@)),
            entry_views(out@) == entries_of(views.subrange(0, i as int), needle@),
        decreases projects.len() - i,
    {
        assert(views.subrange(0, i + 1).drop_last() =~= views.subrange(0, i as int));
        let project = &projects[i];
        let rows = matching_rows(project, needle.as_str());
        assert(places(rows@).len() == rows@.len());
        let hidden = !needle.as_str().is_empty() && rows.is_empty() && !finds(
            to_lower(project.name.as_str()).as_str(),
            needle.as_str(),
        );
        let ghost was = out@;
        if !hidden {
            let entry = if project.unavailable.is_none() && project.worktrees.len() == 1
                && rows.len() == 1 {
                assert(places(rows@)[0] == rows@[0] as int);
                Entry::Single { project: i, worktree: rows[0] }
            } else {
                Entry::Header { project: i, worktrees: rows }
            };
            assert(entry_of(views[i as int], i as int, needle@) == Some(entry@));
            out.push(entry);
            assert(entry_views(out@) =~= entry_views(was).push(entry@));
        }
        i += 1;
    }
    assert(views.subrange(0, i as int) =~= views);
    out
}

/// One row of a worktree, as it is drawn.
#[derive(Debug, Clone, Copy, PartialEq, Eq, Structural)]
pub struct LevelRow {
    /// The place of the window the row is for; none where it is the worktree's.
    pub window: Option<usize>,
    /// The row has the rows of the windows under it.
    pub header: bool,
    pub selected: bool,
    /// How many headers stand above it.
    pub depth: u8,
}

/// The row of one window, under its worktree's header.
pub open spec fn window_row(
    worktree: WorktreeView,
    place: int,
    selected: Option<(Seq<char>, u32)>,
    depth: u8,
) -> LevelRow {
    LevelRow {
        window: Some(place as usize),
        header: false,
        selected: selected == Some((worktree.id, worktree.windows[place].index)),
        depth: (depth + 1) as u8,
    }
}

/// The rows of a worktree: itself alone, or a header and a row for each window
/// where it has several.
pub open spec fn level_of(
    worktree: WorktreeView,
    selected: Option<Seq<char>>,
    selected_window: Option<(Seq<char>, u32)>,
    depth: u8,
) -> Seq<LevelRow> {
    if worktree.windows.len() > 1 {
        seq![LevelRow { window: None, header: true, selected: false, depth }] + Seq::new(
            worktree.windows.len(),
            |i: int| window_row(worktree, i, selected_window, depth),
        )
    } else {
        seq![
            LevelRow {
                window: None,
                header: false,
                selected: selected == Some(worktree.id),
                depth,
            },
        ]
    }
}

/// The rows of a worktree that stands under `depth` headers.
pub fn worktree_level(
    worktree: &Worktree,
    selected: Option<&str>,
    selected_window: Option<(&str, u32)>,
    depth: u8,
) -> (r: Vec<LevelRow>)
    requires
        depth < u8::MAX,
    ensures
        r@ == level_of(
            worktree@,
            (match selected {
                Some(id) => Some(id@),
                None => None,
            }),
            (match selected_window {
                Some((id, index)) => Some((id@, index)),
                None => None,
            }),
            depth,
        ),
{
    let ghost chosen = match selected_window {
        Some((id, index)) => Some((id@, index)),
        None => None,
    };
    let mut rows: Vec<LevelRow> = Vec::new();
    if !has_window_rows(worktree) {
        let is_selected = match selected {
            Some(id) => same(id, worktree.id.as_str()),
            None => false,
        };
        rows.push(LevelRow { window: None, header: false, selected: is_selected, depth });
        return rows;
    }
    rows.push(LevelRow { window: None, header: true, selected: false, depth });
    let ghost head = rows@;
    let mut i: usize = 0;
    while i < worktree.windows.len()
        invariant
            i <= worktree.windows.len(),
            depth < u8::MAX,
            chosen == (match selected_window {
                Some((id, index)) => Some((id@, index)),
                None => None,
            }),
            rows@ == head + Seq::new(
                i as nat,
                |k: int| window_row(worktree@, k, chosen, depth),
            ),
        decreases worktree.windows.len() - i,
    {
        let index = worktree.windows[i].index;
        let is_selected = match selected_window {
            Some((id, at)) => same(id, worktree.id.as_str()) && at == index,
            None => false,
        };
        rows.push(
            LevelRow { window: Some(i), header: false, selected: is_selected, depth: depth + 1 },
        );
        i += 1;
        assert(rows@ =~= head + Seq::new(
            i as nat,
            |k: int| window_row(worktree@, k, chosen, depth),
        ));
    }
    assert(rows@ =~= level_of(
        worktree@,
        (match selected {
            Some(id) => Some(id@),
            None => None,
        }),
        chosen,
        depth,
    ));
    rows
}

/// What a click on a window's row asks for: opening it opens that window;
/// anything else is the worktree's.
pub fn window_action(
    clicked: RowAction,
    project_id: &String,
    worktree_id: &String,
    window_index: u32,
) -> (r: Option<Action>)
    ensures
        r == (if clicked == RowAction::Activate {
            Some(
                Action::ActivateWindow {
                    project_id: *project_id,
                    worktree_id: *worktree_id,
                    window_index,
                },
            )
        } else {
            clicked.asked(*project_id, *worktree_id)
        }),
{
    match clicked {
        RowAction::Activate => Some(
            Action::ActivateWindow {
                project_id: project_id.clone(),
                worktree_id: worktree_id.clone(),
                window_index,
            },
        ),
        other => other.into_action(project_id, worktree_id),
    }
}

/// What is said of a project that cannot be read: on its header, and in its
/// menu.
pub fn unavailable_hint(reason: &str) -> (r: String)
    ensures
        r@ == "Project unavailable — "@ + reason@
            + "\nNothing has been removed; use the menu to retry or locate it."@,
{
    let mut hint = "Project unavailable — ".to_owned();
    hint.append(reason);
    hint.append("\nNothing has been removed; use the menu to retry or locate it.");
    hint
}

/// What the clicks on a worktree's rows in one frame ask for: a window's row
/// counts before the header above it.
pub fn level_action(
    header: Option<RowAction>,
    window: Option<(u32, RowAction)>,
    project_id: &String,
    worktree_id: &String,
) -> (r: Option<Action>)
    ensures
        r == (match window {
            Some((index, clicked)) if clicked == RowAction::Activate => Some(
                Action::ActivateWindow {
                    project_id: *project_id,
                    worktree_id: *worktree_id,
                    window_index: index,
                },
            ),
            Some((_, clicked)) if clicked != RowAction::Fold => clicked.asked(
                *project_id,
                *worktree_id,
            ),
            _ => match header {
                Some(clicked) => clicked.asked(*project_id, *worktree_id),
                None => None,
            },
        }),
{
    if let Some((index, clicked)) = window {
        let action = window_action(clicked, project_id, worktree_id, index);
        if action.is_some() {
            return action;
        }
    }
    match header {
        Some(clicked) => clicked.into_action(project_id, worktree_id),
        None => None,
    }
}

/// An entry of a project's menu.
#[derive(Debug, Clone, Copy, PartialEq, Eq, Structural)]
pub enum MenuEntry {
    Locate,
    Refresh,
    CreateWorktree,
    CopyPath,
    Remove,
}

/// The entries of a project's menu. One that cannot be read can be located, and
/// that comes first.
pub fn menu(project: &Project) -> (r: Vec<MenuEntry>)
    ensures
        r@ == (if project.unavailable is Some {
            seq![MenuEntry::Locate]
        } else {
            Seq::empty()
        }) + seq![
            MenuEntry::Refresh,
            MenuEntry::CreateWorktree,
            MenuEntry::CopyPath,
            MenuEntry::Remove,
        ],
{
    let mut entries: Vec<MenuEntry> = Vec::new();
    if project.unavailable.is_some() {
        entries.push(MenuEntry::Locate);
    }
    let ghost first = entries@;
    entries.push(MenuEntry::Refresh);
    entries.push(MenuEntry::CreateWorktree);
    entries.push(MenuEntry::CopyPath);
    entries.push(MenuEntry::Remove);
    assert(entries@ =~= first + seq![
        MenuEntry::Refresh,
        MenuEntry::CreateWorktree,
        MenuEntry::CopyPath,
        MenuEntry::Remove,
    ]);
    entries
}

/// What a frame of a project's header asks for: the entry that was chosen counts
/// before a click on the header, which folds the project. Copying the path asks
/// for nothing.
pub fn header(project: &Project, clicked: bool, chosen: Option<MenuEntry>) -> (r: Option<Action>)
    ensures
        r == (match chosen {
            Some(MenuEntry::Locate) => Some(Action::LocateProject(project.id)),
            Some(MenuEntry::Refresh) => Some(Action::RefreshProject(project.id)),
            Some(MenuEntry::CreateWorktree) => Some(Action::CreateWorktree(project.id)),
            Some(MenuEntry::Remove) => Some(Action::RemoveProject(project.id)),
            _ => if clicked {
                Some(Action::ToggleProject(project.id))
            } else {
                None
            },
        }),
{
    match chosen {
        Some(MenuEntry::Locate) => Some(Action::LocateProject(project.id.clone())),
        Some(MenuEntry::Refresh) => Some(Action::RefreshProject(project.id.clone())),
        Some(MenuEntry::CreateWorktree) => Some(Action::CreateWorktree(project.id.clone())),
        Some(MenuEntry::Remove) => Some(Action::RemoveProject(project.id.clone())),
        _ => if clicked {
            Some(Action::ToggleProject(project.id.clone()))
        } else {
            None
        },
    }
}

/// The wording of the menu entry that reads the project again.
pub fn refresh_label(project: &Project) -> (r: &'static str)
    ensures
        r@ == (if project.unavailable is None {
            "Refresh"@
        } else {
            "Retry"@
        }),
{
    if project.unavailable.is_none() {
        "Refresh"
    } else {
        "Retry"
    }
}

}
