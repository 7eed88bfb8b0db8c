//! One worktree row: what it says, how it is marked, and what a click means.
use vstd::prelude::*;
use vstd::string::*;

use crate::model::{SessionPresence, SessionStatus, Worktree, WorktreeView};
use crate::state::AgentRecord;
use crate::text::{after_prefix, begins_with, starts_with};
use crate::ui::Action;

verus! {

/// How far a row sits in under each header above it, in points.
pub const INDENT_STEP: u32 = 14;

/// How far in a row at this depth sits: one step per header above it.
pub fn indent(depth: u8) -> (r: u32)
    ensures
        r == depth * INDENT_STEP,
{
    depth as u32 * INDENT_STEP
}

/// What the user did on a row.
#[derive(Debug, Clone, Copy, PartialEq, Eq, Structural)]
pub enum RowAction {
    Activate,
    Select,
    /// Fold or unfold the rows under a header.
    Fold,
    OpenInNewTerminal,
    /// Open a new window in the session.
    OpenNewWindow,
    StartAgent,
    /// Take up the conversation the agent last reported.
    ResumeAgent,
    OpenAgentTranscript,
    /// Give the worktree a number, or take it off.
    SetSlot(Option<u8>),
    Refresh,
    Remove,
}

impl RowAction {
    /// What the click asks for, of this row. Folding is the list's own.
    pub open spec fn asked(self, project_id: String, worktree_id: String) -> Option<Action> {
        match self {
            RowAction::Activate => Some(Action::ActivateWorktree { project_id, worktree_id }),
            RowAction::Select => Some(Action::SelectWorktree { project_id, worktree_id }),
            RowAction::Fold => None,
            RowAction::OpenInNewTerminal => Some(
                Action::OpenInNewTerminal { project_id, worktree_id },
            ),
            RowAction::OpenNewWindow => Some(Action::OpenNewWindow { project_id, worktree_id }),
            RowAction::StartAgent => Some(Action::StartAgent { project_id, worktree_id }),
            RowAction::ResumeAgent => Some(Action::ResumeAgent { project_id, worktree_id }),
            RowAction::OpenAgentTranscript => Some(Action::OpenAgentTranscript { worktree_id }),
            RowAction::SetSlot(slot) => Some(Action::SetWorktreeSlot { worktree_id, slot }),
            RowAction::Refresh => Some(Action::RefreshProject(project_id)),
            RowAction::Remove => Some(Action::RemoveWorktree { project_id, worktree_id }),
        }
    }

    /// What the click asks for, of this row.
    pub fn into_action(self, project_id: &String, worktree_id: &String) -> (r: Option<Action>)
        ensures
            r == self.asked(*project_id, *worktree_id),
    {
        let project_id = project_id.clone();
        let worktree_id = worktree_id.clone();
        match self {
            RowAction::Activate => Some(Action::ActivateWorktree { project_id, worktree_id }),
            RowAction::Select => Some(Action::SelectWorktree { project_id, worktree_id }),
            RowAction::Fold => None,
            RowAction::OpenInNewTerminal => Some(
                Action::OpenInNewTerminal { project_id, worktree_id },
            ),
            RowAction::OpenNewWindow => Some(Action::OpenNewWindow { project_id, worktree_id }),
            RowAction::StartAgent => Some(Action::StartAgent { project_id, worktree_id }),
            RowAction::ResumeAgent => Some(Action::ResumeAgent { project_id, worktree_id }),
            RowAction::OpenAgentTranscript => Some(Action::OpenAgentTranscript { worktree_id }),
            RowAction::SetSlot(slot) => Some(Action::SetWorktreeSlot { worktree_id, slot }),
            RowAction::Refresh => Some(Action::RefreshProject(project_id)),
            RowAction::Remove => Some(Action::RemoveWorktree { project_id, worktree_id }),
        }
    }
}

/// What a click on a row means: a header folds, any other row opens.
pub fn clicked(folds: bool) -> (r: RowAction)
    ensures
        r == (if folds {
            RowAction::Fold
        } else {
            RowAction::Activate
        }),
{
    if folds {
        RowAction::Fold
    } else {
        RowAction::Activate
    }
}

/// The entries of every row's menu, in order. The one that copies the path selects
/// the row.
pub open spec fn menu_entries() -> Seq<(Seq<char>, RowAction)> {
    seq![
        ("Open or switch to session"@, RowAction::Activate),
        ("Open in a new terminal"@, RowAction::OpenInNewTerminal),
        ("Copy worktree path"@, RowAction::Select),
        ("Start agent"@, RowAction::StartAgent),
        ("Refresh"@, RowAction::Refresh),
        ("Remove…"@, RowAction::Remove),
    ]
}

/// What the entry at this place of a row's menu means; beyond its end nothing.
pub fn menu(chosen: usize) -> (r: Option<RowAction>)
    ensures
        r == (if chosen < menu_entries().len() {
            Some(menu_entries()[chosen as int].1)
        } else {
            None
        }),
{
    match chosen {
        0 => Some(RowAction::Activate),
        1 => Some(RowAction::OpenInNewTerminal),
        2 => Some(RowAction::Select),
        3 => Some(RowAction::StartAgent),
        4 => Some(RowAction::Refresh),
        5 => Some(RowAction::Remove),
        _ => None,
    }
}

/// What the entry at this place of a row's menu says.
pub fn menu_label(chosen: usize) -> (r: Option<&'static str>)
    ensures
        (match r {
            Some(label) => Some(label@),
            None => None,
        }) == (if chosen < menu_entries().len() {
            Some(menu_entries()[chosen as int].0)
        } else {
            None
        }),
{
    match chosen {
        0 => Some("Open or switch to session"),
        1 => Some("Open in a new terminal"),
        2 => Some("Copy worktree path"),
        3 => Some("Start agent"),
        4 => Some("Refresh"),
        5 => Some("Remove…"),
        _ => None,
    }
}

/// The entries that depend on what is known of the row: a new window always, the
/// conversation where one was reported and there is a command to resume it with,
/// and its transcript where one was reported.
pub fn more(can_resume: bool, record: Option<&AgentRecord>) -> (r: Vec<RowAction>)
    ensures
        r@ == seq![RowAction::OpenNewWindow] + (match record {
            Some(record) => (if can_resume && record.session_id@.len() > 0 {
                seq![RowAction::ResumeAgent]
            } else {
                Seq::empty()
            }) + (if record.transcript_path@.len() > 0 {
                seq![RowAction::OpenAgentTranscript]
            } else {
                Seq::empty()
            }),
            None => Seq::empty(),
        }),
{
    let mut entries: Vec<RowAction> = Vec::new();
    entries.push(RowAction::OpenNewWindow);
    if let Some(record) = record {
        if can_resume && !record.session_id.as_str().is_empty() {
            entries.push(RowAction::ResumeAgent);
        }
        if !record.transcript_path.as_str().is_empty() {
            entries.push(RowAction::OpenAgentTranscript);
        }
    }
    assert(entries@ =~= seq![RowAction::OpenNewWindow] + (match record {
        Some(record) => (if can_resume && record.session_id@.len() > 0 {
            seq![RowAction::ResumeAgent]
        } else {
            Seq::empty()
        }) + (if record.transcript_path@.len() > 0 {
            seq![RowAction::OpenAgentTranscript]
        } else {
            Seq::empty()
        }),
        None => Seq::empty(),
    }));
    entries
}

/// A quiet mark at the right edge. Only ever made from something git reported.
#[derive(Debug, Clone, Copy, PartialEq, Eq, Structural)]
pub enum Marker {
    Locked,
    Detached,
    Dirty,
}

impl Marker {
    pub open spec fn meaning(self) -> Seq<char> {
        match self {
            Marker::Locked => "locked"@,
            Marker::Detached => "detached HEAD"@,
            Marker::Dirty => "uncommitted changes"@,
        }
    }

    /// What the mark means.
    pub fn hint(self) -> (r: &'static str)
        ensures
            r@ == self.meaning(),
    {
        match self {
            Marker::Locked => "locked",
            Marker::Detached => "detached HEAD",
            Marker::Dirty => "uncommitted changes",
        }
    }

    /// The mark asks for care.
    pub fn is_warning(self) -> (r: bool)
        ensures
            r == (self == Marker::Dirty),
    {
        match self {
            Marker::Dirty => true,
            _ => false,
        }
    }
}

/// At most three marks, held inline.
#[derive(Debug, Clone, Copy, PartialEq, Eq)]
pub struct Markers {
    pub items: [Option<Marker>; 3],
}

impl Markers {
    /// The marks, in order.
    pub open spec fn marks(self) -> Seq<Marker> {
        let first = match self.items@[0] {
            Some(m) => seq![m],
            None => Seq::empty(),
        };
        let second = match self.items@[1] {
            Some(m) => first.push(m),
            None => first,
        };
        match self.items@[2] {
            Some(m) => second.push(m),
            None => second,
        }
    }

    pub fn new() -> (r: Self)
        ensures
            r.marks() == Seq::<Marker>::empty(),
    {
        let r = Markers { items: [None, None, None] };
        assert(r.items@[0] is None && r.items@[1] is None && r.items@[2] is None);
        r
    }

    /// Adds a mark in the first free place; with all three taken, nothing
    /// changes.
    pub fn push(&mut self, marker: Marker)
        ensures
            final(self).items@ == (if old(self).items@[0] is None {
                old(self).items@.update(0, Some(marker))
            } else if old(self).items@[1] is None {
                old(self).items@.update(1, Some(marker))
            } else if old(self).items@[2] is None {
                old(self).items@.update(2, Some(marker))
            } else {
                old(self).items@
            }),
    {
        if self.items[0].is_none() {
            self.items[0] = Some(marker);
        } else if self.items[1].is_none() {
            self.items[1] = Some(marker);
        } else if self.items[2].is_none() {
            self.items[2] = Some(marker);
        }
    }

    /// The marks, in order.
    pub fn iter(&self) -> (r: Vec<Marker>)
        ensures
            r@ == self.marks(),
            r.len() <= 3,
    {
        let mut marks: Vec<Marker> = Vec::new();
        if let Some(m) = self.items[0] {
            marks.push(m);
        }
        if let Some(m) = self.items[1] {
            marks.push(m);
        }
        if let Some(m) = self.items[2] {
            marks.push(m);
        }
        assert(marks@ =~= self.marks());
        marks
    }

    pub fn is_empty(&self) -> (r: bool)
        ensures
            r == (self.marks().len() == 0),
    {
        self.items[0].is_none() && self.items[1].is_none() && self.items[2].is_none()
    }
}

/// The working tree was read and is not clean.
pub open spec fn is_dirty(w: WorktreeView) -> bool {
    w.git_status is Some && !w.git_status->0.clean
}

/// The marks of a row: locked, then detached, then dirty.
pub open spec fn marks_of(w: WorktreeView) -> Seq<Marker> {
    let locked = if w.is_locked {
        seq![Marker::Locked]
    } else {
        Seq::empty()
    };
    let detached = if w.is_detached {
        locked.push(Marker::Detached)
    } else {
        locked
    };
    if is_dirty(w) {
        detached.push(Marker::Dirty)
    } else {
        detached
    }
}

/// The marks of a row, worst first.
pub fn markers(worktree: &Worktree) -> (r: Markers)
    ensures
        r.marks() == marks_of(worktree@),
{
    let mut markers = Markers { items: [None, None, None] };
    if worktree.is_locked {
        markers.push(Marker::Locked);
    }
    if worktree.is_detached {
        markers.push(Marker::Detached);
    }
    let dirty = match &worktree.git_status {
        Some(status) => !status.clean,
        None => false,
    };
    if dirty {
        markers.push(Marker::Dirty);
    }
    assert(markers.marks() =~= marks_of(worktree@));
    markers
}

pub open spec fn line_views(lines: Seq<String>) -> Seq<Seq<char>> {
    lines.map_values(|line: String| line@)
}

/// The lines of the tooltip: what the agent said while its session runs, what
/// git said, and what each mark means.
pub open spec fn tooltip(w: WorktreeView) -> Seq<Seq<char>> {
    let said = match w.status_message {
        Some(message) if w.session.live() => seq![message],
        _ => Seq::empty(),
    };
    let git = match w.git_status {
        Some(status) => said.push(status.summary@),
        None => said,
    };
    git + marks_of(w).map_values(|m: Marker| m.meaning())
}

/// Tooltip lines after the path.
pub fn hover_lines(worktree: &Worktree) -> (r: Vec<String>)
    ensures
        line_views(r@) == tooltip(worktree@),
{
    let mut lines: Vec<String> = Vec::new();
    if let Some(message) = &worktree.status_message {
        if worktree.session.is_live() {
            lines.push(message.clone());
        }
    }
    if let Some(status) = &worktree.git_status {
        lines.push(status.summary.clone());
    }
    let ghost before = line_views(lines@);
    let marks = markers(worktree).iter();
    let ghost hints = marks_of(worktree@).map_values(|m: Marker| m.meaning());
    let mut i: usize = 0;
    assert(before + hints.subrange(0, 0) =~= before);
    while i < marks.len()
        invariant
            i <= marks.len(),
            marks@ == marks_of(worktree@),
            hints == marks_of(worktree@).map_values(|m: Marker| m.meaning()),
            line_views(lines@) == before + hints.subrange(0, i as int),
        decreases marks.len() - i,
    {
        let ghost was = lines@;
        lines.push(marks[i].hint().to_owned());
        assert(line_views(lines@) =~= line_views(was).push(hints[i as int]));
        i += 1;
        assert(line_views(lines@) =~= before + hints.subrange(0, i as int));
    }
    assert(hints.subrange(0, i as int) =~= hints);
    assert(line_views(lines@) =~= tooltip(worktree@));
    lines
}

/// The colour a row's status earns.
#[derive(Debug, Clone, Copy, PartialEq, Eq, Structural)]
pub enum Accent {
    Attention,
    Working,
}

/// The accent a row's status earns, if any. An idle session earns none, and a
/// row without a session never does.
pub open spec fn accent_of(w: WorktreeView) -> Option<Accent> {
    if !w.session.live() {
        None
    } else {
        match w.status {
            Some(SessionStatus::Attention) => Some(Accent::Attention),
            Some(SessionStatus::Working) => Some(Accent::Working),
            _ => None,
        }
    }
}

/// The accent a row's status earns, if any.
pub fn status_color(worktree: &Worktree) -> (r: Option<Accent>)
    ensures
        r == accent_of(worktree@),
{
    if !worktree.session.is_live() {
        return None;
    }
    match worktree.status {
        Some(SessionStatus::Attention) => Some(Accent::Attention),
        Some(SessionStatus::Working) => Some(Accent::Working),
        _ => None,
    }
}

/// What the edge at the left of a row carries.
#[derive(Debug, Clone, Copy, PartialEq, Eq, Structural)]
pub enum Edge {
    Status(Accent),
    Selected,
    Hovered,
}

/// The edge of a row: its status where that earns a colour, else whether it is
/// selected, else whether the pointer is over it.
pub fn edge(worktree: &Worktree, selected: bool, hovered: bool) -> (r: Option<Edge>)
    ensures
        r == (match accent_of(worktree@) {
            Some(accent) => Some(Edge::Status(accent)),
            None => if selected {
                Some(Edge::Selected)
            } else if hovered {
                Some(Edge::Hovered)
            } else {
                None
            },
        }),
{
    match status_color(worktree) {
        Some(accent) => Some(Edge::Status(accent)),
        None => if selected {
            Some(Edge::Selected)
        } else if hovered {
            Some(Edge::Hovered)
        } else {
            None
        },
    }
}

/// How strongly a row's name is drawn.
#[derive(Debug, Clone, Copy, PartialEq, Eq, Structural)]
pub enum Shade {
    Strong,
    Dim,
    Muted,
}

/// The name of a row: strongest where it is selected, faintest where it has no
/// session.
pub fn name_shade(worktree: &Worktree, selected: bool) -> (r: Shade)
    ensures
        r == (if selected {
            Shade::Strong
        } else if worktree@.session.live() {
            Shade::Dim
        } else {
            Shade::Muted
        }),
{
    if selected {
        Shade::Strong
    } else if worktree.session.is_live() {
        Shade::Dim
    } else {
        Shade::Muted
    }
}

/// What is drawn at the left of a row.
#[derive(Debug, Clone, Copy, PartialEq, Eq, Structural)]
pub enum Dot {
    /// A mark of its own: the one state the user has to act on.
    Bang,
    Working,
    Hollow,
    Idle,
    Attached,
}

/// The dot of a row: attention and work where a session runs, else whether there
/// is one and whether somebody looks at it.
pub fn dot(worktree: &Worktree) -> (r: Dot)
    ensures
        r == (match worktree@.session {
            SessionPresence::Absent => Dot::Hollow,
            presence => match worktree@.status {
                Some(SessionStatus::Attention) => Dot::Bang,
                Some(SessionStatus::Working) => Dot::Working,
                _ => if presence is Attached {
                    Dot::Attached
                } else {
                    Dot::Idle
                },
            },
        }),
{
    if worktree.session.is_live() {
        match worktree.status {
            Some(SessionStatus::Attention) => {
                return Dot::Bang;
            },
            Some(SessionStatus::Working) => {
                return Dot::Working;
            },
            _ => {},
        }
    }
    match worktree.session {
        SessionPresence::Absent => Dot::Hollow,
        SessionPresence::Detached => Dot::Idle,
        SessionPresence::Attached => Dot::Attached,
    }
}

/// The line under the name is a warning: a merge, a rebase or the like is under
/// way.
pub fn sublabel_warns(worktree: &Worktree) -> (r: bool)
    ensures
        r == (worktree@.git_status is Some && worktree@.git_status->0.in_operation),
{
    match &worktree.git_status {
        Some(status) => status.in_operation,
        None => false,
    }
}

/// What is said of a row's session: whether it runs, whether somebody looks at it,
/// and where there is none whether there was one.
pub open spec fn session_text(w: WorktreeView) -> Seq<char> {
    match w.session {
        SessionPresence::Absent => if w.session_stopped {
            "session stopped"@
        } else {
            "no session"@
        },
        SessionPresence::Detached => "session running"@,
        SessionPresence::Attached => "attached"@,
    }
}

/// The path with the home directory written short: only as a whole directory.
pub open spec fn shortened(path: Seq<char>, home: Option<Seq<char>>) -> Seq<char> {
    match home {
        Some(home) => if starts_with(path, home) && (path.len() == home.len() || path[
            home.len() as int
        ] == '/') {
            "~"@ + path.subrange(home.len() as int, path.len() as int)
        } else {
            path
        },
        None => path,
    }
}

/// The line under the name: what git says, what the session does, and where the
/// worktree is.
pub open spec fn line_under(w: WorktreeView, home: Option<Seq<char>>) -> Seq<char> {
    let place = session_text(w) + " · "@ + shortened(w.path, home);
    match w.git_status {
        Some(status) => status.summary@ + " · "@ + place,
        None => place,
    }
}

fn short_path(path: &str, home: Option<&str>) -> (r: String)
    ensures
        r@ == shortened(
            path@,
            match home {
                Some(home) => Some(home@),
                None => None,
            },
        ),
{
    if let Some(home) = home {
        if let Some(rest) = after_prefix(path, home) {
            assert(rest@ =~= path@.subrange(home@.len() as int, path@.len() as int));
            if rest.is_empty() || begins_with(rest, "/") {
                proof {
                    reveal_strlit("/");
                    if rest@.len() > 0 {
                        assert(rest@.subrange(0, 1)[0] == "/"@[0]);
                        assert(path@[home@.len() as int] == '/');
                    }
                }
                let mut short = "~".to_owned();
                short.append(rest);
                return short;
            }
            proof {
                reveal_strlit("/");
                if rest@.len() > 0 && rest@[0] == '/' {
                    assert(rest@.subrange(0, 1) =~= "/"@);
                }
            }
        }
    }
    path.to_owned()
}

/// The line under the name.
pub fn sublabel(worktree: &Worktree, home: Option<&str>) -> (r: String)
    ensures
        r@ == line_under(
            worktree@,
            match home {
                Some(home) => Some(home@),
                None => None,
            },
        ),
{
    let session = match worktree.session {
        SessionPresence::Absent => if worktree.session_stopped {
            "session stopped"
        } else {
            "no session"
        },
        SessionPresence::Detached => "session running",
        SessionPresence::Attached => "attached",
    };
    let mut place = session.to_owned();
    place.append(" · ");
    place.append(short_path(worktree.path.as_str(), home).as_str());
    match &worktree.git_status {
        Some(status) => {
            let mut line = status.summary.clone();
            line.append(" · ");
            line.append(place.as_str());
            line
        },
        None => place,
    }
}

/// A row never has more than three marks, and they always stand in the order
/// locked, detached, dirty.
pub proof fn marks_fit_and_stay_ordered(w: WorktreeView)
    ensures
        marks_of(w).len() <= 3,
        forall|i: int, j: int|
            0 <= i < j < marks_of(w).len() ==> {
                &&& (#[trigger] marks_of(w)[j]) != Marker::Locked
                &&& (#[trigger] marks_of(w)[i]) != Marker::Dirty
                &&& marks_of(w)[i] != marks_of(w)[j]
            },
{
}

}
