//! Projects, worktrees, sessions and what is known of them.
use vstd::prelude::*;
use vstd::string::*;

verus! {

/// The highest number a worktree can be given.
pub const MAX_SLOT: u8 = 9;

/// What an agent, or the lack of activity, says of a session.
#[derive(Clone, Copy, Debug, PartialEq, Eq, Structural)]
pub enum SessionStatus {
    Idle,
    Working,
    Done,
    Attention,
}

/// Why a session asks for the user.
#[derive(Clone, Copy, Debug, PartialEq, Eq, Structural)]
pub enum AttentionReason {
    WaitingInput,
    Permission,
    Blocked,
    Failed,
}

/// Whether a worktree has a session, and whether somebody looks at it.
#[derive(Clone, Copy, Debug, PartialEq, Eq, Structural)]
pub enum SessionPresence {
    Absent,
    Detached,
    Attached,
}

impl SessionPresence {
    pub open spec fn live(self) -> bool {
        !(self is Absent)
    }

    pub fn is_live(self) -> (r: bool)
        ensures
            r == self.live(),
    {
        match self {
            SessionPresence::Absent => false,
            _ => true,
        }
    }
}

/// What git said of a working tree.
#[derive(Debug, PartialEq, Eq)]
pub struct StatusSummary {
    pub clean: bool,
    /// A merge, a rebase or the like is under way.
    pub in_operation: bool,
    pub summary: String,
}

impl Clone for StatusSummary {
    fn clone(&self) -> (r: Self)
        ensures
            r == *self,
    {
        StatusSummary {
            clean: self.clean,
            in_operation: self.in_operation,
            summary: self.summary.clone(),
        }
    }
}

/// One window of a session.
#[derive(Debug, PartialEq, Eq)]
pub struct WindowInfo {
    pub session: String,
    pub index: u32,
    pub name: String,
    pub active: bool,
    pub bell: bool,
    pub title: Option<String>,
    pub activity_epoch: Option<u64>,
    pub status: Option<SessionStatus>,
}

/// A copy of an optional text.
pub fn copy_text(text: &Option<String>) -> (r: Option<String>)
    ensures
        r == *text,
{
    match text {
        Some(text) => Some(text.clone()),
        None => None,
    }
}

impl Clone for WindowInfo {
    fn clone(&self) -> (r: Self)
        ensures
            r == *self,
    {
        WindowInfo {
            session: self.session.clone(),
            index: self.index,
            name: self.name.clone(),
            active: self.active,
            bell: self.bell,
            title: copy_text(&self.title),
            activity_epoch: self.activity_epoch,
            status: self.status,
        }
    }
}

/// What an agent said in one window.
#[derive(Debug, PartialEq, Eq)]
pub struct WindowNote {
    pub index: u32,
    pub state: SessionStatus,
    pub reason: Option<AttentionReason>,
    pub message: Option<String>,
}

impl Clone for WindowNote {
    fn clone(&self) -> (r: Self)
        ensures
            r == *self,
    {
        WindowNote {
            index: self.index,
            state: self.state,
            reason: self.reason,
            message: copy_text(&self.message),
        }
    }
}

/// The resources a session has used.
#[derive(Clone, Copy, Debug, PartialEq, Eq, Structural)]
pub struct Usage {
    pub memory_bytes: u64,
    pub cpu_usec: u64,
}

/// Two readings of a session's use, and the time between them.
#[derive(Clone, Copy, Debug, PartialEq, Eq, Structural)]
pub struct CpuSpan {
    pub previous: Usage,
    pub current: Usage,
    pub elapsed_nanos: u128,
}

/// What a poll said of one session.
#[derive(Clone, Copy, Debug, PartialEq, Eq, Structural)]
pub struct SessionReport {
    pub status: SessionStatus,
    pub usage: Option<Usage>,
    pub cpu: Option<CpuSpan>,
}

/// One line of work: a worktree, as it is listed.
#[derive(Debug, PartialEq, Eq)]
pub struct Worktree {
    pub id: String,
    pub project_id: String,
    pub path: String,
    pub label: String,
    pub branch: Option<String>,
    pub is_locked: bool,
    pub is_detached: bool,
    pub is_missing: bool,
    pub git_status: Option<StatusSummary>,
    pub session: SessionPresence,
    /// There was a session and it is not running.
    pub session_stopped: bool,
    pub status: Option<SessionStatus>,
    pub status_message: Option<String>,
    pub attention_reason: Option<AttentionReason>,
    pub windows: Vec<WindowInfo>,
    pub window_notes: Vec<WindowNote>,
}

pub struct WorktreeView {
    pub id: Seq<char>,
    pub project_id: Seq<char>,
    pub path: Seq<char>,
    pub label: Seq<char>,
    pub branch: Option<Seq<char>>,
    pub is_locked: bool,
    pub is_detached: bool,
    pub is_missing: bool,
    pub git_status: Option<StatusSummary>,
    pub session: SessionPresence,
    pub session_stopped: bool,
    pub status: Option<SessionStatus>,
    pub status_message: Option<Seq<char>>,
    pub attention_reason: Option<AttentionReason>,
    pub windows: Seq<WindowInfo>,
    pub window_notes: Seq<WindowNote>,
}

pub open spec fn text_view(text: Option<String>) -> Option<Seq<char>> {
    match text {
        Some(text) => Some(text@),
        None => None,
    }
}

impl View for Worktree {
    type V = WorktreeView;

    open spec fn view(&self) -> WorktreeView {
        WorktreeView {
            id: self.id@,
            project_id: self.project_id@,
            path: self.path@,
            label: self.label@,
            branch: text_view(self.branch),
            is_locked: self.is_locked,
            is_detached: self.is_detached,
            is_missing: self.is_missing,
            git_status: self.git_status,
            session: self.session,
            session_stopped: self.session_stopped,
            status: self.status,
            status_message: text_view(self.status_message),
            attention_reason: self.attention_reason,
            windows: self.windows@,
            window_notes: self.window_notes@,
        }
    }
}

/// The name of the session that belongs to a worktree.
pub open spec fn session_name_of(id: Seq<char>) -> Seq<char> {
    "wt-"@ + id
}

impl Worktree {
    /// The name of the session that belongs to this worktree.
    pub fn session_name(&self) -> (r: String)
        ensures
            r@ == session_name_of(self.id@),
    {
        let mut name = "wt-".to_owned();
        name.append(self.id.as_str());
        name
    }
}

/// A copy of a list of windows.
pub fn copy_windows(windows: &Vec<WindowInfo>) -> (r: Vec<WindowInfo>)
    ensures
        r@ == windows@,
{
    let mut out: Vec<WindowInfo> = Vec::new();
    let mut i: usize = 0;
    while i < windows.len()
        invariant
            i <= windows.len(),
            out@ == windows@.subrange(0, i as int),
        decreases windows.len() - i,
    {
        out.push(windows[i].clone());
        i += 1;
        assert(out@ =~= windows@.subrange(0, i as int));
    }
    assert(out@ =~= windows@);
    out
}

/// The views of a list of worktrees.
pub open spec fn worktree_views(worktrees: Seq<Worktree>) -> Seq<WorktreeView> {
    worktrees.map_values(|w: Worktree| w@)
}

/// One repository and its worktrees, as it is listed.
#[derive(Debug, PartialEq, Eq)]
pub struct Project {
    pub id: String,
    pub name: String,
    pub repository_path: String,
    pub git_common_dir: String,
    pub default_worktree_path: String,
    pub is_expanded: bool,
    pub worktrees: Vec<Worktree>,
    /// Why the project cannot be read, where it cannot.
    pub unavailable: Option<String>,
}

pub struct ProjectView {
    pub id: Seq<char>,
    pub name: Seq<char>,
    pub repository_path: Seq<char>,
    pub git_common_dir: Seq<char>,
    pub default_worktree_path: Seq<char>,
    pub is_expanded: bool,
    pub worktrees: Seq<WorktreeView>,
    pub unavailable: Option<Seq<char>>,
}

impl View for Project {
    type V = ProjectView;

    open spec fn view(&self) -> ProjectView {
        ProjectView {
            id: self.id@,
            name: self.name@,
            repository_path: self.repository_path@,
            git_common_dir: self.git_common_dir@,
            default_worktree_path: self.default_worktree_path@,
            is_expanded: self.is_expanded,
            worktrees: worktree_views(self.worktrees@),
            unavailable: text_view(self.unavailable),
        }
    }
}

/// The views of a list of projects.
pub open spec fn project_views(projects: Seq<Project>) -> Seq<ProjectView> {
    projects.map_values(|p: Project| p@)
}

/// The place of the first worktree with this id.
pub open spec fn worktree_at(worktrees: Seq<WorktreeView>, id: Seq<char>) -> Option<int>
    decreases worktrees.len(),
{
    if worktrees.len() == 0 {
        None
    } else {
        match worktree_at(worktrees.drop_last(), id) {
            Some(i) => Some(i),
            None => if worktrees.last().id == id {
                Some(worktrees.len() - 1)
            } else {
                None
            },
        }
    }
}

/// The place of the first project with this id.
pub open spec fn project_at(projects: Seq<ProjectView>, id: Seq<char>) -> Option<int>
    decreases projects.len(),
{
    if projects.len() == 0 {
        None
    } else {
        match project_at(projects.drop_last(), id) {
            Some(i) => Some(i),
            None => if projects.last().id == id {
                Some(projects.len() - 1)
            } else {
                None
            },
        }
    }
}

/// What `worktree_at` finds is the first of its id, and it finds one where there
/// is one.
pub proof fn worktree_at_is_first(worktrees: Seq<WorktreeView>, id: Seq<char>)
    ensures
        match worktree_at(worktrees, id) {
            Some(i) => {
                &&& 0 <= i < worktrees.len()
                &&& worktrees[i].id == id
                &&& forall|k: int| 0 <= k < i ==> (#[trigger] worktrees[k]).id != id
            },
            None => forall|k: int| 0 <= k < worktrees.len() ==> (#[trigger] worktrees[k]).id != id,
        },
    decreases worktrees.len(),
{
    if worktrees.len() > 0 {
        let init = worktrees.drop_last();
        worktree_at_is_first(init, id);
        assert forall|k: int| 0 <= k < init.len() implies init[k] == #[trigger] worktrees[k] by {}
    }
}

/// What `project_at` finds is the first of its id, and it finds one where there
/// is one.
pub proof fn project_at_is_first(projects: Seq<ProjectView>, id: Seq<char>)
    ensures
        match project_at(projects, id) {
            Some(i) => {
                &&& 0 <= i < projects.len()
                &&& projects[i].id == id
                &&& forall|k: int| 0 <= k < i ==> (#[trigger] projects[k]).id != id
            },
            None => forall|k: int| 0 <= k < projects.len() ==> (#[trigger] projects[k]).id != id,
        },
    decreases projects.len(),
{
    if projects.len() > 0 {
        let init = projects.drop_last();
        project_at_is_first(init, id);
        assert forall|k: int| 0 <= k < init.len() implies init[k] == #[trigger] projects[k] by {}
    }
}

/// The place of the first worktree with this id.
pub fn find_worktree(worktrees: &Vec<Worktree>, id: &str) -> (r: Option<usize>)
    ensures
        r is Some <==> worktree_at(worktree_views(worktrees@), id@) is Some,
        r matches Some(i) ==> i < worktrees.len() && worktree_at(worktree_views(worktrees@), id@)
            == Some(i as int),
{
    let wanted = id.to_owned();
    let ghost views = worktree_views(worktrees@);
    let mut i: usize = 0;
    proof {
        worktree_at_is_first(views, id@);
    }
    while i < worktrees.len()
        invariant
            i <= worktrees.len(),
            wanted@ == id@,
            views == worktree_views(worktrees@),
            forall|k: int| 0 <= k < i ==> (#[trigger] views[k]).id != id@,
        decreases worktrees.len() - i,
    {
        assert(views[i as int].id == worktrees@[i as int].id@);
        if worktrees[i].id == wanted {
            proof {
                worktree_at_is_first(views, id@);
            }
            return Some(i);
        }
        i += 1;
    }
    None
}

/// The place of the first project with this id.
pub fn find_project(projects: &Vec<Project>, id: &str) -> (r: Option<usize>)
    ensures
        r is Some <==> project_at(project_views(projects@), id@) is Some,
        r matches Some(i) ==> i < projects.len() && project_at(project_views(projects@), id@)
            == Some(i as int),
{
    let wanted = id.to_owned();
    let ghost views = project_views(projects@);
    let mut i: usize = 0;
    proof {
        project_at_is_first(views, id@);
    }
    while i < projects.len()
        invariant
            i <= projects.len(),
            wanted@ == id@,
            views == project_views(projects@),
            forall|k: int| 0 <= k < i ==> (#[trigger] views[k]).id != id@,
        decreases projects.len() - i,
    {
        assert(views[i as int].id == projects@[i as int].id@);
        if projects[i].id == wanted {
            proof {
                project_at_is_first(views, id@);
            }
            return Some(i);
        }
        i += 1;
    }
    None
}

}
