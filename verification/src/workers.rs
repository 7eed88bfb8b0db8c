//! What the window hands to its workers, and what comes back.
use vstd::prelude::*;
use vstd::string::*;

use crate::app::rows::{label_views, ref_views, ProjectRef, ProjectRefView, ProjectStatus};
use crate::model::{
    text_view, Project, SessionPresence, SessionReport, StatusSummary, WindowInfo, Worktree,
};
use crate::notices::Notification;
use crate::service::params::WorktreeAdd;
use crate::state::State;
use crate::status_watch::WorktreeLabel;
use crate::table::Table;
use crate::ui::dialogs::create_worktree::RefEntry;
use crate::ui::dialogs::removal::{RemovalOp, RemovalReport};
use crate::ui::dialogs::ErrorReport;
use crate::ui::orphans::OrphanSession;
use crate::ui::settings::{
    edit_views, Config, ConfigKey, Edit, HookOp, StatusConfig, StatusConfigView,
};

verus! {

/// The field a picked directory is for.
#[derive(Debug, Clone, Copy, PartialEq, Eq, Structural)]
pub enum PickTarget {
    ProjectPath,
    WorktreePath,
    WorktreeParent,
}

/// Something a worker is to do.
#[derive(Debug, PartialEq, Eq)]
pub enum Task {
    /// Read what is remembered.
    LoadState,
    /// Read the configuration.
    LoadConfig,
    /// Read the working trees of a project.
    RefreshStatuses { project_id: String },
    /// List the sessions.
    RefreshSessions,
    /// List the worktrees of a project again.
    RefreshProject { project_id: String },
    /// Fold or unfold a project.
    SetProjectExpanded { project_id: String, expanded: bool },
    /// Take a project out of the list.
    RemoveProject { project_id: String },
    /// Register the repository at a path.
    OpenProject { path: String },
    /// Make a worktree.
    CreateWorktree { project_id: String, add: WorktreeAdd, open_after: bool },
    /// List the branches of a project.
    LoadBaseRefs { project_id: String },
    /// Assess what removing a worktree would lose.
    GatherRemoval { worktree_id: String },
    /// Close a worktree's session.
    CloseSession { project_id: String, worktree_id: String },
    /// Remove a worktree.
    RemoveWorktree { project_id: String, worktree_id: String, force: bool },
    /// Delete a branch.
    DeleteBranch { project_id: String, branch: String, force: bool },
    /// Give a worktree a number.
    AssignSlot { number: u8, worktree_id: String },
    /// Take a worktree's number off.
    ClearSlot { worktree_id: String },
    /// Open a worktree's session.
    Activate { worktree_id: String },
    /// Open one window of a session.
    ActivateWindow { worktree_id: String, window_index: u32 },
    /// Attach one more terminal to a session.
    OpenInNewTerminal { worktree_id: String },
    /// Open a new window in a session.
    OpenNewWindow { worktree_id: String },
    /// Start an agent, or resume a conversation.
    StartAgent { worktree_id: String, resume: Option<String> },
    /// Bring the recorded conversations back.
    ResumeAgents,
    /// Drop the durable mark of attention.
    ClearAttention { worktree_id: String },
    /// Open a session that has no worktree.
    OpenSession { session: String },
    /// Make a session a worktree's own.
    AssociateSession { worktree_id: String, session: String },
    /// Close a session that has no worktree.
    CloseOrphan { session: String },
    /// Stop reporting a session.
    IgnoreSession { session: String },
    /// Report every session again.
    ClearIgnoredSessions,
    /// End every session.
    KillServer,
    /// Write the settings that changed.
    SaveConfig { edits: Vec<Edit> },
    /// Find a terminal.
    DetectTerminal,
    /// Look for the program of a terminal command.
    ProbeTerminal { command: String },
    /// Check, install or remove the hooks.
    ClaudeHooks { op: HookOp },
    /// Open the configuration file.
    OpenConfigFile,
    /// Open a file with the desktop's program for it.
    OpenWithDesktop { path: String },
    /// Ask for a directory.
    PickDirectory { target: PickTarget, start: Option<String> },
}

pub enum TaskView {
    LoadState,
    LoadConfig,
    RefreshStatuses { project_id: Seq<char> },
    RefreshSessions,
    RefreshProject { project_id: Seq<char> },
    SetProjectExpanded { project_id: Seq<char>, expanded: bool },
    RemoveProject { project_id: Seq<char> },
    OpenProject { path: Seq<char> },
    CreateWorktree { project_id: Seq<char>, add: WorktreeAdd, open_after: bool },
    LoadBaseRefs { project_id: Seq<char> },
    GatherRemoval { worktree_id: Seq<char> },
    CloseSession { project_id: Seq<char>, worktree_id: Seq<char> },
    RemoveWorktree { project_id: Seq<char>, worktree_id: Seq<char>, force: bool },
    DeleteBranch { project_id: Seq<char>, branch: Seq<char>, force: bool },
    AssignSlot { number: u8, worktree_id: Seq<char> },
    ClearSlot { worktree_id: Seq<char> },
    Activate { worktree_id: Seq<char> },
    ActivateWindow { worktree_id: Seq<char>, window_index: u32 },
    OpenInNewTerminal { worktree_id: Seq<char> },
    OpenNewWindow { worktree_id: Seq<char> },
    StartAgent { worktree_id: Seq<char>, resume: Option<Seq<char>> },
    ResumeAgents,
    ClearAttention { worktree_id: Seq<char> },
    OpenSession { session: Seq<char> },
    AssociateSession { worktree_id: Seq<char>, session: Seq<char> },
    CloseOrphan { session: Seq<char> },
    IgnoreSession { session: Seq<char> },
    ClearIgnoredSessions,
    KillServer,
    SaveConfig { edits: Seq<(ConfigKey, Seq<char>)> },
    DetectTerminal,
    ProbeTerminal { command: Seq<char> },
    ClaudeHooks { op: HookOp },
    OpenConfigFile,
    OpenWithDesktop { path: Seq<char> },
    PickDirectory { target: PickTarget, start: Option<Seq<char>> },
}

impl TaskView {
    /// The task takes something away: a project from the list, a session, a
    /// worktree or a branch.
    pub open spec fn destroys(self) -> bool {
        match self {
            TaskView::RemoveProject { .. } => true,
            TaskView::CloseSession { .. } => true,
            TaskView::RemoveWorktree { .. } => true,
            TaskView::DeleteBranch { .. } => true,
            TaskView::CloseOrphan { .. } => true,
            TaskView::KillServer => true,
            _ => false,
        }
    }
}

impl View for Task {
    type V = TaskView;

    open spec fn view(&self) -> TaskView {
        match *self {
            Task::LoadState => TaskView::LoadState,
            Task::LoadConfig => TaskView::LoadConfig,
            Task::RefreshStatuses { project_id } => TaskView::RefreshStatuses {
                project_id: project_id@,
            },
            Task::RefreshSessions => TaskView::RefreshSessions,
            Task::RefreshProject { project_id } => TaskView::RefreshProject {
                project_id: project_id@,
            },
            Task::SetProjectExpanded { project_id, expanded } => TaskView::SetProjectExpanded {
                project_id: project_id@,
                expanded,
            },
            Task::RemoveProject { project_id } => TaskView::RemoveProject {
                project_id: project_id@,
            },
            Task::OpenProject { path } => TaskView::OpenProject { path: path@ },
            Task::CreateWorktree { project_id, add, open_after } => TaskView::CreateWorktree {
                project_id: project_id@,
                add,
                open_after,
            },
            Task::LoadBaseRefs { project_id } => TaskView::LoadBaseRefs { project_id: project_id@ },
            Task::GatherRemoval { worktree_id } => TaskView::GatherRemoval {
                worktree_id: worktree_id@,
            },
            Task::CloseSession { project_id, worktree_id } => TaskView::CloseSession {
                project_id: project_id@,
                worktree_id: worktree_id@,
            },
            Task::RemoveWorktree { project_id, worktree_id, force } => TaskView::RemoveWorktree {
                project_id: project_id@,
                worktree_id: worktree_id@,
                force,
            },
            Task::DeleteBranch { project_id, branch, force } => TaskView::DeleteBranch {
                project_id: project_id@,
                branch: branch@,
                force,
            },
            Task::AssignSlot { number, worktree_id } => TaskView::AssignSlot {
                number,
                worktree_id: worktree_id@,
            },
            Task::ClearSlot { worktree_id } => TaskView::ClearSlot { worktree_id: worktree_id@ },
            Task::Activate { worktree_id } => TaskView::Activate { worktree_id: worktree_id@ },
            Task::ActivateWindow { worktree_id, window_index } => TaskView::ActivateWindow {
                worktree_id: worktree_id@,
                window_index,
            },
            Task::OpenInNewTerminal { worktree_id } => TaskView::OpenInNewTerminal {
                worktree_id: worktree_id@,
            },
            Task::OpenNewWindow { worktree_id } => TaskView::OpenNewWindow {
                worktree_id: worktree_id@,
            },
            Task::StartAgent { worktree_id, resume } => TaskView::StartAgent {
                worktree_id: worktree_id@,
                resume: text_view(resume),
            },
            Task::ResumeAgents => TaskView::ResumeAgents,
            Task::ClearAttention { worktree_id } => TaskView::ClearAttention {
                worktree_id: worktree_id@,
            },
            Task::OpenSession { session } => TaskView::OpenSession { session: session@ },
            Task::AssociateSession { worktree_id, session } => TaskView::AssociateSession {
                worktree_id: worktree_id@,
                session: session@,
            },
            Task::CloseOrphan { session } => TaskView::CloseOrphan { session: session@ },
            Task::IgnoreSession { session } => TaskView::IgnoreSession { session: session@ },
            Task::ClearIgnoredSessions => TaskView::ClearIgnoredSessions,
            Task::KillServer => TaskView::KillServer,
            Task::SaveConfig { edits } => TaskView::SaveConfig { edits: edit_views(edits@) },
            Task::DetectTerminal => TaskView::DetectTerminal,
            Task::ProbeTerminal { command } => TaskView::ProbeTerminal { command: command@ },
            Task::ClaudeHooks { op } => TaskView::ClaudeHooks { op },
            Task::OpenConfigFile => TaskView::OpenConfigFile,
            Task::OpenWithDesktop { path } => TaskView::OpenWithDesktop { path: path@ },
            Task::PickDirectory { target, start } => TaskView::PickDirectory {
                target,
                start: text_view(start),
            },
        }
    }
}

impl Task {
    /// What the idempotency key of the task starts with, where it has one.
    pub open spec fn key_start(self) -> Option<Seq<char>> {
        match self {
            Task::OpenProject { .. } => Some("gui-project-open-"@),
            Task::CreateWorktree { .. } => Some("gui-create-worktree-"@),
            Task::CloseSession { .. } => Some("gui-close-worktree-session-"@),
            Task::RemoveWorktree { .. } => Some("gui-remove-worktree-"@),
            Task::DeleteBranch { .. } => Some("gui-delete-branch-"@),
            Task::Activate { .. } => Some("gui-session-open-"@),
            Task::ActivateWindow { .. } => Some("gui-session-window-open-"@),
            Task::OpenInNewTerminal { .. } => Some("gui-additional-terminal-"@),
            Task::OpenNewWindow { .. } => Some("gui-session-window-create-"@),
            Task::StartAgent { .. } => Some("gui-agent-start-"@),
            Task::ResumeAgents => Some("gui-launch-"@),
            Task::ClearAttention { .. } => Some("gui-clear-attention-"@),
            Task::OpenSession { .. } => Some("gui-open-orphan-session-"@),
            Task::AssociateSession { .. } => Some("gui-associate-session-"@),
            Task::CloseOrphan { .. } => Some("gui-close-orphan-"@),
            Task::KillServer => Some("gui-stop-server-"@),
            _ => None,
        }
    }

    /// The idempotency key of the task, made with a fresh nonce. A task that only
    /// reads, or that can be repeated, has none.
    pub fn idempotency_key(&self, nonce: &str) -> (r: Option<String>)
        ensures
            text_view(r) == (match self.key_start() {
                Some(start) => Some(start + nonce@),
                None => None,
            }),
    {
        let start = match self {
            Task::OpenProject { .. } => "gui-project-open-",
            Task::CreateWorktree { .. } => "gui-create-worktree-",
            Task::CloseSession { .. } => "gui-close-worktree-session-",
            Task::RemoveWorktree { .. } => "gui-remove-worktree-",
            Task::DeleteBranch { .. } => "gui-delete-branch-",
            Task::Activate { .. } => "gui-session-open-",
            Task::ActivateWindow { .. } => "gui-session-window-open-",
            Task::OpenInNewTerminal { .. } => "gui-additional-terminal-",
            Task::OpenNewWindow { .. } => "gui-session-window-create-",
            Task::StartAgent { .. } => "gui-agent-start-",
            Task::ResumeAgents => "gui-launch-",
            Task::ClearAttention { .. } => "gui-clear-attention-",
            Task::OpenSession { .. } => "gui-open-orphan-session-",
            Task::AssociateSession { .. } => "gui-associate-session-",
            Task::CloseOrphan { .. } => "gui-close-orphan-",
            Task::KillServer => "gui-stop-server-",
            _ => {
                return None;
            },
        };
        let mut key = start.to_owned();
        key.append(nonce);
        Some(key)
    }
}

/// Something that is to happen outside the window's own state.
#[derive(Debug, PartialEq, Eq)]
pub enum Effect {
    /// Hand the task to a worker.
    Send(Task),
    /// Ask for a pass over these repositories and the sessions.
    Reconcile(Vec<ProjectRef>),
    /// Poll the sessions at once.
    Poll,
    /// Tell the poller how the statuses are told from now on.
    Reconfigure(StatusConfig),
    /// Tell the poller what the worktrees are called.
    Describe(Table<WorktreeLabel>),
    /// Print the line on standard error.
    Warn(String),
    /// Raise the window.
    Focus,
    /// Close the window.
    Close,
    /// The user opened the session: ask whether attention was raised for it.
    Opened(String),
    /// Forget whether attention was raised for the worktree.
    Forget(String),
    /// Hand an agent's report to the poller.
    Notified(Notification),
}

pub enum EffectView {
    Send(TaskView),
    Reconcile(Seq<ProjectRefView>),
    Poll,
    Reconfigure(StatusConfigView),
    Describe(Map<Seq<char>, (Seq<char>, Seq<char>)>),
    Warn(Seq<char>),
    Focus,
    Close,
    Opened(Seq<char>),
    Forget(Seq<char>),
    Notified(Notification),
}

/// Nothing that is to be done takes anything away.
pub open spec fn harmless(effects: Seq<EffectView>) -> bool {
    forall|i: int|
        0 <= i < effects.len() ==> ((#[trigger] effects[i]) matches EffectView::Send(task)
            ==> !task.destroys())
}

impl View for Effect {
    type V = EffectView;

    open spec fn view(&self) -> EffectView {
        match *self {
            Effect::Send(task) => EffectView::Send(task@),
            Effect::Reconcile(projects) => EffectView::Reconcile(ref_views(projects@)),
            Effect::Poll => EffectView::Poll,
            Effect::Reconfigure(config) => EffectView::Reconfigure(config@),
            Effect::Describe(labels) => EffectView::Describe(label_views(labels@)),
            Effect::Warn(line) => EffectView::Warn(line@),
            Effect::Focus => EffectView::Focus,
            Effect::Close => EffectView::Close,
            Effect::Opened(id) => EffectView::Opened(id@),
            Effect::Forget(id) => EffectView::Forget(id@),
            Effect::Notified(notification) => EffectView::Notified(notification),
        }
    }
}

pub open spec fn effect_views(effects: Seq<Effect>) -> Seq<EffectView> {
    effects.map_values(|e: Effect| e@)
}

/// How a session came to be shown.
#[derive(Debug, PartialEq, Eq)]
pub enum Activation {
    SwitchedClient { session: String, client_tty: String },
    LaunchedTerminal { session: String, command: String },
}

/// What the settings say of the hooks after an operation.
#[derive(Debug, PartialEq, Eq)]
pub struct HookChange {
    /// The agent whose settings these are, as it is called in a message.
    pub agent: String,
    pub path: String,
    pub changed: bool,
    /// Where the settings were copied to before they were changed.
    pub backup: Option<String>,
    /// The events that have a hook.
    pub installed: Vec<String>,
}

/// What a pass over the repositories and the sessions found.
#[derive(Debug, PartialEq, Eq)]
pub struct Reconciliation {
    pub projects: Vec<ProjectStatus>,
    pub orphans: Vec<OrphanSession>,
    pub ignored: usize,
    pub summary: String,
}

/// What an event of the service carries.
pub enum ServiceUpdate {
    State(State),
    Reconciliation { reconciliation: Reconciliation, state: State },
    Notification(Notification),
    ControlCompleted,
}

/// What a worker, the poller or the service has to say.
pub enum Message {
    StateLoaded(State),
    StateUpdated { state: State, status: String, reconcile: bool },
    ConfigLoaded { config: Config, created: bool, path: String },
    ConfigSaved { path: String },
    TerminalDetected { template: String },
    TerminalProbed { command: String, program: String, found: bool },
    DirectoryPicked { target: PickTarget, path: String },
    ProjectOpened(Project),
    WorktreesRefreshed { project_id: String, worktrees: Vec<Worktree> },
    StatusesRefreshed { project_id: String, statuses: Table<StatusSummary> },
    SessionsRefreshed {
        presence: Table<SessionPresence>,
        windows: Table<Vec<WindowInfo>>,
    },
    Reconciled { result: Reconciliation, state: State },
    SessionOpened { activation: Activation },
    Associated { worktree_id: String, session: String },
    ServerKilled,
    OrphanClosed { session: String },
    AgentsResumed { worktree_ids: Vec<String> },
    AgentStarted { worktree_id: String, unit: Option<String> },
    GitStatusDue,
    StatusPolled(Table<SessionReport>),
    WindowsPolled(Table<Vec<WindowInfo>>),
    Toggled { slot: Option<u8> },
    Notified(Notification),
    /// An event of the service, and what reading its payload came to.
    ServiceEvent { revision: u64, decoded: Result<ServiceUpdate, String> },
    ServiceEventsStarted { revision: u64 },
    ServiceEventsUnavailable,
    ClaudeHooks { op: HookOp, change: HookChange },
    BaseRefsLoaded { project_id: String, refs: Vec<RefEntry>, current: Option<String> },
    WorktreeCreated { project_id: String, path: String },
    RemovalGathered { project_id: String, worktree_id: String, report: RemovalReport },
    RemovalDone { project_id: String, operation: RemovalOp, detail: String },
    RemovalFailed { project_id: String, operation: RemovalOp, report: ErrorReport },
    Activated { worktree_id: String, activation: Activation },
    WindowOpened { worktree_id: String, window: u32, session: String },
    Failed(ErrorReport),
}

/// Whatever takes something away, but for taking a project out of the list, is sent
/// under a key, so that a retry is not carried out twice; a key starts with the words
/// of its task.
pub proof fn what_takes_something_away_has_a_key(task: Task)
    ensures
        task@.destroys() && !(task is RemoveProject) ==> task.key_start() is Some,
        task is CloseSession ==> task.key_start() == Some("gui-close-worktree-session-"@),
        task is RemoveWorktree ==> task.key_start() == Some("gui-remove-worktree-"@),
        task is DeleteBranch ==> task.key_start() == Some("gui-delete-branch-"@),
        task is CloseOrphan ==> task.key_start() == Some("gui-close-orphan-"@),
        task is KillServer ==> task.key_start() == Some("gui-stop-server-"@),
        task is Activate ==> task.key_start() == Some("gui-session-open-"@),
        task is ActivateWindow ==> task.key_start() == Some("gui-session-window-open-"@),
        task is OpenInNewTerminal ==> task.key_start() == Some("gui-additional-terminal-"@),
        task is OpenNewWindow ==> task.key_start() == Some("gui-session-window-create-"@),
        task is StartAgent ==> task.key_start() == Some("gui-agent-start-"@),
        task is CreateWorktree ==> task.key_start() == Some("gui-create-worktree-"@),
{
}

}
