//! What the windows show and what a click on them means.
use vstd::prelude::*;

pub mod appearance;
pub mod backdrop;
pub mod chrome;
pub mod dialogs;
pub mod orphans;
pub mod project_list;
pub mod settings;
pub mod window_edge;
pub mod window_row;
pub mod worktree_row;

verus! {

/// Something the user asked for in the list.
#[derive(Debug, Clone, PartialEq, Eq)]
pub enum Action {
    ToggleProject(String),
    RefreshProject(String),
    /// Open the create-worktree dialog for a project.
    CreateWorktree(String),
    /// Take a project out of Grove's list.
    RemoveProject(String),
    /// Open the open-project dialog where a lost project used to be.
    LocateProject(String),
    ActivateWorktree { project_id: String, worktree_id: String },
    /// Open one window of a worktree's session.
    ActivateWindow { project_id: String, worktree_id: String, window_index: u32 },
    /// Select a row without opening anything.
    SelectWorktree { project_id: String, worktree_id: String },
    /// Attach one more terminal to the session.
    OpenInNewTerminal { project_id: String, worktree_id: String },
    /// Open a new window in the session.
    OpenNewWindow { project_id: String, worktree_id: String },
    StartAgent { project_id: String, worktree_id: String },
    /// Take up the conversation the agent last reported.
    ResumeAgent { project_id: String, worktree_id: String },
    OpenAgentTranscript { worktree_id: String },
    /// Give the worktree a number, or take it off.
    SetWorktreeSlot { worktree_id: String, slot: Option<u8> },
    /// Open the removal dialog for a worktree.
    RemoveWorktree { project_id: String, worktree_id: String },
}

}
