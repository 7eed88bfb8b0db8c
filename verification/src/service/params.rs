//! The typed parameters of the service's methods: what a caller may send.
use vstd::prelude::*;

verus! {

/// A worktree to be made: where, on which new branch, from which ref.
#[derive(Clone, Debug, PartialEq, Eq)]
pub struct WorktreeAdd {
    pub path: String,
    pub new_branch: Option<String>,
    pub base_ref: Option<String>,
}

#[derive(Debug)]
pub struct ControlParams {
    pub worktree_id: String,
    pub idempotency_key: Option<String>,
    pub resume: Option<String>,
    pub window_index: Option<u32>,
    pub orphan_session: Option<String>,
}

#[derive(Debug)]
pub struct ResumeRecordedParams {
    pub idempotency_key: String,
}

#[derive(Debug)]
pub struct CloseSessionParams {
    pub session: String,
    pub idempotency_key: String,
}

#[derive(Debug)]
pub struct OpenOrphanParams {
    pub session: String,
    pub idempotency_key: String,
}

#[derive(Debug)]
pub struct StopServerParams {
    pub idempotency_key: String,
}

#[derive(Debug)]
pub struct OpenProjectParams {
    pub path: String,
    pub idempotency_key: String,
}

#[derive(Debug)]
pub struct ProjectExpandedParams {
    pub project_id: String,
    pub expanded: bool,
}

#[derive(Debug)]
pub struct SlotAssignParams {
    pub number: u8,
    pub worktree_id: String,
}

#[derive(Debug)]
pub struct CreateWorktreeParams {
    pub project_id: String,
    pub add: WorktreeAdd,
    pub idempotency_key: String,
}

#[derive(Debug)]
pub struct RemoveWorktreeParams {
    pub worktree_id: String,
    pub force: bool,
    pub idempotency_key: String,
}

#[derive(Debug)]
pub struct DeleteBranchParams {
    pub project_id: String,
    pub branch: String,
    pub force: bool,
    pub idempotency_key: String,
}

}
