//! The safe-removal dialog.
//!
//! Four operations, never bundled: remove the project from Grove, close the
//! session, remove the worktree, delete the branch. Each needs its own
//! confirmation click, and the forced variants are only offered after git has
//! refused and its refusal has been shown.
use vstd::prelude::*;
use vstd::string::*;

use crate::text::{contains, occurs_at};

verus! {

/// One of the four operations, as it will be executed.
#[derive(Debug, Clone, Copy, PartialEq, Eq, Structural)]
pub enum Request {
    /// Only Grove's own index.
    RemoveProject,
    CloseSession,
    RemoveWorktree { force: bool },
    DeleteBranch { force: bool },
}

impl Request {
    /// What the confirmation says.
    pub open spec fn confirmation(self) -> Seq<char> {
        match self {
            Request::RemoveProject => "Confirm: remove from Grove only"@,
            Request::CloseSession => "Confirm: kill the tmux session"@,
            Request::RemoveWorktree { force: false } => "Confirm: remove the worktree"@,
            Request::RemoveWorktree { force: true } =>
                "Confirm: force-remove, discarding those files"@,
            Request::DeleteBranch { force: false } => "Confirm: delete the branch"@,
            Request::DeleteBranch { force: true } =>
                "Confirm: force-delete, discarding those commits"@,
        }
    }

    /// The wording of the confirmation button: exactly what will happen.
    pub fn confirm_label(&self) -> (r: String)
        ensures
            r@ == self.confirmation(),
    {
        match *self {
            Request::RemoveProject => "Confirm: remove from Grove only".to_owned(),
            Request::CloseSession => "Confirm: kill the tmux session".to_owned(),
            Request::RemoveWorktree { force: false } => "Confirm: remove the worktree".to_owned(),
            Request::RemoveWorktree { force: true } =>
                "Confirm: force-remove, discarding those files".to_owned(),
            Request::DeleteBranch { force: false } => "Confirm: delete the branch".to_owned(),
            Request::DeleteBranch { force: true } =>
                "Confirm: force-delete, discarding those commits".to_owned(),
        }
    }

    /// Whether the operation changes anything outside Grove's own index.
    pub fn is_destructive(&self) -> (r: bool)
        ensures
            r == (*self != Request::RemoveProject),
    {
        match *self {
            Request::RemoveProject => false,
            _ => true,
        }
    }

    /// The operation overrides a refusal of git.
    pub open spec fn forces(self) -> bool {
        self == Request::RemoveWorktree { force: true } || self == Request::DeleteBranch {
            force: true,
        }
    }
}

/// An operation that was carried out or refused.
#[derive(Debug, Clone, Copy, PartialEq, Eq, Structural)]
pub enum RemovalOp {
    CloseSession,
    RemoveWorktree,
    DeleteBranch,
}

/// How much a finding weighs.
#[derive(Debug, Clone, Copy, PartialEq, Eq, Structural)]
pub enum Severity {
    Blocker,
    Warning,
    Note,
}

#[derive(Debug, Clone, PartialEq, Eq)]
pub struct Finding {
    pub severity: Severity,
    pub text: String,
}

/// What would be lost, and what can be done at all.
#[derive(Debug, Clone, PartialEq, Eq)]
pub struct RemovalReport {
    pub findings: Vec<Finding>,
    pub can_remove_worktree: bool,
    pub can_delete_branch: bool,
}

/// Dialog state held between frames.
#[derive(Debug, Clone, PartialEq, Eq)]
pub struct RemovalForm {
    pub project_id: String,
    pub project_name: String,
    pub repository_path: String,
    pub git_common_dir: String,
    pub worktree_id: String,
    pub worktree_label: String,
    pub worktree_path: String,
    pub branch: Option<String>,
    pub session: Option<String>,
    /// What was assessed. Until it is there, no git operation is offered.
    pub report: Option<RemovalReport>,
    /// The operation that awaits its confirmation click.
    pub armed: Option<Request>,
    /// Git has refused, which is the only way a forced variant is offered.
    pub force_worktree_offered: bool,
    pub force_branch_offered: bool,
    /// What has been done in this dialog, and what was refused.
    pub done: Vec<String>,
    pub refusals: Vec<String>,
}

/// One operation as the dialog shows it.
#[derive(Debug, PartialEq, Eq)]
pub struct Step {
    pub operation: Request,
    pub label: String,
    pub explanation: String,
    /// The button can be pressed.
    pub enabled: bool,
    /// The button is a confirmation, with a way to back out beside it.
    pub armed: bool,
}

pub struct StepView {
    pub operation: Request,
    pub label: Seq<char>,
    pub explanation: Seq<char>,
    pub enabled: bool,
    pub armed: bool,
}

impl View for Step {
    type V = StepView;

    open spec fn view(&self) -> StepView {
        StepView {
            operation: self.operation,
            label: self.label@,
            explanation: self.explanation@,
            enabled: self.enabled,
            armed: self.armed,
        }
    }
}

pub open spec fn step_views(steps: Seq<Step>) -> Seq<StepView> {
    steps.map_values(|s: Step| s@)
}

/// A press on a step.
#[derive(Debug, Clone, Copy, PartialEq, Eq, Structural)]
pub enum Press {
    /// The operation's own button, or its confirmation.
    Button,
    /// The way out of a confirmation.
    Cancel,
}

impl RemovalForm {
    pub open spec fn can_remove(self) -> bool {
        self.report is Some && self.report->0.can_remove_worktree
    }

    pub open spec fn can_delete(self) -> bool {
        self.report is Some && self.report->0.can_delete_branch
    }

    pub open spec fn step_for(
        self,
        operation: Request,
        label: Seq<char>,
        explanation: Seq<char>,
        enabled: bool,
    ) -> StepView {
        StepView {
            operation,
            label,
            explanation,
            enabled,
            armed: self.armed == Some(operation),
        }
    }

    pub open spec fn branch_label(self) -> Seq<char> {
        match self.branch {
            Some(branch) => "Delete the branch "@ + branch@,
            None => "Delete the branch"@,
        }
    }

    /// The steps that are always shown, and the forced ones that are unlocked.
    pub open spec fn steps(self) -> Seq<StepView> {
        let first = seq![
            self.step_for(
                Request::RemoveProject,
                "Remove “"@ + self.project_name@ + "” from Grove"@,
                "Metadata only — the repository, worktrees and sessions are untouched."@,
                true,
            ),
            self.step_for(
                Request::CloseSession,
                "Close the tmux session"@,
                "Kills the session on Grove's private server. No files are touched."@,
                self.session is Some,
            ),
            self.step_for(
                Request::RemoveWorktree { force: false },
                "Remove the git worktree"@,
                "Deletes the directory. The branch and its commits stay."@,
                self.can_remove(),
            ),
        ];
        let second = if self.can_remove() && self.force_worktree_offered {
            first.push(
                self.step_for(
                    Request::RemoveWorktree { force: true },
                    "Remove the git worktree, discarding those changes"@,
                    "git refused above. This passes --force and the listed files are lost."@,
                    true,
                ),
            )
        } else {
            first
        };
        let third = second.push(
            self.step_for(
                Request::DeleteBranch { force: false },
                self.branch_label(),
                "`git branch -d`, which refuses if the branch is not merged."@,
                self.can_delete(),
            ),
        );
        if self.can_delete() && self.force_branch_offered {
            third.push(
                self.step_for(
                    Request::DeleteBranch { force: true },
                    "Delete the branch, discarding unmerged commits"@,
                    "git refused above. This passes -D and those commits are lost."@,
                    true,
                ),
            )
        } else {
            third
        }
    }

    /// Takes a refusal down. For the two operations that have one, it unlocks
    /// the forced variant; it disarms the button.
    pub fn note_refusal(&mut self, operation: RemovalOp, message: String)
        ensures
            final(self).refusals@ == old(self).refusals@.push(message),
            *final(self) == (RemovalForm {
                force_worktree_offered: old(self).force_worktree_offered || operation
                    == RemovalOp::RemoveWorktree,
                force_branch_offered: old(self).force_branch_offered || operation
                    == RemovalOp::DeleteBranch,
                armed: None,
                refusals: final(self).refusals,
                ..*old(self)
            }),
    {
        match operation {
            RemovalOp::RemoveWorktree => {
                self.force_worktree_offered = true;
            },
            RemovalOp::DeleteBranch => {
                self.force_branch_offered = true;
            },
            RemovalOp::CloseSession => {},
        }
        self.armed = None;
        self.refusals.push(message);
    }

    /// Takes a success down. The dialog stays: the remaining operations are
    /// still separate decisions, and what was done is not offered again.
    pub fn note_done(&mut self, operation: RemovalOp, detail: String)
        ensures
            final(self).done@ == old(self).done@.push(detail),
            *final(self) == (RemovalForm {
                session: if operation == RemovalOp::CloseSession {
                    None
                } else {
                    old(self).session
                },
                branch: if operation == RemovalOp::DeleteBranch {
                    None
                } else {
                    old(self).branch
                },
                force_worktree_offered: old(self).force_worktree_offered && operation
                    != RemovalOp::RemoveWorktree,
                force_branch_offered: old(self).force_branch_offered && operation
                    != RemovalOp::DeleteBranch,
                report: match old(self).report {
                    Some(report) => Some(
                        RemovalReport {
                            can_remove_worktree: report.can_remove_worktree && operation
                                != RemovalOp::RemoveWorktree,
                            can_delete_branch: report.can_delete_branch && operation
                                != RemovalOp::DeleteBranch,
                            ..report
                        },
                    ),
                    None => None,
                },
                done: final(self).done,
                ..*old(self)
            }),
    {
        match operation {
            RemovalOp::CloseSession => {
                self.session = None;
            },
            RemovalOp::RemoveWorktree => {
                self.force_worktree_offered = false;
                if let Some(report) = &mut self.report {
                    report.can_remove_worktree = false;
                }
            },
            RemovalOp::DeleteBranch => {
                self.force_branch_offered = false;
                self.branch = None;
                if let Some(report) = &mut self.report {
                    report.can_delete_branch = false;
                }
            },
        }
        self.done.push(detail);
    }

    fn step(&self, operation: Request, label: &str, explanation: &str, enabled: bool) -> (r: Step)
        ensures
            r@ == self.step_for(operation, label@, explanation@, enabled),
    {
        let armed = match self.armed {
            Some(waiting) => waiting == operation,
            None => false,
        };
        Step {
            operation,
            label: label.to_owned(),
            explanation: explanation.to_owned(),
            enabled,
            armed,
        }
    }

    /// The operations as the dialog offers them, in order.
    pub fn operations(&self) -> (r: Vec<Step>)
        ensures
            step_views(r@) == self.steps(),
    {
        let mut steps: Vec<Step> = Vec::new();
        let mut remove_project = "Remove “".to_owned();
        remove_project.append(self.project_name.as_str());
        remove_project.append("” from Grove");
        steps.push(
            self.step(
                Request::RemoveProject,
                remove_project.as_str(),
                "Metadata only — the repository, worktrees and sessions are untouched.",
                true,
            ),
        );
        steps.push(
            self.step(
                Request::CloseSession,
                "Close the tmux session",
                "Kills the session on Grove's private server. No files are touched.",
                self.session.is_some(),
            ),
        );
        let can_remove = match &self.report {
            Some(report) => report.can_remove_worktree,
            None => false,
        };
        steps.push(
            self.step(
                Request::RemoveWorktree { force: false },
                "Remove the git worktree",
                "Deletes the directory. The branch and its commits stay.",
                can_remove,
            ),
        );
        if can_remove && self.force_worktree_offered {
            steps.push(
                self.step(
                    Request::RemoveWorktree { force: true },
                    "Remove the git worktree, discarding those changes",
                    "git refused above. This passes --force and the listed files are lost.",
                    true,
                ),
            );
        }
        let can_delete = match &self.report {
            Some(report) => report.can_delete_branch,
            None => false,
        };
        let mut delete_label = "Delete the branch".to_owned();
        if let Some(branch) = &self.branch {
            delete_label = "Delete the branch ".to_owned();
            delete_label.append(branch.as_str());
        }
        steps.push(
            self.step(
                Request::DeleteBranch { force: false },
                delete_label.as_str(),
                "`git branch -d`, which refuses if the branch is not merged.",
                can_delete,
            ),
        );
        if can_delete && self.force_branch_offered {
            steps.push(
                self.step(
                    Request::DeleteBranch { force: true },
                    "Delete the branch, discarding unmerged commits",
                    "git refused above. This passes -D and those commits are lost.",
                    true,
                ),
            );
        }
        assert(step_views(steps@) =~= self.steps());
        steps
    }

    /// What a press on a step asks for: only a confirmation asks for anything.
    pub open spec fn pressed(step: StepView, press: Press) -> Option<Request> {
        if step.armed && press == Press::Button {
            Some(step.operation)
        } else {
            None
        }
    }

    /// What awaits its confirmation after a press on a step.
    pub open spec fn armed_after(self, step: StepView, press: Press) -> Option<Request> {
        if step.armed {
            None
        } else if step.enabled && press == Press::Button {
            Some(step.operation)
        } else {
            self.armed
        }
    }

    /// What a press on a step comes to: the first click asks, the confirmation
    /// does it, and the way out does nothing.
    pub fn press(&mut self, step: &Step, press: Press) -> (r: Option<Request>)
        ensures
            r == Self::pressed(step@, press),
            *final(self) == (RemovalForm {
                armed: old(self).armed_after(step@, press),
                ..*old(self)
            }),
    {
        if step.armed {
            self.armed = None;
            match press {
                Press::Button => Some(step.operation),
                Press::Cancel => None,
            }
        } else {
            if step.enabled {
                match press {
                    Press::Button => {
                        self.armed = Some(step.operation);
                    },
                    Press::Cancel => {},
                }
            }
            None
        }
    }
}

/// The title of the window.
pub fn title(form: &RemovalForm) -> (r: String)
    ensures
        r@ == "Remove — "@ + form.worktree_label@,
{
    let mut title = "Remove — ".to_owned();
    title.append(form.worktree_label.as_str());
    title
}

/// What one frame of the dialog asks for: nothing where it is being closed.
pub fn show(confirmed: Option<Request>, closed: bool) -> (r: Option<Request>)
    ensures
        r == (if closed {
            None
        } else {
            confirmed
        }),
{
    if closed {
        None
    } else {
        confirmed
    }
}

/// The line under the path: which branch the worktree is on.
pub fn branch_line(form: &RemovalForm) -> (r: String)
    ensures
        r@ == (match form.branch {
            Some(branch) => "branch "@ + branch@,
            None => "no branch (detached HEAD)"@,
        }),
{
    match &form.branch {
        Some(branch) => {
            let mut line = "branch ".to_owned();
            line.append(branch.as_str());
            line
        },
        None => "no branch (detached HEAD)".to_owned(),
    }
}

proof fn lemma_absent(hay: Seq<char>, needle: Seq<char>, k: int)
    requires
        0 <= k < needle.len(),
        forall|i: int| 0 <= i < hay.len() ==> #[trigger] hay[i] != needle[k],
    ensures
        !contains(hay, needle),
{
    assert forall|at: int| !occurs_at(hay, needle, at) by {
        if occurs_at(hay, needle, at) {
            assert(hay.subrange(at, at + needle.len())[k] == needle[k]);
            assert(hay[at + k] == needle[k]);
        }
    }
}

proof fn lemma_present(hay: Seq<char>, needle: Seq<char>, at: int)
    requires
        0 <= at,
        at + needle.len() <= hay.len(),
        forall|k: int| 0 <= k < needle.len() ==> hay[at + k] == #[trigger] needle[k],
    ensures
        contains(hay, needle),
{
    assert(hay.subrange(at, at + needle.len()) =~= needle);
    assert(occurs_at(hay, needle, at));
}

proof fn lemma_words_of(a: Request)
    ensures
        contains(a.confirmation(), "discarding"@) <==> a.forces(),
        contains(a.confirmation(), "force"@) <==> a.forces(),
{
    let label = a.confirmation();
    reveal_strlit("discarding");
    reveal_strlit("force");
    match a {
        Request::RemoveProject => {
            reveal_strlit("Confirm: remove from Grove only");
            lemma_absent(label, "discarding"@, 9);
            lemma_absent(label, "force"@, 3);
        },
        Request::CloseSession => {
            reveal_strlit("Confirm: kill the tmux session");
            lemma_absent(label, "discarding"@, 9);
            lemma_absent(label, "force"@, 3);
        },
        Request::RemoveWorktree { force: false } => {
            reveal_strlit("Confirm: remove the worktree");
            lemma_absent(label, "discarding"@, 9);
            lemma_absent(label, "force"@, 3);
        },
        Request::DeleteBranch { force: false } => {
            reveal_strlit("Confirm: delete the branch");
            lemma_absent(label, "discarding"@, 9);
            assert forall|at: int| !occurs_at(label, "force"@, at) by {
                if occurs_at(label, "force"@, at) {
                    let found = label.subrange(at, at + 5);
                    assert(found[2] == 'r' && found[3] == 'c');
                    assert(label[at + 2] == 'r' && label[at + 3] == 'c');
                }
            }
        },
        Request::RemoveWorktree { force: true } => {
            reveal_strlit("Confirm: force-remove, discarding those files");
            lemma_present(label, "discarding"@, 23);
            lemma_present(label, "force"@, 9);
        },
        Request::DeleteBranch { force: true } => {
            reveal_strlit("Confirm: force-delete, discarding those commits");
            lemma_present(label, "discarding"@, 23);
            lemma_present(label, "force"@, 9);
        },
    }
}

/// A confirmation says exactly which operation runs: no two operations have the
/// same one, and those that override git's refusal, and no others, speak of force
/// and of what is discarded.
pub proof fn labels_tell_requests_apart(a: Request, b: Request)
    ensures
        a.confirmation() == b.confirmation() <==> a == b,
        contains(a.confirmation(), "discarding"@) <==> a.forces(),
        contains(a.confirmation(), "force"@) <==> a.forces(),
{
    lemma_words_of(a);
    reveal_strlit("Confirm: remove from Grove only");
    reveal_strlit("Confirm: kill the tmux session");
    reveal_strlit("Confirm: remove the worktree");
    reveal_strlit("Confirm: force-remove, discarding those files");
    reveal_strlit("Confirm: delete the branch");
    reveal_strlit("Confirm: force-delete, discarding those commits");
    assert(a.confirmation().len() == b.confirmation().len() <==> a == b);
}

/// An operation is carried out only where it was the one waiting for its
/// confirmation: nothing happens on a first click.
pub proof fn nothing_happens_without_a_confirmation(form: RemovalForm, i: int, press: Press)
    requires
        0 <= i < form.steps().len(),
        RemovalForm::pressed(form.steps()[i], press) is Some,
    ensures
        form.armed == RemovalForm::pressed(form.steps()[i], press),
        form.armed_after(form.steps()[i], press) is None,
{
}

/// The first click on a step that is offered arms it, and the click on the
/// confirmation that then stands in its place carries it out.
pub proof fn a_second_click_confirms(form: RemovalForm, i: int, after: RemovalForm)
    requires
        0 <= i < form.steps().len(),
        form.steps()[i].enabled,
        !form.steps()[i].armed,
        after == (RemovalForm {
            armed: form.armed_after(form.steps()[i], Press::Button),
            ..form
        }),
    ensures
        RemovalForm::pressed(form.steps()[i], Press::Button) is None,
        after.steps().len() == form.steps().len(),
        RemovalForm::pressed(after.steps()[i], Press::Button) == Some(form.steps()[i].operation),
{
}

/// A forced variant is offered only while git's refusal of the plain one stands
/// and the operation is possible at all.
pub proof fn force_is_only_offered_after_a_refusal(form: RemovalForm, i: int)
    requires
        0 <= i < form.steps().len(),
        form.steps()[i].operation.forces(),
    ensures
        form.steps()[i].operation == (Request::RemoveWorktree { force: true })
            ==> form.force_worktree_offered && form.can_remove(),
        form.steps()[i].operation == (Request::DeleteBranch { force: true })
            ==> form.force_branch_offered && form.can_delete(),
{
}

/// Until the assessment is there, neither git operation can be started.
pub proof fn nothing_of_git_is_offered_before_the_report(form: RemovalForm, i: int)
    requires
        form.report is None,
        0 <= i < form.steps().len(),
        form.steps()[i].enabled,
    ensures
        form.steps()[i].operation == Request::RemoveProject || form.steps()[i].operation
            == Request::CloseSession,
{
}

}
