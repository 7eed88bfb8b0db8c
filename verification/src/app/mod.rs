//! What the window decides: which message means what, which task a click or a
//! keystroke is, and what is shown for it.
use vstd::prelude::*;
use vstd::string::*;

use crate::app::rows::{refs_of, Rows};
use crate::app::selection::{context_of, moved, selected_row, Selection, SelectionView};
use crate::model::{
    copy_text, project_at, project_at_is_first, text_view, worktree_at, worktree_at_is_first,
    ProjectView, WorktreeView, MAX_SLOT,
};
use crate::state::{agent_of, number_of};
use crate::text::{decimal, number};
use crate::ui::chrome::Detached;
use crate::ui::dialogs::create_worktree::CreateForm;
use crate::ui::dialogs::open_project::OpenProjectForm;
use crate::ui::dialogs::removal::RemovalForm;
use crate::ui::dialogs::ErrorReport;
use crate::ui::orphans::{OrphanAction, OrphanSession};
use crate::ui::settings::{Config, Form, HookOp};
use crate::ui::Action;
use crate::workers::{effect_views, harmless, Effect, EffectView, HookChange, Task, TaskView};

pub mod actions;
pub mod answers;
pub mod dialogs;
pub mod invariants;
pub mod messages;
pub mod reports;
pub mod rows;
pub mod selection;
pub mod service_events;
pub mod snapshots;
pub mod stamps;

verus! {

/// Everything the window holds between frames.
pub struct GroveApp {
    pub rows: Rows,
    /// The hooks, as the last check found them.
    pub claude_hooks: Option<HookChange>,
    /// The highest revision of a service event that was applied.
    pub last_service_revision: u64,
    pub config: Option<Config>,
    pub selection: Selection,
    pub status: Option<String>,
    pub errors: Vec<ErrorReport>,
    /// Sessions that were found with no worktree behind them.
    pub orphans: Vec<OrphanSession>,
    pub ignored_orphans: usize,
    /// The orphan whose closing waits for its confirmation.
    pub orphan_armed: Option<String>,
    /// Ending every session waits for its confirmation.
    pub shutdown_armed: bool,
    /// Every session has ended: the window closes on the next frame.
    pub quit_after_kill: bool,
    /// A worktree that was just made, as (project id, path): it is selected as
    /// soon as it is listed.
    pub pending_selection: Option<(String, String)>,
    /// The number this process was started for.
    pub pending_toggle: Option<u8>,
    /// A pass over the repositories and sessions has produced the rows.
    pub reconciled_once: bool,
    /// This launch has asked for its agents back.
    pub agents_resumed: bool,
    pub open_project: Detached<OpenProjectForm>,
    pub create: Detached<CreateForm>,
    pub removal: Detached<RemovalForm>,
    pub settings: Detached<Form>,
}

/// How a task is handed over.
pub open spec fn sending(task: TaskView) -> Seq<EffectView> {
    seq![EffectView::Send(task)]
}

fn send(task: Task) -> (r: Vec<Effect>)
    ensures
        effect_views(r@) == sending(task@),
{
    let mut effects: Vec<Effect> = Vec::new();
    effects.push(Effect::Send(task));
    assert(effect_views(effects@) =~= sending(task@));
    effects
}

fn nothing() -> (r: Vec<Effect>)
    ensures
        effect_views(r@) == Seq::<EffectView>::empty(),
{
    let effects: Vec<Effect> = Vec::new();
    assert(effect_views(effects@) =~= Seq::<EffectView>::empty());
    effects
}

/// A form to make a worktree of this project with, as it is opened.
pub open spec fn opened_for(form: CreateForm, project: ProjectView) -> bool {
    &&& form.project_id@ == project.id
    &&& form.project_name@ == project.name
    &&& form.repository_path@ == project.repository_path
    &&& form.git_common_dir@ == project.git_common_dir
    &&& form.default_parent@ == project.default_worktree_path
    &&& form.branch@.len() == 0
    &&& form.base_ref@.len() == 0
    &&& form.path@.len() == 0
    &&& form.create_branch
    &&& form.open_after
    &&& form.refs@.len() == 0
    &&& !form.refs_loaded
    &&& !form.path_edited
}

/// A form to remove this worktree with, as it is opened: nothing assessed,
/// nothing armed, no force offered.
pub open spec fn removal_for(form: RemovalForm, project: ProjectView, worktree: WorktreeView) -> bool {
    &&& form.project_id@ == project.id
    &&& form.project_name@ == project.name
    &&& form.repository_path@ == project.repository_path
    &&& form.git_common_dir@ == project.git_common_dir
    &&& form.worktree_id@ == worktree.id
    &&& form.worktree_label@ == worktree.label
    &&& form.worktree_path@ == worktree.path
    &&& text_view(form.branch) == worktree.branch
    &&& text_view(form.session) == (if worktree.session.live() {
        Some(crate::model::session_name_of(worktree.id))
    } else {
        None
    })
    &&& form.report is None
    &&& form.armed is None
    &&& !form.force_worktree_offered
    &&& !form.force_branch_offered
    &&& form.done@.len() == 0
    &&& form.refusals@.len() == 0
}

impl GroveApp {
    /// The project of this id, where it is listed.
    pub open spec fn project(self, id: Seq<char>) -> Option<ProjectView> {
        match project_at(self.rows.view_projects(), id) {
            Some(i) => Some(self.rows.view_projects()[i]),
            None => None,
        }
    }

    /// The row a (project, worktree) pair names, where both are listed.
    pub open spec fn row(self, project_id: Seq<char>, worktree_id: Seq<char>) -> Option<
        WorktreeView,
    > {
        match self.project(project_id) {
            Some(project) => match worktree_at(project.worktrees, worktree_id) {
                Some(j) => Some(project.worktrees[j]),
                None => None,
            },
            None => None,
        }
    }

    /// Nothing but the selection and the status line differs.
    pub open spec fn shows(
        self,
        after: GroveApp,
        selection: SelectionView,
        status: Option<Seq<char>>,
    ) -> bool {
        &&& after == GroveApp { selection: after.selection, status: after.status, ..self }
        &&& after.selection@ == selection
        &&& text_view(after.status) == status
    }

    /// Nothing but the status line differs, and it says this.
    pub open spec fn says(self, after: GroveApp, status: Seq<char>) -> bool {
        after == (GroveApp { status: after.status, ..self }) && text_view(after.status) == Some(
            status,
        )
    }

    /// Nothing differs.
    pub open spec fn unchanged(self, after: GroveApp) -> bool {
        after == self
    }

    /// The row was opened, or nothing happened where there is no such row: a
    /// stale id never acts on another row.
    pub open spec fn activated(
        self,
        after: GroveApp,
        effects: Seq<EffectView>,
        project_id: Seq<char>,
        worktree_id: Seq<char>,
    ) -> bool {
        if self.row(project_id, worktree_id) is Some {
            &&& self.shows(after, self.selection@.selecting(worktree_id), text_view(self.status))
            &&& effects == sending(TaskView::Activate { worktree_id }).push(
                EffectView::Opened(worktree_id),
            )
        } else {
            self.unchanged(after) && effects == Seq::<EffectView>::empty()
        }
    }

    /// The row was handed to a task and selected, or nothing happened where there
    /// is no such row.
    pub open spec fn sent_for_row(
        self,
        after: GroveApp,
        effects: Seq<EffectView>,
        project_id: Seq<char>,
        worktree_id: Seq<char>,
        task: TaskView,
    ) -> bool {
        if self.row(project_id, worktree_id) is Some {
            &&& self.shows(after, self.selection@.selecting(worktree_id), text_view(self.status))
            &&& effects == sending(task)
        } else {
            self.unchanged(after) && effects == Seq::<EffectView>::empty()
        }
    }

    /// The number was given to the worktree, or taken off where it has it
    /// already. A number out of range is not given.
    pub open spec fn slot_tasks(self, worktree_id: Seq<char>, slot: u8) -> Seq<EffectView> {
        if number_of(self.rows.state.slots@, worktree_id) == Some(slot) {
            sending(TaskView::ClearSlot { worktree_id })
        } else if 1 <= slot <= MAX_SLOT {
            sending(TaskView::AssignSlot { number: slot, worktree_id })
        } else {
            Seq::empty()
        }
    }

    /// The dialog to make a worktree was opened for the project, or raised where
    /// it is already open for it.
    pub open spec fn create_opened(
        self,
        after: GroveApp,
        effects: Seq<EffectView>,
        project_id: Seq<char>,
    ) -> bool {
        match self.project(project_id) {
            None => self.unchanged(after) && effects == Seq::<EffectView>::empty(),
            Some(project) => {
                &&& after == GroveApp { create: after.create, ..self }
                &&& after.create.focus
                &&& if self.create.form is Some && self.create.form->0.project_id@ == project_id {
                    after.create.form == self.create.form && effects == Seq::<EffectView>::empty()
                } else {
                    &&& after.create.form is Some
                    &&& opened_for(after.create.form->0, project)
                    &&& effects == sending(TaskView::LoadBaseRefs { project_id })
                }
            },
        }
    }

    /// The removal dialog was opened for the worktree, or raised where it is
    /// already open for it: a half-finished confirmation is kept.
    pub open spec fn removal_opened(
        self,
        after: GroveApp,
        effects: Seq<EffectView>,
        project_id: Seq<char>,
        worktree_id: Seq<char>,
    ) -> bool {
        match self.row(project_id, worktree_id) {
            None => self.unchanged(after) && effects == Seq::<EffectView>::empty(),
            Some(worktree) => {
                &&& after == GroveApp {
                    removal: after.removal,
                    selection: after.selection,
                    ..self
                }
                &&& after.selection@ == self.selection@.selecting(worktree_id)
                &&& after.removal.focus
                &&& if self.removal.form is Some && self.removal.form->0.worktree_id@
                    == worktree_id {
                    after.removal.form == self.removal.form && effects
                        == Seq::<EffectView>::empty()
                } else {
                    &&& after.removal.form is Some
                    &&& removal_for(
                        after.removal.form->0,
                        self.project(project_id)->0,
                        worktree,
                    )
                    &&& effects == sending(TaskView::GatherRemoval { worktree_id })
                }
            },
        }
    }

    /// What an action of the list comes to.
    pub open spec fn acted(self, action: Action, after: GroveApp, effects: Seq<EffectView>) -> bool {
        match action {
            Action::ToggleProject(id) => {
                &&& self.unchanged(after)
                &&& effects == (match self.project(id@) {
                    Some(project) => sending(
                        TaskView::SetProjectExpanded {
                            project_id: id@,
                            expanded: !project.is_expanded,
                        },
                    ),
                    None => Seq::empty(),
                })
            },
            Action::RefreshProject(id) => {
                &&& self.unchanged(after)
                &&& effects == (if self.project(id@) is Some {
                    sending(TaskView::RefreshProject { project_id: id@ })
                } else {
                    Seq::empty()
                })
            },
            Action::RemoveProject(id) => {
                &&& self.unchanged(after)
                &&& effects == sending(TaskView::RemoveProject { project_id: id@ })
            },
            Action::CreateWorktree(id) => self.create_opened(after, effects, id@),
            Action::ActivateWorktree { project_id, worktree_id } => self.activated(
                after,
                effects,
                project_id@,
                worktree_id@,
            ),
            Action::StartAgent { project_id, worktree_id } => self.sent_for_row(
                after,
                effects,
                project_id@,
                worktree_id@,
                TaskView::StartAgent { worktree_id: worktree_id@, resume: None },
            ),
            Action::ResumeAgent { project_id, worktree_id } => match agent_of(
                self.rows.state.agents@,
                worktree_id@,
            ) {
                Some(record) if record.session_id@.len() > 0 => self.sent_for_row(
                    after,
                    effects,
                    project_id@,
                    worktree_id@,
                    TaskView::StartAgent {
                        worktree_id: worktree_id@,
                        resume: Some(record.session_id@),
                    },
                ),
                _ => {
                    &&& effects == Seq::<EffectView>::empty()
                    &&& self.shows(
                        after,
                        self.selection@,
                        Some("No agent conversation has been reported for this worktree."@),
                    )
                },
            },
            Action::OpenAgentTranscript { worktree_id } => match agent_of(
                self.rows.state.agents@,
                worktree_id@,
            ) {
                Some(record) if record.transcript_path@.len() > 0 => {
                    &&& self.unchanged(after)
                    &&& effects == sending(
                        TaskView::OpenWithDesktop { path: record.transcript_path@ },
                    )
                },
                _ => {
                    &&& effects == Seq::<EffectView>::empty()
                    &&& self.shows(
                        after,
                        self.selection@,
                        Some("No transcript has been reported for this worktree."@),
                    )
                },
            },
            Action::SelectWorktree { project_id, worktree_id } => {
                &&& effects == Seq::<EffectView>::empty()
                &&& self.shows(
                    after,
                    self.selection@.selecting(worktree_id@),
                    text_view(self.status),
                )
            },
            Action::SetWorktreeSlot { worktree_id, slot } => {
                &&& self.unchanged(after)
                &&& effects == (match slot {
                    Some(slot) => self.slot_tasks(worktree_id@, slot),
                    None => if number_of(self.rows.state.slots@, worktree_id@) is Some {
                        sending(TaskView::ClearSlot { worktree_id: worktree_id@ })
                    } else {
                        Seq::empty()
                    },
                })
            },
            Action::OpenInNewTerminal { project_id, worktree_id } => self.sent_for_row(
                after,
                effects,
                project_id@,
                worktree_id@,
                TaskView::OpenInNewTerminal { worktree_id: worktree_id@ },
            ),
            Action::OpenNewWindow { project_id, worktree_id } => self.sent_for_row(
                after,
                effects,
                project_id@,
                worktree_id@,
                TaskView::OpenNewWindow { worktree_id: worktree_id@ },
            ),
            Action::ActivateWindow { project_id, worktree_id, window_index } => if self.row(
                project_id@,
                worktree_id@,
            ) is Some {
                &&& effects == sending(
                    TaskView::ActivateWindow { worktree_id: worktree_id@, window_index },
                ).push(EffectView::Opened(worktree_id@))
                &&& self.shows(
                    after,
                    SelectionView {
                        worktree: Some(worktree_id@),
                        window: Some((worktree_id@, window_index)),
                        filter: self.selection@.filter,
                    },
                    text_view(self.status),
                )
            } else {
                self.unchanged(after) && effects == Seq::<EffectView>::empty()
            },
            Action::RemoveWorktree { project_id, worktree_id } => self.removal_opened(
                after,
                effects,
                project_id@,
                worktree_id@,
            ),
            Action::LocateProject(id) => match self.project(id@) {
                None => self.unchanged(after) && effects == Seq::<EffectView>::empty(),
                Some(project) => {
                    &&& effects == Seq::<EffectView>::empty()
                    &&& after == GroveApp {
                        open_project: after.open_project,
                        status: after.status,
                        ..self
                    }
                    &&& after.open_project.focus
                    &&& after.open_project.form is Some
                    &&& after.open_project.form->0.path@ == project.repository_path
                    &&& !after.open_project.form->0.focused
                    &&& text_view(after.status) == Some(
                        "Point Grove at "@ + project.name + " where it lives now."@,
                    )
                },
            },
        }
    }

    fn has_row(&self, project_id: &str, worktree_id: &str) -> (r: bool)
        ensures
            r == (self.row(project_id@, worktree_id@) is Some),
    {
        self.rows.worktree(project_id, worktree_id).is_some()
    }

    /// Opens the dialog to make a worktree, or raises the one already open.
    /// Asking again for the same project keeps what has been typed.
    pub fn open_create_dialog(&mut self, project_id: &str) -> (r: Vec<Effect>)
        ensures
            old(self).create_opened(*final(self), effect_views(r@), project_id@),
    {
        proof {
            project_at_is_first(self.rows.view_projects(), project_id@);
        }
        let (form, id) = match self.rows.project(project_id) {
            None => {
                return nothing();
            },
            Some(project) => (CreateForm::new(project), project.id.clone()),
        };
        let is_same = |open: &CreateForm| -> (same: bool)
            ensures
                same == (open.project_id@ == id@),
            { open.project_id == id };
        if self.create.open_or_focus(form, is_same) {
            send(Task::LoadBaseRefs { project_id: id })
        } else {
            nothing()
        }
    }

    /// Opens the removal dialog of a worktree, or raises the one already open.
    pub fn open_removal_dialog(&mut self, project_id: &str, worktree_id: &str) -> (r: Vec<Effect>)
        ensures
            old(self).removal_opened(*final(self), effect_views(r@), project_id@, worktree_id@),
    {
        proof {
            project_at_is_first(self.rows.view_projects(), project_id@);
            if let Some(i) = project_at(self.rows.view_projects(), project_id@) {
                worktree_at_is_first(self.rows.view_projects()[i].worktrees, worktree_id@);
            }
        }
        let form = match self.rows.project(project_id) {
            None => {
                return nothing();
            },
            Some(project) => {
                let worktree = match self.rows.worktree(project_id, worktree_id) {
                    None => {
                        return nothing();
                    },
                    Some(worktree) => worktree,
                };
                RemovalForm {
                    project_id: project.id.clone(),
                    project_name: project.name.clone(),
                    repository_path: project.repository_path.clone(),
                    git_common_dir: project.git_common_dir.clone(),
                    worktree_id: worktree.id.clone(),
                    worktree_label: worktree.label.clone(),
                    worktree_path: worktree.path.clone(),
                    branch: copy_text(&worktree.branch),
                    session: if worktree.session.is_live() {
                        Some(worktree.session_name())
                    } else {
                        None
                    },
                    report: None,
                    armed: None,
                    force_worktree_offered: false,
                    force_branch_offered: false,
                    done: Vec::new(),
                    refusals: Vec::new(),
                }
            },
        };
        self.selection.select(worktree_id.to_owned());
        let id = form.worktree_id.clone();
        let wanted = worktree_id.to_owned();
        let is_same = |open: &RemovalForm| -> (same: bool)
            ensures
                same == (open.worktree_id@ == wanted@),
            { open.worktree_id == wanted };
        if self.removal.open_or_focus(form, is_same) {
            send(Task::GatherRemoval { worktree_id: id })
        } else {
            nothing()
        }
    }

    /// Gives the worktree a number, or takes it off again: the digit it carries
    /// already takes it off.
    pub fn set_slot(&self, worktree_id: &str, slot: u8) -> (r: Vec<Effect>)
        ensures
            effect_views(r@) == self.slot_tasks(worktree_id@, slot),
    {
        let carried = match self.rows.state.slot(worktree_id) {
            Some(number) => number == slot,
            None => false,
        };
        if carried {
            send(Task::ClearSlot { worktree_id: worktree_id.to_owned() })
        } else if 1 <= slot && slot <= MAX_SLOT {
            send(Task::AssignSlot { number: slot, worktree_id: worktree_id.to_owned() })
        } else {
            nothing()
        }
    }

    fn send_for_row(&mut self, project_id: &str, worktree_id: String, task: Task) -> (r: Vec<
        Effect,
    >)
        ensures
            old(self).sent_for_row(
                *final(self),
                effect_views(r@),
                project_id@,
                worktree_id@,
                task@,
            ),
    {
        if self.has_row(project_id, worktree_id.as_str()) {
            self.selection.select(worktree_id);
            send(task)
        } else {
            nothing()
        }
    }

    /// Starts an agent in a worktree, or resumes the conversation `resume` names.
    pub fn start_agent(
        &mut self,
        project_id: &str,
        worktree_id: String,
        resume: Option<String>,
    ) -> (r: Vec<Effect>)
        ensures
            old(self).sent_for_row(
                *final(self),
                effect_views(r@),
                project_id@,
                worktree_id@,
                TaskView::StartAgent { worktree_id: worktree_id@, resume: text_view(resume) },
            ),
    {
        let task = Task::StartAgent { worktree_id: worktree_id.clone(), resume };
        self.send_for_row(project_id, worktree_id, task)
    }

    fn activate(&mut self, project_id: &str, worktree_id: String) -> (r: Vec<Effect>)
        ensures
            old(self).activated(*final(self), effect_views(r@), project_id@, worktree_id@),
    {
        if self.has_row(project_id, worktree_id.as_str()) {
            let mut effects = send(Task::Activate { worktree_id: worktree_id.clone() });
            let ghost was = effects@;
            effects.push(Effect::Opened(worktree_id.clone()));
            assert(effect_views(effects@) =~= effect_views(was).push(
                EffectView::Opened(worktree_id@),
            ));
            self.selection.select(worktree_id);
            effects
        } else {
            nothing()
        }
    }

    /// What a click or a keystroke on the list comes to. Every row is looked up
    /// first: a stale id does nothing.
    pub fn apply_action(&mut self, action: Action) -> (r: Vec<Effect>)
        ensures
            old(self).acted(action, *final(self), effect_views(r@)),
    {
        match action {
            Action::ToggleProject(id) => {
                proof {
                    project_at_is_first(self.rows.view_projects(), id@);
                }
                match self.rows.project(id.as_str()) {
                    Some(project) => {
                        let expanded = !project.is_expanded;
                        send(Task::SetProjectExpanded { project_id: id, expanded })
                    },
                    None => nothing(),
                }
            },
            Action::RefreshProject(id) => match self.rows.project(id.as_str()) {
                Some(_) => send(Task::RefreshProject { project_id: id }),
                None => nothing(),
            },
            Action::RemoveProject(id) => send(Task::RemoveProject { project_id: id }),
            Action::CreateWorktree(id) => self.open_create_dialog(id.as_str()),
            Action::ActivateWorktree { project_id, worktree_id } => self.activate(
                project_id.as_str(),
                worktree_id,
            ),
            Action::StartAgent { project_id, worktree_id } => self.start_agent(
                project_id.as_str(),
                worktree_id,
                None,
            ),
            Action::ResumeAgent { project_id, worktree_id } => {
                let resume = match self.rows.state.agent(worktree_id.as_str()) {
                    Some(record) => if record.session_id.as_str().is_empty() {
                        None
                    } else {
                        Some(record.session_id.clone())
                    },
                    None => None,
                };
                if resume.is_some() {
                    self.start_agent(project_id.as_str(), worktree_id, resume)
                } else {
                    self.status = Some(
                        "No agent conversation has been reported for this worktree.".to_owned(),
                    );
                    nothing()
                }
            },
            Action::OpenAgentTranscript { worktree_id } => {
                let path = match self.rows.state.agent(worktree_id.as_str()) {
                    Some(record) => if record.transcript_path.as_str().is_empty() {
                        None
                    } else {
                        Some(record.transcript_path.clone())
                    },
                    None => None,
                };
                match path {
                    Some(path) => send(Task::OpenWithDesktop { path }),
                    None => {
                        self.status = Some(
                            "No transcript has been reported for this worktree.".to_owned(),
                        );
                        nothing()
                    },
                }
            },
            Action::SelectWorktree { project_id: _, worktree_id } => {
                self.selection.select(worktree_id);
                nothing()
            },
            Action::SetWorktreeSlot { worktree_id, slot } => match slot {
                Some(slot) => self.set_slot(worktree_id.as_str(), slot),
                None => if self.rows.state.slot(worktree_id.as_str()).is_some() {
                    send(Task::ClearSlot { worktree_id })
                } else {
                    nothing()
                },
            },
            Action::OpenInNewTerminal { project_id, worktree_id } => {
                let task = Task::OpenInNewTerminal { worktree_id: worktree_id.clone() };
                self.send_for_row(project_id.as_str(), worktree_id, task)
            },
            Action::OpenNewWindow { project_id, worktree_id } => {
                let task = Task::OpenNewWindow { worktree_id: worktree_id.clone() };
                self.send_for_row(project_id.as_str(), worktree_id, task)
            },
            Action::ActivateWindow { project_id, worktree_id, window_index } => if self.has_row(
                project_id.as_str(),
                worktree_id.as_str(),
            ) {
                let mut effects = send(
                    Task::ActivateWindow { worktree_id: worktree_id.clone(), window_index },
                );
                let ghost was = effects@;
                effects.push(Effect::Opened(worktree_id.clone()));
                assert(effect_views(effects@) =~= effect_views(was).push(
                    EffectView::Opened(worktree_id@),
                ));
                self.selection.select_window(worktree_id, window_index);
                effects
            } else {
                nothing()
            },
            Action::RemoveWorktree { project_id, worktree_id } => self.open_removal_dialog(
                project_id.as_str(),
                worktree_id.as_str(),
            ),
            Action::LocateProject(id) => {
                proof {
                    project_at_is_first(self.rows.view_projects(), id@);
                }
                let (at, name) = match self.rows.project(id.as_str()) {
                    None => {
                        return nothing();
                    },
                    Some(project) => (project.repository_path.clone(), project.name.clone()),
                };
                self.open_project.open(OpenProjectForm::at(at));
                let mut status = "Point Grove at ".to_owned();
                status.append(name.as_str());
                status.append(" where it lives now.");
                self.status = Some(status);
                nothing()
            },
        }
    }
}

/// What is said of a number that names no row.
pub open spec fn no_such_number(slot: u8) -> Seq<char> {
    "No worktree in Grove's list is numbered "@ + decimal(slot as nat) + "."@
}

/// What is said when the closing of an orphan waits for its confirmation.
pub open spec fn confirm_close(session: Seq<char>) -> Seq<char> {
    "Choose “Confirm: close "@ + session + "” to end that session."@
}

impl GroveApp {
    /// The row a number names was opened, or the status line says that it names
    /// none.
    pub open spec fn slot_activated(
        self,
        after: GroveApp,
        effects: Seq<EffectView>,
        slot: u8,
    ) -> bool {
        match self.rows.target(slot) {
            Some((project_id, worktree_id)) => self.activated(
                after,
                effects,
                project_id,
                worktree_id,
            ),
            None => {
                &&& effects == Seq::<EffectView>::empty()
                &&& self.shows(after, self.selection@, Some(no_such_number(slot)))
            },
        }
    }

    /// Opens the session of the worktree with this number, as a press of Enter on
    /// its row does. A number that names nothing is reported and nothing else.
    pub fn activate_slot(&mut self, slot: u8) -> (r: Vec<Effect>)
        ensures
            old(self).slot_activated(*final(self), effect_views(r@), slot),
    {
        match self.rows.slot_target(slot) {
            Some((project_id, worktree_id)) => self.activate(project_id.as_str(), worktree_id),
            None => {
                let mut status = "No worktree in Grove's list is numbered ".to_owned();
                status.append(number(slot as u64).as_str());
                status.append(".");
                self.status = Some(status);
                nothing()
            },
        }
    }

    /// What a toggle comes to: without a number the window closes; with one it is
    /// raised and the number is opened.
    pub open spec fn toggled(
        self,
        after: GroveApp,
        effects: Seq<EffectView>,
        slot: Option<u8>,
    ) -> bool {
        match slot {
            None => self.unchanged(after) && effects == seq![EffectView::Close],
            Some(slot) => {
                &&& effects.len() > 0
                &&& effects[0] == EffectView::Focus
                &&& self.slot_activated(after, effects.drop_first(), slot)
            },
        }
    }

    /// Applies one toggle.
    pub fn apply_toggle(&mut self, slot: Option<u8>) -> (r: Vec<Effect>)
        ensures
            old(self).toggled(*final(self), effect_views(r@), slot),
    {
        let mut effects: Vec<Effect> = Vec::new();
        match slot {
            None => {
                effects.push(Effect::Close);
                assert(effect_views(effects@) =~= seq![EffectView::Close]);
            },
            Some(slot) => {
                effects.push(Effect::Focus);
                let mut opened = self.activate_slot(slot);
                let ghost tail = opened@;
                effects.append(&mut opened);
                assert(effect_views(effects@).drop_first() =~= effect_views(tail));
                assert(effect_views(effects@)[0] == EffectView::Focus);
            },
        }
        effects
    }

    /// The session of the worktree was opened; `latched` says whether attention
    /// was raised for it. Both halves of it go: what the window holds, and the
    /// durable mark.
    pub fn clear_attention(&mut self, worktree_id: &str, latched: bool) -> (r: Vec<Effect>)
        ensures
            !latched ==> *final(self) == *old(self) && effect_views(r@) == Seq::<EffectView>::empty(),
            latched ==> {
                &&& old(self).rows.attention_cleared(final(self).rows, worktree_id@)
                &&& *final(self) == (GroveApp { rows: final(self).rows, ..*old(self) })
                &&& effect_views(r@) == sending(
                    TaskView::ClearAttention { worktree_id: worktree_id@ },
                )
            },
    {
        if !latched {
            return nothing();
        }
        self.rows.clear_attention(worktree_id);
        send(Task::ClearAttention { worktree_id: worktree_id.to_owned() })
    }

    /// There is a command to resume a conversation with.
    pub fn can_resume_agents(&self) -> (r: bool)
        ensures
            r == (self.config is Some && self.config->0.can_resume),
    {
        match &self.config {
            Some(config) => config.can_resume,
            None => false,
        }
    }

    /// What a choice about an orphaned session comes to. Closing one takes two
    /// clicks: the first only arms it.
    pub open spec fn orphan_acted(
        self,
        action: OrphanAction,
        after: GroveApp,
        effects: Seq<EffectView>,
    ) -> bool {
        match action {
            OrphanAction::Open(session) => {
                self.unchanged(after) && effects == sending(
                    TaskView::OpenSession { session: session@ },
                )
            },
            OrphanAction::Associate { session, project_id, worktree_id } => {
                &&& self.unchanged(after)
                &&& effects == (if self.row(project_id@, worktree_id@) is Some {
                    sending(
                        TaskView::AssociateSession {
                            worktree_id: worktree_id@,
                            session: session@,
                        },
                    )
                } else {
                    Seq::empty()
                })
            },
            OrphanAction::Close(session) => if text_view(self.orphan_armed) == Some(session@) {
                self.unchanged(after) && effects == sending(
                    TaskView::CloseOrphan { session: session@ },
                )
            } else {
                &&& effects == Seq::<EffectView>::empty()
                &&& after == GroveApp {
                    orphan_armed: Some(session),
                    status: after.status,
                    ..self
                }
                &&& text_view(after.status) == Some(confirm_close(session@))
            },
            OrphanAction::Ignore(session) => {
                self.unchanged(after) && effects == sending(
                    TaskView::IgnoreSession { session: session@ },
                )
            },
            OrphanAction::ShowIgnored => {
                self.unchanged(after) && effects == sending(TaskView::ClearIgnoredSessions)
            },
        }
    }

    /// Applies one choice about one orphaned session.
    pub fn apply_orphan_action(&mut self, action: OrphanAction) -> (r: Vec<Effect>)
        ensures
            old(self).orphan_acted(action, *final(self), effect_views(r@)),
    {
        match action {
            OrphanAction::Open(session) => send(Task::OpenSession { session }),
            OrphanAction::Associate { session, project_id, worktree_id } => if self.has_row(
                project_id.as_str(),
                worktree_id.as_str(),
            ) {
                send(Task::AssociateSession { worktree_id, session })
            } else {
                nothing()
            },
            OrphanAction::Close(session) => {
                let armed = match &self.orphan_armed {
                    Some(name) => *name == session,
                    None => false,
                };
                if armed {
                    send(Task::CloseOrphan { session })
                } else {
                    let mut status = "Choose “Confirm: close ".to_owned();
                    status.append(session.as_str());
                    status.append("” to end that session.");
                    self.status = Some(status);
                    self.orphan_armed = Some(session);
                    nothing()
                }
            },
            OrphanAction::Ignore(session) => send(Task::IgnoreSession { session }),
            OrphanAction::ShowIgnored => send(Task::ClearIgnoredSessions),
        }
    }

    /// A frame of the control that ends every session and quits. The first click
    /// arms it, the second one acts, and a click elsewhere disarms it.
    pub fn shutdown_button(&mut self, clicked: bool, clicked_elsewhere: bool) -> (r: Vec<Effect>)
        ensures
            clicked && old(self).shutdown_armed ==> {
                &&& effect_views(r@) == sending(TaskView::KillServer)
                &&& *final(self) == (GroveApp {
                    shutdown_armed: false,
                    status: final(self).status,
                    ..*old(self)
                })
                &&& text_view(final(self).status) == Some("Killing the tmux server…"@)
            },
            clicked && !old(self).shutdown_armed ==> {
                &&& effect_views(r@) == Seq::<EffectView>::empty()
                &&& *final(self) == (GroveApp {
                    shutdown_armed: true,
                    status: final(self).status,
                    ..*old(self)
                })
                &&& text_view(final(self).status) == Some(
                    "Click the power button again to end every session and quit."@,
                )
            },
            !clicked ==> {
                &&& effect_views(r@) == Seq::<EffectView>::empty()
                &&& *final(self) == (GroveApp {
                    shutdown_armed: old(self).shutdown_armed && !clicked_elsewhere,
                    ..*old(self)
                })
            },
    {
        if clicked {
            if self.shutdown_armed {
                self.shutdown_armed = false;
                self.status = Some("Killing the tmux server…".to_owned());
                send(Task::KillServer)
            } else {
                self.shutdown_armed = true;
                self.status = Some(
                    "Click the power button again to end every session and quit.".to_owned(),
                );
                nothing()
            }
        } else {
            if self.shutdown_armed && clicked_elsewhere {
                self.shutdown_armed = false;
            }
            nothing()
        }
    }

    /// The entry to open a project was clicked: the window already open is raised
    /// with what has been typed, else an empty one is opened.
    pub fn open_project_clicked(&mut self)
        ensures
            *final(self) == (GroveApp { open_project: final(self).open_project, ..*old(self) }),
            final(self).open_project.focus,
            old(self).open_project.form is Some ==> final(self).open_project.form == old(
                self,
            ).open_project.form,
            old(self).open_project.form is None ==> {
                &&& final(self).open_project.form is Some
                &&& final(self).open_project.form->0.path@.len() == 0
                &&& !final(self).open_project.form->0.focused
            },
    {
        if self.open_project.is_open() {
            self.open_project.request_focus();
        } else {
            self.open_project.open(OpenProjectForm::empty());
        }
    }

    /// The entry to open the settings was clicked: the window already open is
    /// raised with its unsaved edits, else one is opened on the configuration,
    /// and the terminal and the hooks are looked at.
    pub fn settings_clicked(&mut self) -> (r: Vec<Effect>)
        ensures
            *final(self) == (GroveApp { settings: final(self).settings, ..*old(self) }),
            final(self).settings.focus,
            old(self).settings.form is Some ==> {
                &&& final(self).settings.form == old(self).settings.form
                &&& effect_views(r@) == Seq::<EffectView>::empty()
            },
            old(self).settings.form is None ==> {
                let command = match old(self).config {
                    Some(config) => config.terminal_command@,
                    None => Seq::empty(),
                };
                let parent = match old(self).config {
                    Some(config) => config.default_parent@,
                    None => Seq::empty(),
                };
                &&& final(self).settings.form is Some
                &&& final(self).settings.form->0.terminal_command@ == command
                &&& final(self).settings.form->0.default_parent@ == parent
                &&& final(self).settings.form->0.changes().len() == 0
                &&& final(self).settings.form->0.probe is None
                &&& final(self).settings.form->0.note is None
                &&& !final(self).settings.form->0.saving
                &&& effect_views(r@) == sending(TaskView::ProbeTerminal { command }).push(
                    EffectView::Send(TaskView::ClaudeHooks { op: HookOp::Check }),
                )
            },
    {
        if self.settings.is_open() {
            self.settings.request_focus();
            return nothing();
        }
        let form = Form::new(self.config.as_ref());
        let mut effects = send(Task::ProbeTerminal { command: form.terminal_command.clone() });
        let ghost was = effects@;
        effects.push(Effect::Send(Task::ClaudeHooks { op: HookOp::Check }));
        assert(effect_views(effects@) =~= effect_views(was).push(
            EffectView::Send(TaskView::ClaudeHooks { op: HookOp::Check }),
        ));
        self.settings.open(form);
        effects
    }
}

/// The keys that were pressed in one frame of the main window.
#[derive(Debug, Clone, Copy, PartialEq, Eq, Structural)]
pub struct Keys {
    /// Ctrl+Q or Ctrl+W.
    pub close: bool,
    pub down: bool,
    pub up: bool,
    pub enter: bool,
    pub delete: bool,
    /// Ctrl+N.
    pub new: bool,
    /// Ctrl+R.
    pub refresh: bool,
    /// The digit that was pressed with Alt.
    pub digit: Option<u8>,
}

/// What a keystroke in the main window asks for.
#[derive(Debug, Clone, Copy, PartialEq, Eq, Structural)]
pub enum Command {
    Close,
    MoveDown,
    MoveUp,
    /// Open the selected row.
    Open,
    /// Open the removal dialog of the selected row.
    Remove,
    /// Open the dialog to make a worktree.
    New,
    /// Ask for a pass over the repositories and the sessions.
    Restore,
    /// Give the selected row this number, or take it off.
    Number(u8),
}

pub open spec fn when(pressed: bool, command: Command) -> Seq<Command> {
    if pressed {
        seq![command]
    } else {
        Seq::empty()
    }
}

/// The commands of one frame, in the order in which they are carried out.
/// Closing comes before everything, and an open removal dialog takes the
/// keyboard.
pub open spec fn commands_of(keys: Keys, removal_open: bool) -> Seq<Command> {
    if keys.close {
        seq![Command::Close]
    } else if removal_open {
        Seq::empty()
    } else {
        when(keys.down, Command::MoveDown) + when(keys.up, Command::MoveUp) + when(
            keys.enter,
            Command::Open,
        ) + when(keys.delete, Command::Remove) + when(keys.new, Command::New) + when(
            keys.refresh,
            Command::Restore,
        ) + (match keys.digit {
            Some(digit) => seq![Command::Number(digit)],
            None => Seq::empty(),
        })
    }
}

/// The digit of the numbers one to nine that was pressed, with Alt held: the
/// lowest, where several were.
pub fn pressed_digit(alt: bool, pressed: [bool; 9]) -> (r: Option<u8>)
    ensures
        r matches Some(d) ==> alt && 1 <= d <= MAX_SLOT && pressed@[d - 1] && forall|k: int|
            0 <= k < d - 1 ==> !pressed@[k],
        r is None ==> !alt || forall|k: int| 0 <= k < 9 ==> !pressed@[k],
{
    if !alt {
        return None;
    }
    let mut i: usize = 0;
    while i < 9
        invariant
            i <= 9,
            alt,
            forall|k: int| 0 <= k < i ==> !pressed@[k],
        decreases 9 - i,
    {
        if pressed[i] {
            return Some(i as u8 + 1);
        }
        i += 1;
    }
    None
}

fn push_when(commands: &mut Vec<Command>, pressed: bool, command: Command)
    ensures
        final(commands)@ == old(commands)@ + when(pressed, command),
{
    if pressed {
        commands.push(command);
    }
    assert(commands@ =~= old(commands)@ + when(pressed, command));
}

impl GroveApp {
    /// What the keys of one frame ask for.
    pub fn keyboard(&self, keys: Keys) -> (r: Vec<Command>)
        ensures
            r@ == commands_of(keys, self.removal.form is Some),
    {
        let mut commands: Vec<Command> = Vec::new();
        if keys.close {
            commands.push(Command::Close);
            assert(commands@ =~= seq![Command::Close]);
            return commands;
        }
        if self.removal.is_open() {
            assert(commands@ =~= Seq::<Command>::empty());
            return commands;
        }
        push_when(&mut commands, keys.down, Command::MoveDown);
        push_when(&mut commands, keys.up, Command::MoveUp);
        push_when(&mut commands, keys.enter, Command::Open);
        push_when(&mut commands, keys.delete, Command::Remove);
        push_when(&mut commands, keys.new, Command::New);
        push_when(&mut commands, keys.refresh, Command::Restore);
        if let Some(digit) = keys.digit {
            commands.push(Command::Number(digit));
        }
        assert(commands@ =~= commands_of(keys, self.removal.form is Some));
        commands
    }

    /// What one command comes to.
    pub open spec fn commanded(
        self,
        command: Command,
        after: GroveApp,
        effects: Seq<EffectView>,
    ) -> bool {
        let projects = self.rows.view_projects();
        let row = selected_row(self.selection@, projects);
        match command {
            Command::Close => self.unchanged(after) && effects == seq![EffectView::Close],
            Command::MoveDown => {
                &&& effects == Seq::<EffectView>::empty()
                &&& self.shows(
                    after,
                    moved(self.selection@, projects, 1),
                    text_view(self.status),
                )
            },
            Command::MoveUp => {
                &&& effects == Seq::<EffectView>::empty()
                &&& self.shows(
                    after,
                    moved(self.selection@, projects, -1),
                    text_view(self.status),
                )
            },
            Command::Open => match row {
                Some((project_id, worktree_id)) => self.activated(
                    after,
                    effects,
                    project_id,
                    worktree_id,
                ),
                None => self.unchanged(after) && effects == Seq::<EffectView>::empty(),
            },
            Command::Remove => match row {
                Some((project_id, worktree_id)) => self.removal_opened(
                    after,
                    effects,
                    project_id,
                    worktree_id,
                ),
                None => self.unchanged(after) && effects == Seq::<EffectView>::empty(),
            },
            Command::New => match context_of(self.selection@, projects) {
                Some(project_id) => self.create_opened(after, effects, project_id),
                None => self.unchanged(after) && effects == Seq::<EffectView>::empty(),
            },
            Command::Restore => self.reconciling(after, effects),
            Command::Number(digit) => {
                &&& self.unchanged(after)
                &&& effects == (match row {
                    Some((project_id, worktree_id)) => self.slot_tasks(worktree_id, digit),
                    None => Seq::empty(),
                })
            },
        }
    }

    /// A pass over the repositories and the sessions was asked for.
    pub open spec fn reconciling(self, after: GroveApp, effects: Seq<EffectView>) -> bool {
        effects == seq![EffectView::Reconcile(refs_of(self.rows.view_projects()))] && self.says(
            after,
            "Reconciling with git and tmux…"@,
        )
    }

    /// Asks for a pass over the repositories and the sessions.
    pub fn reconcile(&mut self) -> (r: Vec<Effect>)
        ensures
            old(self).reconciling(*final(self), effect_views(r@)),
    {
        let mut effects: Vec<Effect> = Vec::new();
        effects.push(Effect::Reconcile(self.rows.project_refs()));
        assert(effect_views(effects@) =~= seq![
            EffectView::Reconcile(refs_of(self.rows.view_projects())),
        ]);
        self.status = Some("Reconciling with git and tmux…".to_owned());
        effects
    }

    /// Carries out one command of the keyboard.
    pub fn apply_command(&mut self, command: Command) -> (r: Vec<Effect>)
        ensures
            old(self).commanded(command, *final(self), effect_views(r@)),
    {
        match command {
            Command::Close => {
                let mut effects: Vec<Effect> = Vec::new();
                effects.push(Effect::Close);
                assert(effect_views(effects@) =~= seq![EffectView::Close]);
                effects
            },
            Command::MoveDown => {
                self.selection.move_by(&self.rows.projects, 1);
                nothing()
            },
            Command::MoveUp => {
                self.selection.move_by(&self.rows.projects, -1);
                nothing()
            },
            Command::Open => match self.selection.row(&self.rows.projects) {
                Some((project_id, worktree_id)) => self.activate(
                    project_id.as_str(),
                    worktree_id,
                ),
                None => nothing(),
            },
            Command::Remove => match self.selection.row(&self.rows.projects) {
                Some((project_id, worktree_id)) => self.open_removal_dialog(
                    project_id.as_str(),
                    worktree_id.as_str(),
                ),
                None => nothing(),
            },
            Command::New => match self.selection.context_project(&self.rows.projects) {
                Some(project_id) => self.open_create_dialog(project_id.as_str()),
                None => nothing(),
            },
            Command::Restore => self.reconcile(),
            Command::Number(digit) => match self.selection.row(&self.rows.projects) {
                Some((_, worktree_id)) => self.set_slot(worktree_id.as_str(), digit),
                None => nothing(),
            },
        }
    }
}

/// Nothing is closed by a first click: an orphan's session is ended only by a
/// second choice of the same session, with nothing else armed in between.
pub proof fn closing_an_orphan_takes_two_clicks(
    before: GroveApp,
    session: String,
    between: GroveApp,
    first: Seq<EffectView>,
    after: GroveApp,
    second: Seq<EffectView>,
)
    requires
        text_view(before.orphan_armed) != Some(session@),
        before.orphan_acted(OrphanAction::Close(session), between, first),
        between.orphan_acted(OrphanAction::Close(session), after, second),
    ensures
        first == Seq::<EffectView>::empty(),
        second == sending(TaskView::CloseOrphan { session: session@ }),
{
}

/// One keystroke both assigns and takes off: the digit a worktree carries
/// clears it, and any other digit in range assigns it.
pub proof fn a_digit_toggles(app: GroveApp, worktree_id: Seq<char>, slot: u8)
    requires
        1 <= slot <= MAX_SLOT,
    ensures
        number_of(app.rows.state.slots@, worktree_id) == Some(slot) ==> app.slot_tasks(
            worktree_id,
            slot,
        ) == sending(TaskView::ClearSlot { worktree_id }),
        number_of(app.rows.state.slots@, worktree_id) != Some(slot) ==> app.slot_tasks(
            worktree_id,
            slot,
        ) == sending(TaskView::AssignSlot { number: slot, worktree_id }),
{
}

/// While the removal dialog is open, no key of the main window acts on a row.
pub proof fn the_removal_dialog_owns_the_keyboard(keys: Keys, i: int)
    requires
        0 <= i < commands_of(keys, true).len(),
    ensures
        commands_of(keys, true)[i] == Command::Close,
{
}

/// However an action of the list moves the selection, one row at most looks
/// selected.
pub proof fn an_action_selects_one_row(
    app: GroveApp,
    action: Action,
    after: GroveApp,
    effects: Seq<EffectView>,
)
    requires
        app.acted(action, after, effects),
        app.selection@.single(),
    ensures
        after.selection@.single(),
{
}

/// A row that is not listed is never acted on: opening it, or handing it to a
/// task, does nothing.
pub proof fn a_stale_row_is_left_alone(
    app: GroveApp,
    project_id: String,
    worktree_id: String,
    after: GroveApp,
    effects: Seq<EffectView>,
    action: Action,
)
    requires
        app.row(project_id@, worktree_id@) is None,
        action == (Action::ActivateWorktree { project_id, worktree_id }) || action
            == (Action::OpenInNewTerminal { project_id, worktree_id }) || action
            == (Action::OpenNewWindow { project_id, worktree_id }) || action
            == (Action::StartAgent { project_id, worktree_id }) || (action matches
            Action::ActivateWindow { project_id: p, worktree_id: w, window_index } && p
            == project_id && w == worktree_id) || action
            == (Action::RemoveWorktree { project_id, worktree_id }),
        app.acted(action, after, effects),
    ensures
        after == app,
        effects.len() == 0,
{
}

impl GroveApp {
    /// A window that knows nothing yet, and what it asks for first: what is
    /// remembered, and the configuration.
    pub fn new(pending_toggle: Option<u8>) -> (r: (GroveApp, Vec<Effect>))
        ensures
            r.0.rows.view_projects() == Seq::<ProjectView>::empty(),
            r.0.claude_hooks is None,
            r.0.last_service_revision == 0,
            r.0.config is None,
            r.0.selection@.worktree is None,
            r.0.selection@.window is None,
            r.0.selection@.filter.len() == 0,
            r.0.status is None,
            r.0.errors@.len() == 0,
            r.0.orphans@.len() == 0,
            r.0.ignored_orphans == 0,
            r.0.orphan_armed is None,
            !r.0.shutdown_armed,
            !r.0.quit_after_kill,
            r.0.pending_selection is None,
            r.0.pending_toggle == pending_toggle,
            !r.0.reconciled_once,
            !r.0.agents_resumed,
            r.0.open_project.form is None && !r.0.open_project.focus,
            r.0.create.form is None && !r.0.create.focus,
            r.0.removal.form is None && !r.0.removal.focus,
            r.0.settings.form is None && !r.0.settings.focus,
            effect_views(r.1@) == sending(TaskView::LoadState).push(
                EffectView::Send(TaskView::LoadConfig),
            ),
    {
        let mut effects = send(Task::LoadState);
        let ghost was = effects@;
        effects.push(Effect::Send(Task::LoadConfig));
        assert(effect_views(effects@) =~= effect_views(was).push(
            EffectView::Send(TaskView::LoadConfig),
        ));
        let app = GroveApp {
            rows: Rows::new(),
            claude_hooks: None,
            last_service_revision: 0,
            config: None,
            selection: Selection::new(),
            status: None,
            errors: Vec::new(),
            orphans: Vec::new(),
            ignored_orphans: 0,
            orphan_armed: None,
            shutdown_armed: false,
            quit_after_kill: false,
            pending_selection: None,
            pending_toggle,
            reconciled_once: false,
            agents_resumed: false,
            open_project: Detached { form: None, focus: false },
            create: Detached { form: None, focus: false },
            removal: Detached { form: None, focus: false },
            settings: Detached { form: None, focus: false },
        };
        (app, effects)
    }
}

/// No key of the main window removes, closes or deletes anything: the key for it
/// opens the dialog that asks.
pub proof fn no_key_takes_anything_away(
    app: GroveApp,
    command: Command,
    after: GroveApp,
    effects: Seq<EffectView>,
)
    requires
        app.commanded(command, after, effects),
    ensures
        harmless(effects),
{
}

/// Nothing of the list takes anything away but the entry that takes a project out
/// of it, and that is all it does.
pub proof fn the_list_only_forgets_projects(
    app: GroveApp,
    action: Action,
    after: GroveApp,
    effects: Seq<EffectView>,
)
    requires
        app.acted(action, after, effects),
    ensures
        match action {
            Action::RemoveProject(id) => effects == sending(
                TaskView::RemoveProject { project_id: id@ },
            ),
            _ => harmless(effects),
        },
{
}

}
