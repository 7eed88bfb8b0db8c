//! The detached windows, and what their forms ask for.
use vstd::prelude::*;
use vstd::string::*;

use crate::app::{nothing, send, sending, GroveApp};
use crate::model::text_view;
use crate::text::{trim, trimmed};
use crate::ui::chrome::Detached;
use crate::ui::dialogs::create_worktree::{self, CreateForm};
use crate::ui::dialogs::open_project::{self, OpenProjectForm};
use crate::ui::dialogs::removal::Request;
use crate::ui::settings::{Action, Form};
use crate::workers::{effect_views, Effect, EffectView, PickTarget, Task, TaskView};

verus! {

/// Where the directory picker opens: at what has been typed, else at the
/// fallback.
pub open spec fn start_of(typed: Seq<char>, fallback: Option<Seq<char>>) -> Option<Seq<char>> {
    if trimmed(typed).len() == 0 {
        fallback
    } else {
        Some(trimmed(typed))
    }
}

/// Where the directory picker opens. Purely textual.
pub fn pick_start(typed: &str, fallback: Option<&str>) -> (r: Option<String>)
    ensures
        text_view(r) == start_of(
            typed@,
            (match fallback {
                Some(path) => Some(path@),
                None => None,
            }),
        ),
{
    let typed = trim(typed);
    if typed.is_empty() {
        return match fallback {
            Some(path) => Some(path.to_owned()),
            None => None,
        };
    }
    Some(typed.to_owned())
}

/// The windows after a directory was picked: it fills the field that asked for
/// it, and a window that was closed meanwhile stays closed.
pub open spec fn picked(
    target: PickTarget,
    path: String,
    open_project: (Detached<OpenProjectForm>, Detached<OpenProjectForm>),
    create: (Detached<CreateForm>, Detached<CreateForm>),
    settings: (Detached<Form>, Detached<Form>),
) -> bool {
    &&& open_project.1 == (match open_project.0.form {
        Some(form) if target == PickTarget::ProjectPath => Detached {
            form: Some(OpenProjectForm { path, ..form }),
            ..open_project.0
        },
        _ => open_project.0,
    })
    &&& create.1 == (match create.0.form {
        Some(form) if target == PickTarget::WorktreePath => Detached {
            form: Some(CreateForm { path, path_edited: true, ..form }),
            ..create.0
        },
        _ => create.0,
    })
    &&& settings.1 == (match settings.0.form {
        Some(form) if target == PickTarget::WorktreeParent => Detached {
            form: Some(Form { default_parent: path, note: None, ..form }),
            ..settings.0
        },
        _ => settings.0,
    })
}

/// Puts a directory that was picked into the field that asked for it.
pub fn apply_picked(
    target: PickTarget,
    path: String,
    open_project: &mut Detached<OpenProjectForm>,
    create: &mut Detached<CreateForm>,
    settings: &mut Detached<Form>,
)
    ensures
        picked(
            target,
            path,
            (*old(open_project), *final(open_project)),
            (*old(create), *final(create)),
            (*old(settings), *final(settings)),
        ),
{
    match target {
        PickTarget::ProjectPath => {
            if let Some(form) = &mut open_project.form {
                form.path = path;
            }
        },
        PickTarget::WorktreePath => {
            if let Some(form) = &mut create.form {
                form.path = path;
                form.path_edited = true;
            }
        },
        PickTarget::WorktreeParent => {
            if let Some(form) = &mut settings.form {
                form.default_parent = path;
                form.note = None;
            }
        },
    }
}

impl GroveApp {
    /// The one task a confirmed removal comes to, where its dialog is open and
    /// there is something to remove.
    pub open spec fn removal_tasks(self, request: Request) -> Seq<EffectView> {
        match self.removal.form {
            None => Seq::empty(),
            Some(form) => match request {
                Request::RemoveProject => sending(
                    TaskView::RemoveProject { project_id: form.project_id@ },
                ),
                Request::CloseSession => if form.session is Some {
                    sending(
                        TaskView::CloseSession {
                            project_id: form.project_id@,
                            worktree_id: form.worktree_id@,
                        },
                    )
                } else {
                    Seq::empty()
                },
                Request::RemoveWorktree { force } => sending(
                    TaskView::RemoveWorktree {
                        project_id: form.project_id@,
                        worktree_id: form.worktree_id@,
                        force,
                    },
                ),
                Request::DeleteBranch { force } => match form.branch {
                    Some(branch) => sending(
                        TaskView::DeleteBranch {
                            project_id: form.project_id@,
                            branch: branch@,
                            force,
                        },
                    ),
                    None => Seq::empty(),
                },
            },
        }
    }

    /// Hands one confirmed removal over. Exactly one, never a bundle.
    pub fn apply_removal(&self, request: Request) -> (r: Vec<Effect>)
        ensures
            effect_views(r@) == self.removal_tasks(request),
    {
        let form = match &self.removal.form {
            None => {
                return nothing();
            },
            Some(form) => form,
        };
        match request {
            Request::RemoveProject => send(
                Task::RemoveProject { project_id: form.project_id.clone() },
            ),
            Request::CloseSession => if form.session.is_some() {
                send(
                    Task::CloseSession {
                        project_id: form.project_id.clone(),
                        worktree_id: form.worktree_id.clone(),
                    },
                )
            } else {
                nothing()
            },
            Request::RemoveWorktree { force } => send(
                Task::RemoveWorktree {
                    project_id: form.project_id.clone(),
                    worktree_id: form.worktree_id.clone(),
                    force,
                },
            ),
            Request::DeleteBranch { force } => match &form.branch {
                Some(branch) => send(
                    Task::DeleteBranch {
                        project_id: form.project_id.clone(),
                        branch: branch.clone(),
                        force,
                    },
                ),
                None => nothing(),
            },
        }
    }

    /// What an action of the settings comes to.
    pub open spec fn settings_acted(
        self,
        action: Action,
        home: Option<Seq<char>>,
        after: GroveApp,
        effects: Seq<EffectView>,
    ) -> bool {
        match self.settings.form {
            None => self.unchanged(after) && effects == Seq::<EffectView>::empty(),
            Some(form) => match action {
                Action::Save => if form.changes().len() == 0 {
                    self.unchanged(after) && effects == Seq::<EffectView>::empty()
                } else {
                    &&& self.shows(after, self.selection@, Some("Saving config.toml…"@))
                    &&& effects == sending(TaskView::SaveConfig { edits: form.changes() })
                },
                Action::DetectTerminal => {
                    self.unchanged(after) && effects == sending(TaskView::DetectTerminal)
                },
                Action::Probe(command) => {
                    self.unchanged(after) && effects == sending(
                        TaskView::ProbeTerminal { command: command@ },
                    )
                },
                Action::OpenConfigFile => {
                    self.unchanged(after) && effects == sending(TaskView::OpenConfigFile)
                },
                Action::ClaudeHooks(op) => {
                    self.unchanged(after) && effects == sending(TaskView::ClaudeHooks { op })
                },
                Action::BrowseWorktreeParent => {
                    &&& self.unchanged(after)
                    &&& effects == sending(
                        TaskView::PickDirectory {
                            target: PickTarget::WorktreeParent,
                            start: start_of(form.default_parent@, home),
                        },
                    )
                },
            },
        }
    }

    /// Applies one action of the settings. Nothing is saved where nothing
    /// changed.
    pub fn apply_settings_action(&mut self, action: Action, home: Option<&str>) -> (r: Vec<Effect>)
        ensures
            old(self).settings_acted(
                action,
                (match home {
                    Some(path) => Some(path@),
                    None => None,
                }),
                *final(self),
                effect_views(r@),
            ),
    {
        let form = match &self.settings.form {
            None => {
                return nothing();
            },
            Some(form) => form,
        };
        match action {
            Action::Save => {
                if !form.is_dirty() {
                    return nothing();
                }
                let edits = form.edits();
                self.status = Some("Saving config.toml…".to_owned());
                send(Task::SaveConfig { edits })
            },
            Action::DetectTerminal => send(Task::DetectTerminal),
            Action::Probe(command) => send(Task::ProbeTerminal { command }),
            Action::OpenConfigFile => send(Task::OpenConfigFile),
            Action::ClaudeHooks(op) => send(Task::ClaudeHooks { op }),
            Action::BrowseWorktreeParent => {
                let start = pick_start(form.default_parent.as_str(), home);
                send(Task::PickDirectory { target: PickTarget::WorktreeParent, start })
            },
        }
    }

    /// What a frame of the open-project window comes to. A path that was
    /// confirmed is opened and the window closes; `close` says that the window
    /// was asked to go away.
    pub fn open_project_outcome(
        &mut self,
        outcome: open_project::Outcome,
        close: bool,
        home: Option<&str>,
    ) -> (r: Vec<Effect>)
        ensures
            final(self).open_project == (if close || outcome is Cancelled || outcome is Confirmed {
                Detached { form: None, focus: false }
            } else {
                old(self).open_project
            }),
            *final(self) == (GroveApp {
                open_project: final(self).open_project,
                status: final(self).status,
                ..*old(self)
            }),
            match outcome {
                open_project::Outcome::Idle | open_project::Outcome::Cancelled => {
                    &&& effect_views(r@) == Seq::<EffectView>::empty()
                    &&& final(self).status == old(self).status
                },
                open_project::Outcome::Browse => {
                    &&& final(self).status == old(self).status
                    &&& effect_views(r@) == (match old(self).open_project.form {
                        Some(form) => sending(
                            TaskView::PickDirectory {
                                target: PickTarget::ProjectPath,
                                start: start_of(
                                    form.path@,
                                    (match home {
                                        Some(path) => Some(path@),
                                        None => None,
                                    }),
                                ),
                            },
                        ),
                        None => Seq::empty(),
                    })
                },
                open_project::Outcome::Confirmed(path) => {
                    &&& text_view(final(self).status) == Some("Opening "@ + path@ + "…"@)
                    &&& effect_views(r@) == sending(TaskView::OpenProject { path: path@ })
                },
            },
    {
        let mut closing = close;
        let effects = match outcome {
            open_project::Outcome::Idle => nothing(),
            open_project::Outcome::Cancelled => {
                closing = true;
                nothing()
            },
            open_project::Outcome::Browse => match &self.open_project.form {
                Some(form) => {
                    let start = pick_start(form.path.as_str(), home);
                    send(Task::PickDirectory { target: PickTarget::ProjectPath, start })
                },
                None => nothing(),
            },
            open_project::Outcome::Confirmed(path) => {
                closing = true;
                let mut status = "Opening ".to_owned();
                status.append(path.as_str());
                status.append("…");
                self.status = Some(status);
                send(Task::OpenProject { path })
            },
        };
        if closing {
            self.open_project.close();
        }
        effects
    }

    /// What a frame of the create-worktree window comes to.
    pub fn create_outcome(&mut self, outcome: create_worktree::Outcome, close: bool) -> (r: Vec<
        Effect,
    >)
        ensures
            final(self).create == (if close || outcome is Cancelled || (outcome is Create && old(
                self,
            ).create.form is Some) {
                Detached { form: None, focus: false }
            } else {
                old(self).create
            }),
            *final(self) == (GroveApp {
                create: final(self).create,
                status: final(self).status,
                ..*old(self)
            }),
            match (outcome, old(self).create.form) {
                (create_worktree::Outcome::Browse, Some(form)) => {
                    &&& final(self).status == old(self).status
                    &&& effect_views(r@) == sending(
                        TaskView::PickDirectory {
                            target: PickTarget::WorktreePath,
                            start: start_of(form.path@, Some(form.default_parent@)),
                        },
                    )
                },
                (create_worktree::Outcome::Create(add), Some(form)) => {
                    &&& text_view(final(self).status) == Some("Creating the worktree…"@)
                    &&& effect_views(r@) == sending(
                        TaskView::CreateWorktree {
                            project_id: form.project_id@,
                            add,
                            open_after: form.open_after,
                        },
                    )
                },
                _ => {
                    &&& effect_views(r@) == Seq::<EffectView>::empty()
                    &&& final(self).status == old(self).status
                },
            },
    {
        let mut closing = close;
        let effects = match outcome {
            create_worktree::Outcome::Idle => nothing(),
            create_worktree::Outcome::Cancelled => {
                closing = true;
                nothing()
            },
            create_worktree::Outcome::Browse => match &self.create.form {
                Some(form) => {
                    let start = pick_start(
                        form.path.as_str(),
                        Some(form.default_parent.as_str()),
                    );
                    send(Task::PickDirectory { target: PickTarget::WorktreePath, start })
                },
                None => nothing(),
            },
            create_worktree::Outcome::Create(add) => {
                let task = match &self.create.form {
                    Some(form) => Some(
                        Task::CreateWorktree {
                            project_id: form.project_id.clone(),
                            add,
                            open_after: form.open_after,
                        },
                    ),
                    None => None,
                };
                match task {
                    Some(task) => {
                        closing = true;
                        self.status = Some("Creating the worktree…".to_owned());
                        send(task)
                    },
                    None => nothing(),
                }
            },
        };
        if closing {
            self.create.close();
        }
        effects
    }
}

/// A confirmed removal is at most one task: no operation implies another.
pub proof fn a_removal_is_never_a_bundle(app: GroveApp, request: Request)
    ensures
        app.removal_tasks(request).len() <= 1,
{
}

}
