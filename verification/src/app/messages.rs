//! What each message of a worker, the poller or the service comes to.
use vstd::prelude::*;
use vstd::string::*;

use crate::app::dialogs::{apply_picked, picked};
use crate::app::rows::{labels_of, refs_of, Rows};
use crate::app::service_events::{classify_service_event, ServiceEventAction};
use crate::app::{nothing, send, sending, GroveApp};
use crate::model::{
    project_at, project_at_is_first, text_view, worktree_views, ProjectView, Worktree, WorktreeView,
};
use crate::notices::Notification;
use crate::state::{record_at, State};
use crate::text::{decimal, number};
use crate::ui::chrome::Detached;
use crate::ui::dialogs::create_worktree::CreateForm;
use crate::ui::dialogs::removal::{RemovalForm, RemovalOp, RemovalReport};
use crate::ui::dialogs::ErrorReport;
use crate::ui::orphans::OrphanSession;
use crate::ui::settings::{Form, HookOp, Probe};
use crate::workers::{
    effect_views, harmless, Activation, Effect, EffectView, HookChange, Message, Reconciliation,
    ServiceUpdate, Task, TaskView,
};

verus! {

/// The status line for an activation, whichever route it took.
pub open spec fn description(activation: Activation) -> Seq<char> {
    match activation {
        Activation::SwitchedClient { session, client_tty } => "Switched "@ + client_tty@ + " to "@
            + session@,
        Activation::LaunchedTerminal { session, command } => "Launched a terminal on "@ + session@,
    }
}

/// The status line for an activation.
pub fn describe(activation: &Activation) -> (r: String)
    ensures
        r@ == description(*activation),
{
    match activation {
        Activation::SwitchedClient { session, client_tty } => {
            let mut line = "Switched ".to_owned();
            line.append(client_tty.as_str());
            line.append(" to ");
            line.append(session.as_str());
            line
        },
        Activation::LaunchedTerminal { session, .. } => {
            let mut line = "Launched a terminal on ".to_owned();
            line.append(session.as_str());
            line
        },
    }
}

/// The tasks that read the working trees of the projects that have any.
pub open spec fn git_refreshes(projects: Seq<ProjectView>) -> Seq<EffectView>
    decreases projects.len(),
{
    if projects.len() == 0 {
        Seq::empty()
    } else {
        let before = git_refreshes(projects.drop_last());
        if projects.last().worktrees.len() == 0 {
            before
        } else {
            before.push(
                EffectView::Send(TaskView::RefreshStatuses { project_id: projects.last().id }),
            )
        }
    }
}

/// The id of the first worktree at the path.
pub open spec fn at_path(worktrees: Seq<WorktreeView>, path: Seq<char>) -> Option<Seq<char>>
    decreases worktrees.len(),
{
    if worktrees.len() == 0 {
        None
    } else {
        match at_path(worktrees.drop_last(), path) {
            Some(id) => Some(id),
            None => if worktrees.last().path == path {
                Some(worktrees.last().id)
            } else {
                None
            },
        }
    }
}

proof fn lemma_at_path_grows(worktrees: Seq<WorktreeView>, n: int, path: Seq<char>)
    requires
        0 <= n <= worktrees.len(),
        at_path(worktrees.subrange(0, n), path) is Some,
    ensures
        at_path(worktrees, path) == at_path(worktrees.subrange(0, n), path),
    decreases worktrees.len() - n,
{
    if n < worktrees.len() {
        assert(worktrees.subrange(0, n + 1).drop_last() =~= worktrees.subrange(0, n));
        lemma_at_path_grows(worktrees, n + 1, path);
    } else {
        assert(worktrees.subrange(0, n) =~= worktrees);
    }
}

fn find_path(worktrees: &Vec<Worktree>, path: &String) -> (r: Option<String>)
    ensures
        text_view(r) == at_path(worktree_views(worktrees@), path@),
{
    let ghost views = worktree_views(worktrees@);
    let mut i: usize = 0;
    assert(views.subrange(0, 0) =~= Seq::<WorktreeView>::empty());
    while i < worktrees.len()
        invariant
            i <= worktrees.len(),
            views == worktree_views(worktrees@),
            at_path(views.subrange(0, i as int), path@) is None,
        decreases worktrees.len() - i,
    {
        assert(views.subrange(0, i + 1).drop_last() =~= views.subrange(0, i as int));
        if worktrees[i].path == *path {
            proof {
                lemma_at_path_grows(views, i + 1, path@);
            }
            return Some(worktrees[i].id.clone());
        }
        i += 1;
    }
    assert(views.subrange(0, i as int) =~= views);
    None
}

/// Some orphan has this name.
pub open spec fn is_orphan(orphans: Seq<OrphanSession>, name: Seq<char>) -> bool {
    exists|i: int| 0 <= i < orphans.len() && (#[trigger] orphans[i]).name@ == name
}

fn orphan_listed(orphans: &Vec<OrphanSession>, name: &String) -> (r: bool)
    ensures
        r == is_orphan(orphans@, name@),
{
    let mut i: usize = 0;
    while i < orphans.len()
        invariant
            i <= orphans.len(),
            forall|k: int| 0 <= k < i ==> (#[trigger] orphans@[k]).name@ != name@,
        decreases orphans.len() - i,
    {
        if orphans[i].name == *name {
            return true;
        }
        i += 1;
    }
    false
}

/// What is said once the recorded conversations were looked at.
pub open spec fn resumed_line(count: nat) -> Seq<char> {
    if count == 0 {
        "No conversation needed resuming."@
    } else if count == 1 {
        "Resumed 1 agent conversation."@
    } else {
        "Resumed "@ + decimal(count) + " agent conversations."@
    }
}

/// The status line after an operation on the hooks; a check says nothing.
pub open spec fn hooks_line(op: HookOp, change: HookChange, before: Option<Seq<char>>) -> Option<
    Seq<char>,
> {
    match op {
        HookOp::Check => before,
        HookOp::Install => if change.changed {
            Some(
                "Installed Grove's hooks in "@ + change.path@
                    + ". Restart "@ + change.agent@ + " for them to take effect."@,
            )
        } else {
            Some("Grove's hooks were already installed."@)
        },
        HookOp::Uninstall => if change.changed {
            Some("Removed Grove's hooks from "@ + change.path@ + "."@)
        } else {
            Some("Grove had no hooks installed."@)
        },
    }
}

/// What an operation that failed is called.
pub open spec fn operation_label(operation: RemovalOp) -> Seq<char> {
    match operation {
        RemovalOp::CloseSession => "close the session"@,
        RemovalOp::RemoveWorktree => "remove the worktree"@,
        RemovalOp::DeleteBranch => "delete the branch"@,
    }
}

fn label_of(operation: RemovalOp) -> (r: &'static str)
    ensures
        r@ == operation_label(operation),
{
    match operation {
        RemovalOp::CloseSession => "close the session",
        RemovalOp::RemoveWorktree => "remove the worktree",
        RemovalOp::DeleteBranch => "delete the branch",
    }
}

impl GroveApp {
    /// A snapshot of what is remembered was taken in. A removal window whose
    /// project is gone is closed.
    pub open spec fn state_applied(self, after: GroveApp, state: State, bootstrap: bool) -> bool {
        &&& self.rows.state_taken(after.rows, state, bootstrap)
        &&& after.removal == (match self.removal.form {
            Some(form) if record_at(state.projects@, form.project_id@) is None => Detached {
                form: None,
                focus: false,
            },
            _ => self.removal,
        })
        &&& after == GroveApp { rows: after.rows, removal: after.removal, ..self }
    }

    /// Takes in a snapshot of what is remembered.
    pub fn apply_daemon_state(&mut self, state: State, bootstrap: bool)
        ensures
            old(self).state_applied(*final(self), state, bootstrap),
    {
        self.rows.apply_daemon_state(state, bootstrap);
        let gone = match &self.removal.form {
            Some(form) => self.rows.state.find(form.project_id.as_str()).is_none(),
            None => false,
        };
        if gone {
            self.removal.close();
        }
    }

    /// This launch may ask for its agents back: it has not yet, and it knows the
    /// configuration.
    pub open spec fn may_resume(self) -> bool {
        !self.agents_resumed && self.config is Some
    }

    /// Asks for the recorded conversations, once per launch.
    pub fn resume_agents_once(&mut self) -> (r: Vec<Effect>)
        ensures
            *final(self) == (GroveApp {
                agents_resumed: old(self).agents_resumed || old(self).may_resume(),
                ..*old(self)
            }),
            effect_views(r@) == (if old(self).may_resume() {
                sending(TaskView::ResumeAgents)
            } else {
                Seq::empty()
            }),
    {
        if self.agents_resumed || self.config.is_none() {
            return nothing();
        }
        self.agents_resumed = true;
        send(Task::ResumeAgents)
    }

    /// The window as a pass over the repositories leaves it, before a number that
    /// waited for the pass is opened.
    pub open spec fn after_pass(self, rows: Rows, result: Reconciliation) -> GroveApp {
        GroveApp {
            rows,
            orphans: result.orphans,
            ignored_orphans: result.ignored,
            orphan_armed: match self.orphan_armed {
                Some(name) if !is_orphan(result.orphans@, name@) => None,
                armed => armed,
            },
            reconciled_once: true,
            pending_toggle: None,
            status: Some(result.summary),
            ..self
        }
    }

    /// A pass over the repositories and the sessions was taken in. A number that
    /// waited for it is opened, once, and the agents are asked for, once.
    pub open spec fn pass_applied(
        self,
        after: GroveApp,
        effects: Seq<EffectView>,
        result: Reconciliation,
        state: State,
    ) -> bool {
        let resumes = self.may_resume();
        let passed = self.after_pass(after.rows, result);
        let opened = GroveApp { agents_resumed: self.agents_resumed, ..after };
        let middle = effects.subrange(
            1,
            effects.len() - if resumes {
                1int
            } else {
                0int
            },
        );
        &&& self.rows.reconciled(after.rows, result.projects@, state)
        &&& after.agents_resumed == (self.agents_resumed || resumes)
        &&& effects.len() >= 1
        &&& effects[0] == EffectView::Describe(labels_of(after.rows.view_projects()))
        &&& resumes ==> effects.len() >= 2 && effects.last() == EffectView::Send(
            TaskView::ResumeAgents,
        )
        &&& match self.pending_toggle {
            Some(slot) => passed.slot_activated(opened, middle, slot),
            None => opened == passed && middle == Seq::<EffectView>::empty(),
        }
    }

    /// Takes in a pass over the repositories and the sessions.
    pub fn apply_reconciliation(&mut self, result: Reconciliation, state: State) -> (r: Vec<Effect>)
        ensures
            old(self).pass_applied(*final(self), effect_views(r@), result, state),
    {
        self.reconciled_once = true;
        self.rows.apply_reconciliation(result.projects, state);
        self.orphans = result.orphans;
        self.ignored_orphans = result.ignored;
        let disarm = match &self.orphan_armed {
            Some(name) => !orphan_listed(&self.orphans, name),
            None => false,
        };
        if disarm {
            self.orphan_armed = None;
        }
        self.status = Some(result.summary);
        let waiting = self.pending_toggle;
        self.pending_toggle = None;
        let mut effects: Vec<Effect> = Vec::new();
        let ghost told = labels_of(self.rows.view_projects());
        effects.push(Effect::Describe(self.rows.labels()));
        let ghost passed = *self;
        assert(passed == old(self).after_pass(self.rows, result));
        let mut opened = match waiting {
            Some(slot) => self.activate_slot(slot),
            None => nothing(),
        };
        let ghost middle = effect_views(opened@);
        effects.append(&mut opened);
        assert(effect_views(effects@) =~= seq![EffectView::Describe(told)] + middle);
        let ghost before = effects@;
        let mut resumed = self.resume_agents_once();
        let ghost tail = effect_views(resumed@);
        effects.append(&mut resumed);
        assert(effect_views(effects@) =~= seq![EffectView::Describe(told)] + middle + tail);
        proof {
            let all = effect_views(effects@);
            if old(self).may_resume() {
                assert(all.subrange(1, all.len() - 1) =~= middle);
                assert(all.last() == EffectView::Send(TaskView::ResumeAgents));
            } else {
                assert(all.subrange(1, all.len() - 0) =~= middle);
            }
            assert(all[0] == EffectView::Describe(told));
        }
        effects
    }

    /// An agent's report was taken in.
    pub open spec fn report_applied(
        self,
        after: GroveApp,
        effects: Seq<EffectView>,
        notification: Notification,
    ) -> bool {
        &&& self.rows.noted(after.rows, notification)
        &&& after == GroveApp { rows: after.rows, ..self }
        &&& effects == seq![EffectView::Notified(notification)]
    }

    /// Takes in an agent's report: shown at once, and handed to the poller.
    pub fn apply_notification(&mut self, notification: Notification) -> (r: Vec<Effect>)
        ensures
            old(self).report_applied(*final(self), effect_views(r@), notification),
    {
        self.rows.apply_notification(&notification);
        let mut effects: Vec<Effect> = Vec::new();
        effects.push(Effect::Notified(notification));
        assert(effect_views(effects@) =~= seq![EffectView::Notified(notification)]);
        effects
    }

    /// A service event was taken in: one seen before changes nothing, one that
    /// cannot be read is made up for by a poll, and so is a gap before one that
    /// is applied.
    pub open spec fn event_applied(
        self,
        after: GroveApp,
        effects: Seq<EffectView>,
        revision: u64,
        decoded: Result<ServiceUpdate, String>,
    ) -> bool {
        if revision <= self.last_service_revision {
            self.unchanged(after) && effects == Seq::<EffectView>::empty()
        } else {
            match decoded {
                Err(error) => {
                    &&& self.unchanged(after)
                    &&& effects == seq![
                        EffectView::Warn("grove: invalid service event: "@ + error@),
                        EffectView::Poll,
                    ]
                },
                Ok(update) => {
                    let gap = revision > self.last_service_revision + 1;
                    let rest = if gap {
                        effects.drop_first()
                    } else {
                        effects
                    };
                    let seen = GroveApp { last_service_revision: revision, ..self };
                    &&& gap ==> effects.len() > 0 && effects[0] == EffectView::Poll
                    &&& match update {
                        ServiceUpdate::State(state) => {
                            &&& rest == Seq::<EffectView>::empty()
                            &&& seen.state_applied(after, state, false)
                        },
                        ServiceUpdate::Reconciliation { reconciliation, state } =>
                            seen.pass_applied(after, rest, reconciliation, state),
                        ServiceUpdate::Notification(notification) => seen.report_applied(
                            after,
                            rest,
                            notification,
                        ),
                        ServiceUpdate::ControlCompleted => {
                            &&& after == seen
                            &&& rest == sending(TaskView::RefreshSessions).push(EffectView::Poll)
                        },
                    }
                },
            }
        }
    }

    /// Takes in a service event.
    pub fn apply_service_event(
        &mut self,
        revision: u64,
        decoded: Result<ServiceUpdate, String>,
    ) -> (r: Vec<Effect>)
        ensures
            old(self).event_applied(*final(self), effect_views(r@), revision, decoded),
    {
        let mut effects: Vec<Effect> = Vec::new();
        let (update, gap) = match classify_service_event(
            self.last_service_revision,
            revision,
            decoded,
        ) {
            ServiceEventAction::Ignore => {
                return nothing();
            },
            ServiceEventAction::Recover(error) => {
                let mut line = "grove: invalid service event: ".to_owned();
                line.append(error.as_str());
                let ghost said = line@;
                effects.push(Effect::Warn(line));
                effects.push(Effect::Poll);
                assert(effect_views(effects@) =~= seq![EffectView::Warn(said), EffectView::Poll]);
                return effects;
            },
            ServiceEventAction::Apply { revision: _, update, gap } => (update, gap),
        };
        if gap {
            effects.push(Effect::Poll);
        }
        let ghost first = effects@;
        self.last_service_revision = revision;
        let mut rest = match update {
            ServiceUpdate::State(state) => {
                self.apply_daemon_state(state, false);
                nothing()
            },
            ServiceUpdate::Reconciliation { reconciliation, state } => self.apply_reconciliation(
                reconciliation,
                state,
            ),
            ServiceUpdate::Notification(notification) => self.apply_notification(notification),
            ServiceUpdate::ControlCompleted => {
                let mut both = send(Task::RefreshSessions);
                let ghost was = both@;
                both.push(Effect::Poll);
                assert(effect_views(both@) =~= effect_views(was).push(EffectView::Poll));
                both
            },
        };
        let ghost tail = effect_views(rest@);
        effects.append(&mut rest);
        proof {
            let all = effect_views(effects@);
            if gap {
                assert(all[0] == EffectView::Poll);
                assert(all.drop_first() =~= tail);
            } else {
                assert(all =~= tail);
            }
        }
        effects
    }

    /// Takes in what the settings say of the hooks.
    pub fn apply_hook_change(&mut self, op: HookOp, change: HookChange)
        ensures
            *final(self) == (GroveApp {
                claude_hooks: Some(change),
                status: final(self).status,
                ..*old(self)
            }),
            text_view(final(self).status) == hooks_line(op, change, text_view(old(self).status)),
    {
        match op {
            HookOp::Check => {},
            HookOp::Install => {
                self.status = Some(
                    if change.changed {
                        let mut line = "Installed Grove's hooks in ".to_owned();
                        line.append(change.path.as_str());
                        line.append(". Restart ");
                        line.append(change.agent.as_str());
                        line.append(" for them to take effect.");
                        line
                    } else {
                        "Grove's hooks were already installed.".to_owned()
                    },
                );
            },
            HookOp::Uninstall => {
                self.status = Some(
                    if change.changed {
                        let mut line = "Removed Grove's hooks from ".to_owned();
                        line.append(change.path.as_str());
                        line.append(".");
                        line
                    } else {
                        "Grove had no hooks installed.".to_owned()
                    },
                );
            },
        }
        self.claude_hooks = Some(change);
    }

    /// The tasks that read the working trees again: one per project that has
    /// any.
    pub fn refresh_git_statuses(&self) -> (r: Vec<Effect>)
        ensures
            effect_views(r@) == git_refreshes(self.rows.view_projects()),
    {
        let ghost views = self.rows.view_projects();
        let mut effects = nothing();
        let mut i: usize = 0;
        assert(views.subrange(0, 0) =~= Seq::<ProjectView>::empty());
        while i < self.rows.projects.len()
            invariant
                i <= self.rows.projects.len(),
                views == self.rows.view_projects(),
                effect_views(effects@) == git_refreshes(views.subrange(0, i as int)),
            decreases self.rows.projects.len() - i,
        {
            assert(views.subrange(0, i + 1).drop_last() =~= views.subrange(0, i as int));
            let project = &self.rows.projects[i];
            assert(views[i as int].worktrees.len() == project.worktrees@.len());
            if !project.worktrees.is_empty() {
                let ghost was = effects@;
                let task = Task::RefreshStatuses { project_id: project.id.clone() };
                effects.push(Effect::Send(task));
                assert(effect_views(effects@) =~= effect_views(was).push(
                    EffectView::Send(task@),
                ));
            }
            i += 1;
        }
        assert(views.subrange(0, i as int) =~= views);
        effects
    }
}

/// No effect.
pub open spec fn quiet() -> Seq<EffectView> {
    Seq::empty()
}

fn only(effect: Effect) -> (r: Vec<Effect>)
    ensures
        effect_views(r@) == seq![effect@],
{
    let mut effects: Vec<Effect> = Vec::new();
    effects.push(effect);
    assert(effect_views(effects@) =~= seq![effect@]);
    effects
}

impl GroveApp {
    /// The settings form changed to this one; a window that is closed stays so.
    pub open spec fn settings_changed(self, after: GroveApp, form: Option<Form>) -> bool {
        after.settings == (Detached { form, ..self.settings })
    }

    /// A refreshed list was taken in, and a worktree that was just made is
    /// selected once it is listed.
    pub open spec fn list_refreshed(
        self,
        after: GroveApp,
        project_id: Seq<char>,
        worktrees: Seq<WorktreeView>,
    ) -> bool {
        let made = match self.pending_selection {
            Some((project, path)) if project@ == project_id => match project_at(
                after.rows.view_projects(),
                project_id,
            ) {
                Some(i) => at_path(after.rows.view_projects()[i].worktrees, path@),
                None => None,
            },
            _ => None,
        };
        &&& self.rows.refreshed(after.rows, project_id, worktrees)
        &&& after == GroveApp {
            rows: after.rows,
            selection: after.selection,
            pending_selection: if made is Some {
                None
            } else {
                self.pending_selection
            },
            ..self
        }
        &&& after.selection@ == (match made {
            Some(id) => self.selection@.selecting(id),
            None => self.selection@,
        })
    }

    fn take_list(&mut self, project_id: String, worktrees: Vec<Worktree>)
        ensures
            old(self).list_refreshed(*final(self), project_id@, worktree_views(worktrees@)),
    {
        self.rows.refresh_worktrees(project_id.as_str(), worktrees);
        proof {
            project_at_is_first(self.rows.view_projects(), project_id@);
        }
        let made = match &self.pending_selection {
            Some((project, path)) => if *project == project_id {
                match self.rows.project(project_id.as_str()) {
                    Some(listed) => find_path(&listed.worktrees, path),
                    None => None,
                }
            } else {
                None
            },
            None => None,
        };
        if let Some(id) = made {
            self.selection.select(id);
            self.pending_selection = None;
        }
    }

    /// A removal came off. The row's last reading is dropped, so that a raised
    /// attention cannot outlive what it was about.
    pub open spec fn removal_finished(
        self,
        after: GroveApp,
        effects: Seq<EffectView>,
        project_id: Seq<char>,
        operation: RemovalOp,
        detail: String,
    ) -> bool {
        &&& text_view(after.status) == Some(detail@)
        &&& match self.removal.form {
            Some(form) if form.project_id@ == project_id => {
                &&& effects == seq![EffectView::Forget(form.worktree_id@)]
                &&& self.rows.forgot(after.rows, form.worktree_id@)
                &&& after.removal.focus == self.removal.focus
                &&& after.removal.form is Some
                &&& form_done(form, after.removal.form->0, operation, detail)
                &&& after == GroveApp {
                    rows: after.rows,
                    removal: after.removal,
                    status: after.status,
                    ..self
                }
            },
            _ => effects == quiet() && after == GroveApp { status: after.status, ..self },
        }
    }

    fn finish_removal(&mut self, project_id: String, operation: RemovalOp, detail: String) -> (r:
        Vec<Effect>)
        ensures
            old(self).removal_finished(
                *final(self),
                effect_views(r@),
                project_id@,
                operation,
                detail,
            ),
    {
        self.status = Some(detail.clone());
        let mut effects = nothing();
        if let Some(form) = &mut self.removal.form {
            if form.project_id == project_id {
                self.rows.forget(form.worktree_id.as_str());
                effects = only(Effect::Forget(form.worktree_id.clone()));
                form.note_done(operation, detail);
            }
        }
        effects
    }

    /// A removal was refused: the refusal is shown, and kept with the dialog that
    /// asked for it.
    pub open spec fn removal_refused(
        self,
        after: GroveApp,
        project_id: Seq<char>,
        operation: RemovalOp,
        report: ErrorReport,
    ) -> bool {
        &&& text_view(after.status) == Some(
            "Did not "@ + operation_label(operation) + " — see the error below."@,
        )
        &&& after.errors@ == self.errors@.push(report)
        &&& match self.removal.form {
            Some(form) if form.project_id@ == project_id => {
                &&& after.removal.focus == self.removal.focus
                &&& after.removal.form is Some
                &&& form_refused(form, after.removal.form->0, operation, report.summary)
                &&& after == GroveApp {
                    removal: after.removal,
                    status: after.status,
                    errors: after.errors,
                    ..self
                }
            },
            _ => after == GroveApp { status: after.status, errors: after.errors, ..self },
        }
    }

    fn refuse_removal(&mut self, project_id: String, operation: RemovalOp, report: ErrorReport)
        ensures
            old(self).removal_refused(*final(self), project_id@, operation, report),
    {
        let summary = report.summary.clone();
        let mut line = "Did not ".to_owned();
        line.append(label_of(operation));
        line.append(" — see the error below.");
        self.status = Some(line);
        self.errors.push(report);
        if let Some(form) = &mut self.removal.form {
            if form.project_id == project_id {
                form.note_refusal(operation, summary);
            }
        }
    }

    /// The branches of a project arrived: the form that asked for them takes
    /// them.
    pub open spec fn refs_taken(
        self,
        after: GroveApp,
        project_id: Seq<char>,
        refs: Vec<crate::ui::dialogs::create_worktree::RefEntry>,
        current: Option<String>,
    ) -> bool {
        &&& after == GroveApp { create: after.create, ..self }
        &&& match self.create.form {
            Some(form) if form.project_id@ == project_id => {
                &&& after.create.focus == self.create.focus
                &&& after.create.form is Some
                &&& form_with_refs(form, after.create.form->0, refs, current)
            },
            _ => after.create == self.create,
        }
    }

    fn take_refs(
        &mut self,
        project_id: String,
        refs: Vec<crate::ui::dialogs::create_worktree::RefEntry>,
        current: Option<String>,
    )
        ensures
            old(self).refs_taken(*final(self), project_id@, refs, current),
    {
        if let Some(form) = &mut self.create.form {
            if form.project_id == project_id {
                form.refs_arrived(refs, current);
            }
        }
    }
}

/// The removal form with a success taken down.
pub open spec fn form_done(
    form: RemovalForm,
    after: RemovalForm,
    operation: RemovalOp,
    detail: String,
) -> bool {
    &&& after.done@ == form.done@.push(detail)
    &&& after == RemovalForm {
        session: if operation == RemovalOp::CloseSession {
            None
        } else {
            form.session
        },
        branch: if operation == RemovalOp::DeleteBranch {
            None
        } else {
            form.branch
        },
        force_worktree_offered: form.force_worktree_offered && operation
            != RemovalOp::RemoveWorktree,
        force_branch_offered: form.force_branch_offered && operation != RemovalOp::DeleteBranch,
        report: match form.report {
            Some(report) => Some(
                RemovalReport {
                    can_remove_worktree: report.can_remove_worktree && operation
                        != RemovalOp::RemoveWorktree,
                    can_delete_branch: report.can_delete_branch && operation
                        != RemovalOp::DeleteBranch,
                    ..report
                },
            ),
            None => None,
        },
        done: after.done,
        ..form
    }
}

/// The removal form with a refusal taken down.
pub open spec fn form_refused(
    form: RemovalForm,
    after: RemovalForm,
    operation: RemovalOp,
    message: String,
) -> bool {
    &&& after.refusals@ == form.refusals@.push(message)
    &&& after == RemovalForm {
        force_worktree_offered: form.force_worktree_offered || operation
            == RemovalOp::RemoveWorktree,
        force_branch_offered: form.force_branch_offered || operation == RemovalOp::DeleteBranch,
        armed: None,
        refusals: after.refusals,
        ..form
    }
}

/// The create form with the branches that arrived; where no base was typed, the
/// current branch becomes it.
pub open spec fn form_with_refs(
    form: CreateForm,
    after: CreateForm,
    refs: Vec<crate::ui::dialogs::create_worktree::RefEntry>,
    current: Option<String>,
) -> bool {
    let loaded = CreateForm { refs, refs_loaded: true, ..form };
    match current {
        Some(branch) if crate::text::trimmed(form.base_ref@).len() == 0 => {
            let based = CreateForm { base_ref: branch, ..loaded };
            &&& after.path@ == (if based.path_edited {
                based.path@
            } else {
                based.suggestion()
            })
            &&& after == CreateForm { path: after.path, ..based }
        },
        _ => after == loaded,
    }
}

impl GroveApp {
    /// What a message comes to.
    pub open spec fn received(
        self,
        message: Message,
        after: GroveApp,
        effects: Seq<EffectView>,
    ) -> bool {
        match message {
            Message::StateLoaded(state) => {
                let taken = GroveApp { status: self.status, ..after };
                &&& self.state_applied(taken, state, true)
                &&& taken.reconciling(after, effects)
            },
            Message::StateUpdated { state, status, reconcile } => {
                let taken = GroveApp { status: self.status, ..after };
                &&& self.state_applied(taken, state, false)
                &&& if reconcile {
                    taken.reconciling(after, effects)
                } else {
                    taken.says(after, status@) && effects == quiet()
                }
            },
            Message::ConfigLoaded { config, created, path } => {
                &&& effects == seq![EffectView::Reconfigure(config.status@)]
                &&& after == GroveApp {
                    config: Some(config),
                    settings: after.settings,
                    status: after.status,
                    ..self
                }
                &&& text_view(after.status) == (if created {
                    Some("Detected a terminal and wrote "@ + path@)
                } else {
                    text_view(self.status)
                })
                &&& self.settings_changed(
                    after,
                    (match self.settings.form {
                        Some(form) => Some(form.with_baseline(config)),
                        None => None,
                    }),
                )
            },
            Message::ConfigSaved { path } => {
                &&& effects == quiet()
                &&& after == GroveApp { settings: after.settings, status: after.status, ..self }
                &&& text_view(after.status) == Some("Saved "@ + path@)
                &&& match self.settings.form {
                    Some(form) => {
                        &&& after.settings.form is Some
                        &&& after.settings.focus == self.settings.focus
                        &&& after.settings.form->0 == Form {
                            note: after.settings.form->0.note,
                            ..form
                        }
                        &&& text_view(after.settings.form->0.note) == Some(
                            "Saved. Your comments are untouched."@,
                        )
                    },
                    None => after.settings == self.settings,
                }
            },
            Message::TerminalDetected { template } => {
                &&& after == GroveApp { settings: after.settings, ..self }
                &&& effects == (if self.settings.form is Some {
                    sending(TaskView::ProbeTerminal { command: template@ })
                } else {
                    quiet()
                })
                &&& self.settings_changed(
                    after,
                    (match self.settings.form {
                        Some(form) => Some(
                            Form { terminal_command: template, note: None, ..form },
                        ),
                        None => None,
                    }),
                )
            },
            Message::TerminalProbed { command, program, found } => {
                &&& effects == quiet()
                &&& after == GroveApp { settings: after.settings, ..self }
                &&& self.settings_changed(
                    after,
                    (match self.settings.form {
                        Some(form) => Some(
                            Form { probe: Some(Probe { command, program, found }), ..form },
                        ),
                        None => None,
                    }),
                )
            },
            Message::DirectoryPicked { target, path } => {
                &&& effects == quiet()
                &&& after == GroveApp {
                    open_project: after.open_project,
                    create: after.create,
                    settings: after.settings,
                    ..self
                }
                &&& picked(
                    target,
                    path,
                    (self.open_project, after.open_project),
                    (self.create, after.create),
                    (self.settings, after.settings),
                )
            },
            Message::ProjectOpened(project) => {
                &&& effects == quiet()
                &&& after == GroveApp { rows: after.rows, status: after.status, ..self }
                &&& after.status is Some
                &&& self.rows.project_added(after.rows, project@, after.status->0@)
            },
            Message::WorktreesRefreshed { project_id, worktrees } => {
                &&& effects == seq![
                    EffectView::Describe(labels_of(after.rows.view_projects())),
                ]
                &&& self.list_refreshed(after, project_id@, worktree_views(worktrees@))
            },
            Message::StatusesRefreshed { project_id, statuses } => {
                &&& effects == quiet()
                &&& after == GroveApp { rows: after.rows, ..self }
                &&& self.rows.git_applied(after.rows, project_id@, statuses)
            },
            Message::SessionsRefreshed { presence, windows } => {
                &&& effects == quiet()
                &&& after == GroveApp { rows: after.rows, ..self }
                &&& exists|between: Rows| #[trigger]
                    self.rows.windows_set(between, windows) && between.presence_applied(
                        after.rows,
                        presence,
                    )
            },
            Message::Reconciled { result, state } => self.pass_applied(
                after,
                effects,
                result,
                state,
            ),
            Message::SessionOpened { activation } => {
                &&& effects == quiet()
                &&& self.says(after, description(activation))
            },
            Message::Associated { worktree_id, session } => {
                &&& effects == seq![
                    EffectView::Reconcile(refs_of(self.rows.view_projects())),
                ]
                &&& after == GroveApp {
                    orphan_armed: None,
                    selection: after.selection,
                    status: after.status,
                    ..self
                }
                &&& after.selection@ == self.selection@.selecting(worktree_id@)
                &&& text_view(after.status) == Some("Reconciling with git and tmux…"@)
            },
            Message::ServerKilled => {
                &&& effects == quiet()
                &&& after == GroveApp { quit_after_kill: true, ..self }
            },
            Message::OrphanClosed { session } => {
                &&& effects == seq![
                    EffectView::Reconcile(refs_of(self.rows.view_projects())),
                ]
                &&& after == GroveApp { orphan_armed: None, status: after.status, ..self }
                &&& text_view(after.status) == Some("Reconciling with git and tmux…"@)
            },
            Message::AgentsResumed { worktree_ids } => {
                &&& effects == seq![EffectView::Poll]
                &&& self.shows(
                    after,
                    (if worktree_ids@.len() > 0 {
                        self.selection@.selecting(worktree_ids@[0]@)
                    } else {
                        self.selection@
                    }),
                    Some(resumed_line(worktree_ids@.len())),
                )
            },
            Message::AgentStarted { worktree_id, unit } => {
                &&& effects == seq![EffectView::Poll]
                &&& self.shows(
                    after,
                    self.selection@.selecting(worktree_id@),
                    Some(
                        (match unit {
                            Some(unit) => "Started the agent in "@ + unit@,
                            None => "Started the agent"@,
                        }),
                    ),
                )
            },
            Message::GitStatusDue => {
                self.unchanged(after) && effects == git_refreshes(self.rows.view_projects())
            },
            Message::StatusPolled(statuses) => {
                &&& effects == quiet()
                &&& after == GroveApp { rows: after.rows, ..self }
                &&& self.rows.statuses_set(after.rows, statuses)
            },
            Message::WindowsPolled(windows) => {
                &&& effects == quiet()
                &&& after == GroveApp { rows: after.rows, ..self }
                &&& self.rows.windows_set(after.rows, windows)
            },
            Message::Toggled { slot } => if slot is Some && !self.reconciled_once {
                &&& effects == seq![EffectView::Focus]
                &&& after == GroveApp { pending_toggle: slot, ..self }
            } else {
                self.toggled(after, effects, slot)
            },
            Message::Notified(notification) => self.report_applied(after, effects, notification),
            Message::ServiceEvent { revision, decoded } => self.event_applied(
                after,
                effects,
                revision,
                decoded,
            ),
            Message::ServiceEventsStarted { revision } => {
                &&& effects == quiet()
                &&& after == GroveApp { last_service_revision: revision, ..self }
            },
            Message::ServiceEventsUnavailable => {
                self.unchanged(after) && effects == seq![EffectView::Poll]
            },
            Message::ClaudeHooks { op, change } => {
                &&& effects == quiet()
                &&& after == GroveApp {
                    claude_hooks: Some(change),
                    status: after.status,
                    ..self
                }
                &&& text_view(after.status) == hooks_line(op, change, text_view(self.status))
            },
            Message::BaseRefsLoaded { project_id, refs, current } => {
                effects == quiet() && self.refs_taken(after, project_id@, refs, current)
            },
            Message::WorktreeCreated { project_id, path } => {
                &&& effects == quiet()
                &&& after == GroveApp {
                    pending_selection: Some((project_id, path)),
                    status: after.status,
                    ..self
                }
                &&& text_view(after.status) == Some("Created "@ + path@)
            },
            Message::RemovalGathered { project_id, worktree_id, report } => {
                &&& effects == quiet()
                &&& after == GroveApp { removal: after.removal, ..self }
                &&& after.removal == (match self.removal.form {
                    Some(form) if form.project_id@ == project_id@ && form.worktree_id@
                        == worktree_id@ => Detached {
                        form: Some(RemovalForm { report: Some(report), ..form }),
                        ..self.removal
                    },
                    _ => self.removal,
                })
            },
            Message::RemovalDone { project_id, operation, detail } => self.removal_finished(
                after,
                effects,
                project_id@,
                operation,
                detail,
            ),
            Message::RemovalFailed { project_id, operation, report } => {
                effects == quiet() && self.removal_refused(after, project_id@, operation, report)
            },
            Message::Activated { worktree_id, activation } => {
                &&& effects == quiet()
                &&& self.shows(
                    after,
                    self.selection@.selecting(worktree_id@),
                    Some(description(activation)),
                )
            },
            Message::WindowOpened { worktree_id, window, session } => {
                &&& effects == quiet()
                &&& self.shows(
                    after,
                    self.selection@.selecting(worktree_id@),
                    Some("Opened window "@ + decimal(window as nat) + " in "@ + session@),
                )
            },
            Message::Failed(report) => {
                &&& effects == quiet()
                &&& after == GroveApp { errors: after.errors, settings: after.settings, ..self }
                &&& after.errors@ == self.errors@.push(report)
                &&& self.settings_changed(
                    after,
                    (match self.settings.form {
                        Some(form) => Some(Form { saving: false, ..form }),
                        None => None,
                    }),
                )
            },
        }
    }

    /// Takes in one message.
    #[verifier::spinoff_prover]
    #[verifier::rlimit(80)]
    pub fn apply_message(&mut self, message: Message) -> (r: Vec<Effect>)
        ensures
            old(self).received(message, *final(self), effect_views(r@)),
    {
        match message {
            Message::StateLoaded(state) => {
                self.apply_daemon_state(state, true);
                self.reconcile()
            },
            Message::StateUpdated { state, status, reconcile } => {
                self.apply_daemon_state(state, false);
                if reconcile {
                    self.reconcile()
                } else {
                    self.status = Some(status);
                    nothing()
                }
            },
            Message::ConfigLoaded { config, created, path } => {
                if created {
                    let mut line = "Detected a terminal and wrote ".to_owned();
                    line.append(path.as_str());
                    self.status = Some(line);
                }
                if let Some(form) = &mut self.settings.form {
                    form.reloaded(&config);
                }
                let effects = only(Effect::Reconfigure(config.status.clone()));
                self.config = Some(config);
                effects
            },
            Message::ConfigSaved { path } => {
                let mut line = "Saved ".to_owned();
                line.append(path.as_str());
                self.status = Some(line);
                if let Some(form) = &mut self.settings.form {
                    form.note = Some("Saved. Your comments are untouched.".to_owned());
                }
                nothing()
            },
            Message::TerminalDetected { template } => {
                let mut effects = nothing();
                if let Some(form) = &mut self.settings.form {
                    effects = send(Task::ProbeTerminal { command: template.clone() });
                    form.terminal_command = template;
                    form.note = None;
                }
                effects
            },
            Message::TerminalProbed { command, program, found } => {
                if let Some(form) = &mut self.settings.form {
                    form.probe = Some(Probe { command, program, found });
                }
                nothing()
            },
            Message::DirectoryPicked { target, path } => {
                apply_picked(
                    target,
                    path,
                    &mut self.open_project,
                    &mut self.create,
                    &mut self.settings,
                );
                nothing()
            },
            Message::ProjectOpened(project) => {
                let line = self.rows.add_project(project);
                self.status = Some(line);
                nothing()
            },
            Message::WorktreesRefreshed { project_id, worktrees } => {
                self.take_list(project_id, worktrees);
                only(Effect::Describe(self.rows.labels()))
            },
            Message::StatusesRefreshed { project_id, statuses } => {
                self.rows.apply_git_statuses(project_id.as_str(), &statuses);
                nothing()
            },
            Message::SessionsRefreshed { presence, windows } => {
                self.rows.set_windows(windows);
                let ghost between = self.rows;
                self.rows.apply_presence(&presence);
                assert(old(self).rows.windows_set(between, windows));
                nothing()
            },
            Message::Reconciled { result, state } => self.apply_reconciliation(result, state),
            Message::SessionOpened { activation } => {
                self.status = Some(describe(&activation));
                nothing()
            },
            Message::Associated { worktree_id, session: _ } => {
                self.selection.select(worktree_id);
                self.orphan_armed = None;
                self.reconcile()
            },
            Message::ServerKilled => {
                self.quit_after_kill = true;
                nothing()
            },
            Message::OrphanClosed { session: _ } => {
                self.orphan_armed = None;
                self.reconcile()
            },
            Message::AgentsResumed { worktree_ids } => {
                let line = if worktree_ids.len() == 0 {
                    "No conversation needed resuming.".to_owned()
                } else if worktree_ids.len() == 1 {
                    "Resumed 1 agent conversation.".to_owned()
                } else {
                    let mut line = "Resumed ".to_owned();
                    line.append(number(worktree_ids.len() as u64).as_str());
                    line.append(" agent conversations.");
                    line
                };
                self.status = Some(line);
                if worktree_ids.len() > 0 {
                    self.selection.select(worktree_ids[0].clone());
                }
                only(Effect::Poll)
            },
            Message::AgentStarted { worktree_id, unit } => {
                self.selection.select(worktree_id);
                let line = match unit {
                    Some(unit) => {
                        let mut line = "Started the agent in ".to_owned();
                        line.append(unit.as_str());
                        line
                    },
                    None => "Started the agent".to_owned(),
                };
                self.status = Some(line);
                only(Effect::Poll)
            },
            Message::GitStatusDue => self.refresh_git_statuses(),
            Message::StatusPolled(statuses) => {
                self.rows.set_statuses(statuses);
                nothing()
            },
            Message::WindowsPolled(windows) => {
                self.rows.set_windows(windows);
                nothing()
            },
            Message::Toggled { slot } => if slot.is_some() && !self.reconciled_once {
                self.pending_toggle = slot;
                only(Effect::Focus)
            } else {
                self.apply_toggle(slot)
            },
            Message::Notified(notification) => self.apply_notification(notification),
            Message::ServiceEvent { revision, decoded } => self.apply_service_event(
                revision,
                decoded,
            ),
            Message::ServiceEventsStarted { revision } => {
                self.last_service_revision = revision;
                nothing()
            },
            Message::ServiceEventsUnavailable => only(Effect::Poll),
            Message::ClaudeHooks { op, change } => {
                self.apply_hook_change(op, change);
                nothing()
            },
            Message::BaseRefsLoaded { project_id, refs, current } => {
                self.take_refs(project_id, refs, current);
                nothing()
            },
            Message::WorktreeCreated { project_id, path } => {
                let mut line = "Created ".to_owned();
                line.append(path.as_str());
                self.status = Some(line);
                self.pending_selection = Some((project_id, path));
                nothing()
            },
            Message::RemovalGathered { project_id, worktree_id, report } => {
                if let Some(form) = &mut self.removal.form {
                    if form.project_id == project_id && form.worktree_id == worktree_id {
                        form.report = Some(report);
                    }
                }
                nothing()
            },
            Message::RemovalDone { project_id, operation, detail } => self.finish_removal(
                project_id,
                operation,
                detail,
            ),
            Message::RemovalFailed { project_id, operation, report } => {
                self.refuse_removal(project_id, operation, report);
                nothing()
            },
            Message::Activated { worktree_id, activation } => {
                self.status = Some(describe(&activation));
                self.selection.select(worktree_id);
                nothing()
            },
            Message::WindowOpened { worktree_id, window, session } => {
                self.selection.select(worktree_id);
                let mut line = "Opened window ".to_owned();
                line.append(number(window as u64).as_str());
                line.append(" in ");
                line.append(session.as_str());
                self.status = Some(line);
                nothing()
            },
            Message::Failed(report) => {
                if let Some(form) = &mut self.settings.form {
                    form.saving = false;
                }
                self.errors.push(report);
                nothing()
            },
        }
    }
}

/// A number that waited for the first pass is opened at that pass or not at all:
/// it never fires at a later one.
pub proof fn a_waiting_number_fires_at_most_once(
    app: GroveApp,
    after: GroveApp,
    effects: Seq<EffectView>,
    result: Reconciliation,
    state: State,
)
    requires
        app.pass_applied(after, effects, result, state),
    ensures
        after.pending_toggle is None,
        after.reconciled_once,
{
}

/// The agents are asked for once per launch: after the pass that asks, no pass
/// asks again.
pub proof fn agents_are_resumed_once(
    app: GroveApp,
    after: GroveApp,
    effects: Seq<EffectView>,
    result: Reconciliation,
    state: State,
    i: int,
)
    requires
        app.pass_applied(after, effects, result, state),
    ensures
        app.config is Some ==> after.agents_resumed,
        app.agents_resumed && 0 <= i < effects.len() ==> effects[i] != EffectView::Send(
            TaskView::ResumeAgents,
        ),
{
    if app.agents_resumed && 0 < i < effects.len() {
        let middle = effects.subrange(1, effects.len() - 0int);
        assert(effects[i] == middle[i - 1]);
        assert(middle.len() == effects.len() - 1);
        let passed = app.after_pass(after.rows, result);
        let opened = GroveApp { agents_resumed: app.agents_resumed, ..after };
        if let Some(slot) = app.pending_toggle {
            assert(passed.slot_activated(opened, middle, slot));
            if let Some((project_id, worktree_id)) = passed.rows.target(slot) {
                assert(passed.activated(opened, middle, project_id, worktree_id));
                if passed.row(project_id, worktree_id) is Some {
                    let task = TaskView::Activate { worktree_id };
                    assert(middle == sending(task).push(EffectView::Opened(worktree_id)));
                    assert(middle[0] == EffectView::Send(task));
                    assert(middle[1] == EffectView::Opened(worktree_id));
                    assert(middle.len() == 2);
                    assert(i - 1 == 0 || i - 1 == 1);
                }
            }
        }
    }
}

/// An event that was applied is ignored when it comes again, and so is every one
/// before it.
pub proof fn a_replayed_event_changes_nothing(
    app: GroveApp,
    between: GroveApp,
    first: Seq<EffectView>,
    revision: u64,
    update: ServiceUpdate,
    after: GroveApp,
    second: Seq<EffectView>,
    again: u64,
    decoded: Result<ServiceUpdate, String>,
)
    requires
        app.event_applied(between, first, revision, Ok(update)),
        again <= revision,
        between.event_applied(after, second, again, decoded),
    ensures
        after == between,
        second.len() == 0,
{
    assert(between.last_service_revision >= revision);
}

/// However a message moves the selection, one row at most looks selected.
pub proof fn one_row_looks_selected(
    app: GroveApp,
    message: Message,
    after: GroveApp,
    effects: Seq<EffectView>,
)
    requires
        app.received(message, after, effects),
        app.selection@.single(),
    ensures
        after.selection@.single(),
{
}

proof fn lemma_git_refreshes_are_harmless(projects: Seq<ProjectView>)
    ensures
        harmless(git_refreshes(projects)),
    decreases projects.len(),
{
    if projects.len() > 0 {
        lemma_git_refreshes_are_harmless(projects.drop_last());
    }
}

proof fn lemma_pass_is_harmless(
    app: GroveApp,
    after: GroveApp,
    effects: Seq<EffectView>,
    result: Reconciliation,
    state: State,
)
    requires
        app.pass_applied(after, effects, result, state),
    ensures
        harmless(effects),
{
    let end = effects.len() - if app.may_resume() {
        1int
    } else {
        0int
    };
    let middle = effects.subrange(1, end);
    assert(harmless(middle));
    assert forall|i: int| 0 <= i < effects.len() implies ((#[trigger] effects[i]) matches
        EffectView::Send(task) ==> !task.destroys()) by {
        if 1 <= i < end {
            assert(middle[i - 1] == effects[i]);
        }
    }
}

proof fn lemma_event_is_harmless(
    app: GroveApp,
    after: GroveApp,
    effects: Seq<EffectView>,
    revision: u64,
    decoded: Result<ServiceUpdate, String>,
)
    requires
        app.event_applied(after, effects, revision, decoded),
    ensures
        harmless(effects),
{
    if revision > app.last_service_revision && decoded is Ok {
        let gap = revision > app.last_service_revision + 1;
        let rest = if gap {
            effects.drop_first()
        } else {
            effects
        };
        let seen = GroveApp { last_service_revision: revision, ..app };
        if let ServiceUpdate::Reconciliation { reconciliation, state } = decoded->Ok_0 {
            lemma_pass_is_harmless(seen, after, rest, reconciliation, state);
        }
        assert(harmless(rest));
        assert forall|i: int| 0 <= i < effects.len() implies ((#[trigger] effects[i]) matches
            EffectView::Send(task) ==> !task.destroys()) by {
            if gap && i > 0 {
                assert(rest[i - 1] == effects[i]);
            } else if !gap {
                assert(rest[i] == effects[i]);
            }
        }
    }
}

/// Refreshing marks, it does not act: whatever a worker, the poller or the
/// service says, nothing is removed, closed or deleted for it.
pub proof fn no_message_takes_anything_away(
    app: GroveApp,
    message: Message,
    after: GroveApp,
    effects: Seq<EffectView>,
)
    requires
        app.received(message, after, effects),
    ensures
        harmless(effects),
{
    lemma_git_refreshes_are_harmless(app.rows.view_projects());
    match message {
        Message::Reconciled { result, state } => {
            lemma_pass_is_harmless(app, after, effects, result, state);
        },
        Message::ServiceEvent { revision, decoded } => {
            lemma_event_is_harmless(app, after, effects, revision, decoded);
        },
        Message::Toggled { slot } => {
            let rest = effects.drop_first();
            assert(effects.len() > 0);
            assert(slot is Some ==> harmless(rest));
            assert forall|i: int| 0 <= i < effects.len() implies ((#[trigger] effects[i]) matches
                EffectView::Send(task) ==> !task.destroys()) by {
                if i > 0 {
                    assert(rest[i - 1] == effects[i]);
                }
            }
        },
        _ => {},
    }
}

}
