//! What the window makes of what it is told.
use vstd::prelude::*;
use vstd::string::*;

use crate::app::actions::only_sends;
use crate::app::messages::{at_path, git_refreshes, hooks_line, is_orphan, resumed_line};
use crate::app::GroveApp;
use crate::model::{project_at_is_first, ProjectView, WorktreeView};
use crate::state::{record_at_is_first, State};
use crate::text::trimmed;
use crate::ui::appearance::only_changed_settings_are_saved;
use crate::ui::dialogs::removal::{RemovalOp, RemovalReport, Request};
use crate::ui::dialogs::ErrorReport;
use crate::ui::settings::{Action as SettingsAction, HookOp};
use crate::workers::{
    EffectView, HookChange, Message, PickTarget, Reconciliation, ServiceUpdate, TaskView,
};

verus! {

/// The working trees are read of every project that has any, and of no other: each
/// task is the reading of one such project.
pub proof fn working_trees_are_read_where_there_are_any(projects: Seq<ProjectView>, task: TaskView)
    ensures
        git_refreshes(projects).contains(EffectView::Send(task)) <==> exists|i: int|
            0 <= i < projects.len() && (#[trigger] projects[i]).worktrees.len() > 0 && task
                == (TaskView::RefreshStatuses { project_id: projects[i].id }),
        forall|k: int|
            0 <= k < git_refreshes(projects).len() ==> (#[trigger] git_refreshes(
                projects,
            )[k]) is Send,
    decreases projects.len(),
{
    if projects.len() > 0 {
        let init = projects.drop_last();
        let last = projects.last();
        working_trees_are_read_where_there_are_any(init, task);
        crate::text::contains_pushed(
            git_refreshes(init),
            EffectView::Send(TaskView::RefreshStatuses { project_id: last.id }),
            EffectView::Send(task),
        );
        assert(projects[projects.len() - 1] == last);
        if exists|i: int|
            0 <= i < init.len() && (#[trigger] init[i]).worktrees.len() > 0 && task
                == (TaskView::RefreshStatuses { project_id: init[i].id }) {
            let i = choose|i: int|
                0 <= i < init.len() && (#[trigger] init[i]).worktrees.len() > 0 && task
                    == (TaskView::RefreshStatuses { project_id: init[i].id });
            assert(projects[i].worktrees.len() > 0);
        }
        if exists|i: int|
            0 <= i < projects.len() && (#[trigger] projects[i]).worktrees.len() > 0 && task
                == (TaskView::RefreshStatuses { project_id: projects[i].id }) {
            let i = choose|i: int|
                0 <= i < projects.len() && (#[trigger] projects[i]).worktrees.len() > 0 && task
                    == (TaskView::RefreshStatuses { project_id: projects[i].id });
            if i < init.len() {
                assert(init[i].worktrees.len() > 0);
            }
        }
    }
}

/// What is found at a path is the first worktree there, and one is found where there
/// is one.
pub proof fn the_first_worktree_at_a_path_is_found(worktrees: Seq<WorktreeView>, path: Seq<char>)
    ensures
        match at_path(worktrees, path) {
            Some(id) => exists|k: int|
                0 <= k < worktrees.len() && (#[trigger] worktrees[k]).path == path
                    && worktrees[k].id == id && forall|m: int|
                    0 <= m < k ==> (#[trigger] worktrees[m]).path != path,
            None => forall|k: int|
                0 <= k < worktrees.len() ==> (#[trigger] worktrees[k]).path != path,
        },
    decreases worktrees.len(),
{
    if worktrees.len() > 0 {
        let init = worktrees.drop_last();
        the_first_worktree_at_a_path_is_found(init, path);
        assert forall|k: int| 0 <= k < init.len() implies init[k] == #[trigger] worktrees[k] by {}
        assert(worktrees[worktrees.len() - 1] == worktrees.last());
        match at_path(init, path) {
            Some(id) => {
                let k = choose|k: int|
                    0 <= k < init.len() && (#[trigger] init[k]).path == path && init[k].id == id
                        && forall|m: int| 0 <= m < k ==> (#[trigger] init[m]).path != path;
                assert(worktrees[k].path == path);
                assert forall|m: int| 0 <= m < k implies (#[trigger] worktrees[m]).path != path by {
                    assert(init[m].path != path);
                }
            },
            None => {
                assert forall|m: int| 0 <= m < init.len() implies (#[trigger] worktrees[m]).path
                    != path by {
                    assert(init[m].path != path);
                }
            },
        }
    }
}

/// A worktree that was just made is selected as soon as its project lists it, and is
/// waited for until then.
pub proof fn a_new_worktree_is_selected_once_listed(
    app: GroveApp,
    after: GroveApp,
    project_id: String,
    path: String,
    worktrees: Seq<WorktreeView>,
    i: int,
    j: int,
)
    requires
        app.list_refreshed(after, project_id@, worktrees),
        app.pending_selection == Some((project_id, path)),
        0 <= i < after.rows.view_projects().len(),
        after.rows.view_projects()[i].id == project_id@,
        forall|k: int|
            0 <= k < i ==> (#[trigger] after.rows.view_projects()[k]).id != project_id@,
        0 <= j <= after.rows.view_projects()[i].worktrees.len(),
        forall|k: int|
            0 <= k < j ==> (#[trigger] after.rows.view_projects()[i].worktrees[k]).path != path@,
        j < after.rows.view_projects()[i].worktrees.len()
            ==> after.rows.view_projects()[i].worktrees[j].path == path@,
    ensures
        j < after.rows.view_projects()[i].worktrees.len() ==> after.pending_selection is None
            && after.selection@.worktree == Some(after.rows.view_projects()[i].worktrees[j].id),
        j == after.rows.view_projects()[i].worktrees.len() ==> after.pending_selection
            == app.pending_selection && after.selection@ == app.selection@,
{
    let rows = after.rows.view_projects()[i].worktrees;
    project_at_is_first(after.rows.view_projects(), project_id@);
    the_first_worktree_at_a_path_is_found(rows, path@);
    if let Some(id) = at_path(rows, path@) {
        let k = choose|k: int|
            0 <= k < rows.len() && (#[trigger] rows[k]).path == path@ && rows[k].id == id
                && forall|m: int| 0 <= m < k ==> (#[trigger] rows[m]).path != path@;
        if k < j {
            assert(rows[k].path != path@);
        }
        if j < k {
            assert(rows[j].path != path@);
        }
    } else if j < rows.len() {
        assert(rows[j].path != path@);
    }
}

/// A list of another project neither selects nor forgets the worktree that is waited
/// for.
pub proof fn another_list_selects_nothing(
    app: GroveApp,
    after: GroveApp,
    project_id: Seq<char>,
    worktrees: Seq<WorktreeView>,
)
    requires
        app.list_refreshed(after, project_id, worktrees),
        app.pending_selection matches Some((project, path)) ==> project@ != project_id,
    ensures
        after.pending_selection == app.pending_selection,
        after.selection@ == app.selection@,
{
}

/// The removal window closes where its project is not remembered any more, and stays
/// as it is where it is.
pub proof fn a_removal_window_outlives_no_project(
    app: GroveApp,
    after: GroveApp,
    state: State,
    bootstrap: bool,
)
    requires
        app.state_applied(after, state, bootstrap),
        app.removal.form is Some,
    ensures
        (exists|k: int|
            0 <= k < state.projects@.len() && (#[trigger] state.projects@[k]).id@
                == app.removal.form->0.project_id@) ==> after.removal == app.removal,
        (forall|k: int|
            0 <= k < state.projects@.len() ==> (#[trigger] state.projects@[k]).id@
                != app.removal.form->0.project_id@) ==> after.removal.form is None,
        after.rows.state == state,
{
    record_at_is_first(state.projects@, app.removal.form->0.project_id@);
}

/// After a pass the window shows the orphans it found and its summary, and calls the
/// worktrees by their rows. The closing of an orphan stays armed only while that
/// session is still one. The agents are asked for, last, exactly where this launch
/// has not yet and knows the configuration.
pub proof fn a_pass_is_shown(
    app: GroveApp,
    after: GroveApp,
    effects: Seq<EffectView>,
    result: Reconciliation,
    state: State,
)
    requires
        app.pass_applied(after, effects, result, state),
    ensures
        after.orphans == result.orphans,
        after.ignored_orphans == result.ignored,
        after.reconciled_once,
        after.pending_toggle is None,
        after.rows.state == state,
        app.pending_toggle is None ==> after.status == Some(result.summary) && after.selection
            == app.selection,
        app.orphan_armed matches Some(name) ==> {
            let listed = exists|i: int|
                0 <= i < result.orphans@.len() && (#[trigger] result.orphans@[i]).name@ == name@;
            &&& listed ==> after.orphan_armed == Some(name)
            &&& !listed ==> after.orphan_armed is None
        },
        app.orphan_armed is None ==> after.orphan_armed is None,
        effects.len() >= 1,
        effects[0] is Describe,
        !app.agents_resumed && app.config is Some ==> effects.last() == EffectView::Send(
            TaskView::ResumeAgents,
        ) && after.agents_resumed,
        app.config is None ==> after.agents_resumed == app.agents_resumed,
        app.pending_toggle is None ==> effects.len() == (if !app.agents_resumed
            && app.config is Some {
            2int
        } else {
            1int
        }),
{
    let resumes = app.may_resume();
    let middle = effects.subrange(
        1,
        effects.len() - if resumes {
            1int
        } else {
            0int
        },
    );
    assert(middle.len() == effects.len() - 1 - if resumes {
        1int
    } else {
        0int
    });
    if let Some(name) = app.orphan_armed {
        assert(is_orphan(result.orphans@, name@) <==> exists|i: int|
            0 <= i < result.orphans@.len() && (#[trigger] result.orphans@[i]).name@ == name@);
    }
}

/// Every event of the service is applied at most once and in order: one that is not
/// newer changes nothing, one that cannot be read is made up for by a poll, and so is
/// a gap before one that can. Only one that was applied counts as seen.
pub proof fn events_are_applied_in_order(
    app: GroveApp,
    after: GroveApp,
    effects: Seq<EffectView>,
    revision: u64,
    decoded: Result<ServiceUpdate, String>,
)
    requires
        app.event_applied(after, effects, revision, decoded),
    ensures
        revision <= app.last_service_revision ==> after == app && effects.len() == 0,
        revision > app.last_service_revision && decoded is Err ==> after == app && effects.len()
            == 2 && effects[0] is Warn && effects[1] == EffectView::Poll,
        revision > app.last_service_revision && decoded is Ok ==> after.last_service_revision
            == revision,
        revision > app.last_service_revision + 1 && decoded is Ok ==> effects.len() > 0
            && effects[0] == EffectView::Poll,
        revision == app.last_service_revision + 1 && decoded == Ok::<ServiceUpdate, String>(
            ServiceUpdate::ControlCompleted,
        ) ==> effects.len() == 2 && effects[0] == EffectView::Send(TaskView::RefreshSessions)
            && effects[1] == EffectView::Poll && after.rows == app.rows,
{
}

/// What a removal that came off leaves of its dialog: a closed session and a deleted
/// branch are gone from it, what was done is not offered again, forced or not, and
/// everything else is. The row's last reading is forgotten.
pub proof fn what_was_removed_is_not_offered_again(
    app: GroveApp,
    after: GroveApp,
    effects: Seq<EffectView>,
    project_id: Seq<char>,
    operation: RemovalOp,
    detail: String,
)
    requires
        app.removal_finished(after, effects, project_id, operation, detail),
        app.removal.form is Some,
        app.removal.form->0.project_id@ == project_id,
    ensures
        after.removal.form is Some,
        after.status is Some && after.status->0@ == detail@,
        effects.len() == 1,
        effects[0] == EffectView::Forget(app.removal.form->0.worktree_id@),
        !after.rows.statuses@.contains_key(app.removal.form->0.worktree_id@),
        ({
            let was = app.removal.form->0;
            let now = after.removal.form->0;
            &&& now.done@.len() == was.done@.len() + 1
            &&& now.done@.last() == detail
            &&& now.refusals == was.refusals
            &&& now.armed == was.armed
            &&& match operation {
                RemovalOp::CloseSession => now.session is None && now.branch == was.branch
                    && now.report == was.report && now.force_worktree_offered
                    == was.force_worktree_offered && now.force_branch_offered
                    == was.force_branch_offered,
                RemovalOp::RemoveWorktree => now.session == was.session && now.branch == was.branch
                    && !now.force_worktree_offered && now.force_branch_offered
                    == was.force_branch_offered && (now.report matches Some(report) ==>
                    !report.can_remove_worktree && report.can_delete_branch
                    == was.report->0.can_delete_branch),
                RemovalOp::DeleteBranch => now.session == was.session && now.branch is None
                    && now.force_worktree_offered == was.force_worktree_offered
                    && !now.force_branch_offered && (now.report matches Some(report) ==>
                    !report.can_delete_branch && report.can_remove_worktree
                    == was.report->0.can_remove_worktree),
            }
            &&& now.report is Some <==> was.report is Some
        }),
{
}

/// What a refused removal leaves of its dialog: nothing waits for a confirmation, the
/// refusal is listed, and the forced variant of what git refused, and of nothing
/// else, is unlocked. The refusal is shown as well.
pub proof fn a_refusal_unlocks_its_own_force(
    app: GroveApp,
    after: GroveApp,
    project_id: Seq<char>,
    operation: RemovalOp,
    report: ErrorReport,
)
    requires
        app.removal_refused(after, project_id, operation, report),
    ensures
        after.errors@.len() == app.errors@.len() + 1,
        after.errors@.last() == report,
        after.rows == app.rows,
        app.removal.form matches Some(was) ==> {
            &&& after.removal.form is Some
            &&& was.project_id@ != project_id ==> after.removal == app.removal
            &&& was.project_id@ == project_id ==> {
                let now = after.removal.form->0;
                &&& now.armed is None
                &&& now.refusals@.len() == was.refusals@.len() + 1
                &&& now.refusals@.last() == report.summary
                &&& now.session == was.session && now.branch == was.branch && now.report
                    == was.report && now.done == was.done
                &&& match operation {
                    RemovalOp::CloseSession => now.force_worktree_offered
                        == was.force_worktree_offered && now.force_branch_offered
                        == was.force_branch_offered,
                    RemovalOp::RemoveWorktree => now.force_worktree_offered
                        && now.force_branch_offered == was.force_branch_offered,
                    RemovalOp::DeleteBranch => now.force_branch_offered
                        && now.force_worktree_offered == was.force_worktree_offered,
                }
            }
        },
{
}

/// A confirmed removal is the one task it names, on what its dialog is open on, with
/// force exactly where force was confirmed; closing needs a session and deleting a
/// branch.
pub proof fn a_confirmation_runs_what_it_names(app: GroveApp, request: Request)
    requires
        app.removal.form is Some,
    ensures
        ({
            let form = app.removal.form->0;
            let tasks = app.removal_tasks(request);
            match request {
                Request::RemoveProject => only_sends(
                    tasks,
                    TaskView::RemoveProject { project_id: form.project_id@ },
                ),
                Request::CloseSession => {
                    &&& form.session is None ==> tasks.len() == 0
                    &&& form.session is Some ==> only_sends(
                        tasks,
                        TaskView::CloseSession {
                            project_id: form.project_id@,
                            worktree_id: form.worktree_id@,
                        },
                    )
                },
                Request::RemoveWorktree { force } => only_sends(
                    tasks,
                    TaskView::RemoveWorktree {
                        project_id: form.project_id@,
                        worktree_id: form.worktree_id@,
                        force,
                    },
                ),
                Request::DeleteBranch { force } => {
                    &&& form.branch is None ==> tasks.len() == 0
                    &&& form.branch is Some ==> only_sends(
                        tasks,
                        TaskView::DeleteBranch {
                            project_id: form.project_id@,
                            branch: form.branch->0@,
                            force,
                        },
                    )
                },
            }
        }),
{
}

/// A number that comes before the first pass waits for it, and the window is raised;
/// a toggle without a number closes the window at any time.
pub proof fn a_number_waits_for_the_first_pass(
    app: GroveApp,
    after: GroveApp,
    effects: Seq<EffectView>,
    slot: Option<u8>,
)
    requires
        app.received(Message::Toggled { slot }, after, effects),
    ensures
        slot is Some && !app.reconciled_once ==> after.pending_toggle == slot && effects.len() == 1
            && effects[0] == EffectView::Focus && after.selection == app.selection,
        slot is None ==> after == app && effects.len() == 1 && effects[0] == EffectView::Close,
        slot is Some && app.reconciled_once ==> after.pending_toggle == app.pending_toggle,
{
}

/// A directory that was picked fills the field it was picked for and no other; a
/// worktree's directory that was picked is the user's from then on.
pub proof fn a_picked_directory_fills_its_own_field(
    app: GroveApp,
    after: GroveApp,
    effects: Seq<EffectView>,
    target: PickTarget,
    path: String,
)
    requires
        app.received(Message::DirectoryPicked { target, path }, after, effects),
    ensures
        effects.len() == 0,
        target != PickTarget::ProjectPath ==> after.open_project == app.open_project,
        target != PickTarget::WorktreePath ==> after.create == app.create,
        target != PickTarget::WorktreeParent ==> after.settings == app.settings,
        target == PickTarget::ProjectPath && app.open_project.form is Some
            ==> after.open_project.form is Some && after.open_project.form->0.path == path,
        target == PickTarget::WorktreePath && app.create.form is Some ==> after.create.form is Some
            && after.create.form->0.path == path && after.create.form->0.path_edited
            && after.create.form->0.branch == app.create.form->0.branch,
        target == PickTarget::WorktreeParent && app.settings.form is Some
            ==> after.settings.form is Some && after.settings.form->0.default_parent == path
            && after.settings.form->0.terminal_command == app.settings.form->0.terminal_command,
        app.open_project.form is None ==> after.open_project.form is None,
        app.create.form is None ==> after.create.form is None,
        app.settings.form is None ==> after.settings.form is None,
{
}

/// A failure is shown and ends a save that was on its way; it changes no row.
pub proof fn a_failure_is_shown(
    app: GroveApp,
    after: GroveApp,
    effects: Seq<EffectView>,
    report: ErrorReport,
)
    requires
        app.received(Message::Failed(report), after, effects),
    ensures
        effects.len() == 0,
        after.errors@.len() == app.errors@.len() + 1,
        after.errors@.last() == report,
        after.rows == app.rows,
        app.settings.form matches Some(form) ==> after.settings.form is Some
            && !after.settings.form->0.saving && after.settings.form->0.terminal_command
            == form.terminal_command && after.settings.form->0.default_parent
            == form.default_parent,
{
}

/// Each action of the open settings has its own task, and changes nothing by itself;
/// saving hands over what changed, and nothing where nothing did.
pub proof fn each_settings_action_has_its_own_task(
    app: GroveApp,
    action: SettingsAction,
    home: Option<Seq<char>>,
    after: GroveApp,
    effects: Seq<EffectView>,
)
    requires
        app.settings_acted(action, home, after, effects),
        app.settings.form is Some,
    ensures
        after.rows == app.rows && after.settings == app.settings,
        match action {
            SettingsAction::Save => {
                let form = app.settings.form->0;
                let same = form.terminal_command@ == form.loaded_terminal@ && form.default_parent@
                    == form.loaded_parent@;
                &&& same ==> after == app && effects.len() == 0
                &&& !same ==> effects.len() == 1 && (effects[0] matches EffectView::Send(task)
                    && task is SaveConfig)
            },
            SettingsAction::DetectTerminal => after == app && only_sends(
                effects,
                TaskView::DetectTerminal,
            ),
            SettingsAction::Probe(command) => after == app && only_sends(
                effects,
                TaskView::ProbeTerminal { command: command@ },
            ),
            SettingsAction::OpenConfigFile => after == app && only_sends(
                effects,
                TaskView::OpenConfigFile,
            ),
            SettingsAction::ClaudeHooks(op) => after == app && only_sends(
                effects,
                TaskView::ClaudeHooks { op },
            ),
            SettingsAction::BrowseWorktreeParent => {
                let typed = trimmed(app.settings.form->0.default_parent@);
                &&& after == app
                &&& only_sends(
                    effects,
                    TaskView::PickDirectory {
                        target: PickTarget::WorktreeParent,
                        start: if typed.len() > 0 {
                            Some(typed)
                        } else {
                            home
                        },
                    },
                )
            },
        },
{
    only_changed_settings_are_saved(app.settings.form->0);
}

/// What became of a session is followed by what the window needs to know: a session
/// that was given to a worktree or closed by a new pass, one that was started by a
/// poll; the worktree it is about is selected.
pub proof fn work_on_a_session_is_followed_up(
    app: GroveApp,
    message: Message,
    after: GroveApp,
    effects: Seq<EffectView>,
)
    requires
        app.received(message, after, effects),
    ensures
        match message {
            Message::Associated { worktree_id, session } => effects.len() == 1
                && effects[0] is Reconcile && after.selection@.worktree == Some(worktree_id@)
                && after.orphan_armed is None && after.rows == app.rows,
            Message::OrphanClosed { session } => effects.len() == 1 && effects[0] is Reconcile
                && after.orphan_armed is None && after.selection == app.selection,
            Message::AgentStarted { worktree_id, unit } => effects.len() == 1 && effects[0]
                == EffectView::Poll && after.selection@.worktree == Some(worktree_id@),
            Message::AgentsResumed { worktree_ids } => effects.len() == 1 && effects[0]
                == EffectView::Poll && (worktree_ids@.len() > 0 ==> after.selection@.worktree
                == Some(worktree_ids@[0]@)) && (worktree_ids@.len() == 0 ==> after.selection@
                == app.selection@),
            Message::Activated { worktree_id, activation } => effects.len() == 0
                && after.selection@.worktree == Some(worktree_id@),
            Message::WindowOpened { worktree_id, window, session } => effects.len() == 0
                && after.selection@.worktree == Some(worktree_id@),
            Message::WorktreeCreated { project_id, path } => effects.len() == 0
                && after.pending_selection == Some((project_id, path)) && after.rows == app.rows,
            Message::ServerKilled => effects.len() == 0 && after.quit_after_kill,
            Message::ServiceEventsStarted { revision } => effects.len() == 0
                && after.last_service_revision == revision && after.rows == app.rows,
            Message::ServiceEventsUnavailable => after == app && effects.len() == 1 && effects[0]
                == EffectView::Poll,
            Message::ConfigLoaded { config, created, path } => effects.len() == 1
                && effects[0] is Reconfigure && after.config == Some(config),
            Message::Notified(notification) => effects.len() == 1 && effects[0]
                == EffectView::Notified(notification),
            _ => true,
        },
{
}

/// The assessment of a removal reaches the dialog that is open on its worktree, and no
/// other.
pub proof fn an_assessment_reaches_its_own_dialog(
    app: GroveApp,
    after: GroveApp,
    effects: Seq<EffectView>,
    project_id: String,
    worktree_id: String,
    report: RemovalReport,
)
    requires
        app.received(Message::RemovalGathered { project_id, worktree_id, report }, after, effects),
    ensures
        effects.len() == 0,
        app.removal.form matches Some(form) ==> {
            let own = form.project_id@ == project_id@ && form.worktree_id@ == worktree_id@;
            &&& own ==> after.removal.form is Some && after.removal.form->0.report == Some(report)
                && after.removal.form->0.armed == form.armed
            &&& !own ==> after.removal == app.removal
        },
        app.removal.form is None ==> after.removal == app.removal,
{
}

/// What is said of conversations that were brought back counts them.
pub proof fn conversations_are_counted(n: nat)
    ensures
        n == 0 ==> resumed_line(n) == "No conversation needed resuming."@,
        n == 1 ==> resumed_line(n) == "Resumed 1 agent conversation."@,
        n >= 2 ==> resumed_line(n) == "Resumed "@ + crate::text::decimal(n)
            + " agent conversations."@,
{
}

/// A check of the hooks leaves the status line; installing and removing say whether
/// anything changed, and where.
pub proof fn a_check_of_the_hooks_is_silent(change: HookChange, before: Option<Seq<char>>)
    ensures
        hooks_line(HookOp::Check, change, before) == before,
        !change.changed ==> hooks_line(HookOp::Install, change, before) == Some(
            "Grove's hooks were already installed."@,
        ),
        change.changed ==> hooks_line(HookOp::Uninstall, change, before) == Some(
            "Removed Grove's hooks from "@ + change.path@ + "."@,
        ),
        !change.changed ==> hooks_line(HookOp::Uninstall, change, before) == Some(
            "Grove had no hooks installed."@,
        ),
        change.changed ==> hooks_line(HookOp::Install, change, before) == Some(
            "Installed Grove's hooks in "@ + change.path@ + ". Restart "@ + change.agent@
                + " for them to take effect."@,
        ),
{
}

}
