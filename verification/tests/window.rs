use grove::app::dialogs::{apply_picked, pick_start};
use grove::app::messages::describe;
use grove::app::rows::{ProjectRef, ProjectStatus};
use grove::app::service_events::{classify_service_event, ServiceEventAction};
use grove::app::{Command, GroveApp, Keys};
use grove::model::{Project, SessionPresence, SessionStatus, Worktree};
use grove::notices::Notification;
use grove::state::{AgentRecord, ProjectRecord, State};
use grove::ui::chrome::Detached;
use grove::ui::dialogs::create_worktree::CreateForm;
use grove::ui::dialogs::open_project::{self, OpenProjectForm};
use grove::ui::dialogs::removal::{RemovalOp, RemovalReport, Request};
use grove::ui::dialogs::{create_worktree, ErrorReport};
use grove::ui::orphans::{OrphanAction, OrphanSession};
use grove::ui::settings::{self, Config, ConfigKey, Edit, Form, HookOp, StatusConfig};
use grove::ui::Action;
use grove::workers::{
    Activation, Effect, HookChange, Message, PickTarget, Reconciliation, ServiceUpdate, Task,
};

fn worktree(project_id: &str, branch: &str, place: usize) -> Worktree {
    Worktree {
        id: format!("{project_id}-{place}"),
        project_id: project_id.to_string(),
        path: format!("/home/u/wt/{branch}"),
        label: branch.to_string(),
        branch: Some(branch.to_string()),
        is_locked: false,
        is_detached: false,
        is_missing: false,
        git_status: None,
        session: SessionPresence::Absent,
        session_stopped: false,
        status: None,
        status_message: None,
        attention_reason: None,
        windows: Vec::new(),
        window_notes: Vec::new(),
    }
}

fn project(id: &str, name: &str, branches: &[&str]) -> Project {
    Project {
        id: id.to_string(),
        name: name.to_string(),
        repository_path: format!("/home/u/{name}"),
        git_common_dir: format!("/home/u/{name}/.git"),
        default_worktree_path: "/home/u".to_string(),
        is_expanded: true,
        worktrees: branches
            .iter()
            .enumerate()
            .map(|(place, branch)| worktree(id, branch, place))
            .collect(),
        unavailable: None,
    }
}

fn record(id: &str, name: &str) -> ProjectRecord {
    ProjectRecord {
        id: id.to_string(),
        name: name.to_string(),
        repository_path: format!("/home/u/{name}"),
        git_common_dir: format!("/home/u/{name}/.git"),
        default_worktree_path: "/home/u".to_string(),
        is_expanded: true,
    }
}

fn status_config(desktop_notifications: bool) -> StatusConfig {
    StatusConfig {
        working_window_secs: 10,
        agent_commands: vec!["aider".to_string()],
        bell_is_attention: false,
        desktop_notifications,
    }
}

fn config() -> Config {
    Config {
        terminal_command: "foot".into(),
        default_parent: "/home/u/wt".into(),
        can_resume: true,
        status: status_config(false),
    }
}

fn app() -> GroveApp {
    let (mut app, first) = GroveApp::new(None);
    assert_eq!(first, vec![Effect::Send(Task::LoadState), Effect::Send(Task::LoadConfig)]);
    app.apply_message(Message::ProjectOpened(project("p1", "acme", &["main", "feature"])));
    app
}

fn pass(projects: Vec<ProjectStatus>, orphans: Vec<OrphanSession>) -> Reconciliation {
    Reconciliation { projects, orphans, ignored: 0, summary: "2 worktrees".into() }
}

fn orphan(name: &str) -> OrphanSession {
    OrphanSession { name: name.into(), detail: String::new() }
}

fn status(app: &GroveApp) -> Option<&str> {
    app.status.as_deref()
}

#[test]
fn an_activation_is_described_by_the_route_it_took() {
    assert_eq!(
        describe(&Activation::SwitchedClient {
            session: "wt-a1b2c3".into(),
            client_tty: "/dev/pts/3".into(),
        }),
        "Switched /dev/pts/3 to wt-a1b2c3"
    );
    assert_eq!(
        describe(&Activation::LaunchedTerminal {
            session: "wt-a1b2c3".into(),
            command: "foot tmux".into(),
        }),
        "Launched a terminal on wt-a1b2c3"
    );
}

#[test]
fn the_picker_starts_where_the_user_was_already_pointing() {
    assert_eq!(
        pick_start("  /home/u/wt  ", Some("/home/u")),
        Some("/home/u/wt".to_string())
    );
    assert_eq!(pick_start("   ", Some("/home/u")), Some("/home/u".to_string()));
    assert_eq!(pick_start("", None), None);
}

#[test]
fn a_picked_directory_fills_in_the_field_that_asked_for_it() {
    let mut open_project = Detached::default();
    open_project.open(OpenProjectForm::empty());
    let mut create = Detached::default();
    create.open(CreateForm::new(&project("p1", "acme", &[])));
    let mut settings = Detached::default();
    settings.open(Form::default());

    apply_picked(
        PickTarget::ProjectPath,
        "/home/u/acme".to_string(),
        &mut open_project,
        &mut create,
        &mut settings,
    );
    assert_eq!(open_project.get().map(|f| f.path.as_str()), Some("/home/u/acme"));

    apply_picked(
        PickTarget::WorktreePath,
        "/home/u/wt/feature".to_string(),
        &mut open_project,
        &mut create,
        &mut settings,
    );
    let form = create.get().expect("form");
    assert_eq!(form.path, "/home/u/wt/feature");
    assert!(form.path_edited);

    apply_picked(
        PickTarget::WorktreeParent,
        "/home/u/trees".to_string(),
        &mut open_project,
        &mut create,
        &mut settings,
    );
    assert_eq!(settings.get().expect("settings").default_parent, "/home/u/trees");
}

#[test]
fn a_picked_directory_for_a_closed_dialog_is_dropped() {
    let mut open_project: Detached<OpenProjectForm> = Detached::default();
    let mut create: Detached<CreateForm> = Detached::default();
    let mut settings: Detached<Form> = Detached::default();
    for target in
        [PickTarget::ProjectPath, PickTarget::WorktreePath, PickTarget::WorktreeParent]
    {
        apply_picked(
            target,
            "/home/u".to_string(),
            &mut open_project,
            &mut create,
            &mut settings,
        );
    }
    assert!(!open_project.is_open() && !create.is_open() && !settings.is_open());
}

#[test]
fn service_event_revisions_ignore_replays_and_recover_from_gaps_or_corruption() {
    let state = || Ok(ServiceUpdate::State(State::new()));
    assert!(matches!(classify_service_event(5, 5, state()), ServiceEventAction::Ignore));
    assert!(matches!(classify_service_event(5, 4, state()), ServiceEventAction::Ignore));
    assert!(matches!(
        classify_service_event(5, 6, state()),
        ServiceEventAction::Apply { gap: false, .. }
    ));
    assert!(matches!(
        classify_service_event(5, 7, state()),
        ServiceEventAction::Apply { gap: true, .. }
    ));
    assert!(matches!(
        classify_service_event(5, 6, Err("invalid type: null".into())),
        ServiceEventAction::Recover(_)
    ));
    assert!(matches!(
        classify_service_event(u64::MAX, u64::MAX, Err("invalid type: null".into())),
        ServiceEventAction::Ignore
    ));
}

#[test]
fn a_stale_row_is_never_acted_on() {
    let mut app = app();
    for action in [
        Action::ActivateWorktree { project_id: "p1".into(), worktree_id: "gone".into() },
        Action::ActivateWorktree { project_id: "gone".into(), worktree_id: "p1-0".into() },
        Action::OpenNewWindow { project_id: "p1".into(), worktree_id: "gone".into() },
        Action::ActivateWindow {
            project_id: "p1".into(),
            worktree_id: "gone".into(),
            window_index: 1,
        },
        Action::ToggleProject("gone".into()),
        Action::RefreshProject("gone".into()),
        Action::LocateProject("gone".into()),
        Action::CreateWorktree("gone".into()),
        Action::RemoveWorktree { project_id: "p1".into(), worktree_id: "gone".into() },
    ] {
        assert!(app.apply_action(action).is_empty());
        assert_eq!(app.selection.worktree(), None);
    }
}

#[test]
fn opening_a_row_selects_it_and_asks_about_its_attention() {
    let mut app = app();
    let effects = app.apply_action(Action::ActivateWorktree {
        project_id: "p1".into(),
        worktree_id: "p1-1".into(),
    });
    assert_eq!(
        effects,
        vec![
            Effect::Send(Task::Activate { worktree_id: "p1-1".into() }),
            Effect::Opened("p1-1".into()),
        ]
    );
    assert_eq!(app.selection.worktree(), Some("p1-1"));
    assert!(app.clear_attention("p1-1", false).is_empty());
    assert_eq!(
        app.clear_attention("p1-1", true),
        vec![Effect::Send(Task::ClearAttention { worktree_id: "p1-1".into() })]
    );
    let task = Task::Activate { worktree_id: "p1-1".into() };
    assert_eq!(task.idempotency_key("n1").as_deref(), Some("gui-session-open-n1"));
    assert_eq!(Task::LoadState.idempotency_key("n1"), None);

    let window = app.apply_action(Action::ActivateWindow {
        project_id: "p1".into(),
        worktree_id: "p1-0".into(),
        window_index: 2,
    });
    assert_eq!(window.len(), 2);
    assert_eq!(app.selection.window(), Some(("p1-0", 2)));
}

#[test]
fn an_agent_is_resumed_only_where_it_reported_a_conversation() {
    let mut app = app();
    let resume =
        || Action::ResumeAgent { project_id: "p1".into(), worktree_id: "p1-0".into() };
    assert!(app.apply_action(resume()).is_empty());
    assert_eq!(
        status(&app),
        Some("No agent conversation has been reported for this worktree.")
    );
    let transcript = || Action::OpenAgentTranscript { worktree_id: "p1-0".into() };
    assert!(app.apply_action(transcript()).is_empty());
    assert_eq!(status(&app), Some("No transcript has been reported for this worktree."));

    app.rows.state.agents.push(AgentRecord {
        worktree_id: "p1-0".into(),
        session_id: "0f3a".into(),
        transcript_path: "/tmp/0f3a.jsonl".into(),
    });
    assert_eq!(
        app.apply_action(resume()),
        vec![Effect::Send(Task::StartAgent {
            worktree_id: "p1-0".into(),
            resume: Some("0f3a".into()),
        })]
    );
    assert_eq!(
        app.apply_action(transcript()),
        vec![Effect::Send(Task::OpenWithDesktop { path: "/tmp/0f3a.jsonl".into() })]
    );
}

#[test]
fn a_digit_assigns_a_number_and_takes_it_off_again() {
    let mut app = app();
    assert_eq!(
        app.set_slot("p1-0", 3),
        vec![Effect::Send(Task::AssignSlot { number: 3, worktree_id: "p1-0".into() })]
    );
    app.rows.state.slots.push((3, "p1-0".into()));
    assert_eq!(
        app.set_slot("p1-0", 3),
        vec![Effect::Send(Task::ClearSlot { worktree_id: "p1-0".into() })]
    );
    assert!(app.set_slot("p1-0", 0).is_empty());
    assert!(app.set_slot("p1-0", 10).is_empty());
    assert_eq!(
        app.apply_action(Action::SetWorktreeSlot { worktree_id: "p1-0".into(), slot: None }),
        vec![Effect::Send(Task::ClearSlot { worktree_id: "p1-0".into() })]
    );
    assert!(
        app.apply_action(Action::SetWorktreeSlot { worktree_id: "p1-1".into(), slot: None })
            .is_empty()
    );
}

#[test]
fn a_number_that_names_nothing_is_reported_and_nothing_else() {
    let mut app = app();
    assert!(app.activate_slot(4).is_empty());
    assert_eq!(status(&app), Some("No worktree in Grove's list is numbered 4."));
    app.rows.state.slots.push((4, "p1-1".into()));
    let effects = app.apply_toggle(Some(4));
    assert_eq!(effects[0], Effect::Focus);
    assert_eq!(
        effects[1],
        Effect::Send(Task::Activate { worktree_id: "p1-1".into() })
    );
    assert_eq!(app.apply_toggle(None), vec![Effect::Close]);
}

#[test]
fn a_toggle_before_the_first_pass_waits_for_it_and_fires_once() {
    let (mut app, _) = GroveApp::new(None);
    assert_eq!(
        app.apply_message(Message::Toggled { slot: Some(2) }),
        vec![Effect::Focus]
    );
    let mut state = State::new();
    state.projects.push(record("p1", "acme"));
    state.slots.push((2, "p1-0".into()));
    app.apply_message(Message::StateLoaded(state));
    let listed = || ProjectStatus {
        id: "p1".into(),
        name: "acme".into(),
        unavailable: None,
        worktrees: vec![worktree("p1", "main", 0)],
    };
    let with_slot = || {
        let mut state = State::new();
        state.projects.push(record("p1", "acme"));
        state.slots.push((2, "p1-0".into()));
        state
    };
    let first = app.apply_message(Message::Reconciled {
        result: pass(vec![listed()], Vec::new()),
        state: with_slot(),
    });
    assert_eq!(
        first,
        vec![
            Effect::Describe(app.rows.labels()),
            Effect::Send(Task::Activate { worktree_id: "p1-0".into() }),
            Effect::Opened("p1-0".into()),
        ]
    );
    let second = app.apply_message(Message::Reconciled {
        result: pass(vec![listed()], Vec::new()),
        state: with_slot(),
    });
    assert_eq!(second, vec![Effect::Describe(app.rows.labels())]);
    assert_eq!(app.rows.labels().get("p1-0").map(|l| l.worktree.as_str()), Some("main"));
}

#[test]
fn agents_are_asked_for_once_and_only_with_a_configuration() {
    let mut app = app();
    let reconciled =
        || Message::Reconciled { result: pass(Vec::new(), Vec::new()), state: State::new() };
    let passed = app.apply_message(reconciled());
    assert_eq!(passed, vec![Effect::Describe(app.rows.labels())]);
    assert!(!app.can_resume_agents());
    assert_eq!(
        app.apply_message(Message::ConfigLoaded {
            config: config(),
            created: true,
            path: "/c/config.toml".into(),
        }),
        vec![Effect::Reconfigure(status_config(false))]
    );
    assert_eq!(status(&app), Some("Detected a terminal and wrote /c/config.toml"));
    assert!(app.can_resume_agents());
    let resumed = app.apply_message(reconciled());
    assert_eq!(
        resumed,
        vec![Effect::Describe(app.rows.labels()), Effect::Send(Task::ResumeAgents)]
    );
    let passed = app.apply_message(reconciled());
    assert_eq!(passed, vec![Effect::Describe(app.rows.labels())]);
    assert_eq!(status(&app), Some("2 worktrees"));
}

#[test]
fn closing_an_orphan_takes_a_second_click_on_the_same_one() {
    let mut app = app();
    app.apply_message(Message::Reconciled {
        result: pass(Vec::new(), vec![orphan("scratch"), orphan("old")]),
        state: State::new(),
    });
    assert!(app.apply_orphan_action(OrphanAction::Close("scratch".into())).is_empty());
    assert_eq!(
        status(&app),
        Some("Choose “Confirm: close scratch” to end that session.")
    );
    assert!(app.apply_orphan_action(OrphanAction::Close("old".into())).is_empty());
    assert!(app.apply_orphan_action(OrphanAction::Close("scratch".into())).is_empty());
    assert_eq!(
        app.apply_orphan_action(OrphanAction::Close("scratch".into())),
        vec![Effect::Send(Task::CloseOrphan { session: "scratch".into() })]
    );
    app.apply_message(Message::Reconciled {
        result: pass(Vec::new(), vec![orphan("old")]),
        state: State::new(),
    });
    assert_eq!(app.orphan_armed, None, "what is gone is no longer armed");
    assert_eq!(
        app.apply_orphan_action(OrphanAction::Ignore("old".into())),
        vec![Effect::Send(Task::IgnoreSession { session: "old".into() })]
    );
    assert_eq!(
        app.apply_orphan_action(OrphanAction::ShowIgnored),
        vec![Effect::Send(Task::ClearIgnoredSessions)]
    );
    let closed = app.apply_message(Message::OrphanClosed { session: "old".into() });
    assert_eq!(closed, vec![Effect::Reconcile(app.rows.project_refs())]);
}

#[test]
fn ending_every_session_takes_two_clicks() {
    let mut app = app();
    assert!(app.shutdown_button(true, false).is_empty());
    assert!(app.shutdown_armed);
    assert!(app.shutdown_button(false, true).is_empty());
    assert!(!app.shutdown_armed, "a click elsewhere disarms it");
    app.shutdown_button(true, false);
    assert_eq!(app.shutdown_button(true, false), vec![Effect::Send(Task::KillServer)]);
    assert!(!app.shutdown_armed);
    assert!(!app.quit_after_kill);
    app.apply_message(Message::ServerKilled);
    assert!(app.quit_after_kill);
}

fn no_keys() -> Keys {
    Keys {
        close: false,
        down: false,
        up: false,
        enter: false,
        delete: false,
        new: false,
        refresh: false,
        digit: None,
    }
}

#[test]
fn the_keyboard_acts_on_the_selected_row() {
    let mut app = app();
    assert!(app.keyboard(no_keys()).is_empty());
    let keys = Keys { down: true, enter: true, digit: Some(2), ..no_keys() };
    let commands = app.keyboard(keys);
    assert_eq!(commands, vec![Command::MoveDown, Command::Open, Command::Number(2)]);
    assert!(app.apply_command(commands[0]).is_empty());
    assert_eq!(
        app.apply_command(commands[1]),
        vec![
            Effect::Send(Task::Activate { worktree_id: "p1-0".into() }),
            Effect::Opened("p1-0".into()),
        ]
    );
    assert_eq!(
        app.apply_command(commands[2]),
        vec![Effect::Send(Task::AssignSlot { number: 2, worktree_id: "p1-0".into() })]
    );
    assert_eq!(
        app.apply_command(Command::Restore),
        vec![Effect::Reconcile(vec![ProjectRef {
            id: "p1".into(),
            name: "acme".into(),
            repository_path: "/home/u/acme".into(),
            git_common_dir: "/home/u/acme/.git".into(),
        }])]
    );
    assert_eq!(status(&app), Some("Reconciling with git and tmux…"));
    assert_eq!(
        app.apply_command(Command::New),
        vec![Effect::Send(Task::LoadBaseRefs { project_id: "p1".into() })]
    );
    assert!(app.apply_command(Command::New).is_empty(), "the open dialog is raised");

    assert_eq!(
        app.apply_command(Command::Remove),
        vec![Effect::Send(Task::GatherRemoval { worktree_id: "p1-0".into() })]
    );
    assert!(app.keyboard(keys).is_empty(), "the removal dialog owns the keyboard");
    assert_eq!(app.keyboard(Keys { close: true, ..keys }), vec![Command::Close]);
    assert_eq!(app.apply_command(Command::Close), vec![Effect::Close]);
}

#[test]
fn a_removal_is_assessed_confirmed_and_taken_down() {
    let mut app = app();
    app.open_removal_dialog("p1", "p1-0");
    assert_eq!(app.apply_removal(Request::CloseSession), Vec::new(), "there is no session");
    app.apply_message(Message::RemovalGathered {
        project_id: "p1".into(),
        worktree_id: "p1-0".into(),
        report: RemovalReport {
            findings: Vec::new(),
            can_remove_worktree: true,
            can_delete_branch: true,
        },
    });
    assert!(app.removal.get().expect("open").report.is_some());
    assert_eq!(
        app.apply_removal(Request::RemoveWorktree { force: false }),
        vec![Effect::Send(Task::RemoveWorktree {
            project_id: "p1".into(),
            worktree_id: "p1-0".into(),
            force: false,
        })]
    );
    app.apply_message(Message::RemovalFailed {
        project_id: "p1".into(),
        operation: RemovalOp::RemoveWorktree,
        report: ErrorReport { summary: "contains modified files".into(), detail: None },
    });
    assert!(app.removal.get().expect("open").force_worktree_offered);
    assert_eq!(app.errors.len(), 1);
    assert_eq!(
        app.apply_message(Message::RemovalDone {
            project_id: "p1".into(),
            operation: RemovalOp::RemoveWorktree,
            detail: "Removed the worktree.".into(),
        }),
        vec![Effect::Forget("p1-0".into())]
    );
    assert_eq!(status(&app), Some("Removed the worktree."));
    assert_eq!(
        app.apply_removal(Request::DeleteBranch { force: true }),
        vec![Effect::Send(Task::DeleteBranch {
            project_id: "p1".into(),
            branch: "main".into(),
            force: true,
        })]
    );
    app.apply_message(Message::StateUpdated {
        state: State::new(),
        status: "Removed acme".into(),
        reconcile: false,
    });
    assert!(!app.removal.is_open(), "its project is gone");
    assert_eq!(status(&app), Some("Removed acme"));
    assert!(app.apply_removal(Request::RemoveProject).is_empty());
}

#[test]
fn an_event_is_applied_once_and_a_gap_is_polled() {
    let mut app = app();
    app.apply_message(Message::ServiceEventsStarted { revision: 5 });
    let report = |revision| Message::ServiceEvent {
        revision,
        decoded: Ok(ServiceUpdate::Notification(Notification::new(
            "p1-0",
            SessionStatus::Working,
        ))),
    };
    let applied = app.apply_message(report(6));
    assert!(matches!(applied.as_slice(), [Effect::Notified(_)]));
    assert!(app.apply_message(report(6)).is_empty());
    let gap = app.apply_message(report(9));
    assert!(matches!(gap.as_slice(), [Effect::Poll, Effect::Notified(_)]));
    let unreadable =
        Message::ServiceEvent { revision: 10, decoded: Err("missing field `state`".into()) };
    assert_eq!(
        app.apply_message(unreadable),
        vec![
            Effect::Warn("grove: invalid service event: missing field `state`".into()),
            Effect::Poll,
        ]
    );
    assert_eq!(app.last_service_revision, 9);
    let done =
        Message::ServiceEvent { revision: 10, decoded: Ok(ServiceUpdate::ControlCompleted) };
    assert_eq!(
        app.apply_message(done),
        vec![Effect::Send(Task::RefreshSessions), Effect::Poll]
    );
    assert_eq!(app.apply_message(Message::ServiceEventsUnavailable), vec![Effect::Poll]);
}

#[test]
fn messages_are_put_into_words() {
    let mut app = app();
    assert_eq!(status(&app), Some("Registered acme (2 worktrees)"));
    app.apply_message(Message::AgentsResumed { worktree_ids: Vec::new() });
    assert_eq!(status(&app), Some("No conversation needed resuming."));
    app.apply_message(Message::AgentsResumed { worktree_ids: vec!["p1-1".into()] });
    assert_eq!(status(&app), Some("Resumed 1 agent conversation."));
    assert_eq!(app.selection.worktree(), Some("p1-1"));
    app.apply_message(Message::AgentsResumed {
        worktree_ids: vec!["p1-0".into(), "p1-1".into()],
    });
    assert_eq!(status(&app), Some("Resumed 2 agent conversations."));
    app.apply_message(Message::AgentStarted {
        worktree_id: "p1-1".into(),
        unit: Some("agent.scope".into()),
    });
    assert_eq!(status(&app), Some("Started the agent in agent.scope"));
    app.apply_message(Message::WindowOpened {
        worktree_id: "p1-0".into(),
        window: 3,
        session: "wt-p1-0".into(),
    });
    assert_eq!(status(&app), Some("Opened window 3 in wt-p1-0"));
    app.apply_message(Message::Activated {
        worktree_id: "p1-1".into(),
        activation: Activation::LaunchedTerminal {
            session: "wt-p1-1".into(),
            command: "foot".into(),
        },
    });
    assert_eq!(status(&app), Some("Launched a terminal on wt-p1-1"));
    let change = |changed| HookChange {
        agent: "the agent".into(),
        path: "/s.json".into(),
        changed,
        backup: None,
        installed: Vec::new(),
    };
    for (op, changed, line) in [
        (
            HookOp::Install,
            true,
            "Installed Grove's hooks in /s.json. Restart the agent for them to take effect.",
        ),
        (HookOp::Install, false, "Grove's hooks were already installed."),
        (HookOp::Uninstall, true, "Removed Grove's hooks from /s.json."),
        (HookOp::Uninstall, false, "Grove had no hooks installed."),
    ] {
        app.apply_message(Message::ClaudeHooks { op, change: change(changed) });
        assert_eq!(status(&app), Some(line));
    }
    app.apply_message(Message::ClaudeHooks { op: HookOp::Check, change: change(true) });
    assert_eq!(status(&app), Some("Grove had no hooks installed."));
}

#[test]
fn a_new_worktree_is_selected_once_it_is_listed() {
    let mut app = app();
    app.apply_message(Message::WorktreeCreated {
        project_id: "p1".into(),
        path: "/home/u/wt/new".into(),
    });
    assert_eq!(status(&app), Some("Created /home/u/wt/new"));
    app.apply_message(Message::WorktreesRefreshed {
        project_id: "p1".into(),
        worktrees: vec![worktree("p1", "main", 0)],
    });
    assert_eq!(app.selection.worktree(), None);
    let effects = app.apply_message(Message::WorktreesRefreshed {
        project_id: "p1".into(),
        worktrees: vec![worktree("p1", "main", 0), worktree("p1", "new", 1)],
    });
    assert_eq!(effects, vec![Effect::Describe(app.rows.labels())]);
    assert_eq!(app.selection.worktree(), Some("p1-1"));
    assert!(app.pending_selection.is_none());
    assert_eq!(
        app.apply_message(Message::GitStatusDue),
        vec![Effect::Send(Task::RefreshStatuses { project_id: "p1".into() })]
    );
}

#[test]
fn a_failed_save_releases_the_button() {
    let mut app = app();
    let opened = app.settings_clicked();
    assert_eq!(
        opened,
        vec![
            Effect::Send(Task::ProbeTerminal { command: String::new() }),
            Effect::Send(Task::ClaudeHooks { op: HookOp::Check }),
        ]
    );
    assert!(app.settings_clicked().is_empty(), "the open window is raised");
    assert!(app.apply_settings_action(settings::Action::Save, None).is_empty());
    app.settings.get_mut().expect("open").terminal_command = "kitty".into();
    assert_eq!(
        app.apply_settings_action(settings::Action::Save, None),
        vec![Effect::Send(Task::SaveConfig {
            edits: vec![Edit { key: ConfigKey::TerminalCommand, value: "kitty".into() }],
        })]
    );
    assert_eq!(status(&app), Some("Saving config.toml…"));
    app.settings.get_mut().expect("open").saving = true;
    app.apply_message(Message::Failed(ErrorReport {
        summary: "read-only".into(),
        detail: None,
    }));
    assert!(!app.settings.get().expect("open").saving);
    assert_eq!(app.errors.len(), 1);
    app.apply_message(Message::ConfigSaved { path: "/c".into() });
    assert_eq!(
        app.settings.get().expect("open").note.as_deref(),
        Some("Saved. Your comments are untouched.")
    );
    assert_eq!(
        app.apply_message(Message::TerminalDetected { template: "foot".into() }),
        vec![Effect::Send(Task::ProbeTerminal { command: "foot".into() })]
    );
    app.apply_message(Message::TerminalProbed {
        command: "foot".into(),
        program: "foot".into(),
        found: true,
    });
    assert!(app.settings.get().expect("open").current_probe().is_some());
    assert_eq!(
        app.apply_settings_action(settings::Action::BrowseWorktreeParent, Some("/home/u")),
        vec![Effect::Send(Task::PickDirectory {
            target: PickTarget::WorktreeParent,
            start: Some("/home/u".into()),
        })]
    );
}

#[test]
fn the_dialogs_hand_over_what_was_confirmed() {
    let mut app = app();
    app.open_project_clicked();
    assert!(app.open_project.is_open());
    assert_eq!(
        app.open_project_outcome(open_project::Outcome::Browse, false, Some("/home/u")),
        vec![Effect::Send(Task::PickDirectory {
            target: PickTarget::ProjectPath,
            start: Some("/home/u".into()),
        })]
    );
    assert!(app.open_project.is_open());
    assert_eq!(
        app.open_project_outcome(
            open_project::Outcome::Confirmed("/home/u/acme".into()),
            false,
            None
        ),
        vec![Effect::Send(Task::OpenProject { path: "/home/u/acme".into() })]
    );
    assert!(!app.open_project.is_open());
    assert_eq!(status(&app), Some("Opening /home/u/acme…"));

    app.open_create_dialog("p1");
    let form = app.create.get_mut().expect("open");
    form.branch = "x".into();
    form.sync_path();
    let outcome = create_worktree::body(
        form,
        create_worktree::Frame {
            source_changed: false,
            path_typed: false,
            browse: false,
            create: true,
            cancel: false,
        },
    );
    let effects = app.create_outcome(outcome, false);
    assert!(matches!(
        effects.as_slice(),
        [Effect::Send(Task::CreateWorktree { project_id, add, open_after: true })]
            if project_id == "p1" && add.path == "/home/u/x"
    ));
    assert!(!app.create.is_open());
    assert_eq!(status(&app), Some("Creating the worktree…"));

    app.apply_action(Action::LocateProject("p1".into()));
    assert_eq!(app.open_project.get().map(|f| f.path.as_str()), Some("/home/u/acme"));
    assert_eq!(status(&app), Some("Point Grove at acme where it lives now."));
}

fn takes_away(effect: &Effect) -> bool {
    matches!(
        effect,
        Effect::Send(
            Task::RemoveProject { .. }
                | Task::CloseSession { .. }
                | Task::RemoveWorktree { .. }
                | Task::DeleteBranch { .. }
                | Task::CloseOrphan { .. }
                | Task::KillServer
        )
    )
}

#[test]
fn refreshing_marks_and_does_not_act() {
    let mut app = app();
    app.apply_command(Command::MoveDown);
    app.open_removal_dialog("p1", "p1-0");
    app.shutdown_armed = true;
    app.orphan_armed = Some("scratch".into());
    let gone = ProjectStatus {
        id: "p1".into(),
        name: "acme".into(),
        unavailable: Some("moved".into()),
        worktrees: Vec::new(),
    };
    for message in [
        Message::GitStatusDue,
        Message::Reconciled {
            result: pass(vec![gone], vec![orphan("scratch")]),
            state: State::new(),
        },
        Message::StateLoaded(State::new()),
        Message::WorktreesRefreshed { project_id: "p1".into(), worktrees: Vec::new() },
        Message::Toggled { slot: Some(1) },
        Message::ServiceEvent { revision: 9, decoded: Ok(ServiceUpdate::ControlCompleted) },
        Message::ServiceEventsUnavailable,
    ] {
        let effects = app.apply_message(message);
        assert!(!effects.iter().any(takes_away), "{effects:?}");
    }
}

#[test]
fn no_key_and_no_row_takes_anything_away() {
    let mut app = app();
    for command in [
        Command::MoveDown,
        Command::Open,
        Command::New,
        Command::Restore,
        Command::Number(4),
        Command::Remove,
        Command::Close,
    ] {
        let effects = app.apply_command(command);
        assert!(!effects.iter().any(takes_away), "{effects:?}");
    }
    let effects = app.apply_action(Action::RemoveWorktree {
        project_id: "p1".into(),
        worktree_id: "p1-1".into(),
    });
    assert!(!effects.iter().any(takes_away), "{effects:?}");
    assert_eq!(
        app.apply_action(Action::RemoveProject("p1".into())),
        vec![Effect::Send(Task::RemoveProject { project_id: "p1".into() })]
    );
}

#[test]
fn the_keyboard_walks_what_is_drawn() {
    let app = app();
    let drawn = grove::ui::project_list::entries(&app.rows.projects, " FEAT ");
    assert_eq!(
        drawn,
        vec![grove::ui::project_list::Entry::Header { project: 0, worktrees: vec![1] }]
    );
    assert_eq!(
        grove::app::selection::visible_rows(&app.rows.projects, " FEAT "),
        vec![("p1".to_string(), "p1-1".to_string())]
    );
}

#[test]
fn a_row_claims_nothing_of_a_session_that_does_not_run() {
    let mut app = app();
    let mut presence = grove::table::Table::new();
    presence.insert("wt-p1-0".to_string(), SessionPresence::Detached);
    app.apply_message(Message::SessionsRefreshed {
        presence,
        windows: grove::table::Table::new(),
    });
    app.apply_message(Message::Notified(Notification::new("p1-0", SessionStatus::Attention)));
    app.apply_message(Message::Notified(Notification::new("p1-1", SessionStatus::Attention)));
    let rows = &app.rows.projects[0].worktrees;
    assert_eq!(rows[0].status, Some(SessionStatus::Attention));
    assert_eq!(rows[1].status, None, "there is no session to ask for the user");
    app.apply_message(Message::SessionsRefreshed {
        presence: grove::table::Table::new(),
        windows: grove::table::Table::new(),
    });
    assert_eq!(app.rows.projects[0].worktrees[0].status, None);
}

#[test]
fn a_snapshot_lists_what_is_remembered_once() {
    let mut app = app();
    let mut state = State::new();
    state.projects.push(record("p2", "other"));
    state.projects.push(record("p1", "acme"));
    state.projects.push(record("p2", "other"));
    app.apply_message(Message::StateUpdated {
        state,
        status: "Changed".into(),
        reconcile: false,
    });
    let ids: Vec<&str> = app.rows.projects.iter().map(|p| p.id.as_str()).collect();
    assert_eq!(ids, vec!["p1", "p2"]);
    assert_eq!(app.rows.projects[0].worktrees.len(), 2, "what git said stays");
}
