use grove::app::rows::{ProjectStatus, Rows};
use grove::model::{
    AttentionReason, Project, SessionPresence, SessionReport, SessionStatus, WindowInfo, Worktree,
};
use grove::notices::Notification;
use grove::state::{ProjectRecord, SessionRecord, State};
use grove::table::Table;

fn worktree(project_id: &str, name: &str, branch: &str, place: usize) -> Worktree {
    Worktree {
        id: format!("{project_id}-{place}"),
        project_id: project_id.to_string(),
        path: format!("/home/u/wt/{name}-{branch}"),
        label: branch.to_string(),
        branch: Some(branch.to_string()),
        is_locked: false,
        is_detached: false,
        is_missing: false,
        git_status: None,
        session: SessionPresence::Absent,
        session_stopped: false,
        status: None,
        status_message: None,
        attention_reason: None,
        windows: Vec::new(),
        window_notes: Vec::new(),
    }
}

fn project(id: &str, name: &str, branches: &[&str]) -> Project {
    Project {
        id: id.to_string(),
        name: name.to_string(),
        repository_path: format!("/home/u/{name}"),
        git_common_dir: format!("/home/u/{name}/.git"),
        default_worktree_path: "/home/u".to_string(),
        is_expanded: true,
        worktrees: branches
            .iter()
            .enumerate()
            .map(|(place, branch)| worktree(id, name, branch, place))
            .collect(),
        unavailable: None,
    }
}

fn record(id: &str, name: &str) -> ProjectRecord {
    ProjectRecord {
        id: id.to_string(),
        name: name.to_string(),
        repository_path: format!("/home/u/{name}"),
        git_common_dir: format!("/home/u/{name}/.git"),
        default_worktree_path: "/home/u".to_string(),
        is_expanded: true,
    }
}

fn state_of(projects: Vec<ProjectRecord>) -> State {
    State { projects, ..State::new() }
}

fn rows_with(projects: Vec<Project>) -> Rows {
    let mut rows = Rows::new();
    for project in projects {
        rows.add_project(project);
    }
    rows
}

fn first_worktree(rows: &Rows) -> &Worktree {
    &rows.projects[0].worktrees[0]
}

fn with_session(rows: &mut Rows, worktree_id: &str) {
    let name = rows
        .projects
        .iter()
        .flat_map(|project| project.worktrees.iter())
        .find(|worktree| worktree.id == worktree_id)
        .expect("a worktree to attach a session to")
        .session_name();
    let mut presence = Table::new();
    presence.insert(name, SessionPresence::Detached);
    rows.apply_presence(&presence);
}

fn report(status: SessionStatus) -> SessionReport {
    SessionReport { status, usage: None, cpu: None }
}

fn window(session: &str, index: u32) -> WindowInfo {
    WindowInfo {
        session: session.to_string(),
        index,
        name: "shell".to_string(),
        active: index == 0,
        bell: false,
        title: None,
        activity_epoch: None,
        status: None,
    }
}

#[test]
fn project_refs_carry_the_repository_identity_reconciliation_needs() {
    let rows = rows_with(vec![project("p1", "acme", &["main"])]);
    let refs = rows.project_refs();
    assert_eq!(refs.len(), 1);
    assert_eq!(refs[0].id, "p1");
    assert_eq!(refs[0].name, "acme");
    assert_eq!(refs[0].repository_path, "/home/u/acme");
    assert_eq!(refs[0].git_common_dir, "/home/u/acme/.git");
    assert!(Rows::new().project_refs().is_empty());
}

#[test]
fn a_number_resolves_to_its_row() {
    let mut rows = rows_with(vec![
        project("p1", "acme", &["main", "feature"]),
        project("p2", "design", &["main"]),
    ]);
    let target = rows.projects[1].worktrees[0].id.clone();
    rows.state.slots.push((3, target.clone()));
    assert_eq!(rows.slot_target(3), Some(("p2".to_string(), target)));
}

#[test]
fn an_unassigned_or_stale_number_resolves_to_nothing() {
    let mut rows = rows_with(vec![project("p1", "acme", &["main"])]);
    assert_eq!(rows.slot_target(3), None, "never assigned");

    rows.state.slots = vec![(3, "deadbe".to_string())];
    assert_eq!(rows.slot_target(3), None, "points at a worktree that is not listed");

    let id = rows.projects[0].worktrees[0].id.clone();
    rows.projects[0].is_expanded = false;
    rows.state.slots = vec![(3, id)];
    assert!(rows.slot_target(3).is_some());
}

#[test]
fn a_worktree_is_only_found_under_its_own_project() {
    let rows =
        rows_with(vec![project("p1", "acme", &["main"]), project("p2", "design", &["main"])]);
    let id = rows.projects[0].worktrees[0].id.clone();
    assert!(rows.worktree("p1", &id).is_some());
    assert!(rows.worktree("p2", &id).is_none());
    assert!(rows.worktree("gone", &id).is_none());
    assert!(rows.worktree("p1", "deadbe").is_none());
    assert_eq!(rows.project("p2").map(|p| p.name.as_str()), Some("design"));
    assert!(rows.project("gone").is_none());
}

#[test]
fn labels_name_every_row_by_project_and_worktree() {
    let rows = rows_with(vec![project("p1", "acme", &["main", "feature"])]);
    let labels = rows.labels();
    assert_eq!(labels.len(), 2);
    let id = &rows.projects[0].worktrees[0].id;
    let label = labels.get(id).expect("a label");
    assert_eq!(label.project, "acme");
    assert_eq!(label.worktree, rows.projects[0].worktrees[0].label);
}

#[test]
fn opening_a_project_twice_replaces_its_record_rather_than_listing_it_twice() {
    let mut rows = Rows::new();
    assert_eq!(
        rows.add_project(project("p1", "acme", &["main"])),
        "Registered acme (1 worktrees)"
    );
    assert_eq!(
        rows.add_project(project("p1", "acme", &["main", "feature"])),
        "acme is already open"
    );
    assert_eq!(rows.projects.len(), 1);
    assert_eq!(rows.projects[0].worktrees.len(), 2);
}

#[test]
fn a_session_grove_has_a_record_for_reads_as_stopped_not_absent() {
    let mut rows = rows_with(vec![project("p1", "acme", &["main"])]);
    let id = first_worktree(&rows).id.clone();
    assert!(!first_worktree(&rows).session_stopped, "no record yet");

    let mut state = state_of(vec![record("p1", "acme")]);
    state.sessions.push(SessionRecord {
        worktree_id: id.clone(),
        project_id: "p1".to_string(),
        worktree_path: String::new(),
        session_name: format!("wt-{id}"),
        last_activity_at: 0,
    });
    rows.apply_daemon_state(state, false);
    assert!(first_worktree(&rows).session_stopped);

    with_session(&mut rows, &id);
    assert!(!first_worktree(&rows).session_stopped);
}

#[test]
fn refreshing_a_projects_rows_restamps_what_was_already_polled() {
    let mut rows = rows_with(vec![project("p1", "acme", &["main"])]);
    let id = first_worktree(&rows).id.clone();
    let mut statuses = Table::new();
    statuses.insert(id.clone(), report(SessionStatus::Working));
    rows.set_statuses(statuses);
    with_session(&mut rows, &id);
    assert_eq!(first_worktree(&rows).status, Some(SessionStatus::Working));

    let mut fresh = project("p1", "acme", &["main"]).worktrees;
    fresh[0].session = SessionPresence::Detached;
    rows.refresh_worktrees("p1", fresh);
    assert_eq!(first_worktree(&rows).status, Some(SessionStatus::Working));
    assert!(rows.projects[0].unavailable.is_none());
}

#[test]
fn done_does_not_overwrite_a_raised_attention() {
    let mut rows = rows_with(vec![project("p1", "acme", &["main"])]);
    let id = first_worktree(&rows).id.clone();
    with_session(&mut rows, &id);

    let mut attention = Notification::new(&id, SessionStatus::Attention);
    attention.reason = Some(AttentionReason::Blocked);
    rows.apply_notification(&attention);
    assert_eq!(first_worktree(&rows).status, Some(SessionStatus::Attention));
    assert_eq!(first_worktree(&rows).attention_reason, Some(AttentionReason::Blocked));

    rows.apply_notification(&Notification::new(&id, SessionStatus::Done));
    assert_eq!(first_worktree(&rows).status, Some(SessionStatus::Attention));
    assert_eq!(
        rows.statuses.get(&id).map(|r| r.status),
        Some(SessionStatus::Attention),
        "nor in the cache the next poll reads"
    );
}

#[test]
fn done_shows_at_once_on_a_row_with_a_session() {
    let mut rows = rows_with(vec![project("p1", "acme", &["main"])]);
    let id = first_worktree(&rows).id.clone();
    with_session(&mut rows, &id);

    let mut done = Notification::new(&id, SessionStatus::Done);
    done.message = Some("tests pass".to_string());
    rows.apply_notification(&done);
    assert_eq!(first_worktree(&rows).status, Some(SessionStatus::Done));
    assert_eq!(first_worktree(&rows).status_message.as_deref(), Some("tests pass"));
}

#[test]
fn a_report_for_a_row_without_a_session_sets_no_status() {
    let mut rows = rows_with(vec![project("p1", "acme", &["main"])]);
    let id = first_worktree(&rows).id.clone();
    rows.apply_notification(&Notification::new(&id, SessionStatus::Attention));
    assert_eq!(first_worktree(&rows).status, None, "no session, so no status");
}

#[test]
fn opening_a_worktree_clears_everything_its_attention_was_carrying() {
    let mut rows = rows_with(vec![project("p1", "acme", &["main"])]);
    let id = first_worktree(&rows).id.clone();
    with_session(&mut rows, &id);

    let mut attention = Notification::new(&id, SessionStatus::Attention);
    attention.reason = Some(AttentionReason::WaitingInput);
    attention.message = Some("which branch?".to_string());
    rows.apply_notification(&attention);

    rows.clear_attention(&id);
    let worktree = first_worktree(&rows);
    assert_eq!(worktree.status, None);
    assert_eq!(worktree.status_message, None);
    assert_eq!(worktree.attention_reason, None);
    assert!(worktree.window_notes.is_empty());
    assert!(!rows.statuses.contains(&id));
    assert!(rows.notices.worktree(&id).is_none());
}

#[test]
fn bootstrap_builds_the_rows_and_a_later_snapshot_keeps_their_git_data() {
    let mut rows = Rows::new();
    rows.apply_daemon_state(state_of(vec![record("p1", "acme"), record("p2", "design")]), true);
    assert_eq!(rows.projects.len(), 2);
    assert!(rows.projects[0].worktrees.is_empty());

    rows.refresh_worktrees("p1", project("p1", "acme", &["main"]).worktrees);
    assert_eq!(rows.projects[0].worktrees.len(), 1);

    rows.apply_daemon_state(
        state_of(vec![record("p1", "acme-two"), record("p2", "design")]),
        false,
    );
    assert_eq!(rows.projects[0].name, "acme-two");
    assert_eq!(rows.projects[0].worktrees.len(), 1);
}

#[test]
fn a_project_the_snapshot_drops_leaves_the_list_and_a_new_one_joins_it() {
    let mut rows = Rows::new();
    rows.apply_daemon_state(state_of(vec![record("p1", "acme")]), true);
    rows.apply_daemon_state(state_of(vec![record("p2", "design")]), false);
    assert_eq!(rows.projects.len(), 1);
    assert_eq!(rows.projects[0].id, "p2");
}

#[test]
fn reconciliation_marks_an_unavailable_project_without_emptying_it() {
    let mut rows = rows_with(vec![project("p1", "acme", &["main", "feature"])]);
    rows.apply_reconciliation(
        vec![ProjectStatus {
            id: "p1".to_string(),
            name: "acme".to_string(),
            unavailable: Some("the drive is not mounted".to_string()),
            worktrees: Vec::new(),
        }],
        State::new(),
    );
    assert_eq!(rows.projects[0].unavailable.as_deref(), Some("the drive is not mounted"));
    assert_eq!(rows.projects[0].worktrees.len(), 2);
}

#[test]
fn reconciliation_forgets_reports_for_rows_that_are_gone() {
    let mut rows = rows_with(vec![project("p1", "acme", &["main"])]);
    let id = first_worktree(&rows).id.clone();
    rows.apply_notification(&Notification::new(&id, SessionStatus::Attention));
    assert!(!rows.notices.is_empty());

    rows.apply_reconciliation(
        vec![ProjectStatus {
            id: "p1".to_string(),
            name: "acme".to_string(),
            unavailable: None,
            worktrees: Vec::new(),
        }],
        State::new(),
    );
    assert!(rows.notices.worktree(&id).is_none());
}

#[test]
fn reconciliation_never_drops_a_project_it_was_not_told_about() {
    let mut rows =
        rows_with(vec![project("p1", "acme", &["main"]), project("p2", "design", &["main"])]);
    rows.apply_reconciliation(Vec::new(), State::new());
    assert_eq!(rows.projects.len(), 2);
}

#[test]
fn windows_and_their_notes_go_with_the_session() {
    let mut rows = rows_with(vec![project("p1", "acme", &["main"])]);
    let id = first_worktree(&rows).id.clone();
    let session = format!("wt-{id}");
    with_session(&mut rows, &id);

    let mut windows = Table::new();
    windows.insert(session.clone(), vec![window(&session, 0), window(&session, 1)]);
    rows.set_windows(windows);
    assert_eq!(first_worktree(&rows).windows.len(), 2);

    let mut note = Notification::new(&id, SessionStatus::Working);
    note.window = Some(1);
    note.message = Some("building".to_string());
    rows.apply_notification(&note);
    assert_eq!(first_worktree(&rows).window_notes.len(), 1);
    assert_eq!(first_worktree(&rows).window_notes[0].index, 1);

    note.message = Some("testing".to_string());
    rows.apply_notification(&note);
    assert_eq!(first_worktree(&rows).window_notes.len(), 1, "a window has one note");
    assert_eq!(
        first_worktree(&rows).window_notes[0].message.as_deref(),
        Some("testing")
    );

    let mut fewer = Table::new();
    fewer.insert(session.clone(), vec![window(&session, 0)]);
    rows.set_windows(fewer);
    assert!(first_worktree(&rows).window_notes.is_empty(), "a note goes with its window");

    rows.apply_presence(&Table::new());
    assert!(first_worktree(&rows).windows.is_empty());
    assert_eq!(first_worktree(&rows).status, None);
}

#[test]
fn a_reading_git_did_not_take_is_kept() {
    let mut rows = rows_with(vec![project("p1", "acme", &["main", "feature"])]);
    let first = rows.projects[0].worktrees[0].id.clone();
    let mut statuses = Table::new();
    statuses.insert(
        first,
        grove::model::StatusSummary {
            clean: false,
            in_operation: false,
            summary: "1 mod".to_string(),
        },
    );
    rows.apply_git_statuses("p1", &statuses);
    rows.apply_git_statuses("p1", &Table::new());
    rows.apply_git_statuses("gone", &statuses);
    let worktrees = &rows.projects[0].worktrees;
    assert_eq!(worktrees[0].git_status.as_ref().map(|s| s.summary.as_str()), Some("1 mod"));
    assert!(worktrees[1].git_status.is_none());
}

#[test]
fn forgetting_a_reading_leaves_the_row() {
    let mut rows = rows_with(vec![project("p1", "acme", &["main"])]);
    let id = first_worktree(&rows).id.clone();
    let mut statuses = Table::new();
    statuses.insert(id.clone(), report(SessionStatus::Idle));
    rows.set_statuses(statuses);
    rows.forget(&id);
    assert!(!rows.statuses.contains(&id));
    assert_eq!(rows.projects.len(), 1);
}

#[test]
fn every_change_leaves_the_rows_in_step_with_what_was_polled() {
    let mut rows = Rows::new();
    let with_session = || {
        let mut project = project("p1", "acme", &["main"]);
        project.worktrees[0].session = SessionPresence::Detached;
        project
    };
    rows.add_project(with_session());
    let id = first_worktree(&rows).id.clone();
    let mut statuses = Table::new();
    statuses.insert(id.clone(), report(SessionStatus::Working));
    rows.set_statuses(statuses);
    assert_eq!(first_worktree(&rows).status, Some(SessionStatus::Working));

    assert_eq!(rows.add_project(with_session()), "acme is already open");
    assert_eq!(rows.projects.len(), 1);
    assert_eq!(
        first_worktree(&rows).status,
        Some(SessionStatus::Working),
        "the row that was opened again shows what was polled"
    );

    rows.forget(&id);
    assert_eq!(first_worktree(&rows).status, None, "what was dropped is not shown");
}
