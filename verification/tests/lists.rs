use grove::model::{Project, SessionPresence, SessionStatus, StatusSummary, WindowInfo, Worktree};
use grove::state::AgentRecord;
use grove::ui::orphans::{
    close_label, heading, ignored_line, is_armed, offers, row, show, Choice, OrphanAction,
    OrphanSession,
};
use grove::ui::project_list::{
    entries, has_window_rows, header, level_action, matches_filter, menu, refresh_label,
    unavailable_hint, window_action, worktree_level, Entry, LevelRow, MenuEntry,
};
use grove::ui::window_edge::{self, zone_name, Zone};
use grove::ui::window_row::label;
use grove::ui::worktree_row::{
    clicked, dot, edge, hover_lines, indent, markers, menu as row_menu, menu_label, more,
    name_shade, status_color, sublabel, sublabel_warns, Accent, Dot, Edge, Marker, RowAction, Shade,
    INDENT_STEP,
};
use grove::ui::Action;

fn project() -> Project {
    Project {
        id: "p1".into(),
        name: "acme-web".into(),
        repository_path: "/home/u/acme-web".into(),
        git_common_dir: "/home/u/acme-web/.git".into(),
        default_worktree_path: "/home/u".into(),
        is_expanded: true,
        worktrees: Vec::new(),
        unavailable: None,
    }
}

fn worktree(branch: &str, path: &str) -> Worktree {
    Worktree {
        id: format!("id-{branch}"),
        project_id: "p1".into(),
        path: path.into(),
        label: branch.into(),
        branch: Some(branch.into()),
        is_locked: false,
        is_detached: false,
        is_missing: false,
        git_status: None,
        session: SessionPresence::Absent,
        session_stopped: false,
        status: None,
        status_message: None,
        attention_reason: None,
        windows: Vec::new(),
        window_notes: Vec::new(),
    }
}

fn auth() -> Worktree {
    worktree("feature/auth", "/home/u/wt/auth")
}

fn summary(clean: bool) -> StatusSummary {
    StatusSummary { clean, in_operation: false, summary: "3 mod · 1 untracked".into() }
}

fn window(index: u32) -> WindowInfo {
    WindowInfo {
        session: "wt-a1b2c3".into(),
        index,
        name: "shell".into(),
        active: index == 0,
        bell: false,
        title: None,
        activity_epoch: None,
        status: None,
    }
}

#[test]
fn a_worktree_with_one_window_stays_a_single_row() {
    let mut worktree = worktree("main", "/home/u/acme-web");
    assert!(!has_window_rows(&worktree), "no poll has landed yet");
    worktree.windows = vec![window(0)];
    assert!(!has_window_rows(&worktree), "one shell is not a level");
    worktree.windows.push(window(1));
    assert!(has_window_rows(&worktree), "a second window earns a header");
}

#[test]
fn each_level_indents_by_one_step() {
    assert_eq!(indent(0) as f32, 0.0);
    assert_eq!(indent(1), INDENT_STEP);
    assert_eq!(indent(2) as f32, 2.0 * INDENT_STEP as f32);
}

#[test]
fn an_empty_filter_matches_everything() {
    assert!(matches_filter(&project(), &auth(), ""));
}

#[test]
fn matches_branch_path_and_project_name() {
    let project = project();
    let worktree = worktree("feature/auth", "/home/u/wt/auth-work");
    assert!(matches_filter(&project, &worktree, "auth"));
    assert!(matches_filter(&project, &worktree, "wt/auth-work"));
    assert!(matches_filter(&project, &worktree, "acme"));
    assert!(!matches_filter(&project, &worktree, "parser"));
}

#[test]
fn filtering_is_case_insensitive() {
    let project = project();
    let worktree = worktree("Feature/AUTH", "/home/u/wt/Auth");
    assert!(matches_filter(&project, &worktree, "auth"));
}

#[test]
fn a_header_with_exactly_one_child_is_that_child() {
    let mut one = project();
    one.worktrees = vec![auth()];
    let mut two = project();
    two.name = "design".into();
    two.worktrees = vec![auth(), worktree("main", "/home/u/design")];
    let mut lost = project();
    lost.worktrees = vec![auth()];
    lost.unavailable = Some("gone".into());
    let projects = vec![one, two, lost];
    assert_eq!(
        entries(&projects, ""),
        vec![
            Entry::Single { project: 0, worktree: 0 },
            Entry::Header { project: 1, worktrees: vec![0, 1] },
            Entry::Header { project: 2, worktrees: vec![0] },
        ]
    );
    assert_eq!(
        entries(&projects, " MAIN "),
        vec![Entry::Header { project: 1, worktrees: vec![1] }]
    );
    assert!(entries(&projects, "parser").is_empty());
    assert_eq!(refresh_label(&projects[0]), "Refresh");
    assert_eq!(refresh_label(&projects[2]), "Retry");
    assert!(unavailable_hint("gone").starts_with("Project unavailable — gone\n"));
}

#[test]
fn a_click_on_a_window_row_opens_that_window() {
    let project = "p1".to_string();
    let tree = "a1b2c3".to_string();
    assert_eq!(
        window_action(RowAction::Activate, &project, &tree, 2),
        Some(Action::ActivateWindow {
            project_id: "p1".into(),
            worktree_id: "a1b2c3".into(),
            window_index: 2,
        })
    );
    assert_eq!(
        window_action(RowAction::Remove, &project, &tree, 2),
        Some(Action::RemoveWorktree { project_id: "p1".into(), worktree_id: "a1b2c3".into() })
    );
    assert_eq!(window_action(RowAction::Fold, &project, &tree, 2), None);
    assert_eq!(
        RowAction::Refresh.into_action(&project, &tree),
        Some(Action::RefreshProject("p1".into()))
    );
    assert_eq!(label(&window(3)), "3: shell");
}

#[test]
fn only_working_and_attention_colour_the_row() {
    let mut worktree = auth();
    worktree.session = SessionPresence::Detached;

    worktree.status = Some(SessionStatus::Attention);
    assert_eq!(status_color(&worktree), Some(Accent::Attention));
    assert_eq!(dot(&worktree), Dot::Bang);

    worktree.status = Some(SessionStatus::Working);
    assert_eq!(status_color(&worktree), Some(Accent::Working));
    assert_eq!(dot(&worktree), Dot::Working);

    worktree.status = Some(SessionStatus::Idle);
    assert_eq!(status_color(&worktree), None, "idle is the resting state");
    assert_eq!(dot(&worktree), Dot::Idle);

    worktree.status = None;
    assert_eq!(status_color(&worktree), None);
    worktree.session = SessionPresence::Attached;
    assert_eq!(dot(&worktree), Dot::Attached);
}

#[test]
fn a_worktree_with_no_session_is_never_coloured_by_status() {
    let mut worktree = auth();
    worktree.session = SessionPresence::Absent;
    worktree.status = Some(SessionStatus::Attention);
    assert_eq!(status_color(&worktree), None);
    assert_eq!(dot(&worktree), Dot::Hollow);
}

#[test]
fn an_agents_message_leads_the_tooltip() {
    let mut worktree = auth();
    worktree.session = SessionPresence::Detached;
    worktree.status_message = Some("needs permission to run tests".into());
    worktree.git_status = Some(summary(true));
    assert_eq!(
        hover_lines(&worktree).first().map(String::as_str),
        Some("needs permission to run tests")
    );
}

#[test]
fn a_message_without_a_session_is_not_shown() {
    let mut worktree = auth();
    worktree.session = SessionPresence::Absent;
    worktree.status_message = Some("stale".into());
    assert!(!hover_lines(&worktree).iter().any(|l| l == "stale"));
}

#[test]
fn a_clean_worktree_has_no_markers() {
    let mut worktree = auth();
    worktree.git_status = Some(summary(true));
    assert!(markers(&worktree).is_empty());
}

#[test]
fn an_unread_status_shows_no_dirty_marker() {
    assert!(markers(&auth()).is_empty());
}

#[test]
fn locked_detached_and_dirty_each_get_a_marker() {
    let mut worktree = auth();
    worktree.is_locked = true;
    worktree.is_detached = true;
    worktree.git_status = Some(summary(false));
    let hints: Vec<&str> = markers(&worktree).iter().into_iter().map(Marker::hint).collect();
    assert_eq!(hints, vec!["locked", "detached HEAD", "uncommitted changes"]);
    assert_eq!(
        hover_lines(&worktree),
        vec!["3 mod · 1 untracked", "locked", "detached HEAD", "uncommitted changes"]
    );
}

#[test]
fn an_operation_in_progress_colours_the_sublabel() {
    let mut worktree = auth();
    assert!(!sublabel_warns(&worktree));
    worktree.git_status =
        Some(StatusSummary { clean: true, in_operation: true, summary: "merging".into() });
    assert!(sublabel_warns(&worktree));
}

#[test]
fn the_sublabel_carries_the_status_the_session_and_the_path() {
    let mut worktree = auth();
    worktree.git_status = Some(summary(false));
    assert_eq!(
        sublabel(&worktree, Some("/home/u")),
        "3 mod · 1 untracked · no session · ~/wt/auth"
    );
    worktree.session_stopped = true;
    assert_eq!(
        sublabel(&worktree, None),
        "3 mod · 1 untracked · session stopped · /home/u/wt/auth"
    );
    worktree.git_status = None;
    worktree.session = SessionPresence::Attached;
    assert_eq!(sublabel(&worktree, Some("/home")), "attached · ~/u/wt/auth");
    assert_eq!(
        sublabel(&worktree, Some("/home/u/w")),
        "attached · /home/u/wt/auth",
        "only a whole directory is written short"
    );
    assert_eq!(sublabel(&worktree, Some("/home/u/wt/auth")), "attached · ~");
}

#[test]
fn a_rows_menu_means_what_it_says() {
    assert_eq!(clicked(true), RowAction::Fold);
    assert_eq!(clicked(false), RowAction::Activate);
    let entries: Vec<_> =
        (0..7).map(|place| (menu_label(place), row_menu(place))).collect();
    assert_eq!(
        entries,
        vec![
            (Some("Open or switch to session"), Some(RowAction::Activate)),
            (Some("Open in a new terminal"), Some(RowAction::OpenInNewTerminal)),
            (Some("Copy worktree path"), Some(RowAction::Select)),
            (Some("Start agent"), Some(RowAction::StartAgent)),
            (Some("Refresh"), Some(RowAction::Refresh)),
            (Some("Remove…"), Some(RowAction::Remove)),
            (None, None),
        ]
    );
    let record = |session: &str, transcript: &str| AgentRecord {
        worktree_id: "w".into(),
        session_id: session.into(),
        transcript_path: transcript.into(),
    };
    assert_eq!(more(true, None), vec![RowAction::OpenNewWindow]);
    assert_eq!(
        more(true, Some(&record("0f3a", "/t.jsonl"))),
        vec![
            RowAction::OpenNewWindow,
            RowAction::ResumeAgent,
            RowAction::OpenAgentTranscript,
        ]
    );
    assert_eq!(
        more(false, Some(&record("0f3a", "/t.jsonl"))),
        vec![RowAction::OpenNewWindow, RowAction::OpenAgentTranscript]
    );
    assert_eq!(more(true, Some(&record("", ""))), vec![RowAction::OpenNewWindow]);
    let (project_id, id) = ("p1".to_string(), "w".to_string());
    assert_eq!(
        RowAction::SetSlot(Some(3)).into_action(&project_id, &id),
        Some(Action::SetWorktreeSlot { worktree_id: "w".into(), slot: Some(3) })
    );
    assert_eq!(
        RowAction::OpenAgentTranscript.into_action(&project_id, &id),
        Some(Action::OpenAgentTranscript { worktree_id: "w".into() })
    );
}

#[test]
fn markers_fit_inline_and_stay_ordered() {
    let mut worktree = auth();
    worktree.is_locked = true;
    worktree.git_status = Some(summary(false));
    let list: Vec<Marker> = markers(&worktree).iter();
    assert_eq!(list, vec![Marker::Locked, Marker::Dirty]);
    assert!(Marker::Dirty.is_warning() && !Marker::Locked.is_warning());
    let mut full = markers(&worktree);
    full.push(Marker::Detached);
    let three = full.iter();
    full.push(Marker::Dirty);
    assert_eq!(full.iter(), three, "a fourth mark has no place");
}

#[test]
fn an_orphan_is_offered_to_worktrees_without_a_session() {
    let mut project = project();
    let mut live = worktree("live", "/a");
    live.session = SessionPresence::Attached;
    let mut missing = worktree("missing", "/b");
    missing.is_missing = true;
    project.worktrees = vec![live, missing, auth()];
    let offered = offers(&vec![project]);
    assert_eq!(offered.len(), 1);
    assert_eq!(offered[0].worktree_id, "id-feature/auth");
    assert_eq!(offered[0].label, "acme-web · feature/auth");
}

#[test]
fn the_orphan_section_says_how_many_there_are() {
    assert_eq!(heading(0, 0), None);
    assert_eq!(heading(1, 0).as_deref(), Some("1 orphaned session"));
    assert_eq!(heading(0, 2).as_deref(), Some("0 orphaned sessions"));
    assert_eq!(ignored_line(0), None);
    assert_eq!(ignored_line(2).as_deref(), Some("2 ignored"));
    let orphan = OrphanSession { name: "scratch".into(), detail: String::new() };
    assert!(is_armed(&orphan, Some("scratch")));
    assert!(!is_armed(&orphan, Some("other")));
    assert!(!is_armed(&orphan, None));
    assert_eq!(close_label(&orphan, false), "Close session…");
    assert_eq!(close_label(&orphan, true), "Confirm: close scratch");
}

#[test]
fn a_worktree_is_a_row_or_a_header_over_its_windows() {
    let mut worktree = auth();
    let row = |window, header, selected, depth| LevelRow { window, header, selected, depth };
    assert_eq!(
        worktree_level(&worktree, Some("id-feature/auth"), None, 1),
        vec![row(None, false, true, 1)]
    );
    assert_eq!(
        worktree_level(&worktree, Some("other"), None, 0),
        vec![row(None, false, false, 0)]
    );
    worktree.windows = vec![window(0), window(3)];
    assert_eq!(
        worktree_level(&worktree, Some("id-feature/auth"), Some(("id-feature/auth", 3)), 1),
        vec![
            row(None, true, false, 1),
            row(Some(0), false, false, 2),
            row(Some(1), false, true, 2),
        ]
    );
    let (project_id, id) = ("p1".to_string(), "w".to_string());
    let open = Action::ActivateWindow {
        project_id: "p1".into(),
        worktree_id: "w".into(),
        window_index: 3,
    };
    assert_eq!(
        level_action(Some(RowAction::Remove), Some((3, RowAction::Activate)), &project_id, &id),
        Some(open)
    );
    assert_eq!(
        level_action(Some(RowAction::Refresh), None, &project_id, &id),
        Some(Action::RefreshProject("p1".into()))
    );
    assert_eq!(level_action(Some(RowAction::Fold), None, &project_id, &id), None);
}

#[test]
fn a_projects_menu_offers_what_can_be_done() {
    let mut project = project();
    assert_eq!(
        menu(&project),
        vec![
            MenuEntry::Refresh,
            MenuEntry::CreateWorktree,
            MenuEntry::CopyPath,
            MenuEntry::Remove,
        ]
    );
    project.unavailable = Some("gone".into());
    assert_eq!(menu(&project)[0], MenuEntry::Locate);
    assert_eq!(header(&project, true, None), Some(Action::ToggleProject("p1".into())));
    assert_eq!(header(&project, false, Some(MenuEntry::CopyPath)), None);
    for (entry, action) in [
        (MenuEntry::Locate, Action::LocateProject("p1".into())),
        (MenuEntry::Refresh, Action::RefreshProject("p1".into())),
        (MenuEntry::CreateWorktree, Action::CreateWorktree("p1".into())),
        (MenuEntry::Remove, Action::RemoveProject("p1".into())),
    ] {
        assert_eq!(header(&project, true, Some(entry)), Some(action));
    }
}

#[test]
fn a_rows_status_shows_before_its_selection() {
    let mut worktree = auth();
    assert_eq!(edge(&worktree, false, false), None);
    assert_eq!(edge(&worktree, false, true), Some(Edge::Hovered));
    assert_eq!(edge(&worktree, true, true), Some(Edge::Selected));
    assert_eq!(name_shade(&worktree, false), Shade::Muted);
    worktree.session = SessionPresence::Detached;
    worktree.status = Some(SessionStatus::Working);
    assert_eq!(edge(&worktree, true, true), Some(Edge::Status(Accent::Working)));
    assert_eq!(name_shade(&worktree, false), Shade::Dim);
    assert_eq!(name_shade(&worktree, true), Shade::Strong);
}

#[test]
fn every_zone_has_its_own_name() {
    let zones = [
        Zone::North,
        Zone::South,
        Zone::East,
        Zone::West,
        Zone::NorthEast,
        Zone::NorthWest,
        Zone::SouthEast,
        Zone::SouthWest,
    ];
    let mut names: Vec<&str> = zones.iter().map(|zone| zone_name(*zone)).collect();
    assert_eq!(names[0], "n");
    names.sort();
    names.dedup();
    assert_eq!(names.len(), 8);
    assert_eq!(window_edge::show(false, true, false, true), (true, true));
    assert_eq!(window_edge::show(true, true, true, true), (false, false));
}

#[test]
fn an_orphan_is_adopted_by_a_free_worktree_only() {
    let mut project = project();
    let mut busy = worktree("main", "/home/u/acme-web");
    busy.session = SessionPresence::Attached;
    let mut gone = worktree("gone", "/home/u/gone");
    gone.is_missing = true;
    project.worktrees = vec![busy, gone, auth()];
    let free = offers(&vec![project]);
    assert_eq!(free.len(), 1);
    let orphan = OrphanSession { name: "scratch".into(), detail: String::new() };
    assert_eq!(
        row(&orphan, &free, Choice::Associate(0)),
        Some(OrphanAction::Associate {
            session: "scratch".into(),
            project_id: "p1".into(),
            worktree_id: "id-feature/auth".into(),
        })
    );
    assert_eq!(row(&orphan, &free, Choice::Associate(1)), None);
    let orphans = vec![orphan];
    assert_eq!(
        show(&orphans, 0, &free, Some((0, Choice::Open)), true),
        Some(OrphanAction::Open("scratch".into()))
    );
    assert_eq!(
        show(&orphans, 2, &free, Some((0, Choice::Open)), true),
        Some(OrphanAction::ShowIgnored)
    );
    assert_eq!(
        show(&orphans, 0, &free, Some((0, Choice::Close)), false),
        Some(OrphanAction::Close("scratch".into()))
    );
    assert_eq!(
        show(&orphans, 0, &free, Some((0, Choice::Ignore)), false),
        Some(OrphanAction::Ignore("scratch".into()))
    );
    assert_eq!(show(&orphans, 0, &free, Some((1, Choice::Open)), false), None);
}
