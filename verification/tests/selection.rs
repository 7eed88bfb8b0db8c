use grove::app::pressed_digit;
use grove::app::selection::{next_selection, visible_rows, Selection};
use grove::model::{Project, SessionPresence, Worktree};

fn project(id: &str, name: &str, branches: &[&str]) -> Project {
    Project {
        id: id.to_string(),
        name: name.to_string(),
        repository_path: format!("/home/u/{name}"),
        git_common_dir: format!("/home/u/{name}/.git"),
        default_worktree_path: "/home/u".to_string(),
        is_expanded: true,
        worktrees: branches
            .iter()
            .enumerate()
            .map(|(place, branch)| Worktree {
                id: format!("{id}-{place}"),
                project_id: id.to_string(),
                path: format!("/home/u/wt/{name}-{branch}"),
                label: (*branch).to_string(),
                branch: Some((*branch).to_string()),
                is_locked: false,
                is_detached: false,
                is_missing: false,
                git_status: None,
                session: SessionPresence::Absent,
                session_stopped: false,
                status: None,
                status_message: None,
                attention_reason: None,
                windows: Vec::new(),
                window_notes: Vec::new(),
            })
            .collect(),
        unavailable: None,
    }
}

fn ids(rows: &[(String, String)]) -> Vec<String> {
    rows.iter().map(|(_, w)| w.clone()).collect()
}

fn only(digit: usize) -> [bool; 9] {
    let mut pressed = [false; 9];
    pressed[digit - 1] = true;
    pressed
}

#[test]
fn alt_and_a_digit_is_what_assigns_a_number() {
    assert_eq!(pressed_digit(true, only(3)), Some(3));
    assert_eq!(pressed_digit(true, only(9)), Some(9));
    assert_eq!(pressed_digit(false, only(3)), None);
    assert_eq!(pressed_digit(true, [false; 9]), None);
}

#[test]
fn visible_rows_follow_the_list_order_across_projects() {
    let projects = vec![
        project("p1", "acme", &["main", "feature"]),
        project("p2", "design", &["main"]),
    ];
    let rows = visible_rows(&projects, "");
    assert_eq!(rows.len(), 3);
    assert_eq!(rows[0].0, "p1");
    assert_eq!(rows[2].0, "p2");
}

#[test]
fn a_collapsed_project_is_not_walkable() {
    let mut projects = vec![
        project("p1", "acme", &["main", "feature"]),
        project("p2", "design", &["main"]),
    ];
    projects[0].is_expanded = false;
    let rows = visible_rows(&projects, "");
    assert_eq!(rows.len(), 1);
    assert_eq!(rows[0].0, "p2");
}

#[test]
fn the_filter_narrows_what_the_keyboard_walks() {
    let projects = vec![project("p1", "acme", &["main", "feature/auth"])];
    let rows = visible_rows(&projects, "auth");
    assert_eq!(rows.len(), 1);
    assert_eq!(rows[0].1, projects[0].worktrees[1].id);
    assert_eq!(visible_rows(&projects, "  AUTH ").len(), 1);
}

#[test]
fn selection_moves_one_row_at_a_time_and_stops_at_the_ends() {
    let projects = vec![project("p1", "acme", &["a", "b", "c"])];
    let rows = visible_rows(&projects, "");
    let all = ids(&rows);
    assert_eq!(next_selection(&rows, Some(&all[0]), 1).as_ref(), Some(&all[1]));
    assert_eq!(next_selection(&rows, Some(&all[1]), -1).as_ref(), Some(&all[0]));
    assert_eq!(next_selection(&rows, Some(&all[0]), -1).as_ref(), Some(&all[0]));
    assert_eq!(next_selection(&rows, Some(&all[2]), 1).as_ref(), Some(&all[2]));
    assert_eq!(next_selection(&rows, Some(&all[1]), isize::MAX).as_ref(), Some(&all[2]));
    assert_eq!(next_selection(&rows, Some(&all[1]), isize::MIN).as_ref(), Some(&all[0]));
}

#[test]
fn with_nothing_selected_down_starts_at_the_top_and_up_at_the_bottom() {
    let projects = vec![project("p1", "acme", &["a", "b", "c"])];
    let rows = visible_rows(&projects, "");
    let all = ids(&rows);
    assert_eq!(next_selection(&rows, None, 1).as_ref(), Some(&all[0]));
    assert_eq!(next_selection(&rows, None, -1).as_ref(), Some(&all[2]));
}

#[test]
fn a_selection_that_is_no_longer_visible_restarts_from_the_edge() {
    let projects = vec![project("p1", "acme", &["a", "b"])];
    let rows = visible_rows(&projects, "");
    let all = ids(&rows);
    assert_eq!(next_selection(&rows, Some("gone"), 1).as_ref(), Some(&all[0]));
}

#[test]
fn an_empty_list_selects_nothing() {
    assert_eq!(next_selection(&Vec::new(), None, 1), None);
    assert_eq!(next_selection(&Vec::new(), Some("a1b2c3"), -1), None);
    assert!(visible_rows(&Vec::new(), "").is_empty());
}

#[test]
fn a_window_highlight_does_not_outlive_its_own_worktree() {
    let mut selection = Selection::new();
    selection.select_window("a1b2c3".to_string(), 2);
    assert_eq!(selection.worktree(), Some("a1b2c3"));
    assert_eq!(selection.window(), Some(("a1b2c3", 2)));

    selection.select("a1b2c3".to_string());
    assert_eq!(selection.window(), Some(("a1b2c3", 2)));

    selection.select("d4e5f6".to_string());
    assert_eq!(selection.worktree(), Some("d4e5f6"));
    assert_eq!(selection.window(), None);
}

#[test]
fn moving_off_a_worktree_drops_its_window_highlight() {
    let projects = vec![project("p1", "acme", &["a", "b"])];
    let first = projects[0].worktrees[0].id.clone();
    let mut selection = Selection::new();
    selection.select_window(first, 1);

    selection.move_by(&projects, 1);
    assert_eq!(selection.worktree(), Some(projects[0].worktrees[1].id.as_str()));
    assert_eq!(selection.window(), None);
}

#[test]
fn the_context_project_is_the_selected_row_then_the_only_project() {
    let projects = vec![project("p1", "acme", &["a"])];
    let selection = Selection::new();
    assert_eq!(selection.context_project(&projects), Some("p1".to_string()));

    let two = vec![project("p1", "acme", &["a"]), project("p2", "design", &["a"])];
    assert_eq!(Selection::new().context_project(&two), None);

    let mut selection = Selection::new();
    selection.select(two[1].worktrees[0].id.clone());
    assert_eq!(selection.context_project(&two), Some("p2".to_string()));
}

#[test]
fn a_row_the_filter_hides_is_not_the_selected_row() {
    let projects = vec![project("p1", "acme", &["main", "feature/auth"])];
    let mut selection = Selection::new();
    selection.select(projects[0].worktrees[0].id.clone());
    assert!(selection.row(&projects).is_some());

    selection.filter = "auth".to_string();
    assert!(selection.row(&projects).is_none());
}
