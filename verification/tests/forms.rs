use grove::model::Project;
use grove::ui::dialogs::create_worktree::{self, CreateForm, RefEntry};
use grove::ui::dialogs::open_project::{self, OpenProjectForm};
use grove::ui::dialogs::{open_project as prompt, problem_count, ErrorReport, OpenProject};

fn project() -> Project {
    Project {
        id: "p1".into(),
        name: "acme-web".into(),
        repository_path: "/home/u/acme-web".into(),
        git_common_dir: "/home/u/acme-web/.git".into(),
        default_worktree_path: "/home/u/worktrees".into(),
        is_expanded: true,
        worktrees: Vec::new(),
        unavailable: None,
    }
}

fn form() -> CreateForm {
    CreateForm::new(&project())
}

fn frame(browse: bool, create: bool, cancel: bool) -> create_worktree::Frame {
    create_worktree::Frame {
        source_changed: false,
        path_typed: false,
        browse,
        create,
        cancel,
    }
}

#[test]
fn a_typed_path_is_kept_and_any_other_follows_the_names() {
    let mut form = form();
    form.branch = "x".into();
    let typed = create_worktree::Frame { source_changed: true, ..frame(false, false, false) };
    assert_eq!(create_worktree::body(&mut form, typed), create_worktree::Outcome::Idle);
    assert_eq!(form.path, "/home/u/worktrees/x");
    form.path = "/elsewhere".into();
    let path = create_worktree::Frame {
        source_changed: true,
        path_typed: true,
        ..frame(false, false, false)
    };
    create_worktree::body(&mut form, path);
    assert!(form.path_edited);
    assert_eq!(form.path, "/elsewhere");
    form.refs = vec![RefEntry { name: "main".into(), is_remote: false }];
    assert!(create_worktree::base_ref_field(&mut form, 0));
    assert_eq!(form.base_ref, "main");
    assert!(!create_worktree::base_ref_field(&mut form, 1));
    create_worktree::body(&mut form, typed);
    assert_eq!(form.path, "/elsewhere");
}

#[test]
fn a_new_form_creates_a_branch_and_opens_the_session() {
    let form = form();
    assert!(form.create_branch);
    assert!(form.open_after);
    assert!(!form.is_valid(), "nothing has been typed yet");
    assert_eq!(form.problem(), Some("A branch name is required."));
}

#[test]
fn the_path_follows_the_branch_name_until_the_user_edits_it() {
    let mut form = form();
    form.branch = "feature/auth".into();
    form.sync_path();
    assert_eq!(form.path, "/home/u/worktrees/feature-auth");

    form.branch = "fix/parser".into();
    form.sync_path();
    assert_eq!(form.path, "/home/u/worktrees/fix-parser");

    form.path_edited = true;
    form.path = "/elsewhere/mine".into();
    form.branch = "feature/other".into();
    form.sync_path();
    assert_eq!(form.path, "/elsewhere/mine", "the user's path wins");
}

#[test]
fn clearing_the_branch_clears_the_suggested_path() {
    let mut form = form();
    form.branch = "x".into();
    form.sync_path();
    assert!(!form.path.is_empty());
    form.branch = "  ".into();
    form.sync_path();
    assert!(form.path.is_empty());
}

#[test]
fn checking_out_an_existing_branch_names_the_directory_after_it() {
    let mut form = form();
    form.create_branch = false;
    form.base_ref = "release-1.4".into();
    form.sync_path();
    assert_eq!(form.path, "/home/u/worktrees/release-1.4");
}

#[test]
fn a_remote_prefix_is_dropped_from_the_suggested_directory() {
    let mut form = form();
    form.refs = vec![RefEntry { name: "origin/feature/auth".into(), is_remote: true }];
    form.create_branch = false;
    form.base_ref = "origin/feature/auth".into();
    form.sync_path();
    assert_eq!(form.path, "/home/u/worktrees/feature-auth");
}

#[test]
fn a_branch_that_merely_contains_a_slash_keeps_its_first_segment() {
    let mut form = form();
    form.create_branch = false;
    form.base_ref = "feature/auth".into();
    form.sync_path();
    assert_eq!(form.path, "/home/u/worktrees/feature-auth");
}

#[test]
fn a_new_branch_becomes_dash_b_and_the_base_ref_follows_the_path() {
    let mut form = form();
    form.branch = "feature/auth".into();
    form.base_ref = "origin/main".into();
    form.sync_path();
    let add = form.to_add().expect("valid");
    assert_eq!(add.new_branch.as_deref(), Some("feature/auth"));
    assert_eq!(add.base_ref.as_deref(), Some("origin/main"));
    assert_eq!(add.path, "/home/u/worktrees/feature-auth");
}

#[test]
fn checking_out_an_existing_branch_passes_no_dash_b() {
    let mut form = form();
    form.create_branch = false;
    form.base_ref = "release-1.4".into();
    form.sync_path();
    let add = form.to_add().expect("valid");
    assert_eq!(add.new_branch, None);
    assert_eq!(add.base_ref.as_deref(), Some("release-1.4"));
}

#[test]
fn an_empty_base_ref_lets_git_default_to_head() {
    let mut form = form();
    form.branch = "x".into();
    form.sync_path();
    let add = form.to_add().expect("valid");
    assert_eq!(add.base_ref, None);
}

#[test]
fn values_are_trimmed_but_never_otherwise_rewritten() {
    let mut form = form();
    form.branch = "  feature/auth  ".into();
    form.base_ref = " origin/main ".into();
    form.path = "  /home/u/wt/a b  ".into();
    form.path_edited = true;
    let add = form.to_add().expect("valid");
    assert_eq!(add.new_branch.as_deref(), Some("feature/auth"));
    assert_eq!(add.base_ref.as_deref(), Some("origin/main"));
    assert_eq!(add.path, "/home/u/wt/a b");
}

#[test]
fn an_invalid_form_produces_no_operation_at_all() {
    let mut form = form();
    assert!(form.to_add().is_none());

    form.create_branch = false;
    assert_eq!(form.problem(), Some("Choose the branch or commit to check out."));
    assert!(form.to_add().is_none());

    form.base_ref = "main".into();
    form.path.clear();
    form.path_edited = true;
    assert_eq!(form.problem(), Some("A worktree directory is required."));
    assert!(form.to_add().is_none());
}

#[test]
fn the_branches_fill_an_empty_base_and_nothing_else() {
    let mut form = form();
    assert_eq!(create_worktree::refs_placeholder(&form), Some("loading…"));
    form.create_branch = false;
    form.refs_arrived(Vec::new(), Some("main".into()));
    assert_eq!(create_worktree::refs_placeholder(&form), Some("no branches"));
    assert_eq!(form.base_ref, "main");
    assert_eq!(form.path, "/home/u/worktrees/main");
    form.refs_arrived(
        vec![RefEntry { name: "dev".into(), is_remote: false }],
        Some("dev".into()),
    );
    assert_eq!(form.base_ref, "main", "what was chosen stays");
    assert!(form.refs_loaded);
    assert_eq!(create_worktree::refs_placeholder(&form), None);
}

#[test]
fn the_create_dialog_says_what_it_will_do() {
    let mut form = form();
    assert_eq!(create_worktree::title(&form), "Create worktree — acme-web");
    assert_eq!(create_worktree::base_caption(&form), "Base branch or commit");
    assert_eq!(create_worktree::advice(&form), "A branch name is required.");
    assert_eq!(
        create_worktree::body(&mut form, frame(true, true, false)),
        create_worktree::Outcome::Browse
    );
    form.branch = "x".into();
    form.sync_path();
    assert!(create_worktree::advice(&form).starts_with("Grove runs `git worktree add`"));
    assert!(matches!(
        create_worktree::body(&mut form, frame(true, true, false)),
        create_worktree::Outcome::Create(add) if add.path == "/home/u/worktrees/x"
    ));
    assert_eq!(
        create_worktree::body(&mut form, frame(true, true, true)),
        create_worktree::Outcome::Cancelled
    );
    form.create_branch = false;
    assert_eq!(create_worktree::base_caption(&form), "Branch or commit to check out");
}

#[test]
fn a_suggestion_has_one_slash_before_it() {
    assert_eq!(create_worktree::suggest_worktree_path("/home/u/", "a/b"), "/home/u/a-b");
    assert_eq!(create_worktree::suggest_worktree_path("", "a"), "a");
}

#[test]
fn an_empty_form_has_asked_for_no_focus_yet() {
    let form = OpenProjectForm::empty();
    assert!(form.path.is_empty());
    assert!(!form.focused, "the first frame gives the field the caret");
}

#[test]
fn a_prefilled_form_carries_the_path_and_still_wants_focus() {
    let mut form = OpenProjectForm::at("/home/u/acme".to_string());
    assert_eq!(form.path, "/home/u/acme");
    assert!(!form.focused);
    assert!(form.take_focus());
    assert!(!form.take_focus(), "focus is asked for once");
}

#[test]
fn only_a_path_that_says_something_is_opened() {
    let blank = OpenProjectForm::at("   ".to_string());
    assert_eq!(open_project::body(&blank, false, true, false), open_project::Outcome::Idle);
    assert_eq!(open_project::body(&blank, true, true, false), open_project::Outcome::Browse);
    let typed = OpenProjectForm::at(" /home/u/acme ".to_string());
    assert_eq!(
        open_project::body(&typed, true, true, false),
        open_project::Outcome::Confirmed("/home/u/acme".to_string())
    );
    assert_eq!(
        open_project::body(&typed, false, true, true),
        open_project::Outcome::Cancelled
    );
    assert_eq!(
        prompt(" /x ", true, true, true),
        OpenProject::Confirmed("/x".to_string())
    );
    assert_eq!(prompt("  ", true, false, true), OpenProject::Idle);
    assert_eq!(prompt("/x", false, false, false), OpenProject::Cancelled);
}

#[test]
fn problems_are_counted() {
    let one = ErrorReport { summary: "x".into(), detail: None };
    assert_eq!(problem_count(&vec![one.clone()]), "1 problem");
    assert_eq!(problem_count(&vec![one.clone(), one]), "2 problems");
    assert_eq!(problem_count(&Vec::new()), "0 problems");
}
