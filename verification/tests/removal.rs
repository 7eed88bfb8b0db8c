use grove::ui::dialogs::removal::{
    branch_line, show, title, Press, RemovalForm, RemovalOp, RemovalReport, Request,
};

fn form() -> RemovalForm {
    RemovalForm {
        project_id: "p1".into(),
        project_name: "acme-web".into(),
        repository_path: "/home/u/acme-web".into(),
        git_common_dir: "/home/u/acme-web/.git".into(),
        worktree_id: "a1b2c3".into(),
        worktree_label: "feature/auth".into(),
        worktree_path: "/home/u/wt/auth".into(),
        branch: Some("feature/auth".into()),
        session: Some("wt-a1b2c3".into()),
        report: Some(RemovalReport {
            findings: Vec::new(),
            can_remove_worktree: true,
            can_delete_branch: true,
        }),
        armed: None,
        force_worktree_offered: false,
        force_branch_offered: false,
        done: Vec::new(),
        refusals: Vec::new(),
    }
}

fn offered(form: &RemovalForm) -> Vec<Request> {
    form.operations().iter().map(|step| step.operation).collect()
}

#[test]
fn force_is_only_offered_after_a_refusal() {
    let mut form = form();
    assert!(!form.force_worktree_offered);
    assert!(!form.force_branch_offered);
    assert!(!offered(&form).contains(&Request::RemoveWorktree { force: true }));

    form.note_refusal(
        RemovalOp::RemoveWorktree,
        "fatal: contains modified or untracked files".into(),
    );
    assert!(form.force_worktree_offered);
    assert!(!form.force_branch_offered, "one refusal unlocks one force");
    assert_eq!(form.refusals.len(), 1);
    assert!(form.armed.is_none(), "a refusal disarms the button");
    assert!(offered(&form).contains(&Request::RemoveWorktree { force: true }));
    assert!(!offered(&form).contains(&Request::DeleteBranch { force: true }));

    form.note_refusal(RemovalOp::DeleteBranch, "error: not fully merged".into());
    assert!(form.force_branch_offered);
    assert!(offered(&form).contains(&Request::DeleteBranch { force: true }));
}

#[test]
fn closing_a_session_never_unlocks_a_force() {
    let mut form = form();
    form.note_refusal(RemovalOp::CloseSession, "no server".into());
    assert!(!form.force_worktree_offered);
    assert!(!form.force_branch_offered);
}

#[test]
fn a_completed_operation_is_not_offered_again() {
    let mut form = form();
    form.note_done(RemovalOp::CloseSession, "Closed wt-a1b2c3.".into());
    assert_eq!(form.session, None);

    form.note_done(RemovalOp::RemoveWorktree, "Removed the worktree.".into());
    assert!(!form.report.as_ref().expect("report").can_remove_worktree);
    assert!(!form.force_worktree_offered);
    assert_eq!(form.branch.as_deref(), Some("feature/auth"));

    form.note_done(RemovalOp::DeleteBranch, "Deleted feature/auth.".into());
    assert_eq!(form.branch, None);
    assert!(!form.report.as_ref().expect("report").can_delete_branch);
    assert_eq!(form.done.len(), 3, "every step stays on screen");
}

#[test]
fn confirmation_labels_say_exactly_what_will_happen() {
    assert_eq!(Request::RemoveProject.confirm_label(), "Confirm: remove from Grove only");
    assert_eq!(Request::CloseSession.confirm_label(), "Confirm: kill the tmux session");
    assert!(Request::RemoveWorktree { force: true }.confirm_label().contains("discarding"));
    assert!(Request::DeleteBranch { force: true }.confirm_label().contains("discarding"));
    assert!(!Request::RemoveWorktree { force: false }.confirm_label().contains("force"));
    assert!(!Request::RemoveProject.is_destructive());
    assert!(Request::CloseSession.is_destructive());
}

#[test]
fn nothing_is_offered_before_the_report_arrives() {
    let form = RemovalForm { report: None, ..form() };
    assert!(form.report.is_none());
    assert!(form.session.is_some());
    let enabled: Vec<Request> = form
        .operations()
        .iter()
        .filter(|step| step.enabled)
        .map(|step| step.operation)
        .collect();
    assert_eq!(enabled, vec![Request::RemoveProject, Request::CloseSession]);
}

#[test]
fn an_operation_takes_two_clicks_and_can_be_backed_out_of() {
    let mut form = form();
    let first = form.operations();
    assert_eq!(first[2].operation, Request::RemoveWorktree { force: false });
    assert_eq!(form.press(&first[2], Press::Button), None);
    assert_eq!(form.armed, Some(Request::RemoveWorktree { force: false }));

    let armed = form.operations();
    assert!(armed[2].armed);
    assert_eq!(form.press(&armed[2], Press::Cancel), None);
    assert_eq!(form.armed, None);

    let again = form.operations();
    form.press(&again[2], Press::Button);
    let confirm = form.operations();
    assert_eq!(
        form.press(&confirm[2], Press::Button),
        Some(Request::RemoveWorktree { force: false })
    );
    assert_eq!(form.armed, None);

    form.session = None;
    let closed = form.operations();
    assert!(!closed[1].enabled);
    assert_eq!(form.press(&closed[1], Press::Button), None);
    assert_eq!(form.armed, None, "a button that cannot be pressed arms nothing");
    assert_eq!(show(Some(Request::CloseSession), false), Some(Request::CloseSession));
    assert_eq!(show(Some(Request::CloseSession), true), None);
}

#[test]
fn the_removal_dialog_names_its_subject() {
    let mut form = form();
    assert_eq!(title(&form), "Remove — feature/auth");
    assert_eq!(branch_line(&form), "branch feature/auth");
    assert_eq!(form.operations()[0].label, "Remove “acme-web” from Grove");
    assert_eq!(form.operations()[3].label, "Delete the branch feature/auth");
    form.branch = None;
    assert_eq!(branch_line(&form), "no branch (detached HEAD)");
    assert_eq!(form.operations()[3].label, "Delete the branch");
}

#[test]
fn no_two_confirmations_say_the_same() {
    let requests = [
        (Request::RemoveProject, false),
        (Request::CloseSession, false),
        (Request::RemoveWorktree { force: false }, false),
        (Request::RemoveWorktree { force: true }, true),
        (Request::DeleteBranch { force: false }, false),
        (Request::DeleteBranch { force: true }, true),
    ];
    for (a, forced) in &requests {
        assert_eq!(a.confirm_label().contains("discarding"), *forced);
        assert_eq!(a.confirm_label().contains("force"), *forced);
        for (b, _) in &requests {
            assert_eq!(a.confirm_label() == b.confirm_label(), a == b);
        }
    }
}
