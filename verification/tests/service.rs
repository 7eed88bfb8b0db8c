use grove::app::rows::ProjectStatus;
use grove::model::{SessionPresence, SessionStatus, Worktree};
use grove::notices::Notification;
use grove::protocol::{EventKind, Request, Response, MAX_REQUEST_ID_LEN};
use grove::service::control::{
    close_session, close_session_result, control, find_session, open_orphan_result,
    open_orphan_session, reconciled_projects, recorded_refs, resolve_worktree, resume_completed,
    resume_recorded, resume_wanted, run_control, session_record, status_get, stop_server,
    stop_server_result, ControlDone, ControlWork, ResumePlan, ResumeRecordedResult, SessionNote,
};
use grove::service::events::{
    serve_subscription, unsubscribe, EventHub, SubscribeParams, Subscription, SUBSCRIBER_QUEUE,
};
use grove::service::idempotency::{complete, Admission};
use grove::service::mutations::{
    api_result, mutate_state, readable, reconcile_state, record_live_sessions, sessions_changed,
    PassDone, PassError, StateChange,
};
use grove::service::params::{
    CloseSessionParams, ControlParams, CreateWorktreeParams, DeleteBranchParams, OpenOrphanParams,
    OpenProjectParams, ProjectExpandedParams, RemoveWorktreeParams, ResumeRecordedParams,
    SlotAssignParams, StopServerParams, WorktreeAdd,
};
use grove::service::projects::{
    assign_slot, clear_slot, create_worktree, create_worktree_result, delete_branch,
    delete_branch_result, ignore_session, inspect_removal_result, known_project, named_target,
    open_project, open_project_completed, project_refs_result, project_statuses_result,
    refresh_project_result, remove_project, remove_worktree, remove_worktree_result,
    set_project_expanded, valid_identity, Mutation, OpenError, ProjectOpened,
};
use grove::service::queue::{
    agent_record, is_legacy, take_client, Command, Service, Step, GUI_LAUNCH_GRACE, MAX_CLIENTS,
};
use grove::service::{dispatch_api, run, Method, Route, ServeCommand};
use grove::state::{ProjectRecord, SessionRecord, State};
use grove::table::Table;
use serde_json::Value;

const VERSION: u32 = 1;

fn json(text: &str) -> Value {
    serde_json::from_str(text).expect("valid JSON")
}

fn request_for(id: &str, method: &str, params: &str) -> Request {
    Request {
        protocol: VERSION,
        id: id.to_string(),
        method: method.to_string(),
        params: json(params),
    }
}

fn request(method: &str) -> Request {
    request_for(&format!("{method}-test"), method, "null")
}

fn error_code(response: &Response) -> &str {
    assert!(!response.ok, "expected an error response: {response:?}");
    &response.error.as_ref().expect("error response").code
}

fn error_text(response: &Response) -> &str {
    &response.error.as_ref().expect("error response").message
}

fn answer(route: Route) -> Response {
    match route {
        Route::Answer(response) => response,
        Route::Run(method) => panic!("{method:?} was to be run"),
    }
}

fn refusal(admission: Admission) -> Response {
    match admission {
        Admission::Answer(response) => response,
        Admission::Run(_) => panic!("the request was admitted"),
    }
}

fn too_long() -> String {
    "x".repeat(MAX_REQUEST_ID_LEN + 1)
}

fn on(worktree_id: &str) -> ControlParams {
    ControlParams {
        worktree_id: worktree_id.to_string(),
        idempotency_key: None,
        resume: None,
        window_index: None,
        orphan_session: None,
    }
}

fn project() -> ProjectRecord {
    ProjectRecord {
        id: "project-1".into(),
        name: "Grove".into(),
        repository_path: "/r/repository".into(),
        git_common_dir: "/r/repository/.git".into(),
        default_worktree_path: "/r/worktrees".into(),
        is_expanded: true,
    }
}

fn worktree(id: &str, session: SessionPresence) -> Worktree {
    Worktree {
        id: id.into(),
        project_id: "project-1".into(),
        path: format!("/wt/{id}"),
        label: id.into(),
        branch: None,
        is_locked: false,
        is_detached: false,
        is_missing: false,
        git_status: None,
        session,
        session_stopped: false,
        status: None,
        status_message: None,
        attention_reason: None,
        windows: Vec::new(),
        window_notes: Vec::new(),
    }
}

#[test]
fn notifications_queue_by_worktree_and_latest_wins() {
    let mut service = Service::new();
    service.keep(Notification::new("abc123", SessionStatus::Working));
    service.keep(Notification::new("abc123", SessionStatus::Idle));
    assert_eq!(service.pending_notifications.len(), 1);
    assert_eq!(
        service.pending_notifications.get("abc123").map(|n| n.state),
        Some(SessionStatus::Idle)
    );
}

#[test]
fn a_gui_ready_flushes_queued_notifications() {
    let mut service = Service::new();
    service.keep(Notification::new("abc123", SessionStatus::Attention));
    let Step::Flush { notifications, slot } = service.handle(Command::GuiReady) else {
        panic!("expected a flush");
    };
    assert_eq!(notifications.len(), 1);
    assert_eq!(slot, None);
    let sent = notifications.into_iter().map(|n| (n, true)).collect();
    service.flushed(sent, true);
    assert!(service.pending_notifications.is_empty());
}

#[test]
fn what_does_not_arrive_waits_on() {
    let mut service = Service::new();
    assert_eq!(service.handle(Command::Ping), Step::Nothing);
    assert_eq!(
        service.handle(Command::Toggle { slot: Some(3) }),
        Step::Forward { slot: Some(3) }
    );
    let second = 1_000_000_000;
    assert!(service.toggle_missed(Some(3), 10 * second), "the window is started");
    service.launched(10 * second);
    assert!(!service.toggle_missed(Some(4), 12 * second), "it was started a moment ago");
    assert!(service.toggle_missed(Some(4), 10 * second + GUI_LAUNCH_GRACE));
    let report = Notification::new("abc123", SessionStatus::Done);
    assert_eq!(
        service.handle(Command::Notify(report.clone())),
        Step::Publish(report.clone())
    );
    service.keep(report.clone());
    let Step::Flush { notifications, slot } = service.handle(Command::GuiReady) else {
        panic!("expected a flush");
    };
    assert_eq!(slot, Some(4));
    assert_eq!(service.gui_launching_since, None);
    service.flushed(notifications.into_iter().map(|n| (n, false)).collect(), false);
    assert!(service.pending_notifications.contains("abc123"));
    assert_eq!(service.pending_slot, Some(4));
}

#[test]
fn an_agent_is_remembered_by_what_it_reports() {
    let mut report = Notification::new("abc123", SessionStatus::Working);
    assert_eq!(agent_record(&report), None);
    report.agent_session = Some("conversation-1".into());
    let record = agent_record(&report).expect("a record");
    assert_eq!(record.session_id, "conversation-1");
    assert_eq!(record.transcript_path, "");
    report.transcript = Some("/tmp/conversation-1.jsonl".into());
    assert_eq!(
        agent_record(&report).expect("a record").transcript_path,
        "/tmp/conversation-1.jsonl"
    );
}

#[test]
fn api_dispatch_reports_versions_and_unknown_methods() {
    let ping = answer(dispatch_api(&request_for("one", "ping", "{}"), VERSION, "1.2.3"));
    assert!(ping.ok);
    let result = ping.result.expect("result");
    assert_eq!(result["protocol"], Value::from(VERSION));
    assert_eq!(result["service_version"], Value::from("1.2.3"));

    let unknown = answer(dispatch_api(&request_for("two", "missing", "{}"), VERSION, "1"));
    assert_eq!(error_code(&unknown), "method_not_found");
    assert_eq!(error_text(&unknown), "unknown service method `missing`");

    let invalid = answer(dispatch_api(
        &request_for("params", "ping", r#"{"unexpected": true}"#),
        VERSION,
        "1",
    ));
    assert_eq!(error_code(&invalid), "invalid_params");
    assert_eq!(error_text(&invalid), "`ping` does not accept parameters");

    let mut future = request_for("three", "ping", "{}");
    future.protocol = VERSION + 1;
    let unsupported = answer(dispatch_api(&future, VERSION, "1"));
    assert_eq!(error_code(&unsupported), "unsupported_protocol");
    assert_eq!(
        error_text(&unsupported),
        "protocol 2 is unsupported; this service speaks 1"
    );
    assert_eq!(unsupported.id, "three");
}

#[test]
fn read_only_api_methods_treat_absent_state_and_tmux_as_empty() {
    for (method, expected) in [
        ("state.get", Method::StateGet),
        ("project.list", Method::ProjectList),
        ("worktree.list", Method::WorktreeList),
        ("session.list", Method::SessionList),
        ("session.snapshot", Method::SessionSnapshot),
        ("status.poll", Method::StatusPoll),
    ] {
        for params in ["null", "{}"] {
            let route = dispatch_api(&request_for("r", method, params), VERSION, "1");
            assert!(matches!(route, Route::Run(found) if found == expected), "{method}");
        }
        assert_eq!(expected.name(), method);
        assert_eq!(Method::named(method), Some(expected));
    }
    let response = api_result(&request("session.list"), Ok(json("[]")));
    assert_eq!(response.result, Some(json("[]")));
    let failed = api_result(&request("session.list"), Err("no server".into()));
    assert_eq!(error_code(&failed), "internal_error");
}

#[test]
fn state_mutations_are_atomic_idempotent_and_publish_only_real_changes() {
    let mut events = EventHub::new();
    let (subscription, baseline) = events.subscribe(vec![EventKind::StateChanged], false);
    assert_eq!(baseline, 0);

    let state = json(r#"{"project": [{"id": "project-1"}]}"#);
    let first = mutate_state(
        &request("state.mutate"),
        Ok(StateChange { changed: true, state: state.clone() }),
        &Ok(()),
        &mut events,
    );
    let first_result = first.result.expect("mutation result");
    assert_eq!(first_result["changed"], Value::from(true));
    assert_eq!(first_result["state"]["project"][0]["id"], Value::from("project-1"));

    let event = events.next_event(&subscription).expect("state change event");
    assert_eq!(event.kind, EventKind::StateChanged);
    assert_eq!(event.revision, 1);
    assert_eq!(event.payload["state"]["project"][0]["id"], Value::from("project-1"));

    let duplicate = mutate_state(
        &request("state.mutate"),
        Ok(StateChange { changed: false, state }),
        &Ok(()),
        &mut events,
    );
    assert_eq!(
        duplicate.result.expect("mutation result")["changed"],
        Value::from(false)
    );
    assert_eq!(events.next_event(&subscription), None);
}

#[test]
fn a_failed_write_is_answered_without_an_event() {
    let mut events = EventHub::new();
    let (subscription, _) = events.subscribe(vec![EventKind::StateChanged], false);
    let unwritten = mutate_state(
        &request("state.mutate"),
        Ok(StateChange { changed: true, state: json("{}") }),
        &Err("read-only".into()),
        &mut events,
    );
    assert_eq!(error_code(&unwritten), "state_write_failed");
    let unread = mutate_state(
        &request("state.mutate"),
        Err("corrupt".into()),
        &Ok(()),
        &mut events,
    );
    assert_eq!(error_code(&unread), "state_read_failed");
    assert_eq!(events.next_event(&subscription), None);
    assert_eq!(events.revision, 0);
}

#[test]
fn dedicated_index_intents_validate_and_return_authoritative_state() {
    let unreadable = || Err::<ProjectExpandedParams, String>("missing field".into());
    for refused in [
        set_project_expanded(&request("project.expanded.set"), unreadable()),
        set_project_expanded(
            &request("project.expanded.set"),
            Ok(ProjectExpandedParams { project_id: String::new(), expanded: true }),
        ),
        remove_project(&request("project.remove"), Ok("line\nbreak".into())),
        assign_slot(
            &request("slot.assign"),
            Ok(SlotAssignParams { number: 0, worktree_id: "abc123".into() }),
        ),
        assign_slot(
            &request("slot.assign"),
            Ok(SlotAssignParams { number: 10, worktree_id: "abc123".into() }),
        ),
        assign_slot(
            &request("slot.assign"),
            Ok(SlotAssignParams { number: 1, worktree_id: String::new() }),
        ),
        clear_slot(&request("slot.clear"), Ok(String::new())),
        ignore_session(&request("session.ignore"), Ok(String::new())),
    ] {
        assert_eq!(error_code(&refused.expect_err("refused")), "invalid_params");
    }

    assert_eq!(
        set_project_expanded(
            &request("project.expanded.set"),
            Ok(ProjectExpandedParams { project_id: "project-1".into(), expanded: false }),
        ),
        Ok(Mutation::SetProjectExpanded { project_id: "project-1".into(), expanded: false })
    );
    assert_eq!(
        assign_slot(
            &request("slot.assign"),
            Ok(SlotAssignParams { number: 2, worktree_id: "abc123".into() }),
        ),
        Ok(Mutation::AssignSlot { number: 2, worktree_id: "abc123".into() })
    );
    assert_eq!(
        ignore_session(&request("session.ignore"), Ok("scratch".into())),
        Ok(Mutation::IgnoreSession { session_name: "scratch".into() })
    );
    assert_eq!(
        clear_slot(&request("slot.clear"), Ok("abc123".into())),
        Ok(Mutation::ClearSlot { worktree_id: "abc123".into() })
    );
    assert_eq!(
        remove_project(&request("project.remove"), Ok("project-1".into())),
        Ok(Mutation::RemoveProject { project_id: "project-1".into() })
    );
    assert!(valid_identity("a b") && !valid_identity("") && !valid_identity("a\u{7f}"));
}

#[test]
fn malformed_mutations_and_unsubscriptions_are_rejected() {
    let mut events = EventHub::new();
    let malformed = unsubscribe(
        &request("event.unsubscribe"),
        Err("unknown field `wrong`".into()),
        &mut events,
    );
    assert_eq!(error_code(&malformed), "invalid_params");

    let (id, _) = events.subscribe(vec![EventKind::StateChanged], false);
    let removed = unsubscribe(&request("event.unsubscribe"), Ok(id), &mut events);
    assert_eq!(
        removed.result.expect("unsubscribe result")["unsubscribed"],
        Value::from(true)
    );
    let absent =
        unsubscribe(&request("event.unsubscribe"), Ok("already-absent".into()), &mut events);
    assert_eq!(
        absent.result.expect("unsubscribe result")["unsubscribed"],
        Value::from(false)
    );
}

#[test]
fn control_requests_reject_ambiguous_identifiers_before_side_effects() {
    let kept = Table::new();
    let ensure = request("session.ensure");
    let key = |key: &str| ControlParams { idempotency_key: Some(key.into()), ..on("abc123") };
    for params in [
        Err("missing field `worktree_id`".to_string()),
        Ok(on("")),
        Ok(on("line\nbreak")),
        Ok(key("")),
        Ok(key("line\nbreak")),
        Ok(key(&too_long())),
        Ok(ControlParams { resume: Some("conversation".into()), ..on("abc123") }),
        Ok(ControlParams { window_index: Some(7), ..on("abc123") }),
        Ok(ControlParams { orphan_session: Some("scratch".into()), ..on("abc123") }),
        Err("unknown field `unexpected`".to_string()),
    ] {
        assert_eq!(error_code(&refusal(control(&ensure, &params, &kept))), "invalid_params");
    }

    for resume in [String::new(), "line\nbreak".to_string(), too_long()] {
        let params = Ok(ControlParams { resume: Some(resume), ..on("abc123") });
        let response = refusal(control(&request("agent.start"), &params, &kept));
        assert_eq!(error_code(&response), "invalid_params");
        assert_eq!(error_text(&response), "resume must be 1-128 printable bytes");
    }

    let missing_window =
        refusal(control(&request("session.window.open"), &Ok(on("abc123")), &kept));
    assert_eq!(error_code(&missing_window), "invalid_params");

    let orphan = |name: &str| ControlParams { orphan_session: Some(name.into()), ..on("abc123") };
    for params in [
        Ok(on("abc123")),
        Ok(orphan("")),
        Ok(orphan("line\nbreak")),
        Ok(orphan(&too_long())),
    ] {
        let response = refusal(control(&request("session.associate"), &params, &kept));
        assert_eq!(error_code(&response), "invalid_params");
    }

    assert!(matches!(control(&ensure, &Ok(on("abc123")), &kept), Admission::Run(None)));
    let mut events = EventHub::new();
    let mut kept = Table::new();
    let unknown = resolve_worktree(&Vec::new(), "abc123").expect_err("unknown");
    let failed = complete(
        &ensure,
        Some(("worktree_id", "abc123")),
        None,
        Err(unknown),
        &mut kept,
        &mut events,
    );
    assert_eq!(error_code(&failed), "control_failed");
    assert_eq!(error_text(&failed), "unknown worktree `abc123`");
}

#[test]
fn closing_sessions_rejects_ambiguous_identifiers_before_side_effects() {
    let kept = Table::new();
    for (session, key) in [
        ("", "close-1"),
        ("line\nbreak", "close-1"),
        (too_long().as_str(), "close-1"),
        ("scratch", ""),
        ("scratch", "line\nbreak"),
        ("scratch", too_long().as_str()),
    ] {
        let closing = close_session(
            &request("session.close"),
            &Ok(CloseSessionParams { session: session.into(), idempotency_key: key.into() }),
            &kept,
        );
        assert_eq!(error_code(&refusal(closing)), "invalid_params");
        let opening = open_orphan_session(
            &request("session.orphan.open"),
            &Ok(OpenOrphanParams { session: session.into(), idempotency_key: key.into() }),
            &kept,
        );
        assert_eq!(error_code(&refusal(opening)), "invalid_params");
    }
    let unreadable = Err("unknown field `unexpected`".to_string());
    assert_eq!(
        error_text(&refusal(close_session(&request("session.close"), &unreadable, &kept))),
        "unknown field `unexpected`"
    );
    let longest = "x".repeat(MAX_REQUEST_ID_LEN);
    let admitted = close_session(
        &request("session.close"),
        &Ok(CloseSessionParams { session: longest.clone(), idempotency_key: "k".into() }),
        &kept,
    );
    assert!(
        matches!(admitted, Admission::Run(Some(key)) if key == format!("session.close:{longest}:k"))
    );
    assert_eq!(find_session(&vec!["a".into(), "b".into()], "b"), Ok(1));
    assert_eq!(
        find_session(&vec!["a".into()], "b"),
        Err("unknown session `b`".to_string())
    );
    assert_eq!(close_session_result("b"), json(r#"{"session": "b"}"#));
    assert_eq!(
        open_orphan_result("b", json("1")),
        json(r#"{"session": "b", "activation": 1}"#)
    );
}

#[test]
fn a_retry_is_answered_as_before_and_a_failure_is_tried_again() {
    let mut kept = Table::new();
    let mut events = EventHub::new();
    let (subscription, _) = events.subscribe(vec![EventKind::ControlCompleted], false);
    let params = Ok(StopServerParams { idempotency_key: "stop-1".into() });
    let first = request("server.stop");
    let Admission::Run(key) = stop_server(&first, &params, &kept) else {
        panic!("the first try is carried out");
    };
    let failed = complete(&first, None, key, Err("busy".into()), &mut kept, &mut events);
    assert_eq!(error_code(&failed), "control_failed");
    assert_eq!(events.next_event(&subscription), None);

    let Admission::Run(key) = stop_server(&first, &params, &kept) else {
        panic!("a failure is not kept");
    };
    let done = complete(
        &first,
        None,
        key,
        Ok(stop_server_result()),
        &mut kept,
        &mut events,
    );
    assert_eq!(done.result, Some(json(r#"{"stopped": true}"#)));
    let event = events.next_event(&subscription).expect("an event");
    assert_eq!(
        event.payload,
        json(r#"{"method": "server.stop", "result": {"stopped": true}}"#)
    );

    let retry = request_for("server-stop-retry", "server.stop", "null");
    let replay = refusal(stop_server(&retry, &params, &kept));
    assert!(replay.ok);
    assert_eq!(replay.result, done.result);
    assert_eq!(replay.id, "server-stop-retry");
    let other = Ok(StopServerParams { idempotency_key: "stop-2".into() });
    assert!(matches!(stop_server(&retry, &other, &kept), Admission::Run(Some(_))));
}

#[test]
fn a_control_answer_is_kept_under_all_its_parameters() {
    let kept = Table::new();
    let params = ControlParams {
        idempotency_key: Some("k".into()),
        resume: Some("a\"b".into()),
        ..on("abc123")
    };
    let Admission::Run(Some(key)) = control(&request("agent.start"), &Ok(params), &kept) else {
        panic!("admitted");
    };
    assert_eq!(key, "agent.start:abc123:Some(\"a\\\"b\"):None:None:k");
    let params = ControlParams {
        idempotency_key: Some("k".into()),
        window_index: Some(7),
        ..on("abc123")
    };
    let Admission::Run(Some(key)) = control(&request("session.window.open"), &Ok(params), &kept)
    else {
        panic!("admitted");
    };
    assert_eq!(key, "session.window.open:abc123:None:Some(7):None:k");
}

#[test]
fn each_control_method_comes_to_its_own_work() {
    let work = |method: &str, resume: Option<&str>, window, orphan: Option<&str>| {
        run_control(
            method,
            &Ok(()),
            &resume.map(str::to_string),
            window,
            &orphan.map(str::to_string),
        )
    };
    assert_eq!(work("session.ensure", None, None, None), Ok(ControlWork::Ensure));
    assert_eq!(work("session.open", None, None, None), Ok(ControlWork::Open));
    assert_eq!(
        work("session.window.open", None, Some(3), None),
        Ok(ControlWork::OpenWindow(3))
    );
    assert_eq!(
        work("session.associate", None, None, Some("s")),
        Ok(ControlWork::Associate("s".into()))
    );
    assert_eq!(
        work("agent.start", Some("c"), None, None),
        Ok(ControlWork::StartAgent(Some("c".into())))
    );
    assert_eq!(
        work("session.window.open", None, None, None),
        Err("session.window.open requires window_index".to_string())
    );
    assert_eq!(
        work("session.associate", None, None, None),
        Err("session.associate requires orphan_session".to_string())
    );
    assert_eq!(
        work("session.dance", None, None, None),
        Err("unknown control method `session.dance`".to_string())
    );
    assert_eq!(
        run_control("session.open", &Err("unknown worktree `x`".into()), &None, None, &None),
        Err("unknown worktree `x`".to_string())
    );
}

#[test]
fn the_work_is_answered_and_remembered() {
    let (note, value) =
        ControlDone::Ensured { session: "wt-abc123".into(), created: true }.conclude("abc123");
    assert_eq!(note, SessionNote::Record("wt-abc123".into()));
    assert_eq!(
        value,
        json(r#"{"worktree_id": "abc123", "session": "wt-abc123", "created": true}"#)
    );
    let (note, value) = ControlDone::Closed.conclude("abc123");
    assert_eq!(note, SessionNote::Forget);
    assert_eq!(value, json(r#"{"worktree_id": "abc123", "session": "wt-abc123"}"#));
    let (note, value) =
        ControlDone::AttentionCleared { cleared: json("true") }.conclude("abc123");
    assert_eq!(note, SessionNote::Leave);
    assert_eq!(value["cleared"], Value::from(true));
    let (_, value) = ControlDone::WindowOpened {
        session: "wt-abc123".into(),
        index: 4,
        activation: json("{}"),
    }
    .conclude("abc123");
    assert_eq!(value["window_index"], Value::from(4));
    let record = session_record("p1", "abc123", "/wt", "wt-abc123", 99);
    assert_eq!(record.session_name, "wt-abc123");
    assert_eq!(record.last_activity_at, 99);
}

#[test]
fn a_worktree_is_found_in_the_first_project_that_has_it() {
    let listings = vec![
        None,
        Some(vec!["a".to_string()]),
        Some(vec!["b".to_string(), "c".to_string()]),
        Some(vec!["c".to_string()]),
    ];
    assert_eq!(resolve_worktree(&listings, "c"), Ok((2, 1)));
    assert_eq!(resolve_worktree(&listings, "a"), Ok((1, 0)));
    assert_eq!(
        resolve_worktree(&listings, "d"),
        Err("unknown worktree `d`".to_string())
    );
}

#[test]
fn worktree_creation_validates_intent() {
    let kept = Table::new();
    let add = |path: &str, branch: Option<&str>, base: Option<&str>| WorktreeAdd {
        path: path.into(),
        new_branch: branch.map(str::to_string),
        base_ref: base.map(str::to_string),
    };
    let params = |project: &str, add: WorktreeAdd, key: &str| {
        Ok(CreateWorktreeParams {
            project_id: project.into(),
            add,
            idempotency_key: key.into(),
        })
    };
    for (refused, message) in [
        (
            params("", add("/tmp/tree", None, None), "add-1"),
            "project_id and worktree path must be non-empty printable values",
        ),
        (
            params("project-1", add("", None, None), "add-1"),
            "project_id and worktree path must be non-empty printable values",
        ),
        (
            params("project-1", add("/tmp/tree", Some(""), None), "add-1"),
            "branch and base ref must be 1-1024 printable bytes when present",
        ),
        (
            params("project-1", add("/tmp/tree", None, Some("line\nbreak")), "add-1"),
            "branch and base ref must be 1-1024 printable bytes when present",
        ),
        (
            params("project-1", add("/tmp/tree", None, None), ""),
            "idempotency_key must be 1-128 printable bytes",
        ),
    ] {
        let response = refusal(create_worktree(&request("worktree.create"), &refused, &kept));
        assert_eq!(error_code(&response), "invalid_params");
        assert_eq!(error_text(&response), message);
    }
    let admitted = create_worktree(
        &request("worktree.create"),
        &params("project-1", add("/tmp/tree", Some("x"), None), "add-1"),
        &kept,
    );
    assert!(
        matches!(admitted, Admission::Run(Some(key)) if key == "worktree.create:project-1:add-1")
    );
    assert_eq!(
        create_worktree_result("project-1", json("\"/t\""), json("[]")),
        json(r#"{"project_id": "project-1", "path": "/t", "worktrees": []}"#)
    );
}

#[test]
fn a_forced_removal_is_another_request_than_a_plain_one() {
    let kept = Table::new();
    let remove = |id: &str, force, key: &str| {
        remove_worktree(
            &request("worktree.remove"),
            &Ok(RemoveWorktreeParams {
                worktree_id: id.into(),
                force,
                idempotency_key: key.into(),
            }),
            &kept,
        )
    };
    assert_eq!(error_code(&refusal(remove("", false, "k"))), "invalid_params");
    assert_eq!(error_code(&refusal(remove("a", false, ""))), "invalid_params");
    assert!(
        matches!(remove("a", false, "k"), Admission::Run(Some(key)) if key == "worktree.remove:a:false:k")
    );
    assert!(
        matches!(remove("a", true, "k"), Admission::Run(Some(key)) if key == "worktree.remove:a:true:k")
    );
    let delete = |project: &str, branch: &str, force| {
        delete_branch(
            &request("branch.delete"),
            &Ok(DeleteBranchParams {
                project_id: project.into(),
                branch: branch.into(),
                force,
                idempotency_key: "k".into(),
            }),
            &kept,
        )
    };
    assert_eq!(
        error_text(&refusal(delete("p", &"x".repeat(1025), false))),
        "project_id and branch must be non-empty printable values"
    );
    assert!(
        matches!(delete("p", "b", true), Admission::Run(Some(key)) if key == "branch.delete:p:b:true:k")
    );
    assert_eq!(
        remove_worktree_result("p", "a", json("\"/t\""), json("[]")),
        json(r#"{"project_id": "p", "worktree_id": "a", "path": "/t", "worktrees": []}"#)
    );
    assert_eq!(
        delete_branch_result("p", "b", json("[]")),
        json(r#"{"project_id": "p", "branch": "b", "worktrees": []}"#)
    );
}

#[test]
fn opening_a_project_is_validated_published_and_kept() {
    let mut kept = Table::new();
    let mut events = EventHub::new();
    let params = |path: &str, key: &str| {
        Ok(OpenProjectParams { path: path.into(), idempotency_key: key.into() })
    };
    for refused in [
        params("", "open-1"),
        params("/tmp/project", ""),
        params("/tmp/project", "line\nbreak"),
        params("/tmp/project", &too_long()),
    ] {
        let response = refusal(open_project(&request("project.open"), &refused, &kept));
        assert_eq!(error_code(&response), "invalid_params");
    }
    let wanted = params("/tmp/project", "open-1");
    let Admission::Run(Some(key)) = open_project(&request("project.open"), &wanted, &kept) else {
        panic!("admitted");
    };
    assert_eq!(key, "project.open:/tmp/project:open-1");
    for (error, code) in [
        (OpenError::Open("x".into()), "control_failed"),
        (OpenError::Read("x".into()), "state_read_failed"),
        (OpenError::Write("x".into()), "state_write_failed"),
    ] {
        let failed = open_project_completed(
            &request("project.open"),
            key.clone(),
            Err(error),
            &mut kept,
            &mut events,
        );
        assert_eq!(error_code(&failed), code);
        assert!(kept.is_empty());
    }
    let opened = open_project_completed(
        &request("project.open"),
        key,
        Ok(ProjectOpened {
            project: json(r#"{"id": "project-1"}"#),
            change: StateChange { changed: true, state: json("{}") },
        }),
        &mut kept,
        &mut events,
    );
    assert_eq!(
        opened.result,
        Some(json(r#"{"changed": true, "project": {"id": "project-1"}, "state": {}}"#))
    );
    assert_eq!(events.revision, 1);
    let replay = refusal(open_project(
        &request_for("open-retry", "project.open", "null"),
        &wanted,
        &kept,
    ));
    assert_eq!(replay.result, opened.result);
    assert_eq!(replay.id, "open-retry");
}

#[test]
fn a_read_names_a_project_that_is_known() {
    for value in [Ok(String::new()), Ok("line\nbreak".to_string()), Err("bad".to_string())] {
        let refused = named_target(&request("project.refs"), "project_id", value);
        assert_eq!(error_code(&refused.expect_err("refused")), "invalid_params");
    }
    assert_eq!(
        named_target(&request("project.refs"), "project_id", Ok("p".into())),
        Ok("p".to_string())
    );
    let mut state = State::new();
    state.projects.push(project());
    assert_eq!(known_project(&state, "project-1"), Ok(0));
    assert_eq!(
        known_project(&state, "gone"),
        Err("unknown project `gone`".to_string())
    );
    assert_eq!(
        project_refs_result("p", json("[]"), json("null")),
        json(r#"{"project_id": "p", "refs": [], "current": null}"#)
    );
    assert_eq!(
        inspect_removal_result("p", "w", json("{}")),
        json(r#"{"project_id": "p", "worktree_id": "w", "report": {}}"#)
    );
    assert_eq!(
        project_statuses_result("p", json("{}")),
        json(r#"{"project_id": "p", "statuses": {}}"#)
    );
    assert_eq!(
        refresh_project_result("p", json("[]"), json("{}")),
        json(r#"{"project_id": "p", "worktrees": [], "statuses": {}}"#)
    );
}

#[test]
fn recorded_agent_resumption_validates_and_deduplicates_a_gui_launch() {
    let mut kept = Table::new();
    let params = |key: &str| Ok(ResumeRecordedParams { idempotency_key: key.into() });
    let resume = request("agent.resume_recorded");
    for refused in [
        Err("missing field `idempotency_key`".to_string()),
        params(""),
        params("line\nbreak"),
        params(&too_long()),
    ] {
        assert_eq!(
            error_code(&refusal(resume_recorded(&resume, &refused, &kept))),
            "invalid_params"
        );
    }
    let Admission::Run(Some(key)) = resume_recorded(&resume, &params("launch-1"), &kept) else {
        panic!("admitted");
    };
    let first =
        resume_completed(&resume, key, Ok(ResumeRecordedResult::new()), &mut kept);
    let result = first.result.expect("resume result");
    assert_eq!(result["worktree_ids"], json("[]"));
    assert_eq!(result["failures"], json("[]"));

    let mut again = request("agent.resume_recorded");
    again.id = "resume-retry".into();
    let replay = refusal(resume_recorded(&again, &params("launch-1"), &kept));
    assert!(replay.ok);
    assert_eq!(replay.id, "resume-retry");

    let Admission::Run(Some(key)) = resume_recorded(&resume, &params("launch-2"), &kept) else {
        panic!("admitted");
    };
    let failed = resume_completed(&resume, key, Err("corrupt state".into()), &mut kept);
    assert_eq!(error_code(&failed), "resume_failed");
    assert_eq!(kept.len(), 1);
}

#[test]
fn every_conversation_is_resumed_or_accounted_for() {
    let plan = |id: &str| ResumePlan {
        worktree_id: id.into(),
        worktree_path: format!("/wt/{id}"),
        session_id: "c".into(),
    };
    let mut result = ResumeRecordedResult::new();
    result.note(&plan("a"), &Ok(()), &Ok(()));
    result.note(&plan("b"), &Err("no command".into()), &Ok(()));
    result.note(&plan("c"), &Ok(()), &Err("read-only".into()));
    assert_eq!(
        result.to_value(),
        json(
            r#"{
                "worktree_ids": ["a", "c"],
                "failures": [
                    {"worktree_path": "/wt/b", "message": "no command"},
                    {
                        "worktree_path": "/wt/c",
                        "message": "agent resumed, but its session could not be indexed: read-only"
                    }
                ]
            }"#
        )
    );
    let mut state = State::new();
    assert!(!resume_wanted(true, &state));
    state.agents.push(grove::state::AgentRecord {
        worktree_id: "a".into(),
        session_id: "c".into(),
        transcript_path: String::new(),
    });
    assert!(resume_wanted(true, &state));
    assert!(!resume_wanted(false, &state));
    state.projects.push(project());
    assert_eq!(recorded_refs(&state)[0].git_common_dir, "/r/repository/.git");
    let status = |id: &str| ProjectStatus {
        id: id.into(),
        name: "renamed".into(),
        unavailable: None,
        worktrees: Vec::new(),
    };
    let projects = reconciled_projects(vec![status("gone"), status("project-1")], &state);
    assert_eq!(projects.len(), 1);
    assert_eq!(projects[0].name, "renamed");
    assert_eq!(projects[0].repository_path, "/r/repository");
}

#[test]
fn subscription_handshake_rejects_every_ambiguous_shape() {
    let mut events = EventHub::new();
    let state_changed = |client: Option<&str>| {
        Ok(SubscribeParams {
            topics: vec![EventKind::StateChanged],
            client: client.map(str::to_string),
        })
    };
    let mut future = request("event.subscribe");
    future.protocol += 1;
    let Subscription::Refused(refused) =
        serve_subscription(&future, VERSION, state_changed(None), &mut events)
    else {
        panic!("refused");
    };
    assert_eq!(error_code(&refused), "unsupported_protocol");

    for params in [
        Err("missing field `topics`".to_string()),
        Ok(SubscribeParams { topics: Vec::new(), client: None }),
        state_changed(Some("remote")),
        Err("unknown variant `unknown`".to_string()),
        Err("unknown field `unexpected`".to_string()),
    ] {
        let Subscription::Refused(refused) =
            serve_subscription(&request("event.subscribe"), VERSION, params, &mut events)
        else {
            panic!("refused");
        };
        assert_eq!(error_code(&refused), "invalid_params");
    }
    assert!(events.subscribers.is_empty());

    let non_streaming = answer(dispatch_api(
        &request_for("s", "event.subscribe", r#"{"topics": ["state_changed"]}"#),
        VERSION,
        "1",
    ));
    assert_eq!(error_code(&non_streaming), "invalid_subscription");
}

#[test]
fn a_subscription_acknowledges_its_baseline_before_ordered_events() {
    let mut events = EventHub::new();
    let Subscription::Opened(id, acknowledgement) = serve_subscription(
        &request("event.subscribe"),
        VERSION,
        Ok(SubscribeParams {
            topics: vec![EventKind::StateChanged],
            client: Some("gui".into()),
        }),
        &mut events,
    ) else {
        panic!("opened");
    };
    assert_eq!(id, "sub-1");
    let result = acknowledgement.result.expect("subscription metadata");
    assert_eq!(result["revision"], Value::from(0));
    assert_eq!(result["subscription_id"], Value::from("sub-1"));

    let ignored = events.publish(EventKind::NotificationReceived, json("{}"));
    assert!(!ignored.delivered);
    let delivered = events.publish(EventKind::StateChanged, json(r#"{"sequence": 1}"#));
    assert!(delivered.delivered);
    assert!(delivered.delivered_to_gui);
    let event = events.next_event(&id).expect("ordered event");
    assert_eq!(event.revision, 2);
    assert_eq!(event.kind, EventKind::StateChanged);
    assert_eq!(event.payload["sequence"], Value::from(1));

    events.hang_up(&id);
    events.publish(EventKind::StateChanged, json(r#"{"sequence": 2}"#));
    assert!(!events.unsubscribe(&id), "disconnect removes the subscription");
}

#[test]
fn reconciliation_publishes_one_coherent_completion_snapshot() {
    let mut events = EventHub::new();
    let (id, _) = events.subscribe(
        vec![EventKind::StateChanged, EventKind::ReconciliationCompleted],
        false,
    );
    let reconcile = request("state.reconcile");
    let response = reconcile_state(
        &reconcile,
        Ok(PassDone {
            reconciliation: json(r#"{"projects": [], "orphans": []}"#),
            state: json(r#"{"version": 1}"#),
            state_changed: false,
        }),
        &mut events,
    );
    let result = response.result.expect("reconciliation result");
    assert_eq!(result["reconciliation"]["projects"], json("[]"));
    assert_eq!(result["reconciliation"]["orphans"], json("[]"));
    assert_eq!(result["state"]["version"], Value::from(1));

    let event = events.next_event(&id).expect("reconciliation event");
    assert_eq!(event.kind, EventKind::ReconciliationCompleted);
    assert_eq!(event.revision, 1);
    assert_eq!(event.payload["reconciliation"], result["reconciliation"]);
    assert_eq!(event.payload["state"], result["state"]);
    assert_eq!(events.next_event(&id), None);

    reconcile_state(
        &reconcile,
        Ok(PassDone { reconciliation: json("{}"), state: json("{}"), state_changed: true }),
        &mut events,
    );
    let changed = events.next_event(&id).expect("state first");
    assert_eq!(changed.kind, EventKind::StateChanged);
    let completed = events.next_event(&id).expect("then the pass");
    assert_eq!(completed.kind, EventKind::ReconciliationCompleted);
    for (error, code) in [
        (PassError::Read("x".into()), "state_read_failed"),
        (PassError::Pass("x".into()), "reconcile_failed"),
        (PassError::Write("x".into()), "state_write_failed"),
    ] {
        let failed = reconcile_state(&reconcile, Err(error), &mut events);
        assert_eq!(error_code(&failed), code);
    }
    assert_eq!(events.revision, 3);
}

#[test]
fn only_running_sessions_are_recorded_and_activity_is_no_change() {
    let status = ProjectStatus {
        id: "project-1".into(),
        name: "Grove".into(),
        unavailable: None,
        worktrees: vec![
            worktree("a", SessionPresence::Absent),
            worktree("b", SessionPresence::Detached),
        ],
    };
    let records = record_live_sessions(&vec![status], 7);
    assert_eq!(
        records,
        vec![SessionRecord {
            worktree_id: "b".into(),
            project_id: "project-1".into(),
            worktree_path: "/wt/b".into(),
            session_name: "wt-b".into(),
            last_activity_at: 7,
        }]
    );
    let later = vec![session_record("project-1", "b", "/wt/b", "wt-b", 9)];
    assert!(!sessions_changed(&records, &later));
    let moved = vec![session_record("project-1", "b", "/elsewhere", "wt-b", 7)];
    assert!(sessions_changed(&records, &moved));
    assert!(sessions_changed(&records, &Vec::new()));
}

#[test]
fn status_queries_never_turn_bad_ids_into_stopped_sessions() {
    let query = request("status.get");
    for params in [
        Err("missing field `worktree_id`".to_string()),
        Err("unknown field `unexpected`".to_string()),
    ] {
        let refused = named_target(&query, "worktree_id", params).expect_err("refused");
        assert_eq!(error_code(&refused), "invalid_params");
    }
    let found = resolve_worktree(&Vec::new(), "abc123").map(|_| ());
    let unknown = status_get(&query, "abc123", &found, None);
    assert_eq!(error_code(&unknown), "internal_error");
    assert!(error_text(&unknown).contains("unknown worktree `abc123`"));
    assert_eq!(
        status_get(&query, "abc123", &Ok(()), None).result,
        Some(json(r#"{"worktree_id": "abc123", "status": "stopped"}"#))
    );
    assert_eq!(
        status_get(&query, "abc123", &Ok(()), Some(json("\"idle\""))).result,
        Some(json(r#"{"worktree_id": "abc123", "status": "idle"}"#))
    );
}

#[test]
fn a_slow_subscriber_is_dropped_without_blocking_publishers() {
    let mut events = EventHub::new();
    let (id, _) = events.subscribe(vec![EventKind::StateChanged], false);
    for revision in 0..SUBSCRIBER_QUEUE {
        let outcome = events.publish(EventKind::StateChanged, Value::from(revision as u64));
        assert!(outcome.delivered);
    }
    let overflow = events.publish(EventKind::StateChanged, json(r#"{"n": "overflow"}"#));
    assert!(!overflow.delivered);
    assert!(!events.unsubscribe(&id), "the full subscriber was already isolated");
}

#[test]
fn only_a_gui_subscription_replaces_legacy_notification_delivery() {
    let mut events = EventHub::new();
    let (observer, _) = events.subscribe(vec![EventKind::NotificationReceived], false);
    let observed = events.publish(EventKind::NotificationReceived, json("{}"));
    assert!(observed.delivered);
    assert!(!observed.delivered_to_gui);
    assert!(Service::forward_wanted(observed));
    events.hang_up(&observer);

    events.subscribe(vec![EventKind::NotificationReceived], true);
    let delivered = events.publish(EventKind::NotificationReceived, json("{}"));
    assert!(delivered.delivered_to_gui);
    assert!(!Service::forward_wanted(delivered));
}

#[test]
fn the_service_command_takes_no_argument() {
    let strings =
        |values: &[&str]| values.iter().map(|v| v.to_string()).collect::<Vec<String>>();
    assert_eq!(run(&Vec::new()), ServeCommand::Serve);
    assert_eq!(run(&strings(&["now", "--help"])), ServeCommand::Help);
    assert_eq!(run(&strings(&["now"])), ServeCommand::Unexpected("now".into()));
    assert_eq!(take_client(0), Some(1));
    assert_eq!(take_client(MAX_CLIENTS), None);
    assert!(is_legacy(b'g'));
    assert!(!is_legacy(0));
}

#[test]
fn answers_are_kept_apart_by_their_session() {
    let mut kept = Table::new();
    let mut events = EventHub::new();
    let params = |session: &str, key: &str| {
        Ok(CloseSessionParams { session: session.into(), idempotency_key: key.into() })
    };
    let close = request("session.close");
    let Admission::Run(key) = close_session(&close, &params("a", "b"), &kept) else {
        panic!("admitted");
    };
    complete(
        &close,
        Some(("session", "a")),
        key,
        Ok(close_session_result("a")),
        &mut kept,
        &mut events,
    );
    assert!(matches!(
        close_session(&close, &params("b", "a"), &kept),
        Admission::Run(Some(_))
    ));
    let open = open_orphan_session(
        &request("session.orphan.open"),
        &Ok(OpenOrphanParams { session: "a".into(), idempotency_key: "b".into() }),
        &kept,
    );
    assert!(matches!(open, Admission::Run(Some(_))));
    assert!(refusal(close_session(&close, &params("a", "b"), &kept)).ok);
}

#[test]
fn a_subscription_has_an_id_of_its_own() {
    let mut events = EventHub::new();
    let (first, _) = events.subscribe(vec![EventKind::StateChanged], false);
    events.publish(EventKind::StateChanged, json("1"));
    assert!(events.unsubscribe(&first));
    let (second, told) = events.subscribe(vec![EventKind::StateChanged], false);
    assert_ne!(first, second);
    assert_eq!(told, 1);
    assert_eq!(events.next_event(&second), None, "what came before is not told");
    events.publish(EventKind::StateChanged, json("2"));
    assert_eq!(events.next_event(&second).map(|event| event.revision), Some(2));
    assert!(!events.unsubscribe(&first));
}

#[test]
fn a_request_that_cannot_be_read_is_refused() {
    assert_eq!(readable(&request("state.mutate"), Ok(7)), Ok(7));
    let refused = readable::<u8>(&request("state.mutate"), Err("missing field".into()));
    let refused = refused.expect_err("refused");
    assert_eq!(error_code(&refused), "invalid_params");
    assert_eq!(error_text(&refused), "missing field");
}
