use grove::model::{AttentionReason, SessionStatus};
use grove::notify::{
    is_worktree_id, marks, notification, parse_args, parse_options, resolve, resolve_window,
    ArgsError, HookFields, NotifyArgs, Options,
};

fn args(list: &[&str]) -> Vec<String> {
    list.iter().map(|s| (*s).to_string()).collect()
}

fn payload(
    state: Option<SessionStatus>,
    summary: Option<&str>,
    session: Option<&str>,
    transcript: Option<&str>,
) -> HookFields {
    HookFields {
        state,
        summary: summary.map(str::to_string),
        agent_session: session.map(str::to_string),
        transcript: transcript.map(str::to_string),
    }
}

#[test]
fn a_reason_needs_an_attention_to_explain() {
    for state in ["done", "working", "idle"] {
        let err = parse_args(
            &args(&["--state", state, "--reason", "blocked", "--session", "a1b2c3"]),
            None,
        )
        .expect_err("a reason on a non-attention state is a usage error");
        assert!(matches!(err, ArgsError::ReasonWithoutAttention(_)));
    }
    parse_args(
        &args(&["--state", "attention", "--reason", "blocked", "--session", "a1b2c3"]),
        None,
    )
    .expect("attention carries a reason");
}

#[test]
fn a_reason_is_accepted_joined_or_separate_and_rejected_when_unknown() {
    let joined = parse_args(
        &args(&["--state=attention", "--reason=failed", "--session=a1b2c3"]),
        None,
    )
    .expect("valid");
    assert_eq!(joined.reason, Some(AttentionReason::Failed));

    let err =
        parse_args(&args(&["--state", "attention", "--reason", "sideways"]), Some("a1b2c3"))
            .expect_err("unknown reason");
    assert!(matches!(err, ArgsError::BadReason(value) if value == "sideways"));
}

#[test]
fn done_is_a_state_the_command_line_accepts() {
    let parsed = parse_args(&args(&["--state", "done"]), Some("a1b2c3")).expect("valid");
    assert_eq!(parsed.state, SessionStatus::Done);
    assert_eq!(parsed.reason, None);
}

#[test]
fn parses_a_full_command_line() {
    let parsed = parse_args(
        &args(&[
            "--state",
            "attention",
            "--reason",
            "permission",
            "--session",
            "a1b2c3",
            "--message",
            "needs permission",
            "--window",
            "2",
            "--agent-session",
            "0f3a",
            "--transcript",
            "/tmp/0f3a.jsonl",
        ]),
        None,
    )
    .expect("valid");
    assert_eq!(
        parsed,
        NotifyArgs {
            worktree_id: "a1b2c3".into(),
            state: SessionStatus::Attention,
            reason: Some(AttentionReason::Permission),
            message: Some("needs permission".into()),
            window: Some(2),
            agent_session: Some("0f3a".into()),
            transcript: Some("/tmp/0f3a.jsonl".into()),
        }
    );
}

#[test]
fn a_hook_payload_supplies_the_whole_report() {
    let payload = payload(
        Some(SessionStatus::Attention),
        Some("The agent needs permission"),
        Some("0f3a"),
        Some("/tmp/0f3a.jsonl"),
    );
    let parsed = resolve(
        parse_options(&args(&["--hook"])).expect("parses"),
        Some("a1b2c3"),
        Some(&payload),
    )
    .expect("resolves")
    .expect("a report");
    assert_eq!(parsed.state, SessionStatus::Attention);
    assert_eq!(parsed.message.as_deref(), Some("The agent needs permission"));
    assert_eq!(parsed.agent_session.as_deref(), Some("0f3a"));
    assert_eq!(parsed.transcript.as_deref(), Some("/tmp/0f3a.jsonl"));
}

#[test]
fn an_explicit_flag_beats_the_payload() {
    let payload = payload(
        Some(SessionStatus::Attention),
        Some("from the payload"),
        Some("0f3a"),
        None,
    );
    let parsed = resolve(
        parse_options(&args(&[
            "--hook",
            "--state",
            "working",
            "--message",
            "mine",
            "--agent-session",
            "ddee",
        ]))
        .expect("parses"),
        Some("a1b2c3"),
        Some(&payload),
    )
    .expect("resolves")
    .expect("a report");
    assert_eq!(parsed.state, SessionStatus::Working);
    assert_eq!(parsed.message.as_deref(), Some("mine"));
    assert_eq!(parsed.agent_session.as_deref(), Some("ddee"));
}

#[test]
fn a_hook_event_with_no_meaning_reports_nothing() {
    let payload = payload(None, None, Some("0f3a"), None);
    let resolved = resolve(
        parse_options(&args(&["--hook"])).expect("parses"),
        Some("a1b2c3"),
        Some(&payload),
    )
    .expect("resolves");
    assert_eq!(resolved, None);
}

#[test]
fn a_hook_outside_a_grove_session_reports_nothing() {
    let payload = payload(Some(SessionStatus::Done), None, None, None);
    let resolved = resolve(
        parse_options(&args(&["--hook"])).expect("parses"),
        None,
        Some(&payload),
    )
    .expect("resolves");
    assert_eq!(resolved, None);
}

#[test]
fn a_state_and_a_session_are_still_required_without_a_hook() {
    assert_eq!(
        resolve(Options::default(), Some("a1b2c3"), None),
        Err(ArgsError::MissingState)
    );
    assert_eq!(
        resolve(
            Options { state: Some(SessionStatus::Idle), ..Options::default() },
            None,
            None
        ),
        Err(ArgsError::MissingSession)
    );
}

#[test]
fn a_window_must_be_a_window_index() {
    assert_eq!(
        parse_options(&args(&["--window", "two"])),
        Err(ArgsError::BadWindow("two".into()))
    );
    assert_eq!(
        parse_options(&args(&["--window=-1"])),
        Err(ArgsError::BadWindow("-1".into()))
    );
    assert_eq!(parse_options(&args(&["--window=0"])).expect("valid").window, Some(0));
    assert_eq!(
        parse_options(&args(&["-w", " 4294967295 "])).expect("valid").window,
        Some(u32::MAX)
    );
    assert_eq!(
        parse_options(&args(&["-w", "4294967296"])),
        Err(ArgsError::BadWindow("4294967296".into()))
    );
}

#[test]
fn accepts_the_equals_spelling_and_short_flags() {
    let parsed = parse_args(
        &args(&["--state=working", "--session=a1b2c3", "--message=building"]),
        None,
    )
    .expect("valid");
    assert_eq!(parsed.state, SessionStatus::Working);
    assert_eq!(parsed.worktree_id, "a1b2c3");
    assert_eq!(parsed.message.as_deref(), Some("building"));

    let short = parse_args(&args(&["-s", "idle", "-m", "done"]), Some("a1b2c3")).expect("valid");
    assert_eq!(short.state, SessionStatus::Idle);
    assert_eq!(short.message.as_deref(), Some("done"));
}

#[test]
fn falls_back_to_the_session_environment_variable() {
    let parsed = parse_args(&args(&["--state", "idle"]), Some("a1b2c3")).expect("valid");
    assert_eq!(parsed.worktree_id, "a1b2c3");
}

#[test]
fn an_explicit_session_beats_the_environment() {
    let parsed =
        parse_args(&args(&["--state", "idle", "--session", "ddeeff"]), Some("a1b2c3"))
            .expect("valid");
    assert_eq!(parsed.worktree_id, "ddeeff");
}

#[test]
fn requires_a_state() {
    assert_eq!(
        parse_args(&args(&["--session", "a1b2c3"]), None),
        Err(ArgsError::MissingState)
    );
}

#[test]
fn requires_a_session_from_somewhere() {
    assert_eq!(parse_args(&args(&["--state", "idle"]), None), Err(ArgsError::MissingSession));
    assert_eq!(
        parse_args(&args(&["--state", "idle"]), Some("  ")),
        Err(ArgsError::MissingSession)
    );
}

#[test]
fn rejects_a_session_that_cannot_name_a_session() {
    assert_eq!(
        parse_args(&args(&["--state", "idle", "--session", "not-an-id"]), None),
        Err(ArgsError::BadSession("not-an-id".into()))
    );
    assert_eq!(
        parse_args(&args(&["--state", "idle", "--session", "wt-a1b2c3"]), None),
        Err(ArgsError::BadSession("wt-a1b2c3".into()))
    );
    assert!(is_worktree_id("a1b2c3"));
    assert!(!is_worktree_id("a1b2cg"));
    assert!(!is_worktree_id("a1b2c"));
}

#[test]
fn rejects_a_bad_state_and_unknown_options() {
    assert_eq!(
        parse_args(&args(&["--state", "busy"]), Some("a1b2c3")),
        Err(ArgsError::BadState("busy".into()))
    );
    assert_eq!(
        parse_args(&args(&["--state=busy"]), Some("a1b2c3")),
        Err(ArgsError::BadState("busy".into()))
    );
    assert_eq!(
        parse_args(&args(&["--loud"]), Some("a1b2c3")),
        Err(ArgsError::Unknown("--loud".into()))
    );
}

#[test]
fn reports_a_flag_missing_its_value() {
    assert_eq!(
        parse_args(&args(&["--state"]), Some("a1b2c3")),
        Err(ArgsError::MissingValue("--state".into()))
    );
    assert_eq!(
        parse_args(&args(&["--state", "idle", "--message"]), Some("a1b2c3")),
        Err(ArgsError::MissingValue("--message".into()))
    );
}

#[test]
fn a_message_that_looks_like_a_flag_is_still_a_message() {
    let parsed = parse_args(
        &args(&["--state", "idle", "--message", "--state=attention"]),
        Some("a1b2c3"),
    )
    .expect("valid");
    assert_eq!(parsed.state, SessionStatus::Idle);
    assert_eq!(parsed.message.as_deref(), Some("--state=attention"));
}

#[test]
fn each_usage_error_says_what_is_wrong() {
    for (error, text) in [
        (ArgsError::MissingState, "--state is required"),
        (
            ArgsError::BadState("busy".into()),
            "`busy` is not a state: expected idle, done, working or attention",
        ),
        (
            ArgsError::BadReason("x".into()),
            "`x` is not a reason: expected waiting, permission, blocked or failed",
        ),
        (
            ArgsError::ReasonWithoutAttention("done"),
            "--reason explains why the user is wanted; it needs --state attention, not `done`",
        ),
        (
            ArgsError::MissingSession,
            "no session: pass --session <id> or run inside a Grove tmux session",
        ),
        (
            ArgsError::BadSession("x".into()),
            "`x` is not a worktree id: expected 6 hex characters",
        ),
        (ArgsError::BadWindow("x".into()), "`x` is not a window index"),
        (ArgsError::MissingValue("--state".into()), "--state needs a value"),
        (ArgsError::Unknown("--x".into()), "unknown option `--x`"),
        (
            ArgsError::HookNeedsStdin,
            "--hook reads a JSON payload on stdin; it is not meant to be run by hand",
        ),
    ] {
        assert_eq!(error.message(), text);
    }
}

#[test]
fn a_report_is_sent_with_the_window_it_comes_from() {
    assert_eq!(resolve_window(Some(2), Some(5)), Some(2));
    assert_eq!(resolve_window(None, Some(5)), Some(5));
    assert_eq!(resolve_window(None, None), None);
    let parsed = parse_args(&args(&["--state", "attention"]), Some("a1b2c3")).expect("valid");
    let sent = notification(parsed, Some(5));
    assert_eq!(sent.worktree_id, "a1b2c3");
    assert_eq!(sent.window, Some(5));
    assert!(marks(SessionStatus::Attention).attention);
    assert!(!marks(SessionStatus::Attention).done);
    assert!(marks(SessionStatus::Done).done);
    assert!(!marks(SessionStatus::Working).done);
}

#[test]
fn every_name_is_read_back() {
    for state in [
        SessionStatus::Idle,
        SessionStatus::Working,
        SessionStatus::Done,
        SessionStatus::Attention,
    ] {
        assert_eq!(SessionStatus::parse(state.label()), Some(state));
    }
    for (name, reason) in [
        ("waiting", AttentionReason::WaitingInput),
        ("permission", AttentionReason::Permission),
        ("blocked", AttentionReason::Blocked),
        ("failed", AttentionReason::Failed),
    ] {
        assert_eq!(AttentionReason::parse(name), Some(reason));
    }
    assert_eq!(AttentionReason::parse("Waiting"), None);
}
