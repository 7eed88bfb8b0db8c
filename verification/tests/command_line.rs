use grove::cli::{part, Part};
use grove::control::{
    call, idempotency_key, mutate, request_id, response_error, response_result, run,
    service_is_starting, usage_error, wait_events, wait_options, wait_status, wait_step,
    ConnectFailure, ControlCommand, WaitError, WaitStep, DEFAULT_WAIT_TIMEOUT, RETRY_PAUSE,
    START_GRACE, WAIT_CADENCE,
};
use grove::protocol::{Response, ResponseError};
use serde_json::Value;

fn strings(values: &[&str]) -> Vec<String> {
    values.iter().map(|value| (*value).to_string()).collect()
}

fn json(text: &str) -> Value {
    serde_json::from_str(text).expect("valid JSON")
}

#[test]
fn idempotency_keys_accept_only_the_exact_optional_pair() {
    assert_eq!(idempotency_key(&Vec::new()).expect("optional"), None);
    assert_eq!(
        idempotency_key(&strings(&["--idempotency-key", "launch-1"])).expect("explicit key"),
        Some("launch-1".into())
    );
    for args in [
        strings(&["--idempotency-key"]),
        strings(&["--idempotency-key", "a", "b"]),
        strings(&["--other", "a"]),
    ] {
        assert!(idempotency_key(&args).is_err(), "{args:?}");
    }
}

#[test]
fn wait_options_are_order_independent_strict_and_case_insensitive() {
    assert_eq!(
        wait_options(&strings(&["--status", "ATTENTION", "--timeout", "7"])).expect("options"),
        ("attention".into(), 7)
    );
    assert_eq!(
        wait_options(&strings(&["--timeout", "2", "--status", "idle"])).expect("reordered"),
        ("idle".into(), 2)
    );
    assert_eq!(
        wait_options(&strings(&["--status", "working"])).expect("default timeout").1,
        DEFAULT_WAIT_TIMEOUT
    );
    assert_eq!(DEFAULT_WAIT_TIMEOUT, 300);
    assert_eq!(
        wait_options(&strings(&["--status", "done"])).expect("done is waitable").0,
        "done"
    );
    for args in [
        Vec::new(),
        strings(&["--status"]),
        strings(&["--status", "unknown"]),
        strings(&["--timeout"]),
        strings(&["--timeout", "not-a-number", "--status", "idle"]),
        strings(&["--status", "idle", "--extra"]),
    ] {
        assert!(wait_options(&args).is_err(), "{args:?}");
    }
}

#[test]
fn each_wait_error_says_what_is_wrong() {
    let missing = wait_options(&Vec::new()).expect_err("no status");
    assert_eq!(missing, WaitError::MissingStatus);
    assert_eq!(
        missing.message(),
        "wait requires `--status <working|idle|done|attention|stopped>`"
    );
    let unknown = wait_options(&strings(&["--status", "Busy"])).expect_err("unknown");
    assert_eq!(unknown.message(), "unknown Grove status `busy`");
    let timeout =
        wait_options(&strings(&["--timeout", "soon", "--status", "idle"])).expect_err("timeout");
    assert_eq!(timeout, WaitError::BadTimeout("soon".into()));
    assert_eq!(
        timeout.message(),
        "soon".parse::<u64>().expect_err("not a number").to_string()
    );
    let usage = wait_options(&strings(&["--extra"])).expect_err("usage");
    assert!(usage.message().starts_with("unknown control command `--extra`"));
}

#[test]
fn response_decoding_rejects_every_ambiguous_shape() {
    let value = json(r#"{"status": "idle"}"#);
    assert_eq!(
        response_result("status.get", Response::success("ok", value.clone())).expect("success"),
        value
    );

    let rejection = response_result(
        "status.get",
        Response::error("rejected", "unknown_worktree", "not indexed"),
    )
    .expect_err("rejection");
    assert!(rejection.contains("unknown_worktree: not indexed"));

    for response in [
        Response { id: "bad".into(), ok: true, result: None, error: None },
        Response { id: "bad".into(), ok: false, result: Some(json("{}")), error: None },
        Response {
            id: "bad".into(),
            ok: true,
            result: Some(json("{}")),
            error: Some(ResponseError {
                code: "contradiction".into(),
                message: "both result and error".into(),
            }),
        },
    ] {
        assert!(
            response_result("status.get", response)
                .expect_err("ambiguous response")
                .contains("invalid response")
        );
    }
}

#[test]
fn response_error_never_invents_success() {
    let rejected = response_error(
        "event.subscribe",
        Response::error("sub", "invalid_params", "topics required"),
    );
    assert!(rejected.contains("invalid_params: topics required"));
    let malformed = response_error("event.subscribe", Response::success("sub", json("{}")));
    assert!(malformed.contains("invalid response"));
}

#[test]
fn request_ids_and_usage_errors_are_diagnostic() {
    let id = request_id("wait-status", 4711);
    assert!(id.starts_with("cli-wait-status-"));
    assert!(id.ends_with("4711"));
    let error = usage_error(&strings(&["wrong", "shape"]));
    assert!(error.contains("wrong shape"));
    assert!(error.contains("session ensure|open"));
}

#[test]
fn a_command_names_its_method_and_its_worktree() {
    assert_eq!(
        run(&strings(&["session", "open", "a1b2c3"])),
        Ok(ControlCommand::Mutate {
            method: "session.open".into(),
            worktree_id: "a1b2c3".into(),
            idempotency_key: None,
        })
    );
    assert_eq!(
        run(&strings(&["agent", "start", "a1b2c3", "--idempotency-key", "k"])),
        Ok(ControlCommand::Mutate {
            method: "agent.start".into(),
            worktree_id: "a1b2c3".into(),
            idempotency_key: Some("k".into()),
        })
    );
    assert_eq!(
        run(&strings(&["wait", "a1b2c3", "--status", "done"])),
        Ok(ControlCommand::Wait {
            worktree_id: "a1b2c3".into(),
            status: "done".into(),
            timeout: 300,
        })
    );
    assert!(run(&strings(&["session", "close", "a1b2c3"])).is_err());
    assert!(run(&strings(&["session", "open"])).is_err());
    assert!(run(&strings(&["wait", "a1b2c3"])).is_err());
}

#[test]
fn a_wait_ends_at_the_status_or_at_its_time() {
    let idle = json(r#"{"worktree_id": "a1b2c3", "status": "idle"}"#);
    assert_eq!(wait_step("a1b2c3", "idle", 2, &idle, 9_000_000_000), WaitStep::Reached);
    assert_eq!(wait_step("a1b2c3", "done", 2, &idle, 0), WaitStep::Again(WAIT_CADENCE));
    assert_eq!(
        wait_step("a1b2c3", "done", 2, &idle, 1_900_000_000),
        WaitStep::Again(100_000_000)
    );
    assert_eq!(
        wait_step("a1b2c3", "done", 2, &idle, 2_000_000_001),
        WaitStep::TimedOut(
            "timed out after 2s waiting for `a1b2c3` to become `done`".to_string()
        )
    );
    for other in ["null", "[]", "{}", r#"{"status": 7}"#] {
        assert_eq!(wait_step("a1b2c3", "done", 2, &json(other), 0), WaitStep::Again(WAIT_CADENCE));
    }
}

#[test]
fn only_a_missing_listener_is_a_service_that_starts() {
    let context = "connect to Grove service";
    assert!(service_is_starting(context, ConnectFailure::NotFound));
    assert!(service_is_starting(context, ConnectFailure::Refused));
    assert!(!service_is_starting(context, ConnectFailure::Other));
    assert!(!service_is_starting("write a request", ConnectFailure::Refused));
}

#[test]
fn a_service_that_starts_is_waited_for() {
    let context = "connect to Grove service";
    assert_eq!(call(context, ConnectFailure::Refused, 0), Some(RETRY_PAUSE));
    assert_eq!(call(context, ConnectFailure::NotFound, START_GRACE - 1), Some(RETRY_PAUSE));
    assert_eq!(call(context, ConnectFailure::NotFound, START_GRACE), None);
    assert_eq!(call(context, ConnectFailure::Other, 0), None);
    assert_eq!(call("read response", ConnectFailure::Refused, 0), None);
}

#[test]
fn a_command_asks_the_service_for_exactly_what_it_says() {
    let plain = mutate(1, 42, "session.open", "abc123", &None);
    assert_eq!((plain.protocol, plain.id.as_str()), (1, "cli-control-42"));
    assert_eq!(plain.method, "session.open");
    assert_eq!(
        plain.params,
        json(r#"{"worktree_id": "abc123", "idempotency_key": null}"#)
    );
    let keyed = mutate(1, 42, "agent.start", "abc123", &Some("k".into()));
    assert_eq!(keyed.params["idempotency_key"], Value::from("k"));
    let events = wait_events(1, 42);
    assert_eq!(events.id, "cli-wait-events-42");
    assert_eq!(events.method, "event.subscribe");
    assert_eq!(
        events.params,
        json(r#"{"topics": ["state_changed", "notification_received", "control_completed"]}"#)
    );
    let status = wait_status(1, 42, "abc123");
    assert_eq!(status.id, "cli-wait-status-42");
    assert_eq!(status.method, "status.get");
    assert_eq!(status.params, json(r#"{"worktree_id": "abc123"}"#));
}

#[test]
fn a_command_line_is_for_one_part_of_grove() {
    assert_eq!(part(&Vec::new()), Part::Gui);
    assert_eq!(part(&strings(&["--help"])), Part::Help);
    assert_eq!(part(&strings(&["-V"])), Part::Version);
    assert_eq!(part(&strings(&["notify", "--hook"])), Part::Notify);
    assert_eq!(part(&strings(&["toggle", "3"])), Part::Toggle);
    assert_eq!(part(&strings(&["hooks"])), Part::Hooks);
    assert_eq!(part(&strings(&["serve"])), Part::Serve);
    assert_eq!(part(&strings(&["snapshot"])), Part::Query);
    assert_eq!(part(&strings(&["session", "list"])), Part::Query);
    assert_eq!(part(&strings(&["session", "open", "x"])), Part::Control);
    assert_eq!(part(&strings(&["wait", "x"])), Part::Control);
    assert_eq!(part(&strings(&["dance"])), Part::Unknown);
}

#[test]
fn every_command_says_how_it_is_used() {
    assert!(grove::notify::USAGE.contains("Attention is sticky: it stays until you open the session."));
    assert!(grove::notify::USAGE.contains("`done` is sticky too"));
    assert!(grove::toggle::USAGE.contains("grove toggle <1-9>    open the session"));
    assert!(grove::hooks::USAGE.contains("grove hooks print       show what would be added"));
}
