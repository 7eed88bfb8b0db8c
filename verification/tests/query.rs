use grove::protocol::{Response, ResponseError};
use grove::query::{print_result, printed, query_method, query_request, service_result, usage_error};
use serde_json::Value;

fn strings(values: &[&str]) -> Vec<String> {
    values.iter().map(|value| (*value).to_string()).collect()
}

fn json(text: &str) -> Value {
    serde_json::from_str(text).expect("valid JSON")
}

#[test]
fn query_methods_accept_only_the_documented_commands() {
    for (args, expected) in [
        (strings(&["project", "list"]), "project.list"),
        (strings(&["worktree", "list"]), "worktree.list"),
        (strings(&["session", "list"]), "session.list"),
        (strings(&["snapshot"]), "session.snapshot"),
    ] {
        assert_eq!(query_method(&args).expect("documented query"), expected);
    }

    for args in [
        Vec::new(),
        strings(&["project"]),
        strings(&["project", "show"]),
        strings(&["unknown", "list"]),
        strings(&["snapshot", "extra"]),
    ] {
        let error = query_method(&args).expect_err("unknown query");
        assert!(error.contains("unknown query command"));
    }
}

#[test]
fn service_results_are_strict_and_preserve_rejections() {
    let value = json(r#"{"version": 1, "projects": []}"#);
    assert_eq!(
        service_result("project.list", Response::success("query", value.clone()))
            .expect("success"),
        value
    );

    let rejection = service_result(
        "project.list",
        Response::error("query", "state_read_failed", "corrupt state"),
    )
    .expect_err("rejection");
    assert!(rejection.contains("state_read_failed: corrupt state"));

    for response in [
        Response { id: "query".into(), ok: true, result: None, error: None },
        Response { id: "query".into(), ok: false, result: Some(json("{}")), error: None },
        Response {
            id: "query".into(),
            ok: true,
            result: Some(json("{}")),
            error: Some(ResponseError { code: "contradiction".into(), message: "both".into() }),
        },
    ] {
        assert!(
            service_result("project.list", response)
                .expect_err("ambiguous")
                .contains("invalid response")
        );
    }
}

#[test]
fn usage_errors_name_the_bad_command_and_every_valid_shape() {
    let error = usage_error(&strings(&["project", "show"]));
    assert!(error.contains("project show"));
    for expected in ["snapshot", "project list", "worktree list", "session list"] {
        assert!(error.contains(expected));
    }
}

#[test]
fn a_query_asks_for_its_method_without_parameters() {
    let request = query_request(1, 42, "project.list");
    assert_eq!(request.id, "cli-42");
    assert_eq!(request.method, "project.list");
    assert_eq!(request.params, json("{}"));
}

#[test]
fn a_result_is_printed_over_several_lines() {
    let value = json(r#"{"b": [1, null], "a": "x"}"#);
    assert_eq!(
        print_result("project.list", Response::success("1", value.clone())),
        Ok("{\n  \"a\": \"x\",\n  \"b\": [\n    1,\n    null\n  ]\n}".to_string())
    );
    assert_eq!(printed(&json("[]")), Ok("[]".to_string()));
    assert_eq!(
        print_result("project.list", Response::error("1", "internal_error", "no server")),
        Err("Grove service rejected `project.list`: internal_error: no server".to_string())
    );
}
