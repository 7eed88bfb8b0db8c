//! The commands that only read.
use vstd::prelude::*;
use vstd::string::*;

use crate::json;
use crate::protocol::{Request, Response};
use crate::text::{decimal, join_words, joined_words, number, same};

verus! {

/// What is said of a command that is none of those that only read.
pub open spec fn usage_text(args: Seq<String>) -> Seq<char> {
    "unknown query command `"@ + joined_words(args, " "@)
        + "`; expected `snapshot`, `project list`, `worktree list`, or `session list`"@
}

/// What is said of a command that is none of those that only read.
pub fn usage_error(args: &Vec<String>) -> (r: String)
    ensures
        r@ == usage_text(args@),
{
    let mut text = "unknown query command `".to_owned();
    text.append(join_words(args, " ").as_str());
    text.append("`; expected `snapshot`, `project list`, `worktree list`, or `session list`");
    text
}

/// The method a command asks the service for.
pub open spec fn method_of(args: Seq<String>) -> Option<Seq<char>> {
    if args.len() == 2 && args[1]@ == "list"@ {
        if args[0]@ == "project"@ {
            Some("project.list"@)
        } else if args[0]@ == "worktree"@ {
            Some("worktree.list"@)
        } else if args[0]@ == "session"@ {
            Some("session.list"@)
        } else {
            None
        }
    } else if args.len() == 1 && args[0]@ == "snapshot"@ {
        Some("session.snapshot"@)
    } else {
        None
    }
}

/// The method a command asks the service for.
pub fn query_method(args: &Vec<String>) -> (r: Result<&'static str, String>)
    ensures
        match method_of(args@) {
            Some(method) => r matches Ok(m) && m@ == method,
            None => r matches Err(message) && message@ == usage_text(args@),
        },
{
    if args.len() == 2 && same(args[1].as_str(), "list") {
        if same(args[0].as_str(), "project") {
            return Ok("project.list");
        }
        if same(args[0].as_str(), "worktree") {
            return Ok("worktree.list");
        }
        if same(args[0].as_str(), "session") {
            return Ok("session.list");
        }
        return Err(usage_error(args));
    }
    if args.len() == 1 && same(args[0].as_str(), "snapshot") {
        return Ok("session.snapshot");
    }
    Err(usage_error(args))
}

/// The request a query makes of the service.
pub fn query_request(protocol: u32, process: u32, method: &str) -> (r: Request)
    ensures
        r.asks(
            protocol,
            "cli-"@ + decimal(process as nat),
            method@,
            json::object_value(json::Members::empty()),
        ),
{
    let mut id = "cli-".to_owned();
    id.append(number(process as u64).as_str());
    Request::new(protocol, id.as_str(), method, json::object(json::empty_object()))
}

/// What is said of a request that the service refused.
pub open spec fn rejection(method: Seq<char>, code: Seq<char>, message: Seq<char>) -> Seq<char> {
    "Grove service rejected `"@ + method + "`: "@ + code + ": "@ + message
}

pub(crate) fn rejected(method: &str, code: &str, message: &str) -> (r: String)
    ensures
        r@ == rejection(method@, code@, message@),
{
    let mut text = "Grove service rejected `".to_owned();
    text.append(method);
    text.append("`: ");
    text.append(code);
    text.append(": ");
    text.append(message);
    text
}

/// What an answer of the service comes to: a result or a refusal where it is
/// exactly that, and a complaint where it is both, neither, or contradicts
/// itself.
pub open spec fn is_outcome(
    r: Result<serde_json::Value, String>,
    method: Seq<char>,
    response: Response,
) -> bool {
    if response.ok && response.result is Some && response.error is None {
        r == Ok::<serde_json::Value, String>(response.result->0)
    } else if !response.ok && response.result is None && response.error is Some {
        r matches Err(text) && text@ == rejection(
            method,
            response.error->0.code@,
            response.error->0.message@,
        )
    } else {
        r matches Err(text) && text@ == "Grove service returned an invalid response"@
    }
}

/// What is printed for an answer of the service: its result, or what is said of
/// an answer without one.
pub open spec fn printed_outcome(method: Seq<char>, response: Response) -> Result<
    Seq<char>,
    Seq<char>,
> {
    if response.ok && response.result is Some && response.error is None {
        json::pretty_text(response.result->0)
    } else if !response.ok && response.result is None && response.error is Some {
        Err(rejection(method, response.error->0.code@, response.error->0.message@))
    } else {
        Err("Grove service returned an invalid response"@)
    }
}

/// What is printed for an answer of the service.
pub fn print_result(method: &str, response: Response) -> (r: Result<String, String>)
    ensures
        json::wording(r) == printed_outcome(method@, response),
{
    match service_result(method, response) {
        Ok(value) => json::pretty(&value),
        Err(error) => Err(error),
    }
}

/// What is printed for a value.
pub fn printed(value: &serde_json::Value) -> (r: Result<String, String>)
    ensures
        json::wording(r) == json::pretty_text(*value),
{
    json::pretty(value)
}

/// What an answer of the service comes to.
pub fn service_result(method: &str, response: Response) -> (r: Result<serde_json::Value, String>)
    ensures
        is_outcome(r, method@, response),
{
    match (response.result, response.error) {
        (Some(result), None) => if response.ok {
            Ok(result)
        } else {
            Err("Grove service returned an invalid response".to_owned())
        },
        (None, Some(error)) => if !response.ok {
            Err(rejected(method, error.code.as_str(), error.message.as_str()))
        } else {
            Err("Grove service returned an invalid response".to_owned())
        },
        _ => Err("Grove service returned an invalid response".to_owned()),
    }
}

/// Each command that only reads asks for its own method, and no other command asks for
/// any.
pub proof fn each_query_asks_for_its_own_method(args: Seq<String>)
    ensures
        args.len() == 2 && args[0]@ == "project"@ && args[1]@ == "list"@ ==> method_of(args)
            == Some("project.list"@),
        args.len() == 2 && args[0]@ == "worktree"@ && args[1]@ == "list"@ ==> method_of(args)
            == Some("worktree.list"@),
        args.len() == 2 && args[0]@ == "session"@ && args[1]@ == "list"@ ==> method_of(args)
            == Some("session.list"@),
        args.len() == 1 && args[0]@ == "snapshot"@ ==> method_of(args) == Some(
            "session.snapshot"@,
        ),
        args.len() == 0 || args.len() > 2 ==> method_of(args) is None,
        args.len() == 2 && args[1]@ != "list"@ ==> method_of(args) is None,
{
    reveal_strlit("project");
    reveal_strlit("worktree");
    reveal_strlit("session");
    assert("project"@.len() == 7 && "worktree"@.len() == 8 && "session"@.len() == 7);
    assert("project"@[0] == 'p' && "session"@[0] == 's');
}

/// An answer counts as a result only where it says so and holds one, and as a refusal
/// only where it says so and holds one; nothing else is taken for either.
pub proof fn an_answer_is_a_result_or_a_refusal(
    r: Result<serde_json::Value, String>,
    method: Seq<char>,
    response: Response,
)
    requires
        is_outcome(r, method, response),
    ensures
        r is Ok <==> response.ok && response.result is Some && response.error is None,
        r matches Ok(value) ==> response.result == Some(value),
        !response.ok && response.result is None && response.error is Some ==> r is Err
            && r->Err_0@ == "Grove service rejected `"@ + method + "`: "@
            + response.error->0.code@ + ": "@ + response.error->0.message@,
        (response.ok && response.error is Some) || (response.result is None && response.error
            is None) || (!response.ok && response.result is Some) ==> r is Err && r->Err_0@
            == "Grove service returned an invalid response"@,
{
}

}
