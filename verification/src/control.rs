//! The commands that act on a worktree without the window.
use vstd::prelude::*;
use vstd::string::*;

use crate::json;
use crate::protocol::{subscription_params, EventKind, Request, Response};
use crate::query::{is_outcome, rejected, rejection, service_result};
use crate::text::{
    decimal, join_words, joined_words, lower, number, parse, parsed, same, to_lower,
};

verus! {

/// How long a wait lasts where nothing else is said, in seconds.
pub const DEFAULT_WAIT_TIMEOUT: u64 = 300;

/// How often a wait looks again, in nanoseconds.
pub const WAIT_CADENCE: u128 = 500_000_000;

/// How long the service is given to start, in nanoseconds.
pub const START_GRACE: u128 = 2_000_000_000;

/// How long a connection is put off before it is tried again, in nanoseconds.
pub const RETRY_PAUSE: u128 = 50_000_000;

/// What is said of a command that is none of those that act on a worktree.
pub open spec fn usage_text(args: Seq<String>) -> Seq<char> {
    "unknown control command `"@ + joined_words(args, " "@)
        + "`; expected `session ensure|open <worktree-id>`, `agent start <worktree-id>`, or `wait <worktree-id> --status <status>`"@
}

/// What is said of a command that is none of those that act on a worktree.
pub fn usage_error(args: &Vec<String>) -> (r: String)
    ensures
        r@ == usage_text(args@),
{
    let mut text = "unknown control command `".to_owned();
    text.append(join_words(args, " ").as_str());
    text.append(
        "`; expected `session ensure|open <worktree-id>`, `agent start <worktree-id>`, or `wait <worktree-id> --status <status>`",
    );
    text
}

/// The key that the rest of a command gives: none, or exactly the flag and it.
pub fn idempotency_key(args: &Vec<String>) -> (r: Result<Option<String>, String>)
    ensures
        if args@.len() == 0 {
            r == Ok::<Option<String>, String>(None)
        } else if args@.len() == 2 && args@[0]@ == "--idempotency-key"@ {
            r == Ok::<Option<String>, String>(Some(args@[1]))
        } else {
            r matches Err(text) && text@ == usage_text(args@)
        },
{
    if args.len() == 0 {
        return Ok(None);
    }
    if args.len() == 2 && same(args[0].as_str(), "--idempotency-key") {
        return Ok(Some(args[1].clone()));
    }
    Err(usage_error(args))
}

/// What `<u64 as std::str::FromStr>::from_str` says of text that is no `u64`: its
/// error, displayed.
pub uninterp spec fn parse_complaint(value: Seq<char>) -> Seq<char>;

/// `<u64 as std::str::FromStr>::from_str`, displayed: what is said of the text
/// is a function of it alone. What the words are is not stated.
#[verifier::external_body]
fn complaint(value: &str) -> (r: String)
    ensures
        r@ == parse_complaint(value@),
{
    match value.parse::<u64>() {
        Ok(seconds) => seconds.to_string(),
        Err(error) => error.to_string(),
    }
}

/// Why the options of a wait were rejected.
#[derive(Debug, PartialEq, Eq)]
pub enum WaitError {
    /// An option is unknown, or its value is missing.
    Usage(String),
    UnknownStatus(String),
    /// The timeout is not a number of seconds: what was given.
    BadTimeout(String),
    MissingStatus,
}

pub enum WaitErrorView {
    Usage(Seq<char>),
    UnknownStatus(Seq<char>),
    BadTimeout(Seq<char>),
    MissingStatus,
}

impl View for WaitError {
    type V = WaitErrorView;

    open spec fn view(&self) -> WaitErrorView {
        match *self {
            WaitError::Usage(text) => WaitErrorView::Usage(text@),
            WaitError::UnknownStatus(value) => WaitErrorView::UnknownStatus(value@),
            WaitError::BadTimeout(value) => WaitErrorView::BadTimeout(value@),
            WaitError::MissingStatus => WaitErrorView::MissingStatus,
        }
    }
}

impl WaitErrorView {
    /// What is said of the error.
    pub open spec fn text(self) -> Seq<char> {
        match self {
            WaitErrorView::Usage(text) => text,
            WaitErrorView::UnknownStatus(value) => "unknown Grove status `"@ + value + "`"@,
            WaitErrorView::BadTimeout(value) => parse_complaint(value),
            WaitErrorView::MissingStatus =>
                "wait requires `--status <working|idle|done|attention|stopped>`"@,
        }
    }
}

impl WaitError {
    /// What is said of the error.
    pub fn message(&self) -> (r: String)
        ensures
            r@ == self@.text(),
    {
        match self {
            WaitError::Usage(text) => text.clone(),
            WaitError::UnknownStatus(value) => {
                let mut text = "unknown Grove status `".to_owned();
                text.append(value.as_str());
                text.append("`");
                text
            },
            WaitError::BadTimeout(value) => complaint(value.as_str()),
            WaitError::MissingStatus =>
                "wait requires `--status <working|idle|done|attention|stopped>`".to_owned(),
        }
    }
}

/// A session can be waited for to become this.
pub open spec fn is_waitable(status: Seq<char>) -> bool {
    ||| status == "working"@
    ||| status == "idle"@
    ||| status == "done"@
    ||| status == "attention"@
    ||| status == "stopped"@
}

/// What the options come to from place `at` on. They are taken from the left, in
/// any order, and the first one that is wrong ends it.
pub open spec fn wait_from(
    args: Seq<String>,
    at: int,
    status: Option<Seq<char>>,
    timeout: u64,
) -> Result<(Seq<char>, u64), WaitErrorView>
    decreases args.len() - at,
{
    if at >= args.len() {
        match status {
            Some(status) => Ok((status, timeout)),
            None => Err(WaitErrorView::MissingStatus),
        }
    } else if args[at]@ == "--status"@ && at + 1 < args.len() {
        let value = lower(args[at + 1]@);
        if is_waitable(value) {
            wait_from(args, at + 2, Some(value), timeout)
        } else {
            Err(WaitErrorView::UnknownStatus(value))
        }
    } else if args[at]@ == "--timeout"@ && at + 1 < args.len() {
        match parsed(args[at + 1]@, u64::MAX as nat) {
            Some(seconds) => wait_from(args, at + 2, status, seconds as u64),
            None => Err(WaitErrorView::BadTimeout(args[at + 1]@)),
        }
    } else {
        Err(WaitErrorView::Usage(usage_text(args)))
    }
}

fn waitable(status: &str) -> (r: bool)
    ensures
        r == is_waitable(status@),
{
    same(status, "working") || same(status, "idle") || same(status, "done") || same(
        status,
        "attention",
    ) || same(status, "stopped")
}

/// The status a wait is for, and how many seconds it lasts.
pub fn wait_options(args: &Vec<String>) -> (r: Result<(String, u64), WaitError>)
    ensures
        (match r {
            Ok((status, timeout)) => Ok((status@, timeout)),
            Err(error) => Err(error@),
        }) == wait_from(args@, 0, None, DEFAULT_WAIT_TIMEOUT),
{
    let mut status: Option<String> = None;
    let mut timeout: u64 = DEFAULT_WAIT_TIMEOUT;
    let mut index: usize = 0;
    while index < args.len()
        invariant
            index <= args.len(),
            wait_from(args@, 0, None, DEFAULT_WAIT_TIMEOUT) == wait_from(
                args@,
                index as int,
                crate::model::text_view(status),
                timeout,
            ),
        decreases args.len() - index,
    {
        let has_value = args.len() - index > 1;
        if same(args[index].as_str(), "--status") && has_value {
            let value = to_lower(args[index + 1].as_str());
            if !waitable(value.as_str()) {
                return Err(WaitError::UnknownStatus(value));
            }
            status = Some(value);
            index += 2;
        } else if same(args[index].as_str(), "--timeout") && has_value {
            proof {
                reveal_strlit("--status");
                reveal_strlit("--timeout");
                assert("--status"@.len() != "--timeout"@.len());
            }
            match parse(args[index + 1].as_str(), u64::MAX) {
                Some(seconds) => {
                    timeout = seconds;
                },
                None => {
                    return Err(WaitError::BadTimeout(args[index + 1].clone()));
                },
            }
            index += 2;
        } else {
            return Err(WaitError::Usage(usage_error(args)));
        }
    }
    match status {
        Some(status) => Ok((status, timeout)),
        None => Err(WaitError::MissingStatus),
    }
}

/// What a command asks for.
#[derive(Debug, PartialEq, Eq)]
pub enum ControlCommand {
    /// Ask the service for the method, on the worktree.
    Mutate { method: String, worktree_id: String, idempotency_key: Option<String> },
    /// Wait until the worktree's session is in the state.
    Wait { worktree_id: String, status: String, timeout: u64 },
}

/// The command names a method that acts on a worktree: the method.
pub open spec fn mutation_of(args: Seq<String>) -> Option<Seq<char>> {
    if args.len() >= 3 && args[0]@ == "session"@ && args[1]@ == "ensure"@ {
        Some("session.ensure"@)
    } else if args.len() >= 3 && args[0]@ == "session"@ && args[1]@ == "open"@ {
        Some("session.open"@)
    } else if args.len() >= 3 && args[0]@ == "agent"@ && args[1]@ == "start"@ {
        Some("agent.start"@)
    } else {
        None
    }
}

fn tail(args: &Vec<String>, from: usize) -> (r: Vec<String>)
    requires
        from <= args.len(),
    ensures
        r@ == args@.subrange(from as int, args@.len() as int),
{
    let mut rest: Vec<String> = Vec::new();
    let mut i: usize = from;
    while i < args.len()
        invariant
            from <= i <= args.len(),
            rest@ == args@.subrange(from as int, i as int),
        decreases args.len() - i,
    {
        rest.push(args[i].clone());
        i += 1;
        assert(rest@ =~= args@.subrange(from as int, i as int));
    }
    rest
}

/// What a command line asks for, or what is said of one that asks for nothing.
pub fn run(args: &Vec<String>) -> (r: Result<ControlCommand, String>)
    ensures
        match mutation_of(args@) {
            Some(method) => {
                let rest = args@.subrange(3, args@.len() as int);
                if rest.len() == 0 {
                    r matches Ok(ControlCommand::Mutate { method: m, worktree_id, idempotency_key })
                        && m@ == method && worktree_id == args@[2] && idempotency_key is None
                } else if rest.len() == 2 && rest[0]@ == "--idempotency-key"@ {
                    r matches Ok(ControlCommand::Mutate { method: m, worktree_id, idempotency_key })
                        && m@ == method && worktree_id == args@[2] && idempotency_key == Some(
                        rest[1],
                    )
                } else {
                    r matches Err(text) && text@ == usage_text(rest)
                }
            },
            None => if args@.len() >= 2 && args@[0]@ == "wait"@ {
                match wait_from(
                    args@.subrange(2, args@.len() as int),
                    0,
                    None,
                    DEFAULT_WAIT_TIMEOUT,
                ) {
                    Ok((status, timeout)) => r matches Ok(
                        ControlCommand::Wait { worktree_id, status: s, timeout: t },
                    ) && worktree_id == args@[1] && s@ == status && t == timeout,
                    Err(error) => r matches Err(text) && text@ == error.text(),
                }
            } else {
                r matches Err(text) && text@ == usage_text(args@)
            },
        },
{
    let method = if args.len() >= 3 && same(args[0].as_str(), "session") && same(
        args[1].as_str(),
        "ensure",
    ) {
        Some("session.ensure")
    } else if args.len() >= 3 && same(args[0].as_str(), "session") && same(
        args[1].as_str(),
        "open",
    ) {
        Some("session.open")
    } else if args.len() >= 3 && same(args[0].as_str(), "agent") && same(
        args[1].as_str(),
        "start",
    ) {
        Some("agent.start")
    } else {
        None
    };
    if let Some(method) = method {
        let rest = tail(args, 3);
        return match idempotency_key(&rest) {
            Ok(key) => Ok(
                ControlCommand::Mutate {
                    method: method.to_owned(),
                    worktree_id: args[2].clone(),
                    idempotency_key: key,
                },
            ),
            Err(text) => Err(text),
        };
    }
    if args.len() >= 2 && same(args[0].as_str(), "wait") {
        let rest = tail(args, 2);
        return match wait_options(&rest) {
            Ok((status, timeout)) => Ok(
                ControlCommand::Wait { worktree_id: args[1].clone(), status, timeout },
            ),
            Err(error) => Err(error.message()),
        };
    }
    Err(usage_error(args))
}

/// What a request on a worktree holds, with this value in the place of its key.
pub open spec fn mutation_params(
    worktree_id: Seq<char>,
    key: serde_json::Value,
) -> serde_json::Value {
    json::object_value(
        json::Members::empty().insert("worktree_id"@, json::text_value(worktree_id)).insert(
            "idempotency_key"@,
            key,
        ),
    )
}

/// The key of a request, or null where it has none.
pub open spec fn is_key(value: serde_json::Value, key: Option<Seq<char>>) -> bool {
    match key {
        Some(key) => value == json::text_value(key),
        None => json::is_null_value(value),
    }
}

/// The request a command on a worktree makes of the service.
pub fn mutate(
    protocol: u32,
    process: u32,
    method: &str,
    worktree_id: &str,
    idempotency_key: &Option<String>,
) -> (r: Request)
    ensures
        exists|key: serde_json::Value| #[trigger]
            is_key(key, crate::model::text_view(*idempotency_key)) && r.asks(
                protocol,
                id_of("control"@, process),
                method@,
                mutation_params(worktree_id@, key),
            ),
{
    let mut params = json::empty_object();
    json::put(&mut params, "worktree_id", json::text(worktree_id));
    let key = match idempotency_key {
        Some(key) => json::text(key.as_str()),
        None => json::null(),
    };
    let ghost held = key;
    json::put(&mut params, "idempotency_key", key);
    assert(is_key(held, crate::model::text_view(*idempotency_key)));
    let id = request_id("control", process);
    Request::new(protocol, id.as_str(), method, json::object(params))
}

/// The request for the events a wait looks again on.
pub fn wait_events(protocol: u32, process: u32) -> (r: Request)
    ensures
        r.asks(
            protocol,
            id_of("wait-events"@, process),
            "event.subscribe"@,
            json::object_value(
                subscription_params(
                    seq![
                        EventKind::StateChanged,
                        EventKind::NotificationReceived,
                        EventKind::ControlCompleted,
                    ],
                    None,
                ),
            ),
        ),
{
    let kinds = vec![
        EventKind::StateChanged,
        EventKind::NotificationReceived,
        EventKind::ControlCompleted,
    ];
    assert(kinds@ =~= seq![
        EventKind::StateChanged,
        EventKind::NotificationReceived,
        EventKind::ControlCompleted,
    ]);
    let id = request_id("wait-events", process);
    Request::subscription(protocol, id.as_str(), &kinds, None)
}

/// The request a wait looks with.
pub fn wait_status(protocol: u32, process: u32, worktree_id: &str) -> (r: Request)
    ensures
        r.asks(
            protocol,
            id_of("wait-status"@, process),
            "status.get"@,
            json::object_value(
                json::Members::empty().insert("worktree_id"@, json::text_value(worktree_id@)),
            ),
        ),
{
    let mut params = json::empty_object();
    json::put(&mut params, "worktree_id", json::text(worktree_id));
    let id = request_id("wait-status", process);
    Request::new(protocol, id.as_str(), "status.get", json::object(params))
}

/// What a wait does next.
#[derive(Debug, PartialEq, Eq)]
pub enum WaitStep {
    /// The session is in the state.
    Reached,
    /// The time is over: what is said.
    TimedOut(String),
    /// Look again after this many nanoseconds, or when something happens.
    Again(u128),
}

/// What is said of a wait whose time is over.
pub open spec fn timed_out(timeout: u64, worktree_id: Seq<char>, desired: Seq<char>) -> Seq<char> {
    "timed out after "@ + decimal(timeout as nat) + "s waiting for `"@ + worktree_id
        + "` to become `"@ + desired + "`"@
}

/// What a wait does next, given what the service says of the session and how
/// many nanoseconds it has lasted.
pub fn wait_step(
    worktree_id: &str,
    desired: &str,
    timeout: u64,
    result: &serde_json::Value,
    elapsed: u128,
) -> (r: WaitStep)
    ensures
        if json::has_text_member(*result, "status"@, desired@) {
            r is Reached
        } else if elapsed > timeout * 1_000_000_000 {
            r matches WaitStep::TimedOut(text) && text@ == timed_out(
                timeout,
                worktree_id@,
                desired@,
            )
        } else {
            r matches WaitStep::Again(pause) && pause == (if timeout * 1_000_000_000 - elapsed
                < WAIT_CADENCE {
                timeout * 1_000_000_000 - elapsed
            } else {
                WAIT_CADENCE as int
            })
        },
{
    if json::member_is(result, "status", desired) {
        return WaitStep::Reached;
    }
    let limit: u128 = timeout as u128 * 1_000_000_000;
    if elapsed > limit {
        let mut text = "timed out after ".to_owned();
        text.append(number(timeout).as_str());
        text.append("s waiting for `");
        text.append(worktree_id);
        text.append("` to become `");
        text.append(desired);
        text.append("`");
        return WaitStep::TimedOut(text);
    }
    let remaining: u128 = limit - elapsed;
    if remaining < WAIT_CADENCE {
        WaitStep::Again(remaining)
    } else {
        WaitStep::Again(WAIT_CADENCE)
    }
}

/// How a connection to the service failed.
#[derive(Debug, Clone, Copy, PartialEq, Eq, Structural)]
pub enum ConnectFailure {
    NotFound,
    Refused,
    Other,
}

/// The service is not there yet: the connection to it found nothing, or nobody
/// listening.
pub fn service_is_starting(context: &str, failure: ConnectFailure) -> (r: bool)
    ensures
        r == (context@ == "connect to Grove service"@ && failure != ConnectFailure::Other),
{
    same(context, "connect to Grove service") && failure != ConnectFailure::Other
}

/// How long a connection that failed is put off before it is tried again, where
/// it is: while the service may still be starting, for two seconds.
pub fn call(context: &str, failure: ConnectFailure, elapsed: u128) -> (r: Option<u128>)
    ensures
        r == (if context@ == "connect to Grove service"@ && failure != ConnectFailure::Other
            && elapsed < START_GRACE {
            Some(RETRY_PAUSE)
        } else {
            None
        }),
{
    if service_is_starting(context, failure) && elapsed < START_GRACE {
        Some(RETRY_PAUSE)
    } else {
        None
    }
}

/// What an answer of the service comes to.
pub fn response_result(method: &str, response: Response) -> (r: Result<serde_json::Value, String>)
    ensures
        is_outcome(r, method@, response),
{
    service_result(method, response)
}

/// What is said of an answer that is no success.
pub fn response_error(method: &str, response: Response) -> (r: String)
    ensures
        r@ == (match response.error {
            Some(error) => rejection(method@, error.code@, error.message@),
            None => "Grove service returned an invalid response"@,
        }),
{
    match response.error {
        Some(error) => rejected(method, error.code.as_str(), error.message.as_str()),
        None => "Grove service returned an invalid response".to_owned(),
    }
}

/// The id of a request of this process.
pub open spec fn id_of(kind: Seq<char>, process: u32) -> Seq<char> {
    "cli-"@ + kind + "-"@ + decimal(process as nat)
}

/// The id of a request of this process.
pub fn request_id(kind: &str, process: u32) -> (r: String)
    ensures
        r@ == id_of(kind@, process),
{
    let mut id = "cli-".to_owned();
    id.append(kind);
    id.append("-");
    id.append(number(process as u64).as_str());
    id
}

/// A wait that is read from the right place on waits for one of five statuses: what
/// followed its last `--status`, in capitals or not, unless none did, and then the one
/// it had.
pub proof fn a_wait_is_for_a_status(
    args: Seq<String>,
    at: int,
    status: Option<Seq<char>>,
    timeout: u64,
    wanted: Seq<char>,
    seconds: u64,
)
    requires
        0 <= at,
        wait_from(args, at, status, timeout) == Ok::<(Seq<char>, u64), WaitErrorView>(
            (wanted, seconds),
        ),
    ensures
        status == Some(wanted) || ((wanted == "working"@ || wanted == "idle"@ || wanted == "done"@
            || wanted == "attention"@ || wanted == "stopped"@) && exists|k: int|
            at <= k && k + 1 < args.len() && (#[trigger] args[k])@ == "--status"@ && lower(
                args[k + 1]@,
            ) == wanted),
        seconds == timeout || exists|k: int|
            at <= k && k + 1 < args.len() && (#[trigger] args[k])@ == "--timeout"@ && parsed(
                args[k + 1]@,
                u64::MAX as nat,
            ) == Some(seconds as nat),
        at < args.len() ==> args[at]@ == "--status"@ || args[at]@ == "--timeout"@,
    decreases args.len() - at,
{
    if at < args.len() {
        if args[at]@ == "--status"@ && at + 1 < args.len() {
            let value = lower(args[at + 1]@);
            a_wait_is_for_a_status(args, at + 2, Some(value), timeout, wanted, seconds);
            if value == wanted {
                assert(args[at]@ == "--status"@);
            }
        } else {
            let read = parsed(args[at + 1]@, u64::MAX as nat)->0 as u64;
            a_wait_is_for_a_status(args, at + 2, status, read, wanted, seconds);
            if read == seconds {
                assert(args[at]@ == "--timeout"@);
            }
        }
    }
}

/// Each command that acts on a worktree asks for its own method.
pub proof fn each_command_asks_for_its_own_method(args: Seq<String>)
    requires
        args.len() >= 3,
    ensures
        args[0]@ == "session"@ && args[1]@ == "ensure"@ ==> mutation_of(args) == Some(
            "session.ensure"@,
        ),
        args[0]@ == "session"@ && args[1]@ == "open"@ ==> mutation_of(args) == Some(
            "session.open"@,
        ),
        args[0]@ == "agent"@ && args[1]@ == "start"@ ==> mutation_of(args) == Some("agent.start"@),
        mutation_of(args) is Some ==> args[0]@ == "session"@ || args[0]@ == "agent"@,
{
    reveal_strlit("session");
    reveal_strlit("agent");
    reveal_strlit("ensure");
    reveal_strlit("open");
    assert("session"@.len() != "agent"@.len());
    assert("ensure"@.len() != "open"@.len());
}

}
