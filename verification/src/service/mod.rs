//! The persistent local service: which requests it takes, and what each one
//! comes to.
use vstd::prelude::*;
use vstd::string::*;

use crate::json;
use crate::protocol::{Request, Response};
use crate::text::{decimal, number, same};

pub mod control;
pub mod delivery;
pub mod events;
pub mod idempotency;
pub mod mutations;
pub mod outcomes;
pub mod params;
pub mod projects;
pub mod queue;
pub mod refusals;

verus! {

/// Everything the service can be asked for.
#[derive(Clone, Copy, Debug, PartialEq, Eq, Structural)]
pub enum Method {
    Ping,
    ProjectList,
    ProjectRefresh,
    ProjectStatuses,
    ProjectRefs,
    ProjectExpandedSet,
    ProjectRemove,
    SlotAssign,
    SlotClear,
    SessionIgnore,
    SessionIgnoredClear,
    WorktreeList,
    SessionList,
    SessionSnapshot,
    SessionRefresh,
    StatusPoll,
    StateGet,
    StateMutate,
    StateReconcile,
    EventSubscribe,
    EventUnsubscribe,
    SessionEnsure,
    SessionAttentionClear,
    SessionAssociate,
    SessionOpen,
    SessionTerminalOpen,
    SessionWindowOpen,
    SessionWindowCreate,
    SessionWorktreeClose,
    AgentStart,
    SessionClose,
    SessionOrphanOpen,
    ServerStop,
    ProjectOpen,
    WorktreeCreate,
    WorktreeRemove,
    BranchDelete,
    RemovalInspect,
    AgentResumeRecorded,
    StatusGet,
}

/// What becomes of a request: an answer at once, or the work of one method.
#[derive(Debug)]
pub enum Route {
    Answer(Response),
    Run(Method),
}

impl Method {
    /// The name the method is asked for by.
    pub open spec fn spelling(self) -> Seq<char> {
        match self {
            Method::Ping => "ping"@,
            Method::ProjectList => "project.list"@,
            Method::ProjectRefresh => "project.refresh"@,
            Method::ProjectStatuses => "project.statuses"@,
            Method::ProjectRefs => "project.refs"@,
            Method::ProjectExpandedSet => "project.expanded.set"@,
            Method::ProjectRemove => "project.remove"@,
            Method::SlotAssign => "slot.assign"@,
            Method::SlotClear => "slot.clear"@,
            Method::SessionIgnore => "session.ignore"@,
            Method::SessionIgnoredClear => "session.ignored.clear"@,
            Method::WorktreeList => "worktree.list"@,
            Method::SessionList => "session.list"@,
            Method::SessionSnapshot => "session.snapshot"@,
            Method::SessionRefresh => "session.refresh"@,
            Method::StatusPoll => "status.poll"@,
            Method::StateGet => "state.get"@,
            Method::StateMutate => "state.mutate"@,
            Method::StateReconcile => "state.reconcile"@,
            Method::EventSubscribe => "event.subscribe"@,
            Method::EventUnsubscribe => "event.unsubscribe"@,
            Method::SessionEnsure => "session.ensure"@,
            Method::SessionAttentionClear => "session.attention.clear"@,
            Method::SessionAssociate => "session.associate"@,
            Method::SessionOpen => "session.open"@,
            Method::SessionTerminalOpen => "session.terminal.open"@,
            Method::SessionWindowOpen => "session.window.open"@,
            Method::SessionWindowCreate => "session.window.create"@,
            Method::SessionWorktreeClose => "session.worktree.close"@,
            Method::AgentStart => "agent.start"@,
            Method::SessionClose => "session.close"@,
            Method::SessionOrphanOpen => "session.orphan.open"@,
            Method::ServerStop => "server.stop"@,
            Method::ProjectOpen => "project.open"@,
            Method::WorktreeCreate => "worktree.create"@,
            Method::WorktreeRemove => "worktree.remove"@,
            Method::BranchDelete => "branch.delete"@,
            Method::RemovalInspect => "removal.inspect"@,
            Method::AgentResumeRecorded => "agent.resume_recorded"@,
            Method::StatusGet => "status.get"@,
        }
    }

    /// The method takes parameters.
    pub open spec fn takes_params(self) -> bool {
        !(self is Ping
            || self is ProjectList
            || self is SessionIgnoredClear
            || self is WorktreeList
            || self is SessionList
            || self is SessionSnapshot
            || self is SessionRefresh
            || self is StatusPoll
            || self is StateGet)
    }

    pub fn name(self) -> (r: &'static str)
        ensures
            r@ == self.spelling(),
    {
        match self {
            Method::Ping => "ping",
            Method::ProjectList => "project.list",
            Method::ProjectRefresh => "project.refresh",
            Method::ProjectStatuses => "project.statuses",
            Method::ProjectRefs => "project.refs",
            Method::ProjectExpandedSet => "project.expanded.set",
            Method::ProjectRemove => "project.remove",
            Method::SlotAssign => "slot.assign",
            Method::SlotClear => "slot.clear",
            Method::SessionIgnore => "session.ignore",
            Method::SessionIgnoredClear => "session.ignored.clear",
            Method::WorktreeList => "worktree.list",
            Method::SessionList => "session.list",
            Method::SessionSnapshot => "session.snapshot",
            Method::SessionRefresh => "session.refresh",
            Method::StatusPoll => "status.poll",
            Method::StateGet => "state.get",
            Method::StateMutate => "state.mutate",
            Method::StateReconcile => "state.reconcile",
            Method::EventSubscribe => "event.subscribe",
            Method::EventUnsubscribe => "event.unsubscribe",
            Method::SessionEnsure => "session.ensure",
            Method::SessionAttentionClear => "session.attention.clear",
            Method::SessionAssociate => "session.associate",
            Method::SessionOpen => "session.open",
            Method::SessionTerminalOpen => "session.terminal.open",
            Method::SessionWindowOpen => "session.window.open",
            Method::SessionWindowCreate => "session.window.create",
            Method::SessionWorktreeClose => "session.worktree.close",
            Method::AgentStart => "agent.start",
            Method::SessionClose => "session.close",
            Method::SessionOrphanOpen => "session.orphan.open",
            Method::ServerStop => "server.stop",
            Method::ProjectOpen => "project.open",
            Method::WorktreeCreate => "worktree.create",
            Method::WorktreeRemove => "worktree.remove",
            Method::BranchDelete => "branch.delete",
            Method::RemovalInspect => "removal.inspect",
            Method::AgentResumeRecorded => "agent.resume_recorded",
            Method::StatusGet => "status.get",
        }
    }

    /// The method takes parameters.
    pub fn accepts_params(self) -> (r: bool)
        ensures
            r == self.takes_params(),
    {
        match self {
            Method::Ping
            | Method::ProjectList
            | Method::SessionIgnoredClear
            | Method::WorktreeList
            | Method::SessionList
            | Method::SessionSnapshot
            | Method::SessionRefresh
            | Method::StatusPoll
            | Method::StateGet => false,
            _ => true,
        }
    }

    /// The method of this name, where there is one.
    pub fn named(name: &str) -> (r: Option<Method>)
        ensures
            r matches Some(m) ==> m.spelling() == name@,
            r is None ==> forall|m: Method| #[trigger] m.spelling() != name@,
    {
        if same(name, "ping") {
            Some(Method::Ping)
        } else if same(name, "project.list") {
            Some(Method::ProjectList)
        } else if same(name, "project.refresh") {
            Some(Method::ProjectRefresh)
        } else if same(name, "project.statuses") {
            Some(Method::ProjectStatuses)
        } else if same(name, "project.refs") {
            Some(Method::ProjectRefs)
        } else if same(name, "project.expanded.set") {
            Some(Method::ProjectExpandedSet)
        } else if same(name, "project.remove") {
            Some(Method::ProjectRemove)
        } else if same(name, "slot.assign") {
            Some(Method::SlotAssign)
        } else if same(name, "slot.clear") {
            Some(Method::SlotClear)
        } else if same(name, "session.ignore") {
            Some(Method::SessionIgnore)
        } else if same(name, "session.ignored.clear") {
            Some(Method::SessionIgnoredClear)
        } else if same(name, "worktree.list") {
            Some(Method::WorktreeList)
        } else if same(name, "session.list") {
            Some(Method::SessionList)
        } else if same(name, "session.snapshot") {
            Some(Method::SessionSnapshot)
        } else if same(name, "session.refresh") {
            Some(Method::SessionRefresh)
        } else if same(name, "status.poll") {
            Some(Method::StatusPoll)
        } else if same(name, "state.get") {
            Some(Method::StateGet)
        } else if same(name, "state.mutate") {
            Some(Method::StateMutate)
        } else if same(name, "state.reconcile") {
            Some(Method::StateReconcile)
        } else if same(name, "event.subscribe") {
            Some(Method::EventSubscribe)
        } else if same(name, "event.unsubscribe") {
            Some(Method::EventUnsubscribe)
        } else if same(name, "session.ensure") {
            Some(Method::SessionEnsure)
        } else if same(name, "session.attention.clear") {
            Some(Method::SessionAttentionClear)
        } else if same(name, "session.associate") {
            Some(Method::SessionAssociate)
        } else if same(name, "session.open") {
            Some(Method::SessionOpen)
        } else if same(name, "session.terminal.open") {
            Some(Method::SessionTerminalOpen)
        } else if same(name, "session.window.open") {
            Some(Method::SessionWindowOpen)
        } else if same(name, "session.window.create") {
            Some(Method::SessionWindowCreate)
        } else if same(name, "session.worktree.close") {
            Some(Method::SessionWorktreeClose)
        } else if same(name, "agent.start") {
            Some(Method::AgentStart)
        } else if same(name, "session.close") {
            Some(Method::SessionClose)
        } else if same(name, "session.orphan.open") {
            Some(Method::SessionOrphanOpen)
        } else if same(name, "server.stop") {
            Some(Method::ServerStop)
        } else if same(name, "project.open") {
            Some(Method::ProjectOpen)
        } else if same(name, "worktree.create") {
            Some(Method::WorktreeCreate)
        } else if same(name, "worktree.remove") {
            Some(Method::WorktreeRemove)
        } else if same(name, "branch.delete") {
            Some(Method::BranchDelete)
        } else if same(name, "removal.inspect") {
            Some(Method::RemovalInspect)
        } else if same(name, "agent.resume_recorded") {
            Some(Method::AgentResumeRecorded)
        } else if same(name, "status.get") {
            Some(Method::StatusGet)
        } else {
            None
        }
    }
}

/// A number that tells the spellings of the methods apart.
spec fn mark(s: Seq<char>) -> int {
    let n = s.len();
    n * 0x10000 + (s[n - 3] as int) * 0x100 + (if n >= 9 {
        s[n - 9] as int
    } else {
        0
    })
}

spec fn method_mark(m: Method) -> int {
    match m {
        Method::Ping => 289024,
        Method::ProjectList => 813418,
        Method::ProjectRefresh => 1009012,
        Method::ProjectStatuses => 1078062,
        Method::ProjectRefs => 812394,
        Method::ProjectExpandedSet => 1340257,
        Method::ProjectRemove => 946019,
        Method::SlotAssign => 747887,
        Method::SlotClear => 681324,
        Method::SessionIgnore => 946031,
        Method::SessionIgnoredClear => 1402226,
        Method::WorktreeList => 878964,
        Method::SessionList => 813427,
        Method::SessionSnapshot => 1075246,
        Method::SessionRefresh => 1009006,
        Method::StatusPoll => 749409,
        Method::StateGet => 616307,
        Method::StateMutate => 811380,
        Method::StateReconcile => 1010034,
        Method::EventSubscribe => 1010035,
        Method::EventUnsubscribe => 1141107,
        Method::SessionEnsure => 947567,
        Method::SessionAttentionClear => 1533289,
        Method::SessionAssociate => 1139041,
        Method::SessionOpen => 815219,
        Method::SessionTerminalOpen => 1405033,
        Method::SessionWindowOpen => 1273966,
        Method::SessionWindowCreate => 1401199,
        Method::SessionWorktreeClose => 1470322,
        Method::AgentStart => 745829,
        Method::SessionClose => 880489,
        Method::SessionOrphanOpen => 1273968,
        Method::ServerStop => 750706,
        Method::ProjectOpen => 815210,
        Method::WorktreeCreate => 1007973,
        Method::WorktreeRemove => 1011557,
        Method::BranchDelete => 877923,
        Method::RemovalInspect => 1009004,
        Method::AgentResumeRecorded => 1401951,
        Method::StatusGet => 681844,
    }
}

proof fn lemma_mark(m: Method)
    ensures
        mark(m.spelling()) == method_mark(m),
{
    match m {
        Method::Ping => {
            reveal_strlit("ping");
        },
        Method::ProjectList => {
            reveal_strlit("project.list");
        },
        Method::ProjectRefresh => {
            reveal_strlit("project.refresh");
        },
        Method::ProjectStatuses => {
            reveal_strlit("project.statuses");
        },
        Method::ProjectRefs => {
            reveal_strlit("project.refs");
        },
        Method::ProjectExpandedSet => {
            reveal_strlit("project.expanded.set");
        },
        Method::ProjectRemove => {
            reveal_strlit("project.remove");
        },
        Method::SlotAssign => {
            reveal_strlit("slot.assign");
        },
        Method::SlotClear => {
            reveal_strlit("slot.clear");
        },
        Method::SessionIgnore => {
            reveal_strlit("session.ignore");
        },
        Method::SessionIgnoredClear => {
            reveal_strlit("session.ignored.clear");
        },
        Method::WorktreeList => {
            reveal_strlit("worktree.list");
        },
        Method::SessionList => {
            reveal_strlit("session.list");
        },
        Method::SessionSnapshot => {
            reveal_strlit("session.snapshot");
        },
        Method::SessionRefresh => {
            reveal_strlit("session.refresh");
        },
        Method::StatusPoll => {
            reveal_strlit("status.poll");
        },
        Method::StateGet => {
            reveal_strlit("state.get");
        },
        Method::StateMutate => {
            reveal_strlit("state.mutate");
        },
        Method::StateReconcile => {
            reveal_strlit("state.reconcile");
        },
        Method::EventSubscribe => {
            reveal_strlit("event.subscribe");
        },
        Method::EventUnsubscribe => {
            reveal_strlit("event.unsubscribe");
        },
        Method::SessionEnsure => {
            reveal_strlit("session.ensure");
        },
        Method::SessionAttentionClear => {
            reveal_strlit("session.attention.clear");
        },
        Method::SessionAssociate => {
            reveal_strlit("session.associate");
        },
        Method::SessionOpen => {
            reveal_strlit("session.open");
        },
        Method::SessionTerminalOpen => {
            reveal_strlit("session.terminal.open");
        },
        Method::SessionWindowOpen => {
            reveal_strlit("session.window.open");
        },
        Method::SessionWindowCreate => {
            reveal_strlit("session.window.create");
        },
        Method::SessionWorktreeClose => {
            reveal_strlit("session.worktree.close");
        },
        Method::AgentStart => {
            reveal_strlit("agent.start");
        },
        Method::SessionClose => {
            reveal_strlit("session.close");
        },
        Method::SessionOrphanOpen => {
            reveal_strlit("session.orphan.open");
        },
        Method::ServerStop => {
            reveal_strlit("server.stop");
        },
        Method::ProjectOpen => {
            reveal_strlit("project.open");
        },
        Method::WorktreeCreate => {
            reveal_strlit("worktree.create");
        },
        Method::WorktreeRemove => {
            reveal_strlit("worktree.remove");
        },
        Method::BranchDelete => {
            reveal_strlit("branch.delete");
        },
        Method::RemovalInspect => {
            reveal_strlit("removal.inspect");
        },
        Method::AgentResumeRecorded => {
            reveal_strlit("agent.resume_recorded");
        },
        Method::StatusGet => {
            reveal_strlit("status.get");
        },
    }
}

/// No two methods are asked for by the same name: a name stands for at most one
/// method.
pub proof fn method_names_differ(a: Method, b: Method)
    requires
        a.spelling() == b.spelling(),
    ensures
        a == b,
{
    lemma_mark(a);
    lemma_mark(b);
}

/// What the service says of a request in a protocol other than its own.
pub open spec fn protocol_refusal(asked: u32, speaks: u32) -> Seq<char> {
    "protocol "@ + decimal(asked as nat) + " is unsupported; this service speaks "@ + decimal(
        speaks as nat,
    )
}

/// What the service says of parameters that a method does not take.
pub open spec fn params_refusal(method: Seq<char>) -> Seq<char> {
    "`"@ + method + "` does not accept parameters"@
}

/// What the service says of a method that it does not have.
pub open spec fn unknown_method(method: Seq<char>) -> Seq<char> {
    "unknown service method `"@ + method + "`"@
}

/// The answer to a ping.
pub open spec fn pong(service_version: Seq<char>, speaks: u32) -> serde_json::Value {
    json::object_value(
        json::Members::empty().insert("service_version"@, json::text_value(service_version)).insert(
            "protocol"@,
            json::number_value(speaks as u64),
        ),
    )
}

/// The text that is said of `asked`, where the service speaks another protocol.
pub(crate) fn protocol_refused(asked: u32, speaks: u32) -> (r: String)
    ensures
        r@ == protocol_refusal(asked, speaks),
{
    let mut message = "protocol ".to_owned();
    message.append(number(asked as u64).as_str());
    message.append(" is unsupported; this service speaks ");
    message.append(number(speaks as u64).as_str());
    message
}

/// What becomes of a request: the protocol is looked at first, then whether the
/// method takes the parameters that came, then which method it is.
pub fn dispatch_api(request: &Request, speaks: u32, service_version: &str) -> (r: Route)
    ensures
        request.protocol != speaks ==> (r matches Route::Answer(a) && a.refuses(
            request.id@,
            "unsupported_protocol"@,
            protocol_refusal(request.protocol, speaks),
        )),
        request.protocol == speaks && !json::is_blank(request.params) && !(exists|m: Method|
            m.spelling() == request.method@ && #[trigger] m.takes_params()) ==> (
        r matches Route::Answer(a) && a.refuses(
            request.id@,
            "invalid_params"@,
            params_refusal(request.method@),
        )),
        forall|m: Method|
            #![trigger m.spelling()]
            request.protocol == speaks && m.spelling() == request.method@ && (m.takes_params()
                || json::is_blank(request.params)) ==> (match m {
                Method::Ping => r matches Route::Answer(a) && a.succeeds(
                    request.id@,
                    pong(service_version@, speaks),
                ),
                Method::EventSubscribe => r matches Route::Answer(a) && a.refuses(
                    request.id@,
                    "invalid_subscription"@,
                    "event.subscribe must use a streaming connection"@,
                ),
                _ => r == Route::Run(m),
            }),
        request.protocol == speaks && json::is_blank(request.params) && (forall|m: Method|
            #[trigger] m.spelling() != request.method@) ==> (r matches Route::Answer(a)
            && a.refuses(request.id@, "method_not_found"@, unknown_method(request.method@))),
{
    if request.protocol != speaks {
        let message = protocol_refused(request.protocol, speaks);
        return Route::Answer(
            Response::error(request.id.as_str(), "unsupported_protocol", message.as_str()),
        );
    }
    let method = Method::named(request.method.as_str());
    proof {
        if let Some(found) = method {
            assert forall|m: Method| #[trigger] m.spelling() == request.method@ implies m == found by {
                method_names_differ(m, found);
            }
        }
    }
    let accepts_params = match method {
        Some(m) => m.accepts_params(),
        None => false,
    };
    if !accepts_params && !json::blank(&request.params) {
        let mut message = "`".to_owned();
        message.append(request.method.as_str());
        message.append("` does not accept parameters");
        return Route::Answer(
            Response::error(request.id.as_str(), "invalid_params", message.as_str()),
        );
    }
    match method {
        Some(Method::Ping) => {
            let mut result = json::empty_object();
            json::put(&mut result, "service_version", json::text(service_version));
            json::put(&mut result, "protocol", json::number(speaks as u64));
            Route::Answer(Response::success(request.id.as_str(), json::object(result)))
        },
        Some(Method::EventSubscribe) => Route::Answer(
            Response::error(
                request.id.as_str(),
                "invalid_subscription",
                "event.subscribe must use a streaming connection",
            ),
        ),
        Some(m) => Route::Run(m),
        None => {
            let mut message = "unknown service method `".to_owned();
            message.append(request.method.as_str());
            message.append("`");
            Route::Answer(
                Response::error(request.id.as_str(), "method_not_found", message.as_str()),
            )
        },
    }
}

/// What the command that runs the service is asked for.
#[derive(Debug, PartialEq, Eq)]
pub enum ServeCommand {
    Help,
    Serve,
    Unexpected(String),
}

/// Some argument asks for help.
pub open spec fn asks_for_help(args: Seq<String>) -> bool {
    exists|i: int|
        0 <= i < args.len() && ((#[trigger] args[i])@ == "-h"@ || args[i]@ == "--help"@)
}

/// Some argument asks for help.
pub fn help_asked(args: &Vec<String>) -> (r: bool)
    ensures
        r == asks_for_help(args@),
{
    let mut i: usize = 0;
    while i < args.len()
        invariant
            i <= args.len(),
            forall|k: int|
                0 <= k < i ==> (#[trigger] args@[k])@ != "-h"@ && args@[k]@ != "--help"@,
        decreases args.len() - i,
    {
        if same(args[i].as_str(), "-h") || same(args[i].as_str(), "--help") {
            return true;
        }
        i += 1;
    }
    false
}

/// What a command line that runs the service asks for: it takes no argument but
/// the question for help.
pub fn run(args: &Vec<String>) -> (r: ServeCommand)
    ensures
        r == (if asks_for_help(args@) {
            ServeCommand::Help
        } else if args@.len() > 0 {
            ServeCommand::Unexpected(args@[0])
        } else {
            ServeCommand::Serve
        }),
{
    if help_asked(args) {
        ServeCommand::Help
    } else if args.len() > 0 {
        ServeCommand::Unexpected(args[0].clone())
    } else {
        ServeCommand::Serve
    }
}

/// Every name stands for its own method: which method a request is for can be read
/// off its name.
pub proof fn each_name_stands_for_its_method(m: Method)
    ensures
        m.spelling() == "ping"@ <==> m == Method::Ping,
        m.spelling() == "project.list"@ <==> m == Method::ProjectList,
        m.spelling() == "project.refresh"@ <==> m == Method::ProjectRefresh,
        m.spelling() == "project.statuses"@ <==> m == Method::ProjectStatuses,
        m.spelling() == "project.refs"@ <==> m == Method::ProjectRefs,
        m.spelling() == "project.expanded.set"@ <==> m == Method::ProjectExpandedSet,
        m.spelling() == "project.remove"@ <==> m == Method::ProjectRemove,
        m.spelling() == "slot.assign"@ <==> m == Method::SlotAssign,
        m.spelling() == "slot.clear"@ <==> m == Method::SlotClear,
        m.spelling() == "session.ignore"@ <==> m == Method::SessionIgnore,
        m.spelling() == "session.ignored.clear"@ <==> m == Method::SessionIgnoredClear,
        m.spelling() == "worktree.list"@ <==> m == Method::WorktreeList,
        m.spelling() == "session.list"@ <==> m == Method::SessionList,
        m.spelling() == "session.snapshot"@ <==> m == Method::SessionSnapshot,
        m.spelling() == "session.refresh"@ <==> m == Method::SessionRefresh,
        m.spelling() == "status.poll"@ <==> m == Method::StatusPoll,
        m.spelling() == "state.get"@ <==> m == Method::StateGet,
        m.spelling() == "state.mutate"@ <==> m == Method::StateMutate,
        m.spelling() == "state.reconcile"@ <==> m == Method::StateReconcile,
        m.spelling() == "event.subscribe"@ <==> m == Method::EventSubscribe,
        m.spelling() == "event.unsubscribe"@ <==> m == Method::EventUnsubscribe,
        m.spelling() == "session.ensure"@ <==> m == Method::SessionEnsure,
        m.spelling() == "session.attention.clear"@ <==> m == Method::SessionAttentionClear,
        m.spelling() == "session.associate"@ <==> m == Method::SessionAssociate,
        m.spelling() == "session.open"@ <==> m == Method::SessionOpen,
        m.spelling() == "session.terminal.open"@ <==> m == Method::SessionTerminalOpen,
        m.spelling() == "session.window.open"@ <==> m == Method::SessionWindowOpen,
        m.spelling() == "session.window.create"@ <==> m == Method::SessionWindowCreate,
        m.spelling() == "session.worktree.close"@ <==> m == Method::SessionWorktreeClose,
        m.spelling() == "agent.start"@ <==> m == Method::AgentStart,
        m.spelling() == "session.close"@ <==> m == Method::SessionClose,
        m.spelling() == "session.orphan.open"@ <==> m == Method::SessionOrphanOpen,
        m.spelling() == "server.stop"@ <==> m == Method::ServerStop,
        m.spelling() == "project.open"@ <==> m == Method::ProjectOpen,
        m.spelling() == "worktree.create"@ <==> m == Method::WorktreeCreate,
        m.spelling() == "worktree.remove"@ <==> m == Method::WorktreeRemove,
        m.spelling() == "branch.delete"@ <==> m == Method::BranchDelete,
        m.spelling() == "removal.inspect"@ <==> m == Method::RemovalInspect,
        m.spelling() == "agent.resume_recorded"@ <==> m == Method::AgentResumeRecorded,
        m.spelling() == "status.get"@ <==> m == Method::StatusGet,
{
    if m.spelling() == "ping"@ {
        method_names_differ(m, Method::Ping);
    }
    if m.spelling() == "project.list"@ {
        method_names_differ(m, Method::ProjectList);
    }
    if m.spelling() == "project.refresh"@ {
        method_names_differ(m, Method::ProjectRefresh);
    }
    if m.spelling() == "project.statuses"@ {
        method_names_differ(m, Method::ProjectStatuses);
    }
    if m.spelling() == "project.refs"@ {
        method_names_differ(m, Method::ProjectRefs);
    }
    if m.spelling() == "project.expanded.set"@ {
        method_names_differ(m, Method::ProjectExpandedSet);
    }
    if m.spelling() == "project.remove"@ {
        method_names_differ(m, Method::ProjectRemove);
    }
    if m.spelling() == "slot.assign"@ {
        method_names_differ(m, Method::SlotAssign);
    }
    if m.spelling() == "slot.clear"@ {
        method_names_differ(m, Method::SlotClear);
    }
    if m.spelling() == "session.ignore"@ {
        method_names_differ(m, Method::SessionIgnore);
    }
    if m.spelling() == "session.ignored.clear"@ {
        method_names_differ(m, Method::SessionIgnoredClear);
    }
    if m.spelling() == "worktree.list"@ {
        method_names_differ(m, Method::WorktreeList);
    }
    if m.spelling() == "session.list"@ {
        method_names_differ(m, Method::SessionList);
    }
    if m.spelling() == "session.snapshot"@ {
        method_names_differ(m, Method::SessionSnapshot);
    }
    if m.spelling() == "session.refresh"@ {
        method_names_differ(m, Method::SessionRefresh);
    }
    if m.spelling() == "status.poll"@ {
        method_names_differ(m, Method::StatusPoll);
    }
    if m.spelling() == "state.get"@ {
        method_names_differ(m, Method::StateGet);
    }
    if m.spelling() == "state.mutate"@ {
        method_names_differ(m, Method::StateMutate);
    }
    if m.spelling() == "state.reconcile"@ {
        method_names_differ(m, Method::StateReconcile);
    }
    if m.spelling() == "event.subscribe"@ {
        method_names_differ(m, Method::EventSubscribe);
    }
    if m.spelling() == "event.unsubscribe"@ {
        method_names_differ(m, Method::EventUnsubscribe);
    }
    if m.spelling() == "session.ensure"@ {
        method_names_differ(m, Method::SessionEnsure);
    }
    if m.spelling() == "session.attention.clear"@ {
        method_names_differ(m, Method::SessionAttentionClear);
    }
    if m.spelling() == "session.associate"@ {
        method_names_differ(m, Method::SessionAssociate);
    }
    if m.spelling() == "session.open"@ {
        method_names_differ(m, Method::SessionOpen);
    }
    if m.spelling() == "session.terminal.open"@ {
        method_names_differ(m, Method::SessionTerminalOpen);
    }
    if m.spelling() == "session.window.open"@ {
        method_names_differ(m, Method::SessionWindowOpen);
    }
    if m.spelling() == "session.window.create"@ {
        method_names_differ(m, Method::SessionWindowCreate);
    }
    if m.spelling() == "session.worktree.close"@ {
        method_names_differ(m, Method::SessionWorktreeClose);
    }
    if m.spelling() == "agent.start"@ {
        method_names_differ(m, Method::AgentStart);
    }
    if m.spelling() == "session.close"@ {
        method_names_differ(m, Method::SessionClose);
    }
    if m.spelling() == "session.orphan.open"@ {
        method_names_differ(m, Method::SessionOrphanOpen);
    }
    if m.spelling() == "server.stop"@ {
        method_names_differ(m, Method::ServerStop);
    }
    if m.spelling() == "project.open"@ {
        method_names_differ(m, Method::ProjectOpen);
    }
    if m.spelling() == "worktree.create"@ {
        method_names_differ(m, Method::WorktreeCreate);
    }
    if m.spelling() == "worktree.remove"@ {
        method_names_differ(m, Method::WorktreeRemove);
    }
    if m.spelling() == "branch.delete"@ {
        method_names_differ(m, Method::BranchDelete);
    }
    if m.spelling() == "removal.inspect"@ {
        method_names_differ(m, Method::RemovalInspect);
    }
    if m.spelling() == "agent.resume_recorded"@ {
        method_names_differ(m, Method::AgentResumeRecorded);
    }
    if m.spelling() == "status.get"@ {
        method_names_differ(m, Method::StatusGet);
    }
}

/// Nine methods take no parameters, each named here; every other one takes some.
pub proof fn nine_methods_take_no_parameters(m: Method)
    ensures
        !m.takes_params() <==> {
            ||| m.spelling() == "ping"@
            ||| m.spelling() == "project.list"@
            ||| m.spelling() == "session.ignored.clear"@
            ||| m.spelling() == "worktree.list"@
            ||| m.spelling() == "session.list"@
            ||| m.spelling() == "session.snapshot"@
            ||| m.spelling() == "session.refresh"@
            ||| m.spelling() == "status.poll"@
            ||| m.spelling() == "state.get"@
        },
{
    each_name_stands_for_its_method(m);
}

}
