//! The operations a caller performs on one line of work.
//!
//! They share the idempotency keys: those are what make a retry safe.
use vstd::prelude::*;
use vstd::string::*;

use crate::app::rows::{project_of, ref_of, ref_views, ProjectRef, ProjectStatus};
use crate::json;
use crate::model::{project_views, session_name_of, text_view, worktree_views, Project, ProjectView};
use crate::protocol::{printable, is_printable, Request, Response};
use crate::service::idempotency::{recall, is_usable, key_message, refuse, usable, Admission};
use crate::service::params::{
    CloseSessionParams, ControlParams, OpenOrphanParams, ResumeRecordedParams, StopServerParams,
};
use crate::service::{each_name_stands_for_its_method, method_names_differ, Method};
use crate::state::{record_at, ProjectRecord, SessionRecord, State};
use crate::table::Table;
use crate::text::{debug_text, decimal, number, quoted, same};

verus! {

pub open spec fn option_text(s: Option<String>) -> Option<Seq<char>> {
    match s {
        Some(s) => Some(s@),
        None => None,
    }
}

/// Why the parameters of a control method are refused: the first check that
/// they fail.
pub open spec fn control_refusal(method: Seq<char>, p: ControlParams) -> Option<Seq<char>> {
    if !is_printable(p.worktree_id@) {
        Some("worktree_id must be a non-empty printable value"@)
    } else if p.idempotency_key is Some && !usable(p.idempotency_key->0@) {
        Some(key_message())
    } else if p.resume is Some && method != "agent.start"@ {
        Some("resume is accepted only by agent.start"@)
    } else if p.window_index is Some && method != "session.window.open"@ {
        Some("window_index is accepted only by session.window.open"@)
    } else if method == "session.window.open"@ && p.window_index is None {
        Some("session.window.open requires window_index"@)
    } else if p.orphan_session is Some && method != "session.associate"@ {
        Some("orphan_session is accepted only by session.associate"@)
    } else if method == "session.associate"@ && p.orphan_session is None {
        Some("session.associate requires orphan_session"@)
    } else if p.orphan_session is Some && !usable(p.orphan_session->0@) {
        Some("orphan_session must be 1-128 printable bytes"@)
    } else if p.resume is Some && !usable(p.resume->0@) {
        Some("resume must be 1-128 printable bytes"@)
    } else {
        None
    }
}

/// An optional text in a key: `None`, or the quoted text inside `Some(..)`.
pub open spec fn shown_text(s: Option<Seq<char>>) -> Seq<char> {
    match s {
        Some(s) => "Some("@ + debug_text(s) + ")"@,
        None => "None"@,
    }
}

/// An optional number in a key.
pub open spec fn shown_number(n: Option<u32>) -> Seq<char> {
    match n {
        Some(n) => "Some("@ + decimal(n as nat) + ")"@,
        None => "None"@,
    }
}

/// What the response to a control request is kept under: the method, all its
/// parameters, and the caller's key.
pub open spec fn control_key(method: Seq<char>, p: ControlParams) -> Option<Seq<char>> {
    match p.idempotency_key {
        Some(key) => Some(
            method + ":"@ + p.worktree_id@ + ":"@ + shown_text(option_text(p.resume)) + ":"@
                + shown_number(p.window_index) + ":"@ + shown_text(option_text(p.orphan_session))
                + ":"@ + key@,
        ),
        None => None,
    }
}

fn show_text(s: &Option<String>) -> (r: String)
    ensures
        r@ == shown_text(option_text(*s)),
{
    match s {
        Some(s) => {
            let mut out = "Some(".to_owned();
            out.append(quoted(s.as_str()).as_str());
            out.append(")");
            out
        },
        None => "None".to_owned(),
    }
}

fn show_number(n: Option<u32>) -> (r: String)
    ensures
        r@ == shown_number(n),
{
    match n {
        Some(n) => {
            let mut out = "Some(".to_owned();
            out.append(number(n as u64).as_str());
            out.append(")");
            out
        },
        None => "None".to_owned(),
    }
}

fn control_refused(method: &str, p: &ControlParams) -> (r: Option<&'static str>)
    ensures
        r is Some <==> control_refusal(method@, *p) is Some,
        r matches Some(m) ==> control_refusal(method@, *p) == Some(m@),
{
    if !printable(p.worktree_id.as_str()) {
        return Some("worktree_id must be a non-empty printable value");
    }
    if let Some(key) = &p.idempotency_key {
        if !is_usable(key.as_str()) {
            return Some("idempotency_key must be 1-128 printable bytes");
        }
    }
    if p.resume.is_some() && !same(method, "agent.start") {
        return Some("resume is accepted only by agent.start");
    }
    if p.window_index.is_some() && !same(method, "session.window.open") {
        return Some("window_index is accepted only by session.window.open");
    }
    if same(method, "session.window.open") && p.window_index.is_none() {
        return Some("session.window.open requires window_index");
    }
    if p.orphan_session.is_some() && !same(method, "session.associate") {
        return Some("orphan_session is accepted only by session.associate");
    }
    if same(method, "session.associate") && p.orphan_session.is_none() {
        return Some("session.associate requires orphan_session");
    }
    if let Some(session) = &p.orphan_session {
        if !is_usable(session.as_str()) {
            return Some("orphan_session must be 1-128 printable bytes");
        }
    }
    if let Some(conversation) = &p.resume {
        if !is_usable(conversation.as_str()) {
            return Some("resume must be 1-128 printable bytes");
        }
    }
    None
}

/// Takes a control request in: its parameters are refused, or it is answered as
/// before, or it is to be carried out.
pub fn control(
    request: &Request,
    params: &Result<ControlParams, String>,
    kept: &Table<Response>,
) -> (r: Admission)
    ensures
        match *params {
            Err(error) => r.refused(request.id@, error@),
            Ok(p) => r.decided(
                request.id@,
                control_refusal(request.method@, p),
                control_key(request.method@, p),
                kept@,
            ),
        },
{
    let p = match params {
        Ok(p) => p,
        Err(error) => {
            return refuse(request, error.as_str());
        },
    };
    if let Some(message) = control_refused(request.method.as_str(), p) {
        return refuse(request, message);
    }
    let key = match &p.idempotency_key {
        Some(key) => {
            let mut k = request.method.clone();
            k.append(":");
            k.append(p.worktree_id.as_str());
            k.append(":");
            k.append(show_text(&p.resume).as_str());
            k.append(":");
            k.append(show_number(p.window_index).as_str());
            k.append(":");
            k.append(show_text(&p.orphan_session).as_str());
            k.append(":");
            k.append(key.as_str());
            Some(k)
        },
        None => None,
    };
    recall(request, key, kept)
}

/// Why a request about one named session is refused.
pub open spec fn session_refusal(session: Seq<char>, key: Seq<char>) -> Option<Seq<char>> {
    if !usable(session) {
        Some("session must be 1-128 printable bytes"@)
    } else if !usable(key) {
        Some(key_message())
    } else {
        None
    }
}

fn session_admission(
    request: &Request,
    prefix: &str,
    session: &str,
    key: &str,
    kept: &Table<Response>,
) -> (r: Admission)
    ensures
        r.decided(
            request.id@,
            session_refusal(session@, key@),
            Some(prefix@ + session@ + ":"@ + key@),
            kept@,
        ),
{
    if !is_usable(session) {
        return refuse(request, "session must be 1-128 printable bytes");
    }
    if !is_usable(key) {
        return refuse(request, "idempotency_key must be 1-128 printable bytes");
    }
    let mut k = prefix.to_owned();
    k.append(session);
    k.append(":");
    k.append(key);
    recall(request, Some(k), kept)
}

/// Takes in a request to close a session by its name.
pub fn close_session(
    request: &Request,
    params: &Result<CloseSessionParams, String>,
    kept: &Table<Response>,
) -> (r: Admission)
    ensures
        match *params {
            Err(error) => r.refused(request.id@, error@),
            Ok(p) => r.decided(
                request.id@,
                session_refusal(p.session@, p.idempotency_key@),
                Some("session.close:"@ + p.session@ + ":"@ + p.idempotency_key@),
                kept@,
            ),
        },
{
    match params {
        Err(error) => refuse(request, error.as_str()),
        Ok(p) => session_admission(
            request,
            "session.close:",
            p.session.as_str(),
            p.idempotency_key.as_str(),
            kept,
        ),
    }
}

/// Takes in a request to open a session that belongs to no worktree.
pub fn open_orphan_session(
    request: &Request,
    params: &Result<OpenOrphanParams, String>,
    kept: &Table<Response>,
) -> (r: Admission)
    ensures
        match *params {
            Err(error) => r.refused(request.id@, error@),
            Ok(p) => r.decided(
                request.id@,
                session_refusal(p.session@, p.idempotency_key@),
                Some("session.orphan.open:"@ + p.session@ + ":"@ + p.idempotency_key@),
                kept@,
            ),
        },
{
    match params {
        Err(error) => refuse(request, error.as_str()),
        Ok(p) => session_admission(
            request,
            "session.orphan.open:",
            p.session.as_str(),
            p.idempotency_key.as_str(),
            kept,
        ),
    }
}

fn keyed_admission(request: &Request, prefix: &str, key: &str, kept: &Table<Response>) -> (r:
    Admission)
    ensures
        r.decided(
            request.id@,
            (if usable(key@) {
                None
            } else {
                Some(key_message())
            }),
            Some(prefix@ + key@),
            kept@,
        ),
{
    if !is_usable(key) {
        return refuse(request, "idempotency_key must be 1-128 printable bytes");
    }
    let mut k = prefix.to_owned();
    k.append(key);
    recall(request, Some(k), kept)
}

/// Takes in a request to stop the session server.
pub fn stop_server(
    request: &Request,
    params: &Result<StopServerParams, String>,
    kept: &Table<Response>,
) -> (r: Admission)
    ensures
        match *params {
            Err(error) => r.refused(request.id@, error@),
            Ok(p) => r.decided(
                request.id@,
                (if usable(p.idempotency_key@) {
                    None
                } else {
                    Some(key_message())
                }),
                Some("server.stop:"@ + p.idempotency_key@),
                kept@,
            ),
        },
{
    match params {
        Err(error) => refuse(request, error.as_str()),
        Ok(p) => keyed_admission(request, "server.stop:", p.idempotency_key.as_str(), kept),
    }
}

/// Takes in a request to resume every recorded agent.
pub fn resume_recorded(
    request: &Request,
    params: &Result<ResumeRecordedParams, String>,
    kept: &Table<Response>,
) -> (r: Admission)
    ensures
        match *params {
            Err(error) => r.refused(request.id@, error@),
            Ok(p) => r.decided(
                request.id@,
                (if usable(p.idempotency_key@) {
                    None
                } else {
                    Some(key_message())
                }),
                Some("agent.resume_recorded:"@ + p.idempotency_key@),
                kept@,
            ),
        },
{
    match params {
        Err(error) => refuse(request, error.as_str()),
        Ok(p) => keyed_admission(
            request,
            "agent.resume_recorded:",
            p.idempotency_key.as_str(),
            kept,
        ),
    }
}

/// The place of the first text that equals `wanted`.
pub open spec fn place_of(texts: Seq<String>, wanted: Seq<char>) -> Option<int>
    decreases texts.len(),
{
    if texts.len() == 0 {
        None
    } else {
        match place_of(texts.drop_last(), wanted) {
            Some(i) => Some(i),
            None => if texts.last()@ == wanted {
                Some(texts.len() - 1)
            } else {
                None
            },
        }
    }
}

proof fn lemma_place_grows(texts: Seq<String>, n: int, wanted: Seq<char>)
    requires
        0 <= n <= texts.len(),
        place_of(texts.subrange(0, n), wanted) is Some,
    ensures
        place_of(texts, wanted) == place_of(texts.subrange(0, n), wanted),
    decreases texts.len() - n,
{
    if n < texts.len() {
        assert(texts.subrange(0, n + 1).drop_last() =~= texts.subrange(0, n));
        lemma_place_grows(texts, n + 1, wanted);
    } else {
        assert(texts.subrange(0, n) =~= texts);
    }
}

fn find_place(texts: &Vec<String>, wanted: &str) -> (r: Option<usize>)
    ensures
        r is Some <==> place_of(texts@, wanted@) is Some,
        r matches Some(i) ==> i < texts.len() && place_of(texts@, wanted@) == Some(i as int),
{
    let sought = wanted.to_owned();
    let mut i: usize = 0;
    assert(texts@.subrange(0, 0) =~= Seq::<String>::empty());
    while i < texts.len()
        invariant
            i <= texts.len(),
            sought@ == wanted@,
            place_of(texts@.subrange(0, i as int), wanted@) is None,
        decreases texts.len() - i,
    {
        assert(texts@.subrange(0, i + 1).drop_last() =~= texts@.subrange(0, i as int));
        if texts[i] == sought {
            proof {
                lemma_place_grows(texts@, i + 1, wanted@);
            }
            return Some(i);
        }
        i += 1;
    }
    assert(texts@.subrange(0, i as int) =~= texts@);
    None
}

/// The ids of the worktrees a project was found to have; a project that could
/// not be read has none.
pub open spec fn ids_of(listing: Option<Vec<String>>) -> Seq<String> {
    match listing {
        Some(ids) => ids@,
        None => Seq::empty(),
    }
}

/// The first project that has the worktree, and its place there.
pub open spec fn resolved(listings: Seq<Option<Vec<String>>>, worktree_id: Seq<char>) -> Option<
    (int, int),
>
    decreases listings.len(),
{
    if listings.len() == 0 {
        None
    } else {
        match resolved(listings.drop_last(), worktree_id) {
            Some(found) => Some(found),
            None => match place_of(ids_of(listings.last()), worktree_id) {
                Some(j) => Some((listings.len() - 1, j)),
                None => None,
            },
        }
    }
}

proof fn lemma_resolved_grows(listings: Seq<Option<Vec<String>>>, n: int, worktree_id: Seq<char>)
    requires
        0 <= n <= listings.len(),
        resolved(listings.subrange(0, n), worktree_id) is Some,
    ensures
        resolved(listings, worktree_id) == resolved(listings.subrange(0, n), worktree_id),
    decreases listings.len() - n,
{
    if n < listings.len() {
        assert(listings.subrange(0, n + 1).drop_last() =~= listings.subrange(0, n));
        lemma_resolved_grows(listings, n + 1, worktree_id);
    } else {
        assert(listings.subrange(0, n) =~= listings);
    }
}

/// What is said of a worktree that no project has.
pub open spec fn unknown_worktree(worktree_id: Seq<char>) -> Seq<char> {
    "unknown worktree `"@ + worktree_id + "`"@
}

/// Finds a worktree by its id in what the projects were found to have. Projects
/// that could not be read are passed over.
pub fn resolve_worktree(listings: &Vec<Option<Vec<String>>>, worktree_id: &str) -> (r: Result<
    (usize, usize),
    String,
>)
    ensures
        match resolved(listings@, worktree_id@) {
            Some((i, j)) => r matches Ok(found) && found.0 == i && found.1 == j,
            None => r matches Err(message) && message@ == unknown_worktree(worktree_id@),
        },
{
    let mut i: usize = 0;
    assert(listings@.subrange(0, 0) =~= Seq::<Option<Vec<String>>>::empty());
    while i < listings.len()
        invariant
            i <= listings.len(),
            resolved(listings@.subrange(0, i as int), worktree_id@) is None,
        decreases listings.len() - i,
    {
        assert(listings@.subrange(0, i + 1).drop_last() =~= listings@.subrange(0, i as int));
        if let Some(ids) = &listings[i] {
            if let Some(j) = find_place(ids, worktree_id) {
                proof {
                    lemma_resolved_grows(listings@, i + 1, worktree_id@);
                }
                return Ok((i, j));
            }
        }
        i += 1;
    }
    assert(listings@.subrange(0, i as int) =~= listings@);
    let mut message = "unknown worktree `".to_owned();
    message.append(worktree_id);
    message.append("`");
    Err(message)
}

/// Finds a session by its name among those that are listed.
pub fn find_session(listed: &Vec<String>, session: &str) -> (r: Result<usize, String>)
    ensures
        match place_of(listed@, session@) {
            Some(i) => r matches Ok(found) && found == i,
            None => r matches Err(message) && message@ == "unknown session `"@ + session@ + "`"@,
        },
{
    match find_place(listed, session) {
        Some(i) => Ok(i),
        None => {
            let mut message = "unknown session `".to_owned();
            message.append(session);
            message.append("`");
            Err(message)
        },
    }
}

/// What is to be done to a worktree's session.
#[derive(Debug, PartialEq, Eq)]
pub enum ControlWork {
    ClearAttention,
    Associate(String),
    Ensure,
    Open,
    OpenWindow(u32),
    OpenTerminal,
    CreateWindow,
    Close,
    /// Start an agent: afresh, or in the conversation named.
    StartAgent(Option<String>),
}

/// The work is the one the method names.
pub open spec fn is_work(
    work: ControlWork,
    method: Seq<char>,
    resume: Option<String>,
    window_index: Option<u32>,
    orphan_session: Option<String>,
) -> bool {
    match work {
        ControlWork::ClearAttention => method == "session.attention.clear"@,
        ControlWork::Associate(orphan) => method == "session.associate"@ && orphan_session == Some(
            orphan,
        ),
        ControlWork::Ensure => method == "session.ensure"@,
        ControlWork::Open => method == "session.open"@,
        ControlWork::OpenWindow(index) => method == "session.window.open"@ && window_index == Some(
            index,
        ),
        ControlWork::OpenTerminal => method == "session.terminal.open"@,
        ControlWork::CreateWindow => method == "session.window.create"@,
        ControlWork::Close => method == "session.worktree.close"@,
        ControlWork::StartAgent(conversation) => method == "agent.start"@ && conversation == resume,
    }
}

/// The method is one that acts on a worktree's session.
pub open spec fn is_control_method(method: Seq<char>) -> bool {
    ||| method == "session.attention.clear"@
    ||| method == "session.associate"@
    ||| method == "session.ensure"@
    ||| method == "session.open"@
    ||| method == "session.window.open"@
    ||| method == "session.terminal.open"@
    ||| method == "session.window.create"@
    ||| method == "session.worktree.close"@
    ||| method == "agent.start"@
}

/// Why a control method comes to no work.
pub open spec fn no_work(
    method: Seq<char>,
    window_index: Option<u32>,
    orphan_session: Option<String>,
) -> Option<Seq<char>> {
    if method == "session.associate"@ && orphan_session is None {
        Some("session.associate requires orphan_session"@)
    } else if method == "session.window.open"@ && window_index is None {
        Some("session.window.open requires window_index"@)
    } else if !is_control_method(method) {
        Some("unknown control method `"@ + method + "`"@)
    } else {
        None
    }
}

/// The methods that need a parameter are none of the others.
proof fn lemma_control_names()
    ensures
        "session.associate"@ != "session.attention.clear"@,
        "session.associate"@ != "session.ensure"@,
        "session.associate"@ != "session.open"@,
        "session.associate"@ != "session.terminal.open"@,
        "session.associate"@ != "session.window.create"@,
        "session.associate"@ != "session.worktree.close"@,
        "session.associate"@ != "agent.start"@,
        "session.window.open"@ != "session.attention.clear"@,
        "session.window.open"@ != "session.ensure"@,
        "session.window.open"@ != "session.open"@,
        "session.window.open"@ != "session.terminal.open"@,
        "session.window.open"@ != "session.window.create"@,
        "session.window.open"@ != "session.worktree.close"@,
        "session.window.open"@ != "agent.start"@,
        "session.associate"@ != "session.window.open"@,
{
    if "session.associate"@ == "session.attention.clear"@ {
        method_names_differ(Method::SessionAssociate, Method::SessionAttentionClear);
    }
    if "session.associate"@ == "session.ensure"@ {
        method_names_differ(Method::SessionAssociate, Method::SessionEnsure);
    }
    if "session.associate"@ == "session.open"@ {
        method_names_differ(Method::SessionAssociate, Method::SessionOpen);
    }
    if "session.associate"@ == "session.terminal.open"@ {
        method_names_differ(Method::SessionAssociate, Method::SessionTerminalOpen);
    }
    if "session.associate"@ == "session.window.create"@ {
        method_names_differ(Method::SessionAssociate, Method::SessionWindowCreate);
    }
    if "session.associate"@ == "session.worktree.close"@ {
        method_names_differ(Method::SessionAssociate, Method::SessionWorktreeClose);
    }
    if "session.associate"@ == "agent.start"@ {
        method_names_differ(Method::SessionAssociate, Method::AgentStart);
    }
    if "session.window.open"@ == "session.attention.clear"@ {
        method_names_differ(Method::SessionWindowOpen, Method::SessionAttentionClear);
    }
    if "session.window.open"@ == "session.ensure"@ {
        method_names_differ(Method::SessionWindowOpen, Method::SessionEnsure);
    }
    if "session.window.open"@ == "session.open"@ {
        method_names_differ(Method::SessionWindowOpen, Method::SessionOpen);
    }
    if "session.window.open"@ == "session.terminal.open"@ {
        method_names_differ(Method::SessionWindowOpen, Method::SessionTerminalOpen);
    }
    if "session.window.open"@ == "session.window.create"@ {
        method_names_differ(Method::SessionWindowOpen, Method::SessionWindowCreate);
    }
    if "session.window.open"@ == "session.worktree.close"@ {
        method_names_differ(Method::SessionWindowOpen, Method::SessionWorktreeClose);
    }
    if "session.window.open"@ == "agent.start"@ {
        method_names_differ(Method::SessionWindowOpen, Method::AgentStart);
    }
    if "session.associate"@ == "session.window.open"@ {
        method_names_differ(Method::SessionAssociate, Method::SessionWindowOpen);
    }
}

/// What a control method is to do, once its worktree was found.
pub fn run_control(
    method: &str,
    found: &Result<(), String>,
    resume: &Option<String>,
    window_index: Option<u32>,
    orphan_session: &Option<String>,
) -> (r: Result<ControlWork, String>)
    ensures
        match *found {
            Err(error) => r matches Err(message) && message@ == error@,
            Ok(_) => match no_work(method@, window_index, *orphan_session) {
                Some(message) => r matches Err(m) && m@ == message,
                None => r matches Ok(work) && is_work(
                    work,
                    method@,
                    *resume,
                    window_index,
                    *orphan_session,
                ),
            },
        },
        *found is Ok && method@ == "session.attention.clear"@ ==> r == Ok::<ControlWork, String>(
            ControlWork::ClearAttention,
        ),
        *found is Ok && method@ == "session.ensure"@ ==> r == Ok::<ControlWork, String>(
            ControlWork::Ensure,
        ),
        *found is Ok && method@ == "session.open"@ ==> r == Ok::<ControlWork, String>(
            ControlWork::Open,
        ),
        *found is Ok && method@ == "session.terminal.open"@ ==> r == Ok::<ControlWork, String>(
            ControlWork::OpenTerminal,
        ),
        *found is Ok && method@ == "session.window.create"@ ==> r == Ok::<ControlWork, String>(
            ControlWork::CreateWindow,
        ),
        *found is Ok && method@ == "session.worktree.close"@ ==> r == Ok::<ControlWork, String>(
            ControlWork::Close,
        ),
        *found is Ok && method@ == "agent.start"@ ==> r == Ok::<ControlWork, String>(
            ControlWork::StartAgent(*resume),
        ),
        *found is Ok && method@ == "session.window.open"@ && window_index is Some ==> r == Ok::<
            ControlWork,
            String,
        >(ControlWork::OpenWindow(window_index->0)),
        *found is Ok && method@ == "session.associate"@ && *orphan_session is Some ==> r == Ok::<
            ControlWork,
            String,
        >(ControlWork::Associate((*orphan_session)->0)),
{
    if let Err(error) = found {
        return Err(error.clone());
    }
    proof {
        lemma_control_names();
        each_name_stands_for_its_method(Method::SessionAttentionClear);
        each_name_stands_for_its_method(Method::SessionEnsure);
        each_name_stands_for_its_method(Method::SessionOpen);
        each_name_stands_for_its_method(Method::SessionTerminalOpen);
        each_name_stands_for_its_method(Method::SessionWindowCreate);
        each_name_stands_for_its_method(Method::SessionWorktreeClose);
    }
    if same(method, "session.attention.clear") {
        Ok(ControlWork::ClearAttention)
    } else if same(method, "session.associate") {
        match orphan_session {
            Some(orphan) => {
                Ok(ControlWork::Associate(orphan.clone()))
            },
            None => Err("session.associate requires orphan_session".to_owned()),
        }
    } else if same(method, "session.ensure") {
        Ok(ControlWork::Ensure)
    } else if same(method, "session.open") {
        Ok(ControlWork::Open)
    } else if same(method, "session.window.open") {
        match window_index {
            Some(index) => {
                Ok(ControlWork::OpenWindow(index))
            },
            None => Err("session.window.open requires window_index".to_owned()),
        }
    } else if same(method, "session.terminal.open") {
        Ok(ControlWork::OpenTerminal)
    } else if same(method, "session.window.create") {
        Ok(ControlWork::CreateWindow)
    } else if same(method, "session.worktree.close") {
        Ok(ControlWork::Close)
    } else if same(method, "agent.start") {
        Ok(ControlWork::StartAgent(crate::model::copy_text(resume)))
    } else {
        let mut message = "unknown control method `".to_owned();
        message.append(method);
        message.append("`");
        Err(message)
    }
}

/// What came of the work on a worktree's session.
#[derive(Debug)]
pub enum ControlDone {
    AttentionCleared { cleared: serde_json::Value },
    Associated { session: String },
    Ensured { session: String, created: bool },
    /// The session was opened, in the terminal that was there or in a new one.
    Opened { session: String, activation: serde_json::Value },
    WindowOpened { session: String, index: u32, activation: serde_json::Value },
    WindowCreated { session: String, window: serde_json::Value },
    Closed,
    AgentStarted { unit: serde_json::Value },
}

/// What is to be remembered of the session afterwards.
#[derive(Debug, PartialEq, Eq)]
pub enum SessionNote {
    /// It runs, under this name.
    Record(String),
    /// It was closed on purpose.
    Forget,
    /// Nothing.
    Leave,
}

impl ControlDone {
    /// The session the work was about.
    pub open spec fn session(self, worktree_id: Seq<char>) -> Seq<char> {
        match self {
            ControlDone::Associated { session } => session@,
            ControlDone::Ensured { session, created } => session@,
            ControlDone::Opened { session, activation } => session@,
            ControlDone::WindowOpened { session, index, activation } => session@,
            ControlDone::WindowCreated { session, window } => session@,
            _ => session_name_of(worktree_id),
        }
    }

    /// The answer to the request: the worktree, the session, and what else came
    /// of it.
    pub open spec fn answer(self, worktree_id: Seq<char>) -> serde_json::Value {
        let base = json::Members::empty().insert("worktree_id"@, json::text_value(worktree_id)).insert(
            "session"@,
            json::text_value(self.session(worktree_id)),
        );
        json::object_value(
            match self {
                ControlDone::AttentionCleared { cleared } => base.insert("cleared"@, cleared),
                ControlDone::Associated { session } => base,
                ControlDone::Ensured { session, created } => base.insert(
                    "created"@,
                    json::flag_value(created),
                ),
                ControlDone::Opened { session, activation } => base.insert(
                    "activation"@,
                    activation,
                ),
                ControlDone::WindowOpened { session, index, activation } => base.insert(
                    "window_index"@,
                    json::number_value(index as u64),
                ).insert("activation"@, activation),
                ControlDone::WindowCreated { session, window } => base.insert("window"@, window),
                ControlDone::Closed => base,
                ControlDone::AgentStarted { unit } => base.insert("unit"@, unit),
            },
        )
    }

    /// What is to be remembered: a session that was dealt with runs, one that was
    /// closed is forgotten, and clearing attention says nothing of it.
    pub open spec fn remembers(self, worktree_id: Seq<char>, note: SessionNote) -> bool {
        match self {
            ControlDone::AttentionCleared { cleared } => note is Leave,
            ControlDone::Closed => note is Forget,
            _ => note matches SessionNote::Record(name) && name@ == self.session(worktree_id),
        }
    }

    /// What is to be remembered, and the answer to the request.
    pub fn conclude(&self, worktree_id: &str) -> (r: (SessionNote, serde_json::Value))
        ensures
            self.remembers(worktree_id@, r.0),
            r.1 == self.answer(worktree_id@),
    {
        let mut own = "wt-".to_owned();
        own.append(worktree_id);
        let session = match self {
            ControlDone::Associated { session } => session.clone(),
            ControlDone::Ensured { session, .. } => session.clone(),
            ControlDone::Opened { session, .. } => session.clone(),
            ControlDone::WindowOpened { session, .. } => session.clone(),
            ControlDone::WindowCreated { session, .. } => session.clone(),
            _ => own,
        };
        let mut result = json::empty_object();
        json::put(&mut result, "worktree_id", json::text(worktree_id));
        json::put(&mut result, "session", json::text(session.as_str()));
        match self {
            ControlDone::AttentionCleared { cleared } => {
                json::put(&mut result, "cleared", cleared.clone());
            },
            ControlDone::Associated { .. } => {},
            ControlDone::Ensured { created, .. } => {
                json::put(&mut result, "created", json::flag(*created));
            },
            ControlDone::Opened { activation, .. } => {
                json::put(&mut result, "activation", activation.clone());
            },
            ControlDone::WindowOpened { index, activation, .. } => {
                json::put(&mut result, "window_index", json::number(*index as u64));
                json::put(&mut result, "activation", activation.clone());
            },
            ControlDone::WindowCreated { window, .. } => {
                json::put(&mut result, "window", window.clone());
            },
            ControlDone::Closed => {},
            ControlDone::AgentStarted { unit } => {
                json::put(&mut result, "unit", unit.clone());
            },
        }
        let note = match self {
            ControlDone::AttentionCleared { .. } => SessionNote::Leave,
            ControlDone::Closed => SessionNote::Forget,
            _ => SessionNote::Record(session),
        };
        (note, json::object(result))
    }
}

/// What is remembered of a session that runs.
pub fn session_record(
    project_id: &str,
    worktree_id: &str,
    worktree_path: &str,
    session: &str,
    now: u64,
) -> (r: SessionRecord)
    ensures
        r.worktree_id@ == worktree_id@,
        r.project_id@ == project_id@,
        r.worktree_path@ == worktree_path@,
        r.session_name@ == session@,
        r.last_activity_at == now,
{
    SessionRecord {
        worktree_id: worktree_id.to_owned(),
        project_id: project_id.to_owned(),
        worktree_path: worktree_path.to_owned(),
        session_name: session.to_owned(),
        last_activity_at: now,
    }
}

/// The answer to a request to close a session by its name.
pub fn close_session_result(session: &str) -> (r: serde_json::Value)
    ensures
        r == json::object_value(
            json::Members::empty().insert("session"@, json::text_value(session@)),
        ),
{
    let mut result = json::empty_object();
    json::put(&mut result, "session", json::text(session));
    json::object(result)
}

/// The answer to a request to open a session that has no worktree.
pub fn open_orphan_result(session: &str, activation: serde_json::Value) -> (r: serde_json::Value)
    ensures
        r == json::object_value(
            json::Members::empty().insert("session"@, json::text_value(session@)).insert(
                "activation"@,
                activation,
            ),
        ),
{
    let mut result = json::empty_object();
    json::put(&mut result, "session", json::text(session));
    json::put(&mut result, "activation", activation);
    json::object(result)
}

/// The answer to a request to stop the session server.
pub fn stop_server_result() -> (r: serde_json::Value)
    ensures
        r == json::object_value(json::Members::empty().insert("stopped"@, json::flag_value(true))),
{
    let mut result = json::empty_object();
    json::put(&mut result, "stopped", json::flag(true));
    json::object(result)
}

/// The answer to a question for a worktree's status: what its session was found
/// to do, or that it has stopped. `found` says whether the worktree is known at
/// all: a mistyped id must not read as a stopped session.
pub fn status_get(
    request: &Request,
    worktree_id: &str,
    found: &Result<(), String>,
    status: Option<serde_json::Value>,
) -> (r: Response)
    ensures
        match *found {
            Err(error) => r.refuses(request.id@, "internal_error"@, error@),
            Ok(_) => r.succeeds(
                request.id@,
                json::object_value(
                    json::Members::empty().insert(
                        "worktree_id"@,
                        json::text_value(worktree_id@),
                    ).insert(
                        "status"@,
                        (match status {
                            Some(value) => value,
                            None => json::text_value("stopped"@),
                        }),
                    ),
                ),
            ),
        },
{
    match found {
        Err(error) => Response::error(request.id.as_str(), "internal_error", error.as_str()),
        Ok(_) => {
            let mut result = json::empty_object();
            json::put(&mut result, "worktree_id", json::text(worktree_id));
            json::put(
                &mut result,
                "status",
                match status {
                    Some(value) => value,
                    None => json::text("stopped"),
                },
            );
            Response::success(request.id.as_str(), json::object(result))
        },
    }
}

/// A conversation that could not be brought back, or not be taken down.
#[derive(Debug, PartialEq, Eq)]
pub struct ResumeFailure {
    pub worktree_path: String,
    pub message: String,
}

/// What came of bringing the recorded conversations back.
#[derive(Debug, PartialEq, Eq)]
pub struct ResumeRecordedResult {
    pub worktree_ids: Vec<String>,
    pub failures: Vec<ResumeFailure>,
}

/// A conversation that is to be brought back.
#[derive(Debug, PartialEq, Eq)]
pub struct ResumePlan {
    pub worktree_id: String,
    pub worktree_path: String,
    pub session_id: String,
}

pub open spec fn ids_value(ids: Seq<String>) -> Seq<serde_json::Value> {
    ids.map_values(|id: String| json::text_value(id@))
}

pub open spec fn failure_value(failure: ResumeFailure) -> serde_json::Value {
    json::object_value(
        json::Members::empty().insert(
            "worktree_path"@,
            json::text_value(failure.worktree_path@),
        ).insert("message"@, json::text_value(failure.message@)),
    )
}

pub open spec fn failures_value(failures: Seq<ResumeFailure>) -> Seq<serde_json::Value> {
    failures.map_values(|failure: ResumeFailure| failure_value(failure))
}

impl ResumeRecordedResult {
    /// The result as it is answered.
    pub open spec fn answer(self) -> serde_json::Value {
        json::object_value(
            json::Members::empty().insert(
                "worktree_ids"@,
                json::list_value(ids_value(self.worktree_ids@)),
            ).insert("failures"@, json::list_value(failures_value(self.failures@))),
        )
    }

    pub fn new() -> (r: Self)
        ensures
            r.worktree_ids@ == Seq::<String>::empty(),
            r.failures@ == Seq::<ResumeFailure>::empty(),
    {
        ResumeRecordedResult { worktree_ids: Vec::new(), failures: Vec::new() }
    }

    /// Takes down what came of one conversation: whether its agent started, and
    /// where it did, whether its session could be indexed. An agent that started
    /// is resumed, indexed or not.
    pub fn note(
        &mut self,
        plan: &ResumePlan,
        started: &Result<(), String>,
        indexed: &Result<(), String>,
    )
        ensures
            match *started {
                Err(error) => {
                    &&& final(self).worktree_ids@ == old(self).worktree_ids@
                    &&& final(self).failures@ == old(self).failures@.push(
                        ResumeFailure { worktree_path: plan.worktree_path, message: error },
                    )
                },
                Ok(_) => {
                    &&& final(self).worktree_ids@ == old(self).worktree_ids@.push(plan.worktree_id)
                    &&& match *indexed {
                        Ok(_) => final(self).failures@ == old(self).failures@,
                        Err(error) => {
                            &&& final(self).failures@.len() == old(self).failures@.len() + 1
                            &&& final(self).failures@.drop_last() == old(self).failures@
                            &&& final(self).failures@.last().worktree_path == plan.worktree_path
                            &&& final(self).failures@.last().message@
                                == "agent resumed, but its session could not be indexed: "@
                                + error@
                        },
                    }
                },
            },
    {
        match started {
            Err(error) => {
                self.failures.push(
                    ResumeFailure {
                        worktree_path: plan.worktree_path.clone(),
                        message: error.clone(),
                    },
                );
            },
            Ok(_) => {
                self.worktree_ids.push(plan.worktree_id.clone());
                if let Err(error) = indexed {
                    let mut message = "agent resumed, but its session could not be indexed: ".to_owned();
                    message.append(error.as_str());
                    self.failures.push(
                        ResumeFailure { worktree_path: plan.worktree_path.clone(), message },
                    );
                    assert(self.failures@.drop_last() =~= old(self).failures@);
                }
            },
        }
    }

    /// The result as it is answered.
    pub fn to_value(&self) -> (r: serde_json::Value)
        ensures
            r == self.answer(),
    {
        let mut ids: Vec<serde_json::Value> = Vec::new();
        let mut i: usize = 0;
        while i < self.worktree_ids.len()
            invariant
                i <= self.worktree_ids.len(),
                ids@ == ids_value(self.worktree_ids@.subrange(0, i as int)),
            decreases self.worktree_ids.len() - i,
        {
            ids.push(json::text(self.worktree_ids[i].as_str()));
            i += 1;
            assert(ids@ =~= ids_value(self.worktree_ids@.subrange(0, i as int)));
        }
        assert(self.worktree_ids@.subrange(0, i as int) =~= self.worktree_ids@);
        let mut failures: Vec<serde_json::Value> = Vec::new();
        let mut j: usize = 0;
        while j < self.failures.len()
            invariant
                j <= self.failures.len(),
                failures@ == failures_value(self.failures@.subrange(0, j as int)),
            decreases self.failures.len() - j,
        {
            let failure = &self.failures[j];
            let mut entry = json::empty_object();
            json::put(&mut entry, "worktree_path", json::text(failure.worktree_path.as_str()));
            json::put(&mut entry, "message", json::text(failure.message.as_str()));
            failures.push(json::object(entry));
            j += 1;
            assert(failures@ =~= failures_value(self.failures@.subrange(0, j as int)));
        }
        assert(self.failures@.subrange(0, j as int) =~= self.failures@);
        let mut result = json::empty_object();
        json::put(&mut result, "worktree_ids", json::list(ids));
        json::put(&mut result, "failures", json::list(failures));
        json::object(result)
    }
}

/// There is something to bring back: it is wanted, and agents were recorded.
pub fn resume_wanted(resume_on_startup: bool, state: &State) -> (r: bool)
    ensures
        r == (resume_on_startup && state.agents@.len() > 0),
{
    resume_on_startup && !state.agents.is_empty()
}

/// The references to the projects that are remembered.
pub fn recorded_refs(state: &State) -> (r: Vec<ProjectRef>)
    ensures
        ref_views(r@) == state.projects@.map_values(
            |record: ProjectRecord| ref_of(project_of(record)),
        ),
{
    let mut refs: Vec<ProjectRef> = Vec::new();
    let mut i: usize = 0;
    while i < state.projects.len()
        invariant
            i <= state.projects.len(),
            refs.len() == i,
            forall|k: int|
                0 <= k < i ==> (#[trigger] refs@[k])@ == ref_of(project_of(state.projects@[k])),
        decreases state.projects.len() - i,
    {
        let project = &state.projects[i];
        refs.push(
            ProjectRef {
                id: project.id.clone(),
                name: project.name.clone(),
                repository_path: project.repository_path.clone(),
                git_common_dir: project.git_common_dir.clone(),
            },
        );
        i += 1;
    }
    assert(ref_views(refs@) =~= state.projects@.map_values(
        |record: ProjectRecord| ref_of(project_of(record)),
    ));
    refs
}

/// What a pass found, with what is remembered of each project; what it found of
/// projects without a record is dropped.
pub open spec fn found_projects(statuses: Seq<ProjectStatus>, records: Seq<ProjectRecord>) -> Seq<
    ProjectView,
>
    decreases statuses.len(),
{
    if statuses.len() == 0 {
        Seq::empty()
    } else {
        let before = found_projects(statuses.drop_last(), records);
        let status = statuses.last();
        match record_at(records, status.id@) {
            Some(i) => before.push(
                ProjectView {
                    id: status.id@,
                    name: status.name@,
                    worktrees: worktree_views(status.worktrees@),
                    unavailable: text_view(status.unavailable),
                    ..project_of(records[i])
                },
            ),
            None => before,
        }
    }
}

/// The projects a pass found, with what is remembered of each.
pub fn reconciled_projects(statuses: Vec<ProjectStatus>, state: &State) -> (r: Vec<Project>)
    ensures
        project_views(r@) == found_projects(statuses@, state.projects@),
{
    let ghost all = statuses@;
    let mut projects: Vec<Project> = Vec::new();
    assert(all.subrange(0, 0) =~= Seq::<ProjectStatus>::empty());
    assert(project_views(projects@) =~= Seq::<ProjectView>::empty());
    for status in it: statuses
        invariant
            it.seq() == all,
            project_views(projects@) == found_projects(
                all.subrange(0, it.index() as int),
                state.projects@,
            ),
    {
        let ghost n = it.index() as int;
        assert(all.subrange(0, n + 1).drop_last() =~= all.subrange(0, n));
        let ghost was = projects@;
        if let Some(record) = state.find(status.id.as_str()) {
            let project = Project {
                id: status.id,
                name: status.name,
                repository_path: record.repository_path.clone(),
                git_common_dir: record.git_common_dir.clone(),
                default_worktree_path: record.default_worktree_path.clone(),
                is_expanded: record.is_expanded,
                worktrees: status.worktrees,
                unavailable: status.unavailable,
            };
            projects.push(project);
            assert(project_views(projects@) =~= project_views(was).push(project@));
        }
    }
    assert(all.subrange(0, all.len() as int) =~= all);
    projects
}

/// Finishes a request to bring the recorded conversations back: a failure is
/// answered and not kept; a result is kept under the key and answered.
pub fn resume_completed(
    request: &Request,
    key: String,
    outcome: Result<ResumeRecordedResult, String>,
    kept: &mut Table<Response>,
) -> (r: Response)
    ensures
        match outcome {
            Err(error) => {
                &&& r.refuses(request.id@, "resume_failed"@, error@)
                &&& final(kept)@ == old(kept)@
            },
            Ok(result) => {
                &&& r.succeeds(request.id@, result.answer())
                &&& final(kept)@ == old(kept)@.insert(key@, r)
            },
        },
{
    match outcome {
        Err(error) => Response::error(request.id.as_str(), "resume_failed", error.as_str()),
        Ok(result) => {
            let response = Response::success(request.id.as_str(), result.to_value());
            kept.insert(key, response.clone());
            response
        },
    }
}

proof fn lemma_own_work(
    work: ControlWork,
    method: Method,
    resume: Option<String>,
    window_index: Option<u32>,
    orphan_session: Option<String>,
)
    requires
        is_work(work, method.spelling(), resume, window_index, orphan_session),
    ensures
        method == Method::SessionAttentionClear <==> work is ClearAttention,
        method == Method::SessionAssociate <==> work is Associate,
        method == Method::SessionEnsure <==> work is Ensure,
        method == Method::SessionOpen <==> work is Open,
        method == Method::SessionWindowOpen <==> work is OpenWindow,
        method == Method::SessionTerminalOpen <==> work is OpenTerminal,
        method == Method::SessionWindowCreate <==> work is CreateWindow,
        method == Method::SessionWorktreeClose <==> work is Close,
        method == Method::AgentStart <==> work is StartAgent,
{
    match work {
        ControlWork::ClearAttention => method_names_differ(method, Method::SessionAttentionClear),
        ControlWork::Associate(_) => method_names_differ(method, Method::SessionAssociate),
        ControlWork::Ensure => method_names_differ(method, Method::SessionEnsure),
        ControlWork::Open => method_names_differ(method, Method::SessionOpen),
        ControlWork::OpenWindow(_) => method_names_differ(method, Method::SessionWindowOpen),
        ControlWork::OpenTerminal => method_names_differ(method, Method::SessionTerminalOpen),
        ControlWork::CreateWindow => method_names_differ(method, Method::SessionWindowCreate),
        ControlWork::Close => method_names_differ(method, Method::SessionWorktreeClose),
        ControlWork::StartAgent(_) => method_names_differ(method, Method::AgentStart),
    }
}

/// Each control method comes to its own work and to no other: the terminal is
/// opened by the method of that name, a window is made by the one that makes
/// windows, and so on; what a method was given is what its work is done with.
pub proof fn each_control_method_has_its_own_work(
    work: ControlWork,
    method: Seq<char>,
    resume: Option<String>,
    window_index: Option<u32>,
    orphan_session: Option<String>,
)
    requires
        is_work(work, method, resume, window_index, orphan_session),
    ensures
        method == "session.attention.clear"@ <==> work == ControlWork::ClearAttention,
        method == "session.ensure"@ <==> work == ControlWork::Ensure,
        method == "session.open"@ <==> work == ControlWork::Open,
        method == "session.terminal.open"@ <==> work == ControlWork::OpenTerminal,
        method == "session.window.create"@ <==> work == ControlWork::CreateWindow,
        method == "session.worktree.close"@ <==> work == ControlWork::Close,
        method == "agent.start"@ <==> work == ControlWork::StartAgent(resume),
        method == "session.window.open"@ <==> window_index is Some && work
            == ControlWork::OpenWindow(window_index->0),
        method == "session.associate"@ <==> orphan_session is Some && work
            == ControlWork::Associate(orphan_session->0),
{
    let m = match work {
        ControlWork::ClearAttention => Method::SessionAttentionClear,
        ControlWork::Associate(_) => Method::SessionAssociate,
        ControlWork::Ensure => Method::SessionEnsure,
        ControlWork::Open => Method::SessionOpen,
        ControlWork::OpenWindow(_) => Method::SessionWindowOpen,
        ControlWork::OpenTerminal => Method::SessionTerminalOpen,
        ControlWork::CreateWindow => Method::SessionWindowCreate,
        ControlWork::Close => Method::SessionWorktreeClose,
        ControlWork::StartAgent(_) => Method::AgentStart,
    };
    assert(m.spelling() == method);
    lemma_own_work(work, m, resume, window_index, orphan_session);
    each_name_stands_for_its_method(m);
}

/// Every control method that was given what it needs comes to some work, and a
/// name that is none of theirs comes to none.
pub proof fn a_complete_control_request_comes_to_work(
    method: Seq<char>,
    window_index: Option<u32>,
    orphan_session: Option<String>,
)
    ensures
        method == "session.attention.clear"@ || method == "session.ensure"@ || method
            == "session.open"@ || method == "session.terminal.open"@ || method
            == "session.window.create"@ || method == "session.worktree.close"@ || method
            == "agent.start"@ ==> no_work(method, window_index, orphan_session) is None,
        method == "session.window.open"@ ==> (no_work(method, window_index, orphan_session) is None
            <==> window_index is Some),
        method == "session.associate"@ ==> (no_work(method, window_index, orphan_session) is None
            <==> orphan_session is Some),
        no_work(method, window_index, orphan_session) is None ==> {
            ||| method == "session.attention.clear"@
            ||| method == "session.associate"@
            ||| method == "session.ensure"@
            ||| method == "session.open"@
            ||| method == "session.window.open"@
            ||| method == "session.terminal.open"@
            ||| method == "session.window.create"@
            ||| method == "session.worktree.close"@
            ||| method == "agent.start"@
        },
{
    lemma_control_names();
}

}
