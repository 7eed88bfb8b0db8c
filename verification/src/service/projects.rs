//! The operations on projects, worktrees and branches.
use vstd::prelude::*;
use vstd::string::*;

use crate::json;
use crate::model::MAX_SLOT;
use crate::protocol::{bounded, is_bounded, is_printable, printable, EventKind, Request, Response};
use crate::service::events::EventHub;
use crate::service::idempotency::{is_usable, key_message, recall, refuse, usable, Admission};
use crate::service::mutations::{publish_state, published, state_payload, StateChange};
use crate::service::params::{
    CreateWorktreeParams, DeleteBranchParams, OpenProjectParams, ProjectExpandedParams,
    RemoveWorktreeParams, SlotAssignParams,
};
use crate::state::{record_at, State};
use crate::table::Table;

verus! {

/// The longest name of a branch or a ref, in bytes.
pub const MAX_REF_LEN: usize = 1024;

/// The value names something: it is not empty and has no control character.
pub fn valid_identity(value: &str) -> (r: bool)
    ensures
        r == is_printable(value@),
{
    printable(value)
}

/// A change to what is remembered.
#[derive(Debug, PartialEq, Eq)]
pub enum Mutation {
    SetProjectExpanded { project_id: String, expanded: bool },
    RemoveProject { project_id: String },
    AssignSlot { number: u8, worktree_id: String },
    ClearSlot { worktree_id: String },
    IgnoreSession { session_name: String },
}

/// The parameters were refused with this message.
pub open spec fn refused(r: Result<Mutation, Response>, id: Seq<char>, message: Seq<char>) -> bool {
    r matches Err(response) && response.refuses(id, "invalid_params"@, message)
}

fn invalid(request: &Request, message: &str) -> (r: Result<Mutation, Response>)
    ensures
        refused(r, request.id@, message@),
{
    Err(Response::error(request.id.as_str(), "invalid_params", message))
}

pub fn set_project_expanded(
    request: &Request,
    params: Result<ProjectExpandedParams, String>,
) -> (r: Result<Mutation, Response>)
    ensures
        match params {
            Err(error) => refused(r, request.id@, error@),
            Ok(p) => if is_printable(p.project_id@) {
                r == Ok::<Mutation, Response>(
                    Mutation::SetProjectExpanded {
                        project_id: p.project_id,
                        expanded: p.expanded,
                    },
                )
            } else {
                refused(r, request.id@, "project_id must be a non-empty printable value"@)
            },
        },
{
    match params {
        Err(error) => invalid(request, error.as_str()),
        Ok(p) => if valid_identity(p.project_id.as_str()) {
            Ok(Mutation::SetProjectExpanded { project_id: p.project_id, expanded: p.expanded })
        } else {
            invalid(request, "project_id must be a non-empty printable value")
        },
    }
}

pub fn remove_project(request: &Request, project_id: Result<String, String>) -> (r: Result<
    Mutation,
    Response,
>)
    ensures
        match project_id {
            Err(error) => refused(r, request.id@, error@),
            Ok(id) => if is_printable(id@) {
                r == Ok::<Mutation, Response>(Mutation::RemoveProject { project_id: id })
            } else {
                refused(r, request.id@, "project_id must be a non-empty printable value"@)
            },
        },
{
    match project_id {
        Err(error) => invalid(request, error.as_str()),
        Ok(id) => if valid_identity(id.as_str()) {
            Ok(Mutation::RemoveProject { project_id: id })
        } else {
            invalid(request, "project_id must be a non-empty printable value")
        },
    }
}

pub fn assign_slot(request: &Request, params: Result<SlotAssignParams, String>) -> (r: Result<
    Mutation,
    Response,
>)
    ensures
        match params {
            Err(error) => refused(r, request.id@, error@),
            Ok(p) => if 1 <= p.number <= MAX_SLOT && is_printable(p.worktree_id@) {
                r == Ok::<Mutation, Response>(
                    Mutation::AssignSlot { number: p.number, worktree_id: p.worktree_id },
                )
            } else {
                refused(
                    r,
                    request.id@,
                    "slot number and worktree_id must identify a valid assignment"@,
                )
            },
        },
{
    match params {
        Err(error) => invalid(request, error.as_str()),
        Ok(p) => if 1 <= p.number && p.number <= MAX_SLOT && valid_identity(
            p.worktree_id.as_str(),
        ) {
            Ok(Mutation::AssignSlot { number: p.number, worktree_id: p.worktree_id })
        } else {
            invalid(request, "slot number and worktree_id must identify a valid assignment")
        },
    }
}

pub fn clear_slot(request: &Request, worktree_id: Result<String, String>) -> (r: Result<
    Mutation,
    Response,
>)
    ensures
        match worktree_id {
            Err(error) => refused(r, request.id@, error@),
            Ok(id) => if is_printable(id@) {
                r == Ok::<Mutation, Response>(Mutation::ClearSlot { worktree_id: id })
            } else {
                refused(r, request.id@, "worktree_id must be a non-empty printable value"@)
            },
        },
{
    match worktree_id {
        Err(error) => invalid(request, error.as_str()),
        Ok(id) => if valid_identity(id.as_str()) {
            Ok(Mutation::ClearSlot { worktree_id: id })
        } else {
            invalid(request, "worktree_id must be a non-empty printable value")
        },
    }
}

pub fn ignore_session(request: &Request, session: Result<String, String>) -> (r: Result<
    Mutation,
    Response,
>)
    ensures
        match session {
            Err(error) => refused(r, request.id@, error@),
            Ok(name) => if is_printable(name@) {
                r == Ok::<Mutation, Response>(Mutation::IgnoreSession { session_name: name })
            } else {
                refused(r, request.id@, "session must be a non-empty printable value"@)
            },
        },
{
    match session {
        Err(error) => invalid(request, error.as_str()),
        Ok(name) => if valid_identity(name.as_str()) {
            Ok(Mutation::IgnoreSession { session_name: name })
        } else {
            invalid(request, "session must be a non-empty printable value")
        },
    }
}

/// Answers with the parameter's name where what it names is not printable.
pub open spec fn identity_message(name: Seq<char>) -> Seq<char> {
    name + " must be a non-empty printable value"@
}

/// Takes in a request that reads something of one project or one worktree: the
/// id it names, or the answer that refuses it. `name` is the parameter's name.
pub fn named_target(request: &Request, name: &str, id: Result<String, String>) -> (r: Result<
    String,
    Response,
>)
    ensures
        match id {
            Err(error) => r matches Err(response) && response.refuses(
                request.id@,
                "invalid_params"@,
                error@,
            ),
            Ok(value) => if is_printable(value@) {
                r == Ok::<String, Response>(value)
            } else {
                r matches Err(response) && response.refuses(
                    request.id@,
                    "invalid_params"@,
                    identity_message(name@),
                )
            },
        },
{
    match id {
        Err(error) => Err(
            Response::error(request.id.as_str(), "invalid_params", error.as_str()),
        ),
        Ok(value) => if valid_identity(value.as_str()) {
            Ok(value)
        } else {
            let mut message = name.to_owned();
            message.append(" must be a non-empty printable value");
            Err(Response::error(request.id.as_str(), "invalid_params", message.as_str()))
        },
    }
}

/// The project a request names, among those that are remembered.
pub fn known_project(state: &State, project_id: &str) -> (r: Result<usize, String>)
    ensures
        match record_at(state.projects@, project_id@) {
            Some(i) => r matches Ok(found) && found == i,
            None => r matches Err(message) && message@ == "unknown project `"@ + project_id@
                + "`"@,
        },
{
    let wanted = project_id.to_owned();
    let mut i: usize = 0;
    proof {
        crate::state::record_at_is_first(state.projects@, project_id@);
    }
    while i < state.projects.len()
        invariant
            i <= state.projects.len(),
            wanted@ == project_id@,
            forall|k: int| 0 <= k < i ==> (#[trigger] state.projects@[k]).id@ != project_id@,
        decreases state.projects.len() - i,
    {
        if state.projects[i].id == wanted {
            proof {
                crate::state::record_at_is_first(state.projects@, project_id@);
            }
            return Ok(i);
        }
        i += 1;
    }
    let mut message = "unknown project `".to_owned();
    message.append(project_id);
    message.append("`");
    Err(message)
}

/// The answer to a question for the branches of a project.
pub fn project_refs_result(
    project_id: &str,
    refs: serde_json::Value,
    current: serde_json::Value,
) -> (r: serde_json::Value)
    ensures
        r == json::object_value(
            json::Members::empty().insert("project_id"@, json::text_value(project_id@)).insert(
                "refs"@,
                refs,
            ).insert("current"@, current),
        ),
{
    let mut result = json::empty_object();
    json::put(&mut result, "project_id", json::text(project_id));
    json::put(&mut result, "refs", refs);
    json::put(&mut result, "current", current);
    json::object(result)
}

/// The answer to a question for what a removal would lose.
pub fn inspect_removal_result(
    project_id: &str,
    worktree_id: &str,
    report: serde_json::Value,
) -> (r: serde_json::Value)
    ensures
        r == json::object_value(
            json::Members::empty().insert("project_id"@, json::text_value(project_id@)).insert(
                "worktree_id"@,
                json::text_value(worktree_id@),
            ).insert("report"@, report),
        ),
{
    let mut result = json::empty_object();
    json::put(&mut result, "project_id", json::text(project_id));
    json::put(&mut result, "worktree_id", json::text(worktree_id));
    json::put(&mut result, "report", report);
    json::object(result)
}

/// The answer to a question for the working trees of a project.
pub fn project_statuses_result(project_id: &str, statuses: serde_json::Value) -> (r:
    serde_json::Value)
    ensures
        r == json::object_value(
            json::Members::empty().insert("project_id"@, json::text_value(project_id@)).insert(
                "statuses"@,
                statuses,
            ),
        ),
{
    let mut result = json::empty_object();
    json::put(&mut result, "project_id", json::text(project_id));
    json::put(&mut result, "statuses", statuses);
    json::object(result)
}

/// The answer to a request to list the worktrees of a project again.
pub fn refresh_project_result(
    project_id: &str,
    worktrees: serde_json::Value,
    statuses: serde_json::Value,
) -> (r: serde_json::Value)
    ensures
        r == json::object_value(
            json::Members::empty().insert("project_id"@, json::text_value(project_id@)).insert(
                "worktrees"@,
                worktrees,
            ).insert("statuses"@, statuses),
        ),
{
    let mut result = json::empty_object();
    json::put(&mut result, "project_id", json::text(project_id));
    json::put(&mut result, "worktrees", worktrees);
    json::put(&mut result, "statuses", statuses);
    json::object(result)
}

/// Why the parameters of a request to open a project are refused.
pub open spec fn open_project_refusal(p: OpenProjectParams) -> Option<Seq<char>> {
    if p.path@.len() == 0 {
        Some("project path must be non-empty"@)
    } else if !usable(p.idempotency_key@) {
        Some(key_message())
    } else {
        None
    }
}

/// Takes in a request to open a project.
pub fn open_project(
    request: &Request,
    params: &Result<OpenProjectParams, String>,
    kept: &Table<Response>,
) -> (r: Admission)
    ensures
        match *params {
            Err(error) => r.refused(request.id@, error@),
            Ok(p) => r.decided(
                request.id@,
                open_project_refusal(p),
                Some("project.open:"@ + p.path@ + ":"@ + p.idempotency_key@),
                kept@,
            ),
        },
{
    match params {
        Err(error) => refuse(request, error.as_str()),
        Ok(p) => {
            if p.path.as_str().is_empty() {
                return refuse(request, "project path must be non-empty");
            }
            if !is_usable(p.idempotency_key.as_str()) {
                return refuse(request, "idempotency_key must be 1-128 printable bytes");
            }
            let mut key = "project.open:".to_owned();
            key.append(p.path.as_str());
            key.append(":");
            key.append(p.idempotency_key.as_str());
            recall(request, Some(key), kept)
        },
    }
}

/// How opening a project failed.
#[derive(Debug, PartialEq, Eq)]
pub enum OpenError {
    /// The configuration or the repository could not be read.
    Open(String),
    /// What is remembered could not be read.
    Read(String),
    /// What is remembered could not be written.
    Write(String),
}

/// A project that was opened, and what it changed of what is remembered.
#[derive(Debug)]
pub struct ProjectOpened {
    pub project: serde_json::Value,
    pub change: StateChange,
}

/// The answer to a request to open a project.
pub open spec fn opened_answer(opened: ProjectOpened) -> serde_json::Value {
    json::object_value(
        json::Members::empty().insert("changed"@, json::flag_value(opened.change.changed)).insert(
            "project"@,
            opened.project,
        ).insert("state"@, opened.change.state),
    )
}

/// Finishes a request to open a project: a failure is answered and not kept; a
/// result is kept under the key, and published where it changed what is
/// remembered.
pub fn open_project_completed(
    request: &Request,
    key: String,
    outcome: Result<ProjectOpened, OpenError>,
    kept: &mut Table<Response>,
    events: &mut EventHub,
) -> (r: Response)
    requires
        outcome matches Ok(opened) && opened.change.changed ==> old(events).revision < u64::MAX,
    ensures
        match outcome {
            Err(OpenError::Open(error)) => {
                &&& r.refuses(request.id@, "control_failed"@, error@)
                &&& final(kept)@ == old(kept)@
                &&& *final(events) == *old(events)
            },
            Err(OpenError::Read(error)) => {
                &&& r.refuses(request.id@, "state_read_failed"@, error@)
                &&& final(kept)@ == old(kept)@
                &&& *final(events) == *old(events)
            },
            Err(OpenError::Write(error)) => {
                &&& r.refuses(request.id@, "state_write_failed"@, error@)
                &&& final(kept)@ == old(kept)@
                &&& *final(events) == *old(events)
            },
            Ok(opened) => {
                &&& r.succeeds(request.id@, opened_answer(opened))
                &&& final(kept)@ == old(kept)@.insert(key@, r)
                &&& if opened.change.changed {
                    published(
                        *old(events),
                        *final(events),
                        EventKind::StateChanged,
                        state_payload(opened.change.state),
                    )
                } else {
                    *final(events) == *old(events)
                }
            },
        },
        old(events).in_order() ==> final(events).in_order(),
{
    let opened = match outcome {
        Ok(opened) => opened,
        Err(OpenError::Open(error)) => {
            return Response::error(request.id.as_str(), "control_failed", error.as_str());
        },
        Err(OpenError::Read(error)) => {
            return Response::error(request.id.as_str(), "state_read_failed", error.as_str());
        },
        Err(OpenError::Write(error)) => {
            return Response::error(request.id.as_str(), "state_write_failed", error.as_str());
        },
    };
    if opened.change.changed {
        publish_state(&opened.change.state, events);
    }
    let mut result = json::empty_object();
    json::put(&mut result, "changed", json::flag(opened.change.changed));
    json::put(&mut result, "project", opened.project);
    json::put(&mut result, "state", opened.change.state);
    let response = Response::success(request.id.as_str(), json::object(result));
    kept.insert(key, response.clone());
    response
}

/// A ref that is given is 1 to 1024 printable bytes.
pub open spec fn ref_in_order(name: Option<String>) -> bool {
    name matches Some(name) ==> is_bounded(name@, MAX_REF_LEN as nat)
}

fn ref_allowed(name: &Option<String>) -> (r: bool)
    ensures
        r == ref_in_order(*name),
{
    match name {
        Some(name) => bounded(name.as_str(), MAX_REF_LEN),
        None => true,
    }
}

/// Why the parameters of a request to make a worktree are refused.
pub open spec fn create_refusal(p: CreateWorktreeParams) -> Option<Seq<char>> {
    if !is_printable(p.project_id@) || p.add.path@.len() == 0 {
        Some("project_id and worktree path must be non-empty printable values"@)
    } else if !ref_in_order(p.add.new_branch) || !ref_in_order(p.add.base_ref) {
        Some("branch and base ref must be 1-1024 printable bytes when present"@)
    } else if !usable(p.idempotency_key@) {
        Some(key_message())
    } else {
        None
    }
}

/// Takes in a request to make a worktree.
pub fn create_worktree(
    request: &Request,
    params: &Result<CreateWorktreeParams, String>,
    kept: &Table<Response>,
) -> (r: Admission)
    ensures
        match *params {
            Err(error) => r.refused(request.id@, error@),
            Ok(p) => r.decided(
                request.id@,
                create_refusal(p),
                Some("worktree.create:"@ + p.project_id@ + ":"@ + p.idempotency_key@),
                kept@,
            ),
        },
{
    match params {
        Err(error) => refuse(request, error.as_str()),
        Ok(p) => {
            if !printable(p.project_id.as_str()) || p.add.path.as_str().is_empty() {
                return refuse(
                    request,
                    "project_id and worktree path must be non-empty printable values",
                );
            }
            if !ref_allowed(&p.add.new_branch) || !ref_allowed(&p.add.base_ref) {
                return refuse(
                    request,
                    "branch and base ref must be 1-1024 printable bytes when present",
                );
            }
            if !is_usable(p.idempotency_key.as_str()) {
                return refuse(request, "idempotency_key must be 1-128 printable bytes");
            }
            let mut key = "worktree.create:".to_owned();
            key.append(p.project_id.as_str());
            key.append(":");
            key.append(p.idempotency_key.as_str());
            recall(request, Some(key), kept)
        },
    }
}

/// The answer to a request to make a worktree.
pub fn create_worktree_result(
    project_id: &str,
    path: serde_json::Value,
    worktrees: serde_json::Value,
) -> (r: serde_json::Value)
    ensures
        r == json::object_value(
            json::Members::empty().insert("project_id"@, json::text_value(project_id@)).insert(
                "path"@,
                path,
            ).insert("worktrees"@, worktrees),
        ),
{
    let mut result = json::empty_object();
    json::put(&mut result, "project_id", json::text(project_id));
    json::put(&mut result, "path", path);
    json::put(&mut result, "worktrees", worktrees);
    json::object(result)
}

/// A truth value as it is spelled in a key.
pub open spec fn spelled(flag: bool) -> Seq<char> {
    if flag {
        "true"@
    } else {
        "false"@
    }
}

fn spell(flag: bool) -> (r: &'static str)
    ensures
        r@ == spelled(flag),
{
    if flag {
        "true"
    } else {
        "false"
    }
}

/// Why the parameters of a request to remove a worktree are refused.
pub open spec fn remove_refusal(p: RemoveWorktreeParams) -> Option<Seq<char>> {
    if !is_printable(p.worktree_id@) {
        Some("worktree_id must be a non-empty printable value"@)
    } else if !usable(p.idempotency_key@) {
        Some(key_message())
    } else {
        None
    }
}

/// Takes in a request to remove a worktree. A forced removal is another request
/// than a plain one.
pub fn remove_worktree(
    request: &Request,
    params: &Result<RemoveWorktreeParams, String>,
    kept: &Table<Response>,
) -> (r: Admission)
    ensures
        match *params {
            Err(error) => r.refused(request.id@, error@),
            Ok(p) => r.decided(
                request.id@,
                remove_refusal(p),
                Some(
                    "worktree.remove:"@ + p.worktree_id@ + ":"@ + spelled(p.force) + ":"@
                        + p.idempotency_key@,
                ),
                kept@,
            ),
        },
{
    match params {
        Err(error) => refuse(request, error.as_str()),
        Ok(p) => {
            if !printable(p.worktree_id.as_str()) {
                return refuse(request, "worktree_id must be a non-empty printable value");
            }
            if !is_usable(p.idempotency_key.as_str()) {
                return refuse(request, "idempotency_key must be 1-128 printable bytes");
            }
            let mut key = "worktree.remove:".to_owned();
            key.append(p.worktree_id.as_str());
            key.append(":");
            key.append(spell(p.force));
            key.append(":");
            key.append(p.idempotency_key.as_str());
            recall(request, Some(key), kept)
        },
    }
}

/// The answer to a request to remove a worktree.
pub fn remove_worktree_result(
    project_id: &str,
    worktree_id: &str,
    path: serde_json::Value,
    worktrees: serde_json::Value,
) -> (r: serde_json::Value)
    ensures
        r == json::object_value(
            json::Members::empty().insert("project_id"@, json::text_value(project_id@)).insert(
                "worktree_id"@,
                json::text_value(worktree_id@),
            ).insert("path"@, path).insert("worktrees"@, worktrees),
        ),
{
    let mut result = json::empty_object();
    json::put(&mut result, "project_id", json::text(project_id));
    json::put(&mut result, "worktree_id", json::text(worktree_id));
    json::put(&mut result, "path", path);
    json::put(&mut result, "worktrees", worktrees);
    json::object(result)
}

/// Why the parameters of a request to delete a branch are refused.
pub open spec fn delete_refusal(p: DeleteBranchParams) -> Option<Seq<char>> {
    if !is_printable(p.project_id@) || !is_bounded(p.branch@, MAX_REF_LEN as nat) {
        Some("project_id and branch must be non-empty printable values"@)
    } else if !usable(p.idempotency_key@) {
        Some(key_message())
    } else {
        None
    }
}

/// Takes in a request to delete a branch. A forced deletion is another request
/// than a plain one.
pub fn delete_branch(
    request: &Request,
    params: &Result<DeleteBranchParams, String>,
    kept: &Table<Response>,
) -> (r: Admission)
    ensures
        match *params {
            Err(error) => r.refused(request.id@, error@),
            Ok(p) => r.decided(
                request.id@,
                delete_refusal(p),
                Some(
                    "branch.delete:"@ + p.project_id@ + ":"@ + p.branch@ + ":"@ + spelled(p.force)
                        + ":"@ + p.idempotency_key@,
                ),
                kept@,
            ),
        },
{
    match params {
        Err(error) => refuse(request, error.as_str()),
        Ok(p) => {
            if !printable(p.project_id.as_str()) || !bounded(p.branch.as_str(), MAX_REF_LEN) {
                return refuse(
                    request,
                    "project_id and branch must be non-empty printable values",
                );
            }
            if !is_usable(p.idempotency_key.as_str()) {
                return refuse(request, "idempotency_key must be 1-128 printable bytes");
            }
            let mut key = "branch.delete:".to_owned();
            key.append(p.project_id.as_str());
            key.append(":");
            key.append(p.branch.as_str());
            key.append(":");
            key.append(spell(p.force));
            key.append(":");
            key.append(p.idempotency_key.as_str());
            recall(request, Some(key), kept)
        },
    }
}

/// The answer to a request to delete a branch.
pub fn delete_branch_result(project_id: &str, branch: &str, worktrees: serde_json::Value) -> (r:
    serde_json::Value)
    ensures
        r == json::object_value(
            json::Members::empty().insert("project_id"@, json::text_value(project_id@)).insert(
                "branch"@,
                json::text_value(branch@),
            ).insert("worktrees"@, worktrees),
        ),
{
    let mut result = json::empty_object();
    json::put(&mut result, "project_id", json::text(project_id));
    json::put(&mut result, "branch", json::text(branch));
    json::put(&mut result, "worktrees", worktrees);
    json::object(result)
}

}
