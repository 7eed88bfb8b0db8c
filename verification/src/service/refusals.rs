//! Which requests the service refuses, and what their answers are kept under.
use vstd::prelude::*;
use vstd::string::*;
use vstd::utf8::encode_utf8;

use crate::protocol::{is_bounded, is_printable};
use crate::service::control::{
    control_key, control_refusal, option_text, session_refusal, shown_number, shown_text,
};
use crate::service::idempotency::usable;
use crate::service::params::{
    ControlParams, CreateWorktreeParams, DeleteBranchParams, OpenProjectParams,
    RemoveWorktreeParams,
};
use crate::service::projects::{
    create_refusal, delete_refusal, open_project_refusal, remove_refusal, spelled,
};
use crate::text::{decimal, is_control, reading_undoes_writing};

verus! {

/// Something is written there, and none of it is a control character: neither below
/// the blank, nor between delete and the no-break space.
pub open spec fn legible(s: Seq<char>) -> bool {
    &&& s.len() > 0
    &&& forall|k: int|
        0 <= k < s.len() ==> !((#[trigger] s[k]) as u32 <= 0x1f || 0x7f <= s[k] as u32 <= 0x9f)
}

/// Legible, and at most `max` bytes of UTF-8.
pub open spec fn short(s: Seq<char>, max: nat) -> bool {
    legible(s) && encode_utf8(s).len() <= max
}

/// A value is printable exactly where it is legible, and a key is usable exactly
/// where it is that and no longer than a hundred and twenty-eight bytes.
pub proof fn what_can_be_read_can_be_used(s: Seq<char>, max: nat)
    ensures
        is_printable(s) <==> legible(s),
        is_bounded(s, max) <==> short(s, max),
        usable(s) <==> short(s, 128),
{
    if legible(s) {
        assert forall|k: int| 0 <= k < s.len() implies !is_control(#[trigger] s[k]) by {}
    }
    if is_printable(s) {
        assert forall|k: int| 0 <= k < s.len() implies !((#[trigger] s[k]) as u32 <= 0x1f || 0x7f
            <= s[k] as u32 <= 0x9f) by {
            assert(!is_control(s[k]));
        }
    }
}

/// A control request passes exactly where its worktree, its key and what else it
/// names can be read, and it names a conversation, a window or a session only with
/// the one method that takes it; the methods that need a window or a session name
/// one.
pub proof fn a_control_request_passes_where_its_parameters_fit(
    method: Seq<char>,
    p: ControlParams,
)
    ensures
        control_refusal(method, p) is None <==> {
            &&& legible(p.worktree_id@)
            &&& p.idempotency_key matches Some(key) ==> short(key@, 128)
            &&& p.resume matches Some(resume) ==> method == "agent.start"@ && short(resume@, 128)
            &&& p.window_index is Some <==> method == "session.window.open"@
            &&& p.orphan_session is Some <==> method == "session.associate"@
            &&& p.orphan_session matches Some(session) ==> short(session@, 128)
        },
{
    what_can_be_read_can_be_used(p.worktree_id@, 0);
    if let Some(key) = p.idempotency_key {
        what_can_be_read_can_be_used(key@, 0);
    }
    if let Some(resume) = p.resume {
        what_can_be_read_can_be_used(resume@, 0);
    }
    if let Some(session) = p.orphan_session {
        what_can_be_read_can_be_used(session@, 0);
    }
}

/// What is said of a parameter that a method does not take, and of one that it
/// needs and did not get, names the parameter and the method.
pub proof fn a_misplaced_parameter_is_named(method: Seq<char>, p: ControlParams)
    requires
        legible(p.worktree_id@),
        p.idempotency_key matches Some(key) ==> short(key@, 128),
    ensures
        p.resume is Some && method != "agent.start"@ ==> control_refusal(method, p) == Some(
            "resume is accepted only by agent.start"@,
        ),
        p.resume is None && p.window_index is Some && method != "session.window.open"@
            ==> control_refusal(method, p) == Some(
            "window_index is accepted only by session.window.open"@,
        ),
        p.resume is None && p.window_index is None && method == "session.window.open"@
            ==> control_refusal(method, p) == Some("session.window.open requires window_index"@),
        p.resume is None && p.window_index is None && method != "session.window.open"@
            && p.orphan_session is Some && method != "session.associate"@ ==> control_refusal(
            method,
            p,
        ) == Some("orphan_session is accepted only by session.associate"@),
        p.resume is None && p.window_index is None && method != "session.window.open"@
            && p.orphan_session is None && method == "session.associate"@ ==> control_refusal(
            method,
            p,
        ) == Some("session.associate requires orphan_session"@),
{
    what_can_be_read_can_be_used(p.worktree_id@, 0);
    if let Some(key) = p.idempotency_key {
        what_can_be_read_can_be_used(key@, 0);
    }
}

/// A request about a named session passes exactly where the session and the key can
/// be read and are short.
pub proof fn a_session_request_passes_where_it_names_a_session(session: Seq<char>, key: Seq<char>)
    ensures
        session_refusal(session, key) is None <==> short(session, 128) && short(key, 128),
        !short(session, 128) ==> session_refusal(session, key) == Some(
            "session must be 1-128 printable bytes"@,
        ),
        short(session, 128) && !short(key, 128) ==> session_refusal(session, key) == Some(
            "idempotency_key must be 1-128 printable bytes"@,
        ),
{
    what_can_be_read_can_be_used(session, 0);
    what_can_be_read_can_be_used(key, 0);
}

/// A request to open a project passes exactly where it names a path and a key.
pub proof fn an_open_request_passes_where_it_names_a_path(p: OpenProjectParams)
    ensures
        open_project_refusal(p) is None <==> p.path@.len() > 0 && short(p.idempotency_key@, 128),
        p.path@.len() == 0 ==> open_project_refusal(p) == Some("project path must be non-empty"@),
{
    what_can_be_read_can_be_used(p.idempotency_key@, 0);
}

/// A request to make a worktree passes exactly where it names a project, a path and
/// a key, and the branch and the base it names, if any, can be read and are at most
/// a thousand and twenty-four bytes.
pub proof fn a_create_request_passes_where_it_is_complete(p: CreateWorktreeParams)
    ensures
        create_refusal(p) is None <==> {
            &&& legible(p.project_id@)
            &&& p.add.path@.len() > 0
            &&& p.add.new_branch matches Some(branch) ==> short(branch@, 1024)
            &&& p.add.base_ref matches Some(base) ==> short(base@, 1024)
            &&& short(p.idempotency_key@, 128)
        },
{
    what_can_be_read_can_be_used(p.project_id@, 0);
    what_can_be_read_can_be_used(p.idempotency_key@, 0);
    if let Some(branch) = p.add.new_branch {
        what_can_be_read_can_be_used(branch@, 1024);
    }
    if let Some(base) = p.add.base_ref {
        what_can_be_read_can_be_used(base@, 1024);
    }
}

/// A request to remove a worktree or to delete a branch passes exactly where what it
/// names can be read, forced or not.
pub proof fn a_removal_request_passes_where_it_names_its_target(
    p: RemoveWorktreeParams,
    q: DeleteBranchParams,
)
    ensures
        remove_refusal(p) is None <==> legible(p.worktree_id@) && short(p.idempotency_key@, 128),
        delete_refusal(q) is None <==> legible(q.project_id@) && short(q.branch@, 1024) && short(
            q.idempotency_key@,
            128,
        ),
{
    what_can_be_read_can_be_used(p.worktree_id@, 0);
    what_can_be_read_can_be_used(p.idempotency_key@, 0);
    what_can_be_read_can_be_used(q.project_id@, 0);
    what_can_be_read_can_be_used(q.branch@, 1024);
    what_can_be_read_can_be_used(q.idempotency_key@, 0);
}

/// A forced request is kept under another name than a plain one.
pub proof fn force_is_spelled_out()
    ensures
        spelled(true) == "true"@,
        spelled(false) == "false"@,
        spelled(true) != spelled(false),
{
    reveal_strlit("true");
    reveal_strlit("false");
    assert("true"@.len() != "false"@.len());
}

proof fn lemma_same_behind(a: Seq<char>, b: Seq<char>, rest: Seq<char>)
    requires
        a + rest == b + rest,
    ensures
        a == b,
{
    assert((a + rest).len() == a.len() + rest.len());
    assert((b + rest).len() == b.len() + rest.len());
    assert(a =~= (a + rest).subrange(0, a.len() as int));
    assert(b =~= (b + rest).subrange(0, b.len() as int));
}

proof fn lemma_same_before(first: Seq<char>, a: Seq<char>, b: Seq<char>)
    requires
        first + a == first + b,
    ensures
        a == b,
{
    assert(a =~= (first + a).subrange(first.len() as int, (first + a).len() as int));
    assert(b =~= (first + b).subrange(first.len() as int, (first + b).len() as int));
}

/// The part of a control request's key up to the window.
spec fn key_lead(method: Seq<char>, p: ControlParams) -> Seq<char> {
    method + ":"@ + p.worktree_id@ + ":"@ + shown_text(option_text(p.resume)) + ":"@
}

/// The part of a control request's key behind the window.
spec fn key_tail(p: ControlParams) -> Seq<char> {
    ":"@ + shown_text(option_text(p.orphan_session)) + ":"@ + p.idempotency_key->0@
}

proof fn lemma_key_splits_at_window(method: Seq<char>, p: ControlParams)
    requires
        p.idempotency_key is Some,
    ensures
        control_key(method, p)->0 == key_lead(method, p) + (shown_number(p.window_index) + key_tail(
            p,
        )),
{
    assert(control_key(method, p)->0 =~= key_lead(method, p) + (shown_number(p.window_index)
        + key_tail(p)));
}

proof fn lemma_key_splits_at_worktree(method: Seq<char>, p: ControlParams)
    requires
        p.idempotency_key is Some,
    ensures
        control_key(method, p)->0 == method + (":"@ + (p.worktree_id@ + (":"@ + shown_text(
            option_text(p.resume),
        ) + ":"@ + shown_number(p.window_index) + key_tail(p)))),
{
    assert(control_key(method, p)->0 =~= method + (":"@ + (p.worktree_id@ + (":"@ + shown_text(
        option_text(p.resume),
    ) + ":"@ + shown_number(p.window_index) + key_tail(p)))));
}

/// Without a key of the caller's nothing is kept, and two control requests that
/// differ in that key alone are kept apart.
pub proof fn the_callers_key_keeps_requests_apart(
    method: Seq<char>,
    p: ControlParams,
    q: ControlParams,
)
    requires
        control_key(method, p) == control_key(method, q),
        p.worktree_id == q.worktree_id,
        p.resume == q.resume,
        p.window_index == q.window_index,
        p.orphan_session == q.orphan_session,
    ensures
        p.idempotency_key is None <==> control_key(method, p) is None,
        p.idempotency_key is None <==> q.idempotency_key is None,
        p.idempotency_key is Some ==> p.idempotency_key->0@ == q.idempotency_key->0@,
{
    if p.idempotency_key is Some {
        lemma_key_splits_at_window(method, p);
        lemma_key_splits_at_window(method, q);
        let window = shown_number(p.window_index);
        let orphan = ":"@ + shown_text(option_text(p.orphan_session)) + ":"@;
        lemma_same_before(key_lead(method, p), window + key_tail(p), window + key_tail(q));
        lemma_same_before(window, key_tail(p), key_tail(q));
        lemma_same_before(orphan, p.idempotency_key->0@, q.idempotency_key->0@);
    }
}

/// Two control requests that differ in their window alone are kept apart.
pub proof fn the_window_keeps_requests_apart(
    method: Seq<char>,
    p: ControlParams,
    q: ControlParams,
)
    requires
        control_key(method, p) == control_key(method, q),
        p.idempotency_key is Some,
        p.idempotency_key == q.idempotency_key,
        p.worktree_id == q.worktree_id,
        p.resume == q.resume,
        p.orphan_session == q.orphan_session,
        p.window_index is Some,
        q.window_index is Some,
    ensures
        p.window_index == q.window_index,
{
    lemma_key_splits_at_window(method, p);
    lemma_key_splits_at_window(method, q);
    let a = shown_number(p.window_index);
    let b = shown_number(q.window_index);
    lemma_same_before(key_lead(method, p), a + key_tail(p), b + key_tail(q));
    lemma_same_behind(a, b, key_tail(p));
    let n = decimal(p.window_index->0 as nat);
    let m = decimal(q.window_index->0 as nat);
    lemma_same_behind("Some("@ + n, "Some("@ + m, ")"@);
    lemma_same_before("Some("@, n, m);
    reading_undoes_writing(p.window_index->0 as nat, u32::MAX as nat);
    reading_undoes_writing(q.window_index->0 as nat, u32::MAX as nat);
}

/// Two control requests that differ in their method alone, or in their worktree
/// alone, are kept apart.
pub proof fn the_method_and_the_worktree_keep_requests_apart(
    method: Seq<char>,
    other: Seq<char>,
    p: ControlParams,
    q: ControlParams,
)
    requires
        control_key(method, p) == control_key(other, q),
        p.idempotency_key is Some,
        p.idempotency_key == q.idempotency_key,
        p.resume == q.resume,
        p.window_index == q.window_index,
        p.orphan_session == q.orphan_session,
    ensures
        p.worktree_id == q.worktree_id ==> method == other,
        method == other ==> p.worktree_id@ == q.worktree_id@,
{
    lemma_key_splits_at_worktree(method, p);
    lemma_key_splits_at_worktree(other, q);
    let rest = ":"@ + shown_text(option_text(p.resume)) + ":"@ + shown_number(p.window_index)
        + key_tail(p);
    let a = p.worktree_id@ + rest;
    let b = q.worktree_id@ + rest;
    if p.worktree_id == q.worktree_id {
        lemma_same_behind(method, other, ":"@ + a);
    }
    if method == other {
        lemma_same_before(method, ":"@ + a, ":"@ + b);
        lemma_same_before(":"@, a, b);
        lemma_same_behind(p.worktree_id@, q.worktree_id@, rest);
    }
}

}
