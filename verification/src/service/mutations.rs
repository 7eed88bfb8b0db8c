//! Changes to what is remembered, and the shared shapes of an answer.
use vstd::prelude::*;
use vstd::string::*;

use crate::json;
use crate::model::{session_name_of, worktree_views, SessionPresence, Worktree, WorktreeView};
use crate::app::rows::ProjectStatus;
use crate::protocol::{Event, EventKind, Request, Response};
use crate::service::events::{after_publish, EventHub};
use crate::state::SessionRecord;

verus! {

/// What applying a change to what is remembered came to.
#[derive(Debug)]
pub struct StateChange {
    pub changed: bool,
    /// What is remembered now.
    pub state: serde_json::Value,
}

/// The payload of an event that carries what is remembered.
pub open spec fn state_payload(state: serde_json::Value) -> serde_json::Value {
    json::object_value(json::Members::empty().insert("state"@, state))
}

/// The answer to a request that changes what is remembered.
pub open spec fn change_answer(change: StateChange) -> serde_json::Value {
    json::object_value(
        json::Members::empty().insert("changed"@, json::flag_value(change.changed)).insert(
            "state"@,
            change.state,
        ),
    )
}

/// One event was published, and nothing else of the hub differs but its queues.
pub open spec fn published(
    before: EventHub,
    after: EventHub,
    kind: EventKind,
    payload: serde_json::Value,
) -> bool {
    &&& after.revision == before.revision + 1
    &&& after.next_subscriber == before.next_subscriber
    &&& after.subscribers() == after_publish(
        before.subscribers(),
        Event { revision: after.revision, kind, payload },
    )
}

/// Publishes what is remembered now.
pub fn publish_state(state: &serde_json::Value, events: &mut EventHub)
    requires
        old(events).revision < u64::MAX,
    ensures
        published(*old(events), *final(events), EventKind::StateChanged, state_payload(*state)),
        old(events).in_order() ==> final(events).in_order(),
{
    let mut payload = json::empty_object();
    json::put(&mut payload, "state", state.clone());
    events.publish(EventKind::StateChanged, json::object(payload));
}

/// Answers a request that changes what is remembered. `loaded` says what reading
/// and changing it came to, and `saved` what writing it came to, which is tried
/// only where something changed. A change that was written is published; one
/// that could not be is not.
pub fn mutate_state(
    request: &Request,
    loaded: Result<StateChange, String>,
    saved: &Result<(), String>,
    events: &mut EventHub,
) -> (r: Response)
    requires
        loaded matches Ok(change) && change.changed && *saved is Ok ==> old(events).revision
            < u64::MAX,
    ensures
        match loaded {
            Err(error) => {
                &&& r.refuses(request.id@, "state_read_failed"@, error@)
                &&& *final(events) == *old(events)
            },
            Ok(change) => if !change.changed {
                &&& r.succeeds(request.id@, change_answer(change))
                &&& *final(events) == *old(events)
            } else {
                match *saved {
                    Err(error) => {
                        &&& r.refuses(request.id@, "state_write_failed"@, error@)
                        &&& *final(events) == *old(events)
                    },
                    Ok(_) => {
                        &&& r.succeeds(request.id@, change_answer(change))
                        &&& published(
                            *old(events),
                            *final(events),
                            EventKind::StateChanged,
                            state_payload(change.state),
                        )
                    },
                }
            },
        },
        old(events).in_order() ==> final(events).in_order(),
{
    let change = match loaded {
        Ok(change) => change,
        Err(error) => {
            return Response::error(request.id.as_str(), "state_read_failed", error.as_str());
        },
    };
    if change.changed {
        if let Err(error) = saved {
            return Response::error(request.id.as_str(), "state_write_failed", error.as_str());
        }
        publish_state(&change.state, events);
    }
    let mut result = json::empty_object();
    json::put(&mut result, "changed", json::flag(change.changed));
    json::put(&mut result, "state", change.state);
    Response::success(request.id.as_str(), json::object(result))
}

/// The payload of a completed pass over the repositories, and the answer to the
/// request for it.
pub open spec fn pass_payload(
    reconciliation: serde_json::Value,
    state: serde_json::Value,
) -> serde_json::Value {
    json::object_value(
        json::Members::empty().insert("reconciliation"@, reconciliation).insert("state"@, state),
    )
}

/// What a pass over the repositories and the sessions came to, and what is
/// remembered after it.
#[derive(Debug)]
pub struct PassDone {
    pub reconciliation: serde_json::Value,
    pub state: serde_json::Value,
    /// The pass changed what is remembered.
    pub state_changed: bool,
}

/// How a pass failed.
#[derive(Debug, PartialEq, Eq)]
pub enum PassError {
    /// What is remembered could not be read.
    Read(String),
    /// The pass itself failed.
    Pass(String),
    /// What is remembered could not be written.
    Write(String),
}

/// Answers a request for a pass over the repositories and the sessions. What the
/// pass changed of what is remembered is published first, then the pass itself.
pub fn reconcile_state(
    request: &Request,
    outcome: Result<PassDone, PassError>,
    events: &mut EventHub,
) -> (r: Response)
    requires
        outcome matches Ok(done) ==> old(events).revision < u64::MAX - (if done.state_changed {
            1int
        } else {
            0int
        }),
    ensures
        match outcome {
            Err(PassError::Read(error)) => {
                &&& r.refuses(request.id@, "state_read_failed"@, error@)
                &&& *final(events) == *old(events)
            },
            Err(PassError::Pass(error)) => {
                &&& r.refuses(request.id@, "reconcile_failed"@, error@)
                &&& *final(events) == *old(events)
            },
            Err(PassError::Write(error)) => {
                &&& r.refuses(request.id@, "state_write_failed"@, error@)
                &&& *final(events) == *old(events)
            },
            Ok(done) => {
                &&& r.succeeds(request.id@, pass_payload(done.reconciliation, done.state))
                &&& if done.state_changed {
                    exists|between: EventHub| #[trigger]
                        published(
                            *old(events),
                            between,
                            EventKind::StateChanged,
                            state_payload(done.state),
                        ) && published(
                            between,
                            *final(events),
                            EventKind::ReconciliationCompleted,
                            pass_payload(done.reconciliation, done.state),
                        )
                } else {
                    published(
                        *old(events),
                        *final(events),
                        EventKind::ReconciliationCompleted,
                        pass_payload(done.reconciliation, done.state),
                    )
                }
            },
        },
        old(events).in_order() ==> final(events).in_order(),
{
    let done = match outcome {
        Ok(done) => done,
        Err(PassError::Read(error)) => {
            return Response::error(request.id.as_str(), "state_read_failed", error.as_str());
        },
        Err(PassError::Pass(error)) => {
            return Response::error(request.id.as_str(), "reconcile_failed", error.as_str());
        },
        Err(PassError::Write(error)) => {
            return Response::error(request.id.as_str(), "state_write_failed", error.as_str());
        },
    };
    if done.state_changed {
        publish_state(&done.state, events);
    }
    let ghost between = *events;
    let mut payload = json::empty_object();
    json::put(&mut payload, "reconciliation", done.reconciliation.clone());
    json::put(&mut payload, "state", done.state.clone());
    let answer = json::object(payload);
    events.publish(EventKind::ReconciliationCompleted, answer.clone());
    assert(done.state_changed ==> published(
        *old(events),
        between,
        EventKind::StateChanged,
        state_payload(done.state),
    ));
    Response::success(request.id.as_str(), answer)
}

/// The records of the sessions of one project that run.
pub open spec fn live_records(
    project_id: Seq<char>,
    worktrees: Seq<WorktreeView>,
    now: u64,
) -> Seq<RecordView>
    decreases worktrees.len(),
{
    if worktrees.len() == 0 {
        Seq::empty()
    } else {
        let before = live_records(project_id, worktrees.drop_last(), now);
        let last = worktrees.last();
        if last.session.live() {
            before.push(
                RecordView {
                    worktree_id: last.id,
                    project_id,
                    worktree_path: last.path,
                    session_name: session_name_of(last.id),
                    last_activity_at: now,
                },
            )
        } else {
            before
        }
    }
}

/// The records of all sessions that a pass found running, in its order.
pub open spec fn all_live_records(projects: Seq<ProjectStatus>, now: u64) -> Seq<RecordView>
    decreases projects.len(),
{
    if projects.len() == 0 {
        Seq::empty()
    } else {
        all_live_records(projects.drop_last(), now) + live_records(
            projects.last().id@,
            worktree_views(projects.last().worktrees@),
            now,
        )
    }
}

pub struct RecordView {
    pub worktree_id: Seq<char>,
    pub project_id: Seq<char>,
    pub worktree_path: Seq<char>,
    pub session_name: Seq<char>,
    pub last_activity_at: u64,
}

impl View for SessionRecord {
    type V = RecordView;

    open spec fn view(&self) -> RecordView {
        RecordView {
            worktree_id: self.worktree_id@,
            project_id: self.project_id@,
            worktree_path: self.worktree_path@,
            session_name: self.session_name@,
            last_activity_at: self.last_activity_at,
        }
    }
}

pub open spec fn record_views(records: Seq<SessionRecord>) -> Seq<RecordView> {
    records.map_values(|r: SessionRecord| r@)
}

/// The records to be made of the sessions that a pass found running.
pub fn record_live_sessions(projects: &Vec<ProjectStatus>, now: u64) -> (r: Vec<SessionRecord>)
    ensures
        record_views(r@) == all_live_records(projects@, now),
        forall|i: int, j: int|
            #![trigger projects@[i].worktrees@[j]]
            0 <= i < projects@.len() && 0 <= j < projects@[i].worktrees@.len()
                && projects@[i].worktrees@[j].session != SessionPresence::Absent ==> exists|k: int|
                0 <= k < r@.len() && records_worktree(
                    #[trigger] r@[k],
                    projects@[i].id@,
                    projects@[i].worktrees@[j],
                    now,
                ),
{
    let mut records: Vec<SessionRecord> = Vec::new();
    let mut i: usize = 0;
    assert(projects@.subrange(0, 0) =~= Seq::<ProjectStatus>::empty());
    assert(record_views(records@) =~= Seq::<RecordView>::empty());
    while i < projects.len()
        invariant
            i <= projects.len(),
            record_views(records@) == all_live_records(projects@.subrange(0, i as int), now),
        decreases projects.len() - i,
    {
        assert(projects@.subrange(0, i + 1).drop_last() =~= projects@.subrange(0, i as int));
        let project = &projects[i];
        let ghost base = record_views(records@);
        let ghost rows = worktree_views(project.worktrees@);
        let mut j: usize = 0;
        assert(rows.subrange(0, 0) =~= Seq::<WorktreeView>::empty());
        assert(record_views(records@) =~= base + Seq::<RecordView>::empty());
        while j < project.worktrees.len()
            invariant
                j <= project.worktrees.len(),
                rows == worktree_views(project.worktrees@),
                record_views(records@) == base + live_records(
                    project.id@,
                    rows.subrange(0, j as int),
                    now,
                ),
            decreases project.worktrees.len() - j,
        {
            let worktree = &project.worktrees[j];
            assert(rows.subrange(0, j + 1).drop_last() =~= rows.subrange(0, j as int));
            let ghost was = records@;
            let ghost live = live_records(project.id@, rows.subrange(0, j as int), now);
            if worktree.session.is_live() {
                let record = SessionRecord {
                    worktree_id: worktree.id.clone(),
                    project_id: project.id.clone(),
                    worktree_path: worktree.path.clone(),
                    session_name: worktree.session_name(),
                    last_activity_at: now,
                };
                records.push(record);
                assert(record_views(records@) =~= record_views(was).push(record@));
                assert((base + live).push(record@) =~= base + live.push(record@));
            }
            j += 1;
        }
        assert(rows.subrange(0, j as int) =~= rows);
        i += 1;
    }
    assert(projects@.subrange(0, i as int) =~= projects@);
    proof {
        assert forall|i: int, j: int|
            #![trigger projects@[i].worktrees@[j]]
            0 <= i < projects@.len() && 0 <= j < projects@[i].worktrees@.len()
                && projects@[i].worktrees@[j].session
                != SessionPresence::Absent implies exists|k: int|
            0 <= k < records@.len() && records_worktree(
                #[trigger] records@[k],
                projects@[i].id@,
                projects@[i].worktrees@[j],
                now,
            ) by {
            let k = every_session_found_is_recorded(projects@, now, records@, i, j);
            assert(records_worktree(
                records@[k],
                projects@[i].id@,
                projects@[i].worktrees@[j],
                now,
            ));
        }
    }
    records
}

/// Two records speak of the same session, whenever it was last active.
pub open spec fn same_session(a: RecordView, b: RecordView) -> bool {
    &&& a.worktree_id == b.worktree_id
    &&& a.project_id == b.project_id
    &&& a.session_name == b.session_name
    &&& a.worktree_path == b.worktree_path
}

/// The sessions that are remembered changed: there are more or fewer of them, or
/// one is another. When a session was last active does not count.
pub fn sessions_changed(before: &Vec<SessionRecord>, after: &Vec<SessionRecord>) -> (r: bool)
    ensures
        r == !(before@.len() == after@.len() && forall|i: int|
            0 <= i < before@.len() ==> same_session((#[trigger] before@[i])@, after@[i]@)),
{
    if before.len() != after.len() {
        return true;
    }
    let mut i: usize = 0;
    while i < before.len()
        invariant
            i <= before.len(),
            before.len() == after.len(),
            forall|k: int| 0 <= k < i ==> same_session((#[trigger] before@[k])@, after@[k]@),
        decreases before.len() - i,
    {
        let a = &before[i];
        let b = &after[i];
        if a.worktree_id != b.worktree_id || a.project_id != b.project_id || a.session_name
            != b.session_name || a.worktree_path != b.worktree_path {
            assert(!same_session(before@[i as int]@, after@[i as int]@));
            return true;
        }
        i += 1;
    }
    false
}

/// What a request asks for where it could be read, and the answer to it where it
/// could not.
pub fn readable<T>(request: &Request, params: Result<T, String>) -> (r: Result<T, Response>)
    ensures
        match params {
            Ok(params) => r == Ok::<T, Response>(params),
            Err(error) => r matches Err(answer) && answer.refuses(
                request.id@,
                "invalid_params"@,
                error@,
            ),
        },
{
    match params {
        Ok(params) => Ok(params),
        Err(error) => Err(
            Response::error(request.id.as_str(), "invalid_params", error.as_str()),
        ),
    }
}

/// The answer to a request that only reads: what was read, or why it could not
/// be.
pub fn api_result(request: &Request, outcome: Result<serde_json::Value, String>) -> (r: Response)
    ensures
        match outcome {
            Ok(result) => r.succeeds(request.id@, result),
            Err(error) => r.refuses(request.id@, "internal_error"@, error@),
        },
{
    match outcome {
        Ok(result) => Response::success(request.id.as_str(), result),
        Err(error) => Response::error(request.id.as_str(), "internal_error", error.as_str()),
    }
}

/// The record says of a worktree which it is, where it stands, and that its session
/// runs under the worktree's own name, as of `now`.
pub open spec fn records_worktree(
    record: SessionRecord,
    project_id: Seq<char>,
    worktree: Worktree,
    now: u64,
) -> bool {
    &&& record.worktree_id@ == worktree.id@
    &&& record.project_id@ == project_id
    &&& record.worktree_path@ == worktree.path@
    &&& record.session_name@ == "wt-"@ + worktree.id@
    &&& record.last_activity_at == now
}

proof fn lemma_live_record(
    project_id: Seq<char>,
    worktrees: Seq<WorktreeView>,
    now: u64,
    j: int,
) -> (k: int)
    requires
        0 <= j < worktrees.len(),
        worktrees[j].session != SessionPresence::Absent,
    ensures
        0 <= k < live_records(project_id, worktrees, now).len(),
        ({
            let record = live_records(project_id, worktrees, now)[k];
            &&& record.worktree_id == worktrees[j].id
            &&& record.project_id == project_id
            &&& record.worktree_path == worktrees[j].path
            &&& record.session_name == "wt-"@ + worktrees[j].id
            &&& record.last_activity_at == now
        }),
    decreases worktrees.len(),
{
    let init = worktrees.drop_last();
    if j < init.len() {
        lemma_live_record(project_id, init, now, j)
    } else {
        live_records(project_id, init, now).len() as int
    }
}

proof fn lemma_recorded_worktree(
    project_id: Seq<char>,
    worktrees: Seq<WorktreeView>,
    now: u64,
    k: int,
) -> (j: int)
    requires
        0 <= k < live_records(project_id, worktrees, now).len(),
    ensures
        0 <= j < worktrees.len(),
        worktrees[j].session != SessionPresence::Absent,
        ({
            let record = live_records(project_id, worktrees, now)[k];
            &&& record.worktree_id == worktrees[j].id
            &&& record.project_id == project_id
            &&& record.worktree_path == worktrees[j].path
            &&& record.session_name == "wt-"@ + worktrees[j].id
            &&& record.last_activity_at == now
        }),
    decreases worktrees.len(),
{
    let init = worktrees.drop_last();
    if k < live_records(project_id, init, now).len() {
        let j = lemma_recorded_worktree(project_id, init, now, k);
        assert(init[j] == worktrees[j]);
        j
    } else {
        worktrees.len() - 1
    }
}

proof fn lemma_recorded_project(projects: Seq<ProjectStatus>, now: u64, k: int) -> (place: (
    int,
    int,
))
    requires
        0 <= k < all_live_records(projects, now).len(),
    ensures
        0 <= place.0 < projects.len(),
        0 <= place.1 < live_records(
            projects[place.0].id@,
            worktree_views(projects[place.0].worktrees@),
            now,
        ).len(),
        all_live_records(projects, now)[k] == live_records(
            projects[place.0].id@,
            worktree_views(projects[place.0].worktrees@),
            now,
        )[place.1],
    decreases projects.len(),
{
    let init = projects.drop_last();
    let n = all_live_records(init, now).len();
    if k < n {
        let place = lemma_recorded_project(init, now, k);
        assert(init[place.0] == projects[place.0]);
        place
    } else {
        (projects.len() - 1, k - n)
    }
}

proof fn lemma_project_recorded(projects: Seq<ProjectStatus>, now: u64, i: int, m: int) -> (k: int)
    requires
        0 <= i < projects.len(),
        0 <= m < live_records(
            projects[i].id@,
            worktree_views(projects[i].worktrees@),
            now,
        ).len(),
    ensures
        0 <= k < all_live_records(projects, now).len(),
        all_live_records(projects, now)[k] == live_records(
            projects[i].id@,
            worktree_views(projects[i].worktrees@),
            now,
        )[m],
    decreases projects.len(),
{
    let init = projects.drop_last();
    if i < init.len() {
        assert(init[i] == projects[i]);
        lemma_project_recorded(init, now, i, m)
    } else {
        all_live_records(init, now).len() + m
    }
}

/// Every session that a pass found is remembered, whether somebody looks at it or
/// not: its worktree has a record.
pub proof fn every_session_found_is_recorded(
    projects: Seq<ProjectStatus>,
    now: u64,
    records: Seq<SessionRecord>,
    i: int,
    j: int,
) -> (k: int)
    requires
        record_views(records) == all_live_records(projects, now),
        0 <= i < projects.len(),
        0 <= j < projects[i].worktrees@.len(),
        projects[i].worktrees@[j].session == SessionPresence::Detached
            || projects[i].worktrees@[j].session == SessionPresence::Attached,
    ensures
        0 <= k < records.len(),
        records_worktree(records[k], projects[i].id@, projects[i].worktrees@[j], now),
{
    let views = worktree_views(projects[i].worktrees@);
    assert(views[j] == projects[i].worktrees@[j]@);
    let m = lemma_live_record(projects[i].id@, views, now, j);
    let k = lemma_project_recorded(projects, now, i, m);
    assert(record_views(records)[k] == records[k]@);
    k
}

/// Nothing else is remembered of a pass: every record is of a worktree it found
/// with a session, and none is of one without.
pub proof fn only_sessions_found_are_recorded(
    projects: Seq<ProjectStatus>,
    now: u64,
    records: Seq<SessionRecord>,
    k: int,
) -> (place: (int, int))
    requires
        record_views(records) == all_live_records(projects, now),
        0 <= k < records.len(),
    ensures
        0 <= place.0 < projects.len(),
        0 <= place.1 < projects[place.0].worktrees@.len(),
        projects[place.0].worktrees@[place.1].session != SessionPresence::Absent,
        records_worktree(
            records[k],
            projects[place.0].id@,
            projects[place.0].worktrees@[place.1],
            now,
        ),
{
    assert(record_views(records)[k] == records[k]@);
    let (i, m) = lemma_recorded_project(projects, now, k);
    let views = worktree_views(projects[i].worktrees@);
    let j = lemma_recorded_worktree(projects[i].id@, views, now, m);
    assert(views[j] == projects[i].worktrees@[j]@);
    (i, j)
}

/// Where no session runs nothing is remembered, and a pass remembers at most one
/// session for each worktree it found.
pub proof fn a_pass_records_no_more_than_it_found(projects: Seq<ProjectStatus>, now: u64)
    ensures
        all_live_records(projects, now).len() <= worktree_count(projects),
    decreases projects.len(),
{
    if projects.len() > 0 {
        a_pass_records_no_more_than_it_found(projects.drop_last(), now);
        lemma_records_fit(projects.last().id@, worktree_views(projects.last().worktrees@), now);
    }
}

/// How many worktrees a pass found.
pub open spec fn worktree_count(projects: Seq<ProjectStatus>) -> nat
    decreases projects.len(),
{
    if projects.len() == 0 {
        0
    } else {
        worktree_count(projects.drop_last()) + projects.last().worktrees@.len()
    }
}

proof fn lemma_records_fit(project_id: Seq<char>, worktrees: Seq<WorktreeView>, now: u64)
    ensures
        live_records(project_id, worktrees, now).len() <= worktrees.len(),
    decreases worktrees.len(),
{
    if worktrees.len() > 0 {
        lemma_records_fit(project_id, worktrees.drop_last(), now);
    }
}

/// Two records are of one session exactly where nothing but the time of the last
/// activity can tell them apart.
pub proof fn only_its_last_activity_may_differ(a: RecordView, b: RecordView)
    ensures
        same_session(a, b) <==> (RecordView { last_activity_at: 0, ..a }) == (RecordView {
            last_activity_at: 0,
            ..b
        }),
{
}

}
