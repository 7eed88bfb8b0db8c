//! What the service finds, answers and remembers of the work it was asked for.
use vstd::prelude::*;
use vstd::string::*;

use crate::app::rows::ProjectStatus;
use crate::json;
use crate::model::ProjectView;
use crate::service::control::{
    failures_value, found_projects, ids_of, ids_value, place_of, resolved, ControlDone,
    ResumeRecordedResult, SessionNote,
};
use crate::service::idempotency::completion;
use crate::service::mutations::{change_answer, pass_payload, state_payload, StateChange};
use crate::service::projects::{opened_answer, ProjectOpened};
use crate::state::{record_at_is_first, ProjectRecord};

verus! {

/// What is found is the first of its name, and something is found where there is
/// something of that name.
pub proof fn the_first_of_a_name_is_found(texts: Seq<String>, wanted: Seq<char>)
    ensures
        match place_of(texts, wanted) {
            Some(i) => 0 <= i < texts.len() && texts[i]@ == wanted && forall|k: int|
                0 <= k < i ==> (#[trigger] texts[k])@ != wanted,
            None => forall|k: int| 0 <= k < texts.len() ==> (#[trigger] texts[k])@ != wanted,
        },
    decreases texts.len(),
{
    if texts.len() > 0 {
        let init = texts.drop_last();
        the_first_of_a_name_is_found(init, wanted);
        assert forall|k: int| 0 <= k < init.len() implies init[k] == #[trigger] texts[k] by {}
    }
}

/// A worktree is found in the first project that could be read and has it, at its
/// place there; it is unknown only where no project that could be read has it.
pub proof fn a_worktree_is_found_where_it_is_listed(
    listings: Seq<Option<Vec<String>>>,
    worktree_id: Seq<char>,
)
    ensures
        match resolved(listings, worktree_id) {
            Some((i, j)) => {
                &&& 0 <= i < listings.len()
                &&& listings[i] is Some
                &&& 0 <= j < listings[i]->0@.len()
                &&& listings[i]->0@[j]@ == worktree_id
                &&& forall|k: int, m: int|
                    #![trigger listings[k]->0@[m]]
                    0 <= k < i && listings[k] is Some && 0 <= m < listings[k]->0@.len()
                        ==> listings[k]->0@[m]@ != worktree_id
            },
            None => forall|k: int, m: int|
                #![trigger listings[k]->0@[m]]
                0 <= k < listings.len() && listings[k] is Some && 0 <= m < listings[k]->0@.len()
                    ==> listings[k]->0@[m]@ != worktree_id,
        },
    decreases listings.len(),
{
    if listings.len() > 0 {
        let init = listings.drop_last();
        let last = listings.last();
        a_worktree_is_found_where_it_is_listed(init, worktree_id);
        the_first_of_a_name_is_found(ids_of(last), worktree_id);
        assert forall|k: int| 0 <= k < init.len() implies init[k] == #[trigger] listings[k] by {}
        assert(listings[listings.len() - 1] == last);
        if resolved(init, worktree_id) is None {
            assert forall|k: int, m: int|
                #![trigger listings[k]->0@[m]]
                0 <= k < init.len() && listings[k] is Some && 0 <= m
                    < listings[k]->0@.len() implies listings[k]->0@[m]@ != worktree_id by {
                assert(init[k]->0@[m]@ != worktree_id);
            }
        } else {
            let found = resolved(init, worktree_id)->0;
            assert forall|k: int, m: int|
                #![trigger listings[k]->0@[m]]
                0 <= k < found.0 && listings[k] is Some && 0 <= m
                    < listings[k]->0@.len() implies listings[k]->0@[m]@ != worktree_id by {
                assert(init[k]->0@[m]@ != worktree_id);
            }
        }
    }
}

/// What is remembered after work on a session: clearing attention leaves it as it
/// was, closing forgets it, and everything else remembers that it runs, under the
/// name it was dealt with, or under the worktree's own where none came back.
pub proof fn a_session_that_was_dealt_with_is_remembered(
    done: ControlDone,
    worktree_id: Seq<char>,
    note: SessionNote,
)
    requires
        done.remembers(worktree_id, note),
    ensures
        match done {
            ControlDone::AttentionCleared { cleared } => note == SessionNote::Leave,
            ControlDone::Closed => note == SessionNote::Forget,
            ControlDone::Associated { session } => note is Record && note->Record_0@ == session@,
            ControlDone::Ensured { session, created } => note is Record && note->Record_0@
                == session@,
            ControlDone::Opened { session, activation } => note is Record && note->Record_0@
                == session@,
            ControlDone::WindowOpened { session, index, activation } => note is Record
                && note->Record_0@ == session@,
            ControlDone::WindowCreated { session, window } => note is Record && note->Record_0@
                == session@,
            ControlDone::AgentStarted { unit } => note is Record && note->Record_0@ == "wt-"@
                + worktree_id,
        },
{
}

proof fn lemma_answer_names()
    ensures
        "worktree_id"@ != "session"@,
        "cleared"@ != "worktree_id"@ && "cleared"@ != "session"@,
        "created"@ != "worktree_id"@ && "created"@ != "session"@,
        "activation"@ != "worktree_id"@ && "activation"@ != "session"@ && "activation"@
            != "window_index"@,
        "window_index"@ != "worktree_id"@ && "window_index"@ != "session"@,
        "window"@ != "worktree_id"@ && "window"@ != "session"@,
        "unit"@ != "worktree_id"@ && "unit"@ != "session"@,
        "changed"@ != "state"@ && "changed"@ != "project"@ && "project"@ != "state"@,
        "reconciliation"@ != "state"@,
        "worktree_ids"@ != "failures"@,
        "method"@ != "result"@,
{
    reveal_strlit("worktree_id");
    reveal_strlit("session");
    reveal_strlit("cleared");
    reveal_strlit("created");
    reveal_strlit("activation");
    reveal_strlit("window_index");
    reveal_strlit("window");
    reveal_strlit("unit");
    reveal_strlit("changed");
    reveal_strlit("state");
    reveal_strlit("project");
    reveal_strlit("reconciliation");
    reveal_strlit("worktree_ids");
    reveal_strlit("failures");
    reveal_strlit("method");
    reveal_strlit("result");
    assert("worktree_id"@.len() == 11 && "session"@.len() == 7 && "cleared"@.len() == 7);
    assert("session"@[0] == 's' && "cleared"@[0] == 'c' && "created"@[0] == 'c');
    assert("activation"@.len() == 10 && "window_index"@.len() == 12 && "window"@.len() == 6);
    assert("unit"@.len() == 4 && "changed"@.len() == 7 && "state"@.len() == 5);
    assert("changed"@[0] == 'c' && "project"@[0] == 'p');
    assert("reconciliation"@.len() == 14);
    assert("worktree_ids"@.len() == 12 && "failures"@.len() == 8);
    assert("method"@[0] == 'm' && "result"@[0] == 'r');
}

/// The answer to work on a session names the worktree and the session, and holds
/// under its own name each what came of the work, and nothing else.
pub proof fn an_answer_says_what_came_of_the_work(done: ControlDone, worktree_id: Seq<char>) -> (m:
    json::Members)
    ensures
        done.answer(worktree_id) == json::object_value(m),
        m.contains_key("worktree_id"@),
        m["worktree_id"@] == json::text_value(worktree_id),
        m.contains_key("session"@),
        match done {
            ControlDone::AttentionCleared { cleared } => m["session"@] == json::text_value(
                "wt-"@ + worktree_id,
            ) && m.contains_key("cleared"@) && m["cleared"@] == cleared,
            ControlDone::Associated { session } => m["session"@] == json::text_value(session@),
            ControlDone::Ensured { session, created } => m["session"@] == json::text_value(session@)
                && m.contains_key("created"@) && m["created"@] == json::flag_value(created),
            ControlDone::Opened { session, activation } => m["session"@] == json::text_value(
                session@,
            ) && m.contains_key("activation"@) && m["activation"@] == activation,
            ControlDone::WindowOpened { session, index, activation } => m["session"@]
                == json::text_value(session@) && m.contains_key("window_index"@)
                && m["window_index"@] == json::number_value(index as u64) && m.contains_key(
                "activation"@,
            ) && m["activation"@] == activation,
            ControlDone::WindowCreated { session, window } => m["session"@] == json::text_value(
                session@,
            ) && m.contains_key("window"@) && m["window"@] == window,
            ControlDone::Closed => m["session"@] == json::text_value("wt-"@ + worktree_id),
            ControlDone::AgentStarted { unit } => m["session"@] == json::text_value(
                "wt-"@ + worktree_id,
            ) && m.contains_key("unit"@) && m["unit"@] == unit,
        },
        forall|name: Seq<char>| #[trigger]
            m.contains_key(name) ==> {
                ||| name == "worktree_id"@
                ||| name == "session"@
                ||| name == "cleared"@ && done is AttentionCleared
                ||| name == "created"@ && done is Ensured
                ||| name == "activation"@ && (done is Opened || done is WindowOpened)
                ||| name == "window_index"@ && done is WindowOpened
                ||| name == "window"@ && done is WindowCreated
                ||| name == "unit"@ && done is AgentStarted
            },
{
    lemma_answer_names();
    let base = json::Members::empty().insert("worktree_id"@, json::text_value(worktree_id)).insert(
        "session"@,
        json::text_value(done.session(worktree_id)),
    );
    match done {
        ControlDone::AttentionCleared { cleared } => base.insert("cleared"@, cleared),
        ControlDone::Associated { session } => base,
        ControlDone::Ensured { session, created } => base.insert(
            "created"@,
            json::flag_value(created),
        ),
        ControlDone::Opened { session, activation } => base.insert("activation"@, activation),
        ControlDone::WindowOpened { session, index, activation } => base.insert(
            "window_index"@,
            json::number_value(index as u64),
        ).insert("activation"@, activation),
        ControlDone::WindowCreated { session, window } => base.insert("window"@, window),
        ControlDone::Closed => base,
        ControlDone::AgentStarted { unit } => base.insert("unit"@, unit),
    }
}

/// The answers that carry what is remembered hold it under its own name, beside
/// whether it changed, the project that was opened, or the pass that was made.
pub proof fn an_answer_carries_what_is_remembered(
    change: StateChange,
    opened: ProjectOpened,
    reconciliation: serde_json::Value,
    state: serde_json::Value,
) -> (m: (json::Members, json::Members, json::Members, json::Members))
    ensures
        change_answer(change) == json::object_value(m.0),
        m.0.dom() == set!["changed"@, "state"@],
        m.0["changed"@] == json::flag_value(change.changed),
        m.0["state"@] == change.state,
        opened_answer(opened) == json::object_value(m.1),
        m.1.dom() == set!["changed"@, "project"@, "state"@],
        m.1["changed"@] == json::flag_value(opened.change.changed),
        m.1["project"@] == opened.project,
        m.1["state"@] == opened.change.state,
        pass_payload(reconciliation, state) == json::object_value(m.2),
        m.2.dom() == set!["reconciliation"@, "state"@],
        m.2["reconciliation"@] == reconciliation,
        m.2["state"@] == state,
        state_payload(state) == json::object_value(m.3),
        m.3.dom() == set!["state"@],
        m.3["state"@] == state,
{
    lemma_answer_names();
    let a = json::Members::empty().insert("changed"@, json::flag_value(change.changed)).insert(
        "state"@,
        change.state,
    );
    let b = json::Members::empty().insert(
        "changed"@,
        json::flag_value(opened.change.changed),
    ).insert("project"@, opened.project).insert("state"@, opened.change.state);
    let c = json::Members::empty().insert("reconciliation"@, reconciliation).insert(
        "state"@,
        state,
    );
    let d = json::Members::empty().insert("state"@, state);
    assert(a.dom() =~= set!["changed"@, "state"@]);
    assert(b.dom() =~= set!["changed"@, "project"@, "state"@]);
    assert(c.dom() =~= set!["reconciliation"@, "state"@]);
    assert(d.dom() =~= set!["state"@]);
    (a, b, c, d)
}

/// What a completed request publishes names its method, holds its result, and names
/// what it was about where it was about something.
pub proof fn a_completion_names_its_method(
    method: Seq<char>,
    subject: Option<(Seq<char>, Seq<char>)>,
    result: serde_json::Value,
) -> (m: json::Members)
    ensures
        completion(method, subject, result) == json::object_value(m),
        m.contains_key("result"@),
        m["result"@] == result,
        m.contains_key("method"@),
        match subject {
            None => m["method"@] == json::text_value(method),
            Some((name, value)) => {
                &&& name != "method"@ ==> m["method"@] == json::text_value(method)
                &&& name != "result"@ ==> m.contains_key(name) && m[name] == json::text_value(value)
            },
        },
{
    lemma_answer_names();
    let named = json::Members::empty().insert("method"@, json::text_value(method));
    let about = match subject {
        Some((name, value)) => named.insert(name, json::text_value(value)),
        None => named,
    };
    about.insert("result"@, result)
}

/// The answer to bringing conversations back lists every worktree whose agent
/// started and every failure with its path and message, each in order.
pub proof fn a_resumption_is_answered_in_full(done: ResumeRecordedResult) -> (m: (
    json::Members,
    Seq<serde_json::Value>,
    Seq<serde_json::Value>,
))
    ensures
        done.answer() == json::object_value(m.0),
        m.0.dom() == set!["worktree_ids"@, "failures"@],
        m.0["worktree_ids"@] == json::list_value(m.1),
        m.0["failures"@] == json::list_value(m.2),
        m.1.len() == done.worktree_ids@.len(),
        m.2.len() == done.failures@.len(),
        forall|i: int|
            0 <= i < m.1.len() ==> #[trigger] m.1[i] == json::text_value(done.worktree_ids@[i]@),
        forall|i: int|
            0 <= i < m.2.len() ==> #[trigger] m.2[i] == json::object_value(
                json::Members::empty().insert(
                    "message"@,
                    json::text_value(done.failures@[i].message@),
                ).insert("worktree_path"@, json::text_value(done.failures@[i].worktree_path@)),
            ),
{
    lemma_answer_names();
    let ids = ids_value(done.worktree_ids@);
    let failures = failures_value(done.failures@);
    let m = json::Members::empty().insert("worktree_ids"@, json::list_value(ids)).insert(
        "failures"@,
        json::list_value(failures),
    );
    assert(m.dom() =~= set!["worktree_ids"@, "failures"@]);
    assert forall|i: int| 0 <= i < failures.len() implies #[trigger] failures[i]
        == json::object_value(
        json::Members::empty().insert(
            "message"@,
            json::text_value(done.failures@[i].message@),
        ).insert("worktree_path"@, json::text_value(done.failures@[i].worktree_path@)),
    ) by {
        reveal_strlit("message");
        reveal_strlit("worktree_path");
        assert("message"@.len() != "worktree_path"@.len());
        let a = json::Members::empty().insert(
            "worktree_path"@,
            json::text_value(done.failures@[i].worktree_path@),
        ).insert("message"@, json::text_value(done.failures@[i].message@));
        let b = json::Members::empty().insert(
            "message"@,
            json::text_value(done.failures@[i].message@),
        ).insert("worktree_path"@, json::text_value(done.failures@[i].worktree_path@));
        assert(a =~= b);
    }
    (m, ids, failures)
}

/// The project is what a pass found of it, with the paths that are remembered.
pub open spec fn joins(found: ProjectView, status: ProjectStatus, record: ProjectRecord) -> bool {
    &&& found.id == status.id@
    &&& found.name == status.name@
    &&& found.worktrees.len() == status.worktrees@.len()
    &&& forall|k: int|
        0 <= k < status.worktrees@.len() ==> #[trigger] found.worktrees[k]
            == status.worktrees@[k]@
    &&& found.unavailable is Some <==> status.unavailable is Some
    &&& status.unavailable matches Some(why) ==> found.unavailable->0 == why@
    &&& record.id@ == status.id@
    &&& found.repository_path == record.repository_path@
    &&& found.git_common_dir == record.git_common_dir@
    &&& found.default_worktree_path == record.default_worktree_path@
    &&& found.is_expanded == record.is_expanded
}

/// Everything a pass found of a project that is remembered is kept, with the paths
/// of its first record.
pub proof fn a_remembered_project_keeps_what_was_found(
    statuses: Seq<ProjectStatus>,
    records: Seq<ProjectRecord>,
    i: int,
    at: int,
) -> (k: int)
    requires
        0 <= i < statuses.len(),
        0 <= at < records.len(),
        records[at].id@ == statuses[i].id@,
        forall|m: int| 0 <= m < at ==> (#[trigger] records[m]).id@ != statuses[i].id@,
    ensures
        0 <= k < found_projects(statuses, records).len(),
        joins(found_projects(statuses, records)[k], statuses[i], records[at]),
    decreases statuses.len(),
{
    let init = statuses.drop_last();
    if i < init.len() {
        let k = a_remembered_project_keeps_what_was_found(init, records, i, at);
        assert(found_projects(statuses, records)[k] == found_projects(init, records)[k]);
        k
    } else {
        record_at_is_first(records, statuses[i].id@);
        let k = found_projects(init, records).len() as int;
        let found = found_projects(statuses, records)[k];
        assert forall|m: int| 0 <= m < statuses[i].worktrees@.len() implies #[trigger] found.worktrees[m]
            == statuses[i].worktrees@[m]@ by {}
        k
    }
}

/// What a pass found of projects that are not remembered is dropped.
pub proof fn only_remembered_projects_are_kept(
    statuses: Seq<ProjectStatus>,
    records: Seq<ProjectRecord>,
    k: int,
) -> (place: (int, int))
    requires
        0 <= k < found_projects(statuses, records).len(),
    ensures
        0 <= place.0 < statuses.len(),
        0 <= place.1 < records.len(),
        joins(found_projects(statuses, records)[k], statuses[place.0], records[place.1]),
    decreases statuses.len(),
{
    let init = statuses.drop_last();
    if k < found_projects(init, records).len() {
        let place = only_remembered_projects_are_kept(init, records, k);
        assert(init[place.0] == statuses[place.0]);
        place
    } else {
        let i = statuses.len() - 1;
        record_at_is_first(records, statuses[i].id@);
        let found = found_projects(statuses, records)[k];
        assert forall|m: int| 0 <= m < statuses[i].worktrees@.len() implies #[trigger] found.worktrees[m]
            == statuses[i].worktrees@[m]@ by {}
        (i, crate::state::record_at(records, statuses[i].id@)->0)
    }
}

}
