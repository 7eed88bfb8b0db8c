//! Making a retry safe: a request that carries a key is carried out once, and
//! answered again from what was kept.
use vstd::prelude::*;
use vstd::string::*;

use crate::json;
use crate::protocol::{bounded, is_bounded, Event, EventKind, Request, Response, MAX_REQUEST_ID_LEN};
use crate::service::events::{after_publish, EventHub};
use crate::table::Table;

verus! {

/// What becomes of a request that may have been seen before.
#[derive(Debug)]
pub enum Admission {
    /// It is answered at once: refused, or answered as it was before.
    Answer(Response),
    /// It is to be carried out, and its answer kept under the key.
    Run(Option<String>),
}

pub open spec fn key_message() -> Seq<char> {
    "idempotency_key must be 1-128 printable bytes"@
}

/// The key may be used: 1 to 128 bytes, none of them a control character.
pub open spec fn usable(s: Seq<char>) -> bool {
    is_bounded(s, MAX_REQUEST_ID_LEN as nat)
}

pub fn is_usable(s: &str) -> (r: bool)
    ensures
        r == usable(s@),
{
    bounded(s, MAX_REQUEST_ID_LEN)
}

impl Admission {
    /// The parameters are refused with this message.
    pub open spec fn refused(self, id: Seq<char>, message: Seq<char>) -> bool {
        self matches Admission::Answer(a) && a.refuses(id, "invalid_params"@, message)
    }

    /// The request passed its checks: it is answered from what is kept under its
    /// key, and carried out where nothing is.
    pub open spec fn admitted(
        self,
        id: Seq<char>,
        key: Option<Seq<char>>,
        kept: Map<Seq<char>, Response>,
    ) -> bool {
        match key {
            Some(k) => if kept.contains_key(k) {
                self matches Admission::Answer(a) && a.replays(kept[k], id)
            } else {
                self matches Admission::Run(Some(s)) && s@ == k
            },
            None => self matches Admission::Run(None),
        }
    }

    /// Refused where there is something to refuse, admitted otherwise.
    pub open spec fn decided(
        self,
        id: Seq<char>,
        refusal: Option<Seq<char>>,
        key: Option<Seq<char>>,
        kept: Map<Seq<char>, Response>,
    ) -> bool {
        match refusal {
            Some(message) => self.refused(id, message),
            None => self.admitted(id, key, kept),
        }
    }
}

pub fn refuse(request: &Request, message: &str) -> (r: Admission)
    ensures
        r.refused(request.id@, message@),
{
    Admission::Answer(Response::error(request.id.as_str(), "invalid_params", message))
}

/// Answers the request from what is kept under the key, where something is.
pub fn recall(request: &Request, key: Option<String>, kept: &Table<Response>) -> (r: Admission)
    ensures
        r.admitted(
            request.id@,
            (match key {
                Some(k) => Some(k@),
                None => None,
            }),
            kept@,
        ),
{
    match key {
        Some(k) => match kept.get(k.as_str()) {
            Some(response) => {
                let mut replay = response.clone();
                replay.id = request.id.clone();
                Admission::Answer(replay)
            },
            None => Admission::Run(Some(k)),
        },
        None => Admission::Run(None),
    }
}

/// What a completed request publishes: the method, what it was about, and what
/// came of it.
pub open spec fn completion(
    method: Seq<char>,
    subject: Option<(Seq<char>, Seq<char>)>,
    result: serde_json::Value,
) -> serde_json::Value {
    let named = json::Members::empty().insert("method"@, json::text_value(method));
    let about = match subject {
        Some((name, value)) => named.insert(name, json::text_value(value)),
        None => named,
    };
    json::object_value(about.insert("result"@, result))
}

/// The views of what a request was about.
pub open spec fn subject_view(subject: Option<(&str, &str)>) -> Option<(Seq<char>, Seq<char>)> {
    match subject {
        Some((name, value)) => Some((name@, value@)),
        None => None,
    }
}

/// What is kept once the response to the request with this key is known.
pub open spec fn keeping(
    kept: Map<Seq<char>, Response>,
    key: Option<String>,
    response: Response,
) -> Map<Seq<char>, Response> {
    match key {
        Some(k) => kept.insert(k@, response),
        None => kept,
    }
}

/// Finishes a request that was carried out: a failure is answered and neither
/// kept nor published; a result is published, kept under the key, and answered.
pub fn complete(
    request: &Request,
    subject: Option<(&str, &str)>,
    key: Option<String>,
    outcome: Result<serde_json::Value, String>,
    kept: &mut Table<Response>,
    events: &mut EventHub,
) -> (r: Response)
    requires
        outcome is Ok ==> old(events).revision < u64::MAX,
    ensures
        match outcome {
            Err(error) => {
                &&& r.refuses(request.id@, "control_failed"@, error@)
                &&& final(kept)@ == old(kept)@
                &&& *final(events) == *old(events)
            },
            Ok(result) => {
                &&& r.succeeds(request.id@, result)
                &&& final(kept)@ == keeping(old(kept)@, key, r)
                &&& final(events).revision == old(events).revision + 1
                &&& final(events).next_subscriber == old(events).next_subscriber
                &&& final(events).subscribers() == after_publish(
                    old(events).subscribers(),
                    (Event {
                        revision: final(events).revision,
                        kind: EventKind::ControlCompleted,
                        payload: completion(request.method@, subject_view(subject), result),
                    }),
                )
            },
        },
        old(events).in_order() ==> final(events).in_order(),
{
    match outcome {
        Err(error) => Response::error(request.id.as_str(), "control_failed", error.as_str()),
        Ok(result) => {
            let mut payload = json::empty_object();
            json::put(&mut payload, "method", json::text(request.method.as_str()));
            match subject {
                Some((name, value)) => json::put(&mut payload, name, json::text(value)),
                None => {},
            }
            json::put(&mut payload, "result", result.clone());
            events.publish(EventKind::ControlCompleted, json::object(payload));
            let response = Response::success(request.id.as_str(), result);
            match key {
                Some(k) => kept.insert(k, response.clone()),
                None => {},
            }
            response
        },
    }
}

/// A retry under the key of a request that was carried out is answered with the
/// same result and not carried out again.
pub proof fn a_completed_request_is_replayed(
    kept: Map<Seq<char>, Response>,
    key: String,
    first: Response,
    first_id: Seq<char>,
    result: serde_json::Value,
    retry: Admission,
    retry_id: Seq<char>,
)
    requires
        first.succeeds(first_id, result),
        retry.admitted(retry_id, Some(key@), keeping(kept, Some(key), first)),
    ensures
        retry matches Admission::Answer(a) && a.succeeds(retry_id, result),
{
}

/// A request whose first try failed left nothing behind: its retry is carried
/// out.
pub proof fn a_failed_request_is_tried_again(
    kept: Map<Seq<char>, Response>,
    key: Seq<char>,
    first: Admission,
    first_id: Seq<char>,
    retry: Admission,
    retry_id: Seq<char>,
)
    requires
        first is Run,
        first.admitted(first_id, Some(key), kept),
        retry.admitted(retry_id, Some(key), kept),
    ensures
        retry matches Admission::Run(Some(s)) && s@ == key,
{
}

/// What an answer is kept under tells the methods apart, and the names before
/// the caller's key: a part that holds no colon is read back from it.
pub proof fn kept_apart(first: Seq<char>, after: Seq<char>, other: Seq<char>, rest: Seq<char>)
    requires
        !first.contains(':'),
        !other.contains(':'),
        first + ":"@ + after == other + ":"@ + rest,
    ensures
        first == other,
        after == rest,
{
    reveal_strlit(":");
    let whole = first + ":"@ + after;
    assert(whole[first.len() as int] == ':');
    assert(whole[other.len() as int] == ':');
    if first.len() < other.len() {
        assert(other[first.len() as int] == whole[first.len() as int]);
        assert(other.contains(':'));
    }
    if other.len() < first.len() {
        assert(first[other.len() as int] == whole[other.len() as int]);
        assert(first.contains(':'));
    }
    assert(first =~= whole.subrange(0, first.len() as int));
    assert(other =~= whole.subrange(0, first.len() as int));
    assert(after =~= whole.subrange(first.len() as int + 1, whole.len() as int));
    assert(rest =~= whole.subrange(first.len() as int + 1, whole.len() as int));
}

}
