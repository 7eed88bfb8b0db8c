//! Requests, responses and events: what travels between Grove and its service.
use vstd::prelude::*;
use vstd::utf8::encode_utf8;

use vstd::string::*;

use crate::json;
use crate::text::{any_control, has_control};

verus! {

/// The longest request id, session name or idempotency key, in bytes.
pub const MAX_REQUEST_ID_LEN: usize = 128;

/// One request, as it arrived.
#[derive(Debug)]
pub struct Request {
    pub protocol: u32,
    pub id: String,
    pub method: String,
    pub params: serde_json::Value,
}

#[derive(Debug, PartialEq, Eq)]
pub struct ResponseError {
    pub code: String,
    pub message: String,
}

/// The answer to one request.
#[derive(Debug, PartialEq, Eq)]
pub struct Response {
    pub id: String,
    pub ok: bool,
    pub result: Option<serde_json::Value>,
    pub error: Option<ResponseError>,
}

/// What an event is about.
#[derive(Clone, Copy, Debug, PartialEq, Eq, Structural)]
pub enum EventKind {
    StateChanged,
    ReconciliationCompleted,
    NotificationReceived,
    ControlCompleted,
}

impl EventKind {
    /// What the kind is called in a request.
    pub open spec fn topic(self) -> Seq<char> {
        match self {
            EventKind::StateChanged => "state_changed"@,
            EventKind::ReconciliationCompleted => "reconciliation_completed"@,
            EventKind::NotificationReceived => "notification_received"@,
            EventKind::ControlCompleted => "control_completed"@,
        }
    }

    /// What the kind is called in a request.
    pub fn name(self) -> (r: &'static str)
        ensures
            r@ == self.topic(),
    {
        match self {
            EventKind::StateChanged => "state_changed",
            EventKind::ReconciliationCompleted => "reconciliation_completed",
            EventKind::NotificationReceived => "notification_received",
            EventKind::ControlCompleted => "control_completed",
        }
    }
}

/// The kinds as a request names them, in order.
pub open spec fn topic_values(kinds: Seq<EventKind>) -> Seq<serde_json::Value> {
    kinds.map_values(|kind: EventKind| json::text_value(kind.topic()))
}

/// What a subscription asks for: the events of these kinds, and on whose behalf.
pub open spec fn subscription_params(
    kinds: Seq<EventKind>,
    client: Option<Seq<char>>,
) -> json::Members {
    let topics = json::Members::empty().insert("topics"@, json::list_value(topic_values(kinds)));
    match client {
        Some(client) => topics.insert("client"@, json::text_value(client)),
        None => topics,
    }
}

impl Request {
    /// The request asks for the method with these parameters.
    pub open spec fn asks(
        self,
        protocol: u32,
        id: Seq<char>,
        method: Seq<char>,
        params: serde_json::Value,
    ) -> bool {
        &&& self.protocol == protocol
        &&& self.id@ == id
        &&& self.method@ == method
        &&& self.params == params
    }

    pub fn new(protocol: u32, id: &str, method: &str, params: serde_json::Value) -> (r: Request)
        ensures
            r.asks(protocol, id@, method@, params),
    {
        Request { protocol, id: id.to_owned(), method: method.to_owned(), params }
    }

    /// The request for the events of these kinds.
    pub fn subscription(
        protocol: u32,
        id: &str,
        kinds: &Vec<EventKind>,
        client: Option<&str>,
    ) -> (r: Request)
        ensures
            r.asks(
                protocol,
                id@,
                "event.subscribe"@,
                json::object_value(
                    subscription_params(
                        kinds@,
                        match client {
                            Some(client) => Some(client@),
                            None => None,
                        },
                    ),
                ),
            ),
    {
        let mut topics: Vec<serde_json::Value> = Vec::new();
        let mut i: usize = 0;
        while i < kinds.len()
            invariant
                i <= kinds.len(),
                topics@ == topic_values(kinds@.subrange(0, i as int)),
            decreases kinds.len() - i,
        {
            topics.push(json::text(kinds[i].name()));
            i += 1;
            assert(topics@ =~= topic_values(kinds@.subrange(0, i as int)));
        }
        assert(kinds@.subrange(0, i as int) =~= kinds@);
        let mut params = json::empty_object();
        json::put(&mut params, "topics", json::list(topics));
        if let Some(client) = client {
            json::put(&mut params, "client", json::text(client));
        }
        Request::new(protocol, id, "event.subscribe", json::object(params))
    }
}

/// One published event.
#[derive(Debug, PartialEq, Eq)]
pub struct Event {
    pub revision: u64,
    pub kind: EventKind,
    pub payload: serde_json::Value,
}

impl Clone for Event {
    fn clone(&self) -> (r: Self)
        ensures
            r == *self,
    {
        Event { revision: self.revision, kind: self.kind, payload: self.payload.clone() }
    }
}

impl Clone for ResponseError {
    fn clone(&self) -> (r: Self)
        ensures
            r == *self,
    {
        ResponseError { code: self.code.clone(), message: self.message.clone() }
    }
}

impl Clone for Response {
    fn clone(&self) -> (r: Self)
        ensures
            r == *self,
    {
        let result = match &self.result {
            Some(value) => Some(value.clone()),
            None => None,
        };
        let error = match &self.error {
            Some(error) => Some(error.clone()),
            None => None,
        };
        Response { id: self.id.clone(), ok: self.ok, result, error }
    }
}

impl Response {
    /// The response answers the request with `result`.
    pub open spec fn succeeds(self, id: Seq<char>, result: serde_json::Value) -> bool {
        &&& self.id@ == id
        &&& self.ok
        &&& self.result == Some(result)
        &&& self.error is None
    }

    /// The response refuses the request with this code and message.
    pub open spec fn refuses(self, id: Seq<char>, code: Seq<char>, message: Seq<char>) -> bool {
        &&& self.id@ == id
        &&& !self.ok
        &&& self.result is None
        &&& self.error is Some
        &&& self.error->0.code@ == code
        &&& self.error->0.message@ == message
    }

    /// The response is `first` again, addressed to the request `id`.
    pub open spec fn replays(self, first: Response, id: Seq<char>) -> bool {
        &&& self.id@ == id
        &&& self.ok == first.ok
        &&& self.result == first.result
        &&& self.error == first.error
    }

    pub fn success(id: &str, result: serde_json::Value) -> (r: Response)
        ensures
            r.succeeds(id@, result),
    {
        Response { id: id.to_owned(), ok: true, result: Some(result), error: None }
    }

    pub fn error(id: &str, code: &str, message: &str) -> (r: Response)
        ensures
            r.refuses(id@, code@, message@),
    {
        Response {
            id: id.to_owned(),
            ok: false,
            result: None,
            error: Some(ResponseError { code: code.to_owned(), message: message.to_owned() }),
        }
    }
}

/// The length of the text in bytes, in UTF-8.
pub open spec fn byte_len(s: Seq<char>) -> nat {
    encode_utf8(s).len()
}

/// Something is written there and none of it is a control character.
pub open spec fn is_printable(s: Seq<char>) -> bool {
    s.len() > 0 && !has_control(s)
}

/// Printable, and at most `max` bytes long.
pub open spec fn is_bounded(s: Seq<char>, max: nat) -> bool {
    is_printable(s) && byte_len(s) <= max
}

pub fn printable(s: &str) -> (r: bool)
    ensures
        r == is_printable(s@),
{
    !s.is_empty() && !any_control(s)
}

pub fn bounded(s: &str, max: usize) -> (r: bool)
    ensures
        r == is_bounded(s@, max as nat),
{
    printable(s) && s.as_bytes().len() <= max
}

/// Each kind of event goes by its own name, and no two by the same.
pub proof fn each_kind_goes_by_its_own_name(kind: EventKind)
    ensures
        kind.topic() == "state_changed"@ <==> kind == EventKind::StateChanged,
        kind.topic() == "reconciliation_completed"@ <==> kind == EventKind::ReconciliationCompleted,
        kind.topic() == "notification_received"@ <==> kind == EventKind::NotificationReceived,
        kind.topic() == "control_completed"@ <==> kind == EventKind::ControlCompleted,
{
    reveal_strlit("state_changed");
    reveal_strlit("reconciliation_completed");
    reveal_strlit("notification_received");
    reveal_strlit("control_completed");
    assert("state_changed"@.len() == 13 && "reconciliation_completed"@.len() == 24
        && "notification_received"@.len() == 21 && "control_completed"@.len() == 17);
}

}
