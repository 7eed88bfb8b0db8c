//! Event publication: the fan-out half of the service.
//!
//! Every subscriber has a queue of its own with a fixed bound. One that cannot
//! take an event is dropped, so that a slow reader is nobody else's problem.
use vstd::prelude::*;
use vstd::string::*;

use crate::json;
use crate::protocol::{Event, EventKind, Request, Response};
use crate::service::{protocol_refusal, protocol_refused};
use crate::text::{decimal, number, reading_undoes_writing, same};

verus! {

/// How many events may wait for one subscriber.
pub const SUBSCRIBER_QUEUE: usize = 32;

/// One open subscription and the events it has not read yet.
pub struct Subscriber {
    pub id: String,
    pub topics: Vec<EventKind>,
    pub replaces_legacy_gui_delivery: bool,
    pub queue: Vec<Event>,
    pub connected: bool,
}

pub struct SubscriberView {
    pub id: Seq<char>,
    pub topics: Seq<EventKind>,
    pub replaces_legacy_gui_delivery: bool,
    pub queue: Seq<Event>,
    pub connected: bool,
}

impl View for Subscriber {
    type V = SubscriberView;

    open spec fn view(&self) -> SubscriberView {
        SubscriberView {
            id: self.id@,
            topics: self.topics@,
            replaces_legacy_gui_delivery: self.replaces_legacy_gui_delivery,
            queue: self.queue@,
            connected: self.connected,
        }
    }
}

impl SubscriberView {
    /// The subscriber asked for events of this kind.
    pub open spec fn wants(self, kind: EventKind) -> bool {
        self.topics.contains(kind)
    }

    /// The subscriber is still there and its queue has room.
    pub open spec fn has_room(self) -> bool {
        self.connected && self.queue.len() < SUBSCRIBER_QUEUE
    }

    /// The subscriber gets the event.
    pub open spec fn takes(self, kind: EventKind) -> bool {
        self.wants(kind) && self.has_room()
    }

    /// The subscriber as the event leaves it; a subscriber that wants the event
    /// and cannot take it is gone.
    pub open spec fn after(self, event: Event) -> Option<SubscriberView> {
        if !self.wants(event.kind) {
            Some(self)
        } else if self.has_room() {
            Some(SubscriberView { queue: self.queue.push(event), ..self })
        } else {
            None
        }
    }

    /// What waits in the queue was published after this revision.
    pub open spec fn since(self, told: nat) -> bool {
        forall|i: int| 0 <= i < self.queue.len() ==> told < (#[trigger] self.queue[i]).revision
    }

    /// What waits in the queue is in the order of publication, ends no later
    /// than `revision`, and is within the bound.
    pub open spec fn in_order(self, revision: nat) -> bool {
        &&& self.queue.len() <= SUBSCRIBER_QUEUE
        &&& forall|i: int| 0 <= i < self.queue.len() ==> (#[trigger] self.queue[i]).revision <= revision
        &&& forall|i: int, j: int|
            0 <= i < j < self.queue.len() ==> (#[trigger] self.queue[i]).revision < (
            #[trigger] self.queue[j]).revision
    }
}

/// The views of the subscribers, in order of subscription.
pub open spec fn views(subscribers: Seq<Subscriber>) -> Seq<SubscriberView> {
    subscribers.map_values(|s: Subscriber| s@)
}

/// The subscribers as the event leaves them.
pub open spec fn after_publish(subscribers: Seq<SubscriberView>, event: Event) -> Seq<
    SubscriberView,
>
    decreases subscribers.len(),
{
    if subscribers.len() == 0 {
        Seq::empty()
    } else {
        let before = after_publish(subscribers.drop_last(), event);
        match subscribers.last().after(event) {
            Some(subscriber) => before.push(subscriber),
            None => before,
        }
    }
}

/// The subscribers other than the one with this id.
pub open spec fn without(subscribers: Seq<SubscriberView>, id: Seq<char>) -> Seq<SubscriberView>
    decreases subscribers.len(),
{
    if subscribers.len() == 0 {
        Seq::empty()
    } else if subscribers.last().id == id {
        without(subscribers.drop_last(), id)
    } else {
        without(subscribers.drop_last(), id).push(subscribers.last())
    }
}

/// Some subscriber has this id.
pub open spec fn subscribed(subscribers: Seq<SubscriberView>, id: Seq<char>) -> bool {
    exists|i: int| 0 <= i < subscribers.len() && (#[trigger] subscribers[i]).id == id
}

/// The place of the first subscriber with this id.
pub open spec fn first_with(subscribers: Seq<SubscriberView>, id: Seq<char>) -> Option<int>
    decreases subscribers.len(),
{
    if subscribers.len() == 0 {
        None
    } else {
        match first_with(subscribers.drop_last(), id) {
            Some(i) => Some(i),
            None if subscribers.last().id == id => Some(subscribers.len() - 1),
            None => None,
        }
    }
}

proof fn lemma_first_with_step(subscribers: Seq<SubscriberView>, n: int, id: Seq<char>)
    requires
        0 <= n < subscribers.len(),
    ensures
        first_with(subscribers.subrange(0, n + 1), id) == (match first_with(
            subscribers.subrange(0, n),
            id,
        ) {
            Some(i) => Some(i),
            None => if subscribers[n].id == id {
                Some(n)
            } else {
                None
            },
        }),
{
    assert(subscribers.subrange(0, n + 1).drop_last() =~= subscribers.subrange(0, n));
}

proof fn lemma_first_with_grows(subscribers: Seq<SubscriberView>, n: int, id: Seq<char>)
    requires
        0 <= n <= subscribers.len(),
        first_with(subscribers.subrange(0, n), id) is Some,
    ensures
        first_with(subscribers, id) == first_with(subscribers.subrange(0, n), id),
    decreases subscribers.len() - n,
{
    if n < subscribers.len() {
        lemma_first_with_step(subscribers, n, id);
        lemma_first_with_grows(subscribers, n + 1, id);
    } else {
        assert(subscribers.subrange(0, n) =~= subscribers);
    }
}

/// Every subscriber's queue is in order.
pub open spec fn all_in_order(subscribers: Seq<SubscriberView>, revision: nat) -> bool {
    forall|i: int| 0 <= i < subscribers.len() ==> (#[trigger] subscribers[i]).in_order(revision)
}

/// Some subscriber takes an event of this kind.
pub open spec fn any_takes(subscribers: Seq<SubscriberView>, kind: EventKind) -> bool {
    exists|i: int| 0 <= i < subscribers.len() && (#[trigger] subscribers[i]).takes(kind)
}

/// Some subscriber that stands in for the GUI takes an event of this kind.
pub open spec fn gui_takes(subscribers: Seq<SubscriberView>, kind: EventKind) -> bool {
    exists|i: int|
        0 <= i < subscribers.len() && (#[trigger] subscribers[i]).takes(kind)
            && subscribers[i].replaces_legacy_gui_delivery
}

/// Who is listening, and how many events have been published.
pub struct EventHub {
    pub revision: u64,
    pub next_subscriber: u64,
    pub subscribers: Vec<Subscriber>,
}

/// Whom an event reached.
#[derive(Clone, Copy, Debug, PartialEq, Eq, Structural)]
pub struct PublishOutcome {
    pub delivered: bool,
    pub delivered_to_gui: bool,
}

/// The id of the subscriber that was the `n`-th to subscribe.
pub open spec fn subscriber_id(n: nat) -> Seq<char> {
    "sub-"@ + decimal(n)
}

fn wants(topics: &Vec<EventKind>, kind: EventKind) -> (r: bool)
    ensures
        r == topics@.contains(kind),
{
    let mut i: usize = 0;
    while i < topics.len()
        invariant
            i <= topics.len(),
            forall|k: int| 0 <= k < i ==> topics@[k] != kind,
        decreases topics.len() - i,
    {
        if topics[i] == kind {
            return true;
        }
        i += 1;
    }
    false
}

impl EventHub {
    pub open spec fn subscribers(self) -> Seq<SubscriberView> {
        views(self.subscribers@)
    }

    /// Every queue is in order and within its bound.
    pub open spec fn in_order(self) -> bool {
        all_in_order(self.subscribers(), self.revision as nat)
    }

    pub fn new() -> (r: Self)
        ensures
            r.revision == 0,
            r.next_subscriber == 0,
            r.subscribers() == Seq::<SubscriberView>::empty(),
            r.in_order(),
    {
        let r = EventHub { revision: 0, next_subscriber: 0, subscribers: Vec::new() };
        assert(r.subscribers() =~= Seq::<SubscriberView>::empty());
        r
    }

    /// Opens a subscription. Its events are those published after the revision
    /// that is handed back.
    pub fn subscribe(&mut self, topics: Vec<EventKind>, replaces_legacy_gui_delivery: bool) -> (r: (
        String,
        u64,
    ))
        requires
            old(self).next_subscriber < u64::MAX,
        ensures
            r.0@ == subscriber_id((old(self).next_subscriber + 1) as nat),
            r.1 == old(self).revision,
            final(self).revision == old(self).revision,
            final(self).next_subscriber == old(self).next_subscriber + 1,
            final(self).subscribers() == old(self).subscribers().push(
                (SubscriberView {
                    id: r.0@,
                    topics: topics@,
                    replaces_legacy_gui_delivery,
                    queue: Seq::empty(),
                    connected: true,
                }),
            ),
            old(self).in_order() ==> final(self).in_order(),
    {
        let ghost before = self.subscribers();
        self.next_subscriber = self.next_subscriber + 1;
        let mut id = "sub-".to_owned();
        id.append(number(self.next_subscriber).as_str());
        self.subscribers.push(
            Subscriber {
                id: id.clone(),
                topics,
                replaces_legacy_gui_delivery,
                queue: Vec::new(),
                connected: true,
            },
        );
        proof {
            let after = self.subscribers();
            let fresh = SubscriberView {
                id: id@,
                topics: topics@,
                replaces_legacy_gui_delivery,
                queue: Seq::empty(),
                connected: true,
            };
            assert(after =~= before.push(fresh));
            if old(self).in_order() {
                assert forall|i: int| 0 <= i < after.len() implies (#[trigger] after[i]).in_order(
                    self.revision as nat,
                ) by {
                    if i < before.len() {
                        assert(before[i].in_order(self.revision as nat));
                    }
                }
            }
        }
        (id, self.revision)
    }

    /// Ends the subscription; false where there was none with this id.
    pub fn unsubscribe(&mut self, id: &str) -> (r: bool)
        ensures
            r == subscribed(old(self).subscribers(), id@),
            final(self).subscribers() == without(old(self).subscribers(), id@),
            final(self).revision == old(self).revision,
            final(self).next_subscriber == old(self).next_subscriber,
            old(self).in_order() ==> final(self).in_order(),
    {
        let ghost before = self.subscribers();
        let wanted = id.to_owned();
        let mut found = false;
        let mut waiting: Vec<Subscriber> = Vec::new();
        std::mem::swap(&mut waiting, &mut self.subscribers);
        let mut kept: Vec<Subscriber> = Vec::new();
        proof {
            assert(before.subrange(0, 0) =~= Seq::<SubscriberView>::empty());
            assert(views(kept@) =~= Seq::<SubscriberView>::empty());
        }
        for subscriber in it: waiting
            invariant
                before == views(it.seq()),
                wanted@ == id@,
                found == subscribed(before.subrange(0, it.index() as int), id@),
                views(kept@) == without(before.subrange(0, it.index() as int), id@),
        {
            proof {
                let n = it.index() as int;
                assert(before.subrange(0, n + 1).drop_last() =~= before.subrange(0, n));
                assert(before[n] == subscriber@);
                let here = before.subrange(0, n + 1);
                let past = before.subrange(0, n);
                assert(here[n] == subscriber@);
                if subscribed(past, id@) {
                    let w = choose|i: int| 0 <= i < past.len() && (#[trigger] past[i]).id == id@;
                    assert(here[w].id == id@);
                }
                if subscribed(here, id@) && subscriber@.id != id@ {
                    let w = choose|i: int| 0 <= i < here.len() && (#[trigger] here[i]).id == id@;
                    assert(past[w].id == id@);
                }
            }
            if subscriber.id == wanted {
                found = true;
            } else {
                let ghost was = kept@;
                kept.push(subscriber);
                assert(views(kept@) =~= views(was).push(subscriber@));
            }
        }
        assert(before.subrange(0, before.len() as int) =~= before);
        self.subscribers = kept;
        proof {
            if old(self).in_order() {
                lemma_without_in_order(before, id@, self.revision as nat);
            }
        }
        found
    }
}

proof fn lemma_without_in_order(subscribers: Seq<SubscriberView>, id: Seq<char>, revision: nat)
    requires
        all_in_order(subscribers, revision),
    ensures
        all_in_order(without(subscribers, id), revision),
    decreases subscribers.len(),
{
    if subscribers.len() > 0 {
        let init = subscribers.drop_last();
        assert forall|i: int| 0 <= i < init.len() implies (#[trigger] init[i]).in_order(revision) by {
            assert(subscribers[i].in_order(revision));
        }
        lemma_without_in_order(init, id, revision);
        assert(subscribers[subscribers.len() - 1].in_order(revision));
    }
}

proof fn lemma_publish_in_order(subscribers: Seq<SubscriberView>, event: Event)
    requires
        event.revision > 0,
        all_in_order(subscribers, (event.revision - 1) as nat),
    ensures
        all_in_order(after_publish(subscribers, event), event.revision as nat),
    decreases subscribers.len(),
{
    if subscribers.len() > 0 {
        let before = (event.revision - 1) as nat;
        let init = subscribers.drop_last();
        assert forall|i: int| 0 <= i < init.len() implies (#[trigger] init[i]).in_order(before) by {
            assert(subscribers[i].in_order(before));
        }
        lemma_publish_in_order(init, event);
        let last = subscribers[subscribers.len() - 1];
        assert(last.in_order(before));
        if last.after(event) is Some {
            assert(last.after(event)->0.in_order(event.revision as nat));
        }
    }
}

proof fn lemma_takes_step(subscribers: Seq<SubscriberView>, n: int, kind: EventKind)
    requires
        0 <= n < subscribers.len(),
    ensures
        any_takes(subscribers.subrange(0, n + 1), kind) == (any_takes(
            subscribers.subrange(0, n),
            kind,
        ) || subscribers[n].takes(kind)),
        gui_takes(subscribers.subrange(0, n + 1), kind) == (gui_takes(
            subscribers.subrange(0, n),
            kind,
        ) || (subscribers[n].takes(kind) && subscribers[n].replaces_legacy_gui_delivery)),
{
    let past = subscribers.subrange(0, n);
    let here = subscribers.subrange(0, n + 1);
    assert(here[n] == subscribers[n]);
    if any_takes(past, kind) {
        let w = choose|i: int| 0 <= i < past.len() && (#[trigger] past[i]).takes(kind);
        assert(here[w].takes(kind));
    }
    if gui_takes(past, kind) {
        let w = choose|i: int|
            0 <= i < past.len() && (#[trigger] past[i]).takes(kind)
                && past[i].replaces_legacy_gui_delivery;
        assert(here[w].takes(kind) && here[w].replaces_legacy_gui_delivery);
    }
    if any_takes(here, kind) && !subscribers[n].takes(kind) {
        let w = choose|i: int| 0 <= i < here.len() && (#[trigger] here[i]).takes(kind);
        assert(past[w].takes(kind));
    }
    if gui_takes(here, kind) && !(subscribers[n].takes(kind)
        && subscribers[n].replaces_legacy_gui_delivery) {
        let w = choose|i: int|
            0 <= i < here.len() && (#[trigger] here[i]).takes(kind)
                && here[i].replaces_legacy_gui_delivery;
        assert(past[w].takes(kind) && past[w].replaces_legacy_gui_delivery);
    }
}

impl EventHub {
    /// Publishes one event under the next revision. Every subscriber that asked
    /// for the kind gets it, or is dropped where its queue is full or its reader
    /// has gone; the others are left as they are.
    pub fn publish(&mut self, kind: EventKind, payload: serde_json::Value) -> (r: PublishOutcome)
        requires
            old(self).revision < u64::MAX,
        ensures
            final(self).revision == old(self).revision + 1,
            final(self).next_subscriber == old(self).next_subscriber,
            final(self).subscribers() == after_publish(
                old(self).subscribers(),
                (Event { revision: final(self).revision, kind, payload }),
            ),
            r.delivered == any_takes(old(self).subscribers(), kind),
            r.delivered_to_gui == gui_takes(old(self).subscribers(), kind),
            old(self).in_order() ==> final(self).in_order(),
    {
        let ghost before = self.subscribers();
        self.revision = self.revision + 1;
        let event = Event { revision: self.revision, kind, payload };
        let mut outcome = PublishOutcome { delivered: false, delivered_to_gui: false };
        let mut waiting: Vec<Subscriber> = Vec::new();
        std::mem::swap(&mut waiting, &mut self.subscribers);
        let mut kept: Vec<Subscriber> = Vec::new();
        proof {
            assert(before.subrange(0, 0) =~= Seq::<SubscriberView>::empty());
            assert(views(kept@) =~= Seq::<SubscriberView>::empty());
        }
        for subscriber in it: waiting
            invariant
                before == views(it.seq()),
                event.kind == kind,
                outcome.delivered == any_takes(before.subrange(0, it.index() as int), kind),
                outcome.delivered_to_gui == gui_takes(before.subrange(0, it.index() as int), kind),
                views(kept@) == after_publish(before.subrange(0, it.index() as int), event),
        {
            proof {
                let n = it.index() as int;
                lemma_takes_step(before, n, kind);
                assert(before.subrange(0, n + 1).drop_last() =~= before.subrange(0, n));
                assert(before[n] == subscriber@);
                assert(before.subrange(0, n + 1).last() == subscriber@);
            }
            let ghost was = kept@;
            if !wants(&subscriber.topics, kind) {
                kept.push(subscriber);
                assert(views(kept@) =~= views(was).push(subscriber@));
            } else if subscriber.connected && subscriber.queue.len() < SUBSCRIBER_QUEUE {
                let mut taker = subscriber;
                taker.queue.push(event.clone());
                outcome.delivered = true;
                outcome.delivered_to_gui = outcome.delivered_to_gui
                    || taker.replaces_legacy_gui_delivery;
                kept.push(taker);
                assert(views(kept@) =~= views(was).push(taker@));
                assert(taker@ == subscriber@.after(event)->0);
            }
        }
        assert(before.subrange(0, before.len() as int) =~= before);
        self.subscribers = kept;
        proof {
            if old(self).in_order() {
                lemma_publish_in_order(before, event);
            }
        }
        outcome
    }

    /// The place of the subscriber with this id.
    fn position(&self, id: &str) -> (r: Option<usize>)
        ensures
            r is Some <==> first_with(self.subscribers(), id@) is Some,
            r matches Some(i) ==> i < self.subscribers.len() && first_with(self.subscribers(), id@) == Some(
                i as int,
            ),
    {
        let wanted = id.to_owned();
        let mut i: usize = 0;
        while i < self.subscribers.len()
            invariant
                i <= self.subscribers.len(),
                wanted@ == id@,
                first_with(self.subscribers().subrange(0, i as int), id@) is None,
            decreases self.subscribers.len() - i,
        {
            proof {
                lemma_first_with_step(self.subscribers(), i as int, id@);
            }
            if self.subscribers[i].id == wanted {
                proof {
                    lemma_first_with_grows(self.subscribers(), i + 1, id@);
                }
                return Some(i);
            }
            i += 1;
        }
        assert(self.subscribers().subrange(0, i as int) =~= self.subscribers());
        None
    }

    /// Takes the oldest event that waits for the subscriber: `None` where nothing
    /// waits or nobody has this id.
    pub fn next_event(&mut self, id: &str) -> (r: Option<Event>)
        ensures
            final(self).revision == old(self).revision,
            final(self).next_subscriber == old(self).next_subscriber,
            match first_with(old(self).subscribers(), id@) {
                Some(i) if old(self).subscribers()[i].queue.len() > 0 => {
                    let subscriber = old(self).subscribers()[i];
                    &&& r == Some(subscriber.queue[0])
                    &&& final(self).subscribers() == old(self).subscribers().update(
                        i,
                        (SubscriberView { queue: subscriber.queue.drop_first(), ..subscriber }),
                    )
                },
                _ => r is None && final(self).subscribers() == old(self).subscribers(),
            },
            old(self).in_order() ==> final(self).in_order(),
    {
        let ghost before = self.subscribers();
        match self.position(id) {
            None => None,
            Some(i) => {
                if self.subscribers[i].queue.len() == 0 {
                    return None;
                }
                let ghost was = before[i as int];
                assert(was.queue.len() > 0);
                let event = self.subscribers[i].queue.remove(0);
                assert(was.queue.remove(0) =~= was.queue.drop_first());
                assert(self.subscribers() =~= before.update(
                    i as int,
                    SubscriberView { queue: was.queue.drop_first(), ..was },
                ));
                proof {
                    if old(self).in_order() {
                        assert(was.in_order(self.revision as nat));
                        let now = self.subscribers()[i as int];
                        assert(now.in_order(self.revision as nat));
                        assert forall|k: int| 0 <= k < self.subscribers().len() implies (
                        #[trigger] self.subscribers()[k]).in_order(self.revision as nat) by {
                            assert(before[k].in_order(self.revision as nat));
                        }
                    }
                }
                Some(event)
            },
        }
    }

    /// The reader of the subscription has gone: it takes no further event.
    pub fn hang_up(&mut self, id: &str)
        ensures
            final(self).revision == old(self).revision,
            final(self).next_subscriber == old(self).next_subscriber,
            final(self).subscribers() == (match first_with(old(self).subscribers(), id@) {
                Some(i) => old(self).subscribers().update(
                    i,
                    (SubscriberView { connected: false, ..old(self).subscribers()[i] }),
                ),
                None => old(self).subscribers(),
            }),
            old(self).in_order() ==> final(self).in_order(),
    {
        let ghost before = self.subscribers();
        match self.position(id) {
            None => {},
            Some(i) => {
                self.subscribers[i].connected = false;
                assert(self.subscribers() =~= before.update(
                    i as int,
                    SubscriberView { connected: false, ..before[i as int] },
                ));
                proof {
                    if old(self).in_order() {
                        assert forall|k: int| 0 <= k < self.subscribers().len() implies (
                        #[trigger] self.subscribers()[k]).in_order(self.revision as nat) by {
                            assert(before[k].in_order(self.revision as nat));
                        }
                    }
                }
            },
        }
    }
}

/// What a subscriber asks for.
#[derive(Debug)]
pub struct SubscribeParams {
    pub topics: Vec<EventKind>,
    pub client: Option<String>,
}

/// What becomes of a request to subscribe.
#[derive(Debug)]
pub enum Subscription {
    /// It is refused and nothing was opened.
    Refused(Response),
    /// It was opened under this id, and this is its acknowledgement.
    Opened(String, Response),
}

/// Why the parameters of a request to subscribe are refused.
pub open spec fn subscribe_refusal(p: SubscribeParams) -> Option<Seq<char>> {
    if p.topics@.len() == 0 {
        Some("at least one event topic is required"@)
    } else if p.client is Some && p.client->0@ != "gui"@ {
        Some("subscription client must be `gui` when present"@)
    } else {
        None
    }
}

/// The acknowledgement of a subscription: its id, and the revision its events
/// come after.
pub open spec fn acknowledgement(id: Seq<char>, revision: u64) -> serde_json::Value {
    json::object_value(
        json::Members::empty().insert("subscription_id"@, json::text_value(id)).insert(
            "revision"@,
            json::number_value(revision),
        ),
    )
}

/// Takes in a request to subscribe: the protocol is looked at first, then the
/// parameters.
pub fn serve_subscription(
    request: &Request,
    speaks: u32,
    params: Result<SubscribeParams, String>,
    events: &mut EventHub,
) -> (r: Subscription)
    requires
        request.protocol == speaks && (params matches Ok(p) && subscribe_refusal(p) is None)
            ==> old(events).next_subscriber < u64::MAX,
    ensures
        if request.protocol != speaks {
            &&& *final(events) == *old(events)
            &&& r matches Subscription::Refused(a) && a.refuses(
                request.id@,
                "unsupported_protocol"@,
                protocol_refusal(request.protocol, speaks),
            )
        } else {
            match params {
                Err(error) => {
                    &&& *final(events) == *old(events)
                    &&& r matches Subscription::Refused(a) && a.refuses(
                        request.id@,
                        "invalid_params"@,
                        error@,
                    )
                },
                Ok(p) => match subscribe_refusal(p) {
                    Some(message) => {
                        &&& *final(events) == *old(events)
                        &&& r matches Subscription::Refused(a) && a.refuses(
                            request.id@,
                            "invalid_params"@,
                            message,
                        )
                    },
                    None => {
                        let id = subscriber_id((old(events).next_subscriber + 1) as nat);
                        &&& r matches Subscription::Opened(opened, a) && opened@ == id
                            && a.succeeds(
                            request.id@,
                            acknowledgement(id, old(events).revision),
                        )
                        &&& final(events).revision == old(events).revision
                        &&& final(events).next_subscriber == old(events).next_subscriber + 1
                        &&& final(events).subscribers() == old(events).subscribers().push(
                            (SubscriberView {
                                id,
                                topics: p.topics@,
                                replaces_legacy_gui_delivery: p.client is Some,
                                queue: Seq::empty(),
                                connected: true,
                            }),
                        )
                    },
                },
            }
        },
        old(events).in_order() ==> final(events).in_order(),
{
    if request.protocol != speaks {
        let message = protocol_refused(request.protocol, speaks);
        return Subscription::Refused(
            Response::error(request.id.as_str(), "unsupported_protocol", message.as_str()),
        );
    }
    let p = match params {
        Ok(p) => p,
        Err(error) => {
            return Subscription::Refused(
                Response::error(request.id.as_str(), "invalid_params", error.as_str()),
            );
        },
    };
    if p.topics.is_empty() {
        return Subscription::Refused(
            Response::error(
                request.id.as_str(),
                "invalid_params",
                "at least one event topic is required",
            ),
        );
    }
    let gui = match &p.client {
        Some(client) => {
            if !same(client.as_str(), "gui") {
                return Subscription::Refused(
                    Response::error(
                        request.id.as_str(),
                        "invalid_params",
                        "subscription client must be `gui` when present",
                    ),
                );
            }
            true
        },
        None => false,
    };
    let (id, revision) = events.subscribe(p.topics, gui);
    let mut result = json::empty_object();
    json::put(&mut result, "subscription_id", json::text(id.as_str()));
    json::put(&mut result, "revision", json::number(revision));
    let response = Response::success(request.id.as_str(), json::object(result));
    Subscription::Opened(id, response)
}

/// Answers a request to end a subscription.
pub fn unsubscribe(request: &Request, id: Result<String, String>, events: &mut EventHub) -> (r:
    Response)
    ensures
        match id {
            Err(error) => {
                &&& r.refuses(request.id@, "invalid_params"@, error@)
                &&& *final(events) == *old(events)
            },
            Ok(id) => {
                &&& r.succeeds(
                    request.id@,
                    json::object_value(
                        json::Members::empty().insert(
                            "unsubscribed"@,
                            json::flag_value(subscribed(old(events).subscribers(), id@)),
                        ),
                    ),
                )
                &&& final(events).subscribers() == without(old(events).subscribers(), id@)
                &&& final(events).revision == old(events).revision
                &&& final(events).next_subscriber == old(events).next_subscriber
            },
        },
        old(events).in_order() ==> final(events).in_order(),
{
    match id {
        Err(error) => Response::error(request.id.as_str(), "invalid_params", error.as_str()),
        Ok(id) => {
            let ended = events.unsubscribe(id.as_str());
            let mut result = json::empty_object();
            json::put(&mut result, "unsubscribed", json::flag(ended));
            Response::success(request.id.as_str(), json::object(result))
        },
    }
}

/// A subscriber that was told a revision sees only later events, and sees them
/// in the order in which they were published: whatever waits for it after any
/// number of publications is in order.
pub proof fn a_publication_comes_after_everything_before_it(
    subscriber: SubscriberView,
    told: nat,
    event: Event,
)
    requires
        event.revision > told,
        subscriber.since(told),
        subscriber.in_order((event.revision - 1) as nat),
        subscriber.takes(event.kind),
    ensures
        subscriber.after(event) is Some,
        subscriber.after(event)->0.since(told),
        subscriber.after(event)->0.in_order(event.revision as nat),
        subscriber.after(event)->0.queue.last() == event,
        forall|i: int|
            0 <= i < subscriber.queue.len() ==> (#[trigger] subscriber.after(
                event,
            )->0.queue[i]).revision < event.revision,
{
}

/// A slow reader is dropped rather than waited for, and nobody else notices: the
/// others get the event.
pub proof fn a_slow_reader_costs_only_itself(
    subscribers: Seq<SubscriberView>,
    event: Event,
    slow: SubscriberView,
)
    requires
        slow.wants(event.kind),
        !slow.has_room(),
    ensures
        after_publish(subscribers.push(slow), event) == after_publish(subscribers, event),
{
    assert(subscribers.push(slow).drop_last() =~= subscribers);
}

/// Every subscriber has an id that was given out, and no two have the same.
pub open spec fn ids_differ(subscribers: Seq<SubscriberView>, given: nat) -> bool {
    &&& forall|i: int|
        0 <= i < subscribers.len() ==> exists|n: nat|
            1 <= n <= given && (#[trigger] subscribers[i]).id == #[trigger] subscriber_id(n)
    &&& forall|i: int, j: int|
        0 <= i < j < subscribers.len() ==> (#[trigger] subscribers[i]).id != (
        #[trigger] subscribers[j]).id
}

proof fn lemma_ids_are_numbered(n: nat, m: nat)
    requires
        subscriber_id(n) == subscriber_id(m),
    ensures
        n == m,
{
    let prefix = "sub-"@;
    assert(decimal(n) =~= subscriber_id(n).subrange(
        prefix.len() as int,
        subscriber_id(n).len() as int,
    ));
    assert(decimal(m) =~= subscriber_id(m).subrange(
        prefix.len() as int,
        subscriber_id(m).len() as int,
    ));
    reading_undoes_writing(n, n + m);
    reading_undoes_writing(m, n + m);
}

/// A subscription gets an id that nobody has.
pub proof fn a_new_subscriber_has_its_own_id(
    subscribers: Seq<SubscriberView>,
    given: nat,
    fresh: SubscriberView,
)
    requires
        ids_differ(subscribers, given),
        fresh.id == subscriber_id(given + 1),
    ensures
        !subscribed(subscribers, fresh.id),
        ids_differ(subscribers.push(fresh), given + 1),
{
    assert forall|i: int| 0 <= i < subscribers.len() implies (#[trigger] subscribers[i]).id
        != fresh.id by {
        let n = choose|n: nat| 1 <= n <= given && subscribers[i].id == #[trigger] subscriber_id(n);
        if subscribers[i].id == fresh.id {
            lemma_ids_are_numbered(n, given + 1);
        }
    }
    let after = subscribers.push(fresh);
    assert forall|i: int| 0 <= i < after.len() implies exists|n: nat|
        1 <= n <= given + 1 && (#[trigger] after[i]).id == #[trigger] subscriber_id(n) by {
        if i < subscribers.len() {
            let n = choose|n: nat|
                1 <= n <= given && subscribers[i].id == #[trigger] subscriber_id(n);
            assert(after[i].id == subscriber_id(n));
        } else {
            assert(after[i].id == subscriber_id(given + 1));
        }
    }
}

/// Everybody in `part` has the id of somebody in `whole`.
pub open spec fn come_from(part: Seq<SubscriberView>, whole: Seq<SubscriberView>) -> bool {
    forall|i: int| 0 <= i < part.len() ==> subscribed(whole, (#[trigger] part[i]).id)
}

proof fn lemma_come_from_more(
    part: Seq<SubscriberView>,
    whole: Seq<SubscriberView>,
    last: SubscriberView,
)
    requires
        come_from(part, whole),
    ensures
        come_from(part, whole.push(last)),
{
    assert forall|i: int| 0 <= i < part.len() implies subscribed(
        whole.push(last),
        (#[trigger] part[i]).id,
    ) by {
        let j = choose|j: int| 0 <= j < whole.len() && (#[trigger] whole[j]).id == part[i].id;
        assert(whole.push(last)[j].id == part[i].id);
    }
}

proof fn lemma_one_more_stays_apart(
    part: Seq<SubscriberView>,
    whole: Seq<SubscriberView>,
    kept: SubscriberView,
    last: SubscriberView,
    given: nat,
)
    requires
        ids_differ(whole.push(last), given),
        ids_differ(part, given),
        come_from(part, whole),
        kept.id == last.id,
    ensures
        ids_differ(part.push(kept), given),
        come_from(part.push(kept), whole.push(last)),
{
    let all = whole.push(last);
    let after = part.push(kept);
    lemma_come_from_more(part, whole, last);
    let top = whole.len() as int;
    assert(all[top].id == last.id);
    let n = choose|n: nat| 1 <= n <= given && all[top].id == #[trigger] subscriber_id(n);
    assert forall|i: int| 0 <= i < after.len() implies exists|n: nat|
        1 <= n <= given && (#[trigger] after[i]).id == #[trigger] subscriber_id(n) by {
        if i < part.len() {
            let m = choose|m: nat| 1 <= m <= given && part[i].id == #[trigger] subscriber_id(m);
            assert(after[i].id == subscriber_id(m));
        } else {
            assert(after[i].id == subscriber_id(n));
        }
    }
    assert forall|i: int, j: int| 0 <= i < j < after.len() implies (#[trigger] after[i]).id != (
    #[trigger] after[j]).id by {
        if j < part.len() {
            assert(part[i].id != part[j].id);
        } else {
            let k = choose|k: int| 0 <= k < whole.len() && (#[trigger] whole[k]).id == part[i].id;
            assert(all[k].id != all[top].id);
        }
    }
    assert forall|i: int| 0 <= i < after.len() implies subscribed(all, (#[trigger] after[i]).id) by {
        if i < part.len() {
            assert(subscribed(all, part[i].id));
        } else {
            assert(all[top].id == after[i].id);
        }
    }
}

/// Neither a publication nor the end of a subscription gives an id to somebody
/// else: whoever is still there was there before, under its own id.
pub proof fn ids_stay_apart(
    subscribers: Seq<SubscriberView>,
    given: nat,
    event: Event,
    id: Seq<char>,
)
    requires
        ids_differ(subscribers, given),
    ensures
        ids_differ(after_publish(subscribers, event), given),
        come_from(after_publish(subscribers, event), subscribers),
        ids_differ(without(subscribers, id), given),
        come_from(without(subscribers, id), subscribers),
    decreases subscribers.len(),
{
    if subscribers.len() > 0 {
        let init = subscribers.drop_last();
        let last = subscribers.last();
        assert(init.push(last) =~= subscribers);
        assert(ids_differ(init, given)) by {
            assert forall|i: int| 0 <= i < init.len() implies exists|n: nat|
                1 <= n <= given && (#[trigger] init[i]).id == #[trigger] subscriber_id(n) by {
                let n = choose|n: nat|
                    1 <= n <= given && subscribers[i].id == #[trigger] subscriber_id(n);
                assert(init[i].id == subscriber_id(n));
            }
            assert forall|i: int, j: int| 0 <= i < j < init.len() implies (#[trigger] init[i]).id
                != (#[trigger] init[j]).id by {
                assert(subscribers[i].id != subscribers[j].id);
            }
        }
        ids_stay_apart(init, given, event, id);
        lemma_come_from_more(after_publish(init, event), init, last);
        lemma_come_from_more(without(init, id), init, last);
        if last.after(event) is Some {
            lemma_one_more_stays_apart(
                after_publish(init, event),
                init,
                last.after(event)->0,
                last,
                given,
            );
        }
        lemma_one_more_stays_apart(without(init, id), init, last, last, given);
    }
}

}
