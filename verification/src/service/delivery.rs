//! Who gets an event, and what waits for whom.
use vstd::prelude::*;
use vstd::string::*;

use crate::notices::Notification;
use crate::protocol::{Event, EventKind, Response};
use crate::service::events::{
    after_publish, any_takes, first_with, gui_takes, subscribe_refusal, without,
    SubscribeParams, SubscriberView,
};
use crate::service::idempotency::Admission;
use crate::service::queue::{kept_back, waiting};

verus! {

/// Whoever asked for other events than this one is left as it was.
pub proof fn an_event_passes_by_who_did_not_ask(
    subscribers: Seq<SubscriberView>,
    event: Event,
    i: int,
) -> (k: int)
    requires
        0 <= i < subscribers.len(),
        !subscribers[i].topics.contains(event.kind),
    ensures
        0 <= k < after_publish(subscribers, event).len(),
        after_publish(subscribers, event)[k] == subscribers[i],
    decreases subscribers.len(),
{
    let init = subscribers.drop_last();
    if i < init.len() {
        an_event_passes_by_who_did_not_ask(init, event, i)
    } else {
        after_publish(init, event).len() as int
    }
}

/// Whoever asked for the event, still reads, and has fewer than thirty-two events
/// waiting gets it behind them, and nothing else of its subscription changes.
pub proof fn an_event_reaches_who_asked(
    subscribers: Seq<SubscriberView>,
    event: Event,
    i: int,
) -> (k: int)
    requires
        0 <= i < subscribers.len(),
        subscribers[i].topics.contains(event.kind),
        subscribers[i].connected,
        subscribers[i].queue.len() < 32,
    ensures
        0 <= k < after_publish(subscribers, event).len(),
        ({
            let now = after_publish(subscribers, event)[k];
            &&& now.id == subscribers[i].id
            &&& now.topics == subscribers[i].topics
            &&& now.replaces_legacy_gui_delivery == subscribers[i].replaces_legacy_gui_delivery
            &&& now.connected
            &&& now.queue == subscribers[i].queue.push(event)
        }),
    decreases subscribers.len(),
{
    let init = subscribers.drop_last();
    if i < init.len() {
        an_event_reaches_who_asked(init, event, i)
    } else {
        after_publish(init, event).len() as int
    }
}

/// Nobody else is there after an event: whoever is left was there before, and
/// either did not ask for it or took it.
pub proof fn an_event_brings_nobody(
    subscribers: Seq<SubscriberView>,
    event: Event,
    k: int,
) -> (i: int)
    requires
        0 <= k < after_publish(subscribers, event).len(),
    ensures
        0 <= i < subscribers.len(),
        ({
            let was = subscribers[i];
            let now = after_publish(subscribers, event)[k];
            &&& now.id == was.id
            &&& now.topics == was.topics
            &&& now.connected == was.connected
            &&& !was.topics.contains(event.kind) ==> now.queue == was.queue
            &&& was.topics.contains(event.kind) ==> was.connected && was.queue.len() < 32
                && now.queue == was.queue.push(event)
        }),
    decreases subscribers.len(),
{
    let init = subscribers.drop_last();
    if k < after_publish(init, event).len() {
        let i = an_event_brings_nobody(init, event, k);
        assert(init[i] == subscribers[i]);
        i
    } else {
        subscribers.len() - 1
    }
}

/// Whoever asked for the event and cannot take it, because its reader has gone or
/// thirty-two events wait already, is dropped.
pub proof fn who_cannot_take_an_event_is_dropped(
    subscribers: Seq<SubscriberView>,
    event: Event,
    i: int,
)
    requires
        0 <= i < subscribers.len(),
        subscribers[i].topics.contains(event.kind),
        !subscribers[i].connected || subscribers[i].queue.len() >= 32,
        forall|a: int, b: int|
            0 <= a < b < subscribers.len() ==> (#[trigger] subscribers[a]).id != (
            #[trigger] subscribers[b]).id,
    ensures
        forall|k: int|
            0 <= k < after_publish(subscribers, event).len() ==> (#[trigger] after_publish(
                subscribers,
                event,
            )[k]).id != subscribers[i].id,
{
    assert forall|k: int| 0 <= k < after_publish(subscribers, event).len() implies (
    #[trigger] after_publish(subscribers, event)[k]).id != subscribers[i].id by {
        let j = an_event_brings_nobody(subscribers, event, k);
        if j < i {
            assert(subscribers[j].id != subscribers[i].id);
        } else if i < j {
            assert(subscribers[i].id != subscribers[j].id);
        }
    }
}

/// An event was delivered exactly where somebody who asked for it reads and has
/// room, and delivered to the window exactly where such a one stands in for it.
pub proof fn an_event_is_delivered_where_somebody_takes_it(
    subscribers: Seq<SubscriberView>,
    kind: EventKind,
)
    ensures
        any_takes(subscribers, kind) <==> exists|i: int|
            0 <= i < subscribers.len() && (#[trigger] subscribers[i]).connected
                && subscribers[i].topics.contains(kind) && subscribers[i].queue.len() < 32,
        gui_takes(subscribers, kind) <==> exists|i: int|
            0 <= i < subscribers.len() && (#[trigger] subscribers[i]).connected
                && subscribers[i].topics.contains(kind) && subscribers[i].queue.len() < 32
                && subscribers[i].replaces_legacy_gui_delivery,
{
    if exists|i: int|
        0 <= i < subscribers.len() && (#[trigger] subscribers[i]).connected
            && subscribers[i].topics.contains(kind) && subscribers[i].queue.len() < 32 {
        let i = choose|i: int|
            0 <= i < subscribers.len() && (#[trigger] subscribers[i]).connected
                && subscribers[i].topics.contains(kind) && subscribers[i].queue.len() < 32;
        assert(subscribers[i].takes(kind));
    }
    if exists|i: int|
        0 <= i < subscribers.len() && (#[trigger] subscribers[i]).connected
            && subscribers[i].topics.contains(kind) && subscribers[i].queue.len() < 32
            && subscribers[i].replaces_legacy_gui_delivery {
        let i = choose|i: int|
            0 <= i < subscribers.len() && (#[trigger] subscribers[i]).connected
                && subscribers[i].topics.contains(kind) && subscribers[i].queue.len() < 32
                && subscribers[i].replaces_legacy_gui_delivery;
        assert(subscribers[i].takes(kind));
    }
    if any_takes(subscribers, kind) {
        let i = choose|i: int|
            0 <= i < subscribers.len() && (#[trigger] subscribers[i]).takes(kind);
        assert(subscribers[i].connected);
    }
    if gui_takes(subscribers, kind) {
        let i = choose|i: int|
            0 <= i < subscribers.len() && (#[trigger] subscribers[i]).takes(kind)
                && subscribers[i].replaces_legacy_gui_delivery;
        assert(subscribers[i].connected);
    }
}

/// The end of a subscription ends that one and no other.
pub proof fn ending_a_subscription_ends_it_alone(
    subscribers: Seq<SubscriberView>,
    id: Seq<char>,
    s: SubscriberView,
)
    ensures
        without(subscribers, id).contains(s) <==> subscribers.contains(s) && s.id != id,
    decreases subscribers.len(),
{
    if subscribers.len() > 0 {
        let init = subscribers.drop_last();
        ending_a_subscription_ends_it_alone(init, id, s);
        assert(subscribers =~= init.push(subscribers.last()));
        crate::text::contains_pushed(init, subscribers.last(), s);
        crate::text::contains_pushed(without(init, id), subscribers.last(), s);
    }
}

/// What is read for an id is read from the first subscription under it.
pub proof fn an_id_means_its_first_subscription(subscribers: Seq<SubscriberView>, id: Seq<char>)
    ensures
        match first_with(subscribers, id) {
            Some(i) => 0 <= i < subscribers.len() && subscribers[i].id == id && forall|k: int|
                0 <= k < i ==> (#[trigger] subscribers[k]).id != id,
            None => forall|k: int| 0 <= k < subscribers.len() ==> (#[trigger] subscribers[k]).id != id,
        },
    decreases subscribers.len(),
{
    if subscribers.len() > 0 {
        let init = subscribers.drop_last();
        an_id_means_its_first_subscription(init, id);
        assert forall|k: int| 0 <= k < init.len() implies init[k] == #[trigger] subscribers[k] by {}
    }
}

/// A subscription is opened exactly where it asks for some event, and is nobody's
/// or the window's.
pub proof fn a_subscription_names_events(p: SubscribeParams)
    ensures
        subscribe_refusal(p) is None <==> p.topics@.len() > 0 && (p.client matches Some(client)
            ==> client@ == "gui"@),
        p.topics@.len() == 0 ==> subscribe_refusal(p) == Some(
            "at least one event topic is required"@,
        ),
        p.topics@.len() > 0 && subscribe_refusal(p) is Some ==> subscribe_refusal(p) == Some(
            "subscription client must be `gui` when present"@,
        ),
{
}

/// A refused request is answered and never carried out; one that passes is carried
/// out exactly where nothing is kept under its key, or where it has none.
pub proof fn a_request_is_carried_out_once(
    r: Admission,
    id: Seq<char>,
    refusal: Option<Seq<char>>,
    key: Option<Seq<char>>,
    kept: Map<Seq<char>, Response>,
)
    requires
        r.decided(id, refusal, key, kept),
    ensures
        r is Run <==> refusal is None && (key matches Some(k) ==> !kept.contains_key(k)),
        refusal matches Some(message) ==> {
            &&& r matches Admission::Answer(a) && a.id@ == id && !a.ok && a.result is None
                && a.error is Some && a.error->0.code@ == "invalid_params"@ && a.error->0.message@
                == message
        },
        refusal is None && (key matches Some(k) && kept.contains_key(k)) ==> {
            &&& r matches Admission::Answer(a) && a.id@ == id && a.ok == kept[key->0].ok && a.result
                == kept[key->0].result && a.error == kept[key->0].error
        },
        r matches Admission::Run(Some(s)) ==> key == Some(s@),
        r matches Admission::Run(None) ==> key is None,
{
}

/// What waits once reports were sent is what did not arrive: of each worktree the
/// last such report, and nothing that arrived alone.
pub proof fn what_did_not_arrive_waits(sent: Seq<(Notification, bool)>, id: Seq<char>)
    ensures
        kept_back(sent).contains_key(id) <==> exists|i: int|
            0 <= i < sent.len() && !(#[trigger] sent[i]).1 && sent[i].0.worktree_id@ == id,
        kept_back(sent).contains_key(id) ==> exists|i: int|
            0 <= i < sent.len() && !(#[trigger] sent[i]).1 && sent[i].0.worktree_id@ == id
                && kept_back(sent)[id] == sent[i].0 && forall|k: int|
                i < k < sent.len() && (#[trigger] sent[k]).0.worktree_id@ == id ==> sent[k].1,
    decreases sent.len(),
{
    if sent.len() > 0 {
        let init = sent.drop_last();
        let last = sent.last();
        what_did_not_arrive_waits(init, id);
        assert(sent[sent.len() - 1] == last);
        assert forall|k: int| 0 <= k < init.len() implies init[k] == #[trigger] sent[k] by {}
        if !last.1 && last.0.worktree_id@ == id {
            assert(kept_back(sent)[id] == sent[sent.len() - 1].0);
        } else {
            if kept_back(init).contains_key(id) {
                let i = choose|i: int|
                    0 <= i < init.len() && !(#[trigger] init[i]).1 && init[i].0.worktree_id@ == id
                        && kept_back(init)[id] == init[i].0 && forall|k: int|
                        i < k < init.len() && (#[trigger] init[k]).0.worktree_id@ == id ==> init[k].1;
                assert(!sent[i].1);
                assert forall|k: int|
                    i < k < sent.len() && (#[trigger] sent[k]).0.worktree_id@ == id implies sent[k].1 by {
                    if k < init.len() {
                        assert(init[k] == sent[k]);
                    }
                }
            }
            if exists|i: int|
                0 <= i < sent.len() && !(#[trigger] sent[i]).1 && sent[i].0.worktree_id@ == id {
                let i = choose|i: int|
                    0 <= i < sent.len() && !(#[trigger] sent[i]).1 && sent[i].0.worktree_id@ == id;
                assert(init[i] == sent[i]);
            }
        }
    }
}

/// Every report that waited for the window is handed to it, under its own
/// worktree, and no other is.
pub proof fn every_report_that_waited_is_handed_over(
    notifications: Seq<Notification>,
    id: Seq<char>,
)
    ensures
        waiting(notifications).contains_key(id) <==> exists|i: int|
            0 <= i < notifications.len() && (#[trigger] notifications[i]).worktree_id@ == id,
        waiting(notifications).contains_key(id) ==> exists|i: int|
            0 <= i < notifications.len() && (#[trigger] notifications[i]).worktree_id@ == id
                && notifications[i] == waiting(notifications)[id],
    decreases notifications.len(),
{
    if notifications.len() > 0 {
        let init = notifications.drop_last();
        let last = notifications.last();
        every_report_that_waited_is_handed_over(init, id);
        assert(notifications[notifications.len() - 1] == last);
        assert forall|k: int| 0 <= k < init.len() implies init[k] == #[trigger] notifications[k] by {}
        if last.worktree_id@ != id {
            if waiting(init).contains_key(id) {
                let i = choose|i: int|
                    0 <= i < init.len() && (#[trigger] init[i]).worktree_id@ == id && init[i]
                        == waiting(init)[id];
                assert(notifications[i].worktree_id@ == id);
            }
            if exists|i: int|
                0 <= i < notifications.len() && (#[trigger] notifications[i]).worktree_id@ == id {
                let i = choose|i: int|
                    0 <= i < notifications.len() && (#[trigger] notifications[i]).worktree_id@ == id;
                assert(init[i] == notifications[i]);
            }
        }
    }
}

}
