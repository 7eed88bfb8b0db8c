//! What waits for the window while it is not there.
use vstd::prelude::*;
use vstd::string::*;

use crate::notices::Notification;
use crate::service::events::PublishOutcome;
use crate::state::AgentRecord;
use crate::table::{as_map, entry_counts, Table};

verus! {

/// How many clients are served at once.
pub const MAX_CLIENTS: usize = 32;

/// How long the window is given to come up before it is started again, in
/// nanoseconds.
pub const GUI_LAUNCH_GRACE: u128 = 5_000_000_000;

/// One more client is taken: how many there are then, or none where there is no
/// room.
pub fn take_client(active: usize) -> (r: Option<usize>)
    ensures
        r == (if active < MAX_CLIENTS {
            Some((active + 1) as usize)
        } else {
            None
        }),
{
    if active < MAX_CLIENTS {
        Some(active + 1)
    } else {
        None
    }
}

/// The message is one of the older protocol: it starts with the letter of its
/// tag.
pub fn is_legacy(first: u8) -> (r: bool)
    ensures
        r == (first == 103),
{
    first == 103
}

/// A command of the older protocol.
#[derive(Debug, PartialEq, Eq)]
pub enum Command {
    Ping,
    /// The window is up and listens.
    GuiReady,
    Notify(Notification),
    /// Show or hide the window, or open the worktree with the number.
    Toggle { slot: Option<u8> },
}

/// The reports and the number that wait for the window.
pub struct Service {
    /// The latest report of each worktree.
    pub pending_notifications: Table<Notification>,
    pub pending_slot: Option<u8>,
    /// When the window was last started, in nanoseconds of a clock that does not
    /// run back.
    pub gui_launching_since: Option<u128>,
}

/// What the service does next with a command.
#[derive(Debug, PartialEq, Eq)]
pub enum Step {
    Nothing,
    /// Send these to the window, and say what came of it.
    Flush { notifications: Vec<Notification>, slot: Option<u8> },
    /// Record the agent, publish the report, and say what came of it.
    Publish(Notification),
    /// Send the number to the window, and say what came of it.
    Forward { slot: Option<u8> },
}

/// The reports that wait, in some order, each worktree's once.
pub open spec fn waiting(notifications: Seq<Notification>) -> Map<Seq<char>, Notification>
    decreases notifications.len(),
{
    if notifications.len() == 0 {
        Map::empty()
    } else {
        waiting(notifications.drop_last()).insert(
            notifications.last().worktree_id@,
            notifications.last(),
        )
    }
}

/// What still waits after the reports were sent: those that did not arrive.
pub open spec fn kept_back(sent: Seq<(Notification, bool)>) -> Map<Seq<char>, Notification>
    decreases sent.len(),
{
    if sent.len() == 0 {
        Map::empty()
    } else {
        let before = kept_back(sent.drop_last());
        let (notification, arrived) = sent.last();
        if arrived {
            before
        } else {
            before.insert(notification.worktree_id@, notification)
        }
    }
}

/// A report says which conversation the agent is in.
pub open spec fn has_agent_record(notification: Notification) -> bool {
    notification.agent_session is Some || notification.transcript is Some
}

/// What is to be remembered of the agent, where the report says anything of it.
pub fn agent_record(notification: &Notification) -> (r: Option<AgentRecord>)
    ensures
        r is Some <==> has_agent_record(*notification),
        r matches Some(record) ==> {
            &&& record.worktree_id@ == notification.worktree_id@
            &&& record.session_id@ == (match notification.agent_session {
                Some(session) => session@,
                None => Seq::empty(),
            })
            &&& record.transcript_path@ == (match notification.transcript {
                Some(path) => path@,
                None => Seq::empty(),
            })
        },
{
    if notification.agent_session.is_none() && notification.transcript.is_none() {
        return None;
    }
    let session_id = match &notification.agent_session {
        Some(session) => session.clone(),
        None => String::new(),
    };
    let transcript_path = match &notification.transcript {
        Some(path) => path.clone(),
        None => String::new(),
    };
    Some(
        AgentRecord { worktree_id: notification.worktree_id.clone(), session_id, transcript_path },
    )
}

impl Service {
    /// Every report waits under the worktree it is about.
    pub open spec fn filed(self) -> bool {
        forall|id: Seq<char>| #[trigger]
            self.pending_notifications@.contains_key(id)
                ==> self.pending_notifications@[id].worktree_id@ == id
    }

    pub fn new() -> (r: Self)
        ensures
            r.pending_notifications@ == Map::<Seq<char>, Notification>::empty(),
            r.pending_slot is None,
            r.gui_launching_since is None,
            r.filed(),
    {
        Service {
            pending_notifications: Table::new(),
            pending_slot: None,
            gui_launching_since: None,
        }
    }

    /// Takes a command in, and says what is to be done next.
    pub fn handle(&mut self, command: Command) -> (r: Step)
        requires
            old(self).filed(),
        ensures
            final(self).filed(),
            match command {
                Command::Ping => r == Step::Nothing && *final(self) == *old(self),
                Command::GuiReady => {
                    &&& r matches Step::Flush { notifications, slot } && waiting(notifications@)
                        == old(self).pending_notifications@ && slot == old(self).pending_slot
                    &&& final(self).pending_notifications@ == Map::<Seq<char>, Notification>::empty()
                    &&& final(self).pending_slot == old(self).pending_slot
                    &&& final(self).gui_launching_since is None
                },
                Command::Notify(notification) => {
                    r == Step::Publish(notification) && *final(self) == *old(self)
                },
                Command::Toggle { slot } => {
                    r == (Step::Forward { slot }) && *final(self) == *old(self)
                },
            },
    {
        match command {
            Command::Ping => Step::Nothing,
            Command::GuiReady => {
                self.gui_launching_since = None;
                let entries = self.pending_notifications.drain();
                let ghost all = entries@;
                proof {
                    assert forall|i: int| 0 <= i < all.len() implies (#[trigger] all[i]).1.worktree_id@
                        == all[i].0@ by {
                        entry_counts(all, i);
                        assert(old(self).pending_notifications@.contains_key(all[i].0@));
                    }
                }
                let mut notifications: Vec<Notification> = Vec::new();
                assert(all.subrange(0, 0) =~= Seq::<(String, Notification)>::empty());
                for entry in it: entries
                    invariant
                        it.seq() == all,
                        forall|i: int| 0 <= i < all.len() ==> (#[trigger] all[i]).1.worktree_id@
                            == all[i].0@,
                        waiting(notifications@) == as_map(all.subrange(0, it.index() as int)),
                {
                    let ghost n = it.index() as int;
                    assert(all.subrange(0, n + 1).drop_last() =~= all.subrange(0, n));
                    assert(all[n].1.worktree_id@ == all[n].0@);
                    let ghost was = notifications@;
                    notifications.push(entry.1);
                    assert(notifications@.drop_last() =~= was);
                }
                assert(all.subrange(0, all.len() as int) =~= all);
                Step::Flush { notifications, slot: self.pending_slot }
            },
            Command::Notify(notification) => Step::Publish(notification),
            Command::Toggle { slot } => Step::Forward { slot },
        }
    }

    /// What came of sending the waiting reports and the number: what did not
    /// arrive waits on.
    pub fn flushed(&mut self, sent: Vec<(Notification, bool)>, slot_arrived: bool)
        requires
            old(self).pending_notifications@ == Map::<Seq<char>, Notification>::empty(),
        ensures
            final(self).pending_notifications@ == kept_back(sent@),
            final(self).pending_slot == (if slot_arrived {
                None
            } else {
                old(self).pending_slot
            }),
            final(self).gui_launching_since == old(self).gui_launching_since,
            final(self).filed(),
    {
        let ghost all = sent@;
        assert(all.subrange(0, 0) =~= Seq::<(Notification, bool)>::empty());
        for entry in it: sent
            invariant
                it.seq() == all,
                self.pending_notifications@ == kept_back(all.subrange(0, it.index() as int)),
                self.pending_slot == old(self).pending_slot,
                self.gui_launching_since == old(self).gui_launching_since,
                self.filed(),
        {
            let ghost n = it.index() as int;
            assert(all.subrange(0, n + 1).drop_last() =~= all.subrange(0, n));
            if !entry.1 {
                self.pending_notifications.insert(entry.0.worktree_id.clone(), entry.0);
            }
        }
        assert(all.subrange(0, all.len() as int) =~= all);
        if slot_arrived {
            self.pending_slot = None;
        }
    }

    /// Whether a report that was published is sent to the window as well: only
    /// where no subscriber stands in for it.
    pub fn forward_wanted(outcome: PublishOutcome) -> (r: bool)
        ensures
            r == !outcome.delivered_to_gui,
    {
        !outcome.delivered_to_gui
    }

    /// A report did not reach the window: it waits, in the place of an earlier
    /// one of the same worktree.
    pub fn keep(&mut self, notification: Notification)
        ensures
            final(self).pending_notifications@ == old(self).pending_notifications@.insert(
                notification.worktree_id@,
                notification,
            ),
            final(self).pending_slot == old(self).pending_slot,
            final(self).gui_launching_since == old(self).gui_launching_since,
            old(self).filed() ==> final(self).filed(),
    {
        self.pending_notifications.insert(notification.worktree_id.clone(), notification);
    }

    /// A number did not reach the window: it waits, and the window is to be
    /// started, unless it was started a moment ago.
    pub fn toggle_missed(&mut self, slot: Option<u8>, now: u128) -> (r: bool)
        ensures
            r == !(old(self).gui_launching_since matches Some(since) && now - since
                < GUI_LAUNCH_GRACE),
            final(self).pending_slot == slot,
            final(self).pending_notifications == old(self).pending_notifications,
            final(self).gui_launching_since == old(self).gui_launching_since,
    {
        self.pending_slot = slot;
        match self.gui_launching_since {
            Some(since) => now >= since && now - since >= GUI_LAUNCH_GRACE,
            None => true,
        }
    }

    /// The window was started.
    pub fn launched(&mut self, now: u128)
        ensures
            *final(self) == (Service { gui_launching_since: Some(now), ..*old(self) }),
    {
        self.gui_launching_since = Some(now);
    }
}

/// Of two reports of one worktree that did not arrive, the later one waits.
pub proof fn the_latest_report_wins(
    pending: Map<Seq<char>, Notification>,
    earlier: Notification,
    later: Notification,
)
    requires
        earlier.worktree_id@ == later.worktree_id@,
    ensures
        pending.insert(earlier.worktree_id@, earlier).insert(later.worktree_id@, later)
            == pending.insert(later.worktree_id@, later),
{
    assert(pending.insert(earlier.worktree_id@, earlier).insert(later.worktree_id@, later)
        =~= pending.insert(later.worktree_id@, later));
}

}
