//! How often the sessions are looked at, and what a look comes to.
//!
//! Times are nanoseconds of a clock that does not run back.
use vstd::prelude::*;
use vstd::string::*;

use crate::json;
use crate::model::{CpuSpan, SessionReport, SessionStatus, Usage, WindowInfo};
use crate::protocol::{subscription_params, EventKind, Request, Response};
use crate::service::queue::Command;
use crate::table::{as_map, entry_counts, keys_differ, Table};
use crate::ui::dialogs::ErrorReport;
use crate::ui::settings::StatusConfig;
use crate::workers::Message;

verus! {

/// How often the sessions are polled while the window is on screen.
pub const POLL_INTERVAL: u128 = 2_000_000_000;

/// How often the sessions are polled while nothing is on screen.
pub const DORMANT_INTERVAL: u128 = 30_000_000_000;

/// How long without a painted frame means that nothing is on screen.
pub const DORMANT_AFTER: u128 = 6_000_000_000;

/// How often the working trees are read again.
pub const GIT_INTERVAL: u128 = 10_000_000_000;

/// Whether the working trees are to be read again, given when they last were.
pub fn git_refresh_due(last: Option<u128>, now: u128) -> (r: bool)
    ensures
        r == (match last {
            None => true,
            Some(last) => now >= last && now - last >= GIT_INTERVAL,
        }),
{
    match last {
        None => true,
        Some(last) => now.saturating_sub(last) >= GIT_INTERVAL,
    }
}

/// How long to wait before the next poll, given how long ago the window painted.
pub fn interval(since_paint: u128) -> (r: u128)
    ensures
        r == (if since_paint > DORMANT_AFTER {
            DORMANT_INTERVAL
        } else {
            POLL_INTERVAL
        }),
{
    if since_paint > DORMANT_AFTER {
        DORMANT_INTERVAL
    } else {
        POLL_INTERVAL
    }
}

/// When the window last painted a frame: milliseconds after the clock was
/// started.
#[derive(Debug, PartialEq, Eq, Structural)]
pub struct PaintClock {
    pub last: u64,
}

/// How long after `earlier` the moment `now` is, in nanoseconds: nothing where it
/// is before it.
pub open spec fn gap(earlier: u64, now: u64) -> u128 {
    if now >= earlier {
        ((now - earlier) * 1_000_000) as u128
    } else {
        0
    }
}

fn gap_between(earlier: u64, now: u64) -> (r: u128)
    ensures
        r == gap(earlier, now),
{
    let millis: u64 = now.saturating_sub(earlier);
    millis as u128 * 1_000_000
}

impl PaintClock {
    /// A clock that was just started.
    pub fn new() -> (r: Self)
        ensures
            r.last == 0,
    {
        PaintClock { last: 0 }
    }

    /// The milliseconds in a time since the clock was started, as many as fit.
    pub fn millis(elapsed: u128) -> (r: u64)
        ensures
            r == (if elapsed / 1_000_000 <= u64::MAX {
                elapsed / 1_000_000
            } else {
                u64::MAX as u128
            }),
    {
        let millis: u128 = elapsed / 1_000_000;
        if millis <= u64::MAX as u128 {
            millis as u64
        } else {
            u64::MAX
        }
    }

    /// Takes a frame down, and says how long it had been since the last one.
    pub fn mark(&mut self, now: u64) -> (r: u128)
        ensures
            r == gap(old(self).last, now),
            final(self).last == now,
    {
        let previous: u64 = self.last;
        self.last = now;
        gap_between(previous, now)
    }

    /// How long ago the window last painted.
    pub fn since_paint(&self, now: u64) -> (r: u128)
        ensures
            r == gap(self.last, now),
    {
        gap_between(self.last, now)
    }

    /// A frame was painted: says whether nothing had been on screen until now,
    /// which is a reason to poll at once.
    pub fn painted(&mut self, now: u64) -> (r: bool)
        ensures
            r == (gap(old(self).last, now) > DORMANT_AFTER),
            final(self).last == now,
    {
        self.mark(now) > DORMANT_AFTER
    }
}

/// Whoever looks at a clock after a frame counts from that frame, until the next
/// one: a clock is not copied, so there is no other last frame to count from.
pub proof fn a_look_counts_from_the_last_frame(clock: PaintClock, n: u64, m: u64)
    requires
        clock.last == n,
        m >= n,
    ensures
        gap(clock.last, m) == (m - n) * 1_000_000,
{
}

/// How a worktree is named in a desktop notification.
#[derive(Debug, Clone, PartialEq, Eq)]
pub struct WorktreeLabel {
    pub project: String,
    pub worktree: String,
}

/// What the poller is asked to do between polls.
pub enum Control {
    /// Poll now rather than waiting out the interval.
    PollNow,
    /// The configuration changed.
    Reconfigure(StatusConfig),
    /// What the worktrees are called.
    Describe(Table<WorktreeLabel>),
}

/// What a poll found of one worktree's session.
#[derive(Debug, PartialEq, Eq)]
pub struct Observation {
    pub status: SessionStatus,
    pub usage: Option<Usage>,
    pub windows: Vec<WindowInfo>,
}

/// What the poller holds between polls.
pub struct Poller {
    pub labels: Table<WorktreeLabel>,
    pub notify_desktop: bool,
    /// The status last reported of each worktree.
    pub known: Table<SessionStatus>,
    /// The last reading of each worktree's use, and when it was taken.
    pub previous_usage: Table<(Usage, u128)>,
    /// When the working trees were last asked for.
    pub last_git_refresh: Option<u128>,
}

/// What a poll came to.
pub struct Tick {
    /// The worktrees whose sessions have just raised attention.
    pub raised: Vec<String>,
    /// The windows, by session name.
    pub windows: Table<Vec<WindowInfo>>,
    /// The reports, by worktree.
    pub reports: Table<SessionReport>,
    /// The working trees are to be read again.
    pub git_due: bool,
}

/// What the window is told of a poll, in order: the windows, the statuses, and
/// that the working trees are to be read again where they are.
pub open spec fn messages_of(tick: Tick) -> Seq<Message> {
    let polled = seq![Message::WindowsPolled(tick.windows), Message::StatusPolled(tick.reports)];
    if tick.git_due {
        polled.push(Message::GitStatusDue)
    } else {
        polled
    }
}

impl Tick {
    /// The worktrees to announce, and what the window is told, in order.
    pub fn messages(self) -> (r: (Vec<String>, Vec<Message>))
        ensures
            r.0 == self.raised,
            r.1@ == messages_of(self),
    {
        let mut messages: Vec<Message> = Vec::new();
        messages.push(Message::WindowsPolled(self.windows));
        messages.push(Message::StatusPolled(self.reports));
        if self.git_due {
            messages.push(Message::GitStatusDue);
        }
        assert(messages@ =~= messages_of(self));
        (self.raised, messages)
    }
}

/// The message says that a poll failed, and why.
pub open spec fn tells_failure(message: Message, detail: String) -> bool {
    message matches Message::Failed(report) && report.summary@
        == "could not poll tmux for session status"@ && report.detail == Some(detail)
}

/// What the window is told of a poll that failed.
pub fn poll_failed(detail: String) -> (r: Message)
    ensures
        tells_failure(r, detail),
{
    Message::Failed(
        ErrorReport {
            summary: "could not poll tmux for session status".to_owned(),
            detail: Some(detail),
        },
    )
}

/// A desktop notification for a session that asks for the user.
#[derive(Debug, PartialEq, Eq)]
pub struct Attention {
    pub project: String,
    pub worktree: String,
}

/// The two readings a rate is made of: it needs one from before.
pub open spec fn span(
    usage: Option<Usage>,
    previous: Map<Seq<char>, (Usage, u128)>,
    id: Seq<char>,
    now: u128,
) -> Option<CpuSpan> {
    match usage {
        Some(current) => if previous.contains_key(id) {
            Some(
                CpuSpan {
                    previous: previous[id].0,
                    current,
                    elapsed_nanos: if now >= previous[id].1 {
                        (now - previous[id].1) as u128
                    } else {
                        0
                    },
                },
            )
        } else {
            None
        },
        None => None,
    }
}

/// The report on one worktree.
pub open spec fn report_of(
    found: Observation,
    previous: Map<Seq<char>, (Usage, u128)>,
    id: Seq<char>,
    now: u128,
) -> SessionReport {
    SessionReport {
        status: found.status,
        usage: found.usage,
        cpu: span(found.usage, previous, id, now),
    }
}

/// The session has just raised attention: it asks for the user and did not the
/// last time.
pub open spec fn raises(
    found: Map<Seq<char>, Observation>,
    known: Map<Seq<char>, SessionStatus>,
    id: Seq<char>,
) -> bool {
    &&& found.contains_key(id)
    &&& found[id].status == SessionStatus::Attention
    &&& !(known.contains_key(id) && known[id] == SessionStatus::Attention)
}

/// The worktree is named in the list.
pub open spec fn named(ids: Seq<String>, id: Seq<char>) -> bool {
    exists|i: int| 0 <= i < ids.len() && (#[trigger] ids[i])@ == id
}

/// The windows by the name of their session, in order.
pub open spec fn grouped(windows: Seq<WindowInfo>) -> Map<Seq<char>, Seq<WindowInfo>>
    decreases windows.len(),
{
    if windows.len() == 0 {
        Map::empty()
    } else {
        let before = grouped(windows.drop_last());
        let last = windows.last();
        let earlier = if before.contains_key(last.session@) {
            before[last.session@]
        } else {
            Seq::empty()
        };
        before.insert(last.session@, earlier.push(last))
    }
}

/// The windows of all observations, one after the other.
pub open spec fn all_windows(entries: Seq<(String, Observation)>) -> Seq<WindowInfo>
    decreases entries.len(),
{
    if entries.len() == 0 {
        Seq::empty()
    } else {
        all_windows(entries.drop_last()) + entries.last().1.windows@
    }
}

pub open spec fn window_lists(table: Map<Seq<char>, Vec<WindowInfo>>) -> Map<
    Seq<char>,
    Seq<WindowInfo>,
> {
    table.map_values(|windows: Vec<WindowInfo>| windows@)
}

/// The windows by the name of their session.
pub fn group_windows(windows: Vec<WindowInfo>) -> (r: Table<Vec<WindowInfo>>)
    ensures
        window_lists(r@) == grouped(windows@),
{
    let ghost all = windows@;
    let mut groups: Table<Vec<WindowInfo>> = Table::new();
    assert(all.subrange(0, 0) =~= Seq::<WindowInfo>::empty());
    assert(window_lists(groups@) =~= Map::<Seq<char>, Seq<WindowInfo>>::empty());
    for window in it: windows
        invariant
            it.seq() == all,
            window_lists(groups@) == grouped(all.subrange(0, it.index() as int)),
    {
        let ghost n = it.index() as int;
        assert(all.subrange(0, n + 1).drop_last() =~= all.subrange(0, n));
        let ghost was = groups@;
        let session = window.session.clone();
        let mut group = match groups.remove(session.as_str()) {
            Some(group) => group,
            None => Vec::new(),
        };
        group.push(window);
        let ghost pushed = group@;
        groups.insert(session, group);
        assert(window_lists(groups@) =~= window_lists(was).insert(session@, pushed));
    }
    assert(all.subrange(0, all.len() as int) =~= all);
    groups
}

impl Poller {
    pub fn new(notify_desktop: bool) -> (r: Self)
        ensures
            r.labels@ == Map::<Seq<char>, WorktreeLabel>::empty(),
            r.notify_desktop == notify_desktop,
            r.known@ == Map::<Seq<char>, SessionStatus>::empty(),
            r.previous_usage@ == Map::<Seq<char>, (Usage, u128)>::empty(),
            r.last_git_refresh is None,
    {
        Poller {
            labels: Table::new(),
            notify_desktop,
            known: Table::new(),
            previous_usage: Table::new(),
            last_git_refresh: None,
        }
    }

    /// Nothing has been on screen for a while.
    pub fn dormant(since_paint: u128) -> (r: bool)
        ensures
            r == (since_paint > DORMANT_AFTER),
    {
        since_paint > DORMANT_AFTER
    }

    /// Takes in what the poller was asked between polls.
    pub fn apply(&mut self, control: Control)
        ensures
            *final(self) == (match control {
                Control::PollNow => *old(self),
                Control::Reconfigure(config) => Poller {
                    notify_desktop: config.desktop_notifications,
                    ..*old(self)
                },
                Control::Describe(labels) => Poller { labels, ..*old(self) },
            }),
    {
        match control {
            Control::PollNow => {},
            Control::Reconfigure(config) => {
                self.notify_desktop = config.desktop_notifications;
            },
            Control::Describe(labels) => {
                self.labels = labels;
            },
        }
    }

    /// The two readings a worktree's rate is made of; the present one is kept for
    /// the next poll.
    pub fn cpu_percent(&mut self, worktree_id: &str, usage: Option<Usage>, now: u128) -> (r: Option<
        CpuSpan,
    >)
        ensures
            r == span(usage, old(self).previous_usage@, worktree_id@, now),
            final(self).previous_usage@ == (match usage {
                Some(current) => old(self).previous_usage@.insert(worktree_id@, (current, now)),
                None => old(self).previous_usage@,
            }),
            final(self).labels == old(self).labels,
            final(self).notify_desktop == old(self).notify_desktop,
            final(self).known == old(self).known,
            final(self).last_git_refresh == old(self).last_git_refresh,
    {
        let current = match usage {
            Some(usage) => usage,
            None => {
                return None;
            },
        };
        let r = match self.previous_usage.get(worktree_id) {
            Some((previous, taken)) => Some(
                CpuSpan {
                    previous: *previous,
                    current,
                    elapsed_nanos: now.saturating_sub(*taken),
                },
            ),
            None => None,
        };
        self.previous_usage.insert(worktree_id.to_owned(), (current, now));
        r
    }

    /// What a poll that found this came to, and what the poller holds after it.
    pub open spec fn ticked(
        self,
        found: Map<Seq<char>, Observation>,
        now: u128,
        since_paint: u128,
        after: Poller,
        r: Tick,
    ) -> bool {
        &&& forall|id: Seq<char>| #[trigger]
            r.reports@.contains_key(id) <==> found.contains_key(id)
        &&& forall|id: Seq<char>| #[trigger]
            r.reports@.contains_key(id) ==> r.reports@[id] == report_of(
                found[id],
                self.previous_usage@,
                id,
                now,
            )
        &&& forall|id: Seq<char>| #[trigger]
            after.known@.contains_key(id) <==> found.contains_key(id)
        &&& forall|id: Seq<char>| #[trigger]
            after.known@.contains_key(id) ==> after.known@[id] == found[id].status
        &&& forall|id: Seq<char>| #[trigger]
            after.previous_usage@.contains_key(id) <==> (found.contains_key(id) && (
            found[id].usage is Some || self.previous_usage@.contains_key(id)))
        &&& forall|id: Seq<char>| #[trigger]
            after.previous_usage@.contains_key(id) ==> after.previous_usage@[id]
                == (match found[id].usage {
                Some(usage) => (usage, now),
                None => self.previous_usage@[id],
            })
        &&& forall|i: int|
            0 <= i < r.raised@.len() ==> raises(found, self.known@, (#[trigger] r.raised@[i])@)
        &&& forall|id: Seq<char>| #[trigger]
            raises(found, self.known@, id) ==> named(r.raised@, id)
        &&& forall|i: int, j: int|
            0 <= i < j < r.raised@.len() ==> (#[trigger] r.raised@[i])@ != (
            #[trigger] r.raised@[j])@
        &&& exists|entries: Seq<(String, Observation)>| #[trigger]
            keys_differ(entries) && as_map(entries) == found && window_lists(r.windows@)
                == grouped(all_windows(entries))
        &&& r.git_due == (since_paint <= DORMANT_AFTER && (match self.last_git_refresh {
            None => true,
            Some(last) => now >= last && now - last >= GIT_INTERVAL,
        }))
        &&& after.last_git_refresh == (if r.git_due {
            Some(now)
        } else {
            self.last_git_refresh
        })
        &&& after.labels == self.labels
        &&& after.notify_desktop == self.notify_desktop
    }

    /// Takes in what a poll found. A session that has just raised attention is
    /// named once, and what is held of sessions that are gone is dropped. The
    /// working trees are read again on their own cadence, and not while nothing
    /// is on screen.
    #[verifier::rlimit(60)]
    pub fn tick(&mut self, found: Table<Observation>, now: u128, since_paint: u128) -> (r: Tick)
        ensures
            old(self).ticked(found@, now, since_paint, *final(self), r),
    {
        let mut found = found;
        let ghost all = found@;
        let entries = found.drain();
        let ghost list = entries@;
        let mut reports: Table<SessionReport> = Table::new();
        let mut known: Table<SessionStatus> = Table::new();
        let mut raised: Vec<String> = Vec::new();
        let mut windows: Vec<WindowInfo> = Vec::new();
        let ghost previous = self.previous_usage@;
        let ghost before = self.known@;
        assert(list.subrange(0, 0) =~= Seq::<(String, Observation)>::empty());
        for entry in it: entries
            invariant
                it.seq() == list,
                keys_differ(list),
                as_map(list) == all,
                before == self.known@,
                self.known == old(self).known,
                self.labels == old(self).labels,
                self.notify_desktop == old(self).notify_desktop,
                self.last_git_refresh == old(self).last_git_refresh,
                forall|id: Seq<char>| #[trigger]
                    reports@.contains_key(id) <==> among(list, it.index() as int, id),
                forall|id: Seq<char>| #[trigger]
                    reports@.contains_key(id) ==> all.contains_key(id) && reports@[id] == report_of(
                        all[id],
                        previous,
                        id,
                        now,
                    ),
                forall|id: Seq<char>| #[trigger]
                    known@.contains_key(id) <==> among(list, it.index() as int, id),
                forall|id: Seq<char>| #[trigger]
                    known@.contains_key(id) ==> all.contains_key(id) && known@[id]
                        == all[id].status,
                forall|id: Seq<char>|
                    #![trigger self.previous_usage@.contains_key(id)]
                    self.previous_usage@.contains_key(id) <==> (previous.contains_key(id) || (among(
                        list,
                        it.index() as int,
                        id,
                    ) && all[id].usage is Some)),
                forall|id: Seq<char>| #[trigger]
                    self.previous_usage@.contains_key(id) ==> self.previous_usage@[id] == (if among(
                        list,
                        it.index() as int,
                        id,
                    ) && all[id].usage is Some {
                        (all[id].usage->0, now)
                    } else {
                        previous[id]
                    }),
                forall|i: int|
                    0 <= i < raised@.len() ==> raises(all, before, (#[trigger] raised@[i])@)
                        && among(list, it.index() as int, raised@[i]@),
                forall|id: Seq<char>| #[trigger]
                    among(list, it.index() as int, id) && raises(all, before, id) ==> named(
                        raised@,
                        id,
                    ),
                forall|i: int, j: int|
                    0 <= i < j < raised@.len() ==> (#[trigger] raised@[i])@ != (
                    #[trigger] raised@[j])@,
                windows@ == all_windows(list.subrange(0, it.index() as int)),
        {
            let ghost n = it.index() as int;
            let ghost key = list[n].0@;
            let ghost earlier = raised@;
            let ghost readings = self.previous_usage@;
            proof {
                entry_counts(list, n);
                assert(list.subrange(0, n + 1).drop_last() =~= list.subrange(0, n));
                lemma_among_step(list, n);
            }
            let (id, observation) = entry;
            let cpu = self.cpu_percent(id.as_str(), observation.usage, now);
            let was_raised = match self.known.get(id.as_str()) {
                Some(SessionStatus::Attention) => true,
                _ => false,
            };
            if observation.status == SessionStatus::Attention && !was_raised {
                raised.push(id.clone());
                assert(raised@[earlier.len() as int]@ == key);
            }
            proof {
                assert forall|other: Seq<char>| #[trigger]
                    among(list, n + 1, other) && raises(all, before, other) implies named(
                    raised@,
                    other,
                ) by {
                    if other == key {
                        assert(raised@[earlier.len() as int]@ == other);
                    } else {
                        assert(among(list, n, other));
                        assert(named(earlier, other));
                        let i = choose|i: int|
                            0 <= i < earlier.len() && (#[trigger] earlier[i])@ == other;
                        assert(raised@[i]@ == other);
                    }
                }
            }
            known.insert(id.clone(), observation.status);
            let report = SessionReport {
                status: observation.status,
                usage: observation.usage,
                cpu,
            };
            assert(readings.contains_key(key) == previous.contains_key(key));
            assert(report == report_of(all[key], previous, key, now));
            reports.insert(id, report);
            let mut own = observation.windows;
            windows.append(&mut own);
        }
        proof {
            assert(list.subrange(0, list.len() as int) =~= list);
            lemma_among_all(list);
            assert(all_windows(list) == windows@);
            assert forall|id: Seq<char>| #[trigger] raises(all, before, id) implies named(
                raised@,
                id,
            ) by {
                assert(among(list, list.len() as int, id));
            }
        }
        self.previous_usage.restrict_to(&known);
        self.known = known;
        let windows = group_windows(windows);
        assert(keys_differ(list));
        let git_due = !Poller::dormant(since_paint) && git_refresh_due(self.last_git_refresh, now);
        if git_due {
            self.last_git_refresh = Some(now);
        }
        Tick { raised, windows, reports, git_due }
    }

    /// Takes in a poll: the worktrees to announce, and what the window is told. A
    /// poll that failed is told once, and changes nothing.
    pub fn poll(
        &mut self,
        polled: Result<Table<Observation>, String>,
        now: u128,
        since_paint: u128,
    ) -> (r: (Vec<String>, Vec<Message>))
        ensures
            match polled {
                Err(detail) => {
                    &&& *final(self) == *old(self)
                    &&& r.0@.len() == 0
                    &&& r.1@.len() == 1
                    &&& tells_failure(r.1@[0], detail)
                },
                Ok(found) => exists|tick: Tick| #[trigger]
                    old(self).ticked(found@, now, since_paint, *final(self), tick) && r.0
                        == tick.raised && r.1@ == messages_of(tick),
            },
    {
        match polled {
            Err(detail) => {
                let mut messages: Vec<Message> = Vec::new();
                messages.push(poll_failed(detail));
                (Vec::new(), messages)
            },
            Ok(found) => {
                let tick = self.tick(found, now, since_paint);
                let ghost held = tick;
                let (raised, messages) = tick.messages();
                assert(old(self).ticked(found@, now, since_paint, *self, held));
                (raised, messages)
            },
        }
    }

    /// The desktop notification for a session that has just raised attention:
    /// none where they are off, and none for a worktree without a name.
    pub fn announce(&self, worktree_id: &str) -> (r: Option<Attention>)
        ensures
            r is Some <==> self.notify_desktop && self.labels@.contains_key(worktree_id@),
            r matches Some(a) ==> a.project@ == self.labels@[worktree_id@].project@
                && a.worktree@ == self.labels@[worktree_id@].worktree@,
    {
        if !self.notify_desktop {
            return None;
        }
        match self.labels.get(worktree_id) {
            Some(label) => Some(
                Attention { project: label.project.clone(), worktree: label.worktree.clone() },
            ),
            None => None,
        }
    }
}

/// The id is that of one of the first `n` entries.
spec fn among(list: Seq<(String, Observation)>, n: int, id: Seq<char>) -> bool {
    exists|i: int| 0 <= i < n && i < list.len() && (#[trigger] list[i]).0@ == id
}

proof fn lemma_among_step(list: Seq<(String, Observation)>, n: int)
    requires
        0 <= n < list.len(),
        keys_differ(list),
    ensures
        forall|id: Seq<char>| #[trigger]
            among(list, n + 1, id) <==> (among(list, n, id) || id == list[n].0@),
        !among(list, n, list[n].0@),
{
    assert forall|id: Seq<char>| #[trigger] among(list, n + 1, id) <==> (among(list, n, id) || id
        == list[n].0@) by {
        if id == list[n].0@ {
            assert(list[n].0@ == id);
        }
    }
}

proof fn lemma_among_all(list: Seq<(String, Observation)>)
    requires
        keys_differ(list),
    ensures
        forall|id: Seq<char>| #[trigger]
            among(list, list.len() as int, id) <==> as_map(list).contains_key(id),
    decreases list.len(),
{
    assert forall|id: Seq<char>| #[trigger] among(list, list.len() as int, id) <==> as_map(
        list,
    ).contains_key(id) by {
        if among(list, list.len() as int, id) {
            let i = choose|i: int| 0 <= i < list.len() && (#[trigger] list[i]).0@ == id;
            entry_counts(list, i);
        }
        if as_map(list).contains_key(id) {
            let i = crate::table::key_place(list, id);
            assert(list[i].0@ == id);
        }
    }
}

/// The answer to a request for events is this revision, and nothing else.
pub open spec fn acknowledges(response: Response, revision: u64) -> bool {
    match response.result {
        Some(value) => json::is_record_of(value, "revision"@, revision),
        None => false,
    }
}

/// The revision a subscription's events come after, where the answer is exactly
/// that.
pub fn subscription_revision(response: &Response) -> (r: Option<u64>)
    ensures
        forall|revision: u64|
            r == Some(revision) <==> #[trigger] acknowledges(*response, revision),
{
    match &response.result {
        Some(value) => json::only_number(value, "revision"),
        None => None,
    }
}

/// The request that polls the sessions.
pub fn poll_request(protocol: u32) -> (r: Request)
    ensures
        r.asks(protocol, "gui-status-poll"@, "status.poll"@, r.params),
        json::is_null_value(r.params),
{
    Request::new(protocol, "gui-status-poll", "status.poll", json::null())
}

/// The request for every event there is, on behalf of the window.
pub fn subscription_request(protocol: u32) -> (r: Request)
    ensures
        r.asks(
            protocol,
            "gui-events"@,
            "event.subscribe"@,
            json::object_value(
                subscription_params(
                    seq![
                        EventKind::StateChanged,
                        EventKind::ReconciliationCompleted,
                        EventKind::NotificationReceived,
                        EventKind::ControlCompleted,
                    ],
                    Some("gui"@),
                ),
            ),
        ),
{
    let kinds = vec![
        EventKind::StateChanged,
        EventKind::ReconciliationCompleted,
        EventKind::NotificationReceived,
        EventKind::ControlCompleted,
    ];
    assert(kinds@ =~= seq![
        EventKind::StateChanged,
        EventKind::ReconciliationCompleted,
        EventKind::NotificationReceived,
        EventKind::ControlCompleted,
    ]);
    Request::subscription(protocol, "gui-events", &kinds, Some("gui"))
}

/// The answer of the service to a poll: what it found, or why it found nothing.
pub fn poll_result(response: Response) -> (r: Result<serde_json::Value, String>)
    ensures
        match response.error {
            Some(error) => r matches Err(message) && message@ == error.code@ + ": "@
                + error.message@,
            None => match response.result {
                Some(value) => r == Ok::<serde_json::Value, String>(value),
                None => r matches Err(message) && message@
                    == "service status response has no result"@,
            },
        },
{
    match response.error {
        Some(error) => {
            let mut message = error.code;
            message.append(": ");
            message.append(error.message.as_str());
            Err(message)
        },
        None => match response.result {
            Some(value) => Ok(value),
            None => Err("service status response has no result".to_owned()),
        },
    }
}

/// What came of asking for the service's events.
#[derive(Debug, PartialEq, Eq)]
pub enum Subscribed {
    /// The events come after this revision.
    Started(u64),
    /// The service refused: what it said.
    Rejected(String),
    /// The answer is no acknowledgement.
    Invalid,
}

/// What an answer to a request for events comes to.
pub fn subscribe(response: &Response) -> (r: Subscribed)
    ensures
        if !response.ok {
            r matches Subscribed::Rejected(text) && text@ == (match response.error {
                Some(error) => error.code@ + ": "@ + error.message@,
                None => "invalid subscription response"@,
            })
        } else {
            &&& !(r is Rejected)
            &&& forall|revision: u64|
                r == Subscribed::Started(revision) <==> #[trigger] acknowledges(
                    *response,
                    revision,
                )
        },
{
    if !response.ok {
        return Subscribed::Rejected(
            match &response.error {
                Some(error) => {
                    let mut text = error.code.clone();
                    text.append(": ");
                    text.append(error.message.as_str());
                    text
                },
                None => "invalid subscription response".to_owned(),
            },
        );
    }
    match subscription_revision(response) {
        Some(revision) => Subscribed::Started(revision),
        None => Subscribed::Invalid,
    }
}

/// How the stream of the service's events came to an end.
#[derive(Debug, Clone, Copy, PartialEq, Eq, Structural)]
pub enum StreamEnd {
    /// The service could not be reached.
    Unreachable,
    /// The service refused, or its answer is no acknowledgement.
    Refused,
    /// A stream that was open broke off.
    Broken,
}

/// How long to wait before the stream is asked for again, in nanoseconds: a
/// second, and less after one that was open.
pub fn resubscribe_after(end: StreamEnd) -> (r: u128)
    ensures
        r == (if end == StreamEnd::Broken {
            250_000_000u128
        } else {
            1_000_000_000u128
        }),
{
    match end {
        StreamEnd::Broken => 250_000_000,
        _ => 1_000_000_000,
    }
}

/// How often the window tells the service that it is up.
pub const ANNOUNCEMENTS: u32 = 20;

/// How long the window waits before it tells the service again, in nanoseconds.
pub const ANNOUNCEMENT_PAUSE: u128 = 50_000_000;

/// What came of telling the service that the window is up.
#[derive(Debug, Clone, Copy, PartialEq, Eq, Structural)]
pub enum Announced {
    Delivered,
    /// Nobody was listening.
    Missed,
    Failed,
}

/// What follows the `tried`-th time the service was told that the window is up:
/// how long to wait, and whether to tell it again. Only a service that was not
/// listening yet is told again.
pub fn announce_again(tried: u32, announced: Announced) -> (r: (u128, bool))
    ensures
        r == (if announced == Announced::Missed {
            (ANNOUNCEMENT_PAUSE, tried < ANNOUNCEMENTS)
        } else {
            (0u128, false)
        }),
{
    match announced {
        Announced::Missed => (ANNOUNCEMENT_PAUSE, tried < ANNOUNCEMENTS),
        _ => (0, false),
    }
}

/// The message a command on the window's own socket comes to. What is meant for
/// the service means nothing there.
pub fn listen(command: Command) -> (r: Option<Message>)
    ensures
        r == (match command {
            Command::Toggle { slot } => Some(Message::Toggled { slot }),
            Command::Notify(notification) => Some(Message::Notified(notification)),
            Command::Ping | Command::GuiReady => None,
        }),
{
    match command {
        Command::Toggle { slot } => Some(Message::Toggled { slot }),
        Command::Notify(notification) => Some(Message::Notified(notification)),
        Command::Ping | Command::GuiReady => None,
    }
}

/// A session that goes on asking for the user is announced once: the poll after
/// the one that saw it ask does not raise it again.
pub proof fn attention_is_announced_once(
    found: Map<Seq<char>, Observation>,
    known: Map<Seq<char>, SessionStatus>,
    next: Map<Seq<char>, Observation>,
    id: Seq<char>,
)
    requires
        forall|k: Seq<char>| #[trigger] known.contains_key(k) <==> found.contains_key(k),
        forall|k: Seq<char>| #[trigger] known.contains_key(k) ==> known[k] == found[k].status,
        found.contains_key(id),
        found[id].status == SessionStatus::Attention,
    ensures
        !raises(next, known, id),
{
    assert(known.contains_key(id));
}

/// A poll announces exactly the sessions that ask for the user now and, as far as
/// the poller knew, did not before, whatever else they did: each of them once.
pub proof fn a_session_that_begins_to_ask_is_announced(
    poller: Poller,
    found: Map<Seq<char>, Observation>,
    now: u128,
    since_paint: u128,
    after: Poller,
    tick: Tick,
    id: Seq<char>,
)
    requires
        poller.ticked(found, now, since_paint, after, tick),
    ensures
        found.contains_key(id) && found[id].status == SessionStatus::Attention && (
        !poller.known@.contains_key(id) || poller.known@[id] != SessionStatus::Attention)
            ==> exists|i: int| 0 <= i < tick.raised@.len() && (#[trigger] tick.raised@[i])@ == id,
        forall|i: int|
            0 <= i < tick.raised@.len() && (#[trigger] tick.raised@[i])@ == id
                ==> found.contains_key(id) && found[id].status == SessionStatus::Attention && (
            !poller.known@.contains_key(id) || poller.known@[id] != SessionStatus::Attention),
        forall|i: int, j: int|
            0 <= i < tick.raised@.len() && 0 <= j < tick.raised@.len() && (
            #[trigger] tick.raised@[i])@ == id && (#[trigger] tick.raised@[j])@ == id ==> i == j,
{
    if found.contains_key(id) && found[id].status == SessionStatus::Attention && (
    !poller.known@.contains_key(id) || poller.known@[id] != SessionStatus::Attention) {
        assert(raises(found, poller.known@, id));
        assert(named(tick.raised@, id));
    }
}

/// Of two polls, the second announces a session that asks for the user exactly
/// where the first did not find it asking: working, done, idle or not there.
pub proof fn the_second_poll_announces_what_changed(
    poller: Poller,
    first: Map<Seq<char>, Observation>,
    then: u128,
    then_since: u128,
    between: Poller,
    earlier: Tick,
    second: Map<Seq<char>, Observation>,
    now: u128,
    now_since: u128,
    after: Poller,
    later: Tick,
    id: Seq<char>,
)
    requires
        poller.ticked(first, then, then_since, between, earlier),
        between.ticked(second, now, now_since, after, later),
        second.contains_key(id),
        second[id].status == SessionStatus::Attention,
    ensures
        (exists|i: int| 0 <= i < later.raised@.len() && (#[trigger] later.raised@[i])@ == id) <==> (
        !first.contains_key(id) || first[id].status != SessionStatus::Attention),
{
    a_session_that_begins_to_ask_is_announced(
        between,
        second,
        now,
        now_since,
        after,
        later,
        id,
    );
    assert(between.known@.contains_key(id) <==> first.contains_key(id));
}

/// A poll reports every session it found and no other: the status and the use it
/// was found with, and beside them the last reading and the time since, where
/// there is one of each.
pub proof fn a_poll_reports_what_it_found(
    poller: Poller,
    found: Map<Seq<char>, Observation>,
    now: u128,
    since_paint: u128,
    after: Poller,
    tick: Tick,
    id: Seq<char>,
)
    requires
        poller.ticked(found, now, since_paint, after, tick),
    ensures
        tick.reports@.contains_key(id) <==> found.contains_key(id),
        found.contains_key(id) ==> {
            let report = tick.reports@[id];
            &&& report.status == found[id].status
            &&& report.usage == found[id].usage
            &&& report.cpu is Some <==> found[id].usage is Some
                && poller.previous_usage@.contains_key(id)
            &&& report.cpu matches Some(span) ==> {
                &&& span.current == found[id].usage->0
                &&& span.previous == poller.previous_usage@[id].0
                &&& now >= poller.previous_usage@[id].1 ==> span.elapsed_nanos == now
                    - poller.previous_usage@[id].1
                &&& now < poller.previous_usage@[id].1 ==> span.elapsed_nanos == 0
            }
        },
{
    assert(tick.reports@.contains_key(id) <==> found.contains_key(id));
}

/// A rate is made of the readings of two polls and the time between them: there is
/// none at the first reading, and the second poll's is from the first poll's.
pub proof fn a_rate_spans_two_polls(
    poller: Poller,
    first: Map<Seq<char>, Observation>,
    then: u128,
    then_since: u128,
    between: Poller,
    earlier: Tick,
    second: Map<Seq<char>, Observation>,
    now: u128,
    now_since: u128,
    after: Poller,
    later: Tick,
    id: Seq<char>,
)
    requires
        poller.ticked(first, then, then_since, between, earlier),
        between.ticked(second, now, now_since, after, later),
        second.contains_key(id),
        now >= then,
    ensures
        !first.contains_key(id) ==> later.reports@[id].cpu is None,
        first.contains_key(id) && first[id].usage is Some && second[id].usage is Some
            ==> later.reports@[id].cpu == Some(
            CpuSpan {
                previous: first[id].usage->0,
                current: second[id].usage->0,
                elapsed_nanos: (now - then) as u128,
            },
        ),
{
    a_poll_reports_what_it_found(between, second, now, now_since, after, later, id);
    assert(between.previous_usage@.contains_key(id) <==> (first.contains_key(id) && (
    first[id].usage is Some || poller.previous_usage@.contains_key(id))));
}

/// The working trees are asked for at the first poll, and then ten seconds after
/// the last time at the earliest; never while nothing was painted for more than
/// six seconds.
pub proof fn working_trees_are_read_on_their_own_cadence(
    poller: Poller,
    found: Map<Seq<char>, Observation>,
    now: u128,
    since_paint: u128,
    after: Poller,
    tick: Tick,
)
    requires
        poller.ticked(found, now, since_paint, after, tick),
    ensures
        since_paint > 6_000_000_000 ==> !tick.git_due,
        since_paint <= 6_000_000_000 && poller.last_git_refresh is None ==> tick.git_due,
        poller.last_git_refresh matches Some(last) ==> (tick.git_due <==> since_paint
            <= 6_000_000_000 && now >= last + 10_000_000_000),
        tick.git_due ==> after.last_git_refresh == Some(now),
        !tick.git_due ==> after.last_git_refresh == poller.last_git_refresh,
{
}

/// The windows of a session are those that say they are of it, all of them, in the
/// order in which they came; a session without a window has no list.
pub proof fn windows_are_grouped_by_their_session(windows: Seq<WindowInfo>, session: Seq<char>)
    ensures
        grouped(windows).contains_key(session) <==> exists|i: int|
            0 <= i < windows.len() && (#[trigger] windows[i]).session@ == session,
        grouped(windows).contains_key(session) ==> grouped(windows)[session] == windows.filter(
            |w: WindowInfo| w.session@ == session,
        ),
        !grouped(windows).contains_key(session) ==> windows.filter(
            |w: WindowInfo| w.session@ == session,
        ).len() == 0,
    decreases windows.len(),
{
    reveal(Seq::filter);
    let own = |w: WindowInfo| w.session@ == session;
    if windows.len() > 0 {
        let init = windows.drop_last();
        let last = windows.last();
        windows_are_grouped_by_their_session(init, session);
        assert(windows[windows.len() - 1] == last);
        assert forall|i: int| 0 <= i < init.len() implies init[i] == #[trigger] windows[i] by {}
        if exists|i: int| 0 <= i < init.len() && (#[trigger] init[i]).session@ == session {
            let i = choose|i: int| 0 <= i < init.len() && (#[trigger] init[i]).session@ == session;
            assert(windows[i].session@ == session);
        }
        if !grouped(init).contains_key(session) {
            assert(init.filter(own) =~= Seq::<WindowInfo>::empty());
        }
        if last.session@ == session {
            assert(windows.filter(own) =~= init.filter(own).push(last));
        } else {
            assert(windows.filter(own) =~= init.filter(own));
        }
    }
}

/// No window is lost: each that some session was found with is told under the name
/// of the session it says it is of.
pub proof fn every_window_found_is_told(
    poller: Poller,
    found: Map<Seq<char>, Observation>,
    now: u128,
    since_paint: u128,
    after: Poller,
    tick: Tick,
    id: Seq<char>,
    k: int,
)
    requires
        poller.ticked(found, now, since_paint, after, tick),
        found.contains_key(id),
        0 <= k < found[id].windows@.len(),
    ensures
        tick.windows@.contains_key(found[id].windows@[k].session@),
        tick.windows@[found[id].windows@[k].session@]@.contains(found[id].windows@[k]),
{
    let entries = choose|entries: Seq<(String, Observation)>| #[trigger]
        keys_differ(entries) && as_map(entries) == found && window_lists(tick.windows@) == grouped(
            all_windows(entries),
        );
    let window = found[id].windows@[k];
    let session = window.session@;
    let at = crate::table::key_place(entries, id);
    entry_counts(entries, at);
    assert(entries[at].1 == found[id]);
    lemma_listed(entries, at, k);
    let all = all_windows(entries);
    let p = choose|p: int| 0 <= p < all.len() && all[p] == window;
    windows_are_grouped_by_their_session(all, session);
    assert(all[p].session@ == session);
    let own = |w: WindowInfo| w.session@ == session;
    all.filter_lemma(own);
    assert(all.contains(window));
    lemma_filter_has(all, own, window);
    assert(window_lists(tick.windows@).contains_key(session));
    assert(window_lists(tick.windows@)[session] == tick.windows@[session]@);
}

proof fn lemma_listed(entries: Seq<(String, Observation)>, at: int, k: int)
    requires
        0 <= at < entries.len(),
        0 <= k < entries[at].1.windows@.len(),
    ensures
        all_windows(entries).contains(entries[at].1.windows@[k]),
    decreases entries.len(),
{
    let init = entries.drop_last();
    let window = entries[at].1.windows@[k];
    if at < init.len() {
        lemma_listed(init, at, k);
        let p = choose|p: int| 0 <= p < all_windows(init).len() && all_windows(init)[p] == window;
        assert(all_windows(entries)[p] == window);
    } else {
        assert(all_windows(entries)[all_windows(init).len() + k] == window);
    }
}

proof fn lemma_filter_has<T>(s: Seq<T>, keep: spec_fn(T) -> bool, x: T)
    requires
        s.contains(x),
        keep(x),
    ensures
        s.filter(keep).contains(x),
    decreases s.len(),
{
    reveal(Seq::filter);
    let init = s.drop_last();
    if s.last() == x {
        assert(s.filter(keep)[init.filter(keep).len() as int] == x);
    } else {
        let k = choose|k: int| 0 <= k < s.len() && s[k] == x;
        assert(init[k] == x);
        lemma_filter_has(init, keep, x);
        let p = choose|p: int| 0 <= p < init.filter(keep).len() && init.filter(keep)[p] == x;
        assert(s.filter(keep)[p] == x);
    }
}

}
