//! What agents have said of themselves, per worktree and per window.
use vstd::prelude::*;

use crate::model::{copy_text, AttentionReason, SessionStatus, WindowInfo, WindowNote};
use crate::table::Table;

verus! {

/// One report of an agent.
#[derive(Debug, PartialEq, Eq)]
pub struct Notification {
    pub worktree_id: String,
    pub state: SessionStatus,
    pub reason: Option<AttentionReason>,
    pub message: Option<String>,
    pub window: Option<u32>,
    pub agent_session: Option<String>,
    pub transcript: Option<String>,
}

impl Clone for Notification {
    fn clone(&self) -> (r: Self)
        ensures
            r == *self,
    {
        Notification {
            worktree_id: self.worktree_id.clone(),
            state: self.state,
            reason: self.reason,
            message: copy_text(&self.message),
            window: self.window,
            agent_session: copy_text(&self.agent_session),
            transcript: copy_text(&self.transcript),
        }
    }
}

impl Notification {
    /// A report of a status and nothing else.
    pub fn new(worktree_id: &str, state: SessionStatus) -> (r: Self)
        ensures
            r.worktree_id@ == worktree_id@,
            r.state == state,
            r.reason is None,
            r.message is None,
            r.window is None,
            r.agent_session is None,
            r.transcript is None,
    {
        Notification {
            worktree_id: worktree_id.to_owned(),
            state,
            reason: None,
            message: None,
            window: None,
            agent_session: None,
            transcript: None,
        }
    }
}

/// What was last said of a worktree.
#[derive(Debug, PartialEq, Eq)]
pub struct Notice {
    pub state: SessionStatus,
    pub reason: Option<AttentionReason>,
    pub message: Option<String>,
}

/// What was last said, per worktree and per window.
pub struct Notices {
    pub worktrees: Table<Notice>,
    pub windows: Vec<(String, WindowNote)>,
}

/// The list has a window of this index.
pub open spec fn lists_window(windows: Seq<WindowInfo>, index: u32) -> bool {
    exists|i: int| 0 <= i < windows.len() && (#[trigger] windows[i]).index == index
}

/// The notes on the windows of one worktree that are still listed, in the order
/// in which they were made.
pub open spec fn notes_for(
    notes: Seq<(String, WindowNote)>,
    worktree_id: Seq<char>,
    windows: Seq<WindowInfo>,
) -> Seq<WindowNote>
    decreases notes.len(),
{
    if notes.len() == 0 {
        Seq::empty()
    } else {
        let before = notes_for(notes.drop_last(), worktree_id, windows);
        let (id, note) = notes.last();
        if id@ == worktree_id && lists_window(windows, note.index) {
            before.push(note)
        } else {
            before
        }
    }
}

/// The notes without those on one window of the worktree, or without all of
/// them.
pub open spec fn notes_without(
    notes: Seq<(String, WindowNote)>,
    worktree_id: Seq<char>,
    window: Option<u32>,
) -> Seq<(String, WindowNote)>
    decreases notes.len(),
{
    if notes.len() == 0 {
        Seq::empty()
    } else {
        let before = notes_without(notes.drop_last(), worktree_id, window);
        let (id, note) = notes.last();
        if id@ == worktree_id && (window is None || window == Some(note.index)) {
            before
        } else {
            before.push(notes.last())
        }
    }
}

/// The notes on the worktrees in the set.
pub open spec fn notes_among(notes: Seq<(String, WindowNote)>, ids: Set<Seq<char>>) -> Seq<
    (String, WindowNote),
>
    decreases notes.len(),
{
    if notes.len() == 0 {
        Seq::empty()
    } else {
        let before = notes_among(notes.drop_last(), ids);
        if ids.contains(notes.last().0@) {
            before.push(notes.last())
        } else {
            before
        }
    }
}

fn window_listed(windows: &Vec<WindowInfo>, index: u32) -> (r: bool)
    ensures
        r == lists_window(windows@, index),
{
    let mut i: usize = 0;
    while i < windows.len()
        invariant
            i <= windows.len(),
            forall|k: int| 0 <= k < i ==> (#[trigger] windows@[k]).index != index,
        decreases windows.len() - i,
    {
        if windows[i].index == index {
            return true;
        }
        i += 1;
    }
    false
}

impl Notices {
    pub fn new() -> (r: Self)
        ensures
            r.worktrees@ == Map::<Seq<char>, Notice>::empty(),
            r.windows@ == Seq::<(String, WindowNote)>::empty(),
    {
        Notices { worktrees: Table::new(), windows: Vec::new() }
    }

    /// Nothing has been said.
    pub fn is_empty(&self) -> (r: bool)
        ensures
            r == (self.worktrees@ == Map::<Seq<char>, Notice>::empty() && self.windows@.len() == 0),
    {
        self.worktrees.is_empty() && self.windows.is_empty()
    }

    /// What was last said of the worktree.
    pub fn worktree(&self, worktree_id: &str) -> (r: Option<&Notice>)
        ensures
            r == (if self.worktrees@.contains_key(worktree_id@) {
                Some(&self.worktrees@[worktree_id@])
            } else {
                None
            }),
    {
        self.worktrees.get(worktree_id)
    }

    fn drop_windows(&mut self, worktree_id: &str, window: Option<u32>)
        ensures
            final(self).windows@ == notes_without(old(self).windows@, worktree_id@, window),
            final(self).worktrees == old(self).worktrees,
    {
        let wanted = worktree_id.to_owned();
        let ghost before = self.windows@;
        let mut notes: Vec<(String, WindowNote)> = Vec::new();
        std::mem::swap(&mut notes, &mut self.windows);
        let mut kept: Vec<(String, WindowNote)> = Vec::new();
        assert(before.subrange(0, 0) =~= Seq::<(String, WindowNote)>::empty());
        for entry in it: notes
            invariant
                it.seq() == before,
                wanted@ == worktree_id@,
                kept@ == notes_without(before.subrange(0, it.index() as int), worktree_id@, window),
        {
            assert(before.subrange(0, it.index() + 1).drop_last() =~= before.subrange(
                0,
                it.index() as int,
            ));
            let matches = entry.0 == wanted && (match window {
                None => true,
                Some(index) => entry.1.index == index,
            });
            if !matches {
                kept.push(entry);
            }
        }
        assert(before.subrange(0, before.len() as int) =~= before);
        self.windows = kept;
    }

    /// Takes down what a report says: of the worktree, and of the window where
    /// it names one. What the same worktree or window said before is replaced.
    pub fn record(&mut self, notification: &Notification)
        ensures
            final(self).worktrees@ == old(self).worktrees@.insert(
                notification.worktree_id@,
                (Notice {
                    state: notification.state,
                    reason: notification.reason,
                    message: notification.message,
                }),
            ),
            match notification.window {
                Some(index) => {
                    let kept = notes_without(
                        old(self).windows@,
                        notification.worktree_id@,
                        Some(index),
                    );
                    &&& final(self).windows@ == kept.push(
                        (
                            notification.worktree_id,
                            WindowNote {
                                index,
                                state: notification.state,
                                reason: notification.reason,
                                message: notification.message,
                            },
                        ),
                    )
                },
                None => final(self).windows@ == old(self).windows@,
            },
    {
        self.worktrees.insert(
            notification.worktree_id.clone(),
            Notice {
                state: notification.state,
                reason: notification.reason,
                message: copy_text(&notification.message),
            },
        );
        match notification.window {
            Some(index) => {
                self.drop_windows(notification.worktree_id.as_str(), Some(index));
                self.windows.push(
                    (
                        notification.worktree_id.clone(),
                        WindowNote {
                            index,
                            state: notification.state,
                            reason: notification.reason,
                            message: copy_text(&notification.message),
                        },
                    ),
                );
            },
            None => {},
        }
    }

    /// Forgets everything said of the worktree and of its windows.
    pub fn clear(&mut self, worktree_id: &str)
        ensures
            final(self).worktrees@ == old(self).worktrees@.remove(worktree_id@),
            final(self).windows@ == notes_without(old(self).windows@, worktree_id@, None),
    {
        self.worktrees.remove(worktree_id);
        self.drop_windows(worktree_id, None);
    }

    /// Forgets what was said of worktrees that the table does not have.
    pub fn retain_ids(&mut self, live: &Table<bool>)
        ensures
            final(self).worktrees@ == old(self).worktrees@.restrict(live@.dom()),
            final(self).windows@ == notes_among(old(self).windows@, live@.dom()),
    {
        self.worktrees.restrict_to(live);
        let ghost before = self.windows@;
        let mut notes: Vec<(String, WindowNote)> = Vec::new();
        std::mem::swap(&mut notes, &mut self.windows);
        let mut kept: Vec<(String, WindowNote)> = Vec::new();
        assert(before.subrange(0, 0) =~= Seq::<(String, WindowNote)>::empty());
        for entry in it: notes
            invariant
                it.seq() == before,
                kept@ == notes_among(before.subrange(0, it.index() as int), live@.dom()),
        {
            assert(before.subrange(0, it.index() + 1).drop_last() =~= before.subrange(
                0,
                it.index() as int,
            ));
            if live.contains(entry.0.as_str()) {
                kept.push(entry);
            }
        }
        assert(before.subrange(0, before.len() as int) =~= before);
        self.windows = kept;
    }

    /// The notes on the listed windows of the worktree.
    pub fn window_notes(&self, worktree_id: &str, windows: &Vec<WindowInfo>) -> (r: Vec<WindowNote>)
        ensures
            r@ == notes_for(self.windows@, worktree_id@, windows@),
    {
        let wanted = worktree_id.to_owned();
        let mut out: Vec<WindowNote> = Vec::new();
        let mut i: usize = 0;
        assert(self.windows@.subrange(0, 0) =~= Seq::<(String, WindowNote)>::empty());
        while i < self.windows.len()
            invariant
                i <= self.windows.len(),
                wanted@ == worktree_id@,
                out@ == notes_for(self.windows@.subrange(0, i as int), worktree_id@, windows@),
            decreases self.windows.len() - i,
        {
            assert(self.windows@.subrange(0, i + 1).drop_last() =~= self.windows@.subrange(
                0,
                i as int,
            ));
            if self.windows[i].0 == wanted && window_listed(windows, self.windows[i].1.index) {
                out.push(self.windows[i].1.clone());
            }
            i += 1;
        }
        assert(self.windows@.subrange(0, i as int) =~= self.windows@);
        out
    }
}

}
