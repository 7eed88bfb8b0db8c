//! What an agent's report, and opening a row, do to the rows and to what is held
//! about them.
use vstd::prelude::*;

use crate::app::rows::Rows;
use crate::model::{
    worktree_at_is_first, SessionPresence, SessionStatus, WindowInfo, WindowNote,
};
use crate::notices::{notes_for, notes_without, Notification};

verus! {

/// The two optional texts hold the same.
pub open spec fn same_text(a: Option<String>, b: Option<String>) -> bool {
    match (a, b) {
        (Some(a), Some(b)) => a@ == b@,
        (None, None) => true,
        _ => false,
    }
}

/// The view of a row is that of the row itself.
pub proof fn lemma_row_views(rows: Rows, i: int)
    requires
        0 <= i < rows.projects@.len(),
    ensures
        rows.view_projects().len() == rows.projects@.len(),
        rows.view_projects()[i] == rows.projects@[i]@,
        rows.view_projects()[i].worktrees.len() == rows.projects@[i].worktrees@.len(),
        forall|j: int|
            0 <= j < rows.projects@[i].worktrees@.len() ==> #[trigger] rows.view_projects()[i].worktrees[j]
                == rows.projects@[i].worktrees@[j]@,
{
    assert(rows.view_projects()[i] == rows.projects@[i]@);
}

/// A report of attention always shows: after it the worktree's row, where its
/// session is there, asks for the user for the reason reported, and so does the
/// cached status, whatever either said before.
pub proof fn an_attention_report_always_shows(
    rows: Rows,
    after: Rows,
    notification: Notification,
    i: int,
    j: int,
)
    requires
        rows.noted(after, notification),
        notification.state == SessionStatus::Attention,
        0 <= i < rows.projects@.len(),
        0 <= j < rows.projects@[i].worktrees@.len(),
        rows.projects@[i].worktrees@[j].id@ == notification.worktree_id@,
        forall|k: int|
            0 <= k < j ==> (#[trigger] rows.projects@[i].worktrees@[k]).id@
                != notification.worktree_id@,
    ensures
        after.projects@.len() == rows.projects@.len(),
        after.projects@[i].worktrees@.len() == rows.projects@[i].worktrees@.len(),
        rows.projects@[i].worktrees@[j].session != SessionPresence::Absent ==> {
            &&& after.projects@[i].worktrees@[j].status == Some(SessionStatus::Attention)
            &&& after.projects@[i].worktrees@[j].attention_reason == notification.reason
        },
        after.statuses@.contains_key(notification.worktree_id@),
        after.statuses@[notification.worktree_id@].status == SessionStatus::Attention,
{
    a_report_changes_its_row(rows, after, notification, i, j);
    a_report_changes_the_cached_status(rows, after, notification);
}

/// What a report does to the row of its worktree: the message is taken over.
/// Attention and done show where the session is there, done only where the row
/// does not ask for the user. Work and idleness are not shown, and only attention
/// brings a reason. Nothing else of the row changes but the notes on its windows.
pub proof fn a_report_changes_its_row(
    rows: Rows,
    after: Rows,
    notification: Notification,
    i: int,
    j: int,
)
    requires
        rows.noted(after, notification),
        0 <= i < rows.projects@.len(),
        0 <= j < rows.projects@[i].worktrees@.len(),
        rows.projects@[i].worktrees@[j].id@ == notification.worktree_id@,
        forall|k: int|
            0 <= k < j ==> (#[trigger] rows.projects@[i].worktrees@[k]).id@
                != notification.worktree_id@,
    ensures
        after.projects@.len() == rows.projects@.len(),
        after.projects@[i].worktrees@.len() == rows.projects@[i].worktrees@.len(),
        ({
            let was = rows.projects@[i].worktrees@[j];
            let now = after.projects@[i].worktrees@[j];
            &&& same_text(now.status_message, notification.message)
            &&& was.session == SessionPresence::Absent ==> now.status == was.status
                && now.attention_reason == was.attention_reason
            &&& was.session != SessionPresence::Absent ==> match notification.state {
                SessionStatus::Attention => now.status == Some(SessionStatus::Attention)
                    && now.attention_reason == notification.reason,
                SessionStatus::Done => (was.status == Some(SessionStatus::Attention)
                    ==> now.status == Some(SessionStatus::Attention)) && (was.status != Some(
                    SessionStatus::Attention,
                ) ==> now.status == Some(SessionStatus::Done)) && now.attention_reason
                    == was.attention_reason,
                SessionStatus::Working => now.status == was.status && now.attention_reason
                    == was.attention_reason,
                SessionStatus::Idle => now.status == was.status && now.attention_reason
                    == was.attention_reason,
            }
            &&& now.id@ == was.id@
            &&& now.project_id@ == was.project_id@
            &&& now.path@ == was.path@
            &&& now.label@ == was.label@
            &&& same_text(now.branch, was.branch)
            &&& now.is_locked == was.is_locked
            &&& now.is_detached == was.is_detached
            &&& now.is_missing == was.is_missing
            &&& now.git_status == was.git_status
            &&& now.session == was.session
            &&& now.session_stopped == was.session_stopped
            &&& now.windows@ == was.windows@
        }),
{
    lemma_row_views(rows, i);
    let p = rows.view_projects()[i];
    worktree_at_is_first(p.worktrees, notification.worktree_id@);
    assert forall|k: int| 0 <= k < j implies (#[trigger] p.worktrees[k]).id
        != notification.worktree_id@ by {
        assert(rows.projects@[i].worktrees@[k].id@ != notification.worktree_id@);
    }
    assert(p.worktrees[j].id == notification.worktree_id@);
    assert(after.view_projects().len() == after.projects@.len());
    lemma_row_views(after, i);
    assert(after.view_projects()[i].worktrees[j] == after.projects@[i].worktrees@[j]@);
    assert(p.worktrees[j] == rows.projects@[i].worktrees@[j]@);
}

/// What a report does to the cached status of its worktree: attention is taken
/// over, done is unless the last status was attention, work and idleness are not.
/// What the last poll read besides stays, and so does the status of every other
/// worktree.
pub proof fn a_report_changes_the_cached_status(
    rows: Rows,
    after: Rows,
    notification: Notification,
)
    requires
        rows.noted(after, notification),
    ensures
        ({
            let id = notification.worktree_id@;
            &&& match notification.state {
                SessionStatus::Attention => after.statuses@.contains_key(id)
                    && after.statuses@[id].status == SessionStatus::Attention,
                SessionStatus::Done => after.statuses@.contains_key(id)
                    && after.statuses@[id].status == (if rows.statuses@.contains_key(id)
                    && rows.statuses@[id].status == SessionStatus::Attention {
                    SessionStatus::Attention
                } else {
                    SessionStatus::Done
                }),
                SessionStatus::Working => after.statuses@ == rows.statuses@,
                SessionStatus::Idle => after.statuses@ == rows.statuses@,
            }
            &&& rows.statuses@.contains_key(id) ==> after.statuses@[id].usage
                == rows.statuses@[id].usage && after.statuses@[id].cpu == rows.statuses@[id].cpu
            &&& !rows.statuses@.contains_key(id) && after.statuses@.contains_key(id)
                ==> after.statuses@[id].usage is None && after.statuses@[id].cpu is None
            &&& forall|other: Seq<char>|
                other != id ==> (#[trigger] after.statuses@.contains_key(other)
                    == rows.statuses@.contains_key(other)) && (rows.statuses@.contains_key(other)
                    ==> after.statuses@[other] == rows.statuses@[other])
        }),
{
}

/// A report touches no row of another worktree but for the notes on its windows,
/// and nothing of a project but its rows.
pub proof fn a_report_leaves_other_rows(
    rows: Rows,
    after: Rows,
    notification: Notification,
    i: int,
    j: int,
)
    requires
        rows.noted(after, notification),
        0 <= i < rows.projects@.len(),
        0 <= j < rows.projects@[i].worktrees@.len(),
        rows.projects@[i].worktrees@[j].id@ != notification.worktree_id@,
    ensures
        after.projects@.len() == rows.projects@.len(),
        after.projects@[i].worktrees@.len() == rows.projects@[i].worktrees@.len(),
        after.projects@[i].id@ == rows.projects@[i].id@,
        after.projects@[i].name@ == rows.projects@[i].name@,
        after.projects@[i].is_expanded == rows.projects@[i].is_expanded,
        same_text(after.projects@[i].unavailable, rows.projects@[i].unavailable),
        ({
            let was = rows.projects@[i].worktrees@[j];
            let now = after.projects@[i].worktrees@[j];
            &&& now.id@ == was.id@
            &&& now.session == was.session
            &&& now.session_stopped == was.session_stopped
            &&& now.status == was.status
            &&& same_text(now.status_message, was.status_message)
            &&& now.attention_reason == was.attention_reason
            &&& now.git_status == was.git_status
            &&& now.windows@ == was.windows@
        }),
{
    lemma_row_views(rows, i);
    let p = rows.view_projects()[i];
    worktree_at_is_first(p.worktrees, notification.worktree_id@);
    assert(p.worktrees[j] == rows.projects@[i].worktrees@[j]@);
    assert(after.view_projects().len() == after.projects@.len());
    lemma_row_views(after, i);
    assert(after.view_projects()[i] == after.projects@[i]@);
    assert(after.view_projects()[i].worktrees[j] == after.projects@[i].worktrees@[j]@);
}

/// The notes that are left once those of one window, or of all windows, of a
/// worktree are dropped: all the others, and none of those.
pub proof fn dropping_notes_drops_those_alone(
    notes: Seq<(String, WindowNote)>,
    id: Seq<char>,
    window: Option<u32>,
    entry: (String, WindowNote),
)
    ensures
        notes_without(notes, id, window).contains(entry) <==> notes.contains(entry) && !(entry.0@
            == id && (window matches Some(index) ==> entry.1.index == index)),
    decreases notes.len(),
{
    if notes.len() > 0 {
        let init = notes.drop_last();
        dropping_notes_drops_those_alone(init, id, window, entry);
        let kept = notes_without(init, id, window);
        assert(notes =~= init.push(notes.last()));
        crate::text::contains_pushed(init, notes.last(), entry);
        crate::text::contains_pushed(kept, notes.last(), entry);
    }
}

/// The notes a row shows: those made of its worktree on the windows it lists, and
/// no others.
pub proof fn a_row_shows_the_notes_on_its_windows(
    notes: Seq<(String, WindowNote)>,
    id: Seq<char>,
    windows: Seq<WindowInfo>,
    note: WindowNote,
)
    ensures
        notes_for(notes, id, windows).contains(note) <==> exists|k: int, w: int|
            #![trigger notes[k], windows[w]]
            0 <= k < notes.len() && notes[k].0@ == id && notes[k].1 == note && 0 <= w
                < windows.len() && windows[w].index == note.index,
    decreases notes.len(),
{
    if notes.len() > 0 {
        let init = notes.drop_last();
        let last = notes.last();
        a_row_shows_the_notes_on_its_windows(init, id, windows, note);
        let kept = notes_for(init, id, windows);
        crate::text::contains_pushed(kept, last.1, note);
        let listed = crate::notices::lists_window(windows, last.1.index);
        if notes_for(notes, id, windows).contains(note) {
            if kept.contains(note) {
                let (k, w) = choose|k: int, w: int|
                    #![trigger init[k], windows[w]]
                    0 <= k < init.len() && init[k].0@ == id && init[k].1 == note && 0 <= w
                        < windows.len() && windows[w].index == note.index;
                assert(notes[k] == init[k]);
                assert(windows[w].index == note.index);
            } else {
                let w = choose|w: int|
                    0 <= w < windows.len() && (#[trigger] windows[w]).index == last.1.index;
                assert(notes[notes.len() - 1] == last);
                assert(windows[w].index == note.index);
            }
        }
        if exists|k: int, w: int|
            #![trigger notes[k], windows[w]]
            0 <= k < notes.len() && notes[k].0@ == id && notes[k].1 == note && 0 <= w
                < windows.len() && windows[w].index == note.index {
            let (k, w) = choose|k: int, w: int|
                #![trigger notes[k], windows[w]]
                0 <= k < notes.len() && notes[k].0@ == id && notes[k].1 == note && 0 <= w
                    < windows.len() && windows[w].index == note.index;
            if k < init.len() {
                assert(init[k] == notes[k]);
                assert(windows[w].index == note.index);
            } else {
                assert(notes[k] == last);
                assert(listed);
            }
        }
    } else {
        assert(!notes_for(notes, id, windows).contains(note));
    }
}

/// What a report leaves in the notices: of the worktree, what it says; of the
/// window it names, one note with what it says, and no older one; every note on
/// another window or another worktree stays.
pub proof fn a_report_is_noted(
    rows: Rows,
    after: Rows,
    notification: Notification,
    entry: (String, WindowNote),
)
    requires
        rows.noted(after, notification),
    ensures
        ({
            let id = notification.worktree_id@;
            let notice = after.notices.worktrees@[id];
            &&& after.notices.worktrees@.contains_key(id)
            &&& notice.state == notification.state
            &&& notice.reason == notification.reason
            &&& notice.message == notification.message
            &&& forall|other: Seq<char>|
                other != id ==> (#[trigger] after.notices.worktrees@.contains_key(other)
                    == rows.notices.worktrees@.contains_key(other)) && (
                rows.notices.worktrees@.contains_key(other) ==> after.notices.worktrees@[other]
                    == rows.notices.worktrees@[other])
            &&& match notification.window {
                None => after.notices.windows@ == rows.notices.windows@,
                Some(index) => {
                    let made = after.notices.windows@.last();
                    &&& after.notices.windows@.len() > 0
                    &&& made.0@ == id
                    &&& made.1.index == index
                    &&& made.1.state == notification.state
                    &&& made.1.reason == notification.reason
                    &&& made.1.message == notification.message
                    &&& after.notices.windows@.drop_last().contains(entry)
                        <==> rows.notices.windows@.contains(entry) && !(entry.0@ == id
                        && entry.1.index == index)
                },
            }
        }),
{
    if let Some(index) = notification.window {
        dropping_notes_drops_those_alone(
            rows.notices.windows@,
            notification.worktree_id@,
            Some(index),
            entry,
        );
    }
}

/// A row that was opened carries nothing of its attention any more, nothing that
/// would bring it back is held, and what is not about its worktree stays.
pub proof fn opening_drops_what_was_said(
    rows: Rows,
    after: Rows,
    worktree_id: Seq<char>,
    i: int,
    j: int,
    entry: (String, WindowNote),
)
    requires
        rows.attention_cleared(after, worktree_id),
        0 <= i < rows.projects@.len(),
        0 <= j < rows.projects@[i].worktrees@.len(),
        forall|k: int|
            0 <= k < j ==> (#[trigger] rows.projects@[i].worktrees@[k]).id@ != worktree_id,
    ensures
        after.projects@.len() == rows.projects@.len(),
        after.projects@[i].worktrees@.len() == rows.projects@[i].worktrees@.len(),
        ({
            let was = rows.projects@[i].worktrees@[j];
            let now = after.projects@[i].worktrees@[j];
            &&& was.id@ == worktree_id ==> now.status is None && now.status_message is None
                && now.attention_reason is None && now.window_notes@.len() == 0
            &&& was.id@ != worktree_id ==> now.status == was.status && same_text(
                now.status_message,
                was.status_message,
            ) && now.attention_reason == was.attention_reason && now.window_notes@
                == was.window_notes@
            &&& now.id@ == was.id@
            &&& now.session == was.session
            &&& now.session_stopped == was.session_stopped
            &&& now.git_status == was.git_status
            &&& now.windows@ == was.windows@
        }),
        !after.statuses@.contains_key(worktree_id),
        !after.notices.worktrees@.contains_key(worktree_id),
        forall|other: Seq<char>|
            other != worktree_id ==> (#[trigger] after.statuses@.contains_key(other)
                == rows.statuses@.contains_key(other)) && (rows.statuses@.contains_key(other)
                ==> after.statuses@[other] == rows.statuses@[other]),
        forall|other: Seq<char>|
            other != worktree_id ==> (#[trigger] after.notices.worktrees@.contains_key(other)
                == rows.notices.worktrees@.contains_key(other)) && (
            rows.notices.worktrees@.contains_key(other) ==> after.notices.worktrees@[other]
                == rows.notices.worktrees@[other]),
        after.notices.windows@.contains(entry) <==> rows.notices.windows@.contains(entry)
            && entry.0@ != worktree_id,
{
    dropping_notes_drops_those_alone(rows.notices.windows@, worktree_id, None, entry);
    lemma_row_views(rows, i);
    let p = rows.view_projects()[i];
    worktree_at_is_first(p.worktrees, worktree_id);
    assert forall|k: int| 0 <= k < j implies (#[trigger] p.worktrees[k]).id != worktree_id by {
        assert(rows.projects@[i].worktrees@[k].id@ != worktree_id);
    }
    assert(p.worktrees[j] == rows.projects@[i].worktrees@[j]@);
    assert(after.view_projects().len() == after.projects@.len());
    lemma_row_views(after, i);
    assert(after.view_projects()[i].worktrees[j] == after.projects@[i].worktrees@[j]@);
}

}
