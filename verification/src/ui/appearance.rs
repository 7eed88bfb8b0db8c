//! What a row, an entry of the list and a form look like, and what they offer.
use vstd::prelude::*;
use vstd::string::*;

use crate::app::actions::is_found;
use crate::model::{ProjectView, SessionPresence, SessionStatus, WorktreeView};
use crate::text::trimmed;
use crate::ui::backdrop::drawable;
use crate::ui::dialogs::removal::{RemovalForm, Request};
use crate::ui::orphans::{asked, offers_in, offers_of, Choice, Offer, OrphanAction, OrphanSession};
use crate::ui::project_list::{
    entries_of, entry_of, level_of, matching_places, EntryView,
};
use crate::ui::settings::{Config, ConfigKey, Form};
use crate::ui::worktree_row::{
    accent_of, line_under, marks_of, session_text, shortened, tooltip, Accent, Marker, RowAction,
};
use crate::ui::Action;

verus! {

/// A row is marked for what is true of it and for nothing else: that it is locked,
/// that it is on no branch, and that its working tree was read and is not clean.
pub proof fn each_mark_says_what_is_so(w: WorktreeView)
    ensures
        marks_of(w).contains(Marker::Locked) <==> w.is_locked,
        marks_of(w).contains(Marker::Detached) <==> w.is_detached,
        marks_of(w).contains(Marker::Dirty) <==> (w.git_status is Some
            && !w.git_status->0.clean),
{
    let locked: Seq<Marker> = if w.is_locked {
        seq![Marker::Locked]
    } else {
        Seq::empty()
    };
    let detached = if w.is_detached {
        locked.push(Marker::Detached)
    } else {
        locked
    };
    if w.is_locked {
        assert(marks_of(w)[0] == Marker::Locked);
    }
    if w.is_detached {
        assert(marks_of(w)[locked.len() as int] == Marker::Detached);
    }
    if w.git_status is Some && !w.git_status->0.clean {
        assert(marks_of(w)[detached.len() as int] == Marker::Dirty);
    }
}

/// A row's tooltip tells what the agent said first, only while there is a session;
/// then what git said, and then what each mark means, in the order of the marks.
pub proof fn a_tooltip_tells_what_is_known(w: WorktreeView)
    ensures
        ({
            let told = w.status_message is Some && w.session != SessionPresence::Absent;
            let lead: int = if told {
                1
            } else {
                0
            };
            let git: int = if w.git_status is Some {
                1
            } else {
                0
            };
            &&& tooltip(w).len() == lead + git + marks_of(w).len()
            &&& told ==> tooltip(w)[0] == w.status_message->0
            &&& w.git_status is Some ==> tooltip(w)[lead] == w.git_status->0.summary@
            &&& forall|k: int|
                0 <= k < marks_of(w).len() ==> #[trigger] tooltip(w)[lead + git + k] == (
                match marks_of(w)[k] {
                    Marker::Locked => "locked"@,
                    Marker::Detached => "detached HEAD"@,
                    Marker::Dirty => "uncommitted changes"@,
                })
        }),
{
}

/// A row is accented exactly where its session is there and works or asks for the
/// user, each in its own accent.
pub proof fn an_accent_needs_a_session(w: WorktreeView)
    ensures
        accent_of(w) == Some(Accent::Attention) <==> w.session != SessionPresence::Absent
            && w.status == Some(SessionStatus::Attention),
        accent_of(w) == Some(Accent::Working) <==> w.session != SessionPresence::Absent && w.status
            == Some(SessionStatus::Working),
        accent_of(w) is Some ==> w.session == SessionPresence::Detached || w.session
            == SessionPresence::Attached,
{
}

/// What is said of a row's session tells the four cases apart: somebody looks at it,
/// it runs, it stopped, there is none.
pub proof fn a_row_says_how_its_session_is(w: WorktreeView)
    ensures
        w.session == SessionPresence::Attached ==> session_text(w) == "attached"@,
        w.session == SessionPresence::Detached ==> session_text(w) == "session running"@,
        w.session == SessionPresence::Absent && w.session_stopped ==> session_text(w)
            == "session stopped"@,
        w.session == SessionPresence::Absent && !w.session_stopped ==> session_text(w)
            == "no session"@,
{
}

/// A path under the home directory is shown with a tilde in its place, the home
/// directory itself as the tilde alone, and every other path as it is: also one that
/// only begins with the same letters.
pub proof fn only_the_home_directory_is_shortened(
    home: Seq<char>,
    rest: Seq<char>,
    path: Seq<char>,
)
    ensures
        shortened(path, None) == path,
        shortened(home, Some(home)) == "~"@,
        shortened(home + seq!['/'] + rest, Some(home)) == "~"@ + (seq!['/'] + rest),
        rest.len() > 0 && rest[0] != '/' ==> shortened(home + rest, Some(home)) == home + rest,
        path.len() < home.len() ==> shortened(path, Some(home)) == path,
        shortened(path, Some(home)) != path ==> path.len() >= home.len() && path.subrange(
            0,
            home.len() as int,
        ) == home,
{
    let under = home + seq!['/'] + rest;
    assert(under.subrange(0, home.len() as int) =~= home);
    assert(under.subrange(home.len() as int, under.len() as int) =~= seq!['/'] + rest);
    assert(under[home.len() as int] == '/');
    assert(home.subrange(0, home.len() as int) =~= home);
    assert("~"@ + home.subrange(home.len() as int, home.len() as int) =~= "~"@);
    let beside = home + rest;
    if rest.len() > 0 {
        assert(beside[home.len() as int] == rest[0]);
    }
}

proof fn lemma_offered(project: ProjectView, worktrees: Seq<WorktreeView>, j: int) -> (k: int)
    requires
        0 <= j < worktrees.len(),
        worktrees[j].session == SessionPresence::Absent,
        !worktrees[j].is_missing,
    ensures
        0 <= k < offers_in(project, worktrees).len(),
        offers_in(project, worktrees)[k].project_id == project.id,
        offers_in(project, worktrees)[k].worktree_id == worktrees[j].id,
        offers_in(project, worktrees)[k].label == project.name + " · "@ + worktrees[j].label,
    decreases worktrees.len(),
{
    let init = worktrees.drop_last();
    if j < init.len() {
        lemma_offered(project, init, j)
    } else {
        offers_in(project, init).len() as int
    }
}

/// Every worktree that is there and has no session is offered to an orphan, under the
/// names of its project and itself.
pub proof fn every_free_worktree_is_offered(projects: Seq<ProjectView>, i: int, j: int) -> (k: int)
    requires
        0 <= i < projects.len(),
        0 <= j < projects[i].worktrees.len(),
        projects[i].worktrees[j].session == SessionPresence::Absent,
        !projects[i].worktrees[j].is_missing,
    ensures
        0 <= k < offers_of(projects).len(),
        offers_of(projects)[k].project_id == projects[i].id,
        offers_of(projects)[k].worktree_id == projects[i].worktrees[j].id,
        offers_of(projects)[k].label == projects[i].name + " · "@ + projects[i].worktrees[j].label,
    decreases projects.len(),
{
    let init = projects.drop_last();
    let last = projects.last();
    if i < init.len() {
        every_free_worktree_is_offered(init, i, j)
    } else {
        let k = lemma_offered(last, last.worktrees, j);
        assert(offers_of(projects)[offers_of(init).len() + k] == offers_in(
            last,
            last.worktrees,
        )[k]);
        offers_of(init).len() + k
    }
}

/// No worktree that is missing or has a session, looked at or not, is offered.
pub proof fn no_taken_worktree_is_offered(projects: Seq<ProjectView>, k: int)
    requires
        0 <= k < offers_of(projects).len(),
    ensures
        exists|i: int, j: int|
            #![trigger projects[i].worktrees[j]]
            0 <= i < projects.len() && 0 <= j < projects[i].worktrees.len()
                && projects[i].worktrees[j].session == SessionPresence::Absent
                && !projects[i].worktrees[j].is_missing && offers_of(projects)[k].worktree_id
                == projects[i].worktrees[j].id && offers_of(projects)[k].project_id
                == projects[i].id,
{
    crate::ui::orphans::offers_are_free(projects, k);
    let (i, j) = choose|i: int, j: int|
        0 <= i < projects.len() && 0 <= j < projects[i].worktrees.len()
            && crate::ui::orphans::can_adopt(#[trigger] projects[i].worktrees[j]) && offers_of(
            projects,
        )[k].worktree_id == projects[i].worktrees[j].id && offers_of(projects)[k].project_id
            == projects[i].id;
    assert(projects[i].worktrees[j].session == SessionPresence::Absent);
}

/// What is chosen for an orphan is asked of that orphan, and a worktree that is chosen
/// for it is the one that was offered at that place.
pub proof fn a_choice_is_about_its_orphan(orphan: OrphanSession, offers: Seq<Offer>, at: usize)
    ensures
        asked(orphan, offers, Choice::Open) == Some(OrphanAction::Open(orphan.name)),
        asked(orphan, offers, Choice::Ignore) == Some(OrphanAction::Ignore(orphan.name)),
        asked(orphan, offers, Choice::Close) == Some(OrphanAction::Close(orphan.name)),
        at < offers.len() ==> (asked(orphan, offers, Choice::Associate(at)) matches Some(
            OrphanAction::Associate { session, project_id, worktree_id },
        ) && session == orphan.name && project_id == offers[at as int].project_id && worktree_id
            == offers[at as int].worktree_id),
        at >= offers.len() ==> asked(orphan, offers, Choice::Associate(at)) is None,
{
}

/// Of a project the rows are drawn that the filter finds, in order, and no others.
pub proof fn found_rows_are_drawn(p: ProjectView, worktrees: Seq<WorktreeView>, needle: Seq<char>)
    ensures
        ({
            let drawn = matching_places(p.name, worktrees, needle);
            &&& forall|j: int|
                0 <= j < worktrees.len() ==> (drawn.contains(j) <==> is_found(
                    p,
                    #[trigger] worktrees[j],
                    needle,
                ))
            &&& forall|k: int| 0 <= k < drawn.len() ==> 0 <= #[trigger] drawn[k] < worktrees.len()
            &&& forall|k: int, m: int|
                0 <= k < m < drawn.len() ==> #[trigger] drawn[k] < #[trigger] drawn[m]
        }),
    decreases worktrees.len(),
{
    if worktrees.len() > 0 {
        let init = worktrees.drop_last();
        let last = worktrees.last();
        let n = init.len() as int;
        found_rows_are_drawn(p, init, needle);
        crate::app::actions::a_filter_finds_names_labels_and_paths(p, last, needle);
        let before = matching_places(p.name, init, needle);
        let drawn = matching_places(p.name, worktrees, needle);
        assert forall|j: int| 0 <= j < worktrees.len() implies (drawn.contains(j) <==> is_found(
            p,
            #[trigger] worktrees[j],
            needle,
        )) by {
            crate::text::contains_pushed(before, n, j);
            if j < n {
                assert(init[j] == worktrees[j]);
            } else if before.contains(n) {
                let k = choose|k: int| 0 <= k < before.len() && before[k] == n;
                assert(before[k] < init.len());
            }
        }
    }
}

/// A project is drawn unless a filter finds neither it nor any of its rows: its only
/// row by itself where it can be read, else a header over the rows that were found.
pub proof fn a_project_is_drawn_where_something_is_found(
    p: ProjectView,
    place: int,
    needle: Seq<char>,
)
    ensures
        needle.len() == 0 ==> entry_of(p, place, needle) is Some,
        (exists|j: int|
            0 <= j < p.worktrees.len() && is_found(p, #[trigger] p.worktrees[j], needle))
            ==> entry_of(p, place, needle) is Some,
        p.unavailable is Some ==> !(entry_of(p, place, needle) matches Some(
            EntryView::Single { .. },
        )),
        p.unavailable is None && p.worktrees.len() == 1 && is_found(p, p.worktrees[0], needle)
            ==> entry_of(p, place, needle) == Some(
            EntryView::Single { project: place, worktree: 0 },
        ),
        p.worktrees.len() > 1 && entry_of(p, place, needle) is Some ==> entry_of(p, place, needle)
            == Some(
            EntryView::Header {
                project: place,
                worktrees: matching_places(p.name, p.worktrees, needle),
            },
        ),
{
    found_rows_are_drawn(p, p.worktrees, needle);
    let drawn = matching_places(p.name, p.worktrees, needle);
    if exists|j: int|
        0 <= j < p.worktrees.len() && is_found(p, #[trigger] p.worktrees[j], needle) {
        let j = choose|j: int|
            0 <= j < p.worktrees.len() && is_found(p, #[trigger] p.worktrees[j], needle);
        assert(drawn.contains(j));
    }
    if p.worktrees.len() == 1 && is_found(p, p.worktrees[0], needle) {
        assert(drawn.contains(0));
        let k = choose|k: int| 0 <= k < drawn.len() && drawn[k] == 0;
        if drawn.len() > 1 {
            assert(drawn[0] < drawn[1]);
        }
        assert(drawn[0] == 0);
    }
}

/// Every project of which something is drawn stands in the list, in its order.
pub proof fn drawn_projects_stand_in_order(projects: Seq<ProjectView>, needle: Seq<char>, i: int)
    requires
        0 <= i < projects.len(),
    ensures
        entry_of(projects[i], i, needle) matches Some(entry) ==> entries_of(
            projects,
            needle,
        ).contains(entry),
        entries_of(projects, needle).len() <= projects.len(),
    decreases projects.len(),
{
    let init = projects.drop_last();
    let last = projects.last();
    if init.len() > 0 {
        drawn_projects_stand_in_order(
            init,
            needle,
            if i < init.len() {
                i
            } else {
                0
            },
        );
    }
    assert(entries_of(init, needle).len() <= init.len());
    if let Some(entry) = entry_of(projects[i], i, needle) {
        if let Some(added) = entry_of(last, projects.len() - 1, needle) {
            crate::text::contains_pushed(entries_of(init, needle), added, entry);
        }
    }
}

/// A worktree with several windows is a header and a row for each of them, one level
/// down, in order; any other is one row. A header is never drawn as selected, and of
/// the rows only the one that is.
pub proof fn a_worktree_is_drawn_with_its_windows(
    w: WorktreeView,
    selected: Option<Seq<char>>,
    window: Option<(Seq<char>, u32)>,
    depth: u8,
)
    requires
        depth < 255,
    ensures
        w.windows.len() <= 1 ==> level_of(w, selected, window, depth).len() == 1 && {
            let row = level_of(w, selected, window, depth)[0];
            !row.header && row.window is None && row.depth == depth && (row.selected <==> selected
                == Some(w.id))
        },
        w.windows.len() > 1 ==> {
            let rows = level_of(w, selected, window, depth);
            &&& rows.len() == w.windows.len() + 1
            &&& rows[0].header && !rows[0].selected && rows[0].depth == depth
            &&& forall|k: int|
                0 <= k < w.windows.len() && k <= usize::MAX ==> {
                    &&& !(#[trigger] rows[k + 1]).header
                    &&& rows[k + 1].window == Some(k as usize)
                    &&& rows[k + 1].depth == depth + 1
                    &&& rows[k + 1].selected <==> window == Some((w.id, w.windows[k].index))
                }
        },
{
}

/// The steps of a removal, in order: the project can always be taken out of the list,
/// the session be closed where there is one, the worktree be removed and the branch be
/// deleted where the assessment says so; each forced variant stands behind its plain
/// one, only after git refused it.
pub proof fn a_removal_offers_what_can_be_done(form: RemovalForm)
    ensures
        ({
            let steps = form.steps();
            let removable = form.report is Some && form.report->0.can_remove_worktree;
            let deletable = form.report is Some && form.report->0.can_delete_branch;
            let forced: int = if removable && form.force_worktree_offered {
                1
            } else {
                0
            };
            &&& steps.len() == 4 + forced + (if deletable && form.force_branch_offered {
                1int
            } else {
                0int
            })
            &&& steps[0].operation == Request::RemoveProject && steps[0].enabled
            &&& steps[1].operation == Request::CloseSession && (steps[1].enabled
                <==> form.session is Some)
            &&& steps[2].operation == (Request::RemoveWorktree { force: false }) && (
            steps[2].enabled <==> removable)
            &&& forced == 1 ==> steps[3].operation == (Request::RemoveWorktree { force: true })
                && steps[3].enabled
            &&& steps[3 + forced].operation == (Request::DeleteBranch { force: false }) && (
            steps[3 + forced].enabled <==> deletable)
            &&& deletable && form.force_branch_offered ==> steps[4 + forced].operation == (
            Request::DeleteBranch { force: true }) && steps[4 + forced].enabled
            &&& forall|k: int|
                0 <= k < steps.len() ==> ((#[trigger] steps[k]).armed <==> form.armed == Some(
                    steps[k].operation,
                ))
        }),
{
}

/// What is saved is what differs from what was loaded, each key once, without the
/// space around its value; what was not touched is not written.
pub proof fn only_changed_settings_are_saved(form: Form)
    ensures
        form.changes().contains((ConfigKey::TerminalCommand, trimmed(form.terminal_command@)))
            <==> form.terminal_command@ != form.loaded_terminal@,
        form.changes().contains((ConfigKey::WorktreesDefaultParent, trimmed(form.default_parent@)))
            <==> form.default_parent@ != form.loaded_parent@,
        form.changes().len() == 0 <==> form.terminal_command@ == form.loaded_terminal@
            && form.default_parent@ == form.loaded_parent@,
        form.changes().len() <= 2,
{
    if form.terminal_command@ != form.loaded_terminal@ {
        assert(form.changes()[0] == (ConfigKey::TerminalCommand, trimmed(form.terminal_command@)));
    }
    if form.default_parent@ != form.loaded_parent@ {
        assert(form.changes().last() == (
            ConfigKey::WorktreesDefaultParent,
            trimmed(form.default_parent@),
        ));
    }
}

/// What the file holds becomes what was loaded. Unsaved edits stay where no save was
/// on its way, and after one that was, nothing is left to be saved.
pub proof fn a_reload_keeps_unsaved_edits(form: Form, config: Config)
    ensures
        form.with_baseline(config).loaded_terminal == config.terminal_command,
        form.with_baseline(config).loaded_parent == config.default_parent,
        !form.with_baseline(config).saving,
        !form.saving ==> form.with_baseline(config).terminal_command == form.terminal_command
            && form.with_baseline(config).default_parent == form.default_parent,
        form.saving ==> form.with_baseline(config).changes().len() == 0,
{
}

/// The form can be saved exactly where a value differs from what was loaded, nothing is
/// wrong with it, and no save is on its way.
pub proof fn a_form_is_saved_once(form: Form, problem: Option<String>)
    ensures
        form.savable(problem) <==> (form.terminal_command@ != form.loaded_terminal@
            || form.default_parent@ != form.loaded_parent@) && problem is None && !form.saving,
{
    only_changed_settings_are_saved(form);
}

/// A click on a row asks for what it says, of that row and of no other.
pub proof fn a_click_asks_for_what_it_says(
    project_id: String,
    worktree_id: String,
    slot: Option<u8>,
)
    ensures
        RowAction::Activate.asked(project_id, worktree_id) == Some(
            Action::ActivateWorktree { project_id, worktree_id },
        ),
        RowAction::Select.asked(project_id, worktree_id) == Some(
            Action::SelectWorktree { project_id, worktree_id },
        ),
        RowAction::Fold.asked(project_id, worktree_id) is None,
        RowAction::OpenInNewTerminal.asked(project_id, worktree_id) == Some(
            Action::OpenInNewTerminal { project_id, worktree_id },
        ),
        RowAction::OpenNewWindow.asked(project_id, worktree_id) == Some(
            Action::OpenNewWindow { project_id, worktree_id },
        ),
        RowAction::StartAgent.asked(project_id, worktree_id) == Some(
            Action::StartAgent { project_id, worktree_id },
        ),
        RowAction::ResumeAgent.asked(project_id, worktree_id) == Some(
            Action::ResumeAgent { project_id, worktree_id },
        ),
        RowAction::OpenAgentTranscript.asked(project_id, worktree_id) == Some(
            Action::OpenAgentTranscript { worktree_id },
        ),
        RowAction::SetSlot(slot).asked(project_id, worktree_id) == Some(
            Action::SetWorktreeSlot { worktree_id, slot },
        ),
        RowAction::Refresh.asked(project_id, worktree_id) == Some(
            Action::RefreshProject(project_id),
        ),
        RowAction::Remove.asked(project_id, worktree_id) == Some(
            Action::RemoveWorktree { project_id, worktree_id },
        ),
{
}

/// Nothing is drawn of a picture without a width or a height, and any other is drawn as
/// it is.
pub proof fn only_a_picture_with_an_area_is_drawn(width: u32, height: u32, pixels: Seq<u8>)
    ensures
        width == 0 || height == 0 ==> drawable(Some((width, height, pixels))) is None,
        width > 0 && height > 0 ==> drawable(Some((width, height, pixels))) == Some(
            (width, height, pixels),
        ),
{
}

/// The line under a row's name says what git said first, where it was asked, then how
/// the session is, and last where the worktree stands.
pub proof fn the_line_under_a_row_says_three_things(w: WorktreeView, home: Option<Seq<char>>)
    ensures
        w.git_status is None ==> line_under(w, home) == session_text(w) + " · "@ + shortened(
            w.path,
            home,
        ),
        w.git_status matches Some(status) ==> line_under(w, home) == status.summary@ + (" · "@
            + session_text(w) + " · "@ + shortened(w.path, home)),
{
    if let Some(status) = w.git_status {
        assert(line_under(w, home) =~= status.summary@ + (" · "@ + session_text(w) + " · "@
            + shortened(w.path, home)));
    }
}

}
