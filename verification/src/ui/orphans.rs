//! Sessions without a worktree. The section only ever offers: open, associate,
//! close, ignore.
use vstd::prelude::*;
use vstd::string::*;

use crate::model::{project_views, Project, ProjectView, WorktreeView};
use crate::text::{decimal, number};

verus! {

/// A session on the private server with no worktree behind it.
#[derive(Debug, Clone, PartialEq, Eq)]
pub struct OrphanSession {
    pub name: String,
    pub detail: String,
}

/// What the user chose for one orphaned session.
#[derive(Debug, Clone, PartialEq, Eq)]
pub enum OrphanAction {
    /// Look at the session before deciding anything about it.
    Open(String),
    /// Adopt it as a worktree's session.
    Associate { session: String, project_id: String, worktree_id: String },
    /// Close it. The first click only arms the confirmation.
    Close(String),
    /// Stop reporting it. Nothing is closed.
    Ignore(String),
    /// Report the ignored sessions again.
    ShowIgnored,
}

/// A worktree the session can be associated with, and what it is called.
#[derive(Debug, PartialEq, Eq)]
pub struct Offer {
    pub project_id: String,
    pub worktree_id: String,
    pub label: String,
}

pub struct OfferView {
    pub project_id: Seq<char>,
    pub worktree_id: Seq<char>,
    pub label: Seq<char>,
}

impl View for Offer {
    type V = OfferView;

    open spec fn view(&self) -> OfferView {
        OfferView {
            project_id: self.project_id@,
            worktree_id: self.worktree_id@,
            label: self.label@,
        }
    }
}

pub open spec fn offer_views(offers: Seq<Offer>) -> Seq<OfferView> {
    offers.map_values(|o: Offer| o@)
}

/// The worktree has no session of its own and is there.
pub open spec fn can_adopt(w: WorktreeView) -> bool {
    !w.session.live() && !w.is_missing
}

/// The worktrees of one project that can adopt a session.
pub open spec fn offers_in(project: ProjectView, worktrees: Seq<WorktreeView>) -> Seq<OfferView>
    decreases worktrees.len(),
{
    if worktrees.len() == 0 {
        Seq::empty()
    } else {
        let before = offers_in(project, worktrees.drop_last());
        let last = worktrees.last();
        if can_adopt(last) {
            before.push(
                OfferView {
                    project_id: project.id,
                    worktree_id: last.id,
                    label: project.name + " · "@ + last.label,
                },
            )
        } else {
            before
        }
    }
}

/// The worktrees that can adopt a session, in list order.
pub open spec fn offers_of(projects: Seq<ProjectView>) -> Seq<OfferView>
    decreases projects.len(),
{
    if projects.len() == 0 {
        Seq::empty()
    } else {
        offers_of(projects.drop_last()) + offers_in(projects.last(), projects.last().worktrees)
    }
}

/// The worktrees a session can be associated with.
pub fn offers(projects: &Vec<Project>) -> (r: Vec<Offer>)
    ensures
        offer_views(r@) == offers_of(project_views(projects@)),
{
    let ghost views = project_views(projects@);
    let mut offers: Vec<Offer> = Vec::new();
    let mut i: usize = 0;
    assert(views.subrange(0, 0) =~= Seq::<ProjectView>::empty());
    assert(offer_views(offers@) =~= Seq::<OfferView>::empty());
    while i < projects.len()
        invariant
            i <= projects.len(),
            views == project_views(projects@),
            offer_views(offers@) == offers_of(views.subrange(0, i as int)),
        decreases projects.len() - i,
    {
        assert(views.subrange(0, i + 1).drop_last() =~= views.subrange(0, i as int));
        let project = &projects[i];
        let ghost base = offer_views(offers@);
        let ghost rows = project@.worktrees;
        let mut j: usize = 0;
        assert(rows.subrange(0, 0) =~= Seq::<WorktreeView>::empty());
        assert(offer_views(offers@) =~= base + Seq::<OfferView>::empty());
        while j < project.worktrees.len()
            invariant
                j <= project.worktrees.len(),
                rows == project@.worktrees,
                offer_views(offers@) == base + offers_in(project@, rows.subrange(0, j as int)),
            decreases project.worktrees.len() - j,
        {
            let worktree = &project.worktrees[j];
            assert(rows.subrange(0, j + 1).drop_last() =~= rows.subrange(0, j as int));
            let ghost shown = offers_in(project@, rows.subrange(0, j as int));
            let ghost was = offers@;
            if !worktree.session.is_live() && !worktree.is_missing {
                let mut label = project.name.clone();
                label.append(" · ");
                label.append(worktree.label.as_str());
                let offer = Offer {
                    project_id: project.id.clone(),
                    worktree_id: worktree.id.clone(),
                    label,
                };
                offers.push(offer);
                assert(offer_views(offers@) =~= offer_views(was).push(offer@));
                assert((base + shown).push(offer@) =~= base + shown.push(offer@));
            }
            j += 1;
        }
        assert(rows.subrange(0, j as int) =~= rows);
        i += 1;
    }
    assert(views.subrange(0, i as int) =~= views);
    offers
}

/// The heading of the section: how many sessions there are, or nothing where
/// there is neither an orphan nor an ignored one.
pub fn heading(orphans: usize, ignored: usize) -> (r: Option<String>)
    ensures
        orphans == 0 && ignored == 0 ==> r is None,
        !(orphans == 0 && ignored == 0) ==> (r matches Some(line) && line@ == decimal(
            orphans as nat,
        ) + (if orphans == 1 {
            " orphaned session"@
        } else {
            " orphaned sessions"@
        })),
{
    if orphans == 0 && ignored == 0 {
        return None;
    }
    let mut line = number(orphans as u64);
    line.append(if orphans == 1 {
        " orphaned session"
    } else {
        " orphaned sessions"
    });
    Some(line)
}

/// The line that says how many sessions are not reported.
pub fn ignored_line(ignored: usize) -> (r: Option<String>)
    ensures
        r is Some <==> ignored > 0,
        r matches Some(line) ==> line@ == decimal(ignored as nat) + " ignored"@,
{
    if ignored == 0 {
        return None;
    }
    let mut line = number(ignored as u64);
    line.append(" ignored");
    Some(line)
}

/// The session's closing is the one that waits for its confirmation.
pub fn is_armed(orphan: &OrphanSession, armed: Option<&str>) -> (r: bool)
    ensures
        r == (armed matches Some(name) && name@ == orphan.name@),
{
    match armed {
        Some(name) => crate::text::same(name, orphan.name.as_str()),
        None => false,
    }
}

/// The wording of the entry that closes the session.
pub fn close_label(orphan: &OrphanSession, armed: bool) -> (r: String)
    ensures
        r@ == (if armed {
            "Confirm: close "@ + orphan.name@
        } else {
            "Close session…"@
        }),
{
    if armed {
        let mut line = "Confirm: close ".to_owned();
        line.append(orphan.name.as_str());
        line
    } else {
        "Close session…".to_owned()
    }
}

/// An entry of an orphan's menu.
#[derive(Debug, Clone, Copy, PartialEq, Eq, Structural)]
pub enum Choice {
    Open,
    /// Adopt it as the session of the worktree at this place of the offers.
    Associate(usize),
    Ignore,
    Close,
}

/// What is chosen for an orphan.
pub open spec fn asked(orphan: OrphanSession, offers: Seq<Offer>, choice: Choice) -> Option<
    OrphanAction,
> {
    match choice {
        Choice::Open => Some(OrphanAction::Open(orphan.name)),
        Choice::Associate(at) => if at < offers.len() {
            Some(
                OrphanAction::Associate {
                    session: orphan.name,
                    project_id: offers[at as int].project_id,
                    worktree_id: offers[at as int].worktree_id,
                },
            )
        } else {
            None
        },
        Choice::Ignore => Some(OrphanAction::Ignore(orphan.name)),
        Choice::Close => Some(OrphanAction::Close(orphan.name)),
    }
}

/// What is chosen for an orphan. A place beyond the offers asks for nothing.
pub fn row(orphan: &OrphanSession, offers: &Vec<Offer>, choice: Choice) -> (r: Option<OrphanAction>)
    ensures
        r == asked(*orphan, offers@, choice),
{
    match choice {
        Choice::Open => Some(OrphanAction::Open(orphan.name.clone())),
        Choice::Associate(at) => if at < offers.len() {
            Some(
                OrphanAction::Associate {
                    session: orphan.name.clone(),
                    project_id: offers[at].project_id.clone(),
                    worktree_id: offers[at].worktree_id.clone(),
                },
            )
        } else {
            None
        },
        Choice::Ignore => Some(OrphanAction::Ignore(orphan.name.clone())),
        Choice::Close => Some(OrphanAction::Close(orphan.name.clone())),
    }
}

/// What one frame of the section asks for. Where sessions are ignored they can be
/// asked for again, and that counts before anything chosen for one.
pub fn show(
    orphans: &Vec<OrphanSession>,
    ignored: usize,
    offers: &Vec<Offer>,
    chosen: Option<(usize, Choice)>,
    again: bool,
) -> (r: Option<OrphanAction>)
    ensures
        r == (if again && ignored > 0 {
            Some(OrphanAction::ShowIgnored)
        } else {
            match chosen {
                Some((at, choice)) if at < orphans@.len() => asked(
                    orphans@[at as int],
                    offers@,
                    choice,
                ),
                _ => None,
            }
        }),
{
    if again && ignored > 0 {
        return Some(OrphanAction::ShowIgnored);
    }
    match chosen {
        Some((at, choice)) => if at < orphans.len() {
            row(&orphans[at], offers, choice)
        } else {
            None
        },
        None => None,
    }
}

/// Only a worktree without a session of its own that is there is offered one.
pub proof fn offers_are_free(projects: Seq<ProjectView>, k: int)
    requires
        0 <= k < offers_of(projects).len(),
    ensures
        exists|i: int, j: int|
            0 <= i < projects.len() && 0 <= j < projects[i].worktrees.len() && can_adopt(
                #[trigger] projects[i].worktrees[j],
            ) && offers_of(projects)[k].worktree_id == projects[i].worktrees[j].id
                && offers_of(projects)[k].project_id == projects[i].id,
    decreases projects.len(),
{
    let init = projects.drop_last();
    let last = projects.last();
    let before = offers_of(init);
    if k < before.len() {
        offers_are_free(init, k);
        let (i, j) = choose|i: int, j: int|
            0 <= i < init.len() && 0 <= j < init[i].worktrees.len() && can_adopt(
                #[trigger] init[i].worktrees[j],
            ) && before[k].worktree_id == init[i].worktrees[j].id && before[k].project_id
                == init[i].id;
        assert(projects[i].worktrees[j] == init[i].worktrees[j]);
    } else {
        let j = lemma_offer_source(last, last.worktrees, k - before.len());
        let i = projects.len() - 1;
        assert(projects[i].worktrees[j] == last.worktrees[j]);
    }
}

proof fn lemma_offer_source(project: ProjectView, worktrees: Seq<WorktreeView>, k: int) -> (j: int)
    requires
        0 <= k < offers_in(project, worktrees).len(),
    ensures
        0 <= j < worktrees.len(),
        can_adopt(worktrees[j]),
        offers_in(project, worktrees)[k].worktree_id == worktrees[j].id,
        offers_in(project, worktrees)[k].project_id == project.id,
    decreases worktrees.len(),
{
    let init = worktrees.drop_last();
    if k < offers_in(project, init).len() {
        let j = lemma_offer_source(project, init, k);
        assert(init[j] == worktrees[j]);
        j
    } else {
        worktrees.len() - 1
    }
}

}
