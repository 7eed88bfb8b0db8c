//! The rows the window draws, and everything stamped onto them.
//!
//! The statuses, windows and notes that a row shows are derived from caches
//! that outlive the row. Every change of one of them stamps the rows again.
use vstd::prelude::*;
use vstd::string::*;

use crate::model::{
    copy_text, copy_windows, find_project, find_worktree, project_at, project_at_is_first,
    project_views, session_name_of, text_view, worktree_at, worktree_at_is_first, worktree_views,
    Project, ProjectView, SessionPresence, SessionReport, SessionStatus,
    StatusSummary, WindowInfo, Worktree, WorktreeView,
};
use crate::notices::{notes_among, notes_for, notes_without, Notice, Notices, Notification};
use crate::status_watch::WorktreeLabel;
use crate::state::{has_session, record_at, slot_of, ProjectRecord, State};
use crate::table::Table;
use crate::text::{decimal, number};

verus! {

/// Something that is written onto every row.
pub enum Stamp<'a> {
    /// Which sessions are running, by session name.
    Presence(&'a Table<SessionPresence>),
    /// What git said, by worktree.
    Git(&'a Table<StatusSummary>),
    /// Which sessions there have been.
    Stopped(&'a State),
    /// The statuses of the last poll, by worktree.
    Status(&'a Table<SessionReport>),
    /// The windows of the last poll, by session name.
    Windows(&'a Table<Vec<WindowInfo>>),
    /// What agents have said in their windows.
    Notes(&'a Notices),
}

impl<'a> Stamp<'a> {
    /// The row with the stamp on it.
    pub open spec fn on(self, w: WorktreeView) -> WorktreeView {
        match self {
            Stamp::Presence(presence) => WorktreeView {
                session: if presence@.contains_key(session_name_of(w.id)) {
                    presence@[session_name_of(w.id)]
                } else {
                    SessionPresence::Absent
                },
                ..w
            },
            Stamp::Git(statuses) => WorktreeView {
                git_status: if statuses@.contains_key(w.id) {
                    Some(statuses@[w.id])
                } else {
                    w.git_status
                },
                ..w
            },
            Stamp::Stopped(state) => WorktreeView {
                session_stopped: !w.session.live() && has_session(state.sessions@, w.id),
                ..w
            },
            Stamp::Status(statuses) => WorktreeView {
                status: if w.session.live() && statuses@.contains_key(w.id) {
                    Some(statuses@[w.id].status)
                } else {
                    None
                },
                ..w
            },
            Stamp::Windows(windows) => WorktreeView {
                windows: if w.session.live() && windows@.contains_key(session_name_of(w.id)) {
                    windows@[session_name_of(w.id)]@
                } else {
                    Seq::empty()
                },
                ..w
            },
            Stamp::Notes(notices) => WorktreeView {
                window_notes: notes_for(notices.windows@, w.id, w.windows),
                ..w
            },
        }
    }

    /// A project with the stamp on each of its rows.
    pub open spec fn on_project(self, p: ProjectView) -> ProjectView {
        ProjectView { worktrees: p.worktrees.map_values(|w: WorktreeView| self.on(w)), ..p }
    }

    /// The projects with the stamp on every row.
    pub open spec fn on_all(self, projects: Seq<ProjectView>) -> Seq<ProjectView> {
        projects.map_values(|p: ProjectView| self.on_project(p))
    }

    fn put_on(&self, worktree: &mut Worktree)
        ensures
            final(worktree)@ == self.on(old(worktree)@),
    {
        match self {
            Stamp::Presence(presence) => {
                let name = worktree.session_name();
                worktree.session = match presence.get(name.as_str()) {
                    Some(found) => *found,
                    None => SessionPresence::Absent,
                };
            },
            Stamp::Git(statuses) => {
                match statuses.get(worktree.id.as_str()) {
                    Some(status) => {
                        worktree.git_status = Some(status.clone());
                    },
                    None => {},
                }
            },
            Stamp::Stopped(state) => {
                worktree.session_stopped = !worktree.session.is_live() && state.has_session(
                    worktree.id.as_str(),
                );
            },
            Stamp::Status(statuses) => {
                worktree.status = if worktree.session.is_live() {
                    match statuses.get(worktree.id.as_str()) {
                        Some(report) => Some(report.status),
                        None => None,
                    }
                } else {
                    None
                };
            },
            Stamp::Windows(windows) => {
                let name = worktree.session_name();
                worktree.windows = if worktree.session.is_live() {
                    match windows.get(name.as_str()) {
                        Some(found) => copy_windows(found),
                        None => Vec::new(),
                    }
                } else {
                    Vec::new()
                };
            },
            Stamp::Notes(notices) => {
                worktree.window_notes = notices.window_notes(
                    worktree.id.as_str(),
                    &worktree.windows,
                );
            },
        }
    }

    fn put_on_rows(&self, worktrees: &mut Vec<Worktree>)
        ensures
            worktree_views(final(worktrees)@) == worktree_views(old(worktrees)@).map_values(
                |w: WorktreeView| self.on(w),
            ),
    {
        let ghost before = worktree_views(worktrees@);
        let n: usize = worktrees.len();
        let mut i: usize = 0;
        while i < n
            invariant
                i <= n,
                n == worktrees.len(),
                n == before.len(),
                forall|k: int| 0 <= k < i ==> (#[trigger] worktrees@[k])@ == self.on(before[k]),
                forall|k: int| i <= k < n ==> (#[trigger] worktrees@[k])@ == before[k],
            decreases n - i,
        {
            self.put_on(&mut worktrees[i]);
            i += 1;
        }
        assert(worktree_views(worktrees@) =~= before.map_values(|w: WorktreeView| self.on(w)));
    }

    fn put_on_projects(&self, projects: &mut Vec<Project>)
        ensures
            project_views(final(projects)@) == self.on_all(project_views(old(projects)@)),
    {
        let ghost before = project_views(projects@);
        let n: usize = projects.len();
        let mut i: usize = 0;
        while i < n
            invariant
                i <= n,
                n == projects.len(),
                n == before.len(),
                forall|k: int| 0 <= k < i ==> (#[trigger] projects@[k])@ == self.on_project(before[k]),
                forall|k: int| i <= k < n ==> (#[trigger] projects@[k])@ == before[k],
            decreases n - i,
        {
            self.put_on_rows(&mut projects[i].worktrees);
            i += 1;
        }
        assert(project_views(projects@) =~= self.on_all(before));
    }
}

/// The rows, and what is stamped onto them.
pub struct Rows {
    /// The rows themselves, in list order.
    pub projects: Vec<Project>,
    /// The service's last snapshot of what is remembered.
    pub state: State,
    /// Last polled status per worktree id.
    pub statuses: Table<SessionReport>,
    /// Last known windows per session name.
    pub windows: Table<Vec<WindowInfo>>,
    /// What agents last said, per worktree and per window.
    pub notices: Notices,
}

/// The rows with every stamp on them: the sessions that stopped, the statuses,
/// the windows and the notes on the windows.
pub open spec fn restamped(
    projects: Seq<ProjectView>,
    state: State,
    statuses: Table<SessionReport>,
    windows: Table<Vec<WindowInfo>>,
    notices: Notices,
) -> Seq<ProjectView> {
    let stopped = Stamp::Stopped(&state).on_all(projects);
    let status = Stamp::Status(&statuses).on_all(stopped);
    let windowed = Stamp::Windows(&windows).on_all(status);
    Stamp::Notes(&notices).on_all(windowed)
}

impl Rows {
    pub open spec fn view_projects(self) -> Seq<ProjectView> {
        project_views(self.projects@)
    }

    /// A project was opened: its row took the place of one already there, or joined
    /// the list, everything was stamped again, and the line says which.
    pub open spec fn project_added(self, after: Rows, project: ProjectView, line: Seq<char>) -> bool {
        &&& match project_at(self.view_projects(), project.id) {
            Some(i) => {
                &&& after.view_projects() == restamped(
                    self.view_projects().update(i, project),
                    self.state,
                    self.statuses,
                    self.windows,
                    self.notices,
                )
                &&& line == project.name + " is already open"@
            },
            None => {
                &&& after.view_projects() == restamped(
                    self.view_projects().push(project),
                    self.state,
                    self.statuses,
                    self.windows,
                    self.notices,
                )
                &&& line == "Registered "@ + project.name + " ("@ + decimal(
                    project.worktrees.len(),
                ) + " worktrees)"@
            },
        }
        &&& after.state == self.state
        &&& after.statuses == self.statuses
        &&& after.windows == self.windows
        &&& after.notices == self.notices
    }

    /// One project's rows were replaced and everything was stamped again.
    pub open spec fn refreshed(
        self,
        after: Rows,
        project_id: Seq<char>,
        worktrees: Seq<WorktreeView>,
    ) -> bool {
        &&& after.view_projects() == restamped(
            (match project_at(self.view_projects(), project_id) {
                Some(i) => self.view_projects().update(
                    i,
                    ProjectView {
                        worktrees,
                        unavailable: None,
                        ..self.view_projects()[i]
                    },
                ),
                None => self.view_projects(),
            }),
            self.state,
            self.statuses,
            self.windows,
            self.notices,
        )
        &&& after.state == self.state
        &&& after.statuses == self.statuses
        &&& after.windows == self.windows
        &&& after.notices == self.notices
    }

    /// What git said was stamped onto one project's rows.
    pub open spec fn git_applied(
        self,
        after: Rows,
        project_id: Seq<char>,
        statuses: Table<StatusSummary>,
    ) -> bool {
        &&& after.view_projects() == (match project_at(
            self.view_projects(),
            project_id,
        ) {
            Some(i) => self.view_projects().update(
                i,
                Stamp::Git(&statuses).on_project(self.view_projects()[i]),
            ),
            None => self.view_projects(),
        })
        &&& after.state == self.state
        &&& after.statuses == self.statuses
        &&& after.windows == self.windows
        &&& after.notices == self.notices
    }

    /// Which sessions run was stamped onto the rows, and then everything else.
    pub open spec fn presence_applied(self, after: Rows, presence: Table<SessionPresence>) -> bool {
        &&& after.view_projects() == restamped(
            Stamp::Presence(&presence).on_all(self.view_projects()),
            self.state,
            self.statuses,
            self.windows,
            self.notices,
        )
        &&& after.state == self.state
        &&& after.statuses == self.statuses
        &&& after.windows == self.windows
        &&& after.notices == self.notices
    }

    /// The statuses of a poll took the place of the last ones.
    pub open spec fn statuses_set(self, after: Rows, statuses: Table<SessionReport>) -> bool {
        &&& after.view_projects() == Stamp::Status(&statuses).on_all(
            self.view_projects(),
        )
        &&& after.state == self.state
        &&& after.statuses == statuses
        &&& after.windows == self.windows
        &&& after.notices == self.notices
    }

    /// The windows of a poll took the place of the last ones.
    pub open spec fn windows_set(self, after: Rows, windows: Table<Vec<WindowInfo>>) -> bool {
        &&& after.view_projects() == Stamp::Notes(&self.notices).on_all(
            Stamp::Windows(&windows).on_all(self.view_projects()),
        )
        &&& after.state == self.state
        &&& after.statuses == self.statuses
        &&& after.windows == windows
        &&& after.notices == self.notices
    }

    /// The last reading of a worktree was dropped, and everything was stamped again.
    pub open spec fn forgot(self, after: Rows, worktree_id: Seq<char>) -> bool {
        &&& after.statuses@ == self.statuses@.remove(worktree_id)
        &&& after.view_projects() == restamped(
            self.view_projects(),
            self.state,
            after.statuses,
            self.windows,
            self.notices,
        )
        &&& after.state == self.state
        &&& after.windows == self.windows
        &&& after.notices == self.notices
    }

    /// An agent's report was applied.
    pub open spec fn noted(self, after: Rows, notification: Notification) -> bool {
        &&& notices_noted(self.notices, after.notices, notification)
        &&& after.statuses@ == statuses_noted(
            self.statuses@,
            notification.worktree_id@,
            notification.state,
        )
        &&& after.view_projects() == Stamp::Notes(&after.notices).on_all(
            self.view_projects().map_values(
                |p: ProjectView| project_noted(p, notification),
            ),
        )
        &&& after.state == self.state
        &&& after.windows == self.windows
    }

    /// Everything that was held about a worktree's attention was dropped.
    pub open spec fn attention_cleared(self, after: Rows, worktree_id: Seq<char>) -> bool {
        &&& after.statuses@ == self.statuses@.remove(worktree_id)
        &&& after.notices.worktrees@ == self.notices.worktrees@.remove(worktree_id)
        &&& after.notices.windows@ == notes_without(
            self.notices.windows@,
            worktree_id,
            None,
        )
        &&& after.view_projects() == self.view_projects().map_values(
            |p: ProjectView| project_cleared(p, worktree_id),
        )
        &&& after.state == self.state
        &&& after.windows == self.windows
    }

    /// A snapshot of what is remembered was taken in.
    pub open spec fn state_taken(self, after: Rows, state: State, bootstrap: bool) -> bool {
        &&& after.view_projects() == Stamp::Stopped(&state).on_all(
            rows_of_state(self.view_projects(), state.projects@, bootstrap),
        )
        &&& after.state == state
        &&& after.statuses == self.statuses
        &&& after.windows == self.windows
        &&& after.notices == self.notices
    }

    /// A pass over the repositories and the sessions was taken in.
    pub open spec fn reconciled(self, after: Rows, projects: Seq<ProjectStatus>, state: State) -> bool {
        &&& ({
            let rows = rows_reconciled(self.view_projects(), projects);
            &&& after.view_projects() == restamped(
                rows,
                state,
                self.statuses,
                self.windows,
                after.notices,
            )
            &&& after.notices.worktrees@ == self.notices.worktrees@.restrict(
                listed_ids(rows),
            )
            &&& after.notices.windows@ == notes_among(
                self.notices.windows@,
                listed_ids(rows),
            )
        })
        &&& after.state == state
        &&& after.statuses == self.statuses
        &&& after.windows == self.windows
    }

    /// The row a number points at, as (project id, worktree id).
    pub open spec fn target(self, slot: u8) -> Option<(Seq<char>, Seq<char>)> {
        match slot_of(self.state.slots@, slot) {
            None => None,
            Some(id) => match holder_at(self.view_projects(), id) {
                None => None,
                Some(i) => Some((self.view_projects()[i].id, id)),
            },
        }
    }

    fn restamp(&mut self)
        ensures
            final(self).view_projects() == restamped(
                old(self).view_projects(),
                old(self).state,
                old(self).statuses,
                old(self).windows,
                old(self).notices,
            ),
            final(self).state == old(self).state,
            final(self).statuses == old(self).statuses,
            final(self).windows == old(self).windows,
            final(self).notices == old(self).notices,
    {
        Stamp::Stopped(&self.state).put_on_projects(&mut self.projects);
        Stamp::Status(&self.statuses).put_on_projects(&mut self.projects);
        Stamp::Windows(&self.windows).put_on_projects(&mut self.projects);
        Stamp::Notes(&self.notices).put_on_projects(&mut self.projects);
    }

    /// No rows, and nothing to stamp onto them.
    pub fn new() -> (r: Rows)
        ensures
            r.view_projects() == Seq::<ProjectView>::empty(),
            r.statuses@ == Map::<Seq<char>, SessionReport>::empty(),
            r.windows@ == Map::<Seq<char>, Vec<WindowInfo>>::empty(),
            r.notices.worktrees@ == Map::<Seq<char>, Notice>::empty(),
            r.notices.windows@.len() == 0,
            r.state.projects@.len() == 0,
            r.state.sessions@.len() == 0,
            r.state.agents@.len() == 0,
            r.state.slots@.len() == 0,
            r.state.ignored_sessions@.len() == 0,
    {
        let r = Rows {
            projects: Vec::new(),
            state: State::new(),
            statuses: Table::new(),
            windows: Table::new(),
            notices: Notices::new(),
        };
        assert(r.view_projects() =~= Seq::<ProjectView>::empty());
        r
    }

    pub fn project(&self, project_id: &str) -> (r: Option<&Project>)
        ensures
            r == (match project_at(self.view_projects(), project_id@) {
                Some(i) => Some(&self.projects@[i]),
                None => None,
            }),
    {
        match find_project(&self.projects, project_id) {
            Some(i) => Some(&self.projects[i]),
            None => None,
        }
    }

    /// The worktree a (project, worktree) pair names, if both still exist. An id
    /// that names nothing under that project finds nothing.
    pub fn worktree(&self, project_id: &str, worktree_id: &str) -> (r: Option<&Worktree>)
        ensures
            r == (match project_at(self.view_projects(), project_id@) {
                Some(i) => match worktree_at(self.view_projects()[i].worktrees, worktree_id@) {
                    Some(j) => Some(&self.projects@[i].worktrees@[j]),
                    None => None,
                },
                None => None,
            }),
    {
        match find_project(&self.projects, project_id) {
            Some(i) => match find_worktree(&self.projects[i].worktrees, worktree_id) {
                Some(j) => Some(&self.projects[i].worktrees[j]),
                None => None,
            },
            None => None,
        }
    }

    /// Registers a project, or replaces the rows of one already open; what was
    /// polled of the rows is stamped onto them. Hands back the line to show for it.
    pub fn add_project(&mut self, project: Project) -> (r: String)
        ensures
            old(self).project_added(*final(self), project@, r@),
    {
        let ghost before = self.view_projects();
        match find_project(&self.projects, project.id.as_str()) {
            Some(i) => {
                let mut line = project.name.clone();
                line.append(" is already open");
                self.projects[i] = project;
                assert(self.view_projects() =~= before.update(i as int, project@));
                self.restamp();
                line
            },
            None => {
                let mut line = "Registered ".to_owned();
                line.append(project.name.as_str());
                line.append(" (");
                line.append(number(project.worktrees.len() as u64).as_str());
                line.append(" worktrees)");
                self.projects.push(project);
                assert(self.view_projects() =~= before.push(project@));
                self.restamp();
                line
            },
        }
    }

    /// Replaces one project's rows with a freshly listed set: the project is
    /// there after all, and what was polled of the rows is stamped onto them.
    pub fn refresh_worktrees(&mut self, project_id: &str, worktrees: Vec<Worktree>)
        ensures
            old(self).refreshed(*final(self), project_id@, worktree_views(worktrees@)),
    {
        let ghost before = self.view_projects();
        match find_project(&self.projects, project_id) {
            Some(i) => {
                self.projects[i].worktrees = worktrees;
                self.projects[i].unavailable = None;
                assert(self.view_projects() =~= before.update(
                    i as int,
                    ProjectView {
                        worktrees: worktree_views(worktrees@),
                        unavailable: None,
                        ..before[i as int]
                    },
                ));
            },
            None => {},
        }
        self.restamp();
    }

    /// Stamps what git said onto one project's rows. A worktree with no reading
    /// keeps what it had.
    pub fn apply_git_statuses(&mut self, project_id: &str, statuses: &Table<StatusSummary>)
        ensures
            old(self).git_applied(*final(self), project_id@, *statuses),
    {
        let ghost before = self.view_projects();
        match find_project(&self.projects, project_id) {
            Some(i) => {
                Stamp::Git(statuses).put_on_rows(&mut self.projects[i].worktrees);
                assert(self.view_projects() =~= before.update(
                    i as int,
                    Stamp::Git(statuses).on_project(before[i as int]),
                ));
            },
            None => {},
        }
    }

    /// Takes in which sessions are running. A row that lost its session loses its
    /// status and its windows with it.
    pub fn apply_presence(&mut self, presence: &Table<SessionPresence>)
        ensures
            old(self).presence_applied(*final(self), *presence),
    {
        Stamp::Presence(presence).put_on_projects(&mut self.projects);
        self.restamp();
    }

    pub fn set_statuses(&mut self, statuses: Table<SessionReport>)
        ensures
            old(self).statuses_set(*final(self), statuses),
    {
        self.statuses = statuses;
        Stamp::Status(&self.statuses).put_on_projects(&mut self.projects);
    }

    pub fn set_windows(&mut self, windows: Table<Vec<WindowInfo>>)
        ensures
            old(self).windows_set(*final(self), windows),
    {
        self.windows = windows;
        Stamp::Windows(&self.windows).put_on_projects(&mut self.projects);
        Stamp::Notes(&self.notices).put_on_projects(&mut self.projects);
    }

    /// Forgets the last reading of a worktree whose session or worktree has just
    /// been removed: its row shows it no longer.
    pub fn forget(&mut self, worktree_id: &str)
        ensures
            old(self).forgot(*final(self), worktree_id@),
    {
        self.statuses.remove(worktree_id);
        self.restamp();
    }
}

/// A row as an agent's report leaves it: the message is taken over; attention
/// and done show at once where a session runs, and done does not answer a
/// raised attention.
pub open spec fn row_noted(w: WorktreeView, notification: Notification) -> WorktreeView {
    let said = WorktreeView { status_message: text_view(notification.message), ..w };
    if notification.state == SessionStatus::Attention && w.session.live() {
        WorktreeView {
            status: Some(SessionStatus::Attention),
            attention_reason: notification.reason,
            ..said
        }
    } else if notification.state == SessionStatus::Done && w.session.live() && w.status != Some(
        SessionStatus::Attention,
    ) {
        WorktreeView { status: Some(SessionStatus::Done), ..said }
    } else {
        said
    }
}

/// A row with nothing left of what its attention was carrying.
pub open spec fn row_cleared(w: WorktreeView) -> WorktreeView {
    WorktreeView {
        status: None,
        status_message: None,
        attention_reason: None,
        window_notes: Seq::empty(),
        ..w
    }
}

/// The project with its row of that worktree changed.
pub open spec fn project_noted(p: ProjectView, notification: Notification) -> ProjectView {
    match worktree_at(p.worktrees, notification.worktree_id@) {
        Some(i) => ProjectView {
            worktrees: p.worktrees.update(i, row_noted(p.worktrees[i], notification)),
            ..p
        },
        None => p,
    }
}

pub open spec fn project_cleared(p: ProjectView, worktree_id: Seq<char>) -> ProjectView {
    match worktree_at(p.worktrees, worktree_id) {
        Some(i) => ProjectView {
            worktrees: p.worktrees.update(i, row_cleared(p.worktrees[i])),
            ..p
        },
        None => p,
    }
}

/// The cached status as a report leaves it: attention and done are taken over,
/// and done does not answer a raised attention. What else the last poll read
/// stays.
pub open spec fn statuses_noted(
    statuses: Map<Seq<char>, SessionReport>,
    id: Seq<char>,
    state: SessionStatus,
) -> Map<Seq<char>, SessionReport> {
    let report = if statuses.contains_key(id) {
        statuses[id]
    } else {
        SessionReport { status: SessionStatus::Idle, usage: None, cpu: None }
    };
    if state == SessionStatus::Attention || (state == SessionStatus::Done && report.status
        != SessionStatus::Attention) {
        statuses.insert(id, SessionReport { status: state, ..report })
    } else if state == SessionStatus::Done {
        statuses.insert(id, report)
    } else {
        statuses
    }
}

/// The notices as a report leaves them.
pub open spec fn notices_noted(
    before: Notices,
    after: Notices,
    notification: Notification,
) -> bool {
    &&& after.worktrees@ == before.worktrees@.insert(
        notification.worktree_id@,
        Notice {
            state: notification.state,
            reason: notification.reason,
            message: notification.message,
        },
    )
    &&& match notification.window {
        Some(index) => {
            let kept = notes_without(before.windows@, notification.worktree_id@, Some(index));
            after.windows@.len() == kept.len() + 1 && after.windows@.drop_last() == kept
                && after.windows@.last().0@ == notification.worktree_id@
                && after.windows@.last().1.index == index && after.windows@.last().1.state
                == notification.state && after.windows@.last().1.reason == notification.reason
                && after.windows@.last().1.message == notification.message
        },
        None => after.windows@ == before.windows@,
    }
}

fn note_rows(projects: &mut Vec<Project>, notification: &Notification)
    ensures
        project_views(final(projects)@) == project_views(old(projects)@).map_values(
            |p: ProjectView| project_noted(p, *notification),
        ),
{
    let ghost before = project_views(projects@);
    let n: usize = projects.len();
    let mut i: usize = 0;
    while i < n
        invariant
            i <= n,
            n == projects.len(),
            n == before.len(),
            forall|k: int| 0 <= k < i ==> (#[trigger] projects@[k])@ == project_noted(
                before[k],
                *notification,
            ),
            forall|k: int| i <= k < n ==> (#[trigger] projects@[k])@ == before[k],
        decreases n - i,
    {
        match find_worktree(&projects[i].worktrees, notification.worktree_id.as_str()) {
            Some(j) => {
                let ghost rows = before[i as int].worktrees;
                let worktree = &mut projects[i].worktrees[j];
                worktree.status_message = copy_text(&notification.message);
                let was_attention = match worktree.status {
                    Some(SessionStatus::Attention) => true,
                    _ => false,
                };
                if notification.state == SessionStatus::Attention && worktree.session.is_live() {
                    worktree.status = Some(SessionStatus::Attention);
                    worktree.attention_reason = notification.reason;
                }
                if notification.state == SessionStatus::Done && worktree.session.is_live()
                    && !was_attention {
                    worktree.status = Some(SessionStatus::Done);
                }
                assert(worktree_views(projects@[i as int].worktrees@) =~= rows.update(
                    j as int,
                    row_noted(rows[j as int], *notification),
                ));
            },
            None => {},
        }
        i += 1;
    }
    assert(project_views(projects@) =~= before.map_values(
        |p: ProjectView| project_noted(p, *notification),
    ));
}

fn clear_rows(projects: &mut Vec<Project>, worktree_id: &str)
    ensures
        project_views(final(projects)@) == project_views(old(projects)@).map_values(
            |p: ProjectView| project_cleared(p, worktree_id@),
        ),
{
    let ghost before = project_views(projects@);
    let n: usize = projects.len();
    let mut i: usize = 0;
    while i < n
        invariant
            i <= n,
            n == projects.len(),
            n == before.len(),
            forall|k: int| 0 <= k < i ==> (#[trigger] projects@[k])@ == project_cleared(
                before[k],
                worktree_id@,
            ),
            forall|k: int| i <= k < n ==> (#[trigger] projects@[k])@ == before[k],
        decreases n - i,
    {
        match find_worktree(&projects[i].worktrees, worktree_id) {
            Some(j) => {
                let ghost rows = before[i as int].worktrees;
                let worktree = &mut projects[i].worktrees[j];
                worktree.status = None;
                worktree.status_message = None;
                worktree.attention_reason = None;
                worktree.window_notes.clear();
                assert(worktree_views(projects@[i as int].worktrees@) =~= rows.update(
                    j as int,
                    row_cleared(rows[j as int]),
                ));
            },
            None => {},
        }
        i += 1;
    }
    assert(project_views(projects@) =~= before.map_values(
        |p: ProjectView| project_cleared(p, worktree_id@),
    ));
}

impl Rows {
    /// An agent's report, applied to the rows straight away.
    pub fn apply_notification(&mut self, notification: &Notification)
        ensures
            old(self).noted(*final(self), *notification),
    {
        self.notices.record(notification);
        proof {
            if let Some(index) = notification.window {
                let kept = notes_without(
                    old(self).notices.windows@,
                    notification.worktree_id@,
                    Some(index),
                );
                assert(self.notices.windows@.drop_last() =~= kept);
            }
        }
        let id = notification.worktree_id.as_str();
        if notification.state == SessionStatus::Attention || notification.state
            == SessionStatus::Done {
            let mut report = match self.statuses.get(id) {
                Some(report) => *report,
                None => SessionReport { status: SessionStatus::Idle, usage: None, cpu: None },
            };
            if !(notification.state == SessionStatus::Done && report.status
                == SessionStatus::Attention) {
                report.status = notification.state;
            }
            self.statuses.insert(notification.worktree_id.clone(), report);
        }
        note_rows(&mut self.projects, notification);
        Stamp::Notes(&self.notices).put_on_projects(&mut self.projects);
    }

    /// Drops everything that was held about a worktree the user has just opened.
    pub fn clear_attention(&mut self, worktree_id: &str)
        ensures
            old(self).attention_cleared(*final(self), worktree_id@),
    {
        self.statuses.remove(worktree_id);
        self.notices.clear(worktree_id);
        clear_rows(&mut self.projects, worktree_id);
    }
}

/// The row a record describes, before git has been asked.
pub open spec fn project_of(record: ProjectRecord) -> ProjectView {
    ProjectView {
        id: record.id@,
        name: record.name@,
        repository_path: record.repository_path@,
        git_common_dir: record.git_common_dir@,
        default_worktree_path: record.default_worktree_path@,
        is_expanded: record.is_expanded,
        worktrees: Seq::empty(),
        unavailable: None,
    }
}

/// The row with what its record says; its worktrees stay.
pub open spec fn project_updated(p: ProjectView, record: ProjectRecord) -> ProjectView {
    ProjectView { worktrees: p.worktrees, unavailable: p.unavailable, id: p.id, ..project_of(record) }
}

/// The rows that still have a record, each with what its record says.
pub open spec fn rows_kept(projects: Seq<ProjectView>, records: Seq<ProjectRecord>) -> Seq<
    ProjectView,
>
    decreases projects.len(),
{
    if projects.len() == 0 {
        Seq::empty()
    } else {
        let before = rows_kept(projects.drop_last(), records);
        match record_at(records, projects.last().id) {
            Some(i) => before.push(project_updated(projects.last(), records[i])),
            None => before,
        }
    }
}

/// The rows, and after them a row for every record that had none.
pub open spec fn rows_joined(projects: Seq<ProjectView>, records: Seq<ProjectRecord>) -> Seq<
    ProjectView,
>
    decreases records.len(),
{
    if records.len() == 0 {
        projects
    } else {
        let before = rows_joined(projects, records.drop_last());
        if project_at(before, records.last().id@) is Some {
            before
        } else {
            before.push(project_of(records.last()))
        }
    }
}

/// The rows as a snapshot of what is remembered leaves them.
pub open spec fn rows_of_state(
    projects: Seq<ProjectView>,
    records: Seq<ProjectRecord>,
    bootstrap: bool,
) -> Seq<ProjectView> {
    if bootstrap {
        records.map_values(|r: ProjectRecord| project_of(r))
    } else {
        rows_joined(rows_kept(projects, records), records)
    }
}

/// What one pass over the repositories and sessions found of a project.
#[derive(Debug, PartialEq, Eq)]
pub struct ProjectStatus {
    pub id: String,
    pub name: String,
    pub unavailable: Option<String>,
    pub worktrees: Vec<Worktree>,
}

/// A row as a pass over its project leaves it: an unreadable project keeps the
/// worktrees it last had.
pub open spec fn project_reconciled(p: ProjectView, status: ProjectStatus) -> ProjectView {
    ProjectView {
        unavailable: text_view(status.unavailable),
        worktrees: if status.unavailable is None {
            worktree_views(status.worktrees@)
        } else {
            p.worktrees
        },
        ..p
    }
}

/// The rows as a pass leaves them. What the pass says of projects without a row
/// is passed over, and a row it says nothing of stays as it is.
pub open spec fn rows_reconciled(projects: Seq<ProjectView>, statuses: Seq<ProjectStatus>) -> Seq<
    ProjectView,
>
    decreases statuses.len(),
{
    if statuses.len() == 0 {
        projects
    } else {
        let before = rows_reconciled(projects, statuses.drop_last());
        match project_at(before, statuses.last().id@) {
            Some(i) => before.update(i, project_reconciled(before[i], statuses.last())),
            None => before,
        }
    }
}

/// Some project lists the worktree.
pub open spec fn is_listed(projects: Seq<ProjectView>, worktree_id: Seq<char>) -> bool {
    exists|i: int|
        0 <= i < projects.len() && worktree_at((#[trigger] projects[i]).worktrees, worktree_id)
            is Some
}

/// The ids of the worktrees that are listed.
pub open spec fn listed_ids(projects: Seq<ProjectView>) -> Set<Seq<char>> {
    Set::new(|id: Seq<char>| is_listed(projects, id))
}

fn project_from(record: &ProjectRecord) -> (r: Project)
    ensures
        r@ == project_of(*record),
{
    let r = Project {
        id: record.id.clone(),
        name: record.name.clone(),
        repository_path: record.repository_path.clone(),
        git_common_dir: record.git_common_dir.clone(),
        default_worktree_path: record.default_worktree_path.clone(),
        is_expanded: record.is_expanded,
        worktrees: Vec::new(),
        unavailable: None,
    };
    assert(r@.worktrees =~= Seq::<WorktreeView>::empty());
    r
}

fn keep_recorded(projects: Vec<Project>, state: &State) -> (r: Vec<Project>)
    ensures
        project_views(r@) == rows_kept(project_views(projects@), state.projects@),
{
    let ghost before = project_views(projects@);
    let mut kept: Vec<Project> = Vec::new();
    assert(before.subrange(0, 0) =~= Seq::<ProjectView>::empty());
    assert(project_views(kept@) =~= Seq::<ProjectView>::empty());
    for project in it: projects
        invariant
            before == project_views(it.seq()),
            project_views(kept@) == rows_kept(
                before.subrange(0, it.index() as int),
                state.projects@,
            ),
    {
        let ghost n = it.index() as int;
        assert(before.subrange(0, n + 1).drop_last() =~= before.subrange(0, n));
        assert(before.subrange(0, n + 1).last() == project@);
        let ghost was = kept@;
        if let Some(record) = state.find(project.id.as_str()) {
            let mut updated = project;
            updated.name = record.name.clone();
            updated.repository_path = record.repository_path.clone();
            updated.git_common_dir = record.git_common_dir.clone();
            updated.default_worktree_path = record.default_worktree_path.clone();
            updated.is_expanded = record.is_expanded;
            assert(updated@ == project_updated(project@, *record));
            kept.push(updated);
            assert(project_views(kept@) =~= project_views(was).push(updated@));
        }
    }
    assert(before.subrange(0, before.len() as int) =~= before);
    kept
}

/// The ids of the listed worktrees, as a table.
fn live_ids(projects: &Vec<Project>) -> (r: Table<bool>)
    ensures
        r@.dom() == listed_ids(project_views(projects@)),
{
    let ghost views = project_views(projects@);
    let mut live: Table<bool> = Table::new();
    let mut i: usize = 0;
    while i < projects.len()
        invariant
            i <= projects.len(),
            views == project_views(projects@),
            forall|id: Seq<char>|
                #![trigger live@.contains_key(id)]
                live@.contains_key(id) <==> is_listed(views.subrange(0, i as int), id),
        decreases projects.len() - i,
    {
        let ghost rows = views[i as int].worktrees;
        let ghost past = views.subrange(0, i as int);
        let ghost here = views.subrange(0, i + 1);
        let mut j: usize = 0;
        while j < projects[i as usize].worktrees.len()
            invariant
                i < projects.len(),
                j <= projects@[i as int].worktrees.len(),
                views == project_views(projects@),
                rows == views[i as int].worktrees,
                forall|id: Seq<char>|
                    #![trigger live@.contains_key(id)]
                    live@.contains_key(id) <==> (is_listed(past, id) || exists|k: int|
                        0 <= k < j && (#[trigger] rows[k]).id == id),
            decreases projects@[i as int].worktrees.len() - j,
        {
            let ghost was = live@;
            assert(rows[j as int].id == projects@[i as int].worktrees@[j as int].id@);
            live.insert(projects[i].worktrees[j].id.clone(), true);
            proof {
                assert forall|id: Seq<char>| #[trigger] live@.contains_key(id) <==> (is_listed(
                    past,
                    id,
                ) || exists|k: int| 0 <= k < j + 1 && (#[trigger] rows[k]).id == id) by {
                    assert(was.contains_key(id) <==> (is_listed(past, id) || exists|k: int|
                        0 <= k < j && (#[trigger] rows[k]).id == id));
                    if id == rows[j as int].id {
                        assert(rows[j as int].id == id);
                    }
                }
            }
            j += 1;
        }
        proof {
            assert forall|id: Seq<char>| #[trigger] live@.contains_key(id) <==> is_listed(
                here,
                id,
            ) by {
                worktree_at_is_first(rows, id);
                assert(here[i as int] == views[i as int]);
                if is_listed(past, id) {
                    let w = choose|w: int|
                        0 <= w < past.len() && worktree_at((#[trigger] past[w]).worktrees, id)
                            is Some;
                    assert(here[w] == past[w]);
                }
                if is_listed(here, id) && worktree_at(rows, id) is None {
                    let w = choose|w: int|
                        0 <= w < here.len() && worktree_at((#[trigger] here[w]).worktrees, id)
                            is Some;
                    assert(here[w] == past[w]);
                }
            }
        }
        i += 1;
    }
    assert(views.subrange(0, i as int) =~= views);
    assert(live@.dom() =~= listed_ids(views)) by {
        assert forall|id: Seq<char>| live@.dom().contains(id) <==> listed_ids(views).contains(
            id,
        ) by {
            assert(live@.contains_key(id) <==> is_listed(views, id));
        }
    }
    live
}

impl Rows {
    /// Takes in a snapshot of what is remembered. At the start this makes the
    /// rows; later the rows keep what git and the sessions said of them.
    pub fn apply_daemon_state(&mut self, state: State, bootstrap: bool)
        ensures
            old(self).state_taken(*final(self), state, bootstrap),
    {
        let ghost records = state.projects@;
        if bootstrap {
            let mut fresh: Vec<Project> = Vec::new();
            let mut i: usize = 0;
            while i < state.projects.len()
                invariant
                    i <= state.projects.len(),
                    records == state.projects@,
                    fresh.len() == i,
                    forall|k: int| 0 <= k < i ==> (#[trigger] fresh@[k])@ == project_of(records[k]),
                decreases state.projects.len() - i,
            {
                fresh.push(project_from(&state.projects[i]));
                i += 1;
            }
            assert(project_views(fresh@) =~= records.map_values(
                |r: ProjectRecord| project_of(r),
            ));
            self.projects = fresh;
        } else {
            let mut projects: Vec<Project> = Vec::new();
            std::mem::swap(&mut projects, &mut self.projects);
            let ghost kept = rows_kept(project_views(projects@), records);
            let mut rows = keep_recorded(projects, &state);
            let mut i: usize = 0;
            assert(records.subrange(0, 0) =~= Seq::<ProjectRecord>::empty());
            while i < state.projects.len()
                invariant
                    i <= state.projects.len(),
                    records == state.projects@,
                    project_views(rows@) == rows_joined(kept, records.subrange(0, i as int)),
                decreases state.projects.len() - i,
            {
                assert(records.subrange(0, i + 1).drop_last() =~= records.subrange(0, i as int));
                if find_project(&rows, state.projects[i].id.as_str()).is_none() {
                    let ghost was = rows@;
                    rows.push(project_from(&state.projects[i]));
                    assert(project_views(rows@) =~= project_views(was).push(
                        project_of(records[i as int]),
                    ));
                }
                i += 1;
            }
            assert(records.subrange(0, i as int) =~= records);
            self.projects = rows;
        }
        self.state = state;
        Stamp::Stopped(&self.state).put_on_projects(&mut self.projects);
    }

    /// Takes in one pass over the repositories and the sessions. It marks and it
    /// records; it removes no project.
    pub fn apply_reconciliation(&mut self, projects: Vec<ProjectStatus>, state: State)
        ensures
            old(self).reconciled(*final(self), projects@, state),
    {
        self.state = state;
        let ghost before = self.view_projects();
        let ghost statuses = projects@;
        assert(statuses.subrange(0, 0) =~= Seq::<ProjectStatus>::empty());
        for status in it: projects
            invariant
                it.seq() == statuses,
                self.view_projects() == rows_reconciled(
                    before,
                    statuses.subrange(0, it.index() as int),
                ),
                self.state == state,
                self.statuses == old(self).statuses,
                self.windows == old(self).windows,
                self.notices == old(self).notices,
        {
            let ghost n = it.index() as int;
            assert(statuses.subrange(0, n + 1).drop_last() =~= statuses.subrange(0, n));
            let ghost rows = self.view_projects();
            if let Some(i) = find_project(&self.projects, status.id.as_str()) {
                let available = status.unavailable.is_none();
                self.projects[i].unavailable = status.unavailable;
                if available {
                    self.projects[i].worktrees = status.worktrees;
                }
                assert(self.view_projects() =~= rows.update(
                    i as int,
                    project_reconciled(rows[i as int], statuses[n]),
                ));
            }
        }
        assert(statuses.subrange(0, statuses.len() as int) =~= statuses);
        let live = live_ids(&self.projects);
        self.notices.retain_ids(&live);
        self.restamp();
    }

    /// What is known of each project before git is asked, for a pass over the
    /// repositories.
    pub fn project_refs(&self) -> (r: Vec<ProjectRef>)
        ensures
            ref_views(r@) == refs_of(self.view_projects()),
    {
        let mut refs: Vec<ProjectRef> = Vec::new();
        let mut i: usize = 0;
        while i < self.projects.len()
            invariant
                i <= self.projects.len(),
                refs.len() == i,
                forall|k: int|
                    0 <= k < i ==> (#[trigger] refs@[k])@ == ref_of(self.view_projects()[k]),
            decreases self.projects.len() - i,
        {
            let project = &self.projects[i];
            refs.push(
                ProjectRef {
                    id: project.id.clone(),
                    name: project.name.clone(),
                    repository_path: project.repository_path.clone(),
                    git_common_dir: project.git_common_dir.clone(),
                },
            );
            i += 1;
        }
        assert(ref_views(refs@) =~= refs_of(self.view_projects()));
        refs
    }

    /// The (project id, worktree id) a number points at, where it points at a
    /// listed row: that of the first project with the worktree.
    pub fn slot_target(&self, slot: u8) -> (r: Option<(String, String)>)
        ensures
            (match r {
                Some((project_id, worktree_id)) => Some((project_id@, worktree_id@)),
                None => None,
            }) == self.target(slot),
    {
        let worktree_id = match self.state.slot_worktree(slot) {
            Some(id) => id,
            None => {
                return None;
            },
        };
        let ghost views = self.view_projects();
        let mut i: usize = 0;
        assert(views.subrange(0, 0) =~= Seq::<ProjectView>::empty());
        while i < self.projects.len()
            invariant
                i <= self.projects.len(),
                views == self.view_projects(),
                slot_of(self.state.slots@, slot) == Some(worktree_id@),
                holder_at(views.subrange(0, i as int), worktree_id@) is None,
            decreases self.projects.len() - i,
        {
            assert(views.subrange(0, i + 1).drop_last() =~= views.subrange(0, i as int));
            if find_worktree(&self.projects[i].worktrees, worktree_id.as_str()).is_some() {
                proof {
                    lemma_holder_grows(views, i + 1, worktree_id@);
                }
                return Some((self.projects[i].id.clone(), worktree_id.clone()));
            }
            i += 1;
        }
        assert(views.subrange(0, i as int) =~= views);
        None
    }

    /// What to call each worktree in a desktop notification. Where two rows have
    /// one id, the later one counts.
    pub fn labels(&self) -> (r: Table<WorktreeLabel>)
        ensures
            label_views(r@) == labels_of(self.view_projects()),
    {
        let ghost views = self.view_projects();
        let mut labels: Table<WorktreeLabel> = Table::new();
        let mut i: usize = 0;
        assert(views.subrange(0, 0) =~= Seq::<ProjectView>::empty());
        assert(label_views(labels@) =~= Map::<Seq<char>, (Seq<char>, Seq<char>)>::empty());
        while i < self.projects.len()
            invariant
                i <= self.projects.len(),
                views == self.view_projects(),
                label_views(labels@) == labels_of(views.subrange(0, i as int)),
            decreases self.projects.len() - i,
        {
            let project = &self.projects[i];
            let ghost base = label_views(labels@);
            let ghost rows = views[i as int].worktrees;
            let mut j: usize = 0;
            assert(rows.subrange(0, 0) =~= Seq::<WorktreeView>::empty());
            while j < project.worktrees.len()
                invariant
                    j <= project.worktrees.len(),
                    rows == worktree_views(project.worktrees@),
                    label_views(labels@) == labels_with(
                        base,
                        project.name@,
                        rows.subrange(0, j as int),
                    ),
                decreases project.worktrees.len() - j,
            {
                let worktree = &project.worktrees[j];
                let ghost was = labels@;
                let label = WorktreeLabel {
                    project: project.name.clone(),
                    worktree: worktree.label.clone(),
                };
                labels.insert(worktree.id.clone(), label);
                assert(rows.subrange(0, j + 1).drop_last() =~= rows.subrange(0, j as int));
                assert(label_views(labels@) =~= label_views(was).insert(
                    rows[j as int].id,
                    (project.name@, rows[j as int].label),
                ));
                j += 1;
            }
            assert(rows.subrange(0, j as int) =~= rows);
            assert(views.subrange(0, i + 1).drop_last() =~= views.subrange(0, i as int));
            i += 1;
        }
        assert(views.subrange(0, i as int) =~= views);
        labels
    }
}

/// What a pass over the repositories is told of a project.
#[derive(Debug, PartialEq, Eq)]
pub struct ProjectRef {
    pub id: String,
    pub name: String,
    pub repository_path: String,
    pub git_common_dir: String,
}

pub struct ProjectRefView {
    pub id: Seq<char>,
    pub name: Seq<char>,
    pub repository_path: Seq<char>,
    pub git_common_dir: Seq<char>,
}

impl View for ProjectRef {
    type V = ProjectRefView;

    open spec fn view(&self) -> ProjectRefView {
        ProjectRefView {
            id: self.id@,
            name: self.name@,
            repository_path: self.repository_path@,
            git_common_dir: self.git_common_dir@,
        }
    }
}

pub open spec fn ref_views(refs: Seq<ProjectRef>) -> Seq<ProjectRefView> {
    refs.map_values(|r: ProjectRef| r@)
}

/// What a pass is told of a project.
pub open spec fn ref_of(p: ProjectView) -> ProjectRefView {
    ProjectRefView {
        id: p.id,
        name: p.name,
        repository_path: p.repository_path,
        git_common_dir: p.git_common_dir,
    }
}

/// What a pass is told of the projects, in order.
pub open spec fn refs_of(projects: Seq<ProjectView>) -> Seq<ProjectRefView> {
    projects.map_values(|p: ProjectView| ref_of(p))
}

/// The place of the first project that lists the worktree.
pub open spec fn holder_at(projects: Seq<ProjectView>, worktree_id: Seq<char>) -> Option<int>
    decreases projects.len(),
{
    if projects.len() == 0 {
        None
    } else {
        match holder_at(projects.drop_last(), worktree_id) {
            Some(i) => Some(i),
            None => if worktree_at(projects.last().worktrees, worktree_id) is Some {
                Some(projects.len() - 1)
            } else {
                None
            },
        }
    }
}

proof fn lemma_holder_grows(projects: Seq<ProjectView>, n: int, worktree_id: Seq<char>)
    requires
        0 <= n <= projects.len(),
        holder_at(projects.subrange(0, n), worktree_id) is Some,
    ensures
        holder_at(projects, worktree_id) == holder_at(projects.subrange(0, n), worktree_id),
    decreases projects.len() - n,
{
    if n < projects.len() {
        assert(projects.subrange(0, n + 1).drop_last() =~= projects.subrange(0, n));
        lemma_holder_grows(projects, n + 1, worktree_id);
    } else {
        assert(projects.subrange(0, n) =~= projects);
    }
}

/// The labels by worktree, as (project, worktree) names.
pub open spec fn label_views(labels: Map<Seq<char>, WorktreeLabel>) -> Map<
    Seq<char>,
    (Seq<char>, Seq<char>),
> {
    labels.map_values(|l: WorktreeLabel| (l.project@, l.worktree@))
}

/// The labels with those of one project's rows.
pub open spec fn labels_with(
    base: Map<Seq<char>, (Seq<char>, Seq<char>)>,
    project: Seq<char>,
    rows: Seq<WorktreeView>,
) -> Map<Seq<char>, (Seq<char>, Seq<char>)>
    decreases rows.len(),
{
    if rows.len() == 0 {
        base
    } else {
        labels_with(base, project, rows.drop_last()).insert(
            rows.last().id,
            (project, rows.last().label),
        )
    }
}

/// The labels of every row.
pub open spec fn labels_of(projects: Seq<ProjectView>) -> Map<Seq<char>, (Seq<char>, Seq<char>)>
    decreases projects.len(),
{
    if projects.len() == 0 {
        Map::empty()
    } else {
        labels_with(
            labels_of(projects.drop_last()),
            projects.last().name,
            projects.last().worktrees,
        )
    }
}

pub proof fn lemma_reconciled_shape(projects: Seq<ProjectView>, statuses: Seq<ProjectStatus>)
    ensures
        rows_reconciled(projects, statuses).len() == projects.len(),
        forall|i: int|
            0 <= i < projects.len() ==> {
                &&& (#[trigger] rows_reconciled(projects, statuses)[i]).id == projects[i].id
                &&& rows_reconciled(projects, statuses)[i].name == projects[i].name
            },
    decreases statuses.len(),
{
    if statuses.len() > 0 {
        lemma_reconciled_shape(projects, statuses.drop_last());
        project_at_is_first(
            rows_reconciled(projects, statuses.drop_last()),
            statuses.last().id@,
        );
    }
}

/// A pass over the repositories never drops a project: there are as many rows
/// after it as before, of the same projects in the same order.
pub proof fn reconciliation_drops_no_project(
    projects: Seq<ProjectView>,
    statuses: Seq<ProjectStatus>,
)
    ensures
        rows_reconciled(projects, statuses).len() == projects.len(),
        forall|i: int|
            0 <= i < projects.len() ==> (#[trigger] rows_reconciled(projects, statuses)[i]).id
                == projects[i].id,
{
    lemma_reconciled_shape(projects, statuses);
}

/// A project that every word of a pass calls unavailable keeps the worktrees it
/// last had.
pub proof fn an_unavailable_project_keeps_its_rows(
    projects: Seq<ProjectView>,
    statuses: Seq<ProjectStatus>,
    i: int,
)
    requires
        0 <= i < projects.len(),
        forall|k: int|
            0 <= k < statuses.len() && (#[trigger] statuses[k]).id@ == projects[i].id
                ==> statuses[k].unavailable is Some,
    ensures
        rows_reconciled(projects, statuses)[i].worktrees == projects[i].worktrees,
    decreases statuses.len(),
{
    if statuses.len() > 0 {
        let init = statuses.drop_last();
        assert forall|k: int|
            0 <= k < init.len() && (#[trigger] init[k]).id@ == projects[i].id implies init[k].unavailable is Some by {
            assert(statuses[k].id@ == projects[i].id);
        }
        an_unavailable_project_keeps_its_rows(projects, init, i);
        lemma_reconciled_shape(projects, init);
        let before = rows_reconciled(projects, init);
        project_at_is_first(before, statuses.last().id@);
        assert(before[i].id == projects[i].id);
        assert(statuses[statuses.len() - 1] == statuses.last());
    }
}

/// A snapshot of what is remembered leaves a row that still has a record the
/// worktrees it had.
pub proof fn a_snapshot_keeps_the_worktrees_of_kept_rows(
    projects: Seq<ProjectView>,
    records: Seq<ProjectRecord>,
    i: int,
)
    requires
        0 <= i < projects.len(),
        record_at(records, projects[i].id) is Some,
    ensures
        exists|k: int|
            0 <= k < rows_of_state(projects, records, false).len() && (#[trigger] rows_of_state(
                projects,
                records,
                false,
            )[k]).id == projects[i].id && rows_of_state(projects, records, false)[k].worktrees
                == projects[i].worktrees,
{
    let k = lemma_kept_at(projects, records, i);
    lemma_joined_extends(rows_kept(projects, records), records);
    assert(rows_of_state(projects, records, false)[k] == rows_kept(projects, records)[k]);
}

proof fn lemma_kept_at(projects: Seq<ProjectView>, records: Seq<ProjectRecord>, i: int) -> (k: int)
    requires
        0 <= i < projects.len(),
        record_at(records, projects[i].id) is Some,
    ensures
        0 <= k < rows_kept(projects, records).len(),
        rows_kept(projects, records)[k].id == projects[i].id,
        rows_kept(projects, records)[k].worktrees == projects[i].worktrees,
    decreases projects.len(),
{
    if i == projects.len() - 1 {
        rows_kept(projects, records).len() - 1
    } else {
        assert(projects.drop_last()[i] == projects[i]);
        lemma_kept_at(projects.drop_last(), records, i)
    }
}

pub proof fn lemma_joined_extends(projects: Seq<ProjectView>, records: Seq<ProjectRecord>)
    ensures
        rows_joined(projects, records).len() >= projects.len(),
        forall|k: int|
            0 <= k < projects.len() ==> #[trigger] rows_joined(projects, records)[k] == projects[k],
    decreases records.len(),
{
    if records.len() > 0 {
        lemma_joined_extends(projects, records.drop_last());
    }
}

/// No two rows are of one project.
pub open spec fn projects_differ(projects: Seq<ProjectView>) -> bool {
    forall|i: int, j: int|
        0 <= i < j < projects.len() ==> (#[trigger] projects[i]).id != (#[trigger] projects[j]).id
}

/// Opening a project lists it once: where no project is listed twice, none is
/// after another one is opened or one is opened again.
pub proof fn opening_a_project_lists_it_once(
    rows: Rows,
    after: Rows,
    project: ProjectView,
    line: Seq<char>,
)
    requires
        projects_differ(rows.view_projects()),
        rows.project_added(after, project, line),
    ensures
        projects_differ(after.view_projects()),
        project_at(rows.view_projects(), project.id) is Some ==> after.view_projects().len()
            == rows.view_projects().len(),
        project_at(rows.view_projects(), project.id) is None ==> after.view_projects().len()
            == rows.view_projects().len() + 1,
{
    let before = rows.view_projects();
    let now = after.view_projects();
    project_at_is_first(before, project.id);
    assert forall|i: int, j: int| 0 <= i < j < now.len() implies (#[trigger] now[i]).id != (
    #[trigger] now[j]).id by {
        if j < before.len() {
            assert(before[i].id != before[j].id);
        }
    }
}

/// Attention is sticky: whatever an agent reports, a row that asks for the user
/// goes on asking, and so does what the next refresh stamps onto it. Only a new
/// attention changes its reason.
pub proof fn no_report_answers_attention(
    w: WorktreeView,
    statuses: Map<Seq<char>, SessionReport>,
    notification: Notification,
)
    ensures
        w.status == Some(SessionStatus::Attention) ==> row_noted(w, notification).status == Some(
            SessionStatus::Attention,
        ),
        notification.state != SessionStatus::Attention ==> row_noted(
            w,
            notification,
        ).attention_reason == w.attention_reason,
        statuses.contains_key(w.id) && statuses[w.id].status == SessionStatus::Attention
            ==> statuses_noted(statuses, w.id, notification.state).contains_key(w.id)
            && statuses_noted(statuses, w.id, notification.state)[w.id].status
            == SessionStatus::Attention,
{
}

/// A report never gives a status to a row without a session.
pub proof fn a_report_invents_no_status(w: WorktreeView, notification: Notification)
    requires
        !w.session.live(),
    ensures
        row_noted(w, notification).status == w.status,
        row_noted(w, notification).attention_reason == w.attention_reason,
{
}

/// Once the rows are stamped, a row without a session shows neither a status nor
/// a window.
pub proof fn a_row_without_a_session_shows_nothing(
    projects: Seq<ProjectView>,
    state: State,
    statuses: Table<SessionReport>,
    windows: Table<Vec<WindowInfo>>,
    notices: Notices,
    i: int,
    j: int,
)
    requires
        0 <= i < projects.len(),
        0 <= j < projects[i].worktrees.len(),
        !projects[i].worktrees[j].session.live(),
    ensures
        restamped(projects, state, statuses, windows, notices)[i].worktrees[j].status is None,
        restamped(projects, state, statuses, windows, notices)[i].worktrees[j].windows.len() == 0,
{
}

/// Stamping again what was stamped changes nothing.
pub proof fn restamping_is_idempotent(
    projects: Seq<ProjectView>,
    state: State,
    statuses: Table<SessionReport>,
    windows: Table<Vec<WindowInfo>>,
    notices: Notices,
)
    ensures
        ({
            let once = restamped(projects, state, statuses, windows, notices);
            restamped(once, state, statuses, windows, notices) == once
        }),
{
    let once = restamped(projects, state, statuses, windows, notices);
    let twice = restamped(once, state, statuses, windows, notices);
    assert(twice.len() == once.len());
    assert forall|i: int| 0 <= i < once.len() implies twice[i] == once[i] by {
        assert(twice[i].worktrees =~= once[i].worktrees);
    }
    assert(twice =~= once);
}

/// A row that was opened carries nothing of its attention any more, and nothing
/// is kept that would bring it back.
pub proof fn opening_clears_everything(
    w: WorktreeView,
    statuses: Map<Seq<char>, SessionReport>,
    notes: Seq<(String, crate::model::WindowNote)>,
    windows: Seq<WindowInfo>,
)
    ensures
        row_cleared(w).status is None,
        row_cleared(w).status_message is None,
        row_cleared(w).attention_reason is None,
        row_cleared(w).window_notes.len() == 0,
        !statuses.remove(w.id).contains_key(w.id),
        notes_for(notes_without(notes, w.id, None), w.id, windows).len() == 0,
    decreases notes.len(),
{
    if notes.len() > 0 {
        let init = notes.drop_last();
        opening_clears_everything(w, statuses, init, windows);
        let kept = notes_without(notes, w.id, None);
        if notes.last().0@ != w.id {
            assert(kept.drop_last() =~= notes_without(init, w.id, None));
        }
    }
}

}
