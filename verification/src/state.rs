//! What Grove remembers between runs.
use vstd::prelude::*;

verus! {

/// A registered project.
#[derive(Debug, PartialEq, Eq)]
pub struct ProjectRecord {
    pub id: String,
    pub name: String,
    pub repository_path: String,
    pub git_common_dir: String,
    pub default_worktree_path: String,
    pub is_expanded: bool,
}

impl Clone for ProjectRecord {
    fn clone(&self) -> (r: Self)
        ensures
            r == *self,
    {
        ProjectRecord {
            id: self.id.clone(),
            name: self.name.clone(),
            repository_path: self.repository_path.clone(),
            git_common_dir: self.git_common_dir.clone(),
            default_worktree_path: self.default_worktree_path.clone(),
            is_expanded: self.is_expanded,
        }
    }
}

/// A session that was seen running.
#[derive(Debug, PartialEq, Eq)]
pub struct SessionRecord {
    pub worktree_id: String,
    pub project_id: String,
    pub worktree_path: String,
    pub session_name: String,
    pub last_activity_at: u64,
}

/// The conversation an agent was last known to be in.
#[derive(Debug, PartialEq, Eq)]
pub struct AgentRecord {
    pub worktree_id: String,
    pub session_id: String,
    pub transcript_path: String,
}

/// Everything that is remembered.
#[derive(Debug, PartialEq, Eq)]
pub struct State {
    pub projects: Vec<ProjectRecord>,
    pub sessions: Vec<SessionRecord>,
    pub agents: Vec<AgentRecord>,
    /// Numbers given to worktrees.
    pub slots: Vec<(u8, String)>,
    pub ignored_sessions: Vec<String>,
}

/// The place of the first record of the project.
pub open spec fn record_at(records: Seq<ProjectRecord>, id: Seq<char>) -> Option<int>
    decreases records.len(),
{
    if records.len() == 0 {
        None
    } else {
        match record_at(records.drop_last(), id) {
            Some(i) => Some(i),
            None => if records.last().id@ == id {
                Some(records.len() - 1)
            } else {
                None
            },
        }
    }
}

/// What `record_at` finds is the first record of its id, and it finds one where
/// there is one.
pub proof fn record_at_is_first(records: Seq<ProjectRecord>, id: Seq<char>)
    ensures
        match record_at(records, id) {
            Some(i) => {
                &&& 0 <= i < records.len()
                &&& records[i].id@ == id
                &&& forall|k: int| 0 <= k < i ==> (#[trigger] records[k]).id@ != id
            },
            None => forall|k: int| 0 <= k < records.len() ==> (#[trigger] records[k]).id@ != id,
        },
    decreases records.len(),
{
    if records.len() > 0 {
        let init = records.drop_last();
        record_at_is_first(init, id);
        assert forall|k: int| 0 <= k < init.len() implies init[k] == #[trigger] records[k] by {}
    }
}

/// Some record speaks of a session of this worktree.
pub open spec fn has_session(sessions: Seq<SessionRecord>, worktree_id: Seq<char>) -> bool {
    exists|i: int| 0 <= i < sessions.len() && (#[trigger] sessions[i]).worktree_id@ == worktree_id
}

/// The worktree that the first entry with this number names.
pub open spec fn slot_of(slots: Seq<(u8, String)>, number: u8) -> Option<Seq<char>>
    decreases slots.len(),
{
    if slots.len() == 0 {
        None
    } else {
        match slot_of(slots.drop_last(), number) {
            Some(id) => Some(id),
            None => if slots.last().0 == number {
                Some(slots.last().1@)
            } else {
                None
            },
        }
    }
}

/// The number the first entry of the worktree gives it.
pub open spec fn number_of(slots: Seq<(u8, String)>, worktree_id: Seq<char>) -> Option<u8>
    decreases slots.len(),
{
    if slots.len() == 0 {
        None
    } else {
        match number_of(slots.drop_last(), worktree_id) {
            Some(number) => Some(number),
            None => if slots.last().1@ == worktree_id {
                Some(slots.last().0)
            } else {
                None
            },
        }
    }
}

/// The first record of the worktree's agent.
pub open spec fn agent_of(agents: Seq<AgentRecord>, worktree_id: Seq<char>) -> Option<AgentRecord>
    decreases agents.len(),
{
    if agents.len() == 0 {
        None
    } else {
        match agent_of(agents.drop_last(), worktree_id) {
            Some(record) => Some(record),
            None => if agents.last().worktree_id@ == worktree_id {
                Some(agents.last())
            } else {
                None
            },
        }
    }
}

impl State {
    pub fn new() -> (r: State)
        ensures
            r.projects@ == Seq::<ProjectRecord>::empty(),
            r.sessions@ == Seq::<SessionRecord>::empty(),
            r.agents@ == Seq::<AgentRecord>::empty(),
            r.slots@ == Seq::<(u8, String)>::empty(),
            r.ignored_sessions@ == Seq::<String>::empty(),
    {
        State {
            projects: Vec::new(),
            sessions: Vec::new(),
            agents: Vec::new(),
            slots: Vec::new(),
            ignored_sessions: Vec::new(),
        }
    }

    /// The record of the project, where there is one.
    pub fn find(&self, id: &str) -> (r: Option<&ProjectRecord>)
        ensures
            r == (match record_at(self.projects@, id@) {
                Some(i) => Some(&self.projects@[i]),
                None => None,
            }),
    {
        let wanted = id.to_owned();
        let mut i: usize = 0;
        proof {
            record_at_is_first(self.projects@, id@);
        }
        while i < self.projects.len()
            invariant
                i <= self.projects.len(),
                wanted@ == id@,
                forall|k: int| 0 <= k < i ==> (#[trigger] self.projects@[k]).id@ != id@,
            decreases self.projects.len() - i,
        {
            if self.projects[i].id == wanted {
                proof {
                    record_at_is_first(self.projects@, id@);
                }
                return Some(&self.projects[i]);
            }
            i += 1;
        }
        None
    }

    /// Some record speaks of a session of this worktree.
    pub fn has_session(&self, worktree_id: &str) -> (r: bool)
        ensures
            r == has_session(self.sessions@, worktree_id@),
    {
        let wanted = worktree_id.to_owned();
        let mut i: usize = 0;
        while i < self.sessions.len()
            invariant
                i <= self.sessions.len(),
                wanted@ == worktree_id@,
                forall|k: int| 0 <= k < i ==> (#[trigger] self.sessions@[k]).worktree_id@ != worktree_id@,
            decreases self.sessions.len() - i,
        {
            if self.sessions[i].worktree_id == wanted {
                return true;
            }
            i += 1;
        }
        false
    }

    /// The number the worktree was given.
    pub fn slot(&self, worktree_id: &str) -> (r: Option<u8>)
        ensures
            r == number_of(self.slots@, worktree_id@),
    {
        let wanted = worktree_id.to_owned();
        let mut i: usize = 0;
        assert(self.slots@.subrange(0, 0) =~= Seq::<(u8, String)>::empty());
        while i < self.slots.len()
            invariant
                i <= self.slots.len(),
                wanted@ == worktree_id@,
                number_of(self.slots@.subrange(0, i as int), worktree_id@) is None,
            decreases self.slots.len() - i,
        {
            assert(self.slots@.subrange(0, i + 1).drop_last() =~= self.slots@.subrange(0, i as int));
            if self.slots[i].1 == wanted {
                proof {
                    lemma_number_grows(self.slots@, i + 1, worktree_id@);
                }
                return Some(self.slots[i].0);
            }
            i += 1;
        }
        assert(self.slots@.subrange(0, i as int) =~= self.slots@);
        None
    }

    /// What is known of the worktree's agent.
    pub fn agent(&self, worktree_id: &str) -> (r: Option<&AgentRecord>)
        ensures
            r == (match agent_of(self.agents@, worktree_id@) {
                Some(record) => Some(&record),
                None => None,
            }),
    {
        let wanted = worktree_id.to_owned();
        let mut i: usize = 0;
        assert(self.agents@.subrange(0, 0) =~= Seq::<AgentRecord>::empty());
        while i < self.agents.len()
            invariant
                i <= self.agents.len(),
                wanted@ == worktree_id@,
                agent_of(self.agents@.subrange(0, i as int), worktree_id@) is None,
            decreases self.agents.len() - i,
        {
            assert(self.agents@.subrange(0, i + 1).drop_last() =~= self.agents@.subrange(
                0,
                i as int,
            ));
            if self.agents[i].worktree_id == wanted {
                proof {
                    lemma_agent_grows(self.agents@, i + 1, worktree_id@);
                }
                return Some(&self.agents[i]);
            }
            i += 1;
        }
        assert(self.agents@.subrange(0, i as int) =~= self.agents@);
        None
    }

    /// The worktree this number was given to.
    pub fn slot_worktree(&self, number: u8) -> (r: Option<&String>)
        ensures
            r is Some <==> slot_of(self.slots@, number) is Some,
            r matches Some(id) ==> slot_of(self.slots@, number) == Some(id@),
    {
        let mut i: usize = 0;
        assert(self.slots@.subrange(0, 0) =~= Seq::<(u8, String)>::empty());
        while i < self.slots.len()
            invariant
                i <= self.slots.len(),
                slot_of(self.slots@.subrange(0, i as int), number) is None,
            decreases self.slots.len() - i,
        {
            assert(self.slots@.subrange(0, i + 1).drop_last() =~= self.slots@.subrange(0, i as int));
            if self.slots[i].0 == number {
                proof {
                    lemma_slot_grows(self.slots@, i + 1, number);
                }
                return Some(&self.slots[i].1);
            }
            i += 1;
        }
        assert(self.slots@.subrange(0, i as int) =~= self.slots@);
        None
    }
}

proof fn lemma_number_grows(slots: Seq<(u8, String)>, n: int, worktree_id: Seq<char>)
    requires
        0 <= n <= slots.len(),
        number_of(slots.subrange(0, n), worktree_id) is Some,
    ensures
        number_of(slots, worktree_id) == number_of(slots.subrange(0, n), worktree_id),
    decreases slots.len() - n,
{
    if n < slots.len() {
        assert(slots.subrange(0, n + 1).drop_last() =~= slots.subrange(0, n));
        lemma_number_grows(slots, n + 1, worktree_id);
    } else {
        assert(slots.subrange(0, n) =~= slots);
    }
}

proof fn lemma_agent_grows(agents: Seq<AgentRecord>, n: int, worktree_id: Seq<char>)
    requires
        0 <= n <= agents.len(),
        agent_of(agents.subrange(0, n), worktree_id) is Some,
    ensures
        agent_of(agents, worktree_id) == agent_of(agents.subrange(0, n), worktree_id),
    decreases agents.len() - n,
{
    if n < agents.len() {
        assert(agents.subrange(0, n + 1).drop_last() =~= agents.subrange(0, n));
        lemma_agent_grows(agents, n + 1, worktree_id);
    } else {
        assert(agents.subrange(0, n) =~= agents);
    }
}

proof fn lemma_slot_grows(slots: Seq<(u8, String)>, n: int, number: u8)
    requires
        0 <= n <= slots.len(),
        slot_of(slots.subrange(0, n), number) is Some,
    ensures
        slot_of(slots, number) == slot_of(slots.subrange(0, n), number),
    decreases slots.len() - n,
{
    if n < slots.len() {
        assert(slots.subrange(0, n + 1).drop_last() =~= slots.subrange(0, n));
        lemma_slot_grows(slots, n + 1, number);
    } else {
        assert(slots.subrange(0, n) =~= slots);
    }
}

}
