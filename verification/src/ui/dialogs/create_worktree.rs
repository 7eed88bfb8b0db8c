//! The create-worktree dialog: a branch name, a base, a directory.
use vstd::prelude::*;
use vstd::string::*;

use crate::model::Project;
use crate::service::params::WorktreeAdd;
use crate::text::{begins_with, chars_of, join_path, joined_path, starts_with, trim, trimmed};

verus! {

/// A branch that can be checked out.
#[derive(Debug, Clone, PartialEq, Eq)]
pub struct RefEntry {
    pub name: String,
    pub is_remote: bool,
}

/// Everything the dialog holds between frames.
#[derive(Debug, Clone, PartialEq, Eq)]
pub struct CreateForm {
    pub project_id: String,
    pub project_name: String,
    pub repository_path: String,
    pub git_common_dir: String,
    /// Parent directory the suggested path is built under.
    pub default_parent: String,
    /// Name of the branch to create. Ignored when `create_branch` is false.
    pub branch: String,
    /// Base branch or commit; also what is checked out when not creating.
    pub base_ref: String,
    pub path: String,
    pub create_branch: bool,
    pub open_after: bool,
    /// Choices for the base.
    pub refs: Vec<RefEntry>,
    pub refs_loaded: bool,
    /// Once the user edits the path, it is no longer derived from the branch.
    pub path_edited: bool,
}

/// The place of the first slash.
pub open spec fn first_slash(s: Seq<char>) -> Option<int>
    decreases s.len(),
{
    if s.len() == 0 {
        None
    } else {
        match first_slash(s.drop_last()) {
            Some(i) => Some(i),
            None => if s.last() == '/' {
                Some(s.len() - 1)
            } else {
                None
            },
        }
    }
}

/// The slashes of a branch name made into dashes.
pub open spec fn dashed(s: Seq<char>) -> Seq<char> {
    s.map_values(
        |c: char|
            if c == '/' {
                '-'
            } else {
                c
            },
    )
}

/// Some remote-tracking branch is of the remote `candidate`.
pub open spec fn names_remote(refs: Seq<RefEntry>, candidate: Seq<char>) -> bool {
    exists|i: int|
        0 <= i < refs.len() && (#[trigger] refs[i]).is_remote && starts_with(
            refs[i].name@,
            candidate + "/"@,
        )
}

proof fn lemma_first_slash_bounds(s: Seq<char>)
    ensures
        first_slash(s) matches Some(i) ==> 0 <= i < s.len(),
    decreases s.len(),
{
    if s.len() > 0 {
        lemma_first_slash_bounds(s.drop_last());
    }
}

proof fn lemma_first_slash_grows(s: Seq<char>, n: int)
    requires
        0 <= n <= s.len(),
        first_slash(s.subrange(0, n)) is Some,
    ensures
        first_slash(s) == first_slash(s.subrange(0, n)),
    decreases s.len() - n,
{
    if n < s.len() {
        assert(s.subrange(0, n + 1).drop_last() =~= s.subrange(0, n));
        lemma_first_slash_grows(s, n + 1);
    } else {
        assert(s.subrange(0, n) =~= s);
    }
}

fn slash_place(s: &str) -> (r: Option<usize>)
    ensures
        r is Some <==> first_slash(s@) is Some,
        r matches Some(i) ==> i < s@.len() && first_slash(s@) == Some(i as int),
{
    let chars = chars_of(s);
    let mut i: usize = 0;
    assert(s@.subrange(0, 0) =~= Seq::<char>::empty());
    while i < chars.len()
        invariant
            i <= chars.len(),
            chars@ == s@,
            first_slash(s@.subrange(0, i as int)) is None,
        decreases chars.len() - i,
    {
        assert(s@.subrange(0, i + 1).drop_last() =~= s@.subrange(0, i as int));
        if chars[i] == '/' {
            proof {
                lemma_first_slash_grows(s@, i + 1);
            }
            return Some(i);
        }
        i += 1;
    }
    assert(s@.subrange(0, i as int) =~= s@);
    None
}

/// Where a worktree for the branch is suggested: under the parent, in a
/// directory named after the branch with dashes for its slashes.
pub fn suggest_worktree_path(parent: &str, name: &str) -> (r: String)
    ensures
        r@ == joined_path(parent@, dashed(name@)),
{
    let chars = chars_of(name);
    let mut directory = String::new();
    let mut i: usize = 0;
    while i < chars.len()
        invariant
            i <= chars.len(),
            chars@ == name@,
            directory@ == dashed(name@.subrange(0, i as int)),
        decreases chars.len() - i,
    {
        directory.push(
            if chars[i] == '/' {
                '-'
            } else {
                chars[i]
            },
        );
        i += 1;
        assert(directory@ =~= dashed(name@.subrange(0, i as int)));
    }
    assert(name@.subrange(0, i as int) =~= name@);
    join_path(parent, directory.as_str())
}

impl CreateForm {
    /// The name that was typed: of the new branch, or of what is checked out.
    pub open spec fn typed_name(self) -> Seq<char> {
        if self.create_branch {
            trimmed(self.branch@)
        } else {
            trimmed(self.base_ref@)
        }
    }

    /// The name the directory is derived from: a remote's name before a branch
    /// that is checked out is not part of it.
    pub open spec fn source(self) -> Seq<char> {
        let name = self.typed_name();
        match first_slash(name) {
            Some(i) => if !self.create_branch && names_remote(self.refs@, name.subrange(0, i)) {
                name.subrange(i + 1, name.len() as int)
            } else {
                name
            },
            None => name,
        }
    }

    /// Why the form cannot be submitted.
    pub open spec fn objection(self) -> Option<Seq<char>> {
        if self.create_branch && trimmed(self.branch@).len() == 0 {
            Some("A branch name is required."@)
        } else if !self.create_branch && trimmed(self.base_ref@).len() == 0 {
            Some("Choose the branch or commit to check out."@)
        } else if trimmed(self.path@).len() == 0 {
            Some("A worktree directory is required."@)
        } else {
            None
        }
    }

    /// The suggested path, or none while there is no name to derive it from.
    pub open spec fn suggestion(self) -> Seq<char> {
        if self.source().len() == 0 {
            Seq::empty()
        } else {
            joined_path(self.default_parent@, dashed(self.source()))
        }
    }

    pub fn new(project: &Project) -> (r: Self)
        ensures
            r.project_id == project.id,
            r.project_name == project.name,
            r.repository_path == project.repository_path,
            r.git_common_dir == project.git_common_dir,
            r.default_parent == project.default_worktree_path,
            r.branch@.len() == 0,
            r.base_ref@.len() == 0,
            r.path@.len() == 0,
            r.create_branch,
            r.open_after,
            r.refs@.len() == 0,
            !r.refs_loaded,
            !r.path_edited,
    {
        CreateForm {
            project_id: project.id.clone(),
            project_name: project.name.clone(),
            repository_path: project.repository_path.clone(),
            git_common_dir: project.git_common_dir.clone(),
            default_parent: project.default_worktree_path.clone(),
            branch: String::new(),
            base_ref: String::new(),
            path: String::new(),
            create_branch: true,
            open_after: true,
            refs: Vec::new(),
            refs_loaded: false,
            path_edited: false,
        }
    }

    /// The name the directory is derived from.
    pub fn source_name(&self) -> (r: &str)
        ensures
            r@ == self.source(),
    {
        let name = if self.create_branch {
            trim(self.branch.as_str())
        } else {
            trim(self.base_ref.as_str())
        };
        match slash_place(name) {
            Some(i) => {
                let end: usize = name.unicode_len();
                if !self.create_branch && self.is_remote(name.substring_char(0, i)) {
                    name.substring_char(i + 1, end)
                } else {
                    name
                }
            },
            None => name,
        }
    }

    fn is_remote(&self, candidate: &str) -> (r: bool)
        ensures
            r == names_remote(self.refs@, candidate@),
    {
        let mut prefix = candidate.to_owned();
        prefix.append("/");
        let mut i: usize = 0;
        while i < self.refs.len()
            invariant
                i <= self.refs.len(),
                prefix@ == candidate@ + "/"@,
                forall|k: int|
                    0 <= k < i ==> !((#[trigger] self.refs@[k]).is_remote && starts_with(
                        self.refs@[k].name@,
                        candidate@ + "/"@,
                    )),
            decreases self.refs.len() - i,
        {
            if self.refs[i].is_remote && begins_with(self.refs[i].name.as_str(), prefix.as_str()) {
                return true;
            }
            i += 1;
        }
        false
    }

    /// Derives the path again, unless the user has taken it over.
    pub fn sync_path(&mut self)
        ensures
            final(self).path@ == (if old(self).path_edited {
                old(self).path@
            } else {
                old(self).suggestion()
            }),
            *final(self) == (CreateForm { path: final(self).path, ..*old(self) }),
    {
        if self.path_edited {
            return;
        }
        let source = self.source_name();
        let path = if source.is_empty() {
            String::new()
        } else {
            suggest_worktree_path(self.default_parent.as_str(), source)
        };
        assert(self.source().len() == 0 ==> path@ =~= self.suggestion());
        self.path = path;
    }

    /// Why the form cannot be submitted yet, if it cannot.
    pub fn problem(&self) -> (r: Option<&'static str>)
        ensures
            (match r {
                Some(message) => Some(message@),
                None => None,
            }) == self.objection(),
    {
        if self.create_branch && trim(self.branch.as_str()).is_empty() {
            return Some("A branch name is required.");
        }
        if !self.create_branch && trim(self.base_ref.as_str()).is_empty() {
            return Some("Choose the branch or commit to check out.");
        }
        if trim(self.path.as_str()).is_empty() {
            return Some("A worktree directory is required.");
        }
        None
    }

    pub fn is_valid(&self) -> (r: bool)
        ensures
            r == self.objection() is None,
    {
        self.problem().is_none()
    }

    /// The operation the form describes. The values are trimmed and otherwise
    /// passed through.
    pub fn to_add(&self) -> (r: Option<WorktreeAdd>)
        ensures
            r is Some <==> self.objection() is None,
            r matches Some(add) ==> {
                &&& add.path@ == trimmed(self.path@)
                &&& self.create_branch ==> (add.new_branch matches Some(b) && b@ == trimmed(
                    self.branch@,
                ))
                &&& !self.create_branch ==> add.new_branch is None
                &&& add.base_ref is Some <==> trimmed(self.base_ref@).len() > 0
                &&& add.base_ref matches Some(b) ==> b@ == trimmed(self.base_ref@)
            },
    {
        if !self.is_valid() {
            return None;
        }
        let base = trim(self.base_ref.as_str());
        let new_branch = if self.create_branch {
            Some(trim(self.branch.as_str()).to_owned())
        } else {
            None
        };
        let base_ref = if base.is_empty() {
            None
        } else {
            Some(base.to_owned())
        };
        Some(WorktreeAdd { path: trim(self.path.as_str()).to_owned(), new_branch, base_ref })
    }

    /// Takes in the branches that can be checked out. Where no base has been
    /// typed, the current branch becomes it.
    pub fn refs_arrived(&mut self, refs: Vec<RefEntry>, current: Option<String>)
        ensures
            final(self).refs == refs,
            final(self).refs_loaded,
            ({
                let loaded = CreateForm { refs, refs_loaded: true, ..*old(self) };
                match current {
                    Some(branch) if trimmed(old(self).base_ref@).len() == 0 => {
                        let based = CreateForm { base_ref: branch, ..loaded };
                        &&& final(self).path@ == (if based.path_edited {
                            based.path@
                        } else {
                            based.suggestion()
                        })
                        &&& *final(self) == CreateForm { path: final(self).path, ..based }
                    },
                    _ => *final(self) == loaded,
                }
            }),
    {
        self.refs = refs;
        self.refs_loaded = true;
        if trim(self.base_ref.as_str()).is_empty() {
            if let Some(branch) = current {
                self.base_ref = branch;
                self.sync_path();
            }
        }
    }
}

/// What the dialog is asking for.
#[derive(Debug, PartialEq, Eq)]
pub enum Outcome {
    Idle,
    Cancelled,
    Create(WorktreeAdd),
    /// Ask for the desktop's directory picker; the field stays typeable.
    Browse,
}

/// The window title, which names the project the worktree belongs to.
pub fn title(form: &CreateForm) -> (r: String)
    ensures
        r@ == "Create worktree — "@ + form.project_name@,
{
    let mut title = "Create worktree — ".to_owned();
    title.append(form.project_name.as_str());
    title
}

/// The caption over the base field.
pub fn base_caption(form: &CreateForm) -> (r: &'static str)
    ensures
        r@ == (if form.create_branch {
            "Base branch or commit"@
        } else {
            "Branch or commit to check out"@
        }),
{
    if form.create_branch {
        "Base branch or commit"
    } else {
        "Branch or commit to check out"
    }
}

/// The line over the buttons: what is missing, or what will be run.
pub fn advice(form: &CreateForm) -> (r: &'static str)
    ensures
        r@ == (match form.objection() {
            Some(message) => message,
            None => "Grove runs `git worktree add` and shows git's own output if it refuses."@,
        }),
{
    match form.problem() {
        Some(message) => message,
        None => "Grove runs `git worktree add` and shows git's own output if it refuses.",
    }
}

/// What the user did in the dialog in one frame. What was typed is in the form
/// already.
#[derive(Debug, Clone, Copy, PartialEq, Eq, Structural)]
pub struct Frame {
    /// The branch, the base or the choice between them was changed.
    pub source_changed: bool,
    /// The path was typed into.
    pub path_typed: bool,
    pub browse: bool,
    pub create: bool,
    pub cancel: bool,
}

/// What one frame of the dialog comes to: a path that was typed is the user's
/// from then on, any other follows the names; cancelling counts before creating,
/// and creating before browsing. A form with a problem creates nothing.
pub fn body(form: &mut CreateForm, frame: Frame) -> (r: Outcome)
    ensures
        *final(form) == (CreateForm {
            path: final(form).path,
            path_edited: old(form).path_edited || frame.path_typed,
            ..*old(form)
        }),
        final(form).path@ == (if frame.source_changed && !frame.path_typed && !old(
            form,
        ).path_edited {
            old(form).suggestion()
        } else {
            old(form).path@
        }),
        frame.cancel ==> r == Outcome::Cancelled,
        !frame.cancel && frame.create && final(form).objection() is None ==> {
            &&& r matches Outcome::Create(add) && add.path@ == trimmed(final(form).path@)
            &&& r->Create_0.new_branch is Some <==> final(form).create_branch
            &&& r->Create_0.new_branch matches Some(b) ==> b@ == trimmed(final(form).branch@)
            &&& r->Create_0.base_ref is Some <==> trimmed(final(form).base_ref@).len() > 0
            &&& r->Create_0.base_ref matches Some(b) ==> b@ == trimmed(final(form).base_ref@)
        },
        !frame.cancel && !(frame.create && final(form).objection() is None) ==> r == (
        if frame.browse {
            Outcome::Browse
        } else {
            Outcome::Idle
        }),
{
    if frame.path_typed {
        form.path_edited = true;
    }
    if frame.source_changed {
        form.sync_path();
    }
    if frame.cancel {
        return Outcome::Cancelled;
    }
    if frame.create {
        if let Some(add) = form.to_add() {
            return Outcome::Create(add);
        }
    }
    if frame.browse {
        Outcome::Browse
    } else {
        Outcome::Idle
    }
}

/// Takes a branch of the menu for the base.
pub fn base_ref_field(form: &mut CreateForm, chosen: usize) -> (r: bool)
    ensures
        r == (chosen < old(form).refs@.len()),
        *final(form) == (if chosen < old(form).refs@.len() {
            CreateForm { base_ref: old(form).refs@[chosen as int].name, ..*old(form) }
        } else {
            *old(form)
        }),
{
    if chosen < form.refs.len() {
        form.base_ref = form.refs[chosen].name.clone();
        true
    } else {
        false
    }
}

/// What the menu of branches says where it lists none.
pub fn refs_placeholder(form: &CreateForm) -> (r: Option<&'static str>)
    ensures
        (match r {
            Some(message) => Some(message@),
            None => None,
        }) == (if form.refs@.len() > 0 {
            None
        } else if form.refs_loaded {
            Some("no branches"@)
        } else {
            Some("loading…"@)
        }),
{
    if !form.refs.is_empty() {
        None
    } else if form.refs_loaded {
        Some("no branches")
    } else {
        Some("loading…")
    }
}

/// What `first_slash` finds is the first slash there is.
proof fn lemma_first_slash_is_first(s: Seq<char>, at: int)
    requires
        0 <= at < s.len(),
        s[at] == '/',
        forall|k: int| 0 <= k < at ==> #[trigger] s[k] != '/',
    ensures
        first_slash(s) == Some(at),
    decreases s.len(),
{
    let init = s.drop_last();
    if at < init.len() {
        assert forall|k: int| 0 <= k < at implies #[trigger] init[k] != '/' by {
            assert(s[k] != '/');
        }
        lemma_first_slash_is_first(init, at);
    } else {
        assert forall|k: int| 0 <= k < init.len() implies #[trigger] init[k] != '/' by {
            assert(s[k] != '/');
        }
        lemma_no_slash(init);
    }
}

proof fn lemma_no_slash(s: Seq<char>)
    requires
        forall|k: int| 0 <= k < s.len() ==> #[trigger] s[k] != '/',
    ensures
        first_slash(s) is None,
    decreases s.len(),
{
    if s.len() > 0 {
        let init = s.drop_last();
        assert forall|k: int| 0 <= k < init.len() implies #[trigger] init[k] != '/' by {
            assert(s[k] != '/');
        }
        lemma_no_slash(init);
        assert(s[s.len() - 1] != '/');
    }
}

/// `at` is the place of the name's first slash.
pub open spec fn slash_first_at(name: Seq<char>, at: int) -> bool {
    &&& 0 <= at < name.len()
    &&& name[at] == '/'
    &&& forall|k: int| 0 <= k < at ==> #[trigger] name[k] != '/'
}

/// The name of the branch begins with the first `n` characters of `name`.
pub open spec fn shares_start(entry: RefEntry, name: Seq<char>, n: int) -> bool {
    entry.name@.len() >= n && forall|k: int| 0 <= k < n ==> #[trigger] entry.name@[k] == name[k]
}

proof fn lemma_shares_start(entry: RefEntry, name: Seq<char>, at: int)
    requires
        slash_first_at(name, at),
    ensures
        shares_start(entry, name, at + 1) <==> starts_with(
            entry.name@,
            name.subrange(0, at) + "/"@,
        ),
{
    reveal_strlit("/");
    let prefix = name.subrange(0, at) + "/"@;
    assert(prefix.len() == at + 1);
    assert forall|k: int| 0 <= k < at + 1 implies prefix[k] == #[trigger] name[k] by {}
    if shares_start(entry, name, at + 1) {
        assert(entry.name@.subrange(0, at + 1) =~= prefix);
    }
    if starts_with(entry.name@, prefix) {
        assert forall|k: int| 0 <= k < at + 1 implies #[trigger] entry.name@[k] == name[k] by {
            assert(entry.name@.subrange(0, at + 1)[k] == prefix[k]);
            assert(prefix[k] == name[k]);
        }
    }
}

/// The directory is the name with a dash for each of its slashes.
pub open spec fn dashes_for_slashes(directory: Seq<char>, name: Seq<char>) -> bool {
    &&& directory.len() == name.len()
    &&& forall|k: int|
        0 <= k < name.len() ==> #[trigger] directory[k] == (if name[k] == '/' {
            '-'
        } else {
            name[k]
        })
}

/// A local branch keeps its whole name: where every branch that begins with the
/// first segment of what is checked out, and its slash, is local, the directory is
/// suggested after the whole name, with dashes for its slashes.
pub proof fn a_local_branch_keeps_its_whole_name(form: CreateForm, at: int) -> (directory: Seq<
    char,
>)
    requires
        !form.create_branch,
        slash_first_at(trimmed(form.base_ref@), at),
        forall|i: int|
            0 <= i < form.refs@.len() && shares_start(
                #[trigger] form.refs@[i],
                trimmed(form.base_ref@),
                at + 1,
            ) ==> !form.refs@[i].is_remote,
    ensures
        form.source() == trimmed(form.base_ref@),
        dashes_for_slashes(directory, trimmed(form.base_ref@)),
        form.suggestion() == joined_path(form.default_parent@, directory),
{
    let name = trimmed(form.base_ref@);
    lemma_first_slash_is_first(name, at);
    let candidate = name.subrange(0, at);
    if names_remote(form.refs@, candidate) {
        let i = choose|i: int|
            0 <= i < form.refs@.len() && (#[trigger] form.refs@[i]).is_remote && starts_with(
                form.refs@[i].name@,
                candidate + "/"@,
            );
        lemma_shares_start(form.refs@[i], name, at);
    }
    dashed(name)
}

/// The name of a remote is not part of the directory: where some remote branch
/// begins with the first segment of what is checked out, and its slash, the
/// directory is suggested after what follows that slash.
pub proof fn a_remote_branch_loses_its_remote(form: CreateForm, at: int, i: int) -> (directory: Seq<
    char,
>)
    requires
        !form.create_branch,
        slash_first_at(trimmed(form.base_ref@), at),
        0 <= i < form.refs@.len(),
        form.refs@[i].is_remote,
        shares_start(form.refs@[i], trimmed(form.base_ref@), at + 1),
    ensures
        ({
            let name = trimmed(form.base_ref@);
            let rest = name.subrange(at + 1, name.len() as int);
            &&& form.source() == rest
            &&& dashes_for_slashes(directory, rest)
            &&& form.suggestion() == (if rest.len() == 0 {
                Seq::<char>::empty()
            } else {
                joined_path(form.default_parent@, directory)
            })
        }),
{
    let name = trimmed(form.base_ref@);
    lemma_first_slash_is_first(name, at);
    lemma_shares_start(form.refs@[i], name, at);
    assert(names_remote(form.refs@, name.subrange(0, at)));
    dashed(name.subrange(at + 1, name.len() as int))
}

/// A segment is dropped only for a remote: where the directory is not derived from
/// the whole of what is checked out, some remote branch begins with its first
/// segment and a slash.
pub proof fn a_segment_is_dropped_only_for_a_remote(form: CreateForm)
    requires
        !form.create_branch,
        form.source() != trimmed(form.base_ref@),
    ensures
        exists|at: int, i: int|
            #![trigger slash_first_at(trimmed(form.base_ref@), at), form.refs@[i]]
            slash_first_at(trimmed(form.base_ref@), at) && 0 <= i < form.refs@.len()
                && form.refs@[i].is_remote && shares_start(
                form.refs@[i],
                trimmed(form.base_ref@),
                at + 1,
            ),
{
    let name = trimmed(form.base_ref@);
    if forall|k: int| 0 <= k < name.len() ==> #[trigger] name[k] != '/' {
        lemma_no_slash(name);
    } else {
        let at = lemma_a_first_slash(name);
        lemma_first_slash_is_first(name, at);
        let candidate = name.subrange(0, at);
        assert(names_remote(form.refs@, candidate));
        let i = choose|i: int|
            0 <= i < form.refs@.len() && (#[trigger] form.refs@[i]).is_remote && starts_with(
                form.refs@[i].name@,
                candidate + "/"@,
            );
        lemma_shares_start(form.refs@[i], name, at);
        assert(slash_first_at(trimmed(form.base_ref@), at));
        assert(form.refs@[i].is_remote);
    }
}

proof fn lemma_a_first_slash(s: Seq<char>) -> (at: int)
    requires
        exists|k: int| 0 <= k < s.len() && #[trigger] s[k] == '/',
    ensures
        slash_first_at(s, at),
    decreases s.len(),
{
    let init = s.drop_last();
    if exists|k: int| 0 <= k < init.len() && #[trigger] init[k] == '/' {
        let at = lemma_a_first_slash(init);
        assert forall|k: int| 0 <= k < at implies #[trigger] s[k] != '/' by {
            assert(init[k] != '/');
        }
        assert(s[at] == init[at]);
        at
    } else {
        let k = choose|k: int| 0 <= k < s.len() && #[trigger] s[k] == '/';
        if k < init.len() {
            assert(init[k] == '/');
        }
        assert forall|m: int| 0 <= m < s.len() - 1 implies #[trigger] s[m] != '/' by {
            assert(init[m] != '/');
        }
        s.len() - 1
    }
}

/// A branch that is to be created gives the directory its whole name, whatever
/// branches there are; so does a name without a slash that is checked out.
pub proof fn a_new_branch_keeps_its_whole_name(form: CreateForm)
    ensures
        form.create_branch ==> form.source() == trimmed(form.branch@),
        !form.create_branch && (forall|k: int|
            0 <= k < trimmed(form.base_ref@).len() ==> #[trigger] trimmed(form.base_ref@)[k]
                != '/') ==> form.source() == trimmed(form.base_ref@),
        form.source().len() == 0 ==> form.suggestion().len() == 0,
{
    if !form.create_branch && (forall|k: int|
        0 <= k < trimmed(form.base_ref@).len() ==> #[trigger] trimmed(form.base_ref@)[k] != '/') {
        lemma_no_slash(trimmed(form.base_ref@));
    }
}

/// A form can be submitted exactly where it names a directory and the branch it is
/// about: the new one, or what is checked out.
pub proof fn a_form_asks_for_a_name_and_a_directory(form: CreateForm)
    ensures
        form.objection() is None <==> trimmed(form.path@).len() > 0 && (form.create_branch
            ==> trimmed(form.branch@).len() > 0) && (!form.create_branch ==> trimmed(
            form.base_ref@,
        ).len() > 0),
        form.create_branch && trimmed(form.branch@).len() == 0 ==> form.objection() == Some(
            "A branch name is required."@,
        ),
        !form.create_branch && trimmed(form.base_ref@).len() == 0 ==> form.objection() == Some(
            "Choose the branch or commit to check out."@,
        ),
{
}

}
