//! The dialogs and what their forms allow.
use vstd::prelude::*;
use vstd::string::*;

use crate::text::{decimal, number, trim, trimmed};

pub mod create_worktree;
pub mod open_project;
pub mod removal;

verus! {

/// Something that failed, as it is shown.
#[derive(Debug, Clone, PartialEq, Eq)]
pub struct ErrorReport {
    pub summary: String,
    /// What the command that failed printed, where one ran.
    pub detail: Option<String>,
}

/// Outcome of the open-project prompt.
#[derive(Debug, PartialEq, Eq)]
pub enum OpenProject {
    Idle,
    Cancelled,
    Confirmed(String),
}

/// What the open-project prompt comes to in one frame: a path that is more than
/// white space can be confirmed, whatever else was pressed; a prompt that was
/// shut is cancelled.
pub fn open_project(path: &str, submitted: bool, cancelled: bool, still_open: bool) -> (r:
    OpenProject)
    ensures
        submitted && trimmed(path@).len() > 0 ==> (r matches OpenProject::Confirmed(p) && p@
            == trimmed(path@)),
        !(submitted && trimmed(path@).len() > 0) ==> r == (if cancelled || !still_open {
            OpenProject::Cancelled
        } else {
            OpenProject::Idle
        }),
{
    let typed = trim(path);
    if submitted && !typed.is_empty() {
        return OpenProject::Confirmed(typed.to_owned());
    }
    if cancelled || !still_open {
        OpenProject::Cancelled
    } else {
        OpenProject::Idle
    }
}

/// The heading of the error area: how many problems there are.
pub fn problem_count(errors: &Vec<ErrorReport>) -> (r: String)
    ensures
        r@ == decimal(errors@.len()) + (if errors@.len() == 1 {
            " problem"@
        } else {
            " problems"@
        }),
{
    let mut line = number(errors.len() as u64);
    line.append(if errors.len() == 1 {
        " problem"
    } else {
        " problems"
    });
    line
}

}
