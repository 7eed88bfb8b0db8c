//! One window of a session, as a row under its worktree.
use vstd::prelude::*;
use vstd::string::*;

use crate::model::WindowInfo;
use crate::text::{decimal, number};

verus! {

/// What the user did on a window row.
#[derive(Debug, Clone, Copy, PartialEq, Eq, Structural)]
pub enum WindowAction {
    /// Open this window.
    Activate,
}

/// The row's text: the window's number and its name.
pub fn label(window: &WindowInfo) -> (r: String)
    ensures
        r@ == decimal(window.index as nat) + ": "@ + window.name@,
{
    let mut line = number(window.index as u64);
    line.append(": ");
    line.append(window.name.as_str());
    line
}

}
