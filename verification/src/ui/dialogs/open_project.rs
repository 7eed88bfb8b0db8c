//! The open-project dialog. It asks for a path; whether there is a repository is
//! decided elsewhere, so the field is always typeable.
use vstd::prelude::*;
use vstd::string::*;

use crate::text::{trim, trimmed};

verus! {

/// Everything the dialog holds between frames.
#[derive(Debug, Clone, PartialEq, Eq)]
pub struct OpenProjectForm {
    /// What has been typed, or the path the window was opened on.
    pub path: String,
    /// The field has been given focus already. Focus is asked for once.
    pub focused: bool,
}

impl OpenProjectForm {
    /// An empty form.
    pub fn empty() -> (r: Self)
        ensures
            r.path@ == Seq::<char>::empty(),
            !r.focused,
    {
        OpenProjectForm { path: String::new(), focused: false }
    }

    /// A form prefilled with a path.
    pub fn at(path: String) -> (r: Self)
        ensures
            r.path == path,
            !r.focused,
    {
        OpenProjectForm { path, focused: false }
    }

    /// Whether the field is to be given focus on this frame: on the first one
    /// only.
    pub fn take_focus(&mut self) -> (r: bool)
        ensures
            r == !old(self).focused,
            *final(self) == (OpenProjectForm { focused: true, ..*old(self) }),
    {
        let wanted = !self.focused;
        self.focused = true;
        wanted
    }
}

/// What the dialog is asking for.
#[derive(Debug, PartialEq, Eq)]
pub enum Outcome {
    Idle,
    Cancelled,
    Confirmed(String),
    /// Ask for the desktop's directory picker; the field stays typeable.
    Browse,
}

/// What one frame of the dialog comes to: cancelling counts before opening, and
/// opening before browsing. Only a path that is more than white space can be
/// opened.
pub fn body(form: &OpenProjectForm, browse: bool, submitted: bool, cancelled: bool) -> (r: Outcome)
    ensures
        cancelled ==> r == Outcome::Cancelled,
        !cancelled && submitted && trimmed(form.path@).len() > 0 ==> (r matches Outcome::Confirmed(
            p,
        ) && p@ == trimmed(form.path@)),
        !cancelled && !(submitted && trimmed(form.path@).len() > 0) ==> r == (if browse {
            Outcome::Browse
        } else {
            Outcome::Idle
        }),
{
    if cancelled {
        return Outcome::Cancelled;
    }
    let typed = trim(form.path.as_str());
    if submitted && !typed.is_empty() {
        return Outcome::Confirmed(typed.to_owned());
    }
    if browse {
        Outcome::Browse
    } else {
        Outcome::Idle
    }
}

}
