//! The lifecycle of the detached windows, and what the keyboard means in one.
use vstd::prelude::*;

verus! {

/// One dialog per kind, and asking for it again raises the one on screen.
#[derive(Debug, Clone, PartialEq, Eq)]
pub struct Detached<T> {
    pub form: Option<T>,
    /// The window is to be raised on the next frame.
    pub focus: bool,
}

impl<T> Default for Detached<T> {
    fn default() -> (r: Self)
        ensures
            r.form is None,
            !r.focus,
            r.settled(),
    {
        Detached { form: None, focus: false }
    }
}

impl<T> Detached<T> {
    /// A closed window has no focus request.
    pub open spec fn settled(self) -> bool {
        self.form is None ==> !self.focus
    }

    /// Opens the window on `form`, raising it if it was already open.
    pub fn open(&mut self, form: T)
        ensures
            final(self).form == Some(form),
            final(self).focus,
            final(self).settled(),
    {
        self.form = Some(form);
        self.focus = true;
    }

    /// Opens the window, or focuses the one that already shows what was asked
    /// for: `is_same` says whether it does. True where `form` was installed.
    pub fn open_or_focus<F: FnOnce(&T) -> bool>(&mut self, form: T, is_same: F) -> (r: bool)
        requires
            old(self).form matches Some(existing) ==> is_same.requires((&existing,)),
        ensures
            r ==> {
                &&& final(self).form == Some(form)
                &&& old(self).form matches Some(existing) ==> is_same.ensures((&existing,), false)
            },
            !r ==> {
                &&& final(self).form == old(self).form
                &&& old(self).form is Some
                &&& is_same.ensures((&old(self).form->0,), true)
            },
            final(self).focus,
            final(self).settled(),
    {
        let already = match &self.form {
            Some(existing) => is_same(existing),
            None => false,
        };
        if already {
            self.focus = true;
            false
        } else {
            self.open(form);
            true
        }
    }

    /// Raises the window if it is open; does nothing if it is not.
    pub fn request_focus(&mut self)
        ensures
            final(self).form == old(self).form,
            final(self).focus == (old(self).form is Some || old(self).focus),
            old(self).settled() ==> final(self).settled(),
    {
        if self.form.is_some() {
            self.focus = true;
        }
    }

    /// Takes the window down. A closed window stays closed.
    pub fn close(&mut self)
        ensures
            final(self).form is None,
            !final(self).focus,
            final(self).settled(),
    {
        self.form = None;
        self.focus = false;
    }

    pub fn is_open(&self) -> (r: bool)
        ensures
            r == self.form is Some,
    {
        self.form.is_some()
    }

    pub fn get(&self) -> (r: Option<&T>)
        ensures
            r == (match self.form {
                Some(form) => Some(&form),
                None => None,
            }),
    {
        self.form.as_ref()
    }

    /// The form, to be changed in place.
    pub fn get_mut(&mut self) -> (r: Option<&mut T>)
        ensures
            final(self).focus == old(self).focus,
            old(self).settled() ==> final(self).settled(),
            match old(self).form {
                None => r is None && final(self).form is None,
                Some(form) => r matches Some(held) && *held == form && final(self).form == Some(
                    *final(held),
                ),
            },
    {
        self.form.as_mut()
    }

    /// Takes a pending focus request.
    pub fn take_focus_request(&mut self) -> (r: bool)
        ensures
            r == old(self).focus,
            final(self).form == old(self).form,
            !final(self).focus,
            final(self).settled(),
    {
        let asked = self.focus;
        self.focus = false;
        asked
    }
}

/// What a key press in a detached window means.
#[derive(Debug, Clone, Copy, PartialEq, Eq, Structural)]
pub enum DialogKey {
    /// Close this window only.
    Close,
    /// Quit Grove.
    Quit,
}

/// What the keyboard just asked a detached window to do. Quitting wins over
/// closing in one frame.
pub fn dialog_key(esc: bool, ctrl_w: bool, ctrl_q: bool, close_requested: bool) -> (r: Option<
    DialogKey,
>)
    ensures
        r == (if ctrl_q {
            Some(DialogKey::Quit)
        } else if esc || ctrl_w || close_requested {
            Some(DialogKey::Close)
        } else {
            None
        }),
{
    if ctrl_q {
        return Some(DialogKey::Quit);
    }
    if esc || ctrl_w || close_requested {
        return Some(DialogKey::Close);
    }
    None
}

/// What one frame of a detached window comes to: whether it goes away, and
/// whether Grove does. The cross in the header closes this window whatever was
/// pressed.
pub fn frame_end(cross: bool, key: Option<DialogKey>) -> (r: (bool, bool))
    ensures
        r.0 == (cross || key == Some(DialogKey::Close)),
        r.1 == (key == Some(DialogKey::Quit)),
{
    match key {
        Some(DialogKey::Close) => (true, false),
        Some(DialogKey::Quit) => (cross, true),
        None => (cross, false),
    }
}

/// What one frame of a detached window produced.
pub struct Dialog<R> {
    /// Whatever the content returned this frame.
    pub inner: R,
    /// The user asked for the window to go away.
    pub close: bool,
}

}
