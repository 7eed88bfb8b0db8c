//! Deciding what one service event means before anything is applied.
//!
//! Events can be replayed, reordered or dropped on the way; the revisions say
//! which are worth applying.
use vstd::prelude::*;

use crate::workers::ServiceUpdate;

verus! {

/// What to do with an event that has arrived.
pub enum ServiceEventAction {
    /// It was seen before.
    Ignore,
    /// It cannot be read: poll instead of applying half of it.
    Recover(String),
    Apply {
        revision: u64,
        update: ServiceUpdate,
        /// Events before this one are missing.
        gap: bool,
    },
}

/// What an event comes to, given the highest revision already applied and what
/// reading its payload came to.
pub fn classify_service_event(
    last_revision: u64,
    revision: u64,
    decoded: Result<ServiceUpdate, String>,
) -> (r: ServiceEventAction)
    ensures
        r == (if revision <= last_revision {
            ServiceEventAction::Ignore
        } else {
            match decoded {
                Ok(update) => ServiceEventAction::Apply {
                    revision,
                    update,
                    gap: revision > last_revision + 1,
                },
                Err(error) => ServiceEventAction::Recover(error),
            }
        }),
{
    if revision <= last_revision {
        return ServiceEventAction::Ignore;
    }
    let gap = revision > last_revision.saturating_add(1);
    match decoded {
        Ok(update) => ServiceEventAction::Apply { revision, update, gap },
        Err(error) => ServiceEventAction::Recover(error),
    }
}

}
