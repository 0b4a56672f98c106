//! One way in for every activity, whether it came from another instance or
//! was made here: find out what it is, check it, and only then let it change
//! the local records.

use crate::activity::{
    addressed_publicly, delete_verified, lock_received, lock_verified, ActivityError, Delete,
    LockPage, UndoLockPage,
};
use crate::local_state::{text_view, LocalState, LocalStateView};
use vstd::prelude::*;

verus! {

/// The kinds of activity that are handled.
#[derive(Clone, Copy, Debug, PartialEq, Eq, Structural)]
pub enum ActivityKind {
    LockPage,
    UndoLockPage,
    Delete,
}

/// The kind that goes by a type tag on the wire, if there is one.
pub open spec fn kind_tagged(tag: Seq<char>) -> Option<ActivityKind> {
    if tag == "Lock"@ {
        Some(ActivityKind::LockPage)
    } else if tag == "Undo"@ {
        Some(ActivityKind::UndoLockPage)
    } else if tag == "Delete"@ {
        Some(ActivityKind::Delete)
    } else {
        None
    }
}

impl ActivityKind {
    /// The kind that goes by the type tag. A tag that stands for no kind is
    /// turned down.
    pub fn from_wire(tag: &str) -> (result: Result<ActivityKind, ActivityError>)
        ensures
            result == match kind_tagged(tag@) {
                Some(kind) => Ok::<ActivityKind, ActivityError>(kind),
                None => Err(ActivityError::UnknownActivityType),
            },
    {
        let tag = tag.to_owned();
        if tag == "Lock".to_owned() {
            Ok(ActivityKind::LockPage)
        } else if tag == "Undo".to_owned() {
            Ok(ActivityKind::UndoLockPage)
        } else if tag == "Delete".to_owned() {
            Ok(ActivityKind::Delete)
        } else {
            Err(ActivityError::UnknownActivityType)
        }
    }

    /// The type tag of the kind.
    pub fn wire_type(&self) -> (tag: &'static str)
        ensures
            kind_tagged(tag@) == Some(*self),
    {
        proof {
            reveal_strlit("Lock");
            reveal_strlit("Undo");
            reveal_strlit("Delete");
            assert("Lock"@.len() == 4 && "Undo"@.len() == 4 && "Delete"@.len() == 6);
            assert("Lock"@[0] == 'L' && "Undo"@[0] == 'U');
        }
        match self {
            ActivityKind::LockPage => "Lock",
            ActivityKind::UndoLockPage => "Undo",
            ActivityKind::Delete => "Delete",
        }
    }
}

/// An activity of one of the kinds that are handled.
#[derive(Clone, Debug, PartialEq, Eq)]
pub enum Activity {
    LockPage(LockPage),
    UndoLockPage(UndoLockPage),
    Delete(Delete),
}

impl Activity {
    /// What `verify` answers on these records.
    pub open spec fn verified(&self, state: LocalStateView) -> Result<(), ActivityError> {
        match self {
            Activity::LockPage(lock) => lock_verified(
                state,
                lock.actor,
                lock.object,
                addressed_publicly(lock.to@, lock.cc@),
            ),
            Activity::UndoLockPage(undo) => lock_verified(
                state,
                undo.actor,
                undo.object.object,
                addressed_publicly(undo.to@, undo.cc@),
            ),
            Activity::Delete(delete) => delete_verified(
                state,
                delete.actor,
                delete.object,
                delete.summary is Some,
                addressed_publicly(delete.to@, delete.cc@),
            ),
        }
    }

    /// What `receive` makes of these records.
    pub open spec fn received(&self, state: LocalStateView) -> Result<
        LocalStateView,
        ActivityError,
    > {
        match self {
            Activity::LockPage(lock) => lock_received(
                state,
                lock.id@,
                lock.actor,
                lock.object,
                true,
                text_view(lock.summary),
            ),
            Activity::UndoLockPage(undo) => lock_received(
                state,
                undo.id@,
                undo.actor,
                undo.object.object,
                false,
                text_view(undo.summary),
            ),
            Activity::Delete(delete) => delete.received(state),
        }
    }

    /// What `apply` makes of these records: what `receive` makes of them if
    /// the activity passes `verify`, and the reason why not if either fails.
    pub open spec fn applied(&self, state: LocalStateView) -> Result<LocalStateView, ActivityError> {
        match self.verified(state) {
            Ok(_) => self.received(state),
            Err(error) => Err(error),
        }
    }

    /// The kind of the activity.
    pub fn kind(&self) -> (kind: ActivityKind)
        ensures
            kind == match self {
                Activity::LockPage(_) => ActivityKind::LockPage,
                Activity::UndoLockPage(_) => ActivityKind::UndoLockPage,
                Activity::Delete(_) => ActivityKind::Delete,
            },
    {
        match self {
            Activity::LockPage(_) => ActivityKind::LockPage,
            Activity::UndoLockPage(_) => ActivityKind::UndoLockPage,
            Activity::Delete(_) => ActivityKind::Delete,
        }
    }

    /// Checks the activity against the records. Changes nothing.
    pub fn verify(&self, state: &LocalState) -> (result: Result<(), ActivityError>)
        ensures
            result == self.verified(state@),
    {
        match self {
            Activity::LockPage(lock) => lock.verify(state),
            Activity::UndoLockPage(undo) => undo.verify(state),
            Activity::Delete(delete) => delete.verify(state),
        }
    }

    /// Makes the change that the activity stands for. Where this fails,
    /// nothing has changed.
    pub fn receive(&self, state: &mut LocalState) -> (result: Result<(), ActivityError>)
        ensures
            match self.received(old(state)@) {
                Ok(after) => result is Ok && final(state)@ == after,
                Err(error) => result == Err::<(), ActivityError>(error) && final(state)@ == old(
                    state,
                )@,
            },
    {
        match self {
            Activity::LockPage(lock) => lock.receive(state),
            Activity::UndoLockPage(undo) => undo.receive(state),
            Activity::Delete(delete) => delete.receive(state),
        }
    }

    /// Checks the activity and, if it passes, makes the change. An activity
    /// that is turned down, at either step, leaves the records as they were,
    /// and the reason is returned.
    pub fn apply(&self, state: &mut LocalState) -> (result: Result<(), ActivityError>)
        ensures
            match self.applied(old(state)@) {
                Ok(after) => result is Ok && final(state)@ == after,
                Err(error) => result == Err::<(), ActivityError>(error) && final(state)@ == old(
                    state,
                )@,
            },
    {
        match self.verify(state) {
            Ok(_) => self.receive(state),
            Err(error) => Err(error),
        }
    }
}

} // verus!
