//! Objects with several owners.
//!
//! An object that a handler hands out may be held by more than one party.
//! Each of them is counted, and the object is closed when the last of
//! them lets go, not before and not twice.

use vstd::prelude::*;
use crate::ipc::server::IObject;
use crate::ipc::sf::CloseAction;

verus! {

/// An object and the number of its owners.
pub struct Shared<T: IObject> {
    object: T,
    owners: usize,
}

impl<T: IObject> Shared<T> {
    /// The object.
    pub closed spec fn object_of(self) -> T {
        self.object
    }

    /// The number of owners. An object without owners has been closed.
    pub closed spec fn owners_of(self) -> nat {
        self.owners as nat
    }

    /// Takes an object for its first owner.
    pub fn new(object: T) -> (shared: Self)
        ensures
            shared.object_of() == object,
            shared.owners_of() == 1,
    {
        Self { object, owners: 1 }
    }

    /// The number of owners.
    pub fn owners(&self) -> (n: usize)
        ensures
            n == self.owners_of(),
    {
        self.owners
    }

    /// The object, for reading.
    pub fn get(&self) -> (object: &T)
        ensures
            *object == self.object_of(),
    {
        &self.object
    }

    /// The object, for changing in place.
    pub fn get_mut(&mut self) -> (object: &mut T)
        ensures
            *object == old(self).object_of(),
            final(self).object_of() == *final(object),
            final(self).owners_of() == old(self).owners_of(),
    {
        &mut self.object
    }

    /// Counts one more owner.
    ///
    /// Refuses, and changes nothing, when the object has no owner left or
    /// the count cannot grow.
    pub fn acquire(&mut self) -> (added: bool)
        ensures
            final(self).object_of() == old(self).object_of(),
            added == (0 < old(self).owners_of() < usize::MAX),
            added ==> final(self).owners_of() == old(self).owners_of() + 1,
            !added ==> final(self).owners_of() == old(self).owners_of(),
    {
        if self.owners == 0 || self.owners == usize::MAX {
            false
        } else {
            self.owners = self.owners + 1;
            true
        }
    }

    /// Lets one owner go.
    ///
    /// The last owner closes the session of the object, and what is
    /// returned says which calls remain to be made. Any other release
    /// leaves the object as it is and asks for nothing.
    pub fn release(&mut self) -> (action: CloseAction)
        ensures
            old(self).owners_of() == 0 ==> final(self).owners_of() == 0,
            old(self).owners_of() > 0 ==> final(self).owners_of() == old(self).owners_of() - 1,
            old(self).owners_of() != 1 ==> action == CloseAction::Nothing
                && final(self).object_of() == old(self).object_of(),
            old(self).owners_of() == 1 ==> {
                let session = old(self).object_of().session_of();
                &&& final(self).object_of().session_of() == session.closed()
                &&& !session.must_release() ==> action == CloseAction::Nothing
                &&& session.must_release() ==> session.asks_release(action)
            },
    {
        if self.owners == 0 {
            CloseAction::Nothing
        } else if self.owners > 1 {
            self.owners = self.owners - 1;
            CloseAction::Nothing
        } else {
            self.owners = 0;
            self.object.close_session()
        }
    }
}

} // verus!
