use vstd::prelude::*;

use crate::identity::Identity;
use crate::interface::IStorage;

verus! {

/// A richer entity keyed by an [`Identity`] in the production backend's
/// record collection. The schema is reserved for forward compatibility: the
/// storage interface does not operate on it, and the credit bound
/// (`available_credits <= total_credits`) is deliberately not enforced here.
pub struct Project {
    pub name: String,
    pub description: String,
    pub owner: Identity,
    pub status: u128,
    pub available_credits: u128,
    pub total_credits: u128,
}

/// The production backend: the concrete holder of the stored value, plus a
/// reserved record collection keyed by identity. It owns its state
/// exclusively and is reachable only through [`IStorage`].
pub struct Storage {
    pub value: u128,
    pub projects: Vec<(Identity, Project)>,
}

impl Storage {
    /// Construction initializes the stored value to zero and the record
    /// collection to empty.
    pub fn new() -> (r: Storage)
        ensures
            r.stored() == 0,
            r.value == 0,
            r.projects@ == Seq::<(Identity, Project)>::empty(),
    {
        Storage { value: 0, projects: Vec::new() }
    }

    /// Reads the internal stored value.
    fn _retrieve(&self) -> (r: u128)
        ensures
            r == self.value,
    {
        self.value
    }

    /// Overwrites the internal stored value unconditionally; the record
    /// collection is untouched.
    fn _set(&mut self, value: u128)
        ensures
            *final(self) == old(self).with_value(value),
    {
        self.value = value;
    }
}

impl IStorage for Storage {
    open spec fn stored(&self) -> u128 {
        self.value
    }

    open spec fn with_value(&self, value: u128) -> Storage {
        Storage { value, projects: self.projects }
    }

    /// Replaces the stored value with `value`; always succeeds, and every
    /// subsequent `retrieve` observes it.
    fn set(&mut self, value: u128) {
        self._set(value)
    }

    /// Returns the stored value; pure.
    fn retrieve(&self) -> u128 {
        self._retrieve()
    }
}

} // verus!
