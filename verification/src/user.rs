use vstd::prelude::*;

use crate::identity::Identity;
use crate::interface::IStorage;

verus! {

/// The errors the proxy surfaces to its immediate caller. Every failure
/// aborts the current call with no partial mutation on either side.
#[derive(Clone, Copy, PartialEq, Eq, Structural, Debug)]
pub enum Error {
    /// The calling identity differs from the proxy's recorded owner; raised
    /// before any delegation occurs.
    Unauthorized,
}

/// The owner-gated front component: it holds an owner identity and a handle
/// to some [`IStorage`] implementor, exposes the same logical operations as
/// the interface, and gates every call behind the ownership check. It never
/// stores the numeric value itself: every operation is forwarded to the
/// bound backend, and the backend binding can be replaced wholesale by the
/// owner.
///
/// The calling identity is threaded into every operation as an explicit
/// parameter; the external execution environment is trusted to supply it
/// truthfully.
pub struct User<B: IStorage> {
    /// The identity recorded at construction time; immutable afterwards.
    pub owner: Identity,
    /// The currently bound backend handle.
    pub storage: B,
}

impl<B: IStorage> User<B> {
    /// The authorization rule: only the recorded owner may invoke the
    /// proxy's operations.
    pub open spec fn authorized(&self, caller: Identity) -> bool {
        caller == self.owner
    }

    /// What `set` leaves behind and returns: for the owner, the backend
    /// moves to its implementor-defined post-`set` state; for anyone else,
    /// nothing changes and the call fails.
    pub open spec fn spec_set(self, caller: Identity, value: u128) -> (User<B>, Result<(), Error>) {
        if self.authorized(caller) {
            (User { owner: self.owner, storage: self.storage.with_value(value) }, Ok(()))
        } else {
            (self, Err(Error::Unauthorized))
        }
    }

    /// What `retrieve` returns: the bound backend's stored value for the
    /// owner, `Unauthorized` for anyone else.
    pub open spec fn spec_retrieve(self, caller: Identity) -> Result<u128, Error> {
        if self.authorized(caller) {
            Ok(self.storage.stored())
        } else {
            Err(Error::Unauthorized)
        }
    }

    /// What `set_storage` leaves behind and returns: for the owner, the
    /// previous binding is replaced entirely by the new handle; for anyone
    /// else, nothing changes and the call fails.
    pub open spec fn spec_set_storage(self, caller: Identity, storage: B) -> (User<B>, Result<(), Error>) {
        if self.authorized(caller) {
            (User { owner: self.owner, storage }, Ok(()))
        } else {
            (self, Err(Error::Unauthorized))
        }
    }

    /// Construction records the given caller identity as owner and binds
    /// the proxy to the given backend handle. No validation of the handle
    /// is performed here: whether it behaves usefully is discovered at the
    /// first forwarded call.
    pub fn new(caller: Identity, storage: B) -> (r: User<B>)
        ensures
            r == (User { owner: caller, storage }),
    {
        User { owner: caller, storage }
    }

    /// Forwards `set(value)` to the bound backend, gated on ownership: a
    /// non-owner caller gets `Unauthorized`, and neither the proxy nor the
    /// backend changes.
    pub fn set(&mut self, caller: Identity, value: u128) -> (r: Result<(), Error>)
        ensures
            (*final(self), r) == old(self).spec_set(caller, value),
    {
        match self.only_owner(caller) {
            Ok(()) => {
                self.storage.set(value);
                Ok(())
            }
            Err(e) => Err(e),
        }
    }

    /// Forwards `retrieve()` to the bound backend and returns its result
    /// unchanged, gated on ownership. No side effect in any case.
    pub fn retrieve(&self, caller: Identity) -> (r: Result<u128, Error>)
        ensures
            r == self.spec_retrieve(caller),
    {
        match self.only_owner(caller) {
            Ok(()) => Ok(self.storage.retrieve()),
            Err(e) => Err(e),
        }
    }

    /// Rebinds the proxy to a new backend handle, gated on ownership. The
    /// previous binding is replaced entirely: no merge, no history.
    pub fn set_storage(&mut self, caller: Identity, storage: B) -> (r: Result<(), Error>)
        ensures
            (*final(self), r) == old(self).spec_set_storage(caller, storage),
    {
        match self.only_owner(caller) {
            Ok(()) => {
                self.storage = storage;
                Ok(())
            }
            Err(e) => Err(e),
        }
    }

    /// The ownership check, evaluated fresh at every call site: equality
    /// failure against the recorded owner is the sole trigger for
    /// `Unauthorized`.
    fn only_owner(&self, caller: Identity) -> (r: Result<(), Error>)
        ensures
            self.authorized(caller) <==> r == Ok::<(), Error>(()),
            !self.authorized(caller) <==> r == Err::<(), Error>(Error::Unauthorized),
    {
        if caller == self.owner {
            Ok(())
        } else {
            Err(Error::Unauthorized)
        }
    }
}

} // verus!
