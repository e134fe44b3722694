use vstd::prelude::*;

use crate::identity::Identity;
use crate::interface::IStorage;
use crate::storage::Storage;
use crate::user::Error;
use crate::user::User;

verus! {

/// Law: on the production backend, setting a value and then retrieving it
/// on the same backend yields exactly that value, for every value and every
/// prior backend state. (The no-op mock is deliberately exempt: its
/// divergence is the point of it.)
pub proof fn lemma_set_retrieve_roundtrip(s: Storage, v: u128)
    ensures
        s.with_value(v).stored() == v,
{
}

/// Law: on a proxy, any call to `set`, `retrieve` or `set_storage` by an
/// identity other than the recorded owner fails with `Unauthorized` and
/// leaves the proxy — and with it the bound backend's state — exactly as it
/// was.
pub proof fn lemma_owner_only_access<B: IStorage>(u: User<B>, caller: Identity, v: u128, b: B)
    requires
        caller != u.owner,
    ensures
        u.spec_set(caller, v) == (u, Err::<(), Error>(Error::Unauthorized)),
        u.spec_retrieve(caller) == Err::<u128, Error>(Error::Unauthorized),
        u.spec_set_storage(caller, b) == (u, Err::<(), Error>(Error::Unauthorized)),
{
}

/// Law: the proxy delegates transparently. An owner `set(v)` followed by an
/// owner `retrieve()` reports exactly what the backend itself would report
/// directly after that `set` — the proxy neither caches a value nor assumes
/// anything about the backend's reaction.
pub proof fn lemma_owner_delegation_transparency<B: IStorage>(u: User<B>, v: u128)
    ensures
        u.spec_set(u.owner, v).0.spec_retrieve(u.owner)
            == Ok::<u128, Error>(u.storage.with_value(v).stored()),
{
}

/// Law: over the production backend, owner delegation returns the value
/// just set: `set(v)` then `retrieve()` through the proxy yields `Ok(v)`.
pub proof fn lemma_owner_roundtrip_production(u: User<Storage>, v: u128)
    ensures
        u.spec_set(u.owner, v).0.spec_retrieve(u.owner) == Ok::<u128, Error>(v),
{
}

/// Law: backend substitution is complete. After the owner rebinds the proxy
/// to a new backend handle, the binding is exactly the new handle, and an
/// owner `retrieve` reports that handle's stored value — a function of the
/// new handle alone, with no residual influence from the backend bound
/// before.
pub proof fn lemma_backend_substitutability<B: IStorage>(u: User<B>, b: B)
    ensures
        u.spec_set_storage(u.owner, b).0.storage == b,
        u.spec_set_storage(u.owner, b).0.spec_retrieve(u.owner) == Ok::<u128, Error>(b.stored()),
{
}

} // verus!
