use vstd::prelude::*;

use crate::interface::IStorage;
use crate::mock::MockStorageB;
use crate::storage::Storage;

verus! {

/// A dynamic-dispatch handle over the conformant backends: the typed
/// capability reference that the external resolution step yields for a raw
/// address. A proxy bound to a `Backend` can be re-targeted at runtime from
/// one implementor to another, which is what makes backend substitution
/// observable behind a single interface.
pub enum Backend {
    /// The production backend, holding real state.
    Production(Storage),
    /// The no-op mock backend.
    Mock(MockStorageB),
}

impl IStorage for Backend {
    open spec fn stored(&self) -> u128 {
        match self {
            Backend::Production(s) => s.stored(),
            Backend::Mock(m) => m.stored(),
        }
    }

    open spec fn with_value(&self, value: u128) -> Backend {
        match self {
            Backend::Production(s) => Backend::Production(s.with_value(value)),
            Backend::Mock(m) => Backend::Mock(m.with_value(value)),
        }
    }

    /// Forwards `set` to whichever implementor the handle is bound to.
    fn set(&mut self, value: u128) {
        match self {
            Backend::Production(s) => s.set(value),
            Backend::Mock(m) => m.set(value),
        }
    }

    /// Forwards `retrieve` to whichever implementor the handle is bound to.
    fn retrieve(&self) -> u128 {
        match self {
            Backend::Production(s) => s.retrieve(),
            Backend::Mock(m) => m.retrieve(),
        }
    }
}

} // verus!
