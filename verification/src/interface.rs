use vstd::prelude::*;

verus! {

/// The minimal storage capability: every backend supports replacing its
/// stored value and reading it back.
///
/// The interface itself defines no failure mode and promises nothing about
/// how an implementor reacts to `set`, nor which value `retrieve` reports:
/// each implementor pins its own behaviour down through the two spec
/// functions. A caller written against the bare interface may rely on no
/// more than that, which is exactly what makes conformant backends
/// interchangeable.
pub trait IStorage: Sized {
    /// The value this implementor currently exposes through `retrieve`.
    spec fn stored(&self) -> u128;

    /// The implementor-defined effect of `set(value)` on this implementor's
    /// state.
    spec fn with_value(&self, value: u128) -> Self;

    /// Instructs the implementor to replace its stored value. Always
    /// succeeds; the side effect is implementor-defined (a production
    /// backend updates its value, a mock may no-op).
    fn set(&mut self, value: u128)
        ensures
            *final(self) == old(self).with_value(value),
    ;

    /// Reports the implementor's current stored value, with no side effect.
    fn retrieve(&self) -> (r: u128)
        ensures
            r == self.stored(),
    ;
}

} // verus!
