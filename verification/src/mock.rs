use vstd::prelude::*;

use crate::interface::IStorage;

verus! {

/// A mock backend with deliberately divergent behaviour: it tracks a single
/// boolean of its own, its `set` is a no-op and its `retrieve` always
/// reports zero. It exists to show that the proxy performs pure interface
/// dispatch, with no assumption about backend internals beyond
/// "implements [`IStorage`]".
pub struct MockStorageB {
    /// The mock's own single boolean of state, untouched by [`IStorage`].
    pub value: bool,
}

impl MockStorageB {
    /// Constructs the mock with its boolean set to `false`.
    pub fn new() -> (r: MockStorageB)
        ensures
            r == (MockStorageB { value: false }),
    {
        MockStorageB { value: false }
    }

    /// Flips the stored boolean from `true` to `false` and vice versa.
    pub fn flip(&mut self)
        ensures
            *final(self) == (MockStorageB { value: !old(self).value }),
    {
        self.value = !self.value;
    }

    /// Simply returns the current value of the stored boolean.
    pub fn get(&self) -> (r: bool)
        ensures
            r == self.value,
    {
        self.value
    }
}

impl IStorage for MockStorageB {
    open spec fn stored(&self) -> u128 {
        0
    }

    open spec fn with_value(&self, value: u128) -> MockStorageB {
        *self
    }

    /// Deliberately a no-op: the mock ignores the value entirely.
    fn set(&mut self, value: u128) {
    }

    /// Always reports zero, regardless of any prior `set`.
    fn retrieve(&self) -> u128 {
        0
    }
}

} // verus!
