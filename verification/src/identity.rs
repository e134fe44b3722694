use vstd::prelude::*;

verus! {

/// An opaque, globally unique account value, as handed out by the external
/// deployment environment. It serves as the proxy's owner, as a backend's
/// address, and as a record's owner. Nothing is assumed of it beyond
/// equality comparison.
#[derive(Clone, Copy, PartialEq, Eq, Structural, Debug)]
pub struct Identity {
    pub id: u64,
}

} // verus!
