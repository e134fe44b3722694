//! An access-controlled indirection layer.
//!
//! A front-facing proxy ([`user::User`]) exposes read/write operations on a
//! single numeric value but never stores that value itself: every call is
//! forwarded to a backend reached through the common capability trait
//! [`interface::IStorage`]. The proxy enforces a single-owner policy (only
//! the identity that constructed it may invoke its operations) and its
//! backend binding can be swapped at runtime by the owner. Backends are
//! interchangeable: a production implementation ([`storage::Storage`]) and a
//! deliberately divergent mock ([`mock::MockStorageB`]) stand behind the same
//! interface.

pub mod dispatch;
pub mod identity;
pub mod interface;
pub mod laws;
pub mod mock;
pub mod storage;
pub mod user;

pub use dispatch::Backend;
pub use identity::Identity;
pub use interface::IStorage;
pub use mock::MockStorageB;
pub use storage::Project;
pub use storage::Storage;
pub use user::Error;
pub use user::User;
