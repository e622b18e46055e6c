//! A verified directory of self-describing account profiles.
//!
//! Any account can publish one mutable profile record: display name,
//! location, tags, biography, links, and cross-references to the accounts
//! that represent the same user elsewhere. A profile can be hidden from
//! discovery without being deleted. The crate holds the record store, the
//! append-only account index, the validation rules that gate writes, and
//! the privacy-aware lookup and search paths; the surrounding host supplies
//! the caller identity, the clock, and the delivery of change events.

pub mod account;
pub mod events;
pub mod laws;
pub mod profile;
pub mod store;
pub mod text;
pub mod validator;

pub use account::AccountId;
pub use events::NewProfile;
pub use events::ProfileUpdate;
pub use profile::Profile;
pub use store::ContractStorage;
pub use store::Error;
