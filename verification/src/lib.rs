//! Deterministic resolution of configuration profiles for a desktop
//! automation tool.
//!
//! A [`ConfigStore`] owns one default [`Config`] and an ordered sequence of
//! override [`Config`]s. Given a snapshot of the currently focused
//! application ([`AppProperties`]), the store selects exactly one active
//! profile: the matching override with the highest filter specificity,
//! earliest in load order on ties, or the default when no override matches.
//! Stores are built all-or-nothing by [`resolve`] from raw, partially
//! specified profile definitions supplied by an external loader.

pub mod error;
pub mod laws;
pub mod model;
pub mod resolve;
pub mod store;

pub use error::ConfigStoreError;
pub use model::{AppProperties, Backend, Config, Filter, ToggleKey};
pub use resolve::{resolve, RawProfile};
pub use store::ConfigStore;
