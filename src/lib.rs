//! Startup coordination for the parts catalogue backend: a stable advisory
//! lock key, the decisions of the migrate-then-import sequence, the decoding of
//! the reference datasets, and the plain views that the API layer serves.
pub mod catalog;
pub mod coordinator;
pub mod decode;
pub mod errors;
pub mod formats;
pub mod lock_key;
pub mod store;
pub mod storefront;
pub mod text;
pub mod views;
