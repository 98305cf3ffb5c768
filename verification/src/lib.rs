//! Persistence and exchange of a credential vault: password entries and
//! one-time-password accounts, each kept as one JSON document, and a bundle
//! that carries both.

pub mod codec;
pub mod entry;
pub mod json;
pub mod laws;
pub mod vault;
