//! An in-memory settings store: one user profile record, read and replaced
//! wholesale.
//!
//! The store owns a single [`settings::UserSettings`] record for its whole
//! lifetime and answers two requests: fetch a copy of the current settings,
//! or replace them entirely. Updates always overwrite the whole record,
//! never merge fields, and no field content is validated; empty text is
//! accepted everywhere.

pub mod error;
pub mod settings;
pub mod store;
