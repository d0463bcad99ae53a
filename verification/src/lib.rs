//! Role permissions: named grants of actions to a role within a directory.
//!
//! The crate holds the permission data model, the text encoding of actions,
//! the validation rules of a new permission record, and the pure half of the
//! storage boundary. Every function is verified against its contract.

pub mod action;
pub mod organisation;
pub mod storage;
pub mod text;
