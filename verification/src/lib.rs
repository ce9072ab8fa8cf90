//! A personal journal kept as individually encrypted files inside a
//! version-controlled directory: every create, edit and delete of an
//! entry is recorded as one commit of a linear history, and entry
//! contents are only ever stored encrypted for a configured recipient.

pub mod engine;
pub mod errors;
pub mod names;
pub mod staging;
pub mod store;
pub mod tools;

pub use engine::{
    CreateCommit, CreateSession, Deary, DeleteRequest, ReadRequest, UpdateCommit, UpdateEdit,
    UpdateRead,
};
pub use errors::{DearyError, ErrorKind};
pub use names::Change;
