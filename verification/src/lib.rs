//! Upload storage engine: collision-free identifier generation, extension
//! preservation, and the decision logic of an atomic, race-free file store.
//!
//! The engine never touches the filesystem itself. It produces candidate
//! names and decides, from the outcome of each atomic exclusive-create
//! attempt, whether to retry, finish, or fail; an unverified driver performs
//! the actual I/O and feeds the outcomes back.

pub mod alphabet;
pub mod endpoint;
pub mod extension;
pub mod store;
