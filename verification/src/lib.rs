//! A verified data-access core for a question-and-answer store.
//!
//! The crate models the decision logic of a DAO layer over a relational
//! store holding questions and their answers: resolving caller-supplied
//! identifier strings, translating typed records to and from raw rows,
//! classifying every failure into a closed error taxonomy, and running the
//! transactional read-modify-write protocols for deletion and for
//! incrementing a like counter.  The store itself is an external
//! collaborator: an unverified shell issues the statements that the library
//! asks for and feeds the outcomes back in as plain values.

pub mod answers;
pub mod ids;
pub mod laws;
pub mod models;
pub mod questions;
pub mod rows;
pub mod store;
pub mod tx;
