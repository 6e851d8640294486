//! A notebook of short texts kept in a vector database, as verified decisions.
//!
//! The database and the network are somebody else's work: this library decides
//! what to ask of them, what to make of the answers, and how notes are laid out
//! in table columns.
//!
//! - [`document`] and [`note`]: the notes themselves.
//! - [`columns`]: Arrow's schemas, columns and batches, and what is taken for
//!   granted of them.
//! - [`batches`]: notes to record batches and back.
//! - [`query`]: row filters and table queries.
//! - [`operation`]: every operation of the store as a machine that asks for one
//!   piece of database work at a time.
//! - [`store`]: the store, which runs the embedding model for its operations.
//! - [`database`]: a model of a database that does what it is asked to.
//! - [`laws`]: what holds across several of these functions.

pub mod batches;
pub mod columns;
pub mod database;
pub mod document;
pub mod error;
pub mod laws;
pub mod note;
pub mod operation;
pub mod query;
pub mod store;

pub use document::Document;
pub use error::EmbedStoreError;
pub use note::Note;
pub use store::EmbedStore;
