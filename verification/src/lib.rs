//! Context-threaded equivalence, ordering, hashing and formatting for
//! entities interned in shared tables.
//!
//! A compiler session interns types and declarations in shared tables and
//! passes lightweight identifiers around.  Two distinct identifiers can
//! denote structurally identical entities, so equality, ordering, hashing
//! and rendering of such identifiers must resolve through the tables.  This
//! crate defines the context-parameterized protocols that thread the table
//! aggregate through those operations, composite rules that lift them over
//! options, boxes, references and sequences, a wrapper that adapts them to
//! ordinary context-free protocols, and the module-scoped eviction hook of
//! the aggregate.

pub mod engines;
pub mod entities;
pub mod hashing;
pub mod laws;
pub mod protocols;
pub mod wrapper;
