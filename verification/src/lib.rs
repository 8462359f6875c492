//! A typed property graph kept consistent: vertices with a name and a type,
//! directed edges with a label, and on every edge the types that its two
//! endpoints had when the edge was made.
//!
//! - [`pattern`] and [`dto`]: what a descriptor has to look like, and every
//!   rule that it breaks where it does not.
//! - [`error`]: the closed set of failures.
//! - [`model`] and [`types`]: the records that a store keeps and hands back.
//! - [`resolver`]: the types of the vertices that a batch of edges refers to.
//! - [`store`]: the statements that go to a store, what each of them means,
//!   and a store in memory that does just that.
//! - [`protocol`]: each operation as an exchange of statements and answers,
//!   free of any I/O.
//! - [`api`]: the operations run on the store in memory.

pub mod api;
pub mod dto;
pub mod error;
pub mod model;
pub mod pattern;
pub mod protocol;
pub mod resolver;
pub mod store;
pub mod types;
