//! A typed result cursor: adapts an ordered, fallible sequence of raw,
//! schema-shaped row values into strongly typed domain objects, pulled one at
//! a time or collected in bulk, while checking structural invariants between
//! the raw row shape and the declared schema.

pub mod cursor;
pub mod laws;
pub mod model;
pub mod schema;
pub mod stream;
pub mod user;
pub mod value;
