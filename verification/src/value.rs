//! Raw row values as the row source produces them, and the errors a caller
//! can see while pulling typed items out of the cursor.

use vstd::prelude::*;

verus! {

/// An untyped, structurally described value produced by the row stream.
///
/// The shape the cursor itself cares about is `Record`: an ordered,
/// fixed-arity sequence of sub-values. Every other shape is passed through to
/// the materializer unchecked.
#[derive(PartialEq, Eq, Debug)]
pub enum Value {
    /// The absence of a value.
    Null,
    /// A boolean scalar.
    Bool(bool),
    /// A signed integer scalar.
    I64(i64),
    /// A text scalar.
    String(String),
    /// An ordered, fixed-arity sequence of sub-values.
    Record(Vec<Value>),
}

/// An error surfaced to the caller of a pull.
///
/// The cursor never builds one of these itself: an upstream failure is
/// surfaced unchanged from the row source, and a parse failure is surfaced
/// unchanged from the materializer.
#[derive(Clone, Copy, PartialEq, Eq, Structural, Debug)]
pub enum Error {
    /// An upstream stream failure, identified by a code the producer chose.
    Stream(u64),
    /// The materializer expected a record and found another shape.
    NotARecord,
    /// The record ended before the field at this index.
    MissingField(usize),
    /// The field at this index does not have the shape the model expects.
    WrongFieldType(usize),
}

} // verus!
