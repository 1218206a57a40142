//! The capabilities the cursor requires of its collaborators: the typed
//! domain model that parses raw rows into itself, and the collection target
//! that bulk materialization fills.

use vstd::prelude::*;

use crate::schema::ModelId;
use crate::value::{Error, Value};

verus! {

/// A typed domain model that a cursor can be bound to.
///
/// A model supplies its own schema identifier and a pure materializer from a
/// raw row value to either a typed instance or a parse error. Both executable
/// methods are pinned to their specification-level counterparts, so the
/// cursor's contracts can speak exactly about what materialization returns.
pub trait Model: Sized {
    /// The identifier this model is declared under in the schema.
    spec fn spec_id() -> ModelId;

    /// What the materializer returns for each raw value.
    spec fn spec_materialize(v: Value) -> Result<Self, Error>;

    /// The identifier this model is declared under in the schema.
    fn id() -> (r: ModelId)
        ensures
            r == Self::spec_id(),
    ;

    /// Parses a raw row value into a typed instance, or reports a parse
    /// error. Pure: the result depends on the value alone.
    fn materialize(v: Value) -> (r: Result<Self, Error>)
        ensures
            r == Self::spec_materialize(v),
    ;
}

/// A collection target for bulk materialization: any container that can start
/// empty and be extended one item at a time, preserving whatever ordering or
/// uniqueness semantics the container itself defines.
///
/// The container's semantics are captured by [`spec_append_contents`]
/// (`FromCursor::spec_append_contents`): an order-preserving container
/// appends each item at the end, while a deduplicating one may drop an item
/// it already holds. [`contents`](FromCursor::contents) abstracts a container
/// value to the sequence of items it holds.
pub trait FromCursor<A>: Sized {
    /// The items this container holds, in the container's own order.
    spec fn contents(self) -> Seq<A>;

    /// What appending one item does to the container's contents; this is the
    /// container's own semantics, fixed per container type.
    spec fn spec_append_contents(s: Seq<A>, a: A) -> Seq<A>;

    /// Builds the empty container.
    fn empty() -> (r: Self)
        ensures
            r.contents() == Seq::<A>::empty(),
    ;

    /// Appends one item, with the semantics this container defines.
    fn append(&mut self, a: A)
        ensures
            final(self).contents() == Self::spec_append_contents(old(self).contents(), a),
    ;
}

/// The order-preserving collection target: every appended item is kept, in
/// arrival order.
impl<A> FromCursor<A> for Vec<A> {
    open spec fn contents(self) -> Seq<A> {
        self@
    }

    open spec fn spec_append_contents(s: Seq<A>, a: A) -> Seq<A> {
        s.push(a)
    }

    fn empty() -> (r: Self) {
        Vec::new()
    }

    fn append(&mut self, a: A) {
        self.push(a);
    }
}

} // verus!
