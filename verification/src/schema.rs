//! The read-only structural metadata the cursor consults: how many fields the
//! schema declares for each model.

use vstd::prelude::*;

verus! {

/// An opaque, comparable token identifying a domain-model type within the
/// schema. Identifiers index the schema's model declarations in order.
#[derive(Clone, Copy, PartialEq, Eq, Structural, Debug)]
pub struct ModelId(pub usize);

/// Read-only access to structural metadata: the declared field count of each
/// model. Immutable for the lifetime of every cursor that borrows it, so a
/// lookup for a given identifier is stable across a cursor's lifetime.
///
/// Viewed as the sequence of field counts, indexed by [`ModelId`].
pub struct SchemaView {
    field_counts: Vec<usize>,
}

impl View for SchemaView {
    type V = Seq<usize>;

    closed spec fn view(&self) -> Seq<usize> {
        self.field_counts@
    }
}

impl SchemaView {
    /// Whether this schema declares a model under the given identifier.
    pub open spec fn declares(self, id: ModelId) -> bool {
        id.0 < self@.len()
    }

    /// Builds a schema view from the declared field count of each model, in
    /// identifier order.
    pub fn from_field_counts(field_counts: Vec<usize>) -> (r: Self)
        ensures
            r@ == field_counts@,
    {
        SchemaView { field_counts }
    }

    /// Whether this schema declares a model under the given identifier.
    pub fn declares_model(&self, id: ModelId) -> (r: bool)
        ensures
            r == self.declares(id),
    {
        id.0 < self.field_counts.len()
    }

    /// The number of fields declared for the model identified by `id`.
    pub fn field_count(&self, id: ModelId) -> (r: usize)
        requires
            self.declares(id),
        ensures
            r == self@[id.0 as int],
    {
        self.field_counts[id.0]
    }
}

} // verus!
