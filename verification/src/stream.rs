//! The row stream the cursor consumes: an ordered, single-pass, fallible,
//! finite sequence of raw row values.
//!
//! The verified cursor consumes a buffered stream whose items are already in
//! memory. A live source that produces its items one at a time is driven
//! outside the verified core, which hands each item to
//! [`pull_item`](crate::cursor::pull_item) as it arrives.

use vstd::prelude::*;

use crate::value::{Error, Value};

verus! {

/// An ordered, single-pass, fallible sequence of raw row values. Each item is
/// either a raw value or an upstream error; once exhausted it yields no more
/// items.
///
/// Viewed as the sequence of items not yet yielded.
pub struct RowStream {
    items: Vec<Result<Value, Error>>,
}

impl View for RowStream {
    type V = Seq<Result<Value, Error>>;

    closed spec fn view(&self) -> Seq<Result<Value, Error>> {
        self.items@
    }
}

impl RowStream {
    /// Builds a stream that will yield the given items in order.
    pub fn from_items(items: Vec<Result<Value, Error>>) -> (r: Self)
        ensures
            r@ == items@,
    {
        RowStream { items }
    }

    /// Yields the next item, or `None` once the stream is exhausted.
    /// Consumes exactly one item per call.
    pub fn next(&mut self) -> (r: Option<Result<Value, Error>>)
        ensures
            old(self)@.len() == 0 ==> r is None && final(self)@ == old(self)@,
            old(self)@.len() > 0 ==> {
                &&& r == Some(old(self)@[0])
                &&& final(self)@ == old(self)@.skip(1)
            },
    {
        if self.items.len() == 0 {
            None
        } else {
            let item = self.items.remove(0);
            proof {
                assert(self@ =~= old(self)@.skip(1));
            }
            Some(item)
        }
    }
}

} // verus!
