//! The cursor: bridges an untyped, ordered, fallible row stream to a typed
//! result sequence, with structural self-checks, under a single-pass,
//! single-consumer discipline.

use core::marker::PhantomData;

use vstd::prelude::*;

use crate::model::{FromCursor, Model};
use crate::schema::SchemaView;
use crate::stream::RowStream;
use crate::value::{Error, Value};

verus! {

/// What one pull returns for a given stream item: an upstream error is
/// surfaced unchanged, without materialization; a raw value is handed to the
/// materializer, whose result is returned as is.
pub open spec fn spec_pull<M: Model>(item: Result<Value, Error>) -> Result<M, Error> {
    match item {
        Ok(v) => M::spec_materialize(v),
        Err(e) => Err(e),
    }
}

/// What a run of pulls yields: each stream item pulled once, in stream order.
pub open spec fn pulls<M: Model>(items: Seq<Result<Value, Error>>) -> Seq<Result<M, Error>> {
    items.map_values(|item: Result<Value, Error>| spec_pull::<M>(item))
}

/// What collecting a stream into a container with `B`'s append semantics
/// yields, starting from contents `acc`: the contents of the filled container
/// once the stream is exhausted, or the first error pulled, with nothing
/// partial kept.
pub open spec fn spec_collect<M: Model, B: FromCursor<M>>(
    items: Seq<Result<Value, Error>>,
    acc: Seq<M>,
) -> Result<Seq<M>, Error>
    decreases items.len(),
{
    if items.len() == 0 {
        Ok(acc)
    } else {
        match spec_pull::<M>(items[0]) {
            Ok(m) => spec_collect::<M, B>(items.skip(1), B::spec_append_contents(acc, m)),
            Err(e) => Err(e),
        }
    }
}

/// No pull of a full collect run over `items` aborts: with assertions
/// enabled (`check`), structural validation against the expected field count
/// passes for every raw value the run actually pulls. The run stops at the
/// first error pulled, so items past it are never validated.
pub open spec fn spec_run_ok<M: Model>(
    items: Seq<Result<Value, Error>>,
    check: bool,
    expect: usize,
) -> bool
    decreases items.len(),
{
    if items.len() == 0 {
        true
    } else {
        match items[0] {
            Err(_) => true,
            Ok(v) => (check ==> spec_row_fits(v, expect)) && match M::spec_materialize(v) {
                Err(_) => true,
                Ok(_) => spec_run_ok::<M>(items.skip(1), check, expect),
            },
        }
    }
}

/// Whether a raw value passes structural validation against an expected field
/// count: a record must have exactly that many fields; every other shape
/// passes unchecked.
pub open spec fn spec_row_fits(v: Value, expect: usize) -> bool {
    match v {
        Value::Record(fields) => fields@.len() == expect,
        _ => true,
    }
}

/// Structural validation of one raw value against an expected field count.
pub fn row_fits(v: &Value, expect: usize) -> (r: bool)
    ensures
        r == spec_row_fits(*v, expect),
{
    match v {
        Value::Record(fields) => fields.len() == expect,
        _ => true,
    }
}

/// A typed result cursor over a row stream.
///
/// Holds a borrowed schema view and an owned row stream, and is bound to
/// exactly one target model type `M` for its whole lifetime. Pulls raw values
/// out of the stream one at a time, validates their structure against the
/// schema, and delegates materialization to `M`.
pub struct Cursor<'a, M> {
    schema: &'a SchemaView,
    values: RowStream,
    check: bool,
    _model: PhantomData<M>,
}

impl<'a, M: Model> Cursor<'a, M> {
    /// The stream items not yet pulled.
    pub closed spec fn remaining(self) -> Seq<Result<Value, Error>> {
        self.values@
    }

    /// Whether runtime structural assertions are enabled for this cursor.
    pub closed spec fn assertions_enabled(self) -> bool {
        self.check
    }

    /// The schema's declared field counts, as borrowed at construction;
    /// stable for the cursor's whole lifetime.
    pub closed spec fn schema_counts(self) -> Seq<usize> {
        self.schema@
    }

    /// Well-formed: if structural assertions are enabled, the schema declares
    /// the bound model, so the expected field count can be looked up.
    pub open spec fn wf(self) -> bool {
        self.assertions_enabled() ==> M::spec_id().0 < self.schema_counts().len()
    }

    /// The field count the schema declares for the bound model.
    pub open spec fn expected_columns(self) -> usize {
        self.schema_counts()[M::spec_id().0 as int]
    }

    /// Structural validation passes for this raw value: with assertions
    /// disabled it always passes; with assertions enabled, a record must have
    /// exactly the declared field count.
    pub open spec fn row_ok(self, v: Value) -> bool {
        self.assertions_enabled() ==> spec_row_fits(v, self.expected_columns())
    }

    /// Pulling this stream item does not abort: an upstream error skips
    /// validation, a raw value must pass it.
    pub open spec fn item_ok(self, item: Result<Value, Error>) -> bool {
        match item {
            Ok(v) => self.row_ok(v),
            Err(_) => true,
        }
    }

    /// No pull of a full collect run over `items` by this cursor aborts; see
    /// [`spec_run_ok`].
    pub open spec fn collect_ok(self, items: Seq<Result<Value, Error>>) -> bool {
        spec_run_ok::<M>(items, self.assertions_enabled(), self.expected_columns())
    }

    /// Creates a cursor over `values`, bound to model `M`, borrowing `schema`
    /// for its whole lifetime.
    ///
    /// `check` says whether runtime structural assertions are enabled; in the
    /// surrounding system that choice is fixed by the build mode, enabled in
    /// debug builds and skipped entirely in optimized ones. No stream work or
    /// validation happens at construction.
    pub fn new(schema: &'a SchemaView, values: RowStream, check: bool) -> (r: Self)
        ensures
            r.remaining() == values@,
            r.assertions_enabled() == check,
            r.schema_counts() == schema@,
    {
        Cursor { schema, values, check, _model: PhantomData }
    }

    /// Structural validation of one raw value against this cursor's schema
    /// and bound model: `false` exactly when assertions are enabled and the
    /// value is a record whose field count differs from the declared count.
    ///
    /// The surrounding system treats `false` as a fatal schema/query-drift
    /// defect and aborts with both counts; it is not a recoverable error. An
    /// unverified caller must test this before pulling a raw value through
    /// [`next`](Self::next).
    pub fn validate_row(&self, value: &Value) -> (r: bool)
        requires
            self.wf(),
        ensures
            r == self.row_ok(*value),
    {
        if self.check {
            let expect_num_columns = self.schema.field_count(M::id());
            row_fits(value, expect_num_columns)
        } else {
            true
        }
    }

    /// Pulls the next typed item.
    ///
    /// Consumes exactly one stream item per call, never more, even when
    /// materialization fails. Yields `None` once the stream is exhausted —
    /// the terminal signal; an upstream error unchanged, without validation
    /// or materialization; and otherwise the materializer's result for the
    /// pulled raw value, typed item or parse error.
    ///
    /// A pulled record that fails structural validation is a defect of the
    /// surrounding system, not an input the cursor accepts: the precondition
    /// rules it out, and an unverified caller aborts on
    /// [`validate_row`](Self::validate_row) returning `false` instead of
    /// calling this.
    pub fn next(&mut self) -> (r: Option<Result<M, Error>>)
        requires
            old(self).wf(),
            old(self).remaining().len() > 0 ==> old(self).item_ok(old(self).remaining()[0]),
        ensures
            final(self).wf(),
            final(self).assertions_enabled() == old(self).assertions_enabled(),
            final(self).schema_counts() == old(self).schema_counts(),
            old(self).remaining().len() == 0 ==> {
                &&& r is None
                &&& final(self).remaining() == old(self).remaining()
            },
            old(self).remaining().len() > 0 ==> {
                &&& r == Some(spec_pull::<M>(old(self).remaining()[0]))
                &&& final(self).remaining() == old(self).remaining().skip(1)
            },
    {
        match self.values.next() {
            None => None,
            Some(item) => Some(pull_item::<M>(self.schema, self.check, item)),
        }
    }

    /// Collects every remaining item into a fresh container of the caller's
    /// choice, consuming the cursor — a terminal operation.
    ///
    /// Pulls strictly in order, one at a time, appending each typed item with
    /// the container's own semantics, until the stream is exhausted. The
    /// first error pulled — upstream or parse alike — is returned instead,
    /// and the partial container gathered so far is discarded, never exposed.
    pub fn collect<B: FromCursor<M>>(self) -> (r: Result<B, Error>)
        requires
            self.wf(),
            self.collect_ok(self.remaining()),
        ensures
            spec_collect::<M, B>(self.remaining(), Seq::<M>::empty()) matches Ok(s) ==> {
                &&& r matches Ok(b) && b.contents() == s
            },
            spec_collect::<M, B>(self.remaining(), Seq::<M>::empty()) matches Err(e) ==> r == Err::<
                B,
                Error,
            >(e),
    {
        let mut cursor = self;
        let mut ret = B::empty();
        loop
            invariant
                cursor.wf(),
                cursor.assertions_enabled() == self.assertions_enabled(),
                cursor.schema_counts() == self.schema_counts(),
                cursor.collect_ok(cursor.remaining()),
                spec_collect::<M, B>(cursor.remaining(), ret.contents()) == spec_collect::<M, B>(
                    self.remaining(),
                    Seq::<M>::empty(),
                ),
            decreases cursor.remaining().len(),
        {
            match cursor.next() {
                None => {
                    return Ok(ret);
                },
                Some(res) => {
                    match res {
                        Ok(m) => ret.append(m),
                        Err(e) => {
                            return Err(e);
                        },
                    }
                },
            }
        }
    }
}

/// One pull over a live row source that produces its items one at a time
/// outside the verified core: exactly what [`Cursor::next`] returns once the
/// source has yielded `item`. The driver looks the expected field count up
/// once, validates each raw value with [`row_fits`] before handing it here,
/// and aborts on a mismatch as the surrounding system dictates.
pub fn pull_item<M: Model>(schema: &SchemaView, check: bool, item: Result<Value, Error>) -> (r:
    Result<M, Error>)
    requires
        check ==> M::spec_id().0 < schema@.len(),
        check ==> (item matches Ok(v) ==> spec_row_fits(v, schema@[M::spec_id().0 as int])),
    ensures
        r == spec_pull::<M>(item),
{
    match item {
        Ok(value) => {
            if check {
                // Structural validation; the precondition rules a mismatch
                // out, so this pull cannot abort.
                let expect_num_columns = schema.field_count(M::id());
                let ok = row_fits(&value, expect_num_columns);
                assert(ok);
            }
            M::materialize(value)
        },
        Err(e) => Err(e),
    }
}

} // verus!
