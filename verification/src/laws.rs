//! Laws of the cursor, stated over the same specification functions that the
//! contracts of [`Cursor::next`](crate::cursor::Cursor::next) and
//! [`Cursor::collect`](crate::cursor::Cursor::collect) use.

use vstd::prelude::*;

use crate::cursor::{pulls, spec_collect, spec_pull};
use crate::model::{FromCursor, Model};
use crate::user::{spec_has_id, User, UsersById};
use crate::value::{Error, Value};

verus! {

/// Whether no two users of `s` share an identifier.
pub open spec fn distinct_ids(s: Seq<User>) -> bool {
    forall|i: int, j: int| 0 <= i < j < s.len() ==> s[i].id != s[j].id
}

/// The typed items a run of error-free pulls yields, in stream order.
pub open spec fn pulled_items<M: Model>(items: Seq<Result<Value, Error>>) -> Seq<M> {
    items.map_values(|item: Result<Value, Error>| spec_pull::<M>(item)->Ok_0)
}

/// The contents of a container after appending each of `ms` in order with
/// `B`'s own append semantics, starting from contents `acc`.
pub open spec fn spec_append_all<M: Model, B: FromCursor<M>>(acc: Seq<M>, ms: Seq<M>) -> Seq<M>
    decreases ms.len(),
{
    if ms.len() == 0 {
        acc
    } else {
        spec_append_all::<M, B>(B::spec_append_contents(acc, ms[0]), ms.skip(1))
    }
}

/// Law: the cursor walks the stream strictly in order — after `i` pulls, the
/// head of what remains is the stream's `i`-th item, and one more pull leaves
/// exactly the items past it.
pub proof fn lemma_pull_in_order(items: Seq<Result<Value, Error>>, i: int)
    requires
        0 <= i < items.len(),
    ensures
        items.skip(i)[0] == items[i],
        items.skip(i).skip(1) =~= items.skip(i + 1),
{
}

/// Law: over a finite stream of `n` items, none an upstream error and each
/// materializing, `n` pulls yield `n` typed items in the stream's original
/// order. The pull after them yields the terminal `None`, by the contract of
/// [`Cursor::next`](crate::cursor::Cursor::next) once nothing remains.
pub proof fn lemma_pulls_all_ok<M: Model>(items: Seq<Result<Value, Error>>)
    requires
        forall|i: int| 0 <= i < items.len() ==> items[i] is Ok,
        forall|i: int| 0 <= i < items.len() ==> #[trigger] M::spec_materialize(items[i]->Ok_0)
            is Ok,
    ensures
        pulls::<M>(items).len() == items.len(),
        forall|i: int|
            0 <= i < items.len() ==> #[trigger] pulls::<M>(items)[i] == M::spec_materialize(
                items[i]->Ok_0,
            ),
        forall|i: int| 0 <= i < items.len() ==> #[trigger] pulls::<M>(items)[i] is Ok,
{
}

/// Law: over a stream whose one upstream error sits at position `k` and whose
/// earlier items all materialize, the first `k` pulls yield typed items and
/// the pull at `k` yields exactly that error, unchanged. The cursor makes no
/// further attempt of its own; what a pull past `k` sees is the stream's own
/// post-error behavior.
pub proof fn lemma_pulls_error_at<M: Model>(items: Seq<Result<Value, Error>>, k: int)
    requires
        0 <= k < items.len(),
        items[k] is Err,
        forall|i: int| 0 <= i < k ==> items[i] is Ok,
        forall|i: int| 0 <= i < k ==> #[trigger] M::spec_materialize(items[i]->Ok_0) is Ok,
    ensures
        forall|i: int| 0 <= i < k ==> #[trigger] pulls::<M>(items)[i] is Ok,
        pulls::<M>(items)[k] == Err::<M, Error>(items[k]->Err_0),
{
}

/// Law: collecting a stream on which every pull succeeds fills the container:
/// the result is `Ok`, holding what appending each materialized item in
/// arrival order — with the container's own append semantics — builds up.
/// This is exactly what pulling the items one at a time and appending them by
/// hand would produce.
pub proof fn lemma_collect_all_ok<M: Model, B: FromCursor<M>>(
    items: Seq<Result<Value, Error>>,
    acc: Seq<M>,
)
    requires
        forall|i: int| 0 <= i < items.len() ==> #[trigger] spec_pull::<M>(items[i]) is Ok,
    ensures
        spec_collect::<M, B>(items, acc) == Ok::<Seq<M>, Error>(
            spec_append_all::<M, B>(acc, pulled_items::<M>(items)),
        ),
    decreases items.len(),
{
    if items.len() == 0 {
        assert(pulled_items::<M>(items).len() == 0);
    } else {
        assert(spec_pull::<M>(items[0]) is Ok);
        let m0 = spec_pull::<M>(items[0])->Ok_0;
        let acc1 = B::spec_append_contents(acc, m0);
        assert(forall|i: int|
            0 <= i < items.skip(1).len() ==> #[trigger] spec_pull::<M>(items.skip(1)[i])
                == spec_pull::<M>(items[i + 1]));
        lemma_collect_all_ok::<M, B>(items.skip(1), acc1);
        assert(pulled_items::<M>(items.skip(1)) =~= pulled_items::<M>(items).skip(1));
        assert(pulled_items::<M>(items)[0] == m0);
        assert(spec_append_all::<M, B>(acc, pulled_items::<M>(items)) == spec_append_all::<M, B>(
            acc1,
            pulled_items::<M>(items).skip(1),
        ));
    }
}

/// Law: with an order-preserving container — one whose append keeps every
/// item, at the end, as `Vec`'s does — appending a run of items builds
/// exactly the accumulated contents followed by those items, in order.
pub proof fn lemma_append_all_ordered<M: Model, B: FromCursor<M>>(acc: Seq<M>, ms: Seq<M>)
    requires
        forall|s: Seq<M>, a: M| #[trigger] B::spec_append_contents(s, a) == s.push(a),
    ensures
        spec_append_all::<M, B>(acc, ms) == acc + ms,
    decreases ms.len(),
{
    if ms.len() == 0 {
        assert(acc + ms =~= acc);
    } else {
        lemma_append_all_ordered::<M, B>(acc.push(ms[0]), ms.skip(1));
        assert(acc.push(ms[0]) + ms.skip(1) =~= acc + ms);
    }
}

/// Law: collecting a stream on which every pull succeeds into a `Vec` yields
/// exactly the materialized items, in arrival order.
pub proof fn lemma_collect_vec_ordered<M: Model>(items: Seq<Result<Value, Error>>)
    requires
        forall|i: int| 0 <= i < items.len() ==> #[trigger] spec_pull::<M>(items[i]) is Ok,
    ensures
        spec_collect::<M, Vec<M>>(items, Seq::<M>::empty()) == Ok::<Seq<M>, Error>(
            pulled_items::<M>(items),
        ),
{
    lemma_collect_all_ok::<M, Vec<M>>(items, Seq::<M>::empty());
    lemma_append_all_ordered::<M, Vec<M>>(Seq::<M>::empty(), pulled_items::<M>(items));
    assert(Seq::<M>::empty() + pulled_items::<M>(items) =~= pulled_items::<M>(items));
}

/// Law: with the deduplicating container [`UsersById`], appending a run of
/// users keeps the identifiers distinct: a full collect holds exactly the
/// distinct users, each under its first appearance.
pub proof fn lemma_append_all_dedup(acc: Seq<User>, ms: Seq<User>)
    requires
        distinct_ids(acc),
    ensures
        distinct_ids(spec_append_all::<User, UsersById>(acc, ms)),
    decreases ms.len(),
{
    if ms.len() > 0 {
        let acc1 = UsersById::spec_append_contents(acc, ms[0]);
        if !spec_has_id(acc, ms[0].id) {
            assert forall|i: int, j: int| 0 <= i < j < acc1.len() implies acc1[i].id
                != acc1[j].id by {
                if j == acc1.len() - 1 {
                    assert(!(0 <= i < acc.len() && acc[i].id == ms[0].id));
                }
            }
        }
        lemma_append_all_dedup(acc1, ms.skip(1));
    }
}

/// Law: collecting a stream whose first failing pull sits at position `k`
/// returns exactly the error that pull yields — the same value a caller
/// pulling by hand would see at `k` — and no container, partial or otherwise.
pub proof fn lemma_collect_error_at<M: Model, B: FromCursor<M>>(
    items: Seq<Result<Value, Error>>,
    acc: Seq<M>,
    k: int,
)
    requires
        0 <= k < items.len(),
        forall|i: int| 0 <= i < k ==> #[trigger] spec_pull::<M>(items[i]) is Ok,
        spec_pull::<M>(items[k]) is Err,
    ensures
        spec_collect::<M, B>(items, acc) == Err::<Seq<M>, Error>(spec_pull::<M>(items[k])->Err_0),
    decreases k,
{
    if k == 0 {
    } else {
        assert(spec_pull::<M>(items[0]) is Ok);
        let acc1 = B::spec_append_contents(acc, spec_pull::<M>(items[0])->Ok_0);
        assert(forall|i: int|
            0 <= i < items.skip(1).len() ==> #[trigger] spec_pull::<M>(items.skip(1)[i])
                == spec_pull::<M>(items[i + 1]));
        lemma_collect_error_at::<M, B>(items.skip(1), acc1, k - 1);
        assert(items.skip(1)[k - 1] == items[k]);
    }
}

} // verus!
