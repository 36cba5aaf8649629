//! Laws of the store, proved over the spec-level operations that every
//! executable operation's contract is pinned to.

use vstd::prelude::*;

use crate::codec::lemma_encode_decode;
use crate::rental::{ErrorView, PayloadView, RentalView};
use crate::store::{spec_add, spec_delete, spec_get, spec_lookup, spec_update, StoreView};
use crate::text;

verus! {

/// No operation ever lowers the counter: a create moves it up by one, an
/// update or a delete leaves it alone.
pub proof fn lemma_ops_never_lower_counter(s: StoreView, p: PayloadView, id: u64, now: u64)
    ensures
        spec_add(s, p, now).0.counter >= s.counter,
        spec_update(s, id, p, now).0.counter == s.counter,
        spec_delete(s, id).0.counter == s.counter,
{
}

/// One operation of the store connects two states: a create, an update, a
/// delete, or a read, which changes nothing.
pub open spec fn store_step(s1: StoreView, s2: StoreView) -> bool {
    s2 == s1 || (exists|p: PayloadView, now: u64| #![auto] s2 == spec_add(s1, p, now).0) || (exists|
        id: u64,
        p: PayloadView,
        now: u64,
    |
        #![auto]
        s2 == spec_update(s1, id, p, now).0) || (exists|id: u64| #![auto]
        s2 == spec_delete(s1, id).0)
}

/// Each operation's state change is one step.
pub proof fn lemma_ops_are_steps(s: StoreView, p: PayloadView, id: u64, now: u64)
    ensures
        store_step(s, spec_add(s, p, now).0),
        store_step(s, spec_update(s, id, p, now).0),
        store_step(s, spec_delete(s, id).0),
        store_step(s, s),
{
}

/// One step never lowers the counter.
pub proof fn lemma_step_counter_monotone(s1: StoreView, s2: StoreView)
    requires
        store_step(s1, s2),
    ensures
        s1.counter <= s2.counter,
{
    if s2 != s1 {
        if exists|p: PayloadView, now: u64| #![auto] s2 == spec_add(s1, p, now).0 {
            let (p, now) = choose|p: PayloadView, now: u64| #![auto] s2 == spec_add(s1, p, now).0;
            lemma_ops_never_lower_counter(s1, p, 0, now);
        } else if exists|id: u64, p: PayloadView, now: u64|
            #![auto]
            s2 == spec_update(s1, id, p, now).0 {
            let (id, p, now) = choose|id: u64, p: PayloadView, now: u64|
                #![auto]
                s2 == spec_update(s1, id, p, now).0;
            lemma_ops_never_lower_counter(s1, p, id, now);
        } else {
            let id = choose|id: u64| #![auto] s2 == spec_delete(s1, id).0;
            lemma_ops_never_lower_counter(s1, arbitrary(), id, 0);
        }
    }
}

/// Over any run of operations the counter never goes down.
pub proof fn lemma_trace_counter_monotone(tr: Seq<StoreView>, i: int, j: int)
    requires
        0 <= i <= j < tr.len(),
        forall|k: int| i <= k < j ==> #[trigger] store_step(tr[k], tr[k + 1]),
    ensures
        tr[i].counter <= tr[j].counter,
    decreases j - i,
{
    if i < j {
        lemma_step_counter_monotone(tr[i], tr[i + 1]);
        lemma_trace_counter_monotone(tr, i + 1, j);
    }
}

/// Ids minted by creates strictly increase and so never repeat: over any
/// sequence of operations, a later successful create returns a strictly
/// larger id than an earlier one.
pub proof fn lemma_create_ids_strictly_increase(
    tr: Seq<StoreView>,
    i: int,
    j: int,
    p1: PayloadView,
    now1: u64,
    p2: PayloadView,
    now2: u64,
)
    requires
        0 <= i,
        i + 1 <= j,
        j + 1 < tr.len(),
        forall|k: int| 0 <= k < tr.len() - 1 ==> #[trigger] store_step(tr[k], tr[k + 1]),
        spec_add(tr[i], p1, now1).1 is Ok,
        tr[i + 1] == spec_add(tr[i], p1, now1).0,
        spec_add(tr[j], p2, now2).1 is Ok,
        tr[j + 1] == spec_add(tr[j], p2, now2).0,
    ensures
        spec_add(tr[j], p2, now2).1->Ok_0.id > spec_add(tr[i], p1, now1).1->Ok_0.id,
{
    lemma_trace_counter_monotone(tr, i + 1, j);
}

/// A record read back right after a create is the very record the create
/// returned.
pub proof fn lemma_read_after_create(s: StoreView, p: PayloadView, now: u64)
    requires
        spec_add(s, p, now).1 is Ok,
    ensures
        spec_get(spec_add(s, p, now).0, spec_add(s, p, now).1->Ok_0.id) == Result::<
            RentalView,
            ErrorView,
        >::Ok(spec_add(s, p, now).1->Ok_0),
{
    let rec = spec_add(s, p, now).1->Ok_0;
    lemma_encode_decode(rec);
}

/// An update aimed at an absent id returns `NotFound` and leaves the store,
/// its size and its contents, unchanged.
pub proof fn lemma_update_missing_unchanged(s: StoreView, id: u64, p: PayloadView, now: u64)
    requires
        !s.records.dom().contains(id),
    ensures
        spec_update(s, id, p, now).0 == s,
        spec_update(s, id, p, now).1 == Result::<RentalView, ErrorView>::Err(
            (ErrorView::NotFound { msg: text::msg_update_not_found(id) }),
        ),
{
}

/// A successful update keeps the record's id and start time, overwrites the
/// two text fields with the payload's, and sets the end time to the clock
/// reading handed in.
pub proof fn lemma_update_preserves_identity(
    s: StoreView,
    id: u64,
    p: PayloadView,
    now: u64,
    old_rec: RentalView,
)
    requires
        spec_lookup(s, id) == Result::<Option<RentalView>, ErrorView>::Ok(Option::Some(old_rec)),
        spec_update(s, id, p, now).1 is Ok,
    ensures
        spec_update(s, id, p, now).1->Ok_0.id == old_rec.id,
        spec_update(s, id, p, now).1->Ok_0.rental_start_time == old_rec.rental_start_time,
        spec_update(s, id, p, now).1->Ok_0.customer_name == p.customer_name,
        spec_update(s, id, p, now).1->Ok_0.product_model == p.product_model,
        spec_update(s, id, p, now).1->Ok_0.rental_end_time == Option::Some(now),
{
}

/// Under a clock that does not run backwards, an update never moves a
/// record's end time earlier.
pub proof fn lemma_update_end_time_monotonic(
    s: StoreView,
    id: u64,
    p: PayloadView,
    now: u64,
    old_rec: RentalView,
    prev_end: u64,
)
    requires
        spec_lookup(s, id) == Result::<Option<RentalView>, ErrorView>::Ok(Option::Some(old_rec)),
        spec_update(s, id, p, now).1 is Ok,
        old_rec.rental_end_time == Option::Some(prev_end),
        now >= prev_end,
    ensures
        spec_update(s, id, p, now).1->Ok_0.rental_end_time->0 >= prev_end,
{
}

/// A delete aimed at an absent id returns `NotFound` and leaves the store
/// unchanged.
pub proof fn lemma_delete_missing_unchanged(s: StoreView, id: u64)
    requires
        !s.records.dom().contains(id),
    ensures
        spec_delete(s, id).0 == s,
        spec_delete(s, id).1 == Result::<RentalView, ErrorView>::Err(
            (ErrorView::NotFound { msg: text::msg_delete_not_found(id) }),
        ),
{
}

/// After a successful delete the id is gone: a read of the same id returns
/// `NotFound`.
pub proof fn lemma_read_after_delete(s: StoreView, id: u64)
    requires
        spec_delete(s, id).1 is Ok,
    ensures
        spec_get(spec_delete(s, id).0, id) == Result::<RentalView, ErrorView>::Err(
            (ErrorView::NotFound { msg: text::msg_get_not_found(id) }),
        ),
{
}

} // verus!
