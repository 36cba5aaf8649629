//! The record store: a durable counter that mints identifiers and an ordered
//! map of encoded records, behind create/read/update/delete operations.
//!
//! Every operation's outcome and state change is pinned by a spec-level
//! counterpart (`spec_add`, `spec_lookup`, `spec_update`, `spec_delete`,
//! `spec_insert`): the executable functions promise to agree with it exactly.

use vstd::prelude::*;

use crate::backing::{byte_map_contents, id_cell_value, ByteMap, IdCell, RegionTable};
use crate::codec::{spec_decode, spec_encode, MAX_ENCODED_SIZE};
use crate::rental::{Error, ErrorView, PayloadView, Rental, RentalPayload, RentalView};
use crate::text;

verus! {

/// The region that holds the id counter.
pub const COUNTER_REGION_ID: u8 = 0;

/// The region that holds the record map.
pub const MAP_REGION_ID: u8 = 1;

/// The store: the counter cell, the record map, and the region table both
/// were leased from.
pub struct Store {
    counter: IdCell,
    map: ByteMap,
    regions: RegionTable,
}

/// The mathematical state of a store: the counter's value and the stored
/// byte strings by id.
#[verifier::ext_equal]
pub struct StoreView {
    pub counter: u64,
    pub records: Map<u64, Seq<u8>>,
}

impl View for Store {
    type V = StoreView;

    closed spec fn view(&self) -> StoreView {
        StoreView { counter: id_cell_value(self.counter), records: byte_map_contents(self.map) }
    }
}

/// A `Result` of the store, as a value.
pub open spec fn result_view(r: Result<Rental, Error>) -> Result<RentalView, ErrorView> {
    match r {
        Result::Ok(x) => Result::Ok(x@),
        Result::Err(e) => Result::Err(e@),
    }
}

/// A lookup outcome of the store, as a value.
pub open spec fn lookup_view(r: Result<Option<Rental>, Error>) -> Result<
    Option<RentalView>,
    ErrorView,
> {
    match r {
        Result::Ok(Option::Some(x)) => Result::Ok(Option::Some(x@)),
        Result::Ok(Option::None) => Result::Ok(Option::None),
        Result::Err(e) => Result::Err(e@),
    }
}

/// What a lookup yields: the decoded record under the id, nothing when the
/// id is absent, or the corruption error when stored bytes fail to decode.
pub open spec fn spec_lookup(s: StoreView, id: u64) -> Result<Option<RentalView>, ErrorView> {
    if !s.records.dom().contains(id) {
        Result::Ok(Option::None)
    } else {
        match spec_decode(s.records[id]) {
            Option::Some(rec) => Result::Ok(Option::Some(rec)),
            Option::None => Result::Err(ErrorView::CorruptedEntry),
        }
    }
}

/// What a read returns: the record, or `NotFound` naming the id.
pub open spec fn spec_get(s: StoreView, id: u64) -> Result<RentalView, ErrorView> {
    match spec_lookup(s, id) {
        Result::Ok(Option::Some(rec)) => Result::Ok(rec),
        Result::Ok(Option::None) => Result::Err(
            (ErrorView::NotFound { msg: text::msg_get_not_found(id) }),
        ),
        Result::Err(e) => Result::Err(e),
    }
}

/// What storing one record does: rejects an oversize encoding and changes
/// nothing, or writes the encoding under the record's own id.
pub open spec fn spec_insert(s: StoreView, rec: RentalView) -> (StoreView, Result<
    (),
    ErrorView,
>) {
    if spec_encode(rec).len() > MAX_ENCODED_SIZE {
        (s, Result::Err(ErrorView::EncodingTooLarge))
    } else {
        (
            StoreView { counter: s.counter, records: s.records.insert(rec.id, spec_encode(rec)) },
            Result::Ok(()),
        )
    }
}

/// What a create does: the record the caller would get and the state the
/// store moves to.  The minted id is one past the counter; the payload's
/// fields are taken as given; the start time is the given clock reading; the
/// end time is absent.  An oversize record or an exhausted id space is
/// rejected with the store unchanged.
pub open spec fn spec_add(s: StoreView, p: PayloadView, now: u64) -> (StoreView, Result<
    RentalView,
    ErrorView,
>) {
    let rec = RentalView {
        id: (s.counter + 1) as u64,
        customer_name: p.customer_name,
        product_model: p.product_model,
        rental_start_time: now,
        rental_end_time: Option::None,
    };
    if spec_encode(rec).len() > MAX_ENCODED_SIZE {
        (s, Result::Err(ErrorView::EncodingTooLarge))
    } else if s.counter == u64::MAX {
        (s, Result::Err(ErrorView::CapacityExhausted))
    } else {
        (
            StoreView { counter: rec.id, records: s.records.insert(rec.id, spec_encode(rec)) },
            Result::Ok(rec),
        )
    }
}

/// What an update does: `NotFound` on an absent id, the corruption error on
/// an undecodable entry, otherwise a record with the same id and start time,
/// the payload's text fields, and the given clock reading as end time,
/// re-inserted under its id; every failure leaves the store unchanged.
pub open spec fn spec_update(s: StoreView, id: u64, p: PayloadView, now: u64) -> (StoreView, Result<
    RentalView,
    ErrorView,
>) {
    match spec_lookup(s, id) {
        Result::Ok(Option::None) => (
            s,
            Result::Err((ErrorView::NotFound { msg: text::msg_update_not_found(id) })),
        ),
        Result::Err(e) => (s, Result::Err(e)),
        Result::Ok(Option::Some(old_rec)) => {
            let new_rec = RentalView {
                id: old_rec.id,
                customer_name: p.customer_name,
                product_model: p.product_model,
                rental_start_time: old_rec.rental_start_time,
                rental_end_time: Option::Some(now),
            };
            let (s2, ins) = spec_insert(s, new_rec);
            match ins {
                Result::Ok(u) => (s2, Result::Ok(new_rec)),
                Result::Err(e) => (s2, Result::Err(e)),
            }
        },
    }
}

/// What a delete does: `NotFound` on an absent id, the corruption error on an
/// undecodable entry (store unchanged either way), otherwise the removed
/// record with its entry gone.
pub open spec fn spec_delete(s: StoreView, id: u64) -> (StoreView, Result<RentalView, ErrorView>) {
    match spec_lookup(s, id) {
        Result::Ok(Option::None) => (
            s,
            Result::Err((ErrorView::NotFound { msg: text::msg_delete_not_found(id) })),
        ),
        Result::Err(e) => (s, Result::Err(e)),
        Result::Ok(Option::Some(rec)) => (
            StoreView { counter: s.counter, records: s.records.remove(id) },
            Result::Ok(rec),
        ),
    }
}

impl Store {
    /// Builds a store over the process's backing byte space: leases the
    /// counter region and the map region from a fresh region table and
    /// attaches to whatever both already hold.
    pub fn init() -> Store {
        Store::attach(RegionTable::new())
    }

    /// Re-attaches a store to a region table handed back by `into_regions`:
    /// the counter and the map are found as they were left.
    pub fn reattach(regions: RegionTable) -> Store {
        Store::attach(regions)
    }

    /// Releases the store's regions, for a later `reattach`.
    pub fn into_regions(self) -> RegionTable {
        self.regions
    }

    fn attach(regions: RegionTable) -> Store {
        let counter = IdCell::init(regions.region(COUNTER_REGION_ID), 0);
        let map = ByteMap::init(regions.region(MAP_REGION_ID));
        Store { counter, map, regions }
    }

    /// Looks a record up by id, decoding the stored bytes; used by read and
    /// update.
    pub fn _get_rental(&self, id: &u64) -> (r: Result<Option<Rental>, Error>)
        ensures
            lookup_view(r) == spec_lookup(self@, *id),
    {
        match self.map.get(*id) {
            Option::None => Result::Ok(Option::None),
            Option::Some(bytes) => match Rental::from_bytes(bytes.as_slice()) {
                Option::Some(rental) => Result::Ok(Option::Some(rental)),
                Option::None => Result::Err(Error::CorruptedEntry),
            },
        }
    }

    /// Reads the record under `id`.
    pub fn get_rental(&self, id: u64) -> (r: Result<Rental, Error>)
        ensures
            result_view(r) == spec_get(self@, id),
    {
        match self._get_rental(&id) {
            Result::Ok(Option::Some(rental)) => Result::Ok(rental),
            Result::Ok(Option::None) => Result::Err(
                (Error::NotFound { msg: text::get_not_found_msg(id) }),
            ),
            Result::Err(e) => Result::Err(e),
        }
    }

    /// Encodes the record and stores it under its own id, overwriting any
    /// prior value there; rejects an oversize record unstored.
    pub fn do_insert(&mut self, rental: &Rental) -> (r: Result<(), Error>)
        ensures
            final(self)@ == spec_insert(old(self)@, rental@).0,
            match r {
                Result::Ok(u) => spec_insert(old(self)@, rental@).1 is Ok,
                Result::Err(e) => spec_insert(old(self)@, rental@).1 == Result::<(),
                    ErrorView,
                >::Err(e@),
            },
    {
        match rental.to_bytes() {
            Option::None => Result::Err(Error::EncodingTooLarge),
            Option::Some(bytes) => {
                let _prev = self.map.insert(rental.id, bytes);
                Result::Ok(())
            },
        }
    }

    /// Mints the next identifier: reads the counter, durably writes the
    /// incremented value, and returns it, so ids start at one and never
    /// repeat for the lifetime of the counter's region.
    fn next_id(&mut self) -> (r: Result<u64, Error>)
        ensures
            final(self)@.records == old(self)@.records,
            old(self)@.counter == u64::MAX ==> r == Result::<u64, Error>::Err(
                Error::CapacityExhausted,
            ) && final(self)@.counter == old(self)@.counter,
            old(self)@.counter < u64::MAX ==> r == Result::<u64, Error>::Ok(
                (old(self)@.counter + 1) as u64,
            ) && final(self)@.counter == old(self)@.counter + 1,
    {
        let cur = self.counter.get();
        if cur == u64::MAX {
            return Result::Err(Error::CapacityExhausted);
        }
        let id = cur + 1;
        let _prev = self.counter.set(id);
        Result::Ok(id)
    }

    /// Creates a record from the payload: mints the next id, stamps the
    /// given clock reading as start time, stores the record and returns it.
    pub fn add_rental(&mut self, rental: RentalPayload, now: u64) -> (r: Result<Rental, Error>)
        ensures
            final(self)@ == spec_add(old(self)@, rental@, now).0,
            result_view(r) == spec_add(old(self)@, rental@, now).1,
    {
        let name_len = rental.customer_name.as_str().as_bytes().len();
        let model_len = rental.product_model.as_str().as_bytes().len();
        proof {
            vstd::bytes::lemma_auto_spec_u64_to_from_le_bytes();
        }
        if name_len > MAX_ENCODED_SIZE || model_len > MAX_ENCODED_SIZE || 33 + name_len + model_len
            > MAX_ENCODED_SIZE {
            return Result::Err(Error::EncodingTooLarge);
        }
        let id = match self.next_id() {
            Result::Err(e) => { return Result::Err(e); },
            Result::Ok(id) => id,
        };
        let rec = Rental {
            id,
            customer_name: rental.customer_name,
            product_model: rental.product_model,
            rental_start_time: now,
            rental_end_time: Option::None,
        };
        let bytes = match rec.to_bytes() {
            Option::Some(b) => b,
            Option::None => {
                proof {
                    assert(false);
                }
                vstd::pervasive::unreached()
            },
        };
        let _old_entry = self.map.insert(rec.id, bytes);
        Result::Ok(rec)
    }

    /// Updates the record under `id`: overwrites the text fields with the
    /// payload's, stamps the given clock reading as end time, keeps id and
    /// start time, and re-inserts.
    pub fn update_rental(&mut self, id: u64, payload: RentalPayload, now: u64) -> (r: Result<
        Rental,
        Error,
    >)
        ensures
            final(self)@ == spec_update(old(self)@, id, payload@, now).0,
            result_view(r) == spec_update(old(self)@, id, payload@, now).1,
    {
        match self._get_rental(&id) {
            Result::Err(e) => Result::Err(e),
            Result::Ok(Option::None) => Result::Err(
                (Error::NotFound { msg: text::update_not_found_msg(id) }),
            ),
            Result::Ok(Option::Some(found)) => {
                let mut rental = found;
                rental.customer_name = payload.customer_name;
                rental.product_model = payload.product_model;
                rental.rental_end_time = Option::Some(now);
                match self.do_insert(&rental) {
                    Result::Err(e) => Result::Err(e),
                    Result::Ok(u) => Result::Ok(rental),
                }
            },
        }
    }

    /// Deletes the record under `id` and returns it.
    pub fn delete_rental(&mut self, id: u64) -> (r: Result<Rental, Error>)
        ensures
            final(self)@ == spec_delete(old(self)@, id).0,
            result_view(r) == spec_delete(old(self)@, id).1,
    {
        match self._get_rental(&id) {
            Result::Err(e) => Result::Err(e),
            Result::Ok(Option::None) => Result::Err(
                (Error::NotFound { msg: text::delete_not_found_msg(id) }),
            ),
            Result::Ok(Option::Some(rental)) => {
                let _prev = self.map.remove(id);
                Result::Ok(rental)
            },
        }
    }

    /// The number of stored records.
    pub fn rental_count(&self) -> (n: u64)
        ensures
            n as nat == self@.records.len(),
    {
        self.map.len()
    }
}

} // verus!
