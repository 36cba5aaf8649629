use rental_store::rental::{Error, Rental, RentalPayload};
use rental_store::store::Store;

fn payload(name: &str, model: &str) -> RentalPayload {
    RentalPayload { customer_name: String::from(name), product_model: String::from(model) }
}

fn not_found_msg(r: Result<Rental, Error>) -> String {
    match r {
        Err(Error::NotFound { msg }) => msg,
        other => panic!("expected NotFound, got {:?}", other),
    }
}

#[test]
fn end_to_end_lifecycle() {
    let mut store = Store::init();
    let created = store.add_rental(payload("alice", "modelX"), 100).unwrap();
    assert_eq!(created.id, 1);
    assert_eq!(created.customer_name, "alice");
    assert_eq!(created.product_model, "modelX");
    assert_eq!(created.rental_start_time, 100);
    assert_eq!(created.rental_end_time, None);

    let updated = store.update_rental(1, payload("bob", "modelY"), 200).unwrap();
    assert_eq!(updated.id, 1);
    assert_eq!(updated.customer_name, "bob");
    assert_eq!(updated.product_model, "modelY");
    assert_eq!(updated.rental_start_time, 100);
    assert_eq!(updated.rental_end_time, Some(200));

    let deleted = store.delete_rental(1).unwrap();
    assert_eq!(deleted, updated);

    let msg = not_found_msg(store.get_rental(1));
    assert!(msg.contains("1"));
    assert_eq!(msg, "a rental with id=1 not found");
}

#[test]
fn create_ids_strictly_increase_across_restart() {
    let mut store = Store::init();
    let mut last = 0;
    for i in 0..3u64 {
        let rec = store.add_rental(payload("c", "m"), i).unwrap();
        assert!(rec.id > last);
        last = rec.id;
    }
    assert_eq!(last, 3);
    // Simulated restart: release the regions and re-attach to them.
    let regions = store.into_regions();
    let mut store = Store::reattach(regions);
    let rec = store.add_rental(payload("d", "m"), 9).unwrap();
    assert_eq!(rec.id, 4);
    // Records written before the restart are found unchanged.
    let second = store.get_rental(2).unwrap();
    assert_eq!(second.customer_name, "c");
    assert_eq!(second.rental_start_time, 1);
}

#[test]
fn read_after_create_returns_equal_record() {
    let mut store = Store::init();
    let created = store.add_rental(payload("carol", "z9"), 42).unwrap();
    let read = store.get_rental(created.id).unwrap();
    assert_eq!(read, created);
}

#[test]
fn update_missing_id_leaves_store_unchanged() {
    let mut store = Store::init();
    store.add_rental(payload("alice", "modelX"), 5).unwrap();
    assert_eq!(store.rental_count(), 1);
    let msg = not_found_msg(store.update_rental(99, payload("x", "y"), 6));
    assert_eq!(msg, "couldn't update a rental with id=99. rental not found");
    assert_eq!(store.rental_count(), 1);
    let untouched = store.get_rental(1).unwrap();
    assert_eq!(untouched.customer_name, "alice");
    assert_eq!(untouched.rental_end_time, None);
}

#[test]
fn update_overwrites_fields_and_closes() {
    let mut store = Store::init();
    store.add_rental(payload("alice", "modelX"), 10).unwrap();
    let first = store.update_rental(1, payload("bob", "modelY"), 20).unwrap();
    assert_eq!(first.rental_end_time, Some(20));
    // A closed record can be updated again; the end time moves forward.
    let second = store.update_rental(1, payload("bob", "modelZ"), 30).unwrap();
    assert_eq!(second.id, 1);
    assert_eq!(second.rental_start_time, 10);
    assert_eq!(second.product_model, "modelZ");
    assert_eq!(second.rental_end_time, Some(30));
}

#[test]
fn delete_missing_and_delete_existing() {
    let mut store = Store::init();
    let msg = not_found_msg(store.delete_rental(5));
    assert_eq!(msg, "couldn't delete a rental with id=5. rental not found.");
    let created = store.add_rental(payload("dave", "m1"), 7).unwrap();
    let removed = store.delete_rental(created.id).unwrap();
    assert_eq!(removed, created);
    assert!(matches!(store.get_rental(created.id), Err(Error::NotFound { .. })));
    assert_eq!(store.rental_count(), 0);
}

#[test]
fn add_rejects_oversize_record() {
    let mut store = Store::init();
    let big = "x".repeat(1500);
    let res = store.add_rental(payload(&big, "m"), 1);
    assert_eq!(res, Err(Error::EncodingTooLarge));
    assert_eq!(store.rental_count(), 0);
    // The failed create burned no id.
    let rec = store.add_rental(payload("ok", "m"), 2).unwrap();
    assert_eq!(rec.id, 1);
}

#[test]
fn not_found_message_renders_large_ids() {
    let store = Store::init();
    let msg = not_found_msg(store.get_rental(9_007_199_254_740_993));
    assert_eq!(msg, "a rental with id=9007199254740993 not found");
}

#[test]
fn do_insert_stores_under_the_records_own_id() {
    let mut store = Store::init();
    let r = Rental {
        id: 33,
        customer_name: String::from("eve"),
        product_model: String::from("m2"),
        rental_start_time: 4,
        rental_end_time: None,
    };
    store.do_insert(&r).unwrap();
    assert_eq!(store._get_rental(&33).unwrap(), Some(r));
    assert_eq!(store._get_rental(&34).unwrap(), None);
}
