use rental_store::codec::MAX_ENCODED_SIZE;
use rental_store::rental::Rental;

fn sample(end: Option<u64>) -> Rental {
    Rental {
        id: 7,
        customer_name: String::from("alice"),
        product_model: String::from("modelX"),
        rental_start_time: 123,
        rental_end_time: end,
    }
}

#[test]
fn round_trip_without_end_time() {
    let r = sample(None);
    let bytes = r.to_bytes().expect("within bound");
    // 16 bytes of id and start time, 1 presence byte, two 8-byte lengths,
    // then "alice" and "modelX".
    assert_eq!(bytes.len(), 17 + 8 + 5 + 8 + 6);
    assert_eq!(Rental::from_bytes(&bytes), Some(r));
}

#[test]
fn round_trip_with_end_time() {
    let r = sample(Some(456));
    let bytes = r.to_bytes().expect("within bound");
    assert_eq!(bytes.len(), 25 + 8 + 5 + 8 + 6);
    assert_eq!(Rental::from_bytes(&bytes), Some(r));
}

#[test]
fn round_trip_unicode_text() {
    let mut r = sample(Some(1));
    r.customer_name = String::from("héllo ☃ world");
    r.product_model = String::from("模型-β");
    let bytes = r.to_bytes().expect("within bound");
    assert_eq!(Rental::from_bytes(&bytes), Some(r));
}

#[test]
fn layout_is_little_endian_with_presence_byte() {
    let r = sample(None);
    let bytes = r.to_bytes().unwrap();
    assert_eq!(bytes[0], 7);
    assert!(bytes[1..8].iter().all(|b| *b == 0));
    assert_eq!(bytes[8], 123);
    assert_eq!(bytes[16], 0);
    let closed = sample(Some(456)).to_bytes().unwrap();
    assert_eq!(closed[16], 1);
    assert_eq!(&closed[17..25], &456u64.to_le_bytes());
}

#[test]
fn encode_rejects_oversize_record() {
    let mut r = sample(None);
    r.customer_name = "a".repeat(MAX_ENCODED_SIZE + 1);
    assert_eq!(r.to_bytes(), None);
    // A record just over the bound through the two fields together.
    let mut r2 = sample(None);
    r2.customer_name = "a".repeat(600);
    r2.product_model = "b".repeat(600);
    assert_eq!(r2.to_bytes(), None);
    // And one just under it.
    let mut r3 = sample(None);
    r3.customer_name = "a".repeat(600);
    r3.product_model = "b".repeat(391);
    assert!(r3.to_bytes().is_some());
    assert_eq!(r3.to_bytes().unwrap().len(), MAX_ENCODED_SIZE);
}

#[test]
fn decode_rejects_malformed_bytes() {
    assert_eq!(Rental::from_bytes(&[]), None);
    assert_eq!(Rental::from_bytes(&[0u8; 16]), None);
    let good = sample(None).to_bytes().unwrap();
    // A presence byte that is neither 0 nor 1.
    let mut bad_flag = good.clone();
    bad_flag[16] = 7;
    assert_eq!(Rental::from_bytes(&bad_flag), None);
    // A trailing byte.
    let mut trailing = good.clone();
    trailing.push(0);
    assert_eq!(Rental::from_bytes(&trailing), None);
    // A truncated tail.
    let mut short = good.clone();
    short.pop();
    assert_eq!(Rental::from_bytes(&short), None);
    // A text field that is not UTF-8.
    let mut bad_text = good.clone();
    bad_text[25] = 0xFF;
    assert_eq!(Rental::from_bytes(&bad_text), None);
}
