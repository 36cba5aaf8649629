//! The codec: each record is converted to and from a bounded, self-describing
//! byte string.
//!
//! Layout: the record id and the start time as 8 little-endian bytes each,
//! one presence byte for the end time (followed by its 8 bytes when present),
//! then each text field as an 8-byte length followed by its UTF-8 bytes.
//! An encoding longer than `MAX_ENCODED_SIZE` is rejected, never truncated.

use vstd::bytes::*;
use vstd::prelude::*;
use vstd::slice::*;
use vstd::utf8::*;

use crate::rental::{Rental, RentalView};

verus! {

/// The declared maximum serialized size of one record.  Part of the persisted
/// layout: stored entries longer than this are never produced.
pub const MAX_ENCODED_SIZE: usize = 1024;

/// The bytes of one text field: an 8-byte little-endian length followed by
/// the field's UTF-8 encoding.
pub open spec fn spec_encode_str(s: Seq<char>) -> Seq<u8> {
    spec_u64_to_le_bytes(encode_utf8(s).len() as u64) + encode_utf8(s)
}

/// The bytes of the optional end time: a presence byte, then the value.
pub open spec fn spec_encode_end(e: Option<u64>) -> Seq<u8> {
    match e {
        Option::None => seq![0u8],
        Option::Some(t) => seq![1u8] + spec_u64_to_le_bytes(t),
    }
}

/// The serialized form of a record.
pub open spec fn spec_encode(r: RentalView) -> Seq<u8> {
    spec_u64_to_le_bytes(r.id) + spec_u64_to_le_bytes(r.rental_start_time)
        + spec_encode_end(r.rental_end_time) + spec_encode_str(r.customer_name)
        + spec_encode_str(r.product_model)
}

/// Reads one length-prefixed text field at offset `off`: the decoded
/// characters and the offset just past the field, or nothing if the bytes are
/// too short or are not UTF-8.
pub open spec fn spec_read_str(b: Seq<u8>, off: int) -> Option<(Seq<char>, int)> {
    if off + 8 > b.len() {
        Option::None
    } else {
        let n = spec_u64_from_le_bytes(b.subrange(off, off + 8)) as int;
        if off + 8 + n > b.len() {
            Option::None
        } else {
            let field = b.subrange(off + 8, off + 8 + n);
            if valid_utf8(field) {
                Option::Some((decode_utf8(field), off + 8 + n))
            } else {
                Option::None
            }
        }
    }
}

/// Reads the two text fields starting at `off` and assembles the record;
/// trailing bytes make the whole decode fail.
pub open spec fn spec_decode_tail(
    b: Seq<u8>,
    off: int,
    id: u64,
    start: u64,
    end: Option<u64>,
) -> Option<RentalView> {
    match spec_read_str(b, off) {
        Option::None => Option::None,
        Option::Some((name, off2)) => match spec_read_str(b, off2) {
            Option::None => Option::None,
            Option::Some((model, off3)) => if off3 == b.len() {
                Option::Some(
                    (RentalView {
                        id,
                        customer_name: name,
                        product_model: model,
                        rental_start_time: start,
                        rental_end_time: end,
                    }),
                )
            } else {
                Option::None
            },
        },
    }
}

/// The record a byte string decodes to, if any: the exact inverse of
/// `spec_encode` on every encoding it produces.
pub open spec fn spec_decode(b: Seq<u8>) -> Option<RentalView> {
    if b.len() < 17 {
        Option::None
    } else {
        let id = spec_u64_from_le_bytes(b.subrange(0, 8));
        let start = spec_u64_from_le_bytes(b.subrange(8, 16));
        if b[16] == 0 {
            spec_decode_tail(b, 17, id, start, Option::None)
        } else if b[16] == 1 {
            if b.len() < 25 {
                Option::None
            } else {
                spec_decode_tail(
                    b,
                    25,
                    id,
                    start,
                    Option::Some(spec_u64_from_le_bytes(b.subrange(17, 25))),
                )
            }
        } else {
            Option::None
        }
    }
}

/// A length-prefixed text field standing at `off` is read back exactly.
proof fn lemma_read_str_at(b: Seq<u8>, off: int, s: Seq<char>, rest: Seq<u8>)
    requires
        0 <= off <= b.len(),
        b.subrange(off, b.len() as int) == spec_encode_str(s) + rest,
        encode_utf8(s).len() <= u64::MAX,
    ensures
        spec_read_str(b, off) == Option::Some(((s, off + 8 + encode_utf8(s).len()))),
{
    lemma_auto_spec_u64_to_from_le_bytes();
    let n = encode_utf8(s).len() as int;
    let tail = b.subrange(off, b.len() as int);
    assert(tail.len() == 8 + n + rest.len());
    assert(b.subrange(off, off + 8) =~= spec_u64_to_le_bytes(encode_utf8(s).len() as u64)) by {
        assert forall|i: int| 0 <= i < 8 implies #[trigger] b.subrange(off, off + 8)[i]
            == spec_u64_to_le_bytes(encode_utf8(s).len() as u64)[i] by {
            assert(b.subrange(off, off + 8)[i] == tail[i]);
            assert(tail[i] == (spec_encode_str(s) + rest)[i]);
        }
    }
    assert(spec_u64_from_le_bytes(b.subrange(off, off + 8)) == encode_utf8(s).len() as u64);
    assert(b.subrange(off + 8, off + 8 + n) =~= encode_utf8(s)) by {
        assert forall|i: int| 0 <= i < n implies #[trigger] b.subrange(off + 8, off + 8 + n)[i]
            == encode_utf8(s)[i] by {
            assert(b.subrange(off + 8, off + 8 + n)[i] == tail[8 + i]);
            assert(tail[8 + i] == (spec_encode_str(s) + rest)[8 + i]);
        }
    }
    encode_utf8_valid_utf8(s);
    encode_utf8_decode_utf8(s);
}

/// The codec round trip: decoding an encoding yields the record back, for
/// every record whose encoding stays within the declared maximum size.
pub proof fn lemma_encode_decode(r: RentalView)
    requires
        spec_encode(r).len() <= MAX_ENCODED_SIZE,
    ensures
        spec_decode(spec_encode(r)) == Option::Some(r),
{
    lemma_auto_spec_u64_to_from_le_bytes();
    let b = spec_encode(r);
    let endb = spec_encode_end(r.rental_end_time);
    let s1 = spec_encode_str(r.customer_name);
    let s2 = spec_encode_str(r.product_model);
    let n1 = encode_utf8(r.customer_name).len() as int;
    let n2 = encode_utf8(r.product_model).len() as int;
    assert(endb.len() == if r.rental_end_time is Some {
        9int
    } else {
        1int
    });
    assert(b.len() == 16 + endb.len() + 16 + n1 + n2);
    let off = 16 + endb.len() as int;
    assert(b.subrange(0, 8) =~= spec_u64_to_le_bytes(r.id));
    assert(b.subrange(8, 16) =~= spec_u64_to_le_bytes(r.rental_start_time));
    assert(b[16] == endb[0]);
    match r.rental_end_time {
        Option::None => {
            assert(endb =~= seq![0u8]);
            assert(b[16] == 0);
        },
        Option::Some(t) => {
            assert(endb[0] == (seq![1u8] + spec_u64_to_le_bytes(t))[0]);
            assert(b[16] == 1);
            assert(b.subrange(17, 25) =~= spec_u64_to_le_bytes(t)) by {
                assert forall|i: int| 0 <= i < 8 implies #[trigger] b.subrange(17, 25)[i]
                    == spec_u64_to_le_bytes(t)[i] by {
                    assert(b.subrange(17, 25)[i] == b[17 + i]);
                    assert(endb[1 + i] == (seq![1u8] + spec_u64_to_le_bytes(t))[1 + i]);
                }
            }
            assert(spec_u64_from_le_bytes(b.subrange(17, 25)) == t);
        },
    }
    assert(b.subrange(off, b.len() as int) =~= s1 + s2);
    lemma_read_str_at(b, off, r.customer_name, s2);
    let off2 = off + 8 + n1;
    assert(b.subrange(off2, b.len() as int) =~= s2 + Seq::<u8>::empty());
    lemma_read_str_at(b, off2, r.product_model, Seq::<u8>::empty());
    assert(off2 + 8 + n2 == b.len());
    assert(spec_decode(b) == Option::Some(r)) by {
        let dec = spec_decode(b)->0;
        assert(dec =~= r);
    }
}

/// Appends every byte of `s` to `out`.
fn push_all(out: &mut Vec<u8>, s: &[u8])
    ensures
        final(out)@ == old(out)@ + s@,
{
    let mut i: usize = 0;
    while i < s.len()
        invariant
            i <= s@.len(),
            out@ == old(out)@ + s@.subrange(0, i as int),
        decreases s@.len() - i,
    {
        let b = *slice_index_get(s, i);
        out.push(b);
        i = i + 1;
        proof {
            assert(out@ =~= old(out)@ + s@.subrange(0, i as int));
        }
    }
    proof {
        assert(s@.subrange(0, s@.len() as int) =~= s@);
    }
}

/// Appends the 8 little-endian bytes of `x` to `out`.
fn push_u64(out: &mut Vec<u8>, x: u64)
    ensures
        final(out)@ == old(out)@ + spec_u64_to_le_bytes(x),
{
    let b = u64_to_le_bytes(x);
    push_all(out, b.as_slice());
}

/// Appends a length-prefixed field: 8 bytes of length, then the bytes.
fn push_len_prefixed(out: &mut Vec<u8>, s: &[u8])
    requires
        s@.len() <= u64::MAX,
    ensures
        final(out)@ == old(out)@ + spec_u64_to_le_bytes(s@.len() as u64) + s@,
{
    push_u64(out, s.len() as u64);
    push_all(out, s);
}

/// Relies on `String::from_utf8`: it succeeds exactly on UTF-8 input, and the
/// returned string holds exactly the given bytes.
#[verifier::external_body]
fn string_from_utf8_bytes(v: Vec<u8>) -> (res: Option<String>)
    ensures
        res is Some <==> valid_utf8(v@),
        res matches Option::Some(s) ==> encode_utf8(s@) == v@,
{
    String::from_utf8(v).ok()
}

/// Reads one length-prefixed text field at `off`, as `spec_read_str` does.
fn read_str(bytes: &[u8], off: usize) -> (res: Option<(String, usize)>)
    requires
        off <= bytes@.len(),
    ensures
        match res {
            Option::Some(p) => spec_read_str(bytes@, off as int) == Option::Some(
                ((p.0@, p.1 as int)),
            ) && p.1 <= bytes@.len(),
            Option::None => spec_read_str(bytes@, off as int) is None,
        },
{
    proof {
        lemma_auto_spec_u64_to_from_le_bytes();
    }
    if bytes.len() - off < 8 {
        return Option::None;
    }
    let n64 = u64_from_le_bytes(slice_subrange(bytes, off, off + 8));
    let rem = bytes.len() - (off + 8);
    if n64 > rem as u64 {
        return Option::None;
    }
    let n = n64 as usize;
    let field = slice_subrange(bytes, off + 8, off + 8 + n);
    match string_from_utf8_bytes(slice_to_vec(field)) {
        Option::None => Option::None,
        Option::Some(s) => {
            proof {
                encode_utf8_decode_utf8(s@);
            }
            Option::Some((s, off + 8 + n))
        },
    }
}

impl Rental {
    /// Serializes the record, or rejects it when its encoding would exceed
    /// `MAX_ENCODED_SIZE`.
    pub fn to_bytes(&self) -> (res: Option<Vec<u8>>)
        ensures
            match res {
                Option::Some(v) => spec_encode(self@).len() <= MAX_ENCODED_SIZE && v@ == spec_encode(
                    self@,
                ),
                Option::None => spec_encode(self@).len() > MAX_ENCODED_SIZE,
            },
    {
        let name_bytes = self.customer_name.as_str().as_bytes();
        let model_bytes = self.product_model.as_str().as_bytes();
        let nl = name_bytes.len();
        let ml = model_bytes.len();
        proof {
            lemma_auto_spec_u64_to_from_le_bytes();
            assert(spec_encode_end(self@.rental_end_time).len() == if self@.rental_end_time
                is Some {
                9int
            } else {
                1int
            });
            assert(spec_encode(self@).len() == spec_encode_end(self@.rental_end_time).len() + 32
                + nl + ml);
        }
        if nl > MAX_ENCODED_SIZE || ml > MAX_ENCODED_SIZE {
            return Option::None;
        }
        let base: usize = if self.rental_end_time.is_some() {
            25
        } else {
            17
        };
        let total = base + 16 + nl + ml;
        if total > MAX_ENCODED_SIZE {
            return Option::None;
        }
        let mut out: Vec<u8> = Vec::new();
        push_u64(&mut out, self.id);
        push_u64(&mut out, self.rental_start_time);
        match self.rental_end_time {
            Option::None => out.push(0u8),
            Option::Some(t) => {
                out.push(1u8);
                push_u64(&mut out, t);
            },
        }
        proof {
            assert(out@ =~= spec_u64_to_le_bytes(self@.id) + spec_u64_to_le_bytes(
                self@.rental_start_time,
            ) + spec_encode_end(self@.rental_end_time));
        }
        push_len_prefixed(&mut out, name_bytes);
        push_len_prefixed(&mut out, model_bytes);
        proof {
            assert(out@ =~= spec_encode(self@));
        }
        Option::Some(out)
    }

    /// Deserializes a record, as `spec_decode` does: the exact inverse of
    /// `to_bytes` on every byte string it produces, and nothing on any other.
    pub fn from_bytes(bytes: &[u8]) -> (res: Option<Rental>)
        ensures
            match res {
                Option::Some(r) => spec_decode(bytes@) == Option::Some(r@),
                Option::None => spec_decode(bytes@) is None,
            },
    {
        if bytes.len() < 17 {
            return Option::None;
        }
        let id = u64_from_le_bytes(slice_subrange(bytes, 0, 8));
        let start = u64_from_le_bytes(slice_subrange(bytes, 8, 16));
        let flag = *slice_index_get(bytes, 16);
        let (end, off): (Option<u64>, usize) = if flag == 0 {
            (Option::None, 17)
        } else if flag == 1 {
            if bytes.len() < 25 {
                return Option::None;
            }
            (Option::Some(u64_from_le_bytes(slice_subrange(bytes, 17, 25))), 25)
        } else {
            return Option::None;
        };
        let (name, off2) = match read_str(bytes, off) {
            Option::None => { return Option::None; },
            Option::Some(p) => p,
        };
        let (model, off3) = match read_str(bytes, off2) {
            Option::None => { return Option::None; },
            Option::Some(p) => p,
        };
        if off3 != bytes.len() {
            return Option::None;
        }
        Option::Some(
            Rental {
                id,
                customer_name: name,
                product_model: model,
                rental_start_time: start,
                rental_end_time: end,
            },
        )
    }
}

} // verus!
