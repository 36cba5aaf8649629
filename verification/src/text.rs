//! Decimal rendering of identifiers, and the operation-specific messages of
//! the `NotFound` error.

use vstd::prelude::*;
use vstd::string::StringExecFns;

verus! {

/// The character of one decimal digit.
pub open spec fn digit_char(d: u64) -> char
    recommends
        d < 10,
{
    ((d + 48) as u8) as char
}

/// The decimal digits of `n`, most significant first, with no leading zeros
/// (`0` is rendered as one digit).
pub open spec fn spec_digits(n: u64) -> Seq<char>
    decreases n,
{
    if n < 10 {
        seq![digit_char(n)]
    } else {
        spec_digits(n / 10).push(digit_char(n % 10))
    }
}

/// Relies on `String::push`: it appends exactly the given character.
#[verifier::external_body]
fn push_char(s: &mut String, c: char)
    ensures
        final(s)@ == old(s)@.push(c),
{
    s.push(c);
}

/// Renders `n` in decimal.
pub fn u64_to_string(n: u64) -> (s: String)
    ensures
        s@ == spec_digits(n),
    decreases n,
{
    if n < 10 {
        let mut s = String::new();
        push_char(&mut s, (n as u8 + 48) as char);
        proof {
            assert(s@ =~= spec_digits(n));
        }
        s
    } else {
        let mut s = u64_to_string(n / 10);
        push_char(&mut s, ((n % 10) as u8 + 48) as char);
        s
    }
}

/// The message a failed read carries.
pub open spec fn msg_get_not_found(id: u64) -> Seq<char> {
    "a rental with id="@ + spec_digits(id) + " not found"@
}

/// The message a failed update carries.
pub open spec fn msg_update_not_found(id: u64) -> Seq<char> {
    "couldn't update a rental with id="@ + spec_digits(id) + ". rental not found"@
}

/// The message a failed delete carries.
pub open spec fn msg_delete_not_found(id: u64) -> Seq<char> {
    "couldn't delete a rental with id="@ + spec_digits(id) + ". rental not found."@
}

/// Builds the read message.
pub fn get_not_found_msg(id: u64) -> (s: String)
    ensures
        s@ == msg_get_not_found(id),
{
    let mut s = String::from_str("a rental with id=");
    let digits = u64_to_string(id);
    s.append(digits.as_str());
    s.append(" not found");
    proof {
        assert(s@ =~= msg_get_not_found(id));
    }
    s
}

/// Builds the update message.
pub fn update_not_found_msg(id: u64) -> (s: String)
    ensures
        s@ == msg_update_not_found(id),
{
    let mut s = String::from_str("couldn't update a rental with id=");
    let digits = u64_to_string(id);
    s.append(digits.as_str());
    s.append(". rental not found");
    proof {
        assert(s@ =~= msg_update_not_found(id));
    }
    s
}

/// Builds the delete message.
pub fn delete_not_found_msg(id: u64) -> (s: String)
    ensures
        s@ == msg_delete_not_found(id),
{
    let mut s = String::from_str("couldn't delete a rental with id=");
    let digits = u64_to_string(id);
    s.append(digits.as_str());
    s.append(". rental not found.");
    proof {
        assert(s@ =~= msg_delete_not_found(id));
    }
    s
}

} // verus!
