//! Profile identifiers.
//!
//! A profile is known by a UUID. The library keeps the 128 bits of it as a
//! plain `u128`; reading an identifier from text and drawing a fresh one are
//! left to the `uuid` crate.

use vstd::prelude::*;
use std::str::FromStr;
use uuid::Uuid;

verus! {

/// The identifier that `uuid::Uuid::from_str` reads from `text`, as its 128
/// bits, or `None` where it rejects the text.
pub uninterp spec fn parsed_uuid(text: Seq<char>) -> Option<u128>;

/// Version 4 and the RFC variant: the six bits that every random UUID fixes.
pub open spec fn is_random_uuid(id: u128) -> bool {
    id & 0xF000_C000_0000_0000_0000u128 == 0x4000_8000_0000_0000_0000u128
}

/// Calls `uuid::Uuid::from_str` and hands out the identifier's bits.
///
/// Trusted: the result is a function of the text alone, named by
/// [`parsed_uuid`]; nothing is claimed about which texts are accepted.
#[verifier::external_body]
pub(crate) fn uuid_from_str(text: &str) -> (r: Option<u128>)
    ensures
        r == parsed_uuid(text@),
{
    match Uuid::from_str(text) {
        Ok(id) => Some(id.as_u128()),
        Err(_) => None,
    }
}

/// Calls `uuid::Uuid::new_v4` and hands out the identifier's bits.
///
/// Trusted: the value is random; the only claim is that the version and
/// variant bits are those that `new_v4` forces on every result. `new_v4`
/// stops the program where the operating system gives no random bytes.
#[verifier::external_body]
pub(crate) fn uuid_new_v4() -> (r: u128)
    ensures
        is_random_uuid(r),
{
    Uuid::new_v4().as_u128()
}

} // verus!
