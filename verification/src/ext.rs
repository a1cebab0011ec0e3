//! Trusted bindings to functions the verified code relies on but cannot see
//! into: one `std` string primitive and the correlation-id generator.

use vstd::prelude::*;

verus! {

/// Relies on `String::push` (std): appends the given character to the end of
/// the string.
#[verifier::external_body]
pub fn push_char(s: &mut String, c: char)
    ensures
        final(s)@ == old(s)@.push(c),
{
    s.push(c);
}

/// Relies on `uuid::Uuid::new_v4` and the `Display` impl of `uuid::Uuid`: a
/// random version-4 UUID rendered in the hyphenated form, which is always 36
/// characters. The value is random, so nothing more is promised of it.
#[verifier::external_body]
pub fn fresh_req_uuid() -> (r: String)
    ensures
        r@.len() == 36,
{
    uuid::Uuid::new_v4().to_string()
}

} // verus!
