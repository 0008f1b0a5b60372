//! Random ids, as the services format them.
use vstd::prelude::*;

verus! {

/// Whether a character is a lower-case hexadecimal digit.
pub open spec fn is_lower_hex(c: char) -> bool {
    ('0' <= c && c <= '9') || ('a' <= c && c <= 'f')
}

/// Calls `uuid::Uuid::new_v4` and formats the id with `to_string`: 36
/// characters, lower-case hexadecimal digits with hyphens at positions 8, 13,
/// 18 and 23. Which id comes out is chance.
#[verifier::external_body]
pub(crate) fn random_uuid_string() -> (r: String)
    ensures
        r@.len() == 36,
        forall|i: int|
            0 <= i < 36 ==> if i == 8 || i == 13 || i == 18 || i == 23 {
                #[trigger] r@[i] == '-'
            } else {
                is_lower_hex(r@[i])
            },
{
    uuid::Uuid::new_v4().to_string()
}

/// Calls `uuid::Uuid::new_v4` and formats the id with `simple().to_string()`:
/// 32 lower-case hexadecimal digits. Which id comes out is chance.
#[verifier::external_body]
pub(crate) fn random_simple_uuid() -> (r: String)
    ensures
        r@.len() == 32,
        forall|i: int| 0 <= i < 32 ==> is_lower_hex(#[trigger] r@[i]),
{
    uuid::Uuid::new_v4().simple().to_string()
}

} // verus!
