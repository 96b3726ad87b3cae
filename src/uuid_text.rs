//! UUIDs as their 128-bit values, and their text form.
use uuid::Uuid;
use vstd::prelude::*;

verus! {

#[verifier::external_type_specification]
#[verifier::external_body]
pub struct ExUuidError(uuid::Error);

/// The value that a text parses to as a UUID, if it parses.
pub uninterp spec fn parsed_uuid(text: Seq<char>) -> Option<u128>;

/// The hyphenated lower-case text of a UUID.
pub uninterp spec fn uuid_text(value: u128) -> Seq<char>;

/// Relies on `uuid::Uuid::parse_str` (and `Uuid::as_u128`): the outcome
/// depends on the text alone.
#[verifier::external_body]
pub(crate) fn parse_uuid(text: &str) -> (r: Result<u128, uuid::Error>)
    ensures
        match r {
            Ok(v) => parsed_uuid(text@) == Some(v),
            Err(_) => parsed_uuid(text@) is None,
        },
{
    match Uuid::parse_str(text) {
        Ok(u) => Ok(u.as_u128()),
        Err(e) => Err(e),
    }
}

/// Relies on `uuid::Uuid::from_u128` and its `Display`, which writes the
/// hyphenated form; `Uuid::parse_str` reads that form back to the same value.
#[verifier::external_body]
pub(crate) fn format_uuid(value: u128) -> (r: String)
    ensures
        r@ == uuid_text(value),
        parsed_uuid(r@) == Some(value),
{
    Uuid::from_u128(value).to_string()
}

} // verus!
