use crate::uuid_text::{parse_uuid, parsed_uuid};
use vstd::prelude::*;

verus! {

/// A party to a debt: a user's UUID, as its 128-bit value.
#[derive(Debug, Clone, Copy, PartialEq, Eq, Structural)]
pub struct DebtUserId(u128);

/// The message that rejects `s` as a user id.
pub open spec fn invalid_user_id_message(s: Seq<char>) -> Seq<char> {
    s + " is not valid UUID"@
}

impl DebtUserId {
    /// The UUID of a party.
    pub closed spec fn value(self) -> u128 {
        self.0
    }

    /// The UUID of this party, as its 128-bit value.
    pub fn as_u128(&self) -> (r: u128)
        ensures
            r == self.value(),
    {
        self.0
    }

    /// Reads a party from the text of a UUID.
    pub fn parse(s: &str) -> (r: Result<DebtUserId, String>)
        ensures
            match parsed_uuid(s@) {
                Some(v) => r matches Ok(id) && id.value() == v,
                None => r matches Err(e) && e@ == invalid_user_id_message(s@),
            },
    {
        match parse_uuid(s) {
            Ok(v) => Ok(DebtUserId(v)),
            Err(_) => Err(String::from_str(s).concat(" is not valid UUID")),
        }
    }
}

} // verus!
