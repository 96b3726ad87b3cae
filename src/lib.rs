//! Authentication and session-gated access for a small multi-user ledger
//! service, with the value objects of the ledger.
pub mod authentication;
pub mod domain;
pub mod routes;
pub mod session_state;
mod uuid_text;

pub use uuid_text::{parsed_uuid, uuid_text};
