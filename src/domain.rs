//! Value objects of the ledger.
mod debt_currency;
mod debt_description;
mod debt_status;
mod debt_user_id;
mod new_user;

pub use debt_currency::{currency_with_code, invalid_currency_message, uppercase_of, DebtCurrency};
pub use debt_description::{
    description_too_long_message, grapheme_count, DebtDescription, MAX_DESCRIPTION_GRAPHEMES,
};
pub use debt_status::DebtStatus;
pub use debt_user_id::{invalid_user_id_message, DebtUserId};
pub use new_user::{NewUser, HASH_ITERATIONS, HASH_LANES, HASH_MEMORY_KIB};
