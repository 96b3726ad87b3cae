//! Request handlers' decisions, apart from the transport that carries them.
pub mod login;
pub mod signup;

pub use login::{complete_login, logged_in, login, LoginError};
pub use signup::{SignUpError, SignUpJsonRequestBody};
