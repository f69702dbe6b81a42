use vstd::prelude::*;

use crate::services::domain::user::User;

verus! {

/// Why a user was not registered.
#[derive(Debug, PartialEq, Eq, Structural)]
pub enum RegisterUserErrors {
    UserExists,
    InvalidCode,
}

/// The first registration command: it accepts every user and code and
/// consults no service.
pub fn register_user(hashed_code: &str, user: &User) -> (r: Result<(), RegisterUserErrors>)
    ensures
        r == Ok::<(), RegisterUserErrors>(()),
{
    Ok(())
}

} // verus!
