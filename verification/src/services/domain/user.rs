use vstd::prelude::*;

verus! {

/// A registered user: `ra` is the student's academic record number and
/// `password` holds the password's bcrypt hash.
pub struct User {
    pub id: u128,
    pub password: String,
    pub ra: String,
    pub email: String,
}

} // verus!
