use vstd::prelude::*;

use crate::services::domain::ids::{hyphenated_uuid, is_random_uuid, new_random_uuid, uuid_text};

verus! {

/// A pending e-mail validation: the code that was mailed to `email`.
pub struct ValidationRequest {
    pub id: u128,
    pub email: String,
    pub hashed_code: String,
}

impl ValidationRequest {
    /// A request is fresh when its id is a random UUID and its code is the
    /// hyphenated text of another random UUID.
    pub open spec fn is_fresh(self) -> bool {
        &&& is_random_uuid(self.id)
        &&& exists|code: u128| is_random_uuid(code) && self.hashed_code@ == hyphenated_uuid(code)
    }

    /// Creates a request for `email` with a new random id and a new random code.
    pub fn new(email: String) -> (request: ValidationRequest)
        ensures
            request.email@ == email@,
            request.is_fresh(),
    {
        let id = new_random_uuid();
        let code = new_random_uuid();
        let hashed_code = uuid_text(code);
        assert(is_random_uuid(code) && hashed_code@ == hyphenated_uuid(code));
        ValidationRequest { id, email, hashed_code }
    }
}

} // verus!
