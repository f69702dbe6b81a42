use vstd::prelude::*;

verus! {

/// A service call that did not complete (a database or mail error).
pub struct ServiceFailure;

} // verus!
