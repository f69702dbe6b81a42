use vstd::prelude::*;

verus! {

/// Decides which e-mail addresses may ask for a registration code.
pub trait MailAddressValidationService: Send + Sync {
    /// The addresses (as characters) that this service accepts.
    spec fn accepts(&self, email: Seq<char>) -> bool;

    fn is_valid(&self, email: &str) -> (valid: bool)
        ensures
            valid == self.accepts(email@),
    ;
}

} // verus!
