use vstd::prelude::*;

use bcrypt::BcryptError;

verus! {

#[verifier::external_type_specification]
#[verifier::external_body]
pub struct ExBcryptError(BcryptError);

/// A password could not be hashed (the system's randomness failed).
pub struct PasswordHashError;

/// A stored password hash that bcrypt cannot read.
pub struct MalformedPasswordHash;

/// The text (version 2b) of `bcrypt::hash_with_salt(password, cost, salt)`,
/// the bcrypt hash of `password` with `cost` rounds and the 16-byte `salt`.
pub uninterp spec fn bcrypt_hash_with_salt(password: Seq<char>, cost: u32, salt: Seq<u8>) -> Seq<char>;

/// What `bcrypt::verify(password, hash)` answers when it reads `hash`.
pub uninterp spec fn bcrypt_verifies(password: Seq<char>, hash: Seq<char>) -> bool;

/// Whether `hash` is the bcrypt hash of `password` with `cost` rounds and some 16-byte salt.
pub open spec fn is_bcrypt_hash_of(password: Seq<char>, cost: u32, hash: Seq<char>) -> bool {
    exists|salt: Seq<u8>| salt.len() == 16 && #[trigger] bcrypt_hash_with_salt(password, cost, salt) == hash
}

/// A character of the base64 alphabet that bcrypt writes salts and digests in.
pub open spec fn is_bcrypt_base64_char(c: char) -> bool {
    ||| c == '.'
    ||| c == '/'
    ||| 'A' <= c && c <= 'Z'
    ||| 'a' <= c && c <= 'z'
    ||| '0' <= c && c <= '9'
}

/// The decimal digit of `n`, for `0 <= n < 10`.
pub open spec fn decimal_digit(n: u32) -> char {
    (('0' as int) + n) as char
}

/// The modular crypt form of a bcrypt hash of version 2b with `cost` rounds:
/// `$2b$`, the cost in two digits, `$`, then 53 characters of salt and digest.
pub open spec fn is_bcrypt_hash(h: Seq<char>, cost: u32) -> bool {
    &&& h.len() == 60
    &&& h[0] == '$'
    &&& h[1] == '2'
    &&& h[2] == 'b'
    &&& h[3] == '$'
    &&& h[4] == decimal_digit(cost / 10)
    &&& h[5] == decimal_digit(cost % 10)
    &&& h[6] == '$'
    &&& forall|k: int| 7 <= k < 60 ==> is_bcrypt_base64_char(#[trigger] h[k])
}

/// Reads `bcrypt::DEFAULT_COST`, which the crate sets to 12.
#[verifier::external_body]
fn bcrypt_default_cost() -> (cost: u32)
    ensures
        cost == 12,
{
    bcrypt::DEFAULT_COST
}

/// Calls `bcrypt::hash` on `password` with `cost` rounds. It draws a random
/// 16-byte salt and hashes with it as `hash_with_salt` does, so the contract
/// claims that a hash is `bcrypt_hash_with_salt` of the password and the cost
/// for some 16-byte salt (which one is not claimed), that it comes in the
/// 60-character `$2b$` form that `HashParts::format` writes, and that a cost
/// outside 4..=31 is refused. It does not claim when the randomness fails.
#[verifier::external_body]
fn bcrypt_hash(password: &str, cost: u32) -> (r: Result<String, BcryptError>)
    ensures
        !(4 <= cost <= 31) ==> r is Err,
        r matches Ok(h) ==> is_bcrypt_hash(h@, cost),
        r matches Ok(h) ==> exists|salt: Seq<u8>|
            salt.len() == 16 && #[trigger] bcrypt_hash_with_salt(password@, cost, salt) == h@,
{
    bcrypt::hash(password, cost)
}

/// Calls `bcrypt::verify(password, hash)`. Its answer is a function of its
/// arguments, named `bcrypt_verifies`. It reads the cost and the salt from
/// `hash` and hashes `password` with them again, so for a hash that
/// `hash_with_salt` wrote for `password` (cost in 4..=31, 16-byte salt) it
/// answers `Ok(true)`; for any hash that `hash_with_salt` wrote (of any
/// password) it answers `Ok`, as `split_hash` reads back what `format` wrote.
/// Which other texts it cannot read is not claimed.
#[verifier::external_body]
fn bcrypt_verify(password: &str, hash: &str) -> (r: Result<bool, BcryptError>)
    ensures
        r matches Ok(b) ==> b == bcrypt_verifies(password@, hash@),
        forall|cost: u32, salt: Seq<u8>|
            4 <= cost <= 31 && salt.len() == 16 && #[trigger] bcrypt_hash_with_salt(password@, cost, salt)
                == hash@ ==> r matches Ok(true),
        forall|other: Seq<char>, cost: u32, salt: Seq<u8>|
            4 <= cost <= 31 && salt.len() == 16 && #[trigger] bcrypt_hash_with_salt(other, cost, salt)
                == hash@ ==> r is Ok,
{
    bcrypt::verify(password, hash)
}

/// Hashes `password` with bcrypt at its default cost (12) and a random salt.
pub fn hash_password(password: &str) -> (r: Result<String, PasswordHashError>)
    ensures
        r matches Ok(h) ==> is_bcrypt_hash(h@, 12) && is_bcrypt_hash_of(password@, 12, h@),
{
    let cost = bcrypt_default_cost();
    match bcrypt_hash(password, cost) {
        Ok(h) => Ok(h),
        Err(_) => Err(PasswordHashError),
    }
}

/// Whether `password` matches the stored bcrypt `hash`: the answer of
/// `bcrypt::verify`, which is `true` for every hash that bcrypt made of
/// `password`; never `Err` for a hash that bcrypt made (of any password).
pub fn password_matches(password: &str, hash: &str) -> (r: Result<bool, MalformedPasswordHash>)
    ensures
        r matches Ok(b) ==> b == bcrypt_verifies(password@, hash@),
        (exists|cost: u32| 4 <= cost <= 31 && #[trigger] is_bcrypt_hash_of(password@, cost, hash@))
            ==> r matches Ok(true),
        (exists|other: Seq<char>, cost: u32|
            4 <= cost <= 31 && #[trigger] is_bcrypt_hash_of(other, cost, hash@)) ==> r is Ok,
{
    let checked = bcrypt_verify(password, hash);
    proof {
        if exists|other: Seq<char>, cost: u32|
            4 <= cost <= 31 && #[trigger] is_bcrypt_hash_of(other, cost, hash@) {
            let (other, cost) = choose|other: Seq<char>, cost: u32|
                4 <= cost <= 31 && #[trigger] is_bcrypt_hash_of(other, cost, hash@);
            let salt = choose|salt: Seq<u8>| salt.len() == 16 && #[trigger] bcrypt_hash_with_salt(other, cost, salt) == hash@;
            assert(bcrypt_hash_with_salt(other, cost, salt) == hash@);
        }
        if exists|cost: u32| 4 <= cost <= 31 && #[trigger] is_bcrypt_hash_of(password@, cost, hash@) {
            let cost = choose|cost: u32| 4 <= cost <= 31 && #[trigger] is_bcrypt_hash_of(password@, cost, hash@);
            let salt = choose|salt: Seq<u8>| salt.len() == 16 && #[trigger] bcrypt_hash_with_salt(password@, cost, salt) == hash@;
            assert(bcrypt_hash_with_salt(password@, cost, salt) == hash@);
        }
    }
    match checked {
        Ok(b) => Ok(b),
        Err(_) => Err(MalformedPasswordHash),
    }
}

} // verus!
