use vstd::prelude::*;
use crate::models::User;

verus! {

/// What bcrypt computes for a candidate password and a stored hash string:
/// `None` when the stored string cannot be parsed as a bcrypt digest,
/// otherwise whether the candidate matches. The outcome is a function of
/// the two arguments alone.
pub uninterp spec fn bcrypt_check(password: Seq<char>, hash: Seq<char>) -> Option<bool>;

/// Relies on bcrypt::verify: it parses the stored hash, recomputes the
/// digest for the candidate with the parsed cost and salt, and compares;
/// it fails exactly when the stored hash does not parse.
#[verifier::external_body]
fn bcrypt_verify(password: &str, hash: &str) -> (r: Result<bool, ()>)
    ensures
        match r {
            Ok(b) => bcrypt_check(password@, hash@) == Some(b),
            Err(_) => bcrypt_check(password@, hash@) is None,
        },
{
    match bcrypt::verify(password, hash) {
        Ok(b) => Ok(b),
        Err(_) => Err(()),
    }
}

/// Relies on bcrypt::hash: it draws a fresh salt, so the result varies from
/// call to call; bcrypt documents that `verify` accepts the produced digest
/// for the hashed password. It fails only for a cost outside bcrypt's
/// accepted range or when no randomness is available.
#[verifier::external_body]
pub fn hash_password(password: &str, cost: u32) -> (r: Result<String, ()>)
    ensures
        r matches Ok(h) ==> bcrypt_check(password@, h@) == Some(true),
{
    match bcrypt::hash(password, cost) {
        Ok(h) => Ok(h),
        Err(_) => Err(()),
    }
}

/// The bcrypt work factor used when hashing a new password.
pub fn hash_cost() -> (r: u32)
    ensures
        r == 10,
{
    10
}

impl User {
    /// True exactly when bcrypt accepts `password` against the stored hash.
    /// A falsified or malformed stored hash yields `false`, never an error.
    pub fn verify_password(&self, password: &str) -> (r: bool)
        ensures
            r == (bcrypt_check(password@, self.password_hash@) == Some(true)),
    {
        match bcrypt_verify(password, self.password_hash.as_str()) {
            Ok(b) => b,
            Err(_) => false,
        }
    }
}

} // verus!
