use vstd::prelude::*;

use bcrypt::BcryptError;
use rand::Rng;

verus! {

/// `bcrypt::BcryptError`, the failure of a hash or a check; opaque here, it
/// is only told apart from success.
#[verifier::external_type_specification]
#[verifier::external_body]
pub struct ExBcryptError(BcryptError);

/// Whether `bcrypt::verify` finds that `password` matches `hash`.
pub uninterp spec fn bcrypt_accepts(password: Seq<char>, hash: Seq<char>) -> bool;

/// Relies on `bcrypt::verify`: it reads cost and salt from the hash and
/// hashes the password again; `Ok(true)` exactly when the two agree, which
/// depends on the two texts alone.
#[verifier::external_body]
pub(crate) fn check_password(password: &str, hash: &str) -> (r: Result<bool, BcryptError>)
    ensures
        bcrypt_accepts(password@, hash@) <==> (r is Ok && r->Ok_0),
{
    bcrypt::verify(password, hash)
}

/// Relies on `bcrypt::hash` at `bcrypt::DEFAULT_COST`: a hash under a fresh
/// random salt, in the format from which `bcrypt::verify` reads the cost and
/// salt back, so that it accepts the same password.
#[verifier::external_body]
pub(crate) fn hash_password(password: &str) -> (r: Result<String, BcryptError>)
    ensures
        r is Ok ==> bcrypt_accepts(password@, r->Ok_0@),
{
    bcrypt::hash(password, bcrypt::DEFAULT_COST)
}

/// Relies on `rand::thread_rng` and `Rng::gen`: a random number.
#[verifier::external_body]
pub(crate) fn random_u32() -> (r: u32) {
    rand::thread_rng().gen::<u32>()
}

/// Relies on `rand::thread_rng` and `Rng::gen` for `char`: a random Unicode
/// scalar value, returned as a text of that one character.
#[verifier::external_body]
pub(crate) fn random_char() -> (r: String)
    ensures
        r@.len() == 1,
{
    rand::thread_rng().gen::<char>().to_string()
}

/// Whether `password` matches a stored bcrypt hash; a hash that cannot be
/// read matches nothing.
pub fn password_matches(password: &str, hash: &str) -> (r: bool)
    ensures
        r == bcrypt_accepts(password@, hash@),
{
    match check_password(password, hash) {
        Ok(b) => b,
        Err(_) => false,
    }
}

} // verus!
