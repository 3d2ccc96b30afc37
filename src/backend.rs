//! The calls into the bcrypt crate, each behind a contract that states what
//! bcrypt's own source shows of it.
use vstd::prelude::*;
use crate::format::{cost_of, valid_work_factor, well_formed};

verus! {

/// bcrypt's error type, carried through opaquely and mapped by the callers.
#[verifier::external_type_specification]
#[verifier::external_body]
pub struct ExBcryptError(bcrypt::BcryptError);

/// What `bcrypt::verify` answers for a password and a stored credential:
/// `Some(b)` where it returns `Ok(b)`, `None` where it returns an error.
/// It depends on its two arguments alone: the salt and the work factor are
/// read out of the credential, and the digest is recomputed from them.
pub uninterp spec fn bcrypt_verdict(password: Seq<char>, credential: Seq<char>) -> Option<bool>;

/// Relies on `bcrypt::hash`: it draws a fresh 16-byte salt from the system's
/// random source (failing with `BcryptError::Rand` if that fails), and on success
/// writes `$2b$`, the cost as two digits, `$`, and the base-64 salt and digest
/// (22 and 31 characters of bcrypt's alphabet). `bcrypt::verify` on that string
/// parses back the same cost and salt and recomputes the same digest for the
/// same password, so it answers `Ok(true)`.
#[verifier::external_body]
pub(crate) fn bcrypt_hash(password: &str, cost: u32) -> (r: Result<String, bcrypt::BcryptError>)
    requires
        valid_work_factor(cost as int),
    ensures
        r is Ok ==> well_formed(r->Ok_0@),
        r is Ok ==> r->Ok_0@[2] == 'b',
        r is Ok ==> cost_of(r->Ok_0@) == cost,
        r is Ok ==> bcrypt_verdict(password@, r->Ok_0@) == Some(true),
{
    bcrypt::hash(password, cost)
}

/// Relies on `bcrypt::verify`: it parses the cost and salt out of `credential`,
/// recomputes the digest of `password`, and compares the two in constant time.
#[verifier::external_body]
pub(crate) fn bcrypt_verify(password: &str, credential: &str) -> (r: Result<
    bool,
    bcrypt::BcryptError,
>)
    ensures
        r is Ok ==> bcrypt_verdict(password@, credential@) == Some(r->Ok_0),
        r is Err ==> bcrypt_verdict(password@, credential@) is None,
{
    bcrypt::verify(password, credential)
}

} // verus!
