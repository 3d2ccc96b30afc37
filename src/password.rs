//! Deriving and checking password credentials.
use vstd::prelude::*;
use crate::backend::{bcrypt_hash, bcrypt_verdict, bcrypt_verify};
use crate::format::{
    cost_of, is_well_formed, valid_work_factor, well_formed, MAX_WORK_FACTOR, MIN_WORK_FACTOR,
};

verus! {

/// The work factor of `hash_password`: two above bcrypt's default of 12, to raise
/// the cost of brute force while keeping one hash well under a second.
pub const WORK_FACTOR: u32 = 14;

/// Why deriving or checking a credential failed.
#[derive(Debug, Clone, Copy, PartialEq, Eq, Structural)]
pub enum HashError {
    /// The work factor lies outside bcrypt's bounds.
    InvalidWorkFactor,
    /// The stored credential cannot be parsed or used.
    MalformedCredential,
    /// Deriving failed inside bcrypt (no randomness for the salt).
    EncodingFailure,
}

/// `c` is a credential that was derived from `password` at `work_factor`: it has
/// the published layout, carries that work factor, and bcrypt accepts the
/// password against it.
pub open spec fn issued(password: Seq<char>, work_factor: int, c: Seq<char>) -> bool {
    &&& well_formed(c)
    &&& cost_of(c) == work_factor
    &&& bcrypt_verdict(password, c) == Some(true)
}

/// What checking `password` against `credential` yields: a malformed credential
/// is an error; otherwise bcrypt's answer, where an error of bcrypt means the
/// credential is unusable.
pub open spec fn verify_outcome(password: Seq<char>, credential: Seq<char>) -> Result<bool, HashError> {
    if !well_formed(credential) {
        Err(HashError::MalformedCredential)
    } else {
        match bcrypt_verdict(password, credential) {
            Some(b) => Ok(b),
            None => Err(HashError::MalformedCredential),
        }
    }
}

/// Derives a fresh credential for `password` at `work_factor`, with a new random
/// salt on every call.
pub fn derive_credential(password: &str, work_factor: u32) -> (r: Result<String, HashError>)
    ensures
        r == Err::<String, HashError>(HashError::InvalidWorkFactor) <==> !valid_work_factor(
            work_factor as int,
        ),
        valid_work_factor(work_factor as int) ==> match r {
            Ok(c) => issued(password@, work_factor as int, c@) && c@[2] == 'b',
            Err(e) => e == HashError::EncodingFailure,
        },
{
    if work_factor < MIN_WORK_FACTOR || work_factor > MAX_WORK_FACTOR {
        return Err(HashError::InvalidWorkFactor);
    }
    match bcrypt_hash(password, work_factor) {
        Ok(c) => Ok(c),
        Err(_) => Err(HashError::EncodingFailure),
    }
}

/// Checks `password` against a stored `credential`. `Ok(false)` is a wrong
/// password; an error means the credential itself is unusable.
pub fn verify_credential(password: &str, credential: &str) -> (r: Result<bool, HashError>)
    ensures
        r == verify_outcome(password@, credential@),
{
    if !is_well_formed(credential) {
        return Err(HashError::MalformedCredential);
    }
    match bcrypt_verify(password, credential) {
        Ok(b) => Ok(b),
        Err(_) => Err(HashError::MalformedCredential),
    }
}

/// Derives a credential for `password` at the library's `WORK_FACTOR`.
pub fn hash_password(password: &str) -> (r: Result<String, HashError>)
    ensures
        match r {
            Ok(c) => issued(password@, WORK_FACTOR as int, c@) && c@[2] == 'b',
            Err(e) => e == HashError::EncodingFailure,
        },
{
    derive_credential(password, WORK_FACTOR)
}

/// Round trip: a credential derived from a password, at any work factor that
/// bcrypt accepts, verifies that same password as a match.
pub proof fn lemma_round_trip(password: Seq<char>, work_factor: int, credential: Seq<char>)
    requires
        valid_work_factor(work_factor),
        issued(password, work_factor, credential),
    ensures
        verify_outcome(password, credential) == Ok::<bool, HashError>(true),
{
}

/// Self-description: a derived credential carries, in its own text, the work
/// factor it was derived at, so checking it takes the password and the
/// credential alone.
pub proof fn lemma_self_describing(password: Seq<char>, work_factor: int, credential: Seq<char>)
    requires
        valid_work_factor(work_factor),
        issued(password, work_factor, credential),
    ensures
        well_formed(credential),
        cost_of(credential) == work_factor,
        verify_outcome(password, credential) is Ok,
{
}

/// Checks `password` against the stored credential `hash`.
pub fn verify_password(password: &str, hash: &str) -> (r: Result<bool, HashError>)
    ensures
        r == verify_outcome(password@, hash@),
{
    verify_credential(password, hash)
}

} // verus!
