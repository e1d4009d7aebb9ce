//! One-way hashing of secrets and the check of a candidate against a stored hash.
//!
//! A secret is hashed with bcrypt under a fresh random salt, after the white space
//! around it is removed. A candidate is checked against a stored hash as it is.

use vstd::prelude::*;
use crate::persistence::StorageError;

verus! {

/// Whether a character is white space as `str::trim` and `char::is_whitespace` know
/// it: whether it has the Unicode property White_Space.
pub uninterp spec fn white_space(c: char) -> bool;

/// A text without the white space at its start.
pub open spec fn without_leading(s: Seq<char>) -> Seq<char>
    decreases s.len(),
{
    if s.len() > 0 && white_space(s[0]) {
        without_leading(s.drop_first())
    } else {
        s
    }
}

/// A text without the white space at its end.
pub open spec fn without_trailing(s: Seq<char>) -> Seq<char>
    decreases s.len(),
{
    if s.len() > 0 && white_space(s.last()) {
        without_trailing(s.drop_last())
    } else {
        s
    }
}

/// A text without the white space around it.
pub open spec fn trimmed(s: Seq<char>) -> Seq<char> {
    without_trailing(without_leading(s))
}

/// Whether a text has no white space around it: it is empty, or neither its first nor
/// its last character is white space.
pub open spec fn bare(s: Seq<char>) -> bool {
    s.len() == 0 || (!white_space(s[0]) && !white_space(s.last()))
}

/// What `bcrypt::verify` answers for a candidate and a stored hash, an error counted
/// as `None`.
pub uninterp spec fn bcrypt_verdict(candidate: Seq<char>, hash: Seq<char>) -> Option<bool>;

/// A hash accepts a candidate when bcrypt verifies the candidate against it, without
/// error.
pub open spec fn accepts(candidate: Seq<char>, hash: Seq<char>) -> bool {
    bcrypt_verdict(candidate, hash) == Some(true)
}

/// A hash is one of a cleartext when it accepts the cleartext without the white space
/// around it.
pub open spec fn hashes(cleartext: Seq<char>, hash: Seq<char>) -> bool {
    accepts(trimmed(cleartext), hash)
}

/// `bcrypt::BcryptError`: why bcrypt could not hash or verify. Nothing is claimed of a
/// value of it.
#[verifier::external_type_specification]
#[verifier::external_body]
pub struct ExBcryptError(bcrypt::BcryptError);

/// `str::trim`: the text without its leading and trailing white space, where white
/// space is what has the Unicode property White_Space. What is left neither starts nor
/// ends with white space.
#[verifier::external_body]
pub(crate) fn trim(s: &str) -> (r: &str)
    ensures
        r@ == trimmed(s@),
        r@.len() > 0 ==> !white_space(r@[0]) && !white_space(r@.last()),
{
    s.trim()
}

/// `bcrypt::DEFAULT_COST`: the cost that bcrypt proposes, which is 12.
#[verifier::external_body]
fn bcrypt_default_cost() -> (r: u32)
    ensures
        r == 12,
{
    bcrypt::DEFAULT_COST
}

/// `bcrypt::hash`: hashes under a fresh random salt. It fails when the cost is outside
/// 4..=31 or when the system yields no random bytes. A hash that it returns is one
/// that `bcrypt::verify` accepts for the same password.
#[verifier::external_body]
fn bcrypt_hash(password: &str, cost: u32) -> (r: Result<String, bcrypt::BcryptError>)
    ensures
        r matches Ok(hash) ==> accepts(password@, hash@) && 4 <= cost <= 31,
{
    bcrypt::hash(password, cost)
}

/// `bcrypt::verify`: recomputes the hash of the candidate under the salt and cost of
/// the stored hash and compares the two. The contract names the result.
#[verifier::external_body]
fn bcrypt_verify(candidate: &str, hash: &str) -> (r: Option<bool>)
    ensures
        r == bcrypt_verdict(candidate@, hash@),
{
    bcrypt::verify(candidate, hash).ok()
}

/// Reads what the hashing gave: the hash, or `HashingFault` where it failed.
pub fn hashed(outcome: Result<String, bcrypt::BcryptError>) -> (r: Result<String, StorageError>)
    ensures
        r == match outcome {
            Ok(hash) => Ok::<String, StorageError>(hash),
            Err(_) => Err(StorageError::HashingFault),
        },
{
    match outcome {
        Ok(hash) => Ok(hash),
        Err(_) => Err(StorageError::HashingFault),
    }
}

/// Reads what the verification gave: accepted only where it answered yes. A stored
/// hash that cannot be read accepts nothing.
pub fn accepted(verdict: Option<bool>) -> (r: bool)
    ensures
        r == (verdict == Some(true)),
{
    match verdict {
        Some(answer) => answer,
        None => false,
    }
}

/// Hashes a cleartext secret for storage, without the white space around it.
///
/// The salt is random: whether two hashes of one secret differ is left to chance, and
/// each of them accepts the secret. The only failure is `HashingFault`.
pub fn hash_secret(cleartext: &str) -> (r: Result<String, StorageError>)
    ensures
        r matches Ok(hash) ==> hashes(cleartext@, hash@),
        r matches Err(fault) ==> fault == StorageError::HashingFault,
{
    let secret = trim(cleartext);
    let cost = bcrypt_default_cost();
    hashed(bcrypt_hash(secret, cost))
}

/// Checks a candidate against a stored hash. A hash that cannot be read accepts
/// nothing: the answer is then `false`, never an error.
pub fn verify_secret(candidate: &str, stored_hash: &str) -> (r: bool)
    ensures
        r == accepts(candidate@, stored_hash@),
{
    accepted(bcrypt_verify(candidate, stored_hash))
}

/// What is left of a text without the white space around it has no white space around
/// it, and a text that has none is left as it is.
pub proof fn lemma_trimmed_is_bare(s: Seq<char>)
    ensures
        bare(trimmed(s)),
        bare(s) ==> trimmed(s) == s,
        trimmed(trimmed(s)) == trimmed(s),
{
    lemma_without_leading(s);
    lemma_without_trailing(without_leading(s));
}

proof fn lemma_without_leading(s: Seq<char>)
    ensures
        without_leading(s).len() > 0 ==> !white_space(without_leading(s)[0]),
    decreases s.len(),
{
    if s.len() > 0 && white_space(s[0]) {
        lemma_without_leading(s.drop_first());
    }
}

proof fn lemma_without_trailing(s: Seq<char>)
    ensures
        without_trailing(s).len() > 0 ==> !white_space(without_trailing(s).last()),
        without_trailing(s).len() > 0 ==> without_trailing(s)[0] == s[0],
    decreases s.len(),
{
    if s.len() > 0 && white_space(s.last()) {
        lemma_without_trailing(s.drop_last());
    }
}

/// A secret that was hashed verifies against its hash: every hash of a cleartext
/// accepts the cleartext without the white space around it, and so the cleartext
/// itself where it has no white space around it.
pub proof fn lemma_hashed_secret_verifies(cleartext: Seq<char>, hash: Seq<char>)
    requires
        hashes(cleartext, hash),
    ensures
        accepts(trimmed(cleartext), hash),
        bare(cleartext) ==> accepts(cleartext, hash),
{
}

} // verus!
