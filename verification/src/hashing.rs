//! Password hashing: an opaque hash value, the hashing interface, and its
//! bcrypt-backed implementation.
//!
//! What bcrypt computes is not restated here; its verification outcome is
//! named by `verify_of`, and the one fact the library builds on is that a
//! freshly produced hash verifies against the password it was made from.

use vstd::prelude::*;

verus! {

/// What `bcrypt::verify` returns for a hash string and a password:
/// `Some(true)` when the password matches the hash, `Some(false)` when it
/// does not, `None` when the hash string is not a well-formed bcrypt
/// hash. The outcome depends on the two arguments alone.
pub uninterp spec fn verify_of(hash: Seq<char>, raw: Seq<char>) -> Option<bool>;

/// Relies on bcrypt::verify: it re-derives the hash from the password and
/// the salt embedded in the hash string and compares — a deterministic
/// function of the two arguments.
#[verifier::external_body]
fn bcrypt_verify(raw: &str, hash: &str) -> (r: Option<bool>)
    ensures
        r == verify_of(hash@, raw@),
{
    bcrypt::verify(raw, hash).ok()
}

/// Relies on bcrypt::hash: a produced hash string is exactly 60 ASCII
/// characters, and bcrypt::verify accepts it against the password it was
/// hashed from (the same salt and cost are embedded in the hash). Hashing
/// draws a random salt, so nothing beyond that is promised; `None` is the
/// rare failure to draw randomness.
#[verifier::external_body]
fn bcrypt_hash(raw: &str) -> (r: Option<String>)
    ensures
        r matches Some(h) ==> h@.len() == 60 && verify_of(h@, raw@) == Some(true),
{
    bcrypt::hash(raw, 10).ok()
}

/// An opaque password hash.
pub struct Hash(String);

impl Hash {
    /// The hash string this value carries.
    pub closed spec fn spec_str(&self) -> Seq<char> {
        self.0@
    }

    /// Wrap a stored hash string.
    pub fn from_string(s: String) -> (h: Hash)
        ensures
            h.spec_str() == s@,
    {
        Hash(s)
    }

    /// Unwrap into the string to store.
    pub fn to_string(self) -> (s: String)
        ensures
            s@ == self.spec_str(),
    {
        self.0
    }
}

/// The hashing interface the login service works against.
pub trait IHashManager {
    /// Hash a password; the produced hash verifies against that password.
    /// `None` only when the underlying randomness source fails.
    fn hash(&self, raw: String) -> (r: Option<Hash>)
        ensures
            r matches Some(h) ==> verify_of(h.spec_str(), raw@) == Some(true),
    ;

    /// Check a password against a hash: true exactly when they match.
    fn verify(&self, hash: Hash, raw: String) -> (r: bool)
        ensures
            r == (verify_of(hash.spec_str(), raw@) == Some(true)),
    ;
}

/// The bcrypt-backed hash manager.
#[derive(Clone)]
pub struct HashManager;

impl HashManager {
    pub fn new() -> (r: HashManager) {
        HashManager
    }
}

impl IHashManager for HashManager {
    fn hash(&self, raw: String) -> (r: Option<Hash>) {
        match bcrypt_hash(raw.as_str()) {
            Some(h) => Some(Hash::from_string(h)),
            None => None,
        }
    }

    fn verify(&self, hash: Hash, raw: String) -> (r: bool) {
        let h = hash.to_string();
        match bcrypt_verify(raw.as_str(), h.as_str()) {
            Some(true) => true,
            _ => false,
        }
    }
}

} // verus!
