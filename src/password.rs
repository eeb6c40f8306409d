use vstd::prelude::*;

verus! {

/// Most characters of a password that can be hashed: the hasher takes at
/// most `u32::MAX` bytes, and a character is at most four bytes.
pub const PASSWORD_MAX_CHARS: usize = 0x3fff_ffff;

/// Whether `password` verifies against the stored password hash `hash`.
/// Verification reads the algorithm, its parameters and the salt out of the
/// hash itself, so the answer depends on the two strings alone.
pub uninterp spec fn hash_verifies(password: Seq<char>, hash: Seq<char>) -> bool;

/// Relies on `password_auth::generate_hash`: hashes the password with a
/// fresh random salt (Argon2 with default parameters), so two calls on one
/// password give different hashes; each of them verifies against that
/// password.  It panics only where Argon2 refuses a password of more than
/// `u32::MAX` bytes, which `requires` leaves out.
#[verifier::external_body]
pub(crate) fn generate_hash(password: &str) -> (r: String)
    requires
        password@.len() <= PASSWORD_MAX_CHARS,
    ensures
        hash_verifies(password@, r@),
{
    password_auth::generate_hash(password)
}

/// Relies on `password_auth::verify_password`: `Ok` exactly when the hash
/// parses and the password verifies against it.
#[verifier::external_body]
pub(crate) fn verify_password(password: &str, hash: &str) -> (r: bool)
    ensures
        r == hash_verifies(password@, hash@),
{
    password_auth::verify_password(password, hash).is_ok()
}

} // verus!
