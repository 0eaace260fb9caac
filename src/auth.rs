//! Password digests and the rule that a password must be given.
use vstd::prelude::*;
use crate::error::{ErrorKind, StringError};

verus! {

/// The lowercase hex MD5 digest of a text's UTF-8 bytes.
pub uninterp spec fn md5_hex_of(s: Seq<char>) -> Seq<char>;

/// Relies on `md5::compute` and the `LowerHex` format of its `Digest`: two
/// lowercase hex digits for each of the 16 bytes, for the bytes of `s` alone.
#[verifier::external_body]
fn md5_hex(s: &str) -> (r: String)
    ensures
        r@ == md5_hex_of(s@),
        r@.len() == 32,
{
    format!("{:x}", md5::compute(s))
}

/// Whether a password may be stored: it must be given and non-empty.
pub open spec fn password_accepted(password: Option<String>) -> bool {
    password is Some && password->0@.len() > 0
}

/// The digest that is stored and compared in place of a plaintext password.
pub fn digest_password(password: &str) -> (r: String)
    ensures
        r@ == md5_hex_of(password@),
{
    md5_hex(password)
}

/// The digest to store for a new user's password; a missing or empty password
/// is refused as a validation failure, and nothing is hashed.
pub fn new_password_digest(password: &Option<String>) -> (r: Result<String, StringError>)
    ensures
        password_accepted(*password) <==> r is Ok,
        r is Ok ==> r->Ok_0@ == md5_hex_of(password->0@),
        r is Err ==> r->Err_0.kind == ErrorKind::Validation,
{
    match password {
        Some(p) => {
            if p.as_str().is_empty() {
                Err(StringError::new(ErrorKind::Validation, "Password should be non-empty"))
            } else {
                Ok(digest_password(p.as_str()))
            }
        },
        None => Err(StringError::new(ErrorKind::Validation, "Password should be non-empty")),
    }
}

} // verus!
