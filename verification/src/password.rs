//! Passwords and their stored hashes.
use vstd::prelude::*;
use vstd::string::*;

verus! {

/// Whether a password belongs to a bcrypt hash; `None` where the text is no bcrypt hash.
pub uninterp spec fn bcrypt_match(password: Seq<char>, hash: Seq<char>) -> Option<bool>;

/// The error of `bcrypt`.
#[verifier::external_type_specification]
#[verifier::external_body]
pub struct ExBcryptError(bcrypt::BcryptError);

/// Calls `bcrypt::verify`: its result depends on the two texts alone, and a hash that is not
/// sixty bytes long is an error.
#[verifier::external_body]
fn bcrypt_verify(password: &str, hash: &str) -> (verdict: Result<bool, bcrypt::BcryptError>)
    ensures
        match verdict {
            Ok(belongs) => bcrypt_match(password@, hash@) == Some(belongs),
            Err(_) => bcrypt_match(password@, hash@) is None,
        },
        vstd::utf8::encode_utf8(hash@).len() != 60 ==> verdict is Err,
{
    bcrypt::verify(password, hash)
}

/// Whether the password belongs to the hash. A text that is no hash belongs to no password.
pub fn password_belongs(password: &str, hash: &str) -> (belongs: bool)
    ensures
        belongs == (bcrypt_match(password@, hash@) == Some(true)),
        belongs ==> vstd::utf8::encode_utf8(hash@).len() == 60,
{
    match bcrypt_verify(password, hash) {
        Ok(belongs) => belongs,
        Err(_) => false,
    }
}

} // verus!
