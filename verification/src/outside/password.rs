//! Argon2id password hashing, by the `argon2` crate.
use argon2::{PasswordHasher, PasswordVerifier};
use vstd::prelude::*;
use vstd::utf8::*;

verus! {

#[verifier::external_type_specification]
#[verifier::external_body]
pub struct ExPasswordHashError(argon2::password_hash::Error);

/// The PHC string of the Argon2id hash of a password under a salt, with the
/// default parameters; `None` where hashing fails.
pub uninterp spec fn argon2id_phc(password: Seq<char>, salt: Seq<u8>) -> Option<Seq<char>>;

/// Whether a password matches a PHC string; `None` where the string is none.
pub uninterp spec fn argon2id_check(password: Seq<char>, phc: Seq<char>) -> Option<bool>;

/// The longest password that Argon2 takes, in bytes.
pub open spec fn max_password_bytes() -> nat {
    0xffff_ffff
}

/// `argon2::PasswordHasher::hash_password` on `Argon2::default()`, with the
/// salt bytes encoded by `SaltString::encode_b64`.
///
/// The result depends on the password and the salt alone. Under a salt of a
/// usable length hashing fails only for a password beyond the length limit. The
/// string that comes out can be checked against any password, and verifies the
/// one that went in.
#[verifier::external_body]
pub(crate) fn argon2_hash(password: &str, salt: &[u8]) -> (r: Result<String, argon2::password_hash::Error>)
    requires
        8 <= salt@.len() <= 48,
    ensures
        match r {
            Ok(phc) => argon2id_phc(password@, salt@) == Some(phc@),
            Err(_) => argon2id_phc(password@, salt@) is None,
        },
        r is Ok <==> encode_utf8(password@).len() <= max_password_bytes(),
        r matches Ok(phc) ==> argon2id_check(password@, phc@) == Some(true),
        r matches Ok(phc) ==> forall|q: Seq<char>| (#[trigger] argon2id_check(q, phc@)) is Some,
{
    let salt = argon2::password_hash::SaltString::encode_b64(salt)?;
    let hash = argon2::Argon2::default().hash_password(password.as_bytes(), &salt)?;
    Ok(hash.to_string())
}

/// `argon2::PasswordVerifier::verify_password` on `Argon2::default()`, with the
/// string parsed by `argon2::PasswordHash::new`.
///
/// The result depends on the password and the string alone; an error means
/// that the string did not parse, as one that does not begin with `$` never does.
#[verifier::external_body]
pub(crate) fn argon2_verify(password: &str, phc: &str) -> (r: Result<bool, argon2::password_hash::Error>)
    ensures
        match r {
            Ok(matched) => argon2id_check(password@, phc@) == Some(matched),
            Err(_) => argon2id_check(password@, phc@) is None,
        },
        phc@.len() == 0 || phc@[0] != '$' ==> r is Err,
{
    let parsed = argon2::PasswordHash::new(phc)?;
    Ok(argon2::Argon2::default().verify_password(password.as_bytes(), &parsed).is_ok())
}

} // verus!
