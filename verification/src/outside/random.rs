//! Random bytes, by the `getrandom` crate, and their hexadecimal form, by the
//! `hex` crate.
use crate::text::digit_char;
use vstd::prelude::*;

verus! {

#[verifier::external_type_specification]
#[verifier::external_body]
pub struct ExRandomError(getrandom::Error);

/// The lowercase hexadecimal form of `bytes`: two digits for each byte, the
/// high one first.
pub open spec fn hex_digits(bytes: Seq<u8>) -> Seq<char> {
    Seq::new(
        2 * bytes.len(),
        |i: int|
            if i % 2 == 0 {
                digit_char((bytes[i / 2] / 16) as nat)
            } else {
                digit_char((bytes[i / 2] % 16) as nat)
            },
    )
}

/// `getrandom::fill` on a buffer of `length` bytes.
///
/// Which bytes come out is up to the operating system, and so is whether the
/// call succeeds; where it does, the buffer has the length asked for.
#[verifier::external_body]
pub(crate) fn random_bytes(length: usize) -> (r: Result<Vec<u8>, getrandom::Error>)
    ensures
        r matches Ok(bytes) ==> bytes@.len() == length,
{
    let mut bytes = vec![0u8; length];
    getrandom::fill(&mut bytes)?;
    Ok(bytes)
}

/// These are bytes that a call of [`random_bytes`] returned, when asked for so many.
pub open(crate) spec fn system_gave(length: usize, bytes: Seq<u8>) -> bool {
    exists|given: Vec<u8>|
        given@ == bytes && #[trigger] call_ensures(random_bytes, (length,), Ok(given))
}

/// A call of [`random_bytes`] that asked for so many bytes failed.
pub open(crate) spec fn system_failed(length: usize) -> bool {
    exists|e: getrandom::Error| #[trigger] call_ensures(random_bytes, (length,), Err(e))
}

/// `hex::encode`, whose result is the lowercase hexadecimal form of the bytes.
#[verifier::external_body]
pub(crate) fn hex_encode(bytes: &[u8]) -> (r: String)
    ensures
        r@ == hex_digits(bytes@),
{
    hex::encode(bytes)
}

} // verus!
