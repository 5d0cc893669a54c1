//! UUIDs, by the `uuid` crate, as their 128-bit values.
use crate::text::digit_char;
use vstd::arithmetic::power::pow;
use vstd::prelude::*;

verus! {

#[verifier::external_type_specification]
#[verifier::external_body]
pub struct ExUuidError(uuid::Error);

/// The hexadecimal digit of `id` at `place`, counted from the most significant.
pub open spec fn uuid_digit(id: u128, place: int) -> char {
    digit_char(((id as int / pow(16, (31 - place) as nat)) % 16) as nat)
}

/// The hyphenated form of `id`: 32 lowercase hexadecimal digits in groups of
/// 8, 4, 4, 4 and 12.
pub open spec fn uuid_text(id: u128) -> Seq<char> {
    Seq::new(
        36,
        |i: int|
            if i < 8 {
                uuid_digit(id, i)
            } else if i == 8 || i == 13 || i == 18 || i == 23 {
                '-'
            } else if i < 13 {
                uuid_digit(id, i - 1)
            } else if i < 18 {
                uuid_digit(id, i - 2)
            } else if i < 23 {
                uuid_digit(id, i - 3)
            } else {
                uuid_digit(id, i - 4)
            },
    )
}

/// The UUID that a text denotes in any of the forms that are read; `None`
/// where it denotes none.
pub uninterp spec fn uuid_value(text: Seq<char>) -> Option<u128>;

/// `uuid::Uuid::hyphenated` on the UUID of value `id`, as text, which
/// `uuid::Uuid::parse_str` reads back as the same UUID.
#[verifier::external_body]
pub(crate) fn uuid_hyphenated(id: u128) -> (r: String)
    ensures
        r@ == uuid_text(id),
        uuid_value(r@) == Some(id),
{
    uuid::Uuid::from_u128(id).hyphenated().to_string()
}

/// `uuid::Uuid::parse_str`. The result depends on the text alone.
#[verifier::external_body]
pub(crate) fn uuid_parse(text: &str) -> (r: Result<u128, uuid::Error>)
    ensures
        match r {
            Ok(id) => uuid_value(text@) == Some(id),
            Err(_) => uuid_value(text@) is None,
        },
{
    uuid::Uuid::parse_str(text).map(|id| id.as_u128())
}

/// A UUID of version 7 and of the RFC variant.
pub open spec fn is_version_7(id: u128) -> bool {
    &&& (id >> 76u128) & 0xf == 7
    &&& (id >> 62u128) & 0x3 == 2
}

/// `uuid::Uuid::now_v7`, which draws on the clock and on chance. Whatever they
/// give, the UUID is of version 7. The call panics where the clock is before the
/// Unix epoch or the system has no random bytes, which no argument can exclude.
#[verifier::external_body]
pub(crate) fn uuid_now_v7() -> (r: u128)
    ensures
        is_version_7(r),
{
    uuid::Uuid::now_v7().as_u128()
}

/// `id` is one that a call of [`uuid_now_v7`] returned.
pub open(crate) spec fn id_drawn(id: u128) -> bool {
    call_ensures(uuid_now_v7, (), id)
}

} // verus!
