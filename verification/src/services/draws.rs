//! What an operation draws from the clock and from chance.
use crate::outside::clock::{now_utc, FIRST_INSTANT, LAST_INSTANT};
use crate::outside::random::random_bytes;
use vstd::prelude::*;

verus! {

use crate::outside::clock::clock_gave;
use crate::outside::random::{system_failed, system_gave};

/// What a step of an operation may draw on: the time, and random bytes where the
/// operating system gave them. The ids of new rows are drawn where the rows are
/// made: none is ever refused, and nothing hangs on which they are.
#[derive(Debug, Clone)]
pub struct Draws {
    /// The time, in nanoseconds from the Unix epoch.
    pub now: i128,
    /// The salt of a password hash.
    pub salt: Option<Vec<u8>>,
    /// The bytes of a refresh token.
    pub secret: Option<Vec<u8>>,
}

/// Draws as they come: a time that dates can have, 16 bytes of salt and 32 of
/// secret.
pub open spec fn drawn(d: Draws) -> bool {
    &&& FIRST_INSTANT <= d.now <= LAST_INSTANT
    &&& d.salt matches Some(salt) ==> salt@.len() == 16
    &&& d.secret matches Some(secret) ==> secret@.len() == 32
}

/// Draws that the machine gave: the time is the clock's, and the bytes are those
/// that the operating system gave when asked for so many. Bytes are missing only
/// where it failed to give them.
pub open spec fn given(d: Draws) -> bool {
    &&& clock_gave(d.now)
    &&& match d.salt {
        Some(salt) => system_gave(16, salt@),
        None => system_failed(16),
    }
    &&& match d.secret {
        Some(secret) => system_gave(32, secret@),
        None => system_failed(32),
    }
}

impl Draws {
    /// Draw anew.
    #[must_use]
    pub fn draw() -> (r: Self)
        ensures
            drawn(r),
            given(r),
    {
        let salt = match random_bytes(16) {
            Ok(bytes) => Some(bytes),
            Err(_) => None,
        };
        let secret = match random_bytes(32) {
            Ok(bytes) => Some(bytes),
            Err(_) => None,
        };
        Draws { now: now_utc(), salt, secret }
    }
}

} // verus!
