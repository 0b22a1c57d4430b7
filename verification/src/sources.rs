//! The three things this library takes from outside: the wall clock, fresh
//! identifiers and random draws. Their contracts are believed, not proved.

use vstd::prelude::*;

verus! {

/// Whether `id` carries the version and variant marks of a random
/// (version 4) UUID: the nibble at bits 76..79 is 4, bits 62..63 are `10`.
pub open spec fn is_random_uuid(id: u128) -> bool {
    (id >> 76) & 0xf == 4 && (id >> 62) & 0x3 == 2
}

/// `chrono::Utc::now`, read as whole milliseconds since the Unix epoch with
/// `DateTime::timestamp_millis`. The value is whatever the machine's clock
/// says, so nothing is claimed of it. The call fails only on a machine
/// whose clock stands before 1970.
#[verifier::external_body]
pub(crate) fn current_millis() -> (r: i64) {
    chrono::Utc::now().timestamp_millis()
}

/// `uuid::Uuid::new_v4`, packed into an integer with `Uuid::as_u128`. The
/// bits are random except for the version and variant marks, which
/// `new_v4` always sets; only those are claimed. The call fails only where
/// the operating system hands out no random bytes.
#[verifier::external_body]
pub(crate) fn random_id() -> (r: u128)
    ensures
        is_random_uuid(r),
{
    uuid::Uuid::new_v4().as_u128()
}

/// `rand::random::<u32>`: one draw from the thread-local generator, uniform
/// over all of `u32`. Any value may come back, so nothing is claimed. The
/// call fails only where the generator cannot be seeded.
#[verifier::external_body]
pub(crate) fn random_draw() -> (r: u32) {
    rand::random::<u32>()
}

} // verus!
