//! The ids by which commands and their replies find each other.

use vstd::prelude::*;

verus! {

/// Whether the 128 bits of `id` have the shape of a random (version 4) UUID: the version field
/// holds four and the two variant bits are one and zero.
pub open spec fn is_random_uuid(id: u128) -> bool {
    &&& (id >> 76) & 0xf == 4
    &&& (id >> 62) & 0x3 == 2
}

/// Of the 32 hexadecimal digits of a random UUID the thirteenth is 4, and the seventeenth is 8, 9,
/// a or b.
pub proof fn random_uuid_by_its_digits(id: u128)
    ensures
        is_random_uuid(id) == ((id / 0x1000_0000_0000_0000_0000) % 0x10 == 4 && 8 <= (id
            / 0x1000_0000_0000_0000) % 0x10 <= 0xb),
{
    assert(((id >> 76) & 0xf == 4) == ((id / 0x1000_0000_0000_0000_0000) % 0x10 == 4))
        by (bit_vector);
    assert(((id >> 62) & 0x3 == 2) == (8 <= (id / 0x1000_0000_0000_0000) % 0x10 && (id
        / 0x1000_0000_0000_0000) % 0x10 <= 0xb)) by (bit_vector);
}

/// `uuid::Uuid::new_v4`, as the 128-bit number of its bytes: a random UUID. Nothing but its
/// shape holds of every outcome; in particular two calls may, however unlikely, agree. The call
/// panics where the operating system has no random bytes to give.
#[verifier::external_body]
pub(crate) fn random_id() -> (id: u128)
    ensures
        is_random_uuid(id),
{
    uuid::Uuid::new_v4().as_u128()
}

} // verus!
