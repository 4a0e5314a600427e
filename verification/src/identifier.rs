//! Where fresh account numbers come from.

use vstd::prelude::*;

verus! {

/// Whether `n`, read as the sixteen bytes of a UUID from the most significant
/// down, carries the marks of a random UUID: version 4 in the upper half of
/// the seventh byte, and the two bits `10` at the top of the ninth.
pub open spec fn is_random_identifier(n: u128) -> bool {
    n & 0x0000_0000_0000_f000_c000_0000_0000_0000u128
        == 0x0000_0000_0000_4000_8000_0000_0000_0000u128
}

/// A fresh account number: what `uuid::Uuid::new_v4` returns, as the 128-bit
/// value that `uuid::Uuid::as_u128` packs its bytes into.
///
/// Trusted, not proved: that the value carries the version and variant marks,
/// which `new_v4` sets on whatever the random source gave. Nothing is claimed
/// of the other bits, and nothing rules out that two calls agree. `new_v4`
/// panics where the operating system yields no random bytes.
#[verifier::external_body]
pub(crate) fn fresh_account_number() -> (n: u128)
    ensures
        is_random_identifier(n),
{
    uuid::Uuid::new_v4().as_u128()
}

} // verus!
