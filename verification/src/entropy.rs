//! The randomness and buffer-wiping calls the shred engine relies on. Each
//! trusted declaration wraps exactly one outside function; nothing is
//! promised of a random value beyond what its documentation guarantees.

use vstd::prelude::*;

use rand::Rng;
use zeroize::Zeroize;

verus! {

/// Relies on `rand::Rng::gen_range` over a half-open range: it panics on an
/// empty range, and otherwise returns a value of the range.
#[verifier::external_body]
pub(crate) fn random_in_range(lo: u64, hi: u64) -> (r: u64)
    requires
        lo < hi,
    ensures
        lo <= r < hi,
{
    rand::thread_rng().gen_range(lo..hi)
}

/// Relies on `rand::random` for one byte; nothing is promised of the value.
#[verifier::external_body]
pub(crate) fn random_u8() -> (r: u8) {
    rand::random::<u8>()
}

/// Relies on `rand::Rng::sample_iter` with the `Alphanumeric` distribution,
/// which yields ASCII letters and digits: thirty of them make a fresh
/// random name.
#[verifier::external_body]
pub(crate) fn random_alnum_name() -> (r: String)
    ensures
        r@.len() == 30,
{
    rand::thread_rng().sample_iter(&rand::distributions::Alphanumeric).take(30).map(
        char::from,
    ).collect()
}

/// Relies on `zeroize::Zeroize` for `Vec<u8>`: the buffer's entire capacity
/// is zeroed and the vector is cleared.
#[verifier::external_body]
pub(crate) fn wipe(bytes: &mut Vec<u8>)
    ensures
        final(bytes)@.len() == 0,
{
    bytes.zeroize()
}

/// A buffer of `len` bytes drawn one by one from the random source.
pub(crate) fn random_bytes(len: u64) -> (r: Vec<u8>)
    requires
        len <= usize::MAX,
    ensures
        r@.len() == len,
{
    let mut v: Vec<u8> = Vec::new();
    let mut i: u64 = 0;
    while i < len
        invariant
            i <= len,
            len <= usize::MAX,
            v@.len() == i,
        decreases len - i,
    {
        v.push(random_u8());
        i = i + 1;
    }
    v
}

} // verus!
