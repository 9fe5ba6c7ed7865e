//! Challenge tokens: short random strings over the alphanumeric alphabet.

use rand::Rng;
use vstd::prelude::*;

verus! {

/// Length of every issued challenge token.
pub const TOKEN_LEN: usize = 7;

/// The 62-symbol token alphabet: ASCII `A`-`Z` (65-90), `a`-`z` (97-122),
/// `0`-`9` (48-57).
pub open spec fn is_alphanumeric_byte(b: u8) -> bool {
    (65 <= b && b <= 90) || (97 <= b && b <= 122) || (48 <= b && b <= 57)
}

/// A well-formed challenge token: exactly `TOKEN_LEN` bytes, each from the
/// alphanumeric alphabet.
pub open spec fn is_token(s: Seq<u8>) -> bool {
    &&& s.len() == TOKEN_LEN
    &&& forall|i: int| 0 <= i < s.len() ==> is_alphanumeric_byte(#[trigger] s[i])
}

/// Relies on `rand::distributions::Alphanumeric` with `thread_rng`: every
/// sampled byte is one of the 62 ASCII alphanumeric symbols. The outcome is
/// random, so nothing beyond the length and the alphabet is stated.
#[verifier::external_body]
fn sample_alphanumeric_bytes(n: usize) -> (r: Vec<u8>)
    ensures
        r@.len() == n,
        forall|i: int| 0 <= i < r@.len() ==> is_alphanumeric_byte(#[trigger] r@[i]),
{
    rand::thread_rng().sample_iter(&rand::distributions::Alphanumeric).take(n).collect()
}

/// Draws a fresh challenge token from a statistically uniform source.
pub fn fresh_token() -> (t: Vec<u8>)
    ensures
        is_token(t@),
{
    sample_alphanumeric_bytes(TOKEN_LEN)
}

} // verus!
