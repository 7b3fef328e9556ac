use vstd::prelude::*;

verus! {

/// Relies on uuid: `Uuid::new_v4` draws a random identifier from the system
/// RNG and its `simple` form is documented to be exactly 32 hexadecimal
/// characters. The value is random, so nothing beyond its shape is stated.
#[verifier::external_body]
fn random_hex_block() -> (r: String)
    ensures
        r@.len() == 32,
{
    uuid::Uuid::new_v4().simple().to_string()
}

/// A fresh random opaque string of exactly `length` characters, built from
/// cryptographically random blocks. Used for CSRF tokens, refresh tokens and
/// authorization codes.
pub fn generate_random_string(length: usize) -> (r: String)
    ensures
        r@.len() == length,
{
    let mut out = String::new();
    let mut have: usize = 0;
    while have < length
        invariant
            out@.len() == have,
            have <= length,
        decreases length - have,
    {
        let block = random_hex_block();
        let remaining = length - have;
        if remaining < 32 {
            let piece = block.as_str().substring_char(0, remaining);
            out.append(piece);
            have += remaining;
        } else {
            out.append(block.as_str());
            have += 32;
        }
    }
    out
}

} // verus!
