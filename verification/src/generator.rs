use vstd::prelude::*;

verus! {

/// Relies on rand::random_range for a uniform draw below the bound;
/// nothing beyond the range is assumed of the value.
#[verifier::external_body]
fn random_below(bound: u32) -> (r: u32)
    requires
        bound > 0,
    ensures
        r < bound,
{
    rand::random_range(0..bound)
}

/// A six-digit one-time code: the clock's thirty-second tick folded with
/// a random draw. The caller hands in the clock reading, so the mixing
/// itself is verified to stay below one million.
pub fn generate_otp(now_seconds: u64) -> (r: u32)
    ensures
        r < 1000000,
{
    let tick = now_seconds / 30;
    let folded: u32 = (tick % 4294967296) as u32;
    let random_number = random_below(1000000);
    (folded ^ random_number) % 1000000
}

} // verus!
