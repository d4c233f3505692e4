//! The pseudo-random generator, kept as its two state words.
//!
//! The generator itself is `oorandom::Rand32`. The machine stores the pair
//! that `Rand32::state` reports and rebuilds the generator from it for each
//! draw, so the whole machine state is plain data.

use vstd::prelude::*;

verus! {

/// The state pair of a generator freshly made from `seed`.
pub uninterp spec fn seeded_state(seed: u64) -> (u64, u64);

/// A draw from `lo..hi` by the generator in state `(state, inc)`: the number
/// drawn, then the state pair that the generator is left in.
pub uninterp spec fn range_draw(state: u64, inc: u64, lo: u32, hi: u32) -> (u32, u64, u64);

/// Calls `oorandom::Rand32::new` and reads the new generator's state pair
/// with `Rand32::state`. Trusted: the pair is a function of the seed alone.
#[verifier::external_body]
pub(crate) fn rand32_seed(seed: u64) -> (s: (u64, u64))
    ensures
        s == seeded_state(seed),
{
    oorandom::Rand32::new(seed).state()
}

/// Calls `oorandom::Rand32::rand_range` on the generator rebuilt from
/// `(state, inc)` with `Rand32::from_state`, and reads the state it is left
/// in. Trusted: the draw and the next state are functions of the arguments
/// alone, and the draw lies in `lo..hi`. The span `hi - lo` must divide 2^32:
/// for such a span the generator's rejection loop never runs, so the call
/// returns whatever the state is.
#[verifier::external_body]
pub(crate) fn rand32_range(state: u64, inc: u64, lo: u32, hi: u32) -> (r: (u32, u64, u64))
    requires
        lo < hi,
        0x1_0000_0000int % (hi - lo) == 0,
    ensures
        r == range_draw(state, inc, lo, hi),
        lo <= r.0 < hi,
{
    let mut rng = oorandom::Rand32::from_state((state, inc));
    let drawn = rng.rand_range(lo..hi);
    let next = rng.state();
    (drawn, next.0, next.1)
}

/// The byte that a draw leaves in a register under mask `kk`: its low byte,
/// masked.
pub open spec fn masked(drawn: u32, kk: u8) -> u8 {
    (drawn as u8) & kk
}

/// Masks the low byte of a draw with `kk`.
pub fn masked_byte(drawn: u32, kk: u8) -> (b: u8)
    ensures
        b == masked(drawn, kk),
{
    (#[verifier::truncate] (drawn as u8)) & kk
}

} // verus!
