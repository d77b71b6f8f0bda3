//! The randomness source: one seeded stream, shared by every recycle.

use vstd::prelude::*;
use bevy_turborand::GlobalRng;
use bevy_turborand::DelegatedRng;

verus! {

/// The generator of `bevy_turborand`, carried through as an opaque value.
#[verifier::external_type_specification]
#[verifier::external_body]
pub struct ExGlobalRng(bevy_turborand::GlobalRng);

/// Draws one integer from the closed range `lo ..= hi`.
///
/// Calls `DelegatedRng::i64` of `bevy_turborand` on the generator, which
/// hands the range to `TurboRand::i64` of `turborand`. That function panics
/// on an empty range, hence the `requires`, and returns `lo` plus an offset
/// below the width of the range. Nothing is claimed of which value comes.
#[verifier::external_body]
pub(crate) fn draw_between(rng: &mut GlobalRng, lo: i64, hi: i64) -> (drawn: i64)
    requires
        lo <= hi,
    ensures
        lo <= drawn <= hi,
{
    rng.i64(lo..=hi)
}

} // verus!
