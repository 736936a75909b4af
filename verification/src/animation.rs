//! The animation clock: the shape turns at a fixed rate, and the angle
//! wraps after every full turn. The wrap-around lives here; turning the
//! phase into radians is the renderer's numeric conversion.

use vstd::prelude::*;

verus! {

/// Milliseconds per full turn of the shape: a tenth of a rotation per
/// second, so one turn every ten seconds.
pub const MILLIS_PER_TURN: u64 = 10000;

/// Where within the current turn an elapsed time falls, in milliseconds.
/// The animation angle is this fraction of a full turn.
pub fn rotation_phase(elapsed_ms: u64) -> (phase: u64)
    ensures
        phase == elapsed_ms % MILLIS_PER_TURN,
        phase < MILLIS_PER_TURN,
{
    elapsed_ms % MILLIS_PER_TURN
}

} // verus!
