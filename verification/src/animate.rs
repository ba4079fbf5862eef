//! The phase of a time-indexed animation. An animation interpolates a
//! translation and three axis rotations between a start and an end time; the
//! phase decides whether it is skipped, interpolated, or applied in full at
//! the evaluation time.

use vstd::prelude::*;

verus! {

/// Where one animation stands relative to the evaluation time.
#[derive(Clone, Copy, Debug, PartialEq, Eq, Structural)]
pub enum AnimationPhase {
    /// The animation does not alter the ray: the evaluation time lies before
    /// its start, or the animation is degenerate (its start lies after its
    /// end).
    Skipped,
    /// The animation applies scaled by the progress
    /// `(time - start_time) / (end_time - start_time)`.
    Interpolating,
    /// The evaluation time has reached or passed the end: the animation
    /// applies in full, with progress one.
    Saturated,
}

/// The phase of one animation. `started` says whether the evaluation time has
/// reached the animation's start (`start_time <= time`); `degenerate` whether
/// the animation's start lies strictly after its end
/// (`start_time > end_time`); `running` whether the evaluation time lies
/// strictly before the animation's end (`time < end_time`). A degenerate
/// animation is skipped whatever the time; otherwise the animation is skipped
/// before its start, interpolated while running, and saturated at one from
/// its end on.
pub open spec fn animation_phase_spec(started: bool, degenerate: bool, running: bool)
    -> AnimationPhase {
    if !started || degenerate {
        AnimationPhase::Skipped
    } else if running {
        AnimationPhase::Interpolating
    } else {
        AnimationPhase::Saturated
    }
}

/// Phase of one animation at the evaluation time.
pub fn animation_phase(started: bool, degenerate: bool, running: bool) -> (r: AnimationPhase)
    ensures
        r == animation_phase_spec(started, degenerate, running),
{
    if !started || degenerate {
        AnimationPhase::Skipped
    } else if running {
        AnimationPhase::Interpolating
    } else {
        AnimationPhase::Saturated
    }
}

/// A degenerate animation — one whose start time lies strictly after its end
/// time — is skipped at every evaluation time, so it never alters a ray.
pub proof fn lemma_degenerate_animation_skipped(started: bool, running: bool)
    ensures
        animation_phase_spec(started, true, running) is Skipped,
{
}

} // verus!
