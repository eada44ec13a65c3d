use vstd::prelude::*;

verus! {

/// Depth budget of the rays shot toward emitters: `max_depth` of such a ray.
pub const LIGHT_RAY_MAX_DEPTH: usize = 2;

/// Depth budget of the rays shot toward emitters: levels of recursion they have left.
pub const LIGHT_RAY_DEPTH: usize = 1;

/// What the scene did with a ray at one bounce.
#[derive(Debug, Clone, Copy, PartialEq, Eq, Structural)]
pub enum Interaction {
    /// The ray hit nothing and leaves the scene.
    Missed,
    /// The ray hit a surface whose material absorbed it.
    Absorbed,
    /// The ray hit an emitter: the attenuation that came back is final radiance.
    Emitted,
    /// The ray hit a surface and goes on as a new ray, attenuated.
    Scattered,
}

/// What the integrator does with a ray after one bounce.
#[derive(Debug, Clone, Copy, PartialEq, Eq, Structural)]
pub enum Step {
    /// The ray carries no light.
    Black,
    /// The ray's colour is the sky's (black when the scene has none).
    Background,
    /// The ray's colour is the emitter's attenuation, unchanged.
    Radiance,
    /// Trace the scattered ray with `depth` levels of recursion left and multiply its colour
    /// by the attenuation; when `gather_lights`, first add the averaged direct light from the
    /// emitters, each reached by a ray with the budget `LIGHT_RAY_MAX_DEPTH`,
    /// `LIGHT_RAY_DEPTH` that is traced with no emitters to sample, so that it gathers none
    /// itself.
    Continue { gather_lights: bool, depth: usize },
}

/// Whether a bounce with `depth` levels of recursion left, on a path allowed `max_depth`
/// of them, is one of the first two, where direct light from the emitters may be gathered.
pub open spec fn light_sampling_depth(depth: int, max_depth: int) -> bool {
    depth > max_depth - 2
}

/// The integrator's rule for one bounce.
///
/// `depth` is the number of levels of recursion left on a path allowed `max_depth` of them,
/// `lights` the number of emitters in the scene, and `light_draw` whether the random draw that
/// gates direct lighting came out in favour of it.
pub open spec fn step_of(
    depth: int,
    max_depth: int,
    lights: int,
    light_draw: bool,
    interaction: Interaction,
) -> Step {
    if depth == 0 {
        Step::Black
    } else {
        match interaction {
            Interaction::Missed => Step::Background,
            Interaction::Absorbed => Step::Black,
            Interaction::Emitted => Step::Radiance,
            Interaction::Scattered => Step::Continue {
                gather_lights: lights > 0 && light_draw && light_sampling_depth(depth, max_depth),
                depth: (depth - 1) as usize,
            },
        }
    }
}

/// Decides whether the bounce at `depth` (levels of recursion left) of a path allowed
/// `max_depth` of them may gather direct light from the emitters.
pub fn samples_lights_at(depth: usize, max_depth: usize) -> (r: bool)
    ensures
        r == light_sampling_depth(depth as int, max_depth as int),
{
    depth >= max_depth || max_depth - depth < 2
}

/// Decides what the integrator does after a ray met `interaction`, following `step_of`.
pub fn next_step(
    depth: usize,
    max_depth: usize,
    lights: usize,
    light_draw: bool,
    interaction: Interaction,
) -> (r: Step)
    ensures
        r == step_of(depth as int, max_depth as int, lights as int, light_draw, interaction),
{
    if depth == 0 {
        return Step::Black;
    }
    match interaction {
        Interaction::Missed => Step::Background,
        Interaction::Absorbed => Step::Black,
        Interaction::Emitted => Step::Radiance,
        Interaction::Scattered => Step::Continue {
            gather_lights: lights > 0 && light_draw && samples_lights_at(depth, max_depth),
            depth: depth - 1,
        },
    }
}

/// Every path ends: each step either stops or continues with strictly less depth left, so
/// a path allowed `max_depth` levels takes at most `max_depth` scattering steps.
pub proof fn lemma_step_shrinks_depth(
    depth: usize,
    max_depth: usize,
    lights: usize,
    light_draw: bool,
    interaction: Interaction,
)
    ensures
        match step_of(depth as int, max_depth as int, lights as int, light_draw, interaction) {
            Step::Continue { depth: next, .. } => next < depth,
            _ => true,
        },
{
}

} // verus!
