//! Decisions taken when rays are generated and transformed: which kind of
//! camera ray a render pass constructs, and what a refraction attempt at a
//! transparent surface resolves to.

use vstd::prelude::*;

verus! {

/// Which kind of camera ray a render pass constructs for each sample.
#[derive(Clone, Copy, Debug, PartialEq, Eq, Structural)]
pub enum RayKind {
    /// Plain ray through the pixel's image-plane location.
    Basic,
    /// Ray with a Gaussian jitter of the pixel offset, for anti-aliasing.
    AntiAliased,
    /// Anti-aliased ray with the origin perturbed in the aperture disk, for
    /// depth of field.
    DepthOfField,
}

/// Which kind of camera ray to construct: jittered rays are worthwhile only
/// when more than one sample per pixel is averaged, and depth of field takes
/// precedence over plain anti-aliasing.
pub open spec fn ray_kind_spec(nb_rays: usize, dof: bool, aa: bool) -> RayKind {
    if nb_rays > 1 && dof {
        RayKind::DepthOfField
    } else if nb_rays > 1 && aa {
        RayKind::AntiAliased
    } else {
        RayKind::Basic
    }
}

/// Kind of camera ray for a render pass with `nb_rays` samples per pixel and
/// the given feature toggles.
pub fn ray_kind(nb_rays: usize, dof: bool, aa: bool) -> (r: RayKind)
    ensures
        r == ray_kind_spec(nb_rays, dof, aa),
{
    if nb_rays > 1 && dof {
        RayKind::DepthOfField
    } else if nb_rays > 1 && aa {
        RayKind::AntiAliased
    } else {
        RayKind::Basic
    }
}

/// What a refraction attempt at a transparent surface resolves to.
#[derive(Clone, Copy, Debug, PartialEq, Eq, Structural)]
pub enum RefractionAction {
    /// A refracted ray is traced: it starts at the hit point nudged along
    /// the outward normal when the ray was leaving the object, and nudged
    /// against it when the ray was entering.
    Refract,
    /// No refracted ray: the surface behaves as a mirror, with the normal as
    /// it stands.
    MirrorFallback,
    /// No refracted ray, and the ray was leaving the object: the surface
    /// behaves as a mirror with the normal flipped inward.
    MirrorFallbackFlipped,
}

/// Resolution of a refraction attempt. `accepted` says the Fresnel draw
/// chose refraction over reflection (always true when Fresnel weighting is
/// off); `exiting` whether the ray was leaving the object (its direction and
/// the outward normal agree); `radical_nonneg` whether the Snell radicand
/// for the chosen pair of indices is non-negative. A refracted ray exists
/// exactly when the draw accepted it and there is no total internal
/// reflection; otherwise the surface falls back to mirror behaviour, with
/// the normal flipped when the ray was on the inside.
pub open spec fn refraction_action_spec(accepted: bool, exiting: bool, radical_nonneg: bool)
    -> RefractionAction {
    if accepted && radical_nonneg {
        RefractionAction::Refract
    } else if exiting {
        RefractionAction::MirrorFallbackFlipped
    } else {
        RefractionAction::MirrorFallback
    }
}

/// Resolution of one refraction attempt.
pub fn refraction_action(accepted: bool, exiting: bool, radical_nonneg: bool) -> (r:
    RefractionAction)
    ensures
        r == refraction_action_spec(accepted, exiting, radical_nonneg),
{
    if accepted && radical_nonneg {
        RefractionAction::Refract
    } else if exiting {
        RefractionAction::MirrorFallbackFlipped
    } else {
        RefractionAction::MirrorFallback
    }
}

} // verus!
