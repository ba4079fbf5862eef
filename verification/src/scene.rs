//! Decisions of the scene-level radiance estimator: which candidate hit is
//! kept, whether a light is occluded, which radiance terms a bounce
//! evaluates, which kind of indirect sample is drawn, and which area light a
//! direct-lighting sample aims at.

use vstd::prelude::*;
use crate::material::MaterialFlags;

verus! {

/// Index of the closest candidate hit.
///
/// Each entry of `keys` is the squared distance of one object's hit from the
/// query ray's origin, encoded as an order-preserving integer key, or `None`
/// where the object was missed. The scan keeps a later hit that ties with the
/// current minimum, so among equal minima the largest index wins.
pub fn closest_hit(keys: &Vec<Option<u64>>) -> (r: Option<usize>)
    ensures
        match r {
            Some(i) => {
                &&& i < keys@.len()
                &&& keys@[i as int] is Some
                &&& forall|j: int|
                    0 <= j < keys@.len() && keys@[j] is Some ==> keys@[i as int]->0 <= keys@[j]->0
                &&& forall|j: int|
                    i < j < keys@.len() && keys@[j] is Some ==> keys@[i as int]->0 < keys@[j]->0
            },
            None => forall|j: int| 0 <= j < keys@.len() ==> keys@[j] is None,
        },
{
    let mut best: Option<usize> = None;
    let mut idx: usize = 0;
    while idx < keys.len()
        invariant
            idx <= keys@.len(),
            match best {
                Some(i) => {
                    &&& i < idx
                    &&& keys@[i as int] is Some
                    &&& forall|j: int|
                        0 <= j < idx && keys@[j] is Some ==> keys@[i as int]->0 <= keys@[j]->0
                    &&& forall|j: int|
                        i < j < idx && keys@[j] is Some ==> keys@[i as int]->0 < keys@[j]->0
                },
                None => forall|j: int| 0 <= j < idx ==> keys@[j] is None,
            },
        decreases keys@.len() - idx,
    {
        if let Some(k) = keys[idx] {
            let keep = match best {
                Some(i) => {
                    let b = keys[i].unwrap();
                    k <= b
                },
                None => true,
            };
            if keep {
                best = Some(idx);
            }
        }
        idx = idx + 1;
    }
    best
}

/// Whether some object stands between a point and a light.
///
/// Each entry of `keys` is the squared distance of one object's hit along the
/// shadow ray, encoded as an order-preserving integer key, or `None` where
/// the object was missed; `limit` is the squared distance of the light
/// itself, in the same encoding. The light is occluded exactly when some hit
/// lies at or inside that limit.
pub fn any_occludes(keys: &Vec<Option<u64>>, limit: u64) -> (r: bool)
    ensures
        r == exists|j: int| 0 <= j < keys@.len() && (#[trigger] keys@[j]) is Some
            && keys@[j]->0 <= limit,
{
    let mut occluded = false;
    let mut idx: usize = 0;
    while idx < keys.len()
        invariant
            idx <= keys@.len(),
            occluded == exists|j: int| 0 <= j < idx && (#[trigger] keys@[j]) is Some
                && keys@[j]->0 <= limit,
        decreases keys@.len() - idx,
    {
        if let Some(k) = keys[idx] {
            if k <= limit {
                occluded = true;
            }
        }
        idx = idx + 1;
    }
    occluded
}

/// Which area light a direct-lighting sample aims at.
///
/// Entry `i` of `reached` says whether the sampled cumulative weight falls
/// within light `i`'s share; the first light whose share is reached is the
/// one sampled. `None` means the draw reached no light's share, and the
/// direct term contributes nothing.
pub fn pick_light(reached: &Vec<bool>) -> (r: Option<usize>)
    ensures
        match r {
            Some(i) => {
                &&& i < reached@.len()
                &&& reached@[i as int]
                &&& forall|j: int| 0 <= j < i ==> !reached@[j]
            },
            None => forall|j: int| 0 <= j < reached@.len() ==> !reached@[j],
        },
{
    let mut idx: usize = 0;
    while idx < reached.len()
        invariant
            idx <= reached@.len(),
            forall|j: int| 0 <= j < idx ==> !reached@[j],
        decreases reached@.len() - idx,
    {
        if reached[idx] {
            return Some(idx);
        }
        idx = idx + 1;
    }
    None
}

/// The set of radiance terms one bounce of the estimator evaluates.
#[derive(Clone, Copy, Debug, PartialEq, Eq, Structural)]
pub struct TermMask {
    pub point_light: bool,
    pub mirror: bool,
    pub transparent: bool,
    pub emissive: bool,
    pub indirect: bool,
    pub direct: bool,
}

/// Which radiance terms are evaluated at a bounce: none once the bounce
/// budget is exhausted; otherwise the point-light, indirect and direct terms
/// always, and the mirror, transparent and emissive terms as the material
/// flags (and, for emission, the scene's visibility toggle) dictate.
pub open spec fn active_terms_spec(
    remaining_bounces: u64,
    flags: MaterialFlags,
    show_emissive: bool,
) -> TermMask {
    if remaining_bounces == 0 {
        TermMask {
            point_light: false,
            mirror: false,
            transparent: false,
            emissive: false,
            indirect: false,
            direct: false,
        }
    } else {
        TermMask {
            point_light: true,
            mirror: flags.mirror,
            transparent: flags.transparent,
            emissive: flags.emissive && show_emissive,
            indirect: true,
            direct: true,
        }
    }
}

/// Radiance terms to evaluate for one bounce.
pub fn active_terms(remaining_bounces: u64, flags: MaterialFlags, show_emissive: bool) -> (r:
    TermMask)
    ensures
        r == active_terms_spec(remaining_bounces, flags, show_emissive),
{
    if remaining_bounces == 0 {
        TermMask {
            point_light: false,
            mirror: false,
            transparent: false,
            emissive: false,
            indirect: false,
            direct: false,
        }
    } else {
        TermMask {
            point_light: true,
            mirror: flags.mirror,
            transparent: flags.transparent,
            emissive: flags.emissive && show_emissive,
            indirect: true,
            direct: true,
        }
    }
}

/// Once the bounce budget reaches zero the estimator evaluates no term at
/// all, whatever the material and the scene: in particular the mirror term
/// contributes zero regardless of geometry.
pub proof fn lemma_no_term_at_zero_bounces(flags: MaterialFlags, show_emissive: bool)
    ensures
        !active_terms_spec(0, flags, show_emissive).mirror,
        active_terms_spec(0, flags, show_emissive) == (TermMask {
            point_light: false,
            mirror: false,
            transparent: false,
            emissive: false,
            indirect: false,
            direct: false,
        }),
{
}

/// The two kinds of indirect bounce.
#[derive(Clone, Copy, Debug, PartialEq, Eq, Structural)]
pub enum BounceKind {
    /// Cosine-weighted sample of the hemisphere around the surface normal.
    Diffuse,
    /// Sample of the Phong lobe around the mirror-reflected direction.
    PhongLobe,
}

/// Which kind of indirect bounce is drawn: a glossy surface takes the Phong
/// lobe on the upper half of the uniform draw and the diffuse bounce on the
/// lower half; a surface without a Phong component always bounces diffusely.
pub open spec fn bounce_kind_spec(phong: bool, draw_in_upper_half: bool) -> BounceKind {
    if phong && draw_in_upper_half {
        BounceKind::PhongLobe
    } else {
        BounceKind::Diffuse
    }
}

/// Kind of indirect bounce for one sample.
pub fn bounce_kind(phong: bool, draw_in_upper_half: bool) -> (r: BounceKind)
    ensures
        r == bounce_kind_spec(phong, draw_in_upper_half),
{
    if phong && draw_in_upper_half {
        BounceKind::PhongLobe
    } else {
        BounceKind::Diffuse
    }
}

} // verus!
