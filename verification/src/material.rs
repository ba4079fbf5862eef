//! The behaviour flags of a material. A material's numeric fields (colors,
//! index of refraction, emissivity, Phong exponent) are floating point and
//! stay outside the verified core; the flags decide which radiance terms the
//! estimator evaluates, and they are not mutually exclusive: every active
//! behaviour contributes additively.

use vstd::prelude::*;

verus! {

/// Which behaviours of a material are active.
#[derive(Clone, Copy, Debug, PartialEq, Eq, Structural)]
pub struct MaterialFlags {
    /// The surface reflects specularly.
    pub mirror: bool,
    /// The surface refracts light through the object.
    pub transparent: bool,
    /// The surface emits light.
    pub emissive: bool,
    /// The surface has a glossy Phong component.
    pub phong: bool,
}

impl MaterialFlags {
    /// Flags of a pure mirror material.
    pub fn mirror_only() -> (r: MaterialFlags)
        ensures
            r == (MaterialFlags { mirror: true, transparent: false, emissive: false, phong: false }),
    {
        MaterialFlags { mirror: true, transparent: false, emissive: false, phong: false }
    }

    /// Flags of a pure transparent material.
    pub fn transparent_only() -> (r: MaterialFlags)
        ensures
            r == (MaterialFlags { mirror: false, transparent: true, emissive: false, phong: false }),
    {
        MaterialFlags { mirror: false, transparent: true, emissive: false, phong: false }
    }

    /// Flags of a pure emissive material.
    pub fn emissive_only() -> (r: MaterialFlags)
        ensures
            r == (MaterialFlags { mirror: false, transparent: false, emissive: true, phong: false }),
    {
        MaterialFlags { mirror: false, transparent: false, emissive: true, phong: false }
    }

    /// Flags of a plain diffuse material: no special behaviour is active.
    pub fn diffuse() -> (r: MaterialFlags)
        ensures
            r == (MaterialFlags {
                mirror: false,
                transparent: false,
                emissive: false,
                phong: false,
            }),
    {
        MaterialFlags { mirror: false, transparent: false, emissive: false, phong: false }
    }

    /// Flags of a glossy material with a Phong component.
    pub fn phong_only() -> (r: MaterialFlags)
        ensures
            r == (MaterialFlags { mirror: false, transparent: false, emissive: false, phong: true }),
    {
        MaterialFlags { mirror: false, transparent: false, emissive: false, phong: true }
    }
}

} // verus!
