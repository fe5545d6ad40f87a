use vstd::prelude::*;

verus! {

/// The placeholder material of a hit record that no surface has filled in
/// yet; it absorbs every ray.
#[derive(Clone, Copy, Debug, PartialEq, Eq, Structural)]
pub struct Empty {}

impl Empty {
    /// The placeholder material.
    pub fn get() -> (r: Empty)
        ensures
            r == (Empty {}),
    {
        Empty {}
    }
}

/// How a dielectric sends a ray on from its surface.
#[derive(Clone, Copy, Debug, PartialEq, Eq, Structural)]
pub enum Bend {
    /// Mirror reflection about the normal.
    Reflect,
    /// Refraction through the boundary by Snell's law.
    Refract,
}

/// The direction rule of a dielectric: under total internal reflection the ray
/// is reflected; otherwise `prefers_reflection` is consulted once (it compares
/// Schlick's reflectance with a fresh uniform draw) and the ray is reflected
/// when it answers true and refracted otherwise.
pub fn bend<F: FnOnce() -> bool>(total_internal: bool, prefers_reflection: F) -> (r: Bend)
    requires
        !total_internal ==> call_requires(prefers_reflection, ()),
    ensures
        total_internal ==> r == Bend::Reflect,
        !total_internal ==> exists|b: bool|
            call_ensures(prefers_reflection, (), b) && #[trigger] bend_of(b) == r,
{
    if total_internal {
        return Bend::Reflect;
    }
    let reflect = prefers_reflection();
    let r = if reflect {
        Bend::Reflect
    } else {
        Bend::Refract
    };
    assert(bend_of(reflect) == r);
    r
}

/// The bend that a reflect-or-refract answer selects.
pub open spec fn bend_of(reflect: bool) -> Bend {
    if reflect {
        Bend::Reflect
    } else {
        Bend::Refract
    }
}

} // verus!
