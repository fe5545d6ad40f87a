use vstd::prelude::*;

verus! {

/// What the scene did with a ray that still had bounces left.
#[derive(Debug, PartialEq, Eq)]
pub enum Interaction<S> {
    /// No surface was hit.
    Miss,
    /// A surface was hit and its material absorbed the ray.
    Absorbed,
    /// A surface was hit and its material scattered the ray; `S` carries the
    /// attenuation and the scattered ray.
    Scattered(S),
}

/// How the integrator colors a ray.
#[derive(Debug, PartialEq, Eq)]
pub enum Shading<S> {
    /// Zero radiance.
    Black,
    /// The background gradient of the ray's direction.
    Sky,
    /// The attenuation times the color of the scattered ray, traced with
    /// `depth` bounces left.
    Bounce { scattered: S, depth: u32 },
}

/// The shading owed to a ray with `depth` bounces left, given what the scene
/// did with it (only consulted when `depth` is positive).
pub open spec fn shading_of<S>(depth: u32, interaction: Interaction<S>) -> Shading<S> {
    if depth == 0 {
        Shading::Black
    } else {
        match interaction {
            Interaction::Miss => Shading::Sky,
            Interaction::Absorbed => Shading::Black,
            Interaction::Scattered(s) => Shading::Bounce { scattered: s, depth: (depth - 1) as u32 },
        }
    }
}

/// One step of the light-transport integrator. With no bounces left the ray
/// is black and the scene is not queried; otherwise `query` intersects the
/// scene and scatters at the hit, once: a miss shows the sky, an absorbing
/// hit is black, and a scattering hit continues with one bounce fewer.
pub fn shade<S, F: FnOnce() -> Interaction<S>>(depth: u32, query: F) -> (r: Shading<S>)
    requires
        depth > 0 ==> call_requires(query, ()),
    ensures
        depth == 0 ==> r == Shading::<S>::Black,
        depth > 0 ==> exists|i: Interaction<S>|
            call_ensures(query, (), i) && r == #[trigger] shading_of(depth, i),
{
    if depth == 0 {
        return Shading::Black;
    }
    let interaction = query();
    let ghost seen = interaction;
    let r = match interaction {
        Interaction::Miss => Shading::Sky,
        Interaction::Absorbed => Shading::Black,
        Interaction::Scattered(s) => Shading::Bounce { scattered: s, depth: depth - 1 },
    };
    assert(r == shading_of(depth, seen));
    r
}

} // verus!
