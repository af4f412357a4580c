//! The scattering laws of the three materials, as decisions.
//!
//! Each law first measures a few facts about the hit (on the geometric side)
//! and then decides how the ray goes on; the decisions are made here.
use vstd::prelude::*;

verus! {

/// The closed set of material kinds: diffuse, metallic and dielectric.
pub enum MaterialEnum<L, M, D> {
    Lambertian(L),
    Metal(M),
    Dielectric(D),
}

/// Which way a scattered ray leaves the hit point.
#[derive(Clone, Copy, Debug, PartialEq, Eq, Structural)]
pub enum Direction {
    /// Along the surface normal alone.
    Normal,
    /// Along the surface normal plus a random point of the unit ball.
    NormalPlusOffset,
    /// Along the mirror image of the incoming direction about the normal
    /// (for metal, moved by its fuzz).
    Reflected,
    /// Along the incoming direction bent by Snell's law.
    Refracted,
}

/// The facts a scattering law needs, measured at the hit.
#[derive(Clone, Copy, Debug, PartialEq, Eq, Structural)]
pub enum Measure {
    /// Lambertian: whether the normal plus the random offset is near zero.
    Diffuse { offset_near_zero: bool },
    /// Metal: whether the fuzzed reflection points away from the surface,
    /// that is, has a positive dot product with the normal.
    Specular { leaves_surface: bool },
    /// Dielectric: whether the ratio of indices times the sine of the
    /// incidence angle exceeds one, and whether a uniform draw fell below
    /// the Schlick reflectance.
    Refractive { total_internal: bool, draw_below_reflectance: bool },
}

pub open spec fn scatter_spec(m: Measure) -> Option<Direction> {
    match m {
        Measure::Diffuse { offset_near_zero } => Some(
            if offset_near_zero {
                Direction::Normal
            } else {
                Direction::NormalPlusOffset
            },
        ),
        Measure::Specular { leaves_surface } => if leaves_surface {
            Some(Direction::Reflected)
        } else {
            None
        },
        Measure::Refractive { total_internal, draw_below_reflectance } => Some(
            if total_internal || draw_below_reflectance {
                Direction::Reflected
            } else {
                Direction::Refracted
            },
        ),
    }
}

/// Decides how a ray scatters, or `None` when the surface absorbs it.
/// A diffuse surface always scatters, along the normal plus the offset
/// unless that sum is degenerate; a metal reflects only when the reflection
/// leaves the surface; glass reflects on total internal reflection or when
/// the draw says so, and refracts otherwise.
pub fn scatter_direction(m: Measure) -> (r: Option<Direction>)
    ensures
        r == scatter_spec(m),
{
    match m {
        Measure::Diffuse { offset_near_zero } => {
            if offset_near_zero {
                Some(Direction::Normal)
            } else {
                Some(Direction::NormalPlusOffset)
            }
        },
        Measure::Specular { leaves_surface } => {
            if leaves_surface {
                Some(Direction::Reflected)
            } else {
                None
            }
        },
        Measure::Refractive { total_internal, draw_below_reflectance } => {
            if total_internal || draw_below_reflectance {
                Some(Direction::Reflected)
            } else {
                Some(Direction::Refracted)
            }
        },
    }
}

/// Which ratio of refractive indices a ray crossing a dielectric uses.
#[derive(Clone, Copy, Debug, PartialEq, Eq, Structural)]
pub enum IndexRatio {
    /// One over the material's index: the ray enters the medium.
    Entering,
    /// The material's index itself: the ray leaves the medium.
    Leaving,
}

/// A ray that meets the front face of a dielectric enters it; one that meets
/// the back face leaves it.
pub fn index_ratio(front_face: bool) -> (r: IndexRatio)
    ensures
        r == (if front_face {
            IndexRatio::Entering
        } else {
            IndexRatio::Leaving
        }),
{
    if front_face {
        IndexRatio::Entering
    } else {
        IndexRatio::Leaving
    }
}

/// Only metal can absorb a ray: diffuse and dielectric surfaces always
/// scatter.
pub proof fn only_metal_absorbs(m: Measure)
    ensures
        scatter_spec(m) is None ==> m is Specular,
        m is Diffuse ==> (scatter_spec(m) matches Some(d) && (d == Direction::Normal
            || d == Direction::NormalPlusOffset)),
        m is Refractive ==> (scatter_spec(m) matches Some(d) && (d == Direction::Reflected
            || d == Direction::Refracted)),
{
}

} // verus!
