//! Closest-hit search over a scene of spheres.
//!
//! Ray parameters are handled here as order keys: `u64` values whose
//! unsigned order is the order of the real parameters they stand for. The
//! geometric side solves each sphere's quadratic and hands over the two
//! roots as keys; this module decides which root, and which primitive, a ray
//! hits first.
use vstd::prelude::*;

verus! {

/// The closed set of primitive kinds that a scene is made of.
pub enum Hittable<S> {
    Sphere(S),
}

/// The two roots of a ray–sphere quadratic, as order keys, nearer first.
#[derive(Clone, Copy, Debug, PartialEq, Eq, Structural)]
pub struct Roots {
    pub near: u64,
    pub far: u64,
}

pub open spec fn ordered(r: Roots) -> bool {
    r.near <= r.far
}

pub open spec fn within(k: u64, t_min: u64, t_max: u64) -> bool {
    t_min < k && k < t_max
}

/// The root at which a ray meets a primitive strictly between `t_min` and
/// `t_max` (the open interval `(t_min, t_max)`): the
/// nearer root when it lies in range, else the farther one when it does.
/// `None` stands for a ray that does not meet the primitive at all.
pub open spec fn root_in(roots: Option<Roots>, t_min: u64, t_max: u64) -> Option<u64> {
    match roots {
        None => None,
        Some(r) => if within(r.near, t_min, t_max) {
            Some(r.near)
        } else if within(r.far, t_min, t_max) {
            Some(r.far)
        } else {
            None
        },
    }
}

/// Chooses the parameter at which a ray hits a sphere with the given roots.
pub fn pick_root(roots: Option<Roots>, t_min: u64, t_max: u64) -> (r: Option<u64>)
    ensures
        r == root_in(roots, t_min, t_max),
{
    match roots {
        None => None,
        Some(r) => {
            if r.near <= t_min || r.near >= t_max {
                if r.far <= t_min || r.far >= t_max {
                    None
                } else {
                    Some(r.far)
                }
            } else {
                Some(r.near)
            }
        },
    }
}

/// The root chosen is the smallest root in range: when both roots lie in
/// range the nearer one is returned, the farther one only when the nearer
/// lies outside, and nothing only when neither lies inside.
pub proof fn nearest_root_wins(r: Roots, t_min: u64, t_max: u64)
    requires
        ordered(r),
    ensures
        root_in(Some(r), t_min, t_max) is Some <==> (within(r.near, t_min, t_max) || within(
            r.far,
            t_min,
            t_max,
        )),
        root_in(Some(r), t_min, t_max) matches Some(k) ==> {
            &&& within(k, t_min, t_max)
            &&& (k == r.near || k == r.far)
            &&& (within(r.near, t_min, t_max) ==> k == r.near)
            &&& k <= r.far
        },
{
}

/// Searching with a smaller upper bound finds the same root, or nothing when
/// that root lies beyond the bound.
proof fn root_in_narrowed(roots: Option<Roots>, t_min: u64, bound: u64, t_max: u64)
    requires
        roots matches Some(r) ==> ordered(r),
        bound <= t_max,
    ensures
        root_in(roots, t_min, bound) == (match root_in(roots, t_min, t_max) {
            Some(k) => if k < bound {
                Some(k)
            } else {
                None
            },
            None => None,
        }),
{
}

/// `found` is the nearest hit over the first `n` primitives: the first of
/// those whose root is smallest, with that root.
pub open spec fn nearest_among(
    scene: Seq<Option<Roots>>,
    n: int,
    t_min: u64,
    t_max: u64,
    found: Option<(usize, u64)>,
) -> bool {
    match found {
        None => forall|j: int| 0 <= j < n ==> root_in(#[trigger] scene[j], t_min, t_max) is None,
        Some((i, k)) => {
            &&& 0 <= i < n
            &&& root_in(scene[i as int], t_min, t_max) == Some(k)
            &&& forall|j: int|
                0 <= j < n && (#[trigger] root_in(scene[j], t_min, t_max)) is Some ==> k
                    <= root_in(scene[j], t_min, t_max)->0
            &&& forall|j: int|
                0 <= j < i && (#[trigger] root_in(scene[j], t_min, t_max)) is Some ==> k
                    < root_in(scene[j], t_min, t_max)->0
        },
    }
}

/// Finds the primitive that a ray hits first strictly between `t_min` and
/// `t_max`, with the parameter of the hit. Each entry of `scene` holds one
/// primitive's roots. The scan narrows the (open) upper bound to the closest
/// hit found so far; of several primitives hit at the same parameter the
/// first one is kept.
pub fn closest_hit(scene: &Vec<Option<Roots>>, t_min: u64, t_max: u64) -> (r: Option<(usize, u64)>)
    requires
        forall|j: int| 0 <= j < scene@.len() ==> (#[trigger] scene@[j] matches Some(r) ==> ordered(r)),
    ensures
        nearest_among(scene@, scene@.len() as int, t_min, t_max, r),
{
    let mut found: Option<(usize, u64)> = None;
    let mut bound: u64 = t_max;
    let n: usize = scene.len();
    for i in 0..n
        invariant
            n == scene@.len(),
            forall|j: int| 0 <= j < scene@.len() ==> (#[trigger] scene@[j] matches Some(r) ==> ordered(r)),
            nearest_among(scene@, i as int, t_min, t_max, found),
            bound <= t_max,
            found is None ==> bound == t_max,
            found matches Some((_, k)) ==> bound == k,
    {
        let roots = scene[i];
        proof {
            root_in_narrowed(roots, t_min, bound, t_max);
        }
        match pick_root(roots, t_min, bound) {
            Some(k) => {
                found = Some((i, k));
                bound = k;
            },
            None => {},
        }
    }
    found
}

} // verus!
