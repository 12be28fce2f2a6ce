use vstd::prelude::*;

verus! {

/// Which faces of a primitive register a hit.
#[derive(Copy, Clone, Debug, PartialEq, Eq, Structural)]
pub enum MaterialSide {
    Front,
    Back,
    Both,
}

/// What a ray is cast for; shadow rays hit either face.
#[derive(Copy, Clone, Debug, PartialEq, Eq, Structural)]
pub enum RayKind {
    Primary,
    Shadow,
    Reflected,
}

/// Whether a ray sees both faces of what it meets: a shadow ray always does.
pub open spec fn sees_both_faces(side: MaterialSide, kind: RayKind) -> bool {
    side == MaterialSide::Both || kind == RayKind::Shadow
}

/// The distance a ray reports among the entry distance `t0` and the exit
/// distance `t1` of a closed primitive: the nearest one ahead when it sees both
/// faces, the entry for front faces, the exit for back faces.
pub open spec fn chosen_distance(side: MaterialSide, kind: RayKind, t0: int, t1: int) -> int {
    if sees_both_faces(side, kind) {
        if t0 < 0 {
            t1
        } else {
            t0
        }
    } else if side == MaterialSide::Front {
        t0
    } else {
        t1
    }
}

/// The hit distance of a closed primitive, if any: the chosen distance, unless
/// it lies behind the ray's origin or beyond `max_distance`.
pub open spec fn hit_distance(
    side: MaterialSide,
    kind: RayKind,
    t0: int,
    t1: int,
    max_distance: Option<int>,
) -> Option<int> {
    let d = chosen_distance(side, kind, t0, t1);
    if d < 0 || (max_distance is Some && max_distance->0 < d) {
        None
    } else {
        Some(d)
    }
}

/// An optional key read as an optional integer.
pub open spec fn opt_int(o: Option<i64>) -> Option<int> {
    match o {
        Some(k) => Some(k as int),
        None => None,
    }
}

/// Picks the distance that a ray reports for a sphere or a cube entered at
/// `t0` and left at `t1` (order keys).
pub fn select_distance(
    side: MaterialSide,
    kind: RayKind,
    t0: i64,
    t1: i64,
    max_distance: Option<i64>,
) -> (r: Option<i64>)
    ensures
        opt_int(r) == hit_distance(side, kind, t0 as int, t1 as int, opt_int(max_distance)),
{
    let both = match (side, kind) {
        (MaterialSide::Both, _) | (_, RayKind::Shadow) => true,
        _ => false,
    };
    let d = if both {
        if t0 < 0 {
            t1
        } else {
            t0
        }
    } else {
        match side {
            MaterialSide::Front => t0,
            _ => t1,
        }
    };
    let beyond = match max_distance {
        Some(m) => m < d,
        None => false,
    };
    if d < 0 || beyond {
        None
    } else {
        Some(d)
    }
}


/// The common part of the distance intervals `a` and `b`, unless they are
/// apart.
pub open spec fn overlap(a: (int, int), b: (int, int)) -> Option<(int, int)> {
    if b.1 < a.0 || a.1 < b.0 {
        None
    } else {
        Some((if b.0 > a.0 { b.0 } else { a.0 }, if a.1 > b.1 { b.1 } else { a.1 }))
    }
}

/// The interval of a ray inside a cube: the slabs of the three axes, narrowed
/// one after the other.
pub open spec fn slab_spec(x: (int, int), y: (int, int), z: (int, int)) -> Option<(int, int)> {
    match overlap(x, y) {
        Some(xy) => overlap(xy, z),
        None => None,
    }
}

/// A pair of keys read as a pair of integers.
pub open spec fn pair_int(p: (i64, i64)) -> (int, int) {
    (p.0 as int, p.1 as int)
}

/// Narrows the distances at which a ray enters and leaves the slab of each
/// axis of a cube to the interval where it is inside the cube, if there is one.
pub fn slab_interval(x: (i64, i64), y: (i64, i64), z: (i64, i64)) -> (r: Option<(i64, i64)>)
    ensures
        match r {
            Some(p) => slab_spec(pair_int(x), pair_int(y), pair_int(z)) == Some(pair_int(p)),
            None => slab_spec(pair_int(x), pair_int(y), pair_int(z)) is None,
        },
{
    let (d0, d1) = x;
    let (dy_min, dy_max) = y;
    if dy_max < d0 || d1 < dy_min {
        return None;
    }
    let d0 = if dy_min > d0 { dy_min } else { d0 };
    let d1 = if d1 > dy_max { dy_max } else { d1 };
    let (dz_min, dz_max) = z;
    if dz_max < d0 || d1 < dz_min {
        return None;
    }
    let d0 = if dz_min > d0 { dz_min } else { d0 };
    let d1 = if d1 > dz_max { dz_max } else { d1 };
    Some((d0, d1))
}

/// The larger of two integers.
pub open spec fn max_int(a: int, b: int) -> int {
    if a >= b { a } else { b }
}

/// The smaller of two integers.
pub open spec fn min_int(a: int, b: int) -> int {
    if a <= b { a } else { b }
}

/// The slab method is the intersection of the three slabs: where each axis
/// interval is ordered, a ray is inside the cube exactly from the latest entry
/// to the earliest exit, and misses it when the latest entry comes after the
/// earliest exit.
pub proof fn lemma_slab_is_intersection(x: (int, int), y: (int, int), z: (int, int))
    requires
        x.0 <= x.1,
        y.0 <= y.1,
        z.0 <= z.1,
    ensures
        ({
            let lo = max_int(max_int(x.0, y.0), z.0);
            let hi = min_int(min_int(x.1, y.1), z.1);
            &&& lo <= hi ==> slab_spec(x, y, z) == Some((lo, hi))
            &&& hi < lo ==> slab_spec(x, y, z) is None
        }),
{
}

/// Whether `d` is the distance of a hit among `hits`.
pub open spec fn is_hit_distance(hits: Seq<Option<i64>>, d: i64) -> bool {
    exists|i: int| 0 <= i < hits.len() && hits[i] == Some(d)
}

/// The nearest of the hits that the primitives of a scene report for one ray,
/// with its position: the first of them where several are equally near.
pub fn nearest_hit(hits: &Vec<Option<i64>>) -> (r: Option<(usize, i64)>)
    ensures
        match r {
            Some((i, d)) => {
                &&& i < hits@.len()
                &&& hits@[i as int] == Some(d)
                &&& forall|j: int|
                    0 <= j < hits@.len() && #[trigger] hits@[j] is Some ==> d <= hits@[j]->0
                &&& forall|j: int| 0 <= j < i && #[trigger] hits@[j] is Some ==> d < hits@[j]->0
            },
            None => forall|j: int| 0 <= j < hits@.len() ==> #[trigger] hits@[j] is None,
        },
{
    let mut best: Option<(usize, i64)> = None;
    let mut i: usize = 0;
    while i < hits.len()
        invariant
            i <= hits@.len(),
            match best {
                Some((b, d)) => {
                    &&& b < i
                    &&& hits@[b as int] == Some(d)
                    &&& forall|j: int| 0 <= j < i && #[trigger] hits@[j] is Some ==> d <= hits@[j]->0
                    &&& forall|j: int| 0 <= j < b && #[trigger] hits@[j] is Some ==> d < hits@[j]->0
                },
                None => forall|j: int| 0 <= j < i ==> #[trigger] hits@[j] is None,
            },
        decreases hits@.len() - i,
    {
        if let Some(d) = hits[i] {
            let closer = match best {
                Some((_, e)) => d < e,
                None => true,
            };
            if closer {
                best = Some((i, d));
            }
        }
        i = i + 1;
    }
    best
}

/// Whether a point light adds its diffuse term at a hit point: the surface
/// faces the light (`n_dot_l`, the key of `N·L`, is positive) and the shadow
/// ray toward it meets nothing nearer than the light.
pub open spec fn light_reaches_spec(n_dot_l: int, occluder: Option<int>, light_distance: int) -> bool {
    n_dot_l > 0 && (occluder is None || occluder->0 > light_distance)
}

/// Decides whether a point light lights a hit point, from the key of `N·L`,
/// the distance of the nearest occluder along the shadow ray if any, and the
/// distance of the light.
pub fn light_reaches(n_dot_l: i64, occluder: Option<i64>, light_distance: i64) -> (r: bool)
    ensures
        r == light_reaches_spec(n_dot_l as int, opt_int(occluder), light_distance as int),
{
    if n_dot_l > 0 {
        match occluder {
            None => true,
            Some(d) => d > light_distance,
        }
    } else {
        false
    }
}

/// An opaque primitive between a hit point and a point light takes that
/// light's diffuse term away, which the same point receives once the occluder
/// is removed, as long as it faces the light.
pub proof fn lemma_occluder_casts_shadow(n_dot_l: i64, occluder: i64, light_distance: i64)
    requires
        0 <= occluder < light_distance,
    ensures
        !light_reaches_spec(n_dot_l as int, Some(occluder as int), light_distance as int),
        n_dot_l > 0 ==> light_reaches_spec(n_dot_l as int, None, light_distance as int),
{
}

/// Whether a triangle test gives up on a ray before looking at barycentric
/// coordinates: the key `det` of the determinant is within `eps` of zero, or on
/// the side of the face the ray may not see.
pub open spec fn det_rejected_spec(side: MaterialSide, kind: RayKind, det: int, eps: int) -> bool {
    if sees_both_faces(side, kind) {
        (if det < 0 { -det } else { det }) < eps
    } else if side == MaterialSide::Front {
        det < eps
    } else {
        -det < eps
    }
}

/// Decides whether a triangle rejects a ray by the determinant of the
/// Möller–Trumbore test (all order keys).
pub fn det_rejected(side: MaterialSide, kind: RayKind, det: i64, eps: i64) -> (r: bool)
    requires
        det != i64::MIN,
    ensures
        r == det_rejected_spec(side, kind, det as int, eps as int),
{
    match (side, kind) {
        (MaterialSide::Both, _) | (_, RayKind::Shadow) => {
            let magnitude = if det < 0 { -det } else { det };
            magnitude < eps
        },
        (MaterialSide::Front, _) => det < eps,
        (MaterialSide::Back, _) => -det < eps,
    }
}

/// The hit distance of a ray on a plane, from the keys of the denominator
/// `(-n)·D`, of the threshold `eps`, and of the distance `(-(-n)·O) / denom`:
/// the ray must approach the front face by more than `eps`, and the plane must
/// not lie behind the ray's origin.
pub fn plane_distance(denom: i64, eps: i64, distance: i64) -> (r: Option<i64>)
    ensures
        r == (if denom > eps && distance >= 0 {
            Some(distance)
        } else {
            None
        }),
{
    if denom > eps && distance >= 0 {
        Some(distance)
    } else {
        None
    }
}

/// Whether barycentric coordinates `u`, `v` with sum `u_plus_v` name a point of
/// the triangle, given the key `one` of 1: `u` in `[0, 1]`, `v` not negative,
/// and `u + v` at most 1.
pub fn barycentric_inside(u: i64, v: i64, u_plus_v: i64, one: i64) -> (r: bool)
    ensures
        r == (0 <= u && u <= one && 0 <= v && u_plus_v <= one),
{
    if u < 0 || one < u {
        return false;
    }
    !(v < 0 || one < u_plus_v)
}

} // verus!
