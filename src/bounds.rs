use vstd::prelude::*;

verus! {

/// An axis-aligned box, its corners given by the order keys of their
/// coordinates.
#[derive(Copy, Clone, Debug)]
pub struct BoundingBox {
    pub min: [i64; 3],
    pub max: [i64; 3],
}

/// Whether `p` lies within `b` on every axis, faces included.
pub open spec fn contains(b: BoundingBox, p: [i64; 3]) -> bool {
    forall|a: int| 0 <= a < 3 ==> b.min[a] <= #[trigger] p[a] && p[a] <= b.max[a]
}

/// Whether one of the first `n` points has `v` as its coordinate on axis `a`.
pub open spec fn attained(points: Seq<[i64; 3]>, n: int, a: int, v: i64) -> bool {
    exists|i: int| 0 <= i < n && #[trigger] points[i][a] == v
}

/// Whether `b` is the smallest box that holds every point of `points`: each
/// bound is attained by one of them.
pub open spec fn is_tight_bounds(b: BoundingBox, points: Seq<[i64; 3]>) -> bool {
    &&& forall|i: int| 0 <= i < points.len() ==> contains(b, #[trigger] points[i])
    &&& forall|a: int| 0 <= a < 3 ==> #[trigger] attained(points, points.len() as int, a, b.min[a])
    &&& forall|a: int| 0 <= a < 3 ==> #[trigger] attained(points, points.len() as int, a, b.max[a])
}

/// The bounding box of a set of points, the per-axis minimum and maximum of
/// their coordinates: of the eight corners of a primitive's local box carried
/// into world space, or of a triangle's vertices.
pub fn bounds_of_points(points: &Vec<[i64; 3]>) -> (r: BoundingBox)
    requires
        points@.len() > 0,
    ensures
        is_tight_bounds(r, points@),
{
    let mut min: [i64; 3] = points[0];
    let mut max: [i64; 3] = points[0];
    let mut i: usize = 1;
    while i < points.len()
        invariant
            1 <= i <= points@.len(),
            forall|j: int|
                0 <= j < i ==> contains(BoundingBox { min, max }, #[trigger] points@[j]),
            forall|a: int| 0 <= a < 3 ==> #[trigger] attained(points@, i as int, a, min[a]),
            forall|a: int| 0 <= a < 3 ==> #[trigger] attained(points@, i as int, a, max[a]),
        decreases points@.len() - i,
    {
        let p = points[i];
        assert forall|b: int| 0 <= b < 3 implies #[trigger] attained(points@, i + 1, b, min[b]) by {
            assert(attained(points@, i as int, b, min[b]));
            let j = choose|j: int| 0 <= j < i && #[trigger] points@[j][b] == min[b];
            assert(points@[j][b] == min[b]);
        }
        assert forall|b: int| 0 <= b < 3 implies #[trigger] attained(points@, i + 1, b, max[b]) by {
            assert(attained(points@, i as int, b, max[b]));
            let j = choose|j: int| 0 <= j < i && #[trigger] points@[j][b] == max[b];
            assert(points@[j][b] == max[b]);
        }
        let mut a: usize = 0;
        while a < 3
            invariant
                0 <= a <= 3,
                i < points@.len(),
                p == points@[i as int],
                forall|j: int|
                    0 <= j < i ==> contains(BoundingBox { min, max }, #[trigger] points@[j]),
                forall|b: int| 0 <= b < a ==> min[b] <= p[b] && p[b] <= max[b],
                forall|b: int| 0 <= b < 3 ==> #[trigger] attained(points@, i + 1, b, min[b]),
                forall|b: int| 0 <= b < 3 ==> #[trigger] attained(points@, i + 1, b, max[b]),
            decreases 3 - a,
        {
            assert(points@[i as int][a as int] == p[a as int]);
            assert(attained(points@, i + 1, a as int, p[a as int]));
            if p[a] < min[a] {
                min[a] = p[a];
            }
            if p[a] > max[a] {
                max[a] = p[a];
            }
            a = a + 1;
        }
        i = i + 1;
    }
    BoundingBox { min, max }
}

} // verus!
