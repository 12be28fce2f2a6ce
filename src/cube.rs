use vstd::prelude::*;

verus! {

/// A coordinate axis.
#[derive(Copy, Clone, Debug, PartialEq, Eq, Structural)]
pub enum Axis {
    X,
    Y,
    Z,
}

/// The magnitude of an order key, which is the key of the magnitude.
pub open spec fn magnitude(k: int) -> int {
    if k < 0 {
        -k
    } else {
        k
    }
}

/// The axis of the face of a cube that a local hit point lies on: the one
/// whose coordinate is largest in magnitude, `z` before `x` and `y` before `z`
/// when equal, and `z` when `x` and `y` are equal.
pub open spec fn face_axis_spec(x: int, y: int, z: int) -> Axis {
    let (ax, ay, az) = (magnitude(x), magnitude(y), magnitude(z));
    if ax > ay {
        if ax > az {
            Axis::X
        } else {
            Axis::Z
        }
    } else if ay > az {
        Axis::Y
    } else {
        Axis::Z
    }
}

/// The coordinate of `p` on `axis`.
pub open spec fn coord(p: [i64; 3], axis: Axis) -> int {
    match axis {
        Axis::X => p[0] as int,
        Axis::Y => p[1] as int,
        Axis::Z => p[2] as int,
    }
}

/// The outward normal of a cube's face: an axis, and whether it points to the
/// negative side.
#[derive(Copy, Clone, Debug, PartialEq, Eq, Structural)]
pub struct FaceNormal {
    pub axis: Axis,
    pub negative: bool,
}

/// The face normal at a point on the surface of a cube centred at the origin,
/// from the keys of the point's coordinates: the axis of the largest
/// coordinate in magnitude, signed as that coordinate.
pub fn face_normal(p: [i64; 3]) -> (r: FaceNormal)
    requires
        p[0] != i64::MIN,
        p[1] != i64::MIN,
        p[2] != i64::MIN,
    ensures
        r.axis == face_axis_spec(p[0] as int, p[1] as int, p[2] as int),
        r.negative == (coord(p, r.axis) < 0),
        magnitude(coord(p, r.axis)) >= magnitude(p[0] as int),
        magnitude(coord(p, r.axis)) >= magnitude(p[1] as int),
        magnitude(coord(p, r.axis)) >= magnitude(p[2] as int),
{
    let ax = if p[0] < 0 { -p[0] } else { p[0] };
    let ay = if p[1] < 0 { -p[1] } else { p[1] };
    let az = if p[2] < 0 { -p[2] } else { p[2] };
    if ax > ay {
        if ax > az {
            FaceNormal { axis: Axis::X, negative: p[0] < 0 }
        } else {
            FaceNormal { axis: Axis::Z, negative: p[2] < 0 }
        }
    } else if ay > az {
        FaceNormal { axis: Axis::Y, negative: p[1] < 0 }
    } else {
        FaceNormal { axis: Axis::Z, negative: p[2] < 0 }
    }
}

/// The position of an axis in `x`, `y`, `z` order.
pub open spec fn axis_index(a: Axis) -> int {
    match a {
        Axis::X => 0,
        Axis::Y => 1,
        Axis::Z => 2,
    }
}

/// The two axes that a face of a cube unwraps onto its texture coordinates:
/// the two other than the face's axis, in order.
pub fn uv_axes(face: Axis) -> (r: (Axis, Axis))
    ensures
        r.0 != face,
        r.1 != face,
        r.0 != r.1,
        axis_index(r.0) < axis_index(r.1),
{
    match face {
        Axis::X => (Axis::Y, Axis::Z),
        Axis::Y => (Axis::X, Axis::Z),
        Axis::Z => (Axis::X, Axis::Y),
    }
}

} // verus!
