use raytracer::bounds::bounds_of_points;
use raytracer::cube::{face_normal, uv_axes, Axis, FaceNormal};
use raytracer::order::order_key;

fn key3(p: [f64; 3]) -> [i64; 3] {
    [order_key(p[0].to_bits()), order_key(p[1].to_bits()), order_key(p[2].to_bits())]
}

#[test]
fn cube_face_is_the_largest_coordinate() {
    assert_eq!(face_normal(key3([0.5, 0.1, -0.2])), FaceNormal { axis: Axis::X, negative: false });
    assert_eq!(face_normal(key3([0.1, -0.5, 0.2])), FaceNormal { axis: Axis::Y, negative: true });
    assert_eq!(face_normal(key3([0.3, 0.2, -0.5])), FaceNormal { axis: Axis::Z, negative: true });
    assert_eq!(face_normal(key3([-0.5, 0.0, 0.0])), FaceNormal { axis: Axis::X, negative: true });
    // On an edge the later axis wins.
    assert_eq!(face_normal(key3([0.5, 0.5, 0.1])), FaceNormal { axis: Axis::Y, negative: false });
    assert_eq!(face_normal(key3([0.5, 0.1, 0.5])), FaceNormal { axis: Axis::Z, negative: false });
}

#[test]
fn cube_faces_unwrap_the_other_axes() {
    assert_eq!(uv_axes(Axis::X), (Axis::Y, Axis::Z));
    assert_eq!(uv_axes(Axis::Y), (Axis::X, Axis::Z));
    assert_eq!(uv_axes(Axis::Z), (Axis::X, Axis::Y));
}

#[test]
fn bounding_box_holds_the_corners_and_a_hit() {
    // A unit cube moved to (1, 2, 3): its corners in world space.
    let mut corners = Vec::new();
    for &x in [0.5, 1.5].iter() {
        for &y in [1.5, 2.5].iter() {
            for &z in [2.5, 3.5].iter() {
                corners.push(key3([x, y, z]));
            }
        }
    }
    let b = bounds_of_points(&corners);
    assert_eq!(b.min, key3([0.5, 1.5, 2.5]));
    assert_eq!(b.max, key3([1.5, 2.5, 3.5]));
    // The hit of a ray from (1, 2, 8) toward -z, on the top face.
    let hit = key3([1.0, 2.0, 3.5]);
    for a in 0..3 {
        assert!(b.min[a] <= hit[a] && hit[a] <= b.max[a]);
    }
}

#[test]
fn bounding_box_of_a_triangle() {
    let vertices = vec![key3([0.0, 0.0, 0.0]), key3([1.0, -2.0, 0.0]), key3([-1.0, 1.0, 3.0])];
    let b = bounds_of_points(&vertices);
    assert_eq!(b.min, key3([-1.0, -2.0, 0.0]));
    assert_eq!(b.max, key3([1.0, 1.0, 3.0]));
    let single = bounds_of_points(&vec![key3([4.0, -4.0, 2.0])]);
    assert_eq!(single.min, single.max);
}
