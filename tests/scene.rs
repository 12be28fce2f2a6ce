use raytracer::scene::{flatten_scene, SceneNode, WorldPrimitive};

/// An affine map of the line, `x ↦ a·x + b`, as a stand-in for a transform.
type Affine = (f64, f64);

fn compose(outer: Affine, inner: Affine) -> Affine {
    (outer.0 * inner.0, outer.0 * inner.1 + outer.1)
}

fn world(p: &WorldPrimitive<&'static str, Affine>) -> Affine {
    p.transforms.iter().fold((1.0, 0.0), |acc, t| compose(acc, *t))
}

#[test]
fn nested_child_gets_the_product_of_its_ancestors() {
    let t1 = (2.0, 1.0);
    let t2 = (1.0, 3.0);
    let tc = (0.5, -1.0);
    let leaf = SceneNode::new("leaf", tc);
    let mid = SceneNode::with_children("mid", t2, vec![leaf]);
    let root = SceneNode::with_children("root", t1, vec![mid]);
    let flat = root.flatten_to_world(&Vec::new());
    let names: Vec<&str> = flat.iter().map(|p| p.shape).collect();
    assert_eq!(names, vec!["leaf", "mid", "root"]);
    assert_eq!(flat[0].transforms, vec![t1, t2, tc]);
    // The local point 4 maps through Tchild, then T2, then T1: 4 -> 1 -> 4 -> 9.
    let w = world(&flat[0]);
    assert_eq!(w.0 * 4.0 + w.1, 9.0);
}

#[test]
fn children_come_before_their_parent_depth_first() {
    let a = SceneNode::with_children("a", (1.0, 1.0), vec![SceneNode::new("a1", (1.0, 2.0))]);
    let b = SceneNode::new("b", (1.0, 3.0));
    let root = SceneNode::with_children("root", (1.0, 0.0), vec![a, b]);
    let top = SceneNode::new("top", (3.0, 0.0));
    let flat = flatten_scene(&vec![root, top]);
    let names: Vec<&str> = flat.iter().map(|p| p.shape).collect();
    assert_eq!(names, vec!["a1", "a", "b", "root", "top"]);
    assert_eq!(flat[0].transforms, vec![(1.0, 0.0), (1.0, 1.0), (1.0, 2.0)]);
    assert_eq!(flat[4].transforms, vec![(3.0, 0.0)]);
}

#[test]
fn flatten_under_a_parent_chain() {
    let node = SceneNode::new("n", (2.0, 0.0));
    let flat = node.flatten_to_world(&vec![(1.0, 5.0)]);
    assert_eq!(flat.len(), 1);
    assert_eq!(flat[0].transforms, vec![(1.0, 5.0), (2.0, 0.0)]);
}

#[test]
fn add_child_needs_a_list() {
    let mut bare = SceneNode::new("bare", (1.0, 0.0));
    bare.add_child(SceneNode::new("lost", (1.0, 0.0)));
    assert!(bare.children.is_none());
    let mut parent = SceneNode::with_children("parent", (1.0, 0.0), Vec::new());
    parent.add_child(SceneNode::new("kept", (1.0, 0.0)));
    parent.add_child(SceneNode::new("next", (1.0, 0.0)));
    let kids: Vec<&str> = parent.children.as_ref().unwrap().iter().map(|c| c.shape).collect();
    assert_eq!(kids, vec!["kept", "next"]);
    assert_eq!(parent.flatten_to_world(&Vec::new()).len(), 3);
}

#[test]
fn it_builds_a_raytracing_scene_from_an_empty_scene() {
    let objects: Vec<SceneNode<&str, Affine>> = Vec::new();
    assert!(flatten_scene(&objects).is_empty());
}

#[test]
fn it_builds_a_raytracing_scene_from_a_scene() {
    // One cube of size 1, rotated by 30 degrees about y, then moved up by 2.
    let (s, c) = (30.0_f64.to_radians().sin(), 30.0_f64.to_radians().cos());
    let rotate_then_translate = [c, 0.0, s, 0.0, 0.0, 1.0, 0.0, 2.0, -s, 0.0, c, 0.0];
    let cube = SceneNode::new(("cube", 1.0), rotate_then_translate);
    let flat = flatten_scene(&vec![cube]);
    assert_eq!(flat.len(), 1);
    assert_eq!(flat[0].shape, ("cube", 1.0));
    assert_eq!(flat[0].transforms, vec![rotate_then_translate]);
}
