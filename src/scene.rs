use vstd::prelude::*;

verus! {

/// A node of a scene tree: a primitive's shape with its transform relative to
/// its parent, and the nodes nested under it. A node made without a list of
/// children takes none.
pub struct SceneNode<S, T> {
    pub shape: S,
    pub transform: T,
    pub children: Option<Vec<SceneNode<S, T>>>,
}

/// A primitive in world space: its shape, and the transforms from the root of
/// the scene tree down to its own, whose product `T1 · T2 · … · Tn` is its world
/// transform.
pub struct WorldPrimitive<S, T> {
    pub shape: S,
    pub transforms: Vec<T>,
}

impl<S, T> WorldPrimitive<S, T> {
    /// The shape with its chain of transforms, root first.
    pub open spec fn view(&self) -> (S, Seq<T>) {
        (self.shape, self.transforms@)
    }
}

/// The children of a node, none where it has no list.
pub open spec fn children_of<S, T>(node: SceneNode<S, T>) -> Seq<SceneNode<S, T>> {
    match node.children {
        Some(c) => c@,
        None => Seq::empty(),
    }
}

/// The world-space primitives of a list of sibling nodes under the chain of
/// transforms `chain`: for each node in order, those of its children under the
/// chain extended by its transform, then the node itself.
pub open spec fn flatten_nodes<S, T>(nodes: Seq<SceneNode<S, T>>, chain: Seq<T>) -> Seq<(S, Seq<T>)>
    decreases nodes,
    via flatten_nodes_decreases::<S, T>
{
    if nodes.len() == 0 {
        Seq::empty()
    } else {
        let last = nodes.last();
        let own = chain.push(last.transform);
        let below = match last.children {
            Some(c) => flatten_nodes(c@, own),
            None => Seq::empty(),
        };
        flatten_nodes(nodes.drop_last(), chain) + below + seq![(last.shape, own)]
    }
}

#[via_fn]
proof fn flatten_nodes_decreases<S, T>(nodes: Seq<SceneNode<S, T>>, chain: Seq<T>) {
    if nodes.len() != 0 {
        let last = nodes.last();
        assert(decreases_to!(nodes => nodes.drop_last()));
        if let Some(c) = last.children {
            assert(decreases_to!(nodes => c@));
        }
    }
}

/// The world-space primitives below `node`, whose own chain is `own`.
pub open spec fn flatten_below<S, T>(node: SceneNode<S, T>, own: Seq<T>) -> Seq<(S, Seq<T>)> {
    match node.children {
        Some(c) => flatten_nodes(c@, own),
        None => Seq::empty(),
    }
}

/// The world-space primitives of one node under `chain`: those of its
/// children, depth first, then its own.
pub open spec fn flatten_node<S, T>(node: SceneNode<S, T>, chain: Seq<T>) -> Seq<(S, Seq<T>)> {
    flatten_nodes(seq![node], chain)
}


/// A node's own world-space primitive comes last among its own ones, under its
/// parent's chain extended by its transform.
proof fn lemma_node_holds_own<S, T>(node: SceneNode<S, T>, chain: Seq<T>)
    ensures
        flatten_node(node, chain).contains((node.shape, chain.push(node.transform))),
{
    let one = seq![node];
    assert(one.drop_last() =~= Seq::<SceneNode<S, T>>::empty());
    assert(one.last() == node);
    let f = flatten_node(node, chain);
    assert(f[f.len() - 1] == (node.shape, chain.push(node.transform)));
}

/// A node's world-space primitives hold those of its children.
proof fn lemma_node_holds_children<S, T>(node: SceneNode<S, T>, chain: Seq<T>, x: (S, Seq<T>))
    requires
        flatten_below(node, chain.push(node.transform)).contains(x),
    ensures
        flatten_node(node, chain).contains(x),
{
    let one = seq![node];
    assert(one.drop_last() =~= Seq::<SceneNode<S, T>>::empty());
    assert(one.last() == node);
    assert(flatten_nodes(one.drop_last(), chain) =~= Seq::empty());
    let below = flatten_below(node, chain.push(node.transform));
    let k = choose|k: int| 0 <= k < below.len() && below[k] == x;
    let f = flatten_node(node, chain);
    assert(f =~= Seq::<(S, Seq<T>)>::empty() + below + seq![(node.shape, chain.push(node.transform))]);
    assert(f[k] == x);
}

/// The world-space primitives of a list of siblings hold those of each of them.
proof fn lemma_nodes_hold_each<S, T>(nodes: Seq<SceneNode<S, T>>, chain: Seq<T>, k: int, x: (S, Seq<T>))
    requires
        0 <= k < nodes.len(),
        flatten_node(nodes[k], chain).contains(x),
    ensures
        flatten_nodes(nodes, chain).contains(x),
    decreases nodes.len(),
{
    let last = nodes.last();
    let one = seq![last];
    assert(one.drop_last() =~= Seq::<SceneNode<S, T>>::empty());
    assert(one.last() == last);
    assert(flatten_nodes(one.drop_last(), chain) =~= Seq::empty());
    let below = flatten_below(last, chain.push(last.transform));
    assert(flatten_node(last, chain) =~= Seq::<(S, Seq<T>)>::empty() + below + seq![
        (last.shape, chain.push(last.transform)),
    ]);
    let rest = flatten_nodes(nodes.drop_last(), chain);
    let f = flatten_nodes(nodes, chain);
    let tail = flatten_node(last, chain);
    assert(f =~= rest + tail);
    if k == nodes.len() - 1 {
        let m = choose|m: int| 0 <= m < tail.len() && tail[m] == x;
        assert(f[rest.len() + m] == x);
    } else {
        assert(nodes.drop_last()[k] == nodes[k]);
        lemma_nodes_hold_each(nodes.drop_last(), chain, k, x);
        let m = choose|m: int| 0 <= m < rest.len() && rest[m] == x;
        assert(f[m] == x);
    }
}

/// A primitive nested two levels deep, under a node with transform `T1` and a
/// child of it with transform `T2`, is flattened with the chain
/// `T1, T2, Tchild`: its world transform is `T1 · T2 · Tchild`.
pub proof fn lemma_nested_world_transform<S, T>(root: SceneNode<S, T>, i: int, j: int)
    requires
        0 <= i < children_of(root).len(),
        0 <= j < children_of(children_of(root)[i]).len(),
    ensures
        ({
            let mid = children_of(root)[i];
            let leaf = children_of(mid)[j];
            flatten_node(root, Seq::empty()).contains(
                (leaf.shape, seq![root.transform, mid.transform, leaf.transform]),
            )
        }),
{
    let mid = children_of(root)[i];
    let leaf = children_of(mid)[j];
    let c1 = Seq::<T>::empty().push(root.transform);
    let c2 = c1.push(mid.transform);
    let x = (leaf.shape, c2.push(leaf.transform));
    assert(c2.push(leaf.transform) =~= seq![root.transform, mid.transform, leaf.transform]);
    lemma_node_holds_own(leaf, c2);
    lemma_nodes_hold_each(children_of(mid), c2, j, x);
    lemma_node_holds_children(mid, c1, x);
    lemma_nodes_hold_each(children_of(root), c1, i, x);
    lemma_node_holds_children(root, Seq::empty(), x);
}

/// The views of a list of world-space primitives.
pub open spec fn views<S, T>(prims: Seq<WorldPrimitive<S, T>>) -> Seq<(S, Seq<T>)> {
    prims.map_values(|w: WorldPrimitive<S, T>| w.view())
}

/// A copy of a chain of transforms.
fn copy_chain<T: Copy>(chain: &Vec<T>) -> (r: Vec<T>)
    ensures
        r@ == chain@,
{
    let mut r: Vec<T> = Vec::new();
    let mut i: usize = 0;
    while i < chain.len()
        invariant
            i <= chain@.len(),
            r@ == chain@.subrange(0, i as int),
        decreases chain@.len() - i,
    {
        r.push(chain[i]);
        i = i + 1;
        assert(r@ =~= chain@.subrange(0, i as int));
    }
    assert(r@ =~= chain@);
    r
}

/// Appends to `out` the world-space primitives of `nodes` under the chain of
/// transforms `chain`, which it leaves as it found it.
fn flatten_into<S: Copy, T: Copy>(
    nodes: &Vec<SceneNode<S, T>>,
    chain: &mut Vec<T>,
    out: &mut Vec<WorldPrimitive<S, T>>,
)
    ensures
        final(chain)@ == old(chain)@,
        views(final(out)@) == views(old(out)@) + flatten_nodes(nodes@, old(chain)@),
    decreases nodes,
{
    let ghost chain0 = chain@;
    let ghost out0 = views(out@);
    let mut i: usize = 0;
    assert(nodes@.subrange(0, 0) =~= Seq::<SceneNode<S, T>>::empty());
    assert(views(out@) =~= out0 + flatten_nodes(nodes@.subrange(0, 0), chain0));
    while i < nodes.len()
        invariant
            i <= nodes@.len(),
            chain@ == chain0,
            views(out@) == out0 + flatten_nodes(nodes@.subrange(0, i as int), chain0),
        decreases nodes@.len() - i,
    {
        let node = &nodes[i];
        let ghost before = views(out@);
        chain.push(node.transform);
        let ghost own = chain@;
        assert(own == chain0.push(node.transform));
        let ghost mid = views(out@);
        if let Some(children) = &node.children {
            assert(decreases_to!(nodes => nodes@[i as int]));
            flatten_into(children, chain, out);
        }
        let ghost below = flatten_below(nodes@[i as int], own);
        assert(views(out@) =~= before + below);
        let transforms = copy_chain(chain);
        out.push(WorldPrimitive { shape: node.shape, transforms });
        chain.pop();
        proof {
            let prefix = nodes@.subrange(0, i + 1);
            assert(prefix.drop_last() =~= nodes@.subrange(0, i as int));
            assert(prefix.last() == nodes@[i as int]);
            assert(views(out@) =~= before + below + seq![(node.shape, own)]);
            assert(chain@ =~= chain0);
        }
        i = i + 1;
    }
    assert(nodes@.subrange(0, nodes@.len() as int) =~= nodes@);
}

impl<S: Copy, T: Copy> SceneNode<S, T> {
    /// A node without a list of children.
    pub fn new(shape: S, transform: T) -> (r: Self)
        ensures
            r.shape == shape,
            r.transform == transform,
            r.children is None,
    {
        SceneNode { shape, transform, children: None }
    }

    /// A node with the given children, in order.
    pub fn with_children(shape: S, transform: T, children: Vec<SceneNode<S, T>>) -> (r: Self)
        ensures
            r.shape == shape,
            r.transform == transform,
            r.children == Some(children),
    {
        SceneNode { shape, transform, children: Some(children) }
    }

    /// Appends `child` to the node's children where it has a list of them; a
    /// node without a list is left as it is.
    pub fn add_child(&mut self, child: SceneNode<S, T>)
        ensures
            final(self).shape == old(self).shape,
            final(self).transform == old(self).transform,
            match old(self).children {
                Some(c) => final(self).children is Some && final(self).children->0@ == c@.push(
                    child,
                ),
                None => final(self).children is None,
            },
    {
        if let Some(children) = &mut self.children {
            children.push(child);
        }
    }

    /// The world-space primitives of this node and all nodes below it, under
    /// the chain of ancestor transforms `parent`: the children's first, depth
    /// first, then the node's own, whose chain ends with its transform.
    pub fn flatten_to_world(&self, parent: &Vec<T>) -> (r: Vec<WorldPrimitive<S, T>>)
        ensures
            views(r@) == flatten_node(*self, parent@),
    {
        let mut chain = copy_chain(parent);
        let mut out: Vec<WorldPrimitive<S, T>> = Vec::new();
        let ghost own = parent@.push(self.transform);
        chain.push(self.transform);
        if let Some(children) = &self.children {
            flatten_into(children, &mut chain, &mut out);
        }
        let transforms = copy_chain(&chain);
        out.push(WorldPrimitive { shape: self.shape, transforms });
        proof {
            let below = flatten_below(*self, own);
            let one = seq![*self];
            assert(one.drop_last() =~= Seq::<SceneNode<S, T>>::empty());
            assert(one.last() == *self);
            assert(flatten_nodes(one.drop_last(), parent@) =~= Seq::empty());
            assert(views(out@) =~= below + seq![(self.shape, own)]);
        }
        out
    }
}

/// The world-space primitives of a scene's top-level nodes, in order, each
/// under the identity as parent.
pub fn flatten_scene<S: Copy, T: Copy>(objects: &Vec<SceneNode<S, T>>) -> (r: Vec<
    WorldPrimitive<S, T>,
>)
    ensures
        views(r@) == flatten_nodes(objects@, Seq::empty()),
{
    let mut chain: Vec<T> = Vec::new();
    let mut out: Vec<WorldPrimitive<S, T>> = Vec::new();
    assert(views(out@) =~= Seq::empty());
    flatten_into(objects, &mut chain, &mut out);
    assert(views(out@) =~= flatten_nodes(objects@, Seq::empty()));
    out
}

} // verus!
