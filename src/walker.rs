//! Depth-first conversion of a document tree into a tree of primitives.
//!
//! Sizes, offsets, scales and opacities are IEEE-754 double-precision bit
//! patterns, carried through unchanged.
use vstd::prelude::*;
use crate::geometry::Point;
use crate::style::{FillSpec, ShapeStyle, StrokeSpec, resolve, style_of};
use crate::tessellate::{
    CurveRequest,
    Segment,
    VertexLoop,
    count_runs,
    run_closed,
    run_scan,
    run_start,
    tessellate_path,
};

verus! {

/// The part of an affine transform that is kept: translation and scale.
/// Rotation and skew are dropped.
#[derive(Clone, Copy, Debug, PartialEq, Eq, Structural)]
pub struct Placement {
    pub tx: u64,
    pub ty: u64,
    pub sx: u64,
    pub sy: u64,
}

/// A path of the document.
#[derive(Debug)]
pub struct PathNode {
    pub placement: Placement,
    pub visible: bool,
    pub fill: Option<FillSpec>,
    pub stroke: Option<StrokeSpec>,
    pub segments: Vec<Segment>,
}

/// A node of the document tree.
#[derive(Debug)]
pub enum DocumentNode {
    /// The document itself, with its view box size.
    Root { width: u64, height: u64, children: Vec<DocumentNode> },
    Group { placement: Placement, opacity: u64, children: Vec<DocumentNode> },
    Path(PathNode),
    /// Gradients, clip paths, masks, patterns, filters, images and
    /// definitions: nothing is made of them.
    Unsupported,
}

/// A shape: one vertex loop and its style.
#[derive(Debug)]
pub struct Shape {
    pub vertices: VertexLoop,
    pub style: ShapeStyle,
}

/// A container of primitives, with the attributes that were set on it.
#[derive(Debug)]
pub struct Container {
    pub size: Option<(u64, u64)>,
    pub placement: Option<Placement>,
    pub opacity: Option<u64>,
    pub visible: Option<bool>,
    pub children: Vec<Primitive>,
}

/// A node of the output tree.
#[derive(Debug)]
pub enum Primitive {
    Container(Container),
    Shape(Shape),
}

/// `prims` are the shapes of a path: one per run of its segments, in order,
/// each closed as its run is and styled from the path.
pub open spec fn shapes_of_path(p: PathNode, prims: Seq<Primitive>) -> bool {
    let segs = p.segments@;
    &&& prims.len() == count_runs(segs, 0)
    &&& forall|k: int|
        0 <= k < prims.len() ==> {
            let closed = run_closed(segs, run_start(segs, k as nat));
            &&& #[trigger] prims[k] is Shape
            &&& prims[k]->Shape_0.vertices.is_closed == closed
            &&& prims[k]->Shape_0.style == style_of(p.fill, p.stroke, closed)
            &&& !(run_scan(segs, run_start(segs, k as nat)).2 is Curve)
                ==> prims[k]->Shape_0.vertices.vertices@ == run_scan(segs, run_start(segs, k as nat)).0
        }
}

/// `r` is what converting `node` gives: nothing for an unsupported node,
/// else a container whose attributes come from the node.
pub open spec fn converted(node: DocumentNode, r: Option<Primitive>) -> bool
    decreases node,
{
    match node {
        DocumentNode::Unsupported => r is None,
        DocumentNode::Root { width, height, children } => {
            &&& r is Some
            &&& r->0 is Container
            &&& r->0->Container_0.size == Some((width, height))
            &&& r->0->Container_0.placement is None
            &&& r->0->Container_0.opacity is None
            &&& r->0->Container_0.visible is None
            &&& children_converted(children@, r->0->Container_0.children@)
        },
        DocumentNode::Group { placement, opacity, children } => {
            &&& r is Some
            &&& r->0 is Container
            &&& r->0->Container_0.size is None
            &&& r->0->Container_0.placement == Some(placement)
            &&& r->0->Container_0.opacity == Some(opacity)
            &&& r->0->Container_0.visible is None
            &&& children_converted(children@, r->0->Container_0.children@)
        },
        DocumentNode::Path(p) => {
            &&& r is Some
            &&& r->0 is Container
            &&& r->0->Container_0.size is None
            &&& r->0->Container_0.placement == Some(p.placement)
            &&& r->0->Container_0.opacity is None
            &&& r->0->Container_0.visible == Some(p.visible)
            &&& shapes_of_path(p, r->0->Container_0.children@)
        },
    }
}

/// `prims` are the converted `nodes`, in order, leaving out those that give
/// nothing.
pub open spec fn children_converted(nodes: Seq<DocumentNode>, prims: Seq<Primitive>) -> bool
    decreases nodes,
{
    if nodes.len() == 0 {
        prims.len() == 0
    } else if nodes.last() is Unsupported {
        children_converted(nodes.subrange(0, nodes.len() - 1), prims)
    } else {
        &&& prims.len() > 0
        &&& converted(nodes.last(), Some(prims.last()))
        &&& children_converted(nodes.subrange(0, nodes.len() - 1), prims.subrange(0, prims.len() - 1))
    }
}

/// A copy of a path's segments.
fn copy_segments(segments: &Vec<Segment>) -> (r: Vec<Segment>)
    ensures
        r@ == segments@,
{
    let mut r: Vec<Segment> = Vec::new();
    let mut i: usize = 0;
    while i < segments.len()
        invariant
            i <= segments@.len(),
            r@ == segments@.subrange(0, i as int),
        decreases segments@.len() - i,
    {
        r.push(segments[i]);
        i = i + 1;
    }
    r
}

/// Converts one path into a container of shapes, one per run of segments.
pub fn convert_path<F: Fn(CurveRequest) -> Vec<Point>>(path: &PathNode, flatten: &F) -> (r: Container)
    requires
        forall|c: CurveRequest| flatten.requires((c,)),
    ensures
        r.size is None,
        r.placement == Some(path.placement),
        r.opacity is None,
        r.visible == Some(path.visible),
        shapes_of_path(*path, r.children@),
{
    let segments = copy_segments(&path.segments);
    let loops = tessellate_path(segments, flatten);
    let ghost all = loops@;
    let mut rest = loops;
    let mut shapes: Vec<Primitive> = Vec::new();
    while rest.len() > 0
        invariant
            rest@ == all.subrange(0, rest@.len() as int),
            shapes@.len() + rest@.len() == all.len(),
            forall|k: int|
                0 <= k < shapes@.len() ==> {
                    let closed = all[rest@.len() + k].is_closed;
                    &&& #[trigger] shapes@[k] is Shape
                    &&& shapes@[k]->Shape_0.vertices.is_closed == closed
                    &&& shapes@[k]->Shape_0.style == style_of(path.fill, path.stroke, closed)
                    &&& shapes@[k]->Shape_0.vertices.vertices@ == all[rest@.len() + k].vertices@
                },
        decreases rest@.len(),
    {
        let l = rest.pop().unwrap();
        let style = resolve(&path.fill, &path.stroke, l.is_closed);
        shapes.insert(0, Primitive::Shape(Shape { vertices: l, style }));
    }
    Container {
        size: None,
        placement: Some(path.placement),
        opacity: None,
        visible: Some(path.visible),
        children: shapes,
    }
}

/// Converts the children of a root or a group, in document order, keeping
/// each result that is not absent.
fn convert_children<F: Fn(CurveRequest) -> Vec<Point>>(
    parent: &DocumentNode,
    children: &Vec<DocumentNode>,
    flatten: &F,
) -> (r: Vec<Primitive>)
    requires
        forall|c: CurveRequest| flatten.requires((c,)),
        decreases_to!(*parent => *children),
    ensures
        children_converted(children@, r@),
    decreases parent, 0nat,
{
    let mut out: Vec<Primitive> = Vec::new();
    let mut i: usize = 0;
    while i < children.len()
        invariant
            i <= children@.len(),
            forall|c: CurveRequest| flatten.requires((c,)),
            decreases_to!(*parent => *children),
            children_converted(children@.subrange(0, i as int), out@),
        decreases children@.len() - i,
    {
        proof {
            assert(decreases_to!(*children => children@[i as int]));
        }
        let c = convert(&children[i], flatten);
        let ghost before = out@;
        match c {
            Some(p) => {
                out.push(p);
            },
            None => {},
        }
        proof {
            let done = children@.subrange(0, i + 1);
            assert(done.subrange(0, done.len() - 1) =~= children@.subrange(0, i as int));
            if c is Some {
                assert(out@.subrange(0, out@.len() - 1) =~= before);
            }
        }
        i = i + 1;
    }
    proof {
        assert(children@.subrange(0, children@.len() as int) =~= children@);
    }
    out
}

/// Converts a document node: a root or a group into a container of its
/// converted children, a path into a container of its shapes, and an
/// unsupported node into nothing, its children unvisited.
pub fn convert<F: Fn(CurveRequest) -> Vec<Point>>(node: &DocumentNode, flatten: &F) -> (r: Option<
    Primitive,
>)
    requires
        forall|c: CurveRequest| flatten.requires((c,)),
    ensures
        converted(*node, r),
    decreases node, 1nat,
{
    match node {
        DocumentNode::Root { width, height, children } => {
            let kids = convert_children(node, children, flatten);
            Some(
                Primitive::Container(
                    Container {
                        size: Some((*width, *height)),
                        placement: None,
                        opacity: None,
                        visible: None,
                        children: kids,
                    },
                ),
            )
        },
        DocumentNode::Group { placement, opacity, children } => {
            let kids = convert_children(node, children, flatten);
            Some(
                Primitive::Container(
                    Container {
                        size: None,
                        placement: Some(*placement),
                        opacity: Some(*opacity),
                        visible: None,
                        children: kids,
                    },
                ),
            )
        },
        DocumentNode::Path(p) => Some(Primitive::Container(convert_path(p, flatten))),
        DocumentNode::Unsupported => None,
    }
}

} // verus!
