use svg4reds::asset::is_plain_asset_name;
use svg4reds::geometry::{coords_equal, points_equal, Point};
use svg4reds::style::{
    classify, resolve, EndCapStyle, FillSpec, JointStyle, LineCap, LineJoin, Paint, Rgb,
    ShapeVariant, StrokeSpec,
};
use svg4reds::tessellate::{close_loop, tessellate_path, CurveRequest, Extraction, Segment, Tessellator};
use svg4reds::walker::{convert, convert_path, DocumentNode, PathNode, Placement, Primitive};

fn pt(x: f32, y: f32) -> Point {
    Point::new(x.to_bits(), y.to_bits())
}

fn coords(p: &Point) -> (f32, f32) {
    (f32::from_bits(p.x), f32::from_bits(p.y))
}

fn loop_coords(e: Extraction) -> (Vec<(f32, f32)>, bool) {
    match e {
        Extraction::Finished(l) => (l.vertices.iter().map(coords).collect(), l.is_closed),
        Extraction::Flatten(_) => panic!("unexpected curve request"),
    }
}

fn no_curves(_c: CurveRequest) -> Vec<Point> {
    panic!("no curve expected")
}

/// Twelve samples along the straight line from the start to the end of the
/// request, as a stand-in for a flattener.
fn straight_samples(c: CurveRequest) -> Vec<Point> {
    let (x0, y0) = coords(&c.start);
    let (x1, y1) = coords(&c.end);
    (0..12)
        .map(|k| {
            let t = k as f32 / 12.0;
            pt(x0 + (x1 - x0) * t, y0 + (y1 - y0) * t)
        })
        .collect()
}

fn placement() -> Placement {
    Placement { tx: 1.5f64.to_bits(), ty: 2.0f64.to_bits(), sx: 1.0f64.to_bits(), sy: 3.0f64.to_bits() }
}

fn path(segments: Vec<Segment>) -> PathNode {
    PathNode {
        placement: placement(),
        visible: true,
        fill: Some(FillSpec { paint: Paint::Color(Rgb { red: 255, green: 0, blue: 10 }), opacity: 0.5f64.to_bits() }),
        stroke: None,
        segments,
    }
}

#[test]
fn extract_closed_triangle() {
    let mut t = Tessellator::new(vec![
        Segment::MoveTo(pt(0.0, 0.0)),
        Segment::LineTo(pt(1.0, 0.0)),
        Segment::LineTo(pt(1.0, 1.0)),
        Segment::ClosePath,
    ]);
    let (v, closed) = loop_coords(t.extract_vertices());
    assert_eq!(v, vec![(0.0, 0.0), (1.0, 0.0), (1.0, 1.0)]);
    assert!(closed);
    assert!(!t.has_more());
}

#[test]
fn extract_stops_before_next_move() {
    let mut t = Tessellator::new(vec![
        Segment::MoveTo(pt(0.0, 0.0)),
        Segment::LineTo(pt(1.0, 0.0)),
        Segment::MoveTo(pt(2.0, 2.0)),
    ]);
    let (v, closed) = loop_coords(t.extract_vertices());
    assert_eq!(v, vec![(0.0, 0.0), (1.0, 0.0)]);
    assert!(!closed);
    assert_eq!(t.position(), 2);
    assert!(t.has_more());
    let (v, closed) = loop_coords(t.extract_vertices());
    assert_eq!(v, vec![(2.0, 2.0)]);
    assert!(!closed);
    assert!(!t.has_more());
}

#[test]
fn closing_drops_repeated_start() {
    let mut t = Tessellator::new(vec![
        Segment::MoveTo(pt(0.0, 0.0)),
        Segment::LineTo(pt(4.0, 0.0)),
        Segment::LineTo(pt(4.0, 4.0)),
        Segment::LineTo(pt(0.0, 0.0)),
        Segment::ClosePath,
    ]);
    let (v, closed) = loop_coords(t.extract_vertices());
    assert_eq!(v, vec![(0.0, 0.0), (4.0, 0.0), (4.0, 4.0)]);
    assert!(closed);
}

#[test]
fn closing_treats_signed_zeros_as_equal() {
    let l = close_loop(vec![pt(0.0, 1.0), pt(2.0, 2.0), pt(-0.0, 1.0)]);
    assert_eq!(l.vertices.len(), 2);
    assert!(l.is_closed);
}

#[test]
fn closing_keeps_nan_endpoint() {
    let l = close_loop(vec![pt(f32::NAN, 1.0), pt(2.0, 2.0), pt(f32::NAN, 1.0)]);
    assert_eq!(l.vertices.len(), 3);
    assert!(!points_equal(&pt(f32::NAN, 0.0), &pt(f32::NAN, 0.0)));
    assert!(coords_equal(0.0f32.to_bits(), (-0.0f32).to_bits()));
    assert!(!coords_equal(1.0f32.to_bits(), 2.0f32.to_bits()));
}

#[test]
fn close_without_vertices_is_lenient() {
    let mut t = Tessellator::new(vec![Segment::ClosePath, Segment::LineTo(pt(1.0, 1.0))]);
    let (v, closed) = loop_coords(t.extract_vertices());
    assert!(v.is_empty());
    assert!(closed);
    let (v, closed) = loop_coords(t.extract_vertices());
    assert_eq!(v, vec![(1.0, 1.0)]);
    assert!(!closed);
}

#[test]
fn curve_asks_for_flattening_and_resumes() {
    let mut t = Tessellator::new(vec![
        Segment::MoveTo(pt(0.0, 0.0)),
        Segment::CurveTo(pt(1.0, 2.0), pt(3.0, 4.0), pt(12.0, 0.0)),
        Segment::LineTo(pt(20.0, 20.0)),
    ]);
    let req = match t.extract_vertices() {
        Extraction::Flatten(r) => r,
        Extraction::Finished(_) => panic!("expected a curve request"),
    };
    assert_eq!(coords(&req.start), (0.0, 0.0));
    assert_eq!(coords(&req.ctrl1), (1.0, 2.0));
    assert_eq!(coords(&req.ctrl2), (3.0, 4.0));
    assert_eq!(coords(&req.end), (12.0, 0.0));
    let (v, closed) = loop_coords(t.continue_with_curve(straight_samples(req)));
    assert!(!closed);
    assert_eq!(v.len(), 1 + 11 + 1);
    assert_eq!(v[0], (0.0, 0.0));
    assert_eq!(v[1], (1.0, 0.0));
    assert_eq!(v[11], (11.0, 0.0));
    assert_eq!(v[12], (20.0, 20.0));
}

#[test]
fn curve_without_start_contributes_nothing() {
    let mut t = Tessellator::new(vec![
        Segment::CurveTo(pt(1.0, 2.0), pt(3.0, 4.0), pt(5.0, 6.0)),
        Segment::LineTo(pt(1.0, 1.0)),
    ]);
    let (v, closed) = loop_coords(t.extract_vertices());
    assert_eq!(v, vec![(1.0, 1.0)]);
    assert!(!closed);
}

#[test]
fn consecutive_moves_give_separate_loops() {
    let loops = tessellate_path(
        vec![Segment::MoveTo(pt(0.0, 0.0)), Segment::MoveTo(pt(1.0, 1.0))],
        &no_curves,
    );
    assert_eq!(loops.len(), 2);
    assert_eq!(loops[0].vertices.len(), 1);
    assert_eq!(loops[1].vertices.len(), 1);
    assert!(!loops[0].is_closed && !loops[1].is_closed);
}

#[test]
fn two_runs_give_two_shapes() {
    let p = path(vec![
        Segment::MoveTo(pt(0.0, 0.0)),
        Segment::LineTo(pt(1.0, 0.0)),
        Segment::LineTo(pt(1.0, 1.0)),
        Segment::ClosePath,
        Segment::MoveTo(pt(5.0, 5.0)),
        Segment::CurveTo(pt(6.0, 5.0), pt(7.0, 5.0), pt(17.0, 5.0)),
    ]);
    let c = convert_path(&p, &straight_samples);
    assert_eq!(c.children.len(), 2);
    assert_eq!(c.placement, Some(placement()));
    assert_eq!(c.visible, Some(true));
    assert_eq!(c.size, None);
    match (&c.children[0], &c.children[1]) {
        (Primitive::Shape(a), Primitive::Shape(b)) => {
            assert!(a.vertices.is_closed);
            assert_eq!(a.vertices.vertices.len(), 3);
            assert_eq!(a.style.stroke, None);
            assert_eq!(a.style.variant, ShapeVariant::Fill);
            assert!(!b.vertices.is_closed);
            assert_eq!(b.vertices.vertices.len(), 12);
            assert_eq!(coords(&b.vertices.vertices[11]), (16.0, 5.0));
        }
        _ => panic!("expected two shapes"),
    }
}

#[test]
fn empty_path_gives_empty_container() {
    let c = convert_path(&path(vec![]), &no_curves);
    assert!(c.children.is_empty());
}

#[test]
fn classification_table() {
    assert_eq!(classify(true, false), ShapeVariant::Fill);
    assert_eq!(classify(false, true), ShapeVariant::Border);
    assert_eq!(classify(true, true), ShapeVariant::FillAndBorder);
    assert_eq!(classify(false, false), ShapeVariant::Fill);
}

#[test]
fn style_defaults() {
    assert_eq!(ShapeVariant::default(), ShapeVariant::Fill);
    assert_eq!(JointStyle::default(), JointStyle::Miter);
    assert_eq!(EndCapStyle::default(), EndCapStyle::Butt);
}

#[test]
fn linked_fill_counts_for_variant_only() {
    let fill = Some(FillSpec { paint: Paint::Link, opacity: 1.0f64.to_bits() });
    let stroke = Some(StrokeSpec {
        paint: Paint::Link,
        opacity: 0.25f64.to_bits(),
        width: 2.0f64.to_bits(),
        linecap: LineCap::Round,
        linejoin: LineJoin::Bevel,
    });
    let s = resolve(&fill, &stroke, false);
    assert_eq!(s.fill, None);
    assert_eq!(s.variant, ShapeVariant::FillAndBorder);
    let b = s.stroke.unwrap();
    assert_eq!(b.color, None);
    assert_eq!(f64::from_bits(b.opacity), 0.25);
    assert_eq!(f64::from_bits(b.thickness), 2.0);
    assert_eq!(b.cap, EndCapStyle::Round);
    assert_eq!(b.join, JointStyle::Bevel);
}

#[test]
fn closed_loop_forces_joined_cap() {
    let stroke = Some(StrokeSpec {
        paint: Paint::Color(Rgb { red: 1, green: 2, blue: 3 }),
        opacity: 1.0f64.to_bits(),
        width: 1.0f64.to_bits(),
        linecap: LineCap::Square,
        linejoin: LineJoin::Miter,
    });
    let closed = resolve(&None, &stroke, true);
    assert_eq!(closed.variant, ShapeVariant::Border);
    let b = closed.stroke.unwrap();
    assert_eq!(b.cap, EndCapStyle::Joined);
    assert_eq!(b.join, JointStyle::Miter);
    assert_eq!(b.color, Some(Rgb { red: 1, green: 2, blue: 3 }));
    let open = resolve(&None, &stroke, false);
    assert_eq!(open.stroke.unwrap().cap, EndCapStyle::Square);
    let butt = resolve(
        &None,
        &Some(StrokeSpec { linecap: LineCap::Butt, linejoin: LineJoin::Round, ..stroke.unwrap() }),
        false,
    );
    assert_eq!(butt.stroke.unwrap().cap, EndCapStyle::Butt);
    assert_eq!(butt.stroke.unwrap().join, JointStyle::Round);
}

#[test]
fn solid_fill_is_shown() {
    let fill = Some(FillSpec { paint: Paint::Color(Rgb { red: 9, green: 8, blue: 7 }), opacity: 0.75f64.to_bits() });
    let s = resolve(&fill, &None, false);
    let f = s.fill.unwrap();
    assert_eq!(f.color, Rgb { red: 9, green: 8, blue: 7 });
    assert_eq!(f64::from_bits(f.opacity), 0.75);
    assert_eq!(s.stroke, None);
    assert_eq!(s.variant, ShapeVariant::Fill);
}

#[test]
fn root_is_sized_without_children() {
    let root = DocumentNode::Root { width: 100.0f64.to_bits(), height: 50.0f64.to_bits(), children: vec![] };
    match convert(&root, &no_curves) {
        Some(Primitive::Container(c)) => {
            assert_eq!(c.size, Some((100.0f64.to_bits(), 50.0f64.to_bits())));
            assert!(c.children.is_empty());
            assert_eq!(c.placement, None);
            assert_eq!(c.opacity, None);
        }
        _ => panic!("expected a container"),
    }
}

#[test]
fn root_is_sized_with_only_unsupported_children() {
    let root = DocumentNode::Root {
        width: 100.0f64.to_bits(),
        height: 50.0f64.to_bits(),
        children: vec![DocumentNode::Unsupported, DocumentNode::Unsupported],
    };
    match convert(&root, &no_curves) {
        Some(Primitive::Container(c)) => {
            assert_eq!(c.size, Some((100.0f64.to_bits(), 50.0f64.to_bits())));
            assert!(c.children.is_empty());
        }
        _ => panic!("expected a container"),
    }
}

#[test]
fn unsupported_node_gives_nothing() {
    assert!(convert(&DocumentNode::Unsupported, &no_curves).is_none());
}

#[test]
fn group_keeps_order_and_attributes() {
    let group = DocumentNode::Group {
        placement: placement(),
        opacity: 0.5f64.to_bits(),
        children: vec![
            DocumentNode::Path(path(vec![Segment::MoveTo(pt(0.0, 0.0)), Segment::LineTo(pt(1.0, 1.0))])),
            DocumentNode::Unsupported,
            DocumentNode::Group { placement: placement(), opacity: 1.0f64.to_bits(), children: vec![] },
        ],
    };
    match convert(&group, &no_curves) {
        Some(Primitive::Container(c)) => {
            assert_eq!(c.size, None);
            assert_eq!(c.placement, Some(placement()));
            assert_eq!(c.opacity, Some(0.5f64.to_bits()));
            assert_eq!(c.children.len(), 2);
            match &c.children[0] {
                Primitive::Container(p) => {
                    assert_eq!(p.visible, Some(true));
                    assert_eq!(p.children.len(), 1);
                }
                _ => panic!("expected the path's container"),
            }
            match &c.children[1] {
                Primitive::Container(g) => {
                    assert_eq!(g.opacity, Some(1.0f64.to_bits()));
                    assert!(g.children.is_empty());
                }
                _ => panic!("expected the inner group's container"),
            }
        }
        _ => panic!("expected a container"),
    }
}

#[test]
fn asset_names() {
    assert!(!is_plain_asset_name("../../etc/passwd"));
    assert!(!is_plain_asset_name("/etc/passwd"));
    assert!(is_plain_asset_name("icons/gear"));
    assert!(is_plain_asset_name("./icons/gear"));
    assert!(!is_plain_asset_name("icons/../gear"));
    assert!(!is_plain_asset_name(".."));
    assert!(is_plain_asset_name("icons/..gear"));
}
