//! Splitting a path's flat segment stream into vertex loops, one per subpath.
//!
//! The stream is read through a cursor with one segment of lookahead. A
//! cubic curve needs floating-point evaluation, which this crate leaves to
//! its caller: when a run reaches a curve that has a point to start from, the
//! extraction stops and hands back a [`CurveRequest`]; the caller flattens
//! the curve and resumes the run with [`Tessellator::continue_with_curve`].
use vstd::prelude::*;
use crate::geometry::{Point, point_eq, points_equal};

verus! {

/// One segment of a path, in absolute coordinates.
#[derive(Clone, Copy, Debug)]
pub enum Segment {
    MoveTo(Point),
    LineTo(Point),
    /// First control point, second control point, end point.
    CurveTo(Point, Point, Point),
    ClosePath,
}

/// The vertices of one subpath, and whether it is closed. A closed loop does
/// not repeat its first vertex at the end.
#[derive(Debug)]
pub struct VertexLoop {
    pub vertices: Vec<Point>,
    pub is_closed: bool,
}

/// A cubic curve that the caller must flatten before the run goes on.
#[derive(Clone, Copy, Debug)]
pub struct CurveRequest {
    pub start: Point,
    pub ctrl1: Point,
    pub ctrl2: Point,
    pub end: Point,
}

/// The result of one extraction step.
#[derive(Debug)]
pub enum Extraction {
    /// The run is over; the cursor stands at the start of the next one.
    Finished(VertexLoop),
    /// The run reached a curve; it goes on after the caller has flattened it.
    Flatten(CurveRequest),
}

/// Why a scan of a run stopped.
pub enum ScanStop {
    Open,
    Closed,
    Curve,
}

/// The vertices kept for a closed loop: a last vertex equal to the first is
/// dropped, since the closing edge is implicit.
pub open spec fn close_vertices(v: Seq<Point>) -> Seq<Point> {
    if v.len() > 0 && point_eq(v[0], v.last()) {
        v.drop_last()
    } else {
        v
    }
}

/// Reads segments from `pos` on, appending to `cur`, up to the next `MoveTo`
/// (left unread), the end of the stream, a `ClosePath` (read), or a curve
/// that has a start point (read). Returns the vertices, the position after
/// the last segment read, and why it stopped.
pub open spec fn scan(segs: Seq<Segment>, pos: int, cur: Seq<Point>) -> (Seq<Point>, int, ScanStop)
    decreases segs.len() - pos,
{
    if pos < 0 || pos >= segs.len() {
        (cur, pos, ScanStop::Open)
    } else {
        match segs[pos] {
            Segment::MoveTo(_) => (cur, pos, ScanStop::Open),
            Segment::LineTo(p) => scan(segs, pos + 1, cur.push(p)),
            Segment::CurveTo(_, _, _) => if cur.len() > 0 {
                (cur, pos + 1, ScanStop::Curve)
            } else {
                scan(segs, pos + 1, cur)
            },
            Segment::ClosePath => (close_vertices(cur), pos + 1, ScanStop::Closed),
        }
    }
}

/// Where a run that starts at `pos` begins its scan: after a leading `MoveTo`.
pub open spec fn run_body_start(segs: Seq<Segment>, pos: int) -> int {
    if 0 <= pos < segs.len() && segs[pos] is MoveTo {
        pos + 1
    } else {
        pos
    }
}

/// The vertices a run that starts at `pos` is seeded with: the point of a
/// leading `MoveTo`, else none.
pub open spec fn run_seed(segs: Seq<Segment>, pos: int) -> Seq<Point> {
    if 0 <= pos < segs.len() && segs[pos] is MoveTo {
        seq![segs[pos]->MoveTo_0]
    } else {
        seq![]
    }
}

/// The curve request for the curve segment just before `pos`, starting at
/// the last of the vertices `v`.
pub open spec fn request_before(segs: Seq<Segment>, pos: int, v: Seq<Point>) -> CurveRequest {
    CurveRequest {
        start: v.last(),
        ctrl1: segs[pos - 1]->CurveTo_0,
        ctrl2: segs[pos - 1]->CurveTo_1,
        end: segs[pos - 1]->CurveTo_2,
    }
}

/// What an extraction returns, and the cursor state it leaves, for a scan
/// that ended with the vertices `v` at position `p` for the reason `stop`.
pub open spec fn step_result(
    segs: Seq<Segment>,
    v: Seq<Point>,
    p: int,
    stop: ScanStop,
    r: Extraction,
    after: Tessellator,
) -> bool {
    &&& after.segments@ == segs
    &&& after.pos == p
    &&& match stop {
        ScanStop::Curve => {
            &&& r is Flatten
            &&& r->Flatten_0 == request_before(segs, p, v)
            &&& after.current@ == v
        },
        ScanStop::Open => {
            &&& r is Finished
            &&& r->Finished_0.vertices@ == v
            &&& !r->Finished_0.is_closed
            &&& after.current@ == Seq::<Point>::empty()
        },
        ScanStop::Closed => {
            &&& r is Finished
            &&& r->Finished_0.vertices@ == v
            &&& r->Finished_0.is_closed
            &&& after.current@ == Seq::<Point>::empty()
        },
    }
}

/// A cursor over a path's segments, with the vertices of the run in progress.
pub struct Tessellator {
    pub segments: Vec<Segment>,
    pub pos: usize,
    pub current: Vec<Point>,
}

impl Tessellator {
    /// The cursor stands within the stream, or just past its end.
    pub open spec fn wf(&self) -> bool {
        self.pos <= self.segments@.len()
    }

    /// A cursor at the first segment, with no run in progress.
    pub fn new(segments: Vec<Segment>) -> (r: Tessellator)
        ensures
            r.wf(),
            r.segments@ == segments@,
            r.pos == 0,
            r.current@ == Seq::<Point>::empty(),
    {
        Tessellator { segments, pos: 0, current: Vec::new() }
    }

    /// Whether segments are left to read.
    pub fn has_more(&self) -> (r: bool)
        requires
            self.wf(),
        ensures
            r == (self.pos < self.segments@.len()),
    {
        self.pos < self.segments.len()
    }

    /// The position of the next unread segment.
    pub fn position(&self) -> (r: usize)
        ensures
            r == self.pos,
    {
        self.pos
    }

    /// Begins the next run: reads a leading `MoveTo` as its first vertex, then
    /// goes on as [`Tessellator::continue_with_curve`] does after a curve.
    pub fn extract_vertices(&mut self) -> (r: Extraction)
        requires
            old(self).wf(),
        ensures
            final(self).wf(),
            ({
                let segs = old(self).segments@;
                let (v, p, stop) = scan(
                    segs,
                    run_body_start(segs, old(self).pos as int),
                    run_seed(segs, old(self).pos as int),
                );
                step_result(segs, v, p, stop, r, *final(self))
            }),
    {
        self.current = Vec::new();
        if self.pos < self.segments.len() {
            if let Segment::MoveTo(p) = self.segments[self.pos] {
                self.current.push(p);
                self.pos = self.pos + 1;
            }
        }
        proof {
            assert(self.current@ =~= run_seed(old(self).segments@, old(self).pos as int));
        }
        self.scan_run()
    }

    /// Resumes a run that stopped at a curve, with the curve's flattened
    /// points: all but the first, which repeats the run's last vertex, are
    /// appended, and the run goes on.
    pub fn continue_with_curve(&mut self, points: Vec<Point>) -> (r: Extraction)
        requires
            old(self).wf(),
        ensures
            final(self).wf(),
            ({
                let segs = old(self).segments@;
                let cur = if points@.len() > 0 {
                    old(self).current@ + points@.skip(1)
                } else {
                    old(self).current@
                };
                let (v, p, stop) = scan(segs, old(self).pos as int, cur);
                step_result(segs, v, p, stop, r, *final(self))
            }),
    {
        let mut i: usize = 1;
        let ghost start = self.current@;
        while i < points.len()
            invariant
                old(self).wf(),
                self.segments@ == old(self).segments@,
                self.pos == old(self).pos,
                1 <= i,
                points@.len() > 0 ==> i <= points@.len(),
                points@.len() > 0 ==> self.current@ == start + points@.subrange(1, i as int),
                points@.len() == 0 ==> self.current@ == start,
            decreases points@.len() - i,
        {
            self.current.push(points[i]);
            i = i + 1;
            proof {
                assert(self.current@ =~= start + points@.subrange(1, i as int));
            }
        }
        proof {
            if points@.len() > 0 {
                assert(points@.subrange(1, points@.len() as int) =~= points@.skip(1));
            }
        }
        self.scan_run()
    }

    /// Scans from the cursor with the vertices of the run in progress.
    fn scan_run(&mut self) -> (r: Extraction)
        requires
            old(self).wf(),
        ensures
            final(self).wf(),
            ({
                let segs = old(self).segments@;
                let (v, p, stop) = scan(segs, old(self).pos as int, old(self).current@);
                step_result(segs, v, p, stop, r, *final(self))
            }),
    {
        let ghost segs = self.segments@;
        let ghost goal = scan(segs, self.pos as int, self.current@);
        while self.pos < self.segments.len() && !is_move_to(&self.segments[self.pos])
            invariant
                self.wf(),
                self.segments@ == segs,
                segs == old(self).segments@,
                goal == scan(segs, old(self).pos as int, old(self).current@),
                scan(segs, self.pos as int, self.current@) == goal,
            decreases segs.len() - self.pos,
        {
            match self.segments[self.pos] {
                // The loop condition stops before a `MoveTo`.
                Segment::MoveTo(_) => {},
                Segment::LineTo(p) => {
                    self.current.push(p);
                    self.pos = self.pos + 1;
                },
                Segment::CurveTo(c1, c2, e) => {
                    self.pos = self.pos + 1;
                    if self.current.len() > 0 {
                        let start = self.current[self.current.len() - 1];
                        return Extraction::Flatten(
                            CurveRequest { start, ctrl1: c1, ctrl2: c2, end: e },
                        );
                    }
                },
                Segment::ClosePath => {
                    self.pos = self.pos + 1;
                    let mut vertices = Vec::new();
                    std::mem::swap(&mut vertices, &mut self.current);
                    let closed = close_loop(vertices);
                    return Extraction::Finished(closed);
                },
            }
        }
        let mut vertices = Vec::new();
        std::mem::swap(&mut vertices, &mut self.current);
        Extraction::Finished(VertexLoop { vertices, is_closed: false })
    }
}

/// Whether the segment starts a new subpath.
pub fn is_move_to(s: &Segment) -> (r: bool)
    ensures
        r == (*s is MoveTo),
{
    match s {
        Segment::MoveTo(_) => true,
        _ => false,
    }
}

/// Makes a closed loop of a run's vertices, dropping a last vertex that
/// equals the first.
pub fn close_loop(vertices: Vec<Point>) -> (r: VertexLoop)
    ensures
        r.is_closed,
        r.vertices@ == close_vertices(vertices@),
{
    let mut vertices = vertices;
    let n = vertices.len();
    if n > 0 && points_equal(&vertices[0], &vertices[n - 1]) {
        vertices.pop();
    }
    VertexLoop { vertices, is_closed: true }
}

/// A closed run whose vertices begin and end with equal points keeps one
/// vertex fewer: the duplicate at the end is dropped, the rest is kept.
pub proof fn lemma_closing_drops_duplicate(v: Seq<Point>)
    requires
        v.len() > 0,
        point_eq(v[0], v.last()),
    ensures
        close_vertices(v).len() == v.len() - 1,
        close_vertices(v) == v.subrange(0, v.len() - 1),
{
}

/// The scan of the run that starts at `pos`, from its seed on.
pub open spec fn run_scan(segs: Seq<Segment>, pos: int) -> (Seq<Point>, int, ScanStop) {
    scan(segs, run_body_start(segs, pos), run_seed(segs, pos))
}

/// Where the body of a run that starts its scan at `pos` ends, and whether a
/// `ClosePath` ended it; the vertices and curves read on the way do not
/// matter.
pub open spec fn body_end(segs: Seq<Segment>, pos: int) -> (int, bool)
    decreases segs.len() - pos,
{
    if pos < 0 || pos >= segs.len() {
        (pos, false)
    } else {
        match segs[pos] {
            Segment::MoveTo(_) => (pos, false),
            Segment::ClosePath => (pos + 1, true),
            _ => body_end(segs, pos + 1),
        }
    }
}

/// The position after the run that starts at `pos`.
pub open spec fn run_end(segs: Seq<Segment>, pos: int) -> int {
    body_end(segs, run_body_start(segs, pos)).0
}

/// Whether the run that starts at `pos` is closed.
pub open spec fn run_closed(segs: Seq<Segment>, pos: int) -> bool {
    body_end(segs, run_body_start(segs, pos)).1
}

/// The number of runs from `pos` to the end of the stream.
pub open spec fn count_runs(segs: Seq<Segment>, pos: int) -> nat
    decreases segs.len() - pos,
{
    if pos < 0 || pos >= segs.len() || run_end(segs, pos) <= pos || run_end(segs, pos) > segs.len() {
        0
    } else {
        1 + count_runs(segs, run_end(segs, pos))
    }
}

/// Where the `k`-th run of the stream starts.
pub open spec fn run_start(segs: Seq<Segment>, k: nat) -> int
    decreases k,
{
    if k == 0 {
        0
    } else {
        run_end(segs, run_start(segs, (k - 1) as nat))
    }
}

proof fn lemma_body_end_bounds(segs: Seq<Segment>, pos: int)
    requires
        0 <= pos <= segs.len(),
    ensures
        pos <= body_end(segs, pos).0 <= segs.len(),
        pos < segs.len() && !(segs[pos] is MoveTo) ==> pos < body_end(segs, pos).0,
    decreases segs.len() - pos,
{
    if pos < segs.len() {
        match segs[pos] {
            Segment::MoveTo(_) => {},
            Segment::ClosePath => {},
            _ => lemma_body_end_bounds(segs, pos + 1),
        }
    }
}

/// A run that starts within the stream reads at least one segment, and
/// stays within the stream.
proof fn lemma_run_progress(segs: Seq<Segment>, pos: int)
    requires
        0 <= pos < segs.len(),
    ensures
        pos < run_end(segs, pos) <= segs.len(),
{
    lemma_body_end_bounds(segs, run_body_start(segs, pos));
}

/// A scan that stops at a curve leaves the rest of the body as it was; one
/// that stops otherwise ends where the body ends.
proof fn lemma_scan_follows_body(segs: Seq<Segment>, pos: int, cur: Seq<Point>)
    requires
        0 <= pos <= segs.len(),
    ensures
        ({
            let (v, p, stop) = scan(segs, pos, cur);
            match stop {
                ScanStop::Curve => pos < p <= segs.len() && body_end(segs, p) == body_end(segs, pos),
                ScanStop::Open => body_end(segs, pos) == (p, false),
                ScanStop::Closed => body_end(segs, pos) == (p, true),
            }
        }),
    decreases segs.len() - pos,
{
    if pos < segs.len() {
        match segs[pos] {
            Segment::LineTo(p) => lemma_scan_follows_body(segs, pos + 1, cur.push(p)),
            Segment::CurveTo(_, _, _) => {
                if cur.len() == 0 {
                    lemma_scan_follows_body(segs, pos + 1, cur);
                }
            },
            _ => {},
        }
    }
}

/// Splits a path's segments into its vertex loops, one per run, in order.
/// Each curve with a point to start from is handed to `flatten`.
pub fn tessellate_path<F: Fn(CurveRequest) -> Vec<Point>>(segments: Vec<Segment>, flatten: &F) -> (r:
    Vec<VertexLoop>)
    requires
        forall|c: CurveRequest| flatten.requires((c,)),
    ensures
        r@.len() == count_runs(segments@, 0),
        forall|k: int|
            0 <= k < r@.len() ==> #[trigger] r@[k].is_closed == run_closed(
                segments@,
                run_start(segments@, k as nat),
            ),
        forall|k: int|
            0 <= k < r@.len() && !(run_scan(segments@, run_start(segments@, k as nat)).2 is Curve)
                ==> #[trigger] r@[k].vertices@ == run_scan(segments@, run_start(segments@, k as nat)).0,
{
    let ghost segs = segments@;
    let mut tess = Tessellator::new(segments);
    let mut loops: Vec<VertexLoop> = Vec::new();
    while tess.has_more()
        invariant
            tess.wf(),
            tess.segments@ == segs,
            forall|c: CurveRequest| flatten.requires((c,)),
            tess.pos == run_start(segs, loops@.len() as nat),
            count_runs(segs, 0) == loops@.len() + count_runs(segs, tess.pos as int),
            forall|k: int|
                0 <= k < loops@.len() ==> #[trigger] loops@[k].is_closed == run_closed(
                    segs,
                    run_start(segs, k as nat),
                ),
            forall|k: int|
                0 <= k < loops@.len() && !(run_scan(segs, run_start(segs, k as nat)).2 is Curve)
                    ==> #[trigger] loops@[k].vertices@ == run_scan(segs, run_start(segs, k as nat)).0,
        decreases segs.len() - tess.pos,
    {
        let ghost start = tess.pos as int;
        let ghost body = body_end(segs, run_body_start(segs, start));
        proof {
            lemma_run_progress(segs, start);
            lemma_scan_follows_body(segs, run_body_start(segs, start), run_seed(segs, start));
        }
        let mut step = tess.extract_vertices();
        loop
            invariant
                tess.wf(),
                tess.segments@ == segs,
                forall|c: CurveRequest| flatten.requires((c,)),
                step is Flatten ==> start < tess.pos && body_end(segs, tess.pos as int) == body,
                step is Finished ==> tess.pos == body.0 && step->Finished_0.is_closed == body.1,
                !(run_scan(segs, start).2 is Curve) ==> step is Finished && step->Finished_0.vertices@
                    == run_scan(segs, start).0,
            ensures
                step is Finished,
            decreases segs.len() - tess.pos + if step is Flatten {
                1int
            } else {
                0int
            },
        {
            let req = match &step {
                Extraction::Flatten(req) => *req,
                Extraction::Finished(_) => {
                    break ;
                },
            };
            let points = flatten(req);
            proof {
                let cur = if points@.len() > 0 {
                    tess.current@ + points@.skip(1)
                } else {
                    tess.current@
                };
                lemma_scan_follows_body(segs, tess.pos as int, cur);
                lemma_body_end_bounds(segs, tess.pos as int);
            }
            step = tess.continue_with_curve(points);
        }
        match step {
            Extraction::Finished(l) => {
                loops.push(l);
            },
            Extraction::Flatten(_) => {},
        }
    }
    loops
}

} // verus!
