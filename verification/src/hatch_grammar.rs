//! The grammar of the boundary paths and pattern lines of a hatch.
//!
//! Codes: 92 path type, 72 has-bulge hint of a polyline and type of an
//! edge, 73 closed flag of a polyline and direction of an arc, 93 number of
//! vertices or edges, 42 bulge of a vertex and weight of a control point, 97
//! number of source objects, 330 handle of a source object, 53 angle of a
//! pattern line, 43 to 46 its base point and offset, 79 its number of
//! dashes, 49 a dash length.

use vstd::prelude::*;
use crate::code_pair::CodePair;
use crate::double::Double;
use crate::enums::{BoundaryEdgeType, BoundaryPathType};
use crate::error::{DxfError, DxfResult};
use crate::grammar::{
    count_of, decoded, f64_step, failed, lemma_repeat_failed, lemma_repeat_len, repeat,
    take_coded_i32, take_f64, take_i16, take_i32, take_optional_f64, take_optional_flag,
    take_pair, Decoded, Input,
};
use crate::hatch::{
    BoundaryPathView, EdgeBoundaryView, EdgeCircularArcData, EdgeEllipticArcData, EdgeLineData,
    EdgePathView, EdgeSplineView, HatchPatternBoundaryView, HatchPatternLineView,
    HatchPolylineVertex, PolylineBoundaryView,
};
use crate::point::{Point, Vector};

verus! {

/// A line edge: the four coordinates of its two ends.
#[verifier::opaque]
pub open spec fn take_line(s: Input) -> Decoded<EdgeLineData> {
    repeat(f64_step(), s, 4).map(
        |v: Seq<Double>|
            EdgeLineData { p1: Point::planar(v[0], v[1]), p2: Point::planar(v[2], v[3]) },
    )
}

/// The direction flag that ends an arc: a pair with code 73 if one is
/// next, and clockwise otherwise.
pub open spec fn take_direction(s: Input) -> Decoded<bool> {
    take_optional_flag(s, 73).map(
        |flag: Option<bool>|
            match flag {
                Some(is_counter_clockwise) => is_counter_clockwise,
                None => false,
            },
    )
}

/// A circular arc: centre, radius, start and end angle, and the direction
/// flag if it is there.
#[verifier::opaque]
pub open spec fn take_circular_arc(s: Input) -> Decoded<EdgeCircularArcData> {
    repeat(f64_step(), s, 5).and_then(
        |v: Seq<Double>, s: Input|
            take_direction(s).map(
                |is_counter_clockwise: bool|
                    EdgeCircularArcData {
                        center: Point::planar(v[0], v[1]),
                        radius: v[2],
                        start_angle: v[3],
                        end_angle: v[4],
                        is_counter_clockwise,
                    },
            ),
    )
}

/// A circular arc whose five fields are not followed by a direction flag
/// is read as clockwise, and the pair behind the fields stays in the input.
pub proof fn lemma_circular_arc_without_direction(s: Input)
    requires
        repeat(f64_step(), s, 5).result is Ok,
        repeat(f64_step(), s, 5).rest.len() > 0,
        repeat(f64_step(), s, 5).rest[0] is Ok,
        repeat(f64_step(), s, 5).rest[0]->Ok_0.code != 73,
    ensures
        take_circular_arc(s).result is Ok,
        !take_circular_arc(s).result->Ok_0.is_counter_clockwise,
        take_circular_arc(s).rest == repeat(f64_step(), s, 5).rest,
{
    reveal(take_circular_arc);
}

/// An elliptic arc: centre, major axis, ratio of the axes, start and end
/// angle, and the direction flag if it is there.
#[verifier::opaque]
pub open spec fn take_elliptic_arc(s: Input) -> Decoded<EdgeEllipticArcData> {
    repeat(f64_step(), s, 7).and_then(
        |v: Seq<Double>, s: Input|
            take_direction(s).map(
                |is_counter_clockwise: bool|
                    EdgeEllipticArcData {
                        center: Point::planar(v[0], v[1]),
                        major_axis: Vector::planar(v[2], v[3]),
                        minor_axis_ratio: v[4],
                        start_angle: v[5],
                        end_angle: v[6],
                        is_counter_clockwise,
                    },
            ),
    )
}

/// A control point of a spline: its two coordinates, and its weight if a
/// pair with code 42 follows.
pub open spec fn take_control_point(s: Input) -> Decoded<(Point, Option<Double>)> {
    take_f64(s).and_then(
        |x: Double, s: Input|
            take_f64(s).and_then(
                |y: Double, s: Input|
                    take_optional_f64(s, 42).map(
                        |weight: Option<Double>| (Point::planar(x, y), weight),
                    ),
            ),
    )
}

/// The step that reads one control point.
pub open spec fn control_point_step() -> spec_fn(Input) -> Decoded<(Point, Option<Double>)> {
    |s: Input| take_control_point(s)
}

/// A fit point of a spline: its two coordinates.
pub open spec fn take_fit_point(s: Input) -> Decoded<Point> {
    take_f64(s).and_then(
        |x: Double, s: Input| take_f64(s).map(|y: Double| Point::planar(x, y)),
    )
}

/// The step that reads one fit point.
pub open spec fn fit_point_step() -> spec_fn(Input) -> Decoded<Point> {
    |s: Input| take_fit_point(s)
}

/// The five fields that lead a spline edge.
pub struct SplineHeader {
    pub degree: i16,
    pub is_rational: bool,
    pub is_periodic: bool,
    /// The declared number of knots.
    pub knot_count: i32,
    /// The declared number of control points.
    pub control_point_count: i32,
}

/// The leading fields of a spline edge: degree, rational flag, periodic
/// flag, number of knots, number of control points.
pub open spec fn take_spline_header(s: Input) -> Decoded<SplineHeader> {
    take_i16(s).and_then(
        |degree: i16, s: Input|
            take_i16(s).and_then(
                |rational: i16, s: Input|
                    take_i16(s).and_then(
                        |periodic: i16, s: Input|
                            take_i32(s).and_then(
                                |knot_count: i32, s: Input|
                                    take_i32(s).map(
                                        |control_point_count: i32|
                                            SplineHeader {
                                                degree,
                                                is_rational: rational != 0,
                                                is_periodic: periodic != 0,
                                                knot_count,
                                                control_point_count,
                                            },
                                    ),
                            ),
                    ),
            ),
    )
}

/// What of a spline edge stands before its fit points.
pub struct SplineControls {
    pub header: SplineHeader,
    pub knots: Seq<Double>,
    pub control_points: Seq<(Point, Option<Double>)>,
    /// The declared number of fit points.
    pub fit_point_count: i32,
}

/// A spline edge up to its fit points: its leading fields, as many knots
/// and control points as they declare, and the number of fit points.
pub open spec fn take_spline_controls(s: Input) -> Decoded<SplineControls> {
    take_spline_header(s).and_then(
        |header: SplineHeader, s: Input|
            repeat(f64_step(), s, count_of(header.knot_count)).and_then(
                |knots: Seq<Double>, s: Input|
                    repeat(control_point_step(), s, count_of(header.control_point_count)).and_then(
                        |control_points: Seq<(Point, Option<Double>)>, s: Input|
                            take_i32(s).map(
                                |fit_point_count: i32|
                                    SplineControls {
                                        header,
                                        knots,
                                        control_points,
                                        fit_point_count,
                                    },
                            ),
                    ),
            ),
    )
}

/// A spline edge: what stands before its fit points, as many fit points
/// as declared, and the two components of each of its end tangents.
#[verifier::opaque]
pub open spec fn take_spline(s: Input) -> Decoded<EdgeSplineView> {
    take_spline_controls(s).and_then(
        |c: SplineControls, s: Input|
            repeat(fit_point_step(), s, count_of(c.fit_point_count)).and_then(
                |fit_points: Seq<Point>, s: Input|
                    repeat(f64_step(), s, 4).map(
                        |t: Seq<Double>|
                            EdgeSplineView {
                                degree: c.header.degree,
                                is_rational: c.header.is_rational,
                                is_periodic: c.header.is_periodic,
                                knots: c.knots,
                                weights: c.control_points.map_values(
                                    |p: (Point, Option<Double>)| p.1,
                                ),
                                control_points: c.control_points.map_values(
                                    |p: (Point, Option<Double>)| p.0,
                                ),
                                fit_points,
                                start_tangent: Vector::planar(t[0], t[1]),
                                end_tangent: Vector::planar(t[2], t[3]),
                            },
                    ),
            ),
    )
}

/// A spline that was read has as many knots, control points and fit points
/// as its fields declared, and a weight entry for each control point.
pub proof fn lemma_spline_counts(s: Input)
    requires
        take_spline(s).result is Ok,
    ensures
        take_spline_controls(s).result is Ok,
        ({
            let spline = take_spline(s).result->Ok_0;
            let declared = take_spline_controls(s).result->Ok_0;
            &&& spline.knots.len() == count_of(declared.header.knot_count)
            &&& spline.control_points.len() == count_of(declared.header.control_point_count)
            &&& spline.weights.len() == spline.control_points.len()
            &&& spline.fit_points.len() == count_of(declared.fit_point_count)
        }),
{
    reveal(take_spline);
    let controls = take_spline_controls(s);
    let header = take_spline_header(s);
    let h = header.result->Ok_0;
    let c = controls.result->Ok_0;
    lemma_repeat_len(f64_step(), header.rest, count_of(h.knot_count));
    let knots = repeat(f64_step(), header.rest, count_of(h.knot_count));
    lemma_repeat_len(control_point_step(), knots.rest, count_of(h.control_point_count));
    lemma_repeat_len(fit_point_step(), controls.rest, count_of(c.fit_point_count));
}

/// One edge: its type, then the fields of an edge of that type. A type
/// number that stands for no type is taken as a line.
pub open spec fn take_edge(s: Input) -> Decoded<EdgePathView> {
    take_i16(s).and_then(
        |n: i16, s: Input|
            match BoundaryEdgeType::spec_decode(n) {
                BoundaryEdgeType::Line => take_line(s).map(
                    |line: EdgeLineData| EdgePathView::Line(line),
                ),
                BoundaryEdgeType::CircularArc => take_circular_arc(s).map(
                    |arc: EdgeCircularArcData| EdgePathView::CircularArc(arc),
                ),
                BoundaryEdgeType::EllipticArc => take_elliptic_arc(s).map(
                    |arc: EdgeEllipticArcData| EdgePathView::EllipticArc(arc),
                ),
                BoundaryEdgeType::Spline => take_spline(s).map(
                    |spline: EdgeSplineView| EdgePathView::Spline(spline),
                ),
            },
    )
}

/// The step that reads one edge.
pub open spec fn edge_step() -> spec_fn(Input) -> Decoded<EdgePathView> {
    |s: Input| take_edge(s)
}

/// A boundary path in edges: the number of edges, which a pair with code
/// 93 gives, then that many edges. Another code in place of the number is an
/// error, and its pair stays in the input.
#[verifier::opaque]
pub open spec fn take_edge_boundary(s: Input) -> Decoded<EdgeBoundaryView> {
    take_coded_i32(s, 93).and_then(
        |edge_count: i32, s: Input|
            repeat(edge_step(), s, count_of(edge_count)).map(
                |edges: Seq<EdgePathView>| EdgeBoundaryView { edges },
            ),
    )
}

/// A boundary path in edges that was read has as many edges as its first
/// field declared.
pub proof fn lemma_edge_count(s: Input)
    requires
        take_edge_boundary(s).result is Ok,
    ensures
        take_coded_i32(s, 93).result is Ok,
        take_edge_boundary(s).result->Ok_0.edges.len() == count_of(
            take_coded_i32(s, 93).result->Ok_0,
        ),
{
    reveal(take_edge_boundary);
    let declared = take_coded_i32(s, 93);
    lemma_repeat_len(edge_step(), declared.rest, count_of(declared.result->Ok_0));
}

/// The fields that lead a polyline boundary, up to the number of vertices:
/// has-bulge hints (code 72), which are passed over, closed flags (code
/// 73), of which the last one counts, and the number itself (code 93),
/// which ends them. Another code is an error, and its pair stays in the
/// input. `is_closed` is the closed flag as read so far.
pub open spec fn take_polyline_header(s: Input, is_closed: bool) -> Decoded<(bool, i32)>
    decreases s.len(),
{
    let pair = take_pair(s);
    match pair.result {
        Ok(p) => if p.code == 93 {
            match p.spec_i32() {
                Ok(vertex_count) => decoded((is_closed, vertex_count), pair.rest),
                Err(error) => failed(error, pair.rest),
            }
        } else if p.code == 72 {
            take_polyline_header(pair.rest, is_closed)
        } else if p.code == 73 {
            match p.spec_i16() {
                Ok(flag) => take_polyline_header(pair.rest, flag != 0),
                Err(error) => failed(error, pair.rest),
            }
        } else {
            failed(DxfError::UnexpectedCode(p.code, 0), s)
        },
        Err(error) => failed(error, pair.rest),
    }
}

/// A vertex of a polyline: its two coordinates, and its bulge if a pair
/// with code 42 follows; without one the bulge is 0.
pub open spec fn take_vertex(s: Input) -> Decoded<HatchPolylineVertex> {
    take_f64(s).and_then(
        |x: Double, s: Input|
            take_f64(s).and_then(
                |y: Double, s: Input|
                    take_optional_f64(s, 42).map(
                        |bulge: Option<Double>|
                            HatchPolylineVertex {
                                x,
                                y,
                                bulge: match bulge {
                                    Some(b) => b,
                                    None => Double::spec_zero(),
                                },
                            },
                    ),
            ),
    )
}

/// The step that reads one vertex.
pub open spec fn vertex_step() -> spec_fn(Input) -> Decoded<HatchPolylineVertex> {
    |s: Input| take_vertex(s)
}

/// A boundary path in vertices: the leading fields, then as many vertices
/// as they declare. Where they declare none, there is no path.
#[verifier::opaque]
pub open spec fn take_polyline_boundary(s: Input) -> Decoded<Option<PolylineBoundaryView>> {
    take_polyline_header(s, false).and_then(
        |header: (bool, i32), s: Input|
            if header.1 > 0 {
                repeat(vertex_step(), s, count_of(header.1)).map(
                    |vertices: Seq<HatchPolylineVertex>|
                        Some(PolylineBoundaryView { is_closed: header.0, vertices }),
                )
            } else {
                decoded(None, s)
            },
    )
}

/// A polyline boundary that was read has as many vertices as its leading
/// fields declared; where they declared none, no path was read.
pub proof fn lemma_polyline_vertex_count(s: Input)
    requires
        take_polyline_boundary(s).result is Ok,
    ensures
        take_polyline_header(s, false).result is Ok,
        ({
            let declared = take_polyline_header(s, false).result->Ok_0.1;
            match take_polyline_boundary(s).result->Ok_0 {
                Some(polyline) => declared > 0 && polyline.vertices.len() == declared,
                None => declared <= 0,
            }
        }),
{
    reveal(take_polyline_boundary);
    let header = take_polyline_header(s, false);
    let declared = header.result->Ok_0.1;
    if declared > 0 {
        lemma_repeat_len(vertex_step(), header.rest, count_of(declared));
    }
}

/// A polyline boundary whose input ends after `k` vertices, fewer than its
/// leading fields declare, is not read: the input ended too early.
pub proof fn lemma_polyline_truncated(s: Input, k: nat)
    requires
        take_polyline_header(s, false).result is Ok,
        k < take_polyline_header(s, false).result->Ok_0.1,
        repeat(vertex_step(), take_polyline_header(s, false).rest, k).result is Ok,
        repeat(vertex_step(), take_polyline_header(s, false).rest, k).rest.len() == 0,
    ensures
        take_polyline_boundary(s).result == Err::<Option<PolylineBoundaryView>, DxfError>(
            DxfError::UnexpectedEndOfInput,
        ),
{
    reveal(take_polyline_boundary);
    let header = take_polyline_header(s, false);
    lemma_repeat_failed(vertex_step(), header.rest, k + 1, count_of(header.result->Ok_0.1));
}

/// The handle of one source object: a pair with code 330, whatever its
/// value. Another code is an error, and its pair stays in the input.
pub open spec fn take_source_object(s: Input) -> Decoded<()> {
    let pair = take_pair(s);
    match pair.result {
        Ok(p) => if p.code == 330 {
            decoded((), pair.rest)
        } else {
            failed(DxfError::UnexpectedCode(p.code, 0), s)
        },
        Err(error) => failed(error, pair.rest),
    }
}

/// The step that reads the handle of one source object.
pub open spec fn source_object_step() -> spec_fn(Input) -> Decoded<()> {
    |s: Input| take_source_object(s)
}

/// The source objects of a boundary path, which may be missing: where the
/// next pair has code 97, it gives their number and that many handles
/// follow; where it has another code, it stays in the input.
pub open spec fn take_source_objects(s: Input) -> Decoded<()> {
    let pair = take_pair(s);
    match pair.result {
        Ok(p) => if p.code == 97 {
            match p.spec_i32() {
                Ok(object_count) => repeat(
                    source_object_step(),
                    pair.rest,
                    count_of(object_count),
                ).map(|handles: Seq<()>| ()),
                Err(error) => failed(error, pair.rest),
            }
        } else {
            decoded((), s)
        },
        Err(error) => failed(error, pair.rest),
    }
}

/// The type of a boundary path: a pair with code 92 and a 16-bit integer.
/// Another code is an error, and its pair stays in the input. A number that
/// stands for no type is taken as `Default`.
pub open spec fn take_path_type(s: Input) -> Decoded<BoundaryPathType> {
    let pair = take_pair(s);
    match pair.result {
        Ok(p) => if p.code == 92 {
            match p.spec_i16() {
                Ok(n) => decoded(BoundaryPathType::spec_decode(n), pair.rest),
                Err(error) => failed(error, pair.rest),
            }
        } else {
            failed(DxfError::UnexpectedCode(p.code, 0), s)
        },
        Err(error) => failed(error, pair.rest),
    }
}

/// The geometry of a boundary path of the given type: vertices where the
/// type is `Polyline`, edges otherwise. A polyline that declares no vertex
/// gives no path.
pub open spec fn take_path_geometry(path_type: BoundaryPathType, s: Input) -> Decoded<
    Option<BoundaryPathView>,
> {
    if path_type == BoundaryPathType::Polyline {
        take_polyline_boundary(s).map(
            |polyline: Option<PolylineBoundaryView>|
                match polyline {
                    Some(p) => Some(BoundaryPathView::Polyline(p)),
                    None => None,
                },
        )
    } else {
        take_edge_boundary(s).map(|edges: EdgeBoundaryView| Some(BoundaryPathView::Edge(edges)))
    }
}

/// What reading boundary paths comes to: the paths that were added to the
/// hatch, the number of paths that were read to their end, the result, and
/// the input left.
pub struct PathsRead {
    pub added: Seq<HatchPatternBoundaryView>,
    pub completed: nat,
    pub result: DxfResult<()>,
    pub rest: Input,
}

/// One boundary path: its type, its geometry, and its source objects if
/// there are any. The path is added once its geometry is read, before its
/// source objects are.
pub open spec fn take_boundary_path(s: Input) -> PathsRead {
    let path_type = take_path_type(s);
    match path_type.result {
        Ok(t) => {
            let geometry = take_path_geometry(t, path_type.rest);
            match geometry.result {
                Ok(path) => {
                    let objects = take_source_objects(geometry.rest);
                    PathsRead {
                        added: match path {
                            Some(p) => seq![HatchPatternBoundaryView { path_type: t, path: p }],
                            None => Seq::empty(),
                        },
                        completed: if objects.result is Ok {
                            1
                        } else {
                            0
                        },
                        result: objects.result,
                        rest: objects.rest,
                    }
                },
                Err(error) => PathsRead {
                    added: Seq::empty(),
                    completed: 0,
                    result: Err(error),
                    rest: geometry.rest,
                },
            }
        },
        Err(error) => PathsRead {
            added: Seq::empty(),
            completed: 0,
            result: Err(error),
            rest: path_type.rest,
        },
    }
}

/// `n` boundary paths, one after the other. The first error ends the
/// reading; the paths added before it stay.
pub open spec fn take_boundary_paths(s: Input, n: nat) -> PathsRead
    decreases n,
{
    if n == 0 {
        PathsRead { added: Seq::empty(), completed: 0, result: Ok(()), rest: s }
    } else {
        let before = take_boundary_paths(s, (n - 1) as nat);
        match before.result {
            Ok(_) => {
                let last = take_boundary_path(before.rest);
                PathsRead {
                    added: before.added + last.added,
                    completed: before.completed + last.completed,
                    result: last.result,
                    rest: last.rest,
                }
            },
            Err(_) => before,
        }
    }
}

/// Reading that has failed stays as it is, however many more paths are
/// asked for.
pub proof fn lemma_boundary_paths_failed(s: Input, i: nat, n: nat)
    requires
        i <= n,
        take_boundary_paths(s, i).result is Err,
    ensures
        take_boundary_paths(s, n) == take_boundary_paths(s, i),
    decreases n,
{
    if i < n {
        lemma_boundary_paths_failed(s, i, (n - 1) as nat);
    }
}

/// Reading that succeeded has read each of its paths to the end.
pub proof fn lemma_boundary_paths_completed(s: Input, n: nat)
    requires
        take_boundary_paths(s, n).result is Ok,
    ensures
        take_boundary_paths(s, n).completed == n,
    decreases n,
{
    if n > 0 {
        lemma_boundary_paths_completed(s, (n - 1) as nat);
    }
}

/// How far the reading of one pattern line has come.
pub struct PatternLineState {
    /// The line as read so far.
    pub line: HatchPatternLineView,
    /// The number of dashes that the line declares, 0 before it does.
    pub dash_count: i32,
    /// The number of dash lengths read.
    pub dashes_read: int,
    /// The number of pairs read that held one of the six fields each line
    /// must have: angle, base point, offset, number of dashes.
    pub mandatory_fields_read: nat,
}

impl PatternLineState {
    /// The state before the first pair of a line.
    pub open spec fn start() -> PatternLineState {
        PatternLineState {
            line: HatchPatternLineView::empty(),
            dash_count: 0,
            dashes_read: 0,
            mandatory_fields_read: 0,
        }
    }

    /// The state after one more mandatory field, which made the line `line`.
    pub open spec fn with_field(self, line: HatchPatternLineView) -> PatternLineState {
        PatternLineState { line, mandatory_fields_read: self.mandatory_fields_read + 1, ..self }
    }

    /// The state after the number of dashes was read.
    pub open spec fn with_dash_count(self, dash_count: i32) -> PatternLineState {
        PatternLineState {
            dash_count,
            mandatory_fields_read: self.mandatory_fields_read + 1,
            ..self
        }
    }

    /// The state after one more dash length.
    pub open spec fn with_dash(self, length: Double) -> PatternLineState {
        PatternLineState {
            line: HatchPatternLineView {
                dash_lengths: self.line.dash_lengths.push(length),
                ..self.line
            },
            dashes_read: self.dashes_read + 1,
            ..self
        }
    }

    /// Whether the line owes nothing more: six mandatory fields were read,
    /// and as many dash lengths as the line declares.
    pub open spec fn is_complete(self) -> bool {
        self.mandatory_fields_read >= 6 && self.dashes_read >= self.dash_count
    }

    /// The line, where no more pairs belong to it though it is not
    /// complete: it is accepted if six mandatory fields were read, and the
    /// input is taken to have ended too early otherwise.
    pub open spec fn finish(self, rest: Input) -> Decoded<HatchPatternLineView> {
        if self.mandatory_fields_read < 6 {
            failed(DxfError::UnexpectedEndOfInput, rest)
        } else {
            decoded(self.line, rest)
        }
    }
}

/// What one pair means to a pattern line that is being read.
pub enum PatternLineEvent {
    /// The pair belongs to the line, and leaves its reading in this state.
    Read(PatternLineState),
    /// The pair is a dash length where the line owes none: it ends the line.
    Ends,
    /// The pair has a code that no field of a pattern line has: the line
    /// ends before it.
    Foreign,
    /// The pair holds a value of another type than its field has.
    Malformed(DxfError),
}

/// What the pair `p` means to a pattern line read as far as `state`. The
/// angle (code 53), the base point (43, 44), the offset (45, 46) and the
/// number of dashes (79) each take the value of the pair with their code,
/// wherever it stands. A dash length (49) is added to the line while the
/// line owes one, ends the line where as many were read as it declares, and
/// is passed over where more were read than that.
pub open spec fn pattern_line_event(state: PatternLineState, p: CodePair) -> PatternLineEvent {
    if p.code == 53 {
        match p.spec_f64() {
            Ok(value) => PatternLineEvent::Read(
                state.with_field(HatchPatternLineView { angle: value, ..state.line }),
            ),
            Err(error) => PatternLineEvent::Malformed(error),
        }
    } else if p.code == 43 {
        match p.spec_f64() {
            Ok(value) => PatternLineEvent::Read(
                state.with_field(HatchPatternLineView { base_point_x: value, ..state.line }),
            ),
            Err(error) => PatternLineEvent::Malformed(error),
        }
    } else if p.code == 44 {
        match p.spec_f64() {
            Ok(value) => PatternLineEvent::Read(
                state.with_field(HatchPatternLineView { base_point_y: value, ..state.line }),
            ),
            Err(error) => PatternLineEvent::Malformed(error),
        }
    } else if p.code == 45 {
        match p.spec_f64() {
            Ok(value) => PatternLineEvent::Read(
                state.with_field(HatchPatternLineView { offset_x: value, ..state.line }),
            ),
            Err(error) => PatternLineEvent::Malformed(error),
        }
    } else if p.code == 46 {
        match p.spec_f64() {
            Ok(value) => PatternLineEvent::Read(
                state.with_field(HatchPatternLineView { offset_y: value, ..state.line }),
            ),
            Err(error) => PatternLineEvent::Malformed(error),
        }
    } else if p.code == 79 {
        match p.spec_i32() {
            Ok(dash_count) => PatternLineEvent::Read(state.with_dash_count(dash_count)),
            Err(error) => PatternLineEvent::Malformed(error),
        }
    } else if p.code == 49 {
        if state.dashes_read < state.dash_count {
            match p.spec_f64() {
                Ok(length) => PatternLineEvent::Read(state.with_dash(length)),
                Err(error) => PatternLineEvent::Malformed(error),
            }
        } else if state.dashes_read == state.dash_count {
            PatternLineEvent::Ends
        } else {
            PatternLineEvent::Read(state)
        }
    } else {
        PatternLineEvent::Foreign
    }
}

/// The pairs of one pattern line, from the state `state` on. The six
/// mandatory fields may come in any order, and dash lengths between them
/// once their number is known. The line is read as soon as it is complete,
/// with the pair that completes it. Before that it ends with a dash length
/// where none is owed, or before a pair with a code of no field, which
/// stays in the input; it is then accepted if six mandatory fields were
/// read.
pub open spec fn take_pattern_line_from(s: Input, state: PatternLineState) -> Decoded<
    HatchPatternLineView,
>
    decreases s.len(),
{
    let pair = take_pair(s);
    match pair.result {
        Ok(p) => match pattern_line_event(state, p) {
            PatternLineEvent::Read(next) => if next.is_complete() {
                decoded(next.line, pair.rest)
            } else {
                take_pattern_line_from(pair.rest, next)
            },
            PatternLineEvent::Ends => state.finish(pair.rest),
            PatternLineEvent::Foreign => state.finish(s),
            PatternLineEvent::Malformed(error) => failed(error, pair.rest),
        },
        Err(error) => failed(error, pair.rest),
    }
}

/// Whether the pair holds the angle, a coordinate of the base point or a
/// component of the offset of a pattern line.
pub open spec fn is_pattern_line_number(p: CodePair) -> bool {
    (p.code == 53 || p.code == 43 || p.code == 44 || p.code == 45 || p.code == 46)
        && p.spec_f64() is Ok
}

/// Whether the pair holds one of the six fields that a pattern line must
/// have.
pub open spec fn is_mandatory_pattern_line_field(p: CodePair) -> bool {
    is_pattern_line_number(p) || (p.code == 79 && p.spec_i32() is Ok)
}

/// The mandatory fields of a pattern line may come in any order: two of
/// them with different codes that follow each other can change places, and
/// the line is read the same. This holds where the first of the two cannot
/// complete the line, fewer than five fields being read before them.
pub proof fn lemma_pattern_line_fields_change_places(
    p: CodePair,
    q: CodePair,
    rest: Input,
    state: PatternLineState,
)
    requires
        is_mandatory_pattern_line_field(p),
        is_mandatory_pattern_line_field(q),
        p.code != q.code,
        state.mandatory_fields_read < 5,
    ensures
        take_pattern_line_from(
            seq![Ok::<CodePair, DxfError>(p), Ok::<CodePair, DxfError>(q)] + rest,
            state,
        ) == take_pattern_line_from(
            seq![Ok::<CodePair, DxfError>(q), Ok::<CodePair, DxfError>(p)] + rest,
            state,
        ),
{
    let first = seq![Ok::<CodePair, DxfError>(p), Ok::<CodePair, DxfError>(q)] + rest;
    let second = seq![Ok::<CodePair, DxfError>(q), Ok::<CodePair, DxfError>(p)] + rest;
    assert(first.skip(1).skip(1) =~= rest);
    assert(second.skip(1).skip(1) =~= rest);
    assert(first[0] == Ok::<CodePair, DxfError>(p));
    assert(first.skip(1)[0] == Ok::<CodePair, DxfError>(q));
    assert(second[0] == Ok::<CodePair, DxfError>(q));
    assert(second.skip(1)[0] == Ok::<CodePair, DxfError>(p));
    let after_p = pattern_line_event(state, p)->Read_0;
    let after_q = pattern_line_event(state, q)->Read_0;
    assert(pattern_line_event(after_p, q) == pattern_line_event(after_q, p));
    assert(take_pattern_line_from(first, state) == take_pattern_line_from(first.skip(1), after_p));
    assert(take_pattern_line_from(second, state) == take_pattern_line_from(
        second.skip(1),
        after_q,
    ));
}

/// A dash length that a pattern line owes and a number of the line that
/// follow each other can change places, and the line is read the same:
/// dash lengths may stand between the mandatory fields. This holds while
/// the line still owes a mandatory field before the two.
pub proof fn lemma_pattern_line_dash_changes_places(
    p: CodePair,
    dash: CodePair,
    rest: Input,
    state: PatternLineState,
)
    requires
        is_pattern_line_number(p),
        dash.code == 49,
        dash.spec_f64() is Ok,
        state.dashes_read < state.dash_count,
        state.mandatory_fields_read < 6,
    ensures
        take_pattern_line_from(
            seq![Ok::<CodePair, DxfError>(p), Ok::<CodePair, DxfError>(dash)] + rest,
            state,
        ) == take_pattern_line_from(
            seq![Ok::<CodePair, DxfError>(dash), Ok::<CodePair, DxfError>(p)] + rest,
            state,
        ),
{
    let first = seq![Ok::<CodePair, DxfError>(p), Ok::<CodePair, DxfError>(dash)] + rest;
    let second = seq![Ok::<CodePair, DxfError>(dash), Ok::<CodePair, DxfError>(p)] + rest;
    assert(first.skip(1).skip(1) =~= rest);
    assert(second.skip(1).skip(1) =~= rest);
    assert(first[0] == Ok::<CodePair, DxfError>(p));
    assert(first.skip(1)[0] == Ok::<CodePair, DxfError>(dash));
    assert(second[0] == Ok::<CodePair, DxfError>(dash));
    assert(second.skip(1)[0] == Ok::<CodePair, DxfError>(p));
    let after_p = pattern_line_event(state, p)->Read_0;
    let after_dash = pattern_line_event(state, dash)->Read_0;
    assert(pattern_line_event(after_p, dash) == pattern_line_event(after_dash, p));
    assert(take_pattern_line_from(first, state) == take_pattern_line_from(first.skip(1), after_p));
    assert(take_pattern_line_from(second, state) == take_pattern_line_from(
        second.skip(1),
        after_dash,
    ));
}

/// One pattern line.
pub open spec fn take_pattern_line(s: Input) -> Decoded<HatchPatternLineView> {
    take_pattern_line_from(s, PatternLineState::start())
}

/// The step that reads one pattern line.
pub open spec fn pattern_line_step() -> spec_fn(Input) -> Decoded<HatchPatternLineView> {
    |s: Input| take_pattern_line(s)
}

/// As many pattern lines as `declared` asks for, one after the other.
pub open spec fn take_pattern_lines(s: Input, declared: i32) -> Decoded<Seq<HatchPatternLineView>> {
    repeat(pattern_line_step(), s, count_of(declared))
}

} // verus!
