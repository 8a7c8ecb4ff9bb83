//! The decoders of the boundary paths and pattern lines of a hatch.

use vstd::prelude::*;
use crate::code_pair::CodePair;
use crate::code_pair_put_back::CodePairPutBack;
use crate::double::Double;
use crate::entities::Hatch;
use crate::enums::{BoundaryEdgeType, BoundaryPathType};
use crate::error::{DxfError, DxfResult};
use crate::grammar::{
    count_of, decoded, lemma_repeat_completed, lemma_repeat_failed, repeat, repeat_completed,
    result_view, take_coded_i32,
};
use crate::hatch::{
    edge_views, pattern_line_views, BoundaryPath, BoundaryPathView, EdgeBoundaryData,
    EdgeCircularArcData, EdgeEllipticArcData, EdgeLineData, EdgePath, EdgePathView,
    EdgeSplineData, HatchPatternBoundaryData, HatchPatternBoundaryView, HatchPatternLineData,
    HatchPolylineVertex, PolylineBoundaryData,
};
use crate::hatch_grammar::{
    control_point_step, edge_step, fit_point_step, lemma_boundary_paths_completed,
    lemma_boundary_paths_failed, pattern_line_step, source_object_step, take_boundary_path,
    take_boundary_paths, take_circular_arc, take_control_point, take_direction, take_edge,
    take_edge_boundary, take_elliptic_arc, take_fit_point, take_line, take_pattern_line,
    take_pattern_line_from, take_pattern_lines, take_polyline_boundary, take_polyline_header,
    take_source_object, take_source_objects, take_spline, take_vertex, vertex_step, PathsRead,
    PatternLineState,
};
use crate::helper_functions::combine_points_2;
use crate::point::{Point, Vector};
use crate::reader::{
    next_pair, read_coded_i32, read_f64, read_f64s, read_i16, read_i32, read_optional_f64,
    read_optional_flag,
};

verus! {

/// The number of elements to read for a declared count.
fn element_count(declared: i32) -> (n: usize)
    ensures
        n == count_of(declared),
{
    if declared > 0 {
        declared as usize
    } else {
        0
    }
}

/// The control points that two lists of coordinates and a list of weights
/// stand for.
spec fn control_points_of(
    xs: Seq<Double>,
    ys: Seq<Double>,
    weights: Seq<Option<Double>>,
) -> Seq<(Point, Option<Double>)> {
    Seq::new(xs.len(), |i: int| (Point::planar(xs[i], ys[i]), weights[i]))
}

/// The points of the drawing plane that two lists of coordinates stand for.
spec fn points_of(xs: Seq<Double>, ys: Seq<Double>) -> Seq<Point> {
    Seq::new(xs.len(), |i: int| Point::planar(xs[i], ys[i]))
}

/// The coordinates and weights of the control points of a spline, as read:
/// three lists of one length.
struct ControlPointBuffers {
    xs: Vec<Double>,
    ys: Vec<Double>,
    weights: Vec<Option<Double>>,
}

impl ControlPointBuffers {
    /// The control points that the lists stand for.
    spec fn points(self) -> Seq<(Point, Option<Double>)> {
        control_points_of(self.xs@, self.ys@, self.weights@)
    }

    /// The three lists are of one length.
    spec fn well_formed(self) -> bool {
        self.xs@.len() == self.ys@.len() && self.xs@.len() == self.weights@.len()
    }
}

/// Reads the control points of a spline: for each its two coordinates, and
/// its weight where a pair with code 42 follows them.
fn read_control_points(parser: &mut CodePairPutBack, declared: i32) -> (r: DxfResult<
    ControlPointBuffers,
>)
    ensures
        final(parser)@ == repeat(control_point_step(), old(parser)@, count_of(declared)).rest,
        match r {
            Ok(buffers) => buffers.well_formed() && repeat(
                control_point_step(),
                old(parser)@,
                count_of(declared),
            ).result == Ok::<Seq<(Point, Option<Double>)>, DxfError>(buffers.points()),
            Err(error) => repeat(control_point_step(), old(parser)@, count_of(declared)).result
                == Err::<Seq<(Point, Option<Double>)>, DxfError>(error),
        },
{
    let mut xs: Vec<Double> = Vec::new();
    let mut ys: Vec<Double> = Vec::new();
    let mut weights: Vec<Option<Double>> = Vec::new();
    let n = element_count(declared);
    let mut i: usize = 0;
    assert(control_points_of(xs@, ys@, weights@) =~= Seq::empty());
    while i < n
        invariant
            i <= n,
            n == count_of(declared),
            xs@.len() == i,
            ys@.len() == i,
            weights@.len() == i,
            repeat(control_point_step(), old(parser)@, i as nat) == decoded(
                control_points_of(xs@, ys@, weights@),
                parser@,
            ),
        decreases n - i,
    {
        let ghost read = control_points_of(xs@, ys@, weights@);
        proof {
            if take_control_point(parser@).result is Err {
                lemma_repeat_failed(control_point_step(), old(parser)@, (i + 1) as nat, n as nat);
            }
        }
        let x = match read_f64(parser) {
            Ok(value) => value,
            Err(error) => return Err(error),
        };
        let y = match read_f64(parser) {
            Ok(value) => value,
            Err(error) => return Err(error),
        };
        let weight = match read_optional_f64(parser, 42) {
            Ok(value) => value,
            Err(error) => return Err(error),
        };
        xs.push(x);
        ys.push(y);
        weights.push(weight);
        assert(control_points_of(xs@, ys@, weights@) =~= read.push((Point::planar(x, y), weight)));
        i += 1;
    }
    Ok(ControlPointBuffers { xs, ys, weights })
}

/// Reads the fit points of a spline, two coordinates each, into a list of
/// first and a list of second coordinates.
fn read_fit_points(parser: &mut CodePairPutBack, declared: i32) -> (r: DxfResult<
    (Vec<Double>, Vec<Double>),
>)
    ensures
        final(parser)@ == repeat(fit_point_step(), old(parser)@, count_of(declared)).rest,
        match r {
            Ok(buffers) => buffers.0@.len() == buffers.1@.len() && repeat(
                fit_point_step(),
                old(parser)@,
                count_of(declared),
            ).result == Ok::<Seq<Point>, DxfError>(points_of(buffers.0@, buffers.1@)),
            Err(error) => repeat(fit_point_step(), old(parser)@, count_of(declared)).result
                == Err::<Seq<Point>, DxfError>(error),
        },
{
    let mut xs: Vec<Double> = Vec::new();
    let mut ys: Vec<Double> = Vec::new();
    let n = element_count(declared);
    let mut i: usize = 0;
    assert(points_of(xs@, ys@) =~= Seq::empty());
    while i < n
        invariant
            i <= n,
            n == count_of(declared),
            xs@.len() == i,
            ys@.len() == i,
            repeat(fit_point_step(), old(parser)@, i as nat) == decoded(
                points_of(xs@, ys@),
                parser@,
            ),
        decreases n - i,
    {
        let ghost read = points_of(xs@, ys@);
        proof {
            if take_fit_point(parser@).result is Err {
                lemma_repeat_failed(fit_point_step(), old(parser)@, (i + 1) as nat, n as nat);
            }
        }
        let x = match read_f64(parser) {
            Ok(value) => value,
            Err(error) => return Err(error),
        };
        let y = match read_f64(parser) {
            Ok(value) => value,
            Err(error) => return Err(error),
        };
        xs.push(x);
        ys.push(y);
        assert(points_of(xs@, ys@) =~= read.push(Point::planar(x, y)));
        i += 1;
    }
    Ok((xs, ys))
}

/// Reads the fields of a line edge: the coordinates of its two ends.
fn read_line_edge(parser: &mut CodePairPutBack) -> (r: DxfResult<EdgeLineData>)
    ensures
        r == take_line(old(parser)@).result,
        final(parser)@ == take_line(old(parser)@).rest,
{
    reveal(take_line);
    let fields = match read_f64s(parser, 4) {
        Ok(values) => values,
        Err(error) => return Err(error),
    };
    Ok(
        EdgeLineData {
            p1: Point { x: fields[0], y: fields[1], z: Double::zero() },
            p2: Point { x: fields[2], y: fields[3], z: Double::zero() },
        },
    )
}

/// Reads the direction flag that ends an arc, if it is there.
fn read_direction(parser: &mut CodePairPutBack) -> (r: DxfResult<bool>)
    ensures
        r == take_direction(old(parser)@).result,
        final(parser)@ == take_direction(old(parser)@).rest,
{
    match read_optional_flag(parser, 73) {
        Ok(Some(is_counter_clockwise)) => Ok(is_counter_clockwise),
        Ok(None) => Ok(false),
        Err(error) => Err(error),
    }
}

/// Reads the fields of a circular arc.
fn read_circular_arc_edge(parser: &mut CodePairPutBack) -> (r: DxfResult<EdgeCircularArcData>)
    ensures
        r == take_circular_arc(old(parser)@).result,
        final(parser)@ == take_circular_arc(old(parser)@).rest,
{
    reveal(take_circular_arc);
    let fields = match read_f64s(parser, 5) {
        Ok(values) => values,
        Err(error) => return Err(error),
    };
    let is_counter_clockwise = match read_direction(parser) {
        Ok(flag) => flag,
        Err(error) => return Err(error),
    };
    Ok(
        EdgeCircularArcData {
            center: Point { x: fields[0], y: fields[1], z: Double::zero() },
            radius: fields[2],
            start_angle: fields[3],
            end_angle: fields[4],
            is_counter_clockwise,
        },
    )
}

/// Reads the fields of an elliptic arc.
fn read_elliptic_arc_edge(parser: &mut CodePairPutBack) -> (r: DxfResult<EdgeEllipticArcData>)
    ensures
        r == take_elliptic_arc(old(parser)@).result,
        final(parser)@ == take_elliptic_arc(old(parser)@).rest,
{
    reveal(take_elliptic_arc);
    let fields = match read_f64s(parser, 7) {
        Ok(values) => values,
        Err(error) => return Err(error),
    };
    let is_counter_clockwise = match read_direction(parser) {
        Ok(flag) => flag,
        Err(error) => return Err(error),
    };
    Ok(
        EdgeEllipticArcData {
            center: Point { x: fields[0], y: fields[1], z: Double::zero() },
            major_axis: Vector { x: fields[2], y: fields[3], z: Double::zero() },
            minor_axis_ratio: fields[4],
            start_angle: fields[5],
            end_angle: fields[6],
            is_counter_clockwise,
        },
    )
}

/// Reads the source objects of a boundary path, if the input has them: a
/// pair with code 97 that gives their number, and that many handles.
fn read_source_objects(parser: &mut CodePairPutBack) -> (r: DxfResult<()>)
    ensures
        r == take_source_objects(old(parser)@).result,
        final(parser)@ == take_source_objects(old(parser)@).rest,
{
    let pair = match next_pair(parser) {
        Ok(pair) => pair,
        Err(error) => return Err(error),
    };
    if pair.code != 97 {
        parser.put_back(Ok(pair));
        assert(parser@ =~= old(parser)@);
        return Ok(());
    }
    let source_boundary_objects_count = match pair.assert_i32() {
        Ok(value) => value,
        Err(error) => return Err(error),
    };
    let ghost at_handles = parser@;
    let n = element_count(source_boundary_objects_count);
    let mut i: usize = 0;
    while i < n
        invariant
            i <= n,
            take_source_objects(old(parser)@).rest == repeat(
                source_object_step(),
                at_handles,
                n as nat,
            ).rest,
            match repeat(source_object_step(), at_handles, n as nat).result {
                Ok(_) => take_source_objects(old(parser)@).result == Ok::<(), DxfError>(()),
                Err(error) => take_source_objects(old(parser)@).result == Err::<(), DxfError>(
                    error,
                ),
            },
            repeat(source_object_step(), at_handles, i as nat).result is Ok,
            repeat(source_object_step(), at_handles, i as nat).rest == parser@,
        decreases n - i,
    {
        let ghost at_handle = parser@;
        proof {
            if take_source_object(at_handle).result is Err {
                lemma_repeat_failed(source_object_step(), at_handles, (i + 1) as nat, n as nat);
            }
        }
        let handle = match next_pair(parser) {
            Ok(pair) => pair,
            Err(error) => return Err(error),
        };
        if handle.code != 330 {
            let code = handle.code;
            parser.put_back(Ok(handle));
            assert(parser@ =~= at_handle);
            return Err(DxfError::UnexpectedCode(code, 0));
        }
        i += 1;
    }
    Ok(())
}

impl HatchPatternBoundaryData {
    /// Reads as many boundary paths as `loop_count` declares, and adds them
    /// to the hatch in the order of the input. Each path is made of its
    /// type (code 92), its geometry, in vertices where the type is
    /// `Polyline` and in edges otherwise, and its source objects (code 97
    /// and handles), which may be missing.
    ///
    /// `loop_count` is lowered by one for each path that was read to its
    /// end. On an error the paths added before it stay in the hatch.
    pub fn read_boundary_paths_section(
        hatch: &mut Hatch,
        loop_count: &mut i32,
        iter: &mut CodePairPutBack,
    ) -> (r: DxfResult<()>)
        ensures
            r == take_boundary_paths(old(iter)@, count_of(*old(loop_count))).result,
            final(iter)@ == take_boundary_paths(old(iter)@, count_of(*old(loop_count))).rest,
            final(hatch)@ == old(hatch)@.with_boundary_paths(
                take_boundary_paths(old(iter)@, count_of(*old(loop_count))).added,
            ),
            *final(loop_count) == *old(loop_count) - take_boundary_paths(
                old(iter)@,
                count_of(*old(loop_count)),
            ).completed,
            r is Ok ==> *final(loop_count) == if *old(loop_count) > 0 {
                0
            } else {
                *old(loop_count)
            },
    {
        let ghost declared = count_of(*old(loop_count));
        assert(old(hatch)@.pattern_boundary_data + Seq::<HatchPatternBoundaryView>::empty()
            =~= old(hatch)@.pattern_boundary_data);
        while *loop_count > 0
            invariant
                declared == count_of(*old(loop_count)),
                *loop_count <= *old(loop_count),
                *loop_count > 0 || *loop_count == *old(loop_count) || *loop_count == 0,
                take_boundary_paths(old(iter)@, (*old(loop_count) - *loop_count) as nat)
                    == (PathsRead {
                    added: take_boundary_paths(
                        old(iter)@,
                        (*old(loop_count) - *loop_count) as nat,
                    ).added,
                    completed: (*old(loop_count) - *loop_count) as nat,
                    result: Ok(()),
                    rest: iter@,
                }),
                hatch@ == old(hatch)@.with_boundary_paths(
                    take_boundary_paths(old(iter)@, (*old(loop_count) - *loop_count) as nat).added,
                ),
            decreases *loop_count,
        {
            let ghost done = (*old(loop_count) - *loop_count) as nat;
            let ghost before = take_boundary_paths(old(iter)@, done);
            let ghost at_path = iter@;
            proof {
                assert(before.added + Seq::<HatchPatternBoundaryView>::empty() =~= before.added);
                if take_boundary_path(at_path).result is Err {
                    lemma_boundary_paths_failed(old(iter)@, done + 1, declared);
                }
            }
            let pair = match next_pair(iter) {
                Ok(pair) => pair,
                Err(error) => return Err(error),
            };
            if pair.code != 92 {
                let code = pair.code;
                iter.put_back(Ok(pair));
                assert(iter@ =~= at_path);
                return Err(DxfError::UnexpectedCode(code, 0));
            }
            let path_type = match pair.assert_i16() {
                Ok(value) => BoundaryPathType::decode(value),
                Err(error) => return Err(error),
            };
            let geometry = match path_type {
                BoundaryPathType::Polyline => Self::read_polyline_boundary(hatch, path_type, iter),
                _ => Self::read_edge_boundary(hatch, path_type, iter),
            };
            match geometry {
                Ok(_) => {},
                Err(error) => return Err(error),
            }
            let ghost path = take_boundary_path(at_path);
            assert(hatch@.pattern_boundary_data =~= old(hatch)@.pattern_boundary_data + (
            before.added + path.added));
            match read_source_objects(iter) {
                Ok(()) => {},
                Err(error) => return Err(error),
            }
            *loop_count -= 1;
        }
        proof {
            lemma_boundary_paths_completed(old(iter)@, declared);
        }
        Ok(())
    }

    /// Reads a boundary path given in vertices: the has-bulge hint and the
    /// closed flag, each of which may be missing, the number of vertices,
    /// and the vertices. The path is added to the hatch under `path_type`,
    /// unless the number of vertices is not positive: then nothing is added.
    ///
    /// On an error the hatch is left as it was.
    pub fn read_polyline_boundary(
        hatch: &mut Hatch,
        path_type: BoundaryPathType,
        parser: &mut CodePairPutBack,
    ) -> (r: DxfResult<bool>)
        ensures
            final(parser)@ == take_polyline_boundary(old(parser)@).rest,
            match take_polyline_boundary(old(parser)@).result {
                Ok(Some(polyline)) => r == Ok::<bool, DxfError>(true) && final(hatch)@ == old(
                    hatch,
                )@.with_boundary_paths(
                    seq![
                        HatchPatternBoundaryView {
                            path_type,
                            path: BoundaryPathView::Polyline(polyline),
                        },
                    ],
                ),
                Ok(None) => r == Ok::<bool, DxfError>(true) && final(hatch)@ == old(hatch)@,
                Err(error) => r == Err::<bool, DxfError>(error) && final(hatch)@ == old(hatch)@,
            },
    {
        reveal(take_polyline_boundary);
        let mut polyline_data = PolylineBoundaryData { is_closed: false, vertices: Vec::new() };
        let mut polyline_vertices_count: i32 = 0;
        loop
            invariant_except_break
                take_polyline_header(old(parser)@, false) == take_polyline_header(
                    parser@,
                    polyline_data.is_closed,
                ),
            invariant
                *hatch == *old(hatch),
                polyline_data.vertices@.len() == 0,
            ensures
                take_polyline_header(old(parser)@, false) == decoded(
                    (polyline_data.is_closed, polyline_vertices_count),
                    parser@,
                ),
            decreases parser@.len(),
        {
            reveal(take_polyline_boundary);
            let pair = match next_pair(parser) {
                Ok(pair) => pair,
                Err(error) => return Err(error),
            };
            if pair.code == 93 {
                polyline_vertices_count = match pair.assert_i32() {
                    Ok(value) => value,
                    Err(error) => return Err(error),
                };
                break ;
            } else if pair.code == 72 {
                // The hint is not needed: each vertex shows whether it has a bulge.
            } else if pair.code == 73 {
                polyline_data.is_closed = match pair.assert_i16() {
                    Ok(value) => value != 0,
                    Err(error) => return Err(error),
                };
            } else {
                let code = pair.code;
                let ghost at_pair = parser@;
                parser.put_back(Ok(pair));
                assert(parser@ =~= seq![Ok::<CodePair, DxfError>(pair)] + at_pair);
                return Err(DxfError::UnexpectedCode(code, 0));
            }
        }
        if polyline_vertices_count > 0 {
            let ghost at_vertices = parser@;
            let n = element_count(polyline_vertices_count);
            assert(polyline_data.vertices@ =~= Seq::empty());
            let mut i: usize = 0;
            while i < n
                invariant
                    i <= n,
                    n == count_of(polyline_vertices_count),
                    *hatch == *old(hatch),
                    take_polyline_header(old(parser)@, false) == decoded(
                        (polyline_data.is_closed, polyline_vertices_count),
                        at_vertices,
                    ),
                    polyline_vertices_count > 0,
                    repeat(vertex_step(), at_vertices, i as nat) == decoded(
                        polyline_data.vertices@,
                        parser@,
                    ),
                decreases n - i,
            {
                proof {
                    reveal(take_polyline_boundary);
                    if take_vertex(parser@).result is Err {
                        lemma_repeat_failed(vertex_step(), at_vertices, (i + 1) as nat, n as nat);
                    }
                }
                let x = match read_f64(parser) {
                    Ok(value) => value,
                    Err(error) => return Err(error),
                };
                let y = match read_f64(parser) {
                    Ok(value) => value,
                    Err(error) => return Err(error),
                };
                let mut vertex = HatchPolylineVertex { x, y, bulge: Double::zero() };
                // Determines whether there is a bulge value.
                match read_optional_f64(parser, 42) {
                    Ok(Some(bulge)) => {
                        vertex.bulge = bulge;
                    },
                    Ok(None) => {},
                    Err(error) => return Err(error),
                }
                polyline_data.vertices.push(vertex);
                i += 1;
            }
            let pattern_data = HatchPatternBoundaryData {
                path_type,
                path: BoundaryPath::Polyline(polyline_data),
            };
            let ghost before = hatch@;
            hatch.pattern_boundary_data.push(pattern_data);
            assert(hatch@.pattern_boundary_data =~= before.pattern_boundary_data + seq![
                pattern_data@,
            ]);
        }
        Ok(true)
    }

    /// Reads a boundary path given in edges: the number of edges (code 93),
    /// then each edge with its type and fields. The path is added to the
    /// hatch under `path_type`. A pair with another code in place of the
    /// number of edges is put back and reported.
    ///
    /// On an error the hatch is left as it was.
    pub fn read_edge_boundary(
        hatch: &mut Hatch,
        path_type: BoundaryPathType,
        parser: &mut CodePairPutBack,
    ) -> (r: DxfResult<bool>)
        ensures
            final(parser)@ == take_edge_boundary(old(parser)@).rest,
            match take_edge_boundary(old(parser)@).result {
                Ok(boundary) => r == Ok::<bool, DxfError>(true) && final(hatch)@ == old(
                    hatch,
                )@.with_boundary_paths(
                    seq![
                        HatchPatternBoundaryView {
                            path_type,
                            path: BoundaryPathView::Edge(boundary),
                        },
                    ],
                ),
                Err(error) => r == Err::<bool, DxfError>(error) && final(hatch)@ == old(hatch)@,
            },
    {
        reveal(take_edge_boundary);
        let edges_count: i32 = match read_coded_i32(parser, 93) {
            Ok(value) => value,
            Err(error) => return Err(error),
        };
        let ghost at_edges = parser@;
        let mut edge_paths: Vec<EdgePath> = Vec::new();
        assert(edge_views(edge_paths@) =~= Seq::empty());

        let n = element_count(edges_count);
        let mut i: usize = 0;
        while i < n
            invariant
                i <= n,
                n == count_of(edges_count),
                *hatch == *old(hatch),
                take_coded_i32(old(parser)@, 93) == decoded(edges_count, at_edges),
                repeat(edge_step(), at_edges, i as nat) == decoded(
                    edge_views(edge_paths@),
                    parser@,
                ),
            decreases n - i,
        {
            let ghost at_edge = parser@;
            proof {
                reveal(take_edge_boundary);
                if take_edge(at_edge).result is Err {
                    lemma_repeat_failed(edge_step(), at_edges, (i + 1) as nat, n as nat);
                }
            }
            let edge_type = match read_i16(parser) {
                Ok(value) => BoundaryEdgeType::decode(value),
                Err(error) => return Err(error),
            };

            let ghost before = edge_views(edge_paths@);
            match edge_type {
                BoundaryEdgeType::Line => {
                    let line_edge_data = match read_line_edge(parser) {
                        Ok(line) => line,
                        Err(error) => return Err(error),
                    };
                    edge_paths.push(EdgePath::Line(line_edge_data));
                    assert(edge_views(edge_paths@) =~= before.push(
                        EdgePathView::Line(line_edge_data),
                    ));
                },
                BoundaryEdgeType::CircularArc => {
                    let arc_data = match read_circular_arc_edge(parser) {
                        Ok(arc) => arc,
                        Err(error) => return Err(error),
                    };
                    edge_paths.push(EdgePath::CircularArc(arc_data));
                    assert(edge_views(edge_paths@) =~= before.push(
                        EdgePathView::CircularArc(arc_data),
                    ));
                },
                BoundaryEdgeType::EllipticArc => {
                    let elliptic_data = match read_elliptic_arc_edge(parser) {
                        Ok(arc) => arc,
                        Err(error) => return Err(error),
                    };
                    edge_paths.push(EdgePath::EllipticArc(elliptic_data));
                    assert(edge_views(edge_paths@) =~= before.push(
                        EdgePathView::EllipticArc(elliptic_data),
                    ));
                },
                BoundaryEdgeType::Spline => {
                    match Self::read_spline_edge_boundary(&mut edge_paths, parser) {
                        Ok(_) => {},
                        Err(error) => return Err(error),
                    }
                },
            }
            i += 1;
        }

        let data = HatchPatternBoundaryData {
            path_type,
            path: BoundaryPath::Edge(EdgeBoundaryData { edges: edge_paths }),
        };
        let ghost before = hatch@;
        hatch.pattern_boundary_data.push(data);
        assert(hatch@.pattern_boundary_data =~= before.pattern_boundary_data + seq![data@]);
        Ok(true)
    }

    /// Reads one spline edge and adds it to `edge_paths`.
    ///
    /// On an error `edge_paths` is left as it was.
    pub fn read_spline_edge_boundary(
        edge_paths: &mut Vec<EdgePath>,
        parser: &mut CodePairPutBack,
    ) -> (r: DxfResult<bool>)
        ensures
            final(parser)@ == take_spline(old(parser)@).rest,
            match take_spline(old(parser)@).result {
                Ok(spline) => r == Ok::<bool, DxfError>(true) && edge_views(final(edge_paths)@)
                    == edge_views(old(edge_paths)@).push(EdgePathView::Spline(spline))
                    && spline.well_formed(),
                Err(error) => r == Err::<bool, DxfError>(error) && final(edge_paths)@ == old(
                    edge_paths,
                )@,
            },
    {
        reveal(take_spline);
        let degree = match read_i16(parser) {
            Ok(value) => value,
            Err(error) => return Err(error),
        };
        let is_rational = match read_i16(parser) {
            Ok(value) => value != 0,
            Err(error) => return Err(error),
        };
        let is_periodic = match read_i16(parser) {
            Ok(value) => value != 0,
            Err(error) => return Err(error),
        };
        let num_knots = match read_i32(parser) {
            Ok(value) => value,
            Err(error) => return Err(error),
        };
        let num_control_points = match read_i32(parser) {
            Ok(value) => value,
            Err(error) => return Err(error),
        };
        let knots = match read_f64s(parser, element_count(num_knots)) {
            Ok(values) => values,
            Err(error) => return Err(error),
        };
        let mut controls = match read_control_points(parser, num_control_points) {
            Ok(buffers) => buffers,
            Err(error) => return Err(error),
        };
        let ghost control_points_read = controls.points();
        let num_fit_points = match read_i32(parser) {
            Ok(value) => value,
            Err(error) => return Err(error),
        };
        let mut fits = match read_fit_points(parser, num_fit_points) {
            Ok(buffers) => buffers,
            Err(error) => return Err(error),
        };
        let ghost fit_points_read = points_of(fits.0@, fits.1@);
        let tangents = match read_f64s(parser, 4) {
            Ok(values) => values,
            Err(error) => return Err(error),
        };
        let start_tangent = Vector::new(tangents[0], tangents[1], Double::zero());
        let end_tangent = Vector::new(tangents[2], tangents[3], Double::zero());

        let ghost control_xs = controls.xs@;
        let ghost control_ys = controls.ys@;
        let mut control_points: Vec<Point> = Vec::new();
        match combine_points_2(
            &mut controls.xs,
            &mut controls.ys,
            &mut control_points,
            Point::new,
        ) {
            Ok(()) => {},
            Err(error) => return Err(error),
        }
        assert forall|k: int| 0 <= k < control_points@.len() implies control_points@[k]
            == Point::planar(control_xs[k], control_ys[k]) by {
            assert(call_ensures(
                Point::new,
                (control_xs[k], control_ys[k], Double::spec_zero()),
                control_points@[0 + k],
            ));
        }
        let ghost fit_xs = fits.0@;
        let ghost fit_ys = fits.1@;
        let mut fit_points: Vec<Point> = Vec::new();
        match combine_points_2(&mut fits.0, &mut fits.1, &mut fit_points, Point::new) {
            Ok(()) => {},
            Err(error) => return Err(error),
        }
        assert forall|k: int| 0 <= k < fit_points@.len() implies fit_points@[k] == Point::planar(
            fit_xs[k],
            fit_ys[k],
        ) by {
            assert(call_ensures(
                Point::new,
                (fit_xs[k], fit_ys[k], Double::spec_zero()),
                fit_points@[0 + k],
            ));
        }
        let spline = EdgeSplineData {
            degree,
            is_rational,
            is_periodic,
            knots,
            weights: controls.weights,
            control_points,
            fit_points,
            start_tangent,
            end_tangent,
        };
        assert(spline@.control_points =~= control_points_read.map_values(
            |c: (Point, Option<Double>)| c.0,
        ));
        assert(spline@.weights =~= control_points_read.map_values(
            |c: (Point, Option<Double>)| c.1,
        ));
        assert(spline@.fit_points =~= fit_points_read);
        let ghost before = edge_views(edge_paths@);
        edge_paths.push(EdgePath::Spline(spline));
        assert(edge_views(edge_paths@) =~= before.push(EdgePathView::Spline(spline@)));
        Ok(true)
    }
}

/// Reads the pairs of one pattern line: its six mandatory fields in any
/// order, and its dash lengths between or behind them. The line is read
/// with the pair that completes it.
fn read_pattern_line_fields(iter: &mut CodePairPutBack) -> (r: DxfResult<HatchPatternLineData>)
    ensures
        result_view(r) == take_pattern_line(old(iter)@).result,
        final(iter)@ == take_pattern_line(old(iter)@).rest,
{
    let mut pattern_line = HatchPatternLineData::default();
    let mut num_dash_items: i32 = 0;
    let mut dash_items_read: i32 = 0;
    // Counts up to 6, which is all that is asked of it.
    let mut mandatory_fields_read: i16 = 0;
    let ghost mut fields_read: nat = 0;
    loop
        invariant_except_break
            take_pattern_line(old(iter)@) == take_pattern_line_from(
                iter@,
                PatternLineState {
                    line: pattern_line@,
                    dash_count: num_dash_items,
                    dashes_read: dash_items_read as int,
                    mandatory_fields_read: fields_read,
                },
            ),
        invariant
            mandatory_fields_read == if fields_read < 6 {
                fields_read as int
            } else {
                6
            },
        ensures
            take_pattern_line(old(iter)@) == (PatternLineState {
                line: pattern_line@,
                dash_count: num_dash_items,
                dashes_read: dash_items_read as int,
                mandatory_fields_read: fields_read,
            }).finish(iter@),
        decreases iter@.len(),
    {
        let ghost at_pair = iter@;
        let pair = match next_pair(iter) {
            Ok(pair) => pair,
            Err(error) => return Err(error),
        };
        if pair.code == 53 {
            pattern_line.angle = match pair.assert_f64() {
                Ok(value) => value,
                Err(error) => return Err(error),
            };
            if mandatory_fields_read < 6 {
                mandatory_fields_read += 1;
            }
            proof {
                fields_read = fields_read + 1;
            }
        } else if pair.code == 43 {
            pattern_line.base_point_x = match pair.assert_f64() {
                Ok(value) => value,
                Err(error) => return Err(error),
            };
            if mandatory_fields_read < 6 {
                mandatory_fields_read += 1;
            }
            proof {
                fields_read = fields_read + 1;
            }
        } else if pair.code == 44 {
            pattern_line.base_point_y = match pair.assert_f64() {
                Ok(value) => value,
                Err(error) => return Err(error),
            };
            if mandatory_fields_read < 6 {
                mandatory_fields_read += 1;
            }
            proof {
                fields_read = fields_read + 1;
            }
        } else if pair.code == 45 {
            pattern_line.offset_x = match pair.assert_f64() {
                Ok(value) => value,
                Err(error) => return Err(error),
            };
            if mandatory_fields_read < 6 {
                mandatory_fields_read += 1;
            }
            proof {
                fields_read = fields_read + 1;
            }
        } else if pair.code == 46 {
            pattern_line.offset_y = match pair.assert_f64() {
                Ok(value) => value,
                Err(error) => return Err(error),
            };
            if mandatory_fields_read < 6 {
                mandatory_fields_read += 1;
            }
            proof {
                fields_read = fields_read + 1;
            }
        } else if pair.code == 79 {
            num_dash_items = match pair.assert_i32() {
                Ok(value) => value,
                Err(error) => return Err(error),
            };
            if mandatory_fields_read < 6 {
                mandatory_fields_read += 1;
            }
            proof {
                fields_read = fields_read + 1;
            }
        } else if pair.code == 49 {
            if dash_items_read < num_dash_items {
                let length = match pair.assert_f64() {
                    Ok(value) => value,
                    Err(error) => return Err(error),
                };
                pattern_line.dash_lengths.push(length);
                dash_items_read += 1;
            } else if dash_items_read == num_dash_items {
                break ;
            }
        } else {
            iter.put_back(Ok(pair));
            assert(iter@ =~= at_pair);
            break ;
        }
        // The line is read once it owes no field and no dash length.
        if mandatory_fields_read >= 6 && dash_items_read >= num_dash_items {
            break ;
        }
    }
    if mandatory_fields_read < 6 {
        return Err(DxfError::UnexpectedEndOfInput);
    }
    Ok(pattern_line)
}

impl HatchPatternLineData {
    /// Reads as many pattern lines as `loop_count` declares, and adds them
    /// to the hatch in the order of the input. The angle, base point,
    /// offset and number of dashes of a line may come in any order, and its
    /// dash lengths anywhere behind their number.
    ///
    /// `loop_count` is lowered by one for each line that was read. On an
    /// error the hatch is left as it was.
    pub fn read_pattern_line(
        hatch: &mut Hatch,
        loop_count: &mut i32,
        iter: &mut CodePairPutBack,
    ) -> (r: DxfResult<()>)
        ensures
            final(iter)@ == take_pattern_lines(old(iter)@, *old(loop_count)).rest,
            match take_pattern_lines(old(iter)@, *old(loop_count)).result {
                Ok(lines) => r == Ok::<(), DxfError>(()) && final(hatch)@ == old(
                    hatch,
                )@.with_pattern_lines(lines),
                Err(error) => r == Err::<(), DxfError>(error) && final(hatch)@ == old(hatch)@,
            },
            *final(loop_count) == *old(loop_count) - repeat_completed(
                pattern_line_step(),
                old(iter)@,
                count_of(*old(loop_count)),
            ),
            r is Ok ==> *final(loop_count) == if *old(loop_count) > 0 {
                0
            } else {
                *old(loop_count)
            },
    {
        let ghost declared = count_of(*old(loop_count));
        let mut pattern_lines: Vec<HatchPatternLineData> = Vec::new();
        assert(pattern_line_views(pattern_lines@) =~= Seq::empty());
        while *loop_count > 0
            invariant
                declared == count_of(*old(loop_count)),
                *loop_count <= *old(loop_count),
                *loop_count > 0 || *loop_count == *old(loop_count) || *loop_count == 0,
                *hatch == *old(hatch),
                repeat(
                    pattern_line_step(),
                    old(iter)@,
                    (*old(loop_count) - *loop_count) as nat,
                ) == decoded(pattern_line_views(pattern_lines@), iter@),
            decreases *loop_count,
        {
            let ghost done = (*old(loop_count) - *loop_count) as nat;
            let ghost read = pattern_line_views(pattern_lines@);
            proof {
                if take_pattern_line(iter@).result is Err {
                    lemma_repeat_failed(pattern_line_step(), old(iter)@, done + 1, declared);
                    lemma_repeat_completed(pattern_line_step(), old(iter)@, done, declared);
                }
            }
            let pattern_line = match read_pattern_line_fields(iter) {
                Ok(line) => line,
                Err(error) => return Err(error),
            };
            *loop_count -= 1;
            pattern_lines.push(pattern_line);
            assert(pattern_line_views(pattern_lines@) =~= read.push(pattern_line@));
        }
        proof {
            lemma_repeat_completed(pattern_line_step(), old(iter)@, declared, declared);
        }
        let ghost before = hatch@;
        let ghost added = pattern_line_views(pattern_lines@);
        let ghost lines_before = hatch.pattern_line_data@;
        let ghost lines_added = pattern_lines@;
        hatch.pattern_line_data.append(&mut pattern_lines);
        assert(hatch.pattern_line_data@ =~= lines_before + lines_added);
        assert(hatch@.pattern_line_data =~= before.pattern_line_data + added);
        Ok(())
    }
}

} // verus!
