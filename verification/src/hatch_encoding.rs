//! Boundary paths and pattern lines written as code pairs, and the proof
//! that reading gives back what was written.

use vstd::prelude::*;
use crate::code_pair::CodePair;
use crate::double::Double;
use crate::encoding::{
    encode_each, f64_pair, f64_pairs, f64_pairs_of, flag_pair, i16_pair, i32_pair,
    lemma_as_input_add, lemma_f64s_read_back, lemma_repeat_reads_back, reads_back,
};
use crate::enums::{BoundaryEdgeType, BoundaryPathType};
use crate::error::DxfError;
use crate::grammar::{
    as_input, count_of, decoded, f64_step, lemma_repeat_all, repeat, step_yields,
    take_coded_i32, take_i16, take_i32, take_pair, Input,
};
use crate::hatch::{
    BoundaryPathView, EdgeBoundaryView, EdgeCircularArcData, EdgeEllipticArcData, EdgeLineData,
    EdgePathView, EdgeSplineView, HatchPatternLineView, HatchPolylineVertex,
    PolylineBoundaryView,
};
use crate::hatch_grammar::{
    control_point_step, edge_step, fit_point_step, lemma_polyline_vertex_count,
    lemma_spline_counts, pattern_line_event, take_circular_arc, take_control_point,
    take_direction, take_edge, take_edge_boundary, take_elliptic_arc, take_fit_point, take_line,
    take_path_geometry, take_pattern_line, take_pattern_line_from, take_polyline_boundary,
    take_polyline_header, take_spline, take_spline_controls, take_spline_header, take_vertex,
    vertex_step, PatternLineEvent, PatternLineState, SplineControls, SplineHeader,
};
use crate::point::{Point, Vector};

verus! {

/// Holds of every input: for encodings that end with a field of their own.
pub open spec fn any_input() -> spec_fn(Input) -> bool {
    |tail: Input| true
}

/// A vertex as pairs: its coordinates and its bulge.
pub open spec fn encode_vertex(vertex: HatchPolylineVertex) -> Seq<CodePair> {
    seq![f64_pair(10, vertex.x), f64_pair(20, vertex.y), f64_pair(42, vertex.bulge)]
}

/// The encoding of vertices, as a function.
pub open spec fn vertex_encoder() -> spec_fn(HatchPolylineVertex) -> Seq<CodePair> {
    |vertex: HatchPolylineVertex| encode_vertex(vertex)
}

/// A vertex is read back from its pairs.
pub proof fn lemma_vertex_reads_back(vertex: HatchPolylineVertex, tail: Input)
    ensures
        take_vertex(as_input(encode_vertex(vertex)) + tail) == decoded(vertex, tail),
{
    let input = as_input(encode_vertex(vertex)) + tail;
    assert(input[0] == Ok::<CodePair, DxfError>(f64_pair(10, vertex.x)));
    let after_x = input.skip(1);
    assert(after_x[0] == Ok::<CodePair, DxfError>(f64_pair(20, vertex.y)));
    let after_y = after_x.skip(1);
    assert(after_y[0] == Ok::<CodePair, DxfError>(f64_pair(42, vertex.bulge)));
    assert(after_y.skip(1) =~= tail);
}

/// A polyline boundary as pairs: the has-bulge hint, set, the closed flag,
/// the number of vertices, and the vertices.
pub open spec fn encode_polyline(polyline: PolylineBoundaryView) -> Seq<CodePair> {
    seq![
        flag_pair(72, true),
        flag_pair(73, polyline.is_closed),
        i32_pair(93, polyline.vertices.len() as i32),
    ] + encode_each(vertex_encoder(), polyline.vertices)
}

/// A polyline boundary with at least one vertex, and no more than its
/// count field can hold, is read back from its pairs.
pub proof fn lemma_polyline_reads_back(polyline: PolylineBoundaryView, rest: Input)
    requires
        0 < polyline.vertices.len() <= i32::MAX,
    ensures
        take_polyline_boundary(as_input(encode_polyline(polyline)) + rest) == decoded(
            Some(polyline),
            rest,
        ),
{
    reveal(take_polyline_boundary);
    let vertices = encode_each(vertex_encoder(), polyline.vertices);
    let header = seq![
        flag_pair(72, true),
        flag_pair(73, polyline.is_closed),
        i32_pair(93, polyline.vertices.len() as i32),
    ];
    let input = as_input(encode_polyline(polyline)) + rest;
    let at_vertices = as_input(vertices) + rest;
    lemma_as_input_add(header, vertices);
    assert(input =~= as_input(header) + at_vertices);
    assert(input[0] == Ok::<CodePair, DxfError>(flag_pair(72, true)));
    let after_hint = input.skip(1);
    assert(after_hint[0] == Ok::<CodePair, DxfError>(flag_pair(73, polyline.is_closed)));
    let after_flag = after_hint.skip(1);
    assert(after_flag[0] == Ok::<CodePair, DxfError>(
        i32_pair(93, polyline.vertices.len() as i32),
    ));
    assert(after_flag.skip(1) =~= at_vertices);
    assert(take_polyline_header(after_flag, polyline.is_closed) == decoded(
        (polyline.is_closed, polyline.vertices.len() as i32),
        at_vertices,
    ));
    assert(take_polyline_header(after_hint, false) == take_polyline_header(
        after_flag,
        polyline.is_closed,
    ));
    assert(take_polyline_header(input, false) == take_polyline_header(after_hint, false));
    assert forall|i: int, tail: Input|
        0 <= i < polyline.vertices.len() implies #[trigger] reads_back(
        vertex_step(),
        vertex_encoder(),
        any_input(),
        polyline.vertices[i],
        tail,
    ) by {
        lemma_vertex_reads_back(polyline.vertices[i], tail);
    }
    lemma_repeat_reads_back(
        vertex_step(),
        vertex_encoder(),
        any_input(),
        polyline.vertices,
        rest,
    );
}

/// Whether the point lies in the drawing plane.
pub open spec fn is_planar_point(p: Point) -> bool {
    p.z == Double::spec_zero()
}

/// Whether the vector lies in the drawing plane.
pub open spec fn is_planar_vector(v: Vector) -> bool {
    v.z == Double::spec_zero()
}

/// The direction flag of an arc as input.
pub open spec fn encode_direction(is_counter_clockwise: bool) -> Seq<CodePair> {
    seq![flag_pair(73, is_counter_clockwise)]
}

/// The direction flag of an arc is read back from its pair.
pub proof fn lemma_direction_reads_back(is_counter_clockwise: bool, tail: Input)
    ensures
        take_direction(as_input(encode_direction(is_counter_clockwise)) + tail) == decoded(
            is_counter_clockwise,
            tail,
        ),
{
    let input = as_input(encode_direction(is_counter_clockwise)) + tail;
    assert(input[0] == Ok::<CodePair, DxfError>(flag_pair(73, is_counter_clockwise)));
    assert(input.skip(1) =~= tail);
}

/// The fields of a line edge as pairs: the coordinates of its two ends.
pub open spec fn encode_line(line: EdgeLineData) -> Seq<CodePair> {
    f64_pairs(seq![10, 20, 11, 21], seq![line.p1.x, line.p1.y, line.p2.x, line.p2.y])
}

/// A line edge in the drawing plane is read back from its pairs.
pub proof fn lemma_line_reads_back(line: EdgeLineData, tail: Input)
    requires
        is_planar_point(line.p1),
        is_planar_point(line.p2),
    ensures
        take_line(as_input(encode_line(line)) + tail) == decoded(line, tail),
{
    reveal(take_line);
    lemma_f64s_read_back(
        seq![10, 20, 11, 21],
        seq![line.p1.x, line.p1.y, line.p2.x, line.p2.y],
        tail,
    );
}

/// The fields of a circular arc as pairs: centre, radius, angles, and the
/// direction flag.
pub open spec fn encode_circular_arc(arc: EdgeCircularArcData) -> Seq<CodePair> {
    f64_pairs(
        seq![10, 20, 40, 50, 51],
        seq![arc.center.x, arc.center.y, arc.radius, arc.start_angle, arc.end_angle],
    ) + encode_direction(arc.is_counter_clockwise)
}

/// A circular arc in the drawing plane is read back from its pairs.
pub proof fn lemma_circular_arc_reads_back(arc: EdgeCircularArcData, tail: Input)
    requires
        is_planar_point(arc.center),
    ensures
        take_circular_arc(as_input(encode_circular_arc(arc)) + tail) == decoded(arc, tail),
{
    reveal(take_circular_arc);
    let codes = seq![10, 20, 40, 50, 51];
    let values = seq![arc.center.x, arc.center.y, arc.radius, arc.start_angle, arc.end_angle];
    let at_flag = as_input(encode_direction(arc.is_counter_clockwise)) + tail;
    lemma_as_input_add(f64_pairs(codes, values), encode_direction(arc.is_counter_clockwise));
    assert(as_input(encode_circular_arc(arc)) + tail =~= as_input(f64_pairs(codes, values))
        + at_flag);
    lemma_f64s_read_back(codes, values, at_flag);
    lemma_direction_reads_back(arc.is_counter_clockwise, tail);
}

/// The fields of an elliptic arc as pairs: centre, major axis, ratio of the
/// axes, angles, and the direction flag.
pub open spec fn encode_elliptic_arc(arc: EdgeEllipticArcData) -> Seq<CodePair> {
    f64_pairs(
        seq![10, 20, 11, 21, 40, 50, 51],
        seq![
            arc.center.x,
            arc.center.y,
            arc.major_axis.x,
            arc.major_axis.y,
            arc.minor_axis_ratio,
            arc.start_angle,
            arc.end_angle,
        ],
    ) + encode_direction(arc.is_counter_clockwise)
}

/// An elliptic arc in the drawing plane is read back from its pairs.
pub proof fn lemma_elliptic_arc_reads_back(arc: EdgeEllipticArcData, tail: Input)
    requires
        is_planar_point(arc.center),
        is_planar_vector(arc.major_axis),
    ensures
        take_elliptic_arc(as_input(encode_elliptic_arc(arc)) + tail) == decoded(arc, tail),
{
    reveal(take_elliptic_arc);
    let codes = seq![10, 20, 11, 21, 40, 50, 51];
    let values = seq![
        arc.center.x,
        arc.center.y,
        arc.major_axis.x,
        arc.major_axis.y,
        arc.minor_axis_ratio,
        arc.start_angle,
        arc.end_angle,
    ];
    let at_flag = as_input(encode_direction(arc.is_counter_clockwise)) + tail;
    lemma_as_input_add(f64_pairs(codes, values), encode_direction(arc.is_counter_clockwise));
    assert(as_input(encode_elliptic_arc(arc)) + tail =~= as_input(f64_pairs(codes, values))
        + at_flag);
    lemma_f64s_read_back(codes, values, at_flag);
    lemma_direction_reads_back(arc.is_counter_clockwise, tail);
}

/// Holds of an input whose next pair is not a weight or bulge (code 42):
/// what an encoding that may end without its optional last field needs
/// behind it.
pub open spec fn no_code_42_next() -> spec_fn(Input) -> bool {
    |tail: Input| tail.len() > 0 && tail[0] is Ok && tail[0]->Ok_0.code != 42
}

/// A control point as pairs: its coordinates, and its weight if it has one.
pub open spec fn encode_control_point(control_point: (Point, Option<Double>)) -> Seq<CodePair> {
    seq![f64_pair(10, control_point.0.x), f64_pair(20, control_point.0.y)] + (
    match control_point.1 {
        Some(weight) => seq![f64_pair(42, weight)],
        None => Seq::empty(),
    })
}

/// The encoding of control points, as a function.
pub open spec fn control_point_encoder() -> spec_fn((Point, Option<Double>)) -> Seq<CodePair> {
    |control_point: (Point, Option<Double>)| encode_control_point(control_point)
}

/// A control point in the drawing plane is read back from its pairs, where
/// no pair with code 42 follows them.
pub proof fn lemma_control_point_reads_back(control_point: (Point, Option<Double>), tail: Input)
    requires
        is_planar_point(control_point.0),
    ensures
        reads_back(
            control_point_step(),
            control_point_encoder(),
            no_code_42_next(),
            control_point,
            tail,
        ),
{
    if no_code_42_next()(tail) {
        let input = as_input(encode_control_point(control_point)) + tail;
        assert(input[0] == Ok::<CodePair, DxfError>(f64_pair(10, control_point.0.x)));
        let after_x = input.skip(1);
        assert(after_x[0] == Ok::<CodePair, DxfError>(f64_pair(20, control_point.0.y)));
        let after_y = after_x.skip(1);
        match control_point.1 {
            Some(weight) => {
                assert(after_y[0] == Ok::<CodePair, DxfError>(f64_pair(42, weight)));
                assert(after_y.skip(1) =~= tail);
            },
            None => {
                assert(after_y =~= tail);
            },
        }
        assert(take_control_point(input) == decoded(control_point, tail));
    }
}

/// A fit point as pairs: its coordinates.
pub open spec fn encode_fit_point(point: Point) -> Seq<CodePair> {
    seq![f64_pair(11, point.x), f64_pair(21, point.y)]
}

/// The encoding of fit points, as a function.
pub open spec fn fit_point_encoder() -> spec_fn(Point) -> Seq<CodePair> {
    |point: Point| encode_fit_point(point)
}

/// A fit point in the drawing plane is read back from its pairs.
pub proof fn lemma_fit_point_reads_back(point: Point, tail: Input)
    requires
        is_planar_point(point),
    ensures
        reads_back(fit_point_step(), fit_point_encoder(), any_input(), point, tail),
{
    let input = as_input(encode_fit_point(point)) + tail;
    assert(input[0] == Ok::<CodePair, DxfError>(f64_pair(11, point.x)));
    let after_x = input.skip(1);
    assert(after_x[0] == Ok::<CodePair, DxfError>(f64_pair(21, point.y)));
    assert(after_x.skip(1) =~= tail);
    assert(take_fit_point(input) == decoded(point, tail));
}

impl EdgeSplineView {
    /// The control points, each with its entry in `weights`.
    pub open spec fn weighted_control_points(self) -> Seq<(Point, Option<Double>)> {
        Seq::new(self.control_points.len(), |i: int| (self.control_points[i], self.weights[i]))
    }

    /// Whether the spline can be written: each control point has its
    /// entry in `weights`, the count fields can hold the lengths of its
    /// lists, and its points and tangents lie in the drawing plane.
    pub open spec fn encodable(self) -> bool {
        &&& self.well_formed()
        &&& self.knots.len() <= i32::MAX
        &&& self.control_points.len() <= i32::MAX
        &&& self.fit_points.len() <= i32::MAX
        &&& forall|i: int|
            0 <= i < self.control_points.len() ==> is_planar_point(
                #[trigger] self.control_points[i],
            )
        &&& forall|i: int|
            0 <= i < self.fit_points.len() ==> is_planar_point(#[trigger] self.fit_points[i])
        &&& is_planar_vector(self.start_tangent)
        &&& is_planar_vector(self.end_tangent)
    }
}

/// The five leading fields of a spline edge as pairs.
pub open spec fn encode_spline_header(spline: EdgeSplineView) -> Seq<CodePair> {
    seq![
        i16_pair(94, spline.degree),
        flag_pair(73, spline.is_rational),
        flag_pair(74, spline.is_periodic),
        i32_pair(95, spline.knots.len() as i32),
        i32_pair(96, spline.control_points.len() as i32),
    ]
}

/// The end tangents of a spline edge as pairs.
pub open spec fn encode_spline_tangents(spline: EdgeSplineView) -> Seq<CodePair> {
    f64_pairs(
        seq![12, 22, 13, 23],
        seq![
            spline.start_tangent.x,
            spline.start_tangent.y,
            spline.end_tangent.x,
            spline.end_tangent.y,
        ],
    )
}

/// The fields of a spline edge as pairs: the leading fields, the knots,
/// the control points with their weights, the number of fit points, the
/// fit points, and the end tangents.
pub open spec fn encode_spline(spline: EdgeSplineView) -> Seq<CodePair> {
    encode_spline_header(spline) + f64_pairs_of(40, spline.knots) + encode_each(
        control_point_encoder(),
        spline.weighted_control_points(),
    ) + seq![i32_pair(97, spline.fit_points.len() as i32)] + encode_each(
        fit_point_encoder(),
        spline.fit_points,
    ) + encode_spline_tangents(spline)
}

/// A spline edge that can be written is read back from its pairs.
pub proof fn lemma_spline_reads_back(spline: EdgeSplineView, tail: Input)
    requires
        spline.encodable(),
    ensures
        take_spline(as_input(encode_spline(spline)) + tail) == decoded(spline, tail),
{
    reveal(take_spline);
    let header = encode_spline_header(spline);
    let knots = f64_pairs_of(40, spline.knots);
    let controls = encode_each(control_point_encoder(), spline.weighted_control_points());
    let fit_count = seq![i32_pair(97, spline.fit_points.len() as i32)];
    let fits = encode_each(fit_point_encoder(), spline.fit_points);
    let tangents = encode_spline_tangents(spline);

    let input = as_input(encode_spline(spline)) + tail;
    let at_tangents = as_input(tangents) + tail;
    let at_fits = as_input(fits) + at_tangents;
    let at_fit_count = as_input(fit_count) + at_fits;
    let at_controls = as_input(controls) + at_fit_count;
    let at_knots = as_input(knots) + at_controls;
    assert(input =~= as_input(header) + at_knots) by {
        lemma_as_input_add(header + knots + controls + fit_count + fits, tangents);
        lemma_as_input_add(header + knots + controls + fit_count, fits);
        lemma_as_input_add(header + knots + controls, fit_count);
        lemma_as_input_add(header + knots, controls);
        lemma_as_input_add(header, knots);
    }

    // The leading fields.
    let h = SplineHeader {
        degree: spline.degree,
        is_rational: spline.is_rational,
        is_periodic: spline.is_periodic,
        knot_count: spline.knots.len() as i32,
        control_point_count: spline.control_points.len() as i32,
    };
    assert(take_spline_header(input) == decoded(h, at_knots)) by {
        assert(input[0] == Ok::<CodePair, DxfError>(header[0]));
        let s1 = input.skip(1);
        assert(s1[0] == Ok::<CodePair, DxfError>(header[1]));
        let s2 = s1.skip(1);
        assert(s2[0] == Ok::<CodePair, DxfError>(header[2]));
        let s3 = s2.skip(1);
        assert(s3[0] == Ok::<CodePair, DxfError>(header[3]));
        let s4 = s3.skip(1);
        assert(s4[0] == Ok::<CodePair, DxfError>(header[4]));
        assert(s4.skip(1) =~= at_knots);
    }

    // The knots.
    lemma_f64s_read_back(
        Seq::new(spline.knots.len(), |i: int| 40i32),
        spline.knots,
        at_controls,
    );

    // The control points.
    let weighted = spline.weighted_control_points();
    assert(no_code_42_next()(at_fit_count)) by {
        assert(at_fit_count[0] == Ok::<CodePair, DxfError>(fit_count[0]));
    }
    assert forall|i: int, t: Input| 0 <= i < weighted.len() implies #[trigger] reads_back(
        control_point_step(),
        control_point_encoder(),
        no_code_42_next(),
        weighted[i],
        t,
    ) by {
        assert(is_planar_point(spline.control_points[i]));
        lemma_control_point_reads_back(weighted[i], t);
    }
    lemma_repeat_reads_back(
        control_point_step(),
        control_point_encoder(),
        no_code_42_next(),
        weighted,
        at_fit_count,
    );

    // The number of fit points.
    assert(take_i32(at_fit_count) == decoded(spline.fit_points.len() as i32, at_fits)) by {
        assert(at_fit_count[0] == Ok::<CodePair, DxfError>(fit_count[0]));
        assert(at_fit_count.skip(1) =~= at_fits);
    }
    let c = SplineControls {
        header: h,
        knots: spline.knots,
        control_points: weighted,
        fit_point_count: spline.fit_points.len() as i32,
    };
    assert(take_spline_controls(input) == decoded(c, at_fits));

    // The fit points.
    assert forall|i: int, t: Input| 0 <= i < spline.fit_points.len() implies #[trigger] reads_back(
        fit_point_step(),
        fit_point_encoder(),
        any_input(),
        spline.fit_points[i],
        t,
    ) by {
        lemma_fit_point_reads_back(spline.fit_points[i], t);
    }
    lemma_repeat_reads_back(
        fit_point_step(),
        fit_point_encoder(),
        any_input(),
        spline.fit_points,
        at_tangents,
    );

    // The end tangents.
    lemma_f64s_read_back(
        seq![12, 22, 13, 23],
        seq![
            spline.start_tangent.x,
            spline.start_tangent.y,
            spline.end_tangent.x,
            spline.end_tangent.y,
        ],
        tail,
    );

    let read = take_spline(input).result->Ok_0;
    assert(read.weights =~= spline.weights);
    assert(read.control_points =~= spline.control_points);
}

impl EdgePathView {
    /// The number that stands for the type of the edge.
    pub open spec fn type_number(self) -> i16 {
        match self {
            EdgePathView::Line(_) => BoundaryEdgeType::Line.spec_to_i16(),
            EdgePathView::CircularArc(_) => BoundaryEdgeType::CircularArc.spec_to_i16(),
            EdgePathView::EllipticArc(_) => BoundaryEdgeType::EllipticArc.spec_to_i16(),
            EdgePathView::Spline(_) => BoundaryEdgeType::Spline.spec_to_i16(),
        }
    }

    /// Whether the edge can be written: it lies in the drawing plane and,
    /// where it is a spline, the spline can be written.
    pub open spec fn encodable(self) -> bool {
        match self {
            EdgePathView::Line(line) => is_planar_point(line.p1) && is_planar_point(line.p2),
            EdgePathView::CircularArc(arc) => is_planar_point(arc.center),
            EdgePathView::EllipticArc(arc) => is_planar_point(arc.center) && is_planar_vector(
                arc.major_axis,
            ),
            EdgePathView::Spline(spline) => spline.encodable(),
        }
    }
}

/// The predicate `encodable` of edges, as a function.
pub open spec fn edge_is_encodable() -> spec_fn(EdgePathView) -> bool {
    |edge: EdgePathView| edge.encodable()
}

/// An edge as pairs: its type, then its fields.
pub open spec fn encode_edge(edge: EdgePathView) -> Seq<CodePair> {
    seq![i16_pair(72, edge.type_number())] + (match edge {
        EdgePathView::Line(line) => encode_line(line),
        EdgePathView::CircularArc(arc) => encode_circular_arc(arc),
        EdgePathView::EllipticArc(arc) => encode_elliptic_arc(arc),
        EdgePathView::Spline(spline) => encode_spline(spline),
    })
}

/// The encoding of edges, as a function.
pub open spec fn edge_encoder() -> spec_fn(EdgePathView) -> Seq<CodePair> {
    |edge: EdgePathView| encode_edge(edge)
}

/// An edge that can be written is read back from its pairs.
pub proof fn lemma_edge_reads_back(edge: EdgePathView, tail: Input)
    requires
        edge.encodable(),
    ensures
        take_edge(as_input(encode_edge(edge)) + tail) == decoded(edge, tail),
{
    let type_pair = seq![i16_pair(72, edge.type_number())];
    let input = as_input(encode_edge(edge)) + tail;
    assert(input[0] == Ok::<CodePair, DxfError>(type_pair[0]));
    match edge {
        EdgePathView::Line(line) => {
            lemma_as_input_add(type_pair, encode_line(line));
            assert(input.skip(1) =~= as_input(encode_line(line)) + tail);
            lemma_line_reads_back(line, tail);
        },
        EdgePathView::CircularArc(arc) => {
            lemma_as_input_add(type_pair, encode_circular_arc(arc));
            assert(input.skip(1) =~= as_input(encode_circular_arc(arc)) + tail);
            lemma_circular_arc_reads_back(arc, tail);
        },
        EdgePathView::EllipticArc(arc) => {
            lemma_as_input_add(type_pair, encode_elliptic_arc(arc));
            assert(input.skip(1) =~= as_input(encode_elliptic_arc(arc)) + tail);
            lemma_elliptic_arc_reads_back(arc, tail);
        },
        EdgePathView::Spline(spline) => {
            lemma_as_input_add(type_pair, encode_spline(spline));
            assert(input.skip(1) =~= as_input(encode_spline(spline)) + tail);
            lemma_spline_reads_back(spline, tail);
        },
    }
}

impl EdgeBoundaryView {
    /// Whether the boundary can be written: its count field can hold the
    /// number of its edges, and each edge can be written.
    pub open spec fn encodable(self) -> bool {
        &&& self.edges.len() <= i32::MAX
        &&& forall|i: int| 0 <= i < self.edges.len() ==> (#[trigger] self.edges[i]).encodable()
    }
}

/// A boundary path in edges as pairs: the number of edges, then the edges.
pub open spec fn encode_edge_boundary(boundary: EdgeBoundaryView) -> Seq<CodePair> {
    seq![i32_pair(93, boundary.edges.len() as i32)] + encode_each(edge_encoder(), boundary.edges)
}

/// A boundary path in edges that can be written is read back from its pairs.
pub proof fn lemma_edge_boundary_reads_back(boundary: EdgeBoundaryView, rest: Input)
    requires
        boundary.encodable(),
    ensures
        take_edge_boundary(as_input(encode_edge_boundary(boundary)) + rest) == decoded(
            boundary,
            rest,
        ),
{
    reveal(take_edge_boundary);
    let count = seq![i32_pair(93, boundary.edges.len() as i32)];
    let edges = encode_each(edge_encoder(), boundary.edges);
    let input = as_input(encode_edge_boundary(boundary)) + rest;
    lemma_as_input_add(count, edges);
    assert(input[0] == Ok::<CodePair, DxfError>(count[0]));
    assert(input.skip(1) =~= as_input(edges) + rest);
    assert forall|i: int, tail: Input| 0 <= i < boundary.edges.len() implies #[trigger] reads_back(
        edge_step(),
        edge_encoder(),
        any_input(),
        boundary.edges[i],
        tail,
    ) by {
        lemma_edge_reads_back(boundary.edges[i], tail);
    }
    lemma_repeat_reads_back(edge_step(), edge_encoder(), any_input(), boundary.edges, rest);
}

impl BoundaryPathView {
    /// Whether the path can be written. A polyline needs a vertex, since
    /// one without is read as no path at all.
    pub open spec fn encodable(self) -> bool {
        match self {
            BoundaryPathView::Polyline(polyline) => 0 < polyline.vertices.len() <= i32::MAX,
            BoundaryPathView::Edge(boundary) => boundary.encodable(),
        }
    }
}

/// The geometry of a boundary path as pairs.
pub open spec fn encode_boundary_path(path: BoundaryPathView) -> Seq<CodePair> {
    match path {
        BoundaryPathView::Polyline(polyline) => encode_polyline(polyline),
        BoundaryPathView::Edge(boundary) => encode_edge_boundary(boundary),
    }
}

/// The type under which the geometry of a path is read as it was written.
pub open spec fn fits_path_type(path_type: BoundaryPathType, path: BoundaryPathView) -> bool {
    path_type == BoundaryPathType::Polyline <==> path is Polyline
}

/// A boundary path that can be written is read back from its pairs,
/// whatever follows them in the input.
pub proof fn lemma_boundary_path_reads_back(
    path_type: BoundaryPathType,
    path: BoundaryPathView,
    rest: Input,
)
    requires
        path.encodable(),
        fits_path_type(path_type, path),
    ensures
        take_path_geometry(path_type, as_input(encode_boundary_path(path)) + rest) == decoded(
            Some(path),
            rest,
        ),
{
    match path {
        BoundaryPathView::Polyline(polyline) => {
            lemma_polyline_reads_back(polyline, rest);
        },
        BoundaryPathView::Edge(boundary) => {
            lemma_edge_boundary_reads_back(boundary, rest);
        },
    }
}

/// The predicate that a control point lies in the drawing plane, as a
/// function.
pub open spec fn control_point_is_planar() -> spec_fn((Point, Option<Double>)) -> bool {
    |control_point: (Point, Option<Double>)| is_planar_point(control_point.0)
}

/// The predicate that a point lies in the drawing plane, as a function.
pub open spec fn point_is_planar() -> spec_fn(Point) -> bool {
    |point: Point| is_planar_point(point)
}

/// A spline edge that was read can be written.
pub proof fn lemma_spline_read_is_encodable(s: Input)
    requires
        take_spline(s).result is Ok,
    ensures
        take_spline(s).result->Ok_0.encodable(),
{
    lemma_spline_counts(s);
    reveal(take_spline);
    let spline = take_spline(s).result->Ok_0;
    let controls = take_spline_controls(s);
    let c = controls.result->Ok_0;
    let header = take_spline_header(s);
    let h = header.result->Ok_0;
    let knots = repeat(f64_step(), header.rest, count_of(h.knot_count));
    assert forall|t: Input| #[trigger]
        step_yields(control_point_step(), control_point_is_planar(), t) by {}
    lemma_repeat_all(
        control_point_step(),
        control_point_is_planar(),
        knots.rest,
        count_of(h.control_point_count),
    );
    assert forall|t: Input| #[trigger] step_yields(fit_point_step(), point_is_planar(), t) by {}
    lemma_repeat_all(
        fit_point_step(),
        point_is_planar(),
        controls.rest,
        count_of(c.fit_point_count),
    );
    assert forall|i: int| 0 <= i < spline.control_points.len() implies is_planar_point(
        #[trigger] spline.control_points[i],
    ) by {
        assert(control_point_is_planar()(c.control_points[i]));
    }
    assert forall|i: int| 0 <= i < spline.fit_points.len() implies is_planar_point(
        #[trigger] spline.fit_points[i],
    ) by {
        assert(point_is_planar()(spline.fit_points[i]));
    }
}

/// An edge that was read can be written.
pub proof fn lemma_edge_read_is_encodable(s: Input)
    requires
        take_edge(s).result is Ok,
    ensures
        take_edge(s).result->Ok_0.encodable(),
{
    reveal(take_line);
    reveal(take_circular_arc);
    reveal(take_elliptic_arc);
    let edge_type = take_i16(s);
    match BoundaryEdgeType::spec_decode(edge_type.result->Ok_0) {
        BoundaryEdgeType::Spline => {
            lemma_spline_read_is_encodable(edge_type.rest);
        },
        _ => {},
    }
}

/// A boundary path in edges that was read can be written.
pub proof fn lemma_edge_boundary_read_is_encodable(s: Input)
    requires
        take_edge_boundary(s).result is Ok,
    ensures
        take_edge_boundary(s).result->Ok_0.encodable(),
{
    reveal(take_edge_boundary);
    let count = take_coded_i32(s, 93);
    assert forall|t: Input| #[trigger] step_yields(edge_step(), edge_is_encodable(), t) by {
        if take_edge(t).result is Ok {
            lemma_edge_read_is_encodable(t);
        }
    }
    lemma_repeat_all(
        edge_step(),
        edge_is_encodable(),
        count.rest,
        count_of(count.result->Ok_0),
    );
}

/// Reading is the inverse of writing on what reading gives: a boundary
/// path that was read from any input is read again, the same, from the
/// pairs that it is written as, whatever follows them.
pub proof fn lemma_boundary_path_round_trip(path_type: BoundaryPathType, s: Input, rest: Input)
    requires
        take_path_geometry(path_type, s).result is Ok,
        take_path_geometry(path_type, s).result->Ok_0 is Some,
    ensures
        ({
            let path = take_path_geometry(path_type, s).result->Ok_0->Some_0;
            take_path_geometry(path_type, as_input(encode_boundary_path(path)) + rest) == decoded(
                Some(path),
                rest,
            )
        }),
{
    let path = take_path_geometry(path_type, s).result->Ok_0->Some_0;
    if path_type == BoundaryPathType::Polyline {
        lemma_polyline_vertex_count(s);
    } else {
        lemma_edge_boundary_read_is_encodable(s);
    }
    lemma_boundary_path_reads_back(path_type, path, rest);
}

/// The six fields that each pattern line must have, as pairs.
pub open spec fn encode_pattern_line_fields(line: HatchPatternLineView) -> Seq<CodePair> {
    seq![
        f64_pair(53, line.angle),
        f64_pair(43, line.base_point_x),
        f64_pair(44, line.base_point_y),
        f64_pair(45, line.offset_x),
        f64_pair(46, line.offset_y),
        i32_pair(79, line.dash_lengths.len() as i32),
    ]
}

/// A pattern line as pairs: angle, base point, offset, the number of
/// dashes, and the dash lengths.
pub open spec fn encode_pattern_line(line: HatchPatternLineView) -> Seq<CodePair> {
    encode_pattern_line_fields(line) + f64_pairs_of(49, line.dash_lengths)
}

/// The state in which the first `k` dash lengths of `line` are read, after
/// its six other fields.
pub open spec fn dashes_read_state(line: HatchPatternLineView, k: int) -> PatternLineState {
    PatternLineState {
        line: HatchPatternLineView { dash_lengths: line.dash_lengths.take(k), ..line },
        dash_count: line.dash_lengths.len() as i32,
        dashes_read: k,
        mandatory_fields_read: 6,
    }
}

/// The dash lengths of a pattern line that are not read yet are read from
/// their pairs, and complete the line.
pub proof fn lemma_dashes_read_back(line: HatchPatternLineView, k: int, rest: Input)
    requires
        0 <= k < line.dash_lengths.len() <= i32::MAX,
    ensures
        take_pattern_line_from(
            as_input(f64_pairs_of(49, line.dash_lengths.skip(k))) + rest,
            dashes_read_state(line, k),
        ) == decoded(line, rest),
    decreases line.dash_lengths.len() - k,
{
    let input = as_input(f64_pairs_of(49, line.dash_lengths.skip(k))) + rest;
    let state = dashes_read_state(line, k);
    assert(input[0] == Ok::<CodePair, DxfError>(f64_pair(49, line.dash_lengths[k])));
    let after = state.with_dash(line.dash_lengths[k]);
    assert(line.dash_lengths.take(k).push(line.dash_lengths[k]) =~= line.dash_lengths.take(k + 1));
    assert(after == dashes_read_state(line, k + 1));
    if k + 1 == line.dash_lengths.len() {
        assert(input.skip(1) =~= rest);
        assert(line.dash_lengths.take(k + 1) =~= line.dash_lengths);
    } else {
        assert(input.skip(1) =~= as_input(f64_pairs_of(49, line.dash_lengths.skip(k + 1))) + rest);
        lemma_dashes_read_back(line, k + 1, rest);
    }
}

/// A pattern line with no more dashes than its count field can hold is
/// read back from its pairs, whatever follows them.
pub proof fn lemma_pattern_line_reads_back(line: HatchPatternLineView, rest: Input)
    requires
        line.dash_lengths.len() <= i32::MAX,
    ensures
        take_pattern_line(as_input(encode_pattern_line(line)) + rest) == decoded(line, rest),
{
    let fields = encode_pattern_line_fields(line);
    let dashes = f64_pairs_of(49, line.dash_lengths);
    let at_dashes = as_input(dashes) + rest;
    let input = as_input(encode_pattern_line(line)) + rest;
    lemma_as_input_add(fields, dashes);
    assert(input =~= as_input(fields) + at_dashes);
    let empty = HatchPatternLineView::empty();

    let s0 = PatternLineState::start();
    assert(input[0] == Ok::<CodePair, DxfError>(fields[0]));
    let i1 = input.skip(1);
    let s1 = s0.with_field(HatchPatternLineView { angle: line.angle, ..s0.line });
    assert(take_pattern_line_from(input, s0) == take_pattern_line_from(i1, s1));

    assert(i1[0] == Ok::<CodePair, DxfError>(fields[1]));
    let i2 = i1.skip(1);
    let s2 = s1.with_field(HatchPatternLineView { base_point_x: line.base_point_x, ..s1.line });
    assert(take_pattern_line_from(i1, s1) == take_pattern_line_from(i2, s2));

    assert(i2[0] == Ok::<CodePair, DxfError>(fields[2]));
    let i3 = i2.skip(1);
    let s3 = s2.with_field(HatchPatternLineView { base_point_y: line.base_point_y, ..s2.line });
    assert(take_pattern_line_from(i2, s2) == take_pattern_line_from(i3, s3));

    assert(i3[0] == Ok::<CodePair, DxfError>(fields[3]));
    let i4 = i3.skip(1);
    let s4 = s3.with_field(HatchPatternLineView { offset_x: line.offset_x, ..s3.line });
    assert(take_pattern_line_from(i3, s3) == take_pattern_line_from(i4, s4));

    assert(i4[0] == Ok::<CodePair, DxfError>(fields[4]));
    let i5 = i4.skip(1);
    let s5 = s4.with_field(HatchPatternLineView { offset_y: line.offset_y, ..s4.line });
    assert(take_pattern_line_from(i4, s4) == take_pattern_line_from(i5, s5));

    assert(i5[0] == Ok::<CodePair, DxfError>(fields[5]));
    assert(i5.skip(1) =~= at_dashes);
    let s6 = s5.with_dash_count(line.dash_lengths.len() as i32);
    assert(line.dash_lengths.take(0) =~= Seq::empty());
    assert(s6 == dashes_read_state(line, 0));
    if line.dash_lengths.len() == 0 {
        assert(at_dashes =~= rest);
        assert(line.dash_lengths =~= Seq::empty());
        assert(take_pattern_line_from(i5, s5) == decoded(line, rest));
    } else {
        assert(line.dash_lengths.skip(0) =~= line.dash_lengths);
        lemma_dashes_read_back(line, 0, rest);
        assert(take_pattern_line_from(i5, s5) == take_pattern_line_from(at_dashes, s6));
    }
}

/// A pattern line that is read has no more dashes than a count field can
/// hold, where that is so of the dashes read before.
pub proof fn lemma_pattern_line_read_is_encodable(s: Input, state: PatternLineState)
    requires
        take_pattern_line_from(s, state).result is Ok,
        state.line.dash_lengths.len() == state.dashes_read,
        state.dashes_read <= i32::MAX,
    ensures
        take_pattern_line_from(s, state).result->Ok_0.dash_lengths.len() <= i32::MAX,
    decreases s.len(),
{
    let pair = take_pair(s);
    match pattern_line_event(state, pair.result->Ok_0) {
        PatternLineEvent::Read(next) => {
            if !next.is_complete() {
                lemma_pattern_line_read_is_encodable(pair.rest, next);
            }
        },
        _ => {},
    }
}

/// Reading is the inverse of writing on what reading gives: a pattern line
/// that was read from any input is read again, the same, from the pairs
/// that it is written as, whatever follows them.
pub proof fn lemma_pattern_line_round_trip(s: Input, rest: Input)
    requires
        take_pattern_line(s).result is Ok,
    ensures
        ({
            let line = take_pattern_line(s).result->Ok_0;
            take_pattern_line(as_input(encode_pattern_line(line)) + rest) == decoded(line, rest)
        }),
{
    lemma_pattern_line_read_is_encodable(s, PatternLineState::start());
    lemma_pattern_line_reads_back(take_pattern_line(s).result->Ok_0, rest);
}

} // verus!
