//! The boundary paths and pattern lines of a hatch, and what each holds.

use vstd::prelude::*;
use crate::double::Double;
use crate::enums::BoundaryPathType;
use crate::point::{Point, Vector};

verus! {

/// One corner of a polyline boundary. The bulge says how far the segment
/// that starts at the corner is bent; 0 is a straight segment.
#[derive(Clone, Copy, Debug, PartialEq, Eq, Structural)]
pub struct HatchPolylineVertex {
    pub x: Double,
    pub y: Double,
    pub bulge: Double,
}

impl Default for HatchPolylineVertex {
    fn default() -> (vertex: HatchPolylineVertex)
        ensures
            vertex == (HatchPolylineVertex {
                x: Double::spec_zero(),
                y: Double::spec_zero(),
                bulge: Double::spec_zero(),
            }),
    {
        HatchPolylineVertex { x: Double::zero(), y: Double::zero(), bulge: Double::zero() }
    }
}

/// A boundary path given by its corners.
#[derive(Clone, Debug, PartialEq)]
pub struct PolylineBoundaryData {
    pub is_closed: bool,
    pub vertices: Vec<HatchPolylineVertex>,
}

/// What a `PolylineBoundaryData` holds.
pub struct PolylineBoundaryView {
    pub is_closed: bool,
    pub vertices: Seq<HatchPolylineVertex>,
}

impl View for PolylineBoundaryData {
    type V = PolylineBoundaryView;

    open spec fn view(&self) -> PolylineBoundaryView {
        PolylineBoundaryView { is_closed: self.is_closed, vertices: self.vertices@ }
    }
}

/// A straight edge from `p1` to `p2`.
#[derive(Clone, Copy, Debug, PartialEq, Eq, Structural)]
pub struct EdgeLineData {
    pub p1: Point,
    pub p2: Point,
}

/// An edge along a circle. Angles are kept as the input gives them.
#[derive(Clone, Copy, Debug, PartialEq, Eq, Structural)]
pub struct EdgeCircularArcData {
    pub center: Point,
    pub radius: Double,
    pub start_angle: Double,
    pub end_angle: Double,
    pub is_counter_clockwise: bool,
}

/// An edge along an ellipse. Angles are kept as the input gives them.
#[derive(Clone, Copy, Debug, PartialEq, Eq, Structural)]
pub struct EdgeEllipticArcData {
    pub center: Point,
    pub major_axis: Vector,
    pub minor_axis_ratio: Double,
    pub start_angle: Double,
    pub end_angle: Double,
    pub is_counter_clockwise: bool,
}

/// An edge along a spline. `weights` has one entry for each control point,
/// `None` where the input gave the point no weight.
#[derive(Clone, Debug, PartialEq)]
pub struct EdgeSplineData {
    pub degree: i16,
    pub is_rational: bool,
    pub is_periodic: bool,
    pub knots: Vec<Double>,
    pub weights: Vec<Option<Double>>,
    pub control_points: Vec<Point>,
    pub fit_points: Vec<Point>,
    pub start_tangent: Vector,
    pub end_tangent: Vector,
}

/// What an `EdgeSplineData` holds.
pub struct EdgeSplineView {
    pub degree: i16,
    pub is_rational: bool,
    pub is_periodic: bool,
    pub knots: Seq<Double>,
    pub weights: Seq<Option<Double>>,
    pub control_points: Seq<Point>,
    pub fit_points: Seq<Point>,
    pub start_tangent: Vector,
    pub end_tangent: Vector,
}

impl View for EdgeSplineData {
    type V = EdgeSplineView;

    open spec fn view(&self) -> EdgeSplineView {
        EdgeSplineView {
            degree: self.degree,
            is_rational: self.is_rational,
            is_periodic: self.is_periodic,
            knots: self.knots@,
            weights: self.weights@,
            control_points: self.control_points@,
            fit_points: self.fit_points@,
            start_tangent: self.start_tangent,
            end_tangent: self.end_tangent,
        }
    }
}

impl EdgeSplineView {
    /// Each control point has its entry in `weights`.
    pub open spec fn well_formed(self) -> bool {
        self.weights.len() == self.control_points.len()
    }
}

/// One edge of a boundary path.
#[derive(Clone, Debug, PartialEq)]
pub enum EdgePath {
    Line(EdgeLineData),
    CircularArc(EdgeCircularArcData),
    EllipticArc(EdgeEllipticArcData),
    Spline(EdgeSplineData),
}

/// What an `EdgePath` holds.
pub enum EdgePathView {
    Line(EdgeLineData),
    CircularArc(EdgeCircularArcData),
    EllipticArc(EdgeEllipticArcData),
    Spline(EdgeSplineView),
}

impl View for EdgePath {
    type V = EdgePathView;

    open spec fn view(&self) -> EdgePathView {
        match self {
            EdgePath::Line(line) => EdgePathView::Line(*line),
            EdgePath::CircularArc(arc) => EdgePathView::CircularArc(*arc),
            EdgePath::EllipticArc(arc) => EdgePathView::EllipticArc(*arc),
            EdgePath::Spline(spline) => EdgePathView::Spline(spline@),
        }
    }
}

/// What a list of edges holds, edge by edge.
pub open spec fn edge_views(edges: Seq<EdgePath>) -> Seq<EdgePathView> {
    edges.map_values(|edge: EdgePath| edge@)
}

/// A boundary path given by its edges.
#[derive(Clone, Debug, PartialEq)]
pub struct EdgeBoundaryData {
    pub edges: Vec<EdgePath>,
}

/// What an `EdgeBoundaryData` holds.
pub struct EdgeBoundaryView {
    pub edges: Seq<EdgePathView>,
}

impl View for EdgeBoundaryData {
    type V = EdgeBoundaryView;

    open spec fn view(&self) -> EdgeBoundaryView {
        EdgeBoundaryView { edges: edge_views(self.edges@) }
    }
}

/// The outline of one region that a hatch fills.
#[derive(Clone, Debug, PartialEq)]
pub enum BoundaryPath {
    Polyline(PolylineBoundaryData),
    Edge(EdgeBoundaryData),
}

/// What a `BoundaryPath` holds.
pub enum BoundaryPathView {
    Polyline(PolylineBoundaryView),
    Edge(EdgeBoundaryView),
}

impl View for BoundaryPath {
    type V = BoundaryPathView;

    open spec fn view(&self) -> BoundaryPathView {
        match self {
            BoundaryPath::Polyline(polyline) => BoundaryPathView::Polyline(polyline@),
            BoundaryPath::Edge(edge) => BoundaryPathView::Edge(edge@),
        }
    }
}

/// A boundary path together with its type.
#[derive(Clone, Debug, PartialEq)]
pub struct HatchPatternBoundaryData {
    pub path_type: BoundaryPathType,
    pub path: BoundaryPath,
}

/// What a `HatchPatternBoundaryData` holds.
pub struct HatchPatternBoundaryView {
    pub path_type: BoundaryPathType,
    pub path: BoundaryPathView,
}

impl View for HatchPatternBoundaryData {
    type V = HatchPatternBoundaryView;

    open spec fn view(&self) -> HatchPatternBoundaryView {
        HatchPatternBoundaryView { path_type: self.path_type, path: self.path@ }
    }
}

/// What a list of boundary paths holds, path by path.
pub open spec fn boundary_data_views(paths: Seq<HatchPatternBoundaryData>) -> Seq<
    HatchPatternBoundaryView,
> {
    paths.map_values(|data: HatchPatternBoundaryData| data@)
}

impl Default for HatchPatternBoundaryData {
    fn default() -> (data: HatchPatternBoundaryData)
        ensures
            data@ == (HatchPatternBoundaryView {
                path_type: BoundaryPathType::Default,
                path: BoundaryPathView::Polyline(
                    PolylineBoundaryView { is_closed: false, vertices: Seq::empty() },
                ),
            }),
    {
        HatchPatternBoundaryData {
            path_type: BoundaryPathType::Default,
            path: BoundaryPath::Polyline(
                PolylineBoundaryData { is_closed: false, vertices: Vec::new() },
            ),
        }
    }
}

/// One family of parallel dashed lines of a fill pattern. A negative dash
/// length stands for a gap.
#[derive(Clone, Debug, PartialEq)]
pub struct HatchPatternLineData {
    /// Pattern line angle (in degrees)
    pub angle: Double,
    /// Pattern line base point, X component
    pub base_point_x: Double,
    /// Pattern line base point, Y component
    pub base_point_y: Double,
    /// Pattern line offset, X component
    pub offset_x: Double,
    /// Pattern line offset, Y component
    pub offset_y: Double,
    /// Dash length
    pub dash_lengths: Vec<Double>,
}

/// What a `HatchPatternLineData` holds.
pub struct HatchPatternLineView {
    pub angle: Double,
    pub base_point_x: Double,
    pub base_point_y: Double,
    pub offset_x: Double,
    pub offset_y: Double,
    pub dash_lengths: Seq<Double>,
}

impl View for HatchPatternLineData {
    type V = HatchPatternLineView;

    open spec fn view(&self) -> HatchPatternLineView {
        HatchPatternLineView {
            angle: self.angle,
            base_point_x: self.base_point_x,
            base_point_y: self.base_point_y,
            offset_x: self.offset_x,
            offset_y: self.offset_y,
            dash_lengths: self.dash_lengths@,
        }
    }
}

impl HatchPatternLineView {
    /// The pattern line whose fields are all zero and which has no dashes.
    pub open spec fn empty() -> HatchPatternLineView {
        HatchPatternLineView {
            angle: Double::spec_zero(),
            base_point_x: Double::spec_zero(),
            base_point_y: Double::spec_zero(),
            offset_x: Double::spec_zero(),
            offset_y: Double::spec_zero(),
            dash_lengths: Seq::empty(),
        }
    }
}

/// What a list of pattern lines holds, line by line.
pub open spec fn pattern_line_views(lines: Seq<HatchPatternLineData>) -> Seq<HatchPatternLineView> {
    lines.map_values(|line: HatchPatternLineData| line@)
}

impl Default for HatchPatternLineData {
    fn default() -> (line: HatchPatternLineData)
        ensures
            line@ == HatchPatternLineView::empty(),
    {
        HatchPatternLineData {
            angle: Double::zero(),
            base_point_x: Double::zero(),
            base_point_y: Double::zero(),
            offset_x: Double::zero(),
            offset_y: Double::zero(),
            dash_lengths: Vec::new(),
        }
    }
}

} // verus!
