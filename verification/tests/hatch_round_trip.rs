use dxf::code_pair::CodePair;
use dxf::code_pair_put_back::CodePairPutBack;
use dxf::double::Double;
use dxf::entities::Hatch;
use dxf::enums::BoundaryPathType;
use dxf::hatch::{
    BoundaryPath, EdgeBoundaryData, EdgeCircularArcData, EdgeEllipticArcData, EdgeLineData,
    EdgePath, EdgeSplineData, HatchPatternBoundaryData, HatchPatternLineData,
    HatchPolylineVertex, PolylineBoundaryData,
};
use dxf::point::{Point, Vector};

fn d(value: f64) -> Double {
    Double::from_bits(value.to_bits())
}

fn point(x: f64, y: f64) -> Point {
    Point::new(d(x), d(y), d(0.0))
}

fn flag(code: i32, set: bool) -> CodePair {
    CodePair::new_i16(code, if set { 1 } else { 0 })
}

fn write_edge(edge: &EdgePath, pairs: &mut Vec<CodePair>) {
    match edge {
        EdgePath::Line(line) => {
            pairs.push(CodePair::new_i16(72, 1));
            pairs.push(CodePair::new_f64(10, line.p1.x));
            pairs.push(CodePair::new_f64(20, line.p1.y));
            pairs.push(CodePair::new_f64(11, line.p2.x));
            pairs.push(CodePair::new_f64(21, line.p2.y));
        }
        EdgePath::CircularArc(arc) => {
            pairs.push(CodePair::new_i16(72, 2));
            pairs.push(CodePair::new_f64(10, arc.center.x));
            pairs.push(CodePair::new_f64(20, arc.center.y));
            pairs.push(CodePair::new_f64(40, arc.radius));
            pairs.push(CodePair::new_f64(50, arc.start_angle));
            pairs.push(CodePair::new_f64(51, arc.end_angle));
            pairs.push(flag(73, arc.is_counter_clockwise));
        }
        EdgePath::EllipticArc(arc) => {
            pairs.push(CodePair::new_i16(72, 3));
            pairs.push(CodePair::new_f64(10, arc.center.x));
            pairs.push(CodePair::new_f64(20, arc.center.y));
            pairs.push(CodePair::new_f64(11, arc.major_axis.x));
            pairs.push(CodePair::new_f64(21, arc.major_axis.y));
            pairs.push(CodePair::new_f64(40, arc.minor_axis_ratio));
            pairs.push(CodePair::new_f64(50, arc.start_angle));
            pairs.push(CodePair::new_f64(51, arc.end_angle));
            pairs.push(flag(73, arc.is_counter_clockwise));
        }
        EdgePath::Spline(spline) => {
            pairs.push(CodePair::new_i16(72, 4));
            pairs.push(CodePair::new_i16(94, spline.degree));
            pairs.push(flag(73, spline.is_rational));
            pairs.push(flag(74, spline.is_periodic));
            pairs.push(CodePair::new_i32(95, spline.knots.len() as i32));
            pairs.push(CodePair::new_i32(96, spline.control_points.len() as i32));
            for knot in &spline.knots {
                pairs.push(CodePair::new_f64(40, *knot));
            }
            for (control_point, weight) in spline.control_points.iter().zip(&spline.weights) {
                pairs.push(CodePair::new_f64(10, control_point.x));
                pairs.push(CodePair::new_f64(20, control_point.y));
                if let Some(weight) = weight {
                    pairs.push(CodePair::new_f64(42, *weight));
                }
            }
            pairs.push(CodePair::new_i32(97, spline.fit_points.len() as i32));
            for fit_point in &spline.fit_points {
                pairs.push(CodePair::new_f64(11, fit_point.x));
                pairs.push(CodePair::new_f64(21, fit_point.y));
            }
            pairs.push(CodePair::new_f64(12, spline.start_tangent.x));
            pairs.push(CodePair::new_f64(22, spline.start_tangent.y));
            pairs.push(CodePair::new_f64(13, spline.end_tangent.x));
            pairs.push(CodePair::new_f64(23, spline.end_tangent.y));
        }
    }
}

fn write_path(path: &BoundaryPath) -> Vec<CodePair> {
    let mut pairs = Vec::new();
    match path {
        BoundaryPath::Polyline(polyline) => {
            pairs.push(flag(72, true));
            pairs.push(flag(73, polyline.is_closed));
            pairs.push(CodePair::new_i32(93, polyline.vertices.len() as i32));
            for vertex in &polyline.vertices {
                pairs.push(CodePair::new_f64(10, vertex.x));
                pairs.push(CodePair::new_f64(20, vertex.y));
                pairs.push(CodePair::new_f64(42, vertex.bulge));
            }
        }
        BoundaryPath::Edge(boundary) => {
            pairs.push(CodePair::new_i32(93, boundary.edges.len() as i32));
            for edge in &boundary.edges {
                write_edge(edge, &mut pairs);
            }
        }
    }
    pairs
}

fn write_pattern_line(line: &HatchPatternLineData) -> Vec<CodePair> {
    let mut pairs = vec![
        CodePair::new_f64(53, line.angle),
        CodePair::new_f64(43, line.base_point_x),
        CodePair::new_f64(44, line.base_point_y),
        CodePair::new_f64(45, line.offset_x),
        CodePair::new_f64(46, line.offset_y),
        CodePair::new_i32(79, line.dash_lengths.len() as i32),
    ];
    for length in &line.dash_lengths {
        pairs.push(CodePair::new_f64(49, *length));
    }
    pairs
}

fn read_path(
    path_type: BoundaryPathType,
    pairs: Vec<CodePair>,
) -> (HatchPatternBoundaryData, usize) {
    let mut parser = CodePairPutBack::from_code_pairs(pairs);
    let mut hatch = Hatch::new();
    let r = match path_type {
        BoundaryPathType::Polyline => {
            HatchPatternBoundaryData::read_polyline_boundary(&mut hatch, path_type, &mut parser)
        }
        _ => HatchPatternBoundaryData::read_edge_boundary(&mut hatch, path_type, &mut parser),
    };
    assert_eq!(r, Ok(true));
    assert_eq!(hatch.pattern_boundary_data.len(), 1);
    (hatch.pattern_boundary_data.remove(0), parser.remaining())
}

#[test]
fn edge_boundary_is_read_back_from_what_it_is_written_as() {
    let path = BoundaryPath::Edge(EdgeBoundaryData {
        edges: vec![
            EdgePath::Line(EdgeLineData { p1: point(0.0, 0.0), p2: point(10.0, 0.0) }),
            EdgePath::CircularArc(EdgeCircularArcData {
                center: point(10.0, 5.0),
                radius: d(5.0),
                start_angle: d(270.0),
                end_angle: d(90.0),
                is_counter_clockwise: true,
            }),
            EdgePath::Spline(EdgeSplineData {
                degree: 3,
                is_rational: false,
                is_periodic: true,
                knots: vec![d(0.0), d(0.5), d(1.0)],
                weights: vec![None, Some(d(f64::NAN)), None],
                control_points: vec![point(10.0, 10.0), point(5.0, 12.0), point(0.0, 10.0)],
                fit_points: vec![point(5.0, 11.0)],
                start_tangent: Vector::new(d(-1.0), d(0.0), d(0.0)),
                end_tangent: Vector::new(d(0.0), d(-1.0), d(0.0)),
            }),
            EdgePath::EllipticArc(EdgeEllipticArcData {
                center: point(0.0, 5.0),
                major_axis: Vector::new(d(0.0), d(5.0), d(0.0)),
                minor_axis_ratio: d(0.5),
                start_angle: d(0.0),
                end_angle: d(180.0),
                is_counter_clockwise: false,
            }),
        ],
    });
    let mut pairs = write_path(&path);
    pairs.push(CodePair::new_i32(97, 0));
    let (first, left) = read_path(BoundaryPathType::External, pairs);
    assert_eq!(first.path, path);
    assert_eq!(left, 1);
    let (second, left) = read_path(BoundaryPathType::External, write_path(&first.path));
    assert_eq!(second, first);
    assert_eq!(left, 0);
}

#[test]
fn polyline_boundary_is_read_back_from_what_it_is_written_as() {
    let path = BoundaryPath::Polyline(PolylineBoundaryData {
        is_closed: true,
        vertices: vec![
            HatchPolylineVertex { x: d(0.0), y: d(0.0), bulge: d(0.0) },
            HatchPolylineVertex { x: d(2.0), y: d(0.0), bulge: d(-0.0) },
            HatchPolylineVertex { x: d(2.0), y: d(2.0), bulge: d(1.0) },
        ],
    });
    let (first, left) = read_path(BoundaryPathType::Polyline, write_path(&path));
    assert_eq!(first.path, path);
    assert_eq!(left, 0);
    let (second, _) = read_path(BoundaryPathType::Polyline, write_path(&first.path));
    assert_eq!(second, first);
}

#[test]
fn pattern_line_is_read_back_from_what_it_is_written_as() {
    let lines = vec![
        HatchPatternLineData {
            angle: d(45.0),
            base_point_x: d(0.0),
            base_point_y: d(0.0),
            offset_x: d(1.0),
            offset_y: d(1.0),
            dash_lengths: vec![d(0.5), d(-0.25)],
        },
        HatchPatternLineData {
            angle: d(0.0),
            base_point_x: d(1.5),
            base_point_y: d(-2.5),
            offset_x: d(0.0),
            offset_y: d(0.25),
            dash_lengths: vec![],
        },
    ];
    let mut pairs = Vec::new();
    for line in &lines {
        pairs.extend(write_pattern_line(line));
    }
    pairs.push(CodePair::new_i16(98, 0));
    let mut parser = CodePairPutBack::from_code_pairs(pairs);
    let mut hatch = Hatch::new();
    let mut count = 2;
    let r = HatchPatternLineData::read_pattern_line(&mut hatch, &mut count, &mut parser);
    assert_eq!(r, Ok(()));
    assert_eq!(hatch.pattern_line_data, lines);
    assert_eq!(parser.remaining(), 1);
}
