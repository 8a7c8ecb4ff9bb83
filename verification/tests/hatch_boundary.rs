use dxf::code_pair::CodePair;
use dxf::code_pair_put_back::CodePairPutBack;
use dxf::double::Double;
use dxf::entities::Hatch;
use dxf::enums::BoundaryPathType;
use dxf::error::DxfError;
use dxf::hatch::{
    BoundaryPath, EdgeCircularArcData, EdgeEllipticArcData, EdgeLineData, EdgePath,
    HatchPatternBoundaryData, HatchPolylineVertex,
};
use dxf::point::{Point, Vector};

fn d(value: f64) -> Double {
    Double::from_bits(value.to_bits())
}

fn f(code: i32, value: f64) -> CodePair {
    CodePair::new_f64(code, d(value))
}

fn point(x: f64, y: f64) -> Point {
    Point::new(d(x), d(y), d(0.0))
}

fn vertex(x: f64, y: f64, bulge: f64) -> HatchPolylineVertex {
    HatchPolylineVertex { x: d(x), y: d(y), bulge: d(bulge) }
}

fn source(pairs: Vec<CodePair>) -> CodePairPutBack {
    CodePairPutBack::from_code_pairs(pairs)
}

#[test]
fn polyline_block_has_the_declared_number_of_vertices() {
    let mut parser = source(vec![
        CodePair::new_i16(72, 1),
        CodePair::new_i16(73, 1),
        CodePair::new_i32(93, 3),
        f(10, 0.0),
        f(20, 0.0),
        f(42, 0.5),
        f(10, 4.0),
        f(20, 0.0),
        f(10, 4.0),
        f(20, 3.0),
        f(42, -1.0),
        CodePair::new_i32(97, 0),
    ]);
    let mut hatch = Hatch::new();
    let r = HatchPatternBoundaryData::read_polyline_boundary(
        &mut hatch,
        BoundaryPathType::Polyline,
        &mut parser,
    );
    assert_eq!(r, Ok(true));
    assert_eq!(hatch.pattern_boundary_data.len(), 1);
    let data = &hatch.pattern_boundary_data[0];
    assert_eq!(data.path_type, BoundaryPathType::Polyline);
    match &data.path {
        BoundaryPath::Polyline(polyline) => {
            assert!(polyline.is_closed);
            assert_eq!(
                polyline.vertices,
                vec![vertex(0.0, 0.0, 0.5), vertex(4.0, 0.0, 0.0), vertex(4.0, 3.0, -1.0)]
            );
        }
        BoundaryPath::Edge(_) => panic!("a polyline was read"),
    }
    assert_eq!(parser.remaining(), 1);
    assert_eq!(parser.next(), Some(Ok(CodePair::new_i32(97, 0))));
}

#[test]
fn polyline_block_without_vertices_adds_no_path() {
    let mut parser = source(vec![
        CodePair::new_i16(72, 0),
        CodePair::new_i16(73, 0),
        CodePair::new_i32(93, 0),
        CodePair::new_i32(97, 0),
    ]);
    let mut hatch = Hatch::new();
    let r = HatchPatternBoundaryData::read_polyline_boundary(
        &mut hatch,
        BoundaryPathType::Polyline,
        &mut parser,
    );
    assert_eq!(r, Ok(true));
    assert!(hatch.pattern_boundary_data.is_empty());
    assert_eq!(parser.remaining(), 1);
}

#[test]
fn polyline_flags_may_come_in_either_order_or_not_at_all() {
    let mut parser = source(vec![
        CodePair::new_i16(73, 1),
        CodePair::new_i16(72, 0),
        CodePair::new_i32(93, 1),
        f(10, 1.0),
        f(20, 2.0),
        f(42, 0.0),
    ]);
    let mut hatch = Hatch::new();
    let r = HatchPatternBoundaryData::read_polyline_boundary(
        &mut hatch,
        BoundaryPathType::Polyline,
        &mut parser,
    );
    assert_eq!(r, Ok(true));
    match &hatch.pattern_boundary_data[0].path {
        BoundaryPath::Polyline(polyline) => {
            assert!(polyline.is_closed);
            assert_eq!(polyline.vertices, vec![vertex(1.0, 2.0, 0.0)]);
        }
        BoundaryPath::Edge(_) => panic!("a polyline was read"),
    }

    let mut bare = source(vec![CodePair::new_i32(93, 1), f(10, 1.0), f(20, 2.0), f(42, 7.0)]);
    let mut second = Hatch::new();
    let r = HatchPatternBoundaryData::read_polyline_boundary(
        &mut second,
        BoundaryPathType::Polyline,
        &mut bare,
    );
    assert_eq!(r, Ok(true));
    match &second.pattern_boundary_data[0].path {
        BoundaryPath::Polyline(polyline) => {
            assert!(!polyline.is_closed);
            assert_eq!(polyline.vertices, vec![vertex(1.0, 2.0, 7.0)]);
        }
        BoundaryPath::Edge(_) => panic!("a polyline was read"),
    }
}

#[test]
fn polyline_header_rejects_another_code_and_leaves_its_pair() {
    let mut parser = source(vec![CodePair::new_i16(72, 0), f(10, 1.0), f(20, 2.0)]);
    let mut hatch = Hatch::new();
    let r = HatchPatternBoundaryData::read_polyline_boundary(
        &mut hatch,
        BoundaryPathType::Polyline,
        &mut parser,
    );
    assert_eq!(r, Err(DxfError::UnexpectedCode(10, 0)));
    assert!(hatch.pattern_boundary_data.is_empty());
    assert_eq!(parser.next(), Some(Ok(f(10, 1.0))));
}

#[test]
fn truncated_polyline_fails_with_unexpected_end_of_input() {
    let mut parser = source(vec![
        CodePair::new_i16(72, 0),
        CodePair::new_i16(73, 0),
        CodePair::new_i32(93, 3),
        f(10, 0.0),
        f(20, 0.0),
        f(10, 1.0),
        f(20, 1.0),
    ]);
    let mut hatch = Hatch::new();
    let r = HatchPatternBoundaryData::read_polyline_boundary(
        &mut hatch,
        BoundaryPathType::Polyline,
        &mut parser,
    );
    assert_eq!(r, Err(DxfError::UnexpectedEndOfInput));
    assert!(hatch.pattern_boundary_data.is_empty());
}

#[test]
fn vertex_of_another_type_is_malformed() {
    let mut parser = source(vec![
        CodePair::new_i32(93, 1),
        f(10, 0.0),
        CodePair::new_i16(20, 3),
        f(42, 0.0),
    ]);
    let mut hatch = Hatch::new();
    let r = HatchPatternBoundaryData::read_polyline_boundary(
        &mut hatch,
        BoundaryPathType::Polyline,
        &mut parser,
    );
    assert_eq!(r, Err(DxfError::MalformedValue));
    assert_eq!(parser.remaining(), 1);
}

#[test]
fn edge_boundary_with_one_line() {
    let mut parser = source(vec![
        CodePair::new_i16(92, 1),
        CodePair::new_i32(93, 1),
        CodePair::new_i16(72, 1),
        f(10, 0.0),
        f(20, 0.0),
        f(11, 10.0),
        f(21, 0.0),
        CodePair::new_i32(97, 0),
        CodePair::new_i16(75, 0),
    ]);
    let mut hatch = Hatch::new();
    let mut count = 1;
    let r = HatchPatternBoundaryData::read_boundary_paths_section(
        &mut hatch,
        &mut count,
        &mut parser,
    );
    assert_eq!(r, Ok(()));
    assert_eq!(count, 0);
    assert_eq!(
        hatch.pattern_boundary_data,
        vec![HatchPatternBoundaryData {
            path_type: BoundaryPathType::External,
            path: BoundaryPath::Edge(dxf::hatch::EdgeBoundaryData {
                edges: vec![EdgePath::Line(EdgeLineData {
                    p1: point(0.0, 0.0),
                    p2: point(10.0, 0.0),
                })],
            }),
        }]
    );
    assert_eq!(parser.next(), Some(Ok(CodePair::new_i16(75, 0))));
}

#[test]
fn circular_arc_without_direction_is_clockwise_and_leaves_the_next_pair() {
    let mut parser = source(vec![
        CodePair::new_i32(93, 1),
        CodePair::new_i16(72, 2),
        f(10, 1.0),
        f(20, 2.0),
        f(40, 3.0),
        f(50, 0.0),
        f(51, 90.0),
        CodePair::new_i32(97, 0),
    ]);
    let mut hatch = Hatch::new();
    let r = HatchPatternBoundaryData::read_edge_boundary(
        &mut hatch,
        BoundaryPathType::Default,
        &mut parser,
    );
    assert_eq!(r, Ok(true));
    match &hatch.pattern_boundary_data[0].path {
        BoundaryPath::Edge(boundary) => assert_eq!(
            boundary.edges,
            vec![EdgePath::CircularArc(EdgeCircularArcData {
                center: point(1.0, 2.0),
                radius: d(3.0),
                start_angle: d(0.0),
                end_angle: d(90.0),
                is_counter_clockwise: false,
            })]
        ),
        BoundaryPath::Polyline(_) => panic!("edges were read"),
    }
    assert!(parser.is_holding_put_back());
    assert_eq!(parser.next(), Some(Ok(CodePair::new_i32(97, 0))));
    assert_eq!(parser.next(), None);
}

#[test]
fn arcs_with_direction_flag() {
    let mut parser = source(vec![
        CodePair::new_i32(93, 2),
        CodePair::new_i16(72, 2),
        f(10, 1.0),
        f(20, 2.0),
        f(40, 3.0),
        f(50, 10.0),
        f(51, 20.0),
        CodePair::new_i16(73, 1),
        CodePair::new_i16(72, 3),
        f(10, 5.0),
        f(20, 6.0),
        f(11, 2.0),
        f(21, 0.5),
        f(40, 0.25),
        f(50, 0.0),
        f(51, 360.0),
        CodePair::new_i16(73, 0),
    ]);
    let mut hatch = Hatch::new();
    let r = HatchPatternBoundaryData::read_edge_boundary(
        &mut hatch,
        BoundaryPathType::Outermost,
        &mut parser,
    );
    assert_eq!(r, Ok(true));
    assert_eq!(hatch.pattern_boundary_data[0].path_type, BoundaryPathType::Outermost);
    match &hatch.pattern_boundary_data[0].path {
        BoundaryPath::Edge(boundary) => assert_eq!(
            boundary.edges,
            vec![
                EdgePath::CircularArc(EdgeCircularArcData {
                    center: point(1.0, 2.0),
                    radius: d(3.0),
                    start_angle: d(10.0),
                    end_angle: d(20.0),
                    is_counter_clockwise: true,
                }),
                EdgePath::EllipticArc(EdgeEllipticArcData {
                    center: point(5.0, 6.0),
                    major_axis: Vector::new(d(2.0), d(0.5), d(0.0)),
                    minor_axis_ratio: d(0.25),
                    start_angle: d(0.0),
                    end_angle: d(360.0),
                    is_counter_clockwise: false,
                }),
            ]
        ),
        BoundaryPath::Polyline(_) => panic!("edges were read"),
    }
    assert_eq!(parser.remaining(), 0);
}

#[test]
fn arc_at_the_end_of_the_input_is_truncated() {
    let mut parser = source(vec![
        CodePair::new_i32(93, 1),
        CodePair::new_i16(72, 2),
        f(10, 1.0),
        f(20, 2.0),
        f(40, 3.0),
        f(50, 0.0),
        f(51, 90.0),
    ]);
    let mut hatch = Hatch::new();
    let r = HatchPatternBoundaryData::read_edge_boundary(
        &mut hatch,
        BoundaryPathType::Default,
        &mut parser,
    );
    assert_eq!(r, Err(DxfError::UnexpectedEndOfInput));
    assert!(hatch.pattern_boundary_data.is_empty());
}

#[test]
fn unknown_edge_type_is_read_as_a_line() {
    let mut parser = source(vec![
        CodePair::new_i32(93, 1),
        CodePair::new_i16(72, 9),
        f(10, 1.0),
        f(20, 2.0),
        f(11, 3.0),
        f(21, 4.0),
    ]);
    let mut hatch = Hatch::new();
    let r = HatchPatternBoundaryData::read_edge_boundary(
        &mut hatch,
        BoundaryPathType::Default,
        &mut parser,
    );
    assert_eq!(r, Ok(true));
    match &hatch.pattern_boundary_data[0].path {
        BoundaryPath::Edge(boundary) => assert_eq!(
            boundary.edges,
            vec![EdgePath::Line(EdgeLineData { p1: point(1.0, 2.0), p2: point(3.0, 4.0) })]
        ),
        BoundaryPath::Polyline(_) => panic!("edges were read"),
    }
}

#[test]
fn edge_count_that_is_not_positive_gives_a_path_without_edges() {
    let mut parser = source(vec![CodePair::new_i32(93, -4), f(10, 1.0)]);
    let mut hatch = Hatch::new();
    let r = HatchPatternBoundaryData::read_edge_boundary(
        &mut hatch,
        BoundaryPathType::Derived,
        &mut parser,
    );
    assert_eq!(r, Ok(true));
    assert_eq!(
        hatch.pattern_boundary_data,
        vec![HatchPatternBoundaryData {
            path_type: BoundaryPathType::Derived,
            path: BoundaryPath::Edge(dxf::hatch::EdgeBoundaryData { edges: vec![] }),
        }]
    );
    assert_eq!(parser.remaining(), 1);
}

#[test]
fn edge_count_of_another_type_is_malformed() {
    let mut parser = source(vec![CodePair::new_i16(93, 1)]);
    let mut hatch = Hatch::new();
    let r = HatchPatternBoundaryData::read_edge_boundary(
        &mut hatch,
        BoundaryPathType::Default,
        &mut parser,
    );
    assert_eq!(r, Err(DxfError::MalformedValue));
}

#[test]
fn error_of_the_source_is_handed_on() {
    let mut parser = CodePairPutBack::new(vec![
        Ok(CodePair::new_i32(93, 1)),
        Ok(CodePair::new_i16(72, 1)),
        Ok(f(10, 1.0)),
        Err(DxfError::UnexpectedCode(5, 17)),
        Ok(f(11, 1.0)),
    ]);
    let mut hatch = Hatch::new();
    let r = HatchPatternBoundaryData::read_edge_boundary(
        &mut hatch,
        BoundaryPathType::Default,
        &mut parser,
    );
    assert_eq!(r, Err(DxfError::UnexpectedCode(5, 17)));
    assert_eq!(parser.remaining(), 1);
}

#[test]
fn edge_count_under_another_code_is_reported_and_put_back() {
    let mut parser = source(vec![f(40, 1.5), CodePair::new_i16(72, 1)]);
    let mut hatch = Hatch::new();
    let r = HatchPatternBoundaryData::read_edge_boundary(
        &mut hatch,
        BoundaryPathType::Default,
        &mut parser,
    );
    assert_eq!(r, Err(DxfError::UnexpectedCode(40, 0)));
    assert!(hatch.pattern_boundary_data.is_empty());
    assert_eq!(parser.remaining(), 2);
    assert_eq!(parser.next(), Some(Ok(f(40, 1.5))));

    let mut parser = source(vec![
        CodePair::new_i32(5, 1),
        CodePair::new_i16(72, 1),
        f(10, 0.0),
        f(20, 0.0),
        f(11, 10.0),
        f(21, 0.0),
    ]);
    let r = HatchPatternBoundaryData::read_edge_boundary(
        &mut hatch,
        BoundaryPathType::Default,
        &mut parser,
    );
    assert_eq!(r, Err(DxfError::UnexpectedCode(5, 0)));
    assert!(hatch.pattern_boundary_data.is_empty());
    assert_eq!(parser.next(), Some(Ok(CodePair::new_i32(5, 1))));
}
