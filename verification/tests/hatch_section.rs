use dxf::code_pair::CodePair;
use dxf::code_pair_put_back::CodePairPutBack;
use dxf::double::Double;
use dxf::entities::Hatch;
use dxf::enums::{BoundaryEdgeType, BoundaryPathType};
use dxf::error::DxfError;
use dxf::hatch::{
    BoundaryPath, EdgeBoundaryData, EdgeLineData, EdgePath, HatchPatternBoundaryData,
    HatchPolylineVertex, PolylineBoundaryData,
};
use dxf::point::Point;

fn d(value: f64) -> Double {
    Double::from_bits(value.to_bits())
}

fn f(code: i32, value: f64) -> CodePair {
    CodePair::new_f64(code, d(value))
}

fn point(x: f64, y: f64) -> Point {
    Point::new(d(x), d(y), d(0.0))
}

fn line_path(path_type: BoundaryPathType) -> HatchPatternBoundaryData {
    HatchPatternBoundaryData {
        path_type,
        path: BoundaryPath::Edge(EdgeBoundaryData {
            edges: vec![EdgePath::Line(EdgeLineData { p1: point(0.0, 0.0), p2: point(10.0, 0.0) })],
        }),
    }
}

fn line_path_pairs(path_type: i16) -> Vec<CodePair> {
    vec![
        CodePair::new_i16(92, path_type),
        CodePair::new_i32(93, 1),
        CodePair::new_i16(72, 1),
        f(10, 0.0),
        f(20, 0.0),
        f(11, 10.0),
        f(21, 0.0),
    ]
}

#[test]
fn section_reads_the_declared_number_of_paths_in_order() {
    let mut pairs = line_path_pairs(0);
    pairs.push(CodePair::new_i32(97, 2));
    pairs.push(CodePair::new_string(330, String::from("1F")));
    pairs.push(CodePair::new_string(330, String::from("20")));
    pairs.extend(vec![
        CodePair::new_i16(92, 2),
        CodePair::new_i16(72, 0),
        CodePair::new_i16(73, 1),
        CodePair::new_i32(93, 2),
        f(10, 1.0),
        f(20, 1.0),
        f(10, 2.0),
        f(20, 2.0),
        f(42, 1.0),
        CodePair::new_i32(97, 0),
    ]);
    pairs.extend(line_path_pairs(16));
    pairs.push(CodePair::new_i16(75, 1));
    let mut parser = CodePairPutBack::from_code_pairs(pairs);
    let mut hatch = Hatch::new();
    let mut count = 3;
    let r = HatchPatternBoundaryData::read_boundary_paths_section(
        &mut hatch,
        &mut count,
        &mut parser,
    );
    assert_eq!(r, Ok(()));
    assert_eq!(count, 0);
    assert_eq!(
        hatch.pattern_boundary_data,
        vec![
            line_path(BoundaryPathType::Default),
            HatchPatternBoundaryData {
                path_type: BoundaryPathType::Polyline,
                path: BoundaryPath::Polyline(PolylineBoundaryData {
                    is_closed: true,
                    vertices: vec![
                        HatchPolylineVertex { x: d(1.0), y: d(1.0), bulge: d(0.0) },
                        HatchPolylineVertex { x: d(2.0), y: d(2.0), bulge: d(1.0) },
                    ],
                }),
            },
            line_path(BoundaryPathType::Outermost),
        ]
    );
    assert_eq!(parser.next(), Some(Ok(CodePair::new_i16(75, 1))));
}

#[test]
fn section_adds_behind_the_paths_that_the_hatch_has() {
    let mut first = line_path_pairs(1);
    first.push(CodePair::new_i16(75, 0));
    let mut hatch = Hatch::new();
    let mut count = 1;
    let mut parser = CodePairPutBack::from_code_pairs(first);
    assert_eq!(
        HatchPatternBoundaryData::read_boundary_paths_section(&mut hatch, &mut count, &mut parser),
        Ok(())
    );
    let mut second = line_path_pairs(4);
    second.push(CodePair::new_i16(75, 0));
    let mut count = 1;
    let mut parser = CodePairPutBack::from_code_pairs(second);
    assert_eq!(
        HatchPatternBoundaryData::read_boundary_paths_section(&mut hatch, &mut count, &mut parser),
        Ok(())
    );
    assert_eq!(
        hatch.pattern_boundary_data,
        vec![line_path(BoundaryPathType::External), line_path(BoundaryPathType::Derived)]
    );
}

#[test]
fn section_with_a_count_that_is_not_positive_reads_nothing() {
    let mut parser = CodePairPutBack::from_code_pairs(line_path_pairs(0));
    let mut hatch = Hatch::new();
    let mut count = 0;
    let r = HatchPatternBoundaryData::read_boundary_paths_section(
        &mut hatch,
        &mut count,
        &mut parser,
    );
    assert_eq!(r, Ok(()));
    assert_eq!(count, 0);
    assert!(hatch.pattern_boundary_data.is_empty());
    assert_eq!(parser.remaining(), 7);

    let mut count = -3;
    let r = HatchPatternBoundaryData::read_boundary_paths_section(
        &mut hatch,
        &mut count,
        &mut parser,
    );
    assert_eq!(r, Ok(()));
    assert_eq!(count, -3);
    assert_eq!(parser.remaining(), 7);
}

#[test]
fn unknown_path_type_is_read_as_default() {
    let mut pairs = line_path_pairs(7);
    pairs.push(CodePair::new_i32(97, 0));
    let mut parser = CodePairPutBack::from_code_pairs(pairs);
    let mut hatch = Hatch::new();
    let mut count = 1;
    let r = HatchPatternBoundaryData::read_boundary_paths_section(
        &mut hatch,
        &mut count,
        &mut parser,
    );
    assert_eq!(r, Ok(()));
    assert_eq!(hatch.pattern_boundary_data, vec![line_path(BoundaryPathType::Default)]);
}

#[test]
fn section_requires_the_path_type_first() {
    let mut parser = CodePairPutBack::from_code_pairs(vec![
        CodePair::new_i32(93, 1),
        CodePair::new_i16(72, 1),
    ]);
    let mut hatch = Hatch::new();
    let mut count = 1;
    let r = HatchPatternBoundaryData::read_boundary_paths_section(
        &mut hatch,
        &mut count,
        &mut parser,
    );
    assert_eq!(r, Err(DxfError::UnexpectedCode(93, 0)));
    assert_eq!(count, 1);
    assert_eq!(parser.next(), Some(Ok(CodePair::new_i32(93, 1))));
}

#[test]
fn section_fails_where_a_declared_path_is_missing() {
    let mut pairs = line_path_pairs(0);
    pairs.push(CodePair::new_i32(97, 0));
    pairs.push(CodePair::new_i16(75, 0));
    let mut parser = CodePairPutBack::from_code_pairs(pairs);
    let mut hatch = Hatch::new();
    let mut count = 2;
    let r = HatchPatternBoundaryData::read_boundary_paths_section(
        &mut hatch,
        &mut count,
        &mut parser,
    );
    assert_eq!(r, Err(DxfError::UnexpectedCode(75, 0)));
    assert_eq!(count, 1);
    assert_eq!(hatch.pattern_boundary_data, vec![line_path(BoundaryPathType::Default)]);
    assert_eq!(parser.next(), Some(Ok(CodePair::new_i16(75, 0))));
}

#[test]
fn section_at_the_end_of_the_input_is_truncated() {
    let mut parser = CodePairPutBack::from_code_pairs(line_path_pairs(0));
    let mut hatch = Hatch::new();
    let mut count = 1;
    let r = HatchPatternBoundaryData::read_boundary_paths_section(
        &mut hatch,
        &mut count,
        &mut parser,
    );
    assert_eq!(r, Err(DxfError::UnexpectedEndOfInput));
    assert_eq!(count, 1);
    assert_eq!(hatch.pattern_boundary_data, vec![line_path(BoundaryPathType::Default)]);
}

#[test]
fn source_objects_must_be_handles() {
    let mut pairs = line_path_pairs(0);
    pairs.push(CodePair::new_i32(97, 2));
    pairs.push(CodePair::new_string(330, String::from("1F")));
    pairs.push(CodePair::new_i16(75, 0));
    let mut parser = CodePairPutBack::from_code_pairs(pairs);
    let mut hatch = Hatch::new();
    let mut count = 1;
    let r = HatchPatternBoundaryData::read_boundary_paths_section(
        &mut hatch,
        &mut count,
        &mut parser,
    );
    assert_eq!(r, Err(DxfError::UnexpectedCode(75, 0)));
    assert_eq!(count, 1);
    assert_eq!(parser.next(), Some(Ok(CodePair::new_i16(75, 0))));
}

#[test]
fn path_type_of_another_type_is_malformed() {
    let mut parser = CodePairPutBack::from_code_pairs(vec![CodePair::new_i32(92, 1)]);
    let mut hatch = Hatch::new();
    let mut count = 1;
    let r = HatchPatternBoundaryData::read_boundary_paths_section(
        &mut hatch,
        &mut count,
        &mut parser,
    );
    assert_eq!(r, Err(DxfError::MalformedValue));
}

#[test]
fn polyline_type_without_vertices_completes_the_path_without_an_entry() {
    let mut parser = CodePairPutBack::from_code_pairs(vec![
        CodePair::new_i16(92, 2),
        CodePair::new_i32(93, 0),
        CodePair::new_i32(97, 0),
    ]);
    let mut hatch = Hatch::new();
    let mut count = 1;
    let r = HatchPatternBoundaryData::read_boundary_paths_section(
        &mut hatch,
        &mut count,
        &mut parser,
    );
    assert_eq!(r, Ok(()));
    assert_eq!(count, 0);
    assert!(hatch.pattern_boundary_data.is_empty());
}

#[test]
fn path_and_edge_types_by_number() {
    assert_eq!(BoundaryPathType::from_i16(0), Some(BoundaryPathType::Default));
    assert_eq!(BoundaryPathType::from_i16(1), Some(BoundaryPathType::External));
    assert_eq!(BoundaryPathType::from_i16(2), Some(BoundaryPathType::Polyline));
    assert_eq!(BoundaryPathType::from_i16(4), Some(BoundaryPathType::Derived));
    assert_eq!(BoundaryPathType::from_i16(8), Some(BoundaryPathType::Textbox));
    assert_eq!(BoundaryPathType::from_i16(16), Some(BoundaryPathType::Outermost));
    assert_eq!(BoundaryPathType::from_i16(3), None);
    assert_eq!(BoundaryPathType::decode(3), BoundaryPathType::Default);
    assert_eq!(BoundaryPathType::Textbox.to_i16(), 8);
    assert_eq!(BoundaryEdgeType::from_i16(1), Some(BoundaryEdgeType::Line));
    assert_eq!(BoundaryEdgeType::from_i16(2), Some(BoundaryEdgeType::CircularArc));
    assert_eq!(BoundaryEdgeType::from_i16(3), Some(BoundaryEdgeType::EllipticArc));
    assert_eq!(BoundaryEdgeType::from_i16(4), Some(BoundaryEdgeType::Spline));
    assert_eq!(BoundaryEdgeType::from_i16(0), None);
    assert_eq!(BoundaryEdgeType::decode(0), BoundaryEdgeType::Line);
    assert_eq!(BoundaryEdgeType::Spline.to_i16(), 4);
}

#[test]
fn default_boundary_data_is_an_open_polyline_without_vertices() {
    assert_eq!(
        HatchPatternBoundaryData::default(),
        HatchPatternBoundaryData {
            path_type: BoundaryPathType::Default,
            path: BoundaryPath::Polyline(PolylineBoundaryData {
                is_closed: false,
                vertices: vec![],
            }),
        }
    );
    assert_eq!(
        HatchPolylineVertex::default(),
        HatchPolylineVertex { x: d(0.0), y: d(0.0), bulge: d(0.0) }
    );
}

#[test]
fn section_requires_the_edge_count_behind_the_path_type() {
    let mut parser = CodePairPutBack::from_code_pairs(vec![
        CodePair::new_i16(92, 0),
        f(40, 1.5),
        CodePair::new_i16(72, 1),
    ]);
    let mut hatch = Hatch::new();
    let mut count = 1;
    let r = HatchPatternBoundaryData::read_boundary_paths_section(
        &mut hatch,
        &mut count,
        &mut parser,
    );
    assert_eq!(r, Err(DxfError::UnexpectedCode(40, 0)));
    assert_eq!(count, 1);
    assert!(hatch.pattern_boundary_data.is_empty());
    assert_eq!(parser.next(), Some(Ok(f(40, 1.5))));
}

#[test]
fn section_takes_no_integer_under_another_code_for_the_edge_count() {
    let mut parser = CodePairPutBack::from_code_pairs(vec![
        CodePair::new_i16(92, 0),
        CodePair::new_i32(5, 1),
        CodePair::new_i16(72, 1),
        f(10, 0.0),
        f(20, 0.0),
        f(11, 10.0),
        f(21, 0.0),
        CodePair::new_i32(97, 0),
    ]);
    let mut hatch = Hatch::new();
    let mut count = 1;
    let r = HatchPatternBoundaryData::read_boundary_paths_section(
        &mut hatch,
        &mut count,
        &mut parser,
    );
    assert_eq!(r, Err(DxfError::UnexpectedCode(5, 0)));
    assert_eq!(count, 1);
    assert!(hatch.pattern_boundary_data.is_empty());
    assert_eq!(parser.remaining(), 7);
    assert_eq!(parser.next(), Some(Ok(CodePair::new_i32(5, 1))));
}

#[test]
fn polyline_type_takes_no_other_code_before_the_vertex_count() {
    let mut parser = CodePairPutBack::from_code_pairs(vec![
        CodePair::new_i16(92, 2),
        f(40, 1.5),
        CodePair::new_i32(93, 1),
    ]);
    let mut hatch = Hatch::new();
    let mut count = 1;
    let r = HatchPatternBoundaryData::read_boundary_paths_section(
        &mut hatch,
        &mut count,
        &mut parser,
    );
    assert_eq!(r, Err(DxfError::UnexpectedCode(40, 0)));
    assert_eq!(count, 1);
    assert!(hatch.pattern_boundary_data.is_empty());
    assert_eq!(parser.next(), Some(Ok(f(40, 1.5))));
}
