use rgtk::cairo::paths::{PathData, PathDataType, PathSegment, PathSegments};
use rgtk::cairo::patterns::{wrap_pattern, C_CairoPattern, MeshCorner, PatternType, WrappedPattern};
use rgtk::glib::traits::Ptr;

fn header(data_type: PathDataType, length: usize) -> PathData {
    PathData::Header { data_type, length }
}

fn walk(data: Vec<PathData>) -> Vec<PathSegment> {
    let mut segments = PathSegments::new(data).unwrap();
    let mut out = Vec::new();
    while let Some(segment) = segments.next() {
        out.push(segment);
    }
    assert_eq!(segments.next(), None);
    out
}

#[test]
fn mesh_corners_are_numbered() {
    assert_eq!(MeshCorner::MeshCorner0.to_glib(), 0);
    assert_eq!(MeshCorner::MeshCorner1.to_glib(), 1);
    assert_eq!(MeshCorner::MeshCorner2.to_glib(), 2);
    assert_eq!(MeshCorner::MeshCorner3.to_glib(), 3);
}

#[test]
fn patterns_are_wrapped_by_their_kind() {
    let ptr = || Ptr::<C_CairoPattern>::new(0x40);
    assert!(matches!(
        wrap_pattern(ptr(), PatternType::PatternTypeSolid),
        WrappedPattern::Solid(p) if p.addr == 0x40
    ));
    assert!(matches!(
        wrap_pattern(ptr(), PatternType::PatternTypeSurface),
        WrappedPattern::Surface(p) if p.addr == 0x40
    ));
    assert!(matches!(
        wrap_pattern(ptr(), PatternType::PatternTypeLinearGradient),
        WrappedPattern::LinearGradient(p) if p.addr == 0x40
    ));
    assert!(matches!(
        wrap_pattern(ptr(), PatternType::PatternTypeRadialGradient),
        WrappedPattern::RadialGradient(p) if p.addr == 0x40
    ));
    assert!(matches!(
        wrap_pattern(ptr(), PatternType::PatternTypeMesh),
        WrappedPattern::Mesh(p) if p.addr == 0x40
    ));
}

#[test]
fn segments_need_their_points() {
    assert_eq!(PathDataType::PathMoveTo.points(), 1);
    assert_eq!(PathDataType::PathLineTo.points(), 1);
    assert_eq!(PathDataType::PathCurveTo.points(), 3);
    assert_eq!(PathDataType::PathClosePath.points(), 0);
}

#[test]
fn an_empty_path_has_no_segment() {
    assert!(walk(vec![]).is_empty());
}

#[test]
fn a_triangle() {
    let data = vec![
        header(PathDataType::PathMoveTo, 2),
        PathData::Point,
        header(PathDataType::PathLineTo, 2),
        PathData::Point,
        header(PathDataType::PathLineTo, 2),
        PathData::Point,
        header(PathDataType::PathClosePath, 1),
    ];
    assert_eq!(
        walk(data),
        vec![
            PathSegment::MoveTo(1),
            PathSegment::LineTo(3),
            PathSegment::LineTo(5),
            PathSegment::ClosePath,
        ]
    );
}

#[test]
fn a_curve_names_three_points() {
    let data = vec![
        header(PathDataType::PathMoveTo, 2),
        PathData::Point,
        header(PathDataType::PathCurveTo, 4),
        PathData::Point,
        PathData::Point,
        PathData::Point,
    ];
    assert_eq!(walk(data), vec![PathSegment::MoveTo(1), PathSegment::CurveTo(3, 4, 5)]);
}

#[test]
fn a_header_may_claim_more_than_its_points() {
    let data = vec![
        header(PathDataType::PathClosePath, 3),
        PathData::Point,
        PathData::Point,
        header(PathDataType::PathMoveTo, 2),
        PathData::Point,
    ];
    assert_eq!(walk(data), vec![PathSegment::ClosePath, PathSegment::MoveTo(4)]);
}

#[test]
fn broken_paths_are_refused() {
    // a point where a header belongs
    assert!(PathSegments::new(vec![PathData::Point]).is_none());
    // a header without its point
    assert!(PathSegments::new(vec![header(PathDataType::PathMoveTo, 2)]).is_none());
    // a header that claims too little
    let short = vec![header(PathDataType::PathMoveTo, 1), PathData::Point];
    assert!(PathSegments::new(short).is_none());
    assert!(PathSegments::new(vec![header(PathDataType::PathClosePath, 0)]).is_none());
    // a curve cut short
    let cut = vec![header(PathDataType::PathCurveTo, 4), PathData::Point, PathData::Point];
    assert!(PathSegments::new(cut).is_none());
    // a length past the end
    assert!(PathSegments::new(vec![header(PathDataType::PathClosePath, usize::MAX)]).is_none());
    // broken after a whole segment
    let late = vec![header(PathDataType::PathClosePath, 1), PathData::Point];
    assert!(PathSegments::new(late).is_none());
}
