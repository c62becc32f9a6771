use idml_render::geometry::{
    extract_points, is_closed_path, GeometryPathType, PathGeometry, PathPointArray, PathPointType,
    Properties,
};
use idml_render::polygon::{render, BackendCall};
use idml_render::styles::{PaintChannel, ResolvedPaint};
use idml_render::transforms::{from_values, identity, Point};

fn anchor_only(x: i64, y: i64) -> PathPointType {
    PathPointType {
        anchor: Some(Point::new(x, y)),
        left_direction: None,
        right_direction: None,
    }
}

fn geometry_of(arrays: Vec<Vec<PathPointType>>, open: bool) -> PathGeometry {
    PathGeometry {
        geometry_path_type: GeometryPathType {
            path_open: open,
            path_point_arrays: arrays
                .into_iter()
                .map(|points| PathPointArray { path_point_array: points })
                .collect(),
        },
    }
}

fn no_paint() -> ResolvedPaint {
    ResolvedPaint {
        fill: PaintChannel::NoPaint,
        stroke: PaintChannel::NoPaint,
        stroke_weight: None,
    }
}

#[test]
fn extraction_emits_handles_around_anchor_in_order() {
    let pp = PathPointType {
        anchor: Some(Point::new(2, 2)),
        left_direction: Some(Point::new(1, 1)),
        right_direction: Some(Point::new(3, 3)),
    };
    let g = geometry_of(vec![vec![pp]], true);
    let pts = extract_points(&g, &identity(), &identity());
    assert_eq!(pts, vec![Point::new(1, 1), Point::new(2, 2), Point::new(3, 3)]);
}

#[test]
fn extraction_skips_absent_handles_and_applies_transform() {
    let pp1 = PathPointType {
        anchor: Some(Point::new(1, 0)),
        left_direction: None,
        right_direction: Some(Point::new(2, 0)),
    };
    let pp2 = anchor_only(0, 5);
    let g = geometry_of(vec![vec![pp1, pp2]], false);
    let shape = from_values(2, 0, 0, 2, 0, 0);
    let ancestor = from_values(1, 0, 0, 1, 10, 20);
    let pts = extract_points(&g, &shape, &ancestor);
    assert_eq!(
        pts,
        vec![
            Point { x: 12, y: 20, den: 1 },
            Point { x: 14, y: 20, den: 1 },
            Point { x: 10, y: 30, den: 1 },
        ]
    );
}

#[test]
fn sub_paths_concatenate_in_document_order() {
    let g = geometry_of(
        vec![vec![anchor_only(1, 1)], vec![anchor_only(2, 2), anchor_only(3, 3)]],
        false,
    );
    let pts = extract_points(&g, &identity(), &identity());
    assert_eq!(pts, vec![Point::new(1, 1), Point::new(2, 2), Point::new(3, 3)]);
}

#[test]
fn closed_flag_negates_the_open_flag() {
    let closed = Properties { path_geometry: Some(geometry_of(vec![], false)) };
    let open = Properties { path_geometry: Some(geometry_of(vec![], true)) };
    assert!(is_closed_path(&Some(closed)));
    assert!(!is_closed_path(&Some(open)));
    assert!(!is_closed_path(&Some(Properties { path_geometry: None })));
    assert!(!is_closed_path(&None));
}

#[test]
fn square_renders_to_one_move_and_end_path() {
    let g = geometry_of(
        vec![vec![
            anchor_only(0, 0),
            anchor_only(10, 0),
            anchor_only(10, 10),
            anchor_only(0, 10),
        ]],
        false,
    );
    let pts = extract_points(&g, &identity(), &identity());
    let closed = is_closed_path(&Some(Properties { path_geometry: Some(g) }));
    assert!(closed);
    let calls = render(&pts, &no_paint(), closed).unwrap();
    assert_eq!(
        calls,
        vec![
            BackendCall::SaveState,
            BackendCall::MoveTo(Point::new(10, 10)),
            BackendCall::CurveTo(Point::new(0, 10), Point::new(0, 0), Point::new(10, 0)),
            BackendCall::EndPath,
            BackendCall::RestoreState,
        ]
    );
}

#[test]
fn empty_geometry_extracts_nothing_and_renders_nothing() {
    let g = geometry_of(vec![], true);
    let pts = extract_points(&g, &identity(), &identity());
    assert!(pts.is_empty());
    assert_eq!(render(&pts, &no_paint(), false), Ok(vec![]));
}
