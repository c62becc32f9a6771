use idml_render::polygon::{render, select_operation, BackendCall, RenderError};
use idml_render::spread_parser::Spread;
use idml_render::styles::{
    resolve_paint, Cmyk, Color, ColorTable, ObjectStyle, PaintChannel, ResolvedPaint, Rgb,
    StyleTable,
};
use idml_render::transforms::Point;

fn no_paint() -> ResolvedPaint {
    ResolvedPaint {
        fill: PaintChannel::NoPaint,
        stroke: PaintChannel::NoPaint,
        stroke_weight: None,
    }
}

fn red() -> Color {
    Color::Rgb(Rgb { r: 100_000, g: 0, b: 0 })
}

fn blue() -> Color {
    Color::Rgb(Rgb { r: 0, g: 0, b: 100_000 })
}

fn table_with_red_and_blue() -> ColorTable {
    let mut colors = ColorTable::new();
    colors.insert("Color/Red".to_string(), red());
    colors.insert("Color/Blue".to_string(), blue());
    colors
}

fn style_with_red_fill() -> StyleTable {
    let mut styles = StyleTable::new();
    styles.insert(ObjectStyle {
        id: "ObjectStyle/Base".to_string(),
        fill_color: Some("Color/Red".to_string()),
        stroke_color: None,
        stroke_weight: Some(2),
    });
    styles
}

#[test]
fn empty_geometry_is_a_no_op() {
    let points: Vec<Point> = vec![];
    let r = render(&points, &no_paint(), true);
    assert_eq!(r, Ok(vec![]));
}

#[test]
fn malformed_point_count_is_rejected() {
    let points = vec![Point::new(0, 0), Point::new(1, 1)];
    let r = render(&points, &no_paint(), false);
    assert_eq!(r, Err(RenderError::MalformedGeometry));
    let five: Vec<Point> = (0..5).map(|i| Point::new(i, i)).collect();
    assert_eq!(
        render(&five, &no_paint(), true),
        Err(RenderError::MalformedGeometry)
    );
}

#[test]
fn square_of_bare_anchors_ends_path() {
    let a1 = Point::new(0, 0);
    let a2 = Point::new(10, 0);
    let a3 = Point::new(10, 10);
    let a4 = Point::new(0, 10);
    let points = vec![a1, a2, a3, a4];
    let calls = render(&points, &no_paint(), true).unwrap();
    assert_eq!(
        calls,
        vec![
            BackendCall::SaveState,
            BackendCall::MoveTo(a3),
            BackendCall::CurveTo(a4, a1, a2),
            BackendCall::EndPath,
            BackendCall::RestoreState,
        ]
    );
    let move_tos = calls
        .iter()
        .filter(|c| matches!(c, BackendCall::MoveTo(_)))
        .count();
    assert_eq!(move_tos, 1);
}

#[test]
fn rotation_realigns_handles_into_curve_triples() {
    let l1 = Point::new(1, 1);
    let a1 = Point::new(2, 2);
    let r1 = Point::new(3, 3);
    let l2 = Point::new(4, 4);
    let a2 = Point::new(5, 5);
    let r2 = Point::new(6, 6);
    let points = vec![l1, a1, r1, l2, a2, r2];
    let calls = render(&points, &no_paint(), false).unwrap();
    assert_eq!(
        calls,
        vec![
            BackendCall::SaveState,
            BackendCall::MoveTo(a2),
            BackendCall::CurveTo(r2, l1, a1),
            BackendCall::CurveTo(r1, l2, a2),
            BackendCall::EndPath,
            BackendCall::RestoreState,
        ]
    );
}

#[test]
fn paint_setup_precedes_path_construction() {
    let paint = ResolvedPaint {
        fill: PaintChannel::Paint(Color::Cmyk(Cmyk { c: 1, m: 2, y: 3, k: 4 })),
        stroke: PaintChannel::Paint(red()),
        stroke_weight: Some(3),
    };
    let p = Point::new(0, 0);
    let points = vec![p, p, p];
    let calls = render(&points, &paint, true).unwrap();
    assert_eq!(
        calls,
        vec![
            BackendCall::SaveState,
            BackendCall::SetLineWidth(3),
            BackendCall::SetFillCmyk(Cmyk { c: 1, m: 2, y: 3, k: 4 }),
            BackendCall::SetStrokeRgb(Rgb { r: 100_000, g: 0, b: 0 }),
            BackendCall::MoveTo(p),
            BackendCall::CurveTo(p, p, p),
            BackendCall::ClosePathFillStroke,
            BackendCall::RestoreState,
        ]
    );
}

#[test]
fn fill_stroke_table_is_exhaustive() {
    assert_eq!(select_operation(false, true, false), BackendCall::Fill);
    assert_eq!(select_operation(true, true, false), BackendCall::Fill);
    assert_eq!(select_operation(false, false, true), BackendCall::Stroke);
    assert_eq!(select_operation(false, true, true), BackendCall::FillStroke);
    assert_eq!(
        select_operation(true, false, true),
        BackendCall::ClosePathStroke
    );
    assert_eq!(
        select_operation(true, true, true),
        BackendCall::ClosePathFillStroke
    );
    assert_eq!(select_operation(false, false, false), BackendCall::EndPath);
    assert_eq!(select_operation(true, false, false), BackendCall::EndPath);
}

#[test]
fn shape_override_beats_style_fill() {
    let styles = style_with_red_fill();
    let colors = table_with_red_and_blue();
    let paint = resolve_paint(
        &Some("Color/Blue".to_string()),
        &None,
        &None,
        &Some("ObjectStyle/Base".to_string()),
        &styles,
        &colors,
    );
    assert_eq!(paint.fill, PaintChannel::Paint(blue()));
    assert_eq!(paint.stroke_weight, Some(2));
}

#[test]
fn style_fill_applies_when_shape_defines_none() {
    let styles = style_with_red_fill();
    let colors = table_with_red_and_blue();
    let paint = resolve_paint(
        &None,
        &None,
        &None,
        &Some("ObjectStyle/Base".to_string()),
        &styles,
        &colors,
    );
    assert_eq!(paint.fill, PaintChannel::Paint(red()));
    assert_eq!(paint.stroke, PaintChannel::NoPaint);
}

#[test]
fn no_references_yield_no_paint() {
    let styles = StyleTable::new();
    let colors = table_with_red_and_blue();
    let paint = resolve_paint(&None, &None, &None, &None, &styles, &colors);
    assert_eq!(paint.fill, PaintChannel::NoPaint);
    assert_eq!(paint.stroke, PaintChannel::NoPaint);
    assert_eq!(paint.stroke_weight, None);
}

#[test]
fn unresolved_reference_degrades_channel() {
    let styles = StyleTable::new();
    let colors = table_with_red_and_blue();
    let paint = resolve_paint(
        &Some("Color/Missing".to_string()),
        &None,
        &Some(7),
        &None,
        &styles,
        &colors,
    );
    assert_eq!(paint.fill, PaintChannel::Unresolved);
    assert_eq!(paint.stroke_weight, Some(7));
}

#[test]
fn shape_stroke_weight_beats_style_weight() {
    let styles = style_with_red_fill();
    let colors = table_with_red_and_blue();
    let paint = resolve_paint(
        &None,
        &None,
        &Some(9),
        &Some("ObjectStyle/Base".to_string()),
        &styles,
        &colors,
    );
    assert_eq!(paint.stroke_weight, Some(9));
}

#[test]
fn first_color_entry_wins() {
    let mut colors = ColorTable::new();
    colors.insert("Color/X".to_string(), red());
    colors.insert("Color/X".to_string(), blue());
    assert_eq!(colors.lookup_color(&"Color/X".to_string()), Some(red()));
    assert_eq!(colors.lookup_color(&"Color/Y".to_string()), None);
}

#[test]
fn spread_id_is_fixed() {
    let spread = Spread { contents: vec![] };
    assert_eq!(spread.get_id(), "dummy".to_string());
}
