use trisvg::geometry::{GeometryBuffer, Vertex};
use trisvg::render::{make_document, make_example, render_choice, triangle_data};
use trisvg::shapes::{shape_commands, Choice, Point, ShapeCmd};
use trisvg::tessellate::{build_path, fill_geometry, stroke_geometry, RenderError};

fn v(x: &str, y: &str) -> Vertex {
    Vertex { x: x.to_string(), y: y.to_string() }
}

fn one_triangle() -> GeometryBuffer {
    GeometryBuffer {
        vertices: vec![v("0", "0"), v("1", "0"), v("0", "1")],
        indices: vec![0, 1, 2],
    }
}

#[test]
fn triangle_data_single_triangle() {
    let d = triangle_data(&v("0", "0"), &v("1", "0"), &v("0", "1"));
    assert_eq!(d, "M0,0 L1,0 L0,1 Z");
}

#[test]
fn one_triangle_renders_one_path_node() {
    let doc = make_document(&one_triangle(), "red");
    let text = doc.to_string();
    assert_eq!(text.matches("<path").count(), 1);
    assert!(text.contains("d=\"M0,0 L1,0 L0,1 Z\""));
    assert!(text.contains("fill=\"red\""));
    assert!(text.contains("stroke=\"black\""));
    assert!(text.contains("stroke-width=\"0.1\""));
    assert!(text.contains("viewBox=\"0 0 90 90\""));
}

#[test]
fn every_choice_tessellates_non_empty_whole_triangles() {
    let choices = [Choice::Bezier, Choice::Circle, Choice::RoundRect, Choice::Polygon];
    for choice in choices {
        let cmds = shape_commands(&choice);
        let path = build_path(&cmds);
        let stroke = stroke_geometry(&path).unwrap();
        assert!(!stroke.vertices.is_empty());
        assert!(!stroke.indices.is_empty());
        assert_eq!(stroke.indices.len() % 3, 0);
        assert!(stroke.is_well_formed());
        let fill = fill_geometry(&path).unwrap();
        assert!(!fill.vertices.is_empty());
        assert!(!fill.indices.is_empty());
        assert_eq!(fill.indices.len() % 3, 0);
        assert!(fill.is_well_formed());
    }
}

#[test]
fn indices_stay_in_bounds() {
    let cmds = shape_commands(&Choice::Circle);
    let path = build_path(&cmds);
    let stroke = stroke_geometry(&path).unwrap();
    for &i in &stroke.indices {
        assert!(i < stroke.vertices.len());
    }
    let fill = fill_geometry(&path).unwrap();
    for &i in &fill.indices {
        assert!(i < fill.vertices.len());
    }
}

#[test]
fn well_formedness_check_rejects_bad_buffers() {
    let out_of_range = GeometryBuffer {
        vertices: vec![v("0", "0"), v("1", "0"), v("0", "1")],
        indices: vec![0, 1, 3],
    };
    assert!(!out_of_range.is_well_formed());
    let ragged = GeometryBuffer {
        vertices: vec![v("0", "0"), v("1", "0"), v("0", "1")],
        indices: vec![0, 1],
    };
    assert!(!ragged.is_well_formed());
    assert!(one_triangle().is_well_formed());
}

#[test]
fn polygon_fill_is_one_triangle() {
    let cmds = shape_commands(&Choice::Polygon);
    let path = build_path(&cmds);
    let fill = fill_geometry(&path).unwrap();
    assert_eq!(fill.vertices.len(), 3);
    assert_eq!(fill.indices.len(), 3);
}

#[test]
fn document_composes_stroke_then_fill() {
    let cmds = shape_commands(&Choice::Polygon);
    let path = build_path(&cmds);
    let stroke = stroke_geometry(&path).unwrap();
    let fill = fill_geometry(&path).unwrap();
    let doc = render_choice(&Choice::Polygon).unwrap();
    let text = doc.to_string();
    let expected = stroke.indices.len() / 3 + fill.indices.len() / 3;
    assert_eq!(text.matches("<path").count(), expected);
    assert_eq!(text.matches("fill=\"blue\"").count(), stroke.indices.len() / 3);
    assert_eq!(text.matches("fill=\"red\"").count(), fill.indices.len() / 3);
    let last_blue = text.rfind("fill=\"blue\"").unwrap();
    let first_red = text.find("fill=\"red\"").unwrap();
    assert!(last_blue < first_red);
}

#[test]
fn rendering_is_deterministic() {
    let choices = [Choice::Bezier, Choice::Circle, Choice::RoundRect, Choice::Polygon];
    for choice in choices {
        let first = render_choice(&choice).unwrap().to_string();
        let second = render_choice(&choice).unwrap().to_string();
        assert_eq!(first, second);
    }
}

#[test]
fn polygon_scenario_end_to_end() {
    let (name, doc) = make_example(&Choice::Polygon).unwrap();
    assert_eq!(name, "svg_output/Polygon.svg");
    let text = doc.to_string();
    assert!(text.contains("fill=\"blue\""));
    assert!(text.contains("fill=\"red\""));
    assert!(text.contains("viewBox=\"0 0 90 90\""));
}

#[test]
fn output_file_names_follow_the_shape_names() {
    assert_eq!(Choice::Bezier.name(), "Bezier");
    assert_eq!(Choice::Circle.name(), "Circle");
    assert_eq!(Choice::RoundRect.name(), "RoundRect");
    assert_eq!(Choice::Polygon.name(), "Polygon");
    let (name, _) = make_example(&Choice::Bezier).unwrap();
    assert_eq!(name, "svg_output/Bezier.svg");
}

#[test]
fn shape_commands_match_the_shape_descriptions() {
    let bezier = shape_commands(&Choice::Bezier);
    assert_eq!(bezier.len(), 3);
    assert!(matches!(bezier[0], ShapeCmd::Begin { at: Point { x: 0, y: 0 } }));
    assert!(matches!(
        bezier[1],
        ShapeCmd::QuadraticTo { ctrl: Point { x: 60, y: 0 }, to: Point { x: 90, y: 90 } }
    ));
    assert!(matches!(bezier[2], ShapeCmd::Close { close: true }));

    let circle = shape_commands(&Choice::Circle);
    assert_eq!(circle.len(), 1);
    assert!(matches!(
        circle[0],
        ShapeCmd::Circle { center: Point { x: 0, y: 0 }, radius: 90, positive: true }
    ));

    let round_rect = shape_commands(&Choice::RoundRect);
    assert_eq!(round_rect.len(), 1);
    assert!(matches!(
        round_rect[0],
        ShapeCmd::RoundedRect {
            corner: Point { x: 5, y: 5 },
            width: 80,
            height: 80,
            radius: 5,
            positive: true
        }
    ));

    let polygon = shape_commands(&Choice::Polygon);
    assert_eq!(polygon.len(), 1);
    if let ShapeCmd::Polygon { points, closed } = &polygon[0] {
        assert!(*closed);
        assert_eq!(
            points,
            &vec![Point { x: 45, y: 10 }, Point { x: 80, y: 80 }, Point { x: 10, y: 80 }]
        );
    } else {
        panic!("Polygon choice must expand to a polygon command");
    }
}

#[test]
fn oversized_stroke_reports_tessellation_error() {
    // A zigzag polygon with enough segments that the stroke pass outgrows the
    // 16-bit index space of the output buffer.
    let mut points = Vec::new();
    let mut i: i16 = 0;
    while points.len() < 40000 {
        let x = if points.len() % 2 == 0 { 0 } else { 90 };
        points.push(Point { x, y: i });
        if points.len() % 2 == 0 {
            i += 1;
        }
    }
    let cmds = vec![ShapeCmd::Polygon { points, closed: true }];
    let path = build_path(&cmds);
    let r = stroke_geometry(&path);
    assert!(matches!(r, Err(RenderError::Tessellation)));
}
