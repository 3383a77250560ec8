use drawmi::bezier::BezierCurve;
use drawmi::canvas::Canvas;
use drawmi::construction::{BezierState, GUIDE_WIDTH, HANDLE_RADIUS, PREVIEW_WIDTH};
use drawmi::geometry::{project, Offset, Point};
use drawmi::paint::{append_commands, Color, DrawCommand, Stroke};
use drawmi::shapes::{Geometry, Shape, Tool};

const BLACK: Color = Color { r: 0, g: 0, b: 0, a: 255 };
const RED: Color = Color { r: 255, g: 0, b: 0, a: 255 };
const BLUE: Color = Color { r: 0, g: 0, b: 255, a: 255 };
const GRAY: Color = Color { r: 128, g: 128, b: 128, a: 255 };
const GREEN: Color = Color { r: 0, g: 160, b: 0, a: 255 };
const NO_PAN: Offset = Offset { dx: 0, dy: 0 };

fn pt(x: i32, y: i32) -> Point {
    Point { x, y }
}

fn disc(center: Point, color: Color) -> DrawCommand {
    DrawCommand::FilledCircle { center, radius: HANDLE_RADIUS, color }
}

fn guide(from: Point, to: Point) -> DrawCommand {
    DrawCommand::LineSegment { from, to, stroke: Stroke { width: GUIDE_WIDTH, color: GRAY } }
}

#[test]
fn color_rgb_is_opaque() {
    assert_eq!(Color::rgb(1, 2, 3), Color { r: 1, g: 2, b: 3, a: 255 });
}

#[test]
fn shape_new_anchors_every_tool_at_the_position() {
    let p = pt(4, 5);
    assert_eq!(Shape::new(Tool::Pen, p, BLACK, 2).geometry(), &Geometry::Pen { points: vec![p] });
    assert_eq!(
        Shape::new(Tool::Rectangle, p, BLACK, 2).geometry(),
        &Geometry::Rectangle { start: p, end: p }
    );
    assert_eq!(
        Shape::new(Tool::Circle, p, BLACK, 2).geometry(),
        &Geometry::Circle { start: p, end: p }
    );
    assert_eq!(Shape::new(Tool::Select, p, BLACK, 2).geometry(), &Geometry::Select);
    assert_eq!(
        Shape::new(Tool::Bezier, p, BLACK, 2).geometry(),
        &Geometry::Bezier { curve: BezierCurve { p0: p, p1: p, p2: p, p3: p } }
    );
    for tool in [Tool::Pen, Tool::Rectangle, Tool::Circle, Tool::Select, Tool::Bezier] {
        let shape = Shape::new(tool, p, BLUE, 9);
        assert_eq!(shape.tool(), tool);
        assert_eq!(shape.color(), BLUE);
        assert_eq!(shape.stroke_width(), 9);
    }
}

#[test]
fn shape_update_extends_by_tool() {
    let (p, q, r) = (pt(0, 0), pt(3, 4), pt(-1, 8));
    let mut pen = Shape::new(Tool::Pen, p, BLACK, 2);
    pen.update(q);
    pen.update(r);
    assert_eq!(pen.geometry(), &Geometry::Pen { points: vec![p, q, r] });

    let mut rect = Shape::new(Tool::Rectangle, p, BLACK, 2);
    rect.update(q);
    rect.update(r);
    assert_eq!(rect.geometry(), &Geometry::Rectangle { start: p, end: r });

    let mut circle = Shape::new(Tool::Circle, p, BLACK, 2);
    circle.update(q);
    assert_eq!(circle.geometry(), &Geometry::Circle { start: p, end: q });

    let mut select = Shape::new(Tool::Select, p, BLACK, 2);
    select.update(q);
    assert_eq!(select, Shape::new(Tool::Select, p, BLACK, 2));

    let curve = BezierCurve { p0: p, p1: q, p2: r, p3: p };
    let mut bezier = Shape::from_curve(curve, BLACK, 2);
    bezier.update(pt(99, 99));
    assert_eq!(bezier, Shape::from_curve(curve, BLACK, 2));
    assert_eq!(bezier.color(), BLACK);
    assert_eq!(bezier.stroke_width(), 2);
}

#[test]
fn shape_clone_is_equal() {
    let mut pen = Shape::new(Tool::Pen, pt(0, 0), BLUE, 3);
    pen.update(pt(1, 2));
    let copy = pen.clone();
    assert_eq!(copy, pen);
    pen.update(pt(3, 4));
    assert_eq!(copy.geometry(), &Geometry::Pen { points: vec![pt(0, 0), pt(1, 2)] });
}

#[test]
fn icon_by_tool() {
    let p = pt(0, 0);
    assert_eq!(Shape::new(Tool::Pen, p, BLACK, 1).icon(), "✏");
    assert_eq!(Shape::new(Tool::Rectangle, p, BLACK, 1).icon(), "▭");
    assert_eq!(Shape::new(Tool::Circle, p, BLACK, 1).icon(), "○");
    assert_eq!(Shape::new(Tool::Select, p, BLACK, 1).icon(), "➤");
    assert_eq!(Shape::new(Tool::Bezier, p, BLACK, 1).icon(), "➤");
}

#[test]
fn pen_renders_a_polyline_once_it_has_two_points() {
    let mut pen = Shape::new(Tool::Pen, pt(0, 0), BLACK, 2);
    assert_eq!(pen.render(2000, Offset { dx: 1, dy: 1 }), Vec::new());
    pen.update(pt(10, 0));
    assert_eq!(
        pen.render(2000, Offset { dx: 1, dy: 1 }),
        vec![DrawCommand::Polyline {
            points: vec![pt(1, 1), pt(21, 1)],
            stroke: Stroke { width: 4, color: BLACK },
        }]
    );
}

#[test]
fn rectangle_renders_its_bounding_corners() {
    let mut rect = Shape::new(Tool::Rectangle, pt(10, 20), BLUE, 3);
    rect.update(pt(-10, 40));
    assert_eq!(
        rect.render(500, Offset { dx: 100, dy: 0 }),
        vec![DrawCommand::StrokedRect {
            min: pt(95, 10),
            max: pt(105, 20),
            stroke: Stroke { width: 2, color: BLUE },
        }]
    );
    let mut rect = Shape::new(Tool::Rectangle, pt(0, 0), BLUE, 3);
    rect.update(pt(5, -5));
    assert_eq!(
        rect.render(1000, NO_PAN),
        vec![DrawCommand::StrokedRect {
            min: pt(0, -5),
            max: pt(5, 0),
            stroke: Stroke { width: 3, color: BLUE },
        }]
    );
}

#[test]
fn circle_renders_center_and_scaled_radius() {
    let mut circle = Shape::new(Tool::Circle, pt(0, 0), BLACK, 1);
    assert_eq!(
        circle.render(1000, NO_PAN),
        vec![DrawCommand::StrokedCircle {
            center: pt(0, 0),
            radius: 0,
            stroke: Stroke { width: 1, color: BLACK },
        }]
    );
    circle.update(pt(3, 4));
    assert_eq!(
        circle.render(10_000, Offset { dx: 7, dy: -7 }),
        vec![DrawCommand::StrokedCircle {
            center: pt(7, -7),
            radius: 50,
            stroke: Stroke { width: 10, color: BLACK },
        }]
    );
    let mut circle = Shape::new(Tool::Circle, pt(100, 100), BLACK, 1);
    circle.update(pt(110, 110));
    assert_eq!(
        circle.render(1500, NO_PAN),
        vec![DrawCommand::StrokedCircle {
            center: pt(150, 150),
            radius: 21,
            stroke: Stroke { width: 2, color: BLACK },
        }]
    );
}

#[test]
fn circle_radius_saturates() {
    let mut circle = Shape::new(Tool::Circle, pt(i32::MIN, i32::MIN), BLACK, 1);
    circle.update(pt(i32::MAX, i32::MAX));
    assert_eq!(
        circle.render(1000, NO_PAN),
        vec![DrawCommand::StrokedCircle {
            center: pt(i32::MIN, i32::MIN),
            radius: u32::MAX,
            stroke: Stroke { width: 1, color: BLACK },
        }]
    );
    assert_eq!(
        circle.render(100, NO_PAN),
        vec![DrawCommand::StrokedCircle {
            center: pt(-214_748_365, -214_748_365),
            radius: 607_400_100,
            stroke: Stroke { width: 0, color: BLACK },
        }]
    );
}

#[test]
fn select_renders_nothing() {
    assert_eq!(Shape::new(Tool::Select, pt(1, 1), BLACK, 1).render(1000, NO_PAN), Vec::new());
}

#[test]
fn curve_renders_fifty_segments() {
    let curve = BezierCurve { p0: pt(0, 0), p1: pt(0, 100), p2: pt(100, 100), p3: pt(100, 0) };
    let shape = Shape::from_curve(curve, BLACK, 2);
    let pan = Offset { dx: -5, dy: 5 };
    let commands = shape.render(3000, pan);
    assert_eq!(
        commands,
        vec![DrawCommand::Polyline {
            points: project(&curve.polyline(50), 3000, pan),
            stroke: Stroke { width: 6, color: BLACK },
        }]
    );
    match &commands[0] {
        DrawCommand::Polyline { points, .. } => {
            assert_eq!(points.len(), 51);
            assert_eq!(points[0], pt(-5, 5));
            assert_eq!(points[25], pt(145, 230));
            assert_eq!(points[50], pt(295, 5));
        }
        other => panic!("not a polyline: {:?}", other),
    }
}

#[test]
fn canvas_renders_shapes_then_progress_then_construction() {
    let mut canvas = Canvas::new();
    assert_eq!(canvas.render(1000, NO_PAN), Vec::new());

    canvas.start_shape(Tool::Rectangle, pt(0, 0), BLACK, 1);
    canvas.update_current_shape(pt(5, 5));
    canvas.finish_shape();
    canvas.start_shape(Tool::Select, pt(0, 0), BLACK, 1);
    canvas.finish_shape();
    canvas.start_shape(Tool::Pen, pt(1, 1), BLUE, 2);
    canvas.update_current_shape(pt(2, 2));
    canvas.finish_shape();
    canvas.start_shape(Tool::Circle, pt(7, 7), RED, 3);
    canvas.update_current_shape(pt(8, 8));
    canvas.start_shape(Tool::Bezier, pt(9, 9), BLACK, 1);

    let pan = Offset { dx: 10, dy: 20 };
    assert_eq!(
        canvas.render(2000, pan),
        vec![
            DrawCommand::StrokedRect {
                min: pt(10, 20),
                max: pt(20, 30),
                stroke: Stroke { width: 2, color: BLACK },
            },
            DrawCommand::Polyline {
                points: vec![pt(12, 22), pt(14, 24)],
                stroke: Stroke { width: 4, color: BLUE },
            },
            DrawCommand::StrokedCircle {
                center: pt(24, 34),
                radius: 2,
                stroke: Stroke { width: 6, color: RED },
            },
            disc(pt(28, 38), RED),
        ]
    );
    // Rendering reads; it does not change the canvas.
    assert_eq!(canvas.shapes().len(), 3);
    assert_eq!(canvas.history().len(), 3);
    assert!(canvas.current_shape().is_some());
    assert_eq!(canvas.bezier_state(), BezierState::WaitingForEnd { p0: pt(9, 9) });
}

#[test]
fn construction_draws_nothing_before_the_first_click() {
    assert_eq!(BezierState::WaitingForStart.render(1000, NO_PAN), Vec::new());
}

#[test]
fn construction_draws_anchors_controls_and_guides() {
    let (a, b, c, d) = (pt(0, 0), pt(100, 0), pt(25, 50), pt(75, 50));
    let double = |p: Point| pt(2 * p.x, 2 * p.y);

    let state = BezierState::WaitingForEnd { p0: a };
    assert_eq!(state.render(2000, NO_PAN), vec![disc(double(a), RED)]);

    let state = BezierState::WaitingForControl1 { p0: a, p3: b, control1: c };
    assert_eq!(
        state.render(2000, NO_PAN),
        vec![
            guide(double(a), double(c)),
            disc(double(a), RED),
            disc(double(b), RED),
            disc(double(c), BLUE),
        ]
    );

    let state = BezierState::WaitingForControl2 { p0: a, p3: b, control1: c, control2: None };
    assert_eq!(
        state.render(2000, NO_PAN),
        vec![
            guide(double(a), double(c)),
            disc(double(a), RED),
            disc(double(b), RED),
            disc(double(c), BLUE),
        ]
    );

    let state = BezierState::WaitingForControl2 { p0: a, p3: b, control1: c, control2: Some(d) };
    let curve = BezierCurve { p0: a, p1: c, p2: d, p3: b };
    assert_eq!(
        state.render(2000, NO_PAN),
        vec![
            guide(double(a), double(c)),
            guide(double(b), double(d)),
            DrawCommand::Polyline {
                points: project(&curve.polyline(50), 2000, NO_PAN),
                stroke: Stroke { width: PREVIEW_WIDTH, color: GREEN },
            },
            disc(double(a), RED),
            disc(double(b), RED),
            disc(double(c), BLUE),
            disc(double(d), BLUE),
        ]
    );
}

#[test]
fn marks_keep_their_size_under_zoom() {
    assert_eq!(HANDLE_RADIUS, 256);
    assert_eq!(GUIDE_WIDTH, 64);
    assert_eq!(PREVIEW_WIDTH, 128);
    let state = BezierState::WaitingForEnd { p0: pt(10, 10) };
    assert_eq!(state.render(100, NO_PAN), vec![disc(pt(1, 1), RED)]);
    assert_eq!(state.render(10_000, NO_PAN), vec![disc(pt(100, 100), RED)]);
}

#[test]
fn append_commands_keeps_order() {
    let mut commands = vec![disc(pt(0, 0), RED)];
    append_commands(&mut commands, vec![disc(pt(1, 1), BLUE), guide(pt(0, 0), pt(1, 1))]);
    assert_eq!(
        commands,
        vec![disc(pt(0, 0), RED), disc(pt(1, 1), BLUE), guide(pt(0, 0), pt(1, 1))]
    );
    let copy = commands.clone();
    assert_eq!(copy, commands);
}
