use drawmi::bezier::BezierCurve;
use drawmi::canvas::{clone_shapes, Canvas};
use drawmi::construction::BezierState;
use drawmi::geometry::Point;
use drawmi::paint::Color;
use drawmi::shapes::{Geometry, Shape, Tool};

const BLACK: Color = Color { r: 0, g: 0, b: 0, a: 255 };
const TEAL: Color = Color { r: 0, g: 128, b: 128, a: 255 };

fn pt(x: i32, y: i32) -> Point {
    Point { x, y }
}

fn pen_stroke(canvas: &mut Canvas, from: Point, to: Point) {
    canvas.start_shape(Tool::Pen, from, BLACK, 2);
    canvas.update_current_shape(to);
    canvas.finish_shape();
}

fn curve(canvas: &mut Canvas, a: Point, b: Point, c: Point, d: Point) {
    canvas.start_shape(Tool::Bezier, a, BLACK, 2);
    canvas.start_shape(Tool::Bezier, b, BLACK, 2);
    canvas.start_shape(Tool::Bezier, c, BLACK, 2);
    canvas.start_shape(Tool::Bezier, d, BLACK, 2);
}

#[test]
fn new_canvas_is_empty() {
    let canvas = Canvas::new();
    assert!(Canvas::default().shapes().is_empty());
    assert!(canvas.shapes().is_empty());
    assert!(canvas.history().is_empty());
    assert!(canvas.undo_history().is_empty());
    assert!(canvas.current_shape().is_none());
    assert_eq!(canvas.bezier_state(), BezierState::WaitingForStart);
    assert!(!canvas.is_bezier_active());
    assert!(canvas.bezier_points().is_empty());
}

#[test]
fn pen_stroke_collects_every_point() {
    let mut canvas = Canvas::new();
    canvas.start_shape(Tool::Pen, pt(0, 0), BLACK, 2);
    canvas.update_current_shape(pt(10, 0));
    canvas.update_current_shape(pt(10, 10));
    canvas.finish_shape();
    assert_eq!(canvas.shapes().len(), 1);
    assert_eq!(canvas.shapes()[0].tool(), Tool::Pen);
    assert_eq!(
        canvas.shapes()[0].geometry(),
        &Geometry::Pen { points: vec![pt(0, 0), pt(10, 0), pt(10, 10)] }
    );
    assert_eq!(canvas.shapes()[0].color(), BLACK);
    assert_eq!(canvas.shapes()[0].stroke_width(), 2);
    assert!(canvas.current_shape().is_none());
}

#[test]
fn rectangle_spans_start_and_last_position() {
    let mut canvas = Canvas::new();
    canvas.start_shape(Tool::Rectangle, pt(0, 0), BLACK, 1);
    canvas.update_current_shape(pt(5, 5));
    canvas.finish_shape();
    assert_eq!(canvas.shapes().len(), 1);
    assert_eq!(
        canvas.shapes()[0].geometry(),
        &Geometry::Rectangle { start: pt(0, 0), end: pt(5, 5) }
    );
}

#[test]
fn circle_keeps_center_and_moves_rim() {
    let mut canvas = Canvas::new();
    canvas.start_shape(Tool::Circle, pt(3, 4), BLACK, 1);
    canvas.update_current_shape(pt(6, 8));
    canvas.update_current_shape(pt(0, 0));
    canvas.finish_shape();
    assert_eq!(
        canvas.shapes()[0].geometry(),
        &Geometry::Circle { start: pt(3, 4), end: pt(0, 0) }
    );
}

#[test]
fn start_shape_replaces_shape_in_progress() {
    let mut canvas = Canvas::new();
    canvas.start_shape(Tool::Pen, pt(0, 0), BLACK, 2);
    canvas.update_current_shape(pt(1, 1));
    canvas.start_shape(Tool::Circle, pt(9, 9), TEAL, 7);
    assert_eq!(canvas.current_shape(), Some(&Shape::new(Tool::Circle, pt(9, 9), TEAL, 7)));
    canvas.finish_shape();
    assert_eq!(canvas.shapes().len(), 1);
    assert_eq!(canvas.shapes()[0].tool(), Tool::Circle);
    assert_eq!(canvas.shapes()[0].color(), TEAL);
    assert_eq!(canvas.shapes()[0].stroke_width(), 7);
}

#[test]
fn shape_in_progress_is_not_committed() {
    let mut canvas = Canvas::new();
    canvas.start_shape(Tool::Pen, pt(0, 0), BLACK, 2);
    canvas.update_current_shape(pt(1, 1));
    assert!(canvas.shapes().is_empty());
    assert!(canvas.history().is_empty());
    assert_eq!(
        canvas.current_shape().map(|s| s.geometry()),
        Some(&Geometry::Pen { points: vec![pt(0, 0), pt(1, 1)] })
    );
}

#[test]
fn finish_shape_snapshots_the_shapes_before() {
    let mut canvas = Canvas::new();
    pen_stroke(&mut canvas, pt(0, 0), pt(1, 1));
    assert_eq!(canvas.history().len(), 1);
    assert!(canvas.history()[0].is_empty());
    let one = clone_shapes(canvas.shapes());
    pen_stroke(&mut canvas, pt(2, 2), pt(3, 3));
    assert_eq!(canvas.history().len(), 2);
    assert_eq!(canvas.history()[1], one);
    assert_eq!(canvas.shapes().len(), 2);
}

#[test]
fn finish_shape_without_shape_is_a_no_op() {
    let mut canvas = Canvas::new();
    canvas.finish_shape();
    assert!(canvas.shapes().is_empty());
    assert!(canvas.history().is_empty());

    pen_stroke(&mut canvas, pt(0, 0), pt(1, 1));
    let shapes = clone_shapes(canvas.shapes());
    canvas.finish_shape();
    assert_eq!(canvas.shapes(), &shapes);
    assert_eq!(canvas.history().len(), 1);
    assert!(canvas.undo_history().is_empty());
}

#[test]
fn update_without_shape_is_a_no_op() {
    let mut canvas = Canvas::new();
    canvas.update_current_shape(pt(4, 4));
    assert!(canvas.current_shape().is_none());
    assert!(canvas.shapes().is_empty());
    assert!(canvas.history().is_empty());
}

#[test]
fn clear_after_two_shapes_snapshots_them() {
    let mut canvas = Canvas::new();
    curve(&mut canvas, pt(0, 0), pt(10, 0), pt(2, 5), pt(8, 5));
    curve(&mut canvas, pt(0, 10), pt(10, 10), pt(2, 15), pt(8, 15));
    assert_eq!(canvas.shapes().len(), 2);
    assert!(canvas.history().is_empty());
    let two = clone_shapes(canvas.shapes());

    canvas.clear();
    assert_eq!(canvas.history().len(), 1);
    assert_eq!(canvas.history()[0], two);
    assert!(canvas.shapes().is_empty());

    canvas.undo();
    assert_eq!(canvas.shapes(), &two);
    assert!(canvas.history().is_empty());
}

#[test]
fn clear_after_two_pen_strokes_puts_them_on_top_of_history() {
    let mut canvas = Canvas::new();
    pen_stroke(&mut canvas, pt(0, 0), pt(1, 1));
    pen_stroke(&mut canvas, pt(2, 2), pt(3, 3));
    let two = clone_shapes(canvas.shapes());
    canvas.clear();
    assert_eq!(canvas.history().len(), 3);
    assert_eq!(canvas.history()[2], two);
    assert!(canvas.shapes().is_empty());
    canvas.undo();
    assert_eq!(canvas.shapes(), &two);
}

#[test]
fn clear_drops_work_in_progress() {
    let mut canvas = Canvas::new();
    canvas.start_shape(Tool::Pen, pt(0, 0), BLACK, 2);
    canvas.start_shape(Tool::Bezier, pt(1, 1), BLACK, 2);
    canvas.start_shape(Tool::Bezier, pt(5, 5), BLACK, 2);
    assert!(canvas.is_bezier_active());
    canvas.clear();
    assert!(canvas.current_shape().is_none());
    assert!(!canvas.is_bezier_active());
    assert_eq!(canvas.bezier_state(), BezierState::WaitingForStart);
    assert!(canvas.bezier_points().is_empty());
    assert_eq!(canvas.history().len(), 1);
}

#[test]
fn undo_then_redo_restores_the_shapes() {
    let mut canvas = Canvas::new();
    pen_stroke(&mut canvas, pt(0, 0), pt(1, 1));
    pen_stroke(&mut canvas, pt(2, 2), pt(3, 3));
    canvas.clear();
    pen_stroke(&mut canvas, pt(4, 4), pt(5, 5));
    let shapes = clone_shapes(canvas.shapes());
    let history: Vec<Vec<Shape>> = canvas.history().iter().map(clone_shapes).collect();

    canvas.undo();
    assert!(canvas.shapes().is_empty());
    assert_eq!(canvas.undo_history().len(), 1);
    assert_eq!(canvas.undo_history()[0], shapes);
    canvas.redo();
    assert_eq!(canvas.shapes(), &shapes);
    assert_eq!(canvas.history(), &history);
    assert!(canvas.undo_history().is_empty());
}

#[test]
fn undo_walks_back_through_every_snapshot() {
    let mut canvas = Canvas::new();
    pen_stroke(&mut canvas, pt(0, 0), pt(1, 1));
    let one = clone_shapes(canvas.shapes());
    pen_stroke(&mut canvas, pt(2, 2), pt(3, 3));
    let two = clone_shapes(canvas.shapes());

    canvas.undo();
    assert_eq!(canvas.shapes(), &one);
    canvas.undo();
    assert!(canvas.shapes().is_empty());
    assert!(canvas.history().is_empty());
    assert_eq!(canvas.undo_history().len(), 2);

    canvas.redo();
    assert_eq!(canvas.shapes(), &one);
    canvas.redo();
    assert_eq!(canvas.shapes(), &two);
    assert!(canvas.undo_history().is_empty());
    assert_eq!(canvas.history().len(), 2);
}

#[test]
fn undo_beyond_exhaustion_is_a_no_op() {
    let mut canvas = Canvas::new();
    pen_stroke(&mut canvas, pt(0, 0), pt(1, 1));
    canvas.undo();
    let undone: Vec<Vec<Shape>> = canvas.undo_history().iter().map(clone_shapes).collect();
    for _ in 0..3 {
        canvas.undo();
        assert!(canvas.shapes().is_empty());
        assert!(canvas.history().is_empty());
        assert_eq!(canvas.undo_history(), &undone);
    }
}

#[test]
fn redo_on_empty_stack_is_a_no_op() {
    let mut canvas = Canvas::new();
    pen_stroke(&mut canvas, pt(0, 0), pt(1, 1));
    let shapes = clone_shapes(canvas.shapes());
    canvas.redo();
    assert_eq!(canvas.shapes(), &shapes);
    assert_eq!(canvas.history().len(), 1);
    assert!(canvas.undo_history().is_empty());
}

#[test]
fn commit_after_undo_keeps_the_redo_stack() {
    let mut canvas = Canvas::new();
    pen_stroke(&mut canvas, pt(0, 0), pt(1, 1));
    let first = clone_shapes(canvas.shapes());
    canvas.undo();
    pen_stroke(&mut canvas, pt(7, 7), pt(8, 8));
    assert_eq!(canvas.undo_history().len(), 1);
    canvas.redo();
    assert_eq!(canvas.shapes(), &first);
}

#[test]
fn four_clicks_commit_one_curve() {
    let mut canvas = Canvas::new();
    let (a, b, c, d) = (pt(0, 0), pt(100, 0), pt(25, 50), pt(75, 50));
    canvas.start_shape(Tool::Bezier, a, BLACK, 1);
    assert_eq!(canvas.bezier_state(), BezierState::WaitingForEnd { p0: a });
    assert_eq!(canvas.bezier_points(), vec![a]);
    canvas.start_shape(Tool::Bezier, b, BLACK, 1);
    assert_eq!(
        canvas.bezier_state(),
        BezierState::WaitingForControl1 { p0: a, p3: b, control1: pt(33, 0) }
    );
    assert_eq!(canvas.bezier_points(), vec![a, b, pt(33, 0)]);
    canvas.start_shape(Tool::Bezier, c, BLACK, 1);
    assert_eq!(
        canvas.bezier_state(),
        BezierState::WaitingForControl2 { p0: a, p3: b, control1: c, control2: None }
    );
    assert!(canvas.shapes().is_empty());
    assert!(canvas.is_bezier_active());
    canvas.start_shape(Tool::Bezier, d, TEAL, 3);

    assert_eq!(canvas.shapes().len(), 1);
    assert_eq!(
        canvas.shapes()[0],
        Shape::from_curve(BezierCurve { p0: a, p1: c, p2: d, p3: b }, TEAL, 3)
    );
    assert_eq!(canvas.shapes()[0].tool(), Tool::Bezier);
    assert_eq!(canvas.bezier_state(), BezierState::WaitingForStart);
    assert!(canvas.bezier_points().is_empty());
    assert!(!canvas.is_bezier_active());
    assert!(canvas.history().is_empty());
    assert!(canvas.current_shape().is_none());
}

#[test]
fn hovering_between_clicks_does_not_change_the_curve() {
    let mut canvas = Canvas::new();
    let (a, b, c, d) = (pt(0, 0), pt(100, 0), pt(25, 50), pt(75, 50));
    canvas.update_bezier_hover(pt(1, 1));
    assert_eq!(canvas.bezier_state(), BezierState::WaitingForStart);
    canvas.start_shape(Tool::Bezier, a, BLACK, 1);
    canvas.update_bezier_hover(pt(2, 2));
    assert_eq!(canvas.bezier_state(), BezierState::WaitingForEnd { p0: a });
    canvas.start_shape(Tool::Bezier, b, BLACK, 1);
    canvas.update_bezier_hover(pt(3, 3));
    assert_eq!(
        canvas.bezier_state(),
        BezierState::WaitingForControl1 { p0: a, p3: b, control1: pt(3, 3) }
    );
    canvas.start_shape(Tool::Bezier, c, BLACK, 1);
    canvas.update_bezier_hover(pt(4, 4));
    canvas.update_bezier_hover(pt(5, 5));
    assert_eq!(
        canvas.bezier_state(),
        BezierState::WaitingForControl2 { p0: a, p3: b, control1: c, control2: Some(pt(5, 5)) }
    );
    assert_eq!(canvas.bezier_points(), vec![a, b, c, pt(5, 5)]);
    canvas.start_shape(Tool::Bezier, d, BLACK, 1);
    assert_eq!(
        canvas.shapes()[0].geometry(),
        &Geometry::Bezier { curve: BezierCurve { p0: a, p1: c, p2: d, p3: b } }
    );
}

#[test]
fn degenerate_curve_is_accepted() {
    let mut canvas = Canvas::new();
    let p = pt(7, 7);
    curve(&mut canvas, p, p, p, p);
    assert_eq!(
        canvas.shapes()[0].geometry(),
        &Geometry::Bezier { curve: BezierCurve { p0: p, p1: p, p2: p, p3: p } }
    );
}

#[test]
fn bezier_clicks_leave_the_shape_in_progress_alone() {
    let mut canvas = Canvas::new();
    canvas.start_shape(Tool::Pen, pt(0, 0), BLACK, 2);
    canvas.start_shape(Tool::Bezier, pt(1, 1), BLACK, 2);
    assert_eq!(canvas.current_shape(), Some(&Shape::new(Tool::Pen, pt(0, 0), BLACK, 2)));
    assert!(canvas.is_bezier_active());
}

#[test]
fn clone_shapes_copies_every_shape() {
    let mut canvas = Canvas::new();
    pen_stroke(&mut canvas, pt(0, 0), pt(1, 1));
    curve(&mut canvas, pt(0, 0), pt(10, 0), pt(2, 5), pt(8, 5));
    let copy = clone_shapes(canvas.shapes());
    assert_eq!(copy.len(), 2);
    assert_eq!(&copy, canvas.shapes());
}

#[test]
fn committed_shapes_stay_where_they_are() {
    let mut canvas = Canvas::new();
    pen_stroke(&mut canvas, pt(0, 0), pt(1, 1));
    let mut seen = clone_shapes(canvas.shapes());

    canvas.start_shape(Tool::Rectangle, pt(0, 0), BLACK, 1);
    assert_eq!(canvas.shapes(), &seen);
    canvas.update_current_shape(pt(5, 5));
    assert_eq!(canvas.shapes(), &seen);
    canvas.finish_shape();
    assert_eq!(canvas.shapes().len(), seen.len() + 1);
    assert_eq!(&canvas.shapes()[..seen.len()], &seen[..]);
    seen = clone_shapes(canvas.shapes());

    canvas.start_shape(Tool::Bezier, pt(0, 0), BLACK, 1);
    canvas.start_shape(Tool::Bezier, pt(9, 0), BLACK, 1);
    canvas.update_bezier_hover(pt(4, 4));
    canvas.start_shape(Tool::Bezier, pt(3, 3), BLACK, 1);
    assert_eq!(canvas.shapes(), &seen);
    canvas.start_shape(Tool::Bezier, pt(6, 3), BLACK, 1);
    assert_eq!(canvas.shapes().len(), seen.len() + 1);
    assert_eq!(&canvas.shapes()[..seen.len()], &seen[..]);
}

#[test]
fn crate_root_names_the_main_types() {
    let mut canvas = drawmi::Canvas::new();
    canvas.start_shape(drawmi::Tool::Pen, drawmi::Point { x: 1, y: 2 }, BLACK, 1);
    canvas.finish_shape();
    assert_eq!(
        canvas.shapes()[0].geometry(),
        &drawmi::Geometry::Pen { points: vec![pt(1, 2)] }
    );
}
