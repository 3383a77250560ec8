//! The four-click construction of a Bézier curve: start, end, first control,
//! second control. Between clicks the pointer position previews the control
//! point that the next click will fix.

use vstd::prelude::*;
use crate::bezier::{BezierCurve, CURVE_SEGMENTS};
use crate::geometry::{
    canvas_to_screen, div_round, lemma_round_div_between, project, round_div, spec_project, Offset,
    Point,
};
use crate::paint::{models, Color, DrawCommand, DrawModel, Stroke};

verus! {

/// The default first control point lies this many hundredths of the way from
/// the start of the chord to its end.
pub const DEFAULT_CONTROL_PERCENT: u8 = 33;

/// The radius of the disc that marks a placed point: four pixels.
pub const HANDLE_RADIUS: u32 = 256;

/// The width of a guide line between an anchor and its control point: one
/// pixel.
pub const GUIDE_WIDTH: u32 = 64;

/// The width of the curve preview: two pixels.
pub const PREVIEW_WIDTH: u32 = 128;

/// Where the construction stands.
#[derive(Clone, Copy, Debug, PartialEq, Eq)]
pub enum BezierState {
    /// Nothing placed yet.
    WaitingForStart,
    /// The start `p0` is placed.
    WaitingForEnd { p0: Point },
    /// Both anchors are placed. `control1` is the default first control point,
    /// or the pointer position where the pointer has moved since.
    WaitingForControl1 { p0: Point, p3: Point, control1: Point },
    /// The first control point is fixed. `control2` is the pointer position,
    /// once the pointer has moved.
    WaitingForControl2 { p0: Point, p3: Point, control1: Point, control2: Option<Point> },
    /// Reserved for dragging a handle of a finished curve. No event leads here
    /// and none leads away.
    Editing { selected_handle: usize },
}

/// One coordinate of the default first control point: `a + (b - a) * 33 / 100`,
/// rounded to the nearest unit.
#[verifier::inline]
pub open spec fn default_control_coord(a: int, b: int) -> int {
    a + round_div((b - a) * DEFAULT_CONTROL_PERCENT, 100)
}

/// The default first control point of the chord from `p0` to `p3`.
pub open spec fn spec_default_control(p0: Point, p3: Point) -> Point {
    Point {
        x: default_control_coord(p0.x as int, p3.x as int) as i32,
        y: default_control_coord(p0.y as int, p3.y as int) as i32,
    }
}

/// The default first control point lies between the two anchors.
pub proof fn lemma_default_control_between(a: int, b: int)
    ensures
        a <= b ==> a <= default_control_coord(a, b) <= b,
        b <= a ==> b <= default_control_coord(a, b) <= a,
{
    let d = b - a;
    if d >= 0 {
        lemma_round_div_between(d * DEFAULT_CONTROL_PERCENT, 100, 0, d);
    } else {
        lemma_round_div_between(d * DEFAULT_CONTROL_PERCENT, 100, d, 0);
    }
}

/// Computes `default_control_coord` on machine integers.
fn default_control_axis(a: i32, b: i32) -> (c: i32)
    ensures
        c == default_control_coord(a as int, b as int),
{
    proof {
        lemma_default_control_between(a as int, b as int);
    }
    let d: i128 = b as i128 - a as i128;
    (a as i128 + div_round(d * (DEFAULT_CONTROL_PERCENT as i128), 100)) as i32
}

/// The default first control point: a third of the way along the chord from
/// `p0` to `p3`, `p0 + (p3 - p0) * 33 / 100`.
#[verifier::when_used_as_spec(spec_default_control)]
pub fn default_control(p0: Point, p3: Point) -> (c: Point)
    ensures
        c == spec_default_control(p0, p3),
{
    Point { x: default_control_axis(p0.x, p3.x), y: default_control_axis(p0.y, p3.y) }
}

/// The color of the discs on the anchors `p0` and `p3`: red.
pub open spec fn anchor_color() -> Color {
    Color::rgb(255, 0, 0)
}

/// The color of the discs on the control points: blue.
pub open spec fn control_color() -> Color {
    Color::rgb(0, 0, 255)
}

/// The color of the guide lines: gray.
pub open spec fn guide_color() -> Color {
    Color::rgb(128, 128, 128)
}

/// The color of the curve preview: green.
pub open spec fn preview_color() -> Color {
    Color::rgb(0, 160, 0)
}

/// The disc that marks a placed point.
pub open spec fn handle(at: Point, color: Color, zoom: u32, pan: Offset) -> DrawModel {
    DrawModel::FilledCircle {
        center: canvas_to_screen(at, zoom, pan),
        radius: HANDLE_RADIUS,
        color,
    }
}

/// The guide line from an anchor to its control point.
pub open spec fn guide(anchor: Point, control: Point, zoom: u32, pan: Offset) -> DrawModel {
    DrawModel::LineSegment {
        from: canvas_to_screen(anchor, zoom, pan),
        to: canvas_to_screen(control, zoom, pan),
        stroke: Stroke { width: GUIDE_WIDTH, color: guide_color() },
    }
}

/// The preview of the curve under construction.
pub open spec fn preview(curve: BezierCurve, zoom: u32, pan: Offset) -> DrawModel {
    DrawModel::Polyline {
        points: spec_project(curve.spec_polyline(CURVE_SEGMENTS), zoom, pan),
        stroke: Stroke { width: PREVIEW_WIDTH, color: preview_color() },
    }
}

/// Builds the disc that marks a placed point.
fn handle_command(at: Point, color: Color, zoom: u32, pan: Offset) -> (command: DrawCommand)
    ensures
        command@ == handle(at, color, zoom, pan),
{
    DrawCommand::FilledCircle {
        center: canvas_to_screen(at, zoom, pan),
        radius: HANDLE_RADIUS,
        color,
    }
}

/// Builds the guide line from an anchor to its control point.
fn guide_command(anchor: Point, control: Point, zoom: u32, pan: Offset) -> (command: DrawCommand)
    ensures
        command@ == guide(anchor, control, zoom, pan),
{
    DrawCommand::LineSegment {
        from: canvas_to_screen(anchor, zoom, pan),
        to: canvas_to_screen(control, zoom, pan),
        stroke: Stroke { width: GUIDE_WIDTH, color: Color::rgb(128, 128, 128) },
    }
}

/// Builds the preview of the curve under construction.
fn preview_command(curve: BezierCurve, zoom: u32, pan: Offset) -> (command: DrawCommand)
    ensures
        command@ == preview(curve, zoom, pan),
{
    let flat = curve.polyline(CURVE_SEGMENTS);
    DrawCommand::Polyline {
        points: project(&flat, zoom, pan),
        stroke: Stroke { width: PREVIEW_WIDTH, color: Color::rgb(0, 160, 0) },
    }
}

impl BezierState {
    /// The state after a click at `pos`.
    pub open spec fn after_click(self, pos: Point) -> BezierState {
        match self {
            BezierState::WaitingForStart => BezierState::WaitingForEnd { p0: pos },
            BezierState::WaitingForEnd { p0 } => BezierState::WaitingForControl1 {
                p0,
                p3: pos,
                control1: default_control(p0, pos),
            },
            BezierState::WaitingForControl1 { p0, p3, .. } => BezierState::WaitingForControl2 {
                p0,
                p3,
                control1: pos,
                control2: None,
            },
            BezierState::WaitingForControl2 { .. } => BezierState::WaitingForStart,
            BezierState::Editing { selected_handle } => BezierState::Editing { selected_handle },
        }
    }

    /// The curve that a click at `pos` finishes, if it finishes one.
    pub open spec fn finished_by_click(self, pos: Point) -> Option<BezierCurve> {
        match self {
            BezierState::WaitingForControl2 { p0, p3, control1, control2 } => Some(
                BezierCurve { p0, p1: control1, p2: pos, p3 },
            ),
            _ => None,
        }
    }

    /// The state after the pointer moved to `pos` without a click.
    pub open spec fn after_hover(self, pos: Point) -> BezierState {
        match self {
            BezierState::WaitingForControl1 { p0, p3, .. } => BezierState::WaitingForControl1 {
                p0,
                p3,
                control1: pos,
            },
            BezierState::WaitingForControl2 { p0, p3, control1, control2 } => {
                BezierState::WaitingForControl2 { p0, p3, control1, control2: Some(pos) }
            },
            _ => self,
        }
    }

    /// Whether a construction, or an edit, is under way.
    pub open spec fn spec_is_active(&self) -> bool {
        !(*self is WaitingForStart)
    }

    /// The points accumulated so far: the start, the end, the first control
    /// point and the second, as far as they exist.
    pub open spec fn spec_points(&self) -> Seq<Point> {
        match *self {
            BezierState::WaitingForStart => seq![],
            BezierState::WaitingForEnd { p0 } => seq![p0],
            BezierState::WaitingForControl1 { p0, p3, control1 } => seq![p0, p3, control1],
            BezierState::WaitingForControl2 { p0, p3, control1, control2: None } => seq![
                p0,
                p3,
                control1,
            ],
            BezierState::WaitingForControl2 { p0, p3, control1, control2: Some(c2) } => seq![
                p0,
                p3,
                control1,
                c2,
            ],
            BezierState::Editing { .. } => seq![],
        }
    }

    /// What is drawn over the canvas during a construction: a guide line from
    /// each anchor to its control point, the curve preview once both control
    /// points exist, then a red disc on each anchor and a blue disc on each
    /// control point.
    pub open spec fn overlay(self, zoom: u32, pan: Offset) -> Seq<DrawModel> {
        match self {
            BezierState::WaitingForStart => seq![],
            BezierState::WaitingForEnd { p0 } => seq![handle(p0, anchor_color(), zoom, pan)],
            BezierState::WaitingForControl1 { p0, p3, control1 } => seq![
                guide(p0, control1, zoom, pan),
                handle(p0, anchor_color(), zoom, pan),
                handle(p3, anchor_color(), zoom, pan),
                handle(control1, control_color(), zoom, pan),
            ],
            BezierState::WaitingForControl2 { p0, p3, control1, control2: None } => seq![
                guide(p0, control1, zoom, pan),
                handle(p0, anchor_color(), zoom, pan),
                handle(p3, anchor_color(), zoom, pan),
                handle(control1, control_color(), zoom, pan),
            ],
            BezierState::WaitingForControl2 { p0, p3, control1, control2: Some(c2) } => seq![
                guide(p0, control1, zoom, pan),
                guide(p3, c2, zoom, pan),
                preview(BezierCurve { p0, p1: control1, p2: c2, p3 }, zoom, pan),
                handle(p0, anchor_color(), zoom, pan),
                handle(p3, anchor_color(), zoom, pan),
                handle(control1, control_color(), zoom, pan),
                handle(c2, control_color(), zoom, pan),
            ],
            BezierState::Editing { .. } => seq![],
        }
    }

    /// The state in which nothing is placed.
    pub fn new() -> (state: BezierState)
        ensures
            state == BezierState::WaitingForStart,
    {
        BezierState::WaitingForStart
    }

    /// Takes a click at the canvas position `pos`.
    ///
    /// The first click places the start, the second the end, and with it the
    /// default first control point. The third fixes the first control point.
    /// The fourth fixes the second, hands out the finished curve and returns
    /// to the beginning. A click while editing changes nothing.
    pub fn click(self, pos: Point) -> (next: (BezierState, Option<BezierCurve>))
        ensures
            next.0 == self.after_click(pos),
            next.1 == self.finished_by_click(pos),
    {
        match self {
            BezierState::WaitingForStart => (BezierState::WaitingForEnd { p0: pos }, None),
            BezierState::WaitingForEnd { p0 } => (
                BezierState::WaitingForControl1 { p0, p3: pos, control1: default_control(p0, pos) },
                None,
            ),
            BezierState::WaitingForControl1 { p0, p3, control1: _ } => (
                BezierState::WaitingForControl2 { p0, p3, control1: pos, control2: None },
                None,
            ),
            BezierState::WaitingForControl2 { p0, p3, control1, control2: _ } => (
                BezierState::WaitingForStart,
                Some(BezierCurve { p0, p1: control1, p2: pos, p3 }),
            ),
            BezierState::Editing { selected_handle } => (
                BezierState::Editing { selected_handle },
                None,
            ),
        }
    }

    /// Takes a pointer move to the canvas position `pos`, without a click.
    ///
    /// While the first control point is awaited it follows the pointer, and so
    /// does the second while that one is awaited. In every other state the
    /// move changes nothing.
    pub fn hover(self, pos: Point) -> (next: BezierState)
        ensures
            next == self.after_hover(pos),
    {
        match self {
            BezierState::WaitingForControl1 { p0, p3, control1: _ } => {
                BezierState::WaitingForControl1 { p0, p3, control1: pos }
            },
            BezierState::WaitingForControl2 { p0, p3, control1, control2: _ } => {
                BezierState::WaitingForControl2 { p0, p3, control1, control2: Some(pos) }
            },
            other => other,
        }
    }

    /// Whether the machine has left its initial state.
    #[verifier::when_used_as_spec(spec_is_active)]
    pub fn is_active(&self) -> (active: bool)
        ensures
            active == self.spec_is_active(),
    {
        match self {
            BezierState::WaitingForStart => false,
            _ => true,
        }
    }

    /// Lists the points accumulated so far.
    pub fn points(&self) -> (points: Vec<Point>)
        ensures
            points@ == self.spec_points(),
    {
        let mut points: Vec<Point> = Vec::new();
        match *self {
            BezierState::WaitingForStart => {},
            BezierState::WaitingForEnd { p0 } => {
                points.push(p0);
            },
            BezierState::WaitingForControl1 { p0, p3, control1 } => {
                points.push(p0);
                points.push(p3);
                points.push(control1);
            },
            BezierState::WaitingForControl2 { p0, p3, control1, control2 } => {
                points.push(p0);
                points.push(p3);
                points.push(control1);
                match control2 {
                    Some(c2) => {
                        points.push(c2);
                    },
                    None => {},
                }
            },
            BezierState::Editing { .. } => {},
        }
        assert(points@ =~= self.spec_points());
        points
    }

    /// Draws the construction under a zoom factor and a pan.
    pub fn render(&self, zoom: u32, pan: Offset) -> (commands: Vec<DrawCommand>)
        ensures
            models(commands@) == self.overlay(zoom, pan),
    {
        let red = Color::rgb(255, 0, 0);
        let blue = Color::rgb(0, 0, 255);
        let mut commands: Vec<DrawCommand> = Vec::new();
        match *self {
            BezierState::WaitingForStart => {},
            BezierState::WaitingForEnd { p0 } => {
                commands.push(handle_command(p0, red, zoom, pan));
            },
            BezierState::WaitingForControl1 { p0, p3, control1 } => {
                commands.push(guide_command(p0, control1, zoom, pan));
                commands.push(handle_command(p0, red, zoom, pan));
                commands.push(handle_command(p3, red, zoom, pan));
                commands.push(handle_command(control1, blue, zoom, pan));
            },
            BezierState::WaitingForControl2 { p0, p3, control1, control2 } => {
                commands.push(guide_command(p0, control1, zoom, pan));
                match control2 {
                    Some(c2) => {
                        commands.push(guide_command(p3, c2, zoom, pan));
                        let curve = BezierCurve { p0, p1: control1, p2: c2, p3 };
                        commands.push(preview_command(curve, zoom, pan));
                    },
                    None => {},
                }
                commands.push(handle_command(p0, red, zoom, pan));
                commands.push(handle_command(p3, red, zoom, pan));
                commands.push(handle_command(control1, blue, zoom, pan));
                match control2 {
                    Some(c2) => {
                        commands.push(handle_command(c2, blue, zoom, pan));
                    },
                    None => {},
                }
            },
            BezierState::Editing { .. } => {},
        }
        assert(models(commands@) =~= self.overlay(zoom, pan));
        commands
    }
}

} // verus!
