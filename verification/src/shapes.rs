//! Tools and the shapes they draw.

use vstd::prelude::*;
use crate::bezier::{BezierCurve, CURVE_SEGMENTS};
use crate::geometry::{
    canvas_to_screen, distance, greatest_corner, least_corner, project, scale_length, spec_project,
    Offset, Point,
};
use crate::paint::{models, Color, DrawCommand, DrawModel, Stroke};

verus! {

/// The active drawing mode.
#[derive(Clone, Copy, Debug, PartialEq, Eq, Structural)]
pub enum Tool {
    Pen,
    Rectangle,
    Circle,
    Select,
    Bezier,
}

impl Tool {
    /// The glyph that stands for the tool in a list of shapes.
    pub open spec fn glyph(self) -> Seq<char> {
        match self {
            Tool::Pen => "✏"@,
            Tool::Rectangle => "▭"@,
            Tool::Circle => "○"@,
            Tool::Select => "➤"@,
            Tool::Bezier => "➤"@,
        }
    }
}

/// What a shape is made of, by tool.
#[derive(Debug, PartialEq, Eq)]
pub enum Geometry {
    /// A freehand stroke through the points, in the order they were added.
    Pen { points: Vec<Point> },
    /// The upright rectangle spanned by `start` and `end`.
    Rectangle { start: Point, end: Point },
    /// The circle around `start` that passes through `end`.
    Circle { start: Point, end: Point },
    /// Nothing to draw.
    Select,
    /// A finished curve.
    Bezier { curve: BezierCurve },
}

/// The mathematical value of a `Geometry`.
#[verifier::ext_equal]
pub enum GeometryModel {
    Pen { points: Seq<Point> },
    Rectangle { start: Point, end: Point },
    Circle { start: Point, end: Point },
    Select,
    Bezier { curve: BezierCurve },
}

impl View for Geometry {
    type V = GeometryModel;

    open spec fn view(&self) -> GeometryModel {
        match *self {
            Geometry::Pen { points } => GeometryModel::Pen { points: points@ },
            Geometry::Rectangle { start, end } => GeometryModel::Rectangle { start, end },
            Geometry::Circle { start, end } => GeometryModel::Circle { start, end },
            Geometry::Select => GeometryModel::Select,
            Geometry::Bezier { curve } => GeometryModel::Bezier { curve },
        }
    }
}

impl Clone for Geometry {
    fn clone(&self) -> (copy: Self)
        ensures
            copy@ == self@,
    {
        match self {
            Geometry::Pen { points } => Geometry::Pen { points: points.clone() },
            Geometry::Rectangle { start, end } => Geometry::Rectangle { start: *start, end: *end },
            Geometry::Circle { start, end } => Geometry::Circle { start: *start, end: *end },
            Geometry::Select => Geometry::Select,
            Geometry::Bezier { curve } => Geometry::Bezier { curve: *curve },
        }
    }
}

/// One drawn object: its geometry, and the stroke color and width it was
/// created with.
#[derive(Debug, PartialEq, Eq)]
pub struct Shape {
    geometry: Geometry,
    color: Color,
    stroke_width: u32,
}

/// The mathematical value of a `Shape`.
#[verifier::ext_equal]
pub struct ShapeModel {
    pub geometry: GeometryModel,
    pub color: Color,
    pub stroke_width: u32,
}

impl ShapeModel {
    /// The shape that a tool starts at `pos`.
    pub open spec fn fresh(tool: Tool, pos: Point, color: Color, width: u32) -> ShapeModel {
        let geometry = match tool {
            Tool::Pen => GeometryModel::Pen { points: seq![pos] },
            Tool::Rectangle => GeometryModel::Rectangle { start: pos, end: pos },
            Tool::Circle => GeometryModel::Circle { start: pos, end: pos },
            Tool::Select => GeometryModel::Select,
            Tool::Bezier => GeometryModel::Bezier {
                curve: BezierCurve { p0: pos, p1: pos, p2: pos, p3: pos },
            },
        };
        ShapeModel { geometry, color, stroke_width: width }
    }

    /// The shape that holds a finished curve.
    pub open spec fn of_curve(curve: BezierCurve, color: Color, width: u32) -> ShapeModel {
        ShapeModel { geometry: GeometryModel::Bezier { curve }, color, stroke_width: width }
    }

    /// The tool that drew the shape.
    pub open spec fn tool(self) -> Tool {
        match self.geometry {
            GeometryModel::Pen { .. } => Tool::Pen,
            GeometryModel::Rectangle { .. } => Tool::Rectangle,
            GeometryModel::Circle { .. } => Tool::Circle,
            GeometryModel::Select => Tool::Select,
            GeometryModel::Bezier { .. } => Tool::Bezier,
        }
    }

    /// The shape after the pointer moved to `pos`: a pen stroke gains the
    /// point, a rectangle or circle moves its end there, the others stay.
    pub open spec fn updated(self, pos: Point) -> ShapeModel {
        let geometry = match self.geometry {
            GeometryModel::Pen { points } => GeometryModel::Pen { points: points.push(pos) },
            GeometryModel::Rectangle { start, end } => GeometryModel::Rectangle { start, end: pos },
            GeometryModel::Circle { start, end } => GeometryModel::Circle { start, end: pos },
            GeometryModel::Select => GeometryModel::Select,
            GeometryModel::Bezier { curve } => GeometryModel::Bezier { curve },
        };
        ShapeModel { geometry, color: self.color, stroke_width: self.stroke_width }
    }

    /// The outline of the shape on screen: its color, and its width times the
    /// zoom factor.
    pub open spec fn stroke(self, zoom: u32) -> Stroke {
        Stroke { width: scale_length(self.stroke_width as u64, zoom), color: self.color }
    }

    /// The draw commands of the shape under a zoom factor and a pan: none or
    /// one. A pen stroke is a polyline once it has two points. A rectangle is
    /// the upright rectangle spanned by its two corners on screen. A circle
    /// lies around its start, with the distance from start to end, times the
    /// zoom factor, as its radius. A curve is the polyline through its
    /// samples.
    pub open spec fn render(self, zoom: u32, pan: Offset) -> Seq<DrawModel> {
        let stroke = self.stroke(zoom);
        match self.geometry {
            GeometryModel::Pen { points } => if points.len() > 1 {
                seq![DrawModel::Polyline { points: spec_project(points, zoom, pan), stroke }]
            } else {
                seq![]
            },
            GeometryModel::Rectangle { start, end } => {
                let a = canvas_to_screen(start, zoom, pan);
                let b = canvas_to_screen(end, zoom, pan);
                seq![
                    DrawModel::StrokedRect {
                        min: least_corner(a, b),
                        max: greatest_corner(a, b),
                        stroke,
                    },
                ]
            },
            GeometryModel::Circle { start, end } => seq![
                DrawModel::StrokedCircle {
                    center: canvas_to_screen(start, zoom, pan),
                    radius: scale_length(distance(start, end), zoom),
                    stroke,
                },
            ],
            GeometryModel::Select => seq![],
            GeometryModel::Bezier { curve } => seq![
                DrawModel::Polyline {
                    points: spec_project(curve.spec_polyline(CURVE_SEGMENTS), zoom, pan),
                    stroke,
                },
            ],
        }
    }
}

impl View for Shape {
    type V = ShapeModel;

    closed spec fn view(&self) -> ShapeModel {
        ShapeModel {
            geometry: self.geometry@,
            color: self.color,
            stroke_width: self.stroke_width,
        }
    }
}

impl Clone for Shape {
    fn clone(&self) -> (copy: Self)
        ensures
            copy@ == self@,
    {
        Shape {
            geometry: self.geometry.clone(),
            color: self.color,
            stroke_width: self.stroke_width,
        }
    }
}

impl Shape {
    /// Starts a shape with the given tool, anchored at `pos`.
    ///
    /// A curve started this way has all four control points at `pos`.
    pub fn new(tool: Tool, pos: Point, color: Color, width: u32) -> (shape: Shape)
        ensures
            shape@ == ShapeModel::fresh(tool, pos, color, width),
    {
        let geometry = match tool {
            Tool::Pen => {
                let mut points: Vec<Point> = Vec::new();
                points.push(pos);
                assert(points@ =~= seq![pos]);
                Geometry::Pen { points }
            },
            Tool::Rectangle => Geometry::Rectangle { start: pos, end: pos },
            Tool::Circle => Geometry::Circle { start: pos, end: pos },
            Tool::Select => Geometry::Select,
            Tool::Bezier => Geometry::Bezier {
                curve: BezierCurve { p0: pos, p1: pos, p2: pos, p3: pos },
            },
        };
        Shape { geometry, color, stroke_width: width }
    }

    /// Wraps a finished curve as a shape.
    pub fn from_curve(curve: BezierCurve, color: Color, width: u32) -> (shape: Shape)
        ensures
            shape@ == ShapeModel::of_curve(curve, color, width),
    {
        Shape { geometry: Geometry::Bezier { curve }, color, stroke_width: width }
    }

    /// Extends the shape to the pointer position `pos`.
    pub fn update(&mut self, pos: Point)
        ensures
            final(self)@ == old(self)@.updated(pos),
    {
        match &mut self.geometry {
            Geometry::Pen { points } => {
                points.push(pos);
            },
            Geometry::Rectangle { start: _, end } => {
                *end = pos;
            },
            Geometry::Circle { start: _, end } => {
                *end = pos;
            },
            Geometry::Select => {},
            Geometry::Bezier { curve: _ } => {},
        }
    }

    /// The tool that drew the shape.
    pub fn tool(&self) -> (tool: Tool)
        ensures
            tool == self@.tool(),
    {
        match &self.geometry {
            Geometry::Pen { .. } => Tool::Pen,
            Geometry::Rectangle { .. } => Tool::Rectangle,
            Geometry::Circle { .. } => Tool::Circle,
            Geometry::Select => Tool::Select,
            Geometry::Bezier { .. } => Tool::Bezier,
        }
    }

    /// What the shape is made of.
    pub fn geometry(&self) -> (geometry: &Geometry)
        ensures
            geometry@ == self@.geometry,
    {
        &self.geometry
    }

    /// The stroke color the shape was created with.
    pub fn color(&self) -> (color: Color)
        ensures
            color == self@.color,
    {
        self.color
    }

    /// The stroke width the shape was created with.
    pub fn stroke_width(&self) -> (width: u32)
        ensures
            width == self@.stroke_width,
    {
        self.stroke_width
    }

    /// The glyph of the tool that drew the shape.
    pub fn icon(&self) -> (glyph: &'static str)
        ensures
            glyph@ == self@.tool().glyph(),
    {
        match &self.geometry {
            Geometry::Pen { .. } => "✏",
            Geometry::Rectangle { .. } => "▭",
            Geometry::Circle { .. } => "○",
            Geometry::Select => "➤",
            Geometry::Bezier { .. } => "➤",
        }
    }

    /// Projects the shape to the screen: every position goes through
    /// `canvas_to_screen`, the stroke width is scaled by the zoom factor, and
    /// a curve is flattened to a polyline of `CURVE_SEGMENTS` segments.
    pub fn render(&self, zoom: u32, pan: Offset) -> (commands: Vec<DrawCommand>)
        ensures
            models(commands@) == self@.render(zoom, pan),
    {
        let stroke = Stroke {
            width: scale_length(self.stroke_width as u64, zoom),
            color: self.color,
        };
        let mut commands: Vec<DrawCommand> = Vec::new();
        match &self.geometry {
            Geometry::Pen { points } => {
                if points.len() > 1 {
                    let screen = project(points, zoom, pan);
                    commands.push(DrawCommand::Polyline { points: screen, stroke });
                }
            },
            Geometry::Rectangle { start, end } => {
                let a = canvas_to_screen(*start, zoom, pan);
                let b = canvas_to_screen(*end, zoom, pan);
                commands.push(
                    DrawCommand::StrokedRect {
                        min: least_corner(a, b),
                        max: greatest_corner(a, b),
                        stroke,
                    },
                );
            },
            Geometry::Circle { start, end } => {
                commands.push(
                    DrawCommand::StrokedCircle {
                        center: canvas_to_screen(*start, zoom, pan),
                        radius: scale_length(distance(*start, *end), zoom),
                        stroke,
                    },
                );
            },
            Geometry::Select => {},
            Geometry::Bezier { curve } => {
                let flat = curve.polyline(CURVE_SEGMENTS);
                commands.push(DrawCommand::Polyline { points: project(&flat, zoom, pan), stroke });
            },
        }
        assert(models(commands@) =~= self@.render(zoom, pan));
        commands
    }
}

} // verus!
