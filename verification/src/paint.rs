//! What a render pass hands to the drawing surface: colors, strokes and draw
//! commands in screen space.

use vstd::prelude::*;
use crate::geometry::Point;

verus! {

/// A color with red, green, blue and alpha channels.
#[derive(Clone, Copy, Debug, PartialEq, Eq, Structural)]
pub struct Color {
    pub r: u8,
    pub g: u8,
    pub b: u8,
    pub a: u8,
}

impl Color {
    pub open spec fn spec_rgb(r: u8, g: u8, b: u8) -> Color {
        Color { r, g, b, a: 255 }
    }

    /// The opaque color with the given channels.
    #[verifier::when_used_as_spec(spec_rgb)]
    pub fn rgb(r: u8, g: u8, b: u8) -> (c: Color)
        ensures
            c == Color::spec_rgb(r, g, b),
    {
        Color { r, g, b, a: 255 }
    }
}

/// The width and color of an outline, in screen space.
#[derive(Clone, Copy, Debug, PartialEq, Eq, Structural)]
pub struct Stroke {
    pub width: u32,
    pub color: Color,
}

/// One drawing primitive in screen space.
#[derive(Debug, PartialEq, Eq)]
pub enum DrawCommand {
    /// Straight segments through the points, in order.
    Polyline { points: Vec<Point>, stroke: Stroke },
    /// The outline of the upright rectangle between the corner with the least
    /// coordinates and the corner with the greatest.
    StrokedRect { min: Point, max: Point, stroke: Stroke },
    /// The outline of a circle.
    StrokedCircle { center: Point, radius: u32, stroke: Stroke },
    /// A disc.
    FilledCircle { center: Point, radius: u32, color: Color },
    /// One straight segment.
    LineSegment { from: Point, to: Point, stroke: Stroke },
}

/// The mathematical value of a `DrawCommand`.
#[verifier::ext_equal]
pub enum DrawModel {
    Polyline { points: Seq<Point>, stroke: Stroke },
    StrokedRect { min: Point, max: Point, stroke: Stroke },
    StrokedCircle { center: Point, radius: u32, stroke: Stroke },
    FilledCircle { center: Point, radius: u32, color: Color },
    LineSegment { from: Point, to: Point, stroke: Stroke },
}

impl View for DrawCommand {
    type V = DrawModel;

    open spec fn view(&self) -> DrawModel {
        match *self {
            DrawCommand::Polyline { points, stroke } => DrawModel::Polyline {
                points: points@,
                stroke,
            },
            DrawCommand::StrokedRect { min, max, stroke } => DrawModel::StrokedRect {
                min,
                max,
                stroke,
            },
            DrawCommand::StrokedCircle { center, radius, stroke } => DrawModel::StrokedCircle {
                center,
                radius,
                stroke,
            },
            DrawCommand::FilledCircle { center, radius, color } => DrawModel::FilledCircle {
                center,
                radius,
                color,
            },
            DrawCommand::LineSegment { from, to, stroke } => DrawModel::LineSegment {
                from,
                to,
                stroke,
            },
        }
    }
}

impl Clone for DrawCommand {
    fn clone(&self) -> (copy: Self)
        ensures
            copy@ == self@,
    {
        match self {
            DrawCommand::Polyline { points, stroke } => DrawCommand::Polyline {
                points: points.clone(),
                stroke: *stroke,
            },
            DrawCommand::StrokedRect { min, max, stroke } => DrawCommand::StrokedRect {
                min: *min,
                max: *max,
                stroke: *stroke,
            },
            DrawCommand::StrokedCircle { center, radius, stroke } => DrawCommand::StrokedCircle {
                center: *center,
                radius: *radius,
                stroke: *stroke,
            },
            DrawCommand::FilledCircle { center, radius, color } => DrawCommand::FilledCircle {
                center: *center,
                radius: *radius,
                color: *color,
            },
            DrawCommand::LineSegment { from, to, stroke } => DrawCommand::LineSegment {
                from: *from,
                to: *to,
                stroke: *stroke,
            },
        }
    }
}

/// The mathematical value of a list of draw commands.
pub open spec fn models(commands: Seq<DrawCommand>) -> Seq<DrawModel> {
    commands.map_values(|c: DrawCommand| c@)
}

/// Moves every command of `more` to the end of `commands`, in order.
pub fn append_commands(commands: &mut Vec<DrawCommand>, more: Vec<DrawCommand>)
    ensures
        models(final(commands)@) == models(old(commands)@) + models(more@),
{
    let mut more = more;
    let ghost before = commands@;
    let ghost added = more@;
    commands.append(&mut more);
    assert(models(commands@) =~= models(before) + models(added));
}

} // verus!
