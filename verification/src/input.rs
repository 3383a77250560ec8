//! Pointer input: what one frame of pointer activity does to the canvas.

use vstd::prelude::*;
use crate::canvas::{Canvas, CanvasModel};
use crate::geometry::{screen_to_canvas, Offset, Point};
use crate::paint::Color;
use crate::shapes::Tool;

verus! {

/// What the pointer did over the drawing surface during one frame. Positions
/// are in screen space.
#[derive(Clone, Copy, Debug, PartialEq, Eq)]
pub struct PointerFrame {
    /// The pan gesture is held.
    pub panning: bool,
    /// Where the pointer hovers, if it is over the surface.
    pub hover: Option<Point>,
    /// Where the pointer pressed, dragged or released, if it did.
    pub pointer: Option<Point>,
    /// The surface was clicked.
    pub clicked: bool,
    /// A drag began.
    pub drag_started: bool,
    /// A drag is under way.
    pub dragged: bool,
    /// A drag ended.
    pub drag_stopped: bool,
}

impl PointerFrame {
    /// Whether the frame moves the view instead of drawing: the pan gesture
    /// is held during a drag.
    pub open spec fn pans_view(self) -> bool {
        self.panning && self.dragged
    }
}

impl CanvasModel {
    /// The canvas after a frame with the Bézier tool: the control point
    /// follows the hovering pointer, then a click counts.
    pub open spec fn bezier_frame(
        self,
        frame: PointerFrame,
        zoom: u32,
        pan: Offset,
        color: Color,
        width: u32,
    ) -> CanvasModel {
        let hovered = match frame.hover {
            Some(at) => self.update_bezier_hover(screen_to_canvas(at, zoom, pan)),
            None => self,
        };
        match frame.pointer {
            Some(at) => if frame.clicked {
                hovered.start_shape(Tool::Bezier, screen_to_canvas(at, zoom, pan), color, width)
            } else {
                hovered
            },
            None => hovered,
        }
    }

    /// The canvas after a frame with a dragging tool: the start of a drag
    /// starts a shape, the drag extends it, the end of the drag commits it.
    pub open spec fn drag_frame(
        self,
        tool: Tool,
        frame: PointerFrame,
        zoom: u32,
        pan: Offset,
        color: Color,
        width: u32,
    ) -> CanvasModel {
        let started = match frame.pointer {
            Some(at) => if frame.drag_started {
                self.start_shape(tool, screen_to_canvas(at, zoom, pan), color, width)
            } else {
                self
            },
            None => self,
        };
        let extended = match frame.pointer {
            Some(at) => if frame.dragged {
                started.update_current_shape(screen_to_canvas(at, zoom, pan))
            } else {
                started
            },
            None => started,
        };
        if frame.drag_stopped {
            extended.finish_shape()
        } else {
            extended
        }
    }

    /// The canvas after one frame of pointer activity. While the pan gesture
    /// is held the canvas stays as it is. Otherwise the Bézier tool takes
    /// hovering and clicks, and every other tool takes drags.
    pub open spec fn pointer_frame(
        self,
        tool: Tool,
        frame: PointerFrame,
        zoom: u32,
        pan: Offset,
        color: Color,
        width: u32,
    ) -> CanvasModel {
        if frame.panning {
            self
        } else if tool == Tool::Bezier {
            self.bezier_frame(frame, zoom, pan, color, width)
        } else {
            self.drag_frame(tool, frame, zoom, pan, color, width)
        }
    }
}

impl Canvas {
    /// Applies one frame of pointer activity under the given zoom factor and
    /// pan, with the selected tool, color and stroke width. Returns whether
    /// the frame pans the view, in which case the caller moves the pan by the
    /// distance dragged.
    pub fn pointer_frame(
        &mut self,
        tool: Tool,
        frame: PointerFrame,
        zoom: u32,
        pan: Offset,
        color: Color,
        width: u32,
    ) -> (pans: bool)
        requires
            zoom > 0,
        ensures
            final(self)@ == old(self)@.pointer_frame(tool, frame, zoom, pan, color, width),
            pans == frame.pans_view(),
    {
        if frame.panning {
            return frame.dragged;
        }
        match tool {
            Tool::Bezier => {
                match frame.hover {
                    Some(at) => {
                        self.update_bezier_hover(screen_to_canvas(at, zoom, pan));
                    },
                    None => {},
                }
                if frame.clicked {
                    match frame.pointer {
                        Some(at) => {
                            self.start_shape(tool, screen_to_canvas(at, zoom, pan), color, width);
                        },
                        None => {},
                    }
                }
            },
            _ => {
                match frame.pointer {
                    Some(at) => {
                        let pos = screen_to_canvas(at, zoom, pan);
                        if frame.drag_started {
                            self.start_shape(tool, pos, color, width);
                        }
                        if frame.dragged {
                            self.update_current_shape(pos);
                        }
                    },
                    None => {},
                }
                if frame.drag_stopped {
                    self.finish_shape();
                }
            },
        }
        false
    }
}

} // verus!
