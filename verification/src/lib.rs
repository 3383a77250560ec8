//! The core of a vector drawing editor: shapes on a canvas that can be panned
//! and zoomed, a four-click construction of Bézier curves, undo and redo by
//! snapshots, and a render pass that projects everything to draw commands in
//! screen space.
//!
//! All geometry is fixed-point. A coordinate counts sixty-fourths of a pixel
//! and a zoom factor counts thousandths, so every operation is exact integer
//! arithmetic with stated rounding, and every contract is proved.

pub mod bezier;
pub mod canvas;
pub mod construction;
pub mod geometry;
pub mod input;
pub mod paint;
pub mod shapes;

pub use bezier::BezierCurve;
pub use canvas::Canvas;
pub use construction::BezierState;
pub use geometry::{Offset, Point};
pub use input::PointerFrame;
pub use paint::{Color, DrawCommand, Stroke};
pub use shapes::{Geometry, Shape, Tool};
