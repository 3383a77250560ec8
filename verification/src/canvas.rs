//! The canvas: the committed shapes, the shape or curve in progress, and the
//! snapshots that undo and redo move between.

use vstd::prelude::*;
use crate::bezier::BezierCurve;
use crate::construction::BezierState;
use crate::geometry::{Offset, Point};
use crate::paint::{append_commands, models, Color, DrawCommand, DrawModel};
use crate::shapes::{Shape, ShapeModel, Tool};

verus! {

/// The drawing surface of the editor. What it holds is described by its view,
/// a `CanvasModel`.
pub struct Canvas {
    shapes: Vec<Shape>,
    current_shape: Option<Shape>,
    bezier: BezierState,
    history: Vec<Vec<Shape>>,
    undo_history: Vec<Vec<Shape>>,
}

/// The mathematical value of a `Canvas`.
#[verifier::ext_equal]
pub struct CanvasModel {
    /// The committed shapes in z-order, later ones on top.
    pub shapes: Seq<ShapeModel>,
    /// The shape in progress, between `start_shape` and `finish_shape`.
    pub current_shape: Option<ShapeModel>,
    /// Where the construction of a curve stands.
    pub bezier: BezierState,
    /// The snapshots of `shapes` that `undo` returns to, the latest last.
    pub history: Seq<Seq<ShapeModel>>,
    /// The snapshots of `shapes` that `redo` returns to, the latest last.
    pub undo_history: Seq<Seq<ShapeModel>>,
}

/// The mathematical value of a list of shapes.
pub open spec fn shape_models(shapes: Seq<Shape>) -> Seq<ShapeModel> {
    shapes.map_values(|s: Shape| s@)
}

/// The mathematical value of a stack of snapshots.
pub open spec fn snapshot_models(stack: Seq<Vec<Shape>>) -> Seq<Seq<ShapeModel>> {
    stack.map_values(|snapshot: Vec<Shape>| shape_models(snapshot@))
}

/// The draw commands of a list of shapes, first shape first.
pub open spec fn render_shapes(shapes: Seq<ShapeModel>, zoom: u32, pan: Offset) -> Seq<DrawModel>
    decreases shapes.len(),
{
    if shapes.len() == 0 {
        seq![]
    } else {
        render_shapes(shapes.drop_last(), zoom, pan) + shapes.last().render(zoom, pan)
    }
}

/// The draw commands of the shape in progress, if there is one.
pub open spec fn render_current(current: Option<ShapeModel>, zoom: u32, pan: Offset) -> Seq<
    DrawModel,
> {
    match current {
        Some(shape) => shape.render(zoom, pan),
        None => seq![],
    }
}

impl CanvasModel {
    /// The canvas on which nothing has happened yet.
    pub open spec fn empty() -> CanvasModel {
        CanvasModel {
            shapes: seq![],
            current_shape: None,
            bezier: BezierState::WaitingForStart,
            history: seq![],
            undo_history: seq![],
        }
    }

    /// The shapes after a click of the Bézier tool: one more where the click
    /// finished a curve.
    pub open spec fn shapes_after_click(self, pos: Point, color: Color, width: u32) -> Seq<
        ShapeModel,
    > {
        match self.bezier.finished_by_click(pos) {
            Some(curve) => self.shapes.push(ShapeModel::of_curve(curve, color, width)),
            None => self.shapes,
        }
    }

    /// The canvas after an interaction began at `pos`. With the Bézier tool
    /// this is one click of the curve construction, which commits the curve
    /// that it finishes at once and takes no snapshot. With any other tool a
    /// new shape in progress takes the place of the previous one.
    pub open spec fn start_shape(
        self,
        tool: Tool,
        pos: Point,
        color: Color,
        width: u32,
    ) -> CanvasModel {
        if tool == Tool::Bezier {
            CanvasModel {
                shapes: self.shapes_after_click(pos, color, width),
                bezier: self.bezier.after_click(pos),
                ..self
            }
        } else {
            CanvasModel {
                current_shape: Some(ShapeModel::fresh(tool, pos, color, width)),
                ..self
            }
        }
    }

    /// The canvas after the shape in progress, if there is one, was extended
    /// to `pos`.
    pub open spec fn update_current_shape(self, pos: Point) -> CanvasModel {
        match self.current_shape {
            Some(shape) => CanvasModel { current_shape: Some(shape.updated(pos)), ..self },
            None => self,
        }
    }

    /// The canvas after the pointer moved to `pos` without a click.
    pub open spec fn update_bezier_hover(self, pos: Point) -> CanvasModel {
        CanvasModel { bezier: self.bezier.after_hover(pos), ..self }
    }

    /// The canvas after the shape in progress, if there is one, was
    /// committed: the shapes as they were go onto `history`, then the shape
    /// joins them.
    pub open spec fn finish_shape(self) -> CanvasModel {
        match self.current_shape {
            Some(shape) => CanvasModel {
                shapes: self.shapes.push(shape),
                current_shape: None,
                history: self.history.push(self.shapes),
                ..self
            },
            None => self,
        }
    }

    /// The canvas after it was cleared: the shapes as they were go onto
    /// `history`, and no shape, shape in progress or curve construction is
    /// left. The redo stack stays.
    pub open spec fn clear(self) -> CanvasModel {
        CanvasModel {
            shapes: seq![],
            current_shape: None,
            bezier: BezierState::WaitingForStart,
            history: self.history.push(self.shapes),
            undo_history: self.undo_history,
        }
    }

    /// The canvas after one undo: the latest snapshot of `history` becomes
    /// the shapes, and the shapes as they were go onto `undo_history`. With
    /// an empty `history` nothing changes.
    pub open spec fn undo(self) -> CanvasModel {
        if self.history.len() > 0 {
            CanvasModel {
                shapes: self.history.last(),
                history: self.history.drop_last(),
                undo_history: self.undo_history.push(self.shapes),
                ..self
            }
        } else {
            self
        }
    }

    /// The canvas after one redo: the latest snapshot of `undo_history`
    /// becomes the shapes, and the shapes as they were go onto `history`.
    /// With an empty `undo_history` nothing changes.
    pub open spec fn redo(self) -> CanvasModel {
        if self.undo_history.len() > 0 {
            CanvasModel {
                shapes: self.undo_history.last(),
                history: self.history.push(self.shapes),
                undo_history: self.undo_history.drop_last(),
                ..self
            }
        } else {
            self
        }
    }

    /// Whether the curve construction has left its initial state.
    pub open spec fn is_bezier_active(self) -> bool {
        self.bezier.is_active()
    }

    /// Everything that is drawn: the committed shapes in order, the shape in
    /// progress, then the curve under construction.
    pub open spec fn render(self, zoom: u32, pan: Offset) -> Seq<DrawModel> {
        render_shapes(self.shapes, zoom, pan) + render_current(self.current_shape, zoom, pan)
            + self.bezier.overlay(zoom, pan)
    }
}

/// Copies a list of shapes.
pub fn clone_shapes(shapes: &Vec<Shape>) -> (copy: Vec<Shape>)
    ensures
        shape_models(copy@) == shape_models(shapes@),
{
    let mut copy: Vec<Shape> = Vec::new();
    let mut i: usize = 0;
    while i < shapes.len()
        invariant
            i <= shapes.len(),
            shape_models(copy@) == shape_models(shapes@.take(i as int)),
        decreases shapes.len() - i,
    {
        let ghost before = copy@;
        let shape = shapes[i].clone();
        copy.push(shape);
        proof {
            let done = shapes@.take(i as int);
            let next = shapes@.take(i + 1);
            assert(next =~= done.push(shapes@[i as int]));
            assert(shape_models(copy@) =~= shape_models(before).push(shape@));
            assert(shape_models(next) =~= shape_models(done).push(shapes@[i as int]@));
        }
        i = i + 1;
    }
    assert(shapes@.take(i as int) =~= shapes@);
    copy
}

impl View for Canvas {
    type V = CanvasModel;

    closed spec fn view(&self) -> CanvasModel {
        CanvasModel {
            shapes: shape_models(self.shapes@),
            current_shape: match self.current_shape {
                Some(shape) => Some(shape@),
                None => None,
            },
            bezier: self.bezier,
            history: snapshot_models(self.history@),
            undo_history: snapshot_models(self.undo_history@),
        }
    }
}

impl Default for Canvas {
    fn default() -> (canvas: Canvas)
        ensures
            canvas@ == CanvasModel::empty(),
    {
        Canvas::new()
    }
}

impl Canvas {
    /// An empty canvas.
    pub fn new() -> (canvas: Canvas)
        ensures
            canvas@ == CanvasModel::empty(),
    {
        let canvas = Canvas {
            shapes: Vec::new(),
            current_shape: None,
            bezier: BezierState::WaitingForStart,
            history: Vec::new(),
            undo_history: Vec::new(),
        };
        assert(canvas@ =~~= CanvasModel::empty());
        canvas
    }

    /// Begins an interaction at the canvas position `pos`.
    ///
    /// With the Bézier tool this is one click of the curve construction; the
    /// fourth click commits the finished curve at once, with the color and
    /// width of that click and without a snapshot. With any other tool it
    /// starts a shape in progress, in place of the one that was in progress
    /// before.
    pub fn start_shape(&mut self, tool: Tool, pos: Point, color: Color, width: u32)
        ensures
            final(self)@ == old(self)@.start_shape(tool, pos, color, width),
    {
        match tool {
            Tool::Bezier => {
                let (next, finished) = self.bezier.click(pos);
                self.bezier = next;
                match finished {
                    Some(curve) => {
                        self.shapes.push(Shape::from_curve(curve, color, width));
                    },
                    None => {},
                }
            },
            _ => {
                self.current_shape = Some(Shape::new(tool, pos, color, width));
            },
        }
        assert(self@ =~~= old(self)@.start_shape(tool, pos, color, width));
    }

    /// Extends the shape in progress to `pos`. Without one, nothing happens.
    pub fn update_current_shape(&mut self, pos: Point)
        ensures
            final(self)@ == old(self)@.update_current_shape(pos),
    {
        match &mut self.current_shape {
            Some(shape) => {
                shape.update(pos);
            },
            None => {},
        }
    }

    /// Lets the control point that the next click will fix follow the pointer.
    pub fn update_bezier_hover(&mut self, pos: Point)
        ensures
            final(self)@ == old(self)@.update_bezier_hover(pos),
    {
        self.bezier = self.bezier.hover(pos);
    }

    /// Commits the shape in progress: the shapes as they were go onto
    /// `history`, then the shape joins them. Without a shape in progress,
    /// nothing happens.
    pub fn finish_shape(&mut self)
        ensures
            final(self)@ == old(self)@.finish_shape(),
    {
        match self.current_shape.take() {
            Some(shape) => {
                let snapshot = clone_shapes(&self.shapes);
                self.history.push(snapshot);
                self.shapes.push(shape);
            },
            None => {},
        }
        assert(self@ =~~= old(self)@.finish_shape());
    }

    /// Removes every shape: the shapes as they were go onto `history`, the
    /// shape in progress is dropped, and the curve construction starts over.
    pub fn clear(&mut self)
        ensures
            final(self)@ == old(self)@.clear(),
    {
        let snapshot = clone_shapes(&self.shapes);
        self.history.push(snapshot);
        self.shapes.clear();
        self.current_shape = None;
        self.bezier = BezierState::WaitingForStart;
        assert(self@ =~~= old(self)@.clear());
    }

    /// Returns to the latest snapshot on `history`; the shapes as they were go
    /// onto `undo_history`. With an empty `history`, nothing happens.
    pub fn undo(&mut self)
        ensures
            final(self)@ == old(self)@.undo(),
    {
        match self.history.pop() {
            Some(previous) => {
                let snapshot = clone_shapes(&self.shapes);
                self.undo_history.push(snapshot);
                self.shapes = previous;
            },
            None => {},
        }
        assert(self@ =~~= old(self)@.undo());
    }

    /// Returns to the latest snapshot on `undo_history`; the shapes as they
    /// were go onto `history`. With an empty `undo_history`, nothing happens.
    pub fn redo(&mut self)
        ensures
            final(self)@ == old(self)@.redo(),
    {
        match self.undo_history.pop() {
            Some(next) => {
                let snapshot = clone_shapes(&self.shapes);
                self.history.push(snapshot);
                self.shapes = next;
            },
            None => {},
        }
        assert(self@ =~~= old(self)@.redo());
    }

    /// Whether a curve construction has begun and not yet ended.
    pub fn is_bezier_active(&self) -> (active: bool)
        ensures
            active == self@.is_bezier_active(),
    {
        self.bezier.is_active()
    }

    /// The committed shapes, in z-order.
    pub fn shapes(&self) -> (shapes: &Vec<Shape>)
        ensures
            shape_models(shapes@) == self@.shapes,
    {
        &self.shapes
    }

    /// The snapshots that `undo` returns to, the latest last.
    pub fn history(&self) -> (stack: &Vec<Vec<Shape>>)
        ensures
            snapshot_models(stack@) == self@.history,
    {
        &self.history
    }

    /// The snapshots that `redo` returns to, the latest last.
    pub fn undo_history(&self) -> (stack: &Vec<Vec<Shape>>)
        ensures
            snapshot_models(stack@) == self@.undo_history,
    {
        &self.undo_history
    }

    /// The shape in progress, if there is one.
    pub fn current_shape(&self) -> (current: Option<&Shape>)
        ensures
            match current {
                Some(shape) => self@.current_shape == Some(shape@),
                None => self@.current_shape is None,
            },
    {
        self.current_shape.as_ref()
    }

    /// The state of the curve construction.
    pub fn bezier_state(&self) -> (state: BezierState)
        ensures
            state == self@.bezier,
    {
        self.bezier
    }

    /// The points that the curve construction has accumulated.
    pub fn bezier_points(&self) -> (points: Vec<Point>)
        ensures
            points@ == self@.bezier.spec_points(),
    {
        self.bezier.points()
    }

    /// Projects the canvas to the screen: the committed shapes in order, then
    /// the shape in progress, then the curve under construction. The canvas
    /// itself does not change.
    pub fn render(&self, zoom: u32, pan: Offset) -> (commands: Vec<DrawCommand>)
        ensures
            models(commands@) == self@.render(zoom, pan),
    {
        let mut commands: Vec<DrawCommand> = Vec::new();
        let mut i: usize = 0;
        assert(models(commands@) =~= render_shapes(shape_models(self.shapes@.take(0)), zoom, pan));
        while i < self.shapes.len()
            invariant
                i <= self.shapes.len(),
                models(commands@) == render_shapes(
                    shape_models(self.shapes@.take(i as int)),
                    zoom,
                    pan,
                ),
            decreases self.shapes.len() - i,
        {
            let more = self.shapes[i].render(zoom, pan);
            append_commands(&mut commands, more);
            proof {
                let done = shape_models(self.shapes@.take(i as int));
                let next = shape_models(self.shapes@.take(i + 1));
                assert(next.drop_last() =~= done);
                assert(next.last() == self.shapes@[i as int]@);
            }
            i = i + 1;
        }
        assert(self.shapes@.take(i as int) =~= self.shapes@);
        match &self.current_shape {
            Some(shape) => {
                let more = shape.render(zoom, pan);
                append_commands(&mut commands, more);
            },
            None => {
                assert(models(commands@) + Seq::<DrawModel>::empty() =~= models(commands@));
            },
        }
        let overlay = self.bezier.render(zoom, pan);
        append_commands(&mut commands, overlay);
        commands
    }
}

/// A forward step of the editor: any call but `undo` and `redo`.
pub enum Step {
    StartShape { tool: Tool, pos: Point, color: Color, width: u32 },
    UpdateCurrentShape { pos: Point },
    UpdateBezierHover { pos: Point },
    FinishShape,
    Clear,
}

impl CanvasModel {
    /// The canvas after one forward step.
    pub open spec fn step(self, step: Step) -> CanvasModel {
        match step {
            Step::StartShape { tool, pos, color, width } => {
                self.start_shape(tool, pos, color, width)
            },
            Step::UpdateCurrentShape { pos } => self.update_current_shape(pos),
            Step::UpdateBezierHover { pos } => self.update_bezier_hover(pos),
            Step::FinishShape => self.finish_shape(),
            Step::Clear => self.clear(),
        }
    }

    /// The canvas after a sequence of forward steps, first step first.
    pub open spec fn run(self, steps: Seq<Step>) -> CanvasModel
        decreases steps.len(),
    {
        if steps.len() == 0 {
            self
        } else {
            self.run(steps.drop_last()).step(steps.last())
        }
    }

    /// The canvas after `n` calls of `undo`.
    pub open spec fn undo_times(self, n: nat) -> CanvasModel
        decreases n,
    {
        if n == 0 {
            self
        } else {
            self.undo_times((n - 1) as nat).undo()
        }
    }

    /// The canvas after the pointer moved through `path` without a click.
    pub open spec fn hover_along(self, path: Seq<Point>) -> CanvasModel
        decreases path.len(),
    {
        if path.len() == 0 {
            self
        } else {
            self.hover_along(path.drop_last()).update_bezier_hover(path.last())
        }
    }

    /// One click of the Bézier tool.
    pub open spec fn click(self, pos: Point, color: Color, width: u32) -> CanvasModel {
        self.start_shape(Tool::Bezier, pos, color, width)
    }

    /// Undo, then redo, is the identity: where there is something to undo,
    /// `undo` followed by `redo` restores the shapes, and with them both
    /// stacks and everything else.
    pub proof fn lemma_undo_redo(self)
        requires
            self.history.len() > 0,
        ensures
            self.undo().redo() == self,
    {
        let back = self.undo();
        assert(back.undo_history.drop_last() =~= self.undo_history);
        assert(back.history.push(back.shapes) =~= self.history);
        assert(self.undo().redo() =~~= self);
    }

    /// Redo, then undo, is the identity: where there is something to redo,
    /// `redo` followed by `undo` restores the canvas.
    pub proof fn lemma_redo_undo(self)
        requires
            self.undo_history.len() > 0,
        ensures
            self.redo().undo() == self,
    {
        let forth = self.redo();
        assert(forth.history.drop_last() =~= self.history);
        assert(forth.undo_history.push(forth.shapes) =~= self.undo_history);
        assert(self.redo().undo() =~~= self);
    }

    /// With nothing to undo, `undo` changes nothing, and with nothing to redo,
    /// neither does `redo`.
    pub proof fn lemma_exhausted(self)
        ensures
            self.history.len() == 0 ==> self.undo() == self,
            self.undo_history.len() == 0 ==> self.redo() == self,
    {
    }

    /// Forward steps never touch the redo stack.
    pub proof fn lemma_run_keeps_redo_stack(self, steps: Seq<Step>)
        ensures
            self.run(steps).undo_history == self.undo_history,
        decreases steps.len(),
    {
        if steps.len() > 0 {
            self.lemma_run_keeps_redo_stack(steps.drop_last());
        }
    }

    /// After any sequence of forward steps on an empty canvas, `undo`
    /// followed by `redo` restores the shapes exactly, and the rest of the
    /// canvas with them.
    pub proof fn lemma_undo_redo_after_steps(steps: Seq<Step>)
        ensures
            CanvasModel::empty().run(steps).undo().redo() == CanvasModel::empty().run(steps),
            CanvasModel::empty().run(steps).undo().redo().shapes == CanvasModel::empty().run(
                steps,
            ).shapes,
    {
        let canvas = CanvasModel::empty().run(steps);
        CanvasModel::empty().lemma_run_keeps_redo_stack(steps);
        if canvas.history.len() > 0 {
            canvas.lemma_undo_redo();
        }
    }

    /// `n` calls of `undo` take that many snapshots off `history`, as far as
    /// there are any.
    pub proof fn lemma_undo_times_history(self, n: nat)
        ensures
            self.undo_times(n).history.len() == if n <= self.history.len() {
                self.history.len() - n
            } else {
                0
            },
        decreases n,
    {
        if n > 0 {
            self.lemma_undo_times_history((n - 1) as nat);
        }
    }

    /// Undo beyond exhaustion: once `undo` has been called as often as there
    /// were snapshots, calling it again changes nothing.
    pub proof fn lemma_undo_beyond_exhaustion(self, n: nat)
        requires
            n >= self.history.len(),
        ensures
            self.undo_times(n + 1) == self.undo_times(n),
            self.undo_times(n) == self.undo_times(self.history.len()),
        decreases n,
    {
        self.lemma_undo_times_history(n);
        assert(self.undo_times(n + 1) == self.undo_times(n).undo());
        if n > self.history.len() {
            self.lemma_undo_beyond_exhaustion((n - 1) as nat);
        }
    }

    /// Commits take a snapshot that `undo` returns to: `finish_shape` with a
    /// shape in progress, and `clear`, put the shapes as they were on top of
    /// `history`, and `undo` right after restores them and `history` both.
    pub proof fn lemma_commit_undo(self)
        ensures
            self.current_shape is Some ==> self.finish_shape().history == self.history.push(
                self.shapes,
            ),
            self.current_shape is Some ==> self.finish_shape().undo().shapes == self.shapes,
            self.current_shape is Some ==> self.finish_shape().undo().history == self.history,
            self.clear().history == self.history.push(self.shapes),
            self.clear().undo().shapes == self.shapes,
            self.clear().undo().history == self.history,
    {
        assert(self.history.push(self.shapes).drop_last() =~= self.history);
    }

    /// The committed shapes are append-only: a forward step other than
    /// `clear` keeps every shape where it is and adds at most one at the end.
    pub proof fn lemma_append_only(self, step: Step)
        requires
            !(step is Clear),
        ensures
            self.step(step).shapes == self.shapes || (exists|shape: ShapeModel|
                self.step(step).shapes == self.shapes.push(shape)),
    {
        match step {
            Step::StartShape { tool, pos, color, width } => {
                if tool == Tool::Bezier {
                    match self.bezier.finished_by_click(pos) {
                        Some(curve) => {
                            assert(self.step(step).shapes == self.shapes.push(
                                ShapeModel::of_curve(curve, color, width),
                            ));
                        },
                        None => {},
                    }
                }
            },
            Step::FinishShape => {
                match self.current_shape {
                    Some(shape) => {
                        assert(self.step(step).shapes == self.shapes.push(shape));
                    },
                    None => {},
                }
            },
            _ => {},
        }
    }

    /// Without a shape in progress, `finish_shape` and `update_current_shape`
    /// change nothing: no shape is added and no snapshot is taken.
    pub proof fn lemma_nothing_in_progress(self, pos: Point)
        requires
            self.current_shape is None,
        ensures
            self.finish_shape() == self,
            self.update_current_shape(pos) == self,
    {
    }

    /// Pointer moves change nothing but the control point that follows the
    /// pointer: the stage of the construction and the points that clicks have
    /// fixed stay.
    pub proof fn lemma_hover_along(self, path: Seq<Point>)
        ensures
            self.hover_along(path).shapes == self.shapes,
            self.hover_along(path).current_shape == self.current_shape,
            self.hover_along(path).history == self.history,
            self.hover_along(path).undo_history == self.undo_history,
            match self.bezier {
                BezierState::WaitingForControl1 { p0, p3, control1 } => {
                    &&& self.hover_along(path).bezier matches BezierState::WaitingForControl1 {
                        p0: q0,
                        p3: q3,
                        control1: c1,
                    }
                    &&& q0 == p0
                    &&& q3 == p3
                },
                BezierState::WaitingForControl2 { p0, p3, control1, control2 } => {
                    &&& self.hover_along(path).bezier matches BezierState::WaitingForControl2 {
                        p0: q0,
                        p3: q3,
                        control1: c1,
                        control2: c2,
                    }
                    &&& q0 == p0
                    &&& q3 == p3
                    &&& c1 == control1
                },
                _ => self.hover_along(path).bezier == self.bezier,
            },
        decreases path.len(),
    {
        if path.len() > 0 {
            self.lemma_hover_along(path.drop_last());
        }
    }

    /// Four clicks make one curve. From the initial state of the
    /// construction, clicks at `a`, `b`, `c` and `d`, with any pointer moves
    /// between them, commit exactly one shape: the curve from `a` to `b` with
    /// the control points `c` and `d`, in the color and width of the last
    /// click. The construction is back in its initial state with no point
    /// accumulated, and no snapshot was taken.
    pub proof fn lemma_four_clicks(
        self,
        a: Point,
        b: Point,
        c: Point,
        d: Point,
        moves: Seq<Seq<Point>>,
        colors: Seq<Color>,
        widths: Seq<u32>,
    )
        requires
            self.bezier is WaitingForStart,
            moves.len() == 3,
            colors.len() == 4,
            widths.len() == 4,
        ensures
            ({
                let end = self.click(a, colors[0], widths[0]).hover_along(moves[0]).click(
                    b,
                    colors[1],
                    widths[1],
                ).hover_along(moves[1]).click(c, colors[2], widths[2]).hover_along(moves[2]).click(
                    d,
                    colors[3],
                    widths[3],
                );
                &&& end.shapes == self.shapes.push(
                    ShapeModel::of_curve(
                        BezierCurve { p0: a, p1: c, p2: d, p3: b },
                        colors[3],
                        widths[3],
                    ),
                )
                &&& end.bezier is WaitingForStart
                &&& end.bezier.spec_points().len() == 0
                &&& !end.is_bezier_active()
                &&& end.current_shape == self.current_shape
                &&& end.history == self.history
                &&& end.undo_history == self.undo_history
            }),
    {
        let s1 = self.click(a, colors[0], widths[0]);
        let h1 = s1.hover_along(moves[0]);
        s1.lemma_hover_along(moves[0]);
        let s2 = h1.click(b, colors[1], widths[1]);
        let h2 = s2.hover_along(moves[1]);
        s2.lemma_hover_along(moves[1]);
        let s3 = h2.click(c, colors[2], widths[2]);
        let h3 = s3.hover_along(moves[2]);
        s3.lemma_hover_along(moves[2]);
    }
}

} // verus!
