//! What an output shows.
//!
//! A frame overwrites its buffer from scratch: a dim layer over the whole
//! surface, a clear window with a border where the selection is, and a
//! crosshair at the cursor. The engine says what to draw and where, in the
//! output's own coordinates; drawing it is left to a 2D drawing surface.

use vstd::prelude::*;
use crate::buffer::FrameBuffer;
use crate::geometry::{
    normalize,
    rect_to_local,
    rect_to_local_spec,
    to_local,
    to_local_spec,
    LocalPoint,
    LocalRect,
    Origin,
    Point,
    Rect,
};
use crate::registry::Output;
use crate::selection::Phase;
use crate::state::{State, StateView};

verus! {

/// Half the length of each line of the crosshair: ten pixels, in units.
pub const CROSSHAIR_ARM: i128 = 2560;

/// Line width of the crosshair, in pixels.
pub const CROSSHAIR_WIDTH: u32 = 1;

/// Line width of the selection's border, in pixels.
pub const BORDER_WIDTH: u32 = 2;

/// A colour with alpha; each channel in percent of its full value.
#[derive(Clone, Copy, Debug, PartialEq, Eq, Structural)]
pub struct Color {
    pub red: u8,
    pub green: u8,
    pub blue: u8,
    pub alpha: u8,
}

/// How a drawing operation combines with what is there.
#[derive(Clone, Copy, Debug, PartialEq, Eq, Structural)]
pub enum Operator {
    /// Replaces what is there, alpha included.
    Source,
    /// Blends over what is there.
    Over,
}

/// One drawing operation, in the coordinates of the output it is for.
#[derive(Clone, Copy, Debug, PartialEq, Eq, Structural)]
pub enum DrawOp {
    /// Covers the whole surface.
    Paint { operator: Operator, color: Color },
    /// Fills a rectangle.
    FillRect { operator: Operator, color: Color, rect: LocalRect },
    /// Strokes the outline of a rectangle.
    StrokeRect { operator: Operator, color: Color, line_width: u32, rect: LocalRect },
    /// Strokes a line segment.
    StrokeLine {
        operator: Operator,
        color: Color,
        line_width: u32,
        from: LocalPoint,
        to: LocalPoint,
    },
    /// Completes what was drawn so far, so that the memory holds it.
    Flush,
}

/// How the pixels of a buffer are laid out in memory.
#[derive(Clone, Copy, Debug, PartialEq, Eq, Structural)]
pub enum PixelFormat {
    /// 32 bits per pixel: alpha, red, green, blue, eight bits each.
    Argb8888,
}

/// One request to an output's surface.
#[derive(Clone, Copy, Debug, PartialEq, Eq, Structural)]
pub enum SurfaceRequest {
    /// Attach the frame's buffer, its top-left corner at this position on
    /// the surface.
    Attach { x: i32, y: i32 },
    /// Mark this part of the buffer as changed, in pixels.
    DamageBuffer { x: i32, y: i32, width: i32, height: i32 },
    /// Make what was attached and marked take effect.
    Commit,
    /// Give up the handle under which the buffer was attached. The memory
    /// stays with the output for its next frame.
    ReleaseBuffer,
}

/// One output's next picture, as the steps that show it. A handle for the
/// buffer is made over the output's memory, from `pool_offset` on and in
/// `format`; `ops` are carried out on the memory in order; `present` is then
/// sent to the output's surface in order.
#[derive(Debug)]
pub struct Frame {
    pub output: usize,
    pub buffer: FrameBuffer,
    pub pool_offset: i32,
    pub format: PixelFormat,
    pub ops: Vec<DrawOp>,
    pub present: Vec<SurfaceRequest>,
}

/// A frame as a plain value.
pub struct FrameView {
    pub output: usize,
    pub buffer: FrameBuffer,
    pub pool_offset: i32,
    pub format: PixelFormat,
    pub ops: Seq<DrawOp>,
    pub present: Seq<SurfaceRequest>,
}

impl View for Frame {
    type V = FrameView;

    open spec fn view(&self) -> FrameView {
        FrameView {
            output: self.output,
            buffer: self.buffer,
            pool_offset: self.pool_offset,
            format: self.format,
            ops: self.ops@,
            present: self.present@,
        }
    }
}

/// Grey at two fifths opacity: dims what lies under the overlay.
pub open spec fn dim_color() -> Color {
    Color { red: 50, green: 50, blue: 50, alpha: 40 }
}

/// Fully transparent.
pub open spec fn clear_color() -> Color {
    Color { red: 0, green: 0, blue: 0, alpha: 0 }
}

/// Light blue at four fifths opacity.
pub open spec fn border_color() -> Color {
    Color { red: 20, green: 60, blue: 100, alpha: 80 }
}

/// Opaque white.
pub open spec fn crosshair_color() -> Color {
    Color { red: 100, green: 100, blue: 100, alpha: 100 }
}

/// What shows a buffer once it is drawn: it is attached at the surface's
/// origin, all of it is marked as changed, the surface is committed, and the
/// handle is given up.
pub open spec fn present_requests(buffer: FrameBuffer) -> Seq<SurfaceRequest> {
    seq![
        SurfaceRequest::Attach { x: 0, y: 0 },
        SurfaceRequest::DamageBuffer { x: 0, y: 0, width: buffer.width, height: buffer.height },
        SurfaceRequest::Commit,
        SurfaceRequest::ReleaseBuffer,
    ]
}

/// A window through the dim layer, and a border around it.
pub open spec fn selection_ops(selection: Rect, origin: Origin) -> Seq<DrawOp> {
    seq![
        DrawOp::FillRect {
            operator: Operator::Source,
            color: clear_color(),
            rect: rect_to_local_spec(origin, selection),
        },
        DrawOp::StrokeRect {
            operator: Operator::Over,
            color: border_color(),
            line_width: BORDER_WIDTH,
            rect: rect_to_local_spec(origin, selection),
        },
    ]
}

/// The operations for several selections, one after the other.
pub open spec fn selections_ops(selections: Seq<Rect>, origin: Origin) -> Seq<DrawOp>
    decreases selections.len(),
{
    if selections.len() == 0 {
        Seq::empty()
    } else {
        selections_ops(selections.drop_last(), origin) + selection_ops(selections.last(), origin)
    }
}

/// Two lines through the cursor, one level and one upright, each reaching
/// `CROSSHAIR_ARM` to either side.
pub open spec fn crosshair_ops(cursor: Point, origin: Origin) -> Seq<DrawOp> {
    let center = to_local_spec(origin, cursor);
    seq![
        DrawOp::StrokeLine {
            operator: Operator::Over,
            color: crosshair_color(),
            line_width: CROSSHAIR_WIDTH,
            from: LocalPoint { x: (center.x - CROSSHAIR_ARM) as i128, y: center.y },
            to: LocalPoint { x: (center.x + CROSSHAIR_ARM) as i128, y: center.y },
        },
        DrawOp::StrokeLine {
            operator: Operator::Over,
            color: crosshair_color(),
            line_width: CROSSHAIR_WIDTH,
            from: LocalPoint { x: center.x, y: (center.y - CROSSHAIR_ARM) as i128 },
            to: LocalPoint { x: center.x, y: (center.y + CROSSHAIR_ARM) as i128 },
        },
    ]
}

/// The rectangles on screen: the one being dragged, if any.
pub open spec fn live_selections(phase: Phase, cursor: Point) -> Seq<Rect> {
    match phase.live_selection(cursor) {
        Some(selection) => seq![selection],
        None => Seq::empty(),
    }
}

/// Everything that is drawn on an output at `origin`, in order: the dim
/// layer, the selection, the crosshair, and the flush that completes them.
pub open spec fn frame_ops(phase: Phase, cursor: Point, origin: Origin) -> Seq<DrawOp> {
    seq![DrawOp::Paint { operator: Operator::Source, color: dim_color() }] + selections_ops(
        live_selections(phase, cursor),
        origin,
    ) + crosshair_ops(cursor, origin) + seq![DrawOp::Flush]
}

/// The frame of output `index`: none if there is no such output, or if it
/// has no buffer yet.
pub open spec fn frame_of(state: StateView, index: int) -> Option<FrameView> {
    if 0 <= index < state.outputs.len() && state.outputs[index].buffer is Some {
        Some(
            FrameView {
                output: index as usize,
                buffer: state.outputs[index].buffer->0,
                pool_offset: 0,
                format: PixelFormat::Argb8888,
                ops: frame_ops(state.phase, state.current_pos, state.outputs[index].logical_pos),
                present: present_requests(state.outputs[index].buffer->0),
            },
        )
    } else {
        None
    }
}

/// The frames of the first `count` outputs, in order.
pub open spec fn frames_upto(state: StateView, count: int) -> Seq<FrameView>
    decreases count,
{
    if count <= 0 {
        Seq::empty()
    } else {
        match frame_of(state, count - 1) {
            Some(frame) => frames_upto(state, count - 1).push(frame),
            None => frames_upto(state, count - 1),
        }
    }
}

/// The frames of all outputs that can be painted, in order.
pub open spec fn all_frames(state: StateView) -> Seq<FrameView> {
    frames_upto(state, state.outputs.len() as int)
}

/// The views of a sequence of frames.
pub open spec fn views(frames: Seq<Frame>) -> Seq<FrameView> {
    frames.map_values(|frame: Frame| frame@)
}

/// Adds the window and the border of each selection to `ops`, as seen from
/// an output at `output_pos`.
pub fn draw_selections(ops: &mut Vec<DrawOp>, selections: &Vec<Rect>, output_pos: Origin)
    ensures
        final(ops)@ == old(ops)@ + selections_ops(selections@, output_pos),
{
    let mut i: usize = 0;
    assert(selections@.take(0) =~= Seq::<Rect>::empty());
    assert(ops@ =~= old(ops)@ + selections_ops(selections@.take(0), output_pos));
    while i < selections.len()
        invariant
            i <= selections.len(),
            ops@ == old(ops)@ + selections_ops(selections@.take(i as int), output_pos),
        decreases selections.len() - i,
    {
        let rect: LocalRect = rect_to_local(output_pos, selections[i]);
        let ghost before = ops@;
        ops.push(
            DrawOp::FillRect {
                operator: Operator::Source,
                color: Color { red: 0, green: 0, blue: 0, alpha: 0 },
                rect,
            },
        );
        ops.push(
            DrawOp::StrokeRect {
                operator: Operator::Over,
                color: Color { red: 20, green: 60, blue: 100, alpha: 80 },
                line_width: BORDER_WIDTH,
                rect,
            },
        );
        proof {
            let next = selections@.take(i + 1);
            assert(next.drop_last() =~= selections@.take(i as int));
            assert(next.last() == selections@[i as int]);
            assert(ops@ =~= before + selection_ops(selections@[i as int], output_pos));
        }
        i += 1;
    }
    assert(selections@.take(i as int) =~= selections@);
}

/// Adds the crosshair at `cursor` to `ops`, as seen from an output at
/// `output_pos`.
pub fn draw_crosshair(ops: &mut Vec<DrawOp>, cursor: Point, output_pos: Origin)
    ensures
        final(ops)@ == old(ops)@ + crosshair_ops(cursor, output_pos),
{
    let center: LocalPoint = to_local(output_pos, cursor);
    let white: Color = Color { red: 100, green: 100, blue: 100, alpha: 100 };
    ops.push(
        DrawOp::StrokeLine {
            operator: Operator::Over,
            color: white,
            line_width: CROSSHAIR_WIDTH,
            from: LocalPoint { x: center.x - CROSSHAIR_ARM, y: center.y },
            to: LocalPoint { x: center.x + CROSSHAIR_ARM, y: center.y },
        },
    );
    ops.push(
        DrawOp::StrokeLine {
            operator: Operator::Over,
            color: white,
            line_width: CROSSHAIR_WIDTH,
            from: LocalPoint { x: center.x, y: center.y - CROSSHAIR_ARM },
            to: LocalPoint { x: center.x, y: center.y + CROSSHAIR_ARM },
        },
    );
    assert(ops@ =~= old(ops)@ + crosshair_ops(cursor, output_pos));
}

/// The requests that show `buffer`.
pub fn present(buffer: FrameBuffer) -> (requests: Vec<SurfaceRequest>)
    ensures
        requests@ == present_requests(buffer),
{
    let mut requests: Vec<SurfaceRequest> = Vec::new();
    requests.push(SurfaceRequest::Attach { x: 0, y: 0 });
    requests.push(
        SurfaceRequest::DamageBuffer { x: 0, y: 0, width: buffer.width, height: buffer.height },
    );
    requests.push(SurfaceRequest::Commit);
    requests.push(SurfaceRequest::ReleaseBuffer);
    assert(requests@ =~= present_requests(buffer));
    requests
}

impl State {
    /// The next picture of output `output_index`, if it has a buffer to hold
    /// one.
    pub fn draw_on_output(&self, output_index: usize) -> (frame: Option<Frame>)
        ensures
            match frame {
                Some(f) => frame_of(self@, output_index as int) == Some(f@),
                None => frame_of(self@, output_index as int) is None,
            },
    {
        let outputs = self.outputs();
        if output_index >= outputs.len() {
            return None;
        }
        let output: Output = outputs.get(output_index);
        let buffer: FrameBuffer = match output.buffer {
            Some(buffer) => buffer,
            None => {
                return None;
            },
        };
        let phase: Phase = self.phase();
        let current_pos: Point = self.current_pos();

        let mut ops: Vec<DrawOp> = Vec::new();
        ops.push(
            DrawOp::Paint {
                operator: Operator::Source,
                color: Color { red: 50, green: 50, blue: 50, alpha: 40 },
            },
        );
        let mut all_selections: Vec<Rect> = Vec::new();
        if let Some(current_selection) = phase.current_selection(current_pos) {
            all_selections.push(current_selection);
        }
        assert(all_selections@ =~= live_selections(self@.phase, self@.current_pos));
        assert(ops@ =~= seq![DrawOp::Paint { operator: Operator::Source, color: dim_color() }]);
        draw_selections(&mut ops, &all_selections, output.logical_pos);
        draw_crosshair(&mut ops, current_pos, output.logical_pos);
        ops.push(DrawOp::Flush);
        assert(ops@ =~= frame_ops(self@.phase, self@.current_pos, output.logical_pos));
        Some(
            Frame {
                output: output_index,
                buffer,
                pool_offset: 0,
                format: PixelFormat::Argb8888,
                ops,
                present: present(buffer),
            },
        )
    }

    /// The next picture of every output that has a buffer, in the order of
    /// the outputs.
    pub fn draw(&self) -> (frames: Vec<Frame>)
        ensures
            views(frames@) == all_frames(self@),
    {
        let mut frames: Vec<Frame> = Vec::new();
        let count: usize = self.outputs().len();
        let mut i: usize = 0;
        assert(views(frames@) =~= frames_upto(self@, 0));
        while i < count
            invariant
                i <= count,
                count == self@.outputs.len(),
                views(frames@) == frames_upto(self@, i as int),
            decreases count - i,
        {
            if let Some(frame) = self.draw_on_output(i) {
                let ghost before = frames@;
                frames.push(frame);
                assert(views(frames@) =~= views(before).push(frame@));
            }
            i += 1;
        }
        frames
    }
}

/// An output without a buffer is not painted, and one with a buffer always
/// is: from the start of its own memory, with the whole buffer marked as
/// changed.
pub proof fn lemma_frame_iff_buffer(state: StateView, index: int)
    requires
        0 <= index < state.outputs.len() <= usize::MAX,
    ensures
        frame_of(state, index) is Some <==> state.outputs[index].buffer is Some,
        frame_of(state, index) matches Some(frame) ==> frame.output == index && frame.buffer
            == state.outputs[index].buffer->0 && frame.pool_offset == 0 && frame.present
            == present_requests(frame.buffer),
{
}

/// Every frame starts by covering the whole surface with the dim layer and
/// ends with the two lines of the crosshair and the flush; a drag adds the
/// window and the border of its rectangle in between, and nothing else does.
pub proof fn lemma_frame_layout(phase: Phase, cursor: Point, origin: Origin)
    ensures
        frame_ops(phase, cursor, origin).len() == (if phase is Dragging {
            6int
        } else {
            4int
        }),
        frame_ops(phase, cursor, origin)[0] == (DrawOp::Paint {
            operator: Operator::Source,
            color: dim_color(),
        }),
        phase matches Phase::Dragging { anchor } ==> frame_ops(phase, cursor, origin).subrange(1, 3)
            == selection_ops(normalize(anchor, cursor), origin),
        frame_ops(phase, cursor, origin).subrange(
            frame_ops(phase, cursor, origin).len() - 3,
            frame_ops(phase, cursor, origin).len() - 1,
        ) == crosshair_ops(cursor, origin),
        frame_ops(phase, cursor, origin).last() == DrawOp::Flush,
{
    let live = live_selections(phase, cursor);
    if live.len() == 1 {
        assert(live.drop_last() =~= Seq::<Rect>::empty());
        assert(selections_ops(live.drop_last(), origin) =~= Seq::<DrawOp>::empty());
        assert(selections_ops(live, origin) =~= selection_ops(live[0], origin));
    } else {
        assert(selections_ops(live, origin) =~= Seq::<DrawOp>::empty());
    }
    let ops = frame_ops(phase, cursor, origin);
    assert(ops.subrange(ops.len() - 3, ops.len() - 1) =~= crosshair_ops(cursor, origin));
    if phase is Dragging {
        assert(ops.subrange(1, 3) =~= selection_ops(live[0], origin));
    }
}

} // verus!
