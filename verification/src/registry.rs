//! The outputs of a session.
//!
//! An output is entered when the display server advertises it and stays to
//! the end of the session; its identifier is its position in the registry.
//! The objects that belong to an output are known by the numbers under which
//! the display protocol names them.

use vstd::prelude::*;
use crate::buffer::{plan, plan_buffer, BufferAction, FrameBuffer};
use crate::error::Error;
use crate::geometry::Origin;

verus! {

/// Pixel size of an output.
#[derive(Clone, Copy, Debug, PartialEq, Eq, Structural)]
pub struct Size {
    pub width: u32,
    pub height: u32,
}

/// The protocol objects of one output.
#[derive(Clone, Copy, Debug, PartialEq, Eq, Structural)]
pub struct OutputHandles {
    /// The output itself.
    pub output: u32,
    /// The object that describes the output's logical geometry.
    pub xdg_output: u32,
    /// The surface that covers the output.
    pub surface: u32,
    /// The layer role of that surface.
    pub layer_surface: u32,
}

/// The four objects by which an output can be looked up.
#[derive(Clone, Copy, Debug, PartialEq, Eq, Structural)]
pub enum HandleKind {
    Output,
    XdgOutput,
    Surface,
    LayerSurface,
}

/// One display. Origin and size are zero until the display server has
/// described the output.
#[derive(Clone, Copy, Debug, PartialEq, Eq, Structural)]
pub struct Output {
    pub handles: OutputHandles,
    pub logical_pos: Origin,
    pub size: Size,
    pub buffer: Option<FrameBuffer>,
}

impl OutputHandles {
    pub open spec fn of_kind(self, kind: HandleKind) -> u32 {
        match kind {
            HandleKind::Output => self.output,
            HandleKind::XdgOutput => self.xdg_output,
            HandleKind::Surface => self.surface,
            HandleKind::LayerSurface => self.layer_surface,
        }
    }

    pub fn handle(&self, kind: HandleKind) -> (handle: u32)
        ensures
            handle == self.of_kind(kind),
    {
        match kind {
            HandleKind::Output => self.output,
            HandleKind::XdgOutput => self.xdg_output,
            HandleKind::Surface => self.surface,
            HandleKind::LayerSurface => self.layer_surface,
        }
    }
}

impl Output {
    /// An output as it is entered: at the origin, without size or buffer.
    pub open spec fn fresh(handles: OutputHandles) -> Output {
        Output {
            handles,
            logical_pos: Origin { x: 0, y: 0 },
            size: Size { width: 0, height: 0 },
            buffer: None,
        }
    }

    pub open spec fn with_origin(self, origin: Origin) -> Output {
        Output { logical_pos: origin, ..self }
    }

    pub open spec fn with_size(self, size: Size) -> Output {
        Output { size, ..self }
    }

    pub open spec fn with_buffer(self, buffer: FrameBuffer) -> Output {
        Output { buffer: Some(buffer), ..self }
    }

    pub open spec fn wf(self) -> bool {
        self.buffer matches Some(buffer) ==> buffer.wf()
    }
}

/// The first output at or after `start` whose object of kind `kind` is
/// `handle`.
pub open spec fn find_from(outputs: Seq<Output>, kind: HandleKind, handle: u32, start: int) -> Option<
    usize,
>
    decreases outputs.len() - start,
{
    if start < 0 || start >= outputs.len() {
        None
    } else if outputs[start].handles.of_kind(kind) == handle {
        Some(start as usize)
    } else {
        find_from(outputs, kind, handle, start + 1)
    }
}

/// The first output whose object of kind `kind` is `handle`.
pub open spec fn find(outputs: Seq<Output>, kind: HandleKind, handle: u32) -> Option<usize> {
    find_from(outputs, kind, handle, 0)
}

/// The outputs after output `id` was configured with the decision `action`.
pub open spec fn with_action(outputs: Seq<Output>, id: int, action: BufferAction) -> Seq<Output> {
    outputs.update(id, outputs[id].with_buffer(action.buffer()))
}

/// What a search from `start` finds is an output that has the handle, with
/// none before it from `start` on; it finds nothing only if there is none.
pub proof fn lemma_find_from(outputs: Seq<Output>, kind: HandleKind, handle: u32, start: int)
    requires
        0 <= start,
        outputs.len() <= usize::MAX,
    ensures
        match find_from(outputs, kind, handle, start) {
            Some(i) => {
                &&& start <= i < outputs.len()
                &&& outputs[i as int].handles.of_kind(kind) == handle
                &&& forall|j: int| start <= j < i ==> outputs[j].handles.of_kind(kind) != handle
            },
            None => forall|j: int|
                start <= j < outputs.len() ==> outputs[j].handles.of_kind(kind) != handle,
        },
    decreases outputs.len() - start,
{
    if start < outputs.len() && outputs[start].handles.of_kind(kind) != handle {
        lemma_find_from(outputs, kind, handle, start + 1);
    }
}

/// A lookup gives the first output that has the handle, and nothing exactly
/// when no output has it. The registry is one that fits in memory.
pub proof fn lemma_find_is_first(outputs: Seq<Output>, kind: HandleKind, handle: u32)
    requires
        outputs.len() <= usize::MAX,
    ensures
        match find(outputs, kind, handle) {
            Some(i) => {
                &&& i < outputs.len()
                &&& outputs[i as int].handles.of_kind(kind) == handle
                &&& forall|j: int| 0 <= j < i ==> outputs[j].handles.of_kind(kind) != handle
            },
            None => forall|j: int|
                0 <= j < outputs.len() ==> outputs[j].handles.of_kind(kind) != handle,
        },
{
    lemma_find_from(outputs, kind, handle, 0);
}

proof fn lemma_find_from_after_push(
    outputs: Seq<Output>,
    added: Output,
    kind: HandleKind,
    handle: u32,
    start: int,
)
    requires
        0 <= start,
        find_from(outputs, kind, handle, start) is Some,
    ensures
        find_from(outputs.push(added), kind, handle, start) == find_from(
            outputs,
            kind,
            handle,
            start,
        ),
    decreases outputs.len() - start,
{
    if start < outputs.len() && outputs[start].handles.of_kind(kind) != handle {
        assert(outputs.push(added)[start] == outputs[start]);
        lemma_find_from_after_push(outputs, added, kind, handle, start + 1);
    }
}

/// Entering one more output changes no lookup that found something.
pub proof fn lemma_register_keeps_lookups(
    outputs: Seq<Output>,
    added: Output,
    kind: HandleKind,
    handle: u32,
)
    requires
        find(outputs, kind, handle) is Some,
    ensures
        find(outputs.push(added), kind, handle) == find(outputs, kind, handle),
{
    lemma_find_from_after_push(outputs, added, kind, handle, 0);
}

/// Every known output, in the order in which they were entered.
pub struct OutputRegistry {
    outputs: Vec<Output>,
}

impl View for OutputRegistry {
    type V = Seq<Output>;

    closed spec fn view(&self) -> Seq<Output> {
        self.outputs@
    }
}

impl OutputRegistry {
    /// Every buffer in the registry holds its rows.
    pub open spec fn wf(&self) -> bool {
        forall|i: int| 0 <= i < self@.len() ==> (#[trigger] self@[i]).wf()
    }

    pub fn new() -> (registry: OutputRegistry)
        ensures
            registry@ == Seq::<Output>::empty(),
            registry.wf(),
    {
        OutputRegistry { outputs: Vec::new() }
    }

    pub fn len(&self) -> (n: usize)
        ensures
            n == self@.len(),
    {
        self.outputs.len()
    }

    /// Enters an output and returns its identifier.
    pub fn register(&mut self, handles: OutputHandles) -> (id: usize)
        requires
            old(self).wf(),
        ensures
            id == old(self)@.len(),
            final(self)@ == old(self)@.push(Output::fresh(handles)),
            final(self).wf(),
    {
        let id: usize = self.outputs.len();
        self.outputs.push(
            Output {
                handles,
                logical_pos: Origin { x: 0, y: 0 },
                size: Size { width: 0, height: 0 },
                buffer: None,
            },
        );
        id
    }

    pub fn get(&self, id: usize) -> (output: Output)
        requires
            id < self@.len(),
        ensures
            output == self@[id as int],
    {
        self.outputs[id]
    }

    /// Records where the output lies in the global space.
    pub fn update_geometry(&mut self, id: usize, origin: Origin)
        requires
            old(self).wf(),
            id < old(self)@.len(),
        ensures
            final(self)@ == old(self)@.update(id as int, old(self)@[id as int].with_origin(origin)),
            final(self).wf(),
    {
        let mut output: Output = self.outputs[id];
        output.logical_pos = origin;
        self.outputs.set(id, output);
    }

    /// Records the output's pixel size.
    pub fn update_size(&mut self, id: usize, size: Size)
        requires
            old(self).wf(),
            id < old(self)@.len(),
        ensures
            final(self)@ == old(self)@.update(id as int, old(self)@[id as int].with_size(size)),
            final(self).wf(),
    {
        let mut output: Output = self.outputs[id];
        output.size = size;
        self.outputs.set(id, output);
    }

    /// Makes sure that the output has a buffer of `width` by `height` pixels:
    /// the one it has, if that has this size, and otherwise a new one in its
    /// place. `stride` is the row stride that the drawing surface asks for at
    /// this width. On a refusal the output keeps what it had.
    pub fn ensure_buffer(&mut self, id: usize, width: u32, height: u32, stride: Option<i32>) -> (action:
        Result<BufferAction, Error>)
        requires
            old(self).wf(),
            id < old(self)@.len(),
        ensures
            action == plan_buffer(old(self)@[id as int].buffer, width, height, stride),
            final(self)@ == match action {
                Ok(a) => with_action(old(self)@, id as int, a),
                Err(_) => old(self)@,
            },
            final(self).wf(),
    {
        let mut output: Output = self.outputs[id];
        let action: Result<BufferAction, Error> = plan(output.buffer, width, height, stride);
        match action {
            Ok(BufferAction::Allocate(buffer)) => {
                output.buffer = Some(buffer);
                self.outputs.set(id, output);
            },
            Ok(BufferAction::Reuse(buffer)) => {
                assert(self@ =~= with_action(self@, id as int, BufferAction::Reuse(buffer)));
            },
            Err(_) => {},
        }
        action
    }

    fn position(&self, kind: HandleKind, handle: u32) -> (found: Option<usize>)
        ensures
            found == find(self@, kind, handle),
    {
        let mut i: usize = 0;
        while i < self.outputs.len()
            invariant
                i <= self.outputs.len(),
                find(self@, kind, handle) == find_from(self@, kind, handle, i as int),
            decreases self.outputs.len() - i,
        {
            if self.outputs[i].handles.handle(kind) == handle {
                return Some(i);
            }
            i += 1;
        }
        None
    }

    /// The output that the surface `surface` covers.
    pub fn find_by_surface(&self, surface: u32) -> (found: Option<usize>)
        ensures
            found == find(self@, HandleKind::Surface, surface),
    {
        self.position(HandleKind::Surface, surface)
    }

    /// The output whose surface has the layer role `layer_surface`.
    pub fn find_by_layer_surface(&self, layer_surface: u32) -> (found: Option<usize>)
        ensures
            found == find(self@, HandleKind::LayerSurface, layer_surface),
    {
        self.position(HandleKind::LayerSurface, layer_surface)
    }

    /// The output that the display server names `output`.
    pub fn find_by_output(&self, output: u32) -> (found: Option<usize>)
        ensures
            found == find(self@, HandleKind::Output, output),
    {
        self.position(HandleKind::Output, output)
    }

    /// The output that `xdg_output` describes.
    pub fn find_by_xdg_output(&self, xdg_output: u32) -> (found: Option<usize>)
        ensures
            found == find(self@, HandleKind::XdgOutput, xdg_output),
    {
        self.position(HandleKind::XdgOutput, xdg_output)
    }

    /// The identifiers of all outputs, in order.
    pub fn all(&self) -> (ids: Vec<usize>)
        ensures
            ids@.len() == self@.len(),
            forall|i: int| 0 <= i < ids@.len() ==> ids@[i] == i,
    {
        let mut ids: Vec<usize> = Vec::new();
        let mut i: usize = 0;
        while i < self.outputs.len()
            invariant
                i <= self.outputs.len(),
                ids@.len() == i,
                forall|j: int| 0 <= j < ids@.len() ==> ids@[j] == j,
            decreases self.outputs.len() - i,
        {
            ids.push(i);
            i += 1;
        }
        ids
    }
}

} // verus!
