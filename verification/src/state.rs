//! The session and its events.
//!
//! One `State` holds everything that a session knows: the capabilities that
//! were advertised, the outputs, the phase of the selection, where the cursor
//! is and which output the pointer is on. Events come in one closed type per
//! protocol object. Each is answered with the `Action` that the caller has to
//! carry out, or refused with an `Error`, which leaves the state untouched.
//! Once the session has ended nothing changes it any more.

use vstd::prelude::*;
use crate::buffer::{plan_buffer, BufferAction, FrameBuffer};
use crate::error::Error;
use crate::geometry::{to_global, to_global_spec, Origin, Point, Rect, SurfacePos};
use crate::handshake::{overlay_config, overlay_placement, Capabilities, GlobalKind, OverlayConfig};
use crate::registry::{
    find,
    lemma_find_is_first,
    with_action,
    HandleKind,
    Output,
    OutputHandles,
    OutputRegistry,
    Size,
};
use crate::selection::{
    Phase,
    BUTTON_PRIMARY,
    BUTTON_SECONDARY,
    EXIT_CANCELLED,
    EXIT_COMMITTED,
    KEY_ESCAPE,
};

verus! {

#[derive(Clone, Copy, Debug, PartialEq, Eq, Structural)]
pub enum ButtonState {
    Released,
    Pressed,
}

#[derive(Clone, Copy, Debug, PartialEq, Eq, Structural)]
pub enum KeyState {
    Released,
    Pressed,
}

/// What the registry of globals reports.
#[derive(Clone, Copy, Debug, PartialEq, Eq, Structural)]
pub enum RegistryEvent {
    /// A global of this kind is on offer.
    Global { kind: GlobalKind },
    /// A global went away. Outputs are kept to the end of the session.
    GlobalRemove,
}

/// What the pointer reports. Positions are local to the surface that the
/// pointer is on.
#[derive(Clone, Copy, Debug, PartialEq, Eq, Structural)]
pub enum PointerEvent {
    Enter { surface: u32, position: SurfacePos },
    Leave,
    Motion { position: SurfacePos },
    Button { button: u32, state: ButtonState },
    /// Axis, frame and the like.
    Other,
}

/// What the keyboard reports.
#[derive(Clone, Copy, Debug, PartialEq, Eq, Structural)]
pub enum KeyboardEvent {
    Key { key: u32, state: KeyState },
    /// Keymap, focus, modifiers and the like.
    Other,
}

/// What an overlay surface reports.
#[derive(Clone, Copy, Debug, PartialEq, Eq, Structural)]
pub enum LayerSurfaceEvent {
    /// The surface is to be `width` by `height` pixels. `stride` is the row
    /// stride that the drawing surface asks for at this width, if it names
    /// one.
    Configure { layer_surface: u32, width: u32, height: u32, stride: Option<i32> },
    /// The compositor has closed the surface.
    Closed,
}

/// What an output reports of itself.
#[derive(Clone, Copy, Debug, PartialEq, Eq, Structural)]
pub enum OutputEvent {
    Mode { output: u32, width: u32, height: u32 },
    /// Physical geometry, scale, name and the like.
    Other,
}

/// What the description of an output reports.
#[derive(Clone, Copy, Debug, PartialEq, Eq, Structural)]
pub enum XdgOutputEvent {
    LogicalPosition { xdg_output: u32, x: i32, y: i32 },
    /// Logical size, name, description and the like.
    Other,
}

#[derive(Clone, Copy, Debug, PartialEq, Eq, Structural)]
pub enum Event {
    Registry(RegistryEvent),
    Pointer(PointerEvent),
    Keyboard(KeyboardEvent),
    LayerSurface(LayerSurfaceEvent),
    Output(OutputEvent),
    XdgOutput(XdgOutputEvent),
}

/// What the caller has to do after an event.
#[derive(Clone, Copy, Debug, PartialEq, Eq, Structural)]
pub enum Action {
    Nothing,
    /// Bind the global; for the seat, also get its pointer and keyboard.
    Bind { kind: GlobalKind },
    /// Bind the output, make a surface over it with this placement, ask for
    /// the output's description, and register the four objects.
    CreateOverlay { config: OverlayConfig },
    /// Map `buffer.size` bytes of new shared memory for the output, release
    /// what it had, and paint it.
    Allocate { output: usize, buffer: FrameBuffer },
    /// Paint this output.
    Repaint { output: usize },
    /// Paint every output.
    RepaintAll,
    /// End the process with this status, after printing the selection if
    /// there is one.
    Exit { code: i32, selection: Option<Rect> },
}

/// The session as a plain value.
pub struct StateView {
    pub capabilities: Capabilities,
    pub outputs: Seq<Output>,
    pub phase: Phase,
    /// The cursor in the global space; the global origin until the pointer
    /// has entered a surface.
    pub current_pos: Point,
    /// The output that the pointer is on.
    pub current_output: Option<usize>,
}

/// The session after an event, and the answer to the event.
pub struct Step {
    pub state: StateView,
    pub result: Result<Action, Error>,
}

/// What a change of phase asks of the caller: to end the process when the
/// session has just ended, and nothing else.
pub open spec fn exit_action(before: Phase, after: Phase) -> Action {
    if before.is_terminal() {
        Action::Nothing
    } else {
        match after {
            Phase::Committed { selection } => Action::Exit {
                code: EXIT_COMMITTED,
                selection: Some(selection),
            },
            Phase::Cancelled => Action::Exit {
                code: EXIT_CANCELLED,
                selection: None,
            },
            _ => Action::Nothing,
        }
    }
}

impl StateView {
    /// The pointer is on an output that exists, every buffer holds its rows,
    /// and the outputs can be counted.
    pub open spec fn wf(self) -> bool {
        &&& self.outputs.len() <= usize::MAX
        &&& forall|i: int| 0 <= i < self.outputs.len() ==> (#[trigger] self.outputs[i]).wf()
        &&& self.current_output matches Some(i) ==> i < self.outputs.len()
    }

    pub open spec fn initial() -> StateView {
        StateView {
            capabilities: Capabilities::none(),
            outputs: Seq::empty(),
            phase: Phase::Idle,
            current_pos: Point { x: 0, y: 0 },
            current_output: None,
        }
    }

    /// The session with one more output.
    pub open spec fn registered(self, handles: OutputHandles) -> StateView {
        StateView { outputs: self.outputs.push(Output::fresh(handles)), ..self }
    }

    pub open spec fn stay(self) -> Step {
        Step { state: self, result: Ok(Action::Nothing) }
    }

    pub open spec fn refuse(self, error: Error) -> Step {
        Step { state: self, result: Err(error) }
    }

    /// The selection moves on to `phase`.
    pub open spec fn move_to(self, phase: Phase) -> Step {
        Step {
            state: StateView { phase, ..self },
            result: Ok(exit_action(self.phase, phase)),
        }
    }

    /// The cursor is at `position` on output `output`.
    pub open spec fn cursor_at(self, output: usize, position: SurfacePos) -> StateView {
        StateView {
            current_pos: to_global_spec(self.outputs[output as int].logical_pos, position),
            ..self
        }
    }

    pub open spec fn registry_step(self, event: RegistryEvent) -> Step {
        if self.phase.is_terminal() {
            self.stay()
        } else {
            match event {
                RegistryEvent::Global { kind: GlobalKind::Other } => self.stay(),
                RegistryEvent::Global { kind: GlobalKind::Output } => {
                    if self.capabilities.can_host_output() {
                        Step {
                            state: self,
                            result: Ok(Action::CreateOverlay { config: overlay_placement() }),
                        }
                    } else {
                        self.refuse(Error::MissingCapability)
                    }
                },
                RegistryEvent::Global { kind } => Step {
                    state: StateView { capabilities: self.capabilities.with(kind), ..self },
                    result: Ok(Action::Bind { kind }),
                },
                RegistryEvent::GlobalRemove => self.stay(),
            }
        }
    }

    pub open spec fn pointer_step(self, event: PointerEvent) -> Step {
        if self.phase.is_terminal() {
            self.stay()
        } else {
            match event {
                PointerEvent::Enter { surface, position } => {
                    match find(self.outputs, HandleKind::Surface, surface) {
                        Some(output) => Step {
                            state: StateView {
                                current_output: Some(output),
                                ..self.cursor_at(output, position)
                            },
                            result: Ok(Action::RepaintAll),
                        },
                        None => self.refuse(Error::UnknownSurface),
                    }
                },
                PointerEvent::Leave => Step {
                    state: StateView { current_output: None, ..self },
                    result: Ok(Action::Nothing),
                },
                PointerEvent::Motion { position } => {
                    match self.current_output {
                        Some(output) => Step {
                            state: self.cursor_at(output, position),
                            result: Ok(
                                if self.phase is Dragging {
                                    Action::Repaint { output }
                                } else {
                                    Action::Nothing
                                },
                            ),
                        },
                        None => self.stay(),
                    }
                },
                PointerEvent::Button { button, state } => {
                    if button == BUTTON_PRIMARY {
                        match state {
                            ButtonState::Pressed => self.move_to(
                                self.phase.after_press(self.current_pos),
                            ),
                            ButtonState::Released => self.move_to(
                                self.phase.after_release(self.current_pos),
                            ),
                        }
                    } else if button == BUTTON_SECONDARY && state == ButtonState::Pressed {
                        self.move_to(self.phase.after_cancel())
                    } else {
                        self.stay()
                    }
                },
                PointerEvent::Other => self.stay(),
            }
        }
    }

    pub open spec fn keyboard_step(self, event: KeyboardEvent) -> Step {
        if self.phase.is_terminal() {
            self.stay()
        } else {
            match event {
                KeyboardEvent::Key { key, state } => {
                    if key == KEY_ESCAPE && state == KeyState::Pressed {
                        self.move_to(self.phase.after_cancel())
                    } else {
                        self.stay()
                    }
                },
                KeyboardEvent::Other => self.stay(),
            }
        }
    }

    pub open spec fn layer_surface_step(self, event: LayerSurfaceEvent) -> Step {
        if self.phase.is_terminal() {
            self.stay()
        } else {
            match event {
                LayerSurfaceEvent::Configure { layer_surface, width, height, stride } => {
                    match find(self.outputs, HandleKind::LayerSurface, layer_surface) {
                        Some(output) => {
                            match plan_buffer(
                                self.outputs[output as int].buffer,
                                width,
                                height,
                                stride,
                            ) {
                                Ok(BufferAction::Reuse(_)) => Step {
                                    state: self,
                                    result: Ok(Action::Repaint { output }),
                                },
                                Ok(BufferAction::Allocate(buffer)) => Step {
                                    state: StateView {
                                        outputs: with_action(
                                            self.outputs,
                                            output as int,
                                            BufferAction::Allocate(buffer),
                                        ),
                                        ..self
                                    },
                                    result: Ok(Action::Allocate { output, buffer }),
                                },
                                Err(error) => self.refuse(error),
                            }
                        },
                        None => self.refuse(Error::UnknownLayerSurface),
                    }
                },
                LayerSurfaceEvent::Closed => self.move_to(self.phase.after_cancel()),
            }
        }
    }

    pub open spec fn output_step(self, event: OutputEvent) -> Step {
        if self.phase.is_terminal() {
            self.stay()
        } else {
            match event {
                OutputEvent::Mode { output, width, height } => {
                    match find(self.outputs, HandleKind::Output, output) {
                        Some(id) => Step {
                            state: StateView {
                                outputs: self.outputs.update(
                                    id as int,
                                    self.outputs[id as int].with_size(Size { width, height }),
                                ),
                                ..self
                            },
                            result: Ok(Action::Nothing),
                        },
                        None => self.refuse(Error::UnknownOutput),
                    }
                },
                OutputEvent::Other => self.stay(),
            }
        }
    }

    pub open spec fn xdg_output_step(self, event: XdgOutputEvent) -> Step {
        if self.phase.is_terminal() {
            self.stay()
        } else {
            match event {
                XdgOutputEvent::LogicalPosition { xdg_output, x, y } => {
                    match find(self.outputs, HandleKind::XdgOutput, xdg_output) {
                        Some(id) => Step {
                            state: StateView {
                                outputs: self.outputs.update(
                                    id as int,
                                    self.outputs[id as int].with_origin(Origin { x, y }),
                                ),
                                ..self
                            },
                            result: Ok(Action::Nothing),
                        },
                        None => self.refuse(Error::UnknownXdgOutput),
                    }
                },
                XdgOutputEvent::Other => self.stay(),
            }
        }
    }

    /// The session after `event`, and the answer to it.
    pub open spec fn step(self, event: Event) -> Step {
        match event {
            Event::Registry(e) => self.registry_step(e),
            Event::Pointer(e) => self.pointer_step(e),
            Event::Keyboard(e) => self.keyboard_step(e),
            Event::LayerSurface(e) => self.layer_surface_step(e),
            Event::Output(e) => self.output_step(e),
            Event::XdgOutput(e) => self.xdg_output_step(e),
        }
    }
}

/// The state of one session.
pub struct State {
    capabilities: Capabilities,
    outputs: OutputRegistry,
    phase: Phase,
    current_pos: Point,
    current_output: Option<usize>,
}

impl View for State {
    type V = StateView;

    closed spec fn view(&self) -> StateView {
        StateView {
            capabilities: self.capabilities,
            outputs: self.outputs@,
            phase: self.phase,
            current_pos: self.current_pos,
            current_output: self.current_output,
        }
    }
}

impl State {
    pub open spec fn wf(&self) -> bool {
        self@.wf()
    }

    /// A session before its first event.
    pub fn new() -> (state: State)
        ensures
            state@ == StateView::initial(),
            state.wf(),
    {
        State {
            capabilities: Capabilities::new(),
            outputs: OutputRegistry::new(),
            phase: Phase::Idle,
            current_pos: Point { x: 0, y: 0 },
            current_output: None,
        }
    }

    /// Enters an output whose overlay surface has been made, and returns its
    /// identifier.
    pub fn register(&mut self, handles: OutputHandles) -> (id: usize)
        requires
            old(self).wf(),
        ensures
            final(self).wf(),
            id == old(self)@.outputs.len(),
            final(self)@ == old(self)@.registered(handles),
    {
        let id: usize = self.outputs.register(handles);
        let count: usize = self.outputs.len();
        id
    }

    pub fn capabilities(&self) -> (capabilities: Capabilities)
        ensures
            capabilities == self@.capabilities,
    {
        self.capabilities
    }

    pub fn outputs(&self) -> (outputs: &OutputRegistry)
        ensures
            outputs@ == self@.outputs,
    {
        &self.outputs
    }

    pub fn phase(&self) -> (phase: Phase)
        ensures
            phase == self@.phase,
    {
        self.phase
    }

    pub fn current_pos(&self) -> (position: Point)
        ensures
            position == self@.current_pos,
    {
        self.current_pos
    }

    pub fn current_output(&self) -> (output: Option<usize>)
        ensures
            output == self@.current_output,
    {
        self.current_output
    }

    /// Whether the session still takes events.
    pub fn running(&self) -> (running: bool)
        ensures
            running == !self@.phase.is_terminal(),
    {
        !self.phase.finished()
    }

    /// The status with which the process ends, once the session has.
    pub fn exit_code(&self) -> (code: Option<i32>)
        ensures
            code == self@.phase.exit_status(),
    {
        self.phase.exit_code()
    }

    fn end(&mut self, phase: Phase) -> (result: Result<Action, Error>)
        requires
            old(self).wf(),
        ensures
            final(self).wf(),
            final(self)@ == old(self)@.move_to(phase).state,
            result == old(self)@.move_to(phase).result,
    {
        let was_running: bool = !self.phase.finished();
        self.phase = phase;
        if was_running {
            match phase {
                Phase::Committed { selection } => Ok(
                    Action::Exit {
                        code: EXIT_COMMITTED,
                        selection: Some(selection),
                    },
                ),
                Phase::Cancelled => Ok(
                    Action::Exit { code: EXIT_CANCELLED, selection: None },
                ),
                _ => Ok(Action::Nothing),
            }
        } else {
            Ok(Action::Nothing)
        }
    }

    /// A global was advertised or withdrawn.
    pub fn registry_event(&mut self, event: RegistryEvent) -> (result: Result<Action, Error>)
        requires
            old(self).wf(),
        ensures
            final(self).wf(),
            final(self)@ == old(self)@.registry_step(event).state,
            result == old(self)@.registry_step(event).result,
    {
        if self.phase.finished() {
            return Ok(Action::Nothing);
        }
        match event {
            RegistryEvent::Global { kind: GlobalKind::Other } => Ok(Action::Nothing),
            RegistryEvent::Global { kind: GlobalKind::Output } => {
                if self.capabilities.hosts_outputs() {
                    Ok(Action::CreateOverlay { config: overlay_config() })
                } else {
                    Err(Error::MissingCapability)
                }
            },
            RegistryEvent::Global { kind } => {
                self.capabilities.bind(kind);
                Ok(Action::Bind { kind })
            },
            RegistryEvent::GlobalRemove => Ok(Action::Nothing),
        }
    }

    /// The pointer entered or left a surface, moved, or had a button pressed
    /// or released.
    pub fn pointer_event(&mut self, event: PointerEvent) -> (result: Result<Action, Error>)
        requires
            old(self).wf(),
        ensures
            final(self).wf(),
            final(self)@ == old(self)@.pointer_step(event).state,
            result == old(self)@.pointer_step(event).result,
    {
        if self.phase.finished() {
            return Ok(Action::Nothing);
        }
        match event {
            PointerEvent::Enter { surface, position } => {
                proof {
                    lemma_find_is_first(self.outputs@, HandleKind::Surface, surface);
                }
                match self.outputs.find_by_surface(surface) {
                    Some(index) => {
                        let output: Output = self.outputs.get(index);
                        self.current_output = Some(index);
                        self.current_pos = to_global(output.logical_pos, position);
                        Ok(Action::RepaintAll)
                    },
                    None => Err(Error::UnknownSurface),
                }
            },
            PointerEvent::Leave => {
                self.current_output = None;
                Ok(Action::Nothing)
            },
            PointerEvent::Motion { position } => {
                match self.current_output {
                    Some(index) => {
                        let output: Output = self.outputs.get(index);
                        self.current_pos = to_global(output.logical_pos, position);
                        match self.phase {
                            Phase::Dragging { .. } => Ok(Action::Repaint { output: index }),
                            _ => Ok(Action::Nothing),
                        }
                    },
                    None => Ok(Action::Nothing),
                }
            },
            PointerEvent::Button { button, state } => {
                if button == BUTTON_PRIMARY {
                    match state {
                        ButtonState::Pressed => {
                            let next: Phase = self.phase.press(self.current_pos);
                            self.end(next)
                        },
                        ButtonState::Released => {
                            let next: Phase = self.phase.release(self.current_pos);
                            self.end(next)
                        },
                    }
                } else if button == BUTTON_SECONDARY {
                    match state {
                        ButtonState::Pressed => {
                            let next: Phase = self.phase.cancel();
                            self.end(next)
                        },
                        ButtonState::Released => Ok(Action::Nothing),
                    }
                } else {
                    Ok(Action::Nothing)
                }
            },
            PointerEvent::Other => Ok(Action::Nothing),
        }
    }

    /// A key went down or up.
    pub fn keyboard_event(&mut self, event: KeyboardEvent) -> (result: Result<Action, Error>)
        requires
            old(self).wf(),
        ensures
            final(self).wf(),
            final(self)@ == old(self)@.keyboard_step(event).state,
            result == old(self)@.keyboard_step(event).result,
    {
        if self.phase.finished() {
            return Ok(Action::Nothing);
        }
        match event {
            KeyboardEvent::Key { key, state: KeyState::Pressed } => {
                if key == KEY_ESCAPE {
                    let next: Phase = self.phase.cancel();
                    self.end(next)
                } else {
                    Ok(Action::Nothing)
                }
            },
            _ => Ok(Action::Nothing),
        }
    }

    /// An overlay surface was given its size, or was closed.
    pub fn layer_surface_event(&mut self, event: LayerSurfaceEvent) -> (result: Result<
        Action,
        Error,
    >)
        requires
            old(self).wf(),
        ensures
            final(self).wf(),
            final(self)@ == old(self)@.layer_surface_step(event).state,
            result == old(self)@.layer_surface_step(event).result,
    {
        if self.phase.finished() {
            return Ok(Action::Nothing);
        }
        match event {
            LayerSurfaceEvent::Configure { layer_surface, width, height, stride } => {
                proof {
                    lemma_find_is_first(self.outputs@, HandleKind::LayerSurface, layer_surface);
                }
                match self.outputs.find_by_layer_surface(layer_surface) {
                    Some(index) => {
                        match self.outputs.ensure_buffer(index, width, height, stride) {
                            Ok(BufferAction::Reuse(_)) => {
                                assert(self.outputs@ =~= old(self).outputs@);
                                Ok(Action::Repaint { output: index })
                            },
                            Ok(BufferAction::Allocate(buffer)) => Ok(
                                Action::Allocate { output: index, buffer },
                            ),
                            Err(error) => Err(error),
                        }
                    },
                    None => Err(Error::UnknownLayerSurface),
                }
            },
            LayerSurfaceEvent::Closed => {
                let next: Phase = self.phase.cancel();
                self.end(next)
            },
        }
    }

    /// An output reported its mode.
    pub fn output_event(&mut self, event: OutputEvent) -> (result: Result<Action, Error>)
        requires
            old(self).wf(),
        ensures
            final(self).wf(),
            final(self)@ == old(self)@.output_step(event).state,
            result == old(self)@.output_step(event).result,
    {
        if self.phase.finished() {
            return Ok(Action::Nothing);
        }
        match event {
            OutputEvent::Mode { output, width, height } => {
                proof {
                    lemma_find_is_first(self.outputs@, HandleKind::Output, output);
                }
                match self.outputs.find_by_output(output) {
                    Some(index) => {
                        self.outputs.update_size(index, Size { width, height });
                        Ok(Action::Nothing)
                    },
                    None => Err(Error::UnknownOutput),
                }
            },
            OutputEvent::Other => Ok(Action::Nothing),
        }
    }

    /// The description of an output reported where the output lies.
    pub fn xdg_output_event(&mut self, event: XdgOutputEvent) -> (result: Result<Action, Error>)
        requires
            old(self).wf(),
        ensures
            final(self).wf(),
            final(self)@ == old(self)@.xdg_output_step(event).state,
            result == old(self)@.xdg_output_step(event).result,
    {
        if self.phase.finished() {
            return Ok(Action::Nothing);
        }
        match event {
            XdgOutputEvent::LogicalPosition { xdg_output, x, y } => {
                proof {
                    lemma_find_is_first(self.outputs@, HandleKind::XdgOutput, xdg_output);
                }
                match self.outputs.find_by_xdg_output(xdg_output) {
                    Some(index) => {
                        self.outputs.update_geometry(index, Origin { x, y });
                        Ok(Action::Nothing)
                    },
                    None => Err(Error::UnknownXdgOutput),
                }
            },
            XdgOutputEvent::Other => Ok(Action::Nothing),
        }
    }

    /// Takes one event of any kind.
    pub fn event(&mut self, event: Event) -> (result: Result<Action, Error>)
        requires
            old(self).wf(),
        ensures
            final(self).wf(),
            final(self)@ == old(self)@.step(event).state,
            result == old(self)@.step(event).result,
    {
        match event {
            Event::Registry(e) => self.registry_event(e),
            Event::Pointer(e) => self.pointer_event(e),
            Event::Keyboard(e) => self.keyboard_event(e),
            Event::LayerSurface(e) => self.layer_surface_event(e),
            Event::Output(e) => self.output_event(e),
            Event::XdgOutput(e) => self.xdg_output_event(e),
        }
    }
}

} // verus!
