//! What holds of every session, whatever events it is given.

use vstd::prelude::*;
use crate::error::Error;
use crate::geometry::{normalize, to_global_spec, SurfacePos};
use crate::paint::frame_of;
use crate::registry::{find, find_from, lemma_find_is_first, HandleKind, OutputHandles};
use crate::selection::{
    large_enough,
    Phase,
    BUTTON_PRIMARY,
    BUTTON_SECONDARY,
    EXIT_CANCELLED,
    EXIT_COMMITTED,
    KEY_ESCAPE,
};
use crate::state::{
    Action,
    ButtonState,
    Event,
    KeyState,
    KeyboardEvent,
    LayerSurfaceEvent,
    OutputEvent,
    PointerEvent,
    StateView,
    XdgOutputEvent,
};

verus! {

/// Whatever handle is looked up, what is found is an output that exists.
proof fn lemma_lookups_in_range(state: StateView)
    requires
        state.wf(),
    ensures
        forall|kind: HandleKind, handle: u32| #[trigger]
            find(state.outputs, kind, handle) matches Some(i) ==> i < state.outputs.len(),
{
    assert forall|kind: HandleKind, handle: u32|
        (#[trigger] find(state.outputs, kind, handle) matches Some(i) ==> i
            < state.outputs.len()) by {
        lemma_find_is_first(state.outputs, kind, handle);
    }
}

/// No event breaks the session: the pointer stays on an output that exists,
/// and every buffer keeps holding its rows.
pub proof fn lemma_step_preserves_wf(state: StateView, event: Event)
    requires
        state.wf(),
    ensures
        state.step(event).state.wf(),
{
    lemma_lookups_in_range(state);
}

/// Registering an output keeps the session well formed, as long as the
/// outputs can still be counted.
pub proof fn lemma_register_preserves_wf(state: StateView, handles: OutputHandles)
    requires
        state.wf(),
        state.outputs.len() < usize::MAX,
    ensures
        state.registered(handles).wf(),
{
}

/// Outputs are never removed and never change their objects: an event leaves
/// their number as it is, and each keeps its handles.
pub proof fn lemma_outputs_stay(state: StateView, event: Event)
    requires
        state.wf(),
    ensures
        state.step(event).state.outputs.len() == state.outputs.len(),
        forall|i: int|
            0 <= i < state.outputs.len() ==> (#[trigger] state.step(event).state.outputs[i]).handles
                == state.outputs[i].handles,
{
    lemma_lookups_in_range(state);
}

/// Once a session has ended, no event changes it or asks for anything.
pub proof fn lemma_ended_session_is_frozen(state: StateView, event: Event)
    requires
        state.phase.is_terminal(),
    ensures
        state.step(event) == state.stay(),
{
}

/// A refused event leaves the session as it was.
pub proof fn lemma_refusal_changes_nothing(state: StateView, event: Event)
    requires
        state.step(event).result is Err,
    ensures
        state.step(event).state == state,
{
}

/// The caller is told to end the process exactly when the session ends, with
/// status 0 and the selection if it was committed, and with status 1 and
/// nothing to print if it was cancelled.
pub proof fn lemma_exit_iff_session_ends(state: StateView, event: Event)
    ensures
        state.step(event).result matches Ok(Action::Exit { .. }) <==> !state.phase.is_terminal()
            && state.step(event).state.phase.is_terminal(),
        state.step(event).result matches Ok(Action::Exit { code, selection }) ==> {
            &&& Some(code) == state.step(event).state.phase.exit_status()
            &&& match state.step(event).state.phase {
                Phase::Committed { selection: committed } => code == EXIT_COMMITTED && selection
                    == Some(committed),
                _ => code == EXIT_CANCELLED && selection is None,
            }
        },
{
}

/// Only the release of the primary button during a drag commits, and what it
/// commits is the rectangle between the anchor and the cursor, more than one
/// pixel wide and high.
pub proof fn lemma_commit_only_by_release(state: StateView, event: Event)
    requires
        !state.phase.is_terminal(),
        state.step(event).state.phase is Committed,
    ensures
        event == Event::Pointer(
            PointerEvent::Button { button: BUTTON_PRIMARY, state: ButtonState::Released },
        ),
        state.phase matches Phase::Dragging { anchor } && state.step(event).state.phase == (
        Phase::Committed { selection: normalize(anchor, state.current_pos) }) && large_enough(
            normalize(anchor, state.current_pos),
        ),
{
}

/// A release that leaves a rectangle at most one pixel wide or at most one
/// pixel high cancels the session: status 1, nothing to print.
pub proof fn lemma_small_drag_cancels(state: StateView)
    requires
        state.phase matches Phase::Dragging { anchor } && (normalize(
            anchor,
            state.current_pos,
        ).width <= 256 || normalize(anchor, state.current_pos).height <= 256),
    ensures
        state.pointer_step(
            PointerEvent::Button { button: BUTTON_PRIMARY, state: ButtonState::Released },
        ).state.phase == Phase::Cancelled,
        state.pointer_step(
            PointerEvent::Button { button: BUTTON_PRIMARY, state: ButtonState::Released },
        ).result == Ok::<Action, Error>(Action::Exit { code: EXIT_CANCELLED, selection: None }),
{
}

/// A press of the primary button at the cursor starts a drag there, and a
/// release without any motion in between cancels the session.
pub proof fn lemma_click_cancels(state: StateView)
    requires
        !state.phase.is_terminal(),
    ensures
        ({
            let pressed = state.pointer_step(
                PointerEvent::Button { button: BUTTON_PRIMARY, state: ButtonState::Pressed },
            );
            let released = pressed.state.pointer_step(
                PointerEvent::Button { button: BUTTON_PRIMARY, state: ButtonState::Released },
            );
            &&& pressed.state.phase == (Phase::Dragging { anchor: state.current_pos })
            &&& pressed.result == Ok::<Action, Error>(Action::Nothing)
            &&& released.state.phase == Phase::Cancelled
            &&& released.result == Ok::<Action, Error>(
                Action::Exit { code: EXIT_CANCELLED, selection: None },
            )
        }),
{
}

/// In a running session, a press of the secondary button, a press of Escape
/// and the closing of a surface each cancel: status 1, nothing to print.
pub proof fn lemma_cancel_paths(state: StateView, event: Event)
    requires
        !state.phase.is_terminal(),
        event == Event::Pointer(
            PointerEvent::Button { button: BUTTON_SECONDARY, state: ButtonState::Pressed },
        ) || event == Event::Keyboard(
            KeyboardEvent::Key { key: KEY_ESCAPE, state: KeyState::Pressed },
        ) || event == Event::LayerSurface(LayerSurfaceEvent::Closed),
    ensures
        state.step(event).state == (StateView { phase: Phase::Cancelled, ..state }),
        state.step(event).result == Ok::<Action, Error>(
            Action::Exit { code: EXIT_CANCELLED, selection: None },
        ),
{
}

/// Entering the surface of an output puts the pointer on that output and the
/// cursor at the output's origin plus the position on the surface.
pub proof fn lemma_enter_resolves_cursor(
    state: StateView,
    surface: u32,
    position: SurfacePos,
    output: usize,
)
    requires
        !state.phase.is_terminal(),
        find(state.outputs, HandleKind::Surface, surface) == Some(output),
    ensures
        ({
            let entered = state.pointer_step(PointerEvent::Enter { surface, position }).state;
            &&& entered.current_output == Some(output)
            &&& entered.current_pos == to_global_spec(
                state.outputs[output as int].logical_pos,
                position,
            )
            &&& entered.current_pos.x == state.outputs[output as int].logical_pos.x * 256
                + position.x
            &&& entered.current_pos.y == state.outputs[output as int].logical_pos.y * 256
                + position.y
            &&& entered.phase == state.phase
        }),
{
}

/// The pointer leaving the overlay does not cancel a drag: the phase and the
/// cursor stay, and motion that is reported while the pointer is on no
/// output changes nothing.
pub proof fn lemma_leave_keeps_drag(state: StateView, position: SurfacePos)
    requires
        !state.phase.is_terminal(),
    ensures
        ({
            let left = state.pointer_step(PointerEvent::Leave);
            &&& left.state == (StateView { current_output: None, ..state })
            &&& left.result == Ok::<Action, Error>(Action::Nothing)
            &&& left.state.pointer_step(PointerEvent::Motion { position }) == left.state.stay()
        }),
{
}

/// Motion asks for a repaint only during a drag, and then of the output that
/// the pointer is on.
pub proof fn lemma_motion_repaints_while_dragging(state: StateView, position: SurfacePos)
    requires
        !state.phase.is_terminal(),
    ensures
        state.pointer_step(PointerEvent::Motion { position }).result == Ok::<Action, Error>(
            if state.phase is Dragging && state.current_output is Some {
                Action::Repaint { output: state.current_output->0 }
            } else {
                Action::Nothing
            },
        ),
        state.pointer_step(PointerEvent::Motion { position }).state.phase == state.phase,
{
}

/// A configure event that repeats the size of the one before maps no memory:
/// the output goes on with the buffer it has and is only painted again.
pub proof fn lemma_same_size_configure_reuses(
    state: StateView,
    layer_surface: u32,
    width: u32,
    height: u32,
    first_stride: Option<i32>,
    second_stride: Option<i32>,
)
    requires
        state.wf(),
        !state.phase.is_terminal(),
        state.layer_surface_step(
            LayerSurfaceEvent::Configure { layer_surface, width, height, stride: first_stride },
        ).result is Ok,
    ensures
        ({
            let first = state.layer_surface_step(
                LayerSurfaceEvent::Configure { layer_surface, width, height, stride: first_stride },
            );
            let second = first.state.layer_surface_step(
                LayerSurfaceEvent::Configure {
                    layer_surface,
                    width,
                    height,
                    stride: second_stride,
                },
            );
            &&& find(state.outputs, HandleKind::LayerSurface, layer_surface) matches Some(output)
                && second.result == Ok::<Action, Error>(Action::Repaint { output })
            &&& second.state == first.state
        }),
{
    lemma_find_is_first(state.outputs, HandleKind::LayerSurface, layer_surface);
    let first = state.layer_surface_step(
        LayerSurfaceEvent::Configure { layer_surface, width, height, stride: first_stride },
    );
    let output = find(state.outputs, HandleKind::LayerSurface, layer_surface)->0;
    lemma_find_unchanged_by_buffers(state, first.state, layer_surface);
}

/// Looking up a layer surface gives the same output in two sessions whose
/// outputs have the same handles.
proof fn lemma_find_unchanged_by_buffers(before: StateView, after: StateView, layer_surface: u32)
    requires
        before.outputs.len() == after.outputs.len(),
        forall|i: int|
            0 <= i < before.outputs.len() ==> (#[trigger] after.outputs[i]).handles
                == before.outputs[i].handles,
    ensures
        find(after.outputs, HandleKind::LayerSurface, layer_surface) == find(
            before.outputs,
            HandleKind::LayerSurface,
            layer_surface,
        ),
{
    lemma_find_from_same_handles(before, after, layer_surface, 0);
}

proof fn lemma_find_from_same_handles(
    before: StateView,
    after: StateView,
    layer_surface: u32,
    start: int,
)
    requires
        0 <= start,
        before.outputs.len() == after.outputs.len(),
        forall|i: int|
            0 <= i < before.outputs.len() ==> (#[trigger] after.outputs[i]).handles
                == before.outputs[i].handles,
    ensures
        find_from(after.outputs, HandleKind::LayerSurface, layer_surface, start)
            == find_from(
            before.outputs,
            HandleKind::LayerSurface,
            layer_surface,
            start,
        ),
    decreases before.outputs.len() - start,
{
    if start < before.outputs.len() {
        assert(after.outputs[start].handles == before.outputs[start].handles);
        lemma_find_from_same_handles(before, after, layer_surface, start + 1);
    }
}

/// A configure event with another size than the output's buffer has gives
/// the output a new buffer of that size, whose region holds exactly its
/// rows, and asks the caller to map it; the other outputs keep what they
/// had.
pub proof fn lemma_new_size_configure_allocates(
    state: StateView,
    layer_surface: u32,
    width: u32,
    height: u32,
    stride: Option<i32>,
    output: usize,
)
    requires
        state.wf(),
        !state.phase.is_terminal(),
        find(state.outputs, HandleKind::LayerSurface, layer_surface) == Some(output),
        !(state.outputs[output as int].buffer matches Some(b) && b.has_size(width, height)),
        state.layer_surface_step(
            LayerSurfaceEvent::Configure { layer_surface, width, height, stride },
        ).result is Ok,
    ensures
        ({
            let configured = state.layer_surface_step(
                LayerSurfaceEvent::Configure { layer_surface, width, height, stride },
            );
            &&& configured.result matches Ok(Action::Allocate { output: o, buffer }) && o == output
                && buffer.has_size(width, height) && buffer.wf() && Some(buffer.stride) == stride
                && configured.state.outputs[output as int].buffer == Some(buffer)
            &&& forall|i: int|
                0 <= i < state.outputs.len() && i != output
                    ==> #[trigger] configured.state.outputs[i] == state.outputs[i]
        }),
{
    lemma_find_is_first(state.outputs, HandleKind::LayerSurface, layer_surface);
}

/// Whatever output the engine asks to have painted or mapped exists.
pub proof fn lemma_paint_target_exists(state: StateView, event: Event)
    requires
        state.wf(),
    ensures
        state.step(event).result matches Ok(Action::Repaint { output }) ==> output
            < state.outputs.len(),
        state.step(event).result matches Ok(Action::Allocate { output, .. }) ==> output
            < state.outputs.len(),
{
    lemma_lookups_in_range(state);
}

/// After a configure event that was not refused there is a frame for the
/// output, over a buffer of the configured size.
pub proof fn lemma_configured_output_has_frame(
    state: StateView,
    layer_surface: u32,
    width: u32,
    height: u32,
    stride: Option<i32>,
)
    requires
        state.wf(),
        !state.phase.is_terminal(),
        state.layer_surface_step(
            LayerSurfaceEvent::Configure { layer_surface, width, height, stride },
        ).result is Ok,
    ensures
        ({
            let configured = state.layer_surface_step(
                LayerSurfaceEvent::Configure { layer_surface, width, height, stride },
            );
            &&& find(state.outputs, HandleKind::LayerSurface, layer_surface) matches Some(output)
                && frame_of(configured.state, output as int) matches Some(frame)
                && frame.buffer.has_size(width, height) && frame.buffer.wf()
            &&& configured.result matches Ok(Action::Allocate { buffer, .. }) ==> find(
                state.outputs,
                HandleKind::LayerSurface,
                layer_surface,
            ) matches Some(output) && frame_of(configured.state, output as int)->0.buffer
                == buffer
        }),
{
    lemma_find_is_first(state.outputs, HandleKind::LayerSurface, layer_surface);
}

/// Events that describe an output leave the selection and the cursor alone.
pub proof fn lemma_geometry_keeps_selection(state: StateView, event: Event)
    requires
        event is Output || event is XdgOutput || event is Registry,
    ensures
        state.step(event).state.phase == state.phase,
        state.step(event).state.current_pos == state.current_pos,
        state.step(event).state.current_output == state.current_output,
{
}

/// The session after a series of events, refused ones included.
pub open spec fn run(state: StateView, events: Seq<Event>) -> StateView
    decreases events.len(),
{
    if events.len() == 0 {
        state
    } else {
        run(state, events.drop_last()).step(events.last()).state
    }
}

/// The answer to the event at position `at` of a series.
pub open spec fn answer(state: StateView, events: Seq<Event>, at: int) -> Result<Action, Error> {
    run(state, events.take(at)).step(events[at]).result
}

/// No series of events breaks the session.
pub proof fn lemma_run_preserves_wf(state: StateView, events: Seq<Event>)
    requires
        state.wf(),
    ensures
        run(state, events).wf(),
    decreases events.len(),
{
    if events.len() > 0 {
        lemma_run_preserves_wf(state, events.drop_last());
        lemma_step_preserves_wf(run(state, events.drop_last()), events.last());
    }
}

/// A session that has ended is the same after any series of events.
pub proof fn lemma_run_after_end(state: StateView, events: Seq<Event>)
    requires
        state.phase.is_terminal(),
    ensures
        run(state, events) == state,
    decreases events.len(),
{
    if events.len() > 0 {
        lemma_run_after_end(state, events.drop_last());
    }
}

/// A session ends at most once: after the event that is answered with the
/// request to exit, every event is answered with nothing to do, so at most
/// one selection is ever printed.
pub proof fn lemma_exit_at_most_once(state: StateView, events: Seq<Event>, first: int, later: int)
    requires
        0 <= first < later < events.len(),
        answer(state, events, first) matches Ok(Action::Exit { .. }),
    ensures
        answer(state, events, later) == Ok::<Action, Error>(Action::Nothing),
        run(state, events) == run(state, events.take(first + 1)),
{
    let before = run(state, events.take(first));
    lemma_exit_iff_session_ends(before, events[first]);
    let ended = events.take(first + 1);
    assert(ended.drop_last() =~= events.take(first));
    assert(ended.last() == events[first]);
    assert(run(state, ended).phase.is_terminal());
    lemma_run_from(state, events.take(later), first + 1);
    assert(events.take(later).take(first + 1) =~= ended);
    lemma_run_after_end(run(state, ended), events.take(later).skip(first + 1));
    lemma_run_from(state, events, first + 1);
    assert(events.take(first + 1) =~= ended);
    lemma_run_after_end(run(state, ended), events.skip(first + 1));
}

/// Running a series is running its start and then the rest.
proof fn lemma_run_from(state: StateView, events: Seq<Event>, middle: int)
    requires
        0 <= middle <= events.len(),
    ensures
        run(state, events) == run(run(state, events.take(middle)), events.skip(middle)),
    decreases events.len(),
{
    if middle == events.len() {
        assert(events.take(middle) =~= events);
        assert(events.skip(middle) =~= Seq::<Event>::empty());
    } else {
        lemma_run_from(state, events.drop_last(), middle);
        assert(events.drop_last().take(middle) =~= events.take(middle));
        assert(events.drop_last().skip(middle) =~= events.skip(middle).drop_last());
        assert(events.skip(middle).last() == events.last());
    }
}

} // verus!
