use rust_slurp::buffer::FrameBuffer;
use rust_slurp::geometry::{LocalPoint, LocalRect, Origin, Point, Rect, SurfacePos};
use rust_slurp::paint::{
    draw_crosshair, draw_selections, present, Color, DrawOp, Operator, PixelFormat, SurfaceRequest,
    BORDER_WIDTH, CROSSHAIR_ARM, CROSSHAIR_WIDTH,
};
use rust_slurp::registry::OutputHandles;
use rust_slurp::state::{ButtonState, LayerSurfaceEvent, PointerEvent, State, XdgOutputEvent};

const DIM: Color = Color { red: 50, green: 50, blue: 50, alpha: 40 };
const CLEAR: Color = Color { red: 0, green: 0, blue: 0, alpha: 0 };
const BORDER: Color = Color { red: 20, green: 60, blue: 100, alpha: 80 };
const WHITE: Color = Color { red: 100, green: 100, blue: 100, alpha: 100 };

fn objects_from(base: u32) -> OutputHandles {
    OutputHandles { output: base, xdg_output: base + 1, surface: base + 2, layer_surface: base + 3 }
}

fn pixel(x: i32, y: i32) -> SurfacePos {
    SurfacePos { x: x * 256, y: y * 256 }
}

fn dim() -> DrawOp {
    DrawOp::Paint { operator: Operator::Source, color: DIM }
}

fn window(rect: LocalRect) -> [DrawOp; 2] {
    [
        DrawOp::FillRect { operator: Operator::Source, color: CLEAR, rect },
        DrawOp::StrokeRect { operator: Operator::Over, color: BORDER, line_width: 2, rect },
    ]
}

fn crosshair(x: i128, y: i128) -> [DrawOp; 2] {
    [
        DrawOp::StrokeLine {
            operator: Operator::Over,
            color: WHITE,
            line_width: 1,
            from: LocalPoint { x: x - 2560, y },
            to: LocalPoint { x: x + 2560, y },
        },
        DrawOp::StrokeLine {
            operator: Operator::Over,
            color: WHITE,
            line_width: 1,
            from: LocalPoint { x, y: y - 2560 },
            to: LocalPoint { x, y: y + 2560 },
        },
    ]
}

/// Two outputs side by side, the second 1920 pixels to the right; only the
/// outputs named in `configured` have a buffer.
fn side_by_side(configured: &[u32]) -> State {
    let mut state = State::new();
    state.register(objects_from(10));
    state.register(objects_from(20));
    state.xdg_output_event(XdgOutputEvent::LogicalPosition { xdg_output: 21, x: 1920, y: 0 }).unwrap();
    for layer_surface in configured {
        state
            .layer_surface_event(LayerSurfaceEvent::Configure {
                layer_surface: *layer_surface,
                width: 1920,
                height: 1080,
                stride: Some(7680),
            })
            .unwrap();
    }
    state
}

#[test]
fn the_fixed_measures() {
    assert_eq!(CROSSHAIR_ARM, 10 * 256);
    assert_eq!(CROSSHAIR_WIDTH, 1);
    assert_eq!(BORDER_WIDTH, 2);
}

#[test]
fn an_idle_frame_is_the_dim_layer_and_the_crosshair() {
    let state = side_by_side(&[13]);
    let frame = state.draw_on_output(0).unwrap();
    let buffer = FrameBuffer { width: 1920, height: 1080, stride: 7680, size: 8_294_400 };
    assert_eq!(frame.output, 0);
    assert_eq!(frame.buffer, buffer);
    assert_eq!(frame.pool_offset, 0);
    assert_eq!(frame.format, PixelFormat::Argb8888);
    assert_eq!(
        frame.present,
        vec![
            SurfaceRequest::Attach { x: 0, y: 0 },
            SurfaceRequest::DamageBuffer { x: 0, y: 0, width: 1920, height: 1080 },
            SurfaceRequest::Commit,
            SurfaceRequest::ReleaseBuffer,
        ]
    );
    let mut expected = vec![dim()];
    expected.extend(crosshair(0, 0));
    expected.push(DrawOp::Flush);
    assert_eq!(frame.ops, expected);
}

#[test]
fn a_frame_during_a_drag_has_the_window_and_its_border() {
    let mut state = side_by_side(&[13]);
    state.pointer_event(PointerEvent::Enter { surface: 12, position: pixel(10, 10) }).unwrap();
    state.pointer_event(PointerEvent::Button { button: 272, state: ButtonState::Pressed }).unwrap();
    state.pointer_event(PointerEvent::Motion { position: pixel(50, 40) }).unwrap();
    let frame = state.draw_on_output(0).unwrap();
    let mut expected = vec![dim()];
    expected.extend(window(LocalRect { x: 2560, y: 2560, width: 10240, height: 7680 }));
    expected.extend(crosshair(50 * 256, 40 * 256));
    expected.push(DrawOp::Flush);
    assert_eq!(frame.ops, expected);
}

#[test]
fn each_output_sees_the_selection_from_its_own_origin() {
    let mut state = side_by_side(&[13, 23]);
    state.pointer_event(PointerEvent::Enter { surface: 22, position: pixel(10, 10) }).unwrap();
    state.pointer_event(PointerEvent::Button { button: 272, state: ButtonState::Pressed }).unwrap();
    state.pointer_event(PointerEvent::Motion { position: pixel(50, 40) }).unwrap();
    let frames = state.draw();
    assert_eq!(frames.len(), 2);
    assert_eq!(frames[0].output, 0);
    assert_eq!(frames[1].output, 1);

    let mut left = vec![dim()];
    left.extend(window(LocalRect { x: 1930 * 256, y: 2560, width: 10240, height: 7680 }));
    left.extend(crosshair(1970 * 256, 40 * 256));
    left.push(DrawOp::Flush);
    assert_eq!(frames[0].ops, left);

    let mut right = vec![dim()];
    right.extend(window(LocalRect { x: 2560, y: 2560, width: 10240, height: 7680 }));
    right.extend(crosshair(50 * 256, 40 * 256));
    right.push(DrawOp::Flush);
    assert_eq!(frames[1].ops, right);
}

#[test]
fn an_output_without_a_buffer_is_not_painted() {
    let state = side_by_side(&[23]);
    assert!(state.draw_on_output(0).is_none());
    assert!(state.draw_on_output(1).is_some());
    let frames = state.draw();
    assert_eq!(frames.len(), 1);
    assert_eq!(frames[0].output, 1);
    let mut expected = vec![dim()];
    expected.extend(crosshair(-1920 * 256, 0));
    expected.push(DrawOp::Flush);
    assert_eq!(frames[0].ops, expected);
}

#[test]
fn an_output_that_does_not_exist_is_not_painted() {
    let state = side_by_side(&[13, 23]);
    assert!(state.draw_on_output(2).is_none());
    assert!(state.draw_on_output(usize::MAX).is_none());
    assert!(State::new().draw().is_empty());
}

#[test]
fn after_the_release_the_window_is_gone() {
    let mut state = side_by_side(&[13]);
    state.pointer_event(PointerEvent::Enter { surface: 12, position: pixel(10, 10) }).unwrap();
    state.pointer_event(PointerEvent::Button { button: 272, state: ButtonState::Pressed }).unwrap();
    state.pointer_event(PointerEvent::Motion { position: pixel(50, 40) }).unwrap();
    state.pointer_event(PointerEvent::Button { button: 272, state: ButtonState::Released }).unwrap();
    let frame = state.draw_on_output(0).unwrap();
    let mut expected = vec![dim()];
    expected.extend(crosshair(50 * 256, 40 * 256));
    expected.push(DrawOp::Flush);
    assert_eq!(frame.ops, expected);
}

#[test]
fn the_frame_follows_a_new_buffer_size() {
    let mut state = side_by_side(&[13]);
    state
        .layer_surface_event(LayerSurfaceEvent::Configure {
            layer_surface: 13,
            width: 1280,
            height: 720,
            stride: Some(5120),
        })
        .unwrap();
    let frame = state.draw_on_output(0).unwrap();
    assert_eq!(frame.buffer, FrameBuffer { width: 1280, height: 720, stride: 5120, size: 3_686_400 });
    assert_eq!(frame.present[1], SurfaceRequest::DamageBuffer { x: 0, y: 0, width: 1280, height: 720 });
}

#[test]
fn a_buffer_is_shown_whole_at_the_origin_of_the_surface() {
    let requests = present(FrameBuffer { width: 3, height: 5, stride: 12, size: 60 });
    assert_eq!(
        requests,
        vec![
            SurfaceRequest::Attach { x: 0, y: 0 },
            SurfaceRequest::DamageBuffer { x: 0, y: 0, width: 3, height: 5 },
            SurfaceRequest::Commit,
            SurfaceRequest::ReleaseBuffer,
        ]
    );
}

#[test]
fn selections_are_drawn_in_order_after_what_is_there() {
    let mut ops = vec![dim()];
    let selections = vec![
        Rect { x: 256, y: 512, width: 768, height: 1024 },
        Rect { x: -256, y: 0, width: 1, height: 2 },
    ];
    draw_selections(&mut ops, &selections, Origin { x: 1, y: -1 });
    let mut expected = vec![dim()];
    expected.extend(window(LocalRect { x: 0, y: 768, width: 768, height: 1024 }));
    expected.extend(window(LocalRect { x: -512, y: 256, width: 1, height: 2 }));
    assert_eq!(ops, expected);
}

#[test]
fn no_selections_draw_nothing() {
    let mut ops = vec![dim()];
    draw_selections(&mut ops, &Vec::new(), Origin { x: 5, y: 5 });
    assert_eq!(ops, vec![dim()]);
}

#[test]
fn the_crosshair_is_centred_on_the_cursor() {
    let mut ops = Vec::new();
    draw_crosshair(&mut ops, Point { x: 1925 * 256 + 128, y: 5 * 256 }, Origin { x: 1920, y: 0 });
    assert_eq!(ops, crosshair(5 * 256 + 128, 5 * 256).to_vec());
}

#[test]
fn the_crosshair_fits_at_the_limits_of_the_coordinates() {
    let mut ops = Vec::new();
    draw_crosshair(&mut ops, Point { x: i64::MAX, y: i64::MIN }, Origin { x: i32::MIN, y: i32::MAX });
    let x = i64::MAX as i128 + 2_147_483_648i128 * 256;
    let y = i64::MIN as i128 - 2_147_483_647i128 * 256;
    assert_eq!(ops, crosshair(x, y).to_vec());
}
