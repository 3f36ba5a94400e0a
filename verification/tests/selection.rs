use rust_slurp::geometry::{Point, Rect};
use rust_slurp::selection::{
    Phase, BUTTON_PRIMARY, BUTTON_SECONDARY, COMMIT_THRESHOLD, EXIT_CANCELLED, EXIT_COMMITTED,
    KEY_ESCAPE,
};

const ANCHOR: Point = Point { x: 2560, y: 2560 };

#[test]
fn codes_of_buttons_keys_and_exits() {
    assert_eq!(BUTTON_PRIMARY, 272);
    assert_eq!(BUTTON_SECONDARY, 273);
    assert_eq!(KEY_ESCAPE, 1);
    assert_eq!(COMMIT_THRESHOLD, 256);
    assert_eq!(EXIT_COMMITTED, 0);
    assert_eq!(EXIT_CANCELLED, 1);
}

#[test]
fn press_starts_a_drag_at_the_cursor() {
    assert_eq!(Phase::Idle.press(ANCHOR), Phase::Dragging { anchor: ANCHOR });
}

#[test]
fn press_during_a_drag_anchors_anew() {
    let dragging = Phase::Dragging { anchor: ANCHOR };
    let moved = Point { x: 7, y: 9 };
    assert_eq!(dragging.press(moved), Phase::Dragging { anchor: moved });
}

#[test]
fn release_without_a_drag_means_nothing() {
    assert_eq!(Phase::Idle.release(ANCHOR), Phase::Idle);
}

#[test]
fn release_commits_a_rectangle_larger_than_a_pixel() {
    let dragging = Phase::Dragging { anchor: ANCHOR };
    let released = dragging.release(Point { x: 50 * 256, y: 40 * 256 });
    assert_eq!(
        released,
        Phase::Committed { selection: Rect { x: 2560, y: 2560, width: 10240, height: 7680 } }
    );
    assert_eq!(released.exit_code(), Some(0));
}

#[test]
fn release_commits_just_above_the_threshold() {
    let dragging = Phase::Dragging { anchor: ANCHOR };
    let released = dragging.release(Point { x: 2560 + 257, y: 2560 - 257 });
    assert_eq!(
        released,
        Phase::Committed { selection: Rect { x: 2560, y: 2560 - 257, width: 257, height: 257 } }
    );
}

#[test]
fn release_cancels_at_exactly_one_pixel_wide() {
    let dragging = Phase::Dragging { anchor: ANCHOR };
    let released = dragging.release(Point { x: 2560 + 256, y: 2560 + 5000 });
    assert_eq!(released, Phase::Cancelled);
    assert_eq!(released.exit_code(), Some(1));
}

#[test]
fn release_cancels_at_exactly_one_pixel_high() {
    let dragging = Phase::Dragging { anchor: ANCHOR };
    assert_eq!(dragging.release(Point { x: 2560 + 5000, y: 2560 - 256 }), Phase::Cancelled);
}

#[test]
fn release_cancels_a_click() {
    let dragging = Phase::Dragging { anchor: ANCHOR };
    assert_eq!(dragging.release(ANCHOR), Phase::Cancelled);
}

#[test]
fn release_cancels_a_wide_but_flat_drag() {
    let dragging = Phase::Dragging { anchor: ANCHOR };
    assert_eq!(dragging.release(Point { x: 2560 + 100_000, y: 2560 }), Phase::Cancelled);
}

#[test]
fn cancel_ends_idle_and_dragging() {
    assert_eq!(Phase::Idle.cancel(), Phase::Cancelled);
    assert_eq!(Phase::Dragging { anchor: ANCHOR }.cancel(), Phase::Cancelled);
}

#[test]
fn ended_phases_are_never_left() {
    let committed = Phase::Committed { selection: Rect { x: 0, y: 0, width: 512, height: 512 } };
    for phase in [committed, Phase::Cancelled] {
        assert!(phase.finished());
        assert_eq!(phase.press(ANCHOR), phase);
        assert_eq!(phase.release(ANCHOR), phase);
        assert_eq!(phase.cancel(), phase);
    }
}

#[test]
fn running_phases_have_no_exit_code() {
    assert!(!Phase::Idle.finished());
    assert!(!Phase::Dragging { anchor: ANCHOR }.finished());
    assert_eq!(Phase::Idle.exit_code(), None);
    assert_eq!(Phase::Dragging { anchor: ANCHOR }.exit_code(), None);
}

#[test]
fn the_live_selection_follows_the_cursor() {
    let dragging = Phase::Dragging { anchor: ANCHOR };
    assert_eq!(
        dragging.current_selection(Point { x: 256, y: 5120 }),
        Some(Rect { x: 256, y: 2560, width: 2304, height: 2560 })
    );
    assert_eq!(Phase::Idle.current_selection(ANCHOR), None);
    assert_eq!(Phase::Cancelled.current_selection(ANCHOR), None);
    let committed = Phase::Committed { selection: Rect { x: 0, y: 0, width: 512, height: 512 } };
    assert_eq!(committed.current_selection(ANCHOR), None);
}
