use rust_slurp::geometry::{
    get_selection_box, rect_to_local, to_global, to_local, LocalPoint, LocalRect, Origin, Point,
    Rect, SurfacePos, UNITS_PER_PIXEL,
};

fn px(pixels: i64) -> i64 {
    pixels * UNITS_PER_PIXEL
}

#[test]
fn selection_box_from_top_left_to_bottom_right() {
    let selection = get_selection_box(Point { x: px(10), y: px(10) }, Point { x: px(50), y: px(40) });
    assert_eq!(selection, Rect { x: 2560, y: 2560, width: 10240, height: 7680 });
}

#[test]
fn selection_box_is_the_same_from_any_pair_of_opposite_corners() {
    let expected = Rect { x: px(10), y: px(10), width: 40 * 256, height: 30 * 256 };
    let corners = [
        (Point { x: px(10), y: px(10) }, Point { x: px(50), y: px(40) }),
        (Point { x: px(50), y: px(40) }, Point { x: px(10), y: px(10) }),
        (Point { x: px(10), y: px(40) }, Point { x: px(50), y: px(10) }),
        (Point { x: px(50), y: px(10) }, Point { x: px(10), y: px(40) }),
    ];
    for (a, b) in corners {
        assert_eq!(get_selection_box(a, b), expected);
    }
}

#[test]
fn selection_box_of_one_point_is_empty() {
    let p = Point { x: -300, y: 77 };
    assert_eq!(get_selection_box(p, p), Rect { x: -300, y: 77, width: 0, height: 0 });
}

#[test]
fn selection_box_across_negative_coordinates() {
    let selection = get_selection_box(Point { x: px(-20), y: px(5) }, Point { x: px(30), y: px(-15) });
    assert_eq!(selection, Rect { x: px(-20), y: px(-15), width: 50 * 256, height: 20 * 256 });
}

#[test]
fn selection_box_keeps_fractions_of_a_pixel() {
    let selection = get_selection_box(Point { x: 128, y: 64 }, Point { x: 513, y: 1 });
    assert_eq!(selection, Rect { x: 128, y: 1, width: 385, height: 63 });
}

#[test]
fn selection_box_at_the_limits_of_the_coordinates() {
    let selection = get_selection_box(
        Point { x: i64::MIN, y: i64::MAX },
        Point { x: i64::MAX, y: i64::MIN },
    );
    assert_eq!(selection, Rect { x: i64::MIN, y: i64::MIN, width: u64::MAX, height: u64::MAX });
}

#[test]
fn to_global_adds_the_origin_in_units() {
    let origin = Origin { x: 1920, y: 0 };
    let global = to_global(origin, SurfacePos { x: 5 * 256, y: 5 * 256 });
    assert_eq!(global, Point { x: 1925 * 256, y: 5 * 256 });
}

#[test]
fn to_global_with_negative_origin_and_fraction() {
    let origin = Origin { x: -1280, y: -720 };
    let global = to_global(origin, SurfacePos { x: 640, y: 1 });
    assert_eq!(global, Point { x: -1280 * 256 + 640, y: -720 * 256 + 1 });
}

#[test]
fn to_global_at_the_limits_of_its_inputs() {
    let low = to_global(Origin { x: i32::MIN, y: i32::MIN }, SurfacePos { x: i32::MIN, y: i32::MIN });
    assert_eq!(low.x, -549_755_813_888 - 2_147_483_648);
    assert_eq!(low.y, low.x);
    let high = to_global(Origin { x: i32::MAX, y: i32::MAX }, SurfacePos { x: i32::MAX, y: i32::MAX });
    assert_eq!(high.x, 2_147_483_647 * 256 + 2_147_483_647);
    assert_eq!(high.y, high.x);
}

#[test]
fn to_local_subtracts_the_origin_in_units() {
    let local = to_local(Origin { x: 1920, y: 100 }, Point { x: 1925 * 256, y: 5 * 256 });
    assert_eq!(local, LocalPoint { x: 5 * 256, y: -95 * 256 });
}

#[test]
fn to_local_at_the_limits_of_its_inputs() {
    let local = to_local(Origin { x: i32::MAX, y: i32::MIN }, Point { x: i64::MIN, y: i64::MAX });
    assert_eq!(local.x, i64::MIN as i128 - (i32::MAX as i128) * 256);
    assert_eq!(local.y, i64::MAX as i128 + 2_147_483_648i128 * 256);
}

#[test]
fn to_global_then_to_local_is_the_identity() {
    let origins = [
        Origin { x: 0, y: 0 },
        Origin { x: 1920, y: 0 },
        Origin { x: -2560, y: 1440 },
        Origin { x: i32::MIN, y: i32::MAX },
    ];
    let positions = [
        SurfacePos { x: 0, y: 0 },
        SurfacePos { x: 1280, y: 1280 },
        SurfacePos { x: -1, y: 255 },
        SurfacePos { x: i32::MAX, y: i32::MIN },
    ];
    for origin in origins {
        for position in positions {
            let back = to_local(origin, to_global(origin, position));
            assert_eq!(back, LocalPoint { x: position.x as i128, y: position.y as i128 });
        }
    }
}

#[test]
fn rect_to_local_moves_the_corner_and_keeps_the_extent() {
    let rect = Rect { x: px(1930), y: px(10), width: 40 * 256, height: 30 * 256 };
    let local = rect_to_local(Origin { x: 1920, y: 0 }, rect);
    assert_eq!(local, LocalRect { x: 2560, y: 2560, width: 10240, height: 7680 });
    let elsewhere = rect_to_local(Origin { x: 0, y: 0 }, rect);
    assert_eq!(elsewhere, LocalRect { x: 1930 * 256, y: 2560, width: 10240, height: 7680 });
}
