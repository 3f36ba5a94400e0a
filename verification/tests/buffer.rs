use rust_slurp::buffer::{plan, BufferAction, FrameBuffer, BYTES_PER_PIXEL};
use rust_slurp::error::Error;

const FULL_HD: FrameBuffer = FrameBuffer { width: 1920, height: 1080, stride: 7680, size: 8_294_400 };

#[test]
fn a_pixel_has_four_bytes() {
    assert_eq!(BYTES_PER_PIXEL, 4);
}

#[test]
fn first_configure_allocates() {
    assert_eq!(plan(None, 1920, 1080, Some(7680)), Ok(BufferAction::Allocate(FULL_HD)));
}

#[test]
fn size_is_stride_times_height() {
    let action = plan(None, 1001, 3, Some(4096));
    assert_eq!(
        action,
        Ok(BufferAction::Allocate(FrameBuffer { width: 1001, height: 3, stride: 4096, size: 12288 }))
    );
}

#[test]
fn same_size_reuses_the_buffer() {
    assert_eq!(plan(Some(FULL_HD), 1920, 1080, Some(7680)), Ok(BufferAction::Reuse(FULL_HD)));
}

#[test]
fn same_size_reuses_whatever_the_stride() {
    assert_eq!(plan(Some(FULL_HD), 1920, 1080, None), Ok(BufferAction::Reuse(FULL_HD)));
    assert_eq!(plan(Some(FULL_HD), 1920, 1080, Some(1)), Ok(BufferAction::Reuse(FULL_HD)));
}

#[test]
fn another_width_allocates() {
    let action = plan(Some(FULL_HD), 1280, 1080, Some(5120));
    assert_eq!(
        action,
        Ok(BufferAction::Allocate(FrameBuffer {
            width: 1280,
            height: 1080,
            stride: 5120,
            size: 5_529_600
        }))
    );
}

#[test]
fn another_height_allocates() {
    let action = plan(Some(FULL_HD), 1920, 1200, Some(7680));
    assert_eq!(
        action,
        Ok(BufferAction::Allocate(FrameBuffer {
            width: 1920,
            height: 1200,
            stride: 7680,
            size: 9_216_000
        }))
    );
}

#[test]
fn an_empty_surface_gets_an_empty_buffer() {
    assert_eq!(
        plan(None, 0, 0, Some(0)),
        Ok(BufferAction::Allocate(FrameBuffer { width: 0, height: 0, stride: 0, size: 0 }))
    );
}

#[test]
fn width_beyond_a_buffer_is_refused() {
    assert_eq!(plan(None, 2_147_483_648, 1, Some(4)), Err(Error::DimensionTooLarge));
    assert_eq!(plan(Some(FULL_HD), u32::MAX, 1080, Some(4)), Err(Error::DimensionTooLarge));
}

#[test]
fn height_beyond_a_buffer_is_refused() {
    assert_eq!(plan(None, 1, 2_147_483_648, Some(4)), Err(Error::DimensionTooLarge));
}

#[test]
fn missing_stride_is_refused() {
    assert_eq!(plan(None, 1920, 1080, None), Err(Error::StrideUnavailable));
    assert_eq!(plan(Some(FULL_HD), 1921, 1080, None), Err(Error::StrideUnavailable));
}

#[test]
fn stride_shorter_than_a_row_is_refused() {
    assert_eq!(plan(None, 1920, 1080, Some(7679)), Err(Error::StrideTooSmall));
    assert_eq!(plan(None, 1, 1, Some(-4)), Err(Error::StrideTooSmall));
    assert_eq!(plan(None, 1, 1, Some(0)), Err(Error::StrideTooSmall));
}

#[test]
fn region_beyond_a_pool_is_refused() {
    assert_eq!(plan(None, 32768, 16384, Some(131072)), Err(Error::SizeTooLarge));
    assert_eq!(plan(None, 1, 2_147_483_647, Some(4)), Err(Error::SizeTooLarge));
}

#[test]
fn largest_region_that_a_pool_holds() {
    assert_eq!(
        plan(None, 1, 1, Some(2_147_483_647)),
        Ok(BufferAction::Allocate(FrameBuffer {
            width: 1,
            height: 1,
            stride: 2_147_483_647,
            size: 2_147_483_647
        }))
    );
}
