//! Frame buffers: one pixel region per output, sized to the output's surface.
//!
//! The memory itself is mapped by the caller. What is decided here is whether
//! a configure event can go on with the buffer that the output has, or needs a
//! new one, and how large that one is.

use vstd::prelude::*;
use crate::error::Error;

verus! {

/// Bytes of one pixel: 32 bits, alpha first.
pub const BYTES_PER_PIXEL: i64 = 4;

/// What the engine knows of an output's pixel region.
#[derive(Clone, Copy, Debug, PartialEq, Eq, Structural)]
pub struct FrameBuffer {
    /// Width in pixels.
    pub width: i32,
    /// Height in pixels.
    pub height: i32,
    /// Bytes from the start of one row to the start of the next.
    pub stride: i32,
    /// Bytes of the whole region.
    pub size: i32,
}

impl FrameBuffer {
    /// A row holds its pixels, and the region holds its rows and nothing more.
    pub open spec fn wf(self) -> bool {
        &&& 0 <= self.width
        &&& 0 <= self.height
        &&& self.stride >= BYTES_PER_PIXEL * self.width
        &&& self.size == self.stride * self.height
    }

    pub open spec fn has_size(self, width: u32, height: u32) -> bool {
        self.width == width && self.height == height
    }
}

/// How a configure event is met.
#[derive(Clone, Copy, Debug, PartialEq, Eq, Structural)]
pub enum BufferAction {
    /// The output keeps its buffer: nothing is mapped, nothing released.
    Reuse(FrameBuffer),
    /// The output gets this buffer. Its memory has to be mapped, and what the
    /// output had before is released.
    Allocate(FrameBuffer),
}

impl BufferAction {
    /// The buffer that the output has once the action is carried out.
    pub open spec fn buffer(self) -> FrameBuffer {
        match self {
            BufferAction::Reuse(buffer) => buffer,
            BufferAction::Allocate(buffer) => buffer,
        }
    }
}

/// The decision for an output that has `current` and is configured to
/// `width` by `height` pixels, where `stride` is the row stride that the
/// drawing surface asks for at that width, if it names one.
pub open spec fn plan_buffer(
    current: Option<FrameBuffer>,
    width: u32,
    height: u32,
    stride: Option<i32>,
) -> Result<BufferAction, Error> {
    if width > i32::MAX || height > i32::MAX {
        Err(Error::DimensionTooLarge)
    } else if current is Some && current->0.has_size(width, height) {
        Ok(BufferAction::Reuse(current->0))
    } else if stride is None {
        Err(Error::StrideUnavailable)
    } else if stride->0 < BYTES_PER_PIXEL * width {
        Err(Error::StrideTooSmall)
    } else if stride->0 * height > i32::MAX {
        Err(Error::SizeTooLarge)
    } else {
        Ok(
            BufferAction::Allocate(
                FrameBuffer {
                    width: width as i32,
                    height: height as i32,
                    stride: stride->0,
                    size: (stride->0 * height) as i32,
                },
            ),
        )
    }
}

/// Decides between the buffer at hand and a new one.
pub fn plan(current: Option<FrameBuffer>, width: u32, height: u32, stride: Option<i32>) -> (action:
    Result<BufferAction, Error>)
    ensures
        action == plan_buffer(current, width, height, stride),
        action matches Ok(a) ==> a.buffer().has_size(width, height),
        action matches Ok(BufferAction::Allocate(b)) ==> b.wf(),
{
    if width > i32::MAX as u32 || height > i32::MAX as u32 {
        return Err(Error::DimensionTooLarge);
    }
    if let Some(buffer) = current {
        if buffer.width == width as i32 && buffer.height == height as i32 {
            return Ok(BufferAction::Reuse(buffer));
        }
    }
    let row: i64 = match stride {
        Some(s) => s as i64,
        None => {
            return Err(Error::StrideUnavailable);
        },
    };
    if row < BYTES_PER_PIXEL * (width as i64) {
        return Err(Error::StrideTooSmall);
    }
    let rows: i64 = height as i64;
    assert(0 <= row * rows <= 0x7fff_ffff * 0x7fff_ffff) by (nonlinear_arith)
        requires
            0 <= row <= 0x7fff_ffff,
            0 <= rows <= 0x7fff_ffff,
    ;
    let bytes: i64 = row * rows;
    if bytes > i32::MAX as i64 {
        return Err(Error::SizeTooLarge);
    }
    Ok(
        BufferAction::Allocate(
            FrameBuffer {
                width: width as i32,
                height: height as i32,
                stride: row as i32,
                size: bytes as i32,
            },
        ),
    )
}

/// Configuring an output twice in a row to the same size maps memory at most
/// once: the second decision is to go on with the buffer of the first.
pub proof fn lemma_same_size_reuses(
    current: Option<FrameBuffer>,
    width: u32,
    height: u32,
    first_stride: Option<i32>,
    second_stride: Option<i32>,
)
    requires
        plan_buffer(current, width, height, first_stride) is Ok,
    ensures
        plan_buffer(
            Some(plan_buffer(current, width, height, first_stride)->Ok_0.buffer()),
            width,
            height,
            second_stride,
        ) == Ok::<BufferAction, Error>(
            BufferAction::Reuse(plan_buffer(current, width, height, first_stride)->Ok_0.buffer()),
        ),
{
}

/// Configuring an output to another size than its buffer has never goes on
/// with that buffer: either a new one of the right size is made, whose region
/// holds exactly its rows, or the event is refused.
pub proof fn lemma_new_size_allocates(
    current: FrameBuffer,
    width: u32,
    height: u32,
    stride: Option<i32>,
)
    requires
        !current.has_size(width, height),
    ensures
        !(plan_buffer(Some(current), width, height, stride) matches Ok(BufferAction::Reuse(_))),
        plan_buffer(Some(current), width, height, stride) matches Ok(BufferAction::Allocate(b))
            ==> b != current && b.has_size(width, height) && b.wf() && Some(b.stride) == stride,
{
}

} // verus!
