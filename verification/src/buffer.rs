//! Captured frames: one owned buffer of raw bytes with its format metadata.

use vstd::prelude::*;
use vstd::slice::slice_to_vec;
use crate::format::FrameFormat;
use crate::types::Resolution;

verus! {

/// One captured frame: its resolution, its raw bytes, and the encoding those
/// bytes are in. Created once per captured frame and never mutated; whoever
/// receives it owns it.
///
/// The capture timestamp is deliberately not part of this type: no clock
/// belongs in the verified core, so the consumer that receives a frame pairs
/// it with the time of delivery itself.
#[derive(Clone, Debug, Hash, Eq, PartialEq)]
pub struct FrameBuffer {
    pub resolution: Resolution,
    pub buffer: Vec<u8>,
    pub source_frame_format: FrameFormat,
}

impl FrameBuffer {
    /// Create a frame from a byte slice, copying the bytes.
    pub fn new(res: Resolution, buf: &[u8], source_frame_format: FrameFormat) -> (r: FrameBuffer)
        ensures
            r.resolution == res,
            r.buffer@ == buf@,
            r.source_frame_format == source_frame_format,
    {
        FrameBuffer { resolution: res, buffer: slice_to_vec(buf), source_frame_format }
    }

    /// Get the resolution of this frame.
    pub fn resolution(&self) -> (r: Resolution)
        ensures
            r == self.resolution,
    {
        self.resolution
    }

    /// Get the width of this frame.
    pub fn width(&self) -> (r: u32)
        ensures
            r == self.resolution.width_x,
    {
        self.resolution.width_x
    }

    /// Get the height of this frame.
    pub fn height(&self) -> (r: u32)
        ensures
            r == self.resolution.height_y,
    {
        self.resolution.height_y
    }

    /// Borrow the raw bytes of this frame.
    pub fn buffer(&self) -> (r: &[u8])
        ensures
            r@ == self.buffer@,
    {
        self.buffer.as_slice()
    }

    /// Copy the raw bytes of this frame into an owned buffer.
    pub fn buffer_bytes(&self) -> (r: Vec<u8>)
        ensures
            r@ == self.buffer@,
    {
        slice_to_vec(self.buffer.as_slice())
    }

    /// Get the encoding the raw bytes are in.
    pub fn source_frame_format(&self) -> (r: FrameFormat)
        ensures
            r == self.source_frame_format,
    {
        self.source_frame_format
    }
}

} // verus!
