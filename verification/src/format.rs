//! Frame encodings and the camera format triple.

use vstd::prelude::*;
use crate::types::Resolution;

verus! {

/// How the raw bytes of a frame map to pixels, often called a "FourCC" tag.
///
/// - `MJPEG` is a motion-JPEG compressed frame.
/// - `YUYV` is a 4:2:2 YCbCr layout, two pixels in four bytes.
/// - `GRAY8` is one luminance byte per pixel.
///
/// The tag is opaque to the resolver and the capture session: no conversion
/// between encodings happens during format negotiation.
#[derive(Copy, Clone, Debug, Hash, Eq, PartialEq, Structural)]
pub enum FrameFormat {
    MJPEG,
    YUYV,
    GRAY8,
}

/// All frame encodings this crate knows, in a fixed order.
pub fn frame_formats() -> (r: [FrameFormat; 3])
    ensures
        r@ == seq![FrameFormat::MJPEG, FrameFormat::YUYV, FrameFormat::GRAY8],
{
    [FrameFormat::MJPEG, FrameFormat::YUYV, FrameFormat::GRAY8]
}

/// Everything about the format of a webcam stream: a resolution, a frame
/// encoding, and a frame rate in frames per second.
#[derive(Copy, Clone, Debug, Hash, Eq, PartialEq, Structural)]
pub struct CameraFormat {
    pub resolution: Resolution,
    pub format: FrameFormat,
    pub frame_rate: u32,
}

impl CameraFormat {
    /// Construct a new format triple.
    pub fn new(resolution: Resolution, format: FrameFormat, frame_rate: u32) -> (r: CameraFormat)
        ensures
            r == (CameraFormat { resolution, format, frame_rate }),
    {
        CameraFormat { resolution, format, frame_rate }
    }

    /// `CameraFormat::new`, but from raw width/height coordinates.
    pub fn new_from(res_x: u32, res_y: u32, format: FrameFormat, fps: u32) -> (r: CameraFormat)
        ensures
            r == (CameraFormat {
                resolution: Resolution { width_x: res_x, height_y: res_y },
                format,
                frame_rate: fps,
            }),
    {
        CameraFormat {
            resolution: Resolution { width_x: res_x, height_y: res_y },
            format,
            frame_rate: fps,
        }
    }

    /// Get the resolution of this format.
    pub fn resolution(&self) -> (r: Resolution)
        ensures
            r == self.resolution,
    {
        self.resolution
    }

    /// Get the width of this format's resolution.
    pub fn width(&self) -> (r: u32)
        ensures
            r == self.resolution.width_x,
    {
        self.resolution.width_x
    }

    /// Get the height of this format's resolution.
    pub fn height(&self) -> (r: u32)
        ensures
            r == self.resolution.height_y,
    {
        self.resolution.height_y
    }

    /// Replace the resolution of this format.
    pub fn set_resolution(&mut self, resolution: Resolution)
        ensures
            *final(self) == (CameraFormat { resolution, ..*old(self) }),
    {
        self.resolution = resolution;
    }

    /// Get the frame rate of this format.
    pub fn frame_rate(&self) -> (r: u32)
        ensures
            r == self.frame_rate,
    {
        self.frame_rate
    }

    /// Replace the frame rate of this format.
    pub fn set_frame_rate(&mut self, frame_rate: u32)
        ensures
            *final(self) == (CameraFormat { frame_rate, ..*old(self) }),
    {
        self.frame_rate = frame_rate;
    }

    /// Get the frame encoding of this format.
    pub fn format(&self) -> (r: FrameFormat)
        ensures
            r == self.format,
    {
        self.format
    }

    /// Replace the frame encoding of this format.
    pub fn set_format(&mut self, format: FrameFormat)
        ensures
            *final(self) == (CameraFormat { format, ..*old(self) }),
    {
        self.format = format;
    }
}

impl Default for CameraFormat {
    /// 640x480 MJPEG at 30 frames per second.
    fn default() -> (r: CameraFormat)
        ensures
            r == (CameraFormat {
                resolution: Resolution { width_x: 640, height_y: 480 },
                format: FrameFormat::MJPEG,
                frame_rate: 30,
            }),
    {
        CameraFormat {
            resolution: Resolution { width_x: 640, height_y: 480 },
            format: FrameFormat::MJPEG,
            frame_rate: 30,
        }
    }
}

} // verus!
