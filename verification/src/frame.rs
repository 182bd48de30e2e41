use vstd::prelude::*;

use crate::error::PipelineError;

verus! {

/// Memory layout of the color channels of a stored picture.
#[derive(Clone, Copy, Debug, PartialEq, Eq, Structural)]
pub enum PixelFormat {
    /// 8-bit blue, green, red, alpha: the layout the display surface takes.
    Bgra,
    /// 8-bit red, green, blue, alpha.
    Rgba,
    /// 8-bit red, green, blue, no alpha channel.
    Rgb24,
    /// A single 8-bit luminance channel.
    Gray8,
}

/// Bytes one pixel of `format` occupies in a row-major buffer.
pub open spec fn spec_bytes_per_pixel(format: PixelFormat) -> int {
    match format {
        PixelFormat::Bgra => 4,
        PixelFormat::Rgba => 4,
        PixelFormat::Rgb24 => 3,
        PixelFormat::Gray8 => 1,
    }
}

pub fn bytes_per_pixel(format: PixelFormat) -> (n: u8)
    ensures
        n as int == spec_bytes_per_pixel(format),
{
    match format {
        PixelFormat::Bgra => 4,
        PixelFormat::Rgba => 4,
        PixelFormat::Rgb24 => 3,
        PixelFormat::Gray8 => 1,
    }
}

/// A picture already converted to the pixel format and resolution of the
/// display surface, as one contiguous row-major pixel buffer. Ownership moves
/// from the decode worker through the channel to the presentation loop; the
/// native image handle the presenter derives from `data` lives outside this
/// crate and must be rebuilt whenever a new frame is adopted, so that no
/// handle outlives the buffer it views.
#[derive(Clone, Debug, PartialEq, Eq)]
pub struct DisplayFrame {
    pub width: u32,
    pub height: u32,
    pub format: PixelFormat,
    pub data: Vec<u8>,
}

impl DisplayFrame {
    /// The pipeline invariant: the buffer holds exactly
    /// width × height × bytes-per-pixel bytes.
    pub open spec fn wf(&self) -> bool {
        self.data@.len() == self.width as int * self.height as int * spec_bytes_per_pixel(
            self.format,
        )
    }

    /// The frame has the negotiated target geometry.
    pub open spec fn matches_target(&self, width: u32, height: u32, format: PixelFormat) -> bool {
        self.width == width && self.height == height && self.format == format
    }

    /// Wraps a raw pixel buffer as a frame of the given geometry. Succeeds
    /// exactly when the buffer length equals width × height × bytes-per-pixel;
    /// any other length is a fatal programming error, reported and never
    /// wrapped.
    pub fn from_buffer(width: u32, height: u32, format: PixelFormat, data: Vec<u8>) -> (r: Result<
        DisplayFrame,
        PipelineError,
    >)
        ensures
            match r {
                Ok(f) => f.wf() && f.matches_target(width, height, format) && f.data@ == data@
                    && data@.len() == width as int * height as int * spec_bytes_per_pixel(format),
                Err(e) => e == PipelineError::FrameSizeMismatch && data@.len() != width as int
                    * height as int * spec_bytes_per_pixel(format),
            },
    {
        proof {
            let w = width as int;
            let h = height as int;
            let bpp = spec_bytes_per_pixel(format);
            assert(1 <= bpp <= 4);
            assert(0 <= w * h <= u32::MAX as int * u32::MAX as int && 0 <= w * h * bpp <= u32::MAX
                as int * u32::MAX as int * 4) by (nonlinear_arith)
                requires
                    0 <= w <= u32::MAX as int,
                    0 <= h <= u32::MAX as int,
                    1 <= bpp <= 4,
            ;
        }
        let expected: u128 = (width as u128) * (height as u128) * (bytes_per_pixel(format) as u128);
        if (data.len() as u128) == expected {
            Ok(DisplayFrame { width, height, format, data })
        } else {
            Err(PipelineError::FrameSizeMismatch)
        }
    }

    /// Length of the pixel buffer in bytes.
    pub fn buffer_len(&self) -> (n: usize)
        ensures
            n == self.data@.len(),
    {
        self.data.len()
    }
}

} // verus!
