use vstd::prelude::*;

use crate::error::PipelineError;
use crate::frame::{spec_bytes_per_pixel, DisplayFrame, PixelFormat};
use crate::stream::StreamDescriptor;

verus! {

/// The static conversion parameters of one session: source pixel format and
/// geometry as the decoder reports them, target pixel format and geometry as
/// the display surface requires them, and the quality flag for the
/// underlying conversion library.
#[derive(Clone, Copy, Debug, PartialEq, Eq, Structural)]
pub struct ScalerConfig {
    pub src_format: PixelFormat,
    pub src_width: u32,
    pub src_height: u32,
    pub dst_format: PixelFormat,
    pub dst_width: u32,
    pub dst_height: u32,
    /// Use bilinear filtering rather than nearest-neighbour sampling.
    pub bilinear: bool,
}

impl ScalerConfig {
    /// A conversion context can be set up: no side of the conversion is
    /// degenerate.
    pub open spec fn wf(&self) -> bool {
        self.src_width > 0 && self.src_height > 0 && self.dst_width > 0 && self.dst_height > 0
    }
}

/// Converts decoded pictures to the display surface's pixel format and
/// resolution. Constructed once per session from properties known before the
/// loops begin; a configuration the conversion library cannot serve is fatal
/// at startup. The per-picture pixel work is done by the conversion library
/// in the surrounding binary; this type owns the negotiated geometry and is
/// the only source of `DisplayFrame`s, so every frame of a session carries
/// the buffer-length invariant.
#[derive(Clone, Copy, Debug, PartialEq, Eq, Structural)]
pub struct Scaler {
    pub config: ScalerConfig,
}

impl Scaler {
    /// Sets the session's conversion up, failing at startup on a degenerate
    /// configuration.
    pub fn new(config: ScalerConfig) -> (r: Result<Scaler, PipelineError>)
        ensures
            match r {
                Ok(s) => config.wf() && s.config == config,
                Err(e) => e == PipelineError::StartupFailure && !config.wf(),
            },
    {
        if config.src_width > 0 && config.src_height > 0 && config.dst_width > 0
            && config.dst_height > 0 {
            Ok(Scaler { config })
        } else {
            Err(PipelineError::StartupFailure)
        }
    }

    /// The session's scaler as the worker builds it: source side from the
    /// selected stream's descriptor, target side from the display surface.
    pub fn for_display(
        descriptor: &StreamDescriptor,
        target_format: PixelFormat,
        target_width: u32,
        target_height: u32,
        bilinear: bool,
    ) -> (r: Result<Scaler, PipelineError>)
        ensures
            match r {
                Ok(s) => s.config == (ScalerConfig {
                    src_format: descriptor.format,
                    src_width: descriptor.width,
                    src_height: descriptor.height,
                    dst_format: target_format,
                    dst_width: target_width,
                    dst_height: target_height,
                    bilinear,
                }) && s.config.wf(),
                Err(e) => e == PipelineError::StartupFailure && !(descriptor.width > 0
                    && descriptor.height > 0 && target_width > 0 && target_height > 0),
            },
    {
        Scaler::new(
            ScalerConfig {
                src_format: descriptor.format,
                src_width: descriptor.width,
                src_height: descriptor.height,
                dst_format: target_format,
                dst_width: target_width,
                dst_height: target_height,
                bilinear,
            },
        )
    }

    /// Number of bytes every converted picture of this session occupies.
    pub open spec fn spec_output_len(&self) -> int {
        self.config.dst_width as int * self.config.dst_height as int * spec_bytes_per_pixel(
            self.config.dst_format,
        )
    }

    /// Wraps one converted picture's raw bytes as a `DisplayFrame` of the
    /// target geometry. Succeeds exactly when the buffer has the one length
    /// the target geometry admits; any other length is the fatal
    /// buffer-length programming error. Every frame this returns satisfies
    /// the pipeline invariant, in every loop iteration, restarts included.
    pub fn wrap_output(&self, data: Vec<u8>) -> (r: Result<DisplayFrame, PipelineError>)
        ensures
            match r {
                Ok(f) => f.wf() && f.matches_target(
                    self.config.dst_width,
                    self.config.dst_height,
                    self.config.dst_format,
                ) && f.data@ == data@ && data@.len() == self.spec_output_len(),
                Err(e) => e == PipelineError::FrameSizeMismatch && data@.len()
                    != self.spec_output_len(),
            },
    {
        DisplayFrame::from_buffer(
            self.config.dst_width,
            self.config.dst_height,
            self.config.dst_format,
            data,
        )
    }
}

} // verus!
