use vstd::prelude::*;

use crate::error::PipelineError;
use crate::frame::PixelFormat;

verus! {

/// The media type of one stream of the container.
#[derive(Clone, Copy, Debug, PartialEq, Eq, Structural)]
pub enum MediaType {
    Video,
    Audio,
    Subtitle,
    Data,
}

/// What the demuxing library reports of one stream, as plain values: its
/// media type, the suitability score the library assigns it, the average
/// frame rate as an exact rational, and the native pixel geometry. The
/// position of a `StreamInfo` in the session's list is the stream's index in
/// the container.
#[derive(Clone, Copy, Debug, PartialEq, Eq, Structural)]
pub struct StreamInfo {
    pub media_type: MediaType,
    pub score: u64,
    pub frame_rate_num: u32,
    pub frame_rate_den: u32,
    pub width: u32,
    pub height: u32,
    pub format: PixelFormat,
}

/// Everything the session reads of the selected stream, derived once at
/// startup and immutable for the life of the decode session.
#[derive(Clone, Copy, Debug, PartialEq, Eq, Structural)]
pub struct StreamDescriptor {
    /// Index of the selected stream; packets of other streams are skipped.
    pub stream_index: usize,
    pub frame_rate_num: u32,
    pub frame_rate_den: u32,
    /// Native pixel geometry of the decoded pictures.
    pub width: u32,
    pub height: u32,
    pub format: PixelFormat,
}

pub open spec fn is_video(s: StreamInfo) -> bool {
    s.media_type == MediaType::Video
}

pub open spec fn has_video(streams: Seq<StreamInfo>) -> bool {
    exists|i: int| 0 <= i < streams.len() && is_video(#[trigger] streams[i])
}

/// Stream `i` is the one the adapter must pick: a video stream of maximal
/// suitability score, the first such where scores tie.
pub open spec fn is_best_video(streams: Seq<StreamInfo>, i: int) -> bool {
    &&& 0 <= i < streams.len()
    &&& is_video(streams[i])
    &&& forall|j: int|
        0 <= j < streams.len() && is_video(#[trigger] streams[j]) ==> streams[j].score
            <= streams[i].score
    &&& forall|j: int|
        0 <= j < i && is_video(#[trigger] streams[j]) ==> streams[j].score < streams[i].score
}

/// The stream's static properties are usable: a positive frame rate and a
/// non-degenerate picture geometry.
pub open spec fn usable_parameters(s: StreamInfo) -> bool {
    s.frame_rate_num > 0 && s.frame_rate_den > 0 && s.width > 0 && s.height > 0
}

/// The descriptor the adapter derives from stream `s` at index `index`.
pub open spec fn descriptor_of(s: StreamInfo, index: usize) -> StreamDescriptor {
    StreamDescriptor {
        stream_index: index,
        frame_rate_num: s.frame_rate_num,
        frame_rate_den: s.frame_rate_den,
        width: s.width,
        height: s.height,
        format: s.format,
    }
}

/// Selects the stream of media type video with the highest suitability
/// score, the earliest where scores tie, and fails with `StreamNotFound`
/// when the container holds no video stream at all.
pub fn select_best_video_stream(streams: &Vec<StreamInfo>) -> (r: Result<usize, PipelineError>)
    ensures
        match r {
            Ok(i) => is_best_video(streams@, i as int),
            Err(e) => e == PipelineError::StreamNotFound && !has_video(streams@),
        },
{
    let mut best: Option<usize> = None;
    let n = streams.len();
    let mut k: usize = 0;
    while k < n
        invariant
            n == streams@.len(),
            k <= n,
            match best {
                Some(b) => b < k && is_video(streams@[b as int]) && (forall|j: int|
                    0 <= j < k && is_video(#[trigger] streams@[j]) ==> streams@[j].score
                        <= streams@[b as int].score) && (forall|j: int|
                    0 <= j < b && is_video(#[trigger] streams@[j]) ==> streams@[j].score
                        < streams@[b as int].score),
                None => forall|j: int| 0 <= j < k ==> !is_video(#[trigger] streams@[j]),
            },
        decreases n - k,
    {
        let s = &streams[k];
        if s.media_type == MediaType::Video {
            match best {
                Some(b) => {
                    if streams[b].score < s.score {
                        best = Some(k);
                    }
                },
                None => {
                    best = Some(k);
                },
            }
        }
        k = k + 1;
    }
    match best {
        Some(b) => Ok(b),
        None => Err(PipelineError::StreamNotFound),
    }
}

/// Derives the session descriptor from one stream's reported properties,
/// failing at startup when they are degenerate.
pub fn describe_stream(info: &StreamInfo, index: usize) -> (r: Result<
    StreamDescriptor,
    PipelineError,
>)
    ensures
        match r {
            Ok(d) => usable_parameters(*info) && d == descriptor_of(*info, index),
            Err(e) => e == PipelineError::StartupFailure && !usable_parameters(*info),
        },
{
    if info.frame_rate_num > 0 && info.frame_rate_den > 0 && info.width > 0 && info.height > 0 {
        Ok(
            StreamDescriptor {
                stream_index: index,
                frame_rate_num: info.frame_rate_num,
                frame_rate_den: info.frame_rate_den,
                width: info.width,
                height: info.height,
                format: info.format,
            },
        )
    } else {
        Err(PipelineError::StartupFailure)
    }
}

/// The decoder adapter's startup step over the container's stream list:
/// pick the best video stream and derive the session descriptor from it.
/// When no video stream exists it fails with `StreamNotFound` before any
/// decoding state is derived; when the chosen stream's static properties are
/// degenerate it fails with `StartupFailure`.
pub fn describe_best_stream(streams: &Vec<StreamInfo>) -> (r: Result<
    StreamDescriptor,
    PipelineError,
>)
    ensures
        match r {
            Ok(d) => is_best_video(streams@, d.stream_index as int) && usable_parameters(
                streams@[d.stream_index as int],
            ) && d == descriptor_of(streams@[d.stream_index as int], d.stream_index),
            Err(e) => {
                ||| (e == PipelineError::StreamNotFound && !has_video(streams@))
                ||| (e == PipelineError::StartupFailure && exists|i: int|
                    is_best_video(streams@, i) && !usable_parameters(#[trigger] streams@[i]))
            },
        },
{
    let index = select_best_video_stream(streams)?;
    describe_stream(&streams[index], index)
}

impl StreamDescriptor {
    /// The descriptor's static properties are usable for a session.
    pub open spec fn wf(&self) -> bool {
        self.frame_rate_num > 0 && self.frame_rate_den > 0 && self.width > 0 && self.height > 0
    }

    /// Nominal duration of one source frame in whole milliseconds: the
    /// inverse of the rational frame rate num/den, truncated.
    pub fn frame_duration_millis(&self) -> (d: u64)
        requires
            self.wf(),
        ensures
            d as int == self.frame_rate_den as int * 1000 / self.frame_rate_num as int,
    {
        (self.frame_rate_den as u64 * 1000) / (self.frame_rate_num as u64)
    }
}

} // verus!
