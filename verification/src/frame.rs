//! Frames, packets and timing as the host sees them.

use vstd::prelude::*;

verus! {

/// A ratio of two integers, as a timebase is given.
#[derive(Clone, Copy, Debug, PartialEq, Eq, Structural)]
pub struct Rational {
    /// Numerator.
    pub num: i64,
    /// Denominator.
    pub den: i64,
}

/// Timestamps of a frame or of a packet.
#[derive(Clone, Copy, Debug, PartialEq, Eq, Structural)]
pub struct TimeInfo {
    /// Presentation timestamp.
    pub pts: Option<i64>,
    /// Decode timestamp.
    pub dts: Option<i64>,
    /// Duration, in units of the timebase.
    pub duration: Option<u64>,
    /// The unit of the timestamps, in seconds.
    pub timebase: Option<Rational>,
}

impl TimeInfo {
    /// The value with nothing set.
    pub open spec fn unset() -> TimeInfo {
        TimeInfo { pts: None, dts: None, duration: None, timebase: None }
    }
}

impl Default for TimeInfo {
    fn default() -> (r: TimeInfo)
        ensures
            r == TimeInfo::unset(),
    {
        TimeInfo { pts: None, dts: None, duration: None, timebase: None }
    }
}

/// The kinds of coded picture.
#[derive(Clone, Copy, Debug, PartialEq, Eq, Structural)]
pub enum FrameType {
    /// Intra picture.
    I,
    /// Predicted picture.
    P,
    /// Bidirectionally predicted picture.
    B,
    /// Skipped picture.
    SKIP,
    /// Any other kind.
    OTHER,
}

/// The pixel layouts that a frame can declare.
#[derive(Clone, Copy, Debug, PartialEq, Eq, Structural)]
pub enum PixelFormat {
    /// Planar 8-bit YUV, chroma halved in both directions.
    YUV420,
    /// A layout that the image adapter has no conversion for.
    Unsupported,
}

/// What a video frame declares of itself.
#[derive(Clone, Copy, Debug, PartialEq, Eq, Structural)]
pub struct VideoInfo {
    /// Width in pixels.
    pub width: usize,
    /// Height in pixels.
    pub height: usize,
    /// Whether the rows are stored bottom up.
    pub flipped: bool,
    /// Kind of picture.
    pub frame_type: FrameType,
    /// Pixel layout.
    pub format: PixelFormat,
}

impl VideoInfo {
    /// Describes a picture of the given size, kind and layout.
    pub fn new(
        width: usize,
        height: usize,
        flipped: bool,
        frame_type: FrameType,
        format: PixelFormat,
    ) -> (r: VideoInfo)
        ensures
            r == (VideoInfo { width, height, flipped, frame_type, format }),
    {
        VideoInfo { width, height, flipped, frame_type, format }
    }
}

/// What a frame carries.
#[derive(Clone, Copy, Debug, PartialEq, Eq, Structural)]
pub enum MediaKind {
    /// Picture data.
    Video(VideoInfo),
    /// Sound data, which the codec does not take.
    Audio,
}

/// One plane of pixel data with the distance between its rows.
#[derive(Clone, Debug, PartialEq, Eq)]
pub struct Plane {
    /// The bytes of the plane, row after row.
    pub data: Vec<u8>,
    /// Bytes from the start of a row to the start of the next.
    pub linesize: usize,
}

/// A frame owned by the host: what it declares, its planes and its timing.
#[derive(Clone, Debug, PartialEq, Eq)]
pub struct Frame {
    /// What the frame declares of itself.
    pub kind: MediaKind,
    /// The planes, in the order of the layout's components.
    pub buf: Vec<Plane>,
    /// Timestamps.
    pub t: TimeInfo,
}

impl Frame {
    /// The declared width and height, for a video frame.
    pub open spec fn dimensions(self) -> Option<(int, int)> {
        match self.kind {
            MediaKind::Video(v) => Some((v.width as int, v.height as int)),
            MediaKind::Audio => None,
        }
    }
}

/// A unit of compressed data with its timing.
#[derive(Clone, Debug, PartialEq, Eq)]
pub struct Packet {
    /// The compressed bytes.
    pub data: Vec<u8>,
    /// Position in the stream, if the packet belongs to one.
    pub pos: Option<usize>,
    /// Index of the stream that the packet belongs to.
    pub stream_index: isize,
    /// Timestamps.
    pub t: TimeInfo,
    /// Whether the packet holds a keyframe.
    pub is_key: bool,
    /// Whether the packet is known to be damaged.
    pub is_corrupted: bool,
}

} // verus!
