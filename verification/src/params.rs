//! Stream parameters and option values of a codec.

use vstd::prelude::*;
use crate::frame::PixelFormat;

verus! {

/// What a video stream declares.
#[derive(Clone, Copy, Debug, PartialEq, Eq, Structural)]
pub struct VideoInfo {
    /// Width of the pictures.
    pub width: usize,
    /// Height of the pictures.
    pub height: usize,
    /// Pixel layout, if known.
    pub format: Option<PixelFormat>,
}

/// The kinds of stream.
#[derive(Clone, Copy, Debug, PartialEq, Eq, Structural)]
pub enum MediaKind {
    /// A video stream.
    Video(VideoInfo),
    /// An audio stream.
    Audio,
}

/// The parameters of a coded stream.
#[derive(Clone, Debug, PartialEq, Eq)]
pub struct CodecParams {
    /// Kind of stream.
    pub kind: Option<MediaKind>,
    /// Name of the codec.
    pub codec_id: Option<String>,
    /// Data that the decoder needs before the first packet.
    pub extradata: Option<Vec<u8>>,
    /// Bit rate.
    pub bit_rate: usize,
    /// Samples that a decoder takes before its output is valid.
    pub convergence_window: usize,
    /// Samples that the codec takes before it returns data.
    pub delay: usize,
}

/// The value of an option.
#[derive(Clone, Copy, Debug)]
pub enum Value<'a> {
    /// A signed number.
    I64(i64),
    /// An unsigned number.
    U64(u64),
    /// A text.
    Str(&'a str),
    /// A truth value.
    Bool(bool),
    /// Two signed numbers.
    Pair(i64, i64),
    /// A pixel layout.
    Formaton(PixelFormat),
    /// A sample layout.
    Soniton,
}

} // verus!
