//! The packet classifier: from one output record of the native encoder to
//! an owned value.

use vstd::prelude::*;
use vstd::slice::slice_to_vec;
use crate::frame::{Packet, Rational, TimeInfo};

verus! {

/// The flag bit of a compressed frame that marks a keyframe.
pub const FRAME_IS_KEY: u32 = 1;

/// A quality measurement of one encoded frame, for the whole picture and
/// for each of its three planes.
#[derive(Clone, Copy, Debug, PartialEq, Eq)]
pub struct PSNR {
    /// Number of samples measured.
    pub samples: [u32; 4],
    /// Sum of the squared errors.
    pub sse: [u64; 4],
    /// Peak signal-to-noise ratio: the bits of a 64-bit IEEE 754 number.
    pub psnr: [u64; 4],
}

/// One output record of the native encoder. Its buffers lie in the codec's
/// memory, on loan until the next retrieval.
#[derive(Clone, Copy, Debug)]
pub enum CxPacket<'a> {
    /// A compressed frame: its bytes, presentation timestamp and flags.
    Frame { buf: &'a [u8], pts: i64, flags: u32 },
    /// Statistics of the first pass of two.
    Stats(&'a [u8]),
    /// Statistics of the first pass, for each macroblock.
    MBStats(&'a [u8]),
    /// A quality measurement.
    PSNR(PSNR),
    /// Data of a kind that the codec defines itself.
    Custom(&'a [u8]),
}

/// One unit of encoder output, owned by the host.
#[derive(Clone, Debug)]
pub enum VPXPacket {
    /// A compressed frame.
    Packet(Packet),
    /// Statistics of the first pass of two.
    Stats(Vec<u8>),
    /// Statistics of the first pass, for each macroblock.
    MBStats(Vec<u8>),
    /// A quality measurement.
    PSNR(PSNR),
    /// Data of a kind that the codec defines itself.
    Custom(Vec<u8>),
}

/// Whether the flags of a compressed frame mark a keyframe.
pub open spec fn key_flag(flags: u32) -> bool {
    flags & FRAME_IS_KEY != 0
}

/// A packet that holds nothing yet: no bytes, no position, the stream index
/// that stands for no stream, no timestamps, no flags.
pub open spec fn blank_packet(p: Packet) -> bool {
    &&& p.data@.len() == 0
    &&& p.pos is None
    &&& p.stream_index == -1
    &&& p.t == TimeInfo::unset()
    &&& !p.is_key
    &&& !p.is_corrupted
}

/// The owned value `out` is the record `pkt`, copied: the same kind, every
/// buffer byte for byte and of the same length; a compressed frame as a
/// packet with the record's timestamp as its presentation time and the
/// keyframe bit of its flags, and everything else as in a blank packet.
pub open spec fn classified(pkt: CxPacket<'_>, out: VPXPacket) -> bool {
    match pkt {
        CxPacket::Frame { buf, pts, flags } => {
            &&& out matches VPXPacket::Packet(p)
            &&& p.data@ == buf@
            &&& p.t == TimeInfo { pts: Some(pts), dts: None, duration: None, timebase: None }
            &&& p.is_key == key_flag(flags)
            &&& p.pos is None
            &&& p.stream_index == -1
            &&& !p.is_corrupted
        },
        CxPacket::Stats(buf) => out matches VPXPacket::Stats(v) && v@ == buf@,
        CxPacket::MBStats(buf) => out matches VPXPacket::MBStats(v) && v@ == buf@,
        CxPacket::PSNR(m) => out matches VPXPacket::PSNR(n) && n == m,
        CxPacket::Custom(buf) => out matches VPXPacket::Custom(v) && v@ == buf@,
    }
}

/// Copies a buffer of the codec into a vector of exactly its length.
pub fn to_buffer(buf: &[u8]) -> (v: Vec<u8>)
    ensures
        v@ == buf@,
{
    slice_to_vec(buf)
}

/// Calls `Packet::with_capacity` of av-data and hands out the packet field
/// by field. The contract states what the source sets: no bytes, no
/// position, stream index -1, default timestamps, both flags off.
#[verifier::external_body]
fn packet_with_capacity(capacity: usize) -> (p: Packet)
    ensures
        blank_packet(p),
{
    let p = av_data::packet::Packet::with_capacity(capacity);
    let timebase = p.t.timebase.map(|r| Rational { num: *r.numer(), den: *r.denom() });
    let t = TimeInfo { pts: p.t.pts, dts: p.t.dts, duration: p.t.duration, timebase };
    Packet {
        data: p.data,
        pos: p.pos,
        stream_index: p.stream_index,
        t,
        is_key: p.is_key,
        is_corrupted: p.is_corrupted,
    }
}

impl VPXPacket {
    /// Classifies one output record of the native encoder and copies it out
    /// of the codec's memory.
    pub fn new(pkt: CxPacket<'_>) -> (out: VPXPacket)
        ensures
            classified(pkt, out),
    {
        match pkt {
            CxPacket::Frame { buf, pts, flags } => {
                let mut p = packet_with_capacity(buf.len());
                p.data.extend_from_slice(buf);
                p.t.pts = Some(pts);
                p.is_key = (flags & FRAME_IS_KEY) != 0;
                assert(p.data@ =~= buf@);
                VPXPacket::Packet(p)
            },
            CxPacket::Stats(buf) => VPXPacket::Stats(to_buffer(buf)),
            CxPacket::MBStats(buf) => VPXPacket::MBStats(to_buffer(buf)),
            CxPacket::PSNR(m) => VPXPacket::PSNR(m),
            CxPacket::Custom(buf) => VPXPacket::Custom(to_buffer(buf)),
        }
    }
}

} // verus!
