//! The image adapter: between a host frame and the native picture descriptor.
//!
//! A native picture is a format tag, sizes, and up to four planes, each a run
//! of bytes with a row distance. Towards the codec the adapter lends the
//! frame's planes; from the codec it copies them into a fresh frame.

use vstd::prelude::*;
use crate::frame::{Frame, FrameType, MediaKind, PixelFormat, Plane, TimeInfo, VideoInfo};

verus! {

/// Most planes that a native picture holds.
pub const MAX_PLANES: usize = 4;

/// Planes of the one layout that the adapter converts.
pub const YUV420_PLANES: usize = 3;

/// Row alignment of a frame that the adapter allocates.
pub const ROW_ALIGNMENT: usize = 32;

/// The format tag of a native picture.
#[derive(Clone, Copy, Debug, PartialEq, Eq, Structural)]
pub enum ImageFormat {
    /// No format set.
    Unset,
    /// Planar 8-bit YUV, chroma halved in both directions.
    I420,
    /// Any other format that the codec knows.
    Other,
}

/// One plane of a native picture: borrowed bytes and their row distance.
#[derive(Clone, Copy, Debug)]
pub struct ImagePlane<'a> {
    /// The bytes of the plane, owned by whoever made the picture.
    pub data: &'a [u8],
    /// Bytes from the start of a row to the start of the next.
    pub stride: i32,
}

/// A native picture. It owns no pixel memory: its planes are on loan for as
/// long as the picture lives.
#[derive(Clone, Debug)]
pub struct Image<'a> {
    /// Format tag.
    pub fmt: ImageFormat,
    /// Stored width.
    pub w: u32,
    /// Stored height.
    pub h: u32,
    /// Bits per sample.
    pub bit_depth: u32,
    /// Displayed width.
    pub d_w: u32,
    /// Displayed height.
    pub d_h: u32,
    /// Horizontal chroma subsampling, as a shift.
    pub x_chroma_shift: u32,
    /// Vertical chroma subsampling, as a shift.
    pub y_chroma_shift: u32,
    /// The planes, at most four.
    pub planes: Vec<ImagePlane<'a>>,
    /// Bits per pixel, all planes together.
    pub bps: i32,
    /// The handle that travelled with the compressed unit, zero for none.
    pub user_priv: usize,
}

/// Width of a plane of the 4:2:0 layout for a picture of the given width:
/// the luma plane has the full width, the two chroma planes half of it,
/// rounded up, and there is no further plane.
pub open spec fn plane_width(plane: int, width: int) -> int {
    if plane == 0 {
        width
    } else if 0 < plane < 3 {
        (width + 1) / 2
    } else {
        0
    }
}

/// Height of a plane of the 4:2:0 layout for a picture of the given height.
pub open spec fn plane_height(plane: int, height: int) -> int {
    plane_width(plane, height)
}

/// The least multiple of the row alignment that is not below `v`.
pub open spec fn align_up(v: int) -> int {
    ((v + (ROW_ALIGNMENT - 1)) / (ROW_ALIGNMENT as int)) * ROW_ALIGNMENT
}

/// Row distance of a plane in a frame that the adapter allocates.
pub open spec fn default_linesize(plane: int, width: int) -> int {
    align_up(plane_width(plane, width))
}

/// Bytes of a plane in a frame that the adapter allocates.
pub open spec fn default_plane_size(plane: int, width: int, height: int) -> int {
    default_linesize(plane, width) * plane_height(plane, height)
}

/// Bytes of all planes of a frame that the adapter allocates.
pub open spec fn default_frame_size(width: int, height: int) -> int {
    default_plane_size(0, width, height) + default_plane_size(1, width, height)
        + default_plane_size(2, width, height)
}

/// Calls `Chromaton::get_width` of av-data on the component `plane` of its
/// `YUV420` format, if the format has such a component. The contract states
/// what the source shows: the format has three components, and the shift
/// gives the width itself for the first and half of it, rounded up, for the
/// second and third.
#[verifier::external_body]
fn component_width(plane: usize, width: usize) -> (r: Option<usize>)
    requires
        width < usize::MAX,
    ensures
        r is Some <==> plane < YUV420_PLANES,
        r matches Some(w) ==> w as int == plane_width(plane as int, width as int),
{
    av_data::pixel::formats::YUV420.get_chromaton(plane).map(|c| c.get_width(width))
}

/// Calls `Chromaton::get_height` of av-data on the component `plane` of its
/// `YUV420` format, if the format has such a component. The contract states
/// what the source shows: the format has three components, and the shift
/// gives the height itself for the first and half of it, rounded up, for the
/// second and third.
#[verifier::external_body]
fn component_height(plane: usize, height: usize) -> (r: Option<usize>)
    requires
        height < usize::MAX,
    ensures
        r is Some <==> plane < YUV420_PLANES,
        r matches Some(h) ==> h as int == plane_height(plane as int, height as int),
{
    av_data::pixel::formats::YUV420.get_chromaton(plane).map(|c| c.get_height(height))
}

/// Width of the plane `plane` of a 4:2:0 picture of the given width, and 0
/// where the layout has no such plane.
pub fn chroma_width(plane: usize, width: usize) -> (r: usize)
    requires
        width < usize::MAX,
    ensures
        r as int == plane_width(plane as int, width as int),
{
    match component_width(plane, width) {
        Some(w) => w,
        None => 0,
    }
}

/// Height of the plane `plane` of a 4:2:0 picture of the given height, and
/// 0 where the layout has no such plane.
pub fn chroma_height(plane: usize, height: usize) -> (r: usize)
    requires
        height < usize::MAX,
    ensures
        r as int == plane_height(plane as int, height as int),
{
    match component_height(plane, height) {
        Some(h) => h,
        None => 0,
    }
}

/// Bytes that a plane of a native picture spans: its row distance times the
/// height of that plane for the stored height `h`.
pub open spec fn plane_span(plane: int, stride: int, h: int) -> int {
    stride * plane_height(plane, h)
}

/// The number of bytes to read of plane `plane` of a native picture with
/// stored height `h` and row distance `stride`. There is none for a negative
/// row distance, nor where the height or the number does not fit the machine.
pub fn plane_len(plane: usize, stride: i32, h: u32) -> (r: Option<usize>)
    ensures
        r is Some <==> 0 <= stride && h < usize::MAX && plane_span(
            plane as int,
            stride as int,
            h as int,
        ) <= usize::MAX,
        r matches Some(n) ==> n as int == plane_span(plane as int, stride as int, h as int),
{
    if stride < 0 || h as usize == usize::MAX {
        return None;
    }
    let rows: usize = chroma_height(plane, h as usize);
    let line: usize = stride as usize;
    proof {
        assert(0 <= rows <= h) by {
            assert(rows as int == plane_height(plane as int, h as int));
        }
        if rows > 0 && line > 0 {
            assert(line * rows >= 0) by (nonlinear_arith)
                requires
                    line >= 0,
                    rows >= 0,
            ;
        }
    }
    line.checked_mul(rows)
}

/// Sets the format of a native picture for a frame of the layout `fmt`: the
/// tag, 8 bits per sample, 12 bits per pixel, and chroma halved both ways.
/// Only the 4:2:0 layout has a tag.
pub fn map_formaton(img: &mut Image<'_>, fmt: PixelFormat)
    requires
        fmt == PixelFormat::YUV420,
    ensures
        final(img).fmt == ImageFormat::I420,
        final(img).bit_depth == 8,
        final(img).bps == 12,
        final(img).x_chroma_shift == 1,
        final(img).y_chroma_shift == 1,
        final(img).w == old(img).w,
        final(img).h == old(img).h,
        final(img).d_w == old(img).d_w,
        final(img).d_h == old(img).d_h,
        final(img).planes == old(img).planes,
        final(img).user_priv == old(img).user_priv,
{
    img.fmt = ImageFormat::I420;
    img.bit_depth = 8;
    img.bps = 12;
    img.x_chroma_shift = 1;
    img.y_chroma_shift = 1;
}

impl Frame {
    /// Whether the adapter can lend this frame to the codec: it has no more
    /// planes than a native picture, and if it is a video frame, it is of
    /// the 4:2:0 layout.
    pub open spec fn adaptable(self) -> bool {
        &&& self.buf@.len() <= MAX_PLANES
        &&& self.kind matches MediaKind::Video(v) ==> v.format == PixelFormat::YUV420
    }

    /// Tests whether the adapter can lend this frame to the codec.
    pub fn is_adaptable(&self) -> (r: bool)
        ensures
            r == self.adaptable(),
    {
        let planes_fit = self.buf.len() <= MAX_PLANES;
        match self.kind {
            MediaKind::Video(v) => planes_fit && v.format == PixelFormat::YUV420,
            MediaKind::Audio => planes_fit,
        }
    }
}

/// The native picture `img` is the frame `frame` on loan: each plane of the
/// picture is the plane of the frame at the same place, with the frame's row
/// distance cut to the native width; a video frame gives the tag and the
/// sample sizes of the 4:2:0 layout and its size as the displayed size, any
/// other frame leaves them unset; the stored size and the handle are zero.
pub open spec fn adapted(frame: Frame, img: Image<'_>) -> bool {
    &&& img.w == 0 && img.h == 0 && img.user_priv == 0
    &&& match frame.kind {
        MediaKind::Video(v) => {
            &&& img.fmt == ImageFormat::I420
            &&& img.bit_depth == 8
            &&& img.bps == 12
            &&& img.x_chroma_shift == 1
            &&& img.y_chroma_shift == 1
            &&& img.d_w == v.width as u32
            &&& img.d_h == v.height as u32
        },
        MediaKind::Audio => {
            &&& img.fmt == ImageFormat::Unset
            &&& img.bit_depth == 0
            &&& img.bps == 0
            &&& img.x_chroma_shift == 0
            &&& img.y_chroma_shift == 0
            &&& img.d_w == 0
            &&& img.d_h == 0
        },
    }
    &&& img.planes@.len() == frame.buf@.len()
    &&& forall|i: int|
        0 <= i < frame.buf@.len() ==> {
            &&& (#[trigger] img.planes@[i]).data@ == frame.buf@[i].data@
            &&& img.planes@[i].stride == frame.buf@[i].linesize as i32
        }
}

/// Lends a frame to the codec as a native picture. Nothing is copied: the
/// picture's planes are the frame's, for as long as the picture lives.
pub fn img_from_frame<'a>(frame: &'a Frame) -> (img: Image<'a>)
    requires
        frame.adaptable(),
    ensures
        adapted(*frame, img),
{
    let mut img = Image {
        fmt: ImageFormat::Unset,
        w: 0,
        h: 0,
        bit_depth: 0,
        d_w: 0,
        d_h: 0,
        x_chroma_shift: 0,
        y_chroma_shift: 0,
        planes: Vec::new(),
        bps: 0,
        user_priv: 0,
    };
    match frame.kind {
        MediaKind::Video(v) => {
            map_formaton(&mut img, v.format);
            img.d_w = #[verifier::truncate] (v.width as u32);
            img.d_h = #[verifier::truncate] (v.height as u32);
        },
        MediaKind::Audio => {},
    }
    let count: usize = frame.buf.len();
    let mut planes: Vec<ImagePlane<'a>> = Vec::new();
    let mut i: usize = 0;
    while i < count
        invariant
            count == frame.buf@.len(),
            0 <= i <= count,
            planes@.len() == i,
            forall|j: int|
                0 <= j < i ==> {
                    &&& (#[trigger] planes@[j]).data@ == frame.buf@[j].data@
                    &&& planes@[j].stride == frame.buf@[j].linesize as i32
                },
        decreases count - i,
    {
        let plane = &frame.buf[i];
        planes.push(
            ImagePlane {
                data: plane.data.as_slice(),
                stride: #[verifier::truncate] (plane.linesize as i32),
            },
        );
        i += 1;
    }
    img.planes = planes;
    img
}

/// The bytes of a plane of `rows` rows at the row distance `linesize` whose
/// first `width` bytes of each row are those of the same row of `src`, read
/// at the row distance `stride`, and whose other bytes are zero.
pub open spec fn copied_plane(src: Seq<u8>, stride: int, linesize: int, width: int, rows: int) -> Seq<
    u8,
> {
    Seq::new(
        (linesize * rows) as nat,
        |k: int|
            if k % linesize < width {
                src[(k / linesize) * stride + k % linesize]
            } else {
                0u8
            },
    )
}

/// A picture of this size can be held in a frame that the adapter allocates:
/// the width is not zero, and the sizes that the allocation computes fit the
/// machine.
pub open spec fn allocatable(width: int, height: int) -> bool {
    &&& 0 < width
    &&& 0 <= height < usize::MAX
    &&& 8 * width + 7 <= usize::MAX
    &&& default_frame_size(width, height) <= isize::MAX
}

/// Every row that the copy reads of the first three planes lies inside the
/// plane that it is read from.
pub open spec fn rows_in_bounds(src: Seq<&[u8]>, strides: Seq<usize>, width: int, height: int) -> bool {
    &&& src.len() >= YUV420_PLANES
    &&& strides.len() >= YUV420_PLANES
    &&& forall|i: int|
        0 <= i < YUV420_PLANES ==> {
            &&& plane_width(i, width) <= #[trigger] strides[i]
            &&& strides[i] * plane_height(i, height) <= src[i]@.len()
        }
}

/// The planes `out` are those of a freshly allocated 4:2:0 frame of the
/// given size into which the first three planes of `src` were copied.
pub open spec fn planes_copied(
    out: Seq<Plane>,
    src: Seq<&[u8]>,
    strides: Seq<usize>,
    width: int,
    height: int,
) -> bool {
    &&& out.len() == YUV420_PLANES
    &&& forall|i: int|
        0 <= i < YUV420_PLANES ==> {
            &&& (#[trigger] out[i]).linesize == default_linesize(i, width)
            &&& out[i].data@ == copied_plane(
                src[i]@,
                strides[i] as int,
                default_linesize(i, width),
                plane_width(i, width),
                plane_height(i, height),
            )
        }
}

/// Allocates a frame with `Frame::new_default_frame` of av-data, for a
/// `VideoInfo` of the given size in its `YUV420` format, fills it with
/// `FrameBufferCopy::copy_from_slice` from `src` and `strides`, and hands
/// out its planes. The contract states what the source of the two shows:
/// one plane for each component, rows aligned to 32 bytes, all bytes zero
/// but the first bytes of each row, which are copied from the same row of
/// the source plane. It leaves out the inputs on which the source panics or
/// reads outside a source plane.
#[verifier::external_body]
fn copy_to_default_frame(width: usize, height: usize, src: &Vec<&[u8]>, strides: &Vec<usize>) -> (out:
    Vec<Plane>)
    requires
        allocatable(width as int, height as int),
        rows_in_bounds(src@, strides@, width as int, height as int),
    ensures
        planes_copied(out@, src@, strides@, width as int, height as int),
{
    let format = std::sync::Arc::new(*av_data::pixel::formats::YUV420);
    let kind = av_data::frame::FrameType::OTHER;
    let video = av_data::frame::VideoInfo::new(width, height, false, kind, format);
    let mut frame = av_data::frame::Frame::new_default_frame(video, None);
    let lines = strides.iter().copied();
    av_data::frame::FrameBufferCopy::copy_from_slice(&mut frame, src.iter().copied(), lines);
    let buf = &frame.buf;
    (0..buf.count()).map(
        |i| Plane { data: buf.as_slice_inner(i).unwrap().to_vec(), linesize: buf.linesize(i).unwrap() },
    ).collect()
}

impl<'a> Image<'a> {
    /// Whether the adapter can copy this picture into a frame: it is of the
    /// 4:2:0 format, a frame of its displayed size can be allocated, and it
    /// has three planes whose rows are long enough and all present.
    pub open spec fn decodable(self) -> bool {
        &&& self.fmt == ImageFormat::I420
        &&& allocatable(self.d_w as int, self.d_h as int)
        &&& self.planes@.len() >= YUV420_PLANES
        &&& forall|i: int|
            0 <= i < YUV420_PLANES ==> {
                &&& plane_width(i, self.d_w as int) <= (#[trigger] self.planes@[i]).stride
                &&& self.planes@[i].stride * plane_height(i, self.d_h as int)
                    <= self.planes@[i].data@.len()
            }
    }
}

/// The frame `frame` is a copy of the native picture `img`: a video frame of
/// the picture's displayed size in the 4:2:0 layout, rows top down, of no
/// particular kind, with no timestamps, and with three planes that hold the
/// picture's rows at the row distance of a freshly allocated frame.
pub open spec fn decoded(img: Image<'_>, frame: Frame) -> bool {
    &&& frame.kind == MediaKind::Video(
        VideoInfo {
            width: img.d_w as usize,
            height: img.d_h as usize,
            flipped: false,
            frame_type: FrameType::OTHER,
            format: PixelFormat::YUV420,
        },
    )
    &&& frame.t == TimeInfo::unset()
    &&& frame.buf@.len() == YUV420_PLANES
    &&& forall|i: int|
        0 <= i < YUV420_PLANES ==> {
            &&& (#[trigger] frame.buf@[i]).linesize == default_linesize(i, img.d_w as int)
            &&& frame.buf@[i].data@ == copied_plane(
                img.planes@[i].data@,
                img.planes@[i].stride as int,
                default_linesize(i, img.d_w as int),
                plane_width(i, img.d_w as int),
                plane_height(i, img.d_h as int),
            )
        }
}

/// Copies a native picture into a frame of its own. The picture's memory is
/// not needed after the call.
pub fn frame_from_img(img: &Image<'_>) -> (frame: Frame)
    requires
        img.decodable(),
    ensures
        decoded(*img, frame),
        frame.dimensions() == Some((img.d_w as int, img.d_h as int)),
{
    let width: usize = img.d_w as usize;
    let height: usize = img.d_h as usize;
    let video = VideoInfo::new(width, height, false, FrameType::OTHER, PixelFormat::YUV420);
    let mut src: Vec<&[u8]> = Vec::new();
    let mut strides: Vec<usize> = Vec::new();
    let mut i: usize = 0;
    while i < YUV420_PLANES
        invariant
            img.decodable(),
            0 <= i <= YUV420_PLANES,
            src@.len() == i,
            strides@.len() == i,
            forall|j: int| 0 <= j < i ==> (#[trigger] src@[j]) == img.planes@[j].data,
            forall|j: int|
                0 <= j < i ==> (#[trigger] strides@[j]) as int == img.planes@[j].stride as int,
        decreases YUV420_PLANES - i,
    {
        let plane = &img.planes[i];
        assert(0 <= plane_width(i as int, img.d_w as int) <= img.planes@[i as int].stride);
        src.push(plane.data);
        strides.push(plane.stride as usize);
        i += 1;
    }
    assert forall|j: int| 0 <= j < YUV420_PLANES implies {
        &&& plane_width(j, width as int) <= #[trigger] strides@[j]
        &&& strides@[j] * plane_height(j, height as int) <= src@[j]@.len()
    } by {
        assert(src@[j] == img.planes@[j].data);
        assert(plane_width(j, img.d_w as int) <= img.planes@[j].stride);
    }
    let buf = copy_to_default_frame(width, height, &src, &strides);
    Frame { kind: MediaKind::Video(video), buf, t: TimeInfo::default() }
}

impl<'a> Image<'a> {
    /// Tests whether the adapter can copy this picture into a frame.
    pub fn is_decodable(&self) -> (r: bool)
        ensures
            r == self.decodable(),
    {
        if self.fmt != ImageFormat::I420 || self.planes.len() < YUV420_PLANES {
            return false;
        }
        if !fits_default_frame(self.d_w, self.d_h) {
            return false;
        }
        let width: usize = self.d_w as usize;
        let height: usize = self.d_h as usize;
        let mut i: usize = 0;
        while i < YUV420_PLANES
            invariant
                0 <= i <= YUV420_PLANES,
                self.planes@.len() >= YUV420_PLANES,
                width == self.d_w,
                height == self.d_h,
                allocatable(width as int, height as int),
                forall|j: int|
                    0 <= j < i ==> {
                        &&& plane_width(j, self.d_w as int) <= (#[trigger] self.planes@[j]).stride
                        &&& self.planes@[j].stride * plane_height(j, self.d_h as int)
                            <= self.planes@[j].data@.len()
                    },
            decreases YUV420_PLANES - i,
        {
            let plane = &self.planes[i];
            let cw: usize = chroma_width(i, width);
            if plane.stride < 0 || (plane.stride as usize) < cw {
                return false;
            }
            let rows: usize = chroma_height(i, height);
            let available: usize = plane.data.len();
            match (plane.stride as usize).checked_mul(rows) {
                Some(n) => {
                    if n > available {
                        return false;
                    }
                },
                None => {
                    return false;
                },
            }
            i += 1;
        }
        true
    }
}

/// Tests whether a frame for a picture of this size can be allocated.
pub fn fits_default_frame(d_w: u32, d_h: u32) -> (r: bool)
    ensures
        r == allocatable(d_w as int, d_h as int),
{
    if d_w == 0 || d_h as usize == usize::MAX || d_w as usize > (usize::MAX - 7) / 8 {
        return false;
    }
    let width: usize = d_w as usize;
    let height: usize = d_h as usize;
    let limit: usize = isize::MAX as usize;
    let mut total: usize = 0;
    let mut i: usize = 0;
    while i < YUV420_PLANES
        invariant
            0 <= i <= YUV420_PLANES,
            0 < width,
            width == d_w,
            height == d_h,
            height < usize::MAX,
            8 * width + 7 <= usize::MAX,
            limit == isize::MAX,
            total <= limit,
            i == 0 ==> total == 0,
            i == 1 ==> total == default_plane_size(0, width as int, height as int),
            i == 2 ==> total == default_plane_size(0, width as int, height as int)
                + default_plane_size(1, width as int, height as int),
            i == 3 ==> total == default_frame_size(width as int, height as int),
        decreases YUV420_PLANES - i,
    {
        let cw: usize = chroma_width(i, width);
        let rows: usize = chroma_height(i, height);
        let line: usize = (cw + (ROW_ALIGNMENT - 1)) / ROW_ALIGNMENT * ROW_ALIGNMENT;
        assert(line as int == default_linesize(i as int, width as int));
        proof {
            lemma_plane_size_nonnegative(i as int, width as int, height as int);
        }
        match line.checked_mul(rows) {
            Some(n) => {
                if n > limit - total {
                    proof {
                        lemma_frame_size_bounds(width as int, height as int);
                    }
                    return false;
                }
                total = total + n;
            },
            None => {
                proof {
                    lemma_frame_size_bounds(width as int, height as int);
                }
                return false;
            },
        }
        i += 1;
    }
    true
}

/// No plane of an allocated frame has a negative size.
pub proof fn lemma_plane_size_nonnegative(plane: int, width: int, height: int)
    requires
        0 <= width,
        0 <= height,
    ensures
        0 <= plane_width(plane, width),
        0 <= plane_height(plane, height),
        0 <= default_linesize(plane, width),
        0 <= default_plane_size(plane, width, height),
{
    let l = default_linesize(plane, width);
    let r = plane_height(plane, height);
    assert(0 <= l * r) by (nonlinear_arith)
        requires
            0 <= l,
            0 <= r,
    ;
}

/// The size of an allocated frame is at least that of each of its planes.
pub proof fn lemma_frame_size_bounds(width: int, height: int)
    requires
        0 <= width,
        0 <= height,
    ensures
        default_plane_size(0, width, height) <= default_frame_size(width, height),
        default_plane_size(0, width, height) + default_plane_size(1, width, height)
            <= default_frame_size(width, height),
        default_plane_size(1, width, height) <= default_frame_size(width, height),
        default_plane_size(2, width, height) <= default_frame_size(width, height),
{
    lemma_plane_size_nonnegative(0, width, height);
    lemma_plane_size_nonnegative(1, width, height);
    lemma_plane_size_nonnegative(2, width, height);
}

/// The adapter keeps the size of a picture: where a video frame whose width
/// and height fit the native picture is lent to the codec, and a picture of
/// the same displayed size is copied into a frame, that frame declares the
/// width and height of the first.
pub proof fn lemma_adapter_keeps_dimensions(
    frame: Frame,
    lent: Image<'_>,
    emitted: Image<'_>,
    out: Frame,
)
    requires
        frame.kind matches MediaKind::Video(v) && v.width <= u32::MAX && v.height <= u32::MAX,
        adapted(frame, lent),
        emitted.d_w == lent.d_w,
        emitted.d_h == lent.d_h,
        decoded(emitted, out),
    ensures
        out.dimensions() == frame.dimensions(),
        out.dimensions() is Some,
{
}

/// A copied plane has as many bytes as its rows take at the row distance of
/// the frame, and each byte within the width of a row is the byte of the
/// picture at the same row and column.
pub proof fn lemma_copied_plane_keeps_pixels(
    src: Seq<u8>,
    stride: int,
    linesize: int,
    width: int,
    rows: int,
    row: int,
    column: int,
)
    requires
        0 <= width <= linesize,
        0 <= row < rows,
        0 <= column < width,
    ensures
        copied_plane(src, stride, linesize, width, rows).len() == linesize * rows,
        copied_plane(src, stride, linesize, width, rows)[row * linesize + column] == src[row
            * stride + column],
{
    let k = row * linesize + column;
    assert(0 <= k < linesize * rows && k / linesize == row && k % linesize == column)
        by (nonlinear_arith)
        requires
            k == row * linesize + column,
            0 <= column < linesize,
            0 <= row < rows,
    ;
}

/// Copying a plane that is itself a copy, read at its own row distance,
/// gives the same bytes again.
pub proof fn lemma_copy_of_copy(src: Seq<u8>, stride: int, linesize: int, width: int, rows: int)
    requires
        0 < linesize,
        0 <= rows,
    ensures
        copied_plane(copied_plane(src, stride, linesize, width, rows), linesize, linesize, width, rows)
            =~= copied_plane(src, stride, linesize, width, rows),
{
    let first = copied_plane(src, stride, linesize, width, rows);
    let second = copied_plane(first, linesize, linesize, width, rows);
    assert(0 <= linesize * rows) by (nonlinear_arith)
        requires
            0 < linesize,
            0 <= rows,
    ;
    assert forall|k: int| 0 <= k < linesize * rows implies second[k] == first[k] by {
        assert(k == (k / linesize) * linesize + k % linesize) by (nonlinear_arith)
            requires
                0 < linesize,
        ;
    }
}

/// A frame that the adapter made goes through the adapter unchanged: lent
/// to the codec it is a picture that the adapter can copy, and the copy has
/// the planes, the row distances, the size and the layout of the frame. The
/// row distance of the frame has to fit the native picture.
pub proof fn lemma_adapter_round_trip(src: Image<'_>, frame: Frame, lent: Image<'_>, out: Frame)
    requires
        src.decodable(),
        decoded(src, frame),
        default_linesize(0, src.d_w as int) <= i32::MAX,
        adapted(frame, lent),
        decoded(lent, out),
    ensures
        lent.decodable(),
        out.kind == frame.kind,
        out.t == frame.t,
        out.buf@.len() == frame.buf@.len(),
        forall|i: int|
            0 <= i < frame.buf@.len() ==> {
                &&& (#[trigger] out.buf@[i]).linesize == frame.buf@[i].linesize
                &&& out.buf@[i].data@ == frame.buf@[i].data@
            },
{
    let w = src.d_w as int;
    let h = src.d_h as int;
    assert(lent.d_w == src.d_w && lent.d_h == src.d_h);
    assert forall|i: int| 0 <= i < YUV420_PLANES implies {
        &&& 0 < default_linesize(i, w) <= i32::MAX
        &&& plane_width(i, w) <= default_linesize(i, w)
        &&& 0 <= plane_height(i, h)
        &&& (#[trigger] lent.planes@[i]).stride == default_linesize(i, w)
        &&& lent.planes@[i].data@ == frame.buf@[i].data@
        &&& frame.buf@[i].data@.len() == default_linesize(i, w) * plane_height(i, h)
    } by {
        let l = default_linesize(i, w);
        let r = plane_height(i, h);
        assert(frame.buf@[i].linesize == l);
        assert(0 <= l * r) by (nonlinear_arith)
            requires
                0 < l,
                0 <= r,
        ;
    }
    assert forall|i: int| 0 <= i < frame.buf@.len() implies {
        &&& (#[trigger] out.buf@[i]).linesize == frame.buf@[i].linesize
        &&& out.buf@[i].data@ == frame.buf@[i].data@
    } by {
        assert(lent.planes@[i].stride == default_linesize(i, w));
        lemma_copy_of_copy(
            src.planes@[i].data@,
            src.planes@[i].stride as int,
            default_linesize(i, w),
            plane_width(i, w),
            plane_height(i, h),
        );
    }
}

} // verus!
