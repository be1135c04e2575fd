//! Captured frames in their pixel layouts, and pure conversions between them.

use vstd::prelude::*;
use vstd::arithmetic::div_mod::{lemma_fundamental_div_mod, lemma_mod_pos_bound, lemma_div_pos_is_pos,
    lemma_fundamental_div_mod_converse};

verus! {

/// A planar YUV frame: a luminance plane and a chrominance plane, each with its row stride.
#[derive(Debug, Clone)]
pub struct YUVFrame {
    pub display_time: u64,
    pub width: u32,
    pub height: u32,
    pub luminance_bytes: Vec<u8>,
    pub luminance_stride: i32,
    pub chrominance_bytes: Vec<u8>,
    pub chrominance_stride: i32,
}

/// Packed 3-bytes-per-pixel RGB.
#[derive(Debug, Clone)]
pub struct RGBFrame {
    pub display_time: u64,
    pub width: u32,
    pub height: u32,
    pub data: Vec<u8>,
}

/// An RGB frame described by its geometry only.
#[derive(Debug, Clone)]
pub struct RGB8Frame {
    pub display_time: u64,
    pub width: u32,
    pub height: u32,
}

/// Packed RGB with an ignored fourth byte.
#[derive(Debug, Clone)]
pub struct RGBxFrame {
    pub display_time: u64,
    pub width: u32,
    pub height: u32,
    pub data: Vec<u8>,
}

/// Packed XBGR: an ignored first byte, then blue, green, red.
#[derive(Debug, Clone)]
pub struct XBGRFrame {
    pub display_time: u64,
    pub width: u32,
    pub height: u32,
    pub data: Vec<u8>,
}

/// Packed BGR with an ignored fourth byte.
#[derive(Debug, Clone)]
pub struct BGRxFrame {
    pub display_time: u64,
    pub width: u32,
    pub height: u32,
    pub data: Vec<u8>,
}

/// Packed BGR with a zero fourth byte.
#[derive(Debug, Clone)]
pub struct BGRFrame {
    pub display_time: u64,
    pub width: u32,
    pub height: u32,
    pub data: Vec<u8>,
}

/// Packed BGRA with a usable alpha byte.
#[derive(Debug, Clone)]
pub struct BGRAFrame {
    pub display_time: u64,
    pub width: u32,
    pub height: u32,
    pub data: Vec<u8>,
}

/// The pixel layout a capture is asked to deliver.
#[derive(Debug, Clone, Copy, Default)]
pub enum FrameType {
    #[default]
    YUVFrame,
    BGR0,
    RGB,
    BGRAFrame,
}

/// One captured image in one of the supported layouts; `Empty` means no data yet.
#[derive(Debug, Clone)]
pub enum Frame {
    YUVFrame(YUVFrame),
    RGB(RGBFrame),
    RGBx(RGBxFrame),
    XBGR(XBGRFrame),
    BGRx(BGRxFrame),
    BGR0(BGRFrame),
    BGRA(BGRAFrame),
    Empty,
}

/// A borrowed view of a frame's pixels, for encoders.
pub enum FrameData<'a> {
    NV12(&'a YUVFrame),
    BGR0(&'a [u8]),
}

impl Frame {
    /// The frame as packed RGB. An RGB frame is copied and a BGRA frame converted;
    /// the other layouts have no conversion and give an empty, zero-sized frame.
    pub fn to_rgb(&self) -> (r: RGBFrame)
        ensures
            match self {
                Frame::RGB(f) => r.display_time == f.display_time && r.width == f.width && r.height
                    == f.height && r.data@ == f.data@,
                Frame::BGRA(f) => r.display_time == f.display_time && r.width == f.width && r.height
                    == f.height && r.data@ == bgra_to_rgb(f.data@),
                _ => r.display_time == 0 && r.width == 0 && r.height == 0 && r.data@.len() == 0,
            },
    {
        match self {
            Frame::RGB(f) => RGBFrame {
                display_time: f.display_time,
                width: f.width,
                height: f.height,
                data: f.data.clone(),
            },
            Frame::BGRA(f) => RGBFrame {
                display_time: f.display_time,
                width: f.width,
                height: f.height,
                data: convert_bgra_to_rgb(f.data.clone()),
            },
            _ => RGBFrame { display_time: 0, width: 0, height: 0, data: Vec::new() },
        }
    }
}

/// The bytes of a packed 4-bytes-per-pixel buffer with byte 3 of every
/// pixel dropped; a trailing partial pixel is dropped too.
pub open spec fn strip_alpha(s: Seq<u8>) -> Seq<u8> {
    Seq::new((3 * (s.len() / 4)) as nat, |k: int| s[4 * (k / 3) + k % 3])
}

/// Each whole `[b, g, r, a]` pixel of `s` written as `[r, g, b]`.
pub open spec fn bgra_to_rgb(s: Seq<u8>) -> Seq<u8> {
    Seq::new((3 * (s.len() / 4)) as nat, |k: int| s[4 * (k / 3) + (2 - k % 3)])
}

/// Drops the fourth byte of every 4-byte pixel, keeping the first three in order.
pub fn remove_alpha_channel(frame_data: Vec<u8>) -> (r: Vec<u8>)
    ensures
        r@ == strip_alpha(frame_data@),
        r@.len() == 3 * (frame_data@.len() / 4),
{
    let n = frame_data.len() / 4;
    let mut data: Vec<u8> = Vec::new();
    let mut p: usize = 0;
    while p < n
        invariant
            p <= n,
            n == frame_data@.len() / 4,
            frame_data@.len() <= usize::MAX,
            data@.len() == 3 * p,
            forall|k: int| 0 <= k < 3 * p ==> data@[k] == frame_data@[4 * (k / 3) + k % 3],
        decreases n - p,
    {
        let base = 4 * p;
        data.push(frame_data[base]);
        data.push(frame_data[base + 1]);
        data.push(frame_data[base + 2]);
        p += 1;
    }
    assert(data@ =~= strip_alpha(frame_data@));
    data
}

/// Turns packed BGRA pixels into packed RGB pixels: `[b, g, r, a]` becomes `[r, g, b]`.
pub fn convert_bgra_to_rgb(frame_data: Vec<u8>) -> (r: Vec<u8>)
    ensures
        r@ == bgra_to_rgb(frame_data@),
        r@.len() == 3 * (frame_data@.len() / 4),
{
    let n = frame_data.len() / 4;
    let mut data: Vec<u8> = Vec::new();
    let mut p: usize = 0;
    while p < n
        invariant
            p <= n,
            n == frame_data@.len() / 4,
            frame_data@.len() <= usize::MAX,
            data@.len() == 3 * p,
            forall|k: int| 0 <= k < 3 * p ==> data@[k] == frame_data@[4 * (k / 3) + (2 - k % 3)],
        decreases n - p,
    {
        let base = 4 * p;
        data.push(frame_data[base + 2]);
        data.push(frame_data[base + 1]);
        data.push(frame_data[base]);
        p += 1;
    }
    assert(data@ =~= bgra_to_rgb(frame_data@));
    data
}

/// `n / d` rounded to the nearest integer, halves away from zero.
pub open spec fn round_div(n: int, d: int) -> int {
    if n >= 0 {
        (n + d / 2) / d
    } else {
        -((-n + d / 2) / d)
    }
}

/// An integer saturated into the byte range.
pub open spec fn clamp_u8(v: int) -> u8 {
    if v < 0 {
        0
    } else if v > 255 {
        255
    } else {
        v as u8
    }
}

/// BT.601 luma of one pixel: `round(0.299 R + 0.587 G + 0.114 B)`.
pub open spec fn luma(b: u8, g: u8, r: u8) -> u8 {
    clamp_u8(round_div(299 * r + 587 * g + 114 * b, 1000))
}

/// Blue-difference chroma: `round(-0.14713 R - 0.28886 G + 0.436 B) + 128`, as a byte.
pub open spec fn chroma_u(b: u8, g: u8, r: u8) -> u8 {
    clamp_u8(round_div(43600 * b - 14713 * r - 28886 * g, 100000) + 128)
}

/// Red-difference chroma: `round(0.615 R - 0.51499 G - 0.10001 B) + 128`, as a byte.
pub open spec fn chroma_v(b: u8, g: u8, r: u8) -> u8 {
    clamp_u8(round_div(61500 * r - 51499 * g - 10001 * b, 100000) + 128)
}

/// The luminance plane of the BGRA pixels `0 .. n` of `s`.
pub open spec fn luma_plane(s: Seq<u8>, n: int) -> Seq<u8> {
    Seq::new(n as nat, |p: int| luma(s[4 * p], s[4 * p + 1], s[4 * p + 2]))
}

/// Pixel index of the top-left pixel of the 2x2 block `j`, in an image `w` pixels wide.
pub open spec fn block_origin(j: int, w: int) -> int {
    2 * (j / (w / 2)) * w + 2 * (j % (w / 2))
}

/// The quarter-resolution U plane: one sample per 2x2 block, from its top-left pixel.
pub open spec fn u_plane(s: Seq<u8>, w: int, h: int) -> Seq<u8> {
    Seq::new(
        (w * h / 4) as nat,
        |j: int|
            {
                let p = block_origin(j, w);
                chroma_u(s[4 * p], s[4 * p + 1], s[4 * p + 2])
            },
    )
}

/// The quarter-resolution V plane: one sample per 2x2 block, from its top-left pixel.
pub open spec fn v_plane(s: Seq<u8>, w: int, h: int) -> Seq<u8> {
    Seq::new(
        (w * h / 4) as nat,
        |j: int|
            {
                let p = block_origin(j, w);
                chroma_v(s[4 * p], s[4 * p + 1], s[4 * p + 2])
            },
    )
}

/// `round_div(pos - neg, 100000) + 128`, saturated into a byte.
fn chroma_byte(pos: u64, neg: u64) -> (r: u8)
    requires
        pos <= 100_000_000,
        neg <= 100_000_000,
    ensures
        r == clamp_u8(round_div(pos - neg, 100000) + 128),
{
    if pos >= neg {
        let q = (pos - neg + 50000) / 100000;
        if q > 127 {
            255
        } else {
            (q + 128) as u8
        }
    } else {
        let q = (neg - pos + 50000) / 100000;
        if q > 128 {
            0
        } else {
            (128 - q) as u8
        }
    }
}

fn luma_of(b: u8, g: u8, r: u8) -> (y: u8)
    ensures
        y == luma(b, g, r),
{
    let n: u32 = 299 * (r as u32) + 587 * (g as u32) + 114 * (b as u32);
    ((n + 500) / 1000) as u8
}

fn chroma_u_of(b: u8, g: u8, r: u8) -> (u: u8)
    ensures
        u == chroma_u(b, g, r),
{
    chroma_byte(43600 * (b as u64), 14713 * (r as u64) + 28886 * (g as u64))
}

fn chroma_v_of(b: u8, g: u8, r: u8) -> (v: u8)
    ensures
        v == chroma_v(b, g, r),
{
    chroma_byte(61500 * (r as u64), 51499 * (g as u64) + 10001 * (b as u64))
}

/// The block `j` of an image with even sides starts at a pixel inside the image.
proof fn lemma_block_origin_bounds(j: int, w: int, h: int)
    requires
        w >= 0,
        h >= 0,
        w % 2 == 0,
        h % 2 == 0,
        0 <= j < w * h / 4,
    ensures
        w / 2 > 0,
        0 <= j / (w / 2),
        0 <= 2 * (j / (w / 2)) * w,
        0 <= block_origin(j, w) < w * h,
{
    let hw = w / 2;
    let hh = h / 2;
    assert(w * h == 4 * (hw * hh)) by (nonlinear_arith)
        requires
            w == 2 * hw,
            h == 2 * hh,
    ;
    assert(hw > 0) by (nonlinear_arith)
        requires
            hw >= 0,
            0 <= j < hw * hh,
    ;
    lemma_fundamental_div_mod(j, hw);
    lemma_mod_pos_bound(j, hw);
    lemma_div_pos_is_pos(j, hw);
    let q = j / hw;
    let rem = j % hw;
    assert(q < hh) by (nonlinear_arith)
        requires
            j == hw * q + rem,
            0 <= rem,
            j < hw * hh,
            hw > 0,
    ;
    assert(0 <= 2 * q * w + 2 * rem < w * h) by (nonlinear_arith)
        requires
            0 <= q < hh,
            0 <= rem < hw,
            w == 2 * hw,
            h == 2 * hh,
    ;
}

/// Converts packed BGRA pixels into a full-resolution luminance plane and two
/// quarter-resolution chrominance planes (U, V), each chroma sample taken from
/// the top-left pixel of its 2x2 block.
pub fn convert_bgra_to_yuv420(bgra: &[u8], width: usize, height: usize) -> (r: (
    Vec<u8>,
    Vec<u8>,
    Vec<u8>,
))
    requires
        width % 2 == 0,
        height % 2 == 0,
        bgra@.len() == width * height * 4,
    ensures
        r.0@ == luma_plane(bgra@, width * height),
        r.1@ == u_plane(bgra@, width as int, height as int),
        r.2@ == v_plane(bgra@, width as int, height as int),
{
    let len = bgra.len();
    let pixels = len / 4;
    assert(pixels == width * height);
    let mut y_plane: Vec<u8> = Vec::new();
    let mut p: usize = 0;
    while p < pixels
        invariant
            p <= pixels,
            pixels == width * height,
            bgra@.len() == 4 * pixels,
            4 * pixels <= usize::MAX,
            y_plane@.len() == p,
            forall|k: int|
                0 <= k < p ==> y_plane@[k] == luma(bgra@[4 * k], bgra@[4 * k + 1], bgra@[4 * k + 2]),
        decreases pixels - p,
    {
        let i = 4 * p;
        y_plane.push(luma_of(bgra[i], bgra[i + 1], bgra[i + 2]));
        p += 1;
    }
    assert(y_plane@ =~= luma_plane(bgra@, width * height));

    let blocks = pixels / 4;
    let half_width = width / 2;
    let mut u_samples: Vec<u8> = Vec::new();
    let mut v_samples: Vec<u8> = Vec::new();
    let mut j: usize = 0;
    while j < blocks
        invariant
            j <= blocks,
            blocks == width * height / 4,
            half_width == width / 2,
            width % 2 == 0,
            height % 2 == 0,
            pixels == width * height,
            bgra@.len() == 4 * pixels,
            4 * pixels <= usize::MAX,
            u_samples@.len() == j,
            v_samples@.len() == j,
            forall|k: int|
                0 <= k < j ==> {
                    let o = #[trigger] block_origin(k, width as int);
                    &&& u_samples@[k] == chroma_u(bgra@[4 * o], bgra@[4 * o + 1], bgra@[4 * o + 2])
                    &&& v_samples@[k] == chroma_v(bgra@[4 * o], bgra@[4 * o + 1], bgra@[4 * o + 2])
                },
        decreases blocks - j,
    {
        proof {
            lemma_block_origin_bounds(j as int, width as int, height as int);
        }
        let origin = 2 * (j / half_width) * width + 2 * (j % half_width);
        assert(origin == block_origin(j as int, width as int));
        let i = 4 * origin;
        u_samples.push(chroma_u_of(bgra[i], bgra[i + 1], bgra[i + 2]));
        v_samples.push(chroma_v_of(bgra[i], bgra[i + 1], bgra[i + 2]));
        j += 1;
    }
    assert(u_samples@ =~= u_plane(bgra@, width as int, height as int));
    assert(v_samples@ =~= v_plane(bgra@, width as int, height as int));
    (y_plane, u_samples, v_samples)
}

/// The first `width` columns of each of `height` rows of 4-byte pixels that are
/// `cur_width` pixels wide: byte `k` of the result is byte `k % (4 * width)` of row
/// `k / (4 * width)`.
pub open spec fn crop_rows(data: Seq<u8>, cur_width: int, height: int, width: int) -> Seq<u8> {
    Seq::new(
        (height * width * 4) as nat,
        |k: int| data[(k / (4 * width)) * (4 * cur_width) + k % (4 * width)],
    )
}

/// A packed RGBA buffer cut to its left `width` columns; a buffer whose length is
/// not `height * cur_width * 4`, or a crop that would not narrow it, leaves it as it is.
pub open spec fn cropped(data: Seq<u8>, cur_width: int, height: int, width: int) -> Seq<u8> {
    if data.len() == height * cur_width * 4 && width < cur_width {
        crop_rows(data, cur_width, height, width)
    } else {
        data
    }
}

/// Crops a packed 4-bytes-per-pixel buffer of `height` rows from `cur_width`
/// columns to its left `width` columns.
pub fn get_cropped_data(data: Vec<u8>, cur_width: u32, height: u32, width: u32) -> (r: Vec<u8>)
    ensures
        r@ == cropped(data@, cur_width as int, height as int, width as int),
        data@.len() != height * cur_width * 4 ==> r@ == data@,
        width == cur_width ==> r@ == data@,
{
    assert(height * cur_width * 4 <= u128::MAX) by (nonlinear_arith)
        requires
            height <= u32::MAX,
            cur_width <= u32::MAX,
    ;
    if data.len() as u128 != (height as u128) * (cur_width as u128) * 4 || width >= cur_width {
        return data;
    }
    if height == 0 {
        assert(height * cur_width * 4 == 0 && height * width * 4 == 0) by (nonlinear_arith)
            requires
                height == 0,
        ;
        assert(crop_rows(data@, cur_width as int, height as int, width as int) =~= data@);
        return data;
    }
    let rows = height as usize;
    assert(cur_width * 4 <= height * cur_width * 4) by (nonlinear_arith)
        requires
            height >= 1,
    ;
    let row_len = 4 * (cur_width as usize);
    let keep = 4 * (width as usize);
    let ghost len = data@.len();
    assert(len == rows * row_len) by (nonlinear_arith)
        requires
            len == height * cur_width * 4,
            rows == height,
            row_len == 4 * cur_width,
    ;
    let mut out: Vec<u8> = Vec::new();
    let mut r: usize = 0;
    while r < rows
        invariant
            r <= rows,
            keep < row_len,
            len == data@.len(),
            len == rows * row_len,
            len <= usize::MAX,
            out@.len() == r * keep,
            forall|k: int|
                0 <= k < out@.len() ==> #[trigger] out@[k] == data@[(k / keep as int) * row_len + k
                    % keep as int],
        decreases rows - r,
    {
        assert(r * row_len + row_len <= rows * row_len) by (nonlinear_arith)
            requires
                r < rows,
        ;
        let start = r * row_len;
        let mut c: usize = 0;
        while c < keep
            invariant
                r < rows,
                c <= keep,
                keep < row_len,
                len == data@.len(),
                start == r * row_len,
                start + row_len <= len,
                len <= usize::MAX,
                out@.len() == r * keep + c,
                forall|k: int|
                    0 <= k < out@.len() ==> #[trigger] out@[k] == data@[(k / keep as int) * row_len
                        + k % keep as int],
            decreases keep - c,
        {
            out.push(data[start + c]);
            proof {
                let k = r * keep + c;
                lemma_fundamental_div_mod_converse(k, keep as int, r as int, c as int);
            }
            c += 1;
        }
        assert((r + 1) * keep == r * keep + keep) by (nonlinear_arith);
        r += 1;
    }
    assert(out@.len() == height * width * 4) by (nonlinear_arith)
        requires
            out@.len() == rows * keep,
            rows == height,
            keep == 4 * width,
    ;
    assert(out@ =~= crop_rows(data@, cur_width as int, height as int, width as int));
    out
}

} // verus!
