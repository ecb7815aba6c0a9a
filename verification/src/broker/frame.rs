//! Binary messages to the browser.
//!
//! A graphics frame carries a rectangle of the desktop:
//!
//! | bytes  | content                  |
//! |--------|--------------------------|
//! | 0..2   | width, little-endian     |
//! | 2..4   | height, little-endian    |
//! | 4..6   | x offset, little-endian  |
//! | 6..8   | y offset, little-endian  |
//! | 8..    | the pixels, lossless WebP |
//!
//! A pointer message is the byte 1, the two hotspot coordinates (little-endian), and the
//! pointer's pixels as WebP. A video message is the byte 4 and a piece of an H.264 stream.

use crate::bytes::{append, append_le16, le16};
use vstd::arithmetic::div_mod::lemma_fundamental_div_mod_converse;
use vstd::prelude::*;
use vstd::slice::slice_subrange;

verus! {

/// A rectangle of the desktop. All four edges belong to it.
#[derive(Clone, Copy, Debug, PartialEq, Eq, Structural)]
pub struct Rect {
    pub left: u16,
    pub top: u16,
    pub right: u16,
    pub bottom: u16,
}

impl Rect {
    /// The point (`x`, `y`) lies in the rectangle.
    pub open spec fn holds(self, x: int, y: int) -> bool {
        self.left <= x <= self.right && self.top <= y <= self.bottom
    }

    /// The smallest rectangle around this one and another.
    pub open spec fn union_of(self, other: Rect) -> Rect {
        Rect {
            left: if self.left <= other.left {
                self.left
            } else {
                other.left
            },
            top: if self.top <= other.top {
                self.top
            } else {
                other.top
            },
            right: if self.right >= other.right {
                self.right
            } else {
                other.right
            },
            bottom: if self.bottom >= other.bottom {
                self.bottom
            } else {
                other.bottom
            },
        }
    }

    /// The smallest rectangle around this one and another.
    pub fn union(self, other: Rect) -> (r: Rect)
        ensures
            r == self.union_of(other),
    {
        Rect {
            left: if self.left <= other.left {
                self.left
            } else {
                other.left
            },
            top: if self.top <= other.top {
                self.top
            } else {
                other.top
            },
            right: if self.right >= other.right {
                self.right
            } else {
                other.right
            },
            bottom: if self.bottom >= other.bottom {
                self.bottom
            } else {
                other.bottom
            },
        }
    }
}

/// The dirty region after one more update: the update alone, or the two together.
pub open spec fn grown(dirty: Option<Rect>, update: Rect) -> Rect {
    match dirty {
        Some(d) => d.union_of(update),
        None => update,
    }
}

/// A dirty region loses nothing when it grows: it covers what was dirty and what was updated,
/// and the order in which updates come in makes no difference.
pub proof fn growing_keeps_every_point(a: Rect, b: Rect, c: Rect, x: int, y: int)
    ensures
        a.holds(x, y) || b.holds(x, y) ==> a.union_of(b).holds(x, y),
        a.union_of(b) == b.union_of(a),
        a.union_of(b).union_of(c) == a.union_of(b.union_of(c)),
        a.union_of(a) == a,
{
}

/// The least upper bound: a rectangle that covers two others edge by edge covers their union.
pub proof fn union_is_the_smallest(a: Rect, b: Rect, around: Rect)
    requires
        around.left <= a.left && around.top <= a.top && around.right >= a.right && around.bottom
            >= a.bottom,
        around.left <= b.left && around.top <= b.top && around.right >= b.right && around.bottom
            >= b.bottom,
    ensures
        around.left <= a.union_of(b).left,
        around.top <= a.union_of(b).top,
        around.right >= a.union_of(b).right,
        around.bottom >= a.union_of(b).bottom,
{
}

/// The largest width or height that WebP knows.
pub const WEBP_MAX_DIMENSION: u32 = 16383;

/// The lossless WebP file of an RGBA picture.
pub uninterp spec fn webp_lossless(rgba: Seq<u8>, width: u32, height: u32) -> Seq<u8>;

/// `webp::Encoder::encode_lossless`: the picture as a lossless WebP file. It takes pictures of
/// up to 16383 by 16383 pixels whose bytes are all there.
#[verifier::external_body]
fn encode_lossless(rgba: &[u8], width: u32, height: u32) -> (r: Vec<u8>)
    requires
        1 <= width <= WEBP_MAX_DIMENSION,
        1 <= height <= WEBP_MAX_DIMENSION,
        rgba@.len() >= width * height * 4,
    ensures
        r@ == webp_lossless(rgba@, width, height),
{
    webp::Encoder::from_rgba(rgba, width, height).encode_lossless().to_vec()
}

/// The lossy WebP file of an RGBA picture, at a quality between 0 and 100, or none where the
/// picture is too much for one file.
pub uninterp spec fn webp_lossy(rgba: Seq<u8>, width: u32, height: u32, quality: u8) -> Option<
    Seq<u8>,
>;

/// `webp::Encoder::encode_simple`, lossy: the picture as a WebP file of the given quality, or none
/// where the encoder fails, as it does on very large pictures with much detail. It takes pictures
/// of up to 16383 by 16383 pixels whose bytes are all there.
#[verifier::external_body]
fn encode_lossy(rgba: &[u8], width: u32, height: u32, quality: u8) -> (r: Option<Vec<u8>>)
    requires
        1 <= width <= WEBP_MAX_DIMENSION,
        1 <= height <= WEBP_MAX_DIMENSION,
        rgba@.len() >= width * height * 4,
        quality <= 100,
    ensures
        r is Some <==> webp_lossy(rgba@, width, height, quality) is Some,
        r is Some ==> r->0@ == webp_lossy(rgba@, width, height, quality)->0,
{
    let file = webp::Encoder::from_rgba(rgba, width, height).encode_simple(false, quality.into());
    Some(file.ok()?.to_vec())
}

/// The bytes of a graphics frame.
pub open spec fn graphics_bytes(width: u16, height: u16, x: u16, y: u16, webp: Seq<u8>) -> Seq<u8> {
    le16(width) + le16(height) + le16(x) + le16(y) + webp
}

/// Puts a compressed rectangle behind its header.
pub fn graphics_frame(width: u16, height: u16, x: u16, y: u16, webp: &[u8]) -> (r: Vec<u8>)
    ensures
        r@ == graphics_bytes(width, height, x, y, webp@),
{
    let mut out: Vec<u8> = Vec::new();
    append_le16(&mut out, width);
    append_le16(&mut out, height);
    append_le16(&mut out, x);
    append_le16(&mut out, y);
    append(&mut out, webp);
    assert(out@ =~= graphics_bytes(width, height, x, y, webp@));
    out
}

/// A graphics frame says exactly what was put into it: frames with the same bytes have the same
/// size, the same place and the same picture.
pub proof fn graphics_frame_reads_back(
    w1: u16,
    h1: u16,
    x1: u16,
    y1: u16,
    p1: Seq<u8>,
    w2: u16,
    h2: u16,
    x2: u16,
    y2: u16,
    p2: Seq<u8>,
)
    requires
        graphics_bytes(w1, h1, x1, y1, p1) == graphics_bytes(w2, h2, x2, y2, p2),
    ensures
        w1 == w2,
        h1 == h2,
        x1 == x2,
        y1 == y2,
        p1 == p2,
{
    let a = graphics_bytes(w1, h1, x1, y1, p1);
    let b = graphics_bytes(w2, h2, x2, y2, p2);
    assert(a[0] == le16(w1)[0] && a[1] == le16(w1)[1] && a[2] == le16(h1)[0] && a[3] == le16(h1)[1]
        && a[4] == le16(x1)[0] && a[5] == le16(x1)[1] && a[6] == le16(y1)[0] && a[7] == le16(
        y1,
    )[1]);
    assert(b[0] == le16(w2)[0] && b[1] == le16(w2)[1] && b[2] == le16(h2)[0] && b[3] == le16(h2)[1]
        && b[4] == le16(x2)[0] && b[5] == le16(x2)[1] && b[6] == le16(y2)[0] && b[7] == le16(
        y2,
    )[1]);
    assert(p1 =~= a.subrange(8, a.len() as int));
    assert(p2 =~= b.subrange(8, b.len() as int));
}

/// The bytes of a pointer message.
pub open spec fn pointer_bytes(hx: u16, hy: u16, webp: Seq<u8>) -> Seq<u8> {
    seq![1u8] + le16(hx) + le16(hy) + webp
}

/// Puts a compressed pointer behind its header.
pub fn pointer_frame(hx: u16, hy: u16, webp: &[u8]) -> (r: Vec<u8>)
    ensures
        r@ == pointer_bytes(hx, hy, webp@),
{
    let mut out: Vec<u8> = Vec::new();
    out.push(1u8);
    append_le16(&mut out, hx);
    append_le16(&mut out, hy);
    append(&mut out, webp);
    assert(out@ =~= pointer_bytes(hx, hy, webp@));
    out
}

/// Puts a piece of an H.264 stream into a video message.
pub fn video_packet(data: &[u8]) -> (r: Vec<u8>)
    ensures
        r@ == seq![4u8] + data@,
{
    let mut out: Vec<u8> = Vec::new();
    out.push(4u8);
    append(&mut out, data);
    assert(out@ =~= seq![4u8] + data@);
    out
}

/// The part of a coordinate that lies on an axis `size` long.
pub open spec fn clamped(v: u16, size: u16) -> int {
    if v < size {
        v as int
    } else {
        size - 1
    }
}

/// The part of `rect` that lies on a desktop `width` by `height`.
pub open spec fn clipped(rect: Rect, width: u16, height: u16) -> Rect {
    Rect {
        left: clamped(rect.left, width) as u16,
        top: clamped(rect.top, height) as u16,
        right: clamped(rect.right, width) as u16,
        bottom: clamped(rect.bottom, height) as u16,
    }
}

impl Rect {
    /// No pixel lies in the rectangle.
    pub open spec fn is_empty(self) -> bool {
        self.right < self.left || self.bottom < self.top
    }

    pub open spec fn wide(self) -> int {
        self.right - self.left + 1
    }

    pub open spec fn high(self) -> int {
        self.bottom - self.top + 1
    }
}

/// The byte `k` of the pixels of `rect`, cut out of a picture `full_w` pixels wide.
pub open spec fn cropped_byte(rgba: Seq<u8>, full_w: int, rect: Rect, k: int) -> u8 {
    let w = rect.wide();
    let x = rect.left + (k / 4) % w;
    let y = rect.top + (k / 4) / w;
    rgba[(y * full_w + x) * 4 + k % 4]
}

/// The pixels of `rect`, cut out of a picture `full_w` pixels wide.
pub open spec fn cropped(rgba: Seq<u8>, full_w: int, rect: Rect) -> Seq<u8> {
    Seq::new(
        (rect.wide() * rect.high() * 4) as nat,
        |k: int| cropped_byte(rgba, full_w, rect, k),
    )
}

/// The rectangle's pixels are all there, and not too many for one WebP file.
pub open spec fn can_encode(len: nat, full_w: u16, rect: Rect) -> bool {
    &&& rect.wide() <= WEBP_MAX_DIMENSION
    &&& rect.high() <= WEBP_MAX_DIMENSION
    &&& (rect.bottom * full_w + rect.right + 1) * 4 <= len
}

fn crop(rgba: &[u8], full_w: u16, rect: Rect) -> (out: Vec<u8>)
    requires
        !rect.is_empty(),
        rect.right < full_w,
        (rect.bottom * full_w + rect.right + 1) * 4 <= rgba@.len(),
    ensures
        out@ == cropped(rgba@, full_w as int, rect),
{
    let ghost fw = full_w as int;
    let ghost gw = rect.wide();
    let w: usize = (rect.right - rect.left) as usize + 1;
    let mut out: Vec<u8> = Vec::new();
    let mut row: u32 = 0;
    let rows: u32 = (rect.bottom - rect.top) as u32 + 1;
    assert(rgba@.len() == rgba.len());
    assert(0 * gw == 0);
    while row < rows
        invariant
            !rect.is_empty(),
            rect.right < full_w,
            fw == full_w,
            gw == rect.wide(),
            w == gw,
            rows == rect.high(),
            row <= rows,
            rgba@.len() == rgba.len(),
            (rect.bottom * full_w + rect.right + 1) * 4 <= rgba@.len(),
            out@.len() == row * gw * 4,
            forall|k: int|
                0 <= k < out@.len() ==> #[trigger] out@[k] == cropped_byte(rgba@, fw, rect, k),
        decreases rows - row,
    {
        let ghost y = rect.top + row;
        proof {
            assert(0 <= y * fw && y * fw <= rect.bottom * fw) by (nonlinear_arith)
                requires
                    0 <= y <= rect.bottom,
                    fw >= 0,
            ;
        }
        let start: usize = ((rect.top as usize + row as usize) * full_w as usize
            + rect.left as usize) * 4;
        let end: usize = start + w * 4;
        let ghost before = out@;
        append(&mut out, slice_subrange(rgba, start, end));
        proof {
            assert forall|k: int| 0 <= k < out@.len() implies #[trigger] out@[k] == cropped_byte(
                rgba@,
                fw,
                rect,
                k,
            ) by {
                if k < before.len() {
                    assert(out@[k] == before[k]);
                } else {
                    let j = k - before.len();
                    assert(out@[k] == rgba@[start + j]);
                    assert(k / 4 == row * gw + j / 4);
                    assert(row * gw + j / 4 == gw * row + j / 4) by (nonlinear_arith);
                    lemma_fundamental_div_mod_converse(k / 4, gw, row as int, j / 4);
                    assert(k % 4 == j % 4);
                }
            }
            assert((row + 1) * gw == row * gw + gw) by (nonlinear_arith);
        }
        row = row + 1;
    }
    proof {
        assert(rows * gw == gw * rows) by (nonlinear_arith);
    }
    assert(out@ =~= cropped(rgba@, fw, rect));
    out
}

fn clamp(v: u16, size: u16) -> (r: u16)
    requires
        size > 0,
    ensures
        r == clamped(v, size),
{
    if v < size {
        v
    } else {
        size - 1
    }
}

/// Makes a graphics frame of the part of a rectangle that lies on the desktop, or nothing where
/// no pixel does.
pub fn encode_frame(width: u16, height: u16, rgba: &[u8], rect: Rect) -> (r: Option<Vec<u8>>)
    requires
        width > 0,
        height > 0,
        clipped(rect, width, height).is_empty() || can_encode(
            rgba@.len(),
            width,
            clipped(rect, width, height),
        ),
    ensures
        ({
            let c = clipped(rect, width, height);
            if c.is_empty() {
                r is None
            } else {
                r is Some && r->0@ == graphics_bytes(
                    c.wide() as u16,
                    c.high() as u16,
                    c.left,
                    c.top,
                    webp_lossless(
                        cropped(rgba@, width as int, c),
                        c.wide() as u32,
                        c.high() as u32,
                    ),
                )
            }
        }),
{
    let c: Rect = Rect {
        left: clamp(rect.left, width),
        top: clamp(rect.top, height),
        right: clamp(rect.right, width),
        bottom: clamp(rect.bottom, height),
    };
    if c.right < c.left || c.bottom < c.top {
        return None;
    }
    let pixels = crop(rgba, width, c);
    let w: u16 = c.right - c.left + 1;
    let h: u16 = c.bottom - c.top + 1;
    assert(w as int * h as int * 4 >= 0) by (nonlinear_arith);
    let webp = encode_lossless(pixels.as_slice(), w as u32, h as u32);
    Some(graphics_frame(w, h, c.left, c.top, webp.as_slice()))
}

/// The quality that pointers are compressed with.
pub const POINTER_QUALITY: u8 = 30;

/// The pointer has no picture, or one that WebP can hold and whose bytes are all there.
pub open spec fn can_encode_pointer(w: u16, h: u16, len: nat) -> bool {
    w == 0 || h == 0 || len == 0 || (w <= WEBP_MAX_DIMENSION && h <= WEBP_MAX_DIMENSION && w * h * 4
        <= len)
}

/// The bytes of the message for a pointer's picture, where there is a picture and it can be
/// compressed.
pub open spec fn pointer_message(w: u16, h: u16, hx: u16, hy: u16, rgba: Seq<u8>) -> Option<
    Seq<u8>,
> {
    if w == 0 || h == 0 || rgba.len() == 0 {
        None
    } else {
        match webp_lossy(rgba, w as u32, h as u32, POINTER_QUALITY) {
            Some(webp) => Some(pointer_bytes(hx, hy, webp)),
            None => None,
        }
    }
}

/// Makes a pointer message of a pointer's picture, or nothing where there is no picture or it
/// cannot be compressed.
pub fn encode_pointer(w: u16, h: u16, hx: u16, hy: u16, rgba: &[u8]) -> (r: Option<Vec<u8>>)
    requires
        can_encode_pointer(w, h, rgba@.len()),
    ensures
        r is Some <==> pointer_message(w, h, hx, hy, rgba@) is Some,
        r is Some ==> r->0@ == pointer_message(w, h, hx, hy, rgba@)->0,
{
    if w == 0 || h == 0 || rgba.len() == 0 {
        return None;
    }
    match encode_lossy(rgba, w as u32, h as u32, POINTER_QUALITY) {
        Some(webp) => Some(pointer_frame(hx, hy, webp.as_slice())),
        None => None,
    }
}

/// The header of a graphics frame says the width, the height, how far from the left and how far
/// from the top, in this order, each with the low byte first; behind it stands the picture.
pub proof fn graphics_frames_are_laid_out(width: u16, height: u16, x: u16, y: u16, webp: Seq<u8>)
    ensures
        ({
            let f = graphics_bytes(width, height, x, y, webp);
            &&& f.len() == 8 + webp.len()
            &&& f[0] + 256 * f[1] == width
            &&& f[2] + 256 * f[3] == height
            &&& f[4] + 256 * f[5] == x
            &&& f[6] + 256 * f[7] == y
            &&& f.subrange(8, f.len() as int) == webp
        }),
{
    let f = graphics_bytes(width, height, x, y, webp);
    assert(f[0] == le16(width)[0] && f[1] == le16(width)[1]);
    assert(f[2] == le16(height)[0] && f[3] == le16(height)[1]);
    assert(f[4] == le16(x)[0] && f[5] == le16(x)[1]);
    assert(f[6] == le16(y)[0] && f[7] == le16(y)[1]);
    assert(f.subrange(8, f.len() as int) =~= webp);
}

/// A pointer message begins with a one, says how far from the left and how far from the top the
/// hotspot lies, each with the low byte first, and goes on with the picture.
pub proof fn pointer_messages_are_laid_out(hx: u16, hy: u16, webp: Seq<u8>)
    ensures
        ({
            let f = pointer_bytes(hx, hy, webp);
            &&& f.len() == 5 + webp.len()
            &&& f[0] == 1
            &&& f[1] + 256 * f[2] == hx
            &&& f[3] + 256 * f[4] == hy
            &&& f.subrange(5, f.len() as int) == webp
        }),
{
    let f = pointer_bytes(hx, hy, webp);
    assert(f[1] == le16(hx)[0] && f[2] == le16(hx)[1]);
    assert(f[3] == le16(hy)[0] && f[4] == le16(hy)[1]);
    assert(f.subrange(5, f.len() as int) =~= webp);
}

/// A pointer with a picture is sent as that picture, compressed at a quality of 30, or not at all
/// where it cannot be compressed; one without a picture is not sent.
pub proof fn pointers_are_compressed_whole(w: u16, h: u16, hx: u16, hy: u16, rgba: Seq<u8>)
    ensures
        w == 0 || h == 0 || rgba.len() == 0 ==> pointer_message(w, h, hx, hy, rgba) is None,
        w > 0 && h > 0 && rgba.len() > 0 ==> ({
            let file = webp_lossy(rgba, w as u32, h as u32, 30);
            let message = pointer_message(w, h, hx, hy, rgba);
            &&& message is Some <==> file is Some
            &&& file is Some ==> message->0 == pointer_bytes(hx, hy, file->0)
        }),
{
}

/// What is cut out lies on the desktop; every point that lies in the rectangle and on the desktop
/// lies in what is cut out, and a rectangle on the desktop is cut out as it is.
pub proof fn clipping_keeps_what_is_on_the_desktop(
    rect: Rect,
    width: u16,
    height: u16,
    x: int,
    y: int,
)
    requires
        width > 0,
        height > 0,
    ensures
        clipped(rect, width, height).right < width,
        clipped(rect, width, height).bottom < height,
        rect.holds(x, y) && x < width && y < height ==> clipped(rect, width, height).holds(x, y),
        clipped(rect, width, height).holds(x, y) && rect.left < width && rect.top < height
            ==> rect.holds(x, y),
        rect.right < width && rect.bottom < height && rect.left <= rect.right && rect.top
            <= rect.bottom ==> clipped(rect, width, height) == rect,
{
}

/// A rectangle has as many columns and rows of points as its width and height say.
pub proof fn sizes_count_the_points(rect: Rect, x: int, y: int)
    requires
        !rect.is_empty(),
    ensures
        rect.wide() >= 1,
        rect.high() >= 1,
        rect.holds(x, y) <==> rect.left <= x < rect.left + rect.wide() && rect.top <= y < rect.top
            + rect.high(),
{
}

/// A pixel of what is cut out is the pixel of the desktop that lies as far from the corner of the
/// rectangle; all four of its bytes are taken over, and there are four for every point.
pub proof fn cut_out_pixels_are_those_of_the_desktop(
    rgba: Seq<u8>,
    full_w: int,
    rect: Rect,
    x: int,
    y: int,
    c: int,
)
    requires
        !rect.is_empty(),
        rect.holds(x, y),
        0 <= c < 4,
    ensures
        ({
            let w = rect.right - rect.left + 1;
            let h = rect.bottom - rect.top + 1;
            let k = ((y - rect.top) * w + (x - rect.left)) * 4 + c;
            &&& cropped(rgba, full_w, rect).len() == w * h * 4
            &&& 0 <= k < w * h * 4
            &&& cropped(rgba, full_w, rect)[k] == rgba[(y * full_w + x) * 4 + c]
        }),
{
    let w = rect.right - rect.left + 1;
    let h = rect.bottom - rect.top + 1;
    let row = y - rect.top;
    let col = x - rect.left;
    let k = (row * w + col) * 4 + c;
    assert(0 <= row * w + col < w * h) by (nonlinear_arith)
        requires
            0 <= col < w,
            0 <= row < h,
    ;
    assert(k / 4 == row * w + col && k % 4 == c);
    assert(row * w + col == w * row + col) by (nonlinear_arith);
    lemma_fundamental_div_mod_converse(k / 4, w, row, col);
    assert(rect.wide() == w && rect.high() == h);
}

/// A rectangle is empty when there is no pixel that it holds; otherwise it holds its first one and
/// its last one.
pub proof fn empty_rectangles_hold_nothing(rect: Rect, x: int, y: int)
    ensures
        rect.is_empty() ==> !rect.holds(x, y),
        !rect.is_empty() ==> rect.holds(rect.left as int, rect.top as int),
        !rect.is_empty() ==> rect.holds(rect.right as int, rect.bottom as int),
{
}

} // verus!
