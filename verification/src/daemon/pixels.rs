//! Pictures as bytes: nearest-neighbour scaling of BGRA, and its conversion to NV12.
//!
//! A BGRA picture holds four bytes to a pixel, row by row. An NV12 picture holds one luma byte
//! to a pixel, and behind them, for every block of two by two pixels, one byte of each chroma
//! part.

use crate::bytes::copy;
use vstd::arithmetic::div_mod::lemma_fundamental_div_mod_converse;
use vstd::prelude::*;

verus! {

/// The place along one axis of a picture `from` pixels long that the pixel at `i` of one `to`
/// pixels long is taken from.
pub open spec fn nearest(i: int, from: int, to: int) -> int {
    i * from / to
}

/// Where, in a picture `sw` by `sh`, the pixel at (`x`, `y`) of one `dw` by `dh` begins.
pub open spec fn nearest_pixel(x: int, y: int, sw: int, sh: int, dw: int, dh: int) -> int {
    (nearest(y, sh, dh) * sw + nearest(x, sw, dw)) * 4
}

/// The byte `k` of a picture `dw` by `dh`, taken from `src`, a picture `sw` by `sh`.
pub open spec fn nearest_byte(src: Seq<u8>, sw: int, sh: int, dw: int, dh: int, k: int) -> u8 {
    src[nearest_pixel((k / 4) % dw, (k / 4) / dw, sw, sh, dw, dh) + k % 4]
}

/// The picture `dw` by `dh` that nearest-neighbour sampling makes of `src`, one `sw` by `sh`.
pub open spec fn scaled(src: Seq<u8>, sw: int, sh: int, dw: int, dh: int) -> Seq<u8> {
    Seq::new((dw * dh * 4) as nat, |k: int| nearest_byte(src, sw, sh, dw, dh, k))
}

/// The scaled picture can be made: no index leaves 32 bits, and every sampled pixel is there.
pub open spec fn can_scale(len: nat, sw: u32, sh: u32, dw: u32, dh: u32) -> bool {
    &&& dw * dh * 4 <= u32::MAX
    &&& forall|y: int| 0 <= y < dh ==> #[trigger] (y * sh) <= u32::MAX
    &&& forall|x: int| 0 <= x < dw && dh > 0 ==> #[trigger] (x * sw) <= u32::MAX
    &&& forall|x: int, y: int|
        0 <= x < dw && 0 <= y < dh ==> #[trigger] nearest_pixel(
            x,
            y,
            sw as int,
            sh as int,
            dw as int,
            dh as int,
        ) + 4 <= len
}

proof fn nearest_bounds(i: int, from: int, to: int)
    requires
        0 <= i,
        0 <= from,
        0 < to,
    ensures
        0 <= nearest(i, from, to),
        i < to && from > 0 ==> nearest(i, from, to) < from,
{
    assert(0 <= i * from / to) by (nonlinear_arith)
        requires
            0 <= i,
            0 <= from,
            0 < to,
    ;
    if i < to && from > 0 {
        assert(i * from / to < from) by (nonlinear_arith)
            requires
                0 <= i < to,
                0 < from,
        ;
    }
}

proof fn row_and_column(x: int, y: int, w: int)
    requires
        0 <= x < w,
        0 <= y,
    ensures
        (y * w + x) / w == y,
        (y * w + x) % w == x,
{
    assert(y * w + x == w * y + x) by (nonlinear_arith);
    lemma_fundamental_div_mod_converse(y * w + x, w, y, x);
}

/// A full picture of at least one pixel can be scaled to any size that 32-bit indices allow.
pub proof fn full_picture_can_be_scaled(len: nat, sw: u32, sh: u32, dw: u32, dh: u32)
    requires
        sw > 0,
        sh > 0,
        len >= sw * sh * 4,
        dw * dh * 4 <= u32::MAX,
        dh * sh <= u32::MAX,
        dw * sw <= u32::MAX,
    ensures
        can_scale(len, sw, sh, dw, dh),
{
    assert forall|y: int| 0 <= y < dh implies #[trigger] (y * sh) <= u32::MAX by {
        assert(y * sh <= dh * sh) by (nonlinear_arith)
            requires
                0 <= y < dh,
                sh > 0,
        ;
    }
    assert forall|x: int| 0 <= x < dw implies #[trigger] (x * sw) <= u32::MAX by {
        assert(x * sw <= dw * sw) by (nonlinear_arith)
            requires
                0 <= x < dw,
                sw > 0,
        ;
    }
    assert forall|x: int, y: int| 0 <= x < dw && 0 <= y < dh implies #[trigger] nearest_pixel(
        x,
        y,
        sw as int,
        sh as int,
        dw as int,
        dh as int,
    ) + 4 <= len by {
        nearest_bounds(x, sw as int, dw as int);
        nearest_bounds(y, sh as int, dh as int);
        let a = nearest(y, sh as int, dh as int);
        let b = nearest(x, sw as int, dw as int);
        assert((a * sw + b) * 4 + 4 <= sw * sh * 4) by (nonlinear_arith)
            requires
                0 <= a < sh,
                0 <= b < sw,
        ;
    }
}

/// Scales a BGRA picture by taking, for every pixel, the nearest one above and to the left.
pub fn downscale_bgra(src: &[u8], src_w: u32, src_h: u32, dst_w: u32, dst_h: u32) -> (dst: Vec<u8>)
    requires
        can_scale(src@.len(), src_w, src_h, dst_w, dst_h),
    ensures
        dst@ == scaled(src@, src_w as int, src_h as int, dst_w as int, dst_h as int),
{
    let ghost sw = src_w as int;
    let ghost sh = src_h as int;
    let ghost dw = dst_w as int;
    let ghost dh = dst_h as int;
    let mut dst: Vec<u8> = Vec::new();
    let mut y: u32 = 0;
    proof {
        assert(0 * dw * 4 == 0);
    }
    while y < dst_h
        invariant
            sw == src_w,
            sh == src_h,
            dw == dst_w,
            dh == dst_h,
            can_scale(src@.len(), src_w, src_h, dst_w, dst_h),
            y <= dst_h,
            dst@.len() == y * dw * 4,
            forall|k: int|
                0 <= k < dst@.len() ==> dst@[k] == #[trigger] nearest_byte(src@, sw, sh, dw, dh, k),
        decreases dst_h - y,
    {
        assert(y * sh <= u32::MAX);
        let src_y: u32 = y * src_h / dst_h;
        let mut x: u32 = 0;
        while x < dst_w
            invariant
                sw == src_w,
                sh == src_h,
                dw == dst_w,
                dh == dst_h,
                can_scale(src@.len(), src_w, src_h, dst_w, dst_h),
                y < dst_h,
                x <= dst_w,
                src_y == nearest(y as int, sh, dh),
                dst@.len() == (y * dw + x) * 4,
                forall|k: int|
                    0 <= k < dst@.len() ==> dst@[k] == #[trigger] nearest_byte(
                        src@,
                        sw,
                        sh,
                        dw,
                        dh,
                        k,
                    ),
            decreases dst_w - x,
        {
            assert(x * sw <= u32::MAX);
            let src_x: u32 = x * src_w / dst_w;
            let ghost at = nearest_pixel(x as int, y as int, sw, sh, dw, dh);
            proof {
                nearest_bounds(x as int, sw, dw);
                nearest_bounds(y as int, sh, dh);
                assert(at == (src_y * sw + src_x) * 4);
                assert(at + 4 <= src@.len());
                assert(src@.len() == src.len());
                assert(0 <= src_y * sw) by (nonlinear_arith)
                    requires
                        0 <= src_y,
                        0 <= sw,
                ;
            }
            let i: usize = (src_y as usize * src_w as usize + src_x as usize) * 4;
            let ghost before = dst@;
            dst.push(src[i]);
            dst.push(src[i + 1]);
            dst.push(src[i + 2]);
            dst.push(src[i + 3]);
            proof {
                let p = y * dw + x;
                row_and_column(x as int, y as int, dw);
                assert forall|k: int| 0 <= k < dst@.len() implies dst@[k]
                    == #[trigger] nearest_byte(src@, sw, sh, dw, dh, k) by {
                    if k < before.len() {
                        assert(dst@[k] == before[k]);
                    } else {
                        assert(k / 4 == p);
                        assert(k % 4 == k - before.len());
                    }
                }
            }
            x = x + 1;
        }
        assert((y + 1) * dw == y * dw + dw) by (nonlinear_arith);
        y = y + 1;
    }
    assert(dh * dw == dw * dh) by (nonlinear_arith);
    assert(dst@ =~= scaled(src@, sw, sh, dw, dh));
    dst
}

/// What `resize_bgra_nearest` makes of a picture.
pub open spec fn resized(src: Seq<u8>, sw: u32, sh: u32, dw: u32, dh: u32) -> Seq<u8> {
    if sw == dw && sh == dh {
        src
    } else {
        scaled(src, sw as int, sh as int, dw as int, dh as int)
    }
}

/// Scales a BGRA picture as `downscale_bgra` does, and hands back one that has the size already.
pub fn resize_bgra_nearest(src: &[u8], src_w: u32, src_h: u32, dst_w: u32, dst_h: u32) -> (dst: Vec<
    u8,
>)
    requires
        (src_w == dst_w && src_h == dst_h) || can_scale(src@.len(), src_w, src_h, dst_w, dst_h),
    ensures
        dst@ == resized(src@, src_w, src_h, dst_w, dst_h),
{
    if src_w == dst_w && src_h == dst_h {
        return copy(src);
    }
    downscale_bgra(src, src_w, src_h, dst_w, dst_h)
}

/// Scaling a picture to the size that it has gives the same picture.
pub proof fn scaling_to_the_same_size_changes_nothing(src: Seq<u8>, w: int, h: int)
    requires
        w > 0,
        h > 0,
        src.len() == w * h * 4,
    ensures
        scaled(src, w, h, w, h) == src,
{
    let r = scaled(src, w, h, w, h);
    assert(w * h * 4 >= 0) by (nonlinear_arith)
        requires
            w > 0,
            h > 0,
    ;
    assert forall|k: int| 0 <= k < src.len() implies r[k] == src[k] by {
        let p = k / 4;
        let x = p % w;
        let y = p / w;
        vstd::arithmetic::div_mod::lemma_fundamental_div_mod(p, w);
        assert(0 <= p % w < w) by (nonlinear_arith)
            requires
                w > 0,
        ;
        vstd::arithmetic::div_mod::lemma_div_multiples_vanish(y, h);
        vstd::arithmetic::div_mod::lemma_div_multiples_vanish(x, w);
        assert(y * h == h * y && x * w == w * x && y * w == w * y) by (nonlinear_arith);
    }
    assert(r =~= src);
}

/// The colour of one pixel.
#[derive(Clone, Copy)]
pub struct Bgr {
    pub b: u8,
    pub g: u8,
    pub r: u8,
}

/// The colour of the BGRA pixel that begins at `i`.
pub open spec fn bgr_at(src: Seq<u8>, i: int) -> Bgr {
    Bgr { b: src[i], g: src[i + 1], r: src[i + 2] }
}

fn read_bgr(src: &[u8], i: usize) -> (p: Bgr)
    requires
        i + 2 < src@.len(),
    ensures
        p == bgr_at(src@, i as int),
{
    Bgr { b: src[i], g: src[i + 1], r: src[i + 2] }
}

/// The size of an NV12 picture.
pub open spec fn nv12_len(w: int, h: int) -> int {
    w * h + w * h / 2
}

/// Where the pixel at (`dx`, `dy`) of the two by two block `q` begins, in a BGRA picture `w`
/// pixels wide.
pub open spec fn block_pixel(q: int, w: int, dx: int, dy: int) -> int {
    ((2 * (q / (w / 2)) + dy) * w + 2 * (q % (w / 2)) + dx) * 4
}

/// The four pixels of the two by two block `q`, row by row.
pub open spec fn block_of(src: Seq<u8>, w: int, q: int) -> (Bgr, Bgr, Bgr, Bgr) {
    (
        bgr_at(src, block_pixel(q, w, 0, 0)),
        bgr_at(src, block_pixel(q, w, 1, 0)),
        bgr_at(src, block_pixel(q, w, 0, 1)),
        bgr_at(src, block_pixel(q, w, 1, 1)),
    )
}

/// A BGRA picture of `len` bytes can be converted: it is full, and made of whole blocks.
pub open spec fn can_convert(len: nat, w: u32, h: u32) -> bool {
    w == 0 || h == 0 || (w % 2 == 0 && h % 2 == 0 && w * h * 4 <= len)
}

proof fn block_in_picture(q: int, w: int, h: int)
    requires
        w >= 2,
        w % 2 == 0,
        h % 2 == 0,
        0 <= q < (w / 2) * (h / 2),
    ensures
        0 <= q / (w / 2) < h / 2,
        0 <= q % (w / 2) < w / 2,
        forall|dx: int, dy: int|
            0 <= dx < 2 && 0 <= dy < 2 ==> 0 <= #[trigger] block_pixel(q, w, dx, dy) && block_pixel(
                q,
                w,
                dx,
                dy,
            ) + 4 <= w * h * 4,
{
    let a = q / (w / 2);
    let b = q % (w / 2);
    let hw = w / 2;
    let hh = h / 2;
    vstd::arithmetic::div_mod::lemma_fundamental_div_mod(q, hw);
    assert(0 <= q % hw < hw) by (nonlinear_arith)
        requires
            hw > 0,
    ;
    assert(0 <= q / hw < hh) by (nonlinear_arith)
        requires
            hw > 0,
            0 <= q < hw * hh,
    ;
    assert forall|dx: int, dy: int| 0 <= dx < 2 && 0 <= dy < 2 implies 0 <= #[trigger] block_pixel(
        q,
        w,
        dx,
        dy,
    ) && block_pixel(q, w, dx, dy) + 4 <= w * h * 4 by {
        assert(0 <= (2 * a + dy) * w && (2 * a + dy) * w + w <= w * h) by (nonlinear_arith)
            requires
                0 <= a < hh,
                0 <= dy < 2,
                h == 2 * hh,
                w >= 2,
        ;
    }
}

/// Converts a BGRA picture to NV12, with the given rules for the luma of a pixel and for the
/// chroma of a block, whose pixels are handed over row by row.
pub fn bgra_to_nv12<L: Fn(Bgr) -> u8, C: Fn(Bgr, Bgr, Bgr, Bgr) -> (u8, u8)>(
    src: &[u8],
    width: u32,
    height: u32,
    luma: L,
    chroma: C,
) -> (out: Vec<u8>)
    requires
        can_convert(src@.len(), width, height),
        forall|p: Bgr| call_requires(luma, (p,)),
        forall|p: Bgr, q: Bgr, r: Bgr, s: Bgr| call_requires(chroma, (p, q, r, s)),
    ensures
        out@.len() == nv12_len(width as int, height as int),
        forall|p: int|
            0 <= p < width * height ==> call_ensures(
                luma,
                (bgr_at(src@, p * 4),),
                #[trigger] out@[p],
            ),
        forall|q: int|
            0 <= q < (width as int / 2) * (height as int / 2) ==> call_ensures(
                chroma,
                #[trigger] block_of(src@, width as int, q),
                (out@[width * height + 2 * q], out@[width * height + 2 * q + 1]),
            ),
        forall|bx: int, by: int|
            0 <= 2 * bx < width && 0 <= 2 * by < height ==> call_ensures(
                chroma,
                block_at(src@, width as int, bx, by),
                #[trigger] chroma_at(out@, width as int, height as int, bx, by),
            ),
{
    let mut out: Vec<u8> = Vec::new();
    let ghost gw = width as int;
    let ghost gh = height as int;
    if width == 0 || height == 0 {
        assert(gw * gh == 0) by (nonlinear_arith)
            requires
                gw == 0 || gh == 0,
        ;
        assert((gw / 2) * (gh / 2) == 0) by (nonlinear_arith)
            requires
                gw == 0 || gh == 0,
        ;
        return out;
    }
    assert(src@.len() == src.len());
    let w: usize = width as usize;
    let h: usize = height as usize;
    assert(w * h >= 0) by (nonlinear_arith);
    let n: usize = w * h;
    let mut p: usize = 0;
    while p < n
        invariant
            n == gw * gh,
            n * 4 <= src@.len(),
            src@.len() == src.len(),
            p <= n,
            out@.len() == p,
            forall|c: Bgr| call_requires(luma, (c,)),
            forall|k: int|
                0 <= k < p ==> call_ensures(luma, (bgr_at(src@, k * 4),), #[trigger] out@[k]),
        decreases n - p,
    {
        let v: u8 = luma(read_bgr(src, p * 4));
        out.push(v);
        p = p + 1;
    }
    let hw: usize = w / 2;
    let ghost hh = gh / 2;
    assert((gw / 2) * hh * 2 == gw * gh / 2 && (gw / 2) * hh >= 0) by (nonlinear_arith)
        requires
            gw % 2 == 0,
            gh % 2 == 0,
            gw > 0,
            gh > 0,
            hh == gh / 2,
    ;
    let blocks: usize = n / 4;
    assert(blocks == (gw / 2) * hh) by (nonlinear_arith)
        requires
            blocks == (gw * gh) / 4,
            (gw / 2) * hh * 2 == gw * gh / 2,
    ;
    let ghost plane = out@;
    let mut q: usize = 0;
    while q < blocks
        invariant
            w == gw,
            hw == gw / 2,
            gw >= 2,
            gw % 2 == 0,
            gh % 2 == 0,
            hh == gh / 2,
            blocks == (gw / 2) * hh,
            n == gw * gh,
            n * 4 <= src@.len(),
            src@.len() == src.len(),
            q <= blocks,
            out@.len() == n + 2 * q,
            plane.len() == n,
            n + 2 * blocks <= src@.len(),
            forall|k: int| 0 <= k < n ==> out@[k] == plane[k],
            forall|a: Bgr, b: Bgr, c: Bgr, d: Bgr| call_requires(chroma, (a, b, c, d)),
            forall|k: int|
                0 <= k < q ==> call_ensures(
                    chroma,
                    #[trigger] block_of(src@, gw, k),
                    (out@[n + 2 * k], out@[n + 2 * k + 1]),
                ),
        decreases blocks - q,
    {
        proof {
            block_in_picture(q as int, gw, gh);
            assert(block_pixel(q as int, gw, 0, 0) >= 0 && block_pixel(q as int, gw, 1, 1) + 4
                <= n * 4);
            assert((2 * (q / hw) + 1) * w == 2 * (q / hw) * w + w) by (nonlinear_arith);
            assert(0 <= 2 * (q as int / hw as int) * w) by (nonlinear_arith)
                requires
                    0 <= q as int / hw as int,
                    0 <= w,
            ;
        }
        let top: usize = 2 * (q / hw) * w + 2 * (q % hw);
        let p0: Bgr = read_bgr(src, top * 4);
        let p1: Bgr = read_bgr(src, (top + 1) * 4);
        let p2: Bgr = read_bgr(src, (top + w) * 4);
        let p3: Bgr = read_bgr(src, (top + w + 1) * 4);
        let uv: (u8, u8) = chroma(p0, p1, p2, p3);
        let ghost before = out@;
        out.push(uv.0);
        out.push(uv.1);
        assert forall|k: int| 0 <= k < q + 1 implies call_ensures(
            chroma,
            #[trigger] block_of(src@, gw, k),
            (out@[n + 2 * k], out@[n + 2 * k + 1]),
        ) by {
            if k < q {
                assert(out@[n + 2 * k] == before[n + 2 * k]);
                assert(out@[n + 2 * k + 1] == before[n + 2 * k + 1]);
            } else {
                assert(block_of(src@, gw, k) == (p0, p1, p2, p3));
                assert((out@[n + 2 * k], out@[n + 2 * k + 1]) == uv);
            }
        }
        q = q + 1;
    }
    assert forall|k: int| 0 <= k < n implies call_ensures(
        luma,
        (bgr_at(src@, k * 4),),
        #[trigger] out@[k],
    ) by {
        assert(out@[k] == plane[k]);
    }
    assert forall|bx: int, by: int| 0 <= 2 * bx < width && 0 <= 2 * by < height implies call_ensures(
        chroma,
        block_at(src@, width as int, bx, by),
        #[trigger] chroma_at(out@, width as int, height as int, bx, by),
    ) by {
        blocks_are_squares_of_the_picture(src@, gw, gh, bx, by);
        let k = by * (gw / 2) + bx;
        assert(block_of(src@, gw, k) == block_at(src@, gw, bx, by));
        assert((out@[gw * gh + 2 * k], out@[gw * gh + 2 * k + 1]) == chroma_at(
            out@,
            gw,
            gh,
            bx,
            by,
        ));
    }
    out
}

/// The luma of a colour, in integers.
pub open spec fn luma601(r: int, g: int, b: int) -> int {
    (66 * r + 129 * g + 25 * b + 128) / 256 + 16
}

/// The blue-difference chroma of a colour, in integers.
pub open spec fn chroma_u601(r: int, g: int, b: int) -> int {
    (-38 * r - 74 * g + 112 * b + 128) / 256 + 128
}

/// The red-difference chroma of a colour, in integers.
pub open spec fn chroma_v601(r: int, g: int, b: int) -> int {
    (112 * r - 94 * g - 18 * b + 128) / 256 + 128
}

/// The integer rules stay in the studio range, and a grey has no chroma.
pub proof fn conversion_stays_in_studio_range(r: u8, g: u8, b: u8)
    ensures
        16 <= luma601(r as int, g as int, b as int) <= 235,
        16 <= chroma_u601(r as int, g as int, b as int) <= 240,
        16 <= chroma_v601(r as int, g as int, b as int) <= 240,
        r == g && g == b ==> chroma_u601(r as int, g as int, b as int) == 128 && chroma_v601(
            r as int,
            g as int,
            b as int,
        ) == 128,
{
}

/// Where the sample for the pixel at (`x`, `y`) begins, in a picture whose rows are `pitch`
/// bytes apart.
pub open spec fn sample_at(cols: Seq<usize>, rows: Seq<usize>, pitch: int, x: int, y: int) -> int {
    rows[y] * pitch + cols[x] * 4
}

/// The sum of one colour part, `c` bytes into a pixel, over the block whose top left pixel is
/// (`x`, `y`), divided by four.
pub open spec fn block_mean(
    src: Seq<u8>,
    cols: Seq<usize>,
    rows: Seq<usize>,
    pitch: int,
    x: int,
    y: int,
    c: int,
) -> int {
    (src[sample_at(cols, rows, pitch, x, y) + c] + src[sample_at(cols, rows, pitch, x + 1, y) + c]
        + src[sample_at(cols, rows, pitch, x, y + 1) + c] + src[sample_at(
        cols,
        rows,
        pitch,
        x + 1,
        y + 1,
    ) + c]) / 4
}

/// The luma byte at (`x`, `y`) of the scaled NV12 picture.
pub open spec fn scaled_luma(
    src: Seq<u8>,
    cols: Seq<usize>,
    rows: Seq<usize>,
    pitch: int,
    x: int,
    y: int,
) -> int {
    let i = sample_at(cols, rows, pitch, x, y);
    luma601(src[i + 2] as int, src[i + 1] as int, src[i] as int)
}

/// The chroma bytes of the block whose top left pixel is (`x`, `y`).
pub open spec fn scaled_chroma(
    src: Seq<u8>,
    cols: Seq<usize>,
    rows: Seq<usize>,
    pitch: int,
    x: int,
    y: int,
) -> (int, int) {
    let b = block_mean(src, cols, rows, pitch, x, y, 0);
    let g = block_mean(src, cols, rows, pitch, x, y, 1);
    let r = block_mean(src, cols, rows, pitch, x, y, 2);
    (chroma_u601(r, g, b), chroma_v601(r, g, b))
}

/// The two bytes of `out` from `at` on are those of `uv`.
pub open spec fn has_block(out: Seq<u8>, at: int, uv: (int, int)) -> bool {
    0 <= at && at + 1 < out.len() && out[at] == uv.0 && out[at + 1] == uv.1
}

spec fn block_chroma(
    src: Seq<u8>,
    cols: Seq<usize>,
    rows: Seq<usize>,
    pitch: int,
    w: int,
    q: int,
) -> (int, int) {
    scaled_chroma(src, cols, rows, pitch, 2 * (q % (w / 2)), 2 * (q / (w / 2)))
}

fn read_sample(src: &[u8], pitch: usize, cols: &[usize], rows: &[usize], x: usize, y: usize) -> (p:
    Bgr)
    requires
        x < cols@.len(),
        y < rows@.len(),
        sample_at(cols@, rows@, pitch as int, x as int, y as int) + 3 <= src@.len(),
    ensures
        p == bgr_at(src@, sample_at(cols@, rows@, pitch as int, x as int, y as int)),
{
    let row: usize = rows[y];
    let col: usize = cols[x];
    assert(src@.len() == src.len());
    assert(0 <= row * pitch) by (nonlinear_arith)
        requires
            row >= 0,
            pitch >= 0,
    ;
    read_bgr(src, row * pitch + col * 4)
}

fn luma_of(p: Bgr) -> (r: u8)
    ensures
        r == luma601(p.r as int, p.g as int, p.b as int),
{
    ((66 * p.r as u32 + 129 * p.g as u32 + 25 * p.b as u32 + 128) / 256 + 16) as u8
}

fn mean4(a: u8, b: u8, c: u8, d: u8) -> (r: u32)
    ensures
        r == (a + b + c + d) / 4,
        r <= 255,
{
    (a as u32 + b as u32 + c as u32 + d as u32) / 4
}

fn chroma_of(r: u32, g: u32, b: u32) -> (uv: (u8, u8))
    requires
        r <= 255,
        g <= 255,
        b <= 255,
    ensures
        uv.0 == chroma_u601(r as int, g as int, b as int),
        uv.1 == chroma_v601(r as int, g as int, b as int),
{
    let u: u32 = (112 * b + 128 + 32768 - 38 * r - 74 * g) / 256;
    let v: u32 = (112 * r + 128 + 32768 - 94 * g - 18 * b) / 256;
    (u as u8, v as u8)
}

/// Scales a BGRA picture and converts it to NV12 with the integer rules. Column `x` of the
/// result is taken from column `cols[x]`, row `y` from row `rows[y]`.
pub fn bgra_to_nv12_scale(
    src: &[u8],
    pitch: usize,
    dw: u32,
    dh: u32,
    cols: &[usize],
    rows: &[usize],
) -> (out: Vec<u8>)
    requires
        dw * dh <= u32::MAX,
        nv12_len(dw as int, dh as int) <= usize::MAX,
        dw == 0 || dh == 0 || (dw % 2 == 0 && dh % 2 == 0),
        cols@.len() == dw,
        rows@.len() == dh,
        forall|x: int, y: int|
            0 <= x < dw && 0 <= y < dh ==> #[trigger] sample_at(cols@, rows@, pitch as int, x, y) + 3
                <= src@.len(),
    ensures
        out@.len() == nv12_len(dw as int, dh as int),
        forall|x: int, y: int|
            0 <= x < dw && 0 <= y < dh ==> out@[y * dw + x] == #[trigger] scaled_luma(
                src@,
                cols@,
                rows@,
                pitch as int,
                x,
                y,
            ),
        forall|bx: int, by: int|
            0 <= 2 * bx < dw && 0 <= 2 * by < dh ==> has_block(
                out@,
                dw * dh + by * dw + 2 * bx,
                #[trigger] scaled_chroma(src@, cols@, rows@, pitch as int, 2 * bx, 2 * by),
            ),
{
    let mut out: Vec<u8> = Vec::new();
    let ghost w = dw as int;
    let ghost h = dh as int;
    assert(src@.len() == src.len());
    let mut y: u32 = 0;
    while y < dh
        invariant
            w == dw,
            h == dh,
            cols@.len() == dw,
            rows@.len() == dh,
            src@.len() == src.len(),
            forall|x: int, y: int|
                0 <= x < w && 0 <= y < h ==> #[trigger] sample_at(cols@, rows@, pitch as int, x, y)
                    + 3 <= src@.len(),
            y <= dh,
            out@.len() == y * w,
            forall|k: int|
                0 <= k < out@.len() ==> #[trigger] out@[k] == scaled_luma(
                    src@,
                    cols@,
                    rows@,
                    pitch as int,
                    k % w,
                    k / w,
                ),
        decreases dh - y,
    {
        let mut x: u32 = 0;
        while x < dw
            invariant
                w == dw,
                h == dh,
                cols@.len() == dw,
                rows@.len() == dh,
                src@.len() == src.len(),
                forall|x: int, y: int|
                    0 <= x < w && 0 <= y < h ==> #[trigger] sample_at(
                        cols@,
                        rows@,
                        pitch as int,
                        x,
                        y,
                    ) + 3 <= src@.len(),
                y < dh,
                x <= dw,
                out@.len() == y * w + x,
                forall|k: int|
                    0 <= k < out@.len() ==> #[trigger] out@[k] == scaled_luma(
                        src@,
                        cols@,
                        rows@,
                        pitch as int,
                        k % w,
                        k / w,
                    ),
            decreases dw - x,
        {
            let p: Bgr = read_sample(src, pitch, cols, rows, x as usize, y as usize);
            let ghost before = out@;
            out.push(luma_of(p));
            proof {
                row_and_column(x as int, y as int, w);
                assert forall|k: int| 0 <= k < out@.len() implies #[trigger] out@[k]
                    == scaled_luma(src@, cols@, rows@, pitch as int, k % w, k / w) by {
                    if k < before.len() {
                        assert(out@[k] == before[k]);
                    }
                }
            }
            x = x + 1;
        }
        assert((y + 1) * w == y * w + w) by (nonlinear_arith);
        y = y + 1;
    }
    let ghost plane = out@;
    let ghost hw = w / 2;
    proof {
        assert(h * w == w * h) by (nonlinear_arith);
        assert(0 * hw == 0);
    }
    let mut by: u32 = 0;
    while by < dh / 2
        invariant
            w == dw,
            h == dh,
            hw == w / 2,
            w == 0 || h == 0 || (w % 2 == 0 && h % 2 == 0),
            cols@.len() == dw,
            rows@.len() == dh,
            src@.len() == src.len(),
            forall|x: int, y: int|
                0 <= x < w && 0 <= y < h ==> #[trigger] sample_at(cols@, rows@, pitch as int, x, y)
                    + 3 <= src@.len(),
            by <= dh / 2,
            plane.len() == w * h,
            out@.len() == w * h + 2 * (by * hw),
            forall|k: int| 0 <= k < plane.len() ==> #[trigger] out@[k] == plane[k],
            forall|q: int|
                0 <= q < by * hw ==> has_block(
                    out@,
                    w * h + 2 * q,
                    #[trigger] block_chroma(src@, cols@, rows@, pitch as int, w, q),
                ),
        decreases dh / 2 - by,
    {
        let mut bx: u32 = 0;
        while bx < dw / 2
            invariant
                w == dw,
                h == dh,
                hw == w / 2,
                w == 0 || h == 0 || (w % 2 == 0 && h % 2 == 0),
                cols@.len() == dw,
                rows@.len() == dh,
                src@.len() == src.len(),
                forall|x: int, y: int|
                    0 <= x < w && 0 <= y < h ==> #[trigger] sample_at(
                        cols@,
                        rows@,
                        pitch as int,
                        x,
                        y,
                    ) + 3 <= src@.len(),
                by < dh / 2,
                bx <= dw / 2,
                plane.len() == w * h,
                out@.len() == w * h + 2 * (by * hw + bx),
                forall|k: int| 0 <= k < plane.len() ==> #[trigger] out@[k] == plane[k],
                forall|q: int|
                    0 <= q < by * hw + bx ==> has_block(
                        out@,
                        w * h + 2 * q,
                        #[trigger] block_chroma(src@, cols@, rows@, pitch as int, w, q),
                    ),
            decreases dw / 2 - bx,
        {
            let x: usize = 2 * bx as usize;
            let y: usize = 2 * by as usize;
            let p0: Bgr = read_sample(src, pitch, cols, rows, x, y);
            let p1: Bgr = read_sample(src, pitch, cols, rows, x + 1, y);
            let p2: Bgr = read_sample(src, pitch, cols, rows, x, y + 1);
            let p3: Bgr = read_sample(src, pitch, cols, rows, x + 1, y + 1);
            let uv: (u8, u8) = chroma_of(
                mean4(p0.r, p1.r, p2.r, p3.r),
                mean4(p0.g, p1.g, p2.g, p3.g),
                mean4(p0.b, p1.b, p2.b, p3.b),
            );
            let ghost before = out@;
            out.push(uv.0);
            out.push(uv.1);
            proof {
                let now = by * hw + bx;
                row_and_column(bx as int, by as int, hw);
                assert(by * hw >= 0) by (nonlinear_arith)
                    requires
                        by >= 0,
                        hw >= 0,
                ;
                assert forall|q: int| 0 <= q < now + 1 implies has_block(
                    out@,
                    w * h + 2 * q,
                    #[trigger] block_chroma(src@, cols@, rows@, pitch as int, w, q),
                ) by {
                    if q < now {
                        assert(has_block(
                            before,
                            w * h + 2 * q,
                            block_chroma(src@, cols@, rows@, pitch as int, w, q),
                        ));
                    }
                }
            }
            bx = bx + 1;
        }
        assert((by + 1) * hw == by * hw + hw) by (nonlinear_arith);
        by = by + 1;
    }
    proof {
        if w == 0 || h == 0 {
            assert(w * h == 0 && (h / 2) * hw == 0) by (nonlinear_arith)
                requires
                    w == 0 || h == 0,
                    hw == w / 2,
            ;
        } else {
            assert(2 * ((h / 2) * hw) == w * h / 2) by (nonlinear_arith)
                requires
                    w % 2 == 0,
                    h % 2 == 0,
                    hw == w / 2,
            ;
        }
        assert forall|x: int, y: int| 0 <= x < dw && 0 <= y < dh implies out@[y * dw + x]
            == #[trigger] scaled_luma(src@, cols@, rows@, pitch as int, x, y) by {
            row_and_column(x, y, w);
            assert(0 <= y * w + x < w * h) by (nonlinear_arith)
                requires
                    0 <= x < w,
                    0 <= y < h,
            ;
            assert(out@[y * w + x] == plane[y * w + x]);
        }
        assert forall|bx: int, by: int| 0 <= 2 * bx < dw && 0 <= 2 * by < dh implies has_block(
            out@,
            dw * dh + by * dw + 2 * bx,
            #[trigger] scaled_chroma(src@, cols@, rows@, pitch as int, 2 * bx, 2 * by),
        ) by {
            let q = by * hw + bx;
            row_and_column(bx, by, hw);
            assert(0 <= q < (h / 2) * hw && 2 * q == by * w + 2 * bx) by (nonlinear_arith)
                requires
                    q == by * hw + bx,
                    0 <= bx < hw,
                    0 <= by < h / 2,
                    w == 2 * hw,
            ;
            assert(has_block(
                out@,
                w * h + 2 * q,
                block_chroma(src@, cols@, rows@, pitch as int, w, q),
            ));
        }
    }
    out
}

/// The colour of the pixel at (`x`, `y`) of a BGRA picture `w` pixels wide: blue comes first, then
/// green, then red, and the fourth byte is left alone.
pub open spec fn pixel_at(src: Seq<u8>, w: int, x: int, y: int) -> Bgr {
    Bgr { b: src[(y * w + x) * 4], g: src[(y * w + x) * 4 + 1], r: src[(y * w + x) * 4 + 2] }
}

/// The four pixels of the block in column `bx` and row `by` of the blocks, row by row.
pub open spec fn block_at(src: Seq<u8>, w: int, bx: int, by: int) -> (Bgr, Bgr, Bgr, Bgr) {
    (
        pixel_at(src, w, 2 * bx, 2 * by),
        pixel_at(src, w, 2 * bx + 1, 2 * by),
        pixel_at(src, w, 2 * bx, 2 * by + 1),
        pixel_at(src, w, 2 * bx + 1, 2 * by + 1),
    )
}

/// The two chroma bytes of the block in column `bx` and row `by` of the blocks: behind the luma of
/// the whole picture, one row of blocks taking as many bytes as a row of pixels takes of luma.
pub open spec fn chroma_at(out: Seq<u8>, w: int, h: int, bx: int, by: int) -> (u8, u8) {
    (out[w * h + by * w + 2 * bx], out[w * h + by * w + 2 * bx + 1])
}

/// The blocks, counted row by row, are the squares of two by two pixels that the picture is made
/// of, each with its own two pixels of its own two rows, and their chroma follows in that order.
pub proof fn blocks_are_squares_of_the_picture(src: Seq<u8>, w: int, h: int, bx: int, by: int)
    requires
        w % 2 == 0,
        h % 2 == 0,
        0 <= 2 * bx < w,
        0 <= 2 * by < h,
    ensures
        0 <= by * (w / 2) + bx < (w / 2) * (h / 2),
        w * h + 2 * (by * (w / 2) + bx) == w * h + by * w + 2 * bx,
        block_of(src, w, by * (w / 2) + bx) == (
            pixel_at(src, w, 2 * bx, 2 * by),
            pixel_at(src, w, 2 * bx + 1, 2 * by),
            pixel_at(src, w, 2 * bx, 2 * by + 1),
            pixel_at(src, w, 2 * bx + 1, 2 * by + 1),
        ),
{
    let hw = w / 2;
    let hh = h / 2;
    let q = by * hw + bx;
    row_and_column(bx, by, hw);
    assert(0 <= q < hw * hh && 2 * q == by * w + 2 * bx) by (nonlinear_arith)
        requires
            q == by * hw + bx,
            0 <= bx < hw,
            0 <= by < hh,
            w == 2 * hw,
    ;
    assert(block_pixel(q, w, 0, 0) == ((2 * by) * w + 2 * bx) * 4);
    assert(block_pixel(q, w, 1, 0) == ((2 * by) * w + 2 * bx + 1) * 4);
    assert(block_pixel(q, w, 0, 1) == ((2 * by + 1) * w + 2 * bx) * 4);
    assert(block_pixel(q, w, 1, 1) == ((2 * by + 1) * w + 2 * bx + 1) * 4);
}

/// Every pixel of the picture lies in a block, in the one whose column and row are half its own.
pub proof fn every_pixel_lies_in_its_block(src: Seq<u8>, w: int, h: int, x: int, y: int)
    requires
        w % 2 == 0,
        h % 2 == 0,
        0 <= x < w,
        0 <= y < h,
    ensures
        ({
            let block = block_of(src, w, (y / 2) * (w / 2) + x / 2);
            pixel_at(src, w, x, y) == (if y % 2 == 0 {
                if x % 2 == 0 {
                    block.0
                } else {
                    block.1
                }
            } else {
                if x % 2 == 0 {
                    block.2
                } else {
                    block.3
                }
            })
        }),
{
    blocks_are_squares_of_the_picture(src, w, h, x / 2, y / 2);
    assert(2 * (x / 2) + x % 2 == x && 2 * (y / 2) + y % 2 == y);
}

/// An NV12 picture has three bytes to two pixels.
pub proof fn nv12_has_three_bytes_to_two_pixels(w: int, h: int)
    requires
        w % 2 == 0,
    ensures
        2 * nv12_len(w, h) == 3 * (w * h),
{
    let half = w / 2;
    assert(w * h == 2 * (half * h)) by (nonlinear_arith)
        requires
            w == 2 * half,
    ;
}

/// The luma of the pixel at (`x`, `y`) stands at its place among the pixels, counted row by row, and
/// is made of that pixel.
pub proof fn luma_stands_at_its_pixel(src: Seq<u8>, w: int, x: int, y: int)
    ensures
        bgr_at(src, (y * w + x) * 4) == pixel_at(src, w, x, y),
{
}

/// A pixel of a scaled picture is the pixel of the source that lies at the same part of the way
/// along either axis, counted down to a whole pixel; all four of its bytes are taken over.
pub proof fn scaled_pixels_lie_at_the_same_part(
    src: Seq<u8>,
    sw: int,
    sh: int,
    dw: int,
    dh: int,
    x: int,
    y: int,
    from_x: int,
    from_y: int,
    c: int,
)
    requires
        0 <= x < dw,
        0 <= y < dh,
        0 <= c < 4,
        from_x * dw <= x * sw < (from_x + 1) * dw,
        from_y * dh <= y * sh < (from_y + 1) * dh,
    ensures
        0 <= (y * dw + x) * 4 + c < scaled(src, sw, sh, dw, dh).len(),
        scaled(src, sw, sh, dw, dh).len() == dw * dh * 4,
        scaled(src, sw, sh, dw, dh)[(y * dw + x) * 4 + c] == src[(from_y * sw + from_x) * 4 + c],
{
    let k = (y * dw + x) * 4 + c;
    row_and_column(x, y, dw);
    assert(0 <= y * dw + x < dw * dh) by (nonlinear_arith)
        requires
            0 <= x < dw,
            0 <= y < dh,
    ;
    assert(k / 4 == y * dw + x && k % 4 == c);
    quotient_is(x * sw, dw, from_x);
    quotient_is(y * sh, dh, from_y);
}

proof fn quotient_is(a: int, n: int, q: int)
    requires
        0 < n,
        q * n <= a < (q + 1) * n,
    ensures
        a / n == q,
{
    assert((q + 1) * n == q * n + n) by (nonlinear_arith);
    assert(q * n == n * q) by (nonlinear_arith);
    lemma_fundamental_div_mod_converse(a, n, q, a - q * n);
}

/// The integer rules are the weights of the BT.601 conversion, in parts of 256, rounded to the
/// nearest whole number: 66, 129 and 25 parts of red, green and blue above 16 make the luma, and
/// the differences around 128 the two chroma parts.
pub proof fn conversion_rounds_to_the_nearest(r: u8, g: u8, b: u8)
    ensures
        -128 <= 66 * r + 129 * g + 25 * b - 256 * (luma601(r as int, g as int, b as int) - 16)
            < 128,
        -128 <= 112 * b - 38 * r - 74 * g - 256 * (chroma_u601(r as int, g as int, b as int) - 128)
            < 128,
        -128 <= 112 * r - 94 * g - 18 * b - 256 * (chroma_v601(r as int, g as int, b as int) - 128)
            < 128,
{
}

/// The luma of a scaled NV12 picture is that of the pixel in the chosen column of the chosen row,
/// the rows being `pitch` bytes apart and a pixel four bytes long.
pub proof fn scaled_luma_is_of_the_chosen_pixel(
    src: Seq<u8>,
    cols: Seq<usize>,
    rows: Seq<usize>,
    pitch: int,
    x: int,
    y: int,
    i: int,
)
    requires
        i == rows[y] * pitch + 4 * cols[x],
    ensures
        -128 <= 66 * src[i + 2] + 129 * src[i + 1] + 25 * src[i] - 256 * (scaled_luma(
            src,
            cols,
            rows,
            pitch,
            x,
            y,
        ) - 16) < 128,
{
    conversion_rounds_to_the_nearest(src[i + 2], src[i + 1], src[i]);
}

/// The mean, counted down to a whole number, of four bytes.
pub open spec fn is_mean(mean: int, a: u8, b: u8, c: u8, d: u8) -> bool {
    4 * mean <= a + b + c + d < 4 * mean + 4
}

/// The chroma of a block of a scaled NV12 picture is that of the mean colour of its four pixels,
/// which are those in the two chosen columns of the two chosen rows.
pub proof fn scaled_chroma_is_of_the_mean_colour(
    src: Seq<u8>,
    cols: Seq<usize>,
    rows: Seq<usize>,
    pitch: int,
    x: int,
    y: int,
    r: int,
    g: int,
    b: int,
)
    requires
        ({
            let p = rows[y] * pitch + 4 * cols[x];
            let q = rows[y] * pitch + 4 * cols[x + 1];
            let s = rows[y + 1] * pitch + 4 * cols[x];
            let t = rows[y + 1] * pitch + 4 * cols[x + 1];
            &&& is_mean(b, src[p], src[q], src[s], src[t])
            &&& is_mean(g, src[p + 1], src[q + 1], src[s + 1], src[t + 1])
            &&& is_mean(r, src[p + 2], src[q + 2], src[s + 2], src[t + 2])
        }),
    ensures
        ({
            let uv = scaled_chroma(src, cols, rows, pitch, x, y);
            &&& -128 <= 112 * b - 38 * r - 74 * g - 256 * (uv.0 - 128) < 128
            &&& -128 <= 112 * r - 94 * g - 18 * b - 256 * (uv.1 - 128) < 128
        }),
{
    assert(block_mean(src, cols, rows, pitch, x, y, 0) == b);
    assert(block_mean(src, cols, rows, pitch, x, y, 1) == g);
    assert(block_mean(src, cols, rows, pitch, x, y, 2) == r);
    conversion_rounds_to_the_nearest(r as u8, g as u8, b as u8);
}

/// A picture that is resized to the size that it has is handed back, whatever bytes it holds. One
/// that is resized to any other size has four bytes to every pixel of that size.
pub proof fn resized_pictures_have_the_size(src: Seq<u8>, sw: u32, sh: u32, dw: u32, dh: u32)
    ensures
        (sw, sh) == (dw, dh) ==> resized(src, sw, sh, dw, dh) == src,
        (sw, sh) != (dw, dh) ==> resized(src, sw, sh, dw, dh).len() == dw * dh * 4,
        (sw, sh) != (dw, dh) ==> resized(src, sw, sh, dw, dh) == scaled(
            src,
            sw as int,
            sh as int,
            dw as int,
            dh as int,
        ),
{
    assert(dw * dh * 4 >= 0) by (nonlinear_arith);
}

/// A picture of even sides can be converted once it holds four bytes to a pixel, and not with a
/// byte less; one with an odd side cannot be converted.
pub proof fn whole_pictures_of_even_sides_are_converted(w: u32, h: u32, len: nat)
    requires
        w > 0,
        h > 0,
    ensures
        can_convert(len, w, h) <==> 2 * (w / 2) == w && 2 * (h / 2) == h && 4 * (w * h) <= len,
{
    assert(w * h * 4 == 4 * (w * h)) by (nonlinear_arith);
}

/// A block of `out` is two bytes next to each other: the first chroma part, then the second.
pub proof fn blocks_are_two_bytes(before: Seq<u8>, first: u8, second: u8, after: Seq<u8>, u: u8, v: u8)
    ensures
        has_block(before + seq![first, second] + after, before.len() as int, (u as int, v as int))
            <==> first == u && second == v,
        !has_block(before + seq![first], before.len() as int, (u as int, v as int)),
{
}

} // verus!
