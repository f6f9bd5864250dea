//! Copying rectangles of RGBA pixel buffers: cropping, and placing one image
//! onto another.
//!
//! A buffer holds four bytes per pixel, row after row.
use vstd::prelude::*;

verus! {

/// `n` zero bytes.
pub open spec fn zero_bytes(n: nat) -> Seq<u8> {
    Seq::new(n, |i: int| 0u8)
}

/// Where row `dy` of a crop at (`x`, `y`) starts in the source buffer, in bytes.
pub open spec fn crop_row_start(src_w: u32, x: u32, y: u32, dy: int) -> int {
    ((y + dy) * src_w + x) * 4
}

/// Whether row `dy` of the crop is copied: it lies inside the source and its
/// bytes lie inside the source buffer.
pub open spec fn crop_row_copied(src: Seq<u8>, src_w: u32, src_h: u32, x: u32, y: u32, w: u32, dy: int) -> bool {
    y + dy < src_h && crop_row_start(src_w, x, y, dy) + w * 4 <= src.len()
}

/// The bytes of row `dy` of the crop: the source's, or zeros when the row is
/// not copied.
pub open spec fn crop_row(src: Seq<u8>, src_w: u32, src_h: u32, x: u32, y: u32, w: u32, dy: int) -> Seq<u8> {
    if crop_row_copied(src, src_w, src_h, x, y, w, dy) {
        src.subrange(crop_row_start(src_w, x, y, dy), crop_row_start(src_w, x, y, dy) + w * 4)
    } else {
        zero_bytes((w * 4) as nat)
    }
}

/// The first `rows` rows of the crop, one after the other.
pub open spec fn crop_rows(src: Seq<u8>, src_w: u32, src_h: u32, x: u32, y: u32, w: u32, rows: int) -> Seq<u8>
    decreases rows,
{
    if rows <= 0 {
        Seq::empty()
    } else {
        crop_rows(src, src_w, src_h, x, y, w, rows - 1) + crop_row(src, src_w, src_h, x, y, w, rows - 1)
    }
}

/// Copies the `w` by `h` rectangle at (`x`, `y`) out of an image `src_w`
/// pixels wide and `src_h` high. Rows below the image, or past the end of
/// the buffer, are left zero.
///
/// The offsets are computed in 32 bits, so the rectangle and the image must
/// fit in them.
pub fn crop_rgba(src: &[u8], src_w: u32, src_h: u32, x: u32, y: u32, w: u32, h: u32) -> (out: Vec<u8>)
    requires
        y + h <= u32::MAX + 1,
        (src_h * src_w + x) * 4 <= u32::MAX,
        w * h * 4 <= u32::MAX,
    ensures
        out@ == crop_rows(src@, src_w, src_h, x, y, w, h as int),
        out@.len() == w * h * 4,
{
    let mut out: Vec<u8> = Vec::new();
    if h == 0 {
        assert(out@ =~= crop_rows(src@, src_w, src_h, x, y, w, 0));
        return out;
    }
    assert(w * 4 <= w * h * 4) by (nonlinear_arith)
        requires
            h >= 1,
    ;
    let stride: usize = (w * 4) as usize;
    let mut dy: u32 = 0;
    while dy < h
        invariant
            dy <= h,
            y + h <= u32::MAX + 1,
            (src_h * src_w + x) * 4 <= u32::MAX,
            w * h * 4 <= u32::MAX,
            stride == w * 4,
            out@ == crop_rows(src@, src_w, src_h, x, y, w, dy as int),
            out@.len() == dy * stride,
        decreases h - dy,
    {
        let ghost before = out@;
        let src_y: u32 = y + dy;
        let mut copied = false;
        if src_y < src_h {
            assert(src_y * src_w <= (src_h - 1) * src_w) by (nonlinear_arith)
                requires
                    src_y < src_h,
            ;
            assert((src_h - 1) * src_w + src_w == src_h * src_w) by (nonlinear_arith);
            let start: usize = ((src_y * src_w + x) * 4) as usize;
            if start <= src.len() && stride <= src.len() - start {
                let end: usize = start + stride;
                let mut k: usize = start;
                while k < end
                    invariant
                        start <= k <= end,
                        end <= src@.len(),
                        out@ == before + src@.subrange(start as int, k as int),
                    decreases end - k,
                {
                    out.push(src[k]);
                    k = k + 1;
                    assert(out@ =~= before + src@.subrange(start as int, k as int));
                }
                copied = true;
                assert(crop_row_copied(src@, src_w, src_h, x, y, w, dy as int));
            }
        }
        if !copied {
            let mut k: usize = 0;
            while k < stride
                invariant
                    k <= stride,
                    out@ == before + zero_bytes(k as nat),
                decreases stride - k,
            {
                out.push(0);
                k = k + 1;
                assert(out@ =~= before + zero_bytes(k as nat));
            }
        }
        assert(out@ =~= crop_rows(src@, src_w, src_h, x, y, w, dy + 1));
        assert(out@.len() == (dy + 1) * stride) by (nonlinear_arith)
            requires
                out@.len() == dy * stride + stride,
        ;
        dy = dy + 1;
    }
    assert(h * stride == w * h * 4) by (nonlinear_arith)
        requires
            stride == w * 4,
    ;
    out
}

/// `dest` with `n` bytes from `src[si..]` written at `di`.
pub open spec fn write_bytes(dest: Seq<u8>, di: int, src: Seq<u8>, si: int, n: int) -> Seq<u8> {
    dest.subrange(0, di) + src.subrange(si, si + n) + dest.subrange(di + n, dest.len() as int)
}

/// The placement of source row `sy` onto the destination when the source's
/// top-left corner goes to (`x`, `y`): the part of the row that falls inside
/// the destination is written over it. Returns the destination's first byte,
/// the source's first byte and the byte count, or `None` when nothing of the
/// row is written.
pub open spec fn overlay_row_span(
    dest_len: nat,
    dest_w: u32,
    dest_h: u32,
    src_len: nat,
    src_w: u32,
    x: i64,
    y: i64,
    sy: int,
) -> Option<(int, int, int)> {
    let dy = y + sy;
    let rs: int = if x > 0 {
        x as int
    } else {
        0
    };
    let re: int = if x + src_w < dest_w {
        x + src_w
    } else {
        dest_w as int
    };
    let sc: int = if rs - x > 0 {
        rs - x
    } else {
        0
    };
    let ec: int = if re - x < src_w {
        re - x
    } else {
        src_w as int
    };
    let n = (ec - sc) * 4;
    let si = sy * src_w * 4 + sc * 4;
    let di = dy * dest_w * 4 + rs * 4;
    if dy < 0 || dy >= dest_h || rs >= re || sc >= ec || si + n > src_len || di + n > dest_len {
        None
    } else {
        Some((di, si, n))
    }
}

/// The destination after the first `rows` source rows are placed.
pub open spec fn overlay_rows(
    dest: Seq<u8>,
    dest_w: u32,
    dest_h: u32,
    src: Seq<u8>,
    src_w: u32,
    x: i64,
    y: i64,
    rows: int,
) -> Seq<u8>
    decreases rows,
{
    if rows <= 0 {
        dest
    } else {
        let before = overlay_rows(dest, dest_w, dest_h, src, src_w, x, y, rows - 1);
        match overlay_row_span(before.len(), dest_w, dest_h, src.len(), src_w, x, y, rows - 1) {
            Some(span) => write_bytes(before, span.0, src, span.1, span.2),
            None => before,
        }
    }
}

proof fn lemma_overlay_rows_len(
    dest: Seq<u8>,
    dest_w: u32,
    dest_h: u32,
    src: Seq<u8>,
    src_w: u32,
    x: i64,
    y: i64,
    rows: int,
)
    ensures
        overlay_rows(dest, dest_w, dest_h, src, src_w, x, y, rows).len() == dest.len(),
    decreases rows,
{
    if rows > 0 {
        lemma_overlay_rows_len(dest, dest_w, dest_h, src, src_w, x, y, rows - 1);
    }
}

/// Places an image of `src_w` by `src_h` pixels onto one of `dest_w` by
/// `dest_h`, its top-left corner at (`x`, `y`); what falls outside the
/// destination is dropped.
pub fn overlay_rgba(
    dest: &mut Vec<u8>,
    dest_w: u32,
    dest_h: u32,
    src: &[u8],
    src_w: u32,
    src_h: u32,
    x: i64,
    y: i64,
)
    requires
        dest_w * dest_h * 4 <= i64::MAX,
        src_w * src_h * 4 <= i64::MAX,
        dest_w * dest_h * 4 <= usize::MAX,
        src_w * src_h * 4 <= usize::MAX,
        x + src_w <= i64::MAX,
        y + src_h <= i64::MAX,
    ensures
        final(dest)@ == overlay_rows(old(dest)@, dest_w, dest_h, src@, src_w, x, y, src_h as int),
{
    let sw: i64 = src_w as i64;
    let sh: i64 = src_h as i64;
    let dw: i64 = dest_w as i64;
    let dh: i64 = dest_h as i64;
    let ghost start = dest@;
    let mut sy: i64 = 0;
    while sy < sh
        invariant
            0 <= sy <= sh,
            sw == src_w,
            sh == src_h,
            dw == dest_w,
            dh == dest_h,
            dest_w * dest_h * 4 <= i64::MAX,
            src_w * src_h * 4 <= i64::MAX,
            dest_w * dest_h * 4 <= usize::MAX,
            src_w * src_h * 4 <= usize::MAX,
            x + src_w <= i64::MAX,
            y + src_h <= i64::MAX,
            dest@ == overlay_rows(start, dest_w, dest_h, src@, src_w, x, y, sy as int),
        decreases sh - sy,
    {
        let ghost before = dest@;
        proof {
            lemma_overlay_rows_len(start, dest_w, dest_h, src@, src_w, x, y, sy as int);
        }
        let ghost span = overlay_row_span(before.len(), dest_w, dest_h, src@.len(), src_w, x, y, sy as int);
        let dy: i64 = y + sy;
        if 0 <= dy && dy < dh {
            let rs: i64 = if x > 0 {
                x
            } else {
                0
            };
            let re: i64 = if x + sw < dw {
                x + sw
            } else {
                dw
            };
            if rs < re {
                assert(x > -(src_w as int));
                let sc: i64 = if rs - x > 0 {
                    rs - x
                } else {
                    0
                };
                let ec: i64 = if re - x < sw {
                    re - x
                } else {
                    sw
                };
                if sc < ec {
                    assert(sy * sw * 4 + sc * 4 <= sh * sw * 4) by (nonlinear_arith)
                        requires
                            sy < sh,
                            0 <= sc < ec <= sw,
                    ;
                    assert(dy * dw * 4 + rs * 4 <= dh * dw * 4) by (nonlinear_arith)
                        requires
                            0 <= dy < dh,
                            0 <= rs < re <= dw,
                    ;
                    assert((ec - sc) * 4 <= sw * 4);
                    assert(dh * dw * 4 == dest_w * dest_h * 4) by (nonlinear_arith)
                        requires
                            dh == dest_h,
                            dw == dest_w,
                    ;
                    assert(sh * sw * 4 == src_w * src_h * 4) by (nonlinear_arith)
                        requires
                            sh == src_h,
                            sw == src_w,
                    ;
                    let n: i64 = (ec - sc) * 4;
                    let si: i64 = sy * sw * 4 + sc * 4;
                    let di: i64 = dy * dw * 4 + rs * 4;
                    assert(si + n <= sh * sw * 4) by (nonlinear_arith)
                        requires
                            sy < sh,
                            0 <= sc < ec <= sw,
                            si == sy * sw * 4 + sc * 4,
                            n == (ec - sc) * 4,
                    ;
                    assert(di + n <= dh * dw * 4) by (nonlinear_arith)
                        requires
                            0 <= dy < dh,
                            0 <= rs < re <= dw,
                            ec - sc <= re - rs,
                            di == dy * dw * 4 + rs * 4,
                            n == (ec - sc) * 4,
                    ;
                    assert(0 <= n && 0 <= si && 0 <= di);
                    assert(si + n <= usize::MAX && di + n <= usize::MAX);
                    let n_u: usize = n as usize;
                    let si_u: usize = si as usize;
                    let di_u: usize = di as usize;
                    assert(n_u == n && si_u == si && di_u == di);
                    if si_u <= src.len() && n_u <= src.len() - si_u && di_u <= dest.len() && n_u
                        <= dest.len() - di_u {
                        assert(span == Some((di as int, si as int, n as int)));
                        let slen: usize = src.len();
                        let dlen: usize = dest.len();
                        let mut k: usize = 0;
                        while k < n_u
                            invariant
                                k <= n_u,
                                slen == src@.len(),
                                dlen == before.len(),
                                si_u + n_u <= slen,
                                di_u + n_u <= dlen,
                                si_u + n_u <= src@.len(),
                                di_u + n_u <= before.len(),
                                dest@.len() == before.len(),
                                dest@ == write_bytes(before, di_u as int, src@, si_u as int, k as int),
                            decreases n_u - k,
                        {
                            let v = src[si_u + k];
                            dest.set(di_u + k, v);
                            k = k + 1;
                            assert(dest@ =~= write_bytes(
                                before,
                                di_u as int,
                                src@,
                                si_u as int,
                                k as int,
                            ));
                        }
                    } else {
                        assert(span is None);
                        assert(dest@ =~= before);
                    }
                } else {
                    assert(span is None);
                }
            } else {
                assert(span is None);
            }
        } else {
            assert(span is None);
        }
        sy = sy + 1;
    }
}

/// The luma of a colour, weighted 299 : 587 : 114 and scaled to `0..=255`.
pub open spec fn luma(r: u8, g: u8, b: u8) -> int {
    (r * 299 + g * 587 + b * 114) / 1000
}

/// The luma of a colour, weighted 299 : 587 : 114 and scaled to `0..=255`.
pub fn luminance(r: u8, g: u8, b: u8) -> (l: u32)
    ensures
        l == luma(r, g, b),
        l <= 255,
{
    assert(r * 299 + g * 587 + b * 114 <= 255000) by (nonlinear_arith)
        requires
            r <= 255,
            g <= 255,
            b <= 255,
    ;
    let sum: u32 = (r as u32) * 299 + (g as u32) * 587 + (b as u32) * 114;
    sum / 1000
}

/// Byte `i` of an RGBA buffer after the grayscale and invert filters: in each
/// whole pixel the three colour channels become the pixel's luma (when
/// `grayscale`) and are then flipped to `255 - v` (when `invert`); alpha, and
/// the bytes of a trailing partial pixel, stay as they were.
pub open spec fn simple_filtered_byte(s: Seq<u8>, i: int, grayscale: bool, invert: bool) -> u8 {
    let base = i - i % 4;
    if i % 4 == 3 || base + 4 > s.len() {
        s[i]
    } else {
        let v: u8 = if grayscale {
            luma(s[base], s[base + 1], s[base + 2]) as u8
        } else {
            s[i]
        };
        if invert {
            (255 - v) as u8
        } else {
            v
        }
    }
}

/// An RGBA buffer after the grayscale and invert filters.
pub open spec fn simple_filtered(s: Seq<u8>, grayscale: bool, invert: bool) -> Seq<u8> {
    Seq::new(s.len(), |i: int| simple_filtered_byte(s, i, grayscale, invert))
}

proof fn lemma_pixel_base(i: int, p: int)
    requires
        4 * p <= i < 4 * p + 4,
    ensures
        i % 4 == i - 4 * p,
        i - i % 4 == 4 * p,
{
    assert(i % 4 == i - 4 * p) by (nonlinear_arith)
        requires
            4 * p <= i < 4 * p + 4,
    ;
}

/// The filters that need no colour-space conversion: grayscale (each colour
/// channel becomes the pixel's luma) and invert (each colour channel `v`
/// becomes `255 - v`), grayscale first. Alpha is kept.
pub fn apply_simple_filters(img: &mut Vec<u8>, grayscale: bool, invert: bool)
    ensures
        final(img)@ == simple_filtered(old(img)@, grayscale, invert),
{
    let ghost start = img@;
    let len: usize = img.len();
    let pixels: usize = len / 4;
    assert(4 * pixels <= len < 4 * pixels + 4) by (nonlinear_arith)
        requires
            pixels == len / 4,
    ;
    let mut p: usize = 0;
    while p < pixels
        invariant
            p <= pixels,
            pixels == len / 4,
            4 * pixels <= len < 4 * pixels + 4,
            len == start.len(),
            img@.len() == len,
            forall|i: int|
                0 <= i < 4 * p ==> #[trigger] img@[i] == simple_filtered_byte(start, i, grayscale, invert),
            forall|i: int| 4 * p <= i < len ==> #[trigger] img@[i] == start[i],
        decreases pixels - p,
    {
        let base: usize = 4 * p;
        let r: u8 = img[base];
        let g: u8 = img[base + 1];
        let b: u8 = img[base + 2];
        let mut nr: u8 = r;
        let mut ng: u8 = g;
        let mut nb: u8 = b;
        if grayscale {
            let l: u32 = luminance(r, g, b);
            let gray: u8 = l as u8;
            nr = gray;
            ng = gray;
            nb = gray;
        }
        if invert {
            nr = 255 - nr;
            ng = 255 - ng;
            nb = 255 - nb;
        }
        img.set(base, nr);
        img.set(base + 1, ng);
        img.set(base + 2, nb);
        proof {
            assert forall|i: int| 0 <= i < 4 * (p + 1) implies #[trigger] img@[i]
                == simple_filtered_byte(start, i, grayscale, invert) by {
                if i >= 4 * p {
                    lemma_pixel_base(i, p as int);
                }
            }
        }
        p = p + 1;
    }
    proof {
        assert forall|i: int| 0 <= i < len implies #[trigger] img@[i] == simple_filtered_byte(
            start,
            i,
            grayscale,
            invert,
        ) by {
            if i >= 4 * p {
                lemma_pixel_base(i, p as int);
            }
        }
        assert(img@ =~= simple_filtered(start, grayscale, invert));
    }
}

} // verus!
