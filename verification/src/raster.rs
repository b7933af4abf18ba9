//! An in-memory RGBA8 image and the pixel operations the burner performs on
//! it: cropping, opaque source-over blending and compositing a coverage mask.
use vstd::prelude::*;
use crate::mask::{cell, in_grid};

verus! {

/// An 8-bit RGBA colour as the toolkit stores it (colour channels already
/// multiplied by alpha).
#[derive(Debug, Clone, Copy, PartialEq, Eq, Structural)]
pub struct Color {
    pub r: u8,
    pub g: u8,
    pub b: u8,
    pub a: u8,
}

/// Row-major RGBA8 pixels, four bytes per pixel.
#[derive(Debug, Clone)]
pub struct Raster {
    pub width: u32,
    pub height: u32,
    pub pixels: Vec<u8>,
}

/// Byte index of channel `c` of pixel `(x, y)` in a buffer `w` pixels wide.
pub open spec fn byte_index(w: int, x: int, y: int, c: int) -> int {
    4 * (y * w + x) + c
}

/// Pixel `(x, y)` of the RGBA8 bytes `px`, `w` pixels per row.
pub open spec fn pixel_at(px: Seq<u8>, w: int, x: int, y: int) -> Color {
    Color {
        r: px[byte_index(w, x, y, 0)],
        g: px[byte_index(w, x, y, 1)],
        b: px[byte_index(w, x, y, 2)],
        a: px[byte_index(w, x, y, 3)],
    }
}

/// `src` composited over `dst` at opacity `alpha / 255`, rounded to the
/// nearest integer (the exact value is never halfway between two integers).
pub open spec fn blend_channel(src: u8, dst: u8, alpha: u8) -> u8 {
    ((2 * (src * alpha + dst * (255 - alpha)) + 255) / 510) as u8
}

/// Source-over blend of `color` onto an opaque pixel. A fully transparent
/// colour leaves the pixel alone; otherwise the result is opaque.
pub open spec fn blend(dst: Color, color: Color) -> Color {
    if color.a == 0 {
        dst
    } else {
        Color {
            r: blend_channel(color.r, dst.r, color.a),
            g: blend_channel(color.g, dst.g, color.a),
            b: blend_channel(color.b, dst.b, color.a),
            a: 255,
        }
    }
}

/// Clamped crop rectangle `(x, y, width, height)`: the origin is clamped to
/// the image and the extent to what remains past it.
pub open spec fn crop_bounds(iw: int, ih: int, x: int, y: int, w: int, h: int) -> (int, int, int, int) {
    let cx = if x < iw { x } else { iw };
    let cy = if y < ih { y } else { ih };
    let cw = if w < iw - cx { w } else { iw - cx };
    let ch = if h < ih - cy { h } else { ih - cy };
    (cx, cy, cw, ch)
}

/// A crop that fits inside the image has exactly the size asked for, and a
/// crop never grows: the width comes from the requested width and the
/// height from the requested height, each only cut at the image's edge.
pub proof fn lemma_crop_size(iw: int, ih: int, x: int, y: int, w: int, h: int)
    requires
        0 <= x,
        0 <= y,
        0 <= w,
        0 <= h,
    ensures
        x + w <= iw ==> crop_bounds(iw, ih, x, y, w, h).2 == w,
        y + h <= ih ==> crop_bounds(iw, ih, x, y, w, h).3 == h,
        crop_bounds(iw, ih, x, y, w, h).2 <= w,
        crop_bounds(iw, ih, x, y, w, h).3 <= h,
        crop_bounds(iw, ih, x, y, w, h).0 + crop_bounds(iw, ih, x, y, w, h).2 <= iw || iw < 0,
        crop_bounds(iw, ih, x, y, w, h).1 + crop_bounds(iw, ih, x, y, w, h).3 <= ih || ih < 0,
{
}

proof fn lemma_pixel_bytes(w: int, h: int, x: int, y: int)
    requires
        in_grid(w, h, x, y),
    ensures
        0 <= y * w + x < w * h,
        0 <= byte_index(w, x, y, 0),
        byte_index(w, x, y, 3) < 4 * w * h,
{
    assert(0 <= y * w) by (nonlinear_arith)
        requires
            0 <= y,
            0 <= w,
    ;
    assert(y * w + x < w * h) by (nonlinear_arith)
        requires
            0 <= x < w,
            0 <= y < h,
    ;
    assert(4 * (w * h) == 4 * w * h) by (nonlinear_arith);
}

proof fn lemma_pixel_bytes_distinct(w: int, x: int, y: int, qx: int, qy: int, c: int, d: int)
    requires
        0 <= x < w,
        0 <= qx < w,
        0 <= y,
        0 <= qy,
        0 <= c < 4,
        0 <= d < 4,
        (x, y) != (qx, qy),
    ensures
        byte_index(w, x, y, c) != byte_index(w, qx, qy, d),
{
    if y == qy {
    } else if y < qy {
        assert(y * w + w <= qy * w) by (nonlinear_arith)
            requires
                y < qy,
                0 <= w,
        ;
    } else {
        assert(qy * w + w <= y * w) by (nonlinear_arith)
            requires
                qy < y,
                0 <= w,
        ;
    }
}

/// An opaque colour replaces a pixel outright, a fully transparent one
/// leaves it untouched, and any other colour leaves it opaque.
pub proof fn lemma_blend_extremes(dst: Color, color: Color)
    ensures
        color.a == 255 ==> blend(dst, color) == (Color { r: color.r, g: color.g, b: color.b, a: 255 }),
        color.a == 0 ==> blend(dst, color) == dst,
        color.a != 0 ==> blend(dst, color).a == 255,
{
    if color.a == 255 {
        lemma_opaque_channel(color.r, dst.r);
        lemma_opaque_channel(color.g, dst.g);
        lemma_opaque_channel(color.b, dst.b);
    }
}

proof fn lemma_opaque_channel(src: u8, dst: u8)
    ensures
        blend_channel(src, dst, 255) == src,
{
    assert(dst * (255 - 255int) == 0);
    assert((2 * (src * 255 + dst * (255 - 255int)) + 255) / 510 == src as int) by (nonlinear_arith)
        requires
            dst * (255 - 255int) == 0,
    ;
}

/// Rounded source-over blend of one channel.
fn blend_byte(src: u8, dst: u8, alpha: u8) -> (out: u8)
    ensures
        out == blend_channel(src, dst, alpha),
{
    let s = src as u32;
    let d = dst as u32;
    let a = alpha as u32;
    assert(s * a <= 255 * a) by (nonlinear_arith)
        requires
            s <= 255,
    ;
    assert(d * (255 - a) <= 255 * (255 - a)) by (nonlinear_arith)
        requires
            d <= 255,
            a <= 255,
    ;
    assert(s * a + d * (255 - a) <= 255 * 255);
    assert(0 <= d * (255 - a)) by (nonlinear_arith)
        requires
            a <= 255,
    ;
    ((2 * (s * a + d * (255 - a)) + 255) / 510) as u8
}

impl Raster {
    pub open spec fn wf(&self) -> bool {
        self.pixels@.len() == 4 * self.width * self.height
    }

    /// Pixel `(x, y)`.
    pub open spec fn pixel(&self, x: int, y: int) -> Color {
        pixel_at(self.pixels@, self.width as int, x, y)
    }

    /// A `width` x `height` image with every byte zero (transparent black).
    pub fn new(width: u32, height: u32) -> (r: Raster)
        requires
            4 * width * height <= usize::MAX,
        ensures
            r.wf(),
            r.width == width,
            r.height == height,
            forall|i: int| 0 <= i < r.pixels@.len() ==> r.pixels@[i] == 0,
    {
        assert(width * height <= 4 * width * height) by (nonlinear_arith);
        assert(4 * (width * height) == 4 * width * height) by (nonlinear_arith);
        let n: usize = 4 * ((width as usize) * (height as usize));
        let mut pixels: Vec<u8> = Vec::new();
        let mut i: usize = 0;
        while i < n
            invariant
                i <= n,
                pixels@.len() == i,
                forall|k: int| 0 <= k < i ==> pixels@[k] == 0,
            decreases n - i,
        {
            pixels.push(0);
            i = i + 1;
        }
        Raster { width, height, pixels }
    }

    /// Wraps raw RGBA8 bytes; `None` unless there are exactly four bytes per
    /// pixel.
    pub fn from_raw(width: u32, height: u32, pixels: Vec<u8>) -> (r: Option<Raster>)
        ensures
            r is Some <==> pixels@.len() == 4 * width * height,
            r matches Some(img) ==> img.width == width && img.height == height && img.pixels@ == pixels@,
    {
        let w = width as u128;
        let h = height as u128;
        assert(w * h <= 0xFFFF_FFFF * 0xFFFF_FFFF) by (nonlinear_arith)
            requires
                w <= 0xFFFF_FFFF,
                h <= 0xFFFF_FFFF,
        ;
        assert(4 * (w * h) == 4 * width * height) by (nonlinear_arith)
            requires
                w == width,
                h == height,
        ;
        if pixels.len() as u128 != 4 * (w * h) {
            return None;
        }
        Some(Raster { width, height, pixels })
    }

    pub fn get_pixel(&self, x: u32, y: u32) -> (c: Color)
        requires
            self.wf(),
            x < self.width,
            y < self.height,
        ensures
            c == self.pixel(x as int, y as int),
    {
        let _len = self.pixels.len();
        proof {
            lemma_pixel_bytes(self.width as int, self.height as int, x as int, y as int);
        }
        let base = 4 * (y as usize * self.width as usize + x as usize);
        Color {
            r: self.pixels[base],
            g: self.pixels[base + 1],
            b: self.pixels[base + 2],
            a: self.pixels[base + 3],
        }
    }

    /// Replaces pixel `(x, y)`; every other pixel keeps its value.
    pub fn put_pixel(&mut self, x: u32, y: u32, color: Color)
        requires
            old(self).wf(),
            x < old(self).width,
            y < old(self).height,
        ensures
            final(self).wf(),
            final(self).width == old(self).width,
            final(self).height == old(self).height,
            final(self).pixel(x as int, y as int) == color,
            forall|qx: int, qy: int|
                in_grid(old(self).width as int, old(self).height as int, qx, qy) && (qx, qy) != (x as int, y as int)
                    ==> #[trigger] final(self).pixel(qx, qy) == old(self).pixel(qx, qy),
    {
        let w = self.width;
        let _len = self.pixels.len();
        proof {
            lemma_pixel_bytes(self.width as int, self.height as int, x as int, y as int);
        }
        let base = 4 * (y as usize * w as usize + x as usize);
        let ghost before = self.pixels@;
        self.pixels.set(base, color.r);
        self.pixels.set(base + 1, color.g);
        self.pixels.set(base + 2, color.b);
        self.pixels.set(base + 3, color.a);
        proof {
            assert forall|qx: int, qy: int|
                in_grid(old(self).width as int, old(self).height as int, qx, qy) && (qx, qy) != (x as int, y as int)
                implies #[trigger] self.pixel(qx, qy) == old(self).pixel(qx, qy) by {
                lemma_pixel_bytes(w as int, self.height as int, qx, qy);
                lemma_pixel_bytes_distinct(w as int, x as int, y as int, qx, qy, 0, 0);
                lemma_pixel_bytes_distinct(w as int, x as int, y as int, qx, qy, 0, 1);
                lemma_pixel_bytes_distinct(w as int, x as int, y as int, qx, qy, 0, 2);
                lemma_pixel_bytes_distinct(w as int, x as int, y as int, qx, qy, 0, 3);
                lemma_pixel_bytes_distinct(w as int, x as int, y as int, qx, qy, 1, 0);
                lemma_pixel_bytes_distinct(w as int, x as int, y as int, qx, qy, 1, 1);
                lemma_pixel_bytes_distinct(w as int, x as int, y as int, qx, qy, 1, 2);
                lemma_pixel_bytes_distinct(w as int, x as int, y as int, qx, qy, 1, 3);
                lemma_pixel_bytes_distinct(w as int, x as int, y as int, qx, qy, 2, 0);
                lemma_pixel_bytes_distinct(w as int, x as int, y as int, qx, qy, 2, 1);
                lemma_pixel_bytes_distinct(w as int, x as int, y as int, qx, qy, 2, 2);
                lemma_pixel_bytes_distinct(w as int, x as int, y as int, qx, qy, 2, 3);
                lemma_pixel_bytes_distinct(w as int, x as int, y as int, qx, qy, 3, 0);
                lemma_pixel_bytes_distinct(w as int, x as int, y as int, qx, qy, 3, 1);
                lemma_pixel_bytes_distinct(w as int, x as int, y as int, qx, qy, 3, 2);
                lemma_pixel_bytes_distinct(w as int, x as int, y as int, qx, qy, 3, 3);
            }
        }
    }

    /// Copies out the clamped rectangle at `(x, y)`: the origin is clamped
    /// into the image and the extent to what lies past it, so the result may
    /// be smaller than asked (even empty).
    pub fn crop(&self, x: u32, y: u32, width: u32, height: u32) -> (r: Raster)
        requires
            self.wf(),
        ensures
            r.wf(),
            ({
                let b = crop_bounds(self.width as int, self.height as int, x as int, y as int, width as int, height as int);
                &&& r.width == b.2
                &&& r.height == b.3
                &&& forall|i: int, j: int|
                    in_grid(b.2, b.3, i, j) ==> #[trigger] r.pixel(i, j) == self.pixel(b.0 + i, b.1 + j)
            }),
            x + width <= self.width ==> r.width == width,
            y + height <= self.height ==> r.height == height,
            r.width <= width,
            r.height <= height,
    {
        let iw = self.width;
        let ih = self.height;
        let cx: u32 = if x < iw { x } else { iw };
        let cy: u32 = if y < ih { y } else { ih };
        let cw: u32 = if width < iw - cx { width } else { iw - cx };
        let ch: u32 = if height < ih - cy { height } else { ih - cy };
        let total = self.pixels.len();
        let src = self.pixels.as_slice();
        let mut out: Vec<u8> = Vec::new();
        let mut row: u32 = 0;
        while row < ch
            invariant
                self.wf(),
                total == self.pixels@.len(),
                src@ == self.pixels@,
                iw == self.width,
                ih == self.height,
                cx <= iw,
                cy <= ih,
                cx + cw <= iw,
                cy + ch <= ih,
                row <= ch,
                out@.len() == 4 * cw * row,
                forall|i: int, j: int|
                    in_grid(cw as int, row as int, i, j) ==> #[trigger] pixel_at(out@, cw as int, i, j)
                        == self.pixel(cx + i, cy + j),
            decreases ch - row,
        {
            let ghost prev = out@;
            proof {
                assert(((cy + row) * iw + cx) * 4 + 4 * cw <= 4 * iw * ih) by (nonlinear_arith)
                    requires
                        cy + row < ih,
                        cx + cw <= iw,
                ;
                assert(0 <= (cy + row) * iw) by (nonlinear_arith);
            }
            let start: usize = 4 * ((cy + row) as usize * iw as usize + cx as usize);
            let end: usize = start + 4 * cw as usize;
            out.extend_from_slice(&src[start..end]);
            proof {
                assert(4 * cw * (row + 1) == 4 * cw * row + 4 * cw) by (nonlinear_arith);
                assert forall|i: int, j: int| in_grid(cw as int, row + 1, i, j) implies
                    #[trigger] pixel_at(out@, cw as int, i, j) == self.pixel(cx + i, cy + j) by {
                    assert(byte_index(cw as int, i, j, 3) < 4 * cw * (j + 1)) by (nonlinear_arith)
                        requires
                            0 <= i < cw,
                    ;
                    assert(0 <= byte_index(cw as int, i, j, 0)) by (nonlinear_arith)
                        requires
                            0 <= i,
                            0 <= j,
                            0 <= cw,
                    ;
                    if j < row {
                        assert(4 * cw * (j + 1) <= 4 * cw * row) by (nonlinear_arith)
                            requires
                                j < row,
                                0 <= cw,
                        ;
                        assert(pixel_at(prev, cw as int, i, j) == self.pixel(cx + i, cy + j));
                        assert(pixel_at(out@, cw as int, i, j) == pixel_at(prev, cw as int, i, j));
                    } else {
                        assert(byte_index(cw as int, i, j, 0) == prev.len() + 4 * i) by (nonlinear_arith)
                            requires
                                j == row,
                                prev.len() == 4 * cw * row,
                        ;
                        assert(byte_index(iw as int, cx + i, cy + j, 0) == start + 4 * i) by (nonlinear_arith)
                            requires
                                j == row,
                                start == 4 * ((cy + row) * iw + cx),
                        ;
                    }
                }
            }
            row = row + 1;
        }
        proof {
            assert(4 * cw * ch == 4 * (cw as int) * (ch as int));
        }
        Raster { width: cw, height: ch, pixels: out }
    }

    /// Composites `color` over every pixel whose mask cell is set. Mask cell
    /// `i` is pixel `(i % width, i / width)`; every set cell must lie inside
    /// the image.
    pub fn blend_mask(&mut self, mask: &[bool], color: Color)
        requires
            old(self).wf(),
            forall|i: int| 0 <= i < mask@.len() && #[trigger] mask@[i] ==> i < old(self).width * old(self).height,
        ensures
            final(self).wf(),
            final(self).width == old(self).width,
            final(self).height == old(self).height,
            forall|x: int, y: int|
                in_grid(old(self).width as int, old(self).height as int, x, y) ==> #[trigger] final(self).pixel(x, y)
                    == (if y * old(self).width + x < mask@.len() && cell(mask@, old(self).width as int, x, y) {
                    blend(old(self).pixel(x, y), color)
                } else {
                    old(self).pixel(x, y)
                }),
    {
        let w = self.width;
        let h = self.height;
        let ghost start = *self;
        let mut idx: usize = 0;
        while idx < mask.len()
            invariant
                self.wf(),
                self.width == w,
                self.height == h,
                start.width == w,
                start.height == h,
                start.wf(),
                idx <= mask@.len(),
                forall|i: int| 0 <= i < mask@.len() && #[trigger] mask@[i] ==> i < w * h,
                forall|x: int, y: int|
                    in_grid(w as int, h as int, x, y) ==> #[trigger] self.pixel(x, y) == (if y * w + x < idx
                        && cell(mask@, w as int, x, y) {
                        blend(start.pixel(x, y), color)
                    } else {
                        start.pixel(x, y)
                    }),
            decreases mask@.len() - idx,
        {
            if mask[idx] {
                let px = (idx % (w as usize)) as u32;
                let py = (idx / (w as usize)) as u32;
                proof {
                    assert(w > 0) by (nonlinear_arith)
                        requires
                            idx < w * h,
                    ;
                    vstd::arithmetic::div_mod::lemma_fundamental_div_mod(idx as int, w as int);
                    assert((idx as int / w as int) < h) by (nonlinear_arith)
                        requires
                            idx < w * h,
                            w > 0,
                            idx == w * (idx as int / w as int) + idx as int % w as int,
                            0 <= idx as int % w as int,
                    ;
                    assert(py * w + px == idx) by (nonlinear_arith)
                        requires
                            py == idx as int / w as int,
                            px == idx as int % w as int,
                            idx == w * (idx as int / w as int) + idx as int % w as int,
                    ;
                }
                let ghost before = *self;
                self.blend_pixel(px, py, color);
                proof {
                    assert forall|x: int, y: int| in_grid(w as int, h as int, x, y) implies
                        #[trigger] self.pixel(x, y) == (if y * w + x < idx + 1 && cell(mask@, w as int, x, y) {
                        blend(start.pixel(x, y), color)
                    } else {
                        start.pixel(x, y)
                    }) by {
                        assert(before.pixel(x, y) == (if y * w + x < idx && cell(mask@, w as int, x, y) {
                            blend(start.pixel(x, y), color)
                        } else {
                            start.pixel(x, y)
                        }));
                        if (x, y) != (px as int, py as int) {
                            if y * w + x == idx {
                                crate::mask::lemma_grid_index_injective(w as int, x, y, px as int, py as int);
                            }
                        }
                    }
                }
            } else {
                proof {
                    assert forall|x: int, y: int| in_grid(w as int, h as int, x, y) implies
                        #[trigger] self.pixel(x, y) == (if y * w + x < idx + 1 && cell(mask@, w as int, x, y) {
                        blend(start.pixel(x, y), color)
                    } else {
                        start.pixel(x, y)
                    }) by {
                    }
                }
            }
            idx = idx + 1;
        }
    }

    /// Source-over blend of `color` onto pixel `(x, y)` at full coverage.
    pub fn blend_pixel(&mut self, x: u32, y: u32, color: Color)
        requires
            old(self).wf(),
            x < old(self).width,
            y < old(self).height,
        ensures
            final(self).wf(),
            final(self).width == old(self).width,
            final(self).height == old(self).height,
            final(self).pixel(x as int, y as int) == blend(old(self).pixel(x as int, y as int), color),
            forall|qx: int, qy: int|
                in_grid(old(self).width as int, old(self).height as int, qx, qy) && (qx, qy) != (x as int, y as int)
                    ==> #[trigger] final(self).pixel(qx, qy) == old(self).pixel(qx, qy),
    {
        if color.a == 0 {
            return;
        }
        let dst = self.get_pixel(x, y);
        let out = Color {
            r: blend_byte(color.r, dst.r, color.a),
            g: blend_byte(color.g, dst.g, color.a),
            b: blend_byte(color.b, dst.b, color.a),
            a: 255,
        };
        self.put_pixel(x, y, out);
    }
}

} // verus!
