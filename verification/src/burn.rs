//! Burning stroke annotations into captured pixels. Each shape is rasterised
//! into a coverage mask first and composited in one pass, so overlapping
//! segments and joints are not blended twice (very visible with the
//! translucent marker).
use vstd::prelude::*;
use crate::mask::{between, brush_radius, cell, in_grid, lemma_straight_line_covers, line_path, mask_line, touched, line_fits};
use crate::raster::{blend, Color, Raster};

verus! {

/// A pixel position in the burned image.
#[derive(Debug, Clone, Copy, PartialEq, Eq, Structural)]
pub struct Point {
    pub x: i32,
    pub y: i32,
}

/// A straight stroke between two pixel positions.
#[derive(Debug, Clone, Copy, PartialEq, Eq, Structural)]
pub struct Segment {
    pub from: Point,
    pub to: Point,
}

/// A stroke annotation in image pixel coordinates.
#[derive(Debug, Clone)]
pub enum Shape {
    /// Rectangle outline from `min` to `max`; burns nothing unless `max`
    /// lies strictly right of and below `min`.
    Outline { min: Point, max: Point },
    /// Any set of straight segments (a line, an arrow with its head, a
    /// freehand path).
    Segments { segments: Vec<Segment> },
}

pub open spec fn segment_touches(s: Segment, px: int, py: int, r: int) -> bool {
    touched(line_path(s.from.x as int, s.from.y as int, s.to.x as int, s.to.y as int), px, py, r)
}

/// The four edges of an outline, clockwise from the top-left corner.
pub open spec fn outline_edges(min: Point, max: Point) -> Seq<Segment> {
    seq![
        Segment { from: Point { x: min.x, y: min.y }, to: Point { x: max.x, y: min.y } },
        Segment { from: Point { x: max.x, y: min.y }, to: Point { x: max.x, y: max.y } },
        Segment { from: Point { x: max.x, y: max.y }, to: Point { x: min.x, y: max.y } },
        Segment { from: Point { x: min.x, y: max.y }, to: Point { x: min.x, y: min.y } },
    ]
}

/// The segments a shape is drawn with.
pub open spec fn shape_segments(shape: Shape) -> Seq<Segment> {
    match shape {
        Shape::Outline { min, max } => if max.x <= min.x || max.y <= min.y {
            Seq::empty()
        } else {
            outline_edges(min, max)
        },
        Shape::Segments { segments } => segments@,
    }
}

/// Pixel `(px, py)` is painted when the brush of some segment reaches it.
pub open spec fn shape_covers(shape: Shape, px: int, py: int, r: int) -> bool {
    exists|k: int| 0 <= k < shape_segments(shape).len() && #[trigger] segment_touches(shape_segments(shape)[k], px, py, r)
}

/// The segment can be drawn with `thickness` within `i32` arithmetic.
pub open spec fn segment_in_range(s: Segment, thickness: int) -> bool {
    line_fits(s.from.x as int, s.from.y as int, s.to.x as int, s.to.y as int, thickness)
}

pub open spec fn shape_in_range(shape: Shape, thickness: int) -> bool {
    forall|k: int| 0 <= k < shape_segments(shape).len() ==> #[trigger] segment_in_range(shape_segments(shape)[k], thickness)
}

fn padded_fits_exec(v: i32, r: i64) -> (b: bool)
    requires
        0 <= r <= 0x4000_0000,
    ensures
        b == crate::mask::padded_fits(v as int, r as int),
{
    let w = v as i64;
    w - r >= i32::MIN as i64 && w + r <= i32::MAX as i64
}

/// Whether `s` can be drawn with `thickness` within `i32` arithmetic.
fn segment_fits(s: Segment, thickness: i32) -> (b: bool)
    ensures
        b == segment_in_range(s, thickness as int),
{
    let r: i64 = if thickness >= 2 { (thickness / 2) as i64 } else { 0 };
    let dx: i64 = if s.to.x >= s.from.x { s.to.x as i64 - s.from.x as i64 } else { s.from.x as i64 - s.to.x as i64 };
    let dy: i64 = if s.to.y >= s.from.y { s.to.y as i64 - s.from.y as i64 } else { s.from.y as i64 - s.to.y as i64 };
    dx + dy < crate::mask::SPAN_LIMIT as i64 && padded_fits_exec(s.from.x, r) && padded_fits_exec(s.from.y, r)
        && padded_fits_exec(s.to.x, r) && padded_fits_exec(s.to.y, r)
}

/// Whether `burn_shape` can draw `shape` with `thickness`: every segment's
/// extent and brush stay within `i32` arithmetic.
pub fn shape_fits(shape: &Shape, thickness: i32) -> (fits: bool)
    ensures
        fits == shape_in_range(*shape, thickness as int),
{
    let segments: Vec<Segment> = match shape {
        Shape::Outline { min, max } => {
            if max.x <= min.x || max.y <= min.y {
                Vec::new()
            } else {
                edges_of(*min, *max)
            }
        },
        Shape::Segments { segments } => segments.clone(),
    };
    proof {
        assert(segments@ =~= shape_segments(*shape));
    }
    let mut k: usize = 0;
    while k < segments.len()
        invariant
            k <= segments@.len(),
            segments@ == shape_segments(*shape),
            forall|q: int| 0 <= q < k ==> #[trigger] segment_in_range(segments@[q], thickness as int),
        decreases segments@.len() - k,
    {
        if !segment_fits(segments[k], thickness) {
            return false;
        }
        k = k + 1;
    }
    true
}

fn edges_of(min: Point, max: Point) -> (v: Vec<Segment>)
    ensures
        v@ == outline_edges(min, max),
{
    let mut v: Vec<Segment> = Vec::new();
    v.push(Segment { from: Point { x: min.x, y: min.y }, to: Point { x: max.x, y: min.y } });
    v.push(Segment { from: Point { x: max.x, y: min.y }, to: Point { x: max.x, y: max.y } });
    v.push(Segment { from: Point { x: max.x, y: max.y }, to: Point { x: min.x, y: max.y } });
    v.push(Segment { from: Point { x: min.x, y: max.y }, to: Point { x: min.x, y: min.y } });
    proof {
        assert(v@ =~= outline_edges(min, max));
    }
    v
}

/// Composites `color` over every pixel the shape's brush reaches, each at
/// most once; all other pixels keep their value.
pub fn burn_shape(img: &mut Raster, shape: &Shape, color: Color, thickness: i32)
    requires
        old(img).wf(),
        old(img).width <= i32::MAX,
        old(img).height <= i32::MAX,
        shape_in_range(*shape, thickness as int),
    ensures
        final(img).wf(),
        final(img).width == old(img).width,
        final(img).height == old(img).height,
        forall|x: int, y: int|
            in_grid(old(img).width as int, old(img).height as int, x, y) ==> #[trigger] final(img).pixel(x, y)
                == (if shape_covers(*shape, x, y, brush_radius(thickness as int)) {
                blend(old(img).pixel(x, y), color)
            } else {
                old(img).pixel(x, y)
            }),
{
    let w = img.width;
    let h = img.height;
    let _len = img.pixels.len();
    assert(w * h <= 4 * w * h) by (nonlinear_arith);
    let n: usize = (w as usize) * (h as usize);
    let segments: Vec<Segment> = match shape {
        Shape::Outline { min, max } => {
            if max.x <= min.x || max.y <= min.y {
                Vec::new()
            } else {
                edges_of(*min, *max)
            }
        },
        Shape::Segments { segments } => segments.clone(),
    };
    proof {
        assert(segments@ =~= shape_segments(*shape));
    }
    let ghost r = brush_radius(thickness as int);
    let mut mask: Vec<bool> = Vec::new();
    let mut i: usize = 0;
    while i < n
        invariant
            i <= n,
            mask@.len() == i,
            forall|k: int| 0 <= k < i ==> !mask@[k],
        decreases n - i,
    {
        mask.push(false);
        i = i + 1;
    }
    proof {
        assert forall|px: int, py: int| in_grid(w as int, h as int, px, py) implies
            #[trigger] cell(mask@, w as int, px, py)
                == exists|q: int| 0 <= q < 0 && #[trigger] segment_touches(segments@[q], px, py, r) by {
            crate::mask::lemma_grid_index(w as int, h as int, px, py);
        }
    }
    let mut k: usize = 0;
    while k < segments.len()
        invariant
            k <= segments@.len(),
            segments@ == shape_segments(*shape),
            shape_in_range(*shape, thickness as int),
            r == brush_radius(thickness as int),
            w <= i32::MAX,
            h <= i32::MAX,
            n == w * h,
            mask@.len() == n,
            forall|px: int, py: int|
                in_grid(w as int, h as int, px, py) ==> #[trigger] cell(mask@, w as int, px, py)
                    == exists|q: int| 0 <= q < k && #[trigger] segment_touches(segments@[q], px, py, r),
        decreases segments@.len() - k,
    {
        let s = segments[k];
        proof {
            assert(segment_in_range(shape_segments(*shape)[k as int], thickness as int));
        }
        let ghost before = mask@;
        mask_line(mask.as_mut_slice(), (w, h), (s.from.x, s.from.y), (s.to.x, s.to.y), thickness);
        proof {
            assert forall|px: int, py: int| in_grid(w as int, h as int, px, py) implies
                #[trigger] cell(mask@, w as int, px, py)
                    == exists|q: int| 0 <= q < k + 1 && #[trigger] segment_touches(segments@[q], px, py, r) by {
                assert(cell(before, w as int, px, py) == exists|q: int| 0 <= q < k && #[trigger] segment_touches(segments@[q], px, py, r));
                if segment_touches(segments@[k as int], px, py, r) {
                    assert(0 <= k < k + 1);
                }
            }
        }
        k = k + 1;
    }
    proof {
        assert forall|q: int| 0 <= q < mask@.len() && #[trigger] mask@[q] implies q < w * h by {}
    }
    let ghost before = *img;
    img.blend_mask(mask.as_slice(), color);
    proof {
        assert forall|x: int, y: int| in_grid(w as int, h as int, x, y) implies #[trigger] img.pixel(x, y)
            == (if shape_covers(*shape, x, y, r) {
            blend(before.pixel(x, y), color)
        } else {
            before.pixel(x, y)
        }) by {
            crate::mask::lemma_grid_index(w as int, h as int, x, y);
            assert(cell(mask@, w as int, x, y) == exists|q: int| 0 <= q < segments@.len() && #[trigger] segment_touches(segments@[q], x, y, r));
        }
    }
}

/// A rectangle outline burns all four of its sides: every pixel on the top,
/// bottom, left and right edges (corners included) is reached by the brush,
/// whatever its radius.
pub proof fn lemma_outline_covers_its_sides(min: Point, max: Point, px: int, py: int, r: int)
    requires
        min.x < max.x,
        min.y < max.y,
        r >= 0,
        ((px == min.x || px == max.x) && min.y <= py <= max.y) || ((py == min.y || py == max.y) && min.x <= px
            <= max.x),
    ensures
        shape_covers(Shape::Outline { min, max }, px, py, r),
{
    let shape = Shape::Outline { min, max };
    let e = shape_segments(shape);
    assert(e == outline_edges(min, max));
    let k: int = if py == min.y && min.x <= px <= max.x {
        0
    } else if px == max.x {
        1
    } else if py == max.y {
        2
    } else {
        3
    };
    let s = e[k];
    assert(between(px, s.from.x as int, s.to.x as int) && between(py, s.from.y as int, s.to.y as int));
    lemma_straight_line_covers(s.from.x as int, s.from.y as int, s.to.x as int, s.to.y as int, px, py, r);
    assert(segment_touches(e[k], px, py, r));
}

} // verus!
