//! Coverage masks: thick Bresenham lines marked into a `w` x `h` grid of
//! booleans, which the burner then composites in a single pass.
use vstd::prelude::*;

verus! {

/// Bound on a line's horizontal plus vertical extent: below it Bresenham's
/// error term, doubled, stays within `i32`.
pub const SPAN_LIMIT: i32 = 0x2000_0000;

/// Largest brush radius: half the largest `i32` thickness.
const RADIUS_LIMIT: i32 = 0x3FFF_FFFF;

/// Cell `(px, py)` of a row-major mask `w` cells wide.
pub open spec fn cell(m: Seq<bool>, w: int, px: int, py: int) -> bool {
    m[py * w + px]
}

pub open spec fn in_grid(w: int, h: int, px: int, py: int) -> bool {
    0 <= px < w && 0 <= py < h
}

/// Half-width of the square brush a stroke of `thickness` pixels is drawn with.
pub open spec fn brush_radius(thickness: int) -> int {
    if thickness >= 2 { thickness / 2 } else { 0 }
}

/// `v` with `r` added or taken away stays within `i32`.
pub open spec fn padded_fits(v: int, r: int) -> bool {
    i32::MIN <= v - r && v + r <= i32::MAX
}

/// A line from `(x0, y0)` to `(x1, y1)` drawn with `thickness` stays within
/// `i32` arithmetic: its extent is below `SPAN_LIMIT` and the brush around
/// either end stays within `i32` (the points between lie between the ends).
pub open spec fn line_fits(x0: int, y0: int, x1: int, y1: int, thickness: int) -> bool {
    let r = brush_radius(thickness);
    &&& abs(x1 - x0) + abs(y1 - y0) < SPAN_LIMIT
    &&& padded_fits(x0, r)
    &&& padded_fits(y0, r)
    &&& padded_fits(x1, r)
    &&& padded_fits(y1, r)
}

/// `(px, py)` lies within the square brush of radius `r` centred on `c`.
pub open spec fn near(c: (int, int), px: int, py: int, r: int) -> bool {
    c.0 - r <= px <= c.0 + r && c.1 - r <= py <= c.1 + r
}

/// Some point of `path` brushes `(px, py)`.
pub open spec fn touched(path: Seq<(int, int)>, px: int, py: int, r: int) -> bool {
    exists|k: int| 0 <= k < path.len() && near(#[trigger] path[k], px, py, r)
}

pub open spec fn abs(v: int) -> int {
    if v >= 0 { v } else { -v }
}

/// One iteration of Bresenham's all-octant walk: `(x, y, err)` moves one
/// step towards the target along x, y or both.
pub open spec fn walk_step(x: int, y: int, err: int, dx: int, dy: int, sx: int, sy: int) -> (int, int, int) {
    let e2 = 2 * err;
    let x2 = if e2 >= dy { x + sx } else { x };
    let err2 = if e2 >= dy { err + dy } else { err };
    let y2 = if e2 <= dx { y + sy } else { y };
    let err3 = if e2 <= dx { err2 + dx } else { err2 };
    (x2, y2, err3)
}

/// The points the walk visits from `(x, y)` until it reaches `(x1, y1)`
/// (or runs out of `fuel`, which a proper start never does).
pub open spec fn walk(
    x: int,
    y: int,
    err: int,
    x1: int,
    y1: int,
    dx: int,
    dy: int,
    sx: int,
    sy: int,
    fuel: nat,
) -> Seq<(int, int)>
    decreases fuel,
{
    if fuel == 0 || (x == x1 && y == y1) {
        seq![(x, y)]
    } else {
        let n = walk_step(x, y, err, dx, dy, sx, sy);
        seq![(x, y)] + walk(n.0, n.1, n.2, x1, y1, dx, dy, sx, sy, (fuel - 1) as nat)
    }
}

/// The pixels of Bresenham's line from `(x0, y0)` to `(x1, y1)`, in order.
pub open spec fn line_path(x0: int, y0: int, x1: int, y1: int) -> Seq<(int, int)> {
    let dx = abs(x1 - x0);
    let dy = -abs(y1 - y0);
    let sx = if x0 < x1 { 1int } else { -1int };
    let sy = if y0 < y1 { 1int } else { -1int };
    walk(x0, y0, dx + dy, x1, y1, dx, dy, sx, sy, (dx - dy) as nat)
}

pub proof fn lemma_grid_index(w: int, h: int, px: int, py: int)
    requires
        in_grid(w, h, px, py),
    ensures
        0 <= py * w + px < w * h,
        0 <= py * w <= py * w + px,
{
    assert(0 <= py * w) by (nonlinear_arith)
        requires
            0 <= py,
            0 <= w,
    ;
    assert(py * w + px < w * h) by (nonlinear_arith)
        requires
            0 <= px < w,
            0 <= py < h,
    ;
}

pub proof fn lemma_grid_index_injective(w: int, px: int, py: int, qx: int, qy: int)
    requires
        0 <= px < w,
        0 <= qx < w,
        0 <= py,
        0 <= qy,
        py * w + px == qy * w + qx,
    ensures
        px == qx,
        py == qy,
{
    if py < qy {
        assert(py * w + w <= qy * w) by (nonlinear_arith)
            requires
                py < qy,
                0 <= w,
        ;
    } else if qy < py {
        assert(qy * w + w <= py * w) by (nonlinear_arith)
            requires
                qy < py,
                0 <= w,
        ;
    }
}

proof fn lemma_touched_push(path: Seq<(int, int)>, c: (int, int), px: int, py: int, r: int)
    ensures
        touched(path.push(c), px, py, r) == (touched(path, px, py, r) || near(c, px, py, r)),
{
    let p2 = path.push(c);
    if touched(path, px, py, r) {
        let k = choose|k: int| 0 <= k < path.len() && near(#[trigger] path[k], px, py, r);
        assert(p2[k] == path[k]);
    }
    if near(c, px, py, r) {
        assert(p2[path.len() as int] == c);
    }
    if touched(p2, px, py, r) {
        let k = choose|k: int| 0 <= k < p2.len() && near(#[trigger] p2[k], px, py, r);
        if k < path.len() {
            assert(path[k] == p2[k]);
        }
    }
}

/// Marks every in-grid cell within the square brush of radius `r` around
/// `(cx, cy)`.
fn stamp(mask: &mut [bool], w: u32, h: u32, cx: i32, cy: i32, r: i32)
    requires
        old(mask)@.len() >= w * h,
        w <= i32::MAX,
        h <= i32::MAX,
        0 <= r <= RADIUS_LIMIT,
        padded_fits(cx as int, r as int),
        padded_fits(cy as int, r as int),
    ensures
        final(mask)@.len() == old(mask)@.len(),
        forall|px: int, py: int|
            in_grid(w as int, h as int, px, py) ==> #[trigger] cell(final(mask)@, w as int, px, py)
                == (cell(old(mask)@, w as int, px, py) || near((cx as int, cy as int), px, py, r as int)),
        forall|i: int| w * h <= i < old(mask)@.len() ==> final(mask)@[i] == old(mask)@[i],
{
    let ghost start = mask@;
    let n: usize = mask.len();
    let mut oy: i32 = -r;
    while oy <= r
        invariant
            0 <= r <= RADIUS_LIMIT,
            padded_fits(cx as int, r as int),
            padded_fits(cy as int, r as int),
            -r <= oy <= r + 1,
            w <= i32::MAX,
            h <= i32::MAX,
            mask@.len() == start.len(),
            start.len() == n,
            start.len() >= w * h,
            forall|px: int, py: int|
                in_grid(w as int, h as int, px, py) ==> #[trigger] cell(mask@, w as int, px, py)
                    == (cell(start, w as int, px, py) || (cx - r <= px <= cx + r && cy - r <= py < cy + oy)),
            forall|i: int| w * h <= i < start.len() ==> mask@[i] == start[i],
        decreases r + 1 - oy,
    {
        let ghost row_start = mask@;
        let mut ox: i32 = -r;
        while ox <= r
            invariant
                0 <= r <= RADIUS_LIMIT,
                padded_fits(cx as int, r as int),
                padded_fits(cy as int, r as int),
                -r <= oy <= r,
                -r <= ox <= r + 1,
                w <= i32::MAX,
                h <= i32::MAX,
                mask@.len() == start.len(),
                start.len() == n,
                start.len() >= w * h,
                forall|px: int, py: int|
                    in_grid(w as int, h as int, px, py) ==> #[trigger] cell(mask@, w as int, px, py)
                        == (cell(row_start, w as int, px, py) || (py == cy + oy && cx - r <= px < cx + ox)),
                forall|i: int| w * h <= i < start.len() ==> mask@[i] == row_start[i],
                forall|i: int| w * h <= i < start.len() ==> row_start[i] == start[i],
            decreases r + 1 - ox,
        {
            let px = cx + ox;
            let py = cy + oy;
            if px >= 0 && px < w as i32 && py >= 0 && py < h as i32 {
                proof {
                    lemma_grid_index(w as int, h as int, px as int, py as int);
                }
                let idx = py as usize * w as usize + px as usize;
                let ghost before = mask@;
                mask[idx] = true;
                proof {
                    assert(mask@ == before.update(idx as int, true));
                    assert forall|qx: int, qy: int| in_grid(w as int, h as int, qx, qy) implies
                        #[trigger] cell(mask@, w as int, qx, qy) == (cell(row_start, w as int, qx, qy) || (qy == cy + oy && cx - r <= qx < cx + ox + 1)) by {
                        lemma_grid_index(w as int, h as int, qx, qy);
                        assert(cell(before, w as int, qx, qy) == (cell(row_start, w as int, qx, qy) || (qy == cy + oy && cx - r <= qx < cx + ox)));
                        if qy * w + qx == idx {
                            lemma_grid_index_injective(w as int, qx, qy, px as int, py as int);
                        }
                    }
                }
            } else {
                proof {
                    assert forall|qx: int, qy: int| in_grid(w as int, h as int, qx, qy) implies
                        #[trigger] cell(mask@, w as int, qx, qy) == (cell(row_start, w as int, qx, qy) || (qy == cy + oy && cx - r <= qx < cx + ox + 1)) by {
                    }
                }
            }
            ox = ox + 1;
        }
        oy = oy + 1;
    }
}

/// Marks a thick Bresenham line into a `w` x `h` coverage mask: every
/// in-grid cell within the square brush of radius `brush_radius(thickness)`
/// around some point of `line_path(p0, p1)` becomes `true`; nothing else
/// changes.
pub fn mask_line(mask: &mut [bool], size: (u32, u32), p0: (i32, i32), p1: (i32, i32), thickness: i32)
    requires
        old(mask)@.len() >= size.0 * size.1,
        size.0 <= i32::MAX,
        size.1 <= i32::MAX,
        line_fits(p0.0 as int, p0.1 as int, p1.0 as int, p1.1 as int, thickness as int),
    ensures
        final(mask)@.len() == old(mask)@.len(),
        forall|px: int, py: int|
            in_grid(size.0 as int, size.1 as int, px, py) ==> #[trigger] cell(final(mask)@, size.0 as int, px, py)
                == (cell(old(mask)@, size.0 as int, px, py) || touched(
                line_path(p0.0 as int, p0.1 as int, p1.0 as int, p1.1 as int),
                px,
                py,
                brush_radius(thickness as int),
            )),
        forall|i: int| size.0 * size.1 <= i < old(mask)@.len() ==> final(mask)@[i] == old(mask)@[i],
{
    let (w, h) = size;
    let (x0, y0) = p0;
    let (x1, y1) = p1;
    let dx: i32 = if x1 >= x0 { x1 - x0 } else { x0 - x1 };
    let dy: i32 = if y1 >= y0 { -(y1 - y0) } else { -(y0 - y1) };
    let step_x: i32 = if x0 < x1 { 1 } else { -1 };
    let step_y: i32 = if y0 < y1 { 1 } else { -1 };
    let mut err: i32 = dx + dy;
    let mut curr_x: i32 = x0;
    let mut curr_y: i32 = y0;
    let radius: i32 = if thickness >= 2 { thickness / 2 } else { 0 };

    let ghost a: int = dx as int;
    let ghost b: int = -(dy as int);
    let ghost start = mask@;
    let ghost r = brush_radius(thickness as int);
    let ghost full = line_path(x0 as int, y0 as int, x1 as int, y1 as int);
    let ghost mut i: int = 0;
    let ghost mut j: int = 0;
    let ghost mut ib: int = 0;
    let ghost mut ja: int = 0;
    let ghost mut visited: Seq<(int, int)> = Seq::empty();

    proof {
        assert(radius == r);
        assert(visited + walk(x0 as int, y0 as int, err as int, x1 as int, y1 as int, dx as int, dy as int,
            step_x as int, step_y as int, (a + b - 0) as nat) =~= full);
    }

    loop
        invariant_except_break
            visited.len() <= i + j,
            full == visited + walk(curr_x as int, curr_y as int, err as int, x1 as int, y1 as int, dx as int,
                dy as int, step_x as int, step_y as int, (a + b - visited.len()) as nat),
        invariant
            w == size.0,
            h == size.1,
            w <= i32::MAX,
            h <= i32::MAX,
            line_fits(x0 as int, y0 as int, x1 as int, y1 as int, thickness as int),
            radius == r,
            r == brush_radius(thickness as int),
            0 <= radius <= RADIUS_LIMIT,
            a == dx,
            b == -dy,
            a == abs(x1 - x0),
            b == abs(y1 - y0),
            step_x == (if x0 < x1 { 1int } else { -1int }),
            step_y == (if y0 < y1 { 1int } else { -1int }),
            full == line_path(x0 as int, y0 as int, x1 as int, y1 as int),
            0 <= i <= a,
            0 <= j <= b,
            curr_x == (if x0 < x1 { x0 + i } else { x0 - i }),
            curr_y == (if y0 < y1 { y0 + j } else { y0 - j }),
            ib == i * b,
            ja == j * a,
            err == a - b - ib + ja,
            -(a + b) <= 2 * (ja - ib) <= a + b,
            mask@.len() == start.len(),
            start.len() >= w * h,
            forall|px: int, py: int|
                in_grid(w as int, h as int, px, py) ==> #[trigger] cell(mask@, w as int, px, py)
                    == (cell(start, w as int, px, py) || touched(visited, px, py, r)),
            forall|k: int| w * h <= k < start.len() ==> mask@[k] == start[k],
        ensures
            mask@.len() == start.len(),
            forall|px: int, py: int|
                in_grid(w as int, h as int, px, py) ==> #[trigger] cell(mask@, w as int, px, py)
                    == (cell(start, w as int, px, py) || touched(full, px, py, r)),
            forall|k: int| w * h <= k < start.len() ==> mask@[k] == start[k],
        decreases (a - i) + (b - j),
    {
        let ghost before = mask@;
        stamp(mask, w, h, curr_x, curr_y, radius);
        let ghost fuel: nat = (a + b - visited.len()) as nat;
        proof {
            let c = (curr_x as int, curr_y as int);
            assert forall|px: int, py: int| in_grid(w as int, h as int, px, py) implies
                #[trigger] cell(mask@, w as int, px, py) == (cell(start, w as int, px, py) || touched(visited.push(c), px, py, r)) by {
                lemma_touched_push(visited, c, px, py, r);
            }
            visited = visited.push(c);
        }
        if curr_x == x1 && curr_y == y1 {
            proof {
                assert(full =~= visited);
            }
            break;
        }
        proof {
            if i == a && j < b {
                assert(j * a <= b * a - a) by (nonlinear_arith)
                    requires
                        0 <= j < b,
                        0 <= a,
                ;
            }
            if j == b && i < a {
                assert(i * b <= a * b - b) by (nonlinear_arith)
                    requires
                        0 <= i < a,
                        0 <= b,
                ;
            }
            assert(a * b == b * a) by (nonlinear_arith);
        }
        let e2 = 2 * err;
        if e2 >= dy {
            err = err + dy;
            curr_x = curr_x + step_x;
            proof {
                assert((i + 1) * b == i * b + b) by (nonlinear_arith);
                i = i + 1;
                ib = ib + b;
            }
        }
        if e2 <= dx {
            err = err + dx;
            curr_y = curr_y + step_y;
            proof {
                assert((j + 1) * a == j * a + a) by (nonlinear_arith);
                j = j + 1;
                ja = ja + a;
            }
        }
        proof {
            let prev = visited.drop_last();
            assert(fuel > 0);
            assert(prev + walk(visited.last().0, visited.last().1, (e2 / 2) as int, x1 as int, y1 as int,
                dx as int, dy as int, step_x as int, step_y as int, fuel) =~= full);
            assert(visited =~= prev.push(visited.last()));
            assert(full =~= visited + walk(curr_x as int, curr_y as int, err as int, x1 as int, y1 as int,
                dx as int, dy as int, step_x as int, step_y as int, (a + b - visited.len()) as nat));
        }
    }
}


/// Consecutive points of `path` are equal or neighbours (including
/// diagonally): the line never skips a pixel.
pub open spec fn connected(path: Seq<(int, int)>) -> bool {
    forall|k: int|
        0 <= k < path.len() - 1 ==> abs(#[trigger] path[k + 1].0 - path[k].0) <= 1 && abs(path[k + 1].1 - path[k].1)
            <= 1
}

#[verifier::spinoff_prover]
#[verifier::rlimit(40)]
proof fn lemma_walk_reaches_target(
    x0: int,
    y0: int,
    x1: int,
    y1: int,
    i: int,
    j: int,
    err: int,
    fuel: nat,
)
    requires
        ({
            let a = abs(x1 - x0);
            let b = abs(y1 - y0);
            &&& 0 <= i <= a
            &&& 0 <= j <= b
            &&& err == a - b - i * b + j * a
            &&& fuel >= (a - i) + (b - j)
        }),
    ensures
        ({
            let a = abs(x1 - x0);
            let b = abs(y1 - y0);
            let sx = if x0 < x1 { 1int } else { -1int };
            let sy = if y0 < y1 { 1int } else { -1int };
            let x = if x0 < x1 { x0 + i } else { x0 - i };
            let y = if y0 < y1 { y0 + j } else { y0 - j };
            let p = walk(x, y, err, x1, y1, a, -b, sx, sy, fuel);
            &&& p.len() >= 1
            &&& p[0] == (x, y)
            &&& p.last() == (x1, y1)
            &&& connected(p)
            &&& p.len() <= (a - i) + (b - j) + 1
        }),
    decreases fuel,
{
    let a = abs(x1 - x0);
    let b = abs(y1 - y0);
    let sx = if x0 < x1 { 1int } else { -1int };
    let sy = if y0 < y1 { 1int } else { -1int };
    let x = if x0 < x1 { x0 + i } else { x0 - i };
    let y = if y0 < y1 { y0 + j } else { y0 - j };
    if x == x1 && y == y1 {
        return;
    }
    assert(i < a || j < b);
    assert(fuel > 0);
    if i == a && j < b {
        assert(j * a <= b * a - a) by (nonlinear_arith)
            requires
                0 <= j < b,
                0 <= a,
        ;
        assert(i * b == a * b);
        assert(a * b == b * a) by (nonlinear_arith);
    }
    if j == b && i < a {
        assert(i * b <= a * b - b) by (nonlinear_arith)
            requires
                0 <= i < a,
                0 <= b,
        ;
        assert(j * a == b * a);
        assert(a * b == b * a) by (nonlinear_arith);
    }
    let e2 = 2 * err;
    let xs = e2 >= -b;
    let ys = e2 <= a;
    let i2 = if xs { i + 1 } else { i };
    let j2 = if ys { j + 1 } else { j };
    let err2 = err + (if xs { -b } else { 0 }) + (if ys { a } else { 0 });
    assert((i + 1) * b == i * b + b) by (nonlinear_arith);
    assert((j + 1) * a == j * a + a) by (nonlinear_arith);
    assert(err2 == a - b - i2 * b + j2 * a);
    let n = walk_step(x, y, err, a, -b, sx, sy);
    assert(n == (if x0 < x1 { x0 + i2 } else { x0 - i2 }, if y0 < y1 { y0 + j2 } else { y0 - j2 }, err2));
    lemma_walk_reaches_target(x0, y0, x1, y1, i2, j2, err2, (fuel - 1) as nat);
    let rest = walk(n.0, n.1, n.2, x1, y1, a, -b, sx, sy, (fuel - 1) as nat);
    let p = walk(x, y, err, x1, y1, a, -b, sx, sy, fuel);
    assert(p == seq![(x, y)] + rest);
    assert forall|k: int| 0 <= k < p.len() - 1 implies abs(#[trigger] p[k + 1].0 - p[k].0) <= 1 && abs(p[k + 1].1
        - p[k].1) <= 1 by {
        if k > 0 {
            assert(p[k] == rest[k - 1]);
            assert(p[k + 1] == rest[k]);
            assert(rest[(k - 1) + 1] == rest[k]);
        } else {
            assert(p[1] == rest[0]);
        }
    }
}

/// The walk takes one step per pixel along the longer axis: from a state
/// where the longer axis still has at least as far to go as the shorter one
/// and the error term keeps the longer axis moving, it visits exactly one
/// point per remaining unit of the longer axis, plus its start.
#[verifier::spinoff_prover]
#[verifier::rlimit(40)]
proof fn lemma_walk_length(
    x0: int,
    y0: int,
    x1: int,
    y1: int,
    i: int,
    j: int,
    err: int,
    fuel: nat,
)
    requires
        ({
            let a = abs(x1 - x0);
            let b = abs(y1 - y0);
            &&& 0 <= i <= a
            &&& 0 <= j <= b
            &&& err == a - b - i * b + j * a
            &&& fuel >= (a - i) + (b - j)
            &&& (a >= b ==> 2 * err >= -b && a - i >= b - j)
            &&& (a < b ==> 2 * err <= a && b - j >= a - i)
        }),
    ensures
        ({
            let a = abs(x1 - x0);
            let b = abs(y1 - y0);
            let sx = if x0 < x1 { 1int } else { -1int };
            let sy = if y0 < y1 { 1int } else { -1int };
            let x = if x0 < x1 { x0 + i } else { x0 - i };
            let y = if y0 < y1 { y0 + j } else { y0 - j };
            walk(x, y, err, x1, y1, a, -b, sx, sy, fuel).len() == (if a >= b { a - i } else { b - j }) + 1
        }),
    decreases fuel,
{
    let a = abs(x1 - x0);
    let b = abs(y1 - y0);
    let sx = if x0 < x1 { 1int } else { -1int };
    let sy = if y0 < y1 { 1int } else { -1int };
    let x = if x0 < x1 { x0 + i } else { x0 - i };
    let y = if y0 < y1 { y0 + j } else { y0 - j };
    if x == x1 && y == y1 {
        return;
    }
    assert(i < a || j < b);
    if a - i == b - j {
        let k = a - i;
        assert(err == (a - b) * (1 - k)) by (nonlinear_arith)
            requires
                err == a - b - i * b + j * a,
                i == a - k,
                j == b - k,
        ;
        if a >= b {
            assert((a - b) * (1 - k) <= 0) by (nonlinear_arith)
                requires
                    a >= b,
                    k >= 1,
            ;
        } else {
            assert((a - b) * (1 - k) >= 0) by (nonlinear_arith)
                requires
                    a < b,
                    k >= 1,
            ;
        }
    }
    if i == a && j < b {
        assert(j * a <= b * a - a) by (nonlinear_arith)
            requires
                0 <= j < b,
                0 <= a,
        ;
        assert(i * b == a * b);
        assert(a * b == b * a) by (nonlinear_arith);
    }
    if j == b && i < a {
        assert(i * b <= a * b - b) by (nonlinear_arith)
            requires
                0 <= i < a,
                0 <= b,
        ;
        assert(j * a == b * a);
        assert(a * b == b * a) by (nonlinear_arith);
    }
    let e2 = 2 * err;
    let xs = e2 >= -b;
    let ys = e2 <= a;
    let i2 = if xs { i + 1 } else { i };
    let j2 = if ys { j + 1 } else { j };
    let err2 = err + (if xs { -b } else { 0 }) + (if ys { a } else { 0 });
    assert((i + 1) * b == i * b + b) by (nonlinear_arith);
    assert((j + 1) * a == j * a + a) by (nonlinear_arith);
    assert(err2 == a - b - i2 * b + j2 * a);
    let n = walk_step(x, y, err, a, -b, sx, sy);
    assert(n == (if x0 < x1 { x0 + i2 } else { x0 - i2 }, if y0 < y1 { y0 + j2 } else { y0 - j2 }, err2));
    lemma_walk_length(x0, y0, x1, y1, i2, j2, err2, (fuel - 1) as nat);
}

/// A stroke's pixel path starts at its first endpoint, ends at its second
/// and never skips a pixel; it has exactly one pixel per unit along the
/// longer axis, plus one (so at most one per unit of Manhattan distance, plus
/// one). So both endpoints of every segment are painted.
pub proof fn lemma_line_path_shape(x0: int, y0: int, x1: int, y1: int)
    ensures
        ({
            let p = line_path(x0, y0, x1, y1);
            &&& p.len() >= 1
            &&& p[0] == (x0, y0)
            &&& p.last() == (x1, y1)
            &&& connected(p)
            &&& p.len() <= abs(x1 - x0) + abs(y1 - y0) + 1
            &&& p.len() == (if abs(x1 - x0) >= abs(y1 - y0) { abs(x1 - x0) } else { abs(y1 - y0) }) + 1
        }),
{
    let a = abs(x1 - x0);
    let b = abs(y1 - y0);
    assert(0int * b == 0 && 0int * a == 0);
    lemma_walk_reaches_target(x0, y0, x1, y1, 0, 0, a - b, (a + b) as nat);
    lemma_walk_length(x0, y0, x1, y1, 0, 0, a - b, (a + b) as nat);
}

/// `v` lies between `p` and `q`, whichever is larger.
pub open spec fn between(v: int, p: int, q: int) -> bool {
    (p <= v <= q) || (q <= v <= p)
}

/// Every point the walk visits lies in the box spanned by the line's ends.
#[verifier::spinoff_prover]
#[verifier::rlimit(40)]
proof fn lemma_walk_in_box(
    x0: int,
    y0: int,
    x1: int,
    y1: int,
    i: int,
    j: int,
    x: int,
    y: int,
    sx: int,
    sy: int,
    err: int,
    fuel: nat,
)
    requires
        ({
            let a = abs(x1 - x0);
            let b = abs(y1 - y0);
            &&& 0 <= i <= a
            &&& 0 <= j <= b
            &&& x == (if x0 < x1 { x0 + i } else { x0 - i })
            &&& y == (if y0 < y1 { y0 + j } else { y0 - j })
            &&& err == a - b - i * b + j * a
            &&& sx == (if x0 < x1 { 1int } else { -1int })
            &&& sy == (if y0 < y1 { 1int } else { -1int })
        }),
    ensures
        ({
            let a = abs(x1 - x0);
            let b = abs(y1 - y0);
            let p = walk(x, y, err, x1, y1, a, -b, sx, sy, fuel);
            forall|k: int| 0 <= k < p.len() ==> between(#[trigger] p[k].0, x0, x1) && between(p[k].1, y0, y1)
        }),
    decreases fuel,
{
    let a = abs(x1 - x0);
    let b = abs(y1 - y0);
    let p = walk(x, y, err, x1, y1, a, -b, sx, sy, fuel);
    if fuel == 0 || (x == x1 && y == y1) {
        assert(p == seq![(x, y)]);
        return;
    }
    if i == a && j < b {
        assert(j * a <= b * a - a) by (nonlinear_arith)
            requires
                0 <= j < b,
                0 <= a,
        ;
        assert(i * b == a * b);
        assert(a * b == b * a) by (nonlinear_arith);
    }
    if j == b && i < a {
        assert(i * b <= a * b - b) by (nonlinear_arith)
            requires
                0 <= i < a,
                0 <= b,
        ;
        assert(j * a == b * a);
        assert(a * b == b * a) by (nonlinear_arith);
    }
    let e2 = 2 * err;
    let xs = e2 >= -b;
    let ys = e2 <= a;
    let i2 = if xs { i + 1 } else { i };
    let j2 = if ys { j + 1 } else { j };
    let err2 = err + (if xs { -b } else { 0 }) + (if ys { a } else { 0 });
    assert((i + 1) * b == i * b + b) by (nonlinear_arith);
    assert((j + 1) * a == j * a + a) by (nonlinear_arith);
    assert(err2 == a - b - i2 * b + j2 * a);
    let n = walk_step(x, y, err, a, -b, sx, sy);
    assert(n == (if x0 < x1 { x0 + i2 } else { x0 - i2 }, if y0 < y1 { y0 + j2 } else { y0 - j2 }, err2));
    lemma_walk_in_box(x0, y0, x1, y1, i2, j2, n.0, n.1, sx, sy, err2, (fuel - 1) as nat);
    let rest = walk(n.0, n.1, err2, x1, y1, a, -b, sx, sy, (fuel - 1) as nat);
    assert(p == seq![(x, y)] + rest);
    assert forall|k: int| 0 <= k < p.len() implies between(#[trigger] p[k].0, x0, x1) && between(p[k].1, y0, y1) by {
        if k > 0 {
            assert(p[k] == rest[k - 1]);
            assert(between(rest[k - 1].0, x0, x1) && between(rest[k - 1].1, y0, y1));
        } else {
            assert(p[0] == (x, y));
        }
    }
}

/// A path whose second coordinate moves by at most one per point passes
/// through every row between its first and its last point.
proof fn lemma_path_hits_every_row(p: Seq<(int, int)>, y: int)
    requires
        p.len() >= 1,
        connected(p),
        between(y, p[0].1, p.last().1),
    ensures
        exists|k: int| 0 <= k < p.len() && #[trigger] p[k].1 == y,
    decreases p.len(),
{
    if p[0].1 == y {
        assert(p[0].1 == y);
        return;
    }
    let q = p.drop_first();
    assert(p.len() >= 2);
    let z: int = 0;
    assert(abs(p[z + 1].0 - p[z].0) <= 1 && abs(p[z + 1].1 - p[z].1) <= 1);
    assert forall|k: int| 0 <= k < q.len() - 1 implies abs(#[trigger] q[k + 1].0 - q[k].0) <= 1 && abs(q[k + 1].1
        - q[k].1) <= 1 by {
        assert(q[k] == p[k + 1]);
        assert(q[k + 1] == p[(k + 1) + 1]);
    }
    assert(q[0] == p[1]);
    assert(q.last() == p.last());
    lemma_path_hits_every_row(q, y);
    let k = choose|k: int| 0 <= k < q.len() && #[trigger] q[k].1 == y;
    assert(p[k + 1] == q[k]);
}

/// The same, for columns.
proof fn lemma_path_hits_every_column(p: Seq<(int, int)>, x: int)
    requires
        p.len() >= 1,
        connected(p),
        between(x, p[0].0, p.last().0),
    ensures
        exists|k: int| 0 <= k < p.len() && #[trigger] p[k].0 == x,
    decreases p.len(),
{
    if p[0].0 == x {
        assert(p[0].0 == x);
        return;
    }
    let q = p.drop_first();
    assert(p.len() >= 2);
    let z: int = 0;
    assert(abs(p[z + 1].0 - p[z].0) <= 1 && abs(p[z + 1].1 - p[z].1) <= 1);
    assert forall|k: int| 0 <= k < q.len() - 1 implies abs(#[trigger] q[k + 1].0 - q[k].0) <= 1 && abs(q[k + 1].1
        - q[k].1) <= 1 by {
        assert(q[k] == p[k + 1]);
        assert(q[k + 1] == p[(k + 1) + 1]);
    }
    assert(q[0] == p[1]);
    assert(q.last() == p.last());
    lemma_path_hits_every_column(q, x);
    let k = choose|k: int| 0 <= k < q.len() && #[trigger] q[k].0 == x;
    assert(p[k + 1] == q[k]);
}

/// Every point of a line lies in the box its ends span.
pub proof fn lemma_line_path_in_box(x0: int, y0: int, x1: int, y1: int)
    ensures
        forall|k: int| 0 <= k < line_path(x0, y0, x1, y1).len() ==>
            between(#[trigger] line_path(x0, y0, x1, y1)[k].0, x0, x1) && between(line_path(x0, y0, x1, y1)[k].1, y0, y1),
{
    let a = abs(x1 - x0);
    let b = abs(y1 - y0);
    let sx = if x0 < x1 { 1int } else { -1int };
    let sy = if y0 < y1 { 1int } else { -1int };
    assert(0int * b == 0 && 0int * a == 0);
    lemma_walk_in_box(x0, y0, x1, y1, 0, 0, x0, y0, sx, sy, a - b, (a + b) as nat);
    let w = walk(x0, y0, a - b, x1, y1, a, -b, sx, sy, (a + b) as nat);
    assert(line_path(x0, y0, x1, y1) == w);
    assert forall|k: int| 0 <= k < line_path(x0, y0, x1, y1).len() implies between(
        #[trigger] line_path(x0, y0, x1, y1)[k].0,
        x0,
        x1,
    ) && between(line_path(x0, y0, x1, y1)[k].1, y0, y1) by {
        assert(between(w[k].0, x0, x1) && between(w[k].1, y0, y1));
    }
}

/// A horizontal or vertical line paints every pixel between its ends, and
/// so does any brush of radius `r >= 0` drawn along it.
pub proof fn lemma_straight_line_covers(x0: int, y0: int, x1: int, y1: int, px: int, py: int, r: int)
    requires
        r >= 0,
        (x0 == x1 && px == x0 && between(py, y0, y1)) || (y0 == y1 && py == y0 && between(px, x0, x1)),
    ensures
        touched(line_path(x0, y0, x1, y1), px, py, r),
{
    let p = line_path(x0, y0, x1, y1);
    lemma_line_path_shape(x0, y0, x1, y1);
    lemma_line_path_in_box(x0, y0, x1, y1);
    if x0 == x1 && px == x0 && between(py, y0, y1) {
        lemma_path_hits_every_row(p, py);
        let k = choose|k: int| 0 <= k < p.len() && #[trigger] p[k].1 == py;
        assert(between(p[k].0, x0, x1));
        assert(near(p[k], px, py, r));
    } else {
        lemma_path_hits_every_column(p, px);
        let k = choose|k: int| 0 <= k < p.len() && #[trigger] p[k].0 == px;
        assert(between(p[k].1, y0, y1));
        assert(near(p[k], px, py, r));
    }
}

} // verus!
