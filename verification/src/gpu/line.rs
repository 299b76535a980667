//! Bresenham line drawing.

use vstd::prelude::*;

use super::rasterizer::{Rasterizer, VRAM_SIZE, max_int, min_int, put_pixel_spec};

verus! {

/// The state of Bresenham's algorithm: current point and error term.
pub open spec fn line_start(x0: int, y0: int, x1: int, y1: int) -> (int, int, int) {
    (x0, y0, abs_int(x1 - x0) - abs_int(y1 - y0))
}

pub open spec fn abs_int(a: int) -> int {
    if a < 0 {
        -a
    } else {
        a
    }
}

pub open spec fn sign_to(a: int, b: int) -> int {
    if a < b {
        1
    } else {
        -1
    }
}

/// One step of Bresenham's algorithm towards (x1, y1) from (x0, y0):
/// with dx = |x1 - x0| and dy = -|y1 - y0|, X advances when 2 * err >= dy
/// and Y advances when 2 * err <= dx (both tested on the error before the step).
pub open spec fn line_next(s: (int, int, int), x0: int, y0: int, x1: int, y1: int) -> (int, int, int) {
    let dx = abs_int(x1 - x0);
    let dy = -abs_int(y1 - y0);
    let e2 = 2 * s.2;
    let (x, err1) = if e2 >= dy {
        (s.0 + sign_to(x0, x1), s.2 + dy)
    } else {
        (s.0, s.2)
    };
    let (y, err2) = if e2 <= dx {
        (s.1 + sign_to(y0, y1), err1 + dx)
    } else {
        (s.1, err1)
    };
    (x, y, err2)
}

/// The state after `k` steps.
pub open spec fn line_state(x0: int, y0: int, x1: int, y1: int, k: nat) -> (int, int, int)
    decreases k,
{
    if k == 0 {
        line_start(x0, y0, x1, y1)
    } else {
        line_next(line_state(x0, y0, x1, y1, (k - 1) as nat), x0, y0, x1, y1)
    }
}

/// VRAM with (x, y) set to `c` when it lies in the clip rectangle.
pub open spec fn plot_spec(vram: Seq<u16>, clip: (i16, i16, i16, i16), x: int, y: int, c: u16) -> Seq<u16> {
    if clip.0 <= x <= clip.2 && clip.1 <= y <= clip.3 {
        put_pixel_spec(vram, x, y, c)
    } else {
        vram
    }
}

/// VRAM after plotting the points of steps 0 to k.
pub open spec fn line_plot(
    vram: Seq<u16>,
    clip: (i16, i16, i16, i16),
    c: u16,
    x0: int,
    y0: int,
    x1: int,
    y1: int,
    k: nat,
) -> Seq<u16>
    decreases k,
{
    let s = line_state(x0, y0, x1, y1, k);
    let before = if k == 0 {
        vram
    } else {
        line_plot(vram, clip, c, x0, y0, x1, y1, (k - 1) as nat)
    };
    plot_spec(before, clip, s.0, s.1, c)
}

/// Whether step k is the first to reach the end point.
pub open spec fn line_ends_at(x0: int, y0: int, x1: int, y1: int, n: nat) -> bool {
    &&& line_state(x0, y0, x1, y1, n).0 == x1
    &&& line_state(x0, y0, x1, y1, n).1 == y1
    &&& forall|k: nat|
        k < n ==> !(#[trigger] line_state(x0, y0, x1, y1, k).0 == x1 && line_state(
            x0,
            y0,
            x1,
            y1,
            k,
        ).1 == y1)
}

/// The number of steps until (x1, y1) is first reached.
pub open spec fn line_len(x0: int, y0: int, x1: int, y1: int) -> nat {
    choose|n: nat| line_ends_at(x0, y0, x1, y1, n)
}

/// The drawn line: every point from (x0, y0) up to the first visit of
/// (x1, y1), each plotted when it lies inside the clip rectangle.
pub open spec fn line_result(
    vram: Seq<u16>,
    clip: (i16, i16, i16, i16),
    c: u16,
    x0: int,
    y0: int,
    x1: int,
    y1: int,
) -> Seq<u16> {
    line_plot(vram, clip, c, x0, y0, x1, y1, line_len(x0, y0, x1, y1))
}

/// The first step that reaches the end point is unique.
proof fn lemma_line_len(x0: int, y0: int, x1: int, y1: int, n: nat)
    requires
        line_ends_at(x0, y0, x1, y1, n),
    ensures
        line_len(x0, y0, x1, y1) == n,
{
    let m = line_len(x0, y0, x1, y1);
    assert(line_ends_at(x0, y0, x1, y1, m));
    if m < n {
        assert(line_state(x0, y0, x1, y1, m).0 == x1);
    } else if n < m {
        assert(line_state(x0, y0, x1, y1, n).0 == x1);
    }
}

/// Bresenham's algorithm reaches its end point: the number of X steps and
/// Y steps taken never exceed |x1 - x0| and |y1 - y0|, and every step takes
/// at least one of them.
proof fn lemma_line_step(dx: int, dy: int, i: int, j: int, err: int)
    requires
        dx >= 0,
        dy <= 0,
        0 <= i <= dx,
        0 <= j <= -dy,
        !(i == dx && j == -dy),
        err == dx * (1 + j) + dy * (1 + i),
    ensures
        2 * err >= dy || 2 * err <= dx,
        2 * err >= dy ==> i < dx,
        2 * err <= dx ==> j < -dy,
{
    if i == dx {
        assert(err <= dy) by (nonlinear_arith)
            requires err == dx * (1 + j) + dy * (1 + i), i == dx, dx >= 0, j < -dy;
    }
    if j == -dy {
        assert(err >= dx) by (nonlinear_arith)
            requires err == dx * (1 + j) + dy * (1 + i), j == -dy, dy <= 0, i < dx;
    }
}

/// The X (or Y) coordinate of a step count stays between the end points.
proof fn lemma_between(a0: int, a1: int, s: int, i: int, a: int)
    requires
        s == sign_to(a0, a1),
        0 <= i <= abs_int(a1 - a0),
        a == a0 + s * i,
    ensures
        min_int(a0, a1) <= a <= max_int(a0, a1),
{
}

/// After |a1 - a0| steps towards a1, the coordinate is a1.
proof fn lemma_at_end(a0: int, a1: int, s: int, i: int, a: int)
    requires
        s == sign_to(a0, a1),
        i == abs_int(a1 - a0),
        a == a0 + s * i,
    ensures
        a == a1,
{
}

/// Taking at most one more step keeps the coordinate equation.
proof fn lemma_linear_step(s: int, i0: int, i: int)
    requires
        i == i0 || i == i0 + 1,
    ensures
        s * i == s * i0 + (if i == i0 { 0 } else { s }),
{
    if i == i0 + 1 {
        assert(s * (i0 + 1) == s * i0 + s) by (nonlinear_arith);
    }
}

/// The error term after a step.
proof fn lemma_err_step(dx: int, dy: int, i0: int, j0: int, i: int, j: int)
    requires
        i == i0 || i == i0 + 1,
        j == j0 || j == j0 + 1,
    ensures
        dx * (1 + j) + dy * (1 + i) == dx * (1 + j0) + dy * (1 + i0) + (if i == i0 { 0 } else { dy }) + (if j
            == j0 { 0 } else { dx }),
{
    assert(dx * (1 + (j0 + 1)) == dx * (1 + j0) + dx) by (nonlinear_arith);
    assert(dy * (1 + (i0 + 1)) == dy * (1 + i0) + dy) by (nonlinear_arith);
}

/// The error term fits comfortably in an i64.
proof fn lemma_line_err_bound(dx: int, dy: int, i: int, j: int, err: int)
    requires
        0 <= dx <= 65535,
        -65535 <= dy <= 0,
        0 <= i <= dx,
        0 <= j <= -dy,
        err == dx * (1 + j) + dy * (1 + i),
    ensures
        -0x4_0000_0000 <= err <= 0x4_0000_0000,
{
    assert(0 <= dx * (1 + j) <= 65535 * 65536) by (nonlinear_arith)
        requires 0 <= dx <= 65535, 0 <= j <= 65535;
    assert(-65535 * 65536 <= dy * (1 + i) <= 0) by (nonlinear_arith)
        requires -65535 <= dy <= 0, 0 <= i <= 65535;
}

impl Rasterizer {
    /// Draw a line from (x0, y0) to (x1, y1) with Bresenham's algorithm;
    /// points outside the clip rectangle or VRAM are skipped.
    pub fn draw_line(&mut self, vram: &mut [u16], x0: i16, y0: i16, x1: i16, y1: i16, color: u16)
        requires
            old(vram)@.len() == VRAM_SIZE,
        ensures
            *final(self) == *old(self),
            final(vram)@.len() == VRAM_SIZE,
            line_ends_at(x0 as int, y0 as int, x1 as int, y1 as int, line_len(x0 as int, y0 as int, x1 as int, y1 as int)),
            final(vram)@ == line_result(old(vram)@, old(self).clip_spec(), color, x0 as int, y0 as int,
                x1 as int, y1 as int),
    {
        let dx: i64 = if x1 >= x0 { x1 as i64 - x0 as i64 } else { x0 as i64 - x1 as i64 };
        let dy: i64 = -(if y1 >= y0 { y1 as i64 - y0 as i64 } else { y0 as i64 - y1 as i64 });
        let sx: i64 = if x0 < x1 { 1 } else { -1 };
        let sy: i64 = if y0 < y1 { 1 } else { -1 };
        let mut err: i64 = dx + dy;
        let mut x: i64 = x0 as i64;
        let mut y: i64 = y0 as i64;
        let ghost mut i: int = 0;
        let ghost mut j: int = 0;
        let ghost mut k: nat = 0;
        let ghost ax0: int = x0 as int;
        let ghost ay0: int = y0 as int;
        let ghost ax1: int = x1 as int;
        let ghost ay1: int = y1 as int;
        let ghost clip = self.clip_spec();
        let ghost old_vram = old(vram)@;
        let (clip_left, clip_top, clip_right, clip_bottom) = self.clip_rect();
        proof {
            assert(err == dx * (1 + j) + dy * (1 + i)) by (nonlinear_arith)
                requires err == dx + dy, i == 0, j == 0;
        }
        loop
            invariant_except_break
                vram@.len() == VRAM_SIZE,
                old_vram.len() == VRAM_SIZE,
                ax0 == x0 as int && ay0 == y0 as int && ax1 == x1 as int && ay1 == y1 as int,
                0 <= dx <= 65535,
                -65535 <= dy <= 0,
                dx == abs_int(ax1 - ax0),
                dy == -abs_int(ay1 - ay0),
                sx == sign_to(ax0, ax1),
                sy == sign_to(ay0, ay1),
                0 <= i <= dx,
                0 <= j <= -dy,
                x == ax0 + sx * i,
                y == ay0 + sy * j,
                err == dx * (1 + j) + dy * (1 + i),
                (x as int, y as int, err as int) == line_state(ax0, ay0, ax1, ay1, k),
                forall|m: nat| m < k ==> !(#[trigger] line_state(ax0, ay0, ax1, ay1, m).0 == ax1
                    && line_state(ax0, ay0, ax1, ay1, m).1 == ay1),
                k == 0 ==> vram@ == old_vram,
                k > 0 ==> vram@ == line_plot(old_vram, clip, color, ax0, ay0, ax1, ay1, (k - 1) as nat),
                min_int(ax0, ax1) <= x <= max_int(ax0, ax1),
                min_int(ay0, ay1) <= y <= max_int(ay0, ay1),
                clip == (clip_left, clip_top, clip_right, clip_bottom),
                *self == *old(self),
            ensures
                vram@.len() == VRAM_SIZE,
                line_ends_at(ax0, ay0, ax1, ay1, line_len(ax0, ay0, ax1, ay1)),
                vram@ == line_result(old_vram, clip, color, ax0, ay0, ax1, ay1),
            decreases (dx - i) + (-dy - j),
        {
            if x >= clip_left as i64 && x <= clip_right as i64 && y >= clip_top as i64 && y
                <= clip_bottom as i64 {
                Self::write_pixel(vram, x as i16, y as i16, color);
            }
            proof {
                reveal_with_fuel(line_plot, 2);
                assert(vram@ == line_plot(old_vram, clip, color, ax0, ay0, ax1, ay1, k));
            }
            if x == x1 as i64 && y == y1 as i64 {
                proof {
                    assert(line_state(ax0, ay0, ax1, ay1, k).0 == ax1);
                    assert(line_state(ax0, ay0, ax1, ay1, k).1 == ay1);
                    assert(line_ends_at(ax0, ay0, ax1, ay1, k));
                    lemma_line_len(ax0, ay0, ax1, ay1, k);
                }
                break;
            }
            proof {
                if i == dx && j == -dy {
                    lemma_at_end(ax0, ax1, sx as int, i, x as int);
                    lemma_at_end(ay0, ay1, sy as int, j, y as int);
                }
                lemma_line_step(dx as int, dy as int, i, j, err as int);
                lemma_line_err_bound(dx as int, dy as int, i, j, err as int);
            }
            let ghost i0 = i;
            let ghost j0 = j;
            let e2 = 2 * err;
            if e2 >= dy {
                proof {
                    lemma_linear_step(sx as int, i, i + 1);
                    lemma_between(ax0, ax1, sx as int, i + 1, x + sx);
                }
                err = err + dy;
                x = x + sx;
                proof { i = i + 1; }
            }
            if e2 <= dx {
                proof {
                    lemma_linear_step(sy as int, j, j + 1);
                    lemma_between(ay0, ay1, sy as int, j + 1, y + sy);
                }
                err = err + dx;
                y = y + sy;
                proof { j = j + 1; }
            }
            proof {
                lemma_linear_step(sx as int, i0, i);
                lemma_linear_step(sy as int, j0, j);
                lemma_err_step(dx as int, dy as int, i0, j0, i, j);
                lemma_between(ax0, ax1, sx as int, i, x as int);
                lemma_between(ay0, ay1, sy as int, j, y as int);
                k = k + 1;
            }
        }
    }
}


/// The points that Bresenham's algorithm visits from (x0, y0) up to the
/// first visit of (x1, y1), in order: the points that [`Rasterizer::draw_line`]
/// plots, before clipping.
pub fn line_points(x0: i16, y0: i16, x1: i16, y1: i16) -> (pts: Vec<(i16, i16)>)
    ensures
        line_ends_at(x0 as int, y0 as int, x1 as int, y1 as int, line_len(x0 as int, y0 as int, x1 as int, y1 as int)),
        pts@.len() == line_len(x0 as int, y0 as int, x1 as int, y1 as int) + 1,
        forall|m: int|
            0 <= m < pts@.len() ==> (#[trigger] pts@[m]).0 as int == line_state(
                x0 as int,
                y0 as int,
                x1 as int,
                y1 as int,
                m as nat,
            ).0 && pts@[m].1 as int == line_state(x0 as int, y0 as int, x1 as int, y1 as int, m as nat).1,
{
    let dx: i64 = if x1 >= x0 { x1 as i64 - x0 as i64 } else { x0 as i64 - x1 as i64 };
    let dy: i64 = -(if y1 >= y0 { y1 as i64 - y0 as i64 } else { y0 as i64 - y1 as i64 });
    let sx: i64 = if x0 < x1 { 1 } else { -1 };
    let sy: i64 = if y0 < y1 { 1 } else { -1 };
    let mut err: i64 = dx + dy;
    let mut x: i64 = x0 as i64;
    let mut y: i64 = y0 as i64;
    let mut pts: Vec<(i16, i16)> = Vec::new();
    let ghost mut i: int = 0;
    let ghost mut j: int = 0;
    let ghost mut k: nat = 0;
    let ghost ax0: int = x0 as int;
    let ghost ay0: int = y0 as int;
    let ghost ax1: int = x1 as int;
    let ghost ay1: int = y1 as int;
    proof {
        assert(err == dx * (1 + j) + dy * (1 + i)) by (nonlinear_arith)
            requires err == dx + dy, i == 0, j == 0;
    }
    loop
        invariant_except_break
            ax0 == x0 as int && ay0 == y0 as int && ax1 == x1 as int && ay1 == y1 as int,
            0 <= dx <= 65535,
            -65535 <= dy <= 0,
            dx == abs_int(ax1 - ax0),
            dy == -abs_int(ay1 - ay0),
            sx == sign_to(ax0, ax1),
            sy == sign_to(ay0, ay1),
            0 <= i <= dx,
            0 <= j <= -dy,
            x == ax0 + sx * i,
            y == ay0 + sy * j,
            err == dx * (1 + j) + dy * (1 + i),
            pts@.len() == k,
            k <= i + j,
            (x as int, y as int, err as int) == line_state(ax0, ay0, ax1, ay1, k),
            forall|m: nat| m < pts@.len() ==> !(#[trigger] line_state(ax0, ay0, ax1, ay1, m).0 == ax1
                && line_state(ax0, ay0, ax1, ay1, m).1 == ay1),
            forall|m: int|
                0 <= m < pts@.len() ==> (#[trigger] pts@[m]).0 as int == line_state(ax0, ay0, ax1, ay1, m as nat).0
                    && pts@[m].1 as int == line_state(ax0, ay0, ax1, ay1, m as nat).1,
            min_int(ax0, ax1) <= x <= max_int(ax0, ax1),
            min_int(ay0, ay1) <= y <= max_int(ay0, ay1),
        ensures
            line_ends_at(ax0, ay0, ax1, ay1, line_len(ax0, ay0, ax1, ay1)),
            pts@.len() == line_len(ax0, ay0, ax1, ay1) + 1,
            forall|m: int|
                0 <= m < pts@.len() ==> (#[trigger] pts@[m]).0 as int == line_state(ax0, ay0, ax1, ay1, m as nat).0
                    && pts@[m].1 as int == line_state(ax0, ay0, ax1, ay1, m as nat).1,
        decreases (dx - i) + (-dy - j),
    {
        pts.push((x as i16, y as i16));
        if x == x1 as i64 && y == y1 as i64 {
            proof {
                assert(line_state(ax0, ay0, ax1, ay1, k).0 == ax1);
                assert(line_state(ax0, ay0, ax1, ay1, k).1 == ay1);
                assert(line_ends_at(ax0, ay0, ax1, ay1, k));
                lemma_line_len(ax0, ay0, ax1, ay1, k);
            }
            break;
        }
        proof {
            if i == dx && j == -dy {
                lemma_at_end(ax0, ax1, sx as int, i, x as int);
                lemma_at_end(ay0, ay1, sy as int, j, y as int);
            }
            lemma_line_step(dx as int, dy as int, i, j, err as int);
            lemma_line_err_bound(dx as int, dy as int, i, j, err as int);
        }
        let ghost i0 = i;
        let ghost j0 = j;
        let e2 = 2 * err;
        if e2 >= dy {
            proof {
                lemma_linear_step(sx as int, i, i + 1);
                lemma_between(ax0, ax1, sx as int, i + 1, x + sx);
            }
            err = err + dy;
            x = x + sx;
            proof { i = i + 1; }
        }
        if e2 <= dx {
            proof {
                lemma_linear_step(sy as int, j, j + 1);
                lemma_between(ay0, ay1, sy as int, j + 1, y + sy);
            }
            err = err + dx;
            y = y + sy;
            proof { j = j + 1; }
        }
        proof {
            lemma_linear_step(sx as int, i0, i);
            lemma_linear_step(sy as int, j0, j);
            lemma_err_step(dx as int, dy as int, i0, j0, i, j);
            lemma_between(ax0, ax1, sx as int, i, x as int);
            lemma_between(ay0, ay1, sy as int, j, y as int);
            k = k + 1;
        }
    }
    pts
}

/// VRAM after drawing the first `k` segments of a polyline, one after the other.
pub open spec fn polyline_spec(
    vram: Seq<u16>,
    clip: (i16, i16, i16, i16),
    c: u16,
    points: Seq<(i16, i16)>,
    k: nat,
) -> Seq<u16>
    decreases k,
{
    if k == 0 {
        vram
    } else {
        line_result(
            polyline_spec(vram, clip, c, points, (k - 1) as nat),
            clip,
            c,
            points[k - 1].0 as int,
            points[k - 1].1 as int,
            points[k as int].0 as int,
            points[k as int].1 as int,
        )
    }
}

impl Rasterizer {
    /// Draw connected lines through the points, in order; fewer than two
    /// points draw nothing.
    pub fn draw_polyline(&mut self, vram: &mut [u16], points: &[(i16, i16)], color: u16)
        requires
            old(vram)@.len() == VRAM_SIZE,
        ensures
            *final(self) == *old(self),
            final(vram)@.len() == VRAM_SIZE,
            points@.len() < 2 ==> final(vram)@ == old(vram)@,
            points@.len() >= 2 ==> final(vram)@ == polyline_spec(old(vram)@, old(self).clip_spec(),
                color, points@, (points@.len() - 1) as nat),
    {
        if points.len() < 2 {
            return;
        }
        let ghost old_vram = old(vram)@;
        let ghost clip = self.clip_spec();
        let n = points.len() - 1;
        let mut i: usize = 0;
        while i < n
            invariant
                n == points@.len() - 1,
                i <= n,
                vram@.len() == VRAM_SIZE,
                clip == self.clip_spec(),
                *self == *old(self),
                vram@ == polyline_spec(old_vram, clip, color, points@, i as nat),
            decreases n - i,
        {
            self.draw_line(vram, points[i].0, points[i].1, points[i + 1].0, points[i + 1].1, color);
            i = i + 1;
        }
    }
}
} // verus!
