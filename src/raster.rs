//! Bresenham rasterisation of the segment between two points, and drawing
//! such a segment.
//!
//! The walk counts how far it has gone along each axis: `i` columns and `j`
//! rows out of `a = |x2 - x1|` and `b = |y2 - y1|`. With `dx = a`, `dy = -b`
//! and the error term starting at `dx + dy`, each step doubles the error:
//! when that is at least `dy` it advances a column and adds `dy`, and when it
//! is at most `dx` it advances a row and adds `dx`. The walk stops on the end
//! point.
use vstd::prelude::*;

use crate::canvas::{render, Cell};
use crate::error::TermError;
use crate::terminal::{get_viewport, in_viewport, Terminal};

verus! {

/// The points of the walk from step counts (i, j) with error `err`, as step
/// counts; `fuel` bounds its length.
pub open spec fn walk(a: int, b: int, i: int, j: int, err: int, fuel: nat) -> Seq<(int, int)>
    decreases fuel,
{
    if fuel == 0 {
        Seq::empty()
    } else if i == a && j == b {
        seq![(i, j)]
    } else {
        let e2 = 2 * err;
        let (i2, err1) = if e2 >= -b { (i + 1, err - b) } else { (i, err) };
        let (j2, err2) = if e2 <= a { (j + 1, err1 + a) } else { (j, err1) };
        seq![(i, j)] + walk(a, b, i2, j2, err2, (fuel - 1) as nat)
    }
}

/// `start` moved `k` steps towards `end`.
pub open spec fn toward(start: int, end: int, k: int) -> int {
    if start < end { start + k } else { start - k }
}

pub open spec fn distance(p: int, q: int) -> int {
    if p <= q { q - p } else { p - q }
}

/// The Bresenham points from (x1, y1) to (x2, y2), in order.
pub open spec fn bresenham(x1: int, y1: int, x2: int, y2: int) -> Seq<(int, int)> {
    let (a, b) = (distance(x1, x2), distance(y1, y2));
    walk(a, b, 0, 0, a - b, (a + b + 1) as nat).map_values(
        |s: (int, int)| (toward(x1, x2, s.0), toward(y1, y2, s.1)),
    )
}

/// What holds of every state of the walk: the step counts stay within the
/// distances, the error term is `a (j + 1) - b (i + 1)`, and along the longer
/// axis the walk never falls behind.
pub open spec fn walk_state(a: int, b: int, i: int, j: int, err: int) -> bool {
    &&& 0 <= i <= a
    &&& 0 <= j <= b
    &&& err == a * (j + 1) - b * (i + 1)
    &&& a >= b ==> 2 * a * (j + 1) >= b * (2 * i + 1)
    &&& b >= a ==> 2 * b * (i + 1) >= a * (2 * j + 1)
}

/// The state after one step from a state that is not the end.
pub open spec fn next_state(a: int, b: int, i: int, j: int, err: int) -> (int, int, int) {
    let e2 = 2 * err;
    let (i2, err1) = if e2 >= -b { (i + 1, err - b) } else { (i, err) };
    let (j2, err2) = if e2 <= a { (j + 1, err1 + a) } else { (j, err1) };
    (i2, j2, err2)
}

/// One step from a state that is not the end advances one or both counts
/// by one, never past the distances, and advances the count of the longer
/// axis.
pub proof fn lemma_step(a: int, b: int, i: int, j: int, err: int)
    requires
        walk_state(a, b, i, j, err),
        !(i == a && j == b),
    ensures
        ({
            let (i2, j2, err2) = next_state(a, b, i, j, err);
            &&& walk_state(a, b, i2, j2, err2)
            &&& i <= i2 <= i + 1
            &&& j <= j2 <= j + 1
            &&& i2 + j2 > i + j
            &&& a >= b ==> i2 == i + 1
            &&& b > a ==> j2 == j + 1
        }),
{
    let e2 = 2 * err;
    let xs = e2 >= -b;
    let ys = e2 <= a;
    assert(e2 == 2 * a * (j + 1) - 2 * b * (i + 1)) by (nonlinear_arith)
        requires
            e2 == 2 * err,
            err == a * (j + 1) - b * (i + 1),
    ;
    if i == a {
        assert(j < b);
        assert(a * (j + 1) <= a * b) by (nonlinear_arith)
            requires
                0 <= a,
                j + 1 <= b,
        ;
        assert(b * (i + 1) == a * b + b) by (nonlinear_arith)
            requires
                i == a,
        ;
        assert(!xs);
    }
    if j == b {
        assert(i < a);
        assert(b * (i + 1) <= a * b) by (nonlinear_arith)
            requires
                0 <= b,
                i + 1 <= a,
        ;
        assert(a * (j + 1) == a * b + a) by (nonlinear_arith)
            requires
                j == b,
        ;
        assert(!ys);
    }
    if a >= b && i == a && j < b {
        assert(false) by (nonlinear_arith)
            requires
                i == a,
                0 <= j < b,
                0 <= a,
                2 * a * (j + 1) >= b * (2 * i + 1),
        ;
    }
    if b > a && j == b && i < a {
        assert(false) by (nonlinear_arith)
            requires
                j == b,
                0 <= i < a,
                0 <= b,
                2 * b * (i + 1) >= a * (2 * j + 1),
        ;
    }
    if a >= b && i < a {
        assert(xs) by (nonlinear_arith)
            requires
                e2 == 2 * a * (j + 1) - 2 * b * (i + 1),
                2 * a * (j + 1) >= b * (2 * i + 1),
                xs == (e2 >= -b),
        ;
    }
    if b > a && j < b {
        assert(ys) by (nonlinear_arith)
            requires
                e2 == 2 * a * (j + 1) - 2 * b * (i + 1),
                2 * b * (i + 1) >= a * (2 * j + 1),
                ys == (e2 <= a),
        ;
    }
    let (i2, j2, err2) = next_state(a, b, i, j, err);
    assert(err2 == a * (j2 + 1) - b * (i2 + 1)) by (nonlinear_arith)
        requires
            err == a * (j + 1) - b * (i + 1),
            i2 == (if xs { i + 1 } else { i }),
            j2 == (if ys { j + 1 } else { j }),
            err2 == err + (if xs { -b } else { 0 }) + (if ys { a } else { 0 }),
    ;
    if a >= b {
        assert(2 * a * (j2 + 1) >= b * (2 * i2 + 1)) by (nonlinear_arith)
            requires
                a >= b,
                b >= 0,
                2 * a * (j + 1) >= b * (2 * i + 1),
                e2 == 2 * a * (j + 1) - 2 * b * (i + 1),
                i2 == (if xs { i + 1 } else { i }),
                j2 == (if ys { j + 1 } else { j }),
                ys == (e2 <= a),
        ;
    }
    if b >= a {
        assert(2 * b * (i2 + 1) >= a * (2 * j2 + 1)) by (nonlinear_arith)
            requires
                b >= a,
                a >= 0,
                2 * b * (i + 1) >= a * (2 * j + 1),
                e2 == 2 * a * (j + 1) - 2 * b * (i + 1),
                i2 == (if xs { i + 1 } else { i }),
                j2 == (if ys { j + 1 } else { j }),
                xs == (e2 >= -b),
        ;
    }
}

/// Properties of the walk from any state: it starts there, ends on the end
/// point, stays between the two, moves by at most one along each axis at a
/// time and always moves, and has one point per step along the longer axis.
pub proof fn lemma_walk(a: int, b: int, i: int, j: int, err: int, fuel: nat)
    requires
        walk_state(a, b, i, j, err),
        fuel >= (a - i) + (b - j) + 1,
    ensures
        ({
            let w = walk(a, b, i, j, err, fuel);
            &&& w.len() == (if a >= b { a - i } else { b - j }) + 1
            &&& w[0] == (i, j)
            &&& w.last() == (a, b)
            &&& forall|k: int| 0 <= k < w.len() ==> i <= (#[trigger] w[k]).0 <= a && j <= w[k].1 <= b
            &&& forall|k: int| 0 <= k < w.len() - 1 ==> {
                &&& (#[trigger] w[k]).0 <= w[k + 1].0 <= w[k].0 + 1
                &&& w[k].1 <= w[k + 1].1 <= w[k].1 + 1
                &&& w[k] != w[k + 1]
            }
        }),
    decreases fuel,
{
    if !(i == a && j == b) {
        lemma_step(a, b, i, j, err);
        let (i2, j2, err2) = next_state(a, b, i, j, err);
        lemma_walk(a, b, i2, j2, err2, (fuel - 1) as nat);
        let rest = walk(a, b, i2, j2, err2, (fuel - 1) as nat);
        let w = walk(a, b, i, j, err, fuel);
        assert(w == seq![(i, j)] + rest);
        assert forall|k: int| 0 <= k < w.len() implies i <= (#[trigger] w[k]).0 <= a && j <= w[k].1 <= b by {
            if k > 0 {
                assert(w[k] == rest[k - 1]);
            }
        }
        assert forall|k: int| 0 <= k < w.len() - 1 implies {
            &&& (#[trigger] w[k]).0 <= w[k + 1].0 <= w[k].0 + 1
            &&& w[k].1 <= w[k + 1].1 <= w[k].1 + 1
            &&& w[k] != w[k + 1]
        } by {
            assert(w[k + 1] == rest[k]);
            if k > 0 {
                assert(w[k] == rest[k - 1]);
            }
        }
    }
}

proof fn lemma_walk_start(a: int, b: int)
    requires
        a >= 0,
        b >= 0,
    ensures
        walk_state(a, b, 0, 0, a - b),
{
    assert(a - b == a * (0 + 1) - b * (0 + 1)) by (nonlinear_arith);
    assert(a >= b ==> 2 * a * (0 + 1) >= b * (2 * 0 + 1)) by (nonlinear_arith)
        requires
            a >= 0,
            b >= 0,
    ;
    assert(b >= a ==> 2 * b * (0 + 1) >= a * (2 * 0 + 1)) by (nonlinear_arith)
        requires
            a >= 0,
            b >= 0,
    ;
}

/// Neighbouring steps of the walk give neighbouring, distinct points.
proof fn lemma_toward_step(x1: int, x2: int, y1: int, y2: int, p: (int, int), q: (int, int))
    requires
        p.0 <= q.0 <= p.0 + 1,
        p.1 <= q.1 <= p.1 + 1,
        p != q,
    ensures
        distance(toward(x1, x2, p.0), toward(x1, x2, q.0)) <= 1,
        distance(toward(y1, y2, p.1), toward(y1, y2, q.1)) <= 1,
        (toward(x1, x2, p.0), toward(y1, y2, p.1)) != (toward(x1, x2, q.0), toward(y1, y2, q.1)),
{
}

/// Properties of the Bresenham points between two points: they start at the
/// first and end at the second, one per column or per row along the longer
/// axis; consecutive points are neighbours (one step along either axis or
/// both, never the same point); every point lies in the rectangle that the
/// two points span.
pub open spec fn is_segment(s: Seq<(int, int)>, x1: int, y1: int, x2: int, y2: int) -> bool {
    &&& s.len() == (if distance(x1, x2) >= distance(y1, y2) { distance(x1, x2) } else { distance(y1, y2) }) + 1
    &&& s[0] == (x1, y1)
    &&& s.last() == (x2, y2)
    &&& forall|k: int| 0 <= k < s.len() - 1 ==> {
        &&& distance((#[trigger] s[k]).0, s[k + 1].0) <= 1
        &&& distance(s[k].1, s[k + 1].1) <= 1
        &&& s[k] != s[k + 1]
    }
    &&& forall|k: int| 0 <= k < s.len() ==> {
        &&& distance(x1, (#[trigger] s[k]).0) + distance((s[k]).0, x2) == distance(x1, x2)
        &&& distance(y1, s[k].1) + distance(s[k].1, y2) == distance(y1, y2)
    }
}

pub proof fn lemma_bresenham(x1: int, y1: int, x2: int, y2: int)
    ensures
        is_segment(bresenham(x1, y1, x2, y2), x1, y1, x2, y2),
{
    let (a, b) = (distance(x1, x2), distance(y1, y2));
    lemma_walk_start(a, b);
    lemma_walk(a, b, 0, 0, a - b, (a + b + 1) as nat);
    let w = walk(a, b, 0, 0, a - b, (a + b + 1) as nat);
    let s = bresenham(x1, y1, x2, y2);
    assert(s.len() == w.len());
    assert(s[0] == (toward(x1, x2, w[0].0), toward(y1, y2, w[0].1)));
    assert(s.last() == (toward(x1, x2, w[w.len() - 1].0), toward(y1, y2, w[w.len() - 1].1)));
    assert forall|k: int| 0 <= k < s.len() - 1 implies {
        &&& distance((#[trigger] s[k]).0, s[k + 1].0) <= 1
        &&& distance(s[k].1, s[k + 1].1) <= 1
        &&& s[k] != s[k + 1]
    } by {
        lemma_toward_step(x1, x2, y1, y2, w[k], w[k + 1]);
        assert(s[k] == (toward(x1, x2, w[k].0), toward(y1, y2, w[k].1)));
        assert(s[k + 1] == (toward(x1, x2, w[k + 1].0), toward(y1, y2, w[k + 1].1)));
    }
    assert forall|k: int| 0 <= k < s.len() implies {
        &&& distance(x1, (#[trigger] s[k]).0) + distance((s[k]).0, x2) == distance(x1, x2)
        &&& distance(y1, s[k].1) + distance(s[k].1, y2) == distance(y1, y2)
    } by {
        assert(s[k] == (toward(x1, x2, w[k].0), toward(y1, y2, w[k].1)));
        assert(0 <= w[k].0 <= a);
        assert(0 <= w[k].1 <= b);
    }
}

/// The Bresenham points from (x1, y1) to (x2, y2), in order.
pub fn bresenham_points(x1: u16, y1: u16, x2: u16, y2: u16) -> (r: Vec<(u16, u16)>)
    ensures
        r@.len() == bresenham(x1 as int, y1 as int, x2 as int, y2 as int).len(),
        forall|k: int| 0 <= k < r@.len() ==> (r@[k].0 as int, r@[k].1 as int) == #[trigger] bresenham(
            x1 as int,
            y1 as int,
            x2 as int,
            y2 as int,
        )[k],
        is_segment(bresenham(x1 as int, y1 as int, x2 as int, y2 as int), x1 as int, y1 as int, x2 as int, y2 as int),
{
    let ghost (xs, ys, xe, ye) = (x1 as int, y1 as int, x2 as int, y2 as int);
    let a: i64 = if x1 <= x2 { (x2 - x1) as i64 } else { (x1 - x2) as i64 };
    let b: i64 = if y1 <= y2 { (y2 - y1) as i64 } else { (y1 - y2) as i64 };
    let ghost full = walk(a as int, b as int, 0, 0, a - b, (a + b + 1) as nat);
    proof {
        lemma_bresenham(xs, ys, xe, ye);
        lemma_walk_start(a as int, b as int);
        lemma_walk(a as int, b as int, 0, 0, a - b, (a + b + 1) as nat);
    }
    let mut i: i64 = 0;
    let mut j: i64 = 0;
    let mut err: i64 = a - b;
    let ghost mut fuel: nat = (a + b + 1) as nat;
    let ghost mut done: Seq<(int, int)> = Seq::empty();
    let mut out: Vec<(u16, u16)> = Vec::new();
    loop
        invariant_except_break
            walk_state(a as int, b as int, i as int, j as int, err as int),
            fuel >= (a - i) + (b - j) + 1,
            done + walk(a as int, b as int, i as int, j as int, err as int, fuel) == full,
        invariant
            xs == x1,
            ys == y1,
            xe == x2,
            ye == y2,
            0 <= a <= u16::MAX,
            0 <= b <= u16::MAX,
            a == distance(xs, xe),
            b == distance(ys, ye),
            full == walk(a as int, b as int, 0, 0, a - b, (a + b + 1) as nat),
            full.len() == (if a >= b { a } else { b }) + 1,
            forall|k: int| 0 <= k < full.len() ==> 0 <= (#[trigger] full[k]).0 <= a && 0 <= full[k].1 <= b,
            out@.len() == done.len(),
            forall|k: int| 0 <= k < done.len() ==> (#[trigger] out@[k].0 as int, out@[k].1 as int) == (
                toward(xs, xe, done[k].0),
                toward(ys, ye, done[k].1),
            ),
        ensures
            done == full,
        decreases fuel,
    {
        assert(walk(a as int, b as int, i as int, j as int, err as int, fuel)[0] == (i as int, j as int));
        assert(full[done.len() as int] == (i as int, j as int));
        assert(0 <= i <= a && 0 <= j <= b);
        let x = if x1 <= x2 { (x1 as i64 + i) as u16 } else { (x1 as i64 - i) as u16 };
        let y = if y1 <= y2 { (y1 as i64 + j) as u16 } else { (y1 as i64 - j) as u16 };
        assert(x as int == toward(xs, xe, i as int) && y as int == toward(ys, ye, j as int));
        let ghost before_push = out@;
        out.push((x, y));
        proof {
            done = done.push((i as int, j as int));
            assert forall|k: int| 0 <= k < done.len() implies (#[trigger] out@[k].0 as int, out@[k].1 as int) == (
                toward(xs, xe, done[k].0),
                toward(ys, ye, done[k].1),
            ) by {
                if k < done.len() - 1 {
                    assert(out@[k] == before_push[k]);
                }
            }
        }
        if i == a && j == b {
            assert(done =~= full);
            break;
        }
        proof {
            assert(-(u16::MAX as int) * (u16::MAX as int + 1) <= err <= (u16::MAX as int) * (u16::MAX as int + 1)) by (nonlinear_arith)
                requires
                    err == a * (j + 1) - b * (i + 1),
                    0 <= i <= a <= u16::MAX,
                    0 <= j <= b <= u16::MAX,
            ;
            lemma_step(a as int, b as int, i as int, j as int, err as int);
            assert(done.drop_last() + walk(a as int, b as int, i as int, j as int, err as int, fuel) == full);
            assert(walk(a as int, b as int, i as int, j as int, err as int, fuel)
                == seq![(i as int, j as int)] + walk(
                    a as int, b as int,
                    next_state(a as int, b as int, i as int, j as int, err as int).0,
                    next_state(a as int, b as int, i as int, j as int, err as int).1,
                    next_state(a as int, b as int, i as int, j as int, err as int).2,
                    (fuel - 1) as nat,
                ));
        }
        let e2 = 2 * err;
        if e2 >= -b {
            err = err - b;
            i = i + 1;
        }
        if e2 <= a {
            err = err + a;
            j = j + 1;
        }
        proof {
            let old_done = done.drop_last();
            assert(done =~= old_done + seq![done.last()]);
            fuel = (fuel - 1) as nat;
            assert(done + walk(a as int, b as int, i as int, j as int, err as int, fuel) =~= old_done + (seq![done.last()]
                + walk(a as int, b as int, i as int, j as int, err as int, fuel)));
        }
    }
    proof {
        assert forall|k: int| 0 <= k < out@.len() implies (out@[k].0 as int, out@[k].1 as int) == #[trigger] bresenham(xs, ys, xe, ye)[k] by {
            assert(bresenham(xs, ys, xe, ye)[k] == (toward(xs, xe, full[k].0), toward(ys, ye, full[k].1)));
        }
    }
    out
}

/// The cells of a segment drawn with `glyph`.
pub open spec fn segment_cells(x1: int, y1: int, x2: int, y2: int, glyph: char) -> Seq<Cell> {
    bresenham(x1, y1, x2, y2).map_values(|p: (int, int)| Cell { x: p.0 as u16, y: p.1 as u16, glyph })
}

/// Draws `glyph` at every Bresenham point from (x1, y1) to (x2, y2), in
/// order. Refused, with nothing drawn, when either end lies outside the
/// viewport.
///
/// Every point lies in the rectangle that the two ends span, so once both
/// ends are in the viewport no point of the segment can fall outside it.
pub fn draw_segment(term: &mut Terminal, x1: u16, y1: u16, x2: u16, y2: u16, glyph: char) -> (r: Result<(), TermError>)
    ensures
        r is Ok <==> in_viewport(x1 as int, y1 as int, old(term).width() as int, old(term).height() as int)
            && in_viewport(x2 as int, y2 as int, old(term).width() as int, old(term).height() as int),
        r is Ok ==> old(term).sends(final(term), render(segment_cells(x1 as int, y1 as int, x2 as int, y2 as int, glyph))),
        r is Err ==> r == Err::<(), TermError>(TermError::Boundary) && *final(term) == *old(term),
{
    let (width, height) = get_viewport(term);
    if x1 < 1 || x1 > width || y1 < 1 || y1 > height || x2 < 1 || x2 > width || y2 < 1 || y2 > height {
        return Err(TermError::Boundary);
    }
    let points = bresenham_points(x1, y1, x2, y2);
    let ghost expected = segment_cells(x1 as int, y1 as int, x2 as int, y2 as int, glyph);
    let mut cells: Vec<Cell> = Vec::new();
    let mut k: usize = 0;
    while k < points.len()
        invariant
            k <= points.len(),
            points@.len() == bresenham(x1 as int, y1 as int, x2 as int, y2 as int).len(),
            forall|m: int| 0 <= m < points@.len() ==> (points@[m].0 as int, points@[m].1 as int) == #[trigger] bresenham(
                x1 as int,
                y1 as int,
                x2 as int,
                y2 as int,
            )[m],
            expected == segment_cells(x1 as int, y1 as int, x2 as int, y2 as int, glyph),
            cells@ == expected.take(k as int),
        decreases points.len() - k,
    {
        let (x, y) = points[k];
        cells.push(Cell { x, y, glyph });
        proof {
            assert(bresenham(x1 as int, y1 as int, x2 as int, y2 as int)[k as int] == (x as int, y as int));
            assert(expected[k as int] == Cell { x, y, glyph });
            assert(cells@ =~= expected.take(k + 1));
        }
        k = k + 1;
    }
    assert(cells@ =~= expected);
    term.plot_all(&cells);
    Ok(())
}

} // verus!
