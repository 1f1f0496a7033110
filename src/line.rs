//! Lines: glyph styles, straight runs checked against the viewport, and the
//! `Line` shape that steps in one of eight directions from its origin.
use vstd::prelude::*;

use crate::canvas::{covers, glyph_at, lemma_paint_blank, lemma_paint_uncovered, paint, render, run_seq, Cell};
use crate::circle::{circle_glyph, circle_symbol_to_char, CircleSymbol};
use crate::error::TermError;
use crate::star::{star_glyph, star_symbol_to_char, StarSymbol};
use crate::terminal::{get_viewport, in_viewport, Terminal};

verus! {

/// Glyphs for horizontal lines.
#[derive(Debug, Clone, Copy, PartialEq, Eq, Structural)]
pub enum HorizontalLineStyle {
    Light,
    Heavy,
    Double,
    LightTripleDash,
    HeavyTripleDash,
    LightQuadrupleDash,
    HeavyQuadrupleDash,
    Dotted,
    LightDoubleDash,
    HeavyDoubleDash,
    Wavy,
    Space,
}

pub open spec fn horizontal_glyph(style: HorizontalLineStyle) -> char {
    match style {
        HorizontalLineStyle::Light => '─',
        HorizontalLineStyle::Heavy => '━',
        HorizontalLineStyle::Double => '═',
        HorizontalLineStyle::LightTripleDash => '┄',
        HorizontalLineStyle::HeavyTripleDash => '┅',
        HorizontalLineStyle::LightQuadrupleDash => '┈',
        HorizontalLineStyle::HeavyQuadrupleDash => '┉',
        HorizontalLineStyle::Dotted => '·',
        HorizontalLineStyle::LightDoubleDash => '╌',
        HorizontalLineStyle::HeavyDoubleDash => '╍',
        HorizontalLineStyle::Wavy => '﹉',
        HorizontalLineStyle::Space => ' ',
    }
}

/// The glyph of a horizontal line style.
pub fn get_horizontal_line_char(style: &HorizontalLineStyle) -> (r: char)
    ensures
        r == horizontal_glyph(*style),
{
    match style {
        HorizontalLineStyle::Light => '─',
        HorizontalLineStyle::Heavy => '━',
        HorizontalLineStyle::Double => '═',
        HorizontalLineStyle::LightTripleDash => '┄',
        HorizontalLineStyle::HeavyTripleDash => '┅',
        HorizontalLineStyle::LightQuadrupleDash => '┈',
        HorizontalLineStyle::HeavyQuadrupleDash => '┉',
        HorizontalLineStyle::Dotted => '·',
        HorizontalLineStyle::LightDoubleDash => '╌',
        HorizontalLineStyle::HeavyDoubleDash => '╍',
        HorizontalLineStyle::Wavy => '﹉',
        HorizontalLineStyle::Space => ' ',
    }
}

/// Glyphs for vertical lines.
#[derive(Debug, Clone, Copy, PartialEq, Eq, Structural)]
pub enum VerticalLineStyle {
    Light,
    Heavy,
    Double,
    LightTripleDash,
    HeavyTripleDash,
    LightQuadrupleDash,
    HeavyQuadrupleDash,
    Dotted,
    LightDoubleDash,
    HeavyDoubleDash,
    Space,
}

pub open spec fn vertical_glyph(style: VerticalLineStyle) -> char {
    match style {
        VerticalLineStyle::Light => '│',
        VerticalLineStyle::Heavy => '┃',
        VerticalLineStyle::Double => '║',
        VerticalLineStyle::LightTripleDash => '┆',
        VerticalLineStyle::HeavyTripleDash => '┇',
        VerticalLineStyle::LightQuadrupleDash => '┊',
        VerticalLineStyle::HeavyQuadrupleDash => '┋',
        VerticalLineStyle::Dotted => '·',
        VerticalLineStyle::LightDoubleDash => '╎',
        VerticalLineStyle::HeavyDoubleDash => '╏',
        VerticalLineStyle::Space => ' ',
    }
}

/// The glyph of a vertical line style.
pub fn get_vertical_line_char(style: &VerticalLineStyle) -> (r: char)
    ensures
        r == vertical_glyph(*style),
{
    match style {
        VerticalLineStyle::Light => '│',
        VerticalLineStyle::Heavy => '┃',
        VerticalLineStyle::Double => '║',
        VerticalLineStyle::LightTripleDash => '┆',
        VerticalLineStyle::HeavyTripleDash => '┇',
        VerticalLineStyle::LightQuadrupleDash => '┊',
        VerticalLineStyle::HeavyQuadrupleDash => '┋',
        VerticalLineStyle::Dotted => '·',
        VerticalLineStyle::LightDoubleDash => '╎',
        VerticalLineStyle::HeavyDoubleDash => '╏',
        VerticalLineStyle::Space => ' ',
    }
}

/// Glyphs for diagonal lines.
#[derive(Debug, Clone, Copy, PartialEq, Eq, Structural)]
pub enum DiagonalLineStyle {
    /// U+2571 `╱`
    ForwardDiagonal,
    /// U+2572 `╲`
    BackwardDiagonal,
    ForwardSlash,
    BackwardSlash,
    Space,
}

pub open spec fn diagonal_glyph(style: DiagonalLineStyle) -> char {
    match style {
        DiagonalLineStyle::ForwardDiagonal => '╱',
        DiagonalLineStyle::BackwardDiagonal => '╲',
        DiagonalLineStyle::ForwardSlash => '/',
        DiagonalLineStyle::BackwardSlash => '\\',
        DiagonalLineStyle::Space => ' ',
    }
}

/// The glyph of a diagonal line style.
pub fn get_diagonal_line_char(style: &DiagonalLineStyle) -> (r: char)
    ensures
        r == diagonal_glyph(*style),
{
    match style {
        DiagonalLineStyle::ForwardDiagonal => '╱',
        DiagonalLineStyle::BackwardDiagonal => '╲',
        DiagonalLineStyle::ForwardSlash => '/',
        DiagonalLineStyle::BackwardSlash => '\\',
        DiagonalLineStyle::Space => ' ',
    }
}

/// `n` cells of `glyph` in column `x`, from row `y` downwards.
pub open spec fn column_run(x: int, y: int, n: nat, glyph: char) -> Seq<Cell> {
    Seq::new(n, |i: int| Cell { x: x as u16, y: (y + i) as u16, glyph })
}

/// Writes a run of cells down column `x` from row `y`, each with its own
/// cursor move.
pub(crate) fn plot_column(term: &mut Terminal, x: u16, y: u16, n: u16, glyph: char)
    requires
        y + n <= u16::MAX,
    ensures
        old(term).sends(final(term), render(column_run(x as int, y as int, n as nat, glyph))),
{
    let ghost before = term.output();
    let ghost run = column_run(x as int, y as int, n as nat, glyph);
    let mut i: u16 = 0;
    while i < n
        invariant
            i <= n,
            y + n <= u16::MAX,
            run == column_run(x as int, y as int, n as nat, glyph),
            term.width() == old(term).width(),
            term.height() == old(term).height(),
            term.output() == before + render(run.take(i as int)),
        decreases n - i,
    {
        let c = Cell { x, y: y + i, glyph };
        term.plot(c);
        proof {
            assert(run[i as int] == c);
            crate::canvas::lemma_render_push(run.take(i as int), c);
            assert(run.take(i as int).push(c) =~= run.take(i + 1));
        }
        i = i + 1;
    }
    assert(run.take(n as int) =~= run);
}

/// Draws `size` cells of a horizontal style rightwards from (x, y): one
/// cursor move to (x, y), then the glyphs.
///
/// Refused, with nothing drawn, when x or y is 0, when x or y is not below
/// the viewport's width or height, or when the run would pass the right
/// edge.
pub fn horizontal_line(term: &mut Terminal, x: u16, y: u16, size: usize, style: HorizontalLineStyle) -> (r: Result<(), TermError>)
    ensures
        r is Ok <==> 1 <= x < old(term).width() && 1 <= y < old(term).height() && x + size <= old(term).width(),
        r is Ok ==> old(term).sends(final(term), run_seq(x as int, y as int, size as nat, horizontal_glyph(style))),
        r is Err ==> r == Err::<(), TermError>(TermError::Boundary) && *final(term) == *old(term),
{
    let (width, height) = get_viewport(term);
    if x < 1 || y < 1 || x >= width || y >= height {
        return Err(TermError::Boundary);
    }
    if size > (width - x) as usize {
        return Err(TermError::Boundary);
    }
    let line_char = get_horizontal_line_char(&style);
    term.send_run(x, y, size, line_char);
    Ok(())
}

/// Draws `size` cells of a vertical style downwards from (x, y), each with
/// its own cursor move.
///
/// Refused, with nothing drawn, when x or y is 0, when x or y is not below
/// the viewport's width or height, or when the run would pass the bottom
/// edge.
pub fn vertical_line(term: &mut Terminal, x: u16, y: u16, size: usize, style: VerticalLineStyle) -> (r: Result<(), TermError>)
    ensures
        r is Ok <==> 1 <= x < old(term).width() && 1 <= y < old(term).height() && y + size <= old(term).height(),
        r is Ok ==> old(term).sends(final(term), render(column_run(x as int, y as int, size as nat, vertical_glyph(style)))),
        r is Err ==> r == Err::<(), TermError>(TermError::Boundary) && *final(term) == *old(term),
{
    let (width, height) = get_viewport(term);
    if x < 1 || y < 1 || x >= width || y >= height {
        return Err(TermError::Boundary);
    }
    if size > (height - y) as usize {
        return Err(TermError::Boundary);
    }
    let line_char = get_vertical_line_char(&style);
    plot_column(term, x, y, size as u16, line_char);
    Ok(())
}

/// The eight compass directions. Rows grow downwards, so North steps to the
/// row above.
#[derive(Debug, Clone, Copy, PartialEq, Eq, Structural)]
pub enum Direction {
    North,
    South,
    East,
    West,
    NorthEast,
    NorthWest,
    SouthEast,
    SouthWest,
}

/// Whether a direction is one of the four diagonals.
pub open spec fn is_diagonal(d: Direction) -> bool {
    d is NorthEast || d is NorthWest || d is SouthEast || d is SouthWest
}

/// The `i`-th position of a run drawn by [`diagonal_line`] from (x, y).
pub open spec fn diagonal_run_point(x: int, y: int, i: int, d: Direction) -> (int, int) {
    match d {
        Direction::NorthEast => (x - i, y - i),
        Direction::NorthWest => (x + i, y - i),
        _ => (x + i, y + i),
    }
}

/// The glyph that [`diagonal_line`] draws for a direction.
pub open spec fn diagonal_run_glyph(d: Direction) -> char {
    match d {
        Direction::NorthWest => diagonal_glyph(DiagonalLineStyle::ForwardDiagonal),
        _ => diagonal_glyph(DiagonalLineStyle::BackwardDiagonal),
    }
}

/// Whether the `i`-th position of a diagonal run lies in a `width` by
/// `height` viewport.
pub open spec fn diagonal_run_fits(x: int, y: int, i: int, d: Direction, width: int, height: int) -> bool {
    let p = diagonal_run_point(x, y, i, d);
    in_viewport(p.0, p.1, width, height)
}

/// Whether a diagonal run of `size` cells stops after `n` cells: the first
/// `n` fit, and the next one, if the run goes on, does not.
pub open spec fn diagonal_run_stops_at(x: int, y: int, size: int, d: Direction, width: int, height: int, n: int) -> bool {
    &&& 0 <= n <= size
    &&& forall|i: int| 0 <= i < n ==> diagonal_run_fits(x, y, i, d, width, height)
    &&& n < size ==> !diagonal_run_fits(x, y, n, d, width, height)
}

/// The first `n` cells of a diagonal run.
pub open spec fn diagonal_run(x: int, y: int, n: nat, d: Direction) -> Seq<Cell> {
    Seq::new(
        n,
        |i: int|
            Cell {
                x: diagonal_run_point(x, y, i, d).0 as u16,
                y: diagonal_run_point(x, y, i, d).1 as u16,
                glyph: diagonal_run_glyph(d),
            },
    )
}

/// Draws `size` cells diagonally from (x, y): NorthEast goes up and left,
/// NorthWest up and right, SouthEast and SouthWest down and right. A cardinal
/// direction draws nothing.
///
/// Refused, with nothing drawn, when (x, y) is not a position of the
/// viewport. The run stops at the first cell outside the viewport, and is
/// then refused with the cells before it drawn.
pub fn diagonal_line(term: &mut Terminal, x: u16, y: u16, size: usize, direction: Direction) -> (r: Result<(), TermError>)
    ensures
        r is Ok <==> in_viewport(x as int, y as int, old(term).width() as int, old(term).height() as int) && (is_diagonal(direction)
            ==> forall|i: int| 0 <= i < size ==> diagonal_run_fits(
            x as int,
            y as int,
            i,
            direction,
            old(term).width() as int,
            old(term).height() as int,
        )),
        r is Err ==> r == Err::<(), TermError>(TermError::Boundary),
        (!in_viewport(x as int, y as int, old(term).width() as int, old(term).height() as int) || !is_diagonal(direction))
            ==> *final(term) == *old(term),
        (in_viewport(x as int, y as int, old(term).width() as int, old(term).height() as int) && is_diagonal(direction))
            ==> exists|n: int|
            diagonal_run_stops_at(x as int, y as int, size as int, direction, old(term).width() as int, old(term).height() as int, n)
            && old(term).sends(final(term), #[trigger] render(diagonal_run(x as int, y as int, n as nat, direction))),
{
    let (width, height) = get_viewport(term);
    if x < 1 || x > width || y < 1 || y > height {
        return Err(TermError::Boundary);
    }
    if !(matches!(direction, Direction::NorthEast) || matches!(direction, Direction::NorthWest)
        || matches!(direction, Direction::SouthEast) || matches!(direction, Direction::SouthWest)) {
        return Ok(());
    }
    let line_char = match direction {
        Direction::NorthWest => get_diagonal_line_char(&DiagonalLineStyle::ForwardDiagonal),
        _ => get_diagonal_line_char(&DiagonalLineStyle::BackwardDiagonal),
    };
    let ghost before = term.output();
    let ghost (w, h) = (width as int, height as int);
    let ghost run = diagonal_run(x as int, y as int, size as nat, direction);
    let mut i: usize = 0;
    while i < size
        invariant
            i <= size,
            w == old(term).width(),
            h == old(term).height(),
            w == width,
            h == height,
            is_diagonal(direction),
            in_viewport(x as int, y as int, w, h),
            before == old(term).output(),
            line_char == diagonal_run_glyph(direction),
            run == diagonal_run(x as int, y as int, size as nat, direction),
            forall|j: int| 0 <= j < i ==> diagonal_run_fits(x as int, y as int, j, direction, w, h),
            term.width() == old(term).width(),
            term.height() == old(term).height(),
            term.output() == before + render(diagonal_run(x as int, y as int, i as nat, direction)),
        decreases size - i,
    {
        proof {
            if i > 0 {
                assert(diagonal_run_fits(x as int, y as int, i - 1, direction, w, h));
            }
        }
        let step = i as i64;
        let (nx, ny) = match direction {
            Direction::NorthEast => (x as i64 - step, y as i64 - step),
            Direction::NorthWest => (x as i64 + step, y as i64 - step),
            _ => (x as i64 + step, y as i64 + step),
        };
        if nx < 1 || nx > width as i64 || ny < 1 || ny > height as i64 {
            proof {
                assert(!diagonal_run_fits(x as int, y as int, i as int, direction, w, h));
                let n = i as int;
                assert(diagonal_run_stops_at(x as int, y as int, size as int, direction, w, h, n));
                assert(old(term).sends(&*term, render(diagonal_run(x as int, y as int, n as nat, direction))));
            }
            return Err(TermError::Boundary);
        }
        let c = Cell { x: nx as u16, y: ny as u16, glyph: line_char };
        term.plot(c);
        proof {
            let prev = diagonal_run(x as int, y as int, i as nat, direction);
            crate::canvas::lemma_render_push(prev, c);
            assert(prev.push(c) =~= diagonal_run(x as int, y as int, (i + 1) as nat, direction));
        }
        i = i + 1;
    }
    proof {
        let n = size as int;
        assert(diagonal_run_stops_at(x as int, y as int, size as int, direction, w, h, n));
        assert(old(term).sends(&*term, render(diagonal_run(x as int, y as int, n as nat, direction))));
    }
    Ok(())
}

/// The marker drawn at an end of a line.
#[derive(Debug, Clone, Copy, PartialEq, Eq, Structural)]
pub enum VerticeStyle {
    Star(StarSymbol),
    Circle(CircleSymbol),
    Space,
}

pub open spec fn vertice_glyph(v: VerticeStyle) -> char {
    match v {
        VerticeStyle::Star(s) => star_glyph(s),
        VerticeStyle::Circle(c) => circle_glyph(c),
        VerticeStyle::Space => ' ',
    }
}

/// The glyph of an end marker.
pub fn get_vertice(v: &VerticeStyle) -> (r: char)
    ensures
        r == vertice_glyph(*v),
{
    match v {
        VerticeStyle::Star(s) => star_symbol_to_char(*s),
        VerticeStyle::Circle(c) => circle_symbol_to_char(*c),
        VerticeStyle::Space => ' ',
    }
}

/// How a line looks: the glyphs of its straight parts, and the markers
/// substituted at its two ends.
#[derive(Debug, Clone, Copy, PartialEq, Eq, Structural)]
pub struct LineStyle {
    /// Glyph for East and West lines.
    pub hs: HorizontalLineStyle,
    /// Glyph for North and South lines.
    pub vs: VerticalLineStyle,
    /// Whether diagonal rendering is enabled (kept for callers; drawing does not read it).
    pub ds: bool,
    /// Marker at the first cell.
    pub ss: VerticeStyle,
    /// Marker at the last cell.
    pub es: VerticeStyle,
    /// Whether the first cell shows the start marker.
    pub enabless: bool,
    /// Whether the last cell shows the end marker.
    pub enablees: bool,
}

/// A line of `size` cells that starts at (x, y) and steps in `direction`.
/// Its fields may be changed freely between draws; each draw reads them anew.
#[derive(Debug, Clone, Copy, PartialEq, Eq, Structural)]
pub struct Line {
    pub x: u16,
    pub y: u16,
    pub size: usize,
    pub style: LineStyle,
    pub direction: Direction,
}

/// Column step of a direction.
pub open spec fn step_x(d: Direction) -> int {
    match d {
        Direction::East | Direction::NorthEast | Direction::SouthEast => 1,
        Direction::West | Direction::NorthWest | Direction::SouthWest => -1,
        _ => 0,
    }
}

/// Row step of a direction.
pub open spec fn step_y(d: Direction) -> int {
    match d {
        Direction::South | Direction::SouthEast | Direction::SouthWest => 1,
        Direction::North | Direction::NorthEast | Direction::NorthWest => -1,
        _ => 0,
    }
}

/// Whether (x, y) lies in a `width` by `height` viewport.
pub open spec fn on_screen(p: (int, int), width: int, height: int) -> bool {
    1 <= p.0 <= width && 1 <= p.1 <= height
}

/// Whether `p` lies outside the viewport on a side that stepping in `d`
/// only moves further from.
pub open spec fn left_behind(p: (int, int), d: Direction, width: int, height: int) -> bool {
    ||| p.0 < 1 && step_x(d) <= 0
    ||| p.0 > width && step_x(d) >= 0
    ||| p.1 < 1 && step_y(d) <= 0
    ||| p.1 > height && step_y(d) >= 0
}

impl Line {
    /// The position of the `i`-th cell.
    pub open spec fn point(self, i: int) -> (int, int) {
        let (x, y) = (self.x as int, self.y as int);
        match self.direction {
            Direction::North => (x, y - i),
            Direction::South => (x, y + i),
            Direction::East => (x + i, y),
            Direction::West => (x - i, y),
            Direction::NorthEast => (x + i, y - i),
            Direction::NorthWest => (x - i, y - i),
            Direction::SouthEast => (x + i, y + i),
            Direction::SouthWest => (x - i, y + i),
        }
    }

    /// Each step moves by the direction's column and row steps.
    pub proof fn lemma_point_steps(self, i: int, k: int)
        ensures
            self.point(i + k) == (self.point(i).0 + k * step_x(self.direction), self.point(i).1 + k * step_y(self.direction)),
    {
    }

    /// The glyph of the line's body. Diagonals use one fixed glyph each:
    /// NorthWest `╱`, and NorthEast, SouthEast and SouthWest alike `╲`, so
    /// that only SouthEast slants the way it steps;
    /// [`Line::geometric_stroke`] slants every diagonal its own way.
    pub open spec fn stroke(self) -> char {
        match self.direction {
            Direction::East | Direction::West => horizontal_glyph(self.style.hs),
            Direction::North | Direction::South => vertical_glyph(self.style.vs),
            Direction::NorthWest => diagonal_glyph(DiagonalLineStyle::ForwardDiagonal),
            _ => diagonal_glyph(DiagonalLineStyle::BackwardDiagonal),
        }
    }

    /// The glyph of the `i`-th cell when the line is shown (`visible`) with
    /// body glyph `stroke`, or erased: an erased line is all blanks; a shown
    /// one has its enabled end markers on the first and last cells, the start
    /// marker winning when they are the same cell.
    pub open spec fn glyph_at(self, i: int, visible: bool, stroke: char) -> char {
        if !visible {
            ' '
        } else if i == 0 && self.style.enabless {
            vertice_glyph(self.style.ss)
        } else if i == self.size - 1 && self.style.enablees {
            vertice_glyph(self.style.es)
        } else {
            stroke
        }
    }

    /// The cells drawn for the first `n` steps with body glyph `stroke`: a
    /// step outside the viewport is skipped.
    pub open spec fn cells_upto(self, stroke: char, visible: bool, width: int, height: int, n: nat) -> Seq<Cell>
        decreases n,
    {
        if n == 0 {
            Seq::empty()
        } else {
            let prev = self.cells_upto(stroke, visible, width, height, (n - 1) as nat);
            let p = self.point(n - 1);
            if on_screen(p, width, height) {
                prev.push(Cell { x: p.0 as u16, y: p.1 as u16, glyph: self.glyph_at(n - 1, visible, stroke) })
            } else {
                prev
            }
        }
    }

    /// The cells drawn to show (`visible`) or erase the line.
    pub open spec fn cells(self, visible: bool, width: int, height: int) -> Seq<Cell> {
        self.cells_upto(self.stroke(), visible, width, height, self.size as nat)
    }

    /// The body glyph under the geometric mapping of diagonals: `╱` for
    /// NorthEast and SouthWest, `╲` for NorthWest and SouthEast.
    pub open spec fn geometric_stroke(self) -> char {
        match self.direction {
            Direction::NorthEast | Direction::SouthWest => diagonal_glyph(DiagonalLineStyle::ForwardDiagonal),
            Direction::NorthWest | Direction::SouthEast => diagonal_glyph(DiagonalLineStyle::BackwardDiagonal),
            _ => self.stroke(),
        }
    }

    /// The cells drawn to show (`visible`) or erase the line under the
    /// geometric mapping of diagonals.
    pub open spec fn geometric_cells(self, visible: bool, width: int, height: int) -> Seq<Cell> {
        self.cells_upto(self.geometric_stroke(), visible, width, height, self.size as nat)
    }

    /// Whether every step of the line lies in the viewport.
    pub open spec fn fits(self, width: int, height: int) -> bool {
        forall|i: int| 0 <= i < self.size ==> on_screen(#[trigger] self.point(i), width, height)
    }

    /// A line at (1, 1) of 10 cells going East, light glyphs, and a filled
    /// circle shown at both ends.
    pub fn new() -> (r: Line)
        ensures
            r.x == 1,
            r.y == 1,
            r.size == 10,
            r.direction == Direction::East,
            r.style == (LineStyle {
                hs: HorizontalLineStyle::Light,
                vs: VerticalLineStyle::Light,
                ds: true,
                ss: VerticeStyle::Circle(CircleSymbol::FilledCircle),
                es: VerticeStyle::Circle(CircleSymbol::FilledCircle),
                enabless: true,
                enablees: true,
            }),
    {
        Line {
            x: 1,
            y: 1,
            size: 10,
            style: LineStyle {
                hs: HorizontalLineStyle::Light,
                vs: VerticalLineStyle::Light,
                ds: true,
                ss: VerticeStyle::Circle(CircleSymbol::FilledCircle),
                es: VerticeStyle::Circle(CircleSymbol::FilledCircle),
                enabless: true,
                enablees: true,
            },
            direction: Direction::East,
        }
    }

    /// Draws the line (`show`) or erases it with blanks, one cell per step
    /// from its origin. Steps outside the viewport are skipped and make the
    /// result a boundary error; the cells inside are drawn either way.
    ///
    /// Diagonals take their body glyph from [`Line::stroke`]: `╱` for
    /// NorthWest, `╲` for the other three.
    pub fn draw(&self, term: &mut Terminal, show: bool) -> (r: Result<(), TermError>)
        ensures
            old(term).sends(final(term), render(self.cells(show, old(term).width() as int, old(term).height() as int))),
            r is Ok <==> self.fits(old(term).width() as int, old(term).height() as int),
            r is Err ==> r == Err::<(), TermError>(TermError::Boundary),
    {
        let stroke = match self.direction {
            Direction::East | Direction::West => get_horizontal_line_char(&self.style.hs),
            Direction::North | Direction::South => get_vertical_line_char(&self.style.vs),
            Direction::NorthWest => get_diagonal_line_char(&DiagonalLineStyle::ForwardDiagonal),
            _ => get_diagonal_line_char(&DiagonalLineStyle::BackwardDiagonal),
        };
        self.trace(term, show, stroke)
    }

    /// Like [`Line::draw`], but with the geometric mapping of diagonals:
    /// `╱` for NorthEast and SouthWest, `╲` for NorthWest and SouthEast.
    pub fn draw_geometric(&self, term: &mut Terminal, show: bool) -> (r: Result<(), TermError>)
        ensures
            old(term).sends(final(term), render(self.geometric_cells(show, old(term).width() as int, old(term).height() as int))),
            r is Ok <==> self.fits(old(term).width() as int, old(term).height() as int),
            r is Err ==> r == Err::<(), TermError>(TermError::Boundary),
    {
        let stroke = match self.direction {
            Direction::East | Direction::West => get_horizontal_line_char(&self.style.hs),
            Direction::North | Direction::South => get_vertical_line_char(&self.style.vs),
            Direction::NorthEast | Direction::SouthWest => get_diagonal_line_char(&DiagonalLineStyle::ForwardDiagonal),
            Direction::NorthWest | Direction::SouthEast => get_diagonal_line_char(&DiagonalLineStyle::BackwardDiagonal),
        };
        self.trace(term, show, stroke)
    }

    /// Steps along the line, writing the cells inside the viewport with body
    /// glyph `stroke`.
    fn trace(&self, term: &mut Terminal, show: bool, stroke: char) -> (r: Result<(), TermError>)
        ensures
            old(term).sends(final(term), render(self.cells_upto(stroke, show, old(term).width() as int, old(term).height() as int, self.size as nat))),
            r is Ok <==> self.fits(old(term).width() as int, old(term).height() as int),
            r is Err ==> r == Err::<(), TermError>(TermError::Boundary),
    {
        let (width, height) = get_viewport(term);
        let ghost (w, h) = (width as int, height as int);
        let ghost before = term.output();
        let (dx, dy): (i64, i64) = match self.direction {
            Direction::North => (0, -1),
            Direction::South => (0, 1),
            Direction::East => (1, 0),
            Direction::West => (-1, 0),
            Direction::NorthEast => (1, -1),
            Direction::NorthWest => (-1, -1),
            Direction::SouthEast => (1, 1),
            Direction::SouthWest => (-1, 1),
        };
        let mut cx: i64 = self.x as i64;
        let mut cy: i64 = self.y as i64;
        let mut clipped = false;
        let mut i: usize = 0;
        while i < self.size
            invariant_except_break
                cx == self.point(i as int).0,
                cy == self.point(i as int).1,
                -1 <= cx <= 65536,
                -1 <= cy <= 65536,
                clipped <==> exists|j: int| 0 <= j < i && !on_screen(#[trigger] self.point(j), w, h),
                term.output() == before + render(self.cells_upto(stroke, show, w, h, i as nat)),
            invariant
                i <= self.size,
                w == width,
                h == height,
                w == old(term).width(),
                h == old(term).height(),
                before == old(term).output(),
                dx == step_x(self.direction),
                dy == step_y(self.direction),
                term.width() == old(term).width(),
                term.height() == old(term).height(),
            ensures
                term.output() == before + render(self.cells_upto(stroke, show, w, h, self.size as nat)),
                clipped <==> !self.fits(w, h),
            decreases self.size - i,
        {
            let p = Ghost(self.point(i as int));
            if 1 <= cx && cx <= width as i64 && 1 <= cy && cy <= height as i64 {
                let glyph = if !show {
                    ' '
                } else if i == 0 && self.style.enabless {
                    get_vertice(&self.style.ss)
                } else if i == self.size - 1 && self.style.enablees {
                    get_vertice(&self.style.es)
                } else {
                    stroke
                };
                let c = Cell { x: cx as u16, y: cy as u16, glyph };
                term.plot(c);
                proof {
                    crate::canvas::lemma_render_push(self.cells_upto(stroke, show, w, h, i as nat), c);
                }
            } else {
                clipped = true;
            }
            proof {
                self.lemma_point_steps(i as int, 1);
                assert(self.cells_upto(stroke, show, w, h, (i + 1) as nat) == (if on_screen(p@, w, h) {
                    self.cells_upto(stroke, show, w, h, i as nat).push(
                        Cell { x: p@.0 as u16, y: p@.1 as u16, glyph: self.glyph_at(i as int, show, stroke) },
                    )
                } else {
                    self.cells_upto(stroke, show, w, h, i as nat)
                }));
            }
            if (cx < 1 && dx <= 0) || (cx > width as i64 && dx >= 0) || (cy < 1 && dy <= 0) || (cy > height as i64 && dy >= 0) {
                proof {
                    self.lemma_left_behind(stroke, show, w, h, (i + 1) as nat, self.size as nat);
                    assert(!self.fits(w, h));
                }
                clipped = true;
                break;
            }
            cx = cx + dx;
            cy = cy + dy;
            i = i + 1;
        }
        if clipped {
            Err(TermError::Boundary)
        } else {
            Ok(())
        }
    }

    /// Once a step is left behind, no later step is drawn.
    proof fn lemma_left_behind(self, stroke: char, visible: bool, width: int, height: int, k: nat, n: nat)
        requires
            1 <= k <= n,
            left_behind(self.point(k - 1), self.direction, width, height),
        ensures
            self.cells_upto(stroke, visible, width, height, n) == self.cells_upto(stroke, visible, width, height, k),
            forall|i: int| k - 1 <= i < n ==> !on_screen(#[trigger] self.point(i), width, height),
        decreases n - k,
    {
        if n > k {
            self.lemma_left_behind(stroke, visible, width, height, k, (n - 1) as nat);
            self.lemma_point_steps(k - 1, n - k);
            assert(!on_screen(self.point(n - 1), width, height));
        }
    }
}

/// Something that can be drawn on a terminal, erased again, and moved.
pub trait Shape: Sized {
    /// The cells written to show (`visible`) or erase the shape on a
    /// `width` by `height` viewport.
    spec fn drawing(&self, visible: bool, width: int, height: int) -> Seq<Cell>;

    /// Whether the whole shape lies in the viewport.
    spec fn inside(&self, width: int, height: int) -> bool;

    /// The shape with its origin at (x, y).
    spec fn placed(&self, x: u16, y: u16) -> Self;

    /// Draws the shape; a boundary error reports parts left out.
    fn show(&self, term: &mut Terminal) -> (r: Result<(), TermError>)
        ensures
            old(term).sends(final(term), render(self.drawing(true, old(term).width() as int, old(term).height() as int))),
            r is Ok <==> self.inside(old(term).width() as int, old(term).height() as int),
            r is Err ==> r == Err::<(), TermError>(TermError::Boundary),
    ;

    /// Writes blanks over the cells that showing the shape writes.
    fn erase(&self, term: &mut Terminal) -> (r: Result<(), TermError>)
        ensures
            old(term).sends(final(term), render(self.drawing(false, old(term).width() as int, old(term).height() as int))),
            r is Ok <==> self.inside(old(term).width() as int, old(term).height() as int),
            r is Err ==> r == Err::<(), TermError>(TermError::Boundary),
    ;

    /// Moves the origin to (x, y) without drawing.
    fn move_to(&mut self, x: u16, y: u16)
        ensures
            *final(self) == old(self).placed(x, y),
    ;
}

impl Shape for Line {
    open spec fn drawing(&self, visible: bool, width: int, height: int) -> Seq<Cell> {
        self.cells(visible, width, height)
    }

    open spec fn inside(&self, width: int, height: int) -> bool {
        self.fits(width, height)
    }

    open spec fn placed(&self, x: u16, y: u16) -> Line {
        Line { x, y, ..*self }
    }

    fn show(&self, term: &mut Terminal) -> (r: Result<(), TermError>) {
        self.draw(term, true)
    }

    fn erase(&self, term: &mut Terminal) -> (r: Result<(), TermError>) {
        self.draw(term, false)
    }

    fn move_to(&mut self, x: u16, y: u16) {
        self.x = x;
        self.y = y;
    }
}

impl Line {
    /// Erasing writes blanks at exactly the positions that showing writes,
    /// in the same order.
    pub proof fn lemma_erase_matches_show(self, stroke: char, width: int, height: int, n: nat)
        ensures
            self.cells_upto(stroke, false, width, height, n).len() == self.cells_upto(stroke, true, width, height, n).len(),
            forall|i: int| 0 <= i < self.cells_upto(stroke, false, width, height, n).len() ==> {
                &&& #[trigger] self.cells_upto(stroke, false, width, height, n)[i].pos()
                    == self.cells_upto(stroke, true, width, height, n)[i].pos()
                &&& self.cells_upto(stroke, false, width, height, n)[i].glyph == ' '
            },
        decreases n,
    {
        if n > 0 {
            self.lemma_erase_matches_show(stroke, width, height, (n - 1) as nat);
        }
    }
}

/// Showing a line and then erasing it leaves the screen looking as it did
/// before, wherever the cells the line covers were blank: erasing writes a
/// blank at every cell that showing wrote, and nowhere else.
pub proof fn lemma_erase_undoes_show(line: Line, width: int, height: int, screen: Map<(int, int), char>)
    requires
        forall|i: int| 0 <= i < line.cells(true, width, height).len()
            ==> glyph_at(screen, #[trigger] line.cells(true, width, height)[i].pos()) == ' ',
    ensures
        forall|p: (int, int)| #[trigger] glyph_at(paint(paint(screen, line.cells(true, width, height)), line.cells(false, width, height)), p)
            == glyph_at(screen, p),
{
    let shown = line.cells(true, width, height);
    let erased = line.cells(false, width, height);
    line.lemma_erase_matches_show(line.stroke(), width, height, line.size as nat);
    assert forall|p: (int, int)| #[trigger] glyph_at(paint(paint(screen, shown), erased), p) == glyph_at(screen, p) by {
        if covers(erased, p) {
            let i = choose|i: int| 0 <= i < erased.len() && #[trigger] erased[i].pos() == p;
            assert(shown[i].pos() == p);
            assert forall|j: int| 0 <= j < erased.len() implies #[trigger] erased[j].glyph == ' ' by {
                assert(erased[j].pos() == shown[j].pos());
            }
            lemma_paint_blank(paint(screen, shown), erased, p);
        } else {
            assert(!covers(shown, p)) by {
                if covers(shown, p) {
                    let i = choose|i: int| 0 <= i < shown.len() && #[trigger] shown[i].pos() == p;
                    assert(erased[i].pos() == p);
                }
            }
            lemma_paint_uncovered(paint(screen, shown), erased, p);
            lemma_paint_uncovered(screen, shown, p);
        }
    }
}

} // verus!
