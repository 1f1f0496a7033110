//! Cells and how they reach the screen.
//!
//! A drawing is a sequence of cells: a glyph at a 1-based (column, row)
//! position. Each cell is sent as a cursor move followed by the glyph, and the
//! screen that results is modelled as a map from positions to glyphs. A run
//! along a row is sent as one cursor move followed by its glyphs.
use vstd::prelude::*;

verus! {

/// A glyph at a position: `x` is the column, `y` the row, both 1-based.
#[derive(Debug, Clone, Copy, PartialEq, Eq, Structural)]
pub struct Cell {
    pub x: u16,
    pub y: u16,
    pub glyph: char,
}

impl Cell {
    pub open spec fn pos(self) -> (int, int) {
        (self.x as int, self.y as int)
    }
}

/// The ASCII digit for `d` (below ten).
pub open spec fn digit_char(d: nat) -> char {
    if d == 0 { '0' }
    else if d == 1 { '1' }
    else if d == 2 { '2' }
    else if d == 3 { '3' }
    else if d == 4 { '4' }
    else if d == 5 { '5' }
    else if d == 6 { '6' }
    else if d == 7 { '7' }
    else if d == 8 { '8' }
    else { '9' }
}

/// The decimal notation of `n`, without leading zeros.
pub open spec fn decimal(n: nat) -> Seq<char>
    decreases n,
{
    if n < 10 {
        seq![digit_char(n)]
    } else {
        decimal(n / 10).push(digit_char(n % 10))
    }
}

/// `ESC [ row ; column H`: moves the cursor to column `x` of row `y`.
pub open spec fn cursor_seq(x: nat, y: nat) -> Seq<char> {
    seq!['\x1b', '['] + decimal(y) + seq![';'] + decimal(x) + seq!['H']
}

/// `n` copies of `glyph`.
pub open spec fn repeat(glyph: char, n: nat) -> Seq<char> {
    Seq::new(n, |_i: int| glyph)
}

/// What is sent for a run along a row: one cursor move to column `x` of row
/// `y`, then `n` copies of `glyph`. The terminal writes each glyph one column
/// to the right of the one before, so the run covers columns `x` to
/// `x + n - 1` of row `y`.
pub open spec fn run_seq(x: int, y: int, n: nat, glyph: char) -> Seq<char> {
    cursor_seq(x as nat, y as nat) + repeat(glyph, n)
}

/// What is sent for one cell: the cursor move, then the glyph.
pub open spec fn cell_seq(c: Cell) -> Seq<char> {
    cursor_seq(c.x as nat, c.y as nat).push(c.glyph)
}

/// What is sent for a sequence of cells, in order.
pub open spec fn render(cells: Seq<Cell>) -> Seq<char>
    decreases cells.len(),
{
    if cells.len() == 0 {
        Seq::empty()
    } else {
        render(cells.drop_last()) + cell_seq(cells.last())
    }
}

pub proof fn lemma_render_cells4(c0: Cell, c1: Cell, c2: Cell, c3: Cell)
    ensures
        render(seq![c0, c1, c2, c3]) == cell_seq(c0) + cell_seq(c1) + cell_seq(c2) + cell_seq(c3),
{
    let e = Seq::<Cell>::empty();
    lemma_render_push(e, c0);
    lemma_render_push(e.push(c0), c1);
    lemma_render_push(e.push(c0).push(c1), c2);
    lemma_render_push(e.push(c0).push(c1).push(c2), c3);
    assert(seq![c0, c1, c2, c3] =~= e.push(c0).push(c1).push(c2).push(c3));
    assert(render(e) + cell_seq(c0) =~= cell_seq(c0));
}

/// The screen after the cells are written over `screen`, in order: a later
/// cell at the same position replaces an earlier one.
pub open spec fn paint(screen: Map<(int, int), char>, cells: Seq<Cell>) -> Map<(int, int), char>
    decreases cells.len(),
{
    if cells.len() == 0 {
        screen
    } else {
        paint(screen, cells.drop_last()).insert(cells.last().pos(), cells.last().glyph)
    }
}

/// What is visible at `p`: a position never written to shows a blank.
pub open spec fn glyph_at(screen: Map<(int, int), char>, p: (int, int)) -> char {
    if screen.contains_key(p) {
        screen[p]
    } else {
        ' '
    }
}

/// Whether some cell of `cells` lies at `p`.
pub open spec fn covers(cells: Seq<Cell>, p: (int, int)) -> bool {
    exists|i: int| 0 <= i < cells.len() && #[trigger] cells[i].pos() == p
}

pub proof fn lemma_render_push(cells: Seq<Cell>, c: Cell)
    ensures
        render(cells.push(c)) == render(cells) + cell_seq(c),
{
    assert(cells.push(c).drop_last() =~= cells);
}

/// A position that no cell covers keeps what it showed.
pub proof fn lemma_paint_uncovered(screen: Map<(int, int), char>, cells: Seq<Cell>, p: (int, int))
    requires
        !covers(cells, p),
    ensures
        glyph_at(paint(screen, cells), p) == glyph_at(screen, p),
    decreases cells.len(),
{
    if cells.len() > 0 {
        let prev = cells.drop_last();
        assert(!covers(prev, p)) by {
            if covers(prev, p) {
                let i = choose|i: int| 0 <= i < prev.len() && #[trigger] prev[i].pos() == p;
                assert(cells[i] == prev[i]);
            }
        }
        assert(cells[cells.len() - 1] == cells.last());
        lemma_paint_uncovered(screen, prev, p);
    }
}

/// A position covered by cells that are all blanks shows a blank.
pub proof fn lemma_paint_blank(screen: Map<(int, int), char>, cells: Seq<Cell>, p: (int, int))
    requires
        covers(cells, p),
        forall|i: int| 0 <= i < cells.len() ==> #[trigger] cells[i].glyph == ' ',
    ensures
        glyph_at(paint(screen, cells), p) == ' ',
    decreases cells.len(),
{
    let prev = cells.drop_last();
    assert(cells[cells.len() - 1] == cells.last());
    if cells.last().pos() != p {
        let i = choose|i: int| 0 <= i < cells.len() && #[trigger] cells[i].pos() == p;
        assert(prev[i] == cells[i]);
        assert forall|j: int| 0 <= j < prev.len() implies #[trigger] prev[j].glyph == ' ' by {
            assert(prev[j] == cells[j]);
        }
        lemma_paint_blank(screen, prev, p);
    }
}

} // verus!
