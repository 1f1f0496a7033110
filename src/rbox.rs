//! Boxes and rectangles: glyph sets for box drawing, outlines composed of
//! four edges and four corners, and filled or cleared rectangles.
use vstd::prelude::*;

use crate::canvas::{render, run_seq, Cell};
use crate::error::TermError;
use crate::line::{column_run, plot_column};
use crate::terminal::{get_viewport, Terminal};

verus! {

/// Represents block characters for drawing.
#[derive(Debug, Clone, Copy, PartialEq, Eq, Structural)]
pub enum BlockChar {
    Full,
    UpperHalf,
    LowerHalf,
    LeftHalf,
    RightHalf,
    LightShade,
    MediumShade,
    DarkShade,
}

/// Represents different line styles for drawing lines.
#[derive(Debug, Clone, Copy, PartialEq, Eq, Structural)]
pub enum LineStyle {
    Solid,
    Dotted,
    Dashed,
    DoubleLine,
}

/// Represents shade styles for rectangles.
#[derive(Debug, Clone, Copy, PartialEq, Eq, Structural)]
pub enum ShadeStyle {
    Light,
    Medium,
    Dark,
    Solid,
}

pub open spec fn block_glyph(ch: BlockChar) -> char {
    match ch {
        BlockChar::Full => '█',
        BlockChar::UpperHalf => '▀',
        BlockChar::LowerHalf => '▄',
        BlockChar::LeftHalf => '▌',
        BlockChar::RightHalf => '▐',
        BlockChar::LightShade => '░',
        BlockChar::MediumShade => '▒',
        BlockChar::DarkShade => '▓',
    }
}

/// Converts BlockChar enum variant to corresponding character.
pub fn block_char_to_char(ch: BlockChar) -> (r: char)
    ensures
        r == block_glyph(ch),
{
    match ch {
        BlockChar::Full => '█',
        BlockChar::UpperHalf => '▀',
        BlockChar::LowerHalf => '▄',
        BlockChar::LeftHalf => '▌',
        BlockChar::RightHalf => '▐',
        BlockChar::LightShade => '░',
        BlockChar::MediumShade => '▒',
        BlockChar::DarkShade => '▓',
    }
}

/// Represents single line box characters.
#[derive(Debug, Clone, Copy, PartialEq, Eq, Structural)]
pub enum SingleBox {
    Horizontal,
    Vertical,
    TopLeft,
    TopRight,
    BottomLeft,
    BottomRight,
    VerticalLeft,
    VerticalRight,
    HorizontalDown,
    HorizontalUp,
    VerticalHorizontal,
}

/// Represents double line box characters.
#[derive(Debug, Clone, Copy, PartialEq, Eq, Structural)]
pub enum DoubleBox {
    Horizontal,
    Vertical,
    TopLeft,
    TopRight,
    BottomLeft,
    BottomRight,
    VerticalLeft,
    VerticalRight,
    HorizontalDown,
    HorizontalUp,
    VerticalHorizontal,
}

/// Represents single line rounded box characters.
#[derive(Debug, Clone, Copy, PartialEq, Eq, Structural)]
pub enum SingleRoundedBox {
    Horizontal,
    Vertical,
    TopLeft,
    TopRight,
    BottomLeft,
    BottomRight,
    VerticalLeft,
    VerticalRight,
    HorizontalDown,
    HorizontalUp,
    VerticalHorizontal,
}

/// Represents double line rounded box characters.
#[derive(Debug, Clone, Copy, PartialEq, Eq, Structural)]
pub enum DoubleRoundedBox {
    Horizontal,
    Vertical,
    TopLeft,
    TopRight,
    BottomLeft,
    BottomRight,
    VerticalLeft,
    VerticalRight,
    HorizontalDown,
    HorizontalUp,
    VerticalHorizontal,
}

pub open spec fn single_box_glyph(ch: SingleBox) -> char {
    match ch {
        SingleBox::Horizontal => '─',
        SingleBox::Vertical => '│',
        SingleBox::TopLeft => '┌',
        SingleBox::TopRight => '┐',
        SingleBox::BottomLeft => '└',
        SingleBox::BottomRight => '┘',
        SingleBox::VerticalLeft => '├',
        SingleBox::VerticalRight => '┤',
        SingleBox::HorizontalDown => '┬',
        SingleBox::HorizontalUp => '┴',
        SingleBox::VerticalHorizontal => '┼',
    }
}

/// Converts SingleBox enum variant to corresponding character.
pub fn single_box_to_char(ch: SingleBox) -> (r: char)
    ensures
        r == single_box_glyph(ch),
{
    match ch {
        SingleBox::Horizontal => '─',
        SingleBox::Vertical => '│',
        SingleBox::TopLeft => '┌',
        SingleBox::TopRight => '┐',
        SingleBox::BottomLeft => '└',
        SingleBox::BottomRight => '┘',
        SingleBox::VerticalLeft => '├',
        SingleBox::VerticalRight => '┤',
        SingleBox::HorizontalDown => '┬',
        SingleBox::HorizontalUp => '┴',
        SingleBox::VerticalHorizontal => '┼',
    }
}

/// The single line part at a place of the list of part names.
pub open spec fn single_box_part(k: int) -> SingleBox {
    if k == 0 {
        SingleBox::Horizontal
    } else if k == 1 {
        SingleBox::Vertical
    } else if k == 2 {
        SingleBox::TopLeft
    } else if k == 3 {
        SingleBox::TopRight
    } else if k == 4 {
        SingleBox::BottomLeft
    } else if k == 5 {
        SingleBox::BottomRight
    } else if k == 6 {
        SingleBox::VerticalLeft
    } else if k == 7 {
        SingleBox::VerticalRight
    } else if k == 8 {
        SingleBox::HorizontalDown
    } else if k == 9 {
        SingleBox::HorizontalUp
    } else {
        SingleBox::VerticalHorizontal
    }
}

pub open spec fn double_box_glyph(ch: DoubleBox) -> char {
    match ch {
        DoubleBox::Horizontal => '═',
        DoubleBox::Vertical => '║',
        DoubleBox::TopLeft => '╔',
        DoubleBox::TopRight => '╗',
        DoubleBox::BottomLeft => '╚',
        DoubleBox::BottomRight => '╝',
        DoubleBox::VerticalLeft => '╠',
        DoubleBox::VerticalRight => '╣',
        DoubleBox::HorizontalDown => '╦',
        DoubleBox::HorizontalUp => '╩',
        DoubleBox::VerticalHorizontal => '╬',
    }
}

/// Converts DoubleBox enum variant to corresponding character.
pub fn double_box_to_char(ch: DoubleBox) -> (r: char)
    ensures
        r == double_box_glyph(ch),
{
    match ch {
        DoubleBox::Horizontal => '═',
        DoubleBox::Vertical => '║',
        DoubleBox::TopLeft => '╔',
        DoubleBox::TopRight => '╗',
        DoubleBox::BottomLeft => '╚',
        DoubleBox::BottomRight => '╝',
        DoubleBox::VerticalLeft => '╠',
        DoubleBox::VerticalRight => '╣',
        DoubleBox::HorizontalDown => '╦',
        DoubleBox::HorizontalUp => '╩',
        DoubleBox::VerticalHorizontal => '╬',
    }
}

/// The double line part at a place of the list of part names.
pub open spec fn double_box_part(k: int) -> DoubleBox {
    if k == 0 {
        DoubleBox::Horizontal
    } else if k == 1 {
        DoubleBox::Vertical
    } else if k == 2 {
        DoubleBox::TopLeft
    } else if k == 3 {
        DoubleBox::TopRight
    } else if k == 4 {
        DoubleBox::BottomLeft
    } else if k == 5 {
        DoubleBox::BottomRight
    } else if k == 6 {
        DoubleBox::VerticalLeft
    } else if k == 7 {
        DoubleBox::VerticalRight
    } else if k == 8 {
        DoubleBox::HorizontalDown
    } else if k == 9 {
        DoubleBox::HorizontalUp
    } else {
        DoubleBox::VerticalHorizontal
    }
}

pub open spec fn single_rounded_box_glyph(ch: SingleRoundedBox) -> char {
    match ch {
        SingleRoundedBox::Horizontal => '─',
        SingleRoundedBox::Vertical => '│',
        SingleRoundedBox::TopLeft => '╭',
        SingleRoundedBox::TopRight => '╮',
        SingleRoundedBox::BottomLeft => '╰',
        SingleRoundedBox::BottomRight => '╯',
        SingleRoundedBox::VerticalLeft => '├',
        SingleRoundedBox::VerticalRight => '┤',
        SingleRoundedBox::HorizontalDown => '┬',
        SingleRoundedBox::HorizontalUp => '┴',
        SingleRoundedBox::VerticalHorizontal => '┼',
    }
}

/// Converts SingleRoundedBox enum variant to corresponding character.
pub fn single_rounded_box_to_char(ch: SingleRoundedBox) -> (r: char)
    ensures
        r == single_rounded_box_glyph(ch),
{
    match ch {
        SingleRoundedBox::Horizontal => '─',
        SingleRoundedBox::Vertical => '│',
        SingleRoundedBox::TopLeft => '╭',
        SingleRoundedBox::TopRight => '╮',
        SingleRoundedBox::BottomLeft => '╰',
        SingleRoundedBox::BottomRight => '╯',
        SingleRoundedBox::VerticalLeft => '├',
        SingleRoundedBox::VerticalRight => '┤',
        SingleRoundedBox::HorizontalDown => '┬',
        SingleRoundedBox::HorizontalUp => '┴',
        SingleRoundedBox::VerticalHorizontal => '┼',
    }
}

/// The single line rounded part at a place of the list of part names.
pub open spec fn single_rounded_box_part(k: int) -> SingleRoundedBox {
    if k == 0 {
        SingleRoundedBox::Horizontal
    } else if k == 1 {
        SingleRoundedBox::Vertical
    } else if k == 2 {
        SingleRoundedBox::TopLeft
    } else if k == 3 {
        SingleRoundedBox::TopRight
    } else if k == 4 {
        SingleRoundedBox::BottomLeft
    } else if k == 5 {
        SingleRoundedBox::BottomRight
    } else if k == 6 {
        SingleRoundedBox::VerticalLeft
    } else if k == 7 {
        SingleRoundedBox::VerticalRight
    } else if k == 8 {
        SingleRoundedBox::HorizontalDown
    } else if k == 9 {
        SingleRoundedBox::HorizontalUp
    } else {
        SingleRoundedBox::VerticalHorizontal
    }
}

pub open spec fn double_rounded_box_glyph(ch: DoubleRoundedBox) -> char {
    match ch {
        DoubleRoundedBox::Horizontal => '═',
        DoubleRoundedBox::Vertical => '║',
        DoubleRoundedBox::TopLeft => '╒',
        DoubleRoundedBox::TopRight => '╕',
        DoubleRoundedBox::BottomLeft => '╘',
        DoubleRoundedBox::BottomRight => '╛',
        DoubleRoundedBox::VerticalLeft => '╞',
        DoubleRoundedBox::VerticalRight => '╡',
        DoubleRoundedBox::HorizontalDown => '╤',
        DoubleRoundedBox::HorizontalUp => '╧',
        DoubleRoundedBox::VerticalHorizontal => '╪',
    }
}

/// Converts DoubleRoundedBox enum variant to corresponding character.
pub fn double_rounded_box_to_char(ch: DoubleRoundedBox) -> (r: char)
    ensures
        r == double_rounded_box_glyph(ch),
{
    match ch {
        DoubleRoundedBox::Horizontal => '═',
        DoubleRoundedBox::Vertical => '║',
        DoubleRoundedBox::TopLeft => '╒',
        DoubleRoundedBox::TopRight => '╕',
        DoubleRoundedBox::BottomLeft => '╘',
        DoubleRoundedBox::BottomRight => '╛',
        DoubleRoundedBox::VerticalLeft => '╞',
        DoubleRoundedBox::VerticalRight => '╡',
        DoubleRoundedBox::HorizontalDown => '╤',
        DoubleRoundedBox::HorizontalUp => '╧',
        DoubleRoundedBox::VerticalHorizontal => '╪',
    }
}

/// The double line rounded part at a place of the list of part names.
pub open spec fn double_rounded_box_part(k: int) -> DoubleRoundedBox {
    if k == 0 {
        DoubleRoundedBox::Horizontal
    } else if k == 1 {
        DoubleRoundedBox::Vertical
    } else if k == 2 {
        DoubleRoundedBox::TopLeft
    } else if k == 3 {
        DoubleRoundedBox::TopRight
    } else if k == 4 {
        DoubleRoundedBox::BottomLeft
    } else if k == 5 {
        DoubleRoundedBox::BottomRight
    } else if k == 6 {
        DoubleRoundedBox::VerticalLeft
    } else if k == 7 {
        DoubleRoundedBox::VerticalRight
    } else if k == 8 {
        DoubleRoundedBox::HorizontalDown
    } else if k == 9 {
        DoubleRoundedBox::HorizontalUp
    } else {
        DoubleRoundedBox::VerticalHorizontal
    }
}
/// Represents different box drawing styles.
#[derive(Debug, Clone, Copy, PartialEq, Eq, Structural)]
pub enum BoxStyle {
    Single,
    Double,
    SingleRounded,
    DoubleRounded,
    Dotted,
    Dashed,
}

/// Represents all possible box characters.
#[derive(Debug, Clone, Copy, PartialEq, Eq, Structural)]
pub enum BoxChar {
    Single(SingleBox),
    Double(DoubleBox),
    SingleRounded(SingleRoundedBox),
    DoubleRounded(DoubleRoundedBox),
    Block(BlockChar),
}

pub open spec fn box_glyph(ch: BoxChar) -> char {
    match ch {
        BoxChar::Single(c) => single_box_glyph(c),
        BoxChar::Double(c) => double_box_glyph(c),
        BoxChar::SingleRounded(c) => single_rounded_box_glyph(c),
        BoxChar::DoubleRounded(c) => double_rounded_box_glyph(c),
        BoxChar::Block(c) => block_glyph(c),
    }
}

/// Converts BoxChar enum variant to corresponding character.
pub fn box_char_to_char(ch: BoxChar) -> (r: char)
    ensures
        r == box_glyph(ch),
{
    match ch {
        BoxChar::Single(single_ch) => single_box_to_char(single_ch),
        BoxChar::Double(double_ch) => double_box_to_char(double_ch),
        BoxChar::SingleRounded(single_rounded_ch) => single_rounded_box_to_char(single_rounded_ch),
        BoxChar::DoubleRounded(double_rounded_ch) => double_rounded_box_to_char(double_rounded_ch),
        BoxChar::Block(block_ch) => block_char_to_char(block_ch),
    }
}

/// The glyph of an edge in a line style.
pub open spec fn edge_glyph(style: LineStyle, vertical: bool) -> char {
    match style {
        LineStyle::Solid => if vertical { '│' } else { '─' },
        LineStyle::Dotted => if vertical { '┆' } else { '┄' },
        LineStyle::Dashed => if vertical { '┊' } else { '┈' },
        LineStyle::DoubleLine => if vertical { '║' } else { '═' },
    }
}

/// Gets the appropriate character for a line segment based on the line style.
fn get_line_char(style: LineStyle, is_vertical: bool) -> (r: char)
    ensures
        r == edge_glyph(style, is_vertical),
{
    match style {
        LineStyle::Solid => if is_vertical { '│' } else { '─' },
        LineStyle::Dotted => if is_vertical { '┆' } else { '┄' },
        LineStyle::Dashed => if is_vertical { '┊' } else { '┈' },
        LineStyle::DoubleLine => if is_vertical { '║' } else { '═' },
    }
}

/// The line style of a box style's edges.
pub open spec fn edge_style(style: BoxStyle) -> LineStyle {
    match style {
        BoxStyle::Single | BoxStyle::SingleRounded => LineStyle::Solid,
        BoxStyle::Double | BoxStyle::DoubleRounded => LineStyle::DoubleLine,
        BoxStyle::Dotted => LineStyle::Dotted,
        BoxStyle::Dashed => LineStyle::Dashed,
    }
}

/// The corners of a box style: top-left, top-right, bottom-left,
/// bottom-right. Dotted and dashed boxes take the single line corners.
pub open spec fn corner_glyphs(style: BoxStyle) -> (char, char, char, char) {
    match style {
        BoxStyle::Double => ('╔', '╗', '╚', '╝'),
        BoxStyle::SingleRounded => ('╭', '╮', '╰', '╯'),
        BoxStyle::DoubleRounded => ('╒', '╕', '╘', '╛'),
        _ => ('┌', '┐', '└', '┘'),
    }
}

/// Gets the corner characters for a box style.
fn get_box_corners(style: BoxStyle) -> (r: [char; 4])
    ensures
        r@ == seq![corner_glyphs(style).0, corner_glyphs(style).1, corner_glyphs(style).2, corner_glyphs(style).3],
{
    let r = match style {
        BoxStyle::Single => ['┌', '┐', '└', '┘'],
        BoxStyle::Double => ['╔', '╗', '╚', '╝'],
        BoxStyle::SingleRounded => ['╭', '╮', '╰', '╯'],
        BoxStyle::DoubleRounded => ['╒', '╕', '╘', '╛'],
        BoxStyle::Dotted => ['┌', '┐', '└', '┘'],
        BoxStyle::Dashed => ['┌', '┐', '└', '┘'],
    };
    assert(r@ =~= seq![corner_glyphs(style).0, corner_glyphs(style).1, corner_glyphs(style).2, corner_glyphs(style).3]);
    r
}

/// Whether a `width` by `height` rectangle at (x, y) ends within the
/// viewport: `x + width` and `y + height` do not pass its size.
pub open spec fn rect_fits(x: int, y: int, width: int, height: int, vw: int, vh: int) -> bool {
    x + width <= vw && y + height <= vh
}

/// What is sent for the edges of a box outline, in drawing order: the top
/// and bottom edges as runs from `x + 1`, then the left and right edges cell
/// by cell from `y + 1`.
pub open spec fn box_edges(x: int, y: int, width: int, height: int, h: char, v: char) -> Seq<char> {
    run_seq(x + 1, y, (width - 2) as nat, h)
        + run_seq(x + 1, y + height - 1, (width - 2) as nat, h)
        + render(column_run(x, y + 1, (height - 2) as nat, v))
        + render(column_run(x + width - 1, y + 1, (height - 2) as nat, v))
}

/// The corners of a box outline: top-left, top-right, bottom-left, bottom-right.
pub open spec fn box_corners(x: int, y: int, width: int, height: int, style: BoxStyle) -> Seq<Cell> {
    let (tl, tr, bl, br) = corner_glyphs(style);
    seq![
        Cell { x: x as u16, y: y as u16, glyph: tl },
        Cell { x: (x + width - 1) as u16, y: y as u16, glyph: tr },
        Cell { x: x as u16, y: (y + height - 1) as u16, glyph: bl },
        Cell { x: (x + width - 1) as u16, y: (y + height - 1) as u16, glyph: br },
    ]
}

/// What is sent for a box outline: the edges, then the corners cell by cell
/// over their ends.
pub open spec fn box_seq(x: int, y: int, width: int, height: int, style: BoxStyle) -> Seq<char> {
    box_edges(x, y, width, height, edge_glyph(edge_style(style), false), edge_glyph(edge_style(style), true))
        + render(box_corners(x, y, width, height, style))
}

fn plot_box_edges(term: &mut Terminal, x: u16, y: u16, width: u16, height: u16, h: char, v: char)
    requires
        x + width <= u16::MAX,
        y + height <= u16::MAX,
        width >= 2,
        height >= 2,
    ensures
        old(term).sends(final(term), box_edges(x as int, y as int, width as int, height as int, h, v)),
{
    term.send_run(x + 1, y, (width - 2) as usize, h);
    term.send_run(x + 1, y + height - 1, (width - 2) as usize, h);
    plot_column(term, x, y + 1, height - 2, v);
    plot_column(term, x + width - 1, y + 1, height - 2, v);
    assert(term.output() =~= old(term).output() + box_edges(x as int, y as int, width as int, height as int, h, v));
}

fn plot_box_corners(term: &mut Terminal, x: u16, y: u16, width: u16, height: u16, style: BoxStyle)
    requires
        1 <= width,
        1 <= height,
        x + width <= u16::MAX,
        y + height <= u16::MAX,
    ensures
        old(term).sends(final(term), render(box_corners(x as int, y as int, width as int, height as int, style))),
{
    let corners = get_box_corners(style);
    let c0 = Cell { x, y, glyph: corners[0] };
    let c1 = Cell { x: x + width - 1, y, glyph: corners[1] };
    let c2 = Cell { x, y: y + height - 1, glyph: corners[2] };
    let c3 = Cell { x: x + width - 1, y: y + height - 1, glyph: corners[3] };
    term.plot(c0);
    term.plot(c1);
    term.plot(c2);
    term.plot(c3);
    proof {
        crate::canvas::lemma_render_cells4(c0, c1, c2, c3);
        assert(box_corners(x as int, y as int, width as int, height as int, style) =~= seq![c0, c1, c2, c3]);
        assert(term.output() =~= old(term).output() + render(seq![c0, c1, c2, c3]));
    }
}

/// Draws the outline of a `width` by `height` box whose top-left corner is
/// at (x, y).
///
/// Refused with a boundary error when the box passes the viewport, and as too
/// small when the width or height is under 2; nothing is drawn then.
pub fn draw_box(term: &mut Terminal, x: u16, y: u16, width: u16, height: u16, style: BoxStyle) -> (r: Result<(), TermError>)
    ensures
        r is Ok <==> rect_fits(x as int, y as int, width as int, height as int, old(term).width() as int, old(term).height() as int)
            && width >= 2 && height >= 2,
        !rect_fits(x as int, y as int, width as int, height as int, old(term).width() as int, old(term).height() as int)
            ==> r == Err::<(), TermError>(TermError::Boundary),
        rect_fits(x as int, y as int, width as int, height as int, old(term).width() as int, old(term).height() as int)
            && (width < 2 || height < 2) ==> r == Err::<(), TermError>(TermError::TooSmall),
        r is Ok ==> old(term).sends(final(term), box_seq(x as int, y as int, width as int, height as int, style)),
        r is Err ==> *final(term) == *old(term),
{
    let (viewport_width, viewport_height) = get_viewport(term);
    if x as u32 + width as u32 > viewport_width as u32 || y as u32 + height as u32 > viewport_height as u32 {
        return Err(TermError::Boundary);
    }
    if width < 2 || height < 2 {
        return Err(TermError::TooSmall);
    }
    let line_style = match style {
        BoxStyle::Single | BoxStyle::SingleRounded => LineStyle::Solid,
        BoxStyle::Double | BoxStyle::DoubleRounded => LineStyle::DoubleLine,
        BoxStyle::Dotted => LineStyle::Dotted,
        BoxStyle::Dashed => LineStyle::Dashed,
    };
    let h = get_line_char(line_style, false);
    let v = get_line_char(line_style, true);
    plot_box_edges(term, x, y, width, height, h, v);
    plot_box_corners(term, x, y, width, height, style);
    assert(term.output() =~= old(term).output() + box_seq(x as int, y as int, width as int, height as int, style));
    Ok(())
}

/// What is sent for the first `rows` rows of a rectangle `width` wide at
/// (x, y) filled with `glyph`: each row, from the top, as one run.
pub open spec fn fill_seq(x: int, y: int, width: int, rows: nat, glyph: char) -> Seq<char>
    decreases rows,
{
    if rows == 0 {
        Seq::empty()
    } else {
        fill_seq(x, y, width, (rows - 1) as nat, glyph) + run_seq(x, y + rows - 1, width as nat, glyph)
    }
}

/// Writes `glyph` over the whole rectangle, row by row.
fn fill_rect(term: &mut Terminal, x: u16, y: u16, width: u16, height: u16, glyph: char)
    requires
        y + height <= u16::MAX,
    ensures
        old(term).sends(final(term), fill_seq(x as int, y as int, width as int, height as nat, glyph)),
{
    let ghost before = term.output();
    let mut dy: u16 = 0;
    while dy < height
        invariant
            dy <= height,
            y + height <= u16::MAX,
            before == old(term).output(),
            term.width() == old(term).width(),
            term.height() == old(term).height(),
            term.output() == before + fill_seq(x as int, y as int, width as int, dy as nat, glyph),
        decreases height - dy,
    {
        term.send_run(x, y + dy, width as usize, glyph);
        assert(term.output() =~= before + fill_seq(x as int, y as int, width as int, (dy + 1) as nat, glyph));
        dy = dy + 1;
    }
}

pub open spec fn shade_glyph(style: ShadeStyle) -> char {
    match style {
        ShadeStyle::Light => block_glyph(BlockChar::LightShade),
        ShadeStyle::Medium => block_glyph(BlockChar::MediumShade),
        ShadeStyle::Dark => block_glyph(BlockChar::DarkShade),
        ShadeStyle::Solid => block_glyph(BlockChar::Full),
    }
}

/// Fills a `width` by `height` rectangle whose top-left corner is at (x, y)
/// with a shade glyph. Refused, with nothing drawn, when it passes the
/// viewport.
pub fn draw_shaded_rectangle(term: &mut Terminal, x: u16, y: u16, width: u16, height: u16, style: ShadeStyle) -> (r: Result<(), TermError>)
    ensures
        r is Ok <==> rect_fits(x as int, y as int, width as int, height as int, old(term).width() as int, old(term).height() as int),
        r is Ok ==> old(term).sends(final(term), fill_seq(x as int, y as int, width as int, height as nat, shade_glyph(style))),
        r is Err ==> r == Err::<(), TermError>(TermError::Boundary) && *final(term) == *old(term),
{
    let (viewport_width, viewport_height) = get_viewport(term);
    if x as u32 + width as u32 > viewport_width as u32 || y as u32 + height as u32 > viewport_height as u32 {
        return Err(TermError::Boundary);
    }
    let shade_char = match style {
        ShadeStyle::Light => block_char_to_char(BlockChar::LightShade),
        ShadeStyle::Medium => block_char_to_char(BlockChar::MediumShade),
        ShadeStyle::Dark => block_char_to_char(BlockChar::DarkShade),
        ShadeStyle::Solid => block_char_to_char(BlockChar::Full),
    };
    fill_rect(term, x, y, width, height, shade_char);
    Ok(())
}

/// Clears a `width` by `height` rectangle whose top-left corner is at
/// (x, y), interior included, by writing blanks over it. Refused, with
/// nothing written, when it passes the viewport.
pub fn hide_box(term: &mut Terminal, x: u16, y: u16, width: u16, height: u16) -> (r: Result<(), TermError>)
    ensures
        r is Ok <==> rect_fits(x as int, y as int, width as int, height as int, old(term).width() as int, old(term).height() as int),
        r is Ok ==> old(term).sends(final(term), fill_seq(x as int, y as int, width as int, height as nat, ' ')),
        r is Err ==> r == Err::<(), TermError>(TermError::Boundary) && *final(term) == *old(term),
{
    let (viewport_width, viewport_height) = get_viewport(term);
    if x as u32 + width as u32 > viewport_width as u32 || y as u32 + height as u32 > viewport_height as u32 {
        return Err(TermError::Boundary);
    }
    fill_rect(term, x, y, width, height, ' ');
    Ok(())
}

/// The place of a part name in the list of box parts: Horizontal, Vertical,
/// TopLeft, TopRight, BottomLeft, BottomRight, VerticalLeft, VerticalRight,
/// HorizontalDown, HorizontalUp, VerticalHorizontal.
pub open spec fn part_index(name: Seq<char>) -> Option<int> {
    if name == "Horizontal"@ {
        Some(0)
    } else if name == "Vertical"@ {
        Some(1)
    } else if name == "TopLeft"@ {
        Some(2)
    } else if name == "TopRight"@ {
        Some(3)
    } else if name == "BottomLeft"@ {
        Some(4)
    } else if name == "BottomRight"@ {
        Some(5)
    } else if name == "VerticalLeft"@ {
        Some(6)
    } else if name == "VerticalRight"@ {
        Some(7)
    } else if name == "HorizontalDown"@ {
        Some(8)
    } else if name == "HorizontalUp"@ {
        Some(9)
    } else if name == "VerticalHorizontal"@ {
        Some(10)
    } else {
        None
    }
}

/// Whether two strings hold the same characters.
fn same_text(a: &str, b: &str) -> (r: bool)
    ensures
        r == (a@ == b@),
{
    a.to_owned() == b.to_owned()
}

/// The place of a part name, as [`part_index`] gives it.
fn part_number(name: &str) -> (r: Option<u8>)
    ensures
        match part_index(name@) {
            Some(k) => r == Some(k as u8),
            None => r is None,
        },
{
    if same_text(name, "Horizontal") {
        Some(0)
    } else if same_text(name, "Vertical") {
        Some(1)
    } else if same_text(name, "TopLeft") {
        Some(2)
    } else if same_text(name, "TopRight") {
        Some(3)
    } else if same_text(name, "BottomLeft") {
        Some(4)
    } else if same_text(name, "BottomRight") {
        Some(5)
    } else if same_text(name, "VerticalLeft") {
        Some(6)
    } else if same_text(name, "VerticalRight") {
        Some(7)
    } else if same_text(name, "HorizontalDown") {
        Some(8)
    } else if same_text(name, "HorizontalUp") {
        Some(9)
    } else if same_text(name, "VerticalHorizontal") {
        Some(10)
    } else {
        None
    }
}

fn single_box_part_at(k: u8) -> (r: SingleBox)
    ensures
        r == single_box_part(k as int),
{
    match k {
        0 => SingleBox::Horizontal,
        1 => SingleBox::Vertical,
        2 => SingleBox::TopLeft,
        3 => SingleBox::TopRight,
        4 => SingleBox::BottomLeft,
        5 => SingleBox::BottomRight,
        6 => SingleBox::VerticalLeft,
        7 => SingleBox::VerticalRight,
        8 => SingleBox::HorizontalDown,
        9 => SingleBox::HorizontalUp,
        _ => SingleBox::VerticalHorizontal,
    }
}

fn double_box_part_at(k: u8) -> (r: DoubleBox)
    ensures
        r == double_box_part(k as int),
{
    match k {
        0 => DoubleBox::Horizontal,
        1 => DoubleBox::Vertical,
        2 => DoubleBox::TopLeft,
        3 => DoubleBox::TopRight,
        4 => DoubleBox::BottomLeft,
        5 => DoubleBox::BottomRight,
        6 => DoubleBox::VerticalLeft,
        7 => DoubleBox::VerticalRight,
        8 => DoubleBox::HorizontalDown,
        9 => DoubleBox::HorizontalUp,
        _ => DoubleBox::VerticalHorizontal,
    }
}

fn single_rounded_box_part_at(k: u8) -> (r: SingleRoundedBox)
    ensures
        r == single_rounded_box_part(k as int),
{
    match k {
        0 => SingleRoundedBox::Horizontal,
        1 => SingleRoundedBox::Vertical,
        2 => SingleRoundedBox::TopLeft,
        3 => SingleRoundedBox::TopRight,
        4 => SingleRoundedBox::BottomLeft,
        5 => SingleRoundedBox::BottomRight,
        6 => SingleRoundedBox::VerticalLeft,
        7 => SingleRoundedBox::VerticalRight,
        8 => SingleRoundedBox::HorizontalDown,
        9 => SingleRoundedBox::HorizontalUp,
        _ => SingleRoundedBox::VerticalHorizontal,
    }
}

fn double_rounded_box_part_at(k: u8) -> (r: DoubleRoundedBox)
    ensures
        r == double_rounded_box_part(k as int),
{
    match k {
        0 => DoubleRoundedBox::Horizontal,
        1 => DoubleRoundedBox::Vertical,
        2 => DoubleRoundedBox::TopLeft,
        3 => DoubleRoundedBox::TopRight,
        4 => DoubleRoundedBox::BottomLeft,
        5 => DoubleRoundedBox::BottomRight,
        6 => DoubleRoundedBox::VerticalLeft,
        7 => DoubleRoundedBox::VerticalRight,
        8 => DoubleRoundedBox::HorizontalDown,
        9 => DoubleRoundedBox::HorizontalUp,
        _ => DoubleRoundedBox::VerticalHorizontal,
    }
}

/// The box character for the part at place `k` in a box style. Dotted and
/// dashed boxes take the single line characters.
pub open spec fn box_part(style: BoxStyle, k: int) -> BoxChar {
    match style {
        BoxStyle::Double => BoxChar::Double(double_box_part(k)),
        BoxStyle::SingleRounded => BoxChar::SingleRounded(single_rounded_box_part(k)),
        BoxStyle::DoubleRounded => BoxChar::DoubleRounded(double_rounded_box_part(k)),
        _ => BoxChar::Single(single_box_part(k)),
    }
}

fn box_part_at(style: BoxStyle, k: u8) -> (r: BoxChar)
    ensures
        r == box_part(style, k as int),
{
    match style {
        BoxStyle::Single => BoxChar::Single(single_box_part_at(k)),
        BoxStyle::Double => BoxChar::Double(double_box_part_at(k)),
        BoxStyle::SingleRounded => BoxChar::SingleRounded(single_rounded_box_part_at(k)),
        BoxStyle::DoubleRounded => BoxChar::DoubleRounded(double_rounded_box_part_at(k)),
        BoxStyle::Dotted | BoxStyle::Dashed => BoxChar::Single(single_box_part_at(k)),
    }
}

/// The box character of a style for a part named as in [`part_index`]
/// (such as "Horizontal" or "TopLeft"), or `None` for any other name.
pub fn get_box_char(style: BoxStyle, char_type: &str) -> (r: Option<BoxChar>)
    ensures
        r == (match part_index(char_type@) {
            Some(k) => Some(box_part(style, k)),
            None => None,
        }),
{
    match part_number(char_type) {
        Some(k) => Some(box_part_at(style, k)),
        None => None,
    }
}

/// The corner glyph of a style for "TopLeft", "TopRight", "BottomLeft" or
/// "BottomRight", or `None` for any other name.
pub fn get_corner_char(style: BoxStyle, corner: &str) -> (r: Option<char>)
    ensures
        r == (match part_index(corner@) {
            Some(k) => if 2 <= k <= 5 { Some(box_glyph(box_part(style, k))) } else { None },
            None => None,
        }),
{
    match part_number(corner) {
        Some(k) => {
            if 2 <= k && k <= 5 {
                Some(box_char_to_char(box_part_at(style, k)))
            } else {
                None
            }
        },
        None => None,
    }
}

} // verus!
