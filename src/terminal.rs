//! The terminal: its viewport, and the output that operations queue for it.
//!
//! The escape sequences follow ANSI: `ESC [ row ; column H` moves the cursor,
//! `ESC [ 3n m` and `ESC [ 4n m` set the colours, `ESC [ n m` an attribute.
use vstd::prelude::*;

use crate::canvas::{cell_seq, cursor_seq, decimal, digit_char, render, repeat, run_seq, Cell};
use crate::error::TermError;

verus! {

/// The eight ANSI colours.
#[derive(Debug, Clone, Copy, PartialEq, Eq, Structural)]
pub enum Color {
    Black,
    Red,
    Green,
    Yellow,
    Blue,
    Magenta,
    Cyan,
    White,
}

/// The ANSI number of a colour, from Black (0) to White (7).
pub open spec fn color_index(c: Color) -> nat {
    match c {
        Color::Black => 0,
        Color::Red => 1,
        Color::Green => 2,
        Color::Yellow => 3,
        Color::Blue => 4,
        Color::Magenta => 5,
        Color::Cyan => 6,
        Color::White => 7,
    }
}

/// Text attributes.
#[derive(Debug, Clone, Copy, PartialEq, Eq, Structural)]
pub enum Attribute {
    Reset,
    Bright,
    Dim,
    Underscore,
    Blink,
    Reverse,
    Hidden,
}

/// The ANSI number of an attribute.
pub open spec fn attribute_code(a: Attribute) -> nat {
    match a {
        Attribute::Reset => 0,
        Attribute::Bright => 1,
        Attribute::Dim => 2,
        Attribute::Underscore => 4,
        Attribute::Blink => 5,
        Attribute::Reverse => 7,
        Attribute::Hidden => 8,
    }
}

/// A control sequence: `ESC [` followed by `body`.
pub open spec fn csi(body: Seq<char>) -> Seq<char> {
    seq!['\x1b', '['] + body
}

pub open spec fn foreground_seq(c: Color) -> Seq<char> {
    csi(seq!['3', digit_char(color_index(c)), 'm'])
}

pub open spec fn background_seq(c: Color) -> Seq<char> {
    csi(seq!['4', digit_char(color_index(c)), 'm'])
}

pub open spec fn attribute_seq(a: Attribute) -> Seq<char> {
    csi(decimal(attribute_code(a)).push('m'))
}

/// Whether (x, y) is a position of a `width` by `height` viewport.
pub open spec fn in_viewport(x: int, y: int, width: int, height: int) -> bool {
    1 <= x <= width && 1 <= y <= height
}

/// A terminal: the viewport that positions are checked against, and the
/// output queued for it that the caller has not taken yet.
pub struct Terminal {
    width: u16,
    height: u16,
    out: Vec<char>,
}

impl Terminal {
    /// The viewport's width, in columns.
    pub closed spec fn width(&self) -> nat {
        self.width as nat
    }

    /// The viewport's height, in rows.
    pub closed spec fn height(&self) -> nat {
        self.height as nat
    }

    /// The output queued so far.
    pub closed spec fn output(&self) -> Seq<char> {
        self.out@
    }

    /// Whether `next` is this terminal with `s` appended to its output.
    pub open spec fn sends(&self, next: &Terminal, s: Seq<char>) -> bool {
        &&& next.width() == self.width()
        &&& next.height() == self.height()
        &&& next.output() == self.output() + s
    }

    /// A terminal with an 80 by 24 viewport and nothing queued.
    pub fn new() -> (r: Terminal)
        ensures
            r.width() == 80,
            r.height() == 24,
            r.output() == Seq::<char>::empty(),
    {
        Terminal { width: 80, height: 24, out: Vec::new() }
    }

    /// Hands over the queued output and clears it.
    pub fn take_output(&mut self) -> (r: Vec<char>)
        ensures
            r@ == old(self).output(),
            final(self).width() == old(self).width(),
            final(self).height() == old(self).height(),
            final(self).output() == Seq::<char>::empty(),
    {
        let mut r = Vec::new();
        std::mem::swap(&mut r, &mut self.out);
        r
    }

    /// Queues one character.
    pub fn send(&mut self, c: char)
        ensures
            old(self).sends(final(self), seq![c]),
    {
        let ghost before = self.out@;
        self.out.push(c);
        assert(self.out@ =~= before + seq![c]);
    }

    /// Queues the decimal notation of `n`.
    pub fn send_decimal(&mut self, n: u16)
        ensures
            old(self).sends(final(self), decimal(n as nat)),
        decreases n,
    {
        let ghost before = self.out@;
        if n >= 10 {
            self.send_decimal(n / 10);
        }
        self.send(digit(n % 10));
        proof {
            if n >= 10 {
                assert(decimal(n as nat) == decimal((n / 10) as nat).push(digit_char((n % 10) as nat)));
            } else {
                assert(decimal(n as nat) == seq![digit_char(n as nat)]);
            }
            assert(self.out@ =~= before + decimal(n as nat));
        }
    }

    /// Queues `ESC [`.
    fn send_csi(&mut self)
        ensures
            old(self).sends(final(self), csi(Seq::empty())),
    {
        let ghost before = self.out@;
        self.send('\x1b');
        self.send('[');
        assert(self.out@ =~= before + csi(Seq::empty()));
    }

    /// Queues a move of the cursor to column `x` of row `y`, unchecked.
    pub fn send_cursor(&mut self, x: u16, y: u16)
        ensures
            old(self).sends(final(self), cursor_seq(x as nat, y as nat)),
    {
        let ghost before = self.out@;
        self.send_csi();
        self.send_decimal(y);
        self.send(';');
        self.send_decimal(x);
        self.send('H');
        assert(self.out@ =~= before + cursor_seq(x as nat, y as nat));
    }

    /// Writes the glyph of `c` at its position. The position is not checked
    /// against the viewport: shapes check their own extent.
    pub fn plot(&mut self, c: Cell)
        ensures
            old(self).sends(final(self), cell_seq(c)),
    {
        let ghost before = self.out@;
        self.send_cursor(c.x, c.y);
        self.send(c.glyph);
        assert(self.out@ =~= before + cell_seq(c));
    }

    /// Writes a run along a row: one cursor move to (x, y), then `n` copies
    /// of `glyph`.
    pub fn send_run(&mut self, x: u16, y: u16, n: usize, glyph: char)
        ensures
            old(self).sends(final(self), run_seq(x as int, y as int, n as nat, glyph)),
    {
        let ghost before = self.out@;
        self.send_cursor(x, y);
        let mut i: usize = 0;
        while i < n
            invariant
                i <= n,
                self.width == old(self).width,
                self.height == old(self).height,
                self.out@ == before + cursor_seq(x as nat, y as nat) + repeat(glyph, i as nat),
            decreases n - i,
        {
            self.send(glyph);
            assert(repeat(glyph, i as nat).push(glyph) =~= repeat(glyph, (i + 1) as nat));
            i = i + 1;
        }
        assert(self.out@ =~= before + run_seq(x as int, y as int, n as nat, glyph));
    }

    /// Writes the cells in order.
    pub fn plot_all(&mut self, cells: &Vec<Cell>)
        ensures
            old(self).sends(final(self), render(cells@)),
    {
        let ghost before = self.out@;
        let mut i: usize = 0;
        while i < cells.len()
            invariant
                i <= cells.len(),
                self.width == old(self).width,
                self.height == old(self).height,
                self.out@ == before + render(cells@.take(i as int)),
            decreases cells.len() - i,
        {
            let c = cells[i];
            self.plot(c);
            proof {
                crate::canvas::lemma_render_push(cells@.take(i as int), c);
                assert(cells@.take(i as int).push(c) =~= cells@.take(i + 1));
            }
            i = i + 1;
        }
        assert(cells@.take(cells.len() as int) =~= cells@);
        assert(self.out@ =~= before + render(cells@));
    }
}

/// The ASCII digit for `d`.
pub fn digit(d: u16) -> (c: char)
    requires
        d < 10,
    ensures
        c == digit_char(d as nat),
{
    if d == 0 { '0' }
    else if d == 1 { '1' }
    else if d == 2 { '2' }
    else if d == 3 { '3' }
    else if d == 4 { '4' }
    else if d == 5 { '5' }
    else if d == 6 { '6' }
    else if d == 7 { '7' }
    else if d == 8 { '8' }
    else { '9' }
}

/// Queues a control sequence with a constant body.
fn send_sequence(term: &mut Terminal, body: &[char])
    ensures
        old(term).sends(final(term), csi(body@)),
{
    let ghost before = term.output();
    term.send_csi();
    let mut i: usize = 0;
    while i < body.len()
        invariant
            i <= body.len(),
            term.width() == old(term).width(),
            term.height() == old(term).height(),
            term.output() == before + csi(body@.take(i as int)),
        decreases body.len() - i,
    {
        term.send(body[i]);
        assert(body@.take(i + 1) =~= body@.take(i as int).push(body@[i as int]));
        assert(csi(body@.take(i + 1)) =~= csi(body@.take(i as int)) + seq![body@[i as int]]);
        i = i + 1;
    }
    assert(body@.take(body.len() as int) =~= body@);
}

/// Queues a control sequence whose body is one character.
fn send_csi_char(term: &mut Terminal, c: char)
    ensures
        old(term).sends(final(term), csi(seq![c])),
{
    let ghost before = term.output();
    term.send_csi();
    term.send(c);
    assert(term.output() =~= before + csi(seq![c]));
}

/// Sets the foreground colour of the text that follows: `ESC [ 3n m`.
pub fn set_foreground_color(term: &mut Terminal, color: Color)
    ensures
        old(term).sends(final(term), foreground_seq(color)),
{
    let d = color_digit(color);
    send_sequence(term, &['3', d, 'm']);
}

/// Sets the background colour of the text that follows: `ESC [ 4n m`.
pub fn set_background_color(term: &mut Terminal, color: Color)
    ensures
        old(term).sends(final(term), background_seq(color)),
{
    let d = color_digit(color);
    send_sequence(term, &['4', d, 'm']);
}

/// Resets both colours (and every attribute): `ESC [ 0 m`.
pub fn reset_color(term: &mut Terminal)
    ensures
        old(term).sends(final(term), csi(seq!['0', 'm'])),
{
    send_sequence(term, &['0', 'm']);
}

/// The ANSI digit of a colour.
fn color_digit(color: Color) -> (d: char)
    ensures
        d == digit_char(color_index(color)),
{
    match color {
        Color::Black => '0',
        Color::Red => '1',
        Color::Green => '2',
        Color::Yellow => '3',
        Color::Blue => '4',
        Color::Magenta => '5',
        Color::Cyan => '6',
        Color::White => '7',
    }
}

/// Moves the cursor to column `x` of row `y` (both 1-based). A position
/// outside the viewport is refused and nothing is sent.
pub fn move_cursor_to(term: &mut Terminal, x: u16, y: u16) -> (r: Result<(), TermError>)
    ensures
        r is Ok <==> in_viewport(x as int, y as int, old(term).width() as int, old(term).height() as int),
        r is Ok ==> old(term).sends(final(term), cursor_seq(x as nat, y as nat)),
        r is Err ==> r == Err::<(), TermError>(TermError::Boundary) && *final(term) == *old(term),
{
    let (width, height) = get_viewport(term);
    if x < 1 || x > width || y < 1 || y > height {
        return Err(TermError::Boundary);
    }
    term.send_cursor(x, y);
    Ok(())
}

/// Clears the screen (`ESC [ 2 J`), then moves the cursor to the top-left
/// corner. With an empty viewport the move is refused after the clear.
pub fn clear_screen(term: &mut Terminal) -> (r: Result<(), TermError>)
    ensures
        r is Ok <==> old(term).width() >= 1 && old(term).height() >= 1,
        r is Ok ==> old(term).sends(final(term), csi(seq!['2', 'J']) + cursor_seq(1, 1)),
        r is Err ==> r == Err::<(), TermError>(TermError::Boundary)
            && old(term).sends(final(term), csi(seq!['2', 'J'])),
{
    send_sequence(term, &['2', 'J']);
    let r = move_cursor_to(term, 1, 1);
    proof {
        if r is Ok {
            assert(term.output() =~= old(term).output() + (csi(seq!['2', 'J']) + cursor_seq(1, 1)));
        }
    }
    r
}

/// Saves the cursor position: `ESC [ s`.
pub fn save_cursor_location(term: &mut Terminal)
    ensures
        old(term).sends(final(term), csi(seq!['s'])),
{
    send_csi_char(term, 's');
}

/// Moves the cursor back to the saved position: `ESC [ u`.
pub fn restore_cursor_location(term: &mut Terminal)
    ensures
        old(term).sends(final(term), csi(seq!['u'])),
{
    send_csi_char(term, 'u');
}

/// Makes the cursor visible: `ESC [ ? 25 h`.
pub fn show_cursor(term: &mut Terminal)
    ensures
        old(term).sends(final(term), csi(seq!['?', '2', '5', 'h'])),
{
    send_sequence(term, &['?', '2', '5', 'h']);
}

/// Hides the cursor: `ESC [ ? 25 l`.
pub fn hide_cursor(term: &mut Terminal)
    ensures
        old(term).sends(final(term), csi(seq!['?', '2', '5', 'l'])),
{
    send_sequence(term, &['?', '2', '5', 'l']);
}

/// Clears from the cursor to the end of the line: `ESC [ K`.
pub fn clear_to_line_end(term: &mut Terminal)
    ensures
        old(term).sends(final(term), csi(seq!['K'])),
{
    send_csi_char(term, 'K');
}

/// Clears from the start of the line to the cursor: `ESC [ 1 K`.
pub fn clear_to_line_start(term: &mut Terminal)
    ensures
        old(term).sends(final(term), csi(seq!['1', 'K'])),
{
    send_sequence(term, &['1', 'K']);
}

/// Clears the whole line: `ESC [ 2 K`.
pub fn clear_line(term: &mut Terminal)
    ensures
        old(term).sends(final(term), csi(seq!['2', 'K'])),
{
    send_sequence(term, &['2', 'K']);
}

/// Clears from the start of the screen to the cursor: `ESC [ 1 J`.
pub fn clear_to_screen_start(term: &mut Terminal)
    ensures
        old(term).sends(final(term), csi(seq!['1', 'J'])),
{
    send_sequence(term, &['1', 'J']);
}

/// Clears from the cursor to the end of the screen: `ESC [ J`.
pub fn clear_to_screen_end(term: &mut Terminal)
    ensures
        old(term).sends(final(term), csi(seq!['J'])),
{
    send_csi_char(term, 'J');
}

/// Turns on a text attribute: `ESC [ n m`.
pub fn set_attribute(term: &mut Terminal, attribute: Attribute)
    ensures
        old(term).sends(final(term), attribute_seq(attribute)),
{
    let ghost before = term.output();
    term.send_csi();
    term.send_decimal(attribute_number(attribute));
    term.send('m');
    assert(term.output() =~= before + attribute_seq(attribute));
}

/// Turns every attribute off: `ESC [ 0 m`.
pub fn reset_attributes(term: &mut Terminal)
    ensures
        old(term).sends(final(term), attribute_seq(Attribute::Reset)),
{
    set_attribute(term, Attribute::Reset);
}

/// The ANSI number of an attribute.
fn attribute_number(attribute: Attribute) -> (n: u16)
    ensures
        n == attribute_code(attribute),
{
    match attribute {
        Attribute::Reset => 0,
        Attribute::Bright => 1,
        Attribute::Dim => 2,
        Attribute::Underscore => 4,
        Attribute::Blink => 5,
        Attribute::Reverse => 7,
        Attribute::Hidden => 8,
    }
}

/// Sets the viewport that positions are checked against. Zero is allowed and
/// leaves no valid position on that axis.
pub fn set_viewport(term: &mut Terminal, width: u16, height: u16)
    ensures
        final(term).width() == width,
        final(term).height() == height,
        final(term).output() == old(term).output(),
{
    term.width = width;
    term.height = height;
}

/// The current viewport, as (width, height).
pub fn get_viewport(term: &Terminal) -> (r: (u16, u16))
    ensures
        r.0 == term.width(),
        r.1 == term.height(),
{
    (term.width, term.height)
}

/// Writes `text` at the cursor.
pub fn print(term: &mut Terminal, text: &str)
    ensures
        old(term).sends(final(term), text@),
{
    let ghost before = term.output();
    for c in it: text.chars()
        invariant
            term.width() == old(term).width(),
            term.height() == old(term).height(),
            term.output() == before + text@.take(it.index() as int),
            it.seq() == text@,
    {
        proof {
            assert(text@.take(it.index() + 1) =~= text@.take(it.index() as int).push(c));
        }
        term.send(c);
    }
    assert(text@.take(text@.len() as int) =~= text@);
}

/// Writes `text` at the cursor, then a newline.
pub fn println(term: &mut Terminal, text: &str)
    ensures
        old(term).sends(final(term), text@.push('\n')),
{
    print(term, text);
    term.send('\n');
    assert(term.output() =~= old(term).output() + text@.push('\n'));
}

/// Writes one character at the cursor.
pub fn put_char(term: &mut Terminal, ch: char)
    ensures
        old(term).sends(final(term), seq![ch]),
{
    term.send(ch);
}

/// The key that a line of input stands for: its first character, or `'\0'`
/// for an empty line.
pub fn key_from_line(line: &str) -> (r: char)
    ensures
        r == (if line@.len() > 0 { line@[0] } else { '\0' }),
{
    let mut chars = line.chars();
    match chars.next() {
        Some(c) => c,
        None => '\0',
    }
}

} // verus!
