use std::collections::HashMap;
use std::collections::HashSet;

use rpian_terminal::line::{
    diagonal_line, get_diagonal_line_char, get_horizontal_line_char, get_vertical_line_char,
    get_vertice, horizontal_line, vertical_line, DiagonalLineStyle, HorizontalLineStyle,
    VerticalLineStyle, VerticeStyle,
};
use rpian_terminal::rbox::{draw_box, draw_shaded_rectangle, hide_box};
use rpian_terminal::star::StarSymbol;
use rpian_terminal::{
    bresenham_points, draw_segment, set_viewport, BoxStyle, CircleSymbol, Direction, Line,
    LineStyle, ShadeStyle, Shape, TermError, Terminal,
};

/// Decodes queued output made of `ESC [ row ; column H` moves, each followed
/// by glyphs written in successive columns, into (column, row, glyph) cells.
fn plotted(term: &mut Terminal) -> Vec<(u16, u16, char)> {
    let out = term.take_output();
    let mut cells = Vec::new();
    let mut k = 0;
    while k < out.len() {
        assert_eq!(out[k], '\x1b');
        assert_eq!(out[k + 1], '[');
        k += 2;
        let mut row = 0u16;
        while out[k] != ';' {
            row = row * 10 + out[k].to_digit(10).unwrap() as u16;
            k += 1;
        }
        k += 1;
        let mut col = 0u16;
        while out[k] != 'H' {
            col = col * 10 + out[k].to_digit(10).unwrap() as u16;
            k += 1;
        }
        k += 1;
        while k < out.len() && out[k] != '\x1b' {
            cells.push((col, row, out[k]));
            col += 1;
            k += 1;
        }
    }
    cells
}

/// The queued output as text.
fn sent(term: &mut Terminal) -> String {
    term.take_output().into_iter().collect()
}

fn plain_style() -> LineStyle {
    LineStyle {
        hs: HorizontalLineStyle::Light,
        vs: VerticalLineStyle::Light,
        ds: true,
        ss: VerticeStyle::Space,
        es: VerticeStyle::Space,
        enabless: false,
        enablees: false,
    }
}

fn plain_line(x: u16, y: u16, size: usize, direction: Direction) -> Line {
    Line { x, y, size, style: plain_style(), direction }
}

fn apply(screen: &mut HashMap<(u16, u16), char>, cells: &[(u16, u16, char)]) {
    for (x, y, c) in cells {
        screen.insert((*x, *y), *c);
    }
}

fn visible(screen: &HashMap<(u16, u16), char>, x: u16, y: u16) -> char {
    *screen.get(&(x, y)).unwrap_or(&' ')
}

#[test]
fn bresenham_diagonal_visits_five_points() {
    assert_eq!(
        bresenham_points(1, 1, 5, 5),
        vec![(1, 1), (2, 2), (3, 3), (4, 4), (5, 5)]
    );
}

#[test]
fn bresenham_horizontal_visits_five_collinear_points() {
    assert_eq!(
        bresenham_points(1, 1, 5, 1),
        vec![(1, 1), (2, 1), (3, 1), (4, 1), (5, 1)]
    );
}

#[test]
fn bresenham_single_point() {
    assert_eq!(bresenham_points(7, 9, 7, 9), vec![(7, 9)]);
}

#[test]
fn bresenham_runs_backwards_and_steeply() {
    assert_eq!(
        bresenham_points(5, 5, 1, 1),
        vec![(5, 5), (4, 4), (3, 3), (2, 2), (1, 1)]
    );
    assert_eq!(bresenham_points(1, 1, 1, 4), vec![(1, 1), (1, 2), (1, 3), (1, 4)]);
    assert_eq!(
        bresenham_points(0, 0, 4, 2),
        vec![(0, 0), (1, 1), (2, 1), (3, 2), (4, 2)]
    );
    assert_eq!(
        bresenham_points(2, 7, 4, 1),
        vec![(2, 7), (2, 6), (3, 5), (3, 4), (3, 3), (4, 2), (4, 1)]
    );
}

#[test]
fn bresenham_long_segment_is_connected() {
    let pts = bresenham_points(3, 60000, 65535, 2);
    assert_eq!(pts.len(), 65533);
    assert_eq!(pts[0], (3, 60000));
    assert_eq!(*pts.last().unwrap(), (65535, 2));
    for w in pts.windows(2) {
        let dx = (w[1].0 as i32 - w[0].0 as i32).abs();
        let dy = (w[1].1 as i32 - w[0].1 as i32).abs();
        assert!(dx <= 1 && dy <= 1 && dx + dy > 0);
    }
}

#[test]
fn segment_draws_every_point() {
    let mut term = Terminal::new();
    assert_eq!(draw_segment(&mut term, 1, 1, 5, 5, '*'), Ok(()));
    assert_eq!(
        plotted(&mut term),
        vec![(1, 1, '*'), (2, 2, '*'), (3, 3, '*'), (4, 4, '*'), (5, 5, '*')]
    );
}

#[test]
fn segment_with_an_end_outside_draws_nothing() {
    let mut term = Terminal::new();
    set_viewport(&mut term, 4, 4);
    assert_eq!(draw_segment(&mut term, 1, 1, 5, 5, '*'), Err(TermError::Boundary));
    assert_eq!(draw_segment(&mut term, 0, 1, 3, 3, '*'), Err(TermError::Boundary));
    assert!(plotted(&mut term).is_empty());
}

#[test]
fn line_east_shows_five_horizontal_glyphs_and_erases_them() {
    let mut term = Terminal::new();
    let line = plain_line(1, 1, 5, Direction::East);
    assert_eq!(line.show(&mut term), Ok(()));
    assert_eq!(
        plotted(&mut term),
        vec![(1, 1, '─'), (2, 1, '─'), (3, 1, '─'), (4, 1, '─'), (5, 1, '─')]
    );
    assert_eq!(line.erase(&mut term), Ok(()));
    assert_eq!(
        plotted(&mut term),
        vec![(1, 1, ' '), (2, 1, ' '), (3, 1, ' '), (4, 1, ' '), (5, 1, ' ')]
    );
}

#[test]
fn default_line_has_circle_markers_at_both_ends() {
    let mut term = Terminal::new();
    let mut line = Line::new();
    assert_eq!((line.x, line.y, line.size), (1, 1, 10));
    line.size = 5;
    assert_eq!(line.draw(&mut term, true), Ok(()));
    assert_eq!(
        plotted(&mut term),
        vec![(1, 1, '●'), (2, 1, '─'), (3, 1, '─'), (4, 1, '─'), (5, 1, '●')]
    );
    assert_eq!(line.draw(&mut term, false), Ok(()));
    assert_eq!(
        plotted(&mut term),
        vec![(1, 1, ' '), (2, 1, ' '), (3, 1, ' '), (4, 1, ' '), (5, 1, ' ')]
    );
}

#[test]
fn one_cell_line_shows_the_start_marker() {
    let mut term = Terminal::new();
    let mut line = Line::new();
    line.size = 1;
    line.style.ss = VerticeStyle::Star(StarSymbol::BlackStar);
    assert_eq!(line.show(&mut term), Ok(()));
    assert_eq!(plotted(&mut term), vec![(1, 1, '★')]);
}

#[test]
fn empty_line_draws_nothing() {
    let mut term = Terminal::new();
    let line = plain_line(3, 3, 0, Direction::South);
    assert_eq!(line.show(&mut term), Ok(()));
    assert!(plotted(&mut term).is_empty());
}

#[test]
fn line_directions_step_and_glyphs() {
    let cases = [
        (Direction::North, vec![(5, 5, '│'), (5, 4, '│'), (5, 3, '│')]),
        (Direction::South, vec![(5, 5, '│'), (5, 6, '│'), (5, 7, '│')]),
        (Direction::West, vec![(5, 5, '─'), (4, 5, '─'), (3, 5, '─')]),
        (Direction::NorthWest, vec![(5, 5, '╱'), (4, 4, '╱'), (3, 3, '╱')]),
        (Direction::NorthEast, vec![(5, 5, '╲'), (6, 4, '╲'), (7, 3, '╲')]),
        (Direction::SouthWest, vec![(5, 5, '╲'), (4, 6, '╲'), (3, 7, '╲')]),
        (Direction::SouthEast, vec![(5, 5, '╲'), (6, 6, '╲'), (7, 7, '╲')]),
    ];
    for (direction, expected) in cases.iter() {
        let mut term = Terminal::new();
        assert_eq!(plain_line(5, 5, 3, *direction).show(&mut term), Ok(()));
        assert_eq!(plotted(&mut term), *expected);
    }
}

#[test]
fn geometric_mapping_slants_diagonals_their_own_way() {
    let cases = [
        (Direction::NorthEast, vec![(5, 5, '╱'), (6, 4, '╱')]),
        (Direction::SouthWest, vec![(5, 5, '╱'), (4, 6, '╱')]),
        (Direction::NorthWest, vec![(5, 5, '╲'), (4, 4, '╲')]),
        (Direction::SouthEast, vec![(5, 5, '╲'), (6, 6, '╲')]),
        (Direction::East, vec![(5, 5, '─'), (6, 5, '─')]),
        (Direction::North, vec![(5, 5, '│'), (5, 4, '│')]),
    ];
    for (direction, expected) in cases.iter() {
        let mut term = Terminal::new();
        let line = plain_line(5, 5, 2, *direction);
        assert_eq!(line.draw_geometric(&mut term, true), Ok(()));
        assert_eq!(plotted(&mut term), *expected);
        assert_eq!(line.draw_geometric(&mut term, false), Ok(()));
        let blanks: Vec<(u16, u16, char)> = expected.iter().map(|c| (c.0, c.1, ' ')).collect();
        assert_eq!(plotted(&mut term), blanks);
    }
}

#[test]
fn line_leaving_the_viewport_skips_outside_cells() {
    let mut term = Terminal::new();
    assert_eq!(plain_line(2, 1, 4, Direction::West).show(&mut term), Err(TermError::Boundary));
    assert_eq!(plotted(&mut term), vec![(2, 1, '─'), (1, 1, '─')]);
    let huge = plain_line(79, 24, usize::MAX, Direction::East);
    assert_eq!(huge.show(&mut term), Err(TermError::Boundary));
    assert_eq!(plotted(&mut term), vec![(79, 24, '─'), (80, 24, '─')]);
}

#[test]
fn line_entering_the_viewport_from_column_zero() {
    let mut term = Terminal::new();
    assert_eq!(plain_line(0, 2, 3, Direction::East).show(&mut term), Err(TermError::Boundary));
    assert_eq!(plotted(&mut term), vec![(1, 2, '─'), (2, 2, '─')]);
}

#[test]
fn move_to_repositions_without_drawing() {
    let mut term = Terminal::new();
    let mut line = plain_line(1, 1, 2, Direction::East);
    line.move_to(7, 8);
    assert_eq!((line.x, line.y, line.size), (7, 8, 2));
    assert!(plotted(&mut term).is_empty());
    assert_eq!(line.show(&mut term), Ok(()));
    assert_eq!(plotted(&mut term), vec![(7, 8, '─'), (8, 8, '─')]);
}

#[test]
fn show_then_erase_restores_a_blank_region() {
    let mut screen: HashMap<(u16, u16), char> = HashMap::new();
    screen.insert((20, 20), '#');
    let before = screen.clone();
    let mut term = Terminal::new();
    let line = plain_line(3, 4, 6, Direction::SouthEast);
    line.show(&mut term).unwrap();
    apply(&mut screen, &plotted(&mut term));
    assert_eq!(visible(&screen, 4, 5), '╲');
    line.erase(&mut term).unwrap();
    apply(&mut screen, &plotted(&mut term));
    for x in 0..30 {
        for y in 0..30 {
            assert_eq!(visible(&screen, x, y), visible(&before, x, y));
        }
    }
}

#[test]
fn erase_writes_blanks_where_show_wrote() {
    let mut term = Terminal::new();
    let mut line = Line::new();
    line.direction = Direction::South;
    line.style.vs = VerticalLineStyle::Heavy;
    line.size = 4;
    line.show(&mut term).unwrap();
    let shown = plotted(&mut term);
    assert_eq!(shown, vec![(1, 1, '●'), (1, 2, '┃'), (1, 3, '┃'), (1, 4, '●')]);
    line.erase(&mut term).unwrap();
    let erased = plotted(&mut term);
    assert_eq!(erased.len(), shown.len());
    for (s, e) in shown.iter().zip(erased.iter()) {
        assert_eq!((s.0, s.1, ' '), *e);
    }
}

#[test]
fn box_in_large_viewport_writes_every_border_position() {
    let mut term = Terminal::new();
    assert_eq!(draw_box(&mut term, 5, 3, 20, 5, BoxStyle::Single), Ok(()));
    let cells = plotted(&mut term);
    let positions: HashSet<(u16, u16)> = cells.iter().map(|c| (c.0, c.1)).collect();
    // Top and bottom edges of 18 cells, left and right edges of 3, 4 corners.
    assert_eq!(positions.len(), 2 * (20 - 2) + 2 * (5 - 2) + 4);
    assert_eq!(positions.len(), 18 + 18 + 3 + 3 + 4);
    assert_eq!(cells.len(), positions.len());
    let mut screen = HashMap::new();
    apply(&mut screen, &cells);
    assert_eq!(visible(&screen, 5, 3), '┌');
    assert_eq!(visible(&screen, 24, 3), '┐');
    assert_eq!(visible(&screen, 5, 7), '└');
    assert_eq!(visible(&screen, 24, 7), '┘');
    assert_eq!(visible(&screen, 6, 3), '─');
    assert_eq!(visible(&screen, 23, 7), '─');
    assert_eq!(visible(&screen, 5, 4), '│');
    assert_eq!(visible(&screen, 24, 6), '│');
    assert_eq!(visible(&screen, 6, 4), ' ');
}

#[test]
fn box_passing_a_small_viewport_is_refused() {
    let mut term = Terminal::new();
    set_viewport(&mut term, 10, 10);
    assert_eq!(draw_box(&mut term, 5, 3, 20, 5, BoxStyle::Single), Err(TermError::Boundary));
    assert!(plotted(&mut term).is_empty());
}

#[test]
fn box_may_end_on_the_viewport_edge() {
    let mut term = Terminal::new();
    set_viewport(&mut term, 10, 10);
    assert_eq!(draw_box(&mut term, 8, 8, 2, 2, BoxStyle::Double), Ok(()));
    assert_eq!(
        plotted(&mut term),
        vec![(8, 8, '╔'), (9, 8, '╗'), (8, 9, '╚'), (9, 9, '╝')]
    );
    assert_eq!(draw_box(&mut term, 8, 8, 3, 2, BoxStyle::Double), Err(TermError::Boundary));
}

#[test]
fn box_under_two_cells_is_too_small() {
    let mut term = Terminal::new();
    assert_eq!(draw_box(&mut term, 1, 1, 1, 5, BoxStyle::Single), Err(TermError::TooSmall));
    assert_eq!(draw_box(&mut term, 1, 1, 5, 0, BoxStyle::Single), Err(TermError::TooSmall));
    assert!(plotted(&mut term).is_empty());
}

#[test]
fn box_styles_pick_their_glyphs() {
    let cases = [
        (BoxStyle::Single, '─', '│', ['┌', '┐', '└', '┘']),
        (BoxStyle::Double, '═', '║', ['╔', '╗', '╚', '╝']),
        (BoxStyle::SingleRounded, '─', '│', ['╭', '╮', '╰', '╯']),
        (BoxStyle::DoubleRounded, '═', '║', ['╒', '╕', '╘', '╛']),
        (BoxStyle::Dotted, '┄', '┆', ['┌', '┐', '└', '┘']),
        (BoxStyle::Dashed, '┈', '┊', ['┌', '┐', '└', '┘']),
    ];
    for (style, h, v, corners) in cases.iter() {
        let mut term = Terminal::new();
        assert_eq!(draw_box(&mut term, 2, 2, 3, 3, *style), Ok(()));
        assert_eq!(
            plotted(&mut term),
            vec![
                (3, 2, *h),
                (3, 4, *h),
                (2, 3, *v),
                (4, 3, *v),
                (2, 2, corners[0]),
                (4, 2, corners[1]),
                (2, 4, corners[2]),
                (4, 4, corners[3]),
            ]
        );
    }
}

#[test]
fn shaded_rectangle_fills_nine_full_blocks_then_hide_box_blanks_them() {
    let mut term = Terminal::new();
    assert_eq!(draw_shaded_rectangle(&mut term, 0, 0, 3, 3, ShadeStyle::Solid), Ok(()));
    let cells = plotted(&mut term);
    assert_eq!(cells.len(), 9);
    let positions: HashSet<(u16, u16)> = cells.iter().map(|c| (c.0, c.1)).collect();
    assert_eq!(positions.len(), 9);
    assert!(cells.iter().all(|c| c.2 == '█' && c.0 < 3 && c.1 < 3));
    assert_eq!(hide_box(&mut term, 0, 0, 3, 3), Ok(()));
    let blanks = plotted(&mut term);
    let blank_positions: HashSet<(u16, u16)> = blanks.iter().map(|c| (c.0, c.1)).collect();
    assert_eq!(blank_positions, positions);
    assert!(blanks.iter().all(|c| c.2 == ' '));
}

#[test]
fn shaded_rectangle_rows_in_order_and_shades() {
    let mut term = Terminal::new();
    assert_eq!(draw_shaded_rectangle(&mut term, 4, 6, 2, 2, ShadeStyle::Light), Ok(()));
    assert_eq!(
        plotted(&mut term),
        vec![(4, 6, '░'), (5, 6, '░'), (4, 7, '░'), (5, 7, '░')]
    );
    draw_shaded_rectangle(&mut term, 1, 1, 1, 1, ShadeStyle::Medium).unwrap();
    draw_shaded_rectangle(&mut term, 1, 1, 1, 1, ShadeStyle::Dark).unwrap();
    assert_eq!(plotted(&mut term), vec![(1, 1, '▒'), (1, 1, '▓')]);
}

#[test]
fn rectangles_passing_the_viewport_are_refused() {
    let mut term = Terminal::new();
    set_viewport(&mut term, 5, 5);
    assert_eq!(
        draw_shaded_rectangle(&mut term, 3, 0, 3, 1, ShadeStyle::Solid),
        Err(TermError::Boundary)
    );
    assert_eq!(hide_box(&mut term, 0, 3, 1, 3), Err(TermError::Boundary));
    assert_eq!(
        draw_shaded_rectangle(&mut term, u16::MAX, u16::MAX, u16::MAX, u16::MAX, ShadeStyle::Solid),
        Err(TermError::Boundary)
    );
    assert!(plotted(&mut term).is_empty());
}

#[test]
fn horizontal_line_is_one_move_then_its_glyphs() {
    let mut term = Terminal::new();
    assert_eq!(horizontal_line(&mut term, 2, 3, 3, HorizontalLineStyle::Heavy), Ok(()));
    assert_eq!(sent(&mut term), "\x1b[3;2H━━━");
    assert_eq!(horizontal_line(&mut term, 5, 5, 0, HorizontalLineStyle::Heavy), Ok(()));
    assert_eq!(sent(&mut term), "\x1b[5;5H");
}

#[test]
fn vertical_line_moves_before_each_glyph() {
    let mut term = Terminal::new();
    assert_eq!(vertical_line(&mut term, 2, 3, 2, VerticalLineStyle::Heavy), Ok(()));
    assert_eq!(sent(&mut term), "\x1b[3;2H┃\x1b[4;2H┃");
}

#[test]
fn shaded_rectangle_sends_one_move_per_row() {
    let mut term = Terminal::new();
    assert_eq!(draw_shaded_rectangle(&mut term, 0, 0, 3, 3, ShadeStyle::Solid), Ok(()));
    assert_eq!(sent(&mut term), "\x1b[0;0H███\x1b[1;0H███\x1b[2;0H███");
    assert_eq!(hide_box(&mut term, 4, 2, 2, 2), Ok(()));
    assert_eq!(sent(&mut term), "\x1b[2;4H  \x1b[3;4H  ");
}

#[test]
fn box_sends_edges_as_runs_and_sides_cell_by_cell() {
    let mut term = Terminal::new();
    assert_eq!(draw_box(&mut term, 2, 2, 4, 3, BoxStyle::Single), Ok(()));
    assert_eq!(
        sent(&mut term),
        "\x1b[2;3H──\x1b[4;3H──\x1b[3;2H│\x1b[3;5H│\x1b[2;2H┌\x1b[2;5H┐\x1b[4;2H└\x1b[4;5H┘"
    );
    assert_eq!(draw_box(&mut term, 1, 1, 2, 2, BoxStyle::Single), Ok(()));
    assert_eq!(
        sent(&mut term),
        "\x1b[1;2H\x1b[2;2H\x1b[1;1H┌\x1b[1;2H┐\x1b[2;1H└\x1b[2;2H┘"
    );
}

#[test]
fn horizontal_and_vertical_runs() {
    let mut term = Terminal::new();
    assert_eq!(horizontal_line(&mut term, 2, 3, 3, HorizontalLineStyle::Double), Ok(()));
    assert_eq!(plotted(&mut term), vec![(2, 3, '═'), (3, 3, '═'), (4, 3, '═')]);
    assert_eq!(vertical_line(&mut term, 7, 1, 2, VerticalLineStyle::Dotted), Ok(()));
    assert_eq!(plotted(&mut term), vec![(7, 1, '·'), (7, 2, '·')]);
}

#[test]
fn runs_checked_against_the_viewport() {
    let mut term = Terminal::new();
    set_viewport(&mut term, 10, 5);
    assert_eq!(horizontal_line(&mut term, 10, 1, 0, HorizontalLineStyle::Light), Err(TermError::Boundary));
    assert_eq!(horizontal_line(&mut term, 1, 5, 1, HorizontalLineStyle::Light), Err(TermError::Boundary));
    assert_eq!(horizontal_line(&mut term, 8, 1, 3, HorizontalLineStyle::Light), Err(TermError::Boundary));
    assert_eq!(horizontal_line(&mut term, 8, 1, usize::MAX, HorizontalLineStyle::Light), Err(TermError::Boundary));
    assert_eq!(vertical_line(&mut term, 1, 3, 3, VerticalLineStyle::Light), Err(TermError::Boundary));
    assert_eq!(horizontal_line(&mut term, 0, 1, 2, HorizontalLineStyle::Light), Err(TermError::Boundary));
    assert_eq!(vertical_line(&mut term, 1, 0, 2, VerticalLineStyle::Light), Err(TermError::Boundary));
    assert!(plotted(&mut term).is_empty());
    assert_eq!(horizontal_line(&mut term, 8, 1, 2, HorizontalLineStyle::Light), Ok(()));
    assert_eq!(vertical_line(&mut term, 1, 3, 2, VerticalLineStyle::Light), Ok(()));
    assert_eq!(plotted(&mut term).len(), 4);
}

#[test]
fn diagonal_runs_follow_their_direction() {
    let mut term = Terminal::new();
    assert_eq!(diagonal_line(&mut term, 5, 5, 3, Direction::NorthWest), Ok(()));
    assert_eq!(plotted(&mut term), vec![(5, 5, '╱'), (6, 4, '╱'), (7, 3, '╱')]);
    assert_eq!(diagonal_line(&mut term, 5, 5, 2, Direction::NorthEast), Ok(()));
    assert_eq!(plotted(&mut term), vec![(5, 5, '╲'), (4, 4, '╲')]);
    assert_eq!(diagonal_line(&mut term, 5, 5, 2, Direction::SouthWest), Ok(()));
    assert_eq!(plotted(&mut term), vec![(5, 5, '╲'), (6, 6, '╲')]);
    assert_eq!(diagonal_line(&mut term, 5, 5, 2, Direction::SouthEast), Ok(()));
    assert_eq!(plotted(&mut term), vec![(5, 5, '╲'), (6, 6, '╲')]);
}

#[test]
fn diagonal_run_stops_at_the_edge_with_earlier_cells_drawn() {
    let mut term = Terminal::new();
    assert_eq!(diagonal_line(&mut term, 2, 2, 5, Direction::NorthEast), Err(TermError::Boundary));
    assert_eq!(plotted(&mut term), vec![(2, 2, '╲'), (1, 1, '╲')]);
    assert_eq!(diagonal_line(&mut term, 1, 3, 2, Direction::NorthEast), Err(TermError::Boundary));
    assert_eq!(plotted(&mut term), vec![(1, 3, '╲')]);
}

#[test]
fn diagonal_run_reaches_the_last_row_and_column() {
    let mut term = Terminal::new();
    set_viewport(&mut term, 5, 5);
    assert_eq!(diagonal_line(&mut term, 1, 1, 5, Direction::SouthEast), Ok(()));
    assert_eq!(
        plotted(&mut term),
        vec![(1, 1, '╲'), (2, 2, '╲'), (3, 3, '╲'), (4, 4, '╲'), (5, 5, '╲')]
    );
    assert_eq!(diagonal_line(&mut term, 1, 1, 6, Direction::SouthEast), Err(TermError::Boundary));
    assert_eq!(plotted(&mut term).len(), 5);
    assert_eq!(draw_segment(&mut term, 1, 1, 5, 5, '*'), Ok(()));
    assert_eq!(plotted(&mut term).len(), 5);
}

#[test]
fn diagonal_run_refuses_a_start_outside_and_ignores_cardinals() {
    let mut term = Terminal::new();
    assert_eq!(diagonal_line(&mut term, 81, 3, 2, Direction::SouthEast), Err(TermError::Boundary));
    assert_eq!(diagonal_line(&mut term, 0, 3, 2, Direction::SouthEast), Err(TermError::Boundary));
    assert_eq!(diagonal_line(&mut term, 3, 3, 4, Direction::East), Ok(()));
    assert!(plotted(&mut term).is_empty());
    assert_eq!(diagonal_line(&mut term, 80, 3, 2, Direction::SouthEast), Err(TermError::Boundary));
    assert_eq!(plotted(&mut term), vec![(80, 3, '╲')]);
}

#[test]
fn line_style_glyph_lookups() {
    assert_eq!(get_horizontal_line_char(&HorizontalLineStyle::Wavy), '﹉');
    assert_eq!(get_horizontal_line_char(&HorizontalLineStyle::Space), ' ');
    assert_eq!(get_vertical_line_char(&VerticalLineStyle::HeavyDoubleDash), '╏');
    assert_eq!(get_diagonal_line_char(&DiagonalLineStyle::BackwardSlash), '\\');
    assert_eq!(get_vertice(&VerticeStyle::Circle(CircleSymbol::Bullseye)), '◎');
    assert_eq!(get_vertice(&VerticeStyle::Star(StarSymbol::WhiteStar)), '☆');
    assert_eq!(get_vertice(&VerticeStyle::Space), ' ');
}
