use rpian_terminal::terminal::key_from_line;
use rpian_terminal::{
    clear_line, clear_screen, clear_to_line_end, clear_to_line_start, clear_to_screen_end,
    clear_to_screen_start, get_viewport, hide_cursor, move_cursor_to, print, put_char,
    reset_attributes, reset_color, restore_cursor_location, save_cursor_location, set_attribute,
    set_background_color, set_foreground_color, set_viewport, show_cursor, Attribute, Color,
    TermError, Terminal,
};

fn taken(term: &mut Terminal) -> String {
    term.take_output().into_iter().collect()
}

#[test]
fn new_terminal_is_80_by_24_and_empty() {
    let mut term = Terminal::new();
    assert_eq!(get_viewport(&term), (80, 24));
    assert_eq!(taken(&mut term), "");
}

#[test]
fn set_viewport_changes_bounds_only() {
    let mut term = Terminal::new();
    put_char(&mut term, 'a');
    set_viewport(&mut term, 10, 5);
    assert_eq!(get_viewport(&term), (10, 5));
    assert_eq!(taken(&mut term), "a");
}

#[test]
fn take_output_empties_the_queue() {
    let mut term = Terminal::new();
    put_char(&mut term, 'x');
    assert_eq!(taken(&mut term), "x");
    assert_eq!(taken(&mut term), "");
}

#[test]
fn move_cursor_inside_viewport_sends_row_then_column() {
    let mut term = Terminal::new();
    assert_eq!(move_cursor_to(&mut term, 5, 3), Ok(()));
    assert_eq!(taken(&mut term), "\x1b[3;5H");
}

#[test]
fn move_cursor_to_every_corner_of_a_small_viewport() {
    let mut term = Terminal::new();
    set_viewport(&mut term, 3, 2);
    for x in 1..=3u16 {
        for y in 1..=2u16 {
            assert_eq!(move_cursor_to(&mut term, x, y), Ok(()));
            assert_eq!(taken(&mut term), format!("\x1b[{};{}H", y, x));
        }
    }
}

#[test]
fn move_cursor_multi_digit_coordinates() {
    let mut term = Terminal::new();
    set_viewport(&mut term, 200, 100);
    assert_eq!(move_cursor_to(&mut term, 123, 45), Ok(()));
    assert_eq!(move_cursor_to(&mut term, 200, 100), Ok(()));
    assert_eq!(taken(&mut term), "\x1b[45;123H\x1b[100;200H");
}

#[test]
fn move_cursor_outside_viewport_is_boundary_error_and_sends_nothing() {
    let mut term = Terminal::new();
    assert_eq!(move_cursor_to(&mut term, 81, 1), Err(TermError::Boundary));
    assert_eq!(move_cursor_to(&mut term, 1, 25), Err(TermError::Boundary));
    assert_eq!(move_cursor_to(&mut term, 0, 1), Err(TermError::Boundary));
    assert_eq!(move_cursor_to(&mut term, 1, 0), Err(TermError::Boundary));
    assert_eq!(move_cursor_to(&mut term, u16::MAX, u16::MAX), Err(TermError::Boundary));
    assert_eq!(taken(&mut term), "");
}

#[test]
fn move_cursor_in_empty_viewport_always_fails() {
    let mut term = Terminal::new();
    set_viewport(&mut term, 0, 0);
    assert_eq!(move_cursor_to(&mut term, 1, 1), Err(TermError::Boundary));
    assert_eq!(move_cursor_to(&mut term, 0, 0), Err(TermError::Boundary));
    assert_eq!(taken(&mut term), "");
}

#[test]
fn clear_screen_clears_then_homes() {
    let mut term = Terminal::new();
    assert_eq!(clear_screen(&mut term), Ok(()));
    assert_eq!(taken(&mut term), "\x1b[2J\x1b[1;1H");
}

#[test]
fn clear_screen_in_empty_viewport_clears_but_reports_the_move() {
    let mut term = Terminal::new();
    set_viewport(&mut term, 0, 24);
    assert_eq!(clear_screen(&mut term), Err(TermError::Boundary));
    assert_eq!(taken(&mut term), "\x1b[2J");
}

#[test]
fn colour_sequences() {
    let mut term = Terminal::new();
    set_foreground_color(&mut term, Color::Red);
    set_background_color(&mut term, Color::Blue);
    set_foreground_color(&mut term, Color::Black);
    set_background_color(&mut term, Color::White);
    reset_color(&mut term);
    assert_eq!(taken(&mut term), "\x1b[31m\x1b[44m\x1b[30m\x1b[47m\x1b[0m");
}

#[test]
fn every_colour_has_its_number() {
    let colours = [
        Color::Black,
        Color::Red,
        Color::Green,
        Color::Yellow,
        Color::Blue,
        Color::Magenta,
        Color::Cyan,
        Color::White,
    ];
    for (n, c) in colours.iter().enumerate() {
        let mut term = Terminal::new();
        set_foreground_color(&mut term, *c);
        assert_eq!(taken(&mut term), format!("\x1b[3{}m", n));
    }
}

#[test]
fn attribute_sequences() {
    let cases = [
        (Attribute::Reset, "\x1b[0m"),
        (Attribute::Bright, "\x1b[1m"),
        (Attribute::Dim, "\x1b[2m"),
        (Attribute::Underscore, "\x1b[4m"),
        (Attribute::Blink, "\x1b[5m"),
        (Attribute::Reverse, "\x1b[7m"),
        (Attribute::Hidden, "\x1b[8m"),
    ];
    for (a, expected) in cases.iter() {
        let mut term = Terminal::new();
        set_attribute(&mut term, *a);
        assert_eq!(taken(&mut term), *expected);
    }
    let mut term = Terminal::new();
    reset_attributes(&mut term);
    assert_eq!(taken(&mut term), "\x1b[0m");
}

#[test]
fn cursor_and_clearing_sequences() {
    let mut term = Terminal::new();
    save_cursor_location(&mut term);
    restore_cursor_location(&mut term);
    show_cursor(&mut term);
    hide_cursor(&mut term);
    clear_to_line_end(&mut term);
    clear_to_line_start(&mut term);
    clear_line(&mut term);
    clear_to_screen_start(&mut term);
    clear_to_screen_end(&mut term);
    assert_eq!(
        taken(&mut term),
        "\x1b[s\x1b[u\x1b[?25h\x1b[?25l\x1b[K\x1b[1K\x1b[2K\x1b[1J\x1b[J"
    );
}

#[test]
fn print_println_and_put_char() {
    let mut term = Terminal::new();
    print(&mut term, "héllo");
    rpian_terminal::terminal::println(&mut term, " wörld");
    rpian_terminal::terminal::println(&mut term, "");
    put_char(&mut term, '●');
    assert_eq!(taken(&mut term), "héllo wörld\n\n●");
}

#[test]
fn key_is_first_character_of_line() {
    assert_eq!(key_from_line("yes\n"), 'y');
    assert_eq!(key_from_line("é"), 'é');
    assert_eq!(key_from_line(""), '\0');
}
