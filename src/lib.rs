//! Terminal rendering toolkit: ANSI escape sequences for cursor movement,
//! colours, attributes and screen clearing, and a shape engine that draws
//! lines, segments, boxes and shaded rectangles with Unicode glyphs.
//!
//! Nothing here touches a real terminal. Every operation appends the bytes it
//! would send to the pending output of a [`Terminal`], which also carries the
//! viewport that positions are checked against; the caller writes that output
//! wherever it likes.

pub mod arrow;
pub mod braille;
pub mod canvas;
pub mod chess;
pub mod circle;
pub mod emoji;
pub mod error;
pub mod line;
pub mod math;
pub mod raster;
pub mod rbox;
pub mod star;
pub mod terminal;
pub mod triangle;

pub use circle::CircleSymbol;
pub use error::TermError;
pub use line::{Direction, Line, LineStyle, Shape};
pub use raster::{bresenham_points, draw_segment};
pub use rbox::{BoxStyle, ShadeStyle};
pub use terminal::{
    clear_line, clear_screen, clear_to_line_end, clear_to_line_start, clear_to_screen_end,
    clear_to_screen_start, get_viewport, hide_cursor, move_cursor_to, print, put_char,
    reset_attributes, reset_color, restore_cursor_location, save_cursor_location, set_attribute,
    set_background_color, set_foreground_color, set_viewport, show_cursor, Attribute, Color,
    Terminal,
};
