//! A passive view of a tile-sliding puzzle board.
//!
//! The library turns a board snapshot into the exact list of drawing
//! commands that make up one frame: the background, the grid, and for each
//! tile a filled rectangle with its number on top. It owns no game logic
//! and touches no window: a frame is plain data that any canvas can carry
//! out.

pub mod color;
pub mod frame;
pub mod geometry;
pub mod label;
pub mod view;

pub use color::{hsv2rgb, map_value_to_color, Color, Hsv};
pub use frame::DrawCommand;
pub use geometry::{grid_lines, tile_rect, Line, Point, Rect};
pub use label::decimal_text;
pub use view::{Square, State, View};
