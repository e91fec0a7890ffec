//! Pixel geometry of the board: where the grid lines run and which rectangle
//! a tile covers.
//!
//! The board is a square window of `window_size` pixels per side, divided into
//! `game_size` cells per side. Every coordinate is computed with integer
//! arithmetic and truncating division, so a window size that the grid does not
//! divide evenly leaves a margin at the right and bottom edges. Coordinates
//! are held in 64 bits: no input can make them overflow.

use vstd::prelude::*;

verus! {

/// A position in pixel space, origin at the top-left corner of the window.
#[derive(Clone, Copy, Debug, PartialEq, Eq, Structural)]
pub struct Point {
    pub x: i64,
    pub y: i64,
}

/// A straight segment between two pixel positions.
#[derive(Clone, Copy, Debug, PartialEq, Eq, Structural)]
pub struct Line {
    pub from: Point,
    pub to: Point,
}

/// An axis-aligned rectangle: its top-left corner and its extent.
#[derive(Clone, Copy, Debug, PartialEq, Eq, Structural)]
pub struct Rect {
    pub x: i64,
    pub y: i64,
    pub width: u32,
    pub height: u32,
}

/// Quotient of `a` by a positive `b`, rounded toward zero.
pub open spec fn truncating_div(a: int, b: int) -> int
    recommends
        b > 0,
{
    if a >= 0 {
        a / b
    } else {
        -((-a) / b)
    }
}

/// Edge length of one cell in pixels.
#[verifier::inline]
pub open spec fn cell_size(game_size: int, window_size: int) -> int
    recommends
        game_size >= 1,
        window_size >= 0,
{
    window_size / game_size
}

/// The `i`-th horizontal grid line: it spans the full width of the window
/// at the height of `i` cells.
pub open spec fn horizontal_line(game_size: int, window_size: int, i: int) -> Line {
    let at = cell_size(game_size, window_size) * i;
    Line { from: Point { x: 0, y: at as i64 }, to: Point { x: window_size as i64, y: at as i64 } }
}

/// The `i`-th vertical grid line: it spans the full height of the window
/// at the distance of `i` cells from the left edge.
pub open spec fn vertical_line(game_size: int, window_size: int, i: int) -> Line {
    let at = cell_size(game_size, window_size) * i;
    Line { from: Point { x: at as i64, y: 0 }, to: Point { x: at as i64, y: window_size as i64 } }
}

/// Number of interior grid lines: one horizontal and one vertical between
/// each pair of neighbouring rows and columns, none on the outer border.
pub open spec fn grid_line_count(game_size: int) -> nat {
    if game_size >= 1 {
        (2 * (game_size - 1)) as nat
    } else {
        0
    }
}

/// The interior grid lines in drawing order: for `i` from 1 up to
/// `game_size - 1`, the `i`-th horizontal line and then the `i`-th vertical
/// line.
pub open spec fn grid(game_size: int, window_size: int) -> Seq<Line> {
    Seq::new(
        grid_line_count(game_size),
        |k: int|
            if k % 2 == 0 {
                horizontal_line(game_size, window_size, k / 2 + 1)
            } else {
                vertical_line(game_size, window_size, k / 2 + 1)
            },
    )
}

/// Pixel offset of grid coordinate `coord` along one axis:
/// `coord * window_size / game_size`, rounded toward zero.
pub open spec fn pixel_offset(coord: int, game_size: int, window_size: int) -> int
    recommends
        game_size >= 1,
{
    truncating_div(coord * window_size, game_size)
}

/// The rectangle covered by the tile in column `x` and row `y`.
pub open spec fn tile_rect_of(x: int, y: int, game_size: int, window_size: int) -> Rect
    recommends
        game_size >= 1,
{
    Rect {
        x: pixel_offset(x, game_size, window_size) as i64,
        y: pixel_offset(y, game_size, window_size) as i64,
        width: cell_size(game_size, window_size) as u32,
        height: cell_size(game_size, window_size) as u32,
    }
}

/// The position of every interior grid line fits in the window, so the
/// coordinates in [`horizontal_line`] and [`vertical_line`] are exact.
pub proof fn lemma_line_within_window(game_size: int, window_size: int, i: int)
    requires
        game_size >= 1,
        0 <= window_size,
        0 <= i <= game_size,
    ensures
        0 <= cell_size(game_size, window_size) * i <= window_size,
{
    let cell = window_size / game_size;
    assert(0 <= cell * i <= window_size) by (nonlinear_arith)
        requires
            game_size >= 1,
            0 <= window_size,
            0 <= i <= game_size,
            cell == window_size / game_size,
    ;
}

/// The pixel offset of a 32-bit grid coordinate in a 32-bit window fits in
/// 64 bits, so the coordinates in [`tile_rect_of`] are exact.
pub proof fn lemma_pixel_offset_bounds(coord: int, game_size: int, window_size: int)
    requires
        game_size >= 1,
        0 <= window_size <= u32::MAX,
        i32::MIN <= coord <= i32::MAX,
    ensures
        i64::MIN < coord * window_size < i64::MAX,
        i64::MIN < pixel_offset(coord, game_size, window_size) < i64::MAX,
        coord >= 0 ==> 0 <= pixel_offset(coord, game_size, window_size) <= coord * window_size,
        coord <= 0 ==> coord * window_size <= pixel_offset(coord, game_size, window_size) <= 0,
{
    let product = coord * window_size;
    assert(-0x8000_0000 * 0xffff_ffff <= product <= 0x7fff_ffff * 0xffff_ffff)
        by (nonlinear_arith)
        requires
            0 <= window_size <= 0xffff_ffff,
            -0x8000_0000 <= coord <= 0x7fff_ffff,
            product == coord * window_size,
    ;
    assert(coord >= 0 ==> product >= 0) by (nonlinear_arith)
        requires
            0 <= window_size,
            product == coord * window_size,
    ;
    assert(coord <= 0 ==> product <= 0) by (nonlinear_arith)
        requires
            0 <= window_size,
            product == coord * window_size,
    ;
    if product >= 0 {
        assert(0 <= product / game_size <= product) by (nonlinear_arith)
            requires
                product >= 0,
                game_size >= 1,
        ;
    } else {
        let positive = -product;
        assert(0 <= positive / game_size <= positive) by (nonlinear_arith)
            requires
                positive >= 0,
                game_size >= 1,
        ;
    }
}

/// Where the grid divides the window evenly, tiles sit exactly between the
/// grid lines: the offset of coordinate `coord` is `coord` whole cells.
pub proof fn lemma_even_grid_aligns(coord: int, game_size: int, window_size: int)
    requires
        game_size >= 1,
        window_size >= 0,
        window_size % game_size == 0,
    ensures
        pixel_offset(coord, game_size, window_size) == cell_size(game_size, window_size) * coord,
{
    let cell = window_size / game_size;
    assert(window_size == cell * game_size) by (nonlinear_arith)
        requires
            game_size >= 1,
            window_size % game_size == 0,
            cell == window_size / game_size,
    ;
    if coord >= 0 {
        assert((coord * window_size) / game_size == cell * coord) by (nonlinear_arith)
            requires
                game_size >= 1,
                window_size == cell * game_size,
        ;
    } else {
        assert((-(coord * window_size)) / game_size == -(cell * coord)) by (nonlinear_arith)
            requires
                game_size >= 1,
                window_size == cell * game_size,
        ;
    }
    assert(coord >= 0 ==> coord * window_size >= 0) by (nonlinear_arith)
        requires
            window_size >= 0,
    ;
    assert(coord < 0 ==> coord * window_size <= 0) by (nonlinear_arith)
        requires
            window_size >= 0,
    ;
}

/// Computes the interior grid lines of a board of `game_size` cells per side
/// in a window of `window_size` pixels per side.
///
/// A board of one cell has no interior line, and neither has a `game_size`
/// below one.
pub fn grid_lines(game_size: i32, window_size: u32) -> (lines: Vec<Line>)
    ensures
        lines@ == grid(game_size as int, window_size as int),
        lines@.len() == grid_line_count(game_size as int),
{
    let mut lines: Vec<Line> = Vec::new();
    if game_size <= 1 {
        return lines;
    }
    let extent: i64 = window_size as i64;
    let cell: i64 = extent / (game_size as i64);
    let mut i: i32 = 1;
    while i < game_size
        invariant
            1 <= i <= game_size,
            extent == window_size,
            cell == cell_size(game_size as int, window_size as int),
            lines@.len() == 2 * (i - 1),
            forall|k: int|
                0 <= k < lines@.len() ==> lines@[k] == grid(
                    game_size as int,
                    window_size as int,
                )[k],
        decreases game_size - i,
    {
        proof {
            lemma_line_within_window(game_size as int, window_size as int, i as int);
        }
        let at: i64 = cell * (i as i64);
        lines.push(Line { from: Point { x: 0, y: at }, to: Point { x: extent, y: at } });
        lines.push(Line { from: Point { x: at, y: 0 }, to: Point { x: at, y: extent } });
        i = i + 1;
    }
    lines
}

/// Computes the rectangle covered by the tile in column `x` and row `y`.
///
/// The corner is `x * window_size / game_size` and
/// `y * window_size / game_size`, each rounded toward zero; the tile is one
/// cell wide and one cell high.
pub fn tile_rect(x: i32, y: i32, game_size: i32, window_size: u32) -> (rect: Rect)
    requires
        game_size >= 1,
    ensures
        rect == tile_rect_of(x as int, y as int, game_size as int, window_size as int),
        rect.x == pixel_offset(x as int, game_size as int, window_size as int),
        rect.y == pixel_offset(y as int, game_size as int, window_size as int),
        rect.width == cell_size(game_size as int, window_size as int),
        rect.height == cell_size(game_size as int, window_size as int),
{
    proof {
        lemma_pixel_offset_bounds(x as int, game_size as int, window_size as int);
        lemma_pixel_offset_bounds(y as int, game_size as int, window_size as int);
    }
    let cells: i64 = game_size as i64;
    let extent: i64 = window_size as i64;
    let side: u32 = window_size / (game_size as u32);
    Rect {
        x: (x as i64) * extent / cells,
        y: (y as i64) * extent / cells,
        width: side,
        height: side,
    }
}

} // verus!
