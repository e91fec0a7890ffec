//! The board view: it keeps the colours, the grid and the current snapshot
//! of the board, and writes down the frame that shows them.
//!
//! The view is passive. It holds no rule of the game and checks no
//! snapshot: it draws whatever tiles it is given, in the order given.

use vstd::prelude::*;
use vstd::view::View as _;
use crate::color::{map_value_to_color, tile_color, Color};
use crate::frame::{DrawCommand, DrawOp};
use crate::geometry::{grid, grid_line_count, grid_lines, tile_rect, tile_rect_of, Line};
use crate::label::{decimal, decimal_text};

verus! {

/// One tile of the board: its column `x` and row `y`, counted from the
/// top-left cell, and the number it shows.
#[derive(Clone, Copy, Debug, PartialEq, Eq, Structural)]
pub struct Square {
    pub x: i32,
    pub y: i32,
    pub value: u32,
}

/// A snapshot of the board: every tile that is visible.
pub type State = Vec<Square>;

/// The view of one board.
pub struct View {
    lines: Vec<Line>,
    bg_color: Color,
    line_color: Color,
    squares: Vec<Square>,
    window_size: u32,
    game_size: i32,
}

/// Colour of the text on every tile: black.
pub open spec fn label_color() -> Color {
    Color { r: 0, g: 0, b: 0 }
}

/// The command that fills the rectangle of `tile` with the tile's colour.
pub open spec fn fill_op(tile: Square, game_size: int, window_size: int) -> DrawOp {
    DrawOp::FillRect {
        color: tile_color(tile.value as nat),
        rect: tile_rect_of(tile.x as int, tile.y as int, game_size, window_size),
    }
}

/// The command that writes the number of `tile` over the tile's rectangle.
pub open spec fn text_op(tile: Square, game_size: int, window_size: int) -> DrawOp {
    DrawOp::Text {
        label: decimal(tile.value as nat),
        color: label_color(),
        rect: tile_rect_of(tile.x as int, tile.y as int, game_size, window_size),
    }
}

/// One stroke in `color` for each of `lines`, in order.
pub open spec fn line_ops(color: Color, lines: Seq<Line>) -> Seq<DrawOp> {
    Seq::new(lines.len(), |k: int| DrawOp::Line { color: color, line: lines[k] })
}

/// For each of `tiles`, in order, its fill and then its text.
pub open spec fn tile_ops(tiles: Seq<Square>, game_size: int, window_size: int) -> Seq<DrawOp> {
    Seq::new(
        2 * tiles.len(),
        |k: int|
            if k % 2 == 0 {
                fill_op(tiles[k / 2], game_size, window_size)
            } else {
                text_op(tiles[k / 2], game_size, window_size)
            },
    )
}

/// The frame that shows `tiles` on a board of `game_size` cells per side in
/// a window of `window_size` pixels per side: clear to the background,
/// stroke the grid, draw every tile, present.
pub open spec fn frame_of(
    background: Color,
    line_color: Color,
    game_size: int,
    window_size: int,
    tiles: Seq<Square>,
) -> Seq<DrawOp> {
    seq![DrawOp::Clear { color: background }] + line_ops(line_color, grid(game_size, window_size))
        + tile_ops(tiles, game_size, window_size) + seq![DrawOp::Present]
}

impl View {
    /// Colour that the surface is cleared to.
    pub closed spec fn background(&self) -> Color {
        self.bg_color
    }

    /// Colour of the grid lines.
    pub closed spec fn line_color(&self) -> Color {
        self.line_color
    }

    /// Cells per side of the board.
    pub closed spec fn game_size(&self) -> int {
        self.game_size as int
    }

    /// Pixels per side of the window.
    pub closed spec fn window_size(&self) -> int {
        self.window_size as int
    }

    /// The grid lines that the view keeps.
    pub closed spec fn lines(&self) -> Seq<Line> {
        self.lines@
    }

    /// The tiles of the current snapshot, in the order given.
    pub closed spec fn tiles(&self) -> Seq<Square> {
        self.squares@
    }

    /// The view is well formed: the board has at least one cell, the window
    /// at least one pixel, and the lines kept are the grid of the board.
    pub open spec fn wf(&self) -> bool {
        &&& self.game_size() >= 1
        &&& self.window_size() >= 1
        &&& self.lines() == grid(self.game_size(), self.window_size())
    }

    /// The frame that shows the current snapshot.
    pub open spec fn frame(&self) -> Seq<DrawOp> {
        frame_of(
            self.background(),
            self.line_color(),
            self.game_size(),
            self.window_size(),
            self.tiles(),
        )
    }

    /// `self` is `before` with its snapshot replaced by `tiles`: colours,
    /// sizes and grid are those of `before`, and nothing of the earlier
    /// snapshot is left.
    pub open spec fn is_update_of(&self, before: View, tiles: Seq<Square>) -> bool {
        &&& self.tiles() == tiles
        &&& self.background() == before.background()
        &&& self.line_color() == before.line_color()
        &&& self.game_size() == before.game_size()
        &&& self.window_size() == before.window_size()
        &&& self.lines() == before.lines()
    }

    /// Makes the view of an empty board of `game_size` cells per side in a
    /// window of `window_size` pixels per side, and lays out its grid.
    pub fn new(bg_color: Color, line_color: Color, game_size: i32, window_size: u32) -> (view: View)
        requires
            game_size >= 1,
            window_size >= 1,
        ensures
            view.wf(),
            view.background() == bg_color,
            view.line_color() == line_color,
            view.game_size() == game_size,
            view.window_size() == window_size,
            view.lines() == grid(game_size as int, window_size as int),
            view.lines().len() == 2 * (game_size - 1),
            view.tiles() == Seq::<Square>::empty(),
    {
        let lines = grid_lines(game_size, window_size);
        View { lines, bg_color, line_color, squares: Vec::new(), window_size, game_size }
    }

    /// Replaces the snapshot by `squares`. Nothing is checked and nothing
    /// of the earlier snapshot is kept.
    pub fn update(&mut self, squares: State)
        ensures
            final(self).is_update_of(*old(self), squares@),
            old(self).wf() ==> final(self).wf(),
    {
        self.squares = squares;
    }

    /// Writes down the frame that shows the current snapshot.
    ///
    /// The frame clears the surface to the background colour, strokes every
    /// grid line in the line colour, then for each tile of the snapshot, in
    /// order, fills the tile's rectangle with the colour of its number and
    /// writes the number in black over the same rectangle, and at last
    /// presents the result.
    pub fn draw(&self) -> (frame: Vec<DrawCommand>)
        requires
            self.wf(),
        ensures
            frame.deep_view() == self.frame(),
            frame@.len() == 2 + grid_line_count(self.game_size()) + 2 * self.tiles().len(),
    {
        let ghost target = self.frame();
        let ghost strokes = line_ops(self.line_color(), self.lines());
        let ghost fills = tile_ops(self.tiles(), self.game_size(), self.window_size());
        let mut frame: Vec<DrawCommand> = Vec::new();
        frame.push(DrawCommand::Clear { color: self.bg_color });
        let mut i: usize = 0;
        while i < self.lines.len()
            invariant
                self.wf(),
                i <= self.lines@.len(),
                strokes == line_ops(self.line_color(), self.lines()),
                frame@.len() == 1 + i,
                frame@[0]@ == (DrawOp::Clear { color: self.background() }),
                forall|k: int| 0 <= k < i ==> (#[trigger] frame@[1 + k])@ == strokes[k],
            decreases self.lines@.len() - i,
        {
            frame.push(DrawCommand::Line { color: self.line_color, line: self.lines[i] });
            i = i + 1;
        }
        let ghost count = self.lines@.len() as int;
        let mut j: usize = 0;
        while j < self.squares.len()
            invariant
                self.wf(),
                j <= self.squares@.len(),
                count == self.lines@.len(),
                strokes == line_ops(self.line_color(), self.lines()),
                fills == tile_ops(self.tiles(), self.game_size(), self.window_size()),
                frame@.len() == 1 + count + 2 * j,
                frame@[0]@ == (DrawOp::Clear { color: self.background() }),
                forall|k: int| 0 <= k < count ==> (#[trigger] frame@[1 + k])@ == strokes[k],
                forall|k: int|
                    0 <= k < 2 * j ==> (#[trigger] frame@[1 + count + k])@ == fills[k],
            decreases self.squares@.len() - j,
        {
            let tile = &self.squares[j];
            let rect = tile_rect(tile.x, tile.y, self.game_size, self.window_size);
            let color = map_value_to_color(tile.value);
            let label = decimal_text(tile.value);
            let ghost before = frame@;
            frame.push(DrawCommand::FillRect { color, rect });
            frame.push(DrawCommand::Text { label, color: Color { r: 0, g: 0, b: 0 }, rect });
            proof {
                assert(fills[2 * j] == fill_op(self.tiles()[j as int], self.game_size(), self.window_size()));
                assert(fills[2 * j + 1] == text_op(self.tiles()[j as int], self.game_size(), self.window_size()));
                assert forall|k: int| 0 <= k < 2 * (j + 1) implies (#[trigger] frame@[1 + count
                    + k])@ == fills[k] by {
                    if k < 2 * j {
                        assert(frame@[1 + count + k] == before[1 + count + k]);
                    }
                }
                assert forall|k: int| 0 <= k < count implies (#[trigger] frame@[1 + k])@
                    == strokes[k] by {
                    assert(frame@[1 + k] == before[1 + k]);
                }
            }
            j = j + 1;
        }
        frame.push(DrawCommand::Present);
        proof {
            let built = frame.deep_view();
            assert(built.len() == target.len());
            assert forall|k: int| 0 <= k < built.len() implies built[k] == target[k] by {
                if k == 0 {
                } else if k < 1 + count {
                    assert(frame@[1 + (k - 1)]@ == strokes[k - 1]);
                } else if k < 1 + count + fills.len() {
                    assert(frame@[1 + count + (k - 1 - count)]@ == fills[k - 1 - count]);
                } else {
                }
            }
            assert(built =~= target);
        }
        frame
    }
}

/// Replacing the snapshot twice leaves only the second one: after an update
/// with `first` and then an update with `second`, the view is the starting
/// view with `second` as its snapshot, and its frame is the frame of
/// `second` alone, whatever `first` held.
pub proof fn lemma_update_replaces(
    start: View,
    first: Seq<Square>,
    middle: View,
    second: Seq<Square>,
    end: View,
)
    requires
        middle.is_update_of(start, first),
        end.is_update_of(middle, second),
    ensures
        end.is_update_of(start, second),
        end.frame() == frame_of(
            start.background(),
            start.line_color(),
            start.game_size(),
            start.window_size(),
            second,
        ),
        start.wf() ==> end.wf(),
{
}

/// The layout of a frame: it opens with the clear, goes on with one stroke
/// for each of the `2 * (game_size - 1)` grid lines, then holds two commands
/// for each tile, the fill and the text, and closes with the present.
pub proof fn lemma_frame_layout(
    background: Color,
    line_color: Color,
    game_size: int,
    window_size: int,
    tiles: Seq<Square>,
)
    requires
        game_size >= 1,
    ensures
        ({
            let frame = frame_of(background, line_color, game_size, window_size, tiles);
            let count = 2 * (game_size - 1);
            &&& frame.len() == 2 + count + 2 * tiles.len()
            &&& frame[0] == (DrawOp::Clear { color: background })
            &&& frame[frame.len() - 1] == DrawOp::Present
            &&& forall|k: int|
                0 <= k < count ==> #[trigger] frame[1 + k] == (DrawOp::Line {
                    color: line_color,
                    line: grid(game_size, window_size)[k],
                })
            &&& forall|t: int|
                0 <= t < tiles.len() ==> {
                    &&& #[trigger] frame[1 + count + 2 * t] == fill_op(
                        tiles[t],
                        game_size,
                        window_size,
                    )
                    &&& frame[1 + count + 2 * t + 1] == text_op(tiles[t], game_size, window_size)
                }
        }),
{
    let frame = frame_of(background, line_color, game_size, window_size, tiles);
    let count = 2 * (game_size - 1);
    let strokes = line_ops(line_color, grid(game_size, window_size));
    let fills = tile_ops(tiles, game_size, window_size);
    assert forall|k: int| 0 <= k < count implies #[trigger] frame[1 + k] == (DrawOp::Line {
        color: line_color,
        line: grid(game_size, window_size)[k],
    }) by {
        assert(frame[1 + k] == strokes[k]);
    }
    assert forall|t: int| 0 <= t < tiles.len() implies {
        &&& #[trigger] frame[1 + count + 2 * t] == fill_op(tiles[t], game_size, window_size)
        &&& frame[1 + count + 2 * t + 1] == text_op(tiles[t], game_size, window_size)
    } by {
        assert(frame[1 + count + 2 * t] == fills[2 * t]);
        assert(frame[1 + count + 2 * t + 1] == fills[2 * t + 1]);
    }
}

} // verus!
